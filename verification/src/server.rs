//! What the service answers: the reply to a toggle and windows into the
//! picture.

use crate::codec::{base64_encode, base64_text, encodable_len};
use crate::grid::{
    rect_bytes, rect_in_range, Grid, SubRectInfo, CANVAS_HEIGHT, CANVAS_WIDTH, ROW_BYTES,
};
use rand::Rng;
use vstd::prelude::*;

verus! {

/// Width in bytes of the window that is shown of the picture.
pub const WINDOW_BYTES: usize = 10;

/// Height in rows of the window that is shown of the picture.
pub const WINDOW_ROWS: usize = 80;

/// A cut-out of the picture in the form it is sent in: its bytes as base64
/// text, its geometry as it is.
#[derive(Debug)]
pub struct SubRectInfoJson {
    pub data: String,
    pub x_shift: usize,
    pub y_shift: usize,
    pub width: usize,
    pub height: usize,
    pub canvas_width: usize,
}

impl SubRectInfoJson {
    /// Puts a cut-out into the form it is sent in.
    pub fn from_info(info: &SubRectInfo) -> (json: Self)
        requires
            encodable_len(info.data@.len()),
        ensures
            json.data@ == base64_text(info.data@),
            json.x_shift == info.x_shift,
            json.y_shift == info.y_shift,
            json.width == info.width,
            json.height == info.height,
            json.canvas_width == info.canvas_width,
    {
        Self {
            data: base64_encode(info.data.as_slice()),
            x_shift: info.x_shift,
            y_shift: info.y_shift,
            width: info.width,
            height: info.height,
            canvas_width: info.canvas_width,
        }
    }
}

/// `Rng::gen_range` of the `rand` crate on the generator that its
/// `thread_rng` hands out, for the range from zero up to, not including,
/// `bound`. Trusted: the number returned lies in that range. Which number it
/// is differs from call to call. The crate stops the program on an empty
/// range, which the precondition rules out.
#[verifier::external_body]
fn random_below(bound: usize) -> (pick: usize)
    requires
        0 < bound,
    ensures
        pick < bound,
{
    rand::thread_rng().gen_range(0..bound)
}

/// The reply to a request that inverted a cell: the cell's new value as a
/// digit.
pub fn toggle_reply(toggled: bool) -> (reply: &'static str)
    ensures
        reply@ == if toggled {
            "1"@
        } else {
            "0"@
        },
{
    if toggled {
        "1"
    } else {
        "0"
    }
}

/// Whether a window can be placed `bytes_x` bytes from the left in row
/// `bytes_y`.
pub open spec fn window_fits(bytes_x: int, bytes_y: int) -> bool {
    rect_in_range(bytes_x, bytes_y, WINDOW_BYTES as int, WINDOW_ROWS as int)
}

/// The window placed `bytes_x` bytes from the left in row `bytes_y`, in the
/// form it is sent in, or nothing where the window does not fit there.
pub fn window_at<G: Grid>(grid: &G, bytes_x: usize, bytes_y: usize) -> (json: Option<
    SubRectInfoJson,
>)
    ensures
        json is Some <==> window_fits(bytes_x as int, bytes_y as int),
        json matches Some(window) ==> {
            &&& window.data@ == base64_text(
                rect_bytes(
                    grid.bytes(),
                    bytes_x as int,
                    bytes_y as int,
                    WINDOW_BYTES as int,
                    WINDOW_ROWS as int,
                ),
            )
            &&& window.x_shift == bytes_x * 8
            &&& window.y_shift == bytes_y
            &&& window.width == WINDOW_BYTES * 8
            &&& window.height == WINDOW_ROWS
            &&& window.canvas_width == CANVAS_WIDTH
        },
{
    match grid.get_rect(bytes_x, bytes_y, WINDOW_BYTES, WINDOW_ROWS) {
        Some(subgrid) => Some(SubRectInfoJson::from_info(&subgrid)),
        None => None,
    }
}

/// A window placed at random, in the form it is sent in. Wherever it falls,
/// it lies inside the picture, and its geometry tells where it fell.
pub fn sub_grid<G: Grid>(grid: &G) -> (window: SubRectInfoJson)
    ensures
        window.x_shift % 8 == 0,
        window.x_shift / 8 < ROW_BYTES - WINDOW_BYTES,
        window.y_shift < CANVAS_HEIGHT - WINDOW_ROWS,
        window.width == WINDOW_BYTES * 8,
        window.height == WINDOW_ROWS,
        window.canvas_width == CANVAS_WIDTH,
        window.data@ == base64_text(
            rect_bytes(
                grid.bytes(),
                window.x_shift as int / 8,
                window.y_shift as int,
                WINDOW_BYTES as int,
                WINDOW_ROWS as int,
            ),
        ),
{
    let x_shift = random_below(ROW_BYTES - WINDOW_BYTES);
    let y_shift = random_below(CANVAS_HEIGHT - WINDOW_ROWS);
    window_at(grid, x_shift, y_shift).unwrap()
}

} // verus!
