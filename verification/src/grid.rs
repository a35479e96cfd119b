//! The grid as a mathematical object and the interface every storage layout
//! offers.
//!
//! A grid is a row of `TOTAL_BITS` cells. Its byte image keeps cell `i` in
//! byte `i / 8` at bit `i % 8`, least significant bit first, and has exactly
//! `MAX_SIZE` bytes whatever the layout behind it. Seen as a picture, the
//! cells form `CANVAS_HEIGHT` rows of `CANVAS_WIDTH` cells each.

use crate::bit_utils::{
    bit_at, lemma_bits_determine_byte, lemma_with_bit, lemma_with_bit_flipped, lemma_zero_byte,
    with_bit, with_bit_flipped,
};
use vstd::prelude::*;

verus! {

/// Bytes in the image of a whole grid.
pub const MAX_SIZE: usize = 125000;

/// Cells in a grid.
pub const TOTAL_BITS: usize = 1000000;

/// Cells in one row of the picture.
pub const CANVAS_WIDTH: usize = 1000;

/// Rows in the picture.
pub const CANVAS_HEIGHT: usize = 1000;

/// Bytes that one row of the picture takes in the image.
pub const ROW_BYTES: usize = 125;

/// A byte buffer did not have the length that its destination demands.
#[derive(Debug, Clone, Copy, PartialEq, Eq, Structural)]
pub struct SizeMismatch {
    pub expected: usize,
    pub actual: usize,
}

/// A rectangular cut-out of the picture, one byte per eight cells, rows one
/// after another, together with the geometry it was cut at.
#[derive(Debug)]
pub struct SubRectInfo {
    pub data: Vec<u8>,
    /// Cells to the left of the cut-out.
    pub x_shift: usize,
    /// Rows above the cut-out.
    pub y_shift: usize,
    /// Width of the cut-out in cells.
    pub width: usize,
    /// Height of the cut-out in rows.
    pub height: usize,
    /// Width of the whole picture in cells.
    pub canvas_width: usize,
}

/// The value of cell `index` in a byte image.
pub open spec fn bit_of(image: Seq<u8>, index: int) -> bool {
    bit_at(image[index / 8], (index % 8) as usize)
}

/// All cells of a byte image, in address order.
pub open spec fn cells(image: Seq<u8>) -> Seq<bool> {
    Seq::new(image.len() * 8, |i: int| bit_of(image, i))
}

/// The image after cell `index` was inverted; an index past the last cell
/// changes nothing.
pub open spec fn toggled(image: Seq<u8>, index: int) -> Seq<u8> {
    if 0 <= index < image.len() * 8 {
        image.update(index / 8, with_bit_flipped(image[index / 8], (index % 8) as usize))
    } else {
        image
    }
}

/// The image after cell `index` was set to `value`; an index past the last
/// cell changes nothing.
pub open spec fn written(image: Seq<u8>, index: int, value: bool) -> Seq<u8> {
    if 0 <= index < image.len() * 8 {
        image.update(index / 8, with_bit(image[index / 8], (index % 8) as usize, value))
    } else {
        image
    }
}

/// The image of a grid in which no cell is on.
pub open spec fn blank_image() -> Seq<u8> {
    Seq::new(MAX_SIZE as nat, |i: int| 0u8)
}

/// Whether a cut-out of `bytes_width` bytes by `height` rows, placed
/// `bytes_x` bytes from the left and `bytes_y` rows from the top, lies
/// inside the picture.
pub open spec fn rect_in_range(bytes_x: int, bytes_y: int, bytes_width: int, height: int) -> bool {
    bytes_x + bytes_width <= ROW_BYTES && bytes_y + height <= CANVAS_HEIGHT
}

/// Where in the image the byte lies that is column `x` of row `y` of a
/// cut-out placed at (`bytes_x`, `bytes_y`).
pub open spec fn rect_source(bytes_x: int, bytes_y: int, x: int, y: int) -> int {
    (bytes_y + y) * ROW_BYTES + bytes_x + x
}

/// The bytes of a cut-out: row after row, each row `bytes_width` bytes taken
/// from the matching row of the picture.
pub open spec fn rect_bytes(
    image: Seq<u8>,
    bytes_x: int,
    bytes_y: int,
    bytes_width: int,
    height: int,
) -> Seq<u8> {
    Seq::new(
        (bytes_width * height) as nat,
        |k: int| image[rect_source(bytes_x, bytes_y, k % bytes_width, k / bytes_width)],
    )
}

/// The picture covers the image exactly: its rows are whole bytes and no
/// byte is left over.
pub proof fn lemma_layout()
    ensures
        MAX_SIZE * 8 == TOTAL_BITS,
        ROW_BYTES * 8 == CANVAS_WIDTH,
        ROW_BYTES * CANVAS_HEIGHT == MAX_SIZE,
        CANVAS_WIDTH * CANVAS_HEIGHT == TOTAL_BITS,
{
}

/// In the blank image every cell is off.
pub proof fn lemma_blank_cell(index: int)
    requires
        0 <= index < TOTAL_BITS,
    ensures
        !bit_of(blank_image(), index),
{
    lemma_zero_byte((index % 8) as usize);
}

/// Inverting a cell inverts that cell, keeps every other cell and keeps the
/// length of the image.
pub proof fn lemma_toggled_cell(image: Seq<u8>, index: int, other: int)
    requires
        0 <= index < image.len() * 8,
        0 <= other < image.len() * 8,
    ensures
        toggled(image, index).len() == image.len(),
        bit_of(toggled(image, index), other) == (if other == index {
            !bit_of(image, other)
        } else {
            bit_of(image, other)
        }),
{
    if other / 8 == index / 8 {
        lemma_with_bit_flipped(image[index / 8], (index % 8) as usize, (other % 8) as usize);
    }
}

/// Writing a cell makes that cell read back as written, keeps every other
/// cell and keeps the length of the image.
pub proof fn lemma_written_cell(image: Seq<u8>, index: int, value: bool, other: int)
    requires
        0 <= index < image.len() * 8,
        0 <= other < image.len() * 8,
    ensures
        written(image, index, value).len() == image.len(),
        bit_of(written(image, index, value), other) == (if other == index {
            value
        } else {
            bit_of(image, other)
        }),
{
    if other / 8 == index / 8 {
        lemma_with_bit(image[index / 8], (index % 8) as usize, value, (other % 8) as usize);
    }
}

/// Two images of one length that agree on every cell are the same image.
pub proof fn lemma_cells_determine_image(a: Seq<u8>, b: Seq<u8>)
    requires
        a.len() == b.len(),
        forall|i: int| 0 <= i < a.len() * 8 ==> bit_of(a, i) == bit_of(b, i),
    ensures
        a == b,
{
    assert forall|j: int| 0 <= j < a.len() implies a[j] == b[j] by {
        assert forall|k: usize| k < 8 implies bit_at(a[j], k) == bit_at(b[j], k) by {
            let i = j * 8 + k;
            assert(i / 8 == j && i % 8 == k);
            assert(bit_of(a, i) == bit_of(b, i));
        }
        lemma_bits_determine_byte(a[j], b[j]);
    }
    assert(a =~= b);
}

/// Inverting the same cell twice gives back the image one started from, and
/// in between the cell holds the opposite of its first value.
pub proof fn lemma_toggle_twice(image: Seq<u8>, index: int)
    requires
        0 <= index < image.len() * 8,
    ensures
        bit_of(toggled(image, index), index) == !bit_of(image, index),
        bit_of(toggled(toggled(image, index), index), index) == bit_of(image, index),
        toggled(toggled(image, index), index) == image,
{
    let once = toggled(image, index);
    let twice = toggled(once, index);
    lemma_toggled_cell(image, index, index);
    lemma_toggled_cell(once, index, index);
    assert forall|i: int| 0 <= i < image.len() * 8 implies bit_of(twice, i) == bit_of(
        image,
        i,
    ) by {
        lemma_toggled_cell(image, index, i);
        lemma_toggled_cell(once, index, i);
    }
    lemma_cells_determine_image(twice, image);
}

/// A cell reads back as it was last written, whatever it held before.
pub proof fn lemma_write_then_read(image: Seq<u8>, index: int, value: bool)
    requires
        0 <= index < image.len() * 8,
    ensures
        bit_of(written(image, index, value), index) == value,
{
    lemma_written_cell(image, index, value, index);
}

/// The image after the cells named in `indices` were inverted one after
/// another, first to last.
pub open spec fn toggled_all(image: Seq<u8>, indices: Seq<int>) -> Seq<u8>
    decreases indices.len(),
{
    if indices.len() == 0 {
        image
    } else {
        toggled(toggled_all(image, indices.drop_last()), indices.last())
    }
}

/// A run of inversions keeps the length of the image.
pub proof fn lemma_toggled_all_len(image: Seq<u8>, indices: Seq<int>)
    ensures
        toggled_all(image, indices).len() == image.len(),
    decreases indices.len(),
{
    if indices.len() > 0 {
        lemma_toggled_all_len(image, indices.drop_last());
    }
}

/// No inversion is lost: after a run of inversions on cells that are all
/// different, exactly the cells named in the run hold the opposite of their
/// first value, and every other cell is untouched.
pub proof fn lemma_toggled_all_cell(image: Seq<u8>, indices: Seq<int>, cell: int)
    requires
        indices.no_duplicates(),
        forall|k: int| 0 <= k < indices.len() ==> 0 <= #[trigger] indices[k] < image.len() * 8,
        0 <= cell < image.len() * 8,
    ensures
        bit_of(toggled_all(image, indices), cell) == (bit_of(image, cell) != indices.contains(
            cell,
        )),
    decreases indices.len(),
{
    if indices.len() > 0 {
        let front = indices.drop_last();
        let last = indices.last();
        lemma_toggled_all_len(image, front);
        lemma_toggled_all_cell(image, front, cell);
        lemma_toggled_cell(toggled_all(image, front), last, cell);
        if front.contains(cell) {
            let k = choose|k: int| 0 <= k < front.len() && front[k] == cell;
            assert(indices[k] == cell);
        }
        if indices.contains(cell) && cell != last {
            let k = choose|k: int| 0 <= k < indices.len() && indices[k] == cell;
            assert(front[k] == cell);
        }
        if cell == last {
            assert(indices[indices.len() - 1] == cell);
        }
    }
}

/// The order in which different cells are inverted does not matter: two runs
/// over the same set of cells end in the same image.
pub proof fn lemma_toggle_order_irrelevant(image: Seq<u8>, first: Seq<int>, second: Seq<int>)
    requires
        first.no_duplicates(),
        second.no_duplicates(),
        forall|k: int| 0 <= k < first.len() ==> 0 <= #[trigger] first[k] < image.len() * 8,
        forall|k: int| 0 <= k < second.len() ==> 0 <= #[trigger] second[k] < image.len() * 8,
        forall|cell: int| first.contains(cell) <==> second.contains(cell),
    ensures
        toggled_all(image, first) == toggled_all(image, second),
{
    let a = toggled_all(image, first);
    let b = toggled_all(image, second);
    lemma_toggled_all_len(image, first);
    lemma_toggled_all_len(image, second);
    assert forall|i: int| 0 <= i < a.len() * 8 implies bit_of(a, i) == bit_of(b, i) by {
        lemma_toggled_all_cell(image, first, i);
        lemma_toggled_all_cell(image, second, i);
    }
    lemma_cells_determine_image(a, b);
}

/// Column `x` of row `y` of a cut-out of `bytes_width` columns and `height`
/// rows is its byte number `bytes_width * y + x`, and no other column and row
/// share that number.
pub proof fn lemma_rect_position(bytes_width: int, height: int, x: int, y: int)
    requires
        0 <= x < bytes_width,
        0 <= y < height,
    ensures
        0 <= bytes_width * y + x < bytes_width * height,
        (bytes_width * y + x) % bytes_width == x,
        (bytes_width * y + x) / bytes_width == y,
{
    assert(bytes_width * y == y * bytes_width) by (nonlinear_arith);
    vstd::arithmetic::div_mod::lemma_fundamental_div_mod_converse(
        bytes_width * y + x,
        bytes_width,
        y,
        x,
    );
    assert(bytes_width * y + x < bytes_width * height) by (nonlinear_arith)
        requires
            0 <= x < bytes_width,
            0 <= y < height,
    ;
    assert(0 <= bytes_width * y) by (nonlinear_arith)
        requires
            0 <= bytes_width,
            0 <= y,
    ;
}

/// A cut-out that lies inside the picture takes each of its bytes from
/// inside the image, at the place its column and row name.
pub proof fn lemma_rect_byte(
    image: Seq<u8>,
    bytes_x: int,
    bytes_y: int,
    bytes_width: int,
    height: int,
    x: int,
    y: int,
)
    requires
        image.len() == MAX_SIZE,
        0 <= bytes_x,
        0 <= bytes_y,
        rect_in_range(bytes_x, bytes_y, bytes_width, height),
        0 <= x < bytes_width,
        0 <= y < height,
    ensures
        0 <= rect_source(bytes_x, bytes_y, x, y) < MAX_SIZE,
        0 <= bytes_width * y + x < rect_bytes(image, bytes_x, bytes_y, bytes_width, height).len(),
        rect_bytes(image, bytes_x, bytes_y, bytes_width, height)[bytes_width * y + x]
            == image[rect_source(bytes_x, bytes_y, x, y)],
{
    lemma_rect_position(bytes_width, height, x, y);
}

/// The interface of a grid, whatever its storage layout.
pub trait Grid: Sized {
    /// The byte image of the grid: what a snapshot of it holds.
    spec fn bytes(&self) -> Seq<u8>;

    /// Every grid has an image of exactly `MAX_SIZE` bytes.
    proof fn lemma_bytes_len(&self)
        ensures
            self.bytes().len() == MAX_SIZE,
    ;

    /// A grid with every cell off.
    fn new() -> (grid: Self)
        ensures
            grid.bytes() == blank_image(),
    ;

    /// A snapshot: the byte image of the whole grid, in address order.
    fn get_full(&self) -> (snapshot: [u8; MAX_SIZE])
        ensures
            snapshot@ == self.bytes(),
    ;

    /// Replaces the whole grid by a snapshot.
    fn set_full(&mut self, data: [u8; MAX_SIZE])
        ensures
            final(self).bytes() == data@,
    ;

    /// Cuts `bytes_width` bytes by `height` rows out of the picture, starting
    /// `bytes_x` bytes from the left in row `bytes_y`. A cut-out that does not
    /// lie inside the picture is refused.
    fn get_rect(&self, bytes_x: usize, bytes_y: usize, bytes_width: usize, height: usize) -> (rect:
        Option<SubRectInfo>)
        ensures
            rect is Some <==> rect_in_range(
                bytes_x as int,
                bytes_y as int,
                bytes_width as int,
                height as int,
            ),
            rect matches Some(info) ==> {
                &&& info.data@ == rect_bytes(
                    self.bytes(),
                    bytes_x as int,
                    bytes_y as int,
                    bytes_width as int,
                    height as int,
                )
                &&& info.x_shift == bytes_x * 8
                &&& info.y_shift == bytes_y
                &&& info.width == bytes_width * 8
                &&& info.height == height
                &&& info.canvas_width == CANVAS_WIDTH
            },
    ;

    /// Inverts cell `index` and returns its new value. An index past the last
    /// cell changes nothing and returns `false`.
    fn toggle_item(&mut self, index: usize) -> (value: bool)
        ensures
            final(self).bytes() == toggled(old(self).bytes(), index as int),
            value == (index < TOTAL_BITS && bit_of(final(self).bytes(), index as int)),
    ;
}

/// A snapshot survives being restored: a grid that was filled from the
/// snapshot of another holds what the other held, layout for layout, and a
/// snapshot of it is the snapshot it was filled from.
pub proof fn lemma_snapshot_round_trip<A: Grid, B: Grid>(
    source: A,
    snapshot: [u8; MAX_SIZE],
    restored: B,
    again: [u8; MAX_SIZE],
)
    requires
        snapshot@ == source.bytes(),
        restored.bytes() == snapshot@,
        again@ == restored.bytes(),
    ensures
        restored.bytes() == source.bytes(),
        again == snapshot,
{
    assert(again =~= snapshot);
}

/// Copies a byte buffer into a snapshot, if it has a snapshot's length.
pub fn snapshot_from_slice(bytes: &[u8]) -> (snapshot: Result<[u8; MAX_SIZE], SizeMismatch>)
    ensures
        bytes@.len() == MAX_SIZE ==> snapshot is Ok && snapshot->Ok_0@ == bytes@,
        bytes@.len() != MAX_SIZE ==> snapshot == Err::<[u8; MAX_SIZE], SizeMismatch>(
            SizeMismatch { expected: MAX_SIZE, actual: bytes@.len() as usize },
        ),
{
    if bytes.len() != MAX_SIZE {
        return Err(SizeMismatch { expected: MAX_SIZE, actual: bytes.len() });
    }
    let mut snapshot: [u8; MAX_SIZE] = [0u8; MAX_SIZE];
    let mut i: usize = 0;
    while i < MAX_SIZE
        invariant
            i <= MAX_SIZE,
            bytes@.len() == MAX_SIZE,
            forall|k: int| 0 <= k < i ==> snapshot@[k] == bytes@[k],
        decreases MAX_SIZE - i,
    {
        snapshot[i] = bytes[i];
        i += 1;
    }
    assert(snapshot@ =~= bytes@);
    Ok(snapshot)
}

/// Replaces the whole grid by the snapshot held in a byte buffer. A buffer of
/// any other length than a snapshot's is refused and the grid stays as it
/// was.
pub fn restore<G: Grid>(grid: &mut G, bytes: &[u8]) -> (outcome: Result<(), SizeMismatch>)
    ensures
        bytes@.len() == MAX_SIZE ==> outcome is Ok && final(grid).bytes() == bytes@,
        bytes@.len() != MAX_SIZE ==> final(grid).bytes() == old(grid).bytes() && outcome == Err::<
            (),
            SizeMismatch,
        >(SizeMismatch { expected: MAX_SIZE, actual: bytes@.len() as usize }),
{
    match snapshot_from_slice(bytes) {
        Ok(snapshot) => {
            grid.set_full(snapshot);
            Ok(())
        },
        Err(mismatch) => Err(mismatch),
    }
}

} // verus!
