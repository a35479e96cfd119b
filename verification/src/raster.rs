//! Snapshots as pictures: one pixel per cell, row after row, red for a cell
//! that is on and white for one that is off.

use crate::bit_utils::{get_bit, set_bit};
use crate::grid::{
    bit_of, lemma_cells_determine_image, lemma_written_cell, written, CANVAS_WIDTH, MAX_SIZE,
    TOTAL_BITS,
};
use vstd::prelude::*;

verus! {

/// An RGB picture of the `image` crate, eight bits per channel. The verifier
/// does not look inside it: all that contracts say of a picture they say
/// through `raster_pixels` and `raster_width`.
#[verifier::external_body]
pub struct Raster {
    pub image: image::ImageBuffer<image::Rgb<u8>, Vec<u8>>,
}

/// Pixels along each side of the picture of a grid: the canvas is square.
pub const PICTURE_SIDE: u32 = 1000;

/// The pixels of a picture as (red, green, blue), row after row from the
/// top, each row from the left.
pub uninterp spec fn raster_pixels(img: Raster) -> Seq<(u8, u8, u8)>;

/// The number of pixels in one row of a picture.
pub uninterp spec fn raster_width(img: Raster) -> nat;

/// The colour that stands for a cell's value.
pub open spec fn pixel_of(on: bool) -> (u8, u8, u8) {
    if on {
        (255u8, 0u8, 0u8)
    } else {
        (255u8, 255u8, 255u8)
    }
}

/// The pixels of the picture that shows a byte image.
pub open spec fn picture_of(image: Seq<u8>) -> Seq<(u8, u8, u8)> {
    Seq::new(image.len() * 8, |i: int| pixel_of(bit_of(image, i)))
}

/// Whether a picture has the size of the grid's canvas.
pub open spec fn canvas_sized(img: Raster) -> bool {
    raster_width(img) == CANVAS_WIDTH && raster_pixels(img).len() == TOTAL_BITS
}

/// A picture painted from a snapshot reads back as that snapshot: whatever
/// bytes have, cell by cell, "on" exactly where the picture is not white are
/// the bytes the picture was painted from.
pub proof fn lemma_picture_round_trip(snapshot: Seq<u8>, read_back: Seq<u8>)
    requires
        snapshot.len() == read_back.len(),
        forall|i: int|
            0 <= i < snapshot.len() * 8 ==> bit_of(read_back, i) == (picture_of(snapshot)[i]
                != pixel_of(false)),
    ensures
        read_back == snapshot,
{
    lemma_cells_determine_image(read_back, snapshot);
}

/// `ImageBuffer::new` of the `image` crate. Trusted: the picture has the
/// width and height asked for and every channel of every pixel is zero. The
/// crate stops the program where the channel values are too many to count
/// or to allocate, which the precondition rules out.
#[verifier::external_body]
fn raster_new(width: u32, height: u32) -> (img: Raster)
    requires
        3 * width * height <= isize::MAX,
    ensures
        raster_width(img) == width,
        raster_pixels(img) == Seq::new((width * height) as nat, |i: int| (0u8, 0u8, 0u8)),
{
    Raster { image: image::ImageBuffer::new(width, height) }
}

/// `ImageBuffer::dimensions` of the `image` crate. Trusted: the first number
/// is the width, and width times height is the number of pixels.
#[verifier::external_body]
fn raster_dimensions(img: &Raster) -> (dimensions: (u32, u32))
    ensures
        dimensions.0 == raster_width(*img),
        dimensions.0 * dimensions.1 == raster_pixels(*img).len(),
{
    img.image.dimensions()
}

/// `ImageBuffer::put_pixel` of the `image` crate. Trusted: the pixel in
/// column `x` of row `y` becomes the colour given and nothing else changes.
/// The crate stops the program where the place lies outside the picture,
/// which the precondition rules out.
#[verifier::external_body]
fn raster_put(img: &mut Raster, x: u32, y: u32, red: u8, green: u8, blue: u8)
    requires
        x < raster_width(*old(img)),
        y * raster_width(*old(img)) + x < raster_pixels(*old(img)).len(),
    ensures
        raster_width(*final(img)) == raster_width(*old(img)),
        raster_pixels(*final(img)) == raster_pixels(*old(img)).update(
            y * raster_width(*old(img)) + x,
            (red, green, blue),
        ),
{
    img.image.put_pixel(x, y, image::Rgb([red, green, blue]))
}

/// `ImageBuffer::get_pixel` of the `image` crate. Trusted: the colour
/// returned is that of the pixel in column `x` of row `y`. The crate stops
/// the program where the place lies outside the picture, which the
/// precondition rules out.
#[verifier::external_body]
fn raster_get(img: &Raster, x: u32, y: u32) -> (colour: (u8, u8, u8))
    requires
        x < raster_width(*img),
        y * raster_width(*img) + x < raster_pixels(*img).len(),
    ensures
        colour == raster_pixels(*img)[y * raster_width(*img) + x],
{
    let pixel = img.image.get_pixel(x, y);
    (pixel.0[0], pixel.0[1], pixel.0[2])
}

/// Paints a snapshot: cell `i` becomes the pixel in column
/// `i % CANVAS_WIDTH` of row `i / CANVAS_WIDTH`, red where the cell is on and
/// white where it is off.
pub fn to_raster(snapshot: &[u8; MAX_SIZE]) -> (img: Raster)
    ensures
        raster_width(img) == CANVAS_WIDTH,
        raster_pixels(img) == picture_of(snapshot@),
{
    let mut img = raster_new(PICTURE_SIDE, PICTURE_SIDE);
    let mut i: usize = 0;
    while i < TOTAL_BITS
        invariant
            i <= TOTAL_BITS,
            raster_width(img) == CANVAS_WIDTH,
            raster_pixels(img).len() == TOTAL_BITS,
            forall|k: int| 0 <= k < i ==> raster_pixels(img)[k] == pixel_of(bit_of(snapshot@, k)),
        decreases TOTAL_BITS - i,
    {
        let bit_index: usize = i % 8;
        let byte_index: usize = i / 8;
        let byte: u8 = snapshot[byte_index];
        let bit_value: bool = get_bit(byte, bit_index);
        let x: usize = i % CANVAS_WIDTH;
        let y: usize = i / CANVAS_WIDTH;
        if bit_value {
            raster_put(&mut img, x as u32, y as u32, 255, 0, 0);
        } else {
            raster_put(&mut img, x as u32, y as u32, 255, 255, 255);
        }
        i += 1;
    }
    assert(raster_pixels(img) =~= picture_of(snapshot@));
    img
}

/// Reads a snapshot off a picture of the canvas's size: a cell is off where
/// its pixel is white and on where it has any other colour. A picture of
/// another size is refused.
pub fn from_raster(img: &Raster) -> (snapshot: Option<[u8; MAX_SIZE]>)
    ensures
        snapshot is Some <==> canvas_sized(*img),
        snapshot matches Some(bytes) ==> forall|i: int|
            0 <= i < TOTAL_BITS ==> bit_of(bytes@, i) == (raster_pixels(*img)[i] != pixel_of(
                false,
            )),
{
    let (width, height) = raster_dimensions(img);
    assert(PICTURE_SIDE == CANVAS_WIDTH && PICTURE_SIDE * PICTURE_SIDE == TOTAL_BITS);
    if width != PICTURE_SIDE || height != PICTURE_SIDE {
        if width == PICTURE_SIDE {
            assert(width * height != TOTAL_BITS) by (nonlinear_arith)
                requires
                    width == 1000,
                    height != 1000,
                    TOTAL_BITS == 1000000,
            ;
        }
        return None;
    }
    let mut buffer: [u8; MAX_SIZE] = [0u8; MAX_SIZE];
    let mut i: usize = 0;
    while i < TOTAL_BITS
        invariant
            i <= TOTAL_BITS,
            canvas_sized(*img),
            forall|k: int|
                0 <= k < i ==> bit_of(buffer@, k) == (raster_pixels(*img)[k] != pixel_of(false)),
        decreases TOTAL_BITS - i,
    {
        let bit_index: usize = i % 8;
        let byte_index: usize = i / 8;
        let x: usize = i % CANVAS_WIDTH;
        let y: usize = i / CANVAS_WIDTH;
        let byte: u8 = buffer[byte_index];
        let (red, green, blue) = raster_get(img, x as u32, y as u32);
        let ghost before = buffer@;
        let on: bool = !(red == 255 && green == 255 && blue == 255);
        buffer[byte_index] = set_bit(byte, bit_index, on);
        proof {
            assert(buffer@ == written(before, i as int, on));
            assert forall|k: int| 0 <= k < i + 1 implies bit_of(buffer@, k) == (raster_pixels(
                *img,
            )[k] != pixel_of(false)) by {
                lemma_written_cell(before, i as int, on, k);
            }
        }
        i += 1;
    }
    Some(buffer)
}

} // verus!
