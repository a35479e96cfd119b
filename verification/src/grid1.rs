//! The grid kept as one flat byte array.

use crate::bit_utils::{get_bit, set_bit, toggle_bit};
use crate::grid::{
    bit_of, cells, lemma_rect_byte, rect_bytes, written, Grid, SubRectInfo, CANVAS_HEIGHT,
    CANVAS_WIDTH, MAX_SIZE, ROW_BYTES, TOTAL_BITS,
};
use vstd::prelude::*;

verus! {

/// A grid whose storage is its own byte image.
pub struct Grid1 {
    blob: [u8; MAX_SIZE],
}

/// The cells `from_index` to `to_index`, both included, as far as they exist.
pub open spec fn range_cells(image: Seq<u8>, from_index: int, to_index: int) -> Seq<bool> {
    let end: int = if to_index < image.len() * 8 {
        to_index + 1
    } else {
        (image.len() * 8) as int
    };
    if 0 <= from_index < end {
        cells(image).subrange(from_index, end)
    } else {
        Seq::empty()
    }
}

impl Grid for Grid1 {
    closed spec fn bytes(&self) -> Seq<u8> {
        self.blob@
    }

    proof fn lemma_bytes_len(&self) {
    }

    fn new() -> (grid: Self) {
        let grid = Grid1 { blob: [0; MAX_SIZE] };
        assert(grid.blob@ =~= crate::grid::blank_image());
        grid
    }

    fn get_full(&self) -> (snapshot: [u8; MAX_SIZE]) {
        self.blob
    }

    fn set_full(&mut self, data: [u8; MAX_SIZE]) {
        self.blob = data;
    }

    fn get_rect(&self, bytes_x: usize, bytes_y: usize, bytes_width: usize, height: usize) -> (rect:
        Option<SubRectInfo>) {
        if bytes_x > ROW_BYTES || bytes_width > ROW_BYTES - bytes_x {
            return None;
        }
        if bytes_y > CANVAS_HEIGHT || height > CANVAS_HEIGHT - bytes_y {
            return None;
        }
        assert(bytes_width * height <= ROW_BYTES * CANVAS_HEIGHT) by (nonlinear_arith)
            requires
                bytes_width <= ROW_BYTES,
                height <= CANVAS_HEIGHT,
        ;
        let ghost wanted = rect_bytes(
            self.bytes(),
            bytes_x as int,
            bytes_y as int,
            bytes_width as int,
            height as int,
        );
        let mut result: Vec<u8> = vec![0u8; bytes_width * height];
        let mut y: usize = 0;
        while y < height
            invariant
                y <= height,
                bytes_x + bytes_width <= ROW_BYTES,
                bytes_y + height <= CANVAS_HEIGHT,
                bytes_width * height <= MAX_SIZE,
                result@.len() == bytes_width * height,
                wanted.len() == bytes_width * height,
                wanted == rect_bytes(
                    self.bytes(),
                    bytes_x as int,
                    bytes_y as int,
                    bytes_width as int,
                    height as int,
                ),
                forall|k: int| 0 <= k < bytes_width * y ==> result@[k] == wanted[k],
            decreases height - y,
        {
            let mut x: usize = 0;
            while x < bytes_width
                invariant
                    x <= bytes_width,
                    y < height,
                    bytes_x + bytes_width <= ROW_BYTES,
                    bytes_y + height <= CANVAS_HEIGHT,
                    bytes_width * height <= MAX_SIZE,
                    result@.len() == bytes_width * height,
                    wanted.len() == bytes_width * height,
                    wanted == rect_bytes(
                        self.bytes(),
                        bytes_x as int,
                        bytes_y as int,
                        bytes_width as int,
                        height as int,
                    ),
                    forall|k: int| 0 <= k < bytes_width * y + x ==> result@[k] == wanted[k],
                decreases bytes_width - x,
            {
                proof {
                    lemma_rect_byte(
                        self.bytes(),
                        bytes_x as int,
                        bytes_y as int,
                        bytes_width as int,
                        height as int,
                        x as int,
                        y as int,
                    );
                }
                let global_y: usize = bytes_y + y;
                let global_x: usize = bytes_x + x;
                let index: usize = global_y * ROW_BYTES + global_x;
                result[bytes_width * y + x] = self.blob[index];
                x += 1;
            }
            assert(bytes_width * (y + 1) == bytes_width * y + bytes_width) by (nonlinear_arith);
            y += 1;
        }
        assert(result@ =~= wanted);
        Some(
            SubRectInfo {
                data: result,
                x_shift: bytes_x * 8,
                y_shift: bytes_y,
                width: bytes_width * 8,
                height,
                canvas_width: CANVAS_WIDTH,
            },
        )
    }

    fn toggle_item(&mut self, index: usize) -> (value: bool) {
        if index >= TOTAL_BITS {
            return false;
        }
        let cell_index: usize = index / 8;
        let bit_index: usize = index % 8;
        let cell: u8 = self.blob[cell_index];
        let toggled_byte: u8 = toggle_bit(cell, bit_index);
        self.blob[cell_index] = toggled_byte;
        get_bit(toggled_byte, bit_index)
    }
}

impl Grid1 {
    /// The value of cell `index`, or nothing where the grid has no such cell.
    pub fn get_item(&self, index: usize) -> (value: Option<bool>)
        ensures
            value == if index < TOTAL_BITS {
                Some(bit_of(self.bytes(), index as int))
            } else {
                None
            },
    {
        if index >= TOTAL_BITS {
            None
        } else {
            let cell_index: usize = index / 8;
            let bit_index: usize = index % 8;
            let cell: u8 = self.blob[cell_index];
            Some(get_bit(cell, bit_index))
        }
    }

    /// The values of the cells `from_index` to `to_index`, both included. Cells
    /// that the grid does not have are left out, and so is everything when
    /// `to_index` lies before `from_index`.
    pub fn get_range(&self, from_index: usize, to_index: usize) -> (values: Vec<bool>)
        ensures
            values@ == range_cells(self.bytes(), from_index as int, to_index as int),
    {
        let mut values: Vec<bool> = Vec::new();
        if to_index < from_index {
            return values;
        }
        let end: usize = if to_index < TOTAL_BITS {
            to_index + 1
        } else {
            TOTAL_BITS
        };
        if from_index >= end {
            return values;
        }
        let mut index: usize = from_index;
        while index < end
            invariant
                from_index <= index <= end <= TOTAL_BITS,
                values@ == cells(self.bytes()).subrange(from_index as int, index as int),
            decreases end - index,
        {
            let cell: u8 = self.blob[index / 8];
            values.push(get_bit(cell, index % 8));
            index += 1;
        }
        values
    }

    /// Sets cell `index` to `value`. An index past the last cell changes
    /// nothing.
    pub fn set_item(&mut self, index: usize, value: bool)
        ensures
            final(self).bytes() == written(old(self).bytes(), index as int, value),
    {
        if index >= TOTAL_BITS {
            return ;
        }
        let cell_index: usize = index / 8;
        let bit_index: usize = index % 8;
        let cell: u8 = self.blob[cell_index];
        self.blob[cell_index] = set_bit(cell, bit_index, value);
    }
}

} // verus!
