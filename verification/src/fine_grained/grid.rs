//! The grid as a row of chunks.

use super::chunk::Chunk;
use super::{CHUNK_SIZE, NUM_CHUNKS};
use crate::grid::{
    bit_of, blank_image, lemma_rect_byte, rect_bytes, toggled, written, Grid, SubRectInfo,
    CANVAS_HEIGHT, CANVAS_WIDTH, MAX_SIZE, ROW_BYTES, TOTAL_BITS,
};
use vstd::prelude::*;

verus! {

/// A grid stored as `NUM_CHUNKS` chunks of `CHUNK_SIZE` bytes. Byte `i` of
/// its image is byte `i % CHUNK_SIZE` of chunk `i / CHUNK_SIZE`.
pub struct Grid2 {
    chunks: [Chunk; NUM_CHUNKS],
}

/// The cell that is bit `bit` of byte `offset` of chunk `chunk`.
pub open spec fn cell_index(chunk: int, offset: int, bit: int) -> int {
    (chunk * CHUNK_SIZE + offset) * 8 + bit
}

/// The chunk, the byte in it and the bit in that byte where cell `index`
/// lives.
pub open spec fn cell_address(index: int) -> (int, int, int) {
    (index / 8 / (CHUNK_SIZE as int), index / 8 % (CHUNK_SIZE as int), index % 8)
}

/// Every cell of the grid has one place in one chunk: its address names an
/// existing chunk, a byte inside it and a bit inside that, and leads back to
/// the cell.
pub proof fn lemma_cell_has_address(index: int)
    requires
        0 <= index < TOTAL_BITS,
    ensures
        0 <= cell_address(index).0 < NUM_CHUNKS,
        0 <= cell_address(index).1 < CHUNK_SIZE,
        0 <= cell_address(index).2 < 8,
        cell_index(cell_address(index).0, cell_address(index).1, cell_address(index).2) == index,
{
}

/// Every place in a chunk holds one cell of the grid, and no two places hold
/// the same one: the address of the cell at a place is that place.
pub proof fn lemma_address_has_cell(chunk: int, offset: int, bit: int)
    requires
        0 <= chunk < NUM_CHUNKS,
        0 <= offset < CHUNK_SIZE,
        0 <= bit < 8,
    ensures
        0 <= cell_index(chunk, offset, bit) < TOTAL_BITS,
        cell_address(cell_index(chunk, offset, bit)) == (chunk, offset, bit),
{
}

impl Grid for Grid2 {
    closed spec fn bytes(&self) -> Seq<u8> {
        Seq::new(
            MAX_SIZE as nat,
            |i: int| self.chunks@[i / (CHUNK_SIZE as int)]@[i % (CHUNK_SIZE as int)],
        )
    }

    proof fn lemma_bytes_len(&self) {
    }

    fn new() -> (grid: Self) {
        let grid = Grid2 { chunks: [Chunk::new();NUM_CHUNKS] };
        assert(grid.bytes() =~= blank_image());
        grid
    }

    fn get_full(&self) -> (snapshot: [u8; MAX_SIZE]) {
        let mut full_blob: [u8; MAX_SIZE] = [0u8; MAX_SIZE];
        let mut c: usize = 0;
        while c < NUM_CHUNKS
            invariant
                c <= NUM_CHUNKS,
                forall|k: int| 0 <= k < c * CHUNK_SIZE ==> full_blob@[k] == self.bytes()[k],
            decreases NUM_CHUNKS - c,
        {
            let chunk_data: [u8; CHUNK_SIZE] = self.chunks[c].dump();
            let mut j: usize = 0;
            while j < CHUNK_SIZE
                invariant
                    c < NUM_CHUNKS,
                    j <= CHUNK_SIZE,
                    chunk_data@ == self.chunks@[c as int]@,
                    forall|k: int|
                        0 <= k < c * CHUNK_SIZE + j ==> full_blob@[k] == self.bytes()[k],
                decreases CHUNK_SIZE - j,
            {
                full_blob[c * CHUNK_SIZE + j] = chunk_data[j];
                j += 1;
            }
            c += 1;
        }
        assert(full_blob@ =~= self.bytes());
        full_blob
    }

    fn set_full(&mut self, data: [u8; MAX_SIZE]) {
        let mut i: usize = 0;
        while i < NUM_CHUNKS
            invariant
                i <= NUM_CHUNKS,
                forall|c: int| 0 <= c < i ==> (#[trigger] self.chunks@[c])@ == data@.subrange(
                    c * CHUNK_SIZE,
                    c * CHUNK_SIZE + CHUNK_SIZE,
                ),
            decreases NUM_CHUNKS - i,
        {
            let start: usize = i * CHUNK_SIZE;
            let end: usize = start + CHUNK_SIZE;
            let _ = self.chunks[i].load_from_slice(&data[start..end]);
            i += 1;
        }
        assert(self.bytes() =~= data@);
    }

    fn get_rect(&self, bytes_x: usize, bytes_y: usize, bytes_width: usize, height: usize) -> (rect:
        Option<SubRectInfo>) {
        if bytes_x > ROW_BYTES || bytes_width > ROW_BYTES - bytes_x {
            return None;
        }
        if bytes_y > CANVAS_HEIGHT || height > CANVAS_HEIGHT - bytes_y {
            return None;
        }
        assert(bytes_width * height <= ROW_BYTES * CANVAS_HEIGHT) by (nonlinear_arith)
            requires
                bytes_width <= ROW_BYTES,
                height <= CANVAS_HEIGHT,
        ;
        let ghost wanted = rect_bytes(
            self.bytes(),
            bytes_x as int,
            bytes_y as int,
            bytes_width as int,
            height as int,
        );
        let mut result: Vec<u8> = vec![0u8; bytes_width * height];
        let mut y: usize = 0;
        while y < height
            invariant
                y <= height,
                bytes_x + bytes_width <= ROW_BYTES,
                bytes_y + height <= CANVAS_HEIGHT,
                bytes_width * height <= MAX_SIZE,
                result@.len() == bytes_width * height,
                wanted.len() == bytes_width * height,
                wanted == rect_bytes(
                    self.bytes(),
                    bytes_x as int,
                    bytes_y as int,
                    bytes_width as int,
                    height as int,
                ),
                forall|k: int| 0 <= k < bytes_width * y ==> result@[k] == wanted[k],
            decreases height - y,
        {
            let global_y: usize = bytes_y + y;
            let mut x: usize = 0;
            while x < bytes_width
                invariant
                    x <= bytes_width,
                    y < height,
                    global_y == bytes_y + y,
                    bytes_x + bytes_width <= ROW_BYTES,
                    bytes_y + height <= CANVAS_HEIGHT,
                    bytes_width * height <= MAX_SIZE,
                    result@.len() == bytes_width * height,
                    wanted.len() == bytes_width * height,
                    wanted == rect_bytes(
                        self.bytes(),
                        bytes_x as int,
                        bytes_y as int,
                        bytes_width as int,
                        height as int,
                    ),
                    forall|k: int| 0 <= k < bytes_width * y + x ==> result@[k] == wanted[k],
                decreases bytes_width - x,
            {
                proof {
                    lemma_rect_byte(
                        self.bytes(),
                        bytes_x as int,
                        bytes_y as int,
                        bytes_width as int,
                        height as int,
                        x as int,
                        y as int,
                    );
                }
                let global_x: usize = bytes_x + x;
                let (chunk_index, offset_within_chunk) = Self::get_chunk_info(
                    global_y * ROW_BYTES + global_x,
                );
                result[bytes_width * y + x] = self.chunks[chunk_index].read_byte(
                    offset_within_chunk,
                );
                x += 1;
            }
            assert(bytes_width * (y + 1) == bytes_width * y + bytes_width) by (nonlinear_arith);
            y += 1;
        }
        assert(result@ =~= wanted);
        Some(
            SubRectInfo {
                data: result,
                x_shift: bytes_x * 8,
                y_shift: bytes_y,
                width: bytes_width * 8,
                height,
                canvas_width: CANVAS_WIDTH,
            },
        )
    }

    fn toggle_item(&mut self, index: usize) -> (value: bool) {
        if index >= TOTAL_BITS {
            return false;
        }
        let (byte_index, bit_position) = Self::get_bit_info(index);
        let (chunk_index, offset_within_chunk) = Self::get_chunk_info(byte_index);
        proof {
            self.chunks@[chunk_index as int].lemma_len();
        }
        let value = self.chunks[chunk_index].toggle_bit(offset_within_chunk, bit_position);
        assert(self.bytes() =~= toggled(old(self).bytes(), index as int));
        value
    }
}

impl Grid2 {
    /// The chunk that holds byte `byte_index` of the image, and the place of
    /// the byte inside that chunk.
    pub fn get_chunk_info(byte_index: usize) -> (place: (usize, usize))
        ensures
            place.0 == byte_index / CHUNK_SIZE,
            place.1 == byte_index % CHUNK_SIZE,
            place.0 * CHUNK_SIZE + place.1 == byte_index,
            place.0 < NUM_CHUNKS <==> byte_index < MAX_SIZE,
    {
        let chunk_index: usize = byte_index / CHUNK_SIZE;
        let offset_within_chunk: usize = byte_index % CHUNK_SIZE;
        (chunk_index, offset_within_chunk)
    }

    /// The byte of the image that holds cell `bit_index`, and the place of the
    /// cell inside that byte.
    pub fn get_bit_info(bit_index: usize) -> (place: (usize, usize))
        ensures
            place.0 == bit_index / 8,
            place.1 == bit_index % 8,
            place.0 * 8 + place.1 == bit_index,
            place.0 < MAX_SIZE <==> bit_index < TOTAL_BITS,
    {
        let byte_index: usize = bit_index / 8;
        let bit_position: usize = bit_index % 8;
        (byte_index, bit_position)
    }

    /// The value of cell `index`, or nothing where the grid has no such cell.
    pub fn get_item(&self, index: usize) -> (value: Option<bool>)
        ensures
            value == if index < TOTAL_BITS {
                Some(bit_of(self.bytes(), index as int))
            } else {
                None
            },
    {
        if index >= TOTAL_BITS {
            return None;
        }
        let (byte_index, bit_position) = Self::get_bit_info(index);
        let (chunk_index, offset_within_chunk) = Self::get_chunk_info(byte_index);
        Some(self.chunks[chunk_index].read_bit(offset_within_chunk, bit_position))
    }

    /// Sets cell `index` to `value`. An index past the last cell changes
    /// nothing.
    pub fn set_item(&mut self, index: usize, value: bool)
        ensures
            final(self).bytes() == written(old(self).bytes(), index as int, value),
    {
        if index >= TOTAL_BITS {
            return ;
        }
        let (byte_index, bit_position) = Self::get_bit_info(index);
        let (chunk_index, offset_within_chunk) = Self::get_chunk_info(byte_index);
        proof {
            self.chunks@[chunk_index as int].lemma_len();
        }
        self.chunks[chunk_index].set_bit(offset_within_chunk, bit_position, value);
        assert(self.bytes() =~= written(old(self).bytes(), index as int, value));
    }
}

} // verus!
