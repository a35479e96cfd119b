//! One chunk: a fixed number of bytes with bit-level access.

use super::CHUNK_SIZE;
use crate::bit_utils::{bit_at, get_bit, set_bit, toggle_bit, with_bit, with_bit_flipped};
use crate::grid::SizeMismatch;
use vstd::prelude::*;

verus! {

/// A fixed-size piece of the grid's byte image.
#[derive(Clone, Copy)]
pub struct Chunk {
    pub(crate) data: [u8; CHUNK_SIZE],
}

impl View for Chunk {
    type V = Seq<u8>;

    closed spec fn view(&self) -> Seq<u8> {
        self.data@
    }
}

/// Whether a byte offset and a bit position name a cell of a chunk.
pub open spec fn addressable(byte_offset: usize, bit_position: usize) -> bool {
    byte_offset < CHUNK_SIZE && bit_position < 8
}

impl Chunk {
    /// Every chunk holds exactly `CHUNK_SIZE` bytes.
    pub proof fn lemma_len(&self)
        ensures
            self@.len() == CHUNK_SIZE,
    {
    }

    /// A chunk with every cell off.
    pub fn new() -> (chunk: Self)
        ensures
            chunk@ == Seq::new(CHUNK_SIZE as nat, |i: int| 0u8),
    {
        let chunk = Chunk { data: [0; CHUNK_SIZE] };
        assert(chunk.data@ =~= Seq::new(CHUNK_SIZE as nat, |i: int| 0u8));
        chunk
    }

    /// Replaces the whole content by `data`, which must be exactly one chunk
    /// long; otherwise the chunk stays as it was.
    pub fn load_from_slice(&mut self, data: &[u8]) -> (outcome: Result<(), SizeMismatch>)
        ensures
            data@.len() == CHUNK_SIZE ==> outcome is Ok && final(self)@ == data@,
            data@.len() != CHUNK_SIZE ==> final(self)@ == old(self)@ && outcome == Err::<
                (),
                SizeMismatch,
            >(SizeMismatch { expected: CHUNK_SIZE, actual: data@.len() as usize }),
    {
        if data.len() != CHUNK_SIZE {
            return Err(SizeMismatch { expected: CHUNK_SIZE, actual: data.len() });
        }
        let mut i: usize = 0;
        while i < CHUNK_SIZE
            invariant
                i <= CHUNK_SIZE,
                data@.len() == CHUNK_SIZE,
                forall|k: int| 0 <= k < i ==> self.data@[k] == data@[k],
            decreases CHUNK_SIZE - i,
        {
            self.data[i] = data[i];
            i += 1;
        }
        assert(self.data@ =~= data@);
        Ok(())
    }

    /// A copy of the content.
    pub fn dump(&self) -> (copy: [u8; CHUNK_SIZE])
        ensures
            copy@ == self@,
    {
        self.data
    }

    /// One byte of the content.
    pub fn read_byte(&self, byte_offset: usize) -> (byte: u8)
        requires
            byte_offset < CHUNK_SIZE,
        ensures
            byte == self@[byte_offset as int],
    {
        self.data[byte_offset]
    }

    /// Inverts one cell and returns its new value. A position that names no
    /// cell changes nothing and returns `false`.
    pub fn toggle_bit(&mut self, byte_offset: usize, bit_position: usize) -> (value: bool)
        ensures
            final(self)@ == if addressable(byte_offset, bit_position) {
                old(self)@.update(
                    byte_offset as int,
                    with_bit_flipped(old(self)@[byte_offset as int], bit_position),
                )
            } else {
                old(self)@
            },
            value == (addressable(byte_offset, bit_position) && bit_at(
                final(self)@[byte_offset as int],
                bit_position,
            )),
    {
        if byte_offset < CHUNK_SIZE && bit_position < 8 {
            let new_byte: u8 = toggle_bit(self.data[byte_offset], bit_position);
            self.data[byte_offset] = new_byte;
            return get_bit(new_byte, bit_position);
        }
        false
    }

    /// Sets one cell. A position that names no cell changes nothing.
    pub fn set_bit(&mut self, byte_offset: usize, bit_position: usize, value: bool)
        ensures
            final(self)@ == if addressable(byte_offset, bit_position) {
                old(self)@.update(
                    byte_offset as int,
                    with_bit(old(self)@[byte_offset as int], bit_position, value),
                )
            } else {
                old(self)@
            },
    {
        if byte_offset < CHUNK_SIZE && bit_position < 8 {
            self.data[byte_offset] = set_bit(self.data[byte_offset], bit_position, value);
        }
    }

    /// Reads one cell. A position that names no cell reads as `false`.
    pub fn read_bit(&self, byte_offset: usize, bit_position: usize) -> (value: bool)
        ensures
            value == (addressable(byte_offset, bit_position) && bit_at(
                self@[byte_offset as int],
                bit_position,
            )),
    {
        if byte_offset < CHUNK_SIZE && bit_position < 8 {
            get_bit(self.data[byte_offset], bit_position)
        } else {
            false
        }
    }
}

} // verus!
