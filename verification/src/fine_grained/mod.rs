//! The grid cut into chunks of equal size, each of which can be locked and
//! changed without touching the others.

use crate::grid::MAX_SIZE;
use vstd::prelude::*;

pub mod chunk;
pub mod grid;

pub use chunk::Chunk;
pub use grid::Grid2;

verus! {

/// Bytes in one chunk.
pub const CHUNK_SIZE: usize = 125;

/// Chunks in a grid.
pub const NUM_CHUNKS: usize = MAX_SIZE / CHUNK_SIZE;

/// The chunks cover the image exactly: none overlaps another and no byte is
/// left over.
pub proof fn lemma_chunks_cover()
    ensures
        NUM_CHUNKS * CHUNK_SIZE == MAX_SIZE,
        NUM_CHUNKS == 1000,
{
}

} // verus!
