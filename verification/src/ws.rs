//! What a client's socket messages mean.

use crate::grid::TOTAL_BITS;
use vstd::prelude::*;

verus! {

/// A message from a client's socket, reduced to what matters here.
#[derive(Debug)]
pub enum Frame {
    Ping,
    Pong,
    /// A binary message with its payload.
    Binary(Vec<u8>),
    Close,
    /// Any other kind of message.
    Other,
}

/// What to do about a message.
#[derive(Debug, Clone, Copy, PartialEq, Eq, Structural)]
pub enum Reaction {
    /// Nothing.
    Ignore,
    /// Nothing but a warning: the payload, of the length given, is too short
    /// to name a cell.
    TooShort(usize),
    /// Invert the cell with the index given.
    Toggle(usize),
    /// Stop listening to this client.
    Disconnect,
}

/// The number that the first three bytes of a payload spell, least
/// significant byte first.
pub open spec fn spelled_index(payload: Seq<u8>) -> int {
    payload[0] + payload[1] * 256 + payload[2] * 65536
}

/// The cell that a binary payload names: its first three bytes, least
/// significant first, where there are three and the number is the index of
/// a cell.
pub open spec fn named_cell(payload: Seq<u8>) -> Option<usize> {
    if payload.len() >= 3 && spelled_index(payload) < TOTAL_BITS {
        Some(spelled_index(payload) as usize)
    } else {
        None
    }
}

/// Reads the index of a cell out of a binary payload.
pub fn decode_index(payload: &[u8]) -> (index: Option<usize>)
    ensures
        index == named_cell(payload@),
{
    if payload.len() < 3 {
        return None;
    }
    let b0: usize = payload[0] as usize;
    let b1: usize = payload[1] as usize;
    let b2: usize = payload[2] as usize;
    assert(b1 << 8 == b1 * 256 && b2 << 16 == b2 * 65536) by (bit_vector)
        requires
            b1 < 256,
            b2 < 256,
    ;
    let index: usize = b0 + (b1 << 8) + (b2 << 16);
    if index >= TOTAL_BITS {
        return None;
    }
    Some(index)
}

/// The reaction that a message calls for.
pub open spec fn reaction_to(frame: Frame) -> Reaction {
    match frame {
        Frame::Binary(payload) => if payload@.len() < 3 {
            Reaction::TooShort(payload@.len() as usize)
        } else {
            match named_cell(payload@) {
                Some(index) => Reaction::Toggle(index),
                None => Reaction::Ignore,
            }
        },
        Frame::Close => Reaction::Disconnect,
        _ => Reaction::Ignore,
    }
}

/// Decides what to do about a message.
pub fn react(frame: &Frame) -> (reaction: Reaction)
    ensures
        reaction == reaction_to(*frame),
        reaction matches Reaction::Toggle(index) ==> index < TOTAL_BITS,
{
    match frame {
        Frame::Binary(payload) => {
            if payload.len() < 3 {
                Reaction::TooShort(payload.len())
            } else {
                match decode_index(payload.as_slice()) {
                    Some(index) => Reaction::Toggle(index),
                    None => Reaction::Ignore,
                }
            }
        },
        Frame::Close => Reaction::Disconnect,
        _ => Reaction::Ignore,
    }
}

} // verus!
