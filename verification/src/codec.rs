//! Snapshots in their transport form: standard base64 text.

use crate::grid::{snapshot_from_slice, SizeMismatch, MAX_SIZE};
use base64::Engine;
use vstd::prelude::*;

verus! {

/// `DecodeError` of the `base64` crate: why a text is not well formed. It is
/// carried from the decoder to the place that turns it into a `LoadError`
/// and never looked into.
#[verifier::external_type_specification]
#[verifier::external_body]
pub struct ExDecodeError(base64::DecodeError);

/// The text that the standard base64 alphabet with padding gives for
/// `bytes`.
pub uninterp spec fn base64_text(bytes: Seq<u8>) -> Seq<char>;

/// The bytes that a text in the standard base64 alphabet with padding stands
/// for, or nothing where the text is not well formed.
pub uninterp spec fn base64_bytes(text: Seq<u8>) -> Option<Seq<u8>>;

/// Whether a buffer of `len` bytes is short enough for its base64 text,
/// four characters for every three bytes begun, to fit in one allocation.
pub open spec fn encodable_len(len: nat) -> bool {
    (len / 3 + 1) * 4 <= isize::MAX
}

/// Why a transport text could not be turned into a snapshot.
#[derive(Debug, Clone, Copy, PartialEq, Eq, Structural)]
pub enum LoadError {
    /// The text is not well-formed base64.
    Undecodable,
    /// The text stands for a number of bytes that is not a snapshot's.
    WrongLength(SizeMismatch),
}

/// `Engine::encode` of the `base64` crate on its `STANDARD` engine. Trusted:
/// the text returned is the base64 text of the bytes given. The crate stops
/// the program where the text's length cannot be computed or allocated,
/// which the precondition rules out.
#[verifier::external_body]
pub(crate) fn base64_encode(bytes: &[u8]) -> (text: String)
    requires
        encodable_len(bytes@.len()),
    ensures
        text@ == base64_text(bytes@),
{
    base64::prelude::BASE64_STANDARD.encode(bytes)
}

/// `Engine::decode` of the `base64` crate on its `STANDARD` engine. Trusted:
/// it succeeds exactly on well-formed text, and then returns the bytes that
/// the text stands for.
#[verifier::external_body]
pub(crate) fn base64_decode(text: &[u8]) -> (outcome: Result<Vec<u8>, base64::DecodeError>)
    ensures
        match outcome {
            Ok(bytes) => base64_bytes(text@) == Some(bytes@),
            Err(_) => base64_bytes(text@) is None,
        },
{
    base64::prelude::BASE64_STANDARD.decode(text)
}

/// The transport form of a snapshot.
pub fn encode_snapshot(snapshot: &[u8; MAX_SIZE]) -> (text: String)
    ensures
        text@ == base64_text(snapshot@),
{
    base64_encode(snapshot.as_slice())
}

/// What decoding makes of the bytes that a transport text stands for, or of
/// a text that stands for none.
pub open spec fn decoded_snapshot(decoded: Option<Seq<u8>>) -> Result<Seq<u8>, LoadError> {
    match decoded {
        None => Err(LoadError::Undecodable),
        Some(bytes) => if bytes.len() == MAX_SIZE {
            Ok(bytes)
        } else {
            Err(
                LoadError::WrongLength(
                    SizeMismatch { expected: MAX_SIZE, actual: bytes.len() as usize },
                ),
            )
        },
    }
}

/// Checks the bytes that a transport text was decoded to: they are a
/// snapshot where there are exactly `MAX_SIZE` of them.
pub fn snapshot_of_decoded(decoded: Option<&[u8]>) -> (outcome: Result<[u8; MAX_SIZE], LoadError>)
    ensures
        match decoded_snapshot(
            match decoded {
                Some(bytes) => Some(bytes@),
                None => None,
            },
        ) {
            Ok(bytes) => outcome is Ok && outcome->Ok_0@ == bytes,
            Err(error) => outcome == Err::<[u8; MAX_SIZE], LoadError>(error),
        },
{
    match decoded {
        None => Err(LoadError::Undecodable),
        Some(bytes) => match snapshot_from_slice(bytes) {
            Ok(snapshot) => Ok(snapshot),
            Err(mismatch) => Err(LoadError::WrongLength(mismatch)),
        },
    }
}

/// Reads a snapshot out of its transport form. Text that is not base64, and
/// text that stands for more or fewer bytes than a snapshot has, is refused.
pub fn decode_snapshot(text: &[u8]) -> (outcome: Result<[u8; MAX_SIZE], LoadError>)
    ensures
        match decoded_snapshot(base64_bytes(text@)) {
            Ok(bytes) => outcome is Ok && outcome->Ok_0@ == bytes,
            Err(error) => outcome == Err::<[u8; MAX_SIZE], LoadError>(error),
        },
{
    match base64_decode(text) {
        Ok(bytes) => snapshot_of_decoded(Some(bytes.as_slice())),
        Err(_) => snapshot_of_decoded(None),
    }
}

} // verus!
