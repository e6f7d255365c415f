//! Small ready-made stations for common conversions.

use vstd::prelude::*;

use crate::computation::{ready, ReadyFuture};
use crate::error::ConveyorError;
use crate::station::Station;

verus! {

/// What decoding a byte sequence as UTF-8 yields: the decoded characters,
/// or nothing when the bytes are not valid UTF-8.
pub uninterp spec fn utf8_decode(bytes: Seq<u8>) -> Option<Seq<char>>;

/// Relies on `String::from_utf8`: it returns the string whose UTF-8 bytes
/// are exactly the input, and fails exactly on input that is not valid
/// UTF-8.  The decoding depends on the bytes alone.
#[verifier::external_body]
fn string_from_utf8(v: Vec<u8>) -> (r: Option<String>)
    ensures
        match r {
            Some(s) => utf8_decode(v@) == Some(s@),
            None => utf8_decode(v@) is None,
        },
{
    String::from_utf8(v).ok()
}

/// A station that decodes a byte vector into text, failing on bytes that
/// are not valid UTF-8.
#[derive(Clone, Debug)]
pub struct ToText;

impl Station for ToText {
    type Input = Vec<u8>;

    type Output = String;

    type Fut = ReadyFuture<Result<String, ConveyorError>>;

    open spec fn pre(&self, input: Vec<u8>) -> bool {
        true
    }

    open spec fn post(&self, input: Vec<u8>, r: Result<String, ConveyorError>) -> bool {
        match r {
            Ok(s) => utf8_decode(input@) == Some(s@),
            Err(_) => utf8_decode(input@) is None,
        }
    }

    open spec fn fuel_bound(&self) -> nat {
        0
    }

    fn execute(&self, input: Vec<u8>) -> (fut: ReadyFuture<Result<String, ConveyorError>>) {
        match string_from_utf8(input) {
            Some(s) => ready(Ok(s)),
            None => ready(Err(ConveyorError::new("the bytes are not valid utf-8"))),
        }
    }
}

/// The byte-vector-to-text station.
pub fn to_text() -> (s: ToText) {
    ToText
}

} // verus!
