//! Lossy UTF-8 decoding of raw process output.
//!
//! The extractor's output is a byte stream; the orchestration core decodes it
//! with lossy replacement of invalid sequences, so decoding never fails.

use vstd::prelude::*;

verus! {

/// The character sequence that lossy UTF-8 decoding yields for `bytes`:
/// valid sequences decode normally, invalid ones become replacement
/// characters. The result depends on the bytes alone.
pub uninterp spec fn lossy_utf8(bytes: Seq<u8>) -> Seq<char>;

/// Relies on `String::from_utf8_lossy`: decodes UTF-8, replacing invalid
/// sequences with U+FFFD; a pure function of the bytes, and it never fails.
#[verifier::external_body]
pub(crate) fn decode_lossy(bytes: &[u8]) -> (r: String)
    ensures
        r@ == lossy_utf8(bytes@),
{
    String::from_utf8_lossy(bytes).into_owned()
}

} // verus!
