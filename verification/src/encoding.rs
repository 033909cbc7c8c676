//! Base64, as the `base64` crate computes it.
//!
//! The encoding itself is not verified here: [`encode_standard`] hands the
//! bytes to the crate and [`base64_standard`] names what comes back.

use vstd::prelude::*;

verus! {

/// The base64 text of `input` in the standard alphabet, with padding, as the
/// `base64` crate's `STANDARD` engine writes it.
pub uninterp spec fn base64_standard(input: Seq<u8>) -> Seq<u8>;

/// Whether an input of `len` bytes has an encoding that fits in memory: four
/// output bytes per three input bytes, the last group padded.
pub open spec fn encodable(len: nat) -> bool {
    (len + 2) / 3 * 4 <= isize::MAX
}

/// Calls `base64::encode` and returns the bytes of its `String`.
///
/// Trusted: the result is the crate's encoding of `input`, a function of the
/// input alone. The crate panics when the encoded length overflows; such
/// inputs are excluded.
#[verifier::external_body]
#[allow(deprecated)]
pub(crate) fn encode_standard(input: &[u8]) -> (out: Vec<u8>)
    requires
        encodable(input@.len()),
    ensures
        out@ == base64_standard(input@),
{
    base64::encode(input).into_bytes()
}

} // verus!
