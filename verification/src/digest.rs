//! Hashing and text encoding, done by the `sha2` and `base64` crates.

use vstd::prelude::*;
use sha2::Digest;
use sha2::Sha256;

verus! {

/// The SHA-256 digest of `data`: thirty-two bytes.
pub uninterp spec fn sha256(data: Seq<u8>) -> Seq<u8>;

/// The standard base64 text of `data`, padded with `=`.
pub uninterp spec fn base64_text(data: Seq<u8>) -> Seq<char>;

/// Calls `Sha256::digest` of the `sha2` crate. Trusted: the array returned
/// holds the SHA-256 digest of `data`, which `sha256` names.
#[verifier::external_body]
pub(crate) fn sha256_digest(data: &[u8]) -> (digest: [u8; 32])
    ensures
        digest@ == sha256(data@),
{
    Sha256::digest(data).into()
}

/// Calls `base64::encode`. Trusted: the string returned is the standard
/// padded base64 text of `data`, which `base64_text` names. The crate stops
/// only where the length of the text overflows `usize`, which four thirds of
/// `data`, rounded up to a multiple of four, cannot do below the bound asked.
#[verifier::external_body]
pub(crate) fn base64_encode(data: &[u8]) -> (text: String)
    requires
        data@.len() <= usize::MAX / 2,
    ensures
        text@ == base64_text(data@),
{
    base64::encode(data)
}

/// The SHA-256 digest of `head` followed by `tail`.
pub fn sha256_pair(head: &[u8], tail: &[u8]) -> (digest: [u8; 32])
    ensures
        digest@ == sha256(head@ + tail@),
{
    let mut message: Vec<u8> = Vec::new();
    crate::bytes::append_bytes(&mut message, head);
    crate::bytes::append_bytes(&mut message, tail);
    sha256_digest(message.as_slice())
}

} // verus!
