//! Trusted encodings from outside crates: base64 and SHA-256 hex digests.
//!
//! Each result is a pure function of the input bytes; the exact character
//! sequences are given names that the rest of the library reasons with.

use base64::Engine;
use sha2::Digest;
use vstd::prelude::*;

verus! {

/// The padded standard-alphabet base64 encoding of a byte sequence.
pub uninterp spec fn base64_of(bytes: Seq<u8>) -> Seq<char>;

/// The unpadded URL-safe base64 encoding of a byte sequence.
pub uninterp spec fn base64_url_of(bytes: Seq<u8>) -> Seq<char>;

/// The lowercase hex rendering of the SHA-256 digest of a byte sequence.
pub uninterp spec fn sha256_hex_of(bytes: Seq<u8>) -> Seq<char>;

/// Relies on base64's `STANDARD` engine: padded encoding with the standard
/// alphabet, four output characters for every three input bytes, rounded up.
#[verifier::external_body]
pub fn base64_encode(bytes: &[u8]) -> (r: String)
    ensures
        r@ == base64_of(bytes@),
        r@.len() == 4 * ((bytes@.len() + 2) / 3),
{
    base64::engine::general_purpose::STANDARD.encode(bytes)
}

/// Relies on base64's `URL_SAFE_NO_PAD` engine: unpadded encoding with the
/// URL-safe alphabet, so the output length is `ceil(4n/3)`.
#[verifier::external_body]
pub fn base64_url_encode(bytes: &[u8]) -> (r: String)
    ensures
        r@ == base64_url_of(bytes@),
        r@.len() == (4 * bytes@.len() + 2) / 3,
{
    base64::engine::general_purpose::URL_SAFE_NO_PAD.encode(bytes)
}

/// Relies on sha2's `Sha256` and its lowercase-hex formatting: a 32-byte
/// digest rendered as 64 hex characters, a pure function of the input.
#[verifier::external_body]
pub fn sha256_hex(bytes: &[u8]) -> (r: String)
    ensures
        r@ == sha256_hex_of(bytes@),
        r@.len() == 64,
{
    let digest = sha2::Sha256::digest(bytes);
    format!("{:x}", digest)
}

} // verus!
