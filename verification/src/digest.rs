//! Digests that identify the saved text of a collection.

use vstd::prelude::*;

use vstd::string::*;
use vstd::utf8::encode_utf8;

use crypto_hash::{digest, Algorithm};

verus! {

/// The SHA-256 digest of `data`.
pub uninterp spec fn sha256(data: Seq<u8>) -> Seq<u8>;

/// `crypto_hash::digest` with `Algorithm::SHA256`: the bytes it returns are named by
/// `sha256`, and a SHA-256 digest is 256 bits long. The crate panics where the system's
/// OpenSSL itself fails to make or feed a hasher; nothing about that is stated here.
#[verifier::external_body]
fn sha256_digest(data: &[u8]) -> (r: Vec<u8>)
    ensures
        r@ == sha256(data@),
        r@.len() == 32,
{
    digest(Algorithm::SHA256, data)
}

/// The SHA-256 digest of the UTF-8 bytes of `text`.
pub fn text_digest(text: &str) -> (r: Vec<u8>)
    ensures
        r@ == sha256(encode_utf8(text@)),
        r@.len() == 32,
{
    sha256_digest(text.as_bytes())
}

} // verus!
