//! Content digests: the key under which a file that is already on disk is
//! remembered, so that the same image is not fetched again under another name.

use sha2::{Digest, Sha256};
use vstd::prelude::*;

verus! {

/// The SHA-256 digest of `data`.
pub uninterp spec fn sha256_of(data: Seq<u8>) -> Seq<u8>;

/// The text that lossy UTF-8 decoding makes of `bytes`: well-formed sequences
/// are decoded, everything else becomes the replacement character.
pub uninterp spec fn lossy_text(bytes: Seq<u8>) -> Seq<char>;

/// The digest under which content is remembered: its SHA-256 digest, read as
/// text.
pub open spec fn content_digest(data: Seq<u8>) -> Seq<char> {
    lossy_text(sha256_of(data))
}

/// Calls `sha2::Sha256::digest`. Trusted: the bytes returned are the SHA-256
/// digest of `data`, which depends on `data` alone.
#[verifier::external_body]
fn sha256(data: &Vec<u8>) -> (digest: Vec<u8>)
    ensures
        digest@ == sha256_of(data@),
{
    Sha256::digest(data.as_slice()).to_vec()
}

/// Calls `String::from_utf8_lossy`. Trusted: the text returned is the lossy
/// decoding of `bytes`, which depends on `bytes` alone.
#[verifier::external_body]
fn utf8_lossy(bytes: &Vec<u8>) -> (text: String)
    ensures
        text@ == lossy_text(bytes@),
{
    String::from_utf8_lossy(bytes.as_slice()).into_owned()
}

/// Computes the digest under which the content `t` is remembered.
pub fn calculate_cid(t: &Vec<u8>) -> (cid: String)
    ensures
        cid@ == content_digest(t@),
{
    let digest = sha256(t);
    utf8_lossy(&digest)
}

} // verus!
