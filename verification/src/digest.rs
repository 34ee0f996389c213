//! SHA-256 digesting, delegated to an outside implementation.
//!
//! Raw proof and signature blobs are hashed rather than stored in full, to
//! bound storage while preserving auditability. The digest itself is named,
//! not spelled out: contracts speak of `sha256_of` and nothing in this crate
//! claims what its value is on given bytes.

use vstd::prelude::*;

verus! {

/// The SHA-256 digest of `data`: a function of the input bytes alone.
pub uninterp spec fn sha256_of(data: Seq<u8>) -> Seq<u8>;

/// Relies on sha2's `Sha256` (through the `Digest` trait): the digest is
/// deterministic in the input bytes and is always 32 bytes long.
#[verifier::external_body]
pub(crate) fn sha256_digest(data: &Vec<u8>) -> (r: Vec<u8>)
    ensures
        r@ == sha256_of(data@),
        r@.len() == 32,
{
    let mut hasher = <sha2::Sha256 as sha2::digest::Digest>::new();
    sha2::digest::Digest::update(&mut hasher, data.as_slice());
    let out = sha2::digest::Digest::finalize(hasher);
    out.as_slice().to_vec()
}

} // verus!
