//! Trusted boundary to the cryptographic hash functions.
//!
//! The two digests are given uninterpreted names: every contract in the
//! crate speaks of `sha3_256_of` and `sha256_of`, and the wrappers below are
//! the only places where those names are tied to executable code.

use sha2::Digest as Sha2Digest;
use sha3::Digest as Sha3Digest;
use vstd::prelude::*;

verus! {

/// The SHA3-256 digest of a byte sequence; a function of the input alone.
pub uninterp spec fn sha3_256_of(input: Seq<u8>) -> Seq<u8>;

/// The SHA-256 digest of a byte sequence; a function of the input alone.
pub uninterp spec fn sha256_of(input: Seq<u8>) -> Seq<u8>;

/// Relies on sha3::Sha3_256 (Digest::new/update/finalize): the digest is
/// 32 bytes and depends on the input bytes alone.
#[verifier::external_body]
pub fn sha3_256(input: &[u8]) -> (r: Vec<u8>)
    ensures
        r@ == sha3_256_of(input@),
        r@.len() == 32,
{
    let mut hasher = sha3::Sha3_256::new();
    hasher.update(input);
    hasher.finalize().to_vec()
}

/// Relies on sha2::Sha256 (Digest::new/update/finalize): the digest is
/// 32 bytes and depends on the input bytes alone.
#[verifier::external_body]
pub fn sha256(input: &[u8]) -> (r: Vec<u8>)
    ensures
        r@ == sha256_of(input@),
        r@.len() == 32,
{
    let mut hasher = sha2::Sha256::new();
    hasher.update(input);
    hasher.finalize().to_vec()
}

} // verus!
