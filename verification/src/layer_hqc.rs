//! Code-based encapsulation layer. The keypair seed, the shared secret
//! and the encapsulation blob are all derived deterministically from the
//! layer key, so that decryption re-derives exactly the values encryption
//! used; the payload is XORed with a stream expanded from the shared
//! secret, and the fixed-length encapsulation blob is prepended.

use crate::error::HybridGuardError;
use crate::hash::{sha3_256, sha3_256_of};
use crate::layers::EncryptionLayer;
use crate::stream::{concat_bytes, lemma_xor_involutive, sha3_expand, sha3_keystream, xor_bytes,
    xor_with};
use vstd::prelude::*;
use vstd::slice::slice_subrange;
use vstd::string::StringSliceAdditionalSpecFns;

verus! {

/// Length in bytes of the encapsulation blob this layer prepends.
pub const HQC_ENCAP_LEN: usize = 14469;

/// The keypair seed: the digest of the layer key and a fixed tag.
pub open spec fn hqc_keypair_seed(key: Seq<u8>) -> Seq<u8> {
    sha3_256_of(key + "hqc-keypair-seed".spec_bytes())
}

/// The shared secret derived from the keypair seed.
pub open spec fn hqc_shared_secret(key: Seq<u8>) -> Seq<u8> {
    sha3_256_of(hqc_keypair_seed(key) + "hqc-shared-secret".spec_bytes())
}

/// The fixed-length encapsulation blob derived from the keypair seed.
pub open spec fn hqc_encapsulation(key: Seq<u8>) -> Seq<u8> {
    sha3_keystream(hqc_keypair_seed(key) + "hqc-encapsulation".spec_bytes(), HQC_ENCAP_LEN as nat)
}

/// The ciphertext: the encapsulation blob followed by the payload XORed
/// with the shared secret's stream.
pub open spec fn hqc_encrypt_bytes(data: Seq<u8>, key: Seq<u8>) -> Seq<u8> {
    hqc_encapsulation(key) + xor_bytes(data, sha3_keystream(hqc_shared_secret(key), data.len()))
}

/// Whether a ciphertext is long enough to hold the encapsulation prefix.
pub open spec fn hqc_decrypt_ok(data: Seq<u8>) -> bool {
    data.len() >= HQC_ENCAP_LEN
}

/// The recovered payload: everything after the encapsulation prefix,
/// XORed with the re-derived shared secret's stream.
pub open spec fn hqc_decrypt_bytes(data: Seq<u8>, key: Seq<u8>) -> Seq<u8> {
    let body = data.skip(HQC_ENCAP_LEN as int);
    xor_bytes(body, sha3_keystream(hqc_shared_secret(key), body.len()))
}

/// Decryption inverts encryption exactly, for every payload and key.
pub proof fn lemma_hqc_round_trip(data: Seq<u8>, key: Seq<u8>)
    ensures
        hqc_encrypt_bytes(data, key).len() == HQC_ENCAP_LEN + data.len(),
        hqc_decrypt_ok(hqc_encrypt_bytes(data, key)),
        hqc_decrypt_bytes(hqc_encrypt_bytes(data, key), key) == data,
{
    let masked = xor_bytes(data, sha3_keystream(hqc_shared_secret(key), data.len()));
    let c = hqc_encrypt_bytes(data, key);
    assert(c.skip(HQC_ENCAP_LEN as int) =~= masked);
    lemma_xor_involutive(data, sha3_keystream(hqc_shared_secret(key), data.len()));
}

/// Code-based encapsulation layer.
pub struct HqcLayer {
    security_level: u32,
}

impl HqcLayer {
    /// The security level this layer declares.
    pub closed spec fn declared_security_level(self) -> u32 {
        self.security_level
    }

    pub fn new() -> (r: Self)
        ensures
            r.declared_security_level() == 256,
    {
        HqcLayer { security_level: 256 }
    }

    /// The deterministic keypair seed for `key`.
    fn derive_keypair_seed(&self, key: &[u8]) -> (r: Vec<u8>)
        ensures
            r@ == hqc_keypair_seed(key@),
            r@.len() == 32,
    {
        let input = concat_bytes(key, "hqc-keypair-seed".as_bytes());
        sha3_256(input.as_slice())
    }

    /// Prepend the encapsulation blob and mask the payload with the
    /// shared secret's stream.
    pub fn encrypt(&self, data: &[u8], key: &[u8]) -> (r: Result<Vec<u8>, HybridGuardError>)
        ensures
            r is Ok,
            r->Ok_0@ == hqc_encrypt_bytes(data@, key@),
            r->Ok_0@.len() == HQC_ENCAP_LEN + data@.len(),
    {
        let seed = self.derive_keypair_seed(key);
        let ss_input = concat_bytes(seed.as_slice(), "hqc-shared-secret".as_bytes());
        let shared_secret = sha3_256(ss_input.as_slice());
        let encap_seed = concat_bytes(seed.as_slice(), "hqc-encapsulation".as_bytes());
        let mut out = sha3_expand(encap_seed.as_slice(), HQC_ENCAP_LEN);
        let keystream = sha3_expand(shared_secret.as_slice(), data.len());
        let mut masked = xor_with(data, keystream.as_slice());
        out.append(&mut masked);
        Ok(out)
    }

    /// Split off the encapsulation prefix, re-derive the shared secret and
    /// unmask the payload.
    pub fn decrypt(&self, data: &[u8], key: &[u8]) -> (r: Result<Vec<u8>, HybridGuardError>)
        ensures
            r is Ok <==> hqc_decrypt_ok(data@),
            r is Ok ==> r->Ok_0@ == hqc_decrypt_bytes(data@, key@),
            r is Err ==> r->Err_0 is Decryption,
    {
        if data.len() < HQC_ENCAP_LEN {
            return Err(
                HybridGuardError::Decryption(
                    String::from_str("input shorter than the encapsulation prefix"),
                ),
            );
        }
        let seed = self.derive_keypair_seed(key);
        let ss_input = concat_bytes(seed.as_slice(), "hqc-shared-secret".as_bytes());
        let shared_secret = sha3_256(ss_input.as_slice());
        let body = slice_subrange(data, HQC_ENCAP_LEN, data.len());
        let keystream = sha3_expand(shared_secret.as_slice(), body.len());
        Ok(xor_with(body, keystream.as_slice()))
    }

    pub fn name(&self) -> (r: &str)
        ensures
            r@ == "HQC (Code-based)"@,
    {
        "HQC (Code-based)"
    }

    pub fn security_level(&self) -> (r: u32)
        ensures
            r == self.declared_security_level(),
    {
        self.security_level
    }
}

impl EncryptionLayer for HqcLayer {
    fn encrypt(&self, data: &[u8], key: &[u8]) -> Result<Vec<u8>, HybridGuardError> {
        HqcLayer::encrypt(self, data, key)
    }

    fn decrypt(&self, data: &[u8], key: &[u8]) -> Result<Vec<u8>, HybridGuardError> {
        HqcLayer::decrypt(self, data, key)
    }

    fn name(&self) -> &str {
        HqcLayer::name(self)
    }

    fn security_level(&self) -> u32 {
        HqcLayer::security_level(self)
    }
}

} // verus!
