//! Noise-injection layer: XOR with a stream derived deterministically from
//! the layer key, so that applying the transform twice restores the data.

use crate::error::HybridGuardError;
use crate::layers::EncryptionLayer;
use crate::stream::{concat_bytes, lemma_xor_involutive, sha3_expand, sha3_keystream, xor_bytes,
    xor_with};
use vstd::prelude::*;
use vstd::string::StringSliceAdditionalSpecFns;

verus! {

/// The seed of the noise stream for `key`: the key followed by this
/// layer's domain tag.
pub open spec fn noise_seed(key: Seq<u8>) -> Seq<u8> {
    key + "quantum-noise-layer3".spec_bytes()
}

/// The keyed transform of this layer: XOR with the key-derived stream.
/// One and the same function encrypts and decrypts.
pub open spec fn noise_transform(data: Seq<u8>, key: Seq<u8>) -> Seq<u8> {
    xor_bytes(data, sha3_keystream(noise_seed(key), data.len()))
}

/// The transform is its own inverse: applying it twice under the same key
/// returns the original data.
pub proof fn lemma_noise_round_trip(data: Seq<u8>, key: Seq<u8>)
    ensures
        noise_transform(noise_transform(data, key), key) == data,
{
    lemma_xor_involutive(data, sha3_keystream(noise_seed(key), data.len()));
}

/// Noise-injection layer; key-deterministic, length-preserving.
pub struct QuantumNoiseLayer {
    security_level: u32,
}

impl QuantumNoiseLayer {
    /// The security level this layer declares.
    pub closed spec fn declared_security_level(self) -> u32 {
        self.security_level
    }

    pub fn new() -> (r: Self)
        ensures
            r.declared_security_level() == 256,
    {
        QuantumNoiseLayer { security_level: 256 }
    }

    /// Generate the deterministic noise stream for `key`.
    fn generate_noise(&self, key: &[u8], length: usize) -> (r: Vec<u8>)
        ensures
            r@ == sha3_keystream(noise_seed(key@), length as nat),
    {
        let seed = concat_bytes(key, "quantum-noise-layer3".as_bytes());
        sha3_expand(seed.as_slice(), length)
    }

    /// Inject noise: XOR the data with the key-derived stream.
    pub fn encrypt(&self, data: &[u8], key: &[u8]) -> (r: Result<Vec<u8>, HybridGuardError>)
        ensures
            r is Ok,
            r->Ok_0@ == noise_transform(data@, key@),
            r->Ok_0@.len() == data@.len(),
    {
        let noise = self.generate_noise(key, data.len());
        Ok(xor_with(data, noise.as_slice()))
    }

    /// Remove noise: the same XOR as `encrypt`, which undoes it.
    pub fn decrypt(&self, data: &[u8], key: &[u8]) -> (r: Result<Vec<u8>, HybridGuardError>)
        ensures
            r is Ok,
            r->Ok_0@ == noise_transform(data@, key@),
            r->Ok_0@.len() == data@.len(),
    {
        let noise = self.generate_noise(key, data.len());
        Ok(xor_with(data, noise.as_slice()))
    }

    pub fn name(&self) -> (r: &str)
        ensures
            r@ == "Quantum Noise Injection"@,
    {
        "Quantum Noise Injection"
    }

    pub fn security_level(&self) -> (r: u32)
        ensures
            r == self.declared_security_level(),
    {
        self.security_level
    }
}

impl EncryptionLayer for QuantumNoiseLayer {
    fn encrypt(&self, data: &[u8], key: &[u8]) -> Result<Vec<u8>, HybridGuardError> {
        QuantumNoiseLayer::encrypt(self, data, key)
    }

    fn decrypt(&self, data: &[u8], key: &[u8]) -> Result<Vec<u8>, HybridGuardError> {
        QuantumNoiseLayer::decrypt(self, data, key)
    }

    fn name(&self) -> &str {
        QuantumNoiseLayer::name(self)
    }

    fn security_level(&self) -> u32 {
        QuantumNoiseLayer::security_level(self)
    }
}

} // verus!
