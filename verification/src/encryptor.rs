//! Three-stage pipeline: the two encapsulation layers and the noise
//! layer, threaded in a fixed order, with the padded-block layer slot
//! reserved but not yet wired in.

use crate::envelope::EncryptedData;
use crate::error::HybridGuardError;
use crate::kdf::LayerKeys;
use crate::layer_hqc::{hqc_decrypt_bytes, hqc_encrypt_bytes, lemma_hqc_round_trip, HqcLayer,
    HQC_ENCAP_LEN};
use crate::layer_mlkem::{lemma_mlkem_round_trip, mlkem_decrypt_bytes, mlkem_encrypt_bytes,
    MlKemLayer, MLKEM_ENCAP_LEN};
use crate::layer_noise::{lemma_noise_round_trip, noise_transform, QuantumNoiseLayer};
use vstd::prelude::*;
use vstd::slice::slice_to_vec;

verus! {

/// The ciphertext of the three-stage pipeline: the payload pushed through
/// the lattice, code and noise layers in that order.
pub open spec fn encryptor_encrypt_bytes(p: Seq<u8>, k1: Seq<u8>, k2: Seq<u8>, k3: Seq<u8>) -> Seq<
    u8,
> {
    noise_transform(hqc_encrypt_bytes(mlkem_encrypt_bytes(p, k1), k2), k3)
}

/// The three-stage pipeline run backwards: noise removal, then the code
/// layer, then the lattice layer. `None` when an intermediate result is
/// shorter than a required encapsulation prefix.
pub open spec fn encryptor_decrypt_bytes(c: Seq<u8>, k1: Seq<u8>, k2: Seq<u8>, k3: Seq<u8>) -> Option<
    Seq<u8>,
> {
    let a = noise_transform(c, k3);
    if a.len() < HQC_ENCAP_LEN {
        None
    } else {
        let b = hqc_decrypt_bytes(a, k2);
        if b.len() < MLKEM_ENCAP_LEN {
            None
        } else {
            Some(mlkem_decrypt_bytes(b, k1))
        }
    }
}

/// The three-stage pipeline decrypts its own ciphertexts back to the
/// original payload, for every payload and every key set.
pub proof fn lemma_encryptor_round_trip(p: Seq<u8>, k1: Seq<u8>, k2: Seq<u8>, k3: Seq<u8>)
    ensures
        encryptor_decrypt_bytes(encryptor_encrypt_bytes(p, k1, k2, k3), k1, k2, k3) == Some(p),
{
    let a = mlkem_encrypt_bytes(p, k1);
    let b = hqc_encrypt_bytes(a, k2);
    lemma_noise_round_trip(b, k3);
    lemma_hqc_round_trip(a, k2);
    lemma_mlkem_round_trip(p, k1);
}

/// Three-stage encryption engine.
pub struct HybridGuardEncryptor {
    layer1: MlKemLayer,
    layer2: HqcLayer,
    layer3: QuantumNoiseLayer,
}

/// Information about one layer of the engine.
#[derive(Debug)]
pub struct LayerInfo {
    pub name: String,
    pub security_level: u32,
    pub status: String,
}

impl HybridGuardEncryptor {
    /// The security level declared by the first layer.
    pub closed spec fn level1(self) -> u32 {
        self.layer1.declared_security_level()
    }

    /// The security level declared by the second layer.
    pub closed spec fn level2(self) -> u32 {
        self.layer2.declared_security_level()
    }

    /// The security level declared by the third layer.
    pub closed spec fn level3(self) -> u32 {
        self.layer3.declared_security_level()
    }

    /// Create an engine with all three active layers.
    pub fn new() -> (r: Self)
        ensures
            r.level1() == 192,
            r.level2() == 256,
            r.level3() == 256,
    {
        HybridGuardEncryptor {
            layer1: MlKemLayer::new(),
            layer2: HqcLayer::new(),
            layer3: QuantumNoiseLayer::new(),
        }
    }

    /// Encrypt `data` through the three layers in order and wrap the
    /// result in an envelope.
    pub fn encrypt(&self, data: &[u8], keys: &LayerKeys) -> (r: Result<
        EncryptedData,
        HybridGuardError,
    >)
        ensures
            r is Ok,
            r->Ok_0.ciphertext@ == encryptor_encrypt_bytes(
                data@,
                keys.layer1_key@,
                keys.layer2_key@,
                keys.layer3_key@,
            ),
            r->Ok_0.layers@.len() == 4,
            r->Ok_0.version@ == "0.1.0"@,
    {
        let layer1_output = self.layer1.encrypt(data, keys.layer1_key.as_slice())?;
        let layer2_output = self.layer2.encrypt(
            layer1_output.as_slice(),
            keys.layer2_key.as_slice(),
        )?;
        let layer3_output = self.layer3.encrypt(
            layer2_output.as_slice(),
            keys.layer3_key.as_slice(),
        )?;
        Ok(EncryptedData::new(layer3_output))
    }

    /// Decrypt an envelope through the three layers in reverse order.
    pub fn decrypt(&self, encrypted: &EncryptedData, keys: &LayerKeys) -> (r: Result<
        Vec<u8>,
        HybridGuardError,
    >)
        ensures
            r is Ok <==> encryptor_decrypt_bytes(
                encrypted.ciphertext@,
                keys.layer1_key@,
                keys.layer2_key@,
                keys.layer3_key@,
            ) is Some,
            r is Ok ==> Some(r->Ok_0@) == encryptor_decrypt_bytes(
                encrypted.ciphertext@,
                keys.layer1_key@,
                keys.layer2_key@,
                keys.layer3_key@,
            ),
            r is Err ==> r->Err_0 is Decryption,
    {
        let layer4_output = slice_to_vec(encrypted.ciphertext.as_slice());
        let layer3_output = self.layer3.decrypt(
            layer4_output.as_slice(),
            keys.layer3_key.as_slice(),
        )?;
        let layer2_output = self.layer2.decrypt(
            layer3_output.as_slice(),
            keys.layer2_key.as_slice(),
        )?;
        let plaintext = self.layer1.decrypt(layer2_output.as_slice(), keys.layer1_key.as_slice())?;
        Ok(plaintext)
    }

    /// Describe all four layer slots: the three active layers and the
    /// reserved fourth slot.
    pub fn layer_info(&self) -> (r: Vec<LayerInfo>)
        ensures
            r@.len() == 4,
            r@[0].name@ == "ML-KEM-768 (Lattice-based)"@,
            r@[0].security_level == self.level1(),
            r@[0].status@ == "Active"@,
            r@[1].name@ == "HQC (Code-based)"@,
            r@[1].security_level == self.level2(),
            r@[1].status@ == "Active"@,
            r@[2].name@ == "Quantum Noise Injection"@,
            r@[2].security_level == self.level3(),
            r@[2].status@ == "Active"@,
            r@[3].name@ == "Homomorphic Encryption"@,
            r@[3].security_level == 256,
            r@[3].status@ == "Coming Soon"@,
    {
        let mut r: Vec<LayerInfo> = Vec::new();
        r.push(
            LayerInfo {
                name: self.layer1.name().to_owned(),
                security_level: self.layer1.security_level(),
                status: String::from_str("Active"),
            },
        );
        r.push(
            LayerInfo {
                name: self.layer2.name().to_owned(),
                security_level: self.layer2.security_level(),
                status: String::from_str("Active"),
            },
        );
        r.push(
            LayerInfo {
                name: self.layer3.name().to_owned(),
                security_level: self.layer3.security_level(),
                status: String::from_str("Active"),
            },
        );
        r.push(
            LayerInfo {
                name: String::from_str("Homomorphic Encryption"),
                security_level: 256,
                status: String::from_str("Coming Soon"),
            },
        );
        r
    }
}

} // verus!
