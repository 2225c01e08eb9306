//! The complete four-stage pipeline: both encapsulation layers, the noise
//! layer and the padded-block layer, driven by a managed key set.

use crate::envelope::EncryptedData;
use crate::error::HybridGuardError;
use crate::hash::sha3_256_of;
use crate::kdf::LayerKeys;
use crate::key_manager::KeyManager;
use crate::layer_fhe::{fhe_decrypt_bytes, fhe_decrypt_ok, fhe_encrypt_bytes, fhe_encrypt_ok,
    lemma_fhe_round_trip, FHELayer};
use crate::layer_hqc::{hqc_encrypt_bytes, lemma_hqc_round_trip, HqcLayer};
use crate::layer_mlkem::{lemma_mlkem_round_trip, mlkem_encrypt_bytes, MlKemLayer};
use crate::layer_noise::{lemma_noise_round_trip, noise_transform, QuantumNoiseLayer};
use crate::encryptor::{encryptor_decrypt_bytes, encryptor_encrypt_bytes};
use vstd::prelude::*;
use vstd::string::StringSliceAdditionalSpecFns;

verus! {

/// Whether the four-stage pipeline accepts `(p, k4)`: the padded-block
/// layer needs a key of at least 32 bytes, and its input — the output of
/// the first three layers — is never empty.
pub open spec fn pipeline_encrypt_ok(p: Seq<u8>, k4: Seq<u8>) -> bool {
    k4.len() >= 32
}

/// The ciphertext of the four-stage pipeline.
pub open spec fn pipeline_encrypt_bytes(
    p: Seq<u8>,
    k1: Seq<u8>,
    k2: Seq<u8>,
    k3: Seq<u8>,
    k4: Seq<u8>,
) -> Seq<u8> {
    fhe_encrypt_bytes(encryptor_encrypt_bytes(p, k1, k2, k3), k4)
}

/// The four-stage pipeline run backwards. `None` when the padded-block
/// layer rejects the ciphertext or an intermediate result is shorter than
/// a required encapsulation prefix.
pub open spec fn pipeline_decrypt_bytes(
    c: Seq<u8>,
    k1: Seq<u8>,
    k2: Seq<u8>,
    k3: Seq<u8>,
    k4: Seq<u8>,
) -> Option<Seq<u8>> {
    if !fhe_decrypt_ok(c, k4) {
        None
    } else {
        encryptor_decrypt_bytes(fhe_decrypt_bytes(c, k4), k1, k2, k3)
    }
}

/// Round trip of the whole pipeline: decryption under the same key set
/// recovers every payload exactly, whenever the fourth layer's key has at
/// least 32 bytes.
pub proof fn lemma_pipeline_round_trip(p: Seq<u8>, k1: Seq<u8>, k2: Seq<u8>, k3: Seq<u8>, k4: Seq<
    u8,
>)
    requires
        k4.len() >= 32,
    ensures
        pipeline_encrypt_ok(p, k4),
        pipeline_decrypt_bytes(pipeline_encrypt_bytes(p, k1, k2, k3, k4), k1, k2, k3, k4) == Some(
            p,
        ),
{
    let a = mlkem_encrypt_bytes(p, k1);
    let b = hqc_encrypt_bytes(a, k2);
    let c3 = noise_transform(b, k3);
    lemma_mlkem_round_trip(p, k1);
    lemma_hqc_round_trip(a, k2);
    lemma_noise_round_trip(b, k3);
    lemma_fhe_round_trip(c3, k4);
}

/// The four-stage encryption system, holding its key set.
pub struct HybridGuard {
    key_manager: KeyManager,
    layer1: MlKemLayer,
    layer2: HqcLayer,
    layer3: QuantumNoiseLayer,
    layer4: FHELayer,
}

/// Summary of the whole system: its layers and its key identifier.
#[derive(Debug)]
pub struct EncryptionStats {
    pub layers: Vec<LayerInfo>,
    pub key_id: String,
}

/// Information about one layer of the system.
#[derive(Debug)]
pub struct LayerInfo {
    pub name: String,
    pub security_bits: u32,
    pub status: String,
}

impl HybridGuard {
    /// The key set the system encrypts and decrypts with.
    pub closed spec fn key_set(self) -> LayerKeys {
        self.key_manager.key_set()
    }

    /// The key identifier, as a sequence of characters.
    pub closed spec fn id(self) -> Seq<char> {
        self.key_manager.id()
    }

    /// The security levels declared by the four layers.
    pub closed spec fn levels(self) -> (u32, u32, u32, u32) {
        (
            self.layer1.declared_security_level(),
            self.layer2.declared_security_level(),
            self.layer3.declared_security_level(),
            256,
        )
    }

    /// Create a system with a key set freshly derived from `password` and
    /// a random salt.
    pub fn new(password: &str) -> (r: Result<Self, HybridGuardError>)
        ensures
            r is Ok,
            r->Ok_0.key_set().well_sized(),
            exists|salt: Seq<u8>|
                salt.len() == 32 && r->Ok_0.key_set().derived_from(
                    sha3_256_of(password.spec_bytes() + salt),
                ),
            r->Ok_0.levels() == (192u32, 256u32, 256u32, 256u32),
    {
        let key_manager = KeyManager::generate(password)?;
        Ok(
            HybridGuard {
                key_manager,
                layer1: MlKemLayer::new(),
                layer2: HqcLayer::new(),
                layer3: QuantumNoiseLayer::new(),
                layer4: FHELayer::new(),
            },
        )
    }

    /// Create a system around an existing key manager, for instance one
    /// restored from persistent storage by the caller.
    pub fn load(key_manager: KeyManager) -> (r: Self)
        ensures
            r.key_set() == key_manager.key_set(),
            r.id() == key_manager.id(),
            r.levels() == (192u32, 256u32, 256u32, 256u32),
    {
        HybridGuard {
            key_manager,
            layer1: MlKemLayer::new(),
            layer2: HqcLayer::new(),
            layer3: QuantumNoiseLayer::new(),
            layer4: FHELayer::new(),
        }
    }

    /// Encrypt `data` through all four layers and wrap the result in an
    /// envelope. Fails only when the fourth layer's key is shorter than
    /// 32 bytes, which a derived key set never is.
    pub fn encrypt(&self, data: &[u8]) -> (r: Result<EncryptedData, HybridGuardError>)
        ensures
            r is Ok <==> pipeline_encrypt_ok(data@, self.key_set().layer4_key@),
            r is Ok ==> r->Ok_0.ciphertext@ == pipeline_encrypt_bytes(
                data@,
                self.key_set().layer1_key@,
                self.key_set().layer2_key@,
                self.key_set().layer3_key@,
                self.key_set().layer4_key@,
            ),
            r is Ok ==> r->Ok_0.layers@.len() == 4,
            r is Ok ==> r->Ok_0.version@ == "0.1.0"@,
            r is Err ==> r->Err_0 is InvalidInput,
    {
        let keys = self.key_manager.get_keys();
        let layer1_data = self.layer1.encrypt(data, keys.layer1_key.as_slice())?;
        let layer2_data = self.layer2.encrypt(layer1_data.as_slice(), keys.layer2_key.as_slice())?;
        let layer3_data = self.layer3.encrypt(layer2_data.as_slice(), keys.layer3_key.as_slice())?;
        let final_data = self.layer4.encrypt(layer3_data.as_slice(), keys.layer4_key.as_slice())?;
        Ok(EncryptedData::new(final_data))
    }

    /// Decrypt an envelope through all four layers in reverse order.
    pub fn decrypt(&self, encrypted: &EncryptedData) -> (r: Result<Vec<u8>, HybridGuardError>)
        ensures
            r is Ok <==> pipeline_decrypt_bytes(
                encrypted.ciphertext@,
                self.key_set().layer1_key@,
                self.key_set().layer2_key@,
                self.key_set().layer3_key@,
                self.key_set().layer4_key@,
            ) is Some,
            r is Ok ==> Some(r->Ok_0@) == pipeline_decrypt_bytes(
                encrypted.ciphertext@,
                self.key_set().layer1_key@,
                self.key_set().layer2_key@,
                self.key_set().layer3_key@,
                self.key_set().layer4_key@,
            ),
            r is Err ==> r->Err_0 is InvalidInput || r->Err_0 is Decryption,
    {
        let keys = self.key_manager.get_keys();
        let layer4_data = self.layer4.decrypt(
            encrypted.ciphertext.as_slice(),
            keys.layer4_key.as_slice(),
        )?;
        let layer3_data = self.layer3.decrypt(layer4_data.as_slice(), keys.layer3_key.as_slice())?;
        let layer2_data = self.layer2.decrypt(layer3_data.as_slice(), keys.layer2_key.as_slice())?;
        let plaintext = self.layer1.decrypt(layer2_data.as_slice(), keys.layer1_key.as_slice())?;
        Ok(plaintext)
    }

    /// Describe the four layers and the key identifier in use.
    pub fn get_stats(&self) -> (r: EncryptionStats)
        ensures
            r.layers@.len() == 4,
            r.layers@[0].name@ == "ML-KEM-768 (Lattice-based)"@,
            r.layers@[0].security_bits == self.levels().0,
            r.layers@[0].status@ == "Active"@,
            r.layers@[1].name@ == "HQC (Code-based)"@,
            r.layers@[1].security_bits == self.levels().1,
            r.layers@[1].status@ == "Active"@,
            r.layers@[2].name@ == "Quantum Noise Injection"@,
            r.layers@[2].security_bits == self.levels().2,
            r.layers@[2].status@ == "Active"@,
            r.layers@[3].name@ == "FHE (Homomorphic)"@,
            r.layers@[3].security_bits == self.levels().3,
            r.layers@[3].status@ == "Active"@,
            r.key_id@ == self.id(),
    {
        let mut layers: Vec<LayerInfo> = Vec::new();
        layers.push(
            LayerInfo {
                name: self.layer1.name().to_owned(),
                security_bits: self.layer1.security_level(),
                status: String::from_str("Active"),
            },
        );
        layers.push(
            LayerInfo {
                name: self.layer2.name().to_owned(),
                security_bits: self.layer2.security_level(),
                status: String::from_str("Active"),
            },
        );
        layers.push(
            LayerInfo {
                name: self.layer3.name().to_owned(),
                security_bits: self.layer3.security_level(),
                status: String::from_str("Active"),
            },
        );
        layers.push(
            LayerInfo {
                name: self.layer4.name().to_owned(),
                security_bits: self.layer4.security_level(),
                status: String::from_str("Active"),
            },
        );
        EncryptionStats { layers, key_id: self.key_manager.key_id().to_owned() }
    }
}

} // verus!
