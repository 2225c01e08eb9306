//! The shared contract of the four transform layers.

use crate::error::HybridGuardError;
use vstd::prelude::*;

pub use crate::layer_fhe::FHELayer;
pub use crate::layer_hqc::HqcLayer;
pub use crate::layer_mlkem::MlKemLayer;
pub use crate::layer_noise::QuantumNoiseLayer;

verus! {

/// One transform stage of the pipeline. Each implementation promises an
/// exact relation between its inputs and outputs on its own inherent
/// methods; this trait only unifies the call shape.
pub trait EncryptionLayer {
    /// Apply the layer's forward transform to `data` under `key`.
    fn encrypt(&self, data: &[u8], key: &[u8]) -> Result<Vec<u8>, HybridGuardError>;

    /// Apply the layer's inverse transform to `data` under `key`.
    fn decrypt(&self, data: &[u8], key: &[u8]) -> Result<Vec<u8>, HybridGuardError>;

    /// A human-readable name for the layer.
    fn name(&self) -> &str;

    /// The security level the layer declares, in bits.
    fn security_level(&self) -> u32;
}

} // verus!
