//! Layered data-transformation pipeline.
//!
//! One master secret is expanded into four independent per-layer keys, and a
//! byte payload is pushed through four keyed transforms in a fixed order;
//! decryption runs the inverse transforms in the opposite order and recovers
//! the payload byte for byte.

pub mod encryptor;
pub mod entropy;
pub mod envelope;
pub mod error;
pub mod hash;
pub mod hybridguard;
pub mod kdf;
pub mod key_manager;
pub mod layer_fhe;
pub mod layer_hqc;
pub mod layer_mlkem;
pub mod layer_noise;
pub mod layers;
pub mod stream;

pub use error::HybridGuardError;
pub use hybridguard::HybridGuard;
pub use key_manager::KeyManager;
