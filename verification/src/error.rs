//! Error kinds surfaced by the encryption pipeline.

use vstd::prelude::*;

verus! {

/// A typed failure from a layer or from the pipeline around it.
///
/// `Encryption` marks a layer that could not produce ciphertext,
/// `Decryption` one that could not recover plaintext (truncated input,
/// missing padding marker), and `InvalidInput` a violated precondition
/// (empty payload, undersized key, mismatched lengths).
#[derive(Debug)]
pub enum HybridGuardError {
    Encryption(String),
    Decryption(String),
    InvalidInput(String),
}

impl HybridGuardError {
    /// The human-readable detail carried by the error.
    pub fn message(&self) -> (r: &String)
        ensures
            r@ == self.message_view(),
    {
        match self {
            HybridGuardError::Encryption(m) => m,
            HybridGuardError::Decryption(m) => m,
            HybridGuardError::InvalidInput(m) => m,
        }
    }

    /// The detail string of the error, as a sequence of characters.
    pub open spec fn message_view(&self) -> Seq<char> {
        match self {
            HybridGuardError::Encryption(m) => m@,
            HybridGuardError::Decryption(m) => m@,
            HybridGuardError::InvalidInput(m) => m@,
        }
    }
}

} // verus!
