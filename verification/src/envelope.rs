//! The envelope around a finished ciphertext: the bytes themselves plus
//! descriptive metadata. The layer names are diagnostic only; decryption
//! never consults them and always assumes the fixed layer order.

use crate::entropy::current_unix_time;
use vstd::prelude::*;

verus! {

/// Ciphertext with metadata: which transforms produced it, under which
/// format version, and when.
#[derive(Debug)]
pub struct EncryptedData {
    /// The encrypted payload.
    pub ciphertext: Vec<u8>,
    /// Names of the transforms that produced the ciphertext, in order.
    pub layers: Vec<String>,
    /// Format version of the envelope.
    pub version: String,
    /// Seconds since the Unix epoch at creation time.
    pub timestamp: u64,
}

impl EncryptedData {
    /// Wrap a ciphertext together with the fixed transform chain, the
    /// current format version and a freshly captured timestamp.
    pub fn new(ciphertext: Vec<u8>) -> (r: Self)
        ensures
            r.ciphertext@ == ciphertext@,
            r.layers@.len() == 4,
            r.layers@[0]@ == "ML-KEM-768"@,
            r.layers@[1]@ == "HQC"@,
            r.layers@[2]@ == "QuantumNoise"@,
            r.layers@[3]@ == "FHE"@,
            r.version@ == "0.1.0"@,
    {
        let mut layers: Vec<String> = Vec::new();
        layers.push(String::from_str("ML-KEM-768"));
        layers.push(String::from_str("HQC"));
        layers.push(String::from_str("QuantumNoise"));
        layers.push(String::from_str("FHE"));
        EncryptedData {
            ciphertext,
            layers,
            version: String::from_str("0.1.0"),
            timestamp: current_unix_time(),
        }
    }
}

} // verus!
