//! Trusted boundary to the process's sources of randomness and time.

use vstd::prelude::*;

verus! {

/// Relies on rand::random: 32 bytes drawn from the thread-local
/// cryptographically secure generator. Nothing can be promised of the
/// values themselves.
#[verifier::external_body]
pub fn random_bytes_32() -> (r: Vec<u8>)
    ensures
        r@.len() == 32,
{
    rand::random::<[u8; 32]>().to_vec()
}

/// Relies on std::time::SystemTime::now: the clock reading, converted to
/// whole seconds since the Unix epoch, or zero when the clock reads
/// earlier than the epoch. Nothing can be promised of the value.
#[verifier::external_body]
pub fn current_unix_time() -> u64 {
    std::time::SystemTime::now()
        .duration_since(std::time::UNIX_EPOCH)
        .map(|d| d.as_secs())
        .unwrap_or(0)
}

} // verus!
