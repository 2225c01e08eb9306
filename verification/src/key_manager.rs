//! Key management: derive a fresh key set from a password and a random
//! salt, or carry an externally restored key set, always together with a
//! printable key identifier.

use crate::entropy::{current_unix_time, random_bytes_32};
use crate::error::HybridGuardError;
use crate::hash::{sha3_256, sha3_256_of};
use crate::kdf::{KeyDerivation, LayerKeys};
use vstd::bytes::u64_to_le_bytes;
use vstd::prelude::*;
use vstd::string::StringSliceAdditionalSpecFns;

verus! {

/// The lower-case hex digit for a value below 16.
pub open spec fn hex_char(n: u8) -> char {
    if n == 0 {
        '0'
    } else if n == 1 {
        '1'
    } else if n == 2 {
        '2'
    } else if n == 3 {
        '3'
    } else if n == 4 {
        '4'
    } else if n == 5 {
        '5'
    } else if n == 6 {
        '6'
    } else if n == 7 {
        '7'
    } else if n == 8 {
        '8'
    } else if n == 9 {
        '9'
    } else if n == 10 {
        'a'
    } else if n == 11 {
        'b'
    } else if n == 12 {
        'c'
    } else if n == 13 {
        'd'
    } else if n == 14 {
        'e'
    } else {
        'f'
    }
}

/// The two hex digits of one byte, high nibble first.
pub open spec fn hex_pair(b: u8) -> Seq<char> {
    seq![hex_char(b / 16), hex_char(b % 16)]
}

/// The lower-case hex rendering of a byte sequence.
pub open spec fn hex_chars(bytes: Seq<u8>) -> Seq<char>
    decreases bytes.len(),
{
    if bytes.len() == 0 {
        Seq::empty()
    } else {
        hex_chars(bytes.drop_last()) + hex_pair(bytes.last())
    }
}

/// Hex rendering doubles the length.
pub proof fn lemma_hex_chars_len(bytes: Seq<u8>)
    ensures
        hex_chars(bytes).len() == 2 * bytes.len(),
    decreases bytes.len(),
{
    if bytes.len() > 0 {
        lemma_hex_chars_len(bytes.drop_last());
    }
}

/// Append the single hex digit for `n` to `s`.
fn push_hex_digit(s: &mut String, n: u8)
    requires
        n < 16,
    ensures
        final(s)@ == old(s)@ + seq![hex_char(n)],
{
    proof {
        reveal_strlit("0");
        reveal_strlit("1");
        reveal_strlit("2");
        reveal_strlit("3");
        reveal_strlit("4");
        reveal_strlit("5");
        reveal_strlit("6");
        reveal_strlit("7");
        reveal_strlit("8");
        reveal_strlit("9");
        reveal_strlit("a");
        reveal_strlit("b");
        reveal_strlit("c");
        reveal_strlit("d");
        reveal_strlit("e");
        reveal_strlit("f");
    }
    match n {
        0 => s.append("0"),
        1 => s.append("1"),
        2 => s.append("2"),
        3 => s.append("3"),
        4 => s.append("4"),
        5 => s.append("5"),
        6 => s.append("6"),
        7 => s.append("7"),
        8 => s.append("8"),
        9 => s.append("9"),
        10 => s.append("a"),
        11 => s.append("b"),
        12 => s.append("c"),
        13 => s.append("d"),
        14 => s.append("e"),
        _ => s.append("f"),
    }
    assert(s@ =~= old(s)@ + seq![hex_char(n)]);
}

/// Render bytes as lower-case hex.
fn to_hex(bytes: &[u8]) -> (r: String)
    ensures
        r@ == hex_chars(bytes@),
{
    let mut s = String::new();
    let mut i: usize = 0;
    while i < bytes.len()
        invariant
            i <= bytes@.len(),
            s@ == hex_chars(bytes@.take(i as int)),
        decreases bytes@.len() - i,
    {
        let b = bytes[i];
        push_hex_digit(&mut s, b / 16);
        push_hex_digit(&mut s, b % 16);
        proof {
            let t = bytes@.take(i as int + 1);
            assert(t.drop_last() =~= bytes@.take(i as int));
            assert(t.last() == bytes@[i as int]);
            assert(s@ =~= hex_chars(t));
        }
        i = i + 1;
    }
    assert(bytes@.take(bytes@.len() as int) =~= bytes@);
    s
}

/// Holds the four layer keys and a printable key identifier.
pub struct KeyManager {
    keys: LayerKeys,
    key_id: String,
}

impl KeyManager {
    /// The key set this manager holds.
    pub closed spec fn key_set(self) -> LayerKeys {
        self.keys
    }

    /// The key identifier, as a sequence of characters.
    pub closed spec fn id(self) -> Seq<char> {
        self.key_id@
    }

    /// The shape of every identifier this module generates: the fixed
    /// prefix followed by 64 hex digits.
    pub open spec fn well_formed_id(id: Seq<char>) -> bool {
        id.len() == 67 && id.subrange(0, 3) == "hg-"@
    }

    /// Generate a fresh key set from `password` and a random 32-byte
    /// salt. The keys are the deterministic derivation from the digest of
    /// the password followed by that salt.
    pub fn generate(password: &str) -> (r: Result<Self, HybridGuardError>)
        ensures
            r is Ok,
            r->Ok_0.key_set().well_sized(),
            exists|salt: Seq<u8>|
                salt.len() == 32 && r->Ok_0.key_set().derived_from(
                    sha3_256_of(password.spec_bytes() + salt),
                ),
            Self::well_formed_id(r->Ok_0.id()),
    {
        let salt = Self::generate_salt();
        let kd = KeyDerivation::from_password(password, salt.as_slice());
        let keys = kd.derive_all_keys()?;
        let key_id = Self::generate_key_id();
        let r = KeyManager { keys, key_id };
        proof {
            let w = salt@;
            assert(w.len() == 32 && r.key_set().derived_from(
                sha3_256_of(password.spec_bytes() + w),
            ));
        }
        Ok(r)
    }

    /// Carry a key set restored by the caller, for instance from
    /// persistent storage, under the identifier it was stored with.
    pub fn from_keys(keys: LayerKeys, key_id: String) -> (r: Self)
        ensures
            r.key_set() == keys,
            r.id() == key_id@,
    {
        KeyManager { keys, key_id }
    }

    /// The keys for all layers.
    pub fn get_keys(&self) -> (r: &LayerKeys)
        ensures
            *r == self.key_set(),
    {
        &self.keys
    }

    /// The printable key identifier.
    pub fn key_id(&self) -> (r: &str)
        ensures
            r@ == self.id(),
    {
        self.key_id.as_str()
    }

    /// A random 32-byte salt.
    fn generate_salt() -> (r: Vec<u8>)
        ensures
            r@.len() == 32,
    {
        random_bytes_32()
    }

    /// A fresh identifier: the fixed prefix and the hex digest of the
    /// current time and 32 random bytes.
    fn generate_key_id() -> (r: String)
        ensures
            Self::well_formed_id(r@),
    {
        let timestamp = current_unix_time();
        let mut input = u64_to_le_bytes(timestamp);
        let mut rnd = random_bytes_32();
        input.append(&mut rnd);
        let digest = sha3_256(input.as_slice());
        let mut id = String::from_str("hg-");
        let hex = to_hex(digest.as_slice());
        id.append(hex.as_str());
        proof {
            reveal_strlit("hg-");
            lemma_hex_chars_len(digest@);
            assert(id@.subrange(0, 3) =~= "hg-"@);
        }
        id
    }
}

} // verus!
