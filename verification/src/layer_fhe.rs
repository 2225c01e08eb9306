//! Padded-block-keystream layer: data is padded to a whole number of
//! 32-byte blocks with a marker byte, then XORed with a stream derived
//! from a sub-key. The layer also exposes two illustrative byte-wise
//! operations on ciphertexts.

use crate::error::HybridGuardError;
use crate::hash::{sha256, sha256_of};
use crate::layers::EncryptionLayer;
use crate::stream::{concat_bytes, lemma_xor_involutive, sha256_expand, sha256_keystream,
    xor_bytes, xor_with};
use vstd::prelude::*;
use vstd::slice::{slice_subrange, slice_to_vec};
use vstd::string::StringSliceAdditionalSpecFns;

verus! {

/// The domain tag hashed in front of the layer key to form the sub-key.
pub open spec fn fhe_key_tag() -> Seq<u8> {
    "FHE-LAYER-KEY-".spec_bytes()
}

/// The sub-key actually used for the keystream.
pub open spec fn fhe_subkey(key: Seq<u8>) -> Seq<u8> {
    sha256_of(fhe_key_tag() + key)
}

/// The length of `data` once padded: the next strict multiple of 32.
pub open spec fn padded_len(len: nat) -> nat {
    (len + (32 - len % 32)) as nat
}

/// `data` followed by a `0x80` marker and enough zero bytes to reach a
/// multiple of the 32-byte block size. A marker is appended even when the
/// data is already block-aligned, so unpadding is never ambiguous.
pub open spec fn pad_bytes(data: Seq<u8>) -> Seq<u8> {
    data + seq![0x80u8] + Seq::new((31 - data.len() % 32) as nat, |i: int| 0u8)
}

/// Strip padding: drop the last `0x80` byte and everything after it.
/// `None` when no marker is present anywhere in the buffer.
pub open spec fn unpad_bytes(data: Seq<u8>) -> Option<Seq<u8>>
    decreases data.len(),
{
    if data.len() == 0 {
        None
    } else if data[data.len() - 1] == 0x80 {
        Some(data.take(data.len() - 1))
    } else {
        unpad_bytes(data.take(data.len() - 1))
    }
}

/// The padded length is a positive multiple of the block size and strictly
/// longer than the data.
pub proof fn lemma_padded_len(len: nat)
    ensures
        padded_len(len) % 32 == 0,
        padded_len(len) > len,
        padded_len(len) > 0,
{
    let q = len as int / 32;
    vstd::arithmetic::div_mod::lemma_fundamental_div_mod(len as int, 32);
    assert(padded_len(len) == 32 * (q + 1));
    assert((32 * (q + 1)) % 32 == 0) by (nonlinear_arith);
}

/// Unpadding at the position of the last marker yields the prefix before
/// that marker.
proof fn lemma_unpad_at(data: Seq<u8>, pos: int)
    requires
        0 <= pos < data.len(),
        data[pos] == 0x80,
        forall|j: int| pos < j < data.len() ==> data[j] != 0x80,
    ensures
        unpad_bytes(data) == Some(data.take(pos)),
    decreases data.len(),
{
    if pos == data.len() - 1 {
    } else {
        let shorter = data.take(data.len() - 1);
        assert(shorter[pos] == 0x80);
        assert forall|j: int| pos < j < shorter.len() implies shorter[j] != 0x80 by {
            assert(shorter[j] == data[j]);
        }
        lemma_unpad_at(shorter, pos);
        assert(shorter.take(pos) =~= data.take(pos));
    }
}

/// A buffer without any marker byte cannot be unpadded.
proof fn lemma_unpad_none(data: Seq<u8>)
    requires
        forall|j: int| 0 <= j < data.len() ==> data[j] != 0x80,
    ensures
        unpad_bytes(data) is None,
    decreases data.len(),
{
    if data.len() > 0 {
        let shorter = data.take(data.len() - 1);
        assert forall|j: int| 0 <= j < shorter.len() implies shorter[j] != 0x80 by {
            assert(shorter[j] == data[j]);
        }
        lemma_unpad_none(shorter);
    }
}

/// Unpadding inverts padding exactly, for every data value.
pub proof fn lemma_unpad_pad(data: Seq<u8>)
    ensures
        unpad_bytes(pad_bytes(data)) == Some(data),
{
    let p = pad_bytes(data);
    let n = data.len() as int;
    assert(p[n] == 0x80);
    assert forall|j: int| n < j < p.len() implies p[j] != 0x80 by {
        assert(p[j] == 0u8);
    }
    lemma_unpad_at(p, n);
    assert(p.take(n) =~= data);
}

/// Whether this layer accepts `(data, key)` for encryption: the payload
/// must be non-empty and the key at least 32 bytes.
pub open spec fn fhe_encrypt_ok(data: Seq<u8>, key: Seq<u8>) -> bool {
    data.len() > 0 && key.len() >= 32
}

/// The ciphertext: padded data XORed with the sub-key's stream.
pub open spec fn fhe_encrypt_bytes(data: Seq<u8>, key: Seq<u8>) -> Seq<u8> {
    xor_bytes(pad_bytes(data), sha256_keystream(fhe_subkey(key), pad_bytes(data).len()))
}

/// The padded plaintext recovered from `data` before unpadding.
pub open spec fn fhe_unmasked(data: Seq<u8>, key: Seq<u8>) -> Seq<u8> {
    xor_bytes(data, sha256_keystream(fhe_subkey(key), data.len()))
}

/// Whether this layer accepts `(data, key)` for decryption and finds a
/// padding marker in the unmasked bytes.
pub open spec fn fhe_decrypt_ok(data: Seq<u8>, key: Seq<u8>) -> bool {
    data.len() > 0 && key.len() >= 32 && unpad_bytes(fhe_unmasked(data, key)) is Some
}

/// The recovered plaintext.
pub open spec fn fhe_decrypt_bytes(data: Seq<u8>, key: Seq<u8>) -> Seq<u8> {
    unpad_bytes(fhe_unmasked(data, key)).unwrap()
}

/// Decryption inverts encryption exactly, for every non-empty payload and
/// every key of at least 32 bytes.
pub proof fn lemma_fhe_round_trip(data: Seq<u8>, key: Seq<u8>)
    requires
        data.len() > 0,
        key.len() >= 32,
    ensures
        fhe_encrypt_ok(data, key),
        fhe_decrypt_ok(fhe_encrypt_bytes(data, key), key),
        fhe_decrypt_bytes(fhe_encrypt_bytes(data, key), key) == data,
{
    let p = pad_bytes(data);
    let ks = sha256_keystream(fhe_subkey(key), p.len());
    let c = fhe_encrypt_bytes(data, key);
    lemma_padded_len(data.len());
    lemma_xor_involutive(p, ks);
    assert(fhe_unmasked(c, key) == p);
    lemma_unpad_pad(data);
}

/// Byte-wise product of each ciphertext byte with a scalar, reduced
/// modulo 256.
pub open spec fn scaled_bytes(ct: Seq<u8>, scalar: u8) -> Seq<u8> {
    Seq::new(ct.len(), |i: int| ((ct[i] * scalar) % 256) as u8)
}

/// Padded-block-keystream layer.
pub struct FHELayer {
    name: String,
}

impl FHELayer {
    /// The label stored inside the layer value.
    pub closed spec fn label(self) -> Seq<char> {
        self.name@
    }

    pub fn new() -> (r: Self)
        ensures
            r.label() == "FHE-Layer"@,
    {
        FHELayer { name: String::from_str("FHE-Layer") }
    }

    /// XOR of two equal-length ciphertexts.
    pub fn homomorphic_add(&self, ct1: &[u8], ct2: &[u8]) -> (r: Result<
        Vec<u8>,
        HybridGuardError,
    >)
        ensures
            r is Ok <==> ct1@.len() == ct2@.len(),
            r is Ok ==> r->Ok_0@ == xor_bytes(ct1@, ct2@) && r->Ok_0@.len() == ct1@.len(),
            r is Err ==> r->Err_0 is InvalidInput,
    {
        if ct1.len() != ct2.len() {
            return Err(
                HybridGuardError::InvalidInput(
                    String::from_str("ciphertexts must be the same length"),
                ),
            );
        }
        Ok(xor_with(ct1, ct2))
    }

    /// Byte-wise multiplication of a ciphertext by a scalar, modulo 256.
    pub fn homomorphic_multiply(&self, ct: &[u8], scalar: u8) -> (r: Result<
        Vec<u8>,
        HybridGuardError,
    >)
        ensures
            r is Ok,
            r->Ok_0@ == scaled_bytes(ct@, scalar),
    {
        let mut out: Vec<u8> = Vec::new();
        let mut i: usize = 0;
        while i < ct.len()
            invariant
                i <= ct@.len(),
                out@.len() == i,
                forall|j: int| 0 <= j < i ==> out@[j] == ((ct@[j] * scalar) % 256) as u8,
            decreases ct@.len() - i,
        {
            let a = ct[i] as u16;
            let b = scalar as u16;
            proof {
                assert(a * b <= 65025) by (nonlinear_arith)
                    requires
                        a <= 255,
                        b <= 255,
                ;
            }
            let prod = a * b;
            out.push((prod % 256) as u8);
            i = i + 1;
        }
        assert(out@ =~= scaled_bytes(ct@, scalar));
        Ok(out)
    }

    /// The sub-key: the digest of the domain tag followed by the key.
    fn derive_fhe_key(&self, key: &[u8]) -> (r: Vec<u8>)
        ensures
            r@ == fhe_subkey(key@),
            r@.len() == 32,
    {
        let input = concat_bytes("FHE-LAYER-KEY-".as_bytes(), key);
        sha256(input.as_slice())
    }

    /// Pad `data` to a whole number of blocks with a marker and zeros.
    fn pad_data(&self, data: &[u8]) -> (r: Vec<u8>)
        ensures
            r@ == pad_bytes(data@),
            r@.len() == padded_len(data@.len()),
    {
        let padding_len: usize = 32 - (data.len() % 32);
        let mut padded = slice_to_vec(data);
        padded.push(0x80);
        assert(padded@ =~= data@ + seq![0x80u8] + Seq::new(0, |i: int| 0u8));
        let mut i: usize = 1;
        while i < padding_len
            invariant
                1 <= i <= padding_len,
                padding_len == 32 - (data@.len() % 32),
                padded@ == data@ + seq![0x80u8] + Seq::new((i - 1) as nat, |j: int| 0u8),
            decreases padding_len - i,
        {
            padded.push(0x00);
            assert(padded@ =~= data@ + seq![0x80u8] + Seq::new(i as nat, |j: int| 0u8));
            i = i + 1;
        }
        assert(padded@ =~= pad_bytes(data@));
        padded
    }

    /// Find the last marker byte and drop it and everything after it.
    fn unpad_data(&self, data: &[u8]) -> (r: Result<Vec<u8>, HybridGuardError>)
        ensures
            r is Ok <==> unpad_bytes(data@) is Some,
            r is Ok ==> Some(r->Ok_0@) == unpad_bytes(data@),
            r is Err ==> r->Err_0 is Decryption,
    {
        let mut i: usize = data.len();
        while i > 0
            invariant
                i <= data@.len(),
                forall|j: int| i <= j < data@.len() ==> data@[j] != 0x80,
            decreases i,
        {
            let idx = i - 1;
            if data[idx] == 0x80 {
                let prefix = slice_subrange(data, 0, idx);
                proof {
                    lemma_unpad_at(data@, idx as int);
                }
                return Ok(slice_to_vec(prefix));
            }
            i = idx;
        }
        proof {
            lemma_unpad_none(data@);
        }
        Err(HybridGuardError::Decryption(String::from_str("padding marker not found")))
    }

    /// Pad, then XOR with the sub-key's stream.
    fn fhe_encrypt(&self, data: &[u8], key: &[u8]) -> (r: Vec<u8>)
        ensures
            r@ == fhe_encrypt_bytes(data@, key@),
            r@.len() == padded_len(data@.len()),
    {
        let derived_key = self.derive_fhe_key(key);
        let padded = self.pad_data(data);
        let keystream = sha256_expand(derived_key.as_slice(), padded.len());
        xor_with(padded.as_slice(), keystream.as_slice())
    }

    /// XOR with the sub-key's stream, then strip padding.
    fn fhe_decrypt(&self, ciphertext: &[u8], key: &[u8]) -> (r: Result<Vec<u8>, HybridGuardError>)
        ensures
            r is Ok <==> unpad_bytes(fhe_unmasked(ciphertext@, key@)) is Some,
            r is Ok ==> Some(r->Ok_0@) == unpad_bytes(fhe_unmasked(ciphertext@, key@)),
            r is Err ==> r->Err_0 is Decryption,
    {
        let derived_key = self.derive_fhe_key(key);
        let keystream = sha256_expand(derived_key.as_slice(), ciphertext.len());
        let padded = xor_with(ciphertext, keystream.as_slice());
        self.unpad_data(padded.as_slice())
    }

    /// Encrypt a non-empty payload under a key of at least 32 bytes.
    /// The ciphertext is always a positive multiple of 32 bytes long.
    pub fn encrypt(&self, data: &[u8], key: &[u8]) -> (r: Result<Vec<u8>, HybridGuardError>)
        ensures
            r is Ok <==> fhe_encrypt_ok(data@, key@),
            r is Ok ==> r->Ok_0@ == fhe_encrypt_bytes(data@, key@),
            r is Ok ==> r->Ok_0@.len() == padded_len(data@.len()) && r->Ok_0@.len() % 32 == 0
                && r->Ok_0@.len() > 0,
            r is Err ==> r->Err_0 is InvalidInput,
    {
        if data.is_empty() {
            return Err(HybridGuardError::InvalidInput(String::from_str("data cannot be empty")));
        }
        if key.len() < 32 {
            return Err(
                HybridGuardError::InvalidInput(String::from_str("key must be at least 32 bytes")),
            );
        }
        proof {
            lemma_padded_len(data@.len());
        }
        Ok(self.fhe_encrypt(data, key))
    }

    /// Decrypt a non-empty ciphertext under a key of at least 32 bytes.
    pub fn decrypt(&self, ciphertext: &[u8], key: &[u8]) -> (r: Result<Vec<u8>, HybridGuardError>)
        ensures
            r is Ok <==> fhe_decrypt_ok(ciphertext@, key@),
            r is Ok ==> r->Ok_0@ == fhe_decrypt_bytes(ciphertext@, key@),
            ciphertext@.len() == 0 || key@.len() < 32 ==> r is Err && r->Err_0 is InvalidInput,
            r is Err ==> r->Err_0 is InvalidInput || r->Err_0 is Decryption,
    {
        if ciphertext.is_empty() {
            return Err(
                HybridGuardError::InvalidInput(String::from_str("ciphertext cannot be empty")),
            );
        }
        if key.len() < 32 {
            return Err(
                HybridGuardError::InvalidInput(String::from_str("key must be at least 32 bytes")),
            );
        }
        self.fhe_decrypt(ciphertext, key)
    }

    pub fn name(&self) -> (r: &str)
        ensures
            r@ == "FHE (Homomorphic)"@,
    {
        "FHE (Homomorphic)"
    }

    pub fn security_level(&self) -> (r: u32)
        ensures
            r == 256,
    {
        256
    }
}

impl EncryptionLayer for FHELayer {
    fn encrypt(&self, data: &[u8], key: &[u8]) -> Result<Vec<u8>, HybridGuardError> {
        FHELayer::encrypt(self, data, key)
    }

    fn decrypt(&self, data: &[u8], key: &[u8]) -> Result<Vec<u8>, HybridGuardError> {
        FHELayer::decrypt(self, data, key)
    }

    fn name(&self) -> &str {
        FHELayer::name(self)
    }

    fn security_level(&self) -> u32 {
        FHELayer::security_level(self)
    }
}

impl Default for FHELayer {
    fn default() -> (r: Self)
        ensures
            r.label() == "FHE-Layer"@,
    {
        FHELayer::new()
    }
}

} // verus!
