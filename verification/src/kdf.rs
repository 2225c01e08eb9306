//! Key derivation: one master secret is expanded into independent
//! per-layer keys, each separated from the others by a domain tag that
//! includes the layer index.

use crate::error::HybridGuardError;
use crate::hash::{sha3_256, sha3_256_of};
use crate::stream::{concat_bytes, push_all};
use vstd::prelude::*;
use vstd::slice::{slice_subrange, slice_to_vec};
use vstd::string::StringSliceAdditionalSpecFns;

verus! {

/// ASCII decimal digits of `n`, most significant first, without leading
/// zeros.
pub open spec fn dec_u8(n: u8) -> Seq<u8> {
    if n < 10 {
        seq![(0x30 + n) as u8]
    } else if n < 100 {
        seq![(0x30 + n / 10) as u8, (0x30 + n % 10) as u8]
    } else {
        seq![(0x30 + n / 100) as u8, (0x30 + (n / 10) % 10) as u8, (0x30 + n % 10) as u8]
    }
}

/// Render `n` as ASCII decimal digits.
fn u8_decimal(n: u8) -> (r: Vec<u8>)
    ensures
        r@ == dec_u8(n),
{
    let mut v: Vec<u8> = Vec::new();
    if n < 10 {
        v.push(0x30 + n);
    } else if n < 100 {
        v.push(0x30 + n / 10);
        v.push(0x30 + n % 10);
    } else {
        v.push(0x30 + n / 100);
        v.push(0x30 + (n / 10) % 10);
        v.push(0x30 + n % 10);
    }
    assert(v@ =~= dec_u8(n));
    v
}

/// The domain-separation tag for one layer: a fixed label followed by the
/// layer index in decimal.
pub open spec fn layer_info_bytes(layer_id: u8) -> Seq<u8> {
    "HybridGuard-Layer-".spec_bytes() + dec_u8(layer_id)
}

/// The 32-byte digest that seeds the key of one layer.
pub open spec fn layer_key_digest(master: Seq<u8>, layer_id: u8) -> Seq<u8> {
    sha3_256_of(master + layer_info_bytes(layer_id) + seq![layer_id])
}

/// Byte `i` of the key-expansion stream: block `i / 32` is the digest of
/// the seed digest followed by the block index as one byte.
pub open spec fn kdf_stream_byte(digest: Seq<u8>, i: int) -> u8 {
    sha3_256_of(digest + seq![(i / 32) as u8])[i % 32]
}

/// The first `len` bytes of the key-expansion stream.
pub open spec fn kdf_expand(digest: Seq<u8>, len: nat) -> Seq<u8> {
    Seq::new(len, |i: int| kdf_stream_byte(digest, i))
}

/// The key of layer `layer_id`: the seed digest truncated, or expanded in
/// counter mode when more than one digest of material is asked for.
pub open spec fn layer_key_bytes(master: Seq<u8>, layer_id: u8, key_size: nat) -> Seq<u8> {
    let digest = layer_key_digest(master, layer_id);
    if key_size <= 32 {
        Seq::new(key_size, |i: int| digest[i])
    } else {
        kdf_expand(digest, key_size)
    }
}

/// An index inside block `c` of a 32-byte-block stream selects block `c`
/// and the offset within it.
proof fn lemma_kdf_block_index(c: int, i: int)
    requires
        c >= 0,
        32 * c <= i < 32 * c + 32,
    ensures
        i / 32 == c,
        i % 32 == i - 32 * c,
{
    assert(i / 32 == c && i % 32 == i - 32 * c) by (nonlinear_arith)
        requires
            32 * c <= i < 32 * c + 32,
            c >= 0,
    ;
}

/// Expand a seed digest to `len` bytes with a single-byte block counter.
fn kdf_expand_exec(digest: &[u8], len: usize) -> (r: Vec<u8>)
    requires
        len <= 8160,
    ensures
        r@ == kdf_expand(digest@, len as nat),
{
    let mut out: Vec<u8> = Vec::new();
    let mut counter: u8 = 0;
    while out.len() < len
        invariant
            out@.len() == 32 * counter,
            32 * counter <= len + 31,
            len <= 8160,
            forall|i: int| 0 <= i < out@.len() ==> out@[i] == kdf_stream_byte(digest@, i),
        decreases len + 31 - out.len(),
    {
        let mut block_input = slice_to_vec(digest);
        block_input.push(counter);
        assert(block_input@ =~= digest@ + seq![counter]);
        let mut block = sha3_256(block_input.as_slice());
        let ghost prev = out@;
        let ghost dig = block@;
        out.append(&mut block);
        proof {
            let c = counter as int;
            assert forall|i: int| 0 <= i < out@.len() implies out@[i] == kdf_stream_byte(
                digest@,
                i,
            ) by {
                if i < 32 * c {
                    assert(out@[i] == prev[i]);
                } else {
                    lemma_kdf_block_index(c, i);
                    assert(out@[i] == dig[i - 32 * c]);
                }
            }
        }
        counter = counter + 1;
    }
    out.truncate(len);
    assert(out@ =~= kdf_expand(digest@, len as nat));
    out
}

/// Derives independent keys for the layers from one master secret.
pub struct KeyDerivation {
    master_key: Vec<u8>,
}

/// Container for the four per-layer keys.
#[derive(Debug, Clone)]
pub struct LayerKeys {
    pub layer1_key: Vec<u8>,
    pub layer2_key: Vec<u8>,
    pub layer3_key: Vec<u8>,
    pub layer4_key: Vec<u8>,
}

impl LayerKeys {
    /// The four keys are exactly the 32-byte keys derived from `master`.
    pub open spec fn derived_from(self, master: Seq<u8>) -> bool {
        &&& self.layer1_key@ == layer_key_bytes(master, 1, 32)
        &&& self.layer2_key@ == layer_key_bytes(master, 2, 32)
        &&& self.layer3_key@ == layer_key_bytes(master, 3, 32)
        &&& self.layer4_key@ == layer_key_bytes(master, 4, 32)
    }

    /// Every key holds exactly 32 bytes.
    pub open spec fn well_sized(self) -> bool {
        &&& self.layer1_key@.len() == 32
        &&& self.layer2_key@.len() == 32
        &&& self.layer3_key@.len() == 32
        &&& self.layer4_key@.len() == 32
    }
}

impl KeyDerivation {
    /// The master secret this instance derives from.
    pub closed spec fn master(self) -> Seq<u8> {
        self.master_key@
    }

    /// Create a key-derivation instance over an externally supplied master
    /// secret.
    pub fn new(master_key: Vec<u8>) -> (r: Self)
        ensures
            r.master() == master_key@,
    {
        KeyDerivation { master_key }
    }

    /// Derive the master secret as the digest of the password followed by
    /// the salt.
    pub fn from_password(password: &str, salt: &[u8]) -> (r: Self)
        ensures
            r.master() == sha3_256_of(password.spec_bytes() + salt@),
    {
        let input = concat_bytes(password.as_bytes(), salt);
        let master_key = sha3_256(input.as_slice());
        KeyDerivation { master_key }
    }

    /// Derive the key of one layer.
    ///
    /// A zero key size is rejected as invalid input rather than silently
    /// yielding an empty key. The size is capped at 8160 bytes (255 blocks
    /// of 32) because the expansion counter is a single byte.
    pub fn derive_layer_key(&self, layer_id: u8, key_size: usize) -> (r: Result<
        Vec<u8>,
        HybridGuardError,
    >)
        requires
            key_size <= 8160,
        ensures
            r is Ok <==> key_size != 0,
            r is Ok ==> r->Ok_0@ == layer_key_bytes(self.master(), layer_id, key_size as nat),
            r is Err ==> r->Err_0 is InvalidInput,
    {
        if key_size == 0 {
            return Err(
                HybridGuardError::InvalidInput(String::from_str("key size must be positive")),
            );
        }
        let mut input = slice_to_vec(self.master_key.as_slice());
        push_all(&mut input, "HybridGuard-Layer-".as_bytes());
        let mut digits = u8_decimal(layer_id);
        input.append(&mut digits);
        input.push(layer_id);
        assert(input@ =~= self.master() + layer_info_bytes(layer_id) + seq![layer_id]);
        let digest = sha3_256(input.as_slice());
        if key_size <= 32 {
            let key = slice_to_vec(slice_subrange(digest.as_slice(), 0, key_size));
            assert(key@ =~= layer_key_bytes(self.master(), layer_id, key_size as nat));
            Ok(key)
        } else {
            let key = kdf_expand_exec(digest.as_slice(), key_size);
            proof {
                assert forall|i: int| 0 <= i < key_size implies key@[i] == layer_key_bytes(
                    self.master(),
                    layer_id,
                    key_size as nat,
                )[i] by {}
                assert(key@ =~= layer_key_bytes(self.master(), layer_id, key_size as nat));
            }
            Ok(key)
        }
    }

    /// Derive all four layer keys, 32 bytes each.
    pub fn derive_all_keys(&self) -> (r: Result<LayerKeys, HybridGuardError>)
        ensures
            r is Ok,
            r->Ok_0.derived_from(self.master()),
            r->Ok_0.well_sized(),
    {
        let layer1_key = self.derive_layer_key(1, 32)?;
        let layer2_key = self.derive_layer_key(2, 32)?;
        let layer3_key = self.derive_layer_key(3, 32)?;
        let layer4_key = self.derive_layer_key(4, 32)?;
        Ok(LayerKeys { layer1_key, layer2_key, layer3_key, layer4_key })
    }
}

/// Key derivation is deterministic: two key sets derived from the same
/// master secret agree key for key.
pub proof fn lemma_key_derivation_deterministic(master: Seq<u8>, a: LayerKeys, b: LayerKeys)
    requires
        a.derived_from(master),
        b.derived_from(master),
    ensures
        a.layer1_key@ == b.layer1_key@,
        a.layer2_key@ == b.layer2_key@,
        a.layer3_key@ == b.layer3_key@,
        a.layer4_key@ == b.layer4_key@,
{
}

} // verus!
