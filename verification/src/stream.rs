//! Byte-sequence primitives shared by the layers: XOR combination and
//! counter-mode keystream expansion over the two hash functions.

use crate::hash::{sha256, sha256_of, sha3_256, sha3_256_of};
use vstd::bytes::{spec_u64_to_le_bytes, u64_to_le_bytes};
use vstd::prelude::*;
use vstd::slice::slice_to_vec;

verus! {

/// XOR of `a` against the first `a.len()` bytes of `b`.
pub open spec fn xor_bytes(a: Seq<u8>, b: Seq<u8>) -> Seq<u8> {
    Seq::new(a.len(), |i: int| a[i] ^ b[i])
}

/// XOR with the same stream twice gives the original bytes back.
pub proof fn lemma_xor_involutive(a: Seq<u8>, b: Seq<u8>)
    ensures
        xor_bytes(xor_bytes(a, b), b) == a,
{
    let x = xor_bytes(xor_bytes(a, b), b);
    assert forall|i: int| 0 <= i < a.len() implies x[i] == a[i] by {
        let u = a[i];
        let v = b[i];
        assert((u ^ v) ^ v == u) by (bit_vector);
    }
    assert(x =~= a);
}

/// An index inside block `c` of a 32-byte-block stream selects block `c`
/// and the offset within it.
proof fn lemma_block_index(c: int, i: int)
    requires
        c >= 0,
        32 * c <= i < 32 * c + 32,
    ensures
        i / 32 == c,
        i % 32 == i - 32 * c,
{
    assert(i / 32 == c && i % 32 == i - 32 * c) by (nonlinear_arith)
        requires
            32 * c <= i < 32 * c + 32,
            c >= 0,
    ;
}

/// Byte `i` of the SHA3-256 counter-mode stream seeded with `seed`: block
/// `i / 32` is the digest of `seed` followed by the block index as eight
/// little-endian bytes.
pub open spec fn sha3_stream_byte(seed: Seq<u8>, i: int) -> u8 {
    sha3_256_of(seed + spec_u64_to_le_bytes((i / 32) as u64))[i % 32]
}

/// The first `len` bytes of the SHA3-256 counter-mode stream.
pub open spec fn sha3_keystream(seed: Seq<u8>, len: nat) -> Seq<u8> {
    Seq::new(len, |i: int| sha3_stream_byte(seed, i))
}

/// Byte `i` of the SHA-256 counter-mode stream seeded with `seed`.
pub open spec fn sha256_stream_byte(seed: Seq<u8>, i: int) -> u8 {
    sha256_of(seed + spec_u64_to_le_bytes((i / 32) as u64))[i % 32]
}

/// The first `len` bytes of the SHA-256 counter-mode stream.
pub open spec fn sha256_keystream(seed: Seq<u8>, len: nat) -> Seq<u8> {
    Seq::new(len, |i: int| sha256_stream_byte(seed, i))
}

/// Append every byte of `s` to `v`, in order.
pub fn push_all(v: &mut Vec<u8>, s: &[u8])
    ensures
        final(v)@ == old(v)@ + s@,
{
    let mut i: usize = 0;
    while i < s.len()
        invariant
            i <= s@.len(),
            v@ == old(v)@ + s@.take(i as int),
        decreases s@.len() - i,
    {
        let b = s[i];
        v.push(b);
        assert(v@ =~= old(v)@ + s@.take(i as int + 1));
        i = i + 1;
    }
    assert(v@ =~= old(v)@ + s@);
}

/// Expand `seed` to a `len`-byte keystream with SHA3-256 in counter mode.
pub fn sha3_expand(seed: &[u8], len: usize) -> (r: Vec<u8>)
    ensures
        r@ == sha3_keystream(seed@, len as nat),
{
    let mut out: Vec<u8> = Vec::new();
    let mut counter: u64 = 0;
    while out.len() < len
        invariant
            out@.len() == 32 * counter,
            32 * counter <= len + 31,
            forall|i: int| 0 <= i < out@.len() ==> out@[i] == sha3_stream_byte(seed@, i),
        decreases len + 31 - out.len(),
    {
        let mut block_input = slice_to_vec(seed);
        let mut ctr_bytes = u64_to_le_bytes(counter);
        block_input.append(&mut ctr_bytes);
        let mut digest = sha3_256(block_input.as_slice());
        let ghost prev = out@;
        let ghost dig = digest@;
        out.append(&mut digest);
        proof {
            let c = counter as int;
            assert forall|i: int| 0 <= i < out@.len() implies out@[i] == sha3_stream_byte(
                seed@,
                i,
            ) by {
                if i < 32 * c {
                    assert(out@[i] == prev[i]);
                } else {
                    lemma_block_index(c, i);
                    assert(out@[i] == dig[i - 32 * c]);
                }
            }
        }
        counter = counter + 1;
    }
    out.truncate(len);
    assert(out@ =~= sha3_keystream(seed@, len as nat));
    out
}

/// Expand `seed` to a `len`-byte keystream with SHA-256 in counter mode.
pub fn sha256_expand(seed: &[u8], len: usize) -> (r: Vec<u8>)
    ensures
        r@ == sha256_keystream(seed@, len as nat),
{
    let mut out: Vec<u8> = Vec::new();
    let mut counter: u64 = 0;
    while out.len() < len
        invariant
            out@.len() == 32 * counter,
            32 * counter <= len + 31,
            forall|i: int| 0 <= i < out@.len() ==> out@[i] == sha256_stream_byte(seed@, i),
        decreases len + 31 - out.len(),
    {
        let mut block_input = slice_to_vec(seed);
        let mut ctr_bytes = u64_to_le_bytes(counter);
        block_input.append(&mut ctr_bytes);
        let mut digest = sha256(block_input.as_slice());
        let ghost prev = out@;
        let ghost dig = digest@;
        out.append(&mut digest);
        proof {
            let c = counter as int;
            assert forall|i: int| 0 <= i < out@.len() implies out@[i] == sha256_stream_byte(
                seed@,
                i,
            ) by {
                if i < 32 * c {
                    assert(out@[i] == prev[i]);
                } else {
                    lemma_block_index(c, i);
                    assert(out@[i] == dig[i - 32 * c]);
                }
            }
        }
        counter = counter + 1;
    }
    out.truncate(len);
    assert(out@ =~= sha256_keystream(seed@, len as nat));
    out
}

/// The two slices joined into one owned buffer.
pub fn concat_bytes(a: &[u8], b: &[u8]) -> (r: Vec<u8>)
    ensures
        r@ == a@ + b@,
{
    let mut v = slice_to_vec(a);
    push_all(&mut v, b);
    v
}

/// XOR `data` against the matching prefix of `stream`.
pub fn xor_with(data: &[u8], stream: &[u8]) -> (r: Vec<u8>)
    requires
        data@.len() <= stream@.len(),
    ensures
        r@ == xor_bytes(data@, stream@),
{
    let mut r: Vec<u8> = Vec::new();
    let mut i: usize = 0;
    while i < data.len()
        invariant
            i <= data@.len(),
            data@.len() <= stream@.len(),
            r@.len() == i,
            forall|j: int| 0 <= j < i ==> r@[j] == (data@[j] ^ stream@[j]),
        decreases data@.len() - i,
    {
        let x = data[i] ^ stream[i];
        r.push(x);
        i = i + 1;
    }
    assert(r@ =~= xor_bytes(data@, stream@));
    r
}

} // verus!
