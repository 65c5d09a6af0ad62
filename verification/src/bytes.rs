//! Little-endian integers and addresses inside byte buffers.
use vstd::prelude::*;
use vstd::bytes::{spec_u32_from_le_bytes, spec_u64_from_le_bytes, spec_u64_to_le_bytes};

use crate::pubkey::Pubkey;

verus! {

/// The `u64` stored little-endian at `off` in `data`.
pub open spec fn le_u64_at(data: Seq<u8>, off: int) -> u64 {
    spec_u64_from_le_bytes(data.subrange(off, off + 8))
}

/// The `u32` stored little-endian at `off` in `data`.
pub open spec fn le_u32_at(data: Seq<u8>, off: int) -> u32 {
    spec_u32_from_le_bytes(data.subrange(off, off + 4))
}

/// The eight little-endian bytes of `x`.
pub open spec fn le_bytes(x: u64) -> Seq<u8> {
    spec_u64_to_le_bytes(x)
}

/// The eight little-endian bytes of a signed `x` (two's complement).
pub open spec fn le_bytes_i64(x: i64) -> Seq<u8> {
    le_bytes(x as u64)
}

/// The address whose bytes are `s` (of length 32).
pub open spec fn pubkey_of(s: Seq<u8>) -> Pubkey {
    choose|k: Pubkey| k@ == s
}

/// `n` zero bytes.
pub open spec fn zeros(n: nat) -> Seq<u8> {
    Seq::new(n, |i: int| 0u8)
}

/// Encoding then decoding a `u64` gives it back, and every 8 bytes are the
/// encoding of the `u64` they decode to.
pub proof fn lemma_le_roundtrip()
    ensures
        forall|x: u64| #![trigger le_bytes(x)] le_bytes(x).len() == 8 && spec_u64_from_le_bytes(le_bytes(x)) == x,
        forall|s: Seq<u8>| #![trigger spec_u64_from_le_bytes(s)] s.len() == 8 ==> le_bytes(spec_u64_from_le_bytes(s)) == s,
{
    vstd::bytes::lemma_auto_spec_u64_to_from_le_bytes();
}

/// A signed value survives the round trip through its unsigned bit pattern.
pub proof fn lemma_i64_roundtrip(x: i64)
    ensures
        ((x as u64) as i64) == x,
{
    assert(((x as u64) as i64) == x) by (bit_vector);
}

/// An address is determined by its bytes.
pub proof fn lemma_pubkey_of(k: Pubkey)
    ensures
        pubkey_of(k@) == k,
{
    let c = pubkey_of(k@);
    assert(c@ == k@);
    assert(c =~= k);
}

/// Reads the little-endian `u64` at `off`.
pub fn read_u64_le(data: &[u8], off: usize) -> (r: u64)
    requires
        off + 8 <= data.len(),
    ensures
        r == le_u64_at(data@, off as int),
{
    let s = vstd::slice::slice_subrange(data, off, off + 8);
    vstd::bytes::u64_from_le_bytes(s)
}

/// Reads the little-endian `u32` at `off`.
pub fn read_u32_le(data: &[u8], off: usize) -> (r: u32)
    requires
        off + 4 <= data.len(),
    ensures
        r == le_u32_at(data@, off as int),
{
    let s = vstd::slice::slice_subrange(data, off, off + 4);
    vstd::bytes::u32_from_le_bytes(s)
}

/// Reads the 32-byte address at `off`.
pub fn read_pubkey(data: &[u8], off: usize) -> (r: Pubkey)
    requires
        off + 32 <= data.len(),
    ensures
        r@ == data@.subrange(off as int, off + 32),
        r == pubkey_of(data@.subrange(off as int, off + 32)),
{
    let mut k: Pubkey = crate::pubkey::DEFAULT_PUBKEY;
    let mut i: usize = 0;
    while i < 32
        invariant
            0 <= i <= 32,
            off + 32 <= data.len(),
            forall|j: int| 0 <= j < i ==> k@[j] == data@[off + j],
        decreases 32 - i,
    {
        k[i] = data[off + i];
        i = i + 1;
    }
    proof {
        assert(k@ =~= data@.subrange(off as int, off + 32));
        lemma_pubkey_of(k);
    }
    k
}

/// Appends the eight little-endian bytes of `x`.
pub fn push_u64_le(out: &mut Vec<u8>, x: u64)
    ensures
        final(out)@ == old(out)@ + le_bytes(x),
{
    let b = vstd::bytes::u64_to_le_bytes(x);
    let mut i: usize = 0;
    while i < 8
        invariant
            0 <= i <= 8,
            b@.len() == 8,
            b@ == le_bytes(x),
            out@ == old(out)@ + b@.subrange(0, i as int),
        decreases 8 - i,
    {
        out.push(b[i]);
        i = i + 1;
        proof {
            assert(b@.subrange(0, i as int) =~= b@.subrange(0, (i - 1) as int).push(b@[i - 1]));
        }
    }
    proof {
        assert(b@.subrange(0, 8) =~= b@);
    }
}

/// Appends the 32 bytes of `k`.
pub fn push_pubkey(out: &mut Vec<u8>, k: &Pubkey)
    ensures
        final(out)@ == old(out)@ + k@,
{
    let mut i: usize = 0;
    while i < 32
        invariant
            0 <= i <= 32,
            out@ == old(out)@ + k@.subrange(0, i as int),
        decreases 32 - i,
    {
        out.push(k[i]);
        i = i + 1;
        proof {
            assert(k@.subrange(0, i as int) =~= k@.subrange(0, (i - 1) as int).push(k@[i - 1]));
        }
    }
    proof {
        assert(k@.subrange(0, 32) =~= k@);
    }
}

/// Appends `n` zero bytes.
pub fn push_zeros(out: &mut Vec<u8>, n: usize)
    ensures
        final(out)@ == old(out)@ + zeros(n as nat),
{
    let mut i: usize = 0;
    while i < n
        invariant
            0 <= i <= n,
            out@ == old(out)@ + zeros(i as nat),
        decreases n - i,
    {
        out.push(0u8);
        i = i + 1;
        proof {
            assert(zeros(i as nat) =~= zeros((i - 1) as nat).push(0u8));
        }
    }
}

} // verus!
