//! The byte encoding the parachain types are hashed under: fixed-width
//! integers in little-endian order, raw byte arrays as they stand, and
//! sequences behind a compact-encoded length.

use vstd::prelude::*;

verus! {

broadcast use vstd::std_specs::vec::group_vec_axioms, vstd::seq::group_seq_axioms;

/// The eight bytes of `x`, least significant first.
pub open spec fn u64_le_bytes(x: u64) -> Seq<u8> {
    seq![
        (x & 0xff) as u8,
        ((x >> 8) & 0xff) as u8,
        ((x >> 16) & 0xff) as u8,
        ((x >> 24) & 0xff) as u8,
        ((x >> 32) & 0xff) as u8,
        ((x >> 40) & 0xff) as u8,
        ((x >> 48) & 0xff) as u8,
        ((x >> 56) & 0xff) as u8,
    ]
}

/// The compact encoding of a length: the low two bits of the first byte
/// select the width, the value sits in the remaining bits, little-endian.
pub open spec fn compact_len_encoding(n: u32) -> Seq<u8> {
    if n < 0x40 {
        seq![(n << 2) as u8]
    } else if n < 0x4000 {
        let w = (n << 2) | 1;
        seq![(w & 0xff) as u8, ((w >> 8) & 0xff) as u8]
    } else if n < 0x4000_0000 {
        let w = (n << 2) | 2;
        seq![
            (w & 0xff) as u8,
            ((w >> 8) & 0xff) as u8,
            ((w >> 16) & 0xff) as u8,
            ((w >> 24) & 0xff) as u8,
        ]
    } else {
        seq![
            3u8,
            (n & 0xff) as u8,
            ((n >> 8) & 0xff) as u8,
            ((n >> 16) & 0xff) as u8,
            ((n >> 24) & 0xff) as u8,
        ]
    }
}

/// The concatenated little-endian encodings of a sequence of words.
pub open spec fn u64_seq_encoding(s: Seq<u64>) -> Seq<u8>
    decreases s.len(),
{
    if s.len() == 0 {
        Seq::empty()
    } else {
        u64_le_bytes(s[0]) + u64_seq_encoding(s.skip(1))
    }
}

pub proof fn lemma_u64_seq_encoding_push(s: Seq<u64>, x: u64)
    ensures
        u64_seq_encoding(s.push(x)) == u64_seq_encoding(s) + u64_le_bytes(x),
    decreases s.len(),
{
    if s.len() == 0 {
        assert(s.push(x).skip(1) =~= Seq::<u64>::empty());
        assert(s.push(x)[0] == x);
        assert(u64_seq_encoding(Seq::<u64>::empty()) == Seq::<u8>::empty());
        assert(u64_seq_encoding(s.push(x)) == u64_le_bytes(x) + Seq::<u8>::empty());
        assert(u64_le_bytes(x) + Seq::<u8>::empty() =~= u64_le_bytes(x));
        assert(u64_seq_encoding(s) + u64_le_bytes(x) =~= u64_le_bytes(x));
    } else {
        lemma_u64_seq_encoding_push(s.skip(1), x);
        assert(s.push(x).skip(1) =~= s.skip(1).push(x));
        assert(u64_le_bytes(s[0]) + (u64_seq_encoding(s.skip(1)) + u64_le_bytes(x)) =~= (
        u64_le_bytes(s[0]) + u64_seq_encoding(s.skip(1))) + u64_le_bytes(x));
    }
}

/// Append the eight little-endian bytes of `x` to `out`.
pub fn push_u64_le(out: &mut Vec<u8>, x: u64)
    ensures
        final(out)@ == old(out)@ + u64_le_bytes(x),
{
    out.push((x & 0xff) as u8);
    out.push(((x >> 8) & 0xff) as u8);
    out.push(((x >> 16) & 0xff) as u8);
    out.push(((x >> 24) & 0xff) as u8);
    out.push(((x >> 32) & 0xff) as u8);
    out.push(((x >> 40) & 0xff) as u8);
    out.push(((x >> 48) & 0xff) as u8);
    out.push(((x >> 56) & 0xff) as u8);
    proof {
        assert(final(out)@ =~= old(out)@ + u64_le_bytes(x));
    }
}

/// Append the compact encoding of `n` to `out`.
pub fn push_compact_len(out: &mut Vec<u8>, n: u32)
    ensures
        final(out)@ == old(out)@ + compact_len_encoding(n),
{
    if n < 0x40 {
        out.push((n << 2) as u8);
    } else if n < 0x4000 {
        let w = (n << 2) | 1;
        out.push((w & 0xff) as u8);
        out.push(((w >> 8) & 0xff) as u8);
    } else if n < 0x4000_0000 {
        let w = (n << 2) | 2;
        out.push((w & 0xff) as u8);
        out.push(((w >> 8) & 0xff) as u8);
        out.push(((w >> 16) & 0xff) as u8);
        out.push(((w >> 24) & 0xff) as u8);
    } else {
        out.push(3u8);
        out.push((n & 0xff) as u8);
        out.push(((n >> 8) & 0xff) as u8);
        out.push(((n >> 16) & 0xff) as u8);
        out.push(((n >> 24) & 0xff) as u8);
    }
    proof {
        assert(final(out)@ =~= old(out)@ + compact_len_encoding(n));
    }
}

/// Append the 32 bytes of `bytes` to `out`.
#[verifier::loop_isolation(false)]
pub fn push_bytes32(out: &mut Vec<u8>, bytes: &[u8; 32])
    ensures
        final(out)@ == old(out)@ + bytes@,
{
    let mut k: usize = 0;
    while k < 32
        invariant
            k <= 32,
            out@ == old(out)@ + bytes@.take(k as int),
        decreases 32 - k,
    {
        out.push(bytes[k]);
        proof {
            assert(out@ =~= old(out)@ + bytes@.take(k + 1 as int));
        }
        k = k + 1;
    }
    proof {
        assert(bytes@.take(32) =~= bytes@);
    }
}

/// Whether two 32-byte arrays hold the same bytes.
#[verifier::loop_isolation(false)]
pub fn bytes32_eq(a: &[u8; 32], b: &[u8; 32]) -> (r: bool)
    ensures
        r <==> a@ == b@,
{
    let mut k: usize = 0;
    while k < 32
        invariant
            k <= 32,
            forall|j: int| 0 <= j < k ==> a@[j] == b@[j],
        decreases 32 - k,
    {
        if a[k] != b[k] {
            return false;
        }
        k = k + 1;
    }
    proof {
        assert(a@ =~= b@);
    }
    true
}

} // verus!
