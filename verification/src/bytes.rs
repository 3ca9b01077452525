//! Little-endian encoding of 64-bit quantities, the integer layer under the
//! fixed-width record and request encodings.
use vstd::prelude::*;

verus! {

/// The eight little-endian bytes of `x`, least significant first.
pub open spec fn le8(x: u64) -> Seq<u8> {
    seq![
        x as u8,
        (x >> 8) as u8,
        (x >> 16) as u8,
        (x >> 24) as u8,
        (x >> 32) as u8,
        (x >> 40) as u8,
        (x >> 48) as u8,
        (x >> 56) as u8,
    ]
}

/// The value read little-endian from an eight-byte sequence.
pub open spec fn u64_of_le(s: Seq<u8>) -> u64
    recommends
        s.len() == 8,
{
    (s[0] as u64) | (s[1] as u64) << 8 | (s[2] as u64) << 16 | (s[3] as u64) << 24
        | (s[4] as u64) << 32 | (s[5] as u64) << 40 | (s[6] as u64) << 48 | (s[7] as u64) << 56
}

/// Reading back the little-endian bytes of a value yields the value.
pub proof fn lemma_u64_le_roundtrip(x: u64)
    ensures
        le8(x).len() == 8,
        u64_of_le(le8(x)) == x,
{
    assert((x as u8) as u64 | (((x >> 8) as u8) as u64) << 8 | (((x >> 16) as u8) as u64) << 16
        | (((x >> 24) as u8) as u64) << 24 | (((x >> 32) as u8) as u64) << 32
        | (((x >> 40) as u8) as u64) << 40 | (((x >> 48) as u8) as u64) << 48
        | (((x >> 56) as u8) as u64) << 56 == x) by (bit_vector);
}

/// Reads the eight bytes at `off` as a little-endian value.
pub fn read_u64_le(v: &Vec<u8>, off: usize) -> (r: u64)
    requires
        off + 8 <= v@.len(),
    ensures
        r == u64_of_le(v@.subrange(off as int, off as int + 8)),
{
    let n = v.len();
    assert(off + 8 <= n);
    let r = (v[off] as u64) | (v[off + 1] as u64) << 8 | (v[off + 2] as u64) << 16
        | (v[off + 3] as u64) << 24 | (v[off + 4] as u64) << 32 | (v[off + 5] as u64) << 40
        | (v[off + 6] as u64) << 48 | (v[off + 7] as u64) << 56;
    proof {
        let s = v@.subrange(off as int, off as int + 8);
        assert(forall|i: int| 0 <= i < 8 ==> s[i] == v@[off + i]);
    }
    r
}

/// Appends the eight little-endian bytes of `x`.
pub fn push_u64_le(out: &mut Vec<u8>, x: u64)
    ensures
        final(out)@ == old(out)@ + le8(x),
{
    out.push(x as u8);
    out.push((x >> 8) as u8);
    out.push((x >> 16) as u8);
    out.push((x >> 24) as u8);
    out.push((x >> 32) as u8);
    out.push((x >> 40) as u8);
    out.push((x >> 48) as u8);
    out.push((x >> 56) as u8);
    proof {
        assert(out@ =~= old(out)@ + le8(x));
    }
}

} // verus!
