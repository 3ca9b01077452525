//! Plain 32-byte addresses: party identities, asset types and derived
//! authorities are all values of this shape.
use vstd::prelude::*;

verus! {

/// A 32-byte ledger address, held as plain bytes.
#[derive(Clone, Copy, PartialEq, Eq, Debug)]
pub struct Pubkey {
    pub bytes: [u8; 32],
}

impl View for Pubkey {
    type V = Seq<u8>;

    open spec fn view(&self) -> Seq<u8> {
        self.bytes@
    }
}

/// The all-zero address, the address fields of a cleared record.
pub open spec fn zero32() -> Seq<u8> {
    Seq::new(32, |i: int| 0u8)
}

impl Pubkey {
    /// Builds an address from the 32 bytes of `v` starting at `off`.
    pub fn from_bytes(v: &Vec<u8>, off: usize) -> (r: Pubkey)
        requires
            off + 32 <= v@.len(),
        ensures
            r@ == v@.subrange(off as int, off as int + 32),
    {
        let n = v.len();
        assert(off + 32 <= n);
        let mut b: [u8; 32] = [0u8; 32];
        let mut i: usize = 0;
        while i < 32
            invariant
                i <= 32,
                off + 32 <= n && n == v@.len(),
                b@.len() == 32,
                forall|j: int| 0 <= j < i ==> b@[j] == v@[off + j],
            decreases 32 - i,
        {
            b[i] = v[off + i];
            i += 1;
        }
        proof {
            assert(b@ =~= v@.subrange(off as int, off as int + 32));
        }
        Pubkey { bytes: b }
    }

    /// The all-zero address.
    pub fn zero() -> (r: Pubkey)
        ensures
            r@ == zero32(),
    {
        let r = Pubkey { bytes: [0u8; 32] };
        proof {
            assert(r@ =~= zero32());
        }
        r
    }
}

/// Byte-for-byte address comparison; the only equality the verified logic uses.
pub fn pubkey_eq(a: &Pubkey, b: &Pubkey) -> (r: bool)
    ensures
        r == (a@ == b@),
{
    let mut i: usize = 0;
    while i < 32
        invariant
            i <= 32,
            forall|j: int| 0 <= j < i ==> a@[j] == b@[j],
        decreases 32 - i,
    {
        if a.bytes[i] != b.bytes[i] {
            return false;
        }
        i += 1;
    }
    proof {
        assert(a@ =~= b@);
    }
    true
}

/// Appends the 32 bytes of `p`.
pub fn push_pubkey(out: &mut Vec<u8>, p: &Pubkey)
    ensures
        final(out)@ == old(out)@ + p@,
{
    let mut i: usize = 0;
    while i < 32
        invariant
            i <= 32,
            out@ == old(out)@ + p@.subrange(0, i as int),
        decreases 32 - i,
    {
        out.push(p.bytes[i]);
        proof {
            assert(out@ =~= old(out)@ + p@.subrange(0, i + 1));
        }
        i += 1;
    }
    proof {
        assert(p@.subrange(0, 32) =~= p@);
    }
}

} // verus!
