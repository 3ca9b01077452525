//! A two-party, non-custodial escrow over a shared ledger: one party locks a
//! quantity of asset A under a derived custody authority together with the
//! terms of the trade; a second party later delivers asset B and receives the
//! locked asset A in one atomic unit.
//!
//! The crate validates caller-supplied account lists, keeps the fixed-width
//! deal record, and turns each of the two operations into the exact sequence
//! of ledger effects it must perform; an unverified shell around it performs
//! those effects.
use vstd::prelude::*;

pub mod accounts;
pub mod bytes;
pub mod error;
pub mod instruction;
pub mod ledger;
pub mod processor;
pub mod pubkey;
pub mod state;

use crate::pubkey::{pubkey_eq, Pubkey};

verus! {

/// The program's own identity: the namespace of every derived address.
pub open spec fn id_spec() -> Seq<u8> {
    seq![
        226u8, 202u8, 170u8, 124u8, 254u8, 74u8, 80u8, 182u8, 21u8, 251u8, 159u8, 41u8, 133u8,
        46u8, 11u8, 53u8, 181u8, 250u8, 249u8, 70u8, 92u8, 92u8, 37u8, 122u8, 210u8, 55u8, 111u8,
        250u8, 156u8, 236u8, 145u8, 246u8,
    ]
}

/// The program's own identity as an address value.
pub fn id() -> (r: Pubkey)
    ensures
        r@ == id_spec(),
{
    let r = Pubkey {
        bytes: [
            226u8, 202u8, 170u8, 124u8, 254u8, 74u8, 80u8, 182u8, 21u8, 251u8, 159u8, 41u8, 133u8,
            46u8, 11u8, 53u8, 181u8, 250u8, 249u8, 70u8, 92u8, 92u8, 37u8, 122u8, 210u8, 55u8,
            111u8, 250u8, 156u8, 236u8, 145u8, 246u8,
        ],
    };
    proof {
        assert(r@ =~= id_spec());
    }
    r
}

/// Checks that the supplied program identity is this program's own.
pub fn check_program_account(program_account: &Pubkey) -> (r: bool)
    ensures
        r == (program_account@ == id_spec()),
{
    let own = id();
    pubkey_eq(program_account, &own)
}

} // verus!
