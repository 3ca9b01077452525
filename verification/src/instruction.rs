//! The wire form of a request: a one-byte operation selector followed by
//! little-endian 64-bit fields.
use vstd::prelude::*;

use crate::bytes::u64_of_le;
use crate::error::EscrowError;
use vstd::slice::{slice_index_get, slice_subrange};

verus! {

/// One decoded request: which operation was asked for, with its scalars.
#[derive(Clone, Copy, PartialEq, Eq, Structural, Debug)]
pub enum EscrowInstruction {
    /// Starts a trade: lock `amount_to_trade` units of asset A, demand
    /// `amount_expected` units of asset B, under the caller-chosen `seed`.
    ///
    /// Accounts expected, in order: the initializer (signer), the deal
    /// record account, the asset-A holding account, the initializer's
    /// asset-A source account, the asset-A descriptor, the asset-B
    /// descriptor, then the three collaborator program handles.
    InitEscrow {
        /// Quantity of asset A to lock.
        amount_to_trade: u64,
        /// Quantity of asset B demanded in return.
        amount_expected: u64,
        /// Caller-chosen nonce deriving the record and authority addresses.
        seed: u64,
    },
    /// Completes a trade at exactly the recorded terms.
    ///
    /// Accounts expected, in order: the taker (signer), the initializer,
    /// the deal record account, the asset-A holding account, the taker's
    /// asset-A receiving account, the initializer's asset-B receiving
    /// account, the taker's asset-B source account, the asset-A
    /// descriptor, the asset-B descriptor, then the three collaborator
    /// program handles.
    Exchange {
        /// The amount of asset B the taker believes the deal demands.
        amount: u64,
    },
}

/// What decoding a request payload yields: the unique decoded request, or
/// the exact error owed for a bad selector or a truncated payload.
pub open spec fn parse_instruction(input: Seq<u8>) -> Result<EscrowInstruction, EscrowError> {
    if input.len() < 1 {
        Err(EscrowError::InvalidInstructionType)
    } else if input[0] == 0 {
        if input.len() < 25 {
            Err(EscrowError::InvalidInstructionData)
        } else {
            Ok(EscrowInstruction::InitEscrow {
                amount_to_trade: u64_of_le(input.subrange(1, 9)),
                amount_expected: u64_of_le(input.subrange(9, 17)),
                seed: u64_of_le(input.subrange(17, 25)),
            })
        }
    } else if input[0] == 1 {
        if input.len() < 9 {
            Err(EscrowError::InvalidInstructionData)
        } else {
            Ok(EscrowInstruction::Exchange { amount: u64_of_le(input.subrange(1, 9)) })
        }
    } else {
        Err(EscrowError::InvalidInstructionType)
    }
}

impl EscrowInstruction {
    /// Decodes a request payload.
    pub fn unpack(input: &[u8]) -> (r: Result<EscrowInstruction, EscrowError>)
        ensures
            r == parse_instruction(input@),
    {
        if input.len() == 0 {
            return Err(EscrowError::InvalidInstructionType);
        }
        let tag = *slice_index_get(input, 0);
        let rest = slice_subrange(input, 1, input.len());
        if tag == 0 {
            let (amount_to_trade, rest2) = match Self::unpack_u64(rest) {
                Ok(p) => p,
                Err(e) => { return Err(e); },
            };
            let (amount_expected, rest3) = match Self::unpack_u64(rest2) {
                Ok(p) => p,
                Err(e) => { return Err(e); },
            };
            let (seed, _rest4) = match Self::unpack_u64(rest3) {
                Ok(p) => p,
                Err(e) => { return Err(e); },
            };
            proof {
                assert(rest@.subrange(0, 8) =~= input@.subrange(1, 9));
                assert(rest@.skip(8).subrange(0, 8) =~= input@.subrange(9, 17));
                assert(rest@.skip(8).skip(8).subrange(0, 8) =~= input@.subrange(17, 25));
            }
            Ok(EscrowInstruction::InitEscrow { amount_expected, seed, amount_to_trade })
        } else if tag == 1 {
            let amount = match Self::unpack_amount(rest) {
                Ok(a) => a,
                Err(e) => { return Err(e); },
            };
            proof {
                assert(rest@.subrange(0, 8) =~= input@.subrange(1, 9));
            }
            Ok(EscrowInstruction::Exchange { amount })
        } else {
            Err(EscrowError::InvalidInstructionType)
        }
    }

    /// Decodes one trailing little-endian amount field.
    pub fn unpack_amount(input: &[u8]) -> (r: Result<u64, EscrowError>)
        ensures
            r is Ok <==> input@.len() >= 8,
            r matches Ok(a) ==> a == u64_of_le(input@.subrange(0, 8)),
            r matches Err(e) ==> e == EscrowError::InvalidInstructionData,
    {
        match Self::unpack_u64(input) {
            Ok((a, _)) => Ok(a),
            Err(e) => Err(e),
        }
    }

    /// Decodes one little-endian 64-bit field and returns the remainder.
    pub fn unpack_u64(input: &[u8]) -> (r: Result<(u64, &[u8]), EscrowError>)
        ensures
            r is Ok <==> input@.len() >= 8,
            r matches Ok(p) ==> p.0 == u64_of_le(input@.subrange(0, 8)) && p.1@ == input@.skip(8),
            r matches Err(e) ==> e == EscrowError::InvalidInstructionData,
    {
        let n = input.len();
        if n < 8 {
            return Err(EscrowError::InvalidInstructionData);
        }
        let b0 = *slice_index_get(input, 0);
        let b1 = *slice_index_get(input, 1);
        let b2 = *slice_index_get(input, 2);
        let b3 = *slice_index_get(input, 3);
        let b4 = *slice_index_get(input, 4);
        let b5 = *slice_index_get(input, 5);
        let b6 = *slice_index_get(input, 6);
        let b7 = *slice_index_get(input, 7);
        let amount = (b0 as u64) | (b1 as u64) << 8 | (b2 as u64) << 16 | (b3 as u64) << 24
            | (b4 as u64) << 32 | (b5 as u64) << 40 | (b6 as u64) << 48 | (b7 as u64) << 56;
        let rest = slice_subrange(input, 8, n);
        proof {
            let s = input@.subrange(0, 8);
            assert(forall|i: int| 0 <= i < 8 ==> s[i] == input@[i]);
            assert(rest@ =~= input@.skip(8));
        }
        Ok((amount, rest))
    }
}

} // verus!
