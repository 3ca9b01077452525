//! The persisted deal record and the typed views over caller-supplied
//! accounts: token-balance accounts, asset descriptors and the record itself.
use vstd::prelude::*;

use crate::accounts::AccountHandle;
use crate::bytes::{le8, lemma_u64_le_roundtrip, push_u64_le, read_u64_le, u64_of_le};
use crate::error::EscrowError;
use crate::ledger::{unpack_spl_mint, unpack_spl_token_account};
use crate::pubkey::{push_pubkey, Pubkey, zero32};

verus! {

/// Byte length of one encoded deal record: 1 + 32 + 32 + 32 + 8 + 1 + 8.
pub const ESCROW_STATE_LEN: usize = 114;

/// The persisted state of one open escrow deal.
#[derive(Clone, Copy, PartialEq, Eq, Debug)]
pub struct EscrowState {
    /// Whether the record holds a live deal; false in a cleared record.
    pub is_initialized: bool,
    /// Party who locked asset A and will receive proceeds and the deposit.
    pub initializer_pubkey: Pubkey,
    /// Asset type the initializer gives up.
    pub mint_a: Pubkey,
    /// Asset type the initializer demands in return.
    pub mint_b: Pubkey,
    /// Quantity of asset B the initializer demands.
    pub expected_amount: u64,
    /// Derivation salt that makes the custody authority address valid.
    pub bump: u8,
    /// Caller-chosen nonce behind the record and authority addresses.
    pub seed: u64,
}

/// The mathematical shape of a deal record: addresses as byte sequences.
#[verifier::ext_equal]
pub struct EscrowStateV {
    pub is_initialized: bool,
    pub initializer_pubkey: Seq<u8>,
    pub mint_a: Seq<u8>,
    pub mint_b: Seq<u8>,
    pub expected_amount: u64,
    pub bump: u8,
    pub seed: u64,
}

impl EscrowStateV {
    /// Every address field holds exactly 32 bytes.
    pub open spec fn wf(self) -> bool {
        self.initializer_pubkey.len() == 32 && self.mint_a.len() == 32 && self.mint_b.len() == 32
    }
}

impl View for EscrowState {
    type V = EscrowStateV;

    open spec fn view(&self) -> EscrowStateV {
        EscrowStateV {
            is_initialized: self.is_initialized,
            initializer_pubkey: self.initializer_pubkey@,
            mint_a: self.mint_a@,
            mint_b: self.mint_b@,
            expected_amount: self.expected_amount,
            bump: self.bump,
            seed: self.seed,
        }
    }
}

/// The record every deal account holds before a deal is opened and after it
/// is closed: flag clear, every other field zero.
pub open spec fn closed_record_v() -> EscrowStateV {
    EscrowStateV {
        is_initialized: false,
        initializer_pubkey: zero32(),
        mint_a: zero32(),
        mint_b: zero32(),
        expected_amount: 0,
        bump: 0,
        seed: 0,
    }
}

/// The unique byte encoding of a record: flag, three addresses, demanded
/// amount, bump, seed, the integers little-endian.
pub open spec fn pack_spec(v: EscrowStateV) -> Seq<u8> {
    seq![if v.is_initialized { 1u8 } else { 0u8 }] + v.initializer_pubkey + v.mint_a + v.mint_b
        + le8(v.expected_amount) + seq![v.bump] + le8(v.seed)
}

/// A buffer the record layer decodes: right length, flag byte 0 or 1.
pub open spec fn escrow_bytes_wf(b: Seq<u8>) -> bool {
    b.len() == 114 && (b[0] == 0 || b[0] == 1)
}

/// The record a well-formed buffer decodes to.
pub open spec fn escrow_decoded(b: Seq<u8>) -> EscrowStateV {
    EscrowStateV {
        is_initialized: b[0] == 1,
        initializer_pubkey: b.subrange(1, 33),
        mint_a: b.subrange(33, 65),
        mint_b: b.subrange(65, 97),
        expected_amount: u64_of_le(b.subrange(97, 105)),
        bump: b[105],
        seed: u64_of_le(b.subrange(106, 114)),
    }
}

/// Round trip: every record decodes from its own encoding unchanged. With
/// the flag clause of `unpack_from_slice` this pins the codec: encoding is
/// total and deterministic, and decoding inverts it.
pub proof fn lemma_pack_unpack_roundtrip(v: EscrowStateV)
    requires
        v.wf(),
    ensures
        pack_spec(v).len() == 114,
        escrow_bytes_wf(pack_spec(v)),
        escrow_decoded(pack_spec(v)) == v,
{
    let b = pack_spec(v);
    lemma_u64_le_roundtrip(v.expected_amount);
    lemma_u64_le_roundtrip(v.seed);
    assert(b.len() == 114);
    assert(b.subrange(1, 33) =~= v.initializer_pubkey);
    assert(b.subrange(33, 65) =~= v.mint_a);
    assert(b.subrange(65, 97) =~= v.mint_b);
    assert(b.subrange(97, 105) =~= le8(v.expected_amount));
    assert(b.subrange(106, 114) =~= le8(v.seed));
    assert(escrow_decoded(b) =~= v);
}

impl EscrowState {
    /// Whether this record holds a live deal.
    pub fn is_initialized(&self) -> (r: bool)
        ensures
            r == self.is_initialized,
    {
        self.is_initialized
    }

    /// Encodes the record into a fresh 114-byte buffer.
    pub fn pack_to_vec(&self) -> (r: Vec<u8>)
        ensures
            r@ == pack_spec(self@),
            r@.len() == 114,
    {
        let mut out: Vec<u8> = Vec::new();
        out.push(if self.is_initialized { 1u8 } else { 0u8 });
        push_pubkey(&mut out, &self.initializer_pubkey);
        push_pubkey(&mut out, &self.mint_a);
        push_pubkey(&mut out, &self.mint_b);
        push_u64_le(&mut out, self.expected_amount);
        out.push(self.bump);
        push_u64_le(&mut out, self.seed);
        proof {
            assert(out@ =~= pack_spec(self@));
        }
        out
    }

    /// Encodes the record over an existing record-sized buffer.
    pub fn pack_into_slice(&self, dst: &mut Vec<u8>)
        requires
            old(dst)@.len() == 114,
        ensures
            final(dst)@ == pack_spec(self@),
    {
        let v = self.pack_to_vec();
        *dst = v;
    }

    /// Decodes a record-sized buffer; only the flag byte is validated here.
    pub fn unpack_from_slice(src: &Vec<u8>) -> (r: Result<EscrowState, EscrowError>)
        requires
            src@.len() == 114,
        ensures
            r is Ok <==> (src@[0] == 0 || src@[0] == 1),
            r matches Ok(s) ==> s@ == escrow_decoded(src@),
            r matches Err(e) ==> e == EscrowError::InvalidEscrowState,
    {
        let flag = src[0];
        let is_initialized = if flag == 0 {
            false
        } else if flag == 1 {
            true
        } else {
            return Err(EscrowError::InvalidEscrowState);
        };
        let s = EscrowState {
            is_initialized,
            initializer_pubkey: Pubkey::from_bytes(src, 1),
            mint_a: Pubkey::from_bytes(src, 33),
            mint_b: Pubkey::from_bytes(src, 65),
            expected_amount: read_u64_le(src, 97),
            bump: src[105],
            seed: read_u64_le(src, 106),
        };
        proof {
            assert(s@ =~= escrow_decoded(src@));
        }
        Ok(s)
    }

    /// Decodes a live record: the buffer must have the record length, a
    /// valid flag, and the flag must be set.
    pub fn unpack(src: &Vec<u8>) -> (r: Result<EscrowState, EscrowError>)
        ensures
            r is Ok <==> (src@.len() == 114 && src@[0] == 1),
            r matches Ok(s) ==> s@ == escrow_decoded(src@) && s.is_initialized,
            r matches Err(e) ==> e == EscrowError::InvalidEscrowState,
    {
        if src.len() != 114 {
            return Err(EscrowError::InvalidEscrowState);
        }
        match Self::unpack_from_slice(src) {
            Ok(s) => {
                if s.is_initialized() {
                    Ok(s)
                } else {
                    Err(EscrowError::InvalidEscrowState)
                }
            },
            Err(e) => Err(e),
        }
    }
}

impl Default for EscrowState {
    /// The cleared record written back when a deal closes.
    fn default() -> (r: EscrowState)
        ensures
            r@ == closed_record_v(),
    {
        let r = EscrowState {
            is_initialized: false,
            initializer_pubkey: Pubkey::zero(),
            mint_a: Pubkey::zero(),
            mint_b: Pubkey::zero(),
            expected_amount: 0,
            bump: 0,
            seed: 0,
        };
        proof {
            assert(r@ =~= closed_record_v());
        }
        r
    }
}

/// Plain contents of a token-balance account: asset type, owner, balance.
#[derive(Clone, Copy, PartialEq, Eq, Debug)]
pub struct TokenInfo {
    pub mint: Pubkey,
    pub owner: Pubkey,
    pub amount: u64,
}

/// Plain contents of an asset descriptor: supply and decimal precision.
#[derive(Clone, Copy, PartialEq, Eq, Debug)]
pub struct MintInfo {
    pub supply: u64,
    pub decimals: u8,
}

/// A resolved token-balance account: its address plus decoded contents.
#[derive(Clone, Copy, PartialEq, Eq, Debug)]
pub struct TokenAccount {
    pub key: Pubkey,
    pub info: TokenInfo,
    pub program_id: Pubkey,
    pub is_writable: bool,
}

/// A resolved deal-record account: its address plus the decoded record.
#[derive(Clone, Copy, PartialEq, Eq, Debug)]
pub struct EscrowAccount {
    pub key: Pubkey,
    pub info: EscrowState,
    pub program_id: Pubkey,
    pub is_writable: bool,
}

/// A resolved asset descriptor account: its address plus decoded contents.
#[derive(Clone, Copy, PartialEq, Eq, Debug)]
pub struct MintAccount {
    pub key: Pubkey,
    pub info: MintInfo,
    pub program_id: Pubkey,
    pub is_writable: bool,
}

/// `t` is the faithful typed view of handle `a`.
pub open spec fn token_account_resolved(t: TokenAccount, a: AccountHandle) -> bool {
    &&& t.key@ == a.key@
    &&& t.program_id@ == a.owner@
    &&& t.is_writable == a.is_writable
    &&& t.info.mint@ == a.data@.subrange(0, 32)
    &&& t.info.owner@ == a.data@.subrange(32, 64)
    &&& t.info.amount == u64_of_le(a.data@.subrange(64, 72))
}

/// `m` is the faithful typed view of descriptor handle `a`.
pub open spec fn mint_account_resolved(m: MintAccount, a: AccountHandle) -> bool {
    &&& m.key@ == a.key@
    &&& m.program_id@ == a.owner@
    &&& m.is_writable == a.is_writable
    &&& m.info.supply == u64_of_le(a.data@.subrange(36, 44))
    &&& m.info.decimals == a.data@[44]
}

/// `e` is the faithful typed view of record handle `a`.
pub open spec fn escrow_account_resolved(e: EscrowAccount, a: AccountHandle) -> bool {
    &&& e.key@ == a.key@
    &&& e.program_id@ == a.owner@
    &&& e.is_writable == a.is_writable
    &&& e.info@ == escrow_decoded(a.data@)
}

impl TokenAccount {
    /// Resolves a handle into a typed token-balance view.
    pub fn unpack(info: &AccountHandle) -> (r: Result<TokenAccount, EscrowError>)
        ensures
            r is Ok <==> crate::ledger::spl_token_account_wf(info.data@),
            r matches Ok(t) ==> token_account_resolved(t, *info),
            r matches Err(e) ==> e == EscrowError::DeserializeTokenAccountError,
    {
        match unpack_spl_token_account(&info.data) {
            Some(ti) => Ok(
                TokenAccount {
                    key: info.key,
                    info: ti,
                    program_id: info.owner,
                    is_writable: info.is_writable,
                },
            ),
            None => Err(EscrowError::DeserializeTokenAccountError),
        }
    }
}

impl MintAccount {
    /// Resolves a handle into a typed asset-descriptor view.
    pub fn unpack(info: &AccountHandle) -> (r: Result<MintAccount, EscrowError>)
        ensures
            r is Ok <==> crate::ledger::spl_mint_wf(info.data@),
            r matches Ok(m) ==> mint_account_resolved(m, *info),
            r matches Err(e) ==> e == EscrowError::DeserializeMintAccountError,
    {
        match unpack_spl_mint(&info.data) {
            Some(mi) => Ok(
                MintAccount {
                    key: info.key,
                    info: mi,
                    program_id: info.owner,
                    is_writable: info.is_writable,
                },
            ),
            None => Err(EscrowError::DeserializeMintAccountError),
        }
    }
}

impl EscrowAccount {
    /// Resolves a handle into the typed record view; the record must decode
    /// and hold a live deal.
    pub fn unpack(info: &AccountHandle) -> (r: Result<EscrowAccount, EscrowError>)
        ensures
            r is Ok <==> (info.data@.len() == 114 && info.data@[0] == 1),
            r matches Ok(e) ==> escrow_account_resolved(e, *info) && e.info.is_initialized,
            r matches Err(e) ==> e == EscrowError::DeserializeEscrowAccountError,
    {
        match EscrowState::unpack(&info.data) {
            Ok(s) => Ok(
                EscrowAccount {
                    key: info.key,
                    info: s,
                    program_id: info.owner,
                    is_writable: info.is_writable,
                },
            ),
            Err(_) => Err(EscrowError::DeserializeEscrowAccountError),
        }
    }
}

} // verus!
