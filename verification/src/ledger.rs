//! The narrow interface to the external ledger collaborators: address
//! derivation, token-account decoding, and the builders for the custody
//! instructions the two operations issue. Everything here is a thin trusted
//! wrapper over an outside crate; the logic around these calls is verified.
use vstd::prelude::*;

use crate::bytes::u64_of_le;
use crate::pubkey::Pubkey;
use crate::state::{MintInfo, TokenInfo};

verus! {

/// The deterministic program-derived address and bump for one seed list:
/// the caller-chosen seed bytes, the owning address, and the program
/// identity that namespaces the derivation.
pub uninterp spec fn program_address_of(seed_bytes: Seq<u8>, owner: Seq<u8>, program: Seq<u8>) -> (
    Seq<u8>,
    u8,
);

/// Relies on `solana_program::pubkey::Pubkey::find_program_address`: the
/// result is a pure function of the seed slices and the program id. Its
/// documentation reserves a panic for seed lists that admit no bump, a case
/// it describes as vanishingly rare and not reachable by choice of inputs.
#[verifier::external_body]
pub fn derive_deal_address(seed: u64, owner: &Pubkey, program: &Pubkey) -> (r: (Pubkey, u8))
    ensures
        (r.0@, r.1) == program_address_of(crate::bytes::le8(seed), owner@, program@),
{
    let (key, bump) = solana_program::pubkey::Pubkey::find_program_address(
        &[&seed.to_le_bytes(), &owner.bytes],
        &solana_program::pubkey::Pubkey::new_from_array(program.bytes),
    );
    (Pubkey { bytes: key.to_bytes() }, bump)
}

/// The deterministic holding-account address for one wallet and one asset
/// type, under the fixed token and associated-token program identities.
pub uninterp spec fn associated_token_address_of(wallet: Seq<u8>, mint: Seq<u8>) -> Seq<u8>;

/// Relies on `spl_associated_token_account::get_associated_token_address`:
/// the result is a pure function of the wallet and mint addresses (the two
/// program ids it also hashes are fixed constants of that crate).
#[verifier::external_body]
pub fn associated_token_address(wallet: &Pubkey, mint: &Pubkey) -> (r: Pubkey)
    ensures
        r@ == associated_token_address_of(wallet@, mint@),
{
    let key = spl_associated_token_account::get_associated_token_address(
        &solana_program::pubkey::Pubkey::new_from_array(wallet.bytes),
        &solana_program::pubkey::Pubkey::new_from_array(mint.bytes),
    );
    Pubkey { bytes: key.to_bytes() }
}

/// A 36-byte optional-address field of the token layouts: a 4-byte tag that
/// must read 0 (absent) or 1 (present), little-endian.
pub open spec fn coption_tag_wf(t: Seq<u8>) -> bool {
    t == seq![0u8, 0u8, 0u8, 0u8] || t == seq![1u8, 0u8, 0u8, 0u8]
}

/// A 165-byte token-balance account that `spl_token` decodes: every
/// optional field carries a valid tag and the state byte at offset 108 is
/// initialized (1) or frozen (2), never uninitialized.
pub open spec fn spl_token_account_wf(d: Seq<u8>) -> bool {
    &&& d.len() == 165
    &&& coption_tag_wf(d.subrange(72, 76))
    &&& (d[108] == 1 || d[108] == 2)
    &&& coption_tag_wf(d.subrange(109, 113))
    &&& coption_tag_wf(d.subrange(129, 133))
}

/// An 82-byte asset descriptor that `spl_token` decodes: valid optional
/// tags and the initialized byte at offset 45 set.
pub open spec fn spl_mint_wf(d: Seq<u8>) -> bool {
    &&& d.len() == 82
    &&& coption_tag_wf(d.subrange(0, 4))
    &&& d[45] == 1
    &&& coption_tag_wf(d.subrange(46, 50))
}

/// Relies on `spl_token::state::Account::unpack`: a fixed 165-byte layout
/// with the asset type at 0..32, the owner at 32..64 and the balance
/// little-endian at 64..72; decoding succeeds exactly on well-formed,
/// initialized buffers.
#[verifier::external_body]
pub fn unpack_spl_token_account(data: &Vec<u8>) -> (r: Option<TokenInfo>)
    ensures
        r is Some <==> spl_token_account_wf(data@),
        r matches Some(t) ==> t.mint@ == data@.subrange(0, 32) && t.owner@ == data@.subrange(
            32,
            64,
        ) && t.amount == u64_of_le(data@.subrange(64, 72)),
{
    match solana_program::program_pack::Pack::unpack(data.as_slice()) {
        Ok(a) => {
            let a: spl_token::state::Account = a;
            Some(
                TokenInfo {
                    mint: Pubkey { bytes: a.mint.to_bytes() },
                    owner: Pubkey { bytes: a.owner.to_bytes() },
                    amount: a.amount,
                },
            )
        },
        Err(_) => None,
    }
}

/// Relies on `spl_token::state::Mint::unpack`: a fixed 82-byte layout with
/// the supply little-endian at 36..44 and the decimal precision at 44;
/// decoding succeeds exactly on well-formed, initialized buffers.
#[verifier::external_body]
pub fn unpack_spl_mint(data: &Vec<u8>) -> (r: Option<MintInfo>)
    ensures
        r is Some <==> spl_mint_wf(data@),
        r matches Some(m) ==> m.supply == u64_of_le(data@.subrange(36, 44)) && m.decimals
            == data@[44],
{
    match solana_program::program_pack::Pack::unpack(data.as_slice()) {
        Ok(m) => {
            let m: spl_token::state::Mint = m;
            Some(MintInfo { supply: m.supply, decimals: m.decimals })
        },
        Err(_) => None,
    }
}

/// The ledger instruction values the two operations hand back to their
/// caller to be performed; opaque to the verified logic.
#[verifier::external_type_specification]
#[verifier::external_body]
pub struct ExInstruction(solana_program::instruction::Instruction);

/// Relies on `solana_program::system_instruction::create_account`: a pure,
/// infallible builder of the storage-account creation request.
#[verifier::external_body]
pub fn make_create_account_ix(
    from: &Pubkey,
    to: &Pubkey,
    lamports: u64,
    space: u64,
    owner: &Pubkey,
) -> solana_program::instruction::Instruction {
    solana_program::system_instruction::create_account(
        &solana_program::pubkey::Pubkey::new_from_array(from.bytes),
        &solana_program::pubkey::Pubkey::new_from_array(to.bytes),
        lamports,
        space,
        &solana_program::pubkey::Pubkey::new_from_array(owner.bytes),
    )
}

/// Relies on
/// `spl_associated_token_account::instruction::create_associated_token_account_idempotent`:
/// a pure, infallible builder of the idempotent holding-account creation
/// request, under the fixed token program identity.
#[verifier::external_body]
pub fn make_create_ata_idempotent_ix(
    funder: &Pubkey,
    wallet: &Pubkey,
    mint: &Pubkey,
) -> solana_program::instruction::Instruction {
    spl_associated_token_account::instruction::create_associated_token_account_idempotent(
        &solana_program::pubkey::Pubkey::new_from_array(funder.bytes),
        &solana_program::pubkey::Pubkey::new_from_array(wallet.bytes),
        &solana_program::pubkey::Pubkey::new_from_array(mint.bytes),
        &spl_token::id(),
    )
}

/// Relies on `spl_token::instruction::transfer_checked`: a pure builder of
/// the precision-checked transfer request; its source returns an error only
/// for a token program id other than the fixed one passed here.
#[verifier::external_body]
pub fn make_transfer_checked_ix(
    source: &Pubkey,
    mint: &Pubkey,
    destination: &Pubkey,
    authority: &Pubkey,
    amount: u64,
    decimals: u8,
) -> solana_program::instruction::Instruction {
    spl_token::instruction::transfer_checked(
        &spl_token::id(),
        &solana_program::pubkey::Pubkey::new_from_array(source.bytes),
        &solana_program::pubkey::Pubkey::new_from_array(mint.bytes),
        &solana_program::pubkey::Pubkey::new_from_array(destination.bytes),
        &solana_program::pubkey::Pubkey::new_from_array(authority.bytes),
        &[],
        amount,
        decimals,
    ).unwrap()
}

/// Relies on `spl_token::instruction::close_account`: a pure builder of the
/// holding-account close request; its source returns an error only for a
/// token program id other than the fixed one passed here.
#[verifier::external_body]
pub fn make_close_account_ix(
    account: &Pubkey,
    destination: &Pubkey,
    owner: &Pubkey,
) -> solana_program::instruction::Instruction {
    spl_token::instruction::close_account(
        &spl_token::id(),
        &solana_program::pubkey::Pubkey::new_from_array(account.bytes),
        &solana_program::pubkey::Pubkey::new_from_array(destination.bytes),
        &solana_program::pubkey::Pubkey::new_from_array(owner.bytes),
        &[],
    ).unwrap()
}

/// The deal-storage and custody-authority derivation is a pure function of
/// the seed, the owning address and the program identity: equal inputs give
/// equal derived addresses and bumps, on every call.
pub proof fn lemma_derivation_deterministic(
    seed_bytes1: Seq<u8>,
    owner1: Seq<u8>,
    program1: Seq<u8>,
    seed_bytes2: Seq<u8>,
    owner2: Seq<u8>,
    program2: Seq<u8>,
)
    requires
        seed_bytes1 == seed_bytes2,
        owner1 == owner2,
        program1 == program2,
    ensures
        program_address_of(seed_bytes1, owner1, program1) == program_address_of(
            seed_bytes2,
            owner2,
            program2,
        ),
{
}

/// The holding-account derivation is likewise a pure function of the
/// wallet and asset-type addresses.
pub proof fn lemma_vault_derivation_deterministic(
    wallet1: Seq<u8>,
    mint1: Seq<u8>,
    wallet2: Seq<u8>,
    mint2: Seq<u8>,
)
    requires
        wallet1 == wallet2,
        mint1 == mint2,
    ensures
        associated_token_address_of(wallet1, mint1) == associated_token_address_of(wallet2, mint2),
{
}

} // verus!
