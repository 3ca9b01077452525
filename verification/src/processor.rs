//! The deal state machine: the two operations, each resolving its context
//! and producing the exact, ordered sequence of ledger effects to perform.
//! The unverified shell performs them inside one atomic ledger transaction.
use vstd::prelude::*;

use crate::accounts::{
    exchange_check, init_check, AccountHandle, ExchangeAccount, InitEscrowAccount,
};
use crate::bytes::{le8, u64_of_le};
use crate::error::EscrowError;
use crate::id;
use crate::id_spec;
use crate::instruction::{parse_instruction, EscrowInstruction};
use crate::ledger::{
    derive_deal_address, make_close_account_ix, make_create_account_ix,
    make_create_ata_idempotent_ix, make_transfer_checked_ix, program_address_of,
};
use crate::pubkey::Pubkey;
use crate::state::{closed_record_v, escrow_decoded, EscrowState, ESCROW_STATE_LEN};

verus! {

/// The ledger effects of a successful `Init`, in the order they must be
/// performed: create the deal's storage account at its derived address,
/// idempotently create the asset-A holding account owned by the derived
/// authority, move the locked amount in, then write the opened record.
pub struct InitEscrowPlan {
    /// The party opening the deal; pays for and signs every creation.
    pub initializer: Pubkey,
    /// The derived custody-authority address for this deal.
    pub escrow_key: Pubkey,
    /// The derivation salt under which `escrow_key` was found.
    pub bump: u8,
    /// The caller-chosen nonce the derivation used.
    pub seed: u64,
    /// Creates the deal storage account, signed with the derived seeds.
    pub create_deal_account: solana_program::instruction::Instruction,
    /// Idempotently creates the asset-A holding account.
    pub create_vault_account: solana_program::instruction::Instruction,
    /// Moves the locked asset-A amount into the holding account.
    pub fund_vault: solana_program::instruction::Instruction,
    /// The quantity of asset A locked by `fund_vault`.
    pub fund_amount: u64,
    /// The opened record to write into the deal storage account.
    pub record: EscrowState,
}

/// The ledger effects of a successful `Exchange`, in order: ensure the
/// taker's asset-A account, release the holding account's entire balance
/// to it under the derived authority, ensure the initializer's asset-B
/// account, collect exactly the recorded amount of asset B, close the
/// holding account, refund the storage deposit, write the cleared record.
pub struct ExchangePlan {
    /// The party who opened the deal; receives asset B and the deposit.
    pub initializer: Pubkey,
    /// The recorded nonce, for the authority's signing seeds.
    pub seed: u64,
    /// The recorded derivation salt, for the authority's signing seeds.
    pub bump: u8,
    /// Idempotently creates the taker's asset-A receiving account.
    pub create_taker_asset_a_account: solana_program::instruction::Instruction,
    /// Releases the holding account's whole balance to the taker, signed
    /// with the derived seeds.
    pub release_asset_a: solana_program::instruction::Instruction,
    /// The quantity released: the holding account's entire current balance.
    pub release_amount: u64,
    /// Idempotently creates the asset-B receiving account in the deal's
    /// authority namespace.
    pub create_initializer_asset_b_account: solana_program::instruction::Instruction,
    /// Moves the recorded asset-B amount from the taker to the receiver.
    pub collect_asset_b: solana_program::instruction::Instruction,
    /// The quantity collected: the recorded terms, not the caller's claim.
    pub collect_amount: u64,
    /// Closes the emptied holding account, signed with the derived seeds.
    pub close_vault: solana_program::instruction::Instruction,
    /// The cleared record to write back over the deal storage account.
    pub record: EscrowState,
}

/// The effects of whichever operation a request selected.
pub enum EscrowPlan {
    /// Effects of an `Init`.
    Init(InitEscrowPlan),
    /// Effects of an `Exchange`.
    Exchange(ExchangePlan),
}

/// A successful `Init` plan carries the derived addresses and the opened
/// record with exactly the terms the caller set.
pub open spec fn init_plan_ok(
    p: InitEscrowPlan,
    accounts: Seq<AccountHandle>,
    amount_to_trade: u64,
    amount_expected: u64,
    seed: u64,
) -> bool {
    &&& p.initializer@ == accounts[0].key@
    &&& (p.escrow_key@, p.bump) == program_address_of(le8(seed), accounts[0].key@, id_spec())
    &&& p.seed == seed
    &&& p.fund_amount == amount_to_trade
    &&& p.record.is_initialized
    &&& p.record@.initializer_pubkey == accounts[0].key@
    &&& p.record@.mint_a == accounts[4].key@
    &&& p.record@.mint_b == accounts[5].key@
    &&& p.record.expected_amount == amount_expected
    &&& p.record.bump == p.bump
    &&& p.record.seed == seed
}

/// A successful `Exchange` plan releases the holding account's entire
/// balance, collects exactly the recorded amount under the recorded
/// derivation parameters, and clears the record.
pub open spec fn exchange_plan_ok(p: ExchangePlan, accounts: Seq<AccountHandle>) -> bool {
    let rec = escrow_decoded(accounts[2].data@);
    &&& p.initializer@ == accounts[1].key@
    &&& p.seed == rec.seed
    &&& p.bump == rec.bump
    &&& p.release_amount == u64_of_le(accounts[3].data@.subrange(64, 72))
    &&& p.collect_amount == rec.expected_amount
    &&& p.record@ == closed_record_v()
}

/// The first check a whole request fails: its payload, then the account
/// list of the operation it selects.
pub open spec fn process_check(accounts: Seq<AccountHandle>, instruction_data: Seq<u8>) -> Option<
    EscrowError,
> {
    match parse_instruction(instruction_data) {
        Err(e) => Some(e),
        Ok(EscrowInstruction::InitEscrow { amount_to_trade, amount_expected, seed }) => init_check(
            accounts,
        ),
        Ok(EscrowInstruction::Exchange { amount }) => exchange_check(accounts, amount),
    }
}

/// The deal state machine.
pub struct Processor;

impl Processor {
    /// Decodes a request and runs the operation it selects.
    /// `deal_account_rent` is the minimum balance the ledger requires for
    /// one record-sized storage account, read by the caller.
    pub fn process(
        accounts: &Vec<AccountHandle>,
        instruction_data: &[u8],
        deal_account_rent: u64,
    ) -> (r: Result<EscrowPlan, EscrowError>)
        ensures
            r is Ok <==> process_check(accounts@, instruction_data@) is None,
            r matches Err(e) ==> process_check(accounts@, instruction_data@) == Some(e),
            r matches Ok(plan) ==> match parse_instruction(instruction_data@) {
                Ok(
                    EscrowInstruction::InitEscrow { amount_to_trade, amount_expected, seed },
                ) => plan matches EscrowPlan::Init(p) && init_plan_ok(
                    p,
                    accounts@,
                    amount_to_trade,
                    amount_expected,
                    seed,
                ),
                Ok(EscrowInstruction::Exchange { amount }) => plan matches EscrowPlan::Exchange(p)
                    && exchange_plan_ok(p, accounts@),
                Err(_) => false,
            },
    {
        match EscrowInstruction::unpack(instruction_data) {
            Ok(s) => match s {
                EscrowInstruction::Exchange { amount } => match Self::process_exchange(
                    accounts,
                    amount,
                ) {
                    Ok(p) => Ok(EscrowPlan::Exchange(p)),
                    Err(e) => Err(e),
                },
                EscrowInstruction::InitEscrow { amount_to_trade, amount_expected, seed } => match Self::process_init_escrow(
                    accounts,
                    amount_to_trade,
                    amount_expected,
                    seed,
                    deal_account_rent,
                ) {
                    Ok(p) => Ok(EscrowPlan::Init(p)),
                    Err(e) => Err(e),
                },
            },
            Err(e) => Err(e),
        }
    }

    /// Opens a deal: resolves the context, derives the deal's storage
    /// address and custody authority from `(seed, initializer)`, and plans
    /// the creation, funding and record write.
    pub fn process_init_escrow(
        accounts: &Vec<AccountHandle>,
        amount_to_trade: u64,
        amount_expected: u64,
        seed: u64,
        deal_account_rent: u64,
    ) -> (r: Result<InitEscrowPlan, EscrowError>)
        ensures
            r is Ok <==> init_check(accounts@) is None,
            r matches Err(e) ==> init_check(accounts@) == Some(e),
            r matches Ok(p) ==> init_plan_ok(p, accounts@, amount_to_trade, amount_expected, seed),
    {
        let ctx = InitEscrowAccount::unpack(accounts)?;
        let own_id = id();
        let (escrow_key, bump) = derive_deal_address(seed, &ctx.initializer, &own_id);
        let create_deal_account = make_create_account_ix(
            &ctx.initializer,
            &ctx.escrow_state,
            deal_account_rent,
            ESCROW_STATE_LEN as u64,
            &own_id,
        );
        let create_vault_account = make_create_ata_idempotent_ix(
            &ctx.initializer,
            &escrow_key,
            &ctx.token_a_mint.key,
        );
        let fund_vault = make_transfer_checked_ix(
            &ctx.token_a_founder.key,
            &ctx.token_a_mint.key,
            &ctx.token_a_vault,
            &ctx.initializer,
            amount_to_trade,
            ctx.token_a_mint.info.decimals,
        );
        let record = EscrowState {
            is_initialized: true,
            initializer_pubkey: ctx.initializer,
            mint_a: ctx.token_a_mint.key,
            mint_b: ctx.token_b_mint.key,
            expected_amount: amount_expected,
            bump,
            seed,
        };
        Ok(
            InitEscrowPlan {
                initializer: ctx.initializer,
                escrow_key,
                bump,
                seed,
                create_deal_account,
                create_vault_account,
                fund_vault,
                fund_amount: amount_to_trade,
                record,
            },
        )
    }

    /// Completes a deal at exactly the recorded terms: resolves the
    /// context against the record and plans the release of the holding
    /// account's whole balance, the collection of the recorded asset-B
    /// amount, and the closing and clearing of the deal's accounts.
    pub fn process_exchange(
        accounts: &Vec<AccountHandle>,
        amount_expected_by_taker: u64,
    ) -> (r: Result<ExchangePlan, EscrowError>)
        ensures
            r is Ok <==> exchange_check(accounts@, amount_expected_by_taker) is None,
            r matches Err(e) ==> exchange_check(accounts@, amount_expected_by_taker) == Some(e),
            r matches Ok(p) ==> exchange_plan_ok(p, accounts@),
    {
        let ctx = ExchangeAccount::unpack(accounts, amount_expected_by_taker)?;
        let create_taker_asset_a_account = make_create_ata_idempotent_ix(
            &ctx.taker,
            &ctx.taker,
            &ctx.token_a_mint.key,
        );
        let release_asset_a = make_transfer_checked_ix(
            &ctx.token_a_vault.key,
            &ctx.token_a_mint.key,
            &ctx.token_a_receiver,
            &ctx.escrow_account_info.key,
            ctx.token_a_vault.info.amount,
            ctx.token_a_mint.info.decimals,
        );
        let create_initializer_asset_b_account = make_create_ata_idempotent_ix(
            &ctx.taker,
            &ctx.escrow_account_info.key,
            &ctx.token_b_mint.key,
        );
        let collect_asset_b = make_transfer_checked_ix(
            &ctx.token_b_founder.key,
            &ctx.token_b_mint.key,
            &ctx.token_b_receiver,
            &ctx.taker,
            ctx.escrow_account_info.info.expected_amount,
            ctx.token_b_mint.info.decimals,
        );
        let close_vault = make_close_account_ix(
            &ctx.token_a_vault.key,
            &ctx.escrow_account_info.key,
            &ctx.escrow_account_info.key,
        );
        Ok(
            ExchangePlan {
                initializer: ctx.initializer,
                seed: ctx.escrow_account_info.info.seed,
                bump: ctx.escrow_account_info.info.bump,
                create_taker_asset_a_account,
                release_asset_a,
                release_amount: ctx.token_a_vault.info.amount,
                create_initializer_asset_b_account,
                collect_asset_b,
                collect_amount: ctx.escrow_account_info.info.expected_amount,
                close_vault,
                record: EscrowState::default(),
            },
        )
    }
}

/// Computes the deposit refund that closes a deal: the whole balance of
/// the deal storage account moves to the initializer, whose balance must
/// not overflow; the storage account is left at zero.
pub fn refund_deposit(initializer_lamports: u64, escrow_lamports: u64) -> (r: Option<(u64, u64)>)
    ensures
        r is Some <==> initializer_lamports + escrow_lamports <= u64::MAX,
        r matches Some(p) ==> p.0 == initializer_lamports + escrow_lamports && p.1 == 0,
{
    if escrow_lamports <= u64::MAX - initializer_lamports {
        Some((initializer_lamports + escrow_lamports, 0))
    } else {
        None
    }
}

} // verus!
