//! The context validator: resolves the caller's ordered raw account list
//! into typed, cross-checked views, one resolver per protocol phase, and
//! rejects any request whose accounts are inconsistent with the deal.
use vstd::prelude::*;

use crate::error::EscrowError;
use crate::ledger::{
    associated_token_address, associated_token_address_of, spl_mint_wf, spl_token_account_wf,
};
use crate::pubkey::{pubkey_eq, Pubkey};
use crate::state::{
    escrow_account_resolved, escrow_decoded, mint_account_resolved, token_account_resolved,
    EscrowAccount, MintAccount, TokenAccount,
};

verus! {

/// One caller-supplied raw account handle, as plain values.
pub struct AccountHandle {
    /// The account's address.
    pub key: Pubkey,
    /// Whether the caller proved authorization for this account.
    pub is_signer: bool,
    /// Whether the caller opened the account writable.
    pub is_writable: bool,
    /// The account's native balance.
    pub lamports: u64,
    /// The program that owns the account.
    pub owner: Pubkey,
    /// The account's stored bytes.
    pub data: Vec<u8>,
}

/// The resolved context of an `Init` call.
pub struct InitEscrowAccount {
    /// The signing party opening the deal.
    pub initializer: Pubkey,
    /// The deal-record storage account.
    pub escrow_state: Pubkey,
    /// The asset-A holding account the deal will own.
    pub token_a_vault: Pubkey,
    /// The initializer's asset-A source account.
    pub token_a_founder: TokenAccount,
    /// The asset-A descriptor.
    pub token_a_mint: MintAccount,
    /// The asset-B descriptor.
    pub token_b_mint: MintAccount,
}

/// The first check an `Init` account list fails, or `None` if it resolves.
/// The order is the resolution order: presence and decoding of each handle
/// in list order, then authorization, then the holding-account binding,
/// then exact cardinality.
pub open spec fn init_check(accounts: Seq<AccountHandle>) -> Option<EscrowError> {
    if accounts.len() < 4 {
        Some(EscrowError::NotEnoughAccountKeys)
    } else if !spl_token_account_wf(accounts[3].data@) {
        Some(EscrowError::DeserializeTokenAccountError)
    } else if accounts.len() < 5 {
        Some(EscrowError::NotEnoughAccountKeys)
    } else if !spl_mint_wf(accounts[4].data@) {
        Some(EscrowError::DeserializeMintAccountError)
    } else if accounts.len() < 6 {
        Some(EscrowError::NotEnoughAccountKeys)
    } else if !spl_mint_wf(accounts[5].data@) {
        Some(EscrowError::DeserializeMintAccountError)
    } else if accounts.len() < 9 {
        Some(EscrowError::NotEnoughAccountKeys)
    } else if !accounts[0].is_signer {
        Some(EscrowError::InvalidSigner)
    } else if accounts[2].key@ != associated_token_address_of(
        accounts[1].key@,
        accounts[4].key@,
    ) {
        Some(EscrowError::VaultKeyMismatch)
    } else if accounts.len() > 9 {
        Some(EscrowError::NotEnoughAccountKeys)
    } else {
        None
    }
}

/// `ctx` is the faithful resolution of an `Init` account list.
pub open spec fn init_resolved(ctx: InitEscrowAccount, accounts: Seq<AccountHandle>) -> bool {
    &&& ctx.initializer@ == accounts[0].key@
    &&& ctx.escrow_state@ == accounts[1].key@
    &&& ctx.token_a_vault@ == accounts[2].key@
    &&& token_account_resolved(ctx.token_a_founder, accounts[3])
    &&& mint_account_resolved(ctx.token_a_mint, accounts[4])
    &&& mint_account_resolved(ctx.token_b_mint, accounts[5])
}

impl InitEscrowAccount {
    /// Resolves and cross-checks the `Init` account list: the initializer
    /// must sign, the supplied holding account must equal the address
    /// derived from the deal-record address and the asset-A type, and the
    /// list must hold exactly the expected accounts.
    pub fn unpack(accounts: &Vec<AccountHandle>) -> (r: Result<InitEscrowAccount, EscrowError>)
        ensures
            r is Ok <==> init_check(accounts@) is None,
            r matches Err(e) ==> init_check(accounts@) == Some(e),
            r matches Ok(ctx) ==> init_resolved(ctx, accounts@),
    {
        if accounts.len() < 4 {
            return Err(EscrowError::NotEnoughAccountKeys);
        }
        let token_a_founder = match TokenAccount::unpack(&accounts[3]) {
            Ok(t) => t,
            Err(e) => { return Err(e); },
        };
        if accounts.len() < 5 {
            return Err(EscrowError::NotEnoughAccountKeys);
        }
        let token_a_mint = match MintAccount::unpack(&accounts[4]) {
            Ok(m) => m,
            Err(e) => { return Err(e); },
        };
        if accounts.len() < 6 {
            return Err(EscrowError::NotEnoughAccountKeys);
        }
        let token_b_mint = match MintAccount::unpack(&accounts[5]) {
            Ok(m) => m,
            Err(e) => { return Err(e); },
        };
        if accounts.len() < 9 {
            return Err(EscrowError::NotEnoughAccountKeys);
        }
        if !accounts[0].is_signer {
            return Err(EscrowError::InvalidSigner);
        }
        let expected_vault = associated_token_address(&accounts[1].key, &token_a_mint.key);
        if !pubkey_eq(&expected_vault, &accounts[2].key) {
            return Err(EscrowError::VaultKeyMismatch);
        }
        if accounts.len() > 9 {
            return Err(EscrowError::NotEnoughAccountKeys);
        }
        Ok(
            InitEscrowAccount {
                initializer: accounts[0].key,
                escrow_state: accounts[1].key,
                token_a_vault: accounts[2].key,
                token_a_founder,
                token_a_mint,
                token_b_mint,
            },
        )
    }
}

/// The resolved context of an `Exchange` call.
pub struct ExchangeAccount {
    /// The signing party taking the deal.
    pub taker: Pubkey,
    /// The party who opened the deal.
    pub initializer: Pubkey,
    /// The deal-record storage account.
    pub escrow_state: Pubkey,
    /// The decoded deal record.
    pub escrow_account_info: EscrowAccount,
    /// The deal's asset-A holding account.
    pub token_a_vault: TokenAccount,
    /// The taker's asset-A receiving account.
    pub token_a_receiver: Pubkey,
    /// The initializer's asset-B receiving account.
    pub token_b_receiver: Pubkey,
    /// The taker's asset-B source account.
    pub token_b_founder: TokenAccount,
    /// The asset-A descriptor.
    pub token_a_mint: MintAccount,
    /// The asset-B descriptor.
    pub token_b_mint: MintAccount,
}

/// The first check an `Exchange` account list fails, or `None` if it
/// resolves. After presence and decoding come, in order: authorization,
/// the holding-account binding, then the binding of the caller's claim and
/// both asset descriptors to the recorded terms, then exact cardinality.
pub open spec fn exchange_check(accounts: Seq<AccountHandle>, amount_expected_by_taker: u64) -> Option<
    EscrowError,
> {
    if accounts.len() < 3 {
        Some(EscrowError::NotEnoughAccountKeys)
    } else if !(accounts[2].data@.len() == 114 && accounts[2].data@[0] == 1) {
        Some(EscrowError::DeserializeEscrowAccountError)
    } else if accounts.len() < 4 {
        Some(EscrowError::NotEnoughAccountKeys)
    } else if !spl_token_account_wf(accounts[3].data@) {
        Some(EscrowError::DeserializeTokenAccountError)
    } else if accounts.len() < 7 {
        Some(EscrowError::NotEnoughAccountKeys)
    } else if !spl_token_account_wf(accounts[6].data@) {
        Some(EscrowError::DeserializeTokenAccountError)
    } else if accounts.len() < 8 {
        Some(EscrowError::NotEnoughAccountKeys)
    } else if !spl_mint_wf(accounts[7].data@) {
        Some(EscrowError::DeserializeMintAccountError)
    } else if accounts.len() < 9 {
        Some(EscrowError::NotEnoughAccountKeys)
    } else if !spl_mint_wf(accounts[8].data@) {
        Some(EscrowError::DeserializeMintAccountError)
    } else if accounts.len() < 12 {
        Some(EscrowError::NotEnoughAccountKeys)
    } else if !accounts[0].is_signer {
        Some(EscrowError::InvalidSigner)
    } else if accounts[3].key@ != associated_token_address_of(
        accounts[2].key@,
        accounts[7].key@,
    ) {
        Some(EscrowError::VaultKeyMismatch)
    } else if amount_expected_by_taker != escrow_decoded(accounts[2].data@).expected_amount {
        Some(EscrowError::ExpectedAmountMismatch)
    } else if accounts[7].key@ != escrow_decoded(accounts[2].data@).mint_a {
        Some(EscrowError::MintAMismatch)
    } else if accounts[8].key@ != escrow_decoded(accounts[2].data@).mint_b {
        Some(EscrowError::MintBMismatch)
    } else if accounts.len() > 12 {
        Some(EscrowError::NotEnoughAccountKeys)
    } else {
        None
    }
}

/// `ctx` is the faithful resolution of an `Exchange` account list.
pub open spec fn exchange_resolved(ctx: ExchangeAccount, accounts: Seq<AccountHandle>) -> bool {
    &&& ctx.taker@ == accounts[0].key@
    &&& ctx.initializer@ == accounts[1].key@
    &&& ctx.escrow_state@ == accounts[2].key@
    &&& escrow_account_resolved(ctx.escrow_account_info, accounts[2])
    &&& token_account_resolved(ctx.token_a_vault, accounts[3])
    &&& ctx.token_a_receiver@ == accounts[4].key@
    &&& ctx.token_b_receiver@ == accounts[5].key@
    &&& token_account_resolved(ctx.token_b_founder, accounts[6])
    &&& mint_account_resolved(ctx.token_a_mint, accounts[7])
    &&& mint_account_resolved(ctx.token_b_mint, accounts[8])
}

impl ExchangeAccount {
    /// Resolves and cross-checks the `Exchange` account list: the taker
    /// must sign, the supplied holding account must equal the derived one,
    /// and the claimed amount and both asset descriptors must equal the
    /// recorded terms exactly.
    pub fn unpack(accounts: &Vec<AccountHandle>, amount_expected_by_taker: u64) -> (r: Result<
        ExchangeAccount,
        EscrowError,
    >)
        ensures
            r is Ok <==> exchange_check(accounts@, amount_expected_by_taker) is None,
            r matches Err(e) ==> exchange_check(accounts@, amount_expected_by_taker) == Some(e),
            r matches Ok(ctx) ==> exchange_resolved(ctx, accounts@),
    {
        if accounts.len() < 3 {
            return Err(EscrowError::NotEnoughAccountKeys);
        }
        let escrow_account_info = match EscrowAccount::unpack(&accounts[2]) {
            Ok(e) => e,
            Err(e) => { return Err(e); },
        };
        if accounts.len() < 4 {
            return Err(EscrowError::NotEnoughAccountKeys);
        }
        let token_a_vault = match TokenAccount::unpack(&accounts[3]) {
            Ok(t) => t,
            Err(e) => { return Err(e); },
        };
        if accounts.len() < 7 {
            return Err(EscrowError::NotEnoughAccountKeys);
        }
        let token_b_founder = match TokenAccount::unpack(&accounts[6]) {
            Ok(t) => t,
            Err(e) => { return Err(e); },
        };
        if accounts.len() < 8 {
            return Err(EscrowError::NotEnoughAccountKeys);
        }
        let token_a_mint = match MintAccount::unpack(&accounts[7]) {
            Ok(m) => m,
            Err(e) => { return Err(e); },
        };
        if accounts.len() < 9 {
            return Err(EscrowError::NotEnoughAccountKeys);
        }
        let token_b_mint = match MintAccount::unpack(&accounts[8]) {
            Ok(m) => m,
            Err(e) => { return Err(e); },
        };
        if accounts.len() < 12 {
            return Err(EscrowError::NotEnoughAccountKeys);
        }
        if !accounts[0].is_signer {
            return Err(EscrowError::InvalidSigner);
        }
        let expected_vault = associated_token_address(&accounts[2].key, &token_a_mint.key);
        if !pubkey_eq(&expected_vault, &accounts[3].key) {
            return Err(EscrowError::VaultKeyMismatch);
        }
        if amount_expected_by_taker != escrow_account_info.info.expected_amount {
            return Err(EscrowError::ExpectedAmountMismatch);
        }
        if !pubkey_eq(&token_a_mint.key, &escrow_account_info.info.mint_a) {
            return Err(EscrowError::MintAMismatch);
        }
        if !pubkey_eq(&token_b_mint.key, &escrow_account_info.info.mint_b) {
            return Err(EscrowError::MintBMismatch);
        }
        if accounts.len() > 12 {
            return Err(EscrowError::NotEnoughAccountKeys);
        }
        Ok(
            ExchangeAccount {
                taker: accounts[0].key,
                initializer: accounts[1].key,
                escrow_state: accounts[2].key,
                escrow_account_info,
                token_a_vault,
                token_a_receiver: accounts[4].key,
                token_b_receiver: accounts[5].key,
                token_b_founder,
                token_a_mint,
                token_b_mint,
            },
        )
    }
}

/// Anti-misdirection, opening side: however well-formed everything else
/// is, an `Init` whose supplied holding account is any address other than
/// the one derived from the deal-record address and the asset-A type is
/// rejected with `VaultKeyMismatch`.
pub proof fn lemma_init_vault_binding(accounts: Seq<AccountHandle>)
    requires
        accounts.len() >= 9,
        spl_token_account_wf(accounts[3].data@),
        spl_mint_wf(accounts[4].data@),
        spl_mint_wf(accounts[5].data@),
        accounts[0].is_signer,
        accounts[2].key@ != associated_token_address_of(accounts[1].key@, accounts[4].key@),
    ensures
        init_check(accounts) == Some(EscrowError::VaultKeyMismatch),
{
}

/// Anti-misdirection, completing side: an `Exchange` whose supplied
/// holding account is any address other than the derived one is rejected
/// with `VaultKeyMismatch`.
pub proof fn lemma_exchange_vault_binding(accounts: Seq<AccountHandle>, amount: u64)
    requires
        accounts.len() >= 12,
        accounts[2].data@.len() == 114 && accounts[2].data@[0] == 1,
        spl_token_account_wf(accounts[3].data@),
        spl_token_account_wf(accounts[6].data@),
        spl_mint_wf(accounts[7].data@),
        spl_mint_wf(accounts[8].data@),
        accounts[0].is_signer,
        accounts[3].key@ != associated_token_address_of(accounts[2].key@, accounts[7].key@),
    ensures
        exchange_check(accounts, amount) == Some(EscrowError::VaultKeyMismatch),
{
}

/// Terms immutability: against an open deal recorded with some expected
/// amount and asset pair, an `Exchange` claiming a different amount fails
/// with `ExpectedAmountMismatch`, and one supplying a different asset-A or
/// asset-B descriptor fails with `MintAMismatch` or `MintBMismatch`. The
/// resolver takes the account list read-only, so a rejected call leaves
/// the record bytes untouched.
pub proof fn lemma_exchange_terms_binding(accounts: Seq<AccountHandle>, amount: u64)
    requires
        accounts.len() >= 12,
        accounts[2].data@.len() == 114 && accounts[2].data@[0] == 1,
        spl_token_account_wf(accounts[3].data@),
        spl_token_account_wf(accounts[6].data@),
        spl_mint_wf(accounts[7].data@),
        spl_mint_wf(accounts[8].data@),
        accounts[0].is_signer,
        accounts[3].key@ == associated_token_address_of(accounts[2].key@, accounts[7].key@),
    ensures
        amount != escrow_decoded(accounts[2].data@).expected_amount ==> exchange_check(
            accounts,
            amount,
        ) == Some(EscrowError::ExpectedAmountMismatch),
        amount == escrow_decoded(accounts[2].data@).expected_amount && accounts[7].key@
            != escrow_decoded(accounts[2].data@).mint_a ==> exchange_check(accounts, amount)
            == Some(EscrowError::MintAMismatch),
        amount == escrow_decoded(accounts[2].data@).expected_amount && accounts[7].key@
            == escrow_decoded(accounts[2].data@).mint_a && accounts[8].key@ != escrow_decoded(
            accounts[2].data@,
        ).mint_b ==> exchange_check(accounts, amount) == Some(EscrowError::MintBMismatch),
{
}

/// Lifecycle, closing side: once a deal account holds the cleared record
/// encoding, any further `Exchange` against it fails to decode the record.
pub proof fn lemma_closed_record_rejected(accounts: Seq<AccountHandle>, amount: u64)
    requires
        accounts.len() >= 3,
        accounts[2].data@ == crate::state::pack_spec(crate::state::closed_record_v()),
    ensures
        exchange_check(accounts, amount) == Some(EscrowError::DeserializeEscrowAccountError),
{
    crate::state::lemma_pack_unpack_roundtrip(crate::state::closed_record_v());
    assert(accounts[2].data@[0] == 0);
}

} // verus!
