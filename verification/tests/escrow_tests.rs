use escrow::accounts::{AccountHandle, ExchangeAccount, InitEscrowAccount};
use escrow::error::EscrowError;
use escrow::instruction::EscrowInstruction;
use escrow::ledger::{associated_token_address, derive_deal_address};
use escrow::processor::{refund_deposit, EscrowPlan, Processor};
use escrow::pubkey::{pubkey_eq, Pubkey};
use escrow::state::{EscrowState, MintAccount, TokenAccount};
use escrow::{check_program_account, id};

fn err_of<T>(r: Result<T, EscrowError>) -> EscrowError {
    match r {
        Err(e) => e,
        Ok(_) => panic!("expected an error"),
    }
}

fn key(tag: u8) -> Pubkey {
    let mut b = [0u8; 32];
    b[0] = tag;
    b[31] = tag.wrapping_add(1);
    Pubkey { bytes: b }
}

/// A well-formed 165-byte token-balance account: mint, owner, little-endian
/// amount, no optional fields, state byte = initialized.
fn token_data(mint: &Pubkey, owner: &Pubkey, amount: u64) -> Vec<u8> {
    let mut d = vec![0u8; 165];
    d[0..32].copy_from_slice(&mint.bytes);
    d[32..64].copy_from_slice(&owner.bytes);
    d[64..72].copy_from_slice(&amount.to_le_bytes());
    d[108] = 1;
    d
}

/// A well-formed 82-byte asset descriptor: supply, decimals, initialized.
fn mint_data(supply: u64, decimals: u8) -> Vec<u8> {
    let mut d = vec![0u8; 82];
    d[36..44].copy_from_slice(&supply.to_le_bytes());
    d[44] = decimals;
    d[45] = 1;
    d
}

fn handle(k: Pubkey, signer: bool, lamports: u64, data: Vec<u8>) -> AccountHandle {
    AccountHandle {
        key: k,
        is_signer: signer,
        is_writable: true,
        lamports,
        owner: key(200),
        data,
    }
}

/// The holding-account address the protocol derives, computed through the
/// same outside collaborator the library wraps.
fn expected_vault(wallet: &Pubkey, mint: &Pubkey) -> Pubkey {
    associated_token_address(wallet, mint)
}

/// A valid 9-account `Init` list: initializer, deal record account, derived
/// holding account, asset-A source, both descriptors, three programs.
fn init_accounts() -> Vec<AccountHandle> {
    let initializer = key(1);
    let escrow_state = key(2);
    let mint_a = key(3);
    let mint_b = key(4);
    let vault = expected_vault(&escrow_state, &mint_a);
    vec![
        handle(initializer, true, 10_000, vec![]),
        handle(escrow_state, false, 0, vec![0u8; 114]),
        handle(vault, false, 0, vec![]),
        handle(key(5), false, 0, token_data(&mint_a, &initializer, 100)),
        handle(mint_a, false, 0, mint_data(1_000_000, 6)),
        handle(mint_b, false, 0, mint_data(2_000_000, 9)),
        handle(key(6), false, 0, vec![]),
        handle(key(7), false, 0, vec![]),
        handle(key(8), false, 0, vec![]),
    ]
}

/// A valid 12-account `Exchange` list against the record in `record_bytes`.
fn exchange_accounts(record_bytes: Vec<u8>, vault_balance: u64) -> Vec<AccountHandle> {
    let taker = key(9);
    let initializer = key(1);
    let escrow_state = key(2);
    let mint_a = key(3);
    let mint_b = key(4);
    let vault = expected_vault(&escrow_state, &mint_a);
    vec![
        handle(taker, true, 500, vec![]),
        handle(initializer, false, 10_000, vec![]),
        handle(escrow_state, false, 2_039, record_bytes),
        handle(vault, false, 0, token_data(&mint_a, &escrow_state, vault_balance)),
        handle(key(10), false, 0, vec![]),
        handle(key(11), false, 0, vec![]),
        handle(key(12), false, 0, token_data(&mint_b, &taker, 500)),
        handle(mint_a, false, 0, mint_data(1_000_000, 6)),
        handle(mint_b, false, 0, mint_data(2_000_000, 9)),
        handle(key(6), false, 0, vec![]),
        handle(key(7), false, 0, vec![]),
        handle(key(8), false, 0, vec![]),
    ]
}

fn init_payload(amount_to_trade: u64, amount_expected: u64, seed: u64) -> Vec<u8> {
    let mut p = vec![0u8];
    p.extend_from_slice(&amount_to_trade.to_le_bytes());
    p.extend_from_slice(&amount_expected.to_le_bytes());
    p.extend_from_slice(&seed.to_le_bytes());
    p
}

fn exchange_payload(amount: u64) -> Vec<u8> {
    let mut p = vec![1u8];
    p.extend_from_slice(&amount.to_le_bytes());
    p
}

#[test]
fn derivation_is_deterministic() {
    let owner = key(1);
    let program = id();
    let (k1, b1) = derive_deal_address(7, &owner, &program);
    let (k2, b2) = derive_deal_address(7, &owner, &program);
    assert_eq!(k1, k2);
    assert_eq!(b1, b2);
    let v1 = associated_token_address(&key(2), &key(3));
    let v2 = associated_token_address(&key(2), &key(3));
    assert_eq!(v1, v2);
}

#[test]
fn derivation_matches_ledger_collaborator() {
    let owner = key(1);
    let program = id();
    let (k, bump) = derive_deal_address(7, &owner, &program);
    let (sk, sb) = solana_program::pubkey::Pubkey::find_program_address(
        &[&7u64.to_le_bytes(), &owner.bytes],
        &solana_program::pubkey::Pubkey::new_from_array(program.bytes),
    );
    assert_eq!(k.bytes, sk.to_bytes());
    assert_eq!(bump, sb);
    let v = associated_token_address(&key(2), &key(3));
    let sv = spl_associated_token_account::get_associated_token_address(
        &solana_program::pubkey::Pubkey::new_from_array(key(2).bytes),
        &solana_program::pubkey::Pubkey::new_from_array(key(3).bytes),
    );
    assert_eq!(v.bytes, sv.to_bytes());
}

#[test]
fn program_identity_check() {
    assert!(check_program_account(&id()));
    assert!(!check_program_account(&key(1)));
}

#[test]
fn error_codes_are_stable() {
    assert_eq!(EscrowError::ExpectedAmountMismatch.code(), 0);
    assert_eq!(EscrowError::InvalidInstructionType.code(), 1);
    assert_eq!(EscrowError::InvalidInstructionData.code(), 2);
    assert_eq!(EscrowError::InvalidEscrowState.code(), 3);
    assert_eq!(EscrowError::VaultKeyMismatch.code(), 13);
}

#[test]
fn instruction_unpack_init() {
    let p = init_payload(100, 50, 7);
    assert_eq!(
        EscrowInstruction::unpack(&p),
        Ok(EscrowInstruction::InitEscrow { amount_to_trade: 100, amount_expected: 50, seed: 7 })
    );
}

#[test]
fn instruction_unpack_exchange() {
    let p = exchange_payload(50);
    assert_eq!(
        EscrowInstruction::unpack(&p),
        Ok(EscrowInstruction::Exchange { amount: 50 })
    );
}

#[test]
fn instruction_unpack_bad_tag() {
    assert_eq!(
        EscrowInstruction::unpack(&[]),
        Err(EscrowError::InvalidInstructionType)
    );
    assert_eq!(
        EscrowInstruction::unpack(&[9u8, 0, 0]),
        Err(EscrowError::InvalidInstructionType)
    );
}

#[test]
fn instruction_unpack_truncated() {
    assert_eq!(
        EscrowInstruction::unpack(&[1u8, 5, 0, 0]),
        Err(EscrowError::InvalidInstructionData)
    );
    assert_eq!(
        EscrowInstruction::unpack(&[0u8; 20]),
        Err(EscrowError::InvalidInstructionData)
    );
}

#[test]
fn record_roundtrip() {
    let s = EscrowState {
        is_initialized: true,
        initializer_pubkey: key(1),
        mint_a: key(3),
        mint_b: key(4),
        expected_amount: 0xDEAD_BEEF_0123_4567,
        bump: 254,
        seed: 42,
    };
    let b = s.pack_to_vec();
    assert_eq!(b.len(), 114);
    let t = EscrowState::unpack_from_slice(&b).unwrap();
    assert_eq!(t, s);
}

#[test]
fn record_layout_is_exact() {
    let s = EscrowState {
        is_initialized: true,
        initializer_pubkey: key(1),
        mint_a: key(3),
        mint_b: key(4),
        expected_amount: 0x0102_0304_0506_0708,
        bump: 9,
        seed: 0x1122_3344_5566_7788,
    };
    let b = s.pack_to_vec();
    assert_eq!(b[0], 1);
    assert_eq!(&b[1..33], &key(1).bytes);
    assert_eq!(&b[33..65], &key(3).bytes);
    assert_eq!(&b[65..97], &key(4).bytes);
    // little-endian: least significant byte first
    assert_eq!(&b[97..105], &[0x08, 0x07, 0x06, 0x05, 0x04, 0x03, 0x02, 0x01]);
    assert_eq!(b[105], 9);
    assert_eq!(&b[106..114], &[0x88, 0x77, 0x66, 0x55, 0x44, 0x33, 0x22, 0x11]);
}

#[test]
fn record_bad_flag_rejected() {
    let mut b = vec![0u8; 114];
    b[0] = 2;
    assert_eq!(
        EscrowState::unpack_from_slice(&b),
        Err(EscrowError::InvalidEscrowState)
    );
}

#[test]
fn cleared_record_is_closed() {
    let d = EscrowState::default();
    assert!(!d.is_initialized());
    let b = d.pack_to_vec();
    assert!(b.iter().all(|&x| x == 0));
    // a cleared record never decodes as a live deal
    assert_eq!(EscrowState::unpack(&b), Err(EscrowError::InvalidEscrowState));
}

#[test]
fn token_account_decoding_reads_fields() {
    let h = handle(key(5), false, 0, token_data(&key(3), &key(1), 12_345));
    let t = TokenAccount::unpack(&h).unwrap();
    assert!(pubkey_eq(&t.info.mint, &key(3)));
    assert!(pubkey_eq(&t.info.owner, &key(1)));
    assert_eq!(t.info.amount, 12_345);
    let m = handle(key(3), false, 0, mint_data(77, 6));
    let m = MintAccount::unpack(&m).unwrap();
    assert_eq!(m.info.supply, 77);
    assert_eq!(m.info.decimals, 6);
}

#[test]
fn token_account_decoding_rejects_garbage() {
    let h = handle(key(5), false, 0, vec![1u8; 10]);
    assert_eq!(
        TokenAccount::unpack(&h).unwrap_err(),
        EscrowError::DeserializeTokenAccountError
    );
    let mut bad = token_data(&key(3), &key(1), 5);
    bad[108] = 0; // uninitialized state byte
    let h = handle(key(5), false, 0, bad);
    assert!(TokenAccount::unpack(&h).is_err());
    let h = handle(key(3), false, 0, vec![0u8; 82]); // uninitialized mint
    assert_eq!(
        MintAccount::unpack(&h).unwrap_err(),
        EscrowError::DeserializeMintAccountError
    );
}

#[test]
fn init_resolves_valid_list() {
    let accounts = init_accounts();
    let ctx = InitEscrowAccount::unpack(&accounts).unwrap();
    assert!(pubkey_eq(&ctx.initializer, &key(1)));
    assert!(pubkey_eq(&ctx.escrow_state, &key(2)));
    assert_eq!(ctx.token_a_founder.info.amount, 100);
    assert_eq!(ctx.token_a_mint.info.decimals, 6);
}

#[test]
fn init_requires_signer() {
    let mut accounts = init_accounts();
    accounts[0].is_signer = false;
    assert_eq!(
        err_of(InitEscrowAccount::unpack(&accounts)),
        EscrowError::InvalidSigner
    );
}

#[test]
fn init_rejects_misdirected_vault() {
    let mut accounts = init_accounts();
    accounts[2].key = key(99);
    assert_eq!(
        err_of(InitEscrowAccount::unpack(&accounts)),
        EscrowError::VaultKeyMismatch
    );
}

#[test]
fn init_rejects_wrong_cardinality() {
    let mut accounts = init_accounts();
    accounts.truncate(3);
    assert_eq!(
        err_of(InitEscrowAccount::unpack(&accounts)),
        EscrowError::NotEnoughAccountKeys
    );
    let mut accounts = init_accounts();
    accounts.push(handle(key(50), false, 0, vec![]));
    assert_eq!(
        err_of(InitEscrowAccount::unpack(&accounts)),
        EscrowError::NotEnoughAccountKeys
    );
}

#[test]
fn init_rejects_bad_source_account() {
    let mut accounts = init_accounts();
    accounts[3].data = vec![3u8; 165];
    assert_eq!(
        err_of(InitEscrowAccount::unpack(&accounts)),
        EscrowError::DeserializeTokenAccountError
    );
    let mut accounts = init_accounts();
    accounts[4].data = vec![0u8; 82];
    assert_eq!(
        err_of(InitEscrowAccount::unpack(&accounts)),
        EscrowError::DeserializeMintAccountError
    );
}

#[test]
fn init_opens_record_with_exact_terms() {
    let accounts = init_accounts();
    let plan = Processor::process_init_escrow(&accounts, 100, 50, 7, 2_039).unwrap();
    let (expected_key, expected_bump) = derive_deal_address(7, &key(1), &id());
    assert!(pubkey_eq(&plan.escrow_key, &expected_key));
    assert_eq!(plan.bump, expected_bump);
    assert_eq!(plan.fund_amount, 100);
    assert!(plan.record.is_initialized());
    assert!(pubkey_eq(&plan.record.initializer_pubkey, &key(1)));
    assert!(pubkey_eq(&plan.record.mint_a, &key(3)));
    assert!(pubkey_eq(&plan.record.mint_b, &key(4)));
    assert_eq!(plan.record.expected_amount, 50);
    assert_eq!(plan.record.bump, expected_bump);
    assert_eq!(plan.record.seed, 7);
}

#[test]
fn exchange_rejects_misdirected_vault() {
    let accounts = init_accounts();
    let plan = Processor::process_init_escrow(&accounts, 100, 50, 7, 2_039).unwrap();
    let mut accounts = exchange_accounts(plan.record.pack_to_vec(), 100);
    accounts[3].key = key(99);
    assert_eq!(
        err_of(ExchangeAccount::unpack(&accounts, 50)),
        EscrowError::VaultKeyMismatch
    );
}

#[test]
fn exchange_rejects_mismatched_terms() {
    let accounts = init_accounts();
    let plan = Processor::process_init_escrow(&accounts, 100, 50, 7, 2_039).unwrap();

    // a record demanding a different asset A than the supplied descriptor
    let mut wrong_a = plan.record;
    wrong_a.mint_a = key(33);
    let accounts_a = exchange_accounts(wrong_a.pack_to_vec(), 100);
    assert_eq!(
        err_of(ExchangeAccount::unpack(&accounts_a, 50)),
        EscrowError::MintAMismatch
    );

    // a record demanding a different asset B than the supplied descriptor
    let mut wrong_b = plan.record;
    wrong_b.mint_b = key(44);
    let accounts_b = exchange_accounts(wrong_b.pack_to_vec(), 100);
    assert_eq!(
        err_of(ExchangeAccount::unpack(&accounts_b, 50)),
        EscrowError::MintBMismatch
    );
}

#[test]
fn exchange_rejects_undecodable_record() {
    let mut bad = vec![0u8; 114];
    bad[0] = 7;
    let accounts = exchange_accounts(bad, 100);
    assert_eq!(
        err_of(ExchangeAccount::unpack(&accounts, 50)),
        EscrowError::DeserializeEscrowAccountError
    );
}

#[test]
fn end_to_end_scenario() {
    // The initializer opens a deal: 100 units of asset A for 50 of asset B,
    // seed 7. Simulated balances follow the planned ledger effects.
    let accounts = init_accounts();
    let plan = match Processor::process(&accounts, &init_payload(100, 50, 7), 2_039).unwrap() {
        EscrowPlan::Init(p) => p,
        EscrowPlan::Exchange(_) => panic!("wrong operation"),
    };
    let mut initializer_a: u64 = 100;
    let mut vault_a: u64 = 0;
    initializer_a -= plan.fund_amount;
    vault_a += plan.fund_amount;
    assert_eq!((initializer_a, vault_a), (0, 100));

    // the opened record is persisted into the deal account
    let record_bytes = plan.record.pack_to_vec();

    // the taker completes at exactly the recorded terms
    let mut xaccounts = exchange_accounts(record_bytes.clone(), vault_a);
    let xplan = match Processor::process(&xaccounts, &exchange_payload(50), 2_039).unwrap() {
        EscrowPlan::Exchange(p) => p,
        EscrowPlan::Init(_) => panic!("wrong operation"),
    };
    assert_eq!(xplan.release_amount, 100);
    assert_eq!(xplan.collect_amount, 50);
    assert_eq!(xplan.seed, 7);
    assert_eq!(xplan.bump, plan.bump);
    assert!(pubkey_eq(&xplan.initializer, &key(1)));

    let mut taker_a: u64 = 0;
    let mut taker_b: u64 = 500;
    let mut initializer_b: u64 = 0;
    taker_a += xplan.release_amount;
    vault_a -= xplan.release_amount;
    taker_b -= xplan.collect_amount;
    initializer_b += xplan.collect_amount;
    assert_eq!(taker_a, 100);
    assert_eq!(initializer_b, 50);
    assert_eq!(vault_a, 0);
    assert_eq!(taker_b, 450);

    // the storage deposit flows back to the initializer, the deal account
    // is zeroed, and the cleared record is written back
    let (initializer_lamports, escrow_lamports) =
        refund_deposit(xaccounts[1].lamports, xaccounts[2].lamports).unwrap();
    assert_eq!(initializer_lamports, 10_000 + 2_039);
    assert_eq!(escrow_lamports, 0);
    assert!(!xplan.record.is_initialized());
    let cleared = xplan.record.pack_to_vec();
    assert!(cleared.iter().all(|&x| x == 0));

    // a second identical exchange now fails to decode the record
    xaccounts[2].data = cleared;
    assert_eq!(
        err_of(Processor::process(&xaccounts, &exchange_payload(50), 2_039)),
        EscrowError::DeserializeEscrowAccountError
    );
}

#[test]
fn wrong_taker_amount_scenario() {
    // Same deal; the taker claims 49 instead of 50: the call fails with
    // ExpectedAmountMismatch and no effects are planned.
    let accounts = init_accounts();
    let plan = Processor::process_init_escrow(&accounts, 100, 50, 7, 2_039).unwrap();
    let xaccounts = exchange_accounts(plan.record.pack_to_vec(), 100);
    assert_eq!(
        err_of(Processor::process(&xaccounts, &exchange_payload(49), 2_039)),
        EscrowError::ExpectedAmountMismatch
    );
}

#[test]
fn exchange_requires_signer() {
    let accounts = init_accounts();
    let plan = Processor::process_init_escrow(&accounts, 100, 50, 7, 2_039).unwrap();
    let mut xaccounts = exchange_accounts(plan.record.pack_to_vec(), 100);
    xaccounts[0].is_signer = false;
    assert_eq!(
        err_of(ExchangeAccount::unpack(&xaccounts, 50)),
        EscrowError::InvalidSigner
    );
}

#[test]
fn exchange_rejects_wrong_cardinality() {
    let accounts = init_accounts();
    let plan = Processor::process_init_escrow(&accounts, 100, 50, 7, 2_039).unwrap();
    let mut xaccounts = exchange_accounts(plan.record.pack_to_vec(), 100);
    xaccounts.truncate(11);
    assert_eq!(
        err_of(ExchangeAccount::unpack(&xaccounts, 50)),
        EscrowError::NotEnoughAccountKeys
    );
    let mut xaccounts = exchange_accounts(plan.record.pack_to_vec(), 100);
    xaccounts.push(handle(key(50), false, 0, vec![]));
    assert_eq!(
        err_of(ExchangeAccount::unpack(&xaccounts, 50)),
        EscrowError::NotEnoughAccountKeys
    );
}

#[test]
fn rejected_exchange_leaves_record_unchanged() {
    let accounts = init_accounts();
    let plan = Processor::process_init_escrow(&accounts, 100, 50, 7, 2_039).unwrap();
    let record_bytes = plan.record.pack_to_vec();
    let xaccounts = exchange_accounts(record_bytes.clone(), 100);
    assert_eq!(
        err_of(Processor::process(&xaccounts, &exchange_payload(49), 2_039)),
        EscrowError::ExpectedAmountMismatch
    );
    assert_eq!(xaccounts[2].data, record_bytes);
}

#[test]
fn refund_deposit_overflow_refused() {
    assert_eq!(refund_deposit(u64::MAX, 1), None);
    assert_eq!(refund_deposit(5, 7), Some((12, 0)));
}
