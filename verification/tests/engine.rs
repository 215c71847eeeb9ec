//! Scenario tests for the settlement engine: the five operations run
//! against staged account lists, with the custody addresses derived by the
//! real runtime derivation.

use token_escrow::addr::Address;
use token_escrow::error::EscrowError;
use token_escrow::processor::{Account, Effect, Processor};
use token_escrow::state::{ListerState, PlatformState, TokenState, LISTER_STATE_LEN};

fn addr(b: u8) -> Address {
    Address::new([b; 32])
}

fn account(key: Address, owner: Address, is_signer: bool, data: Vec<u8>) -> Account {
    Account { key, owner, is_signer, data }
}

fn derived(seeds: &[&Address], program: &Address) -> (Address, u8) {
    let seed_slices: Vec<&[u8]> = seeds.iter().map(|a| &a.bytes[..]).collect();
    let pid = solana_program::pubkey::Pubkey::new_from_array(program.bytes);
    let (pk, bump) = solana_program::pubkey::Pubkey::find_program_address(&seed_slices, &pid);
    (Address::new(pk.to_bytes()), bump)
}

#[test]
fn create_platform_state_success() {
    let program = addr(100);
    let admin = addr(1);
    let treasury = addr(2);
    let accounts = vec![
        account(admin, addr(0), true, vec![]),
        account(addr(10), addr(0), false, vec![]),
        account(addr(11), addr(0), false, vec![]),
        account(treasury, addr(0), false, vec![]),
    ];
    let e = Processor::process_create_platform_state(&accounts, 5, &program, &admin).unwrap();
    assert!(e.record.is_initialized);
    assert_eq!(e.record.treasury_account, treasury);
    assert_eq!(e.record.platform_fee_percent, 5);
}

#[test]
fn create_platform_state_wrong_admin_rejected() {
    let program = addr(100);
    let accounts = vec![
        account(addr(1), addr(0), true, vec![]),
        account(addr(10), addr(0), false, vec![]),
        account(addr(11), addr(0), false, vec![]),
        account(addr(2), addr(0), false, vec![]),
    ];
    let r = Processor::process_create_platform_state(&accounts, 5, &program, &addr(99));
    assert_eq!(r.unwrap_err(), EscrowError::InvalidAccountData);
}

#[test]
fn create_token_state_success() {
    let program = addr(100);
    let admin = addr(1);
    let platform = addr(10);
    let mint = addr(20);
    let (pda, bump) = derived(&[&platform, &mint], &program);
    let accounts = vec![
        account(admin, addr(0), true, vec![]),
        account(platform, program, false, vec![]),
        account(pda, addr(0), false, vec![]),
        account(mint, addr(0), false, vec![]),
        account(addr(11), addr(0), false, vec![]),
    ];
    let e = Processor::process_create_token_state(&accounts, &program, &admin).unwrap();
    assert_eq!(e.bump, bump);
    assert!(e.record.is_initialized);
    assert_eq!(e.record.owner_pubkey, admin);
    assert_eq!(e.record.token_mint, mint);
    assert_eq!(e.record.total_no_of_tokens_listed, 0);
}

#[test]
fn create_token_state_wrong_custody_address_rejected() {
    let program = addr(100);
    let admin = addr(1);
    let accounts = vec![
        account(admin, addr(0), true, vec![]),
        account(addr(10), program, false, vec![]),
        account(addr(66), addr(0), false, vec![]),
        account(addr(20), addr(0), false, vec![]),
        account(addr(11), addr(0), false, vec![]),
    ];
    let r = Processor::process_create_token_state(&accounts, &program, &admin);
    assert_eq!(r.unwrap_err(), EscrowError::InvalidAccountData);
}

#[test]
fn create_token_state_platform_not_owned_rejected() {
    let program = addr(100);
    let admin = addr(1);
    let accounts = vec![
        account(admin, addr(0), true, vec![]),
        account(addr(10), addr(99), false, vec![]),
        account(addr(66), addr(0), false, vec![]),
        account(addr(20), addr(0), false, vec![]),
        account(addr(11), addr(0), false, vec![]),
    ];
    let r = Processor::process_create_token_state(&accounts, &program, &admin);
    assert_eq!(r.unwrap_err(), EscrowError::IncorrectProgramId);
}

#[test]
fn custody_derivation_deterministic() {
    let program = addr(100);
    let seller = addr(1);
    let mint = addr(2);
    let token_state = addr(3);
    let first = derived(&[&seller, &mint, &token_state], &program);
    let second = derived(&[&seller, &mint, &token_state], &program);
    assert_eq!(first, second);
}

fn list_accounts(
    program: &Address,
    seller: Address,
    mint: Address,
    token_state_key: Address,
    record_owner: Address,
    record_data: Vec<u8>,
    seller_signed: bool,
    aggregate: u64,
) -> Vec<Account> {
    let (pda, _) = derived(&[&seller, &mint, &token_state_key], program);
    let token_state = TokenState {
        is_initialized: true,
        owner_pubkey: addr(1),
        token_mint: mint,
        total_no_of_tokens_listed: aggregate,
    };
    vec![
        account(seller, addr(0), seller_signed, vec![]),
        account(addr(30), addr(0), false, vec![]),
        account(mint, addr(0), false, vec![]),
        account(pda, record_owner, false, record_data),
        account(addr(31), addr(0), false, vec![]),
        account(addr(32), addr(0), false, vec![]),
        account(addr(33), addr(0), false, vec![]),
        account(token_state_key, *program, false, token_state.pack()),
    ]
}

#[test]
fn list_token_success() {
    let program = addr(100);
    let seller = addr(5);
    let mint = addr(20);
    let blank = ListerState {
        is_initialized: false,
        seller_pubkey: addr(0),
        token_mint: addr(0),
        token_account_pubkey: addr(0),
        token_amount: 0,
        expected_amount_per_token: 0,
    };
    let accounts =
        list_accounts(&program, seller, mint, addr(40), program, blank.pack(), true, 7);
    let e = Processor::process_init_escrow(&accounts, (100, 10), &program).unwrap();
    assert!(!e.create_record_account);
    assert_eq!(e.escrow_deposit, 100 * 100);
    assert!(e.lister.is_initialized);
    assert_eq!(e.lister.seller_pubkey, seller);
    assert_eq!(e.lister.token_mint, mint);
    assert_eq!(e.lister.token_account_pubkey, addr(31));
    assert_eq!(e.lister.token_amount, 100);
    assert_eq!(e.lister.expected_amount_per_token, 10);
    assert_eq!(e.token_state.total_no_of_tokens_listed, 107);
}

#[test]
fn list_token_allocates_missing_record_account() {
    let program = addr(100);
    let accounts = list_accounts(&program, addr(5), addr(20), addr(40), addr(0), vec![], true, 0);
    let e = Processor::process_init_escrow(&accounts, (3, 4), &program).unwrap();
    assert!(e.create_record_account);
    assert_eq!(e.lister.token_amount, 3);
    assert_eq!(e.token_state.total_no_of_tokens_listed, 3);
}

#[test]
fn list_token_active_listing_not_overwritten() {
    let program = addr(100);
    let seller = addr(5);
    let active = ListerState {
        is_initialized: true,
        seller_pubkey: seller,
        token_mint: addr(20),
        token_account_pubkey: addr(31),
        token_amount: 50,
        expected_amount_per_token: 10,
    };
    let accounts =
        list_accounts(&program, seller, addr(20), addr(40), program, active.pack(), true, 50);
    let r = Processor::process_init_escrow(&accounts, (100, 10), &program);
    assert_eq!(r.unwrap_err(), EscrowError::AccountAlreadyInitialized);
}

#[test]
fn list_token_unsigned_rejected() {
    let program = addr(100);
    let accounts = list_accounts(&program, addr(5), addr(20), addr(40), addr(0), vec![], false, 0);
    let r = Processor::process_init_escrow(&accounts, (100, 10), &program);
    assert_eq!(r.unwrap_err(), EscrowError::MissingRequiredSignature);
}

fn exchange_accounts(
    program: &Address,
    fee_percent: u64,
    listed: u64,
    unit_price: u64,
    lister_initialized: bool,
    aggregate: u64,
) -> Vec<Account> {
    let taker = addr(2);
    let seller = addr(5);
    let mint = addr(20);
    let treasury = addr(9);
    let token_state_key = addr(40);
    let (pda, _) = derived(&[&seller, &mint, &token_state_key], program);
    let platform = PlatformState {
        is_initialized: true,
        treasury_account: treasury,
        platform_fee_percent: fee_percent,
    };
    let lister = ListerState {
        is_initialized: lister_initialized,
        seller_pubkey: seller,
        token_mint: mint,
        token_account_pubkey: addr(31),
        token_amount: listed,
        expected_amount_per_token: unit_price,
    };
    let token_state = TokenState {
        is_initialized: true,
        owner_pubkey: addr(1),
        token_mint: mint,
        total_no_of_tokens_listed: aggregate,
    };
    vec![
        account(taker, addr(0), true, vec![]),
        account(addr(10), *program, false, platform.pack()),
        account(pda, *program, false, lister.pack()),
        account(addr(31), addr(0), false, vec![]),
        account(addr(32), addr(0), false, vec![]),
        account(seller, addr(0), false, vec![]),
        account(mint, addr(0), false, vec![]),
        account(token_state_key, *program, false, token_state.pack()),
        account(addr(33), addr(0), false, vec![]),
        account(addr(34), addr(0), false, vec![]),
        account(treasury, addr(0), false, vec![]),
    ]
}

#[test]
fn exchange_partial_purchase_settles_exactly() {
    let program = addr(100);
    let accounts = exchange_accounts(&program, 5, 100, 10, true, 100);
    let e = Processor::process_exchange(&accounts, 40, &program).unwrap();
    assert_eq!(e.seller_proceeds, 380);
    assert_eq!(e.platform_fee, 20);
    assert_eq!(e.seller_proceeds + e.platform_fee, 400);
    assert_eq!(e.token_payout, 40 * 100);
    assert!(e.lister.is_initialized);
    assert_eq!(e.lister.token_amount, 60);
    assert_eq!(e.token_state.total_no_of_tokens_listed, 60);
}

#[test]
fn exchange_full_purchase_retires_listing() {
    let program = addr(100);
    let accounts = exchange_accounts(&program, 5, 100, 10, true, 100);
    let e = Processor::process_exchange(&accounts, 100, &program).unwrap();
    assert!(!e.lister.is_initialized);
    assert_eq!(e.lister.token_amount, 0);
    assert_eq!(e.token_state.total_no_of_tokens_listed, 0);
}

#[test]
fn exchange_fee_rounds_down_to_seller_benefit() {
    let program = addr(100);
    let accounts = exchange_accounts(&program, 3, 100, 7, true, 100);
    let e = Processor::process_exchange(&accounts, 3, &program).unwrap();
    assert_eq!(e.platform_fee, 21 * 3 / 100);
    assert_eq!(e.platform_fee, 0);
    assert_eq!(e.seller_proceeds, 21);
}

#[test]
fn exchange_uninitialized_listing_rejected() {
    let program = addr(100);
    let accounts = exchange_accounts(&program, 5, 100, 10, false, 100);
    let r = Processor::process_exchange(&accounts, 40, &program);
    assert_eq!(r.unwrap_err(), EscrowError::UninitializedAccount);
}

#[test]
fn exchange_wrong_custody_address_rejected() {
    let program = addr(100);
    let mut accounts = exchange_accounts(&program, 5, 100, 10, true, 100);
    let lister_data = accounts[2].data.clone();
    accounts[2] = account(addr(66), program, false, lister_data);
    let r = Processor::process_exchange(&accounts, 40, &program);
    assert_eq!(r.unwrap_err(), EscrowError::InvalidAccountData);
}

#[test]
fn exchange_wrong_treasury_rejected() {
    let program = addr(100);
    let mut accounts = exchange_accounts(&program, 5, 100, 10, true, 100);
    accounts[10] = account(addr(77), addr(0), false, vec![]);
    let r = Processor::process_exchange(&accounts, 40, &program);
    assert_eq!(r.unwrap_err(), EscrowError::InvalidAccountData);
}

#[test]
fn exchange_wrong_seller_rejected() {
    let program = addr(100);
    let mint = addr(20);
    let token_state_key = addr(40);
    let imposter = addr(55);
    let mut accounts = exchange_accounts(&program, 5, 100, 10, true, 100);
    let (pda, _) = derived(&[&imposter, &mint, &token_state_key], &program);
    let lister_data = accounts[2].data.clone();
    accounts[2] = account(pda, program, false, lister_data);
    accounts[5] = account(imposter, addr(0), false, vec![]);
    let r = Processor::process_exchange(&accounts, 40, &program);
    assert_eq!(r.unwrap_err(), EscrowError::InvalidAccountData);
}

#[test]
fn exchange_missing_accounts_rejected() {
    let program = addr(100);
    let accounts: Vec<Account> = Vec::new();
    let r = Processor::process_exchange(&accounts, 40, &program);
    assert_eq!(r.unwrap_err(), EscrowError::NotEnoughAccountKeys);
}

#[test]
fn exchange_unsigned_taker_rejected() {
    let program = addr(100);
    let mut accounts = exchange_accounts(&program, 5, 100, 10, true, 100);
    accounts[0].is_signer = false;
    let r = Processor::process_exchange(&accounts, 40, &program);
    assert_eq!(r.unwrap_err(), EscrowError::MissingRequiredSignature);
}

fn cancel_accounts(
    program: &Address,
    lister: &ListerState,
    token_state: &TokenState,
    user: Address,
    token_state_key: Address,
) -> Vec<Account> {
    let mint = lister.token_mint;
    let (pda, _) = derived(&[&user, &mint, &token_state_key], program);
    vec![
        account(user, addr(0), true, vec![]),
        account(mint, addr(0), false, vec![]),
        account(addr(30), addr(0), false, vec![]),
        account(lister.token_account_pubkey, addr(0), false, vec![]),
        account(pda, *program, false, lister.pack()),
        account(token_state_key, *program, false, token_state.pack()),
        account(addr(33), addr(0), false, vec![]),
    ]
}

#[test]
fn list_then_cancel_restores_balance() {
    let program = addr(100);
    let seller = addr(5);
    let mint = addr(20);
    let token_state_key = addr(40);
    let blank = ListerState {
        is_initialized: false,
        seller_pubkey: addr(0),
        token_mint: addr(0),
        token_account_pubkey: addr(0),
        token_amount: 0,
        expected_amount_per_token: 0,
    };
    let accounts =
        list_accounts(&program, seller, mint, token_state_key, program, blank.pack(), true, 0);
    let listed = Processor::process_init_escrow(&accounts, (100, 10), &program).unwrap();

    let cancel =
        cancel_accounts(&program, &listed.lister, &listed.token_state, seller, token_state_key);
    let e = Processor::process_cancel(&cancel, &program).unwrap();
    assert_eq!(e.refund, listed.escrow_deposit);
    assert!(!e.lister.is_initialized);
    assert_eq!(e.lister.token_amount, 100);
    assert_eq!(e.token_state.total_no_of_tokens_listed, 0);
}

#[test]
fn cancel_wrong_seller_rejected() {
    let program = addr(100);
    let seller = addr(5);
    let imposter = addr(55);
    let lister = ListerState {
        is_initialized: true,
        seller_pubkey: seller,
        token_mint: addr(20),
        token_account_pubkey: addr(31),
        token_amount: 100,
        expected_amount_per_token: 10,
    };
    let token_state = TokenState {
        is_initialized: true,
        owner_pubkey: addr(1),
        token_mint: addr(20),
        total_no_of_tokens_listed: 100,
    };
    let accounts = cancel_accounts(&program, &lister, &token_state, imposter, addr(40));
    let r = Processor::process_cancel(&accounts, &program);
    assert_eq!(r.unwrap_err(), EscrowError::InvalidAccountData);
}

#[test]
fn cancel_wrong_custody_token_account_rejected() {
    let program = addr(100);
    let seller = addr(5);
    let lister = ListerState {
        is_initialized: true,
        seller_pubkey: seller,
        token_mint: addr(20),
        token_account_pubkey: addr(31),
        token_amount: 100,
        expected_amount_per_token: 10,
    };
    let token_state = TokenState {
        is_initialized: true,
        owner_pubkey: addr(1),
        token_mint: addr(20),
        total_no_of_tokens_listed: 100,
    };
    let mut accounts = cancel_accounts(&program, &lister, &token_state, seller, addr(40));
    accounts[3] = account(addr(77), addr(0), false, vec![]);
    let r = Processor::process_cancel(&accounts, &program);
    assert_eq!(r.unwrap_err(), EscrowError::InvalidAccountData);
}

#[test]
fn process_dispatches_exchange() {
    let program = addr(100);
    let admin = addr(1);
    let accounts = exchange_accounts(&program, 5, 100, 10, true, 100);
    let mut payload = vec![3u8];
    payload.extend_from_slice(&40u64.to_le_bytes());
    let effect = Processor::process(&program, &accounts, &payload, &admin).unwrap();
    match effect {
        Effect::Exchange(e) => {
            assert_eq!(e.seller_proceeds, 380);
            assert_eq!(e.platform_fee, 20);
            assert_eq!(e.lister.token_amount, 60);
        }
        _ => panic!("wrong effect variant"),
    }
}

#[test]
fn process_rejects_unknown_tag() {
    let program = addr(100);
    let admin = addr(1);
    let accounts: Vec<Account> = Vec::new();
    let r = Processor::process(&program, &accounts, &[5u8], &admin);
    assert_eq!(r.unwrap_err(), EscrowError::InvalidInstructionData);
}

#[test]
fn stale_record_reuse_after_cancel() {
    let program = addr(100);
    let seller = addr(5);
    let mint = addr(20);
    let token_state_key = addr(40);
    let lister = ListerState {
        is_initialized: true,
        seller_pubkey: seller,
        token_mint: mint,
        token_account_pubkey: addr(31),
        token_amount: 4,
        expected_amount_per_token: 9,
    };
    let token_state = TokenState {
        is_initialized: true,
        owner_pubkey: addr(1),
        token_mint: mint,
        total_no_of_tokens_listed: 4,
    };
    let cancel = cancel_accounts(&program, &lister, &token_state, seller, token_state_key);
    let e = Processor::process_cancel(&cancel, &program).unwrap();
    let accounts = list_accounts(
        &program,
        seller,
        mint,
        token_state_key,
        program,
        e.lister.pack(),
        true,
        e.token_state.total_no_of_tokens_listed,
    );
    let relisted = Processor::process_init_escrow(&accounts, (8, 2), &program).unwrap();
    assert!(relisted.lister.is_initialized);
    assert_eq!(relisted.lister.token_amount, 8);
    assert_eq!(relisted.token_state.total_no_of_tokens_listed, 8);
}

#[test]
fn listing_record_length_constant() {
    assert_eq!(LISTER_STATE_LEN, 113);
}
