use capped_token::account::Account;
use capped_token::errors::TokenError;
use capped_token::identity::Identity;
use capped_token::ledger::LedgerCall;
use capped_token::processor::process_instruction;
use capped_token::processor::Effect;

fn id(b: u8) -> Identity {
    Identity { bytes: [b; 32] }
}

fn acct(key: u8, signer: bool, data: Vec<u8>) -> Account {
    Account { key: id(key), is_signer: signer, data }
}

fn mint_state_bytes(supply: u64) -> Vec<u8> {
    let mut v = vec![0u8; 82];
    v[36..44].copy_from_slice(&supply.to_le_bytes());
    v[45] = 1;
    v
}

fn init_request(admin: u8, max_supply: u64) -> Vec<u8> {
    let mut v = vec![3u8];
    v.extend_from_slice(&[admin; 32]);
    v.extend_from_slice(&max_supply.to_le_bytes());
    v
}

fn amount_request(op: u8, amount: u64) -> Vec<u8> {
    let mut v = vec![op];
    v.extend_from_slice(&amount.to_le_bytes());
    v
}

fn fresh_config() -> Account {
    acct(5, false, vec![0u8; 41])
}

fn transfer_accounts(authority_signs: bool) -> Vec<Account> {
    vec![
        acct(1, false, vec![]),
        acct(2, false, vec![]),
        acct(3, authority_signs, vec![]),
        acct(4, false, vec![]),
    ]
}

fn mint_accounts(authority: u8, signs: bool, supply: u64, config_data: Vec<u8>) -> Vec<Account> {
    vec![
        acct(1, false, mint_state_bytes(supply)),
        acct(2, false, vec![]),
        acct(authority, signs, vec![]),
        acct(4, false, vec![]),
        acct(5, false, config_data),
    ]
}

fn initialized_config(admin: u8, max_supply: u64) -> Vec<u8> {
    let accounts = vec![fresh_config()];
    match process_instruction(&id(0), &accounts, &init_request(admin, max_supply)) {
        Ok(Effect::WriteConfig { data }) => data,
        other => panic!("initialize did not write a record: {:?}", other),
    }
}

#[test]
fn empty_request_fails_invalid_request() {
    let r = process_instruction(&id(0), &vec![], &vec![]);
    assert!(matches!(r, Err(TokenError::InvalidRequest)));
}

#[test]
fn unknown_opcode_fails_invalid_request() {
    for opcode in [4u8, 7, 255] {
        let r = process_instruction(&id(0), &transfer_accounts(true), &amount_request(opcode, 1));
        assert!(matches!(r, Err(TokenError::InvalidRequest)));
    }
}

#[test]
fn initialize_writes_admin_and_cap() {
    let data = initialized_config(7, 1000);
    assert_eq!(data.len(), 41);
    assert_eq!(&data[0..8], &1000u64.to_le_bytes());
    assert_eq!(data[8], 1);
    assert_eq!(&data[9..41], &[7u8; 32]);
}

#[test]
fn reinitialize_fails_and_keeps_first_record() {
    let written = initialized_config(7, 1000);
    let accounts = vec![acct(5, false, written.clone())];
    let r = process_instruction(&id(0), &accounts, &init_request(9, 5));
    assert!(matches!(r, Err(TokenError::AlreadyInitialized)));
    // the record still carries the first call's values
    assert_eq!(&written[0..8], &1000u64.to_le_bytes());
    assert_eq!(&written[9..41], &[7u8; 32]);
}

#[test]
fn initialize_short_payload_fails_invalid_request() {
    let mut req = init_request(7, 1000);
    req.truncate(40); // 39-byte payload
    let accounts = vec![fresh_config()];
    let r = process_instruction(&id(0), &accounts, &req);
    assert!(matches!(r, Err(TokenError::InvalidRequest)));
}

#[test]
fn initialize_extra_payload_bytes_are_ignored() {
    let mut req = init_request(7, 1000);
    req.push(99);
    let accounts = vec![fresh_config()];
    let r = process_instruction(&id(0), &accounts, &req);
    assert!(matches!(r, Ok(Effect::WriteConfig { .. })));
}

#[test]
fn initialize_undersized_storage_fails_invalid_storage() {
    let accounts = vec![acct(5, false, vec![0u8; 40])];
    let r = process_instruction(&id(0), &accounts, &init_request(7, 1000));
    assert!(matches!(r, Err(TokenError::InvalidStorage)));
}

#[test]
fn initialize_malformed_record_fails_invalid_config_data() {
    // oversized storage is not a readable record
    let accounts = vec![acct(5, false, vec![0u8; 42])];
    let r = process_instruction(&id(0), &accounts, &init_request(7, 1000));
    assert!(matches!(r, Err(TokenError::InvalidConfigData)));
    // a flag byte that is neither 0 nor 1 is not readable either
    let mut bad = vec![0u8; 41];
    bad[8] = 9;
    let accounts = vec![acct(5, false, bad)];
    let r = process_instruction(&id(0), &accounts, &init_request(7, 1000));
    assert!(matches!(r, Err(TokenError::InvalidConfigData)));
}

#[test]
fn initialize_without_accounts_fails_missing_account() {
    let r = process_instruction(&id(0), &vec![], &init_request(7, 1000));
    assert!(matches!(r, Err(TokenError::MissingAccount)));
}

#[test]
fn transfer_zero_amount_fails_invalid_amount() {
    let r = process_instruction(&id(0), &transfer_accounts(true), &amount_request(0, 0));
    assert!(matches!(r, Err(TokenError::InvalidAmount)));
}

#[test]
fn transfer_wrong_length_amount_fails_invalid_amount() {
    let r = process_instruction(&id(0), &transfer_accounts(true), &vec![0u8, 1, 2, 3]);
    assert!(matches!(r, Err(TokenError::InvalidAmount)));
}

#[test]
fn transfer_unsigned_authority_fails_missing_signature() {
    let r = process_instruction(&id(0), &transfer_accounts(false), &amount_request(0, 5));
    assert!(matches!(r, Err(TokenError::MissingSignature)));
}

#[test]
fn transfer_delegates_to_the_ledger() {
    let r = process_instruction(&id(0), &transfer_accounts(true), &amount_request(0, 5));
    match r {
        Ok(Effect::Invoke {
            call: LedgerCall::Transfer { token_program, source, destination, authority, amount },
        }) => {
            assert_eq!(source, id(1));
            assert_eq!(destination, id(2));
            assert_eq!(authority, id(3));
            assert_eq!(token_program, id(4));
            assert_eq!(amount, 5);
        },
        other => panic!("unexpected outcome: {:?}", other),
    }
}

#[test]
fn mint_unsigned_authority_fails_missing_signature() {
    let config = initialized_config(7, 1000);
    let r = process_instruction(&id(0), &mint_accounts(7, false, 0, config), &amount_request(1, 1));
    assert!(matches!(r, Err(TokenError::MissingSignature)));
}

#[test]
fn mint_by_non_admin_fails_unauthorized_mint() {
    // authority 9 differs from the configured admin 7, whatever the supply
    let config = initialized_config(7, 1000);
    for supply in [0u64, 500, 1000] {
        let accounts = mint_accounts(9, true, supply, config.clone());
        let r = process_instruction(&id(0), &accounts, &amount_request(1, 1));
        assert!(matches!(r, Err(TokenError::UnauthorizedMint)));
    }
}

#[test]
fn mint_with_malformed_config_fails_invalid_config_data() {
    let accounts = mint_accounts(7, true, 0, vec![0u8; 40]);
    let r = process_instruction(&id(0), &accounts, &amount_request(1, 1));
    assert!(matches!(r, Err(TokenError::InvalidConfigData)));
}

#[test]
fn mint_with_unreadable_mint_state_fails() {
    let config = initialized_config(7, 1000);
    // wrong length
    let mut accounts = mint_accounts(7, true, 0, config.clone());
    accounts[0].data = vec![0u8; 81];
    let r = process_instruction(&id(0), &accounts, &amount_request(1, 1));
    assert!(matches!(r, Err(TokenError::InvalidMintState)));
    // initialized flag clear
    let mut accounts = mint_accounts(7, true, 0, config.clone());
    accounts[0].data[45] = 0;
    let r = process_instruction(&id(0), &accounts, &amount_request(1, 1));
    assert!(matches!(r, Err(TokenError::InvalidMintState)));
    // bad optional-authority tag
    let mut accounts = mint_accounts(7, true, 0, config);
    accounts[0].data[0] = 2;
    let r = process_instruction(&id(0), &accounts, &amount_request(1, 1));
    assert!(matches!(r, Err(TokenError::InvalidMintState)));
}

#[test]
fn mint_up_to_the_cap_succeeds() {
    let config = initialized_config(7, 1000);
    let accounts = mint_accounts(7, true, 0, config);
    let r = process_instruction(&id(0), &accounts, &amount_request(1, 1000));
    match r {
        Ok(Effect::Invoke {
            call: LedgerCall::Mint { token_program, mint_state, destination, authority, amount },
        }) => {
            assert_eq!(mint_state, id(1));
            assert_eq!(destination, id(2));
            assert_eq!(authority, id(7));
            assert_eq!(token_program, id(4));
            assert_eq!(amount, 1000);
        },
        other => panic!("unexpected outcome: {:?}", other),
    }
}

#[test]
fn mint_past_the_cap_fails_max_supply_exceeded() {
    let config = initialized_config(7, 1000);
    let accounts = mint_accounts(7, true, 1000, config);
    let r = process_instruction(&id(0), &accounts, &amount_request(1, 1));
    assert!(matches!(r, Err(TokenError::MaxSupplyExceeded)));
}

#[test]
fn mint_with_overflowing_sum_fails_max_supply_exceeded() {
    let config = initialized_config(7, u64::MAX);
    let accounts = mint_accounts(7, true, u64::MAX, config);
    let r = process_instruction(&id(0), &accounts, &amount_request(1, 1));
    assert!(matches!(r, Err(TokenError::MaxSupplyExceeded)));
}

#[test]
fn mint_with_too_few_accounts_fails_missing_account() {
    let config = initialized_config(7, 1000);
    let mut accounts = mint_accounts(7, true, 0, config);
    accounts.pop();
    let r = process_instruction(&id(0), &accounts, &amount_request(1, 1));
    assert!(matches!(r, Err(TokenError::MissingAccount)));
}

#[test]
fn burn_unsigned_authority_fails_missing_signature() {
    let r = process_instruction(&id(0), &transfer_accounts(false), &amount_request(2, 5));
    assert!(matches!(r, Err(TokenError::MissingSignature)));
}

#[test]
fn burn_delegates_to_the_ledger() {
    let r = process_instruction(&id(0), &transfer_accounts(true), &amount_request(2, 5));
    match r {
        Ok(Effect::Invoke {
            call: LedgerCall::Burn { token_program, source, mint_state, authority, amount },
        }) => {
            assert_eq!(source, id(1));
            assert_eq!(mint_state, id(2));
            assert_eq!(authority, id(3));
            assert_eq!(token_program, id(4));
            assert_eq!(amount, 5);
        },
        other => panic!("unexpected outcome: {:?}", other),
    }
}

#[test]
fn scenario_initialize_mint_to_cap_then_one_more() {
    // Initialize(admin 7, cap 1000), then an authorized mint of the whole
    // cap at supply 0 succeeds, and one more unit at supply 1000 fails.
    let config = initialized_config(7, 1000);
    let accounts = mint_accounts(7, true, 0, config.clone());
    let first = process_instruction(&id(0), &accounts, &amount_request(1, 1000));
    assert!(matches!(first, Ok(Effect::Invoke { call: LedgerCall::Mint { .. } })));
    let accounts = mint_accounts(7, true, 1000, config);
    let second = process_instruction(&id(0), &accounts, &amount_request(1, 1));
    assert!(matches!(second, Err(TokenError::MaxSupplyExceeded)));
}
