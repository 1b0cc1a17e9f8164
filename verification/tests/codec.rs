use capped_token::account::Account;
use capped_token::config::TokenConfig;
use capped_token::errors::CustomError;
use capped_token::errors::TokenError;
use capped_token::identity::Identity;
use capped_token::ledger::build_ledger_instruction;
use capped_token::ledger::LedgerCall;
use capped_token::processor::require_admin;
use capped_token::processor::require_signed;
use capped_token::request::decode_amount;
use capped_token::request::decode_request;
use capped_token::request::Operation;

fn id(b: u8) -> Identity {
    Identity { bytes: [b; 32] }
}

#[test]
fn config_round_trip_keeps_every_field() {
    let config = TokenConfig { max_supply: 123456789, initialized: true, admin_pubkey: id(42) };
    let bytes = config.serialize();
    let back = TokenConfig::deserialize(&bytes).expect("a written record is readable");
    assert_eq!(back.max_supply, 123456789);
    assert!(back.initialized);
    assert_eq!(back.admin_pubkey, id(42));
}

#[test]
fn config_serialization_matches_borsh_layout() {
    // the persisted layout is the one borsh gives the same fields
    let config = TokenConfig { max_supply: 7_000_000, initialized: false, admin_pubkey: id(9) };
    let expected = borsh::to_vec(&(7_000_000u64, false, [9u8; 32])).unwrap();
    assert_eq!(config.serialize(), expected);
}

#[test]
fn config_rejects_malformed_bytes() {
    assert!(matches!(
        TokenConfig::deserialize(&vec![0u8; 40]),
        Err(TokenError::InvalidConfigData)
    ));
    assert!(matches!(
        TokenConfig::deserialize(&vec![0u8; 42]),
        Err(TokenError::InvalidConfigData)
    ));
    let mut bad = vec![0u8; 41];
    bad[8] = 2;
    assert!(matches!(TokenConfig::deserialize(&bad), Err(TokenError::InvalidConfigData)));
}

#[test]
fn decode_amount_requires_exactly_eight_bytes() {
    assert!(matches!(decode_amount(&[1, 0, 0, 0, 0, 0, 0]), Err(TokenError::InvalidAmount)));
    assert!(matches!(decode_amount(&[1, 0, 0, 0, 0, 0, 0, 0, 0]), Err(TokenError::InvalidAmount)));
    assert_eq!(decode_amount(&258u64.to_le_bytes()), Ok(258));
}

#[test]
fn decode_request_reads_initialize_operands() {
    let mut req = vec![3u8];
    req.extend_from_slice(&[11u8; 32]);
    req.extend_from_slice(&500u64.to_le_bytes());
    match decode_request(&req) {
        Ok(Operation::Initialize { admin, max_supply }) => {
            assert_eq!(admin, id(11));
            assert_eq!(max_supply, 500);
        },
        other => panic!("unexpected decode: {:?}", other),
    }
}

#[test]
fn decode_request_reads_amount_operations() {
    let mut req = vec![1u8];
    req.extend_from_slice(&77u64.to_le_bytes());
    assert!(matches!(decode_request(&req), Ok(Operation::Mint { amount: 77 })));
    req[0] = 2;
    assert!(matches!(decode_request(&req), Ok(Operation::Burn { amount: 77 })));
    req[0] = 0;
    assert!(matches!(decode_request(&req), Ok(Operation::Transfer { amount: 77 })));
}

#[test]
fn guards_judge_signature_and_admin() {
    let signer = Account { key: id(3), is_signer: true, data: vec![] };
    let bystander = Account { key: id(3), is_signer: false, data: vec![] };
    assert!(require_signed(&signer).is_ok());
    assert!(matches!(require_signed(&bystander), Err(TokenError::MissingSignature)));
    let config = TokenConfig { max_supply: 10, initialized: true, admin_pubkey: id(7) };
    assert!(require_admin(&id(7), &config).is_ok());
    assert!(matches!(require_admin(&id(8), &config), Err(TokenError::UnauthorizedMint)));
}

#[test]
fn custom_error_codes_are_stable() {
    assert_eq!(CustomError::MaxSupplyExceeded.code(), 1);
    assert_eq!(CustomError::UnauthorizedMint.code(), 2);
    assert_eq!(CustomError::InvalidAmount.code(), 3);
    assert_eq!(TokenError::from(CustomError::InvalidAmount), TokenError::InvalidAmount);
}

#[test]
fn ledger_builder_accepts_only_the_token_ledger() {
    let token_program = Identity { bytes: spl_token::id().to_bytes() };
    let call = LedgerCall::Transfer {
        token_program,
        source: id(1),
        destination: id(2),
        authority: id(3),
        amount: 5,
    };
    let built = build_ledger_instruction(&call).expect("the real ledger program is accepted");
    assert_eq!(built.program_id, spl_token::id());
    let bogus = LedgerCall::Transfer {
        token_program: id(4),
        source: id(1),
        destination: id(2),
        authority: id(3),
        amount: 5,
    };
    assert!(matches!(
        build_ledger_instruction(&bogus),
        Err(TokenError::IncorrectLedgerProgram)
    ));
}

#[test]
fn ledger_builder_builds_mint_and_burn() {
    let token_program = Identity { bytes: spl_token::id().to_bytes() };
    let mint = LedgerCall::Mint {
        token_program,
        mint_state: id(1),
        destination: id(2),
        authority: id(3),
        amount: 9,
    };
    let burn = LedgerCall::Burn {
        token_program,
        source: id(1),
        mint_state: id(2),
        authority: id(3),
        amount: 9,
    };
    assert!(build_ledger_instruction(&mint).is_ok());
    assert!(build_ledger_instruction(&burn).is_ok());
}
