use vstd::prelude::*;

use crate::account::Account;
use crate::config::spec_parse_config;
use crate::config::spec_serialize_config;
use crate::config::ConfigView;
use crate::config::TokenConfig;
use crate::config::CONFIG_LEN;
use crate::errors::TokenError;
use crate::identity::Identity;
use crate::ledger::read_mint_supply;
use crate::ledger::spec_mint_readable;
use crate::ledger::spec_mint_supply;
use crate::ledger::LedgerCall;
use crate::ledger::LedgerCallView;
use crate::request::decode_request;
use crate::request::spec_decode_request;
use crate::request::Operation;
use crate::request::OperationView;

verus! {

/// The outcome of one successfully processed request: either the new
/// contents of the configuration record (Initialize), or a call delegated
/// to the external ledger (Transfer, Mint, Burn). Requests are atomic:
/// a failure produces neither.
#[derive(Clone, Debug)]
pub enum Effect {
    WriteConfig { data: Vec<u8> },
    Invoke { call: LedgerCall },
}

/// The mathematical content of a request's outcome.
#[verifier::ext_equal]
pub enum EffectView {
    WriteConfig { data: Seq<u8> },
    Invoke { call: LedgerCallView },
}

impl View for Effect {
    type V = EffectView;

    open spec fn view(&self) -> EffectView {
        match self {
            Effect::WriteConfig { data } => EffectView::WriteConfig { data: data@ },
            Effect::Invoke { call } => EffectView::Invoke { call: call@ },
        }
    }
}

/// Fails unless the holder of this account co-signed the request. The host
/// runtime verifies signatures and attaches the flag before this code runs.
pub fn require_signed(account: &Account) -> (r: Result<(), TokenError>)
    ensures
        r == (if account.is_signer {
            Ok::<(), TokenError>(())
        } else {
            Err::<(), TokenError>(TokenError::MissingSignature)
        }),
{
    if account.is_signer {
        Ok(())
    } else {
        Err(TokenError::MissingSignature)
    }
}

/// Fails unless this authority is the configured admin identity.
pub fn require_admin(authority: &Identity, config: &TokenConfig) -> (r: Result<(), TokenError>)
    ensures
        r == (if authority@ == config.admin_pubkey@ {
            Ok::<(), TokenError>(())
        } else {
            Err::<(), TokenError>(TokenError::UnauthorizedMint)
        }),
{
    if authority == &config.admin_pubkey {
        Ok(())
    } else {
        Err(TokenError::UnauthorizedMint)
    }
}

/// What Initialize does to a record: with enough storage and a readable,
/// not yet initialized record, the record's new bytes; otherwise the
/// failure, and the record is left alone.
pub open spec fn spec_initialize(config_data: Seq<u8>, admin: Seq<u8>, max_supply: u64) -> Result<
    Seq<u8>,
    TokenError,
> {
    if config_data.len() < CONFIG_LEN {
        Err(TokenError::InvalidStorage)
    } else {
        match spec_parse_config(config_data) {
            None => Err(TokenError::InvalidConfigData),
            Some(c) => if c.initialized {
                Err(TokenError::AlreadyInitialized)
            } else {
                Ok(spec_serialize_config(ConfigView { max_supply, initialized: true, admin }))
            },
        }
    }
}

/// What Transfer does: a nonzero amount and a signing authority yield the
/// delegated transfer call; the ledger itself judges balances.
pub open spec fn spec_transfer(
    source: Account,
    destination: Account,
    authority: Account,
    token_program: Account,
    amount: u64,
) -> Result<LedgerCallView, TokenError> {
    if amount == 0 {
        Err(TokenError::InvalidAmount)
    } else if !authority.is_signer {
        Err(TokenError::MissingSignature)
    } else {
        Ok(
            LedgerCallView::Transfer {
                token_program: token_program.key@,
                source: source.key@,
                destination: destination.key@,
                authority: authority.key@,
                amount,
            },
        )
    }
}

/// What Mint does: the signing authority must be the configured admin, the
/// ledger's mint-state record must be readable, and the new outstanding
/// supply must stay within the configured cap — a sum past the 64-bit range
/// counts as over the cap and never wraps. Only then is the mint delegated.
pub open spec fn spec_mint(
    mint_state: Account,
    destination: Account,
    mint_authority: Account,
    token_program: Account,
    config_account: Account,
    amount: u64,
) -> Result<LedgerCallView, TokenError> {
    if !mint_authority.is_signer {
        Err(TokenError::MissingSignature)
    } else {
        match spec_parse_config(config_account.data@) {
            None => Err(TokenError::InvalidConfigData),
            Some(config) => if mint_authority.key@ != config.admin {
                Err(TokenError::UnauthorizedMint)
            } else if !spec_mint_readable(mint_state.data@) {
                Err(TokenError::InvalidMintState)
            } else if spec_mint_supply(mint_state.data@) + amount > config.max_supply {
                Err(TokenError::MaxSupplyExceeded)
            } else {
                Ok(
                    LedgerCallView::Mint {
                        token_program: token_program.key@,
                        mint_state: mint_state.key@,
                        destination: destination.key@,
                        authority: mint_authority.key@,
                        amount,
                    },
                )
            },
        }
    }
}

/// What Burn does: a signing authority yields the delegated burn call.
/// Burning only lowers supply, so the cap is not consulted.
pub open spec fn spec_burn(
    source: Account,
    mint_state: Account,
    burn_authority: Account,
    token_program: Account,
    amount: u64,
) -> Result<LedgerCallView, TokenError> {
    if !burn_authority.is_signer {
        Err(TokenError::MissingSignature)
    } else {
        Ok(
            LedgerCallView::Burn {
                token_program: token_program.key@,
                source: source.key@,
                mint_state: mint_state.key@,
                authority: burn_authority.key@,
                amount,
            },
        )
    }
}

/// What one external request does, end to end: decode the buffer, then run
/// the selected operation against the positionally referenced accounts —
/// Transfer: source, destination, authority, ledger program; Mint: mint
/// state, destination, mint authority, ledger program, configuration
/// record; Burn: source, mint state, burn authority, ledger program;
/// Initialize: configuration record.
pub open spec fn spec_dispatch(accounts: Seq<Account>, data: Seq<u8>) -> Result<
    EffectView,
    TokenError,
> {
    match spec_decode_request(data) {
        Err(e) => Err(e),
        Ok(op) => match op {
            OperationView::Transfer { amount } => if accounts.len() < 4 {
                Err(TokenError::MissingAccount)
            } else {
                match spec_transfer(accounts[0], accounts[1], accounts[2], accounts[3], amount) {
                    Ok(call) => Ok(EffectView::Invoke { call }),
                    Err(e) => Err(e),
                }
            },
            OperationView::Mint { amount } => if accounts.len() < 5 {
                Err(TokenError::MissingAccount)
            } else {
                match spec_mint(
                    accounts[0],
                    accounts[1],
                    accounts[2],
                    accounts[3],
                    accounts[4],
                    amount,
                ) {
                    Ok(call) => Ok(EffectView::Invoke { call }),
                    Err(e) => Err(e),
                }
            },
            OperationView::Burn { amount } => if accounts.len() < 4 {
                Err(TokenError::MissingAccount)
            } else {
                match spec_burn(accounts[0], accounts[1], accounts[2], accounts[3], amount) {
                    Ok(call) => Ok(EffectView::Invoke { call }),
                    Err(e) => Err(e),
                }
            },
            OperationView::Initialize { admin, max_supply } => if accounts.len() < 1 {
                Err(TokenError::MissingAccount)
            } else {
                match spec_initialize(accounts[0].data@, admin, max_supply) {
                    Ok(bytes) => Ok(EffectView::WriteConfig { data: bytes }),
                    Err(e) => Err(e),
                }
            },
        },
    }
}

/// Creates the configuration record: writes the admin identity and the
/// supply cap and sets the initialized flag — once per record, ever.
/// Returns the record's new bytes; the caller persists them whole.
pub fn process_initialize(config_account: &Account, admin: &Identity, max_supply: u64) -> (r:
    Result<Vec<u8>, TokenError>)
    ensures
        (match r {
            Ok(out) => spec_initialize(config_account.data@, admin@, max_supply) == Ok::<
                Seq<u8>,
                TokenError,
            >(out@),
            Err(e) => spec_initialize(config_account.data@, admin@, max_supply) == Err::<
                Seq<u8>,
                TokenError,
            >(e),
        }),
{
    if config_account.data.len() < CONFIG_LEN {
        return Err(TokenError::InvalidStorage);
    }
    let config = match TokenConfig::deserialize(&config_account.data) {
        Ok(c) => c,
        Err(e) => return Err(e),
    };
    if config.initialized {
        return Err(TokenError::AlreadyInitialized);
    }
    let new_config = TokenConfig { max_supply, initialized: true, admin_pubkey: *admin };
    Ok(new_config.serialize())
}

/// Validates a transfer request and produces the delegated transfer call.
/// Moves no value itself; the ledger judges balances and ownership.
pub fn process_transfer(
    source: &Account,
    destination: &Account,
    authority: &Account,
    token_program: &Account,
    amount: u64,
) -> (r: Result<LedgerCall, TokenError>)
    ensures
        (match r {
            Ok(call) => spec_transfer(*source, *destination, *authority, *token_program, amount)
                == Ok::<LedgerCallView, TokenError>(call@),
            Err(e) => spec_transfer(*source, *destination, *authority, *token_program, amount)
                == Err::<LedgerCallView, TokenError>(e),
        }),
{
    if amount == 0 {
        return Err(TokenError::InvalidAmount);
    }
    match require_signed(authority) {
        Ok(_) => {},
        Err(e) => return Err(e),
    }
    Ok(
        LedgerCall::Transfer {
            token_program: token_program.key,
            source: source.key,
            destination: destination.key,
            authority: authority.key,
            amount,
        },
    )
}

/// Validates a mint request — signature, admin authority, readable mint
/// state, and the supply cap, in that order — and produces the delegated
/// mint call. The sum of outstanding supply and amount is checked without
/// wrapping; an overflowing sum is over the cap.
pub fn process_mint(
    mint_state: &Account,
    destination: &Account,
    mint_authority: &Account,
    token_program: &Account,
    config_account: &Account,
    amount: u64,
) -> (r: Result<LedgerCall, TokenError>)
    ensures
        (match r {
            Ok(call) => spec_mint(
                *mint_state,
                *destination,
                *mint_authority,
                *token_program,
                *config_account,
                amount,
            ) == Ok::<LedgerCallView, TokenError>(call@),
            Err(e) => spec_mint(
                *mint_state,
                *destination,
                *mint_authority,
                *token_program,
                *config_account,
                amount,
            ) == Err::<LedgerCallView, TokenError>(e),
        }),
{
    match require_signed(mint_authority) {
        Ok(_) => {},
        Err(e) => return Err(e),
    }
    let config = match TokenConfig::deserialize(&config_account.data) {
        Ok(c) => c,
        Err(e) => return Err(e),
    };
    match require_admin(&mint_authority.key, &config) {
        Ok(_) => {},
        Err(e) => return Err(e),
    }
    let current_supply = match read_mint_supply(&mint_state.data) {
        Ok(s) => s,
        Err(e) => return Err(e),
    };
    let new_supply = match current_supply.checked_add(amount) {
        Some(s) => s,
        None => return Err(TokenError::MaxSupplyExceeded),
    };
    if new_supply > config.max_supply {
        return Err(TokenError::MaxSupplyExceeded);
    }
    Ok(
        LedgerCall::Mint {
            token_program: token_program.key,
            mint_state: mint_state.key,
            destination: destination.key,
            authority: mint_authority.key,
            amount,
        },
    )
}

/// Validates a burn request and produces the delegated burn call. Burning
/// cannot raise supply, so the cap is not consulted.
pub fn process_burn(
    source: &Account,
    mint_state: &Account,
    burn_authority: &Account,
    token_program: &Account,
    amount: u64,
) -> (r: Result<LedgerCall, TokenError>)
    ensures
        (match r {
            Ok(call) => spec_burn(*source, *mint_state, *burn_authority, *token_program, amount)
                == Ok::<LedgerCallView, TokenError>(call@),
            Err(e) => spec_burn(*source, *mint_state, *burn_authority, *token_program, amount)
                == Err::<LedgerCallView, TokenError>(e),
        }),
{
    match require_signed(burn_authority) {
        Ok(_) => {},
        Err(e) => return Err(e),
    }
    Ok(
        LedgerCall::Burn {
            token_program: token_program.key,
            source: source.key,
            mint_state: mint_state.key,
            authority: burn_authority.key,
            amount,
        },
    )
}

/// The single dispatch entrypoint: one call per external request. Decodes
/// the buffer, runs the selected handler against the referenced accounts,
/// and returns either the effect for the surrounding program to apply —
/// atomically, or not at all — or the failure that aborted the request.
pub fn process_instruction(
    _program_id: &Identity,
    accounts: &Vec<Account>,
    instruction_data: &Vec<u8>,
) -> (r: Result<Effect, TokenError>)
    ensures
        (match r {
            Ok(effect) => spec_dispatch(accounts@, instruction_data@) == Ok::<
                EffectView,
                TokenError,
            >(effect@),
            Err(e) => spec_dispatch(accounts@, instruction_data@) == Err::<EffectView, TokenError>(
                e,
            ),
        }),
{
    let op = match decode_request(instruction_data) {
        Ok(op) => op,
        Err(e) => return Err(e),
    };
    match op {
        Operation::Transfer { amount } => {
            if accounts.len() < 4 {
                return Err(TokenError::MissingAccount);
            }
            match process_transfer(&accounts[0], &accounts[1], &accounts[2], &accounts[3], amount) {
                Ok(call) => Ok(Effect::Invoke { call }),
                Err(e) => Err(e),
            }
        },
        Operation::Mint { amount } => {
            if accounts.len() < 5 {
                return Err(TokenError::MissingAccount);
            }
            match process_mint(
                &accounts[0],
                &accounts[1],
                &accounts[2],
                &accounts[3],
                &accounts[4],
                amount,
            ) {
                Ok(call) => Ok(Effect::Invoke { call }),
                Err(e) => Err(e),
            }
        },
        Operation::Burn { amount } => {
            if accounts.len() < 4 {
                return Err(TokenError::MissingAccount);
            }
            match process_burn(&accounts[0], &accounts[1], &accounts[2], &accounts[3], amount) {
                Ok(call) => Ok(Effect::Invoke { call }),
                Err(e) => Err(e),
            }
        },
        Operation::Initialize { admin, max_supply } => {
            if accounts.len() < 1 {
                return Err(TokenError::MissingAccount);
            }
            match process_initialize(&accounts[0], &admin, max_supply) {
                Ok(bytes) => Ok(Effect::WriteConfig { data: bytes }),
                Err(e) => Err(e),
            }
        },
    }
}

/// Any request buffer shorter than one byte is rejected as an invalid
/// request, whatever the referenced accounts hold.
pub proof fn lemma_empty_request_rejected(accounts: Seq<Account>, data: Seq<u8>)
    requires
        data.len() < 1,
    ensures
        spec_dispatch(accounts, data) == Err::<EffectView, TokenError>(TokenError::InvalidRequest),
{
}

/// Any request whose opcode is outside the four known operations is
/// rejected as an invalid request, whatever the referenced accounts hold.
pub proof fn lemma_unknown_opcode_rejected(accounts: Seq<Account>, data: Seq<u8>)
    requires
        data.len() >= 1,
        data[0] != 0,
        data[0] != 1,
        data[0] != 2,
        data[0] != 3,
    ensures
        spec_dispatch(accounts, data) == Err::<EffectView, TokenError>(TokenError::InvalidRequest),
{
}

/// A record can be initialized only once: the bytes written by a successful
/// Initialize fail any further Initialize with AlreadyInitialized, and they
/// still carry the first call's admin identity and supply cap.
pub proof fn lemma_no_reinitialization(
    config_data: Seq<u8>,
    admin: Seq<u8>,
    max_supply: u64,
    admin2: Seq<u8>,
    max_supply2: u64,
)
    requires
        admin.len() == 32,
        spec_initialize(config_data, admin, max_supply) is Ok,
    ensures
        ({
            let written = spec_initialize(config_data, admin, max_supply)->Ok_0;
            &&& spec_initialize(written, admin2, max_supply2) == Err::<Seq<u8>, TokenError>(
                TokenError::AlreadyInitialized,
            )
            &&& spec_parse_config(written) == Some(
                ConfigView { max_supply, initialized: true, admin },
            )
        }),
{
    crate::config::lemma_config_round_trip(ConfigView { max_supply, initialized: true, admin });
}

/// An unauthorized mint never reaches the ledger: whenever the signing mint
/// authority differs from the configured admin identity, Mint fails with
/// UnauthorizedMint and no ledger call is produced, whatever the supply
/// state.
pub proof fn lemma_unauthorized_mint_rejected(
    mint_state: Account,
    destination: Account,
    mint_authority: Account,
    token_program: Account,
    config_account: Account,
    amount: u64,
)
    requires
        mint_authority.is_signer,
        spec_parse_config(config_account.data@) is Some,
        mint_authority.key@ != spec_parse_config(config_account.data@)->Some_0.admin,
    ensures
        spec_mint(mint_state, destination, mint_authority, token_program, config_account, amount)
            == Err::<LedgerCallView, TokenError>(TokenError::UnauthorizedMint),
{
}

/// The supply cap is enforced exactly: an authorized mint against a
/// readable mint state fails with MaxSupplyExceeded precisely when the new
/// outstanding supply would pass the cap — a sum at the cap still succeeds.
pub proof fn lemma_supply_cap_enforced(
    mint_state: Account,
    destination: Account,
    mint_authority: Account,
    token_program: Account,
    config_account: Account,
    amount: u64,
)
    requires
        mint_authority.is_signer,
        spec_parse_config(config_account.data@) is Some,
        mint_authority.key@ == spec_parse_config(config_account.data@)->Some_0.admin,
        spec_mint_readable(mint_state.data@),
    ensures
        ({
            let config = spec_parse_config(config_account.data@)->Some_0;
            let supply = spec_mint_supply(mint_state.data@);
            let r = spec_mint(
                mint_state,
                destination,
                mint_authority,
                token_program,
                config_account,
                amount,
            );
            &&& (supply + amount > config.max_supply <==> r == Err::<
                LedgerCallView,
                TokenError,
            >(TokenError::MaxSupplyExceeded))
            &&& (supply + amount <= config.max_supply ==> r == Ok::<LedgerCallView, TokenError>(
                LedgerCallView::Mint {
                    token_program: token_program.key@,
                    mint_state: mint_state.key@,
                    destination: destination.key@,
                    authority: mint_authority.key@,
                    amount,
                },
            ))
        }),
{
}

/// A mint whose sum of outstanding supply and amount would overflow the
/// 64-bit range never wraps: it is over any expressible cap and fails with
/// MaxSupplyExceeded.
pub proof fn lemma_overflowing_mint_rejected(
    mint_state: Account,
    destination: Account,
    mint_authority: Account,
    token_program: Account,
    config_account: Account,
    amount: u64,
)
    requires
        mint_authority.is_signer,
        spec_parse_config(config_account.data@) is Some,
        mint_authority.key@ == spec_parse_config(config_account.data@)->Some_0.admin,
        spec_mint_readable(mint_state.data@),
        spec_mint_supply(mint_state.data@) + amount > u64::MAX,
    ensures
        spec_mint(mint_state, destination, mint_authority, token_program, config_account, amount)
            == Err::<LedgerCallView, TokenError>(TokenError::MaxSupplyExceeded),
{
}

/// Transfer's two local guards: a zero amount is rejected as an invalid
/// amount, and a nonzero amount whose authority did not sign stops with
/// MissingSignature — in both cases before any ledger call is produced.
pub proof fn lemma_transfer_guards(
    source: Account,
    destination: Account,
    authority: Account,
    token_program: Account,
    amount: u64,
)
    ensures
        amount == 0 ==> spec_transfer(source, destination, authority, token_program, amount)
            == Err::<LedgerCallView, TokenError>(TokenError::InvalidAmount),
        amount > 0 && !authority.is_signer ==> spec_transfer(
            source,
            destination,
            authority,
            token_program,
            amount,
        ) == Err::<LedgerCallView, TokenError>(TokenError::MissingSignature),
{
}

} // verus!

