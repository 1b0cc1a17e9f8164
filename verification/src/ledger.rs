use vstd::prelude::*;

use vstd::bytes::spec_u64_from_le_bytes;

use solana_program::instruction::Instruction;
use solana_program::program_pack::Pack;
use solana_program::pubkey::Pubkey;

use crate::errors::TokenError;
use crate::identity::Identity;

verus! {

/// The size in bytes of the external ledger's mint-state record.
pub const MINT_STATE_LEN: usize = 82;

/// A delegated call to the external token ledger, by role: the ledger
/// program addressed, the accounts the call touches, and the amount moved.
/// This program never moves value itself; each handler at most produces one
/// of these for the surrounding program to invoke.
#[derive(Clone, Copy, Debug)]
pub enum LedgerCall {
    Transfer {
        token_program: Identity,
        source: Identity,
        destination: Identity,
        authority: Identity,
        amount: u64,
    },
    Mint {
        token_program: Identity,
        mint_state: Identity,
        destination: Identity,
        authority: Identity,
        amount: u64,
    },
    Burn {
        token_program: Identity,
        source: Identity,
        mint_state: Identity,
        authority: Identity,
        amount: u64,
    },
}

/// The mathematical content of a delegated ledger call.
#[verifier::ext_equal]
pub enum LedgerCallView {
    Transfer {
        token_program: Seq<u8>,
        source: Seq<u8>,
        destination: Seq<u8>,
        authority: Seq<u8>,
        amount: u64,
    },
    Mint {
        token_program: Seq<u8>,
        mint_state: Seq<u8>,
        destination: Seq<u8>,
        authority: Seq<u8>,
        amount: u64,
    },
    Burn {
        token_program: Seq<u8>,
        source: Seq<u8>,
        mint_state: Seq<u8>,
        authority: Seq<u8>,
        amount: u64,
    },
}

impl View for LedgerCall {
    type V = LedgerCallView;

    open spec fn view(&self) -> LedgerCallView {
        match *self {
            LedgerCall::Transfer { token_program, source, destination, authority, amount } => (
            LedgerCallView::Transfer {
                token_program: token_program@,
                source: source@,
                destination: destination@,
                authority: authority@,
                amount,
            }),
            LedgerCall::Mint { token_program, mint_state, destination, authority, amount } => (
            LedgerCallView::Mint {
                token_program: token_program@,
                mint_state: mint_state@,
                destination: destination@,
                authority: authority@,
                amount,
            }),
            LedgerCall::Burn { token_program, source, mint_state, authority, amount } => (
            LedgerCallView::Burn {
                token_program: token_program@,
                source: source@,
                mint_state: mint_state@,
                authority: authority@,
                amount,
            }),
        }
    }
}

impl LedgerCall {
    /// The ledger program this call is addressed to.
    pub open spec fn spec_token_program(&self) -> Seq<u8> {
        match *self {
            LedgerCall::Transfer { token_program, .. } => token_program@,
            LedgerCall::Mint { token_program, .. } => token_program@,
            LedgerCall::Burn { token_program, .. } => token_program@,
        }
    }
}

/// One four-byte tag of an optional field inside the mint-state record:
/// a little-endian 0 (absent) or 1 (present).
pub open spec fn spec_option_tag_valid(s: Seq<u8>, i: int) -> bool {
    &&& (s[i] == 0 || s[i] == 1)
    &&& s[i + 1] == 0
    &&& s[i + 2] == 0
    &&& s[i + 3] == 0
}

/// Whether the external ledger can read a byte string as a mint-state
/// record: exactly 82 bytes, well-formed optional-authority tags at offsets
/// 0 and 46, and the initialized flag (byte 45) set.
pub open spec fn spec_mint_readable(s: Seq<u8>) -> bool {
    &&& s.len() == MINT_STATE_LEN
    &&& spec_option_tag_valid(s, 0)
    &&& s[45] == 1
    &&& spec_option_tag_valid(s, 46)
}

/// The outstanding supply a mint-state record carries: bytes 36..44,
/// little-endian.
pub open spec fn spec_mint_supply(s: Seq<u8>) -> u64 {
    spec_u64_from_le_bytes(s.subrange(36, 44))
}

/// Relies on `spl_token::state::Mint::unpack` (via `solana_program`'s
/// `Pack`): it succeeds exactly on an 82-byte record with well-formed
/// optional-authority tags whose initialized flag is set, and then returns
/// the record's supply field, bytes 36..44 read little-endian.
#[verifier::external_body]
pub(crate) fn read_mint_supply(data: &Vec<u8>) -> (r: Result<u64, TokenError>)
    ensures
        (match r {
            Ok(supply) => spec_mint_readable(data@) && supply == spec_mint_supply(data@),
            Err(e) => !spec_mint_readable(data@) && e == TokenError::InvalidMintState,
        }),
{
    match spl_token::state::Mint::unpack(data.as_slice()) {
        Ok(mint) => Ok(mint.supply),
        Err(_) => Err(TokenError::InvalidMintState),
    }
}

/// A fully built instruction of the host runtime. Opaque here: only the
/// external ledger's builders create one, and only the surrounding program
/// invokes it.
#[verifier::external_type_specification]
#[verifier::external_body]
pub struct ExInstruction(Instruction);

/// Whether the external ledger accepts an identity as its own program id:
/// the verdict of `spl_token::check_program_account`, which every builder
/// of the ledger applies to the program id it is handed.
pub uninterp spec fn spl_program_ok(token_program: Seq<u8>) -> bool;

/// Relies on `spl_token::instruction::transfer`: it builds the transfer
/// instruction for these accounts and amount, and fails exactly when the
/// given token-program id is not the spl-token program id.
#[verifier::external_body]
fn spl_transfer_instruction(
    token_program: &Identity,
    source: &Identity,
    destination: &Identity,
    authority: &Identity,
    amount: u64,
) -> (r: Result<Instruction, TokenError>)
    ensures
        r is Ok <==> spl_program_ok(token_program@),
        r is Err ==> r->Err_0 == TokenError::IncorrectLedgerProgram,
{
    match spl_token::instruction::transfer(
        &Pubkey::new_from_array(token_program.bytes),
        &Pubkey::new_from_array(source.bytes),
        &Pubkey::new_from_array(destination.bytes),
        &Pubkey::new_from_array(authority.bytes),
        &[],
        amount,
    ) {
        Ok(ix) => Ok(ix),
        Err(_) => Err(TokenError::IncorrectLedgerProgram),
    }
}

/// Relies on `spl_token::instruction::mint_to`: it builds the mint
/// instruction for these accounts and amount, and fails exactly when the
/// given token-program id is not the spl-token program id.
#[verifier::external_body]
fn spl_mint_to_instruction(
    token_program: &Identity,
    mint_state: &Identity,
    destination: &Identity,
    authority: &Identity,
    amount: u64,
) -> (r: Result<Instruction, TokenError>)
    ensures
        r is Ok <==> spl_program_ok(token_program@),
        r is Err ==> r->Err_0 == TokenError::IncorrectLedgerProgram,
{
    match spl_token::instruction::mint_to(
        &Pubkey::new_from_array(token_program.bytes),
        &Pubkey::new_from_array(mint_state.bytes),
        &Pubkey::new_from_array(destination.bytes),
        &Pubkey::new_from_array(authority.bytes),
        &[],
        amount,
    ) {
        Ok(ix) => Ok(ix),
        Err(_) => Err(TokenError::IncorrectLedgerProgram),
    }
}

/// Relies on `spl_token::instruction::burn`: it builds the burn instruction
/// for these accounts and amount, and fails exactly when the given
/// token-program id is not the spl-token program id.
#[verifier::external_body]
fn spl_burn_instruction(
    token_program: &Identity,
    source: &Identity,
    mint_state: &Identity,
    authority: &Identity,
    amount: u64,
) -> (r: Result<Instruction, TokenError>)
    ensures
        r is Ok <==> spl_program_ok(token_program@),
        r is Err ==> r->Err_0 == TokenError::IncorrectLedgerProgram,
{
    match spl_token::instruction::burn(
        &Pubkey::new_from_array(token_program.bytes),
        &Pubkey::new_from_array(source.bytes),
        &Pubkey::new_from_array(mint_state.bytes),
        &Pubkey::new_from_array(authority.bytes),
        &[],
        amount,
    ) {
        Ok(ix) => Ok(ix),
        Err(_) => Err(TokenError::IncorrectLedgerProgram),
    }
}

/// Turns a delegated ledger call into the host-runtime instruction the
/// surrounding program invokes. Succeeds exactly when the call addresses
/// the real token ledger; the ledger's own builder judges that.
pub fn build_ledger_instruction(call: &LedgerCall) -> (r: Result<Instruction, TokenError>)
    ensures
        r is Ok <==> spl_program_ok(call.spec_token_program()),
        r is Err ==> r->Err_0 == TokenError::IncorrectLedgerProgram,
{
    match call {
        LedgerCall::Transfer { token_program, source, destination, authority, amount } => (
        spl_transfer_instruction(token_program, source, destination, authority, *amount)),
        LedgerCall::Mint { token_program, mint_state, destination, authority, amount } => (
        spl_mint_to_instruction(token_program, mint_state, destination, authority, *amount)),
        LedgerCall::Burn { token_program, source, mint_state, authority, amount } => (
        spl_burn_instruction(token_program, source, mint_state, authority, *amount)),
    }
}

} // verus!
