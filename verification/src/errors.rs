use vstd::prelude::*;

verus! {

/// The failure taxonomy of the request processor. Every rejected request
/// aborts with exactly one of these tags; nothing is retried internally.
#[derive(Clone, Copy, Debug, PartialEq, Eq, Structural)]
pub enum TokenError {
    /// Empty request buffer, unknown opcode, or a too-short Initialize payload.
    InvalidRequest,
    /// Wrong-length amount operand, or a zero-value Transfer amount.
    InvalidAmount,
    /// The configuration record's storage is too small to hold the record.
    InvalidStorage,
    /// The configuration record's stored bytes are corrupt or unreadable.
    InvalidConfigData,
    /// Initialize was called on a record whose initialized flag is already set.
    AlreadyInitialized,
    /// A required authority did not co-sign the request.
    MissingSignature,
    /// The mint authority does not match the configured admin identity.
    UnauthorizedMint,
    /// The requested mint would push outstanding supply past the configured
    /// cap (an overflowing sum counts as exceeding the cap).
    MaxSupplyExceeded,
    /// Fewer accounts were referenced than the operation requires.
    MissingAccount,
    /// The external ledger's mint-state record is unreadable.
    InvalidMintState,
    /// Surfaced from the external ledger's instruction builders: the
    /// referenced program is not the token ledger they serve.
    IncorrectLedgerProgram,
}

/// The error codes this program reports to its host under a custom-error tag.
#[derive(Clone, Copy, Debug, PartialEq, Eq, Structural)]
pub enum CustomError {
    MaxSupplyExceeded,
    UnauthorizedMint,
    InvalidAmount,
}

impl CustomError {
    /// The numeric code a host-facing custom error carries for this variant.
    pub fn code(&self) -> (c: u32)
        ensures
            c == (match *self {
                CustomError::MaxSupplyExceeded => 1u32,
                CustomError::UnauthorizedMint => 2u32,
                CustomError::InvalidAmount => 3u32,
            }),
    {
        match *self {
            CustomError::MaxSupplyExceeded => 1,
            CustomError::UnauthorizedMint => 2,
            CustomError::InvalidAmount => 3,
        }
    }
}

impl core::convert::From<CustomError> for TokenError {
    /// Embeds a host-facing custom error into the full failure taxonomy.
    fn from(e: CustomError) -> (r: TokenError)
        ensures
            r == (match e {
                CustomError::MaxSupplyExceeded => TokenError::MaxSupplyExceeded,
                CustomError::UnauthorizedMint => TokenError::UnauthorizedMint,
                CustomError::InvalidAmount => TokenError::InvalidAmount,
            }),
    {
        match e {
            CustomError::MaxSupplyExceeded => TokenError::MaxSupplyExceeded,
            CustomError::UnauthorizedMint => TokenError::UnauthorizedMint,
            CustomError::InvalidAmount => TokenError::InvalidAmount,
        }
    }
}

impl vstd::std_specs::convert::FromSpecImpl<CustomError> for TokenError {
    open spec fn obeys_from_spec() -> bool {
        true
    }

    open spec fn from_spec(e: CustomError) -> TokenError {
        match e {
            CustomError::MaxSupplyExceeded => TokenError::MaxSupplyExceeded,
            CustomError::UnauthorizedMint => TokenError::UnauthorizedMint,
            CustomError::InvalidAmount => TokenError::InvalidAmount,
        }
    }
}

} // verus!
