//! An on-ledger authorization layer for a fungible token: controlled minting
//! against a supply cap, administrator-gated one-time configuration, and
//! pass-through transfer and burn operations.
//!
//! The library decodes a byte-encoded request into a typed operation, checks
//! signer authority, enforces the one-time-initialization and supply-cap
//! invariants, and either produces the new contents of the configuration
//! record or a delegated ledger instruction. The surrounding program performs
//! the actual account writes and cross-program invocations.

pub mod account;
pub mod config;
pub mod errors;
pub mod identity;
pub mod ledger;
pub mod processor;
pub mod request;
