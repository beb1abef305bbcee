//! The accounting engine of a tokenized vault.
//!
//! An authority registers a synthetic asset backed by a stablecoin reserve.
//! Callers deposit stablecoin and are issued asset tokens at the asset's fixed
//! price; holders redeem asset tokens for their price in stablecoin; the
//! administrator may draw on the reserve.
//!
//! The engine keeps the books and decides what the token program is asked to
//! do. It moves no tokens itself: each operation returns the token calls for
//! its caller to carry out, in order. An operation is all or nothing: where a
//! call fails, the caller gives up the operation and keeps the records as they
//! were before it.
//!
//! Arithmetic never wraps and never saturates. An operation whose arithmetic
//! would leave the 64-bit range is not carried out at all: the operations
//! require that it stays within range, and each has an `is_defined` that tells.

pub mod engine;
pub mod error;
pub mod identity;
pub mod pricing;
pub mod records;
pub mod token;

pub use engine::{
    admin_withdraw, create_asset, deposit, initialize, redeem, AdminWithdraw, CreateAsset, Deposit,
    Initialize, Redeem,
};
pub use error::ErrorCode;
pub use identity::Identity;
pub use records::{Admin, Asset, Vault};
pub use token::{TokenCall, TokenInstruction, VaultSigner};
