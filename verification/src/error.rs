//! Error taxonomy of the launchpad core.
//!
//! Every error is local and recoverable by the caller: an operation that
//! fails returns one of these variants and leaves the state untouched.

use vstd::prelude::*;

verus! {

/// Why a launchpad operation was refused.
///
/// - `NotFound` / `LaunchAlreadyExist`: registry lookup or creation conflicts.
/// - `Unauthorized`: the caller lacks owner rights for a mutating operation.
/// - `DenomNotSupported`: a supplied price uses a currency other than the
///   configured native one.
/// - `Closed`, `SoldOut`, `NotWhitelisted`, `InsufficientFunds`,
///   `MintQuotaExhausted`: market-state and proof errors of the mint path.
/// - `WrongLength` / `VerificationFailed`: reserved discriminants for
///   malformed proof material; the Merkle verifier reports malformed input
///   as a plain `false` instead, so no operation currently returns them.
#[derive(Clone, Copy, Debug, PartialEq, Eq, Structural)]
pub enum ContractError {
    NotFound,
    Unauthorized,
    InsufficientFunds,
    SoldOut,
    Closed,
    NotWhitelisted,
    MintQuotaExhausted,
    LaunchAlreadyExist,
    DenomNotSupported,
    WrongLength,
    VerificationFailed,
}

} // verus!
