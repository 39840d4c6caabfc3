use anchor_lang::error::Error;
use vstd::prelude::*;

verus! {

/// `anchor_lang::error::Error`, the failure value in which the confidential services report
/// what went wrong. The vault never looks inside: it carries the value through untouched, so
/// that a caller receives exactly what the service said.
#[verifier::external_type_specification]
#[verifier::external_body]
pub struct ExServiceFailure(Error);

/// Why a transition was refused. Every refusal aborts the transition and leaves the
/// vault as it was.
#[derive(Debug, PartialEq, Eq)]
pub enum VaultError {
    /// The signer is not the principal that the transition requires.
    Unauthorized,
    /// The vault has been settled; nothing but reading is permitted any more.
    VaultClosed,
    /// A vault already exists for the token mint.
    AlreadyInitialized,
    /// The arithmetic service failed; its own failure value is inside.
    ArithmeticService(Error),
    /// The token service failed to move the funds; its own failure value is inside.
    Transfer(Error),
    /// A referenced account is not the one that the vault has on record.
    AccountMismatch,
}

} // verus!
