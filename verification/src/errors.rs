//! The conditions on which an operation of the engine refuses to act.
//!
//! Every precondition failure maps to one variant; a failed operation
//! reports its variant synchronously and changes no state.

use vstd::prelude::*;

verus! {

/// Why a sale operation was rejected.
#[derive(Clone, Copy, Debug, PartialEq, Eq, Structural)]
pub enum PresaleError {
    /// Amount below the phase's soft cap.
    BelowSoftcap,
    /// Amount above the phase's hard cap.
    AboveHardcap,
    /// Invalid price.
    InvalidPrice,
    /// Insufficient funds.
    InsufficientFunds,
    /// The sale has not been initialized.
    PresaleNotInitialized,
    /// The sale is not active.
    PresaleNotActive,
    /// The sale has ended.
    PresaleEnded,
    /// The phase number is out of range, or there is nothing to act on in it.
    InvalidPhase,
    /// The addressed phase is not open for the operation.
    PhaseNotActive,
    /// Not enough unsold tokens left in the current phase.
    InsufficientTokens,
    /// The purchase would exceed the per-address cap.
    ExceedsMaxAmount,
    /// Arithmetic overflow.
    Overflow,
    /// The phase catalog does not add up to the total supply.
    InvalidPhaseAllocation,
    /// The participant has already claimed this phase's tokens.
    UserAlreadyClaimed,
    /// The caller is not the sale's authority.
    InvalidAuthority,
    /// Invalid token account.
    InvalidTokenAccount,
    /// The holding account is empty.
    EmptyVault,
    /// Withdrawal larger than what was deposited.
    InsufficientDeposit,
    /// The amount is not acceptable (for instance, zero).
    InvalidAmount,
    /// The sale is paused, or a pause or resume is not legal now.
    PresalePaused,
}

} // verus!
