//! Withdrawing the sale's base-currency proceeds from the holding account.
//!
//! The engine only decides whether the withdrawal is legal and how much
//! leaves; the caller reads the holding account's balance beforehand and
//! performs the transfer afterwards.

use vstd::prelude::*;

use crate::address::Address;
use crate::errors::PresaleError;
use crate::state::presale_info::PresaleInfo;

verus! {

/// First reason to refuse a proceeds withdrawal, if any: only the authority
/// may withdraw, and an empty holding account has nothing to pay out.
pub open spec fn withdraw_sol_err(
    authority: Address,
    caller: Address,
    vault_balance: u64,
) -> Option<PresaleError> {
    if caller != authority {
        Some(PresaleError::InvalidAuthority)
    } else if vault_balance == 0 {
        Some(PresaleError::EmptyVault)
    } else {
        None
    }
}

/// Decide a withdrawal of the whole holding-account balance: on success the
/// caller transfers the returned amount — everything the account holds — to
/// the authority. The ledger itself does not change.
pub fn withdraw_sol(presale_info: &PresaleInfo, caller: Address, vault_balance: u64) -> (r: Result<
    u64,
    PresaleError,
>)
    ensures
        match r {
            Ok(amount) => {
                &&& withdraw_sol_err(presale_info@.authority, caller, vault_balance) is None
                &&& amount == vault_balance
            },
            Err(e) => withdraw_sol_err(presale_info@.authority, caller, vault_balance) == Some(e),
        },
{
    if caller != presale_info.authority {
        return Err(PresaleError::InvalidAuthority);
    }
    if vault_balance == 0 {
        return Err(PresaleError::EmptyVault);
    }
    Ok(vault_balance)
}

} // verus!
