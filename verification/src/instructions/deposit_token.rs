//! Depositing sale inventory into the holding account.
//!
//! The caller moves the tokens; the engine checks who may deposit and keeps
//! the running total of what was deposited.

use vstd::prelude::*;

use crate::address::Address;
use crate::errors::PresaleError;
use crate::state::presale_info::LedgerView;
use crate::state::presale_info::PresaleInfo;

verus! {

/// First reason to refuse a deposit, if any: only the authority may deposit,
/// and the running total must not overflow.
pub open spec fn deposit_token_err(l: LedgerView, caller: Address, amount: u64) -> Option<
    PresaleError,
> {
    if caller != l.authority {
        Some(PresaleError::InvalidAuthority)
    } else if l.total_tokens_deposited + amount > u64::MAX {
        Some(PresaleError::Overflow)
    } else {
        None
    }
}

/// Record a deposit of `amount` tokens by the authority. Only the deposited
/// total changes.
pub fn deposit_token(presale_info: &mut PresaleInfo, caller: Address, amount: u64) -> (r: Result<
    (),
    PresaleError,
>)
    ensures
        old(presale_info)@.wf() ==> final(presale_info)@.wf(),
        match r {
            Ok(()) => {
                &&& deposit_token_err(old(presale_info)@, caller, amount) is None
                &&& final(presale_info)@ == (LedgerView {
                    total_tokens_deposited: (old(presale_info)@.total_tokens_deposited
                        + amount) as u64,
                    ..old(presale_info)@
                })
            },
            Err(e) => {
                &&& deposit_token_err(old(presale_info)@, caller, amount) == Some(e)
                &&& final(presale_info)@ == old(presale_info)@
            },
        },
{
    if caller != presale_info.authority {
        return Err(PresaleError::InvalidAuthority);
    }
    presale_info.deposit_tokens(amount)
}

} // verus!
