//! Pausing a running sale. A pause blocks purchases, not claims.

use vstd::prelude::*;

use crate::address::Address;
use crate::errors::PresaleError;
use crate::state::presale_info::LedgerView;
use crate::state::presale_info::PresaleInfo;

verus! {

/// First reason to refuse a pause, if any: only the authority may pause,
/// and only a sale that is running and not already paused.
pub open spec fn emergency_stop_err(l: LedgerView, caller: Address) -> Option<PresaleError> {
    if caller != l.authority {
        Some(PresaleError::InvalidAuthority)
    } else if !(l.is_active && !l.is_paused) {
        Some(PresaleError::PresalePaused)
    } else {
        None
    }
}

/// Pause the sale: afterwards purchases are rejected until the sale is
/// resumed, while claims keep working. Nothing else changes.
pub fn emergency_stop(presale_info: &mut PresaleInfo, caller: Address) -> (r: Result<
    (),
    PresaleError,
>)
    ensures
        old(presale_info)@.wf() ==> final(presale_info)@.wf(),
        match r {
            Ok(()) => {
                &&& emergency_stop_err(old(presale_info)@, caller) is None
                &&& final(presale_info)@ == (LedgerView { is_paused: true, ..old(presale_info)@ })
            },
            Err(e) => {
                &&& emergency_stop_err(old(presale_info)@, caller) == Some(e)
                &&& final(presale_info)@ == old(presale_info)@
            },
        },
{
    if caller != presale_info.authority {
        return Err(PresaleError::InvalidAuthority);
    }
    if !(presale_info.is_active && !presale_info.is_paused) {
        return Err(PresaleError::PresalePaused);
    }
    presale_info.is_paused = true;
    Ok(())
}

} // verus!
