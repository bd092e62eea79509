//! Resuming a paused sale.

use vstd::prelude::*;

use crate::address::Address;
use crate::errors::PresaleError;
use crate::state::presale_info::LedgerView;
use crate::state::presale_info::PresaleInfo;

verus! {

/// First reason to refuse a resume, if any: only the authority may resume,
/// and only a sale that is paused and not over.
pub open spec fn resume_presale_err(l: LedgerView, caller: Address) -> Option<PresaleError> {
    if caller != l.authority {
        Some(PresaleError::InvalidAuthority)
    } else if !(l.is_paused && !l.is_ended) {
        Some(PresaleError::PresalePaused)
    } else {
        None
    }
}

/// Lift a pause and set the advertised end time. Nothing else changes.
pub fn resume_presale(
    presale_info: &mut PresaleInfo,
    caller: Address,
    display_end_time: i64,
) -> (r: Result<(), PresaleError>)
    ensures
        old(presale_info)@.wf() ==> final(presale_info)@.wf(),
        match r {
            Ok(()) => {
                &&& resume_presale_err(old(presale_info)@, caller) is None
                &&& final(presale_info)@ == (LedgerView {
                    is_paused: false,
                    display_end_time: display_end_time,
                    ..old(presale_info)@
                })
            },
            Err(e) => {
                &&& resume_presale_err(old(presale_info)@, caller) == Some(e)
                &&& final(presale_info)@ == old(presale_info)@
            },
        },
{
    if caller != presale_info.authority {
        return Err(PresaleError::InvalidAuthority);
    }
    if !(presale_info.is_paused && !presale_info.is_ended) {
        return Err(PresaleError::PresalePaused);
    }
    presale_info.is_paused = false;
    presale_info.display_end_time = display_end_time;
    Ok(())
}

} // verus!
