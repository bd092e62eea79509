//! The purchase operation: validate a buy request against the ledger and
//! the buyer's account, price it, commit it, and hand over to the next
//! phase when the current one sells out.
//!
//! The caller collects the returned `payment_amount` from the buyer; if that
//! transfer cannot be made, the caller must discard the mutated state rather
//! than persist it.

use vstd::prelude::*;

use vstd::arithmetic::div_mod::lemma_div_by_multiple;
use vstd::arithmetic::div_mod::lemma_div_is_ordered;

use crate::constants::DECIMALS_MULTIPLIER;
use crate::constants::TOTAL_PHASES;
use crate::errors::PresaleError;
use crate::state::phase_info::Phase;
use crate::state::phase_info::PhaseStatus;
use crate::state::presale_info::LedgerView;
use crate::state::presale_info::PresaleInfo;
use crate::state::presale_info::lemma_phase_within_sums;
use crate::state::presale_info::lemma_sums_update;
use crate::state::user_info::UserInfo;
use crate::state::user_info::UserView;
use crate::state::user_info::lemma_sum_purchases_update;

verus! {

/// Whole tokens in `amount` smallest units; cost is charged per whole token.
pub open spec fn whole_units(amount: u64) -> int {
    amount as int / DECIMALS_MULTIPLIER as int
}

/// Cost of `amount` smallest units at `price` per whole token, in
/// base-currency minor units.
pub open spec fn purchase_cost(price: u64, amount: u64) -> int {
    price * whole_units(amount)
}

/// First reason to refuse a purchase of `amount` by the owner of `u`, if
/// any, in the order the checks are made: the sale must admit purchases, the
/// current phase must be selling, the amount must be positive and available,
/// the buyer must stay under the per-address cap, and no running total may
/// overflow.
pub open spec fn buy_err(l: LedgerView, u: UserView, amount: u64) -> Option<PresaleError> {
    let ph = l.spec_current_phase();
    if !l.is_initialized {
        Some(PresaleError::PresaleNotInitialized)
    } else if l.is_ended {
        Some(PresaleError::PresaleEnded)
    } else if !l.is_active {
        Some(PresaleError::PresaleNotActive)
    } else if l.is_paused {
        Some(PresaleError::PresalePaused)
    } else if !(ph.status is Active) {
        Some(PresaleError::PhaseNotActive)
    } else if amount == 0 {
        Some(PresaleError::InvalidAmount)
    } else if amount > ph.tokens_available {
        Some(PresaleError::InsufficientTokens)
    } else if u.phase_purchases[l.current_phase - 1] + amount > l.max_token_amount_per_address {
        Some(PresaleError::ExceedsMaxAmount)
    } else if purchase_cost(ph.price, amount) > u64::MAX || u.total_paid + purchase_cost(
        ph.price,
        amount,
    ) > u64::MAX || u.tokens_bought + amount > u64::MAX {
        Some(PresaleError::Overflow)
    } else {
        None
    }
}

/// The ledger after a successful purchase of `amount`: the current phase's
/// counters move by `amount`; a phase that sells out ends and hands over to
/// the next one if there is one; the global counters move by `amount`; and
/// the sale ends when nothing remains.
pub open spec fn buy_apply_ledger(l: LedgerView, amount: u64) -> LedgerView {
    let i = l.current_phase - 1;
    let ph = l.phases[i];
    let sold = (ph.tokens_sold + amount) as u64;
    let avail = (ph.tokens_available - amount) as u64;
    let complete = avail == 0;
    let updated = Phase {
        tokens_sold: sold,
        tokens_available: avail,
        status: if complete {
            PhaseStatus::Ended
        } else {
            ph.status
        },
        ..ph
    };
    let advanced = complete && l.current_phase < l.phases.len();
    let phases1 = l.phases.update(i, updated);
    let phases2 = if advanced {
        phases1.update(i + 1, Phase { status: PhaseStatus::Active, ..phases1[i + 1] })
    } else {
        phases1
    };
    let remaining = (l.remaining_tokens - amount) as u64;
    LedgerView {
        phases: phases2,
        current_phase: if advanced {
            (l.current_phase + 1) as u8
        } else {
            l.current_phase
        },
        total_tokens_sold: (l.total_tokens_sold + amount) as u64,
        remaining_tokens: remaining,
        is_ended: if remaining == 0 {
            true
        } else {
            l.is_ended
        },
        is_active: if remaining == 0 {
            false
        } else {
            l.is_active
        },
        ..l
    }
}

/// The buyer's account after a successful purchase of `amount` at time
/// `now`: the phase's purchases, the token total and the paid total each
/// grow, and the activity time is set.
pub open spec fn buy_apply_user(l: LedgerView, u: UserView, amount: u64, now: i64) -> UserView {
    let i = l.current_phase - 1;
    let cost = purchase_cost(l.spec_current_phase().price, amount) as u64;
    UserView {
        phase_purchases: u.phase_purchases.update(i, (u.phase_purchases[i] + amount) as u64),
        tokens_bought: (u.tokens_bought + amount) as u64,
        total_paid: (u.total_paid + cost) as u64,
        last_purchase_time: now,
        ..u
    }
}

/// What a successful purchase reports back.
#[derive(Clone, Copy, Debug, PartialEq, Eq, Structural)]
pub struct PurchaseReceipt {
    /// The phase the sale is in after the purchase.
    pub current_phase: u8,
    /// How much of the phase bought from is now sold, in whole percent.
    pub phase_fill_percentage: u64,
    /// Tokens bought, in smallest units.
    pub tokens_purchased: u64,
    /// Base currency charged, in minor units.
    pub payment_amount: u64,
}

/// The receipt a successful purchase of `amount` produces.
pub open spec fn buy_receipt(l: LedgerView, amount: u64) -> PurchaseReceipt {
    let ph = l.spec_current_phase();
    PurchaseReceipt {
        current_phase: buy_apply_ledger(l, amount).current_phase,
        phase_fill_percentage: ((ph.tokens_sold + amount) * 100 / ph.amount as int) as u64,
        tokens_purchased: amount,
        payment_amount: purchase_cost(ph.price, amount) as u64,
    }
}

/// Buy `amount` smallest units from the current phase at time `now`.
///
/// On success both the ledger and the buyer's account have moved exactly by
/// the purchase; on failure the error names the first precondition that did
/// not hold and nothing has changed. The caller still has to collect the
/// receipt's `payment_amount` from the buyer before persisting the state.
pub fn buy_token(
    presale_info: &mut PresaleInfo,
    user_info: &mut UserInfo,
    amount: u64,
    now: i64,
) -> (r: Result<PurchaseReceipt, PresaleError>)
    requires
        old(presale_info)@.wf(),
        old(user_info)@.wf(),
    ensures
        final(presale_info)@.wf(),
        final(user_info)@.wf(),
        match r {
            Ok(receipt) => {
                &&& buy_err(old(presale_info)@, old(user_info)@, amount) is None
                &&& final(presale_info)@ == buy_apply_ledger(old(presale_info)@, amount)
                &&& final(user_info)@ == buy_apply_user(
                    old(presale_info)@,
                    old(user_info)@,
                    amount,
                    now,
                )
                &&& receipt == buy_receipt(old(presale_info)@, amount)
            },
            Err(e) => {
                &&& buy_err(old(presale_info)@, old(user_info)@, amount) == Some(e)
                &&& final(presale_info)@ == old(presale_info)@
                &&& final(user_info)@ == old(user_info)@
            },
        },
{
    if !presale_info.is_initialized {
        return Err(PresaleError::PresaleNotInitialized);
    }
    if presale_info.is_ended {
        return Err(PresaleError::PresaleEnded);
    }
    if !presale_info.is_active {
        return Err(PresaleError::PresaleNotActive);
    }
    if presale_info.is_paused {
        return Err(PresaleError::PresalePaused);
    }

    let phase_number = presale_info.current_phase;
    let idx = (phase_number - 1) as usize;
    let ph = presale_info.phases[idx];
    proof {
        assert(presale_info@.phases[idx as int].wf());
    }

    if !(ph.status == PhaseStatus::Active) {
        return Err(PresaleError::PhaseNotActive);
    }
    if amount == 0 {
        return Err(PresaleError::InvalidAmount);
    }
    if amount > ph.tokens_available {
        return Err(PresaleError::InsufficientTokens);
    }

    // Per-address cap, evaluated against this phase's purchases alone.
    let new_phase_total = match user_info.phase_purchases[idx].checked_add(amount) {
        Some(v) => v,
        None => {
            return Err(PresaleError::ExceedsMaxAmount);
        },
    };
    if new_phase_total > presale_info.max_token_amount_per_address {
        return Err(PresaleError::ExceedsMaxAmount);
    }

    // Price the purchase and bound every running total before touching
    // anything.
    let actual_tokens = amount / DECIMALS_MULTIPLIER;
    let payment_amount = match ph.price.checked_mul(actual_tokens) {
        Some(v) => v,
        None => {
            return Err(PresaleError::Overflow);
        },
    };
    let new_total_paid = match user_info.total_paid.checked_add(payment_amount) {
        Some(v) => v,
        None => {
            return Err(PresaleError::Overflow);
        },
    };
    let new_tokens_bought = match user_info.tokens_bought.checked_add(amount) {
        Some(v) => v,
        None => {
            return Err(PresaleError::Overflow);
        },
    };

    proof {
        lemma_phase_within_sums(presale_info@.phases, idx as int);
    }

    let new_sold = ph.tokens_sold + amount;
    let new_available = ph.tokens_available - amount;
    let is_phase_complete = new_available == 0;

    // Commit: first the phase bought from, then the hand-over, then the
    // global counters, then the buyer's account.
    let updated = Phase {
        tokens_sold: new_sold,
        tokens_available: new_available,
        status: if is_phase_complete {
            PhaseStatus::Ended
        } else {
            ph.status
        },
        ..ph
    };
    proof {
        lemma_sums_update(presale_info@.phases, idx as int, updated);
    }
    presale_info.phases.set(idx, updated);

    if is_phase_complete && phase_number < TOTAL_PHASES as u8 {
        presale_info.current_phase = phase_number + 1;
        let nxt = presale_info.phases[idx + 1];
        proof {
            lemma_sums_update(
                presale_info@.phases,
                idx + 1 as int,
                Phase { status: PhaseStatus::Active, ..nxt },
            );
        }
        presale_info.phases.set(idx + 1, Phase { status: PhaseStatus::Active, ..nxt });
    }

    presale_info.total_tokens_sold = presale_info.total_tokens_sold + amount;
    presale_info.remaining_tokens = presale_info.remaining_tokens - amount;
    if presale_info.remaining_tokens == 0 {
        presale_info.is_ended = true;
        presale_info.is_active = false;
    }

    proof {
        lemma_sum_purchases_update(user_info@.phase_purchases, idx as int, new_phase_total);
    }
    user_info.phase_purchases.set(idx, new_phase_total);
    user_info.tokens_bought = new_tokens_bought;
    user_info.last_purchase_time = now;
    user_info.total_paid = new_total_paid;

    proof {
        lemma_div_is_ordered(new_sold as int * 100, ph.amount as int * 100, ph.amount as int);
        lemma_div_by_multiple(100, ph.amount as int);
    }
    let phase_fill_percentage: u64 = (((new_sold as u128) * 100) / (ph.amount as u128)) as u64;
    proof {
        let l0 = old(presale_info)@;
        let l1 = presale_info@;
        assert forall|i: int| 0 <= i < l1.phases.len() implies #[trigger] l1.phases[i].wf() by {
            assert(l0.phases[i].wf());
            if i != idx && i != idx + 1 {
                assert(l1.phases[i] == l0.phases[i]);
            }
        }
        assert forall|i: int|
            0 <= i < l1.phases.len() implies (#[trigger] l1.phases[i]).phase_number == i + 1 by {
            if i != idx && i != idx + 1 {
                assert(l1.phases[i] == l0.phases[i]);
            }
        }
        assert forall|i: int|
            0 <= i < l1.current_phase - 1 implies (#[trigger] l1.phases[i]).status is Ended by {
            if i != idx && i != idx + 1 {
                assert(l1.phases[i] == l0.phases[i]);
            }
        }
        assert forall|i: int|
            l1.current_phase <= i < l1.phases.len() implies (
        #[trigger] l1.phases[i]).status is Upcoming by {
            if i != idx && i != idx + 1 {
                assert(l1.phases[i] == l0.phases[i]);
            }
        }
        assert forall|i: int|
            0 <= i < l1.phases.len() && (#[trigger] l1.phases[i]).status
                is Ended implies l1.phases[i].tokens_available == 0 by {
            if i != idx && i != idx + 1 {
                assert(l1.phases[i] == l0.phases[i]);
            }
        }
        assert(l1 =~= buy_apply_ledger(l0, amount));
        assert(user_info@ =~= buy_apply_user(l0, old(user_info)@, amount, now));
    }

    Ok(
        PurchaseReceipt {
            current_phase: presale_info.current_phase,
            phase_fill_percentage,
            tokens_purchased: amount,
            payment_amount,
        },
    )
}

} // verus!
