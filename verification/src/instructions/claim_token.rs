//! The claim operation: hand a participant the tokens they bought in one
//! phase, exactly once per phase.
//!
//! The engine validates the claim and flips the one-shot flag; the caller
//! transfers the returned amount of tokens and must discard the mutated
//! state if that transfer cannot be made.

use vstd::prelude::*;

use crate::constants::TOTAL_PHASES;
use crate::errors::PresaleError;
use crate::state::phase_info::Phase;
use crate::state::phase_info::PhaseStatus;
use crate::state::presale_info::LedgerView;
use crate::state::presale_info::PresaleInfo;
use crate::state::user_info::UserInfo;
use crate::state::user_info::UserView;
use crate::state::user_info::lemma_sum_purchases_take_all;
use crate::state::user_info::lemma_sum_purchases_take_step;
use crate::state::user_info::sum_purchases;

verus! {

/// What one phase still owes the participant: their purchase there, if they
/// bought anything, have not claimed yet, and the phase is active or ended.
pub open spec fn claimable_one(ph: Phase, bought: u64, claimed: bool) -> int {
    if !claimed && bought > 0 && (ph.status is Ended || ph.status is Active) {
        bought as int
    } else {
        0
    }
}

/// What the first `n` phases still owe the participant.
pub open spec fn claimable_sum_to(
    phases: Seq<Phase>,
    purchases: Seq<u64>,
    claims: Seq<bool>,
    n: int,
) -> int
    decreases n,
{
    if n <= 0 {
        0
    } else {
        claimable_sum_to(phases, purchases, claims, n - 1) + claimable_one(
            phases[n - 1],
            purchases[n - 1],
            claims[n - 1],
        )
    }
}

/// What all phases together still owe the participant.
pub open spec fn claimable_sum(phases: Seq<Phase>, purchases: Seq<u64>, claims: Seq<bool>) -> int {
    claimable_sum_to(phases, purchases, claims, purchases.len() as int)
}

/// A prefix sum of purchases never exceeds the whole sum.
pub proof fn lemma_sum_purchases_prefix_le(purchases: Seq<u64>, n: int)
    requires
        0 <= n <= purchases.len(),
    ensures
        sum_purchases(purchases.take(n)) <= sum_purchases(purchases),
    decreases purchases.len() - n,
{
    if n == purchases.len() {
        lemma_sum_purchases_take_all(purchases);
    } else {
        lemma_sum_purchases_take_step(purchases, n);
        lemma_sum_purchases_prefix_le(purchases, n + 1);
    }
}

/// What is owed over the first `n` phases is non-negative and no more than
/// what was bought there.
pub proof fn lemma_claimable_sum_to_bounds(
    phases: Seq<Phase>,
    purchases: Seq<u64>,
    claims: Seq<bool>,
    n: int,
)
    requires
        0 <= n <= purchases.len(),
    ensures
        0 <= claimable_sum_to(phases, purchases, claims, n),
        claimable_sum_to(phases, purchases, claims, n) <= sum_purchases(purchases.take(n)),
    decreases n,
{
    if n > 0 {
        lemma_claimable_sum_to_bounds(phases, purchases, claims, n - 1);
        lemma_sum_purchases_take_step(purchases, n - 1);
    }
}

/// First reason to refuse a claim of phase `phase_to_claim`, if any, in the
/// order the checks are made: the phase number must be in range, the
/// participant must have bought something there, the phase must have started
/// selling (active or ended — a participant's allocation in a phase is fixed
/// as soon as it is bought), and it must not have been claimed before.
pub open spec fn claim_err(l: LedgerView, u: UserView, phase_to_claim: u8) -> Option<
    PresaleError,
> {
    if !(1 <= phase_to_claim <= TOTAL_PHASES) {
        Some(PresaleError::InvalidPhase)
    } else if u.phase_purchases[phase_to_claim - 1] == 0 {
        Some(PresaleError::InvalidPhase)
    } else if !(l.phases[phase_to_claim - 1].status is Ended || l.phases[phase_to_claim
        - 1].status is Active) {
        Some(PresaleError::PhaseNotActive)
    } else if u.phase_claims[phase_to_claim - 1] {
        Some(PresaleError::UserAlreadyClaimed)
    } else {
        None
    }
}

/// The participant's account after a successful claim of `phase_to_claim`
/// at time `now`: only the phase's one-shot flag and the activity time move.
pub open spec fn claim_apply(u: UserView, phase_to_claim: u8, now: i64) -> UserView {
    UserView {
        phase_claims: u.phase_claims.update(phase_to_claim - 1, true),
        last_purchase_time: now,
        ..u
    }
}

/// What a successful claim reports back.
#[derive(Clone, Copy, Debug, PartialEq, Eq, Structural)]
pub struct ClaimReceipt {
    /// Tokens to hand to the participant, in smallest units.
    pub tokens_claimed: u64,
    /// What eligible phases still owe the participant after this claim.
    pub remaining_claimable: u64,
}

/// The receipt a successful claim of `phase_to_claim` produces.
pub open spec fn claim_receipt(l: LedgerView, u: UserView, phase_to_claim: u8) -> ClaimReceipt {
    ClaimReceipt {
        tokens_claimed: u.phase_purchases[phase_to_claim - 1],
        remaining_claimable: claimable_sum(
            l.phases,
            u.phase_purchases,
            u.phase_claims.update(phase_to_claim - 1, true),
        ) as u64,
    }
}

/// Claim the tokens bought in phase `phase_to_claim` at time `now`.
///
/// On success the phase is marked claimed — a second claim of the same phase
/// fails and transfers nothing — and the receipt says how many tokens to
/// transfer and what other phases still owe. On failure the error names the
/// first precondition that did not hold and nothing has changed. The ledger
/// itself never changes; claims also work while the sale is paused or after
/// it has ended.
pub fn claim_token(
    presale_info: &PresaleInfo,
    user_info: &mut UserInfo,
    phase_to_claim: u8,
    now: i64,
) -> (r: Result<ClaimReceipt, PresaleError>)
    requires
        presale_info@.phases.len() == TOTAL_PHASES,
        old(user_info)@.wf(),
    ensures
        final(user_info)@.wf(),
        match r {
            Ok(receipt) => {
                &&& claim_err(presale_info@, old(user_info)@, phase_to_claim) is None
                &&& final(user_info)@ == claim_apply(old(user_info)@, phase_to_claim, now)
                &&& receipt == claim_receipt(presale_info@, old(user_info)@, phase_to_claim)
            },
            Err(e) => {
                &&& claim_err(presale_info@, old(user_info)@, phase_to_claim) == Some(e)
                &&& final(user_info)@ == old(user_info)@
            },
        },
{
    if phase_to_claim == 0 || phase_to_claim > TOTAL_PHASES as u8 {
        return Err(PresaleError::InvalidPhase);
    }
    let idx = (phase_to_claim - 1) as usize;

    let phase_amount = user_info.phase_purchases[idx];
    if phase_amount == 0 {
        return Err(PresaleError::InvalidPhase);
    }

    let status = presale_info.phases[idx].status;
    if !(status == PhaseStatus::Ended || status == PhaseStatus::Active) {
        return Err(PresaleError::PhaseNotActive);
    }

    if user_info.phase_claims[idx] {
        return Err(PresaleError::UserAlreadyClaimed);
    }

    // Commit: the one-shot flag first, then the activity time.
    user_info.phase_claims.set(idx, true);
    user_info.last_purchase_time = now;

    // What active or ended phases still owe, with the flag just set counted
    // as claimed.
    let mut remaining_claimable: u64 = 0;
    let mut i: usize = 0;
    proof {
        assert(user_info@.phase_purchases.take(0) =~= Seq::<u64>::empty());
    }
    while i < TOTAL_PHASES
        invariant
            presale_info@.phases.len() == TOTAL_PHASES,
            user_info@.phase_purchases.len() == TOTAL_PHASES,
            user_info@.phase_claims.len() == TOTAL_PHASES,
            user_info@.tokens_bought == sum_purchases(user_info@.phase_purchases),
            0 <= i <= TOTAL_PHASES,
            remaining_claimable == claimable_sum_to(
                presale_info@.phases,
                user_info@.phase_purchases,
                user_info@.phase_claims,
                i as int,
            ),
            remaining_claimable <= sum_purchases(user_info@.phase_purchases.take(i as int)),
        decreases TOTAL_PHASES - i,
    {
        let bought = user_info.phase_purchases[i];
        let claimed = user_info.phase_claims[i];
        let status_i = presale_info.phases[i].status;
        proof {
            lemma_sum_purchases_take_step(user_info@.phase_purchases, i as int);
            lemma_sum_purchases_prefix_le(user_info@.phase_purchases, i as int + 1);
        }
        if !claimed && bought > 0 && (status_i == PhaseStatus::Ended || status_i
            == PhaseStatus::Active) {
            remaining_claimable = remaining_claimable + bought;
        }
        i = i + 1;
    }

    proof {
        lemma_claimable_sum_to_bounds(
            presale_info@.phases,
            user_info@.phase_purchases,
            user_info@.phase_claims,
            TOTAL_PHASES as int,
        );
        assert(user_info@ =~= claim_apply(old(user_info)@, phase_to_claim, now));
    }

    Ok(ClaimReceipt { tokens_claimed: phase_amount, remaining_claimable })
}

} // verus!
