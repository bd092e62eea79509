//! The engine's global guarantees, stated and proved once over the
//! mathematical views. Each operation's own contract says how it moves the
//! state; these laws say what therefore holds of every reachable state and
//! of every pair of runs.

use vstd::prelude::*;

use crate::instructions::buy_token::buy_apply_ledger;
use crate::instructions::buy_token::buy_apply_user;
use crate::instructions::buy_token::buy_err;
use crate::instructions::claim_token::claim_apply;
use crate::instructions::claim_token::claim_err;
use crate::errors::PresaleError;
use crate::state::presale_info::LedgerView;
use crate::state::presale_info::lemma_phase_within_sums;
use crate::state::presale_info::sum_sold;
use crate::state::user_info::UserView;

verus! {

/// The ledger's books balance: in every well-formed ledger — creation
/// establishes well-formedness and every operation preserves it —
/// `total_tokens_sold` equals the sum of the phases' sold counters, and
/// `remaining_tokens` equals the total supply minus that sum.
pub proof fn lemma_ledger_accounting(l: LedgerView)
    requires
        l.wf(),
    ensures
        l.total_tokens_sold == sum_sold(l.phases),
        l.remaining_tokens == l.total_token_supply - sum_sold(l.phases),
{
}

/// Phases run in strict order: in every well-formed ledger at most one phase
/// is active, every phase before the current one has ended, and every phase
/// after it is upcoming.
pub proof fn lemma_at_most_one_active(l: LedgerView)
    requires
        l.wf(),
    ensures
        forall|i: int, j: int|
            0 <= i < l.phases.len() && 0 <= j < l.phases.len()
                && (#[trigger] l.phases[i]).status is Active
                && (#[trigger] l.phases[j]).status is Active ==> i == j,
        forall|i: int| 0 <= i < l.current_phase - 1 ==> (#[trigger] l.phases[i]).status is Ended,
        forall|i: int|
            l.current_phase <= i < l.phases.len() ==> (#[trigger] l.phases[i]).status is Upcoming,
{
    assert forall|i: int, j: int|
        0 <= i < l.phases.len() && 0 <= j < l.phases.len()
            && (#[trigger] l.phases[i]).status is Active
            && (#[trigger] l.phases[j]).status is Active implies i == j by {
        assert(i == l.current_phase - 1);
        assert(j == l.current_phase - 1);
    }
}

/// Claiming is one-shot: after a successful claim of a phase, a second claim
/// of the same phase is refused as already claimed — and, by `claim_token`'s
/// contract, a refused claim leaves the account exactly as it was, so the
/// state after both calls equals the state after the first alone. Claim
/// flags only ever gain: no flag set before the claim is cleared by it.
pub proof fn lemma_claim_idempotent(l: LedgerView, u: UserView, phase_to_claim: u8, now: i64)
    requires
        u.wf(),
        claim_err(l, u, phase_to_claim) is None,
    ensures
        claim_err(l, claim_apply(u, phase_to_claim, now), phase_to_claim) == Some(
            PresaleError::UserAlreadyClaimed,
        ),
        forall|i: int|
            0 <= i < u.phase_claims.len() && u.phase_claims[i] ==> (#[trigger] claim_apply(
                u,
                phase_to_claim,
                now,
            ).phase_claims[i]),
{
}

/// The per-address cap holds across any run of purchases: if no phase's
/// purchases exceed the cap, they still do not after one more successful
/// purchase — and, by `buy_token`'s contract, a purchase that would exceed
/// the cap is refused with every counter unchanged. So the sum one identity
/// buys within one phase never exceeds `max_token_amount_per_address`.
pub proof fn lemma_cap_enforced(l: LedgerView, u: UserView, amount: u64, now: i64)
    requires
        l.wf(),
        u.wf(),
        buy_err(l, u, amount) is None,
        forall|i: int|
            0 <= i < u.phase_purchases.len() ==> #[trigger] u.phase_purchases[i]
                <= l.max_token_amount_per_address,
    ensures
        u.phase_purchases[l.current_phase - 1] + amount <= l.max_token_amount_per_address,
        forall|i: int|
            0 <= i < u.phase_purchases.len() ==> #[trigger] buy_apply_user(
                l,
                u,
                amount,
                now,
            ).phase_purchases[i] <= l.max_token_amount_per_address,
{
    assert forall|i: int| 0 <= i < u.phase_purchases.len() implies #[trigger] buy_apply_user(
        l,
        u,
        amount,
        now,
    ).phase_purchases[i] <= l.max_token_amount_per_address by {
        if i != l.current_phase - 1 {
            assert(buy_apply_user(l, u, amount, now).phase_purchases[i] == u.phase_purchases[i]);
        }
    }
}

/// Counters only move one way: a successful purchase never decreases any
/// phase's sold counter or the ledger's total, and never increases any
/// phase's available counter or the ledger's remainder. The other operations
/// leave all four untouched, as their contracts state field by field.
pub proof fn lemma_purchase_monotonic(l: LedgerView, u: UserView, amount: u64)
    requires
        l.wf(),
        buy_err(l, u, amount) is None,
    ensures
        forall|i: int|
            0 <= i < l.phases.len() ==> (#[trigger] buy_apply_ledger(l, amount).phases[i]).tokens_sold
                >= l.phases[i].tokens_sold,
        forall|i: int|
            0 <= i < l.phases.len() ==> (#[trigger] buy_apply_ledger(
                l,
                amount,
            ).phases[i]).tokens_available <= l.phases[i].tokens_available,
        buy_apply_ledger(l, amount).total_tokens_sold >= l.total_tokens_sold,
        buy_apply_ledger(l, amount).remaining_tokens <= l.remaining_tokens,
{
    lemma_phase_within_sums(l.phases, l.current_phase - 1);
    let ph = l.phases[l.current_phase - 1];
    assert(ph.wf());
    assert(amount <= ph.tokens_available);
    assert(l.total_tokens_sold + amount <= l.total_token_supply);
    assert(l.remaining_tokens >= amount);
    let l2 = buy_apply_ledger(l, amount);
    assert forall|i: int| 0 <= i < l.phases.len() implies (#[trigger] l2.phases[i]).tokens_sold
        >= l.phases[i].tokens_sold && l2.phases[i].tokens_available
        <= l.phases[i].tokens_available by {
        assert(l.phases[l.current_phase - 1].wf());
        if i != l.current_phase - 1 && i != l.current_phase {
            assert(l2.phases[i] == l.phases[i]);
        }
    }
}

} // verus!
