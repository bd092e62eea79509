//! The shared sale ledger: phase catalog, global counters, lifecycle flags.

use vstd::prelude::*;

use crate::address::Address;
use crate::constants::TOTAL_PHASES;
use crate::errors::PresaleError;
use crate::state::phase_info::Phase;
use crate::state::phase_info::PhaseStatus;

verus! {

/// Sum of `tokens_sold` over a phase catalog.
pub open spec fn sum_sold(phases: Seq<Phase>) -> int
    decreases phases.len(),
{
    if phases.len() == 0 {
        0
    } else {
        sum_sold(phases.drop_last()) + phases.last().tokens_sold
    }
}

/// Sum of `amount` (the allocations) over a phase catalog.
pub open spec fn sum_amount(phases: Seq<Phase>) -> int
    decreases phases.len(),
{
    if phases.len() == 0 {
        0
    } else {
        sum_amount(phases.drop_last()) + phases.last().amount
    }
}

/// Sum of `percentage` over a phase catalog.
pub open spec fn sum_percentage(phases: Seq<Phase>) -> int
    decreases phases.len(),
{
    if phases.len() == 0 {
        0
    } else {
        sum_percentage(phases.drop_last()) + phases.last().percentage
    }
}

/// Extending a prefix sum by one phase adds that phase's counters.
pub proof fn lemma_sums_take_step(phases: Seq<Phase>, i: int)
    requires
        0 <= i < phases.len(),
    ensures
        sum_sold(phases.take(i + 1)) == sum_sold(phases.take(i)) + phases[i].tokens_sold,
        sum_amount(phases.take(i + 1)) == sum_amount(phases.take(i)) + phases[i].amount,
        sum_percentage(phases.take(i + 1)) == sum_percentage(phases.take(i)) + phases[i].percentage,
{
    assert(phases.take(i + 1).drop_last() =~= phases.take(i));
    assert(phases.take(i + 1).last() == phases[i]);
}

/// The prefix of full length is the catalog itself.
pub proof fn lemma_sums_take_all(phases: Seq<Phase>)
    ensures
        sum_sold(phases.take(phases.len() as int)) == sum_sold(phases),
        sum_amount(phases.take(phases.len() as int)) == sum_amount(phases),
        sum_percentage(phases.take(phases.len() as int)) == sum_percentage(phases),
{
    assert(phases.take(phases.len() as int) =~= phases);
}

/// Replacing one phase moves each sum by the difference at that position.
pub proof fn lemma_sums_update(phases: Seq<Phase>, i: int, p: Phase)
    requires
        0 <= i < phases.len(),
    ensures
        sum_sold(phases.update(i, p)) == sum_sold(phases) - phases[i].tokens_sold + p.tokens_sold,
        sum_amount(phases.update(i, p)) == sum_amount(phases) - phases[i].amount + p.amount,
        sum_percentage(phases.update(i, p)) == sum_percentage(phases) - phases[i].percentage
            + p.percentage,
    decreases phases.len(),
{
    if i == phases.len() - 1 {
        assert(phases.update(i, p).drop_last() =~= phases.drop_last());
        assert(phases.update(i, p).last() == p);
    } else {
        lemma_sums_update(phases.drop_last(), i, p);
        assert(phases.update(i, p).drop_last() =~= phases.drop_last().update(i, p));
        assert(phases.update(i, p).last() == phases.last());
    }
}

/// Both running sums are non-negative.
pub proof fn lemma_sums_nonneg(phases: Seq<Phase>)
    ensures
        sum_sold(phases) >= 0,
        sum_amount(phases) >= 0,
    decreases phases.len(),
{
    if phases.len() > 0 {
        lemma_sums_nonneg(phases.drop_last());
    }
}

/// Over well-formed phases, no more is sold in total than is allocated.
pub proof fn lemma_sum_sold_le_sum_amount(phases: Seq<Phase>)
    requires
        forall|i: int| 0 <= i < phases.len() ==> #[trigger] phases[i].wf(),
    ensures
        sum_sold(phases) <= sum_amount(phases),
    decreases phases.len(),
{
    if phases.len() > 0 {
        assert forall|i: int| 0 <= i < phases.drop_last().len() implies #[trigger] phases.drop_last()[i].wf() by {
            assert(phases.drop_last()[i] == phases[i]);
        }
        lemma_sum_sold_le_sum_amount(phases.drop_last());
        assert(phases.last() == phases[phases.len() - 1]);
        assert(phases[phases.len() - 1].wf());
    }
}

/// Over well-formed phases, one phase's unsold part is within the unsold total.
pub proof fn lemma_phase_within_sums(phases: Seq<Phase>, i: int)
    requires
        forall|j: int| 0 <= j < phases.len() ==> #[trigger] phases[j].wf(),
        0 <= i < phases.len(),
    ensures
        sum_amount(phases) - sum_sold(phases) >= phases[i].amount - phases[i].tokens_sold,
        sum_sold(phases) >= phases[i].tokens_sold,
    decreases phases.len(),
{
    lemma_sums_nonneg(phases);
    assert forall|j: int| 0 <= j < phases.drop_last().len() implies #[trigger] phases.drop_last()[j].wf() by {
        assert(phases.drop_last()[j] == phases[j]);
    }
    assert(phases.last() == phases[phases.len() - 1]);
    assert(phases[phases.len() - 1].wf());
    if i == phases.len() - 1 {
        lemma_sum_sold_le_sum_amount(phases.drop_last());
        lemma_sums_nonneg(phases.drop_last());
    } else {
        lemma_phase_within_sums(phases.drop_last(), i);
        assert(phases.drop_last()[i] == phases[i]);
    }
}

/// The mathematical value of a sale ledger: the phase catalog as a sequence,
/// beside the plain scalar fields.
#[verifier::ext_equal]
pub struct LedgerView {
    pub token_mint_address: Address,
    pub total_token_supply: u64,
    pub remaining_tokens: u64,
    pub current_phase: u8,
    pub phases: Seq<Phase>,
    pub total_tokens_sold: u64,
    pub total_tokens_deposited: u64,
    pub start_time: i64,
    pub end_time: i64,
    pub max_token_amount_per_address: u64,
    pub authority: Address,
    pub is_initialized: bool,
    pub is_active: bool,
    pub is_ended: bool,
    pub is_paused: bool,
    pub display_end_time: i64,
}

impl LedgerView {
    /// The catalog has exactly the fixed number of phases, each internally
    /// consistent and numbered by its position.
    pub open spec fn phases_wf(self) -> bool {
        &&& self.phases.len() == TOTAL_PHASES
        &&& forall|i: int| 0 <= i < self.phases.len() ==> #[trigger] self.phases[i].wf()
        &&& forall|i: int|
            0 <= i < self.phases.len() ==> (#[trigger] self.phases[i]).phase_number == i + 1
    }

    /// The global counters agree with the catalog: `total_tokens_sold`
    /// mirrors the per-phase sold counters, `remaining_tokens` is what is
    /// left of the supply, and the allocations exhaust the supply.
    pub open spec fn accounting_ok(self) -> bool {
        &&& self.total_tokens_sold == sum_sold(self.phases)
        &&& self.remaining_tokens == self.total_token_supply - sum_sold(self.phases)
        &&& sum_amount(self.phases) == self.total_token_supply
    }

    /// Phases run strictly forward: everything before the current phase has
    /// ended, everything after it is upcoming, and an ended phase is sold
    /// out. At most one phase can therefore be active.
    pub open spec fn phase_order_ok(self) -> bool {
        &&& 1 <= self.current_phase <= self.phases.len()
        &&& forall|i: int|
            0 <= i < self.current_phase - 1 ==> (#[trigger] self.phases[i]).status is Ended
        &&& forall|i: int|
            self.current_phase <= i < self.phases.len()
                ==> (#[trigger] self.phases[i]).status is Upcoming
        &&& forall|i: int|
            0 <= i < self.phases.len() && (#[trigger] self.phases[i]).status is Ended
                ==> self.phases[i].tokens_available == 0
    }

    /// A well-formed ledger. Creation establishes this; every operation
    /// preserves it.
    pub open spec fn wf(self) -> bool {
        self.phases_wf() && self.accounting_ok() && self.phase_order_ok()
    }

    /// The phase the sale is currently selling from, when the pointer is in
    /// range.
    pub open spec fn spec_current_phase(self) -> Phase {
        self.phases[self.current_phase - 1]
    }

    /// The current-phase pointer addresses a real phase.
    pub open spec fn current_in_range(self) -> bool {
        1 <= self.current_phase <= self.phases.len()
    }

    /// The ledger after the current phase hands over to the next one: the
    /// current phase is marked `Ended`, the pointer moves on, and the next
    /// phase is marked `Active`. Nothing else changes.
    pub open spec fn advance(self) -> LedgerView {
        let i = self.current_phase - 1;
        let ended = Phase { status: PhaseStatus::Ended, ..self.phases[i] };
        let activated = Phase { status: PhaseStatus::Active, ..self.phases[i + 1] };
        LedgerView {
            current_phase: (self.current_phase + 1) as u8,
            phases: self.phases.update(i, ended).update(i + 1, activated),
            ..self
        }
    }
}

/// The sale ledger: one per sale instance, created once, mutated by every
/// successful operation, never deleted.
#[derive(Clone, Debug)]
pub struct PresaleInfo {
    /// Mint address of the token on sale.
    pub token_mint_address: Address,
    /// Total token supply on sale, in smallest units.
    pub total_token_supply: u64,
    /// Tokens still to be sold across all phases.
    pub remaining_tokens: u64,
    /// 1-based number of the phase currently selling.
    pub current_phase: u8,
    /// The phase catalog, exactly `TOTAL_PHASES` entries.
    pub phases: Vec<Phase>,
    /// Tokens sold over the whole sale; mirrors the per-phase counters.
    pub total_tokens_sold: u64,
    /// Tokens the authority has deposited into the holding account.
    pub total_tokens_deposited: u64,
    /// Start time of the sale.
    pub start_time: i64,
    /// End time of the sale.
    pub end_time: i64,
    /// Cap on the tokens one address may buy within a phase.
    pub max_token_amount_per_address: u64,
    /// The single identity allowed to run lifecycle operations.
    pub authority: Address,
    /// The sale has been created and is ready.
    pub is_initialized: bool,
    /// The sale is running.
    pub is_active: bool,
    /// The sale is over; terminal, never reset.
    pub is_ended: bool,
    /// Purchases are suspended; claims are not.
    pub is_paused: bool,
    /// Advertised end time, informational only.
    pub display_end_time: i64,
}

impl View for PresaleInfo {
    type V = LedgerView;

    open spec fn view(&self) -> LedgerView {
        LedgerView {
            token_mint_address: self.token_mint_address,
            total_token_supply: self.total_token_supply,
            remaining_tokens: self.remaining_tokens,
            current_phase: self.current_phase,
            phases: self.phases@,
            total_tokens_sold: self.total_tokens_sold,
            total_tokens_deposited: self.total_tokens_deposited,
            start_time: self.start_time,
            end_time: self.end_time,
            max_token_amount_per_address: self.max_token_amount_per_address,
            authority: self.authority,
            is_initialized: self.is_initialized,
            is_active: self.is_active,
            is_ended: self.is_ended,
            is_paused: self.is_paused,
            display_end_time: self.display_end_time,
        }
    }
}

impl PresaleInfo {
    /// The ledger is in a state that admits participation: created, running,
    /// not over, not suspended.
    pub open spec fn spec_can_participate(self) -> bool {
        self.is_initialized && self.is_active && !self.is_ended && !self.is_paused
    }

    /// Whether the sale currently admits purchases.
    pub fn can_participate(&self) -> (r: bool)
        ensures
            r == self.spec_can_participate(),
    {
        self.is_initialized && self.is_active && !self.is_ended && !self.is_paused
    }

    /// Whether the ledger is well-formed, decided at run time: the exact
    /// executable counterpart of the view's well-formedness. A caller that
    /// received a ledger from storage checks it with this before operating
    /// on it.
    pub fn is_well_formed(&self) -> (r: bool)
        ensures
            r == self@.wf(),
    {
        if self.phases.len() != TOTAL_PHASES {
            return false;
        }
        if self.current_phase == 0 || self.current_phase > TOTAL_PHASES as u8 {
            return false;
        }
        let cur = self.current_phase as usize;
        let mut sold_sum: u128 = 0;
        let mut amount_sum: u128 = 0;
        let mut i: usize = 0;
        proof {
            assert(self@.phases.take(0) =~= Seq::<Phase>::empty());
        }
        while i < TOTAL_PHASES
            invariant
                self@.phases.len() == TOTAL_PHASES,
                cur == self@.current_phase,
                1 <= cur <= TOTAL_PHASES,
                0 <= i <= TOTAL_PHASES,
                sold_sum == sum_sold(self@.phases.take(i as int)),
                amount_sum == sum_amount(self@.phases.take(i as int)),
                sold_sum <= i * 0xffff_ffff_ffff_ffff,
                amount_sum <= i * 0xffff_ffff_ffff_ffff,
                forall|j: int| 0 <= j < i ==> #[trigger] self@.phases[j].wf(),
                forall|j: int| 0 <= j < i ==> (#[trigger] self@.phases[j]).phase_number == j + 1,
                forall|j: int|
                    0 <= j < i && j < cur - 1 ==> (#[trigger] self@.phases[j]).status is Ended,
                forall|j: int| cur <= j < i ==> (#[trigger] self@.phases[j]).status is Upcoming,
                forall|j: int|
                    0 <= j < i && (#[trigger] self@.phases[j]).status is Ended
                        ==> self@.phases[j].tokens_available == 0,
            decreases TOTAL_PHASES - i,
        {
            let ph = self.phases[i];
            proof {
                assert(self@.phases[i as int] == ph);
            }
            if !(ph.tokens_sold <= ph.amount) {
                proof {
                    assert(!self@.phases[i as int].wf());
                }
                return false;
            }
            if ph.tokens_available != ph.amount - ph.tokens_sold {
                proof {
                    assert(!self@.phases[i as int].wf());
                }
                return false;
            }
            if ph.phase_number != (i as u8) + 1 {
                return false;
            }
            if i + 1 < cur && !(ph.status == PhaseStatus::Ended) {
                return false;
            }
            if i >= cur && !(ph.status == PhaseStatus::Upcoming) {
                return false;
            }
            if ph.status == PhaseStatus::Ended && ph.tokens_available != 0 {
                return false;
            }
            proof {
                lemma_sums_take_step(self@.phases, i as int);
            }
            sold_sum = sold_sum + ph.tokens_sold as u128;
            amount_sum = amount_sum + ph.amount as u128;
            i = i + 1;
        }
        proof {
            lemma_sums_take_all(self@.phases);
        }
        if sold_sum != self.total_tokens_sold as u128 {
            return false;
        }
        if amount_sum != self.total_token_supply as u128 {
            return false;
        }
        if (self.remaining_tokens as u128) + sold_sum != self.total_token_supply as u128 {
            return false;
        }
        true
    }

    /// The phase currently selling, or `None` when the pointer is out of
    /// range.
    pub fn get_current_phase(&self) -> (r: Option<&Phase>)
        requires
            self@.phases.len() == TOTAL_PHASES,
        ensures
            match r {
                Some(p) => self@.current_in_range() && *p == self@.spec_current_phase(),
                None => !self@.current_in_range(),
            },
    {
        if self.current_phase == 0 || self.current_phase > TOTAL_PHASES as u8 {
            None
        } else {
            Some(&self.phases[(self.current_phase - 1) as usize])
        }
    }

    /// Mutable access to the phase the sale is currently selling from, or
    /// `None` when the pointer is out of range.
    pub fn get_current_phase_mut(&mut self) -> (r: Option<&mut Phase>)
        requires
            old(self)@.phases.len() == TOTAL_PHASES,
        ensures
            match r {
                Some(p) => {
                    &&& old(self)@.current_in_range()
                    &&& *p == old(self)@.spec_current_phase()
                    &&& final(self)@ == (LedgerView {
                        phases: old(self)@.phases.update(
                            old(self)@.current_phase - 1,
                            *final(p),
                        ),
                        ..old(self)@
                    })
                },
                None => !old(self)@.current_in_range() && final(self)@ == old(self)@,
            },
    {
        if self.current_phase == 0 || self.current_phase > TOTAL_PHASES as u8 {
            None
        } else {
            Some(&mut self.phases[(self.current_phase - 1) as usize])
        }
    }

    /// Advance the sale to the next phase if the current one is complete and
    /// a next one exists; report whether the hand-over happened.
    pub fn update_phase_status(&mut self) -> (r: bool)
        requires
            old(self)@.wf(),
        ensures
            final(self)@.wf(),
            r == (old(self)@.current_phase < old(self)@.phases.len()
                && old(self)@.spec_current_phase().spec_is_complete()),
            r ==> final(self)@ == old(self)@.advance(),
            !r ==> final(self)@ == old(self)@,
    {
        let current_phase_num = self.current_phase;
        if current_phase_num == 0 || current_phase_num >= TOTAL_PHASES as u8 {
            return false;
        }
        let idx = (current_phase_num - 1) as usize;
        let cur = self.phases[idx];
        if cur.is_complete() {
            proof {
                lemma_sums_update(
                    self@.phases,
                    idx as int,
                    Phase { status: PhaseStatus::Ended, ..cur },
                );
            }
            self.phases.set(idx, Phase { status: PhaseStatus::Ended, ..cur });
            self.current_phase = current_phase_num + 1;
            let nxt = self.phases[idx + 1];
            proof {
                lemma_sums_update(
                    self@.phases,
                    idx + 1 as int,
                    Phase { status: PhaseStatus::Active, ..nxt },
                );
            }
            self.phases.set(idx + 1, Phase { status: PhaseStatus::Active, ..nxt });
            proof {
                let l0 = old(self)@;
                let l1 = self@;
                assert(l0.phases[idx as int].wf());
                assert forall|i: int| 0 <= i < l1.phases.len() implies #[trigger] l1.phases[i].wf() by {
                    assert(l0.phases[i].wf());
                    if i != idx && i != idx + 1 {
                        assert(l1.phases[i] == l0.phases[i]);
                    }
                }
                assert forall|i: int|
                    0 <= i < l1.phases.len() implies (#[trigger] l1.phases[i]).phase_number == i
                    + 1 by {
                    if i != idx && i != idx + 1 {
                        assert(l1.phases[i] == l0.phases[i]);
                    }
                }
                assert forall|i: int|
                    0 <= i < l1.current_phase - 1 implies (#[trigger] l1.phases[i]).status
                    is Ended by {
                    if i != idx && i != idx + 1 {
                        assert(l1.phases[i] == l0.phases[i]);
                    }
                }
                assert forall|i: int|
                    l1.current_phase <= i < l1.phases.len() implies (
                #[trigger] l1.phases[i]).status is Upcoming by {
                    if i != idx && i != idx + 1 {
                        assert(l1.phases[i] == l0.phases[i]);
                    }
                }
                assert forall|i: int|
                    0 <= i < l1.phases.len() && (#[trigger] l1.phases[i]).status
                        is Ended implies l1.phases[i].tokens_available == 0 by {
                    if i != idx && i != idx + 1 {
                        assert(l1.phases[i] == l0.phases[i]);
                    }
                }
                assert(l1 =~= l0.advance());
            }
            true
        } else {
            false
        }
    }

    /// Whether the current phase is complete and a later phase exists to
    /// take over.
    pub fn can_move_to_next_phase(&self) -> (r: bool)
        requires
            self@.phases.len() == TOTAL_PHASES,
        ensures
            r == (self@.current_in_range() && self@.spec_current_phase().spec_is_complete()
                && self@.current_phase < self@.phases.len()),
    {
        if let Some(current_phase) = self.get_current_phase() {
            current_phase.is_complete() && self.current_phase < TOTAL_PHASES as u8
        } else {
            false
        }
    }

    /// Whether the catalog is consistent with the supply: the percentages
    /// sum to one hundred and the allocations sum to the total supply.
    pub fn validate_phase_allocation(&self) -> (r: bool)
        ensures
            r == (sum_percentage(self@.phases) == 100 && sum_amount(self@.phases)
                == self@.total_token_supply),
    {
        let n = self.phases.len();
        let mut total_percentage: u128 = 0;
        let mut total_tokens: u128 = 0;
        let mut i: usize = 0;
        proof {
            lemma_sums_take_all(self@.phases);
        }
        while i < n
            invariant
                n == self@.phases.len(),
                0 <= i <= n,
                total_percentage == sum_percentage(self@.phases.take(i as int)),
                total_tokens == sum_amount(self@.phases.take(i as int)),
                total_percentage <= i * 0xff,
                total_tokens <= i * 0xffff_ffff_ffff_ffff,
            decreases n - i,
        {
            proof {
                lemma_sums_take_step(self@.phases, i as int);
            }
            total_percentage = total_percentage + self.phases[i].percentage as u128;
            total_tokens = total_tokens + self.phases[i].amount as u128;
            i = i + 1;
        }
        proof {
            lemma_sums_take_all(self@.phases);
        }
        total_percentage == 100 && total_tokens == self.total_token_supply as u128
    }

    /// Whether `amount` fits both what the current phase can still sell and
    /// what the whole sale has left.
    pub fn is_valid_purchase_amount(&self, amount: u64) -> (r: bool)
        requires
            self@.phases.len() == TOTAL_PHASES,
        ensures
            r == (self@.current_in_range()
                && amount <= self@.spec_current_phase().spec_remaining_tokens()
                && amount <= self@.remaining_tokens),
    {
        if let Some(current_phase) = self.get_current_phase() {
            amount <= current_phase.remaining_tokens() && amount <= self.remaining_tokens
        } else {
            false
        }
    }

    /// Record that the authority deposited `amount` tokens into the holding
    /// account. Fails only when the running total would overflow.
    pub fn deposit_tokens(&mut self, amount: u64) -> (r: Result<(), PresaleError>)
        ensures
            match r {
                Ok(()) => {
                    &&& old(self)@.total_tokens_deposited + amount <= u64::MAX
                    &&& final(self)@ == (LedgerView {
                        total_tokens_deposited: (old(self)@.total_tokens_deposited + amount) as u64,
                        ..old(self)@
                    })
                },
                Err(e) => {
                    &&& e == PresaleError::Overflow
                    &&& old(self)@.total_tokens_deposited + amount > u64::MAX
                    &&& final(self)@ == old(self)@
                },
            },
    {
        match self.total_tokens_deposited.checked_add(amount) {
            Some(new_total) => {
                self.total_tokens_deposited = new_total;
                Ok(())
            },
            None => Err(PresaleError::Overflow),
        }
    }

    /// Record that the authority withdrew `amount` tokens from the holding
    /// account; never more than was deposited.
    pub fn withdraw_tokens(&mut self, amount: u64) -> (r: Result<(), PresaleError>)
        ensures
            match r {
                Ok(()) => {
                    &&& old(self)@.total_tokens_deposited >= amount
                    &&& final(self)@ == (LedgerView {
                        total_tokens_deposited: (old(self)@.total_tokens_deposited - amount) as u64,
                        ..old(self)@
                    })
                },
                Err(e) => {
                    &&& e == PresaleError::InsufficientDeposit
                    &&& old(self)@.total_tokens_deposited < amount
                    &&& final(self)@ == old(self)@
                },
            },
    {
        if self.total_tokens_deposited < amount {
            return Err(PresaleError::InsufficientDeposit);
        }
        self.total_tokens_deposited = self.total_tokens_deposited - amount;
        Ok(())
    }
}

} // verus!
