//! One participant's account: what they bought per phase, what they have
//! claimed, and what they paid.

use vstd::prelude::*;

use crate::address::Address;
use crate::constants::TOTAL_PHASES;
use crate::errors::PresaleError;

verus! {

/// Sum of a sequence of per-phase amounts.
pub open spec fn sum_purchases(amounts: Seq<u64>) -> int
    decreases amounts.len(),
{
    if amounts.len() == 0 {
        0
    } else {
        sum_purchases(amounts.drop_last()) + amounts.last()
    }
}

/// Extending a prefix sum by one amount adds that amount.
pub proof fn lemma_sum_purchases_take_step(amounts: Seq<u64>, i: int)
    requires
        0 <= i < amounts.len(),
    ensures
        sum_purchases(amounts.take(i + 1)) == sum_purchases(amounts.take(i)) + amounts[i],
{
    assert(amounts.take(i + 1).drop_last() =~= amounts.take(i));
    assert(amounts.take(i + 1).last() == amounts[i]);
}

/// The prefix of full length is the sequence itself.
pub proof fn lemma_sum_purchases_take_all(amounts: Seq<u64>)
    ensures
        sum_purchases(amounts.take(amounts.len() as int)) == sum_purchases(amounts),
{
    assert(amounts.take(amounts.len() as int) =~= amounts);
}

/// Replacing one amount moves the sum by the difference at that position.
pub proof fn lemma_sum_purchases_update(amounts: Seq<u64>, i: int, v: u64)
    requires
        0 <= i < amounts.len(),
    ensures
        sum_purchases(amounts.update(i, v)) == sum_purchases(amounts) - amounts[i] + v,
    decreases amounts.len(),
{
    if i == amounts.len() - 1 {
        assert(amounts.update(i, v).drop_last() =~= amounts.drop_last());
        assert(amounts.update(i, v).last() == v);
    } else {
        lemma_sum_purchases_update(amounts.drop_last(), i, v);
        assert(amounts.update(i, v).drop_last() =~= amounts.drop_last().update(i, v));
        assert(amounts.update(i, v).last() == amounts.last());
    }
}

/// A sequence of zeroes sums to zero.
pub proof fn lemma_sum_purchases_zero(amounts: Seq<u64>)
    requires
        forall|i: int| 0 <= i < amounts.len() ==> #[trigger] amounts[i] == 0,
    ensures
        sum_purchases(amounts) == 0,
    decreases amounts.len(),
{
    if amounts.len() > 0 {
        assert forall|i: int| 0 <= i < amounts.drop_last().len()
            implies #[trigger] amounts.drop_last()[i] == 0 by {
            assert(amounts.drop_last()[i] == amounts[i]);
        }
        lemma_sum_purchases_zero(amounts.drop_last());
    }
}

/// The mathematical value of a participant account.
#[verifier::ext_equal]
pub struct UserView {
    pub tokens_bought: u64,
    pub phase_purchases: Seq<u64>,
    pub last_purchase_time: i64,
    pub phase_claims: Seq<bool>,
    pub wallet: Address,
    pub total_paid: u64,
}

impl UserView {
    /// Both per-phase arrays cover every phase, and the running total
    /// mirrors the per-phase amounts.
    pub open spec fn wf(self) -> bool {
        &&& self.phase_purchases.len() == TOTAL_PHASES
        &&& self.phase_claims.len() == TOTAL_PHASES
        &&& self.tokens_bought == sum_purchases(self.phase_purchases)
    }
}

/// One participant's account, created on their first purchase and kept as an
/// audit trail; never deleted.
#[derive(Clone, Debug)]
pub struct UserInfo {
    /// Tokens bought across all phases, in smallest units.
    pub tokens_bought: u64,
    /// Tokens bought in each phase, tracked independently per phase.
    pub phase_purchases: Vec<u64>,
    /// Time of the last purchase or claim.
    pub last_purchase_time: i64,
    /// One-shot flag per phase: whether its tokens were already claimed.
    pub phase_claims: Vec<bool>,
    /// The participant's wallet address.
    pub wallet: Address,
    /// Base currency paid over all purchases, in minor units.
    pub total_paid: u64,
}

impl View for UserInfo {
    type V = UserView;

    open spec fn view(&self) -> UserView {
        UserView {
            tokens_bought: self.tokens_bought,
            phase_purchases: self.phase_purchases@,
            last_purchase_time: self.last_purchase_time,
            phase_claims: self.phase_claims@,
            wallet: self.wallet,
            total_paid: self.total_paid,
        }
    }
}

impl UserInfo {
    /// A fresh account for `wallet`: nothing bought, nothing claimed.
    pub fn new(wallet: Address) -> (r: UserInfo)
        ensures
            r@.wf(),
            r@.wallet == wallet,
            r@.tokens_bought == 0,
            r@.total_paid == 0,
            r@.last_purchase_time == 0,
            forall|i: int| 0 <= i < TOTAL_PHASES ==> #[trigger] r@.phase_purchases[i] == 0,
            forall|i: int| 0 <= i < TOTAL_PHASES ==> !(#[trigger] r@.phase_claims[i]),
    {
        let mut phase_purchases: Vec<u64> = Vec::new();
        let mut phase_claims: Vec<bool> = Vec::new();
        let mut i: usize = 0;
        while i < TOTAL_PHASES
            invariant
                0 <= i <= TOTAL_PHASES,
                phase_purchases@.len() == i,
                phase_claims@.len() == i,
                forall|j: int| 0 <= j < i ==> #[trigger] phase_purchases@[j] == 0,
                forall|j: int| 0 <= j < i ==> !(#[trigger] phase_claims@[j]),
            decreases TOTAL_PHASES - i,
        {
            phase_purchases.push(0);
            phase_claims.push(false);
            i = i + 1;
        }
        proof {
            lemma_sum_purchases_zero(phase_purchases@);
        }
        UserInfo {
            tokens_bought: 0,
            phase_purchases,
            last_purchase_time: 0,
            phase_claims,
            wallet,
            total_paid: 0,
        }
    }

    /// First reason to refuse recording a purchase of `amount` costing
    /// `payment_amount` in phase `phase`, if any: the phase number must be
    /// in range, and none of the three running totals may overflow.
    pub open spec fn record_purchase_err(
        self,
        phase: u8,
        amount: u64,
        payment_amount: u64,
    ) -> Option<PresaleError> {
        if !(1 <= phase <= TOTAL_PHASES) {
            Some(PresaleError::InvalidPhase)
        } else if self@.phase_purchases[phase - 1] + amount > u64::MAX || self@.tokens_bought
            + amount > u64::MAX || self@.total_paid + payment_amount > u64::MAX {
            Some(PresaleError::Overflow)
        } else {
            None
        }
    }

    /// Add a purchase of `amount` tokens for `payment_amount` at time `now`
    /// to the account, all three running totals at once, or change nothing.
    pub fn record_purchase(
        &mut self,
        phase: u8,
        amount: u64,
        payment_amount: u64,
        now: i64,
    ) -> (r: Result<(), PresaleError>)
        requires
            old(self)@.wf(),
        ensures
            final(self)@.wf(),
            match r {
                Ok(()) => {
                    &&& old(self).record_purchase_err(phase, amount, payment_amount) is None
                    &&& final(self)@ == (UserView {
                        tokens_bought: (old(self)@.tokens_bought + amount) as u64,
                        phase_purchases: old(self)@.phase_purchases.update(
                            phase - 1,
                            (old(self)@.phase_purchases[phase - 1] + amount) as u64,
                        ),
                        last_purchase_time: now,
                        total_paid: (old(self)@.total_paid + payment_amount) as u64,
                        ..old(self)@
                    })
                },
                Err(e) => {
                    &&& old(self).record_purchase_err(phase, amount, payment_amount) == Some(e)
                    &&& final(self)@ == old(self)@
                },
            },
    {
        if !(phase > 0 && phase <= TOTAL_PHASES as u8) {
            return Err(PresaleError::InvalidPhase);
        }
        let idx = (phase - 1) as usize;
        let new_phase_amount = match self.phase_purchases[idx].checked_add(amount) {
            Some(v) => v,
            None => {
                return Err(PresaleError::Overflow);
            },
        };
        let new_tokens_bought = match self.tokens_bought.checked_add(amount) {
            Some(v) => v,
            None => {
                return Err(PresaleError::Overflow);
            },
        };
        let new_total_paid = match self.total_paid.checked_add(payment_amount) {
            Some(v) => v,
            None => {
                return Err(PresaleError::Overflow);
            },
        };
        proof {
            lemma_sum_purchases_update(self@.phase_purchases, idx as int, new_phase_amount);
        }
        self.phase_purchases.set(idx, new_phase_amount);
        self.tokens_bought = new_tokens_bought;
        self.total_paid = new_total_paid;
        self.last_purchase_time = now;
        Ok(())
    }

    /// Whether the account is well-formed, decided at run time: the exact
    /// executable counterpart of the view's well-formedness. A caller that
    /// received an account from storage checks it with this before operating
    /// on it.
    pub fn is_well_formed(&self) -> (r: bool)
        ensures
            r == self@.wf(),
    {
        if self.phase_purchases.len() != TOTAL_PHASES {
            return false;
        }
        if self.phase_claims.len() != TOTAL_PHASES {
            return false;
        }
        let mut total: u128 = 0;
        let mut i: usize = 0;
        proof {
            assert(self@.phase_purchases.take(0) =~= Seq::<u64>::empty());
        }
        while i < TOTAL_PHASES
            invariant
                self@.phase_purchases.len() == TOTAL_PHASES,
                0 <= i <= TOTAL_PHASES,
                total == sum_purchases(self@.phase_purchases.take(i as int)),
                total <= i * 0xffff_ffff_ffff_ffff,
            decreases TOTAL_PHASES - i,
        {
            proof {
                lemma_sum_purchases_take_step(self@.phase_purchases, i as int);
            }
            total = total + self.phase_purchases[i] as u128;
            i = i + 1;
        }
        proof {
            lemma_sum_purchases_take_all(self@.phase_purchases);
        }
        total == self.tokens_bought as u128
    }

    /// The tokens bought in phase `phase`, or `None` when the phase number
    /// is out of range.
    pub fn get_phase_amount(&self, phase: u8) -> (r: Option<u64>)
        requires
            self@.phase_purchases.len() == TOTAL_PHASES,
        ensures
            match r {
                Some(v) => 1 <= phase <= TOTAL_PHASES && v == self@.phase_purchases[phase - 1],
                None => !(1 <= phase <= TOTAL_PHASES),
            },
    {
        if phase == 0 || phase > TOTAL_PHASES as u8 {
            None
        } else {
            Some(self.phase_purchases[(phase - 1) as usize])
        }
    }
}

} // verus!
