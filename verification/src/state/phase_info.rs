//! One pricing phase of the sale.

use vstd::prelude::*;

verus! {

/// Where a phase stands in its forward-only life:
/// `Upcoming` before it opens, `Active` while it sells, `Ended` after.
#[derive(Clone, Copy, Debug, Default, PartialEq, Eq, Structural)]
pub enum PhaseStatus {
    #[default]
    Upcoming,
    Active,
    Ended,
}

/// One phase of the sale: its fixed allocation, price and caps, and the
/// running sold/available counters.
///
/// A well-formed phase keeps `tokens_available` equal to
/// `amount - tokens_sold`; the two counters are always updated together.
#[derive(Clone, Copy, Debug, PartialEq, Eq, Structural)]
pub struct Phase {
    /// 1-based number of the phase within the sale.
    pub phase_number: u8,
    /// Tokens allocated to this phase, in smallest units; fixed at creation.
    pub amount: u64,
    /// Price of one whole token, in base-currency minor units; fixed at creation.
    pub price: u64,
    /// Share of the total supply this phase represents.
    pub percentage: u8,
    /// Tokens sold so far in this phase; never decreases.
    pub tokens_sold: u64,
    /// Tokens still for sale in this phase: `amount - tokens_sold`.
    pub tokens_available: u64,
    /// Where the phase stands: `Upcoming`, `Active` or `Ended`.
    pub status: PhaseStatus,
    /// Minimum target of the phase (soft cap), in smallest units.
    pub softcap: u64,
    /// Maximum limit of the phase (hard cap), in smallest units.
    pub hardcap: u64,
}

impl Phase {
    /// The counters of the phase agree with each other.
    pub open spec fn wf(self) -> bool {
        &&& self.tokens_sold <= self.amount
        &&& self.tokens_available == self.amount - self.tokens_sold
    }

    /// The phase can sell no more: sold out, or marked `Ended`.
    pub open spec fn spec_is_complete(self) -> bool {
        self.tokens_sold >= self.amount || self.status is Ended
    }

    /// The phase is selling: marked `Active` and not complete.
    pub open spec fn spec_is_in_progress(self) -> bool {
        self.status is Active && !self.spec_is_complete()
    }

    /// Tokens this phase can still sell, by its own counters.
    pub open spec fn spec_remaining_tokens(self) -> int {
        if self.tokens_sold >= self.amount {
            0
        } else {
            self.amount - self.tokens_sold
        }
    }

    /// Whether the phase can sell no more.
    pub fn is_complete(&self) -> (r: bool)
        ensures
            r == self.spec_is_complete(),
    {
        self.tokens_sold >= self.amount || self.status == PhaseStatus::Ended
    }

    /// Whether the phase is currently selling.
    pub fn is_in_progress(&self) -> (r: bool)
        ensures
            r == self.spec_is_in_progress(),
    {
        self.status == PhaseStatus::Active && !self.is_complete()
    }

    /// How many tokens the phase can still sell.
    pub fn remaining_tokens(&self) -> (r: u64)
        ensures
            r == self.spec_remaining_tokens(),
    {
        if self.tokens_sold >= self.amount {
            0
        } else {
            self.amount - self.tokens_sold
        }
    }
}

} // verus!
