//! Creating a sale: populating the phase catalog from the fixed
//! configuration and opening the first phase.

use vstd::prelude::*;

use crate::address::Address;
use crate::constants::PHASE_1_ALLOCATION;
use crate::constants::PHASE_1_MAX_PURCHASE;
use crate::constants::PHASE_1_MIN_PURCHASE;
use crate::constants::PHASE_1_PERCENTAGE;
use crate::constants::PHASE_1_PRICE;
use crate::constants::PHASE_2_ALLOCATION;
use crate::constants::PHASE_2_MAX_PURCHASE;
use crate::constants::PHASE_2_MIN_PURCHASE;
use crate::constants::PHASE_2_PERCENTAGE;
use crate::constants::PHASE_2_PRICE;
use crate::constants::PHASE_3_ALLOCATION;
use crate::constants::PHASE_3_MAX_PURCHASE;
use crate::constants::PHASE_3_MIN_PURCHASE;
use crate::constants::PHASE_3_PERCENTAGE;
use crate::constants::PHASE_3_PRICE;
use crate::constants::PHASE_4_ALLOCATION;
use crate::constants::PHASE_4_MAX_PURCHASE;
use crate::constants::PHASE_4_MIN_PURCHASE;
use crate::constants::PHASE_4_PERCENTAGE;
use crate::constants::PHASE_4_PRICE;
use crate::constants::PHASE_5_ALLOCATION;
use crate::constants::PHASE_5_MAX_PURCHASE;
use crate::constants::PHASE_5_MIN_PURCHASE;
use crate::constants::PHASE_5_PERCENTAGE;
use crate::constants::PHASE_5_PRICE;
use crate::constants::TOTAL_SUPPLY;
use crate::errors::PresaleError;
use crate::state::phase_info::Phase;
use crate::state::phase_info::PhaseStatus;
use crate::state::presale_info::LedgerView;
use crate::state::presale_info::PresaleInfo;
use crate::state::presale_info::lemma_sums_take_all;
use crate::state::presale_info::lemma_sums_take_step;
use crate::state::presale_info::sum_amount;
use crate::state::presale_info::sum_percentage;
use crate::state::presale_info::sum_sold;

verus! {

/// The phase catalog at creation: the five configured phases, nothing sold,
/// the first phase active and the rest upcoming.
pub open spec fn initial_phases() -> Seq<Phase> {
    seq![
        Phase {
            phase_number: 1,
            amount: PHASE_1_ALLOCATION,
            price: PHASE_1_PRICE,
            percentage: PHASE_1_PERCENTAGE,
            tokens_sold: 0,
            tokens_available: PHASE_1_ALLOCATION,
            status: PhaseStatus::Active,
            softcap: PHASE_1_MIN_PURCHASE,
            hardcap: PHASE_1_MAX_PURCHASE,
        },
        Phase {
            phase_number: 2,
            amount: PHASE_2_ALLOCATION,
            price: PHASE_2_PRICE,
            percentage: PHASE_2_PERCENTAGE,
            tokens_sold: 0,
            tokens_available: PHASE_2_ALLOCATION,
            status: PhaseStatus::Upcoming,
            softcap: PHASE_2_MIN_PURCHASE,
            hardcap: PHASE_2_MAX_PURCHASE,
        },
        Phase {
            phase_number: 3,
            amount: PHASE_3_ALLOCATION,
            price: PHASE_3_PRICE,
            percentage: PHASE_3_PERCENTAGE,
            tokens_sold: 0,
            tokens_available: PHASE_3_ALLOCATION,
            status: PhaseStatus::Upcoming,
            softcap: PHASE_3_MIN_PURCHASE,
            hardcap: PHASE_3_MAX_PURCHASE,
        },
        Phase {
            phase_number: 4,
            amount: PHASE_4_ALLOCATION,
            price: PHASE_4_PRICE,
            percentage: PHASE_4_PERCENTAGE,
            tokens_sold: 0,
            tokens_available: PHASE_4_ALLOCATION,
            status: PhaseStatus::Upcoming,
            softcap: PHASE_4_MIN_PURCHASE,
            hardcap: PHASE_4_MAX_PURCHASE,
        },
        Phase {
            phase_number: 5,
            amount: PHASE_5_ALLOCATION,
            price: PHASE_5_PRICE,
            percentage: PHASE_5_PERCENTAGE,
            tokens_sold: 0,
            tokens_available: PHASE_5_ALLOCATION,
            status: PhaseStatus::Upcoming,
            softcap: PHASE_5_MIN_PURCHASE,
            hardcap: PHASE_5_MAX_PURCHASE,
        },
    ]
}

/// The configured catalog adds up: nothing sold, percentages at one hundred,
/// allocations exhausting the supply.
pub proof fn lemma_initial_phases_sums()
    ensures
        sum_sold(initial_phases()) == 0,
        sum_amount(initial_phases()) == TOTAL_SUPPLY,
        sum_percentage(initial_phases()) == 100,
{
    let s = initial_phases();
    assert(s.take(0) =~= Seq::<Phase>::empty());
    lemma_sums_take_step(s, 0);
    lemma_sums_take_step(s, 1);
    lemma_sums_take_step(s, 2);
    lemma_sums_take_step(s, 3);
    lemma_sums_take_step(s, 4);
    lemma_sums_take_all(s);
}

/// The ledger as creation leaves it for the given arguments.
pub open spec fn initial_ledger(
    authority: Address,
    token_mint_address: Address,
    max_token_amount_per_address: u64,
    display_end_time: i64,
) -> LedgerView {
    LedgerView {
        token_mint_address: token_mint_address,
        total_token_supply: TOTAL_SUPPLY,
        remaining_tokens: TOTAL_SUPPLY,
        current_phase: 1,
        phases: initial_phases(),
        total_tokens_sold: 0,
        total_tokens_deposited: 0,
        start_time: 0,
        end_time: 0,
        max_token_amount_per_address: max_token_amount_per_address,
        authority: authority,
        is_initialized: true,
        is_active: true,
        is_ended: false,
        is_paused: false,
        display_end_time: display_end_time,
    }
}

/// Create the sale for `authority`: the fixed catalog with phase one active,
/// all counters zero, the per-address cap as given. The cap must be positive.
pub fn create_presale(
    authority: Address,
    token_mint_address: Address,
    max_token_amount_per_address: u64,
    display_end_time: i64,
) -> (r: Result<PresaleInfo, PresaleError>)
    ensures
        match r {
            Ok(p) => {
                &&& max_token_amount_per_address > 0
                &&& p@ == initial_ledger(
                    authority,
                    token_mint_address,
                    max_token_amount_per_address,
                    display_end_time,
                )
                &&& p@.wf()
            },
            Err(e) => {
                &&& e == PresaleError::InvalidAmount
                &&& max_token_amount_per_address == 0
            },
        },
{
    if max_token_amount_per_address == 0 {
        return Err(PresaleError::InvalidAmount);
    }

    let mut phases: Vec<Phase> = Vec::new();
    phases.push(
        Phase {
            phase_number: 1,
            amount: PHASE_1_ALLOCATION,
            price: PHASE_1_PRICE,
            percentage: PHASE_1_PERCENTAGE,
            tokens_sold: 0,
            tokens_available: PHASE_1_ALLOCATION,
            status: PhaseStatus::Active,
            softcap: PHASE_1_MIN_PURCHASE,
            hardcap: PHASE_1_MAX_PURCHASE,
        },
    );
    phases.push(
        Phase {
            phase_number: 2,
            amount: PHASE_2_ALLOCATION,
            price: PHASE_2_PRICE,
            percentage: PHASE_2_PERCENTAGE,
            tokens_sold: 0,
            tokens_available: PHASE_2_ALLOCATION,
            status: PhaseStatus::Upcoming,
            softcap: PHASE_2_MIN_PURCHASE,
            hardcap: PHASE_2_MAX_PURCHASE,
        },
    );
    phases.push(
        Phase {
            phase_number: 3,
            amount: PHASE_3_ALLOCATION,
            price: PHASE_3_PRICE,
            percentage: PHASE_3_PERCENTAGE,
            tokens_sold: 0,
            tokens_available: PHASE_3_ALLOCATION,
            status: PhaseStatus::Upcoming,
            softcap: PHASE_3_MIN_PURCHASE,
            hardcap: PHASE_3_MAX_PURCHASE,
        },
    );
    phases.push(
        Phase {
            phase_number: 4,
            amount: PHASE_4_ALLOCATION,
            price: PHASE_4_PRICE,
            percentage: PHASE_4_PERCENTAGE,
            tokens_sold: 0,
            tokens_available: PHASE_4_ALLOCATION,
            status: PhaseStatus::Upcoming,
            softcap: PHASE_4_MIN_PURCHASE,
            hardcap: PHASE_4_MAX_PURCHASE,
        },
    );
    phases.push(
        Phase {
            phase_number: 5,
            amount: PHASE_5_ALLOCATION,
            price: PHASE_5_PRICE,
            percentage: PHASE_5_PERCENTAGE,
            tokens_sold: 0,
            tokens_available: PHASE_5_ALLOCATION,
            status: PhaseStatus::Upcoming,
            softcap: PHASE_5_MIN_PURCHASE,
            hardcap: PHASE_5_MAX_PURCHASE,
        },
    );
    proof {
        assert(phases@ =~= initial_phases());
        lemma_initial_phases_sums();
    }

    let presale_info = PresaleInfo {
        token_mint_address,
        total_token_supply: TOTAL_SUPPLY,
        remaining_tokens: TOTAL_SUPPLY,
        current_phase: 1,
        phases,
        total_tokens_sold: 0,
        total_tokens_deposited: 0,
        start_time: 0,
        end_time: 0,
        max_token_amount_per_address,
        authority,
        is_initialized: true,
        is_active: true,
        is_ended: false,
        is_paused: false,
        display_end_time,
    };

    if !presale_info.validate_phase_allocation() {
        return Err(PresaleError::InvalidPhaseAllocation);
    }

    Ok(presale_info)
}

} // verus!
