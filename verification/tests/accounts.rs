//! The data types' own methods: phase predicates, ledger accessors, and the
//! participant account.

use zexxcoin_presale::address::Address;
use zexxcoin_presale::constants::DECIMALS_MULTIPLIER;
use zexxcoin_presale::errors::PresaleError;
use zexxcoin_presale::instructions::claim_token::claim_token;
use zexxcoin_presale::state::phase_info::{Phase, PhaseStatus};
use zexxcoin_presale::state::presale_info::PresaleInfo;
use zexxcoin_presale::state::user_info::UserInfo;

const DM: u64 = DECIMALS_MULTIPLIER;

fn addr(n: u64) -> Address {
    Address { w0: n, w1: 0, w2: 0, w3: 0 }
}

fn phase(n: u8, amount: u64, sold: u64, status: PhaseStatus) -> Phase {
    Phase {
        phase_number: n,
        amount,
        price: 2,
        percentage: 20,
        tokens_sold: sold,
        tokens_available: amount.saturating_sub(sold),
        status,
        softcap: 0,
        hardcap: amount,
    }
}

fn ledger_with(phases: Vec<Phase>, current: u8) -> PresaleInfo {
    let total: u64 = phases.iter().map(|p| p.amount).sum();
    let sold: u64 = phases.iter().map(|p| p.tokens_sold).sum();
    PresaleInfo {
        token_mint_address: addr(9),
        total_token_supply: total,
        remaining_tokens: total - sold,
        current_phase: current,
        phases,
        total_tokens_sold: sold,
        total_tokens_deposited: 0,
        start_time: 0,
        end_time: 0,
        max_token_amount_per_address: 1000 * DM,
        authority: addr(1),
        is_initialized: true,
        is_active: true,
        is_ended: false,
        is_paused: false,
        display_end_time: 0,
    }
}

#[test]
fn participation_needs_a_running_unpaused_sale() {
    let phases = vec![
        phase(1, 100, 0, PhaseStatus::Active),
        phase(2, 100, 0, PhaseStatus::Upcoming),
        phase(3, 100, 0, PhaseStatus::Upcoming),
        phase(4, 100, 0, PhaseStatus::Upcoming),
        phase(5, 100, 0, PhaseStatus::Upcoming),
    ];
    let mut p = ledger_with(phases, 1);
    assert!(p.can_participate());
    p.is_paused = true;
    assert!(!p.can_participate());
    p.is_paused = false;
    p.is_ended = true;
    assert!(!p.can_participate());
}

#[test]
fn a_phase_completes_by_selling_out_or_ending() {
    assert!(phase(1, 100, 100, PhaseStatus::Active).is_complete());
    assert!(phase(1, 100, 40, PhaseStatus::Ended).is_complete());
    assert!(!phase(1, 100, 40, PhaseStatus::Active).is_complete());
    assert!(!phase(1, 100, 0, PhaseStatus::Upcoming).is_complete());
}

#[test]
fn a_phase_is_in_progress_only_while_selling() {
    assert!(phase(1, 100, 40, PhaseStatus::Active).is_in_progress());
    assert!(!phase(1, 100, 100, PhaseStatus::Active).is_in_progress());
    assert!(!phase(1, 100, 40, PhaseStatus::Upcoming).is_in_progress());
    assert!(!phase(1, 100, 40, PhaseStatus::Ended).is_in_progress());
}

#[test]
fn remaining_tokens_never_underflow() {
    assert_eq!(phase(1, 100, 40, PhaseStatus::Active).remaining_tokens(), 60);
    assert_eq!(phase(1, 100, 100, PhaseStatus::Active).remaining_tokens(), 0);
    let oversold = Phase { tokens_sold: 120, ..phase(1, 100, 0, PhaseStatus::Active) };
    assert_eq!(oversold.remaining_tokens(), 0);
}

#[test]
fn the_current_phase_needs_a_pointer_in_range() {
    let phases = vec![
        phase(1, 100, 100, PhaseStatus::Ended),
        phase(2, 100, 10, PhaseStatus::Active),
        phase(3, 100, 0, PhaseStatus::Upcoming),
        phase(4, 100, 0, PhaseStatus::Upcoming),
        phase(5, 100, 0, PhaseStatus::Upcoming),
    ];
    let mut p = ledger_with(phases, 2);
    assert_eq!(p.get_current_phase().unwrap().phase_number, 2);

    p.current_phase = 0;
    assert!(p.get_current_phase().is_none());
    p.current_phase = 6;
    assert!(p.get_current_phase().is_none());
}

#[test]
fn the_current_phase_can_be_edited_in_place() {
    let phases = vec![
        phase(1, 100, 10, PhaseStatus::Active),
        phase(2, 100, 0, PhaseStatus::Upcoming),
        phase(3, 100, 0, PhaseStatus::Upcoming),
        phase(4, 100, 0, PhaseStatus::Upcoming),
        phase(5, 100, 0, PhaseStatus::Upcoming),
    ];
    let mut p = ledger_with(phases, 1);
    let ph = p.get_current_phase_mut().unwrap();
    ph.price = 7;
    assert_eq!(p.phases[0].price, 7);
}

#[test]
fn hand_over_happens_only_on_completion() {
    let phases = vec![
        phase(1, 100, 100, PhaseStatus::Active),
        phase(2, 100, 0, PhaseStatus::Upcoming),
        phase(3, 100, 0, PhaseStatus::Upcoming),
        phase(4, 100, 0, PhaseStatus::Upcoming),
        phase(5, 100, 0, PhaseStatus::Upcoming),
    ];
    let mut p = ledger_with(phases, 1);
    assert!(p.can_move_to_next_phase());
    assert!(p.update_phase_status());
    assert_eq!(p.current_phase, 2);
    assert_eq!(p.phases[0].status, PhaseStatus::Ended);
    assert_eq!(p.phases[1].status, PhaseStatus::Active);

    // Phase two has sold nothing: no further hand-over.
    assert!(!p.can_move_to_next_phase());
    assert!(!p.update_phase_status());
    assert_eq!(p.current_phase, 2);
}

#[test]
fn the_last_phase_has_nothing_to_hand_over_to() {
    let phases = vec![
        phase(1, 100, 100, PhaseStatus::Ended),
        phase(2, 100, 100, PhaseStatus::Ended),
        phase(3, 100, 100, PhaseStatus::Ended),
        phase(4, 100, 100, PhaseStatus::Ended),
        phase(5, 100, 100, PhaseStatus::Active),
    ];
    let mut p = ledger_with(phases, 5);
    assert!(!p.can_move_to_next_phase());
    assert!(!p.update_phase_status());
    assert_eq!(p.current_phase, 5);
}

#[test]
fn purchase_amounts_are_checked_against_both_limits() {
    let phases = vec![
        phase(1, 100, 40, PhaseStatus::Active),
        phase(2, 100, 0, PhaseStatus::Upcoming),
        phase(3, 100, 0, PhaseStatus::Upcoming),
        phase(4, 100, 0, PhaseStatus::Upcoming),
        phase(5, 100, 0, PhaseStatus::Upcoming),
    ];
    let p = ledger_with(phases, 1);
    assert!(p.is_valid_purchase_amount(60));
    assert!(!p.is_valid_purchase_amount(61));
}

#[test]
fn a_mismatched_catalog_fails_validation() {
    let phases = vec![
        phase(1, 100, 0, PhaseStatus::Active),
        phase(2, 100, 0, PhaseStatus::Upcoming),
        phase(3, 100, 0, PhaseStatus::Upcoming),
        phase(4, 100, 0, PhaseStatus::Upcoming),
        phase(5, 100, 0, PhaseStatus::Upcoming),
    ];
    let mut p = ledger_with(phases, 1);
    assert!(p.validate_phase_allocation());
    p.total_token_supply = 400;
    assert!(!p.validate_phase_allocation());
    p.total_token_supply = 500;
    p.phases[0].percentage = 25;
    assert!(!p.validate_phase_allocation());
}

#[test]
fn a_fresh_account_is_empty() {
    let u = UserInfo::new(addr(7));
    assert_eq!(u.wallet, addr(7));
    assert_eq!(u.tokens_bought, 0);
    assert_eq!(u.total_paid, 0);
    assert_eq!(u.phase_purchases, vec![0; 5]);
    assert_eq!(u.phase_claims, vec![false; 5]);
}

#[test]
fn recording_a_purchase_moves_all_three_totals() {
    let mut u = UserInfo::new(addr(7));
    u.record_purchase(2, 50, 10, 99).unwrap();
    assert_eq!(u.phase_purchases[1], 50);
    assert_eq!(u.tokens_bought, 50);
    assert_eq!(u.total_paid, 10);
    assert_eq!(u.last_purchase_time, 99);

    u.record_purchase(2, 25, 5, 100).unwrap();
    assert_eq!(u.phase_purchases[1], 75);
    assert_eq!(u.tokens_bought, 75);
    assert_eq!(u.total_paid, 15);
}

#[test]
fn recording_refuses_bad_phases_and_wraps() {
    let mut u = UserInfo::new(addr(7));
    assert_eq!(u.record_purchase(0, 50, 10, 1).unwrap_err(), PresaleError::InvalidPhase);
    assert_eq!(u.record_purchase(6, 50, 10, 1).unwrap_err(), PresaleError::InvalidPhase);

    u.record_purchase(1, u64::MAX, 0, 1).unwrap();
    let err = u.record_purchase(1, 1, 0, 2).unwrap_err();
    assert_eq!(err, PresaleError::Overflow);
    assert_eq!(u.phase_purchases[0], u64::MAX);
    assert_eq!(u.last_purchase_time, 1);
}

#[test]
fn phase_amounts_are_read_by_phase_number() {
    let mut u = UserInfo::new(addr(7));
    u.record_purchase(3, 40, 8, 1).unwrap();
    assert_eq!(u.get_phase_amount(3), Some(40));
    assert_eq!(u.get_phase_amount(1), Some(0));
    assert_eq!(u.get_phase_amount(0), None);
    assert_eq!(u.get_phase_amount(6), None);
}

#[test]
fn claims_need_a_purchase_and_an_open_phase() {
    let phases = vec![
        phase(1, 100, 50, PhaseStatus::Active),
        phase(2, 100, 0, PhaseStatus::Upcoming),
        phase(3, 100, 0, PhaseStatus::Upcoming),
        phase(4, 100, 0, PhaseStatus::Upcoming),
        phase(5, 100, 0, PhaseStatus::Upcoming),
    ];
    let p = ledger_with(phases, 1);
    let mut u = UserInfo::new(addr(7));

    assert_eq!(claim_token(&p, &mut u, 0, 1).unwrap_err(), PresaleError::InvalidPhase);
    assert_eq!(claim_token(&p, &mut u, 6, 1).unwrap_err(), PresaleError::InvalidPhase);
    // Nothing bought in phase one yet.
    assert_eq!(claim_token(&p, &mut u, 1, 1).unwrap_err(), PresaleError::InvalidPhase);

    // Bought in an upcoming phase: the phase has not started selling.
    u.record_purchase(2, 30, 6, 1).unwrap();
    assert_eq!(claim_token(&p, &mut u, 2, 1).unwrap_err(), PresaleError::PhaseNotActive);
}

#[test]
fn remaining_claimable_counts_open_unclaimed_phases() {
    let phases = vec![
        phase(1, 100, 50, PhaseStatus::Ended),
        phase(2, 100, 30, PhaseStatus::Active),
        phase(3, 100, 0, PhaseStatus::Upcoming),
        phase(4, 100, 0, PhaseStatus::Upcoming),
        phase(5, 100, 0, PhaseStatus::Upcoming),
    ];
    let p = ledger_with(phases, 2);
    let mut u = UserInfo::new(addr(7));
    u.record_purchase(1, 50, 10, 1).unwrap();
    u.record_purchase(2, 30, 6, 2).unwrap();
    // A purchase parked in an upcoming phase does not count as claimable.
    u.record_purchase(3, 20, 4, 3).unwrap();

    let receipt = claim_token(&p, &mut u, 1, 9).unwrap();
    assert_eq!(receipt.tokens_claimed, 50);
    assert_eq!(receipt.remaining_claimable, 30);
}
