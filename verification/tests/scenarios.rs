//! End-to-end runs of the sale: whole-phase buyouts, over-asking, one-shot
//! claims, sell-out, and pausing.

use zexxcoin_presale::address::Address;
use zexxcoin_presale::constants::DECIMALS_MULTIPLIER;
use zexxcoin_presale::errors::PresaleError;
use zexxcoin_presale::instructions::buy_token::buy_token;
use zexxcoin_presale::instructions::claim_token::claim_token;
use zexxcoin_presale::instructions::emergency_stop::emergency_stop;
use zexxcoin_presale::instructions::resume_presale::resume_presale;
use zexxcoin_presale::state::phase_info::{Phase, PhaseStatus};
use zexxcoin_presale::state::presale_info::PresaleInfo;
use zexxcoin_presale::state::user_info::UserInfo;

const DM: u64 = DECIMALS_MULTIPLIER;

fn addr(n: u64) -> Address {
    Address { w0: n, w1: 0, w2: 0, w3: 0 }
}

fn authority() -> Address {
    addr(1)
}

/// A well-formed ledger with the given allocations and prices, phase one
/// active, nothing sold.
fn ledger(allocs: [u64; 5], prices: [u64; 5], max_per_address: u64) -> PresaleInfo {
    let mut phases = Vec::new();
    for i in 0..5 {
        phases.push(Phase {
            phase_number: (i + 1) as u8,
            amount: allocs[i],
            price: prices[i],
            percentage: 20,
            tokens_sold: 0,
            tokens_available: allocs[i],
            status: if i == 0 { PhaseStatus::Active } else { PhaseStatus::Upcoming },
            softcap: 0,
            hardcap: allocs[i],
        });
    }
    let total: u64 = allocs.iter().sum();
    PresaleInfo {
        token_mint_address: addr(9),
        total_token_supply: total,
        remaining_tokens: total,
        current_phase: 1,
        phases,
        total_tokens_sold: 0,
        total_tokens_deposited: 0,
        start_time: 0,
        end_time: 0,
        max_token_amount_per_address: max_per_address,
        authority: authority(),
        is_initialized: true,
        is_active: true,
        is_ended: false,
        is_paused: false,
        display_end_time: 0,
    }
}

#[test]
fn whole_phase_buyout_advances_and_prices() {
    // Phase one: 1000 tokens at 2 minor units each. Buying all 1000 empties
    // the phase, ends it, hands over to phase two, and costs 2000.
    let mut p = ledger([1000 * DM; 5], [2, 3, 4, 5, 6], 1000 * DM);
    let mut u = UserInfo::new(addr(7));

    let receipt = buy_token(&mut p, &mut u, 1000 * DM, 11).unwrap();
    assert_eq!(receipt.tokens_purchased, 1000 * DM);
    assert_eq!(receipt.payment_amount, 2000);
    assert_eq!(receipt.current_phase, 2);
    assert_eq!(receipt.phase_fill_percentage, 100);

    assert_eq!(p.phases[0].tokens_available, 0);
    assert_eq!(p.phases[0].tokens_sold, 1000 * DM);
    assert_eq!(p.phases[0].status, PhaseStatus::Ended);
    assert_eq!(p.phases[1].status, PhaseStatus::Active);
    assert_eq!(p.current_phase, 2);
    assert_eq!(p.total_tokens_sold, 1000 * DM);
    assert_eq!(p.remaining_tokens, 4000 * DM);
    assert!(!p.is_ended);

    assert_eq!(u.phase_purchases[0], 1000 * DM);
    assert_eq!(u.tokens_bought, 1000 * DM);
    assert_eq!(u.total_paid, 2000);
    assert_eq!(u.last_purchase_time, 11);
}

#[test]
fn over_asking_is_rejected_and_changes_nothing() {
    // 400 of 1000 are bought; asking for 700 more exceeds the 600 available
    // and leaves every counter as the first purchase left it.
    let mut p = ledger([1000 * DM; 5], [2; 5], 1000 * DM);
    let mut u = UserInfo::new(addr(7));

    buy_token(&mut p, &mut u, 400 * DM, 5).unwrap();
    let phases_before = p.phases.clone();
    let sold_before = p.total_tokens_sold;
    let remaining_before = p.remaining_tokens;
    let user_purchases_before = u.phase_purchases.clone();
    let paid_before = u.total_paid;

    let err = buy_token(&mut p, &mut u, 700 * DM, 6).unwrap_err();
    assert_eq!(err, PresaleError::InsufficientTokens);

    assert_eq!(p.phases, phases_before);
    assert_eq!(p.total_tokens_sold, sold_before);
    assert_eq!(p.remaining_tokens, remaining_before);
    assert_eq!(p.current_phase, 1);
    assert_eq!(u.phase_purchases, user_purchases_before);
    assert_eq!(u.total_paid, paid_before);
    assert_eq!(u.last_purchase_time, 5);
}

#[test]
fn claim_succeeds_once_and_only_once() {
    // The buyer owns 100 tokens of phase one; the first claim hands them
    // over, the second is refused and moves nothing.
    let mut p = ledger([1000 * DM; 5], [2; 5], 1000 * DM);
    let mut u = UserInfo::new(addr(7));
    buy_token(&mut p, &mut u, 100 * DM, 5).unwrap();

    let receipt = claim_token(&p, &mut u, 1, 20).unwrap();
    assert_eq!(receipt.tokens_claimed, 100 * DM);
    assert_eq!(receipt.remaining_claimable, 0);
    assert!(u.phase_claims[0]);
    assert_eq!(u.last_purchase_time, 20);

    let err = claim_token(&p, &mut u, 1, 30).unwrap_err();
    assert_eq!(err, PresaleError::UserAlreadyClaimed);
    assert!(u.phase_claims[0]);
    assert_eq!(u.phase_purchases[0], 100 * DM);
    assert_eq!(u.last_purchase_time, 20);
}

#[test]
fn sell_out_ends_the_sale() {
    // Everything on sale sits in phase one; buying it all drops the
    // remainder to zero and ends the sale, and any further purchase is
    // refused as ended.
    let mut p = ledger([100 * DM, 0, 0, 0, 0], [2; 5], 100 * DM);
    let mut u = UserInfo::new(addr(7));

    buy_token(&mut p, &mut u, 100 * DM, 5).unwrap();
    assert_eq!(p.remaining_tokens, 0);
    assert!(p.is_ended);
    assert!(!p.is_active);

    let mut other = UserInfo::new(addr(8));
    let err = buy_token(&mut p, &mut other, 1, 6).unwrap_err();
    assert_eq!(err, PresaleError::PresaleEnded);
}

#[test]
fn pause_blocks_purchases_but_not_claims() {
    let mut p = ledger([1000 * DM; 5], [2; 5], 1000 * DM);
    let mut u = UserInfo::new(addr(7));
    buy_token(&mut p, &mut u, 100 * DM, 5).unwrap();

    emergency_stop(&mut p, authority()).unwrap();
    assert!(p.is_paused);

    let err = buy_token(&mut p, &mut u, 100 * DM, 6).unwrap_err();
    assert_eq!(err, PresaleError::PresalePaused);

    let receipt = claim_token(&p, &mut u, 1, 7).unwrap();
    assert_eq!(receipt.tokens_claimed, 100 * DM);

    resume_presale(&mut p, authority(), 99).unwrap();
    assert!(!p.is_paused);
    assert_eq!(p.display_end_time, 99);
    buy_token(&mut p, &mut u, 100 * DM, 8).unwrap();
}

#[test]
fn books_balance_and_one_phase_active_after_purchases() {
    // The ledger invariants on concrete runs: the totals mirror the phase
    // counters and exactly one phase is active while the sale runs.
    let mut p = ledger([200 * DM, 300 * DM, 400 * DM, 500 * DM, 600 * DM], [2; 5], 2000 * DM);
    let mut u = UserInfo::new(addr(7));
    buy_token(&mut p, &mut u, 150 * DM, 1).unwrap();
    buy_token(&mut p, &mut u, 50 * DM, 2).unwrap();
    buy_token(&mut p, &mut u, 120 * DM, 3).unwrap();

    let sum_sold: u64 = p.phases.iter().map(|ph| ph.tokens_sold).sum();
    assert_eq!(p.total_tokens_sold, sum_sold);
    assert_eq!(p.remaining_tokens, p.total_token_supply - sum_sold);
    let active = p.phases.iter().filter(|ph| ph.status == PhaseStatus::Active).count();
    assert_eq!(active, 1);
    assert_eq!(p.phases[0].status, PhaseStatus::Ended);
    assert_eq!(p.current_phase, 2);
    assert_eq!(p.phases[1].tokens_sold, 120 * DM);
}

#[test]
fn sold_and_remaining_move_one_way() {
    let mut p = ledger([1000 * DM; 5], [2; 5], 1000 * DM);
    let mut u = UserInfo::new(addr(7));
    let mut last_sold = p.total_tokens_sold;
    let mut last_remaining = p.remaining_tokens;
    let mut last_phase_sold = p.phases[0].tokens_sold;
    for step in 0..4u64 {
        let _ = buy_token(&mut p, &mut u, 100 * DM, step as i64);
        assert!(p.total_tokens_sold >= last_sold);
        assert!(p.remaining_tokens <= last_remaining);
        assert!(p.phases[0].tokens_sold >= last_phase_sold);
        last_sold = p.total_tokens_sold;
        last_remaining = p.remaining_tokens;
        last_phase_sold = p.phases[0].tokens_sold;
    }
}
