//! Fixed configuration of the sale: phase allocations, prices, caps.

use vstd::prelude::*;

verus! {

/// The sale token has nine decimal places; purchase amounts are expressed
/// in the token's smallest unit.
pub const TOKEN_DECIMALS: u8 = 9;

/// Smallest units per whole token.
pub const DECIMALS_MULTIPLIER: u64 = 1_000_000_000;

/// Number of pricing phases, fixed at creation.
pub const TOTAL_PHASES: usize = 5;

// Tokens allocated to each phase, in smallest units.
pub const PHASE_1_ALLOCATION: u64 = 50_000 * DECIMALS_MULTIPLIER;
pub const PHASE_2_ALLOCATION: u64 = 100_000 * DECIMALS_MULTIPLIER;
pub const PHASE_3_ALLOCATION: u64 = 350_000 * DECIMALS_MULTIPLIER;
pub const PHASE_4_ALLOCATION: u64 = 400_000 * DECIMALS_MULTIPLIER;
pub const PHASE_5_ALLOCATION: u64 = 100_000 * DECIMALS_MULTIPLIER;

/// Total supply on sale: the sum of all phase allocations.
pub const TOTAL_SUPPLY: u64 = PHASE_1_ALLOCATION + PHASE_2_ALLOCATION
    + PHASE_3_ALLOCATION + PHASE_4_ALLOCATION + PHASE_5_ALLOCATION;

// Price of one whole token in each phase, in base-currency minor units.
pub const PHASE_1_PRICE: u64 = 40_000;
pub const PHASE_2_PRICE: u64 = 23_000;
pub const PHASE_3_PRICE: u64 = 8_570;
pub const PHASE_4_PRICE: u64 = 9_000;
pub const PHASE_5_PRICE: u64 = 15_000;

// Minimum purchase per phase (soft cap), in smallest units.
pub const PHASE_1_MIN_PURCHASE: u64 = 100 * DECIMALS_MULTIPLIER;
pub const PHASE_2_MIN_PURCHASE: u64 = 200 * DECIMALS_MULTIPLIER;
pub const PHASE_3_MIN_PURCHASE: u64 = 300 * DECIMALS_MULTIPLIER;
pub const PHASE_4_MIN_PURCHASE: u64 = 400 * DECIMALS_MULTIPLIER;
pub const PHASE_5_MIN_PURCHASE: u64 = 500 * DECIMALS_MULTIPLIER;

// Maximum purchase per phase (hard cap): the whole phase allocation.
pub const PHASE_1_MAX_PURCHASE: u64 = PHASE_1_ALLOCATION;
pub const PHASE_2_MAX_PURCHASE: u64 = PHASE_2_ALLOCATION;
pub const PHASE_3_MAX_PURCHASE: u64 = PHASE_3_ALLOCATION;
pub const PHASE_4_MAX_PURCHASE: u64 = PHASE_4_ALLOCATION;
pub const PHASE_5_MAX_PURCHASE: u64 = PHASE_5_ALLOCATION;

// Share of the total supply each phase represents; the shares sum to 100.
pub const PHASE_1_PERCENTAGE: u8 = 5;
pub const PHASE_2_PERCENTAGE: u8 = 10;
pub const PHASE_3_PERCENTAGE: u8 = 35;
pub const PHASE_4_PERCENTAGE: u8 = 40;
pub const PHASE_5_PERCENTAGE: u8 = 10;

/// Cap on the tokens one address may buy within a phase, in smallest units.
pub const MAX_TOKENS_PER_ADDRESS: u64 = 20_000 * DECIMALS_MULTIPLIER;

} // verus!
