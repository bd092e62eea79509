//! Accounting engine for a multi-phase token sale.
//!
//! The sale splits a fixed token supply across sequential pricing phases.
//! Purchases are admitted against the currently active phase, per-phase and
//! per-buyer caps are enforced, the cost of a purchase is computed in the
//! base currency, and a phase that sells out hands over to the next one.
//! After buying, each participant may withdraw ("claim") the tokens bought
//! in a phase exactly once.
//!
//! The engine is pure bookkeeping: identity verification, persistence and
//! the actual movement of funds are left to the caller, which runs each
//! operation as one externally serialized transaction.

pub mod address;
pub mod constants;
pub mod errors;
pub mod instructions;
pub mod laws;
pub mod state;
