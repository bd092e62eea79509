//! Opaque 32-byte account addresses, held as four plain machine words.
//!
//! The engine never interprets an address: it only compares addresses for
//! equality (the authority check) and stores them (the token mint, the
//! buyer's wallet). The caller converts between its own address format and
//! the four words, most significant word first.

use vstd::prelude::*;

verus! {

/// A 32-byte account address as four 64-bit words.
#[derive(Clone, Copy, Debug, PartialEq, Eq, Structural)]
pub struct Address {
    pub w0: u64,
    pub w1: u64,
    pub w2: u64,
    pub w3: u64,
}

} // verus!
