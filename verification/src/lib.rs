//! A HyperLogLog cardinality estimator.
//!
//! The estimator keeps `2^index_bits` one-byte registers. Each added value is
//! hashed to 32 bits; the top `index_bits` of the hash pick a register, and the
//! register keeps the maximum rank (trailing-zero run of the remaining bits,
//! plus one) seen so far. A harness reads the registers back and applies the
//! bias-corrected harmonic-mean formula to estimate how many distinct values
//! were added.

pub mod helpers;
pub mod hll;

pub use hll::HyperLogLog;

use vstd::prelude::*;

verus! {

/// The estimator's errors.
///
/// `InvalidPrecision` carries the rejected number of index bits.
/// `Overflow` reports a register count that would not fit in `usize`.
#[derive(Debug, Clone, Copy, PartialEq, Eq, Structural)]
pub enum HllError {
    InvalidPrecision(u8),
    Overflow,
}

} // verus!
