//! The price store: its scalar types and its persisted record.

use vstd::prelude::*;

pub mod account;

verus! {

/// A unit price, in native base units per base token unit.
pub type Price = u64;

/// A quantity: base token units for trades, lamports for funding.
pub type Amount = u64;

} // verus!
