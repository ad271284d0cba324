//! A verified model of a token-store settlement program.
//!
//! The library models the instruction processor of a two-sided token/currency
//! exchange: one privileged "store" wallet sells a fungible token at an
//! admin-settable unit price and buys it back at the same price, settling the
//! counter-leg in the native currency.  Accounts are modelled as plain
//! values; each operation handler is a verified all-or-nothing transition on
//! the supplied account list.

pub mod account;
pub mod error;
pub mod host;
pub mod instruction;
pub mod laws;
pub mod processor;
pub mod pubkey;
pub mod store;
pub mod utils;
