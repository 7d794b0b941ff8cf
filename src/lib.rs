//! A threshold multisignature engine: a set of owners controls a wallet, and a
//! proposal to move value from it runs once, and only once, enough of them have
//! approved it.
//!
//! `state` holds the records and their model, `checks` the shared validation,
//! `instructions` the four operations with the exact outcome of each, and `laws`
//! what holds across calls.

pub mod checks;
pub mod error;
pub mod instructions;
pub mod key;
pub mod laws;
pub mod state;
