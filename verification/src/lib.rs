//! A tokenized-vault accounting engine and a market-maker orchestrator.
//!
//! The crate models the ledger-resident state of each component as plain
//! data: a vault owns its share ledger and share allowances, a token ledger
//! owns balances and asset allowances, and a market couples two vaults
//! around a single future event.  Every operation is a verified function
//! from the old state and the host readings (current timestamp, current
//! ledger sequence) to the new state and a typed result; the host's own
//! facilities (persistent storage, authorization, event publication) stay
//! outside this crate.

pub mod allowance;
pub mod errors;
pub mod market;
pub mod math;
pub mod table;
pub mod token;
pub mod vault;
