//! A state-transition validator for a linear-vesting token stream on a
//! UTXO-style ledger.
//!
//! A stream escrows a fixed `total_amount` and releases it linearly between
//! `start_time` and `end_time` to a pinned beneficiary. Given a view of a
//! candidate ledger transaction, the validator decides whether the
//! transaction legally creates a new stream (CREATE) or legally claims from
//! an existing one (CLAIM), enforcing the schedule, monotonicity of the
//! claimed amount, and exact conservation between the application state and
//! the native coin amounts moving alongside it.

pub mod state;
pub mod transaction;
pub mod validate;
pub mod laws;
