//! Settlement core of a ticketing marketplace.
//!
//! The marketplace sells tickets of events, directly and to agents that buy
//! for their owners within a budget, and lets tickets be resold at a fixed
//! price, by offers, or at a price that declines with time.
//!
//! Every operation is a total function from a snapshot of the records it
//! touches, the identities of those who signed and the current time to
//! either the updated records and the value to move, or a single
//! [`TixError`](error::TixError), in which case the records are left exactly
//! as they were. Nothing here reads a clock, moves value or stores a record:
//! the host loads the records that belong together, hands them over, and
//! carries out what comes back, all in one atomic step.
//!
//! [`laws`] states what holds of the marketplace whatever is asked of it.

pub mod error;
pub mod identity;
pub mod math;
pub mod state;
pub mod storage;
pub mod seeds;
pub mod constraints;
pub mod settlement;
pub mod admin;
pub mod events;
pub mod tier;
pub mod user;
pub mod agent;
pub mod escrow;
pub mod primary_market;
pub mod secondary_market;
pub mod mint;
pub mod laws;
