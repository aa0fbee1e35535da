//! A private-ballot governance engine.
//!
//! Members propose actions, vote by commit-reveal so no choice is visible
//! before the deadline, and — once quorum and threshold are met — release a
//! guarded treasury action after a timelock during which an authority may
//! veto.  The host environment (storage, clock, value transfer) supplies each
//! operation with plain values and applies the returned state; every state
//! transition here is a pure, verified function.

use vstd::prelude::*;

pub mod config;
pub mod execute;
pub mod hashing;
pub mod keys;
pub mod math;
pub mod proposal;
pub mod state;
pub mod tally;
pub mod voting;
pub mod weights;

verus! {

/// Lamports paid to the caller of a successful reveal, best effort.
pub const REVEAL_REBATE_LAMPORTS: u64 = 1_000_000;

/// Default timelock between a proposal passing and its action executing.
pub const DEFAULT_EXECUTION_DELAY: i64 = 86_400;

/// Shortest reveal window a DAO may be configured with.
pub const MIN_REVEAL_WINDOW_SECONDS: i64 = 5;

/// Shortest voting period a proposal may be created with.
pub const MIN_VOTING_DURATION_SECONDS: i64 = 5;

} // verus!
