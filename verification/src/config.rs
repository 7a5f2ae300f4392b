//! The fixed parameters of the ledger.

use vstd::prelude::*;

verus! {

/// Price of one minute of session time, in the smallest currency unit.
pub const RATE_PER_MINUTE: u64 = 100_000;

/// The free balance an account needs before a session may be opened:
/// enough to pay for ten minutes.
pub const MIN_SESSION_BALANCE: u64 = RATE_PER_MINUTE * 10;

/// The length of a minute in the unit of the timestamps, which is the second.
pub const SECONDS_PER_MINUTE: i64 = 60;

/// The number of closed sessions an account remembers.
pub const MAX_SESSIONS: usize = 10;

} // verus!
