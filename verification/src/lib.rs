//! A metered-usage ledger.
//!
//! Each user holds one prepaid account. Funds are deposited into it, a session
//! is opened against it and, when the session is closed, the minutes it lasted
//! are charged to the balance at a flat rate. Funds that are not needed can be
//! reclaimed while no session is open.

pub mod account;
pub mod config;
pub mod custody;
pub mod error;
pub mod history;
pub mod identity;
pub mod laws;
pub mod ledger;
pub mod rules;

pub use account::{AccountView, SessionState, UserAccount};
pub use custody::{Holder, Transfer};
pub use config::{MAX_SESSIONS, MIN_SESSION_BALANCE, RATE_PER_MINUTE, SECONDS_PER_MINUTE};
pub use error::{ErrorCode, LedgerError};
pub use history::{SessionHistory, SessionRecord};
pub use identity::Identity;
pub use ledger::{
    calculate_free_balance, check_free_balance, deposit_funds, end_session, initialize_user,
    prepare_deposit, prepare_reclaim, reclaim_funds, start_session, CheckBalance, DepositFunds,
    EndSession, FreeBalanceEvent, InitializeUser, ReclaimFunds, StartSession,
};
