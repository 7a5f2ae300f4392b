//! The record the ledger keeps for each user.

use crate::config::MAX_SESSIONS;
use crate::history::{SessionHistory, SessionRecord};
use crate::identity::{Identity, IDENTITY_LEN};
use vstd::prelude::*;

verus! {

/// Whether an account has a session open, and since when.
#[derive(Clone, Copy, Debug, PartialEq, Eq, Structural)]
pub enum SessionState {
    /// No session is open.
    Idle,
    /// A session is open. `start_time` is the timestamp its opener gave; the
    /// ledger takes it as it comes and assumes nothing of its sign or of how
    /// it relates to earlier timestamps.
    Active { start_time: i64 },
}

/// The record of one user.
#[derive(Clone, Copy, Debug, PartialEq, Eq)]
pub struct UserAccount {
    /// Who may operate the account. Set when the account is created and
    /// never changed afterwards.
    pub owner: Identity,
    /// Prepaid funds, in the smallest currency unit.
    pub balance: u64,
    /// Whether a session is open. At most one is at any time.
    pub session_state: SessionState,
    /// When the most recent session was closed; 0 before the first one.
    pub end_time: i64,
    /// How many sessions were ever closed, including those that the history
    /// has dropped since.
    pub total_sessions: u32,
    /// The most recent closed sessions, oldest first.
    pub session_history: SessionHistory,
}

/// An account as the contracts see it: unbounded numbers and a sequence of
/// records.
pub struct AccountView {
    pub owner: Seq<u8>,
    pub balance: nat,
    pub session_state: SessionState,
    pub end_time: int,
    pub total_sessions: nat,
    pub session_history: Seq<SessionRecord>,
}

impl AccountView {
    /// The account is one that a `UserAccount` can hold.
    pub open spec fn representable(self) -> bool {
        &&& self.owner.len() == IDENTITY_LEN
        &&& self.balance <= u64::MAX
        &&& i64::MIN <= self.end_time <= i64::MAX
        &&& self.total_sessions <= u32::MAX
        &&& self.session_history.len() <= MAX_SESSIONS
    }

    /// The account of `owner` as it is created: no funds, no session, no
    /// history.
    pub open spec fn opened(owner: Seq<u8>) -> AccountView {
        AccountView {
            owner,
            balance: 0,
            session_state: SessionState::Idle,
            end_time: 0,
            total_sessions: 0,
            session_history: Seq::empty(),
        }
    }
}

impl View for UserAccount {
    type V = AccountView;

    open spec fn view(&self) -> AccountView {
        AccountView {
            owner: self.owner@,
            balance: self.balance as nat,
            session_state: self.session_state,
            end_time: self.end_time as int,
            total_sessions: self.total_sessions as nat,
            session_history: self.session_history@,
        }
    }
}

impl UserAccount {
    /// The account of `owner` as it is created.
    pub fn new(owner: Identity) -> (account: UserAccount)
        ensures
            account.owner == owner,
            account@ == AccountView::opened(owner@),
    {
        UserAccount {
            owner,
            balance: 0,
            session_state: SessionState::Idle,
            end_time: 0,
            total_sessions: 0,
            session_history: SessionHistory::new(),
        }
    }
}

} // verus!
