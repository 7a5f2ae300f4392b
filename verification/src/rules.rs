//! The rules of the ledger, as functions on account views.
//!
//! Each operation has one function here. It says, for an account and the
//! arguments of a request, either what the account looks like once the
//! request has gone through or why the ledger refuses it. The checks are
//! listed in the order in which they are made, so that a request which fails
//! several of them is refused for the first. A refused request leaves the
//! account as it was.
//!
//! `Request` gathers the requests that change an account, and `after` says
//! what a request leaves of an account, whether it goes through or not.

use crate::account::{AccountView, SessionState};
use crate::config::{MIN_SESSION_BALANCE, RATE_PER_MINUTE, SECONDS_PER_MINUTE};
use crate::error::ErrorCode;
use crate::history::{appended, SessionRecord};
use vstd::prelude::*;

verus! {

/// Whether `caller` may operate `account`: only its owner may.
pub open spec fn authorized(account: AccountView, caller: Seq<u8>) -> bool {
    caller == account.owner
}

/// The part of the balance that can be spent on a new session or taken out.
///
/// It is the whole balance. Every closed session has been paid for out of the
/// balance at the moment it was closed, so the history holds no claim on what
/// is left; and an open session is charged when it is closed, not while it
/// runs.
pub open spec fn free_balance(account: AccountView) -> nat {
    account.balance
}

/// The full minutes between `start_time` and `end_time`; a minute that has
/// only begun does not count.
pub open spec fn session_minutes(start_time: int, end_time: int) -> int {
    (end_time - start_time) / (SECONDS_PER_MINUTE as int)
}

/// The price of a session from `start_time` to `end_time`.
pub open spec fn session_cost(start_time: int, end_time: int) -> int {
    session_minutes(start_time, end_time) * (RATE_PER_MINUTE as int)
}

/// Adding `amount` to the balance.
pub open spec fn deposit_outcome(account: AccountView, caller: Seq<u8>, amount: nat) -> Result<
    AccountView,
    ErrorCode,
> {
    if !authorized(account, caller) {
        Err(ErrorCode::Unauthorized)
    } else if account.balance + amount > u64::MAX {
        Err(ErrorCode::CalculationOverflow)
    } else {
        Ok(AccountView { balance: account.balance + amount, ..account })
    }
}

/// Opening a session at `timestamp`.
pub open spec fn start_outcome(account: AccountView, caller: Seq<u8>, timestamp: i64) -> Result<
    AccountView,
    ErrorCode,
> {
    if !authorized(account, caller) {
        Err(ErrorCode::Unauthorized)
    } else if account.session_state is Active {
        Err(ErrorCode::AlreadyInSession)
    } else if free_balance(account) < MIN_SESSION_BALANCE {
        Err(ErrorCode::InsufficientBalance)
    } else {
        Ok(AccountView { session_state: SessionState::Active { start_time: timestamp }, ..account })
    }
}

/// Closing the open session at `timestamp` and charging for it.
pub open spec fn end_outcome(account: AccountView, caller: Seq<u8>, timestamp: i64) -> Result<
    AccountView,
    ErrorCode,
> {
    if !authorized(account, caller) {
        Err(ErrorCode::Unauthorized)
    } else {
        match account.session_state {
            SessionState::Idle => Err(ErrorCode::NotInSession),
            SessionState::Active { start_time } => {
                let cost = session_cost(start_time as int, timestamp as int);
                if timestamp <= start_time {
                    Err(ErrorCode::InvalidEndTime)
                } else if cost > u64::MAX {
                    Err(ErrorCode::CalculationOverflow)
                } else if account.balance < cost {
                    Err(ErrorCode::InsufficientBalance)
                } else if account.total_sessions + 1 > u32::MAX {
                    Err(ErrorCode::CalculationOverflow)
                } else {
                    Ok(
                        AccountView {
                            owner: account.owner,
                            balance: (account.balance - cost) as nat,
                            session_state: SessionState::Idle,
                            end_time: timestamp as int,
                            total_sessions: account.total_sessions + 1,
                            session_history: appended(
                                account.session_history,
                                SessionRecord { start_time, end_time: timestamp, cost: cost as u64 },
                            ),
                        },
                    )
                }
            },
        }
    }
}

/// Taking `amount` out of the balance.
pub open spec fn reclaim_outcome(account: AccountView, caller: Seq<u8>, amount: nat) -> Result<
    AccountView,
    ErrorCode,
> {
    if !authorized(account, caller) {
        Err(ErrorCode::Unauthorized)
    } else if account.session_state is Active {
        Err(ErrorCode::ActiveSession)
    } else if amount > free_balance(account) {
        Err(ErrorCode::InsufficientBalance)
    } else {
        Ok(AccountView { balance: (account.balance - amount) as nat, ..account })
    }
}

/// Asking for the free balance.
pub open spec fn balance_outcome(account: AccountView, caller: Seq<u8>) -> Result<nat, ErrorCode> {
    if !authorized(account, caller) {
        Err(ErrorCode::Unauthorized)
    } else {
        Ok(free_balance(account))
    }
}

/// A request that changes an account, as the rules see it.
pub enum Request {
    /// A deposit of `amount`; `transferred` says whether the transfer that
    /// brings the funds into custody succeeds. A deposit of nothing needs no
    /// transfer.
    Deposit { caller: Seq<u8>, amount: nat, transferred: bool },
    /// The opening of a session at `timestamp`.
    StartSession { caller: Seq<u8>, timestamp: i64 },
    /// The closing of the open session at `timestamp`.
    EndSession { caller: Seq<u8>, timestamp: i64 },
    /// A withdrawal of `amount`; `transferred` says whether the transfer that
    /// gives the funds back succeeds.
    Reclaim { caller: Seq<u8>, amount: nat, transferred: bool },
}

impl Request {
    /// Who makes the request.
    pub open spec fn caller(self) -> Seq<u8> {
        match self {
            Request::Deposit { caller, .. } => caller,
            Request::StartSession { caller, .. } => caller,
            Request::EndSession { caller, .. } => caller,
            Request::Reclaim { caller, .. } => caller,
        }
    }
}

/// The account after `request` has gone through, or `None` where the ledger
/// refuses the request or the transfer it needs fails.
pub open spec fn carried_out(account: AccountView, request: Request) -> Option<AccountView> {
    match request {
        Request::Deposit { caller, amount, transferred } => match deposit_outcome(
            account,
            caller,
            amount,
        ) {
            Ok(next) => if transferred || amount == 0 {
                Some(next)
            } else {
                None
            },
            Err(_) => None,
        },
        Request::StartSession { caller, timestamp } => match start_outcome(
            account,
            caller,
            timestamp,
        ) {
            Ok(next) => Some(next),
            Err(_) => None,
        },
        Request::EndSession { caller, timestamp } => match end_outcome(account, caller, timestamp) {
            Ok(next) => Some(next),
            Err(_) => None,
        },
        Request::Reclaim { caller, amount, transferred } => match reclaim_outcome(
            account,
            caller,
            amount,
        ) {
            Ok(next) => if transferred {
                Some(next)
            } else {
                None
            },
            Err(_) => None,
        },
    }
}

/// The account after `request` has been made: changed where the request goes
/// through, as it was where it does not.
pub open spec fn after(account: AccountView, request: Request) -> AccountView {
    match carried_out(account, request) {
        Some(next) => next,
        None => account,
    }
}

} // verus!
