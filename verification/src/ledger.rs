//! The operations of the ledger.
//!
//! Every operation works on a request: the identity of the caller, which has
//! been authenticated before the request reaches the ledger, and the account
//! the request is addressed to, if the store holds one. An operation checks
//! everything before it changes anything, so a request that is refused leaves
//! no trace.

use crate::account::{AccountView, SessionState, UserAccount};
use crate::config::{MAX_SESSIONS, MIN_SESSION_BALANCE, RATE_PER_MINUTE, SECONDS_PER_MINUTE};
use crate::custody::{Holder, Transfer};
use crate::error::{ErrorCode, LedgerError};
use crate::history::SessionRecord;
use crate::identity::Identity;
use crate::rules::{
    after, balance_outcome, deposit_outcome, end_outcome, free_balance, reclaim_outcome,
    session_cost, start_outcome, Request,
};
use anchor_lang::error::Error;
use vstd::prelude::*;

verus! {

/// A request to create the account of `user`.
#[derive(Clone, Copy, Debug, PartialEq, Eq)]
pub struct InitializeUser {
    /// The caller.
    pub user: Identity,
    /// The place of the caller's account in the store: empty before the
    /// account is created.
    pub user_account: Option<UserAccount>,
}

/// A request to add funds to an account.
#[derive(Clone, Copy, Debug, PartialEq, Eq)]
pub struct DepositFunds {
    /// The caller.
    pub user: Identity,
    /// The account addressed, if the store holds it.
    pub user_account: Option<UserAccount>,
}

/// A request to take funds out of an account.
#[derive(Clone, Copy, Debug, PartialEq, Eq)]
pub struct ReclaimFunds {
    /// The caller.
    pub user: Identity,
    /// The account addressed, if the store holds it.
    pub user_account: Option<UserAccount>,
}

/// A request to open a session.
#[derive(Clone, Copy, Debug, PartialEq, Eq)]
pub struct StartSession {
    /// The caller.
    pub user: Identity,
    /// The account addressed, if the store holds it.
    pub user_account: Option<UserAccount>,
}

/// A request to close the open session.
#[derive(Clone, Copy, Debug, PartialEq, Eq)]
pub struct EndSession {
    /// The caller.
    pub user: Identity,
    /// The account addressed, if the store holds it.
    pub user_account: Option<UserAccount>,
}

/// A request to learn the free balance.
#[derive(Clone, Copy, Debug, PartialEq, Eq)]
pub struct CheckBalance {
    /// The caller.
    pub user: Identity,
    /// The account addressed, if the store holds it.
    pub user_account: Option<UserAccount>,
}

/// The answer to a `CheckBalance` request, to be made known to whoever
/// listens to the ledger.
#[derive(Clone, Copy, Debug, PartialEq, Eq)]
pub struct FreeBalanceEvent {
    /// The owner of the account.
    pub user: Identity,
    /// What the owner can spend on a new session or take out.
    pub free_balance: u64,
}

/// Creates the account of the caller.
///
/// The new account belongs to the caller and has no funds, no open session
/// and no history. Where the caller has an account already, the request is
/// refused with `AlreadyExists` and that account stays as it is.
pub fn initialize_user(ctx: &mut InitializeUser) -> (result: Result<(), ErrorCode>)
    ensures
        final(ctx).user == old(ctx).user,
        match old(ctx).user_account {
            None => {
                &&& result is Ok
                &&& final(ctx).user_account matches Some(account)
                &&& account.owner == old(ctx).user
                &&& account@ == AccountView::opened(old(ctx).user@)
            },
            Some(_) => {
                &&& result == Err::<(), ErrorCode>(ErrorCode::AlreadyExists)
                &&& *final(ctx) == *old(ctx)
            },
        },
{
    if ctx.user_account.is_some() {
        return Err(ErrorCode::AlreadyExists);
    }
    ctx.user_account = Some(UserAccount::new(ctx.user));
    Ok(())
}

/// The free balance of `user_account`: what can be spent on a new session or
/// taken out. It is the whole balance, see `rules::free_balance`.
pub fn calculate_free_balance(user_account: &UserAccount) -> (free: u64)
    ensures
        free == free_balance(user_account@),
{
    user_account.balance
}

/// Says which transfer a deposit of `amount` needs, or why the deposit cannot
/// be made. Nothing is changed.
///
/// A deposit of nothing needs no transfer. Any other deposit needs `amount`
/// to be brought from the caller into custody: that transfer is to be
/// attempted only if this function asks for it, and how it went is then told
/// to `deposit_funds`, with the same request and amount.
pub fn prepare_deposit(ctx: &DepositFunds, amount: u64) -> (result: Result<
    Option<Transfer>,
    ErrorCode,
>)
    ensures
        match ctx.user_account {
            None => result == Err::<Option<Transfer>, ErrorCode>(ErrorCode::NotFound),
            Some(account) => match deposit_outcome(account@, ctx.user@, amount as nat) {
                Ok(_) => result == Ok::<Option<Transfer>, ErrorCode>(
                    if amount == 0 {
                        None
                    } else {
                        Some(Transfer::inward(ctx.user, amount))
                    },
                ),
                Err(code) => result == Err::<Option<Transfer>, ErrorCode>(code),
            },
        },
{
    match &ctx.user_account {
        None => Err(ErrorCode::NotFound),
        Some(account) => {
            if ctx.user != account.owner {
                return Err(ErrorCode::Unauthorized);
            }
            if account.balance.checked_add(amount).is_none() {
                return Err(ErrorCode::CalculationOverflow);
            }
            if amount == 0 {
                return Ok(None);
            }
            Ok(
                Some(
                    Transfer {
                        source: Holder::User(ctx.user),
                        destination: Holder::Custody(ctx.user),
                        amount,
                    },
                ),
            )
        },
    }
}

/// Adds `amount` to the balance, once the transfer that brought the funds
/// into custody has been attempted; `transfer` says how it went.
///
/// The caller must own the account and the new balance must fit into 64
/// bits. Where the ledger refuses the deposit for one of these reasons, or
/// where the transfer has failed, the account stays as it is; the error of a
/// failed transfer is handed on as it came. A deposit of nothing is no error
/// and changes nothing: it needs no transfer, and `transfer` is not looked
/// at.
pub fn deposit_funds(ctx: &mut DepositFunds, amount: u64, transfer: Result<(), Error>) -> (result:
    Result<(), LedgerError>)
    ensures
        final(ctx).user == old(ctx).user,
        match old(ctx).user_account {
            None => {
                &&& result == Err::<(), LedgerError>(LedgerError::Refused(ErrorCode::NotFound))
                &&& *final(ctx) == *old(ctx)
            },
            Some(before) => {
                let caller = old(ctx).user@;
                let request = Request::Deposit {
                    caller,
                    amount: amount as nat,
                    transferred: transfer is Ok,
                };
                &&& final(ctx).user_account matches Some(now)
                &&& now.owner == before.owner
                &&& now@ == after(before@, request)
                &&& result is Err ==> *final(ctx) == *old(ctx)
                &&& caller != before.owner@ ==> result == Err::<(), LedgerError>(
                    LedgerError::Refused(ErrorCode::Unauthorized),
                )
                &&& match deposit_outcome(before@, caller, amount as nat) {
                    Err(code) => result == Err::<(), LedgerError>(LedgerError::Refused(code)),
                    Ok(next) => match transfer {
                        Err(failure) if amount > 0 => result == Err::<(), LedgerError>(
                            LedgerError::Transfer(failure),
                        ),
                        _ => result is Ok && now@ == next,
                    },
                }
            },
        },
{
    let caller = ctx.user;
    match &mut ctx.user_account {
        None => Err(LedgerError::Refused(ErrorCode::NotFound)),
        Some(account) => {
            if caller != account.owner {
                return Err(LedgerError::Refused(ErrorCode::Unauthorized));
            }
            let balance: u64 = match account.balance.checked_add(amount) {
                None => {
                    return Err(LedgerError::Refused(ErrorCode::CalculationOverflow));
                },
                Some(balance) => balance,
            };
            if amount == 0 {
                return Ok(());
            }
            match transfer {
                Err(failure) => Err(LedgerError::Transfer(failure)),
                Ok(_) => {
                    account.balance = balance;
                    Ok(())
                },
            }
        },
    }
}

/// Says which transfer a withdrawal of `amount` needs, or why the withdrawal
/// cannot be made. Nothing is changed.
///
/// The transfer is to be attempted only if this function asks for it; how it
/// went is then told to `reclaim_funds`, with the same request and amount.
pub fn prepare_reclaim(ctx: &ReclaimFunds, amount: u64) -> (result: Result<Transfer, ErrorCode>)
    ensures
        match ctx.user_account {
            None => result == Err::<Transfer, ErrorCode>(ErrorCode::NotFound),
            Some(account) => match reclaim_outcome(account@, ctx.user@, amount as nat) {
                Ok(_) => result == Ok::<Transfer, ErrorCode>(Transfer::outward(ctx.user, amount)),
                Err(code) => result == Err::<Transfer, ErrorCode>(code),
            },
        },
{
    match &ctx.user_account {
        None => Err(ErrorCode::NotFound),
        Some(account) => {
            if ctx.user != account.owner {
                return Err(ErrorCode::Unauthorized);
            }
            match account.session_state {
                SessionState::Active { .. } => {
                    return Err(ErrorCode::ActiveSession);
                },
                SessionState::Idle => {},
            }
            if amount > calculate_free_balance(account) {
                return Err(ErrorCode::InsufficientBalance);
            }
            Ok(
                Transfer {
                    source: Holder::Custody(ctx.user),
                    destination: Holder::User(ctx.user),
                    amount,
                },
            )
        },
    }
}

/// Takes `amount` out of the balance, once the transfer that gave the funds
/// back to the caller has been attempted; `transfer` says how it went.
///
/// The caller must own the account, no session may be open, and `amount` may
/// not exceed the free balance. Where the ledger refuses the withdrawal for
/// one of these reasons, or where the transfer has failed, the account stays
/// as it is; the error of a failed transfer is handed on as it came.
pub fn reclaim_funds(ctx: &mut ReclaimFunds, amount: u64, transfer: Result<(), Error>) -> (result:
    Result<(), LedgerError>)
    ensures
        final(ctx).user == old(ctx).user,
        match old(ctx).user_account {
            None => {
                &&& result == Err::<(), LedgerError>(LedgerError::Refused(ErrorCode::NotFound))
                &&& *final(ctx) == *old(ctx)
            },
            Some(before) => {
                let caller = old(ctx).user@;
                let request = Request::Reclaim {
                    caller,
                    amount: amount as nat,
                    transferred: transfer is Ok,
                };
                &&& final(ctx).user_account matches Some(now)
                &&& now.owner == before.owner
                &&& now@ == after(before@, request)
                &&& result is Err ==> *final(ctx) == *old(ctx)
                &&& caller != before.owner@ ==> result == Err::<(), LedgerError>(
                    LedgerError::Refused(ErrorCode::Unauthorized),
                )
                &&& caller == before.owner@ && before.session_state is Active ==> result == Err::<
                    (),
                    LedgerError,
                >(LedgerError::Refused(ErrorCode::ActiveSession))
                &&& match reclaim_outcome(before@, caller, amount as nat) {
                    Err(code) => result == Err::<(), LedgerError>(LedgerError::Refused(code)),
                    Ok(next) => match transfer {
                        Err(failure) => result == Err::<(), LedgerError>(
                            LedgerError::Transfer(failure),
                        ),
                        Ok(_) => result is Ok && now@ == next,
                    },
                }
            },
        },
{
    let caller = ctx.user;
    match &mut ctx.user_account {
        None => Err(LedgerError::Refused(ErrorCode::NotFound)),
        Some(account) => {
            if caller != account.owner {
                return Err(LedgerError::Refused(ErrorCode::Unauthorized));
            }
            match account.session_state {
                SessionState::Active { .. } => {
                    return Err(LedgerError::Refused(ErrorCode::ActiveSession));
                },
                SessionState::Idle => {},
            }
            if amount > calculate_free_balance(account) {
                return Err(LedgerError::Refused(ErrorCode::InsufficientBalance));
            }
            match transfer {
                Err(failure) => Err(LedgerError::Transfer(failure)),
                Ok(_) => {
                    account.balance = account.balance - amount;
                    Ok(())
                },
            }
        },
    }
}

/// Opens a session at `timestamp`.
///
/// The caller must own the account, no session may be open, and the free
/// balance must be at least `MIN_SESSION_BALANCE`. Nothing but the state of
/// the session changes.
pub fn start_session(ctx: &mut StartSession, timestamp: i64) -> (result: Result<(), ErrorCode>)
    ensures
        final(ctx).user == old(ctx).user,
        match old(ctx).user_account {
            None => {
                &&& result == Err::<(), ErrorCode>(ErrorCode::NotFound)
                &&& *final(ctx) == *old(ctx)
            },
            Some(before) => {
                let caller = old(ctx).user@;
                let request = Request::StartSession { caller, timestamp };
                &&& final(ctx).user_account matches Some(now)
                &&& now.owner == before.owner
                &&& now@ == after(before@, request)
                &&& result is Err ==> *final(ctx) == *old(ctx)
                &&& caller != before.owner@ ==> result == Err::<(), ErrorCode>(
                    ErrorCode::Unauthorized,
                )
                &&& match start_outcome(before@, caller, timestamp) {
                    Err(code) => result == Err::<(), ErrorCode>(code),
                    Ok(next) => result is Ok && now@ == next,
                }
            },
        },
{
    let caller = ctx.user;
    match &mut ctx.user_account {
        None => Err(ErrorCode::NotFound),
        Some(account) => {
            if caller != account.owner {
                return Err(ErrorCode::Unauthorized);
            }
            match account.session_state {
                SessionState::Active { .. } => {
                    return Err(ErrorCode::AlreadyInSession);
                },
                SessionState::Idle => {},
            }
            if calculate_free_balance(account) < MIN_SESSION_BALANCE {
                return Err(ErrorCode::InsufficientBalance);
            }
            account.session_state = SessionState::Active { start_time: timestamp };
            Ok(())
        },
    }
}

/// The price of a session from `start_time` to `end_time`, or `None` where
/// it does not fit into 64 bits.
fn session_charge(start_time: i64, end_time: i64) -> (charge: Option<u64>)
    requires
        start_time < end_time,
    ensures
        charge == (if session_cost(start_time as int, end_time as int) <= u64::MAX {
            Some(session_cost(start_time as int, end_time as int) as u64)
        } else {
            None
        }),
{
    match end_time.checked_sub(start_time) {
        None => None,
        Some(seconds) => {
            let minutes: u64 = (seconds / SECONDS_PER_MINUTE) as u64;
            minutes.checked_mul(RATE_PER_MINUTE)
        },
    }
}

/// Closes the open session at `timestamp` and charges for it.
///
/// The caller must own the account, a session must be open, and `timestamp`
/// must be after the time at which it was opened. Every full minute between
/// the two costs `RATE_PER_MINUTE`. The charge is taken from the balance, the
/// session is added to the history, where it replaces the oldest record if
/// the history is full, the count of sessions goes up by one, and the account
/// is idle again.
pub fn end_session(ctx: &mut EndSession, timestamp: i64) -> (result: Result<(), ErrorCode>)
    ensures
        final(ctx).user == old(ctx).user,
        match old(ctx).user_account {
            None => {
                &&& result == Err::<(), ErrorCode>(ErrorCode::NotFound)
                &&& *final(ctx) == *old(ctx)
            },
            Some(before) => {
                let caller = old(ctx).user@;
                let request = Request::EndSession { caller, timestamp };
                &&& final(ctx).user_account matches Some(now)
                &&& now.owner == before.owner
                &&& now@ == after(before@, request)
                &&& result is Err ==> *final(ctx) == *old(ctx)
                &&& result is Ok ==> {
                    &&& now.session_state == SessionState::Idle
                    &&& now.total_sessions == before.total_sessions + 1
                    &&& now@.session_history.len() <= MAX_SESSIONS
                }
                &&& caller != before.owner@ ==> result == Err::<(), ErrorCode>(
                    ErrorCode::Unauthorized,
                )
                &&& match end_outcome(before@, caller, timestamp) {
                    Err(code) => result == Err::<(), ErrorCode>(code),
                    Ok(next) => result is Ok && now@ == next,
                }
            },
        },
{
    let caller = ctx.user;
    match &mut ctx.user_account {
        None => Err(ErrorCode::NotFound),
        Some(account) => {
            if caller != account.owner {
                return Err(ErrorCode::Unauthorized);
            }
            let start_time: i64 = match account.session_state {
                SessionState::Idle => {
                    return Err(ErrorCode::NotInSession);
                },
                SessionState::Active { start_time } => start_time,
            };
            if timestamp <= start_time {
                return Err(ErrorCode::InvalidEndTime);
            }
            let cost: u64 = match session_charge(start_time, timestamp) {
                None => {
                    return Err(ErrorCode::CalculationOverflow);
                },
                Some(cost) => cost,
            };
            if account.balance < cost {
                return Err(ErrorCode::InsufficientBalance);
            }
            let total_sessions: u32 = match account.total_sessions.checked_add(1) {
                None => {
                    return Err(ErrorCode::CalculationOverflow);
                },
                Some(total_sessions) => total_sessions,
            };
            account.session_history.push(SessionRecord { start_time, end_time: timestamp, cost });
            account.balance = account.balance - cost;
            account.end_time = timestamp;
            account.total_sessions = total_sessions;
            account.session_state = SessionState::Idle;
            Ok(())
        },
    }
}

/// Answers what the free balance of the account is.
///
/// Only the owner is told. Nothing is changed.
pub fn check_free_balance(ctx: &CheckBalance) -> (result: Result<FreeBalanceEvent, ErrorCode>)
    ensures
        match ctx.user_account {
            None => result == Err::<FreeBalanceEvent, ErrorCode>(ErrorCode::NotFound),
            Some(account) => match balance_outcome(account@, ctx.user@) {
                Ok(free) => result == Ok::<FreeBalanceEvent, ErrorCode>(
                    FreeBalanceEvent { user: account.owner, free_balance: free as u64 },
                ),
                Err(code) => result == Err::<FreeBalanceEvent, ErrorCode>(code),
            },
        },
{
    match &ctx.user_account {
        None => Err(ErrorCode::NotFound),
        Some(account) => {
            if ctx.user != account.owner {
                return Err(ErrorCode::Unauthorized);
            }
            Ok(
                FreeBalanceEvent {
                    user: account.owner,
                    free_balance: calculate_free_balance(account),
                },
            )
        },
    }
}

} // verus!
