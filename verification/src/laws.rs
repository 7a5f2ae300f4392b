//! What holds of the rules, whatever the requests are.
//!
//! The operations in `ledger` promise, request by request, exactly what the
//! functions in `rules` say. The statements here are about those functions:
//! about one of them, about two in a row, and about any sequence of requests
//! made of one account.

use crate::account::{AccountView, SessionState};
use crate::config::{MAX_SESSIONS, RATE_PER_MINUTE, SECONDS_PER_MINUTE};
use crate::error::ErrorCode;
use crate::history::{appended, SessionRecord};
use crate::identity::IDENTITY_LEN;
use crate::rules::{
    after, balance_outcome, carried_out, deposit_outcome, end_outcome, reclaim_outcome,
    session_cost, session_minutes, start_outcome, Request,
};
use vstd::prelude::*;

verus! {

/// What `request` adds to the balance of `account`: the amount of a deposit
/// that goes through.
pub open spec fn deposited(account: AccountView, request: Request) -> nat {
    match request {
        Request::Deposit { amount, .. } => if carried_out(account, request) is Some {
            amount
        } else {
            0
        },
        _ => 0,
    }
}

/// What `request` takes out of the balance of `account` for the caller: the
/// amount of a withdrawal that goes through.
pub open spec fn withdrawn(account: AccountView, request: Request) -> nat {
    match request {
        Request::Reclaim { amount, .. } => if carried_out(account, request) is Some {
            amount
        } else {
            0
        },
        _ => 0,
    }
}

/// What `request` charges to the balance of `account`: the price of a session
/// that is closed.
pub open spec fn charged(account: AccountView, request: Request) -> nat {
    match request {
        Request::EndSession { timestamp, .. } => match account.session_state {
            SessionState::Active { start_time } => if carried_out(account, request) is Some {
                session_cost(start_time as int, timestamp as int) as nat
            } else {
                0
            },
            SessionState::Idle => 0,
        },
        _ => 0,
    }
}

/// The account after all of `requests` have been made, one after the other.
pub open spec fn after_all(account: AccountView, requests: Seq<Request>) -> AccountView
    decreases requests.len(),
{
    if requests.len() == 0 {
        account
    } else {
        after(after_all(account, requests.drop_last()), requests.last())
    }
}

/// The sum of the deposits that go through when `requests` are made of
/// `account`, one after the other.
pub open spec fn total_deposited(account: AccountView, requests: Seq<Request>) -> nat
    decreases requests.len(),
{
    if requests.len() == 0 {
        0
    } else {
        total_deposited(account, requests.drop_last()) + deposited(
            after_all(account, requests.drop_last()),
            requests.last(),
        )
    }
}

/// The sum of the withdrawals that go through when `requests` are made of
/// `account`, one after the other.
pub open spec fn total_withdrawn(account: AccountView, requests: Seq<Request>) -> nat
    decreases requests.len(),
{
    if requests.len() == 0 {
        0
    } else {
        total_withdrawn(account, requests.drop_last()) + withdrawn(
            after_all(account, requests.drop_last()),
            requests.last(),
        )
    }
}

/// The sum of the session charges that are made when `requests` are made of
/// `account`, one after the other.
pub open spec fn total_charged(account: AccountView, requests: Seq<Request>) -> nat
    decreases requests.len(),
{
    if requests.len() == 0 {
        0
    } else {
        total_charged(account, requests.drop_last()) + charged(
            after_all(account, requests.drop_last()),
            requests.last(),
        )
    }
}

/// A session is charged for its full minutes only: the minutes counted are
/// the largest number of whole minutes that fit between the opening and the
/// closing time, and the price is the rate for each of them. A session that
/// ends after it began never costs less than nothing.
pub proof fn session_cost_counts_full_minutes(start_time: int, end_time: int)
    requires
        start_time < end_time,
    ensures
        session_minutes(start_time, end_time) >= 0,
        SECONDS_PER_MINUTE * session_minutes(start_time, end_time) <= end_time - start_time,
        end_time - start_time < SECONDS_PER_MINUTE * (session_minutes(start_time, end_time) + 1),
        session_cost(start_time, end_time) == RATE_PER_MINUTE * session_minutes(
            start_time,
            end_time,
        ),
        session_cost(start_time, end_time) >= 0,
{
}

/// One request changes the balance by exactly what it deposits, withdraws or
/// charges, and leaves an account that can be held.
pub proof fn one_request_is_accounted_for(account: AccountView, request: Request)
    requires
        account.representable(),
    ensures
        after(account, request).representable(),
        after(account, request).owner == account.owner,
        after(account, request).balance + withdrawn(account, request) + charged(account, request)
            == account.balance + deposited(account, request),
{
    match request {
        Request::EndSession { caller, timestamp } => {
            if let SessionState::Active { start_time } = account.session_state {
                if start_time < timestamp {
                    session_cost_counts_full_minutes(start_time as int, timestamp as int);
                }
            }
        },
        _ => {},
    }
}

/// The balance is always what was deposited less what was withdrawn and what
/// was charged for sessions: whatever requests are made of an account, and
/// whichever of them are refused, after all of them the balance is the
/// balance at the outset, plus the deposits that went through, minus the
/// withdrawals that went through, minus the charges of the sessions that were
/// closed. It never falls below zero and never leaves the 64 bits it is
/// kept in.
pub proof fn balance_is_accounted_for(account: AccountView, requests: Seq<Request>)
    requires
        account.representable(),
    ensures
        after_all(account, requests).representable(),
        after_all(account, requests).owner == account.owner,
        after_all(account, requests).balance == account.balance + total_deposited(
            account,
            requests,
        ) - total_withdrawn(account, requests) - total_charged(account, requests),
        0 <= after_all(account, requests).balance <= u64::MAX,
    decreases requests.len(),
{
    if requests.len() > 0 {
        balance_is_accounted_for(account, requests.drop_last());
        one_request_is_accounted_for(after_all(account, requests.drop_last()), requests.last());
    }
}

/// An account that starts out empty never holds more than was deposited
/// into it: after any requests, its balance is the deposits that went
/// through, minus the withdrawals that went through, minus the charges of the
/// sessions that were closed.
pub proof fn new_account_holds_what_was_paid_in(owner: Seq<u8>, requests: Seq<Request>)
    requires
        owner.len() == IDENTITY_LEN,
    ensures
        after_all(AccountView::opened(owner), requests).balance == total_deposited(
            AccountView::opened(owner),
            requests,
        ) - total_withdrawn(AccountView::opened(owner), requests) - total_charged(
            AccountView::opened(owner),
            requests,
        ),
        after_all(AccountView::opened(owner), requests).balance <= total_deposited(
            AccountView::opened(owner),
            requests,
        ),
{
    balance_is_accounted_for(AccountView::opened(owner), requests);
}

/// Nobody but the owner gets anything done: whatever is asked of an account
/// by a caller who does not own it is refused as unauthorized, whatever state
/// the account is in.
pub proof fn strangers_are_refused(
    account: AccountView,
    caller: Seq<u8>,
    amount: nat,
    timestamp: i64,
)
    requires
        caller != account.owner,
    ensures
        deposit_outcome(account, caller, amount) == Err::<AccountView, ErrorCode>(
            ErrorCode::Unauthorized,
        ),
        start_outcome(account, caller, timestamp) == Err::<AccountView, ErrorCode>(
            ErrorCode::Unauthorized,
        ),
        end_outcome(account, caller, timestamp) == Err::<AccountView, ErrorCode>(
            ErrorCode::Unauthorized,
        ),
        reclaim_outcome(account, caller, amount) == Err::<AccountView, ErrorCode>(
            ErrorCode::Unauthorized,
        ),
        balance_outcome(account, caller) == Err::<nat, ErrorCode>(ErrorCode::Unauthorized),
{
}

/// A request that is not made by the owner of the account does not go
/// through, and no part of the account is different afterwards.
pub proof fn strangers_change_nothing(account: AccountView, request: Request)
    requires
        request.caller() != account.owner,
    ensures
        carried_out(account, request) is None,
        after(account, request) == account,
{
}

/// A session cannot be closed at or before the time it was opened: once a
/// session has been opened at `opened_at`, the owner's request to close it at
/// a time that is not later is refused with `InvalidEndTime`, and the session
/// stays open.
pub proof fn session_cannot_end_before_it_began(
    account: AccountView,
    caller: Seq<u8>,
    opened_at: i64,
    closed_at: i64,
)
    requires
        start_outcome(account, caller, opened_at) is Ok,
        closed_at <= opened_at,
    ensures
        start_outcome(account, caller, opened_at) matches Ok(open) && end_outcome(
            open,
            caller,
            closed_at,
        ) == Err::<AccountView, ErrorCode>(ErrorCode::InvalidEndTime) && after(
            open,
            Request::EndSession { caller, timestamp: closed_at },
        ) == open,
{
}

/// Closing a session leaves the account idle and counts the session exactly
/// once, whether or not the history had to drop a record for it. The price of
/// the session leaves the balance, and the session becomes the newest record
/// of the history.
pub proof fn closing_counts_the_session_once(
    account: AccountView,
    caller: Seq<u8>,
    timestamp: i64,
)
    requires
        end_outcome(account, caller, timestamp) is Ok,
    ensures
        account.session_state is Active,
        end_outcome(account, caller, timestamp) matches Ok(next) && {
            let start_time = account.session_state->start_time;
            let cost = session_cost(start_time as int, timestamp as int);
            &&& next.session_state == SessionState::Idle
            &&& next.total_sessions == account.total_sessions + 1
            &&& start_time < timestamp
            &&& 0 <= cost <= account.balance
            &&& next.balance == account.balance - cost
            &&& next.end_time == timestamp
            &&& next.owner == account.owner
            &&& next.session_history == appended(
                account.session_history,
                SessionRecord { start_time, end_time: timestamp, cost: cost as u64 },
            )
            &&& next.session_history.len() > 0
            &&& next.session_history.last() == (SessionRecord {
                start_time,
                end_time: timestamp,
                cost: cost as u64,
            })
        },
{
    if let SessionState::Active { start_time } = account.session_state {
        session_cost_counts_full_minutes(start_time as int, timestamp as int);
    }
}

/// A history that is not full yet takes a new record at its end and keeps
/// all it had.
pub proof fn history_grows_until_it_is_full(records: Seq<SessionRecord>, record: SessionRecord)
    requires
        records.len() < MAX_SESSIONS,
    ensures
        appended(records, record) == records.push(record),
        appended(records, record).len() == records.len() + 1,
{
}

/// A full history that takes a new record drops exactly its oldest one: it
/// stays full, every record but the oldest moves up one place, and the new
/// record comes last.
pub proof fn full_history_drops_its_oldest(records: Seq<SessionRecord>, record: SessionRecord)
    requires
        records.len() == MAX_SESSIONS,
    ensures
        appended(records, record).len() == MAX_SESSIONS,
        forall|i: int|
            0 <= i < MAX_SESSIONS - 1 ==> #[trigger] appended(records, record)[i] == records[i
                + 1],
        appended(records, record).last() == record,
{
}

/// The ledger takes timestamps as they come. So a session has been open
/// since a time after zero whenever the requests that open sessions name such
/// times: a request which does so keeps this true of the account.
pub proof fn positive_timestamps_keep_opening_times_positive(
    account: AccountView,
    request: Request,
)
    requires
        account.session_state matches SessionState::Active { start_time } ==> start_time > 0,
        request matches Request::StartSession { timestamp, .. } ==> timestamp > 0,
    ensures
        after(account, request).session_state matches SessionState::Active { start_time }
            ==> start_time > 0,
{
}

/// A record is settled when it is the record of a session that ended after
/// it began and was charged the price of its full minutes.
pub open spec fn settled(record: SessionRecord) -> bool {
    &&& record.start_time < record.end_time
    &&& record.cost == session_cost(record.start_time as int, record.end_time as int)
}

/// What holds of every account that was created empty and has only been
/// changed by requests since.
///
/// The count of sessions is a count over the whole life of the account: the
/// history holds as many records as sessions were closed, until it is full,
/// and stays full from then on while the count goes on. Every record in the
/// history is settled, and the time of the last closing is that of the newest
/// record.
pub open spec fn consistent(account: AccountView) -> bool {
    &&& account.representable()
    &&& account.session_history.len() == if account.total_sessions < MAX_SESSIONS {
        account.total_sessions
    } else {
        MAX_SESSIONS as nat
    }
    &&& forall|i: int|
        0 <= i < account.session_history.len() ==> settled(#[trigger] account.session_history[i])
    &&& account.end_time == if account.total_sessions == 0 {
        0
    } else {
        account.session_history.last().end_time as int
    }
}

/// A new account is consistent.
pub proof fn new_account_is_consistent(owner: Seq<u8>)
    requires
        owner.len() == IDENTITY_LEN,
    ensures
        consistent(AccountView::opened(owner)),
{
}

/// No request makes a consistent account inconsistent.
pub proof fn one_request_keeps_consistency(account: AccountView, request: Request)
    requires
        consistent(account),
    ensures
        consistent(after(account, request)),
{
    one_request_is_accounted_for(account, request);
    match request {
        Request::EndSession { caller, timestamp } => {
            if end_outcome(account, caller, timestamp) is Ok {
                closing_counts_the_session_once(account, caller, timestamp);
                let next = after(account, request);
                let record = next.session_history.last();
                if account.session_history.len() < MAX_SESSIONS {
                    history_grows_until_it_is_full(account.session_history, record);
                } else {
                    full_history_drops_its_oldest(account.session_history, record);
                }
                assert forall|i: int| 0 <= i < next.session_history.len() implies settled(
                    #[trigger] next.session_history[i],
                ) by {
                    if i < next.session_history.len() - 1 {
                        if account.session_history.len() < MAX_SESSIONS {
                            assert(next.session_history[i] == account.session_history[i]);
                        } else {
                            assert(next.session_history[i] == account.session_history[i + 1]);
                        }
                    }
                }
            }
        },
        _ => {},
    }
}

/// An account that was created empty is consistent after any requests. In
/// particular its count of sessions never falls behind its history: once
/// more sessions were closed than the history has room for, the history
/// holds `MAX_SESSIONS` records and the count holds them all.
pub proof fn accounts_stay_consistent(owner: Seq<u8>, requests: Seq<Request>)
    requires
        owner.len() == IDENTITY_LEN,
    ensures
        consistent(after_all(AccountView::opened(owner), requests)),
        after_all(AccountView::opened(owner), requests).session_history.len() <= after_all(
            AccountView::opened(owner),
            requests,
        ).total_sessions,
    decreases requests.len(),
{
    if requests.len() == 0 {
        new_account_is_consistent(owner);
    } else {
        accounts_stay_consistent(owner, requests.drop_last());
        one_request_keeps_consistency(
            after_all(AccountView::opened(owner), requests.drop_last()),
            requests.last(),
        );
    }
}

/// Closing a session on an account whose history is full evicts the oldest
/// record and nothing else, leaves the history full, and still counts the
/// session: the count is then greater than the number of records kept.
pub proof fn closing_on_a_full_history_evicts_the_oldest(
    account: AccountView,
    caller: Seq<u8>,
    timestamp: i64,
)
    requires
        consistent(account),
        account.session_history.len() == MAX_SESSIONS,
        end_outcome(account, caller, timestamp) is Ok,
    ensures
        end_outcome(account, caller, timestamp) matches Ok(next) && {
            &&& next.session_history.len() == MAX_SESSIONS
            &&& forall|i: int|
                0 <= i < MAX_SESSIONS - 1 ==> #[trigger] next.session_history[i]
                    == account.session_history[i + 1]
            &&& next.session_history.last().end_time == timestamp
            &&& next.total_sessions == account.total_sessions + 1
            &&& next.total_sessions > MAX_SESSIONS
        },
{
    closing_counts_the_session_once(account, caller, timestamp);
    let next = after(account, Request::EndSession { caller, timestamp });
    full_history_drops_its_oldest(account.session_history, next.session_history.last());
}

/// While a session is open, the owner cannot take funds out: the request is
/// refused with `ActiveSession`, whatever the amount, and the balance stays
/// as it is.
pub proof fn open_session_blocks_withdrawal(
    account: AccountView,
    caller: Seq<u8>,
    amount: nat,
    transferred: bool,
)
    requires
        account.session_state is Active,
        caller == account.owner,
    ensures
        reclaim_outcome(account, caller, amount) == Err::<AccountView, ErrorCode>(
            ErrorCode::ActiveSession,
        ),
        after(account, Request::Reclaim { caller, amount, transferred }) == account,
{
}

/// What has been deposited can be taken out again: where a deposit into an
/// account without an open session goes through, the withdrawal of the same
/// amount goes through as well, and it leaves the account exactly as it was
/// before the deposit.
pub proof fn deposit_and_withdrawal_cancel_out(
    account: AccountView,
    caller: Seq<u8>,
    amount: nat,
)
    requires
        deposit_outcome(account, caller, amount) is Ok,
        account.session_state is Idle,
    ensures
        deposit_outcome(account, caller, amount) matches Ok(funded) && funded.balance
            == account.balance + amount && reclaim_outcome(funded, caller, amount) == Ok::<
            AccountView,
            ErrorCode,
        >(account),
{
}

} // verus!
