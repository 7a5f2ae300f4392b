use thera_sol::{
    end_session, start_session, EndSession, ErrorCode, Identity, SessionHistory, SessionRecord,
    SessionState, StartSession, UserAccount, MIN_SESSION_BALANCE, RATE_PER_MINUTE,
};

fn session_owner() -> Identity {
    Identity::new([1u8; 32])
}

fn idle_account(balance: u64) -> UserAccount {
    UserAccount {
        owner: session_owner(),
        balance,
        session_state: SessionState::Idle,
        end_time: 0,
        total_sessions: 0,
        session_history: SessionHistory::new(),
    }
}

fn active_account(balance: u64, start_time: i64) -> UserAccount {
    UserAccount { session_state: SessionState::Active { start_time }, ..idle_account(balance) }
}

fn close(account: UserAccount, timestamp: i64) -> (Result<(), ErrorCode>, UserAccount) {
    let mut ctx = EndSession { user: account.owner, user_account: Some(account) };
    let result = end_session(&mut ctx, timestamp);
    (result, ctx.user_account.unwrap())
}

#[test]
fn the_constants_are_the_published_ones() {
    assert_eq!(RATE_PER_MINUTE, 100_000);
    assert_eq!(MIN_SESSION_BALANCE, 1_000_000);
    assert_eq!(MIN_SESSION_BALANCE, 10 * RATE_PER_MINUTE);
    assert_eq!(thera_sol::MAX_SESSIONS, 10);
    assert_eq!(thera_sol::SECONDS_PER_MINUTE, 60);
}

#[test]
fn a_session_needs_the_minimum_balance() {
    let mut ctx =
        StartSession { user: session_owner(), user_account: Some(idle_account(999_999)) };
    assert_eq!(start_session(&mut ctx, 50), Err(ErrorCode::InsufficientBalance));
    assert_eq!(ctx.user_account, Some(idle_account(999_999)));

    let mut ctx =
        StartSession { user: session_owner(), user_account: Some(idle_account(1_000_000)) };
    assert_eq!(start_session(&mut ctx, 50), Ok(()));
    assert_eq!(ctx.user_account, Some(active_account(1_000_000, 50)));
}

#[test]
fn the_history_does_not_count_against_the_free_balance() {
    let mut account = idle_account(1_000_000);
    account.session_history.push(SessionRecord { start_time: 1, end_time: 601, cost: 1_000_000 });
    account.total_sessions = 1;
    account.end_time = 601;
    let mut ctx = StartSession { user: session_owner(), user_account: Some(account) };
    assert_eq!(start_session(&mut ctx, 700), Ok(()));
}

#[test]
fn a_second_session_cannot_be_opened() {
    let account = active_account(5_000_000, 100);
    let mut ctx = StartSession { user: session_owner(), user_account: Some(account) };
    assert_eq!(start_session(&mut ctx, 200), Err(ErrorCode::AlreadyInSession));
    assert_eq!(ctx.user_account, Some(account));
}

#[test]
fn an_open_session_is_refused_before_a_low_balance_is() {
    let account = active_account(0, 100);
    let mut ctx = StartSession { user: session_owner(), user_account: Some(account) };
    assert_eq!(start_session(&mut ctx, 200), Err(ErrorCode::AlreadyInSession));
}

#[test]
fn any_timestamp_opens_a_session() {
    for timestamp in [i64::MIN, -1, 0, 1, i64::MAX] {
        let mut ctx =
            StartSession { user: session_owner(), user_account: Some(idle_account(2_000_000)) };
        assert_eq!(start_session(&mut ctx, timestamp), Ok(()));
        assert_eq!(
            ctx.user_account.unwrap().session_state,
            SessionState::Active { start_time: timestamp }
        );
    }
}

#[test]
fn starting_a_session_changes_nothing_but_the_state() {
    let mut before = idle_account(3_000_000);
    before.session_history.push(SessionRecord { start_time: 5, end_time: 70, cost: 100_000 });
    before.total_sessions = 4;
    before.end_time = 70;
    let mut ctx = StartSession { user: session_owner(), user_account: Some(before) };
    assert_eq!(start_session(&mut ctx, 1234), Ok(()));
    let after = ctx.user_account.unwrap();
    assert_eq!(
        after,
        UserAccount { session_state: SessionState::Active { start_time: 1234 }, ..before }
    );
}

#[test]
fn no_session_no_closing() {
    let account = idle_account(5_000_000);
    let (result, after) = close(account, 100);
    assert_eq!(result, Err(ErrorCode::NotInSession));
    assert_eq!(after, account);
}

#[test]
fn a_session_cannot_end_when_or_before_it_began() {
    for end in [1000, 999, 0, -5, i64::MIN] {
        let mut ctx =
            StartSession { user: session_owner(), user_account: Some(idle_account(2_000_000)) };
        assert_eq!(start_session(&mut ctx, 1000), Ok(()));
        let open = ctx.user_account.unwrap();
        let (result, after) = close(open, end);
        assert_eq!(result, Err(ErrorCode::InvalidEndTime));
        assert_eq!(after, open);
    }
}

#[test]
fn only_full_minutes_are_charged() {
    let cases: [(i64, i64, u64); 8] = [
        (1000, 1001, 0),
        (1000, 1059, 0),
        (1000, 1060, 100_000),
        (1000, 1119, 100_000),
        (1000, 1120, 200_000),
        (1000, 1600, 1_000_000),
        (-30, 90, 200_000),
        (i64::MIN, i64::MIN + 3600, 6_000_000),
    ];
    for (start, end, cost) in cases {
        let (result, after) = close(active_account(10_000_000, start), end);
        assert_eq!(result, Ok(()));
        assert_eq!(after.balance, 10_000_000 - cost);
        assert_eq!(
            after.session_history.to_vec(),
            vec![SessionRecord { start_time: start, end_time: end, cost }]
        );
    }
}

#[test]
fn closing_leaves_the_account_idle_and_counts_once() {
    let mut before = active_account(700_000, 40);
    before.total_sessions = 41;
    let (result, after) = close(before, 40 + 7 * 60);
    assert_eq!(result, Ok(()));
    assert_eq!(after.session_state, SessionState::Idle);
    assert_eq!(after.total_sessions, 42);
    assert_eq!(after.balance, 0);
    assert_eq!(after.end_time, 460);
    assert_eq!(after.owner, before.owner);
}

#[test]
fn a_session_that_costs_more_than_the_balance_stays_open() {
    let before = active_account(699_999, 40);
    let (result, after) = close(before, 40 + 7 * 60);
    assert_eq!(result, Err(ErrorCode::InsufficientBalance));
    assert_eq!(after, before);
}

#[test]
fn a_price_beyond_64_bits_is_an_overflow() {
    // 184_467_440_737_095 minutes cost just less than 2^64, one more does not fit.
    let fits: i64 = 184_467_440_737_095 * 60;
    let before = active_account(u64::MAX, 0);
    let (result, after) = close(before, fits + 59);
    assert_eq!(result, Ok(()));
    assert_eq!(after.balance, u64::MAX - 18_446_744_073_709_500_000);

    let (result, after) = close(before, fits + 60);
    assert_eq!(result, Err(ErrorCode::CalculationOverflow));
    assert_eq!(after, before);
}

#[test]
fn a_duration_beyond_64_bits_is_an_overflow() {
    let before = active_account(u64::MAX, i64::MIN);
    let (result, after) = close(before, i64::MAX);
    assert_eq!(result, Err(ErrorCode::CalculationOverflow));
    assert_eq!(after, before);

    let before = active_account(u64::MAX, -2);
    let (result, after) = close(before, i64::MAX);
    assert_eq!(result, Err(ErrorCode::CalculationOverflow));
    assert_eq!(after, before);
}

#[test]
fn the_count_of_sessions_does_not_wrap() {
    let mut before = active_account(5_000_000, 10);
    before.total_sessions = u32::MAX;
    let (result, after) = close(before, 100);
    assert_eq!(result, Err(ErrorCode::CalculationOverflow));
    assert_eq!(after, before);

    before.total_sessions = u32::MAX - 1;
    let (result, after) = close(before, 100);
    assert_eq!(result, Ok(()));
    assert_eq!(after.total_sessions, u32::MAX);
}

#[test]
fn a_low_balance_is_refused_before_a_full_count_is() {
    let mut before = active_account(0, 10);
    before.total_sessions = u32::MAX;
    let (result, _) = close(before, 10 + 60);
    assert_eq!(result, Err(ErrorCode::InsufficientBalance));
}

#[test]
fn the_eleventh_record_evicts_the_oldest() {
    let mut account = idle_account(50_000_000);
    let mut expected = Vec::new();
    for i in 0..10i64 {
        let record = SessionRecord { start_time: i, end_time: i + 1, cost: 0 };
        account.session_history.push(record);
        expected.push(record);
    }
    account.total_sessions = 10;
    account.session_state = SessionState::Active { start_time: 500 };
    let (result, after) = close(account, 500 + 120);
    assert_eq!(result, Ok(()));
    expected.remove(0);
    expected.push(SessionRecord { start_time: 500, end_time: 620, cost: 200_000 });
    assert_eq!(after.session_history.to_vec(), expected);
    assert_eq!(after.session_history.len(), 10);
    assert_eq!(after.total_sessions, 11);
}
