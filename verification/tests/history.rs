use thera_sol::{SessionHistory, SessionRecord, MAX_SESSIONS};

fn numbered(n: i64) -> SessionRecord {
    SessionRecord { start_time: n, end_time: n + 60, cost: 100_000 + n as u64 }
}

#[test]
fn a_new_history_is_empty() {
    let history = SessionHistory::new();
    assert_eq!(history.len(), 0);
    assert_eq!(history.get(0), None);
    assert_eq!(history.to_vec(), Vec::<SessionRecord>::new());
}

#[test]
fn records_come_out_in_the_order_they_went_in() {
    let mut history = SessionHistory::new();
    for n in 0..7 {
        history.push(numbered(n));
        assert_eq!(history.len(), n as usize + 1);
    }
    assert_eq!(history.to_vec(), (0..7).map(numbered).collect::<Vec<_>>());
    for n in 0..7 {
        assert_eq!(history.get(n as usize), Some(numbered(n)));
    }
    assert_eq!(history.get(7), None);
    assert_eq!(history.get(usize::MAX), None);
}

#[test]
fn a_full_history_drops_its_oldest_record() {
    let mut history = SessionHistory::new();
    for n in 0..10 {
        history.push(numbered(n));
    }
    assert_eq!(history.len(), MAX_SESSIONS);
    assert_eq!(history.to_vec(), (0..10).map(numbered).collect::<Vec<_>>());

    history.push(numbered(10));
    assert_eq!(history.len(), MAX_SESSIONS);
    assert_eq!(history.to_vec(), (1..11).map(numbered).collect::<Vec<_>>());
    assert_eq!(history.get(0), Some(numbered(1)));
    assert_eq!(history.get(9), Some(numbered(10)));
    assert_eq!(history.get(10), None);

    for n in 11..35 {
        history.push(numbered(n));
        assert_eq!(history.len(), MAX_SESSIONS);
        assert_eq!(history.to_vec(), (n - 9..=n).map(numbered).collect::<Vec<_>>());
    }
}

#[test]
fn a_history_can_be_made_from_records() {
    for count in 0..=10 {
        let records: Vec<SessionRecord> = (0..count).map(numbered).collect();
        let history = SessionHistory::from_records(&records).unwrap();
        assert_eq!(history.len(), count as usize);
        assert_eq!(history.to_vec(), records);
    }
    let too_many: Vec<SessionRecord> = (0..11).map(numbered).collect();
    assert!(SessionHistory::from_records(&too_many).is_none());
}

#[test]
fn histories_are_equal_when_their_records_are() {
    let mut turned = SessionHistory::new();
    for n in 0..13 {
        turned.push(numbered(n));
    }
    let straight =
        SessionHistory::from_records(&(3..13).map(numbered).collect::<Vec<_>>()).unwrap();
    assert_eq!(turned, straight);
    assert_eq!(turned.to_vec(), straight.to_vec());

    let mut longer = SessionHistory::new();
    let mut shorter = SessionHistory::new();
    longer.push(numbered(1));
    longer.push(numbered(2));
    shorter.push(numbered(1));
    assert_ne!(longer, shorter);
    assert_ne!(shorter, SessionHistory::new());

    let mut one = SessionHistory::new();
    let mut other = SessionHistory::new();
    one.push(SessionRecord { start_time: 1, end_time: 2, cost: 3 });
    other.push(SessionRecord { start_time: 1, end_time: 2, cost: 4 });
    assert_ne!(one, other);
    other = SessionHistory::new();
    other.push(SessionRecord { start_time: 1, end_time: 3, cost: 3 });
    assert_ne!(one, other);
    other = SessionHistory::new();
    other.push(SessionRecord { start_time: 0, end_time: 2, cost: 3 });
    assert_ne!(one, other);
    other = SessionHistory::new();
    other.push(SessionRecord { start_time: 1, end_time: 2, cost: 3 });
    assert_eq!(one, other);
}
