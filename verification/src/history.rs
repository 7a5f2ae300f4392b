//! The bounded record of an account's most recent sessions.

use crate::config::MAX_SESSIONS;
use vstd::prelude::*;
use vstd::std_specs::cmp::PartialEqSpecImpl;

verus! {

/// A closed session: when it was opened, when it was closed, and what was
/// charged for it.
#[derive(Clone, Copy, Debug, PartialEq, Eq, Structural)]
pub struct SessionRecord {
    /// When the session was opened.
    pub start_time: i64,
    /// When the session was closed.
    pub end_time: i64,
    /// What was charged for the session, in the smallest currency unit.
    pub cost: u64,
}

/// What a history holds after `record` has been appended to `records`: when
/// the history is full, the oldest record leaves first.
pub open spec fn appended(records: Seq<SessionRecord>, record: SessionRecord) -> Seq<
    SessionRecord,
> {
    if records.len() >= MAX_SESSIONS {
        records.subrange(1, records.len() as int).push(record)
    } else {
        records.push(record)
    }
}

/// The slot of a ring of `MAX_SESSIONS` slots that lies `offset` slots after
/// slot `head`.
spec fn ring_slot(head: int, offset: int) -> int {
    if head + offset < MAX_SESSIONS {
        head + offset
    } else {
        head + offset - MAX_SESSIONS
    }
}

/// The slot that lies `offset` slots after slot `head`.
fn slot_after(head: usize, offset: usize) -> (slot: usize)
    requires
        head < MAX_SESSIONS,
        offset < MAX_SESSIONS,
    ensures
        slot == ring_slot(head as int, offset as int),
        slot < MAX_SESSIONS,
{
    if head < MAX_SESSIONS - offset {
        head + offset
    } else {
        head - (MAX_SESSIONS - offset)
    }
}

/// The last `MAX_SESSIONS` closed sessions of an account, oldest first.
///
/// The records live in a ring of fixed size: `head` is the slot of the oldest
/// record and the `len` records follow each other from there, wrapping round
/// at the end of the ring.
#[derive(Clone, Copy, Debug)]
pub struct SessionHistory {
    slots: [SessionRecord; MAX_SESSIONS],
    head: usize,
    len: usize,
}

impl View for SessionHistory {
    type V = Seq<SessionRecord>;

    closed spec fn view(&self) -> Seq<SessionRecord> {
        Seq::new(
            self.len as nat,
            |i: int| self.slots@[ring_slot(self.head as int, i)],
        )
    }
}

impl SessionHistory {
    #[verifier::type_invariant]
    spec fn well_formed(self) -> bool {
        self.head < MAX_SESSIONS && self.len <= MAX_SESSIONS
    }

    /// A history without records.
    pub fn new() -> (history: SessionHistory)
        ensures
            history@ == Seq::<SessionRecord>::empty(),
    {
        let blank = SessionRecord { start_time: 0, end_time: 0, cost: 0 };
        SessionHistory { slots: [blank;MAX_SESSIONS], head: 0, len: 0 }
    }

    /// The number of records held, never more than `MAX_SESSIONS`.
    pub fn len(&self) -> (n: usize)
        ensures
            n == self@.len(),
            n <= MAX_SESSIONS,
    {
        proof {
            use_type_invariant(self);
        }
        self.len
    }

    /// The record at position `index`, counted from the oldest.
    pub fn get(&self, index: usize) -> (record: Option<SessionRecord>)
        ensures
            self@.len() <= MAX_SESSIONS,
            record == (if index < self@.len() {
                Some(self@[index as int])
            } else {
                None
            }),
    {
        proof {
            use_type_invariant(self);
        }
        if index < self.len {
            Some(self.slots[slot_after(self.head, index)])
        } else {
            None
        }
    }

    /// The history that holds `records`, oldest first, or `None` when there
    /// are more of them than a history has room for.
    pub fn from_records(records: &[SessionRecord]) -> (history: Option<SessionHistory>)
        ensures
            match history {
                Some(h) => records@.len() <= MAX_SESSIONS && h@ == records@,
                None => records@.len() > MAX_SESSIONS,
            },
    {
        if records.len() > MAX_SESSIONS {
            return None;
        }
        let mut history = SessionHistory::new();
        let mut i: usize = 0;
        while i < records.len()
            invariant
                i <= records@.len() <= MAX_SESSIONS,
                history@ == records@.subrange(0, i as int),
            decreases records@.len() - i,
        {
            history.push(records[i]);
            i = i + 1;
        }
        assert(records@.subrange(0, i as int) == records@);
        Some(history)
    }

    /// The records held, oldest first.
    pub fn to_vec(&self) -> (records: Vec<SessionRecord>)
        ensures
            records@ == self@,
    {
        proof {
            use_type_invariant(self);
        }
        let mut records: Vec<SessionRecord> = Vec::new();
        let mut i: usize = 0;
        while i < self.len
            invariant
                i <= self.len <= MAX_SESSIONS,
                self.head < MAX_SESSIONS,
                records@ == self@.subrange(0, i as int),
            decreases self.len - i,
        {
            records.push(self.slots[slot_after(self.head, i)]);
            i = i + 1;
        }
        assert(self@.subrange(0, i as int) == self@);
        records
    }

    /// Appends `record` as the newest entry. A full history gives up its
    /// oldest record to make room.
    pub fn push(&mut self, record: SessionRecord)
        ensures
            old(self)@.len() <= MAX_SESSIONS,
            final(self)@ == appended(old(self)@, record),
            final(self)@.len() <= MAX_SESSIONS,
    {
        proof {
            use_type_invariant(&*self);
        }
        let ghost before = *self;
        if self.len < MAX_SESSIONS {
            let slot: usize = slot_after(self.head, self.len);
            self.slots[slot] = record;
            self.len = self.len + 1;
            assert forall|i: int| 0 <= i < self.len implies #[trigger] self@[i] == before@.push(
                record,
            )[i] by {
                if i < before.len {
                    assert(ring_slot(self.head as int, i) != slot);
                }
            }
            assert(self@ =~= before@.push(record));
        } else {
            let slot: usize = self.head;
            self.slots[slot] = record;
            self.head = slot_after(self.head, 1);
            let ghost shifted = before@.subrange(1, MAX_SESSIONS as int).push(record);
            assert forall|i: int| 0 <= i < self.len implies #[trigger] self@[i] == shifted[i] by {
                if i < MAX_SESSIONS - 1 {
                    assert(ring_slot(self.head as int, i) == ring_slot(slot as int, i + 1));
                    assert(ring_slot(self.head as int, i) != slot);
                    assert(shifted[i] == before@[i + 1]);
                } else {
                    assert(ring_slot(self.head as int, i) == slot);
                }
            }
            assert(self@ =~= shifted);
        }
    }
}

/// Two histories are equal when they hold the same records in the same order,
/// wherever in the ring each of them keeps its oldest record.
impl PartialEq for SessionHistory {
    fn eq(&self, other: &SessionHistory) -> (equal: bool) {
        proof {
            use_type_invariant(self);
            use_type_invariant(other);
        }
        if self.len != other.len {
            assert(self@.len() != other@.len());
            return false;
        }
        let mut i: usize = 0;
        while i < self.len
            invariant
                i <= self.len <= MAX_SESSIONS,
                self.len == other.len,
                self.head < MAX_SESSIONS,
                other.head < MAX_SESSIONS,
                forall|j: int| 0 <= j < i ==> self@[j] == other@[j],
            decreases self.len - i,
        {
            let mine = self.slots[slot_after(self.head, i)];
            let theirs = other.slots[slot_after(other.head, i)];
            if mine != theirs {
                assert(self@[i as int] != other@[i as int]);
                return false;
            }
            i = i + 1;
        }
        assert(self@ =~= other@);
        true
    }
}

impl PartialEqSpecImpl for SessionHistory {
    open spec fn obeys_eq_spec() -> bool {
        true
    }

    open spec fn eq_spec(&self, other: &SessionHistory) -> bool {
        self@ == other@
    }
}

impl Eq for SessionHistory {

}

} // verus!
