//! The records of the chats that the bot knows.

use crate::date::Date;
use vstd::prelude::*;

verus! {

/// What the bot keeps of one chat.
#[derive(Clone, Copy, Debug, PartialEq, Eq)]
pub struct UserRecord {
    /// The key of the record, given when it is created.
    pub id: i32,
    /// The user of the messaging platform. Kept, and used by no lookup.
    pub user_id: i64,
    /// The chat of the messaging platform, by which a record is found.
    pub chat_id: i64,
    /// The number of the insurance card, once the user has given it.
    pub oms_card: Option<i64>,
    /// The birth date, once the user has given it.
    pub date_birth: Option<Date>,
}

impl UserRecord {
    /// Whether the record holds both the insurance number and the birth
    /// date, so that the appointment service can be asked on its behalf.
    pub open spec fn eligible(self) -> bool {
        self.oms_card is Some && self.date_birth is Some
    }

    /// Whether the record holds both the insurance number and the birth
    /// date.
    pub fn is_eligible(&self) -> (eligible: bool)
        ensures
            eligible == self.eligible(),
    {
        self.oms_card.is_some() && self.date_birth.is_some()
    }
}

/// Why the store did not do what it was asked.
#[derive(Clone, Copy, Debug, PartialEq, Eq, Structural)]
pub enum StoreError {
    /// The store holds no record with the key of the one to be changed.
    NotFound,
    /// The store has no key left to give.
    Exhausted,
}

/// The test by which the records for polling are picked.
pub open spec fn eligible_pred() -> spec_fn(UserRecord) -> bool {
    |r: UserRecord| r.eligible()
}

/// Whether the keys of the records rise from one record to the next, so
/// that no key occurs twice.
pub open spec fn keys_rise(records: Seq<UserRecord>) -> bool {
    forall|i: int, j: int|
        0 <= i < j < records.len() ==> (#[trigger] records[i]).id < (#[trigger] records[j]).id
}

/// What a lookup by `chat_id` finds: the first record of that chat, or
/// nothing where there is none.
pub open spec fn first_of_chat(records: Seq<UserRecord>, chat_id: i64) -> Option<UserRecord>
    decreases records.len(),
{
    if records.len() == 0 {
        None
    } else if records[0].chat_id == chat_id {
        Some(records[0])
    } else {
        first_of_chat(records.drop_first(), chat_id)
    }
}

/// Where no record before the place `i` is of the chat, the lookup finds the
/// record at `i` if that one is of the chat, and nothing if `i` is the end.
pub proof fn lemma_first_of_chat_at(records: Seq<UserRecord>, chat_id: i64, i: int)
    requires
        0 <= i <= records.len(),
        forall|j: int| 0 <= j < i ==> (#[trigger] records[j]).chat_id != chat_id,
        i < records.len() ==> records[i].chat_id == chat_id,
    ensures
        first_of_chat(records, chat_id) == if i < records.len() {
            Some(records[i])
        } else {
            None
        },
    decreases i,
{
    if i > 0 {
        let rest = records.drop_first();
        assert(records[0].chat_id != chat_id);
        assert forall|j: int| 0 <= j < i - 1 implies (#[trigger] rest[j]).chat_id != chat_id by {
            assert(rest[j] == records[j + 1]);
        }
        if i < records.len() {
            assert(rest[i - 1] == records[i]);
        }
        lemma_first_of_chat_at(rest, chat_id, i - 1);
    }
}

/// A record that the lookup finds is of the chat and stands in the store.
pub proof fn lemma_first_of_chat_is_stored(records: Seq<UserRecord>, chat_id: i64)
    ensures
        first_of_chat(records, chat_id) matches Some(r) ==> r.chat_id == chat_id
            && records.contains(r),
        first_of_chat(records, chat_id) is None ==> forall|i: int|
            0 <= i < records.len() ==> (#[trigger] records[i]).chat_id != chat_id,
    decreases records.len(),
{
    if records.len() > 0 {
        let rest = records.drop_first();
        lemma_first_of_chat_is_stored(rest, chat_id);
        if records[0].chat_id == chat_id {
            assert(records.contains(records[0]));
        } else {
            if first_of_chat(rest, chat_id) is Some {
                let r = first_of_chat(rest, chat_id)->Some_0;
                let i = choose|i: int| 0 <= i < rest.len() && rest[i] == r;
                assert(records[i + 1] == r);
            } else {
                assert forall|i: int| 0 <= i < records.len() implies (
                #[trigger] records[i]).chat_id != chat_id by {
                    if i > 0 {
                        assert(rest[i - 1] == records[i]);
                    }
                }
            }
        }
    }
}

/// The place of the record with the key `id`, where there is one.
pub open spec fn has_key_at(records: Seq<UserRecord>, id: i32, i: int) -> bool {
    0 <= i < records.len() && records[i].id == id
}

/// Whether some record has the key `id`.
pub open spec fn has_key(records: Seq<UserRecord>, id: i32) -> bool {
    exists|i: int| has_key_at(records, id, i)
}

/// The records after the insurance number of the one with the key `id` has
/// been overwritten.
pub open spec fn with_insurance(records: Seq<UserRecord>, id: i32, number: i64) -> Seq<UserRecord> {
    Seq::new(
        records.len(),
        |i: int|
            if records[i].id == id {
                UserRecord { oms_card: Some(number), ..records[i] }
            } else {
                records[i]
            },
    )
}

/// The records after the birth date of the one with the key `id` has been
/// overwritten.
pub open spec fn with_birth_date(records: Seq<UserRecord>, id: i32, date: Date) -> Seq<UserRecord> {
    Seq::new(
        records.len(),
        |i: int|
            if records[i].id == id {
                UserRecord { date_birth: Some(date), ..records[i] }
            } else {
                records[i]
            },
    )
}

/// The records of all chats, in the order in which they were created.
pub struct RecordStore {
    records: Vec<UserRecord>,
    next_id: i32,
}

impl View for RecordStore {
    type V = Seq<UserRecord>;

    closed spec fn view(&self) -> Seq<UserRecord> {
        self.records@
    }
}

impl RecordStore {
    /// Whether the store is in order: the keys of its records rise, and
    /// each lies below the key that the next record gets.
    pub closed spec fn wf(&self) -> bool {
        &&& self.next_id >= 1
        &&& keys_rise(self.records@)
        &&& forall|i: int|
            0 <= i < self.records@.len() ==> 1 <= (#[trigger] self.records@[i]).id < self.next_id
    }

    /// The key that the next record gets.
    pub closed spec fn next_key(&self) -> int {
        self.next_id as int
    }

    /// A store without records.
    pub fn new() -> (store: RecordStore)
        ensures
            store.wf(),
            store@ == Seq::<UserRecord>::empty(),
            store.next_key() == 1,
    {
        RecordStore { records: Vec::new(), next_id: 1 }
    }

    /// The store that holds the given records, where their keys are positive
    /// and rise and one more key is left to give. The next record gets the
    /// key behind the last.
    pub fn with_records(records: Vec<UserRecord>) -> (store: Option<RecordStore>)
        ensures
            store is Some <==> {
                &&& keys_rise(records@)
                &&& forall|i: int| 0 <= i < records@.len() ==> 1 <= (#[trigger] records@[i]).id
                &&& records@.len() > 0 ==> records@.last().id < i32::MAX
            },
            store matches Some(s) ==> {
                &&& s.wf()
                &&& s@ == records@
                &&& s.next_key() == if records@.len() == 0 {
                    1
                } else {
                    records@.last().id + 1
                }
            },
    {
        let n = records.len();
        if n == 0 {
            return Some(RecordStore { records, next_id: 1 });
        }
        if records[0].id < 1 {
            return None;
        }
        let mut i: usize = 1;
        while i < n
            invariant
                1 <= i <= n,
                n == records@.len(),
                records@[0].id >= 1,
                forall|a: int, b: int|
                    0 <= a < b < i ==> (#[trigger] records@[a]).id < (#[trigger] records@[b]).id,
            decreases n - i,
        {
            if records[i].id <= records[i - 1].id {
                return None;
            }
            proof {
                assert forall|a: int, b: int| 0 <= a < b < i + 1 implies (
                #[trigger] records@[a]).id < (#[trigger] records@[b]).id by {
                    if b == i && a < i - 1 {
                        assert(records@[a].id < records@[i - 1].id);
                    }
                }
            }
            i = i + 1;
        }
        let last = records[n - 1].id;
        if last == i32::MAX {
            return None;
        }
        proof {
            assert forall|k: int| 0 <= k < records@.len() implies 1 <= (
            #[trigger] records@[k]).id < last + 1 by {
                if k > 0 {
                    assert(records@[0].id < records@[k].id);
                }
                if k < n - 1 {
                    assert(records@[k].id < records@[n - 1].id);
                }
            }
        }
        Some(RecordStore { records, next_id: last + 1 })
    }

    /// The number of records.
    pub fn len(&self) -> (n: usize)
        ensures
            n == self@.len(),
    {
        self.records.len()
    }

    /// In a store that is in order no key occurs twice, and every key lies
    /// below the one that the next record gets.
    pub proof fn lemma_keys(&self)
        requires
            self.wf(),
        ensures
            keys_rise(self@),
            forall|i: int| 0 <= i < self@.len() ==> 1 <= (#[trigger] self@[i]).id < self.next_key(),
    {
    }

    /// The record of the chat `chat_id`: the first one of that chat, or
    /// nothing where the chat has none yet.
    pub fn find_by_chat_id(&self, chat_id: i64) -> (found: Option<UserRecord>)
        ensures
            found == first_of_chat(self@, chat_id),
    {
        let mut i: usize = 0;
        while i < self.records.len()
            invariant
                0 <= i <= self.records.len(),
                forall|j: int| 0 <= j < i ==> (#[trigger] self.records@[j]).chat_id != chat_id,
            decreases self.records.len() - i,
        {
            if self.records[i].chat_id == chat_id {
                proof {
                    lemma_first_of_chat_at(self@, chat_id, i as int);
                }
                return Some(self.records[i]);
            }
            i = i + 1;
        }
        proof {
            lemma_first_of_chat_at(self@, chat_id, i as int);
        }
        None
    }

    /// Adds a record for the chat `chat_id`, without insurance number and
    /// birth date, and returns it. Fails only where no key is left.
    pub fn create_for_chat(&mut self, chat_id: i64, user_id: i64) -> (created: Result<
        UserRecord,
        StoreError,
    >)
        requires
            old(self).wf(),
        ensures
            final(self).wf(),
            match created {
                Ok(r) => {
                    &&& old(self).next_key() < i32::MAX
                    &&& r == (UserRecord {
                        id: old(self).next_key() as i32,
                        user_id,
                        chat_id,
                        oms_card: None,
                        date_birth: None,
                    })
                    &&& final(self)@ == old(self)@.push(r)
                    &&& final(self).next_key() == old(self).next_key() + 1
                },
                Err(e) => {
                    &&& e == StoreError::Exhausted
                    &&& old(self).next_key() == i32::MAX
                    &&& final(self)@ == old(self)@
                    &&& final(self).next_key() == old(self).next_key()
                },
            },
    {
        if self.next_id == i32::MAX {
            return Err(StoreError::Exhausted);
        }
        let r = UserRecord {
            id: self.next_id,
            user_id,
            chat_id,
            oms_card: None,
            date_birth: None,
        };
        self.records.push(r);
        self.next_id = self.next_id + 1;
        Ok(r)
    }

    fn position_of(&self, id: i32) -> (place: Option<usize>)
        ensures
            match place {
                Some(i) => has_key_at(self@, id, i as int),
                None => !has_key(self@, id),
            },
    {
        let mut i: usize = 0;
        while i < self.records.len()
            invariant
                0 <= i <= self.records.len(),
                forall|j: int| 0 <= j < i ==> (#[trigger] self.records@[j]).id != id,
            decreases self.records.len() - i,
        {
            if self.records[i].id == id {
                return Some(i);
            }
            i = i + 1;
        }
        None
    }

    /// Overwrites the insurance number of the record that has the key of
    /// `record`, and returns the record as it now is. Nothing else changes.
    /// Where no record has that key, nothing changes at all.
    pub fn update_insurance(&mut self, record: &UserRecord, value: i64) -> (updated: Result<
        UserRecord,
        StoreError,
    >)
        requires
            old(self).wf(),
        ensures
            final(self).wf(),
            final(self).next_key() == old(self).next_key(),
            final(self)@ == with_insurance(old(self)@, record.id, value),
            match updated {
                Ok(r) => exists|i: int|
                    {
                        &&& #[trigger] has_key_at(old(self)@, record.id, i)
                        &&& r == (UserRecord { oms_card: Some(value), ..old(self)@[i] })
                    },
                Err(e) => {
                    &&& e == StoreError::NotFound
                    &&& !has_key(old(self)@, record.id)
                    &&& final(self)@ == old(self)@
                },
            },
    {
        match self.position_of(record.id) {
            Some(i) => {
                let r = UserRecord { oms_card: Some(value), ..self.records[i] };
                self.records.set(i, r);
                proof {
                    assert(has_key_at(old(self)@, record.id, i as int));
                    assert(self@ =~= with_insurance(old(self)@, record.id, value));
                }
                Ok(r)
            },
            None => {
                proof {
                    assert forall|i: int| 0 <= i < self@.len() implies (#[trigger] self@[i]).id
                        != record.id by {
                        assert(!has_key_at(self@, record.id, i));
                    }
                    assert(self@ =~= with_insurance(old(self)@, record.id, value));
                }
                Err(StoreError::NotFound)
            },
        }
    }

    /// Overwrites the birth date of the record that has the key of `record`,
    /// and returns the record as it now is. Nothing else changes. Where no
    /// record has that key, nothing changes at all.
    pub fn update_birth_date(&mut self, record: &UserRecord, value: Date) -> (updated: Result<
        UserRecord,
        StoreError,
    >)
        requires
            old(self).wf(),
        ensures
            final(self).wf(),
            final(self).next_key() == old(self).next_key(),
            final(self)@ == with_birth_date(old(self)@, record.id, value),
            match updated {
                Ok(r) => exists|i: int|
                    {
                        &&& #[trigger] has_key_at(old(self)@, record.id, i)
                        &&& r == (UserRecord { date_birth: Some(value), ..old(self)@[i] })
                    },
                Err(e) => {
                    &&& e == StoreError::NotFound
                    &&& !has_key(old(self)@, record.id)
                    &&& final(self)@ == old(self)@
                },
            },
    {
        match self.position_of(record.id) {
            Some(i) => {
                let r = UserRecord { date_birth: Some(value), ..self.records[i] };
                self.records.set(i, r);
                proof {
                    assert(has_key_at(old(self)@, record.id, i as int));
                    assert(self@ =~= with_birth_date(old(self)@, record.id, value));
                }
                Ok(r)
            },
            None => {
                proof {
                    assert forall|i: int| 0 <= i < self@.len() implies (#[trigger] self@[i]).id
                        != record.id by {
                        assert(!has_key_at(self@, record.id, i));
                    }
                    assert(self@ =~= with_birth_date(old(self)@, record.id, value));
                }
                Err(StoreError::NotFound)
            },
        }
    }

    /// The records that hold both the insurance number and the birth date,
    /// in the order of the store.
    pub fn list_eligible_for_polling(&self) -> (eligible: Vec<UserRecord>)
        ensures
            eligible@ == self@.filter(eligible_pred()),
    {
        eligible_records(&self.records)
    }
}

/// Those of `records` that hold both the insurance number and the birth
/// date, in their order.
pub fn eligible_records(records: &Vec<UserRecord>) -> (eligible: Vec<UserRecord>)
    ensures
        eligible@ == records@.filter(eligible_pred()),
{
    let mut eligible: Vec<UserRecord> = Vec::new();
    let mut i: usize = 0;
    proof {
        lemma_filter_empty();
    }
    while i < records.len()
        invariant
            0 <= i <= records.len(),
            eligible@ == records@.take(i as int).filter(eligible_pred()),
        decreases records.len() - i,
    {
        let r = records[i];
        proof {
            lemma_filter_push(records@.take(i as int), r);
            assert(records@.take(i as int).push(r) =~= records@.take(i + 1));
        }
        if r.is_eligible() {
            eligible.push(r);
        }
        i = i + 1;
    }
    proof {
        assert(records@.take(records.len() as int) =~= records@);
    }
    eligible
}

/// Of no records, none is picked.
pub proof fn lemma_filter_empty()
    ensures
        Seq::<UserRecord>::empty().filter(eligible_pred()) == Seq::<UserRecord>::empty(),
{
    reveal(Seq::filter);
}

/// A record behind the others is picked after those picked among them, if
/// it is picked at all.
pub proof fn lemma_filter_push(records: Seq<UserRecord>, r: UserRecord)
    ensures
        records.push(r).filter(eligible_pred()) == if r.eligible() {
            records.filter(eligible_pred()).push(r)
        } else {
            records.filter(eligible_pred())
        },
{
    reveal(Seq::filter);
    assert(records.push(r).drop_last() =~= records);
}

/// The records picked for polling are exactly those of the store that hold
/// both the insurance number and the birth date.
pub proof fn lemma_eligible_exactly(records: Seq<UserRecord>, r: UserRecord)
    ensures
        records.filter(eligible_pred()).contains(r) <==> records.contains(r) && r.eligible(),
    decreases records.len(),
{
    reveal(Seq::filter);
    if records.len() > 0 {
        let front = records.drop_last();
        let last = records.last();
        lemma_eligible_exactly(front, r);
        assert(front.push(last) =~= records);
        lemma_filter_push(front, last);
        let picked = records.filter(eligible_pred());
        let before = front.filter(eligible_pred());
        if picked.contains(r) {
            let i = choose|i: int| 0 <= i < picked.len() && picked[i] == r;
            if last.eligible() && i == picked.len() - 1 {
                assert(records[records.len() - 1] == r);
            } else {
                assert(before[i] == r);
                assert(before.contains(r));
                let j = choose|j: int| 0 <= j < front.len() && front[j] == r;
                assert(records[j] == r);
            }
        }
        if records.contains(r) && r.eligible() {
            let j = choose|j: int| 0 <= j < records.len() && records[j] == r;
            if j == records.len() - 1 {
                assert(picked[picked.len() - 1] == r);
            } else {
                assert(front[j] == r);
                assert(front.contains(r));
                let i = choose|i: int| 0 <= i < before.len() && before[i] == r;
                assert(picked[i] == r);
            }
        }
    }
}

/// A record is picked for polling from the moment on at which it holds both
/// the insurance number and the birth date: giving the one makes it eligible
/// exactly if it holds the other, and taking either away makes it ineligible.
pub proof fn lemma_eligibility_boundary(r: UserRecord, number: i64, date: Date)
    ensures
        (UserRecord { oms_card: Some(number), ..r }).eligible() == r.date_birth is Some,
        (UserRecord { date_birth: Some(date), ..r }).eligible() == r.oms_card is Some,
        !(UserRecord { oms_card: None, ..r }).eligible(),
        !(UserRecord { date_birth: None, ..r }).eligible(),
{
}

} // verus!
