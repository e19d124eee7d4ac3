//! The durable table of curated messages and the table of per-channel
//! thresholds, as a model held in memory: what the store holds, what each of
//! its operations answers and how it changes what is held.

use vstd::prelude::*;
use crate::error::StarboardError;
use crate::ids::ChannelIdWrapper;
use crate::ids::MessageIdWrapper;
use crate::message::records;
use crate::message::Record;
use crate::message::StarboardMessage;
use crate::status::transition_of;
use crate::status::validate_transition;
use crate::status::Posting;
use crate::status::StarboardStatus;
use crate::status::Transition;
use crate::table::find;
use crate::table::first_place;
use crate::table::lemma_first_place;
use crate::table::lemma_first_place_found;
use crate::table::lemma_place_of;
use crate::table::lookup;
use crate::table::place_of;
use crate::table::Key;

verus! {

/// The number of stars a channel asks for in place of the general threshold.
#[derive(Clone, Copy, Debug, PartialEq, Eq, Structural)]
pub struct ChannelOverride {
    pub channel_id: ChannelIdWrapper,
    pub star_count: u8,
}

/// The place of the override of `channel` in `overrides`, if it has one.
pub open spec fn override_place(overrides: Seq<ChannelOverride>, channel: u64) -> Option<int> {
    first_place(overrides, |o: ChannelOverride| o.channel_id.0 == channel)
}

/// The posting that a message and a channel make, where both are given.
pub open spec fn posting_of(
    message_id: Option<MessageIdWrapper>,
    channel_id: Option<ChannelIdWrapper>,
) -> Option<Posting> {
    match (message_id, channel_id) {
        (Some(m), Some(c)) => Some(Posting { message_id: m, channel_id: c }),
        _ => None,
    }
}

/// What the store holds.
pub struct StoreView {
    /// The curated messages, in the order in which they were inserted.
    pub rows: Seq<Record>,
    /// The overrides, in the order in which their channels first got one.
    pub overrides: Seq<ChannelOverride>,
    /// The number the next inserted record gets.
    pub next_id: i32,
    /// Whether the store can be reached.
    pub available: bool,
}

impl StoreView {
    /// The rules of the tables: records are numbered in rising order below
    /// `next_id`, no two records that are not denied stand for one message,
    /// no record has fewer than no stars, a channel has one override, and
    /// every threshold is positive.
    pub open spec fn wf(self) -> bool {
        &&& 1 <= self.next_id
        &&& forall|i: int| 0 <= i < self.rows.len() ==> 1 <= (#[trigger] self.rows[i]).id < self.next_id
        &&& forall|i: int, j: int|
            0 <= i < j < self.rows.len() ==> (#[trigger] self.rows[i]).id < (#[trigger] self.rows[j]).id
        &&& forall|i: int, j: int|
            0 <= i < self.rows.len() && 0 <= j < self.rows.len() && i != j && (#[trigger] self.rows[i]).active()
                && (#[trigger] self.rows[j]).active() ==> self.rows[i].message_id != self.rows[j].message_id
        &&& forall|i: int, j: int|
            0 <= i < j < self.overrides.len() ==> (#[trigger] self.overrides[i]).channel_id != (
            #[trigger] self.overrides[j]).channel_id
        &&& forall|i: int| 0 <= i < self.overrides.len() ==> (#[trigger] self.overrides[i]).star_count > 0
        &&& forall|i: int| 0 <= i < self.rows.len() ==> (#[trigger] self.rows[i]).star_count >= 0
    }

    /// Whether the store takes `r`. It must be reachable and have a number
    /// left to give, else it is unavailable. It refuses as a violation of its
    /// constraints a record with fewer than no stars, and a record that is not
    /// denied and stands for a message that a record that is not denied
    /// stands for already.
    pub open spec fn insert_result(self, r: Record) -> Result<i32, StarboardError> {
        if !self.available || self.next_id == i32::MAX {
            Err(StarboardError::StoreUnavailable)
        } else if r.star_count < 0 || (r.active() && place_of(self.rows, Key::Source(r.message_id)).is_some()) {
            Err(StarboardError::ConstraintViolation)
        } else {
            Ok(self.next_id)
        }
    }

    /// The store after `r` was offered to it.
    pub open spec fn after_insert(self, r: Record) -> StoreView {
        if self.insert_result(r).is_ok() {
            StoreView { rows: self.rows.push(r.with_id(self.next_id)), next_id: (self.next_id + 1) as i32, ..self }
        } else {
            self
        }
    }

    /// What a lookup by `key` answers.
    pub open spec fn find_result(self, key: Key) -> Result<Option<Record>, StarboardError> {
        if !self.available {
            Err(StarboardError::StoreUnavailable)
        } else {
            Ok(lookup(self.rows, key))
        }
    }

    /// Whether the record numbered `id` takes `count` as its number of
    /// stars: it must exist, be in review, and not have more already.
    pub open spec fn star_count_result(self, id: i32, count: i16) -> Result<(), StarboardError> {
        if !self.available {
            Err(StarboardError::StoreUnavailable)
        } else {
            match place_of(self.rows, Key::Id(id)) {
                None => Err(StarboardError::NotFound),
                Some(i) => if self.rows[i].takes_star_count(count) {
                    Ok(())
                } else {
                    Err(StarboardError::IllegalTransition)
                },
            }
        }
    }

    /// The store after the record numbered `id` was offered `count` stars.
    pub open spec fn after_star_count(self, id: i32, count: i16) -> StoreView {
        if self.star_count_result(id, count).is_ok() {
            let i = place_of(self.rows, Key::Id(id)).unwrap();
            StoreView { rows: self.rows.update(i, self.rows[i].with_star_count(count)), ..self }
        } else {
            self
        }
    }

    /// The legal change that a request for `status` makes of the record
    /// numbered `id`, if it is legal: the record must exist and the state
    /// machine must allow the change.
    pub open spec fn transition_for(self, id: i32, status: StarboardStatus, posting: Option<Posting>) -> Option<
        Transition,
    > {
        match place_of(self.rows, Key::Id(id)) {
            None => None,
            Some(i) => transition_of(self.rows[i].status, status, posting),
        }
    }

    /// Whether the record numbered `id` changes to `status`.
    pub open spec fn transition_result(self, id: i32, status: StarboardStatus, posting: Option<Posting>) -> Result<
        (),
        StarboardError,
    > {
        if !self.available {
            Err(StarboardError::StoreUnavailable)
        } else if self.transition_for(id, status, posting).is_none() {
            Err(StarboardError::IllegalTransition)
        } else {
            Ok(())
        }
    }

    /// The store after the record numbered `id` was asked to change to `status`.
    pub open spec fn after_transition(self, id: i32, status: StarboardStatus, posting: Option<Posting>) -> StoreView {
        if self.transition_result(id, status, posting).is_ok() {
            let i = place_of(self.rows, Key::Id(id)).unwrap();
            StoreView {
                rows: self.rows.update(i, self.rows[i].after(self.transition_for(id, status, posting).unwrap())),
                ..self
            }
        } else {
            self
        }
    }

    /// The store after `channel` was given the threshold `star_count`.
    pub open spec fn after_upsert(self, channel: u64, star_count: u8) -> StoreView {
        let entry = ChannelOverride { channel_id: ChannelIdWrapper(channel), star_count };
        if !self.available {
            self
        } else {
            match override_place(self.overrides, channel) {
                Some(i) => StoreView { overrides: self.overrides.update(i, entry), ..self },
                None => StoreView { overrides: self.overrides.push(entry), ..self },
            }
        }
    }

    /// The store after the override of `channel` was asked to go.
    pub open spec fn after_delete(self, channel: u64) -> StoreView {
        if !self.available {
            self
        } else {
            match override_place(self.overrides, channel) {
                Some(i) => StoreView { overrides: self.overrides.remove(i), ..self },
                None => self,
            }
        }
    }
}

/// The table of curated messages and the table of overrides.
pub struct Store {
    rows: Vec<StarboardMessage>,
    overrides: Vec<ChannelOverride>,
    next_id: i32,
    available: bool,
}

impl View for Store {
    type V = StoreView;

    closed spec fn view(&self) -> StoreView {
        StoreView {
            rows: records(self.rows@),
            overrides: self.overrides@,
            next_id: self.next_id,
            available: self.available,
        }
    }
}

fn find_override(overrides: &Vec<ChannelOverride>, channel: u64) -> (r: Option<usize>)
    ensures
        match r {
            Some(i) => override_place(overrides@, channel) == Some(i as int),
            None => override_place(overrides@, channel).is_none(),
        },
{
    let ghost wanted = |o: ChannelOverride| o.channel_id.0 == channel;
    let mut i: usize = 0;
    while i < overrides.len()
        invariant
            i <= overrides.len(),
            wanted == (|o: ChannelOverride| o.channel_id.0 == channel),
            forall|j: int| 0 <= j < i ==> !wanted(#[trigger] overrides@[j]),
        decreases overrides.len() - i,
    {
        if overrides[i].channel_id.0 == channel {
            proof {
                lemma_first_place_found(overrides@, wanted, i as int);
            }
            return Some(i);
        }
        i += 1;
    }
    None
}

fn copy_records(list: &Vec<StarboardMessage>) -> (r: Vec<StarboardMessage>)
    ensures
        records(r@) == records(list@),
{
    let mut r: Vec<StarboardMessage> = Vec::new();
    let mut i: usize = 0;
    while i < list.len()
        invariant
            i <= list.len(),
            r.len() == i,
            forall|j: int| 0 <= j < i ==> r[j]@ == list[j]@,
        decreases list.len() - i,
    {
        r.push(list[i].clone());
        i += 1;
    }
    r
}

impl Store {
    /// Whether the tables keep their rules.
    pub open spec fn wf(&self) -> bool {
        self@.wf()
    }

    /// An empty store that can be reached. Its first record gets the number 1.
    pub fn new() -> (s: Store)
        ensures
            s.wf(),
            s@.rows.len() == 0,
            s@.overrides.len() == 0,
            s@.next_id == 1,
            s@.available,
    {
        Store { rows: Vec::new(), overrides: Vec::new(), next_id: 1, available: true }
    }

    /// Cuts the store off, or brings it back. What it holds stays.
    pub fn set_available(&mut self, available: bool)
        ensures
            final(self)@ == (StoreView { available, ..old(self)@ }),
    {
        self.available = available;
    }

    /// Whether the store can be reached.
    pub fn is_available(&self) -> (r: bool)
        ensures
            r == self@.available,
    {
        self.available
    }

    /// Takes `record` into the table under a new number, which it answers.
    /// The number that `record` came with is ignored.
    pub fn insert(&mut self, record: StarboardMessage) -> (r: Result<i32, StarboardError>)
        requires
            old(self).wf(),
        ensures
            r == old(self)@.insert_result(record@),
            final(self)@ == old(self)@.after_insert(record@),
            final(self).wf(),
    {
        if !self.available || self.next_id == i32::MAX {
            return Err(StarboardError::StoreUnavailable);
        }
        if !record.has_valid_stars() {
            return Err(StarboardError::ConstraintViolation);
        }
        if record.is_active() {
            if find(&self.rows, Key::Source(record.message_id.0)).is_some() {
                return Err(StarboardError::ConstraintViolation);
            }
        }
        let id = self.next_id;
        let mut record = record;
        let ghost given = record@;
        record.id = id;
        proof {
            lemma_insert_keeps_rules(old(self)@, given);
            assert(records(self.rows@.push(record)) =~= records(self.rows@).push(record@));
        }
        self.rows.push(record);
        self.next_id = id + 1;
        Ok(id)
    }

    fn find_by(&self, key: Key) -> (r: Result<Option<StarboardMessage>, StarboardError>)
        ensures
            match r {
                Ok(Some(m)) => self@.find_result(key) == Ok::<Option<Record>, StarboardError>(Some(m@)),
                Ok(None) => self@.find_result(key) == Ok::<Option<Record>, StarboardError>(None),
                Err(e) => self@.find_result(key) == Err::<Option<Record>, StarboardError>(e),
            },
    {
        if !self.available {
            return Err(StarboardError::StoreUnavailable);
        }
        match find(&self.rows, key) {
            Some(i) => Ok(Some(self.rows[i].clone())),
            None => Ok(None),
        }
    }

    /// The record that stands for the curated message `id` and is not denied.
    pub fn find_by_source_message(&self, id: MessageIdWrapper) -> (r: Result<
        Option<StarboardMessage>,
        StarboardError,
    >)
        ensures
            match r {
                Ok(Some(m)) => self@.find_result(Key::Source(id.0)) == Ok::<Option<Record>, StarboardError>(
                    Some(m@),
                ),
                Ok(None) => self@.find_result(Key::Source(id.0)) == Ok::<Option<Record>, StarboardError>(None),
                Err(e) => self@.find_result(Key::Source(id.0)) == Err::<Option<Record>, StarboardError>(e),
            },
    {
        self.find_by(Key::Source(id.0))
    }

    /// The first record that is posted under the message `id` and is not denied.
    pub fn find_by_posted_message(&self, id: MessageIdWrapper) -> (r: Result<
        Option<StarboardMessage>,
        StarboardError,
    >)
        ensures
            match r {
                Ok(Some(m)) => self@.find_result(Key::Posted(id.0)) == Ok::<Option<Record>, StarboardError>(
                    Some(m@),
                ),
                Ok(None) => self@.find_result(Key::Posted(id.0)) == Ok::<Option<Record>, StarboardError>(None),
                Err(e) => self@.find_result(Key::Posted(id.0)) == Err::<Option<Record>, StarboardError>(e),
            },
    {
        self.find_by(Key::Posted(id.0))
    }

    /// Sets the number of stars of the record numbered `id` to `count`.
    /// Setting it twice to the same number is setting it once. A record
    /// whose review is over keeps its stars, and no record loses any.
    pub fn update_star_count(&mut self, id: i32, count: i16) -> (r: Result<(), StarboardError>)
        requires
            old(self).wf(),
        ensures
            r == old(self)@.star_count_result(id, count),
            final(self)@ == old(self)@.after_star_count(id, count),
            final(self).wf(),
    {
        if !self.available {
            return Err(StarboardError::StoreUnavailable);
        }
        match find(&self.rows, Key::Id(id)) {
            None => Err(StarboardError::NotFound),
            Some(i) => {
                if self.rows[i].check_star_count(count).is_err() {
                    return Err(StarboardError::IllegalTransition);
                }
                let mut row = self.rows[i].clone();
                row.star_count = count;
                proof {
                    assert(records(self.rows@.update(i as int, row)) =~= records(self.rows@).update(
                        i as int,
                        row@,
                    ));
                }
                self.rows.set(i, row);
                Ok(())
            },
        }
    }

    /// Changes the status of the record numbered `id`, in one step, if the
    /// state machine allows it: out of review only, and into `Accepted` only
    /// with both parts of the new posting, which the record takes on.
    pub fn transition_status(
        &mut self,
        id: i32,
        new_status: StarboardStatus,
        posted_message_id: Option<MessageIdWrapper>,
        posted_channel_id: Option<ChannelIdWrapper>,
    ) -> (r: Result<(), StarboardError>)
        requires
            old(self).wf(),
        ensures
            r == old(self)@.transition_result(id, new_status, posting_of(posted_message_id, posted_channel_id)),
            final(self)@ == old(self)@.after_transition(
                id,
                new_status,
                posting_of(posted_message_id, posted_channel_id),
            ),
            final(self).wf(),
    {
        if !self.available {
            return Err(StarboardError::StoreUnavailable);
        }
        let posting = match (posted_message_id, posted_channel_id) {
            (Some(m), Some(c)) => Some(Posting { message_id: m, channel_id: c }),
            _ => None,
        };
        match find(&self.rows, Key::Id(id)) {
            None => Err(StarboardError::IllegalTransition),
            Some(i) => match validate_transition(self.rows[i].starboard_status, new_status, posting) {
                Err(e) => Err(e),
                Ok(t) => {
                    let mut row = self.rows[i].clone();
                    row.apply(t);
                    proof {
                        lemma_transition_keeps_rules(old(self)@, id, new_status, posting);
                        assert(records(self.rows@.update(i as int, row)) =~= records(self.rows@).update(
                            i as int,
                            row@,
                        ));
                    }
                    self.rows.set(i, row);
                    Ok(())
                },
            },
        }
    }

    /// Every record of the table, denied ones too, in the order of insertion.
    pub fn load_all(&self) -> (r: Result<Vec<StarboardMessage>, StarboardError>)
        ensures
            match r {
                Ok(list) => self@.available && records(list@) == self@.rows,
                Err(e) => !self@.available && e == StarboardError::StoreUnavailable,
            },
    {
        if !self.available {
            return Err(StarboardError::StoreUnavailable);
        }
        Ok(copy_records(&self.rows))
    }

    /// Every override of the table.
    pub fn load_all_overrides(&self) -> (r: Result<Vec<ChannelOverride>, StarboardError>)
        ensures
            match r {
                Ok(list) => self@.available && list@ == self@.overrides,
                Err(e) => !self@.available && e == StarboardError::StoreUnavailable,
            },
    {
        if !self.available {
            return Err(StarboardError::StoreUnavailable);
        }
        Ok(self.overrides.clone())
    }

    /// Gives `channel` the threshold `star_count`, in place of the one it
    /// had if it had one.
    pub fn upsert_override(&mut self, channel: ChannelIdWrapper, star_count: u8) -> (r: Result<
        (),
        StarboardError,
    >)
        requires
            old(self).wf(),
            star_count > 0,
        ensures
            r == if old(self)@.available {
                Ok::<(), StarboardError>(())
            } else {
                Err::<(), StarboardError>(StarboardError::StoreUnavailable)
            },
            final(self)@ == old(self)@.after_upsert(channel.0, star_count),
            final(self).wf(),
    {
        if !self.available {
            return Err(StarboardError::StoreUnavailable);
        }
        proof {
            lemma_upsert_keeps_rules(old(self)@, channel.0, star_count);
        }
        let entry = ChannelOverride { channel_id: channel, star_count };
        match find_override(&self.overrides, channel.0) {
            Some(i) => {
                self.overrides.set(i, entry);
            },
            None => {
                self.overrides.push(entry);
            },
        }
        Ok(())
    }

    /// Takes the override of `channel` away and answers whether it had one.
    pub fn delete_override(&mut self, channel: ChannelIdWrapper) -> (r: Result<bool, StarboardError>)
        requires
            old(self).wf(),
        ensures
            r == if old(self)@.available {
                Ok::<bool, StarboardError>(override_place(old(self)@.overrides, channel.0).is_some())
            } else {
                Err::<bool, StarboardError>(StarboardError::StoreUnavailable)
            },
            final(self)@ == old(self)@.after_delete(channel.0),
            final(self).wf(),
    {
        if !self.available {
            return Err(StarboardError::StoreUnavailable);
        }
        match find_override(&self.overrides, channel.0) {
            Some(i) => {
                self.overrides.remove(i);
                Ok(true)
            },
            None => Ok(false),
        }
    }
}

/// Inserting keeps the rules of the tables.
pub proof fn lemma_insert_keeps_rules(s: StoreView, r: Record)
    requires
        s.wf(),
    ensures
        s.after_insert(r).wf(),
{
    if s.insert_result(r).is_ok() {
        let t = s.after_insert(r);
        lemma_place_of(s.rows, Key::Source(r.message_id));
        assert forall|i: int, j: int|
            0 <= i < t.rows.len() && 0 <= j < t.rows.len() && i != j && (#[trigger] t.rows[i]).active() && (
            #[trigger] t.rows[j]).active() implies t.rows[i].message_id != t.rows[j].message_id by {
            if i < s.rows.len() && j < s.rows.len() {
                assert(t.rows[i] == s.rows[i] && t.rows[j] == s.rows[j]);
            } else if i < s.rows.len() {
                assert(!Key::Source(r.message_id).selects(s.rows[i]));
            } else {
                assert(!Key::Source(r.message_id).selects(s.rows[j]));
            }
        }
    }
}

/// Setting a number of stars keeps the rules of the tables.
pub proof fn lemma_star_count_keeps_rules(s: StoreView, id: i32, count: i16)
    requires
        s.wf(),
    ensures
        s.after_star_count(id, count).wf(),
{
}

/// A change of status keeps the rules of the tables.
pub proof fn lemma_transition_keeps_rules(s: StoreView, id: i32, status: StarboardStatus, posting: Option<Posting>)
    requires
        s.wf(),
    ensures
        s.after_transition(id, status, posting).wf(),
{
}

/// Giving a channel a positive threshold keeps the rules of the tables.
pub proof fn lemma_upsert_keeps_rules(s: StoreView, channel: u64, star_count: u8)
    requires
        s.wf(),
        star_count > 0,
    ensures
        s.after_upsert(channel, star_count).wf(),
{
    lemma_first_place(s.overrides, |o: ChannelOverride| o.channel_id.0 == channel);
}

/// Taking an override away keeps the rules of the tables.
pub proof fn lemma_delete_keeps_rules(s: StoreView, channel: u64)
    requires
        s.wf(),
    ensures
        s.after_delete(channel).wf(),
{
}

} // verus!
