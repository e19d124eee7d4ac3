//! What the process keeps in memory of the starboard: the working set of
//! recently touched records, the set of messages in flight and the
//! per-channel thresholds.

use std::collections::HashMap;
use std::collections::HashSet;
use vstd::prelude::*;
use crate::cache::cache_put;
use crate::cache::cache_wf;
use crate::cache::cache_with_stars;
use crate::cache::evicted;
use crate::cache::lemma_evicted;
use crate::cache::lemma_put_keeps_rules;
use crate::cache::lemma_settled_keeps_rules;
use crate::cache::settled;
use crate::error::StarboardError;
use crate::guard::guard_step;
use crate::guard::GuardOp;
use crate::ids::ChannelIdWrapper;
use crate::ids::MessageIdWrapper;
use crate::message::record_of;
use crate::message::records;
use crate::message::Record;
use crate::message::StarboardMessage;
use crate::status::Transition;
use crate::store::ChannelOverride;
use crate::table::find;
use crate::table::lookup;
use crate::table::place_of;
use crate::table::Key;

verus! {

broadcast use vstd::std_specs::hash::group_hash_axioms;

/// The thresholds that a list of overrides gives, channel by channel: where
/// a channel stands twice, the later entry counts.
pub open spec fn threshold_map(overrides: Seq<ChannelOverride>) -> Map<u64, u8>
    decreases overrides.len(),
{
    if overrides.len() == 0 {
        Map::empty()
    } else {
        threshold_map(overrides.drop_last()).insert(
            overrides.last().channel_id.0,
            overrides.last().star_count,
        )
    }
}

/// Whether no channel stands twice in `overrides`.
pub open spec fn one_per_channel(overrides: Seq<ChannelOverride>) -> bool {
    forall|i: int, j: int|
        0 <= i < j < overrides.len() ==> (#[trigger] overrides[i]).channel_id != (#[trigger] overrides[j]).channel_id
}

/// A channel that stands nowhere in a list gets no threshold from it.
pub proof fn lemma_thresholds_absent(overrides: Seq<ChannelOverride>, channel: u64)
    requires
        forall|i: int| 0 <= i < overrides.len() ==> (#[trigger] overrides[i]).channel_id.0 != channel,
    ensures
        !threshold_map(overrides).contains_key(channel),
    decreases overrides.len(),
{
    if overrides.len() > 0 {
        let front = overrides.drop_last();
        assert forall|i: int| 0 <= i < front.len() implies (#[trigger] front[i]).channel_id.0 != channel by {
            assert(front[i] == overrides[i]);
        }
        lemma_thresholds_absent(front, channel);
    }
}

/// Every entry of a list gives its channel a threshold.
pub proof fn lemma_thresholds_present(overrides: Seq<ChannelOverride>, i: int)
    requires
        0 <= i < overrides.len(),
    ensures
        threshold_map(overrides).contains_key(overrides[i].channel_id.0),
    decreases overrides.len(),
{
    if i < overrides.len() - 1 {
        lemma_thresholds_present(overrides.drop_last(), i);
    }
}

/// A list with one entry per channel has one entry per channel without its
/// last entry too.
proof fn lemma_front_one_per_channel(overrides: Seq<ChannelOverride>)
    requires
        one_per_channel(overrides),
        overrides.len() > 0,
    ensures
        one_per_channel(overrides.drop_last()),
{
    let front = overrides.drop_last();
    assert forall|a: int, b: int| 0 <= a < b < front.len() implies (#[trigger] front[a]).channel_id != (
    #[trigger] front[b]).channel_id by {
        assert(front[a] == overrides[a] && front[b] == overrides[b]);
    }
}

/// In a list with one entry per channel, replacing the entry of a channel
/// replaces the channel's threshold and no other.
pub proof fn lemma_thresholds_update(overrides: Seq<ChannelOverride>, i: int, entry: ChannelOverride)
    requires
        one_per_channel(overrides),
        0 <= i < overrides.len(),
        entry.channel_id == overrides[i].channel_id,
    ensures
        threshold_map(overrides.update(i, entry)) == threshold_map(overrides).insert(
            entry.channel_id.0,
            entry.star_count,
        ),
    decreases overrides.len(),
{
    let front = overrides.drop_last();
    let changed = overrides.update(i, entry);
    if i == overrides.len() - 1 {
        assert(changed.drop_last() =~= front);
    } else {
        assert(changed.drop_last() =~= front.update(i, entry));
        lemma_front_one_per_channel(overrides);
        lemma_thresholds_update(front, i, entry);
    }
    assert(threshold_map(changed) =~= threshold_map(overrides).insert(entry.channel_id.0, entry.star_count));
}

/// In a list with one entry per channel, taking the entry of a channel out
/// takes the channel's threshold away and no other.
pub proof fn lemma_thresholds_remove(overrides: Seq<ChannelOverride>, i: int)
    requires
        one_per_channel(overrides),
        0 <= i < overrides.len(),
    ensures
        threshold_map(overrides.remove(i)) == threshold_map(overrides).remove(overrides[i].channel_id.0),
    decreases overrides.len(),
{
    let front = overrides.drop_last();
    let rest = overrides.remove(i);
    let channel = overrides[i].channel_id.0;
    lemma_front_one_per_channel(overrides);
    if i == overrides.len() - 1 {
        assert(rest =~= front);
        assert forall|k: int| 0 <= k < front.len() implies (#[trigger] front[k]).channel_id.0 != channel by {
            assert(front[k] == overrides[k]);
        }
        lemma_thresholds_absent(front, channel);
    } else {
        assert(rest.drop_last() =~= front.remove(i));
        lemma_thresholds_remove(front, i);
    }
    assert(threshold_map(rest) =~= threshold_map(overrides).remove(channel));
}

/// The number of stars that `channel` asks for: its override where it has
/// one, the general threshold `default` where it has none.
pub open spec fn resolved(overrides: Map<u64, u8>, channel: u64, default: u8) -> u8 {
    if overrides.contains_key(channel) {
        overrides[channel]
    } else {
        default
    }
}

/// What a read by `key` answers once the store has answered `found`: the
/// store's record if it answers to the key, which a denied record does not.
pub open spec fn taken_in(key: Key, found: Option<Record>) -> Result<Record, StarboardError> {
    match found {
        Some(r) => if key.selects(r) {
            Ok(r)
        } else {
            Err(StarboardError::NotFound)
        },
        None => Err(StarboardError::NotFound),
    }
}

/// The working set `messages` after the rows `rows` were read into it in
/// their order: a row goes in if it is not denied and its number is not in
/// the working set yet.
pub open spec fn merged(messages: Seq<Record>, rows: Seq<Record>) -> Seq<Record>
    decreases rows.len(),
{
    if rows.len() == 0 {
        messages
    } else {
        let before = merged(messages, rows.drop_last());
        let row = rows.last();
        if row.active() && place_of(before, Key::Id(row.id)).is_none() {
            cache_put(before, row)
        } else {
            before
        }
    }
}

/// What the handler holds.
pub struct HandlerView {
    /// The working set, oldest entry first.
    pub messages: Seq<Record>,
    /// The messages in flight.
    pub being_handled: Set<u64>,
    /// The threshold of every channel that has its own.
    pub overrides: Map<u64, u8>,
}

impl HandlerView {
    /// The rules of the handler: no two records of the working set share a
    /// number, and every threshold is positive.
    pub open spec fn wf(self) -> bool {
        &&& cache_wf(self.messages)
        &&& forall|c: u64| self.overrides.contains_key(c) ==> #[trigger] self.overrides[c] > 0
    }
}

/// The working set, the in-flight guard and the thresholds.
#[derive(Debug)]
pub struct StarboardHandler {
    messages: Vec<StarboardMessage>,
    being_handled: HashSet<u64>,
    overrides: HashMap<u64, u8>,
}

impl View for StarboardHandler {
    type V = HandlerView;

    closed spec fn view(&self) -> HandlerView {
        HandlerView {
            messages: records(self.messages@),
            being_handled: self.being_handled@,
            overrides: self.overrides@,
        }
    }
}

impl StarboardHandler {
    /// Whether the handler keeps its rules.
    pub open spec fn wf(&self) -> bool {
        self@.wf()
    }

    /// A handler with the thresholds that `overrides` gives, an empty
    /// working set and nothing in flight.
    pub fn new(overrides: &Vec<ChannelOverride>) -> (h: StarboardHandler)
        requires
            forall|i: int| 0 <= i < overrides.len() ==> (#[trigger] overrides[i]).star_count > 0,
        ensures
            h.wf(),
            h@.messages.len() == 0,
            h@.being_handled == Set::<u64>::empty(),
            h@.overrides == threshold_map(overrides@),
    {
        let mut map: HashMap<u64, u8> = HashMap::with_capacity(overrides.len());
        let mut i: usize = 0;
        while i < overrides.len()
            invariant
                i <= overrides.len(),
                map@ == threshold_map(overrides@.take(i as int)),
                forall|c: u64| map@.contains_key(c) ==> #[trigger] map@[c] > 0,
                forall|i: int| 0 <= i < overrides.len() ==> (#[trigger] overrides[i]).star_count > 0,
            decreases overrides.len() - i,
        {
            proof {
                assert(overrides@.take(i + 1).drop_last() =~= overrides@.take(i as int));
            }
            map.insert(overrides[i].channel_id.0, overrides[i].star_count);
            i += 1;
        }
        proof {
            assert(overrides@.take(i as int) =~= overrides@);
        }
        StarboardHandler { messages: Vec::new(), being_handled: HashSet::new(), overrides: map }
    }

    /// Takes the message `id` into flight. Answers whether it was taken:
    /// `false`, with nothing changed, where it was in flight already.
    pub fn try_acquire(&mut self, id: MessageIdWrapper) -> (acquired: bool)
        ensures
            acquired == !old(self)@.being_handled.contains(id.0),
            final(self)@ == (HandlerView {
                being_handled: guard_step(old(self)@.being_handled, GuardOp::Acquire(id.0)),
                ..old(self)@
            }),
    {
        self.being_handled.insert(id.0)
    }

    /// Lets the message `id` go. A message that is not in flight stays so.
    pub fn release(&mut self, id: MessageIdWrapper)
        ensures
            final(self)@ == (HandlerView {
                being_handled: guard_step(old(self)@.being_handled, GuardOp::Release(id.0)),
                ..old(self)@
            }),
    {
        self.being_handled.remove(&id.0);
    }

    /// Whether the message `id` is in flight.
    pub fn is_being_handled(&self, id: MessageIdWrapper) -> (r: bool)
        ensures
            r == self@.being_handled.contains(id.0),
    {
        self.being_handled.contains(&id.0)
    }

    /// The record of the working set that answers to `key`.
    pub fn get(&self, key: Key) -> (r: Option<StarboardMessage>)
        ensures
            match r {
                Some(m) => lookup(self@.messages, key) == Some(m@),
                None => lookup(self@.messages, key).is_none(),
            },
    {
        match find(&self.messages, key) {
            Some(i) => Some(self.messages[i].clone()),
            None => None,
        }
    }

    /// Puts `record` into the working set: in the place of the entry with
    /// its number, which is overwritten, not merged, or at the end where no
    /// entry has its number. No other entry is touched.
    pub fn put(&mut self, record: StarboardMessage)
        requires
            old(self).wf(),
        ensures
            final(self)@ == (HandlerView { messages: cache_put(old(self)@.messages, record@), ..old(self)@ }),
            final(self).wf(),
    {
        proof {
            lemma_put_keeps_rules(old(self)@.messages, record@);
        }
        match find(&self.messages, Key::Id(record.id)) {
            Some(i) => {
                assert(records(self.messages@.update(i as int, record)) =~= records(self.messages@).update(
                    i as int,
                    record@,
                ));
                self.messages.set(i, record);
            },
            None => {
                assert(records(self.messages@.push(record)) =~= records(self.messages@).push(record@));
                self.messages.push(record);
            },
        }
    }

    /// Ends a read by `key` that the working set could not answer, with the
    /// store's answer `found`: a record that answers to the key enters the
    /// working set and is the answer; anything else is not found.
    pub fn take_in(&mut self, key: Key, found: Option<StarboardMessage>) -> (r: Result<StarboardMessage, StarboardError>)
        requires
            old(self).wf(),
        ensures
            match r {
                Ok(m) => taken_in(key, record_of(found)) == Ok::<Record, StarboardError>(m@),
                Err(e) => taken_in(key, record_of(found)) == Err::<Record, StarboardError>(e),
            },
            final(self)@ == match r {
                Ok(m) => (HandlerView { messages: cache_put(old(self)@.messages, m@), ..old(self)@ }),
                Err(_) => old(self)@,
            },
            final(self).wf(),
    {
        match found {
            Some(m) => {
                if key.matches(&m) {
                    self.put(m.clone());
                    Ok(m)
                } else {
                    Err(StarboardError::NotFound)
                }
            },
            None => Err(StarboardError::NotFound),
        }
    }

    /// Reads the rows `rows` into the working set in their order: a row
    /// goes in if it is not denied and its number is not there yet.
    pub fn merge(&mut self, rows: &Vec<StarboardMessage>)
        requires
            old(self).wf(),
        ensures
            final(self)@ == (HandlerView { messages: merged(old(self)@.messages, records(rows@)), ..old(self)@ }),
            final(self).wf(),
    {
        let mut i: usize = 0;
        while i < rows.len()
            invariant
                i <= rows.len(),
                self.wf(),
                self@ == (HandlerView {
                    messages: merged(old(self)@.messages, records(rows@).take(i as int)),
                    ..old(self)@
                }),
            decreases rows.len() - i,
        {
            proof {
                let all = records(rows@);
                assert(all.take(i + 1).drop_last() =~= all.take(i as int));
            }
            if rows[i].is_active() && self.get(Key::Id(rows[i].id)).is_none() {
                self.put(rows[i].clone());
            }
            i += 1;
        }
        proof {
            assert(records(rows@).take(i as int) =~= records(rows@));
        }
    }

    /// Takes the record numbered `id` out of the working set.
    pub fn evict(&mut self, id: i32)
        requires
            old(self).wf(),
        ensures
            final(self)@ == (HandlerView {
                messages: evicted(old(self)@.messages, Key::Id(id)),
                ..old(self)@
            }),
            final(self).wf(),
    {
        proof {
            lemma_evicted(old(self)@.messages, id);
        }
        match find(&self.messages, Key::Id(id)) {
            Some(i) => {
                assert(records(self.messages@.remove(i as int)) =~= records(self.messages@).remove(i as int));
                self.messages.remove(i);
            },
            None => {},
        }
    }

    /// Follows a change that the store took of the record numbered `id`: a
    /// denied record leaves the working set; an accepted one that the
    /// working set holds is changed where it stands, and none is added.
    pub fn settle(&mut self, id: i32, transition: Transition)
        requires
            old(self).wf(),
        ensures
            final(self)@ == (HandlerView {
                messages: settled(old(self)@.messages, id, transition),
                ..old(self)@
            }),
            final(self).wf(),
    {
        proof {
            lemma_settled_keeps_rules(old(self)@.messages, id, transition);
        }
        match transition {
            Transition::Deny => self.evict(id),
            Transition::Accept(_) => {
                match find(&self.messages, Key::Id(id)) {
                    Some(i) => {
                        let mut row = self.messages[i].clone();
                        row.apply(transition);
                        assert(records(self.messages@.update(i as int, row)) =~= records(self.messages@).update(
                            i as int,
                            row@,
                        ));
                        self.messages.set(i, row);
                    },
                    None => {},
                }
            },
        }
    }

    /// Sets the stars of the record numbered `id`, if the working set holds
    /// it and the record may take them: one whose review is over keeps its
    /// stars, and no record loses any.
    pub fn set_star_count(&mut self, id: i32, count: i16)
        requires
            old(self).wf(),
        ensures
            final(self)@ == (HandlerView {
                messages: cache_with_stars(old(self)@.messages, id, count),
                ..old(self)@
            }),
            final(self).wf(),
    {
        match find(&self.messages, Key::Id(id)) {
            Some(i) => {
                if self.messages[i].check_star_count(count).is_ok() {
                    let mut row = self.messages[i].clone();
                    row.star_count = count;
                    assert(records(self.messages@.update(i as int, row)) =~= records(self.messages@).update(
                        i as int,
                        row@,
                    ));
                    self.messages.set(i, row);
                }
            },
            None => {},
        }
    }

    /// The whole working set, oldest entry first.
    pub fn cached(&self) -> (list: Vec<StarboardMessage>)
        ensures
            records(list@) == self@.messages,
    {
        let mut list: Vec<StarboardMessage> = Vec::new();
        let mut i: usize = 0;
        while i < self.messages.len()
            invariant
                i <= self.messages.len(),
                list.len() == i,
                forall|j: int| 0 <= j < i ==> list[j]@ == self.messages[j]@,
            decreases self.messages.len() - i,
        {
            list.push(self.messages[i].clone());
            i += 1;
        }
        list
    }

    /// The number of stars that a message in `channel` needs to enter
    /// review: the channel's own threshold where it has one, `default`
    /// where it has none.
    pub fn resolve(&self, channel: ChannelIdWrapper, default: u8) -> (threshold: u8)
        ensures
            threshold == resolved(self@.overrides, channel.0, default),
    {
        match self.overrides.get(&channel.0) {
            Some(t) => *t,
            None => default,
        }
    }

    /// Gives `channel` its own threshold.
    pub fn set_override(&mut self, channel: ChannelIdWrapper, star_count: u8)
        requires
            old(self).wf(),
            star_count > 0,
        ensures
            final(self)@ == (HandlerView {
                overrides: old(self)@.overrides.insert(channel.0, star_count),
                ..old(self)@
            }),
            final(self).wf(),
    {
        self.overrides.insert(channel.0, star_count);
    }

    /// Takes the threshold of `channel` away.
    pub fn remove_override(&mut self, channel: ChannelIdWrapper)
        requires
            old(self).wf(),
        ensures
            final(self)@ == (HandlerView { overrides: old(self)@.overrides.remove(channel.0), ..old(self)@ }),
            final(self).wf(),
    {
        self.overrides.remove(&channel.0);
    }
}

} // verus!
