//! The store and the handler together: every read goes through the working
//! set to the store, every write goes to the store first and reaches the
//! working set only once the store has taken it.

use vstd::prelude::*;
use crate::cache::cache_put;
use crate::cache::cache_wf;
use crate::cache::cache_with_stars;
use crate::cache::evicted;
use crate::cache::lemma_evicted;
use crate::cache::lemma_put_keeps_rules;
use crate::cache::lemma_settled_keeps_rules;
use crate::cache::lemma_with_stars_keeps_rules;
use crate::cache::settled;
use crate::error::StarboardError;
use crate::guard::guard_step;
use crate::guard::GuardOp;
use crate::handler::lemma_thresholds_absent;
use crate::handler::lemma_thresholds_present;
use crate::handler::lemma_thresholds_remove;
use crate::handler::lemma_thresholds_update;
use crate::handler::merged;
use crate::handler::resolved;
use crate::handler::threshold_map;
use crate::handler::HandlerView;
use crate::handler::StarboardHandler;
use crate::ids::ChannelIdWrapper;
use crate::ids::MessageIdWrapper;
use crate::ids::UserIdWrapper;
use crate::message::records;
use crate::message::Record;
use crate::message::StarboardMessage;
use crate::review::begin;
use crate::review::begun;
use crate::review::committed;
use crate::review::committed_step;
use crate::review::fetched;
use crate::review::fetched_step;
use crate::review::posted;
use crate::review::released;
use crate::review::ActionView;
use crate::review::ReviewAction;
use crate::review::ReviewOutcome;
use crate::review::ReviewReport;
use crate::review::ReviewResult;
use crate::review::ReviewStep;
use crate::review::StepView;
use crate::status::lemma_transition_from_review;
use crate::status::Posting;
use crate::status::StarboardStatus;
use crate::status::Transition;
use crate::store::lemma_delete_keeps_rules;
use crate::store::lemma_insert_keeps_rules;
use crate::store::lemma_star_count_keeps_rules;
use crate::store::lemma_transition_keeps_rules;
use crate::store::lemma_upsert_keeps_rules;
use crate::store::override_place;
use crate::store::ChannelOverride;
use crate::store::Store;
use crate::store::StoreView;
use crate::table::lemma_first_place;
use crate::table::lemma_place_found;
use crate::table::lemma_place_of;
use crate::table::lookup;
use crate::table::place_of;
use crate::table::Key;

verus! {

/// What the store and the handler hold.
pub struct DatabaseView {
    pub store: StoreView,
    pub starboard: HandlerView,
}

/// Whether every record of the working set `messages` is, letter for
/// letter, the row of `rows` with its number.
pub open spec fn mirrors(messages: Seq<Record>, rows: Seq<Record>) -> bool {
    forall|i: int| 0 <= i < messages.len() ==> lookup(rows, Key::Id((#[trigger] messages[i]).id)) == Some(messages[i])
}

impl DatabaseView {
    /// The rules of the whole: both parts keep their own, the working set
    /// holds only what the store holds, and the thresholds in memory are
    /// those of the store.
    pub open spec fn wf(self) -> bool {
        &&& self.store.wf()
        &&& self.starboard.wf()
        &&& mirrors(self.starboard.messages, self.store.rows)
        &&& self.starboard.overrides == threshold_map(self.store.overrides)
    }

    /// The same store with the working set `messages`.
    pub open spec fn with_messages(self, messages: Seq<Record>) -> DatabaseView {
        DatabaseView { starboard: HandlerView { messages, ..self.starboard }, ..self }
    }

    /// What a read by `key` answers: the working set's record where it has
    /// one, the store's where it has not.
    pub open spec fn get_result(self, key: Key) -> Result<Record, StarboardError> {
        match lookup(self.starboard.messages, key) {
            Some(r) => Ok(r),
            None => match self.store.find_result(key) {
                Err(e) => Err(e),
                Ok(None) => Err(StarboardError::NotFound),
                Ok(Some(r)) => Ok(r),
            },
        }
    }

    /// The whole after a read by `key`: a record that came from the store
    /// is in the working set.
    pub open spec fn after_get(self, key: Key) -> DatabaseView {
        match lookup(self.starboard.messages, key) {
            Some(r) => self,
            None => match self.store.find_result(key) {
                Ok(Some(r)) => self.with_messages(cache_put(self.starboard.messages, r)),
                _ => self,
            },
        }
    }

    /// The whole after `r` was offered for insertion: where the store takes
    /// it, the working set is what it was, followed by `r` under its new
    /// number.
    pub open spec fn after_insert(self, r: Record) -> DatabaseView {
        match self.store.insert_result(r) {
            Ok(id) => DatabaseView { store: self.store.after_insert(r), ..self }.with_messages(
                self.starboard.messages.push(r.with_id(id)),
            ),
            Err(_) => self,
        }
    }

    /// The whole after the record numbered `id` was offered `count` stars.
    pub open spec fn after_star_count(self, id: i32, count: i16) -> DatabaseView {
        match self.store.star_count_result(id, count) {
            Ok(_) => DatabaseView { store: self.store.after_star_count(id, count), ..self }.with_messages(
                cache_with_stars(self.starboard.messages, id, count),
            ),
            Err(_) => self,
        }
    }

    /// Whether the record posted under `posted` changes to `status`. The
    /// store must be reachable. The change is refused as illegal where no
    /// record that is not denied is posted under `posted`, be it that none
    /// is posted there at all or that the one that is was denied, and where
    /// the state machine does not allow it.
    pub open spec fn settle_result(self, posted: u64, status: StarboardStatus, posting: Option<Posting>) -> Result<
        (),
        StarboardError,
    > {
        match self.store.find_result(Key::Posted(posted)) {
            Err(e) => Err(e),
            Ok(None) => Err(StarboardError::IllegalTransition),
            Ok(Some(r)) => self.store.transition_result(r.id, status, posting),
        }
    }

    /// The whole after the record posted under `posted` was asked to change
    /// to `status`: the store changes its row, and the working set follows.
    /// A denied record leaves it; an accepted one that it holds is changed
    /// where it stands; it gains no entry.
    pub open spec fn after_settle(self, posted: u64, status: StarboardStatus, posting: Option<Posting>) -> DatabaseView {
        if self.settle_result(posted, status, posting).is_ok() {
            let r = lookup(self.store.rows, Key::Posted(posted)).unwrap();
            let t = self.store.transition_for(r.id, status, posting).unwrap();
            DatabaseView { store: self.store.after_transition(r.id, status, posting), ..self }.with_messages(
                settled(self.starboard.messages, r.id, t),
            )
        } else {
            self
        }
    }

    /// The whole after `channel` was offered the threshold `star_count`.
    pub open spec fn after_add_override(self, channel: u64, star_count: u8) -> DatabaseView {
        if self.store.available {
            DatabaseView {
                store: self.store.after_upsert(channel, star_count),
                starboard: HandlerView {
                    overrides: self.starboard.overrides.insert(channel, star_count),
                    ..self.starboard
                },
            }
        } else {
            self
        }
    }

    /// The whole after the threshold of `channel` was asked to go.
    pub open spec fn after_remove_override(self, channel: u64) -> DatabaseView {
        if self.store.available {
            DatabaseView {
                store: self.store.after_delete(channel),
                starboard: HandlerView { overrides: self.starboard.overrides.remove(channel), ..self.starboard },
            }
        } else {
            self
        }
    }

    /// The same store with the handler `starboard`.
    pub open spec fn with_starboard(self, starboard: HandlerView) -> DatabaseView {
        DatabaseView { starboard, ..self }
    }

    /// The whole after the store was asked to write the change `transition`
    /// of the record numbered `id` and the handler took the last step, and
    /// how the interaction ended.
    pub open spec fn commit(self, target: u64, id: i32, transition: Transition) -> (DatabaseView, ReviewResult) {
        let written = self.store.transition_result(id, transition.target(), transition.moves_to());
        let last = committed_step(self.starboard, target, id, transition, written);
        (
            DatabaseView {
                store: self.store.after_transition(id, transition.target(), transition.moves_to()),
                starboard: last.0,
            },
            last.1,
        )
    }

    /// The whole after the action `next` was carried out as far as the store
    /// can carry it, and where the interaction stands.
    pub open spec fn advance(self, target: u64, next: (HandlerView, ActionView)) -> (DatabaseView, StepView) {
        match next.1 {
            ActionView::Commit { id, transition } => {
                let end = self.with_starboard(next.0).commit(target, id, transition);
                (end.0, StepView::Done(end.1))
            },
            ActionView::Post(r) => (self.with_starboard(next.0), StepView::Post(r)),
            ActionView::Finish(r) => (self.with_starboard(next.0), StepView::Done(r)),
            ActionView::Fetch => (
                self.with_starboard(released(next.0, target)),
                StepView::Done(Err(StarboardError::NotFound)),
            ),
        }
    }

    /// The whole after a moderator's click was followed as far as it goes
    /// without the highlight channel, and where the interaction stands.
    pub open spec fn begin_review(self, moderator: u64, target: u64, outcome: ReviewOutcome) -> (
        DatabaseView,
        StepView,
    ) {
        let first = begun(self.starboard, moderator, target, outcome);
        let next = if first.1 is Fetch {
            fetched_step(first.0, target, outcome, self.store.find_result(Key::Posted(target)))
        } else {
            first
        };
        self.advance(target, next)
    }

    /// The whole after the highlight channel's answer was handed in, and how
    /// the interaction ended.
    pub open spec fn finish_review(self, target: u64, id: i32, answer: Option<Posting>) -> (
        DatabaseView,
        ReviewResult,
    ) {
        match answer {
            Some(p) => self.commit(target, id, Transition::Accept(p)),
            None => (self.with_starboard(released(self.starboard, target)), Ok(ReviewReport::NotPosted)),
        }
    }

    /// The whole after a moderator's click was followed to its end, the
    /// highlight channel answering `highlight` if it is asked, and how the
    /// interaction ended.
    pub open spec fn handle(self, moderator: u64, target: u64, outcome: ReviewOutcome, highlight: Option<Posting>) -> (
        DatabaseView,
        ReviewResult,
    ) {
        let begin = self.begin_review(moderator, target, outcome);
        match begin.1 {
            StepView::Done(r) => (begin.0, r),
            StepView::Post(r) => begin.0.finish_review(target, r.id, highlight),
        }
    }

    /// The whole with the in-flight set `being_handled`.
    pub open spec fn with_being_handled(self, being_handled: Set<u64>) -> DatabaseView {
        DatabaseView { starboard: HandlerView { being_handled, ..self.starboard }, ..self }
    }
}

/// The store and the handler.
pub struct Database {
    store: Store,
    starboard: StarboardHandler,
}

impl View for Database {
    type V = DatabaseView;

    closed spec fn view(&self) -> DatabaseView {
        DatabaseView { store: self.store@, starboard: self.starboard@ }
    }
}

impl Database {
    /// Whether the whole keeps its rules.
    pub open spec fn wf(&self) -> bool {
        self@.wf()
    }

    fn get_by(&mut self, key: Key) -> (r: Result<StarboardMessage, StarboardError>)
        requires
            old(self).wf(),
            key !is Id,
        ensures
            match r {
                Ok(m) => old(self)@.get_result(key) == Ok::<Record, StarboardError>(m@),
                Err(e) => old(self)@.get_result(key) == Err::<Record, StarboardError>(e),
            },
            final(self)@ == old(self)@.after_get(key),
            final(self).wf(),
    {
        if let Some(m) = self.starboard.get(key) {
            return Ok(m);
        }
        let found = match key {
            Key::Source(id) => self.store.find_by_source_message(MessageIdWrapper(id)),
            Key::Posted(id) => self.store.find_by_posted_message(MessageIdWrapper(id)),
            Key::Id(_) => Err(StarboardError::NotFound),
        };
        match found {
            Err(e) => Err(e),
            Ok(row) => {
                proof {
                    lemma_get_keeps_rules(old(self)@, key);
                }
                self.starboard.take_in(key, row)
            },
        }
    }

    /// The record that stands for the curated message `msg_id`: from the
    /// working set, or from the store, which puts it into the working set.
    /// A denied record is not found.
    pub fn get_starboard_msg(&mut self, msg_id: MessageIdWrapper) -> (r: Result<StarboardMessage, StarboardError>)
        requires
            old(self).wf(),
        ensures
            match r {
                Ok(m) => old(self)@.get_result(Key::Source(msg_id.0)) == Ok::<Record, StarboardError>(m@),
                Err(e) => old(self)@.get_result(Key::Source(msg_id.0)) == Err::<Record, StarboardError>(e),
            },
            final(self)@ == old(self)@.after_get(Key::Source(msg_id.0)),
            final(self).wf(),
    {
        self.get_by(Key::Source(msg_id.0))
    }

    /// The record that is posted under the message `starboard_msg_id`: from
    /// the working set, or from the store, which puts it into the working
    /// set. A denied record is not found.
    pub fn get_starboard_msg_by_starboard_id(&mut self, starboard_msg_id: MessageIdWrapper) -> (r: Result<
        StarboardMessage,
        StarboardError,
    >)
        requires
            old(self).wf(),
        ensures
            match r {
                Ok(m) => old(self)@.get_result(Key::Posted(starboard_msg_id.0)) == Ok::<Record, StarboardError>(
                    m@,
                ),
                Err(e) => old(self)@.get_result(Key::Posted(starboard_msg_id.0)) == Err::<
                    Record,
                    StarboardError,
                >(e),
            },
            final(self)@ == old(self)@.after_get(Key::Posted(starboard_msg_id.0)),
            final(self).wf(),
    {
        self.get_by(Key::Posted(starboard_msg_id.0))
    }
    /// Starts up on `store`: loads the thresholds before anything is served.
    /// The working set starts empty, with nothing in flight.
    pub fn new(store: Store) -> (r: Result<Database, StarboardError>)
        requires
            store.wf(),
        ensures
            match r {
                Ok(d) => {
                    &&& store@.available
                    &&& d.wf()
                    &&& d@.store == store@
                    &&& d@.starboard.messages.len() == 0
                    &&& d@.starboard.being_handled == Set::<u64>::empty()
                    &&& d@.starboard.overrides == threshold_map(store@.overrides)
                },
                Err(e) => !store@.available && e == StarboardError::StoreUnavailable,
            },
    {
        match store.load_all_overrides() {
            Err(e) => Err(e),
            Ok(overrides) => {
                let starboard = StarboardHandler::new(&overrides);
                Ok(Database { store, starboard })
            },
        }
    }

    /// The store.
    pub fn store(&self) -> (s: &Store)
        ensures
            s@ == self@.store,
    {
        &self.store
    }

    /// The handler.
    pub fn starboard(&self) -> (h: &StarboardHandler)
        ensures
            h@ == self@.starboard,
    {
        &self.starboard
    }

    /// Cuts the store off, or brings it back. What it holds stays.
    pub fn set_store_available(&mut self, available: bool)
        requires
            old(self).wf(),
        ensures
            final(self)@ == (DatabaseView { store: StoreView { available, ..old(self)@.store }, ..old(self)@ }),
            final(self).wf(),
    {
        self.store.set_available(available);
    }

    /// Takes the record numbered `id` out of the working set. The store
    /// keeps it, and the next read of it goes to the store.
    pub fn evict(&mut self, id: i32)
        requires
            old(self).wf(),
        ensures
            final(self)@ == old(self)@.with_messages(evicted(old(self)@.starboard.messages, Key::Id(id))),
            final(self).wf(),
    {
        self.starboard.evict(id);
        assert(mirrors(self.starboard@.messages, self.store@.rows));
    }

    /// Takes `m` into the store under a new number, which it answers, and
    /// adds it under that number at the end of the working set, of which
    /// nothing else changes. A message that has a record that is not denied
    /// is refused with `ConstraintViolation`, and so is a record with fewer
    /// than no stars; nothing changes.
    pub fn insert_starboard_msg(&mut self, m: StarboardMessage) -> (r: Result<i32, StarboardError>)
        requires
            old(self).wf(),
        ensures
            r == old(self)@.store.insert_result(m@),
            final(self)@ == old(self)@.after_insert(m@),
            final(self).wf(),
    {
        let mut kept = m.clone();
        match self.store.insert(m) {
            Err(e) => Err(e),
            Ok(id) => {
                proof {
                    lemma_insert_keeps_whole(old(self)@, kept@);
                }
                kept.id = id;
                self.starboard.put(kept);
                Ok(id)
            },
        }
    }

    /// Sets the number of stars of the record numbered `id` to `count`, in
    /// the store first and, once the store has taken it, in the working set.
    pub fn update_star_count(&mut self, id: i32, count: i16) -> (r: Result<(), StarboardError>)
        requires
            old(self).wf(),
        ensures
            r == old(self)@.store.star_count_result(id, count),
            final(self)@ == old(self)@.after_star_count(id, count),
            final(self).wf(),
    {
        match self.store.update_star_count(id, count) {
            Err(e) => Err(e),
            Ok(()) => {
                proof {
                    lemma_star_count_keeps_whole(old(self)@, id, count);
                }
                self.starboard.set_star_count(id, count);
                Ok(())
            },
        }
    }

    /// Takes the message into flight unless it is in flight. Answers whether
    /// it was in flight already, in which case the caller must leave it alone.
    pub fn handle_starboard(&mut self, message_id: MessageIdWrapper) -> (busy: bool)
        requires
            old(self).wf(),
        ensures
            busy == old(self)@.starboard.being_handled.contains(message_id.0),
            final(self)@ == old(self)@.with_being_handled(
                guard_step(old(self)@.starboard.being_handled, GuardOp::Acquire(message_id.0)),
            ),
            final(self).wf(),
    {
        !self.starboard.try_acquire(message_id)
    }

    /// Lets the message go, so that it can be handled again.
    pub fn stop_handle_starboard(&mut self, message_id: &MessageIdWrapper)
        requires
            old(self).wf(),
        ensures
            final(self)@ == old(self)@.with_being_handled(
                guard_step(old(self)@.starboard.being_handled, GuardOp::Release(message_id.0)),
            ),
            final(self).wf(),
    {
        self.starboard.release(*message_id);
    }

    fn settle(&mut self, posted: MessageIdWrapper, status: StarboardStatus, posting: Option<Posting>) -> (r: Result<
        (),
        StarboardError,
    >)
        requires
            old(self).wf(),
        ensures
            r == old(self)@.settle_result(posted.0, status, posting),
            final(self)@ == old(self)@.after_settle(posted.0, status, posting),
            final(self).wf(),
    {
        let row = match self.store.find_by_posted_message(posted) {
            Err(e) => {
                return Err(e);
            },
            Ok(None) => {
                return Err(StarboardError::IllegalTransition);
            },
            Ok(Some(row)) => row,
        };
        let (message_id, channel_id) = match posting {
            Some(p) => (Some(p.message_id), Some(p.channel_id)),
            None => (None, None),
        };
        match self.store.transition_status(row.id, status, message_id, channel_id) {
            Err(e) => Err(e),
            Ok(()) => {
                proof {
                    lemma_settle_keeps_whole(old(self)@, posted.0, status, posting);
                }
                let t = match posting {
                    Some(p) => if status == StarboardStatus::Accepted {
                        Transition::Accept(p)
                    } else {
                        Transition::Deny
                    },
                    None => Transition::Deny,
                };
                self.starboard.settle(row.id, t);
                Ok(())
            },
        }
    }

    /// Accepts the record posted under `starboard_message_id`: it moves to
    /// the message `new_message_id` in the channel `new_channel_id`, in the
    /// store first and, once the store has taken it, in the working set if
    /// the working set holds it. Where no record in review is posted there,
    /// the change is illegal and nothing changes.
    pub fn approve_starboard(
        &mut self,
        starboard_message_id: MessageIdWrapper,
        new_message_id: MessageIdWrapper,
        new_channel_id: ChannelIdWrapper,
    ) -> (r: Result<(), StarboardError>)
        requires
            old(self).wf(),
        ensures
            r == old(self)@.settle_result(
                starboard_message_id.0,
                StarboardStatus::Accepted,
                Some(Posting { message_id: new_message_id, channel_id: new_channel_id }),
            ),
            final(self)@ == old(self)@.after_settle(
                starboard_message_id.0,
                StarboardStatus::Accepted,
                Some(Posting { message_id: new_message_id, channel_id: new_channel_id }),
            ),
            final(self).wf(),
    {
        self.settle(
            starboard_message_id,
            StarboardStatus::Accepted,
            Some(Posting { message_id: new_message_id, channel_id: new_channel_id }),
        )
    }

    /// Denies the record posted under `starboard_message_id`: the store
    /// keeps it as denied, and the working set drops it. Where no record in
    /// review is posted there, the change is illegal and nothing changes.
    pub fn deny_starboard(&mut self, starboard_message_id: MessageIdWrapper) -> (r: Result<(), StarboardError>)
        requires
            old(self).wf(),
        ensures
            r == old(self)@.settle_result(starboard_message_id.0, StarboardStatus::Denied, None),
            final(self)@ == old(self)@.after_settle(starboard_message_id.0, StarboardStatus::Denied, None),
            final(self).wf(),
    {
        self.settle(starboard_message_id, StarboardStatus::Denied, None)
    }

    /// Reads every record of the store that is not denied into the working
    /// set, unless its number is there already, and answers the working set.
    pub fn get_all_starboard(&mut self) -> (r: Result<Vec<StarboardMessage>, StarboardError>)
        requires
            old(self).wf(),
        ensures
            match r {
                Ok(list) => {
                    &&& old(self)@.store.available
                    &&& records(list@) == merged(old(self)@.starboard.messages, old(self)@.store.rows)
                    &&& final(self)@ == old(self)@.with_messages(records(list@))
                },
                Err(e) => {
                    &&& !old(self)@.store.available
                    &&& e == StarboardError::StoreUnavailable
                    &&& final(self)@ == old(self)@
                },
            },
            final(self).wf(),
    {
        let rows = match self.store.load_all() {
            Err(e) => {
                return Err(e);
            },
            Ok(rows) => rows,
        };
        proof {
            lemma_merged_mirrors(old(self)@);
        }
        self.starboard.merge(&rows);
        Ok(self.starboard.cached())
    }

    /// Gives `channel_id` its own threshold, in the store first and, once
    /// the store has taken it, in memory.
    pub fn add_starboard_override(&mut self, channel_id: ChannelIdWrapper, starcount: u8) -> (r: Result<
        (),
        StarboardError,
    >)
        requires
            old(self).wf(),
            starcount > 0,
        ensures
            r == if old(self)@.store.available {
                Ok::<(), StarboardError>(())
            } else {
                Err::<(), StarboardError>(StarboardError::StoreUnavailable)
            },
            final(self)@ == old(self)@.after_add_override(channel_id.0, starcount),
            final(self).wf(),
    {
        match self.store.upsert_override(channel_id, starcount) {
            Err(e) => Err(e),
            Ok(()) => {
                proof {
                    lemma_add_override_keeps_whole(old(self)@, channel_id.0, starcount);
                }
                self.starboard.set_override(channel_id, starcount);
                Ok(())
            },
        }
    }

    /// Takes the threshold of `channel_id` away, in the store first and,
    /// once the store has done so, in memory. Answers whether the channel
    /// had one.
    pub fn remove_starboard_override(&mut self, channel_id: ChannelIdWrapper) -> (r: Result<bool, StarboardError>)
        requires
            old(self).wf(),
        ensures
            r == if old(self)@.store.available {
                Ok::<bool, StarboardError>(old(self)@.starboard.overrides.contains_key(channel_id.0))
            } else {
                Err::<bool, StarboardError>(StarboardError::StoreUnavailable)
            },
            final(self)@ == old(self)@.after_remove_override(channel_id.0),
            final(self).wf(),
    {
        proof {
            lemma_remove_override_keeps_whole(old(self)@, channel_id.0);
        }
        match self.store.delete_override(channel_id) {
            Err(e) => Err(e),
            Ok(false) => Ok(false),
            Ok(true) => {
                self.starboard.remove_override(channel_id);
                Ok(true)
            },
        }
    }

    /// The number of stars that a message in `channel` needs to enter
    /// review: the channel's own threshold where it has one, `default`
    /// where it has none.
    pub fn resolve(&self, channel: ChannelIdWrapper, default: u8) -> (threshold: u8)
        ensures
            threshold == resolved(self@.starboard.overrides, channel.0, default),
    {
        self.starboard.resolve(channel, default)
    }

    fn commit(&mut self, target: MessageIdWrapper, id: i32, transition: Transition) -> (r: ReviewResult)
        requires
            old(self).wf(),
        ensures
            (final(self)@, r) == old(self)@.commit(target.0, id, transition),
            final(self).wf(),
    {
        let (message_id, channel_id) = match transition.posting() {
            Some(p) => (Some(p.message_id), Some(p.channel_id)),
            None => (None, None),
        };
        proof {
            lemma_commit_keeps_whole(old(self)@, target.0, id, transition);
        }
        let written = self.store.transition_status(id, transition.status(), message_id, channel_id);
        committed(&mut self.starboard, target, id, transition, written)
    }

    /// Follows the click of `moderator_id`, who asks for `outcome` on the
    /// record posted under `target`, as far as it goes without the
    /// highlight channel: a denial to its end, an acceptance up to the post.
    pub fn begin_review(&mut self, moderator_id: UserIdWrapper, target: MessageIdWrapper, outcome: ReviewOutcome) -> (step:
        ReviewStep)
        requires
            old(self).wf(),
        ensures
            (final(self)@, step@) == old(self)@.begin_review(moderator_id.0, target.0, outcome),
            final(self).wf(),
    {
        let first = begin(&mut self.starboard, moderator_id, target, outcome);
        let next = match first {
            ReviewAction::Fetch => {
                proof {
                    lemma_fetch_keeps_whole(
                        DatabaseView { store: self.store@, starboard: self.starboard@ },
                        target.0,
                        outcome,
                    );
                }
                let found = self.store.find_by_posted_message(target);
                fetched(&mut self.starboard, target, outcome, found)
            },
            other => other,
        };
        match next {
            ReviewAction::Commit { id, transition } => ReviewStep::Done(self.commit(target, id, transition)),
            ReviewAction::Post(record) => ReviewStep::Post(record),
            ReviewAction::Finish(r) => ReviewStep::Done(r),
            ReviewAction::Fetch => {
                self.starboard.release(target);
                ReviewStep::Done(Err(StarboardError::NotFound))
            },
        }
    }

    /// Ends an acceptance with the answer of the highlight channel to the
    /// post of the record numbered `id`: with a posting the acceptance is
    /// written, without one the record stays in review. Either way the
    /// message `target` is let go.
    pub fn finish_review(&mut self, target: MessageIdWrapper, id: i32, answer: Option<Posting>) -> (r: ReviewResult)
        requires
            old(self).wf(),
        ensures
            (final(self)@, r) == old(self)@.finish_review(target.0, id, answer),
            final(self).wf(),
    {
        match posted(&mut self.starboard, target, id, answer) {
            ReviewAction::Commit { id, transition } => self.commit(target, id, transition),
            ReviewAction::Finish(r) => r,
            _ => Err(StarboardError::NotFound),
        }
    }

    /// Follows the click of `moderator_id`, who asks for `outcome` on the
    /// record posted under `target`, to its end. `highlight` is what the
    /// highlight channel answers if the record is posted there: the new
    /// posting, or nothing where the post fails.
    pub fn handle(
        &mut self,
        moderator_id: UserIdWrapper,
        target: MessageIdWrapper,
        outcome: ReviewOutcome,
        highlight: Option<Posting>,
    ) -> (r: ReviewResult)
        requires
            old(self).wf(),
        ensures
            (final(self)@, r) == old(self)@.handle(moderator_id.0, target.0, outcome, highlight),
            final(self).wf(),
    {
        match self.begin_review(moderator_id, target, outcome) {
            ReviewStep::Done(r) => r,
            ReviewStep::Post(record) => self.finish_review(target, record.id, highlight),
        }
    }
}

/// Putting a row of the store into the working set leaves a working set
/// that mirrors the store.
proof fn lemma_put_mirrors(messages: Seq<Record>, rows: Seq<Record>, r: Record)
    requires
        mirrors(messages, rows),
        lookup(rows, Key::Id(r.id)) == Some(r),
    ensures
        mirrors(cache_put(messages, r), rows),
{
    let out = cache_put(messages, r);
    lemma_place_of(messages, Key::Id(r.id));
    assert forall|j: int| 0 <= j < out.len() implies lookup(rows, Key::Id((#[trigger] out[j]).id)) == Some(out[j]) by {
        if out[j] != r {
            assert(out[j] == messages[j]);
        }
    }
}

/// In a store that keeps its rules, a row is the one found by its number.
proof fn lemma_row_by_id(s: StoreView, i: int)
    requires
        s.wf(),
        0 <= i < s.rows.len(),
    ensures
        place_of(s.rows, Key::Id(s.rows[i].id)) == Some(i),
{
    lemma_place_found(s.rows, Key::Id(s.rows[i].id), i);
}

/// A read keeps the rules of the whole.
pub proof fn lemma_get_keeps_rules(d: DatabaseView, key: Key)
    requires
        d.wf(),
    ensures
        d.after_get(key).wf(),
{
    if lookup(d.starboard.messages, key).is_none() {
        match d.store.find_result(key) {
            Ok(Some(r)) => {
                lemma_row_by_id(d.store, place_of(d.store.rows, key).unwrap());
                lemma_put_mirrors(d.starboard.messages, d.store.rows, r);
                lemma_put_keeps_rules(d.starboard.messages, r);
            },
            _ => {},
        }
    }
}

/// A change to one row that keeps its number moves no row: every number
/// is found where it was.
proof fn lemma_update_keeps_places(rows: Seq<Record>, i: int, row: Record, id: i32)
    requires
        0 <= i < rows.len(),
        row.id == rows[i].id,
    ensures
        place_of(rows.update(i, row), Key::Id(id)) == place_of(rows, Key::Id(id)),
{
    lemma_place_of(rows, Key::Id(id));
    match place_of(rows, Key::Id(id)) {
        Some(p) => lemma_place_found(rows.update(i, row), Key::Id(id), p),
        None => {},
    }
}

/// A new last row with a number of its own moves no row: every other
/// number is found where it was.
proof fn lemma_push_keeps_places(rows: Seq<Record>, row: Record, id: i32)
    requires
        row.id != id,
    ensures
        place_of(rows.push(row), Key::Id(id)) == place_of(rows, Key::Id(id)),
{
    lemma_place_of(rows, Key::Id(id));
    match place_of(rows, Key::Id(id)) {
        Some(p) => lemma_place_found(rows.push(row), Key::Id(id), p),
        None => {},
    }
}

/// An insertion keeps the rules of the whole.
pub proof fn lemma_insert_keeps_whole(d: DatabaseView, r: Record)
    requires
        d.wf(),
    ensures
        d.after_insert(r).wf(),
{
    match d.store.insert_result(r) {
        Ok(id) => {
            let row = r.with_id(id);
            let rows = d.store.rows.push(row);
            let messages = d.starboard.messages;
            lemma_insert_keeps_rules(d.store, r);
            assert forall|i: int| 0 <= i < messages.len() implies lookup(rows, Key::Id((#[trigger] messages[i]).id))
                == Some(messages[i]) by {
                lemma_push_keeps_places(d.store.rows, row, messages[i].id);
            }
            lemma_place_found(rows, Key::Id(id), d.store.rows.len() as int);
            lemma_put_mirrors(messages, rows, row);
            lemma_put_keeps_rules(messages, row);
        },
        Err(_) => {},
    }
}

/// Setting a number of stars keeps the rules of the whole.
pub proof fn lemma_star_count_keeps_whole(d: DatabaseView, id: i32, count: i16)
    requires
        d.wf(),
    ensures
        d.after_star_count(id, count).wf(),
{
    if d.store.star_count_result(id, count).is_ok() {
        let messages = d.starboard.messages;
        let p = place_of(d.store.rows, Key::Id(id)).unwrap();
        let row = d.store.rows[p].with_star_count(count);
        let after = cache_with_stars(messages, id, count);
        lemma_star_count_keeps_rules(d.store, id, count);
        lemma_with_stars_keeps_rules(messages, id, count);
        lemma_place_of(messages, Key::Id(id));
        assert forall|i: int| 0 <= i < after.len() implies lookup(
            d.store.rows.update(p, row),
            Key::Id((#[trigger] after[i]).id),
        ) == Some(after[i]) by {
            lemma_update_keeps_places(d.store.rows, p, row, after[i].id);
        }
    }
}

/// Once the store has changed a row, the working set that follows the
/// change mirrors the store.
proof fn lemma_settled_mirrors(messages: Seq<Record>, rows: Seq<Record>, q: int, transition: Transition)
    requires
        cache_wf(messages),
        mirrors(messages, rows),
        0 <= q < rows.len(),
        place_of(rows, Key::Id(rows[q].id)) == Some(q),
    ensures
        mirrors(settled(messages, rows[q].id, transition), rows.update(q, rows[q].after(transition))),
{
    let id = rows[q].id;
    let row = rows[q].after(transition);
    let after = settled(messages, id, transition);
    lemma_place_of(messages, Key::Id(id));
    lemma_evicted(messages, id);
    lemma_place_of(evicted(messages, Key::Id(id)), Key::Id(id));
    lemma_update_keeps_places(rows, q, row, id);
    assert forall|j: int| 0 <= j < after.len() implies lookup(rows.update(q, row), Key::Id((#[trigger] after[j]).id))
        == Some(after[j]) by {
        lemma_update_keeps_places(rows, q, row, after[j].id);
        match transition {
            Transition::Deny => {
                let p = place_of(messages, Key::Id(id));
                let j0 = if p.is_some() && j >= p.unwrap() { j + 1 } else { j };
                assert(after[j] == messages[j0]);
                assert(!Key::Id(id).selects(after[j]));
            },
            Transition::Accept(_) => {
                assert(after[j].id == messages[j].id);
                if messages[j].id != id {
                    assert(after[j] == messages[j]);
                }
            },
        }
    }
}

/// A change of status keeps the rules of the whole.
pub proof fn lemma_settle_keeps_whole(d: DatabaseView, posted: u64, status: StarboardStatus, posting: Option<Posting>)
    requires
        d.wf(),
    ensures
        d.after_settle(posted, status, posting).wf(),
{
    if d.settle_result(posted, status, posting).is_ok() {
        let r = lookup(d.store.rows, Key::Posted(posted)).unwrap();
        let q = place_of(d.store.rows, Key::Posted(posted)).unwrap();
        let t = d.store.transition_for(r.id, status, posting).unwrap();
        lemma_row_by_id(d.store, q);
        lemma_transition_keeps_rules(d.store, r.id, status, posting);
        lemma_settled_keeps_rules(d.starboard.messages, r.id, t);
        lemma_settled_mirrors(d.starboard.messages, d.store.rows, q, t);
    }
}

/// Giving a channel a threshold keeps the rules of the whole.
pub proof fn lemma_add_override_keeps_whole(d: DatabaseView, channel: u64, star_count: u8)
    requires
        d.wf(),
        star_count > 0,
    ensures
        d.after_add_override(channel, star_count).wf(),
{
    if d.store.available {
        let entry = ChannelOverride { channel_id: ChannelIdWrapper(channel), star_count };
        lemma_upsert_keeps_rules(d.store, channel, star_count);
        lemma_first_place(d.store.overrides, |o: ChannelOverride| o.channel_id.0 == channel);
        match override_place(d.store.overrides, channel) {
            Some(i) => lemma_thresholds_update(d.store.overrides, i, entry),
            None => {
                assert(d.store.overrides.push(entry).drop_last() =~= d.store.overrides);
            },
        }
    }
}

/// Taking a threshold away keeps the rules of the whole, and a channel has
/// a threshold in memory just when the store has one for it.
pub proof fn lemma_remove_override_keeps_whole(d: DatabaseView, channel: u64)
    requires
        d.wf(),
    ensures
        d.after_remove_override(channel).wf(),
        d.starboard.overrides.contains_key(channel) == override_place(d.store.overrides, channel).is_some(),
{
    lemma_delete_keeps_rules(d.store, channel);
    lemma_first_place(d.store.overrides, |o: ChannelOverride| o.channel_id.0 == channel);
    match override_place(d.store.overrides, channel) {
        Some(i) => {
            lemma_thresholds_remove(d.store.overrides, i);
            lemma_thresholds_present(d.store.overrides, i);
        },
        None => {
            lemma_thresholds_absent(d.store.overrides, channel);
            assert(d.starboard.overrides.remove(channel) =~= d.starboard.overrides);
        },
    }
}

/// The last step of an interaction keeps the rules of the whole.
pub proof fn lemma_commit_keeps_whole(d: DatabaseView, target: u64, id: i32, transition: Transition)
    requires
        d.wf(),
    ensures
        d.commit(target, id, transition).0.wf(),
{
    if d.store.transition_result(id, transition.target(), transition.moves_to()).is_ok() {
        let messages = d.starboard.messages;
        let q = place_of(d.store.rows, Key::Id(id)).unwrap();
        let row = d.store.rows[q].after(transition);
        lemma_place_of(d.store.rows, Key::Id(id));
        lemma_transition_from_review(transition);
        lemma_transition_keeps_rules(d.store, id, transition.target(), transition.moves_to());
        lemma_row_by_id(d.store, q);
        lemma_settled_keeps_rules(messages, id, transition);
        lemma_settled_mirrors(messages, d.store.rows, q, transition);
    }
}

/// The step after the store was asked keeps the rules of the whole.
pub proof fn lemma_fetch_keeps_whole(d: DatabaseView, target: u64, outcome: ReviewOutcome)
    requires
        d.wf(),
    ensures
        d.with_starboard(
            fetched_step(d.starboard, target, outcome, d.store.find_result(Key::Posted(target))).0,
        ).wf(),
{
    match d.store.find_result(Key::Posted(target)) {
        Ok(Some(r)) => {
            lemma_row_by_id(d.store, place_of(d.store.rows, Key::Posted(target)).unwrap());
            lemma_put_mirrors(d.starboard.messages, d.store.rows, r);
            lemma_put_keeps_rules(d.starboard.messages, r);
        },
        _ => {},
    }
}

/// Reading the rows of the store into the working set leaves a working set
/// that mirrors the store.
pub proof fn lemma_merged_mirrors(d: DatabaseView)
    requires
        d.wf(),
    ensures
        mirrors(merged(d.starboard.messages, d.store.rows), d.store.rows),
{
    lemma_merged_prefix_mirrors(d, d.store.rows.len() as int);
    assert(d.store.rows.take(d.store.rows.len() as int) =~= d.store.rows);
}

proof fn lemma_merged_prefix_mirrors(d: DatabaseView, n: int)
    requires
        d.wf(),
        0 <= n <= d.store.rows.len(),
    ensures
        mirrors(merged(d.starboard.messages, d.store.rows.take(n)), d.store.rows),
    decreases n,
{
    if n > 0 {
        assert(d.store.rows.take(n).drop_last() =~= d.store.rows.take(n - 1));
        lemma_merged_prefix_mirrors(d, n - 1);
        lemma_row_by_id(d.store, n - 1);
        lemma_put_mirrors(merged(d.starboard.messages, d.store.rows.take(n - 1)), d.store.rows, d.store.rows[n - 1]);
    }
}

} // verus!
