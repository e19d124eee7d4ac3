//! What holds of the store through every sequence of writes: rows are never
//! lost, stars are never lost, and a row whose review is over never changes
//! again.

use vstd::prelude::*;
use crate::cache::evicted;
use crate::cache::lemma_evicted;
use crate::database::DatabaseView;
use crate::error::StarboardError;
use crate::message::Record;
use crate::review::allowed;
use crate::review::ReviewOutcome;
use crate::review::ReviewReport;
use crate::review::StepView;
use crate::status::Posting;
use crate::status::StarboardStatus;
use crate::store::StoreView;
use crate::table::lemma_place_found;
use crate::table::lemma_place_of;
use crate::table::lookup;
use crate::table::place_of;
use crate::table::Key;

verus! {

/// One call that may change what the store holds.
pub enum StoreOp {
    Insert(Record),
    UpdateStarCount { id: i32, count: i16 },
    TransitionStatus { id: i32, status: StarboardStatus, posting: Option<Posting> },
    UpsertOverride { channel: u64, star_count: u8 },
    DeleteOverride { channel: u64 },
    SetAvailable(bool),
}

impl StoreOp {
    /// Whether the call may be made: a threshold must be positive.
    pub open spec fn valid(self) -> bool {
        self matches StoreOp::UpsertOverride { star_count, .. } ==> star_count > 0
    }
}

/// The store after the call `op`.
pub open spec fn store_after(s: StoreView, op: StoreOp) -> StoreView {
    match op {
        StoreOp::Insert(r) => s.after_insert(r),
        StoreOp::UpdateStarCount { id, count } => s.after_star_count(id, count),
        StoreOp::TransitionStatus { id, status, posting } => s.after_transition(id, status, posting),
        StoreOp::UpsertOverride { channel, star_count } => s.after_upsert(channel, star_count),
        StoreOp::DeleteOverride { channel } => s.after_delete(channel),
        StoreOp::SetAvailable(available) => StoreView { available, ..s },
    }
}

/// The store after the calls `ops`, made in their order.
pub open spec fn store_after_all(s: StoreView, ops: Seq<StoreOp>) -> StoreView
    decreases ops.len(),
{
    if ops.len() == 0 {
        s
    } else {
        store_after(store_after_all(s, ops.drop_last()), ops.last())
    }
}

/// Whether `later` is what may have become of the row `earlier`. It has the
/// same number and says the same of the curated message; it has lost no
/// star; it stands under another posting only if it was in review and is
/// now accepted; and it has not changed at all if the review was over.
pub open spec fn follows(earlier: Record, later: Record) -> bool {
    &&& later == Record {
        star_count: later.star_count,
        status: later.status,
        starboard_message_id: later.starboard_message_id,
        starboard_message_channel: later.starboard_message_channel,
        ..earlier
    }
    &&& later.star_count >= earlier.star_count
    &&& earlier.status.terminal() ==> later == earlier
    &&& (later.starboard_message_id != earlier.starboard_message_id || later.starboard_message_channel
        != earlier.starboard_message_channel) ==> earlier.status == StarboardStatus::InReview && later.status
        == StarboardStatus::Accepted
}

/// Every call keeps the rules of the tables.
pub proof fn lemma_call_keeps_rules(s: StoreView, op: StoreOp)
    requires
        s.wf(),
        op.valid(),
    ensures
        store_after(s, op).wf(),
{
    match op {
        StoreOp::Insert(r) => crate::store::lemma_insert_keeps_rules(s, r),
        StoreOp::UpdateStarCount { id, count } => crate::store::lemma_star_count_keeps_rules(s, id, count),
        StoreOp::TransitionStatus { id, status, posting } => crate::store::lemma_transition_keeps_rules(
            s,
            id,
            status,
            posting,
        ),
        StoreOp::UpsertOverride { channel, star_count } => crate::store::lemma_upsert_keeps_rules(
            s,
            channel,
            star_count,
        ),
        StoreOp::DeleteOverride { channel } => crate::store::lemma_delete_keeps_rules(s, channel),
        StoreOp::SetAvailable(_) => {},
    }
}

/// Whatever call is made, every row is still there under its number, and
/// is what may have become of it.
pub proof fn lemma_call_moves_rows_forward(s: StoreView, op: StoreOp, i: int)
    requires
        s.wf(),
        0 <= i < s.rows.len(),
    ensures
        lookup(store_after(s, op).rows, Key::Id(s.rows[i].id)) matches Some(later) && follows(s.rows[i], later),
{
    let key = Key::Id(s.rows[i].id);
    let t = store_after(s, op);
    lemma_place_found(s.rows, key, i);
    if t.rows != s.rows {
        // A call that changes the rows adds one at the end or changes one
        // in its place: every row keeps its place and its number.
        assert forall|j: int| 0 <= j < i implies !key.selects(#[trigger] t.rows[j]) by {
            assert(t.rows[j].id == s.rows[j].id);
        }
        lemma_place_found(t.rows, key, i);
    }
}

/// Whatever calls are made in whatever order, every row is still there
/// under its number afterwards and is what may have become of it: no row is
/// lost, no star is lost, the posting changes once, when the record is
/// accepted, and once a record has left review, neither its stars nor its
/// posting nor anything else of it changes again.
pub proof fn lemma_rows_only_move_forward(s: StoreView, ops: Seq<StoreOp>, i: int)
    requires
        s.wf(),
        forall|k: int| 0 <= k < ops.len() ==> (#[trigger] ops[k]).valid(),
        0 <= i < s.rows.len(),
    ensures
        store_after_all(s, ops).wf(),
        lookup(store_after_all(s, ops).rows, Key::Id(s.rows[i].id)) matches Some(later) && follows(s.rows[i], later),
    decreases ops.len(),
{
    if ops.len() == 0 {
        lemma_place_found(s.rows, Key::Id(s.rows[i].id), i);
    } else {
        let front = ops.drop_last();
        let mid = store_after_all(s, front);
        assert forall|k: int| 0 <= k < front.len() implies (#[trigger] front[k]).valid() by {
            assert(front[k] == ops[k]);
        }
        lemma_rows_only_move_forward(s, front, i);
        lemma_call_keeps_rules(mid, ops.last());
        lemma_place_of(mid.rows, Key::Id(s.rows[i].id));
        lemma_call_moves_rows_forward(mid, ops.last(), place_of(mid.rows, Key::Id(s.rows[i].id)).unwrap());
    }
}

/// A change of status asked of a row whose review is over is refused as
/// illegal by a store that can be reached, whatever status is asked for,
/// and the store stays as it is, the row included.
pub proof fn lemma_terminal_row_refuses_transition(
    s: StoreView,
    i: int,
    status: StarboardStatus,
    posting: Option<Posting>,
)
    requires
        s.wf(),
        s.available,
        0 <= i < s.rows.len(),
        s.rows[i].status.terminal(),
    ensures
        s.transition_result(s.rows[i].id, status, posting) == Err::<(), StarboardError>(
            StarboardError::IllegalTransition,
        ),
        s.after_transition(s.rows[i].id, status, posting) == s,
{
}

/// A change of status asked under a number that the store has given to no
/// row is refused as illegal, and the store stays as it is.
pub proof fn lemma_unknown_row_refuses_transition(
    s: StoreView,
    id: i32,
    status: StarboardStatus,
    posting: Option<Posting>,
)
    requires
        s.available,
        forall|i: int| 0 <= i < s.rows.len() ==> (#[trigger] s.rows[i]).id != id,
    ensures
        s.transition_result(id, status, posting) == Err::<(), StarboardError>(StarboardError::IllegalTransition),
        s.after_transition(id, status, posting) == s,
{
}

/// Setting a number of stars twice is setting it once.
pub proof fn lemma_star_count_idempotent(s: StoreView, id: i32, count: i16)
    requires
        s.wf(),
    ensures
        s.after_star_count(id, count).after_star_count(id, count) == s.after_star_count(id, count),
        s.star_count_result(id, count).is_ok() ==> s.after_star_count(id, count).star_count_result(id, count).is_ok(),
{
    if s.star_count_result(id, count).is_ok() {
        let q = place_of(s.rows, Key::Id(id)).unwrap();
        let t = s.after_star_count(id, count);
        lemma_place_of(s.rows, Key::Id(id));
        lemma_place_found(t.rows, Key::Id(id), q);
        assert(t.rows.update(q, t.rows[q].with_star_count(count)) =~= t.rows);
    }
}

/// Once a record that is not denied is taken out of the working set, the
/// working set has nothing under its number, a read by its curated message
/// finds nothing there, and the read is answered by the store.
pub proof fn lemma_evicted_read_falls_through(d: DatabaseView, i: int)
    requires
        d.wf(),
        0 <= i < d.starboard.messages.len(),
        d.starboard.messages[i].active(),
    ensures
        ({
            let r = d.starboard.messages[i];
            let key = Key::Source(r.message_id);
            let after = d.with_messages(evicted(d.starboard.messages, Key::Id(r.id)));
            &&& lookup(after.starboard.messages, Key::Id(r.id)).is_none()
            &&& lookup(after.starboard.messages, key).is_none()
            &&& after.get_result(key) == match d.store.find_result(key) {
                Err(e) => Err::<Record, StarboardError>(e),
                Ok(None) => Err::<Record, StarboardError>(StarboardError::NotFound),
                Ok(Some(found)) => Ok::<Record, StarboardError>(found),
            }
        }),
{
    let messages = d.starboard.messages;
    let r = messages[i];
    let key = Key::Source(r.message_id);
    let rest = evicted(messages, Key::Id(r.id));
    lemma_place_found(messages, Key::Id(r.id), i);
    lemma_evicted(messages, r.id);
    lemma_place_of(rest, Key::Id(r.id));
    lemma_place_of(rest, key);
    lemma_place_of(d.store.rows, Key::Id(r.id));
    match place_of(rest, key) {
        Some(j) => {
            // Another record of the working set for the same message would
            // be a second row of the store for it that is not denied.
            let j0 = if j < i { j } else { j + 1 };
            assert(rest[j] == messages[j0]);
            lemma_place_of(d.store.rows, Key::Id(messages[j0].id));
            assert(!Key::Id(r.id).selects(rest[j]));
        },
        None => {},
    }
}

/// While an acceptance waits for the highlight channel, a second click on
/// the same message is turned away with nothing done and nothing to be
/// posted: an allowed moderator finds the message in flight, any other user
/// is refused.
pub proof fn lemma_second_click_is_turned_away(
    d: DatabaseView,
    first: u64,
    second: u64,
    target: u64,
    asked_first: ReviewOutcome,
    asked_second: ReviewOutcome,
)
    requires
        d.begin_review(first, target, asked_first).1 is Post,
    ensures
        ({
            let waiting = d.begin_review(first, target, asked_first).0;
            waiting.begin_review(second, target, asked_second) == (
                waiting,
                StepView::Done(
                    if allowed(second) {
                        Ok(ReviewReport::InFlight)
                    } else {
                        Err(StarboardError::Unauthorized)
                    },
                ),
            )
        }),
{
}

/// A click followed to its end leaves in flight exactly what was in flight
/// before it: the message is let go on every path, and a message that
/// someone else holds stays held.
pub proof fn lemma_handle_lets_go(
    d: DatabaseView,
    moderator: u64,
    target: u64,
    outcome: ReviewOutcome,
    highlight: Option<Posting>,
)
    ensures
        d.handle(moderator, target, outcome, highlight).0.starboard.being_handled == d.starboard.being_handled,
{
}

/// A click that does not end in an acceptance or a denial writes nothing:
/// the store is as it was.
pub proof fn lemma_failed_click_writes_nothing(
    d: DatabaseView,
    moderator: u64,
    target: u64,
    outcome: ReviewOutcome,
    highlight: Option<Posting>,
)
    requires
        d.handle(moderator, target, outcome, highlight).1 != Ok::<ReviewReport, StarboardError>(
            ReviewReport::Accepted,
        ),
        d.handle(moderator, target, outcome, highlight).1 != Ok::<ReviewReport, StarboardError>(
            ReviewReport::Denied,
        ),
    ensures
        d.handle(moderator, target, outcome, highlight).0.store == d.store,
{
}

/// How a click on the message `target` ends, said in one piece: who may
/// click, what must be found, and what the store and the highlight channel
/// must answer for the record to be accepted or denied.
pub open spec fn click_result(
    d: DatabaseView,
    moderator: u64,
    target: u64,
    outcome: ReviewOutcome,
    highlight: Option<Posting>,
) -> Result<ReviewReport, StarboardError> {
    if !allowed(moderator) {
        Err(StarboardError::Unauthorized)
    } else if d.starboard.being_handled.contains(target) {
        Ok(ReviewReport::InFlight)
    } else {
        match d.get_result(Key::Posted(target)) {
            Err(e) => Err(e),
            Ok(r) => if r.status.terminal() {
                Err(StarboardError::IllegalTransition)
            } else if outcome == ReviewOutcome::Accept && highlight.is_none() {
                Ok(ReviewReport::NotPosted)
            } else if !d.store.available {
                Err(StarboardError::StoreUnavailable)
            } else if outcome == ReviewOutcome::Accept {
                Ok(ReviewReport::Accepted)
            } else {
                Ok(ReviewReport::Denied)
            },
        }
    }
}

/// A click followed to its end ends as `click_result` says, and where it
/// ends in an acceptance or a denial, the store has changed the record that
/// the target resolved to, and nothing else.
pub proof fn lemma_handle_outcome(
    d: DatabaseView,
    moderator: u64,
    target: u64,
    outcome: ReviewOutcome,
    highlight: Option<Posting>,
)
    requires
        d.wf(),
    ensures
        d.handle(moderator, target, outcome, highlight).1 == click_result(d, moderator, target, outcome, highlight),
        d.handle(moderator, target, outcome, highlight).1 == Ok::<ReviewReport, StarboardError>(
            ReviewReport::Accepted,
        ) ==> d.get_result(Key::Posted(target)).is_ok() && highlight.is_some() && d.handle(
            moderator,
            target,
            outcome,
            highlight,
        ).0.store == d.store.after_transition(
            d.get_result(Key::Posted(target)).unwrap().id,
            StarboardStatus::Accepted,
            highlight,
        ),
        d.handle(moderator, target, outcome, highlight).1 == Ok::<ReviewReport, StarboardError>(
            ReviewReport::Denied,
        ) ==> d.get_result(Key::Posted(target)).is_ok() && d.handle(
            moderator,
            target,
            outcome,
            highlight,
        ).0.store == d.store.after_transition(
            d.get_result(Key::Posted(target)).unwrap().id,
            StarboardStatus::Denied,
            None,
        ),
{
    if allowed(moderator) && !d.starboard.being_handled.contains(target) {
        let key = Key::Posted(target);
        match d.get_result(key) {
            Ok(r) => {
                assert(lookup(d.store.rows, Key::Id(r.id)) == Some(r)) by {
                    match lookup(d.starboard.messages, key) {
                        Some(c) => {},
                        None => {
                            let q = place_of(d.store.rows, key).unwrap();
                            lemma_place_found(d.store.rows, Key::Id(r.id), q);
                        },
                    }
                }
            },
            Err(_) => {},
        }
    }
}

/// A change asked under a message under which no record in review is
/// posted is refused as illegal by a store that can be reached, and store
/// and working set stay as they are: so it is where nothing is posted under
/// the message, and where what is posted there was accepted or denied.
pub proof fn lemma_settle_refuses_without_review(
    d: DatabaseView,
    posted: u64,
    status: StarboardStatus,
    posting: Option<Posting>,
)
    requires
        d.wf(),
        d.store.available,
        forall|j: int|
            0 <= j < d.store.rows.len() && (#[trigger] d.store.rows[j]).starboard_message_id == posted
                ==> d.store.rows[j].status.terminal(),
    ensures
        d.settle_result(posted, status, posting) == Err::<(), StarboardError>(StarboardError::IllegalTransition),
        d.after_settle(posted, status, posting) == d,
{
    lemma_place_of(d.store.rows, Key::Posted(posted));
    match place_of(d.store.rows, Key::Posted(posted)) {
        Some(q) => {
            lemma_place_found(d.store.rows, Key::Id(d.store.rows[q].id), q);
        },
        None => {},
    }
}

/// An insertion that the store takes leaves the working set as it was,
/// followed by the record under its new number; one that the store refuses
/// leaves store and working set as they were.
pub proof fn lemma_insert_appends(d: DatabaseView, r: Record)
    ensures
        d.store.insert_result(r) matches Ok(id) ==> d.after_insert(r).starboard.messages
            == d.starboard.messages.push(r.with_id(id)),
        d.store.insert_result(r).is_err() ==> d.after_insert(r) == d,
{
}

/// A change of status adds no entry to the working set: an acceptance
/// leaves as many as there were, each in its place, and a denial takes at
/// most the denied one out.
pub proof fn lemma_settle_adds_no_entry(d: DatabaseView, posted: u64, status: StarboardStatus, posting: Option<Posting>)
    ensures
        d.after_settle(posted, status, posting).starboard.messages.len() <= d.starboard.messages.len(),
        status == StarboardStatus::Accepted ==> d.after_settle(posted, status, posting).starboard.messages.len()
            == d.starboard.messages.len(),
{
    if d.settle_result(posted, status, posting).is_ok() {
        let r = lookup(d.store.rows, Key::Posted(posted)).unwrap();
        lemma_place_of(d.starboard.messages, Key::Id(r.id));
    }
}

} // verus!
