//! One moderator's click, from the click to its end. The work that lies
//! outside (asking the store, posting to the highlight channel, writing to
//! the store) is named as an action; its answer comes back as the argument of
//! the next step. Every step that ends the interaction lets the message go.

use vstd::prelude::*;
use crate::cache::cache_put;
use crate::cache::settled;
use crate::error::StarboardError;
use crate::handler::HandlerView;
use crate::handler::StarboardHandler;
use crate::ids::MessageIdWrapper;
use crate::ids::UserIdWrapper;
use crate::message::Record;
use crate::message::StarboardMessage;
use crate::status::Posting;
use crate::status::Transition;
use crate::table::lookup;
use crate::table::Key;

verus! {

/// The first of the three users who may accept and deny.
pub const MODERATOR_PHIL: u64 = 101090238067113984;

/// The second of the three users who may accept and deny.
pub const MODERATOR_RUBEN: u64 = 291089948709486593;

/// The third of the three users who may accept and deny.
pub const MODERATOR_MOXY: u64 = 158567567487795200;

/// Whether `user` is on the allow-list of moderators.
pub open spec fn allowed(user: u64) -> bool {
    user == MODERATOR_PHIL || user == MODERATOR_RUBEN || user == MODERATOR_MOXY
}

/// Whether `user_id` is on the allow-list of moderators.
pub fn allowed_user(user_id: UserIdWrapper) -> (r: bool)
    ensures
        r == allowed(user_id.0),
{
    user_id.0 == MODERATOR_PHIL || user_id.0 == MODERATOR_RUBEN || user_id.0 == MODERATOR_MOXY
}

/// What a moderator asks for.
#[derive(Clone, Copy, Debug, PartialEq, Eq, Structural)]
pub enum ReviewOutcome {
    Accept,
    Deny,
}

/// How an interaction ended when it did not fail.
#[derive(Clone, Copy, Debug, PartialEq, Eq, Structural)]
pub enum ReviewReport {
    /// The record was accepted and stands under its new posting.
    Accepted,
    /// The record was denied.
    Denied,
    /// Someone else has the message in hand: nothing was done, and nothing
    /// is to be shown.
    InFlight,
    /// The highlight channel did not take the post: the record stays in
    /// review and the click may be repeated.
    NotPosted,
}

/// How an interaction ended.
pub type ReviewResult = Result<ReviewReport, StarboardError>;

/// What is to be done next for an interaction.
#[derive(Debug)]
pub enum ReviewAction {
    /// Ask the store for the record posted under the target, and go on with
    /// `fetched`.
    Fetch,
    /// Post the record to the highlight channel, and go on with `posted`.
    Post(StarboardMessage),
    /// Write the change to the store, and go on with `committed`.
    Commit { id: i32, transition: Transition },
    /// Nothing: the interaction is over, and the message is let go.
    Finish(ReviewResult),
}

/// What is to be done next for an interaction, as plain values.
pub enum ActionView {
    Fetch,
    Post(Record),
    Commit { id: i32, transition: Transition },
    Finish(ReviewResult),
}

impl View for ReviewAction {
    type V = ActionView;

    open spec fn view(&self) -> ActionView {
        match self {
            ReviewAction::Fetch => ActionView::Fetch,
            ReviewAction::Post(m) => ActionView::Post(m@),
            ReviewAction::Commit { id, transition } => ActionView::Commit { id: *id, transition: *transition },
            ReviewAction::Finish(r) => ActionView::Finish(*r),
        }
    }
}

/// Where an interaction stands once everything that needs no posting is done.
#[derive(Debug)]
pub enum ReviewStep {
    /// The record is to be posted to the highlight channel; the message
    /// stays in flight until the answer is handed in.
    Post(StarboardMessage),
    /// The interaction is over.
    Done(ReviewResult),
}

/// Where an interaction stands, as plain values.
pub enum StepView {
    Post(Record),
    Done(ReviewResult),
}

impl View for ReviewStep {
    type V = StepView;

    open spec fn view(&self) -> StepView {
        match self {
            ReviewStep::Post(m) => StepView::Post(m@),
            ReviewStep::Done(r) => StepView::Done(*r),
        }
    }
}

/// The handler once the message `target` is let go.
pub open spec fn released(h: HandlerView, target: u64) -> HandlerView {
    HandlerView { being_handled: h.being_handled.remove(target), ..h }
}

/// The ruling on the record `r` that the target resolved to: a record whose
/// review is over is a conflict, which ends the interaction; one in review
/// is to be posted for an acceptance and to be written for a denial.
pub open spec fn judged(h: HandlerView, target: u64, outcome: ReviewOutcome, r: Record) -> (HandlerView, ActionView) {
    if r.status.terminal() {
        (released(h, target), ActionView::Finish(Err(StarboardError::IllegalTransition)))
    } else {
        match outcome {
            ReviewOutcome::Accept => (h, ActionView::Post(r)),
            ReviewOutcome::Deny => (h, ActionView::Commit { id: r.id, transition: Transition::Deny }),
        }
    }
}

/// The first step. A moderator who is not allowed is turned away before
/// anything is touched. A message in flight is left alone. Otherwise the
/// message is taken into flight and resolved from the working set, or the
/// store is to be asked.
pub open spec fn begun(h: HandlerView, moderator: u64, target: u64, outcome: ReviewOutcome) -> (
    HandlerView,
    ActionView,
) {
    if !allowed(moderator) {
        (h, ActionView::Finish(Err(StarboardError::Unauthorized)))
    } else if h.being_handled.contains(target) {
        (h, ActionView::Finish(Ok(ReviewReport::InFlight)))
    } else {
        let held = HandlerView { being_handled: h.being_handled.insert(target), ..h };
        match lookup(h.messages, Key::Posted(target)) {
            Some(r) => judged(held, target, outcome, r),
            None => (held, ActionView::Fetch),
        }
    }
}

/// The step after the store was asked. A store that failed ends the
/// interaction with its error; so does a store that has no record posted
/// under the target that is not denied. A record that was found enters the
/// working set and is ruled on.
pub open spec fn fetched_step(
    h: HandlerView,
    target: u64,
    outcome: ReviewOutcome,
    found: Result<Option<Record>, StarboardError>,
) -> (HandlerView, ActionView) {
    match found {
        Err(e) => (released(h, target), ActionView::Finish(Err(e))),
        Ok(None) => (released(h, target), ActionView::Finish(Err(StarboardError::NotFound))),
        Ok(Some(r)) => if Key::Posted(target).selects(r) {
            judged(HandlerView { messages: cache_put(h.messages, r), ..h }, target, outcome, r)
        } else {
            (released(h, target), ActionView::Finish(Err(StarboardError::NotFound)))
        },
    }
}

/// The step after the highlight channel was asked. Without a posting the
/// interaction ends and the record stays in review; with one, the
/// acceptance is to be written.
pub open spec fn posted_step(h: HandlerView, target: u64, id: i32, answer: Option<Posting>) -> (
    HandlerView,
    ActionView,
) {
    match answer {
        None => (released(h, target), ActionView::Finish(Ok(ReviewReport::NotPosted))),
        Some(p) => (h, ActionView::Commit { id, transition: Transition::Accept(p) }),
    }
}

/// What a change that the store took is reported as.
pub open spec fn report_of(transition: Transition) -> ReviewReport {
    match transition {
        Transition::Accept(_) => ReviewReport::Accepted,
        Transition::Deny => ReviewReport::Denied,
    }
}

/// The last step, after the store was asked to write. A store that refused
/// ends the interaction with its error and the working set as it was; a
/// store that wrote is followed by the working set.
pub open spec fn committed_step(
    h: HandlerView,
    target: u64,
    id: i32,
    transition: Transition,
    written: Result<(), StarboardError>,
) -> (HandlerView, ReviewResult) {
    match written {
        Err(e) => (released(h, target), Err(e)),
        Ok(_) => (
            released(HandlerView { messages: settled(h.messages, id, transition), ..h }, target),
            Ok(report_of(transition)),
        ),
    }
}

fn judge(handler: &mut StarboardHandler, target: MessageIdWrapper, outcome: ReviewOutcome, record: StarboardMessage) -> (action:
    ReviewAction)
    ensures
        (final(handler)@, action@) == judged(old(handler)@, target.0, outcome, record@),
{
    if record.starboard_status.is_terminal() {
        handler.release(target);
        return ReviewAction::Finish(Err(StarboardError::IllegalTransition));
    }
    match outcome {
        ReviewOutcome::Accept => ReviewAction::Post(record),
        ReviewOutcome::Deny => ReviewAction::Commit { id: record.id, transition: Transition::Deny },
    }
}

/// Takes the first step of the interaction in which `moderator_id` asks for
/// `outcome` on the record posted under `target`.
pub fn begin(
    handler: &mut StarboardHandler,
    moderator_id: UserIdWrapper,
    target: MessageIdWrapper,
    outcome: ReviewOutcome,
) -> (action: ReviewAction)
    ensures
        (final(handler)@, action@) == begun(old(handler)@, moderator_id.0, target.0, outcome),
        old(handler).wf() ==> final(handler).wf(),
{
    if !allowed_user(moderator_id) {
        return ReviewAction::Finish(Err(StarboardError::Unauthorized));
    }
    if !handler.try_acquire(target) {
        assert(old(handler)@.being_handled.insert(target.0) =~= old(handler)@.being_handled);
        return ReviewAction::Finish(Ok(ReviewReport::InFlight));
    }
    match handler.get(Key::Posted(target.0)) {
        Some(record) => judge(handler, target, outcome, record),
        None => ReviewAction::Fetch,
    }
}

/// Takes the step after the store answered `found` to the question for the
/// record posted under `target`.
pub fn fetched(
    handler: &mut StarboardHandler,
    target: MessageIdWrapper,
    outcome: ReviewOutcome,
    found: Result<Option<StarboardMessage>, StarboardError>,
) -> (action: ReviewAction)
    requires
        old(handler).wf(),
    ensures
        (final(handler)@, action@) == fetched_step(
            old(handler)@,
            target.0,
            outcome,
            match found {
                Ok(Some(m)) => Ok(Some(m@)),
                Ok(None) => Ok(None),
                Err(e) => Err(e),
            },
        ),
        final(handler).wf(),
{
    match found {
        Err(e) => {
            handler.release(target);
            ReviewAction::Finish(Err(e))
        },
        Ok(None) => {
            handler.release(target);
            ReviewAction::Finish(Err(StarboardError::NotFound))
        },
        Ok(Some(record)) => {
            if Key::Posted(target.0).matches(&record) {
                handler.put(record.clone());
                judge(handler, target, outcome, record)
            } else {
                handler.release(target);
                ReviewAction::Finish(Err(StarboardError::NotFound))
            }
        },
    }
}

/// Takes the step after the highlight channel answered `answer` to the
/// post of the record numbered `id`.
pub fn posted(handler: &mut StarboardHandler, target: MessageIdWrapper, id: i32, answer: Option<Posting>) -> (action:
    ReviewAction)
    ensures
        (final(handler)@, action@) == posted_step(old(handler)@, target.0, id, answer),
        old(handler).wf() ==> final(handler).wf(),
{
    match answer {
        None => {
            handler.release(target);
            ReviewAction::Finish(Ok(ReviewReport::NotPosted))
        },
        Some(p) => ReviewAction::Commit { id, transition: Transition::Accept(p) },
    }
}

/// Takes the last step, after the store answered `written` to the change
/// `transition` of the record numbered `id`.
pub fn committed(
    handler: &mut StarboardHandler,
    target: MessageIdWrapper,
    id: i32,
    transition: Transition,
    written: Result<(), StarboardError>,
) -> (result: ReviewResult)
    requires
        old(handler).wf(),
    ensures
        (final(handler)@, result) == committed_step(old(handler)@, target.0, id, transition, written),
        final(handler).wf(),
{
    match written {
        Err(e) => {
            handler.release(target);
            Err(e)
        },
        Ok(()) => {
            handler.settle(id, transition);
            let report = match transition {
                Transition::Deny => ReviewReport::Denied,
                Transition::Accept(_) => ReviewReport::Accepted,
            };
            handler.release(target);
            Ok(report)
        },
    }
}

/// A step that ends the interaction leaves the message out of flight, and a
/// step that names work to be done leaves it in flight, provided it was in
/// flight when the step was taken.
pub proof fn lemma_steps_hold_or_release(
    h: HandlerView,
    moderator: u64,
    target: u64,
    outcome: ReviewOutcome,
    found: Result<Option<Record>, StarboardError>,
    id: i32,
    answer: Option<Posting>,
    transition: Transition,
    written: Result<(), StarboardError>,
)
    ensures
        begun(h, moderator, target, outcome).1 is Finish ==> begun(h, moderator, target, outcome).0.being_handled
            == h.being_handled,
        !(begun(h, moderator, target, outcome).1 is Finish) ==> begun(
            h,
            moderator,
            target,
            outcome,
        ).0.being_handled.contains(target),
        fetched_step(h, target, outcome, found).1 is Finish ==> !fetched_step(
            h,
            target,
            outcome,
            found,
        ).0.being_handled.contains(target),
        !(fetched_step(h, target, outcome, found).1 is Finish) ==> fetched_step(
            h,
            target,
            outcome,
            found,
        ).0.being_handled == h.being_handled,
        posted_step(h, target, id, answer).1 is Finish ==> !posted_step(
            h,
            target,
            id,
            answer,
        ).0.being_handled.contains(target),
        !(posted_step(h, target, id, answer).1 is Finish) ==> posted_step(h, target, id, answer).0.being_handled
            == h.being_handled,
        !committed_step(h, target, id, transition, written).0.being_handled.contains(target),
{
}

} // verus!
