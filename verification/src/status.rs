//! The review status of a curated message and the rule that says which
//! changes of status are legal.

use vstd::prelude::*;
use crate::error::StarboardError;
use crate::ids::ChannelIdWrapper;
use crate::ids::MessageIdWrapper;

verus! {

/// Where a curated message stands in its review.
#[derive(Clone, Copy, Debug, PartialEq, Eq, Structural)]
pub enum StarboardStatus {
    /// Waiting in the review queue; the state every record starts in.
    InReview,
    /// Promoted to the highlight channel. Final.
    Accepted,
    /// Turned down. Final, though the source message may be curated anew.
    Denied,
}

/// The number under which the store keeps `status`.
pub open spec fn code_of_status(status: StarboardStatus) -> i16 {
    match status {
        StarboardStatus::InReview => 0,
        StarboardStatus::Accepted => 1,
        StarboardStatus::Denied => 2,
    }
}

/// The status that the store's number `code` stands for, if it stands for one.
pub open spec fn status_of_code(code: i16) -> Option<StarboardStatus> {
    if code == 0 {
        Some(StarboardStatus::InReview)
    } else if code == 1 {
        Some(StarboardStatus::Accepted)
    } else if code == 2 {
        Some(StarboardStatus::Denied)
    } else {
        None
    }
}

/// The label under which the store keeps `status` where it keeps it as text.
pub open spec fn label_of_status(status: StarboardStatus) -> Seq<char> {
    match status {
        StarboardStatus::InReview => "InReview"@,
        StarboardStatus::Accepted => "Accepted"@,
        StarboardStatus::Denied => "Denied"@,
    }
}

/// The status that the store's label `label` stands for, if it stands for one.
pub open spec fn status_of_label(label: Seq<char>) -> Option<StarboardStatus> {
    if label == "InReview"@ {
        Some(StarboardStatus::InReview)
    } else if label == "Accepted"@ {
        Some(StarboardStatus::Accepted)
    } else if label == "Denied"@ {
        Some(StarboardStatus::Denied)
    } else {
        None
    }
}

impl StarboardStatus {
    /// Whether the review is over: no change of status leaves such a state.
    pub open spec fn terminal(self) -> bool {
        self != StarboardStatus::InReview
    }

    /// Whether the review is over.
    pub fn is_terminal(&self) -> (r: bool)
        ensures
            r == self.terminal(),
    {
        match self {
            StarboardStatus::InReview => false,
            StarboardStatus::Accepted => true,
            StarboardStatus::Denied => true,
        }
    }

    /// The number under which the store keeps this status.
    pub fn to_code(&self) -> (code: i16)
        ensures
            code == code_of_status(*self),
    {
        match self {
            StarboardStatus::InReview => 0,
            StarboardStatus::Accepted => 1,
            StarboardStatus::Denied => 2,
        }
    }

    /// Reads the store's number back. A number that stands for no status is
    /// refused with `Decode`; none is taken for a default.
    pub fn from_code(code: i16) -> (r: Result<StarboardStatus, StarboardError>)
        ensures
            r == match status_of_code(code) {
                Some(status) => Ok::<StarboardStatus, StarboardError>(status),
                None => Err::<StarboardStatus, StarboardError>(StarboardError::Decode),
            },
    {
        if code == 0 {
            Ok(StarboardStatus::InReview)
        } else if code == 1 {
            Ok(StarboardStatus::Accepted)
        } else if code == 2 {
            Ok(StarboardStatus::Denied)
        } else {
            Err(StarboardError::Decode)
        }
    }
    /// The label under which the store keeps this status where it keeps it
    /// as text.
    pub fn label(&self) -> (label: &'static str)
        ensures
            label@ == label_of_status(*self),
    {
        match self {
            StarboardStatus::InReview => "InReview",
            StarboardStatus::Accepted => "Accepted",
            StarboardStatus::Denied => "Denied",
        }
    }

    /// Reads the store's label back. A label that stands for no status is
    /// refused with `Decode`.
    pub fn from_label(label: &str) -> (r: Result<StarboardStatus, StarboardError>)
        ensures
            r == match status_of_label(label@) {
                Some(status) => Ok::<StarboardStatus, StarboardError>(status),
                None => Err::<StarboardStatus, StarboardError>(StarboardError::Decode),
            },
    {
        let given = label.to_owned();
        if given == "InReview".to_owned() {
            Ok(StarboardStatus::InReview)
        } else if given == "Accepted".to_owned() {
            Ok(StarboardStatus::Accepted)
        } else if given == "Denied".to_owned() {
            Ok(StarboardStatus::Denied)
        } else {
            Err(StarboardError::Decode)
        }
    }
}

/// The store's labels and the statuses correspond one to one: a status
/// written and read back is itself, and a label that reads as a status is
/// the label that status is written as.
pub proof fn lemma_status_label_round_trip(status: StarboardStatus, label: Seq<char>)
    ensures
        status_of_label(label_of_status(status)) == Some(status),
        status_of_label(label) == Some(status) ==> label_of_status(status) == label,
{
    reveal_strlit("InReview");
    reveal_strlit("Accepted");
    reveal_strlit("Denied");
    assert("InReview"@[0] == 'I');
    assert("Accepted"@[0] == 'A');
    assert("Denied"@[0] == 'D');
}

/// The store's numbers and the statuses correspond one to one: a status
/// written and read back is itself, and a number that reads as a status is
/// the number that status is written as.
pub proof fn lemma_status_code_round_trip(status: StarboardStatus, code: i16)
    ensures
        status_of_code(code_of_status(status)) == Some(status),
        status_of_code(code) == Some(status) ==> code_of_status(status) == code,
{
}

/// The message and channel under which a record stands once it is posted.
#[derive(Clone, Copy, Debug, PartialEq, Eq, Structural)]
pub struct Posting {
    pub message_id: MessageIdWrapper,
    pub channel_id: ChannelIdWrapper,
}

/// What a legal change of status does to a record.
#[derive(Clone, Copy, Debug, PartialEq, Eq, Structural)]
pub enum Transition {
    /// The record becomes `Accepted` and moves to the given posting.
    Accept(Posting),
    /// The record becomes `Denied`.
    Deny,
}

/// The state machine's ruling: the change from `current` to `requested` is
/// legal only out of `InReview`, into `Denied`, or into `Accepted` when the
/// new posting is supplied.
pub open spec fn transition_of(
    current: StarboardStatus,
    requested: StarboardStatus,
    posting: Option<Posting>,
) -> Option<Transition> {
    if current != StarboardStatus::InReview {
        None
    } else {
        match requested {
            StarboardStatus::InReview => None,
            StarboardStatus::Denied => Some(Transition::Deny),
            StarboardStatus::Accepted => match posting {
                Some(p) => Some(Transition::Accept(p)),
                None => None,
            },
        }
    }
}

/// Rules on a requested change of status. It touches nothing: the caller
/// carries out what is ruled legal.
pub fn validate_transition(
    current: StarboardStatus,
    requested: StarboardStatus,
    posting: Option<Posting>,
) -> (r: Result<Transition, StarboardError>)
    ensures
        r == match transition_of(current, requested, posting) {
            Some(t) => Ok::<Transition, StarboardError>(t),
            None => Err::<Transition, StarboardError>(StarboardError::IllegalTransition),
        },
{
    match current {
        StarboardStatus::InReview => match requested {
            StarboardStatus::InReview => Err(StarboardError::IllegalTransition),
            StarboardStatus::Denied => Ok(Transition::Deny),
            StarboardStatus::Accepted => match posting {
                Some(p) => Ok(Transition::Accept(p)),
                None => Err(StarboardError::IllegalTransition),
            },
        },
        StarboardStatus::Accepted => Err(StarboardError::IllegalTransition),
        StarboardStatus::Denied => Err(StarboardError::IllegalTransition),
    }
}

/// Out of a final state nothing is legal, whatever is requested.
pub proof fn lemma_terminal_state_is_final(
    current: StarboardStatus,
    requested: StarboardStatus,
    posting: Option<Posting>,
)
    requires
        current.terminal(),
    ensures
        transition_of(current, requested, posting).is_none(),
{
}

impl Transition {
    /// The status that the change leads to.
    pub open spec fn target(self) -> StarboardStatus {
        match self {
            Transition::Accept(_) => StarboardStatus::Accepted,
            Transition::Deny => StarboardStatus::Denied,
        }
    }

    /// The posting that the change moves the record to, if it moves it.
    pub open spec fn moves_to(self) -> Option<Posting> {
        match self {
            Transition::Accept(p) => Some(p),
            Transition::Deny => None,
        }
    }

    /// The status that the change leads to.
    pub fn status(&self) -> (s: StarboardStatus)
        ensures
            s == self.target(),
    {
        match self {
            Transition::Accept(_) => StarboardStatus::Accepted,
            Transition::Deny => StarboardStatus::Denied,
        }
    }

    /// The posting that the change moves the record to, if it moves it.
    pub fn posting(&self) -> (p: Option<Posting>)
        ensures
            p == self.moves_to(),
    {
        match self {
            Transition::Accept(p) => Some(*p),
            Transition::Deny => None,
        }
    }
}

/// Asking a record in review for what a legal change leads to is asking
/// for that change.
pub proof fn lemma_transition_from_review(t: Transition)
    ensures
        transition_of(StarboardStatus::InReview, t.target(), t.moves_to()) == Some(t),
{
}

} // verus!
