//! What a user can choose between as the argument of a command, and how a
//! wait for an answer from outside can end.

use vstd::prelude::*;
use crate::text::decimal;
use crate::text::decimal_of;

verus! {

/// Whose permission overwrites are looked for.
#[derive(Clone, Copy, Debug, PartialEq, Eq, Structural)]
pub enum OverwriteChoices {
    User,
    Role,
}

impl OverwriteChoices {
    /// How the user or role numbered `id` is mentioned.
    pub open spec fn mention_of(self, id: u64) -> Seq<char> {
        match self {
            OverwriteChoices::User => "<@"@ + decimal_of(id) + ">"@,
            OverwriteChoices::Role => "<@&"@ + decimal_of(id) + ">"@,
        }
    }

    /// How the user or role numbered `id` is mentioned.
    pub fn mention(&self, id: u64) -> (text: String)
        ensures
            text@ == self.mention_of(id),
    {
        let mut text = match self {
            OverwriteChoices::User => "<@".to_owned(),
            OverwriteChoices::Role => "<@&".to_owned(),
        };
        let digits = decimal(id);
        text.append(digits.as_str());
        text.append(">");
        text
    }
}

/// How the bot shows itself to be online.
#[derive(Clone, Copy, Debug, PartialEq, Eq, Structural)]
pub enum OnlineStatus {
    Online,
    Idle,
    DoNotDisturb,
    Invisible,
}

impl OnlineStatus {
    /// The word for the status.
    pub open spec fn name_of(self) -> Seq<char> {
        match self {
            OnlineStatus::Online => "Online"@,
            OnlineStatus::Idle => "Idle"@,
            OnlineStatus::DoNotDisturb => "DoNotDisturb"@,
            OnlineStatus::Invisible => "Invisible"@,
        }
    }

    /// The word for the status.
    pub fn name(&self) -> (name: &'static str)
        ensures
            name@ == self.name_of(),
    {
        match self {
            OnlineStatus::Online => "Online",
            OnlineStatus::Idle => "Idle",
            OnlineStatus::DoNotDisturb => "DoNotDisturb",
            OnlineStatus::Invisible => "Invisible",
        }
    }
}

/// Why a wait for a user's authentication ended without one.
#[derive(Clone, Copy, Debug, PartialEq, Eq, Structural)]
pub enum AuthenticationStandbyError {
    /// The one who was to answer has gone.
    Canceled,
    /// No answer came in time.
    Timeout,
}

/// How a wait has gone so far.
pub enum Waited<T> {
    /// It goes on.
    Pending,
    /// The answer came.
    Answered(T),
    /// The one who was to answer has gone.
    Dropped,
    /// The time is up.
    Elapsed,
}

/// What a wait has come to, if it has come to an end: the answer, or why
/// there is none.
pub fn standby_outcome<T>(waited: Waited<T>) -> (r: Option<Result<T, AuthenticationStandbyError>>)
    ensures
        r == match waited {
            Waited::Pending => None::<Result<T, AuthenticationStandbyError>>,
            Waited::Answered(answer) => Some(Ok(answer)),
            Waited::Dropped => Some(Err(AuthenticationStandbyError::Canceled)),
            Waited::Elapsed => Some(Err(AuthenticationStandbyError::Timeout)),
        },
{
    match waited {
        Waited::Pending => None,
        Waited::Answered(answer) => Some(Ok(answer)),
        Waited::Dropped => Some(Err(AuthenticationStandbyError::Canceled)),
        Waited::Elapsed => Some(Err(AuthenticationStandbyError::Timeout)),
    }
}

} // verus!
