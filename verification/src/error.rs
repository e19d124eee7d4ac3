//! The ways in which an operation of the curation core fails.

use vstd::prelude::*;

verus! {

/// Why an operation did not take place.
#[derive(Clone, Copy, Debug, PartialEq, Eq, Structural)]
pub enum StarboardError {
    /// The source message already has a record that is not denied.
    ConstraintViolation,
    /// The state machine refuses the requested change.
    IllegalTransition,
    /// No record stands under the given identity.
    NotFound,
    /// The durable store cannot be reached.
    StoreUnavailable,
    /// The moderator is not on the allow-list.
    Unauthorized,
    /// A value read from the store stands for nothing.
    Decode,
}

impl StarboardError {
    /// Whether the same request may be repeated with a hope of success:
    /// only an unreachable store mends itself.
    pub open spec fn retryable(self) -> bool {
        self == StarboardError::StoreUnavailable
    }

    /// Whether the same request may be repeated with a hope of success.
    pub fn is_retryable(&self) -> (r: bool)
        ensures
            r == self.retryable(),
    {
        match self {
            StarboardError::StoreUnavailable => true,
            _ => false,
        }
    }
}

} // verus!
