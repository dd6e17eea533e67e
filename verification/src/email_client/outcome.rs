//! How one attempt at delivery ended, and what that means for the caller.

use vstd::prelude::*;

verus! {

/// What became of the HTTP exchange with the provider.
#[derive(Debug, Clone, Copy, PartialEq, Eq, Structural)]
pub enum HttpOutcome {
    /// The provider answered, with this status code.
    Response(u16),
    /// No answer came: the connection could not be made, the wait ran out,
    /// or the answer could not be read.
    Failed,
}

/// Why a message was not accepted for delivery.
#[derive(Debug, Clone, Copy, PartialEq, Eq, Structural)]
pub enum SendError {
    /// The exchange with the provider did not complete.
    Transport,
    /// The provider answered with this status code, which is not a success.
    Status(u16),
}

/// The status codes by which the provider accepts a message: 200 to 299.
pub open spec fn is_success(status: u16) -> bool {
    200 <= status <= 299
}

/// The verdict on an exchange. Only an answer with a success status counts
/// as delivery; any other answer is passed on with its status, whatever its
/// class.
pub open spec fn verdict(outcome: HttpOutcome) -> Result<(), SendError> {
    match outcome {
        HttpOutcome::Response(status) => if is_success(status) {
            Ok(())
        } else {
            Err(SendError::Status(status))
        },
        HttpOutcome::Failed => Err(SendError::Transport),
    }
}

/// Turns the way an exchange ended into the result of the send.
pub fn classify(outcome: HttpOutcome) -> (result: Result<(), SendError>)
    ensures
        result == verdict(outcome),
{
    match outcome {
        HttpOutcome::Response(status) => {
            if 200 <= status && status <= 299 {
                Ok(())
            } else {
                Err(SendError::Status(status))
            }
        },
        HttpOutcome::Failed => Err(SendError::Transport),
    }
}

} // verus!
