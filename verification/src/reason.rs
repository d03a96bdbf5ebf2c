//! Why the node is shutting down.

use vstd::prelude::*;

verus! {

/// Provides a reason when the node is shut down.
#[derive(Copy, Clone, Debug, PartialEq, Eq)]
pub enum ShutdownReason {
    /// The node shut down successfully.
    Success(&'static str),
    /// The node shut down due to an error condition.
    Failure(&'static str),
}

impl ShutdownReason {
    /// The message carried by the reason, whatever its tag.
    pub open spec fn spec_message(self) -> &'static str {
        match self {
            ShutdownReason::Success(msg) => msg,
            ShutdownReason::Failure(msg) => msg,
        }
    }

    /// Whether the reason reports an error condition.
    pub open spec fn spec_is_failure(self) -> bool {
        self is Failure
    }

    /// The message carried by the reason.
    pub fn message(&self) -> (msg: &'static str)
        ensures
            msg == self.spec_message(),
    {
        match self {
            ShutdownReason::Success(msg) => msg,
            ShutdownReason::Failure(msg) => msg,
        }
    }

    /// Whether the reason reports an error condition.
    pub fn is_failure(&self) -> (failed: bool)
        ensures
            failed == self.spec_is_failure(),
    {
        match self {
            ShutdownReason::Success(_) => false,
            ShutdownReason::Failure(_) => true,
        }
    }
}

} // verus!
