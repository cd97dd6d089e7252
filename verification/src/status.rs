//! The states a proposal moves through.

use vstd::prelude::*;
use crate::time::Expiration;

verus! {

/// The state of a proposal.
#[derive(Clone, Copy, Debug, PartialEq, Eq, Structural)]
pub enum Status {
    /// Open for voting.
    Open,
    /// Rejected by the vote; may be closed.
    Rejected,
    /// Passed and not yet executed.
    Passed,
    /// Passed and executed.
    Executed,
    /// Rejected and closed.
    Closed,
    /// Executed, and the payload reported failure.
    ExecutionFailed,
    /// Passed and held back until `expiration`: until then only the vetoer
    /// may veto or, where allowed, execute it.
    VetoTimelock { expiration: Expiration },
    /// Vetoed.
    Vetoed,
}

impl Status {
    /// The states no command leads out of.
    pub open spec fn is_terminal(self) -> bool {
        self is Executed || self is ExecutionFailed || self is Vetoed || self is Closed
    }

    /// Whether a proposal in this state has run its course.
    pub fn terminal(&self) -> (r: bool)
        ensures
            r == self.is_terminal(),
    {
        match self {
            Status::Executed | Status::ExecutionFailed | Status::Vetoed | Status::Closed => true,
            _ => false,
        }
    }
}

} // verus!
