//! The errors of the proposal module. Every refusal has a kind of its own.

use vstd::prelude::*;
use crate::threshold::ThresholdError;
use crate::time::TimeError;
use crate::veto::VetoError;

verus! {

/// Why a pair of voting periods is refused.
#[derive(Clone, Copy, Debug, PartialEq, Eq, Structural)]
pub enum VotingError {
    /// The two periods are not counted in the same unit.
    DurationUnitsConflict,
    /// The minimum period is longer than the maximum period.
    InvalidMinVotingPeriod,
}

/// Why a change to a list of hook subscribers is refused.
#[derive(Clone, Copy, Debug, PartialEq, Eq, Structural)]
pub enum HookError {
    /// The address is a subscriber already.
    HookAlreadyRegistered,
    /// The address is no subscriber.
    HookNotRegistered,
}

/// Why a command is refused.
#[derive(Debug, PartialEq, Eq)]
pub enum ContractError {
    /// The caller may not do this.
    Unauthorized,
    /// More than one payload message was supplied.
    TooManyMsgs,
    /// The proposer does not fit the creation policy.
    InvalidProposer,
    /// The organization's voting module is not active.
    InactiveDao,
    /// There is no proposal with this id.
    NoSuchProposal { id: u64 },
    /// The voter has cast no ballot on this proposal.
    NoSuchVote { id: u64, voter: String },
    /// The voting period of this proposal is over.
    Expired { id: u64 },
    /// The voter has no voting power.
    NotEligible,
    /// The voter has cast a ballot, and ballots cannot be changed.
    AlreadyDecided,
    /// The voter has cast this very choice before.
    DuplicateVote,
    /// The proposal is not in a state from which it can be executed.
    NotPassed,
    /// Only rejected proposals can be closed.
    WrongCloseStatus,
    /// The power on record would exceed the proposal's total power.
    PowerExceedsTotal,
    /// A sum of voting power, or a count, does not fit in its integer type.
    Overflow,
    /// The payload's hash is not the one the signers approved.
    PayloadHashMismatch,
    /// No address could be derived from a public key.
    VerificationFailed,
    /// The threshold policy is refused, or cannot be reached.
    Threshold(ThresholdError),
    /// The veto overlay refuses.
    Veto(VetoError),
    /// The voting periods are refused.
    Voting(VotingError),
    /// The hook subscribers cannot be changed as asked.
    Hook(HookError),
    /// A point in time could not be computed.
    Time(TimeError),
    /// The id of a completion notice has no known tag, or a tag that nothing
    /// in the state answers to: a failed hook of a module that is not there,
    /// a failed payload of a proposal that is not executed.
    InvalidReplyId { id: u64 },
    /// The notice of an instantiation does not name the new contract.
    ReplyDataMissing,
    /// The stored data is in the current format already.
    AlreadyMigrated,
    /// A proposal with an unresolved deposit cannot be migrated.
    PendingProposals,
}

} // verus!
