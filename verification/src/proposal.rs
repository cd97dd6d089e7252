//! A proposal and its lifecycle.
//!
//! The status of a proposal is derived: whenever it is observed or acted on it
//! is recomputed from the tally, the block and the veto settings. Commands
//! first recompute it and then test it; a refused command leaves the proposal
//! as it was.

use vstd::prelude::*;
use crate::error::ContractError;
use crate::status::Status;
use crate::threshold::{Decision, Threshold};
use crate::time::{BlockInfo, Expiration, TimeError};
use crate::veto::{VetoConfig, VetoError};
use crate::votes::Votes;

verus! {

/// A single-choice proposal. Threshold, total power, revoting flag and veto
/// settings are snapshots taken at creation.
#[derive(Debug, PartialEq, Eq)]
pub struct SingleChoiceProposal {
    pub title: String,
    pub description: String,
    /// The address that created the proposal.
    pub proposer: String,
    /// The height at which the proposal was created, and at which voting
    /// power is looked up.
    pub start_height: u64,
    /// Until this point the proposal stays open whatever its tally.
    pub min_voting_period: Option<Expiration>,
    /// The end of the voting period.
    pub expiration: Expiration,
    pub threshold: Threshold,
    /// All voting power there was at `start_height`.
    pub total_power: u128,
    /// The messages to run once the proposal has passed, each in its
    /// canonical encoding. A proposal is created with one at most; one that
    /// was taken over from the first version holds what it held there.
    pub msgs: Vec<String>,
    pub status: Status,
    pub votes: Votes,
    pub allow_revoting: bool,
    pub veto: Option<VetoConfig>,
}

/// A copy of an optional string.
pub fn clone_text(text: &Option<String>) -> (r: Option<String>)
    ensures
        r == *text,
{
    match text {
        Some(s) => Some(s.clone()),
        None => None,
    }
}

/// A copy of a list of strings.
pub fn clone_texts(texts: &Vec<String>) -> (r: Vec<String>)
    ensures
        r@ == texts@,
{
    let mut out: Vec<String> = Vec::new();
    let mut i: usize = 0;
    while i < texts.len()
        invariant
            i <= texts@.len(),
            out@ == texts@.take(i as int),
        decreases texts@.len() - i,
    {
        out.push(texts[i].clone());
        assert(texts@.take(i as int).push(texts@[i as int]) =~= texts@.take(i + 1));
        i += 1;
    }
    assert(texts@.take(i as int) =~= texts@);
    out
}

/// Whether two proposals have the same content: the same messages in the
/// same order, and everything else equal.
pub open spec fn same_content(a: SingleChoiceProposal, b: SingleChoiceProposal) -> bool {
    &&& a.msgs@ == b.msgs@
    &&& a.with_msgs(b.msgs) == b
}

impl Clone for SingleChoiceProposal {
    fn clone(&self) -> (r: Self)
        ensures
            same_content(r, *self),
    {
        SingleChoiceProposal {
            title: self.title.clone(),
            description: self.description.clone(),
            proposer: self.proposer.clone(),
            start_height: self.start_height,
            min_voting_period: self.min_voting_period,
            expiration: self.expiration,
            threshold: self.threshold,
            total_power: self.total_power,
            msgs: clone_texts(&self.msgs),
            status: self.status,
            votes: self.votes,
            allow_revoting: self.allow_revoting,
            veto: match &self.veto {
                Some(v) => Some(v.clone()),
                None => None,
            },
        }
    }
}

impl SingleChoiceProposal {
    /// A proposal is well formed when its threshold is a valid policy and its
    /// tally lies within its total power.
    pub open spec fn wf(&self) -> bool {
        &&& self.threshold.valid()
        &&& self.votes.spec_total() <= self.total_power
    }

    /// This proposal in another state.
    pub open spec fn with_status(&self, status: Status) -> SingleChoiceProposal {
        SingleChoiceProposal { status, ..*self }
    }

    /// This proposal with other messages.
    pub open spec fn with_msgs(&self, msgs: Vec<String>) -> SingleChoiceProposal {
        SingleChoiceProposal { msgs, ..*self }
    }

    /// This proposal with another tally.
    pub open spec fn with_votes(&self, votes: Votes) -> SingleChoiceProposal {
        SingleChoiceProposal { votes, ..*self }
    }

    /// Whether the minimum voting period is still running in `block`.
    pub open spec fn in_min_voting_period(&self, block: BlockInfo) -> bool {
        self.min_voting_period matches Some(min) && !min.spec_is_expired(block)
    }

    /// What the vote amounts to in `block`. Nothing is decided during the
    /// minimum voting period, nor, where ballots can be changed, before the
    /// voting period is over. Otherwise the threshold policy decides, early
    /// where the power still to be cast cannot turn the outcome.
    pub open spec fn spec_decision(&self, block: BlockInfo) -> Decision {
        let expired = self.expiration.spec_is_expired(block);
        if self.in_min_voting_period(block) {
            Decision::Undecided
        } else if self.allow_revoting && !expired {
            Decision::Undecided
        } else {
            self.threshold.spec_evaluate(self.votes, self.total_power, expired)
        }
    }

    /// The state a proposal that passes in `block` takes: with a veto
    /// configured it is timelocked until the timelock's span after the end of
    /// voting has run out.
    pub open spec fn spec_passed_status(&self, block: BlockInfo) -> Result<Status, TimeError> {
        match self.veto {
            Some(veto) => match self.expiration.spec_plus(veto.timelock_duration) {
                Ok(until) => if until.spec_is_expired(block) {
                    Ok(Status::Passed)
                } else {
                    Ok(Status::VetoTimelock { expiration: until })
                },
                Err(e) => Err(e),
            },
            None => Ok(Status::Passed),
        }
    }

    /// The status of the proposal as of `block`.
    pub open spec fn spec_current_status(&self, block: BlockInfo) -> Result<Status, TimeError> {
        match self.status {
            Status::Open => match self.spec_decision(block) {
                Decision::Passed => self.spec_passed_status(block),
                Decision::Rejected => Ok(Status::Rejected),
                Decision::Undecided => Ok(Status::Open),
            },
            Status::VetoTimelock { expiration } => if expiration.spec_is_expired(block) {
                Ok(Status::Passed)
            } else {
                Ok(self.status)
            },
            status => Ok(status),
        }
    }

    /// What [`SingleChoiceProposal::execute`] returns: the status from which
    /// the proposal is executed, or the refusal.
    pub open spec fn spec_execute(
        &self,
        block: BlockInfo,
        sender: Seq<char>,
        sender_can_execute: bool,
    ) -> Result<Status, ContractError> {
        match self.spec_current_status(block) {
            Err(e) => Err(ContractError::Time(e)),
            Ok(Status::Passed) => if sender_can_execute {
                Ok(Status::Passed)
            } else {
                Err(ContractError::Unauthorized)
            },
            Ok(Status::VetoTimelock { expiration }) => match self.veto {
                None => Err(ContractError::Veto(VetoError::NoVetoConfiguration)),
                Some(veto) => if veto.vetoer@ != sender {
                    if sender_can_execute {
                        Err(ContractError::Veto(VetoError::Timelocked))
                    } else {
                        Err(ContractError::Unauthorized)
                    }
                } else if !veto.early_execute {
                    Err(ContractError::Veto(VetoError::NoEarlyExecute))
                } else {
                    Ok(Status::VetoTimelock { expiration })
                },
            },
            Ok(_) => Err(ContractError::NotPassed),
        }
    }

    /// What [`SingleChoiceProposal::veto`] returns: the status from which the
    /// proposal is vetoed, or the refusal.
    pub open spec fn spec_veto(&self, block: BlockInfo, sender: Seq<char>) -> Result<
        Status,
        ContractError,
    > {
        match self.spec_current_status(block) {
            Err(e) => Err(ContractError::Time(e)),
            Ok(status) => match self.veto {
                None => Err(ContractError::Veto(VetoError::NoVetoConfiguration)),
                Some(veto) => if veto.vetoer@ != sender {
                    Err(ContractError::Veto(VetoError::Unauthorized))
                } else {
                    match status {
                        Status::Open => if veto.veto_before_passed {
                            Ok(status)
                        } else {
                            Err(ContractError::Veto(VetoError::InvalidProposalStatus { status }))
                        },
                        Status::Passed => Err(ContractError::Veto(VetoError::TimelockExpired)),
                        Status::VetoTimelock { expiration } => if expiration.spec_is_expired(
                            block,
                        ) {
                            Err(ContractError::Veto(VetoError::TimelockExpired))
                        } else {
                            Ok(status)
                        },
                        _ => Err(ContractError::Veto(VetoError::InvalidProposalStatus { status })),
                    }
                },
            },
        }
    }

    /// What [`SingleChoiceProposal::close`] returns.
    pub open spec fn spec_close(&self, block: BlockInfo) -> Result<Status, ContractError> {
        match self.spec_current_status(block) {
            Err(e) => Err(ContractError::Time(e)),
            Ok(Status::Rejected) => Ok(Status::Rejected),
            Ok(_) => Err(ContractError::WrongCloseStatus),
        }
    }

    /// Tests [`SingleChoiceProposal::wf`].
    pub fn is_well_formed(&self) -> (r: bool)
        ensures
            r == self.wf(),
    {
        match self.votes.total() {
            Some(cast) => cast <= self.total_power && self.threshold.validate().is_ok(),
            None => false,
        }
    }

    /// What the vote would amount to in `block` if the tally were `votes`.
    pub fn decide_with(&self, votes: &Votes, block: &BlockInfo) -> (r: Decision)
        requires
            self.with_votes(*votes).wf(),
        ensures
            r == self.with_votes(*votes).spec_decision(*block),
    {
        let expired = self.expiration.is_expired(block);
        let in_min = match &self.min_voting_period {
            Some(min) => !min.is_expired(block),
            None => false,
        };
        if in_min {
            Decision::Undecided
        } else if self.allow_revoting && !expired {
            Decision::Undecided
        } else {
            self.threshold.evaluate(votes, self.total_power, expired)
        }
    }

    /// What the vote amounts to in `block`.
    pub fn decide(&self, block: &BlockInfo) -> (r: Decision)
        requires
            self.wf(),
        ensures
            r == self.spec_decision(*block),
    {
        self.decide_with(&self.votes, block)
    }

    /// Whether the vote has passed as of `block`, be it early.
    pub fn is_passed(&self, block: &BlockInfo) -> (r: bool)
        requires
            self.wf(),
        ensures
            r == (self.spec_decision(*block) is Passed),
    {
        match self.decide(block) {
            Decision::Passed => true,
            _ => false,
        }
    }

    /// Whether the vote has failed as of `block`, be it early.
    pub fn is_rejected(&self, block: &BlockInfo) -> (r: bool)
        requires
            self.wf(),
        ensures
            r == (self.spec_decision(*block) is Rejected),
    {
        match self.decide(block) {
            Decision::Rejected => true,
            _ => false,
        }
    }

    /// The status that the proposal would have as of `block` if its tally
    /// were `votes`.
    pub fn status_with(&self, votes: &Votes, block: &BlockInfo) -> (r: Result<Status, TimeError>)
        requires
            self.with_votes(*votes).wf(),
        ensures
            r == self.with_votes(*votes).spec_current_status(*block),
    {
        match self.status {
            Status::Open => match self.decide_with(votes, block) {
                Decision::Passed => match &self.veto {
                    Some(veto) => match self.expiration.plus(&veto.timelock_duration) {
                        Ok(until) => {
                            if until.is_expired(block) {
                                Ok(Status::Passed)
                            } else {
                                Ok(Status::VetoTimelock { expiration: until })
                            }
                        },
                        Err(e) => Err(e),
                    },
                    None => Ok(Status::Passed),
                },
                Decision::Rejected => Ok(Status::Rejected),
                Decision::Undecided => Ok(Status::Open),
            },
            Status::VetoTimelock { expiration } => {
                if expiration.is_expired(block) {
                    Ok(Status::Passed)
                } else {
                    Ok(self.status)
                }
            },
            status => Ok(status),
        }
    }

    /// The status of the proposal as of `block`. It fails only where a veto
    /// timelock cannot be added to the end of the voting period.
    pub fn current_status(&self, block: &BlockInfo) -> (r: Result<Status, TimeError>)
        requires
            self.wf(),
        ensures
            r == self.spec_current_status(*block),
    {
        assert(self.with_votes(self.votes) == *self);
        self.status_with(&self.votes, block)
    }

    /// Sets the status to the current status. Where that cannot be computed
    /// the proposal stays as it was.
    pub fn update_status(&mut self, block: &BlockInfo) -> (r: Result<(), TimeError>)
        requires
            old(self).wf(),
        ensures
            match old(self).spec_current_status(*block) {
                Ok(status) => r is Ok && *final(self) == old(self).with_status(status),
                Err(e) => r == Err::<(), TimeError>(e) && *final(self) == *old(self),
            },
            final(self).wf(),
    {
        match self.current_status(block) {
            Ok(status) => {
                self.status = status;
                Ok(())
            },
            Err(e) => Err(e),
        }
    }

    /// Whether the proposal can be executed by `sender` as of `block`, and
    /// from which status. It must have passed, and the sender must be allowed
    /// to execute; during a veto timelock only the vetoer may execute, and only
    /// where early execution is enabled.
    pub fn check_execute(&self, block: &BlockInfo, sender: &String, sender_can_execute: bool) -> (r:
        Result<Status, ContractError>)
        requires
            self.wf(),
        ensures
            r == self.spec_execute(*block, sender@, sender_can_execute),
    {
        let status = match self.current_status(block) {
            Ok(s) => s,
            Err(e) => { return Err(ContractError::Time(e)); },
        };
        match status {
            Status::Passed => {
                if !sender_can_execute {
                    return Err(ContractError::Unauthorized);
                }
            },
            Status::VetoTimelock { .. } => {
                match &self.veto {
                    None => { return Err(ContractError::Veto(VetoError::NoVetoConfiguration)); },
                    Some(veto) => {
                        if veto.check_is_vetoer(sender).is_err() {
                            if sender_can_execute {
                                return Err(ContractError::Veto(VetoError::Timelocked));
                            } else {
                                return Err(ContractError::Unauthorized);
                            }
                        }
                        if let Err(e) = veto.check_early_execute_enabled() {
                            return Err(ContractError::Veto(e));
                        }
                    },
                }
            },
            _ => { return Err(ContractError::NotPassed); },
        }
        Ok(status)
    }

    /// Executes the proposal where [`SingleChoiceProposal::check_execute`]
    /// allows it, and returns the status it was executed from. A refused
    /// execution leaves the proposal as it was.
    pub fn execute(&mut self, block: &BlockInfo, sender: &String, sender_can_execute: bool) -> (r:
        Result<Status, ContractError>)
        requires
            old(self).wf(),
        ensures
            r == old(self).spec_execute(*block, sender@, sender_can_execute),
            r is Ok ==> *final(self) == old(self).with_status(Status::Executed),
            r is Err ==> *final(self) == *old(self),
            final(self).wf(),
    {
        match self.check_execute(block, sender, sender_can_execute) {
            Ok(from) => {
                self.status = Status::Executed;
                Ok(from)
            },
            Err(e) => Err(e),
        }
    }

    /// Whether the proposal can be vetoed by `sender` as of `block`, and from
    /// which status. Only the configured vetoer may veto: while the proposal
    /// is open, where a veto before passing is enabled, or during the veto
    /// timelock.
    pub fn check_veto(&self, block: &BlockInfo, sender: &String) -> (r: Result<Status, ContractError>)
        requires
            self.wf(),
        ensures
            r == self.spec_veto(*block, sender@),
    {
        let status = match self.current_status(block) {
            Ok(s) => s,
            Err(e) => { return Err(ContractError::Time(e)); },
        };
        match &self.veto {
            None => { return Err(ContractError::Veto(VetoError::NoVetoConfiguration)); },
            Some(veto) => {
                if let Err(e) = veto.check_is_vetoer(sender) {
                    return Err(ContractError::Veto(e));
                }
                match status {
                    Status::Open => {
                        if !veto.veto_before_passed {
                            return Err(
                                ContractError::Veto(VetoError::InvalidProposalStatus { status }),
                            );
                        }
                    },
                    Status::Passed => {
                        return Err(ContractError::Veto(VetoError::TimelockExpired));
                    },
                    Status::VetoTimelock { expiration } => {
                        if expiration.is_expired(block) {
                            return Err(ContractError::Veto(VetoError::TimelockExpired));
                        }
                    },
                    _ => {
                        return Err(
                            ContractError::Veto(VetoError::InvalidProposalStatus { status }),
                        );
                    },
                }
            },
        }
        Ok(status)
    }

    /// Vetoes the proposal where [`SingleChoiceProposal::check_veto`] allows
    /// it, and returns the status it was vetoed from. A refused veto leaves
    /// the proposal as it was.
    pub fn veto(&mut self, block: &BlockInfo, sender: &String) -> (r: Result<Status, ContractError>)
        requires
            old(self).wf(),
        ensures
            r == old(self).spec_veto(*block, sender@),
            r is Ok ==> *final(self) == old(self).with_status(Status::Vetoed),
            r is Err ==> *final(self) == *old(self),
            final(self).wf(),
    {
        match self.check_veto(block, sender) {
            Ok(from) => {
                self.status = Status::Vetoed;
                Ok(from)
            },
            Err(e) => Err(e),
        }
    }

    /// Whether the proposal can be closed as of `block`: it must have been
    /// rejected.
    pub fn check_close(&self, block: &BlockInfo) -> (r: Result<Status, ContractError>)
        requires
            self.wf(),
        ensures
            r == self.spec_close(*block),
    {
        match self.current_status(block) {
            Ok(Status::Rejected) => Ok(Status::Rejected),
            Ok(_) => Err(ContractError::WrongCloseStatus),
            Err(e) => Err(ContractError::Time(e)),
        }
    }

    /// Closes the proposal where [`SingleChoiceProposal::check_close`] allows
    /// it. A refused close leaves the proposal as it was.
    pub fn close(&mut self, block: &BlockInfo) -> (r: Result<Status, ContractError>)
        requires
            old(self).wf(),
        ensures
            r == old(self).spec_close(*block),
            r is Ok ==> *final(self) == old(self).with_status(Status::Closed),
            r is Err ==> *final(self) == *old(self),
            final(self).wf(),
    {
        match self.check_close(block) {
            Ok(from) => {
                self.status = Status::Closed;
                Ok(from)
            },
            Err(e) => Err(e),
        }
    }

    /// Records that the payload of the proposal reported failure. Only an
    /// executed proposal is marked; any other stays as it is. Returns whether
    /// the proposal was marked.
    pub fn mark_execution_failed(&mut self) -> (r: bool)
        ensures
            r == (old(self).status == Status::Executed),
            r ==> *final(self) == old(self).with_status(Status::ExecutionFailed),
            !r ==> *final(self) == *old(self),
    {
        match self.status {
            Status::Executed => {
                self.status = Status::ExecutionFailed;
                true
            },
            _ => false,
        }
    }
}

/// Recomputing the status is idempotent: a proposal whose status has just
/// been recomputed keeps that status when it is recomputed again in the same
/// block.
pub proof fn lemma_status_recompute_is_idempotent(p: SingleChoiceProposal, block: BlockInfo)
    requires
        p.spec_current_status(block) is Ok,
    ensures
        p.with_status(p.spec_current_status(block)->Ok_0).spec_current_status(block)
            == p.spec_current_status(block),
{
}

/// A proposal that is not open and not timelocked keeps its status whatever
/// the block and the tally.
pub proof fn lemma_settled_status_is_kept(p: SingleChoiceProposal, block: BlockInfo)
    requires
        !(p.status is Open),
        !(p.status is VetoTimelock),
    ensures
        p.spec_current_status(block) == Ok::<Status, TimeError>(p.status),
{
}

/// A proposal whose current status is open or passed cannot be closed.
pub proof fn lemma_close_needs_rejection(p: SingleChoiceProposal, block: BlockInfo)
    requires
        p.spec_current_status(block) == Ok::<Status, TimeError>(Status::Open)
            || p.spec_current_status(block) == Ok::<Status, TimeError>(Status::Passed),
    ensures
        p.spec_close(block) == Err::<Status, ContractError>(ContractError::WrongCloseStatus),
{
}

/// An open proposal whose veto settings do not allow a veto before passing
/// cannot be vetoed: the vetoer is told that the status does not allow it.
pub proof fn lemma_no_veto_while_open(p: SingleChoiceProposal, block: BlockInfo, sender: Seq<char>)
    requires
        p.spec_current_status(block) == Ok::<Status, TimeError>(Status::Open),
        p.veto matches Some(v) && !v.veto_before_passed && v.vetoer@ == sender,
    ensures
        p.spec_veto(block, sender) == Err::<Status, ContractError>(
            ContractError::Veto(VetoError::InvalidProposalStatus { status: Status::Open }),
        ),
{
}

/// Early decision: an open proposal whose yes votes exceed all power that may
/// still go against them is resolved as passed before its voting period ends,
/// as soon as its minimum voting period is over. This holds where ballots
/// cannot be changed and under every policy that such a lead can meet; with a
/// veto configured the proposal is then timelocked, else it is passed.
pub proof fn lemma_lead_resolves_early(p: SingleChoiceProposal, block: BlockInfo)
    requires
        p.wf(),
        p.status is Open,
        !p.allow_revoting,
        !p.in_min_voting_period(block),
        !p.expiration.spec_is_expired(block),
        p.votes.yes > p.votes.no + (p.total_power - p.votes.spec_total()),
        p.threshold.met_by_a_lead(p.votes, p.total_power),
    ensures
        p.spec_decision(block) == Decision::Passed,
        p.spec_current_status(block) == p.spec_passed_status(block),
        p.veto is None ==> p.spec_current_status(block) == Ok::<Status, TimeError>(Status::Passed),
{
    crate::threshold::lemma_lead_passes_early(p.threshold, p.votes, p.total_power);
}

/// A proposal that has been executed, vetoed or closed, or whose execution
/// has failed, has run its course: it can be neither executed nor vetoed nor
/// closed, whoever asks and whenever.
pub proof fn lemma_terminal_states_refuse_commands(
    p: SingleChoiceProposal,
    block: BlockInfo,
    sender: Seq<char>,
    sender_can_execute: bool,
)
    requires
        p.status.is_terminal(),
    ensures
        p.spec_execute(block, sender, sender_can_execute) == Err::<Status, ContractError>(
            ContractError::NotPassed,
        ),
        p.spec_veto(block, sender) is Err,
        p.spec_close(block) == Err::<Status, ContractError>(ContractError::WrongCloseStatus),
{
}

} // verus!
