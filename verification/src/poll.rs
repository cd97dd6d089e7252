//! A proposal together with its ballots, and the path every ballot takes:
//! it is cast into the ledger, the tally follows, and the status of the
//! proposal is recomputed.

use vstd::prelude::*;
use crate::ballot::{
    cast_outcome,
    distinct_voters,
    entries_after,
    tallied,
    votes_after,
    BallotEntry,
    BallotLedger,
};
use crate::error::ContractError;
use crate::proposal::SingleChoiceProposal;
use crate::status::Status;
use crate::time::BlockInfo;
use crate::votes::{Vote, Votes};

verus! {

/// A proposal with its ballots.
#[derive(Debug, PartialEq, Eq)]
pub struct ProposalRecord {
    pub proposal: SingleChoiceProposal,
    pub ballots: BallotLedger,
}

/// The mathematical content of a [`ProposalRecord`]: the proposal and the
/// sequence of its ballots.
pub struct Poll {
    pub proposal: SingleChoiceProposal,
    pub entries: Seq<BallotEntry>,
}

impl View for ProposalRecord {
    type V = Poll;

    open spec fn view(&self) -> Poll {
        Poll { proposal: self.proposal, entries: self.ballots.entries@ }
    }
}

impl Poll {
    /// A poll is well formed when its proposal is, no voter has two ballots,
    /// and the proposal's tally is what the ballots add up to.
    pub open spec fn wf(self) -> bool {
        &&& self.proposal.wf()
        &&& distinct_voters(self.entries)
        &&& tallied(self.entries, self.proposal.votes)
    }

    /// This poll with its proposal in another state.
    pub open spec fn with_status(self, status: Status) -> Poll {
        Poll { proposal: self.proposal.with_status(status), entries: self.entries }
    }

    /// Whether `voter` can vote as of `block`, and if so the tally and the
    /// status that follow. Voting ends with the voting period, whatever the
    /// status; then the ledger decides; then the status is recomputed from
    /// the new tally.
    pub open spec fn spec_check_vote(
        self,
        block: BlockInfo,
        id: u64,
        voter: Seq<char>,
        power: u128,
        choice: Vote,
    ) -> Result<(Votes, Status), ContractError> {
        if self.proposal.expiration.spec_is_expired(block) {
            Err(ContractError::Expired { id })
        } else {
            match cast_outcome(self.entries, self.proposal, voter, power, choice) {
                Err(e) => Err(e),
                Ok(_) => {
                    let votes = votes_after(self.entries, self.proposal.votes, voter, power, choice);
                    match self.proposal.with_votes(votes).spec_current_status(block) {
                        Err(e) => Err(ContractError::Time(e)),
                        Ok(status) => Ok((votes, status)),
                    }
                },
            }
        }
    }

    /// The poll after `voter` has voted, or the refusal.
    pub open spec fn spec_vote(
        self,
        block: BlockInfo,
        id: u64,
        voter: String,
        power: u128,
        choice: Vote,
        rationale: Option<String>,
    ) -> Result<Poll, ContractError> {
        match self.spec_check_vote(block, id, voter@, power, choice) {
            Err(e) => Err(e),
            Ok((votes, status)) => Ok(
                Poll {
                    proposal: self.proposal.with_votes(votes).with_status(status),
                    entries: entries_after(self.entries, voter, power, choice, rationale),
                },
            ),
        }
    }
}

impl ProposalRecord {
    /// A record is well formed when its content is.
    pub open spec fn wf(&self) -> bool {
        self@.wf()
    }

    /// Tests [`ProposalRecord::wf`].
    pub fn is_well_formed(&self) -> (r: bool)
        ensures
            r == self.wf(),
    {
        if !self.proposal.is_well_formed() || !self.ballots.is_well_formed() {
            return false;
        }
        match self.ballots.tally() {
            Some(votes) => votes.yes == self.proposal.votes.yes && votes.no
                == self.proposal.votes.no && votes.abstain == self.proposal.votes.abstain,
            None => false,
        }
    }

    /// The record of a proposal on which nobody has voted.
    pub fn new(proposal: SingleChoiceProposal) -> (r: ProposalRecord)
        ensures
            r@ == (Poll { proposal, entries: Seq::empty() }),
    {
        ProposalRecord { proposal, ballots: BallotLedger { entries: Vec::new() } }
    }

    /// Whether `voter` can vote as of `block`, and if so the tally and the
    /// status that follow.
    pub fn check_vote(&self, block: &BlockInfo, id: u64, voter: &String, power: u128, choice: Vote) -> (r:
        Result<(Votes, Status), ContractError>)
        requires
            self.wf(),
        ensures
            r == self@.spec_check_vote(*block, id, voter@, power, choice),
            r matches Ok(pair) ==> self.proposal.with_votes(pair.0).wf(),
    {
        if self.proposal.expiration.is_expired(block) {
            return Err(ContractError::Expired { id });
        }
        let votes = match self.ballots.preview_cast(&self.proposal, voter, power, choice) {
            Ok(votes) => votes,
            Err(e) => { return Err(e); },
        };
        match self.proposal.status_with(&votes, block) {
            Ok(status) => Ok((votes, status)),
            Err(e) => Err(ContractError::Time(e)),
        }
    }

    /// Casts the ballot of `voter` and recomputes the status. Returns the
    /// status before and after. A refused ballot changes nothing.
    pub fn vote(
        &mut self,
        block: &BlockInfo,
        id: u64,
        voter: String,
        power: u128,
        choice: Vote,
        rationale: Option<String>,
    ) -> (r: Result<(Status, Status), ContractError>)
        requires
            old(self).wf(),
        ensures
            match old(self)@.spec_vote(*block, id, voter, power, choice, rationale) {
                Ok(poll) => r == Ok::<(Status, Status), ContractError>(
                    (old(self).proposal.status, poll.proposal.status),
                ) && final(self)@ == poll,
                Err(e) => r == Err::<(Status, Status), ContractError>(e) && *final(self) == *old(
                    self,
                ),
            },
            final(self).wf(),
    {
        let (votes, status) = match self.check_vote(block, id, &voter, power, choice) {
            Ok(pair) => pair,
            Err(e) => { return Err(e); },
        };
        let from = self.proposal.status;
        let cast = self.ballots.cast(&mut self.proposal, voter, power, choice, rationale);
        self.proposal.status = status;
        Ok((from, status))
    }
}

} // verus!
