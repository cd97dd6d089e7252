//! The state of the proposal module: its configuration, who may create
//! proposals, every proposal ever created with its ballots, and the hook
//! subscribers.

use vstd::prelude::*;
use crate::ballot::{ballot_in, Ballot};
use crate::poll::{Poll, ProposalRecord};
use crate::error::VotingError;
use crate::hooks::Hooks;
use crate::msg::ProposalCreationPolicy;
use crate::threshold::Threshold;
use crate::time::Duration;
use crate::veto::VetoConfig;

verus! {

/// The configuration of the module. A change affects only proposals that are
/// created after it.
#[derive(Debug, PartialEq, Eq)]
pub struct Config {
    /// The threshold a proposal must reach to pass.
    pub threshold: Threshold,
    /// How long a proposal may be voted on.
    pub max_voting_period: Duration,
    /// How long a proposal stays open at least.
    pub min_voting_period: Option<Duration>,
    /// Whether execution is restricted by membership.
    pub only_members_execute: bool,
    /// Whether voters may change their ballots.
    pub allow_revoting: bool,
    /// The address of the organization that owns this module.
    pub dao: String,
    /// Whether a proposal whose payload fails is marked as failed.
    pub close_proposal_on_execution_failure: bool,
    /// The veto settings, if a veto is configured.
    pub veto: Option<VetoConfig>,
}

/// Everything the module keeps between calls. A proposal's id is its place in
/// `proposals`, counted from one: ids grow by one with every proposal, and no
/// proposal is ever removed.
#[derive(Debug, PartialEq, Eq)]
pub struct State {
    pub config: Config,
    pub creation_policy: ProposalCreationPolicy,
    pub proposals: Vec<ProposalRecord>,
    pub proposal_hooks: Hooks,
    pub vote_hooks: Hooks,
}

impl Clone for Config {
    fn clone(&self) -> (r: Self)
        ensures
            r == *self,
    {
        Config {
            threshold: self.threshold,
            max_voting_period: self.max_voting_period,
            min_voting_period: self.min_voting_period,
            only_members_execute: self.only_members_execute,
            allow_revoting: self.allow_revoting,
            dao: self.dao.clone(),
            close_proposal_on_execution_failure: self.close_proposal_on_execution_failure,
            veto: match &self.veto {
                Some(v) => Some(v.clone()),
                None => None,
            },
        }
    }
}

/// What [`validate_voting_period`] returns.
pub open spec fn spec_validate_voting_period(min: Option<Duration>, max: Duration) -> Result<
    (Option<Duration>, Duration),
    VotingError,
> {
    match (min, max) {
        (None, _) => Ok((min, max)),
        (Some(Duration::Time(a)), Duration::Time(b)) => if a <= b {
            Ok((min, max))
        } else {
            Err(VotingError::InvalidMinVotingPeriod)
        },
        (Some(Duration::Height(a)), Duration::Height(b)) => if a <= b {
            Ok((min, max))
        } else {
            Err(VotingError::InvalidMinVotingPeriod)
        },
        _ => Err(VotingError::DurationUnitsConflict),
    }
}

/// Checks that the minimum voting period, if there is one, is counted in the
/// unit of the maximum period and is not longer. Hands both periods back.
pub fn validate_voting_period(min: Option<Duration>, max: Duration) -> (r: Result<
    (Option<Duration>, Duration),
    VotingError,
>)
    ensures
        r == spec_validate_voting_period(min, max),
{
    match (min, max) {
        (None, _) => Ok((min, max)),
        (Some(Duration::Time(a)), Duration::Time(b)) => {
            if a <= b {
                Ok((min, max))
            } else {
                Err(VotingError::InvalidMinVotingPeriod)
            }
        },
        (Some(Duration::Height(a)), Duration::Height(b)) => {
            if a <= b {
                Ok((min, max))
            } else {
                Err(VotingError::InvalidMinVotingPeriod)
            }
        },
        _ => Err(VotingError::DurationUnitsConflict),
    }
}

impl State {
    /// The state is well formed when the configured threshold is a valid
    /// policy, every record is well formed, and no address subscribes to a
    /// hook twice.
    pub open spec fn wf(&self) -> bool {
        &&& self.config.threshold.valid()
        &&& self.proposal_hooks.wf()
        &&& self.vote_hooks.wf()
        &&& forall|i: int| 0 <= i < self.proposals@.len() ==> (#[trigger] self.proposals@[i]).wf()
    }

    /// Whether a proposal with this id has been created.
    pub open spec fn has_proposal(&self, id: u64) -> bool {
        1 <= id <= self.proposals@.len()
    }

    /// The content of every record, in the order of the ids.
    pub open spec fn polls(&self) -> Seq<Poll> {
        Seq::new(self.proposals@.len(), |i: int| self.proposals@[i]@)
    }

    /// The proposal `id` with its ballots.
    pub open spec fn poll(&self, id: u64) -> Poll
        recommends
            self.has_proposal(id),
    {
        self.proposals@[id - 1]@
    }

    /// The ballot that `voter` has cast on the proposal `id`, if there is
    /// such a proposal and such a ballot.
    pub open spec fn ballot_of(&self, id: u64, voter: Seq<char>) -> Option<Ballot> {
        if self.has_proposal(id) {
            ballot_in(self.poll(id).entries, voter)
        } else {
            None
        }
    }

    /// Whether this state differs from `before` at most in its proposals.
    pub open spec fn keeps_settings_of(&self, before: State) -> bool {
        &&& self.config == before.config
        &&& self.creation_policy == before.creation_policy
        &&& self.proposal_hooks == before.proposal_hooks
        &&& self.vote_hooks == before.vote_hooks
    }

    /// Whether this state is `before` with the proposal `id` replaced by
    /// `poll`.
    pub open spec fn replaces_poll(&self, before: State, id: u64, poll: Poll) -> bool {
        &&& self.keeps_settings_of(before)
        &&& self.polls() == before.polls().update(id - 1, poll)
    }

    /// Tests [`State::wf`].
    pub fn is_well_formed(&self) -> (r: bool)
        ensures
            r == self.wf(),
    {
        if self.config.threshold.validate().is_err() {
            return false;
        }
        if !self.proposal_hooks.is_well_formed() || !self.vote_hooks.is_well_formed() {
            return false;
        }
        let mut i: usize = 0;
        while i < self.proposals.len()
            invariant
                i <= self.proposals@.len(),
                forall|j: int| 0 <= j < i ==> (#[trigger] self.proposals@[j]).wf(),
            decreases self.proposals@.len() - i,
        {
            if !self.proposals[i].is_well_formed() {
                return false;
            }
            i += 1;
        }
        true
    }

    /// The place of the proposal `id` in `proposals`, if it exists.
    pub fn locate(&self, id: u64) -> (r: Option<usize>)
        ensures
            match r {
                Some(i) => self.has_proposal(id) && i == id - 1,
                None => !self.has_proposal(id),
            },
    {
        if id >= 1 && id - 1 < self.proposals.len() as u64 {
            Some((id - 1) as usize)
        } else {
            None
        }
    }

    /// The number of proposals that have been created.
    pub fn proposal_count(&self) -> (r: u64)
        ensures
            r == self.proposals@.len(),
    {
        self.proposals.len() as u64
    }

    /// The id that the next proposal gets; `None` where the ids have run out.
    pub fn next_proposal_id(&self) -> (r: Option<u64>)
        ensures
            r == if self.proposals@.len() < u64::MAX {
                Some((self.proposals@.len() + 1) as u64)
            } else {
                None
            },
    {
        (self.proposals.len() as u64).checked_add(1)
    }
}

} // verus!
