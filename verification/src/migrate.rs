//! Taking over the data of the first version of the module.
//!
//! The first version knew five states, no veto and no policy on failed
//! payloads, and it let a proposal hold a deposit. Its configuration and its
//! proposals are mapped onto the current ones. A proposal that still holds a
//! deposit cannot be taken over; every other is, with all its messages.

use vstd::prelude::*;
use crate::error::ContractError;
use crate::msg::{PreProposeInfo, ProposalCreationPolicy, SubMsg};
use crate::proposal::{clone_texts, same_content, SingleChoiceProposal};
use crate::state::Config;
use crate::status::Status;
use crate::threshold::Threshold;
use crate::time::{Duration, Expiration};
use crate::veto::{VetoConfig, VetoError};
use crate::votes::Votes;

verus! {

/// The states of the first version.
#[derive(Clone, Copy, Debug, PartialEq, Eq, Structural)]
pub enum V1Status {
    Open,
    Rejected,
    Passed,
    Executed,
    Closed,
}

/// The configuration of the first version.
#[derive(Debug, PartialEq, Eq)]
pub struct V1Config {
    pub threshold: Threshold,
    pub max_voting_period: Duration,
    pub min_voting_period: Option<Duration>,
    pub only_members_execute: bool,
    pub allow_revoting: bool,
    pub dao: String,
}

/// A proposal of the first version.
#[derive(Debug, PartialEq, Eq)]
pub struct V1Proposal {
    pub title: String,
    pub description: String,
    pub proposer: String,
    pub start_height: u64,
    pub min_voting_period: Option<Expiration>,
    pub expiration: Expiration,
    pub threshold: Threshold,
    pub total_power: u128,
    /// The messages to run, each in its canonical encoding.
    pub msgs: Vec<String>,
    pub status: V1Status,
    pub votes: Votes,
    pub allow_revoting: bool,
    /// The deposit that the proposal holds, if it was created with one.
    pub deposit: Option<u128>,
}

/// How the stored data is to be taken over.
#[derive(Debug, PartialEq, Eq)]
pub enum MigrateMsg {
    /// From the first version, with the settings that it did not have.
    FromV1 {
        close_proposal_on_execution_failure: bool,
        pre_propose_info: PreProposeInfo,
        veto: Option<VetoConfig>,
    },
    /// From a version that stores its data as the current one does.
    FromCompatible,
}

/// What a migration yields: what is to be stored, and what to dispatch.
#[derive(Debug, PartialEq, Eq)]
pub struct Migration {
    pub config: Config,
    pub creation_policy: ProposalCreationPolicy,
    /// The proposals, each with its id, in the order in which they came.
    pub proposals: Vec<(u64, SingleChoiceProposal)>,
    pub messages: Vec<SubMsg>,
}

/// The current state for a state of the first version.
pub open spec fn spec_v1_status_to_v2(status: V1Status) -> Status {
    match status {
        V1Status::Open => Status::Open,
        V1Status::Rejected => Status::Rejected,
        V1Status::Passed => Status::Passed,
        V1Status::Executed => Status::Executed,
        V1Status::Closed => Status::Closed,
    }
}

/// Whether a proposal of the first version still holds a deposit: it was
/// created with a deposit that is not zero, and it is neither closed nor
/// executed.
pub open spec fn holds_deposit(proposal: V1Proposal) -> bool {
    &&& proposal.deposit matches Some(amount) && amount != 0
    &&& proposal.status != V1Status::Closed
    &&& proposal.status != V1Status::Executed
}

/// The current form of a proposal of the first version: every field is
/// carried over, the status is mapped, and there is no veto.
pub open spec fn image_of(proposal: V1Proposal) -> SingleChoiceProposal {
    SingleChoiceProposal {
        title: proposal.title,
        description: proposal.description,
        proposer: proposal.proposer,
        start_height: proposal.start_height,
        min_voting_period: proposal.min_voting_period,
        expiration: proposal.expiration,
        threshold: proposal.threshold,
        total_power: proposal.total_power,
        msgs: proposal.msgs,
        status: spec_v1_status_to_v2(proposal.status),
        votes: proposal.votes,
        allow_revoting: proposal.allow_revoting,
        veto: None,
    }
}

/// Whether `r` is what taking over `proposal` yields: a proposal that still
/// holds a deposit is refused; any other is taken over with the content of
/// its current form, all its messages included.
pub open spec fn migrated(r: Result<SingleChoiceProposal, ContractError>, proposal: V1Proposal) -> bool {
    if holds_deposit(proposal) {
        r == Err::<SingleChoiceProposal, ContractError>(ContractError::PendingProposals)
    } else {
        r matches Ok(taken) && same_content(taken, image_of(proposal))
    }
}

/// The current configuration for one of the first version.
pub open spec fn spec_migrate_config(
    config: V1Config,
    close_proposal_on_execution_failure: bool,
    veto: Option<VetoConfig>,
) -> Config {
    Config {
        threshold: config.threshold,
        max_voting_period: config.max_voting_period,
        min_voting_period: config.min_voting_period,
        only_members_execute: config.only_members_execute,
        allow_revoting: config.allow_revoting,
        dao: config.dao,
        close_proposal_on_execution_failure,
        veto,
    }
}

/// Whether one of `proposals` still holds a deposit.
pub open spec fn some_hold_a_deposit(proposals: Seq<(u64, V1Proposal)>) -> bool {
    exists|k: int| 0 <= k < proposals.len() && holds_deposit((#[trigger] proposals[k]).1)
}

/// Whether `r` is what taking over `proposals` yields. A held deposit
/// anywhere among them refuses them all; else each is taken over with the
/// content of its current form, under its id and in its place.
pub open spec fn migrates(
    r: Result<Vec<(u64, SingleChoiceProposal)>, ContractError>,
    proposals: Seq<(u64, V1Proposal)>,
) -> bool {
    if some_hold_a_deposit(proposals) {
        r == Err::<Vec<(u64, SingleChoiceProposal)>, ContractError>(
            ContractError::PendingProposals,
        )
    } else {
        r matches Ok(list) && list@.len() == proposals.len() && forall|i: int|
            0 <= i < proposals.len() ==> (#[trigger] list@[i]).0 == proposals[i].0
                && same_content(list@[i].1, image_of(proposals[i].1))
    }
}

/// The current state for a state of the first version.
pub fn v1_status_to_v2(status: V1Status) -> (r: Status)
    ensures
        r == spec_v1_status_to_v2(status),
{
    match status {
        V1Status::Open => Status::Open,
        V1Status::Rejected => Status::Rejected,
        V1Status::Passed => Status::Passed,
        V1Status::Executed => Status::Executed,
        V1Status::Closed => Status::Closed,
    }
}

/// Takes over one proposal of the first version.
pub fn migrate_proposal(proposal: &V1Proposal) -> (r: Result<SingleChoiceProposal, ContractError>)
    ensures
        migrated(r, *proposal),
{
    if holds_a_deposit(proposal) {
        return Err(ContractError::PendingProposals);
    }
    Ok(
        SingleChoiceProposal {
            title: proposal.title.clone(),
            description: proposal.description.clone(),
            proposer: proposal.proposer.clone(),
            start_height: proposal.start_height,
            min_voting_period: proposal.min_voting_period,
            expiration: proposal.expiration,
            threshold: proposal.threshold,
            total_power: proposal.total_power,
            msgs: clone_texts(&proposal.msgs),
            status: v1_status_to_v2(proposal.status),
            votes: proposal.votes,
            allow_revoting: proposal.allow_revoting,
            veto: None,
        },
    )
}

/// Whether a proposal of the first version still holds a deposit.
pub fn holds_a_deposit(proposal: &V1Proposal) -> (r: bool)
    ensures
        r == holds_deposit(*proposal),
{
    let pending = match proposal.deposit {
        Some(amount) => amount != 0,
        None => false,
    };
    let settled = match proposal.status {
        V1Status::Closed | V1Status::Executed => true,
        _ => false,
    };
    pending && !settled
}

/// Takes over the proposals of the first version, in order. All of them are
/// tested for a held deposit before any is taken over.
pub fn migrate_proposals(proposals: &Vec<(u64, V1Proposal)>) -> (r: Result<
    Vec<(u64, SingleChoiceProposal)>,
    ContractError,
>)
    ensures
        migrates(r, proposals@),
{
    let mut k: usize = 0;
    while k < proposals.len()
        invariant
            k <= proposals@.len(),
            forall|j: int| 0 <= j < k ==> !holds_deposit((#[trigger] proposals@[j]).1),
        decreases proposals@.len() - k,
    {
        if holds_a_deposit(&proposals[k].1) {
            return Err(ContractError::PendingProposals);
        }
        k += 1;
    }
    let mut out: Vec<(u64, SingleChoiceProposal)> = Vec::new();
    let mut i: usize = 0;
    while i < proposals.len()
        invariant
            i <= proposals@.len(),
            out@.len() == i,
            !some_hold_a_deposit(proposals@),
            forall|j: int|
                0 <= j < i ==> (#[trigger] out@[j]).0 == proposals@[j].0 && same_content(
                    out@[j].1,
                    image_of(proposals@[j].1),
                ),
        decreases proposals@.len() - i,
    {
        match migrate_proposal(&proposals[i].1) {
            Ok(taken) => {
                out.push((proposals[i].0, taken));
            },
            Err(e) => {
                assert(holds_deposit(proposals@[i as int].1));
                return Err(e);
            },
        }
        i += 1;
    }
    Ok(out)
}

/// Whether the migration that `msg` asks for needs the data of the first
/// version. It is refused where that data has been taken over already.
pub fn needs_v1_data(msg: &MigrateMsg, already_current: bool) -> (r: Result<bool, ContractError>)
    ensures
        r == (match *msg {
            MigrateMsg::FromCompatible => Ok::<bool, ContractError>(false),
            MigrateMsg::FromV1 { .. } => if already_current {
                Err::<bool, ContractError>(ContractError::AlreadyMigrated)
            } else {
                Ok::<bool, ContractError>(true)
            },
        }),
{
    match msg {
        MigrateMsg::FromCompatible => Ok(false),
        MigrateMsg::FromV1 { .. } => {
            if already_current {
                Err(ContractError::AlreadyMigrated)
            } else {
                Ok(true)
            }
        },
    }
}

/// Takes over the stored data.
///
/// From a compatible version there is nothing to do. From the first version
/// the configuration is completed with the settings it did not have, anyone
/// may propose until the module named in the message has been instantiated,
/// and every proposal is mapped onto its current form. It fails where the
/// data is in the current format already, where the veto settings do not fit
/// the voting period, and where a proposal cannot be taken over.
pub fn migrate(msg: MigrateMsg, already_current: bool, config: V1Config, proposals: &Vec<(u64, V1Proposal)>) -> (r:
    Result<Option<Migration>, ContractError>)
    ensures
        match msg {
            MigrateMsg::FromCompatible => r == Ok::<Option<Migration>, ContractError>(None),
            MigrateMsg::FromV1 { close_proposal_on_execution_failure, pre_propose_info, veto } => {
                if already_current {
                    r == Err::<Option<Migration>, ContractError>(ContractError::AlreadyMigrated)
                } else if veto matches Some(v) && !v.timelock_duration.same_unit(
                    config.max_voting_period,
                ) {
                    r == Err::<Option<Migration>, ContractError>(
                        ContractError::Veto(VetoError::TimelockDurationUnitMismatch),
                    )
                } else {
                    match r {
                        Ok(Some(migration)) => {
                            &&& migration.config == spec_migrate_config(
                                config,
                                close_proposal_on_execution_failure,
                                veto,
                            )
                            &&& migration.creation_policy == ProposalCreationPolicy::Anyone
                            &&& migration.messages@ == pre_propose_info.spec_messages(config.dao)
                            &&& migrates(
                                Ok::<Vec<(u64, SingleChoiceProposal)>, ContractError>(
                                    migration.proposals,
                                ),
                                proposals@,
                            )
                        },
                        Ok(None) => false,
                        Err(e) => migrates(
                            Err::<Vec<(u64, SingleChoiceProposal)>, ContractError>(e),
                            proposals@,
                        ),
                    }
                }
            },
        },
{
    match msg {
        MigrateMsg::FromCompatible => Ok(None),
        MigrateMsg::FromV1 { close_proposal_on_execution_failure, pre_propose_info, veto } => {
            if already_current {
                return Err(ContractError::AlreadyMigrated);
            }
            match &veto {
                Some(v) => {
                    if let Err(e) = v.validate(&config.max_voting_period) {
                        return Err(ContractError::Veto(e));
                    }
                },
                None => {},
            }
            let (creation_policy, messages) = pre_propose_info.into_initial_policy_and_messages(
                config.dao.clone(),
            );
            let migrated = match migrate_proposals(proposals) {
                Ok(list) => list,
                Err(e) => { return Err(e); },
            };
            Ok(
                Some(
                    Migration {
                        config: Config {
                            threshold: config.threshold,
                            max_voting_period: config.max_voting_period,
                            min_voting_period: config.min_voting_period,
                            only_members_execute: config.only_members_execute,
                            allow_revoting: config.allow_revoting,
                            dao: config.dao,
                            close_proposal_on_execution_failure,
                            veto,
                        },
                        creation_policy,
                        proposals: migrated,
                        messages,
                    },
                ),
            )
        },
    }
}

} // verus!
