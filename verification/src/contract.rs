//! The commands of the proposal module.
//!
//! Every command takes the state, the block and the caller, and either changes
//! the state and returns what is to be dispatched, or refuses and leaves the
//! state as it was.

use vstd::prelude::*;
use crate::ballot::{lemma_slot_is_unique, slot_of, Ballot, BallotEntry};
use crate::electorate::Electorate;
use crate::admin::{proposal_hooks_only, vote_hooks_only};
use crate::error::{ContractError, HookError};
use crate::hooks::{
    new_vote_hooks,
    proposal_completed_hooks,
    proposal_status_changed_hooks,
    spec_new_vote_hooks,
    spec_proposal_completed_hooks,
    spec_proposal_status_changed_hooks,
};
use crate::msg::{ExecuteBody, ProposalCreationPolicy, ReplyOn, SubMsg, WasmMsg};
use crate::poll::Poll;
use crate::proposal::SingleChoiceProposal;
use crate::reply::{
    lemma_tags_round_trip,
    mask_proposal_execution_proposal_id,
    spec_mask,
    TaggedReplyId,
    MAX_TAGGED_VALUE,
    FAILED_PRE_PROPOSE_MODULE_HOOK_ID,
    FAILED_PROPOSAL_EXECUTION_MASK,
};
use crate::state::{Config, State};
use crate::status::Status;
use crate::time::BlockInfo;
use crate::votes::Vote;

verus! {

/// What a command hands back: the messages to dispatch, in order.
#[derive(Debug, PartialEq, Eq)]
pub struct Response {
    pub messages: Vec<SubMsg>,
}

/// What a vote hands back: the messages to dispatch, and the status of the
/// proposal after the vote.
#[derive(Debug, PartialEq, Eq)]
pub struct VoteResponse {
    pub messages: Vec<SubMsg>,
    pub status: Status,
}

/// Whether `sender` may execute passed proposals: anyone where execution is
/// not restricted; else every address that the membership query lists,
/// whether or not it holds voting power.
pub open spec fn spec_sender_can_execute(config: Config, electorate: Electorate, sender: Seq<char>) -> bool {
    config.only_members_execute ==> electorate.spec_is_member(sender)
}

/// The message that asks the organization to run the messages of the
/// proposal `id`; none where the proposal has no messages. Where a failed
/// payload is to mark the proposal, the message asks for a notice of failure
/// under the proposal's tag.
pub open spec fn spec_dispatch(config: Config, id: u64, msgs: Seq<String>) -> Seq<SubMsg> {
    if msgs.len() == 0 {
        Seq::empty()
    } else {
        seq![
            SubMsg {
                id: if config.close_proposal_on_execution_failure {
                    spec_mask(FAILED_PROPOSAL_EXECUTION_MASK, id)
                } else {
                    0
                },
                reply_on: if config.close_proposal_on_execution_failure {
                    ReplyOn::Error
                } else {
                    ReplyOn::Never
                },
                msg: WasmMsg::Execute {
                    contract_addr: config.dao,
                    msg: ExecuteBody::ExecuteProposalHook { proposal_id: id },
                },
            },
        ]
    }
}

/// The messages that tell of a proposal that has run its course: to the
/// proposal hook subscribers where the status has changed, then to the module
/// that creates proposals.
pub open spec fn spec_completion(state: State, id: u64, from: Status, to: Status) -> Seq<SubMsg> {
    spec_proposal_status_changed_hooks(state.proposal_hooks.subscribers@, id, from, to)
        + spec_proposal_completed_hooks(state.creation_policy, id, to)
}

/// The messages that follow a vote: to the proposal hook subscribers where
/// the status has changed, then to the vote hook subscribers.
pub open spec fn spec_vote_messages(
    state: State,
    id: u64,
    from: Status,
    to: Status,
    voter: String,
    vote: Vote,
) -> Seq<SubMsg> {
    spec_proposal_status_changed_hooks(state.proposal_hooks.subscribers@, id, from, to)
        + spec_new_vote_hooks(state.vote_hooks.subscribers@, id, voter, vote)
}

/// What an execution of `proposal` by `sender` amounts to: the status it is
/// executed from and the messages to dispatch, or the refusal.
pub open spec fn spec_plan_execute(
    state: State,
    proposal: SingleChoiceProposal,
    block: BlockInfo,
    sender: Seq<char>,
    id: u64,
    electorate: Electorate,
) -> Result<(Status, Seq<SubMsg>), ContractError> {
    match proposal.spec_execute(
        block,
        sender,
        spec_sender_can_execute(state.config, electorate, sender),
    ) {
        Err(e) => Err(e),
        Ok(from) => Ok(
            (
                from,
                spec_dispatch(state.config, id, proposal.msgs@) + spec_completion(
                    state,
                    id,
                    from,
                    Status::Executed,
                ),
            ),
        ),
    }
}

/// What [`proposal_execute`] does: a proposal that may be executed becomes
/// executed and its messages are handed back; a refusal changes nothing.
pub open spec fn proposal_executed(
    r: Result<Response, ContractError>,
    before: State,
    after: State,
    block: BlockInfo,
    sender: Seq<char>,
    id: u64,
    electorate: Electorate,
) -> bool {
    if !before.has_proposal(id) {
        r == Err::<Response, ContractError>(ContractError::NoSuchProposal { id }) && after
            == before
    } else {
        match spec_plan_execute(before, before.poll(id).proposal, block, sender, id, electorate) {
            Err(e) => r == Err::<Response, ContractError>(e) && after == before,
            Ok(plan) => {
                &&& r is Ok
                &&& r->Ok_0.messages@ == plan.1
                &&& after.replaces_poll(before, id, before.poll(id).with_status(Status::Executed))
            },
        }
    }
}

/// What [`execute_veto`] does.
pub open spec fn vetoed(
    r: Result<Response, ContractError>,
    before: State,
    after: State,
    block: BlockInfo,
    sender: Seq<char>,
    id: u64,
) -> bool {
    if !before.has_proposal(id) {
        r == Err::<Response, ContractError>(ContractError::NoSuchProposal { id }) && after
            == before
    } else {
        match before.poll(id).proposal.spec_veto(block, sender) {
            Err(e) => r == Err::<Response, ContractError>(e) && after == before,
            Ok(from) => {
                &&& r is Ok
                &&& r->Ok_0.messages@ == spec_completion(before, id, from, Status::Vetoed)
                &&& after.replaces_poll(before, id, before.poll(id).with_status(Status::Vetoed))
            },
        }
    }
}

/// What [`execute_close`] does.
pub open spec fn closed(
    r: Result<Response, ContractError>,
    before: State,
    after: State,
    block: BlockInfo,
    id: u64,
) -> bool {
    if !before.has_proposal(id) {
        r == Err::<Response, ContractError>(ContractError::NoSuchProposal { id }) && after
            == before
    } else {
        match before.poll(id).proposal.spec_close(block) {
            Err(e) => r == Err::<Response, ContractError>(e) && after == before,
            Ok(from) => {
                &&& r is Ok
                &&& r->Ok_0.messages@ == spec_completion(before, id, from, Status::Closed)
                &&& after.replaces_poll(before, id, before.poll(id).with_status(Status::Closed))
            },
        }
    }
}

/// What [`proposal_vote`] does.
pub open spec fn voted(
    r: Result<VoteResponse, ContractError>,
    before: State,
    after: State,
    block: BlockInfo,
    id: u64,
    voter: String,
    vote: Vote,
    rationale: Option<String>,
    electorate: Electorate,
) -> bool {
    if !before.has_proposal(id) {
        r == Err::<VoteResponse, ContractError>(ContractError::NoSuchProposal { id }) && after
            == before
    } else {
        match before.poll(id).spec_vote(
            block,
            id,
            voter,
            electorate.spec_power_of(voter@),
            vote,
            rationale,
        ) {
            Err(e) => r == Err::<VoteResponse, ContractError>(e) && after == before,
            Ok(poll) => {
                &&& r is Ok
                &&& r->Ok_0.status == poll.proposal.status
                &&& r->Ok_0.messages@ == spec_vote_messages(
                    before,
                    id,
                    before.poll(id).proposal.status,
                    poll.proposal.status,
                    voter,
                    vote,
                )
                &&& after.replaces_poll(before, id, poll)
            },
        }
    }
}

/// What [`execute_update_rationale`] does: the ballot of `sender` keeps its
/// place, its power and its position, and carries the new rationale.
pub open spec fn rationale_updated(
    r: Result<(), ContractError>,
    before: State,
    after: State,
    sender: String,
    id: u64,
    rationale: Option<String>,
) -> bool {
    match before.ballot_of(id, sender@) {
        None => r == Err::<(), ContractError>(ContractError::NoSuchVote { id, voter: sender })
            && after
            == before,
        Some(recorded) => {
            let entries = before.poll(id).entries;
            let at = slot_of(entries, sender@);
            &&& r is Ok
            &&& after.replaces_poll(
                before,
                id,
                Poll {
                    proposal: before.poll(id).proposal,
                    entries: entries.update(
                        at,
                        BallotEntry {
                            voter: entries[at].voter,
                            ballot: Ballot { power: recorded.power, vote: recorded.vote, rationale },
                        },
                    ),
                },
            )
            &&& after.ballot_of(id, sender@) == Some(
                Ballot { power: recorded.power, vote: recorded.vote, rationale },
            )
        },
    }
}

/// Whether `sender` may execute passed proposals.
pub fn sender_can_execute(config: &Config, electorate: &Electorate, sender: &String) -> (r: bool)
    ensures
        r == spec_sender_can_execute(*config, *electorate, sender@),
{
    if config.only_members_execute {
        electorate.is_member(sender)
    } else {
        true
    }
}

/// The messages that tell of a proposal that has run its course.
fn completion(state: &State, id: u64, from: Status, to: Status) -> (r: Vec<SubMsg>)
    ensures
        r@ == spec_completion(*state, id, from, to),
{
    let mut messages = proposal_status_changed_hooks(&state.proposal_hooks, id, from, to);
    let mut completed = proposal_completed_hooks(&state.creation_policy, id, to);
    messages.append(&mut completed);
    messages
}

/// Plans the execution of `proposal`, which has the id `id`, by `sender`:
/// tests that it may be executed and prepares the messages. The state is read
/// for its configuration, its creation policy and its hook subscribers only.
pub fn plan_execute(
    state: &State,
    proposal: &SingleChoiceProposal,
    block: &BlockInfo,
    sender: &String,
    id: u64,
    electorate: &Electorate,
) -> (r: Result<(Status, Vec<SubMsg>), ContractError>)
    requires
        proposal.wf(),
    ensures
        match spec_plan_execute(*state, *proposal, *block, sender@, id, *electorate) {
            Ok(plan) => r is Ok && r->Ok_0.0 == plan.0 && r->Ok_0.1@ == plan.1,
            Err(e) => r == Err::<(Status, Vec<SubMsg>), ContractError>(e),
        },
{
    let allowed = sender_can_execute(&state.config, electorate, sender);
    let from = match proposal.check_execute(block, sender, allowed) {
        Ok(from) => from,
        Err(e) => { return Err(e); },
    };
    let mut messages: Vec<SubMsg> = Vec::new();
    if proposal.msgs.len() > 0 {
        let msg = WasmMsg::Execute {
            contract_addr: state.config.dao.clone(),
            msg: ExecuteBody::ExecuteProposalHook { proposal_id: id },
        };
        if state.config.close_proposal_on_execution_failure {
            messages.push(
                SubMsg { id: mask_proposal_execution_proposal_id(id), reply_on: ReplyOn::Error, msg },
            );
        } else {
            messages.push(SubMsg { id: 0, reply_on: ReplyOn::Never, msg });
        }
    }
    assert(messages@ =~= spec_dispatch(state.config, id, proposal.msgs@));
    let mut told = completion(state, id, from, Status::Executed);
    messages.append(&mut told);
    Ok((from, messages))
}

/// Executes the proposal `proposal_id` for `sender`: the proposal must have
/// passed as of `block`, and the sender must be allowed to execute it. The
/// payload, if there is one, is dispatched to the organization.
pub fn proposal_execute(
    state: &mut State,
    block: &BlockInfo,
    sender: &String,
    proposal_id: u64,
    electorate: &Electorate,
) -> (r: Result<Response, ContractError>)
    requires
        old(state).wf(),
    ensures
        final(state).wf(),
        proposal_executed(r, *old(state), *final(state), *block, sender@, proposal_id, *electorate),
{
    let at = match state.locate(proposal_id) {
        Some(at) => at,
        None => { return Err(ContractError::NoSuchProposal { id: proposal_id }); },
    };
    let (_, messages) = match plan_execute(
        state,
        &state.proposals[at].proposal,
        block,
        sender,
        proposal_id,
        electorate,
    ) {
        Ok(plan) => plan,
        Err(e) => { return Err(e); },
    };
    let record = &mut state.proposals[at];
    record.proposal.status = Status::Executed;
    assert(state.polls() =~= old(state).polls().update(
        proposal_id - 1,
        old(state).poll(proposal_id).with_status(Status::Executed),
    ));
    Ok(Response { messages })
}

/// Vetoes the proposal `proposal_id` for `sender`, who must be the vetoer
/// that the proposal snapshotted.
pub fn execute_veto(state: &mut State, block: &BlockInfo, sender: &String, proposal_id: u64) -> (r:
    Result<Response, ContractError>)
    requires
        old(state).wf(),
    ensures
        final(state).wf(),
        vetoed(r, *old(state), *final(state), *block, sender@, proposal_id),
{
    let at = match state.locate(proposal_id) {
        Some(at) => at,
        None => { return Err(ContractError::NoSuchProposal { id: proposal_id }); },
    };
    let from = match state.proposals[at].proposal.check_veto(block, sender) {
        Ok(from) => from,
        Err(e) => { return Err(e); },
    };
    let messages = completion(state, proposal_id, from, Status::Vetoed);
    let record = &mut state.proposals[at];
    record.proposal.status = Status::Vetoed;
    assert(state.polls() =~= old(state).polls().update(
        proposal_id - 1,
        old(state).poll(proposal_id).with_status(Status::Vetoed),
    ));
    Ok(Response { messages })
}

/// Closes the proposal `proposal_id`, which must have been rejected as of
/// `block`.
pub fn execute_close(state: &mut State, block: &BlockInfo, proposal_id: u64) -> (r: Result<
    Response,
    ContractError,
>)
    requires
        old(state).wf(),
    ensures
        final(state).wf(),
        closed(r, *old(state), *final(state), *block, proposal_id),
{
    let at = match state.locate(proposal_id) {
        Some(at) => at,
        None => { return Err(ContractError::NoSuchProposal { id: proposal_id }); },
    };
    let from = match state.proposals[at].proposal.check_close(block) {
        Ok(from) => from,
        Err(e) => { return Err(e); },
    };
    let messages = completion(state, proposal_id, from, Status::Closed);
    let record = &mut state.proposals[at];
    record.proposal.status = Status::Closed;
    assert(state.polls() =~= old(state).polls().update(
        proposal_id - 1,
        old(state).poll(proposal_id).with_status(Status::Closed),
    ));
    Ok(Response { messages })
}

/// Casts the ballot of `voter_address` on the proposal `proposal_id`. The
/// voter's power is what `electorate` holds for the address. Voting is open
/// until the voting period ends, also on a proposal that has been decided
/// early.
pub fn proposal_vote(
    state: &mut State,
    block: &BlockInfo,
    proposal_id: u64,
    voter_address: String,
    vote: Vote,
    rationale: Option<String>,
    electorate: &Electorate,
) -> (r: Result<VoteResponse, ContractError>)
    requires
        old(state).wf(),
    ensures
        final(state).wf(),
        voted(
            r,
            *old(state),
            *final(state),
            *block,
            proposal_id,
            voter_address,
            vote,
            rationale,
            *electorate,
        ),
{
    let at = match state.locate(proposal_id) {
        Some(at) => at,
        None => { return Err(ContractError::NoSuchProposal { id: proposal_id }); },
    };
    let power = electorate.power_of(&voter_address);
    let (_, status) = match state.proposals[at].check_vote(
        block,
        proposal_id,
        &voter_address,
        power,
        vote,
    ) {
        Ok(pair) => pair,
        Err(e) => { return Err(e); },
    };
    let from = state.proposals[at].proposal.status;
    let mut messages = proposal_status_changed_hooks(&state.proposal_hooks, proposal_id, from, status);
    let mut told = new_vote_hooks(&state.vote_hooks, proposal_id, &voter_address, vote);
    messages.append(&mut told);
    let record = &mut state.proposals[at];
    let voted = record.vote(block, proposal_id, voter_address, power, vote, rationale);
    assert(state.polls() =~= old(state).polls().update(
        proposal_id - 1,
        old(state).poll(proposal_id).spec_vote(
            *block,
            proposal_id,
            voter_address,
            power,
            vote,
            rationale,
        )->Ok_0,
    ));
    Ok(VoteResponse { messages, status })
}

/// Replaces the rationale of the ballot that `sender` has cast on the
/// proposal `proposal_id`. A caller reaches their own ballot only.
pub fn execute_update_rationale(state: &mut State, sender: &String, proposal_id: u64, rationale: Option<String>) -> (r:
    Result<(), ContractError>)
    requires
        old(state).wf(),
    ensures
        final(state).wf(),
        rationale_updated(r, *old(state), *final(state), *sender, proposal_id, rationale),
{
    let at = match state.locate(proposal_id) {
        Some(at) => at,
        None => {
            return Err(ContractError::NoSuchVote { id: proposal_id, voter: sender.clone() });
        },
    };
    if state.proposals[at].ballots.find(sender).is_none() {
        return Err(ContractError::NoSuchVote { id: proposal_id, voter: sender.clone() });
    }
    let record = &mut state.proposals[at];
    let amended = record.ballots.amend_rationale(proposal_id, sender, rationale);
    proof {
        let before = old(state).poll(proposal_id).entries;
        let after = state.poll(proposal_id).entries;
        assert(state.polls() =~= old(state).polls().update(
            proposal_id - 1,
            Poll { proposal: old(state).poll(proposal_id).proposal, entries: after },
        ));
        lemma_slot_is_unique(after, sender@, slot_of(before, sender@));
    }
    Ok(())
}

/// What a completion notice brought about.
#[derive(Debug, PartialEq, Eq)]
pub enum ReplyOutcome {
    /// The proposal was marked as failed in execution.
    ProposalExecutionFailed { proposal_id: u64 },
    /// The proposal hook subscriber `addr` at place `index` was dropped.
    RemovedProposalHook { addr: String, index: u64 },
    /// The vote hook subscriber `addr` at place `index` was dropped.
    RemovedVoteHook { addr: String, index: u64 },
    /// From now on only the module `addr` may create proposals.
    PreProposeModuleSet { addr: String },
    /// The module `addr` failed on a hook; from now on anyone may propose.
    PreProposeModuleDropped { addr: String },
}

/// What [`reply`] does.
pub open spec fn replied(
    r: Result<ReplyOutcome, ContractError>,
    before: State,
    after: State,
    id: u64,
    instantiated: Option<String>,
) -> bool {
    match TaggedReplyId::spec_new(id) {
        Err(e) => r == Err::<ReplyOutcome, ContractError>(e) && after == before,
        Ok(TaggedReplyId::FailedProposalExecution(proposal_id)) => if !before.has_proposal(
            proposal_id,
        ) {
            r == Err::<ReplyOutcome, ContractError>(
                ContractError::NoSuchProposal { id: proposal_id },
            ) && after == before
        } else if before.poll(proposal_id).proposal.status != Status::Executed {
            r == Err::<ReplyOutcome, ContractError>(ContractError::InvalidReplyId { id })
                && after == before
        } else {
            &&& r == Ok::<ReplyOutcome, ContractError>(
                ReplyOutcome::ProposalExecutionFailed { proposal_id },
            )
            &&& after.replaces_poll(
                before,
                proposal_id,
                before.poll(proposal_id).with_status(Status::ExecutionFailed),
            )
        },
        Ok(TaggedReplyId::FailedProposalHook(index)) => if index
            < before.proposal_hooks.subscribers@.len() {
            &&& r == Ok::<ReplyOutcome, ContractError>(
                ReplyOutcome::RemovedProposalHook {
                    addr: before.proposal_hooks.subscribers@[index as int],
                    index,
                },
            )
            &&& after.proposal_hooks.subscribers@ == before.proposal_hooks.subscribers@.remove(
                index as int,
            )
            &&& proposal_hooks_only(before, after)
        } else {
            r == Err::<ReplyOutcome, ContractError>(
                ContractError::Hook(HookError::HookNotRegistered),
            ) && after == before
        },
        Ok(TaggedReplyId::FailedVoteHook(index)) => if index < before.vote_hooks.subscribers@.len() {
            &&& r == Ok::<ReplyOutcome, ContractError>(
                ReplyOutcome::RemovedVoteHook {
                    addr: before.vote_hooks.subscribers@[index as int],
                    index,
                },
            )
            &&& after.vote_hooks.subscribers@ == before.vote_hooks.subscribers@.remove(
                index as int,
            )
            &&& vote_hooks_only(before, after)
        } else {
            r == Err::<ReplyOutcome, ContractError>(
                ContractError::Hook(HookError::HookNotRegistered),
            ) && after == before
        },
        Ok(TaggedReplyId::PreProposeModuleInstantiation) => match instantiated {
            Some(addr) => {
                &&& r == Ok::<ReplyOutcome, ContractError>(ReplyOutcome::PreProposeModuleSet { addr })
                &&& after.creation_policy == (ProposalCreationPolicy::Module { addr })
                &&& policy_only(before, after)
            },
            None => r == Err::<ReplyOutcome, ContractError>(ContractError::ReplyDataMissing)
                && after == before,
        },
        Ok(TaggedReplyId::FailedPreProposeModuleHook) => match before.creation_policy {
            ProposalCreationPolicy::Module { addr } => {
                &&& r == Ok::<ReplyOutcome, ContractError>(
                    ReplyOutcome::PreProposeModuleDropped { addr },
                )
                &&& after.creation_policy == ProposalCreationPolicy::Anyone
                &&& policy_only(before, after)
            },
            ProposalCreationPolicy::Anyone => r == Err::<ReplyOutcome, ContractError>(
                ContractError::InvalidReplyId { id: FAILED_PRE_PROPOSE_MODULE_HOOK_ID },
            ) && after == before,
        },
    }
}

/// Whether `after` differs from `before` at most in the creation policy.
pub open spec fn policy_only(before: State, after: State) -> bool {
    &&& after.config == before.config
    &&& after.proposals == before.proposals
    &&& after.proposal_hooks == before.proposal_hooks
    &&& after.vote_hooks == before.vote_hooks
}

/// Takes a completion notice with the tag `id`.
///
/// A failed payload marks its proposal, which must be executed, as failed in
/// execution; votes and ballots stay. A notice for a proposal in any other
/// state is refused and changes nothing. A failed hook message drops the subscriber at the place that
/// the tag names. The notice that the module that creates proposals has been
/// instantiated carries its address in `instantiated` and makes it the only
/// one that may propose; a failed hook message to that module opens proposing
/// to anyone again.
pub fn reply(state: &mut State, id: u64, instantiated: Option<String>) -> (r: Result<
    ReplyOutcome,
    ContractError,
>)
    requires
        old(state).wf(),
    ensures
        final(state).wf(),
        replied(r, *old(state), *final(state), id, instantiated),
{
    let tag = match TaggedReplyId::new(id) {
        Ok(tag) => tag,
        Err(e) => { return Err(e); },
    };
    match tag {
        TaggedReplyId::FailedProposalExecution(proposal_id) => {
            let at = match state.locate(proposal_id) {
                Some(at) => at,
                None => { return Err(ContractError::NoSuchProposal { id: proposal_id }); },
            };
            match state.proposals[at].proposal.status {
                Status::Executed => {},
                _ => { return Err(ContractError::InvalidReplyId { id }); },
            }
            let record = &mut state.proposals[at];
            record.proposal.mark_execution_failed();
            assert(state.polls() =~= old(state).polls().update(
                proposal_id - 1,
                old(state).poll(proposal_id).with_status(Status::ExecutionFailed),
            ));
            Ok(ReplyOutcome::ProposalExecutionFailed { proposal_id })
        },
        TaggedReplyId::FailedProposalHook(index) => {
            match state.proposal_hooks.remove_hook_by_index(index) {
                Ok(addr) => Ok(ReplyOutcome::RemovedProposalHook { addr, index }),
                Err(e) => Err(ContractError::Hook(e)),
            }
        },
        TaggedReplyId::FailedVoteHook(index) => {
            match state.vote_hooks.remove_hook_by_index(index) {
                Ok(addr) => Ok(ReplyOutcome::RemovedVoteHook { addr, index }),
                Err(e) => Err(ContractError::Hook(e)),
            }
        },
        TaggedReplyId::PreProposeModuleInstantiation => {
            match instantiated {
                Some(addr) => {
                    state.creation_policy = ProposalCreationPolicy::Module { addr: addr.clone() };
                    Ok(ReplyOutcome::PreProposeModuleSet { addr })
                },
                None => Err(ContractError::ReplyDataMissing),
            }
        },
        TaggedReplyId::FailedPreProposeModuleHook => {
            let addr = match &state.creation_policy {
                ProposalCreationPolicy::Anyone => {
                    return Err(
                        ContractError::InvalidReplyId { id: FAILED_PRE_PROPOSE_MODULE_HOOK_ID },
                    );
                },
                ProposalCreationPolicy::Module { addr } => addr.clone(),
            };
            state.creation_policy = ProposalCreationPolicy::Anyone;
            Ok(ReplyOutcome::PreProposeModuleDropped { addr })
        },
    }
}

/// A payload that fails does not undo its proposal: once a passed proposal
/// has been executed and the notice of failure under its tag has been taken,
/// the proposal is marked as failed in execution, and its tally and every
/// ballot on it are what they were before the execution.
pub proof fn lemma_failed_payload_keeps_history(
    before: State,
    executed: State,
    after: State,
    block: BlockInfo,
    sender: Seq<char>,
    id: u64,
    electorate: Electorate,
    done: Result<Response, ContractError>,
    noticed: Result<ReplyOutcome, ContractError>,
)
    requires
        id <= MAX_TAGGED_VALUE,
        done is Ok,
        proposal_executed(done, before, executed, block, sender, id, electorate),
        replied(noticed, executed, after, spec_mask(FAILED_PROPOSAL_EXECUTION_MASK, id), None),
    ensures
        noticed == Ok::<ReplyOutcome, ContractError>(
            ReplyOutcome::ProposalExecutionFailed { proposal_id: id },
        ),
        after.has_proposal(id),
        after.poll(id).proposal.status == Status::ExecutionFailed,
        after.poll(id).proposal.votes == before.poll(id).proposal.votes,
        after.poll(id).entries == before.poll(id).entries,
        forall|voter: Seq<char>| after.ballot_of(id, voter) == before.ballot_of(id, voter),
{
    lemma_tags_round_trip(id);
    assert(executed.polls().len() == before.polls().len());
    assert(executed.polls()[id - 1] == executed.poll(id));
    assert(after.polls().len() == executed.polls().len());
    assert(after.polls()[id - 1] == after.poll(id));
}

} // verus!
