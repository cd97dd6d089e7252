//! The two entry points that take a message and hand it to the command or
//! the query that it names.

use vstd::prelude::*;
use crate::admin::{
    config_updated,
    execute_add_proposal_hook,
    execute_add_vote_hook,
    execute_remove_proposal_hook,
    execute_remove_vote_hook,
    execute_update_config,
    execute_update_proposal_creation_policy,
    hook_added,
    hook_removed,
    is_owner,
    policy_updated,
    proposal_hooks_only,
    vote_hooks_only,
};
use crate::contract::{
    closed,
    replied,
    ReplyOutcome,
    execute_close,
    execute_update_rationale,
    execute_veto,
    proposal_execute,
    proposal_executed,
    proposal_vote,
    rationale_updated,
    vetoed,
    voted,
    Response,
    VoteResponse,
};
use crate::ballot::{slot_of, Ballot, BallotEntry};
use crate::electorate::Electorate;
use crate::error::ContractError;
use crate::instant::VoteSignature;
use crate::msg::{PreProposeInfo, ProposalCreationPolicy};
use crate::poll::Poll;
use crate::proposal::SingleChoiceProposal;
use crate::propose::{execute_propose, proposed_with_signatures, ProposeResponse};
use crate::reply::TaggedReplyId;
use crate::query::{
    ascending_ids,
    cursor_of,
    descending_ids,
    listed_votes,
    lists,
    query_config,
    query_creation_policy,
    query_dao,
    query_list_proposals,
    query_list_votes,
    query_next_proposal_id,
    query_proposal,
    query_proposal_count,
    query_proposal_hooks,
    query_reverse_proposals,
    query_vote,
    query_vote_hooks,
    shows,
    spec_limit,
    ProposalResponse,
    VoteInfo,
};
use crate::state::{Config, State};
use crate::status::Status;
use crate::threshold::Threshold;
use crate::time::{BlockInfo, Duration};
use crate::veto::VetoConfig;
use crate::votes::Vote;

verus! {

/// What creating a proposal takes.
#[derive(Debug, PartialEq, Eq)]
pub struct ProposeMsg {
    pub title: String,
    pub description: String,
    /// The messages to run once the proposal has passed, each in its
    /// canonical encoding; one at most.
    pub msgs: Vec<String>,
    /// The proposer, where a module creates the proposal for someone.
    pub proposer: Option<String>,
    /// The votes that were signed off chain.
    pub vote_signatures: Vec<VoteSignature>,
}

/// A command.
#[derive(Debug, PartialEq, Eq)]
pub enum ExecuteMsg {
    Propose(ProposeMsg),
    Vote { proposal_id: u64, vote: Vote, rationale: Option<String> },
    UpdateRationale { proposal_id: u64, rationale: Option<String> },
    Execute { proposal_id: u64 },
    Veto { proposal_id: u64 },
    Close { proposal_id: u64 },
    UpdateConfig {
        threshold: Threshold,
        max_voting_period: Duration,
        min_voting_period: Option<Duration>,
        only_members_execute: bool,
        allow_revoting: bool,
        dao: String,
        close_proposal_on_execution_failure: bool,
        veto: Option<VetoConfig>,
    },
    UpdatePreProposeInfo { info: PreProposeInfo },
    AddProposalHook { address: String },
    RemoveProposalHook { address: String },
    AddVoteHook { address: String },
    RemoveVoteHook { address: String },
}

/// What a command hands back.
#[derive(Debug, PartialEq, Eq)]
pub enum ExecuteResponse {
    Proposed(ProposeResponse),
    Voted(VoteResponse),
    Dispatched(Response),
    Done,
}

/// A query.
#[allow(inconsistent_fields)]
#[derive(Debug, PartialEq, Eq)]
pub enum QueryMsg {
    Config,
    Dao,
    Proposal { proposal_id: u64 },
    ListProposals { start_after: Option<u64>, limit: Option<u64> },
    ReverseProposals { start_before: Option<u64>, limit: Option<u64> },
    ProposalCount,
    NextProposalId,
    GetVote { proposal_id: u64, voter: String },
    ListVotes { proposal_id: u64, start_after: Option<String>, limit: Option<u64> },
    ProposalCreationPolicy,
    ProposalHooks,
    VoteHooks,
}

/// The answer to a query.
#[derive(Debug, PartialEq, Eq)]
pub enum QueryResponse {
    Config(Config),
    Dao(String),
    Proposal(ProposalResponse),
    Proposals(Vec<ProposalResponse>),
    ProposalCount(u64),
    NextProposalId(Option<u64>),
    Vote(Option<VoteInfo>),
    Votes(Vec<VoteInfo>),
    CreationPolicy(ProposalCreationPolicy),
    Hooks(Vec<String>),
}

/// The part of `r` that a command with messages hands back.
pub open spec fn as_dispatched(r: Result<ExecuteResponse, ContractError>) -> Option<
    Result<Response, ContractError>,
> {
    match r {
        Ok(ExecuteResponse::Dispatched(response)) => Some(Ok(response)),
        Err(e) => Some(Err(e)),
        _ => None,
    }
}

/// The part of `r` that a command without messages hands back.
pub open spec fn as_done(r: Result<ExecuteResponse, ContractError>) -> Option<
    Result<(), ContractError>,
> {
    match r {
        Ok(ExecuteResponse::Done) => Some(Ok(())),
        Err(e) => Some(Err(e)),
        _ => None,
    }
}

/// What a change to a list of hook subscribers by `sender` does.
pub open spec fn owner_changed_hooks(
    r: Result<(), ContractError>,
    before: State,
    after: State,
    sender: Seq<char>,
    changed: bool,
) -> bool {
    if is_owner(before, sender) {
        changed
    } else {
        r == Err::<(), ContractError>(ContractError::Unauthorized) && after == before
    }
}

/// What [`execute`] does: what the command that `msg` names does.
pub open spec fn executed(
    r: Result<ExecuteResponse, ContractError>,
    before: State,
    after: State,
    block: BlockInfo,
    sender: String,
    msg: ExecuteMsg,
    electorate: Electorate,
) -> bool {
    match msg {
        ExecuteMsg::Propose(propose) => match r {
            Ok(ExecuteResponse::Proposed(response)) => proposed_with_signatures(
                Ok(response),
                before,
                after,
                block,
                sender,
                propose.title,
                propose.description,
                propose.msgs,
                propose.proposer,
                propose.vote_signatures@,
                electorate,
            ),
            Err(e) => proposed_with_signatures(
                Err(e),
                before,
                after,
                block,
                sender,
                propose.title,
                propose.description,
                propose.msgs,
                propose.proposer,
                propose.vote_signatures@,
                electorate,
            ),
            _ => false,
        },
        ExecuteMsg::Vote { proposal_id, vote, rationale } => match r {
            Ok(ExecuteResponse::Voted(response)) => voted(
                Ok(response),
                before,
                after,
                block,
                proposal_id,
                sender,
                vote,
                rationale,
                electorate,
            ),
            Err(e) => voted(
                Err(e),
                before,
                after,
                block,
                proposal_id,
                sender,
                vote,
                rationale,
                electorate,
            ),
            _ => false,
        },
        ExecuteMsg::UpdateRationale { proposal_id, rationale } => as_done(r) matches Some(done)
            && rationale_updated(done, before, after, sender, proposal_id, rationale),
        ExecuteMsg::Execute { proposal_id } => as_dispatched(r) matches Some(done)
            && proposal_executed(done, before, after, block, sender@, proposal_id, electorate),
        ExecuteMsg::Veto { proposal_id } => as_dispatched(r) matches Some(done) && vetoed(
            done,
            before,
            after,
            block,
            sender@,
            proposal_id,
        ),
        ExecuteMsg::Close { proposal_id } => as_dispatched(r) matches Some(done) && closed(
            done,
            before,
            after,
            block,
            proposal_id,
        ),
        ExecuteMsg::UpdateConfig {
            threshold,
            max_voting_period,
            min_voting_period,
            only_members_execute,
            allow_revoting,
            dao,
            close_proposal_on_execution_failure,
            veto,
        } => as_done(r) matches Some(done) && config_updated(
            done,
            before,
            after,
            sender@,
            Config {
                threshold,
                max_voting_period,
                min_voting_period,
                only_members_execute,
                allow_revoting,
                dao,
                close_proposal_on_execution_failure,
                veto,
            },
        ),
        ExecuteMsg::UpdatePreProposeInfo { info } => match r {
            Ok(ExecuteResponse::Dispatched(response)) => policy_updated(
                Ok(response.messages),
                before,
                after,
                sender@,
                info,
            ),
            Err(e) => policy_updated(Err(e), before, after, sender@, info),
            _ => false,
        },
        ExecuteMsg::AddProposalHook { address } => as_done(r) matches Some(done)
            && owner_changed_hooks(
            done,
            before,
            after,
            sender@,
            hook_added(done, before.proposal_hooks, after.proposal_hooks, address)
                && proposal_hooks_only(before, after),
        ),
        ExecuteMsg::RemoveProposalHook { address } => as_done(r) matches Some(done)
            && owner_changed_hooks(
            done,
            before,
            after,
            sender@,
            hook_removed(done, before.proposal_hooks, after.proposal_hooks, address@)
                && proposal_hooks_only(before, after),
        ),
        ExecuteMsg::AddVoteHook { address } => as_done(r) matches Some(done)
            && owner_changed_hooks(
            done,
            before,
            after,
            sender@,
            hook_added(done, before.vote_hooks, after.vote_hooks, address) && vote_hooks_only(
                before,
                after,
            ),
        ),
        ExecuteMsg::RemoveVoteHook { address } => as_done(r) matches Some(done)
            && owner_changed_hooks(
            done,
            before,
            after,
            sender@,
            hook_removed(done, before.vote_hooks, after.vote_hooks, address@) && vote_hooks_only(
                before,
                after,
            ),
        ),
    }
}

/// What [`query`] returns: the answer of the query that `msg` names.
pub open spec fn answered(
    r: Result<QueryResponse, ContractError>,
    state: State,
    block: BlockInfo,
    msg: QueryMsg,
) -> bool {
    match msg {
        QueryMsg::Config => r matches Ok(QueryResponse::Config(c)) && c == state.config,
        QueryMsg::Dao => r matches Ok(QueryResponse::Dao(d)) && d == state.config.dao,
        QueryMsg::Proposal { proposal_id } => match r {
            Ok(QueryResponse::Proposal(response)) => shows(
                Ok(response),
                state,
                block,
                proposal_id,
            ),
            Err(e) => shows(Err(e), state, block, proposal_id),
            _ => false,
        },
        QueryMsg::ListProposals { start_after, limit } => match r {
            Ok(QueryResponse::Proposals(list)) => lists(
                Ok(list),
                state,
                block,
                ascending_ids(state.proposals@.len(), start_after, spec_limit(limit)),
            ),
            Err(e) => lists(
                Err(e),
                state,
                block,
                ascending_ids(state.proposals@.len(), start_after, spec_limit(limit)),
            ),
            _ => false,
        },
        QueryMsg::ReverseProposals { start_before, limit } => match r {
            Ok(QueryResponse::Proposals(list)) => lists(
                Ok(list),
                state,
                block,
                descending_ids(state.proposals@.len(), start_before, spec_limit(limit)),
            ),
            Err(e) => lists(
                Err(e),
                state,
                block,
                descending_ids(state.proposals@.len(), start_before, spec_limit(limit)),
            ),
            _ => false,
        },
        QueryMsg::ProposalCount => r == Ok::<QueryResponse, ContractError>(
            QueryResponse::ProposalCount(state.proposals@.len() as u64),
        ),
        QueryMsg::NextProposalId => r == Ok::<QueryResponse, ContractError>(
            QueryResponse::NextProposalId(
                if state.proposals@.len() < u64::MAX {
                    Some((state.proposals@.len() + 1) as u64)
                } else {
                    None
                },
            ),
        ),
        QueryMsg::GetVote { proposal_id, voter } => r matches Ok(QueryResponse::Vote(found))
            && match state.ballot_of(proposal_id, voter@) {
            Some(ballot) => found matches Some(info) && info.voter@ == voter@ && info.vote
                == ballot.vote && info.power == ballot.power && info.rationale == ballot.rationale,
            None => found is None,
        },
        QueryMsg::ListVotes { proposal_id, start_after, limit } => r matches Ok(
            QueryResponse::Votes(list),
        ) && list@ == if state.has_proposal(proposal_id) {
            listed_votes(
                state.poll(proposal_id).entries,
                cursor_of(start_after),
                spec_limit(limit) as nat,
            )
        } else {
            Seq::<VoteInfo>::empty()
        },
        QueryMsg::ProposalCreationPolicy => r matches Ok(QueryResponse::CreationPolicy(p)) && p
            == state.creation_policy,
        QueryMsg::ProposalHooks => r matches Ok(QueryResponse::Hooks(h)) && h@
            == state.proposal_hooks.subscribers@,
        QueryMsg::VoteHooks => r matches Ok(QueryResponse::Hooks(h)) && h@
            == state.vote_hooks.subscribers@,
    }
}

/// Runs the command that `msg` names for `sender` in `block`. A vote is cast
/// for the sender. `electorate` holds the voting power as of the height at
/// which the proposal in question was, or is being, created.
pub fn execute(state: &mut State, block: &BlockInfo, sender: &String, msg: ExecuteMsg, electorate: &Electorate) -> (r:
    Result<ExecuteResponse, ContractError>)
    requires
        old(state).wf(),
    ensures
        final(state).wf(),
        executed(r, *old(state), *final(state), *block, *sender, msg, *electorate),
{
    match msg {
        ExecuteMsg::Propose(propose) => {
            match execute_propose(
                state,
                block,
                sender,
                propose.title,
                propose.description,
                propose.msgs,
                propose.proposer,
                &propose.vote_signatures,
                electorate,
            ) {
                Ok(response) => Ok(ExecuteResponse::Proposed(response)),
                Err(e) => Err(e),
            }
        },
        ExecuteMsg::Vote { proposal_id, vote, rationale } => {
            match proposal_vote(
                state,
                block,
                proposal_id,
                sender.clone(),
                vote,
                rationale,
                electorate,
            ) {
                Ok(response) => Ok(ExecuteResponse::Voted(response)),
                Err(e) => Err(e),
            }
        },
        ExecuteMsg::UpdateRationale { proposal_id, rationale } => {
            match execute_update_rationale(state, sender, proposal_id, rationale) {
                Ok(_) => Ok(ExecuteResponse::Done),
                Err(e) => Err(e),
            }
        },
        ExecuteMsg::Execute { proposal_id } => {
            match proposal_execute(state, block, sender, proposal_id, electorate) {
                Ok(response) => Ok(ExecuteResponse::Dispatched(response)),
                Err(e) => Err(e),
            }
        },
        ExecuteMsg::Veto { proposal_id } => {
            match execute_veto(state, block, sender, proposal_id) {
                Ok(response) => Ok(ExecuteResponse::Dispatched(response)),
                Err(e) => Err(e),
            }
        },
        ExecuteMsg::Close { proposal_id } => {
            match execute_close(state, block, proposal_id) {
                Ok(response) => Ok(ExecuteResponse::Dispatched(response)),
                Err(e) => Err(e),
            }
        },
        ExecuteMsg::UpdateConfig {
            threshold,
            max_voting_period,
            min_voting_period,
            only_members_execute,
            allow_revoting,
            dao,
            close_proposal_on_execution_failure,
            veto,
        } => {
            let config = Config {
                threshold,
                max_voting_period,
                min_voting_period,
                only_members_execute,
                allow_revoting,
                dao,
                close_proposal_on_execution_failure,
                veto,
            };
            match execute_update_config(state, sender, config) {
                Ok(_) => Ok(ExecuteResponse::Done),
                Err(e) => Err(e),
            }
        },
        ExecuteMsg::UpdatePreProposeInfo { info } => {
            match execute_update_proposal_creation_policy(state, sender, info) {
                Ok(messages) => Ok(ExecuteResponse::Dispatched(Response { messages })),
                Err(e) => Err(e),
            }
        },
        ExecuteMsg::AddProposalHook { address } => {
            match execute_add_proposal_hook(state, sender, address) {
                Ok(_) => Ok(ExecuteResponse::Done),
                Err(e) => Err(e),
            }
        },
        ExecuteMsg::RemoveProposalHook { address } => {
            match execute_remove_proposal_hook(state, sender, &address) {
                Ok(_) => Ok(ExecuteResponse::Done),
                Err(e) => Err(e),
            }
        },
        ExecuteMsg::AddVoteHook { address } => {
            match execute_add_vote_hook(state, sender, address) {
                Ok(_) => Ok(ExecuteResponse::Done),
                Err(e) => Err(e),
            }
        },
        ExecuteMsg::RemoveVoteHook { address } => {
            match execute_remove_vote_hook(state, sender, &address) {
                Ok(_) => Ok(ExecuteResponse::Done),
                Err(e) => Err(e),
            }
        },
    }
}

/// Answers the query that `msg` names as of `block`.
pub fn query(state: &State, block: &BlockInfo, msg: QueryMsg) -> (r: Result<
    QueryResponse,
    ContractError,
>)
    requires
        state.wf(),
    ensures
        answered(r, *state, *block, msg),
{
    match msg {
        QueryMsg::Config => Ok(QueryResponse::Config(query_config(state))),
        QueryMsg::Dao => Ok(QueryResponse::Dao(query_dao(state))),
        QueryMsg::Proposal { proposal_id } => match query_proposal(state, block, proposal_id) {
            Ok(response) => Ok(QueryResponse::Proposal(response)),
            Err(e) => Err(e),
        },
        QueryMsg::ListProposals { start_after, limit } => match query_list_proposals(
            state,
            block,
            start_after,
            limit,
        ) {
            Ok(list) => Ok(QueryResponse::Proposals(list)),
            Err(e) => Err(e),
        },
        QueryMsg::ReverseProposals { start_before, limit } => match query_reverse_proposals(
            state,
            block,
            start_before,
            limit,
        ) {
            Ok(list) => Ok(QueryResponse::Proposals(list)),
            Err(e) => Err(e),
        },
        QueryMsg::ProposalCount => Ok(QueryResponse::ProposalCount(query_proposal_count(state))),
        QueryMsg::NextProposalId => Ok(
            QueryResponse::NextProposalId(query_next_proposal_id(state)),
        ),
        QueryMsg::GetVote { proposal_id, voter } => Ok(
            QueryResponse::Vote(query_vote(state, proposal_id, &voter)),
        ),
        QueryMsg::ListVotes { proposal_id, start_after, limit } => Ok(
            QueryResponse::Votes(query_list_votes(state, proposal_id, start_after, limit)),
        ),
        QueryMsg::ProposalCreationPolicy => Ok(
            QueryResponse::CreationPolicy(query_creation_policy(state)),
        ),
        QueryMsg::ProposalHooks => Ok(QueryResponse::Hooks(query_proposal_hooks(state))),
        QueryMsg::VoteHooks => Ok(QueryResponse::Hooks(query_vote_hooks(state))),
    }
}

/// Whether two proposals agree in everything that is fixed at creation: all
/// but the status and the tally.
pub open spec fn same_snapshot(a: SingleChoiceProposal, b: SingleChoiceProposal) -> bool {
    a.with_status(b.status).with_votes(b.votes) == b
}

/// Replacing one proposal by one with the same snapshot keeps the snapshot of
/// every proposal.
proof fn lemma_replaced_poll_keeps_snapshots(before: State, after: State, replaced: u64, poll: Poll, id: u64)
    requires
        after.replaces_poll(before, replaced, poll),
        before.has_proposal(replaced),
        before.has_proposal(id),
        same_snapshot(before.poll(replaced).proposal, poll.proposal),
    ensures
        after.has_proposal(id),
        same_snapshot(before.poll(id).proposal, after.poll(id).proposal),
{
    assert(before.polls()[id - 1] == before.poll(id));
    assert(before.polls()[replaced - 1] == before.poll(replaced));
    assert(after.polls().len() == before.polls().len());
    assert(after.polls()[id - 1] == after.poll(id));
}

/// A state with the same proposals has the same snapshots.
proof fn lemma_same_proposals_keep_snapshots(before: State, after: State, id: u64)
    requires
        after.proposals == before.proposals,
        before.has_proposal(id),
    ensures
        after.has_proposal(id),
        same_snapshot(before.poll(id).proposal, after.poll(id).proposal),
{
}

/// No command deletes a proposal or changes what a proposal snapshotted at
/// its creation: title, description, proposer, start height, voting periods,
/// threshold, total power, payload, revoting flag and veto settings of every
/// proposal that exists stay what they are, whatever the command and whether
/// or not it is refused. A change of the configuration therefore affects
/// proposals of the future only.
pub proof fn lemma_commands_keep_snapshots(
    r: Result<ExecuteResponse, ContractError>,
    before: State,
    after: State,
    block: BlockInfo,
    sender: String,
    msg: ExecuteMsg,
    electorate: Electorate,
    id: u64,
)
    requires
        executed(r, before, after, block, sender, msg, electorate),
        before.has_proposal(id),
    ensures
        after.has_proposal(id),
        same_snapshot(before.poll(id).proposal, after.poll(id).proposal),
{
    match msg {
        ExecuteMsg::Propose(propose) => {
            // a new proposal goes behind those that exist
            if r is Ok {
                assert(after.polls().len() == before.polls().len() + 1);
                assert(before.polls()[id - 1] == before.poll(id));
                assert(after.polls()[id - 1] == after.poll(id));
            }
        },
        ExecuteMsg::Vote { proposal_id, vote, rationale } => {
            if r is Ok {
                let poll = before.poll(proposal_id).spec_vote(
                    block,
                    proposal_id,
                    sender,
                    electorate.spec_power_of(sender@),
                    vote,
                    rationale,
                )->Ok_0;
                lemma_replaced_poll_keeps_snapshots(before, after, proposal_id, poll, id);
            }
        },
        ExecuteMsg::UpdateRationale { proposal_id, rationale } => {
            if r is Ok {
                let entries = before.poll(proposal_id).entries;
                let at = slot_of(entries, sender@);
                let recorded = before.ballot_of(proposal_id, sender@)->Some_0;
                lemma_replaced_poll_keeps_snapshots(
                    before,
                    after,
                    proposal_id,
                    Poll {
                        proposal: before.poll(proposal_id).proposal,
                        entries: entries.update(
                            at,
                            BallotEntry {
                                voter: entries[at].voter,
                                ballot: Ballot {
                                    power: recorded.power,
                                    vote: recorded.vote,
                                    rationale,
                                },
                            },
                        ),
                    },
                    id,
                );
            }
        },
        ExecuteMsg::Execute { proposal_id } => {
            if r is Ok {
                lemma_replaced_poll_keeps_snapshots(
                    before,
                    after,
                    proposal_id,
                    before.poll(proposal_id).with_status(Status::Executed),
                    id,
                );
            }
        },
        ExecuteMsg::Veto { proposal_id } => {
            if r is Ok {
                lemma_replaced_poll_keeps_snapshots(
                    before,
                    after,
                    proposal_id,
                    before.poll(proposal_id).with_status(Status::Vetoed),
                    id,
                );
            }
        },
        ExecuteMsg::Close { proposal_id } => {
            if r is Ok {
                lemma_replaced_poll_keeps_snapshots(
                    before,
                    after,
                    proposal_id,
                    before.poll(proposal_id).with_status(Status::Closed),
                    id,
                );
            }
        },
        _ => {
            lemma_same_proposals_keep_snapshots(before, after, id);
        },
    }
}

/// No completion notice deletes a proposal or changes what a proposal
/// snapshotted at its creation.
pub proof fn lemma_notices_keep_snapshots(
    r: Result<ReplyOutcome, ContractError>,
    before: State,
    after: State,
    tag: u64,
    instantiated: Option<String>,
    id: u64,
)
    requires
        replied(r, before, after, tag, instantiated),
        before.has_proposal(id),
    ensures
        after.has_proposal(id),
        same_snapshot(before.poll(id).proposal, after.poll(id).proposal),
{
    match TaggedReplyId::spec_new(tag) {
        Ok(TaggedReplyId::FailedProposalExecution(proposal_id)) => {
            if r is Ok {
                lemma_replaced_poll_keeps_snapshots(
                    before,
                    after,
                    proposal_id,
                    before.poll(proposal_id).with_status(Status::ExecutionFailed),
                    id,
                );
            }
        },
        _ => {
            lemma_same_proposals_keep_snapshots(before, after, id);
        },
    }
}

} // verus!
