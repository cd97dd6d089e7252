//! Creating a proposal and resolving it in the same call.
//!
//! A proposal comes with a batch of signed votes. The call creates the
//! proposal, determines the majority hash of the batch, casts a ballot for
//! every signature that verifies from a signer with power, checks that the
//! payload is the message that the majority approved, and executes the
//! proposal. Nothing is kept unless every step succeeds.
//!
//! The hash of the payload is the SHA-256 digest of its canonical encoding. A
//! proposal without payload has no hash and cannot be resolved this way.

use vstd::prelude::*;
use vstd::string::*;
use vstd::utf8::encode_utf8;
use crate::ballot::{Ballot, BallotEntry};
use crate::contract::{plan_execute, spec_plan_execute, spec_vote_messages};
use crate::crypto::{compute_sha256_hash, sha256};
use crate::electorate::Electorate;
use crate::error::ContractError;
use crate::hooks::{
    new_proposal_hooks,
    new_vote_hooks,
    proposal_status_changed_hooks,
    spec_new_proposal_hooks,
};
use crate::instant::{
    examine_signatures,
    examined,
    majority_hash,
    same_bytes,
    spec_majority_hash,
    spec_synthesize,
    synthesize_ballot,
    SignedVote,
    VoteSignature,
};
use crate::msg::{ProposalCreationPolicy, SubMsg};
use crate::poll::{Poll, ProposalRecord};
use crate::proposal::SingleChoiceProposal;
use crate::state::State;
use crate::status::Status;
use crate::time::{BlockInfo, Expiration, TimeError};
use crate::votes::{Vote, Votes};

verus! {

/// What creating a proposal hands back.
#[derive(Debug, PartialEq, Eq)]
pub struct ProposeResponse {
    /// The id of the new proposal.
    pub proposal_id: u64,
    /// The status that the proposal had when it was created, before any
    /// ballot was cast.
    pub status: Status,
    /// The messages to dispatch, in order: what the votes brought about, what
    /// the execution brought about, and the notice of the new proposal.
    pub messages: Vec<SubMsg>,
}

/// What creating a proposal amounts to.
pub struct ProposeOutcome {
    /// The new proposal with its ballots, executed.
    pub poll: Poll,
    /// The status that the proposal had when it was created.
    pub status: Status,
    pub messages: Seq<SubMsg>,
}

/// The address that a new proposal names as its proposer: the sender where
/// anyone may propose, and the address that the module names where only a
/// module may. A sender that names a proposer of its own accord, and a module
/// that names none, are refused.
pub open spec fn spec_proposer(policy: ProposalCreationPolicy, sender: String, proposer: Option<String>) -> Result<
    String,
    ContractError,
> {
    match (proposer, policy) {
        (None, ProposalCreationPolicy::Anyone) => Ok(sender),
        (Some(named), ProposalCreationPolicy::Module { .. }) => Ok(named),
        _ => Err(ContractError::InvalidProposer),
    }
}

/// The end of the minimum voting period of a proposal created in `block`.
pub open spec fn spec_min_expiration(state: State, block: BlockInfo) -> Result<
    Option<Expiration>,
    ContractError,
> {
    match state.config.min_voting_period {
        None => Ok(None),
        Some(min) => match min.spec_after(block) {
            Some(until) => Ok(Some(until)),
            None => Err(ContractError::Time(TimeError::Overflow)),
        },
    }
}

/// The proposal that the command creates, before any ballot is cast; or the
/// refusal.
pub open spec fn spec_new_proposal(
    state: State,
    block: BlockInfo,
    sender: String,
    title: String,
    description: String,
    msgs: Vec<String>,
    proposer: Option<String>,
    electorate: Electorate,
) -> Result<SingleChoiceProposal, ContractError> {
    if !state.creation_policy.spec_is_permitted(sender@) {
        Err(ContractError::Unauthorized)
    } else if msgs@.len() > 1 {
        Err(ContractError::TooManyMsgs)
    } else {
        match spec_proposer(state.creation_policy, sender, proposer) {
            Err(e) => Err(e),
            Ok(proposer) => if !electorate.active {
                Err(ContractError::InactiveDao)
            } else {
                match state.config.max_voting_period.spec_after(block) {
                    None => Err(ContractError::Time(TimeError::Overflow)),
                    Some(expiration) => match spec_min_expiration(state, block) {
                        Err(e) => Err(e),
                        Ok(min_voting_period) => {
                            let fresh = SingleChoiceProposal {
                                title,
                                description,
                                proposer,
                                start_height: block.height,
                                min_voting_period,
                                expiration,
                                threshold: state.config.threshold,
                                total_power: electorate.total_power,
                                msgs,
                                status: Status::Open,
                                votes: Votes { yes: 0, no: 0, abstain: 0 },
                                allow_revoting: state.config.allow_revoting,
                                veto: state.config.veto,
                            };
                            match fresh.spec_current_status(block) {
                                Err(e) => Err(ContractError::Time(e)),
                                Ok(status) => Ok(fresh.with_status(status)),
                            }
                        },
                    },
                }
            },
        }
    }
}

/// The poll after the votes have been cast in order, with the messages that
/// the ballots brought about; or the first refusal. A vote whose signature
/// does not verify, or whose signer has no power, is passed over.
pub open spec fn spec_cast_batch(
    state: State,
    poll: Poll,
    votes: Seq<SignedVote>,
    majority: Seq<u8>,
    block: BlockInfo,
    id: u64,
) -> Result<(Poll, Seq<SubMsg>), ContractError>
    decreases votes.len(),
{
    if votes.len() == 0 {
        Ok((poll, Seq::empty()))
    } else {
        match spec_cast_batch(state, poll, votes.drop_last(), majority, block, id) {
            Err(e) => Err(e),
            Ok((before, messages)) => match spec_synthesize(votes.last(), majority) {
                None => Ok((before, messages)),
                Some(choice) => match before.spec_vote(
                    block,
                    id,
                    votes.last().voter,
                    votes.last().power,
                    choice,
                    None,
                ) {
                    Err(e) => Err(e),
                    Ok(after) => Ok(
                        (
                            after,
                            messages + spec_vote_messages(
                                state,
                                id,
                                before.proposal.status,
                                after.proposal.status,
                                votes.last().voter,
                                choice,
                            ),
                        ),
                    ),
                },
            },
        }
    }
}

/// What [`propose_examined`] does: the outcome, or the refusal.
pub open spec fn spec_propose(
    state: State,
    block: BlockInfo,
    sender: String,
    title: String,
    description: String,
    msgs: Vec<String>,
    proposer: Option<String>,
    votes: Seq<SignedVote>,
    payload_hash: Option<Seq<u8>>,
    electorate: Electorate,
) -> Result<ProposeOutcome, ContractError> {
    let id = (state.proposals@.len() + 1) as u64;
    match spec_new_proposal(state, block, sender, title, description, msgs, proposer, electorate) {
        Err(e) => Err(e),
        Ok(proposal) => if state.proposals@.len() >= u64::MAX {
            Err(ContractError::Overflow)
        } else {
            spec_resolve(state, block, sender@, id, proposal, votes, payload_hash, electorate)
        },
    }
}

/// What resolving the new proposal `id` amounts to: the majority hash is
/// determined, the ballots are cast, the payload is held against the majority
/// hash, and the proposal is executed.
pub open spec fn spec_resolve(
    state: State,
    block: BlockInfo,
    sender: Seq<char>,
    id: u64,
    proposal: SingleChoiceProposal,
    votes: Seq<SignedVote>,
    payload_hash: Option<Seq<u8>>,
    electorate: Electorate,
) -> Result<ProposeOutcome, ContractError> {
    {
        match spec_majority_hash(votes) {
            Err(e) => Err(e),
            Ok(majority) => match spec_cast_batch(
                state,
                Poll { proposal, entries: Seq::empty() },
                votes,
                majority,
                block,
                id,
            ) {
                Err(e) => Err(e),
                Ok((poll, cast_messages)) => if payload_hash != Some(majority) {
                    Err(ContractError::PayloadHashMismatch)
                } else {
                    match spec_plan_execute(
                        state,
                        poll.proposal,
                        block,
                        sender,
                        id,
                        electorate,
                    ) {
                        Err(e) => Err(e),
                        Ok(plan) => Ok(
                            ProposeOutcome {
                                poll: poll.with_status(Status::Executed),
                                status: proposal.status,
                                messages: cast_messages + plan.1 + spec_new_proposal_hooks(
                                    state.proposal_hooks.subscribers@,
                                    id,
                                    proposal.proposer,
                                ),
                            },
                        ),
                    }
                },
            },
        }
    }
}

/// Whether a call that turned `before` into `after` and returned `r` did
/// what `expected` says: a refusal leaves the state as it was; an accepted
/// proposal is appended with the next id.
pub open spec fn proposed(
    r: Result<ProposeResponse, ContractError>,
    before: State,
    after: State,
    expected: Result<ProposeOutcome, ContractError>,
) -> bool {
    match expected {
        Err(e) => r == Err::<ProposeResponse, ContractError>(e) && after == before,
        Ok(outcome) => {
            &&& r is Ok
            &&& r->Ok_0.proposal_id == before.proposals@.len() + 1
            &&& r->Ok_0.status == outcome.status
            &&& r->Ok_0.messages@ == outcome.messages
            &&& after.keeps_settings_of(before)
            &&& after.polls() == before.polls().push(outcome.poll)
        },
    }
}

/// The hash of a payload, where there is one.
pub open spec fn spec_payload_hash(msgs: Seq<String>) -> Option<Seq<u8>> {
    if msgs.len() == 1 {
        Some(sha256(encode_utf8(msgs[0]@)))
    } else {
        None
    }
}

/// What [`execute_propose`] does: what [`propose_examined`] does with the
/// results of examining the signatures and with the hash of the payload.
pub open spec fn proposed_with_signatures(
    r: Result<ProposeResponse, ContractError>,
    before: State,
    after: State,
    block: BlockInfo,
    sender: String,
    title: String,
    description: String,
    msgs: Vec<String>,
    proposer: Option<String>,
    vote_signatures: Seq<VoteSignature>,
    electorate: Electorate,
) -> bool {
    exists|votes: Seq<SignedVote>|
        {
            &&& votes.len() == vote_signatures.len()
            &&& forall|i: int|
                0 <= i < votes.len() ==> examined(#[trigger] vote_signatures[i], electorate, votes[i])
            &&& proposed(
                r,
                before,
                after,
                spec_propose(
                    before,
                    block,
                    sender,
                    title,
                    description,
                    msgs,
                    proposer,
                    votes,
                    spec_payload_hash(msgs@),
                    electorate,
                ),
            )
        }
}

/// A refusal among the first votes of a batch is the refusal of the batch.
pub proof fn lemma_batch_stops_at_first_refusal(
    state: State,
    poll: Poll,
    votes: Seq<SignedVote>,
    n: int,
    majority: Seq<u8>,
    block: BlockInfo,
    id: u64,
)
    requires
        0 <= n <= votes.len(),
        spec_cast_batch(state, poll, votes.take(n), majority, block, id) is Err,
    ensures
        spec_cast_batch(state, poll, votes, majority, block, id) == spec_cast_batch(
            state,
            poll,
            votes.take(n),
            majority,
            block,
            id,
        ),
    decreases votes.len(),
{
    if n == votes.len() {
        assert(votes.take(n) =~= votes);
    } else {
        assert(votes.drop_last().take(n) =~= votes.take(n));
        lemma_batch_stops_at_first_refusal(state, poll, votes.drop_last(), n, majority, block, id);
    }
}

/// Creates the proposal that the command asks for, with its status as of
/// `block`, without keeping it.
pub fn new_proposal(
    state: &State,
    block: &BlockInfo,
    sender: &String,
    title: String,
    description: String,
    msgs: Vec<String>,
    proposer: Option<String>,
    electorate: &Electorate,
) -> (r: Result<SingleChoiceProposal, ContractError>)
    requires
        state.wf(),
    ensures
        r == spec_new_proposal(
            *state,
            *block,
            *sender,
            title,
            description,
            msgs,
            proposer,
            *electorate,
        ),
        r matches Ok(p) ==> p.wf() && p.votes == (Votes { yes: 0, no: 0, abstain: 0 }),
{
    if !state.creation_policy.is_permitted(sender) {
        return Err(ContractError::Unauthorized);
    }
    if msgs.len() > 1 {
        return Err(ContractError::TooManyMsgs);
    }
    let proposer = match (proposer, &state.creation_policy) {
        (None, ProposalCreationPolicy::Anyone) => sender.clone(),
        (Some(named), ProposalCreationPolicy::Module { .. }) => named,
        _ => { return Err(ContractError::InvalidProposer); },
    };
    if !electorate.active {
        return Err(ContractError::InactiveDao);
    }
    let expiration = match state.config.max_voting_period.after(block) {
        Some(expiration) => expiration,
        None => { return Err(ContractError::Time(TimeError::Overflow)); },
    };
    let min_voting_period = match &state.config.min_voting_period {
        None => None,
        Some(min) => match min.after(block) {
            Some(until) => Some(until),
            None => { return Err(ContractError::Time(TimeError::Overflow)); },
        },
    };
    let mut proposal = SingleChoiceProposal {
        title,
        description,
        proposer,
        start_height: block.height,
        min_voting_period,
        expiration,
        threshold: state.config.threshold,
        total_power: electorate.total_power,
        msgs,
        status: Status::Open,
        votes: Votes::zero(),
        allow_revoting: state.config.allow_revoting,
        veto: match &state.config.veto {
            Some(v) => Some(v.clone()),
            None => None,
        },
    };
    match proposal.update_status(block) {
        Ok(_) => Ok(proposal),
        Err(e) => Err(ContractError::Time(e)),
    }
}

/// Casts the ballots that the votes of a batch become, in order, on the new
/// proposal `id`, and prepares the messages that they bring about.
pub fn cast_batch(
    state: &State,
    record: &mut ProposalRecord,
    votes: &Vec<SignedVote>,
    majority: &Vec<u8>,
    block: &BlockInfo,
    id: u64,
) -> (r: Result<Vec<SubMsg>, ContractError>)
    requires
        old(record).wf(),
    ensures
        match spec_cast_batch(*state, old(record)@, votes@, majority@, *block, id) {
            Ok(done) => r is Ok && final(record)@ == done.0 && r->Ok_0@ == done.1,
            Err(e) => r == Err::<Vec<SubMsg>, ContractError>(e),
        },
        final(record).wf(),
{
    let mut messages: Vec<SubMsg> = Vec::new();
    let mut i: usize = 0;
    while i < votes.len()
        invariant
            i <= votes@.len(),
            record.wf(),
            spec_cast_batch(*state, old(record)@, votes@.take(i as int), majority@, *block, id)
                == Ok::<(Poll, Seq<SubMsg>), ContractError>((record@, messages@)),
        decreases votes@.len() - i,
    {
        proof {
            assert(votes@.take(i + 1).drop_last() =~= votes@.take(i as int));
        }
        match synthesize_ballot(&votes[i], majority) {
            None => {},
            Some(choice) => {
                let voter = votes[i].voter.clone();
                let ghost sent = messages@;
                match record.vote(block, id, voter, votes[i].power, choice, None) {
                    Ok((from, to)) => {
                        let mut changed = proposal_status_changed_hooks(
                            &state.proposal_hooks,
                            id,
                            from,
                            to,
                        );
                        let mut told = new_vote_hooks(&state.vote_hooks, id, &votes[i].voter, choice);
                        messages.append(&mut changed);
                        messages.append(&mut told);
                        assert(messages@ =~= sent + spec_vote_messages(
                            *state,
                            id,
                            from,
                            to,
                            votes@[i as int].voter,
                            choice,
                        ));
                    },
                    Err(e) => {
                        proof {
                            lemma_batch_stops_at_first_refusal(
                                *state,
                                old(record)@,
                                votes@,
                                i + 1,
                                majority@,
                                *block,
                                id,
                            );
                        }
                        return Err(e);
                    },
                }
            },
        }
        i += 1;
    }
    assert(votes@.take(i as int) =~= votes@);
    Ok(messages)
}

/// Creates a proposal from votes that have been examined, resolves it and
/// executes it.
///
/// `votes` holds what is known of each signature of the batch, in the order
/// of submission, and `payload_hash` the hash of the payload, if there is
/// one. The sender must be allowed to create proposals and may supply one
/// message at most; the organization must be active. The majority hash is the
/// hash with strictly the most voting power behind it. Every vote that
/// verified and has power becomes a ballot, yes for the majority hash and no
/// for any other, cast in order through the ledger. The payload's hash must
/// be the majority hash, and the proposal must then be executable by the
/// sender. The proposal is kept only if all of this succeeds.
pub fn propose_examined(
    state: &mut State,
    block: &BlockInfo,
    sender: &String,
    title: String,
    description: String,
    msgs: Vec<String>,
    proposer: Option<String>,
    votes: &Vec<SignedVote>,
    payload_hash: &Option<Vec<u8>>,
    electorate: &Electorate,
) -> (r: Result<ProposeResponse, ContractError>)
    requires
        old(state).wf(),
    ensures
        final(state).wf(),
        proposed(
            r,
            *old(state),
            *final(state),
            spec_propose(
                *old(state),
                *block,
                *sender,
                title,
                description,
                msgs,
                proposer,
                votes@,
                match *payload_hash {
                    Some(hash) => Some(hash@),
                    None => None,
                },
                *electorate,
            ),
        ),
{
    let proposal = match new_proposal(
        state,
        block,
        sender,
        title,
        description,
        msgs,
        proposer,
        electorate,
    ) {
        Ok(proposal) => proposal,
        Err(e) => { return Err(e); },
    };
    let id = match state.next_proposal_id() {
        Some(id) => id,
        None => { return Err(ContractError::Overflow); },
    };
    let created = proposal.status;
    let mut hooks = new_proposal_hooks(&state.proposal_hooks, id, &proposal.proposer);
    let majority = match majority_hash(votes) {
        Ok(majority) => majority,
        Err(e) => { return Err(e); },
    };
    let mut record = ProposalRecord::new(proposal);
    let mut messages = match cast_batch(state, &mut record, votes, &majority, block, id) {
        Ok(messages) => messages,
        Err(e) => { return Err(e); },
    };
    let approved = match payload_hash {
        Some(hash) => same_bytes(hash, &majority),
        None => false,
    };
    if !approved {
        return Err(ContractError::PayloadHashMismatch);
    }
    let (_, mut dispatched) = match plan_execute(
        state,
        &record.proposal,
        block,
        sender,
        id,
        electorate,
    ) {
        Ok(plan) => plan,
        Err(e) => { return Err(e); },
    };
    record.proposal.status = Status::Executed;
    messages.append(&mut dispatched);
    messages.append(&mut hooks);
    let ghost poll = record@;
    state.proposals.push(record);
    assert(state.polls() =~= old(state).polls().push(poll));
    Ok(ProposeResponse { proposal_id: id, status: created, messages })
}

/// Creates a proposal together with a batch of signed votes, resolves it and
/// executes it, all in one call.
///
/// The signer of each signature is derived from its public key, the signer's
/// power is looked up in `electorate`, and the signature is verified; the
/// payload is hashed with SHA-256. What follows is what
/// [`propose_examined`] does with these results.
///
/// The signatures are verified by the implementation that is linked with the
/// library. A caller whose host verifies signatures examines the batch
/// through its host and calls [`propose_examined`].
pub fn execute_propose(
    state: &mut State,
    block: &BlockInfo,
    sender: &String,
    title: String,
    description: String,
    msgs: Vec<String>,
    proposer: Option<String>,
    vote_signatures: &Vec<VoteSignature>,
    electorate: &Electorate,
) -> (r: Result<ProposeResponse, ContractError>)
    requires
        old(state).wf(),
    ensures
        final(state).wf(),
        proposed_with_signatures(
            r,
            *old(state),
            *final(state),
            *block,
            *sender,
            title,
            description,
            msgs,
            proposer,
            vote_signatures@,
            *electorate,
        ),
{
    let votes = examine_signatures(vote_signatures, electorate);
    let payload_hash = if msgs.len() == 1 {
        Some(compute_sha256_hash(msgs[0].as_str().as_bytes()))
    } else {
        None
    };
    propose_examined(
        state,
        block,
        sender,
        title,
        description,
        msgs,
        proposer,
        &votes,
        &payload_hash,
        electorate,
    )
}

/// The ballots that the votes of a batch become, in the order of submission:
/// one for every vote that verified and has power, yes for the majority hash
/// and no for any other, without rationale.
pub open spec fn batch_ballots(votes: Seq<SignedVote>, majority: Seq<u8>) -> Seq<BallotEntry>
    decreases votes.len(),
{
    if votes.len() == 0 {
        Seq::empty()
    } else {
        let rest = batch_ballots(votes.drop_last(), majority);
        match spec_synthesize(votes.last(), majority) {
            None => rest,
            Some(choice) => rest.push(
                BallotEntry {
                    voter: votes.last().voter,
                    ballot: Ballot { power: votes.last().power, vote: choice, rationale: None },
                },
            ),
        }
    }
}

/// The power that the ballots of a batch put behind the position `choice`.
pub open spec fn batch_power(votes: Seq<SignedVote>, majority: Seq<u8>, choice: Vote) -> nat
    decreases votes.len(),
{
    if votes.len() == 0 {
        0
    } else {
        batch_power(votes.drop_last(), majority, choice) + if spec_synthesize(
            votes.last(),
            majority,
        ) == Some(choice) {
            votes.last().power as nat
        } else {
            0
        }
    }
}

/// Where ballots cannot be changed, a batch that is cast leaves exactly one
/// ballot for every vote that verified and has power: yes for the majority
/// hash and no for any other, with the power of the signer, in the order of
/// submission. The tally grows by the power of these ballots and by nothing
/// else, and what the proposal snapshotted stays.
pub proof fn lemma_batch_casts_one_ballot_each(
    state: State,
    poll: Poll,
    votes: Seq<SignedVote>,
    majority: Seq<u8>,
    block: BlockInfo,
    id: u64,
)
    requires
        !poll.proposal.allow_revoting,
        spec_cast_batch(state, poll, votes, majority, block, id) is Ok,
    ensures
        ({
            let after = spec_cast_batch(state, poll, votes, majority, block, id)->Ok_0.0;
            &&& after.entries == poll.entries + batch_ballots(votes, majority)
            &&& after.proposal.votes.yes == poll.proposal.votes.yes + batch_power(
                votes,
                majority,
                Vote::Yes,
            )
            &&& after.proposal.votes.no == poll.proposal.votes.no + batch_power(
                votes,
                majority,
                Vote::No,
            )
            &&& after.proposal.votes.abstain == poll.proposal.votes.abstain
            &&& after.proposal == poll.proposal.with_votes(after.proposal.votes).with_status(
                after.proposal.status,
            )
        }),
    decreases votes.len(),
{
    if votes.len() == 0 {
        assert(poll.entries + Seq::<BallotEntry>::empty() =~= poll.entries);
    } else {
        let rest = votes.drop_last();
        lemma_batch_casts_one_ballot_each(state, poll, rest, majority, block, id);
        let before = spec_cast_batch(state, poll, rest, majority, block, id)->Ok_0.0;
        match spec_synthesize(votes.last(), majority) {
            None => {},
            Some(choice) => {
                let entry = BallotEntry {
                    voter: votes.last().voter,
                    ballot: Ballot { power: votes.last().power, vote: choice, rationale: None },
                };
                assert((poll.entries + batch_ballots(rest, majority)).push(entry) =~= poll.entries
                    + batch_ballots(rest, majority).push(entry));
            },
        }
    }
}

/// A tie at the top refuses the proposal: where a proposal can be created and
/// two different hashes have the same power behind them and no hash has more,
/// the call fails because the threshold cannot be reached, and nothing is
/// kept.
pub proof fn lemma_tied_batch_is_refused(
    state: State,
    block: BlockInfo,
    sender: String,
    title: String,
    description: String,
    msgs: Vec<String>,
    proposer: Option<String>,
    votes: Seq<SignedVote>,
    payload_hash: Option<Seq<u8>>,
    electorate: Electorate,
    one: Seq<u8>,
    other: Seq<u8>,
)
    requires
        spec_new_proposal(state, block, sender, title, description, msgs, proposer, electorate)
            is Ok,
        state.proposals@.len() < u64::MAX,
        !crate::instant::overflows(votes),
        one != other,
        crate::instant::claimed(votes, one),
        crate::instant::claimed(votes, other),
        crate::instant::backing(votes, one) == crate::instant::backing(votes, other),
        forall|i: int|
            0 <= i < votes.len() ==> crate::instant::backing(
                votes,
                #[trigger] crate::instant::hash_at(votes, i),
            ) <= crate::instant::backing(votes, one),
    ensures
        spec_propose(
            state,
            block,
            sender,
            title,
            description,
            msgs,
            proposer,
            votes,
            payload_hash,
            electorate,
        ) == Err::<ProposeOutcome, ContractError>(
            ContractError::Threshold(crate::threshold::ThresholdError::UnreachableThreshold),
        ),
{
    crate::instant::lemma_tie_has_no_majority(votes, one, other);
}

/// A payload that the majority did not approve refuses the proposal: where a
/// proposal can be created, the batch has a majority hash and its ballots can
/// be cast, a payload with another hash, or none, makes the call fail with the
/// refusal of its own, and nothing is kept.
pub proof fn lemma_wrong_payload_is_refused(
    state: State,
    block: BlockInfo,
    sender: String,
    title: String,
    description: String,
    msgs: Vec<String>,
    proposer: Option<String>,
    votes: Seq<SignedVote>,
    payload_hash: Option<Seq<u8>>,
    electorate: Electorate,
)
    requires
        spec_new_proposal(state, block, sender, title, description, msgs, proposer, electorate)
            is Ok,
        state.proposals@.len() < u64::MAX,
        spec_majority_hash(votes) is Ok,
        payload_hash != Some(spec_majority_hash(votes)->Ok_0),
        spec_cast_batch(
            state,
            Poll {
                proposal: spec_new_proposal(
                    state,
                    block,
                    sender,
                    title,
                    description,
                    msgs,
                    proposer,
                    electorate,
                )->Ok_0,
                entries: Seq::empty(),
            },
            votes,
            spec_majority_hash(votes)->Ok_0,
            block,
            (state.proposals@.len() + 1) as u64,
        ) is Ok,
    ensures
        spec_propose(
            state,
            block,
            sender,
            title,
            description,
            msgs,
            proposer,
            votes,
            payload_hash,
            electorate,
        ) == Err::<ProposeOutcome, ContractError>(ContractError::PayloadHashMismatch),
{
}

/// Whether a proposal is open to an early pass in `block`: ballots cannot be
/// changed, no minimum voting period is running, no veto is configured, and
/// the voting period has not ended.
pub open spec fn decides_early(proposal: SingleChoiceProposal, block: BlockInfo) -> bool {
    &&& !proposal.allow_revoting
    &&& !proposal.in_min_voting_period(block)
    &&& proposal.veto is None
    &&& !proposal.expiration.spec_is_expired(block)
}

/// Whether the tally `votes` lies within `bound`, position by position.
pub open spec fn within(votes: Votes, bound: Votes) -> bool {
    votes.yes <= bound.yes && votes.no <= bound.no && votes.abstain <= bound.abstain
}

/// Whether `bound` is a lead under the policy of `proposal`: its yes votes
/// exceed the no votes and the power not cast together, and the policy is one
/// that such a lead can meet.
pub open spec fn is_lead(proposal: SingleChoiceProposal, bound: Votes) -> bool {
    &&& bound.spec_total() <= proposal.total_power
    &&& bound.yes > bound.no + (proposal.total_power - bound.spec_total())
    &&& proposal.threshold.met_by_a_lead(bound, proposal.total_power)
}

/// Whether a proposal stands as it must on the way to a lead: open or passed,
/// and open only while its tally does not pass.
pub open spec fn on_the_way(proposal: SingleChoiceProposal) -> bool {
    &&& proposal.status is Open || proposal.status is Passed
    &&& proposal.status is Open ==> !proposal.threshold.spec_passes(
        proposal.votes,
        proposal.total_power,
        false,
    )
}

/// A batch that grows into a lead is never rejected on the way: where a
/// proposal that decides early is open or passed, and the ballots of a batch
/// are cast on it and end within a lead, the proposal is open or passed after
/// every ballot, and passed as soon as its tally passes.
pub proof fn lemma_batch_under_a_lead(
    state: State,
    poll: Poll,
    votes: Seq<SignedVote>,
    majority: Seq<u8>,
    block: BlockInfo,
    id: u64,
    bound: Votes,
)
    requires
        decides_early(poll.proposal, block),
        is_lead(poll.proposal, bound),
        on_the_way(poll.proposal),
        spec_cast_batch(state, poll, votes, majority, block, id) is Ok,
        within(spec_cast_batch(state, poll, votes, majority, block, id)->Ok_0.0.proposal.votes, bound),
    ensures
        on_the_way(spec_cast_batch(state, poll, votes, majority, block, id)->Ok_0.0.proposal),
    decreases votes.len(),
{
    lemma_batch_casts_one_ballot_each(state, poll, votes, majority, block, id);
    if votes.len() > 0 {
        let rest = votes.drop_last();
        lemma_batch_casts_one_ballot_each(state, poll, rest, majority, block, id);
        lemma_batch_under_a_lead(state, poll, rest, majority, block, id, bound);
        let before = spec_cast_batch(state, poll, rest, majority, block, id)->Ok_0.0;
        let after = spec_cast_batch(state, poll, votes, majority, block, id)->Ok_0.0;
        crate::threshold::lemma_lead_is_never_rejected(
            poll.proposal.threshold,
            after.proposal.votes,
            bound,
            poll.proposal.total_power,
        );
    }
}

/// Early decision within the call: where a proposal can be created that
/// decides early, the batch has a majority hash that is the hash of the
/// payload, its ballots can be cast and leave a lead of the yes votes over all
/// power that may still go against them, and the sender may execute, the
/// proposal is passed before its voting period ends and is executed in the
/// same call.
pub proof fn lemma_lead_executes_at_once(
    state: State,
    block: BlockInfo,
    sender: String,
    title: String,
    description: String,
    msgs: Vec<String>,
    proposer: Option<String>,
    votes: Seq<SignedVote>,
    payload_hash: Option<Seq<u8>>,
    electorate: Electorate,
)
    requires
        spec_new_proposal(state, block, sender, title, description, msgs, proposer, electorate)
            is Ok,
        state.proposals@.len() < u64::MAX,
        decides_early(
            spec_new_proposal(
                state,
                block,
                sender,
                title,
                description,
                msgs,
                proposer,
                electorate,
            )->Ok_0,
            block,
        ),
        spec_majority_hash(votes) is Ok,
        payload_hash == Some(spec_majority_hash(votes)->Ok_0),
        spec_cast_batch(
            state,
            Poll {
                proposal: spec_new_proposal(
                    state,
                    block,
                    sender,
                    title,
                    description,
                    msgs,
                    proposer,
                    electorate,
                )->Ok_0,
                entries: Seq::empty(),
            },
            votes,
            spec_majority_hash(votes)->Ok_0,
            block,
            (state.proposals@.len() + 1) as u64,
        ) matches Ok(cast) && is_lead(cast.0.proposal, cast.0.proposal.votes),
        crate::contract::spec_sender_can_execute(state.config, electorate, sender@),
    ensures
        spec_propose(
            state,
            block,
            sender,
            title,
            description,
            msgs,
            proposer,
            votes,
            payload_hash,
            electorate,
        ) matches Ok(outcome) && outcome.poll.proposal.status == Status::Executed,
{
    let proposal = spec_new_proposal(
        state,
        block,
        sender,
        title,
        description,
        msgs,
        proposer,
        electorate,
    )->Ok_0;
    let id = (state.proposals@.len() + 1) as u64;
    let majority = spec_majority_hash(votes)->Ok_0;
    let poll = Poll { proposal, entries: Seq::empty() };
    let cast = spec_cast_batch(state, poll, votes, majority, block, id)->Ok_0.0;
    lemma_batch_casts_one_ballot_each(state, poll, votes, majority, block, id);
    // the proposal starts without votes, and is not rejected at creation
    crate::threshold::lemma_lead_is_never_rejected(
        proposal.threshold,
        Votes { yes: 0, no: 0, abstain: 0 },
        cast.proposal.votes,
        proposal.total_power,
    );
    lemma_batch_under_a_lead(state, poll, votes, majority, block, id, cast.proposal.votes);
    crate::threshold::lemma_lead_passes_early(
        cast.proposal.threshold,
        cast.proposal.votes,
        cast.proposal.total_power,
    );
}

} // verus!
