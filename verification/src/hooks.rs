//! Hook subscribers: an ordered list of addresses that are told of new
//! proposals, status changes and votes.
//!
//! A subscriber's message carries the subscriber's place in the list as its
//! tag. When the message fails, the completion notice names that place, and
//! the subscriber is struck from the list: a failing observer never undoes the
//! change that it was told of.

use vstd::prelude::*;
use crate::error::HookError;
use crate::msg::{ExecuteBody, ProposalCreationPolicy, ProposalHookMsg, ReplyOn, SubMsg, VoteHookMsg, WasmMsg};
use crate::reply::{
    spec_mask,
    mask_proposal_hook_index,
    mask_vote_hook_index,
    FAILED_PRE_PROPOSE_MODULE_HOOK_ID,
    FAILED_PROPOSAL_HOOK_MASK,
    FAILED_VOTE_HOOK_MASK,
};
use crate::status::Status;
use crate::votes::Vote;

verus! {

/// A list of hook subscribers, in the order in which they were added.
#[derive(Debug, PartialEq, Eq)]
pub struct Hooks {
    pub subscribers: Vec<String>,
}

/// Whether `addr` is among `subscribers`.
pub open spec fn subscribed(subscribers: Seq<String>, addr: Seq<char>) -> bool {
    exists|i: int| 0 <= i < subscribers.len() && (#[trigger] subscribers[i])@ == addr
}

/// Whether `i` is the first place at which `addr` stands in `subscribers`.
pub open spec fn first_place(subscribers: Seq<String>, addr: Seq<char>, i: int) -> bool {
    &&& 0 <= i < subscribers.len()
    &&& subscribers[i]@ == addr
    &&& forall|j: int| 0 <= j < i ==> (#[trigger] subscribers[j])@ != addr
}

/// No address stands in `subscribers` twice.
pub open spec fn distinct(subscribers: Seq<String>) -> bool {
    forall|i: int, j: int|
        0 <= i < j < subscribers.len() ==> (#[trigger] subscribers[i])@ != (
        #[trigger] subscribers[j])@
}

/// The message that tells the proposal hook subscriber at place `i` of a new
/// proposal.
pub open spec fn new_proposal_hook(subscribers: Seq<String>, i: int, id: u64, proposer: String) -> SubMsg {
    SubMsg {
        id: spec_mask(FAILED_PROPOSAL_HOOK_MASK, i as u64),
        reply_on: ReplyOn::Error,
        msg: WasmMsg::Execute {
            contract_addr: subscribers[i],
            msg: ExecuteBody::ProposalHook(ProposalHookMsg::NewProposal { id, proposer }),
        },
    }
}

/// The message that tells the proposal hook subscriber at place `i` of a
/// change of status.
pub open spec fn status_changed_hook(
    subscribers: Seq<String>,
    i: int,
    id: u64,
    old_status: Status,
    new_status: Status,
) -> SubMsg {
    SubMsg {
        id: spec_mask(FAILED_PROPOSAL_HOOK_MASK, i as u64),
        reply_on: ReplyOn::Error,
        msg: WasmMsg::Execute {
            contract_addr: subscribers[i],
            msg: ExecuteBody::ProposalHook(
                ProposalHookMsg::ProposalStatusChanged { id, old_status, new_status },
            ),
        },
    }
}

/// The message that tells the vote hook subscriber at place `i` of a vote.
pub open spec fn new_vote_hook(
    subscribers: Seq<String>,
    i: int,
    proposal_id: u64,
    voter: String,
    vote: Vote,
) -> SubMsg {
    SubMsg {
        id: spec_mask(FAILED_VOTE_HOOK_MASK, i as u64),
        reply_on: ReplyOn::Error,
        msg: WasmMsg::Execute {
            contract_addr: subscribers[i],
            msg: ExecuteBody::VoteHook(VoteHookMsg::NewVote { proposal_id, voter, vote }),
        },
    }
}

/// The messages that tell all proposal hook subscribers of a new proposal.
pub open spec fn spec_new_proposal_hooks(subscribers: Seq<String>, id: u64, proposer: String) -> Seq<
    SubMsg,
> {
    Seq::new(subscribers.len(), |i: int| new_proposal_hook(subscribers, i, id, proposer))
}

/// The messages that tell all proposal hook subscribers of a change of
/// status; none where the status has not changed.
pub open spec fn spec_proposal_status_changed_hooks(
    subscribers: Seq<String>,
    id: u64,
    old_status: Status,
    new_status: Status,
) -> Seq<SubMsg> {
    if old_status == new_status {
        Seq::empty()
    } else {
        Seq::new(
            subscribers.len(),
            |i: int| status_changed_hook(subscribers, i, id, old_status, new_status),
        )
    }
}

/// The messages that tell all vote hook subscribers of a vote.
pub open spec fn spec_new_vote_hooks(
    subscribers: Seq<String>,
    proposal_id: u64,
    voter: String,
    vote: Vote,
) -> Seq<SubMsg> {
    Seq::new(subscribers.len(), |i: int| new_vote_hook(subscribers, i, proposal_id, voter, vote))
}

/// The message that tells the module that creates proposals, where there is
/// one, that a proposal has run its course.
pub open spec fn spec_proposal_completed_hooks(
    policy: ProposalCreationPolicy,
    proposal_id: u64,
    new_status: Status,
) -> Seq<SubMsg> {
    match policy {
        ProposalCreationPolicy::Anyone => Seq::empty(),
        ProposalCreationPolicy::Module { addr } => seq![
            SubMsg {
                id: FAILED_PRE_PROPOSE_MODULE_HOOK_ID,
                reply_on: ReplyOn::Error,
                msg: WasmMsg::Execute {
                    contract_addr: addr,
                    msg: ExecuteBody::ProposalCompletedHook { proposal_id, new_status },
                },
            },
        ],
    }
}

impl Hooks {
    /// A list is well formed when no address stands in it twice.
    pub open spec fn wf(&self) -> bool {
        distinct(self.subscribers@)
    }

    /// A list without subscribers.
    pub fn new() -> (r: Hooks)
        ensures
            r.subscribers@.len() == 0,
            r.wf(),
    {
        Hooks { subscribers: Vec::new() }
    }

    /// Tests [`Hooks::wf`].
    pub fn is_well_formed(&self) -> (r: bool)
        ensures
            r == self.wf(),
    {
        let mut b: usize = 0;
        while b < self.subscribers.len()
            invariant
                b <= self.subscribers@.len(),
                forall|i: int, j: int|
                    0 <= i < j < b ==> (#[trigger] self.subscribers@[i])@ != (
                    #[trigger] self.subscribers@[j])@,
            decreases self.subscribers@.len() - b,
        {
            let mut a: usize = 0;
            while a < b
                invariant
                    a <= b < self.subscribers@.len(),
                    forall|i: int|
                        0 <= i < a ==> (#[trigger] self.subscribers@[i])@
                            != self.subscribers@[b as int]@,
                decreases b - a,
            {
                if self.subscribers[a] == self.subscribers[b] {
                    return false;
                }
                a += 1;
            }
            b += 1;
        }
        true
    }

    /// The first place at which `addr` stands.
    pub fn position(&self, addr: &String) -> (r: Option<usize>)
        ensures
            match r {
                Some(i) => first_place(self.subscribers@, addr@, i as int),
                None => !subscribed(self.subscribers@, addr@),
            },
    {
        let mut i: usize = 0;
        while i < self.subscribers.len()
            invariant
                i <= self.subscribers@.len(),
                forall|j: int| 0 <= j < i ==> (#[trigger] self.subscribers@[j])@ != addr@,
            decreases self.subscribers@.len() - i,
        {
            if self.subscribers[i] == *addr {
                return Some(i);
            }
            i += 1;
        }
        None
    }

    /// Adds `addr` at the end of the list, unless it is a subscriber already.
    pub fn add_hook(&mut self, addr: String) -> (r: Result<(), HookError>)
        ensures
            subscribed(old(self).subscribers@, addr@) ==> r == Err::<(), HookError>(
                HookError::HookAlreadyRegistered,
            ) && *final(self) == *old(self),
            !subscribed(old(self).subscribers@, addr@) ==> r is Ok && final(self).subscribers@
                == old(self).subscribers@.push(addr),
            distinct(old(self).subscribers@) ==> distinct(final(self).subscribers@),
    {
        match self.position(&addr) {
            Some(_) => Err(HookError::HookAlreadyRegistered),
            None => {
                self.subscribers.push(addr);
                Ok(())
            },
        }
    }

    /// Strikes `addr` from the list; the subscribers behind it move up.
    pub fn remove_hook(&mut self, addr: &String) -> (r: Result<(), HookError>)
        ensures
            !subscribed(old(self).subscribers@, addr@) ==> r == Err::<(), HookError>(
                HookError::HookNotRegistered,
            ) && *final(self) == *old(self),
            subscribed(old(self).subscribers@, addr@) ==> r is Ok && exists|i: int|
                first_place(old(self).subscribers@, addr@, i) && final(self).subscribers@ == old(
                    self,
                ).subscribers@.remove(i),
            distinct(old(self).subscribers@) ==> distinct(final(self).subscribers@)
                && !subscribed(final(self).subscribers@, addr@),
    {
        match self.position(addr) {
            Some(i) => {
                self.subscribers.remove(i);
                Ok(())
            },
            None => Err(HookError::HookNotRegistered),
        }
    }

    /// Strikes the subscriber at place `index` from the list and returns it.
    /// This is how a subscriber whose message failed is dropped.
    pub fn remove_hook_by_index(&mut self, index: u64) -> (r: Result<String, HookError>)
        ensures
            index < old(self).subscribers@.len() ==> r == Ok::<String, HookError>(
                old(self).subscribers@[index as int],
            ) && final(self).subscribers@ == old(self).subscribers@.remove(index as int),
            index >= old(self).subscribers@.len() ==> r == Err::<String, HookError>(
                HookError::HookNotRegistered,
            ) && *final(self) == *old(self),
            distinct(old(self).subscribers@) ==> distinct(final(self).subscribers@),
    {
        if index >= self.subscribers.len() as u64 {
            return Err(HookError::HookNotRegistered);
        }
        let hook = self.subscribers.remove(index as usize);
        Ok(hook)
    }

    /// The number of subscribers.
    pub fn hook_count(&self) -> (r: usize)
        ensures
            r == self.subscribers@.len(),
    {
        self.subscribers.len()
    }

    /// The subscribers, in order.
    pub fn query_hooks(&self) -> (r: Vec<String>)
        ensures
            r@ == self.subscribers@,
    {
        let mut out: Vec<String> = Vec::new();
        let mut i: usize = 0;
        while i < self.subscribers.len()
            invariant
                i <= self.subscribers@.len(),
                out@ == self.subscribers@.take(i as int),
            decreases self.subscribers@.len() - i,
        {
            out.push(self.subscribers[i].clone());
            i += 1;
        }
        out
    }
}

/// Prepares the messages that tell the proposal hook subscribers of a new
/// proposal, one for each in order, tagged with the subscriber's place.
pub fn new_proposal_hooks(hooks: &Hooks, id: u64, proposer: &String) -> (r: Vec<SubMsg>)
    ensures
        r@ == spec_new_proposal_hooks(hooks.subscribers@, id, *proposer),
{
    let mut out: Vec<SubMsg> = Vec::new();
    let mut i: usize = 0;
    while i < hooks.subscribers.len()
        invariant
            i <= hooks.subscribers@.len(),
            out@ =~= Seq::new(
                i as nat,
                |k: int| new_proposal_hook(hooks.subscribers@, k, id, *proposer),
            ),
        decreases hooks.subscribers@.len() - i,
    {
        out.push(
            SubMsg {
                id: mask_proposal_hook_index(i as u64),
                reply_on: ReplyOn::Error,
                msg: WasmMsg::Execute {
                    contract_addr: hooks.subscribers[i].clone(),
                    msg: ExecuteBody::ProposalHook(
                        ProposalHookMsg::NewProposal { id, proposer: proposer.clone() },
                    ),
                },
            },
        );
        i += 1;
    }
    out
}

/// Prepares the messages that tell the proposal hook subscribers that the
/// status of a proposal has changed; none where it has not.
pub fn proposal_status_changed_hooks(hooks: &Hooks, id: u64, old_status: Status, new_status: Status) -> (r:
    Vec<SubMsg>)
    ensures
        r@ == spec_proposal_status_changed_hooks(hooks.subscribers@, id, old_status, new_status),
{
    let mut out: Vec<SubMsg> = Vec::new();
    if old_status == new_status {
        return out;
    }
    let mut i: usize = 0;
    while i < hooks.subscribers.len()
        invariant
            i <= hooks.subscribers@.len(),
            out@ =~= Seq::new(
                i as nat,
                |k: int| status_changed_hook(hooks.subscribers@, k, id, old_status, new_status),
            ),
        decreases hooks.subscribers@.len() - i,
    {
        out.push(
            SubMsg {
                id: mask_proposal_hook_index(i as u64),
                reply_on: ReplyOn::Error,
                msg: WasmMsg::Execute {
                    contract_addr: hooks.subscribers[i].clone(),
                    msg: ExecuteBody::ProposalHook(
                        ProposalHookMsg::ProposalStatusChanged { id, old_status, new_status },
                    ),
                },
            },
        );
        i += 1;
    }
    out
}

/// Prepares the messages that tell the vote hook subscribers of a vote.
pub fn new_vote_hooks(hooks: &Hooks, proposal_id: u64, voter: &String, vote: Vote) -> (r: Vec<SubMsg>)
    ensures
        r@ == spec_new_vote_hooks(hooks.subscribers@, proposal_id, *voter, vote),
{
    let mut out: Vec<SubMsg> = Vec::new();
    let mut i: usize = 0;
    while i < hooks.subscribers.len()
        invariant
            i <= hooks.subscribers@.len(),
            out@ =~= Seq::new(
                i as nat,
                |k: int| new_vote_hook(hooks.subscribers@, k, proposal_id, *voter, vote),
            ),
        decreases hooks.subscribers@.len() - i,
    {
        out.push(
            SubMsg {
                id: mask_vote_hook_index(i as u64),
                reply_on: ReplyOn::Error,
                msg: WasmMsg::Execute {
                    contract_addr: hooks.subscribers[i].clone(),
                    msg: ExecuteBody::VoteHook(
                        VoteHookMsg::NewVote { proposal_id, voter: voter.clone(), vote },
                    ),
                },
            },
        );
        i += 1;
    }
    out
}

/// Prepares the message that tells the module that creates proposals, where
/// there is one, that a proposal has run its course.
pub fn proposal_completed_hooks(policy: &ProposalCreationPolicy, proposal_id: u64, new_status: Status) -> (r:
    Vec<SubMsg>)
    ensures
        r@ == spec_proposal_completed_hooks(*policy, proposal_id, new_status),
{
    let mut out: Vec<SubMsg> = Vec::new();
    match policy {
        ProposalCreationPolicy::Anyone => {},
        ProposalCreationPolicy::Module { addr } => {
            out.push(
                SubMsg {
                    id: FAILED_PRE_PROPOSE_MODULE_HOOK_ID,
                    reply_on: ReplyOn::Error,
                    msg: WasmMsg::Execute {
                        contract_addr: addr.clone(),
                        msg: ExecuteBody::ProposalCompletedHook { proposal_id, new_status },
                    },
                },
            );
        },
    }
    out
}

} // verus!
