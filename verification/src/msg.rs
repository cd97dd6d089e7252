//! Messages that the module hands back to be dispatched, and the policy that
//! says who may create proposals.

use vstd::prelude::*;
use crate::reply::PRE_PROPOSE_MODULE_INSTANTIATION_ID;
use crate::status::Status;
use crate::votes::Vote;

verus! {

/// An amount of a token.
#[derive(Debug, PartialEq, Eq)]
pub struct Coin {
    pub denom: String,
    pub amount: u128,
}

/// Who administers a module that is instantiated.
#[derive(Debug, PartialEq, Eq)]
pub enum Admin {
    /// The given address.
    Address { addr: String },
    /// The organization itself.
    CoreModule,
}

/// What is needed to instantiate a module.
#[derive(Debug, PartialEq, Eq)]
pub struct ModuleInstantiateInfo {
    pub code_id: u64,
    /// The instantiate message, encoded.
    pub msg: String,
    pub admin: Option<Admin>,
    pub funds: Vec<Coin>,
    pub label: String,
}

/// How proposals are to be created from now on.
#[derive(Debug, PartialEq, Eq)]
pub enum PreProposeInfo {
    /// Anyone may create a proposal.
    AnyoneMayPropose,
    /// Only the module that is instantiated from `info` may.
    ModuleMayPropose { info: ModuleInstantiateInfo },
}

/// Who may create proposals.
#[derive(Debug, PartialEq, Eq)]
pub enum ProposalCreationPolicy {
    /// Anyone, in their own name.
    Anyone,
    /// Only the module at `addr`, which names the proposer.
    Module { addr: String },
}

/// What a proposal hook subscriber is told.
#[derive(Debug, PartialEq, Eq)]
pub enum ProposalHookMsg {
    NewProposal { id: u64, proposer: String },
    ProposalStatusChanged { id: u64, old_status: Status, new_status: Status },
}

/// What a vote hook subscriber is told.
#[derive(Debug, PartialEq, Eq)]
pub enum VoteHookMsg {
    NewVote { proposal_id: u64, voter: String, vote: Vote },
}

/// The body of a message to another contract.
#[derive(Debug, PartialEq, Eq)]
pub enum ExecuteBody {
    /// Asks the organization to run the messages of the proposal
    /// `proposal_id`, as the proposal holds them.
    ExecuteProposalHook { proposal_id: u64 },
    ProposalHook(ProposalHookMsg),
    VoteHook(VoteHookMsg),
    /// Tells the module that creates proposals that one has run its course.
    ProposalCompletedHook { proposal_id: u64, new_status: Status },
}

/// A message to dispatch.
#[allow(inconsistent_fields)]
#[derive(Debug, PartialEq, Eq)]
pub enum WasmMsg {
    Execute { contract_addr: String, msg: ExecuteBody },
    Instantiate { admin: Option<String>, code_id: u64, msg: String, funds: Vec<Coin>, label: String },
}

/// On which outcome of a dispatched message a completion notice is wanted.
#[derive(Clone, Copy, Debug, PartialEq, Eq, Structural)]
pub enum ReplyOn {
    Never,
    Error,
    Success,
}

/// A message to dispatch, with the tag that its completion notice will carry.
#[derive(Debug, PartialEq, Eq)]
pub struct SubMsg {
    pub id: u64,
    pub reply_on: ReplyOn,
    pub msg: WasmMsg,
}

impl Clone for ProposalCreationPolicy {
    fn clone(&self) -> (r: Self)
        ensures
            r == *self,
    {
        match self {
            ProposalCreationPolicy::Anyone => ProposalCreationPolicy::Anyone,
            ProposalCreationPolicy::Module { addr } => ProposalCreationPolicy::Module {
                addr: addr.clone(),
            },
        }
    }
}

impl ProposalCreationPolicy {
    /// Whether `creator` may send the command that creates a proposal.
    pub open spec fn spec_is_permitted(&self, creator: Seq<char>) -> bool {
        match self {
            ProposalCreationPolicy::Anyone => true,
            ProposalCreationPolicy::Module { addr } => addr@ == creator,
        }
    }

    /// Whether `creator` may send the command that creates a proposal.
    pub fn is_permitted(&self, creator: &String) -> (r: bool)
        ensures
            r == self.spec_is_permitted(creator@),
    {
        match self {
            ProposalCreationPolicy::Anyone => true,
            ProposalCreationPolicy::Module { addr } => *creator == *addr,
        }
    }
}

impl ModuleInstantiateInfo {
    /// The message that instantiates the module for the organization `dao`.
    pub open spec fn spec_into_wasm_msg(self, dao: String) -> WasmMsg {
        WasmMsg::Instantiate {
            admin: match self.admin {
                Some(Admin::Address { addr }) => Some(addr),
                Some(Admin::CoreModule) => Some(dao),
                None => None,
            },
            code_id: self.code_id,
            msg: self.msg,
            funds: self.funds,
            label: self.label,
        }
    }

    /// The message that instantiates the module for the organization `dao`,
    /// which is its admin where the core module is named as admin.
    pub fn into_wasm_msg(self, dao: String) -> (r: WasmMsg)
        ensures
            r == self.spec_into_wasm_msg(dao),
    {
        WasmMsg::Instantiate {
            admin: match self.admin {
                Some(Admin::Address { addr }) => Some(addr),
                Some(Admin::CoreModule) => Some(dao),
                None => None,
            },
            code_id: self.code_id,
            msg: self.msg,
            funds: self.funds,
            label: self.label,
        }
    }
}

impl PreProposeInfo {
    /// The messages that [`PreProposeInfo::into_initial_policy_and_messages`]
    /// returns.
    pub open spec fn spec_messages(self, dao: String) -> Seq<SubMsg> {
        match self {
            PreProposeInfo::AnyoneMayPropose => Seq::empty(),
            PreProposeInfo::ModuleMayPropose { info } => seq![
                SubMsg {
                    id: PRE_PROPOSE_MODULE_INSTANTIATION_ID,
                    reply_on: ReplyOn::Success,
                    msg: info.spec_into_wasm_msg(dao),
                },
            ],
        }
    }

    /// The policy to start with, and the messages to dispatch. Until a module
    /// has been instantiated anyone may propose, so that a failed
    /// instantiation leaves the organization able to act.
    pub fn into_initial_policy_and_messages(self, dao: String) -> (r: (
        ProposalCreationPolicy,
        Vec<SubMsg>,
    ))
        ensures
            r.0 == ProposalCreationPolicy::Anyone,
            r.1@ == self.spec_messages(dao),
    {
        match self {
            PreProposeInfo::AnyoneMayPropose => (ProposalCreationPolicy::Anyone, Vec::new()),
            PreProposeInfo::ModuleMayPropose { info } => {
                let mut messages: Vec<SubMsg> = Vec::new();
                messages.push(
                    SubMsg {
                        id: PRE_PROPOSE_MODULE_INSTANTIATION_ID,
                        reply_on: ReplyOn::Success,
                        msg: info.into_wasm_msg(dao),
                    },
                );
                (ProposalCreationPolicy::Anyone, messages)
            },
        }
    }
}

} // verus!
