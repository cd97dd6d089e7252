//! Tags of completion notices.
//!
//! A dispatched message can carry one number only, which comes back with the
//! notice of its completion. Its lowest three bits say what kind of message it
//! was; the bits above hold a proposal id or the place of a hook subscriber.

use vstd::prelude::*;
use crate::error::ContractError;

verus! {

/// Bits that hold the kind of a notice.
pub const BITS_RESERVED_FOR_REPLY_TYPE: u64 = 3;

/// Mask of the bits that hold the kind of a notice.
pub const REPLY_TYPE_MASK: u64 = 7;

pub const FAILED_PROPOSAL_EXECUTION_MASK: u64 = 0;

pub const FAILED_PROPOSAL_HOOK_MASK: u64 = 1;

pub const FAILED_VOTE_HOOK_MASK: u64 = 2;

pub const PRE_PROPOSE_MODULE_INSTANTIATION_ID: u64 = 3;

pub const FAILED_PRE_PROPOSE_MODULE_HOOK_ID: u64 = 4;

/// Largest proposal id or subscriber place that a tag holds without loss.
pub const MAX_TAGGED_VALUE: u64 = 0x1fff_ffff_ffff_ffff;

/// What a completion notice is about.
#[derive(Clone, Copy, Debug, PartialEq, Eq, Structural)]
pub enum TaggedReplyId {
    /// The payload of this proposal failed.
    FailedProposalExecution(u64),
    /// The proposal hook subscriber at this place failed.
    FailedProposalHook(u64),
    /// The vote hook subscriber at this place failed.
    FailedVoteHook(u64),
    /// The module that creates proposals failed on a hook.
    FailedPreProposeModuleHook,
    /// The module that creates proposals was instantiated.
    PreProposeModuleInstantiation,
}

/// The tag with kind `kind` and value `value`.
pub open spec fn spec_mask(kind: u64, value: u64) -> u64 {
    kind | (value << 3)
}

impl TaggedReplyId {
    /// What [`TaggedReplyId::new`] returns.
    pub open spec fn spec_new(id: u64) -> Result<TaggedReplyId, ContractError> {
        let kind = id & 7;
        let value = id >> 3;
        if kind == FAILED_PROPOSAL_EXECUTION_MASK {
            Ok(TaggedReplyId::FailedProposalExecution(value))
        } else if kind == FAILED_PROPOSAL_HOOK_MASK {
            Ok(TaggedReplyId::FailedProposalHook(value))
        } else if kind == FAILED_VOTE_HOOK_MASK {
            Ok(TaggedReplyId::FailedVoteHook(value))
        } else if kind == PRE_PROPOSE_MODULE_INSTANTIATION_ID {
            Ok(TaggedReplyId::PreProposeModuleInstantiation)
        } else if kind == FAILED_PRE_PROPOSE_MODULE_HOOK_ID {
            Ok(TaggedReplyId::FailedPreProposeModuleHook)
        } else {
            Err(ContractError::InvalidReplyId { id })
        }
    }

    /// Reads the tag of a completion notice: the kind from the lowest three
    /// bits, the value from the bits above.
    pub fn new(id: u64) -> (r: Result<TaggedReplyId, ContractError>)
        ensures
            r == Self::spec_new(id),
    {
        let kind = id & REPLY_TYPE_MASK;
        let value = id >> BITS_RESERVED_FOR_REPLY_TYPE;
        if kind == FAILED_PROPOSAL_EXECUTION_MASK {
            Ok(TaggedReplyId::FailedProposalExecution(value))
        } else if kind == FAILED_PROPOSAL_HOOK_MASK {
            Ok(TaggedReplyId::FailedProposalHook(value))
        } else if kind == FAILED_VOTE_HOOK_MASK {
            Ok(TaggedReplyId::FailedVoteHook(value))
        } else if kind == PRE_PROPOSE_MODULE_INSTANTIATION_ID {
            Ok(TaggedReplyId::PreProposeModuleInstantiation)
        } else if kind == FAILED_PRE_PROPOSE_MODULE_HOOK_ID {
            Ok(TaggedReplyId::FailedPreProposeModuleHook)
        } else {
            Err(ContractError::InvalidReplyId { id })
        }
    }
}

/// The tag of the message that runs the payload of a proposal. Ids above
/// `MAX_TAGGED_VALUE` lose their highest bits.
pub fn mask_proposal_execution_proposal_id(proposal_id: u64) -> (r: u64)
    ensures
        r == spec_mask(FAILED_PROPOSAL_EXECUTION_MASK, proposal_id),
{
    FAILED_PROPOSAL_EXECUTION_MASK | (proposal_id << BITS_RESERVED_FOR_REPLY_TYPE)
}

/// The tag of the message to the proposal hook subscriber at place `index`.
pub fn mask_proposal_hook_index(index: u64) -> (r: u64)
    ensures
        r == spec_mask(FAILED_PROPOSAL_HOOK_MASK, index),
{
    FAILED_PROPOSAL_HOOK_MASK | (index << BITS_RESERVED_FOR_REPLY_TYPE)
}

/// The tag of the message to the vote hook subscriber at place `index`.
pub fn mask_vote_hook_index(index: u64) -> (r: u64)
    ensures
        r == spec_mask(FAILED_VOTE_HOOK_MASK, index),
{
    FAILED_VOTE_HOOK_MASK | (index << BITS_RESERVED_FOR_REPLY_TYPE)
}

/// The tag of the message that instantiates the module that creates
/// proposals.
pub fn pre_propose_module_instantiation_id() -> (r: u64)
    ensures
        r == PRE_PROPOSE_MODULE_INSTANTIATION_ID,
{
    PRE_PROPOSE_MODULE_INSTANTIATION_ID
}

/// The tag of a hook message to the module that creates proposals.
pub fn failed_pre_propose_module_hook_id() -> (r: u64)
    ensures
        r == FAILED_PRE_PROPOSE_MODULE_HOOK_ID,
{
    FAILED_PRE_PROPOSE_MODULE_HOOK_ID
}

/// A tag gives back the kind and the value it was made of, as long as the
/// value fits in the sixty-one bits above the kind.
pub proof fn lemma_tags_round_trip(value: u64)
    requires
        value <= MAX_TAGGED_VALUE,
    ensures
        TaggedReplyId::spec_new(spec_mask(FAILED_PROPOSAL_EXECUTION_MASK, value)) == Ok::<
            TaggedReplyId,
            ContractError,
        >(TaggedReplyId::FailedProposalExecution(value)),
        TaggedReplyId::spec_new(spec_mask(FAILED_PROPOSAL_HOOK_MASK, value)) == Ok::<
            TaggedReplyId,
            ContractError,
        >(TaggedReplyId::FailedProposalHook(value)),
        TaggedReplyId::spec_new(spec_mask(FAILED_VOTE_HOOK_MASK, value)) == Ok::<
            TaggedReplyId,
            ContractError,
        >(TaggedReplyId::FailedVoteHook(value)),
        TaggedReplyId::spec_new(PRE_PROPOSE_MODULE_INSTANTIATION_ID) == Ok::<
            TaggedReplyId,
            ContractError,
        >(TaggedReplyId::PreProposeModuleInstantiation),
        TaggedReplyId::spec_new(FAILED_PRE_PROPOSE_MODULE_HOOK_ID) == Ok::<
            TaggedReplyId,
            ContractError,
        >(TaggedReplyId::FailedPreProposeModuleHook),
{
    assert(value <= 0x1fff_ffff_ffff_ffffu64 ==> ((0u64 | (value << 3)) & 7) == 0 && ((0u64 | (value
        << 3)) >> 3) == value) by (bit_vector);
    assert(value <= 0x1fff_ffff_ffff_ffffu64 ==> ((1u64 | (value << 3)) & 7) == 1 && ((1u64 | (value
        << 3)) >> 3) == value) by (bit_vector);
    assert(value <= 0x1fff_ffff_ffff_ffffu64 ==> ((2u64 | (value << 3)) & 7) == 2 && ((2u64 | (value
        << 3)) >> 3) == value) by (bit_vector);
    assert((3u64 & 7) == 3 && (4u64 & 7) == 4) by (bit_vector);
}

} // verus!
