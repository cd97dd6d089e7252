//! Setting the module up and changing its settings: the configuration, the
//! policy on who may create proposals, and the hook subscribers. Only the
//! owning organization may change anything.

use vstd::prelude::*;
use crate::error::{ContractError, HookError};
use crate::hooks::{subscribed, Hooks};
use crate::msg::{PreProposeInfo, ProposalCreationPolicy, SubMsg};
use crate::state::{spec_validate_voting_period, validate_voting_period, Config, State};
use crate::threshold::Threshold;
use crate::time::Duration;
use crate::veto::{VetoConfig, VetoError};

verus! {

/// What the module is set up with.
#[derive(Debug, PartialEq, Eq)]
pub struct InstantiateMsg {
    pub threshold: Threshold,
    pub max_voting_period: Duration,
    pub min_voting_period: Option<Duration>,
    pub only_members_execute: bool,
    pub allow_revoting: bool,
    pub pre_propose_info: PreProposeInfo,
    pub close_proposal_on_execution_failure: bool,
    pub veto: Option<VetoConfig>,
}

/// Whether the settings are accepted: the threshold must be a valid policy,
/// the minimum voting period must fit the maximum, and a veto timelock must
/// be counted in the unit of the voting period.
pub open spec fn spec_check_settings(
    threshold: Threshold,
    max_voting_period: Duration,
    min_voting_period: Option<Duration>,
    veto: Option<VetoConfig>,
) -> Result<(), ContractError> {
    match threshold.spec_validate() {
        Err(e) => Err(ContractError::Threshold(e)),
        Ok(_) => match spec_validate_voting_period(min_voting_period, max_voting_period) {
            Err(e) => Err(ContractError::Voting(e)),
            Ok(_) => match veto {
                Some(v) => if v.timelock_duration.same_unit(max_voting_period) {
                    Ok(())
                } else {
                    Err(ContractError::Veto(VetoError::TimelockDurationUnitMismatch))
                },
                None => Ok(()),
            },
        },
    }
}

/// Whether `sender` is the organization that owns the module.
pub open spec fn is_owner(state: State, sender: Seq<char>) -> bool {
    state.config.dao@ == sender
}

/// What [`execute_update_config`] does.
pub open spec fn config_updated(
    r: Result<(), ContractError>,
    before: State,
    after: State,
    sender: Seq<char>,
    config: Config,
) -> bool {
    if !is_owner(before, sender) {
        r == Err::<(), ContractError>(ContractError::Unauthorized) && after == before
    } else {
        match spec_check_settings(
            config.threshold,
            config.max_voting_period,
            config.min_voting_period,
            config.veto,
        ) {
            Err(e) => r == Err::<(), ContractError>(e) && after == before,
            Ok(_) => {
                &&& r is Ok
                &&& after.config == config
                &&& after.creation_policy == before.creation_policy
                &&& after.proposals == before.proposals
                &&& after.proposal_hooks == before.proposal_hooks
                &&& after.vote_hooks == before.vote_hooks
            },
        }
    }
}

/// What [`execute_update_proposal_creation_policy`] does.
pub open spec fn policy_updated(
    r: Result<Vec<SubMsg>, ContractError>,
    before: State,
    after: State,
    sender: Seq<char>,
    new_info: PreProposeInfo,
) -> bool {
    if !is_owner(before, sender) {
        r == Err::<Vec<SubMsg>, ContractError>(ContractError::Unauthorized) && after == before
    } else {
        &&& r is Ok
        &&& r->Ok_0@ == new_info.spec_messages(before.config.dao)
        &&& after.creation_policy == ProposalCreationPolicy::Anyone
        &&& after.config == before.config
        &&& after.proposals == before.proposals
        &&& after.proposal_hooks == before.proposal_hooks
        &&& after.vote_hooks == before.vote_hooks
    }
}

/// What adding `address` to a list of subscribers does, where `before` and
/// `after` are the list before and after.
pub open spec fn hook_added(
    r: Result<(), ContractError>,
    before: Hooks,
    after: Hooks,
    address: String,
) -> bool {
    if subscribed(before.subscribers@, address@) {
        r == Err::<(), ContractError>(ContractError::Hook(HookError::HookAlreadyRegistered))
            && after == before
    } else {
        r is Ok && after.subscribers@ == before.subscribers@.push(address)
    }
}

/// What striking `address` from a list of subscribers does.
pub open spec fn hook_removed(
    r: Result<(), ContractError>,
    before: Hooks,
    after: Hooks,
    address: Seq<char>,
) -> bool {
    if !subscribed(before.subscribers@, address) {
        r == Err::<(), ContractError>(ContractError::Hook(HookError::HookNotRegistered)) && after
            == before
    } else {
        r is Ok && exists|i: int|
            crate::hooks::first_place(before.subscribers@, address, i) && after.subscribers@
                == before.subscribers@.remove(i)
    }
}

/// Whether `after` differs from `before` at most in the proposal hook
/// subscribers.
pub open spec fn proposal_hooks_only(before: State, after: State) -> bool {
    &&& after.config == before.config
    &&& after.creation_policy == before.creation_policy
    &&& after.proposals == before.proposals
    &&& after.vote_hooks == before.vote_hooks
}

/// Whether `after` differs from `before` at most in the vote hook
/// subscribers.
pub open spec fn vote_hooks_only(before: State, after: State) -> bool {
    &&& after.config == before.config
    &&& after.creation_policy == before.creation_policy
    &&& after.proposals == before.proposals
    &&& after.proposal_hooks == before.proposal_hooks
}

/// Tests the settings of a configuration.
pub fn check_settings(
    threshold: &Threshold,
    max_voting_period: &Duration,
    min_voting_period: &Option<Duration>,
    veto: &Option<VetoConfig>,
) -> (r: Result<(), ContractError>)
    ensures
        r == spec_check_settings(*threshold, *max_voting_period, *min_voting_period, *veto),
        r is Ok ==> threshold.valid(),
{
    if let Err(e) = threshold.validate() {
        return Err(ContractError::Threshold(e));
    }
    if let Err(e) = validate_voting_period(*min_voting_period, *max_voting_period) {
        return Err(ContractError::Voting(e));
    }
    match veto {
        Some(v) => match v.validate(max_voting_period) {
            Ok(_) => Ok(()),
            Err(e) => Err(ContractError::Veto(e)),
        },
        None => Ok(()),
    }
}

/// Sets the module up for the organization `sender`. It starts without
/// proposals and without hook subscribers; anyone may propose until a module
/// that creates proposals has been instantiated.
pub fn instantiate(sender: String, msg: InstantiateMsg) -> (r: Result<
    (State, Vec<SubMsg>),
    ContractError,
>)
    ensures
        match spec_check_settings(
            msg.threshold,
            msg.max_voting_period,
            msg.min_voting_period,
            msg.veto,
        ) {
            Err(e) => r == Err::<(State, Vec<SubMsg>), ContractError>(e),
            Ok(_) => {
                &&& r is Ok
                &&& r->Ok_0.0.wf()
                &&& r->Ok_0.0.config == (Config {
                    threshold: msg.threshold,
                    max_voting_period: msg.max_voting_period,
                    min_voting_period: msg.min_voting_period,
                    only_members_execute: msg.only_members_execute,
                    allow_revoting: msg.allow_revoting,
                    dao: sender,
                    close_proposal_on_execution_failure: msg.close_proposal_on_execution_failure,
                    veto: msg.veto,
                })
                &&& r->Ok_0.0.creation_policy == ProposalCreationPolicy::Anyone
                &&& r->Ok_0.0.proposals@.len() == 0
                &&& r->Ok_0.0.proposal_hooks.subscribers@.len() == 0
                &&& r->Ok_0.0.vote_hooks.subscribers@.len() == 0
                &&& r->Ok_0.1@ == msg.pre_propose_info.spec_messages(sender)
            },
        },
{
    if let Err(e) = check_settings(
        &msg.threshold,
        &msg.max_voting_period,
        &msg.min_voting_period,
        &msg.veto,
    ) {
        return Err(e);
    }
    let (creation_policy, messages) = msg.pre_propose_info.into_initial_policy_and_messages(
        sender.clone(),
    );
    let state = State {
        config: Config {
            threshold: msg.threshold,
            max_voting_period: msg.max_voting_period,
            min_voting_period: msg.min_voting_period,
            only_members_execute: msg.only_members_execute,
            allow_revoting: msg.allow_revoting,
            dao: sender,
            close_proposal_on_execution_failure: msg.close_proposal_on_execution_failure,
            veto: msg.veto,
        },
        creation_policy,
        proposals: Vec::new(),
        proposal_hooks: Hooks::new(),
        vote_hooks: Hooks::new(),
    };
    Ok((state, messages))
}

/// Replaces the configuration. Only the organization may do so. Proposals
/// that exist keep the settings they were created with.
pub fn execute_update_config(state: &mut State, sender: &String, config: Config) -> (r: Result<
    (),
    ContractError,
>)
    requires
        old(state).wf(),
    ensures
        final(state).wf(),
        config_updated(r, *old(state), *final(state), sender@, config),
{
    if *sender != state.config.dao {
        return Err(ContractError::Unauthorized);
    }
    if let Err(e) = check_settings(
        &config.threshold,
        &config.max_voting_period,
        &config.min_voting_period,
        &config.veto,
    ) {
        return Err(e);
    }
    state.config = config;
    Ok(())
}

/// Replaces the policy on who may create proposals. Only the organization may
/// do so. Anyone may propose until the module named in `new_info`, if any,
/// has been instantiated.
pub fn execute_update_proposal_creation_policy(state: &mut State, sender: &String, new_info: PreProposeInfo) -> (r:
    Result<Vec<SubMsg>, ContractError>)
    requires
        old(state).wf(),
    ensures
        final(state).wf(),
        policy_updated(r, *old(state), *final(state), sender@, new_info),
{
    if state.config.dao != *sender {
        return Err(ContractError::Unauthorized);
    }
    let (policy, messages) = new_info.into_initial_policy_and_messages(state.config.dao.clone());
    state.creation_policy = policy;
    Ok(messages)
}

/// Adds `validated_address` to `hooks`.
pub fn add_hook(hooks: &mut Hooks, validated_address: String) -> (r: Result<(), ContractError>)
    ensures
        hook_added(r, *old(hooks), *final(hooks), validated_address),
{
    match hooks.add_hook(validated_address) {
        Ok(_) => Ok(()),
        Err(e) => Err(ContractError::Hook(e)),
    }
}

/// Strikes `validated_address` from `hooks`.
pub fn remove_hook(hooks: &mut Hooks, validated_address: &String) -> (r: Result<(), ContractError>)
    ensures
        hook_removed(r, *old(hooks), *final(hooks), validated_address@),
{
    match hooks.remove_hook(validated_address) {
        Ok(_) => Ok(()),
        Err(e) => Err(ContractError::Hook(e)),
    }
}

/// Subscribes `address` to new proposals and status changes. Only the
/// organization may do so.
pub fn execute_add_proposal_hook(state: &mut State, sender: &String, address: String) -> (r: Result<
    (),
    ContractError,
>)
    requires
        old(state).wf(),
    ensures
        final(state).wf(),
        r is Err ==> *final(state) == *old(state),
        !is_owner(*old(state), sender@) ==> r == Err::<(), ContractError>(
            ContractError::Unauthorized,
        ),
        is_owner(*old(state), sender@) ==> hook_added(
            r,
            old(state).proposal_hooks,
            final(state).proposal_hooks,
            address,
        ) && proposal_hooks_only(*old(state), *final(state)),
{
    if state.config.dao != *sender {
        return Err(ContractError::Unauthorized);
    }
    add_hook(&mut state.proposal_hooks, address)
}

/// Ends the subscription of `address` to new proposals and status changes.
/// Only the organization may do so.
pub fn execute_remove_proposal_hook(state: &mut State, sender: &String, address: &String) -> (r:
    Result<(), ContractError>)
    requires
        old(state).wf(),
    ensures
        final(state).wf(),
        r is Err ==> *final(state) == *old(state),
        !is_owner(*old(state), sender@) ==> r == Err::<(), ContractError>(
            ContractError::Unauthorized,
        ),
        is_owner(*old(state), sender@) ==> hook_removed(
            r,
            old(state).proposal_hooks,
            final(state).proposal_hooks,
            address@,
        ) && proposal_hooks_only(*old(state), *final(state)),
{
    if state.config.dao != *sender {
        return Err(ContractError::Unauthorized);
    }
    remove_hook(&mut state.proposal_hooks, address)
}

/// Subscribes `address` to votes. Only the organization may do so.
pub fn execute_add_vote_hook(state: &mut State, sender: &String, address: String) -> (r: Result<
    (),
    ContractError,
>)
    requires
        old(state).wf(),
    ensures
        final(state).wf(),
        r is Err ==> *final(state) == *old(state),
        !is_owner(*old(state), sender@) ==> r == Err::<(), ContractError>(
            ContractError::Unauthorized,
        ),
        is_owner(*old(state), sender@) ==> hook_added(
            r,
            old(state).vote_hooks,
            final(state).vote_hooks,
            address,
        ) && vote_hooks_only(*old(state), *final(state)),
{
    if state.config.dao != *sender {
        return Err(ContractError::Unauthorized);
    }
    add_hook(&mut state.vote_hooks, address)
}

/// Ends the subscription of `address` to votes. Only the organization may do
/// so.
pub fn execute_remove_vote_hook(state: &mut State, sender: &String, address: &String) -> (r: Result<
    (),
    ContractError,
>)
    requires
        old(state).wf(),
    ensures
        final(state).wf(),
        r is Err ==> *final(state) == *old(state),
        !is_owner(*old(state), sender@) ==> r == Err::<(), ContractError>(
            ContractError::Unauthorized,
        ),
        is_owner(*old(state), sender@) ==> hook_removed(
            r,
            old(state).vote_hooks,
            final(state).vote_hooks,
            address@,
        ) && vote_hooks_only(*old(state), *final(state)),
{
    if state.config.dao != *sender {
        return Err(ContractError::Unauthorized);
    }
    remove_hook(&mut state.vote_hooks, address)
}

} // verus!
