use dao_proposal_single_instant::error::{ContractError, HookError};
use dao_proposal_single_instant::hooks::{
    new_proposal_hooks, new_vote_hooks, proposal_completed_hooks, proposal_status_changed_hooks,
    Hooks,
};
use dao_proposal_single_instant::msg::{
    Admin, Coin, ExecuteBody, ModuleInstantiateInfo, PreProposeInfo, ProposalCreationPolicy,
    ProposalHookMsg, ReplyOn, SubMsg, VoteHookMsg, WasmMsg,
};
use dao_proposal_single_instant::reply::{
    failed_pre_propose_module_hook_id, mask_proposal_execution_proposal_id,
    mask_proposal_hook_index, mask_vote_hook_index, pre_propose_module_instantiation_id,
    TaggedReplyId,
};
use dao_proposal_single_instant::status::Status;
use dao_proposal_single_instant::votes::Vote;

fn who(name: &str) -> String {
    name.to_string()
}

fn hooks(names: &[&str]) -> Hooks {
    Hooks { subscribers: names.iter().map(|n| n.to_string()).collect() }
}

#[test]
fn test_hooks() {
    let mut h = Hooks::new();
    assert_eq!(h.hook_count(), 0);
    assert_eq!(h.add_hook(who("ekez")), Ok(()));
    assert_eq!(h.add_hook(who("meow")), Ok(()));
    assert_eq!(h.hook_count(), 2);
    assert_eq!(h.query_hooks(), vec![who("ekez"), who("meow")]);
    assert_eq!(h.add_hook(who("ekez")), Err(HookError::HookAlreadyRegistered));
    assert_eq!(h.remove_hook(&who("ekez")), Ok(()));
    assert_eq!(h.query_hooks(), vec![who("meow")]);
    assert_eq!(h.remove_hook(&who("ekez")), Err(HookError::HookNotRegistered));
    assert_eq!(h.remove_hook_by_index(0), Ok(who("meow")));
    assert_eq!(h.hook_count(), 0);
    assert_eq!(h.remove_hook_by_index(0), Err(HookError::HookNotRegistered));
}

#[test]
fn removing_by_place_moves_the_rest_up() {
    let mut h = hooks(&["a", "b", "c"]);
    assert_eq!(h.remove_hook_by_index(1), Ok(who("b")));
    assert_eq!(h.query_hooks(), vec![who("a"), who("c")]);
    assert_eq!(h.remove_hook_by_index(2), Err(HookError::HookNotRegistered));
    assert_eq!(h.remove_hook_by_index(u64::MAX), Err(HookError::HookNotRegistered));
    assert_eq!(h.position(&who("c")), Some(1));
    assert_eq!(h.position(&who("b")), None);
}

#[test]
fn new_proposal_messages() {
    let h = hooks(&["a", "b"]);
    let msgs = new_proposal_hooks(&h, 7, &who("ann"));
    let body = |contract: &str| WasmMsg::Execute {
        contract_addr: who(contract),
        msg: ExecuteBody::ProposalHook(ProposalHookMsg::NewProposal { id: 7, proposer: who("ann") }),
    };
    assert_eq!(
        msgs,
        vec![
            SubMsg { id: 1, reply_on: ReplyOn::Error, msg: body("a") },
            SubMsg { id: 9, reply_on: ReplyOn::Error, msg: body("b") },
        ]
    );
    assert_eq!(new_proposal_hooks(&Hooks::new(), 7, &who("ann")), vec![]);
}

#[test]
fn status_changed_messages() {
    let h = hooks(&["a", "b"]);
    let msgs = proposal_status_changed_hooks(&h, 3, Status::Open, Status::Passed);
    let body = |contract: &str| WasmMsg::Execute {
        contract_addr: who(contract),
        msg: ExecuteBody::ProposalHook(ProposalHookMsg::ProposalStatusChanged {
            id: 3,
            old_status: Status::Open,
            new_status: Status::Passed,
        }),
    };
    assert_eq!(
        msgs,
        vec![
            SubMsg { id: 1, reply_on: ReplyOn::Error, msg: body("a") },
            SubMsg { id: 9, reply_on: ReplyOn::Error, msg: body("b") },
        ]
    );
    // nothing is told where nothing has changed
    assert_eq!(proposal_status_changed_hooks(&h, 3, Status::Open, Status::Open), vec![]);
}

#[test]
fn new_vote_messages() {
    let h = hooks(&["a", "b", "c"]);
    let msgs = new_vote_hooks(&h, 3, &who("ann"), Vote::No);
    assert_eq!(msgs.len(), 3);
    assert_eq!(msgs[0].id, 2);
    assert_eq!(msgs[1].id, 10);
    assert_eq!(msgs[2].id, 18);
    assert_eq!(
        msgs[2],
        SubMsg {
            id: 18,
            reply_on: ReplyOn::Error,
            msg: WasmMsg::Execute {
                contract_addr: who("c"),
                msg: ExecuteBody::VoteHook(VoteHookMsg::NewVote {
                    proposal_id: 3,
                    voter: who("ann"),
                    vote: Vote::No,
                }),
            },
        }
    );
}

#[test]
fn completed_messages() {
    assert_eq!(
        proposal_completed_hooks(&ProposalCreationPolicy::Anyone, 3, Status::Closed),
        vec![]
    );
    assert_eq!(
        proposal_completed_hooks(
            &ProposalCreationPolicy::Module { addr: who("module") },
            3,
            Status::Closed
        ),
        vec![SubMsg {
            id: 4,
            reply_on: ReplyOn::Error,
            msg: WasmMsg::Execute {
                contract_addr: who("module"),
                msg: ExecuteBody::ProposalCompletedHook { proposal_id: 3, new_status: Status::Closed },
            },
        }]
    );
}

#[test]
fn tags_round_trip() {
    assert_eq!(mask_proposal_execution_proposal_id(5), 40);
    assert_eq!(mask_proposal_hook_index(5), 41);
    assert_eq!(mask_vote_hook_index(5), 42);
    assert_eq!(pre_propose_module_instantiation_id(), 3);
    assert_eq!(failed_pre_propose_module_hook_id(), 4);
    for value in [0u64, 1, 5, 1 << 40, (1 << 61) - 1] {
        assert_eq!(
            TaggedReplyId::new(mask_proposal_execution_proposal_id(value)),
            Ok(TaggedReplyId::FailedProposalExecution(value))
        );
        assert_eq!(
            TaggedReplyId::new(mask_proposal_hook_index(value)),
            Ok(TaggedReplyId::FailedProposalHook(value))
        );
        assert_eq!(
            TaggedReplyId::new(mask_vote_hook_index(value)),
            Ok(TaggedReplyId::FailedVoteHook(value))
        );
    }
    assert_eq!(TaggedReplyId::new(3), Ok(TaggedReplyId::PreProposeModuleInstantiation));
    assert_eq!(TaggedReplyId::new(4), Ok(TaggedReplyId::FailedPreProposeModuleHook));
}

#[test]
fn unknown_tags_are_refused() {
    for id in [5u64, 6, 7, 13, 15, u64::MAX] {
        assert_eq!(TaggedReplyId::new(id), Err(ContractError::InvalidReplyId { id }));
    }
}

#[test]
fn tags_lose_the_highest_bits() {
    assert_eq!(
        TaggedReplyId::new(mask_proposal_hook_index(1 << 61)),
        Ok(TaggedReplyId::FailedProposalHook(0))
    );
}

#[test]
fn creation_policy_permits() {
    assert!(ProposalCreationPolicy::Anyone.is_permitted(&who("ekez")));
    let policy = ProposalCreationPolicy::Module { addr: who("deposit_module") };
    assert!(!policy.is_permitted(&who("ekez")));
    assert!(policy.is_permitted(&who("deposit_module")));
}

#[test]
fn pre_propose_info_to_policy() {
    let (policy, msgs) = PreProposeInfo::AnyoneMayPropose.into_initial_policy_and_messages(who("dao"));
    assert_eq!(policy, ProposalCreationPolicy::Anyone);
    assert_eq!(msgs, vec![]);

    let info = |admin: Option<Admin>| ModuleInstantiateInfo {
        code_id: 42,
        msg: who("{\"foo\":1}"),
        admin,
        funds: vec![Coin { denom: who("uosmo"), amount: 9 }],
        label: who("pre-propose"),
    };
    let expect = |admin: Option<String>| SubMsg {
        id: 3,
        reply_on: ReplyOn::Success,
        msg: WasmMsg::Instantiate {
            admin,
            code_id: 42,
            msg: who("{\"foo\":1}"),
            funds: vec![Coin { denom: who("uosmo"), amount: 9 }],
            label: who("pre-propose"),
        },
    };
    let (policy, msgs) = PreProposeInfo::ModuleMayPropose { info: info(None) }
        .into_initial_policy_and_messages(who("dao"));
    // anyone may propose until the module exists
    assert_eq!(policy, ProposalCreationPolicy::Anyone);
    assert_eq!(msgs, vec![expect(None)]);
    let (_, msgs) = PreProposeInfo::ModuleMayPropose { info: info(Some(Admin::CoreModule)) }
        .into_initial_policy_and_messages(who("dao"));
    assert_eq!(msgs, vec![expect(Some(who("dao")))]);
    let (_, msgs) = PreProposeInfo::ModuleMayPropose {
        info: info(Some(Admin::Address { addr: who("admin") })),
    }
    .into_initial_policy_and_messages(who("dao"));
    assert_eq!(msgs, vec![expect(Some(who("admin")))]);
}
