use dao_proposal_single_instant::admin::{instantiate, InstantiateMsg};
use dao_proposal_single_instant::ballot::{Ballot, BallotEntry, BallotLedger};
use dao_proposal_single_instant::dispatch::{
    execute, query, ExecuteMsg, ExecuteResponse, ProposeMsg, QueryMsg, QueryResponse,
};
use dao_proposal_single_instant::electorate::{Electorate, Member};
use dao_proposal_single_instant::error::ContractError;
use dao_proposal_single_instant::migrate::{
    holds_a_deposit, migrate, migrate_proposal, migrate_proposals, v1_status_to_v2, MigrateMsg,
    V1Config,
    V1Proposal, V1Status,
};
use dao_proposal_single_instant::msg::{PreProposeInfo, ProposalCreationPolicy};
use dao_proposal_single_instant::poll::ProposalRecord;
use dao_proposal_single_instant::proposal::SingleChoiceProposal;
use dao_proposal_single_instant::query::{
    order_of_bytes, query_config, query_creation_policy, query_dao, query_list_proposals,
    query_list_votes, ByteOrder,
    query_next_proposal_id, query_proposal, query_proposal_count, query_proposal_hooks,
    query_reverse_proposals, query_vote, query_vote_hooks, ProposalResponse, VoteInfo,
};
use dao_proposal_single_instant::state::State;
use dao_proposal_single_instant::status::Status;
use dao_proposal_single_instant::threshold::{PercentageThreshold, Threshold};
use dao_proposal_single_instant::time::{BlockInfo, Duration, Expiration, TimeError};
use dao_proposal_single_instant::veto::{VetoConfig, VetoError};
use dao_proposal_single_instant::votes::{Vote, Votes};

fn who(name: &str) -> String {
    name.to_string()
}

fn block(height: u64) -> BlockInfo {
    BlockInfo { height, time_nanos: 0 }
}

fn majority() -> Threshold {
    Threshold::AbsolutePercentage { percentage: PercentageThreshold::Majority }
}

fn proposal(title: &str, votes: Votes) -> SingleChoiceProposal {
    SingleChoiceProposal {
        title: who(title),
        description: who("description"),
        proposer: who("proposer"),
        start_height: 10,
        min_voting_period: None,
        expiration: Expiration::AtHeight(20),
        threshold: majority(),
        total_power: 100,
        msgs: vec![],
        status: Status::Open,
        votes,
        allow_revoting: false,
        veto: None,
    }
}

fn entry(voter: &str, power: u128, vote: Vote) -> BallotEntry {
    BallotEntry { voter: who(voter), ballot: Ballot { power, vote, rationale: None } }
}

fn record(title: &str, entries: Vec<BallotEntry>) -> ProposalRecord {
    let ledger = BallotLedger { entries };
    let votes = ledger.tally().unwrap();
    ProposalRecord { proposal: proposal(title, votes), ballots: ledger }
}

fn state(n: usize) -> State {
    let msg = InstantiateMsg {
        threshold: majority(),
        max_voting_period: Duration::Height(10),
        min_voting_period: None,
        only_members_execute: false,
        allow_revoting: false,
        pre_propose_info: PreProposeInfo::AnyoneMayPropose,
        close_proposal_on_execution_failure: true,
        veto: None,
    };
    let mut state = instantiate(who("dao"), msg).unwrap().0;
    for i in 0..n {
        state.proposals.push(record(&format!("number {}", i + 1), vec![]));
    }
    assert!(state.is_well_formed());
    state
}

fn ids(list: &[ProposalResponse]) -> Vec<u64> {
    list.iter().map(|r| r.id).collect()
}

#[test]
fn settings_are_shown() {
    let mut s = state(0);
    s.proposal_hooks.add_hook(who("a")).unwrap();
    s.vote_hooks.add_hook(who("b")).unwrap();
    assert_eq!(query_config(&s), s.config);
    assert_eq!(query_dao(&s), who("dao"));
    assert_eq!(query_creation_policy(&s), ProposalCreationPolicy::Anyone);
    assert_eq!(query_proposal_hooks(&s), vec![who("a")]);
    assert_eq!(query_vote_hooks(&s), vec![who("b")]);
    assert_eq!(query_proposal_count(&s), 0);
    assert_eq!(query_next_proposal_id(&s), Some(1));
    let s = state(3);
    assert_eq!(query_proposal_count(&s), 3);
    assert_eq!(query_next_proposal_id(&s), Some(4));
}

#[test]
fn proposal_is_shown_with_its_current_status() {
    let mut s = state(2);
    s.proposals[1] = record("two", vec![entry("ann", 51, Vote::Yes)]);
    let shown = query_proposal(&s, &block(11), 2).unwrap();
    assert_eq!(shown.id, 2);
    assert_eq!(shown.proposal.status, Status::Passed);
    assert_eq!(shown.proposal.title, who("two"));
    assert_eq!(shown.proposal.votes, Votes { yes: 51, no: 0, abstain: 0 });
    // the query has not touched what is stored
    assert_eq!(s.proposals[1].proposal.status, Status::Open);
    let shown = query_proposal(&s, &block(20), 1).unwrap();
    assert_eq!(shown.proposal.status, Status::Rejected);
    assert_eq!(query_proposal(&s, &block(11), 3), Err(ContractError::NoSuchProposal { id: 3 }));
    assert_eq!(query_proposal(&s, &block(11), 0), Err(ContractError::NoSuchProposal { id: 0 }));
}

#[test]
fn proposals_are_listed_upwards() {
    let s = state(5);
    let b = block(11);
    assert_eq!(ids(&query_list_proposals(&s, &b, None, None).unwrap()), vec![1, 2, 3, 4, 5]);
    assert_eq!(ids(&query_list_proposals(&s, &b, Some(2), None).unwrap()), vec![3, 4, 5]);
    assert_eq!(ids(&query_list_proposals(&s, &b, Some(2), Some(2)).unwrap()), vec![3, 4]);
    assert_eq!(ids(&query_list_proposals(&s, &b, Some(0), Some(1)).unwrap()), vec![1]);
    assert_eq!(ids(&query_list_proposals(&s, &b, None, Some(0)).unwrap()), Vec::<u64>::new());
    assert_eq!(ids(&query_list_proposals(&s, &b, Some(5), None).unwrap()), Vec::<u64>::new());
    assert_eq!(ids(&query_list_proposals(&s, &b, Some(u64::MAX), None).unwrap()), Vec::<u64>::new());
    assert_eq!(ids(&query_list_proposals(&s, &b, Some(4), Some(u64::MAX)).unwrap()), vec![5]);
}

#[test]
fn list_has_a_default_limit() {
    let s = state(40);
    let listed = query_list_proposals(&s, &block(11), None, None).unwrap();
    assert_eq!(listed.len(), 30);
    assert_eq!(listed[29].id, 30);
    let listed = query_reverse_proposals(&s, &block(11), None, None).unwrap();
    assert_eq!(listed.len(), 30);
    assert_eq!(listed[0].id, 40);
    assert_eq!(listed[29].id, 11);
}

#[test]
fn proposals_are_listed_downwards() {
    let s = state(5);
    let b = block(11);
    assert_eq!(ids(&query_reverse_proposals(&s, &b, None, None).unwrap()), vec![5, 4, 3, 2, 1]);
    assert_eq!(ids(&query_reverse_proposals(&s, &b, Some(4), None).unwrap()), vec![3, 2, 1]);
    assert_eq!(ids(&query_reverse_proposals(&s, &b, Some(4), Some(2)).unwrap()), vec![3, 2]);
    assert_eq!(ids(&query_reverse_proposals(&s, &b, Some(1), None).unwrap()), Vec::<u64>::new());
    assert_eq!(ids(&query_reverse_proposals(&s, &b, Some(0), None).unwrap()), Vec::<u64>::new());
    assert_eq!(ids(&query_reverse_proposals(&s, &b, Some(99), Some(2)).unwrap()), vec![5, 4]);
    assert_eq!(ids(&query_reverse_proposals(&s, &b, None, Some(0)).unwrap()), Vec::<u64>::new());
}

#[test]
fn list_fails_with_the_first_proposal_that_cannot_be_shown() {
    let mut s = state(3);
    s.proposals[1] = record("two", vec![entry("ann", 51, Vote::Yes)]);
    s.proposals[1].proposal.veto = Some(VetoConfig {
        timelock_duration: Duration::Time(5),
        vetoer: who("vetoer"),
        early_execute: false,
        veto_before_passed: false,
    });
    let b = block(11);
    assert_eq!(
        query_list_proposals(&s, &b, None, None),
        Err(ContractError::Time(TimeError::UnitMismatch))
    );
    assert_eq!(
        query_reverse_proposals(&s, &b, None, None),
        Err(ContractError::Time(TimeError::UnitMismatch))
    );
    assert_eq!(ids(&query_list_proposals(&s, &b, Some(2), None).unwrap()), vec![3]);
    assert_eq!(ids(&query_list_proposals(&s, &b, None, Some(1)).unwrap()), vec![1]);
    assert_eq!(ids(&query_reverse_proposals(&s, &b, Some(2), None).unwrap()), vec![1]);
}

#[test]
fn votes_are_shown() {
    let mut s = state(2);
    s.proposals[0] = record(
        "one",
        vec![entry("ann", 10, Vote::Yes), entry("bob", 5, Vote::No), entry("cat", 1, Vote::Abstain)],
    );
    assert_eq!(
        query_vote(&s, 1, &who("bob")),
        Some(VoteInfo { voter: who("bob"), vote: Vote::No, power: 5, rationale: None })
    );
    assert_eq!(query_vote(&s, 1, &who("dan")), None);
    assert_eq!(query_vote(&s, 2, &who("bob")), None);
    assert_eq!(query_vote(&s, 3, &who("bob")), None);
    let voters = |list: Vec<VoteInfo>| list.into_iter().map(|v| v.voter).collect::<Vec<String>>();
    assert_eq!(voters(query_list_votes(&s, 1, None, None)), vec![who("ann"), who("bob"), who("cat")]);
    assert_eq!(voters(query_list_votes(&s, 1, None, Some(2))), vec![who("ann"), who("bob")]);
    assert_eq!(voters(query_list_votes(&s, 1, Some(who("ann")), None)), vec![who("bob"), who("cat")]);
    assert_eq!(voters(query_list_votes(&s, 1, Some(who("ann")), Some(1))), vec![who("bob")]);
    assert_eq!(voters(query_list_votes(&s, 1, Some(who("cat")), None)), Vec::<String>::new());
    assert_eq!(voters(query_list_votes(&s, 1, Some(who("dan")), None)), Vec::<String>::new());
    assert_eq!(voters(query_list_votes(&s, 2, None, None)), Vec::<String>::new());
    assert_eq!(voters(query_list_votes(&s, 9, None, None)), Vec::<String>::new());
    assert_eq!(
        query_list_votes(&s, 1, Some(who("bob")), None),
        vec![VoteInfo { voter: who("cat"), vote: Vote::Abstain, power: 1, rationale: None }]
    );
}

#[test]
fn queries_by_message() {
    let mut s = state(2);
    s.proposals[0] = record("one", vec![entry("ann", 10, Vote::Yes)]);
    let b = block(11);
    assert_eq!(query(&s, &b, QueryMsg::Config), Ok(QueryResponse::Config(s.config.clone())));
    assert_eq!(query(&s, &b, QueryMsg::Dao), Ok(QueryResponse::Dao(who("dao"))));
    assert_eq!(query(&s, &b, QueryMsg::ProposalCount), Ok(QueryResponse::ProposalCount(2)));
    assert_eq!(query(&s, &b, QueryMsg::NextProposalId), Ok(QueryResponse::NextProposalId(Some(3))));
    assert_eq!(
        query(&s, &b, QueryMsg::ProposalCreationPolicy),
        Ok(QueryResponse::CreationPolicy(ProposalCreationPolicy::Anyone))
    );
    assert_eq!(query(&s, &b, QueryMsg::ProposalHooks), Ok(QueryResponse::Hooks(vec![])));
    assert_eq!(query(&s, &b, QueryMsg::VoteHooks), Ok(QueryResponse::Hooks(vec![])));
    assert_eq!(
        query(&s, &b, QueryMsg::Proposal { proposal_id: 1 }),
        Ok(QueryResponse::Proposal(query_proposal(&s, &b, 1).unwrap()))
    );
    assert_eq!(
        query(&s, &b, QueryMsg::Proposal { proposal_id: 7 }),
        Err(ContractError::NoSuchProposal { id: 7 })
    );
    assert_eq!(
        query(&s, &b, QueryMsg::ListProposals { start_after: Some(1), limit: None }),
        Ok(QueryResponse::Proposals(query_list_proposals(&s, &b, Some(1), None).unwrap()))
    );
    assert_eq!(
        query(&s, &b, QueryMsg::ReverseProposals { start_before: None, limit: Some(1) }),
        Ok(QueryResponse::Proposals(query_reverse_proposals(&s, &b, None, Some(1)).unwrap()))
    );
    assert_eq!(
        query(&s, &b, QueryMsg::GetVote { proposal_id: 1, voter: who("ann") }),
        Ok(QueryResponse::Vote(Some(VoteInfo {
            voter: who("ann"),
            vote: Vote::Yes,
            power: 10,
            rationale: None
        })))
    );
    assert_eq!(
        query(&s, &b, QueryMsg::ListVotes { proposal_id: 1, start_after: None, limit: None }),
        Ok(QueryResponse::Votes(query_list_votes(&s, 1, None, None)))
    );
}

#[test]
fn commands_by_message() {
    let mut s = state(1);
    let b = block(11);
    let electorate = Electorate {
        active: true,
        total_power: 100,
        members: vec![Member { addr: who("ann"), weight: 51 }],
        group: vec![],
    };
    let voted = execute(
        &mut s,
        &b,
        &who("ann"),
        ExecuteMsg::Vote { proposal_id: 1, vote: Vote::Yes, rationale: None },
        &electorate,
    )
    .unwrap();
    match voted {
        ExecuteResponse::Voted(response) => assert_eq!(response.status, Status::Passed),
        other => panic!("{:?}", other),
    }
    assert_eq!(
        execute(
            &mut s,
            &b,
            &who("ann"),
            ExecuteMsg::UpdateRationale { proposal_id: 1, rationale: Some(who("why")) },
            &electorate
        ),
        Ok(ExecuteResponse::Done)
    );
    assert_eq!(
        execute(&mut s, &b, &who("ann"), ExecuteMsg::Close { proposal_id: 1 }, &electorate),
        Err(ContractError::WrongCloseStatus)
    );
    assert_eq!(
        execute(&mut s, &b, &who("ann"), ExecuteMsg::Veto { proposal_id: 1 }, &electorate),
        Err(ContractError::Veto(VetoError::NoVetoConfiguration))
    );
    match execute(&mut s, &b, &who("ann"), ExecuteMsg::Execute { proposal_id: 1 }, &electorate) {
        Ok(ExecuteResponse::Dispatched(response)) => assert_eq!(response.messages, vec![]),
        other => panic!("{:?}", other),
    }
    assert_eq!(s.proposals[0].proposal.status, Status::Executed);
    assert_eq!(
        execute(
            &mut s,
            &b,
            &who("ann"),
            ExecuteMsg::AddProposalHook { address: who("watcher") },
            &electorate
        ),
        Err(ContractError::Unauthorized)
    );
    for msg in [
        ExecuteMsg::AddProposalHook { address: who("watcher") },
        ExecuteMsg::AddVoteHook { address: who("counter") },
        ExecuteMsg::RemoveProposalHook { address: who("watcher") },
        ExecuteMsg::RemoveVoteHook { address: who("counter") },
    ] {
        assert_eq!(execute(&mut s, &b, &who("dao"), msg, &electorate), Ok(ExecuteResponse::Done));
    }
    assert_eq!(
        execute(
            &mut s,
            &b,
            &who("dao"),
            ExecuteMsg::UpdateConfig {
                threshold: Threshold::AbsoluteCount { threshold: 3 },
                max_voting_period: Duration::Time(60),
                min_voting_period: None,
                only_members_execute: true,
                allow_revoting: true,
                dao: who("dao2"),
                close_proposal_on_execution_failure: false,
                veto: None,
            },
            &electorate
        ),
        Ok(ExecuteResponse::Done)
    );
    assert_eq!(s.config.dao, who("dao2"));
    assert_eq!(s.config.threshold, Threshold::AbsoluteCount { threshold: 3 });
    match execute(
        &mut s,
        &b,
        &who("dao2"),
        ExecuteMsg::UpdatePreProposeInfo { info: PreProposeInfo::AnyoneMayPropose },
        &electorate,
    ) {
        Ok(ExecuteResponse::Dispatched(response)) => assert_eq!(response.messages, vec![]),
        other => panic!("{:?}", other),
    }
    assert_eq!(
        execute(
            &mut s,
            &b,
            &who("ann"),
            ExecuteMsg::Propose(ProposeMsg {
                title: who("t"),
                description: who("d"),
                msgs: vec![who("{}"), who("{}")],
                proposer: None,
                vote_signatures: vec![],
            }),
            &electorate
        ),
        Err(ContractError::TooManyMsgs)
    );
}

fn old_proposal(status: V1Status, deposit: Option<u128>, msgs: Vec<String>) -> V1Proposal {
    V1Proposal {
        title: who("old"),
        description: who("from before"),
        proposer: who("ann"),
        start_height: 3,
        min_voting_period: None,
        expiration: Expiration::AtTime(77),
        threshold: majority(),
        total_power: 9,
        msgs,
        status,
        votes: Votes { yes: 1, no: 2, abstain: 3 },
        allow_revoting: true,
        deposit,
    }
}

fn old_config() -> V1Config {
    V1Config {
        threshold: majority(),
        max_voting_period: Duration::Time(600),
        min_voting_period: Some(Duration::Time(60)),
        only_members_execute: true,
        allow_revoting: false,
        dao: who("dao"),
    }
}

#[test]
fn old_states_are_mapped() {
    assert_eq!(v1_status_to_v2(V1Status::Open), Status::Open);
    assert_eq!(v1_status_to_v2(V1Status::Rejected), Status::Rejected);
    assert_eq!(v1_status_to_v2(V1Status::Passed), Status::Passed);
    assert_eq!(v1_status_to_v2(V1Status::Executed), Status::Executed);
    assert_eq!(v1_status_to_v2(V1Status::Closed), Status::Closed);
}

#[test]
fn old_proposal_is_taken_over() {
    let migrated = migrate_proposal(&old_proposal(V1Status::Passed, None, vec![who("{}")])).unwrap();
    assert_eq!(
        migrated,
        SingleChoiceProposal {
            title: who("old"),
            description: who("from before"),
            proposer: who("ann"),
            start_height: 3,
            min_voting_period: None,
            expiration: Expiration::AtTime(77),
            threshold: majority(),
            total_power: 9,
            msgs: vec![who("{}")],
            status: Status::Passed,
            votes: Votes { yes: 1, no: 2, abstain: 3 },
            allow_revoting: true,
            veto: None,
        }
    );
    let migrated = migrate_proposal(&old_proposal(V1Status::Open, Some(0), vec![])).unwrap();
    assert_eq!(migrated.msgs, Vec::<String>::new());
}

#[test]
fn old_proposal_with_a_deposit_is_refused() {
    for status in [V1Status::Open, V1Status::Passed, V1Status::Rejected] {
        assert_eq!(
            migrate_proposal(&old_proposal(status, Some(5), vec![])),
            Err(ContractError::PendingProposals)
        );
    }
    for status in [V1Status::Closed, V1Status::Executed] {
        assert!(migrate_proposal(&old_proposal(status, Some(5), vec![])).is_ok());
    }
}

#[test]
fn old_proposal_with_several_messages_is_taken_over() {
    let old = old_proposal(V1Status::Passed, None, vec![who("{\"a\":1}"), who("{\"b\":2}"), who("{}")]);
    let taken = migrate_proposal(&old).unwrap();
    assert_eq!(taken.msgs, vec![who("{\"a\":1}"), who("{\"b\":2}"), who("{}")]);
    assert_eq!(taken.status, Status::Passed);
    assert_eq!(taken.title, who("old"));
    assert_eq!(taken.veto, None);
    // settled proposals keep their messages as well, deposit or not
    let old = old_proposal(V1Status::Executed, Some(5), vec![who("x"), who("y")]);
    assert_eq!(migrate_proposal(&old).unwrap().msgs, vec![who("x"), who("y")]);
}

#[test]
fn old_proposals_are_taken_over_in_order() {
    let list = vec![
        (4, old_proposal(V1Status::Closed, Some(5), vec![])),
        (9, old_proposal(V1Status::Open, None, vec![who("{}")])),
    ];
    let migrated = migrate_proposals(&list).unwrap();
    assert_eq!(migrated.len(), 2);
    assert_eq!(migrated[0].0, 4);
    assert_eq!(migrated[0].1.status, Status::Closed);
    assert_eq!(migrated[1].0, 9);
    assert_eq!(migrated[1].1.msgs, vec![who("{}")]);
    // a held deposit further down is not hidden by another refusal before it
    let list = vec![
        (1, old_proposal(V1Status::Closed, None, vec![who("a"), who("b")])),
        (2, old_proposal(V1Status::Open, Some(1), vec![])),
    ];
    assert_eq!(migrate_proposals(&list), Err(ContractError::PendingProposals));
    // without a held deposit all are taken over, whatever they hold
    let list = vec![
        (1, old_proposal(V1Status::Closed, None, vec![])),
        (2, old_proposal(V1Status::Closed, Some(1), vec![who("a"), who("b")])),
        (3, old_proposal(V1Status::Open, Some(0), vec![who("c")])),
    ];
    let migrated = migrate_proposals(&list).unwrap();
    let shape: Vec<(u64, Vec<String>)> = migrated.into_iter().map(|(id, p)| (id, p.msgs)).collect();
    assert_eq!(
        shape,
        vec![(1, vec![]), (2, vec![who("a"), who("b")]), (3, vec![who("c")])]
    );
}

#[test]
fn held_deposits_are_recognised() {
    assert!(holds_a_deposit(&old_proposal(V1Status::Open, Some(1), vec![])));
    assert!(holds_a_deposit(&old_proposal(V1Status::Passed, Some(u128::MAX), vec![])));
    assert!(!holds_a_deposit(&old_proposal(V1Status::Open, Some(0), vec![])));
    assert!(!holds_a_deposit(&old_proposal(V1Status::Open, None, vec![])));
    assert!(!holds_a_deposit(&old_proposal(V1Status::Closed, Some(1), vec![])));
    assert!(!holds_a_deposit(&old_proposal(V1Status::Executed, Some(1), vec![])));
}

#[test]
fn votes_are_listed_by_address() {
    // the voters voted in another order than that of their addresses
    let mut s = state(1);
    s.proposals[0] = record(
        "one",
        vec![
            entry("cat", 1, Vote::Abstain),
            entry("ann", 10, Vote::Yes),
            entry("anna", 2, Vote::No),
            entry("bob", 5, Vote::No),
            entry("an", 3, Vote::Yes),
        ],
    );
    assert!(s.is_well_formed());
    let voters = |list: Vec<VoteInfo>| list.into_iter().map(|v| v.voter).collect::<Vec<String>>();
    let names = |names: &[&str]| names.iter().map(|n| n.to_string()).collect::<Vec<String>>();
    assert_eq!(
        voters(query_list_votes(&s, 1, None, None)),
        names(&["an", "ann", "anna", "bob", "cat"])
    );
    assert_eq!(voters(query_list_votes(&s, 1, None, Some(2))), names(&["an", "ann"]));
    assert_eq!(voters(query_list_votes(&s, 1, None, Some(0))), names(&[]));
    // a cursor that has voted
    assert_eq!(
        voters(query_list_votes(&s, 1, Some(who("ann")), None)),
        names(&["anna", "bob", "cat"])
    );
    assert_eq!(voters(query_list_votes(&s, 1, Some(who("ann")), Some(1))), names(&["anna"]));
    assert_eq!(voters(query_list_votes(&s, 1, Some(who("cat")), None)), names(&[]));
    // a cursor that has not voted: before all, between, behind all
    assert_eq!(
        voters(query_list_votes(&s, 1, Some(who("aaa")), None)),
        names(&["an", "ann", "anna", "bob", "cat"])
    );
    assert_eq!(
        voters(query_list_votes(&s, 1, Some(who("")), Some(3))),
        names(&["an", "ann", "anna"])
    );
    assert_eq!(voters(query_list_votes(&s, 1, Some(who("b")), None)), names(&["bob", "cat"]));
    assert_eq!(voters(query_list_votes(&s, 1, Some(who("annb")), Some(1))), names(&["bob"]));
    assert_eq!(voters(query_list_votes(&s, 1, Some(who("dan")), None)), names(&[]));
    // each is shown with the ballot that its voter cast
    assert_eq!(
        query_list_votes(&s, 1, Some(who("an")), Some(2)),
        vec![
            VoteInfo { voter: who("ann"), vote: Vote::Yes, power: 10, rationale: None },
            VoteInfo { voter: who("anna"), vote: Vote::No, power: 2, rationale: None },
        ]
    );
}

#[test]
fn byte_strings_are_ordered_as_in_a_dictionary() {
    assert_eq!(order_of_bytes(b"", b""), ByteOrder::Same);
    assert_eq!(order_of_bytes(b"", b"a"), ByteOrder::Before);
    assert_eq!(order_of_bytes(b"a", b""), ByteOrder::After);
    assert_eq!(order_of_bytes(b"ann", b"ann"), ByteOrder::Same);
    assert_eq!(order_of_bytes(b"ann", b"anna"), ByteOrder::Before);
    assert_eq!(order_of_bytes(b"anna", b"ann"), ByteOrder::After);
    assert_eq!(order_of_bytes(b"anz", b"anna"), ByteOrder::After);
    assert_eq!(order_of_bytes(b"Z", b"a"), ByteOrder::Before);
    assert_eq!(order_of_bytes(&[0x7f], &[0x80]), ByteOrder::Before);
    assert_eq!(order_of_bytes(&[0xff], &[0x00, 0xff]), ByteOrder::After);
}

#[test]
fn migration_from_the_first_version() {
    let from_v1 = |veto: Option<VetoConfig>| MigrateMsg::FromV1 {
        close_proposal_on_execution_failure: true,
        pre_propose_info: PreProposeInfo::AnyoneMayPropose,
        veto,
    };
    let list = vec![(1, old_proposal(V1Status::Executed, Some(5), vec![]))];
    let migration = migrate(from_v1(None), false, old_config(), &list).unwrap().unwrap();
    assert_eq!(migration.config.threshold, majority());
    assert_eq!(migration.config.max_voting_period, Duration::Time(600));
    assert_eq!(migration.config.min_voting_period, Some(Duration::Time(60)));
    assert!(migration.config.only_members_execute);
    assert!(!migration.config.allow_revoting);
    assert!(migration.config.close_proposal_on_execution_failure);
    assert_eq!(migration.config.veto, None);
    assert_eq!(migration.config.dao, who("dao"));
    assert_eq!(migration.creation_policy, ProposalCreationPolicy::Anyone);
    assert_eq!(migration.messages, vec![]);
    assert_eq!(migration.proposals.len(), 1);
    assert_eq!(migration.proposals[0].1.status, Status::Executed);

    assert_eq!(
        migrate(from_v1(None), true, old_config(), &list),
        Err(ContractError::AlreadyMigrated)
    );
    let veto = VetoConfig {
        timelock_duration: Duration::Height(5),
        vetoer: who("vetoer"),
        early_execute: false,
        veto_before_passed: false,
    };
    assert_eq!(
        migrate(from_v1(Some(veto)), false, old_config(), &list),
        Err(ContractError::Veto(VetoError::TimelockDurationUnitMismatch))
    );
    let pending = vec![(1, old_proposal(V1Status::Open, Some(5), vec![]))];
    assert_eq!(
        migrate(from_v1(None), false, old_config(), &pending),
        Err(ContractError::PendingProposals)
    );
    assert_eq!(migrate(MigrateMsg::FromCompatible, true, old_config(), &pending), Ok(None));
}
