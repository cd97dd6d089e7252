//! The library's small functions side by side with the crates whose types
//! arrive on the wire, on grids of inputs.

use cosmwasm_std::testing::MockStorage;
use cosmwasm_std::{Addr, BlockInfo, Decimal, Timestamp, Uint128};
use dao_proposal_single_instant as lib;

fn wire_block(height: u64, nanos: u64) -> BlockInfo {
    BlockInfo { height, time: Timestamp::from_nanos(nanos), chain_id: "chain".to_string() }
}

fn lib_block(height: u64, nanos: u64) -> lib::time::BlockInfo {
    lib::time::BlockInfo { height, time_nanos: nanos }
}

fn wire_expiration(e: lib::time::Expiration) -> cw_utils::Expiration {
    match e {
        lib::time::Expiration::AtHeight(h) => cw_utils::Expiration::AtHeight(h),
        lib::time::Expiration::AtTime(t) => cw_utils::Expiration::AtTime(Timestamp::from_nanos(t)),
        lib::time::Expiration::Never => cw_utils::Expiration::Never {},
    }
}

fn wire_duration(d: lib::time::Duration) -> cw_utils::Duration {
    match d {
        lib::time::Duration::Height(h) => cw_utils::Duration::Height(h),
        lib::time::Duration::Time(t) => cw_utils::Duration::Time(t),
    }
}

fn wire_percentage(p: lib::threshold::PercentageThreshold) -> dao_voting::threshold::PercentageThreshold {
    match p {
        lib::threshold::PercentageThreshold::Majority => {
            dao_voting::threshold::PercentageThreshold::Majority {}
        }
        lib::threshold::PercentageThreshold::Percent(d) => {
            dao_voting::threshold::PercentageThreshold::Percent(Decimal::raw(d.atomics))
        }
    }
}

fn wire_threshold(t: lib::threshold::Threshold) -> dao_voting::threshold::Threshold {
    match t {
        lib::threshold::Threshold::AbsolutePercentage { percentage } => {
            dao_voting::threshold::Threshold::AbsolutePercentage {
                percentage: wire_percentage(percentage),
            }
        }
        lib::threshold::Threshold::ThresholdQuorum { threshold, quorum } => {
            dao_voting::threshold::Threshold::ThresholdQuorum {
                threshold: wire_percentage(threshold),
                quorum: wire_percentage(quorum),
            }
        }
        lib::threshold::Threshold::AbsoluteCount { threshold } => {
            dao_voting::threshold::Threshold::AbsoluteCount { threshold: Uint128::new(threshold) }
        }
    }
}

fn shares() -> Vec<lib::threshold::PercentageThreshold> {
    let mut out = vec![lib::threshold::PercentageThreshold::Majority];
    for atomics in [
        0u128,
        1,
        999_999_999,
        1_000_000_000,
        333_333_333_333_333_333,
        500_000_000_000_000_000,
        500_000_000_000_000_001,
        538_461_538_461_538_461,
        666_666_666_666_666_667,
        999_999_999_999_999_999,
        1_000_000_000_000_000_000,
    ] {
        out.push(lib::threshold::PercentageThreshold::Percent(lib::threshold::Decimal { atomics }));
    }
    out
}

#[test]
fn expiry_agrees() {
    let points = [
        lib::time::Expiration::AtHeight(0),
        lib::time::Expiration::AtHeight(7),
        lib::time::Expiration::AtHeight(u64::MAX),
        lib::time::Expiration::AtTime(0),
        lib::time::Expiration::AtTime(7_000_000_000),
        lib::time::Expiration::AtTime(u64::MAX),
        lib::time::Expiration::Never,
    ];
    for e in points {
        for height in [0u64, 6, 7, 8, u64::MAX] {
            for nanos in [0u64, 6_999_999_999, 7_000_000_000, 7_000_000_001, u64::MAX] {
                assert_eq!(
                    e.is_expired(&lib_block(height, nanos)),
                    wire_expiration(e).is_expired(&wire_block(height, nanos))
                );
            }
        }
    }
}

#[test]
fn spans_agree() {
    let spans = [
        lib::time::Duration::Height(0),
        lib::time::Duration::Height(5),
        lib::time::Duration::Time(0),
        lib::time::Duration::Time(5),
        lib::time::Duration::Time(86_400),
    ];
    for d in spans {
        for (height, nanos) in [(0u64, 0u64), (12, 1_500_000_000), (1 << 40, 1 << 50)] {
            let ours = d.after(&lib_block(height, nanos)).unwrap();
            assert_eq!(wire_expiration(ours), wire_duration(d).after(&wire_block(height, nanos)));
        }
        for e in [
            lib::time::Expiration::AtHeight(9),
            lib::time::Expiration::AtTime(9_000_000_000),
            lib::time::Expiration::Never,
        ] {
            let theirs = wire_expiration(e) + wire_duration(d);
            match e.plus(&d) {
                Ok(sum) => assert_eq!(wire_expiration(sum), theirs.unwrap()),
                Err(err) => {
                    assert_eq!(err, lib::time::TimeError::UnitMismatch);
                    assert!(theirs.is_err());
                }
            }
        }
    }
}

#[test]
fn threshold_validation_agrees() {
    let mut policies = vec![];
    for count in [0u128, 1, u128::MAX] {
        policies.push(lib::threshold::Threshold::AbsoluteCount { threshold: count });
    }
    let mut all = shares();
    all.push(lib::threshold::PercentageThreshold::Percent(lib::threshold::Decimal {
        atomics: 1_000_000_000_000_000_001,
    }));
    all.push(lib::threshold::PercentageThreshold::Percent(lib::threshold::Decimal {
        atomics: u128::MAX,
    }));
    for a in all.iter() {
        policies.push(lib::threshold::Threshold::AbsolutePercentage { percentage: *a });
        for b in all.iter() {
            policies.push(lib::threshold::Threshold::ThresholdQuorum { threshold: *a, quorum: *b });
        }
    }
    for policy in policies {
        let theirs = wire_threshold(policy).validate();
        match policy.validate() {
            Ok(()) => assert_eq!(theirs, Ok(())),
            Err(lib::threshold::ThresholdError::ZeroThreshold) => {
                assert_eq!(theirs, Err(dao_voting::threshold::ThresholdError::ZeroThreshold {}))
            }
            Err(lib::threshold::ThresholdError::UnreachableThreshold) => assert_eq!(
                theirs,
                Err(dao_voting::threshold::ThresholdError::UnreachableThreshold {})
            ),
        }
        for b in all.iter() {
            let theirs = dao_voting::threshold::validate_quorum(&wire_percentage(*b));
            assert_eq!(lib::threshold::validate_quorum(b).is_ok(), theirs.is_ok());
        }
    }
}

/// The comparison of scaled counts, as the contracts of the library state it,
/// in plain integers. All numbers of the grid are small enough for 128 bits.
fn stated_pass(weight: u128, options: u128, share: lib::threshold::PercentageThreshold) -> bool {
    options != 0
        && match share {
            lib::threshold::PercentageThreshold::Majority => 2 * weight > options,
            lib::threshold::PercentageThreshold::Percent(p) => {
                weight * 1_000_000_000
                    >= (options * 1_000_000_000 * p.atomics) / 1_000_000_000_000_000_000
            }
        }
}

fn stated_fail(no: u128, options: u128, share: lib::threshold::PercentageThreshold) -> bool {
    options == 0
        || match share {
            lib::threshold::PercentageThreshold::Majority => 2 * no >= options,
            lib::threshold::PercentageThreshold::Percent(p) => {
                no * 1_000_000_000
                    > (options * 1_000_000_000 * (1_000_000_000_000_000_000 - p.atomics))
                        / 1_000_000_000_000_000_000
            }
        }
}

#[test]
fn counts_are_compared_as_stated() {
    for share in shares() {
        for options in 0u128..=13 {
            for weight in 0u128..=options {
                assert_eq!(
                    dao_voting::voting::does_vote_count_pass(
                        Uint128::new(weight),
                        Uint128::new(options),
                        wire_percentage(share)
                    ),
                    stated_pass(weight, options, share),
                    "pass {} of {} at {:?}",
                    weight,
                    options,
                    share
                );
                assert_eq!(
                    dao_voting::voting::does_vote_count_fail(
                        Uint128::new(weight),
                        Uint128::new(options),
                        wire_percentage(share)
                    ),
                    stated_fail(weight, options, share),
                    "fail {} of {} at {:?}",
                    weight,
                    options,
                    share
                );
            }
        }
    }
}

#[test]
fn policies_are_evaluated_as_stated() {
    // With all power cast for or against and none abstaining, a percentage
    // policy passes and fails exactly as the comparison of counts says.
    for share in shares() {
        if let lib::threshold::PercentageThreshold::Percent(p) = share {
            if p.atomics == 0 {
                continue;
            }
        }
        let policy = lib::threshold::Threshold::AbsolutePercentage { percentage: share };
        for total in 1u128..=9 {
            for yes in 0u128..=total {
                for no in 0u128..=(total - yes) {
                    let votes = lib::votes::Votes { yes, no, abstain: 0 };
                    assert_eq!(policy.passes(&votes, total, false), stated_pass(yes, total, share));
                    let unanimity = share
                        == lib::threshold::PercentageThreshold::Percent(
                            lib::threshold::Decimal::one(),
                        );
                    let expected = if unanimity { no >= 1 } else { stated_fail(no, total, share) };
                    assert_eq!(policy.fails(&votes, total, false), expected);
                }
            }
        }
    }
}

#[test]
fn tags_agree() {
    for value in [0u64, 1, 2, 7, 8, 1 << 32, (1 << 61) - 1, 1 << 61, u64::MAX] {
        assert_eq!(
            lib::reply::mask_proposal_execution_proposal_id(value),
            dao_voting::reply::mask_proposal_execution_proposal_id(value)
        );
        assert_eq!(lib::reply::mask_proposal_hook_index(value), dao_voting::reply::mask_proposal_hook_index(value));
        assert_eq!(lib::reply::mask_vote_hook_index(value), dao_voting::reply::mask_vote_hook_index(value));
    }
    assert_eq!(
        lib::reply::pre_propose_module_instantiation_id(),
        dao_voting::reply::pre_propose_module_instantiation_id()
    );
    assert_eq!(
        lib::reply::failed_pre_propose_module_hook_id(),
        dao_voting::reply::failed_pre_propose_module_hook_id()
    );
    for id in (0u64..64).chain([u64::MAX, u64::MAX - 3, 1 << 63]) {
        let expected = match dao_voting::reply::TaggedReplyId::new(id) {
            Ok(dao_voting::reply::TaggedReplyId::FailedProposalExecution(v)) => {
                Ok(lib::reply::TaggedReplyId::FailedProposalExecution(v))
            }
            Ok(dao_voting::reply::TaggedReplyId::FailedProposalHook(v)) => {
                Ok(lib::reply::TaggedReplyId::FailedProposalHook(v))
            }
            Ok(dao_voting::reply::TaggedReplyId::FailedVoteHook(v)) => {
                Ok(lib::reply::TaggedReplyId::FailedVoteHook(v))
            }
            Ok(dao_voting::reply::TaggedReplyId::FailedPreProposeModuleHook) => {
                Ok(lib::reply::TaggedReplyId::FailedPreProposeModuleHook)
            }
            Ok(dao_voting::reply::TaggedReplyId::PreProposeModuleInstantiation) => {
                Ok(lib::reply::TaggedReplyId::PreProposeModuleInstantiation)
            }
            Err(_) => Err(lib::error::ContractError::InvalidReplyId { id }),
        };
        assert_eq!(lib::reply::TaggedReplyId::new(id), expected);
    }
}

#[test]
fn voting_periods_agree() {
    let spans = [
        lib::time::Duration::Height(0),
        lib::time::Duration::Height(5),
        lib::time::Duration::Height(6),
        lib::time::Duration::Time(0),
        lib::time::Duration::Time(5),
        lib::time::Duration::Time(6),
    ];
    for max in spans {
        assert!(lib::state::validate_voting_period(None, max).is_ok());
        assert!(dao_voting::voting::validate_voting_period(None, wire_duration(max)).is_ok());
        for min in spans {
            let theirs =
                dao_voting::voting::validate_voting_period(Some(wire_duration(min)), wire_duration(max));
            match lib::state::validate_voting_period(Some(min), max) {
                Ok(pair) => {
                    assert_eq!(pair, (Some(min), max));
                    assert_eq!(theirs.unwrap(), (Some(wire_duration(min)), wire_duration(max)));
                }
                Err(lib::error::VotingError::DurationUnitsConflict) => assert_eq!(
                    theirs.unwrap_err(),
                    dao_voting::error::VotingError::DurationUnitsConflict {}
                ),
                Err(lib::error::VotingError::InvalidMinVotingPeriod) => assert_eq!(
                    theirs.unwrap_err(),
                    dao_voting::error::VotingError::InvalidMinVotingPeriod {}
                ),
            }
        }
    }
}

#[test]
fn subscriber_lists_agree() {
    let theirs = cw_hooks::Hooks::new("hooks");
    let mut storage = MockStorage::new();
    let mut ours = lib::hooks::Hooks::new();
    let steps: [(&str, &str); 9] = [
        ("add", "a"),
        ("add", "b"),
        ("add", "a"),
        ("remove", "c"),
        ("add", "c"),
        ("remove", "a"),
        ("remove", "a"),
        ("add", "a"),
        ("remove", "c"),
    ];
    for (step, name) in steps {
        let (done, also) = if step == "add" {
            (
                ours.add_hook(name.to_string()).is_ok(),
                theirs.add_hook(&mut storage, Addr::unchecked(name)).is_ok(),
            )
        } else {
            (
                ours.remove_hook(&name.to_string()).is_ok(),
                theirs.remove_hook(&mut storage, Addr::unchecked(name)).is_ok(),
            )
        };
        assert_eq!(done, also);
        assert_eq!(ours.hook_count() as u32, theirs.hook_count(&storage).unwrap());
    }
    assert_eq!(ours.query_hooks(), vec!["b".to_string(), "a".to_string()]);
    assert_eq!(
        theirs.remove_hook_by_index(&mut storage, 0).unwrap(),
        Addr::unchecked(ours.remove_hook_by_index(0).unwrap())
    );
    assert_eq!(ours.query_hooks(), vec!["a".to_string()]);
}

#[test]
fn creation_policies_agree() {
    let pairs = [
        (lib::msg::ProposalCreationPolicy::Anyone, dao_voting::pre_propose::ProposalCreationPolicy::Anyone {}),
        (
            lib::msg::ProposalCreationPolicy::Module { addr: "module".to_string() },
            dao_voting::pre_propose::ProposalCreationPolicy::Module { addr: Addr::unchecked("module") },
        ),
    ];
    for (ours, theirs) in pairs {
        for creator in ["module", "ekez", ""] {
            assert_eq!(
                ours.is_permitted(&creator.to_string()),
                theirs.is_permitted(&Addr::unchecked(creator))
            );
        }
    }
}

#[test]
fn vote_names_agree() {
    assert_eq!(lib::votes::Vote::Yes.name(), dao_voting::voting::Vote::Yes.to_string());
    assert_eq!(lib::votes::Vote::No.name(), dao_voting::voting::Vote::No.to_string());
    assert_eq!(lib::votes::Vote::Abstain.name(), dao_voting::voting::Vote::Abstain.to_string());
}
