use dao_proposal_single_instant::ballot::{Ballot, BallotLedger};
use dao_proposal_single_instant::error::ContractError;
use dao_proposal_single_instant::poll::ProposalRecord;
use dao_proposal_single_instant::proposal::SingleChoiceProposal;
use dao_proposal_single_instant::status::Status;
use dao_proposal_single_instant::threshold::{PercentageThreshold, Threshold};
use dao_proposal_single_instant::time::{BlockInfo, Expiration};
use dao_proposal_single_instant::votes::{Vote, Votes};

fn proposal(allow_revoting: bool, total_power: u128) -> SingleChoiceProposal {
    SingleChoiceProposal {
        title: "title".to_string(),
        description: "description".to_string(),
        proposer: "proposer".to_string(),
        start_height: 10,
        min_voting_period: None,
        expiration: Expiration::AtHeight(20),
        threshold: Threshold::AbsolutePercentage { percentage: PercentageThreshold::Majority },
        total_power,
        msgs: vec![],
        status: Status::Open,
        votes: Votes::zero(),
        allow_revoting,
        veto: None,
    }
}

fn who(name: &str) -> String {
    name.to_string()
}

fn block(height: u64) -> BlockInfo {
    BlockInfo { height, time_nanos: 0 }
}

#[test]
fn first_ballot_is_recorded_and_tallied() {
    let mut ledger = BallotLedger::new();
    let mut p = proposal(false, 100);
    assert_eq!(ledger.cast(&mut p, who("ann"), 10, Vote::Yes, Some(who("because"))), Ok(()));
    assert_eq!(p.votes, Votes { yes: 10, no: 0, abstain: 0 });
    assert_eq!(
        ledger.get(&who("ann")),
        Some(Ballot { power: 10, vote: Vote::Yes, rationale: Some(who("because")) })
    );
    assert_eq!(ledger.get(&who("bob")), None);
    assert_eq!(ledger.find(&who("ann")), Some(0));
    assert_eq!(ledger.find(&who("bob")), None);
}

#[test]
fn voter_without_power_is_never_eligible() {
    let mut ledger = BallotLedger::new();
    for revoting in [false, true] {
        let mut p = proposal(revoting, 100);
        for choice in [Vote::Yes, Vote::No, Vote::Abstain] {
            assert_eq!(
                ledger.cast(&mut p, who("ann"), 0, choice, None),
                Err(ContractError::NotEligible)
            );
        }
        assert_eq!(p.votes, Votes::zero());
    }
    assert_eq!(ledger.entries.len(), 0);
    // also where the voter has voted with power before
    let mut p = proposal(true, 100);
    ledger.cast(&mut p, who("ann"), 5, Vote::Yes, None).unwrap();
    assert_eq!(ledger.cast(&mut p, who("ann"), 0, Vote::No, None), Err(ContractError::NotEligible));
}

#[test]
fn second_ballot_is_refused_without_revoting() {
    let mut ledger = BallotLedger::new();
    let mut p = proposal(false, 100);
    ledger.cast(&mut p, who("ann"), 10, Vote::Yes, None).unwrap();
    for choice in [Vote::Yes, Vote::No, Vote::Abstain] {
        assert_eq!(
            ledger.cast(&mut p, who("ann"), 10, choice, None),
            Err(ContractError::AlreadyDecided)
        );
    }
    assert_eq!(p.votes, Votes { yes: 10, no: 0, abstain: 0 });
    assert_eq!(ledger.entries.len(), 1);
}

#[test]
fn same_choice_twice_is_a_duplicate() {
    let mut ledger = BallotLedger::new();
    let mut p = proposal(true, 100);
    ledger.cast(&mut p, who("ann"), 10, Vote::No, None).unwrap();
    assert_eq!(
        ledger.cast(&mut p, who("ann"), 10, Vote::No, None),
        Err(ContractError::DuplicateVote)
    );
    assert_eq!(p.votes, Votes { yes: 0, no: 10, abstain: 0 });
}

#[test]
fn changed_ballot_moves_the_power() {
    let mut ledger = BallotLedger::new();
    let mut p = proposal(true, 100);
    ledger.cast(&mut p, who("ann"), 10, Vote::No, None).unwrap();
    ledger.cast(&mut p, who("bob"), 7, Vote::Yes, None).unwrap();
    assert_eq!(p.votes, Votes { yes: 7, no: 10, abstain: 0 });
    assert_eq!(ledger.cast(&mut p, who("ann"), 10, Vote::Yes, None), Ok(()));
    assert_eq!(p.votes, Votes { yes: 17, no: 0, abstain: 0 });
    assert_eq!(p.votes.total(), Some(17));
    assert_eq!(ledger.entries.len(), 2);
    // the ballot kept its place
    assert_eq!(ledger.find(&who("ann")), Some(0));
    assert_eq!(ledger.get(&who("ann")).unwrap().vote, Vote::Yes);
    assert_eq!(ledger.cast(&mut p, who("ann"), 10, Vote::Abstain, None), Ok(()));
    assert_eq!(p.votes, Votes { yes: 7, no: 0, abstain: 10 });
}

#[test]
fn changed_ballot_keeps_the_rationale_unless_given() {
    let mut ledger = BallotLedger::new();
    let mut p = proposal(true, 100);
    ledger.cast(&mut p, who("ann"), 10, Vote::No, Some(who("first"))).unwrap();
    ledger.cast(&mut p, who("ann"), 10, Vote::Yes, None).unwrap();
    assert_eq!(ledger.get(&who("ann")).unwrap().rationale, Some(who("first")));
    ledger.cast(&mut p, who("ann"), 10, Vote::No, Some(who("second"))).unwrap();
    assert_eq!(ledger.get(&who("ann")).unwrap().rationale, Some(who("second")));
}

#[test]
fn tally_stays_within_total_power() {
    let mut ledger = BallotLedger::new();
    let mut p = proposal(true, 15);
    ledger.cast(&mut p, who("ann"), 10, Vote::Yes, None).unwrap();
    assert_eq!(
        ledger.cast(&mut p, who("bob"), 6, Vote::Yes, None),
        Err(ContractError::PowerExceedsTotal)
    );
    assert_eq!(ledger.cast(&mut p, who("bob"), 5, Vote::No, None), Ok(()));
    // a changed ballot may not exceed it either
    assert_eq!(
        ledger.cast(&mut p, who("bob"), 6, Vote::Yes, None),
        Err(ContractError::PowerExceedsTotal)
    );
    assert_eq!(p.votes, Votes { yes: 10, no: 5, abstain: 0 });
}

#[test]
fn refusals_come_in_order() {
    let mut ledger = BallotLedger::new();
    let mut p = proposal(false, 10);
    ledger.cast(&mut p, who("ann"), 10, Vote::Yes, None).unwrap();
    // no power comes before everything
    assert_eq!(ledger.cast(&mut p, who("ann"), 0, Vote::Yes, None), Err(ContractError::NotEligible));
    // the ballot on record comes before the total
    assert_eq!(
        ledger.cast(&mut p, who("ann"), 99, Vote::No, None),
        Err(ContractError::AlreadyDecided)
    );
}

#[test]
fn preview_agrees_with_cast() {
    let mut ledger = BallotLedger::new();
    let mut p = proposal(true, 100);
    assert_eq!(
        ledger.preview_cast(&p, &who("ann"), 10, Vote::No),
        Ok(Votes { yes: 0, no: 10, abstain: 0 })
    );
    ledger.cast(&mut p, who("ann"), 10, Vote::No, None).unwrap();
    assert_eq!(
        ledger.preview_cast(&p, &who("ann"), 4, Vote::Yes),
        Ok(Votes { yes: 4, no: 0, abstain: 0 })
    );
    assert_eq!(
        ledger.preview_cast(&p, &who("ann"), 4, Vote::No),
        Err(ContractError::DuplicateVote)
    );
    assert_eq!(ledger.preview_cast(&p, &who("ann"), 0, Vote::Yes), Err(ContractError::NotEligible));
}

#[test]
fn rationale_is_amended() {
    let mut ledger = BallotLedger::new();
    let mut p = proposal(false, 100);
    ledger.cast(&mut p, who("ann"), 10, Vote::Yes, None).unwrap();
    ledger.cast(&mut p, who("bob"), 3, Vote::No, Some(who("no"))).unwrap();
    assert_eq!(ledger.amend_rationale(7, &who("ann"), Some(who("why"))), Ok(()));
    assert_eq!(
        ledger.get(&who("ann")),
        Some(Ballot { power: 10, vote: Vote::Yes, rationale: Some(who("why")) })
    );
    assert_eq!(ledger.amend_rationale(7, &who("bob"), None), Ok(()));
    assert_eq!(
        ledger.get(&who("bob")),
        Some(Ballot { power: 3, vote: Vote::No, rationale: None })
    );
    assert_eq!(ledger.tally(), Some(Votes { yes: 10, no: 3, abstain: 0 }));
}

#[test]
fn rationale_of_a_missing_ballot() {
    let mut ledger = BallotLedger::new();
    assert_eq!(
        ledger.amend_rationale(7, &who("ann"), Some(who("why"))),
        Err(ContractError::NoSuchVote { id: 7, voter: who("ann") })
    );
}

#[test]
fn ledger_checks() {
    let mut ledger = BallotLedger::new();
    let mut p = proposal(false, 100);
    ledger.cast(&mut p, who("ann"), 10, Vote::Yes, None).unwrap();
    ledger.cast(&mut p, who("bob"), 3, Vote::Abstain, None).unwrap();
    assert!(ledger.is_well_formed());
    assert_eq!(ledger.tally(), Some(Votes { yes: 10, no: 0, abstain: 3 }));
    let mut record = ProposalRecord { proposal: p, ballots: ledger };
    assert!(record.is_well_formed());
    record.proposal.votes.yes = 11;
    assert!(!record.is_well_formed());
    record.proposal.votes.yes = 10;
    let twice = record.ballots.entries[0].clone();
    record.ballots.entries.push(twice);
    assert!(!record.ballots.is_well_formed());
    assert!(!record.is_well_formed());
}

#[test]
fn voting_ends_with_the_voting_period() {
    let mut record = ProposalRecord::new(proposal(false, 100));
    assert_eq!(
        record.vote(&block(20), 3, who("ann"), 10, Vote::Yes, None),
        Err(ContractError::Expired { id: 3 })
    );
    assert_eq!(
        record.vote(&block(19), 3, who("ann"), 10, Vote::Yes, None),
        Ok((Status::Open, Status::Open))
    );
}

#[test]
fn vote_recomputes_the_status() {
    let mut record = ProposalRecord::new(proposal(false, 100));
    assert_eq!(
        record.vote(&block(11), 1, who("ann"), 50, Vote::Yes, None),
        Ok((Status::Open, Status::Open))
    );
    assert_eq!(
        record.vote(&block(11), 1, who("bob"), 1, Vote::Yes, None),
        Ok((Status::Open, Status::Passed))
    );
    // voting goes on after an early decision and does not change it
    assert_eq!(
        record.vote(&block(12), 1, who("cat"), 49, Vote::No, None),
        Ok((Status::Passed, Status::Passed))
    );
    assert_eq!(record.proposal.votes, Votes { yes: 51, no: 49, abstain: 0 });
    assert!(record.is_well_formed());
}

#[test]
fn check_vote_changes_nothing() {
    let record = ProposalRecord::new(proposal(false, 100));
    assert_eq!(
        record.check_vote(&block(11), 1, &who("ann"), 51, Vote::Yes),
        Ok((Votes { yes: 51, no: 0, abstain: 0 }, Status::Passed))
    );
    assert_eq!(record.proposal.votes, Votes::zero());
    assert_eq!(record.ballots.entries.len(), 0);
}
