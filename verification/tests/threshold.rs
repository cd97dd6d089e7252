use dao_proposal_single_instant::threshold::{
    validate_quorum, Decimal, Decision, PercentageThreshold, Threshold, ThresholdError,
};
use dao_proposal_single_instant::votes::Votes;

fn pct(x: u64) -> PercentageThreshold {
    PercentageThreshold::Percent(Decimal::percent(x))
}

fn votes(yes: u128, no: u128, abstain: u128) -> Votes {
    Votes { yes, no, abstain }
}

#[test]
fn decimal_values() {
    assert_eq!(Decimal::one().atomics, 1_000_000_000_000_000_000);
    assert_eq!(Decimal::zero().atomics, 0);
    assert_eq!(Decimal::percent(50).atomics, 500_000_000_000_000_000);
    assert_eq!(Decimal::percent(100), Decimal::one());
}

#[test]
fn threshold_validation() {
    let t = Threshold::AbsoluteCount { threshold: 0 };
    assert_eq!(t.validate(), Err(ThresholdError::ZeroThreshold));
    let t = Threshold::AbsoluteCount { threshold: 1 };
    assert_eq!(t.validate(), Ok(()));

    let t = Threshold::AbsolutePercentage { percentage: pct(0) };
    assert_eq!(t.validate(), Err(ThresholdError::ZeroThreshold));
    let t = Threshold::AbsolutePercentage { percentage: pct(101) };
    assert_eq!(t.validate(), Err(ThresholdError::UnreachableThreshold));
    let t = Threshold::AbsolutePercentage { percentage: pct(100) };
    assert_eq!(t.validate(), Ok(()));
    let t = Threshold::AbsolutePercentage { percentage: PercentageThreshold::Majority };
    assert_eq!(t.validate(), Ok(()));

    let t = Threshold::ThresholdQuorum { threshold: pct(0), quorum: pct(50) };
    assert_eq!(t.validate(), Err(ThresholdError::ZeroThreshold));
    let t = Threshold::ThresholdQuorum { threshold: pct(101), quorum: pct(50) };
    assert_eq!(t.validate(), Err(ThresholdError::UnreachableThreshold));
    let t = Threshold::ThresholdQuorum { threshold: pct(50), quorum: pct(101) };
    assert_eq!(t.validate(), Err(ThresholdError::UnreachableThreshold));
    let t = Threshold::ThresholdQuorum { threshold: pct(50), quorum: pct(0) };
    assert_eq!(t.validate(), Ok(()));
    let t = Threshold::ThresholdQuorum {
        threshold: PercentageThreshold::Majority,
        quorum: PercentageThreshold::Majority,
    };
    assert_eq!(t.validate(), Ok(()));
}

#[test]
fn quorum_validation() {
    assert_eq!(validate_quorum(&pct(0)), Ok(()));
    assert_eq!(validate_quorum(&pct(100)), Ok(()));
    assert_eq!(validate_quorum(&pct(101)), Err(ThresholdError::UnreachableThreshold));
    assert_eq!(validate_quorum(&PercentageThreshold::Majority), Ok(()));
}

#[test]
fn absolute_count_passes_at_the_count() {
    let t = Threshold::AbsoluteCount { threshold: 10 };
    assert!(!t.passes(&votes(9, 0, 0), 100, false));
    assert!(t.passes(&votes(10, 0, 0), 100, false));
    assert!(t.passes(&votes(11, 50, 0), 100, true));
}

#[test]
fn absolute_count_fails_when_out_of_reach() {
    let t = Threshold::AbsoluteCount { threshold: 10 };
    // 9 yes and 0 outstanding: out of reach
    assert!(t.fails(&votes(9, 91, 0), 100, false));
    // 5 yes and 5 outstanding: just reachable
    assert!(!t.fails(&votes(5, 90, 0), 100, false));
    // 5 yes and 4 outstanding: out of reach
    assert!(t.fails(&votes(5, 91, 0), 100, false));
}

#[test]
fn majority_needs_more_than_half() {
    let t = Threshold::AbsolutePercentage { percentage: PercentageThreshold::Majority };
    assert!(!t.passes(&votes(5, 0, 0), 10, false));
    assert!(t.passes(&votes(6, 0, 0), 10, false));
    // abstentions shrink what counts: 4 of 6
    assert!(t.passes(&votes(4, 0, 4), 10, false));
    assert!(!t.passes(&votes(3, 0, 4), 10, false));
    // no votes of half or more fail it
    assert!(t.fails(&votes(0, 5, 0), 10, false));
    assert!(!t.fails(&votes(0, 4, 0), 10, false));
}

#[test]
fn all_abstain_never_passes_and_always_fails() {
    let t = Threshold::AbsolutePercentage { percentage: PercentageThreshold::Majority };
    assert!(!t.passes(&votes(0, 0, 10), 10, false));
    assert!(t.fails(&votes(0, 0, 10), 10, false));
    let t = Threshold::AbsolutePercentage { percentage: pct(100) };
    assert!(!t.passes(&votes(0, 0, 10), 10, false));
    assert!(t.fails(&votes(0, 0, 10), 10, false));
}

#[test]
fn percent_passes_at_the_share() {
    let t = Threshold::AbsolutePercentage { percentage: pct(60) };
    assert!(!t.passes(&votes(5, 0, 0), 10, false));
    assert!(t.passes(&votes(6, 0, 0), 10, false));
    // the required power is not rounded up: 7 of 13 at 7/13 is floored below 7
    let sevenths = PercentageThreshold::Percent(Decimal { atomics: 538_461_538_461_538_461 });
    let t = Threshold::AbsolutePercentage { percentage: sevenths };
    assert!(t.passes(&votes(7, 0, 0), 13, false));
    assert!(!t.passes(&votes(6, 0, 0), 13, false));
}

#[test]
fn percent_fails_when_no_votes_exceed_the_rest() {
    let t = Threshold::AbsolutePercentage { percentage: pct(60) };
    // more than 40 percent no
    assert!(!t.fails(&votes(0, 4, 0), 10, false));
    assert!(t.fails(&votes(0, 5, 0), 10, false));
}

#[test]
fn unanimity_fails_on_one_no_vote() {
    let t = Threshold::AbsolutePercentage { percentage: pct(100) };
    assert!(!t.fails(&votes(9, 0, 0), 10, false));
    assert!(t.fails(&votes(9, 1, 0), 10, false));
    assert!(t.passes(&votes(10, 0, 0), 10, false));
    assert!(t.passes(&votes(7, 0, 3), 10, false));
}

#[test]
fn quorum_policy_counts_cast_power_after_expiry() {
    let t = Threshold::ThresholdQuorum { threshold: PercentageThreshold::Majority, quorum: pct(40) };
    // 3 yes, 1 no of 10: quorum of 40 percent met; open: 3 of 10 is no majority
    assert!(!t.passes(&votes(3, 1, 0), 10, false));
    assert!(!t.fails(&votes(3, 1, 0), 10, false));
    assert_eq!(t.evaluate(&votes(3, 1, 0), 10, false), Decision::Undecided);
    // expired: 3 of 4 cast is a majority
    assert!(t.passes(&votes(3, 1, 0), 10, true));
    assert_eq!(t.evaluate(&votes(3, 1, 0), 10, true), Decision::Passed);
    // expired without quorum: rejected
    assert!(!t.passes(&votes(3, 0, 0), 10, true));
    assert!(t.fails(&votes(3, 0, 0), 10, true));
    assert_eq!(t.evaluate(&votes(3, 0, 0), 10, true), Decision::Rejected);
}

#[test]
fn evaluate_decides_early() {
    let t = Threshold::AbsolutePercentage { percentage: PercentageThreshold::Majority };
    assert_eq!(t.evaluate(&votes(6, 0, 0), 10, false), Decision::Passed);
    assert_eq!(t.evaluate(&votes(0, 5, 0), 10, false), Decision::Rejected);
    assert_eq!(t.evaluate(&votes(5, 4, 0), 10, false), Decision::Undecided);
    // voting closed without a pass
    assert_eq!(t.evaluate(&votes(5, 4, 0), 10, true), Decision::Rejected);
}

#[test]
fn lead_over_all_that_may_go_against_passes_early() {
    // 10 of 25 have not voted; yes 13 exceeds no 2 plus the 10 outstanding
    let tally = votes(13, 2, 0);
    for t in [
        Threshold::AbsolutePercentage { percentage: PercentageThreshold::Majority },
        Threshold::AbsolutePercentage { percentage: pct(50) },
        Threshold::AbsolutePercentage { percentage: pct(1) },
        Threshold::ThresholdQuorum { threshold: PercentageThreshold::Majority, quorum: pct(50) },
        Threshold::ThresholdQuorum { threshold: pct(50), quorum: PercentageThreshold::Majority },
        Threshold::AbsoluteCount { threshold: 13 },
    ] {
        assert_eq!(t.evaluate(&tally, 25, false), Decision::Passed);
    }
}

#[test]
fn lead_is_not_enough_for_a_high_count() {
    let t = Threshold::AbsoluteCount { threshold: 90 };
    // yes 60 exceeds no 0 plus 0 outstanding, yet the count is out of reach
    assert_eq!(t.evaluate(&votes(60, 0, 40), 100, false), Decision::Rejected);
}
