//! Threshold policies and the evaluator that turns a tally into a decision.
//!
//! A policy is one of three closed variants. The evaluator answers for a tally
//! whether the proposal has passed, has been rejected, or is still undecided.
//! While voting is open it counts all power not yet cast against the side it
//! tests, so a decision it reports early cannot be overturned by later votes.

use vstd::prelude::*;
use crate::votes::Votes;

verus! {

/// Atomic units in the decimal one: fractions have eighteen decimal places.
pub const DECIMAL_ONE: u128 = 1_000_000_000_000_000_000;

/// Factor by which both sides of a percentage comparison are scaled.
pub const PRECISION_FACTOR: u128 = 1_000_000_000;

/// A fixed-point fraction with eighteen decimal places.
#[derive(Clone, Copy, Debug, PartialEq, Eq, Structural)]
pub struct Decimal {
    /// The value times ten to the eighteenth.
    pub atomics: u128,
}

/// A share of voting power that a side has to reach.
#[derive(Clone, Copy, Debug, PartialEq, Eq, Structural)]
pub enum PercentageThreshold {
    /// Strictly more than half.
    Majority,
    /// At least this fraction.
    Percent(Decimal),
}

/// How a proposal reaches its passing or failing threshold.
#[allow(inconsistent_fields)]
#[derive(Clone, Copy, Debug, PartialEq, Eq, Structural)]
pub enum Threshold {
    /// A share of the total power, less abstentions, must vote yes.
    AbsolutePercentage { percentage: PercentageThreshold },
    /// A quorum of the total power must take part, and a share of the power
    /// that counts must vote yes.
    ThresholdQuorum { threshold: PercentageThreshold, quorum: PercentageThreshold },
    /// A fixed amount of power must vote yes.
    AbsoluteCount { threshold: u128 },
}

/// Why a threshold policy is refused.
#[derive(Clone, Copy, Debug, PartialEq, Eq, Structural)]
pub enum ThresholdError {
    /// The required threshold is zero.
    ZeroThreshold,
    /// The required threshold cannot be reached.
    UnreachableThreshold,
}

/// What a tally amounts to under a policy.
#[derive(Clone, Copy, Debug, PartialEq, Eq, Structural)]
pub enum Decision {
    /// Later votes can still turn the outcome either way.
    Undecided,
    /// The proposal has passed.
    Passed,
    /// The proposal has been rejected.
    Rejected,
}

/// Whether `weight` out of `options` reaches the share `percent`. Nothing
/// passes when there are no options.
pub open spec fn vote_count_passes(weight: nat, options: nat, percent: PercentageThreshold) -> bool {
    options != 0 && match percent {
        PercentageThreshold::Majority => 2 * weight > options,
        PercentageThreshold::Percent(p) => weight * PRECISION_FACTOR
            >= (options * PRECISION_FACTOR * p.atomics) / (DECIMAL_ONE as int),
    }
}

/// Whether `no` out of `options` is so much that the remaining power cannot
/// reach the share `percent`. Everything fails when there are no options.
pub open spec fn vote_count_fails(no: nat, options: nat, percent: PercentageThreshold) -> bool {
    options == 0 || match percent {
        PercentageThreshold::Majority => 2 * no >= options,
        PercentageThreshold::Percent(p) => no * PRECISION_FACTOR
            > (options * PRECISION_FACTOR * (DECIMAL_ONE - p.atomics)) / (DECIMAL_ONE as int),
    }
}

/// Calls `dao_voting::voting::does_vote_count_pass`, which refuses a count
/// without options, compares twice the weight with the options for a majority,
/// and otherwise compares, in 256 bits, the weight with the floor of the
/// options times the fraction, both scaled by `PRECISION_FACTOR`.
#[verifier::external_body]
fn does_vote_count_pass(weight: u128, options: u128, percent: PercentageThreshold) -> (r: bool)
    ensures
        r == vote_count_passes(weight as nat, options as nat, percent),
{
    let outside = match percent {
        PercentageThreshold::Majority => dao_voting::threshold::PercentageThreshold::Majority {},
        PercentageThreshold::Percent(p) => dao_voting::threshold::PercentageThreshold::Percent(
            cosmwasm_std::Decimal::raw(p.atomics),
        ),
    };
    dao_voting::voting::does_vote_count_pass(
        cosmwasm_std::Uint128::new(weight),
        cosmwasm_std::Uint128::new(options),
        outside,
    )
}

/// Calls `dao_voting::voting::does_vote_count_fail`, which accepts a count
/// without options, compares twice the no votes with the options for a
/// majority, and otherwise compares, in 256 bits, the no votes with the floor
/// of the options times one minus the fraction. It subtracts the fraction from
/// one, so the fraction may not exceed one.
#[verifier::external_body]
fn does_vote_count_fail(no: u128, options: u128, percent: PercentageThreshold) -> (r: bool)
    requires
        percent matches PercentageThreshold::Percent(p) ==> p.atomics <= DECIMAL_ONE,
    ensures
        r == vote_count_fails(no as nat, options as nat, percent),
{
    let outside = match percent {
        PercentageThreshold::Majority => dao_voting::threshold::PercentageThreshold::Majority {},
        PercentageThreshold::Percent(p) => dao_voting::threshold::PercentageThreshold::Percent(
            cosmwasm_std::Decimal::raw(p.atomics),
        ),
    };
    dao_voting::voting::does_vote_count_fail(
        cosmwasm_std::Uint128::new(no),
        cosmwasm_std::Uint128::new(options),
        outside,
    )
}

impl Decimal {
    /// The fraction one.
    pub fn one() -> (r: Decimal)
        ensures
            r.atomics == DECIMAL_ONE,
    {
        Decimal { atomics: DECIMAL_ONE }
    }

    /// The fraction zero.
    pub fn zero() -> (r: Decimal)
        ensures
            r.atomics == 0,
    {
        Decimal { atomics: 0 }
    }

    /// `x` hundredths.
    pub fn percent(x: u64) -> (r: Decimal)
        ensures
            r.atomics == x * 10_000_000_000_000_000,
    {
        let scale: u128 = 10_000_000_000_000_000;
        let wide: u128 = x as u128;
        Decimal { atomics: wide * scale }
    }
}

impl PercentageThreshold {
    /// A passing share is valid when it is a majority or lies above zero and
    /// at most at one.
    pub open spec fn valid_share(self) -> bool {
        self matches PercentageThreshold::Percent(p) ==> 0 < p.atomics <= DECIMAL_ONE
    }

    /// A quorum is valid when it is a majority or at most one; it may be zero.
    pub open spec fn valid_quorum(self) -> bool {
        self matches PercentageThreshold::Percent(p) ==> p.atomics <= DECIMAL_ONE
    }

    /// Whether this is the share of exactly one hundred percent.
    pub open spec fn is_unanimity(self) -> bool {
        self matches PercentageThreshold::Percent(p) && p.atomics == DECIMAL_ONE
    }

    /// Whether the share can be reached although everyone still to vote votes
    /// no: with unanimity one no vote is enough to fail.
    pub open spec fn spec_no_votes_fail(self, no: nat, options: nat) -> bool {
        if self.is_unanimity() {
            options == 0 || no >= 1
        } else {
            vote_count_fails(no, options, self)
        }
    }

    fn unanimity(&self) -> (r: bool)
        ensures
            r == self.is_unanimity(),
    {
        match self {
            PercentageThreshold::Majority => false,
            PercentageThreshold::Percent(p) => p.atomics == DECIMAL_ONE,
        }
    }

    fn no_votes_fail(&self, no: u128, options: u128) -> (r: bool)
        requires
            self.valid_quorum(),
        ensures
            r == self.spec_no_votes_fail(no as nat, options as nat),
    {
        if self.unanimity() {
            options == 0 || no >= 1
        } else {
            does_vote_count_fail(no, options, *self)
        }
    }
}

impl Threshold {
    /// The policies that [`Threshold::validate`] accepts.
    pub open spec fn valid(self) -> bool {
        match self {
            Threshold::AbsolutePercentage { percentage } => percentage.valid_share(),
            Threshold::ThresholdQuorum { threshold, quorum } => threshold.valid_share()
                && quorum.valid_quorum(),
            Threshold::AbsoluteCount { threshold } => threshold != 0,
        }
    }

    /// What [`Threshold::validate`] returns.
    pub open spec fn spec_validate(self) -> Result<(), ThresholdError> {
        match self {
            Threshold::AbsolutePercentage { percentage } => spec_validate_share(percentage),
            Threshold::ThresholdQuorum { threshold, quorum } => match spec_validate_share(
                threshold,
            ) {
                Err(e) => Err(e),
                Ok(_) => if quorum.valid_quorum() {
                    Ok(())
                } else {
                    Err(ThresholdError::UnreachableThreshold)
                },
            },
            Threshold::AbsoluteCount { threshold } => if threshold == 0 {
                Err(ThresholdError::ZeroThreshold)
            } else {
                Ok(())
            },
        }
    }

    /// Whether the tally passes. `expired` says that voting has closed: a
    /// quorum policy then measures the yes votes against the power that was
    /// cast for or against, not against all power there is.
    pub open spec fn spec_passes(self, votes: Votes, total_power: u128, expired: bool) -> bool {
        match self {
            Threshold::AbsolutePercentage { percentage } => vote_count_passes(
                votes.yes as nat,
                (total_power - votes.abstain) as nat,
                percentage,
            ),
            Threshold::ThresholdQuorum { threshold, quorum } => {
                &&& vote_count_passes(votes.spec_total(), total_power as nat, quorum)
                &&& vote_count_passes(
                    votes.yes as nat,
                    if expired {
                        (votes.yes + votes.no) as nat
                    } else {
                        (total_power - votes.abstain) as nat
                    },
                    threshold,
                )
            },
            Threshold::AbsoluteCount { threshold } => votes.yes >= threshold,
        }
    }

    /// Whether the tally can no longer pass. While voting is open all power
    /// not yet cast is taken to vote yes; once it has closed, a quorum policy
    /// fails for want of a quorum and otherwise counts only what was cast.
    pub open spec fn spec_fails(self, votes: Votes, total_power: u128, expired: bool) -> bool {
        match self {
            Threshold::AbsolutePercentage { percentage } => percentage.spec_no_votes_fail(
                votes.no as nat,
                (total_power - votes.abstain) as nat,
            ),
            Threshold::ThresholdQuorum { threshold, quorum } => {
                if expired && !vote_count_passes(votes.spec_total(), total_power as nat, quorum) {
                    true
                } else {
                    threshold.spec_no_votes_fail(
                        votes.no as nat,
                        if expired {
                            (votes.yes + votes.no) as nat
                        } else {
                            (total_power - votes.abstain) as nat
                        },
                    )
                }
            },
            Threshold::AbsoluteCount { threshold } => votes.yes + (total_power
                - votes.spec_total()) < threshold,
        }
    }

    /// The decision for a tally: passed where it passes; rejected where it can
    /// no longer pass or voting has closed without a pass; undecided otherwise.
    pub open spec fn spec_evaluate(self, votes: Votes, total_power: u128, expired: bool) -> Decision {
        if self.spec_passes(votes, total_power, expired) {
            Decision::Passed
        } else if expired || self.spec_fails(votes, total_power, expired) {
            Decision::Rejected
        } else {
            Decision::Undecided
        }
    }

    /// Checks the policy: a passing share lies above zero and at most at one
    /// hundred percent, a quorum at most at one hundred percent, and an
    /// absolute count is not zero.
    pub fn validate(&self) -> (r: Result<(), ThresholdError>)
        ensures
            r == self.spec_validate(),
            r is Ok <==> self.valid(),
    {
        match self {
            Threshold::AbsolutePercentage { percentage } => validate_share(percentage),
            Threshold::ThresholdQuorum { threshold, quorum } => {
                match validate_share(threshold) {
                    Err(e) => Err(e),
                    Ok(_) => validate_quorum(quorum),
                }
            },
            Threshold::AbsoluteCount { threshold } => {
                if *threshold == 0 {
                    Err(ThresholdError::ZeroThreshold)
                } else {
                    Ok(())
                }
            },
        }
    }

    /// Whether the tally passes under this policy.
    pub fn passes(&self, votes: &Votes, total_power: u128, expired: bool) -> (r: bool)
        requires
            votes.spec_total() <= total_power,
        ensures
            r == self.spec_passes(*votes, total_power, expired),
    {
        match self {
            Threshold::AbsolutePercentage { percentage } => {
                does_vote_count_pass(votes.yes, total_power - votes.abstain, *percentage)
            },
            Threshold::ThresholdQuorum { threshold, quorum } => {
                let cast: u128 = votes.yes + votes.no + votes.abstain;
                if !does_vote_count_pass(cast, total_power, *quorum) {
                    false
                } else if expired {
                    does_vote_count_pass(votes.yes, votes.yes + votes.no, *threshold)
                } else {
                    does_vote_count_pass(votes.yes, total_power - votes.abstain, *threshold)
                }
            },
            Threshold::AbsoluteCount { threshold } => votes.yes >= *threshold,
        }
    }

    /// Whether the tally can no longer pass under this policy.
    pub fn fails(&self, votes: &Votes, total_power: u128, expired: bool) -> (r: bool)
        requires
            self.valid(),
            votes.spec_total() <= total_power,
        ensures
            r == self.spec_fails(*votes, total_power, expired),
    {
        match self {
            Threshold::AbsolutePercentage { percentage } => {
                percentage.no_votes_fail(votes.no, total_power - votes.abstain)
            },
            Threshold::ThresholdQuorum { threshold, quorum } => {
                let cast: u128 = votes.yes + votes.no + votes.abstain;
                if expired && !does_vote_count_pass(cast, total_power, *quorum) {
                    true
                } else if expired {
                    threshold.no_votes_fail(votes.no, votes.yes + votes.no)
                } else {
                    threshold.no_votes_fail(votes.no, total_power - votes.abstain)
                }
            },
            Threshold::AbsoluteCount { threshold } => {
                let outstanding: u128 = total_power - (votes.yes + votes.no + votes.abstain);
                votes.yes + outstanding < *threshold
            },
        }
    }

    /// Evaluates a tally against the total power under this policy.
    pub fn evaluate(&self, votes: &Votes, total_power: u128, expired: bool) -> (r: Decision)
        requires
            self.valid(),
            votes.spec_total() <= total_power,
        ensures
            r == self.spec_evaluate(*votes, total_power, expired),
    {
        if self.passes(votes, total_power, expired) {
            Decision::Passed
        } else if expired || self.fails(votes, total_power, expired) {
            Decision::Rejected
        } else {
            Decision::Undecided
        }
    }
}

/// What the check of a passing share returns.
pub open spec fn spec_validate_share(share: PercentageThreshold) -> Result<(), ThresholdError> {
    match share {
        PercentageThreshold::Majority => Ok(()),
        PercentageThreshold::Percent(p) => if p.atomics == 0 {
            Err(ThresholdError::ZeroThreshold)
        } else if p.atomics > DECIMAL_ONE {
            Err(ThresholdError::UnreachableThreshold)
        } else {
            Ok(())
        },
    }
}

fn validate_share(share: &PercentageThreshold) -> (r: Result<(), ThresholdError>)
    ensures
        r == spec_validate_share(*share),
        r is Ok <==> share.valid_share(),
{
    match share {
        PercentageThreshold::Majority => Ok(()),
        PercentageThreshold::Percent(p) => {
            if p.atomics == 0 {
                Err(ThresholdError::ZeroThreshold)
            } else if p.atomics > DECIMAL_ONE {
                Err(ThresholdError::UnreachableThreshold)
            } else {
                Ok(())
            }
        },
    }
}

/// Checks a quorum: it may be zero, and may not exceed one hundred percent.
pub fn validate_quorum(quorum: &PercentageThreshold) -> (r: Result<(), ThresholdError>)
    ensures
        r == if quorum.valid_quorum() {
            Ok::<(), ThresholdError>(())
        } else {
            Err(ThresholdError::UnreachableThreshold)
        },
{
    match quorum {
        PercentageThreshold::Majority => Ok(()),
        PercentageThreshold::Percent(p) => {
            if p.atomics > DECIMAL_ONE {
                Err(ThresholdError::UnreachableThreshold)
            } else {
                Ok(())
            }
        },
    }
}

/// Half of the decimal one.
pub const DECIMAL_HALF: u128 = 500_000_000_000_000_000;

impl PercentageThreshold {
    /// A share that a lead over everything that may still go against it
    /// reaches: a majority, or at most one half.
    pub open spec fn at_most_half(self) -> bool {
        self matches PercentageThreshold::Percent(p) ==> p.atomics <= DECIMAL_HALF
    }
}

impl Threshold {
    /// The policies under which a lead of the yes votes over all power that
    /// may still go against them is enough to pass: every share that the
    /// policy asks for is a majority or at most one half, and an absolute
    /// count is at most half of the power that has not abstained, rounded up.
    pub open spec fn met_by_a_lead(self, votes: Votes, total_power: u128) -> bool {
        match self {
            Threshold::AbsolutePercentage { percentage } => percentage.at_most_half(),
            Threshold::ThresholdQuorum { threshold, quorum } => threshold.at_most_half()
                && quorum.at_most_half(),
            Threshold::AbsoluteCount { threshold } => 2 * threshold <= total_power - votes.abstain
                + 1,
        }
    }
}

/// More than half of the options reaches every share that is a majority or at
/// most one half.
pub proof fn lemma_more_than_half_passes(weight: nat, options: nat, percent: PercentageThreshold)
    requires
        weight <= options,
        2 * weight > options,
        percent.at_most_half(),
    ensures
        vote_count_passes(weight, options, percent),
{
    match percent {
        PercentageThreshold::Majority => {},
        PercentageThreshold::Percent(p) => {
            let scaled = options * PRECISION_FACTOR;
            let atomics = p.atomics as int;
            assert(scaled * atomics <= scaled * 500_000_000_000_000_000) by (nonlinear_arith)
                requires
                    0 <= scaled,
                    0 <= atomics <= 500_000_000_000_000_000,
            ;
        },
    }
}

/// Early decision: where the yes votes exceed all power that may still go
/// against them, the no votes and the power not yet cast together, the tally
/// passes while voting is still open, under every policy that such a lead can
/// meet at all.
pub proof fn lemma_lead_passes_early(threshold: Threshold, votes: Votes, total_power: u128)
    requires
        votes.spec_total() <= total_power,
        votes.yes > votes.no + (total_power - votes.spec_total()),
        threshold.met_by_a_lead(votes, total_power),
    ensures
        threshold.spec_passes(votes, total_power, false),
        threshold.spec_evaluate(votes, total_power, false) == Decision::Passed,
{
    let options = (total_power - votes.abstain) as nat;
    match threshold {
        Threshold::AbsolutePercentage { percentage } => {
            lemma_more_than_half_passes(votes.yes as nat, options, percentage);
        },
        Threshold::ThresholdQuorum { threshold, quorum } => {
            lemma_more_than_half_passes(votes.spec_total(), total_power as nat, quorum);
            lemma_more_than_half_passes(votes.yes as nat, options, threshold);
        },
        Threshold::AbsoluteCount { threshold } => {},
    }
}

/// More weight behind a share and fewer options to measure it against keep a
/// pass a pass, as long as options remain.
pub proof fn lemma_passing_is_monotone(
    weight: nat,
    options: nat,
    more_weight: nat,
    fewer_options: nat,
    percent: PercentageThreshold,
)
    requires
        weight <= more_weight,
        0 < fewer_options <= options,
        vote_count_passes(weight, options, percent),
    ensures
        vote_count_passes(more_weight, fewer_options, percent),
{
    match percent {
        PercentageThreshold::Majority => {},
        PercentageThreshold::Percent(p) => {
            let atomics = p.atomics as int;
            let before = options * 1_000_000_000 * atomics;
            let after = fewer_options * 1_000_000_000 * atomics;
            assert(after <= before) by (nonlinear_arith)
                requires
                    0 <= fewer_options <= options,
                    0 <= atomics,
                    before == options * 1_000_000_000 * atomics,
                    after == fewer_options * 1_000_000_000 * atomics,
            ;
        },
    }
}

/// An early pass is final: where a tally with yes votes passes while voting
/// is open, every tally that later votes can turn it into passes as well,
/// while voting is open and once it has closed.
pub proof fn lemma_early_pass_is_final(
    threshold: Threshold,
    votes: Votes,
    later: Votes,
    total_power: u128,
    expired: bool,
)
    requires
        votes.spec_total() <= total_power,
        later.spec_total() <= total_power,
        votes.yes <= later.yes,
        votes.no <= later.no,
        votes.abstain <= later.abstain,
        votes.yes > 0,
        threshold.spec_passes(votes, total_power, false),
    ensures
        threshold.spec_passes(later, total_power, expired),
{
    let options = (total_power - votes.abstain) as nat;
    let later_options = (total_power - later.abstain) as nat;
    match threshold {
        Threshold::AbsolutePercentage { percentage } => {
            lemma_passing_is_monotone(
                votes.yes as nat,
                options,
                later.yes as nat,
                later_options,
                percentage,
            );
        },
        Threshold::ThresholdQuorum { threshold, quorum } => {
            lemma_passing_is_monotone(
                votes.yes as nat,
                options,
                later.yes as nat,
                if expired {
                    (later.yes + later.no) as nat
                } else {
                    later_options
                },
                threshold,
            );
        },
        Threshold::AbsoluteCount { threshold } => {},
    }
}

/// No votes of less than half of the options do not fail a share that is a
/// majority or at most one half.
pub proof fn lemma_less_than_half_does_not_fail(no: nat, options: nat, percent: PercentageThreshold)
    requires
        2 * no < options,
        percent.at_most_half(),
    ensures
        !percent.spec_no_votes_fail(no, options),
{
    match percent {
        PercentageThreshold::Majority => {},
        PercentageThreshold::Percent(p) => {
            let rest = (DECIMAL_ONE - p.atomics) as int;
            let scaled = options * 1_000_000_000;
            assert(scaled * rest >= (options * 500_000_000) * 1_000_000_000_000_000_000)
                by (nonlinear_arith)
                requires
                    scaled == options * 1_000_000_000,
                    rest >= 500_000_000_000_000_000,
                    options >= 0,
            ;
            assert((scaled * rest) / 1_000_000_000_000_000_000 >= options * 500_000_000)
                by (nonlinear_arith)
                requires
                    scaled * rest >= (options * 500_000_000) * 1_000_000_000_000_000_000,
            ;
            assert(no * 1_000_000_000 <= options * 500_000_000) by (nonlinear_arith)
                requires
                    2 * no < options,
            ;
        },
    }
}

/// Under a lead nothing is rejected on the way: where the votes can still
/// grow into a tally whose yes votes exceed all power that may go against
/// them, and the policy is one that such a lead can meet, the votes do not
/// fail while voting is open.
pub proof fn lemma_lead_is_never_rejected(
    threshold: Threshold,
    votes: Votes,
    bound: Votes,
    total_power: u128,
)
    requires
        bound.spec_total() <= total_power,
        votes.yes <= bound.yes,
        votes.no <= bound.no,
        votes.abstain <= bound.abstain,
        bound.yes > bound.no + (total_power - bound.spec_total()),
        threshold.met_by_a_lead(bound, total_power),
    ensures
        !threshold.spec_fails(votes, total_power, false),
{
    let options = (total_power - votes.abstain) as nat;
    match threshold {
        Threshold::AbsolutePercentage { percentage } => {
            lemma_less_than_half_does_not_fail(votes.no as nat, options, percentage);
        },
        Threshold::ThresholdQuorum { threshold, quorum } => {
            lemma_less_than_half_does_not_fail(votes.no as nat, options, threshold);
        },
        Threshold::AbsoluteCount { threshold } => {},
    }
}

} // verus!
