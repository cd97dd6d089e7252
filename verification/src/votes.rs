//! Vote choices and the tally of voting power behind each of them.

use vstd::prelude::*;

verus! {

/// A position on a proposal.
#[derive(Clone, Copy, Debug, PartialEq, Eq, Structural)]
pub enum Vote {
    /// Support.
    Yes,
    /// Opposition.
    No,
    /// Participation that counts towards neither side.
    Abstain,
}

/// Voting power cast so far, per position.
#[derive(Clone, Copy, Debug, PartialEq, Eq, Structural)]
pub struct Votes {
    pub yes: u128,
    pub no: u128,
    pub abstain: u128,
}

impl Vote {
    /// The lower-case name of the position.
    pub open spec fn spec_name(self) -> Seq<char> {
        match self {
            Vote::Yes => "yes"@,
            Vote::No => "no"@,
            Vote::Abstain => "abstain"@,
        }
    }

    /// The lower-case name of the position, as hooks and events carry it.
    pub fn name(&self) -> (r: &'static str)
        ensures
            r@ == self.spec_name(),
    {
        match self {
            Vote::Yes => "yes",
            Vote::No => "no",
            Vote::Abstain => "abstain",
        }
    }
}

impl Votes {
    /// Power behind one position.
    pub open spec fn bucket(self, vote: Vote) -> u128 {
        match vote {
            Vote::Yes => self.yes,
            Vote::No => self.no,
            Vote::Abstain => self.abstain,
        }
    }

    /// The tally with the power behind `vote` replaced by `power`.
    pub open spec fn with_bucket(self, vote: Vote, power: u128) -> Votes {
        match vote {
            Vote::Yes => Votes { yes: power, ..self },
            Vote::No => Votes { no: power, ..self },
            Vote::Abstain => Votes { abstain: power, ..self },
        }
    }

    /// All power cast, as a mathematical sum.
    pub open spec fn spec_total(self) -> nat {
        (self.yes + self.no + self.abstain) as nat
    }

    /// The tally after `power` more has been cast for `vote`.
    pub open spec fn plus(self, vote: Vote, power: u128) -> Votes
        recommends
            self.bucket(vote) + power <= u128::MAX,
    {
        self.with_bucket(vote, (self.bucket(vote) + power) as u128)
    }

    /// The tally after `power` has been withdrawn from `vote`.
    pub open spec fn minus(self, vote: Vote, power: u128) -> Votes
        recommends
            power <= self.bucket(vote),
    {
        self.with_bucket(vote, (self.bucket(vote) - power) as u128)
    }

    /// The empty tally.
    pub fn zero() -> (r: Votes)
        ensures
            r == (Votes { yes: 0, no: 0, abstain: 0 }),
    {
        Votes { yes: 0, no: 0, abstain: 0 }
    }

    /// Power behind one position.
    pub fn get(&self, vote: Vote) -> (r: u128)
        ensures
            r == self.bucket(vote),
    {
        match vote {
            Vote::Yes => self.yes,
            Vote::No => self.no,
            Vote::Abstain => self.abstain,
        }
    }

    /// Adds `power` to the position `vote`.
    pub fn add_vote(&mut self, vote: Vote, power: u128)
        requires
            old(self).bucket(vote) + power <= u128::MAX,
        ensures
            *final(self) == old(self).plus(vote, power),
    {
        match vote {
            Vote::Yes => self.yes = self.yes + power,
            Vote::No => self.no = self.no + power,
            Vote::Abstain => self.abstain = self.abstain + power,
        }
    }

    /// Withdraws `power` from the position `vote`; the power must have been
    /// added there before.
    pub fn remove_vote(&mut self, vote: Vote, power: u128)
        requires
            power <= old(self).bucket(vote),
        ensures
            *final(self) == old(self).minus(vote, power),
    {
        match vote {
            Vote::Yes => self.yes = self.yes - power,
            Vote::No => self.no = self.no - power,
            Vote::Abstain => self.abstain = self.abstain - power,
        }
    }

    /// All power cast; `None` where the sum leaves 128 bits.
    pub fn total(&self) -> (r: Option<u128>)
        ensures
            r == if self.spec_total() <= u128::MAX {
                Some(self.spec_total() as u128)
            } else {
                None
            },
    {
        match self.yes.checked_add(self.no) {
            Some(sum) => sum.checked_add(self.abstain),
            None => None,
        }
    }
}

/// Moving a ballot's power from one position to another leaves the total cast
/// as it was.
pub proof fn lemma_move_keeps_total(votes: Votes, from: Vote, to: Vote, power: u128)
    requires
        from != to,
        power <= votes.bucket(from),
        votes.spec_total() <= u128::MAX,
    ensures
        votes.minus(from, power).plus(to, power).spec_total() == votes.spec_total(),
        votes.minus(from, power).plus(to, power).bucket(from) == votes.bucket(from) - power,
        votes.minus(from, power).plus(to, power).bucket(to) == votes.bucket(to) + power,
{
}

} // verus!
