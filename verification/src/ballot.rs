//! The ballot ledger of a proposal: one ballot per voter, in the order in
//! which the voters first voted, and the tally that the ballots add up to.

use vstd::prelude::*;
use crate::error::ContractError;
use crate::proposal::{clone_text, SingleChoiceProposal};
use crate::votes::{Vote, Votes};

verus! {

/// A vote cast on a proposal.
#[derive(Debug, PartialEq, Eq)]
pub struct Ballot {
    /// The voting power behind the vote.
    pub power: u128,
    /// The position.
    pub vote: Vote,
    /// Why the voter voted so, if they said.
    pub rationale: Option<String>,
}

/// A ballot with the address that cast it.
#[derive(Debug, PartialEq, Eq)]
pub struct BallotEntry {
    pub voter: String,
    pub ballot: Ballot,
}

/// The ballots cast on one proposal.
#[derive(Debug, PartialEq, Eq)]
pub struct BallotLedger {
    pub entries: Vec<BallotEntry>,
}

impl Clone for Ballot {
    fn clone(&self) -> (r: Self)
        ensures
            r == *self,
    {
        Ballot { power: self.power, vote: self.vote, rationale: clone_text(&self.rationale) }
    }
}

impl Clone for BallotEntry {
    fn clone(&self) -> (r: Self)
        ensures
            r == *self,
    {
        BallotEntry { voter: self.voter.clone(), ballot: self.ballot.clone() }
    }
}

/// The address behind the entry at `i`.
pub open spec fn voter_at(entries: Seq<BallotEntry>, i: int) -> Seq<char> {
    entries[i].voter@
}

/// Whether `voter` has an entry.
pub open spec fn holds_voter(entries: Seq<BallotEntry>, voter: Seq<char>) -> bool {
    exists|i: int| 0 <= i < entries.len() && #[trigger] voter_at(entries, i) == voter
}

/// The place of an entry of `voter`, where there is one.
pub open spec fn slot_of(entries: Seq<BallotEntry>, voter: Seq<char>) -> int {
    choose|i: int| 0 <= i < entries.len() && #[trigger] voter_at(entries, i) == voter
}

/// No two entries belong to one voter.
pub open spec fn distinct_voters(entries: Seq<BallotEntry>) -> bool {
    forall|i: int, j: int|
        0 <= i < j < entries.len() ==> #[trigger] voter_at(entries, i) != #[trigger] voter_at(
            entries,
            j,
        )
}

/// The power that one entry adds to the position `vote`.
pub open spec fn contribution(entry: BallotEntry, vote: Vote) -> nat {
    if entry.ballot.vote == vote {
        entry.ballot.power as nat
    } else {
        0
    }
}

/// The power that all entries together put behind the position `vote`.
pub open spec fn power_behind(entries: Seq<BallotEntry>, vote: Vote) -> nat
    decreases entries.len(),
{
    if entries.len() == 0 {
        0
    } else {
        power_behind(entries.drop_last(), vote) + contribution(entries.last(), vote)
    }
}

/// The rationale a changed ballot carries: the new one where one is given,
/// else the one recorded before.
pub open spec fn carried_rationale(given: Option<String>, recorded: Option<String>) -> Option<
    String,
> {
    if given is Some {
        given
    } else {
        recorded
    }
}

/// One more entry adds its power to its position and to no other.
pub proof fn lemma_power_behind_push(entries: Seq<BallotEntry>, entry: BallotEntry, vote: Vote)
    ensures
        power_behind(entries.push(entry), vote) == power_behind(entries, vote) + contribution(
            entry,
            vote,
        ),
{
    assert(entries.push(entry).drop_last() =~= entries);
}

/// Replacing an entry takes its power out of the sums and puts the power of
/// the new entry in.
pub proof fn lemma_power_behind_update(
    entries: Seq<BallotEntry>,
    i: int,
    entry: BallotEntry,
    vote: Vote,
)
    requires
        0 <= i < entries.len(),
    ensures
        power_behind(entries.update(i, entry), vote) + contribution(entries[i], vote)
            == power_behind(entries, vote) + contribution(entry, vote),
    decreases entries.len(),
{
    let updated = entries.update(i, entry);
    if i == entries.len() - 1 {
        assert(updated.drop_last() =~= entries.drop_last());
    } else {
        assert(updated.drop_last() =~= entries.drop_last().update(i, entry));
        lemma_power_behind_update(entries.drop_last(), i, entry, vote);
    }
}

/// No entry holds more power than its position holds in all.
pub proof fn lemma_contribution_is_counted(entries: Seq<BallotEntry>, i: int, vote: Vote)
    requires
        0 <= i < entries.len(),
    ensures
        contribution(entries[i], vote) <= power_behind(entries, vote),
    decreases entries.len(),
{
    if i < entries.len() - 1 {
        lemma_contribution_is_counted(entries.drop_last(), i, vote);
    }
}

/// An entry that takes the place of an entry of the same voter leaves the
/// voters distinct.
pub proof fn lemma_replaced_entry_keeps_voters_distinct(
    entries: Seq<BallotEntry>,
    i: int,
    entry: BallotEntry,
)
    requires
        distinct_voters(entries),
        0 <= i < entries.len(),
        entry.voter@ == voter_at(entries, i),
    ensures
        distinct_voters(entries.update(i, entry)),
{
    let replaced = entries.update(i, entry);
    assert forall|a: int, b: int| 0 <= a < b < replaced.len() implies #[trigger] voter_at(
        replaced,
        a,
    ) != #[trigger] voter_at(replaced, b) by {
        assert(voter_at(entries, a) != voter_at(entries, b));
    }
}

/// The first entry of a voter leaves the voters distinct.
pub proof fn lemma_new_voter_keeps_voters_distinct(entries: Seq<BallotEntry>, entry: BallotEntry)
    requires
        distinct_voters(entries),
        !holds_voter(entries, entry.voter@),
    ensures
        distinct_voters(entries.push(entry)),
{
    let longer = entries.push(entry);
    assert forall|a: int, b: int| 0 <= a < b < longer.len() implies #[trigger] voter_at(longer, a)
        != #[trigger] voter_at(longer, b) by {
        if b < entries.len() {
            assert(voter_at(entries, a) != voter_at(entries, b));
        } else {
            assert(voter_at(entries, a) != entry.voter@);
        }
    }
}

/// The power behind a position among the first entries is at most the power
/// behind it among all.
pub proof fn lemma_power_behind_grows(entries: Seq<BallotEntry>, n: int, vote: Vote)
    requires
        0 <= n <= entries.len(),
    ensures
        power_behind(entries.take(n), vote) <= power_behind(entries, vote),
    decreases entries.len(),
{
    if n == entries.len() {
        assert(entries.take(n) =~= entries);
    } else {
        assert(entries.drop_last().take(n) =~= entries.take(n));
        lemma_power_behind_grows(entries.drop_last(), n, vote);
    }
}

/// The ballot of `voter` among `entries`, if they have cast one.
pub open spec fn ballot_in(entries: Seq<BallotEntry>, voter: Seq<char>) -> Option<Ballot> {
    if holds_voter(entries, voter) {
        Some(entries[slot_of(entries, voter)].ballot)
    } else {
        None
    }
}

/// Whether `votes` is what the ballots in `entries` add up to.
pub open spec fn tallied(entries: Seq<BallotEntry>, votes: Votes) -> bool {
    &&& votes.yes == power_behind(entries, Vote::Yes)
    &&& votes.no == power_behind(entries, Vote::No)
    &&& votes.abstain == power_behind(entries, Vote::Abstain)
}

/// Whether `voter` can cast `choice` with `power` on `proposal`, whose
/// ballots so far are `entries`; if not, why not.
pub open spec fn cast_outcome(
    entries: Seq<BallotEntry>,
    proposal: SingleChoiceProposal,
    voter: Seq<char>,
    power: u128,
    choice: Vote,
) -> Result<(), ContractError> {
    if power == 0 {
        Err(ContractError::NotEligible)
    } else {
        match ballot_in(entries, voter) {
            Some(recorded) => if !proposal.allow_revoting {
                Err(ContractError::AlreadyDecided)
            } else if recorded.vote == choice {
                Err(ContractError::DuplicateVote)
            } else if proposal.votes.spec_total() - recorded.power + power > proposal.total_power {
                Err(ContractError::PowerExceedsTotal)
            } else {
                Ok(())
            },
            None => if proposal.votes.spec_total() + power > proposal.total_power {
                Err(ContractError::PowerExceedsTotal)
            } else {
                Ok(())
            },
        }
    }
}

/// The entries after `voter` has cast `choice`: a first ballot goes to the
/// end; a changed ballot takes the place of the one before.
pub open spec fn entries_after(
    entries: Seq<BallotEntry>,
    voter: String,
    power: u128,
    choice: Vote,
    rationale: Option<String>,
) -> Seq<BallotEntry> {
    match ballot_in(entries, voter@) {
        Some(recorded) => entries.update(
            slot_of(entries, voter@),
            BallotEntry {
                voter,
                ballot: Ballot {
                    power,
                    vote: choice,
                    rationale: carried_rationale(rationale, recorded.rationale),
                },
            },
        ),
        None => entries.push(
            BallotEntry { voter, ballot: Ballot { power, vote: choice, rationale } },
        ),
    }
}

/// The tally after `voter` has cast `choice`: the power of a ballot that is
/// replaced leaves its position before the new power is added.
pub open spec fn votes_after(
    entries: Seq<BallotEntry>,
    votes: Votes,
    voter: Seq<char>,
    power: u128,
    choice: Vote,
) -> Votes {
    match ballot_in(entries, voter) {
        Some(recorded) => votes.minus(recorded.vote, recorded.power).plus(choice, power),
        None => votes.plus(choice, power),
    }
}

impl BallotLedger {
    /// A ledger is well formed when no voter has two ballots in it.
    pub open spec fn wf(&self) -> bool {
        distinct_voters(self.entries@)
    }

    /// Whether `votes` is what the ballots add up to.
    pub open spec fn tallied_in(&self, votes: Votes) -> bool {
        tallied(self.entries@, votes)
    }

    /// The ballot of `voter`, if they have cast one.
    pub open spec fn ballot_of(&self, voter: Seq<char>) -> Option<Ballot> {
        ballot_in(self.entries@, voter)
    }

    /// What [`BallotLedger::cast`] returns.
    pub open spec fn spec_cast(
        &self,
        proposal: SingleChoiceProposal,
        voter: Seq<char>,
        power: u128,
        choice: Vote,
    ) -> Result<(), ContractError> {
        cast_outcome(self.entries@, proposal, voter, power, choice)
    }

    /// The entries after `voter` has cast `choice`.
    pub open spec fn entries_after_cast(
        &self,
        voter: String,
        power: u128,
        choice: Vote,
        rationale: Option<String>,
    ) -> Seq<BallotEntry> {
        entries_after(self.entries@, voter, power, choice, rationale)
    }

    /// The tally after `voter` has cast `choice`.
    pub open spec fn votes_after_cast(
        &self,
        votes: Votes,
        voter: Seq<char>,
        power: u128,
        choice: Vote,
    ) -> Votes {
        votes_after(self.entries@, votes, voter, power, choice)
    }

    /// Tests [`BallotLedger::wf`]: whether no voter has two ballots.
    pub fn is_well_formed(&self) -> (r: bool)
        ensures
            r == self.wf(),
    {
        let mut b: usize = 0;
        while b < self.entries.len()
            invariant
                b <= self.entries@.len(),
                forall|i: int, j: int|
                    0 <= i < j < b ==> #[trigger] voter_at(self.entries@, i) != #[trigger] voter_at(
                        self.entries@,
                        j,
                    ),
            decreases self.entries@.len() - b,
        {
            let mut a: usize = 0;
            while a < b
                invariant
                    a <= b < self.entries@.len(),
                    forall|i: int|
                        0 <= i < a ==> #[trigger] voter_at(self.entries@, i) != voter_at(
                            self.entries@,
                            b as int,
                        ),
                decreases b - a,
            {
                if self.entries[a].voter == self.entries[b].voter {
                    assert(voter_at(self.entries@, a as int) == voter_at(self.entries@, b as int));
                    return false;
                }
                a += 1;
            }
            b += 1;
        }
        true
    }

    /// Adds up the ballots per position; `None` where a sum leaves 128 bits.
    pub fn tally(&self) -> (r: Option<Votes>)
        ensures
            match r {
                Some(votes) => self.tallied_in(votes),
                None => power_behind(self.entries@, Vote::Yes) > u128::MAX || power_behind(
                    self.entries@,
                    Vote::No,
                ) > u128::MAX || power_behind(self.entries@, Vote::Abstain) > u128::MAX,
            },
    {
        let mut votes = Votes::zero();
        let mut i: usize = 0;
        while i < self.entries.len()
            invariant
                i <= self.entries@.len(),
                tallied(self.entries@.take(i as int), votes),
            decreases self.entries@.len() - i,
        {
            let vote = self.entries[i].ballot.vote;
            let power = self.entries[i].ballot.power;
            proof {
                assert(self.entries@.take(i + 1).drop_last() =~= self.entries@.take(i as int));
                lemma_power_behind_grows(self.entries@, i + 1, vote);
            }
            match votes.get(vote).checked_add(power) {
                Some(_) => {
                    votes.add_vote(vote, power);
                },
                None => {
                    return None;
                },
            }
            i += 1;
        }
        assert(self.entries@.take(i as int) =~= self.entries@);
        Some(votes)
    }

    /// A ledger without ballots.
    pub fn new() -> (r: BallotLedger)
        ensures
            r.entries@.len() == 0,
            r.wf(),
            r.tallied_in(Votes { yes: 0, no: 0, abstain: 0 }),
    {
        BallotLedger { entries: Vec::new() }
    }

    /// The place of the first ballot of `voter`; in a well-formed ledger it
    /// is the only one.
    pub fn find(&self, voter: &String) -> (r: Option<usize>)
        ensures
            match r {
                Some(i) => i < self.entries@.len() && voter_at(self.entries@, i as int) == voter@
                    && forall|j: int| 0 <= j < i ==> #[trigger] voter_at(self.entries@, j) != voter@,
                None => !holds_voter(self.entries@, voter@),
            },
            self.wf() ==> (r matches Some(i) ==> slot_of(self.entries@, voter@) == i),
            r is Some <==> holds_voter(self.entries@, voter@),
    {
        let mut i: usize = 0;
        while i < self.entries.len()
            invariant
                i <= self.entries@.len(),
                forall|j: int| 0 <= j < i ==> #[trigger] voter_at(self.entries@, j) != voter@,
            decreases self.entries@.len() - i,
        {
            if self.entries[i].voter == *voter {
                assert(voter_at(self.entries@, i as int) == voter@);
                return Some(i);
            }
            i += 1;
        }
        None
    }

    /// A copy of the ballot of `voter`, if they have cast one.
    pub fn get(&self, voter: &String) -> (r: Option<Ballot>)
        requires
            self.wf(),
        ensures
            r == self.ballot_of(voter@),
    {
        match self.find(voter) {
            Some(i) => Some(self.entries[i].ballot.clone()),
            None => None,
        }
    }

    /// The tally that `proposal` would have after `voter` has cast `choice`
    /// with `power`, or the reason for which the ballot would be refused.
    pub fn preview_cast(&self, proposal: &SingleChoiceProposal, voter: &String, power: u128, choice: Vote) -> (r:
        Result<Votes, ContractError>)
        requires
            self.wf(),
            proposal.wf(),
            self.tallied_in(proposal.votes),
        ensures
            match self.spec_cast(*proposal, voter@, power, choice) {
                Ok(_) => r == Ok::<Votes, ContractError>(
                    self.votes_after_cast(proposal.votes, voter@, power, choice),
                ) && proposal.with_votes(r->Ok_0).wf(),
                Err(e) => r == Err::<Votes, ContractError>(e),
            },
    {
        if power == 0 {
            return Err(ContractError::NotEligible);
        }
        let cast_so_far: u128 = proposal.votes.yes + proposal.votes.no + proposal.votes.abstain;
        let mut votes = proposal.votes;
        match self.find(voter) {
            Some(i) => {
                if !proposal.allow_revoting {
                    return Err(ContractError::AlreadyDecided);
                }
                let recorded_vote = self.entries[i].ballot.vote;
                let recorded_power = self.entries[i].ballot.power;
                if recorded_vote == choice {
                    return Err(ContractError::DuplicateVote);
                }
                proof {
                    lemma_contribution_is_counted(self.entries@, i as int, recorded_vote);
                }
                if power > proposal.total_power - (cast_so_far - recorded_power) {
                    return Err(ContractError::PowerExceedsTotal);
                }
                votes.remove_vote(recorded_vote, recorded_power);
                votes.add_vote(choice, power);
                Ok(votes)
            },
            None => {
                if power > proposal.total_power - cast_so_far {
                    return Err(ContractError::PowerExceedsTotal);
                }
                votes.add_vote(choice, power);
                Ok(votes)
            },
        }
    }

    /// Casts the ballot of `voter` on `proposal` and updates the tally.
    ///
    /// A voter without power cannot vote. A voter who has voted can vote again
    /// only where the proposal allows revoting, and then only for another
    /// position: the power of the old ballot leaves the tally, the new ballot
    /// takes the place of the old one and keeps its rationale unless a new one
    /// is given. No ballot may lift the tally above the proposal's total power.
    /// A refused ballot changes nothing.
    pub fn cast(
        &mut self,
        proposal: &mut SingleChoiceProposal,
        voter: String,
        power: u128,
        choice: Vote,
        rationale: Option<String>,
    ) -> (r: Result<(), ContractError>)
        requires
            old(self).wf(),
            old(proposal).wf(),
            old(self).tallied_in(old(proposal).votes),
        ensures
            r == old(self).spec_cast(*old(proposal), voter@, power, choice),
            r is Err ==> *final(self) == *old(self) && *final(proposal) == *old(proposal),
            r is Ok ==> final(self).entries@ == old(self).entries_after_cast(
                voter,
                power,
                choice,
                rationale,
            ),
            r is Ok ==> *final(proposal) == old(proposal).with_votes(
                old(self).votes_after_cast(old(proposal).votes, voter@, power, choice),
            ),
            r is Ok ==> (final(self).ballot_of(voter@) matches Some(b) && b.power == power
                && b.vote == choice),
            r is Ok ==> forall|other: Seq<char>|
                other != voter@ ==> final(self).ballot_of(other) == old(self).ballot_of(other),
            final(self).wf(),
            final(proposal).wf(),
            final(self).tallied_in(final(proposal).votes),
    {
        let votes = match self.preview_cast(proposal, &voter, power, choice) {
            Ok(votes) => votes,
            Err(e) => { return Err(e); },
        };
        let ghost before = self.entries@;
        match self.find(&voter) {
            Some(i) => {
                let kept = match rationale {
                    Some(text) => Some(text),
                    None => clone_text(&self.entries[i].ballot.rationale),
                };
                let entry = BallotEntry {
                    voter,
                    ballot: Ballot { power, vote: choice, rationale: kept },
                };
                proof {
                    lemma_power_behind_update(before, i as int, entry, Vote::Yes);
                    lemma_power_behind_update(before, i as int, entry, Vote::No);
                    lemma_power_behind_update(before, i as int, entry, Vote::Abstain);
                    lemma_replaced_entry_keeps_voters_distinct(before, i as int, entry);
                }
                self.entries.set(i, entry);
            },
            None => {
                let entry = BallotEntry { voter, ballot: Ballot { power, vote: choice, rationale } };
                proof {
                    lemma_power_behind_push(before, entry, Vote::Yes);
                    lemma_power_behind_push(before, entry, Vote::No);
                    lemma_power_behind_push(before, entry, Vote::Abstain);
                    lemma_new_voter_keeps_voters_distinct(before, entry);
                }
                self.entries.push(entry);
            },
        }
        proposal.votes = votes;
        proof {
            lemma_cast_records_ballot(*old(self), *self, voter, power, choice, rationale);
        }
        Ok(())
    }

    /// Replaces the rationale of the ballot that `voter` has cast on the
    /// proposal `proposal_id`. Power, position and place of the ballot stay.
    pub fn amend_rationale(&mut self, proposal_id: u64, voter: &String, rationale: Option<String>) -> (r:
        Result<(), ContractError>)
        requires
            old(self).wf(),
        ensures
            match old(self).ballot_of(voter@) {
                Some(recorded) => r is Ok && final(self).entries@ == old(self).entries@.update(
                    slot_of(old(self).entries@, voter@),
                    BallotEntry {
                        voter: old(self).entries@[slot_of(old(self).entries@, voter@)].voter,
                        ballot: Ballot { power: recorded.power, vote: recorded.vote, rationale },
                    },
                ),
                None => r == Err::<(), ContractError>(
                    ContractError::NoSuchVote { id: proposal_id, voter: *voter },
                )
                    && *final(self) == *old(self),
            },
            final(self).wf(),
            power_behind(final(self).entries@, Vote::Yes) == power_behind(
                old(self).entries@,
                Vote::Yes,
            ),
            power_behind(final(self).entries@, Vote::No) == power_behind(
                old(self).entries@,
                Vote::No,
            ),
            power_behind(final(self).entries@, Vote::Abstain) == power_behind(
                old(self).entries@,
                Vote::Abstain,
            ),
    {
        let ghost before = self.entries@;
        match self.find(voter) {
            Some(i) => {
                let entry = BallotEntry {
                    voter: self.entries[i].voter.clone(),
                    ballot: Ballot {
                        power: self.entries[i].ballot.power,
                        vote: self.entries[i].ballot.vote,
                        rationale,
                    },
                };
                proof {
                    lemma_power_behind_update(before, i as int, entry, Vote::Yes);
                    lemma_power_behind_update(before, i as int, entry, Vote::No);
                    lemma_power_behind_update(before, i as int, entry, Vote::Abstain);
                    lemma_replaced_entry_keeps_voters_distinct(before, i as int, entry);
                }
                self.entries.set(i, entry);
                Ok(())
            },
            None => Err(ContractError::NoSuchVote { id: proposal_id, voter: voter.clone() }),
        }
    }
}

/// Without double voters, the place at which a voter's entry stands is the
/// only place of that voter.
pub proof fn lemma_slot_is_unique(entries: Seq<BallotEntry>, voter: Seq<char>, i: int)
    requires
        distinct_voters(entries),
        0 <= i < entries.len(),
        voter_at(entries, i) == voter,
    ensures
        holds_voter(entries, voter),
        slot_of(entries, voter) == i,
{
    let k = slot_of(entries, voter);
    if k < i {
        assert(voter_at(entries, k) != voter_at(entries, i));
    } else if i < k {
        assert(voter_at(entries, i) != voter_at(entries, k));
    }
}

/// After a ballot has been cast, the ledger holds it for its voter: with the
/// power and the position that were cast, and with the rationale that was
/// given or, where none was given with a changed ballot, the one recorded
/// before. The ballots of all other voters are what they were.
pub proof fn lemma_cast_records_ballot(
    before: BallotLedger,
    after: BallotLedger,
    voter: String,
    power: u128,
    choice: Vote,
    rationale: Option<String>,
)
    requires
        before.wf(),
        after.entries@ == before.entries_after_cast(voter, power, choice, rationale),
    ensures
        after.wf(),
        after.ballot_of(voter@) matches Some(b) && b.power == power && b.vote == choice
            && b.rationale == (match before.ballot_of(voter@) {
            Some(recorded) => carried_rationale(rationale, recorded.rationale),
            None => rationale,
        }),
        forall|other: Seq<char>| other != voter@ ==> after.ballot_of(other) == before.ballot_of(other),
{
    let old_entries = before.entries@;
    let new_entries = after.entries@;
    if holds_voter(old_entries, voter@) {
        let at = slot_of(old_entries, voter@);
        lemma_replaced_entry_keeps_voters_distinct(old_entries, at, new_entries[at]);
        lemma_slot_is_unique(new_entries, voter@, at);
    } else {
        lemma_new_voter_keeps_voters_distinct(old_entries, new_entries.last());
        lemma_slot_is_unique(new_entries, voter@, old_entries.len() as int);
    }
    assert forall|other: Seq<char>| other != voter@ implies after.ballot_of(other)
        == before.ballot_of(other) by {
        if holds_voter(old_entries, other) {
            lemma_slot_is_unique(new_entries, other, slot_of(old_entries, other));
        } else if holds_voter(new_entries, other) {
            assert(voter_at(old_entries, slot_of(new_entries, other)) == other);
        }
    }
}

/// A voter without voting power can never cast a ballot.
pub proof fn lemma_powerless_voter_is_refused(
    ledger: BallotLedger,
    proposal: SingleChoiceProposal,
    voter: Seq<char>,
    choice: Vote,
)
    ensures
        ledger.spec_cast(proposal, voter, 0, choice) == Err::<(), ContractError>(
            ContractError::NotEligible,
        ),
{
}

/// Where ballots cannot be changed, a voter whose ballot has been cast is
/// refused whatever they cast next.
pub proof fn lemma_second_ballot_is_refused(
    before: BallotLedger,
    after: BallotLedger,
    proposal: SingleChoiceProposal,
    voter: String,
    power: u128,
    choice: Vote,
    rationale: Option<String>,
    next_power: u128,
    next_choice: Vote,
)
    requires
        before.wf(),
        after.entries@ == before.entries_after_cast(voter, power, choice, rationale),
        !proposal.allow_revoting,
        next_power > 0,
    ensures
        after.spec_cast(proposal, voter@, next_power, next_choice) == Err::<(), ContractError>(
            ContractError::AlreadyDecided,
        ),
{
    lemma_cast_records_ballot(before, after, voter, power, choice, rationale);
}

/// Where ballots can be changed, casting the choice that was just cast is
/// refused as a duplicate.
pub proof fn lemma_same_choice_is_a_duplicate(
    before: BallotLedger,
    after: BallotLedger,
    proposal: SingleChoiceProposal,
    voter: String,
    power: u128,
    choice: Vote,
    rationale: Option<String>,
    next_power: u128,
)
    requires
        before.wf(),
        after.entries@ == before.entries_after_cast(voter, power, choice, rationale),
        proposal.allow_revoting,
        next_power > 0,
    ensures
        after.spec_cast(proposal, voter@, next_power, choice) == Err::<(), ContractError>(
            ContractError::DuplicateVote,
        ),
{
    lemma_cast_records_ballot(before, after, voter, power, choice, rationale);
}

/// Where ballots can be changed, a voter who casts another choice with the
/// power of their recorded ballot is accepted, and their power moves from the
/// old position to the new one: the total cast stays what it was.
pub proof fn lemma_changed_ballot_moves_power(
    ledger: BallotLedger,
    proposal: SingleChoiceProposal,
    voter: Seq<char>,
    choice: Vote,
)
    requires
        ledger.wf(),
        proposal.wf(),
        ledger.tallied_in(proposal.votes),
        proposal.allow_revoting,
        ledger.ballot_of(voter) matches Some(b) && b.vote != choice && b.power > 0,
    ensures
        ({
            let recorded = ledger.ballot_of(voter)->Some_0;
            let votes = ledger.votes_after_cast(proposal.votes, voter, recorded.power, choice);
            &&& ledger.spec_cast(proposal, voter, recorded.power, choice) is Ok
            &&& votes.spec_total() == proposal.votes.spec_total()
            &&& votes.bucket(recorded.vote) == proposal.votes.bucket(recorded.vote)
                - recorded.power
            &&& votes.bucket(choice) == proposal.votes.bucket(choice) + recorded.power
        }),
{
    let i = slot_of(ledger.entries@, voter);
    let recorded = ledger.entries@[i].ballot;
    lemma_contribution_is_counted(ledger.entries@, i, recorded.vote);
}

} // verus!
