//! The voting power of an organization as one call sees it: a snapshot of the
//! answers of the voting module for the height at which a proposal was
//! created.

use vstd::prelude::*;

verus! {

/// A member of the organization with its voting power.
#[derive(Debug, PartialEq, Eq)]
pub struct Member {
    pub addr: String,
    pub weight: u128,
}

/// What the voting module answers for one height.
#[derive(Debug, PartialEq, Eq)]
pub struct Electorate {
    /// Whether the voting module is active. A module that cannot say counts
    /// as active.
    pub active: bool,
    /// All voting power there is.
    pub total_power: u128,
    /// Voting power by address. An address that does not stand here has no
    /// power; one that stands here may have none either.
    pub members: Vec<Member>,
    /// The addresses that the membership query lists. It is asked only where
    /// execution is restricted to members; a member need not hold power.
    pub group: Vec<String>,
}

/// Whether `addr` is listed in `group`.
pub open spec fn listed(group: Seq<String>, addr: Seq<char>) -> bool {
    exists|i: int| 0 <= i < group.len() && (#[trigger] group[i])@ == addr
}

/// The power of `addr`: the weight of its first listing, or nothing.
pub open spec fn weight_of(members: Seq<Member>, addr: Seq<char>) -> u128
    decreases members.len(),
{
    if members.len() == 0 {
        0
    } else if members[0].addr@ == addr {
        members[0].weight
    } else {
        weight_of(members.drop_first(), addr)
    }
}

impl Electorate {
    /// The voting power of `addr`.
    pub open spec fn spec_power_of(&self, addr: Seq<char>) -> u128 {
        weight_of(self.members@, addr)
    }

    /// Whether the membership query lists `addr`.
    pub open spec fn spec_is_member(&self, addr: Seq<char>) -> bool {
        listed(self.group@, addr)
    }

    /// The voting power of `addr`.
    pub fn power_of(&self, addr: &String) -> (r: u128)
        ensures
            r == self.spec_power_of(addr@),
    {
        let mut i: usize = 0;
        assert(self.members@.skip(0) =~= self.members@);
        while i < self.members.len()
            invariant
                i <= self.members@.len(),
                weight_of(self.members@, addr@) == weight_of(self.members@.skip(i as int), addr@),
            decreases self.members@.len() - i,
        {
            if self.members[i].addr == *addr {
                return self.members[i].weight;
            }
            assert(self.members@.skip(i as int).drop_first() =~= self.members@.skip(i + 1));
            i += 1;
        }
        0
    }

    /// Whether the membership query lists `addr`.
    pub fn is_member(&self, addr: &String) -> (r: bool)
        ensures
            r == self.spec_is_member(addr@),
    {
        let mut i: usize = 0;
        while i < self.group.len()
            invariant
                i <= self.group@.len(),
                forall|j: int| 0 <= j < i ==> (#[trigger] self.group@[j])@ != addr@,
            decreases self.group@.len() - i,
        {
            if self.group[i] == *addr {
                return true;
            }
            i += 1;
        }
        false
    }
}

} // verus!
