//! Instant resolution: from a batch of signed votes to the message hash that
//! the majority backs.
//!
//! Every signature in a batch names the hash of the message that its signer
//! approves. The resolver adds up, per hash, the voting power of the signers'
//! addresses, and takes as the majority hash the one that has strictly more
//! power behind it than any other. Two signatures back the same message
//! exactly when their hashes are equal byte for byte. Only then are the
//! signatures verified: a signature that verifies, from a signer with power,
//! becomes a ballot, yes for the majority hash and no for any other.
//!
//! The majority is thus found by an open tally of what the signers claim, and
//! the payload is held against the outcome afterwards. The resolver never
//! compares a signature with a hash that it derives from the payload for that
//! one signer.

use vstd::prelude::*;
use crate::crypto::{
    address_of,
    derive_addr_from_pubkey,
    lemma_address_prefix_is_valid,
    secp256k1_verifies,
    signature_verifies,
    ADDRESS_PREFIX,
};
use crate::electorate::Electorate;
use crate::error::ContractError;
use crate::threshold::ThresholdError;
use crate::votes::Vote;

verus! {

/// A vote that was signed off chain: the hash of the approved message, the
/// signature over that hash, and the public key of the signer.
#[derive(Debug, PartialEq, Eq)]
pub struct VoteSignature {
    pub message_hash: Vec<u8>,
    pub signature: Vec<u8>,
    pub public_key: Vec<u8>,
}

/// What is known of a signed vote once it has been examined.
#[derive(Debug, PartialEq, Eq)]
pub struct SignedVote {
    /// The address derived from the public key.
    pub voter: String,
    /// The voting power of that address.
    pub power: u128,
    /// Whether the signature verifies for the hash under the public key.
    pub verified: bool,
    /// The hash that the signature names.
    pub message_hash: Vec<u8>,
}

/// The power that has accrued to one hash, kept with the place of the first
/// vote that names the hash.
#[derive(Clone, Copy)]
struct HashCount {
    first: usize,
    power: u128,
}

/// The hash that the vote at `i` names.
pub open spec fn hash_at(votes: Seq<SignedVote>, i: int) -> Seq<u8> {
    votes[i].message_hash@
}

/// Whether some vote names `hash`.
pub open spec fn claimed(votes: Seq<SignedVote>, hash: Seq<u8>) -> bool {
    exists|i: int| 0 <= i < votes.len() && #[trigger] hash_at(votes, i) == hash
}

/// The voting power behind `hash`: the sum of the power of all votes that
/// name it, verified or not.
pub open spec fn backing(votes: Seq<SignedVote>, hash: Seq<u8>) -> nat
    decreases votes.len(),
{
    if votes.len() == 0 {
        0
    } else {
        backing(votes.drop_last(), hash) + if votes.last().message_hash@ == hash {
            votes.last().power as nat
        } else {
            0
        }
    }
}

/// Whether `hash` is the majority hash: it has power behind it, and strictly
/// more than any other hash that a vote names.
pub open spec fn is_majority(votes: Seq<SignedVote>, hash: Seq<u8>) -> bool {
    &&& backing(votes, hash) > 0
    &&& forall|i: int|
        0 <= i < votes.len() && #[trigger] hash_at(votes, i) != hash ==> backing(
            votes,
            hash_at(votes, i),
        ) < backing(votes, hash)
}

/// Whether the power behind some hash does not fit in 128 bits.
pub open spec fn overflows(votes: Seq<SignedVote>) -> bool {
    exists|i: int| 0 <= i < votes.len() && backing(votes, #[trigger] hash_at(votes, i)) > u128::MAX
}

/// The majority hash of the votes, or the reason for which there is none:
/// the power behind a hash leaves 128 bits, or no hash has strictly the most
/// power behind it.
pub open spec fn spec_majority_hash(votes: Seq<SignedVote>) -> Result<Seq<u8>, ContractError> {
    if overflows(votes) {
        Err(ContractError::Overflow)
    } else if exists|hash: Seq<u8>| is_majority(votes, hash) {
        Ok(choose|hash: Seq<u8>| is_majority(votes, hash))
    } else {
        Err(ContractError::Threshold(ThresholdError::UnreachableThreshold))
    }
}

/// The ballot that a signed vote becomes: none where the signature does not
/// verify or the signer has no power; else yes for the majority hash and no
/// for any other.
pub open spec fn spec_synthesize(vote: SignedVote, majority: Seq<u8>) -> Option<Vote> {
    if vote.verified && vote.power != 0 {
        if vote.message_hash@ == majority {
            Some(Vote::Yes)
        } else {
            Some(Vote::No)
        }
    } else {
        None
    }
}

/// What examining `signature` against `electorate` yields.
pub open spec fn examined(signature: VoteSignature, electorate: Electorate, vote: SignedVote) -> bool {
    &&& address_of(signature.public_key@, ADDRESS_PREFIX@) == Some(vote.voter@)
    &&& vote.power == electorate.spec_power_of(vote.voter@)
    &&& vote.verified == (secp256k1_verifies(
        signature.message_hash@,
        signature.signature@,
        signature.public_key@,
    ) == Some(true))
    &&& vote.message_hash@ == signature.message_hash@
}

/// The hash counted at place `k` of a tally.
spec fn counted_hash(tally: Seq<HashCount>, votes: Seq<SignedVote>, k: int) -> Seq<u8> {
    hash_at(votes, tally[k].first as int)
}

/// Whether `tally` holds, for the first `n` votes, one count for each hash
/// that they name, with the power behind it.
spec fn tallies(tally: Seq<HashCount>, votes: Seq<SignedVote>, n: int) -> bool {
    &&& forall|k: int| 0 <= k < tally.len() ==> 0 <= (#[trigger] tally[k]).first < n
    &&& forall|k: int|
        0 <= k < tally.len() ==> (#[trigger] tally[k]).power == backing(
            votes.take(n),
            counted_hash(tally, votes, k),
        )
    &&& forall|a: int, b: int|
        0 <= a < b < tally.len() ==> #[trigger] counted_hash(tally, votes, a)
            != #[trigger] counted_hash(tally, votes, b)
    &&& forall|j: int|
        0 <= j < n ==> exists|k: int|
            0 <= k < tally.len() && #[trigger] counted_hash(tally, votes, k) == #[trigger] hash_at(
                votes,
                j,
            )
}

/// A hash that no vote names has no power behind it.
pub proof fn lemma_unclaimed_has_no_backing(votes: Seq<SignedVote>, hash: Seq<u8>)
    requires
        !claimed(votes, hash),
    ensures
        backing(votes, hash) == 0,
    decreases votes.len(),
{
    if votes.len() > 0 {
        let rest = votes.drop_last();
        assert(hash_at(votes, votes.len() - 1) != hash);
        assert forall|i: int| 0 <= i < rest.len() implies #[trigger] hash_at(rest, i) != hash by {
            assert(hash_at(votes, i) != hash);
        }
        lemma_unclaimed_has_no_backing(rest, hash);
    }
}

/// The power behind a hash among the first votes is at most the power behind
/// it among all.
pub proof fn lemma_backing_grows(votes: Seq<SignedVote>, n: int, hash: Seq<u8>)
    requires
        0 <= n <= votes.len(),
    ensures
        backing(votes.take(n), hash) <= backing(votes, hash),
    decreases votes.len(),
{
    if n == votes.len() {
        assert(votes.take(n) =~= votes);
    } else {
        assert(votes.drop_last().take(n) =~= votes.take(n));
        lemma_backing_grows(votes.drop_last(), n, hash);
    }
}

/// There is at most one majority hash.
pub proof fn lemma_majority_is_unique(votes: Seq<SignedVote>, one: Seq<u8>, other: Seq<u8>)
    requires
        is_majority(votes, one),
        is_majority(votes, other),
    ensures
        one == other,
{
    if one != other {
        if !claimed(votes, one) {
            lemma_unclaimed_has_no_backing(votes, one);
        }
        if !claimed(votes, other) {
            lemma_unclaimed_has_no_backing(votes, other);
        }
    }
}

/// A tie at the top leaves no majority: where two different hashes have the
/// same power behind them and no hash has more, there is no majority hash.
pub proof fn lemma_tie_has_no_majority(votes: Seq<SignedVote>, one: Seq<u8>, other: Seq<u8>)
    requires
        !overflows(votes),
        one != other,
        claimed(votes, one),
        claimed(votes, other),
        backing(votes, one) == backing(votes, other),
        forall|i: int|
            0 <= i < votes.len() ==> backing(votes, #[trigger] hash_at(votes, i)) <= backing(
                votes,
                one,
            ),
    ensures
        spec_majority_hash(votes) == Err::<Seq<u8>, ContractError>(
            ContractError::Threshold(ThresholdError::UnreachableThreshold),
        ),
{
    assert forall|hash: Seq<u8>| !is_majority(votes, hash) by {
        if !claimed(votes, hash) {
            lemma_unclaimed_has_no_backing(votes, hash);
        } else if hash != one {
            // the votes for `one` have at least as much power behind them
            let i = choose|i: int| 0 <= i < votes.len() && #[trigger] hash_at(votes, i) == one;
            assert(hash_at(votes, i) != hash);
        }
        // and where the hash is `one`, the votes for `other` have as much
    }
}

/// Whether two byte strings are equal.
pub fn same_bytes(a: &Vec<u8>, b: &Vec<u8>) -> (r: bool)
    ensures
        r == (a@ == b@),
{
    if a.len() != b.len() {
        return false;
    }
    let mut i: usize = 0;
    while i < a.len()
        invariant
            a@.len() == b@.len(),
            i <= a@.len(),
            forall|j: int| 0 <= j < i ==> a@[j] == b@[j],
        decreases a@.len() - i,
    {
        if a[i] != b[i] {
            return false;
        }
        i += 1;
    }
    assert(a@ =~= b@);
    true
}

/// A copy of a byte string.
pub fn clone_bytes(bytes: &Vec<u8>) -> (r: Vec<u8>)
    ensures
        r@ == bytes@,
{
    let mut out: Vec<u8> = Vec::new();
    let mut i: usize = 0;
    while i < bytes.len()
        invariant
            i <= bytes@.len(),
            out@ == bytes@.take(i as int),
        decreases bytes@.len() - i,
    {
        out.push(bytes[i]);
        i += 1;
    }
    out
}

/// Derives the signer's address from the public key and verifies the
/// signature over the claimed hash. The address does not depend on whether
/// the signature verifies; a malformed signature, hash or key does not verify.
pub fn verify_message(vote_signature: &VoteSignature) -> (r: Result<(String, bool), ContractError>)
    ensures
        r matches Ok(pair) && address_of(vote_signature.public_key@, ADDRESS_PREFIX@) == Some(
            pair.0@,
        ) && pair.0@.len() == 43 && pair.0@.subrange(0, 5) == "osmo1"@ && pair.1 == (
        secp256k1_verifies(
            vote_signature.message_hash@,
            vote_signature.signature@,
            vote_signature.public_key@,
        ) == Some(true)),
{
    proof {
        lemma_address_prefix_is_valid();
    }
    let voter_address = match derive_addr_from_pubkey(
        vote_signature.public_key.as_slice(),
        ADDRESS_PREFIX,
    ) {
        Ok(addr) => addr,
        Err(e) => { return Err(e); },
    };
    let verified = signature_verifies(
        vote_signature.message_hash.as_slice(),
        vote_signature.signature.as_slice(),
        vote_signature.public_key.as_slice(),
    );
    Ok((voter_address, verified))
}

/// Examines every signature of a batch, in order: derives the signer, looks
/// up the signer's power and verifies the signature.
pub fn examine_signatures(vote_signatures: &Vec<VoteSignature>, electorate: &Electorate) -> (r: Vec<
    SignedVote,
>)
    ensures
        r@.len() == vote_signatures@.len(),
        forall|i: int|
            0 <= i < r@.len() ==> examined(#[trigger] vote_signatures@[i], *electorate, r@[i]),
{
    let mut out: Vec<SignedVote> = Vec::new();
    let mut i: usize = 0;
    while i < vote_signatures.len()
        invariant
            i <= vote_signatures@.len(),
            out@.len() == i,
            forall|j: int|
                0 <= j < i ==> examined(#[trigger] vote_signatures@[j], *electorate, out@[j]),
        decreases vote_signatures@.len() - i,
    {
        let signature = &vote_signatures[i];
        match verify_message(signature) {
            Ok((voter, verified)) => {
                let power = electorate.power_of(&voter);
                out.push(
                    SignedVote {
                        voter,
                        power,
                        verified,
                        message_hash: clone_bytes(&signature.message_hash),
                    },
                );
            },
            Err(_) => {
            },
        }
        i += 1;
    }
    out
}

/// The place at which a tally counts the hash of the vote at `i`, if it does.
fn find_count(tally: &Vec<HashCount>, votes: &Vec<SignedVote>, i: usize) -> (r: Option<usize>)
    requires
        i < votes@.len(),
        forall|k: int| 0 <= k < tally@.len() ==> (#[trigger] tally@[k]).first < votes@.len(),
    ensures
        match r {
            Some(at) => at < tally@.len() && counted_hash(tally@, votes@, at as int) == hash_at(
                votes@,
                i as int,
            ),
            None => forall|j: int|
                0 <= j < tally@.len() ==> #[trigger] counted_hash(tally@, votes@, j) != hash_at(
                    votes@,
                    i as int,
                ),
        },
{
    let mut k: usize = 0;
    while k < tally.len()
        invariant
            k <= tally@.len(),
            i < votes@.len(),
            forall|k: int| 0 <= k < tally@.len() ==> (#[trigger] tally@[k]).first < votes@.len(),
            forall|j: int|
                0 <= j < k ==> #[trigger] counted_hash(tally@, votes@, j) != hash_at(
                    votes@,
                    i as int,
                ),
        decreases tally@.len() - k,
    {
        if same_bytes(&votes[tally[k].first].message_hash, &votes[i].message_hash) {
            return Some(k);
        }
        k += 1;
    }
    None
}

/// Adds up the power behind every hash that the votes name. It fails where a
/// sum leaves 128 bits.
fn tally_hashes(votes: &Vec<SignedVote>) -> (r: Result<Vec<HashCount>, ContractError>)
    ensures
        match r {
            Ok(tally) => tallies(tally@, votes@, votes@.len() as int) && !overflows(votes@),
            Err(e) => e == ContractError::Overflow && overflows(votes@),
        },
{
    let mut tally: Vec<HashCount> = Vec::new();
    let mut i: usize = 0;
    while i < votes.len()
        invariant
            i <= votes@.len(),
            tallies(tally@, votes@, i as int),
        decreases votes@.len() - i,
    {
        let ghost before = tally@;
        let ghost hash = hash_at(votes@, i as int);
        let ghost prefix = votes@.take(i as int);
        let ghost longer = votes@.take(i + 1);
        proof {
            assert(longer.drop_last() =~= prefix);
        }
        let found = find_count(&tally, votes, i);
        match found {
            Some(at) => {
                let sum = match tally[at].power.checked_add(votes[i].power) {
                    Some(sum) => sum,
                    None => {
                        proof {
                            lemma_backing_grows(votes@, i + 1, hash);
                        }
                        return Err(ContractError::Overflow);
                    },
                };
                let count = HashCount { first: tally[at].first, power: sum };
                tally.set(at, count);
                proof {
                    let after = tally@;
                    assert forall|j: int| 0 <= j < i + 1 implies exists|m: int|
                        0 <= m < after.len() && #[trigger] counted_hash(after, votes@, m)
                            == #[trigger] hash_at(votes@, j) by {
                        if j < i {
                            let m = choose|m: int|
                                0 <= m < before.len() && #[trigger] counted_hash(before, votes@, m)
                                    == hash_at(votes@, j);
                            assert(counted_hash(after, votes@, m) == hash_at(votes@, j));
                        } else {
                            assert(counted_hash(after, votes@, at as int) == hash_at(votes@, j));
                        }
                    }
                }
            },
            None => {
                let count = HashCount { first: i, power: votes[i].power };
                tally.push(count);
                proof {
                    let after = tally@;
                    // No earlier vote names this hash: its hash would be counted.
                    assert forall|j: int| 0 <= j < prefix.len() implies #[trigger] hash_at(
                        prefix,
                        j,
                    ) != hash by {
                        let m = choose|m: int|
                            0 <= m < before.len() && #[trigger] counted_hash(before, votes@, m)
                                == hash_at(votes@, j);
                    }
                    lemma_unclaimed_has_no_backing(prefix, hash);
                    assert forall|j: int| 0 <= j < i + 1 implies exists|m: int|
                        0 <= m < after.len() && #[trigger] counted_hash(after, votes@, m)
                            == #[trigger] hash_at(votes@, j) by {
                        if j < i {
                            let m = choose|m: int|
                                0 <= m < before.len() && #[trigger] counted_hash(before, votes@, m)
                                    == hash_at(votes@, j);
                            assert(counted_hash(after, votes@, m) == hash_at(votes@, j));
                        } else {
                            assert(counted_hash(after, votes@, before.len() as int) == hash_at(
                                votes@,
                                j,
                            ));
                        }
                    }
                }
            },
        }
        i += 1;
    }
    proof {
        assert(votes@.take(i as int) =~= votes@);
        if overflows(votes@) {
            // the hash whose power does not fit is counted, with a power that fits
            let j = choose|j: int|
                0 <= j < votes@.len() && backing(votes@, #[trigger] hash_at(votes@, j)) > u128::MAX;
        }
    }
    Ok(tally)
}

/// Picks the hash with strictly the most power from a tally of the votes.
/// There is none where no hash has any power behind it, and none where the
/// hashes with the most power are tied.
fn pick_majority(tally: &Vec<HashCount>, votes: &Vec<SignedVote>) -> (r: Result<
    Vec<u8>,
    ContractError,
>)
    requires
        tallies(tally@, votes@, votes@.len() as int),
    ensures
        match r {
            Ok(hash) => is_majority(votes@, hash@),
            Err(e) => e == ContractError::Threshold(ThresholdError::UnreachableThreshold)
                && forall|hash: Seq<u8>| !is_majority(votes@, hash),
        },
{
    proof {
        assert(votes@.take(votes@.len() as int) =~= votes@);
    }
    if tally.len() == 0 {
        proof {
            assert forall|hash: Seq<u8>| !is_majority(votes@, hash) by {
                if claimed(votes@, hash) {
                    // a vote that names the hash would be counted
                    let j = choose|j: int|
                        0 <= j < votes@.len() && #[trigger] hash_at(votes@, j) == hash;
                } else {
                    lemma_unclaimed_has_no_backing(votes@, hash);
                }
            }
        }
        return Err(ContractError::Threshold(ThresholdError::UnreachableThreshold));
    }
    let mut best: usize = 0;
    let mut tied: bool = false;
    let ghost mut rival: int = 0;
    let mut k: usize = 1;
    while k < tally.len()
        invariant
            1 <= k <= tally@.len(),
            best < k,
            forall|j: int| 0 <= j < k ==> (#[trigger] tally@[j]).power <= tally@[best as int].power,
            tied ==> 0 <= rival < k && rival != best && tally@[rival].power
                == tally@[best as int].power,
            !tied ==> forall|j: int|
                0 <= j < k && j != best ==> (#[trigger] tally@[j]).power < tally@[best as int].power,
        decreases tally@.len() - k,
    {
        if tally[k].power > tally[best].power {
            best = k;
            tied = false;
        } else if tally[k].power == tally[best].power {
            tied = true;
            proof {
                rival = k as int;
            }
        }
        k += 1;
    }
    let winner = tally[best];
    if winner.power == 0 || tied {
        proof {
            assert forall|hash: Seq<u8>| !is_majority(votes@, hash) by {
                if !claimed(votes@, hash) {
                    lemma_unclaimed_has_no_backing(votes@, hash);
                } else if is_majority(votes@, hash) {
                    // The hash is counted at some place. Where that is not the
                    // place of the best count, the best count is for another
                    // hash; where it is, the rival's count is for another hash
                    // and as high. Either way the hash is not ahead of all.
                    let j = choose|j: int|
                        0 <= j < votes@.len() && #[trigger] hash_at(votes@, j) == hash;
                    let m = choose|m: int|
                        0 <= m < tally@.len() && #[trigger] counted_hash(tally@, votes@, m)
                            == hash_at(votes@, j);
                }
            }
        }
        return Err(ContractError::Threshold(ThresholdError::UnreachableThreshold));
    }
    let hash = clone_bytes(&votes[winner.first].message_hash);
    Ok(hash)
}

/// Determines the majority hash of a batch of examined votes: the hash with
/// strictly the most voting power behind it. Every vote counts with the power
/// of its signer, whether or not its signature verifies.
///
/// It fails with `UnreachableThreshold` where no hash has any power behind it
/// and where the hashes with the most power are tied, and with `Overflow`
/// where the power behind a hash leaves 128 bits.
pub fn majority_hash(votes: &Vec<SignedVote>) -> (r: Result<Vec<u8>, ContractError>)
    ensures
        match r {
            Ok(hash) => spec_majority_hash(votes@) == Ok::<Seq<u8>, ContractError>(hash@)
                && is_majority(votes@, hash@),
            Err(e) => spec_majority_hash(votes@) == Err::<Seq<u8>, ContractError>(e),
        },
{
    match tally_hashes(votes) {
        Ok(tally) => {
            let picked = pick_majority(&tally, votes);
            proof {
                if picked is Ok {
                    let chosen = choose|h: Seq<u8>| is_majority(votes@, h);
                    lemma_majority_is_unique(votes@, chosen, picked->Ok_0@);
                }
            }
            picked
        },
        Err(e) => Err(e),
    }
}

/// The ballot that a signed vote becomes, if it becomes one.
pub fn synthesize_ballot(vote: &SignedVote, majority: &Vec<u8>) -> (r: Option<Vote>)
    ensures
        r == spec_synthesize(*vote, majority@),
{
    if vote.verified && vote.power != 0 {
        if same_bytes(&vote.message_hash, majority) {
            Some(Vote::Yes)
        } else {
            Some(Vote::No)
        }
    } else {
        None
    }
}

} // verus!
