//! The queries of the proposal module. A query never changes anything; a
//! proposal that it returns carries the status it has in the block of the
//! query.

use vstd::prelude::*;
use vstd::string::*;
use vstd::utf8::encode_utf8;
use crate::ballot::{BallotEntry, BallotLedger};
use crate::error::ContractError;
use crate::msg::ProposalCreationPolicy;
use crate::proposal::{clone_text, same_content, SingleChoiceProposal};
use crate::state::{Config, State};
use crate::time::BlockInfo;
use crate::votes::Vote;

verus! {

/// How many entries a list query returns where the caller names no limit.
pub const DEFAULT_LIMIT: u64 = 30;

/// A proposal with its id.
#[derive(Debug, PartialEq, Eq)]
pub struct ProposalResponse {
    pub id: u64,
    pub proposal: SingleChoiceProposal,
}

/// A ballot with its voter.
#[derive(Debug, PartialEq, Eq)]
pub struct VoteInfo {
    pub voter: String,
    pub vote: Vote,
    pub power: u128,
    pub rationale: Option<String>,
}

/// The answer to the query for the proposal `id`: the proposal with its
/// status as of `block`.
pub open spec fn spec_response(state: State, block: BlockInfo, id: u64) -> Result<
    ProposalResponse,
    ContractError,
> {
    if !state.has_proposal(id) {
        Err(ContractError::NoSuchProposal { id })
    } else {
        match state.poll(id).proposal.spec_current_status(block) {
            Ok(status) => Ok(
                ProposalResponse { id, proposal: state.poll(id).proposal.with_status(status) },
            ),
            Err(e) => Err(ContractError::Time(e)),
        }
    }
}

/// Whether `r` answers the query for the proposal `id`: the refusal, or the
/// proposal under its id with its status as of `block` and the content that
/// is stored.
pub open spec fn shows(
    r: Result<ProposalResponse, ContractError>,
    state: State,
    block: BlockInfo,
    id: u64,
) -> bool {
    match spec_response(state, block, id) {
        Ok(expected) => r matches Ok(shown) && shown.id == id && same_content(
            shown.proposal,
            expected.proposal,
        ),
        Err(e) => r == Err::<ProposalResponse, ContractError>(e),
    }
}

/// The limit of a list query.
pub open spec fn spec_limit(limit: Option<u64>) -> u64 {
    match limit {
        Some(n) => n,
        None => DEFAULT_LIMIT,
    }
}

/// The ids that an ascending list returns: those above `start_after`, lowest
/// first, no more than `limit`.
pub open spec fn ascending_ids(count: nat, start_after: Option<u64>, limit: u64) -> Seq<u64> {
    let first: int = match start_after {
        Some(after) => after + 1,
        None => 1,
    };
    let available: int = if first > count {
        0
    } else {
        count - first + 1
    };
    let n: int = if limit < available {
        limit as int
    } else {
        available
    };
    Seq::new(n as nat, |i: int| (first + i) as u64)
}

/// The ids that a descending list returns: those below `start_before`,
/// highest first, no more than `limit`.
pub open spec fn descending_ids(count: nat, start_before: Option<u64>, limit: u64) -> Seq<u64> {
    let last: int = match start_before {
        Some(before) => if before == 0 {
            0
        } else if before - 1 < count {
            before - 1
        } else {
            count as int
        },
        None => count as int,
    };
    let n: int = if limit < last {
        limit as int
    } else {
        last
    };
    Seq::new(n as nat, |i: int| (last - i) as u64)
}

/// Whether `r` is the answer for the proposals `ids`, in order: all of them,
/// or the refusal of the first that cannot be answered.
pub open spec fn lists(
    r: Result<Vec<ProposalResponse>, ContractError>,
    state: State,
    block: BlockInfo,
    ids: Seq<u64>,
) -> bool {
    match r {
        Ok(list) => list@.len() == ids.len() && forall|i: int|
            0 <= i < ids.len() ==> shows(
                Ok::<ProposalResponse, ContractError>(list@[i]),
                state,
                block,
                #[trigger] ids[i],
            ),
        Err(e) => exists|k: int|
            0 <= k < ids.len() && spec_response(state, block, #[trigger] ids[k]) == Err::<
                ProposalResponse,
                ContractError,
            >(e) && forall|j: int| 0 <= j < k ==> spec_response(state, block, #[trigger] ids[j]) is Ok,
    }
}

/// What is shown of a ballot.
pub open spec fn info_of(entry: BallotEntry) -> VoteInfo {
    VoteInfo {
        voter: entry.voter,
        vote: entry.ballot.vote,
        power: entry.ballot.power,
        rationale: entry.ballot.rationale,
    }
}

/// Whether the byte string `a` comes before `b` in the order of a dictionary:
/// at the first place where they differ `a` has the smaller byte, or `a` ends
/// there and `b` goes on.
pub open spec fn bytes_less(a: Seq<u8>, b: Seq<u8>) -> bool
    decreases a.len(),
{
    if b.len() == 0 {
        false
    } else if a.len() == 0 {
        true
    } else if a[0] != b[0] {
        a[0] < b[0]
    } else {
        bytes_less(a.drop_first(), b.drop_first())
    }
}

/// How one byte string stands to another in the order of a dictionary.
#[derive(Clone, Copy, Debug, PartialEq, Eq, Structural)]
pub enum ByteOrder {
    Before,
    Same,
    After,
}

/// The key by which the ballot at `i` is listed: the bytes of its voter's
/// address.
pub open spec fn key_at(entries: Seq<BallotEntry>, i: int) -> Seq<u8> {
    encode_utf8(entries[i].voter@)
}

/// The cursor of a list of votes: the bytes of the address after which the
/// list starts, if one is named.
pub open spec fn cursor_of(start_after: Option<String>) -> Option<Seq<u8>> {
    match start_after {
        Some(addr) => Some(encode_utf8(addr@)),
        None => None,
    }
}

/// Whether the ballot at `i` lies behind the cursor: its voter's address is
/// greater than the cursor, whether or not the cursor has voted.
pub open spec fn behind_cursor(entries: Seq<BallotEntry>, cursor: Option<Seq<u8>>, i: int) -> bool {
    &&& 0 <= i < entries.len()
    &&& cursor matches Some(c) ==> bytes_less(c, key_at(entries, i))
}

/// Whether the ballot at `i` is the next to list: it lies behind the cursor,
/// and every other ballot behind the cursor has a greater address.
pub open spec fn is_next(entries: Seq<BallotEntry>, cursor: Option<Seq<u8>>, i: int) -> bool {
    &&& behind_cursor(entries, cursor, i)
    &&& forall|j: int|
        #[trigger] behind_cursor(entries, cursor, j) && j != i ==> bytes_less(
            key_at(entries, i),
            key_at(entries, j),
        )
}

/// The ballots that a list of votes returns: those whose voter's address is
/// greater than the cursor, in ascending order of address, no more than
/// `limit`. The ballot with the least address behind the cursor comes first;
/// the rest follows behind that address.
pub open spec fn listed_votes(entries: Seq<BallotEntry>, cursor: Option<Seq<u8>>, limit: nat) -> Seq<
    VoteInfo,
>
    decreases limit,
{
    if limit == 0 || !exists|i: int| is_next(entries, cursor, i) {
        Seq::empty()
    } else {
        let i = choose|i: int| is_next(entries, cursor, i);
        seq![info_of(entries[i])] + listed_votes(
            entries,
            Some(key_at(entries, i)),
            (limit - 1) as nat,
        )
    }
}

/// No byte string comes before itself.
pub proof fn lemma_bytes_less_is_irreflexive(a: Seq<u8>)
    ensures
        !bytes_less(a, a),
    decreases a.len(),
{
    if a.len() > 0 {
        lemma_bytes_less_is_irreflexive(a.drop_first());
    }
}

/// Of two byte strings at most one comes before the other.
pub proof fn lemma_bytes_less_is_asymmetric(a: Seq<u8>, b: Seq<u8>)
    requires
        bytes_less(a, b),
    ensures
        !bytes_less(b, a),
    decreases a.len(),
{
    if a.len() > 0 && b.len() > 0 && a[0] == b[0] {
        lemma_bytes_less_is_asymmetric(a.drop_first(), b.drop_first());
    }
}

/// What comes before a byte string comes before everything behind it.
pub proof fn lemma_bytes_less_is_transitive(a: Seq<u8>, b: Seq<u8>, c: Seq<u8>)
    requires
        bytes_less(a, b),
        bytes_less(b, c),
    ensures
        bytes_less(a, c),
    decreases a.len(),
{
    if a.len() > 0 && b.len() > 0 && c.len() > 0 && a[0] == b[0] && b[0] == c[0] {
        lemma_bytes_less_is_transitive(a.drop_first(), b.drop_first(), c.drop_first());
    }
}

/// Different addresses have different keys.
pub proof fn lemma_keys_tell_addresses_apart(a: Seq<char>, b: Seq<char>)
    requires
        a != b,
    ensures
        encode_utf8(a) != encode_utf8(b),
{
    vstd::utf8::encode_utf8_decode_utf8(a);
    vstd::utf8::encode_utf8_decode_utf8(b);
}

/// At most one ballot is the next to list.
pub proof fn lemma_next_is_unique(
    entries: Seq<BallotEntry>,
    cursor: Option<Seq<u8>>,
    i: int,
    j: int,
)
    requires
        is_next(entries, cursor, i),
        is_next(entries, cursor, j),
    ensures
        i == j,
{
    if i != j {
        lemma_bytes_less_is_asymmetric(key_at(entries, i), key_at(entries, j));
    }
}

fn limit_or_default(limit: Option<u64>) -> (r: u64)
    ensures
        r == spec_limit(limit),
{
    match limit {
        Some(n) => n,
        None => DEFAULT_LIMIT,
    }
}

fn show(entry: &BallotEntry) -> (r: VoteInfo)
    ensures
        r == info_of(*entry),
{
    VoteInfo {
        voter: entry.voter.clone(),
        vote: entry.ballot.vote,
        power: entry.ballot.power,
        rationale: clone_text(&entry.ballot.rationale),
    }
}

/// The configuration.
pub fn query_config(state: &State) -> (r: Config)
    ensures
        r == state.config,
{
    state.config.clone()
}

/// The address of the organization that owns the module.
pub fn query_dao(state: &State) -> (r: String)
    ensures
        r == state.config.dao,
{
    state.config.dao.clone()
}

/// The policy on who may create proposals.
pub fn query_creation_policy(state: &State) -> (r: ProposalCreationPolicy)
    ensures
        r == state.creation_policy,
{
    state.creation_policy.clone()
}

/// The proposal `id` with its status as of `block`.
pub fn query_proposal(state: &State, block: &BlockInfo, id: u64) -> (r: Result<
    ProposalResponse,
    ContractError,
>)
    requires
        state.wf(),
    ensures
        shows(r, *state, *block, id),
{
    let at = match state.locate(id) {
        Some(at) => at,
        None => { return Err(ContractError::NoSuchProposal { id }); },
    };
    let stored = &state.proposals[at].proposal;
    match stored.current_status(block) {
        Ok(status) => {
            let mut proposal = stored.clone();
            proposal.status = status;
            Ok(ProposalResponse { id, proposal })
        },
        Err(e) => Err(ContractError::Time(e)),
    }
}

/// The proposals with ids above `start_after`, lowest id first, no more than
/// `limit` or, where no limit is named, than `DEFAULT_LIMIT`.
pub fn query_list_proposals(state: &State, block: &BlockInfo, start_after: Option<u64>, limit: Option<u64>) -> (r:
    Result<Vec<ProposalResponse>, ContractError>)
    requires
        state.wf(),
    ensures
        lists(
            r,
            *state,
            *block,
            ascending_ids(state.proposals@.len(), start_after, spec_limit(limit)),
        ),
{
    let cap = limit_or_default(limit);
    let count = state.proposals.len() as u64;
    let ghost ids = ascending_ids(state.proposals@.len(), start_after, cap);
    let mut out: Vec<ProposalResponse> = Vec::new();
    let first: u64 = match start_after {
        Some(after) => {
            if after >= count {
                return Ok(out);
            }
            after + 1
        },
        None => 1,
    };
    if first > count {
        return Ok(out);
    }
    let available: u64 = count - first + 1;
    let n: u64 = if cap < available {
        cap
    } else {
        available
    };
    let mut k: u64 = 0;
    while k < n
        invariant
            k <= n,
            ids.len() == n,
            ids == ascending_ids(state.proposals@.len(), start_after, spec_limit(limit)),
            first + n <= count + 1,
            out@.len() == k,
            forall|i: int| 0 <= i < n ==> #[trigger] ids[i] == first + i,
            forall|i: int|
                0 <= i < k ==> shows(
                    Ok::<ProposalResponse, ContractError>(out@[i]),
                    *state,
                    *block,
                    #[trigger] ids[i],
                ),
            state.wf(),
        decreases n - k,
    {
        match query_proposal(state, block, first + k) {
            Ok(response) => {
                out.push(response);
            },
            Err(e) => {
                assert(ids[k as int] == first + k);
                return Err(e);
            },
        }
        k += 1;
    }
    Ok(out)
}

/// The proposals with ids below `start_before`, highest id first, no more
/// than `limit` or, where no limit is named, than `DEFAULT_LIMIT`.
pub fn query_reverse_proposals(state: &State, block: &BlockInfo, start_before: Option<u64>, limit: Option<u64>) -> (r:
    Result<Vec<ProposalResponse>, ContractError>)
    requires
        state.wf(),
    ensures
        lists(
            r,
            *state,
            *block,
            descending_ids(state.proposals@.len(), start_before, spec_limit(limit)),
        ),
{
    let cap = limit_or_default(limit);
    let count = state.proposals.len() as u64;
    let ghost ids = descending_ids(state.proposals@.len(), start_before, cap);
    let mut out: Vec<ProposalResponse> = Vec::new();
    let last: u64 = match start_before {
        Some(before) => {
            if before == 0 {
                0
            } else if before - 1 < count {
                before - 1
            } else {
                count
            }
        },
        None => count,
    };
    let n: u64 = if cap < last {
        cap
    } else {
        last
    };
    let mut k: u64 = 0;
    while k < n
        invariant
            k <= n <= last,
            ids.len() == n,
            ids == descending_ids(state.proposals@.len(), start_before, spec_limit(limit)),
            out@.len() == k,
            forall|i: int| 0 <= i < n ==> #[trigger] ids[i] == last - i,
            forall|i: int|
                0 <= i < k ==> shows(
                    Ok::<ProposalResponse, ContractError>(out@[i]),
                    *state,
                    *block,
                    #[trigger] ids[i],
                ),
            state.wf(),
        decreases n - k,
    {
        match query_proposal(state, block, last - k) {
            Ok(response) => {
                out.push(response);
            },
            Err(e) => {
                assert(ids[k as int] == last - k);
                return Err(e);
            },
        }
        k += 1;
    }
    Ok(out)
}

/// The number of proposals that have been created.
pub fn query_proposal_count(state: &State) -> (r: u64)
    ensures
        r == state.proposals@.len(),
{
    state.proposal_count()
}

/// The id that the next proposal gets; `None` where the ids have run out.
pub fn query_next_proposal_id(state: &State) -> (r: Option<u64>)
    ensures
        r == if state.proposals@.len() < u64::MAX {
            Some((state.proposals@.len() + 1) as u64)
        } else {
            None
        },
{
    state.next_proposal_id()
}

/// The ballot that `voter` has cast on the proposal `proposal_id`, if there
/// is such a proposal and such a ballot.
pub fn query_vote(state: &State, proposal_id: u64, voter: &String) -> (r: Option<VoteInfo>)
    requires
        state.wf(),
    ensures
        match state.ballot_of(proposal_id, voter@) {
            Some(ballot) => r matches Some(info) && info.voter@ == voter@ && info.vote
                == ballot.vote && info.power == ballot.power && info.rationale
                == ballot.rationale,
            None => r is None,
        },
{
    let at = match state.locate(proposal_id) {
        Some(at) => at,
        None => { return None; },
    };
    let ledger = &state.proposals[at].ballots;
    match ledger.find(voter) {
        Some(i) => Some(show(&ledger.entries[i])),
        None => None,
    }
}

/// The cursor that a borrowed byte string stands for.
pub open spec fn mark_of(cursor: Option<&[u8]>) -> Option<Seq<u8>> {
    match cursor {
        Some(c) => Some(c@),
        None => None,
    }
}

/// How the byte string `a` stands to `b` in the order of a dictionary.
pub fn order_of_bytes(a: &[u8], b: &[u8]) -> (r: ByteOrder)
    ensures
        match r {
            ByteOrder::Before => bytes_less(a@, b@),
            ByteOrder::Same => a@ == b@,
            ByteOrder::After => bytes_less(b@, a@),
        },
{
    let mut i: usize = 0;
    assert(a@.skip(0) =~= a@ && b@.skip(0) =~= b@);
    while i < a.len() && i < b.len()
        invariant
            i <= a@.len(),
            i <= b@.len(),
            forall|j: int| 0 <= j < i ==> a@[j] == b@[j],
            bytes_less(a@, b@) == bytes_less(a@.skip(i as int), b@.skip(i as int)),
            bytes_less(b@, a@) == bytes_less(b@.skip(i as int), a@.skip(i as int)),
        decreases a@.len() - i,
    {
        if a[i] < b[i] {
            return ByteOrder::Before;
        }
        if a[i] > b[i] {
            return ByteOrder::After;
        }
        proof {
            assert(a@.skip(i as int).drop_first() =~= a@.skip(i + 1));
            assert(b@.skip(i as int).drop_first() =~= b@.skip(i + 1));
        }
        i += 1;
    }
    if a.len() == b.len() {
        assert(a@ =~= b@);
        ByteOrder::Same
    } else if i == a.len() {
        ByteOrder::Before
    } else {
        ByteOrder::After
    }
}

/// The place of the ballot to list next behind the cursor, if there is one.
fn next_vote(ledger: &BallotLedger, cursor: Option<&[u8]>) -> (r: Option<usize>)
    requires
        ledger.wf(),
    ensures
        match r {
            Some(i) => is_next(
                ledger.entries@,
                mark_of(cursor),
                i as int,
            ),
            None => forall|i: int|
                !#[trigger] behind_cursor(
                    ledger.entries@,
                    mark_of(cursor),
                    i,
                ),
        },
{
    let ghost entries = ledger.entries@;
    let ghost mark: Option<Seq<u8>> = mark_of(cursor);
    let mut best: Option<usize> = None;
    let mut i: usize = 0;
    while i < ledger.entries.len()
        invariant
            i <= entries.len(),
            entries == ledger.entries@,
            ledger.wf(),
            mark == mark_of(cursor),
            match best {
                Some(b) => b < i && behind_cursor(entries, mark, b as int) && forall|j: int|
                    0 <= j < i && #[trigger] behind_cursor(entries, mark, j) && j != b
                        ==> bytes_less(key_at(entries, b as int), key_at(entries, j)),
                None => forall|j: int| 0 <= j < i ==> !#[trigger] behind_cursor(entries, mark, j),
            },
        decreases entries.len() - i,
    {
        let key = ledger.entries[i].voter.as_str().as_bytes();
        assert(key@ == key_at(entries, i as int));
        let behind = match cursor {
            None => true,
            Some(c) => match order_of_bytes(c, key) {
                ByteOrder::Before => true,
                ByteOrder::Same => {
                    proof {
                        lemma_bytes_less_is_irreflexive(key@);
                    }
                    false
                },
                ByteOrder::After => {
                    proof {
                        lemma_bytes_less_is_asymmetric(key@, c@);
                    }
                    false
                },
            },
        };
        if behind {
            match best {
                None => {
                    best = Some(i);
                },
                Some(b) => {
                    let held = ledger.entries[b].voter.as_str().as_bytes();
                    assert(held@ == key_at(entries, b as int));
                    match order_of_bytes(key, held) {
                        ByteOrder::Before => {
                            proof {
                                assert forall|j: int|
                                    0 <= j < i + 1 && #[trigger] behind_cursor(entries, mark, j)
                                        && j != i implies bytes_less(
                                    key_at(entries, i as int),
                                    key_at(entries, j),
                                ) by {
                                    if j != b {
                                        lemma_bytes_less_is_transitive(
                                            key_at(entries, i as int),
                                            key_at(entries, b as int),
                                            key_at(entries, j),
                                        );
                                    }
                                }
                            }
                            best = Some(i);
                        },
                        ByteOrder::Same => {
                            proof {
                                assert(crate::ballot::voter_at(entries, b as int)
                                    != crate::ballot::voter_at(entries, i as int));
                                lemma_keys_tell_addresses_apart(
                                    entries[b as int].voter@,
                                    entries[i as int].voter@,
                                );
                            }
                        },
                        ByteOrder::After => {},
                    }
                },
            }
        }
        i += 1;
    }
    best
}

/// The ballots on the proposal `proposal_id` whose voter's address is greater
/// than `start_after`, in ascending order of the addresses' bytes, no more
/// than `limit` or, where no limit is named, than `DEFAULT_LIMIT`. The cursor
/// need not have voted. A proposal that does not exist has no ballots.
pub fn query_list_votes(state: &State, proposal_id: u64, start_after: Option<String>, limit: Option<u64>) -> (r:
    Vec<VoteInfo>)
    requires
        state.wf(),
    ensures
        r@ == if state.has_proposal(proposal_id) {
            listed_votes(
                state.poll(proposal_id).entries,
                cursor_of(start_after),
                spec_limit(limit) as nat,
            )
        } else {
            Seq::<VoteInfo>::empty()
        },
{
    let cap = limit_or_default(limit);
    let mut out: Vec<VoteInfo> = Vec::new();
    let at = match state.locate(proposal_id) {
        Some(at) => at,
        None => { return out; },
    };
    let ledger = &state.proposals[at].ballots;
    let ghost entries = ledger.entries@;
    let mut cursor: Option<&[u8]> = match &start_after {
        Some(addr) => Some(addr.as_str().as_bytes()),
        None => None,
    };
    let ghost mut mark: Option<Seq<u8>> = cursor_of(start_after);
    let mut k: u64 = 0;
    let mut done = false;
    while k < cap && !done
        invariant
            k <= cap,
            ledger.wf(),
            entries == ledger.entries@,
            mark == mark_of(cursor),
            listed_votes(entries, cursor_of(start_after), cap as nat) == out@ + listed_votes(
                entries,
                mark,
                if done {
                    0
                } else {
                    (cap - k) as nat
                },
            ),
        decreases cap - k + (if done { 0int } else { 1int }),
    {
        match next_vote(ledger, cursor) {
            Some(i) => {
                proof {
                    let chosen = choose|x: int| is_next(entries, mark, x);
                    lemma_next_is_unique(entries, mark, chosen, i as int);
                    assert(out@ + (seq![info_of(entries[i as int])] + listed_votes(
                        entries,
                        Some(key_at(entries, i as int)),
                        (cap - k - 1) as nat,
                    )) =~= out@.push(info_of(entries[i as int])) + listed_votes(
                        entries,
                        Some(key_at(entries, i as int)),
                        (cap - k - 1) as nat,
                    ));
                }
                out.push(show(&ledger.entries[i]));
                cursor = Some(ledger.entries[i].voter.as_str().as_bytes());
                proof {
                    mark = Some(key_at(entries, i as int));
                }
                k += 1;
            },
            None => {
                done = true;
            },
        }
    }
    assert(out@ + Seq::<VoteInfo>::empty() =~= out@);
    out
}

/// The proposal hook subscribers, in order.
pub fn query_proposal_hooks(state: &State) -> (r: Vec<String>)
    ensures
        r@ == state.proposal_hooks.subscribers@,
{
    state.proposal_hooks.query_hooks()
}

/// The vote hook subscribers, in order.
pub fn query_vote_hooks(state: &State) -> (r: Vec<String>)
    ensures
        r@ == state.vote_hooks.subscribers@,
{
    state.vote_hooks.query_hooks()
}

/// Of two different byte strings one comes before the other.
pub proof fn lemma_bytes_less_is_total(a: Seq<u8>, b: Seq<u8>)
    requires
        a != b,
    ensures
        bytes_less(a, b) || bytes_less(b, a),
    decreases a.len(),
{
    if a.len() > 0 && b.len() > 0 && a[0] == b[0] {
        if a.drop_first() == b.drop_first() {
            assert(a =~= seq![a[0]] + a.drop_first());
            assert(b =~= seq![b[0]] + b.drop_first());
        }
        lemma_bytes_less_is_total(a.drop_first(), b.drop_first());
    } else if a.len() == 0 && b.len() == 0 {
        assert(a =~= b);
    }
}

/// Whether the ballot at `i` is the next to list among the first `n`.
pub open spec fn is_next_among(
    entries: Seq<BallotEntry>,
    cursor: Option<Seq<u8>>,
    n: int,
    i: int,
) -> bool {
    &&& 0 <= i < n
    &&& behind_cursor(entries, cursor, i)
    &&& forall|j: int|
        0 <= j < n && #[trigger] behind_cursor(entries, cursor, j) && j != i ==> bytes_less(
            key_at(entries, i),
            key_at(entries, j),
        )
}

/// Where one of the first `n` ballots lies behind the cursor, one of them is
/// the next to list.
pub proof fn lemma_some_vote_is_next_among(
    entries: Seq<BallotEntry>,
    cursor: Option<Seq<u8>>,
    n: int,
    behind: int,
)
    requires
        crate::ballot::distinct_voters(entries),
        0 <= behind < n <= entries.len(),
        behind_cursor(entries, cursor, behind),
    ensures
        exists|i: int| is_next_among(entries, cursor, n, i),
    decreases n,
{
    let last = n - 1;
    if exists|j: int| 0 <= j < last && behind_cursor(entries, cursor, j) {
        let j = choose|j: int| 0 <= j < last && behind_cursor(entries, cursor, j);
        lemma_some_vote_is_next_among(entries, cursor, last, j);
        let best = choose|i: int| is_next_among(entries, cursor, last, i);
        if behind_cursor(entries, cursor, last) {
            assert(crate::ballot::voter_at(entries, best) != crate::ballot::voter_at(
                entries,
                last,
            ));
            lemma_keys_tell_addresses_apart(entries[best].voter@, entries[last].voter@);
            lemma_bytes_less_is_total(key_at(entries, best), key_at(entries, last));
            if bytes_less(key_at(entries, last), key_at(entries, best)) {
                assert forall|k: int|
                    0 <= k < n && #[trigger] behind_cursor(entries, cursor, k) && k
                        != last implies bytes_less(key_at(entries, last), key_at(entries, k)) by {
                    if k != best {
                        lemma_bytes_less_is_transitive(
                            key_at(entries, last),
                            key_at(entries, best),
                            key_at(entries, k),
                        );
                    }
                }
                assert(is_next_among(entries, cursor, n, last));
            } else {
                assert(is_next_among(entries, cursor, n, best));
            }
        } else {
            assert(is_next_among(entries, cursor, n, best));
        }
    } else {
        assert(is_next_among(entries, cursor, n, last));
    }
}

/// No ballot is skipped: where a ballot lies behind the cursor and the limit
/// is not zero, the list is not empty, starts with the ballot of the least
/// address behind the cursor, and goes on behind that address.
pub proof fn lemma_list_starts_with_the_least(
    entries: Seq<BallotEntry>,
    cursor: Option<Seq<u8>>,
    limit: nat,
    behind: int,
)
    requires
        crate::ballot::distinct_voters(entries),
        limit > 0,
        behind_cursor(entries, cursor, behind),
    ensures
        exists|i: int|
            is_next(entries, cursor, i) && listed_votes(entries, cursor, limit) == seq![
                info_of(entries[i]),
            ] + listed_votes(entries, Some(key_at(entries, i)), (limit - 1) as nat),
{
    lemma_some_vote_is_next_among(entries, cursor, entries.len() as int, behind);
    let i = choose|i: int| is_next_among(entries, cursor, entries.len() as int, i);
    assert(is_next(entries, cursor, i));
    let chosen = choose|x: int| is_next(entries, cursor, x);
    lemma_next_is_unique(entries, cursor, chosen, i);
}

/// Every ballot that is listed lies behind the cursor: where nothing lies
/// behind the cursor, nothing is listed.
pub proof fn lemma_nothing_behind_nothing_listed(
    entries: Seq<BallotEntry>,
    cursor: Option<Seq<u8>>,
    limit: nat,
)
    requires
        forall|i: int| !#[trigger] behind_cursor(entries, cursor, i),
    ensures
        listed_votes(entries, cursor, limit).len() == 0,
{
}

} // verus!
