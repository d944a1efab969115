use vstd::prelude::*;

use crate::address::Address;
use crate::identity::Identity;

verus! {

/// Fewest candidates a poll may hold.
pub const MIN_CANDIDATES: usize = 2;

/// Most candidates a poll may hold.
pub const MAX_CANDIDATES: usize = 10;

/// Most characters a poll title may hold.
pub const TITLE_MAX: usize = 100;

/// Most characters a candidate name may hold.
pub const NAME_MAX: usize = 50;

/// Storage slot reserved per candidate: a length prefix, the worst-case
/// name, and the vote counter.
pub const CANDIDATE_SPACE: usize = 4 + 50 + 8;

/// Fixed part of a poll record's storage slot: admin identity, poll
/// identifier, length-prefixed worst-case title, slate length prefix, total
/// vote counter, active flag, derivation salt, and a safety padding margin.
pub const POLL_BASE_SPACE: usize = 32 + 8 + (4 + 100) + 4 + 8 + 1 + 1 + 64;

/// Storage slot of a vote record: voter identity, poll identifier, candidate
/// index, derivation salt, and padding.
pub const VOTE_RECORD_SPACE: usize = 32 + 8 + 1 + 1 + 16;

/// A named option within a poll, carrying its running vote count.
#[derive(Debug)]
pub struct Candidate {
    pub name: String,
    pub votes: u64,
}

impl Candidate {
    /// A candidate is well formed when its name fits its storage slot.
    pub open spec fn wf(self) -> bool {
        self.name@.len() <= NAME_MAX
    }
}

/// Every proposed candidate name fits the per-candidate storage slot.
pub open spec fn candidate_names_fit(candidates: Seq<String>) -> bool {
    forall|j: int| 0 <= j < candidates.len() ==> (#[trigger] candidates[j])@.len() <= NAME_MAX
}

/// The running tally of a slate: the sum of every candidate's vote count.
pub open spec fn sum_votes(s: Seq<Candidate>) -> int
    decreases s.len(),
{
    if s.len() == 0 {
        0
    } else {
        sum_votes(s.drop_last()) + s.last().votes
    }
}

pub proof fn lemma_sum_votes_nonneg(s: Seq<Candidate>)
    ensures
        sum_votes(s) >= 0,
    decreases s.len(),
{
    if s.len() > 0 {
        lemma_sum_votes_nonneg(s.drop_last());
    }
}

pub proof fn lemma_sum_votes_push(s: Seq<Candidate>, c: Candidate)
    ensures
        sum_votes(s.push(c)) == sum_votes(s) + c.votes,
{
    assert(s.push(c).drop_last() =~= s);
}

pub proof fn lemma_sum_votes_update(s: Seq<Candidate>, i: int, c: Candidate)
    requires
        0 <= i < s.len(),
    ensures
        sum_votes(s.update(i, c)) == sum_votes(s) - s[i].votes + c.votes,
    decreases s.len(),
{
    if i == s.len() - 1 {
        assert(s.update(i, c).drop_last() =~= s.drop_last());
    } else {
        assert(s.update(i, c).drop_last() =~= s.drop_last().update(i, c));
        lemma_sum_votes_update(s.drop_last(), i, c);
    }
}

/// No single candidate's count can exceed the tally of its whole slate.
pub proof fn lemma_vote_le_sum(s: Seq<Candidate>, i: int)
    requires
        0 <= i < s.len(),
    ensures
        s[i].votes <= sum_votes(s),
    decreases s.len(),
{
    lemma_sum_votes_nonneg(s.drop_last());
    if i < s.len() - 1 {
        lemma_vote_le_sum(s.drop_last(), i);
    }
}

/// A named ballot with a fixed candidate slate, owned by an admin, active
/// until explicitly closed.
#[derive(Debug)]
pub struct Poll {
    /// The identity recorded at creation with exclusive authority to close
    /// the poll; set once and never changed.
    pub admin: Identity,
    /// The unique key of this poll, part of its address derivation.
    pub poll_id: u64,
    pub title: String,
    /// The slate, fixed at creation: candidates are never added or removed.
    pub candidates: Vec<Candidate>,
    pub total_votes: u64,
    /// Whether votes may still be cast; starts true.
    pub is_active: bool,
    /// Derivation salt kept with the record so it can recompute its own
    /// address.
    pub bump: u8,
}

impl Poll {
    /// A poll is well formed when its slate size and string lengths lie
    /// within their budgets and its total equals the sum of its candidates'
    /// counts.
    pub open spec fn wf(self) -> bool {
        &&& MIN_CANDIDATES <= self.candidates@.len() <= MAX_CANDIDATES
        &&& self.title@.len() <= TITLE_MAX
        &&& forall|i: int|
            0 <= i < self.candidates@.len() ==> (#[trigger] self.candidates@[i]).wf()
        &&& self.total_votes == sum_votes(self.candidates@)
    }

    /// The storage address this poll record lives at.
    pub open spec fn address(self) -> Address {
        Address::Poll { poll_id: self.poll_id }
    }

    /// The exact storage footprint a poll record with this slate needs.
    ///
    /// Every candidate is budgeted at its worst-case slot, not its current
    /// name length, because the storage engine requires a precise upfront
    /// allocation that cannot grow later.
    pub fn space(candidates: &[String]) -> (r: usize)
        requires
            POLL_BASE_SPACE + candidates@.len() * CANDIDATE_SPACE <= usize::MAX,
        ensures
            r == POLL_BASE_SPACE + candidates@.len() * CANDIDATE_SPACE,
    {
        POLL_BASE_SPACE + candidates.len() * CANDIDATE_SPACE
    }
}

/// The permanent, unique proof that a given identity voted once in a given
/// poll; created exactly once, never mutated, never deleted.
#[derive(Clone, Copy, Debug, PartialEq, Eq, Structural)]
pub struct VoteRecord {
    pub voter: Identity,
    pub poll_id: u64,
    pub candidate_index: u8,
    /// Derivation salt kept with the record so it can recompute its own
    /// address.
    pub bump: u8,
}

impl VoteRecord {
    /// The storage address this vote record lives at.
    pub open spec fn address(self) -> Address {
        Address::Vote { poll_id: self.poll_id, voter: self.voter }
    }

    /// The constant storage footprint of a vote record.
    pub fn space() -> (r: usize)
        ensures
            r == VOTE_RECORD_SPACE,
    {
        VOTE_RECORD_SPACE
    }
}

} // verus!
