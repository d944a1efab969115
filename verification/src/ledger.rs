use vstd::prelude::*;

use crate::error::VotingError;
use crate::identity::Identity;
use crate::poll::Candidate;
use crate::poll::MAX_CANDIDATES;
use crate::poll::MIN_CANDIDATES;
use crate::poll::NAME_MAX;
use crate::poll::Poll;
use crate::poll::TITLE_MAX;
use crate::poll::VoteRecord;
use crate::poll::candidate_names_fit;
use crate::poll::lemma_sum_votes_push;
use crate::poll::lemma_sum_votes_update;
use crate::poll::lemma_vote_le_sum;
use crate::poll::sum_votes;
use vstd::string::StrSliceExecFns;

verus! {

/// Which error, if any, `create_poll` rejects a request with, its checks
/// made in this order: slate too small, slate too large, title too long, a
/// candidate name over its storage slot, and finally a poll record already
/// allocated at the derived address.
pub open spec fn create_rejection(
    l: Ledger,
    poll_id: u64,
    title: Seq<char>,
    candidates: Seq<String>,
) -> Option<VotingError> {
    if candidates.len() < MIN_CANDIDATES {
        Some(VotingError::TooFewCandidates)
    } else if candidates.len() > MAX_CANDIDATES {
        Some(VotingError::TooManyCandidates)
    } else if title.len() > TITLE_MAX {
        Some(VotingError::TitleTooLong)
    } else if !candidate_names_fit(candidates) {
        Some(VotingError::AllocationSizeMismatch)
    } else if l.has_poll(poll_id) {
        Some(VotingError::DuplicatePoll)
    } else {
        None
    }
}

/// Which error, if any, `vote` rejects a request with, its checks made in
/// this order: no poll at the derived address, the poll closed to voting,
/// the candidate index outside the slate, and finally a vote record already
/// allocated at the address derived from the (poll, voter) pair.
pub open spec fn vote_rejection(
    l: Ledger,
    poll_id: u64,
    candidate_index: u8,
    voter: Identity,
) -> Option<VotingError> {
    if !l.has_poll(poll_id) {
        Some(VotingError::PollNotFound)
    } else if !l.poll_by_id(poll_id).is_active {
        Some(VotingError::PollClosed)
    } else if candidate_index as int >= l.poll_by_id(poll_id).candidates@.len() {
        Some(VotingError::InvalidCandidate)
    } else if l.has_vote_record(poll_id, voter) {
        Some(VotingError::DuplicateVote)
    } else {
        None
    }
}

/// How a successful vote changes the chosen poll record and nothing else in
/// it: the chosen candidate's count and the total each grow by one.
pub open spec fn poll_voted(p0: Poll, p1: Poll, idx: int) -> bool {
    &&& p1.admin == p0.admin
    &&& p1.poll_id == p0.poll_id
    &&& p1.title == p0.title
    &&& p1.total_votes == p0.total_votes + 1
    &&& p1.is_active == p0.is_active
    &&& p1.bump == p0.bump
    &&& p1.candidates@.len() == p0.candidates@.len()
    &&& p1.candidates@[idx].name == p0.candidates@[idx].name
    &&& p1.candidates@[idx].votes == p0.candidates@[idx].votes + 1
    &&& forall|j: int|
        0 <= j < p0.candidates@.len() && j != idx ==> p1.candidates@[j] == p0.candidates@[j]
}

/// How a successful vote changes the ledger as a whole: one new vote record
/// naming the voter, the poll and the chosen candidate, the chosen poll's
/// tallies grown by one, and everything else untouched — one all-or-nothing
/// transaction.
pub open spec fn vote_applied(
    l0: Ledger,
    l1: Ledger,
    poll_id: u64,
    candidate_index: u8,
    voter: Identity,
) -> bool {
    let i = l0.poll_index(poll_id);
    &&& l1.polls@.len() == l0.polls@.len()
    &&& forall|k: int|
        0 <= k < l0.polls@.len() && k != i ==> l1.polls@[k] == l0.polls@[k]
    &&& poll_voted(l0.polls@[i], l1.polls@[i], candidate_index as int)
    &&& l1.records@.len() == l0.records@.len() + 1
    &&& forall|k: int| 0 <= k < l0.records@.len() ==> l1.records@[k] == l0.records@[k]
    &&& l1.records@.last() == (VoteRecord { voter, poll_id, candidate_index, bump: 0 })
}

/// Which error, if any, `close_poll` rejects a request with, its checks
/// made in this order: no poll at the derived address, then a caller other
/// than the recorded admin.
pub open spec fn close_rejection(l: Ledger, poll_id: u64, caller: Identity) -> Option<
    VotingError,
> {
    if !l.has_poll(poll_id) {
        Some(VotingError::PollNotFound)
    } else if l.poll_by_id(poll_id).admin != caller {
        Some(VotingError::Unauthorized)
    } else {
        None
    }
}

/// How a successful close changes the chosen poll record and nothing else
/// in it: the active flag is cleared, tallies, slate and admin stay.
pub open spec fn poll_deactivated(p0: Poll, p1: Poll) -> bool {
    &&& p1.admin == p0.admin
    &&& p1.poll_id == p0.poll_id
    &&& p1.title == p0.title
    &&& p1.candidates == p0.candidates
    &&& p1.total_votes == p0.total_votes
    &&& !p1.is_active
    &&& p1.bump == p0.bump
}

/// How a successful close changes the ledger as a whole: the chosen poll is
/// deactivated and everything else is untouched.
pub open spec fn close_applied(l0: Ledger, l1: Ledger, poll_id: u64) -> bool {
    let i = l0.poll_index(poll_id);
    &&& l1.records@ == l0.records@
    &&& l1.polls@.len() == l0.polls@.len()
    &&& forall|k: int|
        0 <= k < l0.polls@.len() && k != i ==> l1.polls@[k] == l0.polls@[k]
    &&& poll_deactivated(l0.polls@[i], l1.polls@[i])
}

/// What the poll record created from a request looks like: the caller
/// becomes admin, the slate carries the given names with every count zero,
/// the total is zero, and the poll is active.
pub open spec fn is_new_poll(
    p: Poll,
    poll_id: u64,
    title: String,
    candidates: Seq<String>,
    admin: Identity,
) -> bool {
    &&& p.admin == admin
    &&& p.poll_id == poll_id
    &&& p.title == title
    &&& p.candidates@.len() == candidates.len()
    &&& forall|j: int|
        0 <= j < candidates.len() ==> (#[trigger] p.candidates@[j]).name == candidates[j]
            && p.candidates@[j].votes == 0
    &&& p.total_votes == 0
    &&& p.is_active
    &&& p.bump == 0
}

/// The shared store all operations run against, modelled as the address-keyed
/// record sets the deterministic derivation reaches: one set of poll records
/// and one set of vote records.
pub struct Ledger {
    pub polls: Vec<Poll>,
    pub records: Vec<VoteRecord>,
}

impl Ledger {
    /// Every poll record is well formed.
    pub open spec fn polls_wf(self) -> bool {
        forall|i: int| 0 <= i < self.polls@.len() ==> (#[trigger] self.polls@[i]).wf()
    }

    /// No two poll records share an address, i.e. a poll identifier.
    pub open spec fn poll_ids_distinct(self) -> bool {
        forall|i: int, j: int|
            #![trigger self.polls@[i], self.polls@[j]]
            0 <= i < j < self.polls@.len() ==> self.polls@[i].poll_id != self.polls@[j].poll_id
    }

    /// No two vote records share an address, i.e. a (poll, voter) pair.
    pub open spec fn records_distinct(self) -> bool {
        forall|i: int, j: int|
            #![trigger self.records@[i], self.records@[j]]
            0 <= i < j < self.records@.len() ==> !(self.records@[i].poll_id
                == self.records@[j].poll_id && self.records@[i].voter
                == self.records@[j].voter)
    }

    /// Every vote record points into an existing poll's slate.
    pub open spec fn records_valid(self) -> bool {
        forall|i: int|
            0 <= i < self.records@.len() ==> {
                &&& self.has_poll((#[trigger] self.records@[i]).poll_id)
                &&& self.records@[i].candidate_index
                    < self.poll_by_id(self.records@[i].poll_id).candidates@.len()
            }
    }

    /// The ledger's whole invariant, established at creation and preserved by
    /// every operation.
    pub open spec fn wf(self) -> bool {
        &&& self.polls_wf()
        &&& self.poll_ids_distinct()
        &&& self.records_distinct()
        &&& self.records_valid()
    }

    /// Whether a poll record exists at the address derived from `poll_id`.
    pub open spec fn has_poll(self, poll_id: u64) -> bool {
        exists|i: int| 0 <= i < self.polls@.len() && (#[trigger] self.polls@[i]).poll_id == poll_id
    }

    /// The position of the poll record with identifier `poll_id`.
    pub open spec fn poll_index(self, poll_id: u64) -> int {
        choose|i: int|
            0 <= i < self.polls@.len() && (#[trigger] self.polls@[i]).poll_id == poll_id
    }

    /// The poll record with identifier `poll_id`.
    pub open spec fn poll_by_id(self, poll_id: u64) -> Poll {
        self.polls@[self.poll_index(poll_id)]
    }

    /// Whether a vote record exists at the address derived from `poll_id`
    /// and `voter`.
    pub open spec fn has_vote_record(self, poll_id: u64, voter: Identity) -> bool {
        exists|i: int|
            0 <= i < self.records@.len() && (#[trigger] self.records@[i]).poll_id == poll_id
                && self.records@[i].voter == voter
    }

    /// When poll identifiers are distinct, the position of a poll's
    /// identifier is the poll's own position.
    pub proof fn lemma_poll_index_unique(self, i: int)
        requires
            self.poll_ids_distinct(),
            0 <= i < self.polls@.len(),
        ensures
            self.has_poll(self.polls@[i].poll_id),
            self.poll_index(self.polls@[i].poll_id) == i,
    {
        let id = self.polls@[i].poll_id;
        assert(self.has_poll(id));
        let j = self.poll_index(id);
        assert(0 <= j < self.polls@.len() && self.polls@[j].poll_id == id);
        if i < j {
            assert(self.polls@[i].poll_id != self.polls@[j].poll_id);
        } else if j < i {
            assert(self.polls@[j].poll_id != self.polls@[i].poll_id);
        }
    }

    /// An empty ledger: no polls, no vote records.
    pub fn new() -> (l: Ledger)
        ensures
            l.wf(),
            l.polls@ == Seq::<Poll>::empty(),
            l.records@ == Seq::<VoteRecord>::empty(),
    {
        Ledger { polls: Vec::new(), records: Vec::new() }
    }

    /// The position of the poll record with identifier `poll_id`, by walking
    /// the poll records.
    fn poll_position(&self, poll_id: u64) -> (r: Option<usize>)
        ensures
            (match r {
                Some(i) => i < self.polls@.len() && self.polls@[i as int].poll_id == poll_id,
                None => !self.has_poll(poll_id),
            }),
    {
        let mut i: usize = 0;
        while i < self.polls.len()
            invariant
                i <= self.polls@.len(),
                forall|k: int| 0 <= k < i ==> (#[trigger] self.polls@[k]).poll_id != poll_id,
            decreases self.polls@.len() - i,
        {
            if self.polls[i].poll_id == poll_id {
                return Some(i);
            }
            i = i + 1;
        }
        None
    }

    /// The position of the vote record for `(poll_id, voter)`, by walking
    /// the vote records.
    fn record_position(&self, poll_id: u64, voter: Identity) -> (r: Option<usize>)
        ensures
            (match r {
                Some(i) => i < self.records@.len() && self.records@[i as int].poll_id == poll_id
                    && self.records@[i as int].voter == voter,
                None => !self.has_vote_record(poll_id, voter),
            }),
    {
        let mut i: usize = 0;
        while i < self.records.len()
            invariant
                i <= self.records@.len(),
                forall|k: int|
                    0 <= k < i ==> !((#[trigger] self.records@[k]).poll_id == poll_id
                        && self.records@[k].voter == voter),
            decreases self.records@.len() - i,
        {
            if self.records[i].poll_id == poll_id && self.records[i].voter == voter {
                return Some(i);
            }
            i = i + 1;
        }
        None
    }

    /// Vote records stay valid across any change that keeps the vote records,
    /// every existing poll's identifier and its slate length, and the
    /// distinctness of poll identifiers.
    proof fn lemma_records_valid_preserved(self, l1: Ledger)
        requires
            self.records_valid(),
            self.poll_ids_distinct(),
            l1.poll_ids_distinct(),
            l1.records@ == self.records@,
            l1.polls@.len() >= self.polls@.len(),
            forall|i: int|
                0 <= i < self.polls@.len() ==> (#[trigger] l1.polls@[i]).poll_id
                    == self.polls@[i].poll_id && l1.polls@[i].candidates@.len()
                    == self.polls@[i].candidates@.len(),
        ensures
            l1.records_valid(),
    {
        assert forall|i: int| 0 <= i < l1.records@.len() implies {
            &&& l1.has_poll((#[trigger] l1.records@[i]).poll_id)
            &&& l1.records@[i].candidate_index
                < l1.poll_by_id(l1.records@[i].poll_id).candidates@.len()
        } by {
            let rid = l1.records@[i].poll_id;
            assert(self.has_poll(rid));
            let j = self.poll_index(rid);
            assert(0 <= j < self.polls@.len() && self.polls@[j].poll_id == rid);
            self.lemma_poll_index_unique(j);
            assert(l1.polls@[j].poll_id == rid);
            l1.lemma_poll_index_unique(j);
        }
    }

    /// Creates a poll with a fixed candidate slate at the address derived
    /// from `poll_id`; the caller becomes its admin.
    ///
    /// The request is validated first (slate size, then title length, then
    /// each name against the slot the space budget reserves for it); a
    /// record already allocated at the derived address then rejects the
    /// request as a duplicate, exactly as the store's create-if-absent
    /// primitive would. On any rejection the ledger is unchanged.
    #[verifier::loop_isolation(false)]
    pub fn create_poll(
        &mut self,
        poll_id: u64,
        title: String,
        candidates: Vec<String>,
        admin: Identity,
    ) -> (r: Result<(), VotingError>)
        requires
            old(self).wf(),
        ensures
            final(self).wf(),
            (match create_rejection(*old(self), poll_id, title@, candidates@) {
                Some(e) => r == Err::<(), VotingError>(e) && *final(self) == *old(self),
                None => {
                    &&& r == Ok::<(), VotingError>(())
                    &&& final(self).records@ == old(self).records@
                    &&& final(self).polls@.len() == old(self).polls@.len() + 1
                    &&& forall|i: int|
                        0 <= i < old(self).polls@.len() ==> final(self).polls@[i]
                            == old(self).polls@[i]
                    &&& is_new_poll(final(self).polls@.last(), poll_id, title, candidates@, admin)
                },
            }),
    {
        if candidates.len() < MIN_CANDIDATES {
            return Err(VotingError::TooFewCandidates);
        }
        if candidates.len() > MAX_CANDIDATES {
            return Err(VotingError::TooManyCandidates);
        }
        if title.as_str().unicode_len() > TITLE_MAX {
            return Err(VotingError::TitleTooLong);
        }
        let mut k: usize = 0;
        while k < candidates.len()
            invariant
                k <= candidates@.len(),
                forall|j: int| 0 <= j < k ==> (#[trigger] candidates@[j])@.len() <= NAME_MAX,
            decreases candidates@.len() - k,
        {
            if candidates[k].as_str().unicode_len() > NAME_MAX {
                return Err(VotingError::AllocationSizeMismatch);
            }
            k = k + 1;
        }
        assert(candidate_names_fit(candidates@));
        match self.poll_position(poll_id) {
            Some(_) => {
                assert(self.has_poll(poll_id));
                return Err(VotingError::DuplicatePoll);
            },
            None => {},
        }
        let mut slate: Vec<Candidate> = Vec::new();
        let mut k: usize = 0;
        while k < candidates.len()
            invariant
                k <= candidates@.len(),
                slate@.len() == k,
                forall|j: int|
                    0 <= j < k ==> (#[trigger] slate@[j]).name == candidates@[j]
                        && slate@[j].votes == 0,
                sum_votes(slate@) == 0,
            decreases candidates@.len() - k,
        {
            let ghost s0 = slate@;
            let name = candidates[k].clone();
            slate.push(Candidate { name, votes: 0 });
            proof {
                lemma_sum_votes_push(s0, slate@.last());
            }
            k = k + 1;
        }
        let poll = Poll {
            admin,
            poll_id,
            title,
            candidates: slate,
            total_votes: 0,
            is_active: true,
            bump: 0,
        };
        let ghost l0 = *self;
        proof {
            assert forall|i: int| 0 <= i < poll.candidates@.len() implies (
            #[trigger] poll.candidates@[i]).wf() by {
                assert(poll.candidates@[i].name == candidates@[i]);
            }
            assert(poll.wf());
        }
        self.polls.push(poll);
        proof {
            assert forall|i: int, j: int|
                #![trigger self.polls@[i], self.polls@[j]]
                0 <= i < j < self.polls@.len() implies self.polls@[i].poll_id
                != self.polls@[j].poll_id by {
                if j == l0.polls@.len() {
                    assert(self.polls@[i] == l0.polls@[i]);
                    if l0.polls@[i].poll_id == poll_id {
                        assert(l0.has_poll(poll_id));
                    }
                }
            }
            l0.lemma_records_valid_preserved(*self);
        }
        Ok(())
    }

    /// Casts `voter`'s vote for one candidate of one poll.
    ///
    /// The poll must exist and be active and the index must lie in its
    /// slate; the vote record is then created at the address derived from
    /// the (poll, voter) pair, so a second vote by the same voter finds the
    /// address taken and is rejected as a duplicate — record existence is
    /// the only double-vote check there is. Creating the record and growing
    /// the two tallies happen as one all-or-nothing step: on any rejection
    /// the ledger is unchanged.
    pub fn vote(&mut self, poll_id: u64, candidate_index: u8, voter: Identity) -> (r: Result<
        (),
        VotingError,
    >)
        requires
            old(self).wf(),
            old(self).has_poll(poll_id) ==> old(self).poll_by_id(poll_id).total_votes < u64::MAX,
        ensures
            final(self).wf(),
            (match vote_rejection(*old(self), poll_id, candidate_index, voter) {
                Some(e) => r == Err::<(), VotingError>(e) && *final(self) == *old(self),
                None => r == Ok::<(), VotingError>(()) && vote_applied(
                    *old(self),
                    *final(self),
                    poll_id,
                    candidate_index,
                    voter,
                ),
            }),
    {
        let i: usize = match self.poll_position(poll_id) {
            None => {
                return Err(VotingError::PollNotFound);
            },
            Some(i) => i,
        };
        proof {
            self.lemma_poll_index_unique(i as int);
        }
        if !self.polls[i].is_active {
            return Err(VotingError::PollClosed);
        }
        if candidate_index as usize >= self.polls[i].candidates.len() {
            return Err(VotingError::InvalidCandidate);
        }
        match self.record_position(poll_id, voter) {
            Some(_) => {
                assert(self.has_vote_record(poll_id, voter));
                return Err(VotingError::DuplicateVote);
            },
            None => {},
        }
        let ghost l0 = *self;
        let idx = candidate_index as usize;
        let mut p = self.polls.remove(i);
        let ghost p0 = p;
        proof {
            lemma_vote_le_sum(p.candidates@, idx as int);
        }
        let mut c = p.candidates.remove(idx);
        c.votes = c.votes + 1;
        let ghost c1 = c;
        p.candidates.insert(idx, c);
        p.total_votes = p.total_votes + 1;
        proof {
            assert(p.candidates@ =~= p0.candidates@.update(idx as int, c1));
            lemma_sum_votes_update(p0.candidates@, idx as int, c1);
            assert forall|j: int| 0 <= j < p.candidates@.len() implies (
            #[trigger] p.candidates@[j]).wf() by {
                if j == idx as int {
                    assert(c1.name == p0.candidates@[j].name);
                }
            }
            assert(p.wf());
        }
        let ghost pv = p;
        self.polls.insert(i, p);
        self.records.push(VoteRecord { voter, poll_id, candidate_index, bump: 0 });
        proof {
            assert(self.polls@ =~= l0.polls@.update(i as int, pv));
            assert(self.records@.drop_last() =~= l0.records@);
            assert forall|k: int| 0 <= k < self.polls@.len() implies (
            #[trigger] self.polls@[k]).poll_id == l0.polls@[k].poll_id
                && self.polls@[k].candidates@.len() == l0.polls@[k].candidates@.len()
                && self.polls@[k].wf() by {
                if k != i as int {
                    assert(self.polls@[k] == l0.polls@[k]);
                }
            }
            assert(self.poll_ids_distinct());
            assert forall|a: int, b: int|
                #![trigger self.records@[a], self.records@[b]]
                0 <= a < b < self.records@.len() implies !(self.records@[a].poll_id
                == self.records@[b].poll_id && self.records@[a].voter
                == self.records@[b].voter) by {
                if b == l0.records@.len() {
                    assert(self.records@[a] == l0.records@[a]);
                    if self.records@[a].poll_id == poll_id && self.records@[a].voter == voter {
                        assert(l0.has_vote_record(poll_id, voter));
                    }
                }
            }
            assert forall|k: int| 0 <= k < self.records@.len() implies {
                &&& self.has_poll((#[trigger] self.records@[k]).poll_id)
                &&& self.records@[k].candidate_index
                    < self.poll_by_id(self.records@[k].poll_id).candidates@.len()
            } by {
                let rid = self.records@[k].poll_id;
                if k < l0.records@.len() {
                    assert(self.records@[k] == l0.records@[k]);
                    assert(l0.has_poll(rid));
                    let j = l0.poll_index(rid);
                    l0.lemma_poll_index_unique(j);
                    assert(self.polls@[j].poll_id == rid);
                    self.lemma_poll_index_unique(j);
                } else {
                    assert(self.polls@[i as int].poll_id == poll_id);
                    self.lemma_poll_index_unique(i as int);
                }
            }
            assert(self.wf());
        }
        Ok(())
    }

    /// Closes a poll to further voting. Only the recorded admin may close;
    /// closing an already-closed poll is a silent no-op. On any rejection
    /// the ledger is unchanged.
    pub fn close_poll(&mut self, poll_id: u64, caller: Identity) -> (r: Result<(), VotingError>)
        requires
            old(self).wf(),
        ensures
            final(self).wf(),
            (match close_rejection(*old(self), poll_id, caller) {
                Some(e) => r == Err::<(), VotingError>(e) && *final(self) == *old(self),
                None => r == Ok::<(), VotingError>(()) && close_applied(
                    *old(self),
                    *final(self),
                    poll_id,
                ),
            }),
    {
        let i: usize = match self.poll_position(poll_id) {
            None => {
                return Err(VotingError::PollNotFound);
            },
            Some(i) => i,
        };
        proof {
            self.lemma_poll_index_unique(i as int);
        }
        if self.polls[i].admin != caller {
            return Err(VotingError::Unauthorized);
        }
        let ghost l0 = *self;
        let mut p = self.polls.remove(i);
        p.is_active = false;
        let ghost pv = p;
        self.polls.insert(i, p);
        proof {
            assert(self.polls@ =~= l0.polls@.update(i as int, pv));
            assert forall|k: int| 0 <= k < self.polls@.len() implies (
            #[trigger] self.polls@[k]).poll_id == l0.polls@[k].poll_id
                && self.polls@[k].candidates@.len() == l0.polls@[k].candidates@.len()
                && self.polls@[k].wf() by {
                if k != i as int {
                    assert(self.polls@[k] == l0.polls@[k]);
                }
            }
            assert(self.poll_ids_distinct());
            l0.lemma_records_valid_preserved(*self);
            assert(self.wf());
        }
        Ok(())
    }

    /// The position of the vote record for `(poll_id, voter)`.
    pub open spec fn record_index(self, poll_id: u64, voter: Identity) -> int {
        choose|i: int|
            0 <= i < self.records@.len() && (#[trigger] self.records@[i]).poll_id == poll_id
                && self.records@[i].voter == voter
    }

    /// The vote record for `(poll_id, voter)`.
    pub open spec fn vote_record_by(self, poll_id: u64, voter: Identity) -> VoteRecord {
        self.records@[self.record_index(poll_id, voter)]
    }

    /// When vote records are pairwise distinct, the position of a record's
    /// (poll, voter) pair is the record's own position.
    pub proof fn lemma_record_index_unique(self, i: int)
        requires
            self.records_distinct(),
            0 <= i < self.records@.len(),
        ensures
            self.has_vote_record(self.records@[i].poll_id, self.records@[i].voter),
            self.record_index(self.records@[i].poll_id, self.records@[i].voter) == i,
    {
        let rec = self.records@[i];
        assert(self.has_vote_record(rec.poll_id, rec.voter));
        let j = self.record_index(rec.poll_id, rec.voter);
        if i < j {
            assert(!(self.records@[i].poll_id == self.records@[j].poll_id
                && self.records@[i].voter == self.records@[j].voter));
        } else if j < i {
            assert(!(self.records@[j].poll_id == self.records@[i].poll_id
                && self.records@[j].voter == self.records@[i].voter));
        }
    }

    /// Reads the poll record at the address derived from `poll_id`, if one
    /// was ever created there.
    pub fn get_poll(&self, poll_id: u64) -> (r: Option<&Poll>)
        requires
            self.wf(),
        ensures
            (match r {
                Some(p) => self.has_poll(poll_id) && *p == self.poll_by_id(poll_id),
                None => !self.has_poll(poll_id),
            }),
    {
        match self.poll_position(poll_id) {
            Some(i) => {
                proof {
                    self.lemma_poll_index_unique(i as int);
                }
                Some(&self.polls[i])
            },
            None => None,
        }
    }

    /// Reads the vote record at the address derived from the (poll, voter)
    /// pair, if one was ever created there.
    pub fn get_vote_record(&self, poll_id: u64, voter: Identity) -> (r: Option<&VoteRecord>)
        requires
            self.wf(),
        ensures
            (match r {
                Some(rec) => self.has_vote_record(poll_id, voter) && *rec == self.vote_record_by(
                    poll_id,
                    voter,
                ),
                None => !self.has_vote_record(poll_id, voter),
            }),
    {
        match self.record_position(poll_id, voter) {
            Some(i) => {
                proof {
                    self.lemma_record_index_unique(i as int);
                }
                Some(&self.records[i])
            },
            None => None,
        }
    }

    /// For every poll, at every observation point, the sum of its
    /// candidates' counts equals its recorded total.
    pub proof fn lemma_tally_consistency(self, i: int)
        requires
            self.wf(),
            0 <= i < self.polls@.len(),
        ensures
            self.polls@[i].total_votes == sum_votes(self.polls@[i].candidates@),
    {
    }

    /// For every (poll, voter) pair, at most one vote record exists: two
    /// records that agree on their poll and their voter are the same record.
    pub proof fn lemma_one_vote_per_pair(self, i: int, j: int)
        requires
            self.wf(),
            0 <= i < self.records@.len(),
            0 <= j < self.records@.len(),
            self.records@[i].poll_id == self.records@[j].poll_id,
            self.records@[i].voter == self.records@[j].voter,
        ensures
            i == j,
    {
        if i < j {
            assert(!(self.records@[i].poll_id == self.records@[j].poll_id
                && self.records@[i].voter == self.records@[j].voter));
        } else if j < i {
            assert(!(self.records@[j].poll_id == self.records@[i].poll_id
                && self.records@[j].voter == self.records@[i].voter));
        }
    }

    /// Every vote record points at an existing poll, and its recorded
    /// candidate index lies inside that poll's slate.
    pub proof fn lemma_record_index_in_slate(self, i: int)
        requires
            self.wf(),
            0 <= i < self.records@.len(),
        ensures
            self.has_poll(self.records@[i].poll_id),
            self.records@[i].candidate_index < self.poll_by_id(
                self.records@[i].poll_id,
            ).candidates@.len(),
    {
    }
}

} // verus!
