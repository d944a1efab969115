use voting_ledger::address::{poll_address, vote_address, Address};
use voting_ledger::error::VotingError;
use voting_ledger::identity::Identity;
use voting_ledger::ledger::Ledger;
use voting_ledger::poll::{Poll, VoteRecord, CANDIDATE_SPACE, POLL_BASE_SPACE, VOTE_RECORD_SPACE};

fn caller(key: u64) -> Identity {
    Identity { key }
}

fn slate(names: &[&str]) -> Vec<String> {
    names.iter().map(|n| n.to_string()).collect()
}

fn ledger_with_poll() -> (Ledger, Identity) {
    let mut l = Ledger::new();
    let admin = caller(1);
    let r = l.create_poll(1, "Best Language".to_string(), slate(&["Rust", "Go"]), admin);
    assert_eq!(r, Ok(()));
    (l, admin)
}

#[test]
fn create_poll_initializes_fresh_poll() {
    let (l, admin) = ledger_with_poll();
    let poll = l.get_poll(1).expect("poll must exist");
    assert_eq!(poll.poll_id, 1);
    assert_eq!(poll.admin, admin);
    assert_eq!(poll.title.as_str(), "Best Language");
    assert_eq!(poll.total_votes, 0);
    assert!(poll.is_active);
    assert_eq!(poll.candidates.len(), 2);
    assert_eq!(poll.candidates[0].name.as_str(), "Rust");
    assert_eq!(poll.candidates[0].votes, 0);
    assert_eq!(poll.candidates[1].name.as_str(), "Go");
    assert_eq!(poll.candidates[1].votes, 0);
}

#[test]
fn vote_increments_tally_and_records_choice() {
    let (mut l, _admin) = ledger_with_poll();
    let voter_a = caller(10);
    assert_eq!(l.vote(1, 0, voter_a), Ok(()));
    let poll = l.get_poll(1).expect("poll must exist");
    assert_eq!(poll.candidates[0].votes, 1);
    assert_eq!(poll.candidates[1].votes, 0);
    assert_eq!(poll.total_votes, 1);
    let rec = l.get_vote_record(1, voter_a).expect("record must exist");
    assert_eq!(rec.voter, voter_a);
    assert_eq!(rec.poll_id, 1);
    assert_eq!(rec.candidate_index, 0);
}

#[test]
fn second_vote_by_same_voter_is_rejected() {
    let (mut l, _admin) = ledger_with_poll();
    let voter_a = caller(10);
    assert_eq!(l.vote(1, 0, voter_a), Ok(()));
    assert_eq!(l.vote(1, 0, voter_a), Err(VotingError::DuplicateVote));
    // tallies and records are unchanged
    let poll = l.get_poll(1).expect("poll must exist");
    assert_eq!(poll.candidates[0].votes, 1);
    assert_eq!(poll.candidates[1].votes, 0);
    assert_eq!(poll.total_votes, 1);
    assert_eq!(l.records.len(), 1);
}

#[test]
fn closed_poll_accepts_no_further_votes() {
    let (mut l, admin) = ledger_with_poll();
    assert_eq!(l.close_poll(1, admin), Ok(()));
    assert!(!l.get_poll(1).expect("poll must exist").is_active);
    let voter_b = caller(11);
    assert_eq!(l.vote(1, 1, voter_b), Err(VotingError::PollClosed));
    assert!(l.get_vote_record(1, voter_b).is_none());
    assert_eq!(l.records.len(), 0);
}

#[test]
fn vote_outside_slate_is_rejected() {
    let (mut l, _admin) = ledger_with_poll();
    let voter_c = caller(12);
    assert_eq!(l.vote(1, 5, voter_c), Err(VotingError::InvalidCandidate));
    let poll = l.get_poll(1).expect("poll must exist");
    assert_eq!(poll.total_votes, 0);
    assert_eq!(l.records.len(), 0);
}

#[test]
fn slate_size_boundaries() {
    let mut l = Ledger::new();
    let admin = caller(1);
    let two: Vec<String> = (0..2).map(|i| format!("c{}", i)).collect();
    let ten: Vec<String> = (0..10).map(|i| format!("c{}", i)).collect();
    let one: Vec<String> = (0..1).map(|i| format!("c{}", i)).collect();
    let eleven: Vec<String> = (0..11).map(|i| format!("c{}", i)).collect();
    assert_eq!(l.create_poll(2, "two".to_string(), two, admin), Ok(()));
    assert_eq!(l.create_poll(10, "ten".to_string(), ten, admin), Ok(()));
    assert_eq!(
        l.create_poll(20, "one".to_string(), one, admin),
        Err(VotingError::TooFewCandidates)
    );
    assert_eq!(
        l.create_poll(21, "eleven".to_string(), eleven, admin),
        Err(VotingError::TooManyCandidates)
    );
    assert!(l.get_poll(20).is_none());
    assert!(l.get_poll(21).is_none());
}

#[test]
fn title_length_boundaries() {
    let mut l = Ledger::new();
    let admin = caller(1);
    let exactly_100 = "a".repeat(100);
    let too_long = "a".repeat(101);
    assert_eq!(l.create_poll(1, exactly_100, slate(&["x", "y"]), admin), Ok(()));
    assert_eq!(
        l.create_poll(2, too_long, slate(&["x", "y"]), admin),
        Err(VotingError::TitleTooLong)
    );
    assert!(l.get_poll(2).is_none());
}

#[test]
fn candidate_name_length_boundaries() {
    let mut l = Ledger::new();
    let admin = caller(1);
    let exactly_50 = "n".repeat(50);
    let too_long = "n".repeat(51);
    assert_eq!(
        l.create_poll(1, "ok".to_string(), vec![exactly_50, "y".to_string()], admin),
        Ok(())
    );
    assert_eq!(
        l.create_poll(2, "bad".to_string(), vec![too_long, "y".to_string()], admin),
        Err(VotingError::AllocationSizeMismatch)
    );
    assert!(l.get_poll(2).is_none());
}

#[test]
fn second_poll_at_same_address_is_rejected() {
    let (mut l, admin) = ledger_with_poll();
    assert_eq!(
        l.create_poll(1, "Again".to_string(), slate(&["a", "b"]), admin),
        Err(VotingError::DuplicatePoll)
    );
    // the existing poll is untouched
    let poll = l.get_poll(1).expect("poll must exist");
    assert_eq!(poll.title.as_str(), "Best Language");
    assert_eq!(l.polls.len(), 1);
}

#[test]
fn operations_on_missing_poll_are_rejected() {
    let mut l = Ledger::new();
    assert_eq!(l.vote(9, 0, caller(10)), Err(VotingError::PollNotFound));
    assert_eq!(l.close_poll(9, caller(1)), Err(VotingError::PollNotFound));
}

#[test]
fn only_the_admin_may_close() {
    let (mut l, _admin) = ledger_with_poll();
    let stranger = caller(99);
    assert_eq!(l.close_poll(1, stranger), Err(VotingError::Unauthorized));
    assert!(l.get_poll(1).expect("poll must exist").is_active);
}

#[test]
fn reclosing_a_closed_poll_is_a_silent_no_op() {
    let (mut l, admin) = ledger_with_poll();
    assert_eq!(l.close_poll(1, admin), Ok(()));
    assert_eq!(l.close_poll(1, admin), Ok(()));
    assert!(!l.get_poll(1).expect("poll must exist").is_active);
}

#[test]
fn tally_always_matches_candidate_sum() {
    let (mut l, _admin) = ledger_with_poll();
    assert_eq!(l.vote(1, 0, caller(10)), Ok(()));
    assert_eq!(l.vote(1, 1, caller(11)), Ok(()));
    assert_eq!(l.vote(1, 0, caller(12)), Ok(()));
    let _ = l.vote(1, 0, caller(10)); // duplicate, rejected
    let poll = l.get_poll(1).expect("poll must exist");
    let sum: u64 = poll.candidates.iter().map(|c| c.votes).sum();
    assert_eq!(sum, poll.total_votes);
    assert_eq!(poll.total_votes, 3);
}

#[test]
fn at_most_one_record_per_poll_and_voter() {
    let (mut l, _admin) = ledger_with_poll();
    let voter_a = caller(10);
    assert_eq!(l.vote(1, 0, voter_a), Ok(()));
    assert_eq!(l.vote(1, 1, voter_a), Err(VotingError::DuplicateVote));
    let matching = l
        .records
        .iter()
        .filter(|r| r.poll_id == 1 && r.voter == voter_a)
        .count();
    assert_eq!(matching, 1);
}

#[test]
fn every_record_points_into_its_poll_slate() {
    let (mut l, _admin) = ledger_with_poll();
    assert_eq!(l.vote(1, 0, caller(10)), Ok(()));
    assert_eq!(l.vote(1, 1, caller(11)), Ok(()));
    for rec in &l.records {
        let poll = l.get_poll(rec.poll_id).expect("poll must exist");
        assert!((rec.candidate_index as usize) < poll.candidates.len());
    }
}

#[test]
fn space_budgets_are_exact() {
    assert_eq!(CANDIDATE_SPACE, 62);
    assert_eq!(POLL_BASE_SPACE, 222);
    assert_eq!(VOTE_RECORD_SPACE, 58);
    let two = slate(&["Rust", "Go"]);
    assert_eq!(Poll::space(&two), 222 + 2 * 62);
    let ten: Vec<String> = (0..10).map(|i| format!("c{}", i)).collect();
    assert_eq!(Poll::space(&ten), 222 + 10 * 62);
    assert_eq!(VoteRecord::space(), 58);
}

#[test]
fn derived_addresses_separate_keys_and_tags() {
    let a = caller(10);
    let b = caller(11);
    assert_eq!(poll_address(1), poll_address(1));
    assert_ne!(poll_address(1), poll_address(2));
    assert_eq!(vote_address(1, a), vote_address(1, a));
    assert_ne!(vote_address(1, a), vote_address(1, b));
    assert_ne!(vote_address(1, a), vote_address(2, a));
    assert_ne!(poll_address(1), vote_address(1, a));
    match poll_address(7) {
        Address::Poll { poll_id } => assert_eq!(poll_id, 7),
        Address::Vote { .. } => panic!("poll address must carry the poll tag"),
    }
}

#[test]
fn error_codes_and_messages_are_stable() {
    assert_eq!(VotingError::TooFewCandidates.code(), 1);
    assert_eq!(VotingError::TooManyCandidates.code(), 2);
    assert_eq!(VotingError::TitleTooLong.code(), 3);
    assert_eq!(VotingError::PollClosed.code(), 4);
    assert_eq!(VotingError::InvalidCandidate.code(), 5);
    assert_eq!(VotingError::Unauthorized.code(), 6);
    assert_eq!(VotingError::DuplicatePoll.code(), 7);
    assert_eq!(VotingError::DuplicateVote.code(), 8);
    assert_eq!(VotingError::PollNotFound.code(), 9);
    assert_eq!(VotingError::AllocationSizeMismatch.code(), 10);
    assert_eq!(
        VotingError::TooFewCandidates.message(),
        "Poll must have at least 2 candidates"
    );
    assert_eq!(
        VotingError::Unauthorized.message(),
        "Only the poll admin can perform this action"
    );
    assert_eq!(VotingError::TitleTooLong.message(), "Title must be 100 characters or less");
}
