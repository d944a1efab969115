use vstd::prelude::*;

verus! {

/// Why an operation on the ledger was rejected.
///
/// Every failed operation aborts as a whole: the caller sees one of these
/// codes and the ledger is exactly as it was before the call.
#[derive(Clone, Copy, Debug, PartialEq, Eq, Structural)]
pub enum VotingError {
    /// A poll needs at least two candidates.
    TooFewCandidates,
    /// A poll may hold at most ten candidates.
    TooManyCandidates,
    /// A poll title may hold at most one hundred characters.
    TitleTooLong,
    /// The poll has been closed to further voting.
    PollClosed,
    /// The chosen candidate index lies outside the poll's slate.
    InvalidCandidate,
    /// Only the poll's admin may perform this action.
    Unauthorized,
    /// A poll with this identifier already exists.
    DuplicatePoll,
    /// This voter has already voted in this poll.
    DuplicateVote,
    /// No poll with this identifier exists.
    PollNotFound,
    /// The record would not fit the storage slot its slate size budgets for.
    AllocationSizeMismatch,
}

impl VotingError {
    /// The stable numeric code of this error.
    pub open spec fn spec_code(self) -> u32 {
        match self {
            VotingError::TooFewCandidates => 1,
            VotingError::TooManyCandidates => 2,
            VotingError::TitleTooLong => 3,
            VotingError::PollClosed => 4,
            VotingError::InvalidCandidate => 5,
            VotingError::Unauthorized => 6,
            VotingError::DuplicatePoll => 7,
            VotingError::DuplicateVote => 8,
            VotingError::PollNotFound => 9,
            VotingError::AllocationSizeMismatch => 10,
        }
    }

    /// The stable numeric code of this error.
    pub fn code(&self) -> (c: u32)
        ensures
            c == self.spec_code(),
    {
        match self {
            VotingError::TooFewCandidates => 1,
            VotingError::TooManyCandidates => 2,
            VotingError::TitleTooLong => 3,
            VotingError::PollClosed => 4,
            VotingError::InvalidCandidate => 5,
            VotingError::Unauthorized => 6,
            VotingError::DuplicatePoll => 7,
            VotingError::DuplicateVote => 8,
            VotingError::PollNotFound => 9,
            VotingError::AllocationSizeMismatch => 10,
        }
    }

    /// The stable human-readable message of this error.
    pub fn message(&self) -> (m: &'static str)
        ensures
            m@ == self.spec_message(),
    {
        match self {
            VotingError::TooFewCandidates => "Poll must have at least 2 candidates",
            VotingError::TooManyCandidates => "Poll cannot have more than 10 candidates",
            VotingError::TitleTooLong => "Title must be 100 characters or less",
            VotingError::PollClosed => "This poll is closed",
            VotingError::InvalidCandidate => "Invalid candidate index",
            VotingError::Unauthorized => "Only the poll admin can perform this action",
            VotingError::DuplicatePoll => "A poll with this id already exists",
            VotingError::DuplicateVote => "This wallet has already voted in this poll",
            VotingError::PollNotFound => "No poll with this id exists",
            VotingError::AllocationSizeMismatch => "Candidate name exceeds its storage slot",
        }
    }

    /// The stable human-readable message of this error.
    pub open spec fn spec_message(self) -> Seq<char> {
        match self {
            VotingError::TooFewCandidates => "Poll must have at least 2 candidates"@,
            VotingError::TooManyCandidates => "Poll cannot have more than 10 candidates"@,
            VotingError::TitleTooLong => "Title must be 100 characters or less"@,
            VotingError::PollClosed => "This poll is closed"@,
            VotingError::InvalidCandidate => "Invalid candidate index"@,
            VotingError::Unauthorized => "Only the poll admin can perform this action"@,
            VotingError::DuplicatePoll => "A poll with this id already exists"@,
            VotingError::DuplicateVote => "This wallet has already voted in this poll"@,
            VotingError::PollNotFound => "No poll with this id exists"@,
            VotingError::AllocationSizeMismatch => "Candidate name exceeds its storage slot"@,
        }
    }
}

} // verus!
