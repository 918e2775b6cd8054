//! The three record types of the ledger, the instruction inputs, the
//! notifications that successful operations hand back, and the errors.
use vstd::prelude::*;
use crate::key::Key;

verus! {

/// The longest title a proposal may carry, in bytes.
pub const MAX_TITLE_LEN: usize = 256;

/// The longest description a proposal may carry, in bytes.
pub const MAX_DESCRIPTION_LEN: usize = 1024;

/// The length in bytes of the UTF-8 encoding of `s`.
pub open spec fn byte_len(s: Seq<char>) -> nat {
    vstd::utf8::encode_utf8(s).len()
}

/// The singleton counter of a deployment.
#[derive(Clone, Copy, Debug, PartialEq, Eq)]
pub struct ProgramState {
    /// The sequence number that the next proposal gets.
    pub proposal_count: u64,
    /// The principal that initialized the ledger.
    pub authority: Key,
}

/// A proposal and its tallies.
#[derive(Clone, Debug, PartialEq, Eq)]
pub struct Proposal {
    pub id: u64,
    pub title: String,
    pub description: String,
    pub creator: Key,
    pub yes_votes: u64,
    pub no_votes: u64,
    /// The voting deadline, as a signed timestamp.
    pub end_time: i64,
    pub is_active: bool,
    pub total_voters: u64,
}

impl Proposal {
    /// Whether the votes in favour outnumber those against.
    pub open spec fn spec_passed(&self) -> bool {
        self.yes_votes > self.no_votes
    }

    /// The tallies agree with the number of voters.
    pub open spec fn tally_balanced(&self) -> bool {
        self.total_voters == self.yes_votes + self.no_votes
    }
}

/// What one principal did on one proposal.
#[derive(Clone, Copy, Debug, PartialEq, Eq)]
pub struct VoterInfo {
    pub has_voted: bool,
    pub voter: Key,
    pub vote: bool,
}

/// What an address of the ledger can hold.
#[derive(Clone, Debug, PartialEq, Eq)]
pub enum Record {
    State(ProgramState),
    Proposal(Proposal),
    Voter(VoterInfo),
}

/// The principal that initializes the ledger.
#[derive(Clone, Copy, Debug, PartialEq, Eq)]
pub struct Initialize {
    pub authority: Key,
}

/// The principal that creates a proposal.
#[derive(Clone, Copy, Debug, PartialEq, Eq)]
pub struct CreateProposal {
    pub creator: Key,
}

/// The address of the proposal voted on, and the principal that votes.
#[derive(Clone, Copy, Debug, PartialEq, Eq)]
pub struct CastVote {
    pub proposal: Key,
    pub voter: Key,
}

/// The address of the proposal to finalize, and the principal that asks.
#[derive(Clone, Copy, Debug, PartialEq, Eq)]
pub struct FinalizeProposal {
    pub proposal: Key,
    pub authority: Key,
}

/// Handed back by a successful `create_proposal`.
#[derive(Clone, Debug, PartialEq, Eq)]
pub struct ProposalCreatedEvent {
    pub proposal_id: u64,
    pub creator: Key,
    pub title: String,
    pub end_time: i64,
}

/// Handed back by a successful `cast_vote`.
#[derive(Clone, Copy, Debug, PartialEq, Eq)]
pub struct VoteCastEvent {
    pub proposal_id: u64,
    pub voter: Key,
    pub vote: bool,
}

/// Handed back by a successful `finalize_proposal`.
#[derive(Clone, Copy, Debug, PartialEq, Eq)]
pub struct ProposalFinalizedEvent {
    pub proposal_id: u64,
    pub yes_votes: u64,
    pub no_votes: u64,
    pub passed: bool,
}

/// Why an operation was rejected. A rejected operation changes nothing.
#[derive(Clone, Copy, Debug, PartialEq, Eq)]
pub enum VotingError {
    /// The proposal has been finalized.
    ProposalNotActive,
    /// The current time is past the proposal's deadline.
    VotingPeriodEnded,
    /// The deadline has not passed and the caller is not the creator.
    VotingPeriodNotEnded,
    /// The voter's record shows a vote already.
    AlreadyVoted,
    /// The counter's address already holds a record.
    AlreadyInitialized,
    /// The address derived for a new record already holds another one.
    SlotOccupied,
    /// No counter record exists yet.
    NotInitialized,
    /// The address given holds no proposal.
    ProposalNotFound,
    /// No valid address can be derived from the seeds.
    AddressUnavailable,
    /// The title is longer than `MAX_TITLE_LEN` bytes.
    TitleTooLong,
    /// The description is longer than `MAX_DESCRIPTION_LEN` bytes.
    DescriptionTooLong,
    /// A counter or a tally is at the largest value it can hold.
    CountOverflow,
}

} // verus!
