//! A governance ledger: principals create proposals, cast one vote each, and
//! finalize proposals into a terminal outcome. Every record lives at an address
//! derived from a namespace tag and seed bytes, so that no two records collide.
pub mod key;
pub mod records;
pub mod ledger;
pub mod voting;
pub mod guarantees;

pub use crate::key::Key;
pub use crate::ledger::{Entry, Ledger};
pub use crate::records::{
    CastVote, CreateProposal, FinalizeProposal, Initialize, ProgramState, Proposal,
    ProposalCreatedEvent, ProposalFinalizedEvent, Record, VoteCastEvent, VoterInfo, VotingError,
    MAX_DESCRIPTION_LEN, MAX_TITLE_LEN,
};
pub use crate::voting::{cast_vote, create_proposal, finalize_proposal, initialize};
