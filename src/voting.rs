//! The four operations of the governance state machine. Each is specified by a
//! spec function that gives, for the records before the call, the records after
//! it and the result. Every check comes before any change: a rejected operation
//! leaves the records as they were.
use vstd::prelude::*;
use crate::key::{Key, find_program_address};
use crate::ledger::{
    Ledger, state_address, proposal_address, voter_address, state_seeds,
    proposal_seeds, voter_seeds,
};
use crate::records::{
    Record, ProgramState, Proposal, VoterInfo, Initialize, CreateProposal, CastVote,
    FinalizeProposal, ProposalCreatedEvent, VoteCastEvent, ProposalFinalizedEvent, VotingError,
    byte_len, MAX_TITLE_LEN, MAX_DESCRIPTION_LEN,
};

verus! {

/// The records, by address.
pub type Records = Map<Seq<u8>, Record>;

/// The proposal at address `a` of `m`, if `a` holds one.
pub open spec fn proposal_at(m: Records, a: Seq<u8>) -> Option<Proposal> {
    if m.contains_key(a) {
        match m[a] {
            Record::Proposal(p) => Some(p),
            _ => None,
        }
    } else {
        None
    }
}

/// The counter of `m`, if it stands at its address.
pub open spec fn counter(m: Records, program: Seq<u8>) -> Option<ProgramState> {
    match state_address(program) {
        Some(sa) => if m.contains_key(sa) {
            match m[sa] {
                Record::State(s) => Some(s),
                _ => None,
            }
        } else {
            None
        },
        None => None,
    }
}

/// The voter record at address `a` of `m`, if `a` holds one.
pub open spec fn voter_at(m: Records, a: Seq<u8>) -> Option<VoterInfo> {
    if m.contains_key(a) {
        match m[a] {
            Record::Voter(v) => Some(v),
            _ => None,
        }
    } else {
        None
    }
}

/// `p` with one more vote for `vote`.
pub open spec fn tallied(p: Proposal, vote: bool) -> Proposal {
    Proposal {
        yes_votes: if vote {
            (p.yes_votes + 1) as u64
        } else {
            p.yes_votes
        },
        no_votes: if vote {
            p.no_votes
        } else {
            (p.no_votes + 1) as u64
        },
        total_voters: (p.total_voters + 1) as u64,
        ..p
    }
}

/// What `initialize` does to `m`, and its result.
pub open spec fn initialize_outcome(m: Records, program: Seq<u8>, authority: Key) -> (
    Records,
    Result<(), VotingError>,
) {
    match state_address(program) {
        None => (m, Err(VotingError::AddressUnavailable)),
        Some(sa) => if m.contains_key(sa) {
            (m, Err(VotingError::AlreadyInitialized))
        } else {
            (m.insert(sa, Record::State(ProgramState { proposal_count: 0, authority })), Ok(()))
        },
    }
}

/// What `create_proposal` does to `m`, and its result.
pub open spec fn create_outcome(
    m: Records,
    program: Seq<u8>,
    creator: Key,
    title: String,
    description: String,
    end_time: i64,
) -> (Records, Result<ProposalCreatedEvent, VotingError>) {
    if byte_len(title@) > MAX_TITLE_LEN {
        (m, Err(VotingError::TitleTooLong))
    } else if byte_len(description@) > MAX_DESCRIPTION_LEN {
        (m, Err(VotingError::DescriptionTooLong))
    } else {
        match (state_address(program), counter(m, program)) {
            (Some(sa), Some(st)) => {
                let n = st.proposal_count;
                if n == u64::MAX {
                    (m, Err(VotingError::CountOverflow))
                } else {
                    match proposal_address(program, n) {
                        None => (m, Err(VotingError::AddressUnavailable)),
                        Some(pa) => if m.contains_key(pa) {
                            (m, Err(VotingError::SlotOccupied))
                        } else {
                            let p = Proposal {
                                id: n,
                                title,
                                description,
                                creator,
                                yes_votes: 0,
                                no_votes: 0,
                                end_time,
                                is_active: true,
                                total_voters: 0,
                            };
                            let next = ProgramState {
                                proposal_count: (n + 1) as u64,
                                authority: st.authority,
                            };
                            (
                                m.insert(pa, Record::Proposal(p)).insert(sa, Record::State(next)),
                                Ok(ProposalCreatedEvent { proposal_id: n, creator, title, end_time }),
                            )
                        },
                    }
                }
            },
            _ => (m, Err(VotingError::NotInitialized)),
        }
    }
}

/// What `cast_vote` does to `m` when `voter` votes `vote` on the proposal at
/// `proposal` at time `now`, and its result.
pub open spec fn cast_outcome(
    m: Records,
    program: Seq<u8>,
    proposal: Seq<u8>,
    voter: Key,
    vote: bool,
    now: i64,
) -> (Records, Result<VoteCastEvent, VotingError>) {
    match proposal_at(m, proposal) {
        None => (m, Err(VotingError::ProposalNotFound)),
        Some(p) => if !p.is_active {
            (m, Err(VotingError::ProposalNotActive))
        } else if now > p.end_time {
            (m, Err(VotingError::VotingPeriodEnded))
        } else {
            match voter_address(program, proposal, voter@) {
                None => (m, Err(VotingError::AddressUnavailable)),
                Some(va) => if m.contains_key(va) && voter_at(m, va) is None {
                    (m, Err(VotingError::SlotOccupied))
                } else if m.contains_key(va) && voter_at(m, va)->0.has_voted {
                    (m, Err(VotingError::AlreadyVoted))
                } else if p.total_voters == u64::MAX {
                    (m, Err(VotingError::CountOverflow))
                } else {
                    let info = VoterInfo { has_voted: true, voter, vote };
                    (
                        m.insert(proposal, Record::Proposal(tallied(p, vote))).insert(
                            va,
                            Record::Voter(info),
                        ),
                        Ok(VoteCastEvent { proposal_id: p.id, voter, vote }),
                    )
                },
            }
        },
    }
}

/// What `finalize_proposal` does to `m` when `authority` asks at time `now`
/// for the proposal at `proposal`, and its result.
pub open spec fn finalize_outcome(m: Records, proposal: Seq<u8>, authority: Key, now: i64) -> (
    Records,
    Result<ProposalFinalizedEvent, VotingError>,
) {
    match proposal_at(m, proposal) {
        None => (m, Err(VotingError::ProposalNotFound)),
        Some(p) => if !p.is_active {
            (m, Err(VotingError::ProposalNotActive))
        } else if !(now > p.end_time || authority@ == p.creator@) {
            (m, Err(VotingError::VotingPeriodNotEnded))
        } else {
            (
                m.insert(proposal, Record::Proposal(Proposal { is_active: false, ..p })),
                Ok(
                    ProposalFinalizedEvent {
                        proposal_id: p.id,
                        yes_votes: p.yes_votes,
                        no_votes: p.no_votes,
                        passed: p.yes_votes > p.no_votes,
                    },
                ),
            )
        },
    }
}

/// Creates the counter, with no proposals yet, owned by the caller.
pub fn initialize(ledger: &mut Ledger, accounts: &Initialize) -> (r: Result<(), VotingError>)
    requires
        old(ledger).wf(),
    ensures
        final(ledger).wf(),
        final(ledger).program() == old(ledger).program(),
        (final(ledger)@, r) == initialize_outcome(
            old(ledger)@,
            old(ledger).program(),
            accounts.authority,
        ),
{
    let program = ledger.program_id();
    let address = match find_program_address(&state_seeds(), &program) {
        Some(a) => a,
        None => { return Err(VotingError::AddressUnavailable); },
    };
    if ledger.get(&address).is_some() {
        return Err(VotingError::AlreadyInitialized);
    }
    let state = ProgramState { proposal_count: 0, authority: accounts.authority };
    ledger.insert_new(address, Record::State(state));
    Ok(())
}

/// Creates the next proposal at the address derived from the counter's value,
/// with empty tallies, and advances the counter by one.
pub fn create_proposal(
    ledger: &mut Ledger,
    accounts: &CreateProposal,
    title: String,
    description: String,
    end_time: i64,
) -> (r: Result<ProposalCreatedEvent, VotingError>)
    requires
        old(ledger).wf(),
    ensures
        final(ledger).wf(),
        final(ledger).program() == old(ledger).program(),
        (final(ledger)@, r) == create_outcome(
            old(ledger)@,
            old(ledger).program(),
            accounts.creator,
            title,
            description,
            end_time,
        ),
{
    if title.as_str().as_bytes().len() > MAX_TITLE_LEN {
        return Err(VotingError::TitleTooLong);
    }
    if description.as_str().as_bytes().len() > MAX_DESCRIPTION_LEN {
        return Err(VotingError::DescriptionTooLong);
    }
    let program = ledger.program_id();
    let state_addr = match find_program_address(&state_seeds(), &program) {
        Some(a) => a,
        None => { return Err(VotingError::NotInitialized); },
    };
    let state = match ledger.get(&state_addr) {
        Some(Record::State(s)) => *s,
        _ => { return Err(VotingError::NotInitialized); },
    };
    let n = state.proposal_count;
    if n == u64::MAX {
        return Err(VotingError::CountOverflow);
    }
    let proposal_addr = match find_program_address(&proposal_seeds(n), &program) {
        Some(a) => a,
        None => { return Err(VotingError::AddressUnavailable); },
    };
    if ledger.get(&proposal_addr).is_some() {
        return Err(VotingError::SlotOccupied);
    }
    let event = ProposalCreatedEvent {
        proposal_id: n,
        creator: accounts.creator,
        title: title.clone(),
        end_time,
    };
    let proposal = Proposal {
        id: n,
        title,
        description,
        creator: accounts.creator,
        yes_votes: 0,
        no_votes: 0,
        end_time,
        is_active: true,
        total_voters: 0,
    };
    ledger.insert_new(proposal_addr, Record::Proposal(proposal));
    let next = ProgramState { proposal_count: n + 1, authority: state.authority };
    ledger.overwrite(&state_addr, Record::State(next));
    Ok(event)
}

/// Records the caller's vote on an active proposal before its deadline, once
/// per voter: creates the voter's record at its derived address and counts
/// the vote.
pub fn cast_vote(ledger: &mut Ledger, accounts: &CastVote, vote: bool, now: i64) -> (r: Result<
    VoteCastEvent,
    VotingError,
>)
    requires
        old(ledger).wf(),
    ensures
        final(ledger).wf(),
        final(ledger).program() == old(ledger).program(),
        (final(ledger)@, r) == cast_outcome(
            old(ledger)@,
            old(ledger).program(),
            accounts.proposal@,
            accounts.voter,
            vote,
            now,
        ),
{
    let program = ledger.program_id();
    let p = match ledger.get(&accounts.proposal) {
        Some(Record::Proposal(p)) => p,
        _ => { return Err(VotingError::ProposalNotFound); },
    };
    if !p.is_active {
        return Err(VotingError::ProposalNotActive);
    }
    if now > p.end_time {
        return Err(VotingError::VotingPeriodEnded);
    }
    let voter_addr = match find_program_address(
        &voter_seeds(&accounts.proposal, &accounts.voter),
        &program,
    ) {
        Some(a) => a,
        None => { return Err(VotingError::AddressUnavailable); },
    };
    let fresh = match ledger.get(&voter_addr) {
        None => true,
        Some(Record::Voter(v)) => {
            if v.has_voted {
                return Err(VotingError::AlreadyVoted);
            }
            false
        },
        Some(_) => { return Err(VotingError::SlotOccupied); },
    };
    if p.total_voters == u64::MAX {
        return Err(VotingError::CountOverflow);
    }
    let updated = Proposal {
        id: p.id,
        title: p.title.clone(),
        description: p.description.clone(),
        creator: p.creator,
        yes_votes: if vote {
            p.yes_votes + 1
        } else {
            p.yes_votes
        },
        no_votes: if vote {
            p.no_votes
        } else {
            p.no_votes + 1
        },
        end_time: p.end_time,
        is_active: p.is_active,
        total_voters: p.total_voters + 1,
    };
    let event = VoteCastEvent { proposal_id: p.id, voter: accounts.voter, vote };
    ledger.overwrite(&accounts.proposal, Record::Proposal(updated));
    let info = Record::Voter(VoterInfo { has_voted: true, voter: accounts.voter, vote });
    if fresh {
        ledger.insert_new(voter_addr, info);
    } else {
        ledger.overwrite(&voter_addr, info);
    }
    Ok(event)
}

/// Closes an active proposal for good: allowed to its creator at any time,
/// and to anyone once the deadline has passed.
pub fn finalize_proposal(ledger: &mut Ledger, accounts: &FinalizeProposal, now: i64) -> (r: Result<
    ProposalFinalizedEvent,
    VotingError,
>)
    requires
        old(ledger).wf(),
    ensures
        final(ledger).wf(),
        final(ledger).program() == old(ledger).program(),
        (final(ledger)@, r) == finalize_outcome(
            old(ledger)@,
            accounts.proposal@,
            accounts.authority,
            now,
        ),
{
    let p = match ledger.get(&accounts.proposal) {
        Some(Record::Proposal(p)) => p,
        _ => { return Err(VotingError::ProposalNotFound); },
    };
    if !p.is_active {
        return Err(VotingError::ProposalNotActive);
    }
    let ended = now > p.end_time;
    let is_creator = accounts.authority.same_as(&p.creator);
    if !(ended || is_creator) {
        return Err(VotingError::VotingPeriodNotEnded);
    }
    let event = ProposalFinalizedEvent {
        proposal_id: p.id,
        yes_votes: p.yes_votes,
        no_votes: p.no_votes,
        passed: p.yes_votes > p.no_votes,
    };
    let closed = Proposal {
        id: p.id,
        title: p.title.clone(),
        description: p.description.clone(),
        creator: p.creator,
        yes_votes: p.yes_votes,
        no_votes: p.no_votes,
        end_time: p.end_time,
        is_active: false,
        total_voters: p.total_voters,
    };
    ledger.overwrite(&accounts.proposal, Record::Proposal(closed));
    Ok(event)
}

} // verus!
