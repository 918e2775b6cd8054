//! What holds of the operations over all inputs and across calls.
use vstd::prelude::*;
use crate::key::Key;
use crate::ledger::{Ledger, voter_address};
use crate::records::{ProposalCreatedEvent, ProposalFinalizedEvent, VoteCastEvent, VotingError};
use crate::voting::{
    Records, proposal_at, voter_at, counter, initialize_outcome, create_outcome, cast_outcome,
    finalize_outcome,
};

verus! {

/// A successful `initialize` leaves a counter at zero, owned by the caller.
pub proof fn lemma_initialize_starts_at_zero(m: Records, program: Seq<u8>, authority: Key)
    requires
        initialize_outcome(m, program, authority).1 is Ok,
    ensures
        counter(initialize_outcome(m, program, authority).0, program) is Some,
        counter(initialize_outcome(m, program, authority).0, program)->0.proposal_count == 0,
        counter(initialize_outcome(m, program, authority).0, program)->0.authority == authority,
{
}

/// A run of successful `create_proposal` calls that starts from a counter at
/// zero hands out the ids 0, 1, 2, ... in call order, and after N calls the
/// counter stands at N.
pub proof fn lemma_ids_in_call_order(
    program: Seq<u8>,
    states: Seq<Records>,
    creators: Seq<Key>,
    titles: Seq<String>,
    descriptions: Seq<String>,
    end_times: Seq<i64>,
    events: Seq<ProposalCreatedEvent>,
)
    requires
        counter(states[0], program) is Some,
        counter(states[0], program)->0.proposal_count == 0,
        states.len() == events.len() + 1,
        creators.len() == events.len(),
        titles.len() == events.len(),
        descriptions.len() == events.len(),
        end_times.len() == events.len(),
        forall|k: int|
            0 <= k < events.len() ==> #[trigger] create_outcome(
                states[k],
                program,
                creators[k],
                titles[k],
                descriptions[k],
                end_times[k],
            ) == (states[k + 1], Ok::<ProposalCreatedEvent, VotingError>(events[k])),
    ensures
        forall|k: int| 0 <= k < events.len() ==> #[trigger] events[k].proposal_id == k,
        counter(states.last(), program) is Some,
        counter(states.last(), program)->0.proposal_count == events.len(),
{
    lemma_ids_in_call_order_prefix(
        program,
        states,
        creators,
        titles,
        descriptions,
        end_times,
        events,
        events.len() as int,
    );
}

proof fn lemma_ids_in_call_order_prefix(
    program: Seq<u8>,
    states: Seq<Records>,
    creators: Seq<Key>,
    titles: Seq<String>,
    descriptions: Seq<String>,
    end_times: Seq<i64>,
    events: Seq<ProposalCreatedEvent>,
    j: int,
)
    requires
        0 <= j <= events.len(),
        counter(states[0], program) is Some,
        counter(states[0], program)->0.proposal_count == 0,
        states.len() == events.len() + 1,
        creators.len() == events.len(),
        titles.len() == events.len(),
        descriptions.len() == events.len(),
        end_times.len() == events.len(),
        forall|k: int|
            0 <= k < events.len() ==> #[trigger] create_outcome(
                states[k],
                program,
                creators[k],
                titles[k],
                descriptions[k],
                end_times[k],
            ) == (states[k + 1], Ok::<ProposalCreatedEvent, VotingError>(events[k])),
    ensures
        forall|k: int| 0 <= k < j ==> #[trigger] events[k].proposal_id == k,
        counter(states[j], program) is Some,
        counter(states[j], program)->0.proposal_count == j,
    decreases j,
{
    if j > 0 {
        lemma_ids_in_call_order_prefix(
            program,
            states,
            creators,
            titles,
            descriptions,
            end_times,
            events,
            j - 1,
        );
        let k = j - 1;
        assert(create_outcome(
            states[k],
            program,
            creators[k],
            titles[k],
            descriptions[k],
            end_times[k],
        ) == (states[k + 1], Ok::<ProposalCreatedEvent, VotingError>(events[k])));
    }
}

/// In a well-formed ledger, and so after any sequence of operations, every
/// proposal's voter count is the sum of its two tallies.
pub proof fn lemma_tally_balanced(ledger: &Ledger, a: Seq<u8>)
    requires
        ledger.wf(),
        proposal_at(ledger@, a) is Some,
    ensures
        proposal_at(ledger@, a)->0.total_voters == proposal_at(ledger@, a)->0.yes_votes
            + proposal_at(ledger@, a)->0.no_votes,
{
}

/// Once a vote of `voter` on the proposal at `proposal` has succeeded, a
/// second one by the same voter, for either choice and at any time, is
/// rejected and changes nothing; within the voting period it is rejected as a
/// repeated vote.
pub proof fn lemma_second_vote_rejected(
    m: Records,
    program: Seq<u8>,
    proposal: Seq<u8>,
    voter: Key,
    first: bool,
    first_time: i64,
    second: bool,
    second_time: i64,
)
    requires
        cast_outcome(m, program, proposal, voter, first, first_time).1 is Ok,
    ensures
        ({
            let after = cast_outcome(m, program, proposal, voter, first, first_time).0;
            let again = cast_outcome(after, program, proposal, voter, second, second_time);
            &&& again.1 is Err
            &&& again.0 == after
            &&& second_time <= proposal_at(m, proposal)->0.end_time ==> again.1 == Err::<
                VoteCastEvent,
                VotingError,
            >(VotingError::AlreadyVoted)
        }),
{
    let va = voter_address(program, proposal, voter@)->0;
    let after = cast_outcome(m, program, proposal, voter, first, first_time).0;
    assert(va != proposal);
    assert(after.contains_key(va));
    assert(voter_at(after, va) is Some);
    assert(proposal_at(after, proposal) is Some);
}

/// A voter whose record on a proposal shows a vote cannot vote on it again:
/// the attempt is rejected and changes nothing.
pub proof fn lemma_recorded_vote_blocks(
    m: Records,
    program: Seq<u8>,
    proposal: Seq<u8>,
    voter: Key,
    vote: bool,
    now: i64,
)
    requires
        voter_address(program, proposal, voter@) is Some,
        voter_at(m, voter_address(program, proposal, voter@)->0) is Some,
        voter_at(m, voter_address(program, proposal, voter@)->0)->0.has_voted,
    ensures
        cast_outcome(m, program, proposal, voter, vote, now).1 is Err,
        cast_outcome(m, program, proposal, voter, vote, now).0 == m,
{
}

/// Records that have reached their final state stay as they are under every
/// operation: a voter record that shows a vote, and a finalized proposal.
pub proof fn lemma_final_records_persist(
    m: Records,
    program: Seq<u8>,
    a: Seq<u8>,
    caller: Key,
    title: String,
    description: String,
    end_time: i64,
    proposal: Seq<u8>,
    vote: bool,
    now: i64,
)
    requires
        (voter_at(m, a) is Some && voter_at(m, a)->0.has_voted) || (proposal_at(m, a) is Some
            && !proposal_at(m, a)->0.is_active),
    ensures
        initialize_outcome(m, program, caller).0.contains_key(a),
        initialize_outcome(m, program, caller).0[a] == m[a],
        create_outcome(m, program, caller, title, description, end_time).0.contains_key(a),
        create_outcome(m, program, caller, title, description, end_time).0[a] == m[a],
        cast_outcome(m, program, proposal, caller, vote, now).0.contains_key(a),
        cast_outcome(m, program, proposal, caller, vote, now).0[a] == m[a],
        finalize_outcome(m, proposal, caller, now).0.contains_key(a),
        finalize_outcome(m, proposal, caller, now).0[a] == m[a],
{
}

/// A vote on an open proposal after its deadline is rejected as late and
/// changes nothing.
pub proof fn lemma_late_vote_rejected(
    m: Records,
    program: Seq<u8>,
    proposal: Seq<u8>,
    voter: Key,
    vote: bool,
    now: i64,
)
    requires
        proposal_at(m, proposal) is Some,
        proposal_at(m, proposal)->0.is_active,
        now > proposal_at(m, proposal)->0.end_time,
    ensures
        cast_outcome(m, program, proposal, voter, vote, now) == (m, Err::<
            VoteCastEvent,
            VotingError,
        >(VotingError::VotingPeriodEnded)),
{
}

/// Finalizing an open proposal is refused to anyone but its creator before
/// the deadline has passed, and granted to the creator at any time and to
/// anyone after the deadline.
pub proof fn lemma_finalize_authority(
    m: Records,
    proposal: Seq<u8>,
    caller: Key,
    now: i64,
)
    requires
        proposal_at(m, proposal) is Some,
        proposal_at(m, proposal)->0.is_active,
    ensures
        ({
            let p = proposal_at(m, proposal)->0;
            let out = finalize_outcome(m, proposal, caller, now);
            &&& (caller@ != p.creator@ && now <= p.end_time) ==> out == (m, Err::<
                ProposalFinalizedEvent,
                VotingError,
            >(VotingError::VotingPeriodNotEnded))
            &&& (caller@ == p.creator@ || now > p.end_time) ==> {
                &&& out.1 is Ok
                &&& proposal_at(out.0, proposal) is Some
                &&& !proposal_at(out.0, proposal)->0.is_active
            }
        }),
{
}

/// A finalized proposal takes neither votes nor a second finalization: both
/// are rejected as not active and change nothing.
pub proof fn lemma_finalized_is_terminal(
    m: Records,
    program: Seq<u8>,
    proposal: Seq<u8>,
    caller: Key,
    vote: bool,
    now: i64,
)
    requires
        proposal_at(m, proposal) is Some,
        !proposal_at(m, proposal)->0.is_active,
    ensures
        cast_outcome(m, program, proposal, caller, vote, now) == (m, Err::<
            VoteCastEvent,
            VotingError,
        >(VotingError::ProposalNotActive)),
        finalize_outcome(m, proposal, caller, now) == (m, Err::<
            ProposalFinalizedEvent,
            VotingError,
        >(VotingError::ProposalNotActive)),
{
}

} // verus!
