use voting_dapp::{
    cast_vote, create_proposal, finalize_proposal, initialize, CastVote, CreateProposal,
    FinalizeProposal, Initialize, Key, Ledger, Proposal, Record, VotingError, MAX_DESCRIPTION_LEN,
    MAX_TITLE_LEN,
};

const NOW: i64 = 1_700_000_000;

fn program() -> Key {
    Key::new([7u8; 32])
}

fn creator() -> Key {
    Key::new([1u8; 32])
}

fn alice() -> Key {
    Key::new([2u8; 32])
}

fn bob() -> Key {
    Key::new([3u8; 32])
}

fn ready_ledger() -> Ledger {
    let mut ledger = Ledger::new(program());
    initialize(&mut ledger, &Initialize { authority: creator() }).unwrap();
    ledger
}

fn new_proposal(ledger: &mut Ledger, end_time: i64) -> Key {
    let event = create_proposal(
        ledger,
        &CreateProposal { creator: creator() },
        "T".to_string(),
        "D".to_string(),
        end_time,
    )
    .unwrap();
    ledger.derive_proposal_address(event.proposal_id).unwrap()
}

fn proposal(ledger: &Ledger, address: &Key) -> Proposal {
    match ledger.get(address) {
        Some(Record::Proposal(p)) => p.clone(),
        other => panic!("no proposal at the address: {:?}", other),
    }
}

fn counter(ledger: &Ledger) -> u64 {
    let address = ledger.derive_state_address().unwrap();
    match ledger.get(&address) {
        Some(Record::State(s)) => s.proposal_count,
        other => panic!("no counter: {:?}", other),
    }
}

fn vote(ledger: &mut Ledger, address: &Key, voter: Key, choice: bool, now: i64) -> Result<(), VotingError> {
    cast_vote(ledger, &CastVote { proposal: *address, voter }, choice, now).map(|_| ())
}

#[test]
fn scenario_vote_and_finalize() {
    let mut ledger = ready_ledger();
    let end_time = NOW + 1000;
    let created = create_proposal(
        &mut ledger,
        &CreateProposal { creator: creator() },
        "T".to_string(),
        "D".to_string(),
        end_time,
    )
    .unwrap();
    assert_eq!(created.proposal_id, 0);
    assert_eq!(created.creator, creator());
    assert_eq!(created.title, "T");
    assert_eq!(created.end_time, end_time);
    let address = ledger.derive_proposal_address(0).unwrap();
    let p = proposal(&ledger, &address);
    assert_eq!((p.id, p.yes_votes, p.no_votes, p.total_voters, p.is_active), (0, 0, 0, 0, true));
    assert_eq!(p.title, "T");
    assert_eq!(p.description, "D");

    let cast = cast_vote(&mut ledger, &CastVote { proposal: address, voter: alice() }, true, NOW)
        .unwrap();
    assert_eq!((cast.proposal_id, cast.voter, cast.vote), (0, alice(), true));
    let p = proposal(&ledger, &address);
    assert_eq!((p.yes_votes, p.no_votes, p.total_voters), (1, 0, 1));

    assert_eq!(vote(&mut ledger, &address, alice(), false, NOW), Err(VotingError::AlreadyVoted));
    let p = proposal(&ledger, &address);
    assert_eq!((p.yes_votes, p.no_votes, p.total_voters), (1, 0, 1));

    vote(&mut ledger, &address, bob(), false, NOW).unwrap();
    let p = proposal(&ledger, &address);
    assert_eq!((p.yes_votes, p.no_votes, p.total_voters), (1, 1, 2));

    let done = finalize_proposal(
        &mut ledger,
        &FinalizeProposal { proposal: address, authority: creator() },
        NOW,
    )
    .unwrap();
    assert_eq!((done.proposal_id, done.yes_votes, done.no_votes, done.passed), (0, 1, 1, false));
    assert!(!proposal(&ledger, &address).is_active);
}

#[test]
fn ids_follow_call_order() {
    let mut ledger = ready_ledger();
    assert_eq!(counter(&ledger), 0);
    for expected in 0..4u64 {
        let event = create_proposal(
            &mut ledger,
            &CreateProposal { creator: alice() },
            format!("title {}", expected),
            "D".to_string(),
            NOW,
        )
        .unwrap();
        assert_eq!(event.proposal_id, expected);
        assert_eq!(counter(&ledger), expected + 1);
        let address = ledger.derive_proposal_address(expected).unwrap();
        assert_eq!(proposal(&ledger, &address).id, expected);
    }
}

#[test]
fn tallies_stay_balanced() {
    let mut ledger = ready_ledger();
    let address = new_proposal(&mut ledger, NOW + 10);
    for i in 0..6u8 {
        vote(&mut ledger, &address, Key::new([100 + i; 32]), i % 3 == 0, NOW).unwrap();
        let p = proposal(&ledger, &address);
        assert_eq!(p.total_voters, p.yes_votes + p.no_votes);
    }
    let p = proposal(&ledger, &address);
    assert_eq!((p.yes_votes, p.no_votes, p.total_voters), (2, 4, 6));
}

#[test]
fn second_vote_is_rejected() {
    let mut ledger = ready_ledger();
    let address = new_proposal(&mut ledger, NOW + 10);
    vote(&mut ledger, &address, alice(), false, NOW).unwrap();
    let before = proposal(&ledger, &address);
    assert_eq!(vote(&mut ledger, &address, alice(), false, NOW), Err(VotingError::AlreadyVoted));
    assert_eq!(vote(&mut ledger, &address, alice(), true, NOW + 10), Err(VotingError::AlreadyVoted));
    assert_eq!(proposal(&ledger, &address), before);
    let record = ledger.derive_voter_address(&address, &alice()).unwrap();
    match ledger.get(&record) {
        Some(Record::Voter(v)) => {
            assert!(v.has_voted);
            assert_eq!(v.voter, alice());
            assert!(!v.vote);
        }
        other => panic!("no voter record: {:?}", other),
    }
}

#[test]
fn one_vote_per_proposal_not_per_voter() {
    let mut ledger = ready_ledger();
    let first = new_proposal(&mut ledger, NOW + 10);
    let second = new_proposal(&mut ledger, NOW + 10);
    vote(&mut ledger, &first, alice(), true, NOW).unwrap();
    vote(&mut ledger, &second, alice(), true, NOW).unwrap();
    assert_eq!(proposal(&ledger, &first).yes_votes, 1);
    assert_eq!(proposal(&ledger, &second).yes_votes, 1);
}

#[test]
fn late_vote_is_rejected() {
    let mut ledger = ready_ledger();
    let address = new_proposal(&mut ledger, NOW);
    assert_eq!(vote(&mut ledger, &address, alice(), true, NOW + 1), Err(VotingError::VotingPeriodEnded));
    assert_eq!(proposal(&ledger, &address).total_voters, 0);
    vote(&mut ledger, &address, alice(), true, NOW).unwrap();
    assert_eq!(proposal(&ledger, &address).total_voters, 1);
}

#[test]
fn non_creator_cannot_finalize_early() {
    let mut ledger = ready_ledger();
    let address = new_proposal(&mut ledger, NOW + 10);
    let asked = FinalizeProposal { proposal: address, authority: bob() };
    assert_eq!(finalize_proposal(&mut ledger, &asked, NOW), Err(VotingError::VotingPeriodNotEnded));
    assert_eq!(finalize_proposal(&mut ledger, &asked, NOW + 10), Err(VotingError::VotingPeriodNotEnded));
    assert!(proposal(&ledger, &address).is_active);
    assert!(finalize_proposal(&mut ledger, &asked, NOW + 11).is_ok());
    assert!(!proposal(&ledger, &address).is_active);
}

#[test]
fn creator_can_finalize_any_time() {
    let mut ledger = ready_ledger();
    let address = new_proposal(&mut ledger, NOW + 10);
    vote(&mut ledger, &address, alice(), true, NOW).unwrap();
    let done = finalize_proposal(
        &mut ledger,
        &FinalizeProposal { proposal: address, authority: creator() },
        NOW - 100,
    )
    .unwrap();
    assert!(done.passed);
    assert_eq!((done.yes_votes, done.no_votes), (1, 0));
}

#[test]
fn finalized_proposal_is_terminal() {
    let mut ledger = ready_ledger();
    let address = new_proposal(&mut ledger, NOW + 10);
    let asked = FinalizeProposal { proposal: address, authority: creator() };
    finalize_proposal(&mut ledger, &asked, NOW).unwrap();
    let before = proposal(&ledger, &address);
    assert_eq!(finalize_proposal(&mut ledger, &asked, NOW), Err(VotingError::ProposalNotActive));
    assert_eq!(vote(&mut ledger, &address, alice(), true, NOW), Err(VotingError::ProposalNotActive));
    assert_eq!(vote(&mut ledger, &address, alice(), true, NOW + 50), Err(VotingError::ProposalNotActive));
    assert_eq!(proposal(&ledger, &address), before);
}

#[test]
fn initialize_twice_fails() {
    let mut ledger = ready_ledger();
    assert_eq!(
        initialize(&mut ledger, &Initialize { authority: alice() }),
        Err(VotingError::AlreadyInitialized)
    );
    let address = ledger.derive_state_address().unwrap();
    match ledger.get(&address) {
        Some(Record::State(s)) => assert_eq!((s.proposal_count, s.authority), (0, creator())),
        other => panic!("no counter: {:?}", other),
    }
}

#[test]
fn create_before_initialize_fails() {
    let mut ledger = Ledger::new(program());
    let r = create_proposal(
        &mut ledger,
        &CreateProposal { creator: creator() },
        "T".to_string(),
        "D".to_string(),
        NOW,
    );
    assert_eq!(r, Err(VotingError::NotInitialized));
    assert!(ledger.derive_proposal_address(0).map(|a| ledger.get(&a).is_none()).unwrap());
}

#[test]
fn title_and_description_limits() {
    let mut ledger = ready_ledger();
    let creator = CreateProposal { creator: creator() };
    let longest_title = "t".repeat(MAX_TITLE_LEN);
    let longest_description = "d".repeat(MAX_DESCRIPTION_LEN);
    assert!(create_proposal(&mut ledger, &creator, longest_title.clone(), longest_description.clone(), NOW).is_ok());
    assert_eq!(
        create_proposal(&mut ledger, &creator, "t".repeat(MAX_TITLE_LEN + 1), "D".to_string(), NOW),
        Err(VotingError::TitleTooLong)
    );
    assert_eq!(
        create_proposal(&mut ledger, &creator, "T".to_string(), "d".repeat(MAX_DESCRIPTION_LEN + 1), NOW),
        Err(VotingError::DescriptionTooLong)
    );
    // the limit counts bytes: 129 two-byte characters are 258 bytes
    assert_eq!(
        create_proposal(&mut ledger, &creator, "é".repeat(129), "D".to_string(), NOW),
        Err(VotingError::TitleTooLong)
    );
    assert_eq!(counter(&ledger), 1);
}

#[test]
fn unknown_proposal_is_not_found() {
    let mut ledger = ready_ledger();
    let nowhere = Key::new([9u8; 32]);
    assert_eq!(vote(&mut ledger, &nowhere, alice(), true, NOW), Err(VotingError::ProposalNotFound));
    let state = ledger.derive_state_address().unwrap();
    assert_eq!(vote(&mut ledger, &state, alice(), true, NOW), Err(VotingError::ProposalNotFound));
    assert_eq!(
        finalize_proposal(&mut ledger, &FinalizeProposal { proposal: nowhere, authority: creator() }, NOW),
        Err(VotingError::ProposalNotFound)
    );
}

#[test]
fn derived_addresses_are_distinct_and_stable() {
    let ledger = Ledger::new(program());
    let state = ledger.derive_state_address().unwrap();
    let first = ledger.derive_proposal_address(0).unwrap();
    let second = ledger.derive_proposal_address(1).unwrap();
    assert_eq!(first, ledger.derive_proposal_address(0).unwrap());
    assert_ne!(first, second);
    assert_ne!(first, state);
    assert_ne!(first, program());
    let a = ledger.derive_voter_address(&first, &alice()).unwrap();
    let b = ledger.derive_voter_address(&first, &bob()).unwrap();
    let c = ledger.derive_voter_address(&second, &alice()).unwrap();
    assert_ne!(a, b);
    assert_ne!(a, c);
    assert_eq!(a, ledger.derive_voter_address(&first, &alice()).unwrap());
    let other = Ledger::new(Key::new([8u8; 32]));
    assert_ne!(other.derive_proposal_address(0).unwrap(), first);
}

#[test]
fn keys_compare_by_bytes() {
    let mut bytes = [5u8; 32];
    let k = Key::new(bytes);
    assert!(k.same_as(&Key::new(bytes)));
    bytes[31] = 6;
    assert!(!k.same_as(&Key::new(bytes)));
    assert_eq!(k.to_vec(), vec![5u8; 32]);
}
