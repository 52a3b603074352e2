use voting::{Config, DefaultVoter, DelegateWalk, Error, Event, Pallet, Proposal, Voter};

const ALICE: u64 = 1;
const BOB: u64 = 2;
const CAROL: u64 = 3;

fn ledger() -> Pallet {
    Pallet::new(Config { min_proposal_length: 3, max_proposal_length: 8 })
}

fn ledger_with_proposal() -> Pallet {
    let mut p = ledger();
    assert_eq!(p.create_proposal(ALICE, b"parks".to_vec(), 10, 20, 5), Ok(1));
    p
}

fn fresh_voter() -> Voter {
    Voter { weight: 1, voted: false, delegate: None, proposal: 0 }
}

fn delegating_to(next: u64) -> Voter {
    Voter { weight: 1, voted: false, delegate: Some(next), proposal: 0 }
}

fn stored(p: &Pallet, id: u32) -> Proposal {
    p.proposals(id).expect("proposal is stored").clone()
}

#[test]
fn new_ledger_is_empty() {
    let p = ledger();
    assert_eq!(p.proposal_index(), None);
    assert!(p.proposals(1).is_none());
    assert!(!p.has_voter(ALICE));
    assert!(p.events().is_empty());
    assert_eq!(p.config(), Config { min_proposal_length: 3, max_proposal_length: 8 });
}

#[test]
fn default_voter_has_weight_one() {
    assert_eq!(DefaultVoter(), Voter { weight: 1, voted: false, delegate: None, proposal: 0 });
    assert_eq!(ledger().voters(ALICE), DefaultVoter());
}

#[test]
fn create_stores_record_and_advances_counter() {
    let mut p = ledger();
    assert_eq!(p.create_proposal(ALICE, b"parks".to_vec(), 10, 20, 5), Ok(1));
    assert_eq!(p.proposal_index(), Some(1));
    assert_eq!(
        stored(&p, 1),
        Proposal {
            proposer: ALICE,
            name: b"parks".to_vec(),
            vote_count: 0,
            vote_start_timestamp: Some(10),
            vote_end_timestamp: Some(20),
        }
    );
    assert_eq!(p.events().as_slice(), &[Event::ProposalCreated { proposer: ALICE, proposal_id: 1 }]);
}

#[test]
fn created_ids_count_up_from_one() {
    let mut p = ledger();
    assert_eq!(p.create_proposal(ALICE, b"one".to_vec(), 10, 20, 5), Ok(1));
    assert_eq!(p.create_proposal(BOB, b"two".to_vec(), 10, 20, 5), Ok(2));
    assert_eq!(p.cancel_proposal(CAROL, 2, 5), Ok(()));
    assert_eq!(p.create_proposal(BOB, b"three".to_vec(), 10, 20, 5), Ok(3));
    assert_eq!(p.proposal_index(), Some(3));
    assert!(p.proposals(2).is_none());
}

#[test]
fn create_rejects_long_name() {
    let mut p = ledger();
    assert_eq!(
        p.create_proposal(ALICE, b"123456789".to_vec(), 10, 20, 5),
        Err(Error::ProposalNameTooLong)
    );
    assert_eq!(p.create_proposal(ALICE, b"12345678".to_vec(), 10, 20, 5), Ok(1));
}

#[test]
fn create_rejects_short_name() {
    let mut p = ledger();
    assert_eq!(p.create_proposal(ALICE, b"12".to_vec(), 10, 20, 5), Err(Error::ProposalNameTooShort));
    assert_eq!(p.proposal_index(), None);
    assert_eq!(p.create_proposal(ALICE, b"123".to_vec(), 10, 20, 5), Ok(1));
}

#[test]
fn create_rejects_start_not_in_future() {
    let mut p = ledger();
    assert_eq!(
        p.create_proposal(ALICE, b"parks".to_vec(), 5, 20, 5),
        Err(Error::StartTimestampMustBeInTheFuture)
    );
    assert_eq!(
        p.create_proposal(ALICE, b"parks".to_vec(), 4, 20, 5),
        Err(Error::StartTimestampMustBeInTheFuture)
    );
    assert_eq!(p.create_proposal(ALICE, b"parks".to_vec(), 6, 20, 5), Ok(1));
}

#[test]
fn create_name_is_checked_before_start() {
    let mut p = ledger();
    assert_eq!(p.create_proposal(ALICE, b"12".to_vec(), 1, 20, 5), Err(Error::ProposalNameTooShort));
}

#[test]
fn create_at_full_counter_overflows() {
    let mut p = ledger();
    p.put_proposal_index(u32::MAX);
    assert_eq!(
        p.create_proposal(ALICE, b"parks".to_vec(), 10, 20, 5),
        Err(Error::ArithmeticOverflow)
    );
    assert_eq!(p.proposal_index(), Some(u32::MAX));
    assert!(p.events().is_empty());
}

#[test]
fn create_continues_from_stored_counter() {
    let mut p = ledger();
    p.put_proposal_index(41);
    assert_eq!(p.create_proposal(ALICE, b"parks".to_vec(), 10, 20, 5), Ok(42));
}

#[test]
fn create_rejects_occupied_slot() {
    let mut p = ledger();
    let squatter = Proposal {
        proposer: BOB,
        name: b"squat".to_vec(),
        vote_count: 0,
        vote_start_timestamp: Some(1),
        vote_end_timestamp: Some(2),
    };
    assert_eq!(p.insert_proposal(1, squatter.clone()), Ok(()));
    assert_eq!(
        p.create_proposal(ALICE, b"parks".to_vec(), 10, 20, 5),
        Err(Error::ProposalIdStorageMustBeEmpty)
    );
    assert_eq!(stored(&p, 1), squatter);
    assert_eq!(p.proposal_index(), None);
}

#[test]
fn insert_proposal_checks_name() {
    let mut p = ledger();
    let mut q = Proposal {
        proposer: BOB,
        name: b"xy".to_vec(),
        vote_count: 0,
        vote_start_timestamp: None,
        vote_end_timestamp: None,
    };
    assert_eq!(p.insert_proposal(7, q.clone()), Err(Error::ProposalNameTooShort));
    q.name = b"much too long".to_vec();
    assert_eq!(p.insert_proposal(7, q), Err(Error::ProposalNameTooLong));
    assert!(p.proposals(7).is_none());
}

#[test]
fn cancel_before_window_removes_proposal() {
    let mut p = ledger_with_proposal();
    assert_eq!(p.cancel_proposal(BOB, 1, 9), Ok(()));
    assert!(p.proposals(1).is_none());
    assert_eq!(p.proposal_index(), Some(1));
    assert_eq!(p.events().last(), Some(&Event::ProposalCancelled { who: BOB, proposal_id: 1 }));
}

#[test]
fn cancel_at_or_after_start_fails() {
    let mut p = ledger_with_proposal();
    assert_eq!(p.cancel_proposal(ALICE, 1, 10), Err(Error::ProposalAlreadyinVotingPeriod));
    assert_eq!(p.cancel_proposal(ALICE, 1, 15), Err(Error::ProposalAlreadyinVotingPeriod));
    assert_eq!(p.cancel_proposal(ALICE, 1, 21), Err(Error::ProposalAlreadyinVotingPeriod));
    assert!(p.proposals(1).is_some());
    assert_eq!(p.events().len(), 1);
}

#[test]
fn cancel_rejects_zero_and_missing_id() {
    let mut p = ledger_with_proposal();
    assert_eq!(p.cancel_proposal(ALICE, 0, 5), Err(Error::ZeroProposalId));
    assert_eq!(p.cancel_proposal(ALICE, 2, 5), Err(Error::NoStorageForProposalId));
}

#[test]
fn cancel_without_start_fails() {
    let mut p = ledger();
    let q = Proposal {
        proposer: BOB,
        name: b"open".to_vec(),
        vote_count: 0,
        vote_start_timestamp: None,
        vote_end_timestamp: Some(9),
    };
    assert_eq!(p.insert_proposal(4, q), Ok(()));
    assert_eq!(p.cancel_proposal(BOB, 4, 0), Err(Error::ProposalAlreadyinVotingPeriod));
}

#[test]
fn voting_scenario() {
    let mut p = ledger();
    assert_eq!(p.create_proposal(ALICE, b"parks".to_vec(), 10, 20, 5), Ok(1));
    assert_eq!(p.vote(BOB, 1, 4), Err(Error::ProposalNotinVotingPeriod));
    assert_eq!(p.vote(ALICE, 1, 12), Err(Error::ProposerCannotVote));
    assert_eq!(p.vote(BOB, 1, 12), Ok(()));
    assert_eq!(stored(&p, 1).vote_count, 1);
    assert_eq!(p.vote(BOB, 1, 12), Err(Error::CantVoteTwice));
    assert_eq!(stored(&p, 1).vote_count, 1);
}

#[test]
fn vote_writes_voter_record_and_event() {
    let mut p = ledger_with_proposal();
    assert_eq!(p.vote(BOB, 1, 10), Ok(()));
    assert_eq!(p.voters(BOB), Voter { weight: 1, voted: true, delegate: None, proposal: 1 });
    assert!(p.has_voter(BOB));
    assert_eq!(p.events().last(), Some(&Event::ProposalVoted { who: BOB, proposal_id: 1 }));
}

#[test]
fn vote_window_is_inclusive() {
    let mut p = ledger_with_proposal();
    assert_eq!(p.vote(BOB, 1, 9), Err(Error::ProposalNotinVotingPeriod));
    assert_eq!(p.vote(BOB, 1, 21), Err(Error::ProposalNotinVotingPeriod));
    assert_eq!(p.vote(BOB, 1, 10), Ok(()));
    assert_eq!(p.vote(CAROL, 1, 20), Ok(()));
    assert_eq!(stored(&p, 1).vote_count, 2);
}

#[test]
fn vote_rejects_zero_and_missing_id() {
    let mut p = ledger_with_proposal();
    assert_eq!(p.vote(BOB, 0, 12), Err(Error::ZeroProposalId));
    assert_eq!(p.vote(BOB, 9, 12), Err(Error::NoStorageForProposalId));
    assert!(!p.has_voter(BOB));
}

#[test]
fn vote_rejects_any_stored_voter_record() {
    let mut p = ledger_with_proposal();
    p.insert_voter(BOB, fresh_voter());
    assert_eq!(p.vote(BOB, 1, 12), Err(Error::CantVoteTwice));
    assert_eq!(p.vote(BOB, 9, 12), Err(Error::CantVoteTwice));
    assert_eq!(stored(&p, 1).vote_count, 0);
}

#[test]
fn vote_at_full_count_overflows() {
    let mut p = ledger();
    let full = Proposal {
        proposer: ALICE,
        name: b"full".to_vec(),
        vote_count: u32::MAX,
        vote_start_timestamp: Some(10),
        vote_end_timestamp: Some(20),
    };
    assert_eq!(p.insert_proposal(1, full), Ok(()));
    assert_eq!(p.vote(BOB, 1, 12), Err(Error::ArithmeticOverflow));
    assert_eq!(stored(&p, 1).vote_count, u32::MAX);
    assert!(!p.has_voter(BOB));
}

#[test]
fn vote_without_end_is_never_open() {
    let mut p = ledger();
    let q = Proposal {
        proposer: ALICE,
        name: b"open".to_vec(),
        vote_count: 0,
        vote_start_timestamp: None,
        vote_end_timestamp: None,
    };
    assert_eq!(p.insert_proposal(1, q), Ok(()));
    assert_eq!(p.vote(BOB, 1, 0), Err(Error::ProposalNotinVotingPeriod));
}

#[test]
fn vote_without_start_is_open_until_end() {
    let mut p = ledger();
    let q = Proposal {
        proposer: ALICE,
        name: b"open".to_vec(),
        vote_count: 0,
        vote_start_timestamp: None,
        vote_end_timestamp: Some(3),
    };
    assert_eq!(p.insert_proposal(1, q), Ok(()));
    assert_eq!(p.vote(BOB, 1, 0), Ok(()));
    assert_eq!(p.vote(CAROL, 1, 4), Err(Error::ProposalNotinVotingPeriod));
}

#[test]
fn delegation_scenario() {
    let mut p = ledger_with_proposal();
    p.insert_voter(ALICE, fresh_voter());
    assert_eq!(p.delegate_vote(ALICE, BOB, 5), Ok(()));
    assert_eq!(p.voters(BOB), Voter { weight: 2, voted: false, delegate: None, proposal: 0 });
    assert_eq!(p.voters(ALICE), fresh_voter());
    // Bob now has a stored record, and any stored record bars a direct vote.
    assert_eq!(p.vote(BOB, 1, 12), Err(Error::CantVoteTwice));
    assert_eq!(stored(&p, 1).vote_count, 0);
}

#[test]
fn delegate_rejects_self() {
    let mut p = ledger();
    p.insert_voter(ALICE, fresh_voter());
    assert_eq!(p.delegate_vote(ALICE, ALICE, 5), Err(Error::CantDelegateToSelf));
}

#[test]
fn delegate_needs_voter_record() {
    let mut p = ledger();
    assert_eq!(p.delegate_vote(ALICE, BOB, 5), Err(Error::NoStorageForVoterDuringDelegation));
    assert!(!p.has_voter(BOB));
}

#[test]
fn delegate_route_back_of_length_one() {
    let mut p = ledger();
    p.insert_voter(ALICE, fresh_voter());
    p.insert_voter(BOB, delegating_to(ALICE));
    assert_eq!(p.resolve_delegate(ALICE, BOB), DelegateWalk::ReturnsToCaller);
    assert_eq!(p.delegate_vote(ALICE, BOB, 5), Err(Error::SelfDelegateRouteDetected));
    assert_eq!(p.voters(BOB), delegating_to(ALICE));
}

#[test]
fn delegate_route_back_of_length_two() {
    let mut p = ledger();
    p.insert_voter(ALICE, fresh_voter());
    p.insert_voter(BOB, delegating_to(CAROL));
    p.insert_voter(CAROL, delegating_to(ALICE));
    assert_eq!(p.delegate_vote(ALICE, BOB, 5), Err(Error::SelfDelegateRouteDetected));
}

#[test]
fn delegate_route_back_of_length_five() {
    let mut p = ledger();
    p.insert_voter(ALICE, fresh_voter());
    p.insert_voter(10, delegating_to(11));
    p.insert_voter(11, delegating_to(12));
    p.insert_voter(12, delegating_to(13));
    p.insert_voter(13, delegating_to(14));
    p.insert_voter(14, delegating_to(ALICE));
    assert_eq!(p.delegate_vote(ALICE, 10, 5), Err(Error::SelfDelegateRouteDetected));
    assert_eq!(p.voters(14), delegating_to(ALICE));
}

#[test]
fn delegate_ignores_callers_own_delegate() {
    // The caller's own delegate pointer plays no part: only the target's chain is walked.
    let mut p = ledger();
    p.insert_voter(ALICE, delegating_to(BOB));
    assert_eq!(p.delegate_vote(ALICE, BOB, 5), Ok(()));
    assert_eq!(p.voters(BOB).weight, 2);
}

#[test]
fn delegate_cycle_among_others_is_rejected() {
    let mut p = ledger();
    p.insert_voter(ALICE, fresh_voter());
    p.insert_voter(BOB, delegating_to(CAROL));
    p.insert_voter(CAROL, delegating_to(BOB));
    assert_eq!(p.resolve_delegate(ALICE, BOB), DelegateWalk::NeverEnds);
    assert_eq!(p.delegate_vote(ALICE, BOB, 5), Err(Error::DelegateRouteNeverEnds));
    assert_eq!(p.voters(BOB), delegating_to(CAROL));
    assert_eq!(p.voters(CAROL), delegating_to(BOB));
}

#[test]
fn delegate_self_loop_of_target_is_rejected() {
    let mut p = ledger();
    p.insert_voter(ALICE, fresh_voter());
    p.insert_voter(BOB, delegating_to(BOB));
    assert_eq!(p.delegate_vote(ALICE, BOB, 5), Err(Error::DelegateRouteNeverEnds));
}

#[test]
fn delegate_longest_chain_that_ends_is_followed() {
    // Every stored record but the caller's lies on the chain.
    let mut p = ledger();
    p.insert_voter(ALICE, fresh_voter());
    p.insert_voter(10, delegating_to(11));
    p.insert_voter(11, delegating_to(12));
    p.insert_voter(12, delegating_to(13));
    assert_eq!(p.resolve_delegate(ALICE, 10), DelegateWalk::Ends(13));
    assert_eq!(p.delegate_vote(ALICE, 10, 5), Ok(()));
    assert_eq!(p.voters(13), Voter { weight: 2, voted: false, delegate: None, proposal: 0 });
    assert_eq!(p.voters(10), delegating_to(11));
}

#[test]
fn delegate_credits_end_of_chain() {
    let mut p = ledger();
    p.insert_voter(ALICE, fresh_voter());
    p.insert_voter(BOB, delegating_to(CAROL));
    p.insert_voter(CAROL, Voter { weight: 4, voted: false, delegate: None, proposal: 0 });
    assert_eq!(p.delegate_vote(ALICE, BOB, 5), Ok(()));
    assert_eq!(p.voters(CAROL).weight, 5);
    assert_eq!(p.voters(BOB), delegating_to(CAROL));
}

#[test]
fn delegate_after_voting_fails() {
    let mut p = ledger_with_proposal();
    assert_eq!(p.vote(BOB, 1, 12), Ok(()));
    assert_eq!(p.delegate_vote(BOB, CAROL, 12), Err(Error::AlreadyVoted));
    assert!(!p.has_voter(CAROL));
}

#[test]
fn delegate_route_is_checked_before_voted_flag() {
    let mut p = ledger_with_proposal();
    assert_eq!(p.vote(BOB, 1, 12), Ok(()));
    p.insert_voter(CAROL, delegating_to(BOB));
    assert_eq!(p.delegate_vote(BOB, CAROL, 12), Err(Error::SelfDelegateRouteDetected));
}

#[test]
fn delegate_to_voted_account_credits_its_proposal() {
    let mut p = ledger_with_proposal();
    p.insert_voter(ALICE, fresh_voter());
    p.insert_voter(BOB, Voter { weight: 3, voted: true, delegate: None, proposal: 1 });
    assert_eq!(p.delegate_vote(ALICE, BOB, 12), Ok(()));
    assert_eq!(stored(&p, 1).vote_count, 3);
    assert_eq!(p.voters(BOB).weight, 3);
    assert_eq!(p.delegate_vote(ALICE, BOB, 20), Ok(()));
    assert_eq!(stored(&p, 1).vote_count, 6);
    assert_eq!(p.events().len(), 1);
}

#[test]
fn delegate_to_voted_account_outside_window_fails() {
    let mut p = ledger_with_proposal();
    p.insert_voter(ALICE, fresh_voter());
    p.insert_voter(BOB, Voter { weight: 3, voted: true, delegate: None, proposal: 1 });
    assert_eq!(p.delegate_vote(ALICE, BOB, 21), Err(Error::ProposalNotinVotingPeriod));
    assert_eq!(p.delegate_vote(ALICE, BOB, 9), Err(Error::ProposalNotinVotingPeriod));
    assert_eq!(stored(&p, 1).vote_count, 0);
}

#[test]
fn delegate_to_voted_account_of_missing_proposal_changes_nothing() {
    let mut p = ledger_with_proposal();
    p.insert_voter(ALICE, fresh_voter());
    p.insert_voter(BOB, Voter { weight: 3, voted: true, delegate: None, proposal: 8 });
    assert_eq!(p.delegate_vote(ALICE, BOB, 12), Ok(()));
    assert_eq!(stored(&p, 1).vote_count, 0);
    assert_eq!(p.voters(BOB).weight, 3);
}

#[test]
fn delegate_credit_overflow_fails() {
    let mut p = ledger();
    let nearly_full = Proposal {
        proposer: CAROL,
        name: b"full".to_vec(),
        vote_count: u32::MAX - 2,
        vote_start_timestamp: Some(10),
        vote_end_timestamp: Some(20),
    };
    assert_eq!(p.insert_proposal(1, nearly_full), Ok(()));
    p.insert_voter(ALICE, fresh_voter());
    p.insert_voter(BOB, Voter { weight: 3, voted: true, delegate: None, proposal: 1 });
    assert_eq!(p.delegate_vote(ALICE, BOB, 12), Err(Error::ArithmeticOverflow));
    assert_eq!(stored(&p, 1).vote_count, u32::MAX - 2);
    p.insert_voter(BOB, Voter { weight: 2, voted: true, delegate: None, proposal: 1 });
    assert_eq!(p.delegate_vote(ALICE, BOB, 12), Ok(()));
    assert_eq!(stored(&p, 1).vote_count, u32::MAX);
}

#[test]
fn delegate_weight_overflow_fails() {
    let mut p = ledger();
    p.insert_voter(ALICE, fresh_voter());
    p.insert_voter(BOB, Voter { weight: u32::MAX, voted: false, delegate: None, proposal: 0 });
    assert_eq!(p.delegate_vote(ALICE, BOB, 12), Err(Error::ArithmeticOverflow));
    assert_eq!(p.voters(BOB).weight, u32::MAX);
}

#[test]
fn delegate_twice_compounds_weight() {
    let mut p = ledger();
    p.insert_voter(ALICE, fresh_voter());
    assert_eq!(p.delegate_vote(ALICE, BOB, 1), Ok(()));
    assert_eq!(p.delegate_vote(ALICE, BOB, 1), Ok(()));
    assert_eq!(p.delegate_vote(ALICE, CAROL, 1), Ok(()));
    assert_eq!(p.voters(BOB).weight, 3);
    assert_eq!(p.voters(CAROL).weight, 2);
}

#[test]
fn vote_count_never_drops_over_a_run() {
    let mut p = ledger_with_proposal();
    let mut seen = 0;
    p.insert_voter(20, fresh_voter());
    for who in 2..8u64 {
        let _ = p.vote(who, 1, 9 + who);
        let _ = p.delegate_vote(20, who, 9 + who);
        let _ = p.cancel_proposal(who, 1, 9 + who);
        let count = stored(&p, 1).vote_count;
        assert!(count >= seen);
        seen = count;
    }
    assert_eq!(seen, 12);
}

#[test]
fn check_name_bounds_are_inclusive() {
    let c = Config { min_proposal_length: 2, max_proposal_length: 3 };
    assert_eq!(voting::pallet::check_name(&c, &vec![1]), Some(Error::ProposalNameTooShort));
    assert_eq!(voting::pallet::check_name(&c, &vec![1, 2]), None);
    assert_eq!(voting::pallet::check_name(&c, &vec![1, 2, 3]), None);
    assert_eq!(voting::pallet::check_name(&c, &vec![1, 2, 3, 4]), Some(Error::ProposalNameTooLong));
}

#[test]
fn window_tests_on_a_proposal() {
    let q = Proposal {
        proposer: ALICE,
        name: b"parks".to_vec(),
        vote_count: 0,
        vote_start_timestamp: Some(10),
        vote_end_timestamp: Some(20),
    };
    assert!(voting::pallet::is_before_window(&q, 9));
    assert!(!voting::pallet::is_before_window(&q, 10));
    assert!(!voting::pallet::is_in_window(&q, 9));
    assert!(voting::pallet::is_in_window(&q, 10));
    assert!(voting::pallet::is_in_window(&q, 20));
    assert!(!voting::pallet::is_in_window(&q, 21));
}

#[test]
fn credit_delegate_adds_weight_to_named_account() {
    let mut p = ledger();
    assert_eq!(p.credit_delegate(ALICE, BOB, 0), Ok(()));
    assert_eq!(p.voters(BOB).weight, 2);
    assert!(!p.has_voter(ALICE));
}

#[test]
fn weights_add_database_costs() {
    let w = voting::SubstrateWeight { read: 25_000_000, write: 100_000_000 };
    assert_eq!(w.say_hello(), voting::Weight { ref_time: 109_000_000, proof_size: 0 });
    assert_eq!(w.say_any(), voting::Weight { ref_time: 131_000_000, proof_size: 1489 });
}

#[test]
fn weights_saturate() {
    let w = voting::SubstrateWeight { read: 7, write: u64::MAX };
    assert_eq!(w.say_hello(), voting::Weight { ref_time: u64::MAX, proof_size: 0 });
    assert_eq!(w.say_any(), voting::Weight { ref_time: u64::MAX, proof_size: 1489 });
    let a = voting::Weight::from_parts(u64::MAX - 1, 5);
    let b = voting::Weight::from_parts(1, u64::MAX);
    assert_eq!(a.saturating_add(b), voting::Weight { ref_time: u64::MAX, proof_size: u64::MAX });
}

#[test]
fn weights_of_many_reads_and_writes() {
    let w = voting::SubstrateWeight { read: 25, write: 100 };
    assert_eq!(w.reads(3), voting::Weight { ref_time: 75, proof_size: 0 });
    assert_eq!(w.writes(0), voting::Weight { ref_time: 0, proof_size: 0 });
    assert_eq!(w.writes(u64::MAX), voting::Weight { ref_time: u64::MAX, proof_size: 0 });
}
