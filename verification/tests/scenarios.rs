use validatorset::directory::ValidatorEntry;
use validatorset::registry::{AuthorityRegistry, Rotation};
use validatorset::tracker::ProposalRecord;
use validatorset::types::{AccountId, Direction, Error, Event, SessionKey};
use validatorset::validator_set::ValidatorSet;

const A: AccountId = AccountId([1; 32]);
const B: AccountId = AccountId([2; 32]);
const C: AccountId = AccountId([3; 32]);
const D: AccountId = AccountId([4; 32]);

fn key(of: AccountId) -> SessionKey {
    SessionKey([of.0[0] + 100; 32])
}

fn by_account(mut list: Vec<ValidatorEntry>) -> Vec<ValidatorEntry> {
    list.sort_by_key(|entry| entry.account_id.0);
    list
}

fn by_candidate(mut list: Vec<ProposalRecord>) -> Vec<ProposalRecord> {
    list.sort_by_key(|record| (record.candidate.0, record.key.0));
    list
}

fn start(members: &[AccountId]) -> (ValidatorSet, AuthorityRegistry) {
    let genesis: Vec<(AccountId, SessionKey)> = members.iter().map(|m| (*m, key(*m))).collect();
    let set = ValidatorSet::new(&genesis);
    let registry = AuthorityRegistry::new(members.to_vec()).unwrap();
    (set, registry)
}

#[test]
fn add_resolves_once_every_validator_has_proposed() {
    let (mut set, mut registry) = start(&[A, B]);
    assert_eq!(registry.validator_count(), 2);

    assert_eq!(set.propose_validator(A, C, key(C)), Ok(()));
    assert_eq!(set.add_votes(C, key(C)), vec![A]);
    assert_eq!(
        set.resolve_add_validator(&mut registry, A, C, key(C)),
        Err(Error::InsufficientVotes)
    );
    assert!(!set.is_validator(C));
    assert_eq!(registry.validators(), vec![A, B]);

    assert_eq!(set.propose_validator(B, C, key(C)), Ok(()));
    assert_eq!(set.add_votes(C, key(C)), vec![A, B]);
    assert_eq!(set.resolve_add_validator(&mut registry, A, C, key(C)), Ok(()));

    assert!(set.is_validator(A));
    assert!(set.is_validator(B));
    assert!(set.is_validator(C));
    assert_eq!(set.validator_count(), 3);
    assert_eq!(set.validators(C), Some(key(C)));
    assert_eq!(registry.validators(), vec![A, B, C]);
    assert_eq!(registry.validator_count(), 3);
    assert_eq!(
        set.events(),
        vec![
            Event::ValidatorProposed(A, C, key(C)),
            Event::ValidatorProposed(B, C, key(C)),
            Event::ValidatorAdded(C, key(C)),
        ]
    );
}

#[test]
fn removal_resolves_once_every_other_validator_has_proposed() {
    let (mut set, mut registry) = start(&[A, B, C]);

    assert_eq!(set.propose_validator_removal(A, B, key(B)), Ok(()));
    assert_eq!(set.removal_votes(B, key(B)), vec![A]);
    assert_eq!(
        set.resolve_remove_validator(&mut registry, A, B, key(B)),
        Err(Error::InsufficientVotes)
    );
    assert!(set.is_validator(B));

    assert_eq!(set.propose_validator_removal(C, B, key(B)), Ok(()));
    assert_eq!(set.removal_votes(B, key(B)), vec![A, C]);
    assert_eq!(set.resolve_remove_validator(&mut registry, A, B, key(B)), Ok(()));

    assert!(set.is_validator(A));
    assert!(!set.is_validator(B));
    assert!(set.is_validator(C));
    assert_eq!(set.validator_count(), 2);
    assert_eq!(registry.validators(), vec![A, C]);
    assert!(!set.add_proposals(B, key(B)));
    assert!(!set.removal_proposals(B, key(B)));
    assert_eq!(set.add_votes(B, key(B)), Vec::<AccountId>::new());
    assert_eq!(set.removal_votes(B, key(B)), Vec::<AccountId>::new());
    assert_eq!(set.events().last(), Some(&Event::ValidatorRemoved(B, key(B))));
}

#[test]
fn second_vote_is_a_duplicate_in_either_direction() {
    let (mut set, _registry) = start(&[A, B, C]);

    assert_eq!(set.propose_validator(A, D, key(D)), Ok(()));
    assert_eq!(set.propose_validator(A, D, key(D)), Err(Error::DuplicateVote));
    assert_eq!(set.add_votes(D, key(D)), vec![A]);

    assert_eq!(set.propose_validator_removal(A, B, key(B)), Ok(()));
    assert_eq!(set.propose_validator_removal(A, B, key(B)), Err(Error::DuplicateVote));
    assert_eq!(set.removal_votes(B, key(B)), vec![A]);

    assert_eq!(set.propose(Direction::Add, B, D, key(D)), Ok(()));
    assert_eq!(set.propose(Direction::Add, B, D, key(D)), Err(Error::DuplicateVote));
    assert_eq!(set.add_votes(D, key(D)), vec![A, B]);
    assert_eq!(set.events().len(), 3);
}

#[test]
fn a_vote_counts_for_one_key_and_one_direction_only() {
    let (mut set, _registry) = start(&[A, B]);
    let other_key = SessionKey([77; 32]);

    assert_eq!(set.propose_validator(A, C, key(C)), Ok(()));
    assert_eq!(set.propose_validator(A, C, other_key), Ok(()));
    assert_eq!(set.add_votes(C, key(C)), vec![A]);
    assert_eq!(set.add_votes(C, other_key), vec![A]);

    assert_eq!(set.propose_validator_removal(A, B, key(B)), Ok(()));
    assert!(set.removal_proposals(B, key(B)));
    assert!(!set.add_proposals(B, key(B)));
    assert!(!set.removal_proposals(C, key(C)));
}

#[test]
fn only_validators_propose() {
    let (mut set, _registry) = start(&[A, B]);

    assert_eq!(set.propose_validator(C, D, key(D)), Err(Error::AccessDenied));
    assert_eq!(set.propose_validator_removal(C, A, key(A)), Err(Error::AccessDenied));
    assert_eq!(set.propose_validator(D, D, key(D)), Err(Error::AccessDenied));
    assert!(!set.add_proposals(D, key(D)));
    assert!(!set.removal_proposals(A, key(A)));
    assert!(set.events().is_empty());
}

#[test]
fn access_is_checked_before_membership() {
    let (mut set, _registry) = start(&[A, B]);

    assert_eq!(set.propose_validator(C, A, key(A)), Err(Error::AccessDenied));
    assert_eq!(set.propose_validator_removal(C, D, key(D)), Err(Error::AccessDenied));
}

#[test]
fn proposals_respect_membership() {
    let (mut set, _registry) = start(&[A, B]);

    assert_eq!(set.propose_validator(A, B, key(B)), Err(Error::AlreadyValidator));
    assert_eq!(set.propose_validator_removal(A, C, key(C)), Err(Error::NotAValidator));
    assert!(set.events().is_empty());
}

#[test]
fn resolving_needs_an_open_proposal() {
    let (mut set, mut registry) = start(&[A, B]);

    assert_eq!(
        set.resolve_add_validator(&mut registry, A, C, key(C)),
        Err(Error::ProposalNotFound)
    );
    assert_eq!(
        set.resolve_remove_validator(&mut registry, A, B, key(B)),
        Err(Error::ProposalNotFound)
    );

    assert_eq!(set.propose_validator(A, C, key(C)), Ok(()));
    assert_eq!(
        set.resolve_add_validator(&mut registry, A, C, SessionKey([1; 32])),
        Err(Error::ProposalNotFound)
    );
    assert_eq!(
        set.resolve_remove_validator(&mut registry, A, C, key(C)),
        Err(Error::NotAValidator)
    );
}

#[test]
fn resolving_checks_membership_first() {
    let (mut set, mut registry) = start(&[A, B]);

    assert_eq!(
        set.resolve_add_validator(&mut registry, A, B, key(B)),
        Err(Error::AlreadyValidator)
    );
    assert_eq!(
        set.resolve_remove_validator(&mut registry, A, C, key(C)),
        Err(Error::NotAValidator)
    );
}

#[test]
fn anyone_may_resolve() {
    let (mut set, mut registry) = start(&[A]);

    assert_eq!(set.propose_validator(A, B, key(B)), Ok(()));
    assert_eq!(set.resolve_add_validator(&mut registry, D, B, key(B)), Ok(()));
    assert!(set.is_validator(B));
}

#[test]
fn threshold_is_read_when_resolving() {
    let (mut set, mut registry) = start(&[A, B]);

    assert_eq!(set.propose_validator(A, C, key(C)), Ok(()));
    assert_eq!(set.propose_validator(B, C, key(C)), Ok(()));

    // A third validator joins before the proposal is resolved.
    assert_eq!(set.add_validator(&mut registry, D, key(D)), Ok(()));
    assert_eq!(registry.validator_count(), 3);
    assert_eq!(
        set.resolve_add_validator(&mut registry, A, C, key(C)),
        Err(Error::InsufficientVotes)
    );

    assert_eq!(set.propose_validator(D, C, key(C)), Ok(()));
    assert_eq!(set.resolve_add_validator(&mut registry, A, C, key(C)), Ok(()));
    assert_eq!(registry.validators(), vec![A, B, D, C]);
}

#[test]
fn more_votes_than_validators_do_not_resolve() {
    let (mut set, mut registry) = start(&[A, B, C]);

    assert_eq!(set.propose_validator(A, D, key(D)), Ok(()));
    assert_eq!(set.propose_validator(B, D, key(D)), Ok(()));
    assert_eq!(set.propose_validator(C, D, key(D)), Ok(()));
    assert_eq!(set.remove_validator(&mut registry, C, key(C)), Ok(()));
    assert_eq!(registry.validator_count(), 2);
    assert_eq!(
        set.resolve_add_validator(&mut registry, A, D, key(D)),
        Err(Error::InsufficientVotes)
    );
    assert!(!set.is_validator(D));
}

#[test]
fn removal_threshold_is_one_less_than_the_count() {
    let (mut set, mut registry) = start(&[A, B, C]);

    assert_eq!(set.propose_validator_removal(A, C, key(C)), Ok(()));
    assert_eq!(set.propose_validator_removal(B, C, key(C)), Ok(()));
    assert_eq!(set.propose_validator_removal(C, C, key(C)), Ok(()));
    // Three votes where two are asked for.
    assert_eq!(
        set.resolve_remove_validator(&mut registry, A, C, key(C)),
        Err(Error::InsufficientVotes)
    );
    assert!(set.is_validator(C));
}

#[test]
fn a_lone_validator_is_not_voted_out() {
    let (mut set, mut registry) = start(&[A]);

    assert_eq!(set.propose_validator_removal(A, A, key(A)), Ok(()));
    assert_eq!(
        set.resolve_remove_validator(&mut registry, A, A, key(A)),
        Err(Error::InsufficientVotes)
    );
    assert!(set.is_validator(A));
}

#[test]
fn removal_with_an_empty_roster_is_refused() {
    let genesis = vec![(A, key(A)), (B, key(B))];
    let mut set = ValidatorSet::new(&genesis);
    let mut registry = AuthorityRegistry::new(Vec::new()).unwrap();

    assert_eq!(set.propose_validator_removal(A, B, key(B)), Ok(()));
    assert_eq!(
        set.resolve_remove_validator(&mut registry, A, B, key(B)),
        Err(Error::InsufficientVotes)
    );
    assert!(set.is_validator(B));
    assert_eq!(registry.validators(), Vec::<AccountId>::new());
}

#[test]
fn removed_pair_starts_afresh() {
    let (mut set, mut registry) = start(&[A, B]);

    assert_eq!(set.propose_validator(A, C, key(C)), Ok(()));
    assert_eq!(set.propose_validator(B, C, key(C)), Ok(()));
    assert_eq!(set.resolve_add_validator(&mut registry, A, C, key(C)), Ok(()));
    assert!(!set.add_proposals(C, key(C)));

    assert_eq!(set.propose_validator_removal(A, C, key(C)), Ok(()));
    assert_eq!(set.propose_validator_removal(B, C, key(C)), Ok(()));
    assert_eq!(set.resolve_remove_validator(&mut registry, B, C, key(C)), Ok(()));

    assert!(!set.is_validator(C));
    assert!(!set.add_proposals(C, key(C)));
    assert!(!set.removal_proposals(C, key(C)));
    assert_eq!(set.add_votes(C, key(C)), Vec::<AccountId>::new());
    assert_eq!(set.removal_votes(C, key(C)), Vec::<AccountId>::new());

    // The same voters may propose the same pair again.
    assert_eq!(set.propose_validator(A, C, key(C)), Ok(()));
    assert_eq!(set.add_votes(C, key(C)), vec![A]);
    assert_eq!(set.propose_validator(B, C, key(C)), Ok(()));
    assert_eq!(set.resolve_add_validator(&mut registry, A, C, key(C)), Ok(()));
    assert_eq!(registry.validators(), vec![A, B, C]);
}

#[test]
fn removal_clears_the_pending_addition_of_the_pair() {
    let (mut set, mut registry) = start(&[A, B, C]);
    let new_key = SessionKey([9; 32]);

    // While C is a validator nobody can propose to add it, so the stale
    // proposal is made before C joins.
    assert_eq!(set.remove_validator(&mut registry, C, key(C)), Ok(()));
    assert_eq!(set.propose_validator(A, C, key(C)), Ok(()));
    assert_eq!(set.propose_validator(A, C, new_key), Ok(()));
    assert_eq!(set.add_validator(&mut registry, C, new_key), Ok(()));
    assert!(set.add_proposals(C, key(C)));
    assert!(!set.add_proposals(C, new_key));

    assert_eq!(set.remove_validator(&mut registry, C, key(C)), Ok(()));
    assert!(!set.add_proposals(C, key(C)));
    assert!(!set.removal_proposals(C, key(C)));
}

#[test]
fn removal_spares_other_pairs() {
    let (mut set, mut registry) = start(&[A, B, C]);

    assert_eq!(set.propose_validator(A, D, key(D)), Ok(()));
    assert_eq!(set.propose_validator_removal(B, A, key(A)), Ok(()));
    assert_eq!(set.remove_validator(&mut registry, C, key(C)), Ok(()));

    assert_eq!(set.add_votes(D, key(D)), vec![A]);
    assert_eq!(set.removal_votes(A, key(A)), vec![B]);
}

#[test]
fn privileged_add_ignores_votes() {
    let (mut set, mut registry) = start(&[A, B]);

    assert_eq!(set.add_validator(&mut registry, C, key(C)), Ok(()));
    assert!(set.is_validator(C));
    assert_eq!(registry.validators(), vec![A, B, C]);
    assert_eq!(set.events(), vec![Event::ValidatorAdded(C, key(C))]);

    assert_eq!(set.propose_validator(A, D, key(D)), Ok(()));
    assert_eq!(set.add_validator(&mut registry, D, key(D)), Ok(()));
    assert!(set.is_validator(D));
    assert!(!set.add_proposals(D, key(D)));

    assert_eq!(set.add_validator(&mut registry, D, key(D)), Err(Error::AlreadyValidator));
    assert_eq!(registry.validators(), vec![A, B, C, D]);
}

#[test]
fn privileged_remove_ignores_votes() {
    let (mut set, mut registry) = start(&[A, B, C]);

    assert_eq!(set.remove_validator(&mut registry, B, key(B)), Ok(()));
    assert!(!set.is_validator(B));
    assert_eq!(registry.validators(), vec![A, C]);
    assert_eq!(set.events(), vec![Event::ValidatorRemoved(B, key(B))]);

    assert_eq!(set.remove_validator(&mut registry, B, key(B)), Err(Error::NotAValidator));
    assert_eq!(registry.validators(), vec![A, C]);
    assert_eq!(set.events().len(), 1);
}

#[test]
fn privileged_remove_reports_the_key_it_was_given() {
    let (mut set, mut registry) = start(&[A, B]);
    let other_key = SessionKey([5; 32]);

    assert_eq!(set.remove_validator(&mut registry, B, other_key), Ok(()));
    assert_eq!(set.events(), vec![Event::ValidatorRemoved(B, other_key)]);
    assert_eq!(set.validators(B), None);
}

#[test]
fn a_refusal_changes_nothing() {
    let (mut set, mut registry) = start(&[A, B]);
    assert_eq!(set.propose_validator(A, C, key(C)), Ok(()));
    let events = set.events();
    let listed = by_account(set.validator_list());

    assert_eq!(
        set.resolve_add_validator(&mut registry, A, C, key(C)),
        Err(Error::InsufficientVotes)
    );
    assert_eq!(set.propose_validator(A, C, key(C)), Err(Error::DuplicateVote));
    assert_eq!(set.propose_validator(C, D, key(D)), Err(Error::AccessDenied));
    assert_eq!(set.add_validator(&mut registry, A, key(A)), Err(Error::AlreadyValidator));
    assert_eq!(set.remove_validator(&mut registry, D, key(D)), Err(Error::NotAValidator));

    assert_eq!(set.events(), events);
    assert_eq!(by_account(set.validator_list()), listed);
    assert_eq!(set.add_votes(C, key(C)), vec![A]);
    assert!(set.add_proposals(C, key(C)));
    assert_eq!(registry.validators(), vec![A, B]);
    assert_eq!(registry.pending_rotations(), Vec::<Rotation>::new());
}

#[test]
fn every_change_of_the_roster_asks_for_a_rotation() {
    let (mut set, mut registry) = start(&[A, B]);
    let at_once = Rotation { force_immediate: true, second_flag: false };

    assert_eq!(set.propose_validator(A, C, key(C)), Ok(()));
    assert_eq!(registry.pending_rotations(), Vec::<Rotation>::new());

    assert_eq!(set.add_validator(&mut registry, C, key(C)), Ok(()));
    assert_eq!(registry.pending_rotations(), vec![at_once]);
    assert_eq!(set.remove_validator(&mut registry, A, key(A)), Ok(()));
    assert_eq!(registry.pending_rotations(), vec![at_once, at_once]);

    assert_eq!(registry.take_rotations(), vec![at_once, at_once]);
    assert_eq!(registry.pending_rotations(), Vec::<Rotation>::new());
    assert_eq!(registry.validators(), vec![C, B]);
}

#[test]
fn events_are_handed_out_once() {
    let (mut set, mut registry) = start(&[A]);

    assert_eq!(set.propose_validator(A, B, key(B)), Ok(()));
    assert_eq!(set.propose_validator_removal(A, A, key(A)), Ok(()));
    assert_eq!(
        set.take_events(),
        vec![
            Event::ValidatorProposed(A, B, key(B)),
            Event::ValidatorRemovalProposed(A, A, key(A)),
        ]
    );
    assert!(set.events().is_empty());
    assert_eq!(set.add_votes(B, key(B)), vec![A]);

    assert_eq!(set.resolve(&mut registry, Direction::Add, A, B, key(B)), Ok(()));
    assert_eq!(set.take_events(), vec![Event::ValidatorAdded(B, key(B))]);
}

#[test]
fn genesis_keeps_the_later_entry_of_an_account() {
    let genesis =
        vec![(A, SessionKey([1; 32])), (B, SessionKey([2; 32])), (A, SessionKey([3; 32]))];
    let set = ValidatorSet::new(&genesis);

    assert_eq!(set.validator_count(), 2);
    assert_eq!(set.validators(A), Some(SessionKey([3; 32])));
    assert_eq!(set.validators(B), Some(SessionKey([2; 32])));
    assert_eq!(set.validators(C), None);
    assert!(set.events().is_empty());
}

#[test]
fn validators_are_listed_once_each() {
    let (mut set, mut registry) = start(&[A, B]);

    assert_eq!(set.add_validator(&mut registry, D, key(D)), Ok(()));
    assert_eq!(set.add_validator(&mut registry, C, key(C)), Ok(()));
    assert_eq!(set.remove_validator(&mut registry, B, key(B)), Ok(()));
    assert_eq!(
        by_account(set.validator_list()),
        vec![
            ValidatorEntry { account_id: A, session_key: key(A) },
            ValidatorEntry { account_id: C, session_key: key(C) },
            ValidatorEntry { account_id: D, session_key: key(D) },
        ]
    );
}

#[test]
fn messages_name_the_refusal() {
    assert_eq!(Error::AccessDenied.message(Direction::Add), "Access Denied!");
    assert_eq!(Error::AlreadyValidator.message(Direction::Add), "Already a validator.");
    assert_eq!(Error::NotAValidator.message(Direction::Remove), "Not a validator.");
    assert_eq!(
        Error::ProposalNotFound.message(Direction::Add),
        "Proposal to add this validator does not exist."
    );
    assert_eq!(
        Error::ProposalNotFound.message(Direction::Remove),
        "Proposal to remove this validator does not exist."
    );
    assert_eq!(
        Error::DuplicateVote.message(Direction::Add),
        "You have already proposed this validator."
    );
    assert_eq!(
        Error::DuplicateVote.message(Direction::Remove),
        "You have already proposed removal of this validator."
    );
    assert_eq!(Error::InsufficientVotes.message(Direction::Remove), "Not enough votes.");
    assert_eq!(Error::CountOverflow.message(Direction::Add), "Too many validators.");
}

#[test]
fn state_is_stored_and_restored() {
    let (mut set, mut registry) = start(&[A, B]);
    assert_eq!(set.propose_validator(A, C, key(C)), Ok(()));
    assert_eq!(set.propose_validator_removal(B, A, key(A)), Ok(()));
    assert_eq!(set.propose_validator(B, D, key(D)), Ok(()));

    let validators = set.validator_list();
    let add = by_candidate(set.proposal_records(Direction::Add));
    let removal = by_candidate(set.proposal_records(Direction::Remove));
    assert_eq!(
        add,
        vec![
            ProposalRecord { candidate: C, key: key(C), votes: vec![A] },
            ProposalRecord { candidate: D, key: key(D), votes: vec![B] },
        ]
    );
    assert_eq!(removal, vec![ProposalRecord { candidate: A, key: key(A), votes: vec![B] }]);

    let mut restored = ValidatorSet::from_parts(validators, add, removal).unwrap();
    assert!(restored.events().is_empty());
    assert_eq!(by_account(restored.validator_list()), by_account(set.validator_list()));
    assert_eq!(restored.add_votes(C, key(C)), vec![A]);
    assert_eq!(restored.removal_votes(A, key(A)), vec![B]);
    assert_eq!(restored.propose_validator(A, C, key(C)), Err(Error::DuplicateVote));
    assert_eq!(restored.propose_validator(B, C, key(C)), Ok(()));
    assert_eq!(restored.resolve_add_validator(&mut registry, B, C, key(C)), Ok(()));
    assert_eq!(registry.validators(), vec![A, B, C]);
}

#[test]
fn parts_that_cannot_be_kept_are_refused() {
    let entry = |account_id: AccountId| ValidatorEntry { account_id, session_key: key(account_id) };
    let record = |candidate: AccountId, votes: Vec<AccountId>| ProposalRecord {
        candidate,
        key: key(candidate),
        votes,
    };

    assert!(ValidatorSet::from_parts(vec![entry(A), entry(A)], vec![], vec![]).is_none());
    assert!(
        ValidatorSet::from_parts(vec![entry(A)], vec![record(C, vec![A, A])], vec![]).is_none()
    );
    assert!(ValidatorSet::from_parts(vec![entry(A)], vec![], vec![record(A, vec![])]).is_none());
    assert!(ValidatorSet::from_parts(
        vec![entry(A)],
        vec![record(C, vec![A])],
        vec![record(A, vec![B]), record(A, vec![C])]
    )
    .is_none());
    assert!(ValidatorSet::from_parts(
        vec![entry(A), entry(B)],
        vec![record(C, vec![A])],
        vec![record(A, vec![B])]
    )
    .is_some());
    assert!(ValidatorSet::from_parts(vec![], vec![], vec![]).is_some());
}
