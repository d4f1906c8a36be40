//! What holds of the operations taken together.
//!
//! Each law is stated over the functions that the operations' contracts
//! use: the outcome of an operation on a state, and the state after it.

use crate::registry::occurrences;
use crate::tracker::{votes_of, votes_valid, with_vote};
use crate::types::{AccountId, Candidate, Direction, Error, SessionKey};
use crate::validator_set::{
    applied, membership_result, privileged_result, propose_result, proposed, resolve_result,
    roster_applied, State,
};
use vstd::prelude::*;

verus! {

/// Nobody votes twice: after an accepted proposal, the same proposal by the
/// same caller is refused with `DuplicateVote`.
pub proof fn law_second_vote_refused(
    state: State,
    direction: Direction,
    who: AccountId,
    candidate: AccountId,
    key: SessionKey,
)
    requires
        propose_result(state, direction, who, candidate, key) is Ok,
    ensures
        propose_result(
            proposed(state, direction, who, candidate, key),
            direction,
            who,
            candidate,
            key,
        ) == Err::<(), Error>(Error::DuplicateVote),
{
    let after = proposed(state, direction, who, candidate, key);
    let votes = votes_of(state.proposals(direction), (candidate, key)).push(who);
    assert(after.proposals(direction)[(candidate, key)] == votes);
    assert(votes[votes.len() - 1] == who);
}

/// A vote stays on record: as long as a proposal is open with the caller
/// among its voters, the caller's proposal is never accepted again.
pub proof fn law_voter_cannot_repeat(
    state: State,
    direction: Direction,
    who: AccountId,
    candidate: AccountId,
    key: SessionKey,
)
    requires
        votes_of(state.proposals(direction), (candidate, key)).contains(who),
    ensures
        propose_result(state, direction, who, candidate, key) is Err,
{
}

/// An accepted proposal keeps the state valid: the vote sets still name
/// nobody twice.
pub proof fn law_proposal_keeps_votes_distinct(
    state: State,
    direction: Direction,
    who: AccountId,
    candidate: AccountId,
    key: SessionKey,
)
    requires
        state.valid(),
        propose_result(state, direction, who, candidate, key) is Ok,
    ensures
        proposed(state, direction, who, candidate, key).valid(),
{
    let before = state.proposals(direction);
    let pair = (candidate, key);
    let votes = votes_of(before, pair);
    let after = with_vote(before, pair, who);
    assert(votes.no_duplicates()) by {
        if before.contains_key(pair) {
        }
    }
    assert(votes.push(who).no_duplicates()) by {
        assert forall|i: int, j: int|
            0 <= i < votes.len() + 1 && 0 <= j < votes.len() + 1 && i != j implies votes.push(
            who,
        )[i] != votes.push(who)[j] by {
            if i < votes.len() && j < votes.len() {
            } else if i < votes.len() {
                assert(votes[i] != who);
            } else {
                assert(votes[j] != who);
            }
        }
    }
    assert(votes_valid(after)) by {
        assert forall|other: Candidate| #[trigger]
            after.contains_key(other) implies after[other].len() > 0
            && after[other].no_duplicates() by {
            if other != pair {
                assert(before.contains_key(other));
            }
        }
    }
}

/// A proposal is refused with `AccessDenied` exactly if the caller is not a
/// current validator.
pub proof fn law_only_validators_propose(
    state: State,
    direction: Direction,
    who: AccountId,
    candidate: AccountId,
    key: SessionKey,
)
    ensures
        propose_result(state, direction, who, candidate, key) == Err::<(), Error>(
            Error::AccessDenied,
        ) <==> !state.validators.contains_key(who),
{
}

/// An open proposal to add an account that is no validator resolves exactly
/// if its votes are as many as the registry counts validators; otherwise it
/// is refused with `InsufficientVotes`. The count must leave room for one
/// more validator.
pub proof fn law_add_resolves_on_full_vote(
    state: State,
    count: nat,
    candidate: AccountId,
    key: SessionKey,
)
    requires
        !state.validators.contains_key(candidate),
        state.add.contains_key((candidate, key)),
        count < u32::MAX,
    ensures
        resolve_result(state, Direction::Add, count, candidate, key) is Ok <==> state.add[(
            candidate,
            key,
        )].len() == count,
        resolve_result(state, Direction::Add, count, candidate, key) is Err ==> resolve_result(
            state,
            Direction::Add,
            count,
            candidate,
            key,
        ) == Err::<(), Error>(Error::InsufficientVotes),
{
}

/// An open proposal to remove a validator resolves exactly if its votes are
/// one fewer than the registry counts validators; otherwise it is refused
/// with `InsufficientVotes`.
pub proof fn law_removal_resolves_on_all_others(
    state: State,
    count: nat,
    candidate: AccountId,
    key: SessionKey,
)
    requires
        state.validators.contains_key(candidate),
        state.removal.contains_key((candidate, key)),
    ensures
        resolve_result(state, Direction::Remove, count, candidate, key) is Ok
            <==> state.removal[(candidate, key)].len() == count - 1,
        resolve_result(state, Direction::Remove, count, candidate, key) is Err ==> resolve_result(
            state,
            Direction::Remove,
            count,
            candidate,
            key,
        ) == Err::<(), Error>(Error::InsufficientVotes),
{
}

/// After a removal no proposal for the pair is open in either direction and
/// no vote for it is on record, so any validator can propose the pair again
/// and is then its only voter.
pub proof fn law_removal_clears_pair(
    state: State,
    candidate: AccountId,
    key: SessionKey,
    who: AccountId,
)
    ensures
        !applied(state, Direction::Remove, candidate, key).validators.contains_key(candidate),
        !applied(state, Direction::Remove, candidate, key).add.contains_key((candidate, key)),
        !applied(state, Direction::Remove, candidate, key).removal.contains_key((candidate, key)),
        votes_of(applied(state, Direction::Remove, candidate, key).add, (candidate, key))
            == Seq::<AccountId>::empty(),
        votes_of(applied(state, Direction::Remove, candidate, key).removal, (candidate, key))
            == Seq::<AccountId>::empty(),
        applied(state, Direction::Remove, candidate, key).validators.contains_key(who)
            ==> propose_result(
            applied(state, Direction::Remove, candidate, key),
            Direction::Add,
            who,
            candidate,
            key,
        ) is Ok && proposed(
            applied(state, Direction::Remove, candidate, key),
            Direction::Add,
            who,
            candidate,
            key,
        ).add[(candidate, key)] == seq![who],
{
    let cleared = applied(state, Direction::Remove, candidate, key);
    assert(votes_of(cleared.add, (candidate, key)).push(who) =~= seq![who]);
}

/// A removal leaves the proposals for every other pair as they were.
pub proof fn law_removal_spares_other_pairs(
    state: State,
    candidate: AccountId,
    key: SessionKey,
    other: Candidate,
)
    requires
        other != (candidate, key),
    ensures
        applied(state, Direction::Remove, candidate, key).add.contains_key(other)
            == state.add.contains_key(other),
        applied(state, Direction::Remove, candidate, key).removal.contains_key(other)
            == state.removal.contains_key(other),
        votes_of(applied(state, Direction::Remove, candidate, key).add, other) == votes_of(
            state.add,
            other,
        ),
        votes_of(applied(state, Direction::Remove, candidate, key).removal, other) == votes_of(
            state.removal,
            other,
        ),
{
}

/// An administrative change succeeds whenever the candidate's membership
/// allows it, and for an addition the count leaves room for one more
/// validator.
pub proof fn law_privileged_succeeds(
    state: State,
    direction: Direction,
    count: nat,
    candidate: AccountId,
)
    requires
        membership_result(state, direction, candidate) is Ok,
        direction == Direction::Add ==> count < u32::MAX,
    ensures
        privileged_result(state, direction, count, candidate) is Ok,
{
}

/// The outcome of an administrative change does not depend on the proposals
/// or the votes: two states with the same validators give the same outcome.
pub proof fn law_privileged_ignores_votes(
    state: State,
    other: State,
    direction: Direction,
    count: nat,
    candidate: AccountId,
)
    requires
        state.validators == other.validators,
    ensures
        privileged_result(state, direction, count, candidate) == privileged_result(
            other,
            direction,
            count,
            candidate,
        ),
{
}

/// Whatever resolves, the administrative path allows too: a proposal
/// resolves only where the same change would succeed on administrative
/// authority.
pub proof fn law_resolution_implies_privileged(
    state: State,
    direction: Direction,
    count: nat,
    candidate: AccountId,
    key: SessionKey,
)
    requires
        resolve_result(state, direction, count, candidate, key) is Ok,
    ensures
        privileged_result(state, direction, count, candidate) is Ok,
{
}

/// A committed change keeps the state valid.
pub proof fn law_change_keeps_state_valid(
    state: State,
    direction: Direction,
    candidate: AccountId,
    key: SessionKey,
)
    requires
        state.valid(),
    ensures
        applied(state, direction, candidate, key).valid(),
{
    let after = applied(state, direction, candidate, key);
    assert forall|pair: Candidate| #[trigger]
        after.add.contains_key(pair) implies after.add[pair].len() > 0
        && after.add[pair].no_duplicates() by {
        assert(state.add.contains_key(pair));
    }
    assert forall|pair: Candidate| #[trigger]
        after.removal.contains_key(pair) implies after.removal[pair].len() > 0
        && after.removal[pair].no_duplicates() by {
        assert(state.removal.contains_key(pair));
    }
}

/// The roster names exactly the validators of the directory, each once.
pub open spec fn mirrors(roster: Seq<AccountId>, validators: Map<AccountId, SessionKey>) -> bool {
    forall|account_id: AccountId|
        #![trigger occurrences(roster, account_id)]
        #![trigger validators.contains_key(account_id)]
        occurrences(roster, account_id) == (if validators.contains_key(account_id) {
            1nat
        } else {
            0nat
        })
}

/// The roster stays in step with the directory: if it named exactly the
/// validators before a committed change, each once, it does so after it.
pub proof fn law_roster_follows_directory(
    state: State,
    roster: Seq<AccountId>,
    direction: Direction,
    candidate: AccountId,
    key: SessionKey,
    after: Seq<AccountId>,
)
    requires
        mirrors(roster, state.validators),
        membership_result(state, direction, candidate) is Ok,
        roster_applied(roster, direction, candidate, after),
    ensures
        mirrors(after, applied(state, direction, candidate, key).validators),
{
    let validators = applied(state, direction, candidate, key).validators;
    assert forall|account_id: AccountId|
        occurrences(after, account_id) == (if validators.contains_key(account_id) {
            1nat
        } else {
            0nat
        }) by {
        assert(occurrences(roster, account_id) == (if state.validators.contains_key(account_id) {
            1nat
        } else {
            0nat
        }));
        match direction {
            Direction::Add => {
                assert(after.drop_last() =~= roster);
            },
            Direction::Remove => {},
        }
    }
}

/// While the roster names exactly the validators, each once, the registry
/// counts as many validators as the directory holds.
pub proof fn law_count_is_directory_size(roster: Seq<AccountId>, validators: Map<
    AccountId,
    SessionKey,
>)
    requires
        mirrors(roster, validators),
        validators.dom().finite(),
    ensures
        roster.len() == validators.len(),
    decreases roster.len(),
{
    if roster.len() == 0 {
        assert forall|account_id: AccountId| !validators.contains_key(account_id) by {
            assert(occurrences(roster, account_id) == 0);
        }
        assert(validators.dom() =~= Set::<AccountId>::empty());
    } else {
        let last = roster.last();
        let front = roster.drop_last();
        let rest = validators.remove(last);
        assert(occurrences(roster, last) == 1);
        assert(validators.contains_key(last));
        assert forall|account_id: AccountId|
            occurrences(front, account_id) == (if rest.contains_key(account_id) {
                1nat
            } else {
                0nat
            }) by {
            assert(occurrences(roster, account_id) == (if validators.contains_key(account_id) {
                1nat
            } else {
                0nat
            }));
        }
        law_count_is_directory_size(front, rest);
    }
}

} // verus!
