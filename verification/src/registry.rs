//! The authority registry: the roster of validators that the consensus
//! engine trusts, and the session rotations asked of it.
//!
//! The registry belongs to whoever runs consensus. This library reads its
//! count and its list, replaces the list, and asks for a rotation so that a
//! new list takes effect; what a rotation does is not this library's
//! business. The registry here records those commands for its owner to carry
//! out.

use crate::types::{AccountId, Error};
use vstd::prelude::*;

verus! {

/// A request to rotate the session.
#[derive(Clone, Copy, Debug, PartialEq, Eq, Structural)]
pub struct Rotation {
    /// Rotate at once instead of at the end of the session.
    pub force_immediate: bool,
    /// Handed on to the registry's owner as it is; it decides nothing here.
    pub second_flag: bool,
}

/// The live roster and the rotations that were asked for and not yet taken.
pub struct AuthorityRegistry {
    validators: Vec<AccountId>,
    rotations: Vec<Rotation>,
}

/// What a registry holds, as plain mathematics.
pub struct RegistryState {
    /// The live roster, in the registry's order.
    pub roster: Seq<AccountId>,
    /// The rotations asked for and not yet taken, oldest first.
    pub rotations: Seq<Rotation>,
}

impl View for AuthorityRegistry {
    type V = RegistryState;

    closed spec fn view(&self) -> RegistryState {
        RegistryState { roster: self.validators@, rotations: self.rotations@ }
    }
}

/// How often `account_id` occurs in `roster`.
pub open spec fn occurrences(roster: Seq<AccountId>, account_id: AccountId) -> nat
    decreases roster.len(),
{
    if roster.len() == 0 {
        0
    } else {
        occurrences(roster.drop_last(), account_id) + if roster.last() == account_id {
            1nat
        } else {
            0nat
        }
    }
}

/// `roster` with position `i` filled by the last account, and the last
/// position dropped.
pub open spec fn swap_removed(roster: Seq<AccountId>, i: int) -> Seq<AccountId> {
    roster.update(i, roster.last()).drop_last()
}

/// `after` is `before` without `account_id`: no other account is lost or
/// gained. Where `account_id` stood once, the last account has taken its
/// place; where it did not stand, nothing has moved.
pub open spec fn is_without(
    before: Seq<AccountId>,
    account_id: AccountId,
    after: Seq<AccountId>,
) -> bool {
    &&& occurrences(after, account_id) == 0
    &&& forall|other: AccountId|
        other != account_id ==> occurrences(after, other) == occurrences(before, other)
    &&& after.len() == before.len() - occurrences(before, account_id)
    &&& forall|i: int|
        0 <= i < before.len() && before[i] == account_id && occurrences(before, account_id) == 1
            ==> after == swap_removed(before, i)
    &&& occurrences(before, account_id) == 0 ==> after == before
}

/// An account occurs in a roster exactly if it is counted there.
pub proof fn lemma_occurrences_contains(roster: Seq<AccountId>, account_id: AccountId)
    ensures
        occurrences(roster, account_id) <= roster.len(),
        occurrences(roster, account_id) > 0 <==> roster.contains(account_id),
    decreases roster.len(),
{
    if roster.len() > 0 {
        let front = roster.drop_last();
        lemma_occurrences_contains(front, account_id);
        if roster.last() == account_id {
            assert(roster[roster.len() - 1] == account_id);
        } else if front.contains(account_id) {
            let i = choose|i: int| 0 <= i < front.len() && front[i] == account_id;
            assert(roster[i] == account_id);
        } else if roster.contains(account_id) {
            let i = choose|i: int| 0 <= i < roster.len() && roster[i] == account_id;
            assert(front[i] == account_id);
        }
    }
}

/// Overwriting a position takes one occurrence from the account that stood
/// there and gives one to the account that stands there now.
pub proof fn lemma_occurrences_update(
    roster: Seq<AccountId>,
    i: int,
    value: AccountId,
    account_id: AccountId,
)
    requires
        0 <= i < roster.len(),
    ensures
        occurrences(roster.update(i, value), account_id) + (if roster[i] == account_id {
            1nat
        } else {
            0nat
        }) == occurrences(roster, account_id) + (if value == account_id {
            1nat
        } else {
            0nat
        }),
    decreases roster.len(),
{
    let updated = roster.update(i, value);
    if i == roster.len() - 1 {
        assert(updated.drop_last() =~= roster.drop_last());
    } else {
        assert(updated.drop_last() =~= roster.drop_last().update(i, value));
        lemma_occurrences_update(roster.drop_last(), i, value, account_id);
    }
}

/// A swap-remove takes one occurrence from the account at the position and
/// leaves every other count as it was.
pub proof fn lemma_occurrences_swap_removed(roster: Seq<AccountId>, i: int, account_id: AccountId)
    requires
        0 <= i < roster.len(),
    ensures
        occurrences(swap_removed(roster, i), account_id) + (if roster[i] == account_id {
            1nat
        } else {
            0nat
        }) == occurrences(roster, account_id),
{
    lemma_occurrences_update(roster, i, roster.last(), account_id);
}

/// Among the first `n` positions of a roster in which the account occurs
/// once, only its own position holds it.
proof fn lemma_single_occurrence(roster: Seq<AccountId>, account_id: AccountId, i: int, j: int)
    requires
        0 <= i < roster.len(),
        0 <= j < roster.len(),
        roster[i] == account_id,
        roster[j] == account_id,
        occurrences(roster, account_id) == 1,
    ensures
        i == j,
    decreases roster.len(),
{
    let front = roster.drop_last();
    let last = roster.len() - 1;
    if roster.last() == account_id {
        lemma_occurrences_contains(front, account_id);
        if i < last {
            assert(front[i] == account_id);
        }
        if j < last {
            assert(front[j] == account_id);
        }
    } else {
        lemma_single_occurrence(front, account_id, i, j);
    }
}

impl AuthorityRegistry {
    /// The validator count fits the 32 bits in which it is reported.
    pub open spec fn wf(&self) -> bool {
        self@.roster.len() <= u32::MAX
    }

    /// A registry with the given roster and no pending rotation. A roster too
    /// long for its count to be reported is refused with `CountOverflow`.
    pub fn new(validators: Vec<AccountId>) -> (result: Result<Self, Error>)
        ensures
            match result {
                Ok(registry) => validators@.len() <= u32::MAX && registry.wf() && registry@ == (
                RegistryState { roster: validators@, rotations: Seq::empty() }),
                Err(error) => validators@.len() > u32::MAX && error == Error::CountOverflow,
            },
    {
        if validators.len() > u32::MAX as usize {
            return Err(Error::CountOverflow);
        }
        Ok(AuthorityRegistry { validators, rotations: Vec::new() })
    }

    /// How many validators the roster holds now.
    pub fn validator_count(&self) -> (count: u32)
        requires
            self.wf(),
        ensures
            count == self@.roster.len(),
    {
        self.validators.len() as u32
    }

    /// A copy of the live roster.
    pub fn validators(&self) -> (list: Vec<AccountId>)
        ensures
            list@ == self@.roster,
    {
        copy_roster(&self.validators)
    }

    /// Replaces the live roster. A roster too long for its count to be
    /// reported is refused with `CountOverflow`, and the old one stays.
    pub fn set_validators(&mut self, validators: Vec<AccountId>) -> (result: Result<(), Error>)
        requires
            old(self).wf(),
        ensures
            final(self).wf(),
            match result {
                Ok(_) => validators@.len() <= u32::MAX && final(self)@ == (
                RegistryState { roster: validators@, ..old(self)@ }),
                Err(error) => validators@.len() > u32::MAX && error == Error::CountOverflow
                    && final(self)@ == old(self)@,
            },
    {
        if validators.len() > u32::MAX as usize {
            return Err(Error::CountOverflow);
        }
        self.validators = validators;
        Ok(())
    }

    /// Asks for a session rotation, so that the roster takes effect.
    pub fn rotate_session(&mut self, force_immediate: bool, second_flag: bool)
        ensures
            final(self)@ == (RegistryState {
                rotations: old(self)@.rotations.push((Rotation { force_immediate, second_flag })),
                ..old(self)@
            }),
    {
        self.rotations.push(Rotation { force_immediate, second_flag });
    }

    /// A copy of the rotations asked for and not yet taken, oldest first.
    pub fn pending_rotations(&self) -> (list: Vec<Rotation>)
        ensures
            list@ == self@.rotations,
    {
        let mut list: Vec<Rotation> = Vec::new();
        let mut i: usize = 0;
        while i < self.rotations.len()
            invariant
                i <= self.rotations.len(),
                list@ == self.rotations@.take(i as int),
            decreases self.rotations.len() - i,
        {
            list.push(self.rotations[i]);
            assert(self.rotations@.take(i + 1) =~= self.rotations@.take(i as int).push(
                self.rotations@[i as int],
            ));
            i += 1;
        }
        assert(self.rotations@.take(i as int) =~= self.rotations@);
        list
    }

    /// Hands out the pending rotations, oldest first, and forgets them.
    pub fn take_rotations(&mut self) -> (list: Vec<Rotation>)
        ensures
            list@ == old(self)@.rotations,
            final(self)@ == (RegistryState { rotations: Seq::empty(), ..old(self)@ }),
    {
        let mut list: Vec<Rotation> = Vec::new();
        std::mem::swap(&mut self.rotations, &mut list);
        list
    }
}

/// A copy of `roster`.
pub fn copy_roster(roster: &Vec<AccountId>) -> (list: Vec<AccountId>)
    ensures
        list@ == roster@,
{
    let mut list: Vec<AccountId> = Vec::new();
    let mut i: usize = 0;
    while i < roster.len()
        invariant
            i <= roster.len(),
            list@ == roster@.take(i as int),
        decreases roster.len() - i,
    {
        list.push(roster[i]);
        assert(roster@.take(i + 1) =~= roster@.take(i as int).push(roster@[i as int]));
        i += 1;
    }
    assert(roster@.take(i as int) =~= roster@);
    list
}

/// The roster without `account_id`. Each position that holds the account is
/// filled with the last account of the list, so the order of the others may
/// change.
pub fn without_account(roster: &Vec<AccountId>, account_id: AccountId) -> (list: Vec<AccountId>)
    ensures
        is_without(roster@, account_id, list@),
{
    let mut list = copy_roster(roster);
    let mut i: usize = 0;
    while i < list.len()
        invariant
            i <= list.len(),
            list@.len() <= roster@.len(),
            forall|j: int| 0 <= j < i ==> list@[j] != account_id,
            forall|other: AccountId|
                other != account_id ==> occurrences(list@, other) == occurrences(roster@, other),
            list@.len() - occurrences(list@, account_id) == roster@.len() - occurrences(
                roster@,
                account_id,
            ),
            occurrences(list@, account_id) == occurrences(roster@, account_id) ==> list@
                == roster@,
            forall|p: int|
                0 <= p < roster@.len() && roster@[p] == account_id && occurrences(
                    roster@,
                    account_id,
                ) == 1 && occurrences(list@, account_id) == 0 ==> list@ == swap_removed(
                    roster@,
                    p,
                ),
        decreases list.len() - i,
    {
        if list[i] == account_id {
            let ghost before = list@;
            proof {
                assert forall|other: AccountId|
                    occurrences(swap_removed(before, i as int), other) + (if before[i as int]
                        == other {
                        1nat
                    } else {
                        0nat
                    }) == occurrences(before, other) by {
                    lemma_occurrences_swap_removed(before, i as int, other);
                }
                lemma_occurrences_contains(roster@, account_id);
                assert forall|p: int|
                    0 <= p < roster@.len() && roster@[p] == account_id && occurrences(
                        roster@,
                        account_id,
                    ) == 1 implies before == roster@ && p == i by {
                    lemma_single_occurrence(roster@, account_id, p, i as int);
                }
            }
            let _ = list.swap_remove(i);
            assert(list@ =~= swap_removed(before, i as int));
        } else {
            i += 1;
        }
    }
    proof {
        assert(occurrences(list@, account_id) == 0) by {
            lemma_occurrences_contains(list@, account_id);
            if list@.contains(account_id) {
                let j = choose|j: int| 0 <= j < list@.len() && list@[j] == account_id;
                assert(list@[j] != account_id);
            }
        }
    }
    list
}

} // verus!
