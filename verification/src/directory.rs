//! The validator directory: which account is a validator, and under which
//! session key.

use crate::assoc::{
    assoc_map, distinct_keys, key_at, lemma_absent, lemma_entry_in_map, lemma_push, lemma_remove,
    lemma_size, lemma_update,
};
use crate::types::{AccountId, SessionKey};
use vstd::prelude::*;

verus! {

/// One validator: its account and its session key.
#[derive(Clone, Copy, Debug, PartialEq, Eq)]
pub struct ValidatorEntry {
    pub account_id: AccountId,
    pub session_key: SessionKey,
}

/// The current validators, at most one entry per account.
///
/// The directory checks nothing by itself: whoever inserts or removes decides
/// whether the change is allowed.
pub struct ValidatorDirectory {
    entries: Vec<ValidatorEntry>,
}

/// The account of an entry.
pub open spec fn entry_account() -> spec_fn(ValidatorEntry) -> AccountId {
    |entry: ValidatorEntry| entry.account_id
}

/// The session key of an entry.
pub open spec fn entry_key() -> spec_fn(ValidatorEntry) -> SessionKey {
    |entry: ValidatorEntry| entry.session_key
}

/// The map from account to session key that a list of entries stands for.
pub open spec fn entries_map(entries: Seq<ValidatorEntry>) -> Map<AccountId, SessionKey> {
    assoc_map(entries, entry_account(), entry_key())
}

/// No account has two entries.
pub open spec fn distinct_accounts(entries: Seq<ValidatorEntry>) -> bool {
    distinct_keys(entries, entry_account())
}

impl View for ValidatorDirectory {
    type V = Map<AccountId, SessionKey>;

    closed spec fn view(&self) -> Map<AccountId, SessionKey> {
        entries_map(self.entries@)
    }
}

impl ValidatorDirectory {
    /// The directory holds at most one entry per account.
    pub closed spec fn wf(&self) -> bool {
        distinct_accounts(self.entries@)
    }

    /// A well-formed directory holds finitely many validators.
    pub proof fn lemma_finite(&self)
        requires
            self.wf(),
        ensures
            self@.dom().finite(),
    {
        lemma_size(self.entries@, entry_account(), entry_key());
    }

    /// A directory without validators.
    pub fn new() -> (directory: Self)
        ensures
            directory.wf(),
            directory@ == Map::<AccountId, SessionKey>::empty(),
    {
        let directory = ValidatorDirectory { entries: Vec::new() };
        proof {
            lemma_size(directory.entries@, entry_account(), entry_key());
            assert(directory@.len() == 0);
            assert(directory@ =~= Map::<AccountId, SessionKey>::empty());
        }
        directory
    }

    /// The directory that holds the given entries, if no account has two of
    /// them.
    pub fn from_entries(entries: Vec<ValidatorEntry>) -> (directory: Option<Self>)
        ensures
            directory is Some <==> distinct_accounts(entries@),
            directory matches Some(d) ==> d.wf() && d@ == entries_map(entries@),
    {
        let mut i: usize = 0;
        while i < entries.len()
            invariant
                i <= entries.len(),
                forall|a: int, b: int|
                    0 <= a < i && a < b < entries.len() ==> entries@[a].account_id
                        != entries@[b].account_id,
            decreases entries.len() - i,
        {
            let mut j: usize = i + 1;
            while j < entries.len()
                invariant
                    i < j <= entries.len(),
                    forall|b: int|
                        i < b < j ==> entries@[i as int].account_id != entries@[b].account_id,
                decreases entries.len() - j,
            {
                if entries[i].account_id == entries[j].account_id {
                    assert(!distinct_accounts(entries@)) by {
                        assert(entry_account()(entries@[i as int]) == entry_account()(
                            entries@[j as int],
                        ));
                    }
                    return None;
                }
                j += 1;
            }
            i += 1;
        }
        assert(distinct_accounts(entries@)) by {
            assert forall|a: int, b: int|
                0 <= a < entries@.len() && 0 <= b < entries@.len() && a != b
                implies entry_account()(entries@[a]) != entry_account()(entries@[b]) by {
                if a < b {
                } else {
                    assert(entries@[b].account_id != entries@[a].account_id);
                }
            }
        }
        Some(ValidatorDirectory { entries })
    }

    /// The position of `account_id` among the entries, if it has one.
    fn position(&self, account_id: AccountId) -> (found: Option<usize>)
        requires
            self.wf(),
        ensures
            match found {
                Some(i) => key_at(self.entries@, entry_account(), account_id, i as int)
                    && self@.contains_key(account_id) && self@[account_id]
                    == self.entries@[i as int].session_key,
                None => !self@.contains_key(account_id),
            },
    {
        let mut i: usize = 0;
        while i < self.entries.len()
            invariant
                self.wf(),
                i <= self.entries.len(),
                forall|j: int| 0 <= j < i ==> self.entries@[j].account_id != account_id,
            decreases self.entries.len() - i,
        {
            if self.entries[i].account_id == account_id {
                proof {
                    lemma_entry_in_map(self.entries@, entry_account(), entry_key(), i as int);
                }
                return Some(i);
            }
            i += 1;
        }
        proof {
            lemma_absent(self.entries@, entry_account(), entry_key(), account_id);
        }
        None
    }

    /// Whether `account_id` is a validator.
    pub fn contains(&self, account_id: AccountId) -> (found: bool)
        requires
            self.wf(),
        ensures
            found == self@.contains_key(account_id),
    {
        self.position(account_id).is_some()
    }

    /// The session key of `account_id`, if it is a validator.
    pub fn get(&self, account_id: AccountId) -> (key: Option<SessionKey>)
        requires
            self.wf(),
        ensures
            key == (if self@.contains_key(account_id) {
                Some(self@[account_id])
            } else {
                None
            }),
    {
        match self.position(account_id) {
            Some(i) => Some(self.entries[i].session_key),
            None => None,
        }
    }

    /// Makes `account_id` a validator with `session_key`, replacing the key it
    /// had if it was one already. Returns the key that was replaced.
    pub fn insert(&mut self, account_id: AccountId, session_key: SessionKey) -> (previous: Option<
        SessionKey,
    >)
        requires
            old(self).wf(),
        ensures
            final(self).wf(),
            final(self)@ == old(self)@.insert(account_id, session_key),
            previous == (if old(self)@.contains_key(account_id) {
                Some(old(self)@[account_id])
            } else {
                None
            }),
    {
        let entry = ValidatorEntry { account_id, session_key };
        match self.position(account_id) {
            Some(i) => {
                proof {
                    lemma_update(self.entries@, entry_account(), entry_key(), i as int, entry);
                }
                let previous = self.entries[i].session_key;
                self.entries.set(i, entry);
                Some(previous)
            },
            None => {
                proof {
                    lemma_push(self.entries@, entry_account(), entry_key(), entry);
                }
                self.entries.push(entry);
                None
            },
        }
    }

    /// Takes `account_id` out of the directory. Returns the key it had.
    pub fn remove(&mut self, account_id: AccountId) -> (previous: Option<SessionKey>)
        requires
            old(self).wf(),
        ensures
            final(self).wf(),
            final(self)@ == old(self)@.remove(account_id),
            previous == (if old(self)@.contains_key(account_id) {
                Some(old(self)@[account_id])
            } else {
                None
            }),
    {
        match self.position(account_id) {
            Some(i) => {
                proof {
                    lemma_remove(self.entries@, entry_account(), entry_key(), i as int);
                }
                let removed = self.entries.remove(i);
                Some(removed.session_key)
            },
            None => {
                assert(self@ =~= self@.remove(account_id));
                None
            },
        }
    }

    /// How many validators the directory holds.
    pub fn len(&self) -> (n: usize)
        requires
            self.wf(),
        ensures
            n == self@.len(),
    {
        proof {
            lemma_size(self.entries@, entry_account(), entry_key());
        }
        self.entries.len()
    }

    /// The validators, each once, in no particular order.
    pub fn to_vec(&self) -> (list: Vec<ValidatorEntry>)
        requires
            self.wf(),
        ensures
            distinct_accounts(list@),
            entries_map(list@) == self@,
    {
        let mut list: Vec<ValidatorEntry> = Vec::new();
        let mut i: usize = 0;
        while i < self.entries.len()
            invariant
                i <= self.entries.len(),
                list@ == self.entries@.take(i as int),
            decreases self.entries.len() - i,
        {
            list.push(self.entries[i]);
            assert(self.entries@.take(i + 1) =~= self.entries@.take(i as int).push(
                self.entries@[i as int],
            ));
            i += 1;
        }
        assert(self.entries@.take(i as int) =~= self.entries@);
        list
    }
}

} // verus!
