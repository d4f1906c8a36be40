//! Open proposals and the votes cast for them.
//!
//! A proposal is identified by a candidate, the session key it is proposed
//! under, and a direction. It is opened by its first vote and stays open,
//! without expiry, until it is cleared. Its vote set lists the voters in the
//! order in which they voted, each of them once.

use crate::assoc::{
    assoc_map, distinct_keys, key_at, lemma_absent, lemma_entry_in_map, lemma_push, lemma_remove,
    lemma_same_map, lemma_size, lemma_update,
};
use crate::types::{AccountId, Candidate, Error, SessionKey};
use vstd::prelude::*;

verus! {

/// The open proposals of one direction, each with its vote set.
pub type Proposals = Map<Candidate, Seq<AccountId>>;

/// The votes cast for `pair`: those of its open proposal, or none if no
/// proposal is open.
pub open spec fn votes_of(proposals: Proposals, pair: Candidate) -> Seq<AccountId> {
    if proposals.contains_key(pair) {
        proposals[pair]
    } else {
        Seq::empty()
    }
}

/// Every open proposal has at least one vote, and nobody has voted twice for
/// the same proposal.
pub open spec fn votes_valid(proposals: Proposals) -> bool {
    forall|pair: Candidate| #[trigger]
        proposals.contains_key(pair) ==> proposals[pair].len() > 0
            && proposals[pair].no_duplicates()
}

/// The proposals after `who` has voted for `pair`: the vote is appended to
/// the proposal's vote set, and the proposal is opened if it was not.
pub open spec fn with_vote(proposals: Proposals, pair: Candidate, who: AccountId) -> Proposals {
    proposals.insert(pair, votes_of(proposals, pair).push(who))
}

/// One open proposal and its votes, as it is kept and stored.
#[derive(Debug, PartialEq, Eq)]
pub struct ProposalRecord {
    pub candidate: AccountId,
    pub key: SessionKey,
    /// The voters in the order in which they voted.
    pub votes: Vec<AccountId>,
}

/// The open proposals of one direction.
pub struct ProposalTable {
    records: Vec<ProposalRecord>,
}

/// The candidate and key of a record.
pub open spec fn record_pair() -> spec_fn(ProposalRecord) -> Candidate {
    |record: ProposalRecord| (record.candidate, record.key)
}

/// The voters of a record.
pub open spec fn record_votes() -> spec_fn(ProposalRecord) -> Seq<AccountId> {
    |record: ProposalRecord| record.votes@
}

/// The proposals that a list of records stands for.
pub open spec fn records_map(records: Seq<ProposalRecord>) -> Proposals {
    assoc_map(records, record_pair(), record_votes())
}

/// Each record holds at least one vote and no voter twice.
pub open spec fn records_valid(records: Seq<ProposalRecord>) -> bool {
    forall|i: int|
        0 <= i < records.len() ==> (#[trigger] records[i]).votes@.len() > 0
            && records[i].votes@.no_duplicates()
}

/// The records can be kept as a table: no pair has two records, and each
/// record holds at least one vote and no voter twice.
pub open spec fn records_storable(records: Seq<ProposalRecord>) -> bool {
    distinct_keys(records, record_pair()) && records_valid(records)
}

/// Whether no voter occurs twice in `votes`.
pub fn votes_distinct(votes: &Vec<AccountId>) -> (distinct: bool)
    ensures
        distinct == votes@.no_duplicates(),
{
    let mut i: usize = 0;
    while i < votes.len()
        invariant
            i <= votes.len(),
            forall|a: int, b: int| 0 <= a < i && a < b < votes.len() ==> votes@[a] != votes@[b],
        decreases votes.len() - i,
    {
        let mut j: usize = i + 1;
        while j < votes.len()
            invariant
                i < j <= votes.len(),
                forall|b: int| i < b < j ==> votes@[i as int] != votes@[b],
            decreases votes.len() - j,
        {
            if votes[i] == votes[j] {
                return false;
            }
            j += 1;
        }
        i += 1;
    }
    assert forall|a: int, b: int|
        0 <= a < votes@.len() && 0 <= b < votes@.len() && a != b implies votes@[a]
        != votes@[b] by {
        if a < b {
        } else {
            assert(votes@[b] != votes@[a]);
        }
    }
    true
}

/// Whether the records can be kept as a table.
fn storable(records: &Vec<ProposalRecord>) -> (valid: bool)
    ensures
        valid == records_storable(records@),
{
    let mut i: usize = 0;
    while i < records.len()
        invariant
            i <= records.len(),
            forall|a: int|
                0 <= a < i ==> (#[trigger] records@[a]).votes@.len() > 0
                    && records@[a].votes@.no_duplicates(),
            forall|a: int, b: int|
                0 <= a < i && a < b < records.len() ==> record_pair()(records@[a]) != record_pair()(
                    records@[b],
                ),
        decreases records.len() - i,
    {
        if records[i].votes.len() == 0 || !votes_distinct(&records[i].votes) {
            assert(!records_valid(records@)) by {
                assert(!(records@[i as int].votes@.len() > 0
                    && records@[i as int].votes@.no_duplicates()));
            }
            return false;
        }
        let mut j: usize = i + 1;
        while j < records.len()
            invariant
                i < j <= records.len(),
                forall|b: int|
                    i < b < j ==> record_pair()(records@[i as int]) != record_pair()(records@[b]),
            decreases records.len() - j,
        {
            if records[i].candidate == records[j].candidate && records[i].key == records[j].key {
                assert(!distinct_keys(records@, record_pair())) by {
                    assert(record_pair()(records@[i as int]) == record_pair()(records@[j as int]));
                }
                return false;
            }
            j += 1;
        }
        i += 1;
    }
    assert(distinct_keys(records@, record_pair())) by {
        assert forall|a: int, b: int|
            0 <= a < records@.len() && 0 <= b < records@.len() && a != b implies record_pair()(
            records@[a],
        ) != record_pair()(records@[b]) by {
            if a < b {
            } else {
                assert(record_pair()(records@[b]) != record_pair()(records@[a]));
            }
        }
    }
    true
}

/// Whether `who` is among `votes`.
fn voted(votes: &Vec<AccountId>, who: AccountId) -> (found: bool)
    ensures
        found == votes@.contains(who),
{
    let mut i: usize = 0;
    while i < votes.len()
        invariant
            i <= votes.len(),
            forall|j: int| 0 <= j < i ==> votes@[j] != who,
        decreases votes.len() - i,
    {
        if votes[i] == who {
            return true;
        }
        i += 1;
    }
    false
}

/// A copy of `votes`.
fn copy_votes(votes: &Vec<AccountId>) -> (list: Vec<AccountId>)
    ensures
        list@ == votes@,
{
    let mut list: Vec<AccountId> = Vec::new();
    let mut i: usize = 0;
    while i < votes.len()
        invariant
            i <= votes.len(),
            list@ == votes@.take(i as int),
        decreases votes.len() - i,
    {
        list.push(votes[i]);
        assert(votes@.take(i + 1) =~= votes@.take(i as int).push(votes@[i as int]));
        i += 1;
    }
    assert(votes@.take(i as int) =~= votes@);
    list
}

impl View for ProposalTable {
    type V = Proposals;

    closed spec fn view(&self) -> Proposals {
        records_map(self.records@)
    }
}

impl ProposalTable {
    /// Each pair has at most one record, and each record holds at least one
    /// vote and no voter twice.
    pub closed spec fn wf(&self) -> bool {
        records_storable(self.records@)
    }

    /// The table that holds the given records, if they can be kept as one.
    pub fn from_records(records: Vec<ProposalRecord>) -> (table: Option<Self>)
        ensures
            table is Some <==> records_storable(records@),
            table matches Some(t) ==> t.wf() && t@ == records_map(records@),
    {
        if storable(&records) {
            Some(ProposalTable { records })
        } else {
            None
        }
    }

    /// The open proposals, each once with its votes, in no particular order.
    /// The list can be kept as a table, and stands for the same proposals as
    /// this one.
    pub fn to_records(&self) -> (list: Vec<ProposalRecord>)
        requires
            self.wf(),
        ensures
            records_storable(list@),
            records_map(list@) == self@,
    {
        let mut list: Vec<ProposalRecord> = Vec::new();
        let mut i: usize = 0;
        while i < self.records.len()
            invariant
                i <= self.records.len(),
                list@.len() == i,
                forall|j: int|
                    0 <= j < i ==> (#[trigger] list@[j]).candidate == self.records@[j].candidate
                        && list@[j].key == self.records@[j].key && list@[j].votes@
                        == self.records@[j].votes@,
            decreases self.records.len() - i,
        {
            let record = &self.records[i];
            list.push(
                ProposalRecord {
                    candidate: record.candidate,
                    key: record.key,
                    votes: copy_votes(&record.votes),
                },
            );
            i += 1;
        }
        proof {
            lemma_same_map(self.records@, list@, record_pair(), record_votes());
        }
        list
    }

    /// In a well-formed table the open proposals are finitely many, each has
    /// a vote, and none has the same voter twice.
    pub proof fn lemma_votes_valid(&self)
        requires
            self.wf(),
        ensures
            self@.dom().finite(),
            votes_valid(self@),
    {
        lemma_size(self.records@, record_pair(), record_votes());
        assert forall|pair: Candidate| #[trigger] self@.contains_key(pair) implies self@[pair].len()
            > 0 && self@[pair].no_duplicates() by {
            let i = choose|i: int| key_at(self.records@, record_pair(), pair, i);
            lemma_entry_in_map(self.records@, record_pair(), record_votes(), i);
        }
    }

    /// A table without proposals.
    pub fn new() -> (table: Self)
        ensures
            table.wf(),
            table@ == Proposals::empty(),
    {
        let table = ProposalTable { records: Vec::new() };
        proof {
            lemma_size(table.records@, record_pair(), record_votes());
            assert(table@.len() == 0);
            assert(table@ =~= Proposals::empty());
        }
        table
    }

    /// The position of the record for the pair, if its proposal is open.
    fn position(&self, candidate: AccountId, key: SessionKey) -> (found: Option<usize>)
        requires
            self.wf(),
        ensures
            match found {
                Some(i) => key_at(self.records@, record_pair(), (candidate, key), i as int)
                    && self@.contains_key((candidate, key)) && self@[(candidate, key)]
                    == self.records@[i as int].votes@,
                None => !self@.contains_key((candidate, key)),
            },
    {
        let mut i: usize = 0;
        while i < self.records.len()
            invariant
                self.wf(),
                i <= self.records.len(),
                forall|j: int|
                    0 <= j < i ==> record_pair()(#[trigger] self.records@[j]) != (candidate, key),
            decreases self.records.len() - i,
        {
            if self.records[i].candidate == candidate && self.records[i].key == key {
                proof {
                    lemma_entry_in_map(self.records@, record_pair(), record_votes(), i as int);
                }
                return Some(i);
            }
            i += 1;
        }
        proof {
            lemma_absent(self.records@, record_pair(), record_votes(), (candidate, key));
        }
        None
    }

    /// Whether a proposal is open for the pair.
    pub fn is_open(&self, candidate: AccountId, key: SessionKey) -> (open: bool)
        requires
            self.wf(),
        ensures
            open == self@.contains_key((candidate, key)),
    {
        self.position(candidate, key).is_some()
    }

    /// The voters for the pair in the order in which they voted; empty if no
    /// proposal is open.
    pub fn votes(&self, candidate: AccountId, key: SessionKey) -> (votes: Vec<AccountId>)
        requires
            self.wf(),
        ensures
            votes@ == votes_of(self@, (candidate, key)),
    {
        match self.position(candidate, key) {
            Some(i) => copy_votes(&self.records[i].votes),
            None => Vec::new(),
        }
    }

    /// How many votes were cast for the pair.
    pub fn vote_count(&self, candidate: AccountId, key: SessionKey) -> (count: usize)
        requires
            self.wf(),
        ensures
            count == votes_of(self@, (candidate, key)).len(),
    {
        match self.position(candidate, key) {
            Some(i) => self.records[i].votes.len(),
            None => 0,
        }
    }

    /// Whether `who` has voted for the pair.
    pub fn has_voted(&self, candidate: AccountId, key: SessionKey, who: AccountId) -> (found: bool)
        requires
            self.wf(),
        ensures
            found == votes_of(self@, (candidate, key)).contains(who),
    {
        match self.position(candidate, key) {
            Some(i) => voted(&self.records[i].votes, who),
            None => false,
        }
    }

    /// Records the vote of `who` for the pair, opening the proposal if this is
    /// its first vote. A second vote of the same voter is refused with
    /// `DuplicateVote` and changes nothing.
    pub fn record_vote(&mut self, candidate: AccountId, key: SessionKey, who: AccountId) -> (result:
        Result<(), Error>)
        requires
            old(self).wf(),
        ensures
            final(self).wf(),
            result is Err <==> votes_of(old(self)@, (candidate, key)).contains(who),
            result is Err ==> result == Err::<(), Error>(Error::DuplicateVote) && final(self)@
                == old(self)@,
            result is Ok ==> final(self)@ == with_vote(old(self)@, (candidate, key), who),
    {
        match self.position(candidate, key) {
            Some(i) => {
                if voted(&self.records[i].votes, who) {
                    return Err(Error::DuplicateVote);
                }
                let ghost before = self.records@;
                let mut votes = copy_votes(&self.records[i].votes);
                votes.push(who);
                let record = ProposalRecord { candidate, key, votes };
                proof {
                    lemma_update(before, record_pair(), record_votes(), i as int, record);
                    assert(record.votes@.no_duplicates());
                }
                self.records.set(i, record);
                Ok(())
            },
            None => {
                let mut votes: Vec<AccountId> = Vec::new();
                votes.push(who);
                let record = ProposalRecord { candidate, key, votes };
                proof {
                    lemma_push(self.records@, record_pair(), record_votes(), record);
                    assert(record.votes@ =~= Seq::<AccountId>::empty().push(who));
                }
                self.records.push(record);
                Ok(())
            },
        }
    }

    /// Closes the proposal for the pair and forgets its votes. Returns whether
    /// one was open.
    pub fn clear(&mut self, candidate: AccountId, key: SessionKey) -> (was_open: bool)
        requires
            old(self).wf(),
        ensures
            final(self).wf(),
            final(self)@ == old(self)@.remove((candidate, key)),
            was_open == old(self)@.contains_key((candidate, key)),
    {
        match self.position(candidate, key) {
            Some(i) => {
                proof {
                    lemma_remove(self.records@, record_pair(), record_votes(), i as int);
                }
                let _ = self.records.remove(i);
                true
            },
            None => {
                assert(self@ =~= self@.remove((candidate, key)));
                false
            },
        }
    }

    /// How many proposals are open.
    pub fn len(&self) -> (n: usize)
        requires
            self.wf(),
        ensures
            n == self@.len(),
    {
        proof {
            lemma_size(self.records@, record_pair(), record_votes());
        }
        self.records.len()
    }
}

} // verus!
