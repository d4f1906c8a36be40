//! Identities, directions, errors and events.

use vstd::prelude::*;
use vstd::std_specs::cmp::PartialEqSpecImpl;

verus! {

/// The identity of an account: a validator, a candidate, or a caller. It is
/// the account's public key.
#[derive(Clone, Copy, Debug, Eq, Hash)]
pub struct AccountId(pub [u8; 32]);

/// The public key under which a validator performs its duties in a session.
#[derive(Clone, Copy, Debug, Eq, Hash)]
pub struct SessionKey(pub [u8; 32]);

/// Whether two keys agree in every byte.
pub fn same_bytes(left: &[u8; 32], right: &[u8; 32]) -> (same: bool)
    ensures
        same == (*left == *right),
{
    let mut i: usize = 0;
    while i < 32
        invariant
            i <= 32,
            forall|j: int| 0 <= j < i ==> left[j] == right[j],
        decreases 32 - i,
    {
        if left[i] != right[i] {
            return false;
        }
        i += 1;
    }
    assert(*left =~= *right);
    true
}

impl PartialEq for AccountId {
    fn eq(&self, other: &Self) -> (equal: bool) {
        same_bytes(&self.0, &other.0)
    }
}

impl PartialEqSpecImpl for AccountId {
    open spec fn obeys_eq_spec() -> bool {
        true
    }

    open spec fn eq_spec(&self, other: &Self) -> bool {
        self.0 == other.0
    }
}

impl PartialEq for SessionKey {
    fn eq(&self, other: &Self) -> (equal: bool) {
        same_bytes(&self.0, &other.0)
    }
}

impl PartialEqSpecImpl for SessionKey {
    open spec fn obeys_eq_spec() -> bool {
        true
    }

    open spec fn eq_spec(&self, other: &Self) -> bool {
        self.0 == other.0
    }
}

/// A candidate together with the session key it is proposed under.
pub type Candidate = (AccountId, SessionKey);

/// Whether a proposal asks for a validator to join or to leave.
#[derive(Clone, Copy, Debug, PartialEq, Eq, Structural, Hash)]
pub enum Direction {
    Add,
    Remove,
}

/// Why an operation was refused. A refused operation changes nothing.
#[derive(Clone, Copy, Debug, PartialEq, Eq, Structural, Hash)]
pub enum Error {
    /// The caller is not a current validator.
    AccessDenied,
    /// The candidate is already a validator.
    AlreadyValidator,
    /// The candidate is not a validator.
    NotAValidator,
    /// No proposal is open for the candidate, key and direction.
    ProposalNotFound,
    /// The caller has already voted for this proposal.
    DuplicateVote,
    /// The votes cast do not match the threshold.
    InsufficientVotes,
    /// The validator count cannot grow any further.
    CountOverflow,
}

/// What an operation reports to outside observers.
#[derive(Clone, Copy, Debug, PartialEq, Eq, Hash)]
pub enum Event {
    /// A validator proposed a candidate: proposer, candidate, key.
    ValidatorProposed(AccountId, AccountId, SessionKey),
    /// A validator proposed a removal: proposer, candidate, key.
    ValidatorRemovalProposed(AccountId, AccountId, SessionKey),
    /// A validator joined the set.
    ValidatorAdded(AccountId, SessionKey),
    /// A validator left the set.
    ValidatorRemoved(AccountId, SessionKey),
}

impl Error {
    /// The message that tells a caller why an operation in the direction was
    /// refused.
    pub fn message(self, direction: Direction) -> (text: &'static str)
        ensures
            text@ == self.message_text(direction),
    {
        match self {
            Error::AccessDenied => "Access Denied!",
            Error::AlreadyValidator => "Already a validator.",
            Error::NotAValidator => "Not a validator.",
            Error::ProposalNotFound => match direction {
                Direction::Add => "Proposal to add this validator does not exist.",
                Direction::Remove => "Proposal to remove this validator does not exist.",
            },
            Error::DuplicateVote => match direction {
                Direction::Add => "You have already proposed this validator.",
                Direction::Remove => "You have already proposed removal of this validator.",
            },
            Error::InsufficientVotes => "Not enough votes.",
            Error::CountOverflow => "Too many validators.",
        }
    }

    /// The text of the message for this error in the direction.
    pub open spec fn message_text(self, direction: Direction) -> Seq<char> {
        match self {
            Error::AccessDenied => "Access Denied!"@,
            Error::AlreadyValidator => "Already a validator."@,
            Error::NotAValidator => "Not a validator."@,
            Error::ProposalNotFound => match direction {
                Direction::Add => "Proposal to add this validator does not exist."@,
                Direction::Remove => "Proposal to remove this validator does not exist."@,
            },
            Error::DuplicateVote => match direction {
                Direction::Add => "You have already proposed this validator."@,
                Direction::Remove => "You have already proposed removal of this validator."@,
            },
            Error::InsufficientVotes => "Not enough votes."@,
            Error::CountOverflow => "Too many validators."@,
        }
    }
}

} // verus!
