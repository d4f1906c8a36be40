//! The validator set: the directory, the proposals of both directions, and
//! the operations that change them.
//!
//! Every operation first checks, then changes. Its contract gives the
//! outcome as a function of the state before the call, the state after a
//! success, and promises that a refusal leaves everything as it was.

use crate::directory::{distinct_accounts, entries_map, ValidatorDirectory, ValidatorEntry};
use crate::registry::{is_without, without_account, AuthorityRegistry, RegistryState, Rotation};
use crate::tracker::{
    records_map, records_storable, votes_of, votes_valid, with_vote, ProposalRecord,
    ProposalTable, Proposals,
};
use crate::types::{AccountId, Direction, Error, Event, SessionKey};
use vstd::prelude::*;

verus! {

/// What a validator set holds, as plain mathematics.
pub struct State {
    /// The session key of each current validator.
    pub validators: Map<AccountId, SessionKey>,
    /// The open proposals to add a validator, with their votes.
    pub add: Proposals,
    /// The open proposals to remove a validator, with their votes.
    pub removal: Proposals,
    /// The events emitted and not yet taken, oldest first.
    pub events: Seq<Event>,
}

impl State {
    /// The open proposals of one direction.
    pub open spec fn proposals(self, direction: Direction) -> Proposals {
        match direction {
            Direction::Add => self.add,
            Direction::Remove => self.removal,
        }
    }

    /// This state with the proposals of one direction replaced.
    pub open spec fn with_proposals(self, direction: Direction, proposals: Proposals) -> State {
        match direction {
            Direction::Add => State { add: proposals, ..self },
            Direction::Remove => State { removal: proposals, ..self },
        }
    }

    /// This state with one more event.
    pub open spec fn with_event(self, event: Event) -> State {
        State { events: self.events.push(event), ..self }
    }

    /// The validators and the open proposals are finitely many, every open
    /// proposal has a vote, and no vote set names a voter twice.
    pub open spec fn valid(self) -> bool {
        &&& self.validators.dom().finite()
        &&& self.add.dom().finite()
        &&& self.removal.dom().finite()
        &&& votes_valid(self.add)
        &&& votes_valid(self.removal)
    }
}

/// The state at genesis: the listed validators, a later entry for an account
/// replacing an earlier one, and nothing else.
pub open spec fn genesis_validators(list: Seq<(AccountId, SessionKey)>) -> Map<
    AccountId,
    SessionKey,
>
    decreases list.len(),
{
    if list.len() == 0 {
        Map::empty()
    } else {
        genesis_validators(list.drop_last()).insert(list.last().0, list.last().1)
    }
}

/// The rotation that follows every change of the roster: at once, with the
/// second flag off.
pub open spec fn roster_rotation() -> Rotation {
    Rotation { force_immediate: true, second_flag: false }
}

/// What a proposal reports.
pub open spec fn proposal_event(
    direction: Direction,
    who: AccountId,
    candidate: AccountId,
    key: SessionKey,
) -> Event {
    match direction {
        Direction::Add => Event::ValidatorProposed(who, candidate, key),
        Direction::Remove => Event::ValidatorRemovalProposed(who, candidate, key),
    }
}

/// Whether the candidate's membership allows a change in the direction: only
/// an account that is no validator can be added, only a validator removed.
pub open spec fn membership_result(
    state: State,
    direction: Direction,
    candidate: AccountId,
) -> Result<(), Error> {
    match direction {
        Direction::Add => if state.validators.contains_key(candidate) {
            Err(Error::AlreadyValidator)
        } else {
            Ok(())
        },
        Direction::Remove => if state.validators.contains_key(candidate) {
            Ok(())
        } else {
            Err(Error::NotAValidator)
        },
    }
}

/// The outcome of a proposal by `who`. The caller must be a validator, the
/// candidate's membership must allow the direction, and the caller must not
/// have voted for this proposal before; the first of these that fails gives
/// the error.
pub open spec fn propose_result(
    state: State,
    direction: Direction,
    who: AccountId,
    candidate: AccountId,
    key: SessionKey,
) -> Result<(), Error> {
    if !state.validators.contains_key(who) {
        Err(Error::AccessDenied)
    } else if membership_result(state, direction, candidate) is Err {
        membership_result(state, direction, candidate)
    } else if votes_of(state.proposals(direction), (candidate, key)).contains(who) {
        Err(Error::DuplicateVote)
    } else {
        Ok(())
    }
}

/// The state after an accepted proposal: the caller's vote is appended to
/// the proposal's votes, which opens it if it was not open, and the proposal
/// is reported. The validators stay as they are.
pub open spec fn proposed(
    state: State,
    direction: Direction,
    who: AccountId,
    candidate: AccountId,
    key: SessionKey,
) -> State {
    state.with_proposals(
        direction,
        with_vote(state.proposals(direction), (candidate, key), who),
    ).with_event(proposal_event(direction, who, candidate, key))
}

/// Whether `votes` votes resolve a proposal while the registry counts
/// `count` validators. An addition takes the vote of every validator; a
/// removal that of every validator but one, the candidate.
pub open spec fn threshold_met(direction: Direction, votes: nat, count: nat) -> bool {
    match direction {
        Direction::Add => votes == count,
        Direction::Remove => votes == count - 1,
    }
}

/// Whether the roster can take the change: an addition needs room for one
/// more validator in the count.
pub open spec fn capacity_result(direction: Direction, count: nat) -> Result<(), Error> {
    if direction == Direction::Add && count >= u32::MAX {
        Err(Error::CountOverflow)
    } else {
        Ok(())
    }
}

/// The outcome of an administrative change while the registry counts `count`
/// validators: it depends on the candidate's membership and on the room in
/// the roster, and on no vote.
pub open spec fn privileged_result(
    state: State,
    direction: Direction,
    count: nat,
    candidate: AccountId,
) -> Result<(), Error> {
    if membership_result(state, direction, candidate) is Err {
        membership_result(state, direction, candidate)
    } else {
        capacity_result(direction, count)
    }
}

/// The outcome of resolving a proposal while the registry counts `count`
/// validators. The candidate's membership must allow the direction, the
/// proposal must be open, and its votes must meet the threshold; the first
/// of these that fails gives the error.
pub open spec fn resolve_result(
    state: State,
    direction: Direction,
    count: nat,
    candidate: AccountId,
    key: SessionKey,
) -> Result<(), Error> {
    if membership_result(state, direction, candidate) is Err {
        membership_result(state, direction, candidate)
    } else if !state.proposals(direction).contains_key((candidate, key)) {
        Err(Error::ProposalNotFound)
    } else if !threshold_met(direction, state.proposals(direction)[(candidate, key)].len(), count) {
        Err(Error::InsufficientVotes)
    } else {
        capacity_result(direction, count)
    }
}

/// The state after a committed change of membership.
///
/// An addition enters the candidate with its key, closes the proposal to add
/// the pair, and reports the addition. A removal deletes the candidate,
/// closes the proposals for the pair in both directions, so that the pair can
/// be proposed afresh, and reports the removal.
pub open spec fn applied(
    state: State,
    direction: Direction,
    candidate: AccountId,
    key: SessionKey,
) -> State {
    match direction {
        Direction::Add => State {
            validators: state.validators.insert(candidate, key),
            add: state.add.remove((candidate, key)),
            removal: state.removal,
            events: state.events.push(Event::ValidatorAdded(candidate, key)),
        },
        Direction::Remove => State {
            validators: state.validators.remove(candidate),
            add: state.add.remove((candidate, key)),
            removal: state.removal.remove((candidate, key)),
            events: state.events.push(Event::ValidatorRemoved(candidate, key)),
        },
    }
}

/// What a committed change of membership does to the roster: an addition
/// appends the candidate, a removal takes it out.
pub open spec fn roster_applied(
    before: Seq<AccountId>,
    direction: Direction,
    candidate: AccountId,
    after: Seq<AccountId>,
) -> bool {
    match direction {
        Direction::Add => after == before.push(candidate),
        Direction::Remove => is_without(before, candidate, after),
    }
}

/// What a committed change of membership does to the registry: the roster
/// changes as the direction says, and a rotation is asked for.
pub open spec fn registry_follows(
    before: RegistryState,
    direction: Direction,
    candidate: AccountId,
    after: RegistryState,
) -> bool {
    &&& roster_applied(before.roster, direction, candidate, after.roster)
    &&& after.rotations == before.rotations.push(roster_rotation())
}

/// The validator directory, the proposals of both directions, and the
/// events not yet taken.
pub struct ValidatorSet {
    validators: ValidatorDirectory,
    add: ProposalTable,
    removal: ProposalTable,
    events: Vec<Event>,
}

impl View for ValidatorSet {
    type V = State;

    closed spec fn view(&self) -> State {
        State {
            validators: self.validators@,
            add: self.add@,
            removal: self.removal@,
            events: self.events@,
        }
    }
}

impl ValidatorSet {
    /// The directory names each validator once, and each table holds each
    /// proposal once, with at least one vote and no voter twice.
    pub closed spec fn wf(&self) -> bool {
        &&& self.validators.wf()
        &&& self.add.wf()
        &&& self.removal.wf()
    }

    /// A well-formed set holds a valid state.
    pub proof fn lemma_valid(&self)
        requires
            self.wf(),
        ensures
            self@.valid(),
    {
        self.validators.lemma_finite();
        self.add.lemma_votes_valid();
        self.removal.lemma_votes_valid();
    }

    /// The set at genesis: the listed validators, no proposal, no event.
    /// Where the list names an account twice, the later entry stands.
    pub fn new(validators: &Vec<(AccountId, SessionKey)>) -> (set: Self)
        ensures
            set.wf(),
            set@ == (State {
                validators: genesis_validators(validators@),
                add: Proposals::empty(),
                removal: Proposals::empty(),
                events: Seq::<Event>::empty(),
            }),
    {
        let mut directory = ValidatorDirectory::new();
        let mut i: usize = 0;
        assert(validators@.take(0) =~= Seq::<(AccountId, SessionKey)>::empty());
        while i < validators.len()
            invariant
                i <= validators.len(),
                directory.wf(),
                directory@ == genesis_validators(validators@.take(i as int)),
            decreases validators.len() - i,
        {
            let (account_id, session_key) = validators[i];
            directory.insert(account_id, session_key);
            proof {
                let next = validators@.take(i + 1);
                assert(next.drop_last() =~= validators@.take(i as int));
                assert(next.last() == validators@[i as int]);
            }
            i += 1;
        }
        assert(validators@.take(i as int) =~= validators@);
        ValidatorSet {
            validators: directory,
            add: ProposalTable::new(),
            removal: ProposalTable::new(),
            events: Vec::new(),
        }
    }

    /// The set that holds the given validators and open proposals, and no
    /// event, if they can be kept: no account is listed twice as a
    /// validator, no pair has two proposals in one direction, and every
    /// proposal has at least one vote and no voter twice.
    pub fn from_parts(
        validators: Vec<ValidatorEntry>,
        add: Vec<ProposalRecord>,
        removal: Vec<ProposalRecord>,
    ) -> (set: Option<Self>)
        ensures
            set is Some <==> distinct_accounts(validators@) && records_storable(add@)
                && records_storable(removal@),
            set matches Some(s) ==> s.wf() && s@ == (State {
                validators: entries_map(validators@),
                add: records_map(add@),
                removal: records_map(removal@),
                events: Seq::<Event>::empty(),
            }),
    {
        let directory = match ValidatorDirectory::from_entries(validators) {
            Some(directory) => directory,
            None => {
                return None;
            },
        };
        let add_table = match ProposalTable::from_records(add) {
            Some(table) => table,
            None => {
                return None;
            },
        };
        let removal_table = match ProposalTable::from_records(removal) {
            Some(table) => table,
            None => {
                return None;
            },
        };
        Some(
            ValidatorSet {
                validators: directory,
                add: add_table,
                removal: removal_table,
                events: Vec::new(),
            },
        )
    }

    /// Whether the candidate's membership allows a change in the direction.
    fn check_membership(&self, direction: Direction, candidate: AccountId) -> (result: Result<
        (),
        Error,
    >)
        requires
            self.wf(),
        ensures
            result == membership_result(self@, direction, candidate),
    {
        let member = self.validators.contains(candidate);
        match direction {
            Direction::Add => if member {
                Err(Error::AlreadyValidator)
            } else {
                Ok(())
            },
            Direction::Remove => if member {
                Ok(())
            } else {
                Err(Error::NotAValidator)
            },
        }
    }

    /// Casts the vote of `who` for a change of the candidate's membership,
    /// opening the proposal if this is its first vote.
    ///
    /// Only a current validator may propose; only an account that is no
    /// validator can be proposed for addition, and only a validator for
    /// removal; and nobody votes twice for the same candidate, key and
    /// direction. A refused proposal changes nothing.
    pub fn propose(
        &mut self,
        direction: Direction,
        who: AccountId,
        candidate: AccountId,
        key: SessionKey,
    ) -> (result: Result<(), Error>)
        requires
            old(self).wf(),
        ensures
            final(self).wf(),
            result == propose_result(old(self)@, direction, who, candidate, key),
            result is Ok ==> final(self)@ == proposed(old(self)@, direction, who, candidate, key),
            result is Err ==> final(self)@ == old(self)@,
    {
        if !self.validators.contains(who) {
            return Err(Error::AccessDenied);
        }
        if let Err(error) = self.check_membership(direction, candidate) {
            return Err(error);
        }
        let recorded = match direction {
            Direction::Add => self.add.record_vote(candidate, key, who),
            Direction::Remove => self.removal.record_vote(candidate, key, who),
        };
        if let Err(error) = recorded {
            return Err(error);
        }
        self.events.push(
            match direction {
                Direction::Add => Event::ValidatorProposed(who, candidate, key),
                Direction::Remove => Event::ValidatorRemovalProposed(who, candidate, key),
            },
        );
        Ok(())
    }

    /// Proposes that `account_id` becomes a validator with `session_key`.
    ///
    /// Refused with `AccessDenied` unless `who` is a validator, with
    /// `AlreadyValidator` if the candidate is one, and with `DuplicateVote`
    /// if `who` has proposed this pair before.
    pub fn propose_validator(
        &mut self,
        who: AccountId,
        account_id: AccountId,
        session_key: SessionKey,
    ) -> (result: Result<(), Error>)
        requires
            old(self).wf(),
        ensures
            final(self).wf(),
            result == propose_result(old(self)@, Direction::Add, who, account_id, session_key),
            result is Ok ==> final(self)@ == proposed(
                old(self)@,
                Direction::Add,
                who,
                account_id,
                session_key,
            ),
            result is Err ==> final(self)@ == old(self)@,
    {
        self.propose(Direction::Add, who, account_id, session_key)
    }

    /// Proposes that the validator `account_id` is removed.
    ///
    /// Refused with `AccessDenied` unless `who` is a validator, with
    /// `NotAValidator` unless the candidate is one, and with `DuplicateVote`
    /// if `who` has proposed this removal before.
    pub fn propose_validator_removal(
        &mut self,
        who: AccountId,
        account_id: AccountId,
        session_key: SessionKey,
    ) -> (result: Result<(), Error>)
        requires
            old(self).wf(),
        ensures
            final(self).wf(),
            result == propose_result(old(self)@, Direction::Remove, who, account_id, session_key),
            result is Ok ==> final(self)@ == proposed(
                old(self)@,
                Direction::Remove,
                who,
                account_id,
                session_key,
            ),
            result is Err ==> final(self)@ == old(self)@,
    {
        self.propose(Direction::Remove, who, account_id, session_key)
    }

    /// Makes `account_id` an authority: appends it to the roster, asks for a
    /// rotation, enters it into the directory, closes the proposal to add the
    /// pair, and reports the addition. Refused with `CountOverflow`, before
    /// anything has changed, where the roster's count cannot grow.
    fn add_new_authority(
        &mut self,
        registry: &mut AuthorityRegistry,
        account_id: AccountId,
        session_key: SessionKey,
    ) -> (result: Result<(), Error>)
        requires
            old(self).wf(),
            old(registry).wf(),
        ensures
            final(self).wf(),
            final(registry).wf(),
            result == capacity_result(Direction::Add, old(registry)@.roster.len()),
            result is Ok ==> final(self)@ == applied(
                old(self)@,
                Direction::Add,
                account_id,
                session_key,
            ) && registry_follows(old(registry)@, Direction::Add, account_id, final(registry)@),
            result is Err ==> final(self)@ == old(self)@ && final(registry)@ == old(registry)@,
    {
        let mut current_validators = registry.validators();
        current_validators.push(account_id);
        if let Err(error) = registry.set_validators(current_validators) {
            return Err(error);
        }
        registry.rotate_session(true, false);
        self.validators.insert(account_id, session_key);
        self.add.clear(account_id, session_key);
        self.events.push(Event::ValidatorAdded(account_id, session_key));
        Ok(())
    }

    /// Removes the authority `account_id`: takes it out of the roster, asks
    /// for a rotation, deletes it from the directory, closes the proposals
    /// for the pair in both directions, and reports the removal.
    fn remove_authority(
        &mut self,
        registry: &mut AuthorityRegistry,
        account_id: AccountId,
        session_key: SessionKey,
    )
        requires
            old(self).wf(),
            old(registry).wf(),
        ensures
            final(self).wf(),
            final(registry).wf(),
            final(self)@ == applied(old(self)@, Direction::Remove, account_id, session_key),
            registry_follows(old(registry)@, Direction::Remove, account_id, final(registry)@),
    {
        let listed = registry.validators();
        let current_validators = without_account(&listed, account_id);
        let replaced = registry.set_validators(current_validators);
        assert(replaced is Ok);
        registry.rotate_session(true, false);
        self.validators.remove(account_id);
        self.add.clear(account_id, session_key);
        self.removal.clear(account_id, session_key);
        self.events.push(Event::ValidatorRemoved(account_id, session_key));
    }

    /// Commits a change of membership that has passed its checks.
    fn apply(
        &mut self,
        registry: &mut AuthorityRegistry,
        direction: Direction,
        candidate: AccountId,
        key: SessionKey,
    ) -> (result: Result<(), Error>)
        requires
            old(self).wf(),
            old(registry).wf(),
        ensures
            final(self).wf(),
            final(registry).wf(),
            result == capacity_result(direction, old(registry)@.roster.len()),
            result is Ok ==> final(self)@ == applied(old(self)@, direction, candidate, key)
                && registry_follows(old(registry)@, direction, candidate, final(registry)@),
            result is Err ==> final(self)@ == old(self)@ && final(registry)@ == old(registry)@,
    {
        match direction {
            Direction::Add => self.add_new_authority(registry, candidate, key),
            Direction::Remove => {
                self.remove_authority(registry, candidate, key);
                Ok(())
            },
        }
    }

    /// Resolves the proposal for the candidate, the key and the direction:
    /// commits the change if the votes cast meet the threshold for the number
    /// of validators that the registry counts now.
    ///
    /// Anyone may resolve: the caller decides nothing. Refused, with nothing
    /// changed, if the candidate's membership does not allow the direction,
    /// if no such proposal is open, or with `InsufficientVotes` if the votes
    /// do not meet the threshold.
    pub fn resolve(
        &mut self,
        registry: &mut AuthorityRegistry,
        direction: Direction,
        _who: AccountId,
        candidate: AccountId,
        key: SessionKey,
    ) -> (result: Result<(), Error>)
        requires
            old(self).wf(),
            old(registry).wf(),
        ensures
            final(self).wf(),
            final(registry).wf(),
            result == resolve_result(
                old(self)@,
                direction,
                old(registry)@.roster.len(),
                candidate,
                key,
            ),
            result is Ok ==> final(self)@ == applied(old(self)@, direction, candidate, key)
                && registry_follows(old(registry)@, direction, candidate, final(registry)@),
            result is Err ==> final(self)@ == old(self)@ && final(registry)@ == old(registry)@,
    {
        if let Err(error) = self.check_membership(direction, candidate) {
            return Err(error);
        }
        let table = match direction {
            Direction::Add => &self.add,
            Direction::Remove => &self.removal,
        };
        if !table.is_open(candidate, key) {
            return Err(Error::ProposalNotFound);
        }
        let votes = table.vote_count(candidate, key);
        let current_count = registry.validator_count();
        let met = match direction {
            Direction::Add => votes == current_count as usize,
            Direction::Remove => current_count >= 1 && votes == (current_count - 1) as usize,
        };
        if !met {
            return Err(Error::InsufficientVotes);
        }
        self.apply(registry, direction, candidate, key)
    }

    /// Adds `account_id` as a validator, if every current validator has
    /// proposed it.
    ///
    /// Refused with `AlreadyValidator` if the candidate is a validator, with
    /// `ProposalNotFound` if nobody has proposed the pair, and with
    /// `InsufficientVotes` unless the proposal has exactly as many votes as
    /// the registry counts validators now.
    pub fn resolve_add_validator(
        &mut self,
        registry: &mut AuthorityRegistry,
        who: AccountId,
        account_id: AccountId,
        session_key: SessionKey,
    ) -> (result: Result<(), Error>)
        requires
            old(self).wf(),
            old(registry).wf(),
        ensures
            final(self).wf(),
            final(registry).wf(),
            result == resolve_result(
                old(self)@,
                Direction::Add,
                old(registry)@.roster.len(),
                account_id,
                session_key,
            ),
            result is Ok ==> final(self)@ == applied(
                old(self)@,
                Direction::Add,
                account_id,
                session_key,
            ) && registry_follows(old(registry)@, Direction::Add, account_id, final(registry)@),
            result is Err ==> final(self)@ == old(self)@ && final(registry)@ == old(registry)@,
    {
        self.resolve(registry, Direction::Add, who, account_id, session_key)
    }

    /// Removes the validator `account_id`, if every other validator has
    /// proposed its removal.
    ///
    /// Refused with `NotAValidator` unless the candidate is a validator, with
    /// `ProposalNotFound` if nobody has proposed the removal, and with
    /// `InsufficientVotes` unless the proposal has exactly one vote less than
    /// the registry counts validators now.
    pub fn resolve_remove_validator(
        &mut self,
        registry: &mut AuthorityRegistry,
        who: AccountId,
        account_id: AccountId,
        session_key: SessionKey,
    ) -> (result: Result<(), Error>)
        requires
            old(self).wf(),
            old(registry).wf(),
        ensures
            final(self).wf(),
            final(registry).wf(),
            result == resolve_result(
                old(self)@,
                Direction::Remove,
                old(registry)@.roster.len(),
                account_id,
                session_key,
            ),
            result is Ok ==> final(self)@ == applied(
                old(self)@,
                Direction::Remove,
                account_id,
                session_key,
            ) && registry_follows(old(registry)@, Direction::Remove, account_id, final(registry)@),
            result is Err ==> final(self)@ == old(self)@ && final(registry)@ == old(registry)@,
    {
        self.resolve(registry, Direction::Remove, who, account_id, session_key)
    }

    /// Adds `account_id` as a validator on administrative authority, whatever
    /// the votes. Refused with `AlreadyValidator` if it is a validator.
    pub fn add_validator(
        &mut self,
        registry: &mut AuthorityRegistry,
        account_id: AccountId,
        session_key: SessionKey,
    ) -> (result: Result<(), Error>)
        requires
            old(self).wf(),
            old(registry).wf(),
        ensures
            final(self).wf(),
            final(registry).wf(),
            result == privileged_result(
                old(self)@,
                Direction::Add,
                old(registry)@.roster.len(),
                account_id,
            ),
            result is Ok ==> final(self)@ == applied(
                old(self)@,
                Direction::Add,
                account_id,
                session_key,
            ) && registry_follows(old(registry)@, Direction::Add, account_id, final(registry)@),
            result is Err ==> final(self)@ == old(self)@ && final(registry)@ == old(registry)@,
    {
        if let Err(error) = self.check_membership(Direction::Add, account_id) {
            return Err(error);
        }
        self.add_new_authority(registry, account_id, session_key)
    }

    /// Removes the validator `account_id` on administrative authority,
    /// whatever the votes. Refused with `NotAValidator` unless it is a
    /// validator.
    pub fn remove_validator(
        &mut self,
        registry: &mut AuthorityRegistry,
        account_id: AccountId,
        session_key: SessionKey,
    ) -> (result: Result<(), Error>)
        requires
            old(self).wf(),
            old(registry).wf(),
        ensures
            final(self).wf(),
            final(registry).wf(),
            result == privileged_result(
                old(self)@,
                Direction::Remove,
                old(registry)@.roster.len(),
                account_id,
            ),
            result is Ok ==> final(self)@ == applied(
                old(self)@,
                Direction::Remove,
                account_id,
                session_key,
            ) && registry_follows(old(registry)@, Direction::Remove, account_id, final(registry)@),
            result is Err ==> final(self)@ == old(self)@ && final(registry)@ == old(registry)@,
    {
        if let Err(error) = self.check_membership(Direction::Remove, account_id) {
            return Err(error);
        }
        self.remove_authority(registry, account_id, session_key);
        Ok(())
    }

    /// The open proposals of one direction with their votes, in no
    /// particular order, as `from_parts` takes them.
    pub fn proposal_records(&self, direction: Direction) -> (list: Vec<ProposalRecord>)
        requires
            self.wf(),
        ensures
            records_storable(list@),
            records_map(list@) == self@.proposals(direction),
    {
        match direction {
            Direction::Add => self.add.to_records(),
            Direction::Remove => self.removal.to_records(),
        }
    }

    /// The session key of `account_id`, if it is a validator.
    pub fn validators(&self, account_id: AccountId) -> (key: Option<SessionKey>)
        requires
            self.wf(),
        ensures
            key == (if self@.validators.contains_key(account_id) {
                Some(self@.validators[account_id])
            } else {
                None
            }),
    {
        self.validators.get(account_id)
    }

    /// Whether `account_id` is a validator.
    pub fn is_validator(&self, account_id: AccountId) -> (member: bool)
        requires
            self.wf(),
        ensures
            member == self@.validators.contains_key(account_id),
    {
        self.validators.contains(account_id)
    }

    /// How many validators the directory holds.
    pub fn validator_count(&self) -> (count: usize)
        requires
            self.wf(),
        ensures
            count == self@.validators.len(),
    {
        self.validators.len()
    }

    /// The validators, each once, in no particular order, as `from_parts`
    /// takes them.
    pub fn validator_list(&self) -> (list: Vec<ValidatorEntry>)
        requires
            self.wf(),
        ensures
            distinct_accounts(list@),
            entries_map(list@) == self@.validators,
    {
        self.validators.to_vec()
    }

    /// Whether a proposal to add the pair is open.
    pub fn add_proposals(&self, account_id: AccountId, session_key: SessionKey) -> (open: bool)
        requires
            self.wf(),
        ensures
            open == self@.add.contains_key((account_id, session_key)),
    {
        self.add.is_open(account_id, session_key)
    }

    /// Whether a proposal to remove the pair is open.
    pub fn removal_proposals(&self, account_id: AccountId, session_key: SessionKey) -> (open: bool)
        requires
            self.wf(),
        ensures
            open == self@.removal.contains_key((account_id, session_key)),
    {
        self.removal.is_open(account_id, session_key)
    }

    /// Who has proposed to add the pair, in the order of the votes.
    pub fn add_votes(&self, account_id: AccountId, session_key: SessionKey) -> (votes: Vec<
        AccountId,
    >)
        requires
            self.wf(),
        ensures
            votes@ == votes_of(self@.add, (account_id, session_key)),
    {
        self.add.votes(account_id, session_key)
    }

    /// Who has proposed to remove the pair, in the order of the votes.
    pub fn removal_votes(&self, account_id: AccountId, session_key: SessionKey) -> (votes: Vec<
        AccountId,
    >)
        requires
            self.wf(),
        ensures
            votes@ == votes_of(self@.removal, (account_id, session_key)),
    {
        self.removal.votes(account_id, session_key)
    }

    /// A copy of the events emitted and not yet taken, oldest first.
    pub fn events(&self) -> (list: Vec<Event>)
        ensures
            list@ == self@.events,
    {
        let mut list: Vec<Event> = Vec::new();
        let mut i: usize = 0;
        while i < self.events.len()
            invariant
                i <= self.events.len(),
                list@ == self.events@.take(i as int),
            decreases self.events.len() - i,
        {
            list.push(self.events[i]);
            assert(self.events@.take(i + 1) =~= self.events@.take(i as int).push(
                self.events@[i as int],
            ));
            i += 1;
        }
        assert(self.events@.take(i as int) =~= self.events@);
        list
    }

    /// Hands out the events emitted since they were last taken, oldest
    /// first, and forgets them. Nothing else changes.
    pub fn take_events(&mut self) -> (list: Vec<Event>)
        requires
            old(self).wf(),
        ensures
            final(self).wf(),
            list@ == old(self)@.events,
            final(self)@ == (State { events: Seq::<Event>::empty(), ..old(self)@ }),
    {
        let mut list: Vec<Event> = Vec::new();
        std::mem::swap(&mut self.events, &mut list);
        list
    }
}

} // verus!
