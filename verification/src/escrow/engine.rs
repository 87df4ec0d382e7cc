//! The escrow engine: the operations that create scholarships, take
//! deposits, release rewards and cancel, each against the ledger store.
//!
//! An operation that fails has written nothing.

use super::model::{
    balance, cancel, complete, counter, create, deposit, first_match, is_first_match,
    mark_completed, milestones, scholarship,
};
use super::types::{
    clone_milestones, milestone_views, DataKey, EscrowError, Milestone, Record, RecordView,
    Scholarship,
};
use crate::address::Address;
use crate::invocation::Invocation;
use crate::store::LedgerStore;
use vstd::prelude::*;

verus! {

/// The escrow: the ledger of all scholarships, their milestones and their
/// balances.
pub struct ScholarshipEscrow {
    store: LedgerStore<DataKey, Record>,
}

impl View for ScholarshipEscrow {
    type V = Map<DataKey, RecordView>;

    closed spec fn view(&self) -> Map<DataKey, RecordView> {
        self.store@
    }
}

/// The first place in `list` whose milestone is identified by `milestone_id`.
pub fn find_milestone(list: &Vec<Milestone>, milestone_id: u32) -> (found: Option<usize>)
    ensures
        match found {
            Some(at) => first_match(milestone_views(list@), milestone_id) == Some(at as int),
            None => first_match(milestone_views(list@), milestone_id) is None,
        },
{
    let ghost views = milestone_views(list@);
    let mut at: usize = 0;
    while at < list.len()
        invariant
            views == milestone_views(list@),
            at <= list@.len(),
            forall|before: int| 0 <= before < at ==> views[before].id != milestone_id,
        decreases list@.len() - at,
    {
        if list[at].id == milestone_id {
            assert(is_first_match(views, milestone_id, at as int));
            return Some(at);
        }
        at += 1;
    }
    None
}

impl ScholarshipEscrow {
    /// The escrow that holds no scholarship.
    pub fn new() -> (escrow: ScholarshipEscrow)
        ensures
            escrow@ == Map::<DataKey, RecordView>::empty(),
    {
        ScholarshipEscrow { store: LedgerStore::new() }
    }

    /// The escrow that goes on from the records of `store`.
    pub fn from_store(store: LedgerStore<DataKey, Record>) -> (escrow: ScholarshipEscrow)
        ensures
            escrow@ == store@,
    {
        ScholarshipEscrow { store }
    }

    /// The records that make up the state, for a host to persist.
    pub fn store(&self) -> (store: &LedgerStore<DataKey, Record>)
        ensures
            store@ == self@,
    {
        &self.store
    }

    pub(super) fn load_counter(&self) -> (count: u64)
        ensures
            count == counter(self@),
    {
        match self.store.get(&DataKey::ScholarshipCounter) {
            Some(Record::Counter(count)) => *count,
            _ => 0,
        }
    }

    pub(super) fn load_scholarship(&self, id: u64) -> (found: Option<&Scholarship>)
        ensures
            match found {
                Some(record) => scholarship(self@, id) == Some(record@),
                None => scholarship(self@, id) is None,
            },
    {
        match self.store.get(&DataKey::Scholarship(id)) {
            Some(Record::Scholarship(record)) => Some(record),
            _ => None,
        }
    }

    pub(super) fn load_milestones(&self, id: u64) -> (found: Option<&Vec<Milestone>>)
        ensures
            match found {
                Some(list) => milestones(self@, id) == Some(milestone_views(list@)),
                None => milestones(self@, id) is None,
            },
    {
        match self.store.get(&DataKey::Milestones(id)) {
            Some(Record::Milestones(list)) => Some(list),
            _ => None,
        }
    }

    pub(super) fn load_balance(&self, id: u64) -> (amount: i128)
        ensures
            amount == balance(self@, id),
    {
        match self.store.get(&DataKey::Balance(id)) {
            Some(Record::Balance(amount)) => *amount,
            _ => 0,
        }
    }

    /// Hands out the next identifier: one more than the counter, which
    /// moves on to it. No identifier is left once the counter is at its
    /// highest; the counter then stays where it is.
    fn next_id(&mut self) -> (next: Option<u64>)
        ensures
            match next {
                Some(id) => id == counter(old(self)@) + 1 && final(self)@ == old(self)@.insert(
                    DataKey::ScholarshipCounter,
                    RecordView::Counter(id),
                ),
                None => counter(old(self)@) == u64::MAX && final(self)@ == old(self)@,
            },
    {
        match self.load_counter().checked_add(1) {
            Some(id) => {
                self.store.set(DataKey::ScholarshipCounter, Record::Counter(id));
                Some(id)
            },
            None => None,
        }
    }

    /// Completes the milestone `milestone_id` of the scholarship
    /// `scholarship_id` and releases its reward.
    ///
    /// The proof is taken as it comes: nothing in it is looked at.
    #[allow(unused_variables)]
    pub fn complete_milestone(
        &mut self,
        scholarship_id: u64,
        milestone_id: u32,
        proof_data: String,
    ) -> (result: Result<i128, EscrowError>)
        ensures
            match result {
                Ok(reward) => complete(old(self)@, scholarship_id, milestone_id) == Ok::<
                    _,
                    EscrowError,
                >((final(self)@, reward)),
                Err(error) => {
                    &&& complete(old(self)@, scholarship_id, milestone_id) matches Err(expected)
                    &&& expected == error
                    &&& final(self)@ == old(self)@
                },
            },
    {
        let mut record = match self.load_scholarship(scholarship_id) {
            Some(record) => record.clone(),
            None => { return Err(EscrowError::NotFound); },
        };
        if !record.is_active {
            return Err(EscrowError::InvalidState);
        }
        let mut list = match self.load_milestones(scholarship_id) {
            Some(list) => clone_milestones(list),
            None => { return Err(EscrowError::NotFound); },
        };
        let at = match find_milestone(&list, milestone_id) {
            Some(at) => at,
            None => { return Err(EscrowError::NotFound); },
        };
        assert(is_first_match(milestone_views(list@), milestone_id, at as int));
        if list[at].is_completed {
            return Err(EscrowError::AlreadyCompleted);
        }
        let reward = list[at].reward_amount;
        let current = self.load_balance(scholarship_id);
        if current < reward {
            return Err(EscrowError::InsufficientFunds);
        }
        let released = match record.released_amount.checked_add(reward) {
            Some(released) => released,
            None => { return Err(EscrowError::Overflow); },
        };
        let remaining = match current.checked_sub(reward) {
            Some(remaining) => remaining,
            None => { return Err(EscrowError::Overflow); },
        };
        let ghost before = milestone_views(list@);
        let mut done = list[at].clone();
        done.is_completed = true;
        list.set(at, done);
        assert(milestone_views(list@) =~= mark_completed(before, at as int));
        record.released_amount = released;
        self.store.set(DataKey::Scholarship(scholarship_id), Record::Scholarship(record));
        self.store.set(DataKey::Milestones(scholarship_id), Record::Milestones(list));
        self.store.set(DataKey::Balance(scholarship_id), Record::Balance(remaining));
        Ok(reward)
    }

    /// Creates a scholarship of `donor` for `student` and hands out its
    /// identifier.
    pub fn create_scholarship(
        &mut self,
        call: &Invocation,
        donor: Address,
        student: Address,
        total_amount: i128,
        token_type: String,
        milestones: Vec<Milestone>,
    ) -> (result: Result<u64, EscrowError>)
        ensures
            match result {
                Ok(id) => create(
                    old(self)@,
                    call.caller@,
                    call.timestamp,
                    donor@,
                    student@,
                    total_amount,
                    token_type@,
                    milestone_views(milestones@),
                ) == Ok::<_, EscrowError>((final(self)@, id)),
                Err(error) => {
                    &&& create(
                        old(self)@,
                        call.caller@,
                        call.timestamp,
                        donor@,
                        student@,
                        total_amount,
                        token_type@,
                        milestone_views(milestones@),
                    ) matches Err(expected)
                    &&& expected == error
                    &&& final(self)@ == old(self)@
                },
            },
    {
        if !call.is_made_by(&donor) {
            return Err(EscrowError::Unauthorized);
        }
        let id = match self.next_id() {
            Some(id) => id,
            None => { return Err(EscrowError::Overflow); },
        };
        let record = Scholarship {
            id,
            donor,
            student,
            total_amount,
            released_amount: 0,
            token_type,
            is_active: true,
            created_at: call.timestamp,
        };
        self.store.set(DataKey::Scholarship(id), Record::Scholarship(record));
        self.store.set(DataKey::Milestones(id), Record::Milestones(milestones));
        self.store.set(DataKey::Balance(id), Record::Balance(0));
        assert(self@ =~= old(self)@.insert(
            DataKey::Scholarship(id),
            Record::Scholarship(record)@,
        ).insert(DataKey::Milestones(id), Record::Milestones(milestones)@).insert(
            DataKey::Balance(id),
            Record::Balance(0)@,
        ).insert(DataKey::ScholarshipCounter, Record::Counter(id)@));
        Ok(id)
    }

    /// Adds `amount` to the balance of the scholarship `scholarship_id`.
    pub fn deposit_funds(
        &mut self,
        call: &Invocation,
        donor: Address,
        scholarship_id: u64,
        amount: i128,
    ) -> (result: Result<(), EscrowError>)
        ensures
            match result {
                Ok(()) => deposit(old(self)@, call.caller@, donor@, scholarship_id, amount) == Ok::<
                    _,
                    EscrowError,
                >(final(self)@),
                Err(error) => {
                    &&& deposit(old(self)@, call.caller@, donor@, scholarship_id, amount) matches Err(
                        expected,
                    )
                    &&& expected == error
                    &&& final(self)@ == old(self)@
                },
            },
    {
        if !call.is_made_by(&donor) {
            return Err(EscrowError::Forbidden);
        }
        match self.load_scholarship(scholarship_id) {
            Some(record) => {
                if !record.donor.same_as(&donor) {
                    return Err(EscrowError::Forbidden);
                }
            },
            None => { return Err(EscrowError::NotFound); },
        }
        let raised = match self.load_balance(scholarship_id).checked_add(amount) {
            Some(raised) => raised,
            None => { return Err(EscrowError::Overflow); },
        };
        self.store.set(DataKey::Balance(scholarship_id), Record::Balance(raised));
        Ok(())
    }

    /// Ends the scholarship `scholarship_id`, which must not have released
    /// anything yet.
    pub fn cancel_scholarship(&mut self, call: &Invocation, donor: Address, scholarship_id: u64) -> (result:
        Result<(), EscrowError>)
        ensures
            match result {
                Ok(()) => cancel(old(self)@, call.caller@, donor@, scholarship_id) == Ok::<
                    _,
                    EscrowError,
                >(final(self)@),
                Err(error) => {
                    &&& cancel(old(self)@, call.caller@, donor@, scholarship_id) matches Err(
                        expected,
                    )
                    &&& expected == error
                    &&& final(self)@ == old(self)@
                },
            },
    {
        if !call.is_made_by(&donor) {
            return Err(EscrowError::Forbidden);
        }
        let mut record = match self.load_scholarship(scholarship_id) {
            Some(record) => record.clone(),
            None => { return Err(EscrowError::NotFound); },
        };
        if !record.donor.same_as(&donor) {
            return Err(EscrowError::Forbidden);
        }
        if record.released_amount > 0 {
            return Err(EscrowError::InvalidState);
        }
        record.is_active = false;
        self.store.set(DataKey::Scholarship(scholarship_id), Record::Scholarship(record));
        Ok(())
    }
}

} // verus!
