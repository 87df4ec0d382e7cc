//! The token itself: its operations, each against the ledger store.
//!
//! An operation that fails has written nothing.

use super::model::{
    admin, balance_of, credit, distribute, initialize, mint, text, total_supply, transfer,
};
use super::types::{DataKey, DataKeyView, Record, RecordView, TokenError, DECIMALS, FULL_PROGRESS};
use crate::address::Address;
use crate::invocation::Invocation;
use crate::store::LedgerStore;
use vstd::prelude::*;

verus! {

/// The token: who administers it, what it is called, and who owns how much.
pub struct ScholarshipToken {
    store: LedgerStore<DataKey, Record>,
}

impl View for ScholarshipToken {
    type V = Map<DataKeyView, RecordView>;

    closed spec fn view(&self) -> Map<DataKeyView, RecordView> {
        self.store@
    }
}

impl ScholarshipToken {
    /// The token that has not been initialized yet.
    pub fn new() -> (token: ScholarshipToken)
        ensures
            token@ == Map::<DataKeyView, RecordView>::empty(),
    {
        ScholarshipToken { store: LedgerStore::new() }
    }

    /// The token that goes on from the records of `store`.
    pub fn from_store(store: LedgerStore<DataKey, Record>) -> (token: ScholarshipToken)
        ensures
            token@ == store@,
    {
        ScholarshipToken { store }
    }

    /// The records that make up the state, for a host to persist.
    pub fn store(&self) -> (store: &LedgerStore<DataKey, Record>)
        ensures
            store@ == self@,
    {
        &self.store
    }

    fn load_admin(&self) -> (found: Option<&Address>)
        ensures
            match found {
                Some(address) => admin(self@) == Some(address@),
                None => admin(self@) is None,
            },
    {
        match self.store.get(&DataKey::Admin) {
            Some(Record::Address(address)) => Some(address),
            _ => None,
        }
    }

    fn load_text(&self, key: DataKey) -> (result: Result<String, TokenError>)
        ensures
            match result {
                Ok(found) => text(self@, key@) == Some(found@),
                Err(error) => error == TokenError::NotInitialized && text(self@, key@) is None,
            },
    {
        match self.store.get(&key) {
            Some(Record::Text(found)) => Ok(found.clone()),
            _ => Err(TokenError::NotInitialized),
        }
    }

    /// Adds `amount` to the balance of `holder` and to the supply.
    fn credit(&mut self, holder: Address, amount: i128) -> (result: Result<(), TokenError>)
        ensures
            match result {
                Ok(()) => credit(old(self)@, holder@, amount) == Ok::<_, TokenError>(final(self)@),
                Err(error) => {
                    &&& credit(old(self)@, holder@, amount) matches Err(expected)
                    &&& expected == error
                    &&& final(self)@ == old(self)@
                },
            },
    {
        let raised = match self.balance_of(holder.clone()).checked_add(amount) {
            Some(raised) => raised,
            None => { return Err(TokenError::Overflow); },
        };
        let supply = match self.total_supply().checked_add(amount) {
            Some(supply) => supply,
            None => { return Err(TokenError::Overflow); },
        };
        self.store.set(DataKey::Balance(holder), Record::Amount(raised));
        self.store.set(DataKey::TotalSupply, Record::Amount(supply));
        Ok(())
    }

    /// Initializes the token, with `admin` as its administrator.
    pub fn initialize(&mut self, admin: Address, name: String, symbol: String) -> (result: Result<
        (),
        TokenError,
    >)
        ensures
            match result {
                Ok(()) => initialize(old(self)@, admin@, name@, symbol@) == Ok::<_, TokenError>(
                    final(self)@,
                ),
                Err(error) => {
                    &&& initialize(old(self)@, admin@, name@, symbol@) matches Err(expected)
                    &&& expected == error
                    &&& final(self)@ == old(self)@
                },
            },
    {
        if self.store.has(&DataKey::Admin) {
            return Err(TokenError::AlreadyInitialized);
        }
        self.store.set(DataKey::Admin, Record::Address(admin));
        self.store.set(DataKey::Name, Record::Text(name));
        self.store.set(DataKey::Symbol, Record::Text(symbol));
        self.store.set(DataKey::Decimals, Record::Decimals(DECIMALS));
        self.store.set(DataKey::TotalSupply, Record::Amount(0));
        Ok(())
    }

    /// Mints `amount` to `to`.
    pub fn mint(&mut self, call: &Invocation, to: Address, amount: i128) -> (result: Result<
        (),
        TokenError,
    >)
        ensures
            match result {
                Ok(()) => mint(old(self)@, call.caller@, to@, amount) == Ok::<_, TokenError>(
                    final(self)@,
                ),
                Err(error) => {
                    &&& mint(old(self)@, call.caller@, to@, amount) matches Err(expected)
                    &&& expected == error
                    &&& final(self)@ == old(self)@
                },
            },
    {
        match self.load_admin() {
            Some(administrator) => {
                if !call.is_made_by(administrator) {
                    return Err(TokenError::Unauthorized);
                }
            },
            None => { return Err(TokenError::NotInitialized); },
        }
        if amount <= 0 {
            return Err(TokenError::InvalidAmount);
        }
        self.credit(to, amount)
    }

    /// Moves `amount` from `from` to `to`.
    pub fn transfer(&mut self, call: &Invocation, from: Address, to: Address, amount: i128) -> (result:
        Result<(), TokenError>)
        ensures
            match result {
                Ok(()) => transfer(old(self)@, call.caller@, from@, to@, amount) == Ok::<
                    _,
                    TokenError,
                >(final(self)@),
                Err(error) => {
                    &&& transfer(old(self)@, call.caller@, from@, to@, amount) matches Err(expected)
                    &&& expected == error
                    &&& final(self)@ == old(self)@
                },
            },
    {
        if !call.is_made_by(&from) {
            return Err(TokenError::Unauthorized);
        }
        if amount <= 0 {
            return Err(TokenError::InvalidAmount);
        }
        let owned = self.balance_of(from.clone());
        if owned < amount {
            return Err(TokenError::InsufficientBalance);
        }
        let left = owned - amount;
        let received = if from.same_as(&to) {
            left
        } else {
            self.balance_of(to.clone())
        };
        let raised = match received.checked_add(amount) {
            Some(raised) => raised,
            None => { return Err(TokenError::Overflow); },
        };
        self.store.set(DataKey::Balance(from), Record::Amount(left));
        self.store.set(DataKey::Balance(to), Record::Amount(raised));
        Ok(())
    }

    /// What `address` owns; 0 for an address that the token does not know.
    pub fn balance_of(&self, address: Address) -> (amount: i128)
        ensures
            amount == balance_of(self@, address@),
    {
        match self.store.get(&DataKey::Balance(address)) {
            Some(Record::Amount(amount)) => *amount,
            _ => 0,
        }
    }

    /// What has been minted in all.
    pub fn total_supply(&self) -> (amount: i128)
        ensures
            amount == total_supply(self@),
    {
        match self.store.get(&DataKey::TotalSupply) {
            Some(Record::Amount(amount)) => *amount,
            _ => 0,
        }
    }

    /// The name of the token.
    pub fn name(&self) -> (result: Result<String, TokenError>)
        ensures
            match result {
                Ok(name) => text(self@, DataKeyView::Name) == Some(name@),
                Err(error) => error == TokenError::NotInitialized && text(
                    self@,
                    DataKeyView::Name,
                ) is None,
            },
    {
        self.load_text(DataKey::Name)
    }

    /// The symbol of the token.
    pub fn symbol(&self) -> (result: Result<String, TokenError>)
        ensures
            match result {
                Ok(symbol) => text(self@, DataKeyView::Symbol) == Some(symbol@),
                Err(error) => error == TokenError::NotInitialized && text(
                    self@,
                    DataKeyView::Symbol,
                ) is None,
            },
    {
        self.load_text(DataKey::Symbol)
    }

    /// Mints to `student` one token for each percent of `progress`, and
    /// says how much that was.
    pub fn distribute_for_progress(&mut self, call: &Invocation, student: Address, progress: u32) -> (result:
        Result<i128, TokenError>)
        ensures
            match result {
                Ok(minted) => distribute(old(self)@, call.caller@, student@, progress) == Ok::<
                    _,
                    TokenError,
                >((final(self)@, minted)),
                Err(error) => {
                    &&& distribute(old(self)@, call.caller@, student@, progress) matches Err(
                        expected,
                    )
                    &&& expected == error
                    &&& final(self)@ == old(self)@
                },
            },
    {
        match self.load_admin() {
            Some(administrator) => {
                if !call.is_made_by(administrator) {
                    return Err(TokenError::Unauthorized);
                }
            },
            None => { return Err(TokenError::NotInitialized); },
        }
        if progress > FULL_PROGRESS {
            return Err(TokenError::InvalidProgress);
        }
        let amount = progress as i128;
        if amount > 0 {
            match self.credit(student, amount) {
                Ok(()) => {},
                Err(error) => { return Err(error); },
            }
        }
        Ok(amount)
    }
}

} // verus!
