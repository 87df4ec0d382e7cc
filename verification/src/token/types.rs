//! The records of the token ledger, the keys they are filed under, and the
//! ways an operation can fail.

use crate::address::Address;
use crate::store::StoreKey;
use vstd::prelude::*;

verus! {

/// The number of decimals that a freshly initialized token records.
pub const DECIMALS: u32 = 7;

/// The most progress that one distribution can reward.
pub const FULL_PROGRESS: u32 = 100;

/// The keys of the token ledger.
#[derive(Debug)]
pub enum DataKey {
    Admin,
    Name,
    Symbol,
    Decimals,
    TotalSupply,
    /// The balance of the given holder.
    Balance(Address),
}

/// What a key is, as a mathematical value.
pub enum DataKeyView {
    Admin,
    Name,
    Symbol,
    Decimals,
    TotalSupply,
    Balance(Seq<char>),
}

impl View for DataKey {
    type V = DataKeyView;

    open spec fn view(&self) -> DataKeyView {
        match *self {
            DataKey::Admin => DataKeyView::Admin,
            DataKey::Name => DataKeyView::Name,
            DataKey::Symbol => DataKeyView::Symbol,
            DataKey::Decimals => DataKeyView::Decimals,
            DataKey::TotalSupply => DataKeyView::TotalSupply,
            DataKey::Balance(holder) => DataKeyView::Balance(holder@),
        }
    }
}

impl StoreKey for DataKey {
    fn same_key(&self, other: &DataKey) -> (same: bool) {
        match (self, other) {
            (DataKey::Admin, DataKey::Admin) => true,
            (DataKey::Name, DataKey::Name) => true,
            (DataKey::Symbol, DataKey::Symbol) => true,
            (DataKey::Decimals, DataKey::Decimals) => true,
            (DataKey::TotalSupply, DataKey::TotalSupply) => true,
            (DataKey::Balance(holder), DataKey::Balance(counterpart)) => holder.same_as(counterpart),
            _ => false,
        }
    }
}

/// The records of the token ledger.
#[derive(Debug)]
pub enum Record {
    Address(Address),
    Text(String),
    Decimals(u32),
    Amount(i128),
}

/// What a record is, as a mathematical value.
pub enum RecordView {
    Address(Seq<char>),
    Text(Seq<char>),
    Decimals(u32),
    Amount(i128),
}

impl View for Record {
    type V = RecordView;

    open spec fn view(&self) -> RecordView {
        match *self {
            Record::Address(address) => RecordView::Address(address@),
            Record::Text(text) => RecordView::Text(text@),
            Record::Decimals(decimals) => RecordView::Decimals(decimals),
            Record::Amount(amount) => RecordView::Amount(amount),
        }
    }
}

/// Why an operation of the token did not take place.
#[derive(Debug, Clone, Copy, PartialEq, Eq, Structural)]
pub enum TokenError {
    /// The token has an administrator already.
    AlreadyInitialized,
    /// The token has not been initialized, so what was asked for is not
    /// recorded.
    NotInitialized,
    /// The caller is not the principal that the operation needs.
    Unauthorized,
    /// The amount is not positive.
    InvalidAmount,
    /// The holder has less than the amount.
    InsufficientBalance,
    /// The progress is more than 100.
    InvalidProgress,
    /// An amount would leave the range of its type.
    Overflow,
}

} // verus!
