//! Identities of the parties that take part in a scholarship.

use vstd::prelude::*;

verus! {

/// The identity of a principal: a donor, a student, an administrator.
///
/// An address is an opaque textual key. Two addresses name the same
/// principal exactly when their keys hold the same characters.
#[derive(Debug, PartialEq, Eq)]
pub struct Address {
    key: String,
}

impl View for Address {
    type V = Seq<char>;

    closed spec fn view(&self) -> Seq<char> {
        self.key@
    }
}

impl Address {
    /// Makes the address with the given key.
    pub fn new(key: String) -> (address: Address)
        ensures
            address@ == key@,
    {
        Address { key }
    }

    /// Makes the address with the given key.
    pub fn from_str(key: &str) -> (address: Address)
        ensures
            address@ == key@,
    {
        Address { key: key.to_owned() }
    }

    /// Whether `self` and `other` name the same principal.
    pub fn same_as(&self, other: &Address) -> (same: bool)
        ensures
            same == (self@ == other@),
    {
        self.key == other.key
    }

    /// The key of this address.
    pub fn as_str(&self) -> (key: &str)
        ensures
            key@ == self@,
    {
        self.key.as_str()
    }
}

impl Clone for Address {
    fn clone(&self) -> (copy: Address)
        ensures
            copy@ == self@,
    {
        Address { key: self.key.clone() }
    }
}

} // verus!
