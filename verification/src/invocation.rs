//! What a host tells an operation about the call that it serves.

use crate::address::Address;
use vstd::prelude::*;

verus! {

/// The circumstances of one call into a contract: the principal that has
/// authenticated itself for the call, and the reading of the ledger clock.
#[derive(Debug, PartialEq, Eq)]
pub struct Invocation {
    /// The principal that the host has authenticated as the caller.
    pub caller: Address,
    /// The ledger clock at the time of the call.
    pub timestamp: u64,
}

impl Invocation {
    /// The call that `caller` makes when the ledger clock reads `timestamp`.
    pub fn new(caller: Address, timestamp: u64) -> (call: Invocation)
        ensures
            call.caller == caller,
            call.timestamp == timestamp,
    {
        Invocation { caller, timestamp }
    }

    /// Whether this call is made by `principal`.
    pub fn is_made_by(&self, principal: &Address) -> (yes: bool)
        ensures
            yes == (self.caller@ == principal@),
    {
        self.caller.same_as(principal)
    }
}

} // verus!
