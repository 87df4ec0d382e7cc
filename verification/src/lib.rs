//! Milestone-gated scholarship escrow, with the token ledger and the progress
//! accumulator that accompany it.
//!
//! Each of the three keeps its state in a ledger store of its own. What an
//! operation does is told in the `model` of its module, as a function on the
//! ledger seen as a mathematical map; the operation itself is proved to do
//! just that.

pub mod address;
pub mod escrow;
pub mod invocation;
pub mod progress;
pub mod store;
pub mod token;

pub use address::Address;
pub use invocation::Invocation;
pub use store::{LedgerStore, StoreKey};
