//! The scholarship token: a ledger of balances that an administrator mints
//! into and holders transfer between.

pub mod ledger;
pub mod model;
pub mod types;

pub use ledger::ScholarshipToken;
pub use types::{DataKey, Record, TokenError};
