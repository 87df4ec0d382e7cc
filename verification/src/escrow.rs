//! The scholarship escrow: donors deposit funds for a student, and the funds
//! are released milestone by milestone.

pub mod engine;
pub mod laws;
pub mod model;
pub mod queries;
pub mod types;

pub use engine::ScholarshipEscrow;
pub use types::{DataKey, EscrowError, Milestone, Record, Scholarship};
