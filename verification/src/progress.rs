//! The progress accumulator: what students report of their progress, summed
//! for all of them and for each.

pub mod model;
pub mod tracker;
pub mod types;

pub use tracker::ScholarshipMilestone;
pub use types::{DataKey, ProgressError, Record, StudentInfo};
