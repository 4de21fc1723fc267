//! Diagnostics and their reports.

pub mod maneger;
pub mod report;
