//! Mapping of print defects to profile parameter adjustments.

pub mod types;
pub mod engine;
