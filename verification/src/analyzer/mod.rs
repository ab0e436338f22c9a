//! Print-photo analysis support.

pub mod image_prep;
pub mod prompts;
pub mod vision;
