//! Bambu Studio filament profiles: model, registry and generation.

pub mod generator;
pub mod registry;
pub mod types;
pub mod writer;
pub mod paths;
pub mod info;
pub mod inheritance;
pub mod reader;
