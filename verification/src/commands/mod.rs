//! Data carried by the application's commands, and the decisions they make
//! on plain values.

pub mod analyzer;
pub mod config;
pub mod health;
pub mod launcher;
pub mod models;
pub mod profile;
pub mod scraper;
pub mod updater;
