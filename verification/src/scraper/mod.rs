//! Filament specification scraping: data types, validation, brand adapters,
//! prompts and extraction helpers.

pub mod adapters;
pub mod prompts;
pub mod types;
pub mod validation;
pub mod cache;
pub mod catalog;
pub mod web_search;
pub mod html_extractor;
pub mod http_client;
pub mod search;
pub mod ai_search;
pub mod extraction;
pub mod robots;
