//! Filament profile tooling for Bambu Studio: specification validation,
//! brand URL resolution, prompt construction, HTML spec extraction and
//! profile manipulation.

pub mod text;
pub mod fixed;
pub mod scraper;
pub mod profile;
pub mod history;
pub mod commands;
pub mod analyzer;
pub mod mapper;
