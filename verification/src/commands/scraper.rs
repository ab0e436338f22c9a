//! Filament catalog commands.

use vstd::prelude::*;

verus! {

/// Status of the local filament catalog.
#[derive(Debug, Clone)]
pub struct CatalogStatus {
    pub entry_count: usize,
    pub needs_refresh: bool,
}

} // verus!
