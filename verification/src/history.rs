//! Records of applied refinement changes.

use vstd::prelude::*;

verus! {

/// One parameter change applied to a profile. Values are in thousandths
/// of the parameter's unit.
#[derive(Debug, Clone)]
pub struct AppliedChange {
    pub parameter: String,
    pub old_value: i64,
    pub new_value: i64,
}

} // verus!
