//! Version information and update checks.

use vstd::prelude::*;
use crate::text::{chars_of, split_on, split_on_char};

verus! {

broadcast use vstd::string::group_string_axioms;

/// The running application's version.
#[derive(Debug, Clone)]
pub struct VersionInfo {
    pub current_version: String,
}

/// Information about an available update.
#[derive(Debug, Clone)]
pub struct UpdateInfo {
    pub has_update: bool,
    pub latest_version: String,
    pub release_url: String,
    pub release_notes: Option<String>,
}

/// The numbers among the dot-separated parts (parts that are not numbers
/// are dropped), in order.
pub open spec fn numeric_parts(parts: Seq<Seq<char>>) -> Seq<u32>
    decreases parts.len(),
{
    if parts.len() == 0 {
        Seq::empty()
    } else {
        let rest = numeric_parts(parts.drop_last());
        match crate::fixed::parse_u32_spec(parts.last()) {
            Some(n) => rest.push(n),
            None => rest,
        }
    }
}

/// The part at `i`, 0 when there are fewer parts.
pub open spec fn part_or_zero(ns: Seq<u32>, i: int) -> u32 {
    if 0 <= i < ns.len() {
        ns[i]
    } else {
        0
    }
}

/// (major, minor, patch) of a version text.
pub open spec fn version_triple(v: Seq<char>) -> (u32, u32, u32) {
    let ns = numeric_parts(split_on(v, '.'));
    (part_or_zero(ns, 0), part_or_zero(ns, 1), part_or_zero(ns, 2))
}

/// Lexicographic order of version triples.
pub open spec fn triple_gt(a: (u32, u32, u32), b: (u32, u32, u32)) -> bool {
    a.0 > b.0 || (a.0 == b.0 && (a.1 > b.1 || (a.1 == b.1 && a.2 > b.2)))
}

fn version_parts(v: &str) -> (r: (u32, u32, u32))
    ensures
        r == version_triple(v@),
{
    let parts = split_on_char(&chars_of(v), '.');
    let ghost ps = parts@.map_values(|w: Vec<char>| w@);
    let mut nums: Vec<u32> = Vec::new();
    let mut i: usize = 0;
    while i < parts.len()
        invariant
            i <= parts@.len(),
            ps == parts@.map_values(|w: Vec<char>| w@),
            nums@ == numeric_parts(ps.take(i as int)),
        decreases parts.len() - i,
    {
        proof {
            assert(ps.take(i + 1).drop_last() =~= ps.take(i as int));
            assert(ps.take(i + 1).last() == parts@[i as int]@);
        }
        match crate::fixed::parse_u32(&parts[i]) {
            Some(n) => nums.push(n),
            None => {},
        }
        i = i + 1;
    }
    proof {
        assert(ps.take(parts@.len() as int) =~= ps);
    }
    let a = if nums.len() > 0 { nums[0] } else { 0 };
    let b = if nums.len() > 1 { nums[1] } else { 0 };
    let c = if nums.len() > 2 { nums[2] } else { 0 };
    (a, b, c)
}

/// Whether `candidate` is a strictly newer major.minor.patch version than
/// `current`. Missing or non-numeric parts count as 0.
pub fn is_newer(candidate: &str, current: &str) -> (b: bool)
    ensures
        b == triple_gt(version_triple(candidate@), version_triple(current@)),
{
    let x = version_parts(candidate);
    let y = version_parts(current);
    x.0 > y.0 || (x.0 == y.0 && (x.1 > y.1 || (x.1 == y.1 && x.2 > y.2)))
}

} // verus!
