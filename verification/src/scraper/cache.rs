//! Cache keys for scraped filament specifications.

use vstd::prelude::*;
use crate::text::{
    chars_of, join, join_with, lowercase, lowercase_of, split_whitespace, string_of, trim,
    trim_chars, words,
};

verus! {

/// The cache key of a search query: the trimmed query, lowercased, with each
/// run of whitespace inside it replaced by one space.
pub open spec fn normalized_query(q: Seq<char>) -> Seq<char> {
    join(words(lowercase_of(trim(q))), seq![' '])
}

/// Normalizes a search query into its cache key.
pub fn normalize_query(query: &str) -> (r: String)
    ensures
        r@ == normalized_query(query@),
{
    let v = chars_of(query);
    let t = trim_chars(&v);
    let l = lowercase(&t);
    let ws = split_whitespace(&l);
    let sep = vec![' '];
    proof {
        assert(sep@ == seq![' ']);
    }
    let j = join_with(&ws, &sep);
    string_of(&j)
}

} // verus!
