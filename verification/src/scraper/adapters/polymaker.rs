//! Polymaker filament product pages.

use vstd::prelude::*;
use super::{concat_url, slug, slugify, strip_brand, strip_brand_seq, BrandAdapter};
use super::spoolscout::{fallback_url, fallback_url_seq};
use crate::text::{chars_of, replace_char, replace_chars, string_of};

verus! {

broadcast use vstd::string::group_string_axioms;

/// Adapter for Polymaker filaments.
pub struct Polymaker;

/// The candidate URLs for a Polymaker filament, best first.
pub open spec fn polymaker_urls(filament_name: Seq<char>) -> Seq<Seq<char>> {
    let product = strip_brand_seq(filament_name, "polymaker"@);
    seq![
        "https://us.polymaker.com/products/"@ + slug(filament_name),
        "https://us.polymaker.com/products/"@ + slug(product),
        fallback_url_seq("polymaker"@, filament_name),
    ]
}

/// The candidate URLs for a filament, in order: the store pages built from
/// the slug of the name (where the store has one) and of the name without
/// its leading brand, then the SpoolScout fallback.
pub proof fn law_polymaker_candidates(filament_name: Seq<char>)
    ensures
        polymaker_urls(filament_name).len() == 3,
        polymaker_urls(filament_name)[0] == "https://us.polymaker.com/products/"@ + slug(filament_name),
        polymaker_urls(filament_name)[1] == "https://us.polymaker.com/products/"@ + slug(strip_brand_seq(filament_name, "polymaker"@)),
        polymaker_urls(filament_name)[2] == fallback_url_seq("polymaker"@, filament_name),
{
}

impl BrandAdapter for Polymaker {
    fn brand_name(&self) -> (r: &'static str)
        ensures
            r@ == "polymaker"@,
    {
        "polymaker"
    }

    fn brand_aliases(&self) -> (r: Vec<&'static str>)
        ensures
            r@.len() == 0,
    {
        Vec::new()
    }

    fn resolve_urls(&self, filament_name: &str) -> (r: Vec<String>)
        ensures
            r@.map_values(|u: String| u@) == polymaker_urls(filament_name@),
            r@.len() == 3,
            r@[0]@ == "https://us.polymaker.com/products/"@ + slug(filament_name@),
            r@[1]@ == "https://us.polymaker.com/products/"@ + slug(strip_brand_seq(filament_name@, "polymaker"@)),
            r@[2]@ == fallback_url_seq("polymaker"@, filament_name@),
    {
        let product = strip_brand(filament_name, "polymaker");
        let slug_p = slugify(product.as_str());
        let full_slug = slugify(filament_name);
        let mut r: Vec<String> = Vec::new();
        r.push(concat_url("https://us.polymaker.com/products/", full_slug.as_str()));
        r.push(concat_url("https://us.polymaker.com/products/", slug_p.as_str()));
        r.push(fallback_url("polymaker", filament_name));
        proof {
            assert(r@.map_values(|u: String| u@) =~= polymaker_urls(filament_name@));
        }
        r
    }

    fn search_url(&self, query: &str) -> (r: Option<String>)
        ensures
            r matches Some(u) && u@ == "https://us.polymaker.com/search?q="@ + replace_char(query@, ' ', '+'),
    {
        let q = urlencoded(query);
        Some(concat_url("https://us.polymaker.com/search?q=", q.as_str()))
    }
}

/// A query with its spaces written as `+`.
pub fn urlencoded(s: &str) -> (r: String)
    ensures
        r@ == replace_char(s@, ' ', '+'),
{
    let v = chars_of(s);
    let w = replace_chars(&v, ' ', '+');
    string_of(&w)
}

} // verus!
