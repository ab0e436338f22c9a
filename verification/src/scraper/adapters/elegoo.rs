//! Elegoo filament product pages.

use vstd::prelude::*;
use super::{concat_url, slug, slugify, strip_brand, strip_brand_seq, BrandAdapter};
use super::spoolscout::{fallback_url, fallback_url_seq};

verus! {

broadcast use vstd::string::group_string_axioms;

/// Adapter for Elegoo filaments.
pub struct Elegoo;

/// The candidate URLs for a Elegoo filament, best first.
pub open spec fn elegoo_urls(filament_name: Seq<char>) -> Seq<Seq<char>> {
    let product = strip_brand_seq(filament_name, "elegoo"@);
    seq![
        "https://us.elegoo.com/products/"@ + slug(filament_name),
        "https://us.elegoo.com/products/"@ + slug(product),
        fallback_url_seq("elegoo"@, filament_name),
    ]
}

/// The candidate URLs for a filament, in order: the store pages built from
/// the slug of the name (where the store has one) and of the name without
/// its leading brand, then the SpoolScout fallback.
pub proof fn law_elegoo_candidates(filament_name: Seq<char>)
    ensures
        elegoo_urls(filament_name).len() == 3,
        elegoo_urls(filament_name)[0] == "https://us.elegoo.com/products/"@ + slug(filament_name),
        elegoo_urls(filament_name)[1] == "https://us.elegoo.com/products/"@ + slug(strip_brand_seq(filament_name, "elegoo"@)),
        elegoo_urls(filament_name)[2] == fallback_url_seq("elegoo"@, filament_name),
{
}

impl BrandAdapter for Elegoo {
    fn brand_name(&self) -> (r: &'static str)
        ensures
            r@ == "elegoo"@,
    {
        "elegoo"
    }

    fn brand_aliases(&self) -> (r: Vec<&'static str>)
        ensures
            r@.len() == 0,
    {
        Vec::new()
    }

    /// ELEGOO product pages load their specs with JavaScript, so the SpoolScout
    /// data sheet is the last and often the useful candidate.
    fn resolve_urls(&self, filament_name: &str) -> (r: Vec<String>)
        ensures
            r@.map_values(|u: String| u@) == elegoo_urls(filament_name@),
            r@.len() == 3,
            r@[0]@ == "https://us.elegoo.com/products/"@ + slug(filament_name@),
            r@[1]@ == "https://us.elegoo.com/products/"@ + slug(strip_brand_seq(filament_name@, "elegoo"@)),
            r@[2]@ == fallback_url_seq("elegoo"@, filament_name@),
    {
        let product = strip_brand(filament_name, "elegoo");
        let slug_p = slugify(product.as_str());
        let full_slug = slugify(filament_name);
        let mut r: Vec<String> = Vec::new();
        r.push(concat_url("https://us.elegoo.com/products/", full_slug.as_str()));
        r.push(concat_url("https://us.elegoo.com/products/", slug_p.as_str()));
        r.push(fallback_url("elegoo", filament_name));
        proof {
            assert(r@.map_values(|u: String| u@) =~= elegoo_urls(filament_name@));
        }
        r
    }

    fn search_url(&self, query: &str) -> (r: Option<String>)
        ensures
            r is None,
    {
        None
    }
}

} // verus!
