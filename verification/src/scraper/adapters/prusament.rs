//! Prusament filament product pages.

use vstd::prelude::*;
use super::{concat3, slug, slugify, strip_brand, strip_brand_seq, BrandAdapter};
use super::spoolscout::{fallback_url, fallback_url_seq};

verus! {

broadcast use vstd::string::group_string_axioms;

/// Adapter for Prusament filaments.
pub struct Prusament;

/// The candidate URLs for a Prusament filament, best first.
pub open spec fn prusament_urls(filament_name: Seq<char>) -> Seq<Seq<char>> {
    let product = strip_brand_seq(strip_brand_seq(filament_name, "prusament"@), "prusa"@);
    seq![
        "https://www.prusa3d.com/product/prusament-"@ + slug(product) + "/"@,
        fallback_url_seq("prusament"@, filament_name),
    ]
}

/// The candidate URLs for a filament, in order: the store pages built from
/// the slug of the name (where the store has one) and of the name without
/// its leading brand, then the SpoolScout fallback.
pub proof fn law_prusament_candidates(filament_name: Seq<char>)
    ensures
        prusament_urls(filament_name).len() == 2,
        prusament_urls(filament_name)[0] == "https://www.prusa3d.com/product/prusament-"@ + slug(strip_brand_seq(strip_brand_seq(filament_name, "prusament"@), "prusa"@)) + "/"@,
        prusament_urls(filament_name)[1] == fallback_url_seq("prusament"@, filament_name),
{
}

impl BrandAdapter for Prusament {
    fn brand_name(&self) -> (r: &'static str)
        ensures
            r@ == "prusament"@,
    {
        "prusament"
    }

    fn brand_aliases(&self) -> (r: Vec<&'static str>)
        ensures
            r@.len() == 1,
            r@[0]@ == "prusa"@,
    {
        vec!["prusa"]
    }

    fn resolve_urls(&self, filament_name: &str) -> (r: Vec<String>)
        ensures
            r@.map_values(|u: String| u@) == prusament_urls(filament_name@),
            r@.len() == 2,
            r@[0]@ == "https://www.prusa3d.com/product/prusament-"@ + slug(strip_brand_seq(strip_brand_seq(filament_name@, "prusament"@), "prusa"@)) + "/"@,
            r@[1]@ == fallback_url_seq("prusament"@, filament_name@),
    {
        let product = strip_brand(filament_name, "prusament");
        let product = strip_brand(product.as_str(), "prusa");
        let slug_p = slugify(product.as_str());
        let mut r: Vec<String> = Vec::new();
        r.push(concat3("https://www.prusa3d.com/product/prusament-", slug_p.as_str(), "/"));
        r.push(fallback_url("prusament", filament_name));
        proof {
            assert(r@.map_values(|u: String| u@) =~= prusament_urls(filament_name@));
        }
        r
    }

    fn search_url(&self, query: &str) -> (r: Option<String>)
        ensures
            r is None,
    {
        None
    }
}

} // verus!
