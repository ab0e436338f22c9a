//! Creality filament product pages.

use vstd::prelude::*;
use super::{concat_url, slug, slugify, strip_brand, strip_brand_seq, BrandAdapter};
use super::spoolscout::{fallback_url, fallback_url_seq};

verus! {

broadcast use vstd::string::group_string_axioms;

/// Adapter for Creality filaments.
pub struct Creality;

/// The candidate URLs for a Creality filament, best first.
pub open spec fn creality_urls(filament_name: Seq<char>) -> Seq<Seq<char>> {
    let product = strip_brand_seq(filament_name, "creality"@);
    seq![
        "https://store.creality.com/products/"@ + slug(filament_name),
        "https://store.creality.com/products/"@ + slug(product),
        fallback_url_seq("creality"@, filament_name),
    ]
}

/// The candidate URLs for a filament, in order: the store pages built from
/// the slug of the name (where the store has one) and of the name without
/// its leading brand, then the SpoolScout fallback.
pub proof fn law_creality_candidates(filament_name: Seq<char>)
    ensures
        creality_urls(filament_name).len() == 3,
        creality_urls(filament_name)[0] == "https://store.creality.com/products/"@ + slug(filament_name),
        creality_urls(filament_name)[1] == "https://store.creality.com/products/"@ + slug(strip_brand_seq(filament_name, "creality"@)),
        creality_urls(filament_name)[2] == fallback_url_seq("creality"@, filament_name),
{
}

impl BrandAdapter for Creality {
    fn brand_name(&self) -> (r: &'static str)
        ensures
            r@ == "creality"@,
    {
        "creality"
    }

    fn brand_aliases(&self) -> (r: Vec<&'static str>)
        ensures
            r@.len() == 0,
    {
        Vec::new()
    }

    fn resolve_urls(&self, filament_name: &str) -> (r: Vec<String>)
        ensures
            r@.map_values(|u: String| u@) == creality_urls(filament_name@),
            r@.len() == 3,
            r@[0]@ == "https://store.creality.com/products/"@ + slug(filament_name@),
            r@[1]@ == "https://store.creality.com/products/"@ + slug(strip_brand_seq(filament_name@, "creality"@)),
            r@[2]@ == fallback_url_seq("creality"@, filament_name@),
    {
        let product = strip_brand(filament_name, "creality");
        let slug_p = slugify(product.as_str());
        let full_slug = slugify(filament_name);
        let mut r: Vec<String> = Vec::new();
        r.push(concat_url("https://store.creality.com/products/", full_slug.as_str()));
        r.push(concat_url("https://store.creality.com/products/", slug_p.as_str()));
        r.push(fallback_url("creality", filament_name));
        proof {
            assert(r@.map_values(|u: String| u@) =~= creality_urls(filament_name@));
        }
        r
    }

    fn search_url(&self, query: &str) -> (r: Option<String>)
        ensures
            r is None,
    {
        None
    }
}

} // verus!
