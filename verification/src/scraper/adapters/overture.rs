//! Overture filament product pages.

use vstd::prelude::*;
use super::{concat_url, slug, slugify, strip_brand, strip_brand_seq, BrandAdapter};
use super::spoolscout::{fallback_url, fallback_url_seq};

verus! {

broadcast use vstd::string::group_string_axioms;

/// Adapter for Overture filaments.
pub struct Overture;

/// The candidate URLs for a Overture filament, best first.
pub open spec fn overture_urls(filament_name: Seq<char>) -> Seq<Seq<char>> {
    let product = strip_brand_seq(strip_brand_seq(filament_name, "overture"@), "overture3d"@);
    seq![
        "https://overture3d.com/products/"@ + slug(filament_name),
        "https://overture3d.com/products/"@ + slug(product),
        fallback_url_seq("overture"@, filament_name),
    ]
}

/// The candidate URLs for a filament, in order: the store pages built from
/// the slug of the name (where the store has one) and of the name without
/// its leading brand, then the SpoolScout fallback.
pub proof fn law_overture_candidates(filament_name: Seq<char>)
    ensures
        overture_urls(filament_name).len() == 3,
        overture_urls(filament_name)[0] == "https://overture3d.com/products/"@ + slug(filament_name),
        overture_urls(filament_name)[1] == "https://overture3d.com/products/"@ + slug(strip_brand_seq(strip_brand_seq(filament_name, "overture"@), "overture3d"@)),
        overture_urls(filament_name)[2] == fallback_url_seq("overture"@, filament_name),
{
}

impl BrandAdapter for Overture {
    fn brand_name(&self) -> (r: &'static str)
        ensures
            r@ == "overture"@,
    {
        "overture"
    }

    fn brand_aliases(&self) -> (r: Vec<&'static str>)
        ensures
            r@.len() == 1,
            r@[0]@ == "overture3d"@,
    {
        vec!["overture3d"]
    }

    fn resolve_urls(&self, filament_name: &str) -> (r: Vec<String>)
        ensures
            r@.map_values(|u: String| u@) == overture_urls(filament_name@),
            r@.len() == 3,
            r@[0]@ == "https://overture3d.com/products/"@ + slug(filament_name@),
            r@[1]@ == "https://overture3d.com/products/"@ + slug(strip_brand_seq(strip_brand_seq(filament_name@, "overture"@), "overture3d"@)),
            r@[2]@ == fallback_url_seq("overture"@, filament_name@),
    {
        let product = strip_brand(filament_name, "overture");
        let product = strip_brand(product.as_str(), "overture3d");
        let slug_p = slugify(product.as_str());
        let full_slug = slugify(filament_name);
        let mut r: Vec<String> = Vec::new();
        r.push(concat_url("https://overture3d.com/products/", full_slug.as_str()));
        r.push(concat_url("https://overture3d.com/products/", slug_p.as_str()));
        r.push(fallback_url("overture", filament_name));
        proof {
            assert(r@.map_values(|u: String| u@) =~= overture_urls(filament_name@));
        }
        r
    }

    fn search_url(&self, query: &str) -> (r: Option<String>)
        ensures
            r is None,
    {
        None
    }
}

} // verus!
