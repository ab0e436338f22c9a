//! Hatchbox filament product pages.

use vstd::prelude::*;
use super::{concat_url, slug, slugify, strip_brand, strip_brand_seq, BrandAdapter};
use super::spoolscout::{fallback_url, fallback_url_seq};

verus! {

broadcast use vstd::string::group_string_axioms;

/// Adapter for Hatchbox filaments.
pub struct Hatchbox;

/// The candidate URLs for a Hatchbox filament, best first.
pub open spec fn hatchbox_urls(filament_name: Seq<char>) -> Seq<Seq<char>> {
    let product = strip_brand_seq(filament_name, "hatchbox"@);
    seq![
        "https://www.hatchbox3d.com/products/"@ + slug(filament_name),
        "https://www.hatchbox3d.com/products/"@ + slug(product),
        fallback_url_seq("hatchbox"@, filament_name),
    ]
}

/// The candidate URLs for a filament, in order: the store pages built from
/// the slug of the name (where the store has one) and of the name without
/// its leading brand, then the SpoolScout fallback.
pub proof fn law_hatchbox_candidates(filament_name: Seq<char>)
    ensures
        hatchbox_urls(filament_name).len() == 3,
        hatchbox_urls(filament_name)[0] == "https://www.hatchbox3d.com/products/"@ + slug(filament_name),
        hatchbox_urls(filament_name)[1] == "https://www.hatchbox3d.com/products/"@ + slug(strip_brand_seq(filament_name, "hatchbox"@)),
        hatchbox_urls(filament_name)[2] == fallback_url_seq("hatchbox"@, filament_name),
{
}

impl BrandAdapter for Hatchbox {
    fn brand_name(&self) -> (r: &'static str)
        ensures
            r@ == "hatchbox"@,
    {
        "hatchbox"
    }

    fn brand_aliases(&self) -> (r: Vec<&'static str>)
        ensures
            r@.len() == 0,
    {
        Vec::new()
    }

    fn resolve_urls(&self, filament_name: &str) -> (r: Vec<String>)
        ensures
            r@.map_values(|u: String| u@) == hatchbox_urls(filament_name@),
            r@.len() == 3,
            r@[0]@ == "https://www.hatchbox3d.com/products/"@ + slug(filament_name@),
            r@[1]@ == "https://www.hatchbox3d.com/products/"@ + slug(strip_brand_seq(filament_name@, "hatchbox"@)),
            r@[2]@ == fallback_url_seq("hatchbox"@, filament_name@),
    {
        let product = strip_brand(filament_name, "hatchbox");
        let slug_p = slugify(product.as_str());
        let full_slug = slugify(filament_name);
        let mut r: Vec<String> = Vec::new();
        r.push(concat_url("https://www.hatchbox3d.com/products/", full_slug.as_str()));
        r.push(concat_url("https://www.hatchbox3d.com/products/", slug_p.as_str()));
        r.push(fallback_url("hatchbox", filament_name));
        proof {
            assert(r@.map_values(|u: String| u@) =~= hatchbox_urls(filament_name@));
        }
        r
    }

    fn search_url(&self, query: &str) -> (r: Option<String>)
        ensures
            r is None,
    {
        None
    }
}

} // verus!
