//! Bambu filament product pages.

use vstd::prelude::*;
use super::{concat_url, slug, slugify, strip_brand, strip_brand_seq, BrandAdapter};
use super::spoolscout::{fallback_url, fallback_url_seq};

verus! {

broadcast use vstd::string::group_string_axioms;

/// Adapter for Bambu filaments.
pub struct Bambu;

/// The candidate URLs for a Bambu filament, best first.
pub open spec fn bambu_urls(filament_name: Seq<char>) -> Seq<Seq<char>> {
    let product = strip_brand_seq(strip_brand_seq(strip_brand_seq(filament_name, "bambu lab"@), "bambulab"@), "bambu"@);
    seq![
        "https://us.store.bambulab.com/products/"@ + slug(filament_name),
        "https://us.store.bambulab.com/products/"@ + slug(product),
        fallback_url_seq("bambu"@, filament_name),
    ]
}

/// The candidate URLs for a filament, in order: the store pages built from
/// the slug of the name (where the store has one) and of the name without
/// its leading brand, then the SpoolScout fallback.
pub proof fn law_bambu_candidates(filament_name: Seq<char>)
    ensures
        bambu_urls(filament_name).len() == 3,
        bambu_urls(filament_name)[0] == "https://us.store.bambulab.com/products/"@ + slug(filament_name),
        bambu_urls(filament_name)[1] == "https://us.store.bambulab.com/products/"@ + slug(strip_brand_seq(strip_brand_seq(strip_brand_seq(filament_name, "bambu lab"@), "bambulab"@), "bambu"@)),
        bambu_urls(filament_name)[2] == fallback_url_seq("bambu"@, filament_name),
{
}

impl BrandAdapter for Bambu {
    fn brand_name(&self) -> (r: &'static str)
        ensures
            r@ == "bambu"@,
    {
        "bambu"
    }

    fn brand_aliases(&self) -> (r: Vec<&'static str>)
        ensures
            r@.len() == 2,
            r@[0]@ == "bambulab"@,
            r@[1]@ == "bambu lab"@,
    {
        vec!["bambulab", "bambu lab"]
    }

    fn resolve_urls(&self, filament_name: &str) -> (r: Vec<String>)
        ensures
            r@.map_values(|u: String| u@) == bambu_urls(filament_name@),
            r@.len() == 3,
            r@[0]@ == "https://us.store.bambulab.com/products/"@ + slug(filament_name@),
            r@[1]@ == "https://us.store.bambulab.com/products/"@ + slug(strip_brand_seq(strip_brand_seq(strip_brand_seq(filament_name@, "bambu lab"@), "bambulab"@), "bambu"@)),
            r@[2]@ == fallback_url_seq("bambu"@, filament_name@),
    {
        let product = strip_brand(filament_name, "bambu lab");
        let product = strip_brand(product.as_str(), "bambulab");
        let product = strip_brand(product.as_str(), "bambu");
        let slug_p = slugify(product.as_str());
        let full_slug = slugify(filament_name);
        let mut r: Vec<String> = Vec::new();
        r.push(concat_url("https://us.store.bambulab.com/products/", full_slug.as_str()));
        r.push(concat_url("https://us.store.bambulab.com/products/", slug_p.as_str()));
        r.push(fallback_url("bambu", filament_name));
        proof {
            assert(r@.map_values(|u: String| u@) =~= bambu_urls(filament_name@));
        }
        r
    }

    fn search_url(&self, query: &str) -> (r: Option<String>)
        ensures
            r is None,
    {
        None
    }
}

} // verus!
