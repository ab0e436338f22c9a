//! Esun filament product pages.

use vstd::prelude::*;
use super::{concat3, slug, slugify, strip_brand, strip_brand_seq, BrandAdapter};
use super::spoolscout::{fallback_url, fallback_url_seq};

verus! {

broadcast use vstd::string::group_string_axioms;

/// Adapter for Esun filaments.
pub struct Esun;

/// The candidate URLs for a Esun filament, best first.
pub open spec fn esun_urls(filament_name: Seq<char>) -> Seq<Seq<char>> {
    let product = strip_brand_seq(strip_brand_seq(filament_name, "esun"@), "esun3d"@);
    seq![
        "https://www.esun3d.com/"@ + slug(product) + "-product/"@,
        "https://www.esun3d.com/e"@ + slug(product) + "-product/"@,
        fallback_url_seq("esun"@, filament_name),
    ]
}

/// The candidate URLs for a filament, in order: the store pages built from
/// the slug of the name (where the store has one) and of the name without
/// its leading brand, then the SpoolScout fallback.
pub proof fn law_esun_candidates(filament_name: Seq<char>)
    ensures
        esun_urls(filament_name).len() == 3,
        esun_urls(filament_name)[0] == "https://www.esun3d.com/"@ + slug(strip_brand_seq(strip_brand_seq(filament_name, "esun"@), "esun3d"@)) + "-product/"@,
        esun_urls(filament_name)[1] == "https://www.esun3d.com/e"@ + slug(strip_brand_seq(strip_brand_seq(filament_name, "esun"@), "esun3d"@)) + "-product/"@,
        esun_urls(filament_name)[2] == fallback_url_seq("esun"@, filament_name),
{
}

impl BrandAdapter for Esun {
    fn brand_name(&self) -> (r: &'static str)
        ensures
            r@ == "esun"@,
    {
        "esun"
    }

    fn brand_aliases(&self) -> (r: Vec<&'static str>)
        ensures
            r@.len() == 1,
            r@[0]@ == "esun3d"@,
    {
        vec!["esun3d"]
    }

    fn resolve_urls(&self, filament_name: &str) -> (r: Vec<String>)
        ensures
            r@.map_values(|u: String| u@) == esun_urls(filament_name@),
            r@.len() == 3,
            r@[0]@ == "https://www.esun3d.com/"@ + slug(strip_brand_seq(strip_brand_seq(filament_name@, "esun"@), "esun3d"@)) + "-product/"@,
            r@[1]@ == "https://www.esun3d.com/e"@ + slug(strip_brand_seq(strip_brand_seq(filament_name@, "esun"@), "esun3d"@)) + "-product/"@,
            r@[2]@ == fallback_url_seq("esun"@, filament_name@),
    {
        let product = strip_brand(filament_name, "esun");
        let product = strip_brand(product.as_str(), "esun3d");
        let slug_p = slugify(product.as_str());
        let mut r: Vec<String> = Vec::new();
        r.push(concat3("https://www.esun3d.com/", slug_p.as_str(), "-product/"));
        r.push(concat3("https://www.esun3d.com/e", slug_p.as_str(), "-product/"));
        r.push(fallback_url("esun", filament_name));
        proof {
            assert(r@.map_values(|u: String| u@) =~= esun_urls(filament_name@));
        }
        r
    }

    fn search_url(&self, query: &str) -> (r: Option<String>)
        ensures
            r is None,
    {
        None
    }
}

} // verus!
