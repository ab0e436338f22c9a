//! SpoolScout data sheets: the fallback source for every brand.

use vstd::prelude::*;
use super::{concat_url, slug, slugify, strip_brand, strip_brand_seq, BrandAdapter};
use crate::text::{push_str, string_of};

verus! {

broadcast use vstd::string::group_string_axioms;

/// Adapter for the SpoolScout data-sheet site.
pub struct SpoolScout;

/// The SpoolScout data-sheet URL of a filament of a given brand.
pub open spec fn fallback_url_seq(brand: Seq<char>, filament_name: Seq<char>) -> Seq<char> {
    "https://www.spoolscout.com/data-sheets/"@ + slug(brand) + "/"@ + slug(
        strip_brand_seq(filament_name, brand),
    )
}

impl BrandAdapter for SpoolScout {
    fn brand_name(&self) -> (r: &'static str)
        ensures
            r@ == "spoolscout"@,
    {
        "spoolscout"
    }

    fn brand_aliases(&self) -> (r: Vec<&'static str>)
        ensures
            r@.len() == 0,
    {
        Vec::new()
    }

    /// The data sheet addressed by the slug of the full filament name.
    fn resolve_urls(&self, filament_name: &str) -> (r: Vec<String>)
        ensures
            r@.map_values(|u: String| u@) == seq![
                "https://www.spoolscout.com/data-sheets/"@ + slug(filament_name@),
            ],
    {
        let s = slugify(filament_name);
        let mut r: Vec<String> = Vec::new();
        r.push(concat_url("https://www.spoolscout.com/data-sheets/", s.as_str()));
        proof {
            assert(r@.map_values(|u: String| u@) =~= seq![
                "https://www.spoolscout.com/data-sheets/"@ + slug(filament_name@),
            ]);
        }
        r
    }

    fn search_url(&self, query: &str) -> (r: Option<String>)
        ensures
            r is None,
    {
        None
    }
}

/// The SpoolScout fallback URL for a given brand and filament name:
/// the brand's slug, then the slug of the name without its brand.
pub fn fallback_url(brand: &str, filament_name: &str) -> (r: String)
    ensures
        r@ == fallback_url_seq(brand@, filament_name@),
{
    let product = strip_brand(filament_name, brand);
    let product_slug = slugify(product.as_str());
    let brand_slug = slugify(brand);
    let mut v: Vec<char> = Vec::new();
    push_str(&mut v, "https://www.spoolscout.com/data-sheets/");
    push_str(&mut v, brand_slug.as_str());
    push_str(&mut v, "/");
    push_str(&mut v, product_slug.as_str());
    string_of(&v)
}

} // verus!
