use bambumate::scraper::adapters::spoolscout::{fallback_url, SpoolScout};
use bambumate::scraper::adapters::bambu::Bambu;
use bambumate::scraper::adapters::esun::Esun;
use bambumate::scraper::adapters::polymaker::Polymaker;
use bambumate::scraper::adapters::{find_adapter, slugify, strip_brand, BrandAdapter};

#[test]
fn test_fallback_url() {
    let url = fallback_url("polymaker", "Polymaker PLA Pro");
    assert_eq!(url, "https://www.spoolscout.com/data-sheets/polymaker/pla-pro");
}

#[test]
fn test_fallback_url_esun() {
    let url = fallback_url("esun", "eSUN PLA+");
    assert_eq!(url, "https://www.spoolscout.com/data-sheets/esun/pla");
}

#[test]
fn test_spoolscout_adapter_resolve_urls() {
    let adapter = SpoolScout;
    let urls = adapter.resolve_urls("Polymaker PLA Pro");
    assert_eq!(urls.len(), 1);
    assert!(urls[0].contains("spoolscout.com"));
}

#[test]
fn slugs_collapse_separators() {
    assert_eq!(slugify("Polymaker PLA Pro"), "polymaker-pla-pro");
    assert_eq!(slugify("  PLA+ (Silk) "), "pla-silk");
    assert_eq!(slugify(""), "");
}

#[test]
fn brand_is_stripped_only_as_a_leading_word() {
    assert_eq!(strip_brand("eSUN PLA+", "esun"), "PLA+");
    assert_eq!(strip_brand("esun3d PLA", "esun"), "esun3d PLA");
    assert_eq!(strip_brand("PLA by Polymaker", "polymaker"), "PLA by Polymaker");
}

#[test]
fn brand_adapters_list_their_urls() {
    let urls = Bambu.resolve_urls("Bambu Lab PLA Basic");
    assert_eq!(
        urls,
        vec![
            "https://us.store.bambulab.com/products/bambu-lab-pla-basic".to_string(),
            "https://us.store.bambulab.com/products/pla-basic".to_string(),
            "https://www.spoolscout.com/data-sheets/bambu/lab-pla-basic".to_string(),
        ]
    );
    let urls = Esun.resolve_urls("eSUN PLA+");
    assert_eq!(urls[0], "https://www.esun3d.com/pla-product/");
    assert_eq!(urls[1], "https://www.esun3d.com/epla-product/");
    assert_eq!(
        Polymaker.search_url("pla pro"),
        Some("https://us.polymaker.com/search?q=pla+pro".to_string())
    );
}

#[test]
fn adapters_are_found_by_leading_brand() {
    assert_eq!(find_adapter("  Bambu Lab PLA").map(|a| a.brand_name()), Some("bambu"));
    assert_eq!(find_adapter("esun3d PETG").map(|a| a.brand_name()), Some("esun"));
    assert_eq!(find_adapter("Prusa Galaxy Black").map(|a| a.brand_name()), Some("prusament"));
    assert!(find_adapter("Generic PLA").is_none());
}
