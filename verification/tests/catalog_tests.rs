use bambumate::scraper::catalog::{match_parts, query_words};
use bambumate::scraper::cache::normalize_query;
use bambumate::scraper::catalog::{
    parse_brand_filaments, parse_brand_list, parse_filament_slug_clean, titlecase_slug,
};
use bambumate::scraper::web_search::{
    extract_actual_url, extract_search_results, is_likely_filament_page,
};

#[test]
fn test_normalize_query() {
    assert_eq!(normalize_query("  Hello  World  "), "hello world");
    assert_eq!(normalize_query("UPPER"), "upper");
    assert_eq!(normalize_query("  spaces  "), "spaces");
    assert_eq!(normalize_query("Polymaker  PLA   Pro"), "polymaker pla pro");
}

#[test]
fn normalize_query_is_idempotent_on_examples() {
    for q in ["  Hello\tWorld ", "ÄBC  déf", "", "a"] {
        let once = normalize_query(q);
        assert_eq!(normalize_query(&once), once);
    }
}

#[test]
fn test_titlecase_slug() {
    assert_eq!(titlecase_slug("high-speed-pla"), "High Speed PLA");
    assert_eq!(titlecase_slug("pla-carbon-fiber"), "PLA Carbon Fiber");
    assert_eq!(titlecase_slug("petg"), "PETG");
}

#[test]
fn titlecase_keeps_empty_words() {
    assert_eq!(titlecase_slug("a--b"), "A  B");
    assert_eq!(titlecase_slug("pa-cf"), "PA CF");
}

#[test]
fn test_parse_filament_slug_clean() {
    let (mat, name) = parse_filament_slug_clean("pla-high-speed-pla");
    assert_eq!(mat, "PLA");
    assert_eq!(name, "High Speed PLA");

    let (mat, name) = parse_filament_slug_clean("petg-petg");
    assert_eq!(mat, "PETG");
    assert_eq!(name, "PETG");
}

#[test]
fn parse_single_word_slug() {
    let (mat, name) = parse_filament_slug_clean("silk");
    assert_eq!(mat, "SILK");
    assert_eq!(name, "Silk");
}

#[test]
fn test_is_likely_filament_page() {
    assert!(is_likely_filament_page("https://www.polymaker.com/products/polylite-pla"));
    assert!(is_likely_filament_page("https://spoolscout.com/data-sheets/sunlu"));
    assert!(!is_likely_filament_page("https://www.google.com/search?q=pla"));
    assert!(!is_likely_filament_page("https://www.amazon.com/gp/cart"));
}

#[test]
fn likely_page_is_case_insensitive() {
    assert!(is_likely_filament_page("https://EXAMPLE.com/PRODUCT/x"));
    assert!(!is_likely_filament_page("https://example.com/about"));
}

#[test]
fn test_extract_actual_url() {
    let ddg_url = "//duckduckgo.com/l/?uddg=https%3A%2F%2Fwww.example.com%2Fpage&rut=abc";
    assert_eq!(extract_actual_url(ddg_url), Some("https://www.example.com/page".to_string()));

    let direct_url = "https://www.example.com/page";
    assert_eq!(extract_actual_url(direct_url), Some("https://www.example.com/page".to_string()));
}

#[test]
fn actual_url_rejects_relative_links() {
    assert_eq!(extract_actual_url("/local/page"), None);
    assert_eq!(extract_actual_url("uddg=plain"), Some("plain".to_string()));
}

#[test]
fn search_results_filter_and_limit() {
    let mut html = String::from("<html><body>");
    html.push_str(r#"<a class="result__a" href="https://www.google.com/x">g</a>"#);
    for i in 0..7 {
        html.push_str(&format!(
            r#"<a class="result__a" href="//duckduckgo.com/l/?uddg=https%3A%2F%2Fpolymaker.com%2Fp{}&rut=1">r</a>"#,
            i
        ));
    }
    html.push_str("</body></html>");
    let urls = extract_search_results(&html);
    assert_eq!(urls.len(), 5);
    assert_eq!(urls[0], "https://polymaker.com/p0");
    assert_eq!(urls[4], "https://polymaker.com/p4");
}

#[test]
fn search_results_fall_back_to_plain_links() {
    let html = r#"<a href="https://filament.example/specs">x</a><a href="https://bing.com">y</a>"#;
    let urls = extract_search_results(html);
    assert_eq!(urls, vec!["https://filament.example/specs".to_string()]);
}

#[test]
fn brand_list_from_index() {
    let html = r#"<a href="/data-sheets/sunlu">Sunlu 12 filaments</a>
        <a href="/data-sheets/sunlu">again</a>
        <a href="/data-sheets/sunlu/pla-pla">filament</a>
        <a href="/data-sheets/bambu-lab">Bambu</a>"#;
    let brands = parse_brand_list(html).unwrap();
    assert_eq!(
        brands,
        vec![
            ("Sunlu".to_string(), "sunlu".to_string()),
            ("Bambu Lab".to_string(), "bambu-lab".to_string()),
        ]
    );
}

#[test]
fn brand_filaments_from_brand_page() {
    let html = r#"<a href="/data-sheets/sunlu/pla-high-speed-pla">a</a>
        <a href="/data-sheets/sunlu/pla-high-speed-pla">dup</a>
        <a href="/data-sheets/sunlu/">empty</a>
        <a href="/data-sheets/other/petg-petg">other brand</a>
        <a href="/data-sheets/sunlu/petg-petg">b</a>"#;
    let entries = parse_brand_filaments(html, "Sunlu", "sunlu").unwrap();
    assert_eq!(entries.len(), 2);
    assert_eq!(entries[0].brand, "Sunlu");
    assert_eq!(entries[0].material, "PLA");
    assert_eq!(entries[0].name, "High Speed PLA");
    assert_eq!(entries[0].url_slug, "pla-high-speed-pla");
    assert_eq!(
        entries[0].full_url,
        "https://www.spoolscout.com/data-sheets/sunlu/pla-high-speed-pla"
    );
    assert_eq!(entries[1].material, "PETG");
}

#[test]
fn brand_filaments_invalid_selector() {
    let r = parse_brand_filaments("<a></a>", "x", "it's");
    assert_eq!(r.unwrap_err(), "Invalid selector");
}

fn strs(v: &[&str]) -> Vec<String> {
    v.iter().map(|s| s.to_string()).collect()
}

#[test]
fn query_words_are_trimmed_lowercase_words() {
    assert_eq!(query_words("  Sunlu  PLA+ "), strs(&["sunlu", "pla+"]));
    assert!(query_words("   ").is_empty());
}

#[test]
fn match_parts_tiers_and_bonuses() {
    let q = strs(&["sunlu", "pla"]);
    let exact = match_parts(&q, "sunlu pla");
    assert_eq!(exact.tiers, vec![10, 10]);
    assert!(exact.first_word_bonus);
    assert!(exact.prefix_bonus);
    let partial = match_parts(&q, "sunlu petg");
    assert_eq!(partial.tiers, vec![10, 0]);
    assert!(partial.first_word_bonus);
    assert!(!partial.prefix_bonus);
    let none = match_parts(&q, "polymaker abs");
    assert_eq!(none.tiers, vec![0, 0]);
    assert!(!none.first_word_bonus);
    let spaced = match_parts(&strs(&["sunlu"]), "sun lu silk-pla");
    assert_eq!(spaced.tiers, vec![4]);
    let tiers = match_parts(&strs(&["sil", "ilk"]), "silk pla");
    assert_eq!(tiers.tiers, vec![8, 5]);
}
