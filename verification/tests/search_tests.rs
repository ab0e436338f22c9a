use bambumate::scraper::ai_search::{AiAction, AiEvent, AiSearchRun, AiStage};
use bambumate::scraper::http_client::html_to_text;
use bambumate::scraper::search::{SearchAction, SearchEvent, SearchStage, WebSearchRun};
use bambumate::scraper::types::FilamentSpecs;

fn page(body: &str) -> String {
    format!("<html><body><p>{}</p>{}</body></html>", body, " ".repeat(120))
}

#[test]
fn test_html_to_text_strips_tags() {
    let html = "<h1>Hello</h1><p>World</p>";
    let text = html_to_text(html);
    assert!(text.contains("Hello"), "Expected 'Hello' in output: {}", text);
    assert!(text.contains("World"), "Expected 'World' in output: {}", text);
    assert!(!text.contains("<h1>"), "Expected no HTML tags in output: {}", text);
    assert!(!text.contains("<p>"), "Expected no HTML tags in output: {}", text);
}

#[test]
fn test_html_to_text_complex_html() {
    let html = r#"
            <html>
            <head><title>Test</title></head>
            <body>
                <div class="nav">Navigation</div>
                <h1>Product Name</h1>
                <p>Nozzle Temperature: 190-220C</p>
                <table>
                    <tr><td>Bed Temp</td><td>50-60C</td></tr>
                </table>
            </body>
            </html>
        "#;
    let text = html_to_text(html);
    assert!(text.contains("Product Name"));
    assert!(text.contains("190-220"));
    assert!(text.contains("50-60"));
}

#[test]
fn web_search_empty_name_is_refused() {
    let (_, action) = WebSearchRun::start("   ");
    match action {
        SearchAction::Finish(Err(e)) => assert_eq!(e, "Filament name cannot be empty."),
        _ => panic!("expected a refusal"),
    }
}

#[test]
fn web_search_cache_hit_returns_cached_specs() {
    let (mut run, action) = WebSearchRun::start(" Polymaker PLA Pro ");
    match action {
        SearchAction::LookupCache(n) => assert_eq!(n, "Polymaker PLA Pro"),
        _ => panic!("expected a cache lookup"),
    }
    let cached = FilamentSpecs::named("cached".to_string());
    match run.step(SearchEvent::Cached(Some(cached))) {
        SearchAction::Finish(Ok(s)) => assert_eq!(s.name, "cached"),
        _ => panic!("expected the cached specs"),
    }
    assert_eq!(run.stage(), SearchStage::Done);
}

#[test]
fn web_search_reads_candidates_then_stores() {
    let (mut run, _) = WebSearchRun::start("Polymaker PLA Pro");
    let mut action = run.step(SearchEvent::Cached(None));
    let mut fetched = Vec::new();
    let mut stored = None;
    let mut searched = false;
    loop {
        action = match action {
            SearchAction::Fetch(url) => {
                fetched.push(url.clone());
                let body = if fetched.len() == 1 {
                    page("Nozzle Temperature: 200-230°C, Bed: 55-65°C")
                } else {
                    "short".to_string()
                };
                assert!(run.accepts(&SearchEvent::Page(None)));
                run.step(SearchEvent::Page(Some(body)))
            }
            SearchAction::WebSearch(_) => {
                searched = true;
                run.step(SearchEvent::SearchResults(None))
            }
            SearchAction::Store(name, specs) => {
                assert_eq!(name, "Polymaker PLA Pro");
                stored = Some(specs.extraction_confidence);
                run.step(SearchEvent::Stored)
            }
            SearchAction::Finish(r) => {
                let specs = r.expect("a result");
                assert_eq!(specs.nozzle_temp_min, Some(200));
                assert_eq!(specs.source_url, fetched[0]);
                break;
            }
            SearchAction::LookupCache(_) => panic!("unexpected lookup"),
        };
    }
    assert!(fetched[0].contains("polymaker"));
    // The extractor caps its confidence under the search threshold of 0.3? No: 0.28 < 0.3.
    assert!(searched);
    assert_eq!(stored, Some(280));
}

#[test]
fn web_search_without_results_fails() {
    let (mut run, _) = WebSearchRun::start("Unknown Stuff");
    let mut action = run.step(SearchEvent::Cached(None));
    loop {
        action = match action {
            SearchAction::Fetch(_) => run.step(SearchEvent::Page(None)),
            SearchAction::WebSearch(_) => run.step(SearchEvent::SearchResults(Some(vec![]))),
            SearchAction::Finish(r) => {
                let e = r.unwrap_err();
                assert!(e.starts_with("No specs found for 'Unknown Stuff' in web-only mode."));
                break;
            }
            _ => panic!("unexpected action"),
        };
    }
}

fn specs_with_confidence(c: i64) -> FilamentSpecs {
    let mut s = FilamentSpecs::named("AI".to_string());
    s.extraction_confidence = c;
    s
}

#[test]
fn ai_search_accepts_confident_knowledge() {
    let (mut run, _) = AiSearchRun::start("eSUN PLA+");
    match run.step(AiEvent::Cached(None)) {
        AiAction::AskKnowledge(n) => assert_eq!(n, "eSUN PLA+"),
        _ => panic!("expected a knowledge query"),
    }
    match run.step(AiEvent::Knowledge(Some(specs_with_confidence(850)))) {
        AiAction::Store(_, s) => assert_eq!(s.extraction_confidence, 850),
        _ => panic!("expected a store"),
    }
    match run.step(AiEvent::Stored) {
        AiAction::Finish(Ok(s)) => assert_eq!(s.extraction_confidence, 850),
        _ => panic!("expected the result"),
    }
    assert_eq!(run.stage(), AiStage::Done);
}

#[test]
fn ai_search_falls_back_to_page_text_and_keeps_better_result() {
    let (mut run, _) = AiSearchRun::start("eSUN PLA+");
    run.step(AiEvent::Cached(None));
    let mut action = run.step(AiEvent::Knowledge(Some(specs_with_confidence(300))));
    let mut first_url = String::new();
    let mut asked_text = false;
    loop {
        action = match action {
            AiAction::Fetch(url) => {
                if first_url.is_empty() {
                    first_url = url;
                    run.step(AiEvent::Page(Some(page("spec sheet"))))
                } else {
                    run.step(AiEvent::Page(None))
                }
            }
            AiAction::ExtractHtml(_) => run.step(AiEvent::Extracted(None)),
            AiAction::ExtractText(t) => {
                asked_text = true;
                assert!(t.contains("spec sheet"));
                run.step(AiEvent::Extracted(Some(specs_with_confidence(750))))
            }
            AiAction::WebSearch(_) => run.step(AiEvent::SearchResults(None)),
            AiAction::Store(_, _) => run.step(AiEvent::Stored),
            AiAction::Finish(r) => {
                let s = r.unwrap();
                assert_eq!(s.extraction_confidence, 750);
                assert_eq!(s.source_url, first_url);
                break;
            }
            _ => panic!("unexpected action"),
        };
    }
    assert!(asked_text);
}

#[test]
fn ai_search_without_any_result_fails() {
    let (mut run, _) = AiSearchRun::start("Nothing");
    run.step(AiEvent::Cached(None));
    let mut action = run.step(AiEvent::Knowledge(None));
    loop {
        action = match action {
            AiAction::Fetch(_) => run.step(AiEvent::Page(None)),
            AiAction::WebSearch(_) => run.step(AiEvent::SearchResults(None)),
            AiAction::Finish(r) => {
                assert!(r.unwrap_err().starts_with("No specs found for 'Nothing'. Try checking"));
                break;
            }
            _ => panic!("unexpected action"),
        };
    }
}
