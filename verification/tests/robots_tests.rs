use std::time::Duration;

use bambumate::scraper::http_client::url_domain;
use bambumate::scraper::robots::{RobotsCache, RobotsStep, ROBOTS_TTL_MS};
use bambumate::scraper::web_search::search_page_url;
use texting_robots::Robot;

fn allowed(txt: &[u8], url: &str) -> bool {
    RobotsCache::check_against_robot(&txt.to_vec(), url).unwrap()
}

#[test]
fn test_robots_txt_disallow() {
    let robots_txt = b"User-agent: *\nDisallow: /private/\nDisallow: /admin/";
    assert!(!allowed(robots_txt, "https://example.com/private/page"));
    assert!(!allowed(robots_txt, "https://example.com/admin/dashboard"));
    assert!(allowed(robots_txt, "https://example.com/public/page"));
    assert!(allowed(robots_txt, "https://example.com/products/pla"));
}

#[test]
fn test_robots_txt_crawl_delay() {
    let robots_txt = b"User-agent: *\nCrawl-delay: 5\nDisallow: /blocked/";
    let robot = Robot::new("BambuMate/1.0", robots_txt).unwrap();
    assert_eq!(robot.delay, Some(5.0));
    let delay = robot.delay.map(|d| Duration::from_secs_f32(d));
    assert_eq!(delay, Some(Duration::from_secs(5)));
    let default_interval = Duration::from_secs_f64(1.0);
    assert!(delay.unwrap() > default_interval);
}

#[test]
fn test_robots_txt_wildcard_disallow() {
    let robots_txt = b"User-agent: *\nDisallow: /special/\nDisallow: /admin/";
    assert!(!allowed(robots_txt, "https://example.com/special/page"));
    assert!(!allowed(robots_txt, "https://example.com/admin/dashboard"));
    assert!(allowed(robots_txt, "https://example.com/public/page"));
}

#[test]
fn test_robots_txt_empty_allows_all() {
    assert!(allowed(b"", "https://example.com/anything"));
}

fn fetch_of(step: RobotsStep) -> (String, String) {
    match step {
        RobotsStep::Fetch { robots_url, domain } => (robots_url, domain),
        RobotsStep::Decided(a, d) => panic!("expected a fetch, got a decision {} {:?}", a, d),
    }
}

#[test]
fn robots_file_is_fetched_then_kept_for_an_hour() {
    let mut cache = RobotsCache::new();
    let (robots_url, domain) = fetch_of(cache.begin("https://example.com/private/a", 0).unwrap());
    assert_eq!(robots_url, "https://example.com/robots.txt");
    assert_eq!(domain, "example.com");
    let txt = b"User-agent: *\nDisallow: /private/".to_vec();
    let answer = cache.finish(&domain, "https://example.com/private/a", Some(txt), Some(2000), 0);
    assert_eq!(answer, Ok((false, Some(2000))));
    match cache.begin("https://example.com/shop", 1000).unwrap() {
        RobotsStep::Decided(a, d) => {
            assert!(a);
            assert_eq!(d, Some(2000));
        }
        RobotsStep::Fetch { .. } => panic!("the kept file should answer"),
    }
    let (again, _) = fetch_of(cache.begin("https://example.com/shop", ROBOTS_TTL_MS).unwrap());
    assert_eq!(again, "https://example.com/robots.txt");
    let (_, other) = fetch_of(cache.begin("https://other.org/x", 10).unwrap());
    assert_eq!(other, "other.org");
}

#[test]
fn missing_robots_file_allows_all() {
    let mut cache = RobotsCache::new();
    let (_, domain) = fetch_of(cache.begin("https://example.com/x", 5).unwrap());
    assert_eq!(cache.finish(&domain, "https://example.com/x", None, None, 5), Ok((true, None)));
    match cache.begin("https://example.com/anything", 6).unwrap() {
        RobotsStep::Decided(a, d) => {
            assert!(a);
            assert_eq!(d, None);
        }
        RobotsStep::Fetch { .. } => panic!("the kept file should answer"),
    }
}

#[test]
fn robots_check_refuses_non_urls() {
    let cache = RobotsCache::new();
    match cache.begin("not a url", 0) {
        Err(e) => assert!(e.starts_with("Failed to get robots.txt URL for 'not a url': "), "{}", e),
        Ok(_) => panic!("a text that is no URL has no robots.txt"),
    }
}

#[test]
fn pacing_domains_are_hosts() {
    assert_eq!(url_domain("https://example.com/page1"), Ok("example.com".to_string()));
    assert_eq!(url_domain("https://Other.COM:8080/x?y=1"), Ok("other.com".to_string()));
    assert!(url_domain("page1").unwrap_err().starts_with("Failed to parse URL 'page1': "));
    assert_eq!(url_domain("mailto:someone@example.com"), Err("No host in URL: mailto:someone@example.com".to_string()));
}

#[test]
fn search_requests_are_percent_encoded() {
    assert_eq!(
        search_page_url("Polymaker PLA+"),
        "https://html.duckduckgo.com/html/?q=Polymaker%20PLA%2B%20filament%20specs%20temperature"
    );
}
