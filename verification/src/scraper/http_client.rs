//! Politeness towards the scraped sites: the per-domain request pacing.
//!
//! The limiter decides; the caller keeps the clock and sleeps. Times are
//! milliseconds on the caller's monotonic clock.

use vstd::prelude::*;
use crate::text::{chars_eq, chars_of};
use crate::scraper::robots::{join2, join4, parse_host, res_view, url_host_of};

verus! {

broadcast use vstd::string::group_string_axioms;

/// Per-domain rate limiter: remembers when each domain was last requested.
pub struct RateLimiter {
    last_request: Vec<(String, u64)>,
    min_interval_ms: u64,
}

/// The time of the last request to `domain` among the records (the first
/// record of that domain counts).
pub open spec fn last_time(records: Seq<(Seq<char>, u64)>, domain: Seq<char>) -> Option<u64>
    decreases records.len(),
{
    if records.len() == 0 {
        None
    } else if records[0].0 == domain {
        Some(records[0].1)
    } else {
        last_time(records.drop_first(), domain)
    }
}

/// The interval to keep: a longer extra delay (a site's crawl delay)
/// replaces the minimum interval.
pub open spec fn effective_interval(min_interval: u64, extra_delay: Option<u64>) -> u64 {
    match extra_delay {
        Some(d) => if d > min_interval {
            d
        } else {
            min_interval
        },
        None => min_interval,
    }
}

/// How long to wait before requesting a domain at time `now`: the rest of
/// the interval since its last request, nothing when it was never requested
/// or the interval has passed.
pub open spec fn wait_time(last: Option<u64>, interval: u64, now: u64) -> Option<u64> {
    match last {
        Some(t) => {
            let elapsed = if now >= t { now - t } else { 0 };
            if elapsed < interval {
                Some((interval - elapsed) as u64)
            } else {
                None
            }
        },
        None => None,
    }
}

impl RateLimiter {
    /// The records: each domain with its last request time.
    pub closed spec fn records(&self) -> Seq<(Seq<char>, u64)> {
        self.last_request@.map_values(|e: (String, u64)| (e.0@, e.1))
    }

    /// The minimum interval between requests to one domain.
    pub closed spec fn interval(&self) -> u64 {
        self.min_interval_ms
    }

    /// A limiter with the given minimum interval and no request yet.
    pub fn new(min_interval_ms: u64) -> (r: RateLimiter)
        ensures
            r.interval() == min_interval_ms,
            r.records() == Seq::<(Seq<char>, u64)>::empty(),
    {
        let r = RateLimiter { last_request: Vec::new(), min_interval_ms };
        assert(r.records() =~= Seq::<(Seq<char>, u64)>::empty());
        r
    }

    /// The default minimum interval between requests.
    pub fn min_interval(&self) -> (r: u64)
        ensures
            r == self.interval(),
    {
        self.min_interval_ms
    }

    fn position(&self, domain: &Vec<char>) -> (r: Option<usize>)
        ensures
            match r {
                Some(i) => i < self.records().len() && last_time(self.records(), domain@) == Some(
                    self.records()[i as int].1,
                ) && self.records()[i as int].0 == domain@ && forall|k: int|
                    0 <= k < i ==> self.records()[k].0 != domain@,
                None => last_time(self.records(), domain@) is None,
            },
    {
        let ghost rs = self.records();
        let mut i: usize = 0;
        assert(rs.skip(0) == rs);
        while i < self.last_request.len()
            invariant
                i <= self.last_request.len(),
                rs == self.records(),
                last_time(rs, domain@) == last_time(rs.skip(i as int), domain@),
                forall|k: int| 0 <= k < i ==> rs[k].0 != domain@,
            decreases self.last_request.len() - i,
        {
            proof {
                assert(rs.skip(i as int)[0] == rs[i as int]);
                assert(rs.skip(i as int).drop_first() == rs.skip(i + 1));
            }
            if chars_eq(&chars_of(self.last_request[i].0.as_str()), domain) {
                return Some(i);
            }
            i = i + 1;
        }
        None
    }

    /// How long to wait before requesting `domain` at time `now` (see
    /// `wait_time` and `effective_interval`).
    pub fn wait_needed(&self, domain: &str, extra_delay: Option<u64>, now: u64) -> (r: Option<u64>)
        ensures
            r == wait_time(
                last_time(self.records(), domain@),
                effective_interval(self.interval(), extra_delay),
                now,
            ),
    {
        let interval = match extra_delay {
            Some(d) => if d > self.min_interval_ms {
                d
            } else {
                self.min_interval_ms
            },
            None => self.min_interval_ms,
        };
        match self.position(&chars_of(domain)) {
            Some(i) => {
                let t = self.last_request[i].1;
                let elapsed = if now >= t { now - t } else { 0 };
                if elapsed < interval {
                    Some(interval - elapsed)
                } else {
                    None
                }
            },
            None => None,
        }
    }

    /// Records a request to `domain` at time `at`.
    pub fn record(&mut self, domain: &str, at: u64)
        ensures
            final(self).interval() == old(self).interval(),
            last_time(final(self).records(), domain@) == Some(at),
            forall|d: Seq<char>| d != domain@ ==> last_time(final(self).records(), d) == last_time(
                old(self).records(),
                d,
            ),
    {
        let ghost rs = self.records();
        match self.position(&chars_of(domain)) {
            Some(i) => {
                let name = self.last_request[i].0.clone();
                self.last_request.set(i, (name, at));
                proof {
                    let ns = self.records();
                    assert(ns =~= rs.update(i as int, (domain@, at)));
                    lemma_update_first(rs, i as int, domain@, at);
                }
            },
            None => {
                self.last_request.push((domain.to_string(), at));
                proof {
                    let ns = self.records();
                    assert(ns =~= rs.push((domain@, at)));
                    lemma_push_absent(rs, domain@, at);
                }
            },
        }
    }
}

/// Updating the first record of a domain changes its time only.
proof fn lemma_update_first(rs: Seq<(Seq<char>, u64)>, i: int, domain: Seq<char>, at: u64)
    requires
        0 <= i < rs.len(),
        rs[i].0 == domain,
        forall|k: int| 0 <= k < i ==> rs[k].0 != domain,
    ensures
        last_time(rs.update(i, (domain, at)), domain) == Some(at),
        forall|d: Seq<char>| d != domain ==> last_time(rs.update(i, (domain, at)), d) == last_time(
            rs,
            d,
        ),
    decreases i,
{
    let ns = rs.update(i, (domain, at));
    if i == 0 {
        assert(ns.drop_first() == rs.drop_first());
        assert forall|d: Seq<char>| d != domain implies last_time(ns, d) == last_time(rs, d) by {
            assert(ns[0].0 != d);
            assert(rs[0].0 != d);
        }
    } else {
        lemma_update_first(rs.drop_first(), i - 1, domain, at);
        assert(ns.drop_first() == rs.drop_first().update(i - 1, (domain, at)));
        assert(ns[0] == rs[0]);
        assert forall|d: Seq<char>| d != domain implies last_time(ns, d) == last_time(rs, d) by {
            if rs[0].0 != d {
                assert(last_time(ns, d) == last_time(ns.drop_first(), d));
                assert(last_time(rs.drop_first().update(i - 1, (domain, at)), d) == last_time(
                    rs.drop_first(),
                    d,
                ));
                assert(last_time(rs, d) == last_time(rs.drop_first(), d));
            } else {
                assert(last_time(ns, d) == Some(ns[0].1));
                assert(last_time(rs, d) == Some(rs[0].1));
            }
        }
    }
}

/// Appending a record for a domain without one gives it that time only.
proof fn lemma_push_absent(rs: Seq<(Seq<char>, u64)>, domain: Seq<char>, at: u64)
    requires
        last_time(rs, domain) is None,
    ensures
        last_time(rs.push((domain, at)), domain) == Some(at),
        forall|d: Seq<char>| d != domain ==> last_time(rs.push((domain, at)), d) == last_time(rs, d),
    decreases rs.len(),
{
    let ns = rs.push((domain, at));
    if rs.len() > 0 {
        lemma_push_absent(rs.drop_first(), domain, at);
        assert(ns.drop_first() == rs.drop_first().push((domain, at)));
        assert(ns[0] == rs[0]);
        assert forall|d: Seq<char>| d != domain implies last_time(ns, d) == last_time(rs, d) by {
            if rs[0].0 != d {
                assert(last_time(ns, d) == last_time(ns.drop_first(), d));
                assert(last_time(rs.drop_first().push((domain, at)), d) == last_time(
                    rs.drop_first(),
                    d,
                ));
                assert(last_time(rs, d) == last_time(rs.drop_first(), d));
            } else {
                assert(last_time(ns, d) == Some(ns[0].1));
                assert(last_time(rs, d) == Some(rs[0].1));
            }
        }
    } else {
        assert(ns.drop_first() =~= Seq::<(Seq<char>, u64)>::empty());
        assert forall|d: Seq<char>| d != domain implies last_time(ns, d) == last_time(rs, d) by {
            assert(ns[0].0 != d);
            assert(last_time(ns, d) == last_time(ns.drop_first(), d));
            assert(last_time(ns.drop_first(), d) is None);
        }
    }
}

/// Read after write: once a request to a domain is recorded, the wait for
/// that domain counts from the recorded time, and other domains' waits do
/// not change.
pub proof fn law_record_then_wait(
    before: Seq<(Seq<char>, u64)>,
    after: Seq<(Seq<char>, u64)>,
    domain: Seq<char>,
    at: u64,
    other: Seq<char>,
    interval: u64,
    now: u64,
)
    requires
        last_time(after, domain) == Some(at),
        forall|d: Seq<char>| d != domain ==> last_time(after, d) == last_time(before, d),
    ensures
        wait_time(last_time(after, domain), interval, now) == wait_time(Some(at), interval, now),
        other != domain ==> wait_time(last_time(after, other), interval, now) == wait_time(
            last_time(before, other),
            interval,
            now,
        ),
{
}

/// The domain by which requests to `url` are paced: its host; a text that
/// is no URL, or a URL without a host, is refused.
pub open spec fn pacing_domain(url: Seq<char>) -> Result<Seq<char>, Seq<char>> {
    match url_host_of(url) {
        Err(e) => Err("Failed to parse URL '"@ + url + "': "@ + e),
        Ok(None) => Err("No host in URL: "@ + url),
        Ok(Some(h)) => Ok(h),
    }
}

/// The domain by which requests to `url` are paced (see `pacing_domain`).
pub fn url_domain(url: &str) -> (r: Result<String, String>)
    ensures
        res_view(r, |s: String| s@) == pacing_domain(url@),
{
    match parse_host(url) {
        Ok(Some(h)) => Ok(h),
        Ok(None) => Err(join2("No host in URL: ", url)),
        Err(e) => Err(join4("Failed to parse URL '", url, "': ", e.as_str())),
    }
}

/// The plain text `html2text` renders from an HTML page at a given line
/// width; `None` when it reports an error.
pub uninterp spec fn html2text_of(html: Seq<char>, width: nat) -> Option<Seq<char>>;

/// `html2text::from_read`: the page rendered as plain text.
#[verifier::external_body]
fn render_text(html: &str, width: usize) -> (r: Option<String>)
    ensures
        crate::text::opt_view(r) == html2text_of(html@, width as nat),
{
    html2text::from_read(html.as_bytes(), width).ok()
}

/// Line width of the plain text handed to the language models.
pub const TEXT_WIDTH: usize = 120;

/// The plain text of a page for a language model: the page rendered at
/// 120 columns, or the page itself when it cannot be rendered.
pub open spec fn page_plain_text(html: Seq<char>) -> Seq<char> {
    match html2text_of(html, TEXT_WIDTH as nat) {
        Some(t) => t,
        None => html,
    }
}

/// Converts HTML to plain text for a language model (see `page_plain_text`).
pub fn html_to_text(html: &str) -> (r: String)
    ensures
        r@ == page_plain_text(html@),
{
    match render_text(html, TEXT_WIDTH) {
        Some(t) => t,
        None => html.to_string(),
    }
}

} // verus!
