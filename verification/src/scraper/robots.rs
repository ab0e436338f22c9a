//! What a site's robots.txt lets this crawler fetch, each domain's file
//! kept for an hour.
//!
//! A check runs in two steps: `begin` answers from a fresh copy of the
//! domain's robots.txt or names the file to fetch; `finish` takes what the
//! fetch gave, answers and keeps the file. The caller fetches, keeps the
//! clock (milliseconds on a monotonic clock) and reads the crawl delay.

use vstd::prelude::*;
use crate::text::{chars_eq, chars_of, opt_view, push_str, string_of};

verus! {

broadcast use vstd::string::group_string_axioms;

/// The user agent of every request.
pub const USER_AGENT: &'static str = "BambuMate/1.0";

/// How long a fetched robots.txt stays valid, in milliseconds.
pub const ROBOTS_TTL_MS: u64 = 3_600_000;

// ---------------------------------------------------------------------------
// Outside computations
// ---------------------------------------------------------------------------

/// What the `url` crate makes of a text: the host of the parsed URL (none
/// for a URL without one), or the message of the parse error.
pub uninterp spec fn url_host_of(url: Seq<char>) -> Result<Option<Seq<char>>, Seq<char>>;

/// `url::Url::parse`, then the parsed URL's `host_str`; the parse error as
/// its message. The contract names the result (`url_host_of`) and says no
/// more of it.
#[verifier::external_body]
pub(crate) fn parse_host(url: &str) -> (r: Result<Option<String>, String>)
    ensures
        match r {
            Ok(h) => url_host_of(url@) == Ok::<Option<Seq<char>>, Seq<char>>(opt_view(h)),
            Err(e) => url_host_of(url@) == Err::<Option<Seq<char>>, Seq<char>>(e@),
        },
{
    match url::Url::parse(url) {
        Ok(u) => match u.host_str() {
            Some(h) => Ok(Some(h.to_string())),
            None => Ok(None),
        },
        Err(e) => Err(e.to_string()),
    }
}

/// The robots.txt URL of a page's site as `texting_robots` computes it, or
/// the message of its error.
pub uninterp spec fn robots_url_of(url: Seq<char>) -> Result<Seq<char>, Seq<char>>;

/// `texting_robots::get_robots_url`; the error as its message. The
/// contract names the result (`robots_url_of`) and says no more of it.
#[verifier::external_body]
fn robots_url(url: &str) -> (r: Result<String, String>)
    ensures
        match r {
            Ok(u) => robots_url_of(url@) == Ok::<Seq<char>, Seq<char>>(u@),
            Err(e) => robots_url_of(url@) == Err::<Seq<char>, Seq<char>>(e@),
        },
{
    match texting_robots::get_robots_url(url) {
        Ok(u) => Ok(u),
        Err(e) => Err(e.to_string()),
    }
}

/// Whether `texting_robots` lets `agent` fetch `url` under a robots.txt,
/// or the message of its refusal to read the file.
pub uninterp spec fn robots_verdict_of(agent: Seq<char>, robots_txt: Seq<u8>, url: Seq<char>) -> Result<
    bool,
    Seq<char>,
>;

/// `texting_robots::Robot::new` on the agent and the file, then the robot's
/// `allowed` on the URL; the error of `Robot::new` as its message. The
/// contract names the result (`robots_verdict_of`) and says no more of it.
#[verifier::external_body]
fn robots_verdict(agent: &str, robots_txt: &Vec<u8>, url: &str) -> (r: Result<bool, String>)
    ensures
        match r {
            Ok(b) => robots_verdict_of(agent@, robots_txt@, url@) == Ok::<bool, Seq<char>>(b),
            Err(e) => robots_verdict_of(agent@, robots_txt@, url@) == Err::<bool, Seq<char>>(e@),
        },
{
    match texting_robots::Robot::new(agent, robots_txt.as_slice()) {
        Ok(robot) => Ok(robot.allowed(url)),
        Err(e) => Err(e.to_string()),
    }
}

// ---------------------------------------------------------------------------
// The cache
// ---------------------------------------------------------------------------

/// A domain's robots.txt as fetched: the file, its crawl delay in
/// milliseconds and when it was fetched.
pub struct RobotsRecord {
    pub robots_txt: Vec<u8>,
    pub crawl_delay_ms: Option<u64>,
    pub fetched_at: u64,
}

/// The view of a record.
pub type RecordView = (Seq<u8>, Option<u64>, u64);

/// The value of the first entry with `key`.
pub open spec fn first_entry<V>(es: Seq<(Seq<char>, V)>, key: Seq<char>) -> Option<V>
    decreases es.len(),
{
    if es.len() == 0 {
        None
    } else if es[0].0 == key {
        Some(es[0].1)
    } else {
        first_entry(es.drop_first(), key)
    }
}

/// A copy fetched at `at` is still valid at `now`.
pub open spec fn fresh(at: u64, now: u64) -> bool {
    (now as int) < at + ROBOTS_TTL_MS
}

/// What a check needs next.
pub enum RobotsStep {
    /// The answer: whether the URL may be fetched, and the crawl delay.
    Decided(bool, Option<u64>),
    /// The domain's robots.txt must be fetched from this URL first.
    Fetch { robots_url: String, domain: String },
}

/// The view of a step.
pub ghost enum StepView {
    Decided(bool, Option<u64>),
    Fetch(Seq<char>, Seq<char>),
}

/// The view of a step.
pub open spec fn step_view(s: RobotsStep) -> StepView {
    match s {
        RobotsStep::Decided(b, d) => StepView::Decided(b, d),
        RobotsStep::Fetch { robots_url, domain } => StepView::Fetch(robots_url@, domain@),
    }
}

/// The view of a result whose error is a message.
pub open spec fn res_view<T, V>(r: Result<T, String>, f: spec_fn(T) -> V) -> Result<V, Seq<char>> {
    match r {
        Ok(t) => Ok(f(t)),
        Err(e) => Err(e@),
    }
}

/// The first step of checking `url` at `now`: the robots.txt URL and the
/// domain of the page (their errors as messages); then the answer from the
/// domain's file when a fresh copy is kept, else the file to fetch.
pub open spec fn begin_result(es: Seq<(Seq<char>, RecordView)>, url: Seq<char>, now: u64) -> Result<
    StepView,
    Seq<char>,
> {
    match robots_url_of(url) {
        Err(e) => Err("Failed to get robots.txt URL for '"@ + url + "': "@ + e),
        Ok(ru) => match url_host_of(url) {
            Err(e) => Err("Failed to parse URL: "@ + e),
            Ok(None) => Err("No host in URL: "@ + url),
            Ok(Some(d)) => match first_entry(es, d) {
                Some(rec) => if fresh(rec.2, now) {
                    match robots_verdict_of(USER_AGENT@, rec.0, url) {
                        Ok(a) => Ok(StepView::Decided(a, rec.1)),
                        Err(e) => Err("Failed to parse robots.txt for '"@ + d + "': "@ + e),
                    }
                } else {
                    Ok(StepView::Fetch(ru, d))
                },
                None => Ok(StepView::Fetch(ru, d)),
            },
        },
    }
}

/// The second step: a robots.txt that could not be had (any status but
/// success) allows everything; a fetched one answers for the URL. The file
/// read is kept for the domain, fetched at `now`.
pub open spec fn finish_result(domain: Seq<char>, url: Seq<char>, fetched: Option<Seq<u8>>, delay: Option<u64>) -> Result<
    (bool, Option<u64>),
    Seq<char>,
> {
    match fetched {
        None => match robots_verdict_of(USER_AGENT@, Seq::empty(), url) {
            Ok(_) => Ok((true, None)),
            Err(e) => Err("Failed to create default robot: "@ + e),
        },
        Some(txt) => match robots_verdict_of(USER_AGENT@, txt, url) {
            Ok(a) => Ok((a, delay)),
            Err(e) => Err("Failed to parse robots.txt for '"@ + domain + "': "@ + e),
        },
    }
}

/// The record `finish` keeps.
pub open spec fn kept_record(fetched: Option<Seq<u8>>, delay: Option<u64>, now: u64) -> RecordView {
    match fetched {
        None => (Seq::empty(), None, now),
        Some(txt) => (txt, delay, now),
    }
}

/// robots.txt files per domain.
pub struct RobotsCache {
    entries: Vec<(String, RobotsRecord)>,
}

pub(crate) fn join4(a: &str, b: &str, c: &str, d: &str) -> (r: String)
    ensures
        r@ == a@ + b@ + c@ + d@,
{
    let mut v: Vec<char> = Vec::new();
    push_str(&mut v, a);
    push_str(&mut v, b);
    push_str(&mut v, c);
    push_str(&mut v, d);
    string_of(&v)
}

pub(crate) fn join2(a: &str, b: &str) -> (r: String)
    ensures
        r@ == a@ + b@,
{
    let mut v: Vec<char> = Vec::new();
    push_str(&mut v, a);
    push_str(&mut v, b);
    string_of(&v)
}

fn copy_bytes(v: &Vec<u8>) -> (r: Vec<u8>)
    ensures
        r@ == v@,
{
    let mut r: Vec<u8> = Vec::new();
    let mut i: usize = 0;
    while i < v.len()
        invariant
            i <= v.len(),
            r@ == v@.take(i as int),
        decreases v.len() - i,
    {
        r.push(v[i]);
        proof {
            assert(v@.take(i + 1) =~= v@.take(i as int).push(v@[i as int]));
        }
        i = i + 1;
    }
    proof {
        assert(v@.take(v.len() as int) =~= v@);
    }
    r
}

impl RobotsCache {
    /// The kept files: each domain with its record (the first entry of a
    /// domain counts).
    pub closed spec fn entries(&self) -> Seq<(Seq<char>, RecordView)> {
        self.entries@.map_values(
            |e: (String, RobotsRecord)| (e.0@, (e.1.robots_txt@, e.1.crawl_delay_ms, e.1.fetched_at)),
        )
    }

    /// A cache that keeps nothing yet.
    pub fn new() -> (r: RobotsCache)
        ensures
            r.entries() == Seq::<(Seq<char>, RecordView)>::empty(),
    {
        let r = RobotsCache { entries: Vec::new() };
        assert(r.entries() =~= Seq::<(Seq<char>, RecordView)>::empty());
        r
    }

    /// Whether a robots.txt lets this crawler fetch `url` (see
    /// `robots_verdict_of`).
    pub fn check_against_robot(robots_txt: &Vec<u8>, url: &str) -> (r: Result<bool, String>)
        ensures
            res_view(r, |b: bool| b) == robots_verdict_of(USER_AGENT@, robots_txt@, url@),
    {
        robots_verdict(USER_AGENT, robots_txt, url)
    }

    fn position(&self, domain: &Vec<char>) -> (r: Option<usize>)
        ensures
            match r {
                Some(i) => i < self.entries().len() && first_entry(self.entries(), domain@) == Some(
                    self.entries()[i as int].1,
                ) && self.entries()[i as int].0 == domain@ && forall|k: int|
                    0 <= k < i ==> self.entries()[k].0 != domain@,
                None => first_entry(self.entries(), domain@) is None,
            },
    {
        let ghost es = self.entries();
        let mut i: usize = 0;
        assert(es.skip(0) == es);
        while i < self.entries.len()
            invariant
                i <= self.entries.len(),
                es == self.entries(),
                first_entry(es, domain@) == first_entry(es.skip(i as int), domain@),
                forall|k: int| 0 <= k < i ==> es[k].0 != domain@,
            decreases self.entries.len() - i,
        {
            proof {
                assert(es.skip(i as int)[0] == es[i as int]);
                assert(es.skip(i as int).drop_first() == es.skip(i + 1));
            }
            if chars_eq(&chars_of(self.entries[i].0.as_str()), domain) {
                return Some(i);
            }
            i = i + 1;
        }
        None
    }

    /// The first step of a check (see `begin_result`).
    pub fn begin(&self, url: &str, now: u64) -> (r: Result<RobotsStep, String>)
        ensures
            res_view(r, |s: RobotsStep| step_view(s)) == begin_result(self.entries(), url@, now),
    {
        let ru = match robots_url(url) {
            Ok(u) => u,
            Err(e) => {
                return Err(join4("Failed to get robots.txt URL for '", url, "': ", e.as_str()));
            },
        };
        let domain = match parse_host(url) {
            Ok(Some(d)) => d,
            Ok(None) => {
                return Err(join2("No host in URL: ", url));
            },
            Err(e) => {
                return Err(join2("Failed to parse URL: ", e.as_str()));
            },
        };
        match self.position(&chars_of(domain.as_str())) {
            Some(i) => {
                let rec = &self.entries[i].1;
                let at = rec.fetched_at;
                let is_fresh = if now >= at {
                    now - at < ROBOTS_TTL_MS
                } else {
                    true
                };
                if is_fresh {
                    match robots_verdict(USER_AGENT, &rec.robots_txt, url) {
                        Ok(a) => Ok(RobotsStep::Decided(a, rec.crawl_delay_ms)),
                        Err(e) => Err(join4("Failed to parse robots.txt for '", domain.as_str(), "': ", e.as_str())),
                    }
                } else {
                    Ok(RobotsStep::Fetch { robots_url: ru, domain })
                }
            },
            None => Ok(RobotsStep::Fetch { robots_url: ru, domain }),
        }
    }

    fn keep(&mut self, domain: &str, rec: RobotsRecord)
        ensures
            first_entry(final(self).entries(), domain@) == Some(
                (rec.robots_txt@, rec.crawl_delay_ms, rec.fetched_at),
            ),
            forall|d: Seq<char>| d != domain@ ==> first_entry(final(self).entries(), d) == first_entry(
                old(self).entries(),
                d,
            ),
    {
        let ghost es = self.entries();
        let ghost rv: RecordView = (rec.robots_txt@, rec.crawl_delay_ms, rec.fetched_at);
        match self.position(&chars_of(domain)) {
            Some(i) => {
                let name = self.entries[i].0.clone();
                self.entries.set(i, (name, rec));
                proof {
                    assert(self.entries() =~= es.update(i as int, (domain@, rv)));
                    lemma_first_update(es, i as int, domain@, rv);
                }
            },
            None => {
                self.entries.push((domain.to_string(), rec));
                proof {
                    assert(self.entries() =~= es.push((domain@, rv)));
                    lemma_first_push(es, domain@, rv);
                }
            },
        }
    }

    /// The second step of a check, with what fetching the domain's
    /// robots.txt gave (`None` for any status but success) and the file's
    /// crawl delay (see `finish_result`); a file that answered is kept.
    pub fn finish(
        &mut self,
        domain: &str,
        url: &str,
        fetched: Option<Vec<u8>>,
        crawl_delay_ms: Option<u64>,
        now: u64,
    ) -> (r: Result<(bool, Option<u64>), String>)
        ensures
            res_view(r, |p: (bool, Option<u64>)| p) == finish_result(
                domain@,
                url@,
                match fetched {
                    Some(t) => Some(t@),
                    None => None,
                },
                crawl_delay_ms,
            ),
            r is Ok ==> first_entry(final(self).entries(), domain@) == Some(
                kept_record(
                    match fetched {
                        Some(t) => Some(t@),
                        None => None,
                    },
                    crawl_delay_ms,
                    now,
                ),
            ),
            r is Err ==> final(self).entries() == old(self).entries(),
            forall|d: Seq<char>| d != domain@ ==> first_entry(final(self).entries(), d) == first_entry(
                old(self).entries(),
                d,
            ),
    {
        match fetched {
            None => {
                let empty: Vec<u8> = Vec::new();
                proof {
                    assert(empty@ =~= Seq::<u8>::empty());
                }
                match robots_verdict(USER_AGENT, &empty, url) {
                    Ok(_) => {
                        self.keep(domain, RobotsRecord { robots_txt: empty, crawl_delay_ms: None, fetched_at: now });
                        Ok((true, None))
                    },
                    Err(e) => Err(join2("Failed to create default robot: ", e.as_str())),
                }
            },
            Some(txt) => match robots_verdict(USER_AGENT, &txt, url) {
                Ok(a) => {
                    let kept = copy_bytes(&txt);
                    self.keep(domain, RobotsRecord { robots_txt: kept, crawl_delay_ms, fetched_at: now });
                    Ok((a, crawl_delay_ms))
                },
                Err(e) => Err(join4("Failed to parse robots.txt for '", domain, "': ", e.as_str())),
            },
        }
    }
}

/// Read after write: the robots.txt kept for a domain answers every check
/// of a page of that domain for an hour after it was fetched, with its
/// crawl delay; after the hour the file is fetched again.
pub proof fn law_kept_file_answers(
    es: Seq<(Seq<char>, RecordView)>,
    domain: Seq<char>,
    rec: RecordView,
    url: Seq<char>,
    robots: Seq<char>,
    later: u64,
)
    requires
        first_entry(es, domain) == Some(rec),
        url_host_of(url) == Ok::<Option<Seq<char>>, Seq<char>>(Some(domain)),
        robots_url_of(url) == Ok::<Seq<char>, Seq<char>>(robots),
    ensures
        fresh(rec.2, later) ==> begin_result(es, url, later) == match robots_verdict_of(USER_AGENT@, rec.0, url) {
            Ok(a) => Ok::<StepView, Seq<char>>(StepView::Decided(a, rec.1)),
            Err(e) => Err("Failed to parse robots.txt for '"@ + domain + "': "@ + e),
        },
        !fresh(rec.2, later) ==> begin_result(es, url, later) == Ok::<StepView, Seq<char>>(
            StepView::Fetch(robots, domain),
        ),
{
}

/// Replacing the first entry of a key changes that key's value only.
proof fn lemma_first_update<V>(es: Seq<(Seq<char>, V)>, i: int, key: Seq<char>, v: V)
    requires
        0 <= i < es.len(),
        es[i].0 == key,
        forall|k: int| 0 <= k < i ==> es[k].0 != key,
    ensures
        first_entry(es.update(i, (key, v)), key) == Some(v),
        forall|d: Seq<char>| d != key ==> first_entry(es.update(i, (key, v)), d) == first_entry(es, d),
    decreases i,
{
    let ns = es.update(i, (key, v));
    if i == 0 {
        assert(ns.drop_first() == es.drop_first());
        assert forall|d: Seq<char>| d != key implies first_entry(ns, d) == first_entry(es, d) by {
            assert(ns[0].0 != d);
            assert(es[0].0 != d);
        }
    } else {
        lemma_first_update(es.drop_first(), i - 1, key, v);
        assert(ns.drop_first() == es.drop_first().update(i - 1, (key, v)));
        assert(ns[0] == es[0]);
        assert forall|d: Seq<char>| d != key implies first_entry(ns, d) == first_entry(es, d) by {
            if es[0].0 != d {
                assert(first_entry(ns, d) == first_entry(ns.drop_first(), d));
                assert(first_entry(es, d) == first_entry(es.drop_first(), d));
            }
        }
    }
}

/// Appending an entry for a key without one gives that key its value only.
proof fn lemma_first_push<V>(es: Seq<(Seq<char>, V)>, key: Seq<char>, v: V)
    requires
        first_entry(es, key) is None,
    ensures
        first_entry(es.push((key, v)), key) == Some(v),
        forall|d: Seq<char>| d != key ==> first_entry(es.push((key, v)), d) == first_entry(es, d),
    decreases es.len(),
{
    let ns = es.push((key, v));
    if es.len() > 0 {
        lemma_first_push(es.drop_first(), key, v);
        assert(ns.drop_first() == es.drop_first().push((key, v)));
        assert(ns[0] == es[0]);
        assert forall|d: Seq<char>| d != key implies first_entry(ns, d) == first_entry(es, d) by {
            if es[0].0 != d {
                assert(first_entry(ns, d) == first_entry(ns.drop_first(), d));
                assert(first_entry(es, d) == first_entry(es.drop_first(), d));
            }
        }
    } else {
        assert(ns.drop_first() =~= Seq::<(Seq<char>, V)>::empty());
        assert forall|d: Seq<char>| d != key implies first_entry(ns, d) == first_entry(es, d) by {
            assert(ns[0].0 != d);
            assert(first_entry(ns, d) == first_entry(ns.drop_first(), d));
        }
    }
}

} // verus!
