//! The web-only filament search, as a state machine. The caller performs
//! each action (cache lookup, page fetch, web search, cache store) and hands
//! back what came of it; the machine decides what to do next:
//!
//! 1. a cached result is returned as it is;
//! 2. the brand adapter's candidate pages (SpoolScout's when no adapter
//!    knows the brand) are read with the HTML extractor;
//! 3. the SpoolScout data sheet is tried when an adapter was found;
//! 4. a web search is tried when the confidence is still low;
//! 5. the best result is stored in the cache and returned.

use vstd::prelude::*;
use crate::scraper::adapters::{adapter_brand, adapter_keys, adapter_urls, find_adapter, first_adapter, slug};
use crate::scraper::adapters::spoolscout::{fallback_url, fallback_url_seq, SpoolScout};
use crate::scraper::adapters::BrandAdapter;
use crate::scraper::html_extractor::{extract, extracted, inferred_brand, specs_of_scan};
use crate::scraper::types::FilamentSpecs;
use crate::text::{chars_eq, chars_of, push_str, string_of, trim, trim_chars};

verus! {

broadcast use vstd::string::group_string_axioms;

/// Confidence (thousandths) at which a page result is good enough.
pub const HIGH_CONFIDENCE: i64 = 700;
/// Confidence under which a web search is tried.
pub const SEARCH_BELOW: i64 = 300;
/// Confidence at which search results stop being read.
pub const SEARCH_ENOUGH: i64 = 400;
/// Confidence above which a result is kept even without a nozzle range.
pub const KEEP_ABOVE: i64 = 50;
/// Pages shorter than this (in bytes) are not read.
pub const MIN_PAGE_BYTES: usize = 100;

/// The refusal of an empty filament name.
pub const EMPTY_NAME: &'static str = "Filament name cannot be empty.";

/// What comes after the filament name in the refusal of a fruitless search.
pub const NOT_FOUND_TAIL: &'static str = "' in web-only mode. Try pasting the product page URL directly, or enable AI in Settings for better results on niche filaments.";

/// Where the search stands.
#[derive(Debug, Clone, Copy, PartialEq, Eq, Structural)]
pub enum SearchStage {
    /// Waiting for the cache lookup.
    Cache,
    /// Reading the candidate pages.
    Candidates,
    /// Reading the SpoolScout data sheet.
    Scout,
    /// Waiting for the web search results.
    Search,
    /// Reading the web search results.
    SearchPages,
    /// Waiting for the cache store.
    Storing,
    /// Finished.
    Done,
}

/// What the caller reports back.
pub enum SearchEvent {
    /// The cached specs, if any (a failed lookup counts as none).
    Cached(Option<FilamentSpecs>),
    /// The fetched page, `None` when the fetch failed.
    Page(Option<String>),
    /// The search result URLs, `None` when the search failed.
    SearchResults(Option<Vec<String>>),
    /// The result was stored (or storing failed, which does not matter).
    Stored,
}

/// What the caller is asked to do.
pub enum SearchAction {
    /// Look the filament name up in the cache.
    LookupCache(String),
    /// Fetch a page.
    Fetch(String),
    /// Search the web for the filament name.
    WebSearch(String),
    /// Store the specs in the cache under the name, then report `Stored`.
    Store(String, FilamentSpecs),
    /// The search is over.
    Finish(Result<FilamentSpecs, String>),
}

/// The exec state of the search.
pub struct WebSearchRun {
    name: String,
    stage: SearchStage,
    urls: Vec<String>,
    next: usize,
    scout: Option<String>,
    found: Vec<String>,
    best: Option<FilamentSpecs>,
    best_page: Ghost<Option<(Seq<char>, Seq<char>)>>,
}

/// Abstract state: the name, the stage, the candidate pages, the position
/// in the list being read, the SpoolScout fallback, the search results, and
/// the page (text and URL) that gave the best result so far.
pub ghost struct SearchView {
    pub name: Seq<char>,
    pub stage: SearchStage,
    pub urls: Seq<Seq<char>>,
    pub next: int,
    pub scout: Option<Seq<char>>,
    pub found: Seq<Seq<char>>,
    pub best: Option<(Seq<char>, Seq<char>)>,
}

/// Abstract action.
pub ghost enum ActionView {
    LookupCache(Seq<char>),
    Fetch(Seq<char>),
    WebSearch(Seq<char>),
    /// Store the result read from this page (text, URL).
    Store(Seq<char>, (Seq<char>, Seq<char>)),
    /// Return the result read from this page.
    FinishPage((Seq<char>, Seq<char>)),
    /// Return these cached specs.
    FinishCached(FilamentSpecs),
    /// Fail with this message.
    FinishErr(Seq<char>),
}

/// Byte length of a text in UTF-8, as `str::len` gives it.
pub open spec fn byte_len(s: Seq<char>) -> usize {
    vstd::utf8::encode_utf8(s).len() as usize
}

/// The extractor's confidence for a page.
pub open spec fn page_conf(html: Seq<char>, name: Seq<char>) -> i64 {
    let c = extracted(html, name).confidence;
    if c < 650 {
        c
    } else {
        650
    }
}

/// The specs read from a page, with the page's URL as their source.
pub open spec fn page_result(s: FilamentSpecs, html: Seq<char>, name: Seq<char>, url: Seq<char>) -> bool {
    specs_of_scan(s, extracted(html, name), inferred_brand(name)) && s.source_url@ == url
}

/// The confidence of the best result so far (0 without one).
pub open spec fn best_conf(v: SearchView) -> i64 {
    match v.best {
        Some((h, _)) => page_conf(h, v.name),
        None => 0,
    }
}

/// The candidate pages of a name: its brand adapter's, else SpoolScout's.
pub open spec fn candidate_urls(name: Seq<char>) -> Seq<Seq<char>> {
    match first_adapter(trim(name), adapter_keys()) {
        Some(i) => adapter_urls(i, name),
        None => seq!["https://www.spoolscout.com/data-sheets/"@ + slug(name)],
    }
}

/// The SpoolScout data sheet tried after the adapter's pages.
pub open spec fn scout_url(name: Seq<char>) -> Option<Seq<char>> {
    match first_adapter(trim(name), adapter_keys()) {
        Some(i) => Some(fallback_url_seq(adapter_brand(i), name)),
        None => None,
    }
}

/// The message of a fruitless search.
pub open spec fn not_found_message(name: Seq<char>) -> Seq<char> {
    "No specs found for '"@ + name + NOT_FOUND_TAIL@
}

/// Ends the search: store and return the best result when it is worth
/// keeping (some confidence, or a nozzle range), else fail.
pub open spec fn finish(v: SearchView) -> (SearchView, ActionView) {
    match v.best {
        Some(b) => if page_conf(b.0, v.name) > KEEP_ABOVE || extracted(b.0, v.name).nozzle_min is Some {
            (SearchView { stage: SearchStage::Storing, ..v }, ActionView::Store(v.name, b))
        } else {
            (SearchView { stage: SearchStage::Done, ..v }, ActionView::FinishErr(not_found_message(v.name)))
        },
        None => (SearchView { stage: SearchStage::Done, ..v }, ActionView::FinishErr(not_found_message(v.name))),
    }
}

/// After the SpoolScout sheet: a web search while the confidence is low.
pub open spec fn after_scout(v: SearchView) -> (SearchView, ActionView) {
    if best_conf(v) < SEARCH_BELOW {
        (SearchView { stage: SearchStage::Search, ..v }, ActionView::WebSearch(v.name))
    } else {
        finish(v)
    }
}

/// After the candidates: the SpoolScout sheet, when an adapter gave one
/// that was not a candidate, while the confidence is not high.
pub open spec fn after_candidates(v: SearchView) -> (SearchView, ActionView) {
    match v.scout {
        Some(u) => if best_conf(v) < HIGH_CONFIDENCE && !v.urls.contains(u) {
            (SearchView { stage: SearchStage::Scout, ..v }, ActionView::Fetch(u))
        } else {
            after_scout(v)
        },
        None => after_scout(v),
    }
}

/// The next candidate page from position `i`.
pub open spec fn next_candidate(v: SearchView, i: int) -> (SearchView, ActionView) {
    if 0 <= i < v.urls.len() {
        (SearchView { stage: SearchStage::Candidates, next: i, ..v }, ActionView::Fetch(v.urls[i]))
    } else {
        after_candidates(v)
    }
}

/// The next search result from position `j` that is not a candidate page.
pub open spec fn next_result(v: SearchView, j: int) -> (SearchView, ActionView)
    decreases v.found.len() - j,
{
    if j < 0 || j >= v.found.len() {
        finish(v)
    } else if v.urls.contains(v.found[j]) {
        next_result(v, j + 1)
    } else {
        (SearchView { stage: SearchStage::SearchPages, next: j, ..v }, ActionView::Fetch(v.found[j]))
    }
}

/// A fetched page read with the extractor: it becomes the best result when
/// it is long enough and more confident than the best so far.
pub open spec fn consider(v: SearchView, page: Option<Seq<char>>, url: Seq<char>) -> (SearchView, bool) {
    match page {
        Some(h) => if byte_len(h) >= MIN_PAGE_BYTES && page_conf(h, v.name) > best_conf(v) {
            (SearchView { best: Some((h, url)), ..v }, true)
        } else {
            (v, false)
        },
        None => (v, false),
    }
}

/// The view of an event: the cached specs, the page text, the result URLs.
pub ghost enum EventView {
    Cached(Option<FilamentSpecs>),
    Page(Option<Seq<char>>),
    SearchResults(Option<Seq<Seq<char>>>),
    Stored,
}

/// One step of the search.
pub open spec fn search_step(v: SearchView, e: EventView) -> (SearchView, ActionView) {
    match (v.stage, e) {
        (SearchStage::Cache, EventView::Cached(Some(c))) => (
            SearchView { stage: SearchStage::Done, ..v },
            ActionView::FinishCached(c),
        ),
        (SearchStage::Cache, EventView::Cached(None)) => next_candidate(
            SearchView { urls: candidate_urls(v.name), scout: scout_url(v.name), ..v },
            0,
        ),
        (SearchStage::Candidates, EventView::Page(p)) => {
            let (v1, accepted) = consider(v, p, v.urls[v.next]);
            if accepted && best_conf(v1) >= HIGH_CONFIDENCE {
                after_candidates(v1)
            } else {
                next_candidate(v1, v.next + 1)
            }
        },
        (SearchStage::Scout, EventView::Page(p)) => after_scout(consider(v, p, v.scout.unwrap()).0),
        (SearchStage::Search, EventView::SearchResults(Some(list))) => next_result(
            SearchView { found: list, ..v },
            0,
        ),
        (SearchStage::Search, EventView::SearchResults(None)) => finish(v),
        (SearchStage::SearchPages, EventView::Page(p)) => {
            let (v1, accepted) = consider(v, p, v.found[v.next]);
            if accepted && best_conf(v1) >= SEARCH_ENOUGH {
                finish(v1)
            } else {
                next_result(v1, v.next + 1)
            }
        },
        (SearchStage::Storing, EventView::Stored) => (
            SearchView { stage: SearchStage::Done, ..v },
            ActionView::FinishPage(v.best.unwrap()),
        ),
        _ => (v, ActionView::FinishErr(Seq::empty())),
    }
}

/// Whether a state awaits this kind of event.
pub open spec fn awaits(stage: SearchStage, e: EventView) -> bool {
    match (stage, e) {
        (SearchStage::Cache, EventView::Cached(_)) => true,
        (SearchStage::Candidates, EventView::Page(_)) => true,
        (SearchStage::Scout, EventView::Page(_)) => true,
        (SearchStage::Search, EventView::SearchResults(_)) => true,
        (SearchStage::SearchPages, EventView::Page(_)) => true,
        (SearchStage::Storing, EventView::Stored) => true,
        _ => false,
    }
}

/// The view of an event.
pub open spec fn event_view(e: SearchEvent) -> EventView {
    match e {
        SearchEvent::Cached(c) => EventView::Cached(c),
        SearchEvent::Page(p) => EventView::Page(crate::text::opt_view(p)),
        SearchEvent::SearchResults(r) => EventView::SearchResults(match r {
            Some(list) => Some(list@.map_values(|u: String| u@)),
            None => None,
        }),
        SearchEvent::Stored => EventView::Stored,
    }
}

/// An action agrees with its view.
pub open spec fn action_is(a: SearchAction, v: ActionView, name: Seq<char>) -> bool {
    match (a, v) {
        (SearchAction::LookupCache(s), ActionView::LookupCache(t)) => s@ == t,
        (SearchAction::Fetch(s), ActionView::Fetch(t)) => s@ == t,
        (SearchAction::WebSearch(s), ActionView::WebSearch(t)) => s@ == t,
        (SearchAction::Store(s, sp), ActionView::Store(t, b)) => s@ == t && page_result(sp, b.0, name, b.1),
        (SearchAction::Finish(Ok(sp)), ActionView::FinishPage(b)) => page_result(sp, b.0, name, b.1),
        (SearchAction::Finish(Ok(sp)), ActionView::FinishCached(c)) => sp == c,
        (SearchAction::Finish(Err(m)), ActionView::FinishErr(t)) => m@ == t,
        _ => false,
    }
}

impl View for WebSearchRun {
    type V = SearchView;

    closed spec fn view(&self) -> SearchView {
        SearchView {
            name: self.name@,
            stage: self.stage,
            urls: self.urls@.map_values(|u: String| u@),
            next: self.next as int,
            scout: crate::text::opt_view(self.scout),
            found: self.found@.map_values(|u: String| u@),
            best: self.best_page@,
        }
    }
}

impl WebSearchRun {
    /// The best result agrees with the page it was read from, and the
    /// position points into the list being read.
    pub closed spec fn wf(&self) -> bool {
        &&& match (self.best, self.best_page@) {
            (Some(s), Some((h, u))) => page_result(s, h, self.name@, u),
            (None, None) => true,
            _ => false,
        }
        &&& self.stage == SearchStage::Candidates ==> self.next < self.urls@.len()
        &&& self.stage == SearchStage::SearchPages ==> self.next < self.found@.len()
        &&& self.stage == SearchStage::Scout ==> self.scout is Some
        &&& self.stage == SearchStage::Storing ==> self.best is Some
    }
}

/// Agreeing specs read from the same page are a result of that page.
proof fn lemma_page_result_copy(a: FilamentSpecs, b: FilamentSpecs, h: Seq<char>, name: Seq<char>, u: Seq<char>)
    requires
        page_result(a, h, name, u),
        b.same_as(a),
    ensures
        page_result(b, h, name, u),
{
}

/// How a search starts: an empty (trimmed) name is refused; otherwise the
/// cache is asked first.
pub open spec fn search_start(name: Seq<char>) -> (SearchView, ActionView) {
    let t = trim(name);
    let v = SearchView {
        name: t,
        stage: if t.len() == 0 { SearchStage::Done } else { SearchStage::Cache },
        urls: Seq::empty(),
        next: 0,
        scout: None,
        found: Seq::empty(),
        best: None,
    };
    if t.len() == 0 {
        (v, ActionView::FinishErr(EMPTY_NAME@))
    } else {
        (v, ActionView::LookupCache(t))
    }
}

fn contains_url(urls: &Vec<String>, u: &Vec<char>) -> (b: bool)
    ensures
        b == urls@.map_values(|x: String| x@).contains(u@),
{
    let ghost uv = urls@.map_values(|x: String| x@);
    let mut i: usize = 0;
    while i < urls.len()
        invariant
            i <= urls.len(),
            uv == urls@.map_values(|x: String| x@),
            forall|k: int| 0 <= k < i ==> uv[k] != u@,
        decreases urls.len() - i,
    {
        if chars_eq(&chars_of(urls[i].as_str()), u) {
            assert(uv[i as int] == u@);
            return true;
        }
        i = i + 1;
    }
    false
}

fn copy_strings(v: &Vec<String>) -> (r: Vec<String>)
    ensures
        r@.map_values(|x: String| x@) == v@.map_values(|x: String| x@),
{
    let mut r: Vec<String> = Vec::new();
    let mut i: usize = 0;
    while i < v.len()
        invariant
            i <= v.len(),
            r@.map_values(|x: String| x@) == v@.map_values(|x: String| x@).take(i as int),
        decreases v.len() - i,
    {
        let ghost before = r@.map_values(|x: String| x@);
        r.push(v[i].clone());
        proof {
            assert(r@.map_values(|x: String| x@) == before.push(v@[i as int]@));
            assert(v@.map_values(|x: String| x@).take(i + 1) == v@.map_values(|x: String| x@).take(
                i as int,
            ).push(v@[i as int]@));
        }
        i = i + 1;
    }
    assert(v@.map_values(|x: String| x@).take(v.len() as int) == v@.map_values(|x: String| x@));
    r
}

impl WebSearchRun {
    /// Starts a web-only search for a filament name (see `search_start`).
    pub fn start(name: &str) -> (r: (WebSearchRun, SearchAction))
        ensures
            r.0.wf(),
            r.0@ == search_start(name@).0,
            action_is(r.1, search_start(name@).1, r.0@.name),
    {
        let t = trim_chars(&chars_of(name));
        let empty = t.len() == 0;
        let run = WebSearchRun {
            name: string_of(&t),
            stage: if empty { SearchStage::Done } else { SearchStage::Cache },
            urls: Vec::new(),
            next: 0,
            scout: None,
            found: Vec::new(),
            best: None,
            best_page: Ghost(None),
        };
        proof {
            assert(run.urls@.map_values(|u: String| u@) =~= Seq::<Seq<char>>::empty());
            assert(run.found@.map_values(|u: String| u@) =~= Seq::<Seq<char>>::empty());
        }
        let action = if empty {
            SearchAction::Finish(Err(EMPTY_NAME.to_string()))
        } else {
            SearchAction::LookupCache(string_of(&t))
        };
        (run, action)
    }

    /// The current stage.
    pub fn stage(&self) -> (r: SearchStage)
        ensures
            r == self@.stage,
    {
        self.stage
    }

    /// Whether the search waits for this kind of event.
    pub fn accepts(&self, event: &SearchEvent) -> (b: bool)
        ensures
            b == awaits(self@.stage, event_view(*event)),
    {
        match (self.stage, event) {
            (SearchStage::Cache, SearchEvent::Cached(_)) => true,
            (SearchStage::Candidates, SearchEvent::Page(_)) => true,
            (SearchStage::Scout, SearchEvent::Page(_)) => true,
            (SearchStage::Search, SearchEvent::SearchResults(_)) => true,
            (SearchStage::SearchPages, SearchEvent::Page(_)) => true,
            (SearchStage::Storing, SearchEvent::Stored) => true,
            _ => false,
        }
    }

    fn best_confidence(&self) -> (c: i64)
        requires
            self.wf(),
        ensures
            c == best_conf(self@),
    {
        match &self.best {
            Some(s) => s.extraction_confidence,
            None => 0,
        }
    }

    fn not_found(&self) -> (m: String)
        ensures
            m@ == not_found_message(self@.name),
    {
        let mut v: Vec<char> = Vec::new();
        push_str(&mut v, "No specs found for '");
        push_str(&mut v, self.name.as_str());
        push_str(&mut v, NOT_FOUND_TAIL);
        string_of(&v)
    }

    fn finish_exec(&mut self) -> (a: SearchAction)
        requires
            old(self).wf(),
        ensures
            final(self).wf(),
            final(self)@ == finish(old(self)@).0,
            action_is(a, finish(old(self)@).1, old(self)@.name),
    {
        let keep = match &self.best {
            Some(s) => s.extraction_confidence > KEEP_ABOVE || s.nozzle_temp_min.is_some(),
            None => false,
        };
        if keep {
            let copy = match &self.best {
                Some(s) => s.copy(),
                None => FilamentSpecs::default(),
            };
            proof {
                let (h, u) = self.best_page@.unwrap();
                lemma_page_result_copy(self.best.unwrap(), copy, h, self@.name, u);
            }
            self.stage = SearchStage::Storing;
            SearchAction::Store(self.name.clone(), copy)
        } else {
            self.stage = SearchStage::Done;
            SearchAction::Finish(Err(self.not_found()))
        }
    }

    fn after_scout_exec(&mut self) -> (a: SearchAction)
        requires
            old(self).wf(),
        ensures
            final(self).wf(),
            final(self)@ == after_scout(old(self)@).0,
            action_is(a, after_scout(old(self)@).1, old(self)@.name),
    {
        if self.best_confidence() < SEARCH_BELOW {
            self.stage = SearchStage::Search;
            SearchAction::WebSearch(self.name.clone())
        } else {
            self.finish_exec()
        }
    }

    fn after_candidates_exec(&mut self) -> (a: SearchAction)
        requires
            old(self).wf(),
        ensures
            final(self).wf(),
            final(self)@ == after_candidates(old(self)@).0,
            action_is(a, after_candidates(old(self)@).1, old(self)@.name),
    {
        let scout = match &self.scout {
            Some(u) => Some(chars_of(u.as_str())),
            None => None,
        };
        match scout {
            Some(u) => {
                if self.best_confidence() < HIGH_CONFIDENCE && !contains_url(&self.urls, &u) {
                    self.stage = SearchStage::Scout;
                    SearchAction::Fetch(string_of(&u))
                } else {
                    self.after_scout_exec()
                }
            },
            None => self.after_scout_exec(),
        }
    }

    fn next_candidate_exec(&mut self, i: usize) -> (a: SearchAction)
        requires
            old(self).wf(),
        ensures
            final(self).wf(),
            final(self)@ == next_candidate(old(self)@, i as int).0,
            action_is(a, next_candidate(old(self)@, i as int).1, old(self)@.name),
    {
        if i < self.urls.len() {
            self.stage = SearchStage::Candidates;
            self.next = i;
            SearchAction::Fetch(self.urls[i].clone())
        } else {
            self.after_candidates_exec()
        }
    }

    fn next_result_exec(&mut self, j: usize) -> (a: SearchAction)
        requires
            old(self).wf(),
        ensures
            final(self).wf(),
            final(self)@ == next_result(old(self)@, j as int).0,
            action_is(a, next_result(old(self)@, j as int).1, old(self)@.name),
        decreases old(self).found@.len() - j,
    {
        if j >= self.found.len() {
            return self.finish_exec();
        }
        let u = chars_of(self.found[j].as_str());
        if contains_url(&self.urls, &u) {
            self.next_result_exec(j + 1)
        } else {
            self.stage = SearchStage::SearchPages;
            self.next = j;
            SearchAction::Fetch(self.found[j].clone())
        }
    }

    /// Reads a fetched page and keeps its result when it is better; tells
    /// whether it was kept.
    fn consider_exec(&mut self, page: Option<String>, url: &String) -> (accepted: bool)
        requires
            old(self).wf(),
        ensures
            final(self).wf(),
            (final(self)@, accepted) == consider(old(self)@, crate::text::opt_view(page), url@),
    {
        match page {
            Some(h) => {
                let long_enough = h.as_str().len() >= MIN_PAGE_BYTES;
                if long_enough {
                    let mut specs = extract(h.as_str(), self.name.as_str());
                    if specs.extraction_confidence > self.best_confidence() {
                        specs.source_url = url.clone();
                        self.best = Some(specs);
                        self.best_page = Ghost(Some((h@, url@)));
                        true
                    } else {
                        false
                    }
                } else {
                    false
                }
            },
            None => false,
        }
    }

    /// Takes one step of the search (see `search_step`).
    pub fn step(&mut self, event: SearchEvent) -> (a: SearchAction)
        requires
            old(self).wf(),
            awaits(old(self)@.stage, event_view(event)),
        ensures
            final(self).wf(),
            final(self)@ == search_step(old(self)@, event_view(event)).0,
            action_is(a, search_step(old(self)@, event_view(event)).1, old(self)@.name),
    {
        match event {
            SearchEvent::Cached(Some(c)) => {
                self.stage = SearchStage::Done;
                SearchAction::Finish(Ok(c))
            },
            SearchEvent::Cached(None) => {
                let urls = match find_adapter(self.name.as_str()) {
                    Some(a) => a.resolve_urls(self.name.as_str()),
                    None => SpoolScout.resolve_urls(self.name.as_str()),
                };
                let scout = match find_adapter(self.name.as_str()) {
                    Some(a) => Some(fallback_url(a.brand_name(), self.name.as_str())),
                    None => None,
                };
                self.urls = urls;
                self.scout = scout;
                self.next_candidate_exec(0)
            },
            SearchEvent::Page(p) => {
                if self.stage == SearchStage::Candidates {
                    let n = self.urls.len();
                    let url = self.urls[self.next].clone();
                    let i = self.next;
                    assert(i < n);
                    let accepted = self.consider_exec(p, &url);
                    if accepted && self.best_confidence() >= HIGH_CONFIDENCE {
                        self.after_candidates_exec()
                    } else {
                        self.next_candidate_exec(i + 1)
                    }
                } else if self.stage == SearchStage::Scout {
                    let url = match &self.scout {
                        Some(u) => u.clone(),
                        None => String::new(),
                    };
                    let _ = self.consider_exec(p, &url);
                    self.after_scout_exec()
                } else {
                    let n = self.found.len();
                    let url = self.found[self.next].clone();
                    let j = self.next;
                    assert(j < n);
                    let accepted = self.consider_exec(p, &url);
                    if accepted && self.best_confidence() >= SEARCH_ENOUGH {
                        self.finish_exec()
                    } else {
                        self.next_result_exec(j + 1)
                    }
                }
            },
            SearchEvent::SearchResults(Some(list)) => {
                self.found = list;
                self.next_result_exec(0)
            },
            SearchEvent::SearchResults(None) => self.finish_exec(),
            SearchEvent::Stored => {
                self.stage = SearchStage::Done;
                let copy = match &self.best {
                    Some(s) => s.copy(),
                    None => FilamentSpecs::default(),
                };
                proof {
                    let (h, u) = self.best_page@.unwrap();
                    lemma_page_result_copy(self.best.unwrap(), copy, h, self@.name, u);
                }
                SearchAction::Finish(Ok(copy))
            },
        }
    }
}

/// Moving on through the search results keeps the name and the best page.
proof fn lemma_next_result_keeps_best(v: SearchView, j: int)
    ensures
        next_result(v, j).0.best == v.best,
        next_result(v, j).0.name == v.name,
    decreases v.found.len() - j,
{
    if 0 <= j < v.found.len() && v.urls.contains(v.found[j]) {
        lemma_next_result_keeps_best(v, j + 1);
    }
}

/// No step of the search lowers the confidence of the best page found: a
/// page replaces the best one only when it is more confident.
pub proof fn law_search_best_never_drops(v: SearchView, e: EventView)
    ensures
        best_conf(search_step(v, e).0) >= best_conf(v),
{
    match (v.stage, e) {
        (SearchStage::Search, EventView::SearchResults(Some(list))) => {
            lemma_next_result_keeps_best(SearchView { found: list, ..v }, 0);
        },
        (SearchStage::SearchPages, EventView::Page(p)) => {
            let (v1, accepted) = consider(v, p, v.found[v.next]);
            lemma_next_result_keeps_best(v1, v.next + 1);
        },
        _ => {},
    }
}

} // verus!
