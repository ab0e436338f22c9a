//! The knowledge-first filament search, as a state machine. The caller
//! performs each action (cache lookup, model queries, page fetches, web
//! search, cache store) and hands back what came of it:
//!
//! 1. a cached result is returned as it is;
//! 2. the model is asked from its own knowledge; a confident answer is kept;
//! 3. otherwise the brand's candidate pages are read by the model (from the
//!    raw HTML, else from the page text), then the SpoolScout data sheet,
//!    then web search results, keeping the most confident result;
//! 4. the best result is stored in the cache and returned.

use vstd::prelude::*;
use crate::scraper::adapters::spoolscout::{fallback_url, SpoolScout};
use crate::scraper::adapters::BrandAdapter;
use crate::scraper::adapters::find_adapter;
use crate::scraper::http_client::{html_to_text, page_plain_text};
use crate::scraper::search::{byte_len, candidate_urls, scout_url, EMPTY_NAME, HIGH_CONFIDENCE, MIN_PAGE_BYTES};
use crate::scraper::types::FilamentSpecs;
use crate::text::{chars_eq, chars_of, push_str, string_of, trim, trim_chars};

verus! {

broadcast use vstd::string::group_string_axioms;

/// What comes after the filament name in the refusal of a fruitless search.
pub const AI_NOT_FOUND_TAIL: &'static str = "'. Try checking the filament name spelling, select from the catalog, or paste a direct URL to the product page.";

/// Where the search stands.
#[derive(Debug, Clone, Copy, PartialEq, Eq, Structural)]
pub enum AiStage {
    Cache,
    Knowledge,
    /// Fetching a candidate page.
    Candidates,
    /// Waiting for the model's reading of a candidate page's HTML.
    CandidateHtml,
    /// Waiting for the model's reading of a candidate page's text.
    CandidateText,
    /// Fetching the SpoolScout data sheet.
    Scout,
    /// Waiting for the model's reading of the data sheet.
    ScoutHtml,
    Search,
    /// Fetching a search result.
    SearchPages,
    /// Waiting for the model's reading of a search result.
    SearchHtml,
    Storing,
    Done,
}

/// What the caller reports back.
pub enum AiEvent {
    /// The cached specs, if any (a failed lookup counts as none).
    Cached(Option<FilamentSpecs>),
    /// The model's specs from its knowledge, `None` when the query failed.
    Knowledge(Option<FilamentSpecs>),
    /// The fetched page, `None` when the fetch failed.
    Page(Option<String>),
    /// The model's specs from a page, `None` when the extraction failed.
    Extracted(Option<FilamentSpecs>),
    /// The search result URLs, `None` when the search failed.
    SearchResults(Option<Vec<String>>),
    /// The result was stored (or storing failed, which does not matter).
    Stored,
}

/// What the caller is asked to do.
pub enum AiAction {
    LookupCache(String),
    /// Ask the model for the filament's specs from its knowledge.
    AskKnowledge(String),
    Fetch(String),
    /// Ask the model to read specs from a page's raw HTML.
    ExtractHtml(String),
    /// Ask the model to read specs from a page's text.
    ExtractText(String),
    WebSearch(String),
    Store(String, FilamentSpecs),
    Finish(Result<FilamentSpecs, String>),
}

/// Where the best result came from: the model's specs, and the page URL
/// that replaced their source (none for the knowledge answer).
pub type Origin = (FilamentSpecs, Option<Seq<char>>);

/// Abstract state.
pub ghost struct AiView {
    pub name: Seq<char>,
    pub stage: AiStage,
    pub urls: Seq<Seq<char>>,
    pub next: int,
    pub scout: Option<Seq<char>>,
    pub found: Seq<Seq<char>>,
    pub page: Seq<char>,
    pub best: Option<Origin>,
}

/// Abstract action.
pub ghost enum AiActionView {
    LookupCache(Seq<char>),
    AskKnowledge(Seq<char>),
    Fetch(Seq<char>),
    ExtractHtml(Seq<char>),
    ExtractText(Seq<char>),
    WebSearch(Seq<char>),
    Store(Seq<char>, Origin),
    FinishBest(Origin),
    FinishCached(FilamentSpecs),
    FinishErr(Seq<char>),
}

/// Abstract event.
pub ghost enum AiEventView {
    Cached(Option<FilamentSpecs>),
    Knowledge(Option<FilamentSpecs>),
    Page(Option<Seq<char>>),
    Extracted(Option<FilamentSpecs>),
    SearchResults(Option<Seq<Seq<char>>>),
    Stored,
}

/// A result is the origin's specs with the page URL (if any) as source.
pub open spec fn is_result(s: FilamentSpecs, o: Origin) -> bool {
    &&& s.same_as_except_source(o.0)
    &&& s.source_url@ == match o.1 {
        Some(u) => u,
        None => o.0.source_url@,
    }
}

/// The confidence of the best result (0 without one).
pub open spec fn ai_best_conf(v: AiView) -> i64 {
    match v.best {
        Some(o) => o.0.extraction_confidence,
        None => 0,
    }
}

/// The message of a fruitless search.
pub open spec fn ai_not_found(name: Seq<char>) -> Seq<char> {
    "No specs found for '"@ + name + AI_NOT_FOUND_TAIL@
}

/// How a search starts: an empty (trimmed) name is refused; otherwise the
/// cache is asked first.
pub open spec fn ai_start(name: Seq<char>) -> (AiView, AiActionView) {
    let t = trim(name);
    let v = AiView {
        name: t,
        stage: if t.len() == 0 { AiStage::Done } else { AiStage::Cache },
        urls: Seq::empty(),
        next: 0,
        scout: None,
        found: Seq::empty(),
        page: Seq::empty(),
        best: None,
    };
    if t.len() == 0 {
        (v, AiActionView::FinishErr(EMPTY_NAME@))
    } else {
        (v, AiActionView::LookupCache(t))
    }
}

/// Ends the search: store and return the best result, or fail without one.
pub open spec fn ai_finish(v: AiView) -> (AiView, AiActionView) {
    match v.best {
        Some(o) => (AiView { stage: AiStage::Storing, ..v }, AiActionView::Store(v.name, o)),
        None => (AiView { stage: AiStage::Done, ..v }, AiActionView::FinishErr(ai_not_found(v.name))),
    }
}

/// After the data sheet: a web search while the confidence is not high.
pub open spec fn ai_after_scout(v: AiView) -> (AiView, AiActionView) {
    if ai_best_conf(v) < HIGH_CONFIDENCE {
        (AiView { stage: AiStage::Search, ..v }, AiActionView::WebSearch(v.name))
    } else {
        ai_finish(v)
    }
}

/// After the candidates: the data sheet, when an adapter gave one that was
/// not a candidate, while the confidence is not high.
pub open spec fn ai_after_candidates(v: AiView) -> (AiView, AiActionView) {
    match v.scout {
        Some(u) => if ai_best_conf(v) < HIGH_CONFIDENCE && !v.urls.contains(u) {
            (AiView { stage: AiStage::Scout, ..v }, AiActionView::Fetch(u))
        } else {
            ai_after_scout(v)
        },
        None => ai_after_scout(v),
    }
}

/// The next candidate page from position `i`.
pub open spec fn ai_next_candidate(v: AiView, i: int) -> (AiView, AiActionView) {
    if 0 <= i < v.urls.len() {
        (AiView { stage: AiStage::Candidates, next: i, ..v }, AiActionView::Fetch(v.urls[i]))
    } else {
        ai_after_candidates(v)
    }
}

/// The next search result from position `j` that is not a candidate page.
pub open spec fn ai_next_result(v: AiView, j: int) -> (AiView, AiActionView)
    decreases v.found.len() - j,
{
    if j < 0 || j >= v.found.len() {
        ai_finish(v)
    } else if v.urls.contains(v.found[j]) {
        ai_next_result(v, j + 1)
    } else {
        (AiView { stage: AiStage::SearchPages, next: j, ..v }, AiActionView::Fetch(v.found[j]))
    }
}

/// A model answer read from a page becomes the best result when it is more
/// confident than the best so far.
pub open spec fn ai_accept(v: AiView, s: FilamentSpecs, url: Seq<char>) -> (AiView, bool) {
    if s.extraction_confidence > ai_best_conf(v) {
        (AiView { best: Some((s, Some(url))), ..v }, true)
    } else {
        (v, false)
    }
}

/// A candidate's answer: kept when better; a confident one ends the
/// candidates.
pub open spec fn ai_candidate_answer(v: AiView, s: FilamentSpecs) -> (AiView, AiActionView) {
    let (v1, accepted) = ai_accept(v, s, v.urls[v.next]);
    if accepted && ai_best_conf(v1) >= HIGH_CONFIDENCE {
        ai_after_candidates(v1)
    } else {
        ai_next_candidate(v1, v.next + 1)
    }
}

/// One step of the search.
pub open spec fn ai_step(v: AiView, e: AiEventView) -> (AiView, AiActionView) {
    match (v.stage, e) {
        (AiStage::Cache, AiEventView::Cached(Some(c))) => (
            AiView { stage: AiStage::Done, ..v },
            AiActionView::FinishCached(c),
        ),
        (AiStage::Cache, AiEventView::Cached(None)) => (
            AiView { stage: AiStage::Knowledge, ..v },
            AiActionView::AskKnowledge(v.name),
        ),
        (AiStage::Knowledge, AiEventView::Knowledge(k)) => {
            let v1 = AiView {
                best: match k {
                    Some(s) => Some((s, None)),
                    None => None,
                },
                ..v
            };
            if ai_best_conf(v1) < HIGH_CONFIDENCE {
                ai_next_candidate(
                    AiView { urls: candidate_urls(v.name), scout: scout_url(v.name), ..v1 },
                    0,
                )
            } else {
                ai_finish(v1)
            }
        },
        (AiStage::Candidates, AiEventView::Page(p)) => match p {
            Some(h) => if trim(h).len() == 0 || byte_len(h) < MIN_PAGE_BYTES {
                ai_next_candidate(v, v.next + 1)
            } else {
                (AiView { stage: AiStage::CandidateHtml, page: h, ..v }, AiActionView::ExtractHtml(h))
            },
            None => ai_next_candidate(v, v.next + 1),
        },
        (AiStage::CandidateHtml, AiEventView::Extracted(Some(s))) => ai_candidate_answer(v, s),
        (AiStage::CandidateHtml, AiEventView::Extracted(None)) => {
            let text = page_plain_text(v.page);
            if trim(text).len() == 0 {
                ai_next_candidate(v, v.next + 1)
            } else {
                (AiView { stage: AiStage::CandidateText, ..v }, AiActionView::ExtractText(text))
            }
        },
        (AiStage::CandidateText, AiEventView::Extracted(Some(s))) => ai_candidate_answer(v, s),
        (AiStage::CandidateText, AiEventView::Extracted(None)) => ai_next_candidate(v, v.next + 1),
        (AiStage::Scout, AiEventView::Page(p)) => match p {
            Some(h) => if byte_len(h) >= MIN_PAGE_BYTES {
                (AiView { stage: AiStage::ScoutHtml, page: h, ..v }, AiActionView::ExtractHtml(h))
            } else {
                ai_after_scout(v)
            },
            None => ai_after_scout(v),
        },
        (AiStage::ScoutHtml, AiEventView::Extracted(Some(s))) => ai_after_scout(
            ai_accept(v, s, v.scout.unwrap()).0,
        ),
        (AiStage::ScoutHtml, AiEventView::Extracted(None)) => ai_after_scout(v),
        (AiStage::Search, AiEventView::SearchResults(Some(list))) => ai_next_result(
            AiView { found: list, ..v },
            0,
        ),
        (AiStage::Search, AiEventView::SearchResults(None)) => ai_finish(v),
        (AiStage::SearchPages, AiEventView::Page(p)) => match p {
            Some(h) => if byte_len(h) >= MIN_PAGE_BYTES {
                (AiView { stage: AiStage::SearchHtml, page: h, ..v }, AiActionView::ExtractHtml(h))
            } else {
                ai_next_result(v, v.next + 1)
            },
            None => ai_next_result(v, v.next + 1),
        },
        (AiStage::SearchHtml, AiEventView::Extracted(Some(s))) => {
            let (v1, accepted) = ai_accept(v, s, v.found[v.next]);
            if accepted && s.extraction_confidence >= HIGH_CONFIDENCE {
                ai_finish(v1)
            } else {
                ai_next_result(v1, v.next + 1)
            }
        },
        (AiStage::SearchHtml, AiEventView::Extracted(None)) => ai_next_result(v, v.next + 1),
        (AiStage::Storing, AiEventView::Stored) => (
            AiView { stage: AiStage::Done, ..v },
            AiActionView::FinishBest(v.best.unwrap()),
        ),
        _ => (v, AiActionView::FinishErr(Seq::empty())),
    }
}

/// Whether a stage awaits this kind of event.
pub open spec fn ai_awaits(stage: AiStage, e: AiEventView) -> bool {
    match (stage, e) {
        (AiStage::Cache, AiEventView::Cached(_)) => true,
        (AiStage::Knowledge, AiEventView::Knowledge(_)) => true,
        (AiStage::Candidates, AiEventView::Page(_)) => true,
        (AiStage::CandidateHtml, AiEventView::Extracted(_)) => true,
        (AiStage::CandidateText, AiEventView::Extracted(_)) => true,
        (AiStage::Scout, AiEventView::Page(_)) => true,
        (AiStage::ScoutHtml, AiEventView::Extracted(_)) => true,
        (AiStage::Search, AiEventView::SearchResults(_)) => true,
        (AiStage::SearchPages, AiEventView::Page(_)) => true,
        (AiStage::SearchHtml, AiEventView::Extracted(_)) => true,
        (AiStage::Storing, AiEventView::Stored) => true,
        _ => false,
    }
}

/// The view of an event.
pub open spec fn ai_event_view(e: AiEvent) -> AiEventView {
    match e {
        AiEvent::Cached(c) => AiEventView::Cached(c),
        AiEvent::Knowledge(k) => AiEventView::Knowledge(k),
        AiEvent::Page(p) => AiEventView::Page(crate::text::opt_view(p)),
        AiEvent::Extracted(x) => AiEventView::Extracted(x),
        AiEvent::SearchResults(r) => AiEventView::SearchResults(match r {
            Some(list) => Some(list@.map_values(|u: String| u@)),
            None => None,
        }),
        AiEvent::Stored => AiEventView::Stored,
    }
}

/// An action agrees with its view.
pub open spec fn ai_action_is(a: AiAction, v: AiActionView) -> bool {
    match (a, v) {
        (AiAction::LookupCache(s), AiActionView::LookupCache(t)) => s@ == t,
        (AiAction::AskKnowledge(s), AiActionView::AskKnowledge(t)) => s@ == t,
        (AiAction::Fetch(s), AiActionView::Fetch(t)) => s@ == t,
        (AiAction::ExtractHtml(s), AiActionView::ExtractHtml(t)) => s@ == t,
        (AiAction::ExtractText(s), AiActionView::ExtractText(t)) => s@ == t,
        (AiAction::WebSearch(s), AiActionView::WebSearch(t)) => s@ == t,
        (AiAction::Store(s, sp), AiActionView::Store(t, o)) => s@ == t && is_result(sp, o),
        (AiAction::Finish(Ok(sp)), AiActionView::FinishBest(o)) => is_result(sp, o),
        (AiAction::Finish(Ok(sp)), AiActionView::FinishCached(c)) => sp == c,
        (AiAction::Finish(Err(m)), AiActionView::FinishErr(t)) => m@ == t,
        _ => false,
    }
}

/// The exec state of the search.
pub struct AiSearchRun {
    name: String,
    stage: AiStage,
    urls: Vec<String>,
    next: usize,
    scout: Option<String>,
    found: Vec<String>,
    page: String,
    best: Option<FilamentSpecs>,
    origin: Ghost<Option<Origin>>,
}

impl View for AiSearchRun {
    type V = AiView;

    closed spec fn view(&self) -> AiView {
        AiView {
            name: self.name@,
            stage: self.stage,
            urls: self.urls@.map_values(|u: String| u@),
            next: self.next as int,
            scout: crate::text::opt_view(self.scout),
            found: self.found@.map_values(|u: String| u@),
            page: self.page@,
            best: self.origin@,
        }
    }
}

proof fn lemma_result_copy(a: FilamentSpecs, b: FilamentSpecs, o: Origin)
    requires
        is_result(a, o),
        b.same_as(a),
    ensures
        is_result(b, o),
{
}

fn contains_url(urls: &Vec<String>, u: &Vec<char>) -> (b: bool)
    ensures
        b == urls@.map_values(|x: String| x@).contains(u@),
{
    let ghost uv = urls@.map_values(|x: String| x@);
    let mut i: usize = 0;
    while i < urls.len()
        invariant
            i <= urls.len(),
            uv == urls@.map_values(|x: String| x@),
            forall|k: int| 0 <= k < i ==> uv[k] != u@,
        decreases urls.len() - i,
    {
        if chars_eq(&chars_of(urls[i].as_str()), u) {
            assert(uv[i as int] == u@);
            return true;
        }
        i = i + 1;
    }
    false
}

impl AiSearchRun {
    /// The best result agrees with where it came from, and the position
    /// points into the list being read.
    pub closed spec fn wf(&self) -> bool {
        &&& match (self.best, self.origin@) {
            (Some(s), Some(o)) => is_result(s, o),
            (None, None) => true,
            _ => false,
        }
        &&& (self.stage == AiStage::Candidates || self.stage == AiStage::CandidateHtml
            || self.stage == AiStage::CandidateText) ==> self.next < self.urls@.len()
        &&& (self.stage == AiStage::SearchPages || self.stage == AiStage::SearchHtml) ==> self.next
            < self.found@.len()
        &&& (self.stage == AiStage::Scout || self.stage == AiStage::ScoutHtml) ==> self.scout is Some
        &&& self.stage == AiStage::Storing ==> self.best is Some
        &&& (self.stage == AiStage::Cache || self.stage == AiStage::Knowledge) ==> self.best is None
    }

    /// Starts a knowledge-first search for a filament name (see `ai_start`).
    pub fn start(name: &str) -> (r: (AiSearchRun, AiAction))
        ensures
            r.0.wf(),
            r.0@ == ai_start(name@).0,
            ai_action_is(r.1, ai_start(name@).1),
    {
        let t = trim_chars(&chars_of(name));
        let empty = t.len() == 0;
        let run = AiSearchRun {
            name: string_of(&t),
            stage: if empty { AiStage::Done } else { AiStage::Cache },
            urls: Vec::new(),
            next: 0,
            scout: None,
            found: Vec::new(),
            page: String::new(),
            best: None,
            origin: Ghost(None),
        };
        proof {
            assert(run.urls@.map_values(|u: String| u@) =~= Seq::<Seq<char>>::empty());
            assert(run.found@.map_values(|u: String| u@) =~= Seq::<Seq<char>>::empty());
        }
        let action = if empty {
            AiAction::Finish(Err(EMPTY_NAME.to_string()))
        } else {
            AiAction::LookupCache(string_of(&t))
        };
        (run, action)
    }

    /// The current stage.
    pub fn stage(&self) -> (r: AiStage)
        ensures
            r == self@.stage,
    {
        self.stage
    }

    /// Whether the search waits for this kind of event.
    pub fn accepts(&self, event: &AiEvent) -> (b: bool)
        ensures
            b == ai_awaits(self@.stage, ai_event_view(*event)),
    {
        match (self.stage, event) {
            (AiStage::Cache, AiEvent::Cached(_)) => true,
            (AiStage::Knowledge, AiEvent::Knowledge(_)) => true,
            (AiStage::Candidates, AiEvent::Page(_)) => true,
            (AiStage::CandidateHtml, AiEvent::Extracted(_)) => true,
            (AiStage::CandidateText, AiEvent::Extracted(_)) => true,
            (AiStage::Scout, AiEvent::Page(_)) => true,
            (AiStage::ScoutHtml, AiEvent::Extracted(_)) => true,
            (AiStage::Search, AiEvent::SearchResults(_)) => true,
            (AiStage::SearchPages, AiEvent::Page(_)) => true,
            (AiStage::SearchHtml, AiEvent::Extracted(_)) => true,
            (AiStage::Storing, AiEvent::Stored) => true,
            _ => false,
        }
    }

    fn best_confidence(&self) -> (c: i64)
        requires
            self.wf(),
        ensures
            c == ai_best_conf(self@),
    {
        match &self.best {
            Some(s) => s.extraction_confidence,
            None => 0,
        }
    }

    fn finish_exec(&mut self) -> (a: AiAction)
        requires
            old(self).wf(),
        ensures
            final(self).wf(),
            final(self)@ == ai_finish(old(self)@).0,
            ai_action_is(a, ai_finish(old(self)@).1),
    {
        match &self.best {
            Some(s) => {
                let copy = s.copy();
                proof {
                    lemma_result_copy(self.best.unwrap(), copy, self.origin@.unwrap());
                }
                self.stage = AiStage::Storing;
                AiAction::Store(self.name.clone(), copy)
            },
            None => {
                self.stage = AiStage::Done;
                let mut v: Vec<char> = Vec::new();
                push_str(&mut v, "No specs found for '");
                push_str(&mut v, self.name.as_str());
                push_str(&mut v, AI_NOT_FOUND_TAIL);
                AiAction::Finish(Err(string_of(&v)))
            },
        }
    }

    fn after_scout_exec(&mut self) -> (a: AiAction)
        requires
            old(self).wf(),
        ensures
            final(self).wf(),
            final(self)@ == ai_after_scout(old(self)@).0,
            ai_action_is(a, ai_after_scout(old(self)@).1),
    {
        if self.best_confidence() < HIGH_CONFIDENCE {
            self.stage = AiStage::Search;
            AiAction::WebSearch(self.name.clone())
        } else {
            self.finish_exec()
        }
    }

    fn after_candidates_exec(&mut self) -> (a: AiAction)
        requires
            old(self).wf(),
        ensures
            final(self).wf(),
            final(self)@ == ai_after_candidates(old(self)@).0,
            ai_action_is(a, ai_after_candidates(old(self)@).1),
    {
        let scout = match &self.scout {
            Some(u) => Some(chars_of(u.as_str())),
            None => None,
        };
        match scout {
            Some(u) => {
                if self.best_confidence() < HIGH_CONFIDENCE && !contains_url(&self.urls, &u) {
                    self.stage = AiStage::Scout;
                    AiAction::Fetch(string_of(&u))
                } else {
                    self.after_scout_exec()
                }
            },
            None => self.after_scout_exec(),
        }
    }

    fn next_candidate_exec(&mut self, i: usize) -> (a: AiAction)
        requires
            old(self).wf(),
        ensures
            final(self).wf(),
            final(self)@ == ai_next_candidate(old(self)@, i as int).0,
            ai_action_is(a, ai_next_candidate(old(self)@, i as int).1),
    {
        if i < self.urls.len() {
            self.stage = AiStage::Candidates;
            self.next = i;
            AiAction::Fetch(self.urls[i].clone())
        } else {
            self.after_candidates_exec()
        }
    }

    fn next_result_exec(&mut self, j: usize) -> (a: AiAction)
        requires
            old(self).wf(),
        ensures
            final(self).wf(),
            final(self)@ == ai_next_result(old(self)@, j as int).0,
            ai_action_is(a, ai_next_result(old(self)@, j as int).1),
        decreases old(self).found@.len() - j,
    {
        if j >= self.found.len() {
            return self.finish_exec();
        }
        let u = chars_of(self.found[j].as_str());
        if contains_url(&self.urls, &u) {
            self.next_result_exec(j + 1)
        } else {
            self.stage = AiStage::SearchPages;
            self.next = j;
            AiAction::Fetch(self.found[j].clone())
        }
    }

    fn accept_exec(&mut self, s: FilamentSpecs, url: &String) -> (accepted: bool)
        requires
            old(self).wf(),
            old(self).stage != AiStage::Cache,
            old(self).stage != AiStage::Knowledge,
        ensures
            final(self).wf(),
            (final(self)@, accepted) == ai_accept(old(self)@, s, url@),
    {
        if s.extraction_confidence > self.best_confidence() {
            let ghost o = (s, Some(url@));
            let mut kept = s;
            kept.source_url = url.clone();
            assert(kept.same_as_except_source(s));
            self.best = Some(kept);
            self.origin = Ghost(Some(o));
            true
        } else {
            false
        }
    }

    fn candidate_answer_exec(&mut self, s: FilamentSpecs) -> (a: AiAction)
        requires
            old(self).wf(),
            old(self).stage == AiStage::CandidateHtml || old(self).stage == AiStage::CandidateText,
        ensures
            final(self).wf(),
            final(self)@ == ai_candidate_answer(old(self)@, s).0,
            ai_action_is(a, ai_candidate_answer(old(self)@, s).1),
    {
        let n = self.urls.len();
        let i = self.next;
        assert(i < n);
        let url = self.urls[i].clone();
        let accepted = self.accept_exec(s, &url);
        if accepted && self.best_confidence() >= HIGH_CONFIDENCE {
            self.after_candidates_exec()
        } else {
            self.next_candidate_exec(i + 1)
        }
    }

    /// Takes one step of the search (see `ai_step`).
    #[verifier::rlimit(40)]
    pub fn step(&mut self, event: AiEvent) -> (a: AiAction)
        requires
            old(self).wf(),
            ai_awaits(old(self)@.stage, ai_event_view(event)),
        ensures
            final(self).wf(),
            final(self)@ == ai_step(old(self)@, ai_event_view(event)).0,
            ai_action_is(a, ai_step(old(self)@, ai_event_view(event)).1),
    {
        match event {
            AiEvent::Cached(Some(c)) => {
                self.stage = AiStage::Done;
                AiAction::Finish(Ok(c))
            },
            AiEvent::Cached(None) => {
                self.stage = AiStage::Knowledge;
                AiAction::AskKnowledge(self.name.clone())
            },
            AiEvent::Knowledge(k) => self.knowledge_exec(k),
            AiEvent::Page(p) => self.page_exec(p),
            AiEvent::Extracted(x) => self.extracted_exec(x),
            AiEvent::SearchResults(Some(list)) => {
                self.found = list;
                self.next_result_exec(0)
            },
            AiEvent::SearchResults(None) => self.finish_exec(),
            AiEvent::Stored => {
                self.stage = AiStage::Done;
                let copy = match &self.best {
                    Some(s) => s.copy(),
                    None => FilamentSpecs::default(),
                };
                proof {
                    lemma_result_copy(self.best.unwrap(), copy, self.origin@.unwrap());
                }
                AiAction::Finish(Ok(copy))
            },
        }
    }

    fn knowledge_exec(&mut self, k: Option<FilamentSpecs>) -> (a: AiAction)
        requires
            old(self).wf(),
            old(self).stage == AiStage::Knowledge,
        ensures
            final(self).wf(),
            final(self)@ == ai_step(old(self)@, AiEventView::Knowledge(k)).0,
            ai_action_is(a, ai_step(old(self)@, AiEventView::Knowledge(k)).1),
    {
        self.stage = AiStage::Done;
        match k {
            Some(s) => {
                let ghost o = (s, None::<Seq<char>>);
                self.best = Some(s);
                self.origin = Ghost(Some(o));
            },
            None => {},
        }
        if self.best_confidence() < HIGH_CONFIDENCE {
            let urls = match find_adapter(self.name.as_str()) {
                Some(a) => a.resolve_urls(self.name.as_str()),
                None => SpoolScout.resolve_urls(self.name.as_str()),
            };
            let scout = match find_adapter(self.name.as_str()) {
                Some(a) => Some(fallback_url(a.brand_name(), self.name.as_str())),
                None => None,
            };
            self.urls = urls;
            self.scout = scout;
            self.next_candidate_exec(0)
        } else {
            self.finish_exec()
        }
    }

    fn page_exec(&mut self, p: Option<String>) -> (a: AiAction)
        requires
            old(self).wf(),
            ai_awaits(old(self)@.stage, AiEventView::Page(crate::text::opt_view(p))),
        ensures
            final(self).wf(),
            final(self)@ == ai_step(old(self)@, AiEventView::Page(crate::text::opt_view(p))).0,
            ai_action_is(a, ai_step(old(self)@, AiEventView::Page(crate::text::opt_view(p))).1),
    {
        if self.stage == AiStage::Candidates {
            let n = self.urls.len();
            let i = self.next;
            assert(i < n);
            match p {
                Some(h) => {
                    let blank = trim_chars(&chars_of(h.as_str())).len() == 0;
                    if blank || h.as_str().len() < MIN_PAGE_BYTES {
                        self.next_candidate_exec(i + 1)
                    } else {
                        let html = h.clone();
                        self.page = h;
                        self.stage = AiStage::CandidateHtml;
                        AiAction::ExtractHtml(html)
                    }
                },
                None => self.next_candidate_exec(i + 1),
            }
        } else if self.stage == AiStage::Scout {
            match p {
                Some(h) => {
                    if h.as_str().len() >= MIN_PAGE_BYTES {
                        let html = h.clone();
                        self.page = h;
                        self.stage = AiStage::ScoutHtml;
                        AiAction::ExtractHtml(html)
                    } else {
                        self.after_scout_exec()
                    }
                },
                None => self.after_scout_exec(),
            }
        } else {
            let n = self.found.len();
            let j = self.next;
            assert(j < n);
            match p {
                Some(h) => {
                    if h.as_str().len() >= MIN_PAGE_BYTES {
                        let html = h.clone();
                        self.page = h;
                        self.stage = AiStage::SearchHtml;
                        AiAction::ExtractHtml(html)
                    } else {
                        self.next_result_exec(j + 1)
                    }
                },
                None => self.next_result_exec(j + 1),
            }
        }
    }

    fn extracted_exec(&mut self, x: Option<FilamentSpecs>) -> (a: AiAction)
        requires
            old(self).wf(),
            ai_awaits(old(self)@.stage, AiEventView::Extracted(x)),
        ensures
            final(self).wf(),
            final(self)@ == ai_step(old(self)@, AiEventView::Extracted(x)).0,
            ai_action_is(a, ai_step(old(self)@, AiEventView::Extracted(x)).1),
    {
        if self.stage == AiStage::CandidateHtml {
            match x {
                Some(s) => self.candidate_answer_exec(s),
                None => {
                    let n = self.urls.len();
                    let i = self.next;
                    assert(i < n);
                    let text = html_to_text(self.page.as_str());
                    if trim_chars(&chars_of(text.as_str())).len() == 0 {
                        self.next_candidate_exec(i + 1)
                    } else {
                        self.stage = AiStage::CandidateText;
                        AiAction::ExtractText(text)
                    }
                },
            }
        } else if self.stage == AiStage::CandidateText {
            match x {
                Some(s) => self.candidate_answer_exec(s),
                None => {
                    let n = self.urls.len();
                    let i = self.next;
                    assert(i < n);
                    self.next_candidate_exec(i + 1)
                },
            }
        } else if self.stage == AiStage::ScoutHtml {
            match x {
                Some(s) => {
                    let url = match &self.scout {
                        Some(u) => u.clone(),
                        None => String::new(),
                    };
                    let _ = self.accept_exec(s, &url);
                    self.after_scout_exec()
                },
                None => self.after_scout_exec(),
            }
        } else {
            let n = self.found.len();
            let j = self.next;
            assert(j < n);
            match x {
                Some(s) => {
                    let conf = s.extraction_confidence;
                    let url = self.found[j].clone();
                    let accepted = self.accept_exec(s, &url);
                    if accepted && conf >= HIGH_CONFIDENCE {
                        self.finish_exec()
                    } else {
                        self.next_result_exec(j + 1)
                    }
                },
                None => self.next_result_exec(j + 1),
            }
        }
    }
}

/// Moving on through the search results keeps the best result.
proof fn lemma_ai_next_result_keeps_best(v: AiView, j: int)
    ensures
        ai_next_result(v, j).0.best == v.best,
    decreases v.found.len() - j,
{
    if 0 <= j < v.found.len() && v.urls.contains(v.found[j]) {
        lemma_ai_next_result_keeps_best(v, j + 1);
    }
}

/// The model's knowledge answer becomes the first result; after it, no step
/// of the search lowers the confidence of the best result: a page's answer
/// replaces it only when more confident.
pub proof fn law_ai_best_never_drops(v: AiView, e: AiEventView)
    ensures
        v.stage != AiStage::Knowledge ==> ai_best_conf(ai_step(v, e).0) >= ai_best_conf(v),
        v.stage == AiStage::Knowledge ==> match e {
            AiEventView::Knowledge(Some(s)) => ai_step(v, e).0.best == Some((s, None::<Seq<char>>)),
            AiEventView::Knowledge(None) => ai_step(v, e).0.best == None::<Origin>,
            _ => true,
        },
{
    match (v.stage, e) {
        (AiStage::Search, AiEventView::SearchResults(Some(list))) => {
            lemma_ai_next_result_keeps_best(AiView { found: list, ..v }, 0);
        },
        (AiStage::SearchHtml, AiEventView::Extracted(Some(s))) => {
            let (v1, accepted) = ai_accept(v, s, v.found[v.next]);
            lemma_ai_next_result_keeps_best(v1, v.next + 1);
        },
        (AiStage::SearchHtml, AiEventView::Extracted(None)) => {
            lemma_ai_next_result_keeps_best(v, v.next + 1);
        },
        (AiStage::SearchPages, AiEventView::Page(p)) => {
            lemma_ai_next_result_keeps_best(v, v.next + 1);
        },
        _ => {},
    }
}

} // verus!
