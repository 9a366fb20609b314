//! Putting the corpus together: which page to ask the portal for next, what
//! to make of the answer, and how the outcomes of the course scrapes of one
//! term combine. One failure fails the whole build.

use vstd::prelude::*;
use vstd::string::StringExecFns;
use crate::course::{summary_views, CourseSummary, ParseError, SummaryView};
use crate::dom::{html_nodes, Page};
use crate::scraper::{basic_info, course_codes, term_codes, Scraper};
use crate::text::views;

verus! {

/// Why a scrape failed.
#[derive(Debug, Clone)]
pub enum ScrapeError {
    /// The portal could not be reached or did not answer with a page; the
    /// field holds what the transport said.
    Transport(String),
    /// The page lacks something that its shape promises.
    Extraction(ParseError),
}

/// A failure as plain text.
pub enum ScrapeErrorView {
    Transport(Seq<char>),
    Extraction(Seq<char>),
}

impl View for ScrapeError {
    type V = ScrapeErrorView;

    open spec fn view(&self) -> ScrapeErrorView {
        match self {
            ScrapeError::Transport(said) => ScrapeErrorView::Transport(said@),
            ScrapeError::Extraction(e) => ScrapeErrorView::Extraction(e.0@),
        }
    }
}

impl ScrapeError {
    /// The error as a sentence.
    pub fn message(&self) -> (text: String)
        ensures
            text@ == match self@ {
                ScrapeErrorView::Transport(said) => said,
                ScrapeErrorView::Extraction(field) => "Error parsing HTML at "@ + field,
            },
    {
        match self {
            ScrapeError::Transport(said) => said.clone(),
            ScrapeError::Extraction(e) => e.message(),
        }
    }
}

/// The outcome of the scrape of one course of a term.
#[derive(Debug)]
pub struct Finished {
    /// The course's code.
    pub code: String,
    /// When the scrape ended: smaller means earlier.
    pub order: usize,
    /// Title and description, or why there are none.
    pub outcome: Result<(String, String), ScrapeError>,
}

/// An outcome as plain text.
pub struct FinishedView {
    pub code: Seq<char>,
    pub order: usize,
    pub outcome: Result<(Seq<char>, Seq<char>), ScrapeErrorView>,
}

impl View for Finished {
    type V = FinishedView;

    open spec fn view(&self) -> FinishedView {
        FinishedView {
            code: self.code@,
            order: self.order,
            outcome: match self.outcome {
                Ok(found) => Ok((found.0@, found.1@)),
                Err(e) => Err(e@),
            },
        }
    }
}

/// The views of a list of outcomes.
pub open spec fn finished_views(v: Seq<Finished>) -> Seq<FinishedView> {
    v.map_values(|e: Finished| e@)
}

/// Whether outcome `i` failed, and no failed outcome ended before it, nor
/// at the same time and earlier in the list.
pub open spec fn fails_first(finished: Seq<FinishedView>, i: int) -> bool {
    &&& 0 <= i < finished.len()
    &&& finished[i].outcome is Err
    &&& forall|j: int|
        0 <= j < finished.len() && (#[trigger] finished[j]).outcome is Err ==> finished[i].order
            < finished[j].order || (finished[i].order == finished[j].order && i <= j)
}

/// The failure that ended first among the first `upto` outcomes.
pub open spec fn first_failure(finished: Seq<FinishedView>, upto: int) -> Option<int>
    decreases upto,
{
    if upto <= 0 || upto > finished.len() {
        None
    } else {
        let before = first_failure(finished, upto - 1);
        if finished[upto - 1].outcome is Err && (before is None || finished[upto - 1].order
            < finished[before.unwrap()].order) {
            Some(upto - 1)
        } else {
            before
        }
    }
}

/// The summary that outcome `f` gives for the term `term`.
pub open spec fn summary_of(term: Seq<char>, f: FinishedView) -> SummaryView {
    SummaryView {
        term: term,
        code: f.code,
        title: f.outcome->Ok_0.0,
        description: f.outcome->Ok_0.1,
    }
}

/// What the outcomes of one term's scrapes combine to: the error of the
/// failure that ended first, or, where none failed, a summary for each
/// course in the order of the list.
pub open spec fn collected(term: Seq<char>, finished: Seq<FinishedView>) -> Result<
    Seq<SummaryView>,
    ScrapeErrorView,
> {
    match first_failure(finished, finished.len() as int) {
        Some(i) => Err(finished[i].outcome->Err_0),
        None => Ok(Seq::new(finished.len(), |j: int| summary_of(term, finished[j]))),
    }
}

/// `first_failure` names the failure that ended first, and names none only
/// where nothing failed.
pub proof fn lemma_first_failure(finished: Seq<FinishedView>, upto: int)
    requires
        0 <= upto <= finished.len(),
    ensures
        match first_failure(finished, upto) {
            Some(i) => fails_first(finished.take(upto), i),
            None => forall|j: int| 0 <= j < upto ==> (#[trigger] finished[j]).outcome is Ok,
        },
    decreases upto,
{
    if upto > 0 {
        lemma_first_failure(finished, upto - 1);
        let before = first_failure(finished, upto - 1);
        let now = first_failure(finished, upto);
        if now is Some {
            let i = now.unwrap();
            assert forall|j: int|
                0 <= j < upto && (#[trigger] finished.take(upto)[j]).outcome is Err implies finished[i].order
                < finished[j].order || (finished[i].order == finished[j].order && i <= j) by {
                if j < upto - 1 && before is Some {
                    assert(finished.take(upto - 1)[j] == finished[j]);
                }
            }
        }
    }
}

/// One failed scrape fails the term: where any outcome is a failure, the
/// outcomes combine to an error, and to the summaries only where none is.
pub proof fn lemma_one_failure_fails_all(term: Seq<char>, finished: Seq<FinishedView>)
    ensures
        collected(term, finished) is Err <==> exists|j: int|
            0 <= j < finished.len() && (#[trigger] finished[j]).outcome is Err,
{
    lemma_first_failure(finished, finished.len() as int);
    match first_failure(finished, finished.len() as int) {
        Some(i) => {
            assert(finished.take(finished.len() as int) =~= finished);
            assert(finished[i].outcome is Err);
        },
        None => {},
    }
}

/// The outcome of the scrape of one course: title and description of the
/// page on success of the transport, its complaint on failure.
pub fn scrape_outcome(fetched: Result<String, String>) -> (r: Result<(String, String), ScrapeError>)
    ensures
        match fetched {
            Ok(html) => match basic_info(html_nodes(html@)) {
                Ok(found) => r matches Ok(got) && got.0@ == found.0 && got.1@ == found.1,
                Err(field) => r matches Err(e) && e@ == ScrapeErrorView::Extraction(field),
            },
            Err(said) => r matches Err(e) && e@ == ScrapeErrorView::Transport(said@),
        },
{
    match fetched {
        Ok(html) => {
            let page = Page::parse(html.as_str());
            match Scraper::new().scrape_basic(&page) {
                Ok(found) => Ok(found),
                Err(e) => Err(ScrapeError::Extraction(e)),
            }
        },
        Err(said) => Err(ScrapeError::Transport(said)),
    }
}

/// The position of the failure that ended first.
pub fn earliest_failure(finished: &Vec<Finished>) -> (r: Option<usize>)
    ensures
        match r {
            Some(i) => first_failure(finished_views(finished@), finished@.len() as int) == Some(
                i as int,
            ),
            None => first_failure(finished_views(finished@), finished@.len() as int) is None,
        },
{
    let mut best: Option<usize> = None;
    let mut j: usize = 0;
    while j < finished.len()
        invariant
            j <= finished.len(),
            match best {
                Some(i) => i < j && first_failure(finished_views(finished@), j as int) == Some(
                    i as int,
                ),
                None => first_failure(finished_views(finished@), j as int) is None,
            },
        decreases finished.len() - j,
    {
        if finished[j].outcome.is_err() {
            match best {
                Some(i) => {
                    if finished[j].order < finished[i].order {
                        best = Some(j);
                    }
                },
                None => {
                    best = Some(j);
                },
            }
        }
        j = j + 1;
    }
    best
}

/// Combines the outcomes of the scrapes of the courses of `term`: the error
/// of the failure that ended first, or a summary for each course.
pub fn collect_courses(term: &str, finished: Vec<Finished>) -> (r: Result<
    Vec<CourseSummary>,
    ScrapeError,
>)
    ensures
        match r {
            Ok(found) => collected(term@, finished_views(finished@)) == Ok::<
                Seq<SummaryView>,
                ScrapeErrorView,
            >(summary_views(found@)),
            Err(e) => collected(term@, finished_views(finished@)) == Err::<
                Seq<SummaryView>,
                ScrapeErrorView,
            >(e@),
        },
{
    let ghost all = finished_views(finished@);
    let count = finished.len();
    proof {
        lemma_first_failure(all, all.len() as int);
        assert(all.take(all.len() as int) =~= all);
    }
    match earliest_failure(&finished) {
        Some(i) => {
            let mut finished = finished;
            let first = finished.remove(i);
            assert(first@ == all[i as int]);
            match first.outcome {
                Err(e) => Err(e),
                Ok(_) => unreached(),
            }
        },
        None => {
            let mut found: Vec<CourseSummary> = Vec::new();
            let mut at: usize = 0;
            for f in it: finished
                invariant
                    all == finished_views(it.seq()),
                    all.len() == count,
                    at == it.index(),
                    found.len() == at,
                    forall|j: int| 0 <= j < all.len() ==> (#[trigger] all[j]).outcome is Ok,
                    forall|j: int| 0 <= j < at ==> (#[trigger] found@[j])@ == summary_of(term@, all[j]),
            {
                assert(all[at as int] == f@);
                match f.outcome {
                    Ok(text) => {
                        let summary = CourseSummary {
                            term: term.to_owned(),
                            code: f.code,
                            title: text.0,
                            description: text.1,
                        };
                        assert(summary@ == summary_of(term@, all[at as int]));
                        found.push(summary);
                    },
                    Err(_) => unreached(),
                }
                at = at + 1;
            }
            assert(summary_views(found@) =~= collected(term@, all)->Ok_0);
            Ok(found)
        },
    }
}

/// What the transport is told where an answer does not fit the question.
pub const UNEXPECTED: &'static str = "unexpected reply";

/// The state of a build of the corpus.
#[derive(Debug)]
pub enum Build {
    /// The list of terms was asked for.
    Terms,
    /// The list of the courses of `terms[at]` was asked for; `done` holds
    /// the summaries of the terms before it.
    CourseList { terms: Vec<String>, at: usize, done: Vec<CourseSummary> },
    /// The scrapes of the courses `codes` of `terms[at]` were asked for.
    Courses { terms: Vec<String>, at: usize, done: Vec<CourseSummary>, codes: Vec<String> },
    /// The corpus is complete.
    Done(Vec<CourseSummary>),
    /// The build failed; there is no corpus.
    Failed(ScrapeError),
}

/// A state of a build as plain text.
pub enum BuildView {
    Terms,
    CourseList { terms: Seq<Seq<char>>, at: int, done: Seq<SummaryView> },
    Courses { terms: Seq<Seq<char>>, at: int, done: Seq<SummaryView>, codes: Seq<Seq<char>> },
    Done(Seq<SummaryView>),
    Failed(ScrapeErrorView),
}

impl View for Build {
    type V = BuildView;

    open spec fn view(&self) -> BuildView {
        match self {
            Build::Terms => BuildView::Terms,
            Build::CourseList { terms, at, done } => BuildView::CourseList {
                terms: views(terms@),
                at: *at as int,
                done: summary_views(done@),
            },
            Build::Courses { terms, at, done, codes } => BuildView::Courses {
                terms: views(terms@),
                at: *at as int,
                done: summary_views(done@),
                codes: views(codes@),
            },
            Build::Done(corpus) => BuildView::Done(summary_views(corpus@)),
            Build::Failed(e) => BuildView::Failed(e@),
        }
    }
}

/// What the build asks of the portal next.
#[derive(Debug)]
pub enum Request {
    /// The page with the list of terms.
    TermList,
    /// The page with the courses of this term.
    CourseList(String),
    /// The course page of each of these courses of this term, scraped, in
    /// parallel, with the order in which the scrapes end.
    Courses { term: String, codes: Vec<String> },
    /// Nothing: the build is over.
    Nothing,
}

/// A request as plain text.
pub enum RequestView {
    TermList,
    CourseList(Seq<char>),
    Courses { term: Seq<char>, codes: Seq<Seq<char>> },
    Nothing,
}

impl View for Request {
    type V = RequestView;

    open spec fn view(&self) -> RequestView {
        match self {
            Request::TermList => RequestView::TermList,
            Request::CourseList(term) => RequestView::CourseList(term@),
            Request::Courses { term, codes } => RequestView::Courses {
                term: term@,
                codes: views(codes@),
            },
            Request::Nothing => RequestView::Nothing,
        }
    }
}

/// What came back for a request.
#[derive(Debug)]
pub enum Event {
    /// The text of the page asked for, or what the transport said instead.
    Fetched(Result<String, String>),
    /// The outcomes of the scrapes asked for.
    Scraped(Vec<Finished>),
}

/// An event as plain text.
pub enum EventView {
    Fetched(Result<Seq<char>, Seq<char>>),
    Scraped(Seq<FinishedView>),
}

impl View for Event {
    type V = EventView;

    open spec fn view(&self) -> EventView {
        match self {
            Event::Fetched(Ok(html)) => EventView::Fetched(Ok(html@)),
            Event::Fetched(Err(said)) => EventView::Fetched(Err(said@)),
            Event::Scraped(finished) => EventView::Scraped(finished_views(finished@)),
        }
    }
}

/// The codes of the courses of `finished`, in order.
pub open spec fn codes_of(finished: Seq<FinishedView>) -> Seq<Seq<char>> {
    Seq::new(finished.len(), |j: int| finished[j].code)
}

/// The build refuses an answer that does not fit its question.
pub open spec fn refused() -> (BuildView, RequestView) {
    (BuildView::Failed(ScrapeErrorView::Transport(UNEXPECTED@)), RequestView::Nothing)
}

/// The state in which the courses of `terms[at]` are asked for, where
/// there is such a term, and the end of the build where there is none.
pub open spec fn onwards(terms: Seq<Seq<char>>, at: int, done: Seq<SummaryView>) -> (
    BuildView,
    RequestView,
) {
    if 0 <= at < terms.len() {
        (BuildView::CourseList { terms, at, done }, RequestView::CourseList(terms[at]))
    } else {
        (BuildView::Done(done), RequestView::Nothing)
    }
}

/// The state that follows `state` on `event`, and what to ask for next.
///
/// A page that cannot be had or lacks what it should hold, and a failed
/// scrape, end the build in failure. The terms are worked through in the
/// order of the list of terms; the summaries of a term are added only when
/// every course of it was scraped. An ended build stays as it is.
pub open spec fn next(state: BuildView, event: EventView) -> (BuildView, RequestView) {
    match state {
        BuildView::Terms => match event {
            EventView::Fetched(Ok(html)) => match term_codes(html_nodes(html)) {
                Ok(terms) => onwards(terms, 0, Seq::empty()),
                Err(field) => (
                    BuildView::Failed(ScrapeErrorView::Extraction(field)),
                    RequestView::Nothing,
                ),
            },
            EventView::Fetched(Err(said)) => (
                BuildView::Failed(ScrapeErrorView::Transport(said)),
                RequestView::Nothing,
            ),
            EventView::Scraped(_) => refused(),
        },
        BuildView::CourseList { terms, at, done } => match event {
            EventView::Fetched(Ok(html)) => if 0 <= at < terms.len() {
                match course_codes(html_nodes(html)) {
                    Ok(codes) => (
                        BuildView::Courses { terms, at, done, codes },
                        RequestView::Courses { term: terms[at], codes },
                    ),
                    Err(field) => (
                        BuildView::Failed(ScrapeErrorView::Extraction(field)),
                        RequestView::Nothing,
                    ),
                }
            } else {
                refused()
            },
            EventView::Fetched(Err(said)) => (
                BuildView::Failed(ScrapeErrorView::Transport(said)),
                RequestView::Nothing,
            ),
            EventView::Scraped(_) => refused(),
        },
        BuildView::Courses { terms, at, done, codes } => match event {
            EventView::Scraped(finished) => if 0 <= at < terms.len() && codes_of(finished)
                == codes {
                match collected(terms[at], finished) {
                    Ok(found) => onwards(terms, at + 1, done + found),
                    Err(e) => (BuildView::Failed(e), RequestView::Nothing),
                }
            } else {
                refused()
            },
            EventView::Fetched(_) => refused(),
        },
        BuildView::Done(corpus) => (BuildView::Done(corpus), RequestView::Nothing),
        BuildView::Failed(e) => (BuildView::Failed(e), RequestView::Nothing),
    }
}

/// A failed scrape of any course fails the build: there will be no corpus.
pub proof fn lemma_failed_scrape_fails_build(
    terms: Seq<Seq<char>>,
    at: int,
    done: Seq<SummaryView>,
    codes: Seq<Seq<char>>,
    finished: Seq<FinishedView>,
    j: int,
)
    requires
        0 <= j < finished.len(),
        finished[j].outcome is Err,
    ensures
        next(BuildView::Courses { terms, at, done, codes }, EventView::Scraped(finished)).0 is Failed,
{
    if 0 <= at < terms.len() {
        lemma_one_failure_fails_all(terms[at], finished);
    }
}

/// A failed build stays failed, whatever comes in, and asks for nothing
/// more.
pub proof fn lemma_failure_is_final(e: ScrapeErrorView, event: EventView)
    ensures
        next(BuildView::Failed(e), event) == (BuildView::Failed(e), RequestView::Nothing),
{
}

impl Build {
    /// The start of a build, and its first request: the list of terms.
    pub fn start() -> (r: (Build, Request))
        ensures
            r.0@ == BuildView::Terms,
            r.1@ == RequestView::TermList,
    {
        (Build::Terms, Request::TermList)
    }

    /// The corpus, once the build is complete.
    pub fn corpus(self) -> (r: Option<Vec<CourseSummary>>)
        ensures
            match r {
                Some(corpus) => self@ == BuildView::Done(summary_views(corpus@)),
                None => !(self@ is Done),
            },
    {
        match self {
            Build::Done(corpus) => Some(corpus),
            _ => None,
        }
    }

    /// The build refuses an answer that does not fit its question.
    fn refuse() -> (r: (Build, Request))
        ensures
            (r.0@, r.1@) == refused(),
    {
        (Build::Failed(ScrapeError::Transport(String::from_str(UNEXPECTED))), Request::Nothing)
    }

    /// Goes on to `terms[at]`, or ends the build where there is no such
    /// term.
    fn proceed(terms: Vec<String>, at: usize, done: Vec<CourseSummary>) -> (r: (Build, Request))
        ensures
            (r.0@, r.1@) == onwards(views(terms@), at as int, summary_views(done@)),
    {
        if at < terms.len() {
            let term = terms[at].clone();
            (Build::CourseList { terms, at, done }, Request::CourseList(term))
        } else {
            (Build::Done(done), Request::Nothing)
        }
    }

    /// The codes of the courses of `finished`, in order.
    fn codes(finished: &Vec<Finished>) -> (r: Vec<String>)
        ensures
            views(r@) == codes_of(finished_views(finished@)),
    {
        let mut r: Vec<String> = Vec::new();
        let mut j: usize = 0;
        while j < finished.len()
            invariant
                j <= finished.len(),
                r.len() == j,
                forall|k: int| 0 <= k < j ==> (#[trigger] r@[k])@ == finished@[k].code@,
            decreases finished.len() - j,
        {
            r.push(finished[j].code.clone());
            j = j + 1;
        }
        assert(views(r@) =~= codes_of(finished_views(finished@)));
        r
    }

    /// Takes in what came back for the last request: the state that
    /// follows, and what to ask for next.
    pub fn step(self, event: Event) -> (r: (Build, Request))
        ensures
            (r.0@, r.1@) == next(self@, event@),
    {
        match self {
            Build::Terms => match event {
                Event::Fetched(Ok(html)) => {
                    let page = Page::parse(html.as_str());
                    match Scraper::new().scrape(&page) {
                        Ok(terms) => {
                            let done: Vec<CourseSummary> = Vec::new();
                            assert(summary_views(done@) =~= Seq::<SummaryView>::empty());
                            Build::proceed(terms, 0, done)
                        },
                        Err(e) => (Build::Failed(ScrapeError::Extraction(e)), Request::Nothing),
                    }
                },
                Event::Fetched(Err(said)) => (
                    Build::Failed(ScrapeError::Transport(said)),
                    Request::Nothing,
                ),
                Event::Scraped(_) => Build::refuse(),
            },
            Build::CourseList { terms, at, done } => match event {
                Event::Fetched(Ok(html)) => {
                    if at >= terms.len() {
                        return Build::refuse();
                    }
                    let page = Page::parse(html.as_str());
                    match Scraper::new().scrape_courses(&page) {
                        Ok(codes) => {
                            let term = terms[at].clone();
                            let asked = crate::text::copy_strings(&codes);
                            (
                                Build::Courses { terms, at, done, codes },
                                Request::Courses { term, codes: asked },
                            )
                        },
                        Err(e) => (Build::Failed(ScrapeError::Extraction(e)), Request::Nothing),
                    }
                },
                Event::Fetched(Err(said)) => (
                    Build::Failed(ScrapeError::Transport(said)),
                    Request::Nothing,
                ),
                Event::Scraped(_) => Build::refuse(),
            },
            Build::Courses { terms, at, done, codes } => match event {
                Event::Scraped(finished) => {
                    if at >= terms.len() {
                        return Build::refuse();
                    }
                    let scraped = Build::codes(&finished);
                    if !crate::text::same_strings(&scraped, &codes) {
                        return Build::refuse();
                    }
                    match collect_courses(terms[at].as_str(), finished) {
                        Ok(found) => {
                            let mut done = done;
                            let mut found = found;
                            let ghost before = summary_views(done@);
                            let ghost added = summary_views(found@);
                            done.append(&mut found);
                            assert(summary_views(done@) =~= before + added);
                            Build::proceed(terms, at + 1, done)
                        },
                        Err(e) => (Build::Failed(e), Request::Nothing),
                    }
                },
                Event::Fetched(_) => Build::refuse(),
            },
            Build::Done(corpus) => (Build::Done(corpus), Request::Nothing),
            Build::Failed(e) => (Build::Failed(e), Request::Nothing),
        }
    }
}

} // verus!
