//! The full detail of one course, page by page: which page to ask the
//! portal for next, and what to make of the answer.

use vstd::prelude::*;
use crate::corpus::{ScrapeError, ScrapeErrorView};
use crate::course::{
    instructor_views, Course, CoursePage, CoursePageView, CourseView, Instructor, InstructorView,
};
use crate::dom::{html_nodes, Page};
use crate::portal::{
    asks_for, course_details, course_instructors, course_request, number_of, search_request,
    sections, short_code, PortalRequest, PortalRequestView, DETAILS_ACTION, INSTRUCTORS_ACTION,
    NUMBER_LENGTH,
};
use crate::scraper::{assembled, course_detail, course_page, instructors, not_found, Scraper};

verus! {

/// How far the scrape of the full detail of a course has come.
#[derive(Debug)]
pub enum Detail {
    /// The main page was asked for.
    Main,
    /// The main page was read; the instructors page was asked for.
    People { page: CoursePage },
    /// Main page and instructors were read; the listing of the sections
    /// was asked for.
    Listing { page: CoursePage, instructors: Vec<Instructor> },
    /// The scrape is over: the course, or nothing where the portal does not
    /// know it.
    Done(Option<Course>),
    /// The scrape failed.
    Failed(ScrapeError),
}

/// A state of a detail scrape as plain text.
pub enum DetailView {
    Main,
    People { page: CoursePageView },
    Listing { page: CoursePageView, instructors: Seq<InstructorView> },
    Done(Option<CourseView>),
    Failed(ScrapeErrorView),
}

impl View for Detail {
    type V = DetailView;

    open spec fn view(&self) -> DetailView {
        match self {
            Detail::Main => DetailView::Main,
            Detail::People { page } => DetailView::People { page: page@ },
            Detail::Listing { page, instructors } => DetailView::Listing {
                page: page@,
                instructors: instructor_views(instructors@),
            },
            Detail::Done(Some(course)) => DetailView::Done(Some(course@)),
            Detail::Done(None) => DetailView::Done(None),
            Detail::Failed(e) => DetailView::Failed(e@),
        }
    }
}

/// What a detail scrape asks of the portal next.
#[derive(Debug)]
pub enum DetailRequest {
    /// The page that this request gives.
    Fetch(PortalRequest),
    /// Nothing: the scrape is over.
    Nothing,
}

/// A request of a detail scrape as plain text.
pub enum DetailRequestView {
    Fetch(PortalRequestView),
    Nothing,
}

impl View for DetailRequest {
    type V = DetailRequestView;

    open spec fn view(&self) -> DetailRequestView {
        match self {
            DetailRequest::Fetch(request) => DetailRequestView::Fetch(request@),
            DetailRequest::Nothing => DetailRequestView::Nothing,
        }
    }
}

/// What came back for a request, as plain text: the text of the page, or
/// what the transport said instead.
pub open spec fn fetched_view(fetched: Result<String, String>) -> Result<Seq<char>, Seq<char>> {
    match fetched {
        Ok(html) => Ok(html@),
        Err(said) => Err(said@),
    }
}

/// The scrape goes on in `state` with `request`, where the code `code`
/// holds a course number; it fails, for the course code, where the code is
/// too short.
pub open spec fn goes_on(state: DetailView, code: Seq<char>, request: PortalRequestView) -> (
    DetailView,
    DetailRequestView,
) {
    if code.len() >= NUMBER_LENGTH {
        (state, DetailRequestView::Fetch(request))
    } else {
        (DetailView::Failed(short_code()), DetailRequestView::Nothing)
    }
}

/// The scrape has failed because a page lacks `field`.
pub open spec fn lacks(field: Seq<char>) -> (DetailView, DetailRequestView) {
    (DetailView::Failed(ScrapeErrorView::Extraction(field)), DetailRequestView::Nothing)
}

/// The first state of the scrape of the course `code` of `term`, and its
/// first request: the main page.
pub open spec fn detail_start(term: Seq<char>, code: Seq<char>) -> (DetailView, DetailRequestView) {
    goes_on(DetailView::Main, code, course_request(term, code, DETAILS_ACTION@))
}

/// The state that follows `state` when `fetched` comes back for its
/// request, and what to ask for next, in the scrape of the course `code`
/// of `term`.
///
/// A page that cannot be had fails the scrape. The main page is read
/// first: where it says that the portal does not know the course, the
/// scrape is over without a course and nothing more is asked for; where it
/// lacks something, the scrape fails. The instructors page is asked for and
/// read next, then the listing of the sections, from which the course is
/// put together. A scrape that is over stays as it is.
pub open spec fn detail_next(
    state: DetailView,
    term: Seq<char>,
    code: Seq<char>,
    fetched: Result<Seq<char>, Seq<char>>,
) -> (DetailView, DetailRequestView) {
    match state {
        DetailView::Done(course) => (DetailView::Done(course), DetailRequestView::Nothing),
        DetailView::Failed(e) => (DetailView::Failed(e), DetailRequestView::Nothing),
        _ => match fetched {
            Err(said) => (
                DetailView::Failed(ScrapeErrorView::Transport(said)),
                DetailRequestView::Nothing,
            ),
            Ok(html) => match state {
                DetailView::Main => if not_found(html_nodes(html)) {
                    (DetailView::Done(None), DetailRequestView::Nothing)
                } else {
                    match course_page(html_nodes(html)) {
                        Err(field) => lacks(field),
                        Ok(page) => goes_on(
                            DetailView::People { page },
                            code,
                            course_request(term, code, INSTRUCTORS_ACTION@),
                        ),
                    }
                },
                DetailView::People { page } => match instructors(html_nodes(html)) {
                    Err(field) => lacks(field),
                    Ok(taught_by) => goes_on(
                        DetailView::Listing { page, instructors: taught_by },
                        code,
                        search_request(term, number_of(code)),
                    ),
                },
                DetailView::Listing { page, instructors } => match crate::scraper::sections(
                    html_nodes(html),
                ) {
                    Err(field) => lacks(field),
                    Ok(listed) => match assembled(code, page, instructors, listed) {
                        Err(field) => lacks(field),
                        Ok(course) => (DetailView::Done(Some(course)), DetailRequestView::Nothing),
                    },
                },
                DetailView::Done(course) => (DetailView::Done(course), DetailRequestView::Nothing),
                DetailView::Failed(e) => (DetailView::Failed(e), DetailRequestView::Nothing),
            },
        },
    }
}

/// What a scrape that is over has come to: the course or nothing, or the
/// name of what a page lacked.
pub open spec fn come_to(state: DetailView) -> Option<Result<Option<CourseView>, Seq<char>>> {
    match state {
        DetailView::Done(course) => Some(Ok(course)),
        DetailView::Failed(ScrapeErrorView::Extraction(field)) => Some(Err(field)),
        _ => None,
    }
}

/// Page by page, the scrape comes to what the three pages give together:
/// where every page can be had, the state after the third answer holds the
/// full detail of the course as `course_detail` puts it together. The
/// second and third answer are not looked at where the first ends the
/// scrape.
pub proof fn lemma_steps_give_detail(
    term: Seq<char>,
    code: Seq<char>,
    main: Seq<char>,
    people: Seq<char>,
    listing: Seq<char>,
)
    requires
        code.len() >= NUMBER_LENGTH,
    ensures
        ({
            let first = detail_next(DetailView::Main, term, code, Ok(main)).0;
            let second = detail_next(first, term, code, Ok(people)).0;
            let third = detail_next(second, term, code, Ok(listing)).0;
            come_to(third) == Some(
                course_detail(code, html_nodes(main), html_nodes(people), html_nodes(listing)),
            )
        }),
{
}

/// A course that the portal does not know ends the scrape at the main
/// page, without a course and without an error, and nothing more is asked
/// for.
pub proof fn lemma_unknown_course_ends_scrape(term: Seq<char>, code: Seq<char>, main: Seq<char>)
    requires
        not_found(html_nodes(main)),
    ensures
        detail_next(DetailView::Main, term, code, Ok(main)) == (
            DetailView::Done(None),
            DetailRequestView::Nothing,
        ),
{
}

impl Detail {
    /// Goes on in `state` with `request`, or fails where no request could
    /// be made of the code `code`.
    fn go_on(
        state: Detail,
        request: Result<PortalRequest, ScrapeError>,
        Ghost(code): Ghost<Seq<char>>,
        Ghost(asked): Ghost<PortalRequestView>,
    ) -> (r: (Detail, DetailRequest))
        requires
            asks_for(request, code, asked),
        ensures
            (r.0@, r.1@) == goes_on(state@, code, asked),
    {
        match request {
            Ok(made) => (state, DetailRequest::Fetch(made)),
            Err(e) => (Detail::Failed(e), DetailRequest::Nothing),
        }
    }

    /// The start of the scrape of the course `code` of `term`, and its
    /// first request: the main page.
    pub fn start(term: &str, code: &str) -> (r: (Detail, DetailRequest))
        ensures
            (r.0@, r.1@) == detail_start(term@, code@),
    {
        Detail::go_on(
            Detail::Main,
            course_details(term, code),
            Ghost(code@),
            Ghost(course_request(term@, code@, DETAILS_ACTION@)),
        )
    }

    /// What the scrape has come to, once it is over.
    pub fn outcome(self) -> (r: Option<Result<Option<Course>, ScrapeError>>)
        ensures
            match r {
                Some(Ok(Some(course))) => self@ == DetailView::Done(Some(course@)),
                Some(Ok(None)) => self@ == DetailView::Done(None),
                Some(Err(e)) => self@ == DetailView::Failed(e@),
                None => !(self@ is Done) && !(self@ is Failed),
            },
    {
        match self {
            Detail::Done(course) => Some(Ok(course)),
            Detail::Failed(e) => Some(Err(e)),
            _ => None,
        }
    }

    /// Takes in what came back for the last request: the state that
    /// follows, and what to ask for next.
    pub fn step(self, term: &str, code: &str, fetched: Result<String, String>) -> (r: (
        Detail,
        DetailRequest,
    ))
        ensures
            (r.0@, r.1@) == detail_next(self@, term@, code@, fetched_view(fetched)),
    {
        let html = match self {
            Detail::Done(course) => {
                return (Detail::Done(course), DetailRequest::Nothing);
            },
            Detail::Failed(e) => {
                return (Detail::Failed(e), DetailRequest::Nothing);
            },
            _ => match fetched {
                Ok(html) => html,
                Err(said) => {
                    return (Detail::Failed(ScrapeError::Transport(said)), DetailRequest::Nothing);
                },
            },
        };
        let fetched_page = Page::parse(html.as_str());
        let scraper = Scraper::new();
        match self {
            Detail::Main => {
                if scraper.is_not_found(&fetched_page) {
                    return (Detail::Done(None), DetailRequest::Nothing);
                }
                match scraper.scrape_page(&fetched_page) {
                    Ok(page) => Detail::go_on(
                        Detail::People { page },
                        course_instructors(term, code),
                        Ghost(code@),
                        Ghost(course_request(term@, code@, INSTRUCTORS_ACTION@)),
                    ),
                    Err(e) => (Detail::Failed(ScrapeError::Extraction(e)), DetailRequest::Nothing),
                }
            },
            Detail::People { page } => match scraper.scrape_instructors(&fetched_page) {
                Ok(instructors) => Detail::go_on(
                    Detail::Listing { page, instructors },
                    sections(term, code),
                    Ghost(code@),
                    Ghost(search_request(term@, number_of(code@))),
                ),
                Err(e) => (Detail::Failed(ScrapeError::Extraction(e)), DetailRequest::Nothing),
            },
            Detail::Listing { page, instructors } => match scraper.scrape_sections(&fetched_page) {
                Ok(listed) => match scraper.assemble(code, page, instructors, listed) {
                    Ok(course) => (Detail::Done(Some(course)), DetailRequest::Nothing),
                    Err(e) => (Detail::Failed(ScrapeError::Extraction(e)), DetailRequest::Nothing),
                },
                Err(e) => (Detail::Failed(ScrapeError::Extraction(e)), DetailRequest::Nothing),
            },
            Detail::Done(course) => (Detail::Done(course), DetailRequest::Nothing),
            Detail::Failed(e) => (Detail::Failed(e), DetailRequest::Nothing),
        }
    }
}

} // verus!
