//! The requests that the portal answers: where each goes and what it
//! carries. Nothing here touches the network.

use vstd::prelude::*;
use vstd::string::StringExecFns;
use crate::corpus::{ScrapeError, ScrapeErrorView};
use crate::course::ParseError;
use crate::text::{chars_of, pair, pairs, string_of};

verus! {

/// Address of the portal's course search.
pub const SEARCH_URL: &'static str = "https://my.uwindsor.ca/web/uw/course-search";

/// Name of the parameter that says what the portal is to do.
pub const ACTION: &'static str =
    "_uwinregistrationcoursesearch_WAR_uwinregistrationtoolsportlet_struts.portlet.action";

/// Name of the parameter that carries the term of a course page.
pub const DETAILS_TERM: &'static str =
    "_uwinregistrationcoursesearch_WAR_uwinregistrationtoolsportlet_courseDetailsForm.acadtermCode";

/// Name of the parameter that carries the course number of a course page.
pub const DETAILS_ACTIVITY: &'static str =
    "_uwinregistrationcoursesearch_WAR_uwinregistrationtoolsportlet_courseDetailsForm.activityCode";

/// Name of the parameter that carries the section of a course page.
pub const DETAILS_SECTION: &'static str =
    "_uwinregistrationcoursesearch_WAR_uwinregistrationtoolsportlet_courseDetailsForm.sectionNo";

/// The number of characters of a course code that make up the course
/// number; the section follows them.
pub const NUMBER_LENGTH: usize = 7;

/// How a request is sent.
#[derive(Debug, Clone, Copy, PartialEq, Eq, Structural)]
pub enum Method {
    Get,
    Post,
}

/// A request to the portal: method, address, the parameters of the query
/// string and those of the form, each in order.
#[derive(Debug)]
pub struct PortalRequest {
    pub method: Method,
    pub url: String,
    pub query: Vec<(String, String)>,
    pub form: Vec<(String, String)>,
}

/// A request as plain text.
pub struct PortalRequestView {
    pub method: Method,
    pub url: Seq<char>,
    pub query: Seq<(Seq<char>, Seq<char>)>,
    pub form: Seq<(Seq<char>, Seq<char>)>,
}

impl View for PortalRequest {
    type V = PortalRequestView;

    open spec fn view(&self) -> PortalRequestView {
        PortalRequestView {
            method: self.method,
            url: self.url@,
            query: pairs(self.query@),
            form: pairs(self.form@),
        }
    }
}

/// The parameters that every request carries in its query string.
pub open spec fn base_query() -> Seq<(Seq<char>, Seq<char>)> {
    seq![
        ("p_p_id"@, "uwinregistrationcoursesearch_WAR_uwinregistrationtoolsportlet"@),
        ("p_p_lifecycle"@, "0"@),
        ("p_p_state"@, "exclusive"@),
        ("p_p_mode"@, "view"@),
        ("p_p_col_id"@, "column-1"@),
        ("p_p_col_count"@, "1"@),
        (
            "_uwinregistrationcoursesearch_WAR_uwinregistrationtoolsportlet_struts.portlet.mode"@,
            "view"@,
        ),
    ]
}

/// The form of a course search in `term` for the course number `number`;
/// an empty number searches for every course.
pub open spec fn search_form(term: Seq<char>, number: Seq<char>) -> Seq<(Seq<char>, Seq<char>)> {
    seq![
        ("acadtermCode"@, term),
        ("advancedSearch"@, "false"@),
        ("courseSearchForm.acadLevel"@, ""@),
        ("courseSearchForm.courseNumber"@, number),
        ("courseSearchForm.searchBy"@, "Course"@),
        ("courseSearchForm.subject"@, " "@),
    ]
}

/// The request for the list of terms.
pub open spec fn term_list_request() -> PortalRequestView {
    PortalRequestView {
        method: Method::Get,
        url: SEARCH_URL@,
        query: base_query(),
        form: Seq::empty(),
    }
}

/// The request for a course search in `term` for the course number
/// `number`.
pub open spec fn search_request(term: Seq<char>, number: Seq<char>) -> PortalRequestView {
    PortalRequestView {
        method: Method::Post,
        url: SEARCH_URL@,
        query: base_query().push((ACTION@, "/courseSearch/ExecuteCourseSearch"@)),
        form: search_form(term, number),
    }
}

/// The course number of a course code: its first seven characters.
pub open spec fn number_of(code: Seq<char>) -> Seq<char> {
    code.subrange(0, NUMBER_LENGTH as int)
}

/// The section of a course code: what follows its first seven characters.
pub open spec fn section_of(code: Seq<char>) -> Seq<char> {
    code.subrange(NUMBER_LENGTH as int, code.len() as int)
}

/// The request for a page of the course `code` of `term`; `action` says
/// which page.
pub open spec fn course_request(term: Seq<char>, code: Seq<char>, action: Seq<char>) -> PortalRequestView {
    PortalRequestView {
        method: Method::Get,
        url: SEARCH_URL@,
        query: base_query() + seq![
            (DETAILS_TERM@, term),
            (DETAILS_ACTIVITY@, number_of(code)),
            (DETAILS_SECTION@, section_of(code)),
            (ACTION@, action),
        ],
        form: Seq::empty(),
    }
}

/// The parameters that every request carries in its query string.
fn base() -> (v: Vec<(String, String)>)
    ensures
        pairs(v@) == base_query(),
{
    let mut v: Vec<(String, String)> = Vec::new();
    v.push(pair("p_p_id", "uwinregistrationcoursesearch_WAR_uwinregistrationtoolsportlet"));
    v.push(pair("p_p_lifecycle", "0"));
    v.push(pair("p_p_state", "exclusive"));
    v.push(pair("p_p_mode", "view"));
    v.push(pair("p_p_col_id", "column-1"));
    v.push(pair("p_p_col_count", "1"));
    v.push(
        pair(
            "_uwinregistrationcoursesearch_WAR_uwinregistrationtoolsportlet_struts.portlet.mode",
            "view",
        ),
    );
    assert(pairs(v@) =~= base_query());
    v
}

/// The course number and the section of a course code: its first seven
/// characters, and the rest. `None` for a code of fewer characters.
pub fn split_code(code: &str) -> (r: Option<(String, String)>)
    ensures
        r is Some <==> code@.len() >= NUMBER_LENGTH,
        r matches Some(parts) ==> parts.0@ == number_of(code@) && parts.1@ == section_of(code@),
{
    let chars = chars_of(code);
    if chars.len() < NUMBER_LENGTH {
        return None;
    }
    Some((string_of(&chars, 0, NUMBER_LENGTH), string_of(&chars, NUMBER_LENGTH, chars.len())))
}

/// The request for the list of terms.
pub fn term_list() -> (r: PortalRequest)
    ensures
        r@ == term_list_request(),
{
    let r = PortalRequest {
        method: Method::Get,
        url: String::from_str(SEARCH_URL),
        query: base(),
        form: Vec::new(),
    };
    assert(pairs(r.form@) =~= Seq::empty());
    r
}

/// The request for a course search in `term` for the course number
/// `number`.
fn search(term: &str, number: &str) -> (r: PortalRequest)
    ensures
        r@ == search_request(term@, number@),
{
    let mut query = base();
    query.push(pair(ACTION, "/courseSearch/ExecuteCourseSearch"));
    let mut form: Vec<(String, String)> = Vec::new();
    form.push(pair("acadtermCode", term));
    form.push(pair("advancedSearch", "false"));
    form.push(pair("courseSearchForm.acadLevel", ""));
    form.push(pair("courseSearchForm.courseNumber", number));
    form.push(pair("courseSearchForm.searchBy", "Course"));
    form.push(pair("courseSearchForm.subject", " "));
    assert(pairs(query@) =~= search_request(term@, number@).query);
    assert(pairs(form@) =~= search_form(term@, number@));
    PortalRequest { method: Method::Post, url: String::from_str(SEARCH_URL), query, form }
}

/// The request for the list of all courses of `term`.
pub fn course_list(term: &str) -> (r: PortalRequest)
    ensures
        r@ == search_request(term@, ""@),
{
    search(term, "")
}

/// What is wrong with a course code that is too short to hold a course
/// number: the code of the course is what a page lacked.
pub open spec fn short_code() -> ScrapeErrorView {
    ScrapeErrorView::Extraction("course code"@)
}

/// Whether `r` is `request` for a code `code` that holds a course number,
/// and the failure of a code that is too short for any other.
pub open spec fn asks_for(
    r: Result<PortalRequest, ScrapeError>,
    code: Seq<char>,
    request: PortalRequestView,
) -> bool {
    match r {
        Ok(made) => code.len() >= NUMBER_LENGTH && made@ == request,
        Err(e) => code.len() < NUMBER_LENGTH && e@ == short_code(),
    }
}

/// The failure of a course code that is too short.
fn too_short() -> (e: ScrapeError)
    ensures
        e@ == short_code(),
{
    ScrapeError::Extraction(ParseError("course code"))
}

/// The request for the listing of the sections of the course with the code
/// `code` in `term`: a search for its course number. A code of fewer than
/// seven characters holds no course number: that is a failure of
/// extraction, of the course code.
pub fn sections(term: &str, code: &str) -> (r: Result<PortalRequest, ScrapeError>)
    ensures
        asks_for(r, code@, search_request(term@, number_of(code@))),
{
    match split_code(code) {
        Some(parts) => Ok(search(term, parts.0.as_str())),
        None => Err(too_short()),
    }
}

/// The request for a page of the course `code` of `term`.
fn course(term: &str, code: &str, action: &str) -> (r: Result<PortalRequest, ScrapeError>)
    ensures
        asks_for(r, code@, course_request(term@, code@, action@)),
{
    match split_code(code) {
        Some(parts) => {
            let mut query = base();
            query.push(pair(DETAILS_TERM, term));
            query.push(pair(DETAILS_ACTIVITY, parts.0.as_str()));
            query.push(pair(DETAILS_SECTION, parts.1.as_str()));
            query.push(pair(ACTION, action));
            assert(pairs(query@) =~= course_request(term@, code@, action@).query);
            let r = PortalRequest {
                method: Method::Get,
                url: String::from_str(SEARCH_URL),
                query,
                form: Vec::new(),
            };
            assert(pairs(r.form@) =~= Seq::empty());
            Ok(r)
        },
        None => Err(too_short()),
    }
}

/// Where the main page of a course is asked for.
pub const DETAILS_ACTION: &'static str = "/courseSearch/viewCourseDetails";

/// Where the instructors page of a course is asked for.
pub const INSTRUCTORS_ACTION: &'static str = "/courseSearch/viewCourseDetailsInstructors";

/// The request for the main page of the course `code` of `term`, which
/// holds its summary and its details. A code of fewer than seven characters
/// is a failure of extraction, of the course code.
pub fn course_details(term: &str, code: &str) -> (r: Result<PortalRequest, ScrapeError>)
    ensures
        asks_for(r, code@, course_request(term@, code@, DETAILS_ACTION@)),
{
    course(term, code, DETAILS_ACTION)
}

/// The request for the instructors page of the course `code` of `term`. A
/// code of fewer than seven characters is a failure of extraction, of the
/// course code.
pub fn course_instructors(term: &str, code: &str) -> (r: Result<PortalRequest, ScrapeError>)
    ensures
        asks_for(r, code@, course_request(term@, code@, INSTRUCTORS_ACTION@)),
{
    course(term, code, INSTRUCTORS_ACTION)
}

} // verus!
