//! The records of the library: errors, course previews, and the full detail
//! of a course with its exams, instructors and sections.

use vstd::prelude::*;
use vstd::string::StringExecFns;
use crate::text::{chars_of, string_of, views};

verus! {

/// Address of the university's directory service; the identifier of a
/// person follows it.
pub const DIRECTORY_SERVICES: &'static str =
    "http://apps.uwindsor.ca/uwincpb/jsp/DirectoryServicesProfile.jsp?q=";

/// A page lacks an element that its shape promises. The field names the
/// element that was looked for.
#[derive(Debug, Clone)]
pub struct ParseError(pub &'static str);

impl ParseError {
    /// The name of the element that was looked for.
    pub fn field(&self) -> (name: &'static str)
        ensures
            name@ == self.0@,
    {
        self.0
    }

    /// The error as a sentence.
    pub fn message(&self) -> (text: String)
        ensures
            text@ == "Error parsing HTML at "@ + self.0@,
    {
        let mut text = String::from_str("Error parsing HTML at ");
        text.append(self.0);
        text
    }
}

/// The free-text part of a query does not follow the query grammar. The
/// field holds what the query parser said of it.
#[derive(Debug, Clone)]
pub struct QueryError(pub String);

impl QueryError {
    /// The error as a sentence.
    pub fn message(&self) -> (text: String)
        ensures
            text@ == "Query is invalid: "@ + self.0@,
    {
        let mut text = String::from_str("Query is invalid: ");
        text.append(self.0.as_str());
        text
    }
}

/// The characters of an optional string.
pub open spec fn opt_view(s: Option<String>) -> Option<Seq<char>> {
    match s {
        Some(t) => Some(t@),
        None => None,
    }
}

/// Entry `i` of `cells`, where there is one.
pub open spec fn cell(cells: Seq<Seq<char>>, i: int) -> Option<Seq<char>> {
    if 0 <= i < cells.len() {
        Some(cells[i])
    } else {
        None
    }
}

/// The position of the first `@` of `s` at or after `from`, or the length
/// of `s` where there is none.
pub open spec fn first_at(s: Seq<char>, from: int) -> int
    decreases s.len() - from,
{
    if 0 <= from < s.len() && s[from] != '@' {
        first_at(s, from + 1)
    } else {
        from
    }
}

/// What stands before the first `@` of an address; all of it where it holds
/// none.
pub open spec fn local_part(email: Seq<char>) -> Seq<char> {
    email.subrange(0, first_at(email, 0))
}

/// An instructor of a course.
#[derive(Debug, Clone)]
pub struct Instructor {
    pub name: String,
    pub title: Option<String>,
    pub department: Option<String>,
    pub phone: Option<String>,
    pub email: Option<String>,
}

/// An instructor as plain text.
pub struct InstructorView {
    pub name: Seq<char>,
    pub title: Option<Seq<char>>,
    pub department: Option<Seq<char>>,
    pub phone: Option<Seq<char>>,
    pub email: Option<Seq<char>>,
}

impl View for Instructor {
    type V = InstructorView;

    open spec fn view(&self) -> InstructorView {
        InstructorView {
            name: self.name@,
            title: opt_view(self.title),
            department: opt_view(self.department),
            phone: opt_view(self.phone),
            email: opt_view(self.email),
        }
    }
}

impl Instructor {
    /// The instructor's page in the directory service: the service's
    /// address followed by what stands before the first `@` of the e-mail
    /// address. `None` without an e-mail address.
    pub fn directory_url(&self) -> (url: Option<String>)
        ensures
            self.email is None ==> url is None,
            self.email matches Some(e) ==> url matches Some(u) && u@ == DIRECTORY_SERVICES@
                + local_part(e@),
    {
        match &self.email {
            Some(email) => {
                let chars = chars_of(email.as_str());
                let mut end: usize = 0;
                while end < chars.len() && chars[end] != '@'
                    invariant
                        end <= chars.len(),
                        first_at(chars@, 0) == first_at(chars@, end as int),
                    decreases chars.len() - end,
                {
                    end = end + 1;
                }
                let id = string_of(&chars, 0, end);
                let mut url = String::from_str(DIRECTORY_SERVICES);
                url.append(id.as_str());
                Some(url)
            },
            None => None,
        }
    }
}

/// An exam of a course. The portal leaves out the columns that a kind of
/// exam does not need.
#[derive(Debug, Clone)]
pub struct Exam {
    pub ty: String,
    pub slot: Option<String>,
    pub date: Option<String>,
    pub time: Option<String>,
    pub building: Option<String>,
    pub room: Option<String>,
    pub area: Option<String>,
}

/// An exam as plain text.
pub struct ExamView {
    pub ty: Seq<char>,
    pub slot: Option<Seq<char>>,
    pub date: Option<Seq<char>>,
    pub time: Option<Seq<char>>,
    pub building: Option<Seq<char>>,
    pub room: Option<Seq<char>>,
    pub area: Option<Seq<char>>,
}

impl View for Exam {
    type V = ExamView;

    open spec fn view(&self) -> ExamView {
        ExamView {
            ty: self.ty@,
            slot: opt_view(self.slot),
            date: opt_view(self.date),
            time: opt_view(self.time),
            building: opt_view(self.building),
            room: opt_view(self.room),
            area: opt_view(self.area),
        }
    }
}

/// One row of the listing of a course's sections.
#[derive(Debug, Clone)]
pub struct Section {
    pub url: String,
    pub code: String,
    pub title: String,
    pub meets: String,
    pub session: String,
    pub status: String,
}

/// A section as plain text.
pub struct SectionView {
    pub url: Seq<char>,
    pub code: Seq<char>,
    pub title: Seq<char>,
    pub meets: Seq<char>,
    pub session: Seq<char>,
    pub status: Seq<char>,
}

impl View for Section {
    type V = SectionView;

    open spec fn view(&self) -> SectionView {
        SectionView {
            url: self.url@,
            code: self.code@,
            title: self.title@,
            meets: self.meets@,
            session: self.session@,
            status: self.status@,
        }
    }
}

/// The views of a list of exams.
pub open spec fn exam_views(v: Seq<Exam>) -> Seq<ExamView> {
    v.map_values(|e: Exam| e@)
}

/// The views of a list of instructors.
pub open spec fn instructor_views(v: Seq<Instructor>) -> Seq<InstructorView> {
    v.map_values(|e: Instructor| e@)
}

/// The views of a list of sections.
pub open spec fn section_views(v: Seq<Section>) -> Seq<SectionView> {
    v.map_values(|e: Section| e@)
}

/// What the main page of a course holds.
#[derive(Debug, Clone)]
pub struct CoursePage {
    pub title: String,
    pub starts: String,
    pub ends: String,
    pub campus: String,
    pub availability: String,
    pub course_value: String,
    pub date_drops_close: String,
    pub description: String,
    pub note: Option<String>,
    pub prereqs: Vec<String>,
    pub exams: Vec<Exam>,
}

/// The main page of a course as plain text.
pub struct CoursePageView {
    pub title: Seq<char>,
    pub starts: Seq<char>,
    pub ends: Seq<char>,
    pub campus: Seq<char>,
    pub availability: Seq<char>,
    pub course_value: Seq<char>,
    pub date_drops_close: Seq<char>,
    pub description: Seq<char>,
    pub note: Option<Seq<char>>,
    pub prereqs: Seq<Seq<char>>,
    pub exams: Seq<ExamView>,
}

impl View for CoursePage {
    type V = CoursePageView;

    open spec fn view(&self) -> CoursePageView {
        CoursePageView {
            title: self.title@,
            starts: self.starts@,
            ends: self.ends@,
            campus: self.campus@,
            availability: self.availability@,
            course_value: self.course_value@,
            date_drops_close: self.date_drops_close@,
            description: self.description@,
            note: opt_view(self.note),
            prereqs: views(self.prereqs@),
            exams: exam_views(self.exams@),
        }
    }
}

/// The full detail of a course.
#[derive(Debug, Clone)]
pub struct Course {
    pub code: String,
    pub title: String,
    pub meets: String,
    pub starts: String,
    pub ends: String,
    pub campus: String,
    pub availability: String,
    pub course_value: String,
    pub date_drops_close: String,
    pub description: String,
    pub note: Option<String>,
    pub prereqs: Vec<String>,
    pub exams: Vec<Exam>,
    pub instructors: Vec<Instructor>,
    pub sections: Option<Vec<Section>>,
}

/// The full detail of a course as plain text.
pub struct CourseView {
    pub code: Seq<char>,
    pub title: Seq<char>,
    pub meets: Seq<char>,
    pub starts: Seq<char>,
    pub ends: Seq<char>,
    pub campus: Seq<char>,
    pub availability: Seq<char>,
    pub course_value: Seq<char>,
    pub date_drops_close: Seq<char>,
    pub description: Seq<char>,
    pub note: Option<Seq<char>>,
    pub prereqs: Seq<Seq<char>>,
    pub exams: Seq<ExamView>,
    pub instructors: Seq<InstructorView>,
    pub sections: Option<Seq<SectionView>>,
}

impl View for Course {
    type V = CourseView;

    open spec fn view(&self) -> CourseView {
        CourseView {
            code: self.code@,
            title: self.title@,
            meets: self.meets@,
            starts: self.starts@,
            ends: self.ends@,
            campus: self.campus@,
            availability: self.availability@,
            course_value: self.course_value@,
            date_drops_close: self.date_drops_close@,
            description: self.description@,
            note: opt_view(self.note),
            prereqs: views(self.prereqs@),
            exams: exam_views(self.exams@),
            instructors: instructor_views(self.instructors@),
            sections: match self.sections {
                Some(s) => Some(section_views(s@)),
                None => None,
            },
        }
    }
}

/// What is indexed of a course: the term it is offered in, its code, its
/// title and its description.
#[derive(Debug, Clone)]
pub struct CourseSummary {
    pub term: String,
    pub code: String,
    pub title: String,
    pub description: String,
}

/// A course summary as plain text.
pub struct SummaryView {
    pub term: Seq<char>,
    pub code: Seq<char>,
    pub title: Seq<char>,
    pub description: Seq<char>,
}

impl View for CourseSummary {
    type V = SummaryView;

    open spec fn view(&self) -> SummaryView {
        SummaryView {
            term: self.term@,
            code: self.code@,
            title: self.title@,
            description: self.description@,
        }
    }
}

/// The views of a list of course summaries.
pub open spec fn summary_views(v: Seq<CourseSummary>) -> Seq<SummaryView> {
    v.map_values(|e: CourseSummary| e@)
}

/// The views of a list of previews.
pub open spec fn preview_views(v: Seq<CoursePreview>) -> Seq<PreviewView> {
    v.map_values(|e: CoursePreview| e@)
}

/// What the index stores of a course and hands out for a query: enough to
/// ask for the course's full detail later.
#[derive(Debug, Clone)]
pub struct CoursePreview {
    pub term: String,
    pub code: String,
    pub title: String,
}

/// A preview as plain text: term, code, title.
pub struct PreviewView {
    pub term: Seq<char>,
    pub code: Seq<char>,
    pub title: Seq<char>,
}

impl View for CoursePreview {
    type V = PreviewView;

    open spec fn view(&self) -> PreviewView {
        PreviewView { term: self.term@, code: self.code@, title: self.title@ }
    }
}

} // verus!
