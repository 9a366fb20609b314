//! The page extractors: what the portal's pages hold, found along fixed
//! paths of tag names, identifiers and classes.

use vstd::prelude::*;
use crate::course::{
    cell, exam_views, instructor_views, opt_view, section_views, Course, CoursePage, CoursePageView,
    CoursePreview, CourseView, Exam, ExamView, Instructor, InstructorView, ParseError, Section,
    SectionView,
};
use crate::dom::{attr_at, Node, Page};
use crate::selector::{
    and, below, both, child, child_of, descendant, first_hit, hit_cells, hit_compact, hit_words,
    hits, lemma_first_of_hits, text_under, Scope, Selector,
};
use crate::text::{join, same_text, views};

verus! {

/// Identifier of the list of terms on the search page.
pub const TERM_LIST_ID: &'static str = "ExecuteCourseSearch_acadtermCode";

/// Identifier of the block that holds the table of search results.
pub const RESULTS_ID: &'static str =
    "_uwinregistrationcoursesearch_WAR_uwinregistrationtoolsportlet_CourseResults";

/// Identifier of the details tab of a course page.
pub const DETAILS_ID: &'static str =
    "_uwinregistrationcoursesearch_WAR_uwinregistrationtoolsportlet_tabs-details";

/// Identifier of the prerequisites tab of a course page, spelt as the portal
/// spells it.
pub const PREREQUISITES_ID: &'static str =
    "_uwinregistrationcoursesearch_WAR_uwinregistrationtoolsportlet_tabs-prerequistes";

/// Identifier of the exams tab of a course page.
pub const EXAMS_ID: &'static str =
    "_uwinregistrationcoursesearch_WAR_uwinregistrationtoolsportlet_tabs-exams";

/// Class of the element with which the portal reports that it does not know
/// what was asked for.
pub const ERROR_CLASS: &'static str = "portlet-msg-error";

/// The list of terms: `select` with the identifier of the term list.
pub open spec fn term_list_path() -> Selector {
    both(Selector::Name("select"), Selector::Attr("id", TERM_LIST_ID))
}

/// The body of the table of search results.
pub open spec fn results_path() -> Selector {
    child_of(
        child_of(Selector::Attr("id", RESULTS_ID), Selector::Name("table")),
        Selector::Name("tbody"),
    )
}

/// The heading of a course page: `h1` directly in `body`.
pub open spec fn title_path() -> Selector {
    child_of(Selector::Name("body"), Selector::Name("h1"))
}

/// The details tab of a course page.
pub open spec fn details_path() -> Selector {
    Selector::Attr("id", DETAILS_ID)
}

/// Text inside a paragraph.
pub open spec fn paragraph_text_path() -> Selector {
    below(Selector::Name("p"), Selector::Text)
}

/// The codes of the terms that the search page offers, or the name of what
/// the page lacks: the list itself, the value of an entry, or the display
/// name of an entry. The first entry at fault decides, its value before its
/// name.
pub open spec fn term_codes(nodes: Seq<Node>) -> Result<Seq<Seq<char>>, Seq<char>> {
    match first_hit(nodes, Scope::Anywhere, term_list_path(), 0) {
        None => Err("term code list"@),
        Some(list) => {
            let options = hits(
                nodes,
                Scope::ChildrenOf(list),
                Selector::Name("option"),
                nodes.len() as int,
            );
            match first_term_fault(nodes, options, 0) {
                Some(fault) => Err(fault),
                None => Ok(
                    Seq::new(
                        options.len(),
                        |j: int| attr_at(nodes, options[j] as int, "value"@).unwrap(),
                    ),
                ),
            }
        },
    }
}

/// What is wrong with one entry of the list of terms, if anything.
pub open spec fn term_fault(nodes: Seq<Node>, option: usize) -> Option<Seq<char>> {
    if attr_at(nodes, option as int, "value"@) is None {
        Some("term code value"@)
    } else if text_under(nodes, option).len() == 0 {
        Some("term code name"@)
    } else {
        None
    }
}

/// The fault of the first entry at fault among `options[from..]`.
pub open spec fn first_term_fault(nodes: Seq<Node>, options: Seq<usize>, from: int) -> Option<
    Seq<char>,
>
    decreases options.len() - from,
{
    if 0 <= from < options.len() {
        match term_fault(nodes, options[from]) {
            Some(fault) => Some(fault),
            None => first_term_fault(nodes, options, from + 1),
        }
    } else {
        None
    }
}

/// The course code in one row of the table of search results: the text of
/// the row's first cell without white space and hyphens. `None` where the
/// row has no cell or the cell holds no such text.
pub open spec fn row_code(nodes: Seq<Node>, row: usize) -> Option<Seq<char>> {
    match first_hit(nodes, Scope::ChildrenOf(row), Selector::Name("td"), 0) {
        Some(td) => {
            let code = hit_compact(nodes, Scope::Under(td), Selector::Text, nodes.len() as int);
            if code.len() > 0 {
                Some(code)
            } else {
                None
            }
        },
        None => None,
    }
}

/// The course codes that a page of search results lists, in the order of
/// its rows, or the name of what the page lacks: the table, or the code of
/// one of its rows.
pub open spec fn course_codes(nodes: Seq<Node>) -> Result<Seq<Seq<char>>, Seq<char>> {
    match first_hit(nodes, Scope::Anywhere, results_path(), 0) {
        None => Err("course list"@),
        Some(body) => {
            let rows = hits(nodes, Scope::ChildrenOf(body), Selector::Name("tr"), nodes.len() as int);
            if forall|j: int| 0 <= j < rows.len() ==> (#[trigger] row_code(nodes, rows[j])) is Some {
                Ok(Seq::new(rows.len(), |j: int| row_code(nodes, rows[j]).unwrap()))
            } else {
                Err("course code"@)
            }
        },
    }
}

/// The description of a course: the words of the text inside the paragraphs
/// of the details tab `details`, with one space between neighbours.
pub open spec fn description_of(nodes: Seq<Node>, details: usize) -> Seq<char> {
    join(hit_words(nodes, Scope::Under(details), paragraph_text_path(), nodes.len() as int), " "@)
}

/// Title and description of the course that a course page shows, or the
/// name of what the page lacks: the heading, or the details tab.
pub open spec fn basic_info(nodes: Seq<Node>) -> Result<(Seq<char>, Seq<char>), Seq<char>> {
    match first_hit(nodes, Scope::Anywhere, title_path(), 0) {
        None => Err("course title"@),
        Some(heading) => match first_hit(nodes, Scope::Anywhere, details_path(), 0) {
            None => Err("course details"@),
            Some(details) => Ok((text_under(nodes, heading), description_of(nodes, details))),
        },
    }
}

/// The element with which the portal reports that it does not know what
/// was asked for.
pub open spec fn error_marker_path() -> Selector {
    Selector::Class(ERROR_CLASS)
}

/// Whether the page says that the portal does not know what was asked for.
pub open spec fn not_found(nodes: Seq<Node>) -> bool {
    first_hit(nodes, Scope::Anywhere, error_marker_path(), 0) is Some
}

/// A labelled value of the details tab: the element with identifier `id`
/// inside a `div`.
pub open spec fn info_path(id: &'static str) -> Selector {
    below(Selector::Name("div"), Selector::Attr("id", id))
}

/// The text of the value with identifier `id` in the details tab `details`.
pub open spec fn info(nodes: Seq<Node>, details: usize, id: &'static str) -> Option<Seq<char>> {
    match first_hit(nodes, Scope::Under(details), info_path(id), 0) {
        Some(at) => Some(text_under(nodes, at)),
        None => None,
    }
}

/// The note of a course: a paragraph of class `uwinNoteText`.
pub open spec fn note_path() -> Selector {
    both(Selector::Name("p"), Selector::Class("uwinNoteText"))
}

/// The text of the note in the details tab `details`, where it has one.
pub open spec fn note_of(nodes: Seq<Node>, details: usize) -> Option<Seq<char>> {
    match first_hit(nodes, Scope::Under(details), note_path(), 0) {
        Some(at) => Some(text_under(nodes, at)),
        None => None,
    }
}

/// An entry of the list in the prerequisites tab.
pub open spec fn prerequisite_path() -> Selector {
    child_of(
        child_of(Selector::Attr("id", PREREQUISITES_ID), Selector::Name("ul")),
        Selector::Name("li"),
    )
}

/// The text of each of the nodes `at`.
pub open spec fn texts_under(nodes: Seq<Node>, at: Seq<usize>) -> Seq<Seq<char>> {
    Seq::new(at.len(), |j: int| text_under(nodes, at[j]))
}

/// The prerequisites that a course page lists, in its order.
pub open spec fn prerequisites(nodes: Seq<Node>) -> Seq<Seq<char>> {
    texts_under(nodes, hits(nodes, Scope::Anywhere, prerequisite_path(), nodes.len() as int))
}

/// A row of the table in the exams tab.
pub open spec fn exam_row_path() -> Selector {
    below(Selector::Attr("id", EXAMS_ID), Selector::Name("tr"))
}

/// The rows of the exams tab that stand for an exam: all but the first,
/// which holds the headings.
pub open spec fn exam_rows(nodes: Seq<Node>) -> Seq<usize> {
    let rows = hits(nodes, Scope::Anywhere, exam_row_path(), nodes.len() as int);
    if rows.len() > 0 {
        rows.subrange(1, rows.len() as int)
    } else {
        rows
    }
}

/// Text inside a table cell.
pub open spec fn cell_text_path() -> Selector {
    below(Selector::Name("td"), Selector::Text)
}

/// The trimmed texts of the cells of the row `row`.
pub open spec fn row_cells(nodes: Seq<Node>, row: usize) -> Seq<Seq<char>> {
    hit_cells(nodes, Scope::Under(row), cell_text_path(), nodes.len() as int)
}

/// The exam that a row with the texts `cells` stands for: its kind, then
/// slot, date, time, building, room and area as far as the row goes. `None`
/// for a row without text.
pub open spec fn exam_of(cells: Seq<Seq<char>>) -> Option<ExamView> {
    if cells.len() == 0 {
        None
    } else {
        Some(
            ExamView {
                ty: cells[0],
                slot: cell(cells, 1),
                date: cell(cells, 2),
                time: cell(cells, 3),
                building: cell(cells, 4),
                room: cell(cells, 5),
                area: cell(cells, 6),
            },
        )
    }
}

/// The exams that a course page lists; `None` where one of the rows holds
/// no text.
pub open spec fn exams(nodes: Seq<Node>) -> Option<Seq<ExamView>> {
    let rows = exam_rows(nodes);
    if forall|j: int| 0 <= j < rows.len() ==> (#[trigger] row_cells(nodes, rows[j])).len() > 0 {
        Some(Seq::new(rows.len(), |j: int| exam_of(row_cells(nodes, rows[j])).unwrap()))
    } else {
        None
    }
}

/// What the main page of a course holds, or the name of the first thing
/// that it lacks: heading, details tab, start, end, campus, availability,
/// course value, the date on which drops close, or the kind of an exam.
pub open spec fn course_page(nodes: Seq<Node>) -> Result<CoursePageView, Seq<char>> {
    let heading = first_hit(nodes, Scope::Anywhere, title_path(), 0);
    let details = first_hit(nodes, Scope::Anywhere, details_path(), 0);
    if heading is None {
        Err("course title"@)
    } else if details is None {
        Err("course details"@)
    } else if info(nodes, details.unwrap(), "dateSessionStartsFormatted") is None {
        Err("starts"@)
    } else if info(nodes, details.unwrap(), "dateSessionEndsFormatted") is None {
        Err("ends"@)
    } else if info(nodes, details.unwrap(), "courseSectionInfo_campus") is None {
        Err("campus"@)
    } else if info(nodes, details.unwrap(), "courseSectionInfo_sectionAvailability") is None {
        Err("availability"@)
    } else if info(nodes, details.unwrap(), "courseSectionInfo_courseValue") is None {
        Err("course_value"@)
    } else if info(nodes, details.unwrap(), "dateDropsCloseFormatted") is None {
        Err("date_drops_close"@)
    } else if exams(nodes) is None {
        Err("course exam"@)
    } else {
        Ok(
            CoursePageView {
                title: text_under(nodes, heading.unwrap()),
                starts: info(nodes, details.unwrap(), "dateSessionStartsFormatted").unwrap(),
                ends: info(nodes, details.unwrap(), "dateSessionEndsFormatted").unwrap(),
                campus: info(nodes, details.unwrap(), "courseSectionInfo_campus").unwrap(),
                availability: info(
                    nodes,
                    details.unwrap(),
                    "courseSectionInfo_sectionAvailability",
                ).unwrap(),
                course_value: info(nodes, details.unwrap(), "courseSectionInfo_courseValue").unwrap(),
                date_drops_close: info(nodes, details.unwrap(), "dateDropsCloseFormatted").unwrap(),
                description: description_of(nodes, details.unwrap()),
                note: note_of(nodes, details.unwrap()),
                prereqs: prerequisites(nodes),
                exams: exams(nodes).unwrap(),
            },
        )
    }
}

/// The list of instructors: `ul` of class `uwinListView`.
pub open spec fn instructor_list_path() -> Selector {
    both(Selector::Name("ul"), Selector::Class("uwinListView"))
}

/// A value in an instructor's entry: an element of class `wwctrl` directly
/// in a `div`.
pub open spec fn instructor_info_path() -> Selector {
    child_of(Selector::Name("div"), Selector::Class("wwctrl"))
}

/// The text of entry `k` of the nodes `at`, where there is one.
pub open spec fn text_at_entry(nodes: Seq<Node>, at: Seq<usize>, k: int) -> Option<Seq<char>> {
    if 0 <= k < at.len() {
        Some(text_under(nodes, at[k]))
    } else {
        None
    }
}

/// The instructor that the list entry `item` stands for: the name in bold,
/// then title, department, phone and e-mail address as far as the entry
/// goes. `None` where the entry has no name in bold.
pub open spec fn instructor_of(nodes: Seq<Node>, item: usize) -> Option<InstructorView> {
    match first_hit(nodes, Scope::Under(item), Selector::Name("b"), 0) {
        None => None,
        Some(name) => {
            let values = hits(
                nodes,
                Scope::Under(item),
                instructor_info_path(),
                nodes.len() as int,
            );
            Some(
                InstructorView {
                    name: text_under(nodes, name),
                    title: text_at_entry(nodes, values, 0),
                    department: text_at_entry(nodes, values, 1),
                    phone: text_at_entry(nodes, values, 2),
                    email: text_at_entry(nodes, values, 3),
                },
            )
        },
    }
}

/// The instructors that the instructors page lists, or the name of what
/// it lacks: the list, or the name of one of its entries.
pub open spec fn instructors(nodes: Seq<Node>) -> Result<Seq<InstructorView>, Seq<char>> {
    match first_hit(nodes, Scope::Anywhere, instructor_list_path(), 0) {
        None => Err("course instructors"@),
        Some(list) => {
            let items = hits(nodes, Scope::ChildrenOf(list), Selector::Name("li"), nodes.len() as int);
            if forall|j: int|
                0 <= j < items.len() ==> (#[trigger] instructor_of(nodes, items[j])) is Some {
                Ok(Seq::new(items.len(), |j: int| instructor_of(nodes, items[j]).unwrap()))
            } else {
                Err("instructor name"@)
            }
        },
    }
}

/// The address that the first link below `row` leads to.
pub open spec fn link_of(nodes: Seq<Node>, row: usize) -> Option<Seq<char>> {
    match first_hit(nodes, Scope::Under(row), Selector::Name("a"), 0) {
        Some(link) => attr_at(nodes, link as int, "href"@),
        None => None,
    }
}

/// The section that the row `row` of a table of search results stands for:
/// the address of its link, and its cells as code, title, meeting times,
/// session and status. `None` where the row lacks one of them.
pub open spec fn section_of(nodes: Seq<Node>, row: usize) -> Option<SectionView> {
    let cells = hits(nodes, Scope::ChildrenOf(row), Selector::Name("td"), nodes.len() as int);
    if link_of(nodes, row) is Some && row_code(nodes, row) is Some && cells.len() >= 5 {
        Some(
            SectionView {
                url: link_of(nodes, row).unwrap(),
                code: row_code(nodes, row).unwrap(),
                title: text_under(nodes, cells[1]),
                meets: text_under(nodes, cells[2]),
                session: text_under(nodes, cells[3]),
                status: text_under(nodes, cells[4]),
            },
        )
    } else {
        None
    }
}

/// The sections that a page of search results lists, or the name of what
/// the page lacks: the table, or a part of one of its rows.
pub open spec fn sections(nodes: Seq<Node>) -> Result<Seq<SectionView>, Seq<char>> {
    match first_hit(nodes, Scope::Anywhere, results_path(), 0) {
        None => Err("section list"@),
        Some(body) => {
            let rows = hits(nodes, Scope::ChildrenOf(body), Selector::Name("tr"), nodes.len() as int);
            if forall|j: int| 0 <= j < rows.len() ==> (#[trigger] section_of(nodes, rows[j])) is Some {
                Ok(Seq::new(rows.len(), |j: int| section_of(nodes, rows[j]).unwrap()))
            } else {
                Err("section"@)
            }
        },
    }
}

/// The meeting times of the first of `listed[from..]` whose code is `code`.
pub open spec fn meets_of(listed: Seq<SectionView>, code: Seq<char>, from: int) -> Option<
    Seq<char>,
>
    decreases listed.len() - from,
{
    if 0 <= from < listed.len() {
        if listed[from].code == code {
            Some(listed[from].meets)
        } else {
            meets_of(listed, code, from + 1)
        }
    } else {
        None
    }
}

/// Those of the first `upto` of `listed` whose code is not `code`, in
/// order.
pub open spec fn others(listed: Seq<SectionView>, code: Seq<char>, upto: int) -> Seq<SectionView>
    decreases upto,
{
    if upto <= 0 || upto > listed.len() {
        Seq::empty()
    } else if listed[upto - 1].code == code {
        others(listed, code, upto - 1)
    } else {
        others(listed, code, upto - 1).push(listed[upto - 1])
    }
}

/// The course `code`, put together from what its main page holds, its
/// instructors and the listed sections: the meeting times are those of the
/// first listed section with the code `code`, and the other listed
/// sections are kept, if there are any. `meets` is missing where no listed
/// section has the code.
pub open spec fn assembled(
    code: Seq<char>,
    page: CoursePageView,
    taught_by: Seq<InstructorView>,
    listed: Seq<SectionView>,
) -> Result<CourseView, Seq<char>> {
    match meets_of(listed, code, 0) {
        None => Err("meets"@),
        Some(meets) => Ok(
            CourseView {
                code: code,
                title: page.title,
                meets: meets,
                starts: page.starts,
                ends: page.ends,
                campus: page.campus,
                availability: page.availability,
                course_value: page.course_value,
                date_drops_close: page.date_drops_close,
                description: page.description,
                note: page.note,
                prereqs: page.prereqs,
                exams: page.exams,
                instructors: taught_by,
                sections: if others(listed, code, listed.len() as int).len() > 0 {
                    Some(others(listed, code, listed.len() as int))
                } else {
                    None
                },
            },
        ),
    }
}

/// The full detail of the course `code`, put together from its main page,
/// its instructors page and the listing of its sections.
///
/// `Ok(None)` where the main page says that the portal does not know the
/// course. Else the name of the first thing that is missing, the main page
/// before the instructors before the sections; `meets` where no listed
/// section has the code `code`. Else the course as `assembled`.
pub open spec fn course_detail(
    code: Seq<char>,
    main: Seq<Node>,
    people: Seq<Node>,
    listing: Seq<Node>,
) -> Result<Option<CourseView>, Seq<char>> {
    if not_found(main) {
        Ok(None)
    } else {
        match course_page(main) {
            Err(fault) => Err(fault),
            Ok(page) => match instructors(people) {
                Err(fault) => Err(fault),
                Ok(taught_by) => match sections(listing) {
                    Err(fault) => Err(fault),
                    Ok(listed) => match assembled(code, page, taught_by, listed) {
                        Err(fault) => Err(fault),
                        Ok(course) => Ok(Some(course)),
                    },
                },
            },
        }
    }
}

/// A course that the portal does not know is absent, not an error, whatever
/// the other pages hold.
pub proof fn lemma_unknown_course_is_absent(
    code: Seq<char>,
    main: Seq<Node>,
    people: Seq<Node>,
    listing: Seq<Node>,
)
    requires
        not_found(main),
    ensures
        course_detail(code, main, people, listing) == Ok::<Option<CourseView>, Seq<char>>(None),
{
}

/// Whether `r` is the list of strings, or the error, that `expected` names.
pub open spec fn same_list(r: Result<Vec<String>, ParseError>, expected: Result<
    Seq<Seq<char>>,
    Seq<char>,
>) -> bool {
    match r {
        Ok(v) => expected == Ok::<Seq<Seq<char>>, Seq<char>>(views(v@)),
        Err(e) => expected == Err::<Seq<Seq<char>>, Seq<char>>(e.0@),
    }
}

/// Reads the portal's pages. It holds no state: every page is handed to it.
pub struct Scraper;

impl Scraper {
    /// A scraper.
    pub fn new() -> Scraper {
        Scraper
    }

    /// The codes of the terms that the search page `page` offers.
    #[verifier::loop_isolation(false)]
    pub fn scrape(&self, page: &Page) -> (r: Result<Vec<String>, ParseError>)
        ensures
            same_list(r, term_codes(page@)),
    {
        let list = match page.find_first(
            Scope::Anywhere,
            &and(Selector::Name("select"), Selector::Attr("id", TERM_LIST_ID)),
        ) {
            Some(list) => list,
            None => {
                return Err(ParseError("term code list"));
            },
        };
        let options = page.find_all(Scope::ChildrenOf(list), &Selector::Name("option"));
        let mut codes: Vec<String> = Vec::new();
        let mut j: usize = 0;
        while j < options.len()
            invariant
                j <= options.len(),
                codes.len() == j,
                first_term_fault(page@, options@, 0) == first_term_fault(page@, options@, j as int),
                forall|k: int|
                    0 <= k < j ==> (#[trigger] codes@[k])@ == attr_at(
                        page@,
                        options@[k] as int,
                        "value"@,
                    ).unwrap(),
            decreases options.len() - j,
        {
            let code = match page.attr(options[j], "value") {
                Some(code) => code,
                None => {
                    return Err(ParseError("term code value"));
                },
            };
            let name = page.text_under(options[j]);
            if name.as_str().is_empty() {
                return Err(ParseError("term code name"));
            }
            codes.push(code.to_owned());
            j = j + 1;
        }
        assert(views(codes@) =~= term_codes(page@)->Ok_0);
        Ok(codes)
    }

    /// The course codes that the page of search results `page` lists.
    #[verifier::loop_isolation(false)]
    pub fn scrape_courses(&self, page: &Page) -> (r: Result<Vec<String>, ParseError>)
        ensures
            same_list(r, course_codes(page@)),
    {
        let body = match page.find_first(
            Scope::Anywhere,
            &child(
                child(Selector::Attr("id", RESULTS_ID), Selector::Name("table")),
                Selector::Name("tbody"),
            ),
        ) {
            Some(body) => body,
            None => {
                return Err(ParseError("course list"));
            },
        };
        let rows = page.find_all(Scope::ChildrenOf(body), &Selector::Name("tr"));
        let mut codes: Vec<String> = Vec::new();
        let mut j: usize = 0;
        while j < rows.len()
            invariant
                j <= rows.len(),
                codes.len() == j,
                forall|k: int| 0 <= k < j ==> (#[trigger] row_code(page@, rows@[k])) is Some,
                forall|k: int|
                    0 <= k < j ==> (#[trigger] codes@[k])@ == row_code(page@, rows@[k]).unwrap(),
            decreases rows.len() - j,
        {
            let td = match page.find_first(Scope::ChildrenOf(rows[j]), &Selector::Name("td")) {
                Some(td) => td,
                None => {
                    assert(row_code(page@, rows@[j as int]) is None);
                    return Err(ParseError("course code"));
                },
            };
            let code = page.gather_compact(Scope::Under(td), &Selector::Text);
            if code.as_str().is_empty() {
                assert(row_code(page@, rows@[j as int]) is None);
                return Err(ParseError("course code"));
            }
            codes.push(code);
            j = j + 1;
        }
        assert(views(codes@) =~= course_codes(page@)->Ok_0);
        Ok(codes)
    }

    /// Title and description of the course that the course page `page`
    /// shows.
    pub fn scrape_basic(&self, page: &Page) -> (r: Result<(String, String), ParseError>)
        ensures
            match r {
                Ok(found) => basic_info(page@) == Ok::<(Seq<char>, Seq<char>), Seq<char>>(
                    (found.0@, found.1@),
                ),
                Err(e) => basic_info(page@) == Err::<(Seq<char>, Seq<char>), Seq<char>>(e.0@),
            },
    {
        let heading = match page.find_first(
            Scope::Anywhere,
            &child(Selector::Name("body"), Selector::Name("h1")),
        ) {
            Some(heading) => heading,
            None => {
                return Err(ParseError("course title"));
            },
        };
        let title = page.text_under(heading);
        let details = match page.find_first(Scope::Anywhere, &Selector::Attr("id", DETAILS_ID)) {
            Some(details) => details,
            None => {
                return Err(ParseError("course details"));
            },
        };
        let description = page.gather_text(
            Scope::Under(details),
            &descendant(Selector::Name("p"), Selector::Text),
        );
        Ok((title, description))
    }
    /// Whether the page says that the portal does not know what was asked
    /// for.
    pub fn is_not_found(&self, page: &Page) -> (r: bool)
        ensures
            r == not_found(page@),
    {
        page.find_first(Scope::Anywhere, &Selector::Class(ERROR_CLASS)).is_some()
    }

    /// Entry `k` of `cells`, where there is one.
    fn nth_cell(cells: &Vec<String>, k: usize) -> (r: Option<String>)
        ensures
            opt_view(r) == cell(views(cells@), k as int),
    {
        if k < cells.len() {
            Some(cells[k].clone())
        } else {
            None
        }
    }

    /// The text of each of the nodes `at`.
    #[verifier::loop_isolation(false)]
    fn texts(page: &Page, at: &Vec<usize>) -> (r: Vec<String>)
        ensures
            views(r@) == texts_under(page@, at@),
    {
        let mut found: Vec<String> = Vec::new();
        let mut j: usize = 0;
        while j < at.len()
            invariant
                j <= at.len(),
                found.len() == j,
                forall|k: int| 0 <= k < j ==> (#[trigger] found@[k])@ == text_under(page@, at@[k]),
            decreases at.len() - j,
        {
            found.push(page.text_under(at[j]));
            j = j + 1;
        }
        assert(views(found@) =~= texts_under(page@, at@));
        found
    }

    /// The text of entry `k` of the nodes `at`, where there is one.
    fn nth_text(page: &Page, at: &Vec<usize>, k: usize) -> (r: Option<String>)
        ensures
            opt_view(r) == text_at_entry(page@, at@, k as int),
    {
        if k < at.len() {
            Some(page.text_under(at[k]))
        } else {
            None
        }
    }

    /// The text of the value with identifier `id` in the details tab
    /// `details`.
    fn info_text(page: &Page, details: usize, id: &'static str) -> (r: Option<String>)
        ensures
            opt_view(r) == info(page@, details, id),
    {
        match page.find_first(
            Scope::Under(details),
            &descendant(Selector::Name("div"), Selector::Attr("id", id)),
        ) {
            Some(at) => Some(page.text_under(at)),
            None => None,
        }
    }

    /// The prerequisites that the course page `page` lists.
    pub fn scrape_prerequisites(&self, page: &Page) -> (r: Vec<String>)
        ensures
            views(r@) == prerequisites(page@),
    {
        let items = page.find_all(
            Scope::Anywhere,
            &child(
                child(Selector::Attr("id", PREREQUISITES_ID), Selector::Name("ul")),
                Selector::Name("li"),
            ),
        );
        Scraper::texts(page, &items)
    }

    /// The exams that the course page `page` lists.
    #[verifier::loop_isolation(false)]
    pub fn scrape_exams(&self, page: &Page) -> (r: Result<Vec<Exam>, ParseError>)
        ensures
            match r {
                Ok(found) => exams(page@) == Some(exam_views(found@)),
                Err(e) => exams(page@) is None && e.0@ == "course exam"@,
            },
    {
        let rows = page.find_all(
            Scope::Anywhere,
            &descendant(Selector::Attr("id", EXAMS_ID), Selector::Name("tr")),
        );
        let ghost listed = exam_rows(page@);
        let mut found: Vec<Exam> = Vec::new();
        let mut j: usize = 1;
        while j < rows.len()
            invariant
                1 <= j,
                found.len() == j - 1,
                j <= rows.len() || j == 1,
                forall|k: int| 0 <= k < j - 1 ==> (#[trigger] row_cells(page@, listed[k])).len() > 0,
                forall|k: int|
                    0 <= k < j - 1 ==> (#[trigger] found@[k])@ == exam_of(
                        row_cells(page@, listed[k]),
                    ).unwrap(),
            decreases rows.len() - j,
        {
            assert(listed[j - 1] == rows@[j as int]);
            let cells = page.gather_cells(
                Scope::Under(rows[j]),
                &descendant(Selector::Name("td"), Selector::Text),
            );
            if cells.len() == 0 {
                assert(row_cells(page@, listed[j - 1]).len() == 0);
                return Err(ParseError("course exam"));
            }
            let exam = Exam {
                ty: cells[0].clone(),
                slot: Scraper::nth_cell(&cells, 1),
                date: Scraper::nth_cell(&cells, 2),
                time: Scraper::nth_cell(&cells, 3),
                building: Scraper::nth_cell(&cells, 4),
                room: Scraper::nth_cell(&cells, 5),
                area: Scraper::nth_cell(&cells, 6),
            };
            assert(exam@ == exam_of(row_cells(page@, listed[j - 1])).unwrap());
            found.push(exam);
            j = j + 1;
        }
        assert(exam_views(found@) =~= exams(page@).unwrap());
        Ok(found)
    }

    /// What the main page `page` of a course holds.
    pub fn scrape_page(&self, page: &Page) -> (r: Result<CoursePage, ParseError>)
        ensures
            match r {
                Ok(found) => course_page(page@) == Ok::<CoursePageView, Seq<char>>(found@),
                Err(e) => course_page(page@) == Err::<CoursePageView, Seq<char>>(e.0@),
            },
    {
        let heading = match page.find_first(
            Scope::Anywhere,
            &child(Selector::Name("body"), Selector::Name("h1")),
        ) {
            Some(heading) => heading,
            None => {
                return Err(ParseError("course title"));
            },
        };
        let title = page.text_under(heading);
        let details = match page.find_first(Scope::Anywhere, &Selector::Attr("id", DETAILS_ID)) {
            Some(details) => details,
            None => {
                return Err(ParseError("course details"));
            },
        };
        let starts = match Scraper::info_text(page, details, "dateSessionStartsFormatted") {
            Some(text) => text,
            None => {
                return Err(ParseError("starts"));
            },
        };
        let ends = match Scraper::info_text(page, details, "dateSessionEndsFormatted") {
            Some(text) => text,
            None => {
                return Err(ParseError("ends"));
            },
        };
        let campus = match Scraper::info_text(page, details, "courseSectionInfo_campus") {
            Some(text) => text,
            None => {
                return Err(ParseError("campus"));
            },
        };
        let availability = match Scraper::info_text(
            page,
            details,
            "courseSectionInfo_sectionAvailability",
        ) {
            Some(text) => text,
            None => {
                return Err(ParseError("availability"));
            },
        };
        let course_value = match Scraper::info_text(page, details, "courseSectionInfo_courseValue") {
            Some(text) => text,
            None => {
                return Err(ParseError("course_value"));
            },
        };
        let date_drops_close = match Scraper::info_text(page, details, "dateDropsCloseFormatted") {
            Some(text) => text,
            None => {
                return Err(ParseError("date_drops_close"));
            },
        };
        let note = match page.find_first(
            Scope::Under(details),
            &and(Selector::Name("p"), Selector::Class("uwinNoteText")),
        ) {
            Some(at) => Some(page.text_under(at)),
            None => None,
        };
        let description = page.gather_text(
            Scope::Under(details),
            &descendant(Selector::Name("p"), Selector::Text),
        );
        let prereqs = self.scrape_prerequisites(page);
        let exams = match self.scrape_exams(page) {
            Ok(exams) => exams,
            Err(e) => {
                return Err(e);
            },
        };
        Ok(
            CoursePage {
                title,
                starts,
                ends,
                campus,
                availability,
                course_value,
                date_drops_close,
                description,
                note,
                prereqs,
                exams,
            },
        )
    }

    /// The instructors that the instructors page `page` lists.
    #[verifier::loop_isolation(false)]
    pub fn scrape_instructors(&self, page: &Page) -> (r: Result<Vec<Instructor>, ParseError>)
        ensures
            match r {
                Ok(found) => instructors(page@) == Ok::<Seq<InstructorView>, Seq<char>>(
                    instructor_views(found@),
                ),
                Err(e) => instructors(page@) == Err::<Seq<InstructorView>, Seq<char>>(e.0@),
            },
    {
        let list = match page.find_first(
            Scope::Anywhere,
            &and(Selector::Name("ul"), Selector::Class("uwinListView")),
        ) {
            Some(list) => list,
            None => {
                return Err(ParseError("course instructors"));
            },
        };
        let items = page.find_all(Scope::ChildrenOf(list), &Selector::Name("li"));
        let mut found: Vec<Instructor> = Vec::new();
        let mut j: usize = 0;
        while j < items.len()
            invariant
                j <= items.len(),
                found.len() == j,
                forall|k: int| 0 <= k < j ==> (#[trigger] instructor_of(page@, items@[k])) is Some,
                forall|k: int|
                    0 <= k < j ==> (#[trigger] found@[k])@ == instructor_of(page@, items@[k]).unwrap(),
            decreases items.len() - j,
        {
            let name = match page.find_first(Scope::Under(items[j]), &Selector::Name("b")) {
                Some(at) => page.text_under(at),
                None => {
                    assert(instructor_of(page@, items@[j as int]) is None);
                    return Err(ParseError("instructor name"));
                },
            };
            let values = page.find_all(
                Scope::Under(items[j]),
                &child(Selector::Name("div"), Selector::Class("wwctrl")),
            );
            let instructor = Instructor {
                name,
                title: Scraper::nth_text(page, &values, 0),
                department: Scraper::nth_text(page, &values, 1),
                phone: Scraper::nth_text(page, &values, 2),
                email: Scraper::nth_text(page, &values, 3),
            };
            assert(instructor@ == instructor_of(page@, items@[j as int]).unwrap());
            found.push(instructor);
            j = j + 1;
        }
        assert(instructor_views(found@) =~= instructors(page@)->Ok_0);
        Ok(found)
    }

    /// The section that the row `row` of a table of search results stands
    /// for.
    fn section(page: &Page, row: usize) -> (r: Option<Section>)
        ensures
            match r {
                Some(s) => section_of(page@, row) == Some(s@),
                None => section_of(page@, row) is None,
            },
    {
        let url = match page.find_first(Scope::Under(row), &Selector::Name("a")) {
            Some(link) => match page.attr(link, "href") {
                Some(url) => url.to_owned(),
                None => {
                    return None;
                },
            },
            None => {
                return None;
            },
        };
        let cells = page.find_all(Scope::ChildrenOf(row), &Selector::Name("td"));
        if cells.len() < 5 {
            return None;
        }
        assert(first_hit(page@, Scope::ChildrenOf(row), Selector::Name("td"), 0) == Some(
            cells@[0],
        )) by {
            page.lemma_fits();
            lemma_first_of_hits(page@, Scope::ChildrenOf(row), Selector::Name("td"));
        }
        let code = page.gather_compact(Scope::Under(cells[0]), &Selector::Text);
        if code.as_str().is_empty() {
            return None;
        }
        Some(
            Section {
                url,
                code,
                title: page.text_under(cells[1]),
                meets: page.text_under(cells[2]),
                session: page.text_under(cells[3]),
                status: page.text_under(cells[4]),
            },
        )
    }

    /// The sections that the page of search results `page` lists.
    #[verifier::loop_isolation(false)]
    pub fn scrape_sections(&self, page: &Page) -> (r: Result<Vec<Section>, ParseError>)
        ensures
            match r {
                Ok(found) => sections(page@) == Ok::<Seq<SectionView>, Seq<char>>(
                    section_views(found@),
                ),
                Err(e) => sections(page@) == Err::<Seq<SectionView>, Seq<char>>(e.0@),
            },
    {
        let body = match page.find_first(
            Scope::Anywhere,
            &child(
                child(Selector::Attr("id", RESULTS_ID), Selector::Name("table")),
                Selector::Name("tbody"),
            ),
        ) {
            Some(body) => body,
            None => {
                return Err(ParseError("section list"));
            },
        };
        let rows = page.find_all(Scope::ChildrenOf(body), &Selector::Name("tr"));
        let mut found: Vec<Section> = Vec::new();
        let mut j: usize = 0;
        while j < rows.len()
            invariant
                j <= rows.len(),
                found.len() == j,
                forall|k: int| 0 <= k < j ==> (#[trigger] section_of(page@, rows@[k])) is Some,
                forall|k: int|
                    0 <= k < j ==> (#[trigger] found@[k])@ == section_of(page@, rows@[k]).unwrap(),
            decreases rows.len() - j,
        {
            match Scraper::section(page, rows[j]) {
                Some(section) => {
                    found.push(section);
                },
                None => {
                    return Err(ParseError("section"));
                },
            }
            j = j + 1;
        }
        assert(section_views(found@) =~= sections(page@)->Ok_0);
        Ok(found)
    }

    /// The meeting times of the first of `listed` whose code is `code`.
    pub fn resolve_meets(&self, listed: &Vec<Section>, code: &str) -> (r: Option<String>)
        ensures
            opt_view(r) == meets_of(section_views(listed@), code@, 0),
    {
        let mut j: usize = 0;
        while j < listed.len()
            invariant
                j <= listed.len(),
                meets_of(section_views(listed@), code@, 0) == meets_of(
                    section_views(listed@),
                    code@,
                    j as int,
                ),
            decreases listed.len() - j,
        {
            if same_text(listed[j].code.as_str(), code) {
                return Some(listed[j].meets.clone());
            }
            j = j + 1;
        }
        None
    }

    /// Those of `listed` whose code is not `code`, in order.
    pub fn other_sections(&self, listed: Vec<Section>, code: &str) -> (r: Vec<Section>)
        ensures
            section_views(r@) == others(section_views(listed@), code@, listed@.len() as int),
    {
        let ghost all = section_views(listed@);
        let mut kept: Vec<Section> = Vec::new();
        let mut j: usize = 0;
        assert(section_views(kept@) =~= others(all, code@, 0));
        for section in it: listed
            invariant
                all == section_views(it.seq()),
                section_views(kept@) == others(all, code@, it.index() as int),
        {
            let ghost before = section_views(kept@);
            assert(all[it.index() as int] == section@);
            if !same_text(section.code.as_str(), code) {
                kept.push(section);
                assert(section_views(kept@) =~= before.push(section@));
            }
        }
        kept
    }

    /// The course `code`, put together from what its main page holds, its
    /// instructors and the listed sections.
    pub fn assemble(
        &self,
        code: &str,
        page: CoursePage,
        instructors: Vec<Instructor>,
        listed: Vec<Section>,
    ) -> (r: Result<Course, ParseError>)
        ensures
            match r {
                Ok(course) => assembled(
                    code@,
                    page@,
                    instructor_views(instructors@),
                    section_views(listed@),
                ) == Ok::<CourseView, Seq<char>>(course@),
                Err(e) => assembled(
                    code@,
                    page@,
                    instructor_views(instructors@),
                    section_views(listed@),
                ) == Err::<CourseView, Seq<char>>(e.0@),
            },
    {
        let meets = match self.resolve_meets(&listed, code) {
            Some(meets) => meets,
            None => {
                return Err(ParseError("meets"));
            },
        };
        let rest = self.other_sections(listed, code);
        let sections = if rest.len() > 0 {
            Some(rest)
        } else {
            None
        };
        Ok(
            Course {
                code: code.to_owned(),
                title: page.title,
                meets,
                starts: page.starts,
                ends: page.ends,
                campus: page.campus,
                availability: page.availability,
                course_value: page.course_value,
                date_drops_close: page.date_drops_close,
                description: page.description,
                note: page.note,
                prereqs: page.prereqs,
                exams: page.exams,
                instructors,
                sections,
            },
        )
    }

    /// The full detail of the course `code`, put together from its main
    /// page `main`, its instructors page `people` and the listing of its
    /// sections `listing`; `Ok(None)` where the portal does not know the
    /// course.
    pub fn scrape_full(
        &self,
        code: &str,
        main: &Page,
        people: &Page,
        listing: &Page,
    ) -> (r: Result<Option<Course>, ParseError>)
        ensures
            match r {
                Ok(Some(course)) => course_detail(code@, main@, people@, listing@) == Ok::<
                    Option<CourseView>,
                    Seq<char>,
                >(Some(course@)),
                Ok(None) => course_detail(code@, main@, people@, listing@) == Ok::<
                    Option<CourseView>,
                    Seq<char>,
                >(None),
                Err(e) => course_detail(code@, main@, people@, listing@) == Err::<
                    Option<CourseView>,
                    Seq<char>,
                >(e.0@),
            },
    {
        if self.is_not_found(main) {
            return Ok(None);
        }
        let page = match self.scrape_page(main) {
            Ok(page) => page,
            Err(e) => {
                return Err(e);
            },
        };
        let instructors = match self.scrape_instructors(people) {
            Ok(instructors) => instructors,
            Err(e) => {
                return Err(e);
            },
        };
        let listed = match self.scrape_sections(listing) {
            Ok(listed) => listed,
            Err(e) => {
                return Err(e);
            },
        };
        match self.assemble(code, page, instructors, listed) {
            Ok(course) => Ok(Some(course)),
            Err(e) => Err(e),
        }
    }
}

impl CoursePreview {
    /// The full detail of the course of this preview, put together from
    /// its main page `main`, its instructors page `people` and the listing
    /// of its sections `listing`; `Ok(None)` where the portal does not know
    /// the course.
    pub fn scrape(&self, scraper: &Scraper, main: &Page, people: &Page, listing: &Page) -> (r:
        Result<Option<Course>, ParseError>)
        ensures
            match r {
                Ok(Some(course)) => course_detail(self.code@, main@, people@, listing@) == Ok::<
                    Option<CourseView>,
                    Seq<char>,
                >(Some(course@)),
                Ok(None) => course_detail(self.code@, main@, people@, listing@) == Ok::<
                    Option<CourseView>,
                    Seq<char>,
                >(None),
                Err(e) => course_detail(self.code@, main@, people@, listing@) == Err::<
                    Option<CourseView>,
                    Seq<char>,
                >(e.0@),
            },
    {
        scraper.scrape_full(self.code.as_str(), main, people, listing)
    }
}

} // verus!
