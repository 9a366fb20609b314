use uwinsearch::corpus::ScrapeError;
use uwinsearch::detail::{Detail, DetailRequest};
use uwinsearch::portal::{Method, PortalRequest};

const PREFIX: &str = "_uwinregistrationcoursesearch_WAR_uwinregistrationtoolsportlet_";
const ACTION: &str =
    "_uwinregistrationcoursesearch_WAR_uwinregistrationtoolsportlet_struts.portlet.action";

fn fill(markup: &str) -> Result<String, String> {
    Ok(markup.replace("PFX_", PREFIX))
}

fn main_page() -> &'static str {
    "<html><body><h1>Intro   to Proofs</h1>
      <div id=\"PFX_tabs-details\">
        <div><span id=\"dateSessionStartsFormatted\">Sep 6, 2018</span></div>
        <div><span id=\"dateSessionEndsFormatted\">Dec 5, 2018</span></div>
        <div><span id=\"courseSectionInfo_campus\">Main Campus</span></div>
        <div><span id=\"courseSectionInfo_sectionAvailability\">Open</span></div>
        <div><span id=\"courseSectionInfo_courseValue\">3.00</span></div>
        <div><span id=\"dateDropsCloseFormatted\">Nov 14, 2018</span></div>
        <p>Logic and sets.</p>
      </div></body></html>"
}

fn people_page() -> &'static str {
    "<ul class=\"uwinListView\"><li><b>Ada Lovelace</b></li></ul>"
}

fn listing_page() -> &'static str {
    "<div id=\"PFX_CourseResults\"><table><tbody>
      <tr><td><a href=\"/d?s=01\">03-60-100 - 01</a></td><td>Intro to Proofs</td><td>MWF 8:30</td><td>Fall</td><td>Open</td></tr>
     </tbody></table></div>"
}

fn asked(request: &DetailRequest) -> &PortalRequest {
    match request {
        DetailRequest::Fetch(request) => request,
        DetailRequest::Nothing => panic!("expected a request"),
    }
}

fn action(request: &PortalRequest) -> &str {
    request.query.iter().find(|(name, _)| name == ACTION).map(|(_, value)| value.as_str()).unwrap()
}

#[test]
fn the_pages_are_asked_for_one_after_the_other() {
    let (detail, request) = Detail::start("20185", "036010001");
    assert!(matches!(detail, Detail::Main));
    assert_eq!(asked(&request).method, Method::Get);
    assert_eq!(action(asked(&request)), "/courseSearch/viewCourseDetails");

    let (detail, request) = detail.step("20185", "036010001", fill(main_page()));
    assert!(matches!(&detail, Detail::People { page } if page.title == "Intro to Proofs"));
    assert_eq!(action(asked(&request)), "/courseSearch/viewCourseDetailsInstructors");

    let (detail, request) = detail.step("20185", "036010001", fill(people_page()));
    assert!(matches!(&detail, Detail::Listing { instructors, .. } if instructors.len() == 1));
    assert_eq!(asked(&request).method, Method::Post);
    assert_eq!(action(asked(&request)), "/courseSearch/ExecuteCourseSearch");
    assert!(asked(&request).form.contains(&("courseSearchForm.courseNumber".to_string(), "0360100".to_string())));

    let (detail, request) = detail.step("20185", "036010001", fill(listing_page()));
    assert!(matches!(request, DetailRequest::Nothing));
    let course = detail.outcome().expect("the scrape is over").unwrap().expect("the course is known");
    assert_eq!(course.code, "036010001");
    assert_eq!(course.title, "Intro to Proofs");
    assert_eq!(course.meets, "MWF 8:30");
    assert_eq!(course.description, "Logic and sets.");
    assert_eq!(course.instructors[0].name, "Ada Lovelace");
    assert!(course.sections.is_none());
}

#[test]
fn an_unknown_course_ends_the_scrape_at_the_main_page() {
    let (detail, _) = Detail::start("20185", "036010001");
    let unknown = "<html><body><div class=\"portlet-msg-error\">No such course.</div></body></html>";
    let (detail, request) = detail.step("20185", "036010001", Ok(unknown.to_string()));
    assert!(matches!(request, DetailRequest::Nothing));
    assert!(matches!(detail.outcome(), Some(Ok(None))));
}

#[test]
fn a_page_that_cannot_be_had_fails_the_scrape() {
    for pages in 0..3 {
        let (mut detail, mut request) = Detail::start("20185", "036010001");
        for page in [main_page(), people_page(), listing_page()].iter().take(pages) {
            let (next, then) = detail.step("20185", "036010001", fill(page));
            detail = next;
            request = then;
        }
        assert!(matches!(request, DetailRequest::Fetch(_)));
        let (detail, request) = detail.step("20185", "036010001", Err("timed out".to_string()));
        assert!(matches!(request, DetailRequest::Nothing));
        match detail.outcome() {
            Some(Err(ScrapeError::Transport(said))) => assert_eq!(said, "timed out"),
            other => panic!("expected a transport failure, got {:?}", other),
        }
    }
}

#[test]
fn a_main_page_that_lacks_something_fails_before_the_next_page_is_asked_for() {
    let (detail, _) = Detail::start("20185", "036010001");
    let broken = main_page().replace("courseSectionInfo_campus", "renamed");
    let (detail, request) = detail.step("20185", "036010001", fill(&broken));
    assert!(matches!(request, DetailRequest::Nothing));
    match detail.outcome() {
        Some(Err(ScrapeError::Extraction(e))) => assert_eq!(e.field(), "campus"),
        other => panic!("expected an extraction failure, got {:?}", other),
    }
}

#[test]
fn a_course_without_a_listed_section_fails_at_its_meeting_times() {
    let (detail, _) = Detail::start("20185", "036010002");
    let (detail, _) = detail.step("20185", "036010002", fill(main_page()));
    let (detail, _) = detail.step("20185", "036010002", fill(people_page()));
    let (detail, request) = detail.step("20185", "036010002", fill(listing_page()));
    assert!(matches!(request, DetailRequest::Nothing));
    match detail.outcome() {
        Some(Err(ScrapeError::Extraction(e))) => assert_eq!(e.field(), "meets"),
        other => panic!("expected an extraction failure, got {:?}", other),
    }
}

#[test]
fn a_code_that_is_too_short_fails_the_scrape_at_once() {
    let (detail, request) = Detail::start("20185", "60100");
    assert!(matches!(request, DetailRequest::Nothing));
    match detail.outcome() {
        Some(Err(ScrapeError::Extraction(e))) => assert_eq!(e.field(), "course code"),
        other => panic!("expected an extraction failure, got {:?}", other),
    }
}

#[test]
fn a_scrape_that_is_over_stays_as_it_is() {
    let (detail, _) = Detail::start("20185", "036010001");
    let (detail, _) = detail.step("20185", "036010001", Err("down".to_string()));
    let (detail, request) = detail.step("20185", "036010001", fill(main_page()));
    assert!(matches!(request, DetailRequest::Nothing));
    assert!(matches!(detail.outcome(), Some(Err(ScrapeError::Transport(said))) if said == "down"));
    let (unfinished, _) = Detail::start("20185", "036010001");
    assert!(unfinished.outcome().is_none());
}
