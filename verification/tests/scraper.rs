use uwinsearch::course::{CoursePreview, Instructor};
use uwinsearch::dom::Page;
use uwinsearch::scraper::Scraper;

const PREFIX: &str = "_uwinregistrationcoursesearch_WAR_uwinregistrationtoolsportlet_";

fn fill(markup: &str) -> Page {
    Page::parse(&markup.replace("PFX_", PREFIX))
}

fn main_page() -> String {
    "<html><head><title>Course</title></head><body>
      <h1> 03-60-100  <b>Intro   to Proofs</b></h1>
      <div id=\"PFX_tabs-details\">
        <div><label>Starts</label><span id=\"dateSessionStartsFormatted\">Sep 6, 2018</span></div>
        <div><span id=\"dateSessionEndsFormatted\">Dec  5, 2018</span></div>
        <div><span id=\"courseSectionInfo_campus\">Main Campus</span></div>
        <div><span id=\"courseSectionInfo_sectionAvailability\">Open (12 of 60)</span></div>
        <div><span id=\"courseSectionInfo_courseValue\">3.00</span></div>
        <div><span id=\"dateDropsCloseFormatted\">Nov 14, 2018</span></div>
        <p class=\"uwinNoteText\">Bring a  calculator.</p>
        <p>Logic, sets and <i>proofs</i>.</p>
      </div>
      <div id=\"PFX_tabs-prerequistes\"><ul><li>60-099 or  equivalent</li><li>Grade 12 math</li></ul></div>
      <div id=\"PFX_tabs-exams\"><table>
        <tr><th>Type</th><th>Slot</th><th>Date</th><th>Time</th><th>Building</th><th>Room</th><th>Area</th></tr>
        <tr><td>Final</td><td>12</td><td> Dec 10 </td><td>8:30</td><td>Erie Hall</td><td>1120</td><td>A-M</td></tr>
        <tr><td> Midterm </td><td>4</td></tr>
      </table></div>
    </body></html>"
        .to_string()
}

fn people_page() -> &'static str {
    "<html><body><ul class=\"plain uwinListView\">
      <li><b>Dr. Ada  Lovelace</b>
        <div><span class=\"wwctrl\">Professor</span></div>
        <div><span class=\"wwctrl\">Computer Science</span></div>
        <div><span class=\"wwctrl\">519-253-3000</span></div>
        <div><span class=\"wwctrl\"><a href=\"mailto:ada@uwindsor.ca\">ada@uwindsor.ca</a></span></div>
      </li>
      <li><b>Staff</b><div><span class=\"wwctrl\">Sessional</span></div></li>
    </ul></body></html>"
}

fn listing_page() -> &'static str {
    "<html><body><div id=\"PFX_CourseResults\"><table><tbody>
      <tr><td><a href=\"/details?s=01\">03-60-100 - 01</a></td><td>Intro to Proofs</td><td>MWF 8:30-9:20</td><td>Fall 2018</td><td>Open</td></tr>
      <tr><td><a href=\"/details?s=02\">03-60-100 - 02</a></td><td>Intro to Proofs</td><td>TTh 13:00-14:20</td><td>Fall 2018</td><td>Full</td></tr>
    </tbody></table></div></body></html>"
}

#[test]
fn the_term_list_gives_the_codes_of_the_terms() {
    let page = fill(
        "<html><body><form><select id=\"ExecuteCourseSearch_acadtermCode\">
           <option value=\"20185\">Fall 2018</option>
           <option value=\"20191\"> Winter 2019 </option>
         </select></form></body></html>",
    );
    assert_eq!(Scraper::new().scrape(&page).unwrap(), vec!["20185".to_string(), "20191".to_string()]);
}

#[test]
fn a_page_without_the_term_list_fails() {
    let page = fill("<html><body><select id=\"other\"><option value=\"1\">x</option></select></body></html>");
    let e = Scraper::new().scrape(&page).unwrap_err();
    assert_eq!(e.field(), "term code list");
    assert_eq!(e.message(), "Error parsing HTML at term code list");
}

#[test]
fn a_term_without_a_value_or_a_name_fails() {
    let no_value = fill(
        "<select id=\"ExecuteCourseSearch_acadtermCode\"><option value=\"20185\">Fall</option><option>Winter</option></select>",
    );
    assert_eq!(Scraper::new().scrape(&no_value).unwrap_err().field(), "term code value");
    let no_name = fill(
        "<select id=\"ExecuteCourseSearch_acadtermCode\"><option value=\"20185\">  </option><option>Winter</option></select>",
    );
    assert_eq!(Scraper::new().scrape(&no_name).unwrap_err().field(), "term code name");
}

#[test]
fn the_course_list_gives_the_codes_without_spaces_and_hyphens() {
    let page = fill(listing_page());
    assert_eq!(
        Scraper::new().scrape_courses(&page).unwrap(),
        vec!["036010001".to_string(), "036010002".to_string()]
    );
}

#[test]
fn a_course_list_without_a_table_or_a_code_fails() {
    let no_table = fill("<html><body><div id=\"PFX_CourseResults\"></div></body></html>");
    assert_eq!(Scraper::new().scrape_courses(&no_table).unwrap_err().field(), "course list");
    let no_code = fill(
        "<div id=\"PFX_CourseResults\"><table><tbody><tr><td>60100</td></tr><tr><td> - </td><td>x</td></tr></tbody></table></div>",
    );
    assert_eq!(Scraper::new().scrape_courses(&no_code).unwrap_err().field(), "course code");
    let no_cell = fill("<div id=\"PFX_CourseResults\"><table><tbody><tr></tr></tbody></table></div>");
    assert_eq!(Scraper::new().scrape_courses(&no_cell).unwrap_err().field(), "course code");
    let empty = fill("<div id=\"PFX_CourseResults\"><table><tbody></tbody></table></div>");
    assert!(Scraper::new().scrape_courses(&empty).unwrap().is_empty());
}

#[test]
fn the_course_page_gives_title_and_description() {
    let (title, description) = Scraper::new().scrape_basic(&fill(&main_page())).unwrap();
    assert_eq!(title, "03-60-100 Intro to Proofs");
    assert_eq!(description, "Bring a calculator. Logic, sets and proofs .");
}

#[test]
fn a_course_page_without_heading_or_details_fails() {
    let no_heading = fill("<html><body><div id=\"PFX_tabs-details\"><p>x</p></div></body></html>");
    assert_eq!(Scraper::new().scrape_basic(&no_heading).unwrap_err().field(), "course title");
    let no_details = fill("<html><body><h1>Title</h1></body></html>");
    assert_eq!(Scraper::new().scrape_basic(&no_details).unwrap_err().field(), "course details");
    let nested = fill("<html><body><div><h1>Title</h1></div><div id=\"PFX_tabs-details\"></div></body></html>");
    assert_eq!(Scraper::new().scrape_basic(&nested).unwrap_err().field(), "course title");
}

#[test]
fn the_main_page_gives_the_fields_of_the_course() {
    let page = Scraper::new().scrape_page(&fill(&main_page())).unwrap();
    assert_eq!(page.title, "03-60-100 Intro to Proofs");
    assert_eq!(page.starts, "Sep 6, 2018");
    assert_eq!(page.ends, "Dec 5, 2018");
    assert_eq!(page.campus, "Main Campus");
    assert_eq!(page.availability, "Open (12 of 60)");
    assert_eq!(page.course_value, "3.00");
    assert_eq!(page.date_drops_close, "Nov 14, 2018");
    assert_eq!(page.note.as_deref(), Some("Bring a calculator."));
    assert_eq!(page.description, "Bring a calculator. Logic, sets and proofs .");
    assert_eq!(page.prereqs, vec!["60-099 or equivalent".to_string(), "Grade 12 math".to_string()]);
    assert_eq!(page.exams.len(), 2);
    let last = &page.exams[0];
    assert_eq!(last.ty, "Final");
    assert_eq!(last.slot.as_deref(), Some("12"));
    assert_eq!(last.date.as_deref(), Some("Dec 10"));
    assert_eq!(last.time.as_deref(), Some("8:30"));
    assert_eq!(last.building.as_deref(), Some("Erie Hall"));
    assert_eq!(last.room.as_deref(), Some("1120"));
    assert_eq!(last.area.as_deref(), Some("A-M"));
    let mid = &page.exams[1];
    assert_eq!(mid.ty, "Midterm");
    assert_eq!(mid.slot.as_deref(), Some("4"));
    assert_eq!(mid.date, None);
    assert_eq!(mid.area, None);
}

#[test]
fn each_missing_field_of_the_main_page_is_named() {
    let cases = [
        ("dateSessionStartsFormatted", "starts"),
        ("dateSessionEndsFormatted", "ends"),
        ("courseSectionInfo_campus", "campus"),
        ("courseSectionInfo_sectionAvailability", "availability"),
        ("courseSectionInfo_courseValue", "course_value"),
        ("dateDropsCloseFormatted", "date_drops_close"),
    ];
    for (id, field) in cases {
        let page = fill(&main_page().replace(id, "renamed"));
        assert_eq!(Scraper::new().scrape_page(&page).unwrap_err().field(), field);
    }
    let no_exam_text = fill(&main_page().replace("<tr><td> Midterm </td><td>4</td></tr>", "<tr><td></td></tr>"));
    assert_eq!(Scraper::new().scrape_page(&no_exam_text).unwrap_err().field(), "course exam");
    assert_eq!(Scraper::new().scrape_exams(&no_exam_text).unwrap_err().field(), "course exam");
}

#[test]
fn a_main_page_without_the_optional_parts_is_fine() {
    let markup = main_page()
        .replace("<p class=\"uwinNoteText\">Bring a  calculator.</p>", "")
        .replace("tabs-prerequistes", "tabs-none")
        .replace("tabs-exams", "tabs-nothing");
    let page = Scraper::new().scrape_page(&fill(&markup)).unwrap();
    assert_eq!(page.note, None);
    assert_eq!(page.description, "Logic, sets and proofs .");
    assert!(page.prereqs.is_empty());
    assert!(page.exams.is_empty());
}

#[test]
fn the_instructors_page_gives_the_instructors() {
    let found = Scraper::new().scrape_instructors(&fill(people_page())).unwrap();
    assert_eq!(found.len(), 2);
    assert_eq!(found[0].name, "Dr. Ada Lovelace");
    assert_eq!(found[0].title.as_deref(), Some("Professor"));
    assert_eq!(found[0].department.as_deref(), Some("Computer Science"));
    assert_eq!(found[0].phone.as_deref(), Some("519-253-3000"));
    assert_eq!(found[0].email.as_deref(), Some("ada@uwindsor.ca"));
    assert_eq!(found[1].name, "Staff");
    assert_eq!(found[1].title.as_deref(), Some("Sessional"));
    assert_eq!(found[1].department, None);
    assert_eq!(found[1].email, None);
}

#[test]
fn an_instructors_page_without_list_or_name_fails() {
    let no_list = fill("<html><body><ul class=\"other\"><li><b>x</b></li></ul></body></html>");
    assert_eq!(Scraper::new().scrape_instructors(&no_list).unwrap_err().field(), "course instructors");
    let no_name = fill("<ul class=\"uwinListView\"><li><b>A</b></li><li><i>B</i></li></ul>");
    assert_eq!(Scraper::new().scrape_instructors(&no_name).unwrap_err().field(), "instructor name");
    let nobody = fill("<ul class=\"uwinListView\"></ul>");
    assert!(Scraper::new().scrape_instructors(&nobody).unwrap().is_empty());
}

#[test]
fn the_directory_address_is_made_from_the_e_mail_address() {
    let mut ada = Instructor {
        name: "Ada".to_string(),
        title: None,
        department: None,
        phone: None,
        email: Some("ada@uwindsor.ca".to_string()),
    };
    assert_eq!(
        ada.directory_url().as_deref(),
        Some("http://apps.uwindsor.ca/uwincpb/jsp/DirectoryServicesProfile.jsp?q=ada")
    );
    ada.email = Some("ada".to_string());
    assert_eq!(
        ada.directory_url().as_deref(),
        Some("http://apps.uwindsor.ca/uwincpb/jsp/DirectoryServicesProfile.jsp?q=ada")
    );
    ada.email = Some("@a@b".to_string());
    assert_eq!(
        ada.directory_url().as_deref(),
        Some("http://apps.uwindsor.ca/uwincpb/jsp/DirectoryServicesProfile.jsp?q=")
    );
    ada.email = None;
    assert_eq!(ada.directory_url(), None);
}

#[test]
fn the_listing_gives_the_sections() {
    let found = Scraper::new().scrape_sections(&fill(listing_page())).unwrap();
    assert_eq!(found.len(), 2);
    assert_eq!(found[0].url, "/details?s=01");
    assert_eq!(found[0].code, "036010001");
    assert_eq!(found[0].title, "Intro to Proofs");
    assert_eq!(found[0].meets, "MWF 8:30-9:20");
    assert_eq!(found[0].session, "Fall 2018");
    assert_eq!(found[0].status, "Open");
    assert_eq!(found[1].code, "036010002");
    assert_eq!(found[1].status, "Full");
}

#[test]
fn a_listing_without_table_or_with_a_short_row_fails() {
    let no_table = fill("<html><body></body></html>");
    assert_eq!(Scraper::new().scrape_sections(&no_table).unwrap_err().field(), "section list");
    let short = fill(&listing_page().replace("<td>Full</td>", ""));
    assert_eq!(Scraper::new().scrape_sections(&short).unwrap_err().field(), "section");
    let no_link = fill(&listing_page().replace("<a href=\"/details?s=02\">03-60-100 - 02</a>", "03-60-100 - 02"));
    assert_eq!(Scraper::new().scrape_sections(&no_link).unwrap_err().field(), "section");
}

#[test]
fn the_full_detail_is_put_together_from_three_pages() {
    let scraper = Scraper::new();
    let course = scraper
        .scrape_full("036010002", &fill(&main_page()), &fill(people_page()), &fill(listing_page()))
        .unwrap()
        .expect("the portal knows the course");
    assert_eq!(course.code, "036010002");
    assert_eq!(course.title, "03-60-100 Intro to Proofs");
    assert_eq!(course.meets, "TTh 13:00-14:20");
    assert_eq!(course.starts, "Sep 6, 2018");
    assert_eq!(course.availability, "Open (12 of 60)");
    assert_eq!(course.note.as_deref(), Some("Bring a calculator."));
    assert_eq!(course.prereqs.len(), 2);
    assert_eq!(course.exams.len(), 2);
    assert_eq!(course.instructors.len(), 2);
    let others = course.sections.expect("another section is listed");
    assert_eq!(others.len(), 1);
    assert_eq!(others[0].code, "036010001");
}

#[test]
fn a_preview_is_enough_to_scrape_the_full_detail() {
    let preview = CoursePreview {
        term: "20185".to_string(),
        code: "036010001".to_string(),
        title: "Intro to Proofs".to_string(),
    };
    let course = preview
        .scrape(&Scraper::new(), &fill(&main_page()), &fill(people_page()), &fill(listing_page()))
        .unwrap()
        .unwrap();
    assert_eq!(course.code, "036010001");
    assert_eq!(course.meets, "MWF 8:30-9:20");
}

#[test]
fn a_course_that_the_portal_does_not_know_is_absent() {
    let unknown = fill("<html><body><div class=\"portlet-msg-error\">Course not found.</div></body></html>");
    let scraper = Scraper::new();
    assert!(scraper.is_not_found(&unknown));
    assert!(!scraper.is_not_found(&fill(&main_page())));
    let outcome = scraper.scrape_full("036010001", &unknown, &fill("<p></p>"), &fill("<p></p>"));
    assert!(matches!(outcome, Ok(None)));
}

#[test]
fn a_course_without_a_listed_section_fails_at_meets() {
    let scraper = Scraper::new();
    let e = scraper
        .scrape_full("036010003", &fill(&main_page()), &fill(people_page()), &fill(listing_page()))
        .unwrap_err();
    assert_eq!(e.field(), "meets");
    assert_eq!(e.message(), "Error parsing HTML at meets");
}

#[test]
fn the_main_page_fails_before_the_other_pages() {
    let scraper = Scraper::new();
    let broken = fill(&main_page().replace("courseSectionInfo_campus", "renamed"));
    let e = scraper.scrape_full("036010001", &broken, &fill("<p></p>"), &fill("<p></p>")).unwrap_err();
    assert_eq!(e.field(), "campus");
    let e = scraper
        .scrape_full("036010001", &fill(&main_page()), &fill("<p></p>"), &fill("<p></p>"))
        .unwrap_err();
    assert_eq!(e.field(), "course instructors");
    let e = scraper
        .scrape_full("036010001", &fill(&main_page()), &fill(people_page()), &fill("<p></p>"))
        .unwrap_err();
    assert_eq!(e.field(), "section list");
}

#[test]
fn a_course_with_one_section_lists_no_others() {
    let alone = listing_page().replace(
        "<tr><td><a href=\"/details?s=02\">03-60-100 - 02</a></td><td>Intro to Proofs</td><td>TTh 13:00-14:20</td><td>Fall 2018</td><td>Full</td></tr>",
        "",
    );
    let course = Scraper::new()
        .scrape_full("036010001", &fill(&main_page()), &fill(people_page()), &fill(&alone))
        .unwrap()
        .unwrap();
    assert!(course.sections.is_none());
    assert_eq!(course.meets, "MWF 8:30-9:20");
}
