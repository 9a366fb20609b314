use uwinsearch::command::{
    can_send, code_comes_before, may_reindex, parse_message, present, present_detail, search,
    semester, serves, sort_by_code, Command, Shown,
};
use uwinsearch::course::CourseSummary;
use uwinsearch::index::{course_schema, CourseIndex};
use uwinsearch::lifecycle::{Lifecycle, Phase};
use uwinsearch::corpus::ScrapeError;
use uwinsearch::course::{Course, CoursePreview, Exam, Instructor, QueryError};
use uwinsearch::index::{QueryFailure, SystemError};
use uwinsearch::reply::{card, help, internal_error, invalid_semester, listing, Reply};

fn searched(command: Command) -> (String, String) {
    match command {
        Command::Search { term, query } => (term, query),
        other => panic!("expected a search, got {:?}", other),
    }
}

fn preview(code: &str, title: &str) -> CoursePreview {
    CoursePreview { term: "20185".to_string(), code: code.to_string(), title: title.to_string() }
}

fn message(reply: Reply) -> String {
    match reply {
        Reply::Message(text) => text,
        Reply::Card(card) => panic!("expected a message, got {:?}", card),
    }
}

#[test]
fn other_messages_are_ignored() {
    assert!(matches!(parse_message(""), Command::Ignore));
    assert!(matches!(parse_message("   "), Command::Ignore));
    assert!(matches!(parse_message("hello ~course 60100"), Command::Ignore));
    assert!(matches!(parse_message("~courses 60100"), Command::Ignore));
}

#[test]
fn the_first_word_names_the_command() {
    assert!(matches!(parse_message("~reindex"), Command::Reindex));
    assert!(matches!(parse_message("  ~reindex now"), Command::Reindex));
    assert!(matches!(parse_message("~course -h"), Command::Help));
    assert!(matches!(parse_message("~course -h graph theory"), Command::Help));
}

#[test]
fn a_plain_query_searches_the_default_term() {
    assert_eq!(searched(parse_message("~course 60100")), ("20185".to_string(), "60100".to_string()));
    assert_eq!(
        searched(parse_message("~course   graph \t theory ")),
        ("20185".to_string(), "graph theory".to_string())
    );
    assert_eq!(searched(parse_message("~course")), ("20185".to_string(), String::new()));
    assert_eq!(searched(parse_message("~course theory -s f18")), ("20185".to_string(), "theory -s f18".to_string()));
}

#[test]
fn a_semester_selects_the_term() {
    assert_eq!(searched(parse_message("~course -s f18 graph theory")), ("20185".to_string(), "graph theory".to_string()));
    assert_eq!(searched(parse_message("~course -s w19 60100")), ("20191".to_string(), "60100".to_string()));
    assert_eq!(searched(parse_message("~course -s s07")), ("20072".to_string(), String::new()));
    assert_eq!(searched(parse_message("~course -s xs201 x")), ("20202".to_string(), "x".to_string()));
}

#[test]
fn a_semester_that_cannot_be_read_is_invalid() {
    assert!(matches!(parse_message("~course -s"), Command::InvalidSemester));
    assert!(matches!(parse_message("~course -s fall graph"), Command::InvalidSemester));
    assert!(matches!(parse_message("~course -s F18 graph"), Command::InvalidSemester));
    assert!(matches!(parse_message("~course -s f1 graph"), Command::InvalidSemester));
}

#[test]
fn the_groups_of_a_semester_give_the_code_of_the_term() {
    let groups = |letter: &str, year: &str| {
        Some(vec![Some(format!("{}{}", letter, year)), Some(letter.to_string()), Some(year.to_string())])
    };
    assert_eq!(semester(&groups("f", "18")), Some("20185".to_string()));
    assert_eq!(semester(&groups("F", "18")), Some("20185".to_string()));
    assert_eq!(semester(&groups("s", "20")), Some("20202".to_string()));
    assert_eq!(semester(&groups("S", "20")), Some("20202".to_string()));
    assert_eq!(semester(&groups("w", "19")), Some("20191".to_string()));
    assert_eq!(semester(&groups("W", "19")), Some("20191".to_string()));
    assert_eq!(semester(&groups("x", "19")), None);
    assert_eq!(semester(&None), None);
    assert_eq!(semester(&Some(vec![Some("f18".to_string()), Some("f".to_string())])), None);
    assert_eq!(semester(&Some(vec![Some("f18".to_string()), None, Some("18".to_string())])), None);
    assert_eq!(semester(&Some(vec![Some("f18".to_string()), Some("f".to_string()), None])), None);
}

#[test]
fn codes_are_ordered_character_by_character() {
    assert!(code_comes_before("60100", "60101"));
    assert!(!code_comes_before("60101", "60100"));
    assert!(code_comes_before("60100", "60100"));
    assert!(code_comes_before("6010", "60100"));
    assert!(!code_comes_before("60100", "6010"));
    assert!(code_comes_before("", "6"));
    assert!(code_comes_before("9", "A"));
    assert!(code_comes_before("Z", "a"));
    assert!(code_comes_before("z", "é"));
}

#[test]
fn the_order_of_codes_is_the_order_of_strings() {
    let codes = ["", "0", "036010001", "036010002", "03601", "6", "60100", "A", "a", "é", "ée", "z"];
    for a in codes {
        for b in codes {
            assert_eq!(code_comes_before(a, b), a <= b);
        }
    }
}

#[test]
fn previews_are_sorted_by_code() {
    let sorted = sort_by_code(vec![
        preview("60340", "Object Design"),
        preview("60100", "Intro to Proofs"),
        preview("60231", "Theory"),
        preview("60100", "Intro to Proofs, again"),
        preview("6010", "Short"),
    ]);
    let shown: Vec<(&str, &str)> = sorted.iter().map(|p| (p.code.as_str(), p.title.as_str())).collect();
    assert_eq!(
        shown,
        vec![
            ("6010", "Short"),
            ("60100", "Intro to Proofs"),
            ("60100", "Intro to Proofs, again"),
            ("60231", "Theory"),
            ("60340", "Object Design"),
        ]
    );
    assert!(sort_by_code(vec![]).is_empty());
}

#[test]
fn no_preview_is_said_so() {
    match present("knitting", Ok(vec![])) {
        Shown::Reply(reply) => assert_eq!(message(reply), "No course found for query `\"knitting\"`."),
        other => panic!("expected a reply, got {:?}", other),
    }
}

#[test]
fn one_preview_is_shown_in_full() {
    match present("60100", Ok(vec![preview("60100", "Intro to Proofs")])) {
        Shown::Detail(only) => {
            assert_eq!(only.code, "60100");
            assert_eq!(only.term, "20185");
            assert_eq!(only.title, "Intro to Proofs");
        }
        other => panic!("expected the detail, got {:?}", other),
    }
}

#[test]
fn several_previews_are_listed_by_code() {
    let found = vec![preview("60101", "Discrete Math"), preview("60100", "Intro to Proofs")];
    match present("6010", Ok(found)) {
        Shown::Reply(Reply::Card(card)) => {
            assert_eq!(card.title.as_deref(), Some("Top 10 Results"));
            assert_eq!(card.description.as_deref(), Some("`60100` Intro to Proofs\n`60101` Discrete Math"));
            assert!(card.fields.is_empty());
            assert!(card.icon);
        }
        other => panic!("expected a listing, got {:?}", other),
    }
}

#[test]
fn an_invalid_query_is_said_so_and_a_failure_fails() {
    let invalid = Err(QueryFailure::Invalid(QueryError("syntax".to_string())));
    match present("title:[", invalid) {
        Shown::Reply(reply) => assert_eq!(message(reply), "Query `\"title:[\"` is invalid."),
        other => panic!("expected a reply, got {:?}", other),
    }
    let broken = Err(QueryFailure::System(SystemError("disk".to_string())));
    match present("proofs", broken) {
        Shown::Failed(e) => assert_eq!(e.message(), "disk"),
        other => panic!("expected a failure, got {:?}", other),
    }
}

#[test]
fn fixed_replies_say_what_they_should() {
    assert_eq!(message(invalid_semester()), "Semester selection is invalid.");
    assert_eq!(message(internal_error()), "Internal error.");
    match help() {
        Reply::Card(card) => {
            assert_eq!(card.title, None);
            assert_eq!(card.description, None);
            assert!(!card.icon);
            let fields: Vec<(&str, &str, bool)> =
                card.fields.iter().map(|f| (f.name.as_str(), f.value.as_str(), f.inline)).collect();
            assert_eq!(
                fields,
                vec![
                    ("Usage", "~course [OPTION] <QUERY>", false),
                    (
                        "Options",
                        "`-h` View the command help.\n`-s <[fsw]XX>` Select a semester where f (Fall) s (Summer) w (Winter) and XX is the year",
                        false
                    ),
                    ("Examples", "~course 60100\n~course graph theory\n~course -s f18 graph theory", false),
                ]
            );
        }
        Reply::Message(text) => panic!("expected a card, got {}", text),
    }
    match listing(&[preview("60100", "Intro")].into_iter().collect()) {
        Reply::Card(card) => assert_eq!(card.description.as_deref(), Some("`60100` Intro")),
        Reply::Message(text) => panic!("expected a card, got {}", text),
    }
}

fn course() -> Course {
    Course {
        code: "036010001".to_string(),
        title: "Intro to Proofs".to_string(),
        meets: "MWF 8:30-9:20".to_string(),
        starts: "Sep 6".to_string(),
        ends: "Dec 5".to_string(),
        campus: "Main".to_string(),
        availability: "Open".to_string(),
        course_value: "3.00".to_string(),
        date_drops_close: "Nov 14".to_string(),
        description: "x".repeat(250),
        note: Some("Bring a calculator.".to_string()),
        prereqs: vec!["60-099".to_string(), "Grade 12 math".to_string()],
        exams: vec![
            Exam {
                ty: "Final".to_string(),
                slot: Some("12".to_string()),
                date: Some("Dec 10".to_string()),
                time: Some("8:30".to_string()),
                building: Some("Erie Hall".to_string()),
                room: Some("1120".to_string()),
                area: Some("A-M".to_string()),
            },
            Exam {
                ty: "Midterm".to_string(),
                slot: None,
                date: None,
                time: Some("9:00".to_string()),
                building: None,
                room: None,
                area: None,
            },
        ],
        instructors: vec![
            Instructor {
                name: "Ada Lovelace".to_string(),
                title: None,
                department: None,
                phone: None,
                email: Some("ada@uwindsor.ca".to_string()),
            },
            Instructor { name: "Staff".to_string(), title: None, department: None, phone: None, email: None },
        ],
        sections: None,
    }
}

#[test]
fn the_card_of_a_course_shows_what_it_has() {
    let shown = match card(&course()) {
        Reply::Card(card) => card,
        Reply::Message(text) => panic!("expected a card, got {}", text),
    };
    assert_eq!(shown.title.as_deref(), Some("Intro to Proofs"));
    assert_eq!(shown.description, Some(format!("{}...\n\n", "x".repeat(200))));
    assert!(shown.icon);
    let fields: Vec<(&str, &str, bool)> =
        shown.fields.iter().map(|f| (f.name.as_str(), f.value.as_str(), f.inline)).collect();
    assert_eq!(
        fields,
        vec![
            ("Note", "Bring a calculator.", false),
            ("Meets", "MWF 8:30-9:20", false),
            (
                "Instructors",
                "[Ada Lovelace](http://apps.uwindsor.ca/uwincpb/jsp/DirectoryServicesProfile.jsp?q=ada)\nStaff",
                true
            ),
            ("Availability", "Open", true),
            ("Prerequisites", "60-099\nGrade 12 math", false),
            ("Exams", "**Final** on Dec 10 at 8:30 in Erie Hall room 1120\n**Midterm** at 9:00", false),
        ]
    );
}

#[test]
fn the_card_of_a_bare_course_has_two_fields() {
    let mut bare = course();
    bare.description = "Short.".to_string();
    bare.note = None;
    bare.prereqs.clear();
    bare.exams.clear();
    bare.instructors.clear();
    let shown = match card(&bare) {
        Reply::Card(card) => card,
        Reply::Message(text) => panic!("expected a card, got {}", text),
    };
    assert_eq!(shown.description.as_deref(), Some("Short....\n\n"));
    let names: Vec<&str> = shown.fields.iter().map(|f| f.name.as_str()).collect();
    assert_eq!(names, vec!["Meets", "Availability"]);
}

#[test]
fn the_detail_is_shown_or_said_to_be_missing() {
    match present_detail("60100", Ok(Some(course()))) {
        Ok(Reply::Card(card)) => assert_eq!(card.title.as_deref(), Some("Intro to Proofs")),
        other => panic!("expected a card, got {:?}", other),
    }
    match present_detail("60100", Ok(None)) {
        Ok(reply) => assert_eq!(message(reply), "No course found for query `\"60100\"`."),
        Err(e) => panic!("expected a reply, got {:?}", e),
    }
    match present_detail("60100", Err(ScrapeError::Transport("down".to_string()))) {
        Err(ScrapeError::Transport(said)) => assert_eq!(said, "down"),
        other => panic!("expected the failure, got {:?}", other),
    }
}

#[test]
fn replies_need_both_permissions_in_a_guild() {
    assert!(can_send(None));
    assert!(!can_send(Some(None)));
    assert!(can_send(Some(Some((true, true)))));
    assert!(!can_send(Some(Some((true, false)))));
    assert!(!can_send(Some(Some((false, true)))));
}

#[test]
fn only_administrators_may_reindex() {
    assert!(may_reindex(Some(Some(true))));
    assert!(!may_reindex(Some(Some(false))));
    assert!(!may_reindex(Some(None)));
    assert!(!may_reindex(None));
}

#[test]
fn a_search_is_answered_only_while_an_index_is_active() {
    assert!(serves(Phase::Ready));
    assert!(!serves(Phase::Absent));
    assert!(!serves(Phase::Building));
    assert!(!serves(Phase::Rebuilding));

    let mut life: Lifecycle<CourseIndex> = Lifecycle::new();
    assert!(search(&life, "20185", "60100").is_none());
    life.open(false);
    assert!(search(&life, "20185", "60100").is_none());
    let course = |code: &str, title: &str| CourseSummary {
        term: "20185".to_string(),
        code: code.to_string(),
        title: title.to_string(),
        description: "...".to_string(),
    };
    let corpus = vec![course("60100", "Intro to Proofs"), course("60101", "Discrete Math")];
    let index = CourseIndex::open(tantivy::Index::create_in_ram(course_schema()), Some(corpus));
    life.finish(index.ok());
    match search(&life, "20185", "60100") {
        Some(Shown::Detail(only)) => assert_eq!(only.code, "60100"),
        other => panic!("expected the detail, got {:?}", other),
    }
    match search(&life, "20185", "knitting") {
        Some(Shown::Reply(reply)) => {
            assert_eq!(message(reply), "No course found for query `\"knitting\"`.")
        }
        other => panic!("expected a reply, got {:?}", other),
    }
    match search(&life, "20185", "title:[") {
        Some(Shown::Reply(reply)) => assert_eq!(message(reply), "Query `\"title:[\"` is invalid."),
        other => panic!("expected a reply, got {:?}", other),
    }
    life.begin_rebuild();
    assert!(search(&life, "20185", "60100").is_none());
}
