//! What is said in the chat: the cards and messages that answer a command.

use vstd::prelude::*;
use vstd::string::StringExecFns;
use crate::course::{
    local_part, opt_view, preview_views, Course, CoursePreview, CourseView, Exam, ExamView,
    Instructor, InstructorView, PreviewView, DIRECTORY_SERVICES,
};
use crate::text::{chars_of, join, join_with, string_of, views};

verus! {

/// The colour of a card.
pub const EMBED_COLOR: u32 = 0x00005696;

/// The number of characters of a description that a card shows.
pub const DESCRIPTION_SHOWN: usize = 200;

/// A titled value on a card.
#[derive(Debug, Clone)]
pub struct EmbedField {
    pub name: String,
    pub value: String,
    /// Whether the field may stand beside its neighbour.
    pub inline: bool,
}

/// A field as plain text.
pub struct EmbedFieldView {
    pub name: Seq<char>,
    pub value: Seq<char>,
    pub inline: bool,
}

impl View for EmbedField {
    type V = EmbedFieldView;

    open spec fn view(&self) -> EmbedFieldView {
        EmbedFieldView { name: self.name@, value: self.value@, inline: self.inline }
    }
}

/// The views of a list of fields.
pub open spec fn field_views(v: Seq<EmbedField>) -> Seq<EmbedFieldView> {
    v.map_values(|f: EmbedField| f@)
}

/// A card: title, description and fields, with or without the
/// university's icon.
#[derive(Debug, Clone)]
pub struct Embed {
    pub title: Option<String>,
    pub description: Option<String>,
    pub fields: Vec<EmbedField>,
    pub icon: bool,
}

/// A card as plain text.
pub struct EmbedView {
    pub title: Option<Seq<char>>,
    pub description: Option<Seq<char>>,
    pub fields: Seq<EmbedFieldView>,
    pub icon: bool,
}

impl View for Embed {
    type V = EmbedView;

    open spec fn view(&self) -> EmbedView {
        EmbedView {
            title: opt_view(self.title),
            description: opt_view(self.description),
            fields: field_views(self.fields@),
            icon: self.icon,
        }
    }
}

/// What is sent to the chat.
#[derive(Debug, Clone)]
pub enum Reply {
    /// A line of text.
    Message(String),
    /// A card.
    Card(Embed),
}

/// A reply as plain text.
pub enum ReplyView {
    Message(Seq<char>),
    Card(EmbedView),
}

impl View for Reply {
    type V = ReplyView;

    open spec fn view(&self) -> ReplyView {
        match self {
            Reply::Message(text) => ReplyView::Message(text@),
            Reply::Card(card) => ReplyView::Card(card@),
        }
    }
}

/// A field as plain text.
pub open spec fn field(name: Seq<char>, value: Seq<char>, inline: bool) -> EmbedFieldView {
    EmbedFieldView { name, value, inline }
}

/// The card that explains the command.
pub open spec fn help_card() -> EmbedView {
    EmbedView {
        title: None,
        description: None,
        fields: seq![
            field("Usage"@, "~course [OPTION] <QUERY>"@, false),
            field(
                "Options"@,
                "`-h` View the command help.\n`-s <[fsw]XX>` Select a semester where f (Fall) s (Summer) w (Winter) and XX is the year"@,
                false,
            ),
            field(
                "Examples"@,
                "~course 60100\n~course graph theory\n~course -s f18 graph theory"@,
                false,
            ),
        ],
        icon: false,
    }
}

/// The line of a listing for one course: its code between backticks, a
/// space, its title.
pub open spec fn listing_line(preview: PreviewView) -> Seq<char> {
    "`"@ + preview.code + "` "@ + preview.title
}

/// The card that lists several courses, one line for each.
pub open spec fn listing_card(previews: Seq<PreviewView>) -> EmbedView {
    EmbedView {
        title: Some("Top 10 Results"@),
        description: Some(
            join(Seq::new(previews.len(), |j: int| listing_line(previews[j])), "\n"@),
        ),
        fields: Seq::empty(),
        icon: true,
    }
}

/// The line of a card for one instructor: the name, as a link to the
/// directory where the e-mail address is known.
pub open spec fn instructor_line(instructor: InstructorView) -> Seq<char> {
    match instructor.email {
        Some(email) => "["@ + instructor.name + "]("@ + DIRECTORY_SERVICES@ + local_part(email)
            + ")"@,
        None => instructor.name,
    }
}

/// `lead` followed by `value`, where there is a value.
pub open spec fn with_lead(lead: Seq<char>, value: Option<Seq<char>>) -> Seq<char> {
    match value {
        Some(v) => lead + v,
        None => Seq::empty(),
    }
}

/// The line of a card for one exam: its kind in bold, then date, time,
/// building and room as far as they are known.
pub open spec fn exam_line(exam: ExamView) -> Seq<char> {
    "**"@ + exam.ty + "**"@ + with_lead(" on "@, exam.date) + with_lead(" at "@, exam.time)
        + with_lead(" in "@, exam.building) + with_lead(" room "@, exam.room)
}

/// The first characters of a description, as many as a card shows, and an
/// ellipsis.
pub open spec fn shortened(description: Seq<char>) -> Seq<char> {
    (if description.len() > DESCRIPTION_SHOWN {
        description.subrange(0, DESCRIPTION_SHOWN as int)
    } else {
        description
    }) + "...\n\n"@
}

/// `one` where `wanted`, nothing where not.
pub open spec fn when(wanted: bool, one: EmbedFieldView) -> Seq<EmbedFieldView> {
    if wanted {
        seq![one]
    } else {
        Seq::empty()
    }
}

/// The fields of the card of a course: note, meeting times, instructors,
/// availability, prerequisites and exams; those that the course has
/// nothing for are left out.
pub open spec fn course_fields(course: CourseView) -> Seq<EmbedFieldView> {
    when(course.note is Some, field("Note"@, course.note.unwrap(), false)) + seq![
        field("Meets"@, course.meets, false),
    ] + when(
        course.instructors.len() > 0,
        field(
            "Instructors"@,
            join(
                Seq::new(course.instructors.len(), |j: int| instructor_line(course.instructors[j])),
                "\n"@,
            ),
            true,
        ),
    ) + seq![field("Availability"@, course.availability, true)] + when(
        course.prereqs.len() > 0,
        field("Prerequisites"@, join(course.prereqs, "\n"@), false),
    ) + when(
        course.exams.len() > 0,
        field(
            "Exams"@,
            join(Seq::new(course.exams.len(), |j: int| exam_line(course.exams[j])), "\n"@),
            false,
        ),
    )
}

/// The card of a course.
pub open spec fn course_card(course: CourseView) -> EmbedView {
    EmbedView {
        title: Some(course.title),
        description: Some(shortened(course.description)),
        fields: course_fields(course),
        icon: true,
    }
}

/// A field.
fn make_field(name: &str, value: String, inline: bool) -> (f: EmbedField)
    ensures
        f@ == field(name@, value@, inline),
{
    EmbedField { name: String::from_str(name), value, inline }
}

/// `a` followed by `b` and `c`.
fn wrap(a: &str, b: &str, c: &str) -> (r: String)
    ensures
        r@ == a@ + b@ + c@,
{
    let mut r = String::from_str(a);
    r.append(b);
    r.append(c);
    r
}

/// The card that explains the command.
pub fn help() -> (r: Reply)
    ensures
        r@ == ReplyView::Card(help_card()),
{
    let mut fields: Vec<EmbedField> = Vec::new();
    fields.push(make_field("Usage", String::from_str("~course [OPTION] <QUERY>"), false));
    fields.push(
        make_field(
            "Options",
            String::from_str(
                "`-h` View the command help.\n`-s <[fsw]XX>` Select a semester where f (Fall) s (Summer) w (Winter) and XX is the year",
            ),
            false,
        ),
    );
    fields.push(
        make_field(
            "Examples",
            String::from_str("~course 60100\n~course graph theory\n~course -s f18 graph theory"),
            false,
        ),
    );
    assert(field_views(fields@) =~= help_card().fields);
    Reply::Card(Embed { title: None, description: None, fields, icon: false })
}

/// The message for a semester that cannot be read.
pub fn invalid_semester() -> (r: Reply)
    ensures
        r@ == ReplyView::Message("Semester selection is invalid."@),
{
    Reply::Message(String::from_str("Semester selection is invalid."))
}

/// The message for a query that the index cannot read.
pub fn invalid_query(query: &str) -> (r: Reply)
    ensures
        r@ == ReplyView::Message("Query `\""@ + query@ + "\"` is invalid."@),
{
    Reply::Message(wrap("Query `\"", query, "\"` is invalid."))
}

/// The message for a query that no course matches.
pub fn no_course(query: &str) -> (r: Reply)
    ensures
        r@ == ReplyView::Message("No course found for query `\""@ + query@ + "\"`."@),
{
    Reply::Message(wrap("No course found for query `\"", query, "\"`."))
}

/// The message for a failure that the user can do nothing about.
pub fn internal_error() -> (r: Reply)
    ensures
        r@ == ReplyView::Message("Internal error."@),
{
    Reply::Message(String::from_str("Internal error."))
}

/// The card that lists `previews`, one line for each.
pub fn listing(previews: &Vec<CoursePreview>) -> (r: Reply)
    ensures
        r@ == ReplyView::Card(listing_card(preview_views(previews@))),
{
    let mut lines: Vec<String> = Vec::new();
    let mut j: usize = 0;
    while j < previews.len()
        invariant
            j <= previews.len(),
            lines.len() == j,
            forall|k: int| 0 <= k < j ==> (#[trigger] lines@[k])@ == listing_line(previews@[k]@),
        decreases previews.len() - j,
    {
        let mut line = wrap("`", previews[j].code.as_str(), "` ");
        line.append(previews[j].title.as_str());
        lines.push(line);
        j = j + 1;
    }
    assert(views(lines@) =~= Seq::new(
        previews@.len(),
        |j: int| listing_line(preview_views(previews@)[j]),
    ));
    let fields: Vec<EmbedField> = Vec::new();
    assert(field_views(fields@) =~= Seq::empty());
    Reply::Card(
        Embed {
            title: Some(String::from_str("Top 10 Results")),
            description: Some(join_with(&lines, "\n")),
            fields,
            icon: true,
        },
    )
}

/// The line of a card for `instructor`.
fn instructor_text(instructor: &Instructor) -> (r: String)
    ensures
        r@ == instructor_line(instructor@),
{
    match instructor.directory_url() {
        Some(url) => {
            let mut line = wrap("[", instructor.name.as_str(), "](");
            line.append(url.as_str());
            line.append(")");
            line
        },
        None => instructor.name.clone(),
    }
}

/// Appends `lead` and `value` to `line`, where there is a value.
fn append_with_lead(line: &mut String, lead: &str, value: &Option<String>)
    ensures
        final(line)@ == old(line)@ + with_lead(lead@, opt_view(*value)),
{
    match value {
        Some(v) => {
            line.append(lead);
            line.append(v.as_str());
        },
        None => {
            assert(line@ =~= line@ + Seq::<char>::empty());
        },
    }
}

/// The line of a card for `exam`.
fn exam_text(exam: &Exam) -> (r: String)
    ensures
        r@ == exam_line(exam@),
{
    let mut line = wrap("**", exam.ty.as_str(), "**");
    append_with_lead(&mut line, " on ", &exam.date);
    append_with_lead(&mut line, " at ", &exam.time);
    append_with_lead(&mut line, " in ", &exam.building);
    append_with_lead(&mut line, " room ", &exam.room);
    line
}

/// The first characters of `description`, as many as a card shows, and an
/// ellipsis.
fn shorten(description: &str) -> (r: String)
    ensures
        r@ == shortened(description@),
{
    let chars = chars_of(description);
    let end = if chars.len() > DESCRIPTION_SHOWN {
        DESCRIPTION_SHOWN
    } else {
        chars.len()
    };
    let mut r = string_of(&chars, 0, end);
    assert(chars@.subrange(0, chars@.len() as int) =~= chars@);
    r.append("...\n\n");
    r
}

/// The card of `course`.
pub fn card(course: &Course) -> (r: Reply)
    ensures
        r@ == ReplyView::Card(course_card(course@)),
{
    let mut fields: Vec<EmbedField> = Vec::new();
    assert(field_views(fields@) =~= Seq::empty());
    match &course.note {
        Some(note) => {
            fields.push(make_field("Note", note.clone(), false));
        },
        None => {},
    }
    assert(field_views(fields@) =~= when(
        course@.note is Some,
        field("Note"@, course@.note.unwrap(), false),
    ));
    let ghost first = field_views(fields@);
    fields.push(make_field("Meets", course.meets.clone(), false));
    assert(field_views(fields@) =~= first + seq![field("Meets"@, course@.meets, false)]);
    let ghost second = field_views(fields@);
    if course.instructors.len() > 0 {
        let mut lines: Vec<String> = Vec::new();
        let mut j: usize = 0;
        while j < course.instructors.len()
            invariant
                j <= course.instructors.len(),
                lines.len() == j,
                forall|k: int|
                    0 <= k < j ==> (#[trigger] lines@[k])@ == instructor_line(
                        course.instructors@[k]@,
                    ),
            decreases course.instructors.len() - j,
        {
            lines.push(instructor_text(&course.instructors[j]));
            j = j + 1;
        }
        assert(views(lines@) =~= Seq::new(
            course@.instructors.len(),
            |j: int| instructor_line(course@.instructors[j]),
        ));
        fields.push(make_field("Instructors", join_with(&lines, "\n"), true));
    }
    assert(field_views(fields@) =~= second + when(
        course@.instructors.len() > 0,
        field(
            "Instructors"@,
            join(
                Seq::new(
                    course@.instructors.len(),
                    |j: int| instructor_line(course@.instructors[j]),
                ),
                "\n"@,
            ),
            true,
        ),
    ));
    let ghost third = field_views(fields@);
    fields.push(make_field("Availability", course.availability.clone(), true));
    assert(field_views(fields@) =~= third + seq![
        field("Availability"@, course@.availability, true),
    ]);
    let ghost fourth = field_views(fields@);
    if course.prereqs.len() > 0 {
        fields.push(make_field("Prerequisites", join_with(&course.prereqs, "\n"), false));
    }
    assert(field_views(fields@) =~= fourth + when(
        course@.prereqs.len() > 0,
        field("Prerequisites"@, join(course@.prereqs, "\n"@), false),
    ));
    let ghost fifth = field_views(fields@);
    if course.exams.len() > 0 {
        let mut lines: Vec<String> = Vec::new();
        let mut j: usize = 0;
        while j < course.exams.len()
            invariant
                j <= course.exams.len(),
                lines.len() == j,
                forall|k: int| 0 <= k < j ==> (#[trigger] lines@[k])@ == exam_line(course.exams@[k]@),
            decreases course.exams.len() - j,
        {
            lines.push(exam_text(&course.exams[j]));
            j = j + 1;
        }
        assert(views(lines@) =~= Seq::new(
            course@.exams.len(),
            |j: int| exam_line(course@.exams[j]),
        ));
        fields.push(make_field("Exams", join_with(&lines, "\n"), false));
    }
    assert(field_views(fields@) =~= fifth + when(
        course@.exams.len() > 0,
        field(
            "Exams"@,
            join(Seq::new(course@.exams.len(), |j: int| exam_line(course@.exams[j])), "\n"@),
            false,
        ),
    ));
    assert(field_views(fields@) =~= course_fields(course@));
    Reply::Card(
        Embed {
            title: Some(course.title.clone()),
            description: Some(shorten(course.description.as_str())),
            fields,
            icon: true,
        },
    )
}

} // verus!
