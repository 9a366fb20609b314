//! The chat commands: what a message asks for, which term a semester
//! stands for, in which order courses are shown, and what is said in
//! return.

use vstd::prelude::*;
use vstd::string::StringExecFns;
use crate::corpus::ScrapeError;
use crate::course::{preview_views, Course, CoursePreview, PreviewView};
use crate::index::{CourseIndex, QueryFailure, SystemError};
use crate::lifecycle::{Lifecycle, Phase};
use crate::reply::{
    card, course_card, invalid_query, listing, listing_card, no_course, Reply, ReplyView,
};
use crate::text::{chars_of, join, join_with, same_text, split_words, views, words};

verus! {

/// The word that asks for courses.
pub const COURSE_COMMAND: &'static str = "~course";

/// The word that asks for a rebuild of the index.
pub const REINDEX_COMMAND: &'static str = "~reindex";

/// The term that is searched where the message names none.
pub const DEFAULT_TERM: &'static str = "20185";

/// What a semester looks like: `f`, `s` or `w` and two digits.
pub const SEMESTER_PATTERN: &'static str = "([fsw])(\\d\\d)";

/// The capture groups of the leftmost match of the regular expression
/// `pattern` in `text`: the whole match first, then each group in order,
/// `None` for a group that took no part. `None` where `pattern` is no
/// regular expression or matches nowhere in `text`.
pub uninterp spec fn regex_groups(pattern: Seq<char>, text: Seq<char>) -> Option<
    Seq<Option<Seq<char>>>,
>;

/// Capture groups as plain text.
pub open spec fn groups_view(groups: Option<Vec<Option<String>>>) -> Option<Seq<Option<Seq<char>>>> {
    match groups {
        Some(found) => Some(
            found@.map_values(
                |g: Option<String>|
                    match g {
                        Some(text) => Some(text@),
                        None => None,
                    },
            ),
        ),
        None => None,
    }
}

/// regex's `Regex::new` on `pattern` and `Regex::captures` on `text`, each
/// capture group of the match copied out.
#[verifier::external_body]
fn captures(pattern: &str, text: &str) -> (r: Option<Vec<Option<String>>>)
    ensures
        groups_view(r) == regex_groups(pattern@, text@),
{
    let expression = regex::Regex::new(pattern).ok()?;
    let found = expression.captures(text)?;
    Some(found.iter().map(|group| group.map(|m| m.as_str().to_owned())).collect())
}

/// The digit that ends the code of a term: 1 for winter, 2 for summer, 5
/// for fall.
pub open spec fn session_digit(letter: Seq<char>) -> Option<char> {
    if letter == "w"@ || letter == "W"@ {
        Some('1')
    } else if letter == "s"@ || letter == "S"@ {
        Some('2')
    } else if letter == "f"@ || letter == "F"@ {
        Some('5')
    } else {
        None
    }
}

/// The code of the term that the capture groups of a semester stand for:
/// `20`, the two digits of the second group, and the digit of the session
/// that the first group names.
pub open spec fn semester_of(groups: Option<Seq<Option<Seq<char>>>>) -> Option<Seq<char>> {
    match groups {
        Some(found) => if found.len() > 2 && found[1] is Some && found[2] is Some {
            match session_digit(found[1].unwrap()) {
                Some(digit) => Some("20"@ + found[2].unwrap() + seq![digit]),
                None => None,
            }
        } else {
            None
        },
        None => None,
    }
}

/// What a message asks for.
#[derive(Debug, Clone)]
pub enum Command {
    /// Nothing that concerns the course search.
    Ignore,
    /// A rebuild of the index.
    Reindex,
    /// The explanation of the course command.
    Help,
    /// Courses of a semester that cannot be read.
    InvalidSemester,
    /// The courses of `term` that match `query`.
    Search { term: String, query: String },
}

/// A command as plain text.
pub enum CommandView {
    Ignore,
    Reindex,
    Help,
    InvalidSemester,
    Search { term: Seq<char>, query: Seq<char> },
}

impl View for Command {
    type V = CommandView;

    open spec fn view(&self) -> CommandView {
        match self {
            Command::Ignore => CommandView::Ignore,
            Command::Reindex => CommandView::Reindex,
            Command::Help => CommandView::Help,
            Command::InvalidSemester => CommandView::InvalidSemester,
            Command::Search { term, query } => CommandView::Search { term: term@, query: query@ },
        }
    }
}

/// What the words after the course command ask for. `-h` first asks for
/// help. `-s` first names a semester in the word after it: the search is
/// for the rest of the words in that term, or the semester is invalid. Else
/// every word belongs to the query, and the term is the default one.
pub open spec fn course_command(args: Seq<Seq<char>>) -> CommandView {
    if args.len() > 0 && args[0] == "-h"@ {
        CommandView::Help
    } else if args.len() > 0 && args[0] == "-s"@ {
        if args.len() > 1 {
            match semester_of(regex_groups(SEMESTER_PATTERN@, args[1])) {
                Some(term) => CommandView::Search {
                    term,
                    query: join(args.subrange(2, args.len() as int), " "@),
                },
                None => CommandView::InvalidSemester,
            }
        } else {
            CommandView::InvalidSemester
        }
    } else {
        CommandView::Search { term: DEFAULT_TERM@, query: join(args, " "@) }
    }
}

/// What the message `content` asks for: its first word decides.
pub open spec fn command_of(content: Seq<char>) -> CommandView {
    let said = words(content);
    if said.len() == 0 {
        CommandView::Ignore
    } else if said[0] == COURSE_COMMAND@ {
        course_command(said.subrange(1, said.len() as int))
    } else if said[0] == REINDEX_COMMAND@ {
        CommandView::Reindex
    } else {
        CommandView::Ignore
    }
}

/// Whether the code `a` comes before the code `b`, or is equal to it, when
/// both are compared character by character from position `from` on; where
/// one ends, the shorter comes first.
pub open spec fn comes_before(a: Seq<char>, b: Seq<char>, from: int) -> bool
    decreases a.len() - from,
{
    if from < 0 || from >= a.len() {
        true
    } else if from >= b.len() {
        false
    } else if a[from] != b[from] {
        a[from] < b[from]
    } else {
        comes_before(a, b, from + 1)
    }
}

/// Whether the previews are in the order of their codes.
pub open spec fn in_code_order(previews: Seq<PreviewView>) -> bool {
    forall|i: int, j: int|
        0 <= i < j < previews.len() ==> comes_before(
            (#[trigger] previews[i]).code,
            (#[trigger] previews[j]).code,
            0,
        )
}

/// `sorted` with `preview` put behind the last preview whose code does not
/// come after its own.
pub open spec fn inserted(sorted: Seq<PreviewView>, preview: PreviewView) -> Seq<PreviewView>
    decreases sorted.len(),
{
    if sorted.len() == 0 {
        seq![preview]
    } else if comes_before(sorted.last().code, preview.code, 0) {
        sorted.push(preview)
    } else {
        inserted(sorted.drop_last(), preview).push(sorted.last())
    }
}

/// The previews in the order of their codes; previews of one code keep
/// their order.
pub open spec fn sorted_by_code(previews: Seq<PreviewView>) -> Seq<PreviewView>
    decreases previews.len(),
{
    if previews.len() == 0 {
        Seq::empty()
    } else {
        inserted(sorted_by_code(previews.drop_last()), previews.last())
    }
}

/// Of two codes, one comes before the other or is equal to it.
pub proof fn lemma_order_total(a: Seq<char>, b: Seq<char>, from: int)
    requires
        0 <= from,
    ensures
        comes_before(a, b, from) || comes_before(b, a, from),
    decreases a.len() - from,
{
    if from < a.len() && from < b.len() && a[from] == b[from] {
        lemma_order_total(a, b, from + 1);
    }
}

/// What comes before a code that comes before a third comes before the
/// third.
pub proof fn lemma_order_transitive(a: Seq<char>, b: Seq<char>, c: Seq<char>, from: int)
    requires
        0 <= from,
        comes_before(a, b, from),
        comes_before(b, c, from),
    ensures
        comes_before(a, c, from),
    decreases a.len() - from,
{
    if from < a.len() && from < b.len() && from < c.len() && a[from] == b[from] && b[from]
        == c[from] {
        lemma_order_transitive(a, b, c, from + 1);
    }
}

/// Putting a preview into previews that are in the order of their codes
/// leaves them in order, and adds that preview and nothing else.
pub proof fn lemma_inserted(sorted: Seq<PreviewView>, preview: PreviewView)
    requires
        in_code_order(sorted),
    ensures
        in_code_order(inserted(sorted, preview)),
        inserted(sorted, preview).to_multiset() == sorted.to_multiset().insert(preview),
        inserted(sorted, preview).len() == sorted.len() + 1,
        forall|k: int|
            0 <= k < inserted(sorted, preview).len() ==> (#[trigger] inserted(sorted, preview)[k])
                == preview || sorted.contains(inserted(sorted, preview)[k]),
    decreases sorted.len(),
{
    broadcast use vstd::seq_lib::group_to_multiset_ensures;

    let r = inserted(sorted, preview);
    if sorted.len() == 0 {
        assert(sorted =~= Seq::<PreviewView>::empty());
        assert(r =~= Seq::<PreviewView>::empty().push(preview));
    } else if comes_before(sorted.last().code, preview.code, 0) {
        assert forall|i: int, j: int| 0 <= i < j < r.len() implies comes_before(
            (#[trigger] r[i]).code,
            (#[trigger] r[j]).code,
            0,
        ) by {
            if j == sorted.len() {
                if i < sorted.len() - 1 {
                    assert(comes_before(sorted[i].code, sorted[sorted.len() - 1].code, 0));
                    lemma_order_transitive(sorted[i].code, sorted.last().code, preview.code, 0);
                }
            } else {
                assert(r[i] == sorted[i] && r[j] == sorted[j]);
            }
        }
        assert forall|k: int| 0 <= k < r.len() implies (#[trigger] r[k]) == preview
            || sorted.contains(r[k]) by {
            if k < sorted.len() {
                assert(sorted[k] == r[k]);
            }
        }
    } else {
        let rest = sorted.drop_last();
        let last = sorted.last();
        assert(in_code_order(rest)) by {
            assert forall|i: int, j: int| 0 <= i < j < rest.len() implies comes_before(
                (#[trigger] rest[i]).code,
                (#[trigger] rest[j]).code,
                0,
            ) by {
                assert(rest[i] == sorted[i] && rest[j] == sorted[j]);
            }
        }
        lemma_inserted(rest, preview);
        let inner = inserted(rest, preview);
        lemma_order_total(last.code, preview.code, 0);
        assert forall|i: int, j: int| 0 <= i < j < r.len() implies comes_before(
            (#[trigger] r[i]).code,
            (#[trigger] r[j]).code,
            0,
        ) by {
            if j == inner.len() {
                assert(r[i] == inner[i]);
                if inner[i] == preview {
                } else {
                    let m = choose|m: int| 0 <= m < rest.len() && rest[m] == inner[i];
                    assert(sorted[m] == rest[m]);
                    assert(comes_before(sorted[m].code, sorted[sorted.len() - 1].code, 0));
                }
            } else {
                assert(r[i] == inner[i] && r[j] == inner[j]);
            }
        }
        assert(sorted =~= rest.push(last));
        assert(r.to_multiset() =~= sorted.to_multiset().insert(preview));
        assert forall|k: int| 0 <= k < r.len() implies (#[trigger] r[k]) == preview
            || sorted.contains(r[k]) by {
            if k < inner.len() {
                assert(r[k] == inner[k]);
                if inner[k] != preview {
                    let m = choose|m: int| 0 <= m < rest.len() && rest[m] == inner[k];
                    assert(sorted[m] == r[k]);
                }
            } else {
                assert(sorted[sorted.len() - 1] == r[k]);
            }
        }
    }
}

/// Sorting by code gives the same previews, in the order of their codes.
pub proof fn lemma_sorted_by_code(previews: Seq<PreviewView>)
    ensures
        in_code_order(sorted_by_code(previews)),
        sorted_by_code(previews).to_multiset() == previews.to_multiset(),
        sorted_by_code(previews).len() == previews.len(),
    decreases previews.len(),
{
    broadcast use vstd::seq_lib::group_to_multiset_ensures;

    if previews.len() > 0 {
        lemma_sorted_by_code(previews.drop_last());
        lemma_inserted(sorted_by_code(previews.drop_last()), previews.last());
        assert(previews =~= previews.drop_last().push(previews.last()));
    } else {
        assert(previews =~= Seq::<PreviewView>::empty());
    }
}

/// What is done with the outcome of a query.
#[derive(Debug, Clone)]
pub enum Shown {
    /// This is said.
    Reply(Reply),
    /// The full detail of this course is fetched and shown.
    Detail(CoursePreview),
    /// The command fails with this error.
    Failed(SystemError),
}

/// What is done with the outcome of a query, as plain text.
pub enum ShownView {
    Reply(ReplyView),
    Detail(PreviewView),
    Failed(Seq<char>),
}

impl View for Shown {
    type V = ShownView;

    open spec fn view(&self) -> ShownView {
        match self {
            Shown::Reply(reply) => ShownView::Reply(reply@),
            Shown::Detail(preview) => ShownView::Detail(preview@),
            Shown::Failed(e) => ShownView::Failed(e.0@),
        }
    }
}

/// What is done with the previews that a query for `query` found: none is
/// said so, one is shown in full, several are listed in the order of their
/// codes.
pub open spec fn shown_for(query: Seq<char>, found: Seq<PreviewView>) -> ShownView {
    let sorted = sorted_by_code(found);
    if sorted.len() == 0 {
        ShownView::Reply(ReplyView::Message("No course found for query `\""@ + query + "\"`."@))
    } else if sorted.len() == 1 {
        ShownView::Detail(sorted[0])
    } else {
        ShownView::Reply(ReplyView::Card(listing_card(sorted)))
    }
}

/// The code of the term that the capture groups of a semester stand for.
pub fn semester(groups: &Option<Vec<Option<String>>>) -> (r: Option<String>)
    ensures
        r is Some <==> semester_of(groups_view(*groups)) is Some,
        r matches Some(term) ==> semester_of(groups_view(*groups)) == Some(term@),
{
    let found = match groups {
        Some(found) => found,
        None => {
            return None;
        },
    };
    if found.len() <= 2 {
        return None;
    }
    let letter = match &found[1] {
        Some(letter) => letter,
        None => {
            return None;
        },
    };
    let digit = if same_text(letter.as_str(), "w") || same_text(letter.as_str(), "W") {
        '1'
    } else if same_text(letter.as_str(), "s") || same_text(letter.as_str(), "S") {
        '2'
    } else if same_text(letter.as_str(), "f") || same_text(letter.as_str(), "F") {
        '5'
    } else {
        return None;
    };
    let year = match &found[2] {
        Some(year) => year,
        None => {
            return None;
        },
    };
    let mut term = String::from_str("20");
    term.append(year.as_str());
    term.push(digit);
    Some(term)
}

/// The words of `all` from position `from` on.
fn rest(all: &Vec<String>, from: usize) -> (r: Vec<String>)
    requires
        from <= all.len(),
    ensures
        views(r@) == views(all@).subrange(from as int, all@.len() as int),
{
    let mut r: Vec<String> = Vec::new();
    let mut i: usize = from;
    while i < all.len()
        invariant
            from <= i <= all.len(),
            r.len() == i - from,
            forall|k: int| 0 <= k < i - from ==> (#[trigger] r@[k])@ == all@[from + k]@,
        decreases all.len() - i,
    {
        r.push(all[i].clone());
        i = i + 1;
    }
    assert(views(r@) =~= views(all@).subrange(from as int, all@.len() as int));
    r
}

/// What the words `args` after the course command ask for.
fn parse_course(args: &Vec<String>) -> (r: Command)
    ensures
        r@ == course_command(views(args@)),
{
    if args.len() > 0 && same_text(args[0].as_str(), "-h") {
        return Command::Help;
    }
    if args.len() > 0 && same_text(args[0].as_str(), "-s") {
        if args.len() <= 1 {
            return Command::InvalidSemester;
        }
        let groups = captures(SEMESTER_PATTERN, args[1].as_str());
        return match semester(&groups) {
            Some(term) => Command::Search { term, query: join_with(&rest(args, 2), " ") },
            None => Command::InvalidSemester,
        };
    }
    assert(views(args@).subrange(0, args@.len() as int) =~= views(args@));
    Command::Search { term: String::from_str(DEFAULT_TERM), query: join_with(args, " ") }
}

/// What the message `content` asks for.
pub fn parse_message(content: &str) -> (r: Command)
    ensures
        r@ == command_of(content@),
{
    let said = split_words(content);
    if said.len() == 0 {
        return Command::Ignore;
    }
    if same_text(said[0].as_str(), COURSE_COMMAND) {
        let args = rest(&said, 1);
        parse_course(&args)
    } else if same_text(said[0].as_str(), REINDEX_COMMAND) {
        Command::Reindex
    } else {
        Command::Ignore
    }
}

/// Whether the code `a` comes before the code `b` or is equal to it.
pub fn code_comes_before(a: &str, b: &str) -> (r: bool)
    ensures
        r == comes_before(a@, b@, 0),
{
    let x = chars_of(a);
    let y = chars_of(b);
    let mut i: usize = 0;
    while i < x.len() && i < y.len()
        invariant
            i <= x.len(),
            i <= y.len(),
            x@ == a@,
            y@ == b@,
            comes_before(x@, y@, 0) == comes_before(x@, y@, i as int),
        decreases x.len() - i,
    {
        if x[i] != y[i] {
            return x[i] < y[i];
        }
        i = i + 1;
    }
    i >= x.len()
}

/// The previews in the order of their codes; previews of one code keep
/// their order.
pub fn sort_by_code(previews: Vec<CoursePreview>) -> (r: Vec<CoursePreview>)
    ensures
        preview_views(r@) == sorted_by_code(preview_views(previews@)),
        in_code_order(preview_views(r@)),
        preview_views(r@).to_multiset() == preview_views(previews@).to_multiset(),
{
    let ghost all = preview_views(previews@);
    proof {
        lemma_sorted_by_code(all);
    }
    let mut sorted: Vec<CoursePreview> = Vec::new();
    let ghost mut done: int = 0;
    assert(preview_views(sorted@) =~= sorted_by_code(all.take(0)));
    for preview in it: previews
        invariant
            all == preview_views(it.seq()),
            done == it.index(),
            preview_views(sorted@) == sorted_by_code(all.take(done)),
    {
        assert(all[done] == preview@);
        assert(all.take(done + 1).drop_last() =~= all.take(done));
        let ghost before = preview_views(sorted@);
        let mut at: usize = sorted.len();
        assert(before.take(at as int) =~= before);
        assert(inserted(before, preview@) + before.subrange(at as int, before.len() as int)
            =~= inserted(before, preview@));
        while at > 0 && !code_comes_before(sorted[at - 1].code.as_str(), preview.code.as_str())
            invariant
                at <= sorted.len(),
                before == preview_views(sorted@),
                inserted(before, preview@) == inserted(before.take(at as int), preview@)
                    + before.subrange(at as int, before.len() as int),
            decreases at,
        {
            assert(before.take(at as int).drop_last() =~= before.take(at - 1));
            assert(before.take(at as int).last() == before[at - 1]);
            at = at - 1;
            assert(inserted(before.take(at + 1), preview@) + before.subrange(
                at + 1,
                before.len() as int,
            ) =~= inserted(before.take(at as int), preview@) + before.subrange(
                at as int,
                before.len() as int,
            ));
        }
        assert(inserted(before.take(at as int), preview@) =~= before.take(at as int).push(preview@)) by {
            if at > 0 {
                assert(before.take(at as int).last() == before[at - 1]);
            }
        }
        sorted.insert(at, preview);
        assert(preview_views(sorted@) =~= inserted(before, preview@));
        proof {
            done = done + 1;
        }
    }
    assert(all.take(done) =~= all);
    sorted
}

/// What is done with the outcome of the query for `query`: a query that the
/// index cannot read is said to be invalid, a failure of the index fails
/// the command, and previews are shown as `shown_for` has it.
pub open spec fn presented(
    query: Seq<char>,
    outcome: Result<Vec<CoursePreview>, QueryFailure>,
) -> ShownView {
    match outcome {
        Ok(found) => shown_for(query, preview_views(found@)),
        Err(QueryFailure::Invalid(_)) => ShownView::Reply(
            ReplyView::Message("Query `\""@ + query + "\"` is invalid."@),
        ),
        Err(QueryFailure::System(e)) => ShownView::Failed(e.0@),
    }
}

/// What is done with the outcome of the query for `query`.
pub fn present(query: &str, outcome: Result<Vec<CoursePreview>, QueryFailure>) -> (r: Shown)
    ensures
        r@ == presented(query@, outcome),
{
    match outcome {
        Ok(found) => {
            let mut sorted = sort_by_code(found);
            if sorted.len() == 0 {
                Shown::Reply(no_course(query))
            } else if sorted.len() == 1 {
                match sorted.pop() {
                    Some(only) => Shown::Detail(only),
                    None => unreached(),
                }
            } else {
                Shown::Reply(listing(&sorted))
            }
        },
        Err(QueryFailure::Invalid(_)) => Shown::Reply(invalid_query(query)),
        Err(QueryFailure::System(e)) => Shown::Failed(e),
    }
}

/// Whether a search is answered in `phase`: only while an index is active.
/// In any other phase the command is dropped without a word.
pub fn serves(phase: Phase) -> (r: bool)
    ensures
        r == (phase == Phase::Ready),
{
    match phase {
        Phase::Ready => true,
        _ => false,
    }
}

/// Asks the active index for the courses of `term` that match `query`, and
/// says what is done with the outcome. Without an active index nothing is
/// asked and nothing is done. With one, what is done is what `presented`
/// makes of an answer of that index to the query for `query` in `term`. A
/// course that is to be shown in full is of the term asked for.
pub fn search(life: &Lifecycle<CourseIndex>, term: &str, query: &str) -> (r: Option<Shown>)
    ensures
        r is Some <==> life.phase_of() == Phase::Ready,
        r matches Some(shown) ==> exists|outcome: Result<Vec<CoursePreview>, QueryFailure>|
            #[trigger] presented(query@, outcome) == shown@ && life.active_of().unwrap().answers_query(
                term@,
                query@,
                outcome,
            ),
        r matches Some(Shown::Detail(preview)) ==> preview@.term == term@,
{
    match life.active() {
        Some(index) => {
            let outcome = index.query(term, query);
            let ghost answer = outcome;
            proof {
                broadcast use vstd::seq_lib::group_to_multiset_ensures;

                if outcome is Ok {
                    let found = outcome->Ok_0;
                    let all = preview_views(found@);
                    let sorted = sorted_by_code(all);
                    lemma_sorted_by_code(all);
                    if sorted.len() == 1 {
                        assert(sorted.contains(sorted[0]));
                        assert(all.to_multiset().count(sorted[0]) > 0);
                        assert(all.contains(sorted[0]));
                        let k = choose|k: int| 0 <= k < all.len() && all[k] == sorted[0];
                        assert(all[k] == found@[k]@);
                    }
                }
            }
            let shown = present(query, outcome);
            assert(presented(query@, answer) == shown@ && life.active_of().unwrap().answers_query(
                term@,
                query@,
                answer,
            ));
            Some(shown)
        },
        None => None,
    }
}

/// What is said when the full detail of the course found for `query` was
/// asked for: its card; that there is no such course, where the portal
/// does not know it; nothing, where the scrape failed.
pub fn present_detail(query: &str, outcome: Result<Option<Course>, ScrapeError>) -> (r: Result<
    Reply,
    ScrapeError,
>)
    ensures
        match outcome {
            Ok(Some(course)) => r matches Ok(reply) && reply@ == ReplyView::Card(
                course_card(course@),
            ),
            Ok(None) => r matches Ok(reply) && reply@ == ReplyView::Message(
                "No course found for query `\""@ + query@ + "\"`."@,
            ),
            Err(e) => r matches Err(f) && f@ == e@,
        },
{
    match outcome {
        Ok(Some(course)) => Ok(card(&course)),
        Ok(None) => Ok(no_course(query)),
        Err(e) => Err(e),
    }
}

/// Whether a reply can be sent where the message came from. Outside a
/// guild (`None`) it can. In a guild it can where the permissions are
/// known and allow both to send messages and to attach files.
pub fn can_send(guild: Option<Option<(bool, bool)>>) -> (r: bool)
    ensures
        r == match guild {
            None => true,
            Some(None) => false,
            Some(Some(allowed)) => allowed.0 && allowed.1,
        },
{
    match guild {
        None => true,
        Some(None) => false,
        Some(Some(allowed)) => allowed.0 && allowed.1,
    }
}

/// Whether the sender may ask for a rebuild: a member of the guild whose
/// permissions are known and make them an administrator.
pub fn may_reindex(member: Option<Option<bool>>) -> (r: bool)
    ensures
        r == (member == Some(Some(true))),
{
    match member {
        Some(Some(administrator)) => administrator,
        _ => false,
    }
}

} // verus!
