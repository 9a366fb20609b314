//! The search index over course summaries: what it is made of, how it is
//! filled, and how it answers a query for one term.

use vstd::prelude::*;
use vstd::multiset::Multiset;
use vstd::string::StringExecFns;
use tantivy::collector::TopDocs;
use tantivy::query::{BooleanQuery, Occur, Query, QueryParser, TermQuery};
use tantivy::schema::{
    IndexRecordOption, Schema, SchemaBuilder, TextFieldIndexing, TextOptions, Value, STRING, TEXT,
};
use tantivy::tokenizer::{LowerCaser, NgramTokenizer, RemoveLongFilter, TextAnalyzer};
use tantivy::{Index, IndexReader, IndexWriter, ReloadPolicy, TantivyDocument, Term};
use crate::course::{
    preview_views, summary_views, CoursePreview, CourseSummary, PreviewView, QueryError,
    SummaryView,
};
use crate::text::{same_text, views};

verus! {

/// Name of the field that holds the term of a course.
pub const TERM: &'static str = "term";

/// Name of the field that holds the code of a course.
pub const CODE: &'static str = "code";

/// Name of the field that holds the title of a course.
pub const TITLE: &'static str = "title";

/// Name of the field that holds the description of a course.
pub const DESCRIPTION: &'static str = "description";

/// Name under which the index knows the tokenizer of codes and titles.
pub const TOKENIZER: &'static str = "ngram";

/// The number of characters of a token of a code or a title.
pub const GRAM: usize = 3;

/// The number of bytes from which on a token is dropped: a token is kept
/// only where it is shorter.
pub const TOKEN_CAP: usize = 40;

/// The most previews that a query returns.
pub const LIMIT: usize = 10;

/// The memory, in bytes, that filling the index may use.
pub const WRITER_BUDGET: usize = 100_000_000;

/// What the index complains of where a hit lacks a stored text.
pub const INCOMPLETE: &'static str = "a hit lacks a stored field";

/// What the index complains of where a hit is not of the term asked for.
pub const MISPLACED: &'static str = "a hit is of another term";

/// What the index complains of where it lacks one of its fields.
pub const FIELD_MISSING: &'static str = "the index lacks a field of a course";

/// The index's storage or engine failed. The field holds what the engine
/// said.
#[derive(Debug, Clone)]
pub struct SystemError(pub String);

impl SystemError {
    /// The error as a sentence.
    pub fn message(&self) -> (text: String)
        ensures
            text@ == self.0@,
    {
        self.0.clone()
    }
}

/// Why a query has no answer.
#[derive(Debug, Clone)]
pub enum QueryFailure {
    /// The free text does not follow the query grammar.
    Invalid(QueryError),
    /// The index failed.
    System(SystemError),
}

/// A failure of a query as plain text.
pub enum QueryFailureView {
    Invalid(Seq<char>),
    System(Seq<char>),
}

impl View for QueryFailure {
    type V = QueryFailureView;

    open spec fn view(&self) -> QueryFailureView {
        match self {
            QueryFailure::Invalid(e) => QueryFailureView::Invalid(e.0@),
            QueryFailure::System(e) => QueryFailureView::System(e.0@),
        }
    }
}

/// Why the free text of a query could not be turned into a query.
#[derive(Debug)]
pub enum ParseFault {
    /// The text does not follow the query grammar; what the parser said.
    Syntax(String),
    /// The index lacks a field; what the engine said.
    Engine(String),
}

/// tantivy's index, taken as it is.
#[verifier::external_type_specification]
#[verifier::external_body]
pub struct ExIndex(tantivy::Index);

/// tantivy's query of clauses, taken as it is.
#[verifier::external_type_specification]
#[verifier::external_body]
pub struct ExBooleanQuery(tantivy::query::BooleanQuery);

/// tantivy's schema in the making, taken as it is.
#[verifier::external_type_specification]
#[verifier::external_body]
pub struct ExSchemaBuilder(tantivy::schema::SchemaBuilder);

/// tantivy's schema, taken as it is.
#[verifier::external_type_specification]
#[verifier::external_body]
pub struct ExSchema(tantivy::schema::Schema);

/// tantivy's options of a text field, taken as they are.
#[verifier::external_type_specification]
#[verifier::external_body]
pub struct ExTextOptions(tantivy::schema::TextOptions);

/// What `options` say of a text field: how it is indexed, and whether the
/// text itself is kept. A field that is indexed has the name of its
/// tokenizer, and beside the presence of a token its frequency and its
/// positions are recorded or not.
pub uninterp spec fn options_of(options: TextOptions) -> (Option<(Seq<char>, bool)>, bool);

/// The fields added to `builder`, in order: the name of each and what its
/// options say.
pub uninterp spec fn declared(builder: SchemaBuilder) -> Seq<
    (Seq<char>, (Option<(Seq<char>, bool)>, bool)),
>;

/// The fields of `schema`, in order: the name of each and what its options
/// say.
pub uninterp spec fn fields_of(schema: Schema) -> Seq<
    (Seq<char>, (Option<(Seq<char>, bool)>, bool)),
>;

/// Name of tantivy's tokenizer that makes one token of a text.
pub const RAW: &'static str = "raw";

/// Name of tantivy's tokenizer that splits a text into lower-cased words.
pub const DEFAULT: &'static str = "default";

/// tantivy's `Schema::builder`: a schema in the making without fields.
#[verifier::external_body]
fn new_schema() -> (builder: SchemaBuilder)
    ensures
        declared(builder).len() == 0,
{
    Schema::builder()
}

/// tantivy's `STRING`: the text is indexed as one token, by the tokenizer
/// `raw`, only the presence of the token recorded; it is not kept.
#[verifier::external_body]
fn exact() -> (options: TextOptions)
    ensures
        options_of(options) == (Some((RAW@, false)), false),
{
    STRING
}

/// tantivy's `TEXT`: the text is indexed word by word, by the tokenizer
/// `default`, frequencies and positions recorded; it is not kept.
#[verifier::external_body]
fn by_words() -> (options: TextOptions)
    ensures
        options_of(options) == (Some((DEFAULT@, true)), false),
{
    TEXT
}

/// tantivy's `TextOptions::set_indexing_options` on the default options,
/// with the tokenizer named `tokenizer` (`TextFieldIndexing::set_tokenizer`),
/// frequencies and positions recorded (`set_index_option`); the text is not
/// kept.
#[verifier::external_body]
fn by_tokenizer(tokenizer: &str) -> (options: TextOptions)
    ensures
        options_of(options) == (Some((tokenizer@, true)), false),
{
    TextOptions::default().set_indexing_options(
        TextFieldIndexing::default().set_tokenizer(tokenizer).set_index_option(
            IndexRecordOption::WithFreqsAndPositions,
        ),
    )
}

/// tantivy's `TextOptions::set_stored`: the text itself is kept as well;
/// how it is indexed does not change.
#[verifier::external_body]
fn kept(options: TextOptions) -> (stored: TextOptions)
    ensures
        options_of(stored) == (options_of(options).0, true),
{
    options.set_stored()
}

/// Whether one of `fields` has the name `name`.
pub open spec fn names(fields: Seq<(Seq<char>, (Option<(Seq<char>, bool)>, bool))>, name: Seq<
    char,
>) -> bool {
    exists|i: int| 0 <= i < fields.len() && (#[trigger] fields[i]).0 == name
}

/// tantivy's `SchemaBuilder::add_text_field`: a field named `name` with the
/// options `options` is added behind the others. tantivy panics on a name
/// that is empty, starts with a hyphen or is taken.
#[verifier::external_body]
fn declare(builder: &mut SchemaBuilder, name: &str, options: TextOptions)
    requires
        name@.len() > 0,
        name@[0] != '-',
        !names(declared(*old(builder)), name@),
    ensures
        declared(*final(builder)) == declared(*old(builder)).push((name@, options_of(options))),
{
    builder.add_text_field(name, options);
}

/// tantivy's `SchemaBuilder::build`: the schema with the fields added.
#[verifier::external_body]
fn finish(builder: SchemaBuilder) -> (schema: Schema)
    ensures
        fields_of(schema) == declared(builder),
{
    builder.build()
}

/// The fields of a course index, in order. The term is one token, found by
/// exact match only. Code and title are read by the tokenizer of the index,
/// with frequencies and positions. These three are kept, to be handed out
/// with a hit. The description is read word by word and not kept.
pub open spec fn course_fields() -> Seq<(Seq<char>, (Option<(Seq<char>, bool)>, bool))> {
    seq![
        (TERM@, (Some((RAW@, false)), true)),
        (CODE@, (Some((TOKENIZER@, true)), true)),
        (TITLE@, (Some((TOKENIZER@, true)), true)),
        (DESCRIPTION@, (Some((DEFAULT@, true)), false)),
    ]
}

/// The schema of a course index: its fields are `course_fields`.
pub fn course_schema() -> (schema: Schema)
    ensures
        fields_of(schema) == course_fields(),
{
    proof {
        reveal_strlit("term");
        reveal_strlit("code");
        reveal_strlit("title");
        reveal_strlit("description");
    }
    let mut builder = new_schema();
    declare(&mut builder, TERM, kept(exact()));
    assert(CODE@[0] != TERM@[0]);
    declare(&mut builder, CODE, kept(by_tokenizer(TOKENIZER)));
    assert(TITLE@[1] != TERM@[1] && TITLE@[0] != CODE@[0]);
    declare(&mut builder, TITLE, kept(by_tokenizer(TOKENIZER)));
    assert(DESCRIPTION@[0] != TERM@[0] && DESCRIPTION@[0] != CODE@[0] && DESCRIPTION@[0]
        != TITLE@[0]);
    declare(&mut builder, DESCRIPTION, by_words());
    let schema = finish(builder);
    assert(fields_of(schema) =~= course_fields());
    schema
}

/// An index that is being filled: tantivy's index together with the writer
/// opened on it.
#[verifier::external_body]
pub struct Writer {
    index: Index,
    inner: IndexWriter,
}

/// The documents that searches of `index` see, each as the pairs of field
/// name and text that it was made of.
pub uninterp spec fn held(index: Index) -> Multiset<Seq<(Seq<char>, Seq<char>)>>;

/// The index that `writer` fills, as it was when the writer was opened.
pub uninterp spec fn filling(writer: Writer) -> Index;

/// The documents handed to `writer` that no commit has made visible yet.
pub uninterp spec fn queued(writer: Writer) -> Multiset<Seq<(Seq<char>, Seq<char>)>>;

/// The memory, in bytes, that `writer` was opened with.
pub uninterp spec fn budget_of(writer: Writer) -> usize;

/// Whether every field that `query` names is a field of `index`.
pub uninterp spec fn fits(query: BooleanQuery, index: Index) -> bool;

/// Whether `index` has a field named `field`.
pub uninterp spec fn known(index: Index, field: Seq<char>) -> bool;

/// The tokenizer for runs of characters that `index` knows under `name`:
/// the least and the greatest length of a run, whether runs are taken at
/// the start of a text only, and the number of bytes that a run must stay
/// below to be kept; every run that is kept is lower-cased. `None` where
/// the index knows no such tokenizer under the name.
pub uninterp spec fn grams(index: Index, name: Seq<char>) -> Option<(usize, usize, bool, usize)>;

/// Whether a document made of `doc` and read as `index` reads its fields
/// is one that `query` asks for.
pub uninterp spec fn meets(index: Index, query: BooleanQuery, doc: Seq<(Seq<char>, Seq<char>)>) -> bool;

/// Whether a document made of `doc` and read as `index` reads its fields
/// is one that the free text `text` asks for, where a word of the text
/// that names no field is looked for in the fields named `defaults`.
pub uninterp spec fn asks(
    index: Index,
    defaults: Seq<Seq<char>>,
    text: Seq<char>,
    doc: Seq<(Seq<char>, Seq<char>)>,
) -> bool;

/// Whether, for `query` in `index`, a document made of `a` scores at least
/// as high as one made of `b`.
pub uninterp spec fn outranks(
    index: Index,
    query: BooleanQuery,
    a: Seq<(Seq<char>, Seq<char>)>,
    b: Seq<(Seq<char>, Seq<char>)>,
) -> bool;

/// The query that the parser of `index`, with the default fields named
/// `defaults`, makes of the free text `text`, where it takes the text for a
/// query.
pub uninterp spec fn parsed(index: Index, defaults: Seq<Seq<char>>, text: Seq<char>) -> BooleanQuery;

/// The query of `index` for what meets `user` and has the token `filter` in
/// the field named `field`.
pub uninterp spec fn joined(
    index: Index,
    user: BooleanQuery,
    field: Seq<char>,
    filter: Seq<char>,
) -> BooleanQuery;

/// Whether a document made of `doc` has the token `token` in the field
/// named `field`, read as `index` reads that field.
pub uninterp spec fn has_token(
    index: Index,
    field: Seq<char>,
    token: Seq<char>,
    doc: Seq<(Seq<char>, Seq<char>)>,
) -> bool;

/// tantivy's `Schema::get_field` on the schema of `index`: whether there is
/// a field named `field`.
#[verifier::external_body]
fn has_field(index: &Index, field: &str) -> (r: bool)
    ensures
        r == known(*index, field@),
{
    index.schema().get_field(field).is_ok()
}

/// tantivy's `TokenizerManager::register` on the tokenizers of `index`:
/// under `name`, an `NgramTokenizer` for runs of `min` to `max` characters,
/// at the start of a text only where `prefix` says so, followed by
/// `RemoveLongFilter` with `cap`, which keeps a run of fewer than `cap`
/// bytes and no other, and by `LowerCaser`. The error is that of
/// `NgramTokenizer::new`, which refuses runs of no character and a `min`
/// above `max`, and nothing else. How texts are read changes; the fields of
/// the index and what searches see do not.
#[verifier::external_body]
fn register_grams(
    index: &mut Index,
    name: &str,
    min: usize,
    max: usize,
    prefix: bool,
    cap: usize,
) -> (r: Result<(), String>)
    ensures
        r is Ok <==> 0 < min <= max,
        r is Ok ==> grams(*final(index), name@) == Some((min, max, prefix, cap)),
        held(*final(index)) == held(*old(index)),
        forall|field: Seq<char>|
            #[trigger] known(*final(index), field) == known(*old(index), field),
{
    let grams = NgramTokenizer::new(min, max, prefix).map_err(|e| e.to_string())?;
    let analyzer = TextAnalyzer::builder(grams).filter(RemoveLongFilter::limit(cap)).filter(
        LowerCaser,
    ).build();
    index.tokenizers().register(name, analyzer);
    Ok(())
}

/// tantivy's `Index::writer` with a memory budget of `budget` bytes. The
/// new writer fills `index`, was opened with that budget and has nothing
/// queued.
#[verifier::external_body]
fn begin(index: Index, budget: usize) -> (r: Result<Writer, String>)
    ensures
        r matches Ok(writer) ==> {
            &&& filling(writer) == index
            &&& budget_of(writer) == budget
            &&& queued(writer) == Multiset::<Seq<(Seq<char>, Seq<char>)>>::empty()
        },
{
    match index.writer(budget) {
        Ok(inner) => Ok(Writer { index, inner }),
        Err(e) => Err(e.to_string()),
    }
}

/// tantivy's `IndexWriter::add_document` on a document of four texts, each
/// added (`TantivyDocument::add_text`) under the field named beside it
/// (`Schema::get_field`). On success the document is queued; the index
/// that is filled does not change.
#[verifier::external_body]
fn queue(
    writer: &mut Writer,
    a: (&str, &str),
    b: (&str, &str),
    c: (&str, &str),
    d: (&str, &str),
) -> (r: Result<(), String>)
    ensures
        filling(*final(writer)) == filling(*old(writer)),
        budget_of(*final(writer)) == budget_of(*old(writer)),
        r is Ok ==> queued(*final(writer)) == queued(*old(writer)).insert(
            seq![(a.0@, a.1@), (b.0@, b.1@), (c.0@, c.1@), (d.0@, d.1@)],
        ),
{
    (|| -> tantivy::Result<()> {
        let schema = writer.index.schema();
        let mut document = TantivyDocument::default();
        document.add_text(schema.get_field(a.0)?, a.1);
        document.add_text(schema.get_field(b.0)?, b.1);
        document.add_text(schema.get_field(c.0)?, c.1);
        document.add_text(schema.get_field(d.0)?, d.1);
        writer.inner.add_document(document).map(|_| ())
    })().map_err(|e| e.to_string())
}

/// tantivy's `IndexWriter::commit`: on success, searches of the index that
/// is handed back see what they saw before and every queued document. Its
/// fields and its tokenizers are those of the index that was filled.
#[verifier::external_body]
fn commit(writer: Writer) -> (r: Result<Index, String>)
    ensures
        r matches Ok(index) ==> {
            &&& held(index) == held(filling(writer)).add(queued(writer))
            &&& forall|field: Seq<char>|
                #[trigger] known(index, field) == known(filling(writer), field)
            &&& forall|name: Seq<char>|
                #[trigger] grams(index, name) == grams(filling(writer), name)
        },
{
    let Writer { index, mut inner } = writer;
    match inner.commit() {
        Ok(_) => Ok(index),
        Err(e) => Err(e.to_string()),
    }
}

/// The error, written out for debugging, with which tantivy's query parser,
/// made for `index` with the default fields named `defaults`, rejects the
/// free text `text`; `None` where it takes the text for a query.
pub uninterp spec fn complaint(index: Index, defaults: Seq<Seq<char>>, text: Seq<char>) -> Option<
    Seq<char>,
>;

/// tantivy's `QueryParser::parse_query` on `text`, with the parser that
/// `QueryParser::for_index` makes for `index` and the default fields named
/// `a`, `b` and `c`; the result stands alone in a `BooleanQuery`, as a
/// clause that must hold, so that the query asks for what the text asks
/// for. A field that the index lacks (`Schema::get_field`) is an `Engine`
/// fault, and there is no other; a text that the parser rejects is a
/// `Syntax` fault with the parser's error, written out for debugging.
#[verifier::external_body]
fn parse(index: &Index, a: &str, b: &str, c: &str, text: &str) -> (r: Result<
    BooleanQuery,
    ParseFault,
>)
    ensures
        r matches Ok(query) ==> {
            &&& query == parsed(*index, seq![a@, b@, c@], text@)
            &&& fits(query, *index)
            &&& complaint(*index, seq![a@, b@, c@], text@) is None
            &&& forall|doc: Seq<(Seq<char>, Seq<char>)>|
                #[trigger] meets(*index, query, doc) == asks(*index, seq![a@, b@, c@], text@, doc)
        },
        r matches Err(ParseFault::Syntax(said)) ==> complaint(*index, seq![a@, b@, c@], text@)
            == Some(said@),
        r matches Err(ParseFault::Engine(_)) ==> !(known(*index, a@) && known(*index, b@) && known(
            *index,
            c@,
        )),
{
    let schema = index.schema();
    let fields = (|| Ok(vec![schema.get_field(a)?, schema.get_field(b)?, schema.get_field(c)?]))()
        .map_err(|e: tantivy::TantivyError| ParseFault::Engine(e.to_string()))?;
    QueryParser::for_index(index, fields).parse_query(text).map(
        |parsed| BooleanQuery::new(vec![(Occur::Must, parsed)]),
    ).map_err(|e| ParseFault::Syntax(format!("{:?}", e)))
}

/// The query that a document meets when it meets `user` and has the token
/// `filter` in the field named `field`: tantivy's `BooleanQuery::new` on
/// `user` and a `TermQuery` for `Term::from_field_text`, both as clauses
/// that must hold. The error is that of `Schema::get_field`: there is none
/// where the index has the field.
#[verifier::external_body]
fn narrowed(index: &Index, user: BooleanQuery, field: &str, filter: &str) -> (r: Result<
    BooleanQuery,
    String,
>)
    requires
        fits(user, *index),
    ensures
        r matches Ok(query) ==> {
            &&& query == joined(*index, user, field@, filter@)
            &&& fits(query, *index)
            &&& forall|doc: Seq<(Seq<char>, Seq<char>)>|
                #[trigger] meets(*index, query, doc) == (meets(*index, user, doc) && has_token(
                    *index,
                    field@,
                    filter@,
                    doc,
                ))
        },
        known(*index, field@) ==> r is Ok,
{
    let at = index.schema().get_field(field).map_err(|e| e.to_string())?;
    let only = TermQuery::new(Term::from_field_text(at, filter), IndexRecordOption::Basic);
    let both: Vec<(Occur, Box<dyn Query>)> = vec![
        (Occur::Must, Box::new(user)),
        (Occur::Must, Box::new(only)),
    ];
    Ok(BooleanQuery::new(both))
}

/// tantivy's `Searcher::search` for `query` with `TopDocs::with_limit(limit)`
/// ordered by score; for each hit, in order, the stored texts
/// (`Searcher::doc`, `get_first`) of the fields named `wanted`.
///
/// There are at most `limit` hits. The hits are documents that searches of
/// `index` see, no document more often than the index holds it; each meets
/// the query; and where there are fewer than `limit`, they are all the
/// documents of the index that meet it. A hit scores at least as high as
/// the hits after it, and as every document of the index that meets the
/// query and is not among the hits. A text handed out for a hit is one that
/// the document holds under that field.
#[verifier::external_body]
fn top(index: &Index, query: &BooleanQuery, limit: usize, wanted: &Vec<String>) -> (r: Result<
    Vec<Vec<Option<String>>>,
    String,
>)
    requires
        limit > 0,
        fits(*query, *index),
    ensures
        r matches Ok(rows) ==> exists|docs: Seq<Seq<(Seq<char>, Seq<char>)>>|
            {
                &&& answers(docs, held(*index), views(wanted@), row_views(rows@))
                &&& #[trigger] finds(docs, *index, *query, limit)
                &&& forall|i: int, j: int|
                    0 <= i < j < docs.len() ==> outranks(
                        *index,
                        *query,
                        #[trigger] docs[i],
                        #[trigger] docs[j],
                    )
                &&& forall|i: int, doc: Seq<(Seq<char>, Seq<char>)>|
                    0 <= i < docs.len() && held(*index).count(doc) > 0 && meets(
                        *index,
                        *query,
                        doc,
                    ) && !docs.contains(doc) ==> #[trigger] outranks(*index, *query, docs[i], doc)
            },
{
    (|| -> tantivy::Result<_> {
        let schema = index.schema();
        let reader: IndexReader =
            index.reader_builder().reload_policy(ReloadPolicy::Manual).try_into()?;
        let searcher = reader.searcher();
        let best = TopDocs::with_limit(limit).order_by_score();
        searcher.search(query, &best)?.into_iter().map(|(_, at)| {
            let doc: TantivyDocument = searcher.doc(at)?;
            wanted.iter().map(|name| {
                let value = doc.get_first(schema.get_field(name)?);
                Ok(value.and_then(|v| Value::as_str(&v)).map(str::to_owned))
            }).collect()
        }).collect()
    })().map_err(|e| e.to_string())
}

/// Whether `docs` are what a search of `index` for `query` finds when it
/// is asked for `limit` documents at most: each meets the query, and where
/// there are fewer than `limit`, every document of the index that meets the
/// query is among them.
pub open spec fn finds(
    docs: Seq<Seq<(Seq<char>, Seq<char>)>>,
    index: Index,
    query: BooleanQuery,
    limit: usize,
) -> bool {
    &&& docs.len() <= limit
    &&& forall|i: int| 0 <= i < docs.len() ==> meets(index, query, #[trigger] docs[i])
    &&& docs.len() < limit ==> forall|doc: Seq<(Seq<char>, Seq<char>)>|
        held(index).count(doc) > 0 && #[trigger] meets(index, query, doc) ==> docs.contains(doc)
}

/// The rows as sequences.
pub open spec fn row_views(rows: Seq<Vec<Option<String>>>) -> Seq<Seq<Option<String>>> {
    rows.map_values(|row: Vec<Option<String>>| row@)
}

/// Whether `row` is what a search shows of the document `doc` for the
/// fields `wanted`: one entry for each field, and each text that is there
/// is one that the document holds under that field.
pub open spec fn shows(
    doc: Seq<(Seq<char>, Seq<char>)>,
    wanted: Seq<Seq<char>>,
    row: Seq<Option<String>>,
) -> bool {
    &&& row.len() == wanted.len()
    &&& forall|k: int|
        0 <= k < row.len() ==> match #[trigger] row[k] {
            Some(text) => doc.contains((wanted[k], text@)),
            None => true,
        }
}

/// Whether `rows` are what a search shows of the documents `docs`, row by
/// row, where `held` are the documents to search in: none of `docs` occurs
/// more often than `held` holds it.
pub open spec fn answers(
    docs: Seq<Seq<(Seq<char>, Seq<char>)>>,
    held: Multiset<Seq<(Seq<char>, Seq<char>)>>,
    wanted: Seq<Seq<char>>,
    rows: Seq<Seq<Option<String>>>,
) -> bool {
    &&& docs.len() == rows.len()
    &&& docs.to_multiset().subset_of(held)
    &&& forall|i: int| 0 <= i < rows.len() ==> shows(docs[i], wanted, #[trigger] rows[i])
}

/// The document that the index holds for a course: its term, code, title
/// and description, each under the field of that name.
pub open spec fn document(course: SummaryView) -> Seq<(Seq<char>, Seq<char>)> {
    seq![
        (TERM@, course.term),
        (CODE@, course.code),
        (TITLE@, course.title),
        (DESCRIPTION@, course.description),
    ]
}

/// The documents of the courses of `corpus`, in order.
pub open spec fn corpus_documents(corpus: Seq<SummaryView>) -> Seq<Seq<(Seq<char>, Seq<char>)>> {
    Seq::new(corpus.len(), |j: int| document(corpus[j]))
}

/// The documents of the courses of `corpus`, one for each.
pub open spec fn documents(corpus: Seq<SummaryView>) -> Multiset<Seq<(Seq<char>, Seq<char>)>> {
    corpus_documents(corpus).to_multiset()
}

/// Whether the document `doc` holds the term, the code and the title of
/// `preview`, each under the field of that name.
pub open spec fn holds(doc: Seq<(Seq<char>, Seq<char>)>, preview: PreviewView) -> bool {
    &&& doc.contains((TERM@, preview.term))
    &&& doc.contains((CODE@, preview.code))
    &&& doc.contains((TITLE@, preview.title))
}

/// Whether `previews` are previews of the documents `docs`, one by one,
/// where `held` are the documents of an index: none of `docs` occurs more
/// often than `held` holds it.
pub open spec fn backs(
    docs: Seq<Seq<(Seq<char>, Seq<char>)>>,
    held: Multiset<Seq<(Seq<char>, Seq<char>)>>,
    previews: Seq<PreviewView>,
) -> bool {
    &&& docs.len() == previews.len()
    &&& docs.to_multiset().subset_of(held)
    &&& forall|k: int| 0 <= k < previews.len() ==> holds(docs[k], #[trigger] previews[k])
}

/// Whether no two courses of `corpus` have both the term and the code in
/// common.
pub open spec fn distinct_courses(corpus: Seq<SummaryView>) -> bool {
    forall|i: int, j: int|
        0 <= i < j < corpus.len() ==> !((#[trigger] corpus[i]).term == (#[trigger] corpus[j]).term
            && corpus[i].code == corpus[j].code)
}

/// The preview that a row of stored texts stands for: term, code and title,
/// in this order. `None` where the row does not hold exactly these three.
pub open spec fn preview_of(row: Seq<Option<String>>) -> Option<PreviewView> {
    if row.len() == 3 && row[0] is Some && row[1] is Some && row[2] is Some {
        Some(PreviewView { term: row[0].unwrap()@, code: row[1].unwrap()@, title: row[2].unwrap()@ })
    } else {
        None
    }
}

/// What is wrong with a row that a search for `term` hands out, if
/// anything: it lacks term, code or title, or it is of another term.
pub open spec fn row_fault(term: Seq<char>, row: Seq<Option<String>>) -> Option<Seq<char>> {
    match preview_of(row) {
        None => Some(INCOMPLETE@),
        Some(preview) => if preview.term == term {
            None
        } else {
            Some(MISPLACED@)
        },
    }
}

/// The fault of the first row at fault among `rows[from..]`.
pub open spec fn first_fault(term: Seq<char>, rows: Seq<Seq<Option<String>>>, from: int) -> Option<
    Seq<char>,
>
    decreases rows.len() - from,
{
    if 0 <= from < rows.len() {
        match row_fault(term, rows[from]) {
            Some(fault) => Some(fault),
            None => first_fault(term, rows, from + 1),
        }
    } else {
        None
    }
}

/// The preview of each row, in order.
pub open spec fn row_previews(rows: Seq<Seq<Option<String>>>) -> Seq<PreviewView> {
    Seq::new(rows.len(), |i: int| preview_of(rows[i]).unwrap())
}

/// The first previews of `found`, as many as a query returns at most.
pub open spec fn capped(found: Seq<PreviewView>) -> Seq<PreviewView> {
    if found.len() > LIMIT {
        found.subrange(0, LIMIT as int)
    } else {
        found
    }
}

/// What a query for `term` answers when the engine hands out `rows`: the
/// fault of the first row that lacks term, code or title or is of another
/// term; else the previews of the rows, in their order, ten at most.
pub open spec fn answer(term: Seq<char>, rows: Seq<Seq<Option<String>>>) -> Result<
    Seq<PreviewView>,
    Seq<char>,
> {
    match first_fault(term, rows, 0) {
        Some(fault) => Err(fault),
        None => Ok(capped(row_previews(rows))),
    }
}

/// Where no row from `from` on is at fault, each of them is the preview of
/// a course of the term.
proof fn lemma_no_fault(term: Seq<char>, rows: Seq<Seq<Option<String>>>, from: int)
    requires
        0 <= from,
        first_fault(term, rows, from) is None,
    ensures
        forall|i: int|
            from <= i < rows.len() ==> (#[trigger] preview_of(rows[i])) is Some && preview_of(
                rows[i],
            ).unwrap().term == term,
    decreases rows.len() - from,
{
    if from < rows.len() {
        lemma_no_fault(term, rows, from + 1);
    }
}

/// The answer to a query is backed by the documents of its hits, one by
/// one, where these are ten at most: each preview is of the term asked for
/// and has the document of its row.
proof fn lemma_answer_is_backed(
    term: Seq<char>,
    rows: Seq<Seq<Option<String>>>,
    hits: Seq<Seq<(Seq<char>, Seq<char>)>>,
    held: Multiset<Seq<(Seq<char>, Seq<char>)>>,
    found: Seq<PreviewView>,
)
    requires
        answers(hits, held, seq![TERM@, CODE@, TITLE@], rows),
        hits.len() <= LIMIT,
        answer(term, rows) == Ok::<Seq<PreviewView>, Seq<char>>(found),
    ensures
        found.len() == hits.len(),
        forall|k: int| 0 <= k < found.len() ==> (#[trigger] found[k]).term == term,
        backs(hits, held, found),
{
    lemma_no_fault(term, rows, 0);
    let wanted = seq![TERM@, CODE@, TITLE@];
    assert(found == row_previews(rows));
    assert forall|k: int| 0 <= k < found.len() implies (#[trigger] found[k]).term == term && holds(
        hits[k],
        found[k],
    ) by {
        let row = rows[k];
        assert(preview_of(row) is Some);
        assert(shows(hits[k], wanted, row));
        assert(row[0] is Some && row[1] is Some && row[2] is Some);
        assert(wanted[0] == TERM@ && wanted[1] == CODE@ && wanted[2] == TITLE@);
    }
}

/// Whether a document made of `doc` is one that a query of `index` for the
/// free text `text` in the term `term` asks for: the text asks for it, read
/// across code, title and description, and it has the token `term` in the
/// field of the term.
pub open spec fn sought_in(
    index: Index,
    term: Seq<char>,
    text: Seq<char>,
    doc: Seq<(Seq<char>, Seq<char>)>,
) -> bool {
    asks(index, seq![CODE@, TITLE@, DESCRIPTION@], text, doc) && has_token(index, TERM@, term, doc)
}

/// The query that `index` is asked when the free text `text` is searched
/// in the term `term`: what the parser makes of the text, read across
/// code, title and description, narrowed to the term.
pub open spec fn asked_in(index: Index, term: Seq<char>, text: Seq<char>) -> BooleanQuery {
    joined(index, parsed(index, seq![CODE@, TITLE@, DESCRIPTION@], text), TERM@, term)
}

/// Whether `previews` are the answer that the documents `docs` give to a
/// query of `index` for the free text `text` in the term `term`: one
/// preview for each document, in order; no document more often than the
/// index holds it; each document is one that the query asks for; where
/// there are fewer than ten, they are all the documents of the index that
/// the query asks for; and they are the best for the query, best first.
pub open spec fn gives(
    index: Index,
    term: Seq<char>,
    text: Seq<char>,
    docs: Seq<Seq<(Seq<char>, Seq<char>)>>,
    previews: Seq<PreviewView>,
) -> bool {
    &&& backs(docs, held(index), previews)
    &&& forall|k: int| 0 <= k < docs.len() ==> sought_in(index, term, text, #[trigger] docs[k])
    &&& previews.len() < LIMIT ==> forall|doc: Seq<(Seq<char>, Seq<char>)>|
        held(index).count(doc) > 0 && #[trigger] sought_in(index, term, text, doc)
            ==> docs.contains(doc)
    &&& forall|i: int, j: int|
        0 <= i < j < docs.len() ==> outranks(
            index,
            asked_in(index, term, text),
            #[trigger] docs[i],
            #[trigger] docs[j],
        )
    &&& forall|i: int, doc: Seq<(Seq<char>, Seq<char>)>|
        0 <= i < docs.len() && held(index).count(doc) > 0 && sought_in(index, term, text, doc)
            && !docs.contains(doc) ==> #[trigger] outranks(
            index,
            asked_in(index, term, text),
            docs[i],
            doc,
        )
}

/// What the engine found for the query that was made of a text and a term
/// is the answer to the query for that text in that term.
proof fn lemma_hits_give_answer(
    index: Index,
    user: BooleanQuery,
    scoped: BooleanQuery,
    term: Seq<char>,
    text: Seq<char>,
    rows: Seq<Seq<Option<String>>>,
    hits: Seq<Seq<(Seq<char>, Seq<char>)>>,
    found: Seq<PreviewView>,
)
    requires
        forall|doc: Seq<(Seq<char>, Seq<char>)>|
            #[trigger] meets(index, user, doc) == asks(
                index,
                seq![CODE@, TITLE@, DESCRIPTION@],
                text,
                doc,
            ),
        forall|doc: Seq<(Seq<char>, Seq<char>)>|
            #[trigger] meets(index, scoped, doc) == (meets(index, user, doc) && has_token(
                index,
                TERM@,
                term,
                doc,
            )),
        scoped == asked_in(index, term, text),
        answers(hits, held(index), seq![TERM@, CODE@, TITLE@], rows),
        finds(hits, index, scoped, LIMIT),
        forall|i: int, j: int|
            0 <= i < j < hits.len() ==> outranks(index, scoped, #[trigger] hits[i], #[trigger] hits[j]),
        forall|i: int, doc: Seq<(Seq<char>, Seq<char>)>|
            0 <= i < hits.len() && held(index).count(doc) > 0 && meets(index, scoped, doc)
                && !hits.contains(doc) ==> #[trigger] outranks(index, scoped, hits[i], doc),
        answer(term, rows) == Ok::<Seq<PreviewView>, Seq<char>>(found),
    ensures
        found.len() <= LIMIT,
        forall|k: int| 0 <= k < found.len() ==> (#[trigger] found[k]).term == term,
        gives(index, term, text, hits, found),
{
    lemma_answer_is_backed(term, rows, hits, held(index), found);
    assert forall|i: int, doc: Seq<(Seq<char>, Seq<char>)>|
        0 <= i < hits.len() && held(index).count(doc) > 0 && sought_in(index, term, text, doc)
            && !hits.contains(doc) implies #[trigger] outranks(index, scoped, hits[i], doc) by {
        assert(meets(index, user, doc));
        assert(meets(index, scoped, doc));
    }
    assert forall|k: int| 0 <= k < hits.len() implies sought_in(
        index,
        term,
        text,
        #[trigger] hits[k],
    ) by {
        assert(meets(index, scoped, hits[k]));
        assert(meets(index, user, hits[k]));
    }
    if found.len() < LIMIT {
        assert forall|doc: Seq<(Seq<char>, Seq<char>)>|
            held(index).count(doc) > 0 && #[trigger] sought_in(
                index,
                term,
                text,
                doc,
            ) implies hits.contains(doc) by {
            assert(meets(index, user, doc));
            assert(meets(index, scoped, doc));
        }
    }
}

/// What holds the term, code and title of a preview, and is the document of
/// a course, is the document of a course with that term, code and title.
proof fn lemma_held_by_document(course: SummaryView, preview: PreviewView)
    requires
        holds(document(course), preview),
    ensures
        course.term == preview.term,
        course.code == preview.code,
        course.title == preview.title,
{
    reveal_strlit("term");
    reveal_strlit("code");
    reveal_strlit("title");
    reveal_strlit("description");
    let doc = document(course);
    assert("term"@[0] == 't' && "code"@[0] == 'c' && "description"@[0] == 'd');
    assert("term"@[1] == 'e' && "title"@[1] == 'i');
    let a = choose|a: int| 0 <= a < doc.len() && doc[a] == (TERM@, preview.term);
    let b = choose|b: int| 0 <= b < doc.len() && doc[b] == (CODE@, preview.code);
    let c = choose|c: int| 0 <= c < doc.len() && doc[c] == (TITLE@, preview.title);
    assert(a == 0 && b == 1 && c == 2);
}

/// Whether `doc` is the document of a course of `corpus` that has the term,
/// the code and the title of `preview`.
pub open spec fn is_course_of(
    corpus: Seq<SummaryView>,
    doc: Seq<(Seq<char>, Seq<char>)>,
    preview: PreviewView,
) -> bool {
    exists|j: int|
        0 <= j < corpus.len() && document(#[trigger] corpus[j]) == doc && corpus[j].term
            == preview.term && corpus[j].code == preview.code && corpus[j].title == preview.title
}

/// A preview that is backed by a document of an index filled with `corpus`,
/// and with nothing else, is the term, code and title of a course of
/// `corpus`.
pub proof fn lemma_previews_are_courses(
    corpus: Seq<SummaryView>,
    docs: Seq<Seq<(Seq<char>, Seq<char>)>>,
    previews: Seq<PreviewView>,
)
    requires
        backs(docs, documents(corpus), previews),
    ensures
        forall|k: int|
            0 <= k < previews.len() ==> is_course_of(corpus, docs[k], #[trigger] previews[k]),
{
    broadcast use vstd::seq_lib::group_to_multiset_ensures;

    let all = corpus_documents(corpus);
    assert forall|k: int| 0 <= k < previews.len() implies is_course_of(
        corpus,
        docs[k],
        #[trigger] previews[k],
    ) by {
        assert(docs.contains(docs[k]));
        assert(docs.to_multiset().count(docs[k]) > 0);
        assert(all.to_multiset().count(docs[k]) > 0);
        assert(all.contains(docs[k]));
        let j = choose|j: int| 0 <= j < all.len() && all[j] == docs[k];
        assert(holds(docs[k], previews[k]));
        lemma_held_by_document(corpus[j], previews[k]);
        assert(document(corpus[j]) == docs[k]);
    }
}

/// Where no two courses of the corpus have term and code in common, the
/// documents of the corpus are all different, so that documents of which
/// none occurs more often than among those of the corpus are all different
/// too.
proof fn lemma_hits_occur_once(corpus: Seq<SummaryView>, docs: Seq<Seq<(Seq<char>, Seq<char>)>>)
    requires
        distinct_courses(corpus),
        docs.to_multiset().subset_of(documents(corpus)),
    ensures
        corpus_documents(corpus).no_duplicates(),
        docs.no_duplicates(),
{
    broadcast use vstd::seq_lib::group_to_multiset_ensures;

    let all = corpus_documents(corpus);
    assert(all.no_duplicates()) by {
        assert forall|i: int, j: int| 0 <= i < all.len() && 0 <= j < all.len() && i != j implies all[i]
            != all[j] by {
            if all[i] == all[j] {
                assert(document(corpus[i])[0] == document(corpus[j])[0]);
                assert(document(corpus[i])[1] == document(corpus[j])[1]);
                assert(corpus[i].term == corpus[j].term && corpus[i].code == corpus[j].code);
            }
        }
    }
    all.lemma_multiset_has_no_duplicates();
    assert forall|x: Seq<(Seq<char>, Seq<char>)>|
        docs.to_multiset().contains(x) implies docs.to_multiset().count(x) == 1 by {
        assert(docs.to_multiset().count(x) <= all.to_multiset().count(x));
        assert(all.to_multiset().contains(x));
    }
    docs.lemma_multiset_has_no_duplicates_conv();
}

/// Where no two courses of the corpus have term and code in common, no two
/// previews backed by documents of an index filled with that corpus, and
/// with nothing else, have: a code is found once at most in a term.
pub proof fn lemma_codes_are_found_once(
    corpus: Seq<SummaryView>,
    docs: Seq<Seq<(Seq<char>, Seq<char>)>>,
    previews: Seq<PreviewView>,
)
    requires
        distinct_courses(corpus),
        backs(docs, documents(corpus), previews),
    ensures
        forall|a: int, b: int|
            0 <= a < b < previews.len() ==> !((#[trigger] previews[a]).term == (
            #[trigger] previews[b]).term && previews[a].code == previews[b].code),
{
    broadcast use vstd::seq_lib::group_to_multiset_ensures;

    let all = corpus_documents(corpus);
    lemma_hits_occur_once(corpus, docs);
    lemma_previews_are_courses(corpus, docs, previews);
    assert forall|a: int, b: int| 0 <= a < b < previews.len() implies !((#[trigger] previews[a]).term
        == (#[trigger] previews[b]).term && previews[a].code == previews[b].code) by {
        if previews[a].term == previews[b].term && previews[a].code == previews[b].code {
            assert(is_course_of(corpus, docs[a], previews[a]));
            assert(is_course_of(corpus, docs[b], previews[b]));
            let i = choose|i: int|
                0 <= i < corpus.len() && document(#[trigger] corpus[i]) == docs[a] && corpus[i].term
                    == previews[a].term && corpus[i].code == previews[a].code && corpus[i].title
                    == previews[a].title;
            let j = choose|j: int|
                0 <= j < corpus.len() && document(#[trigger] corpus[j]) == docs[b] && corpus[j].term
                    == previews[b].term && corpus[j].code == previews[b].code && corpus[j].title
                    == previews[b].title;
            assert(i == j);
            assert(docs[a] == docs[b]);
            assert(false);
        }
    }
}

/// The failure of a query whose free text could not be turned into a
/// query: a text that the parser rejects is invalid, anything else is a
/// failure of the index.
pub fn failure(fault: ParseFault) -> (r: QueryFailure)
    ensures
        r@ == match fault {
            ParseFault::Syntax(said) => QueryFailureView::Invalid(said@),
            ParseFault::Engine(said) => QueryFailureView::System(said@),
        },
{
    match fault {
        ParseFault::Syntax(said) => QueryFailure::Invalid(QueryError(said)),
        ParseFault::Engine(said) => QueryFailure::System(SystemError(said)),
    }
}

/// The answer to a query for `term` when the engine hands out `rows`, each
/// the stored term, code and title of a hit.
pub fn previews(term: &str, rows: Vec<Vec<Option<String>>>) -> (r: Result<
    Vec<CoursePreview>,
    SystemError,
>)
    ensures
        match r {
            Ok(found) => answer(term@, row_views(rows@)) == Ok::<Seq<PreviewView>, Seq<char>>(
                preview_views(found@),
            ),
            Err(e) => answer(term@, row_views(rows@)) == Err::<Seq<PreviewView>, Seq<char>>(e.0@),
        },
{
    let ghost all = row_views(rows@);
    let count = rows.len();
    let mut found: Vec<CoursePreview> = Vec::new();
    let mut at: usize = 0;
    for row in it: rows
        invariant
            all == row_views(it.seq()),
            all.len() == count,
            at == it.index(),
            first_fault(term@, all, 0) == first_fault(term@, all, at as int),
            forall|i: int| 0 <= i < at ==> (#[trigger] preview_of(all[i])) is Some,
            found.len() == if at < LIMIT {
                at
            } else {
                LIMIT
            },
            forall|k: int|
                0 <= k < found.len() ==> (#[trigger] found@[k])@ == preview_of(all[k]).unwrap(),
    {
        assert(all[at as int] == row@);
        let mut row = row;
        if row.len() != 3 {
            return Err(SystemError(String::from_str(INCOMPLETE)));
        }
        let title = row.pop();
        let code = row.pop();
        let first = row.pop();
        match (first, code, title) {
            (Some(Some(first)), Some(Some(code)), Some(Some(title))) => {
                if !same_text(first.as_str(), term) {
                    return Err(SystemError(String::from_str(MISPLACED)));
                }
                if found.len() < LIMIT {
                    let preview = CoursePreview { term: first, code, title };
                    assert(preview_of(all[at as int]) == Some(preview@));
                    found.push(preview);
                }
            },
            _ => {
                return Err(SystemError(String::from_str(INCOMPLETE)));
            },
        }
        at = at + 1;
    }
    assert(preview_views(found@) =~= capped(row_previews(all)));
    Ok(found)
}

/// Whether `index` has the four fields of a course: term, code, title and
/// description.
pub open spec fn has_fields(index: Index) -> bool {
    &&& known(index, TERM@)
    &&& known(index, CODE@)
    &&& known(index, TITLE@)
    &&& known(index, DESCRIPTION@)
}

/// A search index over course summaries.
pub struct CourseIndex {
    index: Index,
}

impl CourseIndex {
    /// The index has the four fields of a course, and its tokenizer of
    /// codes and titles is the one for runs of three characters, lower-cased,
    /// runs that reach the cap dropped.
    #[verifier::type_invariant]
    closed spec fn complete(self) -> bool {
        &&& has_fields(self.index)
        &&& grams(self.index, TOKENIZER@) == Some((GRAM, GRAM, false, TOKEN_CAP))
    }

    /// The documents that the index holds, each as pairs of field name and
    /// text.
    pub closed spec fn courses(&self) -> Multiset<Seq<(Seq<char>, Seq<char>)>> {
        held(self.index)
    }

    /// The tokenizer of codes and titles: the least and the greatest length
    /// of a run of characters, whether runs are taken at the start of a
    /// text only, and the number of bytes that a run must stay below to be
    /// kept.
    pub closed spec fn tokenizer(&self) -> Option<(usize, usize, bool, usize)> {
        grams(self.index, TOKENIZER@)
    }

    /// Whether a document made of `doc` is one that a query for the free
    /// text `text` in the term `term` asks for: the text asks for it, read
    /// across code, title and description, and its term is `term`.
    pub closed spec fn sought(
        &self,
        term: Seq<char>,
        text: Seq<char>,
        doc: Seq<(Seq<char>, Seq<char>)>,
    ) -> bool {
        sought_in(self.index, term, text, doc)
    }

    /// Whether, for a query for the free text `text` in the term `term`, a
    /// document made of `a` scores at least as high as one made of `b`.
    pub closed spec fn prefers(
        &self,
        term: Seq<char>,
        text: Seq<char>,
        a: Seq<(Seq<char>, Seq<char>)>,
        b: Seq<(Seq<char>, Seq<char>)>,
    ) -> bool {
        outranks(self.index, asked_in(self.index, term, text), a, b)
    }

    /// Whether `previews` are the answer that the documents `docs` give to a
    /// query for the free text `text` in the term `term`: one preview for
    /// each document, in order; no document more often than the index holds
    /// it; each document is one that the query asks for; where there are
    /// fewer than ten, they are all the documents of the index that the
    /// query asks for; and they are the best for the query, best first.
    pub closed spec fn answered(
        &self,
        term: Seq<char>,
        text: Seq<char>,
        docs: Seq<Seq<(Seq<char>, Seq<char>)>>,
        previews: Seq<PreviewView>,
    ) -> bool {
        gives(self.index, term, text, docs, previews)
    }

    /// What an answer is, over the documents of the index and what a query
    /// asks for.
    pub proof fn lemma_answered(
        &self,
        term: Seq<char>,
        text: Seq<char>,
        docs: Seq<Seq<(Seq<char>, Seq<char>)>>,
        previews: Seq<PreviewView>,
    )
        requires
            self.answered(term, text, docs, previews),
        ensures
            backs(docs, self.courses(), previews),
            forall|k: int| 0 <= k < docs.len() ==> self.sought(term, text, #[trigger] docs[k]),
            previews.len() < LIMIT ==> forall|doc: Seq<(Seq<char>, Seq<char>)>|
                self.courses().count(doc) > 0 && #[trigger] self.sought(term, text, doc)
                    ==> docs.contains(doc),
            forall|i: int, j: int|
                0 <= i < j < docs.len() ==> self.prefers(
                    term,
                    text,
                    #[trigger] docs[i],
                    #[trigger] docs[j],
                ),
            forall|i: int, doc: Seq<(Seq<char>, Seq<char>)>|
                0 <= i < docs.len() && self.courses().count(doc) > 0 && self.sought(
                    term,
                    text,
                    doc,
                ) && !docs.contains(doc) ==> #[trigger] self.prefers(term, text, docs[i], doc),
    {
        assert forall|i: int, j: int| 0 <= i < j < docs.len() implies self.prefers(
            term,
            text,
            #[trigger] docs[i],
            #[trigger] docs[j],
        ) by {
            assert(outranks(self.index, asked_in(self.index, term, text), docs[i], docs[j]));
        }
        assert forall|i: int, doc: Seq<(Seq<char>, Seq<char>)>|
            0 <= i < docs.len() && self.courses().count(doc) > 0 && self.sought(term, text, doc)
                && !docs.contains(doc) implies #[trigger] self.prefers(term, text, docs[i], doc) by {
            assert(sought_in(self.index, term, text, doc));
            assert(outranks(self.index, asked_in(self.index, term, text), docs[i], doc));
        }
        assert forall|k: int| 0 <= k < docs.len() implies self.sought(
            term,
            text,
            #[trigger] docs[k],
        ) by {
            assert(sought_in(self.index, term, text, docs[k]));
        }
        if previews.len() < LIMIT {
            assert forall|doc: Seq<(Seq<char>, Seq<char>)>|
                self.courses().count(doc) > 0 && #[trigger] self.sought(
                    term,
                    text,
                    doc,
                ) implies docs.contains(doc) by {
                assert(sought_in(self.index, term, text, doc));
            }
        }
    }

    /// Where the index was filled with a corpus in which no two courses
    /// have term and code in common, and with nothing else, and the
    /// document of one course is the only one that the query asks for, the
    /// answer is the preview of that course and no other: a course is found
    /// alone where the engine takes the text to ask for it alone.
    pub proof fn lemma_sole_match_is_found(
        &self,
        corpus: Seq<SummaryView>,
        j: int,
        term: Seq<char>,
        text: Seq<char>,
        docs: Seq<Seq<(Seq<char>, Seq<char>)>>,
        previews: Seq<PreviewView>,
    )
        requires
            distinct_courses(corpus),
            self.courses() == documents(corpus),
            0 <= j < corpus.len(),
            self.answered(term, text, docs, previews),
            self.sought(term, text, document(corpus[j])),
            forall|i: int|
                0 <= i < corpus.len() && i != j ==> !self.sought(
                    term,
                    text,
                    document(#[trigger] corpus[i]),
                ),
        ensures
            previews.len() == 1,
            previews[0].term == corpus[j].term,
            previews[0].code == corpus[j].code,
            previews[0].title == corpus[j].title,
    {
        broadcast use vstd::seq_lib::group_to_multiset_ensures;

        self.lemma_answered(term, text, docs, previews);
        let all = corpus_documents(corpus);
        let sole = document(corpus[j]);
        assert(all[j] == sole);
        lemma_hits_occur_once(corpus, docs);
        assert forall|k: int| 0 <= k < docs.len() implies #[trigger] docs[k] == sole by {
            assert(docs.contains(docs[k]));
            assert(docs.to_multiset().count(docs[k]) > 0);
            assert(all.to_multiset().count(docs[k]) > 0);
            assert(all.contains(docs[k]));
            let i = choose|i: int| 0 <= i < all.len() && all[i] == docs[k];
            assert(self.sought(term, text, docs[k]));
            assert(document(corpus[i]) == docs[k]);
            assert(i == j);
        }
        if docs.len() >= 2 {
            assert(docs[0] == docs[1]);
        }
        assert(docs.len() <= 1);
        assert(previews.len() < LIMIT);
        assert(all.contains(sole));
        assert(self.courses().count(sole) > 0);
        assert(docs.contains(sole));
        assert(docs.len() == 1);
        assert(holds(docs[0], previews[0]));
        lemma_held_by_document(corpus[j], previews[0]);
    }

    /// The course index on `index`, where it has the four fields of a
    /// course; the complaint that a field is missing, where it lacks one.
    fn checked(index: Index) -> (r: Result<CourseIndex, SystemError>)
        requires
            grams(index, TOKENIZER@) == Some((GRAM, GRAM, false, TOKEN_CAP)),
        ensures
            r is Ok <==> has_fields(index),
            r matches Ok(opened) ==> opened.courses() == held(index) && opened.tokenizer() == Some(
                (GRAM, GRAM, false, TOKEN_CAP),
            ),
            r matches Err(e) ==> e.0@ == FIELD_MISSING@,
    {
        if has_field(&index, TERM) && has_field(&index, CODE) && has_field(&index, TITLE)
            && has_field(&index, DESCRIPTION) {
            Ok(CourseIndex { index })
        } else {
            Err(SystemError(String::from_str(FIELD_MISSING)))
        }
    }

    /// What the engine's parser says against the free text `text` of a
    /// query; `None` where it takes the text for a query.
    pub closed spec fn rejects(&self, text: Seq<char>) -> Option<Seq<char>> {
        complaint(self.index, seq![CODE@, TITLE@, DESCRIPTION@], text)
    }

    /// The names of three fields.
    fn names(a: &str, b: &str, c: &str) -> (r: Vec<String>)
        ensures
            views(r@) == seq![a@, b@, c@],
    {
        let mut r: Vec<String> = Vec::new();
        r.push(String::from_str(a));
        r.push(String::from_str(b));
        r.push(String::from_str(c));
        assert(views(r@) =~= seq![a@, b@, c@]);
        r
    }

    /// The course index on `index`, which has the fields of
    /// `course_schema`. The tokenizer of codes and titles is made known to
    /// the index first: runs of three characters, lower-cased, runs that
    /// reach the cap dropped. With a corpus, a document for each of its courses
    /// is then added to the index: the index was just created. Without one,
    /// the index is taken as it is.
    ///
    /// An index that lacks one of the fields is refused, with the complaint
    /// that a field is missing, before anything is added to it. An index
    /// that has them is taken without a corpus as it is, and that always
    /// succeeds. With a corpus, whether filling succeeds is up to the engine
    /// and its storage. When opening succeeds, the index holds what it held
    /// before and the documents of the corpus.
    pub fn open(index: Index, corpus: Option<Vec<CourseSummary>>) -> (r: Result<
        CourseIndex,
        SystemError,
    >)
        ensures
            r matches Ok(opened) ==> {
                &&& opened.courses() == match corpus {
                    Some(courses) => held(index).add(documents(summary_views(courses@))),
                    None => held(index),
                }
                &&& opened.tokenizer() == Some((GRAM, GRAM, false, TOKEN_CAP))
            },
            !has_fields(index) ==> (r matches Err(e) && e.0@ == FIELD_MISSING@),
            has_fields(index) && corpus is None ==> r is Ok,
    {
        let mut engine = index;
        match register_grams(&mut engine, TOKENIZER, GRAM, GRAM, false, TOKEN_CAP) {
            Ok(()) => {},
            Err(said) => {
                return Err(SystemError(said));
            },
        }
        if !(has_field(&engine, TERM) && has_field(&engine, CODE) && has_field(&engine, TITLE)
            && has_field(&engine, DESCRIPTION)) {
            return Err(SystemError(String::from_str(FIELD_MISSING)));
        }
        let courses = match corpus {
            Some(courses) => courses,
            None => {
                return CourseIndex::checked(engine);
            },
        };
        let mut writer = match begin(engine, WRITER_BUDGET) {
            Ok(writer) => writer,
            Err(said) => {
                return Err(SystemError(said));
            },
        };
        let ghost all = summary_views(courses@);
        let mut j: usize = 0;
        proof {
            broadcast use vstd::seq_lib::group_to_multiset_ensures;
            broadcast use vstd::multiset::group_multiset_axioms;

            assert(corpus_documents(all.take(0)) =~= Seq::empty());
            assert(documents(all.take(0)) =~= Multiset::empty());
        }
        while j < courses.len()
            invariant
                j <= courses.len(),
                all == summary_views(courses@),
                has_fields(index),
                corpus is Some,
                filling(writer) == engine,
                budget_of(writer) == WRITER_BUDGET,
                held(engine) == held(index),
                has_fields(engine),
                grams(engine, TOKENIZER@) == Some((GRAM, GRAM, false, TOKEN_CAP)),
                queued(writer) == documents(all.take(j as int)),
            decreases courses.len() - j,
        {
            let course = &courses[j];
            assert(all[j as int] == course@);
            match queue(
                &mut writer,
                (TERM, course.term.as_str()),
                (CODE, course.code.as_str()),
                (TITLE, course.title.as_str()),
                (DESCRIPTION, course.description.as_str()),
            ) {
                Ok(()) => {},
                Err(said) => {
                    return Err(SystemError(said));
                },
            }
            proof {
                broadcast use vstd::seq_lib::group_to_multiset_ensures;

                assert(corpus_documents(all.take(j + 1)) =~= corpus_documents(
                    all.take(j as int),
                ).push(document(all[j as int])));
            }
            j = j + 1;
        }
        assert(all.take(j as int) =~= all);
        match commit(writer) {
            Ok(filled) => CourseIndex::checked(filled),
            Err(said) => Err(SystemError(said)),
        }
    }

    /// Whether `outcome` is an answer of this index to a query for the free
    /// text `text` in the term `term`. Previews are ten at most, each of the
    /// term, and there are documents that answer the query with them. The
    /// failure is `Invalid`, with what the parser says, exactly where the
    /// engine's parser rejects the text.
    pub open spec fn answers_query(
        &self,
        term: Seq<char>,
        text: Seq<char>,
        outcome: Result<Vec<CoursePreview>, QueryFailure>,
    ) -> bool {
        &&& outcome matches Ok(found) ==> {
            &&& found@.len() <= LIMIT
            &&& forall|k: int| 0 <= k < found@.len() ==> (#[trigger] found@[k])@.term == term
            &&& exists|docs: Seq<Seq<(Seq<char>, Seq<char>)>>| #[trigger]
                self.answered(term, text, docs, preview_views(found@))
        }
        &&& self.rejects(text) matches Some(said) ==> (outcome matches Err(
            QueryFailure::Invalid(e),
        ) && e.0@ == said)
        &&& outcome matches Err(QueryFailure::Invalid(e)) ==> self.rejects(text) == Some(e.0@)
    }

    /// The courses of `term` that match the free text `text`, best match
    /// first, ten at most.
    ///
    /// Which texts are queries, what a text asks for and how well a course
    /// matches is the engine's. Over that: every preview is of the term
    /// `term` and is the term, code and title of a document of the index of
    /// its own; that document is one that the text asks for, read across
    /// code, title and description, and its term is `term`; where fewer
    /// than ten previews are returned, they are those of all such documents
    /// of the index; and the previews are those of the documents that score
    /// best for the query, in the order of their scores, best first. A text that the engine's parser rejects has
    /// no answer: the failure is `Invalid`, with what the parser said, for
    /// such a text and for no other. Any other failure is `System`. See
    /// `failure` and `previews`.
    pub fn query(&self, term: &str, text: &str) -> (r: Result<Vec<CoursePreview>, QueryFailure>)
        ensures
            self.answers_query(term@, text@, r),
    {
        proof {
            use_type_invariant(self);
        }
        let user = match parse(&self.index, CODE, TITLE, DESCRIPTION, text) {
            Ok(user) => user,
            Err(fault) => {
                return Err(failure(fault));
            },
        };
        let scoped = match narrowed(&self.index, user, TERM, term) {
            Ok(scoped) => scoped,
            Err(said) => {
                return Err(QueryFailure::System(SystemError(said)));
            },
        };
        let wanted = CourseIndex::names(TERM, CODE, TITLE);
        let rows = match top(&self.index, &scoped, LIMIT, &wanted) {
            Ok(rows) => rows,
            Err(said) => {
                return Err(QueryFailure::System(SystemError(said)));
            },
        };
        let ghost shown = row_views(rows@);
        let ghost hits = choose|docs: Seq<Seq<(Seq<char>, Seq<char>)>>|
            {
                &&& answers(docs, held(self.index), views(wanted@), shown)
                &&& #[trigger] finds(docs, self.index, scoped, LIMIT)
                &&& forall|i: int, j: int|
                    0 <= i < j < docs.len() ==> outranks(
                        self.index,
                        scoped,
                        #[trigger] docs[i],
                        #[trigger] docs[j],
                    )
                &&& forall|i: int, doc: Seq<(Seq<char>, Seq<char>)>|
                    0 <= i < docs.len() && held(self.index).count(doc) > 0 && meets(
                        self.index,
                        scoped,
                        doc,
                    ) && !docs.contains(doc) ==> #[trigger] outranks(
                        self.index,
                        scoped,
                        docs[i],
                        doc,
                    )
            };
        match previews(term, rows) {
            Ok(found) => {
                proof {
                    let got = preview_views(found@);
                    lemma_hits_give_answer(
                        self.index,
                        user,
                        scoped,
                        term@,
                        text@,
                        shown,
                        hits,
                        got,
                    );
                    assert(got.len() == found@.len());
                    assert forall|k: int| 0 <= k < found@.len() implies (#[trigger] found@[k])@.term
                        == term@ by {
                        assert(got[k] == found@[k]@);
                    }
                    assert(self.answered(term@, text@, hits, got));
                }
                Ok(found)
            },
            Err(e) => Err(QueryFailure::System(e)),
        }
    }
}

} // verus!
