//! The search index and the query engine: the schema of the index, how
//! character records get into it, and how a query text becomes results.

use crate::index::{
    add_number_field, add_text_field, budget_of, commit, committed, copy_schema, declared,
    defaults_of, describe_failure, describe_query_error, documents, fields_of, find_field,
    make_parser, matching, open_writer, parse_query, parsed, parser_schema, query_schema,
    queue_record, queued, reader_schema, same_schema, schema_of, searcher_schema, stored,
    stored_fields, top_matches, FieldKind, FieldModel, Layout, ParsedQuery, RecordWriter,
    StoredFields, StoredModel,
};
use crate::error::{ErrorKind, PickerError};
use crate::record::{CharacterRecord, RecordModel};
use crate::state::{QueryOutcome, RESULT_LIMIT};
use crate::text::{trim, trimmed};
use tantivy::query::QueryParser;
use tantivy::schema::Schema;
use tantivy::{Index, IndexReader, Searcher, TantivyError};
use vstd::prelude::*;

verus! {

/// The memory, in bytes, that a writer may use.
pub const WRITER_BUDGET: usize = 50_000_000;

/// The fields of a character record, in the order in which the schema has
/// them: the name and the block as text that is split into words, indexed
/// and stored, and the code point as a stored number.
pub open spec fn record_fields() -> Seq<FieldModel> {
    seq![
        FieldModel { name: "name"@, kind: FieldKind::StoredText },
        FieldModel { name: "blck"@, kind: FieldKind::StoredText },
        FieldModel { name: "codepnt"@, kind: FieldKind::StoredNumber },
    ]
}

/// The schema of the index.
pub fn catalog_schema() -> (schema: Schema)
    ensures
        fields_of(schema) == record_fields(),
{
    proof {
        reveal_strlit("name");
        reveal_strlit("blck");
        reveal_strlit("codepnt");
    }
    let mut builder = Schema::builder();
    add_text_field(&mut builder, "name");
    proof {
        let fields = declared(builder);
        assert(fields =~= seq![record_fields()[0]]);
        assert forall|i: int| 0 <= i < fields.len() implies (#[trigger] fields[i]).name
            != "blck"@ by {
            assert(fields[i].name[0] != "blck"@[0]);
        }
    }
    add_text_field(&mut builder, "blck");
    proof {
        let fields = declared(builder);
        assert(fields =~= seq![record_fields()[0], record_fields()[1]]);
        assert forall|i: int| 0 <= i < fields.len() implies (#[trigger] fields[i]).name
            != "codepnt"@ by {
            assert(fields[i].name.len() != "codepnt"@.len());
        }
    }
    add_number_field(&mut builder, "codepnt");
    assert(declared(builder) =~= record_fields());
    builder.build()
}

/// The number of the field of `fields` that is called `name`, as a document
/// names it: its place among the fields, where there is such a field and its
/// place has no more than 16 bits.
pub open spec fn number_of(fields: Seq<FieldModel>, name: Seq<char>) -> Option<u16> {
    if exists|i: int| 0 <= i < fields.len() && (#[trigger] fields[i]).name == name {
        let place = choose|i: int| 0 <= i < fields.len() && (#[trigger] fields[i]).name == name;
        if place <= u16::MAX {
            Some(place as u16)
        } else {
            None
        }
    } else {
        None
    }
}

/// The numbers of the record fields among `fields`, where all three are
/// there and a document can name them.
pub open spec fn layout_of(fields: Seq<FieldModel>) -> Option<Layout> {
    match (number_of(fields, "name"@), number_of(fields, "blck"@), number_of(fields, "codepnt"@)) {
        (Some(name), Some(block), Some(code_point)) => Some(Layout { name, block, code_point }),
        _ => None,
    }
}

/// The schema of the index can be used: its record fields have the numbers
/// 0, 1 and 2.
pub proof fn lemma_catalog_schema_is_usable()
    ensures
        layout_of(record_fields()) == Some(Layout { name: 0, block: 1, code_point: 2 }),
{
    reveal_strlit("name");
    reveal_strlit("blck");
    reveal_strlit("codepnt");
    let fields = record_fields();
    assert(fields[0].name == "name"@ && fields[1].name == "blck"@ && fields[2].name
        == "codepnt"@);
    assert("name"@[0] != "blck"@[0]);
    assert("name"@.len() != "codepnt"@.len());
    assert("blck"@.len() != "codepnt"@.len());
}

/// Finds the record field called `name` in `schema`.
fn record_field(schema: &Schema, name: &str) -> (r: Option<u16>)
    ensures
        r == number_of(fields_of(*schema), name@),
        r matches Some(n) ==> n < fields_of(*schema).len(),
{
    match find_field(schema, name) {
        Some(n) => {
            assert(fields_of(*schema)[n as int].name == name@);
            if n <= 0xffff {
                Some(n as u16)
            } else {
                None
            }
        },
        None => None,
    }
}

/// The record that stored fields make up, where none of them is missing.
pub open spec fn assembled(fields: StoredModel) -> Option<RecordModel> {
    match (fields.name, fields.block, fields.code_point) {
        (Some(name), Some(block), Some(code_point)) => Some(
            RecordModel { name, block, code_point },
        ),
        _ => None,
    }
}

/// Whether `records` are what is stored of the documents at `hits`, one by one.
pub open spec fn read_from(
    records: Seq<RecordModel>,
    hits: Seq<(u32, u32)>,
    snapshot: Searcher,
    layout: Layout,
) -> bool {
    &&& records.len() == hits.len()
    &&& forall|i: int|
        0 <= i < hits.len() ==> assembled(stored(snapshot, layout, #[trigger] hits[i])) == Some(
            records[i],
        )
}

/// Whether `hits` are the addresses that a search for `query` in `snapshot`
/// may return: at most `limit` documents that match, none of them twice, and
/// all that match where fewer than `limit` are returned.
pub open spec fn answers(hits: Seq<(u32, u32)>, snapshot: Searcher, query: ParsedQuery, limit: nat)
    -> bool {
    &&& hits.len() <= limit
    &&& hits.no_duplicates()
    &&& hits.to_set().subset_of(matching(snapshot, query))
    &&& hits.len() < limit ==> matching(snapshot, query).subset_of(hits.to_set())
}

/// Whether `records` are results of `query` in `snapshot`: the stored
/// records of the documents that a search returns.
pub open spec fn found_in(
    records: Seq<RecordModel>,
    snapshot: Searcher,
    query: ParsedQuery,
    layout: Layout,
) -> bool {
    exists|hits: Seq<(u32, u32)>|
        #![trigger answers(hits, snapshot, query, RESULT_LIMIT as nat)]
        answers(hits, snapshot, query, RESULT_LIMIT as nat) && read_from(
            records,
            hits,
            snapshot,
            layout,
        )
}

/// Whether `records` are results of `query` on some committed state of the
/// index.
pub open spec fn results_of(records: Seq<RecordModel>, query: ParsedQuery, layout: Layout) -> bool {
    exists|snapshot: Searcher| #[trigger] found_in(records, snapshot, query, layout)
}

/// A query that no document matches has no results, and a query that a
/// single document matches has the record of that document as its one result.
pub proof fn lemma_few_matches_all_come_back(
    records: Seq<RecordModel>,
    hits: Seq<(u32, u32)>,
    snapshot: Searcher,
    query: ParsedQuery,
    layout: Layout,
)
    requires
        answers(hits, snapshot, query, RESULT_LIMIT as nat),
        read_from(records, hits, snapshot, layout),
    ensures
        matching(snapshot, query) == Set::<(u32, u32)>::empty() ==> records.len() == 0,
        forall|address: (u32, u32)|
            matching(snapshot, query) == set![address] ==> records.len() == 1 && Some(records[0])
                == assembled(#[trigger] stored(snapshot, layout, address)),
{
    if matching(snapshot, query) == Set::<(u32, u32)>::empty() {
        if hits.len() > 0 {
            assert(hits.to_set().contains(hits[0]));
        }
    }
    assert forall|address: (u32, u32)|
        matching(snapshot, query) == set![address] implies records.len() == 1 && Some(records[0])
        == assembled(#[trigger] stored(snapshot, layout, address)) by {
        if hits.len() >= 2 {
            assert(hits.to_set().contains(hits[0]));
            assert(hits.to_set().contains(hits[1]));
            assert(hits[0] == address && hits[1] == address);
        }
        assert(set![address].contains(address));
        assert(hits.to_set().contains(address));
        assert(hits.len() == 1);
        assert(hits.to_set().contains(hits[0]));
        assert(hits[0] == address);
    }
}

/// Makes a record of what is stored of a document.
pub fn assemble(fields: StoredFields) -> (r: Option<CharacterRecord>)
    ensures
        r.deep_view() == assembled(fields.deep_view()),
{
    match (fields.name, fields.block, fields.code_point) {
        (Some(name), Some(block), Some(code_point)) => Some(
            CharacterRecord { name, block, code_point },
        ),
        _ => None,
    }
}

fn unavailable(error: &TantivyError) -> (e: PickerError)
    ensures
        e.kind() == ErrorKind::IndexUnavailable,
{
    PickerError::IndexUnavailable(describe_failure(error))
}

/// An index together with the handles of its record fields.
pub struct Catalog {
    index: Index,
    layout: Layout,
}

impl Catalog {
    /// The record fields are fields of the schema of the index.
    #[verifier::type_invariant]
    closed spec fn valid(&self) -> bool {
        let count = fields_of(schema_of(self.index)).len();
        self.layout.name < count && self.layout.block < count && self.layout.code_point < count
    }

    /// Attaches to an index. An index whose schema lacks one of the record
    /// fields, or has it beyond the largest number a document can name,
    /// cannot be used.
    pub fn attach(index: Index) -> (r: Result<Catalog, PickerError>)
        ensures
            r is Ok == layout_of(fields_of(schema_of(index))) is Some,
            r matches Ok(catalog) ==> Some(catalog.layout()) == layout_of(
                fields_of(schema_of(index)),
            ),
            r matches Err(e) ==> e.kind() == ErrorKind::IndexUnavailable,
    {
        let schema = index.schema();
        let name = record_field(&schema, "name");
        let block = record_field(&schema, "blck");
        let code_point = record_field(&schema, "codepnt");
        match (name, block, code_point) {
            (Some(name), Some(block), Some(code_point)) => {
                Ok(Catalog { index, layout: Layout { name, block, code_point } })
            },
            _ => Err(PickerError::IndexUnavailable("the index lacks a field".to_owned())),
        }
    }

    /// The numbers of the record fields in the schema of the index.
    pub closed spec fn layout(&self) -> Layout {
        self.layout
    }

    /// The index.
    pub closed spec fn index(&self) -> Index {
        self.index
    }

    /// A writer for the index that may use `WRITER_BUDGET` bytes of memory,
    /// and to which nothing has been handed yet.
    pub fn writer(&self) -> (r: Result<RecordWriter, PickerError>)
        ensures
            r matches Ok(writer) ==> {
                &&& budget_of(writer) == WRITER_BUDGET
                &&& queued(writer) == Seq::<RecordModel>::empty()
                &&& committed(writer) == Seq::<RecordModel>::empty()
            },
            r matches Err(e) ==> e.kind() == ErrorKind::IndexUnavailable,
    {
        match open_writer(&self.index, WRITER_BUDGET) {
            Ok(writer) => Ok(writer),
            Err(error) => Err(unavailable(&error)),
        }
    }

    /// Hands `records` to `writer`, in order. The first failure ends it.
    pub fn stage(&self, writer: &mut RecordWriter, records: &Vec<CharacterRecord>) -> (r: Result<
        (),
        PickerError,
    >)
        ensures
            records@.len() == 0 ==> r is Ok,
            r is Ok ==> queued(*final(writer)) == queued(*old(writer)) + records.deep_view(),
            r is Ok ==> committed(*final(writer)) == committed(*old(writer)),
            r matches Err(e) ==> e.kind() == ErrorKind::IndexUnavailable,
    {
        let ghost all = records.deep_view();
        let mut i: usize = 0;
        assert(queued(*writer) + all.take(0) =~= queued(*writer));
        while i < records.len()
            invariant
                i <= records.len(),
                all == records.deep_view(),
                queued(*writer) == queued(*old(writer)) + all.take(i as int),
                committed(*writer) == committed(*old(writer)),
            decreases records.len() - i,
        {
            let record = &records[i];
            let (name, block) = (record.name.as_str(), record.block.as_str());
            match queue_record(writer, &self.layout, name, block, record.code_point) {
                Ok(()) => {},
                Err(error) => {
                    return Err(unavailable(&error));
                },
            }
            proof {
                assert(all.take(i + 1) =~= all.take(i as int).push(record.deep_view()));
                assert(queued(*old(writer)) + all.take(i + 1) =~= (queued(*old(writer)) + all.take(
                    i as int,
                )).push(record.deep_view()));
            }
            i += 1;
        }
        proof {
            assert(all.take(i as int) =~= all);
        }
        Ok(())
    }

    /// Commits what was handed to `writer`: where this succeeds, all of it
    /// is part of the index.
    pub fn publish(&self, writer: &mut RecordWriter) -> (r: Result<(), PickerError>)
        ensures
            r is Ok ==> committed(*final(writer)) == committed(*old(writer)) + queued(
                *old(writer),
            ) && queued(*final(writer)) == Seq::<RecordModel>::empty(),
            r matches Err(e) ==> e.kind() == ErrorKind::IndexUnavailable,
    {
        match commit(writer) {
            Ok(()) => Ok(()),
            Err(error) => Err(unavailable(&error)),
        }
    }

    /// Puts `records` into the index with a writer of its own: hands them
    /// over, in order, and commits them. Returns the writer, which has then
    /// committed exactly `records` and has nothing left to commit; it can
    /// take more, and gives the index free when it is dropped.
    pub fn populate(&self, records: &Vec<CharacterRecord>) -> (r: Result<
        RecordWriter,
        PickerError,
    >)
        ensures
            r matches Ok(writer) ==> committed(writer) == records.deep_view() && queued(writer)
                == Seq::<RecordModel>::empty(),
            r matches Err(e) ==> e.kind() == ErrorKind::IndexUnavailable,
    {
        let mut writer = match self.writer() {
            Ok(writer) => writer,
            Err(error) => {
                return Err(error);
            },
        };
        match self.stage(&mut writer, records) {
            Ok(()) => {},
            Err(error) => {
                return Err(error);
            },
        }
        match self.publish(&mut writer) {
            Ok(()) => {
                assert(committed(writer) =~= records.deep_view());
                Ok(writer)
            },
            Err(error) => Err(error),
        }
    }

    /// A query engine on what is committed to the index by now. Its queries
    /// look in the name and in the block where they name no field.
    pub fn engine(&self) -> (r: Result<SearchEngine, PickerError>)
        ensures
            r matches Ok(engine) ==> {
                &&& engine.layout() == self.layout()
                &&& engine.default_fields() == seq![self.layout().name, self.layout().block]
                &&& engine.schema() == schema_of(self.index())
            },
            r matches Err(e) ==> e.kind() == ErrorKind::IndexUnavailable,
    {
        proof {
            use_type_invariant(self);
        }
        let reader = match self.index.reader() {
            Ok(reader) => reader,
            Err(error) => {
                return Err(unavailable(&error));
            },
        };
        let mut fields: Vec<u16> = Vec::new();
        fields.push(self.layout.name);
        fields.push(self.layout.block);
        let parser = make_parser(&self.index, &fields);
        assert(fields@ =~= seq![self.layout.name, self.layout.block]);
        let schema = self.index.schema();
        Ok(SearchEngine { reader, parser, schema, layout: self.layout })
    }
}

/// A query that an engine parsed, together with the schema it was parsed for.
pub struct EngineQuery {
    parsed: ParsedQuery,
    schema: Schema,
}

impl EngineQuery {
    /// The schema is the one that the query was parsed for.
    #[verifier::type_invariant]
    closed spec fn valid(&self) -> bool {
        query_schema(self.parsed) == self.schema
    }

    /// The query itself.
    pub closed spec fn parsed(&self) -> ParsedQuery {
        self.parsed
    }

    /// The schema that the query was parsed for.
    pub closed spec fn schema(&self) -> Schema {
        self.schema
    }
}

/// Evaluates queries on an index.
pub struct SearchEngine {
    reader: IndexReader,
    parser: QueryParser,
    schema: Schema,
    layout: Layout,
}

impl SearchEngine {
    /// Parser and reader are for the schema that the engine holds.
    #[verifier::type_invariant]
    closed spec fn valid(&self) -> bool {
        parser_schema(self.parser) == self.schema && reader_schema(self.reader) == self.schema
    }

    /// The query that `text` denotes for the engine, if it denotes one.
    pub closed spec fn query(&self, text: Seq<char>) -> Option<ParsedQuery> {
        parsed(self.parser, text)
    }

    /// Whether `text` is a query that the engine accepts.
    pub open spec fn parses(&self, text: Seq<char>) -> bool {
        self.query(text) is Some
    }

    /// The numbers of the fields in which a query looks where it names none.
    pub closed spec fn default_fields(&self) -> Seq<u16> {
        defaults_of(self.parser)
    }

    /// The numbers of the record fields in the schema of the index.
    pub closed spec fn layout(&self) -> Layout {
        self.layout
    }

    /// The schema of the index.
    pub closed spec fn schema(&self) -> Schema {
        self.schema
    }

    /// Makes what was committed since visible to the queries to come.
    pub fn refresh(&self) -> (r: Result<(), PickerError>)
        ensures
            r matches Err(e) ==> e.kind() == ErrorKind::IndexUnavailable,
    {
        match self.reader.reload() {
            Ok(()) => Ok(()),
            Err(error) => Err(unavailable(&error)),
        }
    }

    /// Parses a query text as it stands.
    pub fn parse(&self, text: &str) -> (r: Result<EngineQuery, PickerError>)
        ensures
            match r {
                Ok(query) => self.query(text@) == Some(query.parsed()) && query.schema()
                    == self.schema(),
                Err(e) => self.query(text@) is None && e.kind() == ErrorKind::QuerySyntax,
            },
    {
        proof {
            use_type_invariant(self);
        }
        match parse_query(&self.parser, text) {
            Ok(parsed) => Ok(EngineQuery { parsed, schema: copy_schema(&self.schema) }),
            Err(error) => Err(PickerError::QuerySyntax(describe_query_error(&error))),
        }
    }

    /// The committed state of the index that is visible by now.
    pub fn snapshot(&self) -> (snapshot: Searcher)
        ensures
            searcher_schema(snapshot) == self.schema(),
    {
        proof {
            use_type_invariant(self);
        }
        self.reader.searcher()
    }

    /// Reads what `snapshot` has stored of the documents at `hits`, one by
    /// one. A document that lacks a record field is a failure of the index.
    fn gather(&self, snapshot: &Searcher, hits: &Vec<(u32, u32)>) -> (r: Result<
        Vec<CharacterRecord>,
        PickerError,
    >)
        requires
            hits@.to_set().subset_of(documents(*snapshot)),
        ensures
            r matches Ok(records) ==> read_from(
                records.deep_view(),
                hits@,
                *snapshot,
                self.layout(),
            ),
            r matches Err(e) ==> e.kind() == ErrorKind::IndexUnavailable,
    {
        let mut records: Vec<CharacterRecord> = Vec::new();
        let mut i: usize = 0;
        while i < hits.len()
            invariant
                i <= hits.len(),
                records.len() == i,
                hits@.to_set().subset_of(documents(*snapshot)),
                read_from(records.deep_view(), hits@.take(i as int), *snapshot, self.layout),
            decreases hits.len() - i,
        {
            assert(hits@.to_set().contains(hits@[i as int]));
            let fields = match stored_fields(snapshot, hits[i], &self.layout) {
                Ok(fields) => fields,
                Err(error) => {
                    return Err(unavailable(&error));
                },
            };
            match assemble(fields) {
                Some(record) => {
                    let ghost before = records.deep_view();
                    records.push(record);
                    assert(records.deep_view() =~= before.push(record.deep_view()));
                },
                None => {
                    return Err(
                        PickerError::IndexUnavailable("a stored record lacks a field".to_owned()),
                    );
                },
            }
            i += 1;
        }
        proof {
            assert(hits@.take(i as int) =~= hits@);
        }
        Ok(records)
    }

    /// The best matches of `query` in `snapshot`, at most `RESULT_LIMIT` of
    /// them, best first: what is stored of the documents that match. A query
    /// that was parsed for another schema than that of `snapshot` is not
    /// searched for.
    pub fn search_in(&self, snapshot: &Searcher, query: &EngineQuery) -> (r: Result<
        Vec<CharacterRecord>,
        PickerError,
    >)
        ensures
            query.schema() != searcher_schema(*snapshot) ==> r is Err,
            r matches Ok(records) ==> records.len() <= RESULT_LIMIT && found_in(
                records.deep_view(),
                *snapshot,
                query.parsed(),
                self.layout(),
            ),
            r matches Err(e) ==> e.kind() == ErrorKind::IndexUnavailable,
    {
        proof {
            use_type_invariant(query);
        }
        if !same_schema(snapshot.schema(), &query.schema) {
            return Err(
                PickerError::IndexUnavailable("the query was parsed for another index".to_owned()),
            );
        }
        let hits = match top_matches(snapshot, &query.parsed, RESULT_LIMIT) {
            Ok(hits) => hits,
            Err(error) => {
                return Err(unavailable(&error));
            },
        };
        match self.gather(snapshot, &hits) {
            Ok(records) => {
                assert(answers(hits@, *snapshot, query.parsed, RESULT_LIMIT as nat));
                assert(records.deep_view().len() == records.len());
                Ok(records)
            },
            Err(error) => Err(error),
        }
    }

    /// The best matches of `query` on what is committed and visible by now.
    /// A query that was parsed for another schema than that of the index is
    /// not searched for.
    pub fn search(&self, query: &EngineQuery) -> (r: Result<Vec<CharacterRecord>, PickerError>)
        ensures
            query.schema() != self.schema() ==> r is Err,
            r matches Ok(records) ==> records.len() <= RESULT_LIMIT && results_of(
                records.deep_view(),
                query.parsed(),
                self.layout(),
            ),
            r matches Err(e) ==> e.kind() == ErrorKind::IndexUnavailable,
    {
        let snapshot = self.snapshot();
        match self.search_in(&snapshot, query) {
            Ok(records) => {
                assert(found_in(records.deep_view(), snapshot, query.parsed(), self.layout()));
                Ok(records)
            },
            Err(error) => Err(error),
        }
    }

    /// Evaluates the query `raw_text`.
    ///
    /// White space at either end does not count. An empty query has no
    /// results. A text that does not parse leaves the results as they are.
    /// Otherwise the results are the best matches, best first.
    pub fn run_query(&self, raw_text: &str) -> (r: Result<QueryOutcome, PickerError>)
        ensures
            trimmed(raw_text@).len() == 0 ==> (r matches Ok(QueryOutcome::Replaced(records))
                && records.len() == 0),
            trimmed(raw_text@).len() > 0 && !self.parses(trimmed(raw_text@)) ==> r matches Ok(
                QueryOutcome::Unchanged,
            ),
            trimmed(raw_text@).len() > 0 && self.parses(trimmed(raw_text@)) ==> ((r matches Ok(
                QueryOutcome::Replaced(records),
            ) && records.len() <= RESULT_LIMIT && results_of(
                records.deep_view(),
                self.query(trimmed(raw_text@)).unwrap(),
                self.layout(),
            )) || (r matches Err(e) && e.kind() == ErrorKind::IndexUnavailable)),
    {
        let text = trim(raw_text);
        if text.is_empty() {
            return Ok(QueryOutcome::Replaced(Vec::new()));
        }
        match self.parse(text) {
            Err(_) => Ok(QueryOutcome::Unchanged),
            Ok(query) => match self.search(&query) {
                Ok(records) => Ok(QueryOutcome::Replaced(records)),
                Err(error) => Err(error),
            },
        }
    }
}

} // verus!
