//! The full-text index as the picker uses it.
//!
//! Indexing and searching are the work of the `tantivy` crate. This module
//! declares the types of `tantivy` that the picker holds, and states of each
//! call what the picker relies on; everything in it is believed, not proved.

use crate::record::RecordModel;
use tantivy::collector::TopDocs;
use tantivy::query::{Query, QueryParser, QueryParserError};
use tantivy::schema::{Field, Schema, SchemaBuilder, Value, STORED, TEXT};
use tantivy::{DocAddress, Index, IndexReader, IndexWriter, Searcher, TantivyDocument, TantivyError};
use vstd::prelude::*;

verus! {

/// `tantivy::Index`: the handle of an index.
#[verifier::external_type_specification]
#[verifier::external_body]
pub struct ExIndex(Index);

/// `tantivy::IndexReader`: gives out searchers on the committed state.
#[verifier::external_type_specification]
#[verifier::external_body]
pub struct ExIndexReader(IndexReader);

/// `tantivy::Searcher`: one committed state of an index, ready for search.
#[verifier::external_type_specification]
#[verifier::external_body]
pub struct ExSearcher(Searcher);

/// `tantivy::query::QueryParser`.
#[verifier::external_type_specification]
#[verifier::external_body]
pub struct ExQueryParser(QueryParser);

/// `tantivy::query::QueryParserError`: why a query text does not parse.
#[verifier::external_type_specification]
#[verifier::external_body]
pub struct ExQueryParserError(QueryParserError);

/// `tantivy::schema::Schema`: the fields of an index.
#[verifier::external_type_specification]
#[verifier::external_body]
pub struct ExSchema(Schema);

/// `tantivy::schema::SchemaBuilder`: a schema in the making.
#[verifier::external_type_specification]
#[verifier::external_body]
pub struct ExSchemaBuilder(SchemaBuilder);

/// `tantivy::TantivyError`.
#[verifier::external_type_specification]
#[verifier::external_body]
pub struct ExTantivyError(TantivyError);

/// A writer of character records. It holds a `tantivy::IndexWriter`, a type
/// whose parameter is bound by a trait of `tantivy`.
#[verifier::external_body]
pub struct RecordWriter {
    writer: IndexWriter<TantivyDocument>,
}

/// A query that parsed. It holds the `Box<dyn tantivy::query::Query>` that
/// the parser returned.
#[verifier::external_body]
pub struct ParsedQuery {
    query: Box<dyn Query>,
}

/// The numbers that the three fields of a character record have in the
/// schema of an index.
#[derive(Clone, Copy, Debug, PartialEq, Eq, Structural)]
pub struct Layout {
    pub name: u16,
    pub block: u16,
    pub code_point: u16,
}

/// What is stored of one document: the text of the name and block fields,
/// and the number of the code point field, each as far as it is there.
pub struct StoredFields {
    pub name: Option<String>,
    pub block: Option<String>,
    pub code_point: Option<u64>,
}

/// What `StoredFields` stand for.
pub struct StoredModel {
    pub name: Option<Seq<char>>,
    pub block: Option<Seq<char>>,
    pub code_point: Option<u64>,
}

impl DeepView for StoredFields {
    type V = StoredModel;

    open spec fn deep_view(&self) -> StoredModel {
        StoredModel {
            name: self.name.deep_view(),
            block: self.block.deep_view(),
            code_point: self.code_point,
        }
    }
}

/// What a field of a schema holds and what is done with it.
pub enum FieldKind {
    /// Text that is split into words, indexed and stored: the options
    /// `TEXT | STORED` of `tantivy`.
    StoredText,
    /// An unsigned number of 64 bits that is stored and not indexed: the
    /// option `STORED` of `tantivy`.
    StoredNumber,
    /// Anything else.
    Other,
}

/// One field of a schema: its name and its kind.
pub struct FieldModel {
    pub name: Seq<char>,
    pub kind: FieldKind,
}

/// The fields added to `builder` so far, in order.
pub uninterp spec fn declared(builder: SchemaBuilder) -> Seq<FieldModel>;

/// The fields of `schema`, in the order in which they were added. The number
/// of a field is its place in this order.
pub uninterp spec fn fields_of(schema: Schema) -> Seq<FieldModel>;

/// The schema of `index`.
pub uninterp spec fn schema_of(index: Index) -> Schema;

/// The records handed to `writer` and not committed yet, in order.
pub uninterp spec fn queued(writer: RecordWriter) -> Seq<RecordModel>;

/// The records that `writer` has committed to its index, in order.
pub uninterp spec fn committed(writer: RecordWriter) -> Seq<RecordModel>;

/// The memory, in bytes, that `writer` was opened with.
pub uninterp spec fn budget_of(writer: RecordWriter) -> usize;

/// The numbers of the fields in which the queries of `parser` look where
/// they name no field.
pub uninterp spec fn defaults_of(parser: QueryParser) -> Seq<u16>;

/// The query that `text` denotes for `parser`, or `None` where `parser`
/// does not accept `text`. A parser splits text into words as its index
/// does; this holds as long as no tokenizer is registered with the index
/// after the parser was made, and the library registers none.
pub uninterp spec fn parsed(parser: QueryParser, text: Seq<char>) -> Option<ParsedQuery>;

/// The addresses of the documents that `searcher` holds: segment ordinal,
/// then the document's number in the segment.
pub uninterp spec fn documents(searcher: Searcher) -> Set<(u32, u32)>;

/// The addresses of the documents of `searcher` that `query` matches.
pub uninterp spec fn matching(searcher: Searcher, query: ParsedQuery) -> Set<(u32, u32)>;

/// What `searcher` has stored of the document at `address`, read in the
/// fields of `layout`.
pub uninterp spec fn stored(searcher: Searcher, layout: Layout, address: (u32, u32)) -> StoredModel;

/// The schema that `parser` parses for: that of the index it was made for.
pub uninterp spec fn parser_schema(parser: QueryParser) -> Schema;

/// The schema that `query` was parsed for: that of the parser that made it.
pub uninterp spec fn query_schema(query: ParsedQuery) -> Schema;

/// The schema of the index that `reader` reads.
pub uninterp spec fn reader_schema(reader: IndexReader) -> Schema;

/// The schema of the index that `searcher` searches.
pub uninterp spec fn searcher_schema(searcher: Searcher) -> Schema;

/// A field name that `tantivy` takes: not empty, and not starting with `-`.
pub open spec fn valid_field_name(name: Seq<char>) -> bool {
    name.len() > 0 && name[0] != '-'
}

/// Whether none of `fields` is called `name`.
pub open spec fn unused_name(fields: Seq<FieldModel>, name: Seq<char>) -> bool {
    forall|i: int| 0 <= i < fields.len() ==> (#[trigger] fields[i]).name != name
}

/// `Schema::builder`: a builder without fields.
pub assume_specification[ Schema::builder ]() -> (builder: SchemaBuilder)
    ensures
        declared(builder) == Seq::<FieldModel>::empty(),
;

/// `SchemaBuilder::add_text_field` with the options `TEXT | STORED`: adds a
/// field whose text is split into words, indexed and stored. The call stops
/// the program on a name that is not valid or was added before.
#[verifier::external_body]
pub(crate) fn add_text_field(builder: &mut SchemaBuilder, name: &str)
    requires
        valid_field_name(name@),
        unused_name(declared(*old(builder)), name@),
    ensures
        declared(*final(builder)) == declared(*old(builder)).push(
            FieldModel { name: name@, kind: FieldKind::StoredText },
        ),
{
    builder.add_text_field(name, TEXT | STORED);
}

/// `SchemaBuilder::add_u64_field` with the option `STORED`: adds a field
/// whose number is stored and not indexed. The call stops the program on a
/// name that is not valid or was added before.
#[verifier::external_body]
pub(crate) fn add_number_field(builder: &mut SchemaBuilder, name: &str)
    requires
        valid_field_name(name@),
        unused_name(declared(*old(builder)), name@),
    ensures
        declared(*final(builder)) == declared(*old(builder)).push(
            FieldModel { name: name@, kind: FieldKind::StoredNumber },
        ),
{
    builder.add_u64_field(name, STORED);
}

/// `SchemaBuilder::build`: the schema with the fields that were added.
pub assume_specification[ SchemaBuilder::build ](builder: SchemaBuilder) -> (schema: Schema)
    ensures
        fields_of(schema) == declared(builder),
;

/// `Index::schema`: a copy of the schema of the index.
pub assume_specification[ Index::schema ](index: &Index) -> (schema: Schema)
    ensures
        schema == schema_of(*index),
;

/// `Schema::get_field`, then `Field::field_id`: the number of the field with
/// the given name, which is its place among the fields of the schema, or
/// `None` where no field has the name. No two fields of a schema have one
/// name.
#[verifier::external_body]
pub(crate) fn find_field(schema: &Schema, name: &str) -> (number: Option<u32>)
    ensures
        number matches Some(n) ==> {
            &&& n < fields_of(*schema).len()
            &&& fields_of(*schema)[n as int].name == name@
            &&& forall|k: int|
                0 <= k < fields_of(*schema).len() && (#[trigger] fields_of(*schema)[k]).name
                    == name@ ==> k == n
        },
        number is None ==> unused_name(fields_of(*schema), name@),
{
    schema.get_field(name).ok().map(|field| field.field_id())
}

/// `Index::writer`: a writer with the given memory budget in bytes, to which
/// nothing has been handed yet.
#[verifier::external_body]
pub(crate) fn open_writer(index: &Index, budget: usize) -> (r: Result<RecordWriter, TantivyError>)
    ensures
        r matches Ok(writer) ==> {
            &&& budget_of(writer) == budget
            &&& queued(writer) == Seq::<RecordModel>::empty()
            &&& committed(writer) == Seq::<RecordModel>::empty()
        },
{
    Ok(RecordWriter { writer: index.writer(budget)? })
}

/// `IndexWriter::add_document`, on a document with the name and the block as
/// text and the code point as a number in the fields that `layout` numbers:
/// where it succeeds, the record is the last of those handed to the writer.
#[verifier::external_body]
pub(crate) fn queue_record(
    writer: &mut RecordWriter,
    layout: &Layout,
    name: &str,
    block: &str,
    code_point: u64,
) -> (r: Result<(), TantivyError>)
    ensures
        r is Ok ==> queued(*final(writer)) == queued(*old(writer)).push(
            RecordModel { name: name@, block: block@, code_point },
        ) && committed(*final(writer)) == committed(*old(writer)),
{
    let mut document = TantivyDocument::default();
    document.add_text(Field::from_field_id(layout.block.into()), block);
    document.add_u64(Field::from_field_id(layout.code_point.into()), code_point);
    document.add_text(Field::from_field_id(layout.name.into()), name);
    writer.writer.add_document(document)?;
    Ok(())
}

/// `IndexWriter::commit`: where it succeeds, all that was handed to the
/// writer is part of the index, and nothing is left to commit.
#[verifier::external_body]
pub(crate) fn commit(writer: &mut RecordWriter) -> (r: Result<(), TantivyError>)
    ensures
        r is Ok ==> committed(*final(writer)) == committed(*old(writer)) + queued(*old(writer))
            && queued(*final(writer)) == Seq::<RecordModel>::empty(),
{
    writer.writer.commit()?;
    Ok(())
}

/// `Index::reader`: a reader of the index, with the default settings.
pub assume_specification[ Index::reader ](index: &Index) -> (r: Result<
    IndexReader,
    TantivyError,
>)
    ensures
        r matches Ok(reader) ==> reader_schema(reader) == schema_of(*index),
;

/// `IndexReader::reload`: makes what was committed since visible to the
/// searchers that the reader gives out from now on.
pub assume_specification[ IndexReader::reload ](reader: &IndexReader) -> (r: Result<
    (),
    TantivyError,
>);

/// `IndexReader::searcher`: a searcher on the state that the reader loaded
/// last. Whatever was loaded, the schema is that of the reader's index.
pub assume_specification[ IndexReader::searcher ](reader: &IndexReader) -> (searcher: Searcher)
    ensures
        searcher_schema(searcher) == reader_schema(*reader),
;

/// `Searcher::schema`: the schema of the index that the searcher searches.
pub assume_specification<'a>[ Searcher::schema ](searcher: &'a Searcher) -> (schema: &'a Schema)
    ensures
        *schema == searcher_schema(*searcher),
;

/// `PartialEq` of `Schema`: whether two schemas have the same fields, each
/// with the same name, kind and options, in the same order. A schema is
/// nothing but its fields.
#[verifier::external_body]
pub(crate) fn same_schema(one: &Schema, other: &Schema) -> (same: bool)
    ensures
        same == (*one == *other),
{
    one == other
}

/// `Clone` of `Schema`: a schema with the same fields.
#[verifier::external_body]
pub(crate) fn copy_schema(schema: &Schema) -> (copy: Schema)
    ensures
        copy == *schema,
{
    schema.clone()
}

/// `QueryParser::for_index`: a parser for the index whose queries look in
/// the fields with the numbers `default_fields` where they name no field.
/// The parser stops the program when it looks in a field that the schema of
/// the index does not have.
#[verifier::external_body]
pub(crate) fn make_parser(index: &Index, default_fields: &Vec<u16>) -> (parser: QueryParser)
    requires
        forall|i: int|
            0 <= i < default_fields@.len() ==> (#[trigger] default_fields@[i]) < fields_of(
                schema_of(*index),
            ).len(),
    ensures
        defaults_of(parser) == default_fields@,
        parser_schema(parser) == schema_of(*index),
{
    let fields = default_fields.iter().map(|number| Field::from_field_id((*number).into()));
    QueryParser::for_index(index, fields.collect())
}

/// `QueryParser::parse_query`: the query that `text` denotes, or why it
/// denotes none. The query names fields by their numbers in the schema of
/// the parser.
#[verifier::external_body]
pub(crate) fn parse_query(parser: &QueryParser, text: &str) -> (r: Result<
    ParsedQuery,
    QueryParserError,
>)
    ensures
        r.ok() == parsed(*parser, text@),
        r matches Ok(query) ==> query_schema(query) == parser_schema(*parser),
{
    Ok(ParsedQuery { query: parser.parse_query(text)? })
}

/// `Searcher::search` with the collector `TopDocs::with_limit(limit)`,
/// ordered by score: the addresses of the `limit` best documents that match
/// the query, best first, or of all that match where these are fewer. No
/// address comes twice. A limit of zero stops the program, and room for
/// `limit` hits is set aside in every segment before the search, so the
/// limit is kept small. A query looks its fields up by number in the schema
/// of the searcher, which stops the program where the schema has no field of
/// that number; so the query is to be one that was parsed for that schema.
#[verifier::external_body]
pub(crate) fn top_matches(searcher: &Searcher, query: &ParsedQuery, limit: usize) -> (r: Result<
    Vec<(u32, u32)>,
    TantivyError,
>)
    requires
        1 <= limit <= u16::MAX,
        query_schema(*query) == searcher_schema(*searcher),
    ensures
        r matches Ok(hits) ==> {
            &&& hits@.len() <= limit
            &&& hits@.no_duplicates()
            &&& hits@.to_set().subset_of(documents(*searcher))
            &&& hits@.to_set().subset_of(matching(*searcher, *query))
            &&& hits@.len() < limit ==> matching(*searcher, *query).subset_of(hits@.to_set())
        },
{
    let collector = TopDocs::with_limit(limit).order_by_score();
    let found = searcher.search(query.query.as_ref(), &collector)?;
    Ok(found.into_iter().map(|hit| (hit.1.segment_ord, hit.1.doc_id)).collect())
}

/// `Searcher::doc`: what is stored of the document at `address`, read in the
/// fields of `layout`. An address that the searcher does not hold stops the
/// program.
#[verifier::external_body]
pub(crate) fn stored_fields(
    searcher: &Searcher,
    address: (u32, u32),
    layout: &Layout,
) -> (r: Result<StoredFields, TantivyError>)
    requires
        documents(*searcher).contains(address),
    ensures
        r matches Ok(fields) ==> fields.deep_view() == stored(*searcher, *layout, address),
{
    let document: TantivyDocument = searcher.doc(DocAddress::new(address.0, address.1))?;
    let first = |number: u16| document.get_first(Field::from_field_id(number.into()));
    Ok(
        StoredFields {
            name: first(layout.name).and_then(|v| v.as_str().map(String::from)),
            block: first(layout.block).and_then(|v| v.as_str().map(String::from)),
            code_point: first(layout.code_point).and_then(|v| v.as_u64()),
        },
    )
}

/// `Display` of `TantivyError`: the error in words.
#[verifier::external_body]
pub(crate) fn describe_failure(error: &TantivyError) -> (text: String) {
    error.to_string()
}

/// `Display` of `QueryParserError`: the error in words.
#[verifier::external_body]
pub(crate) fn describe_query_error(error: &QueryParserError) -> (text: String) {
    error.to_string()
}

} // verus!
