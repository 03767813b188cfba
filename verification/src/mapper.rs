//! The contract between a mapping strategy and the subsystems that index and
//! search: a mapper turns a text into a document of its schema, and a search
//! request into a query over that schema.

use crate::engine::{
    document_entries, document_result_view, entries_within, schema_fields, DocEntry, FieldModel,
};
use crate::error::{DocParsingError, DocParsingErrorView, QueryParserError};
use tantivy::schema::Schema;
use tantivy::Document;
use vstd::prelude::*;

verus! {

/// What a user searches for.
pub struct SearchRequest {
    /// The index to search.
    pub index_id: String,
    /// The query, as the user typed it.
    pub query: String,
    /// The fields to search where the query names none.
    pub search_fields: Vec<String>,
    /// The earliest timestamp of a hit, if any.
    pub start_timestamp: Option<i64>,
    /// The latest timestamp of a hit, if any.
    pub end_timestamp: Option<i64>,
    /// The number of hits to return.
    pub max_hits: u64,
    /// The number of hits to pass over before the first one returned.
    pub start_offset: u64,
}

/// A query over a schema, in the form that the engine's queries are built
/// from.
pub enum CompiledQuery {
    /// Matches every document.
    All,
    /// Matches the documents that hold the text in the field with the id.
    Term { field: u32, text: String },
}

impl CompiledQuery {
    /// Whether the query names only fields with an id below `num_fields`.
    pub open spec fn within(&self, num_fields: nat) -> bool {
        match self {
            CompiledQuery::All => true,
            CompiledQuery::Term { field, .. } => *field < num_fields,
        }
    }
}

/// A mapping strategy. A mapper is made once and never changes: what it
/// returns depends on its arguments and on the configuration that it was made
/// from, and on nothing else.
pub trait DocMapper {
    /// The fields of the mapper's schema.
    spec fn schema_model(&self) -> Seq<FieldModel>;

    /// What the mapper makes of a text: the values of the document, or the
    /// error.
    spec fn mapping(&self, doc_json: Seq<char>) -> Result<Seq<DocEntry>, DocParsingErrorView>;

    /// Turns a text into a document. The result is `mapping` of the text, and
    /// a document holds values only for fields of the mapper's schema.
    fn doc_from_json(&self, doc_json: &str) -> (res: Result<Document, DocParsingError>)
        ensures
            document_result_view(res) == self.mapping(doc_json@),
            res matches Ok(doc) ==> entries_within(
                document_entries(doc),
                self.schema_model().len(),
            ),
    ;

    /// Turns a search request into a query, which names only fields of the
    /// mapper's schema.
    fn query(&self, request: &SearchRequest) -> (res: Result<CompiledQuery, QueryParserError>)
        ensures
            res matches Ok(query) ==> query.within(self.schema_model().len()),
    ;

    /// A copy of the mapper's schema.
    fn schema(&self) -> (schema: Schema)
        ensures
            schema_fields(schema) == self.schema_model(),
    ;
}

} // verus!
