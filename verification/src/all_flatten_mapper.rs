//! The mapper that stores a document verbatim: its schema has the one field
//! `_source`, and a document holds the whole text under it.

use crate::engine::{
    add_stored_text_field, document_add_text, document_entries, document_result_view,
    json_sample, parse_outcome, schema_fields, schema_get_field, schema_parse_document,
    DocEntry, FieldKind, FieldModel,
};
use crate::error::{DocParsingError, DocParsingErrorView, QueryParserError};
use crate::mapper::{CompiledQuery, DocMapper, SearchRequest};
use tantivy::schema::{Schema, SchemaBuilder};
use tantivy::Document;
use vstd::prelude::*;

verus! {

/// The name of the field that holds the text of a document.
pub const SOURCE_FIELD_NAME: &'static str = "_source";

/// The fields of the schema of an `AllFlattenDocMapper`: the one stored text
/// field `_source`, which is not indexed.
pub open spec fn source_only_fields() -> Seq<FieldModel> {
    seq![
        FieldModel {
            name: SOURCE_FIELD_NAME@,
            kind: FieldKind::Text,
            stored: true,
            indexed: false,
        },
    ]
}

/// A mapper that stores the whole text of a document under the field
/// `_source`, and takes no configuration.
#[derive(Debug)]
pub struct AllFlattenDocMapper {
    schema: Schema,
}

impl AllFlattenDocMapper {
    /// The schema has the one field `_source`. This holds of every mapper.
    #[verifier::type_invariant]
    pub open spec fn wf(&self) -> bool {
        self.schema_model() == source_only_fields()
    }

    /// Creates new instance of all flatten mapper
    pub fn new() -> (mapper: Self)
        ensures
            mapper.schema_model() == source_only_fields(),
    {
        AllFlattenDocMapper { schema: AllFlattenDocMapper::default_schema() }
    }

    fn default_schema() -> (schema: Schema)
        ensures
            schema_fields(schema) == source_only_fields(),
    {
        let mut schema_builder = SchemaBuilder::new();
        proof {
            reveal_strlit("_source");
        }
        add_stored_text_field(&mut schema_builder, SOURCE_FIELD_NAME);
        schema_builder.build()
    }
}

impl Default for AllFlattenDocMapper {
    fn default() -> (mapper: Self)
        ensures
            mapper.schema_model() == source_only_fields(),
    {
        AllFlattenDocMapper::new()
    }
}

impl Clone for AllFlattenDocMapper {
    fn clone(&self) -> (mapper: Self)
        ensures
            mapper.schema_model() == self.schema_model(),
    {
        proof {
            use_type_invariant(self);
        }
        AllFlattenDocMapper { schema: self.schema.clone() }
    }
}

/// Two mappers have the same schema and make the same of every text: a mapper
/// takes no configuration, so nothing tells one from another.
pub proof fn lemma_mappers_agree(
    first: AllFlattenDocMapper,
    second: AllFlattenDocMapper,
    doc_json: Seq<char>,
)
    requires
        first.wf(),
        second.wf(),
    ensures
        first.schema_model() == second.schema_model(),
        first.mapping(doc_json) == second.mapping(doc_json),
{
}

/// The field to store the text under, from what the schema holds under the
/// name `_source`: the field's id, or the error that names `_source` where the
/// schema lacks it.
pub fn resolve_source_field(found: Option<u32>) -> (res: Result<u32, DocParsingError>)
    ensures
        match found {
            Some(id) => res == Ok::<u32, DocParsingError>(id),
            None => res matches Err(DocParsingError::NoSuchFieldInSchema(name)) && name@
                == SOURCE_FIELD_NAME@,
        },
{
    match found {
        Some(id) => Ok(id),
        None => Err(DocParsingError::NoSuchFieldInSchema(SOURCE_FIELD_NAME.to_owned())),
    }
}

/// What storing a text under a field makes of a parsed document: the text
/// becomes the last value of the document, and an error stays as it is.
pub open spec fn stored(
    parsed: Result<Seq<DocEntry>, DocParsingErrorView>,
    source: u32,
    doc_json: Seq<char>,
) -> Result<Seq<DocEntry>, DocParsingErrorView> {
    match parsed {
        Ok(entries) => Ok(entries.push(DocEntry { field: source, text: Some(doc_json) })),
        Err(e) => Err(e),
    }
}

/// Stores the text, unchanged, as the last value of a parsed document, under
/// the field with the id `source`. Where parsing failed, returns the error.
pub fn store_source(parsed: Result<Document, DocParsingError>, source: u32, doc_json: &str) -> (res:
    Result<Document, DocParsingError>)
    ensures
        document_result_view(res) == stored(document_result_view(parsed), source, doc_json@),
        parsed is Err ==> res == parsed,
{
    match parsed {
        Ok(mut document) => {
            document_add_text(&mut document, source, doc_json);
            Ok(document)
        },
        Err(e) => Err(e),
    }
}

/// What an `AllFlattenDocMapper` answers to a search for the given fields:
/// the first of them that is not `_source` does not exist; where there is
/// none, `_source` is not indexed.
pub open spec fn rejected(
    search_fields: Seq<String>,
    res: Result<CompiledQuery, QueryParserError>,
) -> bool {
    match res {
        Ok(_) => false,
        Err(QueryParserError::FieldDoesNotExist(name)) => exists|i: int|
            0 <= i < search_fields.len() && (#[trigger] search_fields[i])@ == name@ && name@
                != SOURCE_FIELD_NAME@ && forall|j: int|
                0 <= j < i ==> (#[trigger] search_fields[j])@ == SOURCE_FIELD_NAME@,
        Err(QueryParserError::FieldNotIndexed(name)) => name@ == SOURCE_FIELD_NAME@ && forall|
            j: int,
        | 0 <= j < search_fields.len() ==> (#[trigger] search_fields[j])@ == SOURCE_FIELD_NAME@,
    }
}

impl DocMapper for AllFlattenDocMapper {
    closed spec fn schema_model(&self) -> Seq<FieldModel> {
        schema_fields(self.schema)
    }

    /// The values that the engine reads from the text, and after them the
    /// whole text under `_source`.
    open spec fn mapping(&self, doc_json: Seq<char>) -> Result<Seq<DocEntry>, DocParsingErrorView> {
        stored(parse_outcome(self.schema_model(), doc_json), 0, doc_json)
    }

    /// Succeeds on the texts that the engine reads as a document of the
    /// schema, and on no others. The document then ends with the whole text,
    /// under `_source`. An error is about the text: it holds the start of a
    /// text that is not a JSON object, or names `_source` where the value
    /// under that key is not text.
    fn doc_from_json(&self, doc_json: &str) -> (res: Result<Document, DocParsingError>)
        ensures
            res is Ok <==> parse_outcome(source_only_fields(), doc_json@) is Ok,
            res matches Ok(doc) ==> document_entries(doc).len() > 0 && document_entries(
                doc,
            ).last() == (DocEntry { field: 0, text: Some(doc_json@) }),
            res matches Err(e) ==> match e {
                DocParsingError::NotJson(sample) => sample@ == json_sample(doc_json@),
                DocParsingError::ValueError(field, _) => field@ == SOURCE_FIELD_NAME@,
                DocParsingError::NoSuchFieldInSchema(_) => false,
            },
    {
        proof {
            use_type_invariant(self);
            assert(source_only_fields()[0].name == SOURCE_FIELD_NAME@);
        }
        let source = match resolve_source_field(schema_get_field(&self.schema, SOURCE_FIELD_NAME)) {
            Ok(source) => source,
            Err(e) => { return Err(e); },
        };
        let parsed = schema_parse_document(&self.schema, doc_json);
        store_source(parsed, source, doc_json)
    }

    /// Rejects every request: the schema has no field that is indexed. The
    /// error names the first field of the request that the schema lacks, or
    /// `_source`.
    fn query(&self, request: &SearchRequest) -> (res: Result<CompiledQuery, QueryParserError>)
        ensures
            rejected(request.search_fields@, res),
    {
        let source = SOURCE_FIELD_NAME.to_owned();
        let mut i: usize = 0;
        while i < request.search_fields.len()
            invariant
                i <= request.search_fields.len(),
                source@ == SOURCE_FIELD_NAME@,
                forall|j: int|
                    0 <= j < i ==> (#[trigger] request.search_fields@[j])@ == SOURCE_FIELD_NAME@,
            decreases request.search_fields.len() - i,
        {
            if !(request.search_fields[i] == source) {
                return Err(QueryParserError::FieldDoesNotExist(request.search_fields[i].clone()));
            }
            i += 1;
        }
        Err(QueryParserError::FieldNotIndexed(source))
    }

    /// A copy of the schema: the one stored field `_source`.
    fn schema(&self) -> (schema: Schema)
        ensures
            schema_fields(schema) == source_only_fields(),
    {
        proof {
            use_type_invariant(self);
        }
        self.schema.clone()
    }
}

} // verus!
