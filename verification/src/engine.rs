//! The search engine's schema and document types, and the calls that this
//! crate makes into the engine.
//!
//! Nothing in this module is proved. A schema and a document are opaque here:
//! the contracts speak of them through `schema_fields`, `builder_fields` and
//! `document_entries`, and each contract states what the engine's source shows
//! of the function it names.

use crate::error::{DocParsingError, DocParsingErrorView};
use tantivy::schema::{Field, Schema, SchemaBuilder, STORED};
use tantivy::Document;
use vstd::prelude::*;

verus! {

/// The kind of value that a field takes.
pub enum FieldKind {
    Text,
    U64,
    I64,
    F64,
    Bool,
    Date,
    Facet,
    Bytes,
    JsonObject,
    IpAddr,
}

/// What a schema says of one field.
pub struct FieldModel {
    /// The field's name.
    pub name: Seq<char>,
    /// The kind of value it takes.
    pub kind: FieldKind,
    /// Whether its values can be retrieved from the index.
    pub stored: bool,
    /// Whether its values can be searched.
    pub indexed: bool,
}

/// One value of a document.
pub struct DocEntry {
    /// The id of the field that the value belongs to.
    pub field: u32,
    /// The value's text, where the value is a plain string.
    pub text: Option<Seq<char>>,
}

/// The engine's `Schema`. What it holds is known only as `schema_fields`.
#[verifier::external_type_specification]
#[verifier::external_body]
pub struct ExSchema(Schema);

/// The engine's `SchemaBuilder`. What it holds is known only as
/// `builder_fields`.
#[verifier::external_type_specification]
#[verifier::external_body]
pub struct ExSchemaBuilder(SchemaBuilder);

/// The engine's `Document`. What it holds is known only as
/// `document_entries`.
#[verifier::external_type_specification]
#[verifier::external_body]
pub struct ExDocument(Document);

/// The fields of a schema, in the order of their ids: the field with id `i`
/// is at index `i`.
pub uninterp spec fn schema_fields(schema: Schema) -> Seq<FieldModel>;

/// The fields added to a schema builder so far, in the order in which they
/// were added.
pub uninterp spec fn builder_fields(builder: SchemaBuilder) -> Seq<FieldModel>;

/// The values of a document, in the order in which they were added.
pub uninterp spec fn document_entries(doc: Document) -> Seq<DocEntry>;

/// What `Schema::parse_document` makes of a text, for a schema with the given
/// fields: the values of the document, or the error.
pub uninterp spec fn parse_outcome(fields: Seq<FieldModel>, json: Seq<char>) -> Result<
    Seq<DocEntry>,
    DocParsingErrorView,
>;

/// The start of a text that an error about the text holds: its first 20
/// characters, or all of it where it is shorter.
pub open spec fn json_sample(json: Seq<char>) -> Seq<char> {
    if json.len() <= 20 {
        json
    } else {
        json.subrange(0, 20)
    }
}

/// Whether one of the fields has the given name.
pub open spec fn has_field_named(fields: Seq<FieldModel>, name: Seq<char>) -> bool {
    exists|i: int| 0 <= i < fields.len() && (#[trigger] fields[i]).name == name
}

/// Whether every one of the fields takes text.
pub open spec fn all_text(fields: Seq<FieldModel>) -> bool {
    forall|i: int| 0 <= i < fields.len() ==> (#[trigger] fields[i]).kind == FieldKind::Text
}

/// Whether every value belongs to a field with an id below `num_fields`.
pub open spec fn entries_within(entries: Seq<DocEntry>, num_fields: nat) -> bool {
    forall|i: int| 0 <= i < entries.len() ==> (#[trigger] entries[i]).field < num_fields
}

/// What a result that holds a document holds for the contracts: the
/// document's values, or the error's view.
pub open spec fn document_result_view(res: Result<Document, DocParsingError>) -> Result<
    Seq<DocEntry>,
    DocParsingErrorView,
> {
    match res {
        Ok(doc) => Ok(document_entries(doc)),
        Err(e) => Err(e@),
    }
}

/// `SchemaBuilder::new` returns a builder without fields.
pub assume_specification[ SchemaBuilder::new ]() -> (builder: SchemaBuilder)
    ensures
        builder_fields(builder) == Seq::<FieldModel>::empty(),
;

/// `SchemaBuilder::build` returns a schema with the builder's fields, each
/// under the id that the builder gave it.
pub assume_specification[ SchemaBuilder::build ](builder: SchemaBuilder) -> (schema: Schema)
    ensures
        schema_fields(schema) == builder_fields(builder),
;

/// `Schema::clone` returns a schema with the fields of the one cloned.
pub assume_specification[ <Schema as Clone>::clone ](schema: &Schema) -> (res: Schema)
    ensures
        schema_fields(res) == schema_fields(*schema),
;

/// `SchemaBuilder::add_text_field`, called with the flag `STORED`: adds a
/// text field that is stored and not indexed, and returns its id, which is
/// the number of fields added before it. The engine panics on an empty name,
/// on a name that starts with `-` and on a name that the builder already
/// holds.
#[verifier::external_body]
pub(crate) fn add_stored_text_field(builder: &mut SchemaBuilder, name: &str) -> (id: u32)
    requires
        name@.len() > 0,
        name@[0] != '-',
        !has_field_named(builder_fields(*old(builder)), name@),
        builder_fields(*old(builder)).len() < u32::MAX,
    ensures
        id == builder_fields(*old(builder)).len(),
        builder_fields(*final(builder)) == builder_fields(*old(builder)).push(
            FieldModel { name: name@, kind: FieldKind::Text, stored: true, indexed: false },
        ),
{
    builder.add_text_field(name, STORED).field_id()
}

/// `Schema::get_field`: the id of the field with the given name, or `None`
/// where the schema has no field of that name.
#[verifier::external_body]
pub(crate) fn schema_get_field(schema: &Schema, name: &str) -> (found: Option<u32>)
    ensures
        match found {
            Some(id) => id < schema_fields(*schema).len() && schema_fields(*schema)[id as int].name
                == name@,
            None => !has_field_named(schema_fields(*schema), name@),
        },
{
    match schema.get_field(name) {
        Some(field) => Some(field.field_id()),
        None => None,
    }
}

/// `Schema::parse_document`: reads the text as a JSON object and makes a
/// document of the values under the keys that name a field; other keys are
/// passed over. The engine's two errors become `NotJson`, with the start of
/// the text, and `ValueError`, with the name of the field and the engine's
/// description of the value. The contract is stated for a schema of text
/// fields: for a facet field the engine panics on a value that is no facet
/// path.
#[verifier::external_body]
pub(crate) fn schema_parse_document(schema: &Schema, doc_json: &str) -> (res: Result<
    Document,
    DocParsingError,
>)
    requires
        all_text(schema_fields(*schema)),
    ensures
        document_result_view(res) == parse_outcome(schema_fields(*schema), doc_json@),
        match res {
            Ok(doc) => entries_within(document_entries(doc), schema_fields(*schema).len()),
            Err(DocParsingError::NotJson(sample)) => sample@ == json_sample(doc_json@),
            Err(DocParsingError::ValueError(field, _)) => has_field_named(
                schema_fields(*schema),
                field@,
            ),
            Err(DocParsingError::NoSuchFieldInSchema(_)) => false,
        },
{
    match schema.parse_document(doc_json) {
        Ok(doc) => Ok(doc),
        Err(tantivy::schema::DocParsingError::InvalidJson(sample)) => Err(
            DocParsingError::NotJson(sample),
        ),
        Err(tantivy::schema::DocParsingError::ValueError(field, error)) => Err(
            DocParsingError::ValueError(field, format!("{:?}", error)),
        ),
    }
}

/// `Document::add_text`: adds the text, as a plain string, as the last value
/// of the document, under the field with the given id.
#[verifier::external_body]
pub(crate) fn document_add_text(doc: &mut Document, field: u32, text: &str)
    ensures
        document_entries(*final(doc)) == document_entries(*old(doc)).push(
            DocEntry { field, text: Some(text@) },
        ),
{
    doc.add_text(Field::from_field_id(field), text)
}

} // verus!
