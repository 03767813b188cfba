//! The mapping strategies that a configuration can name, and the choice of
//! one by its tag.

use crate::all_flatten_mapper::{rejected, source_only_fields, AllFlattenDocMapper};
use crate::engine::{DocEntry, FieldModel};
use crate::error::{DocParsingError, DocParsingErrorView, QueryParserError};
use crate::mapper::{CompiledQuery, DocMapper, SearchRequest};
use tantivy::schema::Schema;
use tantivy::Document;
use vstd::prelude::*;

verus! {

/// The tag that names the `AllFlattenDocMapper`.
pub const ALL_FLATTEN_TAG: &'static str = "all_flatten";

/// A mapper of one of the strategies that a configuration can name.
pub enum Mapper {
    AllFlatten(AllFlattenDocMapper),
}

impl Mapper {
    /// The mapper of the strategy that the tag names, made from no
    /// parameters; `None` where the tag names no strategy.
    pub fn from_tag(tag: &str) -> (res: Option<Mapper>)
        ensures
            res is Some <==> tag@ == ALL_FLATTEN_TAG@,
            res matches Some(mapper) ==> mapper is AllFlatten && mapper.schema_model()
                == source_only_fields(),
    {
        if tag.to_owned() == ALL_FLATTEN_TAG.to_owned() {
            Some(Mapper::AllFlatten(AllFlattenDocMapper::new()))
        } else {
            None
        }
    }
}

impl DocMapper for Mapper {
    open spec fn schema_model(&self) -> Seq<FieldModel> {
        match self {
            Mapper::AllFlatten(mapper) => mapper.schema_model(),
        }
    }

    open spec fn mapping(&self, doc_json: Seq<char>) -> Result<Seq<DocEntry>, DocParsingErrorView> {
        match self {
            Mapper::AllFlatten(mapper) => mapper.mapping(doc_json),
        }
    }

    fn doc_from_json(&self, doc_json: &str) -> (res: Result<Document, DocParsingError>) {
        match self {
            Mapper::AllFlatten(mapper) => mapper.doc_from_json(doc_json),
        }
    }

    fn query(&self, request: &SearchRequest) -> (res: Result<CompiledQuery, QueryParserError>)
        ensures
            match self {
                Mapper::AllFlatten(_) => rejected(request.search_fields@, res),
            },
    {
        match self {
            Mapper::AllFlatten(mapper) => mapper.query(request),
        }
    }

    fn schema(&self) -> (schema: Schema) {
        match self {
            Mapper::AllFlatten(mapper) => mapper.schema(),
        }
    }
}

} // verus!
