//! The errors of mapping a text to a document and a search request to a query.

use vstd::prelude::*;

verus! {

/// Why a text could not be turned into a document.
#[derive(Debug, PartialEq, Eq)]
pub enum DocParsingError {
    /// The text is not a JSON object. Holds the start of the text.
    NotJson(String),
    /// The value under a key does not suit the field that the key names.
    /// Holds the field's name and a description of the value.
    ValueError(String, String),
    /// The schema lacks a field that the mapper needs. Holds the field's name.
    NoSuchFieldInSchema(String),
}

/// A `DocParsingError` with its strings as sequences of characters.
pub enum DocParsingErrorView {
    NotJson(Seq<char>),
    ValueError(Seq<char>, Seq<char>),
    NoSuchFieldInSchema(Seq<char>),
}

impl View for DocParsingError {
    type V = DocParsingErrorView;

    open spec fn view(&self) -> DocParsingErrorView {
        match self {
            DocParsingError::NotJson(sample) => DocParsingErrorView::NotJson(sample@),
            DocParsingError::ValueError(field, description) => DocParsingErrorView::ValueError(
                field@,
                description@,
            ),
            DocParsingError::NoSuchFieldInSchema(field) => DocParsingErrorView::NoSuchFieldInSchema(
                field@,
            ),
        }
    }
}

/// Why a search request could not be turned into a query.
#[derive(Debug, PartialEq, Eq)]
pub enum QueryParserError {
    /// The request names a field that the schema lacks. Holds the field's name.
    FieldDoesNotExist(String),
    /// The request searches a field that the schema does not index. Holds the
    /// field's name.
    FieldNotIndexed(String),
}

} // verus!
