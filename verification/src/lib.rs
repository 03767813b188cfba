//! Document mapping for a search engine: the contract that every mapping
//! strategy meets, and the strategy that stores a document verbatim under a
//! single field.

pub mod all_flatten_mapper;
pub mod engine;
pub mod error;
pub mod mapper;
pub mod registry;

pub use all_flatten_mapper::AllFlattenDocMapper;
pub use error::{DocParsingError, QueryParserError};
pub use mapper::{CompiledQuery, DocMapper, SearchRequest};
pub use registry::Mapper;
