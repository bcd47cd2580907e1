//! Typed mappings for Elasticsearch string fields, and the sparse documents
//! that describe them to the index-creation API.

pub mod completion;
pub mod document;
pub mod field;
pub mod fields;
pub mod keyword;
pub mod mapping;
pub mod options;
pub mod strings;
pub mod text;
pub mod token_count;
pub mod value;

pub use completion::{
    ElasticCompletionFieldMapping, COMPLETION_DATATYPE, DEFAULT_MAX_INPUT_LENGTH,
};
pub use document::{Document, Entry, Param};
pub use field::ElasticStringField;
pub use fields::{MultiFieldMap, SubField};
pub use keyword::{KeywordFieldMapping, KEYWORD_DATATYPE};
pub use mapping::{DefaultStringMapping, TextMapping, DEFAULT_IGNORE_ABOVE, DEFAULT_SUBFIELD};
pub use options::{IndexAnalysis, IndexOptions};
pub use text::{TextFieldMapping, TEXT_DATATYPE};
pub use token_count::{ElasticTokenCountFieldMapping, TOKENCOUNT_DATATYPE};
pub use value::{Float32, Value};
