//! The mapping of a `text` sub-field.

use crate::document::{
    document_of, keys_unique, lemma_keys_unique, params_view, type_entry, well_declared, Document,
    EntryView, Param, ParamView, TYPE_KEY,
};
use crate::options::{index_options_value, index_options_view, IndexOptions};
use crate::value::{bool_value, bool_view, str_value, str_view, unsigned_value, unsigned_view};
use vstd::prelude::*;

verus! {

/// Elasticsearch datatype name.
pub const TEXT_DATATYPE: &'static str = "text";

/// A multi-field string mapping for full text: a value that is analysed
/// into terms before it is indexed.
#[derive(Debug, Clone, Copy)]
pub struct TextFieldMapping {
    /// The analyzer which should be used for analyzed string fields,
    /// both at index-time and at search-time (unless overridden by the `search_analyzer`).
    pub analyzer: Option<&'static str>,
    /// Should global ordinals be loaded eagerly on refresh?
    pub eager_global_ordinals: Option<bool>,
    /// Can the field use in-memory fielddata for sorting, aggregations, or scripting?
    pub fielddata: Option<bool>,
    /// Whether or not the field value should be included in the `_all` field?
    pub include_in_all: Option<bool>,
    /// Do not index any string longer than this value.
    pub ignore_above: Option<u32>,
    /// Should the field be searchable?
    pub index: Option<bool>,
    /// What information should be stored in the index, for search and highlighting purposes.
    pub index_options: Option<IndexOptions>,
    /// Whether field-length should be taken into account when scoring queries.
    pub norms: Option<bool>,
    /// The number of fake term positions which should be inserted between
    /// each element of an array of strings.
    pub position_increment_gap: Option<u32>,
    /// Whether the field value should be stored and retrievable separately from the `_source` field.
    pub store: Option<bool>,
    /// The analyzer that should be used at search time on analyzed fields.
    pub search_analyzer: Option<&'static str>,
    /// The analyzer that should be used at search time when a phrase is encountered.
    pub search_quote_analyzer: Option<&'static str>,
    /// Which scoring algorithm or similarity should be used.
    pub similarity: Option<&'static str>,
}

impl Default for TextFieldMapping {
    /// The mapping with no parameter set.
    fn default() -> (mapping: Self)
        ensures
            mapping == TextFieldMapping::unset(),
    {
        TextFieldMapping {
            analyzer: None,
            eager_global_ordinals: None,
            fielddata: None,
            include_in_all: None,
            ignore_above: None,
            index: None,
            index_options: None,
            norms: None,
            position_increment_gap: None,
            store: None,
            search_analyzer: None,
            search_quote_analyzer: None,
            similarity: None,
        }
    }
}

impl TextFieldMapping {
    /// The mapping with no parameter set.
    pub open spec fn unset() -> TextFieldMapping {
        TextFieldMapping {
            analyzer: None,
            eager_global_ordinals: None,
            fielddata: None,
            include_in_all: None,
            ignore_above: None,
            index: None,
            index_options: None,
            norms: None,
            position_increment_gap: None,
            store: None,
            search_analyzer: None,
            search_quote_analyzer: None,
            similarity: None,
        }
    }

    /// The parameters of the mapping, in declared order, each with the value
    /// it was given, if any.
    pub open spec fn declared(&self) -> Seq<ParamView> {
        seq![
            ParamView { key: "analyzer"@, value: str_view(self.analyzer) },
            ParamView { key: "eager_global_ordinals"@, value: bool_view(self.eager_global_ordinals) },
            ParamView { key: "fielddata"@, value: bool_view(self.fielddata) },
            ParamView { key: "include_in_all"@, value: bool_view(self.include_in_all) },
            ParamView { key: "ignore_above"@, value: unsigned_view(self.ignore_above) },
            ParamView { key: "index"@, value: bool_view(self.index) },
            ParamView { key: "index_options"@, value: index_options_view(self.index_options) },
            ParamView { key: "norms"@, value: bool_view(self.norms) },
            ParamView {
                key: "position_increment_gap"@,
                value: unsigned_view(self.position_increment_gap),
            },
            ParamView { key: "store"@, value: bool_view(self.store) },
            ParamView { key: "search_analyzer"@, value: str_view(self.search_analyzer) },
            ParamView { key: "search_quote_analyzer"@, value: str_view(self.search_quote_analyzer) },
            ParamView { key: "similarity"@, value: str_view(self.similarity) },
        ]
    }

    /// The document of the mapping: `type` is `text`, and each parameter
    /// that is set follows in declared order.
    pub open spec fn document(&self) -> Seq<EntryView> {
        document_of(TEXT_DATATYPE@, self.declared())
    }

    /// The parameters of the mapping, in declared order.
    pub fn parameters(&self) -> (params: Vec<Param>)
        ensures
            params_view(params@) == self.declared(),
    {
        let params = vec![
            Param { key: "analyzer", value: str_value(self.analyzer) },
            Param { key: "eager_global_ordinals", value: bool_value(self.eager_global_ordinals) },
            Param { key: "fielddata", value: bool_value(self.fielddata) },
            Param { key: "include_in_all", value: bool_value(self.include_in_all) },
            Param { key: "ignore_above", value: unsigned_value(self.ignore_above) },
            Param { key: "index", value: bool_value(self.index) },
            Param { key: "index_options", value: index_options_value(self.index_options) },
            Param { key: "norms", value: bool_value(self.norms) },
            Param {
                key: "position_increment_gap",
                value: unsigned_value(self.position_increment_gap),
            },
            Param { key: "store", value: bool_value(self.store) },
            Param { key: "search_analyzer", value: str_value(self.search_analyzer) },
            Param { key: "search_quote_analyzer", value: str_value(self.search_quote_analyzer) },
            Param { key: "similarity", value: str_value(self.similarity) },
        ];
        assert(params_view(params@) =~= self.declared());
        params
    }

    /// Serializes the mapping as a sparse document: the `type` entry first,
    /// then the parameters that are set, each under its own key.
    pub fn serialize(&self) -> (doc: Document)
        ensures
            doc@ == self.document(),
            doc@[0] == type_entry("text"@),
            keys_unique(doc@),
    {
        proof {
            self.lemma_well_declared();
            lemma_keys_unique(TEXT_DATATYPE@, self.declared());
        }
        let params = self.parameters();
        Document::sparse(TEXT_DATATYPE, params.as_slice())
    }

    /// The declared keys differ from each other and from `type`.
    pub proof fn lemma_well_declared(self)
        ensures
            well_declared(self.declared()),
    {
        reveal_strlit("type");
        reveal_strlit("analyzer");
        reveal_strlit("eager_global_ordinals");
        reveal_strlit("fielddata");
        reveal_strlit("include_in_all");
        reveal_strlit("ignore_above");
        reveal_strlit("index");
        reveal_strlit("index_options");
        reveal_strlit("norms");
        reveal_strlit("position_increment_gap");
        reveal_strlit("store");
        reveal_strlit("search_analyzer");
        reveal_strlit("search_quote_analyzer");
        reveal_strlit("similarity");
        assert(TYPE_KEY@.len() == 4);
        assert("analyzer"@.len() == 8);
        assert("eager_global_ordinals"@.len() == 21 && "eager_global_ordinals"@[0] == 'e');
        assert("fielddata"@.len() == 9);
        assert("include_in_all"@.len() == 14);
        assert("ignore_above"@.len() == 12);
        assert("index"@.len() == 5 && "index"@[0] == 'i');
        assert("index_options"@.len() == 13);
        assert("norms"@.len() == 5 && "norms"@[0] == 'n');
        assert("position_increment_gap"@.len() == 22);
        assert("store"@.len() == 5 && "store"@[0] == 's');
        assert("search_analyzer"@.len() == 15);
        assert("search_quote_analyzer"@.len() == 21 && "search_quote_analyzer"@[0] == 's');
        assert("similarity"@.len() == 10);
    }
}

} // verus!
