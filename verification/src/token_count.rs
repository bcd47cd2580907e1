//! The mapping of a `token_count` sub-field.

use crate::document::{
    document_of, keys_unique, lemma_keys_unique, params_view, type_entry, well_declared, Document,
    EntryView, Param, ParamView, TYPE_KEY,
};
use crate::options::{index_analysis_value, index_analysis_view, IndexAnalysis};
use crate::value::{
    bool_value, bool_view, float_value, float_view, str_value, str_view, unsigned_value,
    unsigned_view, Float32,
};
use vstd::prelude::*;

verus! {

/// Elasticsearch datatype name.
pub const TOKENCOUNT_DATATYPE: &'static str = "token_count";

/// A multi-field string mapping for a token count.
#[derive(Debug, Clone, Copy)]
pub struct ElasticTokenCountFieldMapping {
    /// The analyzer which should be used for analyzed string fields,
    /// both at index-time and at search-time (unless overridden by the `search_analyzer`).
    /// Defaults to the default index analyzer, or the `standard` analyzer.
    pub analyzer: Option<&'static str>,
    /// Field-level index time boosting. Accepts a floating point number, defaults to `1.0`.
    pub boost: Option<Float32>,
    /// Should the field be stored on disk in a column-stride fashion,
    /// so that it can later be used for sorting, aggregations, or scripting?
    /// Accepts `true` (default) or `false`.
    pub doc_values: Option<bool>,
    /// Should the field be searchable? Accepts `not_analyzed` (default) and `no`.
    pub index: Option<IndexAnalysis>,
    /// Whether or not the field value should be included in the `_all` field?
    /// Accepts true or false.
    /// Defaults to `false` if index is set to `no`, or if a parent object field sets `include_in_all` to false.
    /// Otherwise defaults to `true`.
    pub include_in_all: Option<bool>,
    /// Controls the number of extra terms that are indexed to make range queries faster.
    /// Defaults to `32`.
    pub precision_step: Option<u32>,
    /// Whether the field value should be stored and retrievable separately from the `_source` field.
    /// Accepts `true` or `false` (default).
    pub store: Option<bool>,
}

impl Default for ElasticTokenCountFieldMapping {
    /// The mapping with no parameter set.
    fn default() -> (mapping: Self)
        ensures
            mapping == ElasticTokenCountFieldMapping::unset(),
    {
        ElasticTokenCountFieldMapping {
            analyzer: None,
            boost: None,
            doc_values: None,
            index: None,
            include_in_all: None,
            precision_step: None,
            store: None,
        }
    }
}

impl ElasticTokenCountFieldMapping {
    /// The mapping with no parameter set.
    pub open spec fn unset() -> ElasticTokenCountFieldMapping {
        ElasticTokenCountFieldMapping {
            analyzer: None,
            boost: None,
            doc_values: None,
            index: None,
            include_in_all: None,
            precision_step: None,
            store: None,
        }
    }

    /// The parameters of the mapping, in declared order, each with the value
    /// it was given, if any.
    pub open spec fn declared(&self) -> Seq<ParamView> {
        seq![
            ParamView { key: "analyzer"@, value: str_view(self.analyzer) },
            ParamView { key: "boost"@, value: float_view(self.boost) },
            ParamView { key: "doc_values"@, value: bool_view(self.doc_values) },
            ParamView { key: "index"@, value: index_analysis_view(self.index) },
            ParamView { key: "include_in_all"@, value: bool_view(self.include_in_all) },
            ParamView { key: "precision_step"@, value: unsigned_view(self.precision_step) },
            ParamView { key: "store"@, value: bool_view(self.store) },
        ]
    }

    /// The document of the mapping: `type` is `token_count`, and each
    /// parameter that is set follows in declared order.
    pub open spec fn document(&self) -> Seq<EntryView> {
        document_of(TOKENCOUNT_DATATYPE@, self.declared())
    }

    /// The parameters of the mapping, in declared order.
    pub fn parameters(&self) -> (params: Vec<Param>)
        ensures
            params_view(params@) == self.declared(),
    {
        let params = vec![
            Param { key: "analyzer", value: str_value(self.analyzer) },
            Param { key: "boost", value: float_value(self.boost) },
            Param { key: "doc_values", value: bool_value(self.doc_values) },
            Param { key: "index", value: index_analysis_value(self.index) },
            Param { key: "include_in_all", value: bool_value(self.include_in_all) },
            Param { key: "precision_step", value: unsigned_value(self.precision_step) },
            Param { key: "store", value: bool_value(self.store) },
        ];
        assert(params_view(params@) =~= self.declared());
        params
    }

    /// Serializes the mapping as a sparse document: the `type` entry first,
    /// then the parameters that are set, each under its own key.
    pub fn serialize(&self) -> (doc: Document)
        ensures
            doc@ == self.document(),
            doc@[0] == type_entry("token_count"@),
            keys_unique(doc@),
    {
        proof {
            self.lemma_well_declared();
            lemma_keys_unique(TOKENCOUNT_DATATYPE@, self.declared());
        }
        let params = self.parameters();
        Document::sparse(TOKENCOUNT_DATATYPE, params.as_slice())
    }

    /// The declared keys differ from each other and from `type`.
    pub proof fn lemma_well_declared(self)
        ensures
            well_declared(self.declared()),
    {
        reveal_strlit("type");
        reveal_strlit("analyzer");
        reveal_strlit("boost");
        reveal_strlit("doc_values");
        reveal_strlit("index");
        reveal_strlit("include_in_all");
        reveal_strlit("precision_step");
        reveal_strlit("store");
        assert(TYPE_KEY@.len() == 4);
        assert("analyzer"@.len() == 8);
        assert("boost"@.len() == 5 && "boost"@[0] == 'b');
        assert("doc_values"@.len() == 10);
        assert("index"@.len() == 5 && "index"@[0] == 'i');
        assert("include_in_all"@.len() == 14 && "include_in_all"@[1] == 'n');
        assert("precision_step"@.len() == 14 && "precision_step"@[1] == 'r');
        assert("store"@.len() == 5 && "store"@[0] == 's');
    }
}

} // verus!
