//! The mapping of a `completion` suggester sub-field.

use crate::document::{
    document_of, keys_unique, lemma_keys_unique, params_view, type_entry, well_declared, Document,
    EntryView, Param, ParamView, TYPE_KEY,
};
use crate::value::{bool_value, bool_view, str_value, str_view, unsigned_value, unsigned_view};
use vstd::prelude::*;

verus! {

/// Elasticsearch datatype name.
pub const COMPLETION_DATATYPE: &'static str = "completion";

/// The length, in `UTF-16` code points, to which the engine limits a single
/// input where `max_input_length` is not set.
pub const DEFAULT_MAX_INPUT_LENGTH: u32 = 50;

/// A multi-field string mapping for a completion suggester.
#[derive(Debug, Clone, Copy)]
pub struct ElasticCompletionFieldMapping {
    /// The analyzer which should be used for analyzed string fields,
    /// both at index-time and at search-time (unless overridden by the `search_analyzer`).
    /// Defaults to the default index analyzer, or the `standard` analyzer.
    pub analyzer: Option<&'static str>,
    /// The search analyzer to use, defaults to value of analyzer.
    pub search_analyzer: Option<&'static str>,
    /// Enables the storing of payloads, defaults to `false`.
    pub payloads: Option<bool>,
    /// Preserves the separators, defaults to `true`.
    /// If disabled, you could find a field starting with Foo Fighters,
    /// if you suggest for foof.
    pub preserve_separators: Option<bool>,
    /// Enables position increments, defaults to `true`.
    /// If disabled and using stopwords analyzer,
    /// you could get a field starting with The Beatles, if you suggest for b.
    pub preserve_position_increments: Option<bool>,
    /// Limits the length of a single input, defaults to
    /// [`DEFAULT_MAX_INPUT_LENGTH`] `UTF-16` code points.
    /// This limit is only used at index time to reduce the total number of characters per input
    /// string in order to prevent massive inputs from bloating the underlying datastructure.
    pub max_input_length: Option<u32>,
}

impl Default for ElasticCompletionFieldMapping {
    /// The mapping with no parameter set.
    fn default() -> (mapping: Self)
        ensures
            mapping == ElasticCompletionFieldMapping::unset(),
    {
        ElasticCompletionFieldMapping {
            analyzer: None,
            search_analyzer: None,
            payloads: None,
            preserve_separators: None,
            preserve_position_increments: None,
            max_input_length: None,
        }
    }
}

impl ElasticCompletionFieldMapping {
    /// The mapping with no parameter set.
    pub open spec fn unset() -> ElasticCompletionFieldMapping {
        ElasticCompletionFieldMapping {
            analyzer: None,
            search_analyzer: None,
            payloads: None,
            preserve_separators: None,
            preserve_position_increments: None,
            max_input_length: None,
        }
    }

    /// The parameters of the mapping, in declared order, each with the value
    /// it was given, if any.
    pub open spec fn declared(&self) -> Seq<ParamView> {
        seq![
            ParamView { key: "analyzer"@, value: str_view(self.analyzer) },
            ParamView { key: "search_analyzer"@, value: str_view(self.search_analyzer) },
            ParamView { key: "payloads"@, value: bool_view(self.payloads) },
            ParamView { key: "preserve_separators"@, value: bool_view(self.preserve_separators) },
            ParamView {
                key: "preserve_position_increments"@,
                value: bool_view(self.preserve_position_increments),
            },
            ParamView { key: "max_input_length"@, value: unsigned_view(self.max_input_length) },
        ]
    }

    /// The document of the mapping: `type` is `completion`, and each
    /// parameter that is set follows in declared order.
    pub open spec fn document(&self) -> Seq<EntryView> {
        document_of(COMPLETION_DATATYPE@, self.declared())
    }

    /// The parameters of the mapping, in declared order.
    pub fn parameters(&self) -> (params: Vec<Param>)
        ensures
            params_view(params@) == self.declared(),
    {
        let params = vec![
            Param { key: "analyzer", value: str_value(self.analyzer) },
            Param { key: "search_analyzer", value: str_value(self.search_analyzer) },
            Param { key: "payloads", value: bool_value(self.payloads) },
            Param { key: "preserve_separators", value: bool_value(self.preserve_separators) },
            Param {
                key: "preserve_position_increments",
                value: bool_value(self.preserve_position_increments),
            },
            Param { key: "max_input_length", value: unsigned_value(self.max_input_length) },
        ];
        assert(params_view(params@) =~= self.declared());
        params
    }

    /// Serializes the mapping as a sparse document: the `type` entry first,
    /// then the parameters that are set, each under its own key.
    pub fn serialize(&self) -> (doc: Document)
        ensures
            doc@ == self.document(),
            doc@[0] == type_entry("completion"@),
            keys_unique(doc@),
    {
        proof {
            self.lemma_well_declared();
            lemma_keys_unique(COMPLETION_DATATYPE@, self.declared());
        }
        let params = self.parameters();
        Document::sparse(COMPLETION_DATATYPE, params.as_slice())
    }

    /// The declared keys differ from each other and from `type`.
    pub proof fn lemma_well_declared(self)
        ensures
            well_declared(self.declared()),
    {
        reveal_strlit("type");
        reveal_strlit("analyzer");
        reveal_strlit("search_analyzer");
        reveal_strlit("payloads");
        reveal_strlit("preserve_separators");
        reveal_strlit("preserve_position_increments");
        reveal_strlit("max_input_length");
        assert(TYPE_KEY@.len() == 4);
        assert("analyzer"@.len() == 8 && "analyzer"@[0] == 'a');
        assert("search_analyzer"@.len() == 15);
        assert("payloads"@.len() == 8 && "payloads"@[0] == 'p');
        assert("preserve_separators"@.len() == 19);
        assert("preserve_position_increments"@.len() == 28);
        assert("max_input_length"@.len() == 16);
    }
}

} // verus!
