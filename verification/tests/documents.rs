use elastic_string_mapping::{
    DefaultStringMapping, Document, ElasticCompletionFieldMapping, ElasticStringField,
    ElasticTokenCountFieldMapping, Float32, IndexAnalysis, IndexOptions, KeywordFieldMapping,
    MultiFieldMap, Param, TextFieldMapping, TextMapping, Value, COMPLETION_DATATYPE,
    DEFAULT_IGNORE_ABOVE, DEFAULT_MAX_INPUT_LENGTH, DEFAULT_SUBFIELD, KEYWORD_DATATYPE,
    TEXT_DATATYPE, TOKENCOUNT_DATATYPE,
};
use serde::ser::{Serialize, SerializeMap, SerializeStruct, Serializer};

/// A document as serde writes it: a struct with one field for each entry.
struct Wire<'a>(&'a Document);

impl<'a> Serialize for Wire<'a> {
    fn serialize<S: Serializer>(&self, serializer: S) -> Result<S::Ok, S::Error> {
        let doc = self.0;
        let mut state = serializer.serialize_struct("mapping", doc.len())?;
        let mut index = 0;
        while let Some(entry) = doc.entry(index) {
            match entry.value {
                Value::Str(text) => state.serialize_field(entry.key, text)?,
                Value::Bool(flag) => state.serialize_field(entry.key, &flag)?,
                Value::Unsigned(number) => state.serialize_field(entry.key, &number)?,
                Value::Float(number) => {
                    state.serialize_field(entry.key, &f32::from_bits(number.to_bits()))?
                }
            }
            index += 1;
        }
        state.end()
    }
}

/// A map of sub-fields as serde writes it: a map from name to document.
struct WireFields<'a>(&'a MultiFieldMap);

impl<'a> Serialize for WireFields<'a> {
    fn serialize<S: Serializer>(&self, serializer: S) -> Result<S::Ok, S::Error> {
        let mut state = serializer.serialize_map(Some(self.0.len()))?;
        let mut index = 0;
        while let Some(subfield) = self.0.subfield(index) {
            state.serialize_entry(subfield.name, &Wire(&subfield.field.serialize()))?;
            index += 1;
        }
        state.end()
    }
}

fn json(doc: &Document) -> String {
    serde_json::to_string(&Wire(doc)).unwrap()
}

fn float(number: f32) -> Float32 {
    Float32::from_bits(number.to_bits())
}

fn keys(doc: &Document) -> Vec<&'static str> {
    let mut keys = Vec::new();
    let mut index = 0;
    while let Some(entry) = doc.entry(index) {
        keys.push(entry.key);
        index += 1;
    }
    keys
}

fn full_token_count() -> ElasticTokenCountFieldMapping {
    ElasticTokenCountFieldMapping {
        analyzer: Some("standard"),
        boost: Some(float(1.5)),
        doc_values: Some(true),
        index: Some(IndexAnalysis::NotAnalyzed),
        include_in_all: Some(false),
        precision_step: Some(32),
        store: Some(true),
    }
}

fn full_completion() -> ElasticCompletionFieldMapping {
    ElasticCompletionFieldMapping {
        analyzer: Some("simple"),
        search_analyzer: Some("whitespace"),
        payloads: Some(true),
        preserve_separators: Some(true),
        preserve_position_increments: Some(false),
        max_input_length: Some(50),
    }
}

fn full_keyword() -> KeywordFieldMapping {
    KeywordFieldMapping {
        analyzer: Some("keyword"),
        doc_values: Some(true),
        eager_global_ordinals: Some(false),
        include_in_all: Some(true),
        ignore_above: Some(512),
        index: Some(true),
        index_options: Some(IndexOptions::Docs),
        norms: Some(false),
        store: Some(true),
        search_analyzer: Some("standard"),
        similarity: Some("BM25"),
    }
}

fn full_text() -> TextFieldMapping {
    TextFieldMapping {
        analyzer: Some("english"),
        eager_global_ordinals: Some(true),
        fielddata: Some(false),
        include_in_all: Some(true),
        ignore_above: Some(1024),
        index: Some(true),
        index_options: Some(IndexOptions::Offsets),
        norms: Some(true),
        position_increment_gap: Some(100),
        store: Some(false),
        search_analyzer: Some("standard"),
        search_quote_analyzer: Some("simple"),
        similarity: Some("classic"),
    }
}

#[test]
fn token_count_with_only_boost() {
    let mapping =
        ElasticTokenCountFieldMapping { boost: Some(float(2.5)), ..Default::default() };
    let doc = mapping.serialize();
    assert_eq!(json(&doc), r#"{"type":"token_count","boost":2.5}"#);
    assert_eq!(doc.len(), 2);
    assert_eq!(doc.get("boost"), Some(Value::Float(Float32 { bits: 0x4020_0000 })));
}

#[test]
fn completion_keeps_declared_order() {
    let mapping = ElasticCompletionFieldMapping {
        max_input_length: Some(20),
        preserve_separators: Some(false),
        ..Default::default()
    };
    let doc = mapping.serialize();
    assert_eq!(
        json(&doc),
        r#"{"type":"completion","preserve_separators":false,"max_input_length":20}"#
    );
    assert_eq!(keys(&doc), vec!["type", "preserve_separators", "max_input_length"]);
}

#[test]
fn type_is_first_for_every_kind() {
    let fields = [
        (ElasticStringField::TokenCount(Default::default()), "token_count"),
        (ElasticStringField::Completion(Default::default()), "completion"),
        (ElasticStringField::Keyword(Default::default()), "keyword"),
        (ElasticStringField::Text(Default::default()), "text"),
        (ElasticStringField::TokenCount(full_token_count()), "token_count"),
        (ElasticStringField::Completion(full_completion()), "completion"),
        (ElasticStringField::Keyword(full_keyword()), "keyword"),
        (ElasticStringField::Text(full_text()), "text"),
    ];
    for (field, datatype) in fields {
        let doc = field.serialize();
        let first = doc.entry(0).unwrap();
        assert_eq!(first.key, "type");
        assert_eq!(first.value, Value::Str(datatype));
        assert_eq!(doc.get("type"), Some(Value::Str(datatype)));
        assert_eq!(keys(&doc).iter().filter(|key| **key == "type").count(), 1);
    }
}

#[test]
fn unset_mappings_hold_only_the_type() {
    assert_eq!(
        json(&ElasticTokenCountFieldMapping::default().serialize()),
        r#"{"type":"token_count"}"#
    );
    assert_eq!(
        json(&ElasticCompletionFieldMapping::default().serialize()),
        r#"{"type":"completion"}"#
    );
    assert_eq!(json(&KeywordFieldMapping::default().serialize()), r#"{"type":"keyword"}"#);
    assert_eq!(json(&TextFieldMapping::default().serialize()), r#"{"type":"text"}"#);
}

#[test]
fn token_count_with_every_parameter() {
    let doc = full_token_count().serialize();
    assert_eq!(
        json(&doc),
        concat_json(&[
            r#"{"type":"token_count","analyzer":"standard","boost":1.5,"doc_values":true,"#,
            r#""index":"not_analyzed","include_in_all":false,"precision_step":32,"store":true}"#,
        ])
    );
    assert_eq!(doc.len(), 8);
}

fn concat_json(parts: &[&str]) -> String {
    parts.concat()
}

#[test]
fn completion_with_every_parameter() {
    let doc = full_completion().serialize();
    assert_eq!(
        json(&doc),
        concat_json(&[
            r#"{"type":"completion","analyzer":"simple","search_analyzer":"whitespace","#,
            r#""payloads":true,"preserve_separators":true,"#,
            r#""preserve_position_increments":false,"max_input_length":50}"#,
        ])
    );
    assert_eq!(doc.len(), 7);
}

#[test]
fn keyword_with_every_parameter() {
    let doc = full_keyword().serialize();
    assert_eq!(
        keys(&doc),
        vec![
            "type",
            "analyzer",
            "doc_values",
            "eager_global_ordinals",
            "include_in_all",
            "ignore_above",
            "index",
            "index_options",
            "norms",
            "store",
            "search_analyzer",
            "similarity",
        ]
    );
    assert_eq!(
        json(&doc),
        concat_json(&[
            r#"{"type":"keyword","analyzer":"keyword","doc_values":true,"#,
            r#""eager_global_ordinals":false,"include_in_all":true,"ignore_above":512,"#,
            r#""index":true,"index_options":"docs","norms":false,"store":true,"#,
            r#""search_analyzer":"standard","similarity":"BM25"}"#,
        ])
    );
}

#[test]
fn text_with_every_parameter() {
    let doc = full_text().serialize();
    assert_eq!(
        keys(&doc),
        vec![
            "type",
            "analyzer",
            "eager_global_ordinals",
            "fielddata",
            "include_in_all",
            "ignore_above",
            "index",
            "index_options",
            "norms",
            "position_increment_gap",
            "store",
            "search_analyzer",
            "search_quote_analyzer",
            "similarity",
        ]
    );
    assert_eq!(doc.get("index_options"), Some(Value::Str("offsets")));
    assert_eq!(doc.get("position_increment_gap"), Some(Value::Unsigned(100)));
    assert_eq!(doc.get("search_quote_analyzer"), Some(Value::Str("simple")));
}

#[test]
fn absent_parameters_leave_no_key() {
    let mapping = ElasticTokenCountFieldMapping {
        analyzer: Some("whitespace"),
        precision_step: Some(8),
        ..Default::default()
    };
    let doc = mapping.serialize();
    for absent in ["boost", "doc_values", "index", "include_in_all", "store"] {
        assert_eq!(doc.get(absent), None);
        assert!(!keys(&doc).contains(&absent));
    }
    assert_eq!(doc.get("analyzer"), Some(Value::Str("whitespace")));
    assert_eq!(doc.get("precision_step"), Some(Value::Unsigned(8)));
    assert!(!json(&doc).contains("null"));
    assert_eq!(json(&doc), r#"{"type":"token_count","analyzer":"whitespace","precision_step":8}"#);
}

#[test]
fn each_parameter_alone_appears_alone() {
    let params = full_token_count().parameters();
    assert_eq!(params.len(), 7);
    for chosen in 0..params.len() {
        let mut declared = params.clone();
        for (index, param) in declared.iter_mut().enumerate() {
            if index != chosen {
                param.value = None;
            }
        }
        let doc = Document::sparse("token_count", &declared);
        assert_eq!(keys(&doc), vec!["type", params[chosen].key]);
        assert_eq!(doc.get(params[chosen].key), params[chosen].value);
    }
}

#[test]
fn parameters_list_what_was_declared() {
    let mapping = ElasticCompletionFieldMapping {
        search_analyzer: Some("simple"),
        payloads: Some(false),
        ..Default::default()
    };
    assert_eq!(
        mapping.parameters(),
        vec![
            Param { key: "analyzer", value: None },
            Param { key: "search_analyzer", value: Some(Value::Str("simple")) },
            Param { key: "payloads", value: Some(Value::Bool(false)) },
            Param { key: "preserve_separators", value: None },
            Param { key: "preserve_position_increments", value: None },
            Param { key: "max_input_length", value: None },
        ]
    );
}

#[test]
fn numbers_pass_through_unmodified() {
    let mapping = ElasticTokenCountFieldMapping {
        boost: Some(Float32::from_bits(0x7fc0_0001)),
        precision_step: Some(u32::MAX),
        ..Default::default()
    };
    let doc = mapping.serialize();
    assert_eq!(doc.get("boost"), Some(Value::Float(Float32 { bits: 0x7fc0_0001 })));
    assert_eq!(doc.get("precision_step"), Some(Value::Unsigned(4_294_967_295)));

    let zero = ElasticTokenCountFieldMapping { boost: Some(float(-0.0)), ..Default::default() };
    assert_eq!(zero.serialize().get("boost"), Some(Value::Float(Float32 { bits: 0x8000_0000 })));

    let tenth = ElasticTokenCountFieldMapping { boost: Some(float(0.1)), ..Default::default() };
    assert_eq!(json(&tenth.serialize()), r#"{"type":"token_count","boost":0.1}"#);
    assert_eq!(Float32::from_bits(0x3dcc_cccd).to_bits(), 0.1f32.to_bits());
}

#[test]
fn free_form_strings_are_not_checked() {
    let mapping = ElasticCompletionFieldMapping {
        analyzer: Some(""),
        search_analyzer: Some("no \"such\" analyzer"),
        ..Default::default()
    };
    let doc = mapping.serialize();
    assert_eq!(doc.get("analyzer"), Some(Value::Str("")));
    assert_eq!(
        json(&doc),
        r#"{"type":"completion","analyzer":"","search_analyzer":"no \"such\" analyzer"}"#
    );
}

#[test]
fn serializing_twice_gives_the_same_document() {
    let mapping = full_token_count();
    let first = mapping.serialize();
    let _ = full_completion().serialize();
    let _ = ElasticStringField::Text(full_text()).serialize();
    let _ = DefaultStringMapping::fields();
    let second = mapping.serialize();
    assert_eq!(first, second);
    assert_eq!(json(&first), json(&second));
    assert_eq!(json(&first).into_bytes(), json(&second).into_bytes());

    let field = ElasticStringField::TokenCount(mapping);
    assert_eq!(field.serialize(), first);
    assert_eq!(first.clone(), first);
}

#[test]
fn union_serializes_as_its_active_kind() {
    assert_eq!(
        ElasticStringField::TokenCount(full_token_count()).serialize(),
        full_token_count().serialize()
    );
    assert_eq!(
        ElasticStringField::Completion(full_completion()).serialize(),
        full_completion().serialize()
    );
    assert_eq!(ElasticStringField::Keyword(full_keyword()).serialize(), full_keyword().serialize());
    assert_eq!(ElasticStringField::Text(full_text()).serialize(), full_text().serialize());
}

#[test]
fn index_options_tokens() {
    assert_eq!(IndexOptions::Docs.serialize(), "docs");
    assert_eq!(IndexOptions::Freqs.serialize(), "freqs");
    assert_eq!(IndexOptions::Positions.serialize(), "positions");
    assert_eq!(IndexOptions::Offsets.serialize(), "offsets");
    for (level, token) in [
        (IndexOptions::Docs, r#"{"type":"keyword","index_options":"docs"}"#),
        (IndexOptions::Freqs, r#"{"type":"keyword","index_options":"freqs"}"#),
        (IndexOptions::Positions, r#"{"type":"keyword","index_options":"positions"}"#),
        (IndexOptions::Offsets, r#"{"type":"keyword","index_options":"offsets"}"#),
    ] {
        let mapping = KeywordFieldMapping { index_options: Some(level), ..Default::default() };
        assert_eq!(json(&mapping.serialize()), token);
    }
}

#[test]
fn index_analysis_tokens() {
    assert_eq!(IndexAnalysis::Analyzed.serialize(), "analyzed");
    assert_eq!(IndexAnalysis::NotAnalyzed.serialize(), "not_analyzed");
    assert_eq!(IndexAnalysis::No.serialize(), "no");
    let mapping =
        ElasticTokenCountFieldMapping { index: Some(IndexAnalysis::No), ..Default::default() };
    assert_eq!(json(&mapping.serialize()), r#"{"type":"token_count","index":"no"}"#);
}

#[test]
fn default_mapping_snapshot() {
    let fields = DefaultStringMapping::fields().unwrap();
    assert_eq!(fields.len(), 1);
    let only = fields.subfield(0).unwrap();
    assert_eq!(only.name, "keyword");
    assert!(fields.subfield(1).is_none());
    let keyword = fields.get("keyword").unwrap();
    match keyword {
        ElasticStringField::Keyword(mapping) => assert_eq!(mapping.ignore_above, Some(256)),
        other => panic!("the default sub-field is {:?}", other),
    }
    let doc = keyword.serialize();
    assert_eq!(json(&doc), r#"{"type":"keyword","ignore_above":256}"#);
    assert_eq!(keys(&doc), vec!["type", "ignore_above"]);
    assert_eq!(json(&only.field.serialize()), r#"{"type":"keyword","ignore_above":256}"#);
}

#[test]
fn default_fields_on_the_wire() {
    let fields = DefaultStringMapping::fields().unwrap();
    assert_eq!(
        serde_json::to_string(&WireFields(&fields)).unwrap(),
        r#"{"keyword":{"type":"keyword","ignore_above":256}}"#
    );
    let mut more = fields.clone();
    more.insert(
        "count",
        ElasticStringField::TokenCount(ElasticTokenCountFieldMapping {
            boost: Some(float(2.5)),
            ..Default::default()
        }),
    );
    assert_eq!(
        serde_json::to_string(&WireFields(&more)).unwrap(),
        concat_json(&[
            r#"{"count":{"type":"token_count","boost":2.5},"#,
            r#""keyword":{"type":"keyword","ignore_above":256}}"#,
        ])
    );
    assert_eq!(serde_json::to_string(&WireFields(&MultiFieldMap::new())).unwrap(), "{}");
}

#[test]
fn named_constants() {
    assert_eq!(TOKENCOUNT_DATATYPE, "token_count");
    assert_eq!(COMPLETION_DATATYPE, "completion");
    assert_eq!(KEYWORD_DATATYPE, "keyword");
    assert_eq!(TEXT_DATATYPE, "text");
    assert_eq!(DEFAULT_SUBFIELD, "keyword");
    assert_eq!(DEFAULT_IGNORE_ABOVE, 256);
    assert_eq!(DEFAULT_MAX_INPUT_LENGTH, 50);
}

#[test]
fn document_built_by_hand() {
    let mut doc = Document::new("keyword");
    assert_eq!(doc.len(), 1);
    doc.emit("ignore_above", Some(Value::Unsigned(256)));
    doc.emit("store", None);
    doc.emit("norms", Some(Value::Bool(true)));
    assert_eq!(doc.len(), 3);
    assert_eq!(json(&doc), r#"{"type":"keyword","ignore_above":256,"norms":true}"#);
    assert_eq!(doc.entry(2).unwrap().key, "norms");
    assert!(doc.entry(3).is_none());
    assert_eq!(doc.get("store"), None);
    assert_eq!(doc.get(""), None);
}

#[test]
fn lookup_takes_the_first_entry_of_a_key() {
    let mut doc = Document::new("text");
    doc.emit("store", Some(Value::Bool(true)));
    doc.emit("store", Some(Value::Bool(false)));
    assert_eq!(doc.get("store"), Some(Value::Bool(true)));
    assert_eq!(doc.len(), 3);
}

#[test]
fn sparse_document_of_declared_parameters() {
    let declared = [
        Param { key: "a", value: None },
        Param { key: "b", value: Some(Value::Unsigned(1)) },
        Param { key: "c", value: None },
        Param { key: "d", value: Some(Value::Str("x")) },
    ];
    let doc = Document::sparse("custom", &declared);
    assert_eq!(json(&doc), r#"{"type":"custom","b":1,"d":"x"}"#);
    assert_eq!(json(&Document::sparse("custom", &[])), r#"{"type":"custom"}"#);
}
