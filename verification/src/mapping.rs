//! Mapping types for strings, and the mapping that a string gets by default.

use crate::document::{present, type_entry, EntryView};
use crate::field::ElasticStringField;
use crate::fields::MultiFieldMap;
use crate::keyword::KeywordFieldMapping;
use crate::value::ValueView;
use vstd::prelude::*;

verus! {

/// The length above which the default `keyword` sub-field does not index a
/// value.
pub const DEFAULT_IGNORE_ABOVE: u32 = 256;

/// The name of the sub-field that a string gets by default.
pub const DEFAULT_SUBFIELD: &'static str = "keyword";

/// A mapping type for text: it says which sub-fields a field of this
/// mapping has.
pub trait TextMapping {
    /// The sub-fields of the mapping by name, or `None` if the field has no
    /// sub-fields.
    fn fields() -> Option<MultiFieldMap>;
}

/// Default mapping for `String`.
#[derive(PartialEq, Debug, Default, Clone, Copy)]
pub struct DefaultStringMapping;

impl DefaultStringMapping {
    /// The sub-field that a string gets by default: a `keyword` whose only
    /// parameter that is set is `ignore_above`.
    pub open spec fn keyword() -> ElasticStringField {
        ElasticStringField::Keyword(
            KeywordFieldMapping {
                ignore_above: Some(DEFAULT_IGNORE_ABOVE),
                ..KeywordFieldMapping::unset()
            },
        )
    }

    /// The document of the default sub-field holds its `type`, `keyword`, and
    /// `ignore_above`, 256, and no other entry.
    pub proof fn lemma_keyword_document()
        ensures
            DefaultStringMapping::keyword().document() == seq![
                type_entry("keyword"@),
                EntryView { key: "ignore_above"@, value: ValueView::Unsigned(256) },
            ],
    {
        reveal_with_fuel(present, 12);
        assert(DefaultStringMapping::keyword().document() =~= seq![
            type_entry("keyword"@),
            EntryView { key: "ignore_above"@, value: ValueView::Unsigned(256) },
        ]);
    }
}

impl TextMapping for DefaultStringMapping {
    /// One sub-field, named `keyword`: the default one.
    fn fields() -> (fields: Option<MultiFieldMap>)
        ensures
            fields is Some,
            fields->0@ == seq![("keyword"@, DefaultStringMapping::keyword())],
            fields->0@[0].1.document() == seq![
                type_entry("keyword"@),
                EntryView { key: "ignore_above"@, value: ValueView::Unsigned(256) },
            ],
    {
        proof {
            DefaultStringMapping::lemma_keyword_document();
        }
        let mut fields = MultiFieldMap::new();
        fields.insert(
            DEFAULT_SUBFIELD,
            ElasticStringField::Keyword(
                KeywordFieldMapping {
                    ignore_above: Some(DEFAULT_IGNORE_ABOVE),
                    ..Default::default()
                },
            ),
        );
        assert(fields@ =~= seq![("keyword"@, DefaultStringMapping::keyword())]);
        Some(fields)
    }
}

} // verus!
