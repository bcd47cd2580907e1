//! The sub-field kinds of a string field, and what holds of their documents.

use crate::completion::ElasticCompletionFieldMapping;
use crate::document::{
    document_of, has_key, keys_unique, lemma_keys_unique, lemma_lookup_declared,
    lemma_position_monotone, lemma_present_emitted, lemma_type_entry_first, lookup, position,
    type_entry, well_declared, Document, EntryView, ParamView, TYPE_KEY,
};
use crate::keyword::KeywordFieldMapping;
use crate::text::TextFieldMapping;
use crate::token_count::ElasticTokenCountFieldMapping;
use crate::value::ValueView;
use vstd::prelude::*;

verus! {

/// A string sub-field type.
///
/// String types can have a number of alternative field representations for
/// different purposes.
#[derive(Debug, Clone, Copy)]
pub enum ElasticStringField {
    /// A `token_count` sub field.
    TokenCount(ElasticTokenCountFieldMapping),
    /// A `completion` suggester sub field.
    Completion(ElasticCompletionFieldMapping),
    /// A `keyword` sub field.
    Keyword(KeywordFieldMapping),
    /// A `text` sub field.
    Text(TextFieldMapping),
}

impl ElasticStringField {
    /// The datatype name that the search engine knows the kind by.
    pub open spec fn datatype(&self) -> Seq<char> {
        match *self {
            ElasticStringField::TokenCount(_) => "token_count"@,
            ElasticStringField::Completion(_) => "completion"@,
            ElasticStringField::Keyword(_) => "keyword"@,
            ElasticStringField::Text(_) => "text"@,
        }
    }

    /// The parameters of the active kind, in declared order, each with the
    /// value it was given, if any.
    pub open spec fn declared(&self) -> Seq<ParamView> {
        match *self {
            ElasticStringField::TokenCount(m) => m.declared(),
            ElasticStringField::Completion(m) => m.declared(),
            ElasticStringField::Keyword(m) => m.declared(),
            ElasticStringField::Text(m) => m.declared(),
        }
    }

    /// The document of the sub-field: that of the mapping of the active kind.
    pub open spec fn document(&self) -> Seq<EntryView> {
        match *self {
            ElasticStringField::TokenCount(m) => m.document(),
            ElasticStringField::Completion(m) => m.document(),
            ElasticStringField::Keyword(m) => m.document(),
            ElasticStringField::Text(m) => m.document(),
        }
    }

    /// Serializes the sub-field as the sparse document of its active kind.
    pub fn serialize(&self) -> (doc: Document)
        ensures
            doc@ == self.document(),
            doc@.len() >= 1,
            doc@[0] == type_entry(self.datatype()),
    {
        proof {
            self.lemma_type_always_first();
        }
        match *self {
            ElasticStringField::TokenCount(m) => m.serialize(),
            ElasticStringField::Completion(m) => m.serialize(),
            ElasticStringField::Keyword(m) => m.serialize(),
            ElasticStringField::Text(m) => m.serialize(),
        }
    }

    /// The document of a sub-field is the sparse document of its datatype and
    /// its declared parameters, and these parameters can stand in one
    /// document.
    pub proof fn lemma_document_is_sparse(self)
        ensures
            self.document() == document_of(self.datatype(), self.declared()),
            well_declared(self.declared()),
    {
        match self {
            ElasticStringField::TokenCount(m) => m.lemma_well_declared(),
            ElasticStringField::Completion(m) => m.lemma_well_declared(),
            ElasticStringField::Keyword(m) => m.lemma_well_declared(),
            ElasticStringField::Text(m) => m.lemma_well_declared(),
        }
    }

    /// Whatever the sub-field, its document opens with the `type` entry, and
    /// this entry holds the datatype name of the active kind. No later entry
    /// has the key `type`.
    pub proof fn lemma_type_always_first(self)
        ensures
            self.document().len() >= 1,
            self.document()[0] == type_entry(self.datatype()),
            lookup(self.document(), TYPE_KEY@) == Some(ValueView::Str(self.datatype())),
            forall|j: int|
                1 <= j < self.document().len() ==> (#[trigger] self.document()[j]).key != TYPE_KEY@,
    {
        self.lemma_document_is_sparse();
        lemma_type_entry_first(self.datatype(), self.declared());
        lemma_keys_unique(self.datatype(), self.declared());
        let doc = self.document();
        assert forall|j: int| 1 <= j < doc.len() implies (#[trigger] doc[j]).key != TYPE_KEY@ by {
            assert(doc[0].key != doc[j].key);
        }
    }

    /// Whatever the sub-field, a declared parameter that is not set occurs
    /// nowhere in its document as a key, and one that is set occurs with its
    /// exact value: looking its key up gives what was declared.
    pub proof fn lemma_sparse(self, i: int)
        requires
            0 <= i < self.declared().len(),
        ensures
            has_key(self.document(), self.declared()[i].key) <==> self.declared()[i].value is Some,
            lookup(self.document(), self.declared()[i].key) == self.declared()[i].value,
    {
        self.lemma_document_is_sparse();
        lemma_lookup_declared(self.datatype(), self.declared(), i);
    }

    /// Whatever the sub-field, no two entries of its document share a key.
    pub proof fn lemma_keys_unique(self)
        ensures
            keys_unique(self.document()),
    {
        self.lemma_document_is_sparse();
        lemma_keys_unique(self.datatype(), self.declared());
    }

    /// Whatever the sub-field, the parameters that are set stand in its
    /// document in the order in which they are declared.
    pub proof fn lemma_declared_order(self, i: int, j: int)
        requires
            0 <= i < j < self.declared().len(),
            self.declared()[i].value is Some,
            self.declared()[j].value is Some,
        ensures
            1 <= position(self.declared(), i) < position(self.declared(), j)
                < self.document().len(),
            self.document()[position(self.declared(), i)].key == self.declared()[i].key,
            self.document()[position(self.declared(), j)].key == self.declared()[j].key,
    {
        self.lemma_document_is_sparse();
        lemma_position_monotone(self.declared(), i, j);
        lemma_present_emitted(self.datatype(), self.declared(), i);
        lemma_present_emitted(self.datatype(), self.declared(), j);
    }

    /// The document depends on nothing but the sub-field: two documents
    /// serialized from one sub-field have the same entries in the same
    /// order, and so have those of two sub-fields of one kind whose
    /// parameters hold the same values.
    pub proof fn lemma_serialize_deterministic(
        self,
        other: ElasticStringField,
        first: Document,
        second: Document,
    )
        requires
            self.datatype() == other.datatype(),
            self.declared() == other.declared(),
            first@ == self.document(),
            second@ == other.document(),
        ensures
            first@ == second@,
    {
        self.lemma_document_is_sparse();
        other.lemma_document_is_sparse();
    }
}

} // verus!
