//! Enumerated mapping parameters and their wire tokens.

use crate::value::{view_opt, Value, ValueView};
use vstd::prelude::*;

verus! {

/// The `index_options` parameter controls what information is added to the
/// inverted index, for search and highlighting purposes.
///
/// Each level includes the ones before it: `Docs`, then `Freqs`, then
/// `Positions`, then `Offsets`.
#[derive(Debug, Clone, Copy, PartialEq, Eq)]
pub enum IndexOptions {
    /// Only the doc number is indexed.
    Docs,
    /// Doc number and term frequencies are indexed.
    Freqs,
    /// Doc number, term frequencies, and term positions (or order) are indexed.
    Positions,
    /// Doc number, term frequencies, positions, and start and end character
    /// offsets are indexed.
    Offsets,
}

impl IndexOptions {
    /// The lowercase token that stands for this level on the wire.
    pub open spec fn token(self) -> Seq<char> {
        match self {
            IndexOptions::Docs => "docs"@,
            IndexOptions::Freqs => "freqs"@,
            IndexOptions::Positions => "positions"@,
            IndexOptions::Offsets => "offsets"@,
        }
    }

    /// Serializes the level as its token.
    pub fn serialize(&self) -> (token: &'static str)
        ensures
            token@ == self.token(),
    {
        match *self {
            IndexOptions::Docs => "docs",
            IndexOptions::Freqs => "freqs",
            IndexOptions::Positions => "positions",
            IndexOptions::Offsets => "offsets",
        }
    }

    /// No two levels share a token, so the token identifies the level.
    pub proof fn lemma_token_identifies_level(a: IndexOptions, b: IndexOptions)
        requires
            a.token() == b.token(),
        ensures
            a == b,
    {
        reveal_strlit("docs");
        reveal_strlit("freqs");
        reveal_strlit("positions");
        reveal_strlit("offsets");
        assert("docs"@.len() == 4);
        assert("freqs"@.len() == 5);
        assert("positions"@.len() == 9);
        assert("offsets"@.len() == 7);
    }
}

/// Whether, and how, a field's value is analysed before it is indexed.
#[derive(Debug, Clone, Copy, PartialEq, Eq)]
pub enum IndexAnalysis {
    /// Analyse the string before indexing.
    Analyzed,
    /// Index the value exactly as given, so that it is searchable verbatim.
    NotAnalyzed,
    /// Do not index the field at all.
    No,
}

impl IndexAnalysis {
    /// The lowercase token that stands for this mode on the wire.
    pub open spec fn token(self) -> Seq<char> {
        match self {
            IndexAnalysis::Analyzed => "analyzed"@,
            IndexAnalysis::NotAnalyzed => "not_analyzed"@,
            IndexAnalysis::No => "no"@,
        }
    }

    /// Serializes the mode as its token.
    pub fn serialize(&self) -> (token: &'static str)
        ensures
            token@ == self.token(),
    {
        match *self {
            IndexAnalysis::Analyzed => "analyzed",
            IndexAnalysis::NotAnalyzed => "not_analyzed",
            IndexAnalysis::No => "no",
        }
    }

    /// No two modes share a token, so the token identifies the mode.
    pub proof fn lemma_token_identifies_mode(a: IndexAnalysis, b: IndexAnalysis)
        requires
            a.token() == b.token(),
        ensures
            a == b,
    {
        reveal_strlit("analyzed");
        reveal_strlit("not_analyzed");
        reveal_strlit("no");
        assert("analyzed"@.len() == 8);
        assert("not_analyzed"@.len() == 12);
        assert("no"@.len() == 2);
    }
}

/// The content of an optional `index_options` parameter: the level's token.
pub open spec fn index_options_view(level: Option<IndexOptions>) -> Option<ValueView> {
    match level {
        Some(l) => Some(ValueView::Str(l.token())),
        None => None,
    }
}

/// An optional index level as an optional document value.
pub fn index_options_value(level: Option<IndexOptions>) -> (value: Option<Value>)
    ensures
        view_opt(value) == index_options_view(level),
{
    match level {
        Some(l) => Some(Value::Str(l.serialize())),
        None => None,
    }
}

/// The content of an optional analysis mode parameter: the mode's token.
pub open spec fn index_analysis_view(mode: Option<IndexAnalysis>) -> Option<ValueView> {
    match mode {
        Some(m) => Some(ValueView::Str(m.token())),
        None => None,
    }
}

/// An optional analysis mode as an optional document value.
pub fn index_analysis_value(mode: Option<IndexAnalysis>) -> (value: Option<Value>)
    ensures
        view_opt(value) == index_analysis_view(mode),
{
    match mode {
        Some(m) => Some(Value::Str(m.serialize())),
        None => None,
    }
}

} // verus!
