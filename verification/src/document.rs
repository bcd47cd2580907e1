//! Sparse mapping documents.
//!
//! A document is an ordered list of entries. It opens with the `type` entry,
//! which names the datatype, and goes on with one entry for each parameter
//! that was set, in the order in which the parameters are declared. A
//! parameter that was not set leaves no trace: no key, no null.

use crate::strings::str_eq;
use crate::value::{view_opt, Value, ValueView};
use vstd::prelude::*;

verus! {

/// The key of the entry that names the datatype.
pub const TYPE_KEY: &'static str = "type";

/// One `key: value` entry of a document.
#[derive(Debug, Clone, Copy, PartialEq, Eq)]
pub struct Entry {
    pub key: &'static str,
    pub value: Value,
}

/// The mathematical content of an [`Entry`].
pub struct EntryView {
    pub key: Seq<char>,
    pub value: ValueView,
}

impl View for Entry {
    type V = EntryView;

    open spec fn view(&self) -> EntryView {
        EntryView { key: self.key@, value: self.value@ }
    }
}

/// A declared parameter: its key, and its value if one was set.
#[derive(Debug, Clone, Copy, PartialEq, Eq)]
pub struct Param {
    pub key: &'static str,
    pub value: Option<Value>,
}

/// The mathematical content of a [`Param`].
pub struct ParamView {
    pub key: Seq<char>,
    pub value: Option<ValueView>,
}

impl View for Param {
    type V = ParamView;

    open spec fn view(&self) -> ParamView {
        ParamView { key: self.key@, value: view_opt(self.value) }
    }
}

/// The content of a list of declared parameters.
pub open spec fn params_view(params: Seq<Param>) -> Seq<ParamView> {
    params.map_values(|p: Param| p@)
}

/// The entry that names the datatype.
pub open spec fn type_entry(datatype: Seq<char>) -> EntryView {
    EntryView { key: TYPE_KEY@, value: ValueView::Str(datatype) }
}

/// A document after one more declared parameter: longer by the parameter's
/// entry if its value is set, unchanged if not.
pub open spec fn emit(doc: Seq<EntryView>, p: ParamView) -> Seq<EntryView> {
    match p.value {
        Some(value) => doc.push(EntryView { key: p.key, value }),
        None => doc,
    }
}

/// The entries of the parameters that are set, in declared order.
pub open spec fn present(params: Seq<ParamView>) -> Seq<EntryView>
    decreases params.len(),
{
    if params.len() == 0 {
        Seq::empty()
    } else {
        emit(present(params.drop_last()), params.last())
    }
}

/// The document of a datatype and its declared parameters: the `type` entry,
/// then the entries of the parameters that are set.
pub open spec fn document_of(datatype: Seq<char>, params: Seq<ParamView>) -> Seq<EntryView> {
    seq![type_entry(datatype)] + present(params)
}

/// The index in `document_of(_, params)` at which parameter `i` stands if it
/// is set: behind the `type` entry and the set parameters declared before it.
pub open spec fn position(params: Seq<ParamView>, i: int) -> int {
    1 + present(params.take(i)).len() as int
}

/// The declared parameter that entry `j` of `present(params)` comes from.
pub open spec fn origin(params: Seq<ParamView>, j: int) -> int
    decreases params.len(),
{
    if params.len() == 0 {
        0
    } else if params.last().value is Some && j == present(params.drop_last()).len() {
        params.len() - 1
    } else {
        origin(params.drop_last(), j)
    }
}

/// Whether some entry of the document has the key.
pub open spec fn has_key(doc: Seq<EntryView>, key: Seq<char>) -> bool {
    exists|j: int| 0 <= j < doc.len() && (#[trigger] doc[j]).key == key
}

/// Whether entry `j` is the first entry of the document with the key.
pub open spec fn is_first_with_key(doc: Seq<EntryView>, key: Seq<char>, j: int) -> bool {
    &&& 0 <= j < doc.len()
    &&& doc[j].key == key
    &&& forall|k: int| 0 <= k < j ==> (#[trigger] doc[k]).key != key
}

/// The value that the document gives for the key: that of the first entry
/// with the key, if there is one.
pub open spec fn lookup(doc: Seq<EntryView>, key: Seq<char>) -> Option<ValueView> {
    if exists|j: int| is_first_with_key(doc, key, j) {
        Some(doc[choose|j: int| is_first_with_key(doc, key, j)].value)
    } else {
        None
    }
}

/// Whether no two entries of the document share a key.
pub open spec fn keys_unique(doc: Seq<EntryView>) -> bool {
    forall|a: int, b: int|
        0 <= a < b < doc.len() ==> (#[trigger] doc[a]).key != (#[trigger] doc[b]).key
}

/// Whether the declared parameters can stand in one document: no two share a
/// key, and none takes the key of the `type` entry.
pub open spec fn well_declared(params: Seq<ParamView>) -> bool {
    &&& forall|i: int| 0 <= i < params.len() ==> (#[trigger] params[i]).key != TYPE_KEY@
    &&& forall|i: int, j: int|
        0 <= i < j < params.len() ==> (#[trigger] params[i]).key != (#[trigger] params[j]).key
}

/// Declaring one more parameter emits it behind the others.
pub proof fn lemma_present_push(params: Seq<ParamView>, p: ParamView)
    ensures
        present(params.push(p)) == emit(present(params), p),
{
    assert(params.push(p).drop_last() =~= params);
}

/// The set parameters among the first `i` open the set parameters among all.
pub proof fn lemma_present_prefix(params: Seq<ParamView>, i: int)
    requires
        0 <= i <= params.len(),
    ensures
        present(params.take(i)).len() <= present(params).len(),
        present(params).take(present(params.take(i)).len() as int) == present(params.take(i)),
    decreases params.len(),
{
    if i == params.len() {
        assert(params.take(i) =~= params);
        assert(present(params).take(present(params).len() as int) =~= present(params));
    } else {
        let front = params.drop_last();
        lemma_present_prefix(front, i);
        assert(front.take(i) =~= params.take(i));
        let n = present(params.take(i)).len() as int;
        assert(present(params).take(n) =~= present(front).take(n));
    }
}

/// A parameter that is set stands at its position, with its key and value.
pub proof fn lemma_present_at_position(params: Seq<ParamView>, i: int)
    requires
        0 <= i < params.len(),
        params[i].value is Some,
    ensures
        position(params, i) - 1 < present(params).len(),
        present(params)[position(params, i) - 1] == (EntryView {
            key: params[i].key,
            value: params[i].value->0,
        }),
{
    let upto = params.take(i + 1);
    assert(upto.drop_last() =~= params.take(i));
    assert(upto.last() == params[i]);
    lemma_present_prefix(params, i + 1);
    let n = present(upto).len() as int;
    assert(present(params).take(n)[n - 1] == present(upto)[n - 1]);
}

/// Parameters stand in the document in the order in which they are declared.
pub proof fn lemma_position_monotone(params: Seq<ParamView>, i: int, j: int)
    requires
        0 <= i < j <= params.len(),
    ensures
        position(params, i) <= position(params, j),
        params[i].value is Some ==> position(params, i) < position(params, j),
{
    let upto = params.take(j);
    assert(upto.take(i) =~= params.take(i));
    assert(upto.take(i + 1) =~= params.take(i + 1));
    lemma_present_prefix(upto, i + 1);
    assert(params.take(i + 1).drop_last() =~= params.take(i));
    assert(params.take(i + 1).last() == params[i]);
}

/// Every entry behind the `type` entry is the entry of a declared parameter
/// that is set, and stands at that parameter's position.
pub proof fn lemma_entry_origin(params: Seq<ParamView>, j: int)
    requires
        0 <= j < present(params).len(),
    ensures
        0 <= origin(params, j) < params.len(),
        params[origin(params, j)].value is Some,
        position(params, origin(params, j)) == j + 1,
        present(params)[j] == (EntryView {
            key: params[origin(params, j)].key,
            value: params[origin(params, j)].value->0,
        }),
    decreases params.len(),
{
    let front = params.drop_last();
    if params.last().value is Some && j == present(front).len() {
        assert(params.take(params.len() - 1) =~= front);
    } else {
        lemma_entry_origin(front, j);
        let o = origin(front, j);
        assert(front.take(o) =~= params.take(o));
    }
}

/// A document of declared parameters opens with the `type` entry, whatever
/// the parameters are.
pub proof fn lemma_type_entry_first(datatype: Seq<char>, params: Seq<ParamView>)
    ensures
        document_of(datatype, params).len() == 1 + present(params).len(),
        document_of(datatype, params)[0] == type_entry(datatype),
        is_first_with_key(document_of(datatype, params), TYPE_KEY@, 0),
        lookup(document_of(datatype, params), TYPE_KEY@) == Some(ValueView::Str(datatype)),
{
    let doc = document_of(datatype, params);
    assert(is_first_with_key(doc, TYPE_KEY@, 0));
    let first = choose|j: int| is_first_with_key(doc, TYPE_KEY@, j);
    assert(first == 0) by {
        if first > 0 {
            assert(doc[0].key == TYPE_KEY@);
        }
    }
}

/// No two entries of a document of well-declared parameters share a key.
pub proof fn lemma_keys_unique(datatype: Seq<char>, params: Seq<ParamView>)
    requires
        well_declared(params),
    ensures
        keys_unique(document_of(datatype, params)),
{
    let doc = document_of(datatype, params);
    assert forall|a: int, b: int| 0 <= a < b < doc.len() implies (#[trigger] doc[a]).key != (
    #[trigger] doc[b]).key by {
        lemma_entry_origin(params, b - 1);
        let ob = origin(params, b - 1);
        assert(doc[b] == present(params)[b - 1]);
        assert(params[ob].key != TYPE_KEY@);
        if a > 0 {
            lemma_entry_origin(params, a - 1);
            let oa = origin(params, a - 1);
            assert(doc[a] == present(params)[a - 1]);
            assert(oa != ob);
            if oa < ob {
                assert(params[oa].key != params[ob].key);
            } else {
                assert(params[ob].key != params[oa].key);
            }
        }
    }
}

/// The key of a parameter that is not set occurs nowhere in the document.
pub proof fn lemma_absent_omitted(datatype: Seq<char>, params: Seq<ParamView>, i: int)
    requires
        well_declared(params),
        0 <= i < params.len(),
        params[i].value is None,
    ensures
        !has_key(document_of(datatype, params), params[i].key),
        lookup(document_of(datatype, params), params[i].key) is None,
{
    let doc = document_of(datatype, params);
    let key = params[i].key;
    assert forall|j: int| 0 <= j < doc.len() implies (#[trigger] doc[j]).key != key by {
        if j > 0 {
            lemma_entry_origin(params, j - 1);
            let o = origin(params, j - 1);
            assert(doc[j] == present(params)[j - 1]);
            if o < i {
                assert(params[o].key != params[i].key);
            } else if i < o {
                assert(params[i].key != params[o].key);
            }
        } else {
            assert(params[i].key != TYPE_KEY@);
        }
    }
}

/// A parameter that is set occurs in the document once, at its position, with
/// its exact value.
pub proof fn lemma_present_emitted(datatype: Seq<char>, params: Seq<ParamView>, i: int)
    requires
        well_declared(params),
        0 <= i < params.len(),
        params[i].value is Some,
    ensures
        position(params, i) < document_of(datatype, params).len(),
        document_of(datatype, params)[position(params, i)] == (EntryView {
            key: params[i].key,
            value: params[i].value->0,
        }),
        is_first_with_key(document_of(datatype, params), params[i].key, position(params, i)),
        lookup(document_of(datatype, params), params[i].key) == params[i].value,
{
    let doc = document_of(datatype, params);
    let key = params[i].key;
    let at = position(params, i);
    lemma_present_at_position(params, i);
    lemma_keys_unique(datatype, params);
    assert(doc[at] == present(params)[at - 1]);
    assert forall|k: int| 0 <= k < at implies (#[trigger] doc[k]).key != key by {
        assert(doc[k].key != doc[at].key);
    }
    assert(is_first_with_key(doc, key, at));
    let first = choose|j: int| is_first_with_key(doc, key, j);
    assert(first == at) by {
        if first < at {
            assert(doc[first].key != doc[at].key);
        } else if at < first {
            assert(doc[at].key != doc[first].key);
        }
    }
}

/// Looking up the key of any declared parameter gives the parameter's value,
/// set or not: the document holds exactly what was declared.
pub proof fn lemma_lookup_declared(datatype: Seq<char>, params: Seq<ParamView>, i: int)
    requires
        well_declared(params),
        0 <= i < params.len(),
    ensures
        lookup(document_of(datatype, params), params[i].key) == params[i].value,
        has_key(document_of(datatype, params), params[i].key) <==> params[i].value is Some,
{
    if params[i].value is Some {
        lemma_present_emitted(datatype, params, i);
        let doc = document_of(datatype, params);
        assert(doc[position(params, i)].key == params[i].key);
    } else {
        lemma_absent_omitted(datatype, params, i);
    }
}

/// A sparse mapping document: an ordered list of entries.
#[derive(Debug, PartialEq, Eq)]
pub struct Document {
    entries: Vec<Entry>,
}

impl View for Document {
    type V = Seq<EntryView>;

    closed spec fn view(&self) -> Seq<EntryView> {
        self.entries@.map_values(|e: Entry| e@)
    }
}

impl Clone for Document {
    /// A document with the same entries in the same order.
    fn clone(&self) -> (copy: Self)
        ensures
            copy@ == self@,
    {
        let entries = self.entries.clone();
        assert(entries@ =~= self.entries@);
        Document { entries }
    }
}

impl Document {
    /// A document that holds the `type` entry of the datatype and nothing else.
    pub fn new(datatype: &'static str) -> (doc: Document)
        ensures
            doc@ == seq![type_entry(datatype@)],
    {
        let mut entries: Vec<Entry> = Vec::new();
        entries.push(Entry { key: TYPE_KEY, value: Value::Str(datatype) });
        let doc = Document { entries };
        assert(doc@ =~= seq![type_entry(datatype@)]);
        doc
    }

    /// Appends the entry of a parameter if its value is set, and leaves the
    /// document as it is if not.
    pub fn emit(&mut self, key: &'static str, value: Option<Value>)
        ensures
            final(self)@ == emit(old(self)@, ParamView { key: key@, value: view_opt(value) }),
    {
        match value {
            Some(value) => {
                self.entries.push(Entry { key, value });
                assert(self@ =~= old(self)@.push(EntryView { key: key@, value: value@ }));
            },
            None => {},
        }
    }

    /// The document of a datatype and its declared parameters: the `type`
    /// entry, then one entry for each parameter that is set, in declared
    /// order.
    pub fn sparse(datatype: &'static str, params: &[Param]) -> (doc: Document)
        ensures
            doc@ == document_of(datatype@, params_view(params@)),
    {
        let mut doc = Document::new(datatype);
        let ghost declared = params_view(params@);
        let mut i: usize = 0;
        assert(doc@ =~= document_of(datatype@, declared.take(0)));
        while i < params.len()
            invariant
                i <= params.len(),
                declared == params_view(params@),
                doc@ == document_of(datatype@, declared.take(i as int)),
            decreases params.len() - i,
        {
            let p = params[i];
            doc.emit(p.key, p.value);
            proof {
                let seen = declared.take(i as int);
                assert(declared.take(i + 1) =~= seen.push(declared[i as int]));
                lemma_present_push(seen, declared[i as int]);
                assert(doc@ =~= document_of(datatype@, declared.take(i + 1)));
            }
            i += 1;
        }
        assert(declared.take(i as int) =~= declared);
        doc
    }

    /// The number of entries, the `type` entry included.
    pub fn len(&self) -> (n: usize)
        ensures
            n == self@.len(),
    {
        self.entries.len()
    }

    /// The entry at the index, if the document is that long.
    pub fn entry(&self, index: usize) -> (entry: Option<Entry>)
        ensures
            index < self@.len() ==> entry is Some && entry->0@ == self@[index as int],
            index >= self@.len() ==> entry is None,
    {
        if index < self.entries.len() {
            Some(self.entries[index])
        } else {
            None
        }
    }

    /// The value of the first entry with the key, if there is one.
    pub fn get(&self, key: &str) -> (value: Option<Value>)
        ensures
            view_opt(value) == lookup(self@, key@),
            value is Some <==> has_key(self@, key@),
    {
        let mut i: usize = 0;
        while i < self.entries.len()
            invariant
                i <= self.entries.len(),
                forall|k: int| 0 <= k < i ==> (#[trigger] self@[k]).key != key@,
            decreases self.entries.len() - i,
        {
            if str_eq(self.entries[i].key, key) {
                proof {
                    assert(self@[i as int].key == key@);
                    assert(is_first_with_key(self@, key@, i as int));
                    let first = choose|j: int| is_first_with_key(self@, key@, j);
                    assert(first == i) by {
                        if first < i {
                            assert(self@[first].key != key@);
                        } else if i < first {
                            assert(self@[i as int].key == key@);
                        }
                    }
                }
                return Some(self.entries[i].value);
            }
            i += 1;
        }
        None
    }
}

} // verus!
