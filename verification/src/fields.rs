//! The sub-fields of a string field, by name.

use crate::field::ElasticStringField;
use crate::strings::{
    lemma_text_less_asymmetric, lemma_text_less_transitive, str_order, text_less, Order,
};
use vstd::prelude::*;

verus! {

/// A sub-field and the name under which it is nested in its parent field.
#[derive(Debug, Clone, Copy)]
pub struct SubField {
    pub name: &'static str,
    pub field: ElasticStringField,
}

/// Whether the names ascend in the order of texts. Then no name occurs twice.
pub open spec fn names_ascend(subfields: Seq<(Seq<char>, ElasticStringField)>) -> bool {
    forall|i: int, j: int|
        0 <= i < j < subfields.len() ==> text_less(
            (#[trigger] subfields[i]).0,
            (#[trigger] subfields[j]).0,
        )
}

/// Whether some sub-field has the name.
pub open spec fn has_name(subfields: Seq<(Seq<char>, ElasticStringField)>, name: Seq<char>) -> bool {
    exists|i: int| 0 <= i < subfields.len() && (#[trigger] subfields[i]).0 == name
}

/// The sub-field of the name, if there is one.
pub open spec fn field_of(
    subfields: Seq<(Seq<char>, ElasticStringField)>,
    name: Seq<char>,
) -> Option<ElasticStringField> {
    if has_name(subfields, name) {
        let i = choose|i: int| 0 <= i < subfields.len() && (#[trigger] subfields[i]).0 == name;
        Some(subfields[i].1)
    } else {
        None
    }
}

/// Among ascending names, a name stands at one index only, and the
/// sub-field of the name is the one at that index.
pub proof fn lemma_field_at(subfields: Seq<(Seq<char>, ElasticStringField)>, i: int)
    requires
        names_ascend(subfields),
        0 <= i < subfields.len(),
    ensures
        has_name(subfields, subfields[i].0),
        field_of(subfields, subfields[i].0) == Some(subfields[i].1),
        forall|j: int|
            0 <= j < subfields.len() && j != i ==> (#[trigger] subfields[j]).0 != subfields[i].0,
{
    let name = subfields[i].0;
    assert forall|j: int| 0 <= j < subfields.len() && j != i implies (#[trigger] subfields[j]).0
        != name by {
        if j < i {
            lemma_text_less_asymmetric(subfields[j].0, subfields[i].0);
        } else {
            lemma_text_less_asymmetric(subfields[i].0, subfields[j].0);
        }
    }
}

/// A name that comes after the names before an index, and before the names
/// from that index on, is none of the names.
pub proof fn lemma_not_named(
    subfields: Seq<(Seq<char>, ElasticStringField)>,
    name: Seq<char>,
    at: int,
)
    requires
        0 <= at <= subfields.len(),
        forall|k: int| 0 <= k < at ==> text_less((#[trigger] subfields[k]).0, name),
        forall|k: int| at <= k < subfields.len() ==> text_less(name, (#[trigger] subfields[k]).0),
    ensures
        !has_name(subfields, name),
{
    assert forall|k: int| 0 <= k < subfields.len() implies (#[trigger] subfields[k]).0 != name by {
        if k < at {
            lemma_text_less_asymmetric(subfields[k].0, name);
        } else {
            lemma_text_less_asymmetric(name, subfields[k].0);
        }
    }
}

/// The sub-fields of a string field: a map from name to sub-field, held in
/// the order of the names.
#[derive(Debug)]
pub struct MultiFieldMap {
    entries: Vec<SubField>,
}

impl View for MultiFieldMap {
    type V = Seq<(Seq<char>, ElasticStringField)>;

    closed spec fn view(&self) -> Seq<(Seq<char>, ElasticStringField)> {
        self.entries@.map_values(|e: SubField| (e.name@, e.field))
    }
}

impl Clone for MultiFieldMap {
    /// A map with the same sub-fields under the same names.
    fn clone(&self) -> (copy: Self)
        ensures
            copy@ == self@,
    {
        proof {
            use_type_invariant(self);
        }
        let entries = self.entries.clone();
        assert(entries@ =~= self.entries@);
        MultiFieldMap { entries }
    }
}

impl MultiFieldMap {
    /// The names of a map ascend at all times, so none occurs twice.
    #[verifier::type_invariant]
    spec fn ascending(self) -> bool {
        names_ascend(self@)
    }

    /// The map with no sub-field.
    pub fn new() -> (map: MultiFieldMap)
        ensures
            map@ == Seq::<(Seq<char>, ElasticStringField)>::empty(),
    {
        let map = MultiFieldMap { entries: Vec::new() };
        assert(map@ =~= Seq::<(Seq<char>, ElasticStringField)>::empty());
        map
    }

    /// The number of sub-fields.
    pub fn len(&self) -> (n: usize)
        ensures
            n == self@.len(),
    {
        self.entries.len()
    }

    /// The sub-field at the index in the order of the names, if the map is
    /// that long.
    pub fn subfield(&self, index: usize) -> (subfield: Option<SubField>)
        ensures
            names_ascend(self@),
            index < self@.len() ==> subfield is Some && (subfield->0.name@, subfield->0.field)
                == self@[index as int],
            index >= self@.len() ==> subfield is None,
    {
        proof {
            use_type_invariant(self);
        }
        if index < self.entries.len() {
            Some(self.entries[index])
        } else {
            None
        }
    }

    /// The index at which the name stands, or would stand if it were put in.
    fn locate(&self, name: &str) -> (at: (usize, bool))
        ensures
            names_ascend(self@),
            at.0 <= self@.len(),
            forall|k: int| 0 <= k < at.0 ==> text_less((#[trigger] self@[k]).0, name@),
            forall|k: int|
                at.0 + (if at.1 { 1int } else { 0int }) <= k < self@.len() ==> text_less(
                    name@,
                    (#[trigger] self@[k]).0,
                ),
            at.1 ==> at.0 < self@.len() && self@[at.0 as int].0 == name@,
            at.1 <==> has_name(self@, name@),
    {
        proof {
            use_type_invariant(self);
        }
        let mut i: usize = 0;
        while i < self.entries.len()
            invariant
                names_ascend(self@),
                i <= self.entries.len(),
                forall|k: int| 0 <= k < i ==> text_less((#[trigger] self@[k]).0, name@),
            decreases self.entries.len() - i,
        {
            match str_order(self.entries[i].name, name) {
                Order::Before => {},
                Order::Same => {
                    proof {
                        assert(self@[i as int].0 == name@);
                        assert forall|k: int| i + 1 <= k < self@.len() implies text_less(
                            name@,
                            (#[trigger] self@[k]).0,
                        ) by {
                            assert(text_less(self@[i as int].0, self@[k].0));
                        }
                    }
                    return (i, true);
                },
                Order::After => {
                    proof {
                        assert forall|k: int| i <= k < self@.len() implies text_less(
                            name@,
                            (#[trigger] self@[k]).0,
                        ) by {
                            if i < k {
                                assert(text_less(self@[i as int].0, self@[k].0));
                                lemma_text_less_transitive(name@, self@[i as int].0, self@[k].0);
                            }
                        }
                        lemma_not_named(self@, name@, i as int);
                    }
                    return (i, false);
                },
            }
            i += 1;
        }
        proof {
            lemma_not_named(self@, name@, i as int);
        }
        (i, false)
    }

    /// The sub-field of the name, if the map has one.
    pub fn get(&self, name: &str) -> (field: Option<ElasticStringField>)
        ensures
            field == field_of(self@, name@),
    {
        let (at, found) = self.locate(name);
        if found {
            proof {
                lemma_field_at(self@, at as int);
            }
            Some(self.entries[at].field)
        } else {
            None
        }
    }

    /// Puts the sub-field in under the name, in the place that the order of
    /// the names gives it. If the map had a sub-field of that name, the new
    /// one takes its place and the old one is returned.
    pub fn insert(&mut self, name: &'static str, field: ElasticStringField) -> (previous: Option<
        ElasticStringField,
    >)
        ensures
            names_ascend(final(self)@),
            previous == field_of(old(self)@, name@),
            match previous {
                Some(_) => exists|at: int|
                    0 <= at < old(self)@.len() && (#[trigger] old(self)@[at]).0 == name@
                        && final(self)@ == old(self)@.update(at, (name@, field)),
                None => exists|at: int|
                    0 <= at <= old(self)@.len()
                        && final(self)@ == #[trigger] old(self)@.insert(at, (name@, field)),
            },
            forall|other: Seq<char>|
                #![trigger field_of(final(self)@, other)]
                field_of(final(self)@, other) == if other == name@ {
                    Some(field)
                } else {
                    field_of(old(self)@, other)
                },
    {
        let (at, found) = self.locate(name);
        let ghost before = self@;
        let mut entries: Vec<SubField> = Vec::new();
        std::mem::swap(&mut entries, &mut self.entries);
        if found {
            let held = entries[at];
            entries.set(at, SubField { name: held.name, field });
            proof {
                let after = entries@.map_values(|e: SubField| (e.name@, e.field));
                assert(after =~= before.update(at as int, (name@, field)));
                assert forall|i: int, j: int| 0 <= i < j < after.len() implies text_less(
                    (#[trigger] after[i]).0,
                    (#[trigger] after[j]).0,
                ) by {
                    assert(after[i].0 == before[i].0);
                    assert(after[j].0 == before[j].0);
                }
                lemma_field_at(before, at as int);
                assert forall|other: Seq<char>|
                    #![trigger field_of(after, other)]
                    field_of(after, other) == if other == name@ {
                        Some(field)
                    } else {
                        field_of(before, other)
                    } by {
                    if other == name@ {
                        lemma_field_at(after, at as int);
                    } else if has_name(before, other) {
                        let i = choose|i: int|
                            0 <= i < before.len() && (#[trigger] before[i]).0 == other;
                        lemma_field_at(before, i);
                        assert(after[i] == before[i]);
                        lemma_field_at(after, i);
                    } else {
                        if has_name(after, other) {
                            let i = choose|i: int|
                                0 <= i < after.len() && (#[trigger] after[i]).0 == other;
                            assert(before[i].0 == other);
                        }
                    }
                }
            }
            self.entries = entries;
            Some(held.field)
        } else {
            entries.insert(at, SubField { name, field });
            proof {
                let after = entries@.map_values(|e: SubField| (e.name@, e.field));
                assert(after =~= before.insert(at as int, (name@, field)));
                assert forall|i: int, j: int| 0 <= i < j < after.len() implies text_less(
                    (#[trigger] after[i]).0,
                    (#[trigger] after[j]).0,
                ) by {
                    let bi = if i < at { i } else { i - 1 };
                    let bj = if j < at { j } else { j - 1 };
                    if i != at && j != at {
                        assert(after[i] == before[bi]);
                        assert(after[j] == before[bj]);
                        assert(text_less(before[bi].0, before[bj].0));
                    } else if i == at {
                        assert(after[j] == before[bj]);
                    } else {
                        assert(after[i] == before[bi]);
                    }
                }
                assert forall|other: Seq<char>|
                    #![trigger field_of(after, other)]
                    field_of(after, other) == if other == name@ {
                        Some(field)
                    } else {
                        field_of(before, other)
                    } by {
                    if other == name@ {
                        lemma_field_at(after, at as int);
                    } else if has_name(before, other) {
                        let i = choose|i: int|
                            0 <= i < before.len() && (#[trigger] before[i]).0 == other;
                        lemma_field_at(before, i);
                        let ai = if i < at { i } else { i + 1 };
                        assert(after[ai] == before[i]);
                        lemma_field_at(after, ai);
                    } else {
                        if has_name(after, other) {
                            let i = choose|i: int|
                                0 <= i < after.len() && (#[trigger] after[i]).0 == other;
                            let bi = if i < at { i } else { i - 1 };
                            assert(before[bi].0 == other);
                        }
                    }
                }
            }
            self.entries = entries;
            None
        }
    }
}

} // verus!
