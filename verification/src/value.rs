//! Dynamically typed values and the records made of them: one record per
//! result row, holding each column's value under the column's name.

use vstd::prelude::*;
use vstd::string::*;

verus! {

/// A decoded cell: one of exactly five kinds.
#[derive(Debug, PartialEq, Eq)]
pub enum DynamicValue {
    Text(String),
    Integer(i64),
    /// A double-precision number, held as its IEEE 754 binary64 bit pattern.
    Real(u64),
    Blob(Vec<u8>),
    Null,
}

/// The mathematical content of a `DynamicValue`.
pub enum ValueModel {
    Text(Seq<char>),
    Integer(i64),
    Real(u64),
    Blob(Seq<u8>),
    Null,
}

impl View for DynamicValue {
    type V = ValueModel;

    open spec fn view(&self) -> ValueModel {
        match self {
            DynamicValue::Text(s) => ValueModel::Text(s@),
            DynamicValue::Integer(n) => ValueModel::Integer(*n),
            DynamicValue::Real(bits) => ValueModel::Real(*bits),
            DynamicValue::Blob(bytes) => ValueModel::Blob(bytes@),
            DynamicValue::Null => ValueModel::Null,
        }
    }
}

impl Clone for DynamicValue {
    fn clone(&self) -> (r: Self)
        ensures
            r@ == self@,
    {
        match self {
            DynamicValue::Text(s) => DynamicValue::Text(s.clone()),
            DynamicValue::Integer(n) => DynamicValue::Integer(*n),
            DynamicValue::Real(bits) => DynamicValue::Real(*bits),
            DynamicValue::Blob(bytes) => {
                let copy = bytes.clone();
                assert(copy@ =~= bytes@);
                DynamicValue::Blob(copy)
            },
            DynamicValue::Null => DynamicValue::Null,
        }
    }
}

/// The entries of a record: names with their values, in insertion order.
pub type Entries = Seq<(Seq<char>, ValueModel)>;

/// No name occurs twice.
pub open spec fn distinct_names(entries: Entries) -> bool {
    forall|i: int, j: int|
        0 <= i < j < entries.len() ==> (#[trigger] entries[i]).0 != (#[trigger] entries[j]).0
}

/// Some entry has this name.
pub open spec fn has_name(entries: Entries, name: Seq<char>) -> bool {
    exists|i: int| 0 <= i < entries.len() && (#[trigger] entries[i]).0 == name
}

/// The place of an entry with this name, where there is one.
pub open spec fn place_of(entries: Entries, name: Seq<char>) -> int {
    choose|i: int| 0 <= i < entries.len() && (#[trigger] entries[i]).0 == name
}

/// The entries after storing `value` under `name`: a name already present
/// keeps its place and takes the new value, a new name goes to the end.
pub open spec fn stored(entries: Entries, name: Seq<char>, value: ValueModel) -> Entries {
    if has_name(entries, name) {
        entries.update(place_of(entries, name), (name, value))
    } else {
        entries.push((name, value))
    }
}

/// The value under `name`, if any.
pub open spec fn lookup(entries: Entries, name: Seq<char>) -> Option<ValueModel> {
    if has_name(entries, name) {
        Some(entries[place_of(entries, name)].1)
    } else {
        None
    }
}

/// Storing keeps the names distinct, and the stored value is the one found
/// under its name afterwards.
pub proof fn lemma_stored(entries: Entries, name: Seq<char>, value: ValueModel)
    requires
        distinct_names(entries),
    ensures
        distinct_names(stored(entries, name, value)),
        lookup(stored(entries, name, value), name) == Some(value),
        stored(entries, name, value).len() == if has_name(entries, name) {
            entries.len()
        } else {
            entries.len() + 1
        },
{
    let after = stored(entries, name, value);
    if has_name(entries, name) {
        let p = place_of(entries, name);
        assert(after[p].0 == name);
        assert forall|i: int, j: int| 0 <= i < j < after.len() implies (#[trigger] after[i]).0
            != (#[trigger] after[j]).0 by {
            assert(entries[i].0 != entries[j].0);
        }
    } else {
        let p = entries.len() as int;
        assert(after[p].0 == name);
        assert forall|i: int, j: int| 0 <= i < j < after.len() implies (#[trigger] after[i]).0
            != (#[trigger] after[j]).0 by {
            if j < entries.len() {
                assert(entries[i].0 != entries[j].0);
            } else {
                assert(entries[i].0 != name);
            }
        }
    }
    let q = place_of(after, name);
    assert(after[q].0 == name);
    if has_name(entries, name) {
        let p = place_of(entries, name);
        assert(q == p) by {
            if q < p {
                assert(after[q].0 != after[p].0);
            } else if p < q {
                assert(after[p].0 != after[q].0);
            }
        }
    } else {
        let p = entries.len() as int;
        assert(q == p) by {
            if q < p {
                assert(after[q].0 != after[p].0);
            }
        }
    }
}

/// One result row: an ordered mapping from column name to value.
#[derive(Debug, PartialEq, Eq)]
pub struct DynamicRecord {
    entries: Vec<(String, DynamicValue)>,
}

impl View for DynamicRecord {
    type V = Entries;

    closed spec fn view(&self) -> Entries {
        self.entries.deep_view()
    }
}

impl DeepView for DynamicRecord {
    type V = Entries;

    open spec fn deep_view(&self) -> Entries {
        self.view()
    }
}

impl DeepView for DynamicValue {
    type V = ValueModel;

    open spec fn deep_view(&self) -> ValueModel {
        self.view()
    }
}

impl Clone for DynamicRecord {
    fn clone(&self) -> (r: Self)
        ensures
            r@ == self@,
    {
        proof {
            use_type_invariant(self);
        }
        let mut entries: Vec<(String, DynamicValue)> = Vec::new();
        let mut i: usize = 0;
        while i < self.entries.len()
            invariant
                i <= self.entries.len(),
                entries.deep_view() == self.entries.deep_view().take(i as int),
            decreases self.entries.len() - i,
        {
            let ghost copied = entries.deep_view();
            let entry = &self.entries[i];
            entries.push((entry.0.clone(), entry.1.clone()));
            assert(entries.deep_view() =~= copied.push((entry.0@, entry.1@)));
            assert(entries.deep_view() =~= self.entries.deep_view().take(i + 1));
            i += 1;
        }
        assert(entries.deep_view() =~= self.entries.deep_view());
        DynamicRecord { entries }
    }
}

impl DynamicRecord {
    #[verifier::type_invariant]
    spec fn names_are_distinct(self) -> bool {
        distinct_names(self.entries.deep_view())
    }

    /// The record without entries.
    pub fn new() -> (r: Self)
        ensures
            r@ == Entries::empty(),
    {
        let r = DynamicRecord { entries: Vec::new() };
        assert(r.entries.deep_view() =~= Entries::empty());
        r
    }

    /// The number of entries.
    pub fn len(&self) -> (n: usize)
        ensures
            n == self@.len(),
    {
        self.entries.len()
    }

    /// The name of the entry at `index`, in insertion order.
    pub fn name_at(&self, index: usize) -> (name: &String)
        requires
            index < self@.len(),
        ensures
            name@ == self@[index as int].0,
    {
        &self.entries[index].0
    }

    /// The value of the entry at `index`, in insertion order.
    pub fn value_at(&self, index: usize) -> (value: &DynamicValue)
        requires
            index < self@.len(),
        ensures
            value@ == self@[index as int].1,
    {
        &self.entries[index].1
    }

    /// The place of the entry called `name`, if there is one.
    fn find(&self, name: &String) -> (r: Option<usize>)
        ensures
            match r {
                Some(i) => i < self@.len() && self@[i as int].0 == name@ && has_name(
                    self@,
                    name@,
                ) && place_of(self@, name@) == i,
                None => !has_name(self@, name@),
            },
    {
        proof {
            use_type_invariant(self);
        }
        let mut i: usize = 0;
        while i < self.entries.len()
            invariant
                i <= self.entries.len(),
                distinct_names(self@),
                forall|k: int| 0 <= k < i ==> (#[trigger] self@[k]).0 != name@,
            decreases self.entries.len() - i,
        {
            if self.entries[i].0 == *name {
                proof {
                    let p = place_of(self@, name@);
                    assert(self@[i as int].0 == name@);
                    if p < i {
                        assert(self@[p].0 != self@[i as int].0);
                    } else if i < p {
                        assert(self@[i as int].0 != self@[p].0);
                    }
                }
                return Some(i);
            }
            i += 1;
        }
        None
    }

    /// The value stored under `name`, if any.
    pub fn get(&self, name: &String) -> (r: Option<&DynamicValue>)
        ensures
            match r {
                Some(v) => lookup(self@, name@) == Some(v@),
                None => lookup(self@, name@) == None::<ValueModel>,
            },
    {
        match self.find(name) {
            Some(i) => Some(&self.entries[i].1),
            None => None,
        }
    }

    /// Stores `value` under `name`: in place of the value that the name had,
    /// or as a new last entry.
    pub fn set(&mut self, name: String, value: DynamicValue)
        ensures
            final(self)@ == stored(old(self)@, name@, value@),
            distinct_names(final(self)@),
    {
        proof {
            use_type_invariant(&*self);
            lemma_stored(self@, name@, value@);
        }
        let ghost before = self.entries.deep_view();
        let found = self.find(&name);
        // The entries leave the record while they change, so that the record
        // itself never holds a name twice.
        let mut entries: Vec<(String, DynamicValue)> = Vec::new();
        assert(entries.deep_view() =~= Entries::empty());
        std::mem::swap(&mut self.entries, &mut entries);
        match found {
            Some(i) => {
                entries.set(i, (name, value));
                assert(entries.deep_view() =~= before.update(i as int, (name@, value@)));
            },
            None => {
                entries.push((name, value));
                assert(entries.deep_view() =~= before.push((name@, value@)));
            },
        }
        self.entries = entries;
    }
}

} // verus!
