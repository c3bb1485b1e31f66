//! The crate's own representation of a TOML document, together with its
//! mathematical model: tables are association sequences of key/value pairs.

use vstd::prelude::*;

verus! {

/// The mathematical model of a TOML value. A table is modelled as the
/// sequence of its key/value pairs, in whatever order its producer yields
/// them; lookups read the first entry for a key, and well-formed tables
/// hold each key once.
pub enum TomlData {
    Str(Seq<char>),
    Int(int),
    Bool(bool),
    Arr(Seq<TomlData>),
    Tab(Seq<(Seq<char>, TomlData)>),
}

/// Index of the first entry at or after position `i` whose key is `k`.
pub open spec fn key_idx_from(t: Seq<(Seq<char>, TomlData)>, k: Seq<char>, i: int) -> Option<
    int,
>
    decreases t.len() - i,
{
    if i < 0 || i >= t.len() {
        None
    } else if t[i].0 == k {
        Some(i)
    } else {
        key_idx_from(t, k, i + 1)
    }
}

/// The value a table holds under key `k`, if any.
pub open spec fn tab_lookup(t: Seq<(Seq<char>, TomlData)>, k: Seq<char>) -> Option<TomlData> {
    match key_idx_from(t, k, 0) {
        Some(j) => Some(t[j].1),
        None => None,
    }
}

/// Replace the value under `k` in place, or append the pair if `k` is new.
pub open spec fn spec_upsert(
    t: Seq<(Seq<char>, TomlData)>,
    k: Seq<char>,
    v: TomlData,
) -> Seq<(Seq<char>, TomlData)> {
    match key_idx_from(t, k, 0) {
        Some(j) => t.update(j, (k, v)),
        None => t.push((k, v)),
    }
}

/// No two entries of the sequence share a key.
pub open spec fn uniq_keys(t: Seq<(Seq<char>, TomlData)>) -> bool {
    forall|i: int, j: int| 0 <= i < j < t.len() ==> t[i].0 != t[j].0
}

/// Every table of the document, at any depth, has distinct keys.
pub open spec fn wf_toml(d: TomlData) -> bool
    decreases d,
{
    match d {
        TomlData::Str(_) => true,
        TomlData::Int(_) => true,
        TomlData::Bool(_) => true,
        TomlData::Arr(items) => forall|i: int|
            0 <= i < items.len() ==> wf_toml(#[trigger] items[i]),
        TomlData::Tab(t) => uniq_keys(t) && forall|i: int|
            0 <= i < t.len() ==> wf_toml(#[trigger] t[i].1),
    }
}

/// A TOML value as the library holds it. Floats and datetimes, which plugin
/// definitions do not use, are carried as their textual rendering.
#[derive(Debug, PartialEq, Eq)]
pub enum TomlValue {
    Str(String),
    Int(i64),
    Bool(bool),
    Array(Vec<TomlValue>),
    Table(Vec<(String, TomlValue)>),
}

/// Model of one value.
pub open spec fn value_view(v: TomlValue) -> TomlData
    decreases v, 0int, 0int,
{
    match v {
        TomlValue::Str(s) => TomlData::Str(s@),
        TomlValue::Int(n) => TomlData::Int(n as int),
        TomlValue::Bool(b) => TomlData::Bool(b),
        TomlValue::Array(items) => TomlData::Arr(arr_view(items@, 0)),
        TomlValue::Table(entries) => TomlData::Tab(tab_view(entries@, 0)),
    }
}

/// Models of the array elements from position `i` on.
pub open spec fn arr_view(items: Seq<TomlValue>, i: int) -> Seq<TomlData>
    decreases items, items.len() - i, 1int,
{
    if 0 <= i < items.len() {
        seq![value_view(items[i])] + arr_view(items, i + 1)
    } else {
        Seq::empty()
    }
}

/// Models of the table entries from position `i` on.
pub open spec fn tab_view(entries: Seq<(String, TomlValue)>, i: int) -> Seq<
    (Seq<char>, TomlData),
>
    decreases entries, entries.len() - i, 1int,
{
    if 0 <= i < entries.len() {
        seq![(entries[i].0@, value_view(entries[i].1))] + tab_view(entries, i + 1)
    } else {
        Seq::empty()
    }
}

/// What a `key_idx_from` result says about the sequence it was found in.
pub proof fn lemma_key_idx_props(t: Seq<(Seq<char>, TomlData)>, k: Seq<char>, i: int)
    requires
        0 <= i,
    ensures
        match key_idx_from(t, k, i) {
            Some(j) => i <= j < t.len() && t[j].0 == k && (forall|m: int|
                i <= m < j ==> (#[trigger] t[m]).0 != k),
            None => forall|m: int| i <= m < t.len() ==> (#[trigger] t[m]).0 != k,
        },
    decreases t.len() - i,
{
    if 0 <= i < t.len() && t[i].0 != k {
        lemma_key_idx_props(t, k, i + 1);
    }
}

/// Length and pointwise shape of `tab_view`.
pub proof fn lemma_tab_view_props(entries: Seq<(String, TomlValue)>, i: int)
    requires
        0 <= i <= entries.len(),
    ensures
        tab_view(entries, i).len() == entries.len() - i,
        forall|j: int|
            0 <= j < entries.len() - i ==> #[trigger] tab_view(entries, i)[j] == (
            entries[i + j].0@,
            value_view(entries[i + j].1),
            ),
    decreases entries.len() - i,
{
    if i < entries.len() {
        lemma_tab_view_props(entries, i + 1);
        assert forall|j: int| 0 <= j < entries.len() - i implies #[trigger] tab_view(entries, i)[j]
            == (entries[i + j].0@, value_view(entries[i + j].1)) by {
            if j > 0 {
                assert(tab_view(entries, i)[j] == tab_view(entries, i + 1)[j - 1]);
            }
        }
    }
}

impl View for TomlValue {
    type V = TomlData;

    open spec fn view(&self) -> TomlData {
        value_view(*self)
    }
}

impl TomlValue {
    /// The value this table holds under `key`; absence when this value is a
    /// table without that key, or is no table at all.
    pub fn lookup(&self, key: &str) -> (r: Option<&TomlValue>)
        ensures
            match r {
                Some(v) => self@ is Tab && tab_lookup(self@->Tab_0, key@) == Some(v@),
                None => self@ is Tab ==> tab_lookup(self@->Tab_0, key@) is None,
            },
    {
        match self {
            TomlValue::Table(entries) => {
                let k = key.to_owned();
                match find_key(entries, &k) {
                    Some(j) => {
                        proof {
                            lemma_tab_view_props(entries@, 0);
                        }
                        Some(&entries[j].1)
                    },
                    None => None,
                }
            },
            _ => None,
        }
    }
}

/// Index of the first entry of `entries` whose key equals `k`, if any.
pub(crate) fn find_key(entries: &Vec<(String, TomlValue)>, k: &String) -> (r: Option<usize>)
    ensures
        match r {
            Some(j) => j < entries@.len() && key_idx_from(tab_view(entries@, 0), k@, 0) == Some(
                j as int,
            ),
            None => key_idx_from(tab_view(entries@, 0), k@, 0) is None,
        },
{
    proof {
        lemma_tab_view_props(entries@, 0);
    }
    let ghost tv = tab_view(entries@, 0);
    let mut idx: usize = 0;
    while idx < entries.len()
        invariant
            0 <= idx <= entries@.len(),
            tv == tab_view(entries@, 0),
            tv.len() == entries@.len(),
            forall|j: int|
                0 <= j < entries@.len() ==> #[trigger] tv[j] == (
                entries@[j].0@,
                value_view(entries@[j].1),
                ),
            key_idx_from(tv, k@, 0) == key_idx_from(tv, k@, idx as int),
        decreases entries@.len() - idx,
    {
        if entries[idx].0 == *k {
            proof {
                assert(tv[idx as int].0 == k@);
                assert(key_idx_from(tv, k@, idx as int) == Some(idx as int));
            }
            return Some(idx);
        }
        proof {
            assert(tv[idx as int].0 != k@);
            assert(key_idx_from(tv, k@, idx as int) == key_idx_from(tv, k@, idx as int + 1));
        }
        idx += 1;
    }
    None
}

} // verus!
