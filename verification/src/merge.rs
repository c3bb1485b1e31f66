//! The deep-merge algorithm combining parsed TOML documents into one.
//!
//! Tables are merged recursively key by key; any other value from the later
//! document fully replaces the value at the same key from the earlier one,
//! so later sources win on direct conflicts.

use vstd::prelude::*;
use crate::toml_value::{
    find_key, key_idx_from, lemma_key_idx_props, lemma_tab_view_props, spec_upsert, tab_lookup,
    tab_view, uniq_keys, value_view, wf_toml, TomlData, TomlValue,
};

verus! {

/// Deep merge of `b` into `a`: table entries of `b` are folded into `a` in
/// order, and a non-table `b` replaces `a` outright.
pub open spec fn spec_merge(a: TomlData, b: TomlData) -> TomlData
    decreases b, 0int,
{
    match a {
        TomlData::Tab(ta) => match b {
            TomlData::Tab(tb) => TomlData::Tab(spec_merge_tab(ta, tb, 0)),
            _ => b,
        },
        _ => b,
    }
}

/// Fold the entries of `tb` from position `i` on into the accumulator `ta`.
pub open spec fn spec_merge_tab(
    ta: Seq<(Seq<char>, TomlData)>,
    tb: Seq<(Seq<char>, TomlData)>,
    i: int,
) -> Seq<(Seq<char>, TomlData)>
    decreases tb, tb.len() - i,
{
    if 0 <= i < tb.len() {
        let k = tb[i].0;
        let newv = match tab_lookup(ta, k) {
            Some(va) => spec_merge(va, tb[i].1),
            None => tb[i].1,
        };
        spec_merge_tab(spec_upsert(ta, k, newv), tb, i + 1)
    } else {
        ta
    }
}

/// The empty document every merge starts from.
pub open spec fn empty_tab() -> TomlData {
    TomlData::Tab(Seq::empty())
}

/// Merging documents in declaration order is a left fold.
pub open spec fn spec_merge_docs(docs: Seq<TomlData>) -> TomlData
    decreases docs.len(),
{
    if docs.len() == 0 {
        empty_tab()
    } else {
        spec_merge(spec_merge_docs(docs.drop_last()), docs.last())
    }
}

/// Merging a sequence of documents equals merging all but the last, then
/// merging the last on top: the fold law for an ordered source list.
pub proof fn lemma_merge_docs_fold(docs: Seq<TomlData>)
    requires
        docs.len() > 0,
    ensures
        spec_merge_docs(docs) == spec_merge(spec_merge_docs(docs.drop_last()), docs.last()),
{
}

/// The same law, phrased for appending one more document to the sequence.
pub proof fn lemma_merge_docs_push(docs: Seq<TomlData>, d: TomlData)
    ensures
        spec_merge_docs(docs.push(d)) == spec_merge(spec_merge_docs(docs), d),
{
    assert(docs.push(d).drop_last() =~= docs);
    assert(docs.push(d).last() == d);
}

/// Two sequences with pointwise equal keys agree on where any key first occurs.
proof fn lemma_key_idx_same_keys(
    t1: Seq<(Seq<char>, TomlData)>,
    t2: Seq<(Seq<char>, TomlData)>,
    k: Seq<char>,
    i: int,
)
    requires
        0 <= i,
        t1.len() == t2.len(),
        forall|m: int| 0 <= m < t1.len() ==> (#[trigger] t1[m]).0 == t2[m].0,
    ensures
        key_idx_from(t1, k, i) == key_idx_from(t2, k, i),
    decreases t1.len() - i,
{
    if i < t1.len() && t1[i].0 != k {
        lemma_key_idx_same_keys(t1, t2, k, i + 1);
    }
}

/// Appending an entry leaves earlier matches alone; it is found only when
/// no earlier entry has its key.
proof fn lemma_key_idx_push(
    t: Seq<(Seq<char>, TomlData)>,
    p: (Seq<char>, TomlData),
    k: Seq<char>,
    i: int,
)
    requires
        0 <= i <= t.len(),
    ensures
        key_idx_from(t.push(p), k, i) == match key_idx_from(t, k, i) {
            Some(j) => Some(j),
            None => if p.0 == k {
                Some(t.len() as int)
            } else {
                None
            },
        },
    decreases t.len() - i,
{
    assert(t.push(p).len() == t.len() + 1);
    assert(t.push(p)[t.len() as int] == p);
    if i < t.len() {
        assert(t.push(p)[i] == t[i]);
        if t[i].0 != k {
            lemma_key_idx_push(t, p, k, i + 1);
        }
    }
}

/// How a lookup reads through an upsert: the upserted key now holds the new
/// value, and every other key is untouched.
pub proof fn lemma_upsert_lookup(
    t: Seq<(Seq<char>, TomlData)>,
    k: Seq<char>,
    v: TomlData,
    k2: Seq<char>,
)
    ensures
        tab_lookup(spec_upsert(t, k, v), k2) == if k2 == k {
            Some(v)
        } else {
            tab_lookup(t, k2)
        },
{
    lemma_key_idx_props(t, k, 0);
    match key_idx_from(t, k, 0) {
        Some(j) => {
            let u = t.update(j, (k, v));
            assert(u.len() == t.len());
            assert(forall|m: int| 0 <= m < t.len() ==> (#[trigger] u[m]).0 == t[m].0);
            lemma_key_idx_same_keys(u, t, k2, 0);
            lemma_key_idx_props(t, k2, 0);
            if k2 == k {
                lemma_key_idx_props(u, k2, 0);
            }
        },
        None => {
            let u = t.push((k, v));
            lemma_key_idx_push(t, (k, v), k2, 0);
            lemma_key_idx_props(t, k2, 0);
        },
    }
}

/// What any key holds after folding the entries of `tb` from position `i`
/// into `ta`: the first remaining `tb` entry for that key wins (deep-merged
/// with `ta`'s value where both exist), and keys `tb` does not mention keep
/// `ta`'s value.
pub proof fn lemma_merge_tab_lookup(
    ta: Seq<(Seq<char>, TomlData)>,
    tb: Seq<(Seq<char>, TomlData)>,
    i: int,
    k: Seq<char>,
)
    requires
        0 <= i <= tb.len(),
        uniq_keys(tb),
    ensures
        tab_lookup(spec_merge_tab(ta, tb, i), k) == match key_idx_from(tb, k, i) {
            Some(j) => Some(
                match tab_lookup(ta, k) {
                    Some(va) => spec_merge(va, tb[j].1),
                    None => tb[j].1,
                },
            ),
            None => tab_lookup(ta, k),
        },
    decreases tb.len() - i,
{
    if i < tb.len() {
        let kb = tb[i].0;
        let newv = match tab_lookup(ta, kb) {
            Some(va) => spec_merge(va, tb[i].1),
            None => tb[i].1,
        };
        let ta2 = spec_upsert(ta, kb, newv);
        lemma_merge_tab_lookup(ta2, tb, i + 1, k);
        lemma_upsert_lookup(ta, kb, newv, k);
        if k == kb {
            if key_idx_from(tb, k, i + 1) is Some {
                lemma_key_idx_props(tb, k, i + 1);
                assert(false);
            }
        }
    }
}

/// An upsert of a well-formed value into a table with distinct keys and
/// well-formed values keeps both properties.
proof fn lemma_upsert_wf(t: Seq<(Seq<char>, TomlData)>, k: Seq<char>, v: TomlData)
    requires
        uniq_keys(t),
        forall|j: int| 0 <= j < t.len() ==> wf_toml((#[trigger] t[j]).1),
        wf_toml(v),
    ensures
        uniq_keys(spec_upsert(t, k, v)),
        spec_upsert(t, k, v).len() >= t.len(),
        forall|j: int|
            0 <= j < spec_upsert(t, k, v).len() ==> wf_toml((#[trigger] spec_upsert(t, k, v)[j]).1),
{
    lemma_key_idx_props(t, k, 0);
    match key_idx_from(t, k, 0) {
        Some(j) => {
            let u = t.update(j, (k, v));
            assert(forall|m: int| 0 <= m < u.len() ==> (#[trigger] u[m]).0 == t[m].0);
        },
        None => {
            let u = t.push((k, v));
            assert(forall|m: int| 0 <= m < t.len() ==> u[m] == (#[trigger] t[m]));
        },
    }
}

/// Deep-merging two well-formed documents yields a well-formed document:
/// every table of the result still has distinct keys.
pub proof fn lemma_merge_wf(a: TomlData, b: TomlData)
    requires
        wf_toml(a),
        wf_toml(b),
    ensures
        wf_toml(spec_merge(a, b)),
    decreases b, 0int,
{
    match a {
        TomlData::Tab(ta) => match b {
            TomlData::Tab(tb) => {
                lemma_merge_tab_wf(ta, tb, 0);
            },
            _ => {},
        },
        _ => {},
    }
}

/// The table fold underlying `lemma_merge_wf`.
proof fn lemma_merge_tab_wf(ta: Seq<(Seq<char>, TomlData)>, tb: Seq<(Seq<char>, TomlData)>, i: int)
    requires
        0 <= i <= tb.len(),
        uniq_keys(ta),
        forall|j: int| 0 <= j < ta.len() ==> wf_toml((#[trigger] ta[j]).1),
        uniq_keys(tb),
        forall|j: int| 0 <= j < tb.len() ==> wf_toml((#[trigger] tb[j]).1),
    ensures
        uniq_keys(spec_merge_tab(ta, tb, i)),
        forall|j: int|
            0 <= j < spec_merge_tab(ta, tb, i).len() ==> wf_toml(
                (#[trigger] spec_merge_tab(ta, tb, i)[j]).1,
            ),
    decreases tb, tb.len() - i,
{
    if i < tb.len() {
        let k = tb[i].0;
        let newv = match tab_lookup(ta, k) {
            Some(va) => spec_merge(va, tb[i].1),
            None => tb[i].1,
        };
        match tab_lookup(ta, k) {
            Some(va) => {
                lemma_key_idx_props(ta, k, 0);
                lemma_merge_wf(va, tb[i].1);
            },
            None => {},
        }
        lemma_upsert_wf(ta, k, newv);
        lemma_merge_tab_wf(spec_upsert(ta, k, newv), tb, i + 1);
    }
}

/// Override-wins law. For tables `a` and `b` merged as `a` then `b`: a key
/// only in `a` keeps `a`'s value; a key only in `b` gets `b`'s value; a key
/// in both gets `b`'s value, except that two tables are deep-merged; a key
/// in neither stays absent.
pub proof fn lemma_merge_override(
    ta: Seq<(Seq<char>, TomlData)>,
    tb: Seq<(Seq<char>, TomlData)>,
    k: Seq<char>,
)
    requires
        uniq_keys(tb),
    ensures
        spec_merge(TomlData::Tab(ta), TomlData::Tab(tb)) == TomlData::Tab(
            spec_merge_tab(ta, tb, 0),
        ),
        tab_lookup(spec_merge_tab(ta, tb, 0), k) == match (tab_lookup(ta, k), tab_lookup(tb, k)) {
            (_, Some(vb)) => Some(
                match tab_lookup(ta, k) {
                    Some(va) => spec_merge(va, vb),
                    None => vb,
                },
            ),
            (va, None) => va,
        },
        tab_lookup(tb, k) matches Some(vb) ==> ((vb is Tab && (match tab_lookup(ta, k) {
            Some(va) => va is Tab,
            None => false,
        })) || tab_lookup(spec_merge_tab(ta, tb, 0), k) == Some(vb)),
{
    lemma_merge_tab_lookup(ta, tb, 0, k);
    lemma_key_idx_props(tb, k, 0);
}

pub struct TomlMerge;

impl TomlMerge {
    /// Deep-merge `b` into `a`; later (`b`) values win on direct conflicts.
    #[verifier::loop_isolation(false)]
    pub fn merge(a: TomlValue, b: TomlValue) -> (r: TomlValue)
        ensures
            r@ == spec_merge(a@, b@),
            wf_toml(a@) && wf_toml(b@) ==> wf_toml(r@),
        decreases b@,
    {
        let ghost am = a@;
        let ghost bm = b@;
        proof {
            if wf_toml(am) && wf_toml(bm) {
                lemma_merge_wf(am, bm);
            }
        }
        match (a, b) {
            (TomlValue::Table(ta), TomlValue::Table(tb)) => {
                let mut acc = ta;
                let mut rest = tb;
                let ghost tav0 = tab_view(acc@, 0);
                let ghost tb0 = rest@;
                let ghost tbv = tab_view(tb0, 0);
                proof {
                    lemma_tab_view_props(tb0, 0);
                }
                let ghost mut i: int = 0int;
                while rest.len() > 0
                    invariant
                        0 <= i <= tb0.len(),
                        rest@ =~= tb0.subrange(i, tb0.len() as int),
                        tbv == tab_view(tb0, 0),
                        tbv.len() == tb0.len(),
                        forall|j: int|
                            0 <= j < tb0.len() ==> #[trigger] tbv[j] == (
                            tb0[j].0@,
                            value_view(tb0[j].1),
                            ),
                        bm == TomlData::Tab(tbv),
                        spec_merge_tab(tab_view(acc@, 0), tbv, i) == spec_merge_tab(tav0, tbv, 0),
                    decreases rest.len(),
                {
                    let ghost acc_old = acc@;
                    let ghost accv = tab_view(acc_old, 0);
                    let pair = rest.remove(0);
                    let (k, vb) = pair;
                    proof {
                        assert(rest@ =~= tb0.subrange(i + 1, tb0.len() as int));
                        assert((k@, vb@) == tbv[i]);
                        lemma_tab_view_props(acc_old, 0);
                    }
                    let found = find_key(&acc, &k);
                    match found {
                        Some(j) => {
                            let entry = acc.remove(j);
                            let ghost after_remove = acc@;
                            proof {
                                lemma_key_idx_props(accv, k@, 0);
                                assert(tab_lookup(accv, k@) == Some(accv[j as int].1));
                                assert(accv[j as int] == (
                                    acc_old[j as int].0@,
                                    value_view(acc_old[j as int].1),
                                ));
                                assert(entry.1@ == accv[j as int].1);
                                assert(decreases_to!(bm => vb@)) by {
                                    assert(tbv == bm->Tab_0);
                                    assert(decreases_to!(bm => bm->Tab_0));
                                    assert(decreases_to!(tbv => tbv[i]));
                                    assert(vb@ == tbv[i].1);
                                    assert(decreases_to!(tbv[i] => tbv[i].1));
                                }
                            }
                            let merged = Self::merge(entry.1, vb);
                            acc.insert(j, (entry.0, merged));
                            proof {
                                assert(acc@ =~= acc_old.update(j as int, (entry.0, merged)));
                                lemma_tab_view_props(acc@, 0);
                                assert(tab_view(acc@, 0) =~= spec_upsert(accv, k@, merged@));
                            }
                        },
                        None => {
                            acc.push((k, vb));
                            proof {
                                let ghost p = acc@[acc@.len() - 1];
                                assert(acc@ =~= acc_old.push(p));
                                lemma_tab_view_props(acc@, 0);
                                assert(tab_view(acc@, 0) =~= spec_upsert(accv, k@, vb@));
                            }
                        },
                    }
                    proof {
                        i = i + 1;
                    }
                }
                proof {
                    assert(i == tb0.len());
                    assert(spec_merge_tab(tab_view(acc@, 0), tbv, i) == tab_view(acc@, 0));
                }
                TomlValue::Table(acc)
            },
            (_, other) => other,
        }
    }
}

} // verus!
