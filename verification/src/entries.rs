//! Lists of keys with values, as JSON objects with string values are read:
//! dependency tables, dist-tags, export maps.

use vstd::prelude::*;
use vstd::string::*;

use crate::text::{opt_view, same_text};

verus! {

/// A key with its value.
#[derive(Debug, Clone, PartialEq, Eq)]
pub struct Entry {
    pub key: String,
    pub value: String,
}

pub struct EntryView {
    pub key: Seq<char>,
    pub value: Seq<char>,
}

impl View for Entry {
    type V = EntryView;

    open spec fn view(&self) -> EntryView {
        EntryView { key: self.key@, value: self.value@ }
    }
}

/// The views of a list of entries.
pub open spec fn entries_view(v: Seq<Entry>) -> Seq<EntryView> {
    v.map_values(|e: Entry| e@)
}

/// The view of an optional list of entries.
pub open spec fn opt_entries_view(o: Option<Vec<Entry>>) -> Option<Seq<EntryView>> {
    match o {
        Some(v) => Some(entries_view(v@)),
        None => None,
    }
}

/// The index of the first entry with the key, among the entries from `from`
/// on; the length of the list where there is none.
pub open spec fn position_from(entries: Seq<EntryView>, key: Seq<char>, from: int) -> int
    decreases entries.len() - from,
{
    if from < 0 || from >= entries.len() {
        entries.len() as int
    } else if entries[from].key == key {
        from
    } else {
        position_from(entries, key, from + 1)
    }
}

/// The value of the first entry with the key.
pub open spec fn value_of(entries: Seq<EntryView>, key: Seq<char>) -> Option<Seq<char>> {
    let i = position_from(entries, key, 0);
    if i < entries.len() {
        Some(entries[i].value)
    } else {
        None
    }
}

/// Some entry has the key.
pub open spec fn has_key(entries: Seq<EntryView>, key: Seq<char>) -> bool {
    exists|i: int| 0 <= i < entries.len() && (#[trigger] entries[i]).key == key
}

/// No key occurs twice.
pub open spec fn keys_distinct(entries: Seq<EntryView>) -> bool {
    forall|i: int, j: int|
        0 <= i < j < entries.len() ==> (#[trigger] entries[i]).key != (#[trigger] entries[j]).key
}

/// `position_from` finds the first entry with the key at or after `from`.
pub proof fn lemma_position_from(entries: Seq<EntryView>, key: Seq<char>, from: int)
    requires
        0 <= from <= entries.len(),
    ensures
        from <= position_from(entries, key, from) <= entries.len(),
        forall|k: int|
            from <= k < position_from(entries, key, from) ==> (#[trigger] entries[k]).key != key,
        position_from(entries, key, from) < entries.len() ==> entries[position_from(
            entries,
            key,
            from,
        )].key == key,
    decreases entries.len() - from,
{
    if from < entries.len() && entries[from].key != key {
        lemma_position_from(entries, key, from + 1);
    }
}

/// A key has a value exactly where some entry has the key.
pub proof fn lemma_value_of_iff_has_key(entries: Seq<EntryView>, key: Seq<char>)
    ensures
        value_of(entries, key) is Some <==> has_key(entries, key),
{
    lemma_position_from(entries, key, 0);
    let i = position_from(entries, key, 0);
    if i < entries.len() {
        assert(entries[i].key == key);
    }
}

/// Finds the first entry with the key.
pub fn position(entries: &Vec<Entry>, key: &str) -> (r: usize)
    ensures
        r == position_from(entries_view(entries@), key@, 0),
        r <= entries.len(),
{
    let ghost view = entries_view(entries@);
    let mut i: usize = 0;
    while i < entries.len()
        invariant
            i <= entries.len(),
            view == entries_view(entries@),
            position_from(view, key@, 0) == position_from(view, key@, i as int),
        decreases entries.len() - i,
    {
        assert(view[i as int] == entries[i as int]@);
        if same_text(entries[i].key.as_str(), key) {
            return i;
        }
        i = i + 1;
    }
    i
}

/// The value of the first entry with the key.
pub fn lookup(entries: &Vec<Entry>, key: &str) -> (r: Option<String>)
    ensures
        opt_view(r) == value_of(entries_view(entries@), key@),
{
    let i: usize = position(entries, key);
    if i < entries.len() {
        assert(entries_view(entries@)[i as int] == entries[i as int]@);
        Some(entries[i].value.clone())
    } else {
        None
    }
}

/// The dependency table of a package: each name in `required` or in
/// `optional` once, with the version from `optional` where both name it.
/// The names of `required` come first, in their order.
pub open spec fn merged(required: Seq<EntryView>, optional: Seq<EntryView>, key: Seq<char>)
    -> Option<Seq<char>> {
    match value_of(optional, key) {
        Some(v) => Some(v),
        None => value_of(required, key),
    }
}

/// The part of the merged table that comes from the first `upto` required
/// entries: each name where it first occurs, with the optional version
/// where there is one.
pub open spec fn merged_required(required: Seq<EntryView>, optional: Seq<EntryView>, upto: int)
    -> Seq<EntryView>
    decreases upto,
{
    if upto <= 0 {
        Seq::empty()
    } else {
        let before = merged_required(required, optional, upto - 1);
        let e = required[upto - 1];
        if position_from(required, e.key, 0) == upto - 1 {
            before.push(
                EntryView {
                    key: e.key,
                    value: match value_of(optional, e.key) {
                        Some(v) => v,
                        None => e.value,
                    },
                },
            )
        } else {
            before
        }
    }
}

/// The part of the merged table that comes from the first `upto` optional
/// entries: each name that is not required, where it first occurs.
pub open spec fn merged_optional(required: Seq<EntryView>, optional: Seq<EntryView>, upto: int)
    -> Seq<EntryView>
    decreases upto,
{
    if upto <= 0 {
        Seq::empty()
    } else {
        let before = merged_optional(required, optional, upto - 1);
        let e = optional[upto - 1];
        if position_from(optional, e.key, 0) == upto - 1 && position_from(required, e.key, 0)
            == required.len() {
            before.push(e)
        } else {
            before
        }
    }
}

/// The merged table: the required names in their order, then the names
/// that are optional only.
pub open spec fn merged_list(required: Seq<EntryView>, optional: Seq<EntryView>) -> Seq<
    EntryView,
> {
    merged_required(required, optional, required.len() as int) + merged_optional(
        required,
        optional,
        optional.len() as int,
    )
}

/// Merges the required and the optional dependencies of a package into one
/// table without repeated names: for every name, the table holds what
/// `merged` gives.
pub fn merge_dependencies(required: &Vec<Entry>, optional: &Vec<Entry>) -> (r: Vec<Entry>)
    ensures
        entries_view(r@) == merged_list(entries_view(required@), entries_view(optional@)),
        keys_distinct(entries_view(r@)),
        forall|key: Seq<char>|
            value_of(entries_view(r@), key) == merged(
                entries_view(required@),
                entries_view(optional@),
                key,
            ),
{
    let ghost req = entries_view(required@);
    let ghost opt = entries_view(optional@);
    let mut out: Vec<Entry> = Vec::new();
    let mut i: usize = 0;
    proof {
        assert forall|key: Seq<char>|
            value_of(entries_view(out@), key) is None && position_from(req, key, 0) >= 0 by {
            lemma_position_from(req, key, 0);
        }
    }
    while i < required.len()
        invariant
            i <= required.len(),
            req == entries_view(required@),
            opt == entries_view(optional@),
            keys_distinct(entries_view(out@)),
            entries_view(out@) == merged_required(req, opt, i as int),
            forall|key: Seq<char>|
                value_of(entries_view(out@), key) == (if position_from(req, key, 0) < i {
                    merged(req, opt, key)
                } else {
                    None
                }),
        decreases required.len() - i,
    {
        let e: &Entry = &required[i];
        assert(req[i as int] == e@);
        let first: usize = position(required, e.key.as_str());
        proof {
            lemma_position_from(req, e.key@, 0);
        }
        if first == i {
            let value: String = match lookup(optional, e.key.as_str()) {
                Some(v) => v,
                None => e.value.clone(),
            };
            let ghost before = entries_view(out@);
            out.push(Entry { key: e.key.clone(), value });
            proof {
                let after = entries_view(out@);
                let added = after[after.len() - 1];
                assert(added.key == e.key@);
                assert(after =~= before.push(added));
                lemma_push_value_of(before, added);
                assert forall|key: Seq<char>|
                    value_of(after, key) == (if position_from(req, key, 0) < i + 1 {
                        merged(req, opt, key)
                    } else {
                        None
                    }) by {
                    lemma_position_from(req, key, 0);
                    lemma_value_of_iff_has_key(before, key);
                    if key == e.key@ {
                        assert(value_of(before, key) is None);
                        assert(value_of(req, key) == Some(e.value@));
                    }
                }
                lemma_value_of_iff_has_key(before, e.key@);
                assert(keys_distinct(after)) by {
                    assert forall|a: int, b: int| 0 <= a < b < after.len() implies (
                    #[trigger] after[a]).key != (#[trigger] after[b]).key by {
                        if b == after.len() - 1 {
                            assert(before[a] == after[a]);
                        } else {
                            assert(before[a] == after[a]);
                            assert(before[b] == after[b]);
                        }
                    }
                }
            }
        } else {
            proof {
                assert forall|key: Seq<char>|
                    value_of(entries_view(out@), key) == (if position_from(req, key, 0) < i + 1 {
                        merged(req, opt, key)
                    } else {
                        None
                    }) by {
                    lemma_position_from(req, key, 0);
                }
            }
        }
        i = i + 1;
    }
    let mut j: usize = 0;
    proof {
        assert forall|key: Seq<char>| position_from(opt, key, 0) >= 0 by {
            lemma_position_from(opt, key, 0);
        }
    }
    while j < optional.len()
        invariant
            j <= optional.len(),
            req == entries_view(required@),
            opt == entries_view(optional@),
            keys_distinct(entries_view(out@)),
            entries_view(out@) == merged_required(req, opt, req.len() as int) + merged_optional(
                req,
                opt,
                j as int,
            ),
            forall|key: Seq<char>|
                value_of(entries_view(out@), key) == (if position_from(req, key, 0) < req.len()
                    || position_from(opt, key, 0) < j {
                    merged(req, opt, key)
                } else {
                    None
                }),
        decreases optional.len() - j,
    {
        let e: &Entry = &optional[j];
        assert(opt[j as int] == e@);
        let first: usize = position(optional, e.key.as_str());
        let in_required: usize = position(required, e.key.as_str());
        proof {
            lemma_position_from(opt, e.key@, 0);
            lemma_position_from(req, e.key@, 0);
        }
        if first == j && in_required == required.len() {
            let ghost before = entries_view(out@);
            out.push(Entry { key: e.key.clone(), value: e.value.clone() });
            proof {
                let after = entries_view(out@);
                let added = after[after.len() - 1];
                assert(added.key == e.key@);
                assert(after =~= before.push(added));
                lemma_push_value_of(before, added);
                lemma_value_of_iff_has_key(before, e.key@);
                assert forall|key: Seq<char>|
                    value_of(after, key) == (if position_from(req, key, 0) < req.len()
                        || position_from(opt, key, 0) < j + 1 {
                        merged(req, opt, key)
                    } else {
                        None
                    }) by {
                    lemma_position_from(opt, key, 0);
                    lemma_position_from(req, key, 0);
                    lemma_value_of_iff_has_key(before, key);
                }
                assert(keys_distinct(after)) by {
                    assert forall|a: int, b: int| 0 <= a < b < after.len() implies (
                    #[trigger] after[a]).key != (#[trigger] after[b]).key by {
                        if b == after.len() - 1 {
                            assert(before[a] == after[a]);
                        } else {
                            assert(before[a] == after[a]);
                            assert(before[b] == after[b]);
                        }
                    }
                }
            }
        } else {
            proof {
                assert forall|key: Seq<char>|
                    value_of(entries_view(out@), key) == (if position_from(req, key, 0)
                        < req.len() || position_from(opt, key, 0) < j + 1 {
                        merged(req, opt, key)
                    } else {
                        None
                    }) by {
                    lemma_position_from(opt, key, 0);
                    lemma_position_from(req, key, 0);
                }
            }
        }
        j = j + 1;
    }
    proof {
        assert forall|key: Seq<char>|
            value_of(entries_view(out@), key) == merged(req, opt, key) by {
            lemma_position_from(opt, key, 0);
            lemma_position_from(req, key, 0);
        }
    }
    out
}

/// The value of a key in a list with one more entry at its end: that of the
/// list before, or the new value where the key was not in it.
pub proof fn lemma_push_value_of(entries: Seq<EntryView>, added: EntryView)
    ensures
        forall|key: Seq<char>|
            #[trigger] value_of(entries.push(added), key) == (match value_of(entries, key) {
                Some(v) => Some(v),
                None => if key == added.key {
                    Some(added.value)
                } else {
                    None
                },
            }),
{
    assert forall|key: Seq<char>|
        #[trigger] value_of(entries.push(added), key) == (match value_of(entries, key) {
            Some(v) => Some(v),
            None => if key == added.key {
                Some(added.value)
            } else {
                None
            },
        }) by {
        let more = entries.push(added);
        lemma_position_from(entries, key, 0);
        let i = position_from(entries, key, 0);
        if i < entries.len() {
            assert forall|k: int| 0 <= k < i implies (#[trigger] more[k]).key != key by {
                assert(more[k] == entries[k]);
            }
            assert(more[i] == entries[i]);
            lemma_position_is(more, key, 0, i);
        } else {
            assert forall|k: int| 0 <= k < entries.len() implies (#[trigger] more[k]).key
                != key by {
                assert(more[k] == entries[k]);
            }
            if key == added.key {
                lemma_position_is(more, key, 0, entries.len() as int);
            } else {
                lemma_position_is(more, key, 0, more.len() as int);
            }
        }
    }
}

/// An index that is the first with the key at or after `from` is the one
/// that `position_from` returns.
pub proof fn lemma_position_is(entries: Seq<EntryView>, key: Seq<char>, from: int, r: int)
    requires
        0 <= from <= r <= entries.len(),
        forall|k: int| from <= k < r ==> (#[trigger] entries[k]).key != key,
        r < entries.len() ==> entries[r].key == key,
    ensures
        position_from(entries, key, from) == r,
    decreases r - from,
{
    if from < r {
        lemma_position_is(entries, key, from + 1, r);
    }
}

} // verus!
