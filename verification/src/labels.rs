//! String lists and label maps as the manifests carry them.
use vstd::prelude::*;
use vstd::string::*;

use crate::config::{first_index_of, lemma_scan_finds_first};

verus! {

/// A label map kept as key/value pairs. The builders of this crate give pairwise
/// different keys (`keys_unique`), and `insert_label` keeps them so.
pub type Labels = Vec<(String, String)>;

pub open spec fn strings_view(v: Seq<String>) -> Seq<Seq<char>> {
    Seq::new(v.len(), |i: int| v[i]@)
}

pub open spec fn pairs_view(v: Seq<(String, String)>) -> Seq<(Seq<char>, Seq<char>)> {
    Seq::new(v.len(), |i: int| (v[i].0@, v[i].1@))
}

pub open spec fn label_keys(labels: Seq<(Seq<char>, Seq<char>)>) -> Seq<Seq<char>> {
    Seq::new(labels.len(), |i: int| labels[i].0)
}

/// No key occurs twice.
pub open spec fn keys_unique(labels: Seq<(Seq<char>, Seq<char>)>) -> bool {
    forall|i: int, j: int|
        0 <= i < labels.len() && 0 <= j < labels.len() && i != j ==> #[trigger] labels[i].0
            != #[trigger] labels[j].0
}

/// The strings, owned.
pub fn strings_of(items: &Vec<&str>) -> (v: Vec<String>)
    ensures
        strings_view(v@) == Seq::new(items@.len(), |i: int| items@[i]@),
{
    let mut v: Vec<String> = Vec::new();
    let mut i: usize = 0;
    while i < items.len()
        invariant
            i <= items.len(),
            v@.len() == i,
            forall|k: int| 0 <= k < i ==> #[trigger] v@[k]@ == items@[k]@,
        decreases items.len() - i,
    {
        let ghost before = v@;
        let s = String::from_str(items[i]);
        v.push(s);
        assert forall|k: int| 0 <= k < i + 1 implies #[trigger] v@[k]@ == items@[k]@ by {
            if k < i {
                assert(v@[k] == before[k]);
            }
        }
        i = i + 1;
    }
    assert(strings_view(v@) =~= Seq::new(items@.len(), |k: int| items@[k]@));
    v
}

/// The label map as a map from keys to values.
pub open spec fn label_map(labels: Seq<(Seq<char>, Seq<char>)>) -> Map<Seq<char>, Seq<char>>
    decreases labels.len(),
{
    if labels.len() == 0 {
        Map::empty()
    } else {
        label_map(labels.drop_last()).insert(labels.last().0, labels.last().1)
    }
}

/// Setting `key` to `value`, as inserting into a map does: an existing entry for `key`
/// takes the new value in place, otherwise the entry is added at the end.
pub open spec fn insert_label_spec(
    labels: Seq<(Seq<char>, Seq<char>)>,
    key: Seq<char>,
    value: Seq<char>,
) -> Seq<(Seq<char>, Seq<char>)> {
    let i = first_index_of(label_keys(labels), key);
    if i >= 0 {
        labels.update(i, (key, value))
    } else {
        labels.push((key, value))
    }
}

/// Sets the label `key` to `value`.
pub fn insert_label(labels: &mut Labels, key: String, value: String)
    ensures
        pairs_view(final(labels)@) == insert_label_spec(pairs_view(old(labels)@), key@, value@),
{
    let ghost keys = label_keys(pairs_view(labels@));
    let mut i: usize = 0;
    while i < labels.len()
        invariant
            keys == label_keys(pairs_view(labels@)),
            labels@ == old(labels)@,
            i <= labels.len(),
            forall|j: int| 0 <= j < i ==> #[trigger] keys[j] != key@,
        decreases labels.len() - i,
    {
        if labels[i].0 == key {
            proof {
                lemma_scan_finds_first(keys, key@, i as int);
            }
            let ghost before = pairs_view(labels@);
            labels.set(i, (key, value));
            assert(pairs_view(labels@) =~= before.update(i as int, (key@, value@)));
            return ;
        }
        assert(keys[i as int] != key@);
        i = i + 1;
    }
    proof {
        lemma_scan_finds_first(keys, key@, i as int);
    }
    let ghost before = pairs_view(labels@);
    labels.push((key, value));
    assert(pairs_view(labels@) =~= before.push((key@, value@)));
}

/// Inserting into a label map with unique keys keeps the keys unique, and the map
/// that results is the old map with `key` set to `value`.
pub proof fn law_insert_label_is_map_insert(
    labels: Seq<(Seq<char>, Seq<char>)>,
    key: Seq<char>,
    value: Seq<char>,
)
    requires
        keys_unique(labels),
    ensures
        keys_unique(insert_label_spec(labels, key, value)),
        label_map(insert_label_spec(labels, key, value)) == label_map(labels).insert(key, value),
{
    let keys = label_keys(labels);
    crate::config::lemma_first_index_of(keys, key);
    let i = first_index_of(keys, key);
    let r = insert_label_spec(labels, key, value);
    if i >= 0 {
        assert(labels[i].0 == key);
        assert forall|a: int, b: int|
            0 <= a < r.len() && 0 <= b < r.len() && a != b implies #[trigger] r[a].0
            != #[trigger] r[b].0 by {
            assert(r[a].0 == labels[a].0);
            assert(r[b].0 == labels[b].0);
        }
        lemma_label_map_update(labels, i, value);
    } else {
        assert forall|a: int, b: int|
            0 <= a < r.len() && 0 <= b < r.len() && a != b implies #[trigger] r[a].0
            != #[trigger] r[b].0 by {
            if a < labels.len() && b < labels.len() {
            } else if a == labels.len() {
                assert(keys[b] != key);
            } else {
                assert(keys[a] != key);
            }
        }
        assert(r.drop_last() =~= labels);
    }
}

/// A key of a label map with unique keys is mapped to its value.
pub proof fn lemma_label_map_lookup(labels: Seq<(Seq<char>, Seq<char>)>, i: int)
    requires
        keys_unique(labels),
        0 <= i < labels.len(),
    ensures
        label_map(labels).contains_key(labels[i].0),
        label_map(labels)[labels[i].0] == labels[i].1,
    decreases labels.len(),
{
    if i < labels.len() - 1 {
        let init = labels.drop_last();
        assert(keys_unique(init)) by {
            assert forall|a: int, b: int|
                0 <= a < init.len() && 0 <= b < init.len() && a != b implies #[trigger] init[a].0
                != #[trigger] init[b].0 by {
                assert(init[a] == labels[a] && init[b] == labels[b]);
            }
        }
        lemma_label_map_lookup(init, i);
        assert(labels[labels.len() - 1].0 != labels[i].0);
    }
}

/// Replacing the value at an existing key changes only that key in the map.
proof fn lemma_label_map_update(labels: Seq<(Seq<char>, Seq<char>)>, i: int, value: Seq<char>)
    requires
        keys_unique(labels),
        0 <= i < labels.len(),
    ensures
        label_map(labels.update(i, (labels[i].0, value))) == label_map(labels).insert(
            labels[i].0,
            value,
        ),
    decreases labels.len(),
{
    let key = labels[i].0;
    let r = labels.update(i, (key, value));
    if i == labels.len() - 1 {
        assert(r.drop_last() =~= labels.drop_last());
        assert(label_map(labels).insert(key, value) =~= label_map(labels.drop_last()).insert(
            key,
            value,
        ));
    } else {
        let init = labels.drop_last();
        assert(keys_unique(init)) by {
            assert forall|a: int, b: int|
                0 <= a < init.len() && 0 <= b < init.len() && a != b implies #[trigger] init[a].0
                != #[trigger] init[b].0 by {
                assert(init[a] == labels[a] && init[b] == labels[b]);
            }
        }
        lemma_label_map_update(init, i, value);
        assert(r.drop_last() =~= init.update(i, (key, value)));
        let last = labels.last();
        assert(last.0 != key);
        assert(label_map(r) =~= label_map(labels).insert(key, value));
    }
}

} // verus!
