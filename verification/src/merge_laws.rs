//! What holds of every merge: which value each key ends with, that merging a
//! tree into itself changes nothing, and that well-formed trees stay so.

use crate::json::{
    contains_equal, distinct_keys, json_equal, key_index, lemma_key_index,
    lemma_well_formed_array, lemma_well_formed_object, lookup, well_formed, Json,
};
use crate::merge::{appended_new, combined, merged, merged_entries, with_entry};
use vstd::prelude::*;

verus! {

/// Where two lists of entries hold the same keys in the same places, a key
/// is found at the same position in both.
pub proof fn lemma_key_index_same_keys(
    a: Seq<(Seq<char>, Json)>,
    b: Seq<(Seq<char>, Json)>,
    key: Seq<char>,
)
    requires
        a.len() == b.len(),
        forall|i: int| 0 <= i < a.len() ==> (#[trigger] a[i]).0 == b[i].0,
    ensures
        key_index(a, key) == key_index(b, key),
{
    lemma_key_index(a, key);
    lemma_key_index(b, key);
    match key_index(a, key) {
        Some(i) => {
            assert(a[i].0 == b[i].0);
            match key_index(b, key) {
                Some(j) => {
                    assert(a[j].0 == b[j].0);
                    if j < i {
                        assert(a[j].0 != key);
                    }
                    if i < j {
                        assert(b[i].0 != key);
                    }
                },
                None => {
                    assert(b[i].0 != key);
                },
            }
        },
        None => {
            match key_index(b, key) {
                Some(j) => {
                    assert(a[j].0 != key);
                },
                None => {},
            }
        },
    }
}

/// Merging in an entry under another key leaves a key's value as it was.
pub proof fn lemma_with_entry_other(
    entries: Seq<(Seq<char>, Json)>,
    entry: (Seq<char>, Json),
    key: Seq<char>,
)
    requires
        entry.0 != key,
    ensures
        lookup(with_entry(entries, entry), key) == lookup(entries, key),
{
    let after = with_entry(entries, entry);
    lemma_key_index(entries, entry.0);
    lemma_key_index(entries, key);
    match key_index(entries, entry.0) {
        Some(i) => {
            assert forall|j: int| 0 <= j < entries.len() implies (#[trigger] entries[j]).0
                == after[j].0 by {}
            lemma_key_index_same_keys(entries, after, key);
        },
        None => {
            assert(after.drop_last() =~= entries);
        },
    }
}

/// Merging in an entry gives its key the combined value, or the entry's own
/// value where the key is new.
pub proof fn lemma_with_entry_same(entries: Seq<(Seq<char>, Json)>, entry: (Seq<char>, Json))
    ensures
        lookup(with_entry(entries, entry), entry.0) == Some(
            match lookup(entries, entry.0) {
                Some(held) => combined(held, entry.1),
                None => entry.1,
            },
        ),
{
    let after = with_entry(entries, entry);
    lemma_key_index(entries, entry.0);
    match key_index(entries, entry.0) {
        Some(i) => {
            assert forall|j: int| 0 <= j < entries.len() implies (#[trigger] entries[j]).0
                == after[j].0 by {}
            lemma_key_index_same_keys(entries, after, entry.0);
        },
        None => {
            assert(after.drop_last() =~= entries);
        },
    }
}

/// A key that none of the first `n` source entries holds keeps the value
/// that the target gave it.
pub proof fn lemma_merged_entries_keeps(
    target: Seq<(Seq<char>, Json)>,
    source: Seq<(Seq<char>, Json)>,
    n: nat,
    key: Seq<char>,
)
    requires
        n <= source.len(),
        forall|k: int| 0 <= k < n ==> (#[trigger] source[k]).0 != key,
    ensures
        lookup(merged_entries(target, source, n), key) == lookup(target, key),
    decreases n,
{
    if n > 0 {
        lemma_merged_entries_keeps(target, source, (n - 1) as nat, key);
        assert(source[n - 1].0 != key);
        lemma_with_entry_other(merged_entries(target, source, (n - 1) as nat), source[n - 1], key);
    }
}

/// The key of one of the first `n` source entries ends with the combined
/// value, or with the source's value where the target lacked the key.
pub proof fn lemma_merged_entries_takes(
    target: Seq<(Seq<char>, Json)>,
    source: Seq<(Seq<char>, Json)>,
    n: nat,
    k: int,
)
    requires
        distinct_keys(source),
        0 <= k < n <= source.len(),
    ensures
        lookup(merged_entries(target, source, n), source[k].0) == Some(
            match lookup(target, source[k].0) {
                Some(held) => combined(held, source[k].1),
                None => source[k].1,
            },
        ),
    decreases n,
{
    let prev = merged_entries(target, source, (n - 1) as nat);
    if k == n - 1 {
        lemma_merged_entries_keeps(target, source, (n - 1) as nat, source[k].0);
        lemma_with_entry_same(prev, source[k]);
    } else {
        lemma_merged_entries_takes(target, source, (n - 1) as nat, k);
        lemma_with_entry_other(prev, source[n - 1], source[k].0);
    }
}

/// After a merge of two objects every key of the source is present: with
/// the source's value where the target lacked the key or where one of the
/// two values is no object, and with the merge of the two values where both
/// are objects. A key that only the target held keeps its value, and no
/// other key appears.
pub proof fn law_merge_objects(
    target: Seq<(Seq<char>, Json)>,
    source: Seq<(Seq<char>, Json)>,
    key: Seq<char>,
)
    requires
        distinct_keys(source),
    ensures
        merged(Json::Object(target), Json::Object(source)) is Object,
        lookup(merged(Json::Object(target), Json::Object(source))->Object_0, key) == (match (
            lookup(target, key),
            lookup(source, key),
        ) {
            (Some(held), Some(given)) => Some(
                if held is Object && given is Object {
                    merged(held, given)
                } else {
                    given
                },
            ),
            (None, Some(given)) => Some(given),
            (held, None) => held,
        }),
{
    lemma_key_index(source, key);
    match key_index(source, key) {
        Some(k) => {
            lemma_merged_entries_takes(target, source, source.len(), k);
        },
        None => {
            lemma_merged_entries_keeps(target, source, source.len(), key);
        },
    }
}

/// A well-formed tree equals itself.
pub proof fn lemma_json_equal_reflexive(j: Json)
    requires
        well_formed(j),
    ensures
        json_equal(j, j),
    decreases j,
{
    match j {
        Json::Array(items) => {
            assert forall|i: int| 0 <= i < items.len() implies json_equal(
                #[trigger] items[i],
                items[i],
            ) by {
                lemma_json_equal_reflexive(items[i]);
            }
        },
        Json::Object(entries) => {
            assert forall|i: int| 0 <= i < entries.len() implies match key_index(
                entries,
                (#[trigger] entries[i]).0,
            ) {
                Some(k) => json_equal(entries[i].1, entries[k].1),
                None => false,
            } by {
                crate::json::lemma_key_index_distinct(entries, i);
                lemma_json_equal_reflexive(entries[i].1);
            }
        },
        _ => {},
    }
}

/// Appending a well-formed list's own items to it adds nothing.
pub proof fn lemma_append_self(items: Seq<Json>, n: nat)
    requires
        n <= items.len(),
        forall|i: int| 0 <= i < items.len() ==> well_formed(#[trigger] items[i]),
    ensures
        appended_new(items, items, n) == items,
    decreases n,
{
    if n > 0 {
        lemma_append_self(items, (n - 1) as nat);
        lemma_json_equal_reflexive(items[n - 1]);
        assert(json_equal(items[n - 1], items[n - 1]));
        assert(contains_equal(items, items[n - 1]));
    }
}

/// Merging a well-formed object's own entries into it changes nothing.
pub proof fn lemma_merge_entries_self(entries: Seq<(Seq<char>, Json)>, n: nat)
    requires
        n <= entries.len(),
        well_formed(Json::Object(entries)),
    ensures
        merged_entries(entries, entries, n) == entries,
    decreases entries, n,
{
    if n > 0 {
        lemma_merge_entries_self(entries, (n - 1) as nat);
        lemma_well_formed_object(entries);
        let entry = entries[n - 1];
        crate::json::lemma_key_index_distinct(entries, n - 1);
        assert(well_formed(entry.1));
        law_merge_self(entry.1);
        assert(combined(entry.1, entry.1) == entry.1);
        assert(with_entry(entries, entry) =~= entries);
    }
}

/// Merging a well-formed tree into itself leaves it unchanged, whether or
/// not it holds arrays.
pub proof fn law_merge_self(tree: Json)
    requires
        well_formed(tree),
    ensures
        merged(tree, tree) == tree,
    decreases tree, 0nat,
{
    match tree {
        Json::Object(entries) => {
            lemma_merge_entries_self(entries, entries.len());
        },
        Json::Array(items) => {
            lemma_append_self(items, items.len());
        },
        _ => {},
    }
}

/// Appending source items keeps a list of well-formed trees well-formed.
pub proof fn lemma_appended_well_formed(target: Seq<Json>, source: Seq<Json>, n: nat)
    requires
        n <= source.len(),
        well_formed(Json::Array(target)),
        well_formed(Json::Array(source)),
    ensures
        well_formed(Json::Array(appended_new(target, source, n))),
    decreases n,
{
    if n > 0 {
        lemma_appended_well_formed(target, source, (n - 1) as nat);
        let prev = appended_new(target, source, (n - 1) as nat);
        let after = appended_new(target, source, n);
        lemma_well_formed_array(prev);
        lemma_well_formed_array(source);
        lemma_well_formed_array(after);
        assert(well_formed(source[n - 1]));
        assert forall|i: int| 0 <= i < after.len() implies well_formed(#[trigger] after[i]) by {
            if i < prev.len() {
                assert(after[i] == prev[i]);
            }
        }
    }
}

/// Merging one well-formed entry into a well-formed object keeps it so.
pub proof fn lemma_with_entry_well_formed(
    entries: Seq<(Seq<char>, Json)>,
    entry: (Seq<char>, Json),
)
    requires
        well_formed(Json::Object(entries)),
        well_formed(entry.1),
    ensures
        well_formed(Json::Object(with_entry(entries, entry))),
    decreases entry.1, 2nat,
{
    let after = with_entry(entries, entry);
    lemma_key_index(entries, entry.0);
    lemma_well_formed_object(entries);
    lemma_well_formed_object(after);
    match key_index(entries, entry.0) {
        Some(i) => {
            assert(well_formed(entries[i].1));
            if entries[i].1 is Object && entry.1 is Object {
                law_merge_well_formed(entries[i].1, entry.1);
            }
            assert forall|j: int| 0 <= j < after.len() implies well_formed(
                (#[trigger] after[j]).1,
            ) by {
                if j != i {
                    assert(after[j] == entries[j]);
                }
            }
            assert forall|a: int, b: int| 0 <= a < b < after.len() implies (#[trigger] after[a]).0
                != (#[trigger] after[b]).0 by {
                assert(after[a].0 == entries[a].0);
                assert(after[b].0 == entries[b].0);
            }
        },
        None => {
            assert forall|j: int| 0 <= j < after.len() implies well_formed(
                (#[trigger] after[j]).1,
            ) by {
                if j < entries.len() {
                    assert(after[j] == entries[j]);
                }
            }
            assert forall|a: int, b: int| 0 <= a < b < after.len() implies (#[trigger] after[a]).0
                != (#[trigger] after[b]).0 by {
                assert(after[a] == entries[a]);
                if b < entries.len() {
                    assert(after[b] == entries[b]);
                }
            }
        },
    }
}

/// Merging source entries into a well-formed object keeps it well-formed.
pub proof fn lemma_merged_entries_well_formed(
    target: Seq<(Seq<char>, Json)>,
    source: Seq<(Seq<char>, Json)>,
    n: nat,
)
    requires
        n <= source.len(),
        well_formed(Json::Object(target)),
        well_formed(Json::Object(source)),
    ensures
        well_formed(Json::Object(merged_entries(target, source, n))),
    decreases source, n,
{
    if n > 0 {
        lemma_merged_entries_well_formed(target, source, (n - 1) as nat);
        lemma_well_formed_object(source);
        assert(well_formed(source[n - 1].1));
        lemma_with_entry_well_formed(
            merged_entries(target, source, (n - 1) as nat),
            source[n - 1],
        );
    }
}

/// The merge of two well-formed trees is well-formed.
pub proof fn law_merge_well_formed(target: Json, source: Json)
    requires
        well_formed(target),
        well_formed(source),
    ensures
        well_formed(merged(target, source)),
    decreases source, 0nat,
{
    match (target, source) {
        (Json::Object(t), Json::Object(s)) => {
            lemma_merged_entries_well_formed(t, s, s.len());
        },
        (Json::Array(t), Json::Array(s)) => {
            lemma_appended_well_formed(t, s, s.len());
        },
        _ => {},
    }
}

/// After the first `n` source items were appended, the list holds an item
/// equal to each of them.
pub proof fn lemma_appended_holds(target: Seq<Json>, source: Seq<Json>, n: nat, k: int)
    requires
        0 <= k < n <= source.len(),
        well_formed(Json::Array(source)),
    ensures
        contains_equal(appended_new(target, source, n), source[k]),
    decreases n,
{
    let prev = appended_new(target, source, (n - 1) as nat);
    let after = appended_new(target, source, n);
    lemma_well_formed_array(source);
    if k == n - 1 {
        if !contains_equal(prev, source[k]) {
            lemma_json_equal_reflexive(source[k]);
            assert(json_equal(after[prev.len() as int], source[k]));
        }
    } else {
        lemma_appended_holds(target, source, (n - 1) as nat, k);
        let at = choose|at: int| 0 <= at < prev.len() && json_equal(#[trigger] prev[at], source[k]);
        assert(json_equal(after[at], source[k]));
    }
}

/// Appending items to a list that holds an equal item for each of them adds
/// nothing.
pub proof fn lemma_append_known(items: Seq<Json>, source: Seq<Json>, n: nat)
    requires
        n <= source.len(),
        forall|k: int| 0 <= k < n ==> contains_equal(items, #[trigger] source[k]),
    ensures
        appended_new(items, source, n) == items,
    decreases n,
{
    if n > 0 {
        lemma_append_known(items, source, (n - 1) as nat);
    }
}

/// Merging the source's entries a second time into what the first merge
/// gave changes nothing.
pub proof fn lemma_merge_entries_again(
    target: Seq<(Seq<char>, Json)>,
    source: Seq<(Seq<char>, Json)>,
    n: nat,
)
    requires
        n <= source.len(),
        well_formed(Json::Object(target)),
        well_formed(Json::Object(source)),
    ensures
        merged_entries(merged_entries(target, source, source.len()), source, n) == merged_entries(
            target,
            source,
            source.len(),
        ),
    decreases source, n,
{
    if n > 0 {
        let once = merged_entries(target, source, source.len());
        let entry = source[n - 1];
        lemma_merge_entries_again(target, source, (n - 1) as nat);
        lemma_well_formed_object(source);
        lemma_well_formed_object(target);
        lemma_merged_entries_takes(target, source, source.len(), n - 1);
        lemma_key_index(once, entry.0);
        lemma_key_index(target, entry.0);
        let at = key_index(once, entry.0)->Some_0;
        assert(well_formed(entry.1));
        match lookup(target, entry.0) {
            Some(held) => {
                if held is Object && entry.1 is Object {
                    law_merge_again(held, entry.1);
                } else {
                    law_merge_self(entry.1);
                }
            },
            None => {
                law_merge_self(entry.1);
            },
        }
        assert(combined(once[at].1, entry.1) == once[at].1);
        assert(with_entry(once, entry) =~= once);
    }
}

/// Merging the same source a second time changes nothing: what the first
/// merge gave is what the second gives.
pub proof fn law_merge_again(target: Json, source: Json)
    requires
        well_formed(target),
        well_formed(source),
    ensures
        merged(merged(target, source), source) == merged(target, source),
    decreases source, 0nat,
{
    match (target, source) {
        (Json::Object(t), Json::Object(s)) => {
            lemma_merge_entries_again(t, s, s.len());
        },
        (Json::Array(t), Json::Array(s)) => {
            let once = appended_new(t, s, s.len());
            assert forall|k: int| 0 <= k < s.len() implies contains_equal(
                once,
                #[trigger] s[k],
            ) by {
                lemma_appended_holds(t, s, s.len(), k);
            }
            lemma_append_known(once, s, s.len());
        },
        _ => {
            law_merge_self(source);
        },
    }
}

} // verus!
