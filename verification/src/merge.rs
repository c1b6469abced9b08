//! The merge engine: a structural merge of two configuration trees in which
//! the source is the authority wherever the two overlap.

use crate::json::{
    contains_equal, entries_view, find_key, items_view, key_index, lemma_entries_model,
    lemma_entries_view_push, lemma_entries_view_update, lemma_items_model, lemma_items_view_push,
    json_equal, well_formed, Json, JsonValue,
};
use vstd::prelude::*;

verus! {

/// The result of merging `source` into `target`.
///
/// Two objects merge key by key, two arrays by appending what is new; in
/// every other pairing the source replaces the target.
pub open spec fn merged(target: Json, source: Json) -> Json
    decreases source, 0nat,
{
    match (target, source) {
        (Json::Object(t), Json::Object(s)) => Json::Object(merged_entries(t, s, s.len())),
        (Json::Array(t), Json::Array(s)) => Json::Array(appended_new(t, s, s.len())),
        _ => source,
    }
}

/// The target's entries after the first `n` source entries were merged in,
/// one after the other.
pub open spec fn merged_entries(
    target: Seq<(Seq<char>, Json)>,
    source: Seq<(Seq<char>, Json)>,
    n: nat,
) -> Seq<(Seq<char>, Json)>
    decreases source, n,
{
    if n == 0 || n > source.len() {
        target
    } else {
        with_entry(merged_entries(target, source, (n - 1) as nat), source[n - 1])
    }
}

/// The entries after one source entry was merged in.
///
/// A key that the entries lack is added at the end. A key that they hold
/// keeps its place and takes the combined value.
pub open spec fn with_entry(entries: Seq<(Seq<char>, Json)>, entry: (Seq<char>, Json)) -> Seq<
    (Seq<char>, Json),
>
    decreases entry.1, 2nat,
{
    match key_index(entries, entry.0) {
        Some(i) => entries.update(i, (entries[i].0, combined(entries[i].1, entry.1))),
        None => entries.push(entry),
    }
}

/// The value of a key that both objects hold: the merge of the two values
/// where both are objects, the source's value otherwise.
pub open spec fn combined(old_value: Json, new_value: Json) -> Json
    decreases new_value, 1nat,
{
    if old_value is Object && new_value is Object {
        merged(old_value, new_value)
    } else {
        new_value
    }
}

/// The target's items after the first `n` source items were appended, each
/// unless an equal item was already there.
pub open spec fn appended_new(target: Seq<Json>, source: Seq<Json>, n: nat) -> Seq<Json>
    decreases n,
{
    if n == 0 || n > source.len() {
        target
    } else {
        let prev = appended_new(target, source, (n - 1) as nat);
        if contains_equal(prev, source[n - 1]) {
            prev
        } else {
            prev.push(source[n - 1])
        }
    }
}

/// Whether some item of the list equals `item`.
pub fn holds_equal(items: &Vec<JsonValue>, item: &JsonValue) -> (r: bool)
    ensures
        r == contains_equal(items_view(items@), item@),
{
    proof {
        lemma_items_model(items@, items@.len());
    }
    let mut i: usize = 0;
    while i < items.len()
        invariant
            i <= items.len(),
            items_view(items@).len() == items.len(),
            forall|j: int| 0 <= j < items.len() ==> (#[trigger] items_view(items@)[j]) == items[j]@,
            forall|j: int| 0 <= j < i ==> !json_equal(#[trigger] items_view(items@)[j], item@),
        decreases items.len() - i,
    {
        if items[i].equals(item) {
            assert(json_equal(items_view(items@)[i as int], item@));
            return true;
        }
        i += 1;
    }
    false
}

/// The tree that results from merging `source` into `target`.
#[verifier::loop_isolation(false)]
pub fn merged_value(target: &JsonValue, source: &JsonValue) -> (r: JsonValue)
    ensures
        r@ == merged(target@, source@),
    decreases source,
{
    match (target, source) {
        (JsonValue::Object(_), JsonValue::Object(theirs)) => {
            let mut out: Vec<(String, JsonValue)> = match target.duplicate() {
                JsonValue::Object(entries) => entries,
                _ => Vec::new(),
            };
            let ghost ours = target@->Object_0;
            let ghost source_entries = entries_view(theirs@);
            proof {
                lemma_entries_model(theirs@, theirs@.len());
            }
            let mut n: usize = 0;
            while n < theirs.len()
                invariant
                    n <= theirs.len(),
                    entries_view(out@) == merged_entries(ours, source_entries, n as nat),
                decreases theirs.len() - n,
            {
                let ghost prev = entries_view(out@);
                proof {
                    lemma_entries_model(out@, out@.len());
                    assert(source_entries[n as int] == (theirs[n as int].0@, theirs[n as int].1@));
                }
                match find_key(&out, &theirs[n].0) {
                    Some(i) => {
                        proof {
                            crate::json::lemma_key_index(prev, theirs[n as int].0@);
                        }
                        let value = if out[i].1.is_object() && theirs[n].1.is_object() {
                            merged_value(&out[i].1, &theirs[n].1)
                        } else {
                            theirs[n].1.duplicate()
                        };
                        let key = out[i].0.clone();
                        proof {
                            assert(prev[i as int] == (out[i as int].0@, out[i as int].1@));
                            assert(value@ == combined(prev[i as int].1, source_entries[n as int].1));
                            lemma_entries_view_update(out@, i as int, (key, value));
                        }
                        out.set(i, (key, value));
                        assert(entries_view(out@) == with_entry(prev, source_entries[n as int]));
                    },
                    None => {
                        let key = theirs[n].0.clone();
                        let value = theirs[n].1.duplicate();
                        proof {
                            lemma_entries_view_push(out@, (key, value));
                        }
                        out.push((key, value));
                        assert(entries_view(out@) == with_entry(prev, source_entries[n as int]));
                    },
                }
                n += 1;
            }
            JsonValue::Object(out)
        },
        (JsonValue::Array(_), JsonValue::Array(theirs)) => {
            let mut out: Vec<JsonValue> = match target.duplicate() {
                JsonValue::Array(items) => items,
                _ => Vec::new(),
            };
            let ghost ours = target@->Array_0;
            let ghost source_items = items_view(theirs@);
            proof {
                lemma_items_model(theirs@, theirs@.len());
            }
            let mut n: usize = 0;
            while n < theirs.len()
                invariant
                    n <= theirs.len(),
                    items_view(out@) == appended_new(ours, source_items, n as nat),
                decreases theirs.len() - n,
            {
                assert(source_items[n as int] == theirs[n as int]@);
                if !holds_equal(&out, &theirs[n]) {
                    let item = theirs[n].duplicate();
                    proof {
                        lemma_items_view_push(out@, item);
                    }
                    out.push(item);
                }
                n += 1;
            }
            JsonValue::Array(out)
        },
        _ => source.duplicate(),
    }
}

/// Merges `source` into `target` in place: where the two overlap, the
/// source decides.
pub fn merge_json_values(target: &mut JsonValue, source: &JsonValue)
    ensures
        final(target)@ == merged(old(target)@, source@),
        well_formed(old(target)@) && well_formed(source@) ==> well_formed(final(target)@),
{
    proof {
        if well_formed(target@) && well_formed(source@) {
            crate::merge_laws::law_merge_well_formed(target@, source@);
        }
    }
    let result = merged_value(target, source);
    *target = result;
}

} // verus!
