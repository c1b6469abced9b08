//! Configuration trees: the structural form of a parsed configuration file,
//! its mathematical model, and value equality on it.

use vstd::prelude::*;

verus! {

/// A number of a configuration tree: an unsigned integer, a negative
/// integer, or a fractional number kept as its shortest decimal text.
#[derive(Clone, Debug)]
pub enum JsonNumber {
    PosInt(u64),
    NegInt(i64),
    Float(String),
}

/// The mathematical content of a [`JsonNumber`].
pub enum Numeral {
    PosInt(u64),
    NegInt(i64),
    Float(Seq<char>),
}

/// A configuration tree as the program holds it. An object keeps its
/// entries in a list; a well-formed tree names no key twice in one object.
#[derive(Debug)]
pub enum JsonValue {
    Null,
    Bool(bool),
    Number(JsonNumber),
    String(String),
    Array(Vec<JsonValue>),
    Object(Vec<(String, JsonValue)>),
}

/// The mathematical content of a [`JsonValue`].
pub enum Json {
    Null,
    Bool(bool),
    Number(Numeral),
    String(Seq<char>),
    Array(Seq<Json>),
    Object(Seq<(Seq<char>, Json)>),
}

impl View for JsonNumber {
    type V = Numeral;

    open spec fn view(&self) -> Numeral {
        match self {
            JsonNumber::PosInt(u) => Numeral::PosInt(*u),
            JsonNumber::NegInt(i) => Numeral::NegInt(*i),
            JsonNumber::Float(t) => Numeral::Float(t@),
        }
    }
}

/// The model of a tree.
pub open spec fn model_of(v: JsonValue) -> Json
    decreases v, 0nat,
{
    match v {
        JsonValue::Null => Json::Null,
        JsonValue::Bool(b) => Json::Bool(b),
        JsonValue::Number(n) => Json::Number(n@),
        JsonValue::String(s) => Json::String(s@),
        JsonValue::Array(items) => Json::Array(items_model(items@, items@.len())),
        JsonValue::Object(entries) => Json::Object(entries_model(entries@, entries@.len())),
    }
}

/// The models of the first `n` trees of a list.
pub open spec fn items_model(items: Seq<JsonValue>, n: nat) -> Seq<Json>
    decreases items, n,
{
    if n == 0 || n > items.len() {
        Seq::empty()
    } else {
        items_model(items, (n - 1) as nat).push(model_of(items[n - 1]))
    }
}

/// The models of the first `n` entries of an object.
pub open spec fn entries_model(entries: Seq<(String, JsonValue)>, n: nat) -> Seq<(Seq<char>, Json)>
    decreases entries, n,
{
    if n == 0 || n > entries.len() {
        Seq::empty()
    } else {
        entries_model(entries, (n - 1) as nat).push((entries[n - 1].0@, model_of(entries[n - 1].1)))
    }
}

impl View for JsonValue {
    type V = Json;

    open spec fn view(&self) -> Json {
        model_of(*self)
    }
}

/// The models of a list of trees, one by one.
pub open spec fn items_view(items: Seq<JsonValue>) -> Seq<Json> {
    items_model(items, items.len())
}

/// The models of a list of object entries, one by one.
pub open spec fn entries_view(entries: Seq<(String, JsonValue)>) -> Seq<(Seq<char>, Json)> {
    entries_model(entries, entries.len())
}

/// The first `n` models are the models of the first `n` trees.
pub proof fn lemma_items_model(items: Seq<JsonValue>, n: nat)
    requires
        n <= items.len(),
    ensures
        items_model(items, n).len() == n,
        forall|i: int| 0 <= i < n ==> (#[trigger] items_model(items, n)[i]) == items[i]@,
    decreases n,
{
    if n > 0 {
        lemma_items_model(items, (n - 1) as nat);
    }
}

/// The first `n` models are the models of the first `n` entries.
pub proof fn lemma_entries_model(entries: Seq<(String, JsonValue)>, n: nat)
    requires
        n <= entries.len(),
    ensures
        entries_model(entries, n).len() == n,
        forall|i: int|
            0 <= i < n ==> (#[trigger] entries_model(entries, n)[i]) == (
                entries[i].0@,
                entries[i].1@,
            ),
    decreases n,
{
    if n > 0 {
        lemma_entries_model(entries, (n - 1) as nat);
    }
}

/// The position of the first entry named `key`, if there is one.
pub open spec fn key_index(entries: Seq<(Seq<char>, Json)>, key: Seq<char>) -> Option<int>
    decreases entries.len(),
{
    if entries.len() == 0 {
        None
    } else {
        match key_index(entries.drop_last(), key) {
            Some(i) => Some(i),
            None => if entries.last().0 == key {
                Some(entries.len() - 1)
            } else {
                None
            },
        }
    }
}

/// The value that an object's entries give to `key`, if any.
pub open spec fn lookup(entries: Seq<(Seq<char>, Json)>, key: Seq<char>) -> Option<Json> {
    match key_index(entries, key) {
        Some(i) => Some(entries[i].1),
        None => None,
    }
}

/// No two entries share a key.
pub open spec fn distinct_keys(entries: Seq<(Seq<char>, Json)>) -> bool {
    forall|i: int, j: int|
        0 <= i < j < entries.len() ==> (#[trigger] entries[i]).0 != (#[trigger] entries[j]).0
}

/// A well-formed tree names no key twice in one object, and keeps every
/// non-negative integer as an unsigned one.
pub open spec fn well_formed(j: Json) -> bool
    decreases j,
{
    match j {
        Json::Number(Numeral::NegInt(i)) => i < 0,
        Json::Array(items) => forall|i: int|
            0 <= i < items.len() ==> well_formed(#[trigger] items[i]),
        Json::Object(entries) => distinct_keys(entries) && forall|i: int|
            0 <= i < entries.len() ==> well_formed((#[trigger] entries[i]).1),
        _ => true,
    }
}

/// An array is well-formed exactly when its items are.
pub proof fn lemma_well_formed_array(items: Seq<Json>)
    ensures
        well_formed(Json::Array(items)) <==> forall|i: int|
            0 <= i < items.len() ==> well_formed(#[trigger] items[i]),
{
    assert(Json::Array(items)->Array_0 == items);
}

/// An object is well-formed exactly when its keys are distinct and its
/// values well-formed.
pub proof fn lemma_well_formed_object(entries: Seq<(Seq<char>, Json)>)
    ensures
        well_formed(Json::Object(entries)) <==> distinct_keys(entries) && forall|i: int|
            0 <= i < entries.len() ==> well_formed((#[trigger] entries[i]).1),
{
    assert(Json::Object(entries)->Object_0 == entries);
}

/// The two decimal texts of zero, which stand for equal numbers.
pub open spec fn zero_text(t: Seq<char>) -> bool {
    t == "0.0"@ || t == "-0.0"@
}

/// Equality of numbers: integers by value, fractional numbers by their
/// text, the two zeros being equal. An integer never equals a fractional
/// number.
pub open spec fn numeral_equal(a: Numeral, b: Numeral) -> bool {
    match (a, b) {
        (Numeral::PosInt(x), Numeral::PosInt(y)) => x == y,
        (Numeral::NegInt(x), Numeral::NegInt(y)) => x == y,
        (Numeral::Float(x), Numeral::Float(y)) => x == y || (zero_text(x) && zero_text(y)),
        _ => false,
    }
}

/// Value equality of trees: arrays item by item in order, objects as
/// mappings from key to value whatever the order of their entries.
pub open spec fn json_equal(a: Json, b: Json) -> bool
    decreases a,
{
    match (a, b) {
        (Json::Null, Json::Null) => true,
        (Json::Bool(x), Json::Bool(y)) => x == y,
        (Json::Number(x), Json::Number(y)) => numeral_equal(x, y),
        (Json::String(x), Json::String(y)) => x == y,
        (Json::Array(x), Json::Array(y)) => x.len() == y.len() && forall|i: int|
            0 <= i < x.len() ==> json_equal(#[trigger] x[i], y[i]),
        (Json::Object(x), Json::Object(y)) => x.len() == y.len() && forall|i: int|
            0 <= i < x.len() ==> match key_index(y, (#[trigger] x[i]).0) {
                Some(j) => json_equal(x[i].1, y[j].1),
                None => false,
            },
        _ => false,
    }
}

/// Some item of `items` equals `item`.
pub open spec fn contains_equal(items: Seq<Json>, item: Json) -> bool {
    exists|i: int| 0 <= i < items.len() && json_equal(#[trigger] items[i], item)
}

/// What `key_index` returns: the first position that holds the key, or
/// nothing where no position does.
pub proof fn lemma_key_index(entries: Seq<(Seq<char>, Json)>, key: Seq<char>)
    ensures
        match key_index(entries, key) {
            Some(i) => 0 <= i < entries.len() && entries[i].0 == key && forall|j: int|
                0 <= j < i ==> (#[trigger] entries[j]).0 != key,
            None => forall|j: int| 0 <= j < entries.len() ==> (#[trigger] entries[j]).0 != key,
        },
    decreases entries.len(),
{
    if entries.len() > 0 {
        let front = entries.drop_last();
        lemma_key_index(front, key);
        assert forall|j: int| 0 <= j < front.len() implies front[j] == entries[j] by {}
        match key_index(front, key) {
            Some(i) => {
                assert(entries[i] == front[i]);
                assert forall|j: int| 0 <= j < i implies (#[trigger] entries[j]).0 != key by {
                    assert(front[j] == entries[j]);
                }
            },
            None => {
                assert forall|j: int| 0 <= j < front.len() implies (#[trigger] entries[j]).0
                    != key by {
                    assert(front[j] == entries[j]);
                }
            },
        }
    }
}

/// The first position that holds the key is what `key_index` returns.
pub proof fn lemma_key_index_found(entries: Seq<(Seq<char>, Json)>, key: Seq<char>, i: int)
    requires
        0 <= i < entries.len(),
        entries[i].0 == key,
        forall|j: int| 0 <= j < i ==> (#[trigger] entries[j]).0 != key,
    ensures
        key_index(entries, key) == Some(i),
{
    lemma_key_index(entries, key);
}

/// Among distinct keys, any position that holds the key is the one that
/// `key_index` returns.
pub proof fn lemma_key_index_distinct(entries: Seq<(Seq<char>, Json)>, i: int)
    requires
        0 <= i < entries.len(),
        distinct_keys(entries),
    ensures
        key_index(entries, entries[i].0) == Some(i),
{
    lemma_key_index(entries, entries[i].0);
}

/// Lists of trees with the same models, one by one, have the same model.
pub proof fn lemma_items_view_equal(a: Seq<JsonValue>, b: Seq<JsonValue>)
    requires
        a.len() == b.len(),
        forall|i: int| 0 <= i < a.len() ==> (#[trigger] a[i])@ == b[i]@,
    ensures
        items_view(a) == items_view(b),
{
    lemma_items_model(a, a.len());
    lemma_items_model(b, b.len());
    assert(items_view(a) =~= items_view(b));
}

/// Lists of entries with the same models, one by one, have the same model.
pub proof fn lemma_entries_view_equal(a: Seq<(String, JsonValue)>, b: Seq<(String, JsonValue)>)
    requires
        a.len() == b.len(),
        forall|i: int|
            0 <= i < a.len() ==> (#[trigger] a[i]).0@ == b[i].0@ && a[i].1@ == b[i].1@,
    ensures
        entries_view(a) == entries_view(b),
{
    lemma_entries_model(a, a.len());
    lemma_entries_model(b, b.len());
    assert(entries_view(a) =~= entries_view(b));
}

/// Adding a tree to a list adds its model to the list's model.
pub proof fn lemma_items_view_push(items: Seq<JsonValue>, item: JsonValue)
    ensures
        items_view(items.push(item)) == items_view(items).push(item@),
{
    let longer = items.push(item);
    lemma_items_model(items, items.len());
    lemma_items_model(longer, longer.len());
    assert(items_view(longer) =~= items_view(items).push(item@));
}

/// Adding an entry to a list adds its model to the list's model.
pub proof fn lemma_entries_view_push(entries: Seq<(String, JsonValue)>, entry: (String, JsonValue))
    ensures
        entries_view(entries.push(entry)) == entries_view(entries).push((entry.0@, entry.1@)),
{
    let longer = entries.push(entry);
    lemma_entries_model(entries, entries.len());
    lemma_entries_model(longer, longer.len());
    assert(entries_view(longer) =~= entries_view(entries).push((entry.0@, entry.1@)));
}

/// Replacing an entry of a list replaces its model in the list's model.
pub proof fn lemma_entries_view_update(
    entries: Seq<(String, JsonValue)>,
    i: int,
    entry: (String, JsonValue),
)
    requires
        0 <= i < entries.len(),
    ensures
        entries_view(entries.update(i, entry)) == entries_view(entries).update(
            i,
            (entry.0@, entry.1@),
        ),
{
    let changed = entries.update(i, entry);
    lemma_entries_model(entries, entries.len());
    lemma_entries_model(changed, changed.len());
    assert(entries_view(changed) =~= entries_view(entries).update(i, (entry.0@, entry.1@)));
}

impl JsonNumber {
    /// A copy of this number.
    pub fn duplicate(&self) -> (r: JsonNumber)
        ensures
            r@ == self@,
    {
        match self {
            JsonNumber::PosInt(u) => JsonNumber::PosInt(*u),
            JsonNumber::NegInt(i) => JsonNumber::NegInt(*i),
            JsonNumber::Float(t) => JsonNumber::Float(t.clone()),
        }
    }

    /// Whether the two numbers are equal.
    pub fn equals(&self, other: &JsonNumber) -> (r: bool)
        ensures
            r == numeral_equal(self@, other@),
    {
        match (self, other) {
            (JsonNumber::PosInt(x), JsonNumber::PosInt(y)) => *x == *y,
            (JsonNumber::NegInt(x), JsonNumber::NegInt(y)) => *x == *y,
            (JsonNumber::Float(x), JsonNumber::Float(y)) => {
                if *x == *y {
                    true
                } else {
                    is_zero_text(x) && is_zero_text(y)
                }
            },
            _ => false,
        }
    }
}

/// Whether the text is one of the two decimal texts of zero.
pub fn is_zero_text(t: &String) -> (r: bool)
    ensures
        r == zero_text(t@),
{
    let plain = String::from_str("0.0");
    let signed = String::from_str("-0.0");
    *t == plain || *t == signed
}

/// The position of the first entry named `key`.
pub fn find_key(entries: &Vec<(String, JsonValue)>, key: &String) -> (r: Option<usize>)
    ensures
        match r {
            Some(i) => key_index(entries_view(entries@), key@) == Some(i as int),
            None => key_index(entries_view(entries@), key@) is None,
        },
{
    let ghost model = entries_view(entries@);
    proof {
        lemma_entries_model(entries@, entries@.len());
        lemma_key_index(model, key@);
    }
    let mut i: usize = 0;
    while i < entries.len()
        invariant
            i <= entries.len(),
            model == entries_view(entries@),
            model.len() == entries.len(),
            forall|j: int| 0 <= j < entries.len() ==> (#[trigger] model[j]).0 == entries[j].0@,
            forall|j: int| 0 <= j < i ==> (#[trigger] model[j]).0 != key@,
        decreases entries.len() - i,
    {
        if entries[i].0 == *key {
            proof {
                lemma_key_index_found(model, key@, i as int);
            }
            return Some(i);
        }
        i += 1;
    }
    None
}

impl JsonValue {
    /// Whether this tree is an object.
    pub fn is_object(&self) -> (r: bool)
        ensures
            r == (self@ is Object),
    {
        match self {
            JsonValue::Object(_) => true,
            _ => false,
        }
    }

    /// A copy of this tree.
    #[verifier::loop_isolation(false)]
    pub fn duplicate(&self) -> (r: JsonValue)
        ensures
            r@ == self@,
        decreases self,
    {
        match self {
            JsonValue::Null => JsonValue::Null,
            JsonValue::Bool(b) => JsonValue::Bool(*b),
            JsonValue::Number(n) => JsonValue::Number(n.duplicate()),
            JsonValue::String(s) => JsonValue::String(s.clone()),
            JsonValue::Array(items) => {
                let mut out: Vec<JsonValue> = Vec::new();
                let mut i: usize = 0;
                while i < items.len()
                    invariant
                        i <= items.len(),
                        out.len() == i,
                        forall|j: int| 0 <= j < i ==> (#[trigger] out[j])@ == items[j]@,
                    decreases items.len() - i,
                {
                    let item = items[i].duplicate();
                    out.push(item);
                    i += 1;
                }
                proof {
                    lemma_items_view_equal(out@, items@);
                }
                JsonValue::Array(out)
            },
            JsonValue::Object(entries) => {
                let mut out: Vec<(String, JsonValue)> = Vec::new();
                let mut i: usize = 0;
                while i < entries.len()
                    invariant
                        i <= entries.len(),
                        out.len() == i,
                        forall|j: int|
                            0 <= j < i ==> (#[trigger] out[j]).0@ == entries[j].0@ && out[j].1@
                                == entries[j].1@,
                    decreases entries.len() - i,
                {
                    let key = entries[i].0.clone();
                    let value = entries[i].1.duplicate();
                    out.push((key, value));
                    i += 1;
                }
                proof {
                    lemma_entries_view_equal(out@, entries@);
                }
                JsonValue::Object(out)
            },
        }
    }

    /// Whether this tree is well-formed.
    #[verifier::loop_isolation(false)]
    pub fn is_well_formed(&self) -> (r: bool)
        ensures
            r == well_formed(self@),
        decreases self,
    {
        match self {
            JsonValue::Number(JsonNumber::NegInt(i)) => *i < 0,
            JsonValue::Array(items) => {
                proof {
                    lemma_items_model(items@, items@.len());
                    lemma_well_formed_array(items_view(items@));
                }
                let mut i: usize = 0;
                while i < items.len()
                    invariant
                        i <= items.len(),
                        forall|j: int| 0 <= j < i ==> well_formed(#[trigger] items_view(items@)[j]),
                    decreases items.len() - i,
                {
                    if !items[i].is_well_formed() {
                        assert(!well_formed(items_view(items@)[i as int]));
                        return false;
                    }
                    i += 1;
                }
                true
            },
            JsonValue::Object(entries) => {
                let ghost models = entries_view(entries@);
                proof {
                    lemma_entries_model(entries@, entries@.len());
                    lemma_well_formed_object(models);
                }
                let mut i: usize = 0;
                while i < entries.len()
                    invariant
                        i <= entries.len(),
                        forall|j: int| 0 <= j < i ==> well_formed((#[trigger] models[j]).1),
                        forall|j: int|
                            0 <= j < i ==> key_index(models, (#[trigger] models[j]).0) == Some(j),
                    decreases entries.len() - i,
                {
                    proof {
                        lemma_key_index(models, models[i as int].0);
                    }
                    match find_key(entries, &entries[i].0) {
                        Some(first) => {
                            if first != i {
                                assert(models[first as int].0 == models[i as int].0);
                                return false;
                            }
                        },
                        None => {
                            return false;
                        },
                    }
                    if !entries[i].1.is_well_formed() {
                        assert(!well_formed(models[i as int].1));
                        return false;
                    }
                    i += 1;
                }
                proof {
                    assert forall|a: int, b: int| 0 <= a < b < models.len() implies (
                    #[trigger] models[a]).0 != (#[trigger] models[b]).0 by {
                        lemma_key_index(models, models[b].0);
                    }
                }
                true
            },
            _ => true,
        }
    }

    /// Whether the two trees are equal as values.
    #[verifier::loop_isolation(false)]
    pub fn equals(&self, other: &JsonValue) -> (r: bool)
        ensures
            r == json_equal(self@, other@),
        decreases self,
    {
        match (self, other) {
            (JsonValue::Null, JsonValue::Null) => true,
            (JsonValue::Bool(x), JsonValue::Bool(y)) => *x == *y,
            (JsonValue::Number(x), JsonValue::Number(y)) => x.equals(y),
            (JsonValue::String(x), JsonValue::String(y)) => *x == *y,
            (JsonValue::Array(x), JsonValue::Array(y)) => {
                proof {
                    lemma_items_model(x@, x@.len());
                    lemma_items_model(y@, y@.len());
                }
                if x.len() != y.len() {
                    return false;
                }
                let mut i: usize = 0;
                while i < x.len()
                    invariant
                        i <= x.len(),
                        x.len() == y.len(),
                        forall|j: int| 0 <= j < i ==> json_equal((#[trigger] x[j])@, y[j]@),
                    decreases x.len() - i,
                {
                    if !x[i].equals(&y[i]) {
                        assert(items_view(x@)[i as int] == x[i as int]@);
                        assert(items_view(y@)[i as int] == y[i as int]@);
                        return false;
                    }
                    i += 1;
                }
                true
            },
            (JsonValue::Object(x), JsonValue::Object(y)) => {
                proof {
                    lemma_entries_model(x@, x@.len());
                    lemma_entries_model(y@, y@.len());
                }
                if x.len() != y.len() {
                    return false;
                }
                let ghost xs = entries_view(x@);
                let ghost ys = entries_view(y@);
                let mut i: usize = 0;
                while i < x.len()
                    invariant
                        i <= x.len(),
                        x.len() == y.len(),
                        xs == entries_view(x@),
                        ys == entries_view(y@),
                        xs.len() == x.len(),
                        ys.len() == y.len(),
                        forall|j: int|
                            0 <= j < x.len() ==> (#[trigger] xs[j]) == (x[j].0@, x[j].1@),
                        forall|j: int|
                            0 <= j < y.len() ==> (#[trigger] ys[j]) == (y[j].0@, y[j].1@),
                        forall|j: int|
                            0 <= j < i ==> match key_index(ys, (#[trigger] xs[j]).0) {
                                Some(k) => json_equal(xs[j].1, ys[k].1),
                                None => false,
                            },
                    decreases x.len() - i,
                {
                    proof {
                        lemma_key_index(ys, xs[i as int].0);
                    }
                    assert(xs[i as int] == (x[i as int].0@, x[i as int].1@));
                    match find_key(y, &x[i].0) {
                        Some(k) => {
                            assert(ys[k as int] == (y[k as int].0@, y[k as int].1@));
                            if !x[i].1.equals(&y[k].1) {
                                return false;
                            }
                        },
                        None => {
                            return false;
                        },
                    }
                    i += 1;
                }
                true
            },
            _ => false,
        }
    }
}

} // verus!
