//! A JSON document model for what the server reads and writes: gateway
//! answers are summarized and request bodies are assembled on it.
//!
//! Numbers are kept as their JSON text, so no arithmetic on them happens
//! here. An object is a sequence of entries; as in a JSON parser, a later
//! entry for the same key overrides an earlier one.

use vstd::prelude::*;
use crate::text::{owned, str_equal};

verus! {

/// An executable JSON value. Objects keep their entries in order; a later
/// entry for a key overrides an earlier one.
#[derive(Debug, PartialEq)]
pub enum JsonValue {
    Null,
    Bool(bool),
    /// A number, as its JSON text (e.g. `7.5`, `42`).
    Number(String),
    Str(String),
    Array(Vec<JsonValue>),
    Object(Vec<(String, JsonValue)>),
}

/// The mathematical JSON value.
pub enum Json {
    Null,
    Bool(bool),
    Number(Seq<char>),
    Str(Seq<char>),
    Array(Seq<Json>),
    Object(Seq<(Seq<char>, Json)>),
}

impl JsonValue {
    /// The mathematical value this executable value stands for.
    pub open spec fn model(&self) -> Json
        decreases self,
    {
        match self {
            JsonValue::Null => Json::Null,
            JsonValue::Bool(b) => Json::Bool(*b),
            JsonValue::Number(n) => Json::Number(n@),
            JsonValue::Str(s) => Json::Str(s@),
            JsonValue::Array(items) => Json::Array(models(items@)),
            JsonValue::Object(entries) => Json::Object(entry_models(entries@)),
        }
    }
}

/// The models of a sequence of values.
pub open spec fn models(items: Seq<JsonValue>) -> Seq<Json>
    decreases items,
{
    if items.len() == 0 {
        Seq::empty()
    } else {
        models(items.subrange(0, items.len() - 1)).push(items[items.len() - 1].model())
    }
}

/// The models of a sequence of object entries.
pub open spec fn entry_models(entries: Seq<(String, JsonValue)>) -> Seq<(Seq<char>, Json)>
    decreases entries,
{
    if entries.len() == 0 {
        Seq::empty()
    } else {
        entry_models(entries.subrange(0, entries.len() - 1)).push(
            (entries[entries.len() - 1].0@, entries[entries.len() - 1].1.model()),
        )
    }
}


impl Json {
    /// The value stored under `key` in an object (the last entry for that
    /// key); `None` for a missing key or a non-object.
    pub open spec fn get(self, key: Seq<char>) -> Option<Json> {
        match self {
            Json::Object(entries) => lookup(entries, key),
            _ => None,
        }
    }
}

/// The value of the last entry for `key`.
pub open spec fn lookup(entries: Seq<(Seq<char>, Json)>, key: Seq<char>) -> Option<Json>
    decreases entries.len(),
{
    if entries.len() == 0 {
        None
    } else if entries.last().0 == key {
        Some(entries.last().1)
    } else {
        lookup(entries.drop_last(), key)
    }
}

/// How many entries carry `key`.
pub open spec fn key_count(entries: Seq<(Seq<char>, Json)>, key: Seq<char>) -> nat
    decreases entries.len(),
{
    if entries.len() == 0 {
        0
    } else {
        key_count(entries.drop_last(), key) + if entries.last().0 == key {
            1nat
        } else {
            0nat
        }
    }
}

/// An object that carries no key twice (anything else trivially).
pub open spec fn keys_unique(j: Json) -> bool {
    match j {
        Json::Object(entries) => forall|key: Seq<char>| #[trigger] key_count(entries, key) <= 1,
        _ => true,
    }
}

/// Looking up and counting a key in entries appended one after another.
proof fn lemma_lookup_append(a: Seq<(Seq<char>, Json)>, b: Seq<(Seq<char>, Json)>, key: Seq<char>)
    ensures
        lookup(a + b, key) == (match lookup(b, key) {
            Some(v) => Some(v),
            None => lookup(a, key),
        }),
        key_count(a + b, key) == key_count(a, key) + key_count(b, key),
    decreases b.len(),
{
    if b.len() == 0 {
        assert(a + b =~= a);
    } else {
        assert((a + b).drop_last() =~= a + b.drop_last());
        assert((a + b).last() == b.last());
        lemma_lookup_append(a, b.drop_last(), key);
    }
}

/// The algebra of object entries: a later piece overrides an earlier one,
/// counts add up, and a single entry answers only for its own key.
pub proof fn lemma_entries_algebra()
    ensures
        forall|a: Seq<(Seq<char>, Json)>, b: Seq<(Seq<char>, Json)>, key: Seq<char>|
            #[trigger] lookup(a + b, key) == (match lookup(b, key) {
                Some(v) => Some(v),
                None => lookup(a, key),
            }),
        forall|a: Seq<(Seq<char>, Json)>, b: Seq<(Seq<char>, Json)>, key: Seq<char>|
            #[trigger] key_count(a + b, key) == key_count(a, key) + key_count(b, key),
        forall|k: Seq<char>, v: Json, key: Seq<char>|
            #[trigger] lookup(seq![(k, v)], key) == (if k == key {
                Some(v)
            } else {
                None
            }),
        forall|k: Seq<char>, v: Json, key: Seq<char>|
            #[trigger] key_count(seq![(k, v)], key) == (if k == key {
                1nat
            } else {
                0nat
            }),
        forall|key: Seq<char>| #[trigger] lookup(Seq::empty(), key) == None::<Json>,
        forall|key: Seq<char>| #[trigger] key_count(Seq::empty(), key) == 0,
{
    assert forall|a: Seq<(Seq<char>, Json)>, b: Seq<(Seq<char>, Json)>, key: Seq<char>|
        #[trigger] lookup(a + b, key) == (match lookup(b, key) {
            Some(v) => Some(v),
            None => lookup(a, key),
        }) by {
        lemma_lookup_append(a, b, key);
    }
    assert forall|a: Seq<(Seq<char>, Json)>, b: Seq<(Seq<char>, Json)>, key: Seq<char>|
        #[trigger] key_count(a + b, key) == key_count(a, key) + key_count(b, key) by {
        lemma_lookup_append(a, b, key);
    }
    assert forall|k: Seq<char>, v: Json, key: Seq<char>|
        #[trigger] key_count(seq![(k, v)], key) == (if k == key {
            1nat
        } else {
            0nat
        }) by {
        let s = seq![(k, v)];
        assert(s.len() == 1 && s.last() == (k, v));
        assert(s.drop_last() =~= Seq::<(Seq<char>, Json)>::empty());
        assert(key_count(s.drop_last(), key) == 0);
        assert(lookup(s.drop_last(), key) == None::<Json>);
    }
    assert forall|k: Seq<char>, v: Json, key: Seq<char>|
        #[trigger] lookup(seq![(k, v)], key) == (if k == key {
            Some(v)
        } else {
            None
        }) by {
        let s = seq![(k, v)];
        assert(s.len() == 1 && s.last() == (k, v));
        assert(s.drop_last() =~= Seq::<(Seq<char>, Json)>::empty());
        assert(key_count(s.drop_last(), key) == 0);
        assert(lookup(s.drop_last(), key) == None::<Json>);
    }
}

/// The views of a list of string slices.
pub open spec fn str_views(keys: Seq<&str>) -> Seq<Seq<char>> {
    keys.map_values(|k: &str| k@)
}

/// The entries of `obj` under `keys` that are present and not null, in the
/// order of `keys`.
pub open spec fn pick_entries(obj: Json, keys: Seq<Seq<char>>) -> Seq<(Seq<char>, Json)>
    decreases keys.len(),
{
    if keys.len() == 0 {
        Seq::empty()
    } else {
        let prev = pick_entries(obj, keys.drop_last());
        let k = keys.last();
        match obj.get(k) {
            Some(v) => if v is Null {
                prev
            } else {
                prev.push((k, v))
            },
            None => prev,
        }
    }
}

/// An object holding only `keys` (present and non-null) of `obj`.
pub open spec fn pick_spec(obj: Json, keys: Seq<Seq<char>>) -> Json {
    Json::Object(pick_entries(obj, keys))
}

/// Each row summarized down to `keys`.
pub open spec fn pick_rows(rows: Seq<Json>, keys: Seq<Seq<char>>) -> Seq<Json> {
    rows.map_values(|r: Json| pick_spec(r, keys))
}

/// The summarized rows of a list answer: its `data` array, each row
/// reduced to `keys`; no rows when `data` is missing or not an array.
pub open spec fn summarized_rows(answer: Json, keys: Seq<Seq<char>>) -> Seq<Json> {
    match answer.get("data"@) {
        Some(Json::Array(rows)) => pick_rows(rows, keys),
        _ => Seq::empty(),
    }
}

/// A summarized list answer: `{<out_key>: rows, pagination}`, where
/// pagination is carried over when present and not null.
pub open spec fn summarize_spec(answer: Json, out_key: Seq<char>, keys: Seq<Seq<char>>) -> Json {
    let rows = seq![(out_key, Json::Array(summarized_rows(answer, keys)))];
    match answer.get("pagination"@) {
        Some(p) => if p is Null {
            Json::Object(rows)
        } else {
            Json::Object(rows.push(("pagination"@, p)))
        },
        None => Json::Object(rows),
    }
}

/// `models` keeps length and position.
pub proof fn lemma_models(items: Seq<JsonValue>)
    ensures
        models(items).len() == items.len(),
        forall|i: int| 0 <= i < items.len() ==> #[trigger] models(items)[i] == items[i].model(),
    decreases items.len(),
{
    if items.len() > 0 {
        lemma_models(items.subrange(0, items.len() - 1));
    }
}

/// `entry_models` keeps length, position and keys.
pub proof fn lemma_entry_models(entries: Seq<(String, JsonValue)>)
    ensures
        entry_models(entries).len() == entries.len(),
        forall|i: int|
            0 <= i < entries.len() ==> #[trigger] entry_models(entries)[i] == (
                entries[i].0@,
                entries[i].1.model(),
            ),
    decreases entries.len(),
{
    if entries.len() > 0 {
        lemma_entry_models(entries.subrange(0, entries.len() - 1));
    }
}

proof fn lemma_models_take(items: Seq<JsonValue>, i: int)
    requires
        0 <= i < items.len(),
    ensures
        models(items.take(i + 1)) == models(items.take(i)).push(items[i].model()),
{
    assert(items.take(i + 1).subrange(0, i) =~= items.take(i));
}

proof fn lemma_entry_models_take(entries: Seq<(String, JsonValue)>, i: int)
    requires
        0 <= i < entries.len(),
    ensures
        entry_models(entries.take(i + 1)) == entry_models(entries.take(i)).push(
            (entries[i].0@, entries[i].1.model()),
        ),
{
    assert(entries.take(i + 1).subrange(0, i) =~= entries.take(i));
}

impl JsonValue {
    /// A copy of the value.
    #[verifier::loop_isolation(false)]
    pub fn deep_clone(&self) -> (r: JsonValue)
        ensures
            r.model() == self.model(),
        decreases self,
    {
        match self {
            JsonValue::Null => JsonValue::Null,
            JsonValue::Bool(b) => JsonValue::Bool(*b),
            JsonValue::Number(n) => JsonValue::Number(n.clone()),
            JsonValue::Str(s) => JsonValue::Str(s.clone()),
            JsonValue::Array(items) => {
                let mut out: Vec<JsonValue> = Vec::new();
                let mut i: usize = 0;
                assert(items@.take(0) =~= Seq::<JsonValue>::empty());
                while i < items.len()
                    invariant
                        i <= items@.len(),
                        models(out@) == models(items@.take(i as int)),
                    decreases items@.len() - i,
                {
                    proof {
                        assert(decreases_to!(*self => *items));
                        assert(decreases_to!(*items => items@));
                        assert(decreases_to!(items@ => items@[i as int]));
                    }
                    let c = items[i].deep_clone();
                    proof {
                        lemma_models_take(items@, i as int);
                        assert(out@.push(c).subrange(0, out@.len() as int) =~= out@);
                    }
                    out.push(c);
                    i = i + 1;
                }
                assert(items@.take(items@.len() as int) =~= items@);
                JsonValue::Array(out)
            },
            JsonValue::Object(entries) => {
                let mut out: Vec<(String, JsonValue)> = Vec::new();
                let mut i: usize = 0;
                assert(entries@.take(0) =~= Seq::<(String, JsonValue)>::empty());
                while i < entries.len()
                    invariant
                        i <= entries@.len(),
                        entry_models(out@) == entry_models(entries@.take(i as int)),
                    decreases entries@.len() - i,
                {
                    let k = entries[i].0.clone();
                    proof {
                        assert(decreases_to!(*self => *entries));
                        assert(decreases_to!(*entries => entries@));
                        assert(decreases_to!(entries@ => entries@[i as int]));
                        assert(decreases_to!(entries@[i as int] => entries@[i as int].1));
                    }
                    let c = entries[i].1.deep_clone();
                    proof {
                        lemma_entry_models_take(entries@, i as int);
                        assert(out@.push((k, c)).subrange(0, out@.len() as int) =~= out@);
                    }
                    out.push((k, c));
                    i = i + 1;
                }
                assert(entries@.take(entries@.len() as int) =~= entries@);
                JsonValue::Object(out)
            },
        }
    }

    /// The value stored under `key` when this is an object (the last entry
    /// for that key).
    #[verifier::loop_isolation(false)]
    pub fn get(&self, key: &str) -> (r: Option<&JsonValue>)
        ensures
            match r {
                Some(v) => self.model().get(key@) == Some(v.model()),
                None => self.model().get(key@) is None,
            },
    {
        match self {
            JsonValue::Object(entries) => {
                let ghost ms = entry_models(entries@);
                proof {
                    lemma_entry_models(entries@);
                }
                let mut i: usize = entries.len();
                assert(ms.take(i as int) =~= ms);
                while i > 0
                    invariant
                        i <= entries@.len(),
                        ms == entry_models(entries@),
                        ms.len() == entries@.len(),
                        forall|j: int|
                            0 <= j < entries@.len() ==> #[trigger] ms[j] == (
                                entries@[j].0@,
                                entries@[j].1.model(),
                            ),
                        lookup(ms, key@) == lookup(ms.take(i as int), key@),
                    decreases i,
                {
                    assert(ms.take(i as int).drop_last() =~= ms.take(i - 1));
                    assert(ms.take(i as int).last() == ms[i - 1]);
                    if str_equal(entries[i - 1].0.as_str(), key) {
                        assert(ms[i - 1] == (entries@[i - 1].0@, entries@[i - 1].1.model()));
                        assert(lookup(ms.take(i as int), key@) == Some(entries@[i - 1].1.model()));
                        return Some(&entries[i - 1].1);
                    }
                    i = i - 1;
                }
                None
            },
            _ => None,
        }
    }

    /// The elements when this is an array.
    pub fn as_array(&self) -> (r: Option<&Vec<JsonValue>>)
        ensures
            match r {
                Some(items) => self.model() == Json::Array(models(items@)),
                None => !(self.model() is Array),
            },
    {
        match self {
            JsonValue::Array(items) => Some(items),
            _ => None,
        }
    }

    /// Whether this is `null`.
    pub fn is_null(&self) -> (r: bool)
        ensures
            r == (self.model() is Null),
    {
        match self {
            JsonValue::Null => true,
            _ => false,
        }
    }

    /// The text when this is a string.
    pub fn as_str(&self) -> (r: Option<&str>)
        ensures
            match r {
                Some(s) => self.model() == Json::Str(s@),
                None => !(self.model() is Str),
            },
    {
        match self {
            JsonValue::Str(s) => Some(s.as_str()),
            _ => None,
        }
    }

    /// A JSON string holding `s`.
    pub fn string(s: &str) -> (r: JsonValue)
        ensures
            r.model() == Json::Str(s@),
    {
        JsonValue::Str(owned(s))
    }

    /// A JSON array of strings.
    pub fn strings(items: &Vec<String>) -> (r: JsonValue)
        ensures
            r.model() == Json::Array(string_models(items@)),
    {
        let mut out: Vec<JsonValue> = Vec::new();
        let mut i: usize = 0;
        while i < items.len()
            invariant
                i <= items@.len(),
                models(out@) == string_models(items@.take(i as int)),
            decreases items@.len() - i,
        {
            let v = JsonValue::Str(items[i].clone());
            assert(out@.push(v).subrange(0, out@.len() as int) =~= out@);
            assert(models(out@.push(v)) == models(out@).push(v.model()));
            assert(items@.take(i + 1).drop_last() =~= items@.take(i as int));
            assert(items@.take(i + 1).last() == items@[i as int]);
            out.push(v);
            i = i + 1;
        }
        assert(items@.take(items@.len() as int) =~= items@);
        JsonValue::Array(out)
    }
}

/// JSON strings for each string.
pub open spec fn string_models(items: Seq<String>) -> Seq<Json>
    decreases items.len(),
{
    if items.len() == 0 {
        Seq::empty()
    } else {
        string_models(items.drop_last()).push(Json::Str(items.last()@))
    }
}

/// An object holding only `keys` (present and non-null) of `value`; every
/// other field is dropped. Used to summarize gateway list rows.
pub fn pick(value: &JsonValue, keys: &[&str]) -> (r: JsonValue)
    ensures
        r.model() == pick_spec(value.model(), str_views(keys@)),
{
    let mut out: Vec<(String, JsonValue)> = Vec::new();
    let ghost ks = str_views(keys@);
    let mut i: usize = 0;
    assert(ks.take(0) =~= Seq::<Seq<char>>::empty());
    while i < keys.len()
        invariant
            ks == str_views(keys@),
            i <= keys@.len(),
            entry_models(out@) == pick_entries(value.model(), ks.take(i as int)),
        decreases keys@.len() - i,
    {
        let key = keys[i];
        assert(ks.take(i + 1).drop_last() =~= ks.take(i as int));
        assert(ks.take(i + 1).last() == key@);
        match value.get(key) {
            Some(v) => {
                if !v.is_null() {
                    let c = v.deep_clone();
                    let k = owned(key);
                    assert(out@.push((k, c)).subrange(0, out@.len() as int) =~= out@);
                    out.push((k, c));
                }
            },
            None => {},
        }
        i = i + 1;
    }
    assert(ks.take(keys@.len() as int) =~= ks);
    JsonValue::Object(out)
}

/// Summarize a gateway list answer `{data, pagination}`: each `data` row is
/// reduced to `keys`, the rows are returned under `out_key`, and
/// pagination is carried over when present and not null.
pub fn summarize_list(answer: &JsonValue, out_key: &str, keys: &[&str]) -> (r: JsonValue)
    ensures
        r.model() == summarize_spec(answer.model(), out_key@, str_views(keys@)),
{
    let mut rows: Vec<JsonValue> = Vec::new();
    let ghost ks = str_views(keys@);
    match answer.get("data") {
        Some(data) => match data.as_array() {
            Some(items) => {
                let mut i: usize = 0;
                proof {
                    lemma_models(items@);
                }
                while i < items.len()
                    invariant
                        ks == str_views(keys@),
                        i <= items@.len(),
                        models(items@).len() == items@.len(),
                        forall|j: int| 0 <= j < items@.len() ==> #[trigger] models(items@)[j] == items@[j].model(),
                        models(rows@) == pick_rows(models(items@), ks).take(i as int),
                    decreases items@.len() - i,
                {
                    let row = pick(&items[i], keys);
                    assert(rows@.push(row).subrange(0, rows@.len() as int) =~= rows@);
                    assert(pick_rows(models(items@), ks).take(i + 1) =~= pick_rows(
                        models(items@),
                        ks,
                    ).take(i as int).push(row.model()));
                    rows.push(row);
                    i = i + 1;
                }
                assert(pick_rows(models(items@), ks).take(items@.len() as int) =~= pick_rows(
                    models(items@),
                    ks,
                ));
            },
            None => {},
        },
        None => {},
    }
    let mut out: Vec<(String, JsonValue)> = Vec::new();
    out.push((owned(out_key), JsonValue::Array(rows)));
    proof {
        lemma_entry_models(out@);
        assert(entry_models(out@) =~= seq![(out_key@, Json::Array(summarized_rows(answer.model(), ks)))]);
    }
    match answer.get("pagination") {
        Some(p) => {
            if !p.is_null() {
                let c = p.deep_clone();
                let ghost before = out@;
                out.push((owned("pagination"), c));
                assert(out@.subrange(0, out@.len() - 1) =~= before);
            }
        },
        None => {},
    }
    JsonValue::Object(out)
}
/// A summarized row holds only requested keys, each with the row's own
/// value, never `null`.
pub proof fn law_pick_keeps_only_requested_non_null_values(obj: Json, keys: Seq<Seq<char>>)
    ensures
        forall|i: int| 0 <= i < pick_entries(obj, keys).len() ==> {
            let e = #[trigger] pick_entries(obj, keys)[i];
            &&& keys.contains(e.0)
            &&& obj.get(e.0) == Some(e.1)
            &&& !(e.1 is Null)
        },
    decreases keys.len(),
{
    if keys.len() > 0 {
        law_pick_keeps_only_requested_non_null_values(obj, keys.drop_last());
        let prev = pick_entries(obj, keys.drop_last());
        assert forall|i: int| 0 <= i < pick_entries(obj, keys).len() implies {
            let e = #[trigger] pick_entries(obj, keys)[i];
            &&& keys.contains(e.0)
            &&& obj.get(e.0) == Some(e.1)
            &&& !(e.1 is Null)
        } by {
            if i < prev.len() {
                let e = prev[i];
                assert(pick_entries(obj, keys)[i] == e);
                let j = choose|j: int| 0 <= j < keys.drop_last().len() && keys.drop_last()[j] == e.0;
                assert(keys[j] == e.0);
            } else {
                assert(keys[keys.len() - 1] == keys.last());
            }
        }
    }
}

/// Every requested key the row holds with a non-null value is kept.
pub proof fn law_pick_keeps_every_present_requested_key(obj: Json, keys: Seq<Seq<char>>, k: Seq<char>)
    requires
        keys.contains(k),
        obj.get(k) matches Some(v) && !(v is Null),
    ensures
        exists|i: int| 0 <= i < pick_entries(obj, keys).len() && #[trigger] pick_entries(obj, keys)[i] == (k, obj.get(k)->0),
    decreases keys.len(),
{
    let prev = pick_entries(obj, keys.drop_last());
    if keys.last() == k {
        let i = pick_entries(obj, keys).len() - 1;
        assert(pick_entries(obj, keys)[i] == (k, obj.get(k)->0));
    } else {
        let j = choose|j: int| 0 <= j < keys.len() && keys[j] == k;
        assert(keys.drop_last()[j] == k);
        law_pick_keeps_every_present_requested_key(obj, keys.drop_last(), k);
        let i = choose|i: int| 0 <= i < prev.len() && #[trigger] prev[i] == (k, obj.get(k)->0);
        assert(pick_entries(obj, keys)[i] == prev[i]);
    }
}

/// The field `key` of `obj` when `keys` lists it and it is present and
/// not null.
pub open spec fn kept_field(obj: Json, keys: Seq<Seq<char>>, key: Seq<char>) -> Option<Json> {
    if keys.contains(key) {
        match obj.get(key) {
            Some(v) => if v is Null {
                None
            } else {
                Some(v)
            },
            None => None,
        }
    } else {
        None
    }
}

/// A picked row answers for a key exactly what the original row does when
/// the key is listed and its value is present and not null, and answers
/// nothing for any other key.
pub proof fn law_pick_keeps_listed_fields(obj: Json, keys: Seq<Seq<char>>)
    ensures
        forall|key: Seq<char>| #[trigger] pick_spec(obj, keys).get(key) == kept_field(obj, keys, key),
    decreases keys.len(),
{
    if keys.len() > 0 {
        law_pick_keeps_listed_fields(obj, keys.drop_last());
        let prev = pick_entries(obj, keys.drop_last());
        let last = keys.last();
        assert forall|key: Seq<char>| #[trigger] pick_spec(obj, keys).get(key) == kept_field(obj, keys, key) by {
            assert(pick_spec(obj, keys.drop_last()).get(key) == kept_field(obj, keys.drop_last(), key));
            assert(keys.contains(key) <==> (keys.drop_last().contains(key) || last == key)) by {
                if keys.contains(key) {
                    let j = choose|j: int| 0 <= j < keys.len() && keys[j] == key;
                    if j < keys.len() - 1 {
                        assert(keys.drop_last()[j] == key);
                    }
                }
                if keys.drop_last().contains(key) {
                    let j = choose|j: int| 0 <= j < keys.len() - 1 && keys.drop_last()[j] == key;
                    assert(keys[j] == key);
                }
                if last == key {
                    assert(keys[keys.len() - 1] == key);
                }
            }
            match obj.get(last) {
                Some(v) => if !(v is Null) {
                    let pushed = prev.push((last, v));
                    assert(pushed.last() == (last, v));
                    assert(pushed.drop_last() =~= prev);
                },
                None => {},
            }
        }
    }
}

/// A summarized list answer holds, under `out_key`, one row per row of the
/// answer's `data` array, in order, each keeping only the listed fields
/// (none when `data` is missing or not an array), and carries the
/// answer's pagination when it is present and not null.
pub proof fn law_summarized_list(answer: Json, out_key: Seq<char>, keys: Seq<Seq<char>>)
    requires
        out_key != "pagination"@,
    ensures
        summarize_spec(answer, out_key, keys).get(out_key) matches Some(Json::Array(out)) && (match answer.get(
            "data"@,
        ) {
            Some(Json::Array(rows)) => out.len() == rows.len() && forall|i: int, key: Seq<char>|
                0 <= i < rows.len() ==> #[trigger] out[i].get(key) == kept_field(rows[i], keys, key),
            _ => out.len() == 0,
        }),
        summarize_spec(answer, out_key, keys).get("pagination"@) == (match answer.get("pagination"@) {
            Some(p) => if p is Null {
                None
            } else {
                Some(p)
            },
            None => None,
        }),
{
    reveal_with_fuel(lookup, 3);
    match answer.get("data"@) {
        Some(Json::Array(rows)) => {
            assert forall|i: int, key: Seq<char>| 0 <= i < rows.len() implies #[trigger] pick_rows(rows, keys)[i].get(key)
                == kept_field(rows[i], keys, key) by {
                law_pick_keeps_listed_fields(rows[i], keys);
            }
        },
        _ => {},
    }
}

} // verus!
