//! Building JSON objects field by field, and the JSON forms of optional
//! values.

use vstd::prelude::*;
use crate::json::{entry_models, key_count, lemma_entries_algebra, lookup, string_models, Json, JsonValue};
use crate::text::{i64_to_decimal, owned, signed_decimal};

verus! {

/// The model of an optional value.
pub open spec fn opt_model(o: Option<JsonValue>) -> Option<Json> {
    match o {
        Some(v) => Some(v.model()),
        None => None,
    }
}

/// A body field when the value is present, nothing otherwise.
pub open spec fn opt_field(key: Seq<char>, value: Option<Json>) -> Seq<(Seq<char>, Json)> {
    match value {
        Some(v) => seq![(key, v)],
        None => Seq::empty(),
    }
}

/// An optional field answers for its key exactly when it is present.
pub proof fn lemma_opt_field_algebra()
    ensures
        forall|k: Seq<char>, v: Option<Json>, key: Seq<char>|
            #[trigger] lookup(opt_field(k, v), key) == (if k == key {
                v
            } else {
                None
            }),
        forall|k: Seq<char>, v: Option<Json>, key: Seq<char>|
            #[trigger] key_count(opt_field(k, v), key) == (if k == key && v is Some {
                1nat
            } else {
                0nat
            }),
{
    lemma_entries_algebra();
}

/// Builder for gateway JSON request bodies. Tool arguments are snake_case;
/// gateway bodies are camelCase: every `set*` call names the gateway key
/// explicitly, and unset optionals are omitted entirely so the gateway's
/// "absent means unchanged" semantics hold. A later `set` of the same key
/// overrides an earlier one.
#[derive(Debug)]
pub struct Body {
    fields: Vec<(String, JsonValue)>,
}

impl View for Body {
    type V = Seq<(Seq<char>, Json)>;

    closed spec fn view(&self) -> Seq<(Seq<char>, Json)> {
        entry_models(self.fields@)
    }
}

impl Body {
    /// An empty body.
    pub fn new() -> (b: Body)
        ensures
            b@ == Seq::<(Seq<char>, Json)>::empty(),
    {
        Body { fields: Vec::new() }
    }

    /// Set `key` to `value`.
    pub fn set(self, key: &str, value: JsonValue) -> (b: Body)
        ensures
            b@ == self@ + seq![(key@, value.model())],
    {
        let mut fields = self.fields;
        let ghost before = fields@;
        fields.push((owned(key), value));
        assert(fields@.subrange(0, fields@.len() - 1) =~= before);
        assert(entry_models(fields@) =~= entry_models(before) + seq![(key@, value.model())]);
        Body { fields }
    }

    /// Set `key` to `value` when it is present; otherwise leave the body
    /// unchanged.
    pub fn set_opt(self, key: &str, value: Option<JsonValue>) -> (b: Body)
        ensures
            b@ == self@ + opt_field(key@, opt_model(value)),
    {
        match value {
            Some(value) => {
                let b = self.set(key, value);
                assert(b@ =~= self@ + opt_field(key@, opt_model(Some(value))));
                b
            },
            None => {
                assert(self@ =~= self@ + opt_field(key@, opt_model(value)));
                self
            },
        }
    }

    /// The body as a JSON object.
    pub fn into_value(self) -> (v: JsonValue)
        ensures
            v.model() == Json::Object(self@),
    {
        JsonValue::Object(self.fields)
    }
}

/// An optional string as an optional JSON string.
pub fn opt_string(o: Option<String>) -> (r: Option<JsonValue>)
    ensures
        opt_model(r) == opt_str_json(o),
{
    match o {
        Some(s) => Some(JsonValue::Str(s)),
        None => None,
    }
}

/// The JSON model of an optional string.
pub open spec fn opt_str_json(o: Option<String>) -> Option<Json> {
    match o {
        Some(s) => Some(Json::Str(s@)),
        None => None,
    }
}

/// An optional list of strings as an optional JSON array.
pub fn opt_strings(o: Option<Vec<String>>) -> (r: Option<JsonValue>)
    ensures
        opt_model(r) == opt_strings_json(o),
{
    match o {
        Some(items) => Some(JsonValue::strings(&items)),
        None => None,
    }
}

/// The JSON model of an optional list of strings.
pub open spec fn opt_strings_json(o: Option<Vec<String>>) -> Option<Json> {
    match o {
        Some(items) => Some(Json::Array(string_models(items@))),
        None => None,
    }
}

/// An optional boolean as an optional JSON boolean.
pub fn opt_bool(o: Option<bool>) -> (r: Option<JsonValue>)
    ensures
        opt_model(r) == opt_bool_json(o),
{
    match o {
        Some(b) => Some(JsonValue::Bool(b)),
        None => None,
    }
}

/// The JSON model of an optional boolean.
pub open spec fn opt_bool_json(o: Option<bool>) -> Option<Json> {
    match o {
        Some(b) => Some(Json::Bool(b)),
        None => None,
    }
}

/// An optional integer as an optional JSON number.
pub fn opt_i64(o: Option<i64>) -> (r: Option<JsonValue>)
    ensures
        opt_model(r) == opt_i64_json(o),
{
    match o {
        Some(n) => Some(JsonValue::Number(i64_to_decimal(n))),
        None => None,
    }
}

/// The JSON model of an optional integer.
pub open spec fn opt_i64_json(o: Option<i64>) -> Option<Json> {
    match o {
        Some(n) => Some(Json::Number(signed_decimal(n as int))),
        None => None,
    }
}

/// An optional 32-bit integer as an optional JSON number.
pub fn opt_i32(o: Option<i32>) -> (r: Option<JsonValue>)
    ensures
        opt_model(r) == opt_i32_json(o),
{
    match o {
        Some(n) => Some(JsonValue::Number(i64_to_decimal(n as i64))),
        None => None,
    }
}

/// The JSON model of an optional 32-bit integer.
pub open spec fn opt_i32_json(o: Option<i32>) -> Option<Json> {
    match o {
        Some(n) => Some(Json::Number(signed_decimal(n as int))),
        None => None,
    }
}

/// The JSON object of a string-to-string map, entries in the given order.
pub open spec fn string_map_json(entries: Seq<(String, String)>) -> Json {
    Json::Object(
        Seq::new(entries.len(), |i: int| (entries[i].0@, Json::Str(entries[i].1@))),
    )
}

/// A string-to-string map as a JSON object.
pub fn string_map(entries: &Vec<(String, String)>) -> (r: JsonValue)
    ensures
        r.model() == string_map_json(entries@),
{
    let mut out: Vec<(String, JsonValue)> = Vec::new();
    let mut i: usize = 0;
    while i < entries.len()
        invariant
            i <= entries@.len(),
            entry_models(out@) =~= Seq::new(
                i as nat,
                |j: int| (entries@[j].0@, Json::Str(entries@[j].1@)),
            ),
        decreases entries@.len() - i,
    {
        let k = entries[i].0.clone();
        let v = JsonValue::Str(entries[i].1.clone());
        assert(v.model() == Json::Str(entries@[i as int].1@));
        let ghost before = out@;
        out.push((k, v));
        assert(out@[out@.len() - 1] == (k, v));
        assert(out@.subrange(0, out@.len() - 1) =~= before);
        assert(entry_models(out@) == entry_models(before).push((entries@[i as int].0@, Json::Str(entries@[i as int].1@))));
        i = i + 1;
    }
    JsonValue::Object(out)
}

/// An optional string map as an optional JSON object.
pub fn opt_string_map(o: Option<Vec<(String, String)>>) -> (r: Option<JsonValue>)
    ensures
        opt_model(r) == opt_string_map_json(o),
{
    match o {
        Some(m) => Some(string_map(&m)),
        None => None,
    }
}

/// The JSON model of an optional string map.
pub open spec fn opt_string_map_json(o: Option<Vec<(String, String)>>) -> Option<Json> {
    match o {
        Some(m) => Some(string_map_json(m@)),
        None => None,
    }
}

/// Setting a field makes its value the body's value for that key, whatever
/// was set under the key before.
pub proof fn law_set_overrides(fields: Seq<(Seq<char>, Json)>, key: Seq<char>, value: Json)
    ensures
        Json::Object(fields + seq![(key, value)]).get(key) == Some(value),
{
    assert((fields + seq![(key, value)]).last() == (key, value));
}

/// Setting a field leaves every other key as it was.
pub proof fn law_set_keeps_other_keys(fields: Seq<(Seq<char>, Json)>, key: Seq<char>, value: Json, other: Seq<char>)
    requires
        other != key,
    ensures
        Json::Object(fields + seq![(key, value)]).get(other) == Json::Object(fields).get(other),
{
    assert((fields + seq![(key, value)]).drop_last() =~= fields);
}

/// An absent optional is omitted: the body stays as it was.
pub proof fn law_absent_optionals_are_omitted(fields: Seq<(Seq<char>, Json)>, key: Seq<char>)
    ensures
        fields + opt_field(key, None) == fields,
{
    assert(fields + opt_field(key, None) =~= fields);
}

} // verus!
