use vstd::prelude::*;
use vstd::string::*;

use crate::errors::{DiscordRPCError, Result};

verus! {

/// `serde_json::Value`, a JSON value of the outside crate. Opaque here; what
/// it holds is named by `value_model`.
#[verifier::external_type_specification]
#[verifier::external_body]
pub struct ExValue(serde_json::Value);

/// `serde_json::Map`, the map behind a JSON object. Opaque here; what it
/// holds is named by `map_model`.
#[verifier::external_type_specification]
#[verifier::external_body]
#[verifier::reject_recursive_types(K)]
#[verifier::reject_recursive_types(V)]
pub struct ExMap<K, V>(serde_json::Map<K, V>);

/// A JSON value whose numbers are integers. An object maps each key to one
/// value; an array lists its items in order.
pub enum JsonModel {
    Null,
    Bool(bool),
    Number(int),
    Str(Seq<char>),
    Array(Seq<JsonModel>),
    Object(Map<Seq<char>, JsonModel>),
}

/// What a `serde_json::Value` holds.
pub uninterp spec fn value_model(v: serde_json::Value) -> JsonModel;

/// What a `serde_json::Map` holds: each key with the value stored under it.
pub uninterp spec fn map_model(m: serde_json::Map<String, serde_json::Value>) -> Map<
    Seq<char>,
    JsonModel,
>;

/// The compact JSON text that `serde_json::to_string` writes for a value.
/// The text is a function of the value alone:
/// without the crate's `preserve_order` feature (not enabled here) an
/// object's keys are written in sorted order, whatever order they were
/// inserted in.
pub uninterp spec fn json_text(v: JsonModel) -> Seq<char>;

/// `serde_json::Value::Null`.
#[verifier::external_body]
fn value_null() -> (v: serde_json::Value)
    ensures
        value_model(v) == JsonModel::Null,
{
    serde_json::Value::Null
}

/// `serde_json::Value::Bool`.
#[verifier::external_body]
fn value_bool(b: bool) -> (v: serde_json::Value)
    ensures
        value_model(v) == JsonModel::Bool(b),
{
    serde_json::Value::Bool(b)
}

/// `serde_json::Value::from(u64)`, a number that holds `n`.
#[verifier::external_body]
fn value_number(n: u64) -> (v: serde_json::Value)
    ensures
        value_model(v) == JsonModel::Number(n as int),
{
    serde_json::Value::from(n)
}

/// `serde_json::Value::from(i64)`, a number that holds `n` (the crate stores
/// a non-negative one as it stores the same `u64`).
#[verifier::external_body]
fn value_int(n: i64) -> (v: serde_json::Value)
    ensures
        value_model(v) == JsonModel::Number(n as int),
{
    serde_json::Value::from(n)
}

/// What each of a list of `serde_json::Value`s holds, in order.
pub open spec fn values_model(items: Seq<serde_json::Value>) -> Seq<JsonModel> {
    items.map_values(|x: serde_json::Value| value_model(x))
}

/// `serde_json::Value::Array`, the array that holds the values of `items`
/// in order.
#[verifier::external_body]
fn value_array(items: Vec<serde_json::Value>) -> (v: serde_json::Value)
    ensures
        value_model(v) == JsonModel::Array(values_model(items@)),
{
    serde_json::Value::Array(items)
}

/// `serde_json::Value::String`, a string value with the characters of `s`.
#[verifier::external_body]
fn value_string(s: String) -> (v: serde_json::Value)
    ensures
        value_model(v) == JsonModel::Str(s@),
{
    serde_json::Value::String(s)
}

/// `serde_json::Map::new`, the empty map.
#[verifier::external_body]
fn map_new() -> (m: serde_json::Map<String, serde_json::Value>)
    ensures
        map_model(m) =~= Map::empty(),
{
    serde_json::Map::new()
}

/// `serde_json::Map::insert`: afterwards `k` maps to `v`, every other key
/// keeps its value (the value it replaces is dropped).
#[verifier::external_body]
fn map_insert(m: &mut serde_json::Map<String, serde_json::Value>, k: String, v: serde_json::Value)
    ensures
        map_model(*final(m)) == map_model(*old(m)).insert(k@, value_model(v)),
{
    m.insert(k, v);
}

/// `serde_json::Value::Object`, the object that holds the map's entries.
#[verifier::external_body]
fn value_object(m: serde_json::Map<String, serde_json::Value>) -> (v: serde_json::Value)
    ensures
        value_model(v) == JsonModel::Object(map_model(m)),
{
    serde_json::Value::Object(m)
}

/// `serde_json::to_string` on a value: the JSON text that `json_text` names.
/// For a `Value` it never fails: its map keys are strings, its numbers are
/// finite, and the writer is a `Vec` in memory.
#[verifier::external_body]
fn value_to_string(v: &serde_json::Value) -> (res: core::result::Result<String, serde_json::Error>)
    ensures
        res is Ok,
        res matches Ok(s) ==> s@ == json_text(value_model(*v)),
{
    serde_json::to_string(v)
}

/// A JSON value that this library builds.
pub enum JsonValue {
    Null,
    Bool(bool),
    Number(u64),
    Int(i64),
    String(String),
    Array(Vec<JsonValue>),
    /// The fields of an object in the order they were inserted; where a key
    /// occurs twice, the later field wins.
    Object(Vec<(String, JsonValue)>),
}

/// The values that a list of items denotes, in order.
pub open spec fn items_model(items: Seq<JsonValue>) -> Seq<JsonModel>
    decreases items,
{
    if items.len() == 0 {
        Seq::empty()
    } else {
        items_model(items.subrange(0, items.len() - 1)).push(items[items.len() - 1].model())
    }
}

/// The map that a list of fields denotes: inserted in order, later ones win.
pub open spec fn fields_model(fields: Seq<(String, JsonValue)>) -> Map<Seq<char>, JsonModel>
    decreases fields,
{
    if fields.len() == 0 {
        Map::empty()
    } else {
        let last = fields[fields.len() - 1];
        fields_model(fields.subrange(0, fields.len() - 1)).insert(last.0@, last.1.model())
    }
}

impl JsonValue {
    /// The abstract JSON value.
    pub open spec fn model(self) -> JsonModel
        decreases self,
    {
        match self {
            JsonValue::Null => JsonModel::Null,
            JsonValue::Bool(b) => JsonModel::Bool(b),
            JsonValue::Number(n) => JsonModel::Number(n as int),
            JsonValue::Int(n) => JsonModel::Number(n as int),
            JsonValue::String(s) => JsonModel::Str(s@),
            JsonValue::Array(items) => JsonModel::Array(items_model(items@)),
            JsonValue::Object(fields) => JsonModel::Object(fields_model(fields@)),
        }
    }
}

impl JsonValue {
    /// An object without fields.
    pub fn object() -> (v: JsonValue)
        ensures
            v is Object,
            v.model() == JsonModel::Object(Map::empty()),
    {
        let v = JsonValue::Object(Vec::new());
        assert(fields_model(Seq::<(String, JsonValue)>::empty()) =~= Map::empty());
        v
    }

    /// A string value with the characters of `s`.
    pub fn string(s: &str) -> (v: JsonValue)
        ensures
            v.model() == JsonModel::Str(s@),
    {
        JsonValue::String(String::from_str(s))
    }

    /// Stores `value` under `key` in this object; every other key keeps its
    /// value. Only objects have fields: the value must be one.
    pub fn insert(&mut self, key: String, value: JsonValue)
        requires
            *old(self) is Object,
        ensures
            *final(self) is Object,
            final(self).model() == JsonModel::Object(
                old(self).model()->Object_0.insert(key@, value.model()),
            ),
    {
        match self {
            JsonValue::Object(fields) => {
                let ghost before = fields@;
                fields.push((key, value));
                assert(fields@.subrange(0, fields@.len() - 1) =~= before);
            },
            _ => {},
        }
    }

    /// The same value as a `serde_json::Value`.
    fn to_serde(&self) -> (v: serde_json::Value)
        ensures
            value_model(v) == self.model(),
        decreases self,
    {
        match self {
            JsonValue::Null => value_null(),
            JsonValue::Bool(b) => value_bool(*b),
            JsonValue::Number(n) => value_number(*n),
            JsonValue::Int(n) => value_int(*n),
            JsonValue::String(s) => value_string(s.clone()),
            JsonValue::Array(items) => {
                let mut vals: Vec<serde_json::Value> = Vec::new();
                let mut i: usize = 0;
                while i < items.len()
                    invariant
                        i <= items@.len(),
                        *self == JsonValue::Array(*items),
                        values_model(vals@) == items_model(
                            items@.subrange(0, i as int),
                        ),
                    decreases items@.len() - i,
                {
                    proof {
                        assert(decreases_to!(*self => (*self)->Array_0));
                        assert(decreases_to!(*items => items@));
                        assert(decreases_to!(items@ => items@[i as int]));
                    }
                    let v = items[i].to_serde();
                    let ghost before = vals@;
                    vals.push(v);
                    assert(items@.subrange(0, i + 1).subrange(0, i as int) =~= items@.subrange(0, i as int));
                    assert(values_model(vals@) =~= values_model(before).push(value_model(v)));
                    i = i + 1;
                }
                assert(items@.subrange(0, items@.len() as int) =~= items@);
                value_array(vals)
            },
            JsonValue::Object(fields) => {
                let mut m = map_new();
                let mut i: usize = 0;
                while i < fields.len()
                    invariant
                        i <= fields@.len(),
                        *self == JsonValue::Object(*fields),
                        map_model(m) == fields_model(fields@.subrange(0, i as int)),
                    decreases fields@.len() - i,
                {
                    let field = &fields[i];
                    proof {
                        assert(decreases_to!(*self => (*self)->Object_0));
                        assert(decreases_to!(*fields => fields@));
                        assert(decreases_to!(fields@ => fields@[i as int]));
                    }
                    let v = field.1.to_serde();
                    map_insert(&mut m, field.0.clone(), v);
                    assert(fields@.subrange(0, i + 1).subrange(0, i as int) =~= fields@.subrange(0, i as int));
                    i = i + 1;
                }
                assert(fields@.subrange(0, fields@.len() as int) =~= fields@);
                value_object(m)
            },
        }
    }

    /// The compact JSON text of this value, as `serde_json::to_string`
    /// writes it. It never fails.
    pub fn to_json_string(&self) -> (res: Result<String>)
        ensures
            res matches Ok(s) && s@ == json_text(self.model()),
    {
        let v = self.to_serde();
        match value_to_string(&v) {
            Ok(s) => Ok(s),
            Err(e) => Err(DiscordRPCError::SerdeJson(e)),
        }
    }
}

/// An array's model lists, in order, the models of its items: one for each
/// item, none dropped, added or moved.
pub proof fn lemma_items_model(items: Seq<JsonValue>)
    ensures
        items_model(items).len() == items.len(),
        forall|k: int| 0 <= k < items.len() ==> #[trigger] items_model(items)[k] == items[k].model(),
    decreases items.len(),
{
    if items.len() > 0 {
        let rest = items.subrange(0, items.len() - 1);
        lemma_items_model(rest);
        assert forall|k: int| 0 <= k < items.len() implies #[trigger] items_model(items)[k]
            == items[k].model() by {
            if k < items.len() - 1 {
                assert(rest[k] == items[k]);
            }
        }
    }
}

/// The model of an array value is the array of its items' models.
pub proof fn lemma_array_model(items: Vec<JsonValue>)
    ensures
        JsonValue::Array(items).model() is Array,
        JsonValue::Array(items).model()->Array_0.len() == items@.len(),
        forall|k: int|
            0 <= k < items@.len() ==> #[trigger] JsonValue::Array(items).model()->Array_0[k]
                == items@[k].model(),
{
    lemma_items_model(items@);
}

/// An object's model has exactly the keys of its fields, and each key holds
/// the value of the last field with that key.
pub proof fn lemma_fields_model(fields: Seq<(String, JsonValue)>, key: Seq<char>)
    ensures
        fields_model(fields).dom().contains(key) <==> exists|i: int|
            0 <= i < fields.len() && #[trigger] fields[i].0@ == key,
        forall|i: int|
            0 <= i < fields.len() && #[trigger] fields[i].0@ == key && (forall|j: int|
                i < j < fields.len() ==> fields[j].0@ != key) ==> fields_model(fields)[key]
                == fields[i].1.model(),
    decreases fields.len(),
{
    if fields.len() > 0 {
        let n = fields.len() - 1;
        let rest = fields.subrange(0, n);
        lemma_fields_model(rest, key);
        if fields[n].0@ != key {
            assert forall|i: int| 0 <= i < n && #[trigger] rest[i].0@ == key implies fields[i].0@
                == key by {}
            assert forall|i: int| 0 <= i < fields.len() && #[trigger] fields[i].0@ == key implies (
            0 <= i < n && rest[i].0@ == key) by {}
            assert forall|i: int|
                0 <= i < fields.len() && #[trigger] fields[i].0@ == key && (forall|j: int|
                    i < j < fields.len() ==> fields[j].0@ != key) implies fields_model(fields)[key]
                == fields[i].1.model() by {
                assert(rest[i] == fields[i]);
                assert forall|j: int| i < j < rest.len() implies rest[j].0@ != key by {
                    assert(rest[j] == fields[j]);
                }
            }
        } else {
            assert(fields[n].0@ == key);
        }
    }
}

} // verus!
