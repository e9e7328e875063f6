//! JSON values as the library sees them.
//!
//! `serde_json::Value`, its object type and `indexmap::IndexMap` are opaque to
//! the verifier. What they hold is named by [`json`], [`fields`] and
//! [`env_entries`], and each operation that the library needs on them is one
//! small function here whose contract speaks of those names.

use indexmap::IndexMap;
use serde::de::{Error, Unexpected};
use serde_json::Value;
use vstd::prelude::*;

verus! {

#[verifier::external_type_specification]
#[verifier::external_body]
pub struct ExValue(serde_json::Value);

#[verifier::external_type_specification]
#[verifier::external_body]
#[verifier::reject_recursive_types(K)]
#[verifier::reject_recursive_types(V)]
pub struct ExObject<K, V>(serde_json::Map<K, V>);

#[verifier::external_type_specification]
#[verifier::external_body]
#[verifier::reject_recursive_types(K)]
#[verifier::reject_recursive_types(V)]
#[verifier::reject_recursive_types(S)]
pub struct ExIndexMap<K, V, S>(indexmap::IndexMap<K, V, S>);

/// A JSON number: an unsigned integer, a negative integer, or the bits of a
/// double.
pub enum JsonNumber {
    Unsigned(u64),
    Negative(i64),
    Double(u64),
}

/// The mathematical content of a JSON value.
pub enum Json {
    Null,
    Bool(bool),
    Number(JsonNumber),
    Text(Seq<char>),
    List(Seq<Json>),
    Object(Map<Seq<char>, Json>),
}

/// The Rust types that values are read as.
pub enum Wanted {
    Bool,
    U16,
    U32,
    Usize,
    I32,
    Text,
    Texts,
    Env,
}

/// An environment as a mapping: each name is set to a text or unset.
pub type EnvMap = Map<Seq<char>, Option<Seq<char>>>;

/// What a `serde_json::Value` holds.
pub uninterp spec fn json(value: Value) -> Json;

/// What a `serde_json::Map` holds.
pub uninterp spec fn fields(object: serde_json::Map<String, Value>) -> Map<Seq<char>, Json>;

/// What an `IndexMap` of environment changes holds, in its order.
pub uninterp spec fn env_entries(env: IndexMap<String, Option<String>>) -> Seq<
    (Seq<char>, Option<Seq<char>>),
>;

/// The message with which `serde_json::from_value` refuses a value.
pub uninterp spec fn refusal(wanted: Wanted, value: Json) -> Seq<char>;

/// The message of `invalid_type` on `serde_json`'s error type.
pub uninterp spec fn shape_refusal(value: Json, expected: Seq<char>) -> Seq<char>;

/// The compact text of a value, as `serde_json::to_string` writes it.
pub uninterp spec fn json_text(value: Json) -> Seq<char>;

/// The contents of a list of values.
pub open spec fn jsons(values: Seq<Value>) -> Seq<Json> {
    Seq::new(values.len(), |i: int| json(values[i]))
}

/// The fields of an empty object.
pub open spec fn no_fields() -> Map<Seq<char>, Json> {
    Map::empty()
}

/// The JSON number of an unsigned integer.
pub open spec fn unsigned(n: u64) -> Json {
    Json::Number(JsonNumber::Unsigned(n))
}

/// The JSON number of an integer that may be negative.
pub open spec fn signed(n: i32) -> Json {
    if n < 0 {
        Json::Number(JsonNumber::Negative(n as i64))
    } else {
        unsigned(n as u64)
    }
}

/// The value as an unsigned integer of at most `max`, if it is one.
pub open spec fn as_unsigned(value: Json, max: int) -> Option<int> {
    match value {
        Json::Number(JsonNumber::Unsigned(n)) => if n <= max {
            Some(n as int)
        } else {
            None
        },
        _ => None,
    }
}

/// The value as an integer that fits 32 bits with a sign, if it is one.
pub open spec fn as_i32(value: Json) -> Option<int> {
    match value {
        Json::Number(JsonNumber::Unsigned(n)) => if n <= i32::MAX {
            Some(n as int)
        } else {
            None
        },
        Json::Number(JsonNumber::Negative(n)) => if n >= i32::MIN {
            Some(n as int)
        } else {
            None
        },
        _ => None,
    }
}

/// Whether the value is a list of texts.
pub open spec fn is_texts(value: Json) -> bool {
    value matches Json::List(items) && forall|i: int|
        0 <= i < items.len() ==> (#[trigger] items[i]) is Text
}

/// The texts of a list of texts.
pub open spec fn texts_of(value: Json) -> Seq<Seq<char>> {
    Seq::new(value->List_0.len(), |i: int| value->List_0[i]->Text_0)
}

/// Whether the value is an object whose fields are all text or null.
pub open spec fn is_env(value: Json) -> bool {
    value matches Json::Object(fields) && forall|key: Seq<char>|
        fields.contains_key(key) ==> {
            ||| (#[trigger] fields[key]) is Text
            ||| fields[key] is Null
        }
}

/// A text, or nothing for null.
pub open spec fn maybe_text_of(value: Json) -> Option<Seq<char>> {
    match value {
        Json::Text(text) => Some(text),
        _ => None,
    }
}

/// The environment that an object of texts and nulls stands for.
pub open spec fn env_of(value: Json) -> EnvMap {
    value->Object_0.map_values(|field: Json| maybe_text_of(field))
}

/// The keys of the entries, in their order.
pub open spec fn keys(entries: Seq<(Seq<char>, Option<Seq<char>>)>) -> Seq<Seq<char>> {
    Seq::new(entries.len(), |i: int| entries[i].0)
}

/// The entries after `key` was set to `setting`: an entry that is there keeps
/// its place, a new one goes last.
pub open spec fn put_entry(
    entries: Seq<(Seq<char>, Option<Seq<char>>)>,
    key: Seq<char>,
    setting: Option<Seq<char>>,
) -> Seq<(Seq<char>, Option<Seq<char>>)> {
    if keys(entries).contains(key) {
        entries.update(keys(entries).index_of(key), (key, setting))
    } else {
        entries.push((key, setting))
    }
}

/// The mapping that the entries make; a later entry wins over an earlier one.
pub open spec fn entries_map(entries: Seq<(Seq<char>, Option<Seq<char>>)>) -> EnvMap
    decreases entries.len(),
{
    if entries.len() == 0 {
        Map::empty()
    } else {
        entries_map(entries.drop_last()).insert(entries.last().0, entries.last().1)
    }
}

/// Whether `left` comes before `right` in the order of characters.
pub open spec fn text_before(left: Seq<char>, right: Seq<char>) -> bool {
    exists|k: int|
        #![trigger left.take(k)]
        {
            &&& 0 <= k <= left.len()
            &&& k < right.len()
            &&& left.take(k) == right.take(k)
            &&& k < left.len() ==> (left[k] as u32) < (right[k] as u32)
        }
}

/// Whether the keys of the entries rise strictly.
pub open spec fn ascending(entries: Seq<(Seq<char>, Option<Seq<char>>)>) -> bool {
    forall|i: int, j: int|
        0 <= i < j < entries.len() ==> text_before(
            (#[trigger] entries[i]).0,
            (#[trigger] entries[j]).0,
        )
}

/// `Value::Null`: the null value.
#[verifier::external_body]
pub(crate) fn null_value() -> (value: Value)
    ensures
        json(value) == Json::Null,
{
    Value::Null
}

/// `Value::from` on a `bool`: the JSON boolean.
#[verifier::external_body]
pub(crate) fn bool_value(b: bool) -> (value: Value)
    ensures
        json(value) == Json::Bool(b),
{
    Value::from(b)
}

/// `Value::from` on a `u64`: the unsigned JSON integer.
#[verifier::external_body]
pub(crate) fn unsigned_value(n: u64) -> (value: Value)
    ensures
        json(value) == unsigned(n),
{
    Value::from(n)
}

/// `Value::from` on an `i32`: a negative JSON integer if the number is below
/// zero, else an unsigned one.
#[verifier::external_body]
pub(crate) fn signed_value(n: i32) -> (value: Value)
    ensures
        json(value) == signed(n),
{
    Value::from(n)
}

/// `Value::from` on a `String`: the JSON string.
#[verifier::external_body]
pub(crate) fn text_value(text: String) -> (value: Value)
    ensures
        json(value) == Json::Text(text@),
{
    Value::from(text)
}

/// `Value::Array`: the JSON array of the values, in their order.
#[verifier::external_body]
pub(crate) fn list_value(items: Vec<Value>) -> (value: Value)
    ensures
        json(value) == Json::List(jsons(items@)),
{
    Value::Array(items)
}

/// `Value::Object`: the JSON object with the fields of the map.
#[verifier::external_body]
pub(crate) fn object_value(object: serde_json::Map<String, Value>) -> (value: Value)
    ensures
        json(value) == Json::Object(fields(object)),
{
    Value::Object(object)
}

/// `Value::is_null`: whether the value is null.
#[verifier::external_body]
pub(crate) fn is_null(value: &Value) -> (null: bool)
    ensures
        null == (json(*value) is Null),
{
    value.is_null()
}

/// Tells `Value::Object` from the other variants: the map inside, or the value
/// itself back.
#[verifier::external_body]
pub(crate) fn into_object(value: Value) -> (opened: Result<
    serde_json::Map<String, Value>,
    Value,
>)
    ensures
        match opened {
            Ok(object) => json(value) == Json::Object(fields(object)),
            Err(same) => same == value && !(json(value) is Object),
        },
{
    match value {
        Value::Object(object) => Ok(object),
        other => Err(other),
    }
}

/// Tells `Value::Array` from the other variants: the list inside, or the value
/// itself back.
#[verifier::external_body]
pub(crate) fn into_list(value: Value) -> (opened: Result<Vec<Value>, Value>)
    ensures
        match opened {
            Ok(items) => json(value) == Json::List(jsons(items@)),
            Err(same) => same == value && !(json(value) is List),
        },
{
    match value {
        Value::Array(items) => Ok(items),
        other => Err(other),
    }
}

/// `serde_json::Map::new`: an object without fields.
#[verifier::external_body]
pub(crate) fn new_object() -> (object: serde_json::Map<String, Value>)
    ensures
        fields(object) == no_fields(),
{
    serde_json::Map::new()
}

/// `serde_json::Map::insert`: sets the field, whether or not it was there.
#[verifier::external_body]
pub(crate) fn put(object: &mut serde_json::Map<String, Value>, key: &str, value: Value)
    ensures
        fields(*final(object)) == fields(*old(object)).insert(key@, json(value)),
{
    object.insert(key.to_string(), value);
}

/// `serde_json::Map::get`: a copy of the field's value, if the field is there.
#[verifier::external_body]
pub(crate) fn get(object: &serde_json::Map<String, Value>, key: &str) -> (found: Option<Value>)
    ensures
        match found {
            Some(value) => {
                &&& fields(*object).contains_key(key@)
                &&& json(value) == fields(*object)[key@]
            },
            None => !fields(*object).contains_key(key@),
        },
{
    object.get(key).cloned()
}

/// `serde_json::Map::is_empty`: whether there is no field.
#[verifier::external_body]
pub(crate) fn has_no_fields(object: &serde_json::Map<String, Value>) -> (empty: bool)
    ensures
        empty == (fields(*object) == no_fields()),
{
    object.is_empty()
}

/// `serde_json::from_value` into a `bool`: takes a JSON boolean.
#[verifier::external_body]
pub(crate) fn read_bool(value: Value) -> (read: Result<bool, String>)
    ensures
        match read {
            Ok(b) => json(value) == Json::Bool(b),
            Err(message) => {
                &&& !(json(value) is Bool)
                &&& message@ == refusal(Wanted::Bool, json(value))
            },
        },
{
    serde_json::from_value(value).map_err(|err| err.to_string())
}

/// `serde_json::from_value` into a `u16`: takes an unsigned integer that fits.
#[verifier::external_body]
pub(crate) fn read_u16(value: Value) -> (read: Result<u16, String>)
    ensures
        match read {
            Ok(n) => as_unsigned(json(value), u16::MAX as int) == Some(n as int),
            Err(message) => {
                &&& as_unsigned(json(value), u16::MAX as int) is None
                &&& message@ == refusal(Wanted::U16, json(value))
            },
        },
{
    serde_json::from_value(value).map_err(|err| err.to_string())
}

/// `serde_json::from_value` into a `u32`: takes an unsigned integer that fits.
#[verifier::external_body]
pub(crate) fn read_u32(value: Value) -> (read: Result<u32, String>)
    ensures
        match read {
            Ok(n) => as_unsigned(json(value), u32::MAX as int) == Some(n as int),
            Err(message) => {
                &&& as_unsigned(json(value), u32::MAX as int) is None
                &&& message@ == refusal(Wanted::U32, json(value))
            },
        },
{
    serde_json::from_value(value).map_err(|err| err.to_string())
}

/// `serde_json::from_value` into a `usize`: takes an unsigned integer that
/// fits.
#[verifier::external_body]
pub(crate) fn read_usize(value: Value) -> (read: Result<usize, String>)
    ensures
        match read {
            Ok(n) => as_unsigned(json(value), usize::MAX as int) == Some(n as int),
            Err(message) => {
                &&& as_unsigned(json(value), usize::MAX as int) is None
                &&& message@ == refusal(Wanted::Usize, json(value))
            },
        },
{
    serde_json::from_value(value).map_err(|err| err.to_string())
}

/// `serde_json::from_value` into an `i32`: takes an integer that fits.
#[verifier::external_body]
pub(crate) fn read_i32(value: Value) -> (read: Result<i32, String>)
    ensures
        match read {
            Ok(n) => as_i32(json(value)) == Some(n as int),
            Err(message) => {
                &&& as_i32(json(value)) is None
                &&& message@ == refusal(Wanted::I32, json(value))
            },
        },
{
    serde_json::from_value(value).map_err(|err| err.to_string())
}

/// `serde_json::from_value` into a `String`: takes a JSON string.
#[verifier::external_body]
pub(crate) fn read_text(value: Value) -> (read: Result<String, String>)
    ensures
        match read {
            Ok(text) => json(value) == Json::Text(text@),
            Err(message) => {
                &&& !(json(value) is Text)
                &&& message@ == refusal(Wanted::Text, json(value))
            },
        },
{
    serde_json::from_value(value).map_err(|err| err.to_string())
}

/// `serde_json::from_value` into a `Vec<String>`: takes a JSON array of
/// strings and keeps their order.
#[verifier::external_body]
pub(crate) fn read_texts(value: Value) -> (read: Result<Vec<String>, String>)
    ensures
        match read {
            Ok(texts) => is_texts(json(value)) && texts.deep_view() == texts_of(json(value)),
            Err(message) => {
                &&& !is_texts(json(value))
                &&& message@ == refusal(Wanted::Texts, json(value))
            },
        },
{
    serde_json::from_value(value).map_err(|err| err.to_string())
}

/// `serde_json::from_value` into an `IndexMap<String, Option<String>>`: takes
/// a JSON object whose fields are strings or null. The object hands its fields
/// out by rising key, as long as `serde_json` is built without its
/// `preserve_order` feature, and the `IndexMap` keeps that order.
#[verifier::external_body]
pub(crate) fn read_env(value: Value) -> (read: Result<IndexMap<String, Option<String>>, String>)
    ensures
        match read {
            Ok(env) => {
                &&& is_env(json(value))
                &&& entries_map(env_entries(env)) == env_of(json(value))
                &&& ascending(env_entries(env))
            },
            Err(message) => {
                &&& !is_env(json(value))
                &&& message@ == refusal(Wanted::Env, json(value))
            },
        },
{
    serde_json::from_value(value).map_err(|err| err.to_string())
}

/// `serde::de::Error::invalid_type` on `serde_json::Error`: the message says
/// what the value is and what was expected in its place. Its wording is left
/// to the name [`shape_refusal`].
#[verifier::external_body]
pub(crate) fn refuse_shape(value: &Value, expected: &str) -> (message: String)
    ensures
        message@ == shape_refusal(json(*value), expected@),
{
    let unexpected = match value {
        Value::Null => Unexpected::Unit,
        Value::Bool(b) => Unexpected::Bool(*b),
        Value::Number(n) => match (n.as_u64(), n.as_i64(), n.as_f64()) {
            (Some(u), _, _) => Unexpected::Unsigned(u),
            (_, Some(i), _) => Unexpected::Signed(i),
            (_, _, x) => Unexpected::Float(x.unwrap_or_default()),
        },
        Value::String(text) => Unexpected::Str(text),
        Value::Array(_) => Unexpected::Seq,
        Value::Object(_) => Unexpected::Map,
    };
    serde_json::Error::invalid_type(unexpected, &expected).to_string()
}

/// `serde_json::to_string` on a `Value`: its compact text. Every value has
/// one, since the keys of an object are strings and no number is infinite.
#[verifier::external_body]
pub(crate) fn write_text(value: &Value) -> (written: Result<String, String>)
    ensures
        match written {
            Ok(text) => text@ == json_text(json(*value)),
            Err(_) => false,
        },
{
    serde_json::to_string(value).map_err(|err| err.to_string())
}

/// `IndexMap::new`: an environment without entries.
#[verifier::external_body]
pub(crate) fn new_env() -> (env: IndexMap<String, Option<String>>)
    ensures
        env_entries(env).len() == 0,
{
    IndexMap::new()
}

/// `IndexMap::insert`: sets the entry; one that is there keeps its place, a new
/// one goes last.
#[verifier::external_body]
pub(crate) fn put_env(
    env: &mut IndexMap<String, Option<String>>,
    key: String,
    setting: Option<String>,
)
    ensures
        env_entries(*final(env)) == put_entry(
            env_entries(*old(env)),
            key@,
            setting.deep_view(),
        ),
{
    env.insert(key, setting);
}

/// `IndexMap::len`: the number of entries.
#[verifier::external_body]
pub(crate) fn env_len(env: &IndexMap<String, Option<String>>) -> (len: usize)
    ensures
        len == env_entries(*env).len(),
{
    env.len()
}

/// `IndexMap::get_index`: the entry at a place, copied out.
#[verifier::external_body]
pub(crate) fn env_entry(env: &IndexMap<String, Option<String>>, index: usize) -> (entry: Option<
    (String, Option<String>),
>)
    ensures
        match entry {
            Some((key, setting)) => {
                &&& index < env_entries(*env).len()
                &&& key@ == env_entries(*env)[index as int].0
                &&& setting.deep_view() == env_entries(*env)[index as int].1
            },
            None => index >= env_entries(*env).len(),
        },
{
    env.get_index(index).map(|(key, setting)| (key.clone(), setting.clone()))
}

/// Setting an entry sets it in the mapping, and nothing else.
pub proof fn lemma_put_entry_map(
    entries: Seq<(Seq<char>, Option<Seq<char>>)>,
    key: Seq<char>,
    setting: Option<Seq<char>>,
)
    requires
        keys(entries).no_duplicates(),
    ensures
        entries_map(put_entry(entries, key, setting)) == entries_map(entries).insert(key, setting),
        keys(put_entry(entries, key, setting)).no_duplicates(),
{
    if keys(entries).contains(key) {
        let at = keys(entries).index_of(key);
        lemma_update_entry_map(entries, at, setting);
        assert(keys(put_entry(entries, key, setting)) =~= keys(entries));
    } else {
        let pushed = entries.push((key, setting));
        assert(pushed.drop_last() =~= entries);
        assert(keys(pushed) =~= keys(entries).push(key));
    }
}

proof fn lemma_update_entry_map(
    entries: Seq<(Seq<char>, Option<Seq<char>>)>,
    at: int,
    setting: Option<Seq<char>>,
)
    requires
        keys(entries).no_duplicates(),
        0 <= at < entries.len(),
    ensures
        entries_map(entries.update(at, (entries[at].0, setting))) == entries_map(entries).insert(
            entries[at].0,
            setting,
        ),
    decreases entries.len(),
{
    let key = entries[at].0;
    let updated = entries.update(at, (key, setting));
    let before = entries.drop_last();
    if at == entries.len() - 1 {
        assert(updated.drop_last() =~= before);
        assert(entries_map(updated) =~= entries_map(entries).insert(key, setting));
    } else {
        assert(keys(before) =~= keys(entries).drop_last());
        lemma_update_entry_map(before, at, setting);
        assert(updated.drop_last() =~= before.update(at, (key, setting)));
        assert(keys(entries)[at] != keys(entries)[entries.len() - 1]);
        assert(entries_map(updated) =~= entries_map(entries).insert(key, setting));
    }
}

} // verus!
