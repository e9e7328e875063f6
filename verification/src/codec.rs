//! Reading and writing the parts that the protocol's objects are made of.
//!
//! Writing: each `put_..` function adds a field to an object, or leaves an
//! absent or empty one out. Reading: each `get_..` function reads a field of
//! an object. A field that is not there is not an error by itself; one that
//! is there and does not fit is refused with the decoder's message.

use crate::json::{
    as_i32, as_unsigned, ascending, entries_map, env_entries, env_entry, env_len, env_of, fields,
    get, into_object, is_env, is_null, is_texts, json, jsons, list_value, new_object, null_value,
    object_value, put, read_bool, read_env, read_i32, read_text, read_texts, read_u16, read_u32,
    refusal, refuse_shape, shape_refusal, signed, signed_value, text_value, texts_of, EnvMap, Json,
    Wanted,
};
use crate::text::{decimal, write_decimal};
use indexmap::IndexMap;
use serde_json::Value;
use vstd::prelude::*;
use vstd::string::*;

verus! {

/// The fields of a JSON object.
pub type Fields = Map<Seq<char>, Json>;

/// What reading gives: the thing that was read, or the message of a refusal.
pub type Read<T> = Result<T, Seq<char>>;

// ---------------------------------------------------------------------------
// What the parts look like in JSON.
// ---------------------------------------------------------------------------

pub open spec fn texts_json(texts: Seq<Seq<char>>) -> Json {
    Json::List(Seq::new(texts.len(), |i: int| Json::Text(texts[i])))
}

pub open spec fn maybe_text_json(text: Option<Seq<char>>) -> Json {
    match text {
        Some(text) => Json::Text(text),
        None => Json::Null,
    }
}

pub open spec fn env_json(env: EnvMap) -> Json {
    Json::Object(env.map_values(|setting: Option<Seq<char>>| maybe_text_json(setting)))
}

/// The object with one more field, or without it if there is nothing to write.
pub open spec fn with_field(object: Fields, key: Seq<char>, value: Option<Json>) -> Fields {
    match value {
        Some(value) => object.insert(key, value),
        None => object,
    }
}

/// An absent text is not written.
pub open spec fn maybe_field(text: Option<Seq<char>>) -> Option<Json> {
    match text {
        Some(text) => Some(Json::Text(text)),
        None => None,
    }
}

/// An absent number is not written.
pub open spec fn maybe_number_field(number: Option<i32>) -> Option<Json> {
    match number {
        Some(number) => Some(signed(number)),
        None => None,
    }
}

/// An empty list is not written.
pub open spec fn list_field(texts: Seq<Seq<char>>) -> Option<Json> {
    if texts.len() == 0 {
        None
    } else {
        Some(texts_json(texts))
    }
}

/// An absent environment is not written.
pub open spec fn env_field(env: Option<EnvMap>) -> Option<Json> {
    match env {
        Some(env) => Some(env_json(env)),
        None => None,
    }
}

/// The mapping that an optional environment makes.
pub open spec fn maybe_env_view(env: Option<IndexMap<String, Option<String>>>) -> Option<EnvMap> {
    match env {
        Some(env) => Some(entries_map(env_entries(env))),
        None => None,
    }
}

// ---------------------------------------------------------------------------
// How the parts are read.
// ---------------------------------------------------------------------------

/// The message for a field that has to be there and is not.
pub open spec fn missing(key: Seq<char>) -> Seq<char> {
    "missing field `"@ + key + "`"@
}

/// The message for a list of the wrong length.
pub open spec fn bad_length(len: nat, expected: Seq<char>) -> Seq<char> {
    "invalid length "@ + decimal(len) + ", expected "@ + expected
}

pub open spec fn text_read(value: Json) -> Read<Seq<char>> {
    match value {
        Json::Text(text) => Ok(text),
        _ => Err(refusal(Wanted::Text, value)),
    }
}

pub open spec fn maybe_text_read(value: Json) -> Read<Option<Seq<char>>> {
    match value {
        Json::Null => Ok(None),
        Json::Text(text) => Ok(Some(text)),
        _ => Err(refusal(Wanted::Text, value)),
    }
}

pub open spec fn maybe_i32_read(value: Json) -> Read<Option<i32>> {
    match value {
        Json::Null => Ok(None),
        _ => match as_i32(value) {
            Some(n) => Ok(Some(n as i32)),
            None => Err(refusal(Wanted::I32, value)),
        },
    }
}

pub open spec fn texts_read(value: Json) -> Read<Seq<Seq<char>>> {
    if is_texts(value) {
        Ok(texts_of(value))
    } else {
        Err(refusal(Wanted::Texts, value))
    }
}

pub open spec fn maybe_env_read(value: Json) -> Read<Option<EnvMap>> {
    if value is Null {
        Ok(None)
    } else if is_env(value) {
        Ok(Some(env_of(value)))
    } else {
        Err(refusal(Wanted::Env, value))
    }
}

pub open spec fn bool_read(value: Json) -> Read<bool> {
    match value {
        Json::Bool(b) => Ok(b),
        _ => Err(refusal(Wanted::Bool, value)),
    }
}

pub open spec fn u16_read(value: Json) -> Read<u16> {
    match as_unsigned(value, u16::MAX as int) {
        Some(n) => Ok(n as u16),
        None => Err(refusal(Wanted::U16, value)),
    }
}

pub open spec fn u32_read(value: Json) -> Read<u32> {
    match as_unsigned(value, u32::MAX as int) {
        Some(n) => Ok(n as u32),
        None => Err(refusal(Wanted::U32, value)),
    }
}

pub open spec fn usize_read(value: Json) -> Read<usize> {
    match as_unsigned(value, usize::MAX as int) {
        Some(n) => Ok(n as usize),
        None => Err(refusal(Wanted::Usize, value)),
    }
}

/// Reads a field with `read`, if the object has it.
pub open spec fn field_read<T>(
    object: Fields,
    key: Seq<char>,
    read: spec_fn(Json) -> Read<T>,
) -> Read<Option<T>> {
    if object.contains_key(key) {
        match read(object[key]) {
            Ok(value) => Ok(Some(value)),
            Err(message) => Err(message),
        }
    } else {
        Ok(None)
    }
}

pub open spec fn text_field_read(object: Fields, key: Seq<char>) -> Read<Option<Seq<char>>> {
    field_read(object, key, |value: Json| text_read(value))
}

/// An optional text: a field that is not there reads as one that is null.
pub open spec fn maybe_text_field_read(object: Fields, key: Seq<char>) -> Read<
    Option<Seq<char>>,
> {
    if object.contains_key(key) {
        maybe_text_read(object[key])
    } else {
        Ok(None)
    }
}

/// An optional number: a field that is not there reads as one that is null.
pub open spec fn maybe_i32_field_read(object: Fields, key: Seq<char>) -> Read<Option<i32>> {
    if object.contains_key(key) {
        maybe_i32_read(object[key])
    } else {
        Ok(None)
    }
}

/// An optional environment: a field that is not there reads as one that is
/// null.
pub open spec fn maybe_env_field_read(object: Fields, key: Seq<char>) -> Read<Option<EnvMap>> {
    if object.contains_key(key) {
        maybe_env_read(object[key])
    } else {
        Ok(None)
    }
}

pub open spec fn texts_field_read(object: Fields, key: Seq<char>) -> Read<
    Option<Seq<Seq<char>>>,
> {
    field_read(object, key, |value: Json| texts_read(value))
}

pub open spec fn bool_field_read(object: Fields, key: Seq<char>) -> Read<Option<bool>> {
    field_read(object, key, |value: Json| bool_read(value))
}

pub open spec fn u16_field_read(object: Fields, key: Seq<char>) -> Read<Option<u16>> {
    field_read(object, key, |value: Json| u16_read(value))
}

pub open spec fn u32_field_read(object: Fields, key: Seq<char>) -> Read<Option<u32>> {
    field_read(object, key, |value: Json| u32_read(value))
}

/// The fields of an object; nothing else has any.
pub open spec fn object_read(value: Json, expected: Seq<char>) -> Read<Fields> {
    match value {
        Json::Object(object) => Ok(object),
        _ => Err(shape_refusal(value, expected)),
    }
}

// ---------------------------------------------------------------------------
// Writing.
// ---------------------------------------------------------------------------

pub(crate) fn texts_value(texts: &Vec<String>) -> (value: Value)
    ensures
        json(value) == texts_json(texts.deep_view()),
{
    let mut items: Vec<Value> = Vec::new();
    for i in 0..texts.len()
        invariant
            items@.len() == i,
            forall|j: int| 0 <= j < i ==> json(#[trigger] items@[j]) == Json::Text(texts@[j]@),
    {
        items.push(text_value(texts[i].clone()));
    }
    assert(jsons(items@) =~= texts_json(texts.deep_view())->List_0);
    list_value(items)
}

pub(crate) fn env_value(env: &IndexMap<String, Option<String>>) -> (value: Value)
    ensures
        json(value) == env_json(entries_map(env_entries(*env))),
{
    let ghost entries = env_entries(*env);
    let ghost setting_json = |setting: Option<Seq<char>>| maybe_text_json(setting);
    let mut object = new_object();
    assert(entries_map(entries.take(0)).map_values(setting_json) =~= fields(object));
    let len: usize = env_len(env);
    for i in 0..len
        invariant
            len == entries.len(),
            entries == env_entries(*env),
            setting_json == (|setting: Option<Seq<char>>| maybe_text_json(setting)),
            fields(object) == entries_map(entries.take(i as int)).map_values(setting_json),
    {
        if let Some((key, setting)) = env_entry(env, i) {
            let ghost before = entries_map(entries.take(i as int));
            let ghost setting_view = setting.deep_view();
            let value = match setting {
                Some(text) => text_value(text),
                None => null_value(),
            };
            put(&mut object, key.as_str(), value);
            proof {
                assert(entries.take(i + 1).drop_last() =~= entries.take(i as int));
                assert(entries.take(i + 1).last() == entries[i as int]);
                assert(before.insert(key@, setting_view).map_values(setting_json)
                    =~= before.map_values(setting_json).insert(
                    key@,
                    maybe_text_json(setting_view),
                ));
            }
        }
    }
    assert(entries.take(entries.len() as int) =~= entries);
    object_value(object)
}

pub(crate) fn put_text(object: &mut serde_json::Map<String, Value>, key: &str, text: &String)
    ensures
        fields(*final(object)) == fields(*old(object)).insert(key@, Json::Text(text@)),
{
    put(object, key, text_value(text.clone()));
}

pub(crate) fn put_maybe_text(
    object: &mut serde_json::Map<String, Value>,
    key: &str,
    text: &Option<String>,
)
    ensures
        fields(*final(object)) == with_field(
            fields(*old(object)),
            key@,
            maybe_field(text.deep_view()),
        ),
{
    if let Some(text) = text {
        put_text(object, key, text);
    }
}

pub(crate) fn put_maybe_number(
    object: &mut serde_json::Map<String, Value>,
    key: &str,
    number: Option<i32>,
)
    ensures
        fields(*final(object)) == with_field(
            fields(*old(object)),
            key@,
            maybe_number_field(number),
        ),
{
    if let Some(number) = number {
        put(object, key, signed_value(number));
    }
}

pub(crate) fn put_list(
    object: &mut serde_json::Map<String, Value>,
    key: &str,
    texts: &Vec<String>,
)
    ensures
        fields(*final(object)) == with_field(
            fields(*old(object)),
            key@,
            list_field(texts.deep_view()),
        ),
{
    if texts.len() > 0 {
        put(object, key, texts_value(texts));
    }
}

pub(crate) fn put_maybe_env(
    object: &mut serde_json::Map<String, Value>,
    key: &str,
    env: &Option<IndexMap<String, Option<String>>>,
)
    ensures
        fields(*final(object)) == with_field(
            fields(*old(object)),
            key@,
            env_field(maybe_env_view(*env)),
        ),
{
    if let Some(env) = env {
        put(object, key, env_value(env));
    }
}

// ---------------------------------------------------------------------------
// Reading.
// ---------------------------------------------------------------------------

pub(crate) fn missing_message(key: &str) -> (message: String)
    ensures
        message@ == missing(key@),
{
    let mut message = "missing field `".to_owned();
    message.append(key);
    message.append("`");
    message
}

pub(crate) fn length_message(len: usize, expected: &str) -> (message: String)
    ensures
        message@ == bad_length(len as nat, expected@),
{
    let mut message = "invalid length ".to_owned();
    message.append(write_decimal(len as u64).as_str());
    message.append(", expected ");
    message.append(expected);
    message
}

/// The content of what was read, or the refusal.
pub open spec fn read_view<T: DeepView>(read: Result<T, String>) -> Read<T::V> {
    match read {
        Ok(value) => Ok(value.deep_view()),
        Err(message) => Err(message@),
    }
}

/// What was read, or the refusal.
pub open spec fn plain_view<T>(read: Result<T, String>) -> Read<T> {
    match read {
        Ok(value) => Ok(value),
        Err(message) => Err(message@),
    }
}

/// The content of an environment that was read, or the refusal.
pub open spec fn env_view(
    read: Result<Option<IndexMap<String, Option<String>>>, String>,
) -> Read<Option<EnvMap>> {
    match read {
        Ok(env) => Ok(maybe_env_view(env)),
        Err(message) => Err(message@),
    }
}

/// Whether an environment that was read has its entries by rising key.
pub open spec fn env_ascends(env: Option<IndexMap<String, Option<String>>>) -> bool {
    env matches Some(env) ==> ascending(env_entries(env))
}

pub(crate) fn open_object(value: Value, expected: &str) -> (opened: Result<
    serde_json::Map<String, Value>,
    String,
>)
    ensures
        match opened {
            Ok(object) => object_read(json(value), expected@) == Read::<Fields>::Ok(
                fields(object),
            ),
            Err(message) => object_read(json(value), expected@) == Read::<Fields>::Err(message@),
        },
{
    match into_object(value) {
        Ok(object) => Ok(object),
        Err(value) => Err(refuse_shape(&value, expected)),
    }
}

pub(crate) fn get_text(object: &serde_json::Map<String, Value>, key: &str) -> (read: Result<
    Option<String>,
    String,
>)
    ensures
        read_view(read) == text_field_read(fields(*object), key@),
{
    match get(object, key) {
        Some(value) => match read_text(value) {
            Ok(read) => Ok(Some(read)),
            Err(message) => Err(message),
        },
        None => Ok(None),
    }
}

pub(crate) fn get_maybe_text(object: &serde_json::Map<String, Value>, key: &str) -> (read: Result<
    Option<String>,
    String,
>)
    ensures
        read_view(read) == maybe_text_field_read(fields(*object), key@),
{
    match get(object, key) {
        Some(value) => if is_null(&value) {
            Ok(None)
        } else {
            match read_text(value) {
                Ok(read) => Ok(Some(read)),
                Err(message) => Err(message),
            }
        },
        None => Ok(None),
    }
}

pub(crate) fn get_maybe_i32(object: &serde_json::Map<String, Value>, key: &str) -> (read: Result<
    Option<i32>,
    String,
>)
    ensures
        plain_view(read) == maybe_i32_field_read(fields(*object), key@),
{
    match get(object, key) {
        Some(value) => if is_null(&value) {
            Ok(None)
        } else {
            match read_i32(value) {
                Ok(read) => Ok(Some(read)),
                Err(message) => Err(message),
            }
        },
        None => Ok(None),
    }
}

pub(crate) fn get_maybe_env(object: &serde_json::Map<String, Value>, key: &str) -> (read: Result<
    Option<IndexMap<String, Option<String>>>,
    String,
>)
    ensures
        env_view(read) == maybe_env_field_read(fields(*object), key@),
        read matches Ok(env) ==> env_ascends(env),
{
    match get(object, key) {
        Some(value) => if is_null(&value) {
            Ok(None)
        } else {
            match read_env(value) {
                Ok(read) => Ok(Some(read)),
                Err(message) => Err(message),
            }
        },
        None => Ok(None),
    }
}

pub(crate) fn get_texts(object: &serde_json::Map<String, Value>, key: &str) -> (read: Result<
    Option<Vec<String>>,
    String,
>)
    ensures
        read_view(read) == texts_field_read(fields(*object), key@),
{
    match get(object, key) {
        Some(value) => match read_texts(value) {
            Ok(read) => Ok(Some(read)),
            Err(message) => Err(message),
        },
        None => Ok(None),
    }
}

pub(crate) fn get_bool(object: &serde_json::Map<String, Value>, key: &str) -> (read: Result<
    Option<bool>,
    String,
>)
    ensures
        plain_view(read) == bool_field_read(fields(*object), key@),
{
    match get(object, key) {
        Some(value) => match read_bool(value) {
            Ok(read) => Ok(Some(read)),
            Err(message) => Err(message),
        },
        None => Ok(None),
    }
}

pub(crate) fn get_u16(object: &serde_json::Map<String, Value>, key: &str) -> (read: Result<
    Option<u16>,
    String,
>)
    ensures
        plain_view(read) == u16_field_read(fields(*object), key@),
{
    match get(object, key) {
        Some(value) => match read_u16(value) {
            Ok(read) => Ok(Some(read)),
            Err(message) => Err(message),
        },
        None => Ok(None),
    }
}

pub(crate) fn get_u32(object: &serde_json::Map<String, Value>, key: &str) -> (read: Result<
    Option<u32>,
    String,
>)
    ensures
        plain_view(read) == u32_field_read(fields(*object), key@),
{
    match get(object, key) {
        Some(value) => match read_u32(value) {
            Ok(read) => Ok(Some(read)),
            Err(message) => Err(message),
        },
        None => Ok(None),
    }
}

} // verus!
