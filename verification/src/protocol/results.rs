//! What the server answers, and its wire form.

use crate::codec::{
    bad_length, bool_field_read, get_bool, get_maybe_i32, get_maybe_text, get_text, get_texts,
    get_u32, length_message, maybe_field, maybe_i32_field_read, maybe_number_field,
    maybe_text_field_read, maybe_text_json, maybe_text_read, missing, missing_message, object_read,
    open_object, put_maybe_number, put_maybe_text, put_text, text_field_read, text_read,
    texts_field_read, texts_json, texts_value, u32_field_read, usize_read, with_field, Fields,
    Read,
};
use crate::json::{
    bool_value, fields, get, into_list, into_object, is_null, json, jsons, list_value, new_object,
    no_fields, null_value, object_value, put, read_text, read_usize, refuse_shape, shape_refusal,
    text_value, unsigned, unsigned_value, Json,
};
use serde_json::Value;
use vstd::prelude::*;
use vstd::string::*;

verus! {

/// Result of a selector verb: how many tasks it acted on. Zero is a normal
/// outcome (the pattern matched nothing), not an error, so the client can
/// decide how to report it.
#[derive(Clone, Debug)]
pub struct ActResult {
    pub matched: usize,
}

#[derive(Clone, Debug)]
pub struct SpawnResult {
    pub path: String,
}

#[derive(Clone, Debug)]
pub struct TaskListResult {
    pub tasks: Vec<RpcTaskInfo>,
}

#[derive(Clone, Debug)]
pub struct ScreenResult {
    pub screen: Option<String>,
}

/// A task's lifecycle state on the wire: a stable token, plus the exit detail
/// for `done`/`exited`. `state` is one of `idle`, `starting`, `running`,
/// `ready`, `stopping`, `backoff`, `done`, `exited`.
#[derive(Clone, Debug)]
pub struct RpcState {
    pub state: String,
    pub exit_code: Option<i32>,
    pub signal: Option<i32>,
}

#[derive(Clone, Debug)]
pub struct RpcTaskInfo {
    pub path: String,
    pub label: Option<String>,
    pub state: RpcState,
}

#[derive(Clone, Debug)]
pub struct RpcWhy {
    pub path: String,
    pub state: RpcState,
    pub wanted: bool,
    pub supported: bool,
    pub vetoed: bool,
    pub pinned: bool,
    pub required_by: Vec<String>,
    pub deps: Vec<RpcWhyDep>,
    pub attempts: u32,
}

#[derive(Clone, Debug)]
pub struct RpcWhyDep {
    pub path: String,
    pub state: RpcState,
    pub wanted: bool,
    pub satisfied: bool,
}

// ---------------------------------------------------------------------------
// Their mathematical content.
// ---------------------------------------------------------------------------

pub struct StateView {
    pub state: Seq<char>,
    pub exit_code: Option<i32>,
    pub signal: Option<i32>,
}

pub struct TaskInfoView {
    pub path: Seq<char>,
    pub label: Option<Seq<char>>,
    pub state: StateView,
}

pub struct WhyDepView {
    pub path: Seq<char>,
    pub state: StateView,
    pub wanted: bool,
    pub satisfied: bool,
}

pub struct WhyView {
    pub path: Seq<char>,
    pub state: StateView,
    pub wanted: bool,
    pub supported: bool,
    pub vetoed: bool,
    pub pinned: bool,
    pub required_by: Seq<Seq<char>>,
    pub deps: Seq<WhyDepView>,
    pub attempts: u32,
}

impl DeepView for RpcState {
    type V = StateView;

    open spec fn deep_view(&self) -> StateView {
        StateView { state: self.state@, exit_code: self.exit_code, signal: self.signal }
    }
}

impl DeepView for RpcTaskInfo {
    type V = TaskInfoView;

    open spec fn deep_view(&self) -> TaskInfoView {
        TaskInfoView {
            path: self.path@,
            label: self.label.deep_view(),
            state: self.state.deep_view(),
        }
    }
}

impl DeepView for RpcWhyDep {
    type V = WhyDepView;

    open spec fn deep_view(&self) -> WhyDepView {
        WhyDepView {
            path: self.path@,
            state: self.state.deep_view(),
            wanted: self.wanted,
            satisfied: self.satisfied,
        }
    }
}

impl DeepView for RpcWhy {
    type V = WhyView;

    open spec fn deep_view(&self) -> WhyView {
        WhyView {
            path: self.path@,
            state: self.state.deep_view(),
            wanted: self.wanted,
            supported: self.supported,
            vetoed: self.vetoed,
            pinned: self.pinned,
            required_by: self.required_by.deep_view(),
            deps: self.deps.deep_view(),
            attempts: self.attempts,
        }
    }
}

// ---------------------------------------------------------------------------
// What they look like in JSON.
// ---------------------------------------------------------------------------

pub open spec fn act_json(matched: usize) -> Json {
    Json::Object(no_fields().insert("matched"@, unsigned(matched as u64)))
}

pub open spec fn spawn_json(path: Seq<char>) -> Json {
    Json::Object(no_fields().insert("path"@, Json::Text(path)))
}

pub open spec fn screen_json(screen: Option<Seq<char>>) -> Json {
    Json::Object(no_fields().insert("screen"@, maybe_text_json(screen)))
}

/// A state has no object of its own: its fields stand among those of the
/// object that it belongs to.
pub open spec fn with_state(object: Fields, state: StateView) -> Fields {
    let object = object.insert("state"@, Json::Text(state.state));
    let object = with_field(object, "exit_code"@, maybe_number_field(state.exit_code));
    with_field(object, "signal"@, maybe_number_field(state.signal))
}

pub open spec fn task_info_json(info: TaskInfoView) -> Json {
    let object = no_fields().insert("path"@, Json::Text(info.path));
    let object = with_field(object, "label"@, maybe_field(info.label));
    Json::Object(with_state(object, info.state))
}

pub open spec fn task_list_json(tasks: Seq<TaskInfoView>) -> Json {
    Json::Object(
        no_fields().insert(
            "tasks"@,
            Json::List(Seq::new(tasks.len(), |i: int| task_info_json(tasks[i]))),
        ),
    )
}

pub open spec fn why_dep_json(dep: WhyDepView) -> Json {
    let object = no_fields().insert("path"@, Json::Text(dep.path));
    let object = with_state(object, dep.state);
    Json::Object(
        object.insert("wanted"@, Json::Bool(dep.wanted)).insert(
            "satisfied"@,
            Json::Bool(dep.satisfied),
        ),
    )
}

pub open spec fn why_deps_json(deps: Seq<WhyDepView>) -> Json {
    Json::List(Seq::new(deps.len(), |i: int| why_dep_json(deps[i])))
}

pub open spec fn why_json(why: WhyView) -> Json {
    let object = no_fields().insert("path"@, Json::Text(why.path));
    let object = with_state(object, why.state);
    let object = object.insert("wanted"@, Json::Bool(why.wanted)).insert(
        "supported"@,
        Json::Bool(why.supported),
    ).insert("vetoed"@, Json::Bool(why.vetoed)).insert("pinned"@, Json::Bool(why.pinned));
    Json::Object(
        object.insert("required_by"@, texts_json(why.required_by)).insert(
            "deps"@,
            why_deps_json(why.deps),
        ).insert("attempts"@, unsigned(why.attempts as u64)),
    )
}

// ---------------------------------------------------------------------------
// How they are read. Fields are judged by rising name, and only then is it
// asked what is missing, in the order of the type's fields; a state comes last.
// ---------------------------------------------------------------------------

/// The message for a list without the one element that it should have.
pub open spec fn one_element(expected: Seq<char>) -> Seq<char> {
    expected + " with 1 element"@
}

/// Reads something that has a single field: an object with that field, or a
/// list with the field's value alone. `absent` is what an object without the
/// field reads as.
pub open spec fn single_read<T>(
    value: Json,
    expected: Seq<char>,
    key: Seq<char>,
    absent: Read<T>,
    read: spec_fn(Json) -> Read<T>,
) -> Read<T> {
    match value {
        Json::Object(object) => if object.contains_key(key) {
            read(object[key])
        } else {
            absent
        },
        Json::List(items) => if items.len() == 0 {
            Err(bad_length(0, one_element(expected)))
        } else {
            match read(items[0]) {
                Err(message) => Err(message),
                Ok(inner) => if items.len() > 1 {
                    Err(bad_length(items.len(), "fewer elements in array"@))
                } else {
                    Ok(inner)
                },
            }
        },
        _ => Err(shape_refusal(value, expected)),
    }
}

pub open spec fn act_read(value: Json) -> Read<usize> {
    single_read(
        value,
        "struct ActResult"@,
        "matched"@,
        Err(missing("matched"@)),
        |inner: Json| usize_read(inner),
    )
}

pub open spec fn spawned_read(value: Json) -> Read<Seq<char>> {
    single_read(
        value,
        "struct SpawnResult"@,
        "path"@,
        Err(missing("path"@)),
        |inner: Json| text_read(inner),
    )
}

pub open spec fn screen_read(value: Json) -> Read<Option<Seq<char>>> {
    single_read(
        value,
        "struct ScreenResult"@,
        "screen"@,
        Ok(None),
        |inner: Json| maybe_text_read(inner),
    )
}

pub open spec fn state_read(object: Fields) -> Read<StateView> {
    match maybe_i32_field_read(object, "exit_code"@) {
        Err(message) => Err(message),
        Ok(exit_code) => match maybe_i32_field_read(object, "signal"@) {
            Err(message) => Err(message),
            Ok(signal) => match text_field_read(object, "state"@) {
                Err(message) => Err(message),
                Ok(None) => Err(missing("state"@)),
                Ok(Some(state)) => Ok(StateView { state, exit_code, signal }),
            },
        },
    }
}

pub open spec fn task_info_fields_read(object: Fields) -> Read<TaskInfoView> {
    match maybe_text_field_read(object, "label"@) {
        Err(message) => Err(message),
        Ok(label) => match text_field_read(object, "path"@) {
            Err(message) => Err(message),
            Ok(None) => Err(missing("path"@)),
            Ok(Some(path)) => match state_read(object) {
                Err(message) => Err(message),
                Ok(state) => Ok(TaskInfoView { path, label, state }),
            },
        },
    }
}

pub open spec fn task_info_read(value: Json) -> Read<TaskInfoView> {
    match object_read(value, "struct RpcTaskInfo"@) {
        Err(message) => Err(message),
        Ok(object) => task_info_fields_read(object),
    }
}

/// Reads the items one after another; the first that does not fit decides.
pub open spec fn items_read<T>(items: Seq<Json>, read: spec_fn(Json) -> Read<T>) -> Read<Seq<T>>
    decreases items.len(),
{
    if items.len() == 0 {
        Ok(Seq::empty())
    } else {
        match items_read(items.drop_last(), read) {
            Err(message) => Err(message),
            Ok(before) => match read(items.last()) {
                Err(message) => Err(message),
                Ok(item) => Ok(before.push(item)),
            },
        }
    }
}

pub open spec fn list_read<T>(value: Json, read: spec_fn(Json) -> Read<T>) -> Read<Seq<T>> {
    match value {
        Json::List(items) => items_read(items, read),
        _ => Err(shape_refusal(value, "a sequence"@)),
    }
}

pub open spec fn task_infos_read(value: Json) -> Read<Seq<TaskInfoView>> {
    list_read(value, |item: Json| task_info_read(item))
}

pub open spec fn task_list_read(value: Json) -> Read<Seq<TaskInfoView>> {
    single_read(
        value,
        "struct TaskListResult"@,
        "tasks"@,
        Err(missing("tasks"@)),
        |inner: Json| task_infos_read(inner),
    )
}

pub open spec fn why_dep_fields_read(object: Fields) -> Read<WhyDepView> {
    match text_field_read(object, "path"@) {
        Err(message) => Err(message),
        Ok(path) => match bool_field_read(object, "satisfied"@) {
            Err(message) => Err(message),
            Ok(satisfied) => match bool_field_read(object, "wanted"@) {
                Err(message) => Err(message),
                Ok(wanted) => match (path, wanted, satisfied) {
                    (None, _, _) => Err(missing("path"@)),
                    (_, None, _) => Err(missing("wanted"@)),
                    (_, _, None) => Err(missing("satisfied"@)),
                    (Some(path), Some(wanted), Some(satisfied)) => match state_read(object) {
                        Err(message) => Err(message),
                        Ok(state) => Ok(WhyDepView { path, state, wanted, satisfied }),
                    },
                },
            },
        },
    }
}

pub open spec fn why_dep_read(value: Json) -> Read<WhyDepView> {
    match object_read(value, "struct RpcWhyDep"@) {
        Err(message) => Err(message),
        Ok(object) => why_dep_fields_read(object),
    }
}

pub open spec fn why_deps_read(value: Json) -> Read<Seq<WhyDepView>> {
    list_read(value, |item: Json| why_dep_read(item))
}

pub open spec fn why_deps_field_read(object: Fields, key: Seq<char>) -> Read<
    Option<Seq<WhyDepView>>,
> {
    if object.contains_key(key) {
        match why_deps_read(object[key]) {
            Ok(deps) => Ok(Some(deps)),
            Err(message) => Err(message),
        }
    } else {
        Ok(None)
    }
}

/// The parts of an explanation that its object has.
pub struct WhyParts {
    pub attempts: Option<u32>,
    pub deps: Option<Seq<WhyDepView>>,
    pub path: Option<Seq<char>>,
    pub pinned: Option<bool>,
    pub required_by: Option<Seq<Seq<char>>>,
    pub supported: Option<bool>,
    pub vetoed: Option<bool>,
    pub wanted: Option<bool>,
}

pub open spec fn why_flags_read(object: Fields) -> Read<
    (Option<bool>, Option<bool>, Option<bool>),
> {
    match bool_field_read(object, "supported"@) {
        Err(message) => Err(message),
        Ok(supported) => match bool_field_read(object, "vetoed"@) {
            Err(message) => Err(message),
            Ok(vetoed) => match bool_field_read(object, "wanted"@) {
                Err(message) => Err(message),
                Ok(wanted) => Ok((supported, vetoed, wanted)),
            },
        },
    }
}

pub open spec fn why_parts_read(object: Fields) -> Read<WhyParts> {
    match u32_field_read(object, "attempts"@) {
        Err(message) => Err(message),
        Ok(attempts) => match why_deps_field_read(object, "deps"@) {
            Err(message) => Err(message),
            Ok(deps) => match text_field_read(object, "path"@) {
                Err(message) => Err(message),
                Ok(path) => match bool_field_read(object, "pinned"@) {
                    Err(message) => Err(message),
                    Ok(pinned) => match texts_field_read(object, "required_by"@) {
                        Err(message) => Err(message),
                        Ok(required_by) => match why_flags_read(object) {
                            Err(message) => Err(message),
                            Ok((supported, vetoed, wanted)) => Ok(
                                WhyParts {
                                    attempts,
                                    deps,
                                    path,
                                    pinned,
                                    required_by,
                                    supported,
                                    vetoed,
                                    wanted,
                                },
                            ),
                        },
                    },
                },
            },
        },
    }
}

/// The first part of an explanation that is missing, if one is.
pub open spec fn why_missing(parts: WhyParts) -> Option<Seq<char>> {
    if parts.path is None {
        Some("path"@)
    } else if parts.wanted is None {
        Some("wanted"@)
    } else if parts.supported is None {
        Some("supported"@)
    } else if parts.vetoed is None {
        Some("vetoed"@)
    } else if parts.pinned is None {
        Some("pinned"@)
    } else if parts.required_by is None {
        Some("required_by"@)
    } else if parts.deps is None {
        Some("deps"@)
    } else if parts.attempts is None {
        Some("attempts"@)
    } else {
        None
    }
}

pub open spec fn why_fields_read(object: Fields) -> Read<WhyView> {
    match why_parts_read(object) {
        Err(message) => Err(message),
        Ok(parts) => match why_missing(parts) {
            Some(key) => Err(missing(key)),
            None => match state_read(object) {
                Err(message) => Err(message),
                Ok(state) => Ok(
                    WhyView {
                        path: parts.path->0,
                        state,
                        wanted: parts.wanted->0,
                        supported: parts.supported->0,
                        vetoed: parts.vetoed->0,
                        pinned: parts.pinned->0,
                        required_by: parts.required_by->0,
                        deps: parts.deps->0,
                        attempts: parts.attempts->0,
                    },
                ),
            },
        },
    }
}

pub open spec fn why_read(value: Json) -> Read<WhyView> {
    match object_read(value, "struct RpcWhy"@) {
        Err(message) => Err(message),
        Ok(object) => why_fields_read(object),
    }
}

// ---------------------------------------------------------------------------
// Writing.
// ---------------------------------------------------------------------------

/// The result of a request that has nothing to report: an object without
/// fields.
pub fn ok_result() -> (value: Value)
    ensures
        json(value) == Json::Object(no_fields()),
{
    object_value(new_object())
}

impl ActResult {
    pub fn to_value(&self) -> (value: Value)
        ensures
            json(value) == act_json(self.matched),
    {
        let mut object = new_object();
        put(&mut object, "matched", unsigned_value(self.matched as u64));
        object_value(object)
    }
}

impl SpawnResult {
    pub fn to_value(&self) -> (value: Value)
        ensures
            json(value) == spawn_json(self.path@),
    {
        let mut object = new_object();
        put_text(&mut object, "path", &self.path);
        object_value(object)
    }
}

impl ScreenResult {
    pub fn to_value(&self) -> (value: Value)
        ensures
            json(value) == screen_json(self.screen.deep_view()),
    {
        let mut object = new_object();
        let screen = match &self.screen {
            Some(screen) => text_value(screen.clone()),
            None => null_value(),
        };
        put(&mut object, "screen", screen);
        object_value(object)
    }
}

impl RpcState {
    fn put_into(&self, object: &mut serde_json::Map<String, Value>)
        ensures
            fields(*final(object)) == with_state(fields(*old(object)), self.deep_view()),
    {
        put_text(object, "state", &self.state);
        put_maybe_number(object, "exit_code", self.exit_code);
        put_maybe_number(object, "signal", self.signal);
    }
}

impl RpcTaskInfo {
    pub fn to_value(&self) -> (value: Value)
        ensures
            json(value) == task_info_json(self.deep_view()),
    {
        let mut object = new_object();
        put_text(&mut object, "path", &self.path);
        put_maybe_text(&mut object, "label", &self.label);
        self.state.put_into(&mut object);
        object_value(object)
    }
}

impl TaskListResult {
    pub fn to_value(&self) -> (value: Value)
        ensures
            json(value) == task_list_json(self.tasks.deep_view()),
    {
        let mut items: Vec<Value> = Vec::new();
        for i in 0..self.tasks.len()
            invariant
                items@.len() == i,
                forall|j: int|
                    0 <= j < i ==> json(#[trigger] items@[j]) == task_info_json(
                        self.tasks@[j].deep_view(),
                    ),
        {
            items.push(self.tasks[i].to_value());
        }
        let mut object = new_object();
        proof {
            let views = self.tasks.deep_view();
            assert(jsons(items@) =~= Seq::new(views.len(), |j: int| task_info_json(views[j])));
        }
        put(&mut object, "tasks", list_value(items));
        object_value(object)
    }
}

impl RpcWhyDep {
    pub fn to_value(&self) -> (value: Value)
        ensures
            json(value) == why_dep_json(self.deep_view()),
    {
        let mut object = new_object();
        put_text(&mut object, "path", &self.path);
        self.state.put_into(&mut object);
        put(&mut object, "wanted", bool_value(self.wanted));
        put(&mut object, "satisfied", bool_value(self.satisfied));
        object_value(object)
    }
}

fn why_deps_value(deps: &Vec<RpcWhyDep>) -> (value: Value)
    ensures
        json(value) == why_deps_json(deps.deep_view()),
{
    let mut items: Vec<Value> = Vec::new();
    for i in 0..deps.len()
        invariant
            items@.len() == i,
            forall|j: int|
                0 <= j < i ==> json(#[trigger] items@[j]) == why_dep_json(deps@[j].deep_view()),
    {
        items.push(deps[i].to_value());
    }
    assert(jsons(items@) =~= why_deps_json(deps.deep_view())->List_0);
    list_value(items)
}

impl RpcWhy {
    pub fn to_value(&self) -> (value: Value)
        ensures
            json(value) == why_json(self.deep_view()),
    {
        let mut object = new_object();
        put_text(&mut object, "path", &self.path);
        self.state.put_into(&mut object);
        put(&mut object, "wanted", bool_value(self.wanted));
        put(&mut object, "supported", bool_value(self.supported));
        put(&mut object, "vetoed", bool_value(self.vetoed));
        put(&mut object, "pinned", bool_value(self.pinned));
        put(&mut object, "required_by", texts_value(&self.required_by));
        put(&mut object, "deps", why_deps_value(&self.deps));
        put(&mut object, "attempts", unsigned_value(self.attempts as u64));
        object_value(object)
    }
}

// ---------------------------------------------------------------------------
// Reading.
// ---------------------------------------------------------------------------

/// Something that has a single field, opened: the field's value if it is there,
/// and the length of the list if it has more than that value.
struct Single {
    inner: Option<Value>,
    surplus: Option<usize>,
}

fn open_single(value: Value, expected: &str, key: &str) -> (opened: Result<Single, String>)
    ensures
        match opened {
            Ok(single) => {
                &&& single.inner is None ==> {
                    &&& json(value) matches Json::Object(object) && !object.contains_key(key@)
                }
                &&& single.inner matches Some(inner) ==> match json(value) {
                    Json::Object(object) => {
                        &&& object.contains_key(key@)
                        &&& json(inner) == object[key@]
                        &&& single.surplus is None
                    },
                    Json::List(items) => {
                        &&& items.len() > 0
                        &&& json(inner) == items[0]
                        &&& match single.surplus {
                            Some(len) => len == items.len() && len > 1,
                            None => items.len() == 1,
                        }
                    },
                    _ => false,
                }
            },
            Err(message) => match json(value) {
                Json::Object(_) => false,
                Json::List(items) => {
                    &&& items.len() == 0
                    &&& message@ == bad_length(0, one_element(expected@))
                },
                _ => message@ == shape_refusal(json(value), expected@),
            },
        },
{
    match into_object(value) {
        Ok(object) => Ok(Single { inner: get(&object, key), surplus: None }),
        Err(value) => match into_list(value) {
            Ok(mut items) => {
                let len: usize = items.len();
                if len == 0 {
                    let mut wanted = expected.to_owned();
                    wanted.append(" with 1 element");
                    return Err(length_message(0, wanted.as_str()));
                }
                let ghost all = jsons(items@);
                let inner = items.swap_remove(0);
                assert(json(inner) == all[0]);
                let surplus: Option<usize> = if len > 1 {
                    Some(len)
                } else {
                    None
                };
                Ok(Single { inner: Some(inner), surplus })
            },
            Err(value) => Err(refuse_shape(&value, expected)),
        },
    }
}

fn surplus_message(len: usize) -> (message: String)
    ensures
        message@ == bad_length(len as nat, "fewer elements in array"@),
{
    length_message(len, "fewer elements in array")
}

impl ActResult {
    pub fn from_value(value: Value) -> (read: Result<ActResult, String>)
        ensures
            match read {
                Ok(result) => act_read(json(value)) == Read::<usize>::Ok(result.matched),
                Err(message) => act_read(json(value)) == Read::<usize>::Err(message@),
            },
    {
        let single = open_single(value, "struct ActResult", "matched")?;
        match single.inner {
            None => Err(missing_message("matched")),
            Some(inner) => {
                let matched: usize = read_usize(inner)?;
                match single.surplus {
                    Some(len) => Err(surplus_message(len)),
                    None => Ok(ActResult { matched }),
                }
            },
        }
    }
}

impl SpawnResult {
    pub fn from_value(value: Value) -> (read: Result<SpawnResult, String>)
        ensures
            match read {
                Ok(result) => spawned_read(json(value)) == Read::<Seq<char>>::Ok(result.path@),
                Err(message) => spawned_read(json(value)) == Read::<Seq<char>>::Err(message@),
            },
    {
        let single = open_single(value, "struct SpawnResult", "path")?;
        match single.inner {
            None => Err(missing_message("path")),
            Some(inner) => {
                let path = read_text(inner)?;
                match single.surplus {
                    Some(len) => Err(surplus_message(len)),
                    None => Ok(SpawnResult { path }),
                }
            },
        }
    }
}

impl ScreenResult {
    pub fn from_value(value: Value) -> (read: Result<ScreenResult, String>)
        ensures
            match read {
                Ok(result) => screen_read(json(value)) == Read::<Option<Seq<char>>>::Ok(
                    result.screen.deep_view(),
                ),
                Err(message) => screen_read(json(value)) == Read::<Option<Seq<char>>>::Err(
                    message@,
                ),
            },
    {
        let single = open_single(value, "struct ScreenResult", "screen")?;
        match single.inner {
            None => Ok(ScreenResult { screen: None }),
            Some(inner) => {
                let screen = if is_null(&inner) {
                    None
                } else {
                    Some(read_text(inner)?)
                };
                match single.surplus {
                    Some(len) => Err(surplus_message(len)),
                    None => Ok(ScreenResult { screen }),
                }
            },
        }
    }
}

impl RpcState {
    fn read_from(object: &serde_json::Map<String, Value>) -> (read: Result<RpcState, String>)
        ensures
            crate::codec::read_view(read) == state_read(fields(*object)),
    {
        let exit_code = get_maybe_i32(object, "exit_code")?;
        let signal = get_maybe_i32(object, "signal")?;
        match get_text(object, "state")? {
            Some(state) => Ok(RpcState { state, exit_code, signal }),
            None => Err(missing_message("state")),
        }
    }
}

impl RpcTaskInfo {
    pub fn from_value(value: Value) -> (read: Result<RpcTaskInfo, String>)
        ensures
            crate::codec::read_view(read) == task_info_read(json(value)),
    {
        let object = open_object(value, "struct RpcTaskInfo")?;
        let label = get_maybe_text(&object, "label")?;
        match get_text(&object, "path")? {
            Some(path) => {
                let state = RpcState::read_from(&object)?;
                Ok(RpcTaskInfo { path, label, state })
            },
            None => Err(missing_message("path")),
        }
    }

    fn list_from(value: Value) -> (read: Result<Vec<RpcTaskInfo>, String>)
        ensures
            crate::codec::read_view(read) == task_infos_read(json(value)),
    {
        let ghost reader = |item: Json| task_info_read(item);
        match into_list(value) {
            Err(value) => Err(refuse_shape(&value, "a sequence")),
            Ok(items) => {
                let ghost all = jsons(items@);
                let mut infos: Vec<RpcTaskInfo> = Vec::new();
                assert(infos.deep_view() =~= Seq::<TaskInfoView>::empty());
                assert(all.take(0) =~= Seq::<Json>::empty());
                for item in iter: items
                    invariant
                        jsons(iter.seq()) == all,
                        reader == (|item: Json| task_info_read(item)),
                        items_read(all.take(iter.index() as int), reader)
                            == Read::<Seq<TaskInfoView>>::Ok(infos.deep_view()),
                        json(value) == Json::List(all),
                {
                    proof {
                        let at = iter.index() as int;
                        assert(all.take(at + 1).drop_last() =~= all.take(at));
                        assert(all.take(at + 1).last() == json(item));
                    }
                    let ghost before = infos.deep_view();
                    match RpcTaskInfo::from_value(item) {
                        Ok(info) => {
                            infos.push(info);
                            assert(infos.deep_view() =~= before.push(info.deep_view()));
                        },
                        Err(message) => {
                            proof {
                                lemma_first_failure(all, iter.index() as int, reader);
                            }
                            return Err(message);
                        },
                    }
                }
                assert(all.take(all.len() as int) =~= all);
                Ok(infos)
            },
        }
    }
}

/// An item that does not fit decides, if those before it do.
proof fn lemma_first_failure<T>(items: Seq<Json>, at: int, read: spec_fn(Json) -> Read<T>)
    requires
        0 <= at < items.len(),
        items_read(items.take(at), read) is Ok,
        read(items[at]) is Err,
    ensures
        items_read(items, read) is Err,
        items_read(items, read)->Err_0 == read(items[at])->Err_0,
    decreases items.len(),
{
    if at == items.len() - 1 {
        assert(items.take(at) =~= items.drop_last());
    } else {
        assert(items.drop_last().take(at) =~= items.take(at));
        lemma_first_failure(items.drop_last(), at, read);
    }
}

impl TaskListResult {
    pub fn from_value(value: Value) -> (read: Result<TaskListResult, String>)
        ensures
            match read {
                Ok(result) => task_list_read(json(value)) == Read::<Seq<TaskInfoView>>::Ok(
                    result.tasks.deep_view(),
                ),
                Err(message) => task_list_read(json(value)) == Read::<Seq<TaskInfoView>>::Err(
                    message@,
                ),
            },
    {
        let single = open_single(value, "struct TaskListResult", "tasks")?;
        match single.inner {
            None => Err(missing_message("tasks")),
            Some(inner) => {
                let tasks = RpcTaskInfo::list_from(inner)?;
                match single.surplus {
                    Some(len) => Err(surplus_message(len)),
                    None => Ok(TaskListResult { tasks }),
                }
            },
        }
    }
}

impl RpcWhyDep {
    pub fn from_value(value: Value) -> (read: Result<RpcWhyDep, String>)
        ensures
            crate::codec::read_view(read) == why_dep_read(json(value)),
    {
        let object = open_object(value, "struct RpcWhyDep")?;
        let path = get_text(&object, "path")?;
        let satisfied = get_bool(&object, "satisfied")?;
        let wanted = get_bool(&object, "wanted")?;
        match (path, wanted, satisfied) {
            (None, _, _) => Err(missing_message("path")),
            (_, None, _) => Err(missing_message("wanted")),
            (_, _, None) => Err(missing_message("satisfied")),
            (Some(path), Some(wanted), Some(satisfied)) => {
                let state = RpcState::read_from(&object)?;
                Ok(RpcWhyDep { path, state, wanted, satisfied })
            },
        }
    }

    fn list_from(value: Value) -> (read: Result<Vec<RpcWhyDep>, String>)
        ensures
            crate::codec::read_view(read) == why_deps_read(json(value)),
    {
        let ghost reader = |item: Json| why_dep_read(item);
        match into_list(value) {
            Err(value) => Err(refuse_shape(&value, "a sequence")),
            Ok(items) => {
                let ghost all = jsons(items@);
                let mut deps: Vec<RpcWhyDep> = Vec::new();
                assert(deps.deep_view() =~= Seq::<WhyDepView>::empty());
                assert(all.take(0) =~= Seq::<Json>::empty());
                for item in iter: items
                    invariant
                        jsons(iter.seq()) == all,
                        reader == (|item: Json| why_dep_read(item)),
                        items_read(all.take(iter.index() as int), reader)
                            == Read::<Seq<WhyDepView>>::Ok(deps.deep_view()),
                        json(value) == Json::List(all),
                {
                    proof {
                        let at = iter.index() as int;
                        assert(all.take(at + 1).drop_last() =~= all.take(at));
                        assert(all.take(at + 1).last() == json(item));
                    }
                    let ghost before = deps.deep_view();
                    match RpcWhyDep::from_value(item) {
                        Ok(dep) => {
                            deps.push(dep);
                            assert(deps.deep_view() =~= before.push(dep.deep_view()));
                        },
                        Err(message) => {
                            proof {
                                lemma_first_failure(all, iter.index() as int, reader);
                            }
                            return Err(message);
                        },
                    }
                }
                assert(all.take(all.len() as int) =~= all);
                Ok(deps)
            },
        }
    }
}

impl RpcWhy {
    pub fn from_value(value: Value) -> (read: Result<RpcWhy, String>)
        ensures
            crate::codec::read_view(read) == why_read(json(value)),
    {
        let object = open_object(value, "struct RpcWhy")?;
        let attempts = get_u32(&object, "attempts")?;
        let deps = match get(&object, "deps") {
            Some(deps) => Some(RpcWhyDep::list_from(deps)?),
            None => None,
        };
        let path = get_text(&object, "path")?;
        let pinned = get_bool(&object, "pinned")?;
        let required_by = get_texts(&object, "required_by")?;
        let supported = get_bool(&object, "supported")?;
        let vetoed = get_bool(&object, "vetoed")?;
        let wanted = get_bool(&object, "wanted")?;
        let path = needed(path, "path")?;
        let wanted = needed(wanted, "wanted")?;
        let supported = needed(supported, "supported")?;
        let vetoed = needed(vetoed, "vetoed")?;
        let pinned = needed(pinned, "pinned")?;
        let required_by = needed(required_by, "required_by")?;
        let deps = needed(deps, "deps")?;
        let attempts = needed(attempts, "attempts")?;
        let state = RpcState::read_from(&object)?;
        Ok(
            RpcWhy {
                path,
                state,
                wanted,
                supported,
                vetoed,
                pinned,
                required_by,
                deps,
                attempts,
            },
        )
    }
}

fn needed<T>(field: Option<T>, key: &str) -> (read: Result<T, String>)
    ensures
        match read {
            Ok(value) => field == Some(value),
            Err(message) => field is None && message@ == missing(key@),
        },
{
    match field {
        Some(value) => Ok(value),
        None => Err(missing_message(key)),
    }
}

} // verus!
