//! Laws of the wire form, field by field: under which names requests and results
//! travel, where each of their parts stands, and that reading takes each part
//! from that place.

use super::ctl::ErrorCode;
use super::laws::{law_methods_by_name, lemma_result_keys, lemma_size_fields, lemma_spawn_fields};
use super::request::{
    method_named, method_of, request_fields, request_params, wire_read, wire_view, Method,
    RequestView, RpcRequest,
};
use super::results::{
    act_json, act_read, items_read, screen_json, screen_read, spawn_json, spawned_read,
    task_info_json, task_info_read, task_list_json, task_list_read, why_dep_json, why_dep_read,
    why_deps_read, why_json, why_read, RpcState, RpcTaskInfo, RpcWhy, RpcWhyDep, TaskInfoView,
    WhyDepView, WhyView,
};
use crate::codec::{read_view, texts_json, Fields, Read};
use crate::json::{
    as_i32, as_unsigned, entries_map, env_entries, env_of, is_env, is_texts, no_fields,
    shape_refusal, signed, texts_of, unsigned, Json,
};
use crate::text::decimal;
use vstd::prelude::*;

verus! {

// ---------------------------------------------------------------------------
// Requests.
// ---------------------------------------------------------------------------

/// Whether the name is the one that the request travels under.
pub open spec fn named(request: RpcRequest, name: Seq<char>) -> bool {
    &&& request is TuiAttach <==> name == "tui_attach"@
    &&& request is Spawn <==> name == "spawn"@
    &&& request is Ls <==> name == "ls"@
    &&& request is Up <==> name == "up"@
    &&& request is Start <==> name == "start"@
    &&& request is Stop <==> name == "stop"@
    &&& request is Down <==> name == "down"@
    &&& request is Kill <==> name == "kill"@
    &&& request is Veto <==> name == "veto"@
    &&& request is Restart <==> name == "restart"@
    &&& request is Why <==> name == "why"@
    &&& request is Screen <==> name == "screen"@
    &&& request is Shutdown <==> name == "shutdown"@
}

proof fn lemma_named(request: RpcRequest, name: Seq<char>)
    requires
        method_named(name) == Some(method_of(request@)),
    ensures
        named(request, name),
{
    law_methods_by_name(name, Method::TuiAttach);
    law_methods_by_name(name, Method::Spawn);
    law_methods_by_name(name, Method::Ls);
    law_methods_by_name(name, Method::Up);
    law_methods_by_name(name, Method::Start);
    law_methods_by_name(name, Method::Stop);
    law_methods_by_name(name, Method::Down);
    law_methods_by_name(name, Method::Kill);
    law_methods_by_name(name, Method::Veto);
    law_methods_by_name(name, Method::Restart);
    law_methods_by_name(name, Method::Why);
    law_methods_by_name(name, Method::Screen);
    law_methods_by_name(name, Method::Shutdown);
}

/// Every request travels under its own name, and under no other's.
pub proof fn law_requests_travel_under_their_names(request: RpcRequest)
    ensures
        named(request, method_of(request@).wire_name()),
{
    let name = method_of(request@).wire_name();
    law_methods_by_name(name, method_of(request@));
    lemma_named(request, name);
}

/// Whether the parameters are an object with one text field and nothing else.
pub open spec fn only_text(params: Json, key: Seq<char>, text: Seq<char>) -> bool {
    params matches Json::Object(object) && object.dom() == set![key] && object[key] == Json::Text(
        text,
    )
}

/// A request with a pattern or a path travels with that alone; one without
/// travels with nothing.
pub proof fn law_patterns_and_paths_travel(request: RpcRequest)
    ensures
        ({
            let params = request_params(request@);
            match request {
                RpcRequest::Start { pattern } => only_text(params, "pattern"@, pattern@),
                RpcRequest::Stop { pattern } => only_text(params, "pattern"@, pattern@),
                RpcRequest::Kill { pattern } => only_text(params, "pattern"@, pattern@),
                RpcRequest::Veto { pattern } => only_text(params, "pattern"@, pattern@),
                RpcRequest::Restart { pattern } => only_text(params, "pattern"@, pattern@),
                RpcRequest::Ls { pattern: Some(pattern) } => only_text(
                    params,
                    "pattern"@,
                    pattern@,
                ),
                RpcRequest::Up { pattern: Some(pattern) } => only_text(
                    params,
                    "pattern"@,
                    pattern@,
                ),
                RpcRequest::Down { pattern: Some(pattern) } => only_text(
                    params,
                    "pattern"@,
                    pattern@,
                ),
                RpcRequest::Why { path } => only_text(params, "path"@, path@),
                RpcRequest::Screen { path } => only_text(params, "path"@, path@),
                RpcRequest::TuiAttach { .. } | RpcRequest::Spawn { .. } => params is Object,
                _ => params is Null,
            }
        }),
{
    let object = request_fields(request@);
    assert(no_fields().dom() =~= Set::empty());
    match request@ {
        RequestView::TuiAttach { width, height } => {
            lemma_size_fields(width, height);
        },
        RequestView::Spawn { .. } => {
            lemma_spawn_fields(request@);
        },
        RequestView::Start { .. }
        | RequestView::Stop { .. }
        | RequestView::Kill { .. }
        | RequestView::Veto { .. }
        | RequestView::Restart { .. } => {
            assert(object.contains_key("pattern"@));
            assert(object.dom() =~= set!["pattern"@]);
        },
        RequestView::Why { .. } | RequestView::Screen { .. } => {
            assert(object.contains_key("path"@));
            assert(object.dom() =~= set!["path"@]);
        },
        RequestView::Ls { pattern } | RequestView::Up { pattern } | RequestView::Down {
            pattern,
        } => {
            if pattern is Some {
                assert(object.contains_key("pattern"@));
                assert(object.dom() =~= set!["pattern"@]);
            }
        },
        _ => {},
    }
}

/// A size travels as the two numbers that it is.
pub proof fn law_sizes_travel(width: u16, height: u16)
    ensures
        request_params((RpcRequest::TuiAttach { width, height })@) matches Json::Object(object)
            && object.dom() == set!["width"@, "height"@] && object["width"@] == unsigned(
            width as u64,
        ) && object["height"@] == unsigned(height as u64),
{
    lemma_size_fields(width, height);
    let object = request_fields((RpcRequest::TuiAttach { width, height })@);
    assert(object.dom() =~= set!["width"@, "height"@]);
}

/// Whether the value is the list of the texts.
pub open spec fn lists(value: Json, texts: Seq<String>) -> bool {
    value matches Json::List(items) && items.len() == texts.len() && forall|i: int|
        0 <= i < items.len() ==> #[trigger] items[i] == Json::Text(texts[i]@)
}

proof fn lemma_lists(texts: Vec<String>)
    ensures
        lists(texts_json(texts.deep_view()), texts@),
{
}

/// A spawn travels with its path and its command, and with each of the other
/// parts exactly when there is something to say.
pub proof fn law_spawns_travel(request: RpcRequest)
    requires
        request is Spawn,
    ensures
        request_params(request@) matches Json::Object(object) && {
            &&& object.contains_key("path"@) && object["path"@] == Json::Text(
                request->Spawn_path@,
            )
            &&& object.contains_key("cmd"@) && lists(object["cmd"@], request->Spawn_cmd@)
            &&& match request->Spawn_cwd {
                Some(cwd) => object.contains_key("cwd"@) && object["cwd"@] == Json::Text(cwd@),
                None => !object.contains_key("cwd"@),
            }
            &&& object.contains_key("deps"@) <==> request->Spawn_deps@.len() > 0
            &&& object.contains_key("deps"@) ==> lists(object["deps"@], request->Spawn_deps@)
            &&& object.contains_key("tags"@) <==> request->Spawn_tags@.len() > 0
            &&& object.contains_key("tags"@) ==> lists(object["tags"@], request->Spawn_tags@)
            &&& match request->Spawn_env {
                Some(env) => object.contains_key("env"@) && is_env(object["env"@]) && env_of(
                    object["env"@],
                ) == entries_map(env_entries(env)),
                None => !object.contains_key("env"@),
            }
        },
{
    lemma_spawn_fields(request@);
    lemma_lists(request->Spawn_cmd);
    lemma_lists(request->Spawn_deps);
    lemma_lists(request->Spawn_tags);
    assert(request->Spawn_deps.deep_view().len() == request->Spawn_deps@.len());
    assert(request->Spawn_tags.deep_view().len() == request->Spawn_tags@.len());
    if let Some(env) = request->Spawn_env {
        let object = request_fields(request@);
        assert(env_of(object["env"@]) =~= entries_map(env_entries(env)));
    }
}

/// Whether an optional text was taken from a field: a field that is missing or
/// null gives none.
pub open spec fn taken(object: Fields, key: Seq<char>, text: Option<String>) -> bool {
    match text {
        Some(text) => object.contains_key(key) && object[key] == Json::Text(text@),
        None => object.contains_key(key) ==> object[key] is Null,
    }
}

/// Whether a list was taken from a field: a field that is missing gives an empty
/// one.
pub open spec fn taken_list(object: Fields, key: Seq<char>, texts: Seq<String>) -> bool {
    if object.contains_key(key) {
        lists(object[key], texts)
    } else {
        texts.len() == 0
    }
}

proof fn lemma_taken_list(value: Json, texts: Vec<String>)
    requires
        is_texts(value),
        texts.deep_view() == texts_of(value),
    ensures
        lists(value, texts@),
{
    assert(texts.deep_view().len() == texts@.len());
    assert forall|i: int| 0 <= i < value->List_0.len() implies #[trigger] value->List_0[i]
        == Json::Text(texts@[i]@) by {
        assert(texts.deep_view()[i] == texts@[i]@);
        assert(texts_of(value)[i] == value->List_0[i]->Text_0);
    }
}

/// Each part of a request that was read comes from its own field of the
/// parameters, and the request is the one that the name says.
pub proof fn law_requests_are_read_from_their_fields(
    name: Seq<char>,
    object: Fields,
    request: RpcRequest,
)
    requires
        wire_view(Ok(request)) == wire_read(name, Json::Object(object)),
    ensures
        named(request, name),
        match request {
            RpcRequest::Start { pattern } => taken(object, "pattern"@, Some(pattern)),
            RpcRequest::Stop { pattern } => taken(object, "pattern"@, Some(pattern)),
            RpcRequest::Kill { pattern } => taken(object, "pattern"@, Some(pattern)),
            RpcRequest::Veto { pattern } => taken(object, "pattern"@, Some(pattern)),
            RpcRequest::Restart { pattern } => taken(object, "pattern"@, Some(pattern)),
            RpcRequest::Ls { pattern } => taken(object, "pattern"@, pattern),
            RpcRequest::Up { pattern } => taken(object, "pattern"@, pattern),
            RpcRequest::Down { pattern } => taken(object, "pattern"@, pattern),
            RpcRequest::Why { path } => taken(object, "path"@, Some(path)),
            RpcRequest::Screen { path } => taken(object, "path"@, Some(path)),
            RpcRequest::Shutdown {  } => true,
            RpcRequest::TuiAttach { width, height } => {
                &&& object.contains_key("width"@) && object["width"@] == unsigned(width as u64)
                &&& object.contains_key("height"@) && object["height"@] == unsigned(height as u64)
            },
            RpcRequest::Spawn { path, cmd, cwd, env, deps, tags } => {
                &&& taken(object, "path"@, Some(path))
                &&& object.contains_key("cmd"@) && lists(object["cmd"@], cmd@)
                &&& taken(object, "cwd"@, cwd)
                &&& taken_list(object, "deps"@, deps@)
                &&& taken_list(object, "tags"@, tags@)
                &&& match env {
                    Some(env) => object.contains_key("env"@) && is_env(object["env"@]) && env_of(
                        object["env"@],
                    ) == entries_map(env_entries(env)),
                    None => object.contains_key("env"@) ==> object["env"@] is Null,
                }
            },
        },
{
    assert(method_named(name) == Some(method_of(request@)));
    lemma_named(request, name);
    if let RpcRequest::Spawn { path, cmd, cwd, env, deps, tags } = request {
        lemma_taken_list(object["cmd"@], cmd);
        assert(deps.deep_view().len() == deps@.len());
        assert(tags.deep_view().len() == tags@.len());
        if object.contains_key("deps"@) {
            lemma_taken_list(object["deps"@], deps);
        }
        if object.contains_key("tags"@) {
            lemma_taken_list(object["tags"@], tags);
        }
    }
}

/// Whether a field is missing, null or a text.
pub open spec fn may_be_text(object: Fields, key: Seq<char>) -> bool {
    object.contains_key(key) ==> object[key] is Null || object[key] is Text
}

/// Whether a field is missing or a list of texts.
pub open spec fn may_be_texts(object: Fields, key: Seq<char>) -> bool {
    object.contains_key(key) ==> is_texts(object[key])
}

/// Parameters are accepted exactly when every field that the method needs is
/// there and every field that it knows fits.
pub proof fn law_which_params_are_accepted(name: Seq<char>, object: Fields)
    ensures
        ({
            let accepted = wire_read(name, Json::Object(object)) is Ok;
            let pattern = object.contains_key("pattern"@) && object["pattern"@] is Text;
            let path = object.contains_key("path"@) && object["path"@] is Text;
            &&& name == "start"@ || name == "stop"@ || name == "kill"@ || name == "veto"@ || name
                == "restart"@ ==> (accepted <==> pattern)
            &&& name == "ls"@ || name == "up"@ || name == "down"@ ==> (accepted <==> may_be_text(
                object,
                "pattern"@,
            ))
            &&& name == "why"@ || name == "screen"@ ==> (accepted <==> path)
            &&& name == "shutdown"@ ==> accepted
            &&& name == "tui_attach"@ ==> (accepted <==> object.contains_key("width"@)
                && object.contains_key("height"@) && as_unsigned(
                object["width"@],
                65535,
            ) is Some && as_unsigned(object["height"@], 65535) is Some)
            &&& name == "spawn"@ ==> (accepted <==> path && object.contains_key("cmd"@)
                && may_be_texts(object, "cmd"@) && may_be_text(object, "cwd"@) && may_be_texts(
                object,
                "deps"@,
            ) && may_be_texts(object, "tags"@) && (object.contains_key("env"@) ==> object["env"@]
                is Null || is_env(object["env"@])))
        }),
{
    law_methods_by_name(name, Method::TuiAttach);
    law_methods_by_name(name, Method::Spawn);
    law_methods_by_name(name, Method::Ls);
    law_methods_by_name(name, Method::Up);
    law_methods_by_name(name, Method::Start);
    law_methods_by_name(name, Method::Stop);
    law_methods_by_name(name, Method::Down);
    law_methods_by_name(name, Method::Kill);
    law_methods_by_name(name, Method::Veto);
    law_methods_by_name(name, Method::Restart);
    law_methods_by_name(name, Method::Why);
    law_methods_by_name(name, Method::Screen);
    law_methods_by_name(name, Method::Shutdown);
}

// ---------------------------------------------------------------------------
// Results.
// ---------------------------------------------------------------------------

/// A count, a path and a screen travel each in one field of its own, and are
/// read from that field whatever else is there.
pub proof fn law_small_results_have_one_field(
    matched: usize,
    path: Seq<char>,
    content: Seq<char>,
    object: Fields,
)
    ensures
        act_json(matched) matches Json::Object(own) && own.dom() == set!["matched"@]
            && own["matched"@] == unsigned(matched as u64),
        spawn_json(path) matches Json::Object(own) && own.dom() == set!["path"@] && own["path"@]
            == Json::Text(path),
        screen_json(Some(content)) matches Json::Object(own) && own.dom() == set!["screen"@]
            && own["screen"@] == Json::Text(content),
        screen_json(None) matches Json::Object(own) && own.dom() == set!["screen"@]
            && own["screen"@] is Null,
        act_read(Json::Object(object.insert("matched"@, unsigned(matched as u64)))) == Read::<
            usize,
        >::Ok(matched),
        spawned_read(Json::Object(object.insert("path"@, Json::Text(path)))) == Read::<
            Seq<char>,
        >::Ok(path),
        screen_read(Json::Object(object.insert("screen"@, Json::Text(content)))) == Read::<
            Option<Seq<char>>,
        >::Ok(Some(content)),
        screen_read(Json::Object(object.insert("screen"@, Json::Null))) == Read::<
            Option<Seq<char>>,
        >::Ok(None),
{
    assert(no_fields().dom() =~= Set::empty());
    assert(act_json(matched)->Object_0.dom() =~= set!["matched"@]);
    assert(spawn_json(path)->Object_0.dom() =~= set!["path"@]);
    assert(screen_json(Some(content))->Object_0.dom() =~= set!["screen"@]);
    assert(screen_json(None)->Object_0.dom() =~= set!["screen"@]);
}

/// Whether the object says the state: its token, and the exit detail that there
/// is.
pub open spec fn bears_state(object: Fields, state: RpcState) -> bool {
    &&& object.contains_key("state"@) && object["state"@] == Json::Text(state.state@)
    &&& match state.exit_code {
        Some(code) => object.contains_key("exit_code"@) && object["exit_code"@] == signed(code),
        None => !object.contains_key("exit_code"@),
    }
    &&& match state.signal {
        Some(signal) => object.contains_key("signal"@) && object["signal"@] == signed(signal),
        None => !object.contains_key("signal"@),
    }
}

/// Whether the object says a flag.
pub open spec fn bears_flag(object: Fields, key: Seq<char>, flag: bool) -> bool {
    object.contains_key(key) && object[key] == Json::Bool(flag)
}

/// A listed task travels with its path and state, and with its label if it has
/// one.
pub proof fn law_listed_tasks_travel(info: RpcTaskInfo)
    ensures
        task_info_json(info.deep_view()) matches Json::Object(object) && {
            &&& object.contains_key("path"@) && object["path"@] == Json::Text(info.path@)
            &&& bears_state(object, info.state)
            &&& match info.label {
                Some(label) => object.contains_key("label"@) && object["label"@] == Json::Text(
                    label@,
                ),
                None => !object.contains_key("label"@),
            }
        },
{
    lemma_result_keys();
}

/// A task list travels as a list of its tasks, in order, under `tasks`.
pub proof fn law_task_lists_travel(tasks: Seq<TaskInfoView>, i: int)
    requires
        0 <= i < tasks.len(),
    ensures
        task_list_json(tasks) matches Json::Object(object) && object.dom() == set!["tasks"@] && (
        object["tasks"@] matches Json::List(items) && items.len() == tasks.len() && items[i]
            == task_info_json(tasks[i])),
{
    assert(no_fields().dom() =~= Set::empty());
    assert(task_list_json(tasks)->Object_0.dom() =~= set!["tasks"@]);
}

/// An explanation travels with each of its parts in a field of that part's name.
pub proof fn law_explanations_travel(why: RpcWhy)
    ensures
        why_json(why.deep_view()) matches Json::Object(object) && {
            &&& object.contains_key("path"@) && object["path"@] == Json::Text(why.path@)
            &&& bears_state(object, why.state)
            &&& bears_flag(object, "wanted"@, why.wanted)
            &&& bears_flag(object, "supported"@, why.supported)
            &&& bears_flag(object, "vetoed"@, why.vetoed)
            &&& bears_flag(object, "pinned"@, why.pinned)
            &&& object.contains_key("required_by"@) && lists(
                object["required_by"@],
                why.required_by@,
            )
            &&& object.contains_key("attempts"@) && object["attempts"@] == unsigned(
                why.attempts as u64,
            )
            &&& object.contains_key("deps"@) && (object["deps"@] matches Json::List(items)
                && items.len() == why.deps@.len() && forall|i: int|
                0 <= i < items.len() ==> #[trigger] items[i] == why_dep_json(
                    why.deps@[i].deep_view(),
                ))
        },
{
    lemma_result_keys();
    lemma_lists(why.required_by);
}

/// A dependency travels with each of its parts in a field of that part's name.
pub proof fn law_explained_deps_travel(dep: RpcWhyDep)
    ensures
        why_dep_json(dep.deep_view()) matches Json::Object(object) && {
            &&& object.contains_key("path"@) && object["path"@] == Json::Text(dep.path@)
            &&& bears_state(object, dep.state)
            &&& bears_flag(object, "wanted"@, dep.wanted)
            &&& bears_flag(object, "satisfied"@, dep.satisfied)
        },
{
    lemma_result_keys();
}

/// Whether an optional number was taken from a field: a field that is missing or
/// null gives none.
pub open spec fn taken_number(object: Fields, key: Seq<char>, number: Option<i32>) -> bool {
    match number {
        Some(n) => object.contains_key(key) && (as_i32(object[key]) matches Some(m) && (
        i32::MIN <= m <= i32::MAX ==> n == m)),
        None => object.contains_key(key) ==> object[key] is Null,
    }
}

/// Whether a state was taken from the object.
pub open spec fn taken_state(object: Fields, state: RpcState) -> bool {
    &&& object.contains_key("state"@) && object["state"@] == Json::Text(state.state@)
    &&& taken_number(object, "exit_code"@, state.exit_code)
    &&& taken_number(object, "signal"@, state.signal)
}

/// Each part of a listed task that was read comes from its own field.
pub proof fn law_listed_tasks_are_read_from_their_fields(object: Fields, info: RpcTaskInfo)
    requires
        read_view(Ok(info)) == task_info_read(Json::Object(object)),
    ensures
        taken(object, "path"@, Some(info.path)),
        taken(object, "label"@, info.label),
        taken_state(object, info.state),
{
}

/// Each part of a dependency that was read comes from its own field.
pub proof fn law_explained_deps_are_read_from_their_fields(object: Fields, dep: RpcWhyDep)
    requires
        read_view(Ok(dep)) == why_dep_read(Json::Object(object)),
    ensures
        taken(object, "path"@, Some(dep.path)),
        bears_flag(object, "wanted"@, dep.wanted),
        bears_flag(object, "satisfied"@, dep.satisfied),
        taken_state(object, dep.state),
{
}

/// Each part of an explanation that was read comes from its own field.
pub proof fn law_explanations_are_read_from_their_fields(object: Fields, why: RpcWhy)
    requires
        read_view(Ok(why)) == why_read(Json::Object(object)),
    ensures
        taken(object, "path"@, Some(why.path)),
        taken_state(object, why.state),
        bears_flag(object, "wanted"@, why.wanted),
        bears_flag(object, "supported"@, why.supported),
        bears_flag(object, "vetoed"@, why.vetoed),
        bears_flag(object, "pinned"@, why.pinned),
        object.contains_key("required_by"@) && lists(object["required_by"@], why.required_by@),
        object.contains_key("attempts"@) && object["attempts"@] == unsigned(why.attempts as u64),
        object.contains_key("deps"@) && (object["deps"@] matches Json::List(items)
            && why.deps@.len() == items.len() && forall|i: int|
            0 <= i < items.len() ==> why_dep_read(#[trigger] items[i]) == Read::<WhyDepView>::Ok(
                why.deps@[i].deep_view(),
            )),
{
    lemma_taken_list(object["required_by"@], why.required_by);
    let items = object["deps"@]->List_0;
    let read = |item: Json| why_dep_read(item);
    law_items_are_read_in_place(items, read);
    assert(why.deps.deep_view().len() == why.deps@.len());
    assert forall|i: int| 0 <= i < items.len() implies why_dep_read(#[trigger] items[i]) == Read::<
        WhyDepView,
    >::Ok(why.deps@[i].deep_view()) by {
        assert(read(items[i]) == Read::<WhyDepView>::Ok(why.deps.deep_view()[i]));
    }
}

/// A list is read item by item: it is accepted exactly when every item is, and
/// each item stands in its place.
pub proof fn law_items_are_read_in_place<T>(items: Seq<Json>, read: spec_fn(Json) -> Read<T>)
    ensures
        items_read(items, read) is Ok <==> forall|i: int|
            0 <= i < items.len() ==> read(#[trigger] items[i]) is Ok,
        items_read(items, read) matches Ok(out) ==> out.len() == items.len() && forall|i: int|
            0 <= i < items.len() ==> read(#[trigger] items[i]) == Read::<T>::Ok(out[i]),
    decreases items.len(),
{
    if items.len() > 0 {
        let before = items.drop_last();
        law_items_are_read_in_place(before, read);
        assert(items[items.len() - 1] == items.last());
        assert forall|i: int| 0 <= i < before.len() implies #[trigger] before[i] == items[i] by {}
        if items_read(items, read) is Ok {
            let out = items_read(items, read)->Ok_0;
            assert forall|i: int| 0 <= i < items.len() implies read(#[trigger] items[i]) == Read::<
                T,
            >::Ok(out[i]) by {
                if i < before.len() {
                    assert(before[i] == items[i]);
                }
            }
        } else if items_read(before, read) is Ok {
            assert(read(items[items.len() - 1]) is Err);
        } else {
            let bad = choose|i: int| 0 <= i < before.len() && read(#[trigger] before[i]) is Err;
            assert(read(items[bad]) is Err);
        }
    }
}

/// A task list is read from the list under `tasks`, task by task.
pub proof fn law_task_lists_are_read_in_place(object: Fields, infos: Seq<TaskInfoView>, i: int)
    requires
        task_list_read(Json::Object(object)) == Read::<Seq<TaskInfoView>>::Ok(infos),
        0 <= i < infos.len(),
    ensures
        object.contains_key("tasks"@) && (object["tasks"@] matches Json::List(items) && items.len()
            == infos.len() && task_info_read(items[i]) == Read::<TaskInfoView>::Ok(infos[i])),
{
    let items = object["tasks"@]->List_0;
    let read = |item: Json| task_info_read(item);
    law_items_are_read_in_place(items, read);
    assert(read(items[i]) == Read::<TaskInfoView>::Ok(infos[i]));
}

/// Whether a field is missing, null or a number that fits.
pub open spec fn may_be_number(object: Fields, key: Seq<char>) -> bool {
    object.contains_key(key) ==> object[key] is Null || as_i32(object[key]) is Some
}

/// Whether the object has a state that can be read.
pub open spec fn has_state(object: Fields) -> bool {
    &&& object.contains_key("state"@) && object["state"@] is Text
    &&& may_be_number(object, "exit_code"@)
    &&& may_be_number(object, "signal"@)
}

/// Whether the object has a flag.
pub open spec fn has_flag(object: Fields, key: Seq<char>) -> bool {
    object.contains_key(key) && object[key] is Bool
}

/// Results are accepted exactly when every part that they need is there and
/// every part fits.
pub proof fn law_which_results_are_accepted(object: Fields)
    ensures
        ({
            let value = Json::Object(object);
            let path = object.contains_key("path"@) && object["path"@] is Text;
            &&& act_read(value) is Ok <==> object.contains_key("matched"@) && as_unsigned(
                object["matched"@],
                usize::MAX as int,
            ) is Some
            &&& spawned_read(value) is Ok <==> path
            &&& screen_read(value) is Ok <==> may_be_text(object, "screen"@)
            &&& task_info_read(value) is Ok <==> path && may_be_text(object, "label"@)
                && has_state(object)
            &&& why_dep_read(value) is Ok <==> path && has_state(object) && has_flag(
                object,
                "wanted"@,
            ) && has_flag(object, "satisfied"@)
            &&& why_read(value) is Ok <==> path && has_state(object) && has_flag(object, "wanted"@)
                && has_flag(object, "supported"@) && has_flag(object, "vetoed"@) && has_flag(
                object,
                "pinned"@,
            ) && object.contains_key("required_by"@) && is_texts(object["required_by"@])
                && object.contains_key("attempts"@) && as_unsigned(
                object["attempts"@],
                4294967295,
            ) is Some && object.contains_key("deps"@) && why_deps_read(object["deps"@]) is Ok
        }),
{
}

/// A result with one part may also come as a list of that part alone.
pub proof fn law_single_parts_may_come_in_a_list(part: Json)
    ensures
        act_read(Json::List(seq![part])) == act_read(
            Json::Object(no_fields().insert("matched"@, part)),
        ),
        spawned_read(Json::List(seq![part])) == spawned_read(
            Json::Object(no_fields().insert("path"@, part)),
        ),
        screen_read(Json::List(seq![part])) == screen_read(
            Json::Object(no_fields().insert("screen"@, part)),
        ),
        task_list_read(Json::List(seq![part])) == task_list_read(
            Json::Object(no_fields().insert("tasks"@, part)),
        ),
{
}

/// A part that has to be there and is not is named in the refusal.
pub proof fn law_missing_parts_are_named(name: Seq<char>, object: Fields)
    ensures
        !object.contains_key("pattern"@) && (name == "start"@ || name == "stop"@ || name == "kill"@
            || name == "veto"@ || name == "restart"@) ==> (wire_read(name, Json::Object(object))
            matches Err(error) && error.message == "missing field `"@ + "pattern"@ + "`"@),
        !object.contains_key("path"@) && (name == "why"@ || name == "screen"@) ==> (wire_read(
            name,
            Json::Object(object),
        ) matches Err(error) && error.message == "missing field `"@ + "path"@ + "`"@),
        !object.contains_key("matched"@) ==> act_read(Json::Object(object)) == Read::<usize>::Err(
            "missing field `"@ + "matched"@ + "`"@,
        ),
        !object.contains_key("path"@) ==> spawned_read(Json::Object(object)) == Read::<
            Seq<char>,
        >::Err("missing field `"@ + "path"@ + "`"@),
        !object.contains_key("tasks"@) ==> task_list_read(Json::Object(object)) == Read::<
            Seq<TaskInfoView>,
        >::Err("missing field `"@ + "tasks"@ + "`"@),
{
    law_methods_by_name(name, Method::Start);
    law_methods_by_name(name, Method::Stop);
    law_methods_by_name(name, Method::Kill);
    law_methods_by_name(name, Method::Veto);
    law_methods_by_name(name, Method::Restart);
    law_methods_by_name(name, Method::Why);
    law_methods_by_name(name, Method::Screen);
}

/// Parameters that are neither an object nor left out are refused as what they
/// are, in place of what the method takes.
pub proof fn law_shapeless_params_are_refused(name: Seq<char>, params: Json)
    requires
        params !is Object,
        params !is Null,
    ensures
        name == "tui_attach"@ ==> refused_as(
            name,
            params,
            "struct variant RpcRequest::TuiAttach"@,
        ),
        name == "spawn"@ ==> refused_as(
            name,
            params,
            "struct variant RpcRequest::Spawn"@,
        ),
        name == "ls"@ ==> refused_as(
            name,
            params,
            "struct variant RpcRequest::Ls"@,
        ),
        name == "up"@ ==> refused_as(
            name,
            params,
            "struct variant RpcRequest::Up"@,
        ),
        name == "start"@ ==> refused_as(
            name,
            params,
            "struct variant RpcRequest::Start"@,
        ),
        name == "stop"@ ==> refused_as(
            name,
            params,
            "struct variant RpcRequest::Stop"@,
        ),
        name == "down"@ ==> refused_as(
            name,
            params,
            "struct variant RpcRequest::Down"@,
        ),
        name == "kill"@ ==> refused_as(
            name,
            params,
            "struct variant RpcRequest::Kill"@,
        ),
        name == "veto"@ ==> refused_as(
            name,
            params,
            "struct variant RpcRequest::Veto"@,
        ),
        name == "restart"@ ==> refused_as(
            name,
            params,
            "struct variant RpcRequest::Restart"@,
        ),
        name == "why"@ ==> refused_as(
            name,
            params,
            "struct variant RpcRequest::Why"@,
        ),
        name == "screen"@ ==> refused_as(
            name,
            params,
            "struct variant RpcRequest::Screen"@,
        ),
        name == "shutdown"@ ==> refused_as(
            name,
            params,
            "struct variant RpcRequest::Shutdown"@,
        ),
{
    law_methods_by_name(name, Method::TuiAttach);
    law_methods_by_name(name, Method::Spawn);
    law_methods_by_name(name, Method::Ls);
    law_methods_by_name(name, Method::Up);
    law_methods_by_name(name, Method::Start);
    law_methods_by_name(name, Method::Stop);
    law_methods_by_name(name, Method::Down);
    law_methods_by_name(name, Method::Kill);
    law_methods_by_name(name, Method::Veto);
    law_methods_by_name(name, Method::Restart);
    law_methods_by_name(name, Method::Why);
    law_methods_by_name(name, Method::Screen);
    law_methods_by_name(name, Method::Shutdown);
}

/// Whether the parameters are refused for their shape.
pub open spec fn refused_as(name: Seq<char>, params: Json, expected: Seq<char>) -> bool {
    wire_read(name, params) matches Err(error) && error.code == ErrorCode::InvalidParams
        && error.message == shape_refusal(params, expected)
}

/// A result that is neither an object nor, where it has one part, a list is
/// refused as what it is, in place of what was expected.
pub proof fn law_shapeless_results_are_refused(value: Json)
    requires
        value !is Object,
    ensures
        value !is List ==> act_read(value) == Read::<usize>::Err(
            shape_refusal(value, "struct ActResult"@),
        ),
        value !is List ==> spawned_read(value) == Read::<Seq<char>>::Err(
            shape_refusal(value, "struct SpawnResult"@),
        ),
        value !is List ==> screen_read(value) == Read::<Option<Seq<char>>>::Err(
            shape_refusal(value, "struct ScreenResult"@),
        ),
        value !is List ==> task_list_read(value) == Read::<Seq<TaskInfoView>>::Err(
            shape_refusal(value, "struct TaskListResult"@),
        ),
        task_info_read(value) == Read::<TaskInfoView>::Err(
            shape_refusal(value, "struct RpcTaskInfo"@),
        ),
        why_dep_read(value) == Read::<WhyDepView>::Err(shape_refusal(value, "struct RpcWhyDep"@)),
        why_read(value) == Read::<WhyView>::Err(shape_refusal(value, "struct RpcWhy"@)),
{
}

/// A list of another length than one is refused by its length.
pub proof fn law_lists_of_another_length_are_refused(items: Seq<Json>)
    ensures
        items.len() == 0 ==> act_read(Json::List(items)) == Read::<usize>::Err(
            "invalid length "@ + decimal(0) + ", expected "@ + ("struct ActResult"@
                + " with 1 element"@),
        ),
        items.len() == 0 ==> spawned_read(Json::List(items)) == Read::<Seq<char>>::Err(
            "invalid length "@ + decimal(0) + ", expected "@ + ("struct SpawnResult"@
                + " with 1 element"@),
        ),
        items.len() > 1 ==> act_read(Json::List(items)) is Err,
        items.len() > 1 ==> spawned_read(Json::List(items)) is Err,
        items.len() > 1 ==> screen_read(Json::List(items)) is Err,
        items.len() > 1 && items[0] is Text ==> spawned_read(Json::List(items)) == Read::<
            Seq<char>,
        >::Err(
            "invalid length "@ + decimal(items.len()) + ", expected "@
                + "fewer elements in array"@,
        ),
{
}

} // verus!
