//! What holds of the protocol as a whole.

use super::ctl::{ErrorCode, ErrorView};
use super::request::{
    all_methods, fields_read, method_named, method_names, method_of, params_read, request_fields,
    request_params, spawn_read, unknown_method, wire_read, Method, RequestView,
};
use super::results::{
    act_json, act_read, items_read, screen_json, screen_read, spawn_json, spawned_read, state_read,
    task_info_json, task_info_read, task_infos_read, task_list_json, task_list_read, why_dep_json,
    why_dep_read, why_deps_json, why_deps_read, why_json, why_parts_read, why_read, with_state,
    StateView, TaskInfoView, WhyDepView, WhyView,
};
use crate::codec::{
    env_field, env_json, list_field, maybe_env_read, maybe_field, maybe_text_json, maybe_text_read,
    texts_json, texts_read, with_field, Fields, Read,
};
use crate::json::{env_of, is_env, is_texts, no_fields, texts_of, unsigned, EnvMap, Json};
use vstd::prelude::*;

verus! {

/// The method names differ from one another.
proof fn lemma_names_differ()
    ensures
        forall|left: Method, right: Method|
            left.wire_name() == right.wire_name() ==> left == right,
{
    reveal_strlit("tui_attach");
    reveal_strlit("spawn");
    reveal_strlit("ls");
    reveal_strlit("up");
    reveal_strlit("start");
    reveal_strlit("stop");
    reveal_strlit("down");
    reveal_strlit("kill");
    reveal_strlit("veto");
    reveal_strlit("restart");
    reveal_strlit("why");
    reveal_strlit("screen");
    reveal_strlit("shutdown");
    assert("spawn"@[1] != "start"@[1]);
    assert("ls"@[0] != "up"@[0]);
    assert("stop"@[0] == 's' && "down"@[0] == 'd' && "kill"@[0] == 'k' && "veto"@[0] == 'v');
    assert forall|left: Method, right: Method|
        left.wire_name() == right.wire_name() implies left == right by {
        assert(left.wire_name().len() == right.wire_name().len());
        assert(left.wire_name()[0] == right.wire_name()[0]);
        assert(left.wire_name()[1] == right.wire_name()[1]);
    }
}

/// A method is found under its name, and under no other.
pub proof fn law_methods_by_name(name: Seq<char>, method: Method)
    ensures
        method_named(name) == Some(method) <==> name == method.wire_name(),
{
    lemma_names_differ();
    assert(Method::TuiAttach.wire_name() == "tui_attach"@);
    assert(Method::Spawn.wire_name() == "spawn"@);
    assert(Method::Ls.wire_name() == "ls"@);
    assert(Method::Up.wire_name() == "up"@);
    assert(Method::Start.wire_name() == "start"@);
    assert(Method::Stop.wire_name() == "stop"@);
    assert(Method::Down.wire_name() == "down"@);
    assert(Method::Kill.wire_name() == "kill"@);
    assert(Method::Veto.wire_name() == "veto"@);
    assert(Method::Restart.wire_name() == "restart"@);
    assert(Method::Why.wire_name() == "why"@);
    assert(Method::Screen.wire_name() == "screen"@);
    assert(Method::Shutdown.wire_name() == "shutdown"@);
}

/// The list of methods and the requests are in step: every request travels
/// under a listed name, every listed name is that of some request, and no name
/// is listed twice.
pub proof fn law_methods_match_requests()
    ensures
        forall|request: RequestView|
            method_names().contains(#[trigger] method_of(request).wire_name()),
        forall|name: Seq<char>| #[trigger]
            method_names().contains(name) ==> exists|request: RequestView|
                (#[trigger] method_of(request)).wire_name() == name,
        forall|name: Seq<char>| #[trigger]
            method_names().contains(name) <==> method_named(name) is Some,
        method_names().no_duplicates(),
{
    lemma_names_differ();
    assert forall|method: Method| method_names().contains(#[trigger] method.wire_name()) by {
        lemma_method_listed(method);
    }
    assert forall|name: Seq<char>| #[trigger]
        method_names().contains(name) <==> method_named(name) is Some by {
        if method_names().contains(name) {
            let i = method_names().index_of(name);
            law_methods_by_name(name, all_methods()[i]);
        }
        if method_named(name) is Some {
            law_methods_by_name(name, method_named(name)->0);
        }
    }
    assert forall|name: Seq<char>| #[trigger] method_names().contains(name) implies exists|
        request: RequestView,
    | (#[trigger] method_of(request)).wire_name() == name by {
        let i = method_names().index_of(name);
        let method = all_methods()[i];
        assert(method.wire_name() == name);
        let request = sample(method);
        assert(method_of(request).wire_name() == name);
    }
    assert forall|i: int, j: int|
        0 <= i < method_names().len() && 0 <= j < method_names().len() && i
            != j implies method_names()[i] != method_names()[j] by {
        assert(all_methods()[i] != all_methods()[j]);
    }
}

proof fn lemma_method_listed(method: Method)
    ensures
        method_names().contains(method.wire_name()),
{
    let names = method_names();
    let i: int = match method {
        Method::TuiAttach => 0,
        Method::Spawn => 1,
        Method::Ls => 2,
        Method::Up => 3,
        Method::Start => 4,
        Method::Stop => 5,
        Method::Down => 6,
        Method::Kill => 7,
        Method::Veto => 8,
        Method::Restart => 9,
        Method::Why => 10,
        Method::Screen => 11,
        Method::Shutdown => 12,
    };
    assert(names[i] == method.wire_name());
}

/// Some request of the method.
spec fn sample(method: Method) -> RequestView {
    let text = Seq::<char>::empty();
    match method {
        Method::TuiAttach => RequestView::TuiAttach { width: 0, height: 0 },
        Method::Spawn => RequestView::Spawn {
            path: text,
            cmd: Seq::empty(),
            cwd: None,
            env: None,
            deps: Seq::empty(),
            tags: Seq::empty(),
        },
        Method::Ls => RequestView::Ls { pattern: None },
        Method::Up => RequestView::Up { pattern: None },
        Method::Start => RequestView::Start { pattern: text },
        Method::Stop => RequestView::Stop { pattern: text },
        Method::Down => RequestView::Down { pattern: None },
        Method::Kill => RequestView::Kill { pattern: text },
        Method::Veto => RequestView::Veto { pattern: text },
        Method::Restart => RequestView::Restart { pattern: text },
        Method::Why => RequestView::Why { path: text },
        Method::Screen => RequestView::Screen { path: text },
        Method::Shutdown => RequestView::Shutdown {  },
    }
}

/// A request is refused as an unknown method exactly when its name is not
/// listed, whatever its parameters; every other refusal is about the
/// parameters.
pub proof fn law_unknown_methods(name: Seq<char>, params: Json)
    ensures
        !method_names().contains(name) ==> wire_read(name, params) == Result::<
            RequestView,
            ErrorView,
        >::Err(ErrorView { code: ErrorCode::UnknownMethod, message: unknown_method(name) }),
        method_names().contains(name) ==> {
            ||| wire_read(name, params) is Ok
            ||| wire_read(name, params)->Err_0.code == ErrorCode::InvalidParams
        },
{
    law_methods_match_requests();
}

/// Leaving the parameters out is the same as sending an object without fields.
pub proof fn law_missing_params(name: Seq<char>)
    ensures
        wire_read(name, Json::Null) == wire_read(name, Json::Object(no_fields())),
{
}

/// The names of the fields that a method's parameters may have.
pub open spec fn known_fields(method: Method) -> Set<Seq<char>> {
    match method {
        Method::TuiAttach => set!["width"@, "height"@],
        Method::Spawn => set!["path"@, "cmd"@, "cwd"@, "env"@, "deps"@, "tags"@],
        Method::Why | Method::Screen => set!["path"@],
        Method::Shutdown => set![],
        _ => set!["pattern"@],
    }
}

/// A field that the method does not know makes no difference.
pub proof fn law_unknown_fields(method: Method, object: Fields, key: Seq<char>, value: Json)
    requires
        !known_fields(method).contains(key),
    ensures
        wire_read(method.wire_name(), Json::Object(object.insert(key, value))) == wire_read(
            method.wire_name(),
            Json::Object(object),
        ),
{
    law_methods_by_name(method.wire_name(), method);
    let more = object.insert(key, value);
    assert(forall|known: Seq<char>| #[trigger]
        known_fields(method).contains(known) ==> (more.contains_key(known)
            <==> object.contains_key(known)) && (object.contains_key(known) ==> more[known]
            == object[known]));
    match method {
        Method::TuiAttach => {
            assert(known_fields(method).contains("width"@));
            assert(known_fields(method).contains("height"@));
        },
        Method::Spawn => {
            assert(known_fields(method).contains("path"@));
            assert(known_fields(method).contains("cmd"@));
            assert(known_fields(method).contains("cwd"@));
            assert(known_fields(method).contains("env"@));
            assert(known_fields(method).contains("deps"@));
            assert(known_fields(method).contains("tags"@));
        },
        Method::Why | Method::Screen => {
            assert(known_fields(method).contains("path"@));
        },
        Method::Shutdown => {},
        _ => {
            assert(known_fields(method).contains("pattern"@));
        },
    }
    assert(fields_read(method, more) == fields_read(method, object));
}

proof fn lemma_texts(texts: Seq<Seq<char>>)
    ensures
        texts_read(texts_json(texts)) == Read::<Seq<Seq<char>>>::Ok(texts),
{
    assert(is_texts(texts_json(texts)));
    assert(texts_of(texts_json(texts)) =~= texts);
}

proof fn lemma_env(env: EnvMap)
    ensures
        maybe_env_read(env_json(env)) == Read::<Option<EnvMap>>::Ok(Some(env)),
{
    assert(is_env(env_json(env)));
    assert(env_of(env_json(env)) =~= env);
}

/// The fields of a spawn are those that went in.
pub(crate) proof fn lemma_spawn_fields(request: RequestView)
    requires
        request is Spawn,
    ensures
        ({
            let object = request_fields(request);
            &&& object.contains_key("path"@)
            &&& object["path"@] == Json::Text(request->Spawn_path)
            &&& object.contains_key("cmd"@)
            &&& object["cmd"@] == texts_json(request->Spawn_cmd)
            &&& match maybe_field(request->cwd) {
                Some(cwd) => object.contains_key("cwd"@) && object["cwd"@] == cwd,
                None => !object.contains_key("cwd"@),
            }
            &&& match env_field(request->env) {
                Some(env) => object.contains_key("env"@) && object["env"@] == env,
                None => !object.contains_key("env"@),
            }
            &&& match list_field(request->deps) {
                Some(deps) => object.contains_key("deps"@) && object["deps"@] == deps,
                None => !object.contains_key("deps"@),
            }
            &&& match list_field(request->tags) {
                Some(tags) => object.contains_key("tags"@) && object["tags"@] == tags,
                None => !object.contains_key("tags"@),
            }
        }),
{
    reveal_strlit("path");
    reveal_strlit("cmd");
    reveal_strlit("cwd");
    reveal_strlit("env");
    reveal_strlit("deps");
    reveal_strlit("tags");
    assert("path"@[0] == 'p' && "deps"@[0] == 'd' && "tags"@[0] == 't');
    assert("cmd"@[1] == 'm' && "cwd"@[1] == 'w' && "env"@[1] == 'n');
    assert("path"@.len() == 4 && "cmd"@.len() == 3);
}

pub(crate) proof fn lemma_size_fields(width: u16, height: u16)
    ensures
        ({
            let object = request_fields(RequestView::TuiAttach { width, height });
            &&& object.contains_key("width"@)
            &&& object["width"@] == unsigned(width as u64)
            &&& object.contains_key("height"@)
            &&& object["height"@] == unsigned(height as u64)
        }),
{
    reveal_strlit("width");
    reveal_strlit("height");
    assert("width"@.len() != "height"@.len());
}

/// What was sent is what is read: a request comes back from its wire form as
/// it went in.
pub proof fn law_request_round_trip(request: RequestView)
    ensures
        wire_read(method_of(request).wire_name(), request_params(request)) == Result::<
            RequestView,
            ErrorView,
        >::Ok(request),
{
    let method = method_of(request);
    let object = request_fields(request);
    law_methods_by_name(method.wire_name(), method);
    assert(params_read(method, request_params(request)) == Read::<Fields>::Ok(object));
    match request {
        RequestView::TuiAttach { width, height } => {
            lemma_size_fields(width, height);
        },
        RequestView::Spawn { path, cmd, cwd, env, deps, tags } => {
            lemma_spawn_fields(request);
            lemma_texts(cmd);
            lemma_texts(deps);
            lemma_texts(tags);
            if env is Some {
                lemma_env(env->0);
            }
            assert(deps.len() == 0 ==> deps =~= Seq::<Seq<char>>::empty());
            assert(tags.len() == 0 ==> tags =~= Seq::<Seq<char>>::empty());
            assert(spawn_read(object) == Read::<RequestView>::Ok(request));
        },
        _ => {},
    }
    assert(fields_read(method, object) == Read::<RequestView>::Ok(request));
}

/// The keys of the results differ from one another.
pub(crate) proof fn lemma_result_keys()
    ensures
        "path"@.len() == 4 && "deps"@.len() == 4 && "path"@[0] != "deps"@[0],
        "state"@.len() == 5 && "label"@.len() == 5 && "state"@[0] != "label"@[0],
        "exit_code"@.len() == 9 && "supported"@.len() == 9 && "satisfied"@.len() == 9,
        "exit_code"@[1] == 'x' && "supported"@[1] == 'u' && "satisfied"@[1] == 'a',
        "signal"@.len() == 6 && "wanted"@.len() == 6 && "vetoed"@.len() == 6 && "pinned"@.len()
            == 6,
        "signal"@[0] == 's' && "wanted"@[0] == 'w' && "vetoed"@[0] == 'v' && "pinned"@[0] == 'p',
        "attempts"@.len() == 8,
        "required_by"@.len() == 11,
{
    reveal_strlit("path");
    reveal_strlit("deps");
    reveal_strlit("state");
    reveal_strlit("label");
    reveal_strlit("exit_code");
    reveal_strlit("supported");
    reveal_strlit("satisfied");
    reveal_strlit("signal");
    reveal_strlit("wanted");
    reveal_strlit("vetoed");
    reveal_strlit("pinned");
    reveal_strlit("attempts");
    reveal_strlit("required_by");
}

/// The count of a selector verb is read as it was written.
pub proof fn law_act_round_trip(matched: usize)
    ensures
        act_read(act_json(matched)) == Read::<usize>::Ok(matched),
{
}

/// The path of a spawned task is read as it was written.
pub proof fn law_spawn_round_trip(path: Seq<char>)
    ensures
        spawned_read(spawn_json(path)) == Read::<Seq<char>>::Ok(path),
{
}

/// A screen is read as it was written, and so is that there is none.
pub proof fn law_screen_round_trip(screen: Option<Seq<char>>)
    ensures
        screen_read(screen_json(screen)) == Read::<Option<Seq<char>>>::Ok(screen),
{
    assert(maybe_text_read(maybe_text_json(screen)) == Read::<Option<Seq<char>>>::Ok(screen));
}

/// A state is read from among the fields of the object that it was written
/// into.
proof fn lemma_state(object: Fields, state: StateView)
    requires
        !object.contains_key("state"@),
        !object.contains_key("exit_code"@),
        !object.contains_key("signal"@),
    ensures
        state_read(with_state(object, state)) == Read::<StateView>::Ok(state),
{
    lemma_result_keys();
}

/// Fields that a state does not have make no difference to it.
proof fn lemma_state_apart(object: Fields, key: Seq<char>, value: Json)
    requires
        key != "state"@,
        key != "exit_code"@,
        key != "signal"@,
    ensures
        state_read(object.insert(key, value)) == state_read(object),
{
}

proof fn lemma_task_info(info: TaskInfoView)
    ensures
        task_info_read(task_info_json(info)) == Read::<TaskInfoView>::Ok(info),
{
    lemma_result_keys();
    let object = with_field(
        no_fields().insert("path"@, Json::Text(info.path)),
        "label"@,
        maybe_field(info.label),
    );
    lemma_state(object, info.state);
}

/// Reading back a list of things, each of which reads back.
proof fn lemma_items<T>(
    things: Seq<T>,
    write: spec_fn(T) -> Json,
    read: spec_fn(Json) -> Read<T>,
)
    requires
        forall|thing: T| read(#[trigger] write(thing)) == Read::<T>::Ok(thing),
    ensures
        items_read(Seq::new(things.len(), |i: int| write(things[i])), read) == Read::<
            Seq<T>,
        >::Ok(things),
    decreases things.len(),
{
    let items = Seq::new(things.len(), |i: int| write(things[i]));
    if things.len() == 0 {
        assert(things =~= Seq::<T>::empty());
    } else {
        let before = things.drop_last();
        lemma_items(before, write, read);
        assert(items.drop_last() =~= Seq::new(before.len(), |i: int| write(before[i])));
        assert(items.last() == write(things.last()));
        assert(before.push(things.last()) =~= things);
    }
}

/// A task list is read as it was written.
pub proof fn law_task_list_round_trip(tasks: Seq<TaskInfoView>)
    ensures
        task_list_read(task_list_json(tasks)) == Read::<Seq<TaskInfoView>>::Ok(tasks),
{
    let write = |info: TaskInfoView| task_info_json(info);
    let read = |item: Json| task_info_read(item);
    assert forall|info: TaskInfoView| read(#[trigger] write(info)) == Read::<
        TaskInfoView,
    >::Ok(info) by {
        lemma_task_info(info);
    }
    lemma_items(tasks, write, read);
    let items = Seq::new(tasks.len(), |i: int| task_info_json(tasks[i]));
    assert(items =~= Seq::new(tasks.len(), |i: int| write(tasks[i])));
    assert(task_infos_read(Json::List(items)) == Read::<Seq<TaskInfoView>>::Ok(tasks));
}

proof fn lemma_why_dep(dep: WhyDepView)
    ensures
        why_dep_read(why_dep_json(dep)) == Read::<WhyDepView>::Ok(dep),
{
    lemma_result_keys();
    let object = no_fields().insert("path"@, Json::Text(dep.path));
    lemma_state(object, dep.state);
    let object = with_state(object, dep.state);
    lemma_state_apart(object, "wanted"@, Json::Bool(dep.wanted));
    let object = object.insert("wanted"@, Json::Bool(dep.wanted));
    lemma_state_apart(object, "satisfied"@, Json::Bool(dep.satisfied));
}

proof fn lemma_why_deps(deps: Seq<WhyDepView>)
    ensures
        why_deps_read(why_deps_json(deps)) == Read::<Seq<WhyDepView>>::Ok(deps),
{
    let write = |dep: WhyDepView| why_dep_json(dep);
    let read = |item: Json| why_dep_read(item);
    assert forall|dep: WhyDepView| read(#[trigger] write(dep)) == Read::<WhyDepView>::Ok(
        dep,
    ) by {
        lemma_why_dep(dep);
    }
    lemma_items(deps, write, read);
    let items = Seq::new(deps.len(), |i: int| why_dep_json(deps[i]));
    assert(items =~= Seq::new(deps.len(), |i: int| write(deps[i])));
}

/// An explanation is read as it was written.
pub proof fn law_why_round_trip(why: WhyView)
    ensures
        why_read(why_json(why)) == Read::<WhyView>::Ok(why),
{
    lemma_result_keys();
    lemma_why_deps(why.deps);
    lemma_texts(why.required_by);
    let object = no_fields().insert("path"@, Json::Text(why.path));
    lemma_state(object, why.state);
    let object = with_state(object, why.state);
    lemma_state_apart(object, "wanted"@, Json::Bool(why.wanted));
    let object = object.insert("wanted"@, Json::Bool(why.wanted));
    lemma_state_apart(object, "supported"@, Json::Bool(why.supported));
    let object = object.insert("supported"@, Json::Bool(why.supported));
    lemma_state_apart(object, "vetoed"@, Json::Bool(why.vetoed));
    let object = object.insert("vetoed"@, Json::Bool(why.vetoed));
    lemma_state_apart(object, "pinned"@, Json::Bool(why.pinned));
    let object = object.insert("pinned"@, Json::Bool(why.pinned));
    lemma_state_apart(object, "required_by"@, texts_json(why.required_by));
    let object = object.insert("required_by"@, texts_json(why.required_by));
    lemma_state_apart(object, "deps"@, why_deps_json(why.deps));
    let object = object.insert("deps"@, why_deps_json(why.deps));
    lemma_state_apart(object, "attempts"@, unsigned(why.attempts as u64));
    let object = object.insert("attempts"@, unsigned(why.attempts as u64));
    assert(why_json(why) == Json::Object(object));
    assert(why_parts_read(object) is Ok);
}

} // verus!
