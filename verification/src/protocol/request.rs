//! Requests of the control protocol and their wire form.
//!
//! On the wire a request is a method name and a parameter value. The name says
//! which variant of [`RpcRequest`] is meant, and the parameters are an object
//! with one field for each of the variant's fields. Fields that are absent or
//! empty are left out, and an object without fields travels as null.

use super::ctl::{ErrorCode, ErrorView, RpcError};
use crate::codec::{
    env_ascends, env_field, get_maybe_env, get_maybe_text, get_text, get_texts, get_u16, list_field,
    maybe_env_field_read, maybe_env_view, maybe_field, maybe_text_field_read, missing,
    missing_message, object_read, open_object, put_list, put_maybe_env, put_maybe_text, put_text,
    text_field_read, texts_field_read, texts_json, texts_value, u16_field_read, with_field, Fields,
    Read,
};
use crate::json::{
    fields, has_no_fields, is_null, json, new_object, no_fields, null_value, object_value, put,
    unsigned, unsigned_value, EnvMap, Json,
};
use crate::text::text_eq;
use indexmap::IndexMap;
use serde_json::Value;
use vstd::prelude::*;
use vstd::string::*;

verus! {

/// A request to the server.
#[derive(Clone, Debug, PartialEq)]
pub enum RpcRequest {
    TuiAttach { width: u16, height: u16 },
    /// Register a task at a path and start it. `deps` are paths that must
    /// already exist.
    Spawn {
        path: String,
        cmd: Vec<String>,
        cwd: Option<String>,
        env: Option<IndexMap<String, Option<String>>>,
        deps: Vec<String>,
        tags: Vec<String>,
    },
    Ls { pattern: Option<String> },
    /// Pin matching tasks to init and start them. Without a pattern, start
    /// autostart tasks.
    Up { pattern: Option<String> },
    /// Pin matching tasks to init and start them.
    ///
    /// All pattern verbs resolve the pattern and act on the matches in a single
    /// kernel dispatch.
    Start { pattern: String },
    /// Unpin matching tasks and stop their running instances; each comes back
    /// if something still wants it.
    Stop { pattern: String },
    /// Unpin matching tasks; each stops only if nothing else wants it. Without
    /// a pattern, unpin every task.
    Down { pattern: Option<String> },
    /// Like `Stop` but with an immediate hard kill.
    Kill { pattern: String },
    /// Veto matching tasks: they stay down until started again.
    Veto { pattern: String },
    Restart { pattern: String },
    /// Explain why a task is (not) running.
    Why { path: String },
    Screen { path: String },
    Shutdown {},
}

/// The mathematical content of an [`RpcRequest`]. An environment counts as the
/// mapping that it makes, whatever the order of its entries.
pub enum RequestView {
    TuiAttach { width: u16, height: u16 },
    Spawn {
        path: Seq<char>,
        cmd: Seq<Seq<char>>,
        cwd: Option<Seq<char>>,
        env: Option<EnvMap>,
        deps: Seq<Seq<char>>,
        tags: Seq<Seq<char>>,
    },
    Ls { pattern: Option<Seq<char>> },
    Up { pattern: Option<Seq<char>> },
    Start { pattern: Seq<char> },
    Stop { pattern: Seq<char> },
    Down { pattern: Option<Seq<char>> },
    Kill { pattern: Seq<char> },
    Veto { pattern: Seq<char> },
    Restart { pattern: Seq<char> },
    Why { path: Seq<char> },
    Screen { path: Seq<char> },
    Shutdown {},
}

impl View for RpcRequest {
    type V = RequestView;

    open spec fn view(&self) -> RequestView {
        match *self {
            RpcRequest::TuiAttach { width, height } => RequestView::TuiAttach { width, height },
            RpcRequest::Spawn { path, cmd, cwd, env, deps, tags } => RequestView::Spawn {
                path: path@,
                cmd: cmd.deep_view(),
                cwd: cwd.deep_view(),
                env: maybe_env_view(env),
                deps: deps.deep_view(),
                tags: tags.deep_view(),
            },
            RpcRequest::Ls { pattern } => RequestView::Ls { pattern: pattern.deep_view() },
            RpcRequest::Up { pattern } => RequestView::Up { pattern: pattern.deep_view() },
            RpcRequest::Start { pattern } => RequestView::Start { pattern: pattern@ },
            RpcRequest::Stop { pattern } => RequestView::Stop { pattern: pattern@ },
            RpcRequest::Down { pattern } => RequestView::Down { pattern: pattern.deep_view() },
            RpcRequest::Kill { pattern } => RequestView::Kill { pattern: pattern@ },
            RpcRequest::Veto { pattern } => RequestView::Veto { pattern: pattern@ },
            RpcRequest::Restart { pattern } => RequestView::Restart { pattern: pattern@ },
            RpcRequest::Why { path } => RequestView::Why { path: path@ },
            RpcRequest::Screen { path } => RequestView::Screen { path: path@ },
            RpcRequest::Shutdown {  } => RequestView::Shutdown {  },
        }
    }
}

/// A method of the protocol: which variant of [`RpcRequest`] a request is.
#[derive(Clone, Copy, Debug, PartialEq, Eq, Structural)]
pub enum Method {
    TuiAttach,
    Spawn,
    Ls,
    Up,
    Start,
    Stop,
    Down,
    Kill,
    Veto,
    Restart,
    Why,
    Screen,
    Shutdown,
}

impl Method {
    /// The method's name on the wire.
    pub open spec fn wire_name(self) -> Seq<char> {
        match self {
            Method::TuiAttach => "tui_attach"@,
            Method::Spawn => "spawn"@,
            Method::Ls => "ls"@,
            Method::Up => "up"@,
            Method::Start => "start"@,
            Method::Stop => "stop"@,
            Method::Down => "down"@,
            Method::Kill => "kill"@,
            Method::Veto => "veto"@,
            Method::Restart => "restart"@,
            Method::Why => "why"@,
            Method::Screen => "screen"@,
            Method::Shutdown => "shutdown"@,
        }
    }

    /// How a refusal of parameters that are no object names what it expected.
    pub open spec fn expected(self) -> Seq<char> {
        match self {
            Method::TuiAttach => "struct variant RpcRequest::TuiAttach"@,
            Method::Spawn => "struct variant RpcRequest::Spawn"@,
            Method::Ls => "struct variant RpcRequest::Ls"@,
            Method::Up => "struct variant RpcRequest::Up"@,
            Method::Start => "struct variant RpcRequest::Start"@,
            Method::Stop => "struct variant RpcRequest::Stop"@,
            Method::Down => "struct variant RpcRequest::Down"@,
            Method::Kill => "struct variant RpcRequest::Kill"@,
            Method::Veto => "struct variant RpcRequest::Veto"@,
            Method::Restart => "struct variant RpcRequest::Restart"@,
            Method::Why => "struct variant RpcRequest::Why"@,
            Method::Screen => "struct variant RpcRequest::Screen"@,
            Method::Shutdown => "struct variant RpcRequest::Shutdown"@,
        }
    }

    /// The method's name on the wire.
    pub fn name(self) -> (name: &'static str)
        ensures
            name@ == self.wire_name(),
    {
        match self {
            Method::TuiAttach => "tui_attach",
            Method::Spawn => "spawn",
            Method::Ls => "ls",
            Method::Up => "up",
            Method::Start => "start",
            Method::Stop => "stop",
            Method::Down => "down",
            Method::Kill => "kill",
            Method::Veto => "veto",
            Method::Restart => "restart",
            Method::Why => "why",
            Method::Screen => "screen",
            Method::Shutdown => "shutdown",
        }
    }

    fn expectation(self) -> (expected: &'static str)
        ensures
            expected@ == self.expected(),
    {
        match self {
            Method::TuiAttach => "struct variant RpcRequest::TuiAttach",
            Method::Spawn => "struct variant RpcRequest::Spawn",
            Method::Ls => "struct variant RpcRequest::Ls",
            Method::Up => "struct variant RpcRequest::Up",
            Method::Start => "struct variant RpcRequest::Start",
            Method::Stop => "struct variant RpcRequest::Stop",
            Method::Down => "struct variant RpcRequest::Down",
            Method::Kill => "struct variant RpcRequest::Kill",
            Method::Veto => "struct variant RpcRequest::Veto",
            Method::Restart => "struct variant RpcRequest::Restart",
            Method::Why => "struct variant RpcRequest::Why",
            Method::Screen => "struct variant RpcRequest::Screen",
            Method::Shutdown => "struct variant RpcRequest::Shutdown",
        }
    }

    /// The method with the given name, if there is one.
    pub fn parse(name: &str) -> (method: Option<Method>)
        ensures
            method == method_named(name@),
    {

        if text_eq(name, "tui_attach") {
            Some(Method::TuiAttach)
        } else if text_eq(name, "spawn") {
            Some(Method::Spawn)
        } else if text_eq(name, "ls") {
            Some(Method::Ls)
        } else if text_eq(name, "up") {
            Some(Method::Up)
        } else if text_eq(name, "start") {
            Some(Method::Start)
        } else if text_eq(name, "stop") {
            Some(Method::Stop)
        } else if text_eq(name, "down") {
            Some(Method::Down)
        } else if text_eq(name, "kill") {
            Some(Method::Kill)
        } else if text_eq(name, "veto") {
            Some(Method::Veto)
        } else if text_eq(name, "restart") {
            Some(Method::Restart)
        } else if text_eq(name, "why") {
            Some(Method::Why)
        } else if text_eq(name, "screen") {
            Some(Method::Screen)
        } else if text_eq(name, "shutdown") {
            Some(Method::Shutdown)
        } else {
            None
        }
    }
}

/// All methods, in the order of the protocol's documentation.
pub open spec fn all_methods() -> Seq<Method> {
    seq![
        Method::TuiAttach,
        Method::Spawn,
        Method::Ls,
        Method::Up,
        Method::Start,
        Method::Stop,
        Method::Down,
        Method::Kill,
        Method::Veto,
        Method::Restart,
        Method::Why,
        Method::Screen,
        Method::Shutdown,
    ]
}

/// The names of all methods.
pub open spec fn method_names() -> Seq<Seq<char>> {
    all_methods().map_values(|method: Method| method.wire_name())
}

/// The method with the given name, if there is one.
pub open spec fn method_named(name: Seq<char>) -> Option<Method> {
    if name == "tui_attach"@ {
        Some(Method::TuiAttach)
    } else if name == "spawn"@ {
        Some(Method::Spawn)
    } else if name == "ls"@ {
        Some(Method::Ls)
    } else if name == "up"@ {
        Some(Method::Up)
    } else if name == "start"@ {
        Some(Method::Start)
    } else if name == "stop"@ {
        Some(Method::Stop)
    } else if name == "down"@ {
        Some(Method::Down)
    } else if name == "kill"@ {
        Some(Method::Kill)
    } else if name == "veto"@ {
        Some(Method::Veto)
    } else if name == "restart"@ {
        Some(Method::Restart)
    } else if name == "why"@ {
        Some(Method::Why)
    } else if name == "screen"@ {
        Some(Method::Screen)
    } else if name == "shutdown"@ {
        Some(Method::Shutdown)
    } else {
        None
    }
}

/// The names of all methods. A name that is not listed is refused as an unknown
/// method.
pub fn methods() -> (names: Vec<String>)
    ensures
        names.deep_view() == method_names(),
{
    let names: Vec<String> = vec![
        "tui_attach".to_owned(),
        "spawn".to_owned(),
        "ls".to_owned(),
        "up".to_owned(),
        "start".to_owned(),
        "stop".to_owned(),
        "down".to_owned(),
        "kill".to_owned(),
        "veto".to_owned(),
        "restart".to_owned(),
        "why".to_owned(),
        "screen".to_owned(),
        "shutdown".to_owned(),
    ];
    assert(names.deep_view() =~= method_names());
    names
}

/// The method of a request.
pub open spec fn method_of(request: RequestView) -> Method {
    match request {
        RequestView::TuiAttach { .. } => Method::TuiAttach,
        RequestView::Spawn { .. } => Method::Spawn,
        RequestView::Ls { .. } => Method::Ls,
        RequestView::Up { .. } => Method::Up,
        RequestView::Start { .. } => Method::Start,
        RequestView::Stop { .. } => Method::Stop,
        RequestView::Down { .. } => Method::Down,
        RequestView::Kill { .. } => Method::Kill,
        RequestView::Veto { .. } => Method::Veto,
        RequestView::Restart { .. } => Method::Restart,
        RequestView::Why { .. } => Method::Why,
        RequestView::Screen { .. } => Method::Screen,
        RequestView::Shutdown { .. } => Method::Shutdown,
    }
}

/// The fields of a request's parameter object.
pub open spec fn request_fields(request: RequestView) -> Fields {
    match request {
        RequestView::TuiAttach { width, height } => no_fields().insert(
            "width"@,
            unsigned(width as u64),
        ).insert("height"@, unsigned(height as u64)),
        RequestView::Spawn { path, cmd, cwd, env, deps, tags } => {
            let object = no_fields().insert("path"@, Json::Text(path)).insert(
                "cmd"@,
                texts_json(cmd),
            );
            let object = with_field(object, "cwd"@, maybe_field(cwd));
            let object = with_field(object, "env"@, env_field(env));
            let object = with_field(object, "deps"@, list_field(deps));
            with_field(object, "tags"@, list_field(tags))
        },
        RequestView::Ls { pattern } => with_field(no_fields(), "pattern"@, maybe_field(pattern)),
        RequestView::Up { pattern } => with_field(no_fields(), "pattern"@, maybe_field(pattern)),
        RequestView::Start { pattern } => no_fields().insert("pattern"@, Json::Text(pattern)),
        RequestView::Stop { pattern } => no_fields().insert("pattern"@, Json::Text(pattern)),
        RequestView::Down { pattern } => with_field(no_fields(), "pattern"@, maybe_field(pattern)),
        RequestView::Kill { pattern } => no_fields().insert("pattern"@, Json::Text(pattern)),
        RequestView::Veto { pattern } => no_fields().insert("pattern"@, Json::Text(pattern)),
        RequestView::Restart { pattern } => no_fields().insert("pattern"@, Json::Text(pattern)),
        RequestView::Why { path } => no_fields().insert("path"@, Json::Text(path)),
        RequestView::Screen { path } => no_fields().insert("path"@, Json::Text(path)),
        RequestView::Shutdown {  } => no_fields(),
    }
}

/// The parameters of a request: its fields, or null if there are none.
pub open spec fn request_params(request: RequestView) -> Json {
    if request_fields(request) == no_fields() {
        Json::Null
    } else {
        Json::Object(request_fields(request))
    }
}

/// Parameters may be left out: null stands for an object without fields.
pub open spec fn params_read(method: Method, params: Json) -> Read<Fields> {
    if params is Null {
        Ok(no_fields())
    } else {
        object_read(params, method.expected())
    }
}

/// A size has to be given whole.
pub open spec fn attach_read(object: Fields) -> Read<RequestView> {
    match u16_field_read(object, "height"@) {
        Err(message) => Err(message),
        Ok(height) => match u16_field_read(object, "width"@) {
            Err(message) => Err(message),
            Ok(width) => match (width, height) {
                (None, _) => Err(missing("width"@)),
                (_, None) => Err(missing("height"@)),
                (Some(width), Some(height)) => Ok(RequestView::TuiAttach { width, height }),
            },
        },
    }
}

/// A list that is not there reads as empty.
pub open spec fn or_empty(texts: Option<Seq<Seq<char>>>) -> Seq<Seq<char>> {
    match texts {
        Some(texts) => texts,
        None => Seq::empty(),
    }
}

/// A spawn needs a path and a command; the rest may be left out. Fields are
/// judged by rising name, and only then is it asked what is missing.
pub open spec fn spawn_read(object: Fields) -> Read<RequestView> {
    match texts_field_read(object, "cmd"@) {
        Err(message) => Err(message),
        Ok(cmd) => match maybe_text_field_read(object, "cwd"@) {
            Err(message) => Err(message),
            Ok(cwd) => match texts_field_read(object, "deps"@) {
                Err(message) => Err(message),
                Ok(deps) => match maybe_env_field_read(object, "env"@) {
                    Err(message) => Err(message),
                    Ok(env) => match text_field_read(object, "path"@) {
                        Err(message) => Err(message),
                        Ok(path) => match texts_field_read(object, "tags"@) {
                            Err(message) => Err(message),
                            Ok(tags) => match (path, cmd) {
                                (None, _) => Err(missing("path"@)),
                                (_, None) => Err(missing("cmd"@)),
                                (Some(path), Some(cmd)) => Ok(
                                    RequestView::Spawn {
                                        path,
                                        cmd,
                                        cwd,
                                        env,
                                        deps: or_empty(deps),
                                        tags: or_empty(tags),
                                    },
                                ),
                            },
                        },
                    },
                },
            },
        },
    }
}

/// A text that has to be there.
pub open spec fn needed_text_read(object: Fields, key: Seq<char>) -> Read<Seq<char>> {
    match text_field_read(object, key) {
        Err(message) => Err(message),
        Ok(None) => Err(missing(key)),
        Ok(Some(text)) => Ok(text),
    }
}

/// The request that a parameter object makes for a method.
pub open spec fn fields_read(method: Method, object: Fields) -> Read<RequestView> {
    match method {
        Method::TuiAttach => attach_read(object),
        Method::Spawn => spawn_read(object),
        Method::Ls => match maybe_text_field_read(object, "pattern"@) {
            Ok(pattern) => Ok(RequestView::Ls { pattern }),
            Err(message) => Err(message),
        },
        Method::Up => match maybe_text_field_read(object, "pattern"@) {
            Ok(pattern) => Ok(RequestView::Up { pattern }),
            Err(message) => Err(message),
        },
        Method::Start => match needed_text_read(object, "pattern"@) {
            Ok(pattern) => Ok(RequestView::Start { pattern }),
            Err(message) => Err(message),
        },
        Method::Stop => match needed_text_read(object, "pattern"@) {
            Ok(pattern) => Ok(RequestView::Stop { pattern }),
            Err(message) => Err(message),
        },
        Method::Down => match maybe_text_field_read(object, "pattern"@) {
            Ok(pattern) => Ok(RequestView::Down { pattern }),
            Err(message) => Err(message),
        },
        Method::Kill => match needed_text_read(object, "pattern"@) {
            Ok(pattern) => Ok(RequestView::Kill { pattern }),
            Err(message) => Err(message),
        },
        Method::Veto => match needed_text_read(object, "pattern"@) {
            Ok(pattern) => Ok(RequestView::Veto { pattern }),
            Err(message) => Err(message),
        },
        Method::Restart => match needed_text_read(object, "pattern"@) {
            Ok(pattern) => Ok(RequestView::Restart { pattern }),
            Err(message) => Err(message),
        },
        Method::Why => match needed_text_read(object, "path"@) {
            Ok(path) => Ok(RequestView::Why { path }),
            Err(message) => Err(message),
        },
        Method::Screen => match needed_text_read(object, "path"@) {
            Ok(path) => Ok(RequestView::Screen { path }),
            Err(message) => Err(message),
        },
        Method::Shutdown => Ok(RequestView::Shutdown {  }),
    }
}

/// The message for a method that the protocol does not have.
pub open spec fn unknown_method(name: Seq<char>) -> Seq<char> {
    "unknown method '"@ + name + "'"@
}

/// The request that a method name and parameters make, or the refusal.
pub open spec fn wire_read(name: Seq<char>, params: Json) -> Result<RequestView, ErrorView> {
    match method_named(name) {
        None => Err(
            ErrorView { code: ErrorCode::UnknownMethod, message: unknown_method(name) },
        ),
        Some(method) => match params_read(method, params) {
            Err(message) => Err(ErrorView { code: ErrorCode::InvalidParams, message }),
            Ok(object) => match fields_read(method, object) {
                Err(message) => Err(ErrorView { code: ErrorCode::InvalidParams, message }),
                Ok(request) => Ok(request),
            },
        },
    }
}

/// The content of a request that was read, or of the refusal.
pub open spec fn wire_view(read: Result<RpcRequest, RpcError>) -> Result<RequestView, ErrorView> {
    match read {
        Ok(request) => Ok(request@),
        Err(error) => Err(error@),
    }
}

/// The content of a request that was read, or the message of the refusal.
pub open spec fn request_read_view(read: Result<RpcRequest, String>) -> Read<RequestView> {
    match read {
        Ok(request) => Ok(request@),
        Err(message) => Err(message@),
    }
}

/// Whether the environment of a spawn, if it has one, is in the order of its
/// keys.
pub open spec fn env_in_order(request: RpcRequest) -> bool {
    request matches RpcRequest::Spawn { env, .. } ==> env_ascends(env)
}

impl RpcRequest {
    /// The request's method.
    pub fn method(&self) -> (method: Method)
        ensures
            method == method_of(self@),
    {
        match self {
            RpcRequest::TuiAttach { .. } => Method::TuiAttach,
            RpcRequest::Spawn { .. } => Method::Spawn,
            RpcRequest::Ls { .. } => Method::Ls,
            RpcRequest::Up { .. } => Method::Up,
            RpcRequest::Start { .. } => Method::Start,
            RpcRequest::Stop { .. } => Method::Stop,
            RpcRequest::Down { .. } => Method::Down,
            RpcRequest::Kill { .. } => Method::Kill,
            RpcRequest::Veto { .. } => Method::Veto,
            RpcRequest::Restart { .. } => Method::Restart,
            RpcRequest::Why { .. } => Method::Why,
            RpcRequest::Screen { .. } => Method::Screen,
            RpcRequest::Shutdown { .. } => Method::Shutdown,
        }
    }

    /// The method name and the parameters under which the request travels.
    pub fn to_wire(&self) -> (wire: (String, Value))
        ensures
            wire.0@ == method_of(self@).wire_name(),
            json(wire.1) == request_params(self@),
    {
        let mut object = new_object();
        match self {
            RpcRequest::TuiAttach { width, height } => {
                put(&mut object, "width", unsigned_value(*width as u64));
                put(&mut object, "height", unsigned_value(*height as u64));
            },
            RpcRequest::Spawn { path, cmd, cwd, env, deps, tags } => {
                put_text(&mut object, "path", path);
                put(&mut object, "cmd", texts_value(cmd));
                put_maybe_text(&mut object, "cwd", cwd);
                put_maybe_env(&mut object, "env", env);
                put_list(&mut object, "deps", deps);
                put_list(&mut object, "tags", tags);
            },
            RpcRequest::Ls { pattern } | RpcRequest::Up { pattern } | RpcRequest::Down {
                pattern,
            } => {
                put_maybe_text(&mut object, "pattern", pattern);
            },
            RpcRequest::Start { pattern }
            | RpcRequest::Stop { pattern }
            | RpcRequest::Kill { pattern }
            | RpcRequest::Veto { pattern }
            | RpcRequest::Restart { pattern } => {
                put_text(&mut object, "pattern", pattern);
            },
            RpcRequest::Why { path } | RpcRequest::Screen { path } => {
                put_text(&mut object, "path", path);
            },
            RpcRequest::Shutdown {  } => {},
        }
        let params = if has_no_fields(&object) {
            null_value()
        } else {
            object_value(object)
        };
        (self.method().name().to_owned(), params)
    }

    /// The request that a method name and parameters make. A name that is not
    /// listed is an unknown method; parameters that do not fit a listed one are
    /// invalid. Fields that the method does not know are ignored.
    pub fn from_wire(method: &str, params: Value) -> (read: Result<RpcRequest, RpcError>)
        ensures
            wire_view(read) == wire_read(method@, json(params)),
            read matches Ok(request) ==> env_in_order(request),
    {
        let known = match Method::parse(method) {
            Some(known) => known,
            None => {
                let mut message = "unknown method '".to_owned();
                message.append(method);
                message.append("'");
                return Err(RpcError::new(ErrorCode::UnknownMethod, message));
            },
        };
        let object = if is_null(&params) {
            new_object()
        } else {
            match open_object(params, known.expectation()) {
                Ok(object) => object,
                Err(message) => {
                    return Err(RpcError::new(ErrorCode::InvalidParams, message));
                },
            }
        };
        match read_request(known, &object) {
            Ok(request) => Ok(request),
            Err(message) => Err(RpcError::new(ErrorCode::InvalidParams, message)),
        }
    }
}

fn needed_text(object: &serde_json::Map<String, Value>, key: &str) -> (read: Result<
    String,
    String,
>)
    ensures
        match read {
            Ok(text) => needed_text_read(fields(*object), key@) == Read::<Seq<char>>::Ok(text@),
            Err(message) => needed_text_read(fields(*object), key@) == Read::<Seq<char>>::Err(
                message@,
            ),
        },
{
    match get_text(object, key)? {
        Some(text) => Ok(text),
        None => Err(missing_message(key)),
    }
}

fn read_attach(object: &serde_json::Map<String, Value>) -> (read: Result<RpcRequest, String>)
    ensures
        request_read_view(read) == attach_read(fields(*object)),
        read matches Ok(request) ==> env_in_order(request),
{
    let height = get_u16(object, "height")?;
    let width = get_u16(object, "width")?;
    match (width, height) {
        (None, _) => Err(missing_message("width")),
        (_, None) => Err(missing_message("height")),
        (Some(width), Some(height)) => Ok(RpcRequest::TuiAttach { width, height }),
    }
}

fn read_spawn(object: &serde_json::Map<String, Value>) -> (read: Result<RpcRequest, String>)
    ensures
        request_read_view(read) == spawn_read(fields(*object)),
        read matches Ok(request) ==> env_in_order(request),
{
    let cmd = get_texts(object, "cmd")?;
    let cwd = get_maybe_text(object, "cwd")?;
    let deps = get_texts(object, "deps")?;
    let env = get_maybe_env(object, "env")?;
    let path = get_text(object, "path")?;
    let tags = get_texts(object, "tags")?;
    match (path, cmd) {
        (None, _) => Err(missing_message("path")),
        (_, None) => Err(missing_message("cmd")),
        (Some(path), Some(cmd)) => {
            let deps = texts_or_empty(deps);
            let tags = texts_or_empty(tags);
            Ok(RpcRequest::Spawn { path, cmd, cwd, env, deps, tags })
        },
    }
}

fn texts_or_empty(texts: Option<Vec<String>>) -> (list: Vec<String>)
    ensures
        list.deep_view() == or_empty(texts.deep_view()),
{
    match texts {
        Some(texts) => texts,
        None => {
            let list: Vec<String> = Vec::new();
            assert(list.deep_view() =~= Seq::<Seq<char>>::empty());
            list
        },
    }
}

fn read_request(method: Method, object: &serde_json::Map<String, Value>) -> (read: Result<
    RpcRequest,
    String,
>)
    ensures
        request_read_view(read) == fields_read(method, fields(*object)),
        read matches Ok(request) ==> env_in_order(request),
{
    match method {
        Method::TuiAttach => read_attach(object),
        Method::Spawn => read_spawn(object),
        Method::Ls => Ok(RpcRequest::Ls { pattern: get_maybe_text(object, "pattern")? }),
        Method::Up => Ok(RpcRequest::Up { pattern: get_maybe_text(object, "pattern")? }),
        Method::Start => Ok(RpcRequest::Start { pattern: needed_text(object, "pattern")? }),
        Method::Stop => Ok(RpcRequest::Stop { pattern: needed_text(object, "pattern")? }),
        Method::Down => Ok(RpcRequest::Down { pattern: get_maybe_text(object, "pattern")? }),
        Method::Kill => Ok(RpcRequest::Kill { pattern: needed_text(object, "pattern")? }),
        Method::Veto => Ok(RpcRequest::Veto { pattern: needed_text(object, "pattern")? }),
        Method::Restart => Ok(RpcRequest::Restart { pattern: needed_text(object, "pattern")? }),
        Method::Why => Ok(RpcRequest::Why { path: needed_text(object, "path")? }),
        Method::Screen => Ok(RpcRequest::Screen { path: needed_text(object, "path")? }),
        Method::Shutdown => Ok(RpcRequest::Shutdown {  }),
    }
}

} // verus!
