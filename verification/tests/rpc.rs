use dekit::protocol::{codes, methods, RpcRequest};
use indexmap::IndexMap;
use serde_json::Value;

fn samples() -> Vec<RpcRequest> {
    vec![
        RpcRequest::TuiAttach { width: 80, height: 24 },
        RpcRequest::Spawn {
            path: "/web".to_string(),
            cmd: vec!["npm".to_string(), "start".to_string()],
            cwd: Some("/repo".to_string()),
            env: None,
            deps: vec![],
            tags: vec![],
        },
        RpcRequest::Spawn {
            path: "/api".to_string(),
            cmd: vec!["./api".to_string()],
            cwd: None,
            env: Some(IndexMap::from([
                ("PORT".to_string(), Some("8080".to_string())),
                ("DEBUG".to_string(), None),
            ])),
            deps: vec!["/db".to_string()],
            tags: vec!["backend".to_string()],
        },
        RpcRequest::Ls { pattern: None },
        RpcRequest::Ls { pattern: Some("/web*".to_string()) },
        RpcRequest::Up { pattern: None },
        RpcRequest::Up { pattern: Some("/web".to_string()) },
        RpcRequest::Start { pattern: "/web".to_string() },
        RpcRequest::Stop { pattern: "/web".to_string() },
        RpcRequest::Down { pattern: None },
        RpcRequest::Down { pattern: Some("/web".to_string()) },
        RpcRequest::Kill { pattern: "/web".to_string() },
        RpcRequest::Veto { pattern: "/web".to_string() },
        RpcRequest::Restart { pattern: "/web".to_string() },
        RpcRequest::Why { path: "/web".to_string() },
        RpcRequest::Screen { path: "/web".to_string() },
        RpcRequest::Shutdown {},
    ]
}

fn value(text: &str) -> Value {
    serde_json::from_str(text).unwrap()
}

fn refusal(method: &str, params: &str) -> String {
    let err = RpcRequest::from_wire(method, value(params)).unwrap_err();
    assert_eq!(err.code, codes::INVALID_PARAMS);
    err.message
}

/// Append-only: method names and param shapes are wire API.
#[test]
fn golden_methods_encode_exactly() {
    let expected = [
        ("tui_attach", r#"{"height":24,"width":80}"#),
        ("spawn", r#"{"cmd":["npm","start"],"cwd":"/repo","path":"/web"}"#),
        (
            "spawn",
            r#"{"cmd":["./api"],"deps":["/db"],"env":{"DEBUG":null,"PORT":"8080"},"path":"/api","tags":["backend"]}"#,
        ),
        ("ls", r#"null"#),
        ("ls", r#"{"pattern":"/web*"}"#),
        ("up", r#"null"#),
        ("up", r#"{"pattern":"/web"}"#),
        ("start", r#"{"pattern":"/web"}"#),
        ("stop", r#"{"pattern":"/web"}"#),
        ("down", r#"null"#),
        ("down", r#"{"pattern":"/web"}"#),
        ("kill", r#"{"pattern":"/web"}"#),
        ("veto", r#"{"pattern":"/web"}"#),
        ("restart", r#"{"pattern":"/web"}"#),
        ("why", r#"{"path":"/web"}"#),
        ("screen", r#"{"path":"/web"}"#),
        ("shutdown", r#"null"#),
    ];
    let samples = samples();
    assert_eq!(samples.len(), expected.len());
    for (req, (method, params)) in samples.iter().zip(expected) {
        let (m, p) = req.to_wire();
        assert_eq!(m, method);
        assert_eq!(serde_json::to_string(&p).unwrap(), params);
    }
}

#[test]
fn every_request_round_trips_through_wire() {
    for req in samples() {
        let (method, params) = req.to_wire();
        let back = RpcRequest::from_wire(&method, params)
            .unwrap_or_else(|e| panic!("{method}: {}", e.message));
        assert_eq!(back, req);
    }
}

#[test]
fn methods_list_matches_the_enum() {
    let from_samples: std::collections::HashSet<String> =
        samples().iter().map(|req| req.to_wire().0).collect();
    let listed: std::collections::HashSet<String> =
        methods().iter().map(|m| m.to_string()).collect();
    assert_eq!(from_samples, listed);
}

#[test]
fn unknown_method_is_reported_as_such() {
    let err = RpcRequest::from_wire("frobnicate", Value::Null).unwrap_err();
    assert_eq!(err.code, codes::UNKNOWN_METHOD);
}

#[test]
fn bad_params_are_reported_as_such() {
    let err = RpcRequest::from_wire("start", value(r#"{"pattern": 5}"#)).unwrap_err();
    assert_eq!(err.code, codes::INVALID_PARAMS);
}

#[test]
fn missing_params_object_is_tolerated() {
    assert_eq!(
        RpcRequest::from_wire("ls", Value::Null).unwrap(),
        RpcRequest::Ls { pattern: None }
    );
    assert_eq!(
        RpcRequest::from_wire("up", Value::Null).unwrap(),
        RpcRequest::Up { pattern: None }
    );
}

#[test]
fn unknown_param_fields_are_ignored() {
    let req =
        RpcRequest::from_wire("start", value(r#"{"pattern": "/x", "future_field": true}"#))
            .unwrap();
    assert_eq!(req, RpcRequest::Start { pattern: "/x".to_string() });
}

#[test]
fn methods_stand_in_their_order() {
    assert_eq!(
        methods(),
        vec![
            "tui_attach",
            "spawn",
            "ls",
            "up",
            "start",
            "stop",
            "down",
            "kill",
            "veto",
            "restart",
            "why",
            "screen",
            "shutdown",
        ]
    );
}

#[test]
fn unknown_methods_are_named_in_the_message() {
    let err = RpcRequest::from_wire("frobnicate", value(r#"{"pattern":"/x"}"#)).unwrap_err();
    assert_eq!(err.message, "unknown method 'frobnicate'");
    assert_eq!(
        RpcRequest::from_wire("Start", Value::Null).unwrap_err().code,
        codes::UNKNOWN_METHOD
    );
}

#[test]
fn refusals_carry_the_decoders_words() {
    assert_eq!(
        refusal("start", r#"{"pattern":5}"#),
        "invalid type: integer `5`, expected a string"
    );
    assert_eq!(refusal("start", "null"), "missing field `pattern`");
    assert_eq!(refusal("why", "{}"), "missing field `path`");
    assert_eq!(
        refusal("start", r#""/web""#),
        r#"invalid type: string "/web", expected struct variant RpcRequest::Start"#
    );
    assert_eq!(
        refusal("shutdown", "[]"),
        "invalid type: sequence, expected struct variant RpcRequest::Shutdown"
    );
    assert_eq!(
        refusal("ls", "true"),
        "invalid type: boolean `true`, expected struct variant RpcRequest::Ls"
    );
    assert_eq!(
        refusal("ls", "-3"),
        "invalid type: integer `-3`, expected struct variant RpcRequest::Ls"
    );
    assert_eq!(
        refusal("ls", "1.5"),
        "invalid type: floating point `1.5`, expected struct variant RpcRequest::Ls"
    );
    assert_eq!(
        refusal("tui_attach", r#"{"width":70000,"height":24}"#),
        "invalid value: integer `70000`, expected u16"
    );
    assert_eq!(refusal("tui_attach", r#"{"width":80}"#), "missing field `height`");
    assert_eq!(refusal("tui_attach", r#"{"height":80}"#), "missing field `width`");
    assert_eq!(refusal("spawn", r#"{"path":"/a"}"#), "missing field `cmd`");
    assert_eq!(refusal("spawn", "{}"), "missing field `path`");
    assert_eq!(
        refusal("spawn", r#"{"path":"/a","cmd":"ls"}"#),
        r#"invalid type: string "ls", expected a sequence"#
    );
    assert_eq!(
        refusal("spawn", r#"{"path":"/a","cmd":["ls",1]}"#),
        "invalid type: integer `1`, expected a string"
    );
    assert_eq!(
        refusal("spawn", r#"{"path":"/a","cmd":["ls"],"env":{"A":1}}"#),
        "invalid type: integer `1`, expected a string"
    );
    assert_eq!(
        refusal("spawn", r#"{"path":"/a","cmd":["ls"],"env":["A"]}"#),
        "invalid type: sequence, expected a map"
    );
    assert_eq!(
        refusal("spawn", r#"{"path":"/a","cmd":["ls"],"deps":null}"#),
        "invalid type: null, expected a sequence"
    );
}

#[test]
fn fields_are_judged_by_rising_name() {
    assert_eq!(
        refusal("spawn", r#"{"tags":7,"path":5,"cmd":["ls"]}"#),
        "invalid type: integer `5`, expected a string"
    );
    assert_eq!(
        refusal("spawn", r#"{"cmd":9,"path":5}"#),
        "invalid type: integer `9`, expected a sequence"
    );
    assert_eq!(
        refusal("tui_attach", r#"{"width":"w","height":"h"}"#),
        r#"invalid type: string "h", expected u16"#
    );
}

#[test]
fn null_fields_count_as_absent() {
    assert_eq!(
        RpcRequest::from_wire("ls", value(r#"{"pattern":null}"#)).unwrap(),
        RpcRequest::Ls { pattern: None }
    );
    assert_eq!(
        RpcRequest::from_wire(
            "spawn",
            value(r#"{"path":"/a","cmd":[],"cwd":null,"env":null}"#)
        )
        .unwrap(),
        RpcRequest::Spawn {
            path: "/a".to_string(),
            cmd: vec![],
            cwd: None,
            env: None,
            deps: vec![],
            tags: vec![],
        }
    );
}

#[test]
fn environments_come_in_the_order_of_their_keys() {
    let req = RpcRequest::from_wire(
        "spawn",
        value(r#"{"path":"/a","cmd":["x"],"env":{"b":"2","a":null,"C":"3"}}"#),
    )
    .unwrap();
    match req {
        RpcRequest::Spawn { env: Some(env), .. } => {
            let entries: Vec<(String, Option<String>)> = env.into_iter().collect();
            assert_eq!(
                entries,
                vec![
                    ("C".to_string(), Some("3".to_string())),
                    ("a".to_string(), None),
                    ("b".to_string(), Some("2".to_string())),
                ]
            );
        }
        other => panic!("{other:?}"),
    }
}

#[test]
fn an_empty_environment_is_still_written() {
    let req = RpcRequest::Spawn {
        path: "/a".to_string(),
        cmd: vec!["x".to_string()],
        cwd: None,
        env: Some(IndexMap::new()),
        deps: vec![],
        tags: vec![],
    };
    let (method, params) = req.to_wire();
    assert_eq!(serde_json::to_string(&params).unwrap(), r#"{"cmd":["x"],"env":{},"path":"/a"}"#);
    assert_eq!(RpcRequest::from_wire(&method, params).unwrap(), req);
}

#[test]
fn sizes_go_to_the_edge() {
    let req = RpcRequest::TuiAttach { width: 65535, height: 0 };
    let (method, params) = req.to_wire();
    assert_eq!(RpcRequest::from_wire(&method, params).unwrap(), req);
}
