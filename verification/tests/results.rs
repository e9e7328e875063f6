use dekit::protocol::{
    ok_result, ActResult, RpcState, RpcTaskInfo, RpcWhy, RpcWhyDep, ScreenResult, SpawnResult,
    TaskListResult,
};
use serde_json::Value;

fn value(text: &str) -> Value {
    serde_json::from_str(text).unwrap()
}

fn text(value: &Value) -> String {
    serde_json::to_string(value).unwrap()
}

fn state(token: &str, exit_code: Option<i32>, signal: Option<i32>) -> RpcState {
    RpcState { state: token.to_string(), exit_code, signal }
}

#[test]
fn a_plain_success_is_an_empty_object() {
    assert_eq!(text(&ok_result()), "{}");
}

#[test]
fn counts_round_trip() {
    let wire = ActResult { matched: 3 }.to_value();
    assert_eq!(text(&wire), r#"{"matched":3}"#);
    assert_eq!(ActResult::from_value(wire).unwrap().matched, 3);
    assert_eq!(ActResult::from_value(value("[4]")).unwrap().matched, 4);
}

#[test]
fn bad_counts_are_refused() {
    assert_eq!(
        ActResult::from_value(value("{}")).unwrap_err(),
        "missing field `matched`"
    );
    assert_eq!(
        ActResult::from_value(value(r#"{"matched":-1}"#)).unwrap_err(),
        "invalid value: integer `-1`, expected usize"
    );
    assert_eq!(
        ActResult::from_value(value("[]")).unwrap_err(),
        "invalid length 0, expected struct ActResult with 1 element"
    );
    assert_eq!(
        ActResult::from_value(value("null")).unwrap_err(),
        "invalid type: null, expected struct ActResult"
    );
    assert_eq!(
        ActResult::from_value(value("[1,2]")).unwrap_err(),
        "invalid length 2, expected fewer elements in array"
    );
}

#[test]
fn spawns_and_screens_round_trip() {
    let wire = SpawnResult { path: "/web".to_string() }.to_value();
    assert_eq!(text(&wire), r#"{"path":"/web"}"#);
    assert_eq!(SpawnResult::from_value(wire).unwrap().path, "/web");

    let wire = ScreenResult { screen: Some("$ \"x\"".to_string()) }.to_value();
    assert_eq!(text(&wire), r#"{"screen":"$ \"x\""}"#);
    assert_eq!(ScreenResult::from_value(wire).unwrap().screen, Some("$ \"x\"".to_string()));

    let wire = ScreenResult { screen: None }.to_value();
    assert_eq!(text(&wire), r#"{"screen":null}"#);
    assert_eq!(ScreenResult::from_value(wire).unwrap().screen, None);
    assert_eq!(ScreenResult::from_value(value("{}")).unwrap().screen, None);
}

#[test]
fn task_lists_round_trip() {
    let list = TaskListResult {
        tasks: vec![
            RpcTaskInfo {
                path: "/a".to_string(),
                label: None,
                state: state("running", None, None),
            },
            RpcTaskInfo {
                path: "/b".to_string(),
                label: Some("B".to_string()),
                state: state("exited", Some(-1), Some(9)),
            },
        ],
    };
    let wire = list.to_value();
    assert_eq!(
        text(&wire),
        r#"{"tasks":[{"path":"/a","state":"running"},{"exit_code":-1,"label":"B","path":"/b","signal":9,"state":"exited"}]}"#
    );
    let back = TaskListResult::from_value(wire).unwrap();
    assert_eq!(back.tasks.len(), 2);
    assert_eq!(back.tasks[1].label, Some("B".to_string()));
    assert_eq!(back.tasks[1].state.state, "exited");
    assert_eq!(back.tasks[1].state.exit_code, Some(-1));
    assert_eq!(back.tasks[1].state.signal, Some(9));
    assert_eq!(back.tasks[0].state.exit_code, None);
}

#[test]
fn bad_task_lists_are_refused() {
    let refusal = |wire: &str| TaskListResult::from_value(value(wire)).unwrap_err();
    assert_eq!(
        refusal(r#"{"tasks":{}}"#),
        "invalid type: map, expected a sequence"
    );
    assert_eq!(
        refusal(r#"{"tasks":["x"]}"#),
        r#"invalid type: string "x", expected struct RpcTaskInfo"#
    );
    assert_eq!(
        refusal(r#"{"tasks":[{"path":"/a"}]}"#),
        "missing field `state`"
    );
    assert_eq!(
        refusal(r#"{"tasks":[{"state":"idle"}]}"#),
        "missing field `path`"
    );
}

#[test]
fn explanations_round_trip() {
    let why = RpcWhy {
        path: "/web".to_string(),
        state: state("backoff", None, None),
        wanted: true,
        supported: false,
        vetoed: false,
        pinned: true,
        required_by: vec!["/x".to_string()],
        deps: vec![RpcWhyDep {
            path: "/db".to_string(),
            state: state("done", Some(0), None),
            wanted: false,
            satisfied: true,
        }],
        attempts: 4294967295,
    };
    let wire = why.to_value();
    assert_eq!(
        text(&wire),
        r#"{"attempts":4294967295,"deps":[{"exit_code":0,"path":"/db","satisfied":true,"state":"done","wanted":false}],"path":"/web","pinned":true,"required_by":["/x"],"state":"backoff","supported":false,"vetoed":false,"wanted":true}"#
    );
    let back = RpcWhy::from_value(wire).unwrap();
    assert_eq!(back.attempts, 4294967295);
    assert_eq!(back.deps[0].state.exit_code, Some(0));
    assert!(back.wanted && !back.supported && !back.vetoed && back.pinned);
    assert_eq!(back.required_by, vec!["/x".to_string()]);
}

#[test]
fn bad_explanations_are_refused() {
    let refusal = |wire: &str| RpcWhy::from_value(value(wire)).unwrap_err();
    assert_eq!(refusal("{}"), "missing field `path`");
    assert_eq!(
        refusal(r#"{"path":"/a","attempts":4294967296}"#),
        "invalid value: integer `4294967296`, expected u32"
    );
    assert_eq!(
        refusal(r#"{"path":"/a","wanted":1}"#),
        "invalid type: integer `1`, expected a boolean"
    );
    assert_eq!(refusal("3"), "invalid type: integer `3`, expected struct RpcWhy");
}
