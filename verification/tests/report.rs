use dekit::dekit::report::{
    human_state, report_acted, report_screen, report_task_list, report_why,
};
use dekit::protocol::RpcState;
use serde_json::Value;

fn value(text: &str) -> Value {
    serde_json::from_str(text).unwrap()
}

fn human(exit_code: Option<i32>, signal: Option<i32>) -> String {
    human_state(&RpcState { state: "exited".to_string(), exit_code, signal })
}

#[test]
fn states_read_well() {
    assert_eq!(human(None, None), "exited");
    assert_eq!(human(Some(0), None), "exited (code 0)");
    assert_eq!(human(Some(-2147483648), None), "exited (code -2147483648)");
    assert_eq!(human(None, Some(9)), "exited (signal 9)");
    assert_eq!(human(Some(1), Some(9)), "exited (code 1)");
}

#[test]
fn counts_are_reported() {
    let report = |n: &str| report_acted(value(n), false, "Zapped", "Nothing.").unwrap();
    assert_eq!(report(r#"{"matched":0}"#), "Nothing.\n");
    assert_eq!(report(r#"{"matched":1}"#), "Zapped 1 task.\n");
    assert_eq!(report(r#"{"matched":100}"#), "Zapped 100 tasks.\n");
    assert_eq!(
        report_acted(value("[]"), false, "Zapped", "Nothing.").unwrap_err(),
        "invalid length 0, expected struct ActResult with 1 element"
    );
    assert_eq!(report_acted(value("[]"), true, "Zapped", "Nothing.").unwrap(), "[]\n");
}

#[test]
fn task_lists_are_reported() {
    let list = r#"{"tasks":[
        {"path":"/a","state":"running","label":"A \"a\""},
        {"path":"/b","state":"done","exit_code":0,"extra":1}
    ]}"#;
    assert_eq!(
        report_task_list(value(list), false).unwrap(),
        "/a\trunning\n/b\tdone (code 0)\n"
    );
    assert_eq!(
        report_task_list(value(list), true).unwrap(),
        concat_lines(&[
            r#"{"tasks":[{"path":"/a","label":"A \"a\"","state":"running"},{"path":"/b","state":"done","exit_code":0}]}"#
        ])
    );
    assert_eq!(report_task_list(value(r#"{"tasks":[]}"#), false).unwrap(), "No tasks.\n");
    assert_eq!(
        report_task_list(value(r#"{"tasks":[]}"#), true).unwrap(),
        "{\"tasks\":[]}\n"
    );
    assert_eq!(
        report_task_list(value("{}"), true).unwrap_err(),
        "missing field `tasks`"
    );
}

fn concat_lines(lines: &[&str]) -> String {
    lines.iter().map(|line| format!("{line}\n")).collect()
}

#[test]
fn explanations_are_reported() {
    let why = r#"{
        "path":"/web","state":"exited","exit_code":1,
        "wanted":true,"supported":false,"vetoed":true,"pinned":false,
        "required_by":["/x","/y"],
        "deps":[
            {"path":"/db","state":"ready","wanted":true,"satisfied":true},
            {"path":"/q","state":"idle","wanted":false,"satisfied":false},
            {"path":"/r","state":"starting","wanted":true,"satisfied":false}
        ],
        "attempts":3
    }"#;
    assert_eq!(
        report_why(value(why), false).unwrap(),
        concat_lines(&[
            "/web: exited (code 1)",
            "  wanted: true",
            "  blocked: a dependency is not ready",
            "  vetoed: yes (start it to clear)",
            "  pinned: false",
            "  required by: /x, /y",
            "  restart attempts: 3",
            "  deps:",
            "    /db\tready",
            "    /q\tidle (not wanted, not satisfied)",
            "    /r\tstarting (not satisfied)",
        ])
    );
    assert_eq!(
        report_why(value(why), true).unwrap(),
        concat_lines(&[
            r#"{"path":"/web","state":"exited","exit_code":1,"wanted":true,"supported":false,"vetoed":true,"pinned":false,"required_by":["/x","/y"],"deps":[{"path":"/db","state":"ready","wanted":true,"satisfied":true},{"path":"/q","state":"idle","wanted":false,"satisfied":false},{"path":"/r","state":"starting","wanted":true,"satisfied":false}],"attempts":3}"#
        ])
    );
}

#[test]
fn short_explanations_leave_lines_out() {
    let why = r#"{
        "path":"/web","state":"running","signal":15,
        "wanted":false,"supported":false,"vetoed":false,"pinned":true,
        "required_by":[],"deps":[],"attempts":0
    }"#;
    assert_eq!(
        report_why(value(why), false).unwrap(),
        concat_lines(&["/web: running (signal 15)", "  wanted: false", "  pinned: true"])
    );
    assert_eq!(
        report_why(value(why), true).unwrap(),
        concat_lines(&[
            r#"{"path":"/web","state":"running","signal":15,"wanted":false,"supported":false,"vetoed":false,"pinned":true,"required_by":[],"deps":[],"attempts":0}"#
        ])
    );
}

#[test]
fn screens_are_reported() {
    assert_eq!(
        report_screen(value(r#"{"screen":"hi"}"#), false).unwrap(),
        "hi\u{1b}[0m\n"
    );
    assert_eq!(
        report_screen(value(r#"{"screen":"hi"}"#), true).unwrap(),
        "{\"screen\":\"hi\"}\n"
    );
    assert_eq!(
        report_screen(value(r#"{"screen":null}"#), false).unwrap_err(),
        format!("no screen content for this {}", "task")
    );
    assert_eq!(
        report_screen(value("{}"), true).unwrap(),
        "{\"screen\":null}\n"
    );
}
