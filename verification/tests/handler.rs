use dekit::dekit::handler::{
    acted, handle_rpc, parse_path, parse_selector, task_state, EnvChange, Step, SystemTags,
};
use dekit::kernel::{
    ExitInfo, Explain, ExplainDep, KernelCommand, KernelQuery, KernelQueryResponse, Registration,
    TaskId, TaskInfo, TaskPath, TaskSelector, TaskState,
};
use dekit::protocol::{codes, ErrorCode, RpcRequest};
use indexmap::IndexMap;

fn tags() -> SystemTags {
    SystemTags { autostart: "auto".to_string(), user: "user".to_string() }
}

fn path(text: &str) -> TaskPath {
    TaskPath { text: text.to_string() }
}

fn reply(step: Step) -> String {
    match step {
        Step::Reply(Ok(value)) => serde_json::to_string(&value).unwrap(),
        Step::Reply(Err(error)) => panic!("{error:?}"),
        _ => panic!("no reply yet"),
    }
}

fn refusal(step: Step) -> (ErrorCode, String) {
    match step {
        Step::Reply(Err(error)) => (error.code, error.message),
        _ => panic!("no refusal"),
    }
}

fn resolve(step: Step, expected: &str, outcome: Result<TaskPath, String>) -> Step {
    match step {
        Step::Resolve { path, waiting } => {
            assert_eq!(path, expected);
            waiting.resume(outcome)
        }
        _ => panic!("no path to resolve"),
    }
}

fn query(
    step: Step,
    expected: KernelQuery,
    answer: Result<KernelQueryResponse, String>,
) -> Step {
    match step {
        Step::Query { query, waiting } => {
            assert_eq!(query, expected);
            waiting.resume(answer)
        }
        _ => panic!("no query"),
    }
}

fn resolve_spec(step: Step, expected: &str, spec: &str) -> Step {
    match step {
        Step::ResolveSpec { pattern, waiting } => {
            assert_eq!(pattern, expected);
            waiting.resume(spec.to_string())
        }
        _ => panic!("no pattern to resolve"),
    }
}

fn acts(step: Step) -> KernelCommand {
    match step {
        Step::Act { command, .. } => command,
        _ => panic!("no command"),
    }
}

/// The command of a request whose pattern is `x` and resolves to `/root/x`.
fn command(request: RpcRequest) -> KernelCommand {
    acts(resolve_spec(handle_rpc(request, &tags()), "x", "/root/x"))
}

fn spawn(cmd: &[&str], deps: &[&str], cwd: Option<&str>) -> Step {
    handle_rpc(
        RpcRequest::Spawn {
            path: "web".to_string(),
            cmd: cmd.iter().map(|s| s.to_string()).collect(),
            cwd: cwd.map(|s| s.to_string()),
            env: Some(IndexMap::from([
                ("B".to_string(), Some("2".to_string())),
                ("A".to_string(), None),
            ])),
            deps: deps.iter().map(|s| s.to_string()).collect(),
            tags: vec!["t".to_string()],
        },
        &tags(),
    )
}

#[test]
fn states_have_their_tokens() {
    let info = ExitInfo { code: Some(2), signal: Some(-9) };
    for (state, token) in [
        (TaskState::Idle, "idle"),
        (TaskState::Starting, "starting"),
        (TaskState::Running, "running"),
        (TaskState::Ready, "ready"),
        (TaskState::Stopping, "stopping"),
        (TaskState::Backoff, "backoff"),
    ] {
        let wire = task_state(state);
        assert_eq!(wire.state, token);
        assert_eq!((wire.exit_code, wire.signal), (None, None));
    }
    for (state, token) in [(TaskState::Done(info), "done"), (TaskState::Exited(info), "exited")] {
        let wire = task_state(state);
        assert_eq!(wire.state, token);
        assert_eq!((wire.exit_code, wire.signal), (Some(2), Some(-9)));
    }
}

#[test]
fn a_hash_makes_a_tag() {
    let selector = |pattern: &str| parse_selector(pattern, "/spec".to_string());
    let glob = TaskSelector::Glob("/spec".to_string());
    assert_eq!(selector("#backend"), TaskSelector::Tag("backend".to_string()));
    assert_eq!(selector("#"), TaskSelector::Tag("".to_string()));
    assert_eq!(selector("##x"), TaskSelector::Tag("#x".to_string()));
    assert_eq!(selector("/a/*"), glob);
    assert_eq!(selector("/a#b"), glob);
    assert_eq!(selector(""), glob);
}

#[test]
fn paths_that_do_not_resolve_are_bad() {
    assert_eq!(parse_path(Ok(path("/a"))).unwrap(), path("/a"));
    let error = parse_path(Err("empty".to_string())).unwrap_err();
    assert_eq!((error.code, error.message.as_str()), (codes::BAD_PATH, "empty"));
}

#[test]
fn verbs_become_commands() {
    let glob = TaskSelector::Glob("/root/x".to_string());
    let p = || "x".to_string();
    assert_eq!(command(RpcRequest::Start { pattern: p() }), KernelCommand::Start(glob.clone()));
    assert_eq!(command(RpcRequest::Stop { pattern: p() }), KernelCommand::Stop(glob.clone()));
    assert_eq!(command(RpcRequest::Kill { pattern: p() }), KernelCommand::Kill(glob.clone()));
    assert_eq!(command(RpcRequest::Veto { pattern: p() }), KernelCommand::Veto(glob.clone()));
    assert_eq!(
        command(RpcRequest::Restart { pattern: p() }),
        KernelCommand::Restart(glob.clone())
    );
    assert_eq!(command(RpcRequest::Up { pattern: Some(p()) }), KernelCommand::Start(glob.clone()));
    assert_eq!(command(RpcRequest::Down { pattern: Some(p()) }), KernelCommand::Down(glob));
}

#[test]
fn tags_are_acted_on_at_once() {
    assert_eq!(
        acts(handle_rpc(RpcRequest::Kill { pattern: "#t".to_string() }, &tags())),
        KernelCommand::Kill(TaskSelector::Tag("t".to_string()))
    );
}

#[test]
fn bare_verbs_have_defaults() {
    assert_eq!(
        acts(handle_rpc(RpcRequest::Up { pattern: None }, &tags())),
        KernelCommand::Start(TaskSelector::Tag("auto".to_string()))
    );
    assert_eq!(
        acts(handle_rpc(RpcRequest::Down { pattern: None }, &tags())),
        KernelCommand::Down(TaskSelector::All)
    );
}

#[test]
fn every_count_succeeds() {
    for (count, text) in [(0, r#"{"matched":0}"#), (2, r#"{"matched":2}"#)] {
        match handle_rpc(RpcRequest::Stop { pattern: "#x".to_string() }, &tags()) {
            Step::Act { waiting, .. } => assert_eq!(reply(waiting.resume(Ok(count))), text),
            _ => panic!("no command"),
        }
    }
    assert_eq!(serde_json::to_string(&acted(7)).unwrap(), r#"{"matched":7}"#);
}

#[test]
fn a_lost_count_is_internal() {
    match handle_rpc(RpcRequest::Stop { pattern: "#x".to_string() }, &tags()) {
        Step::Act { waiting, .. } => assert_eq!(
            refusal(waiting.resume(Err("channel closed".to_string()))),
            (codes::INTERNAL, "channel closed".to_string())
        ),
        _ => panic!("no command"),
    }
}

#[test]
fn a_late_attach_is_refused() {
    assert_eq!(
        refusal(handle_rpc(RpcRequest::TuiAttach { width: 1, height: 1 }, &tags())),
        (
            codes::INTERNAL,
            "tui_attach must be the first request on a connection".to_string()
        )
    );
}

#[test]
fn shutdown_quits() {
    match handle_rpc(RpcRequest::Shutdown {}, &tags()) {
        Step::Quit { reply } => assert_eq!(serde_json::to_string(&reply).unwrap(), "{}"),
        _ => panic!("no quit"),
    }
}

#[test]
fn tasks_are_listed() {
    let step = handle_rpc(RpcRequest::Ls { pattern: Some("w*".to_string()) }, &tags());
    let step = resolve_spec(step, "w*", "/w*");
    let step = query(
        step,
        KernelQuery::ListTasks(Some("/w*".to_string())),
        Ok(KernelQueryResponse::TaskList(vec![
            TaskInfo {
                id: TaskId(1),
                path: Some(path("/web")),
                label: Some("Web".to_string()),
                state: TaskState::Ready,
            },
            TaskInfo { id: TaskId(12), path: None, label: None, state: TaskState::Idle },
        ])),
    );
    assert_eq!(
        reply(step),
        r#"{"tasks":[{"label":"Web","path":"/web","state":"ready"},{"path":"<task:12>","state":"idle"}]}"#
    );
}

#[test]
fn odd_answers_are_internal() {
    let step = handle_rpc(RpcRequest::Ls { pattern: None }, &tags());
    let step = query(step, KernelQuery::ListTasks(None), Ok(KernelQueryResponse::Other));
    assert_eq!(
        refusal(step),
        (codes::INTERNAL, "unexpected query response".to_string())
    );
    let step = handle_rpc(RpcRequest::Ls { pattern: None }, &tags());
    let step = query(step, KernelQuery::ListTasks(None), Err("kernel is gone".to_string()));
    assert_eq!(refusal(step), (codes::INTERNAL, "kernel is gone".to_string()));
    let step = handle_rpc(RpcRequest::Why { path: "a".to_string() }, &tags());
    let step = resolve(step, "a", Ok(path("/a")));
    let step =
        query(step, KernelQuery::Explain(path("/a")), Ok(KernelQueryResponse::Screen(None)));
    assert_eq!(
        refusal(step),
        (codes::INTERNAL, "unexpected query response".to_string())
    );
}

#[test]
fn explanations_answer_why() {
    let step = handle_rpc(RpcRequest::Why { path: "web".to_string() }, &tags());
    let step = resolve(step, "web", Ok(path("/web")));
    let step = query(
        step,
        KernelQuery::Explain(path("/web")),
        Ok(KernelQueryResponse::Explain(Some(Explain {
            state: TaskState::Exited(ExitInfo { code: Some(1), signal: None }),
            wanted: true,
            supported: false,
            vetoed: true,
            pinned: false,
            required_by: vec!["/x".to_string()],
            deps: vec![ExplainDep {
                name: "/db".to_string(),
                state: TaskState::Starting,
                wanted: true,
                satisfied: false,
            }],
            attempts: 3,
        }))),
    );
    assert_eq!(
        reply(step),
        r#"{"attempts":3,"deps":[{"path":"/db","satisfied":false,"state":"starting","wanted":true}],"exit_code":1,"path":"web","pinned":false,"required_by":["/x"],"state":"exited","supported":false,"vetoed":true,"wanted":true}"#
    );
}

#[test]
fn questions_about_nothing_are_refused() {
    let step = handle_rpc(RpcRequest::Why { path: "web".to_string() }, &tags());
    let step = resolve(step, "web", Ok(path("/web")));
    let step =
        query(step, KernelQuery::Explain(path("/web")), Ok(KernelQueryResponse::Explain(None)));
    assert_eq!(refusal(step), (codes::NO_MATCH, "no task at 'web'".to_string()));

    let step = handle_rpc(RpcRequest::Screen { path: "web".to_string() }, &tags());
    let step = resolve(step, "web", Ok(path("/web")));
    let step =
        query(step, KernelQuery::GetScreen(path("/web")), Ok(KernelQueryResponse::Screen(None)));
    assert_eq!(
        refusal(step),
        (codes::NO_SCREEN, "no screen content for 'web'".to_string())
    );

    let step = handle_rpc(RpcRequest::Why { path: "..".to_string() }, &tags());
    let step = resolve(step, "..", Err("bad".to_string()));
    assert_eq!(refusal(step), (codes::BAD_PATH, "bad".to_string()));
}

#[test]
fn screens_are_shown() {
    let step = handle_rpc(RpcRequest::Screen { path: "web".to_string() }, &tags());
    let step = resolve(step, "web", Ok(path("/web")));
    let step = query(
        step,
        KernelQuery::GetScreen(path("/web")),
        Ok(KernelQueryResponse::Screen(Some("hi\n".to_string()))),
    );
    assert_eq!(reply(step), r#"{"screen":"hi\n"}"#);
}

#[test]
fn spawns_gather_their_deps_in_order() {
    let step = spawn(&["npm", "start"], &["db", "cache"], Some("/repo"));
    let step = resolve(step, "web", Ok(path("/web")));
    let step = resolve(step, "db", Ok(path("/db")));
    let step = query(
        step,
        KernelQuery::ResolvePath(path("/db")),
        Ok(KernelQueryResponse::ResolvedPath(Some(TaskId(9)))),
    );
    let step = resolve(step, "cache", Ok(path("/cache")));
    let step = query(
        step,
        KernelQuery::ResolvePath(path("/cache")),
        Ok(KernelQueryResponse::ResolvedPath(Some(TaskId(4)))),
    );
    match step {
        Step::Spawn { plan, waiting } => {
            assert_eq!(plan.path, path("/web"));
            assert_eq!(plan.argv, vec!["npm", "start"]);
            assert_eq!(plan.cwd, Some("/repo".to_string()));
            assert_eq!(
                plan.env,
                vec![
                    EnvChange::Assign { name: "B".to_string(), value: "2".to_string() },
                    EnvChange::Unset { name: "A".to_string() },
                ]
            );
            assert_eq!(plan.deps, vec![TaskId(9), TaskId(4)]);
            assert_eq!(plan.tags, vec!["user", "t"]);
            assert!(plan.pinned);
            assert_eq!(reply(waiting.resume(Registration::Accepted)), r#"{"path":"web"}"#);
        }
        _ => panic!("no spawn"),
    }
}

#[test]
fn spawns_run_where_the_server_runs() {
    for dir in [Some("/srv".to_string()), None] {
        let step = resolve(spawn(&["x"], &[], None), "web", Ok(path("/web")));
        match step {
            Step::CurrentDir { waiting } => match waiting.resume(dir.clone()) {
                Step::Spawn { plan, .. } => assert_eq!(plan.cwd, dir),
                _ => panic!("no spawn"),
            },
            _ => panic!("no look at the directory"),
        }
    }
}

#[test]
fn bad_spawns_are_refused() {
    let step = resolve(spawn(&[], &["db"], None), "web", Ok(path("/web")));
    assert_eq!(
        refusal(step),
        (codes::INVALID_PARAMS, "cmd must not be empty".to_string())
    );
    let step = resolve(spawn(&[], &[], None), "web", Err("bad".to_string()));
    assert_eq!(refusal(step), (codes::BAD_PATH, "bad".to_string()));

    let step = resolve(spawn(&["x"], &["db"], None), "web", Ok(path("/web")));
    let step = resolve(step, "db", Err("no good".to_string()));
    assert_eq!(refusal(step), (codes::BAD_PATH, "no good".to_string()));

    let step = resolve(spawn(&["x"], &["db"], None), "web", Ok(path("/web")));
    let step = resolve(step, "db", Ok(path("/db")));
    let step = query(
        step,
        KernelQuery::ResolvePath(path("/db")),
        Ok(KernelQueryResponse::ResolvedPath(None)),
    );
    assert_eq!(refusal(step), (codes::BAD_PATH, "no task at dep 'db'".to_string()));
}

#[test]
fn the_loser_of_a_race_is_told() {
    for (outcome, expected) in [
        (
            Registration::Refused,
            (codes::PATH_TAKEN, "a task already exists at 'web'".to_string()),
        ),
        (
            Registration::Dropped,
            (codes::INTERNAL, "kernel dropped the registration".to_string()),
        ),
    ] {
        let step = resolve(spawn(&["x"], &[], Some("/")), "web", Ok(path("/web")));
        match step {
            Step::Spawn { waiting, .. } => assert_eq!(refusal(waiting.resume(outcome)), expected),
            _ => panic!("no spawn"),
        }
    }
}

#[test]
fn two_spawns_of_one_path_have_one_winner() {
    let race = |outcome: Registration| {
        let step = resolve(spawn(&["sleep", "30"], &[], Some("/")), "web", Ok(path("/web")));
        match step {
            Step::Spawn { plan, waiting } => {
                assert_eq!(plan.path, path("/web"));
                waiting.resume(outcome)
            }
            _ => panic!("no spawn"),
        }
    };
    assert_eq!(reply(race(Registration::Accepted)), r#"{"path":"web"}"#);
    assert!(refusal(race(Registration::Refused)).1.contains("already exists"));
}
