use dekit::dekit::cli::{
    parse_env, resolve_working_dir, CliCommand, Plan, Report, ServerCommand, Verb,
};
use dekit::protocol::RpcRequest;
use serde_json::Value;

fn texts(items: &[&str]) -> Vec<String> {
    items.iter().map(|s| s.to_string()).collect()
}

fn call(command: CliCommand) -> (RpcRequest, bool, Report) {
    assert!(command.needs_working_dir());
    match command.plan() {
        Plan::Call { request, spawn, report } => (request, spawn, report),
        _ => panic!("no call"),
    }
}

fn failure(command: CliCommand) -> String {
    match command.plan() {
        Plan::Fail { message } => message,
        _ => panic!("no failure"),
    }
}

fn spawn(env: &[&str]) -> CliCommand {
    CliCommand::Spawn {
        path: "/web".to_string(),
        cwd: None,
        env: texts(env),
        deps: texts(&["/db"]),
        tags: texts(&["t"]),
        cmd: texts(&["npm", "start"]),
    }
}

fn value(text: &str) -> Value {
    serde_json::from_str(text).unwrap()
}

#[test]
fn verbs_become_requests() {
    let p = || "/x".to_string();
    assert_eq!(
        call(CliCommand::Start { pattern: p() }),
        (RpcRequest::Start { pattern: p() }, true, Report::Acted(Verb::Started))
    );
    assert_eq!(
        call(CliCommand::Stop { pattern: p() }),
        (RpcRequest::Stop { pattern: p() }, false, Report::Acted(Verb::Stopped))
    );
    assert_eq!(
        call(CliCommand::Kill { pattern: p() }),
        (RpcRequest::Kill { pattern: p() }, false, Report::Acted(Verb::Killed))
    );
    assert_eq!(
        call(CliCommand::Veto { pattern: p() }),
        (RpcRequest::Veto { pattern: p() }, false, Report::Acted(Verb::Vetoed))
    );
    assert_eq!(
        call(CliCommand::Restart { pattern: p() }),
        (RpcRequest::Restart { pattern: p() }, true, Report::Acted(Verb::Restarted))
    );
    assert_eq!(
        call(CliCommand::Up { pattern: None }),
        (RpcRequest::Up { pattern: None }, true, Report::Acted(Verb::Started))
    );
    assert_eq!(
        call(CliCommand::Down { pattern: Some(p()) }),
        (RpcRequest::Down { pattern: Some(p()) }, false, Report::Acted(Verb::PutDown))
    );
    assert_eq!(
        call(CliCommand::Ls { pattern: None }),
        (RpcRequest::Ls { pattern: None }, false, Report::TaskList)
    );
    assert_eq!(
        call(CliCommand::Why { path: p() }),
        (RpcRequest::Why { path: p() }, false, Report::Why)
    );
    assert_eq!(
        call(CliCommand::Screen { path: p() }),
        (RpcRequest::Screen { path: p() }, false, Report::Screen)
    );
}

#[test]
fn spawns_become_requests() {
    let (request, rouses, report) = call(spawn(&["A=1", "B=x=y", "A=2", "C="]));
    assert!(rouses);
    assert_eq!(report, Report::Spawned);
    match request {
        RpcRequest::Spawn { path, cmd, cwd, env, deps, tags } => {
            assert_eq!(path, "/web");
            assert_eq!(cmd, texts(&["npm", "start"]));
            assert_eq!(cwd, None);
            assert_eq!(deps, texts(&["/db"]));
            assert_eq!(tags, texts(&["t"]));
            let entries: Vec<(String, Option<String>)> = env.unwrap().into_iter().collect();
            assert_eq!(
                entries,
                vec![
                    ("A".to_string(), Some("2".to_string())),
                    ("B".to_string(), Some("x=y".to_string())),
                    ("C".to_string(), Some("".to_string())),
                ]
            );
        }
        other => panic!("{other:?}"),
    }
}

#[test]
fn no_settings_make_no_environment() {
    assert_eq!(parse_env(&vec![]).unwrap(), None);
    assert_eq!(parse_env(&texts(&["=v"])).unwrap().unwrap().len(), 1);
}

#[test]
fn bad_settings_are_refused() {
    assert_eq!(
        failure(spawn(&["A=1", "oops", "also"])),
        "--env expects KEY=VALUE, got `oops`"
    );
}

#[test]
fn the_interface_opens() {
    for (command, expected) in [
        (CliCommand::Tui { attach: false }, true),
        (CliCommand::Tui { attach: true }, false),
        (CliCommand::Files { files: vec![] }, true),
    ] {
        assert!(command.needs_working_dir());
        match command.plan() {
            Plan::Tui { spawn } => assert_eq!(spawn, expected),
            _ => panic!("no interface"),
        }
    }
}

#[test]
fn scripts_are_run() {
    let command = CliCommand::Files { files: texts(&["a.js", "b"]) };
    assert!(!command.needs_working_dir());
    match command.plan() {
        Plan::Script { path } => assert_eq!(path, "a.js"),
        _ => panic!("no script"),
    }
    assert_eq!(
        failure(CliCommand::Files { files: texts(&["a.ts"]) }),
        "unknown command or unsupported file: `a.ts` (expected a subcommand or a .js script)"
    );
}

#[test]
fn unknown_commands_are_refused() {
    assert_eq!(
        failure(CliCommand::Unknown { name: "zap".to_string() }),
        "unknown command: zap"
    );
    assert_eq!(
        failure(CliCommand::Server(ServerCommand::Missing)),
        "expected a subcommand after `dekit server` (run, start, stop, status, list, clean)"
    );
}

#[test]
fn mprocs_gets_its_arguments() {
    let command = CliCommand::Mprocs { args: texts(&["--ctl", "x"]) };
    assert!(!command.needs_working_dir());
    match command.plan() {
        Plan::Mprocs { argv } => assert_eq!(argv, texts(&["mprocs", "--ctl", "x"])),
        _ => panic!("no mprocs"),
    }
}

#[test]
fn server_commands_are_told_apart() {
    assert!(matches!(CliCommand::Server(ServerCommand::Start).plan(), Plan::StartServer));
    assert!(matches!(CliCommand::Server(ServerCommand::Stop).plan(), Plan::StopServer));
    assert!(matches!(CliCommand::Server(ServerCommand::Status).plan(), Plan::ServerStatus));
    assert!(matches!(CliCommand::Server(ServerCommand::List).plan(), Plan::ListServers));
    assert!(matches!(CliCommand::Server(ServerCommand::Clean).plan(), Plan::CleanServers));
    assert!(CliCommand::Server(ServerCommand::Status).needs_working_dir());
    assert!(!CliCommand::Server(ServerCommand::List).needs_working_dir());
    assert!(!CliCommand::Server(ServerCommand::Clean).needs_working_dir());
    let run = ServerCommand::Run { dir: "/d".to_string(), log_level: Some("warn".to_string()) };
    match CliCommand::Server(run).plan() {
        Plan::Serve { dir, log_level } => {
            assert_eq!(dir, "/d");
            assert_eq!(log_level, Some("warn".to_string()));
        }
        _ => panic!("no server"),
    }
}

#[test]
fn working_dirs_resolve() {
    let asked = Some("nope".to_string());
    assert_eq!(resolve_working_dir(&asked, Ok(1)), Ok(1));
    assert_eq!(
        resolve_working_dir::<u8>(&asked, Err("not found".to_string())),
        Err("invalid --chdir `nope`: not found".to_string())
    );
    assert_eq!(
        resolve_working_dir::<u8>(&None, Err("gone".to_string())),
        Err("gone".to_string())
    );
}

#[test]
fn reports_are_rendered() {
    let render = |report: Report, result: &str, as_json: bool| report.render(value(result), as_json);
    let acted = Report::Acted(Verb::PutDown);
    assert_eq!(render(acted, r#"{"matched":0}"#, false).unwrap(), "No tasks matched.\n");
    assert_eq!(render(acted, r#"{"matched":1}"#, false).unwrap(), "Put down 1 task.\n");
    assert_eq!(render(acted, r#"{"matched":12}"#, false).unwrap(), "Put down 12 tasks.\n");
    assert_eq!(render(acted, r#"{"matched":1,"x":[]}"#, true).unwrap(), "{\"matched\":1,\"x\":[]}\n");
    assert_eq!(
        render(Report::Spawned, r#"{"path":"/web"}"#, false).unwrap(),
        "Spawned /web.\n"
    );
    assert_eq!(
        render(Report::Spawned, r#"{"path":"/web"}"#, true).unwrap(),
        "{\"path\":\"/web\"}\n"
    );
    assert_eq!(
        render(Report::Spawned, "{}", false).unwrap_err(),
        "missing field `path`"
    );
    for (verb, text) in [
        (Verb::Started, "Started"),
        (Verb::Stopped, "Stopped"),
        (Verb::Killed, "Killed"),
        (Verb::Vetoed, "Vetoed"),
        (Verb::Restarted, "Restarted"),
        (Verb::PutDown, "Put down"),
    ] {
        assert_eq!(verb.text(), text);
    }
}
