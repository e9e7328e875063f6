use dekit::dekit::daemon::{
    daemon_json, report_clean, report_list, report_status, report_stopped, shutdown_daemon,
    start_server, wait_for_daemon, DaemonInfo, Found, StartStep, StopStep,
};

fn info(is_running: bool) -> DaemonInfo {
    DaemonInfo {
        is_running,
        pid: 42,
        working_dir: "/w".to_string(),
        socket: "/s".to_string(),
        version: "1.0".to_string(),
    }
}

const RUNNING: Found = Found::Running { pid: 42 };

/// Stops a server whose lock file is found as the looks say, the last one for
/// ever; gives the end and what was slept.
fn stop(looks: &[Found]) -> (Result<(), String>, u32, Vec<&'static str>) {
    let mut step = shutdown_daemon();
    let mut slept = 0;
    let mut look = 0;
    let mut done = Vec::new();
    loop {
        step = match step {
            StopStep::Status { waiting } => {
                let found = looks[std::cmp::min(look, looks.len() - 1)];
                look += 1;
                waiting.resume(Ok(found))
            }
            StopStep::Clean { waiting } => {
                done.push("clean");
                waiting.resume(Ok(()))
            }
            StopStep::Request { waiting } => {
                done.push("ask");
                waiting.resume()
            }
            StopStep::Sleep { millis, waiting } => {
                slept += millis;
                waiting.resume()
            }
            StopStep::Kill { waiting } => {
                done.push("kill");
                waiting.resume(Ok(()))
            }
            StopStep::Done => return (Ok(()), slept, done),
            StopStep::Fail { message } => return (Err(message), slept, done),
        }
    }
}

fn start(looks: &[Found]) -> (Result<String, String>, u32, Vec<&'static str>) {
    start_as(looks, false)
}

fn start_as(
    looks: &[Found],
    as_json: bool,
) -> (Result<String, String>, u32, Vec<&'static str>) {
    let mut step = start_server();
    let mut slept = 0;
    let mut look = 0;
    let mut done = Vec::new();
    loop {
        step = match step {
            StartStep::Status { waiting } => {
                let found = looks[std::cmp::min(look, looks.len() - 1)];
                look += 1;
                waiting.resume(Ok(found), "/w", as_json)
            }
            StartStep::Clean { waiting } => {
                done.push("clean");
                waiting.resume(Ok(()))
            }
            StartStep::Launch { waiting } => {
                done.push("launch");
                waiting.resume(Ok(()))
            }
            StartStep::Sleep { millis, waiting } => {
                slept += millis;
                waiting.resume()
            }
            StartStep::Done { report } => return (Ok(report), slept, done),
            StartStep::Fail { message } => return (Err(message), slept, done),
        }
    }
}

#[test]
fn descriptions_are_json() {
    assert_eq!(
        serde_json::to_string(&daemon_json(Some(&info(true)))).unwrap(),
        r#"{"pid":42,"running":true,"socket":"/s","version":"1.0","working_dir":"/w"}"#
    );
    assert_eq!(serde_json::to_string(&daemon_json(None)).unwrap(), "null");
}

#[test]
fn status_is_reported() {
    assert_eq!(
        report_status(Some(&info(true)), false),
        "[running] pid=42 socket=/s version=1.0\n"
    );
    assert_eq!(
        report_status(Some(&info(false)), false),
        "[stale] pid=42 socket=/s version=1.0\n"
    );
    assert_eq!(report_status(None, false), "No daemon for this directory.\n");
    assert_eq!(report_status(None, true), "null\n");
}

#[test]
fn lists_are_reported() {
    assert_eq!(report_list(&vec![], false), "No daemons found.\n");
    assert_eq!(report_list(&vec![], true), "[]\n");
    assert_eq!(
        report_list(&vec![info(true), info(false)], false),
        "[running] pid=42 dir=/w socket=/s version=1.0\n[stale] pid=42 dir=/w socket=/s version=1.0\n"
    );
    assert_eq!(
        report_list(&vec![info(false)], true),
        "[{\"pid\":42,\"running\":false,\"socket\":\"/s\",\"version\":\"1.0\",\"working_dir\":\"/w\"}]\n"
    );
    assert_eq!(report_clean(3, false), "Removed 3 stale lock file(s).\n");
    assert_eq!(report_clean(2, true), "{\"removed\":2}\n");
    assert_eq!(report_stopped(false), "Daemon stopped.\n");
    assert_eq!(report_stopped(true), "{\"stopped\":true}\n");
}

#[test]
fn lock_files_say_what_is_found() {
    assert_eq!(Found::of(&None), Found::Absent);
    assert_eq!(Found::of(&Some(info(false))), Found::Stale);
    assert_eq!(Found::of(&Some(info(true))), RUNNING);
}

#[test]
fn only_a_running_server_is_stopped() {
    assert_eq!(
        stop(&[Found::Absent]),
        (Err("No daemon found for this directory".to_string()), 0, vec![])
    );
    assert_eq!(
        stop(&[Found::Stale]),
        (
            Err("Daemon is not running (stale lock file cleaned up)".to_string()),
            0,
            vec!["clean"]
        )
    );
    assert_eq!(stop(&[RUNNING, Found::Absent]), (Ok(()), 0, vec!["ask"]));
    assert_eq!(
        stop(&[RUNNING, RUNNING, RUNNING, Found::Stale]),
        (Ok(()), 200, vec!["ask", "clean"])
    );
}

#[test]
fn a_server_that_stays_is_ended_by_force() {
    assert_eq!(stop(&[RUNNING]), (Ok(()), 5000, vec!["ask", "kill"]));
}

#[test]
fn failures_end_a_stop() {
    let broken = || Err("broken".to_string());
    let looked = match shutdown_daemon() {
        StopStep::Status { waiting } => waiting,
        _ => panic!("no look"),
    };
    assert!(matches!(looked.resume(broken()), StopStep::Fail { message } if message == "broken"));
    match looked.resume(Ok(Found::Stale)) {
        StopStep::Clean { waiting } => assert!(
            matches!(waiting.resume(Err("busy".to_string())), StopStep::Fail { message } if message == "busy")
        ),
        _ => panic!("nothing is cleaned"),
    }
}

#[test]
fn a_running_server_is_not_started_again() {
    assert_eq!(
        start(&[RUNNING]),
        (Ok("Daemon already running (pid=42).\n".to_string()), 0, vec![])
    );
}

#[test]
fn servers_start() {
    assert_eq!(
        start(&[Found::Absent, RUNNING]),
        (Ok("Daemon started for /w.\n".to_string()), 0, vec!["launch"])
    );
    assert_eq!(
        start(&[Found::Stale, Found::Absent, Found::Stale, RUNNING]),
        (Ok("Daemon started for /w.\n".to_string()), 80, vec!["clean", "launch"])
    );
}

#[test]
fn a_server_that_does_not_come_up_is_given_up() {
    assert_eq!(
        start(&[Found::Absent]),
        (Err("daemon did not come up within 2s".to_string()), 2000, vec!["launch"])
    );
}

#[test]
fn failures_end_a_start() {
    match wait_for_daemon() {
        StartStep::Status { waiting } => assert!(
            matches!(waiting.resume(Err("broken".to_string()), "/w", false), StartStep::Fail { message } if message == "broken")
        ),
        _ => panic!("no look"),
    }
    match start_server() {
        StartStep::Status { waiting } => match waiting.resume(Ok(Found::Absent), "/w", false) {
            StartStep::Launch { waiting } => assert!(
                matches!(waiting.resume(Err("no fork".to_string())), StartStep::Fail { message } if message == "no fork")
            ),
            _ => panic!("no launch"),
        },
        _ => panic!("no look"),
    }
}

#[test]
fn starts_are_reported_as_json() {
    assert_eq!(
        start_as(&[RUNNING], true).0,
        Ok("{\"pid\":42,\"started\":false}\n".to_string())
    );
    assert_eq!(
        start_as(&[Found::Absent, RUNNING], true).0,
        Ok("{\"started\":true,\"working_dir\":\"/w\"}\n".to_string())
    );
}
