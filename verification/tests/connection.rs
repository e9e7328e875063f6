use dekit::console::action::ClientId;
use dekit::dekit::connection::{
    config_or_default, dispatch_connection, Acceptor, ConnStep, Incoming, Startup,
};
use dekit::dekit::handler::{Step, SystemTags};
use dekit::protocol::{codes, Request};
use serde_json::Value;

fn tags() -> SystemTags {
    SystemTags { autostart: "auto".to_string(), user: "user".to_string() }
}

fn receive(incoming: Incoming) -> ConnStep {
    match dispatch_connection(ClientId(5), true) {
        ConnStep::Receive { waiting } => waiting.resume(incoming, &tags()),
        _ => panic!("nothing is received"),
    }
}

fn request(method: &str, params: &str) -> Incoming {
    let params: Value = serde_json::from_str(params).unwrap();
    Incoming::Request(Request { id: 77, method: method.to_string(), params })
}

#[test]
fn clients_are_numbered_from_one() {
    let mut acceptor = Acceptor::new();
    assert_eq!(acceptor.accepted(true), Some(ClientId(1)));
    assert_eq!(acceptor.accepted(true), Some(ClientId(2)));
    assert_eq!(acceptor.accepted(false), None);
    assert_eq!(acceptor.last_client_id, 2);
}

#[test]
fn an_unbound_server_quits() {
    let acceptor = Acceptor::new();
    assert_eq!(acceptor.bound(true), Startup::Accept);
    assert_eq!(acceptor.bound(false), Startup::Quit);
}

#[test]
fn a_broken_config_gives_way_to_the_default() {
    assert_eq!(config_or_default(Ok(1), 2), (1, None));
    assert_eq!(
        config_or_default(Err("bad".to_string()), 2),
        (2, Some("bad".to_string()))
    );
}

#[test]
fn connections_close_without_a_request() {
    assert!(matches!(dispatch_connection(ClientId(1), false), ConnStep::Close));
    assert!(matches!(receive(Incoming::Other), ConnStep::Close));
    assert!(matches!(receive(Incoming::Closed), ConnStep::Close));
}

#[test]
fn an_attach_opens_a_session() {
    match receive(request("tui_attach", r#"{"width":80,"height":24}"#)) {
        ConnStep::Attach { client_id, width, height, id } => {
            assert_eq!((client_id, width, height, id), (ClientId(5), 80, 24, 77));
        }
        _ => panic!("no session"),
    }
}

#[test]
fn replies_carry_the_id_of_the_request() {
    match receive(request("shutdown", "null")) {
        ConnStep::Handle { step, waiting } => {
            let outcome = match step {
                Step::Quit { reply } => Ok(reply),
                _ => panic!("no quit"),
            };
            match waiting.resume(outcome) {
                ConnStep::Send(reply) => {
                    assert_eq!(reply.id, 77);
                    assert_eq!(serde_json::to_string(&reply.result.unwrap()).unwrap(), "{}");
                }
                _ => panic!("nothing is sent"),
            }
        }
        _ => panic!("not handled"),
    }
}

#[test]
fn unreadable_requests_are_answered_at_once() {
    for (method, code) in [("nope", codes::UNKNOWN_METHOD), ("start", codes::INVALID_PARAMS)] {
        match receive(request(method, "{}")) {
            ConnStep::Send(reply) => {
                assert_eq!(reply.id, 77);
                assert_eq!(reply.result.unwrap_err().code, code);
            }
            _ => panic!("nothing is sent"),
        }
    }
}
