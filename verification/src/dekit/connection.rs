//! What the server does with a listening socket and with each connection.
//!
//! A connection is one handshake, then one request, then either the reply to
//! it or a session of the terminal interface.

use crate::console::action::ClientId;
use crate::dekit::handler::{first_step, handle_rpc, Step, StepView, SystemTags};
use crate::json::json;
use crate::protocol::ctl::{outcome_view, Reply, ReplyView, Request, RpcError};
use crate::protocol::request::{env_in_order, wire_read, RequestView, RpcRequest};
use serde_json::Value;
use vstd::prelude::*;

verus! {

pub open spec fn config_of<C>(loaded: Result<C, String>, default: C) -> (C, Option<String>) {
    match loaded {
        Ok(loaded) => (loaded, None),
        Err(complaint) => (default, Some(complaint)),
    }
}

/// The configuration to run with, and the complaint to log: one that cannot be
/// loaded is replaced by the default.
pub fn config_or_default<C>(loaded: Result<C, String>, default: C) -> (config: (C, Option<String>))
    ensures
        config == config_of(loaded, default),
{
    match loaded {
        Ok(loaded) => (loaded, None),
        Err(complaint) => (default, Some(complaint)),
    }
}

/// What to do once it is known whether the socket could be bound.
#[derive(Clone, Copy, Debug, PartialEq, Eq, Structural)]
pub enum Startup {
    /// Wait for clients.
    Accept,
    /// Nobody can ever connect: tell the kernel to quit.
    Quit,
}

/// Numbers the clients in the order in which they connect, from one.
pub struct Acceptor {
    pub last_client_id: u32,
}

impl Acceptor {
    pub fn new() -> (acceptor: Acceptor)
        ensures
            acceptor.last_client_id == 0,
    {
        Acceptor { last_client_id: 0 }
    }

    pub fn bound(&self, listening: bool) -> (startup: Startup)
        ensures
            startup == if listening {
                Startup::Accept
            } else {
                Startup::Quit
            },
    {
        if listening {
            Startup::Accept
        } else {
            Startup::Quit
        }
    }

    /// The number of the client that just connected. Without a client, because
    /// the socket failed, there is no number and no more clients are waited for.
    pub fn accepted(&mut self, connected: bool) -> (client: Option<ClientId>)
        requires
            connected ==> old(self).last_client_id < u32::MAX,
        ensures
            final(self).last_client_id == old(self).clients_after(connected),
            connected ==> client == Some(final(self).client()),
            !connected ==> client is None,
    {
        if connected {
            self.last_client_id = self.last_client_id + 1;
            Some(ClientId(self.last_client_id))
        } else {
            None
        }
    }

    /// How many clients have connected when one more may have.
    pub open spec fn clients_after(self, connected: bool) -> int {
        if connected {
            self.last_client_id + 1
        } else {
            self.last_client_id as int
        }
    }

    /// The client that connected last.
    pub open spec fn client(self) -> ClientId {
        ClientId(self.last_client_id)
    }
}

/// What came over the connection when a request was due.
pub enum Incoming {
    Request(Request),
    /// A message that is no request.
    Other,
    /// The client has gone.
    Closed,
}

/// What waits for the request.
pub struct OnMessage {
    pub client_id: ClientId,
}

/// What waits for the request to be handled.
pub struct OnOutcome {
    pub id: u64,
}

/// The next thing to do about a connection.
pub enum ConnStep {
    /// Nothing more: drop the connection.
    Close,
    /// Receive one message.
    Receive { waiting: OnMessage },
    /// Hand the connection to a session of the terminal interface.
    Attach { client_id: ClientId, width: u16, height: u16, id: u64 },
    /// Handle a request.
    Handle { step: Step, waiting: OnOutcome },
    /// Send the reply; then the connection is done.
    Send(Reply),
}

/// The mathematical content of a [`ConnStep`].
pub enum ConnStepView {
    Close,
    Receive { client_id: ClientId },
    Attach { client_id: ClientId, width: u16, height: u16, id: u64 },
    Handle { step: StepView, id: u64 },
    Send(ReplyView),
}

impl View for ConnStep {
    type V = ConnStepView;

    open spec fn view(&self) -> ConnStepView {
        match *self {
            ConnStep::Close => ConnStepView::Close,
            ConnStep::Receive { waiting } => ConnStepView::Receive {
                client_id: waiting.client_id,
            },
            ConnStep::Attach { client_id, width, height, id } => ConnStepView::Attach {
                client_id,
                width,
                height,
                id,
            },
            ConnStep::Handle { step, waiting } => ConnStepView::Handle {
                step: step@,
                id: waiting.id,
            },
            ConnStep::Send(reply) => ConnStepView::Send(reply@),
        }
    }
}

/// A client that was greeted may send its request; any other is let go.
pub open spec fn after_greeting(client_id: ClientId, greeted: bool) -> ConnStepView {
    if greeted {
        ConnStepView::Receive { client_id }
    } else {
        ConnStepView::Close
    }
}

/// Begins to serve a client whose handshake succeeded or failed.
pub fn dispatch_connection(client_id: ClientId, greeted: bool) -> (step: ConnStep)
    ensures
        step@ == after_greeting(client_id, greeted),
{
    if greeted {
        ConnStep::Receive { waiting: OnMessage { client_id } }
    } else {
        ConnStep::Close
    }
}

/// Whether `step` begins to handle a request with the content `request`, its
/// environment in the order of the keys.
pub open spec fn begins(step: StepView, request: RequestView, tags: SystemTags) -> bool {
    exists|read: RpcRequest|
        read@ == request && env_in_order(read) && step == #[trigger] first_step(read, tags)
}

/// What a request leads to: an attach goes to a session, a request that cannot
/// be read is refused, and any other is handled.
pub open spec fn serves(
    step: ConnStepView,
    client_id: ClientId,
    request: Request,
    tags: SystemTags,
) -> bool {
    match wire_read(request.method@, json(request.params)) {
        Err(error) => step == ConnStepView::Send(ReplyView { id: request.id, result: Err(error) }),
        Ok(RequestView::TuiAttach { width, height }) => step == (ConnStepView::Attach {
            client_id,
            width,
            height,
            id: request.id,
        }),
        Ok(read) => match step {
            ConnStepView::Handle { step, id } => id == request.id && begins(step, read, tags),
            _ => false,
        },
    }
}

impl OnMessage {
    pub fn resume(self, incoming: Incoming, tags: &SystemTags) -> (step: ConnStep)
        ensures
            match incoming {
                Incoming::Request(request) => serves(step@, self.client_id, request, *tags),
                _ => step@ == ConnStepView::Close,
            },
    {
        let request = match incoming {
            Incoming::Request(request) => request,
            _ => {
                return ConnStep::Close;
            },
        };
        match RpcRequest::from_wire(request.method.as_str(), request.params) {
            Ok(RpcRequest::TuiAttach { width, height }) => ConnStep::Attach {
                client_id: self.client_id,
                width,
                height,
                id: request.id,
            },
            Ok(read) => {
                let ghost content = read@;
                let ghost asked = read;
                let step = handle_rpc(read, tags);
                assert(begins(step@, content, *tags)) by {
                    assert(step@ == first_step(asked, *tags));
                }
                ConnStep::Handle { step, waiting: OnOutcome { id: request.id } }
            },
            Err(error) => ConnStep::Send(Reply::err(request.id, error)),
        }
    }
}

/// The outcome is sent under the id of the request.
pub open spec fn after_outcome(id: u64, outcome: Result<Value, RpcError>) -> ConnStepView {
    ConnStepView::Send(ReplyView { id, result: outcome_view(outcome) })
}

impl OnOutcome {
    /// The reply carries the id of the request.
    pub fn resume(self, outcome: Result<Value, RpcError>) -> (step: ConnStep)
        ensures
            step@ == after_outcome(self.id, outcome),
    {
        match outcome {
            Ok(result) => ConnStep::Send(Reply::ok(self.id, result)),
            Err(error) => ConnStep::Send(Reply::err(self.id, error)),
        }
    }
}

// ---------------------------------------------------------------------------
// Laws.
// ---------------------------------------------------------------------------

/// A configuration that loads is used without complaint; one that does not gives
/// way to the default, and its complaint is kept.
pub proof fn law_broken_configs_give_way<C>(loaded: Result<C, String>, default: C)
    ensures
        loaded is Ok ==> config_of(loaded, default).0 == loaded->Ok_0 && config_of(
            loaded,
            default,
        ).1 is None,
        loaded is Err ==> config_of(loaded, default).0 == default && config_of(
            loaded,
            default,
        ).1 == Some(loaded->Err_0),
{
}

/// Each client that connects counts once, and a failure counts for nothing.
pub proof fn law_each_client_counts_once(acceptor: Acceptor)
    ensures
        acceptor.clients_after(true) - acceptor.clients_after(false) == 1,
        acceptor.clients_after(false) == acceptor.last_client_id,
{
}

/// Clients that connect after a different number of others have different
/// numbers, and the first has the number one.
pub proof fn law_clients_are_told_apart(one: Acceptor, other: Acceptor)
    ensures
        one.client() == other.client() <==> one.last_client_id == other.last_client_id,
        one.last_client_id == 1 ==> one.client().0 == 1,
        one.client().0 == one.last_client_id,
{
}

/// A client is served exactly when the handshake succeeded, and keeps its number.
pub proof fn law_only_greeted_clients_are_served(client_id: ClientId, greeted: bool, step: ConnStep)
    requires
        step@ == after_greeting(client_id, greeted),
    ensures
        greeted ==> (step matches ConnStep::Receive { waiting } && waiting.client_id == client_id),
        !greeted ==> step is Close,
{
}

/// Every request gets what is due to it: a session under its client's number and
/// in the size that it asked for, a refusal at once, or to be handled as the
/// request that it was read as. Whatever is sent is under the id of the request,
/// and no request is dropped.
pub proof fn law_requests_are_served(
    client_id: ClientId,
    request: Request,
    tags: SystemTags,
    step: ConnStep,
)
    requires
        serves(step@, client_id, request, tags),
    ensures
        ({
            let read = wire_read(request.method@, json(request.params));
            match step {
                ConnStep::Send(reply) => reply.id == request.id && reply.result is Err
                    && read is Err && reply.result->Err_0.code == read->Err_0.code
                    && reply.result->Err_0.message@ == read->Err_0.message,
                ConnStep::Attach { client_id: own, width, height, id } => {
                    &&& own == client_id
                    &&& id == request.id
                    &&& read is Ok
                    &&& read->Ok_0 == (RequestView::TuiAttach { width, height })
                },
                ConnStep::Handle { step, waiting } => {
                    &&& waiting.id == request.id
                    &&& read is Ok
                    &&& read->Ok_0 !is TuiAttach
                    &&& exists|asked: RpcRequest|
                        asked@ == read->Ok_0 && env_in_order(asked) && step@
                            == #[trigger] first_step(asked, tags)
                },
                _ => false,
            }
        }),
{
}

/// The reply has the id of the request and the outcome that it came to.
pub proof fn law_outcomes_are_sent(id: u64, outcome: Result<Value, RpcError>, step: ConnStep)
    requires
        step@ == after_outcome(id, outcome),
    ensures
        step matches ConnStep::Send(reply) && reply.id == id && match outcome {
            Ok(value) => reply.result matches Ok(sent) && json(sent) == json(value),
            Err(error) => reply.result matches Err(sent) && sent.code == error.code
                && sent.message@ == error.message@,
        },
{
}

} // verus!
