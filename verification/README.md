# dekit

A background server runs tasks for a directory; the command line talks to it.
This crate is the part of that which can be reasoned about: the wire protocol,
what the server does about each request, what each command comes to, and what
is reported to the user. It is written in Verus: the behaviour of each function
stands in its contract and is proved.

- `src/json.rs`, `src/codec.rs` - JSON values, and the parts that the protocol's
  objects are made of. What `serde_json` and `indexmap` do is trusted here, one
  small function for each operation, and nowhere else.
- `src/protocol/` - requests, results and replies, their wire form, and the laws
  that what is written is read back.
- `src/kernel.rs` - the vocabulary of the task kernel.
- `src/dekit/handler.rs`, `connection.rs` - how the server handles a request and
  a connection, step by step; `laws.rs` says what holds of every run.
- `src/dekit/cli.rs`, `report.rs` - the plan for each command and the text of each
  report.
- `src/dekit/daemon.rs`, `script.rs` - starting and stopping the server, and
  running a script.
- `src/mprocs/event.rs` - the frozen events of mprocs as console actions.

Outside work is never done in the library. A step names it, together with what
waits for its outcome; `app/` does it and hands the outcome back.
