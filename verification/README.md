# stdio_transport

A JSON-RPC transport over the standard streams of a child process, as a gateway
uses it to talk to an MCP server.

- `src/` is the library, verified with Verus. It holds the state of the transport
  and decides what each event does: which caller an answer is for, which
  notifications are kept, how a backend is started and the protocol version
  negotiated, and which variables the process gets. It does no I/O.
  `src/laws.rs` states what holds of it as a whole.
- `app/` runs the process: it starts it, reads and writes its streams, and wakes
  the callers.
- `tests/` runs the library on concrete values.

The library relies on `serde_json` for reading and printing JSON, on `shlex` for
splitting a command line, and on `dashmap` for its two maps. What it takes for
granted of them stands in the doc comments of `src/json.rs`, `src/command.rs` and
`src/tables.rs`.
