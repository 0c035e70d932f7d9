//! A JSON-RPC transport over the standard streams of a child process: its state,
//! the rules by which it answers to events, and the text that it writes.
//!
//! The library does no I/O. Whoever runs the process hands it what happened (a
//! line was read, the process could not be started, the time is over) and does
//! what it asks for.

pub mod command;
pub mod environment;
pub mod error;
pub mod exchange;
pub mod json;
pub mod laws;
pub mod laws_of_environment;
pub mod laws_of_messages;
pub mod laws_of_start;
pub mod laws_of_state;
pub mod laws_of_versions;
pub mod laws_of_views;
pub mod message;
pub mod startup;
pub mod tables;
pub mod text;
pub mod transport;
pub mod version;

pub use command::{CommandLine, SpawnFailure};
pub use environment::{configure_child_environment, fallback_exec_path, safe_names, Host, Platform};
pub use error::{JsonFault, TransportError};
pub use exchange::{reply_outcome, Exchange, ExchangeAction, ExchangeEvent, Reply};
pub use json::{Document, Json, Member, Node};
pub use message::{
    Frame, JsonRpcError, JsonRpcMessage, JsonRpcNotification, JsonRpcRequest, JsonRpcResponse,
    RequestId,
};
pub use startup::{Profile, Rejection, Startup, StartupAction, StartupEvent};
pub use transport::{Delivery, Outgoing, ReadEvent, ReadOutcome, StdioTransport};
pub use version::negotiate_best_version;
