//! What can go wrong in the transport.

use vstd::prelude::*;

verus! {

/// What is wrong with a text that is to be a JSON-RPC message.
#[derive(Debug)]
pub enum JsonFault {
    /// It is not JSON.
    Syntax(serde_json::Error),
    /// It is JSON, but not a JSON-RPC message.
    Shape,
}

/// An error of the transport.
#[derive(Debug)]
pub enum TransportError {
    /// A text cannot be read as a JSON-RPC message.
    Json(JsonFault),
    /// The configuration of the backend is not usable.
    Config(String),
    /// The peer does not keep to the protocol, or refuses to go on.
    Protocol(String),
    /// The connection to the peer fails; it may work at another time.
    Transport(String),
    /// The connection to the peer fails, and waiting does not help.
    TransportPermanent(String),
    /// The peer does not answer in time.
    BackendTimeout(String),
}

/// What is wrong with a text, in contracts. What the parser says of it is left
/// to the parser.
pub enum JsonFaultView {
    Syntax,
    Shape,
}

impl View for JsonFault {
    type V = JsonFaultView;

    open spec fn view(&self) -> JsonFaultView {
        match self {
            JsonFault::Syntax(_) => JsonFaultView::Syntax,
            JsonFault::Shape => JsonFaultView::Shape,
        }
    }
}

/// An error in contracts.
pub enum ErrorView {
    Json(JsonFaultView),
    Config(Seq<char>),
    Protocol(Seq<char>),
    Transport(Seq<char>),
    TransportPermanent(Seq<char>),
    BackendTimeout(Seq<char>),
}

impl View for TransportError {
    type V = ErrorView;

    open spec fn view(&self) -> ErrorView {
        match self {
            TransportError::Json(fault) => ErrorView::Json(fault@),
            TransportError::Config(m) => ErrorView::Config(m@),
            TransportError::Protocol(m) => ErrorView::Protocol(m@),
            TransportError::Transport(m) => ErrorView::Transport(m@),
            TransportError::TransportPermanent(m) => ErrorView::TransportPermanent(m@),
            TransportError::BackendTimeout(m) => ErrorView::BackendTimeout(m@),
        }
    }
}

} // verus!
