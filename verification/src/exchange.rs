//! A request from its opening to its end: written, waited for, answered or
//! given up.

use std::time::Duration;
use vstd::prelude::*;
use crate::error::{ErrorView, TransportError};
use crate::json::{opt_view, Json};
use crate::message::{
    reads_as, request_text, sent_request, JsonRpcResponse, RequestIdView, ResponseView,
};
use crate::text::is_line;
use crate::transport::{count_key, id_number, Outgoing, StdioTransport, TransportView};

verus! {

/// How far a request is.
#[derive(Debug)]
pub enum Exchange {
    /// Nothing was done.
    New { method: String, params: Option<Json> },
    /// The message is being written.
    Writing { key: String, caller: u64 },
    /// The answer is waited for.
    Waiting { key: String, caller: u64 },
    /// The request is over.
    Closed,
}

/// How the wait for an answer ended.
#[derive(Debug)]
pub enum Reply {
    Answered(JsonRpcResponse),
    ChannelClosed,
    TimedOut,
}

/// What happens to a request.
#[derive(Debug)]
pub enum ExchangeEvent {
    /// The request is to be sent.
    Send,
    /// The message was written.
    Written,
    /// The message could not be written.
    WriteFailed(TransportError),
    /// The wait is over.
    Replied(Reply),
    /// Nobody wants the answer any more.
    Cancelled,
}

/// What a request asks for.
#[derive(Debug)]
pub enum ExchangeAction {
    /// Write the line, with the caller ready to be woken.
    Write { caller: u64, line: String },
    /// Wait until the caller is woken, and no longer than that.
    Wait { caller: u64, timeout: Duration },
    /// The request is over with this outcome.
    Return(Result<JsonRpcResponse, TransportError>),
    /// The request is over without an outcome, or does not wait for that event.
    Nothing,
}

/// How far a request is, in contracts.
pub enum ExchangeView {
    New { method: Seq<char>, params: Option<Seq<char>> },
    Writing { key: Seq<char>, caller: u64 },
    Waiting { key: Seq<char>, caller: u64 },
    Closed,
}

/// How a wait ended, in contracts.
pub enum ReplyView {
    Answered(ResponseView),
    ChannelClosed,
    TimedOut,
}

/// What happens to a request, in contracts.
pub enum ExchangeEventView {
    Send,
    Written,
    WriteFailed(ErrorView),
    Replied(ReplyView),
    Cancelled,
}

/// What a request asks for, in contracts.
pub enum ExchangeActionView {
    Write { caller: u64, line: Seq<char> },
    Wait { caller: u64, timeout: Duration },
    Return(Result<ResponseView, ErrorView>),
    Nothing,
}

impl View for Exchange {
    type V = ExchangeView;

    open spec fn view(&self) -> ExchangeView {
        match self {
            Exchange::New { method, params } => ExchangeView::New {
                method: method@,
                params: opt_view(*params),
            },
            Exchange::Writing { key, caller } => ExchangeView::Writing {
                key: key@,
                caller: *caller,
            },
            Exchange::Waiting { key, caller } => ExchangeView::Waiting {
                key: key@,
                caller: *caller,
            },
            Exchange::Closed => ExchangeView::Closed,
        }
    }
}

impl View for Reply {
    type V = ReplyView;

    open spec fn view(&self) -> ReplyView {
        match self {
            Reply::Answered(response) => ReplyView::Answered(response@),
            Reply::ChannelClosed => ReplyView::ChannelClosed,
            Reply::TimedOut => ReplyView::TimedOut,
        }
    }
}

impl View for ExchangeEvent {
    type V = ExchangeEventView;

    open spec fn view(&self) -> ExchangeEventView {
        match self {
            ExchangeEvent::Send => ExchangeEventView::Send,
            ExchangeEvent::Written => ExchangeEventView::Written,
            ExchangeEvent::WriteFailed(e) => ExchangeEventView::WriteFailed(e@),
            ExchangeEvent::Replied(reply) => ExchangeEventView::Replied(reply@),
            ExchangeEvent::Cancelled => ExchangeEventView::Cancelled,
        }
    }
}

impl View for ExchangeAction {
    type V = ExchangeActionView;

    open spec fn view(&self) -> ExchangeActionView {
        match self {
            ExchangeAction::Write { caller, line } => ExchangeActionView::Write {
                caller: *caller,
                line: line@,
            },
            ExchangeAction::Wait { caller, timeout } => ExchangeActionView::Wait {
                caller: *caller,
                timeout: *timeout,
            },
            ExchangeAction::Return(outcome) => ExchangeActionView::Return(reply_view(*outcome)),
            ExchangeAction::Nothing => ExchangeActionView::Nothing,
        }
    }
}

/// What a caller gets, in contracts.
pub open spec fn reply_view(outcome: Result<JsonRpcResponse, TransportError>) -> Result<
    ResponseView,
    ErrorView,
> {
    match outcome {
        Ok(response) => Ok(response@),
        Err(e) => Err(e@),
    }
}

/// What a caller gets for how its wait ended.
pub open spec fn outcome_of(reply: ReplyView) -> Result<ResponseView, ErrorView> {
    match reply {
        ReplyView::Answered(response) => Ok(response),
        ReplyView::ChannelClosed => Err(ErrorView::Transport("Response channel closed"@)),
        ReplyView::TimedOut => Err(ErrorView::BackendTimeout("Request timed out"@)),
    }
}

/// A request with the transport that it goes through.
pub struct Pending {
    pub transport: TransportView,
    pub exchange: ExchangeView,
}

impl Pending {
    /// The request is over, and nobody waits under its key.
    pub open spec fn closes(self, key: Seq<char>) -> Pending {
        Pending { transport: self.transport.after_end(key), exchange: ExchangeView::Closed }
    }

    /// What sending leads to. The caller waits from before the message is
    /// written, so that no answer can come too early; where nothing can be
    /// written, nobody waits.
    pub open spec fn sends(self, method: Seq<char>, params: Option<Seq<char>>) -> (
        Pending,
        ExchangeActionView,
    ) {
        let caller = self.transport.next;
        let key = count_key(caller);
        let opened = self.transport.after_begin();
        let message = request_text(RequestIdView::Number(id_number(caller)), method, params);
        match self.transport.message_line(message) {
            Ok(line) => (
                Pending { transport: opened, exchange: ExchangeView::Writing { key, caller } },
                ExchangeActionView::Write { caller, line },
            ),
            Err(e) => (
                (Pending { transport: opened, exchange: self.exchange }).closes(key),
                ExchangeActionView::Return(Err(e)),
            ),
        }
    }

    /// What an event leads to.
    pub open spec fn step(self, event: ExchangeEventView) -> (Pending, ExchangeActionView) {
        match (self.exchange, event) {
            (ExchangeView::New { method, params }, ExchangeEventView::Send) => self.sends(
                method,
                params,
            ),
            (ExchangeView::New { method, params }, ExchangeEventView::Cancelled) => (
                Pending { exchange: ExchangeView::Closed, ..self },
                ExchangeActionView::Nothing,
            ),
            (ExchangeView::Writing { key, caller }, ExchangeEventView::Written) => (
                Pending { exchange: ExchangeView::Waiting { key, caller }, ..self },
                ExchangeActionView::Wait { caller, timeout: self.transport.request_timeout },
            ),
            (ExchangeView::Writing { key, caller }, ExchangeEventView::WriteFailed(e)) => (
                self.closes(key),
                ExchangeActionView::Return(Err(e)),
            ),
            (ExchangeView::Writing { key, caller }, ExchangeEventView::Cancelled) => (
                self.closes(key),
                ExchangeActionView::Nothing,
            ),
            (ExchangeView::Waiting { key, caller }, ExchangeEventView::Replied(reply)) => (
                self.closes(key),
                ExchangeActionView::Return(outcome_of(reply)),
            ),
            (ExchangeView::Waiting { key, caller }, ExchangeEventView::Cancelled) => (
                self.closes(key),
                ExchangeActionView::Nothing,
            ),
            _ => (self, ExchangeActionView::Nothing),
        }
    }
}

/// A step as it is in contracts.
pub open spec fn exchanged(transport: TransportView, next: (Exchange, ExchangeAction)) -> (
    Pending,
    ExchangeActionView,
) {
    (Pending { transport, exchange: next.0@ }, next.1@)
}

/// What a caller gets for how its wait ended.
pub fn reply_outcome(reply: Reply) -> (outcome: Result<JsonRpcResponse, TransportError>)
    ensures
        reply_view(outcome) == outcome_of(reply@),
{
    match reply {
        Reply::Answered(response) => Ok(response),
        Reply::ChannelClosed => Err(
            TransportError::Transport("Response channel closed".to_owned()),
        ),
        Reply::TimedOut => Err(TransportError::BackendTimeout("Request timed out".to_owned())),
    }
}

impl StdioTransport {
    /// One step of a request: from how far it is and what happened to how far it
    /// then is and what to do next. What is to be written is one line, which reads
    /// back as the request. However the request ends, its caller waits no more.
    pub fn request(&mut self, exchange: Exchange, event: ExchangeEvent) -> (next: (
        Exchange,
        ExchangeAction,
    ))
        ensures
            exchanged(final(self)@, next) == (Pending {
                transport: old(self)@,
                exchange: exchange@,
            }).step(event@),
            next.1@ matches ExchangeActionView::Write { caller, line } ==> {
                &&& is_line(line)
                &&& exchange@ matches ExchangeView::New { method, params } && reads_as(
                    line.drop_last(),
                    sent_request(RequestIdView::Number(id_number(caller)), method, params),
                    params,
                )
            },
    {
        match (exchange, event) {
            (Exchange::New { method, params }, ExchangeEvent::Send) => {
                let Outgoing { caller, key, message } = self.begin_request(method.as_str(), params);
                match self.write_message(message.as_str()) {
                    Ok(line) => (
                        Exchange::Writing { key, caller },
                        ExchangeAction::Write { caller, line },
                    ),
                    Err(e) => {
                        self.end_request(key.as_str());
                        (Exchange::Closed, ExchangeAction::Return(Err(e)))
                    },
                }
            },
            (Exchange::New { .. }, ExchangeEvent::Cancelled) => (
                Exchange::Closed,
                ExchangeAction::Nothing,
            ),
            (Exchange::Writing { key, caller }, ExchangeEvent::Written) => (
                Exchange::Waiting { key, caller },
                ExchangeAction::Wait { caller, timeout: self.request_timeout },
            ),
            (Exchange::Writing { key, .. }, ExchangeEvent::WriteFailed(e)) => {
                self.end_request(key.as_str());
                (Exchange::Closed, ExchangeAction::Return(Err(e)))
            },
            (Exchange::Writing { key, .. }, ExchangeEvent::Cancelled) => {
                self.end_request(key.as_str());
                (Exchange::Closed, ExchangeAction::Nothing)
            },
            (Exchange::Waiting { key, .. }, ExchangeEvent::Replied(reply)) => {
                self.end_request(key.as_str());
                (Exchange::Closed, ExchangeAction::Return(reply_outcome(reply)))
            },
            (Exchange::Waiting { key, .. }, ExchangeEvent::Cancelled) => {
                self.end_request(key.as_str());
                (Exchange::Closed, ExchangeAction::Nothing)
            },
            (exchange, _) => (exchange, ExchangeAction::Nothing),
        }
    }
}

} // verus!
