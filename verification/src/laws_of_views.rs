//! Contracts speak of a value by its view. A view shows every part of its value
//! as it is.

use vstd::prelude::*;
use crate::command::{command_view, split_view, word_views, CommandLine};
use crate::error::{ErrorView, JsonFault, JsonFaultView, TransportError};
use crate::exchange::{
    exchanged, reply_view, Exchange, ExchangeAction, ExchangeActionView, ExchangeEvent,
    ExchangeEventView, ExchangeView, Reply, ReplyView,
};
use crate::json::{
    entry_views, member_views, opt_view, text_views, Document, Entry, Member, Node, NodeView,
};
use crate::message::{
    Frame, JsonRpcError, JsonRpcMessage, JsonRpcNotification, JsonRpcRequest, JsonRpcResponse,
    MessageView, RequestId, RequestIdView,
};
use crate::startup::{
    after, ActionView, EventView, Profile, Rejection, Startup, StartupAction, StartupEvent,
    StartupView,
};
use crate::tables::{captured, notification_views, waiting};
use crate::transport::{
    outcome_view, written, Delivery, ReadEvent, ReadEventView, ReadOutcome, ReadOutcomeView,
    StdioTransport, TransportView,
};

verus! {

/// What an option holds, and whether it holds anything.
pub proof fn law_view_of_an_option<T: View>(value: T)
    ensures
        opt_view(Some(value)) == Some(value@),
        opt_view(None::<T>) is None,
{
}

/// The parts of a list, in number and in order.
pub proof fn law_views_of_lists(
    texts: Seq<String>,
    members: Seq<Member>,
    entries: Seq<Entry>,
    notifications: Seq<JsonRpcNotification>,
    i: int,
)
    ensures
        text_views(texts).len() == texts.len(),
        word_views(texts).len() == texts.len(),
        0 <= i < texts.len() ==> text_views(texts)[i] == texts[i]@ && word_views(texts)[i]
            == texts[i]@,
        member_views(members).len() == members.len(),
        0 <= i < members.len() ==> member_views(members)[i].name == members[i].name@
            && member_views(members)[i].text == members[i].text@,
        entry_views(entries).len() == entries.len(),
        0 <= i < entries.len() ==> entry_views(entries)[i].name == entries[i].name@ && entry_views(
            entries,
        )[i].text == entries[i].value@,
        notification_views(notifications).len() == notifications.len(),
        0 <= i < notifications.len() ==> notification_views(notifications)[i] == notifications[i]@,
{
}

/// A JSON value that was read.
pub proof fn law_view_of_a_document(d: Document)
    ensures
        d@.text == d.value@,
        d@.node == d.node@,
        match d.node {
            Node::Null => d.node@ == NodeView::Null,
            Node::Bool(b) => d.node@ == NodeView::Bool(b),
            Node::Number { text, integer } => d.node@ == (NodeView::Number {
                text: text@,
                integer,
            }),
            Node::Text(s) => d.node@ == NodeView::Text(s@),
            Node::Array(items) => d.node@ == NodeView::Array(text_views(items@)),
            Node::Object(members) => d.node@ == NodeView::Object(member_views(members@)),
        },
{
}

/// A frame, member by member.
pub proof fn law_view_of_a_frame(f: Frame)
    ensures
        f@.jsonrpc == opt_view(f.jsonrpc),
        f@.id == opt_view(f.id),
        f@.method == opt_view(f.method),
        f@.params == opt_view(f.params),
        f@.result == opt_view(f.result),
        f@.error == opt_view(f.error),
        f@.code == opt_view(f.code),
        f@.message == opt_view(f.message),
        f@.data == opt_view(f.data),
{
}

/// The messages, field by field.
pub proof fn law_views_of_messages(
    id: RequestId,
    request: JsonRpcRequest,
    notification: JsonRpcNotification,
    error: JsonRpcError,
    response: JsonRpcResponse,
    message: JsonRpcMessage,
)
    ensures
        match id {
            RequestId::Number(n) => id@ == RequestIdView::Number(n as int),
            RequestId::String(s) => id@ == RequestIdView::Text(s@),
        },
        request@.jsonrpc == request.jsonrpc@,
        request@.id == request.id@,
        request@.method == request.method@,
        request@.params == opt_view(request.params),
        notification@.jsonrpc == notification.jsonrpc@,
        notification@.method == notification.method@,
        notification@.params == opt_view(notification.params),
        error@.code == error.code,
        error@.message == error.message@,
        error@.data == opt_view(error.data),
        response@.jsonrpc == response.jsonrpc@,
        response@.id == opt_view(response.id),
        response@.result == opt_view(response.result),
        response@.error == opt_view(response.error),
        match message {
            JsonRpcMessage::Request(r) => message@ == MessageView::Request(r@),
            JsonRpcMessage::Notification(n) => message@ == MessageView::Notification(n@),
            JsonRpcMessage::Response(r) => message@ == MessageView::Response(r@),
        },
{
}

/// The errors, each of its kind and with its message.
pub proof fn law_view_of_an_error(e: TransportError)
    ensures
        match e {
            TransportError::Json(JsonFault::Syntax(_)) => e@ == ErrorView::Json(
                JsonFaultView::Syntax,
            ),
            TransportError::Json(JsonFault::Shape) => e@ == ErrorView::Json(JsonFaultView::Shape),
            TransportError::Config(m) => e@ == ErrorView::Config(m@),
            TransportError::Protocol(m) => e@ == ErrorView::Protocol(m@),
            TransportError::Transport(m) => e@ == ErrorView::Transport(m@),
            TransportError::TransportPermanent(m) => e@ == ErrorView::TransportPermanent(m@),
            TransportError::BackendTimeout(m) => e@ == ErrorView::BackendTimeout(m@),
        },
{
}

/// The transport, field by field.
pub proof fn law_view_of_a_transport(t: StdioTransport)
    ensures
        t@ == (TransportView {
            waiting: waiting(t.pending),
            next: t.request_id,
            connected: t.connected,
            command: t.command@,
            env: t.env,
            cwd: opt_view(t.cwd),
            request_timeout: t.request_timeout,
            writer_open: t.writer_open,
            protocol_version: opt_view(t.protocol_version),
            captured: captured(t.captured_notifications),
        }),
{
}

/// What is read and what it comes to.
pub proof fn law_views_of_reading(delivery: Delivery, event: ReadEvent, outcome: ReadOutcome)
    ensures
        delivery@.caller == delivery.caller,
        delivery@.response == delivery.response@,
        match event {
            ReadEvent::Line(line) => event@ == ReadEventView::Line(line@),
            ReadEvent::EndOfStream => event@ == ReadEventView::EndOfStream,
            ReadEvent::Failed => event@ == ReadEventView::Failed,
        },
        match outcome {
            ReadOutcome::Handled(d) => outcome@ == ReadOutcomeView::Handled(opt_view(d)),
            ReadOutcome::Refused(e) => outcome@ == ReadOutcomeView::Refused(e@),
            ReadOutcome::Stopped => outcome@ == ReadOutcomeView::Stopped,
        },
{
}

/// What operations return.
pub proof fn law_views_of_outcomes(
    handled: Result<Option<Delivery>, TransportError>,
    text: Result<String, TransportError>,
    reply: Result<JsonRpcResponse, TransportError>,
    command: Result<CommandLine, TransportError>,
    words: Option<Vec<String>>,
)
    ensures
        match handled {
            Ok(d) => outcome_view(handled) == Ok::<_, ErrorView>(opt_view(d)),
            Err(e) => outcome_view(handled) matches Err(v) && v == e@,
        },
        match text {
            Ok(s) => written(text) == Ok::<_, ErrorView>(s@),
            Err(e) => written(text) matches Err(v) && v == e@,
        },
        match reply {
            Ok(r) => reply_view(reply) == Ok::<_, ErrorView>(r@),
            Err(e) => reply_view(reply) matches Err(v) && v == e@,
        },
        match command {
            Ok(c) => command_view(command) == Ok::<_, ErrorView>(
                (c.program@, word_views(c.args@)),
            ),
            Err(e) => command_view(command) matches Err(v) && v == e@,
        },
        match words {
            Some(w) => split_view(words) == Some(word_views(w@)),
            None => split_view(words) is None,
        },
{
}

/// A request on its way: how far it is, what happens to it and what it asks for.
pub proof fn law_views_of_an_exchange(
    t: TransportView,
    exchange: Exchange,
    reply: Reply,
    event: ExchangeEvent,
    action: ExchangeAction,
)
    ensures
        match exchange {
            Exchange::New { method, params } => exchange@ == (ExchangeView::New {
                method: method@,
                params: opt_view(params),
            }),
            Exchange::Writing { key, caller } => exchange@ == (ExchangeView::Writing {
                key: key@,
                caller,
            }),
            Exchange::Waiting { key, caller } => exchange@ == (ExchangeView::Waiting {
                key: key@,
                caller,
            }),
            Exchange::Closed => exchange@ == ExchangeView::Closed,
        },
        match reply {
            Reply::Answered(r) => reply@ == ReplyView::Answered(r@),
            Reply::ChannelClosed => reply@ == ReplyView::ChannelClosed,
            Reply::TimedOut => reply@ == ReplyView::TimedOut,
        },
        match event {
            ExchangeEvent::Send => event@ == ExchangeEventView::Send,
            ExchangeEvent::Written => event@ == ExchangeEventView::Written,
            ExchangeEvent::WriteFailed(e) => event@ == ExchangeEventView::WriteFailed(e@),
            ExchangeEvent::Replied(r) => event@ == ExchangeEventView::Replied(r@),
            ExchangeEvent::Cancelled => event@ == ExchangeEventView::Cancelled,
        },
        match action {
            ExchangeAction::Write { caller, line } => action@ == (ExchangeActionView::Write {
                caller,
                line: line@,
            }),
            ExchangeAction::Wait { caller, timeout } => action@ == (ExchangeActionView::Wait {
                caller,
                timeout,
            }),
            ExchangeAction::Return(outcome) => action@ == ExchangeActionView::Return(
                reply_view(outcome),
            ),
            ExchangeAction::Nothing => action@ == ExchangeActionView::Nothing,
        },
        exchanged(t, (exchange, action)).0.transport == t,
        exchanged(t, (exchange, action)).0.exchange == exchange@,
        exchanged(t, (exchange, action)).1 == action@,
{
}

/// What the start is told of the client and of a rejection.
pub proof fn law_views_of_a_profile(profile: Profile, rejection: Rejection)
    ensures
        profile@.protocol_version == profile.protocol_version@,
        profile@.supported_versions == profile.supported_versions@,
        profile@.diagnostic_command == profile.diagnostic_command@,
        rejection@.version_mismatch == rejection.version_mismatch,
        rejection@.server_versions == match rejection.server_versions {
            Some(versions) => Some(versions@),
            None => None,
        },
{
}

/// A start: how far it is, what it is told and what it asks for.
pub proof fn law_views_of_a_start(
    t: TransportView,
    phase: Startup,
    event: StartupEvent,
    action: StartupAction,
)
    ensures
        match phase {
            Startup::Start => phase@ == StartupView::Start,
            Startup::Launching => phase@ == StartupView::Launching,
            Startup::Asked { version } => phase@ == (StartupView::Asked { version: version@ }),
            Startup::AskedAgain { version } => phase@ == (StartupView::AskedAgain {
                version: version@,
            }),
            Startup::Agreed => phase@ == StartupView::Agreed,
            Startup::Announcing => phase@ == StartupView::Announcing,
            Startup::Announced => phase@ == StartupView::Announced,
            Startup::Settling => phase@ == StartupView::Settling,
            Startup::Done => phase@ == StartupView::Done,
            Startup::Failed => phase@ == StartupView::Failed,
        },
        match event {
            StartupEvent::Begin => event@ == EventView::Begin,
            StartupEvent::Spawned { stdin, stdout, stderr } => event@ == (EventView::Spawned {
                stdin,
                stdout,
                stderr,
            }),
            StartupEvent::SpawnFailed { failure, reason } => event@ == (EventView::SpawnFailed {
                failure,
                reason: reason@,
            }),
            StartupEvent::Answered { response, rejection } => event@ == (EventView::Answered {
                response: response@,
                rejection: rejection@,
            }),
            StartupEvent::RequestFailed(e) => event@ == EventView::RequestFailed(e@),
            StartupEvent::Yielded => event@ == EventView::Yielded,
            StartupEvent::AnnounceSent => event@ == EventView::AnnounceSent,
            StartupEvent::AnnounceFailed(e) => event@ == EventView::AnnounceFailed(e@),
            StartupEvent::Slept => event@ == EventView::Slept,
        },
        match action {
            StartupAction::Spawn { command, cwd } => action@ == (ActionView::Spawn {
                program: command.program@,
                args: word_views(command.args@),
                cwd: opt_view(cwd),
            }),
            StartupAction::Initialize { params } => action@ == (ActionView::Initialize {
                params: params@,
            }),
            StartupAction::Yield => action@ == ActionView::Yield,
            StartupAction::Announce => action@ == ActionView::Announce,
            StartupAction::Sleep { millis } => action@ == (ActionView::Sleep { millis }),
            StartupAction::Finish => action@ == ActionView::Finish,
            StartupAction::Fail(e) => action@ == ActionView::Fail(e@),
            StartupAction::Ignore => action@ == ActionView::Ignore,
        },
        after(t, (phase, action)).0.transport == t,
        after(t, (phase, action)).0.phase == phase@,
        after(t, (phase, action)).1 == action@,
{
}

} // verus!
