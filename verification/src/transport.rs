//! The state of the transport and what each event does to it.

use std::collections::HashMap;
use std::time::Duration;
use dashmap::DashMap;
use vstd::prelude::*;
use crate::error::{ErrorView, JsonFault, JsonFaultView, TransportError};
use crate::json::{
    has_member, json_document, lemma_member_is_read, opt_view, read_document, Json, NodeView,
};
use crate::message::{
    frame_of, message_of, notification_message, notification_text, progress_token, reads_as,
    request_key, request_message, request_text, sent_notification, sent_request, Frame,
    JsonRpcMessage, JsonRpcNotification, JsonRpcResponse, MessageView, NotificationView, RequestId,
    RequestIdView, ResponseView,
};
use crate::tables::{
    captured, insert_captured, insert_waiting, new_captured, new_waiting, notification_views,
    remove_captured, remove_waiting, waiting,
};
use crate::text::{is_line, join, single_line};

verus! {

/// A transport to a backend process. It holds the callers that wait for an
/// answer and the notifications that were kept; the streams of the process are
/// with whoever runs it.
pub struct StdioTransport {
    /// The callers that wait for an answer, by the key of their request.
    pub pending: DashMap<String, u64>,
    /// The counter of request ids.
    pub request_id: u64,
    /// The handshake is complete, and the process is not known to have ended.
    pub connected: bool,
    /// The command to execute.
    pub command: String,
    /// The variables that the backend is assigned.
    pub env: HashMap<String, String>,
    /// The working directory.
    pub cwd: Option<String>,
    /// How long a request waits for its answer.
    pub request_timeout: Duration,
    /// The process has a standard input that can be written to.
    pub writer_open: bool,
    /// The protocol version that is configured or was negotiated.
    pub protocol_version: Option<String>,
    /// The notifications that were kept, by the progress token that a caller
    /// supplied. Standard output is one stream for all calls, so that the token
    /// is all that tells them apart.
    pub captured_notifications: DashMap<String, Vec<JsonRpcNotification>>,
}

/// A transport in contracts.
pub struct TransportView {
    pub waiting: Map<Seq<char>, u64>,
    pub next: u64,
    pub connected: bool,
    pub command: Seq<char>,
    pub env: HashMap<String, String>,
    pub cwd: Option<Seq<char>>,
    pub request_timeout: Duration,
    pub writer_open: bool,
    pub protocol_version: Option<Seq<char>>,
    pub captured: Map<Seq<char>, Seq<NotificationView>>,
}

impl View for StdioTransport {
    type V = TransportView;

    open spec fn view(&self) -> TransportView {
        TransportView {
            waiting: waiting(self.pending),
            next: self.request_id,
            connected: self.connected,
            command: self.command@,
            env: self.env,
            cwd: opt_view(self.cwd),
            request_timeout: self.request_timeout,
            writer_open: self.writer_open,
            protocol_version: opt_view(self.protocol_version),
            captured: captured(self.captured_notifications),
        }
    }
}

/// An answer, with the number of the caller that it is for.
#[derive(Debug)]
pub struct Delivery {
    pub caller: u64,
    pub response: JsonRpcResponse,
}

/// A delivery in contracts.
pub struct DeliveryView {
    pub caller: u64,
    pub response: ResponseView,
}

impl View for Delivery {
    type V = DeliveryView;

    open spec fn view(&self) -> DeliveryView {
        DeliveryView { caller: self.caller, response: self.response@ }
    }
}

/// What handling a message comes to, in contracts.
pub open spec fn outcome_view(outcome: Result<Option<Delivery>, TransportError>) -> Result<
    Option<DeliveryView>,
    ErrorView,
> {
    match outcome {
        Ok(d) => Ok(opt_view(d)),
        Err(e) => Err(e@),
    }
}

/// The number that a count stands for as a request id: the count in two's
/// complement.
pub open spec fn id_number(count: u64) -> int {
    if count <= i64::MAX {
        count as int
    } else {
        count - 0x1_0000_0000_0000_0000
    }
}

/// The count after a count.
pub open spec fn count_after(count: u64) -> u64 {
    if count == u64::MAX {
        0
    } else {
        (count + 1) as u64
    }
}

/// The key of the request of a count.
pub open spec fn count_key(count: u64) -> Seq<char> {
    request_key(RequestIdView::Number(id_number(count)))
}

impl TransportView {
    /// The transport after an answer: the caller whose request has its key waits
    /// no more.
    pub open spec fn after_response(self, response: ResponseView) -> TransportView {
        match response.id {
            Some(id) => TransportView { waiting: self.waiting.remove(request_key(id)), ..self },
            None => self,
        }
    }

    /// The caller that an answer is for, if one waits under the key of its id.
    pub open spec fn delivery(self, response: ResponseView) -> Option<DeliveryView> {
        match response.id {
            Some(id) => if self.waiting.contains_key(request_key(id)) {
                Some(DeliveryView { caller: self.waiting[request_key(id)], response })
            } else {
                None
            },
            None => None,
        }
    }

    /// The transport after a notification: it is kept for the token that it
    /// carries, if that token is registered.
    pub open spec fn after_capture(
        self,
        token: Option<Seq<char>>,
        notification: NotificationView,
    ) -> TransportView {
        match token {
            Some(t) => if self.captured.contains_key(t) {
                TransportView {
                    captured: self.captured.insert(t, self.captured[t].push(notification)),
                    ..self
                }
            } else {
                self
            },
            None => self,
        }
    }

    /// A line of the peer answers nobody: whoever waits goes on waiting.
    pub open spec fn answers_nobody(self, line: Seq<char>) -> bool {
        &&& self.after_line(line).waiting == self.waiting
        &&& !(self.line_outcome(line) matches Ok(Some(_)))
    }

    /// The transport after something was read from the peer.
    pub open spec fn after_read(self, event: ReadEventView) -> TransportView {
        match event {
            ReadEventView::Line(line) => self.after_line(line),
            ReadEventView::EndOfStream => TransportView { connected: false, ..self },
            ReadEventView::Failed => TransportView { connected: false, ..self },
        }
    }

    /// What reading something from the peer comes to: a line is handled or
    /// refused, and the end of the stream ends the reading.
    pub open spec fn read_outcome(self, event: ReadEventView) -> ReadOutcomeView {
        match event {
            ReadEventView::Line(line) => match self.line_outcome(line) {
                Ok(delivery) => ReadOutcomeView::Handled(delivery),
                Err(e) => ReadOutcomeView::Refused(e),
            },
            ReadEventView::EndOfStream => ReadOutcomeView::Stopped,
            ReadEventView::Failed => ReadOutcomeView::Stopped,
        }
    }

    /// The transport after a message of the peer.
    pub open spec fn after_message(self, message: MessageView) -> TransportView {
        match message {
            MessageView::Response(response) => self.after_response(response),
            MessageView::Notification(n) => self.after_capture(progress_token(n.params), n),
            MessageView::Request(_) => self,
        }
    }

    /// What a message of the peer comes to. An answer goes to the caller that
    /// waits for it, a notification to nobody, and a request is refused.
    pub open spec fn message_outcome(self, message: MessageView) -> Result<
        Option<DeliveryView>,
        ErrorView,
    > {
        match message {
            MessageView::Response(response) => Ok(self.delivery(response)),
            MessageView::Notification(_) => Ok(None),
            MessageView::Request(request) => Err(
                ErrorView::Protocol(
                    "Peer sent request '"@ + request.method + "' on the response stream"@,
                ),
            ),
        }
    }

    /// The transport after a JSON value from the peer.
    pub open spec fn after_value(self, node: NodeView) -> TransportView {
        match message_of(frame_of(node)) {
            Some(message) => self.after_message(message),
            None => self,
        }
    }

    /// What a JSON value from the peer comes to.
    pub open spec fn value_outcome(self, node: NodeView) -> Result<
        Option<DeliveryView>,
        ErrorView,
    > {
        match message_of(frame_of(node)) {
            Some(message) => self.message_outcome(message),
            None => Err(ErrorView::Json(JsonFaultView::Shape)),
        }
    }

    /// The transport after a line from the peer.
    pub open spec fn after_line(self, line: Seq<char>) -> TransportView {
        match json_document(line) {
            Some(d) => self.after_value(d.node),
            None => self,
        }
    }

    /// What a line from the peer comes to.
    pub open spec fn line_outcome(self, line: Seq<char>) -> Result<
        Option<DeliveryView>,
        ErrorView,
    > {
        match json_document(line) {
            Some(d) => self.value_outcome(d.node),
            None => Err(ErrorView::Json(JsonFaultView::Syntax)),
        }
    }
}

impl StdioTransport {
    /// A transport for a command. With a protocol version, the handshake asks
    /// for that one, and else for the latest.
    pub fn new(
        command: &str,
        env: HashMap<String, String>,
        cwd: Option<String>,
        request_timeout: Duration,
        protocol_version: Option<String>,
    ) -> (transport: StdioTransport)
        ensures
            transport@ == (TransportView {
                waiting: Map::empty(),
                next: 1,
                connected: false,
                command: command@,
                env,
                cwd: opt_view(cwd),
                request_timeout,
                writer_open: false,
                protocol_version: opt_view(protocol_version),
                captured: Map::empty(),
            }),
    {
        StdioTransport {
            pending: new_waiting(),
            request_id: 1,
            connected: false,
            command: command.to_owned(),
            env,
            cwd,
            request_timeout,
            writer_open: false,
            protocol_version,
            captured_notifications: new_captured(),
        }
    }

    /// Hands an answer to the caller that waits under the key of its id.
    pub fn route_response(&mut self, response: JsonRpcResponse) -> (delivery: Option<Delivery>)
        ensures
            final(self)@ == old(self)@.after_response(response@),
            opt_view(delivery) == old(self)@.delivery(response@),
    {
        let key: String = match &response.id {
            Some(id) => id.to_key(),
            None => return None,
        };
        match remove_waiting(&mut self.pending, key.as_str()) {
            Some(caller) => Some(Delivery { caller, response }),
            None => None,
        }
    }

    /// Keeps a notification for the call that supplied its token, and drops one
    /// whose token nobody supplied.
    pub fn capture(&mut self, token: Option<String>, notification: JsonRpcNotification)
        ensures
            final(self)@ == old(self)@.after_capture(opt_view(token), notification@),
    {
        let token: String = match token {
            Some(t) => t,
            None => return,
        };
        match remove_captured(&mut self.captured_notifications, token.as_str()) {
            Some(mut list) => {
                let ghost before = list@;
                list.push(notification);
                assert(notification_views(list@) == notification_views(before).push(notification@));
                insert_captured(&mut self.captured_notifications, token, list);
                assert(self@.captured == old(self)@.captured.insert(
                    token@,
                    old(self)@.captured[token@].push(notification@),
                ));
            },
            None => {
                assert(self@.captured == old(self)@.captured);
            },
        }
    }

    /// Keeps a notification for the call that supplied the progress token in its
    /// parameters.
    pub fn capture_notification(&mut self, notification: JsonRpcNotification)
        ensures
            final(self)@ == old(self)@.after_capture(
                progress_token(notification@.params),
                notification@,
            ),
    {
        let token: Option<String> = notification.progress_token();
        self.capture(token, notification);
    }

    /// Handles a message of the peer. A request is refused: handed to a caller,
    /// it would answer the caller with neither a result nor an error.
    pub fn handle_message(&mut self, message: JsonRpcMessage) -> (outcome: Result<
        Option<Delivery>,
        TransportError,
    >)
        ensures
            final(self)@ == old(self)@.after_message(message@),
            outcome_view(outcome) == old(self)@.message_outcome(message@),
    {
        match message {
            JsonRpcMessage::Response(response) => Ok(self.route_response(response)),
            JsonRpcMessage::Notification(notification) => {
                self.capture_notification(notification);
                Ok(None)
            },
            JsonRpcMessage::Request(request) => {
                let mut reason: String = join("Peer sent request '", request.method.as_str());
                reason.append("' on the response stream");
                Err(TransportError::Protocol(reason))
            },
        }
    }

    /// Handles a frame of the peer.
    pub fn handle_frame(&mut self, frame: Frame) -> (outcome: Result<
        Option<Delivery>,
        TransportError,
    >)
        ensures
            match message_of(frame@) {
                Some(message) => {
                    &&& final(self)@ == old(self)@.after_message(message)
                    &&& outcome_view(outcome) == old(self)@.message_outcome(message)
                },
                None => {
                    &&& final(self)@ == old(self)@
                    &&& outcome_view(outcome) == Err::<Option<DeliveryView>, ErrorView>(
                        ErrorView::Json(JsonFaultView::Shape),
                    )
                },
            },
    {
        match frame.classify() {
            Some(message) => self.handle_message(message),
            None => Err(TransportError::Json(JsonFault::Shape)),
        }
    }

    /// Handles a line from the peer's standard output. The line is told apart
    /// before it is routed: one that carries `method` answers nobody.
    pub fn handle_response(&mut self, line: &str) -> (outcome: Result<
        Option<Delivery>,
        TransportError,
    >)
        ensures
            final(self)@ == old(self)@.after_line(line@),
            outcome_view(outcome) == old(self)@.line_outcome(line@),
            has_member(line@, "method"@) ==> old(self)@.answers_nobody(line@),
    {
        match read_document(line) {
            Ok(document) => {
                proof {
                    if has_member(line@, "method"@) {
                        lemma_member_is_read(document@.node->Object_0, "method"@);
                    }
                }
                self.handle_frame(Frame::read(&document.node))
            },
            Err(e) => Err(TransportError::Json(JsonFault::Syntax(e))),
        }
    }

    /// The id of the next request.
    pub fn next_id(&mut self) -> (id: RequestId)
        ensures
            id@ == RequestIdView::Number(id_number(old(self)@.next)),
            final(self)@ == (TransportView { next: count_after(old(self)@.next), ..old(self)@ }),
    {
        let count: u64 = self.request_id;
        let number: i64 = if count <= i64::MAX as u64 {
            count as i64
        } else {
            -((u64::MAX - count) as i64) - 1
        };
        self.request_id = if count == u64::MAX {
            0
        } else {
            count + 1
        };
        RequestId::Number(number)
    }

    /// Opens a request: its caller waits from here on, under the key of its id.
    /// The message stands on one line and reads back as the request.
    pub fn begin_request(&mut self, method: &str, params: Option<Json>) -> (request: Outgoing)
        ensures
            request.caller == old(self)@.next,
            request.key@ == count_key(old(self)@.next),
            request.message@ == request_text(
                RequestIdView::Number(id_number(old(self)@.next)),
                method@,
                opt_view(params),
            ),
            single_line(request.message@),
            reads_as(
                request.message@,
                sent_request(
                    RequestIdView::Number(id_number(old(self)@.next)),
                    method@,
                    opt_view(params),
                ),
                opt_view(params),
            ),
            final(self)@ == old(self)@.after_begin(),
    {
        let caller: u64 = self.request_id;
        let id: RequestId = self.next_id();
        let message: String = request_message(&id, method, params);
        insert_waiting(&mut self.pending, id.to_key(), caller);
        Outgoing { caller, key: id.to_key(), message }
    }

    /// Closes a request, however it ended: nobody waits under its key any more.
    pub fn end_request(&mut self, key: &str)
        ensures
            final(self)@ == old(self)@.after_end(key@),
    {
        let _ = remove_waiting(&mut self.pending, key);
    }

    /// The text that a message is written as: the message and the end of its
    /// line.
    pub fn write_message(&self, message: &str) -> (outcome: Result<String, TransportError>)
        ensures
            written(outcome) == self@.message_line(message@),
            single_line(message@) ==> (outcome matches Ok(line) ==> is_line(line@)
                && line@.drop_last() == message@),
    {
        proof {
            reveal_strlit("\n");
            assert((message@ + "\n"@).drop_last() == message@);
        }
        if self.writer_open {
            Ok(join(message, "\n"))
        } else {
            Err(TransportError::Transport("Not connected".to_owned()))
        }
    }

    /// The text that a notification is written as: one line, which reads back as
    /// the notification.
    pub fn notify(&self, method: &str, params: Option<Json>) -> (outcome: Result<
        String,
        TransportError,
    >)
        ensures
            written(outcome) == self@.message_line(notification_text(method@, opt_view(params))),
            outcome matches Ok(line) ==> is_line(line@),
            outcome matches Ok(line) ==> reads_as(
                line@.drop_last(),
                sent_notification(method@, opt_view(params)),
                opt_view(params),
            ),
    {
        self.write_message(notification_message(method, params).as_str())
    }

    /// The process was started and its standard input can be written to.
    pub fn attach_writer(&mut self)
        ensures
            final(self)@ == (TransportView { writer_open: true, ..old(self)@ }),
    {
        self.writer_open = true;
    }

    /// Whether the peer can be talked to. The flag alone may be behind the
    /// process: `child_exited` says that the process was seen to have ended, and
    /// the flag then follows it.
    pub fn is_connected(&mut self, child_exited: bool) -> (connected: bool)
        ensures
            connected == (old(self)@.connected && !child_exited),
            final(self)@ == (TransportView { connected, ..old(self)@ }),
    {
        if !self.connected {
            return false;
        }
        if child_exited {
            self.connected = false;
            return false;
        }
        true
    }

    /// Closes the transport: nothing can be written any more.
    pub fn close(&mut self)
        ensures
            final(self)@ == old(self)@.closed(),
    {
        self.connected = false;
        self.writer_open = false;
    }

    /// Registers a progress token that a caller supplied. Until then nothing
    /// that carries it is kept.
    pub fn register_progress_token(&mut self, token: &str)
        ensures
            final(self)@ == old(self)@.after_register(token@),
    {
        let list: Vec<JsonRpcNotification> = Vec::new();
        assert(notification_views(list@) == Seq::<NotificationView>::empty());
        insert_captured(&mut self.captured_notifications, token.to_owned(), list);
    }

    /// Takes what was kept for a token, and ends its registration.
    pub fn take_captured_notifications(&mut self, token: &str) -> (list: Vec<JsonRpcNotification>)
        ensures
            notification_views(list@) == old(self)@.kept_for(token@),
            final(self)@ == old(self)@.after_take(token@),
    {
        match remove_captured(&mut self.captured_notifications, token) {
            Some(list) => list,
            None => {
                let list: Vec<JsonRpcNotification> = Vec::new();
                assert(notification_views(list@) == Seq::<NotificationView>::empty());
                list
            },
        }
    }

    /// What reading from the peer's standard output does. A line that cannot be
    /// handled does not end the reading; the end of the stream does, and the
    /// transport is then not connected.
    pub fn on_read(&mut self, event: ReadEvent) -> (outcome: ReadOutcome)
        ensures
            final(self)@ == old(self)@.after_read(event@),
            outcome@ == old(self)@.read_outcome(event@),
            event@ matches ReadEventView::Line(line) ==> (has_member(line, "method"@) ==> old(
                self,
            )@.answers_nobody(line)),
    {
        match event {
            ReadEvent::Line(line) => match self.handle_response(line.as_str()) {
                Ok(delivery) => ReadOutcome::Handled(delivery),
                Err(e) => ReadOutcome::Refused(e),
            },
            ReadEvent::EndOfStream => {
                self.connected = false;
                ReadOutcome::Stopped
            },
            ReadEvent::Failed => {
                self.connected = false;
                ReadOutcome::Stopped
            },
        }
    }
}

/// A request that was opened: the number of its caller, the key under which the
/// caller waits, and the message to write.
#[derive(Debug)]
pub struct Outgoing {
    pub caller: u64,
    pub key: String,
    pub message: String,
}

/// What writing comes to, in contracts.
pub open spec fn written(outcome: Result<String, TransportError>) -> Result<
    Seq<char>,
    ErrorView,
> {
    match outcome {
        Ok(text) => Ok(text@),
        Err(e) => Err(e@),
    }
}

impl TransportView {
    /// The transport after a request was opened: its caller waits under the key
    /// of its id.
    pub open spec fn after_begin(self) -> TransportView {
        TransportView {
            next: count_after(self.next),
            waiting: self.waiting.insert(count_key(self.next), self.next),
            ..self
        }
    }

    /// The transport after a request was closed.
    pub open spec fn after_end(self, key: Seq<char>) -> TransportView {
        TransportView { waiting: self.waiting.remove(key), ..self }
    }

    /// The transport after a token was registered.
    pub open spec fn after_register(self, token: Seq<char>) -> TransportView {
        TransportView { captured: self.captured.insert(token, Seq::empty()), ..self }
    }

    /// The transport after what was kept for a token was taken.
    pub open spec fn after_take(self, token: Seq<char>) -> TransportView {
        TransportView { captured: self.captured.remove(token), ..self }
    }

    /// What a message is written as.
    pub open spec fn message_line(self, message: Seq<char>) -> Result<Seq<char>, ErrorView> {
        if self.writer_open {
            Ok(message + "\n"@)
        } else {
            Err(ErrorView::Transport("Not connected"@))
        }
    }

    /// The transport after it was closed.
    pub open spec fn closed(self) -> TransportView {
        TransportView { connected: false, writer_open: false, ..self }
    }

    /// What was kept for a token: nothing where the token is not registered.
    pub open spec fn kept_for(self, token: Seq<char>) -> Seq<NotificationView> {
        if self.captured.contains_key(token) {
            self.captured[token]
        } else {
            Seq::empty()
        }
    }
}

/// What reading from the peer gives.
#[derive(Debug)]
pub enum ReadEvent {
    Line(String),
    EndOfStream,
    Failed,
}

/// What is to be done after reading.
#[derive(Debug)]
pub enum ReadOutcome {
    /// The line was handled; the answer in it, if a caller waits for it, is to
    /// be delivered.
    Handled(Option<Delivery>),
    /// The line was refused, and the reading goes on.
    Refused(TransportError),
    /// The reading is over.
    Stopped,
}

/// What reading gives, in contracts.
pub enum ReadEventView {
    Line(Seq<char>),
    EndOfStream,
    Failed,
}

/// What is to be done after reading, in contracts.
pub enum ReadOutcomeView {
    Handled(Option<DeliveryView>),
    Refused(ErrorView),
    Stopped,
}

impl View for ReadEvent {
    type V = ReadEventView;

    open spec fn view(&self) -> ReadEventView {
        match self {
            ReadEvent::Line(line) => ReadEventView::Line(line@),
            ReadEvent::EndOfStream => ReadEventView::EndOfStream,
            ReadEvent::Failed => ReadEventView::Failed,
        }
    }
}

impl View for ReadOutcome {
    type V = ReadOutcomeView;

    open spec fn view(&self) -> ReadOutcomeView {
        match self {
            ReadOutcome::Handled(delivery) => ReadOutcomeView::Handled(opt_view(*delivery)),
            ReadOutcome::Refused(e) => ReadOutcomeView::Refused(e@),
            ReadOutcome::Stopped => ReadOutcomeView::Stopped,
        }
    }
}

} // verus!
