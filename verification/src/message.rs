//! JSON-RPC messages: how a frame is told apart, and how one is written.

use vstd::prelude::*;
use crate::json::{
    entry_views, field_of, json_document, json_quoted, lemma_member_at, lemma_no_member,
    nests_at_most, object_text, opt_view, read_document, read_field, Document, DocumentView, Entry,
    Json, MemberView, Node, NodeView, DEPTH_LIMIT,
};
use crate::text::{decimal, decimal_text, single_line};

verus! {

/// The id of a request: a number or a string.
#[derive(Debug, PartialEq, Eq)]
pub enum RequestId {
    Number(i64),
    String(String),
}

/// A request that expects an answer.
#[derive(Debug)]
pub struct JsonRpcRequest {
    pub jsonrpc: String,
    pub id: RequestId,
    pub method: String,
    pub params: Option<Json>,
}

/// A message that expects no answer.
#[derive(Debug)]
pub struct JsonRpcNotification {
    pub jsonrpc: String,
    pub method: String,
    pub params: Option<Json>,
}

/// The error that a peer answers with.
#[derive(Debug)]
pub struct JsonRpcError {
    pub code: i64,
    pub message: String,
    pub data: Option<Json>,
}

/// The answer to a request.
#[derive(Debug)]
pub struct JsonRpcResponse {
    pub jsonrpc: String,
    pub id: Option<RequestId>,
    pub result: Option<Json>,
    pub error: Option<JsonRpcError>,
}

/// A message of either side.
#[derive(Debug)]
pub enum JsonRpcMessage {
    Request(JsonRpcRequest),
    Notification(JsonRpcNotification),
    Response(JsonRpcResponse),
}

/// The id of a request in contracts.
pub enum RequestIdView {
    Number(int),
    Text(Seq<char>),
}

/// A request in contracts.
pub struct RequestView {
    pub jsonrpc: Seq<char>,
    pub id: RequestIdView,
    pub method: Seq<char>,
    pub params: Option<Seq<char>>,
}

/// A notification in contracts.
pub struct NotificationView {
    pub jsonrpc: Seq<char>,
    pub method: Seq<char>,
    pub params: Option<Seq<char>>,
}

/// The error of an answer in contracts.
pub struct RpcErrorView {
    pub code: int,
    pub message: Seq<char>,
    pub data: Option<Seq<char>>,
}

/// An answer in contracts.
pub struct ResponseView {
    pub jsonrpc: Seq<char>,
    pub id: Option<RequestIdView>,
    pub result: Option<Seq<char>>,
    pub error: Option<RpcErrorView>,
}

/// A message in contracts.
pub enum MessageView {
    Request(RequestView),
    Notification(NotificationView),
    Response(ResponseView),
}

impl View for RequestId {
    type V = RequestIdView;

    open spec fn view(&self) -> RequestIdView {
        match self {
            RequestId::Number(n) => RequestIdView::Number(*n as int),
            RequestId::String(s) => RequestIdView::Text(s@),
        }
    }
}

impl View for JsonRpcRequest {
    type V = RequestView;

    open spec fn view(&self) -> RequestView {
        RequestView {
            jsonrpc: self.jsonrpc@,
            id: self.id@,
            method: self.method@,
            params: opt_view(self.params),
        }
    }
}

impl View for JsonRpcNotification {
    type V = NotificationView;

    open spec fn view(&self) -> NotificationView {
        NotificationView {
            jsonrpc: self.jsonrpc@,
            method: self.method@,
            params: opt_view(self.params),
        }
    }
}

impl View for JsonRpcError {
    type V = RpcErrorView;

    open spec fn view(&self) -> RpcErrorView {
        RpcErrorView {
            code: self.code as int,
            message: self.message@,
            data: opt_view(self.data),
        }
    }
}

impl View for JsonRpcResponse {
    type V = ResponseView;

    open spec fn view(&self) -> ResponseView {
        ResponseView {
            jsonrpc: self.jsonrpc@,
            id: opt_view(self.id),
            result: opt_view(self.result),
            error: opt_view(self.error),
        }
    }
}

impl View for JsonRpcMessage {
    type V = MessageView;

    open spec fn view(&self) -> MessageView {
        match self {
            JsonRpcMessage::Request(r) => MessageView::Request(r@),
            JsonRpcMessage::Notification(n) => MessageView::Notification(n@),
            JsonRpcMessage::Response(r) => MessageView::Response(r@),
        }
    }
}

/// The text by which the caller of a request is found: a number in decimal
/// notation, a string as it is.
pub open spec fn request_key(id: RequestIdView) -> Seq<char> {
    match id {
        RequestIdView::Number(n) => decimal(n),
        RequestIdView::Text(s) => s,
    }
}

impl RequestId {
    /// The text by which the caller of the request is found.
    pub fn to_key(&self) -> (key: String)
        ensures
            key@ == request_key(self@),
    {
        match self {
            RequestId::Number(n) => decimal_text(*n),
            RequestId::String(s) => s.clone(),
        }
    }
}

/// The members of a frame that tell what it is, each as it was read. The last
/// three are members of `error`.
#[derive(Debug)]
pub struct Frame {
    pub jsonrpc: Option<Document>,
    pub id: Option<Document>,
    pub method: Option<Document>,
    pub params: Option<Document>,
    pub result: Option<Document>,
    pub error: Option<Document>,
    pub code: Option<Document>,
    pub message: Option<Document>,
    pub data: Option<Document>,
}

/// A frame in contracts.
pub struct FrameView {
    pub jsonrpc: Option<DocumentView>,
    pub id: Option<DocumentView>,
    pub method: Option<DocumentView>,
    pub params: Option<DocumentView>,
    pub result: Option<DocumentView>,
    pub error: Option<DocumentView>,
    pub code: Option<DocumentView>,
    pub message: Option<DocumentView>,
    pub data: Option<DocumentView>,
}

impl View for Frame {
    type V = FrameView;

    open spec fn view(&self) -> FrameView {
        FrameView {
            jsonrpc: opt_view(self.jsonrpc),
            id: opt_view(self.id),
            method: opt_view(self.method),
            params: opt_view(self.params),
            result: opt_view(self.result),
            error: opt_view(self.error),
            code: opt_view(self.code),
            message: opt_view(self.message),
            data: opt_view(self.data),
        }
    }
}

/// The frame that a JSON value holds.
pub open spec fn frame_of(node: NodeView) -> FrameView {
    let error = field_of(node, "error"@);
    let inner = match error {
        Some(d) => d.node,
        None => NodeView::Null,
    };
    FrameView {
        jsonrpc: field_of(node, "jsonrpc"@),
        id: field_of(node, "id"@),
        method: field_of(node, "method"@),
        params: field_of(node, "params"@),
        result: field_of(node, "result"@),
        error,
        code: field_of(inner, "code"@),
        message: field_of(inner, "message"@),
        data: field_of(inner, "data"@),
    }
}

/// The string that a member holds; `None` where it is absent or no string.
pub open spec fn text_of(field: Option<DocumentView>) -> Option<Seq<char>> {
    match field {
        Some(d) => match d.node {
            NodeView::Text(s) => Some(s),
            _ => None,
        },
        None => None,
    }
}

/// The integer that a member holds; `None` where it is absent or no integer of
/// 64 bits.
pub open spec fn integer_of(field: Option<DocumentView>) -> Option<i64> {
    match field {
        Some(d) => match d.node {
            NodeView::Number { text, integer } => integer,
            _ => None,
        },
        None => None,
    }
}

/// A member that is absent or `null` holds nothing.
pub open spec fn holds_nothing(field: Option<DocumentView>) -> bool {
    match field {
        Some(d) => d.node is Null,
        None => true,
    }
}

/// The value that an optional member holds.
pub open spec fn value_of(field: Option<DocumentView>) -> Option<Seq<char>> {
    if holds_nothing(field) {
        None
    } else {
        Some(field->0.text)
    }
}

/// The id that a member holds; `None` where it holds nothing that can be an id.
pub open spec fn id_of(field: Option<DocumentView>) -> Option<RequestIdView> {
    match integer_of(field) {
        Some(n) => Some(RequestIdView::Number(n as int)),
        None => match text_of(field) {
            Some(s) => Some(RequestIdView::Text(s)),
            None => None,
        },
    }
}

/// The members of `error` are those of a JSON-RPC error.
pub open spec fn error_is_well_formed(frame: FrameView) -> bool {
    integer_of(frame.code) is Some && text_of(frame.message) is Some
}

/// The message that a frame is. A frame that carries `method` is a request or a
/// notification, and never an answer.
pub open spec fn message_of(frame: FrameView) -> Option<MessageView> {
    if text_of(frame.jsonrpc) is None {
        None
    } else if !holds_nothing(frame.id) && id_of(frame.id) is None {
        None
    } else if frame.method is Some {
        if text_of(frame.method) is None {
            None
        } else if id_of(frame.id) is Some {
            Some(
                MessageView::Request(
                    RequestView {
                        jsonrpc: text_of(frame.jsonrpc)->0,
                        id: id_of(frame.id)->0,
                        method: text_of(frame.method)->0,
                        params: value_of(frame.params),
                    },
                ),
            )
        } else {
            Some(
                MessageView::Notification(
                    NotificationView {
                        jsonrpc: text_of(frame.jsonrpc)->0,
                        method: text_of(frame.method)->0,
                        params: value_of(frame.params),
                    },
                ),
            )
        }
    } else if !holds_nothing(frame.error) && !error_is_well_formed(frame) {
        None
    } else {
        Some(
            MessageView::Response(
                ResponseView {
                    jsonrpc: text_of(frame.jsonrpc)->0,
                    id: id_of(frame.id),
                    result: value_of(frame.result),
                    error: if holds_nothing(frame.error) {
                        None
                    } else {
                        Some(
                            RpcErrorView {
                                code: integer_of(frame.code)->0 as int,
                                message: text_of(frame.message)->0,
                                data: value_of(frame.data),
                            },
                        )
                    },
                },
            ),
        )
    }
}

impl Frame {
    /// Reads the members of a frame.
    pub fn read(node: &Node) -> (frame: Frame)
        ensures
            frame@ == frame_of(node@),
    {
        let error: Option<Document> = read_field(node, "error");
        let nothing: Node = Node::Null;
        let (code, message, data) = {
            let inner: &Node = match &error {
                Some(d) => &d.node,
                None => &nothing,
            };
            (read_field(inner, "code"), read_field(inner, "message"), read_field(inner, "data"))
        };
        Frame {
            jsonrpc: read_field(node, "jsonrpc"),
            id: read_field(node, "id"),
            method: read_field(node, "method"),
            params: read_field(node, "params"),
            result: read_field(node, "result"),
            error,
            code,
            message,
            data,
        }
    }
}

/// The string that a member holds.
pub(crate) fn take_text(field: Option<Document>) -> (text: Option<String>)
    ensures
        opt_view(text) == text_of(opt_view(field)),
{
    match field {
        Some(d) => match d.node {
            Node::Text(s) => Some(s),
            _ => None,
        },
        None => None,
    }
}

/// The integer that a member holds.
fn take_integer(field: &Option<Document>) -> (integer: Option<i64>)
    ensures
        integer == integer_of(opt_view(*field)),
{
    match field {
        Some(d) => match d.node {
            Node::Number { integer, .. } => integer,
            _ => None,
        },
        None => None,
    }
}

/// Whether a member is absent or `null`.
fn is_nothing(field: &Option<Document>) -> (nothing: bool)
    ensures
        nothing == holds_nothing(opt_view(*field)),
{
    match field {
        Some(d) => match d.node {
            Node::Null => true,
            _ => false,
        },
        None => true,
    }
}

/// The value that an optional member holds.
fn take_value(field: Option<Document>) -> (value: Option<Json>)
    ensures
        opt_view(value) == value_of(opt_view(field)),
{
    if is_nothing(&field) {
        None
    } else {
        match field {
            Some(d) => Some(d.value),
            None => None,
        }
    }
}

/// The id that a member holds.
fn take_id(field: Option<Document>) -> (id: Option<RequestId>)
    ensures
        opt_view(id) == id_of(opt_view(field)),
{
    match take_integer(&field) {
        Some(n) => Some(RequestId::Number(n)),
        None => match take_text(field) {
            Some(s) => Some(RequestId::String(s)),
            None => None,
        },
    }
}

impl Frame {
    /// Tells what message the frame is; `None` where it is none.
    pub fn classify(self) -> (message: Option<JsonRpcMessage>)
        ensures
            opt_view(message) == message_of(self@),
    {
        let Frame { jsonrpc, id, method, params, result, error, code, message, data } = self;
        let jsonrpc: String = match take_text(jsonrpc) {
            Some(version) => version,
            None => return None,
        };
        let anonymous: bool = is_nothing(&id);
        let id: Option<RequestId> = take_id(id);
        if !anonymous && id.is_none() {
            return None;
        }
        if method.is_some() {
            let method: String = match take_text(method) {
                Some(name) => name,
                None => return None,
            };
            let params: Option<Json> = take_value(params);
            return match id {
                Some(id) => Some(
                    JsonRpcMessage::Request(JsonRpcRequest { jsonrpc, id, method, params }),
                ),
                None => Some(
                    JsonRpcMessage::Notification(JsonRpcNotification { jsonrpc, method, params }),
                ),
            };
        }
        let failure: Option<JsonRpcError> = if is_nothing(&error) {
            None
        } else {
            match (take_integer(&code), take_text(message)) {
                (Some(code), Some(message)) => Some(
                    JsonRpcError { code, message, data: take_value(data) },
                ),
                _ => return None,
            }
        };
        Some(
            JsonRpcMessage::Response(
                JsonRpcResponse { jsonrpc, id, result: take_value(result), error: failure },
            ),
        )
    }
}

/// The progress token that a JSON value is: a string as it is, a number as JSON
/// writes it. No other value is a token.
pub open spec fn token_of(field: Option<DocumentView>) -> Option<Seq<char>> {
    match field {
        Some(d) => match d.node {
            NodeView::Text(s) => Some(s),
            NodeView::Number { text, integer } => Some(text),
            _ => None,
        },
        None => None,
    }
}

/// The progress token that the parameters of a notification carry.
pub open spec fn progress_token(params: Option<Seq<char>>) -> Option<Seq<char>> {
    match params {
        Some(text) => match json_document(text) {
            Some(d) => token_of(field_of(d.node, "progressToken"@)),
            None => None,
        },
        None => None,
    }
}

/// The protocol version that the result of `initialize` names.
pub open spec fn named_version(result: Option<Seq<char>>) -> Option<Seq<char>> {
    match result {
        Some(text) => match json_document(text) {
            Some(d) => text_of(field_of(d.node, "protocolVersion"@)),
            None => None,
        },
        None => None,
    }
}

/// The progress token that a member is.
pub fn take_token(field: Option<Document>) -> (token: Option<String>)
    ensures
        opt_view(token) == token_of(opt_view(field)),
{
    match field {
        Some(d) => match d.node {
            Node::Text(s) => Some(s),
            Node::Number { text, .. } => Some(text),
            _ => None,
        },
        None => None,
    }
}

impl JsonRpcNotification {
    /// The progress token that the notification carries.
    pub fn progress_token(&self) -> (token: Option<String>)
        ensures
            opt_view(token) == progress_token(self@.params),
    {
        match &self.params {
            Some(params) => match read_document(params.to_text().as_str()) {
                Ok(d) => take_token(read_field(&d.node, "progressToken")),
                Err(_) => None,
            },
            None => None,
        }
    }
}

/// The JSON text of an id.
pub open spec fn id_text(id: RequestIdView) -> Seq<char> {
    match id {
        RequestIdView::Number(n) => decimal(n),
        RequestIdView::Text(s) => json_quoted(s),
    }
}

/// The member that holds the parameters of a message; absent parameters leave no
/// member.
pub open spec fn params_members(params: Option<Seq<char>>) -> Seq<MemberView> {
    match params {
        Some(text) => seq![MemberView { name: "params"@, text }],
        None => Seq::empty(),
    }
}

/// The members of a request.
pub open spec fn request_members(
    id: RequestIdView,
    method: Seq<char>,
    params: Option<Seq<char>>,
) -> Seq<MemberView> {
    seq![
        MemberView { name: "jsonrpc"@, text: json_quoted("2.0"@) },
        MemberView { name: "id"@, text: id_text(id) },
        MemberView { name: "method"@, text: json_quoted(method) },
    ] + params_members(params)
}

/// The members of a notification.
pub open spec fn notification_members(method: Seq<char>, params: Option<Seq<char>>) -> Seq<
    MemberView,
> {
    seq![
        MemberView { name: "jsonrpc"@, text: json_quoted("2.0"@) },
        MemberView { name: "method"@, text: json_quoted(method) },
    ] + params_members(params)
}

/// A request on the wire.
pub open spec fn request_text(
    id: RequestIdView,
    method: Seq<char>,
    params: Option<Seq<char>>,
) -> Seq<char> {
    object_text(request_members(id, method, params))
}

/// A notification on the wire.
pub open spec fn notification_text(method: Seq<char>, params: Option<Seq<char>>) -> Seq<char> {
    object_text(notification_members(method, params))
}

/// The parameters as a reader takes them: `null` stands for none.
pub open spec fn read_params(params: Option<Seq<char>>) -> Option<Seq<char>> {
    match params {
        Some(text) => value_of(json_document(text)),
        None => None,
    }
}

/// The message that a request is to a reader.
pub open spec fn sent_request(
    id: RequestIdView,
    method: Seq<char>,
    params: Option<Seq<char>>,
) -> MessageView {
    MessageView::Request(
        RequestView { jsonrpc: "2.0"@, id, method, params: read_params(params) },
    )
}

/// The message that a notification is to a reader.
pub open spec fn sent_notification(method: Seq<char>, params: Option<Seq<char>>) -> MessageView {
    MessageView::Notification(
        NotificationView { jsonrpc: "2.0"@, method, params: read_params(params) },
    )
}

/// Parameters that do not nest so deeply that a message with them cannot be read.
pub open spec fn params_are_readable(params: Option<Seq<char>>) -> bool {
    match params {
        Some(text) => nests_at_most(text, (DEPTH_LIMIT - 1) as nat),
        None => true,
    }
}

/// The text reads as that message, and can be read unless the parameters nest
/// too deeply.
pub open spec fn reads_as(
    text: Seq<char>,
    message: MessageView,
    params: Option<Seq<char>>,
) -> bool {
    &&& json_document(text) matches Some(d) ==> message_of(frame_of(d.node)) == Some(message)
    &&& params_are_readable(params) ==> json_document(text) is Some
}

/// The names of the members of a message are all different.
proof fn lemma_message_names()
    ensures
        "jsonrpc"@ != "id"@,
        "jsonrpc"@ != "method"@,
        "jsonrpc"@ != "params"@,
        "id"@ != "method"@,
        "id"@ != "params"@,
        "method"@ != "params"@,
{
    reveal_strlit("jsonrpc");
    reveal_strlit("id");
    reveal_strlit("method");
    reveal_strlit("params");
    assert("jsonrpc"@.len() == 7 && "id"@.len() == 2);
    assert("method"@.len() == 6 && "params"@.len() == 6);
    assert("method"@[0] != "params"@[0]);
}

/// An object with the members of a request is that request.
proof fn lemma_request_reads_back(
    id: RequestIdView,
    method: Seq<char>,
    params: Option<Seq<char>>,
)
    requires
        json_document(json_quoted("2.0"@)) matches Some(d) && d.node == NodeView::Text("2.0"@),
        json_document(json_quoted(method)) matches Some(d) && d.node == NodeView::Text(method),
        id_of(json_document(id_text(id))) == Some(id),
        !holds_nothing(json_document(id_text(id))),
    ensures
        message_of(frame_of(NodeView::Object(request_members(id, method, params)))) == Some(
            sent_request(id, method, params),
        ),
{
    let members = request_members(id, method, params);
    lemma_message_names();
    lemma_member_at(members, 0);
    lemma_member_at(members, 1);
    lemma_member_at(members, 2);
    match params {
        Some(_) => lemma_member_at(members, 3),
        None => lemma_no_member(members, "params"@),
    }
}

/// An object with the members of a notification is that notification.
proof fn lemma_notification_reads_back(method: Seq<char>, params: Option<Seq<char>>)
    requires
        json_document(json_quoted("2.0"@)) matches Some(d) && d.node == NodeView::Text("2.0"@),
        json_document(json_quoted(method)) matches Some(d) && d.node == NodeView::Text(method),
    ensures
        message_of(frame_of(NodeView::Object(notification_members(method, params)))) == Some(
            sent_notification(method, params),
        ),
{
    let members = notification_members(method, params);
    lemma_message_names();
    lemma_member_at(members, 0);
    lemma_member_at(members, 1);
    lemma_no_member(members, "id"@);
    match params {
        Some(_) => lemma_member_at(members, 2),
        None => lemma_no_member(members, "params"@),
    }
}

/// Adds the parameters to the members of a message, if there are any.
fn push_params(entries: &mut Vec<Entry>, params: Option<Json>)
    ensures
        entry_views(final(entries)@) == entry_views(old(entries)@) + params_members(
            opt_view(params),
        ),
{
    match params {
        Some(value) => {
            entries.push(Entry { name: "params".to_owned(), value });
        },
        None => {},
    }
}

/// Writes a request. The text stands on one line and reads back as the request.
pub fn request_message(id: &RequestId, method: &str, params: Option<Json>) -> (message: String)
    ensures
        message@ == request_text(id@, method@, opt_view(params)),
        single_line(message@),
        reads_as(message@, sent_request(id@, method@, opt_view(params)), opt_view(params)),
{
    let ghost given = opt_view(params);
    let id_value: Json = match id {
        RequestId::Number(n) => Json::integer(*n),
        RequestId::String(s) => Json::string(s.as_str()),
    };
    let mut entries: Vec<Entry> = Vec::new();
    entries.push(Entry { name: "jsonrpc".to_owned(), value: Json::string("2.0") });
    entries.push(Entry { name: "id".to_owned(), value: id_value });
    entries.push(Entry { name: "method".to_owned(), value: Json::string(method) });
    push_params(&mut entries, params);
    proof {
        lemma_message_names();
        lemma_request_reads_back(id@, method@, given);
        assert(entry_views(entries@) == request_members(id@, method@, given));
    }
    Json::object(entries).to_text()
}

/// Writes a notification. The text stands on one line and reads back as the
/// notification.
pub fn notification_message(method: &str, params: Option<Json>) -> (message: String)
    ensures
        message@ == notification_text(method@, opt_view(params)),
        single_line(message@),
        reads_as(message@, sent_notification(method@, opt_view(params)), opt_view(params)),
{
    let ghost given = opt_view(params);
    let mut entries: Vec<Entry> = Vec::new();
    entries.push(Entry { name: "jsonrpc".to_owned(), value: Json::string("2.0") });
    entries.push(Entry { name: "method".to_owned(), value: Json::string(method) });
    push_params(&mut entries, params);
    proof {
        lemma_message_names();
        lemma_notification_reads_back(method@, given);
        assert(entry_views(entries@) == notification_members(method@, given));
    }
    Json::object(entries).to_text()
}

} // verus!
