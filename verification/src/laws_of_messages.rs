//! What a line of the peer means, member by member, and what a message is on the
//! wire, character by character.

use vstd::prelude::*;
use crate::error::{ErrorView, JsonFaultView};
use crate::json::{
    escaped, escaped_char, field_of, json_document, json_quoted, lemma_member_at, lemma_no_member,
    members_text, DocumentView, MemberView, NodeView,
};
use crate::message::{
    frame_of, message_of, named_version, notification_members, notification_text, progress_token,
    request_key, request_members, request_text, sent_notification, sent_request, MessageView,
    NotificationView, RequestIdView, RequestView, ResponseView, RpcErrorView,
};
use crate::text::decimal;
use crate::transport::{DeliveryView, TransportView};

verus! {

// Members

/// The member at a place has that name, and none before it has.
pub open spec fn is_first(members: Seq<MemberView>, i: int, name: Seq<char>) -> bool {
    &&& 0 <= i < members.len()
    &&& members[i].name == name
    &&& forall|j: int| 0 <= j < i ==> (#[trigger] members[j]).name != name
}

/// No member has that name.
pub open spec fn none_has(members: Seq<MemberView>, name: Seq<char>) -> bool {
    forall|j: int| 0 <= j < members.len() ==> (#[trigger] members[j]).name != name
}

/// What a JSON value has under a name: what the first member of that name reads
/// as, or nothing where there is no such member or the value is no object.
pub open spec fn has(node: NodeView, name: Seq<char>, found: Option<DocumentView>) -> bool {
    match node {
        NodeView::Object(members) => {
            ||| none_has(members, name) && found is None
            ||| exists|i: int|
                #[trigger] is_first(members, i, name) && found == json_document(members[i].text)
        },
        _ => found is None,
    }
}

/// A member is found by its name, wherever it stands among the others.
pub proof fn law_member_is_found_by_its_name(
    node: NodeView,
    name: Seq<char>,
    found: Option<DocumentView>,
)
    requires
        has(node, name, found),
    ensures
        field_of(node, name) == found,
{
    match node {
        NodeView::Object(members) => {
            if none_has(members, name) {
                lemma_no_member(members, name);
                if exists|i: int|
                    #[trigger] is_first(members, i, name) && found == json_document(
                        members[i].text,
                    ) {
                    let i = choose|i: int|
                        #[trigger] is_first(members, i, name) && found == json_document(
                            members[i].text,
                        );
                    assert(members[i].name != name);
                }
            } else {
                let i = choose|i: int|
                    #[trigger] is_first(members, i, name) && found == json_document(
                        members[i].text,
                    );
                lemma_member_at(members, i);
            }
        },
        _ => {},
    }
}

/// The version that the result of `initialize` names is the string that its
/// member `protocolVersion` is, whatever other members it has. A result without
/// such a member, or in which it is no string, names none.
pub proof fn law_result_names_its_protocol_version(
    result: Seq<char>,
    d: DocumentView,
    found: Option<DocumentView>,
)
    requires
        json_document(result) == Some(d),
        has(d.node, "protocolVersion"@, found),
    ensures
        match found {
            Some(x) => match x.node {
                NodeView::Text(version) => named_version(Some(result)) == Some(version),
                _ => named_version(Some(result)) is None,
            },
            None => named_version(Some(result)) is None,
        },
        named_version(None) is None,
{
    law_member_is_found_by_its_name(d.node, "protocolVersion"@, found);
}

/// The token that parameters carry is what their member `progressToken` is, a
/// string as it is and a number by its text, whatever other members they have.
/// Parameters without such a member, or in which it is anything else, carry none.
pub proof fn law_params_carry_their_progress_token(
    params: Seq<char>,
    d: DocumentView,
    found: Option<DocumentView>,
)
    requires
        json_document(params) == Some(d),
        has(d.node, "progressToken"@, found),
    ensures
        match found {
            Some(x) => match x.node {
                NodeView::Text(token) => progress_token(Some(params)) == Some(token),
                NodeView::Number { text, integer } => progress_token(Some(params)) == Some(text),
                _ => progress_token(Some(params)) is None,
            },
            None => progress_token(Some(params)) is None,
        },
        progress_token(None) is None,
{
    law_member_is_found_by_its_name(d.node, "progressToken"@, found);
}

/// A text that is not JSON names no version and carries no token.
pub proof fn law_no_json_says_nothing(text: Seq<char>)
    requires
        json_document(text) is None,
    ensures
        named_version(Some(text)) is None,
        progress_token(Some(text)) is None,
{
}

// Lines

/// The members of a message, each as it was read.
pub struct Parts {
    pub jsonrpc: Option<DocumentView>,
    pub id: Option<DocumentView>,
    pub method: Option<DocumentView>,
    pub params: Option<DocumentView>,
    pub result: Option<DocumentView>,
    pub error: Option<DocumentView>,
}

/// The members of an error, each as it was read.
pub struct ErrorParts {
    pub code: Option<DocumentView>,
    pub message: Option<DocumentView>,
    pub data: Option<DocumentView>,
}

/// A line is JSON with those members.
pub open spec fn line_has(line: Seq<char>, parts: Parts) -> bool {
    &&& json_document(line) is Some
    &&& has(json_document(line)->0.node, "jsonrpc"@, parts.jsonrpc)
    &&& has(json_document(line)->0.node, "id"@, parts.id)
    &&& has(json_document(line)->0.node, "method"@, parts.method)
    &&& has(json_document(line)->0.node, "params"@, parts.params)
    &&& has(json_document(line)->0.node, "result"@, parts.result)
    &&& has(json_document(line)->0.node, "error"@, parts.error)
}

/// An error is JSON with those members.
pub open spec fn error_has(error: DocumentView, parts: ErrorParts) -> bool {
    &&& has(error.node, "code"@, parts.code)
    &&& has(error.node, "message"@, parts.message)
    &&& has(error.node, "data"@, parts.data)
}

/// A member is that string.
pub open spec fn is_string(member: Option<DocumentView>, s: Seq<char>) -> bool {
    member matches Some(d) && d.node == NodeView::Text(s)
}

/// A member is absent or `null`.
pub open spec fn is_absent_or_null(member: Option<DocumentView>) -> bool {
    member matches Some(d) ==> d.node == NodeView::Null
}

/// A member is that id: an integer or a string.
pub open spec fn is_id(member: Option<DocumentView>, id: RequestIdView) -> bool {
    match member {
        Some(d) => match d.node {
            NodeView::Number { text, integer } => integer matches Some(n) && id
                == RequestIdView::Number(n as int),
            NodeView::Text(s) => id == RequestIdView::Text(s),
            _ => false,
        },
        None => false,
    }
}

/// A member holds that value: its text, or nothing where it is absent or `null`.
pub open spec fn holds(member: Option<DocumentView>, value: Option<Seq<char>>) -> bool {
    match value {
        Some(text) => member matches Some(d) && d.node != NodeView::Null && d.text == text,
        None => is_absent_or_null(member),
    }
}

/// The key under which the caller of a request is found: a number in decimal
/// notation, and a string as it is.
pub open spec fn is_key_of(key: Seq<char>, id: RequestIdView) -> bool {
    match id {
        RequestIdView::Number(n) => key == decimal(n),
        RequestIdView::Text(s) => key == s,
    }
}

/// The frame of a line holds the members of the line.
proof fn lemma_line_has(line: Seq<char>, parts: Parts)
    requires
        line_has(line, parts),
    ensures
        ({
            let frame = frame_of(json_document(line)->0.node);
            &&& frame.jsonrpc == parts.jsonrpc
            &&& frame.id == parts.id
            &&& frame.method == parts.method
            &&& frame.params == parts.params
            &&& frame.result == parts.result
            &&& frame.error == parts.error
        }),
{
    let node = json_document(line)->0.node;
    law_member_is_found_by_its_name(node, "jsonrpc"@, parts.jsonrpc);
    law_member_is_found_by_its_name(node, "id"@, parts.id);
    law_member_is_found_by_its_name(node, "method"@, parts.method);
    law_member_is_found_by_its_name(node, "params"@, parts.params);
    law_member_is_found_by_its_name(node, "result"@, parts.result);
    law_member_is_found_by_its_name(node, "error"@, parts.error);
}

/// The frame of a line holds the members of its error.
proof fn lemma_error_has(line: Seq<char>, parts: Parts, error: DocumentView, inner: ErrorParts)
    requires
        line_has(line, parts),
        parts.error == Some(error),
        error_has(error, inner),
    ensures
        ({
            let frame = frame_of(json_document(line)->0.node);
            &&& frame.code == inner.code
            &&& frame.message == inner.message
            &&& frame.data == inner.data
        }),
{
    lemma_line_has(line, parts);
    law_member_is_found_by_its_name(error.node, "code"@, inner.code);
    law_member_is_found_by_its_name(error.node, "message"@, inner.message);
    law_member_is_found_by_its_name(error.node, "data"@, inner.data);
}

/// An answer goes to the caller that waits under the key of its id, as it is, and
/// that caller waits no more. Where nobody waits there, it goes to nobody. Nothing
/// else changes.
pub open spec fn is_routed(
    t: TransportView,
    line: Seq<char>,
    key: Seq<char>,
    response: ResponseView,
) -> bool {
    &&& t.line_outcome(line) == Ok::<Option<DeliveryView>, ErrorView>(
        if t.waiting.contains_key(key) {
            Some(DeliveryView { caller: t.waiting[key], response })
        } else {
            None
        },
    )
    &&& t.after_line(line) == (TransportView { waiting: t.waiting.remove(key), ..t })
}

/// A line without `method` and without an error is an answer, whole: its caller
/// gets the id and the result that the line has.
pub proof fn law_result_is_delivered_whole(
    t: TransportView,
    line: Seq<char>,
    parts: Parts,
    jsonrpc: Seq<char>,
    id: RequestIdView,
    key: Seq<char>,
    result: Option<Seq<char>>,
)
    requires
        line_has(line, parts),
        is_string(parts.jsonrpc, jsonrpc),
        is_id(parts.id, id),
        is_key_of(key, id),
        parts.method is None,
        holds(parts.result, result),
        is_absent_or_null(parts.error),
    ensures
        is_routed(t, line, key, ResponseView { jsonrpc, id: Some(id), result, error: None }),
{
    lemma_line_has(line, parts);
    assert(request_key(id) == key);
}

/// A line without `method` and with an error is an answer, whole: its caller gets
/// the code, the message and the data of the error, and the result if the line
/// has one too.
pub proof fn law_error_is_delivered_whole(
    t: TransportView,
    line: Seq<char>,
    parts: Parts,
    inner: ErrorParts,
    error: DocumentView,
    jsonrpc: Seq<char>,
    id: RequestIdView,
    key: Seq<char>,
    result: Option<Seq<char>>,
    code: i64,
    code_text: Seq<char>,
    message: Seq<char>,
    data: Option<Seq<char>>,
)
    requires
        line_has(line, parts),
        is_string(parts.jsonrpc, jsonrpc),
        is_id(parts.id, id),
        is_key_of(key, id),
        parts.method is None,
        holds(parts.result, result),
        parts.error == Some(error),
        error.node != NodeView::Null,
        error_has(error, inner),
        inner.code matches Some(c) && c.node == (NodeView::Number {
            text: code_text,
            integer: Some(code),
        }),
        is_string(inner.message, message),
        holds(inner.data, data),
    ensures
        is_routed(
            t,
            line,
            key,
            ResponseView {
                jsonrpc,
                id: Some(id),
                result,
                error: Some(RpcErrorView { code: code as int, message, data }),
            },
        ),
{
    lemma_line_has(line, parts);
    lemma_error_has(line, parts, error, inner);
    assert(request_key(id) == key);
}

/// An answer without an id goes to nobody and changes nothing.
pub proof fn law_answer_without_id_goes_to_nobody(
    t: TransportView,
    line: Seq<char>,
    parts: Parts,
    jsonrpc: Seq<char>,
)
    requires
        line_has(line, parts),
        is_string(parts.jsonrpc, jsonrpc),
        is_absent_or_null(parts.id),
        parts.method is None,
        is_absent_or_null(parts.error),
    ensures
        t.line_outcome(line) == Ok::<Option<DeliveryView>, ErrorView>(None),
        t.after_line(line) == t,
{
    lemma_line_has(line, parts);
}

/// An error without an id goes to nobody and changes nothing either.
pub proof fn law_error_without_id_goes_to_nobody(
    t: TransportView,
    line: Seq<char>,
    parts: Parts,
    inner: ErrorParts,
    error: DocumentView,
    jsonrpc: Seq<char>,
    message: Seq<char>,
)
    requires
        line_has(line, parts),
        is_string(parts.jsonrpc, jsonrpc),
        is_absent_or_null(parts.id),
        parts.method is None,
        parts.error == Some(error),
        error_has(error, inner),
        inner.code matches Some(c) && c.node matches NodeView::Number { text, integer: Some(n) },
        is_string(inner.message, message),
    ensures
        t.line_outcome(line) == Ok::<Option<DeliveryView>, ErrorView>(None),
        t.after_line(line) == t,
{
    lemma_line_has(line, parts);
    lemma_error_has(line, parts, error, inner);
}

/// A line with `method` and without an id is a notification, whole. It is handed
/// to no caller. Where its parameters carry a registered token, it is kept for that
/// token after what was kept before, and else it is dropped; nothing else changes.
pub proof fn law_notification_is_kept_whole(
    t: TransportView,
    line: Seq<char>,
    parts: Parts,
    jsonrpc: Seq<char>,
    method: Seq<char>,
    params: DocumentView,
    token: DocumentView,
    name: Seq<char>,
)
    requires
        line_has(line, parts),
        is_string(parts.jsonrpc, jsonrpc),
        is_absent_or_null(parts.id),
        is_string(parts.method, method),
        parts.params == Some(params),
        json_document(params.text) == Some(params),
        has(params.node, "progressToken"@, Some(token)),
        token.node == NodeView::Text(name) || (token.node matches NodeView::Number { text, .. }
            && text == name),
    ensures
        ({
            let notification = NotificationView { jsonrpc, method, params: Some(params.text) };
            &&& t.line_outcome(line) == Ok::<Option<DeliveryView>, ErrorView>(None)
            &&& t.captured.contains_key(name) ==> t.after_line(line) == (TransportView {
                captured: t.captured.insert(name, t.captured[name].push(notification)),
                ..t
            })
            &&& !t.captured.contains_key(name) ==> t.after_line(line) == t
        }),
{
    lemma_line_has(line, parts);
    law_params_carry_their_progress_token(params.text, params, Some(token));
    assert(params.node is Object);
}

/// A notification that carries no token, having no parameters or none that are a
/// token, is dropped.
pub proof fn law_notification_without_token_is_dropped(
    t: TransportView,
    line: Seq<char>,
    parts: Parts,
    jsonrpc: Seq<char>,
    method: Seq<char>,
    token: Option<DocumentView>,
)
    requires
        line_has(line, parts),
        is_string(parts.jsonrpc, jsonrpc),
        is_absent_or_null(parts.id),
        is_string(parts.method, method),
        parts.params matches Some(params) ==> json_document(params.text) == Some(params) && has(
            params.node,
            "progressToken"@,
            token,
        ),
        token matches Some(x) ==> !(x.node is Text) && !(x.node is Number),
    ensures
        t.line_outcome(line) == Ok::<Option<DeliveryView>, ErrorView>(None),
        t.after_line(line) == t,
{
    lemma_line_has(line, parts);
    match parts.params {
        Some(params) => law_params_carry_their_progress_token(params.text, params, token),
        None => {},
    }
}

/// A line with `method` and an id is a request, whole. It is refused, and the
/// refusal names the method.
pub proof fn law_request_of_the_peer_is_refused(
    t: TransportView,
    line: Seq<char>,
    parts: Parts,
    jsonrpc: Seq<char>,
    id: RequestIdView,
    method: Seq<char>,
    params: Option<Seq<char>>,
)
    requires
        line_has(line, parts),
        is_string(parts.jsonrpc, jsonrpc),
        is_id(parts.id, id),
        is_string(parts.method, method),
        holds(parts.params, params),
    ensures
        message_of(frame_of(json_document(line)->0.node)) == Some(
            MessageView::Request(RequestView { jsonrpc, id, method, params }),
        ),
        t.line_outcome(line) == Err::<Option<DeliveryView>, ErrorView>(
            ErrorView::Protocol(
                "Peer sent request '"@ + method + "' on the response stream"@,
            ),
        ),
        t.after_line(line) == t,
{
    lemma_line_has(line, parts);
}

/// A line that is JSON is refused as no message, and changes nothing, where
/// `jsonrpc` is no string, where the id is neither an integer nor a string,
/// where `method` is no string, or where it is an answer with an error that has no
/// integer code or no message.
pub proof fn law_json_that_is_no_message_is_refused(
    t: TransportView,
    line: Seq<char>,
    parts: Parts,
    inner: ErrorParts,
)
    requires
        line_has(line, parts),
        parts.error matches Some(error) ==> error_has(error, inner),
        ({
            ||| forall|s: Seq<char>| !is_string(parts.jsonrpc, s)
            ||| !is_absent_or_null(parts.id) && forall|id: RequestIdView| !is_id(parts.id, id)
            ||| parts.method is Some && forall|s: Seq<char>| !is_string(parts.method, s)
            ||| parts.method is None && !is_absent_or_null(parts.error) && {
                ||| forall|s: Seq<char>| !is_string(inner.message, s)
                ||| !(inner.code matches Some(c) && c.node matches NodeView::Number {
                    text,
                    integer: Some(n),
                })
            }
        }),
    ensures
        t.line_outcome(line) == Err::<Option<DeliveryView>, ErrorView>(
            ErrorView::Json(JsonFaultView::Shape),
        ),
        t.after_line(line) == t,
{
    lemma_line_has(line, parts);
    match parts.error {
        Some(error) => lemma_error_has(line, parts, error, inner),
        None => {},
    }
    match parts.jsonrpc {
        Some(d) => match d.node {
            NodeView::Text(s) => assert(is_string(parts.jsonrpc, s)),
            _ => {},
        },
        None => {},
    }
    match parts.method {
        Some(d) => match d.node {
            NodeView::Text(s) => assert(is_string(parts.method, s)),
            _ => {},
        },
        None => {},
    }
    match inner.message {
        Some(d) => match d.node {
            NodeView::Text(s) => assert(is_string(inner.message, s)),
            _ => {},
        },
        None => {},
    }
    match parts.id {
        Some(d) => match d.node {
            NodeView::Text(s) => assert(is_id(parts.id, RequestIdView::Text(s))),
            NodeView::Number { text, integer: Some(n) } => {
                assert(is_id(parts.id, RequestIdView::Number(n as int)));
            },
            _ => {},
        },
        None => {},
    }
}

/// A line that is not JSON is refused as such, and changes nothing.
pub proof fn law_line_that_is_no_json_is_refused(t: TransportView, line: Seq<char>)
    requires
        json_document(line) is None,
    ensures
        t.line_outcome(line) == Err::<Option<DeliveryView>, ErrorView>(
            ErrorView::Json(JsonFaultView::Syntax),
        ),
        t.after_line(line) == t,
{
}

// The wire

/// A text without characters that JSON escapes stands in quotation marks as it
/// is.
pub proof fn law_plain_text_is_quoted_as_it_is(s: Seq<char>)
    requires
        forall|i: int|
            0 <= i < s.len() ==> #[trigger] s[i] > '\u{1f}' && s[i] != '"' && s[i] != '\\',
    ensures
        json_quoted(s) == seq!['"'] + s + seq!['"'],
{
    lemma_plain_text_is_not_escaped(s);
}

/// A text without such characters is not escaped.
proof fn lemma_plain_text_is_not_escaped(s: Seq<char>)
    requires
        forall|i: int|
            0 <= i < s.len() ==> #[trigger] s[i] > '\u{1f}' && s[i] != '"' && s[i] != '\\',
    ensures
        escaped(s) == s,
    decreases s.len(),
{
    if s.len() > 0 {
        let before = s.drop_last();
        assert forall|i: int| 0 <= i < before.len() implies #[trigger] before[i] > '\u{1f}'
            && before[i] != '"' && before[i] != '\\' by {
            assert(before[i] == s[i]);
        }
        lemma_plain_text_is_not_escaped(before);
        assert(s[s.len() - 1] == s.last());
        assert(escaped_char(s.last()) == seq![s.last()]);
        assert(before + seq![s.last()] == s);
    }
}

/// A request on the wire, character by character: the version of JSON-RPC, the
/// id, the method, and the parameters where there are any.
pub proof fn law_request_on_the_wire(id: int, method: Seq<char>, params: Seq<char>)
    ensures
        request_text(RequestIdView::Number(id), method, Some(params))
            == "{\"jsonrpc\":\"2.0\",\"id\":"@ + decimal(id) + ",\"method\":"@ + json_quoted(method)
            + ",\"params\":"@ + params + "}"@,
        request_text(RequestIdView::Number(id), method, None)
            == "{\"jsonrpc\":\"2.0\",\"id\":"@ + decimal(id) + ",\"method\":"@ + json_quoted(method)
            + "}"@,
{
    lemma_wire_literals();
    let number = RequestIdView::Number(id);
    lemma_three_members(request_members(number, method, None));
    lemma_four_members(request_members(number, method, Some(params)));
    assert(request_text(number, method, Some(params)) =~= "{\"jsonrpc\":\"2.0\",\"id\":"@ + decimal(
        id,
    ) + ",\"method\":"@ + json_quoted(method) + ",\"params\":"@ + params + "}"@);
    assert(request_text(number, method, None) =~= "{\"jsonrpc\":\"2.0\",\"id\":"@ + decimal(id)
        + ",\"method\":"@ + json_quoted(method) + "}"@);
}

/// A request with a string for its id, on the wire.
pub proof fn law_request_with_text_id_on_the_wire(
    id: Seq<char>,
    method: Seq<char>,
    params: Seq<char>,
)
    ensures
        request_text(RequestIdView::Text(id), method, Some(params))
            == "{\"jsonrpc\":\"2.0\",\"id\":"@ + json_quoted(id) + ",\"method\":"@ + json_quoted(
            method,
        ) + ",\"params\":"@ + params + "}"@,
        request_text(RequestIdView::Text(id), method, None) == "{\"jsonrpc\":\"2.0\",\"id\":"@
            + json_quoted(id) + ",\"method\":"@ + json_quoted(method) + "}"@,
{
    lemma_wire_literals();
    let text = RequestIdView::Text(id);
    lemma_three_members(request_members(text, method, None));
    lemma_four_members(request_members(text, method, Some(params)));
    assert(request_text(text, method, Some(params)) =~= "{\"jsonrpc\":\"2.0\",\"id\":"@
        + json_quoted(id) + ",\"method\":"@ + json_quoted(method) + ",\"params\":"@ + params + "}"@);
    assert(request_text(text, method, None) =~= "{\"jsonrpc\":\"2.0\",\"id\":"@ + json_quoted(id)
        + ",\"method\":"@ + json_quoted(method) + "}"@);
}

/// A notification on the wire, character by character.
pub proof fn law_notification_on_the_wire(method: Seq<char>, params: Seq<char>)
    ensures
        notification_text(method, Some(params)) == "{\"jsonrpc\":\"2.0\",\"method\":"@ + json_quoted(
            method,
        ) + ",\"params\":"@ + params + "}"@,
        notification_text(method, None) == "{\"jsonrpc\":\"2.0\",\"method\":"@ + json_quoted(method)
            + "}"@,
{
    lemma_wire_literals();
    lemma_two_members(notification_members(method, None));
    lemma_three_members(notification_members(method, Some(params)));
    assert(notification_text(method, Some(params)) =~= "{\"jsonrpc\":\"2.0\",\"method\":"@
        + json_quoted(method) + ",\"params\":"@ + params + "}"@);
    assert(notification_text(method, None) =~= "{\"jsonrpc\":\"2.0\",\"method\":"@ + json_quoted(
        method,
    ) + "}"@);
}

/// What the other side takes a message for that is sent: the method, the id and the
/// parameters that it was made of.
pub proof fn law_message_is_taken_for_what_it_was_made_of(
    id: RequestIdView,
    method: Seq<char>,
    params: DocumentView,
)
    requires
        json_document(params.text) == Some(params),
    ensures
        ({
            let read = if params.node == NodeView::Null {
                None
            } else {
                Some(params.text)
            };
            &&& sent_request(id, method, Some(params.text)) == MessageView::Request(
                RequestView { jsonrpc: "2.0"@, id, method, params: read },
            )
            &&& sent_notification(method, Some(params.text)) == MessageView::Notification(
                NotificationView { jsonrpc: "2.0"@, method, params: read },
            )
        }),
        sent_request(id, method, None) == MessageView::Request(
            RequestView { jsonrpc: "2.0"@, id, method, params: None },
        ),
        sent_notification(method, None) == MessageView::Notification(
            NotificationView { jsonrpc: "2.0"@, method, params: None },
        ),
{
}

/// One member as it stands in an object.
pub(crate) open spec fn one(member: MemberView) -> Seq<char> {
    json_quoted(member.name) + seq![':'] + member.text
}

/// Two members, one after the other.
pub(crate) proof fn lemma_two_members(m: Seq<MemberView>)
    requires
        m.len() == 2,
    ensures
        members_text(m) == one(m[0]) + seq![','] + one(m[1]),
{
    reveal_with_fuel(members_text, 3);
    assert(m.drop_last().last() == m[0]);
}

/// Three members, one after the other.
pub(crate) proof fn lemma_three_members(m: Seq<MemberView>)
    requires
        m.len() == 3,
    ensures
        members_text(m) == one(m[0]) + seq![','] + one(m[1]) + seq![','] + one(m[2]),
{
    let before = m.drop_last();
    lemma_two_members(before);
    assert(before[0] == m[0] && before[1] == m[1]);
}

/// Four members, one after the other.
proof fn lemma_four_members(m: Seq<MemberView>)
    requires
        m.len() == 4,
    ensures
        members_text(m) == one(m[0]) + seq![','] + one(m[1]) + seq![','] + one(m[2]) + seq![',']
            + one(m[3]),
{
    let before = m.drop_last();
    lemma_three_members(before);
    assert(before[0] == m[0] && before[1] == m[1] && before[2] == m[2]);
}

/// The fixed parts of a message, put together.
proof fn lemma_wire_literals()
    ensures
        "{\"jsonrpc\":\"2.0\",\"id\":"@ == seq!['{'] + json_quoted("jsonrpc"@) + seq![':']
            + json_quoted("2.0"@) + seq![','] + json_quoted("id"@) + seq![':'],
        "{\"jsonrpc\":\"2.0\",\"method\":"@ == seq!['{'] + json_quoted("jsonrpc"@) + seq![':']
            + json_quoted("2.0"@) + seq![','] + json_quoted("method"@) + seq![':'],
        ",\"method\":"@ == seq![','] + json_quoted("method"@) + seq![':'],
        ",\"params\":"@ == seq![','] + json_quoted("params"@) + seq![':'],
        "}"@ == seq!['}'],
{
    reveal_strlit("{\"jsonrpc\":\"2.0\",\"id\":");
    reveal_strlit("{\"jsonrpc\":\"2.0\",\"method\":");
    reveal_strlit(",\"method\":");
    reveal_strlit(",\"params\":");
    reveal_strlit("}");
    reveal_strlit("jsonrpc");
    reveal_strlit("2.0");
    reveal_strlit("id");
    reveal_strlit("method");
    reveal_strlit("params");
    law_plain_text_is_quoted_as_it_is("jsonrpc"@);
    law_plain_text_is_quoted_as_it_is("2.0"@);
    law_plain_text_is_quoted_as_it_is("id"@);
    law_plain_text_is_quoted_as_it_is("method"@);
    law_plain_text_is_quoted_as_it_is("params"@);
    assert("{\"jsonrpc\":\"2.0\",\"id\":"@ =~= seq!['{'] + json_quoted("jsonrpc"@) + seq![':']
        + json_quoted("2.0"@) + seq![','] + json_quoted("id"@) + seq![':']);
    assert("{\"jsonrpc\":\"2.0\",\"method\":"@ =~= seq!['{'] + json_quoted("jsonrpc"@) + seq![':']
        + json_quoted("2.0"@) + seq![','] + json_quoted("method"@) + seq![':']);
    assert(",\"method\":"@ =~= seq![','] + json_quoted("method"@) + seq![':']);
    assert(",\"params\":"@ =~= seq![','] + json_quoted("params"@) + seq![':']);
    assert("}"@ =~= seq!['}']);
}

} // verus!
