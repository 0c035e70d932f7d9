use std::collections::HashMap;
use std::time::Duration;

use serde_json::Value;
use stdio_transport::message::request_message;
use stdio_transport::{
    reply_outcome, Exchange, ExchangeAction, ExchangeEvent, Frame, Json, JsonFault, JsonRpcMessage,
    Member, Node, ReadEvent, ReadOutcome, Reply, RequestId, StdioTransport, TransportError,
};

fn make_transport(cmd: &str) -> StdioTransport {
    StdioTransport::new(cmd, HashMap::new(), None, Duration::from_secs(30), None)
}

fn value(json: &Json) -> Value {
    serde_json::from_str(&json.to_text()).unwrap()
}

fn message_in(line: &str) -> Option<JsonRpcMessage> {
    let mut members: Vec<Member> = Vec::new();
    let object: serde_json::Map<String, Value> = serde_json::from_str(line).unwrap();
    for (name, value) in object {
        members.push(Member { name, text: value.to_string() });
    }
    Frame::read(&Node::Object(members)).classify()
}

#[test]
fn pending_request_guard_removes_entry_on_drop() {
    let mut t = make_transport("echo");
    t.pending.insert("7".to_string(), 7);
    assert_eq!(t.pending.len(), 1);

    assert_eq!(t.pending.len(), 1, "entry present while the request is open");
    t.end_request("7");

    assert!(t.pending.is_empty(), "closing the request removes the entry");
}

#[test]
fn new_stores_command_and_defaults() {
    let mut t = make_transport("node server.js");
    assert_eq!(t.command, "node server.js");
    assert!(!t.is_connected(false));
    assert!(t.env.is_empty());
    assert!(t.cwd.is_none());
    assert!(t.protocol_version.is_none());
}

#[test]
fn new_with_env_and_cwd() {
    let mut env = HashMap::new();
    env.insert("NODE_ENV".to_string(), "test".to_string());
    let t = StdioTransport::new(
        "node index.js",
        env,
        Some("/tmp".to_string()),
        Duration::from_secs(45),
        None,
    );
    assert_eq!(t.env.get("NODE_ENV").unwrap(), "test");
    assert_eq!(t.cwd.as_deref(), Some("/tmp"));
    assert_eq!(t.request_timeout, Duration::from_secs(45));
}

#[test]
fn new_with_explicit_protocol_version() {
    let t = StdioTransport::new(
        "echo",
        HashMap::new(),
        None,
        Duration::from_secs(30),
        Some("2025-06-18".to_string()),
    );
    assert_eq!(t.protocol_version, Some("2025-06-18".to_string()));
}

#[test]
fn next_id_increments_sequentially() {
    let mut t = make_transport("echo");
    assert_eq!(t.next_id(), RequestId::Number(1));
    assert_eq!(t.next_id(), RequestId::Number(2));
    assert_eq!(t.next_id(), RequestId::Number(3));
}

#[test]
fn next_id_continues_in_twos_complement() {
    let mut t = make_transport("echo");
    t.request_id = i64::MAX as u64;
    assert_eq!(t.next_id(), RequestId::Number(i64::MAX));
    assert_eq!(t.next_id(), RequestId::Number(i64::MIN));
    t.request_id = u64::MAX;
    assert_eq!(t.next_id(), RequestId::Number(-1));
    assert_eq!(t.next_id(), RequestId::Number(0));
}

#[test]
fn handle_response_routes_to_pending_request() {
    let mut t = make_transport("echo");
    t.pending.insert("1".to_string(), 11);

    let json = r#"{"jsonrpc":"2.0","id":1,"result":{"tools":[]}}"#;
    let delivery = t.handle_response(json).unwrap().unwrap();

    assert_eq!(delivery.caller, 11);
    let response = delivery.response;
    assert!(response.result.is_some());
    assert!(response.error.is_none());
    assert_eq!(response.result.unwrap().to_text(), r#"{"tools":[]}"#);
    assert!(t.pending.is_empty());
}

#[test]
fn handle_response_string_id() {
    let mut t = make_transport("echo");
    t.pending.insert("req-42".to_string(), 42);

    let json = r#"{"jsonrpc":"2.0","id":"req-42","result":{}}"#;
    let delivery = t.handle_response(json).unwrap().unwrap();

    assert_eq!(delivery.caller, 42);
    assert!(delivery.response.result.is_some());
}

#[test]
fn handle_response_rejects_inbound_request_and_leaves_caller_pending() {
    let mut t = make_transport("echo");
    t.pending.insert("5".to_string(), 5);

    let json = r#"{"jsonrpc":"2.0","id":5,"method":"sampling/createMessage","params":{}}"#;
    let outcome = t.handle_response(json);

    assert!(
        outcome.is_err(),
        "a frame carrying `method` must not parse as a response"
    );
    match outcome {
        Err(TransportError::Protocol(reason)) => assert_eq!(
            reason,
            "Peer sent request 'sampling/createMessage' on the response stream"
        ),
        other => panic!("caller must not be completed, got {:?}", other),
    }
    assert!(
        t.pending.contains_key("5"),
        "caller must remain pending, not be silently consumed"
    );
}

#[test]
fn handle_response_no_matching_pending() {
    let mut t = make_transport("echo");
    let json = r#"{"jsonrpc":"2.0","id":99,"result":{}}"#;
    assert!(t.handle_response(json).unwrap().is_none());
}

#[test]
fn handle_response_no_id_notification() {
    let mut t = make_transport("echo");
    let json = r#"{"jsonrpc":"2.0","method":"notifications/progress"}"#;
    assert!(t.handle_response(json).unwrap().is_none());
}

#[test]
fn handle_response_error_response() {
    let mut t = make_transport("echo");
    t.pending.insert("5".to_string(), 5);

    let json = r#"{"jsonrpc":"2.0","id":5,"error":{"code":-32601,"message":"Method not found"}}"#;
    let response = t.handle_response(json).unwrap().unwrap().response;

    assert!(response.error.is_some());
    let error = response.error.unwrap();
    assert_eq!(error.code, -32601);
    assert_eq!(error.message, "Method not found");
    assert!(error.data.is_none());
}

#[test]
fn handle_response_invalid_json_returns_error() {
    let mut t = make_transport("echo");
    let result = t.handle_response("not valid json");
    assert!(result.is_err());
    assert!(matches!(result, Err(TransportError::Json(JsonFault::Syntax(_)))));
}

#[test]
fn handle_response_refuses_json_that_is_no_message() {
    let mut t = make_transport("echo");
    t.pending.insert("1".to_string(), 1);
    let lines = [
        "[]",
        "3",
        "{}",
        r#"{"id":1,"result":{}}"#,
        r#"{"jsonrpc":2,"id":1,"result":{}}"#,
        r#"{"jsonrpc":"2.0","id":1.5,"result":{}}"#,
        r#"{"jsonrpc":"2.0","id":[1],"result":{}}"#,
        r#"{"jsonrpc":"2.0","id":1,"method":7}"#,
        r#"{"jsonrpc":"2.0","id":1,"error":"broken"}"#,
        r#"{"jsonrpc":"2.0","id":1,"error":{"code":1}}"#,
        r#"{"jsonrpc":"2.0","id":1,"error":{"code":1.5,"message":"m"}}"#,
    ];
    for line in lines {
        assert!(
            matches!(t.handle_response(line), Err(TransportError::Json(JsonFault::Shape))),
            "{}",
            line
        );
    }
    assert!(t.pending.contains_key("1"));
}

#[test]
fn a_null_member_counts_as_absent() {
    let mut t = make_transport("echo");
    t.pending.insert("1".to_string(), 1);
    let line = r#"{"jsonrpc":"2.0","id":1,"result":null,"error":null}"#;
    let response = t.handle_response(line).unwrap().unwrap().response;
    assert!(response.result.is_none());
    assert!(response.error.is_none());
    assert!(t.handle_response(r#"{"jsonrpc":"2.0","id":null,"result":{}}"#).unwrap().is_none());
}

#[test]
fn an_answer_is_delivered_once_and_to_its_caller_alone() {
    let mut t = make_transport("echo");
    let first = t.begin_request("a", None);
    let second = t.begin_request("b", None);
    assert_eq!(first.key, "1");
    assert_eq!(second.key, "2");

    let line = r#"{"jsonrpc":"2.0","id":2,"result":{}}"#;
    assert_eq!(t.handle_response(line).unwrap().unwrap().caller, second.caller);
    assert!(t.handle_response(line).unwrap().is_none());
    assert!(t.pending.contains_key("1"));
}

#[test]
fn initially_not_connected() {
    let mut t = make_transport("echo");
    assert!(!t.is_connected(false));
}

#[test]
fn connected_flag_toggles() {
    let mut t = make_transport("echo");
    t.connected = true;
    assert!(t.is_connected(false));
    t.connected = false;
    assert!(!t.is_connected(false));
}

#[test]
fn an_exited_child_is_not_connected_from_then_on() {
    let mut t = make_transport("echo");
    t.connected = true;
    assert!(!t.is_connected(true));
    assert!(!t.connected);
    assert!(!t.is_connected(false));
}

#[test]
fn request_cleans_pending_entry_when_write_fails() {
    let mut t = make_transport("echo");

    let exchange = Exchange::New { method: "tools/list".to_string(), params: None };
    let (exchange, action) = t.request(exchange, ExchangeEvent::Send);
    let ExchangeAction::Return(result) = action else {
        panic!("the request goes on: {:?}", action);
    };

    assert!(matches!(exchange, Exchange::Closed));
    assert!(matches!(result, Err(TransportError::Transport(message)) if message == "Not connected"));
    assert!(t.pending.is_empty());
}

fn waiting_request(t: &mut StdioTransport, method: &str) -> Exchange {
    let exchange = Exchange::New { method: method.to_string(), params: None };
    let (exchange, action) = t.request(exchange, ExchangeEvent::Send);
    assert!(matches!(action, ExchangeAction::Write { .. }));
    assert!(!t.pending.is_empty(), "the caller waits before the message is written");
    let (exchange, action) = t.request(exchange, ExchangeEvent::Written);
    assert!(matches!(
        action,
        ExchangeAction::Wait { timeout, .. } if timeout == Duration::from_secs(30)
    ));
    exchange
}

#[test]
fn a_request_gets_its_answer() {
    let mut t = make_transport("echo");
    t.attach_writer();
    let exchange = waiting_request(&mut t, "tools/list");
    let line = r#"{"jsonrpc":"2.0","id":1,"result":{"tools":[]}}"#;
    let delivery = t.handle_response(line).unwrap().unwrap();
    match &exchange {
        Exchange::Waiting { caller, .. } => assert_eq!(*caller, delivery.caller),
        other => panic!("nobody waits: {:?}", other),
    }
    let event = ExchangeEvent::Replied(Reply::Answered(delivery.response));
    let (exchange, action) = t.request(exchange, event);
    assert!(matches!(exchange, Exchange::Closed));
    match action {
        ExchangeAction::Return(Ok(response)) => {
            assert_eq!(response.result.unwrap().to_text(), r#"{"tools":[]}"#)
        }
        other => panic!("no answer: {:?}", other),
    }
    assert!(t.pending.is_empty());
}

#[test]
fn a_request_gets_its_answer_among_others() {
    let mut t = make_transport("echo");
    t.attach_writer();
    let exchange = waiting_request(&mut t, "a");
    let other = waiting_request(&mut t, "b");
    t.handle_response("broken").unwrap_err();
    t.handle_response(&progress_line("tok", 1)).unwrap();
    t.handle_response(r#"{"jsonrpc":"2.0","id":2,"result":2}"#).unwrap().unwrap();
    let _ = t.request(other, ExchangeEvent::Cancelled);
    t.end_request("9");
    t.register_progress_token("x");
    t.close();
    assert_eq!(*t.pending.get("1").unwrap(), 1);
    let delivery = t.handle_response(r#"{"jsonrpc":"2.0","id":1,"result":1}"#).unwrap().unwrap();
    assert_eq!(delivery.caller, 1);
    let event = ExchangeEvent::Replied(Reply::Answered(delivery.response));
    match t.request(exchange, event).1 {
        ExchangeAction::Return(Ok(response)) => assert_eq!(response.result.unwrap().to_text(), "1"),
        other => panic!("no answer: {:?}", other),
    }
    assert!(t.pending.is_empty());
}

#[test]
fn a_cancelled_request_leaves_nobody_waiting() {
    let mut t = make_transport("echo");
    t.attach_writer();
    let exchange = waiting_request(&mut t, "prompts/list");
    let (exchange, action) = t.request(exchange, ExchangeEvent::Cancelled);
    assert!(matches!(exchange, Exchange::Closed));
    assert!(matches!(action, ExchangeAction::Nothing));
    assert!(t.pending.is_empty());
    let (exchange, action) = t.request(exchange, ExchangeEvent::Written);
    assert!(matches!(exchange, Exchange::Closed));
    assert!(matches!(action, ExchangeAction::Nothing));
}

#[test]
fn a_failed_write_or_wait_leaves_nobody_waiting() {
    let mut t = make_transport("echo");
    t.attach_writer();
    let exchange = waiting_request(&mut t, "a");
    let (_, action) = t.request(exchange, ExchangeEvent::Replied(Reply::TimedOut));
    assert!(matches!(
        action,
        ExchangeAction::Return(Err(TransportError::BackendTimeout(_)))
    ));
    assert!(t.pending.is_empty());

    let exchange = Exchange::New { method: "b".to_string(), params: None };
    let (exchange, _) = t.request(exchange, ExchangeEvent::Send);
    assert!(t.pending.contains_key("2"));
    let broken = TransportError::Transport("Broken pipe".to_string());
    let (_, action) = t.request(exchange, ExchangeEvent::WriteFailed(broken));
    assert!(matches!(
        action,
        ExchangeAction::Return(Err(TransportError::Transport(message))) if message == "Broken pipe"
    ));
    assert!(t.pending.is_empty());
}

#[test]
fn a_line_makes_nobody_wait_and_registers_nothing() {
    let mut t = make_transport("echo");
    t.pending.insert("1".to_string(), 1);
    t.handle_response(&progress_line("tok", 1)).unwrap();
    t.handle_response(r#"{"jsonrpc":"2.0","id":9,"result":{}}"#).unwrap();
    assert_eq!(t.pending.len(), 1);
    assert!(t.captured_notifications.is_empty());
    assert!(!t.connected);
    assert_eq!(t.request_id, 1);
}

#[test]
fn a_request_is_written_as_one_line() {
    let mut t = make_transport("echo");
    t.attach_writer();
    let params = Json::parse("{ \"a\" :\n 1 }").unwrap();
    let request = t.begin_request("tools/\"call\"\n", Some(params));
    let expected = r#"{"jsonrpc":"2.0","id":1,"method":"tools/\"call\"\n","params":{"a":1}}"#;
    assert_eq!(request.message, expected);
    assert_eq!(t.write_message(&request.message).unwrap(), format!("{}\n", expected));
}

#[test]
fn a_written_request_reads_back_as_that_request() {
    let mut t = make_transport("echo");
    let params = Json::parse(r#"{"name":"x","arguments":[1,null]}"#).unwrap();
    let request = t.begin_request("tools/call", Some(params));
    match message_in(&request.message) {
        Some(JsonRpcMessage::Request(read)) => {
            assert_eq!(read.jsonrpc, "2.0");
            assert_eq!(read.id, RequestId::Number(1));
            assert_eq!(read.method, "tools/call");
            assert_eq!(
                value(&read.params.unwrap()),
                value(&Json::parse(r#"{"name":"x","arguments":[1,null]}"#).unwrap())
            );
        }
        other => panic!("no request: {:?}", other),
    }
}

#[test]
fn null_parameters_read_back_as_none() {
    let mut t = make_transport("echo");
    let request = t.begin_request("m", Some(Json::parse("null").unwrap()));
    assert_eq!(request.message, r#"{"jsonrpc":"2.0","id":1,"method":"m","params":null}"#);
    match message_in(&request.message) {
        Some(JsonRpcMessage::Request(read)) => assert!(read.params.is_none()),
        other => panic!("no request: {:?}", other),
    }
}

#[test]
fn a_written_notification_reads_back_as_that_notification() {
    let mut t = make_transport("echo");
    t.attach_writer();
    let line = t.notify("n/\u{1}\"", Some(Json::parse("[ 1.50, \"z\" ]").unwrap())).unwrap();
    match message_in(line.trim_end()) {
        Some(JsonRpcMessage::Notification(read)) => {
            assert_eq!(read.jsonrpc, "2.0");
            assert_eq!(read.method, "n/\u{1}\"");
            assert_eq!(read.params.unwrap().to_text(), r#"[1.5,"z"]"#);
        }
        other => panic!("no notification: {:?}", other),
    }
}

fn nested(levels: usize) -> String {
    format!("{}{}", "[".repeat(levels), "]".repeat(levels))
}

#[test]
fn messages_are_read_as_deep_as_the_reader_goes() {
    assert!(Json::parse(&nested(127)).is_ok());
    assert!(Json::parse(&nested(128)).is_err());
    let mut t = make_transport("echo");
    let request = t.begin_request("m", Some(Json::parse(&nested(126)).unwrap()));
    assert!(Json::parse(&request.message).is_ok());
    let request = t.begin_request("m", Some(Json::parse(&nested(127)).unwrap()));
    assert!(Json::parse(&request.message).is_err());
}

#[test]
fn parameters_are_written_however_deep_they_nest() {
    let mut t = make_transport("echo");
    t.attach_writer();
    for levels in [127, 128, 500] {
        let mut value = Value::Null;
        for _ in 0..levels {
            value = Value::Array(vec![value]);
        }
        let params = Json::from_value(value.clone());
        let text = format!("{}null{}", "[".repeat(levels), "]".repeat(levels));
        assert_eq!(params.to_text(), text);
        let request = t.begin_request("m", Some(params));
        assert_eq!(
            request.message,
            format!(r#"{{"jsonrpc":"2.0","id":{},"method":"m","params":{text}}}"#, request.key)
        );
        assert_eq!(
            t.notify("m", Some(Json::from_value(value))).unwrap(),
            format!("{{\"jsonrpc\":\"2.0\",\"method\":\"m\",\"params\":{text}}}\n")
        );
    }
}

#[test]
fn a_supplied_value_is_written_in_compact_form() {
    let text = r#"{"b":[1,-2.5,true,null,"x\n"],"a":{"k":18446744073709551615}}"#;
    let value: Value = serde_json::from_str(text).unwrap();
    assert_eq!(Json::from_value(value).to_text(), text);
    assert_eq!(Json::integer(i64::MIN).to_text(), "-9223372036854775808");
}

#[test]
fn a_request_with_a_text_id_is_written_as_one_line() {
    let id = RequestId::String("a\"b".to_string());
    assert_eq!(
        request_message(&id, "m", None),
        r#"{"jsonrpc":"2.0","id":"a\"b","method":"m"}"#
    );
    let id = RequestId::Number(i64::MIN);
    assert_eq!(
        request_message(&id, "m", None),
        r#"{"jsonrpc":"2.0","id":-9223372036854775808,"method":"m"}"#
    );
}

#[test]
fn a_line_with_method_answers_nobody() {
    let mut t = make_transport("echo");
    t.pending.insert("1".to_string(), 1);
    for method in ["null", "7", "{}", "\"m\"", "[[]]", "1e30"] {
        let line = format!(r#"{{"jsonrpc":"2.0","id":1,"result":{{}},"method":{method}}}"#);
        assert!(!matches!(t.handle_response(&line), Ok(Some(_))), "{}", line);
        assert!(t.pending.contains_key("1"));
    }
}

#[test]
fn every_line_is_handled_in_its_turn() {
    let mut t = make_transport("echo");
    t.connected = true;
    for n in 1..4u64 {
        t.pending.insert(n.to_string(), n);
    }
    let lines = [
        r#"{"jsonrpc":"2.0","id":2,"result":{}}"#,
        "broken",
        r#"{"jsonrpc":"2.0","id":1,"result":{}}"#,
        r#"{"jsonrpc":"2.0","id":2,"result":{}}"#,
        "{}",
        r#"{"jsonrpc":"2.0","id":3,"result":{}}"#,
    ];
    let mut answered = Vec::new();
    for line in lines {
        match t.on_read(ReadEvent::Line(line.to_string())) {
            ReadOutcome::Handled(delivery) => answered.push(delivery.map(|d| d.caller)),
            ReadOutcome::Refused(_) => answered.push(Some(0)),
            ReadOutcome::Stopped => panic!("the reading ends at {}", line),
        }
    }
    assert_eq!(answered, vec![Some(2), Some(0), Some(1), None, Some(0), Some(3)]);
    assert!(t.connected);
    assert!(matches!(t.on_read(ReadEvent::EndOfStream), ReadOutcome::Stopped));
    assert!(!t.connected);
}

#[test]
fn ids_go_on_whatever_happens_in_between() {
    let mut t = make_transport("echo");
    assert_eq!(t.begin_request("a", None).key, "1");
    t.close();
    t.end_request("1");
    t.handle_response("broken").unwrap_err();
    t.register_progress_token("x");
    let exchange = Exchange::New { method: "b".to_string(), params: None };
    let _ = t.request(exchange, ExchangeEvent::Send);
    t.on_read(ReadEvent::EndOfStream);
    assert_eq!(t.next_id(), RequestId::Number(3));
}

#[test]
fn a_notification_is_written_as_one_line() {
    let mut t = make_transport("echo");
    assert!(matches!(
        t.notify("notifications/initialized", None),
        Err(TransportError::Transport(message)) if message == "Not connected"
    ));
    t.attach_writer();
    assert_eq!(
        t.notify("notifications/initialized", None).unwrap(),
        "{\"jsonrpc\":\"2.0\",\"method\":\"notifications/initialized\"}\n"
    );
    assert_eq!(
        t.notify("n", Some(Json::string("p"))).unwrap(),
        "{\"jsonrpc\":\"2.0\",\"method\":\"n\",\"params\":\"p\"}\n"
    );
}

#[test]
fn a_closed_transport_writes_nothing() {
    let mut t = make_transport("echo");
    t.attach_writer();
    t.connected = true;
    t.close();
    assert!(!t.is_connected(false));
    assert!(t.write_message("{}").is_err());
}

#[test]
fn a_wait_ends_with_an_answer_or_an_error() {
    let mut t = make_transport("echo");
    t.pending.insert("1".to_string(), 1);
    let line = r#"{"jsonrpc":"2.0","id":1,"result":true}"#;
    let response = t.handle_response(line).unwrap().unwrap().response;
    let answered = reply_outcome(Reply::Answered(response)).unwrap();
    assert_eq!(answered.result.unwrap().to_text(), "true");
    assert!(matches!(
        reply_outcome(Reply::ChannelClosed),
        Err(TransportError::Transport(message)) if message == "Response channel closed"
    ));
    assert!(matches!(
        reply_outcome(Reply::TimedOut),
        Err(TransportError::BackendTimeout(message)) if message == "Request timed out"
    ));
}

#[test]
fn reading_goes_on_after_a_bad_line_and_stops_at_the_end() {
    let mut t = make_transport("echo");
    t.connected = true;
    t.pending.insert("1".to_string(), 8);
    assert!(matches!(
        t.on_read(ReadEvent::Line("oops".to_string())),
        ReadOutcome::Refused(TransportError::Json(JsonFault::Syntax(_)))
    ));
    assert!(t.connected);
    let line = r#"{"jsonrpc":"2.0","id":1,"result":{}}"#.to_string();
    match t.on_read(ReadEvent::Line(line)) {
        ReadOutcome::Handled(Some(delivery)) => assert_eq!(delivery.caller, 8),
        other => panic!("not handled: {:?}", other),
    }
    assert!(matches!(t.on_read(ReadEvent::EndOfStream), ReadOutcome::Stopped));
    assert!(!t.connected);
    t.connected = true;
    assert!(matches!(t.on_read(ReadEvent::Failed), ReadOutcome::Stopped));
    assert!(!t.connected);
}

fn progress_line(token: &str, progress: u64) -> String {
    format!(
        r#"{{"jsonrpc":"2.0","method":"notifications/progress","params":{{"progressToken":"{token}","progress":{progress}}}}}"#
    )
}

#[test]
fn stdio_captures_a_progress_notification_for_the_call_that_supplied_its_token() {
    let mut t = make_transport("cat");
    t.register_progress_token("tok-a");

    t.handle_response(&progress_line("tok-a", 1))
        .expect("a notification must not fail the read loop");

    let captured = t.take_captured_notifications("tok-a");
    assert_eq!(captured.len(), 1, "the notification must be kept");
    assert_eq!(captured[0].method, "notifications/progress");
}

#[test]
fn stdio_routes_a_progress_notification_to_only_the_call_that_supplied_the_token() {
    let mut t = make_transport("cat");
    t.register_progress_token("tok-a");
    t.register_progress_token("tok-b");

    t.handle_response(&progress_line("tok-b", 7)).unwrap();

    assert!(
        t.take_captured_notifications("tok-a").is_empty(),
        "the other call in flight must see nothing"
    );
    assert_eq!(t.take_captured_notifications("tok-b").len(), 1);
}

#[test]
fn stdio_drops_a_progress_notification_no_caller_asked_for() {
    let mut t = make_transport("cat");
    t.register_progress_token("tok-a");

    t.handle_response(&progress_line("tok-stray", 3)).unwrap();

    assert!(t.take_captured_notifications("tok-a").is_empty());
    assert!(t.take_captured_notifications("tok-stray").is_empty());
}

#[test]
fn notifications_are_kept_in_order_until_they_are_taken() {
    let mut t = make_transport("cat");
    t.register_progress_token("a");
    for progress in 1..4 {
        t.handle_response(&progress_line("a", progress)).unwrap();
    }
    let kept = t.take_captured_notifications("a");
    let progress: Vec<u64> = kept
        .iter()
        .map(|n| value(n.params.as_ref().unwrap())["progress"].as_u64().unwrap())
        .collect();
    assert_eq!(progress, vec![1, 2, 3]);
    t.handle_response(&progress_line("a", 4)).unwrap();
    assert!(t.take_captured_notifications("a").is_empty());
}

#[test]
fn notifications_are_kept_whatever_else_happens() {
    let mut t = make_transport("cat");
    t.register_progress_token("a");
    t.handle_response(&progress_line("a", 1)).unwrap();
    t.register_progress_token("b");
    t.begin_request("m", None);
    t.handle_response(r#"{"jsonrpc":"2.0","id":1,"result":{}}"#).unwrap();
    t.handle_response("broken").unwrap_err();
    assert!(t.take_captured_notifications("b").is_empty());
    t.close();
    t.on_read(ReadEvent::EndOfStream);
    t.handle_response(&progress_line("a", 2)).unwrap();
    assert_eq!(t.take_captured_notifications("a").len(), 2);
}

#[test]
fn a_numeric_token_is_matched_by_its_text() {
    let mut t = make_transport("cat");
    t.register_progress_token("17");
    t.register_progress_token("2.5");
    t.register_progress_token("true");
    let line = |token: &str| {
        format!(r#"{{"jsonrpc":"2.0","method":"m","params":{{"progressToken":{token}}}}}"#)
    };
    t.handle_response(&line("17")).unwrap();
    t.handle_response(&line("2.5")).unwrap();
    t.handle_response(&line("true")).unwrap();
    assert_eq!(t.take_captured_notifications("17").len(), 1);
    assert_eq!(t.take_captured_notifications("2.5").len(), 1);
    assert!(t.take_captured_notifications("true").is_empty());
}

#[test]
fn json_text_is_compact_and_escaped() {
    assert_eq!(Json::string("a\n\"b\"").to_text(), r#""a\n\"b\"""#);
    assert_eq!(Json::parse(" [ 1 , {\"k\" : \"v\"} ] ").unwrap().to_text(), r#"[1,{"k":"v"}]"#);
    assert!(Json::parse("[1,").is_err());
    assert_eq!(
        Json::string("\u{8}\t\n\u{c}\r\u{0}\u{1f}\\/\u{7f}\u{e9}").to_text(),
        "\"\\b\\t\\n\\f\\r\\u0000\\u001f\\\\/\u{7f}\u{e9}\""
    );
}
