use std::collections::HashMap;
use std::time::Duration;

use serde_json::Value;
use stdio_transport::{
    negotiate_best_version, ExchangeAction, ExchangeEvent, Json, JsonRpcError, JsonRpcResponse,
    Profile, Rejection, SpawnFailure, Startup, StartupAction, StartupEvent, StdioTransport,
    TransportError,
};

fn make_transport(cmd: &str, version: Option<&str>) -> StdioTransport {
    StdioTransport::new(
        cmd,
        HashMap::new(),
        None,
        Duration::from_secs(30),
        version.map(|v| v.to_string()),
    )
}

fn strings(list: &[&str]) -> Vec<String> {
    list.iter().map(|s| s.to_string()).collect()
}

fn profile() -> Profile {
    Profile {
        protocol_version: "2025-11-25".to_string(),
        supported_versions: strings(&["2025-11-25", "2025-06-18", "2025-03-26", "2024-11-05"]),
        diagnostic_command: "sh".to_string(),
    }
}

fn no_rejection() -> Rejection {
    Rejection { version_mismatch: false, server_versions: None }
}

fn mismatch(versions: Option<&[&str]>) -> Rejection {
    Rejection { version_mismatch: true, server_versions: versions.map(strings) }
}

fn success(result: &str) -> JsonRpcResponse {
    JsonRpcResponse {
        jsonrpc: "2.0".to_string(),
        id: None,
        result: Some(Json::parse(result).unwrap()),
        error: None,
    }
}

fn failure(message: &str) -> JsonRpcResponse {
    JsonRpcResponse {
        jsonrpc: "2.0".to_string(),
        id: None,
        result: None,
        error: Some(JsonRpcError { code: -32602, message: message.to_string(), data: None }),
    }
}

fn asked_version(action: &StartupAction) -> String {
    match action {
        StartupAction::Initialize { params } => {
            let params: Value = serde_json::from_str(&params.to_text()).unwrap();
            params["protocolVersion"].as_str().unwrap().to_string()
        }
        other => panic!("initialize is not asked for: {:?}", other),
    }
}

fn launched(t: &mut StdioTransport) -> (Startup, StartupAction) {
    let (phase, action) = t.start(Startup::Start, StartupEvent::Begin, &profile());
    assert!(matches!(action, StartupAction::Spawn { .. }));
    let streams = StartupEvent::Spawned { stdin: true, stdout: true, stderr: true };
    t.start(phase, streams, &profile())
}

fn finish(t: &mut StdioTransport, phase: Startup) {
    assert!(matches!(phase, Startup::Agreed));
    let (phase, action) = t.start(phase, StartupEvent::Yielded, &profile());
    assert!(matches!(action, StartupAction::Announce));
    assert!(matches!(phase, Startup::Announcing));
    let (phase, action) = t.start(phase, StartupEvent::AnnounceSent, &profile());
    assert!(matches!(action, StartupAction::Yield));
    let (phase, action) = t.start(phase, StartupEvent::Yielded, &profile());
    assert!(matches!(action, StartupAction::Sleep { millis: 250 }));
    assert!(!t.connected);
    let (phase, action) = t.start(phase, StartupEvent::Slept, &profile());
    assert!(matches!(phase, Startup::Done));
    assert!(matches!(action, StartupAction::Finish));
    assert!(t.is_connected(false));
}

fn expect_failure(action: StartupAction) -> TransportError {
    match action {
        StartupAction::Fail(error) => error,
        other => panic!("the start goes on: {:?}", other),
    }
}

fn expect_protocol(action: StartupAction) -> String {
    match expect_failure(action) {
        TransportError::Protocol(message) => message,
        other => panic!("another error: {:?}", other),
    }
}

#[test]
fn build_init_params_contains_version() {
    let params = StdioTransport::build_init_params("2025-06-18");
    let params: Value = serde_json::from_str(&params.to_text()).unwrap();
    assert_eq!(params["protocolVersion"], "2025-06-18");
    assert_eq!(params["clientInfo"]["name"], "mcp-gateway");
    assert_eq!(params["clientInfo"]["version"], "0.1.0");
    assert_eq!(params["capabilities"], Value::Object(serde_json::Map::new()));
}

#[test]
fn build_init_params_quotes_the_version() {
    let params = StdioTransport::build_init_params("a\"b");
    let params: Value = serde_json::from_str(&params.to_text()).unwrap();
    assert_eq!(params["protocolVersion"], "a\"b");
}

#[test]
fn the_command_is_split_like_a_shell_does() {
    let mut t = make_transport("node 'my server.js' --flag \"a b\"", None);
    let (phase, action) = t.start(Startup::Start, StartupEvent::Begin, &profile());
    assert!(matches!(phase, Startup::Launching));
    match action {
        StartupAction::Spawn { command, .. } => {
            assert_eq!(command.program, "node");
            assert_eq!(command.args, strings(&["my server.js", "--flag", "a b"]));
        }
        other => panic!("nothing is started: {:?}", other),
    }
}

#[test]
fn the_process_starts_in_its_working_directory() {
    let directories = [None, Some("/srv/backend".to_string())];
    for directory in directories {
        let timeout = Duration::from_secs(30);
        let mut t = StdioTransport::new("sh", HashMap::new(), directory.clone(), timeout, None);
        match t.start(Startup::Start, StartupEvent::Begin, &profile()).1 {
            StartupAction::Spawn { cwd, .. } => assert_eq!(cwd, directory),
            other => panic!("nothing is started: {:?}", other),
        }
    }
}

#[test]
fn an_unusable_command_is_a_configuration_error() {
    let mut t = make_transport("node 'server.js", None);
    let (phase, action) = t.start(Startup::Start, StartupEvent::Begin, &profile());
    assert!(matches!(phase, Startup::Failed));
    assert!(matches!(
        expect_failure(action),
        TransportError::Config(message) if message == "Invalid stdio command quoting: sh"
    ));
    let mut t = make_transport("   ", None);
    let (_, action) = t.start(Startup::Start, StartupEvent::Begin, &profile());
    assert!(matches!(
        expect_failure(action),
        TransportError::Config(message) if message == "Empty command"
    ));
}

fn spawn_failure(failure: SpawnFailure) -> TransportError {
    let mut t = make_transport("/nonexistent/definitely-not-a-real-binary", None);
    let (phase, action) = t.start(Startup::Start, StartupEvent::Begin, &profile());
    match action {
        StartupAction::Spawn { command, .. } => {
            assert_eq!(command.program, "/nonexistent/definitely-not-a-real-binary")
        }
        other => panic!("nothing is started: {:?}", other),
    }
    let event = StartupEvent::SpawnFailed { failure, reason: "why".to_string() };
    let (phase, action) = t.start(phase, event, &profile());
    assert!(matches!(phase, Startup::Failed));
    assert!(!t.writer_open);
    expect_failure(action)
}

#[test]
fn a_missing_command_is_reported_as_permanent() {
    let err = spawn_failure(SpawnFailure::NotFound);
    assert!(
        matches!(err, TransportError::TransportPermanent(_)),
        "a missing command must be permanent, got {err:?}"
    );
    assert!(matches!(
        spawn_failure(SpawnFailure::PermissionDenied),
        TransportError::TransportPermanent(message) if message == "Failed to spawn: why"
    ));
    assert!(matches!(
        spawn_failure(SpawnFailure::Other),
        TransportError::Transport(message) if message == "Failed to spawn: why"
    ));
}

#[test]
fn a_process_without_its_streams_is_not_used() {
    let cases = [
        (false, false, false, "Failed to get stdin"),
        (true, false, false, "Failed to get stdout"),
        (true, true, false, "Failed to get stderr"),
    ];
    for (stdin, stdout, stderr, expected) in cases {
        let mut t = make_transport("sh", None);
        let event = StartupEvent::Spawned { stdin, stdout, stderr };
        let (phase, action) = t.start(Startup::Launching, event, &profile());
        assert!(matches!(phase, Startup::Failed));
        assert!(!t.writer_open);
        assert!(matches!(
            expect_failure(action),
            TransportError::Transport(message) if message == expected
        ));
    }
}

#[test]
fn the_latest_version_is_asked_for_unless_one_is_configured() {
    let mut t = make_transport("sh", None);
    let (_, action) = launched(&mut t);
    assert!(t.writer_open);
    assert_eq!(asked_version(&action), "2025-11-25");
    let mut t = make_transport("sh", Some("2025-03-26"));
    let (_, action) = launched(&mut t);
    assert_eq!(asked_version(&action), "2025-03-26");
}

#[test]
fn an_accepted_version_opens_the_connection() {
    let mut t = make_transport("sh", None);
    let (phase, _) = launched(&mut t);
    let event = StartupEvent::Answered {
        response: success(r#"{"protocolVersion":"2025-11-25"}"#),
        rejection: no_rejection(),
    };
    let (phase, action) = t.start(phase, event, &profile());
    assert!(matches!(action, StartupAction::Yield));
    assert_eq!(t.protocol_version, None);
    finish(&mut t, phase);
    assert_eq!(t.protocol_version, None);
}

#[test]
fn another_version_that_the_server_names_is_recorded() {
    let mut t = make_transport("sh", None);
    let (phase, _) = launched(&mut t);
    let event = StartupEvent::Answered {
        response: success(r#"{"protocolVersion":"2024-11-05"}"#),
        rejection: no_rejection(),
    };
    let (phase, _) = t.start(phase, event, &profile());
    finish(&mut t, phase);
    assert_eq!(t.protocol_version.as_deref(), Some("2024-11-05"));
}

#[test]
fn a_result_without_a_version_keeps_the_version() {
    for result in ["{}", "[]", "3", r#"{"protocolVersion":7}"#] {
        let mut t = make_transport("sh", Some("2025-03-26"));
        let (phase, _) = launched(&mut t);
        let event =
            StartupEvent::Answered { response: success(result), rejection: no_rejection() };
        let (phase, _) = t.start(phase, event, &profile());
        finish(&mut t, phase);
        assert_eq!(t.protocol_version.as_deref(), Some("2025-03-26"));
    }
}

#[test]
fn a_rejected_version_is_negotiated_downward() {
    let mut t = make_transport("sh", None);
    let (phase, _) = launched(&mut t);
    let event = StartupEvent::Answered {
        response: failure("Unsupported protocol version"),
        rejection: mismatch(Some(&["2024-11-05", "2025-03-26", "1999-01-01", "2030-01-01"])),
    };
    let (phase, action) = t.start(phase, event, &profile());
    assert_eq!(asked_version(&action), "2025-03-26");
    assert_eq!(t.protocol_version, None);
    let event = StartupEvent::Answered { response: success("{}"), rejection: no_rejection() };
    let (phase, _) = t.start(phase, event, &profile());
    assert_eq!(t.protocol_version.as_deref(), Some("2025-03-26"));
    finish(&mut t, phase);
}

#[test]
fn a_negotiated_version_is_tried_once() {
    let mut t = make_transport("sh", None);
    let (phase, _) = launched(&mut t);
    let event = StartupEvent::Answered {
        response: failure("no"),
        rejection: mismatch(Some(&["2025-03-26"])),
    };
    let (phase, _) = t.start(phase, event, &profile());
    let event = StartupEvent::Answered {
        response: failure("still no"),
        rejection: mismatch(Some(&["2024-11-05"])),
    };
    let (phase, action) = t.start(phase, event, &profile());
    assert!(matches!(phase, Startup::Failed));
    assert_eq!(
        expect_protocol(action),
        "Initialize failed for 'sh' even with negotiated version 2025-03-26: still no"
    );
    assert!(!t.writer_open);
    assert_eq!(t.protocol_version, None);
}

#[test]
fn no_common_version_ends_the_start() {
    for versions in [None, Some(&["1999-01-01"][..]), Some(&[][..])] {
        let mut t = make_transport("sh", None);
        let (phase, _) = launched(&mut t);
        let event = StartupEvent::Answered {
            response: failure("only old ones"),
            rejection: mismatch(versions),
        };
        let (phase, action) = t.start(phase, event, &profile());
        assert!(matches!(phase, Startup::Failed));
        assert_eq!(
            expect_protocol(action),
            "Protocol version negotiation failed for 'sh': server rejected 2025-11-25, \
             no compatible version found (server said: only old ones)"
        );
        assert!(!t.writer_open);
    }
}

#[test]
fn an_error_of_another_kind_ends_the_start() {
    let mut t = make_transport("sh", None);
    let (phase, _) = launched(&mut t);
    let event = StartupEvent::Answered { response: failure("busy"), rejection: no_rejection() };
    let (phase, action) = t.start(phase, event, &profile());
    assert!(matches!(phase, Startup::Failed));
    assert_eq!(expect_protocol(action), "Initialize failed for 'sh': busy");
    assert!(!t.writer_open);
    let (phase, action) = t.start(phase, StartupEvent::Begin, &profile());
    assert!(matches!(phase, Startup::Failed));
    assert!(matches!(action, StartupAction::Ignore));
}

#[test]
fn a_failed_request_or_notification_ends_the_start() {
    let mut t = make_transport("sh", None);
    let (phase, _) = launched(&mut t);
    let lost = TransportError::BackendTimeout("Request timed out".to_string());
    let (_, action) = t.start(phase, StartupEvent::RequestFailed(lost), &profile());
    assert!(matches!(expect_failure(action), TransportError::BackendTimeout(_)));
    assert!(!t.writer_open);

    let mut t = make_transport("sh", None);
    let lost = TransportError::Transport("Not connected".to_string());
    let event = StartupEvent::AnnounceFailed(lost);
    let (phase, action) = t.start(Startup::Announcing, event, &profile());
    assert!(matches!(phase, Startup::Failed));
    assert!(matches!(expect_failure(action), TransportError::Transport(_)));
    assert!(!t.connected);
}

#[test]
fn a_failed_handshake_is_closed_by_the_start_alone() {
    let connected = || {
        let mut t = make_transport("sh", None);
        t.attach_writer();
        t.connected = true;
        t
    };
    let version = || "2025-11-25".to_string();
    let open = |t: &StdioTransport| t.connected && t.writer_open && t.protocol_version.is_none();

    let mut t = connected();
    let (phase, action) = t.initialize(version(), failure("busy"), no_rejection(), &profile());
    assert!(matches!(phase, Startup::Failed));
    assert_eq!(expect_protocol(action), "Initialize failed for 'sh': busy");
    assert!(open(&t));

    let mut t = connected();
    let (phase, action) = t.initialize(version(), failure("no"), mismatch(None), &profile());
    assert!(matches!(phase, Startup::Failed));
    assert!(expect_protocol(action).starts_with("Protocol version negotiation failed for 'sh'"));
    assert!(open(&t));

    let mut t = connected();
    let (phase, _) = t.finish_retry("2025-03-26".to_string(), failure("no"), &profile());
    assert!(matches!(phase, Startup::Failed));
    assert!(open(&t));

    let mut t = connected();
    let lost = TransportError::Transport("Broken pipe".to_string());
    let (phase, action) =
        t.finish_initialization(Startup::Announcing, StartupEvent::AnnounceFailed(lost));
    assert!(matches!(phase, Startup::Failed));
    assert!(matches!(expect_failure(action), TransportError::Transport(_)));
    assert!(open(&t));

    let mut t = connected();
    let event = StartupEvent::Answered { response: failure("busy"), rejection: no_rejection() };
    let (_, action) = t.start(Startup::Asked { version: version() }, event, &profile());
    assert_eq!(expect_protocol(action), "Initialize failed for 'sh': busy");
    assert!(!t.connected);
    assert!(!t.writer_open);
}

#[test]
fn the_messages_of_the_handshake_are_named() {
    let mut t = make_transport("sh", None);
    assert!(t.announcement().is_err());
    t.attach_writer();
    let params = StdioTransport::build_init_params("2025-06-18");
    let exchange = StdioTransport::initialize_exchange(params);
    match t.request(exchange, ExchangeEvent::Send).1 {
        ExchangeAction::Write { caller, line } => {
            assert_eq!(caller, 1);
            assert_eq!(
                line,
                "{\"jsonrpc\":\"2.0\",\"id\":1,\"method\":\"initialize\",\"params\":\
                 {\"protocolVersion\":\"2025-06-18\",\"capabilities\":{},\
                 \"clientInfo\":{\"name\":\"mcp-gateway\",\"version\":\"0.1.0\"}}}\n"
            );
        }
        other => panic!("nothing is written: {:?}", other),
    }
    assert_eq!(
        t.announcement().unwrap(),
        "{\"jsonrpc\":\"2.0\",\"method\":\"notifications/initialized\"}\n"
    );
}

#[test]
fn the_best_version_is_the_latest_on_both_lists() {
    let ours = strings(&["2024-11-05", "2025-11-25", "2025-06-18"]);
    let best = |theirs: &[&str]| negotiate_best_version(&strings(theirs), &ours);
    assert_eq!(best(&["2024-11-05", "2025-06-18"]).as_deref(), Some("2025-06-18"));
    assert_eq!(best(&["2025-06-18", "2025-11-25"]).as_deref(), Some("2025-11-25"));
    assert_eq!(best(&["2024-11-05"]).as_deref(), Some("2024-11-05"));
    assert_eq!(best(&["2026-01-01"]), None);
    assert_eq!(best(&[]), None);
}
