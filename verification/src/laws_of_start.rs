//! What each event of a start leads to, action by action and word by word.

use vstd::prelude::*;
use crate::command::{command_of, missing_stream, shell_words, spawn_error_of, SpawnFailure};
use crate::error::ErrorView;
use crate::json::{json_document, json_quoted, object_text, DocumentView, MemberView, NodeView};
use crate::laws_of_messages::{
    has, law_plain_text_is_quoted_as_it_is, law_result_names_its_protocol_version,
    lemma_three_members, lemma_two_members,
};
use crate::laws_of_versions::law_version_is_negotiated_where_one_is_shared;
use crate::message::{ResponseView, RpcErrorView};
use crate::startup::{
    client_info_members, init_params_members, init_params_text, ActionView, Connection, EventView,
    ProfileView, RejectionView, StartupView, CLIENT_NAME, CLIENT_VERSION, INITIALIZE, INITIALIZED,
};
use crate::transport::TransportView;
use crate::version::best_version;

verus! {

// The command

/// A command line loses no word and gains none: its first word is the program, and
/// all others are the arguments, in their order. A command that cannot be split or
/// has no word is a mistake in the configuration.
pub proof fn law_every_word_is_used(words: Option<Seq<Seq<char>>>, diagnostic: Seq<char>)
    ensures
        match words {
            Some(w) => if w.len() == 0 {
                command_of(words, diagnostic) == Err::<(Seq<char>, Seq<Seq<char>>), ErrorView>(
                    ErrorView::Config("Empty command"@),
                )
            } else {
                &&& command_of(words, diagnostic) matches Ok((program, args))
                &&& seq![program] + args == w
                &&& program == w[0]
                &&& args.len() + 1 == w.len()
                &&& forall|i: int| 0 <= i < args.len() ==> #[trigger] args[i] == w[i + 1]
            },
            None => command_of(words, diagnostic) == Err::<
                (Seq<char>, Seq<Seq<char>>),
                ErrorView,
            >(ErrorView::Config("Invalid stdio command quoting: "@ + diagnostic)),
        },
{
    match words {
        Some(w) => if w.len() > 0 {
            let (program, args) = command_of(words, diagnostic)->Ok_0;
            assert(seq![program] + args =~= w);
        },
        None => {},
    }
}

/// A start begins with the process: the words of the command make the program and
/// its arguments, and it runs in the directory of the transport. A command that is
/// no command ends the start. The transport stays as it is.
pub proof fn law_start_spawns_the_command(c: Connection, profile: ProfileView)
    requires
        c.phase is Start,
    ensures
        ({
            let (next, action) = c.step(EventView::Begin, profile);
            &&& next.transport == c.transport
            &&& match shell_words(c.transport.command) {
                Some(w) => if w.len() == 0 {
                    &&& next.phase is Failed
                    &&& action == ActionView::Fail(ErrorView::Config("Empty command"@))
                } else {
                    &&& next.phase is Launching
                    &&& action matches ActionView::Spawn { program, args, cwd }
                    &&& seq![program] + args == w
                    &&& cwd == c.transport.cwd
                },
                None => {
                    &&& next.phase is Failed
                    &&& action == ActionView::Fail(
                        ErrorView::Config(
                            "Invalid stdio command quoting: "@ + profile.diagnostic_command,
                        ),
                    )
                },
            }
        }),
{
    law_every_word_is_used(shell_words(c.transport.command), profile.diagnostic_command);
}

/// The same holds of the words, however the command was split.
pub proof fn law_launch_spawns_the_words(
    c: Connection,
    words: Seq<Seq<char>>,
    profile: ProfileView,
)
    requires
        words.len() > 0,
    ensures
        c.launches(Some(words), profile).0 == (Connection {
            transport: c.transport,
            phase: StartupView::Launching,
        }),
        c.launches(Some(words), profile).1 matches ActionView::Spawn { program, args, cwd }
            && seq![program] + args == words && cwd == c.transport.cwd,
{
    law_every_word_is_used(Some(words), profile.diagnostic_command);
}

/// A process that cannot be started is reported with its reason: for good where
/// the program is missing or may not be executed, and else for now.
pub proof fn law_spawn_failure_is_reported(
    c: Connection,
    failure: SpawnFailure,
    reason: Seq<char>,
    profile: ProfileView,
)
    requires
        c.phase is Launching,
    ensures
        ({
            let message = "Failed to spawn: "@ + reason;
            let error = match failure {
                SpawnFailure::NotFound => ErrorView::TransportPermanent(message),
                SpawnFailure::PermissionDenied => ErrorView::TransportPermanent(message),
                SpawnFailure::Other => ErrorView::Transport(message),
            };
            &&& spawn_error_of(failure, reason) == error
            &&& c.step(EventView::SpawnFailed { failure, reason }, profile) == (
                Connection { transport: c.transport, phase: StartupView::Failed },
                ActionView::Fail(error),
            )
        }),
{
}

/// A process that lacks a stream is not used: the first that is missing is named,
/// and the transport stays as it is.
pub proof fn law_missing_stream_is_named(
    c: Connection,
    stdin: bool,
    stdout: bool,
    stderr: bool,
    profile: ProfileView,
)
    requires
        c.phase is Launching,
        !(stdin && stdout && stderr),
    ensures
        ({
            let message = if !stdin {
                "Failed to get stdin"@
            } else if !stdout {
                "Failed to get stdout"@
            } else {
                "Failed to get stderr"@
            };
            &&& missing_stream(stdin, stdout, stderr) == Some(message)
            &&& c.step(EventView::Spawned { stdin, stdout, stderr }, profile) == (
                Connection { transport: c.transport, phase: StartupView::Failed },
                ActionView::Fail(ErrorView::Transport(message)),
            )
        }),
{
}

// The handshake

/// A process with its streams is written to, and asked for the version that is
/// configured, or for the latest where none is. Nothing else changes.
pub proof fn law_configured_or_latest_version_is_asked_for(
    c: Connection,
    version: Seq<char>,
    profile: ProfileView,
)
    requires
        c.phase is Launching,
        match c.transport.protocol_version {
            Some(configured) => version == configured,
            None => version == profile.protocol_version,
        },
    ensures
        c.step(EventView::Spawned { stdin: true, stdout: true, stderr: true }, profile) == (
            Connection {
                transport: TransportView { writer_open: true, ..c.transport },
                phase: StartupView::Asked { version },
            },
            ActionView::Initialize { params: init_params_text(version) },
        ),
{
}

/// The parameters of `initialize`, character by character, and the names of the
/// request and of the notification.
pub proof fn law_initialize_on_the_wire(version: Seq<char>)
    ensures
        init_params_text(version) == "{\"protocolVersion\":"@ + json_quoted(version)
            + ",\"capabilities\":{},\"clientInfo\":{\"name\":\"mcp-gateway\",\"version\":\"0.1.0\"}}"@,
        INITIALIZE@ == "initialize"@,
        INITIALIZED@ == "notifications/initialized"@,
{
    reveal_strlit("{\"protocolVersion\":");
    reveal_strlit(
        ",\"capabilities\":{},\"clientInfo\":{\"name\":\"mcp-gateway\",\"version\":\"0.1.0\"}}",
    );
    reveal_strlit("protocolVersion");
    reveal_strlit("capabilities");
    reveal_strlit("clientInfo");
    reveal_strlit("name");
    reveal_strlit("version");
    reveal_strlit("mcp-gateway");
    reveal_strlit("0.1.0");
    law_plain_text_is_quoted_as_it_is("protocolVersion"@);
    law_plain_text_is_quoted_as_it_is("capabilities"@);
    law_plain_text_is_quoted_as_it_is("clientInfo"@);
    law_plain_text_is_quoted_as_it_is("name"@);
    law_plain_text_is_quoted_as_it_is("version"@);
    law_plain_text_is_quoted_as_it_is(CLIENT_NAME@);
    law_plain_text_is_quoted_as_it_is(CLIENT_VERSION@);
    lemma_two_members(client_info_members());
    lemma_three_members(init_params_members(version));
    let tail =
        ",\"capabilities\":{},\"clientInfo\":{\"name\":\"mcp-gateway\",\"version\":\"0.1.0\"}}"@;
    let info = object_text(client_info_members());
    assert(object_text(Seq::<MemberView>::empty()) =~= seq!['{', '}']);
    assert(tail =~= seq![','] + json_quoted("capabilities"@) + seq![':', '{', '}', ',']
        + json_quoted("clientInfo"@) + seq![':'] + info + seq!['}']);
    assert("{\"protocolVersion\":"@ =~= seq!['{'] + json_quoted("protocolVersion"@) + seq![':']);
    assert(init_params_text(version) =~= "{\"protocolVersion\":"@ + json_quoted(version) + tail);
}

/// Where the peer accepts, the version on record becomes the one that its result
/// names, if it names another than was asked for, and else stays. Whatever other
/// members the result has, and nothing else changes.
pub proof fn law_named_version_is_recorded(
    c: Connection,
    asked: Seq<char>,
    response: ResponseView,
    rejection: RejectionView,
    profile: ProfileView,
    result: Seq<char>,
    d: DocumentView,
    found: Option<DocumentView>,
)
    requires
        c.phase == (StartupView::Asked { version: asked }),
        response.error is None,
        response.result == Some(result),
        json_document(result) == Some(d),
        has(d.node, "protocolVersion"@, found),
    ensures
        ({
            let recorded = match found {
                Some(x) => match x.node {
                    NodeView::Text(version) => if version == asked {
                        c.transport.protocol_version
                    } else {
                        Some(version)
                    },
                    _ => c.transport.protocol_version,
                },
                None => c.transport.protocol_version,
            };
            c.step(EventView::Answered { response, rejection }, profile) == (
                Connection {
                    transport: TransportView { protocol_version: recorded, ..c.transport },
                    phase: StartupView::Agreed,
                },
                ActionView::Yield,
            )
        }),
{
    law_result_names_its_protocol_version(result, d, found);
}

/// An answer without a result, or with one that is not JSON, is accepted too, and
/// keeps the version on record.
pub proof fn law_empty_answer_keeps_the_version(
    c: Connection,
    asked: Seq<char>,
    response: ResponseView,
    rejection: RejectionView,
    profile: ProfileView,
)
    requires
        c.phase == (StartupView::Asked { version: asked }),
        response.error is None,
        response.result matches Some(result) ==> json_document(result) is None,
    ensures
        c.step(EventView::Answered { response, rejection }, profile) == (
            Connection { transport: c.transport, phase: StartupView::Agreed },
            ActionView::Yield,
        ),
{
}

/// A refusal that is not about versions ends the start with the peer's message,
/// whatever else the answer has.
pub proof fn law_refusal_ends_the_start(
    c: Connection,
    asked: Seq<char>,
    response: ResponseView,
    error: RpcErrorView,
    rejection: RejectionView,
    profile: ProfileView,
)
    requires
        c.phase == (StartupView::Asked { version: asked }),
        response.error == Some(error),
        !rejection.version_mismatch,
    ensures
        c.step(EventView::Answered { response, rejection }, profile) == (
            Connection {
                transport: TransportView { connected: false, writer_open: false, ..c.transport },
                phase: StartupView::Failed,
            },
            ActionView::Fail(
                ErrorView::Protocol(
                    "Initialize failed for '"@ + profile.diagnostic_command + "': "@
                        + error.message,
                ),
            ),
        ),
{
}

/// A rejection of the version ends the start where the two sides share none, with
/// the version that was rejected and the peer's message.
pub proof fn law_incompatible_peer_ends_the_start(
    c: Connection,
    asked: Seq<char>,
    response: ResponseView,
    error: RpcErrorView,
    rejection: RejectionView,
    profile: ProfileView,
)
    requires
        c.phase == (StartupView::Asked { version: asked }),
        response.error == Some(error),
        rejection.version_mismatch,
        rejection.server_versions matches Some(theirs) ==> forall|k: int, l: int|
            0 <= k < theirs.len() && 0 <= l < profile.supported_versions.len() ==> (
            #[trigger] theirs[k])@ != (#[trigger] profile.supported_versions[l])@,
    ensures
        c.step(EventView::Answered { response, rejection }, profile) == (
            Connection {
                transport: TransportView { connected: false, writer_open: false, ..c.transport },
                phase: StartupView::Failed,
            },
            ActionView::Fail(
                ErrorView::Protocol(
                    "Protocol version negotiation failed for '"@ + profile.diagnostic_command
                        + "': server rejected "@ + asked
                        + ", no compatible version found (server said: "@ + error.message + ")"@,
                ),
            ),
        ),
{
    match rejection.server_versions {
        Some(theirs) => law_version_is_negotiated_where_one_is_shared(
            theirs,
            profile.supported_versions,
        ),
        None => {},
    }
}

/// A rejection of the version leads to one more try, with a version that both
/// sides have, where there is one. Nothing is recorded yet.
pub proof fn law_shared_version_is_tried(
    c: Connection,
    asked: Seq<char>,
    response: ResponseView,
    rejection: RejectionView,
    profile: ProfileView,
    theirs: Seq<String>,
    k: int,
    l: int,
)
    requires
        c.phase == (StartupView::Asked { version: asked }),
        response.error is Some,
        rejection.version_mismatch,
        rejection.server_versions == Some(theirs),
        0 <= k < theirs.len(),
        0 <= l < profile.supported_versions.len(),
        theirs[k]@ == profile.supported_versions[l]@,
    ensures
        ({
            let (next, action) = c.step(EventView::Answered { response, rejection }, profile);
            &&& next.transport == c.transport
            &&& next.phase matches StartupView::AskedAgain { version }
            &&& best_version(theirs, profile.supported_versions) == Some(version)
            &&& action == (ActionView::Initialize { params: init_params_text(version) })
        }),
{
    law_version_is_negotiated_where_one_is_shared(theirs, profile.supported_versions);
}

/// The answer to the second try decides: the version that was tried is recorded,
/// or the start ends with that version and the peer's message.
pub proof fn law_second_answer_decides(
    c: Connection,
    tried: Seq<char>,
    response: ResponseView,
    rejection: RejectionView,
    profile: ProfileView,
)
    requires
        c.phase == (StartupView::AskedAgain { version: tried }),
    ensures
        c.step(EventView::Answered { response, rejection }, profile) == match response.error {
            None => (
                Connection {
                    transport: TransportView { protocol_version: Some(tried), ..c.transport },
                    phase: StartupView::Agreed,
                },
                ActionView::Yield,
            ),
            Some(error) => (
                Connection {
                    transport: TransportView {
                        connected: false,
                        writer_open: false,
                        ..c.transport
                    },
                    phase: StartupView::Failed,
                },
                ActionView::Fail(
                    ErrorView::Protocol(
                        "Initialize failed for '"@ + profile.diagnostic_command
                            + "' even with negotiated version "@ + tried + ": "@ + error.message,
                    ),
                ),
            ),
        },
{
}

/// A request or a notification of the handshake that fails ends the start with its
/// own error.
pub proof fn law_lost_message_ends_the_start(c: Connection, error: ErrorView, profile: ProfileView)
    ensures
        ({
            let failed = (
                Connection {
                    transport: TransportView {
                        connected: false,
                        writer_open: false,
                        ..c.transport
                    },
                    phase: StartupView::Failed,
                },
                ActionView::Fail(error),
            );
            &&& c.phase is Asked || c.phase is AskedAgain ==> c.step(
                EventView::RequestFailed(error),
                profile,
            ) == failed
            &&& c.phase is Announcing ==> c.step(EventView::AnnounceFailed(error), profile)
                == failed
        }),
{
}

/// From the agreement on, the handshake ends in this order: other work is let
/// through, readiness is announced, other work is let through, a quarter of a
/// second passes, and only then the transport is connected.
pub proof fn law_handshake_ends_in_order(t: TransportView, profile: ProfileView)
    ensures
        (Connection { transport: t, phase: StartupView::Agreed }).step(EventView::Yielded, profile)
            == (
            Connection { transport: t, phase: StartupView::Announcing },
            ActionView::Announce,
        ),
        (Connection { transport: t, phase: StartupView::Announcing }).step(
            EventView::AnnounceSent,
            profile,
        ) == (Connection { transport: t, phase: StartupView::Announced }, ActionView::Yield),
        (Connection { transport: t, phase: StartupView::Announced }).step(
            EventView::Yielded,
            profile,
        ) == (
            Connection { transport: t, phase: StartupView::Settling },
            ActionView::Sleep { millis: 250 },
        ),
        (Connection { transport: t, phase: StartupView::Settling }).step(EventView::Slept, profile)
            == (
            Connection {
                transport: TransportView { connected: true, ..t },
                phase: StartupView::Done,
            },
            ActionView::Finish,
        ),
{
}

/// The parts of the handshake do what the start does, except that a part that
/// fails leaves it to the start to close the transport.
pub proof fn law_parts_do_what_the_start_does(
    t: TransportView,
    version: Seq<char>,
    response: ResponseView,
    rejection: RejectionView,
    profile: ProfileView,
    phase: StartupView,
    event: EventView,
)
    requires
        phase is Agreed || phase is Announcing || phase is Announced || phase is Settling,
    ensures
        ({
            let asked = Connection { transport: t, phase: StartupView::Asked { version } };
            let again = Connection { transport: t, phase: StartupView::AskedAgain { version } };
            let late = Connection { transport: t, phase };
            let answer = EventView::Answered { response, rejection };
            let failed = Connection { transport: t, phase: StartupView::Failed };
            let part = |step: (Connection, ActionView)|
                if step.1 is Fail {
                    (failed, step.1)
                } else {
                    step
                };
            &&& asked.answered(version, response, rejection, profile) == part(
                asked.step(answer, profile),
            )
            &&& again.answered_again(version, response, profile) == part(
                again.step(answer, profile),
            )
            &&& late.finishes(event) == part(late.step(event, profile))
        }),
{
}

/// What a process that runs leads to, and what the words of a command lead to, is
/// what the start makes of them.
pub proof fn law_launch_does_what_the_start_does(
    t: TransportView,
    stdin: bool,
    stdout: bool,
    stderr: bool,
    profile: ProfileView,
)
    ensures
        ({
            let launching = Connection { transport: t, phase: StartupView::Launching };
            let start = Connection { transport: t, phase: StartupView::Start };
            &&& launching.launched(stdin, stdout, stderr, profile) == launching.step(
                EventView::Spawned { stdin, stdout, stderr },
                profile,
            )
            &&& start.launches(shell_words(t.command), profile) == start.step(
                EventView::Begin,
                profile,
            )
        }),
{
}

/// An event that the start does not wait for is ignored and changes nothing.
pub proof fn law_event_out_of_turn_is_ignored(
    c: Connection,
    event: EventView,
    profile: ProfileView,
)
    requires
        match c.phase {
            StartupView::Start => !(event is Begin),
            StartupView::Launching => !(event is Spawned || event is SpawnFailed),
            StartupView::Asked { .. } => !(event is Answered || event is RequestFailed),
            StartupView::AskedAgain { .. } => !(event is Answered || event is RequestFailed),
            StartupView::Agreed => !(event is Yielded),
            StartupView::Announcing => !(event is AnnounceSent || event is AnnounceFailed),
            StartupView::Announced => !(event is Yielded),
            StartupView::Settling => !(event is Slept),
            StartupView::Done => true,
            StartupView::Failed => true,
        },
    ensures
        c.step(event, profile) == (c, ActionView::Ignore),
{
}

/// A start that is over stays over.
pub proof fn law_start_that_is_over_stays_over(
    c: Connection,
    event: EventView,
    profile: ProfileView,
)
    requires
        c.phase is Done || c.phase is Failed,
    ensures
        c.step(event, profile) == (c, ActionView::Ignore),
{
}

} // verus!
