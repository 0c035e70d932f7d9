//! How a backend is started: its process, `initialize`, one more try with
//! another protocol version where the peer rejects the first, and the
//! notification that the client is ready.

use vstd::prelude::*;
use crate::command::{
    check_streams, command_from_words, command_of, missing_stream, shell_words, spawn_error,
    spawn_error_of, split_view, word_views, CommandLine, SpawnFailure,
};
use crate::error::{ErrorView, TransportError};
use crate::exchange::{Exchange, ExchangeView};
use crate::json::{
    entry_views, json_document, json_quoted, lemma_member_at, lemma_nests_less, nests_at_most,
    object_text, opt_view, read_document, read_field, DocumentView, Entry, Json, MemberView,
    NodeView, DEPTH_LIMIT,
};
use crate::message::{
    named_version, notification_text, reads_as, sent_notification, take_text, JsonRpcError,
    JsonRpcResponse, ResponseView,
};
use crate::text::{is_line, join, same_text};
use crate::transport::{written, StdioTransport, TransportView};
use crate::version::{best_version, negotiate_best_version};

verus! {

/// The name by which the client introduces itself.
pub const CLIENT_NAME: &'static str = "mcp-gateway";

/// The version of the client: that of this package.
pub const CLIENT_VERSION: &'static str = "0.1.0";

/// The request that opens the connection.
pub const INITIALIZE: &'static str = "initialize";

/// The notification that the client is ready.
pub const INITIALIZED: &'static str = "notifications/initialized";

/// How long the peer is given to get ready after the handshake, in milliseconds.
pub const SETTLE_MILLIS: u64 = 250;

/// What the client says of itself, and how it names the command in errors.
#[derive(Debug)]
pub struct Profile {
    /// The latest protocol version, which is asked for where none is configured.
    pub protocol_version: String,
    /// The protocol versions that the client supports.
    pub supported_versions: Vec<String>,
    /// The command as errors show it.
    pub diagnostic_command: String,
}

/// What the message of an error says of versions.
#[derive(Debug)]
pub struct Rejection {
    /// The error is about the protocol version.
    pub version_mismatch: bool,
    /// The versions that the peer says it supports.
    pub server_versions: Option<Vec<String>>,
}

/// How far the start is.
#[derive(Debug)]
pub enum Startup {
    /// Nothing was done.
    Start,
    /// The process is being started.
    Launching,
    /// `initialize` was sent with this version.
    Asked { version: String },
    /// `initialize` was sent again, with the negotiated version.
    AskedAgain { version: String },
    /// The version is agreed on, and pending output is let through.
    Agreed,
    /// The notification is on its way.
    Announcing,
    /// The notification was sent, and is let through.
    Announced,
    /// The peer is given time.
    Settling,
    /// The connection is open.
    Done,
    /// The connection was given up.
    Failed,
}

/// What the start is told.
#[derive(Debug)]
pub enum StartupEvent {
    /// The backend is to be started.
    Begin,
    /// The process runs, and has those of its standard streams that are set.
    Spawned { stdin: bool, stdout: bool, stderr: bool },
    /// The process could not be started.
    SpawnFailed { failure: SpawnFailure, reason: String },
    /// The peer answered `initialize`. Where the answer is an error, `rejection`
    /// is what its message says of versions.
    Answered { response: JsonRpcResponse, rejection: Rejection },
    /// `initialize` got no answer.
    RequestFailed(TransportError),
    /// Other work was let through.
    Yielded,
    /// The notification was written.
    AnnounceSent,
    /// The notification could not be written.
    AnnounceFailed(TransportError),
    /// The time is over.
    Slept,
}

/// What the start asks for.
#[derive(Debug)]
pub enum StartupAction {
    /// Start the process in that working directory, or in that of the host where
    /// there is none.
    Spawn { command: CommandLine, cwd: Option<String> },
    /// Send the request `initialize` with these parameters (see
    /// `initialize_exchange`).
    Initialize { params: Json },
    /// Let other work through.
    Yield,
    /// Send the notification that the client is ready (see `announcement`).
    Announce,
    /// Wait.
    Sleep { millis: u64 },
    /// The connection is open.
    Finish,
    /// Give the connection up.
    Fail(TransportError),
    /// The start does not wait for that event.
    Ignore,
}

/// A rejection in contracts.
pub struct RejectionView {
    pub version_mismatch: bool,
    pub server_versions: Option<Seq<String>>,
}

/// A profile in contracts.
pub struct ProfileView {
    pub protocol_version: Seq<char>,
    pub supported_versions: Seq<String>,
    pub diagnostic_command: Seq<char>,
}

/// How far the start is, in contracts.
pub enum StartupView {
    Start,
    Launching,
    Asked { version: Seq<char> },
    AskedAgain { version: Seq<char> },
    Agreed,
    Announcing,
    Announced,
    Settling,
    Done,
    Failed,
}

/// What the start is told, in contracts.
pub enum EventView {
    Begin,
    Spawned { stdin: bool, stdout: bool, stderr: bool },
    SpawnFailed { failure: SpawnFailure, reason: Seq<char> },
    Answered { response: ResponseView, rejection: RejectionView },
    RequestFailed(ErrorView),
    Yielded,
    AnnounceSent,
    AnnounceFailed(ErrorView),
    Slept,
}

/// What the start asks for, in contracts.
pub enum ActionView {
    Spawn { program: Seq<char>, args: Seq<Seq<char>>, cwd: Option<Seq<char>> },
    Initialize { params: Seq<char> },
    Yield,
    Announce,
    Sleep { millis: u64 },
    Finish,
    Fail(ErrorView),
    Ignore,
}

impl View for Rejection {
    type V = RejectionView;

    open spec fn view(&self) -> RejectionView {
        RejectionView {
            version_mismatch: self.version_mismatch,
            server_versions: opt_view(self.server_versions),
        }
    }
}

impl View for Profile {
    type V = ProfileView;

    open spec fn view(&self) -> ProfileView {
        ProfileView {
            protocol_version: self.protocol_version@,
            supported_versions: self.supported_versions@,
            diagnostic_command: self.diagnostic_command@,
        }
    }
}

impl View for Startup {
    type V = StartupView;

    open spec fn view(&self) -> StartupView {
        match self {
            Startup::Start => StartupView::Start,
            Startup::Launching => StartupView::Launching,
            Startup::Asked { version } => StartupView::Asked { version: version@ },
            Startup::AskedAgain { version } => StartupView::AskedAgain { version: version@ },
            Startup::Agreed => StartupView::Agreed,
            Startup::Announcing => StartupView::Announcing,
            Startup::Announced => StartupView::Announced,
            Startup::Settling => StartupView::Settling,
            Startup::Done => StartupView::Done,
            Startup::Failed => StartupView::Failed,
        }
    }
}

impl View for StartupEvent {
    type V = EventView;

    open spec fn view(&self) -> EventView {
        match self {
            StartupEvent::Begin => EventView::Begin,
            StartupEvent::Spawned { stdin, stdout, stderr } => EventView::Spawned {
                stdin: *stdin,
                stdout: *stdout,
                stderr: *stderr,
            },
            StartupEvent::SpawnFailed { failure, reason } => EventView::SpawnFailed {
                failure: *failure,
                reason: reason@,
            },
            StartupEvent::Answered { response, rejection } => EventView::Answered {
                response: response@,
                rejection: rejection@,
            },
            StartupEvent::RequestFailed(e) => EventView::RequestFailed(e@),
            StartupEvent::Yielded => EventView::Yielded,
            StartupEvent::AnnounceSent => EventView::AnnounceSent,
            StartupEvent::AnnounceFailed(e) => EventView::AnnounceFailed(e@),
            StartupEvent::Slept => EventView::Slept,
        }
    }
}

impl View for StartupAction {
    type V = ActionView;

    open spec fn view(&self) -> ActionView {
        match self {
            StartupAction::Spawn { command, cwd } => ActionView::Spawn {
                program: command.program@,
                args: word_views(command.args@),
                cwd: opt_view(*cwd),
            },
            StartupAction::Initialize { params } => ActionView::Initialize { params: params@ },
            StartupAction::Yield => ActionView::Yield,
            StartupAction::Announce => ActionView::Announce,
            StartupAction::Sleep { millis } => ActionView::Sleep { millis: *millis },
            StartupAction::Finish => ActionView::Finish,
            StartupAction::Fail(e) => ActionView::Fail(e@),
            StartupAction::Ignore => ActionView::Ignore,
        }
    }
}

/// What the client says of itself.
pub open spec fn client_info_members() -> Seq<MemberView> {
    seq![
        MemberView { name: "name"@, text: json_quoted(CLIENT_NAME@) },
        MemberView { name: "version"@, text: json_quoted(CLIENT_VERSION@) },
    ]
}

/// The members of the parameters of `initialize`.
pub open spec fn init_params_members(version: Seq<char>) -> Seq<MemberView> {
    seq![
        MemberView { name: "protocolVersion"@, text: json_quoted(version) },
        MemberView { name: "capabilities"@, text: object_text(Seq::empty()) },
        MemberView { name: "clientInfo"@, text: object_text(client_info_members()) },
    ]
}

/// The parameters of `initialize`.
pub open spec fn init_params_text(version: Seq<char>) -> Seq<char> {
    object_text(init_params_members(version))
}

/// A start with the transport that it is for.
pub struct Connection {
    pub transport: TransportView,
    pub phase: StartupView,
}

/// The version that `initialize` asks for first.
pub open spec fn first_version(transport: TransportView, profile: ProfileView) -> Seq<char> {
    match transport.protocol_version {
        Some(version) => version,
        None => profile.protocol_version,
    }
}

/// The protocol version after the peer accepted `requested` and named a version:
/// the one that it named, where that is another.
pub open spec fn settled_version(
    current: Option<Seq<char>>,
    requested: Seq<char>,
    named: Option<Seq<char>>,
) -> Option<Seq<char>> {
    match named {
        Some(version) => if version == requested {
            current
        } else {
            named
        },
        None => current,
    }
}

/// The version to ask for after a rejection, if the two sides share one.
pub open spec fn retry_version(rejection: RejectionView, profile: ProfileView) -> Option<
    Seq<char>,
> {
    match rejection.server_versions {
        Some(theirs) => best_version(theirs, profile.supported_versions),
        None => None,
    }
}

/// The error of a peer that refuses `initialize` for a reason of its own.
pub open spec fn refused_text(command: Seq<char>, message: Seq<char>) -> Seq<char> {
    "Initialize failed for '"@ + command + "': "@ + message
}

/// The error of a peer that shares no version with the client.
pub open spec fn incompatible_text(
    command: Seq<char>,
    rejected: Seq<char>,
    message: Seq<char>,
) -> Seq<char> {
    "Protocol version negotiation failed for '"@ + command + "': server rejected "@ + rejected
        + ", no compatible version found (server said: "@ + message + ")"@
}

/// The error of a peer that refuses the version that it offered itself.
pub open spec fn refused_again_text(
    command: Seq<char>,
    version: Seq<char>,
    message: Seq<char>,
) -> Seq<char> {
    "Initialize failed for '"@ + command + "' even with negotiated version "@ + version + ": "@
        + message
}

impl Connection {
    /// The start goes on in another phase.
    pub open spec fn enters(self, phase: StartupView) -> Connection {
        Connection { phase, ..self }
    }

    /// The start goes on, with a protocol version on record.
    pub open spec fn agrees(self, version: Option<Seq<char>>) -> Connection {
        Connection {
            transport: TransportView { protocol_version: version, ..self.transport },
            phase: StartupView::Agreed,
        }
    }

    /// The connection is given up, and the transport closed.
    pub open spec fn gives_up(self) -> Connection {
        Connection { transport: self.transport.closed(), phase: StartupView::Failed }
    }

    /// What the words of the command line lead to.
    pub open spec fn launches(self, words: Option<Seq<Seq<char>>>, profile: ProfileView) -> (
        Connection,
        ActionView,
    ) {
        match command_of(words, profile.diagnostic_command) {
            Ok((program, args)) => (
                self.enters(StartupView::Launching),
                ActionView::Spawn { program, args, cwd: self.transport.cwd },
            ),
            Err(e) => (self.enters(StartupView::Failed), ActionView::Fail(e)),
        }
    }

    /// What a process that runs leads to: with all its streams, `initialize` is
    /// sent.
    pub open spec fn launched(
        self,
        stdin: bool,
        stdout: bool,
        stderr: bool,
        profile: ProfileView,
    ) -> (Connection, ActionView) {
        match missing_stream(stdin, stdout, stderr) {
            Some(message) => (
                self.enters(StartupView::Failed),
                ActionView::Fail(ErrorView::Transport(message)),
            ),
            None => {
                let version = first_version(self.transport, profile);
                (
                    Connection {
                        transport: TransportView { writer_open: true, ..self.transport },
                        phase: StartupView::Asked { version },
                    },
                    ActionView::Initialize { params: init_params_text(version) },
                )
            },
        }
    }

    /// What an answer to the first `initialize` leads to.
    pub open spec fn answered(
        self,
        version: Seq<char>,
        response: ResponseView,
        rejection: RejectionView,
        profile: ProfileView,
    ) -> (Connection, ActionView) {
        match response.error {
            None => (
                self.agrees(
                    settled_version(
                        self.transport.protocol_version,
                        version,
                        named_version(response.result),
                    ),
                ),
                ActionView::Yield,
            ),
            Some(error) => if !rejection.version_mismatch {
                (
                    self.enters(StartupView::Failed),
                    ActionView::Fail(
                        ErrorView::Protocol(
                            refused_text(profile.diagnostic_command, error.message),
                        ),
                    ),
                )
            } else {
                match retry_version(rejection, profile) {
                    Some(other) => (
                        self.enters(StartupView::AskedAgain { version: other }),
                        ActionView::Initialize { params: init_params_text(other) },
                    ),
                    None => (
                        self.enters(StartupView::Failed),
                        ActionView::Fail(
                            ErrorView::Protocol(
                                incompatible_text(
                                    profile.diagnostic_command,
                                    version,
                                    error.message,
                                ),
                            ),
                        ),
                    ),
                }
            },
        }
    }

    /// What an answer to the second `initialize` leads to.
    pub open spec fn answered_again(
        self,
        version: Seq<char>,
        response: ResponseView,
        profile: ProfileView,
    ) -> (Connection, ActionView) {
        match response.error {
            None => (self.agrees(Some(version)), ActionView::Yield),
            Some(error) => (
                self.enters(StartupView::Failed),
                ActionView::Fail(
                    ErrorView::Protocol(
                        refused_again_text(profile.diagnostic_command, version, error.message),
                    ),
                ),
            ),
        }
    }

    /// What an event leads to once the version is agreed on. Where the
    /// notification cannot be sent, the transport stays as it is.
    pub open spec fn finishes(self, event: EventView) -> (Connection, ActionView) {
        match (self.phase, event) {
            (StartupView::Agreed, EventView::Yielded) => (
                self.enters(StartupView::Announcing),
                ActionView::Announce,
            ),
            (StartupView::Announcing, EventView::AnnounceSent) => (
                self.enters(StartupView::Announced),
                ActionView::Yield,
            ),
            (StartupView::Announcing, EventView::AnnounceFailed(e)) => (
                self.enters(StartupView::Failed),
                ActionView::Fail(e),
            ),
            (StartupView::Announced, EventView::Yielded) => (
                self.enters(StartupView::Settling),
                ActionView::Sleep { millis: SETTLE_MILLIS },
            ),
            (StartupView::Settling, EventView::Slept) => (
                Connection {
                    transport: TransportView { connected: true, ..self.transport },
                    phase: StartupView::Done,
                },
                ActionView::Finish,
            ),
            _ => (self, ActionView::Ignore),
        }
    }

    /// What an event leads to in the handshake with a process that runs. A
    /// handshake that fails leaves the transport as it is.
    pub open spec fn shakes_hands(self, event: EventView, profile: ProfileView) -> (
        Connection,
        ActionView,
    ) {
        match (self.phase, event) {
            (
                StartupView::Asked { version },
                EventView::Answered { response, rejection },
            ) => self.answered(version, response, rejection, profile),
            (
                StartupView::AskedAgain { version },
                EventView::Answered { response, rejection },
            ) => self.answered_again(version, response, profile),
            (StartupView::Asked { version }, EventView::RequestFailed(e)) => (
                self.enters(StartupView::Failed),
                ActionView::Fail(e),
            ),
            (StartupView::AskedAgain { version }, EventView::RequestFailed(e)) => (
                self.enters(StartupView::Failed),
                ActionView::Fail(e),
            ),
            _ => self.finishes(event),
        }
    }

    /// What an event leads to. Where the handshake fails, the transport is
    /// closed.
    pub open spec fn step(self, event: EventView, profile: ProfileView) -> (
        Connection,
        ActionView,
    ) {
        match (self.phase, event) {
            (StartupView::Start, EventView::Begin) => self.launches(
                shell_words(self.transport.command),
                profile,
            ),
            (
                StartupView::Launching,
                EventView::Spawned { stdin, stdout, stderr },
            ) => self.launched(stdin, stdout, stderr, profile),
            (StartupView::Launching, EventView::SpawnFailed { failure, reason }) => (
                self.enters(StartupView::Failed),
                ActionView::Fail(spawn_error_of(failure, reason)),
            ),
            _ => {
                let next = self.shakes_hands(event, profile);
                if next.1 is Fail {
                    (next.0.gives_up(), next.1)
                } else {
                    next
                }
            },
        }
    }
}

/// The names of the members of the parameters of `initialize` are all different.
proof fn lemma_init_names()
    ensures
        "name"@ != "version"@,
        "protocolVersion"@ != "capabilities"@,
        "protocolVersion"@ != "clientInfo"@,
        "capabilities"@ != "clientInfo"@,
{
    reveal_strlit("name");
    reveal_strlit("version");
    reveal_strlit("protocolVersion");
    reveal_strlit("capabilities");
    reveal_strlit("clientInfo");
    assert("name"@.len() == 4 && "version"@.len() == 7);
    assert("protocolVersion"@.len() == 15 && "capabilities"@.len() == 12);
    assert("clientInfo"@.len() == 10);
}

/// The protocol version that the result of `initialize` names.
fn read_named_version(result: &Option<Json>) -> (version: Option<String>)
    ensures
        opt_view(version) == named_version(opt_view(*result)),
{
    match result {
        Some(value) => match read_document(value.to_text().as_str()) {
            Ok(d) => take_text(read_field(&d.node, "protocolVersion")),
            Err(_) => None,
        },
        None => None,
    }
}

impl StdioTransport {
    /// The parameters of `initialize` for a protocol version. They read back as
    /// parameters that name that version.
    pub fn build_init_params(version: &str) -> (params: Json)
        ensures
            params@ == init_params_text(version@),
            json_document(params@) == Some(
                DocumentView {
                    text: params@,
                    node: NodeView::Object(init_params_members(version@)),
                },
            ),
            named_version(Some(params@)) == Some(version@),
    {
        let ghost deepest = (DEPTH_LIMIT - 1) as nat;
        let name: Json = Json::string(CLIENT_NAME);
        let client_version: Json = Json::string(CLIENT_VERSION);
        proof {
            lemma_init_names();
            lemma_member_at(init_params_members(version@), 0);
            assert(nests_at_most(name@, 0));
            lemma_nests_less(name@, 0, deepest);
            assert(nests_at_most(client_version@, 0));
            lemma_nests_less(client_version@, 0, deepest);
        }
        let mut info: Vec<Entry> = Vec::new();
        info.push(Entry { name: "name".to_owned(), value: name });
        info.push(Entry { name: "version".to_owned(), value: client_version });
        assert(entry_views(info@) == client_info_members());
        let info: Json = Json::object(info);
        let nothing: Vec<Entry> = Vec::new();
        assert(entry_views(nothing@) == Seq::<MemberView>::empty());
        let capabilities: Json = Json::object(nothing);
        proof {
            assert(nests_at_most(info@, 1));
            lemma_nests_less(info@, 1, deepest);
            assert(nests_at_most(capabilities@, 1));
            lemma_nests_less(capabilities@, 1, deepest);
        }
        let mut entries: Vec<Entry> = Vec::new();
        entries.push(Entry { name: "protocolVersion".to_owned(), value: Json::string(version) });
        entries.push(Entry { name: "capabilities".to_owned(), value: capabilities });
        entries.push(Entry { name: "clientInfo".to_owned(), value: info });
        assert(entry_views(entries@) == init_params_members(version@));
        Json::object(entries)
    }

    /// The request `initialize` with its parameters.
    pub fn initialize_exchange(params: Json) -> (exchange: Exchange)
        ensures
            exchange@ == (ExchangeView::New { method: INITIALIZE@, params: Some(params@) }),
    {
        Exchange::New { method: INITIALIZE.to_owned(), params: Some(params) }
    }

    /// The text that the notification that the client is ready is written as.
    pub fn announcement(&self) -> (outcome: Result<String, TransportError>)
        ensures
            written(outcome) == self@.message_line(notification_text(INITIALIZED@, None)),
            outcome matches Ok(line) ==> is_line(line@),
            outcome matches Ok(line) ==> reads_as(
                line@.drop_last(),
                sent_notification(INITIALIZED@, None),
                None,
            ),
    {
        self.notify(INITIALIZED, None)
    }

    /// What the words of the command line lead to.
    pub fn launch(&self, words: Option<Vec<String>>, profile: &Profile) -> (next: (
        Startup,
        StartupAction,
    ))
        ensures
            after(self@, next) == (Connection {
                transport: self@,
                phase: StartupView::Start,
            }).launches(split_view(words), profile@),
    {
        match command_from_words(words, profile.diagnostic_command.as_str()) {
            Ok(command) => {
                let cwd: Option<String> = match &self.cwd {
                    Some(directory) => Some(directory.clone()),
                    None => None,
                };
                (Startup::Launching, StartupAction::Spawn { command, cwd })
            },
            Err(e) => (Startup::Failed, StartupAction::Fail(e)),
        }
    }

    /// What a process that runs leads to: with all its streams, its standard
    /// input is written to, and `initialize` is sent.
    pub fn begin_handshake(
        &mut self,
        stdin: bool,
        stdout: bool,
        stderr: bool,
        profile: &Profile,
    ) -> (next: (Startup, StartupAction))
        ensures
            after(final(self)@, next) == (Connection {
                transport: old(self)@,
                phase: StartupView::Launching,
            }).launched(stdin, stdout, stderr, profile@),
    {
        match check_streams(stdin, stdout, stderr) {
            Err(e) => (Startup::Failed, StartupAction::Fail(e)),
            Ok(_) => {
                self.attach_writer();
                let version: String = match &self.protocol_version {
                    Some(version) => version.clone(),
                    None => profile.protocol_version.clone(),
                };
                let params: Json = StdioTransport::build_init_params(version.as_str());
                (Startup::Asked { version }, StartupAction::Initialize { params })
            },
        }
    }

    /// Records the version that the peer named, where it is not the one that was
    /// asked for.
    pub fn settle_version(&mut self, requested: &str, named: Option<String>)
        ensures
            final(self)@ == (TransportView {
                protocol_version: settled_version(
                    old(self)@.protocol_version,
                    requested@,
                    opt_view(named),
                ),
                ..old(self)@
            }),
    {
        match named {
            Some(version) => {
                if !same_text(version.as_str(), requested) {
                    self.protocol_version = Some(version);
                }
            },
            None => {},
        }
    }

    /// What the first answer to `initialize` leads to. On success, the version
    /// that the peer named is recorded; on an error about versions, the latest
    /// version that both sides support is tried. On any other error the transport
    /// stays as it is.
    pub fn initialize(
        &mut self,
        version: String,
        response: JsonRpcResponse,
        rejection: Rejection,
        profile: &Profile,
    ) -> (next: (Startup, StartupAction))
        ensures
            after(final(self)@, next) == (Connection {
                transport: old(self)@,
                phase: StartupView::Asked { version: version@ },
            }).answered(version@, response@, rejection@, profile@),
    {
        match response.error {
            Some(error) => {
                if rejection.version_mismatch {
                    return self.negotiate_and_retry(version, error, rejection, profile);
                }
                let mut reason: String = join(
                    "Initialize failed for '",
                    profile.diagnostic_command.as_str(),
                );
                reason.append("': ");
                reason.append(error.message.as_str());
                (Startup::Failed, StartupAction::Fail(TransportError::Protocol(reason)))
            },
            None => {
                let named: Option<String> = read_named_version(&response.result);
                self.settle_version(version.as_str(), named);
                (Startup::Agreed, StartupAction::Yield)
            },
        }
    }

    /// Asks again with the latest version that both sides support, or gives up
    /// where they share none. The transport stays as it is.
    pub fn negotiate_and_retry(
        &mut self,
        rejected: String,
        error: JsonRpcError,
        rejection: Rejection,
        profile: &Profile,
    ) -> (next: (Startup, StartupAction))
        ensures
            match retry_version(rejection@, profile@) {
                Some(other) => {
                    &&& final(self)@ == old(self)@
                    &&& next.0@ == StartupView::AskedAgain { version: other }
                    &&& next.1@ == ActionView::Initialize { params: init_params_text(other) }
                },
                None => {
                    &&& final(self)@ == old(self)@
                    &&& next.0@ == StartupView::Failed
                    &&& next.1@ == ActionView::Fail(
                        ErrorView::Protocol(
                            incompatible_text(
                                profile@.diagnostic_command,
                                rejected@,
                                error@.message,
                            ),
                        ),
                    )
                },
            },
    {
        let negotiated: Option<String> = match &rejection.server_versions {
            Some(theirs) => negotiate_best_version(theirs, &profile.supported_versions),
            None => None,
        };
        match negotiated {
            Some(version) => {
                let params: Json = StdioTransport::build_init_params(version.as_str());
                (Startup::AskedAgain { version }, StartupAction::Initialize { params })
            },
            None => {
                let mut reason: String = join(
                    "Protocol version negotiation failed for '",
                    profile.diagnostic_command.as_str(),
                );
                reason.append("': server rejected ");
                reason.append(rejected.as_str());
                reason.append(", no compatible version found (server said: ");
                reason.append(error.message.as_str());
                reason.append(")");
                (Startup::Failed, StartupAction::Fail(TransportError::Protocol(reason)))
            },
        }
    }

    /// What the second answer to `initialize` leads to: the negotiated version
    /// is recorded, or the handshake fails and the transport stays as it is.
    pub fn finish_retry(
        &mut self,
        version: String,
        response: JsonRpcResponse,
        profile: &Profile,
    ) -> (next: (Startup, StartupAction))
        ensures
            after(final(self)@, next) == (Connection {
                transport: old(self)@,
                phase: StartupView::AskedAgain { version: version@ },
            }).answered_again(version@, response@, profile@),
    {
        match response.error {
            Some(error) => {
                let mut reason: String = join(
                    "Initialize failed for '",
                    profile.diagnostic_command.as_str(),
                );
                reason.append("' even with negotiated version ");
                reason.append(version.as_str());
                reason.append(": ");
                reason.append(error.message.as_str());
                (Startup::Failed, StartupAction::Fail(TransportError::Protocol(reason)))
            },
            None => {
                self.protocol_version = Some(version);
                (Startup::Agreed, StartupAction::Yield)
            },
        }
    }

    /// The start after the version is agreed on: pending output is let
    /// through, the notification is sent and let through, and the peer is given
    /// time, since it may still be getting ready. Then the transport is
    /// connected. Where the notification cannot be sent, the transport stays as it
    /// is.
    pub fn finish_initialization(&mut self, phase: Startup, event: StartupEvent) -> (next: (
        Startup,
        StartupAction,
    ))
        ensures
            after(final(self)@, next) == (Connection {
                transport: old(self)@,
                phase: phase@,
            }).finishes(event@),
    {
        match (phase, event) {
            (Startup::Agreed, StartupEvent::Yielded) => (
                Startup::Announcing,
                StartupAction::Announce,
            ),
            (Startup::Announcing, StartupEvent::AnnounceSent) => (
                Startup::Announced,
                StartupAction::Yield,
            ),
            (Startup::Announcing, StartupEvent::AnnounceFailed(e)) => (
                Startup::Failed,
                StartupAction::Fail(e),
            ),
            (Startup::Announced, StartupEvent::Yielded) => (
                Startup::Settling,
                StartupAction::Sleep { millis: SETTLE_MILLIS },
            ),
            (Startup::Settling, StartupEvent::Slept) => {
                self.connected = true;
                (Startup::Done, StartupAction::Finish)
            },
            (phase, _) => (phase, StartupAction::Ignore),
        }
    }

    /// One step of the handshake with a process that runs. A handshake that
    /// fails leaves the transport as it is.
    fn shake_hands(&mut self, phase: Startup, event: StartupEvent, profile: &Profile) -> (next: (
        Startup,
        StartupAction,
    ))
        ensures
            after(final(self)@, next) == (Connection {
                transport: old(self)@,
                phase: phase@,
            }).shakes_hands(event@, profile@),
    {
        match phase {
            Startup::Asked { version } => match event {
                StartupEvent::Answered { response, rejection } => self.initialize(
                    version,
                    response,
                    rejection,
                    profile,
                ),
                StartupEvent::RequestFailed(e) => (Startup::Failed, StartupAction::Fail(e)),
                _ => (Startup::Asked { version }, StartupAction::Ignore),
            },
            Startup::AskedAgain { version } => match event {
                StartupEvent::Answered { response, rejection } => self.finish_retry(
                    version,
                    response,
                    profile,
                ),
                StartupEvent::RequestFailed(e) => (Startup::Failed, StartupAction::Fail(e)),
                _ => (Startup::AskedAgain { version }, StartupAction::Ignore),
            },
            other => self.finish_initialization(other, event),
        }
    }

    /// One step of the start: from how far it is and what happened to how far it
    /// then is and what to do next. Where the handshake fails, the transport is
    /// closed at once.
    pub fn start(
        &mut self,
        phase: Startup,
        event: StartupEvent,
        profile: &Profile,
    ) -> (next: (Startup, StartupAction))
        ensures
            after(final(self)@, next) == (Connection {
                transport: old(self)@,
                phase: phase@,
            }).step(event@, profile@),
    {
        match (phase, event) {
            (Startup::Start, StartupEvent::Begin) => self.launch(
                shlex::split(self.command.as_str()),
                profile,
            ),
            (Startup::Launching, StartupEvent::Spawned { stdin, stdout, stderr }) => {
                self.begin_handshake(stdin, stdout, stderr, profile)
            },
            (Startup::Launching, StartupEvent::SpawnFailed { failure, reason }) => (
                Startup::Failed,
                StartupAction::Fail(spawn_error(failure, reason.as_str())),
            ),
            (phase, event) => match self.shake_hands(phase, event, profile) {
                (_, StartupAction::Fail(e)) => {
                    self.close();
                    (Startup::Failed, StartupAction::Fail(e))
                },
                next => next,
            },
        }
    }
}

/// A step as it is in contracts.
pub open spec fn after(transport: TransportView, next: (Startup, StartupAction)) -> (
    Connection,
    ActionView,
) {
    (Connection { transport, phase: next.0@ }, next.1@)
}

} // verus!
