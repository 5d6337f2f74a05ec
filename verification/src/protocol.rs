//! The handshake that opens every connection.
//!
//! On one bidirectional stream the client names its user, and the server
//! answers with a [`ClientInfo`] and a [`ServerInfo`]. The client goes on
//! only if the server's version is its own. The server then opens the diff
//! stream and the stat stream, in this order, and marks each with a
//! sentinel; the client accepts them in the same order. Each side runs its
//! part as a state machine: the caller reports what the transport did and
//! carries out what the machine asks for next.

use vstd::prelude::*;

verus! {

/// Version of the protocol that this build speaks.
pub const VERSION: &'static str = "0.1.0";

/// Project name that a server gives when it has none of its own.
pub const DEFAULT_PROJECT_NAME: &'static str = "Ambient";

/// Where a server's content lies when nothing else is known.
pub const DEFAULT_CONTENT_BASE_URL: &'static str = "http://localhost:8999/content/";

/// A state field that a server knows beyond the built-in ones.
#[derive(Debug)]
pub struct ExternalComponentDesc {
    /// Name of the field.
    pub name: String,
    /// Descriptor of the field's type.
    pub ty: String,
}

/// What the server tells a client about itself: the user id that it has
/// taken, and the fields that it knows beyond the built-in ones.
#[derive(Debug)]
pub struct ClientInfo {
    /// The user id that the client gave.
    pub user_id: String,
    /// The server's additional fields.
    pub external_components: Vec<ExternalComponentDesc>,
}

/// What a client needs to know of the server before it goes on.
#[derive(Debug)]
pub struct ServerInfo {
    /// Name of the project, for the client's window title.
    pub project_name: String,
    /// Base url of the server's content.
    pub content_base_url: String,
    /// Version of the server. The client goes on only if it is its own.
    pub version: String,
}

impl Default for ServerInfo {
    fn default() -> (info: Self)
        ensures
            info.project_name@ == DEFAULT_PROJECT_NAME@,
            info.content_base_url@ == DEFAULT_CONTENT_BASE_URL@,
            info.version@ == VERSION@,
    {
        ServerInfo {
            project_name: DEFAULT_PROJECT_NAME.to_owned(),
            content_base_url: DEFAULT_CONTENT_BASE_URL.to_owned(),
            version: VERSION.to_owned(),
        }
    }
}

/// Why a handshake ended without a session.
#[derive(Clone, Copy, Debug, PartialEq, Eq, Structural)]
pub enum HandshakeError {
    /// The server speaks another version than the client.
    VersionMismatch,
    /// The peer did something else than the handshake asks for at this
    /// point.
    OutOfOrder,
    /// The transport failed, or a message could not be read.
    Transport,
}

/// Whether a client of version `own` may go on with a server that sent
/// `info`: exactly when the versions are the same.
pub fn check_version(info: &ServerInfo, own: &str) -> (r: Result<(), HandshakeError>)
    ensures
        r == if info.version@ == own@ {
            Ok::<(), HandshakeError>(())
        } else {
            Err::<(), HandshakeError>(HandshakeError::VersionMismatch)
        },
{
    if crate::str_map::same_str(info.version.as_str(), own) {
        Ok(())
    } else {
        Err(HandshakeError::VersionMismatch)
    }
}

/// One of the two streams that the server opens after the exchange.
#[derive(Clone, Copy, Debug, PartialEq, Eq, Structural)]
pub enum ServerStream {
    /// World diffs.
    Diff,
    /// Performance samples.
    Stat,
}

/// How far a client's handshake has come.
#[derive(Clone, Copy, Debug, PartialEq, Eq, Structural)]
pub enum ClientPhase {
    /// The user id is on its way; the server's `ClientInfo` is due.
    AwaitingClientInfo,
    /// The server's `ServerInfo` is due.
    AwaitingServerInfo,
    /// The given stream is to be accepted.
    AwaitingStream(ServerStream),
    /// The sentinel of the given stream is due.
    AwaitingSentinel(ServerStream),
    /// The handshake is complete.
    Established,
    /// The handshake has failed.
    Failed(HandshakeError),
}

/// What the transport reports to a client's handshake.
pub enum ClientEvent {
    /// The server's `ClientInfo` has arrived on the handshake stream.
    ClientInfo(ClientInfo),
    /// The server's `ServerInfo` has arrived on the handshake stream.
    ServerInfo(ServerInfo),
    /// An incoming unidirectional stream was accepted.
    StreamAccepted,
    /// The sentinel has arrived on the stream accepted last.
    Sentinel,
    /// The transport failed, or a message could not be read.
    Failed,
}

/// What a client's handshake asks for next.
#[derive(Clone, Copy, Debug, PartialEq, Eq, Structural)]
pub enum ClientCommand {
    /// Read the server's `ClientInfo` from the handshake stream.
    ReceiveClientInfo,
    /// Make the server's additional fields known, then read the server's
    /// `ServerInfo` from the handshake stream.
    ReceiveServerInfo,
    /// Accept the next incoming unidirectional stream as the given one.
    AcceptStream(ServerStream),
    /// Read the sentinel from the given stream.
    ReceiveSentinel(ServerStream),
    /// The session may begin.
    Finish,
    /// Give the connection up.
    Abort(HandshakeError),
}

/// The client's side of the protocol.
pub struct ClientProtocol {
    /// The user id that the client gives.
    pub player_id: String,
    /// The version that the client speaks.
    pub version: String,
    /// How far the handshake has come.
    pub phase: ClientPhase,
    /// What the server has told about the client, once it has.
    pub client_info: Option<ClientInfo>,
    /// What the server has told about itself, once it has.
    pub server_info: Option<ServerInfo>,
}

impl ClientProtocol {
    /// The state and the command that follow when `event` comes in state
    /// `self`.
    pub open spec fn next(self, event: ClientEvent) -> (ClientProtocol, ClientCommand) {
        match (self.phase, event) {
            (ClientPhase::Failed(e), _) => (self, ClientCommand::Abort(e)),
            (ClientPhase::Established, _) => (self, ClientCommand::Finish),
            (_, ClientEvent::Failed) => (
                ClientProtocol { phase: ClientPhase::Failed(HandshakeError::Transport), ..self },
                ClientCommand::Abort(HandshakeError::Transport),
            ),
            (ClientPhase::AwaitingClientInfo, ClientEvent::ClientInfo(info)) => (
                ClientProtocol {
                    phase: ClientPhase::AwaitingServerInfo,
                    client_info: Some(info),
                    ..self
                },
                ClientCommand::ReceiveServerInfo,
            ),
            (ClientPhase::AwaitingServerInfo, ClientEvent::ServerInfo(info)) => if info.version@
                == self.version@ {
                (
                    ClientProtocol {
                        phase: ClientPhase::AwaitingStream(ServerStream::Diff),
                        server_info: Some(info),
                        ..self
                    },
                    ClientCommand::AcceptStream(ServerStream::Diff),
                )
            } else {
                (
                    ClientProtocol {
                        phase: ClientPhase::Failed(HandshakeError::VersionMismatch),
                        server_info: Some(info),
                        ..self
                    },
                    ClientCommand::Abort(HandshakeError::VersionMismatch),
                )
            },
            (ClientPhase::AwaitingStream(stream), ClientEvent::StreamAccepted) => (
                ClientProtocol { phase: ClientPhase::AwaitingSentinel(stream), ..self },
                ClientCommand::ReceiveSentinel(stream),
            ),
            (ClientPhase::AwaitingSentinel(ServerStream::Diff), ClientEvent::Sentinel) => (
                ClientProtocol { phase: ClientPhase::AwaitingStream(ServerStream::Stat), ..self },
                ClientCommand::AcceptStream(ServerStream::Stat),
            ),
            (ClientPhase::AwaitingSentinel(ServerStream::Stat), ClientEvent::Sentinel) => (
                ClientProtocol { phase: ClientPhase::Established, ..self },
                ClientCommand::Finish,
            ),
            _ => (
                ClientProtocol { phase: ClientPhase::Failed(HandshakeError::OutOfOrder), ..self },
                ClientCommand::Abort(HandshakeError::OutOfOrder),
            ),
        }
    }

    /// A handshake for the user `player_id`, by a client of this build's
    /// version. The caller opens the handshake stream, sends `player_id` on
    /// it and reads the server's `ClientInfo`.
    pub fn new(player_id: String) -> (proto: Self)
        ensures
            proto.player_id == player_id,
            proto.version@ == VERSION@,
            proto.phase == ClientPhase::AwaitingClientInfo,
            proto.client_info is None,
            proto.server_info is None,
    {
        ClientProtocol {
            player_id,
            version: VERSION.to_owned(),
            phase: ClientPhase::AwaitingClientInfo,
            client_info: None,
            server_info: None,
        }
    }

    /// Takes in what the transport reports and says what to do next.
    ///
    /// The handshake goes forward only on the event that is due. Any other
    /// event, a failure of the transport, or a server of another version
    /// ends it, and it stays ended.
    pub fn advance(&mut self, event: ClientEvent) -> (command: ClientCommand)
        ensures
            (*final(self), command) == (*old(self)).next(event),
    {
        match self.phase {
            ClientPhase::Failed(e) => {
                return ClientCommand::Abort(e);
            },
            ClientPhase::Established => {
                return ClientCommand::Finish;
            },
            _ => {},
        }
        match event {
            ClientEvent::Failed => {
                self.phase = ClientPhase::Failed(HandshakeError::Transport);
                ClientCommand::Abort(HandshakeError::Transport)
            },
            ClientEvent::ClientInfo(info) => {
                match self.phase {
                    ClientPhase::AwaitingClientInfo => {
                        self.phase = ClientPhase::AwaitingServerInfo;
                        self.client_info = Some(info);
                        ClientCommand::ReceiveServerInfo
                    },
                    _ => self.fail(HandshakeError::OutOfOrder),
                }
            },
            ClientEvent::ServerInfo(info) => {
                match self.phase {
                    ClientPhase::AwaitingServerInfo => {
                        let checked = check_version(&info, self.version.as_str());
                        self.server_info = Some(info);
                        match checked {
                            Ok(()) => {
                                self.phase = ClientPhase::AwaitingStream(ServerStream::Diff);
                                ClientCommand::AcceptStream(ServerStream::Diff)
                            },
                            Err(e) => self.fail(e),
                        }
                    },
                    _ => self.fail(HandshakeError::OutOfOrder),
                }
            },
            ClientEvent::StreamAccepted => {
                match self.phase {
                    ClientPhase::AwaitingStream(stream) => {
                        self.phase = ClientPhase::AwaitingSentinel(stream);
                        ClientCommand::ReceiveSentinel(stream)
                    },
                    _ => self.fail(HandshakeError::OutOfOrder),
                }
            },
            ClientEvent::Sentinel => {
                match self.phase {
                    ClientPhase::AwaitingSentinel(ServerStream::Diff) => {
                        self.phase = ClientPhase::AwaitingStream(ServerStream::Stat);
                        ClientCommand::AcceptStream(ServerStream::Stat)
                    },
                    ClientPhase::AwaitingSentinel(ServerStream::Stat) => {
                        self.phase = ClientPhase::Established;
                        ClientCommand::Finish
                    },
                    _ => self.fail(HandshakeError::OutOfOrder),
                }
            },
        }
    }

    fn fail(&mut self, e: HandshakeError) -> (command: ClientCommand)
        ensures
            *final(self) == (ClientProtocol { phase: ClientPhase::Failed(e), ..*old(self) }),
            command == ClientCommand::Abort(e),
    {
        self.phase = ClientPhase::Failed(e);
        ClientCommand::Abort(e)
    }

    /// What the server has told about the client, once it has.
    pub fn client_info(&self) -> (info: Option<&ClientInfo>)
        ensures
            info == match self.client_info {
                Some(info) => Some(&info),
                None => None,
            },
    {
        self.client_info.as_ref()
    }

    /// What the server has told about itself, once it has.
    pub fn server_info(&self) -> (info: Option<&ServerInfo>)
        ensures
            info == match self.server_info {
                Some(info) => Some(&info),
                None => None,
            },
    {
        self.server_info.as_ref()
    }
}

impl ClientProtocol {
    /// The commands that the handshake gives, one for each event, when
    /// `events` come in turn in state `self`.
    pub open spec fn commands(self, events: Seq<ClientEvent>) -> Seq<ClientCommand>
        decreases events.len(),
    {
        if events.len() == 0 {
            Seq::empty()
        } else {
            let (then, command) = self.next(events[0]);
            seq![command] + then.commands(events.drop_first())
        }
    }

    /// Whether the handshake has not gone beyond the handshake stream.
    pub open spec fn on_handshake_stream(self) -> bool {
        self.phase is AwaitingClientInfo || self.phase is AwaitingServerInfo || self.phase is Failed
    }
}

/// Whether `command` asks for anything beyond the handshake stream.
pub open spec fn beyond_handshake_stream(command: ClientCommand) -> bool {
    command is AcceptStream || command is ReceiveSentinel || command is Finish
}

/// With a server of another version the attempt fails before any stream
/// beyond the handshake stream is opened: whatever the transport reports and
/// in whatever order, a client that is never sent a `ServerInfo` of its own
/// version never asks for more than the handshake stream.
pub proof fn lemma_version_mismatch_opens_no_stream(
    client: ClientProtocol,
    events: Seq<ClientEvent>,
    i: int,
)
    requires
        client.on_handshake_stream(),
        forall|j: int|
            0 <= j < events.len() ==> (#[trigger] events[j] matches ClientEvent::ServerInfo(info)
                ==> info.version@ != client.version@),
        0 <= i < events.len(),
    ensures
        !beyond_handshake_stream(client.commands(events)[i]),
    decreases events.len(),
{
    let (then, command) = client.next(events[0]);
    let rest = events.drop_first();
    assert(then.on_handshake_stream());
    assert(then.version == client.version);
    assert(!beyond_handshake_stream(command));
    assert(client.commands(events) == seq![command] + then.commands(rest));
    lemma_one_command_per_event(then, rest);
    if i > 0 {
        assert forall|j: int| 0 <= j < rest.len() implies (#[trigger] rest[j] matches ClientEvent::ServerInfo(
            info,
        ) ==> info.version@ != then.version@) by {
            assert(rest[j] == events[j + 1]);
        }
        lemma_version_mismatch_opens_no_stream(then, rest, i - 1);
        assert(client.commands(events)[i] == then.commands(rest)[i - 1]);
    }
}

/// The handshake gives one command for each event.
pub proof fn lemma_one_command_per_event(client: ClientProtocol, events: Seq<ClientEvent>)
    ensures
        client.commands(events).len() == events.len(),
    decreases events.len(),
{
    if events.len() > 0 {
        lemma_one_command_per_event(client.next(events[0]).0, events.drop_first());
    }
}

/// A version mismatch is final: once the server's `ServerInfo` has shown
/// another version, every command is to give the connection up.
pub proof fn lemma_version_mismatch_is_final(client: ClientProtocol, info: ServerInfo, later: ClientEvent)
    requires
        client.phase == ClientPhase::AwaitingServerInfo,
        info.version@ != client.version@,
    ensures
        client.next(ClientEvent::ServerInfo(info)).1 == ClientCommand::Abort(
            HandshakeError::VersionMismatch,
        ),
        client.next(ClientEvent::ServerInfo(info)).0.next(later).1 == ClientCommand::Abort(
            HandshakeError::VersionMismatch,
        ),
{
}

/// How far a server's handshake has come.
#[derive(Clone, Copy, Debug, PartialEq, Eq, Structural)]
pub enum ServerPhase {
    /// The client's handshake stream is to be accepted.
    AwaitingStream,
    /// The client's user id is due.
    AwaitingUserId,
    /// The `ClientInfo` is on its way.
    SendingClientInfo,
    /// The `ServerInfo` is on its way.
    SendingServerInfo,
    /// The given stream is being opened.
    Opening(ServerStream),
    /// The sentinel of the given stream is on its way.
    SendingSentinel(ServerStream),
    /// The handshake is complete.
    Established,
    /// The handshake has failed.
    Failed(HandshakeError),
}

/// What the transport reports to a server's handshake.
pub enum ServerEvent {
    /// The client's handshake stream was accepted.
    StreamAccepted,
    /// The client's user id has arrived on the handshake stream.
    UserId(String),
    /// The message sent last has gone out.
    Sent,
    /// The stream asked for last is open.
    StreamOpened,
    /// The transport failed, or a message could not be read.
    Failed,
}

/// What a server's handshake asks for next.
#[derive(Clone, Copy, Debug, PartialEq, Eq, Structural)]
pub enum ServerCommand {
    /// Read the client's user id from the handshake stream.
    ReceiveUserId,
    /// Send the `ClientInfo` on the handshake stream.
    SendClientInfo,
    /// Send the `ServerInfo` on the handshake stream.
    SendServerInfo,
    /// Open the given unidirectional stream.
    OpenStream(ServerStream),
    /// Send the sentinel on the given stream.
    SendSentinel(ServerStream),
    /// The session may begin.
    Finish,
    /// Give the connection up.
    Abort(HandshakeError),
}

/// The server's side of the protocol, for one connection.
pub struct ServerProtocol {
    /// How far the handshake has come.
    pub phase: ServerPhase,
    /// What the server tells about itself.
    pub server_info: ServerInfo,
    /// What the server tells about the client. The user id is empty until
    /// the client has given it.
    pub client_info: ClientInfo,
}

impl ServerProtocol {
    /// The state and the command that follow when `event` comes in state
    /// `self`.
    pub open spec fn next(self, event: ServerEvent) -> (ServerProtocol, ServerCommand) {
        match (self.phase, event) {
            (ServerPhase::Failed(e), _) => (self, ServerCommand::Abort(e)),
            (ServerPhase::Established, _) => (self, ServerCommand::Finish),
            (_, ServerEvent::Failed) => (
                ServerProtocol { phase: ServerPhase::Failed(HandshakeError::Transport), ..self },
                ServerCommand::Abort(HandshakeError::Transport),
            ),
            (ServerPhase::AwaitingStream, ServerEvent::StreamAccepted) => (
                ServerProtocol { phase: ServerPhase::AwaitingUserId, ..self },
                ServerCommand::ReceiveUserId,
            ),
            (ServerPhase::AwaitingUserId, ServerEvent::UserId(user_id)) => (
                ServerProtocol {
                    phase: ServerPhase::SendingClientInfo,
                    client_info: ClientInfo { user_id, ..self.client_info },
                    ..self
                },
                ServerCommand::SendClientInfo,
            ),
            (ServerPhase::SendingClientInfo, ServerEvent::Sent) => (
                ServerProtocol { phase: ServerPhase::SendingServerInfo, ..self },
                ServerCommand::SendServerInfo,
            ),
            (ServerPhase::SendingServerInfo, ServerEvent::Sent) => (
                ServerProtocol { phase: ServerPhase::Opening(ServerStream::Diff), ..self },
                ServerCommand::OpenStream(ServerStream::Diff),
            ),
            (ServerPhase::Opening(stream), ServerEvent::StreamOpened) => (
                ServerProtocol { phase: ServerPhase::SendingSentinel(stream), ..self },
                ServerCommand::SendSentinel(stream),
            ),
            (ServerPhase::SendingSentinel(ServerStream::Diff), ServerEvent::Sent) => (
                ServerProtocol { phase: ServerPhase::Opening(ServerStream::Stat), ..self },
                ServerCommand::OpenStream(ServerStream::Stat),
            ),
            (ServerPhase::SendingSentinel(ServerStream::Stat), ServerEvent::Sent) => (
                ServerProtocol { phase: ServerPhase::Established, ..self },
                ServerCommand::Finish,
            ),
            _ => (
                ServerProtocol { phase: ServerPhase::Failed(HandshakeError::OutOfOrder), ..self },
                ServerCommand::Abort(HandshakeError::OutOfOrder),
            ),
        }
    }

    /// A handshake by a server that tells `server_info` about itself and
    /// knows the fields `external_components` beyond the built-in ones. The
    /// caller accepts the client's handshake stream.
    pub fn new(server_info: ServerInfo, external_components: Vec<ExternalComponentDesc>) -> (proto:
        Self)
        ensures
            proto.phase == ServerPhase::AwaitingStream,
            proto.server_info == server_info,
            proto.client_info.user_id@ == Seq::<char>::empty(),
            proto.client_info.external_components == external_components,
    {
        ServerProtocol {
            phase: ServerPhase::AwaitingStream,
            server_info,
            client_info: ClientInfo { user_id: String::new(), external_components },
        }
    }

    /// Takes in what the transport reports and says what to do next.
    ///
    /// The handshake goes forward only on the event that is due. Any other
    /// event, or a failure of the transport, ends it, and it stays ended.
    pub fn advance(&mut self, event: ServerEvent) -> (command: ServerCommand)
        ensures
            (*final(self), command) == (*old(self)).next(event),
    {
        match self.phase {
            ServerPhase::Failed(e) => {
                return ServerCommand::Abort(e);
            },
            ServerPhase::Established => {
                return ServerCommand::Finish;
            },
            _ => {},
        }
        match event {
            ServerEvent::Failed => self.fail(HandshakeError::Transport),
            ServerEvent::StreamAccepted => {
                match self.phase {
                    ServerPhase::AwaitingStream => {
                        self.phase = ServerPhase::AwaitingUserId;
                        ServerCommand::ReceiveUserId
                    },
                    _ => self.fail(HandshakeError::OutOfOrder),
                }
            },
            ServerEvent::UserId(user_id) => {
                match self.phase {
                    ServerPhase::AwaitingUserId => {
                        self.phase = ServerPhase::SendingClientInfo;
                        self.client_info.user_id = user_id;
                        ServerCommand::SendClientInfo
                    },
                    _ => self.fail(HandshakeError::OutOfOrder),
                }
            },
            ServerEvent::Sent => {
                match self.phase {
                    ServerPhase::SendingClientInfo => {
                        self.phase = ServerPhase::SendingServerInfo;
                        ServerCommand::SendServerInfo
                    },
                    ServerPhase::SendingServerInfo => {
                        self.phase = ServerPhase::Opening(ServerStream::Diff);
                        ServerCommand::OpenStream(ServerStream::Diff)
                    },
                    ServerPhase::SendingSentinel(ServerStream::Diff) => {
                        self.phase = ServerPhase::Opening(ServerStream::Stat);
                        ServerCommand::OpenStream(ServerStream::Stat)
                    },
                    ServerPhase::SendingSentinel(ServerStream::Stat) => {
                        self.phase = ServerPhase::Established;
                        ServerCommand::Finish
                    },
                    _ => self.fail(HandshakeError::OutOfOrder),
                }
            },
            ServerEvent::StreamOpened => {
                match self.phase {
                    ServerPhase::Opening(stream) => {
                        self.phase = ServerPhase::SendingSentinel(stream);
                        ServerCommand::SendSentinel(stream)
                    },
                    _ => self.fail(HandshakeError::OutOfOrder),
                }
            },
        }
    }

    fn fail(&mut self, e: HandshakeError) -> (command: ServerCommand)
        ensures
            *final(self) == (ServerProtocol { phase: ServerPhase::Failed(e), ..*old(self) }),
            command == ServerCommand::Abort(e),
    {
        self.phase = ServerPhase::Failed(e);
        ServerCommand::Abort(e)
    }

    /// What the server tells about the client. The user id is the client's
    /// once the handshake has passed `AwaitingUserId`.
    pub fn client_info(&self) -> (info: &ClientInfo)
        ensures
            *info == self.client_info,
    {
        &self.client_info
    }
}

} // verus!
