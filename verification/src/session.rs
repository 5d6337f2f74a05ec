//! The server's side of one connection, from the handshake to the end.
//!
//! A session is `Connecting` until the client's handshake stream is there,
//! `Handshaking` until its player is registered, `Active` while it serves
//! the player, and `Terminated` afterwards. The caller waits on the
//! transport and on the player's queues, reports whatever is ready first,
//! and carries out what the session answers.

use crate::protocol::{
    ExternalComponentDesc, ServerCommand, ServerEvent, ServerInfo, ServerPhase, ServerProtocol,
};
use crate::registry::{
    user_view, Connection, DisconnectOutcome, InitError, InitOutcome, ServerState,
};
use crate::wire::{be_u32, bytes_contents, decode_handler_id, split_datagram};
use crate::world::{HandlerKind, WorldDiff};
use bytes::Bytes;
use vstd::pervasive::cloned;
use vstd::prelude::*;

verus! {

/// Where a session stands.
#[derive(Clone, Copy, Debug, PartialEq, Eq, Structural)]
pub enum SessionPhase {
    /// The transport is up; the client's handshake stream is due.
    Connecting,
    /// The handshake is under way, or done and the player not yet
    /// registered.
    Handshaking,
    /// The player is registered and served.
    Active,
    /// The session is over.
    Terminated,
}

/// How a connection came to its end.
#[derive(Clone, Copy, Debug, PartialEq, Eq, Structural)]
pub enum CloseReason {
    /// The session ran to its end without an error.
    Finished,
    /// The peer closed the transport.
    ClosedByPeer,
    /// A stream ended early.
    EndOfStream,
    /// The transport was not connected.
    NotConnected,
    /// The peer broke the protocol.
    ProtocolViolation,
    /// Any other failure of the transport.
    Failed,
}

/// How loudly the end of a connection is reported.
#[derive(Clone, Copy, Debug, PartialEq, Eq, Structural)]
pub enum Severity {
    /// Not at all.
    Silent,
    /// As information: the end was to be expected.
    Info,
    /// As a warning.
    Warn,
    /// As an error.
    Error,
}

/// How loudly an end for `reason` is reported: a peer that closes is no
/// error, a stream that ends early or a transport that is not connected is
/// worth a warning, anything else is an error.
pub open spec fn spec_severity(reason: CloseReason) -> Severity {
    match reason {
        CloseReason::Finished => Severity::Silent,
        CloseReason::ClosedByPeer => Severity::Info,
        CloseReason::EndOfStream => Severity::Warn,
        CloseReason::NotConnected => Severity::Warn,
        CloseReason::ProtocolViolation => Severity::Error,
        CloseReason::Failed => Severity::Error,
    }
}

/// How loudly an end for `reason` is reported.
#[verifier::when_used_as_spec(spec_severity)]
pub fn severity(reason: CloseReason) -> (level: Severity)
    ensures
        level == spec_severity(reason),
{
    match reason {
        CloseReason::Finished => Severity::Silent,
        CloseReason::ClosedByPeer => Severity::Info,
        CloseReason::EndOfStream => Severity::Warn,
        CloseReason::NotConnected => Severity::Warn,
        CloseReason::ProtocolViolation => Severity::Error,
        CloseReason::Failed => Severity::Error,
    }
}

/// What is ready on a connection.
pub enum SessionEvent {
    /// The next message of the player's diff queue.
    Diff(Vec<u8>),
    /// The next message of the player's stat queue.
    Stat(Vec<u8>),
    /// A datagram of the peer.
    Datagram(Bytes),
    /// The peer has opened a bidirectional stream; its first four bytes, if
    /// they could be read.
    BiStream(Option<[u8; 4]>),
    /// The peer has opened a unidirectional stream; its first four bytes,
    /// if they could be read.
    UniStream(Option<[u8; 4]>),
    /// The connection has come to its end.
    Closed(CloseReason),
}

/// Why a stream or datagram was dropped.
#[derive(Clone, Copy, Debug, PartialEq, Eq, Structural)]
pub enum DropReason {
    /// The player is not on record any more, or the player's instance is
    /// gone.
    PlayerMissing,
    /// No handler is registered for the id.
    UnknownHandler(u32),
    /// The stream ended before its handler id.
    UnreadableHeader,
}

/// What a session answers to an event.
pub enum SessionAction<H> {
    /// Write the message to the diff stream.
    SendDiff(Vec<u8>),
    /// Write the message to the stat stream.
    SendStat(Vec<u8>),
    /// Call `handler` with the stream, or with the payload of the datagram.
    Invoke { kind: HandlerKind, handler: H, payload: Option<Bytes> },
    /// Drop the stream or datagram and go on.
    Dropped { kind: HandlerKind, reason: DropReason },
    /// The session is over: close the connection and report its end.
    Finished { outcome: DisconnectOutcome, severity: Severity },
    /// The session is not active: nothing is to be done.
    Ignored,
}

/// Why a session could not register its player.
#[derive(Clone, Copy, Debug, PartialEq, Eq, Structural)]
pub enum SessionError {
    /// The handshake is not complete, or the player was registered before.
    NotEstablished,
    /// The registry refused.
    Registry(InitError),
}

/// The server's side of one connection.
pub struct ClientInstance {
    /// Where the session stands.
    pub phase: SessionPhase,
    /// The handshake.
    pub proto: ServerProtocol,
    /// Id of the connection.
    pub connection_id: String,
    /// What the connection brings to the registry, until it is registered.
    pub connection: Option<Connection>,
    /// The user, once the player is registered.
    pub user_id: Option<String>,
}

impl ClientInstance {
    /// A session on `connection` whose handshake is about to begin.
    pub fn new(
        connection: Connection,
        server_info: ServerInfo,
        external_components: Vec<ExternalComponentDesc>,
    ) -> (session: Self)
        ensures
            session.phase == SessionPhase::Connecting,
            session.proto.phase == ServerPhase::AwaitingStream,
            session.proto.server_info == server_info,
            session.proto.client_info.user_id@ == Seq::<char>::empty(),
            session.proto.client_info.external_components == external_components,
            session.connection_id@ == connection.id@,
            session.connection == Some(connection),
            session.user_id is None,
    {
        ClientInstance {
            phase: SessionPhase::Connecting,
            proto: ServerProtocol::new(server_info, external_components),
            connection_id: connection.id.clone(),
            connection: Some(connection),
            user_id: None,
        }
    }

    /// Whether the session is ready to register its player.
    pub open spec fn established(&self) -> bool {
        &&& self.phase == SessionPhase::Handshaking
        &&& self.proto.phase == ServerPhase::Established
        &&& self.connection is Some
    }

    /// Takes the handshake one step further and says what to do next. Once
    /// the session is active or over, the event is not looked at and the
    /// command is to give the handshake up as out of order.
    pub fn handshake(&mut self, event: ServerEvent) -> (command: ServerCommand)
        ensures
            old(self).phase == SessionPhase::Connecting || old(self).phase
                == SessionPhase::Handshaking ==> {
                &&& (final(self).proto, command) == old(self).proto.next(event)
                &&& final(self).phase == SessionPhase::Handshaking
                &&& final(self).connection_id == old(self).connection_id
                &&& final(self).connection == old(self).connection
                &&& final(self).user_id == old(self).user_id
            },
            old(self).phase == SessionPhase::Active || old(self).phase
                == SessionPhase::Terminated ==> {
                &&& *final(self) == *old(self)
                &&& command == ServerCommand::Abort(crate::protocol::HandshakeError::OutOfOrder)
            },
    {
        match self.phase {
            SessionPhase::Connecting | SessionPhase::Handshaking => {
                self.phase = SessionPhase::Handshaking;
                self.proto.advance(event)
            },
            _ => ServerCommand::Abort(crate::protocol::HandshakeError::OutOfOrder),
        }
    }

    /// Registers the player once the handshake is complete, and makes the
    /// session active. `pending` is the diff of the player's target
    /// instance since its last broadcast, `snapshot` the instance's full
    /// state.
    ///
    /// Fails with `NotEstablished`, and changes nothing, exactly when the
    /// session is not `established`. Fails with the registry's reason when
    /// the registry refuses; the session is then of no further use and is
    /// to be closed.
    pub fn init<H>(
        &mut self,
        state: &mut ServerState<H>,
        pending: &WorldDiff,
        snapshot: Vec<u8>,
    ) -> (r: Result<InitOutcome, SessionError>)
        ensures
            !old(self).established() ==> r == Err::<InitOutcome, SessionError>(
                SessionError::NotEstablished,
            ) && *final(self) == *old(self) && *final(state) == *old(state),
            old(self).established() ==> {
                let user = old(self).proto.client_info.user_id@;
                &&& final(self).proto == old(self).proto
                &&& final(self).connection_id == old(self).connection_id
                &&& final(self).connection is None
                &&& match r {
                    Ok(outcome) => {
                        &&& old(state).init_error(user) is None
                        &&& old(state).init_done(
                            *final(state),
                            user,
                            old(self).connection->0,
                            *pending,
                            snapshot@,
                            outcome,
                        )
                        &&& final(self).phase == SessionPhase::Active
                        &&& final(self).user_id matches Some(u) && u@ == user
                    },
                    Err(e) => {
                        &&& e matches SessionError::Registry(e) && old(state).init_error(user)
                            == Some(e)
                        &&& *final(state) == *old(state)
                        &&& final(self).phase == old(self).phase
                        &&& final(self).user_id == old(self).user_id
                    },
                }
            },
            old(state).wf() ==> final(state).wf(),
    {
        let ready = match self.phase {
            SessionPhase::Handshaking => match self.proto.phase {
                ServerPhase::Established => true,
                _ => false,
            },
            _ => false,
        };
        if !ready {
            return Err(SessionError::NotEstablished);
        }
        let connection = match self.connection.take() {
            Some(connection) => connection,
            None => {
                return Err(SessionError::NotEstablished);
            },
        };
        match state.on_init(self.proto.client_info.user_id.as_str(), connection, pending, snapshot) {
            Ok(outcome) => {
                self.phase = SessionPhase::Active;
                self.user_id = Some(self.proto.client_info.user_id.clone());
                Ok(outcome)
            },
            Err(e) => Err(SessionError::Registry(e)),
        }
    }

    /// Ends the session: the registry is cleaned up after the connection,
    /// whatever state the session was in.
    pub fn close<H>(&mut self, state: &mut ServerState<H>) -> (outcome: DisconnectOutcome)
        ensures
            *final(self) == (ClientInstance { phase: SessionPhase::Terminated, ..*old(self) }),
            old(state).disconnect_done(
                *final(state),
                user_view(old(self).user_id),
                old(self).connection_id@,
                outcome,
            ),
            old(state).wf() ==> final(state).wf(),
    {
        self.phase = SessionPhase::Terminated;
        state.on_disconnect(&self.user_id, self.connection_id.as_str())
    }
}

/// The action on a stream or datagram of `kind` for handler `id` that comes
/// for `user` while the registry is `state`: the handler that the player's
/// world has registered is to be called; without a player, or without a
/// handler, the stream or datagram is dropped.
pub open spec fn dispatched<H: Clone>(
    state: ServerState<H>,
    user: Option<Seq<char>>,
    kind: HandlerKind,
    id: u32,
    payload: Option<Bytes>,
    action: SessionAction<H>,
) -> bool {
    if user is None || state.spec_player_instance_key(user->0) is None {
        action == (SessionAction::<H>::Dropped { kind, reason: DropReason::PlayerMissing })
    } else {
        let world = state.instances@[state.spec_player_instance_key(user->0)->0].world;
        match world.handlers(kind).get(id) {
            None => action == (SessionAction::<H>::Dropped {
                kind,
                reason: DropReason::UnknownHandler(id),
            }),
            Some(registered) => {
                &&& action matches SessionAction::Invoke { kind: k, handler, payload: p }
                &&& k == kind
                &&& cloned(registered, handler)
                &&& p == payload
            },
        }
    }
}

impl ClientInstance {
    /// `after` and `state_after` are the session `self` and the registry
    /// `state` once the session has ended for `reason`, with `action` as
    /// the answer.
    pub open spec fn ended<H>(
        &self,
        after: Self,
        state: ServerState<H>,
        state_after: ServerState<H>,
        reason: CloseReason,
        action: SessionAction<H>,
    ) -> bool {
        &&& after == (ClientInstance { phase: SessionPhase::Terminated, ..*self })
        &&& action matches SessionAction::Finished { outcome, severity: level }
        &&& level == severity(reason)
        &&& state.disconnect_done(state_after, user_view(self.user_id), self.connection_id@, outcome)
    }

    /// `after`, `state_after` and `action` are what follows when `event`
    /// comes to the session `self` while the registry is `state`.
    pub open spec fn ran<H: Clone>(
        &self,
        after: Self,
        state: ServerState<H>,
        state_after: ServerState<H>,
        event: SessionEvent,
        action: SessionAction<H>,
    ) -> bool {
        if self.phase != SessionPhase::Active {
            after == *self && state_after == state && action is Ignored
        } else {
            match event {
                SessionEvent::Diff(msg) => after == *self && state_after == state && action == (
                SessionAction::<H>::SendDiff(msg)),
                SessionEvent::Stat(msg) => after == *self && state_after == state && action == (
                SessionAction::<H>::SendStat(msg)),
                SessionEvent::Datagram(datagram) => if bytes_contents(datagram).len() < 4 {
                    self.ended(after, state, state_after, CloseReason::ProtocolViolation, action)
                } else {
                    &&& after == *self
                    &&& state_after == state
                    &&& exists|payload: Bytes|
                        {
                            &&& bytes_contents(payload) == bytes_contents(datagram).subrange(
                                4,
                                bytes_contents(datagram).len() as int,
                            )
                            &&& dispatched(
                                state,
                                user_view(self.user_id),
                                HandlerKind::Datagram,
                                be_u32(bytes_contents(datagram)) as u32,
                                Some(payload),
                                action,
                            )
                        }
                },
                SessionEvent::BiStream(header) => after == *self && state_after == state
                    && opened(state, user_view(self.user_id), HandlerKind::BiStream, header, action),
                SessionEvent::UniStream(header) => after == *self && state_after == state
                    && opened(
                    state,
                    user_view(self.user_id),
                    HandlerKind::UniStream,
                    header,
                    action,
                ),
                SessionEvent::Closed(reason) => self.ended(
                    after,
                    state,
                    state_after,
                    reason,
                    action,
                ),
            }
        }
    }

    /// Answers what is ready on the connection.
    ///
    /// An active session passes the messages of its queues on to the
    /// transport, in the order in which they come, and hands each stream
    /// and datagram of the peer to the handler that the player's world has
    /// registered for its id. A stream or datagram without a handler is
    /// dropped, and the session goes on. The session ends when the
    /// connection does, or when a datagram is too short to name a handler;
    /// the registry is then cleaned up. A session that is not active
    /// answers nothing.
    pub fn run<H: Clone>(&mut self, state: &mut ServerState<H>, event: SessionEvent) -> (action:
        SessionAction<H>)
        ensures
            old(self).ran(*final(self), *old(state), *final(state), event, action),
            old(state).wf() ==> final(state).wf(),
    {
        match self.phase {
            SessionPhase::Active => {},
            _ => {
                return SessionAction::Ignored;
            },
        }
        match event {
            SessionEvent::Diff(msg) => SessionAction::SendDiff(msg),
            SessionEvent::Stat(msg) => SessionAction::SendStat(msg),
            SessionEvent::Datagram(datagram) => {
                match split_datagram(datagram) {
                    Ok((id, payload)) => dispatch(
                        state,
                        &self.user_id,
                        HandlerKind::Datagram,
                        id,
                        Some(payload),
                    ),
                    Err(_) => self.end(state, CloseReason::ProtocolViolation),
                }
            },
            SessionEvent::BiStream(header) => open(
                state,
                &self.user_id,
                HandlerKind::BiStream,
                header,
            ),
            SessionEvent::UniStream(header) => open(
                state,
                &self.user_id,
                HandlerKind::UniStream,
                header,
            ),
            SessionEvent::Closed(reason) => self.end(state, reason),
        }
    }

    fn end<H>(&mut self, state: &mut ServerState<H>, reason: CloseReason) -> (action: SessionAction<
        H,
    >)
        ensures
            old(self).ended(*final(self), *old(state), *final(state), reason, action),
            old(state).wf() ==> final(state).wf(),
    {
        let outcome = self.close(state);
        SessionAction::Finished { outcome, severity: severity(reason) }
    }
}

/// The action on a stream of `kind` that the peer has opened with `header`
/// as its first bytes: without a header the stream is dropped, with one it
/// goes to the handler that the header names.
pub open spec fn opened<H: Clone>(
    state: ServerState<H>,
    user: Option<Seq<char>>,
    kind: HandlerKind,
    header: Option<[u8; 4]>,
    action: SessionAction<H>,
) -> bool {
    match header {
        None => action == (SessionAction::<H>::Dropped {
            kind,
            reason: DropReason::UnreadableHeader,
        }),
        Some(header) => dispatched(state, user, kind, be_u32(header@) as u32, None, action),
    }
}

/// Looks up the handler of a stream or datagram for the player `user_id`.
pub fn dispatch<H: Clone>(
    state: &ServerState<H>,
    user_id: &Option<String>,
    kind: HandlerKind,
    id: u32,
    payload: Option<Bytes>,
) -> (action: SessionAction<H>)
    ensures
        dispatched(*state, user_view(*user_id), kind, id, payload, action),
{
    let user = match user_id {
        Some(user) => user,
        None => {
            return SessionAction::Dropped { kind, reason: DropReason::PlayerMissing };
        },
    };
    let world = match state.get_player_world(user.as_str()) {
        Some(world) => world,
        None => {
            return SessionAction::Dropped { kind, reason: DropReason::PlayerMissing };
        },
    };
    match world.handler(kind, id) {
        Some(handler) => SessionAction::Invoke { kind, handler: handler.clone(), payload },
        None => SessionAction::Dropped { kind, reason: DropReason::UnknownHandler(id) },
    }
}

/// Reads the handler id of a stream that the peer has opened and looks up
/// its handler for the player `user_id`.
pub fn open<H: Clone>(
    state: &ServerState<H>,
    user_id: &Option<String>,
    kind: HandlerKind,
    header: Option<[u8; 4]>,
) -> (action: SessionAction<H>)
    ensures
        opened(*state, user_view(*user_id), kind, header, action),
{
    let header = match header {
        Some(header) => header,
        None => {
            return SessionAction::Dropped { kind, reason: DropReason::UnreadableHeader };
        },
    };
    match decode_handler_id(header.as_slice()) {
        Some(id) => dispatch(state, user_id, kind, id, None),
        None => SessionAction::Dropped { kind, reason: DropReason::UnreadableHeader },
    }
}

/// An id without a handler does no harm: an active session drops the
/// datagram, stays active and leaves the registry as it is, and the next
/// diff of the player's queue still goes out.
pub proof fn lemma_unknown_handler_is_harmless<H: Clone>(
    session: ClientInstance,
    state: ServerState<H>,
    datagram: Bytes,
    after: ClientInstance,
    state_after: ServerState<H>,
    first: SessionAction<H>,
    diff: Vec<u8>,
    last: ClientInstance,
    state_last: ServerState<H>,
    second: SessionAction<H>,
)
    requires
        session.phase == SessionPhase::Active,
        session.user_id is Some,
        bytes_contents(datagram).len() >= 4,
        state.spec_player_instance_key(session.user_id->0@) matches Some(key)
            && !state.instances@[key].world.datagram_handlers@.contains_key(
            be_u32(bytes_contents(datagram)) as u32,
        ),
        session.ran(after, state, state_after, SessionEvent::Datagram(datagram), first),
        after.ran(last, state_after, state_last, SessionEvent::Diff(diff), second),
    ensures
        first == (SessionAction::<H>::Dropped {
            kind: HandlerKind::Datagram,
            reason: DropReason::UnknownHandler(be_u32(bytes_contents(datagram)) as u32),
        }),
        after == session,
        state_after == state,
        second == SessionAction::<H>::SendDiff(diff),
        last.phase == SessionPhase::Active,
        state_last == state,
{
}

} // verus!
