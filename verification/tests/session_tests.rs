use ambient_network::channel::SendFailure;
use ambient_network::protocol::{
    ClientCommand, ClientEvent, ClientInfo, ClientProtocol, HandshakeError, ServerCommand,
    ServerEvent, ServerInfo, ServerPhase, ServerStream,
};
use ambient_network::registry::{Connection, DisconnectOutcome, InitError, ServerState};
use ambient_network::session::{
    dispatch, open, severity, ClientInstance, CloseReason, DropReason, SessionAction,
    SessionError, SessionEvent, SessionPhase, Severity,
};
use ambient_network::str_map::StrMap;
use ambient_network::wire::frame;
use ambient_network::world::{HandlerKind, WorldDiff};
use bytes::Bytes;
use flume::Receiver;
use once_cell::sync::OnceCell;
use std::sync::Arc;

type Queue = Receiver<Vec<u8>>;

fn connection(id: &str) -> (Connection, Queue, Queue) {
    let (entities_tx, entities_rx) = flume::unbounded();
    let (stats_tx, stats_rx) = flume::unbounded();
    let connection = Connection {
        id: id.to_string(),
        abort_handle: Arc::new(OnceCell::new()),
        entities_tx,
        stats_tx,
    };
    (connection, entities_rx, stats_rx)
}

fn server_info(version: &str) -> ServerInfo {
    ServerInfo {
        project_name: "demo".to_string(),
        content_base_url: "http://host/".to_string(),
        version: version.to_string(),
    }
}

fn no_diff() -> WorldDiff {
    WorldDiff { version: 0, changes: 0, encoded: vec![] }
}

fn shake_hands(session: &mut ClientInstance, user: &str) {
    assert_eq!(session.handshake(ServerEvent::StreamAccepted), ServerCommand::ReceiveUserId);
    assert_eq!(session.phase, SessionPhase::Handshaking);
    assert_eq!(session.handshake(ServerEvent::UserId(user.to_string())), ServerCommand::SendClientInfo);
    assert_eq!(session.handshake(ServerEvent::Sent), ServerCommand::SendServerInfo);
    assert_eq!(session.handshake(ServerEvent::Sent), ServerCommand::OpenStream(ServerStream::Diff));
    assert_eq!(
        session.handshake(ServerEvent::StreamOpened),
        ServerCommand::SendSentinel(ServerStream::Diff)
    );
    assert_eq!(session.handshake(ServerEvent::Sent), ServerCommand::OpenStream(ServerStream::Stat));
    assert_eq!(
        session.handshake(ServerEvent::StreamOpened),
        ServerCommand::SendSentinel(ServerStream::Stat)
    );
    assert_eq!(session.handshake(ServerEvent::Sent), ServerCommand::Finish);
}

fn active_session(state: &mut ServerState<&'static str>, user: &str, id: &str) -> (ClientInstance, Queue, Queue) {
    let (conn, diffs, stats) = connection(id);
    let mut session = ClientInstance::new(conn, server_info("1.0.0"), vec![]);
    shake_hands(&mut session, user);
    session.init(state, &no_diff(), vec![0xAA]).unwrap();
    (session, diffs, stats)
}

fn is_dropped(action: &SessionAction<&'static str>, kind: HandlerKind, reason: DropReason) -> bool {
    match action {
        SessionAction::Dropped { kind: k, reason: r } => *k == kind && *r == reason,
        _ => false,
    }
}

#[test]
fn session_goes_through_its_phases() {
    let mut state: ServerState<&'static str> = ServerState::new_local();
    let (conn, diffs, _stats) = connection("c1");
    let mut session = ClientInstance::new(conn, server_info("1.0.0"), vec![]);
    assert_eq!(session.phase, SessionPhase::Connecting);
    assert_eq!(session.connection_id, "c1");
    assert!(session.user_id.is_none());
    // nothing is sent, and nobody registered, before the handshake is done
    assert!(matches!(
        session.run(&mut state, SessionEvent::Diff(vec![1])),
        SessionAction::Ignored
    ));
    assert_eq!(
        session.init(&mut state, &no_diff(), vec![1]).err(),
        Some(SessionError::NotEstablished)
    );
    assert_eq!(state.players.len(), 0);
    shake_hands(&mut session, "alice");
    assert_eq!(session.phase, SessionPhase::Handshaking);
    assert_eq!(session.proto.phase, ServerPhase::Established);
    assert!(matches!(
        session.run(&mut state, SessionEvent::Stat(vec![1])),
        SessionAction::Ignored
    ));
    let outcome = session.init(&mut state, &no_diff(), vec![1, 2]).unwrap();
    assert!(!outcome.reconnected);
    assert_eq!(session.phase, SessionPhase::Active);
    assert_eq!(session.user_id.as_deref(), Some("alice"));
    assert_eq!(state.players.get("alice").unwrap().connection_id, "c1");
    assert_eq!(diffs.try_recv(), Ok(vec![1, 2]));
    // a second registration is refused
    assert_eq!(
        session.init(&mut state, &no_diff(), vec![1]).err(),
        Some(SessionError::NotEstablished)
    );
    assert_eq!(
        session.handshake(ServerEvent::Sent),
        ServerCommand::Abort(HandshakeError::OutOfOrder)
    );
    match session.run(&mut state, SessionEvent::Closed(CloseReason::ClosedByPeer)) {
        SessionAction::Finished { outcome, severity } => {
            assert_eq!(outcome, DisconnectOutcome::Left);
            assert_eq!(severity, Severity::Info);
        },
        _ => panic!("the session did not finish"),
    }
    assert_eq!(session.phase, SessionPhase::Terminated);
    assert_eq!(state.players.len(), 0);
    assert!(matches!(
        session.run(&mut state, SessionEvent::Diff(vec![1])),
        SessionAction::Ignored
    ));
}

#[test]
fn registry_refusal_leaves_the_session_unregistered() {
    let mut state: ServerState<&'static str> = ServerState::new(StrMap::new());
    let (conn, _d, _s) = connection("c");
    let mut session = ClientInstance::new(conn, server_info("1.0.0"), vec![]);
    shake_hands(&mut session, "u");
    assert_eq!(
        session.init(&mut state, &no_diff(), vec![]).err(),
        Some(SessionError::Registry(InitError::MissingInstance))
    );
    assert_eq!(session.phase, SessionPhase::Handshaking);
    assert!(session.user_id.is_none());
    assert_eq!(session.close(&mut state), DisconnectOutcome::NotIdentified);
    assert_eq!(session.phase, SessionPhase::Terminated);
}

#[test]
fn failed_handshake_closes_without_a_trace() {
    let mut state: ServerState<&'static str> = ServerState::new_local();
    let (conn, _d, _s) = connection("c");
    let mut session = ClientInstance::new(conn, server_info("1.0.0"), vec![]);
    session.handshake(ServerEvent::StreamAccepted);
    assert_eq!(
        session.handshake(ServerEvent::Failed),
        ServerCommand::Abort(HandshakeError::Transport)
    );
    assert_eq!(session.close(&mut state), DisconnectOutcome::NotIdentified);
    assert_eq!(state.players.len(), 0);
    assert_eq!(state.instances.get("main").unwrap().world.entities.len(), 0);
}

#[test]
fn queues_are_passed_on_in_order() {
    let mut state: ServerState<&'static str> = ServerState::new_local();
    let (mut session, _d, _s) = active_session(&mut state, "u", "c");
    for i in 0..4u8 {
        match session.run(&mut state, SessionEvent::Diff(vec![i])) {
            SessionAction::SendDiff(msg) => assert_eq!(msg, vec![i]),
            _ => panic!("diff was not sent"),
        }
        match session.run(&mut state, SessionEvent::Stat(vec![i, i])) {
            SessionAction::SendStat(msg) => assert_eq!(msg, vec![i, i]),
            _ => panic!("stat was not sent"),
        }
    }
}

#[test]
fn datagram_goes_to_its_handler() {
    let mut state: ServerState<&'static str> = ServerState::new_local();
    state.instances.value_at_mut(0).world.datagram_handlers.insert(7, "seven");
    let (mut session, _d, _s) = active_session(&mut state, "u", "c");
    let datagram = Bytes::from(frame(7, &[1, 2, 3]));
    match session.run(&mut state, SessionEvent::Datagram(datagram)) {
        SessionAction::Invoke { kind, handler, payload } => {
            assert_eq!(kind, HandlerKind::Datagram);
            assert_eq!(handler, "seven");
            assert_eq!(&payload.unwrap()[..], &[1, 2, 3]);
        },
        _ => panic!("the handler was not called"),
    }
    assert_eq!(session.phase, SessionPhase::Active);
}

#[test]
fn unknown_handler_id_does_not_close_the_connection() {
    let mut state: ServerState<&'static str> = ServerState::new_local();
    state.instances.value_at_mut(0).world.datagram_handlers.insert(7, "seven");
    let (mut session, diffs, _s) = active_session(&mut state, "u", "c");
    assert_eq!(diffs.try_recv(), Ok(vec![0xAA]));
    let datagram = Bytes::from(frame(0xFFFF_FFFF, &[1]));
    let action = session.run(&mut state, SessionEvent::Datagram(datagram));
    assert!(is_dropped(&action, HandlerKind::Datagram, DropReason::UnknownHandler(0xFFFF_FFFF)));
    assert_eq!(session.phase, SessionPhase::Active);
    assert_eq!(state.players.len(), 1);
    // a diff that follows is delivered as usual
    let mut diffs_of_tick = StrMap::new();
    diffs_of_tick.insert("main".to_string(), WorldDiff { version: 1, changes: 1, encoded: vec![5] });
    assert_eq!(state.broadcast_diffs(&diffs_of_tick), vec![vec![Ok(())]]);
    let msg = diffs.try_recv().unwrap();
    match session.run(&mut state, SessionEvent::Diff(msg)) {
        SessionAction::SendDiff(msg) => assert_eq!(msg, vec![5]),
        _ => panic!("diff was not sent"),
    }
}

#[test]
fn streams_go_to_their_handlers() {
    let mut state: ServerState<&'static str> = ServerState::new_local();
    {
        let world = &mut state.instances.value_at_mut(0).world;
        world.bi_stream_handlers.insert(1, "rpc");
        world.uni_stream_handlers.insert(0x0102_0304, "uni");
    }
    let (mut session, _d, _s) = active_session(&mut state, "u", "c");
    match session.run(&mut state, SessionEvent::BiStream(Some([0, 0, 0, 1]))) {
        SessionAction::Invoke { kind, handler, payload } => {
            assert_eq!(kind, HandlerKind::BiStream);
            assert_eq!(handler, "rpc");
            assert!(payload.is_none());
        },
        _ => panic!("the handler was not called"),
    }
    match session.run(&mut state, SessionEvent::UniStream(Some([1, 2, 3, 4]))) {
        SessionAction::Invoke { kind, handler, .. } => {
            assert_eq!(kind, HandlerKind::UniStream);
            assert_eq!(handler, "uni");
        },
        _ => panic!("the handler was not called"),
    }
    // the tables are separate
    let action = session.run(&mut state, SessionEvent::UniStream(Some([0, 0, 0, 1])));
    assert!(is_dropped(&action, HandlerKind::UniStream, DropReason::UnknownHandler(1)));
    let action = session.run(&mut state, SessionEvent::BiStream(Some([1, 2, 3, 4])));
    assert!(is_dropped(&action, HandlerKind::BiStream, DropReason::UnknownHandler(0x0102_0304)));
    // a stream that ends before its header is dropped
    let action = session.run(&mut state, SessionEvent::BiStream(None));
    assert!(is_dropped(&action, HandlerKind::BiStream, DropReason::UnreadableHeader));
    let action = session.run(&mut state, SessionEvent::UniStream(None));
    assert!(is_dropped(&action, HandlerKind::UniStream, DropReason::UnreadableHeader));
    assert_eq!(session.phase, SessionPhase::Active);
}

#[test]
fn dispatch_for_a_player_who_is_gone_is_a_no_op() {
    let mut state: ServerState<&'static str> = ServerState::new_local();
    state.instances.value_at_mut(0).world.datagram_handlers.insert(7, "seven");
    let (mut session, _d, _s) = active_session(&mut state, "u", "c");
    state.on_disconnect(&Some("u".to_string()), "c");
    let action = session.run(&mut state, SessionEvent::Datagram(Bytes::from(frame(7, &[]))));
    assert!(is_dropped(&action, HandlerKind::Datagram, DropReason::PlayerMissing));
    let action = dispatch(&state, &None, HandlerKind::Datagram, 7, None);
    assert!(is_dropped(&action, HandlerKind::Datagram, DropReason::PlayerMissing));
    let action = open(&state, &Some("u".to_string()), HandlerKind::BiStream, Some([0, 0, 0, 7]));
    assert!(is_dropped(&action, HandlerKind::BiStream, DropReason::PlayerMissing));
}

#[test]
fn short_datagram_ends_the_session() {
    let mut state: ServerState<&'static str> = ServerState::new_local();
    let (mut session, _d, _s) = active_session(&mut state, "u", "c");
    match session.run(&mut state, SessionEvent::Datagram(Bytes::from(vec![0, 0, 7]))) {
        SessionAction::Finished { outcome, severity } => {
            assert_eq!(outcome, DisconnectOutcome::Left);
            assert_eq!(severity, Severity::Error);
        },
        _ => panic!("the session did not finish"),
    }
    assert_eq!(session.phase, SessionPhase::Terminated);
    assert_eq!(state.players.len(), 0);
}

#[test]
fn superseded_session_ends_without_evicting() {
    let mut state: ServerState<&'static str> = ServerState::new_local();
    let (mut old, _d, _s) = active_session(&mut state, "u", "a");
    let (mut new, _d2, _s2) = active_session(&mut state, "u", "b");
    match old.run(&mut state, SessionEvent::Closed(CloseReason::Failed)) {
        SessionAction::Finished { outcome, severity } => {
            assert_eq!(outcome, DisconnectOutcome::Superseded);
            assert_eq!(severity, Severity::Error);
        },
        _ => panic!("the session did not finish"),
    }
    assert_eq!(state.players.get("u").unwrap().connection_id, "b");
    assert_eq!(state.instances.get("main").unwrap().world.entities.len(), 1);
    assert!(matches!(
        new.run(&mut state, SessionEvent::Diff(vec![1])),
        SessionAction::SendDiff(_)
    ));
}

#[test]
fn severity_of_each_end() {
    assert_eq!(severity(CloseReason::Finished), Severity::Silent);
    assert_eq!(severity(CloseReason::ClosedByPeer), Severity::Info);
    assert_eq!(severity(CloseReason::EndOfStream), Severity::Warn);
    assert_eq!(severity(CloseReason::NotConnected), Severity::Warn);
    assert_eq!(severity(CloseReason::ProtocolViolation), Severity::Error);
    assert_eq!(severity(CloseReason::Failed), Severity::Error);
}

#[test]
fn end_to_end_alice() {
    let mut state: ServerState<&'static str> = ServerState::new_local();
    let (conn, diff_queue, _stat_queue) = connection("c1");
    let info = state.server_info("http://host/content/".to_string()).unwrap();
    let mut server = ClientInstance::new(conn, ServerInfo { version: "1.0.0".to_string(), ..info }, vec![]);
    let mut client = ClientProtocol::new("alice".to_string());
    client.version = "1.0.0".to_string();

    // the client names its user on the handshake stream
    assert_eq!(server.handshake(ServerEvent::StreamAccepted), ServerCommand::ReceiveUserId);
    assert_eq!(
        server.handshake(ServerEvent::UserId(client.player_id.clone())),
        ServerCommand::SendClientInfo
    );
    // the server answers with the client info, then the server info
    let sent = server.proto.client_info();
    assert_eq!(sent.user_id, "alice");
    assert!(sent.external_components.is_empty());
    let received = ClientInfo { user_id: sent.user_id.clone(), external_components: vec![] };
    assert_eq!(client.advance(ClientEvent::ClientInfo(received)), ClientCommand::ReceiveServerInfo);
    assert_eq!(server.handshake(ServerEvent::Sent), ServerCommand::SendServerInfo);
    let received = ServerInfo {
        project_name: server.proto.server_info.project_name.clone(),
        content_base_url: server.proto.server_info.content_base_url.clone(),
        version: server.proto.server_info.version.clone(),
    };
    assert_eq!(received.version, "1.0.0");
    assert_eq!(
        client.advance(ClientEvent::ServerInfo(received)),
        ClientCommand::AcceptStream(ServerStream::Diff)
    );
    // the two streams, diff first
    assert_eq!(server.handshake(ServerEvent::Sent), ServerCommand::OpenStream(ServerStream::Diff));
    assert_eq!(
        server.handshake(ServerEvent::StreamOpened),
        ServerCommand::SendSentinel(ServerStream::Diff)
    );
    assert_eq!(
        client.advance(ClientEvent::StreamAccepted),
        ClientCommand::ReceiveSentinel(ServerStream::Diff)
    );
    assert_eq!(server.handshake(ServerEvent::Sent), ServerCommand::OpenStream(ServerStream::Stat));
    assert_eq!(client.advance(ClientEvent::Sentinel), ClientCommand::AcceptStream(ServerStream::Stat));
    assert_eq!(
        server.handshake(ServerEvent::StreamOpened),
        ServerCommand::SendSentinel(ServerStream::Stat)
    );
    assert_eq!(
        client.advance(ClientEvent::StreamAccepted),
        ClientCommand::ReceiveSentinel(ServerStream::Stat)
    );
    assert_eq!(server.handshake(ServerEvent::Sent), ServerCommand::Finish);
    assert_eq!(client.advance(ClientEvent::Sentinel), ClientCommand::Finish);

    // the player joins and gets the full state
    let snapshot = vec![0u8; 8];
    let outcome = server.init(&mut state, &WorldDiff { version: 0, changes: 0, encoded: vec![] }, snapshot.clone()).unwrap();
    assert_eq!(outcome.snapshot, Ok::<(), SendFailure>(()));
    let first = diff_queue.try_recv().unwrap();
    assert!(matches!(server.run(&mut state, SessionEvent::Diff(first)), SessionAction::SendDiff(m) if m == snapshot));

    // one tick with one change: exactly one diff message, holding that change
    let change = vec![1u8, 0, 0, 0, 0, 0, 0, 0, 42];
    state.step(1_000);
    let mut diffs = StrMap::new();
    diffs.insert("main".to_string(), WorldDiff { version: 1, changes: 1, encoded: change.clone() });
    state.broadcast_diffs(&diffs);
    assert_eq!(diff_queue.len(), 1);
    let msg = diff_queue.try_recv().unwrap();
    match server.run(&mut state, SessionEvent::Diff(msg)) {
        SessionAction::SendDiff(msg) => assert_eq!(msg, change),
        _ => panic!("diff was not sent"),
    }
    assert!(diff_queue.try_recv().is_err());
}
