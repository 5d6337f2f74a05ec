use ambient_network::registry::{Connection, ServerState};
use ambient_network::relay::{AssetsSource, RelayCommand, RelayEvent, RelayFallback, RelayPhase};
use ambient_network::server::{
    GameServer, LoopAction, LoopEvent, NoPortAvailable, ProxySettings, ShutdownReason,
    INACTIVITY_THRESHOLD_MS,
};
use ambient_network::world::WorldDiff;
use once_cell::sync::OnceCell;
use std::cell::RefCell;
use std::sync::Arc;

fn settings(pre_cache_assets: bool) -> ProxySettings {
    ProxySettings {
        endpoint: "relay:7000".to_string(),
        project_path: "/project".to_string(),
        pre_cache_assets,
        project_id: "p".to_string(),
    }
}

#[test]
fn new_with_port_keeps_its_settings() {
    let server = GameServer::new_with_port(9000, true, Some(settings(false)));
    assert_eq!(server.port, 9000);
    assert!(server.use_inactivity_shutdown);
    assert_eq!(server.inactivity_threshold_ms, 120_000);
    assert_eq!(server.last_active_ms, 0);
    assert!(server.stopped.is_none());
    assert_eq!(server.proxy_settings.unwrap().endpoint, "relay:7000");
}

#[test]
fn first_free_port_of_the_range_is_taken() {
    let tried = RefCell::new(Vec::new());
    let server = GameServer::new_with_port_in_range(9000..9010, false, None, |port| {
        tried.borrow_mut().push(port);
        port >= 9003
    })
    .ok()
    .unwrap();
    assert_eq!(server.port, 9003);
    assert!(!server.use_inactivity_shutdown);
    assert_eq!(*tried.borrow(), vec![9000, 9001, 9002, 9003]);
}

#[test]
fn no_free_port_in_the_range() {
    let tried = RefCell::new(0);
    let r = GameServer::new_with_port_in_range(9000..9003, false, None, |_| {
        *tried.borrow_mut() += 1;
        false
    });
    assert_eq!(r.err(), Some(NoPortAvailable));
    assert_eq!(*tried.borrow(), 3);
    let r = GameServer::new_with_port_in_range(9003..9003, false, None, |_| true);
    assert_eq!(r.err(), Some(NoPortAvailable));
    let r = GameServer::new_with_port_in_range(9005..9003, false, None, |_| true);
    assert_eq!(r.err(), Some(NoPortAvailable));
    let r = GameServer::new_with_port_in_range(65535..65535, false, None, |_| true);
    assert_eq!(r.err(), Some(NoPortAvailable));
}

#[test]
fn incoming_connections() {
    let mut server = GameServer::new_with_port(9000, false, None);
    assert_eq!(server.run(LoopEvent::Incoming { accepted: true }), LoopAction::RunConnection);
    assert_eq!(server.run(LoopEvent::Incoming { accepted: false }), LoopAction::Continue);
    assert_eq!(server.run(LoopEvent::SimTick), LoopAction::Tick);
    assert_eq!(
        server.run(LoopEvent::EndpointClosed),
        LoopAction::Shutdown(ShutdownReason::NoMoreConnections)
    );
    assert_eq!(
        server.run(LoopEvent::Incoming { accepted: true }),
        LoopAction::Shutdown(ShutdownReason::NoMoreConnections)
    );
}

#[test]
fn inactivity_shuts_the_server_down() {
    let mut server = GameServer::new_with_port(9000, true, None);
    server.last_active_ms = 1_000;
    assert_eq!(
        server.run(LoopEvent::InactivityCheck { now_ms: 121_000, player_count: 0 }),
        LoopAction::Continue
    );
    assert_eq!(
        server.run(LoopEvent::InactivityCheck { now_ms: 121_001, player_count: 0 }),
        LoopAction::Shutdown(ShutdownReason::Inactivity)
    );
    assert_eq!(server.stopped, Some(ShutdownReason::Inactivity));
    assert_eq!(
        server.run(LoopEvent::InactivityCheck { now_ms: 121_002, player_count: 3 }),
        LoopAction::Shutdown(ShutdownReason::Inactivity)
    );
}

#[test]
fn a_join_resets_the_inactivity_timer() {
    let mut server = GameServer::new_with_port(9000, true, None);
    assert_eq!(
        server.run(LoopEvent::InactivityCheck { now_ms: 100_000, player_count: 0 }),
        LoopAction::Continue
    );
    assert_eq!(server.run(LoopEvent::PlayerJoined { now_ms: 119_000 }), LoopAction::Continue);
    assert_eq!(server.last_active_ms, 119_000);
    let mut now = 120_001;
    while now <= 119_000 + INACTIVITY_THRESHOLD_MS {
        assert_eq!(
            server.run(LoopEvent::InactivityCheck { now_ms: now, player_count: 0 }),
            LoopAction::Continue
        );
        now += 5_000;
    }
    assert_eq!(
        server.run(LoopEvent::InactivityCheck { now_ms: 239_001, player_count: 0 }),
        LoopAction::Shutdown(ShutdownReason::Inactivity)
    );
}

#[test]
fn players_keep_the_server_up() {
    let mut server = GameServer::new_with_port(9000, true, None);
    assert_eq!(
        server.run(LoopEvent::InactivityCheck { now_ms: 500_000, player_count: 1 }),
        LoopAction::Continue
    );
    assert_eq!(server.last_active_ms, 500_000);
    // a clock that has gone back counts as no time at all
    assert_eq!(
        server.run(LoopEvent::InactivityCheck { now_ms: 10, player_count: 0 }),
        LoopAction::Continue
    );
    assert_eq!(server.last_active_ms, 500_000);
}

#[test]
fn inactivity_is_ignored_unless_asked_for() {
    let mut server = GameServer::new_with_port(9000, false, None);
    assert_eq!(
        server.run(LoopEvent::InactivityCheck { now_ms: u64::MAX, player_count: 0 }),
        LoopAction::Continue
    );
    assert!(server.stopped.is_none());
    assert_eq!(server.last_active_ms, 0);
}

#[test]
fn inactivity_follows_the_registry() {
    let mut state: ServerState<u32> = ServerState::new_local();
    let mut server = GameServer::new_with_port(9000, true, None);
    let (entities_tx, _d) = flume::unbounded();
    let (stats_tx, _s) = flume::unbounded();
    let conn = Connection {
        id: "c".to_string(),
        abort_handle: Arc::new(OnceCell::new()),
        entities_tx,
        stats_tx,
    };
    state.on_init("u", conn, &WorldDiff { version: 0, changes: 0, encoded: vec![] }, vec![]).unwrap();
    assert_eq!(
        server.run(LoopEvent::InactivityCheck { now_ms: 200_000, player_count: state.player_count() }),
        LoopAction::Continue
    );
    state.on_disconnect(&Some("u".to_string()), "c");
    assert_eq!(
        server.run(LoopEvent::InactivityCheck { now_ms: 320_000, player_count: state.player_count() }),
        LoopAction::Continue
    );
    assert_eq!(
        server.run(LoopEvent::InactivityCheck { now_ms: 320_001, player_count: state.player_count() }),
        LoopAction::Shutdown(ShutdownReason::Inactivity)
    );
}

#[test]
fn relay_registration_runs_its_course() {
    let mut relay = RelayFallback::new(settings(true), "http://direct/".to_string());
    assert_eq!(relay.phase, RelayPhase::Connecting);
    assert_eq!(relay.on_player_connected(), "http://direct/");
    assert_eq!(relay.advance(RelayEvent::Connected(true)), RelayCommand::AllocateEndpoint);
    assert_eq!(relay.phase, RelayPhase::Allocating);
    assert_eq!(relay.advance(RelayEvent::AllocationRequested(true)), RelayCommand::PreCacheAssets);
    assert_eq!(relay.phase, RelayPhase::Serving);
    assert_eq!(relay.advance(RelayEvent::AssetsPreCached), RelayCommand::Idle);
    assert_eq!(relay.phase, RelayPhase::Serving);
    assert_eq!(
        relay.advance(RelayEvent::EndpointAllocated(Some("http://relay/assets/".to_string()))),
        RelayCommand::Idle
    );
    assert_eq!(relay.on_player_connected(), "http://relay/assets/");
    // a root that does not read as a url is passed over
    assert_eq!(relay.advance(RelayEvent::EndpointAllocated(None)), RelayCommand::Idle);
    assert_eq!(relay.on_player_connected(), "http://relay/assets/");
    assert_eq!(relay.phase, RelayPhase::Serving);
}

#[test]
fn relay_failures_degrade() {
    let mut relay = RelayFallback::new(settings(true), "http://direct/".to_string());
    assert_eq!(relay.advance(RelayEvent::Connected(false)), RelayCommand::GiveUp);
    assert_eq!(relay.phase, RelayPhase::Unavailable);
    assert_eq!(relay.advance(RelayEvent::Connected(true)), RelayCommand::GiveUp);
    assert_eq!(relay.advance(RelayEvent::AssetsPreCached), RelayCommand::GiveUp);
    assert_eq!(
        relay.advance(RelayEvent::EndpointAllocated(Some("http://x/".to_string()))),
        RelayCommand::GiveUp
    );
    assert_eq!(relay.on_player_connected(), "http://direct/");

    // a failed request for an endpoint is not the end
    let mut relay = RelayFallback::new(settings(false), "http://direct/".to_string());
    relay.advance(RelayEvent::Connected(true));
    assert_eq!(relay.advance(RelayEvent::AllocationRequested(false)), RelayCommand::Idle);
    assert_eq!(relay.phase, RelayPhase::Serving);
    // events that are not due change nothing
    assert_eq!(relay.advance(RelayEvent::Connected(true)), RelayCommand::Idle);
    assert_eq!(relay.advance(RelayEvent::AllocationRequested(true)), RelayCommand::Idle);
    assert_eq!(relay.phase, RelayPhase::Serving);
}

#[test]
fn relay_assets_source() {
    let relay = RelayFallback::new(settings(false), "http://direct/".to_string());
    match relay.assets_source(Some("/project/build".to_string())) {
        AssetsSource::Path(dir) => assert_eq!(dir, "/project/build"),
        AssetsSource::RootOverride(_) => panic!("a local directory was passed over"),
    }
    match relay.assets_source(None) {
        AssetsSource::RootOverride(url) => assert_eq!(url, "http://direct/"),
        AssetsSource::Path(_) => panic!("there is no local directory"),
    }
}
