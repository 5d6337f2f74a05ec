use ambient_network::channel::SendFailure;
use ambient_network::registry::{
    Connection, DisconnectOutcome, InitError, Player, RemoveError, ServerState, MAIN_INSTANCE_ID,
};
use ambient_network::str_map::StrMap;
use ambient_network::world::{
    create_player_entity_data, register_rpc_bi_stream_handler, EntityId, HandlerKind, RpcArgs,
    StreamKind, World, WorldDiff, WorldInstance, RPC_BISTREAM_ID,
};
use flume::Receiver;
use once_cell::sync::OnceCell;
use std::sync::Arc;

type Queue = Receiver<Vec<u8>>;

fn connection(id: &str) -> (Connection, Queue, Queue) {
    let (entities_tx, entities_rx) = flume::unbounded();
    let (stats_tx, stats_rx) = flume::unbounded();
    let connection = Connection {
        id: id.to_string(),
        abort_handle: Arc::new(OnceCell::new()),
        entities_tx,
        stats_tx,
    };
    (connection, entities_rx, stats_rx)
}

fn no_diff() -> WorldDiff {
    WorldDiff { version: 0, changes: 0, encoded: vec![0, 0, 0, 0, 0, 0, 0, 0] }
}

fn diff(version: u64, encoded: &[u8]) -> WorldDiff {
    WorldDiff { version, changes: 1, encoded: encoded.to_vec() }
}

fn drain(rx: &Queue) -> Vec<Vec<u8>> {
    let mut got = Vec::new();
    while let Ok(msg) = rx.try_recv() {
        got.push(msg);
    }
    got
}

fn main_entities(state: &ServerState<u32>) -> usize {
    state.instances.get(MAIN_INSTANCE_ID).unwrap().world.entities.len()
}

#[test]
fn new_local_has_the_main_instance_and_no_players() {
    let state: ServerState<u32> = ServerState::new_local();
    assert_eq!(state.instances.len(), 1);
    assert_eq!(state.players.len(), 0);
    let main = state.instances.get("main").unwrap();
    assert_eq!(main.world.name, "main_server");
    assert_eq!(main.world.entities.len(), 0);
    assert_eq!(main.world_stream.version, 0);
    assert_eq!(state.player_count(), 0);
}

#[test]
fn first_join_makes_one_player_and_one_entity() {
    let mut state: ServerState<u32> = ServerState::new_local();
    let (conn, diffs, stats) = connection("c1");
    let outcome = state.on_init("alice", conn, &no_diff(), vec![1, 2, 3]).unwrap();
    assert!(!outcome.reconnected);
    assert_eq!(outcome.entity, EntityId(0));
    assert!(outcome.flushed.is_empty());
    assert_eq!(outcome.snapshot, Ok(()));
    assert!(outcome.cancelled.is_none());
    assert_eq!(state.players.len(), 1);
    let player = state.players.get("alice").unwrap();
    assert_eq!(player.instance, "main");
    assert_eq!(player.connection_id, "c1");
    assert_eq!(main_entities(&state), 1);
    let (id, entity) = &state.instances.get("main").unwrap().world.entities[0];
    assert_eq!(*id, EntityId(0));
    assert_eq!(entity.user_id, "alice");
    assert_eq!(entity.name, "Player alice");
    assert_eq!(entity.connection.as_deref(), Some("c1"));
    assert!(entity.dont_store);
    assert_eq!(drain(&diffs), vec![vec![1, 2, 3]]);
    assert!(drain(&stats).is_empty());
    assert_eq!(state.player_count(), 1);
}

#[test]
fn reconnect_keeps_one_player_and_one_entity() {
    let mut state: ServerState<u32> = ServerState::new_local();
    let (a, a_diffs, _a_stats) = connection("a");
    let joined = state.on_init("alice", a, &no_diff(), vec![1]).unwrap();
    let (b, b_diffs, _b_stats) = connection("b");
    let rejoined = state.on_init("alice", b, &diff(5, &[9, 9]), vec![2]).unwrap();
    assert!(rejoined.reconnected);
    assert_eq!(rejoined.entity, joined.entity);
    assert_eq!(rejoined.flushed, vec![Ok(())]);
    // the earlier connection had no task on record, so none was found to cancel
    assert!(!rejoined.cancelled.unwrap().task_found());
    assert_eq!(state.player_count(), 1);
    assert_eq!(state.players.len(), 1);
    assert_eq!(state.players.get("alice").unwrap().connection_id, "b");
    assert_eq!(main_entities(&state), 1);
    let main = state.instances.get("main").unwrap();
    assert_eq!(main.world_stream.version, 5);
    assert_eq!(main.world.entities[0].1.connection.as_deref(), Some("b"));
    // the pending diff went to the connection that was bound before
    assert_eq!(drain(&a_diffs), vec![vec![1], vec![9, 9]]);
    // the new connection starts from the full snapshot
    assert_eq!(drain(&b_diffs), vec![vec![2]]);
    // later diffs reach the new connection only
    state.instances.value_at_mut(0).broadcast_diffs(&diff(6, &[7]));
    assert_eq!(drain(&b_diffs), vec![vec![7]]);
    assert!(drain(&a_diffs).is_empty());
}

#[test]
fn stale_disconnect_does_not_evict_the_reconnected_player() {
    let mut state: ServerState<u32> = ServerState::new_local();
    let (a, _a_diffs, _a_stats) = connection("a");
    state.on_init("u", a, &no_diff(), vec![]).unwrap();
    let (b, _b_diffs, _b_stats) = connection("b");
    state.on_init("u", b, &no_diff(), vec![]).unwrap();
    let outcome = state.on_disconnect(&Some("u".to_string()), "a");
    assert_eq!(outcome, DisconnectOutcome::Superseded);
    assert_eq!(state.players.get("u").unwrap().connection_id, "b");
    assert_eq!(main_entities(&state), 1);
    let outcome = state.on_disconnect(&Some("u".to_string()), "b");
    assert_eq!(outcome, DisconnectOutcome::Left);
    assert!(state.players.get("u").is_none());
    assert_eq!(main_entities(&state), 0);
}

#[test]
fn disconnect_of_unknown_connections_changes_nothing() {
    let mut state: ServerState<u32> = ServerState::new_local();
    let (a, _d, _s) = connection("a");
    state.on_init("u", a, &no_diff(), vec![]).unwrap();
    assert_eq!(state.on_disconnect(&None, "a"), DisconnectOutcome::NotIdentified);
    assert_eq!(
        state.on_disconnect(&Some("v".to_string()), "a"),
        DisconnectOutcome::NotRegistered
    );
    assert_eq!(state.players.len(), 1);
    assert_eq!(main_entities(&state), 1);
}

#[test]
fn disconnect_in_a_broken_registry_is_reported() {
    let mut state: ServerState<u32> = ServerState::new_local();
    state.players.insert(
        "ghost".to_string(),
        Player::new_local("nowhere".to_string(), "c".to_string()),
    );
    state.players.insert(
        "shade".to_string(),
        Player::new_local("main".to_string(), "d".to_string()),
    );
    assert_eq!(
        state.on_disconnect(&Some("ghost".to_string()), "c"),
        DisconnectOutcome::LeftWithoutInstance
    );
    assert_eq!(
        state.on_disconnect(&Some("shade".to_string()), "d"),
        DisconnectOutcome::LeftWithoutEntity
    );
    assert_eq!(state.players.len(), 0);
}

#[test]
fn init_errors() {
    let mut state: ServerState<u32> = ServerState::new(StrMap::new());
    let (a, _d, _s) = connection("a");
    assert_eq!(
        state.on_init("u", a, &no_diff(), vec![]).err(),
        Some(InitError::MissingInstance)
    );
    assert_eq!(state.players.len(), 0);

    let mut state: ServerState<u32> = ServerState::new_local();
    state.players.insert("u".to_string(), Player::new_local("main".to_string(), "x".to_string()));
    let (a, _d, _s) = connection("a");
    assert_eq!(state.on_init("u", a, &no_diff(), vec![]).err(), Some(InitError::MissingEntity));
    assert_eq!(state.players.get("u").unwrap().connection_id, "x");

    let mut state: ServerState<u32> = ServerState::new_local();
    state.instances.value_at_mut(0).world.next_id = u64::MAX;
    let (a, _d, _s) = connection("a");
    assert_eq!(state.on_init("u", a, &no_diff(), vec![]).err(), Some(InitError::OutOfEntityIds));
    assert_eq!(state.players.len(), 0);
    assert_eq!(main_entities(&state), 0);
}

#[test]
fn target_instance_is_main_for_new_players() {
    let mut state: ServerState<u32> = ServerState::new_local();
    assert_eq!(state.target_instance("u"), "main");
    state.players.insert("u".to_string(), Player::new_local("other".to_string(), "x".to_string()));
    assert_eq!(state.target_instance("u"), "other");
}

#[test]
fn empty_diff_is_not_sent() {
    let mut state: ServerState<u32> = ServerState::new_local();
    let (a, a_diffs, _s) = connection("a");
    state.on_init("u", a, &no_diff(), vec![1]).unwrap();
    assert_eq!(drain(&a_diffs), vec![vec![1]]);
    let mut diffs = StrMap::new();
    diffs.insert("main".to_string(), WorldDiff { version: 3, changes: 0, encoded: vec![8; 8] });
    let outcomes = state.broadcast_diffs(&diffs);
    assert_eq!(outcomes, vec![vec![]]);
    assert_eq!(a_diffs.len(), 0);
    assert_eq!(state.instances.get("main").unwrap().world_stream.version, 3);
}

#[test]
fn diff_goes_to_every_player_in_order() {
    let mut state: ServerState<u32> = ServerState::new_local();
    let (a, a_diffs, _as) = connection("a");
    let (b, b_diffs, _bs) = connection("b");
    state.on_init("u", a, &no_diff(), vec![0]).unwrap();
    let joined = state.on_init("v", b, &diff(1, &[1]), vec![0, 0]).unwrap();
    assert_eq!(joined.flushed, vec![Ok(())]);
    let mut diffs = StrMap::new();
    diffs.insert("main".to_string(), diff(2, &[2]));
    assert_eq!(state.broadcast_diffs(&diffs), vec![vec![Ok(()), Ok(())]]);
    let mut diffs = StrMap::new();
    diffs.insert("main".to_string(), diff(3, &[3]));
    assert_eq!(state.broadcast_diffs(&diffs), vec![vec![Ok(()), Ok(())]]);
    assert_eq!(drain(&a_diffs), vec![vec![0], vec![1], vec![2], vec![3]]);
    assert_eq!(drain(&b_diffs), vec![vec![0, 0], vec![2], vec![3]]);
    // an instance without a reported diff is left alone
    assert_eq!(state.broadcast_diffs(&StrMap::new()), vec![vec![]]);
    assert_eq!(state.instances.get("main").unwrap().world_stream.version, 3);
}

#[test]
fn a_refusing_channel_does_not_hold_up_the_others() {
    let mut state: ServerState<u32> = ServerState::new_local();
    let (a, a_diffs, _as) = connection("a");
    let (b, b_diffs, _bs) = connection("b");
    let (full_tx, full_rx) = flume::bounded(1);
    let (c_stats_tx, _c_stats) = flume::unbounded();
    let c = Connection {
        id: "c".to_string(),
        abort_handle: Arc::new(OnceCell::new()),
        entities_tx: full_tx,
        stats_tx: c_stats_tx,
    };
    state.on_init("u", a, &no_diff(), vec![]).unwrap();
    state.on_init("w", c, &no_diff(), vec![5]).unwrap();
    state.on_init("v", b, &no_diff(), vec![]).unwrap();
    drop(a_diffs);
    let outcomes = state.instances.value_at_mut(0).broadcast_diffs(&diff(1, &[4]));
    assert_eq!(
        outcomes,
        vec![Err(SendFailure::Disconnected), Err(SendFailure::Full), Ok(())]
    );
    assert_eq!(drain(&b_diffs), vec![vec![], vec![4]]);
    assert_eq!(drain(&full_rx), vec![vec![5]]);
}

#[test]
fn stats_go_to_the_stat_queues_only() {
    let mut state: ServerState<u32> = ServerState::new_local();
    let (a, a_diffs, a_stats) = connection("a");
    state.on_init("u", a, &no_diff(), vec![1]).unwrap();
    assert_eq!(state.broadcast_stats(&vec![6, 6]), vec![vec![Ok(())]]);
    assert_eq!(drain(&a_stats), vec![vec![6, 6]]);
    assert_eq!(drain(&a_diffs), vec![vec![1]]);
}

#[test]
fn tick_steps_broadcasts_and_samples() {
    let mut state: ServerState<u32> = ServerState::new_local();
    let (a, a_diffs, a_stats) = connection("a");
    let (b, b_diffs, b_stats) = connection("b");
    state.on_init("u", a, &no_diff(), vec![0]).unwrap();
    state.on_init("v", b, &no_diff(), vec![0]).unwrap();
    drain(&a_diffs);
    drain(&b_diffs);
    // a tick with changes and a sample
    let mut diffs = StrMap::new();
    diffs.insert("main".to_string(), diff(1, &[1, 1]));
    let outcome = state.tick(77, &diffs, Some(&vec![9]));
    assert_eq!(outcome.diffs, vec![vec![Ok(()), Ok(())]]);
    assert_eq!(outcome.stats, vec![vec![Ok(()), Ok(())]]);
    let main = state.instances.get("main").unwrap();
    assert_eq!(main.world.time, 77);
    assert_eq!(main.world_stream.version, 1);
    assert_eq!(drain(&a_diffs), vec![vec![1, 1]]);
    assert_eq!(drain(&b_diffs), vec![vec![1, 1]]);
    assert_eq!(drain(&a_stats), vec![vec![9]]);
    assert_eq!(drain(&b_stats), vec![vec![9]]);
    // a tick without changes: no diff goes out, the sample still does
    let mut diffs = StrMap::new();
    diffs.insert("main".to_string(), WorldDiff { version: 2, changes: 0, encoded: vec![0; 8] });
    let outcome = state.tick(78, &diffs, Some(&vec![8]));
    assert_eq!(outcome.diffs, vec![vec![]]);
    assert_eq!(outcome.stats, vec![vec![Ok(()), Ok(())]]);
    assert_eq!(a_diffs.len(), 0);
    assert_eq!(b_diffs.len(), 0);
    assert_eq!(drain(&a_stats), vec![vec![8]]);
    // a tick without a sample
    let mut diffs = StrMap::new();
    diffs.insert("main".to_string(), diff(3, &[3]));
    let outcome = state.tick(79, &diffs, None);
    assert_eq!(outcome.diffs, vec![vec![Ok(()), Ok(())]]);
    assert!(outcome.stats.is_empty());
    assert_eq!(drain(&a_diffs), vec![vec![3]]);
    assert_eq!(drain(&b_stats), vec![vec![8]]);
    let main = state.instances.get("main").unwrap();
    assert_eq!(main.world.time, 79);
    assert_eq!(main.world_stream.version, 3);
    assert_eq!(state.players.len(), 2);
}

#[test]
fn step_moves_every_clock() {
    let mut instances = StrMap::new();
    instances.insert("a".to_string(), WorldInstance::<u32>::new(World::new("a")));
    instances.insert("b".to_string(), WorldInstance::<u32>::new(World::new("b")));
    let mut state = ServerState::new(instances);
    state.step(1_700_000_000_000_000_000);
    assert_eq!(state.instances.get("a").unwrap().world.time, 1_700_000_000_000_000_000);
    assert_eq!(state.instances.get("b").unwrap().world.time, 1_700_000_000_000_000_000);
    assert_eq!(state.players.len(), 0);
}

#[test]
fn player_count_adds_up_the_instances() {
    let mut instances = StrMap::new();
    for key in ["main", "b"] {
        let mut instance = WorldInstance::<u32>::new(World::new(key));
        for user in ["x", "y"] {
            let (tx, _rx) = flume::unbounded();
            let (stx, _srx) = flume::unbounded();
            instance.spawn_player(create_player_entity_data(user, tx, stx)).unwrap();
        }
        assert_eq!(instance.player_count(), 2);
        instances.insert(key.to_string(), instance);
    }
    let state = ServerState::new(instances);
    assert_eq!(state.player_count(), 4);
}

#[test]
fn spawn_and_despawn() {
    let mut instance = WorldInstance::<u32>::new(World::new("w"));
    let (tx, _rx) = flume::unbounded();
    let (stx, _srx) = flume::unbounded();
    assert_eq!(instance.spawn_player(create_player_entity_data("x", tx, stx)), Some(EntityId(0)));
    let (tx, _rx) = flume::unbounded();
    let (stx, _srx) = flume::unbounded();
    assert_eq!(instance.spawn_player(create_player_entity_data("y", tx, stx)), Some(EntityId(1)));
    let args = RpcArgs { user_id: "y".to_string() };
    assert_eq!(args.get_player(&instance.world), Some(EntityId(1)));
    assert_eq!(instance.world.find_player("y"), Some(1));
    let gone = instance.despawn_player("x").unwrap();
    assert_eq!(gone.user_id, "x");
    assert!(gone.connection.is_none());
    assert!(instance.despawn_player("x").is_none());
    assert_eq!(instance.player_count(), 1);
    assert_eq!(args.get_player(&instance.world), Some(EntityId(1)));
    assert_eq!(RpcArgs { user_id: "x".to_string() }.get_player(&instance.world), None);
    instance.world.next_id = u64::MAX;
    let (tx, _rx) = flume::unbounded();
    let (stx, _srx) = flume::unbounded();
    assert_eq!(instance.spawn_player(create_player_entity_data("z", tx, stx)), None);
    assert_eq!(instance.player_count(), 1);
}

#[test]
fn entity_offers_to_the_chosen_stream() {
    let (tx, rx) = flume::unbounded();
    let (stx, srx) = flume::unbounded();
    let mut entity = create_player_entity_data("x", tx, stx);
    assert_eq!(entity.offer(StreamKind::Stats, vec![1]), Ok(()));
    assert_eq!(entity.offer(StreamKind::Entities, vec![2]), Ok(()));
    assert_eq!(drain(&rx), vec![vec![2]]);
    assert_eq!(drain(&srx), vec![vec![1]]);
    drop(rx);
    assert_eq!(entity.offer(StreamKind::Entities, vec![3]), Err(SendFailure::Disconnected));
    assert_eq!(entity.offer(StreamKind::Stats, vec![4]), Ok(()));
}

#[test]
fn player_world_getters() {
    let mut state: ServerState<u32> = ServerState::new_local();
    assert!(state.get_player_world_instance("u").is_none());
    assert!(state.get_player_world("u").is_none());
    assert!(state.get_player_world_instance_mut("u").is_none());
    assert!(state.get_player_world_mut("u").is_none());
    let (a, _d, _s) = connection("a");
    state.on_init("u", a, &no_diff(), vec![]).unwrap();
    assert_eq!(state.get_player_world_instance("u").unwrap().world.entities.len(), 1);
    assert_eq!(state.get_player_world("u").unwrap().name, "main_server");
    state.get_player_world_mut("u").unwrap().project_name = "demo".to_string();
    state.get_player_world_instance_mut("u").unwrap().world_stream.version = 9;
    let main = state.instances.get("main").unwrap();
    assert_eq!(main.world.project_name, "demo");
    assert_eq!(main.world_stream.version, 9);
    // a player whose instance is gone has no world
    state.players.insert("lost".to_string(), Player::new_local("gone".to_string(), "c".to_string()));
    assert!(state.get_player_world("lost").is_none());
}

#[test]
fn remove_instance_hands_the_instance_back() {
    let mut instances = StrMap::new();
    instances.insert("main".to_string(), WorldInstance::<u32>::new(World::new("m")));
    instances.insert("side".to_string(), WorldInstance::<u32>::new(World::new("s")));
    let mut state = ServerState::new(instances);
    let gone = state.remove_instance("side").ok().unwrap();
    assert_eq!(gone.world.name, "s");
    assert_eq!(state.remove_instance("side").err(), Some(RemoveError::MissingInstance));
    assert_eq!(state.instances.len(), 1);
    assert!(state.instances.contains_key("main"));
}

#[test]
fn an_instance_with_players_is_not_removed() {
    let mut state: ServerState<u32> = ServerState::new_local();
    let (a, _d, _s) = connection("a");
    state.on_init("u", a, &no_diff(), vec![]).unwrap();
    assert_eq!(state.remove_instance("main").err(), Some(RemoveError::PlayersAttached));
    assert_eq!(state.instances.len(), 1);
    assert_eq!(state.players.get("u").unwrap().instance, "main");
    assert_eq!(main_entities(&state), 1);
    // once the player has left, the instance can go
    state.on_disconnect(&Some("u".to_string()), "a");
    let gone = state.remove_instance("main").ok().unwrap();
    assert_eq!(gone.world.name, "main_server");
    assert_eq!(state.instances.len(), 0);
    assert_eq!(state.remove_instance("main").err(), Some(RemoveError::MissingInstance));
}

#[test]
fn server_info_comes_from_the_main_world() {
    let mut state: ServerState<u32> = ServerState::new_local();
    state.instances.value_at_mut(0).world.project_name = "demo".to_string();
    let info = state.server_info("http://host/content/".to_string()).unwrap();
    assert_eq!(info.project_name, "demo");
    assert_eq!(info.content_base_url, "http://host/content/");
    assert_eq!(info.version, ambient_network::protocol::VERSION);
    let empty: ServerState<u32> = ServerState::new(StrMap::new());
    assert!(empty.server_info("x".to_string()).is_none());
}

#[test]
fn rpc_handler_is_registered_under_its_id() {
    let mut world: World<&'static str> = World::new("w");
    register_rpc_bi_stream_handler(&mut world.bi_stream_handlers, "rpc");
    assert_eq!(RPC_BISTREAM_ID, 1);
    assert_eq!(world.handler(HandlerKind::BiStream, 1), Some(&"rpc"));
    assert_eq!(world.handler(HandlerKind::UniStream, 1), None);
    assert_eq!(world.handler(HandlerKind::Datagram, 1), None);
    register_rpc_bi_stream_handler(&mut world.bi_stream_handlers, "rpc2");
    assert_eq!(world.handler(HandlerKind::BiStream, 1), Some(&"rpc2"));
    world.datagram_handlers.insert(7, "dgram");
    world.uni_stream_handlers.insert(8, "uni");
    assert_eq!(world.handler(HandlerKind::Datagram, 7), Some(&"dgram"));
    assert_eq!(world.handler(HandlerKind::UniStream, 8), Some(&"uni"));
    assert_eq!(world.handler(HandlerKind::Datagram, 8), None);
}

#[test]
fn reconnect_cancels_the_task_of_the_earlier_connection() {
    let runtime = tokio::runtime::Builder::new_current_thread().build().unwrap();
    let (alive_tx, alive_rx) = flume::unbounded::<()>();
    let handle = Arc::new(OnceCell::new());
    runtime.block_on(async {
        let task = tokio::spawn(async move {
            let _held = alive_tx;
            std::future::pending::<()>().await;
        });
        handle.set(task).unwrap();
        tokio::task::yield_now().await;
    });
    let mut state: ServerState<u32> = ServerState::new_local();
    let (mut a, _d, _s) = connection("a");
    a.abort_handle = handle.clone();
    state.on_init("u", a, &no_diff(), vec![]).unwrap();
    assert!(!alive_rx.is_disconnected());
    let (b, _d2, _s2) = connection("b");
    let rejoined = state.on_init("u", b, &no_diff(), vec![]).unwrap();
    assert!(rejoined.cancelled.unwrap().task_found());
    runtime.block_on(async {
        tokio::task::yield_now().await;
    });
    assert!(alive_rx.is_disconnected());
    assert!(handle.get().unwrap().is_finished());
    // a player without a task has nothing to cancel
    assert!(!Player::new_local("main".to_string(), "x".to_string()).cancel().task_found());
    let player = Player::new("main".to_string(), handle, "y".to_string());
    assert_eq!(player.connection_id, "y");
}
