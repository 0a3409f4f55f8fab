use azas_tower::channel::AzasTowerPlugin;
use azas_tower::components::{ConnectionStatus, Entity, PlayerBundle, Position};
use azas_tower::events::{SocketContext, SocketEvent};
use azas_tower::messages::{GlobalMessages, MessageAuthorType, ServerMessage};
use azas_tower::resource::{GameRules, GameState, DEFAULT_MAX_PLAYERS};
use azas_tower::simulation::{startup_system, update_game_state_system, Simulation};
use azas_tower::store::EntityStore;
use socketioxide::socket::DisconnectReason;

fn ctx(id: &str) -> SocketContext {
    SocketContext { socket_id: id.to_string(), player_id: 7 }
}

fn connect(id: &str) -> SocketEvent {
    SocketEvent::Connected { context: ctx(id) }
}

fn disconnect(id: &str) -> SocketEvent {
    SocketEvent::Disconnected { context: ctx(id), reason: DisconnectReason::TransportClose }
}

fn message(id: &str, content: &str) -> SocketEvent {
    SocketEvent::Message { context: ctx(id), content: content.to_string() }
}

fn game() -> Simulation {
    Simulation::new(GameRules { max_players: DEFAULT_MAX_PLAYERS })
}

#[test]
fn connect_then_tick_spawns_one_online_entity() {
    let mut sim = game();
    let packet = sim.run_tick(&vec![connect("A")]).expect("a packet is published");
    assert_eq!(sim.store.entity_count(), 1);
    let e = sim.store.get(Entity(0));
    assert_eq!(e.connection_status, ConnectionStatus::Online);
    assert_eq!(e.connection_id.0, "A");
    assert_eq!(e.position, Position { x: 0, y: 0 });
    assert_eq!(sim.game_state.total_players, 1);
    assert_eq!(sim.game_state.tick_count, 1);
    assert_eq!(packet.entities.len(), 1);
    assert_eq!(packet.game_state, GameState { total_players: 1, tick_count: 1 });
}

#[test]
fn connect_and_disconnect_in_one_tick() {
    let mut sim = game();
    let packet = sim.run_tick(&vec![connect("A"), disconnect("A")]).expect("a packet is published");
    assert_eq!(sim.store.entity_count(), 1);
    assert_eq!(sim.store.get(Entity(0)).connection_status, ConnectionStatus::Offline);
    assert_eq!(sim.game_state.total_players, 0);
    assert_eq!(packet.entities.len(), 1);
    assert_eq!(packet.entities[0].connection_id.0, "A");
    assert_eq!(packet.entities[0].connection_status, ConnectionStatus::Offline);
}

#[test]
fn messages_keep_send_order() {
    let mut sim = game();
    let packet = sim.run_tick(&vec![message("A", "hi"), message("B", "yo")]).expect("a packet is published");
    let msgs = &sim.global_messages.0;
    assert_eq!(msgs.len(), 2);
    assert_eq!(msgs[0].author_type, MessageAuthorType::User);
    assert_eq!(msgs[0].author_name.as_deref(), Some("A"));
    assert_eq!(msgs[0].content, "hi");
    assert_eq!(msgs[1].author_type, MessageAuthorType::User);
    assert_eq!(msgs[1].author_name.as_deref(), Some("B"));
    assert_eq!(msgs[1].content, "yo");
    assert_eq!(packet.global_messages.len(), 2);
    assert_eq!(packet.global_messages[1].content, "yo");
    assert!(packet.entities.is_empty());
}

#[test]
fn disconnect_of_unknown_connection_is_ignored() {
    let mut sim = game();
    sim.run_tick(&vec![connect("A")]);
    let packet = sim.run_tick(&vec![disconnect("ghost")]);
    assert!(packet.is_none());
    assert_eq!(sim.store.get(Entity(0)).connection_status, ConnectionStatus::Online);
    assert_eq!(sim.game_state.total_players, 1);
    assert_eq!(sim.game_state.tick_count, 2);
}

#[test]
fn tick_count_grows_by_number_of_ticks() {
    let mut sim = game();
    for _ in 0..5 {
        sim.run_tick(&vec![]);
    }
    assert_eq!(sim.game_state.tick_count, 5);
    sim.run_tick(&vec![connect("A"), message("A", "x")]);
    assert_eq!(sim.game_state.tick_count, 6);
}

#[test]
fn offline_only_after_disconnect() {
    let mut sim = game();
    sim.run_tick(&vec![disconnect("A"), connect("A")]);
    assert_eq!(sim.store.get(Entity(0)).connection_status, ConnectionStatus::Online);
    sim.run_tick(&vec![connect("B"), disconnect("A")]);
    assert_eq!(sim.store.get(Entity(0)).connection_status, ConnectionStatus::Offline);
    assert_eq!(sim.store.get(Entity(1)).connection_status, ConnectionStatus::Online);
    assert_eq!(sim.game_state.total_players, 1);
}

#[test]
fn empty_drain_changes_only_tick_count() {
    let mut sim = game();
    sim.run_tick(&vec![connect("A"), message("A", "hi")]);
    let packet = sim.run_tick(&vec![]).expect("retained messages are published");
    assert!(packet.entities.is_empty());
    assert_eq!(packet.global_messages.len(), 1);
    assert_eq!(sim.store.entity_count(), 1);
    assert_eq!(sim.game_state, GameState { total_players: 1, tick_count: 2 });
    assert_eq!(sim.global_messages.0.len(), 1);
}

#[test]
fn quiet_tick_publishes_nothing() {
    let mut sim = game();
    sim.run_tick(&vec![connect("A")]);
    assert!(sim.run_tick(&vec![]).is_none());
    assert!(sim.store.snapshot_changed_since(1).is_empty());
}

#[test]
fn moved_entity_is_the_only_change() {
    let mut sim = game();
    sim.run_tick(&vec![connect("A"), connect("B"), connect("C")]);
    sim.move_entity(Entity(1), Position { x: 3, y: -4 });
    let packet = sim.run_tick(&vec![]).expect("the move is published");
    assert_eq!(packet.entities.len(), 1);
    assert_eq!(packet.entities[0].connection_id.0, "B");
    assert_eq!(packet.entities[0].position, Position { x: 3, y: -4 });
    let changed = sim.store.snapshot_changed_since(1);
    assert_eq!(changed.len(), 1);
    assert_eq!(changed[0].connection_id.0, "B");
}

#[test]
fn player_cap_drops_extra_connections() {
    let mut sim = Simulation::new(GameRules { max_players: 2 });
    sim.run_tick(&vec![connect("A"), connect("B"), connect("C")]);
    assert_eq!(sim.store.entity_count(), 2);
    assert_eq!(sim.game_state.total_players, 2);
    sim.run_tick(&vec![disconnect("C"), disconnect("A"), connect("D")]);
    assert_eq!(sim.store.entity_count(), 3);
    assert_eq!(sim.store.get(Entity(2)).connection_id.0, "D");
    assert_eq!(sim.game_state.total_players, 2);
}

#[test]
fn reconnect_with_same_id_spawns_new_entity() {
    let mut sim = game();
    sim.run_tick(&vec![connect("A"), disconnect("A"), connect("A")]);
    assert_eq!(sim.store.entity_count(), 2);
    assert_eq!(sim.store.find_by_connection_id(&"A".to_string()), Some(Entity(1)));
    assert_eq!(sim.store.get(Entity(0)).connection_status, ConnectionStatus::Offline);
    assert_eq!(sim.store.get(Entity(1)).connection_status, ConnectionStatus::Online);
    assert_eq!(sim.game_state.total_players, 1);
}

#[test]
fn store_operations() {
    let mut store = EntityStore::new();
    assert_eq!(store.find_by_connection_id(&"x".to_string()), None);
    let a = store.spawn("a".to_string(), "x".to_string(), 1);
    let b = store.spawn("b".to_string(), "y".to_string(), 1);
    assert_eq!((a, b), (Entity(0), Entity(1)));
    assert_eq!(store.find_by_connection_id(&"y".to_string()), Some(Entity(1)));
    assert_eq!(store.snapshot_changed_since(0).len(), 2);
    assert!(store.snapshot_changed_since(1).is_empty());
    store.set_status(b, ConnectionStatus::Offline, 2);
    let changed = store.snapshot_changed_since(1);
    assert_eq!(changed.len(), 1);
    assert_eq!(changed[0].name, "b");
    assert_eq!(store.set_offline_by_connection_id(&"x".to_string(), 3), 1);
    assert_eq!(store.set_offline_by_connection_id(&"x".to_string(), 4), 0);
    assert_eq!(store.get(a).connection_status, ConnectionStatus::Offline);
}

#[test]
fn bundle_and_components() {
    let b = PlayerBundle::new("n".to_string(), "c".to_string());
    assert_eq!(b.position, Position::default());
    assert_eq!(b.connection_status, ConnectionStatus::Online);
    let c = b.snapshot();
    assert_eq!(c.name, "n");
    assert_eq!(c.connection_id.0, "c");
    let m = ServerMessage::default();
    assert_eq!(m.author_type, MessageAuthorType::Server);
    assert!(m.author_name.is_none());
    assert!(GlobalMessages::new().0.is_empty());
}

#[test]
fn systems_set_up_and_advance_counters() {
    let mut state = GameState { total_players: 4, tick_count: 9 };
    let rules = startup_system(&mut state);
    assert_eq!(rules.max_players, 10);
    assert_eq!(state, GameState { total_players: 0, tick_count: 9 });
    update_game_state_system(&mut state);
    assert_eq!(state.tick_count, 10);
}

#[test]
fn server_drains_channel_each_tick() {
    let (tx, mut server) = AzasTowerPlugin.build();
    assert!(server.tick().is_none());
    tx.send(connect("A")).unwrap();
    tx.send(message("A", "hello")).unwrap();
    let packet = server.tick().expect("a packet is published");
    assert_eq!(packet.entities.len(), 1);
    assert_eq!(packet.global_messages[0].content, "hello");
    assert_eq!(server.simulation.game_state, GameState { total_players: 1, tick_count: 2 });
    tx.send(disconnect("A")).unwrap();
    server.tick();
    assert_eq!(server.simulation.game_state.total_players, 0);
    assert_eq!(server.simulation.store.get(Entity(0)).connection_status, ConnectionStatus::Offline);
}
