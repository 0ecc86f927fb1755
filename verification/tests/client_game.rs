use ashfall::client::config::ClientConfig;
use ashfall::client::dispatch::dispatch;
use ashfall::client::game::{ClientState, Game, GameClock};
use ashfall::client::ipc::{Param, OP_SET_POS, OP_TRACK_ACTOR, OP_UNTRACK_ACTOR};
use ashfall::client::registry::{ClientObject, ClientRegistry, InterpUpdate, FULL_HEALTH_BITS};
use ashfall::client::sync::entity_id;
use ashfall::id::NetworkID;
use ashfall::protocol::Packet;
use ashfall::string_cache::CachedString;

fn object_new(id: NetworkID, name: CachedString) -> Packet {
    Packet::ObjectNew {
        id,
        ref_id: 0x100,
        base_id: 0x200,
        name,
        game_pos: [0; 3],
        net_pos: [0; 3],
        angle: [0; 3],
        scale: 1.0f32.to_bits(),
        cell: 1,
        enabled: true,
        lock: 0,
        owner: 0,
    }
}

fn actor_new(id: NetworkID, ref_id: u32) -> Packet {
    Packet::ActorNew {
        id,
        ref_id,
        base_id: 0x1234,
        values: vec![],
        base_values: vec![],
        race: 0,
        age: 0,
        idle: 0,
        moving: 0,
        moving_xy: 0,
        weapon: 0,
        female: false,
        alerted: false,
        sneaking: false,
        dead: false,
        death_limbs: 0,
        death_cause: 0,
        scale: 1.0f32.to_bits(),
    }
}

fn game() -> Game {
    Game::new(ClientConfig::default())
}

#[test]
fn test_interp_buffer_used() {
    let mut reg = ClientRegistry::new();
    let id = NetworkID::new(9);
    let spawn = reg.apply_packet(&object_new(id, CachedString::Plain("y".to_string())));
    assert_eq!(spawn, InterpUpdate::Push(id, [0; 3]), "buffer created on spawn");
    let gone = reg.apply_packet(&Packet::ObjectRemove { id, silent: true });
    assert_eq!(gone, InterpUpdate::Drop(id), "buffer dropped on despawn");
}

#[test]
fn update_pos_moves_raw_position_and_feeds_buffer() {
    let mut reg = ClientRegistry::new();
    let id = NetworkID::new(7);
    reg.apply_packet(&object_new(id, CachedString::Plain("x".to_string())));
    let p = [100.0f32.to_bits(), 0, 0];
    let upd = reg.apply_packet(&Packet::UpdatePos { id, pos: p });
    assert_eq!(upd, InterpUpdate::Push(id, p));
    match reg.get(id).unwrap() {
        ClientObject::Object { pos, .. } => assert_eq!(*pos, p),
        _ => panic!("expected object"),
    }
}

#[test]
fn test_object_name_string_cache_resolved() {
    let mut reg = ClientRegistry::new();
    let id = NetworkID::new(11);
    reg.apply_packet(&object_new(id, CachedString::Inline { id: 3, value: "Vault101Door".to_string() }));
    match reg.get(id).unwrap() {
        ClientObject::Object { name, .. } => assert_eq!(name, "Vault101Door"),
        _ => panic!("expected object"),
    }
    reg.apply_packet(&Packet::UpdateName { id, name: CachedString::Id(3) });
    match reg.get(id).unwrap() {
        ClientObject::Object { name, .. } => assert_eq!(name, "Vault101Door", "Id resolved via table"),
        _ => panic!("expected object"),
    }
    assert_eq!(reg.string_table().lookup(3), Some("Vault101Door"));
}

#[test]
fn test_actor_state_delta_merges_present_fields() {
    let mut reg = ClientRegistry::new();
    let id = NetworkID::new(12);
    reg.apply_packet(&actor_new(id, 0x500));
    reg.apply_packet(&Packet::ActorStateDelta {
        id,
        idle: None,
        moving: None,
        moving_xy: None,
        weapon: Some(0x2A),
        alerted: None,
        sneaking: Some(true),
        firing: None,
    });
    match reg.get(id).unwrap() {
        ClientObject::Actor { weapon, sneaking, moving, alerted, .. } => {
            assert_eq!(*weapon, 0x2A);
            assert!(*sneaking);
            assert_eq!(*moving, 0, "untouched field kept");
            assert!(!*alerted, "untouched field kept");
        }
        _ => panic!("expected actor"),
    }
}

#[test]
fn test_ownership_sets_tracked() {
    let mut reg = ClientRegistry::new();
    let id = NetworkID::new(13);
    reg.apply_packet(&Packet::OwnershipGranted { id });
    assert!(reg.is_owned(id));
    reg.apply_packet(&Packet::OwnershipReleased { id });
    assert!(!reg.is_owned(id));
}

#[test]
fn test_actor_health_syncs_from_actor_value_events() {
    let mut reg = ClientRegistry::new();
    let id = NetworkID::new(11);
    reg.apply_packet(&actor_new(id, 0x100));
    assert!(matches!(reg.get(id), Some(ClientObject::Actor { health, .. }) if *health == 100.0f32.to_bits()));
    assert_eq!(FULL_HEALTH_BITS, 100.0f32.to_bits());
    reg.apply_packet(&Packet::UpdateActorValue { id, base: false, index: 0x14, value: 37.5f32.to_bits() });
    match reg.get(id).unwrap() {
        ClientObject::Actor { health, .. } => assert_eq!(f32::from_bits(*health), 37.5),
        _ => panic!("expected actor"),
    }
    reg.apply_packet(&Packet::UpdateActorValue { id, base: false, index: 0x29, value: 10.0f32.to_bits() });
    match reg.get(id).unwrap() {
        ClientObject::Actor { health, .. } => assert_eq!(f32::from_bits(*health), 37.5),
        _ => panic!("expected actor"),
    }
}

#[test]
fn actor_health_taken_from_values_map() {
    let mut reg = ClientRegistry::new();
    let id = NetworkID::new(21);
    let mut p = actor_new(id, 0x100);
    if let Packet::ActorNew { values, .. } = &mut p {
        values.push((0x14, 55.0f32.to_bits()));
    }
    reg.apply_packet(&p);
    match reg.get(id).unwrap() {
        ClientObject::Actor { health, .. } => assert_eq!(f32::from_bits(*health), 55.0),
        _ => panic!("expected actor"),
    }
    assert_eq!(reg.ref_of(id), Some(0x100));
    assert_eq!(reg.ref_of(NetworkID::new(999)), None);
    assert_eq!(reg.object_count(), 1);
    let all = reg.get_objects();
    assert_eq!(all.len(), 1);
    assert_eq!(all[0].0, id);
}

#[test]
fn test_game_time_stored_from_packet() {
    let mut g = game();
    dispatch(
        &mut g,
        &Packet::GameTime { year: 2277, month: 8, day: 17, hour: 9, time_scale: 30.0f32.to_bits() },
    );
    let t: GameClock = g.game_time.expect("clock stored");
    assert_eq!((t.year, t.month, t.day, t.hour), (2277, 8, 17, 9));
    assert_eq!(f32::from_bits(t.time_scale), 30.0);
}

#[test]
fn test_server_settings_stored() {
    let mut g = game();
    assert!(!g.pvp_enabled);
    dispatch(&mut g, &Packet::ServerSettings { pvp_enabled: true });
    assert!(g.pvp_enabled);
}

#[test]
fn game_end_disconnects_with_reason_line() {
    let mut g = game();
    g.state = ClientState::InGame;
    dispatch(&mut g, &Packet::GameEnd { reason: 4 });
    assert_eq!(g.state, ClientState::Disconnected);
    assert_eq!(g.chat_messages.last().unwrap(), &("System".to_string(), "Disconnected (reason: 4)".to_string()));
}

#[test]
fn chat_weather_karma_reputation_hardcore() {
    let mut g = game();
    dispatch(&mut g, &Packet::GameChat { message: "hi".to_string() });
    assert_eq!(g.chat_messages, vec![("Server".to_string(), "hi".to_string())]);
    dispatch(&mut g, &Packet::GameWeather { weather: 0x15E5E });
    assert_eq!(g.weather, 0x15E5E);
    dispatch(&mut g, &Packet::KarmaUpdate { value: -300 });
    assert_eq!(g.karma, -300);
    dispatch(&mut g, &Packet::ReputationUpdate { faction: 0x1234, value: 50 });
    dispatch(&mut g, &Packet::ReputationUpdate { faction: 0x1234, value: -100 });
    assert_eq!(g.reputation.get(&0x1234), Some(&-100));
    dispatch(&mut g, &Packet::HardcoreStats { hunger: 250.0f32.to_bits(), thirst: 300.0f32.to_bits(), sleep: 0 });
    assert_eq!(f32::from_bits(g.hardcore_thirst), 300.0);
}

#[test]
fn first_player_new_is_the_local_player() {
    let mut g = game();
    let p = |id: u64| Packet::PlayerNew { id: NetworkID::new(id), ref_id: 0x14, base_id: 7, controls: vec![], scale: 0 };
    dispatch(&mut g, &p(5));
    dispatch(&mut g, &p(6));
    assert_eq!(g.local_player_id, Some(NetworkID::new(5)));
}

#[test]
fn gui_packets_reach_the_gui() {
    let mut g = game();
    dispatch(&mut g, &Packet::UpdateWindowMode { enabled: true });
    assert!(g.gui.window_mode());
}

#[test]
fn test_ownership_grant_queues_track_command() {
    let mut g = game();
    g.local_player_id = Some(NetworkID::new(1));
    let npc_id = entity_id(0x1234);
    g.handle_packet(Packet::OwnershipGranted { id: npc_id });
    let has_track = g
        .pending_commands
        .iter()
        .any(|(op, params)| *op == OP_TRACK_ACTOR && matches!(params.first(), Some(Param::U32(0x1234))));
    assert!(has_track, "grant → bridge tracks the NPC");
    assert!(g.registry.is_owned(npc_id));
    g.handle_packet(Packet::OwnershipReleased { id: npc_id });
    let has_untrack = g
        .pending_commands
        .iter()
        .any(|(op, params)| *op == OP_UNTRACK_ACTOR && matches!(params.first(), Some(Param::U32(0x1234))));
    assert!(has_untrack, "release → bridge untracks");
    assert!(!g.registry.is_owned(npc_id));
}

#[test]
fn remote_moves_become_bridge_commands_once_local_player_known() {
    let mut g = game();
    let remote = NetworkID::new(40);
    g.handle_packet(actor_new(remote, 0x777));
    let pos = [1.0f32.to_bits(), 2.0f32.to_bits(), 3.0f32.to_bits()];
    g.handle_packet(Packet::UpdatePos { id: remote, pos });
    assert!(g.pending_commands.is_empty(), "no local player yet");
    g.local_player_id = Some(NetworkID::new(1));
    let upd = g.handle_packet(Packet::UpdatePos { id: remote, pos });
    assert_eq!(upd, InterpUpdate::Push(remote, pos));
    assert_eq!(
        g.pending_commands,
        vec![(OP_SET_POS, vec![Param::U32(0x777), Param::F32(pos[0]), Param::F32(pos[1]), Param::F32(pos[2])])]
    );
}

#[test]
fn chat_and_clicks_go_out_as_packets() {
    let mut g = game();
    let p = g.send_chat("hello".to_string());
    assert_eq!(p, Packet::GameChat { message: "hello".to_string() });
    assert_eq!(g.chat_messages, vec![("Wanderer".to_string(), "hello".to_string())]);
    g.gui.push_click(NetworkID::new(3));
    g.gui.push_click(NetworkID::new(4));
    let out = g.flush_gui_clicks();
    assert_eq!(
        out,
        vec![
            Packet::UpdateWindowClick { id: NetworkID::new(3) },
            Packet::UpdateWindowClick { id: NetworkID::new(4) }
        ]
    );
    assert!(g.flush_gui_clicks().is_empty());
    assert!(!g.owns(NetworkID::new(3)));
}
