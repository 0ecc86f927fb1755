use ashfall::client::chat::handle_incoming_chat;
use ashfall::client::config::{
    default_init_time, default_ipc_mode, default_ipc_port, default_master, default_name,
    default_server, default_server_port, ClientConfig,
};
use ashfall::client::game::ClientState;
use ashfall::client::ipc::{
    CommandResult, IpcMode, Param, OP_FIRE_WEAPON, OP_GET_ACTIVATE, OP_GET_ACTOR_STATE,
    OP_GET_ACTOR_VALUE, OP_GET_ANGLE, OP_GET_CELL, OP_GET_CONTROL, OP_GET_LOCK, OP_GET_NAME,
    OP_GET_POS, OP_KILL, OP_MOVE_TO, OP_PLAY_GROUP, OP_PLAY_SOUND, OP_SET_ACTOR_VALUE,
    OP_SET_ANGLE, OP_SET_CELL, OP_SET_CONTROL, OP_SET_ENABLED, OP_SET_LOCK, OP_SET_NAME,
    OP_SET_POS, OP_SET_SCALE, OP_TRACK_ACTOR, OP_UNTRACK_ACTOR,
};
use ashfall::client::sync::{entity_id, ref_of_entity};
use ashfall::client::ui::{ChatPanel, ChatSubmit, GuiWidgetKind};
use ashfall::client::world::CellTracker;
use ashfall::id::NetworkID;
use ashfall::master::{ServerEntry, ServerList};

#[test]
fn opcodes_are_distinct() {
    let ops = [
        OP_GET_POS, OP_SET_POS, OP_GET_ANGLE, OP_SET_ANGLE, OP_GET_CELL, OP_SET_CELL,
        OP_GET_ACTOR_STATE, OP_GET_ACTOR_VALUE, OP_SET_ACTOR_VALUE, OP_GET_CONTROL,
        OP_SET_CONTROL, OP_GET_ACTIVATE, OP_FIRE_WEAPON, OP_GET_NAME, OP_SET_NAME, OP_GET_LOCK,
        OP_SET_LOCK, OP_SET_ENABLED, OP_MOVE_TO, OP_PLAY_SOUND, OP_SET_SCALE, OP_PLAY_GROUP,
        OP_KILL, OP_TRACK_ACTOR, OP_UNTRACK_ACTOR,
    ];
    let mut sorted = ops.to_vec();
    sorted.sort_unstable();
    sorted.dedup();
    assert_eq!(sorted.len(), ops.len(), "opcodes must be unique");
}

#[test]
fn param_encode_wire_layout() {
    let mut buf = Vec::new();
    Param::U32(0x01020304).encode_into(&mut buf);
    assert_eq!(buf, [0x04, 0x03, 0x02, 0x01]);
    buf.clear();
    Param::F32(1.0f32.to_bits()).encode_into(&mut buf);
    assert_eq!(buf, 1.0f32.to_le_bytes());
    buf.clear();
    Param::U8(0x14).encode_into(&mut buf);
    assert_eq!(buf, [0x14]);
    buf.clear();
    Param::Bool(true).encode_into(&mut buf);
    assert_eq!(buf, [1]);
    buf.clear();
    Param::Str("hi".into()).encode_into(&mut buf);
    assert_eq!(buf, [2, b'h', b'i']);
    buf.clear();
    Param::I32(-2).encode_into(&mut buf);
    assert_eq!(buf, [0xFE, 0xFF, 0xFF, 0xFF]);
    buf.clear();
    Param::Str("é".into()).encode_into(&mut buf);
    assert_eq!(buf, [2, 0xC3, 0xA9]);
}

#[test]
fn result_decode_empty_is_success() {
    assert!(matches!(CommandResult::decode(&[]), CommandResult::Success));
    assert!(matches!(CommandResult::decode(&[1]), CommandResult::Success));
    assert!(matches!(CommandResult::decode(&[0; 11]), CommandResult::Success));
}

#[test]
fn result_decode_12_bytes_heuristic_floats() {
    let mut buf = Vec::new();
    for f in [1.5f32, -2.0f32, 3.25f32] {
        buf.extend_from_slice(&f.to_le_bytes());
    }
    match CommandResult::decode(&buf) {
        CommandResult::Floats(floats) => {
            assert_eq!(floats.len(), 3);
            assert!((f32::from_bits(floats[0]) - 1.5).abs() < 1e-6);
            assert!((f32::from_bits(floats[1]) + 2.0).abs() < 1e-6);
            assert!((f32::from_bits(floats[2]) - 3.25).abs() < 1e-6);
        }
        other => panic!("expected floats, got {other:?}"),
    }
    buf.extend_from_slice(&9.0f32.to_le_bytes());
    match CommandResult::decode(&buf) {
        CommandResult::Floats(floats) => assert_eq!(floats.len(), 3),
        other => panic!("expected floats, got {other:?}"),
    }
}

#[test]
fn ipc_mode_defaults_to_proton() {
    assert_eq!(IpcMode::default(), IpcMode::Proton { port: 1771 });
}

#[test]
fn test_entity_id_ref_roundtrip() {
    for r in [0u32, 1, 0x14, 0x00AB_CDEF, 0x7FFF_FFFF] {
        let id = entity_id(r);
        assert_eq!(ref_of_entity(id), Some(r));
    }
    assert_eq!(ref_of_entity(NetworkID::new(1)), None);
    assert_eq!(ref_of_entity(NetworkID::new(0x7FFF_FFFF)), None);
}

#[test]
fn entity_ids_carry_the_marker_bit() {
    assert_eq!(entity_id(0x14).as_u64(), 0x8000_0014);
    assert_eq!(ref_of_entity(NetworkID::new(0x1_8000_0005)), Some(5));
}

#[test]
fn config_defaults() {
    let c = ClientConfig::default();
    assert_eq!(c.name, "Wanderer");
    assert_eq!(c.master, "127.0.0.1:1660");
    assert_eq!(c.server_addr, "127.0.0.1");
    assert_eq!(c.server_port, 1770);
    assert_eq!(c.init_time, 9000);
    assert_eq!(c.ipc_mode, "stub");
    assert_eq!(c.ipc_port, 1771);
    assert_eq!(c.name, default_name());
    assert_eq!(c.master, default_master());
    assert_eq!(c.server_addr, default_server());
    assert_eq!(c.server_port, default_server_port());
    assert_eq!(c.init_time, default_init_time());
    assert_eq!(c.ipc_mode, default_ipc_mode());
    assert_eq!(c.ipc_port, default_ipc_port());
    assert!(c.mods.is_empty());
}

#[test]
fn chat_and_ui_state() {
    assert_eq!(handle_incoming_chat("hello there"), "hello there");
    assert!(ChatPanel::new().input.is_empty());
    assert_ne!(GuiWidgetKind::Window, GuiWidgetKind::ListItem);
    assert_ne!(ClientState::Disconnected, ClientState::InGame);
}

#[test]
fn cell_tracker_takes_centre_cell() {
    let mut t = CellTracker::new();
    assert_eq!(t.current_cell, 0);
    assert_eq!(t.context, [0; 9]);
    let cells = [1, 2, 3, 4, 5, 6, 7, 8, 9];
    t.update(cells);
    assert_eq!(t.current_cell, 5);
    assert_eq!(t.context, cells);
    assert_eq!(CellTracker::default().current_cell, 0);
}

fn addr(n: u8) -> (u128, u16) {
    (0xFFFF_7F00_0000u128 | n as u128, 1770)
}

#[test]
fn upsert_replaces_and_lists() {
    let mut list = ServerList::new();
    list.upsert(addr(1), "alpha".into(), "map".into(), 1, 4, "fo3".into(), vec![], 0);
    list.upsert(addr(2), "beta".into(), "map".into(), 2, 4, "fo3".into(), vec![], 0);
    assert_eq!(list.all().len(), 2);
    list.upsert(addr(1), "alpha2".into(), "map".into(), 3, 4, "fo3".into(), vec![], 10);
    assert_eq!(list.all().len(), 2);
    assert!(list.all().iter().any(|e| e.players == 3));
}

#[test]
fn remove_drops_entry() {
    let mut list = ServerList::new();
    list.upsert(addr(1), "alpha".into(), "map".into(), 1, 4, "fo3".into(), vec![], 0);
    list.remove(addr(1));
    assert!(list.all().is_empty());
    list.remove(addr(1));
    assert!(list.all().is_empty());
}

#[test]
fn cull_stale_keeps_fresh_drops_old() {
    let mut list = ServerList::new();
    let now = 1_000_000u64;
    list.upsert(addr(1), "fresh".into(), "m".into(), 1, 4, "fo3".into(), vec![], now - 1_000);
    list.upsert(addr(2), "stale".into(), "m".into(), 1, 4, "fo3".into(), vec![], now - 200_000);
    list.cull_stale(now);
    let all = list.all();
    assert_eq!(all.len(), 1);
    assert_eq!(all[0].name, "fresh");
}

#[test]
fn cull_stale_boundary_is_120_seconds() {
    let mut list = ServerList::new();
    list.upsert(addr(1), "edge".into(), "m".into(), 0, 4, "fo3".into(), vec![], 0);
    list.upsert(addr(2), "just".into(), "m".into(), 0, 4, "fo3".into(), vec![], 1);
    list.upsert(addr(3), "ahead".into(), "m".into(), 0, 4, "fo3".into(), vec![], 500_000);
    list.cull_stale(120_000);
    let names: Vec<&str> = list.all().iter().map(|e| e.name.as_str()).collect();
    assert_eq!(names, vec!["just", "ahead"]);
    let _unused: Option<ServerEntry> = None;
}

#[test]
fn chat_panel_submits_trimmed_lines() {
    let mut panel = ChatPanel::new();
    let mut chat: Vec<(String, String)> = Vec::new();
    panel.input = "  hello wasteland \t".to_string();
    assert!(panel.submit(&mut chat, "Wanderer", ChatSubmit::Enter));
    assert_eq!(chat, vec![("Wanderer".to_string(), "hello wasteland".to_string())]);
    assert!(panel.input.is_empty());

    panel.input = "   ".to_string();
    assert!(!panel.submit(&mut chat, "Wanderer", ChatSubmit::SendButton));
    assert_eq!(panel.input, "   ", "Send keeps a blank line");
    assert!(!panel.submit(&mut chat, "Wanderer", ChatSubmit::Enter));
    assert!(panel.input.is_empty(), "Enter clears it");
    assert_eq!(chat.len(), 1);

    panel.input = "bye".to_string();
    assert!(panel.submit(&mut chat, "Lone", ChatSubmit::SendButton));
    assert_eq!(chat[1], ("Lone".to_string(), "bye".to_string()));
    assert!(panel.input.is_empty());
}
