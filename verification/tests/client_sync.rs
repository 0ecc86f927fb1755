use ashfall::client::ipc::{
    Param, OP_FIRE_WEAPON, OP_GET_ACTIVATE, OP_KILL, OP_SET_ACTOR_VALUE, OP_SET_ANGLE, OP_SET_LOCK,
    OP_SET_POS, OP_SET_SCALE,
};
use ashfall::client::sync::{entity_id, events_to_packets, packets_to_commands, ref_of_entity};
use ashfall::client::ui::GuiWidgetKind;
use ashfall::client::widgets::{GuiState, GuiWindow};
use ashfall::event::{
    encode_frame, encode_npc_remove_event, encode_npc_spawn_event, encode_npc_state_event,
    encode_player_state_event, encode_ref_event, split_frames, NpcRemoveEvent, NpcSpawnEvent,
    PlayerStateEvent, EVENT_ACTIVATE, EVENT_FIRE,
};
use ashfall::id::NetworkID;
use ashfall::protocol::{build_chat_packet, Packet};
use ashfall::channel::PacketKind;

fn b3(v: [f32; 3]) -> [u32; 3] {
    [v[0].to_bits(), v[1].to_bits(), v[2].to_bits()]
}

fn b4(v: [f32; 4]) -> [u32; 4] {
    [v[0].to_bits(), v[1].to_bits(), v[2].to_bits(), v[3].to_bits()]
}

#[test]
fn test_activate_event_to_packet() {
    let local = NetworkID::new(1);
    let frame = encode_ref_event(EVENT_ACTIVATE, 0x9999);
    let (frames, _) = split_frames(&frame);
    let packets = events_to_packets(&frames, local);
    assert!(packets.iter().any(|p| matches!(
        p, Packet::UpdateActivate { id, actor } if *id == entity_id(0x9999) && *actor == local
    )));
}

#[test]
fn test_fire_event_to_packet() {
    let local = NetworkID::new(1);
    let frame = encode_ref_event(EVENT_FIRE, 0x7777);
    let (frames, _) = split_frames(&frame);
    let packets = events_to_packets(&frames, local);
    assert!(packets.iter().any(|p| matches!(
        p, Packet::UpdateFireWeapon { id, weapon } if *id == local && *weapon == 0x7777
    )));
}

#[test]
fn test_npc_state_event_to_packets() {
    let local = NetworkID::new(1);
    let e = PlayerStateEvent {
        ref_id: 0x1234,
        pos: b3([1.0, 2.0, 3.0]),
        angle: b3([0.0, 0.0, 45.0]),
        idle: 0,
        moving: 1,
        moving_xy: 0,
        weapon: 0x2A,
        alerted: true,
        sneaking: false,
        health: 55.0f32.to_bits(),
    };
    let frame = encode_npc_state_event(&e);
    let (frames, _) = split_frames(&frame);
    let packets = events_to_packets(&frames, local);
    let expected_id = entity_id(0x1234);
    assert!(packets.iter().any(|p| matches!(p, Packet::UpdatePos { id, pos } if *id == expected_id && *pos == b3([1.0, 2.0, 3.0]))));
    assert!(packets.iter().any(|p| matches!(p, Packet::UpdateAngle { id, angle } if *id == expected_id && *angle == [0.0f32.to_bits(), 45.0f32.to_bits()])));
    assert!(packets.iter().any(|p| matches!(p, Packet::ActorStateDelta { id, weapon: Some(w), moving: Some(m), .. } if *id == expected_id && *w == 0x2A && *m == 1)));
    assert!(packets.iter().any(|p| matches!(p, Packet::UpdateActorValue { id, index: 0x14, value, .. } if *id == expected_id && *value == 55.0f32.to_bits())));
    assert!(packets.iter().all(|p| match p {
        Packet::UpdatePos { id, .. } | Packet::UpdateAngle { id, .. } | Packet::UpdateActorValue { id, .. } => *id != local,
        Packet::ActorStateDelta { id, .. } => *id != local,
        _ => true,
    }));
}

#[test]
fn test_remote_values_and_death_to_commands() {
    let local = NetworkID::new(1);
    let remote = NetworkID::new(9);
    let packets = vec![
        Packet::UpdateActorValue { id: remote, base: false, index: 0x14, value: 40.0f32.to_bits() },
        Packet::UpdateActorDead { id: remote, dead: true, limbs: 0, cause: 1 },
        Packet::UpdateActorValue { id: local, base: false, index: 0x14, value: 100.0f32.to_bits() },
    ];
    let resolve = |id: NetworkID| if id == remote { Some(0x50) } else { None };
    let cmds = packets_to_commands(&packets, local, resolve);
    assert_eq!(cmds.len(), 2, "remote value + death only");
    let (op0, p0) = &cmds[0];
    assert_eq!(*op0, OP_SET_ACTOR_VALUE);
    assert!(matches!(p0[0], Param::U32(0x50)));
    assert!(matches!(p0[1], Param::U8(0x14)), "index is a single byte");
    assert_eq!(p0[2], Param::F32(40.0f32.to_bits()));
    let (op1, _) = &cmds[1];
    assert_eq!(*op1, OP_KILL);
}

#[test]
fn test_remote_activate_fire_to_commands() {
    let local = NetworkID::new(1);
    let remote = NetworkID::new(9);
    let packets = vec![
        Packet::UpdateActivate { id: entity_id(0x60), actor: remote },
        Packet::UpdateFireWeapon { id: remote, weapon: 0x77 },
        Packet::UpdateActivate { id: entity_id(0x61), actor: local },
    ];
    let resolve = |id: NetworkID| {
        if id == remote {
            Some(0x50)
        } else if id == entity_id(0x60) {
            Some(0x60)
        } else {
            None
        }
    };
    let cmds = packets_to_commands(&packets, local, resolve);
    assert_eq!(cmds.len(), 2);
    let (op0, p0) = &cmds[0];
    assert_eq!(*op0, OP_GET_ACTIVATE);
    assert!(matches!(p0[0], Param::U32(0x60)));
    let (op1, p1) = &cmds[1];
    assert_eq!(*op1, OP_FIRE_WEAPON);
    assert!(matches!(p1[0], Param::U32(0x50)), "shooter is the remote actor");
    assert!(matches!(p1[1], Param::U32(0x77)), "weapon ref");
}

#[test]
fn test_remote_lock_to_command() {
    let local = NetworkID::new(1);
    let obj_id = entity_id(0x70);
    let packets = vec![Packet::UpdateLock { id: obj_id, lock: 1 }];
    let resolve = |id: NetworkID| if id == obj_id { Some(0x70) } else { None };
    let cmds = packets_to_commands(&packets, local, resolve);
    assert_eq!(cmds.len(), 1);
    let (op, p) = &cmds[0];
    assert_eq!(*op, OP_SET_LOCK);
    assert!(matches!(p[0], Param::U32(0x70)));
    assert!(matches!(p[1], Param::U32(1)));
}

#[test]
fn test_remote_scale_to_command() {
    let local = NetworkID::new(1);
    let obj_id = entity_id(0x80);
    let packets = vec![Packet::UpdateScale { id: obj_id, scale: 1.5f32.to_bits() }];
    let resolve = |id: NetworkID| if id == obj_id { Some(0x80) } else { None };
    let cmds = packets_to_commands(&packets, local, resolve);
    assert_eq!(cmds.len(), 1);
    let (op, p) = &cmds[0];
    assert_eq!(*op, OP_SET_SCALE);
    assert!(matches!(p[0], Param::U32(0x80)));
    assert_eq!(p[1], Param::F32(1.5f32.to_bits()));
}

#[test]
fn entity_id_ref_pairs() {
    assert_eq!(entity_id(0x1234).as_u64(), 0x8000_1234);
    assert_eq!(ref_of_entity(entity_id(0x1234)), Some(0x1234));
    assert_eq!(ref_of_entity(NetworkID::new(7)), None, "server ids have no ref");
}

#[test]
fn test_player_state_event_to_packets() {
    let local = NetworkID::new(1);
    let e = PlayerStateEvent {
        ref_id: 0x14,
        pos: b3([1.0, 2.0, 3.0]),
        angle: b3([0.0, 0.0, 90.0]),
        idle: 0,
        moving: 2,
        moving_xy: 1,
        weapon: 0x2A,
        alerted: true,
        sneaking: false,
        health: 77.0f32.to_bits(),
    };
    let frame = encode_player_state_event(&e);
    let (frames, _) = split_frames(&frame);
    let packets = events_to_packets(&frames, local);
    assert_eq!(packets.len(), 4);
    assert!(packets.iter().any(|p| matches!(p, Packet::UpdatePos { id, pos } if *id == local && *pos == b3([1.0, 2.0, 3.0]))));
    assert!(packets.iter().any(|p| matches!(p, Packet::UpdateAngle { id, angle } if *id == local && *angle == [0.0f32.to_bits(), 90.0f32.to_bits()])));
    assert!(packets.iter().any(|p| matches!(p, Packet::ActorStateDelta { id, weapon: Some(w), moving: Some(m), alerted: Some(a), .. } if *id == local && *w == 0x2A && *m == 2 && *a)));
    assert!(packets.iter().any(|p| matches!(p, Packet::UpdateActorValue { id, index: 0x14, value, .. } if *id == local && *value == 77.0f32.to_bits())));
}

#[test]
fn test_npc_spawn_event_to_packets() {
    let local = NetworkID::new(1);
    let e = NpcSpawnEvent { ref_id: 0x1234, base_id: 0x5678, pos: b3([5.0, 6.0, 7.0]), cell: 42 };
    let frame = encode_npc_spawn_event(&e);
    let (frames, _) = split_frames(&frame);
    let packets = events_to_packets(&frames, local);
    let expected_id = entity_id(0x1234);
    assert!(packets.iter().any(|p| matches!(p, Packet::ActorNew { id, ref_id, base_id, .. } if *id == expected_id && *ref_id == 0x1234 && *base_id == 0x5678)));
    assert!(packets.iter().any(|p| matches!(p, Packet::OwnershipClaim { id } if *id == expected_id)));
    assert!(packets.iter().any(|p| matches!(p, Packet::UpdatePos { id, pos } if *id == expected_id && *pos == b3([5.0, 6.0, 7.0]))));
}

#[test]
fn test_npc_remove_event_to_packets() {
    let local = NetworkID::new(1);
    let frame = encode_npc_remove_event(&NpcRemoveEvent { ref_id: 0x1234 });
    let (frames, _) = split_frames(&frame);
    let packets = events_to_packets(&frames, local);
    assert!(packets.iter().any(|p| matches!(p, Packet::ObjectRemove { id, .. } if *id == entity_id(0x1234))));
}

#[test]
fn non_event_frames_and_truncated_events_produce_nothing() {
    let local = NetworkID::new(1);
    let mut stream = encode_frame(0x02, &[1, 2, 3, 4, 5]);
    stream.extend_from_slice(&encode_frame(0x07, &[7, 0, 0, 0, 1, 2]));
    stream.extend_from_slice(&encode_frame(0x07, &[99, 0, 0, 0]));
    let (frames, _) = split_frames(&stream);
    assert_eq!(frames.len(), 3);
    assert!(events_to_packets(&frames, local).is_empty());
}

#[test]
fn test_remote_packets_to_commands() {
    let local = NetworkID::new(1);
    let remote = NetworkID::new(9);
    let packets = vec![
        Packet::UpdatePos { id: remote, pos: b3([10.0, 20.0, 30.0]) },
        Packet::UpdateAngle { id: remote, angle: [90.0f32.to_bits(), 45.0f32.to_bits()] },
        Packet::UpdatePos { id: local, pos: b3([0.0, 0.0, 0.0]) },
    ];
    let resolve = |id: NetworkID| -> Option<u32> { if id == remote { Some(0x50) } else { None } };
    let cmds = packets_to_commands(&packets, local, resolve);
    assert_eq!(cmds.len(), 2, "remote packets only");
    let (op0, params0) = &cmds[0];
    assert_eq!(*op0, OP_SET_POS);
    assert!(matches!(params0[0], Param::U32(0x50)));
    assert_eq!(params0[3], Param::F32(30.0f32.to_bits()));
    let (op1, params1) = &cmds[1];
    assert_eq!(*op1, OP_SET_ANGLE);
    assert_eq!(params1[2], Param::F32(0), "no rotation about y");
}

// ── server GUI ──

fn nid(n: u64) -> NetworkID {
    NetworkID::new(n)
}

#[test]
fn test_window_lifecycle() {
    let mut gui = GuiState::new();
    let id = nid(1);
    assert!(gui.apply_packet(&Packet::WindowNew {
        id,
        parent: nid(0),
        label: "Test".into(),
        pos: b4([10.0, 20.0, 0.0, 0.0]),
        size: b4([300.0, 200.0, 0.0, 0.0]),
        locked: true,
        visible: true,
        text: String::new(),
    }));
    let w = gui.get(id).expect("window created");
    assert_eq!(w.kind, GuiWidgetKind::Window);
    assert_eq!(w.label, "Test");
    assert!(w.locked);
    assert!(gui.apply_packet(&Packet::UpdateWindowPos { id, pos: b4([1.0, 2.0, 3.0, 4.0]) }));
    assert_eq!(gui.get(id).unwrap().pos, b4([1.0, 2.0, 3.0, 4.0]));
    assert!(gui.apply_packet(&Packet::UpdateWindowText { id, text: "hi".into() }));
    assert_eq!(gui.get(id).unwrap().text, "hi");
    assert!(gui.apply_packet(&Packet::UpdateWindowVisible { id, visible: false }));
    assert!(!gui.get(id).unwrap().visible);
    assert_eq!(gui.top_windows().len(), 1);
    assert!(gui.apply_packet(&Packet::WindowRemove { id }));
    assert!(gui.get(id).is_none(), "window removed");
}

#[test]
fn test_widget_creation_and_updates() {
    let mut gui = GuiState::new();
    let win = nid(100);
    let btn = nid(101);
    let edit = nid(102);
    let chk = nid(103);
    let list = nid(104);
    let item = nid(105);
    let zero = b4([0.0; 4]);
    assert!(gui.apply_packet(&Packet::WindowNew {
        id: win,
        parent: nid(0),
        label: "W".into(),
        pos: zero,
        size: zero,
        locked: false,
        visible: true,
        text: String::new(),
    }));
    assert!(gui.apply_packet(&Packet::ButtonNew {
        id: btn,
        parent: win,
        label: "Go".into(),
        pos: zero,
        size: zero,
        locked: false,
        visible: true,
        text: String::new(),
    }));
    assert!(gui.apply_packet(&Packet::EditNew {
        id: edit,
        parent: win,
        label: "Name".into(),
        pos: zero,
        size: zero,
        locked: false,
        visible: true,
        text: String::new(),
        max_len: 16,
        validation: "alpha".into(),
    }));
    assert!(gui.apply_packet(&Packet::CheckboxNew {
        id: chk,
        parent: win,
        label: "On".into(),
        pos: zero,
        size: zero,
        locked: false,
        visible: true,
        text: String::new(),
        selected: true,
    }));
    assert!(gui.apply_packet(&Packet::ListNew {
        id: list,
        parent: win,
        label: "L".into(),
        pos: zero,
        size: zero,
        locked: false,
        visible: true,
        text: String::new(),
        multiselect: true,
    }));
    assert!(gui.apply_packet(&Packet::ListItemNew { id: item, container: list, text: "entry".into(), selected: false }));

    assert_eq!(gui.get(btn).unwrap().kind, GuiWidgetKind::Button);
    assert_eq!(gui.get(edit).unwrap().max_len, 16);
    assert!(gui.get(chk).unwrap().selected);
    assert!(gui.get(list).unwrap().multiselect);
    assert!(gui.get(list).unwrap().items.contains(&item));
    assert_eq!(gui.children(win).len(), 4, "button/edit/checkbox/list are window children");
    assert!(!gui.children(list).is_empty(), "list item parented to the list");

    assert!(gui.apply_packet(&Packet::UpdateCheckboxSelected { id: chk, selected: false }));
    assert!(!gui.get(chk).unwrap().selected);
    assert!(gui.apply_packet(&Packet::UpdateListItemSelected { id: item, selected: true }));
    assert!(gui.get(item).unwrap().selected);
    assert!(gui.apply_packet(&Packet::UpdateListMultiSelect { id: list, multiselect: false }));
    assert!(!gui.get(list).unwrap().multiselect);
    assert!(gui.apply_packet(&Packet::UpdateEditMaxLen { id: edit, max_len: 32 }));
    assert_eq!(gui.get(edit).unwrap().max_len, 32);
}

#[test]
fn test_window_mode_packet() {
    let mut gui = GuiState::new();
    assert!(gui.apply_packet(&Packet::UpdateWindowMode { enabled: true }));
    assert!(gui.window_mode());
}

#[test]
fn test_unrelated_packets_not_handled() {
    let mut gui = GuiState::new();
    assert!(!gui.apply_packet(&build_chat_packet("x".into())));
    assert!(!gui.apply_packet(&Packet::Other(PacketKind::GameLoad)));
}

#[test]
fn updates_to_unknown_widgets_change_nothing() {
    let mut gui = GuiState::new();
    assert!(gui.apply_packet(&Packet::UpdateWindowLocked { id: nid(5), locked: true }));
    assert!(gui.get(nid(5)).is_none());
    assert!(gui.apply_packet(&Packet::ListItemNew { id: nid(6), container: nid(7), text: "x".into(), selected: false }));
    assert_eq!(gui.get(nid(6)).unwrap().kind, GuiWidgetKind::ListItem);
    assert_eq!(gui.get(nid(6)).unwrap().size, [200.0f32.to_bits(), 100.0f32.to_bits(), 0, 0]);
}

#[test]
fn widget_title_and_display_text() {
    let mut w = GuiWindow::new(NetworkID::new(5), None, String::new(), GuiWidgetKind::Window);
    assert_eq!(w.title(), "Window");
    w.label = "Trade".to_string();
    assert_eq!(w.title(), "Trade");
    assert_eq!(w.display_text(), "Trade");
    w.text = "Caps: 20".to_string();
    assert_eq!(w.display_text(), "Caps: 20");
    assert!(!GuiState::new().has_gui());
}
