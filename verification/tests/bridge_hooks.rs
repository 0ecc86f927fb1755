use ashfall::bridge::hooks::animation::{
    locomotion_name, ActorAnimController, AnimAction, AIM, AIM_DOWN, AIM_IS, AIM_IS_DOWN, AIM_IS_UP,
    AIM_UP, ATTACK_3, EQUIP, FAST_RIGHT, FORWARD, IDLE,
};
use ashfall::bridge::hooks::discovery::{npc_diff, LOCAL_PLAYER_REF};
use ashfall::bridge::hooks::memory::{
    write_rel_call, write_rel_jump, MemoryImage, MemoryProtect, Patch, PatchOp,
};
use ashfall::bridge::hooks::opcode::{
    allow_all, handler_count, has_handler, intercept, is_vaultfunction, opcode_index,
    register_defaults, register_handler, unregister_handler, vaultfunction_index, OpcodeAction,
    OpcodeHandler, OpcodeTable, OPCODE_TABLE_SIZE, PLACE_AT_ME, SET_STAGE,
};
use ashfall::bridge::hooks::{
    detect_engine, dump_image, get_ai_package, get_faction, get_reputation, has_console_command,
    hook_console_command, intercept_opcode, is_fnv, probe_saves, read_bytes,
    register_console_command, uninstall, unregister_console_command, ConsoleCommands, GameEngine,
    HookState,
};
use std::collections::HashSet;

// ── animation ──

#[test]
fn idle_to_forward_plays_group() {
    let mut c = ActorAnimController::new();
    let a = c.update(IDLE, 0, IDLE, false, false, false);
    assert!(a.play_group.is_empty(), "no-op on first idle sample");

    let a = c.update(FORWARD, 0, IDLE, false, false, false);
    assert_eq!(a.play_group, vec![(FORWARD, true)]);
    assert!(!a.set_pos);
}

#[test]
fn stopping_resyncs_position() {
    let mut c = ActorAnimController::new();
    c.update(FORWARD, 0, IDLE, false, false, false);
    let a = c.update(IDLE, 0, IDLE, false, false, false);
    assert_eq!(a.play_group, vec![(IDLE, true)]);
    assert!(a.set_pos, "idle after moving must re-sync position");
}

#[test]
fn weapon_draw_requires_alert() {
    let mut c = ActorAnimController::new();
    let a = c.update(IDLE, 0, AIM, false, false, false);
    assert!(a.play_group.is_empty(), "no weapon anim while unalerted");
    let a = c.update(IDLE, 0, AIM, true, false, false);
    assert!(a.play_group.is_empty());
    assert_eq!(a.set_alert, Some(true));
    let a = c.update(IDLE, 0, ATTACK_3, true, false, false);
    assert_eq!(a.play_group, vec![(ATTACK_3, true)]);
}

#[test]
fn firing_suppresses_weapon_anim() {
    let mut c = ActorAnimController::new();
    c.update(IDLE, 0, IDLE, true, false, false);
    let a = c.update(IDLE, 0, ATTACK_3, true, false, true);
    assert!(a.play_group.is_empty(), "firing suppresses weapon anim");
}

#[test]
fn aim_is_transition_emits_sequence() {
    let mut c = ActorAnimController::new();
    c.update(IDLE, 0, AIM_IS, true, false, false);
    let a = c.update(IDLE, 0, AIM, true, false, false);
    assert_eq!(a.play_group, vec![(AIM_DOWN, true), (AIM_UP, true), (AIM, true)]);
    let a = c.update(IDLE, 0, AIM_IS, true, false, false);
    assert_eq!(a.play_group, vec![(AIM_IS, true), (AIM_IS_DOWN, true), (AIM_IS_UP, true)]);
}

#[test]
fn equip_cycle_is_skipped() {
    let mut c = ActorAnimController::new();
    c.update(IDLE, 0, IDLE, true, false, false);
    let a = c.update(IDLE, 0, EQUIP, true, false, false);
    assert!(a.play_group.is_empty(), "equip/unequip/holster skipped");
}

#[test]
fn strafing_yaw_adjust() {
    let mut c = ActorAnimController::new();
    let a = c.update(FORWARD, 0x01, IDLE, false, false, false);
    assert_eq!(a.yaw_adjust, Some(-45));
    let a = c.update(FORWARD, 0x02, IDLE, false, false, false);
    assert_eq!(a.yaw_adjust, Some(45));
    let a = c.update(FORWARD, 0x00, IDLE, false, false, false);
    assert_eq!(a.yaw_adjust, Some(0));
}

#[test]
fn state_flags_emit() {
    let mut c = ActorAnimController::new();
    let a = c.update(IDLE, 0, IDLE, true, true, false);
    assert_eq!(a.set_alert, Some(true));
    assert_eq!(a.set_sneak, Some(true));
    let a = c.update(IDLE, 0, IDLE, true, true, false);
    assert_eq!(a, AnimAction::none());
}

#[test]
fn locomotion_names() {
    assert_eq!(locomotion_name(FORWARD), "Forward");
    assert_eq!(locomotion_name(FAST_RIGHT), "FastRight");
    assert_eq!(locomotion_name(IDLE), "Idle");
    assert_eq!(locomotion_name(0xFF), "Idle");
}

#[test]
fn reset_clears_history() {
    let mut c = ActorAnimController::new();
    c.update(FORWARD, 0, AIM, true, false, false);
    c.reset();
    let a = c.update(FORWARD, 0, AIM, true, false, false);
    assert!(!a.play_group.is_empty(), "reset should re-emit current state");
    let a = c.update(FORWARD, 0, AIM, true, false, false);
    assert_eq!(a, AnimAction::none());
}

// ── discovery ──

#[test]
fn test_first_observation_all_added() {
    let mut seen = HashSet::new();
    let (added, removed) = npc_diff(&mut seen, &[0x100, 0x101, 0x102]);
    assert_eq!(added, vec![0x100, 0x101, 0x102]);
    assert!(removed.is_empty());
    assert_eq!(seen.len(), 3);
}

#[test]
fn test_stable_set_no_events() {
    let mut seen = HashSet::new();
    npc_diff(&mut seen, &[0x100, 0x101]);
    let (added, removed) = npc_diff(&mut seen, &[0x100, 0x101]);
    assert!(added.is_empty());
    assert!(removed.is_empty());
}

#[test]
fn test_spawn_and_despawn() {
    let mut seen = HashSet::new();
    npc_diff(&mut seen, &[0x100, 0x101]);
    let (added, removed) = npc_diff(&mut seen, &[0x100, 0x200]);
    assert_eq!(added, vec![0x200]);
    assert_eq!(removed, vec![0x101]);
    assert_eq!(seen.len(), 2);
    let (added, _) = npc_diff(&mut seen, &[0x100, 0x200, 0x101]);
    assert_eq!(added, vec![0x101]);
}

#[test]
fn test_player_never_reported() {
    let mut seen = HashSet::new();
    let (added, _) = npc_diff(&mut seen, &[LOCAL_PLAYER_REF, 0x100]);
    assert_eq!(added, vec![0x100], "local player filtered out");
    assert!(!seen.contains(&LOCAL_PLAYER_REF));
}

// ── opcode interception ──

#[test]
fn test_register_and_intercept() {
    let mut table = OpcodeTable::new();
    register_handler(&mut table, 0x1007, OpcodeHandler::BlockAll);
    assert!(has_handler(&table, 0x1007));
    assert!(matches!(intercept(&table, 0x1007, &[]), OpcodeAction::Block));
    assert!(matches!(intercept(&table, 0x9999, &[]), OpcodeAction::Allow));
    unregister_handler(&mut table, 0x1007);
    assert!(!has_handler(&table, 0x1007));
}

#[test]
fn test_handler_count() {
    let mut table = OpcodeTable::new();
    let before = handler_count(&table);
    register_handler(&mut table, 0xAAAA, OpcodeHandler::BlockAll);
    assert_eq!(handler_count(&table), before + 1);
    unregister_handler(&mut table, 0xAAAA);
    assert_eq!(handler_count(&table), before);
}

#[test]
fn test_register_defaults() {
    let mut table = OpcodeTable::new();
    register_defaults(&mut table);
    assert!(handler_count(&table) >= 10);
}

#[test]
fn default_handlers_block_delegated_opcodes() {
    let mut table = OpcodeTable::new();
    register_defaults(&mut table);
    assert_eq!(handler_count(&table), 15);
    assert!(matches!(intercept(&table, PLACE_AT_ME, &[1, 2]), OpcodeAction::Block));
    assert!(matches!(intercept(&table, SET_STAGE, &[]), OpcodeAction::Block));
    assert!(matches!(intercept(&table, 0x1007, &[]), OpcodeAction::Allow));
}

#[test]
fn registering_twice_counts_once() {
    let mut table = OpcodeTable::new();
    register_handler(&mut table, 0x1001, OpcodeHandler::AllowAll);
    register_handler(&mut table, 0x1001, OpcodeHandler::BlockAll);
    assert_eq!(handler_count(&table), 1);
    // 0x3001 shares the slot of 0x1001 (low 13 bits).
    assert!(has_handler(&table, 0x3001));
    assert!(matches!(intercept(&table, 0x3001, &[]), OpcodeAction::Block));
}

#[test]
fn test_vaultfunction_mask() {
    assert!(is_vaultfunction(0xE001));
    assert!(is_vaultfunction(0xE036));
    assert!(!is_vaultfunction(0x1007));
    assert!(is_vaultfunction(0xFFFF));

    assert_eq!(vaultfunction_index(0xE001), 0x0001);
    assert_eq!(vaultfunction_index(0xE036), 0x0036);
    assert_eq!(vaultfunction_index(0xF0F1), 0x00F1);
}

#[test]
fn test_opcode_table_direct_index() {
    assert_eq!(OPCODE_TABLE_SIZE, 0x2000);
    assert!(opcode_index(0x1FFF) < OPCODE_TABLE_SIZE);
    assert!(opcode_index(0x2000) < OPCODE_TABLE_SIZE);
    assert!(opcode_index(0xFFFF) < OPCODE_TABLE_SIZE);
    assert_eq!(opcode_index(0x2001), 1);
}

#[test]
fn test_allow_all_handler() {
    let action = allow_all(0, &[]);
    assert!(matches!(action, OpcodeAction::Allow));
}

// ── memory ──

#[test]
fn test_memory_protect_noop() {
    let guard = MemoryProtect::new(0x0040_1000, 16);
    assert!(guard.is_some());
}

#[test]
fn test_write_rel_jump_offset() {
    let from = 0x0040_0000usize;
    let to = from + 0x1000;
    let op = write_rel_jump(from, to);
    assert_eq!(op.addr, from);
    assert_eq!(op.bytes[0], 0xE9);
    let off = i32::from_le_bytes([op.bytes[1], op.bytes[2], op.bytes[3], op.bytes[4]]);
    assert_eq!(off, (to as isize - from as isize - 5) as i32);
}

#[test]
fn test_write_rel_call_offset() {
    let from = 0x0040_0000usize;
    let to = from + 0x500;
    let op = write_rel_call(from, to);
    assert_eq!(op.bytes[0], 0xE8);
    let off = i32::from_le_bytes([op.bytes[1], op.bytes[2], op.bytes[3], op.bytes[4]]);
    assert_eq!(off, (to as isize - from as isize - 5) as i32);
}

#[test]
fn rel_jump_backwards_is_negative() {
    let op = write_rel_jump(0x0049_DD8E, 0x0049_DCF1);
    assert_eq!(op.bytes, vec![0xE9, 0x5E, 0xFF, 0xFF, 0xFF]);
}

#[test]
fn test_patch_apply_restore() {
    let mut image = MemoryImage::new(0x1000, vec![0xAA, 0xBB, 0xCC, 0xDD]);
    let patch = Patch::new(&image, 0x1000, &[0x11, 0x22, 0x33, 0x44]).expect("inside image");
    assert_eq!(image.read(0x1000, 4), Some(vec![0xAA, 0xBB, 0xCC, 0xDD]));
    assert!(image.write(&patch.apply()));
    assert_eq!(image.read(0x1000, 4), Some(vec![0x11, 0x22, 0x33, 0x44]));
    assert!(image.write(&patch.restore()));
    assert_eq!(image.read(0x1000, 4), Some(vec![0xAA, 0xBB, 0xCC, 0xDD]));
}

#[test]
fn patch_outside_image_is_refused() {
    let mut image = MemoryImage::new(0x1000, vec![0; 8]);
    assert!(Patch::new(&image, 0x1006, &[1, 2, 3]).is_none());
    assert!(Patch::new(&image, 0x0FFF, &[1]).is_none());
    let op = PatchOp { addr: 0x1007, bytes: vec![1, 2] };
    assert!(!image.write(&op));
    assert_eq!(image.read(0x1000, 8), Some(vec![0; 8]));
    assert_eq!(image.read(0x1004, 8), None);
}

#[test]
fn test_safe_write_buf() {
    let mut image = MemoryImage::new(0x2000, vec![0; 6]);
    ashfall::bridge::hooks::memory::safe_write_buf(&mut image, 0x2000, &[0x11, 0x22, 0x33, 0x44]);
    assert_eq!(image.read(0x2000, 4), Some(vec![0x11, 0x22, 0x33, 0x44]));
    assert_eq!(image.read(0x2004, 2), Some(vec![0, 0]));
}

// ── hook surface ──

#[test]
fn engine_is_never_detected() {
    assert_eq!(detect_engine(0x881F_DAF8), GameEngine::Unknown);
    assert!(!is_fnv());
    assert_eq!(get_reputation(0x1234), 0);
    assert_eq!(get_ai_package(0x14), (0, 0));
    assert!(get_faction(0x14).is_empty());
    assert!(intercept_opcode(0x1025, &[1, 2, 3]));
    assert!(probe_saves().is_empty());
}

#[test]
fn uninstall_clears_state() {
    let mut state = HookState { installed: true };
    uninstall(&mut state);
    assert!(!state.installed);
}

#[test]
fn console_command_registry() {
    let mut reg = ConsoleCommands::new();
    assert!(!has_console_command(&reg, "ashfall"));
    register_console_command(&mut reg, "ashfall");
    register_console_command(&mut reg, "ashfall");
    assert!(has_console_command(&reg, "ashfall"));
    assert!(hook_console_command(&reg, "ashfall"));
    assert!(!hook_console_command(&reg, "tgm"));
    unregister_console_command(&mut reg, "ashfall");
    assert!(!has_console_command(&reg, "ashfall"));
}

#[test]
fn read_bytes_probes_only_small_mapped_ranges() {
    let image = MemoryImage::new(0x0040_0000, (0u8..=255).collect());
    assert_eq!(read_bytes(&image, 0x0040_0010, 3), vec![0x10, 0x11, 0x12]);
    assert!(read_bytes(&image, 0x0040_0010, 0).is_empty());
    assert!(read_bytes(&image, 0x0040_0010, 65).is_empty());
    assert!(read_bytes(&image, 0, 4).is_empty());
    assert!(read_bytes(&image, 0x0040_00FE, 4).is_empty());
}

fn pe_image(size_of_image: u32, total: usize) -> MemoryImage {
    let mut bytes = vec![0u8; total];
    let e_lfanew = 0x80usize;
    bytes[0x3C..0x40].copy_from_slice(&(e_lfanew as u32).to_le_bytes());
    bytes[e_lfanew] = b'P';
    bytes[e_lfanew + 1] = b'E';
    bytes[e_lfanew + 0x50..e_lfanew + 0x54].copy_from_slice(&size_of_image.to_le_bytes());
    MemoryImage::new(0x0040_0000, bytes)
}

#[test]
fn dump_image_streams_whole_pe_image() {
    let image = pe_image(0x200, 0x300);
    let out = dump_image(&image);
    assert_eq!(out.len(), 5 + 0x200);
    assert_eq!(out[0], 0x04);
    assert_eq!(u32::from_le_bytes([out[1], out[2], out[3], out[4]]), 0x200);
    assert_eq!(out[5 + 0x80], b'P');
}

#[test]
fn dump_image_rejects_bad_headers() {
    let mut bytes = vec![0u8; 0x200];
    bytes[0x3C] = 0x80;
    let image = MemoryImage::new(0x0040_0000, bytes);
    assert_eq!(dump_image(&image), vec![0x05, 1, 0, 0, 0]);
    assert_eq!(dump_image(&pe_image(0, 0x300)), vec![0x05, 2, 0, 0, 0]);
    assert_eq!(dump_image(&pe_image(0x1000, 0x300)), vec![0x05, 2, 0, 0, 0]);
    let elsewhere = MemoryImage::new(0x0050_0000, vec![0u8; 0x300]);
    assert_eq!(dump_image(&elsewhere), vec![0x05, 1, 0, 0, 0]);
}
