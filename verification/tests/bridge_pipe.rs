use ashfall::bridge::commands::{
    execute, OP_FIRE_WEAPON, OP_GET_ACTIVATE, OP_GET_ACTOR_STATE, OP_GET_ACTOR_VALUE,
    OP_GET_ANGLE, OP_GET_CELL, OP_GET_CONTROL, OP_GET_ENABLED, OP_GET_NAME, OP_GET_POS,
    OP_REPORT_PLAYER_STATE, OP_SET_ACTOR_VALUE, OP_SET_ANGLE, OP_SET_CELL, OP_SET_CONTROL,
    OP_SET_ENABLED, OP_SET_NAME, OP_SET_POS, OP_TRACK_ACTOR, OP_UNTRACK_ACTOR,
};
use ashfall::bridge::console::{
    register_command, register_defaults, try_handle, ConsoleHandler, ConsoleRegistry,
};
use ashfall::bridge::network::{
    decode_pipe_return, dispatch, drain_engine_calls, encode_pipe_command, encode_pipe_return,
    enqueue_engine_call, report_player_state, report_player_state_due, reset_tracked,
    observe, sample, sample_tracked, serve_buffer, take_event_frames, track_actor, tracked_actors, untrack_actor,
    Bridge, LOCAL_PLAYER_REF, PIPE_ERROR_CLOSE, PIPE_OP_COMMAND, PIPE_OP_EVENT, PIPE_OP_RETURN,
    PIPE_OP_RETURN_BIG, PIPE_OP_RETURN_RAW, PIPE_SYS_WAKEUP,
};
use ashfall::event::{
    decode_event, decode_player_state, encode_frame, encode_npc_state_event,
    encode_player_state_event, split_frames, PipeFrame, PlayerStateEvent, EVENT_NPC_STATE,
    EVENT_PLAYER_STATE,
};

fn state(ref_id: u32, x: f32, health: f32) -> PlayerStateEvent {
    PlayerStateEvent {
        ref_id,
        pos: [x.to_bits(), 2.0f32.to_bits(), 3.0f32.to_bits()],
        angle: [0, 0, 90.0f32.to_bits()],
        idle: 7,
        moving: 1,
        moving_xy: 2,
        weapon: 3,
        alerted: true,
        sneaking: false,
        health: health.to_bits(),
    }
}

const ALL_OPCODES: [u32; 17] = [
    OP_GET_POS,
    OP_SET_POS,
    OP_GET_ANGLE,
    OP_SET_ANGLE,
    OP_GET_CELL,
    OP_SET_CELL,
    OP_GET_ACTOR_STATE,
    OP_GET_ACTOR_VALUE,
    OP_SET_ACTOR_VALUE,
    OP_GET_CONTROL,
    OP_SET_CONTROL,
    OP_GET_ACTIVATE,
    OP_FIRE_WEAPON,
    OP_GET_NAME,
    OP_SET_NAME,
    OP_GET_ENABLED,
    OP_SET_ENABLED,
];

// ── command dispatch ──

#[test]
fn test_all_17_opcodes_defined() {
    for i in 0..ALL_OPCODES.len() {
        for j in i + 1..ALL_OPCODES.len() {
            assert_ne!(ALL_OPCODES[i], ALL_OPCODES[j]);
        }
    }
    assert_eq!(OP_GET_POS, 0x0001);
    assert_eq!(OP_SET_NAME, 0x000F);
    assert_eq!(OP_GET_ENABLED, 0x0010);
    assert_eq!(OP_SET_ENABLED, 0x0011);
}

#[test]
fn test_all_17_opcodes_dont_panic() {
    let mut bridge = Bridge::new();
    let params_4b = 1u32.to_le_bytes();
    let params_16b = [0u8; 16];
    for opcode in &ALL_OPCODES {
        let result = execute(&mut bridge, *opcode, &params_4b);
        drop(result);
        let result = execute(&mut bridge, *opcode, &params_16b);
        drop(result);
    }
}

#[test]
fn test_opcode_params_set_pos() {
    let mut bridge = Bridge::new();
    let mut params = vec![0u8; 16];
    params[0..4].copy_from_slice(&42u32.to_le_bytes());
    params[4..8].copy_from_slice(&1.0f32.to_le_bytes());
    params[8..12].copy_from_slice(&2.0f32.to_le_bytes());
    params[12..16].copy_from_slice(&3.0f32.to_le_bytes());
    let result = execute(&mut bridge, OP_SET_POS, &params);
    assert_eq!(result, vec![1]);
}

#[test]
fn test_opcode_params_get_pos() {
    let mut bridge = Bridge::new();
    let params = 1u32.to_le_bytes();
    let result = execute(&mut bridge, OP_GET_POS, &params);
    assert_eq!(result.len(), 12);
    let x = f32::from_le_bytes([result[0], result[1], result[2], result[3]]);
    let y = f32::from_le_bytes([result[4], result[5], result[6], result[7]]);
    let z = f32::from_le_bytes([result[8], result[9], result[10], result[11]]);
    assert_eq!(x, 0.0);
    assert_eq!(y, 0.0);
    assert_eq!(z, 0.0);
}

#[test]
fn test_short_params_rejected() {
    let mut bridge = Bridge::new();
    assert!(execute(&mut bridge, OP_GET_POS, &[0x00, 0x00]).is_empty());
    assert!(execute(&mut bridge, OP_SET_POS, &[0x00, 0x00]).is_empty());
    assert!(execute(&mut bridge, OP_GET_ANGLE, &[0x00, 0x00]).is_empty());
}

#[test]
fn test_unknown_opcode() {
    let mut bridge = Bridge::new();
    assert!(execute(&mut bridge, 0xDEAD, &[]).is_empty());
}

#[test]
fn test_opcode_bounds() {
    for op in &ALL_OPCODES {
        assert!(*op >= 0x0001 && *op <= 0x0017);
    }
}

#[test]
fn set_angle_needs_sixteen_bytes() {
    let mut bridge = Bridge::new();
    assert!(execute(&mut bridge, OP_SET_ANGLE, &[0u8; 15]).is_empty());
    assert_eq!(execute(&mut bridge, OP_SET_ANGLE, &[0u8; 16]), vec![1]);
    assert_eq!(execute(&mut bridge, OP_GET_ANGLE, &7u32.to_le_bytes()), vec![0u8; 12]);
}

// ── pipe frames ──

#[test]
fn pipe_command_roundtrip() {
    let frame = encode_pipe_command(0x42, OP_GET_POS, &[0xAA; 8]);
    let (mut frames, _) = split_frames(&frame);
    assert_eq!(frames.len(), 1);
    let f = frames.remove(0);
    assert_eq!(f.opcode, PIPE_OP_COMMAND);
    assert_eq!(f.payload[0..4], 0x42u32.to_le_bytes());
    assert_eq!(f.payload[4..8], OP_GET_POS.to_le_bytes());
    assert_eq!(f.payload[8], 8);
    assert_eq!(&f.payload[9..], &[0xAA; 8]);
}

#[test]
fn pipe_return_roundtrip() {
    let result = vec![1, 2, 3, 4];
    let frame = encode_pipe_return(0x7F, &result);
    let decoded = decode_pipe_return(&frame).expect("decodable");
    assert_eq!(decoded.0, PIPE_OP_RETURN);
    assert_eq!(decoded.1, 0x7F);
    assert_eq!(decoded.2, result);
}

#[test]
fn decode_rejects_wrong_opcode_or_short() {
    let bad = encode_frame(PIPE_OP_EVENT, &[0; 4]);
    assert!(decode_pipe_return(&bad).is_none());
    assert!(decode_pipe_return(&[]).is_none());
}

#[test]
fn decode_rejects_return_without_key() {
    let short = encode_frame(PIPE_OP_RETURN, &[1, 2, 3]);
    assert!(decode_pipe_return(&short).is_none());
}

#[test]
fn test_pipe_wakeup() {
    assert_eq!(PIPE_SYS_WAKEUP, 0x01);
    assert_ne!(PIPE_SYS_WAKEUP, PIPE_ERROR_CLOSE);
}

#[test]
fn test_pipe_error_close() {
    assert_eq!(PIPE_ERROR_CLOSE, 0x06);
    assert_ne!(PIPE_ERROR_CLOSE, PIPE_OP_RETURN);
}

#[test]
fn test_pipe_command_roundtrip() {
    let key = 1u32;
    let func = 0x0001u32;
    let params = 0x42u32.to_le_bytes().to_vec();
    let cmd = encode_pipe_command(key, func, &params);
    assert_eq!(cmd[2], PIPE_OP_COMMAND);
    let (frames, rest) = split_frames(&cmd);
    assert!(rest.is_empty(), "one complete frame");
    assert_eq!(frames.len(), 1);
    let payload = &frames[0].payload;
    assert_eq!(u32::from_le_bytes([payload[0], payload[1], payload[2], payload[3]]), key);
    assert_eq!(u32::from_le_bytes([payload[4], payload[5], payload[6], payload[7]]), func);
    assert_eq!(payload[8], 4);
    assert_eq!(&payload[9..13], &0x42u32.to_le_bytes());

    let result = vec![0u8; 12];
    let response = encode_pipe_return(key, &result);
    let (frames, _) = split_frames(&response);
    assert_eq!(frames[0].opcode, PIPE_OP_RETURN);
    assert_eq!(response.len(), 2 + 1 + 4 + 12);
}

#[test]
fn test_pipe_return_encoding() {
    let key = 42u32;
    let result = vec![1, 2, 3, 4];
    let encoded = encode_pipe_return(key, &result);
    let decoded = decode_pipe_return(&encoded);
    assert!(decoded.is_some());
    let (opcode, decoded_key, decoded_result) = decoded.unwrap();
    assert_eq!(opcode, PIPE_OP_RETURN);
    assert_eq!(decoded_key, key);
    assert_eq!(decoded_result, result);
}

#[test]
fn test_pipe_return_decode_short() {
    assert!(decode_pipe_return(&[0x03, 0x01, 0x00]).is_none());
}

#[test]
fn test_pipe_return_decode_empty_result() {
    let key = 99u32;
    let encoded = encode_pipe_return(key, &[]);
    let decoded = decode_pipe_return(&encoded);
    assert!(decoded.is_some());
    let (opcode, decoded_key, decoded_result) = decoded.unwrap();
    assert_eq!(opcode, PIPE_OP_RETURN);
    assert_eq!(decoded_key, key);
    assert!(decoded_result.is_empty());
}

#[test]
fn test_pipe_command_all_opcodes() {
    let ops = [
        PIPE_SYS_WAKEUP,
        PIPE_OP_COMMAND,
        PIPE_OP_RETURN,
        PIPE_OP_RETURN_BIG,
        PIPE_OP_RETURN_RAW,
        PIPE_ERROR_CLOSE,
        PIPE_OP_EVENT,
    ];
    for i in 0..ops.len() {
        for j in i + 1..ops.len() {
            assert_ne!(ops[i], ops[j], "opcodes at {i} and {j} must differ");
        }
    }
}

#[test]
fn test_pipe_command_e2e_get_pos() {
    let mut bridge = Bridge::new();
    let key = 5u32;
    let func = 0x0001u32;
    let params = 1u32.to_le_bytes().to_vec();
    let cmd = encode_pipe_command(key, func, &params);
    let (frames, _) = split_frames(&cmd);
    let payload = &frames[0].payload;
    let parsed_key = u32::from_le_bytes([payload[0], payload[1], payload[2], payload[3]]);
    assert_eq!(parsed_key, key);
    let parsed_func = u32::from_le_bytes([payload[4], payload[5], payload[6], payload[7]]);
    assert_eq!(parsed_func, func);
    let param_count = payload[8] as usize;
    assert_eq!(param_count, 4);
    let parsed_params = &payload[9..];
    assert_eq!(parsed_params, &1u32.to_le_bytes());

    let result = execute(&mut bridge, parsed_func, parsed_params);
    assert_eq!(result.len(), 12);

    let response = encode_pipe_return(key, &result);
    let decoded = decode_pipe_return(&response);
    assert!(decoded.is_some());
    let (op, dk, dr) = decoded.unwrap();
    assert_eq!(op, PIPE_OP_RETURN);
    assert_eq!(dk, key);
    assert_eq!(dr, result);
}

// ── bridge state ──

#[test]
fn test_report_player_state_emits_event_frame() {
    let mut bridge = Bridge::new();
    let frame = report_player_state(&mut bridge);
    assert_eq!(frame[2], PIPE_OP_EVENT);
    let (frames, _) = split_frames(&frame);
    assert_eq!(frames.len(), 1);
    let (event_type, data) = decode_event(&frames[0].payload).expect("event header");
    assert_eq!(event_type, EVENT_PLAYER_STATE);
    let e = decode_player_state(data).expect("player state");
    assert_eq!(e.ref_id, LOCAL_PLAYER_REF);
    assert_eq!(e.pos, [0.0f32.to_bits(); 3], "an unobserved player reads as the origin");
    assert_eq!(take_event_frames(&mut bridge), vec![frame]);
}

#[test]
fn test_command_queues_duplicate_event() {
    let mut bridge = Bridge::new();
    let result = execute(&mut bridge, OP_REPORT_PLAYER_STATE, &[]);
    assert_eq!(result[2], PIPE_OP_EVENT, "response is the event frame");
    assert_eq!(take_event_frames(&mut bridge), vec![result]);
}

#[test]
fn tracked_actor_set_add_remove_snapshot() {
    let mut bridge = Bridge::new();
    reset_tracked(&mut bridge);
    track_actor(&mut bridge, 0x100);
    track_actor(&mut bridge, 0x200);
    track_actor(&mut bridge, 0x100);
    assert_eq!(tracked_actors(&bridge), vec![0x100, 0x200]);
    untrack_actor(&mut bridge, 0x100);
    assert_eq!(tracked_actors(&bridge), vec![0x200]);
    reset_tracked(&mut bridge);
    assert!(tracked_actors(&bridge).is_empty());
}

#[test]
fn player_state_due_throttles_to_10hz() {
    let mut bridge = Bridge::new();
    assert!(report_player_state_due(&mut bridge, 1_000).is_some());
    assert!(report_player_state_due(&mut bridge, 1_000).is_none());
}

#[test]
fn reporter_samples_again_after_interval() {
    let mut bridge = Bridge::new();
    assert!(report_player_state_due(&mut bridge, 5_000).is_some());
    assert!(report_player_state_due(&mut bridge, 5_099).is_none());
    assert!(report_player_state_due(&mut bridge, 5_100).is_some());
    assert!(report_player_state_due(&mut bridge, 4_000).is_none());
    assert_eq!(take_event_frames(&mut bridge).len(), 2);
}

#[test]
fn test_track_and_sample_npc_state() {
    let mut bridge = Bridge::new();
    let _ = take_event_frames(&mut bridge);
    reset_tracked(&mut bridge);
    assert!(tracked_actors(&bridge).is_empty());

    track_actor(&mut bridge, 0x1234);
    track_actor(&mut bridge, 0x1234);
    track_actor(&mut bridge, 0x5678);
    let owned = tracked_actors(&bridge);
    assert_eq!(owned.len(), 2);
    assert!(owned.contains(&0x1234) && owned.contains(&0x5678));

    sample_tracked(&mut bridge);
    let frames = take_event_frames(&mut bridge);
    assert_eq!(frames.len(), 2, "one frame per owned actor");
    for frame in &frames {
        let (fs, _) = split_frames(frame);
        let (event_type, data) = decode_event(&fs[0].payload).expect("event");
        assert_eq!(event_type, EVENT_NPC_STATE);
        let e = decode_player_state(data).expect("state");
        assert!(owned.contains(&e.ref_id));
    }

    untrack_actor(&mut bridge, 0x1234);
    untrack_actor(&mut bridge, 0x5678);
    sample_tracked(&mut bridge);
    assert!(take_event_frames(&mut bridge).is_empty());
    reset_tracked(&mut bridge);
}

#[test]
fn test_track_untrack_commands() {
    let mut bridge = Bridge::new();
    let result = execute(&mut bridge, OP_TRACK_ACTOR, &0x1234u32.to_le_bytes());
    assert_eq!(result, vec![1], "track acknowledged");
    assert!(tracked_actors(&bridge).contains(&0x1234));
    let result = execute(&mut bridge, OP_UNTRACK_ACTOR, &0x1234u32.to_le_bytes());
    assert_eq!(result, vec![1]);
    assert!(tracked_actors(&bridge).is_empty());
    assert!(execute(&mut bridge, OP_TRACK_ACTOR, &[1, 2]).is_empty());
}

#[test]
fn engine_calls_run_in_order_on_drain() {
    let mut bridge = Bridge::new();
    enqueue_engine_call(&mut bridge, OP_TRACK_ACTOR, 0x10u32.to_le_bytes().to_vec());
    enqueue_engine_call(&mut bridge, OP_GET_POS, 0x10u32.to_le_bytes().to_vec());
    enqueue_engine_call(&mut bridge, OP_UNTRACK_ACTOR, 0x99u32.to_le_bytes().to_vec());
    assert!(tracked_actors(&bridge).is_empty(), "nothing runs before the drain");
    let results = drain_engine_calls(&mut bridge);
    assert_eq!(results, vec![vec![1], vec![0u8; 12], vec![1]]);
    assert_eq!(tracked_actors(&bridge), vec![0x10]);
    assert!(drain_engine_calls(&mut bridge).is_empty());
}

#[test]
fn dispatch_answers_each_opcode() {
    let mut bridge = Bridge::new();
    let wake = dispatch(&mut bridge, &PipeFrame { opcode: PIPE_SYS_WAKEUP, payload: vec![] });
    assert_eq!(wake, encode_frame(PIPE_SYS_WAKEUP, &[]));
    let short = dispatch(&mut bridge, &PipeFrame { opcode: PIPE_OP_COMMAND, payload: vec![0; 8] });
    assert_eq!(short, encode_frame(PIPE_ERROR_CLOSE, &[]));
    let unknown = dispatch(&mut bridge, &PipeFrame { opcode: 0x42, payload: vec![] });
    assert_eq!(unknown, encode_frame(PIPE_ERROR_CLOSE, &[]));
    let cmd = encode_pipe_command(9, OP_GET_POS, &3u32.to_le_bytes());
    let (frames, _) = split_frames(&cmd);
    let reply = dispatch(&mut bridge, &frames[0]);
    assert_eq!(reply, encode_pipe_return(9, &[0u8; 12]));
}

#[test]
fn serve_buffer_answers_frames_then_flushes_events() {
    let mut bridge = Bridge::new();
    let mut input = encode_pipe_command(1, OP_REPORT_PLAYER_STATE, &[]);
    input.extend_from_slice(&encode_frame(PIPE_SYS_WAKEUP, &[]));
    let partial = encode_pipe_command(2, OP_GET_POS, &1u32.to_le_bytes());
    input.extend_from_slice(&partial[..5]);

    let (out, rest) = serve_buffer(&mut bridge, &input);
    assert_eq!(rest, partial[..5].to_vec());
    let (frames, tail) = split_frames(&out);
    assert!(tail.is_empty());
    assert_eq!(frames.len(), 3);
    assert_eq!(frames[0].opcode, PIPE_OP_RETURN);
    assert_eq!(frames[1].opcode, PIPE_SYS_WAKEUP);
    assert_eq!(frames[2].opcode, PIPE_OP_EVENT);
    assert!(take_event_frames(&mut bridge).is_empty());
}

// ── console ──

#[test]
fn console_defaults_pass_lines_on() {
    let mut reg = ConsoleRegistry::new();
    register_defaults(&mut reg);
    assert!(!try_handle(&reg, "kick player1"));
    assert!(!try_handle(&reg, "   "));
    assert!(!try_handle(&reg, ""));
}

#[test]
fn console_consuming_handler_matches_lowercased_first_word() {
    let mut reg = ConsoleRegistry::new();
    register_command(&mut reg, "ashfall_status", ConsoleHandler::Consume);
    assert!(try_handle(&reg, "  ASHFALL_Status  now"));
    assert!(try_handle(&reg, "ashfall_status"));
    assert!(!try_handle(&reg, "ashfall_statusx"));
    register_command(&mut reg, "ashfall_status", ConsoleHandler::Pass);
    assert!(!try_handle(&reg, "ashfall_status"));
}

#[test]
fn reports_carry_the_observed_engine_state() {
    let mut bridge = Bridge::new();
    let player = state(LOCAL_PLAYER_REF, 100.0, 85.0);
    observe(&mut bridge, player);
    let frame = report_player_state(&mut bridge);
    assert_eq!(frame, encode_player_state_event(&player));
    let npc = state(0x1234, -5.0, 40.0);
    observe(&mut bridge, npc);
    track_actor(&mut bridge, 0x1234);
    track_actor(&mut bridge, 0x9999);
    let _ = take_event_frames(&mut bridge);
    sample_tracked(&mut bridge);
    let frames = take_event_frames(&mut bridge);
    assert_eq!(frames[0], encode_npc_state_event(&npc));
    let (fs, _) = split_frames(&frames[1]);
    let (_, data) = decode_event(&fs[0].payload).unwrap();
    let unresolved = decode_player_state(data).unwrap();
    assert_eq!(unresolved.ref_id, 0x9999);
    assert_eq!(unresolved.health, 0);
    // A later observation replaces the earlier one.
    let moved = state(0x1234, 7.0, 40.0);
    observe(&mut bridge, moved);
    assert_eq!(sample(&bridge, 0x1234), moved);
}

#[test]
fn position_commands_read_and_write_the_engine_state() {
    let mut bridge = Bridge::new();
    observe(&mut bridge, state(0x42, 1.5, 100.0));
    let reply = execute(&mut bridge, OP_GET_POS, &0x42u32.to_le_bytes());
    let mut expected = Vec::new();
    for v in [1.5f32, 2.0, 3.0] {
        expected.extend_from_slice(&v.to_le_bytes());
    }
    assert_eq!(reply, expected);
    let mut params = 0x42u32.to_le_bytes().to_vec();
    for v in [10.0f32, 20.0, 30.0] {
        params.extend_from_slice(&v.to_le_bytes());
    }
    assert_eq!(execute(&mut bridge, OP_SET_POS, &params), vec![1]);
    let e = sample(&bridge, 0x42);
    assert_eq!(e.pos, [10.0f32.to_bits(), 20.0f32.to_bits(), 30.0f32.to_bits()]);
    assert_eq!(e.angle, [0, 0, 90.0f32.to_bits()], "the rotation is untouched");
    let reply = execute(&mut bridge, OP_GET_ANGLE, &0x42u32.to_le_bytes());
    assert_eq!(&reply[8..12], &90.0f32.to_le_bytes());
}
