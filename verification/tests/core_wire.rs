use ashfall::event::{
    decode_event, decode_npc_remove, decode_npc_spawn, decode_player_state, decode_ref_event,
    encode_frame, encode_npc_remove_event, encode_npc_spawn_event, encode_npc_state_event,
    encode_player_state_event, encode_ref_event, split_frames, NpcRemoveEvent, NpcSpawnEvent,
    PlayerStateEvent, EVENT_ACTIVATE, EVENT_NPC_REMOVE, EVENT_NPC_SPAWN, EVENT_NPC_STATE,
    EVENT_PLAYER_STATE, PIPE_OP_EVENT,
};
use ashfall::transport::{
    decode_ctrl_frame, decode_varint_seq, encode_ctrl_ack, encode_ctrl_nack, encode_varint_seq,
    CtrlFrame, CHANNEL_CTRL, CTRL_ACK, CTRL_NACK,
};

#[test]
fn test_frame_roundtrip_and_split() {
    let frames = vec![
        encode_frame(0x02, &[1, 2, 3, 4, 5]),
        encode_frame(PIPE_OP_EVENT, &[9, 9, 9]),
    ];
    let stream: Vec<u8> = frames.iter().flat_map(|f| f.iter().copied()).collect();
    let (decoded, rest) = split_frames(&stream);
    assert!(rest.is_empty());
    assert_eq!(decoded.len(), 2);
    assert_eq!(decoded[0].opcode, 0x02);
    assert_eq!(decoded[0].payload, vec![1, 2, 3, 4, 5]);
    assert_eq!(decoded[1].opcode, PIPE_OP_EVENT);
}

#[test]
fn test_split_partial_frame() {
    let frame = encode_frame(0x02, &[1, 2, 3, 4, 5]);
    let (decoded, rest) = split_frames(&frame[..frame.len() - 2]);
    assert!(decoded.is_empty(), "incomplete frame waits");
    assert_eq!(rest.len(), frame.len() - 2);
    let mut combined = rest.to_vec();
    combined.extend_from_slice(&frame[frame.len() - 2..]);
    let (decoded2, _) = split_frames(&combined);
    assert_eq!(decoded2.len(), 1);
    assert_eq!(decoded2[0].payload, vec![1, 2, 3, 4, 5]);
}

#[test]
fn frame_layout_is_length_then_opcode() {
    assert_eq!(encode_frame(0x03, &[0xAA, 0xBB]), vec![2, 0, 3, 0xAA, 0xBB]);
    assert_eq!(encode_frame(0x01, &[]), vec![0, 0, 1]);
    let big = vec![7u8; 300];
    let f = encode_frame(0x02, &big);
    assert_eq!(&f[..3], &[0x2C, 0x01, 0x02]);
}

fn sample_state() -> PlayerStateEvent {
    PlayerStateEvent {
        ref_id: 0x14,
        pos: [1.0f32.to_bits(), 2.0f32.to_bits(), 3.0f32.to_bits()],
        angle: [0.5f32.to_bits(), 0.0f32.to_bits(), 1.5f32.to_bits()],
        idle: 7,
        moving: 2,
        moving_xy: 1,
        weapon: 0x2A,
        alerted: true,
        sneaking: false,
        health: 87.5f32.to_bits(),
    }
}

#[test]
fn test_player_state_roundtrip() {
    let e = sample_state();
    let frame = encode_player_state_event(&e);
    let (frames, _) = split_frames(&frame);
    assert_eq!(frames.len(), 1);
    assert_eq!(frames[0].opcode, PIPE_OP_EVENT);
    let (event_type, data) = decode_event(&frames[0].payload).unwrap();
    assert_eq!(event_type, EVENT_PLAYER_STATE);
    assert_eq!(decode_player_state(data).unwrap(), e);
    assert_eq!(f32::from_bits(decode_player_state(data).unwrap().health), 87.5);
}

#[test]
fn npc_state_uses_player_record() {
    let e = sample_state();
    let frame = encode_npc_state_event(&e);
    let (frames, _) = split_frames(&frame);
    let (event_type, data) = decode_event(&frames[0].payload).unwrap();
    assert_eq!(event_type, EVENT_NPC_STATE);
    assert_eq!(decode_player_state(data).unwrap(), e);
}

#[test]
fn test_npc_spawn_roundtrip() {
    let e = NpcSpawnEvent {
        ref_id: 0x1234,
        base_id: 0x5678,
        pos: [5.0f32.to_bits(), 6.0f32.to_bits(), 7.0f32.to_bits()],
        cell: 42,
    };
    let frame = encode_npc_spawn_event(&e);
    let (frames, _) = split_frames(&frame);
    let (event_type, data) = decode_event(&frames[0].payload).unwrap();
    assert_eq!(event_type, EVENT_NPC_SPAWN);
    assert_eq!(decode_npc_spawn(data).unwrap(), e);
}

#[test]
fn npc_remove_roundtrip() {
    let frame = encode_npc_remove_event(&NpcRemoveEvent { ref_id: 0x1234 });
    let (frames, _) = split_frames(&frame);
    let (event_type, data) = decode_event(&frames[0].payload).unwrap();
    assert_eq!(event_type, EVENT_NPC_REMOVE);
    assert_eq!(decode_npc_remove(data).unwrap(), NpcRemoveEvent { ref_id: 0x1234 });
}

#[test]
fn ref_event_encodes_ref_id() {
    let frame = encode_ref_event(EVENT_ACTIVATE, 0x1234);
    let (frames, _) = split_frames(&frame);
    let (et, data) = decode_event(&frames[0].payload).unwrap();
    assert_eq!(et, EVENT_ACTIVATE);
    assert_eq!(decode_ref_event(data).unwrap(), 0x1234);
}

#[test]
fn test_decode_truncated() {
    assert!(decode_event(&[0, 0]).is_none());
    assert!(decode_player_state(&[0u8; 4]).is_none());
    assert!(decode_npc_spawn(&[0u8; 8]).is_none());
    assert!(decode_ref_event(&[1, 2, 3]).is_none());
}

#[test]
fn test_varint_roundtrip_boundaries() {
    for seq in [0u16, 1, 127, 128, 129, 255, 256, 0x7FFF, 0xFFFF] {
        let enc = encode_varint_seq(seq);
        let (dec, consumed) = decode_varint_seq(&enc).expect("decodable");
        assert_eq!(dec, seq);
        assert_eq!(consumed, enc.len());
    }
}

#[test]
fn test_varint_size() {
    assert_eq!(encode_varint_seq(0).len(), 1);
    assert_eq!(encode_varint_seq(127).len(), 1);
    assert_eq!(encode_varint_seq(128).len(), 3);
    assert_eq!(encode_varint_seq(0xFFFF).len(), 3);
    assert_eq!(encode_varint_seq(0)[0], 0x80);
    assert_eq!(encode_varint_seq(127)[0], 0xFF);
    assert_eq!(encode_varint_seq(128)[0], 0x00);
}

#[test]
fn test_varint_truncated() {
    assert!(decode_varint_seq(&[]).is_none());
    assert!(decode_varint_seq(&[0x00]).is_none());
    assert!(decode_varint_seq(&[0x00, 0x01]).is_none());
    assert!(decode_varint_seq(&[0x7F]).is_none());
}

#[test]
fn test_ctrl_ack_roundtrip() {
    for seq in [0u16, 42, 127, 128, 0xFFFF] {
        let frame = encode_ctrl_ack(seq);
        assert_eq!(frame[2], CHANNEL_CTRL);
        assert_eq!(frame[3], CTRL_ACK);
        let len = u16::from_le_bytes([frame[0], frame[1]]) as usize;
        assert_eq!(len, frame.len() - 3, "length counts payload after channel");
        let decoded = decode_ctrl_frame(&frame[3..]).unwrap();
        assert_eq!(decoded, CtrlFrame::Ack(seq));
    }
}

#[test]
fn test_ctrl_nack_roundtrip() {
    let missing = vec![1u16, 130, 7, 0xFFFF];
    let frame = encode_ctrl_nack(&missing);
    assert_eq!(frame[3], CTRL_NACK);
    assert_eq!(frame[4], missing.len() as u8);
    let decoded = decode_ctrl_frame(&frame[3..]).unwrap();
    assert_eq!(decoded, CtrlFrame::Nack(missing));
}

#[test]
fn test_ctrl_nack_empty_and_truncated() {
    let frame = encode_ctrl_nack(&[]);
    assert_eq!(decode_ctrl_frame(&frame[3..]).unwrap(), CtrlFrame::Nack(vec![]));
    assert!(decode_ctrl_frame(&[]).is_none());
    assert!(decode_ctrl_frame(&[0x99]).is_none());
    assert!(decode_ctrl_frame(&[CTRL_NACK, 1]).is_none());
}

#[test]
fn test_ctrl_nack_caps_at_255() {
    let many: Vec<u16> = (0..300).collect();
    let frame = encode_ctrl_nack(&many);
    assert_eq!(frame[4], 255);
    if let CtrlFrame::Nack(seqs) = decode_ctrl_frame(&frame[3..]).unwrap() {
        assert_eq!(seqs.len(), 255);
        assert_eq!(seqs[254], 254);
    } else {
        panic!("expected Nack");
    }
}

#[test]
fn nack_length_field_counts_after_channel() {
    let frame = encode_ctrl_nack(&[5, 300]);
    let len = u16::from_le_bytes([frame[0], frame[1]]) as usize;
    assert_eq!(len, frame.len() - 3);
}

#[test]
fn item_stack_limit_is_sixteen_bits() {
    assert_eq!(ashfall::constants::MAX_ITEM_STACK, 65535);
    assert_eq!(ashfall::constants::MAX_ITEM_STACK, u16::MAX as u32);
}
