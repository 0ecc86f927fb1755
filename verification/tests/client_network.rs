use ashfall::channel::PacketKind;
use ashfall::client::network::{ClientNetwork, FrameError};
use ashfall::protocol::Packet;
use ashfall::transport::{
    decode_ctrl_frame, decode_varint_seq, encode_varint_seq, CtrlFrame, CHANNEL_CTRL, CHANNEL_RELIABLE_FLAG,
};

/// Parse a wire frame: (channel byte, reliable sequence, payload).
fn parse_frame(data: &[u8]) -> (u8, Option<u16>, Vec<u8>) {
    let length = u16::from_le_bytes([data[0], data[1]]) as usize;
    let channel = data[2];
    let payload = &data[3..3 + length];
    if channel & CHANNEL_RELIABLE_FLAG != 0 {
        let (seq, consumed) = decode_varint_seq(payload).expect("varint seq");
        (channel, Some(seq), payload[consumed..].to_vec())
    } else {
        (channel, None, payload.to_vec())
    }
}

/// A server-style reliable frame (varint seq + payload).
fn encode_reliable_frame(seq: u16, payload: &[u8]) -> Vec<u8> {
    let seq_bytes = encode_varint_seq(seq);
    let mut buf = Vec::new();
    buf.extend_from_slice(&((seq_bytes.len() + payload.len()) as u16).to_le_bytes());
    buf.push(CHANNEL_RELIABLE_FLAG);
    buf.extend_from_slice(&seq_bytes);
    buf.extend_from_slice(payload);
    buf
}

fn chat_kind() -> PacketKind {
    Packet::GameChat { message: "ping".to_string() }.kind()
}

#[test]
fn test_client_reliable_send_framing() {
    let mut client = ClientNetwork::new();
    let body = b"ping-bytes".to_vec();
    let frame = client.frame_packet(chat_kind(), &body);
    let (channel, seq, payload) = parse_frame(&frame);
    assert_eq!(channel & CHANNEL_RELIABLE_FLAG, CHANNEL_RELIABLE_FLAG);
    assert_eq!(channel & 0x7F, 2, "chat channel");
    assert_eq!(seq, Some(0));
    assert_eq!(payload, body);
}

#[test]
fn test_client_acks_received_reliable() {
    let mut client = ClientNetwork::new();
    let body = b"server message".to_vec();
    let got = client.recv(&encode_reliable_frame(7, &body)).unwrap();
    assert_eq!(got, Some(body));
    // The next send goes after the queued ACK.
    let acks = client.flush_acks();
    assert_eq!(acks.len(), 1);
    let ack = &acks[0];
    assert_eq!(ack[2], CHANNEL_CTRL, "first frame is the ACK");
    let decoded = decode_ctrl_frame(&ack[3..3 + u16::from_le_bytes([ack[0], ack[1]]) as usize]).unwrap();
    assert_eq!(decoded, CtrlFrame::Ack(7));
    assert!(client.flush_acks().is_empty());
    let reply = client.frame_packet(chat_kind(), b"reply");
    let (_, seq, payload) = parse_frame(&reply);
    assert_eq!(seq, Some(0), "reply is the client's first reliable send");
    assert_eq!(payload, b"reply".to_vec());
}

#[test]
fn test_client_unreliable_send_framing() {
    let mut client = ClientNetwork::new();
    let kind = Packet::UpdatePos { id: 5u64.into(), pos: [1.0f32.to_bits(), 2.0f32.to_bits(), 3.0f32.to_bits()] }.kind();
    let frame = client.frame_packet(kind, b"pos");
    let (channel, seq, payload) = parse_frame(&frame);
    assert_eq!(channel & CHANNEL_RELIABLE_FLAG, 0, "no reliable flag");
    assert_eq!(seq, None, "no seq on unreliable frames");
    assert_eq!(payload, b"pos".to_vec());
    // Unreliable frames leave the reliable numbering alone.
    let (_, seq, _) = parse_frame(&client.frame_packet(chat_kind(), b"x"));
    assert_eq!(seq, Some(0));
    let (_, seq, _) = parse_frame(&client.frame_packet(chat_kind(), b"y"));
    assert_eq!(seq, Some(1));
}

#[test]
fn short_control_and_malformed_datagrams() {
    let mut client = ClientNetwork::new();
    assert_eq!(client.recv(&[1, 0]), Ok(None), "shorter than a header");
    assert_eq!(client.recv(&[5, 0, 1, 2]), Ok(None), "truncated body");
    assert_eq!(client.recv(&[2, 0, CHANNEL_CTRL, 1, 0x87]), Ok(None), "control frame");
    assert_eq!(client.recv(&[1, 0, CHANNEL_RELIABLE_FLAG, 0x05]), Err(FrameError::MalformedReliable));
    assert_eq!(client.recv(&[2, 0, 1, 9, 9]), Ok(Some(vec![9, 9])), "unreliable body");
    assert!(client.flush_acks().is_empty());
    let big = encode_reliable_frame(300, b"z");
    assert_eq!(client.recv(&big), Ok(Some(b"z".to_vec())));
    assert_eq!(client.flush_acks().len(), 1);
}
