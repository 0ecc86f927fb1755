//! The client's half of the server transport: framing outgoing packets
//! (reliable frames carry `0x80 | channel` and a varint sequence number,
//! unreliable ones the bare channel) and reading incoming datagrams, with
//! a cumulative ACK queued for every reliable frame received. The caller
//! owns the socket and the packet encoding.
use vstd::prelude::*;
use crate::bytes::{le16, from_le16, push_le16, push_all, copy_range, u16_from_le};
use crate::channel::{Channel, PacketKind, channel_of, is_unreliable_kind};
use crate::transport::{
    varint_bytes, varint_of, encode_varint_seq, decode_varint_seq, ack_frame_bytes, encode_ctrl_ack,
    CHANNEL_CTRL, CHANNEL_RELIABLE_FLAG,
};

verus! {

/// Size of the frame header: 2-byte length, 1-byte channel.
pub const HEADER_SIZE: usize = 3;

/// The wire number of a channel.
pub open spec fn channel_number(c: Channel) -> u8 {
    match c {
        Channel::System => 0,
        Channel::Game => 1,
        Channel::Chat => 2,
    }
}

fn channel_byte(c: Channel) -> (r: u8)
    ensures
        r == channel_number(c),
{
    match c {
        Channel::System => 0,
        Channel::Game => 1,
        Channel::Chat => 2,
    }
}

/// The frame carrying `payload` for a packet of kind `kind`: an unreliable
/// kind goes bare on its channel; any other kind is flagged reliable and
/// numbered `seq`. The length field holds the body length modulo 2^16.
pub open spec fn outgoing_frame(kind: PacketKind, seq: u16, payload: Seq<u8>) -> Seq<u8> {
    let ch = channel_number(channel_of(kind));
    if is_unreliable_kind(kind) {
        le16((payload.len() % 65536) as u16) + seq![ch] + payload
    } else {
        let sb = varint_bytes(seq);
        le16(((sb.len() + payload.len()) % 65536) as u16) + seq![CHANNEL_RELIABLE_FLAG | ch] + sb + payload
    }
}

/// What an incoming datagram holds.
pub enum Received {
    /// Too short, truncated, or a control frame: nothing for the client.
    Nothing,
    /// A reliable frame whose sequence number does not parse.
    Malformed,
    /// An unreliable packet's bytes.
    Unreliable(Seq<u8>),
    /// A reliable packet's sequence number and bytes.
    Reliable(u16, Seq<u8>),
}

/// How the client reads datagram `d`.
pub open spec fn received(d: Seq<u8>) -> Received {
    if d.len() < 3 || d.len() < 3 + from_le16(d[0], d[1]) {
        Received::Nothing
    } else {
        let payload = d.subrange(3, 3 + from_le16(d[0], d[1]));
        if d[2] == CHANNEL_CTRL {
            Received::Nothing
        } else if d[2] & CHANNEL_RELIABLE_FLAG != 0 {
            match varint_of(payload) {
                Some((seq, n)) => Received::Reliable(seq, payload.skip(n as int)),
                None => Received::Malformed,
            }
        } else {
            Received::Unreliable(payload)
        }
    }
}

/// A reliable frame from the server whose sequence number does not parse.
#[derive(Debug, Clone, Copy, PartialEq, Eq, Structural)]
pub enum FrameError {
    MalformedReliable,
}

/// The transport state as plain values.
#[verifier::ext_equal]
pub struct NetView {
    pub send_seq: u16,
    pub recv_seq: Option<u16>,
    pub acks: Seq<Seq<u8>>,
}

/// Sequence numbers and queued ACK frames of the client's connection.
pub struct ClientNetwork {
    send_seq: u16,
    /// Highest reliable sequence received (cumulative ACK target).
    recv_seq: Option<u16>,
    /// ACK frames queued to send, oldest first.
    ack_queue: Vec<Vec<u8>>,
}

/// Frames as byte sequences.
pub open spec fn frames_of(v: Seq<Vec<u8>>) -> Seq<Seq<u8>> {
    v.map_values(|f: Vec<u8>| f@)
}

impl ClientNetwork {
    /// The state as plain values.
    pub closed spec fn view(&self) -> NetView {
        NetView { send_seq: self.send_seq, recv_seq: self.recv_seq, acks: frames_of(self.ack_queue@) }
    }

    /// A fresh connection: sending starts at 0, nothing received.
    pub fn new() -> (r: ClientNetwork)
        ensures
            r.view() == (NetView { send_seq: 0, recv_seq: None, acks: Seq::<Seq<u8>>::empty() }),
    {
        let r = ClientNetwork { send_seq: 0, recv_seq: None, ack_queue: Vec::new() };
        assert(r.view() =~= NetView { send_seq: 0, recv_seq: None, acks: Seq::<Seq<u8>>::empty() });
        r
    }

    /// Frames an encoded packet of kind `kind` for sending. Only reliable
    /// frames use up a sequence number, which wraps after `u16::MAX`.
    pub fn frame_packet(&mut self, kind: PacketKind, payload: &[u8]) -> (r: Vec<u8>)
        ensures
            r@ == outgoing_frame(kind, old(self).view().send_seq, payload@),
            final(self).view() == (NetView {
                send_seq: if is_unreliable_kind(kind) {
                    old(self).view().send_seq
                } else {
                    (if old(self).view().send_seq == u16::MAX { 0 } else { (old(self).view().send_seq + 1) as u16 })
                },
                ..old(self).view()
            }),
    {
        let ch = channel_byte(Channel::from_packet(&kind));
        let mut buf: Vec<u8> = Vec::new();
        if Channel::is_unreliable(&kind) {
            push_le16(&mut buf, (payload.len() % 65536) as u16);
            buf.push(ch);
        } else {
            let seq = self.send_seq;
            self.send_seq = if seq == u16::MAX { 0 } else { seq + 1 };
            let seq_bytes = encode_varint_seq(seq);
            push_le16(&mut buf, ((seq_bytes.len() + payload.len() % 65536) % 65536) as u16);
            buf.push(CHANNEL_RELIABLE_FLAG | ch);
            push_all(&mut buf, seq_bytes.as_slice());
            assert((seq_bytes@.len() + payload@.len() % 65536) % 65536 == (seq_bytes@.len() + payload@.len())
                % 65536) by (nonlinear_arith)
                requires
                    seq_bytes@.len() <= 3,
            {
            }
        }
        push_all(&mut buf, payload);
        assert(buf@ =~= outgoing_frame(kind, old(self).view().send_seq, payload@));
        buf
    }

    /// Takes the queued ACK frames, oldest first; they go out before the
    /// next packet.
    pub fn flush_acks(&mut self) -> (r: Vec<Vec<u8>>)
        ensures
            frames_of(r@) == old(self).view().acks,
            final(self).view() == (NetView { acks: Seq::<Seq<u8>>::empty(), ..old(self).view() }),
    {
        let mut r: Vec<Vec<u8>> = Vec::new();
        std::mem::swap(&mut r, &mut self.ack_queue);
        assert(frames_of(self.ack_queue@) =~= Seq::<Seq<u8>>::empty());
        r
    }

    /// Reads a datagram: the packet bytes to decode, if any. A reliable
    /// frame records its sequence number and queues an ACK for it.
    pub fn recv(&mut self, datagram: &[u8]) -> (r: Result<Option<Vec<u8>>, FrameError>)
        ensures
            match received(datagram@) {
                Received::Nothing => r == Ok::<Option<Vec<u8>>, FrameError>(None) && final(self).view()
                    == old(self).view(),
                Received::Malformed => r == Err::<Option<Vec<u8>>, FrameError>(FrameError::MalformedReliable)
                    && final(self).view() == old(self).view(),
                Received::Unreliable(p) => r matches Ok(Some(v)) && v@ == p && final(self).view()
                    == old(self).view(),
                Received::Reliable(seq, p) => r matches Ok(Some(v)) && v@ == p && final(self).view() == (
                NetView {
                    recv_seq: Some(seq),
                    acks: old(self).view().acks.push(ack_frame_bytes(seq)),
                    ..old(self).view()
                }),
            },
    {
        let len = datagram.len();
        if len < HEADER_SIZE {
            return Ok(None);
        }
        let length = u16_from_le(datagram[0], datagram[1]) as usize;
        if len - HEADER_SIZE < length {
            return Ok(None);
        }
        let ch = datagram[2];
        let payload = copy_range(datagram, HEADER_SIZE, HEADER_SIZE + length);
        if ch == CHANNEL_CTRL {
            return Ok(None);
        }
        if ch & CHANNEL_RELIABLE_FLAG != 0 {
            match decode_varint_seq(payload.as_slice()) {
                Some((seq, consumed)) => {
                    self.recv_seq = Some(seq);
                    let ack = encode_ctrl_ack(seq);
                    let ghost before = self.ack_queue@;
                    self.ack_queue.push(ack);
                    assert(frames_of(self.ack_queue@) =~= frames_of(before).push(ack_frame_bytes(seq)));
                    let body = copy_range(payload.as_slice(), consumed, payload.len());
                    assert(body@ =~= payload@.skip(consumed as int));
                    Ok(Some(body))
                },
                None => Err(FrameError::MalformedReliable),
            }
        } else {
            Ok(Some(payload))
        }
    }
}

/// A reliable frame the client sends reads back, on the other side, as
/// the same sequence number and packet bytes (for a body under 2^16 bytes).
pub proof fn law_reliable_frame_roundtrip(kind: PacketKind, seq: u16, payload: Seq<u8>)
    requires
        !is_unreliable_kind(kind),
        payload.len() + 3 < 65536,
    ensures
        received(outgoing_frame(kind, seq, payload)) == Received::Reliable(seq, payload),
{
    let d = outgoing_frame(kind, seq, payload);
    let sb = varint_bytes(seq);
    crate::transport::law_varint_roundtrip(seq, payload);
    let n = (sb.len() + payload.len()) as u16;
    crate::bytes::lemma_le16_roundtrip(n);
    assert(d[0] == le16(n)[0] && d[1] == le16(n)[1]);
    let ch = channel_number(channel_of(kind));
    assert(d[2] == CHANNEL_RELIABLE_FLAG | ch);
    assert((0x80u8 | ch) & 0x80u8 != 0 && (0x80u8 | ch) != 0xFFu8) by (bit_vector)
        requires
            ch <= 2,
    ;
    assert(d.subrange(3, 3 + n) =~= sb + payload);
    assert((sb + payload).skip(sb.len() as int) =~= payload);
}

/// An unreliable frame the client sends reads back as the same packet
/// bytes (for a payload under 2^16 bytes).
pub proof fn law_unreliable_frame_roundtrip(kind: PacketKind, payload: Seq<u8>)
    requires
        is_unreliable_kind(kind),
        payload.len() < 65536,
    ensures
        received(outgoing_frame(kind, 0, payload)) == Received::Unreliable(payload),
{
    let d = outgoing_frame(kind, 0, payload);
    let n = payload.len() as u16;
    crate::bytes::lemma_le16_roundtrip(n);
    assert(d[0] == le16(n)[0] && d[1] == le16(n)[1]);
    let ch = channel_number(channel_of(kind));
    assert(ch & 0x80u8 == 0 && ch != 0xFFu8) by (bit_vector)
        requires
            ch <= 2,
    ;
    assert(d.subrange(3, 3 + n) =~= payload);
}

/// The channel byte of an outgoing frame is the channel's wire number,
/// System 0, Game 1, Chat 2, so distinct channels are told apart: an
/// unreliable frame carries the number bare, a reliable one with the
/// reliable flag (0x80) set.
pub proof fn law_channel_byte_is_wire_number(kind: PacketKind, seq: u16, payload: Seq<u8>)
    ensures
        ({
            let wire: u8 = match channel_of(kind) {
                Channel::System => 0u8,
                Channel::Game => 1u8,
                Channel::Chat => 2u8,
            };
            let b = outgoing_frame(kind, seq, payload)[2];
            &&& is_unreliable_kind(kind) ==> b == wire
            &&& !is_unreliable_kind(kind) ==> b == (0x80u8 | wire)
        }),
        forall|a: Channel, c: Channel| channel_number(a) == channel_number(c) ==> a == c,
{
    let wire: u8 = match channel_of(kind) {
        Channel::System => 0u8,
        Channel::Game => 1u8,
        Channel::Chat => 2u8,
    };
    assert(channel_number(channel_of(kind)) == wire);
    if !is_unreliable_kind(kind) {
        let sb = varint_bytes(seq);
        let f = le16(((sb.len() + payload.len()) % 65536) as u16) + seq![CHANNEL_RELIABLE_FLAG | wire] + sb + payload;
        assert(f[2] == (CHANNEL_RELIABLE_FLAG | wire));
    } else {
        let f = le16((payload.len() % 65536) as u16) + seq![wire] + payload;
        assert(f[2] == wire);
    }
}

/// The layout of an outgoing frame (body under 2^16 bytes): the first two
/// bytes give, little-endian, the length of everything after the
/// three-byte header; the packet bytes end the frame; an unreliable frame
/// holds nothing else, and a reliable one puts its one- or three-byte
/// sequence number between header and packet.
pub proof fn law_outgoing_frame_layout(kind: PacketKind, seq: u16, payload: Seq<u8>)
    requires
        payload.len() + 3 < 65536,
    ensures
        ({
            let f = outgoing_frame(kind, seq, payload);
            &&& f.len() >= 3 + payload.len()
            &&& f[0] as int + 256 * (f[1] as int) == f.len() - 3
            &&& f.subrange(f.len() - payload.len(), f.len() as int) == payload
            &&& is_unreliable_kind(kind) ==> f.len() == 3 + payload.len()
            &&& !is_unreliable_kind(kind) ==> {
                &&& (seq < 128 ==> f.len() == 4 + payload.len() && f[3] == 0x80 + seq)
                &&& (seq >= 128 ==> f.len() == 6 + payload.len() && f[3] == 0 && f[4] as int + 256 * (f[5] as int) == seq)
            }
        }),
{
    let f = outgoing_frame(kind, seq, payload);
    if is_unreliable_kind(kind) {
        let n = payload.len() as u16;
        assert(f[0] == le16(n)[0] && f[1] == le16(n)[1]);
        assert(f.subrange(f.len() - payload.len(), f.len() as int) =~= payload);
    } else {
        let sb = varint_bytes(seq);
        let n = (sb.len() + payload.len()) as u16;
        assert(f[0] == le16(n)[0] && f[1] == le16(n)[1]);
        assert(f.subrange(f.len() - payload.len(), f.len() as int) =~= payload);
        if seq < 128 {
            assert(f[3] == sb[0]);
        } else {
            assert(f[3] == sb[0] && f[4] == sb[1] && f[5] == sb[2]);
        }
    }
}

} // verus!
