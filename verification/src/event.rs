//! Pipe-frame framing shared by the in-game bridge and the native client,
//! plus the engine event records carried inside event frames.
//!
//! ```text
//! Frame: [len:2 LE][opcode:1][payload...]
//! Event payload: [event_type:4 LE][event record...]
//! ```
//!
//! Floating-point engine values (positions, angles, health) travel as their
//! IEEE-754 bit patterns: the records here hold those bits as `u32`, which is
//! exactly what goes on the wire.
use vstd::prelude::*;
use crate::bytes::{le16, le32, from_le16, from_le32, push_le16, push_le32, push_all, copy_range, u16_from_le, u32_from_le};

verus! {

/// Pipe event frame opcode (engine to client).
pub const PIPE_OP_EVENT: u8 = 0x07;

/// Own-player state sample (bridge to client).
pub const EVENT_PLAYER_STATE: u32 = 7;
/// NPC observed in the player's loaded cell (bridge to client).
pub const EVENT_NPC_SPAWN: u32 = 8;
/// NPC no longer observed (bridge to client).
pub const EVENT_NPC_REMOVE: u32 = 9;
/// State sample of an NPC this client simulates (bridge to client).
pub const EVENT_NPC_STATE: u32 = 10;
/// An object was activated in the game (payload: its ref id).
pub const EVENT_ACTIVATE: u32 = 11;
/// An actor fired its weapon in the game (payload: its ref id).
pub const EVENT_FIRE: u32 = 12;

/// Size of the wire record of a [`PlayerStateEvent`] (C layout, 4-aligned).
pub const PLAYER_STATE_SIZE: usize = 44;
/// Size of the wire record of an [`NpcSpawnEvent`].
pub const NPC_SPAWN_SIZE: usize = 24;

/// A decoded pipe frame.
#[derive(Debug, Clone, PartialEq, Eq)]
pub struct PipeFrame {
    pub opcode: u8,
    pub payload: Vec<u8>,
}

impl PipeFrame {
    /// The frame as (opcode, payload bytes).
    pub open spec fn view_pair(self) -> (u8, Seq<u8>) {
        (self.opcode, self.payload@)
    }
}

/// The frames of a vector, each as (opcode, payload bytes).
pub open spec fn frames_view(v: Seq<PipeFrame>) -> Seq<(u8, Seq<u8>)> {
    Seq::new(v.len(), |i: int| v[i].view_pair())
}

/// Bytes of one frame: the payload length is written modulo 2^16, as the
/// 16-bit length field holds.
pub open spec fn frame_bytes(opcode: u8, payload: Seq<u8>) -> Seq<u8> {
    le16((payload.len() % 65536) as u16) + seq![opcode] + payload
}

/// Bytes of a sequence of frames, one after the other.
pub open spec fn stream_bytes(frames: Seq<(u8, Seq<u8>)>) -> Seq<u8>
    decreases frames.len(),
{
    if frames.len() == 0 {
        Seq::empty()
    } else {
        frame_bytes(frames[0].0, frames[0].1) + stream_bytes(frames.drop_first())
    }
}

/// Total length (header included) of the frame starting the buffer.
pub open spec fn head_total(buf: Seq<u8>) -> int
    recommends
        buf.len() >= 2,
{
    3 + from_le16(buf[0], buf[1])
}

/// The complete frames at the front of a byte stream.
pub open spec fn complete_frames(buf: Seq<u8>) -> Seq<(u8, Seq<u8>)>
    decreases buf.len(),
{
    if buf.len() < 2 || head_total(buf) > buf.len() {
        Seq::empty()
    } else {
        seq![(buf[2], buf.subrange(3, head_total(buf)))] + complete_frames(buf.skip(head_total(buf)))
    }
}

/// The bytes left after the complete frames (the start of a frame whose
/// rest has not arrived yet).
pub open spec fn leftover(buf: Seq<u8>) -> Seq<u8>
    decreases buf.len(),
{
    if buf.len() < 2 || head_total(buf) > buf.len() {
        buf
    } else {
        leftover(buf.skip(head_total(buf)))
    }
}

/// Encodes a length-prefixed pipe frame.
pub fn encode_frame(opcode: u8, payload: &[u8]) -> (r: Vec<u8>)
    ensures
        r@ == frame_bytes(opcode, payload@),
{
    let mut frame: Vec<u8> = Vec::new();
    let len16: u16 = (payload.len() % 65536) as u16;
    push_le16(&mut frame, len16);
    frame.push(opcode);
    push_all(&mut frame, payload);
    assert(frame@ =~= frame_bytes(opcode, payload@));
    frame
}

/// Splits a byte stream into its complete frames and the bytes that wait
/// for the rest of the next frame.
pub fn split_frames(buf: &[u8]) -> (r: (Vec<PipeFrame>, &[u8]))
    ensures
        frames_view(r.0@) == complete_frames(buf@),
        r.1@ == leftover(buf@),
{
    let mut frames: Vec<PipeFrame> = Vec::new();
    let mut off: usize = 0;
    assert(buf@.skip(0) =~= buf@);
    while buf.len() - off >= 2
        invariant
            off <= buf.len(),
            frames_view(frames@) + complete_frames(buf@.skip(off as int)) == complete_frames(buf@),
            leftover(buf@.skip(off as int)) == leftover(buf@),
        ensures
            off <= buf.len(),
            frames_view(frames@) + complete_frames(buf@.skip(off as int)) == complete_frames(buf@),
            leftover(buf@.skip(off as int)) == leftover(buf@),
            buf@.skip(off as int).len() < 2 || head_total(buf@.skip(off as int)) > buf@.skip(
                off as int,
            ).len(),
        decreases buf.len() - off,
    {
        let ghost rest = buf@.skip(off as int);
        let len: usize = u16_from_le(buf[off], buf[off + 1]) as usize;
        let total: usize = 3 + len;
        assert(rest[0] == buf@[off as int] && rest[1] == buf@[off + 1]);
        assert(total == head_total(rest));
        if total > buf.len() - off {
            break;
        }
        let payload = copy_range(buf, off + 3, off + total);
        let frame = PipeFrame { opcode: buf[off + 2], payload };
        let ghost old_frames = frames@;
        frames.push(frame);
        assert(rest.subrange(3, head_total(rest)) =~= buf@.subrange(off + 3, off + total));
        assert(rest.skip(head_total(rest)) =~= buf@.skip(off + total));
        assert(frames_view(frames@) =~= frames_view(old_frames) + seq![(buf@[off + 2], payload@)]);
        assert(frames_view(frames@) + complete_frames(buf@.skip(off + total)) =~= frames_view(
            old_frames,
        ) + complete_frames(rest));
        off = off + total;
    }
    let ghost rest = buf@.skip(off as int);
    assert(complete_frames(rest) =~= Seq::empty());
    assert(frames_view(frames@) =~= frames_view(frames@) + complete_frames(rest));
    let tail = vstd::slice::slice_subrange(buf, off, buf.len());
    assert(tail@ =~= rest);
    (frames, tail)
}

/// One encoded frame in front of any bytes parses as that frame, followed
/// by whatever the rest parses as.
pub proof fn lemma_frame_then_rest(opcode: u8, payload: Seq<u8>, rest: Seq<u8>)
    requires
        payload.len() < 65536,
    ensures
        complete_frames(frame_bytes(opcode, payload) + rest) == seq![(opcode, payload)]
            + complete_frames(rest),
        leftover(frame_bytes(opcode, payload) + rest) == leftover(rest),
{
    let b = frame_bytes(opcode, payload) + rest;
    let n: int = payload.len() as int;
    crate::bytes::lemma_le16_roundtrip(n as u16);
    assert(b[0] == le16(n as u16)[0] && b[1] == le16(n as u16)[1]);
    assert(head_total(b) == 3 + n);
    assert(b[2] == opcode);
    assert(b.subrange(3, 3 + n) =~= payload);
    assert(b.skip(3 + n) =~= rest);
}

/// The bytes of whole frames, each with a payload under 2^16 bytes, split
/// back into exactly those frames with nothing left over.
pub proof fn law_split_recovers_encoded_frames(frames: Seq<(u8, Seq<u8>)>)
    requires
        forall|i: int| 0 <= i < frames.len() ==> #[trigger] frames[i].1.len() < 65536,
    ensures
        complete_frames(stream_bytes(frames)) == frames,
        leftover(stream_bytes(frames)) == Seq::<u8>::empty(),
    decreases frames.len(),
{
    if frames.len() == 0 {
        assert(stream_bytes(frames) =~= Seq::<u8>::empty());
    } else {
        let rest = frames.drop_first();
        assert forall|i: int| 0 <= i < rest.len() implies #[trigger] rest[i].1.len() < 65536 by {
            assert(rest[i] == frames[i + 1]);
        }
        law_split_recovers_encoded_frames(rest);
        assert(frames[0].1.len() < 65536);
        lemma_frame_then_rest(frames[0].0, frames[0].1, stream_bytes(rest));
        assert(seq![(frames[0].0, frames[0].1)] + rest =~= frames);
    }
}

/// A frame cut before its last byte is not a complete frame: it waits whole.
pub proof fn law_partial_frame_waits(opcode: u8, payload: Seq<u8>, cut: int)
    requires
        payload.len() < 65536,
        0 <= cut < frame_bytes(opcode, payload).len(),
    ensures
        complete_frames(frame_bytes(opcode, payload).take(cut)) == Seq::<(u8, Seq<u8>)>::empty(),
        leftover(frame_bytes(opcode, payload).take(cut)) == frame_bytes(opcode, payload).take(cut),
{
    let b = frame_bytes(opcode, payload).take(cut);
    let n: int = payload.len() as int;
    crate::bytes::lemma_le16_roundtrip(n as u16);
    if b.len() >= 2 {
        assert(b[0] == le16(n as u16)[0] && b[1] == le16(n as u16)[1]);
        assert(head_total(b) == 3 + n);
    }
}

/// The u32 stored little-endian at `at`.
pub open spec fn u32_at(s: Seq<u8>, at: int) -> u32 {
    from_le32(s[at], s[at + 1], s[at + 2], s[at + 3])
}

/// Reads the little-endian u32 at `at`.
pub fn read_u32(s: &[u8], at: usize) -> (r: u32)
    requires
        at + 4 <= s.len(),
    ensures
        r == u32_at(s@, at as int),
{
    u32_from_le(s[at], s[at + 1], s[at + 2], s[at + 3])
}

/// Splits an event payload into its event type and the event record.
/// `None` when the payload is shorter than the 4-byte type.
pub fn decode_event(payload: &[u8]) -> (r: Option<(u32, &[u8])>)
    ensures
        payload.len() < 4 <==> r is None,
        r matches Some((t, data)) ==> t == u32_at(payload@, 0) && data@ == payload@.skip(4),
{
    if payload.len() < 4 {
        return None;
    }
    let event_type = read_u32(payload, 0);
    let data = vstd::slice::slice_subrange(payload, 4, payload.len());
    assert(data@ =~= payload@.skip(4));
    Some((event_type, data))
}

/// Own-player (or owned-NPC) state sample. Positions, angles and health are
/// IEEE-754 single-precision bit patterns.
#[derive(Debug, Clone, Copy, PartialEq, Eq)]
pub struct PlayerStateEvent {
    pub ref_id: u32,
    pub pos: [u32; 3],
    pub angle: [u32; 3],
    pub idle: u32,
    pub moving: u8,
    pub moving_xy: u8,
    pub weapon: u8,
    pub alerted: bool,
    pub sneaking: bool,
    pub health: u32,
}

/// NPC observed in the loaded cell. `pos` holds IEEE-754 bit patterns.
#[derive(Debug, Clone, Copy, PartialEq, Eq)]
pub struct NpcSpawnEvent {
    pub ref_id: u32,
    pub base_id: u32,
    pub pos: [u32; 3],
    pub cell: u32,
}

/// NPC no longer observed.
#[derive(Debug, Clone, Copy, PartialEq, Eq)]
pub struct NpcRemoveEvent {
    pub ref_id: u32,
}

/// 0 or 1 for a flag byte.
pub open spec fn flag_byte(b: bool) -> u8 {
    if b { 1 } else { 0 }
}

/// Wire record of a state sample: the C layout of the engine struct
/// (3 padding bytes, written as zero, before the 4-aligned health).
pub open spec fn player_state_bytes(e: PlayerStateEvent) -> Seq<u8> {
    le32(e.ref_id) + le32(e.pos[0]) + le32(e.pos[1]) + le32(e.pos[2]) + le32(e.angle[0]) + le32(
        e.angle[1],
    ) + le32(e.angle[2]) + le32(e.idle) + seq![
        e.moving,
        e.moving_xy,
        e.weapon,
        flag_byte(e.alerted),
        flag_byte(e.sneaking),
        0u8,
        0u8,
        0u8,
    ] + le32(e.health)
}

/// The state sample a record of at least 44 bytes holds (a nonzero flag
/// byte reads as true).
pub open spec fn player_state_of(d: Seq<u8>) -> PlayerStateEvent {
    PlayerStateEvent {
        ref_id: u32_at(d, 0),
        pos: [u32_at(d, 4), u32_at(d, 8), u32_at(d, 12)],
        angle: [u32_at(d, 16), u32_at(d, 20), u32_at(d, 24)],
        idle: u32_at(d, 28),
        moving: d[32],
        moving_xy: d[33],
        weapon: d[34],
        alerted: d[35] != 0,
        sneaking: d[36] != 0,
        health: u32_at(d, 40),
    }
}

/// Wire record of an NPC spawn.
pub open spec fn npc_spawn_bytes(e: NpcSpawnEvent) -> Seq<u8> {
    le32(e.ref_id) + le32(e.base_id) + le32(e.pos[0]) + le32(e.pos[1]) + le32(e.pos[2]) + le32(
        e.cell,
    )
}

/// The NPC spawn a record of at least 24 bytes holds.
pub open spec fn npc_spawn_of(d: Seq<u8>) -> NpcSpawnEvent {
    NpcSpawnEvent {
        ref_id: u32_at(d, 0),
        base_id: u32_at(d, 4),
        pos: [u32_at(d, 8), u32_at(d, 12), u32_at(d, 16)],
        cell: u32_at(d, 20),
    }
}

/// Bytes of an event frame: event type then record, in a PIPE_OP_EVENT frame.
pub open spec fn event_frame_bytes(event_type: u32, record: Seq<u8>) -> Seq<u8> {
    frame_bytes(PIPE_OP_EVENT, le32(event_type) + record)
}

/// Encodes the record of a state sample.
pub fn player_state_record(e: &PlayerStateEvent) -> (r: Vec<u8>)
    ensures
        r@ == player_state_bytes(*e),
{
    let mut out: Vec<u8> = Vec::new();
    push_le32(&mut out, e.ref_id);
    push_le32(&mut out, e.pos[0]);
    push_le32(&mut out, e.pos[1]);
    push_le32(&mut out, e.pos[2]);
    push_le32(&mut out, e.angle[0]);
    push_le32(&mut out, e.angle[1]);
    push_le32(&mut out, e.angle[2]);
    push_le32(&mut out, e.idle);
    out.push(e.moving);
    out.push(e.moving_xy);
    out.push(e.weapon);
    out.push(if e.alerted { 1u8 } else { 0u8 });
    out.push(if e.sneaking { 1u8 } else { 0u8 });
    out.push(0u8);
    out.push(0u8);
    out.push(0u8);
    push_le32(&mut out, e.health);
    assert(out@ =~= player_state_bytes(*e));
    out
}

/// Encodes an event frame from an event type and its record.
pub fn encode_event(event_type: u32, record: &[u8]) -> (r: Vec<u8>)
    ensures
        r@ == event_frame_bytes(event_type, record@),
{
    let mut payload: Vec<u8> = Vec::new();
    push_le32(&mut payload, event_type);
    push_all(&mut payload, record);
    encode_frame(PIPE_OP_EVENT, payload.as_slice())
}

/// Encodes an own-player state event frame.
pub fn encode_player_state_event(e: &PlayerStateEvent) -> (r: Vec<u8>)
    ensures
        r@ == event_frame_bytes(EVENT_PLAYER_STATE, player_state_bytes(*e)),
{
    let record = player_state_record(e);
    encode_event(EVENT_PLAYER_STATE, record.as_slice())
}

/// Encodes an owned-NPC state event frame (same record as the player's).
pub fn encode_npc_state_event(e: &PlayerStateEvent) -> (r: Vec<u8>)
    ensures
        r@ == event_frame_bytes(EVENT_NPC_STATE, player_state_bytes(*e)),
{
    let record = player_state_record(e);
    encode_event(EVENT_NPC_STATE, record.as_slice())
}

/// Encodes an NPC spawn event frame.
pub fn encode_npc_spawn_event(e: &NpcSpawnEvent) -> (r: Vec<u8>)
    ensures
        r@ == event_frame_bytes(EVENT_NPC_SPAWN, npc_spawn_bytes(*e)),
{
    let mut out: Vec<u8> = Vec::new();
    push_le32(&mut out, e.ref_id);
    push_le32(&mut out, e.base_id);
    push_le32(&mut out, e.pos[0]);
    push_le32(&mut out, e.pos[1]);
    push_le32(&mut out, e.pos[2]);
    push_le32(&mut out, e.cell);
    assert(out@ =~= npc_spawn_bytes(*e));
    encode_event(EVENT_NPC_SPAWN, out.as_slice())
}

/// Encodes an NPC removal event frame.
pub fn encode_npc_remove_event(e: &NpcRemoveEvent) -> (r: Vec<u8>)
    ensures
        r@ == event_frame_bytes(EVENT_NPC_REMOVE, le32(e.ref_id)),
{
    encode_ref_event(EVENT_NPC_REMOVE, e.ref_id)
}

/// Encodes an event frame whose record is a single ref id.
pub fn encode_ref_event(event_type: u32, ref_id: u32) -> (r: Vec<u8>)
    ensures
        r@ == event_frame_bytes(event_type, le32(ref_id)),
{
    let rec = crate::bytes::u32_to_le(ref_id);
    encode_event(event_type, &rec)
}

/// Decodes a state-sample record; `None` when shorter than 44 bytes.
pub fn decode_player_state(data: &[u8]) -> (r: Option<PlayerStateEvent>)
    ensures
        data.len() < PLAYER_STATE_SIZE <==> r is None,
        r matches Some(e) ==> e == player_state_of(data@),
{
    if data.len() < PLAYER_STATE_SIZE {
        return None;
    }
    Some(
        PlayerStateEvent {
            ref_id: read_u32(data, 0),
            pos: [read_u32(data, 4), read_u32(data, 8), read_u32(data, 12)],
            angle: [read_u32(data, 16), read_u32(data, 20), read_u32(data, 24)],
            idle: read_u32(data, 28),
            moving: data[32],
            moving_xy: data[33],
            weapon: data[34],
            alerted: data[35] != 0,
            sneaking: data[36] != 0,
            health: read_u32(data, 40),
        },
    )
}

/// Decodes an NPC-spawn record; `None` when shorter than 24 bytes.
pub fn decode_npc_spawn(data: &[u8]) -> (r: Option<NpcSpawnEvent>)
    ensures
        data.len() < NPC_SPAWN_SIZE <==> r is None,
        r matches Some(e) ==> e == npc_spawn_of(data@),
{
    if data.len() < NPC_SPAWN_SIZE {
        return None;
    }
    Some(
        NpcSpawnEvent {
            ref_id: read_u32(data, 0),
            base_id: read_u32(data, 4),
            pos: [read_u32(data, 8), read_u32(data, 12), read_u32(data, 16)],
            cell: read_u32(data, 20),
        },
    )
}

/// Decodes an NPC-removal record; `None` when shorter than 4 bytes.
pub fn decode_npc_remove(data: &[u8]) -> (r: Option<NpcRemoveEvent>)
    ensures
        data.len() < 4 <==> r is None,
        r matches Some(e) ==> e.ref_id == u32_at(data@, 0),
{
    match decode_ref_event(data) {
        Some(ref_id) => Some(NpcRemoveEvent { ref_id }),
        None => None,
    }
}

/// Decodes a single-ref-id record; `None` when shorter than 4 bytes.
pub fn decode_ref_event(data: &[u8]) -> (r: Option<u32>)
    ensures
        data.len() < 4 <==> r is None,
        r matches Some(id) ==> id == u32_at(data@, 0),
{
    if data.len() < 4 {
        return None;
    }
    Some(read_u32(data, 0))
}

/// Reading back the record of a state sample gives the sample.
#[verifier::rlimit(40)]
#[verifier::spinoff_prover]
pub proof fn law_player_state_roundtrip(e: PlayerStateEvent)
    ensures
        player_state_bytes(e).len() == PLAYER_STATE_SIZE,
        player_state_of(player_state_bytes(e)) == e,
{
    let d = player_state_bytes(e);
    crate::bytes::lemma_le32_roundtrip(e.ref_id);
    crate::bytes::lemma_le32_roundtrip(e.pos[0]);
    crate::bytes::lemma_le32_roundtrip(e.pos[1]);
    crate::bytes::lemma_le32_roundtrip(e.pos[2]);
    crate::bytes::lemma_le32_roundtrip(e.angle[0]);
    crate::bytes::lemma_le32_roundtrip(e.angle[1]);
    crate::bytes::lemma_le32_roundtrip(e.angle[2]);
    crate::bytes::lemma_le32_roundtrip(e.idle);
    crate::bytes::lemma_le32_roundtrip(e.health);
    let p = player_state_of(d);
    assert(p.pos =~= e.pos);
    assert(p.angle =~= e.angle);
}

/// A little-endian u32 placed after any prefix reads back at that offset.
pub proof fn lemma_u32_at_concat(prefix: Seq<u8>, x: u32, suffix: Seq<u8>)
    ensures
        u32_at(prefix + le32(x) + suffix, prefix.len() as int) == x,
{
    let s = prefix + le32(x) + suffix;
    let k = prefix.len() as int;
    assert(s[k] == le32(x)[0]);
    assert(s[k + 1] == le32(x)[1]);
    assert(s[k + 2] == le32(x)[2]);
    assert(s[k + 3] == le32(x)[3]);
    crate::bytes::lemma_le32_roundtrip(x);
}

/// Reading back the record of an NPC spawn gives the spawn.
pub proof fn law_npc_spawn_roundtrip(e: NpcSpawnEvent)
    ensures
        npc_spawn_bytes(e).len() == NPC_SPAWN_SIZE,
        npc_spawn_of(npc_spawn_bytes(e)) == e,
{
    let d = npc_spawn_bytes(e);
    let e0 = Seq::<u8>::empty();
    let a = le32(e.ref_id);
    let b = le32(e.base_id);
    let c0 = le32(e.pos[0]);
    let c1 = le32(e.pos[1]);
    let c2 = le32(e.pos[2]);
    let f = le32(e.cell);
    assert(d =~= e0 + a + (b + c0 + c1 + c2 + f));
    lemma_u32_at_concat(e0, e.ref_id, b + c0 + c1 + c2 + f);
    assert(d =~= a + b + (c0 + c1 + c2 + f));
    lemma_u32_at_concat(a, e.base_id, c0 + c1 + c2 + f);
    assert(d =~= (a + b) + c0 + (c1 + c2 + f));
    lemma_u32_at_concat(a + b, e.pos[0], c1 + c2 + f);
    assert(d =~= (a + b + c0) + c1 + (c2 + f));
    lemma_u32_at_concat(a + b + c0, e.pos[1], c2 + f);
    assert(d =~= (a + b + c0 + c1) + c2 + f);
    lemma_u32_at_concat(a + b + c0 + c1, e.pos[2], f);
    assert(d =~= (a + b + c0 + c1 + c2) + f + e0);
    lemma_u32_at_concat(a + b + c0 + c1 + c2, e.cell, e0);
    let p = npc_spawn_of(d);
    assert(p.pos =~= e.pos);
}

/// An event frame splits back into one event frame whose payload decodes to
/// the event type and the record.
pub proof fn law_event_frame_roundtrip(event_type: u32, record: Seq<u8>)
    requires
        record.len() + 4 < 65536,
    ensures
        complete_frames(event_frame_bytes(event_type, record)) == seq![
            (PIPE_OP_EVENT, le32(event_type) + record),
        ],
        leftover(event_frame_bytes(event_type, record)) == Seq::<u8>::empty(),
        u32_at(le32(event_type) + record, 0) == event_type,
        (le32(event_type) + record).skip(4) == record,
{
    let payload = le32(event_type) + record;
    lemma_frame_then_rest(PIPE_OP_EVENT, payload, Seq::empty());
    assert(frame_bytes(PIPE_OP_EVENT, payload) + Seq::<u8>::empty() =~= event_frame_bytes(
        event_type,
        record,
    ));
    assert(complete_frames(Seq::<u8>::empty()) =~= Seq::<(u8, Seq<u8>)>::empty());
    assert(seq![(PIPE_OP_EVENT, payload)] + Seq::<(u8, Seq<u8>)>::empty() =~= seq![
        (PIPE_OP_EVENT, payload),
    ]);
    lemma_u32_at_concat(Seq::empty(), event_type, record);
    assert(Seq::<u8>::empty() + le32(event_type) + record =~= payload);
    assert(payload.skip(4) =~= record);
}

/// Pipe frame layout: two length bytes (low byte first) counting the
/// payload, then the opcode, then the payload itself.
pub proof fn law_frame_layout(opcode: u8, payload: Seq<u8>)
    ensures
        frame_bytes(opcode, payload).len() == payload.len() + 3,
        frame_bytes(opcode, payload)[0] + 256 * frame_bytes(opcode, payload)[1] == payload.len() % 65536,
        frame_bytes(opcode, payload)[2] == opcode,
        frame_bytes(opcode, payload).skip(3) == payload,
{
    assert(frame_bytes(opcode, payload).skip(3) =~= payload);
}

/// Layout of a state-sample record (the engine struct's C layout): the ref
/// id at byte 0, position at 4, 8, 12, rotation at 16, 20, 24, idle at 28,
/// movement, diagonal movement and weapon bytes at 32, 33, 34, the alert
/// and sneak flags (0 or 1) at 35 and 36, health at 40; 44 bytes in all.
#[verifier::rlimit(60)]
#[verifier::spinoff_prover]
pub proof fn law_player_state_layout(e: PlayerStateEvent)
    ensures
        ({
            let d = player_state_bytes(e);
            &&& d.len() == 44
            &&& u32_at(d, 0) == e.ref_id
            &&& u32_at(d, 4) == e.pos[0] && u32_at(d, 8) == e.pos[1] && u32_at(d, 12) == e.pos[2]
            &&& u32_at(d, 16) == e.angle[0] && u32_at(d, 20) == e.angle[1] && u32_at(d, 24) == e.angle[2]
            &&& u32_at(d, 28) == e.idle
            &&& d[32] == e.moving && d[33] == e.moving_xy && d[34] == e.weapon
            &&& d[35] == (if e.alerted { 1u8 } else { 0u8 })
            &&& d[36] == (if e.sneaking { 1u8 } else { 0u8 })
            &&& u32_at(d, 40) == e.health
        }),
{
    let d = player_state_bytes(e);
    let head = le32(e.ref_id) + le32(e.pos[0]) + le32(e.pos[1]) + le32(e.pos[2]) + le32(e.angle[0])
        + le32(e.angle[1]) + le32(e.angle[2]) + le32(e.idle);
    let mid = seq![e.moving, e.moving_xy, e.weapon, flag_byte(e.alerted), flag_byte(e.sneaking), 0u8, 0u8, 0u8];
    assert(d == head + mid + le32(e.health));
    assert(head.len() == 32);
    assert(d[32] == mid[0] && d[33] == mid[1] && d[34] == mid[2] && d[35] == mid[3] && d[36] == mid[4]);
    lemma_u32_at_concat(head + mid, e.health, Seq::<u8>::empty());
    assert(head + mid + le32(e.health) + Seq::<u8>::empty() =~= d);
    let t = mid + le32(e.health);
    let a = le32(e.ref_id);
    let p0 = le32(e.pos[0]);
    let p1 = le32(e.pos[1]);
    let p2 = le32(e.pos[2]);
    let a0 = le32(e.angle[0]);
    let a1 = le32(e.angle[1]);
    let a2 = le32(e.angle[2]);
    let id = le32(e.idle);
    let z = Seq::<u8>::empty();
    assert(d =~= z + a + (p0 + p1 + p2 + a0 + a1 + a2 + id + t));
    lemma_u32_at_concat(z, e.ref_id, p0 + p1 + p2 + a0 + a1 + a2 + id + t);
    assert(d =~= a + p0 + (p1 + p2 + a0 + a1 + a2 + id + t));
    lemma_u32_at_concat(a, e.pos[0], p1 + p2 + a0 + a1 + a2 + id + t);
    assert(d =~= (a + p0) + p1 + (p2 + a0 + a1 + a2 + id + t));
    lemma_u32_at_concat(a + p0, e.pos[1], p2 + a0 + a1 + a2 + id + t);
    assert(d =~= (a + p0 + p1) + p2 + (a0 + a1 + a2 + id + t));
    lemma_u32_at_concat(a + p0 + p1, e.pos[2], a0 + a1 + a2 + id + t);
    assert(d =~= (a + p0 + p1 + p2) + a0 + (a1 + a2 + id + t));
    lemma_u32_at_concat(a + p0 + p1 + p2, e.angle[0], a1 + a2 + id + t);
    assert(d =~= (a + p0 + p1 + p2 + a0) + a1 + (a2 + id + t));
    lemma_u32_at_concat(a + p0 + p1 + p2 + a0, e.angle[1], a2 + id + t);
    assert(d =~= (a + p0 + p1 + p2 + a0 + a1) + a2 + (id + t));
    lemma_u32_at_concat(a + p0 + p1 + p2 + a0 + a1, e.angle[2], id + t);
    assert(d =~= (a + p0 + p1 + p2 + a0 + a1 + a2) + id + t);
    lemma_u32_at_concat(a + p0 + p1 + p2 + a0 + a1 + a2, e.idle, t);
}

} // verus!
