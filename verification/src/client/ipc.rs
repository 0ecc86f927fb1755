//! Bridge command encoding on the client side: opcodes, parameters,
//! results and the client's half of the pipe protocol (request framing,
//! splitting the reply stream, matching replies to requests). Floating-point
//! parameters and results are IEEE-754 single-precision bit patterns.
use vstd::prelude::*;
use crate::bytes::{le32, push_le32, push_all, copy_range};
use crate::event::{u32_at, read_u32, PipeFrame, frames_view, frame_bytes, complete_frames, leftover, encode_frame, split_frames, stream_bytes};

verus! {

pub const OP_GET_POS: u32 = 0x0001;
pub const OP_SET_POS: u32 = 0x0002;
pub const OP_GET_ANGLE: u32 = 0x0003;
pub const OP_SET_ANGLE: u32 = 0x0004;
pub const OP_GET_CELL: u32 = 0x0005;
pub const OP_SET_CELL: u32 = 0x0006;
pub const OP_GET_ACTOR_STATE: u32 = 0x0007;
pub const OP_GET_ACTOR_VALUE: u32 = 0x0008;
pub const OP_SET_ACTOR_VALUE: u32 = 0x0009;
pub const OP_GET_CONTROL: u32 = 0x000A;
pub const OP_SET_CONTROL: u32 = 0x000B;
pub const OP_GET_ACTIVATE: u32 = 0x000C;
pub const OP_FIRE_WEAPON: u32 = 0x000D;
pub const OP_GET_NAME: u32 = 0x000E;
pub const OP_SET_NAME: u32 = 0x000F;
pub const OP_GET_LOCK: u32 = 0x0012;
pub const OP_SET_LOCK: u32 = 0x0013;
pub const OP_SET_ENABLED: u32 = 0x0011;
pub const OP_MOVE_TO: u32 = 0x0014;
pub const OP_PLAY_SOUND: u32 = 0x0015;
pub const OP_SET_SCALE: u32 = 0x002B;
pub const OP_PLAY_GROUP: u32 = 0x0028;
pub const OP_KILL: u32 = 0x0023;
pub const OP_TRACK_ACTOR: u32 = 0x00F6;
pub const OP_UNTRACK_ACTOR: u32 = 0x00F5;

/// A parameter of a bridge command.
#[derive(Debug, Clone, PartialEq, Eq)]
pub enum Param {
    U32(u32),
    I32(i32),
    /// A float, as its bit pattern.
    F32(u32),
    Bool(bool),
    Str(String),
    /// A single byte (actor-value index, limb, cause).
    U8(u8),
}

/// Wire bytes of a parameter: little-endian integers and floats, one byte
/// for `U8` and `Bool`, and a string as its UTF-8 length (modulo 256) then
/// its UTF-8 bytes.
pub open spec fn param_bytes(p: Param) -> Seq<u8> {
    match p {
        Param::U32(v) => le32(v),
        Param::I32(v) => le32(v as u32),
        Param::F32(v) => le32(v),
        Param::U8(v) => seq![v],
        Param::Bool(v) => seq![if v { 1u8 } else { 0u8 }],
        Param::Str(s) => seq![(vstd::utf8::encode_utf8(s@).len() % 256) as u8]
            + vstd::utf8::encode_utf8(s@),
    }
}

impl Param {
    /// Appends the wire bytes of this parameter.
    pub fn encode_into(&self, buf: &mut Vec<u8>)
        ensures
            final(buf)@ == old(buf)@ + param_bytes(*self),
    {
        match self {
            Param::U32(v) => push_le32(buf, *v),
            Param::I32(v) => push_le32(buf, *v as u32),
            Param::F32(v) => push_le32(buf, *v),
            Param::U8(v) => {
                buf.push(*v);
                assert(final(buf)@ =~= old(buf)@ + param_bytes(*self));
            },
            Param::Bool(v) => {
                buf.push(if *v { 1 } else { 0 });
                assert(final(buf)@ =~= old(buf)@ + param_bytes(*self));
            },
            Param::Str(s) => {
                let bytes = s.as_str().as_bytes();
                buf.push((bytes.len() % 256) as u8);
                push_all(buf, bytes);
                assert(final(buf)@ =~= old(buf)@ + param_bytes(*self));
            },
        }
    }
}

/// Result of a bridge command.
#[derive(Debug, Clone, PartialEq, Eq)]
pub enum CommandResult {
    /// Float values (position, angle, actor value), as bit patterns.
    Floats(Vec<u32>),
    Int(i32),
    Text(String),
    ActorState { idle: u32, moving: u8, weapon: u8, flags: u8, alerted: bool, sneaking: bool },
    /// The command succeeded with no value.
    Success,
    Error(String),
}

/// What a result payload decodes to: nothing or fewer than 12 bytes is a
/// plain success; 12 bytes or more are read as three little-endian floats.
pub open spec fn decoded_floats(data: Seq<u8>) -> Option<Seq<u32>> {
    if data.len() >= 12 {
        Some(seq![u32_at(data, 0), u32_at(data, 4), u32_at(data, 8)])
    } else {
        None
    }
}

impl CommandResult {
    /// Decodes a command result from the bytes of a return frame after its
    /// key.
    pub fn decode(data: &[u8]) -> (r: CommandResult)
        ensures
            match decoded_floats(data@) {
                Some(fs) => r matches CommandResult::Floats(v) && v@ == fs,
                None => r is Success,
            },
    {
        if data.len() == 0 {
            return CommandResult::Success;
        }
        if data.len() >= 12 {
            let mut floats: Vec<u32> = Vec::new();
            floats.push(read_u32(data, 0));
            floats.push(read_u32(data, 4));
            floats.push(read_u32(data, 8));
            assert(floats@ =~= seq![u32_at(data@, 0), u32_at(data@, 4), u32_at(data@, 8)]);
            CommandResult::Floats(floats)
        } else {
            CommandResult::Success
        }
    }
}

/// How the client reaches the game's bridge.
#[derive(Debug, Clone, PartialEq, Eq)]
pub enum IpcMode {
    /// The bridge inside Proton/Wine, over TCP loopback.
    Proton { port: u16 },
    /// A native engine stub, over a Unix socket at `path`.
    Native { path: String },
    /// No engine: canned responses.
    Stub,
}

/// Unix socket path of the native engine bridge.
pub open spec fn native_socket_path() -> Seq<char> {
    "/tmp/ashfall-ipc.sock"@
}

/// The bridge connection a configured mode names: "unix" the native
/// socket, "tcp" the Proton bridge on `ipc_port`, anything else the stub.
pub fn ipc_mode_for(mode: &str, ipc_port: u16) -> (r: IpcMode)
    ensures
        mode@ == "unix"@ ==> (r matches IpcMode::Native { path } && path@ == native_socket_path()),
        mode@ == "tcp"@ ==> r == (IpcMode::Proton { port: ipc_port }),
        mode@ != "unix"@ && mode@ != "tcp"@ ==> r == IpcMode::Stub,
{
    proof {
        reveal_strlit("unix");
        reveal_strlit("tcp");
        reveal_strlit("/tmp/ashfall-ipc.sock");
        assert("unix"@.len() != "tcp"@.len());
    }
    if crate::text::str_eq(mode, "unix") {
        IpcMode::Native { path: "/tmp/ashfall-ipc.sock".to_owned() }
    } else if crate::text::str_eq(mode, "tcp") {
        IpcMode::Proton { port: ipc_port }
    } else {
        IpcMode::Stub
    }
}

impl Default for IpcMode {
    fn default() -> (r: IpcMode)
        ensures
            r == (IpcMode::Proton { port: 1771 }),
    {
        IpcMode::Proton { port: 1771 }
    }
}

/// Wakes the bridge.
pub const PIPE_SYS_WAKEUP: u8 = 0x01;
/// A command request.
pub const PIPE_OP_COMMAND: u8 = 0x02;
/// A command's reply: the request key, then the result.
pub const PIPE_OP_RETURN: u8 = 0x03;
/// A large reply.
pub const PIPE_OP_RETURN_BIG: u8 = 0x04;
/// A raw reply.
pub const PIPE_OP_RETURN_RAW: u8 = 0x05;
/// The bridge is closing the pipe.
pub const PIPE_ERROR_CLOSE: u8 = 0x06;
/// An engine event.
pub const PIPE_OP_EVENT: u8 = 0x07;

/// Wire bytes of a parameter list, in order.
pub open spec fn params_bytes(ps: Seq<Param>) -> Seq<u8>
    decreases ps.len(),
{
    if ps.len() == 0 {
        Seq::empty()
    } else {
        params_bytes(ps.drop_last()) + param_bytes(ps.last())
    }
}

/// Payload of a command request: key, opcode, the parameter count modulo
/// 256, then the parameters.
pub open spec fn command_payload(key: u32, opcode: u32, ps: Seq<Param>) -> Seq<u8> {
    le32(key) + le32(opcode) + seq![(ps.len() % 256) as u8] + params_bytes(ps)
}

/// The event frames among `fs`, in order.
pub open spec fn routed_events(fs: Seq<(u8, Seq<u8>)>) -> Seq<(u8, Seq<u8>)>
    decreases fs.len(),
{
    if fs.len() == 0 {
        Seq::empty()
    } else if fs.last().0 == PIPE_OP_EVENT {
        routed_events(fs.drop_last()).push(fs.last())
    } else {
        routed_events(fs.drop_last())
    }
}

/// The payloads of the reply frames among `fs`, in order.
pub open spec fn routed_returns(fs: Seq<(u8, Seq<u8>)>) -> Seq<Seq<u8>>
    decreases fs.len(),
{
    if fs.len() == 0 {
        Seq::empty()
    } else if fs.last().0 == PIPE_OP_RETURN {
        routed_returns(fs.drop_last()).push(fs.last().1)
    } else {
        routed_returns(fs.drop_last())
    }
}

/// Whether a reply payload answers request `key`.
pub open spec fn answers(p: Seq<u8>, key: u32) -> bool {
    p.len() >= 4 && u32_at(p, 0) == key
}

/// Index of the first reply that answers `key`.
pub open spec fn first_answer(rs: Seq<Seq<u8>>, key: u32) -> Option<int>
    decreases rs.len(),
{
    if rs.len() == 0 {
        None
    } else if answers(rs[0], key) {
        Some(0)
    } else {
        match first_answer(rs.drop_first(), key) {
            Some(i) => Some(i + 1),
            None => None,
        }
    }
}

/// The client's pipe state as plain values.
#[verifier::ext_equal]
pub struct IpcView {
    pub next_key: u32,
    /// Reply payloads not yet claimed, oldest first.
    pub returns: Seq<Seq<u8>>,
    /// Bytes of a frame whose rest has not arrived.
    pub read_buf: Seq<u8>,
    /// Event frames not yet taken, oldest first.
    pub events: Seq<(u8, Seq<u8>)>,
}

/// The client's side of the bridge pipe: request keys, the reply stream
/// split into frames, replies waiting to be claimed and events waiting to
/// be taken. The caller moves the bytes.
pub struct IpcClient {
    next_key: u32,
    returns: Vec<Vec<u8>>,
    read_buf: Vec<u8>,
    event_buf: Vec<PipeFrame>,
}

/// Reply payloads as byte sequences.
pub open spec fn returns_view(v: Seq<Vec<u8>>) -> Seq<Seq<u8>> {
    v.map_values(|p: Vec<u8>| p@)
}

impl IpcClient {
    /// The state as plain values.
    pub closed spec fn view(&self) -> IpcView {
        IpcView {
            next_key: self.next_key,
            returns: returns_view(self.returns@),
            read_buf: self.read_buf@,
            events: frames_view(self.event_buf@),
        }
    }

    /// Keys start at 1; nothing received yet.
    pub fn new() -> (r: IpcClient)
        ensures
            r.view().next_key == 1,
            r.view().returns == Seq::<Seq<u8>>::empty(),
            r.view().read_buf == Seq::<u8>::empty(),
            r.view().events == Seq::<(u8, Seq<u8>)>::empty(),
    {
        let r = IpcClient { next_key: 1, returns: Vec::new(), read_buf: Vec::new(), event_buf: Vec::new() };
        assert(r.view().returns =~= Seq::<Seq<u8>>::empty());
        assert(r.view().events =~= Seq::<(u8, Seq<u8>)>::empty());
        r
    }

    /// Takes the next request key and frames a command request under it.
    /// Keys count up, wrapping after `u32::MAX`.
    pub fn command_request(&mut self, opcode: u32, params: &[Param]) -> (r: (u32, Vec<u8>))
        ensures
            r.0 == old(self).view().next_key,
            r.1@ == frame_bytes(PIPE_OP_COMMAND, command_payload(r.0, opcode, params@)),
            final(self).view() == (IpcView {
                next_key: (if old(self).view().next_key == u32::MAX { 0 } else { (old(self).view().next_key + 1) as u32 }),
                ..old(self).view()
            }),
    {
        let key = self.next_key;
        self.next_key = if key == u32::MAX { 0 } else { key + 1 };
        let mut payload: Vec<u8> = Vec::new();
        push_le32(&mut payload, key);
        push_le32(&mut payload, opcode);
        payload.push((params.len() % 256) as u8);
        let ghost head = payload@;
        let mut i: usize = 0;
        while i < params.len()
            invariant
                i <= params@.len(),
                payload@ == head + params_bytes(params@.take(i as int)),
            decreases params@.len() - i,
        {
            let ghost before = payload@;
            params[i].encode_into(&mut payload);
            assert(params@.take(i as int + 1).drop_last() =~= params@.take(i as int));
            assert(payload@ =~= head + params_bytes(params@.take(i as int + 1)));
            i = i + 1;
        }
        assert(params@.take(i as int) =~= params@);
        assert(payload@ =~= command_payload(key, opcode, params@));
        let request = encode_frame(PIPE_OP_COMMAND, payload.as_slice());
        (key, request)
    }

    /// Adds freshly read bytes: complete frames are split off, events are
    /// kept for `take_events`, replies for `take_return`, other frames are
    /// dropped, and an incomplete frame waits for the rest.
    pub fn ingest(&mut self, data: &[u8])
        ensures
            final(self).view() == ({
                let buf = old(self).view().read_buf + data@;
                IpcView {
                    next_key: old(self).view().next_key,
                    returns: old(self).view().returns + routed_returns(complete_frames(buf)),
                    read_buf: leftover(buf),
                    events: old(self).view().events + routed_events(complete_frames(buf)),
                }
            }),
    {
        let ghost buf = self.read_buf@ + data@;
        push_all(&mut self.read_buf, data);
        let (frames, rest) = split_frames(self.read_buf.as_slice());
        let ghost fs = frames_view(frames@);
        let rest_vec = copy_range(rest, 0, rest.len());
        assert(rest_vec@ =~= leftover(buf));
        let ghost r0 = returns_view(self.returns@);
        let ghost e0 = frames_view(self.event_buf@);
        let mut i: usize = 0;
        let mut frames = frames;
        while i < frames.len()
            invariant
                i <= frames@.len(),
                fs == frames_view(frames@),
                self.next_key == old(self).next_key,
                self.read_buf@ == buf,
                returns_view(self.returns@) == r0 + routed_returns(fs.take(i as int)),
                frames_view(self.event_buf@) == e0 + routed_events(fs.take(i as int)),
            decreases frames@.len() - i,
        {
            assert(fs.take(i as int + 1).drop_last() =~= fs.take(i as int));
            assert(fs.take(i as int + 1).last() == frames@[i as int].view_pair());
            let op = frames[i].opcode;
            if op == PIPE_OP_EVENT {
                let f = PipeFrame { opcode: op, payload: copy_range(frames[i].payload.as_slice(), 0, frames[i].payload.len()) };
                assert(f.payload@ =~= frames@[i as int].payload@);
                let ghost ev = self.event_buf@;
                self.event_buf.push(f);
                assert(frames_view(self.event_buf@) =~= frames_view(ev).push(f.view_pair()));
            } else if op == PIPE_OP_RETURN {
                let p = copy_range(frames[i].payload.as_slice(), 0, frames[i].payload.len());
                assert(p@ =~= frames@[i as int].payload@);
                let ghost rv = self.returns@;
                self.returns.push(p);
                assert(returns_view(self.returns@) =~= returns_view(rv).push(p@));
            }
            i = i + 1;
        }
        assert(fs.take(i as int) =~= fs);
        self.read_buf = rest_vec;
        assert(self.view() =~= IpcView {
            next_key: old(self).view().next_key,
            returns: old(self).view().returns + routed_returns(complete_frames(buf)),
            read_buf: leftover(buf),
            events: old(self).view().events + routed_events(complete_frames(buf)),
        });
    }

    /// Claims the first reply to request `key`: its payload after the key.
    pub fn take_return(&mut self, key: u32) -> (r: Option<Vec<u8>>)
        ensures
            final(self).view().next_key == old(self).view().next_key,
            final(self).view().read_buf == old(self).view().read_buf,
            final(self).view().events == old(self).view().events,
            match first_answer(old(self).view().returns, key) {
                Some(i) => {
                    &&& r matches Some(v) && v@ == old(self).view().returns[i].skip(4)
                    &&& final(self).view().returns == old(self).view().returns.remove(i)
                },
                None => r is None && final(self).view().returns == old(self).view().returns,
            },
    {
        let ghost rs = returns_view(self.returns@);
        let mut i: usize = 0;
        assert(rs.skip(0) =~= rs);
        while i < self.returns.len()
            invariant
                i <= self.returns@.len(),
                *self == *old(self),
                rs == returns_view(self.returns@),
                first_answer(rs, key) == (match first_answer(rs.skip(i as int), key) {
                    Some(j) => Some(j + i),
                    None => None::<int>,
                }),
            decreases self.returns@.len() - i,
        {
            assert(rs.skip(i as int)[0] == rs[i as int]);
            assert(rs.skip(i as int).drop_first() =~= rs.skip(i as int + 1));
            let p = &self.returns[i];
            if p.len() >= 4 && read_u32(p.as_slice(), 0) == key {
                let payload = self.returns.remove(i);
                let tail = copy_range(payload.as_slice(), 4, payload.len());
                assert(tail@ =~= rs[i as int].skip(4));
                assert(returns_view(self.returns@) =~= rs.remove(i as int));
                return Some(tail);
            }
            i = i + 1;
        }
        assert(rs.skip(i as int) =~= Seq::<Seq<u8>>::empty());
        None
    }

    /// Takes the event frames received so far, oldest first.
    pub fn take_events(&mut self) -> (r: Vec<PipeFrame>)
        ensures
            frames_view(r@) == old(self).view().events,
            final(self).view() == (IpcView { events: Seq::<(u8, Seq<u8>)>::empty(), ..old(self).view() }),
    {
        let mut r: Vec<PipeFrame> = Vec::new();
        std::mem::swap(&mut r, &mut self.event_buf);
        assert(frames_view(self.event_buf@) =~= Seq::<(u8, Seq<u8>)>::empty());
        r
    }
}

/// No reply in `rs` answers `key`.
proof fn lemma_first_answer_append(rs: Seq<Seq<u8>>, p: Seq<u8>, key: u32)
    requires
        first_answer(rs, key) is None,
        answers(p, key),
    ensures
        first_answer(rs.push(p), key) == Some(rs.len() as int),
    decreases rs.len(),
{
    if rs.len() == 0 {
        assert(rs.push(p)[0] == p);
    } else {
        assert(rs.push(p).drop_first() =~= rs.drop_first().push(p));
        lemma_first_answer_append(rs.drop_first(), p, key);
    }
}

/// A reply the bridge frames for request `key` reaches that request: once
/// its bytes are ingested into a client with nothing buffered and no other
/// reply to `key` waiting, claiming `key` gives back exactly the result
/// bytes.
pub proof fn law_reply_reaches_its_request(v: IpcView, key: u32, result: Seq<u8>)
    requires
        v.read_buf.len() == 0,
        first_answer(v.returns, key) is None,
        4 + result.len() < 65536,
    ensures
        ({
            let buf = v.read_buf + frame_bytes(PIPE_OP_RETURN, le32(key) + result);
            let waiting = v.returns + routed_returns(complete_frames(buf));
            &&& leftover(buf) == Seq::<u8>::empty()
            &&& routed_events(complete_frames(buf)) == Seq::<(u8, Seq<u8>)>::empty()
            &&& first_answer(waiting, key) == Some(v.returns.len() as int)
            &&& waiting[v.returns.len() as int].skip(4) == result
        }),
{
    let payload = le32(key) + result;
    let frames = seq![(PIPE_OP_RETURN, payload)];
    assert(stream_bytes(frames) =~= frame_bytes(PIPE_OP_RETURN, payload)) by {
        reveal_with_fuel(stream_bytes, 2);
    }
    crate::event::law_split_recovers_encoded_frames(frames);
    let buf = v.read_buf + frame_bytes(PIPE_OP_RETURN, payload);
    assert(buf =~= frame_bytes(PIPE_OP_RETURN, payload));
    assert(frames.drop_last() =~= Seq::<(u8, Seq<u8>)>::empty());
    assert(frames.last() == (PIPE_OP_RETURN, payload));
    assert(routed_returns(frames) =~= seq![payload]) by {
        reveal_with_fuel(routed_returns, 2);
    }
    assert(routed_events(frames) =~= Seq::<(u8, Seq<u8>)>::empty()) by {
        reveal_with_fuel(routed_events, 2);
    }
    crate::bytes::lemma_le32_roundtrip(key);
    assert(payload.subrange(0, 4) =~= le32(key));
    assert(answers(payload, key));
    assert(v.returns + seq![payload] =~= v.returns.push(payload));
    lemma_first_answer_append(v.returns, payload, key);
    assert(payload.skip(4) =~= result);
}

} // verus!
