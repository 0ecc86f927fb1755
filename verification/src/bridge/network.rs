//! Bridge side of the pipe protocol.
//!
//! The bridge answers commands from the native client over a loopback TCP
//! stream of length-prefixed frames and pushes engine events on the same
//! stream. This module holds the bridge's state (queued event frames, the
//! NPCs it samples, the report throttle, engine calls waiting for the game
//! thread) and every decision of the connection loop; the socket itself is
//! driven by the host.
use vstd::prelude::*;
use crate::bytes::{le32, push_le32, push_all};
use crate::event::{
    PipeFrame, PlayerStateEvent, frame_bytes, event_frame_bytes, player_state_bytes,
    complete_frames, leftover, frames_view, encode_frame, split_frames, read_u32,
    encode_player_state_event, encode_npc_state_event, EVENT_PLAYER_STATE, EVENT_NPC_STATE,
};
use crate::bridge::commands::{execute, execute_spec};

verus! {

/// Keep-alive; echoed back.
pub const PIPE_SYS_WAKEUP: u8 = 0x01;
/// Command from the client: `[key:4][func:4][param_count:1][params...]`.
pub const PIPE_OP_COMMAND: u8 = 0x02;
/// Reply to a command: `[key:4][result...]`.
pub const PIPE_OP_RETURN: u8 = 0x03;
/// Reply carrying a large result.
pub const PIPE_OP_RETURN_BIG: u8 = 0x04;
/// Reply carrying raw binary data.
pub const PIPE_OP_RETURN_RAW: u8 = 0x05;
/// Error / close of the conversation.
pub const PIPE_ERROR_CLOSE: u8 = 0x06;
/// Engine event pushed to the client: `[event_type:4][record...]`.
pub const PIPE_OP_EVENT: u8 = 0x07;

/// Reference id of the local player.
pub const LOCAL_PLAYER_REF: u32 = 0x14;
/// Actor value index of health.
pub const AV_HEALTH: u8 = 0x14;
/// Smallest gap between two player-state reports (10 Hz).
pub const REPORT_INTERVAL_MS: u64 = 100;

/// Abstract state of the bridge.
pub struct BridgeView {
    /// Event frames waiting to be sent, oldest first.
    pub events: Seq<Seq<u8>>,
    /// NPCs this client simulates, in the order they were first tracked.
    pub owned: Seq<u32>,
    /// Time of the last player-state report, in milliseconds.
    pub last_report: Option<u64>,
    /// Commands waiting to run on the game thread, oldest first.
    pub pending: Seq<(u32, Seq<u8>)>,
    /// The engine's references as last observed (one state per ref id);
    /// commands read and write these.
    pub world: Seq<PlayerStateEvent>,
}

/// The bridge's state.
#[derive(Debug, Clone)]
pub struct Bridge {
    events: Vec<Vec<u8>>,
    owned: Vec<u32>,
    last_report: Option<u64>,
    pending: Vec<(u32, Vec<u8>)>,
    world: Vec<PlayerStateEvent>,
}

/// The state of a reference the engine does not resolve: all zero.
pub open spec fn sample_of(ref_id: u32) -> PlayerStateEvent {
    PlayerStateEvent {
        ref_id,
        pos: [0u32, 0u32, 0u32],
        angle: [0u32, 0u32, 0u32],
        idle: 0,
        moving: 0,
        moving_xy: 0,
        weapon: 0,
        alerted: false,
        sneaking: false,
        health: 0,
    }
}

/// `i` is the first position in `w` holding the state of `ref_id`.
pub open spec fn first_of(w: Seq<PlayerStateEvent>, ref_id: u32, i: int) -> bool {
    &&& 0 <= i < w.len()
    &&& w[i].ref_id == ref_id
    &&& forall|j: int| 0 <= j < i ==> (#[trigger] w[j]).ref_id != ref_id
}

/// Position in `w` of the state of `ref_id`, if observed.
pub open spec fn world_index(w: Seq<PlayerStateEvent>, ref_id: u32) -> Option<int> {
    if exists|i: int| first_of(w, ref_id, i) {
        Some(choose|i: int| first_of(w, ref_id, i))
    } else {
        None
    }
}

/// The state of `ref_id` as the engine reports it: the observed state, or
/// all zero for a reference it does not resolve.
pub open spec fn world_sample(w: Seq<PlayerStateEvent>, ref_id: u32) -> PlayerStateEvent {
    match world_index(w, ref_id) {
        Some(i) => w[i],
        None => sample_of(ref_id),
    }
}

/// The world after observing `e`: it replaces the state of its reference,
/// or joins the world.
pub open spec fn observed(w: Seq<PlayerStateEvent>, e: PlayerStateEvent) -> Seq<PlayerStateEvent> {
    match world_index(w, e.ref_id) {
        Some(i) => w.update(i, e),
        None => w.push(e),
    }
}

/// The world after writing the position (`pos`) or rotation (`!pos`) of
/// `ref_id`; unchanged when the reference does not resolve.
pub open spec fn written(w: Seq<PlayerStateEvent>, ref_id: u32, pos: bool, v: [u32; 3]) -> Seq<PlayerStateEvent> {
    match world_index(w, ref_id) {
        Some(i) => w.update(i, if pos { PlayerStateEvent { pos: v, ..w[i] } } else { PlayerStateEvent { angle: v, ..w[i] } }),
        None => w,
    }
}

/// The frame of a local-player report.
pub open spec fn player_report_frame(w: Seq<PlayerStateEvent>) -> Seq<u8> {
    event_frame_bytes(EVENT_PLAYER_STATE, player_state_bytes(world_sample(w, LOCAL_PLAYER_REF)))
}

/// The frame of an owned-NPC report.
pub open spec fn npc_state_frame(w: Seq<PlayerStateEvent>, ref_id: u32) -> Seq<u8> {
    event_frame_bytes(EVENT_NPC_STATE, player_state_bytes(world_sample(w, ref_id)))
}

/// The owned list after tracking `r`: appended unless already present.
pub open spec fn with_tracked(t: Seq<u32>, r: u32) -> Seq<u32> {
    if t.contains(r) {
        t
    } else {
        t.push(r)
    }
}

/// Whether an entry differs from `r`.
pub open spec fn differs(r: u32) -> spec_fn(u32) -> bool {
    |x: u32| x != r
}

/// The owned list after untracking `r`.
pub open spec fn without_tracked(t: Seq<u32>, r: u32) -> Seq<u32> {
    t.filter(differs(r))
}

/// The report frames of the owned NPCs, in tracking order.
pub open spec fn npc_frames(w: Seq<PlayerStateEvent>, t: Seq<u32>) -> Seq<Seq<u8>> {
    t.map_values(|r: u32| npc_state_frame(w, r))
}

impl Bridge {
    /// The bridge's abstract state.
    pub closed spec fn view(&self) -> BridgeView {
        BridgeView {
            events: self.events@.map_values(|v: Vec<u8>| v@),
            owned: self.owned@,
            last_report: self.last_report,
            pending: self.pending@.map_values(|c: (u32, Vec<u8>)| (c.0, c.1@)),
            world: self.world@,
        }
    }

    /// A fresh bridge: nothing queued, nothing owned, never reported, no
    /// reference observed.
    pub fn new() -> (r: Bridge)
        ensures
            r.view().events == Seq::<Seq<u8>>::empty(),
            r.view().owned == Seq::<u32>::empty(),
            r.view().last_report is None,
            r.view().pending == Seq::<(u32, Seq<u8>)>::empty(),
            r.view().world == Seq::<PlayerStateEvent>::empty(),
    {
        let r = Bridge {
            events: Vec::new(),
            owned: Vec::new(),
            last_report: None,
            pending: Vec::new(),
            world: Vec::new(),
        };
        assert(r.view().events =~= Seq::<Seq<u8>>::empty());
        assert(r.view().pending =~= Seq::<(u32, Seq<u8>)>::empty());
        r
    }
}

/// Position of the first state of `ref_id` in the observed world.
fn find_ref(bridge: &Bridge, ref_id: u32) -> (r: Option<usize>)
    ensures
        match r {
            Some(i) => world_index(bridge.view().world, ref_id) == Some(i as int),
            None => world_index(bridge.view().world, ref_id) is None,
        },
{
    let ghost w = bridge.world@;
    let mut i: usize = 0;
    while i < bridge.world.len()
        invariant
            i <= w.len(),
            w == bridge.world@,
            forall|j: int| 0 <= j < i ==> (#[trigger] w[j]).ref_id != ref_id,
        decreases w.len() - i,
    {
        if bridge.world[i].ref_id == ref_id {
            proof {
                assert(first_of(w, ref_id, i as int));
                let c = choose|c: int| first_of(w, ref_id, c);
                if c < i {
                    assert(w[c].ref_id != ref_id);
                } else if c > i {
                    assert(w[i as int].ref_id != ref_id);
                }
            }
            return Some(i);
        }
        i = i + 1;
    }
    proof {
        if exists|c: int| first_of(w, ref_id, c) {
            let c = choose|c: int| first_of(w, ref_id, c);
            assert(w[c].ref_id != ref_id);
        }
    }
    None
}

/// Records the engine's current state of a reference (its position,
/// rotation, animation state and health), replacing what was known of it.
pub fn observe(bridge: &mut Bridge, e: PlayerStateEvent)
    ensures
        final(bridge).view() == (BridgeView { world: observed(old(bridge).view().world, e), ..old(bridge).view() }),
{
    match find_ref(bridge, e.ref_id) {
        Some(i) => {
            bridge.world.set(i, e);
        },
        None => {
            bridge.world.push(e);
        },
    }
}

/// The state of a reference as the engine reports it: the observed state,
/// or all zero for a reference it does not resolve.
pub fn sample(bridge: &Bridge, ref_id: u32) -> (r: PlayerStateEvent)
    ensures
        r == world_sample(bridge.view().world, ref_id),
{
    match find_ref(bridge, ref_id) {
        Some(i) => bridge.world[i],
        None => PlayerStateEvent {
            ref_id,
            pos: [0, 0, 0],
            angle: [0, 0, 0],
            idle: 0,
            moving: 0,
            moving_xy: 0,
            weapon: 0,
            alerted: false,
            sneaking: false,
            health: 0,
        },
    }
}

/// Writes the position (`pos`) or rotation (`!pos`) of a reference;
/// returns whether the reference resolved.
pub fn write_transform(bridge: &mut Bridge, ref_id: u32, pos: bool, v: [u32; 3]) -> (r: bool)
    ensures
        r == (world_index(old(bridge).view().world, ref_id) is Some),
        final(bridge).view() == (BridgeView {
            world: written(old(bridge).view().world, ref_id, pos, v),
            ..old(bridge).view()
        }),
{
    match find_ref(bridge, ref_id) {
        Some(i) => {
            let old_e = bridge.world[i];
            let e = if pos {
                PlayerStateEvent { pos: v, ..old_e }
            } else {
                PlayerStateEvent { angle: v, ..old_e }
            };
            bridge.world.set(i, e);
            true
        },
        None => false,
    }
}

/// Queues an event frame for the client.
pub fn push_event_frame(bridge: &mut Bridge, frame: Vec<u8>)
    ensures
        final(bridge).view() == (BridgeView {
            events: old(bridge).view().events.push(frame@),
            ..old(bridge).view()
        }),
{
    let ghost before = bridge.events@;
    bridge.events.push(frame);
    assert(bridge.events@.map_values(|v: Vec<u8>| v@) =~= before.map_values(|v: Vec<u8>| v@).push(
        frame@,
    ));
}

/// Takes every queued event frame, oldest first.
pub fn take_event_frames(bridge: &mut Bridge) -> (r: Vec<Vec<u8>>)
    ensures
        r@.map_values(|v: Vec<u8>| v@) == old(bridge).view().events,
        final(bridge).view() == (BridgeView {
            events: Seq::<Seq<u8>>::empty(),
            ..old(bridge).view()
        }),
{
    let mut r: Vec<Vec<u8>> = Vec::new();
    std::mem::swap(&mut r, &mut bridge.events);
    assert(bridge.events@.map_values(|v: Vec<u8>| v@) =~= Seq::<Seq<u8>>::empty());
    r
}

/// Samples the local player, queues the state as an event frame and
/// returns the frame.
pub fn report_player_state(bridge: &mut Bridge) -> (r: Vec<u8>)
    ensures
        r@ == player_report_frame(old(bridge).view().world),
        final(bridge).view() == (BridgeView {
            events: old(bridge).view().events.push(player_report_frame(old(bridge).view().world)),
            ..old(bridge).view()
        }),
{
    let event = sample(bridge, LOCAL_PLAYER_REF);
    let frame = encode_player_state_event(&event);
    let copy = copy_bytes(&frame);
    push_event_frame(bridge, copy);
    frame
}

/// An owned copy of `v`.
fn copy_bytes(v: &Vec<u8>) -> (r: Vec<u8>)
    ensures
        r@ == v@,
{
    let r = crate::bytes::copy_range(v.as_slice(), 0, v.len());
    assert(r@ =~= v@);
    r
}

/// Starts sampling an NPC this client now owns (no duplicate entries).
pub fn track_actor(bridge: &mut Bridge, ref_id: u32)
    ensures
        final(bridge).view() == (BridgeView {
            owned: with_tracked(old(bridge).view().owned, ref_id),
            ..old(bridge).view()
        }),
{
    let mut i: usize = 0;
    while i < bridge.owned.len()
        invariant
            i <= bridge.owned@.len(),
            forall|j: int| 0 <= j < i ==> bridge.owned@[j] != ref_id,
        decreases bridge.owned@.len() - i,
    {
        if bridge.owned[i] == ref_id {
            assert(bridge.owned@.contains(ref_id));
            return;
        }
        i = i + 1;
    }
    bridge.owned.push(ref_id);
}

/// Stops sampling an NPC (ownership released or despawned).
pub fn untrack_actor(bridge: &mut Bridge, ref_id: u32)
    ensures
        final(bridge).view() == (BridgeView {
            owned: without_tracked(old(bridge).view().owned, ref_id),
            ..old(bridge).view()
        }),
{
    let ghost t = bridge.owned@;
    let mut kept: Vec<u32> = Vec::new();
    let mut i: usize = 0;
    while i < bridge.owned.len()
        invariant
            i <= bridge.owned@.len(),
            bridge.owned@ == t,
            kept@ == t.take(i as int).filter(differs(ref_id)),
        decreases bridge.owned@.len() - i,
    {
        let x = bridge.owned[i];
        proof {
            assert(t.take(i as int + 1).drop_last() =~= t.take(i as int));
            reveal(Seq::filter);
            assert(t.take(i as int + 1).last() == x);
        }
        if x != ref_id {
            kept.push(x);
        }
        i = i + 1;
    }
    assert(t.take(i as int) =~= t);
    bridge.owned = kept;
}

/// Samples every owned NPC and queues one state frame per NPC, in
/// tracking order.
pub fn sample_tracked(bridge: &mut Bridge)
    ensures
        final(bridge).view() == (BridgeView {
            events: old(bridge).view().events + npc_frames(old(bridge).view().world, old(bridge).view().owned),
            ..old(bridge).view()
        }),
{
    let owned = copy_u32s(&bridge.owned);
    let ghost start = bridge.view();
    let mut i: usize = 0;
    while i < owned.len()
        invariant
            i <= owned@.len(),
            owned@ == start.owned,
            bridge.view() == (BridgeView {
                events: start.events + npc_frames(start.world, start.owned.take(i as int)),
                ..start
            }),
        decreases owned@.len() - i,
    {
        let event = sample(bridge, owned[i]);
        let frame = encode_npc_state_event(&event);
        push_event_frame(bridge, frame);
        proof {
            assert(npc_frames(start.world, start.owned.take(i as int + 1)) =~= npc_frames(
                start.world,
                start.owned.take(i as int),
            ).push(npc_state_frame(start.world, owned@[i as int])));
            assert(start.events + npc_frames(start.world, start.owned.take(i as int + 1)) =~= (start.events
                + npc_frames(start.world, start.owned.take(i as int))).push(npc_state_frame(
                start.world,
                owned@[i as int],
            )));
        }
        i = i + 1;
    }
    assert(start.owned.take(i as int) =~= start.owned);
}

/// An owned copy of `v`.
fn copy_u32s(v: &Vec<u32>) -> (r: Vec<u32>)
    ensures
        r@ == v@,
{
    let mut r: Vec<u32> = Vec::new();
    let mut i: usize = 0;
    while i < v.len()
        invariant
            i <= v@.len(),
            r@ == v@.take(i as int),
        decreases v@.len() - i,
    {
        r.push(v[i]);
        i = i + 1;
        assert(r@ =~= v@.take(i as int));
    }
    assert(v@.take(i as int) =~= v@);
    r
}

/// The NPCs currently owned, in tracking order.
pub fn tracked_actors(bridge: &Bridge) -> (r: Vec<u32>)
    ensures
        r@ == bridge.view().owned,
{
    copy_u32s(&bridge.owned)
}

/// Forgets every owned NPC.
pub fn reset_tracked(bridge: &mut Bridge)
    ensures
        final(bridge).view() == (BridgeView {
            owned: Seq::<u32>::empty(),
            ..old(bridge).view()
        }),
{
    bridge.owned = Vec::new();
}

/// Queues a command to run on the game thread at the next frame.
pub fn enqueue_engine_call(bridge: &mut Bridge, func: u32, params: Vec<u8>)
    ensures
        final(bridge).view() == (BridgeView {
            pending: old(bridge).view().pending.push((func, params@)),
            ..old(bridge).view()
        }),
{
    let ghost before = bridge.pending@;
    bridge.pending.push((func, params));
    assert(bridge.pending@.map_values(|c: (u32, Vec<u8>)| (c.0, c.1@)) =~= before.map_values(
        |c: (u32, Vec<u8>)| (c.0, c.1@),
    ).push((func, params@)));
}

/// The state and results of running `calls` one after the other.
pub open spec fn run_calls(v: BridgeView, calls: Seq<(u32, Seq<u8>)>) -> (BridgeView, Seq<Seq<u8>>)
    decreases calls.len(),
{
    if calls.len() == 0 {
        (v, Seq::empty())
    } else {
        let first = execute_spec(v, calls[0].0, calls[0].1);
        let rest = run_calls(first.0, calls.drop_first());
        (rest.0, seq![first.1] + rest.1)
    }
}

/// Running one more call after a prefix of calls.
proof fn lemma_run_calls_push(v: BridgeView, calls: Seq<(u32, Seq<u8>)>, c: (u32, Seq<u8>))
    ensures
        run_calls(v, calls.push(c)).0 == execute_spec(run_calls(v, calls).0, c.0, c.1).0,
        run_calls(v, calls.push(c)).1 == run_calls(v, calls).1.push(
            execute_spec(run_calls(v, calls).0, c.0, c.1).1,
        ),
    decreases calls.len(),
{
    let cs = calls.push(c);
    if calls.len() == 0 {
        assert(cs.drop_first() =~= Seq::<(u32, Seq<u8>)>::empty());
        assert(cs[0] == c);
        let first = execute_spec(v, c.0, c.1);
        assert(run_calls(first.0, cs.drop_first()) == (first.0, Seq::<Seq<u8>>::empty()));
        assert(run_calls(v, calls) == (v, Seq::<Seq<u8>>::empty()));
        assert(seq![first.1] + Seq::<Seq<u8>>::empty() =~= Seq::<Seq<u8>>::empty().push(first.1));
    } else {
        assert(cs.drop_first() =~= calls.drop_first().push(c));
        assert(cs[0] == calls[0]);
        let first = execute_spec(v, calls[0].0, calls[0].1);
        lemma_run_calls_push(first.0, calls.drop_first(), c);
        let rest = run_calls(first.0, calls.drop_first());
        let last = execute_spec(rest.0, c.0, c.1);
        assert(seq![first.1] + rest.1.push(last.1) =~= (seq![first.1] + rest.1).push(last.1));
    }
}

/// The state and results of draining the queued engine calls: the queue is
/// emptied, then every call runs in order.
pub open spec fn drained(v: BridgeView) -> (BridgeView, Seq<Seq<u8>>) {
    run_calls(BridgeView { pending: Seq::empty(), ..v }, v.pending)
}

/// Runs every queued engine call on the calling (game) thread, oldest
/// first, and returns their results.
pub fn drain_engine_calls(bridge: &mut Bridge) -> (r: Vec<Vec<u8>>)
    ensures
        (final(bridge).view(), r@.map_values(|v: Vec<u8>| v@)) == drained(old(bridge).view()),
{
    let mut calls: Vec<(u32, Vec<u8>)> = Vec::new();
    std::mem::swap(&mut calls, &mut bridge.pending);
    let ghost calls_v = calls@.map_values(|c: (u32, Vec<u8>)| (c.0, c.1@));
    let ghost v0 = bridge.view();
    assert(v0 == (BridgeView { pending: Seq::empty(), ..old(bridge).view() })) by {
        assert(bridge.pending@.map_values(|c: (u32, Vec<u8>)| (c.0, c.1@)) =~= Seq::<
            (u32, Seq<u8>),
        >::empty());
    }
    let mut results: Vec<Vec<u8>> = Vec::new();
    let mut i: usize = 0;
    while i < calls.len()
        invariant
            i <= calls@.len(),
            calls_v == calls@.map_values(|c: (u32, Vec<u8>)| (c.0, c.1@)),
            (bridge.view(), results@.map_values(|v: Vec<u8>| v@)) == run_calls(
                v0,
                calls_v.take(i as int),
            ),
        decreases calls@.len() - i,
    {
        let ghost before = results@;
        let res = execute(bridge, calls[i].0, calls[i].1.as_slice());
        results.push(res);
        proof {
            assert(calls_v.take(i as int + 1) =~= calls_v.take(i as int).push(calls_v[i as int]));
            lemma_run_calls_push(v0, calls_v.take(i as int), calls_v[i as int]);
            assert(results@.map_values(|v: Vec<u8>| v@) =~= before.map_values(|v: Vec<u8>| v@).push(
                res@,
            ));
        }
        i = i + 1;
    }
    assert(calls_v.take(i as int) =~= calls_v);
    results
}

/// Whether a player report is due at `now_ms`: never reported, or at least
/// 100 ms since the last report (a clock going backwards counts as no time).
pub open spec fn report_due(last: Option<u64>, now_ms: u64) -> bool {
    match last {
        None => true,
        Some(prev) => now_ms >= prev && now_ms - prev >= REPORT_INTERVAL_MS,
    }
}

/// Called every frame with the current time: drains the queued engine
/// calls, then samples the player at most every 100 ms. Returns the report
/// frame when one was due.
pub fn report_player_state_due(bridge: &mut Bridge, now_ms: u64) -> (r: Option<Vec<u8>>)
    ensures
        ({
            let v1 = drained(old(bridge).view()).0;
            if report_due(v1.last_report, now_ms) {
                &&& r matches Some(f) && f@ == player_report_frame(v1.world)
                &&& final(bridge).view() == (BridgeView {
                    events: v1.events.push(player_report_frame(v1.world)),
                    last_report: Some(now_ms),
                    ..v1
                })
            } else {
                &&& r is None
                &&& final(bridge).view() == v1
            }
        }),
{
    let _ = drain_engine_calls(bridge);
    let due = match bridge.last_report {
        None => true,
        Some(prev) => now_ms >= prev && now_ms - prev >= REPORT_INTERVAL_MS,
    };
    if !due {
        return None;
    }
    bridge.last_report = Some(now_ms);
    Some(report_player_state(bridge))
}

/// Payload of a command frame.
pub open spec fn command_payload(key: u32, func: u32, params: Seq<u8>) -> Seq<u8> {
    le32(key) + le32(func) + seq![(params.len() % 256) as u8] + params
}

/// Encodes a command frame; the parameter count byte holds the length
/// modulo 256.
pub fn encode_pipe_command(key: u32, func: u32, params: &[u8]) -> (r: Vec<u8>)
    ensures
        r@ == frame_bytes(PIPE_OP_COMMAND, command_payload(key, func, params@)),
{
    let mut payload: Vec<u8> = Vec::new();
    push_le32(&mut payload, key);
    push_le32(&mut payload, func);
    payload.push((params.len() % 256) as u8);
    push_all(&mut payload, params);
    assert(payload@ =~= command_payload(key, func, params@));
    encode_frame(PIPE_OP_COMMAND, payload.as_slice())
}

/// Encodes a return frame: the key, then the result bytes.
pub fn encode_pipe_return(key: u32, result: &[u8]) -> (r: Vec<u8>)
    ensures
        r@ == frame_bytes(PIPE_OP_RETURN, le32(key) + result@),
{
    let mut payload: Vec<u8> = Vec::new();
    push_le32(&mut payload, key);
    push_all(&mut payload, result);
    encode_frame(PIPE_OP_RETURN, payload.as_slice())
}

/// What `decode_pipe_return` reads from a byte stream: the first complete
/// frame, when it is a return frame of at least the 4-byte key.
pub open spec fn decoded_return(data: Seq<u8>) -> Option<(u8, u32, Seq<u8>)> {
    let fs = complete_frames(data);
    if fs.len() == 0 || fs[0].0 != PIPE_OP_RETURN || fs[0].1.len() < 4 {
        None
    } else {
        Some((fs[0].0, crate::event::u32_at(fs[0].1, 0), fs[0].1.skip(4)))
    }
}

/// Decodes the first frame of `data` as a return frame: (opcode, key,
/// result), or `None` when there is no complete frame, it is not a return
/// or it is shorter than the key.
pub fn decode_pipe_return(data: &[u8]) -> (r: Option<(u8, u32, Vec<u8>)>)
    ensures
        match decoded_return(data@) {
            Some((op, key, res)) => r matches Some(t) && t.0 == op && t.1 == key && t.2@ == res,
            None => r is None,
        },
{
    let (frames, _) = split_frames(data);
    if frames.len() == 0 {
        return None;
    }
    let ghost fs = complete_frames(data@);
    assert(frames_view(frames@)[0] == fs[0]);
    let frame = &frames[0];
    if frame.opcode != PIPE_OP_RETURN || frame.payload.len() < 4 {
        return None;
    }
    let key = read_u32(frame.payload.as_slice(), 0);
    let rest = crate::bytes::copy_range(frame.payload.as_slice(), 4, frame.payload.len());
    assert(rest@ =~= fs[0].1.skip(4));
    Some((frame.opcode, key, rest))
}

/// A return frame decodes to the key and result it was encoded from.
pub proof fn law_pipe_return_roundtrip(key: u32, result: Seq<u8>, rest: Seq<u8>)
    requires
        result.len() + 4 < 65536,
    ensures
        decoded_return(frame_bytes(PIPE_OP_RETURN, le32(key) + result) + rest) == Some(
            (PIPE_OP_RETURN, key, result),
        ),
{
    let payload = le32(key) + result;
    crate::event::lemma_frame_then_rest(PIPE_OP_RETURN, payload, rest);
    crate::bytes::lemma_le32_roundtrip(key);
    assert(payload[0] == le32(key)[0] && payload[1] == le32(key)[1] && payload[2] == le32(key)[2]
        && payload[3] == le32(key)[3]);
    assert(crate::event::u32_at(payload, 0) == key);
    assert(payload.skip(4) =~= result);
    let fs = complete_frames(frame_bytes(PIPE_OP_RETURN, payload) + rest);
    assert(fs[0] == (PIPE_OP_RETURN, payload));
}

/// A command frame parses back into its key, function and parameters.
pub proof fn law_pipe_command_parses(key: u32, func: u32, params: Seq<u8>)
    requires
        params.len() < 256,
    ensures
        complete_frames(frame_bytes(PIPE_OP_COMMAND, command_payload(key, func, params))) == seq![
            (PIPE_OP_COMMAND, command_payload(key, func, params)),
        ],
        crate::event::u32_at(command_payload(key, func, params), 0) == key,
        crate::event::u32_at(command_payload(key, func, params), 4) == func,
        command_payload(key, func, params)[8] == params.len(),
        command_payload(key, func, params).skip(9) == params,
{
    let p = command_payload(key, func, params);
    crate::event::lemma_frame_then_rest(PIPE_OP_COMMAND, p, Seq::empty());
    assert(frame_bytes(PIPE_OP_COMMAND, p) + Seq::<u8>::empty() =~= frame_bytes(PIPE_OP_COMMAND, p));
    assert(complete_frames(Seq::<u8>::empty()) =~= Seq::<(u8, Seq<u8>)>::empty());
    assert(seq![(PIPE_OP_COMMAND, p)] + Seq::<(u8, Seq<u8>)>::empty() =~= seq![(PIPE_OP_COMMAND, p)]);
    crate::bytes::lemma_le32_roundtrip(key);
    crate::bytes::lemma_le32_roundtrip(func);
    assert(p.skip(9) =~= params);
}

/// The bridge's reply to one frame from the client, with the new state.
#[verifier::opaque]
pub open spec fn dispatch_spec(v: BridgeView, opcode: u8, payload: Seq<u8>) -> (BridgeView, Seq<u8>) {
    if opcode == PIPE_SYS_WAKEUP {
        (v, frame_bytes(PIPE_SYS_WAKEUP, Seq::empty()))
    } else if opcode == PIPE_OP_COMMAND {
        if payload.len() < 9 {
            (v, frame_bytes(PIPE_ERROR_CLOSE, Seq::empty()))
        } else {
            let key = crate::event::u32_at(payload, 0);
            let func = crate::event::u32_at(payload, 4);
            let (v1, result) = execute_spec(v, func, payload.skip(9));
            (v1, frame_bytes(PIPE_OP_RETURN, le32(key) + result))
        }
    } else {
        (v, frame_bytes(PIPE_ERROR_CLOSE, Seq::empty()))
    }
}

/// Answers one frame from the client: a wake-up is echoed, a command is
/// executed and answered with a return frame under the same key, anything
/// else (a short command too) is answered with an error frame.
pub fn dispatch(bridge: &mut Bridge, frame: &PipeFrame) -> (r: Vec<u8>)
    ensures
        (final(bridge).view(), r@) == dispatch_spec(old(bridge).view(), frame.opcode, frame.payload@),
{
    reveal(dispatch_spec);
    let payload = frame.payload.as_slice();
    if frame.opcode == PIPE_SYS_WAKEUP {
        encode_frame(PIPE_SYS_WAKEUP, &[])
    } else if frame.opcode == PIPE_OP_COMMAND {
        if payload.len() < 9 {
            return encode_frame(PIPE_ERROR_CLOSE, &[]);
        }
        let key = read_u32(payload, 0);
        let func = read_u32(payload, 4);
        let params = vstd::slice::slice_subrange(payload, 9, payload.len());
        assert(params@ =~= payload@.skip(9));
        let result = execute(bridge, func, params);
        encode_pipe_return(key, result.as_slice())
    } else {
        encode_frame(PIPE_ERROR_CLOSE, &[])
    }
}

/// The state and concatenated replies of answering `frames` in order.
pub open spec fn answer_all(v: BridgeView, frames: Seq<(u8, Seq<u8>)>) -> (BridgeView, Seq<u8>)
    decreases frames.len(),
{
    if frames.len() == 0 {
        (v, Seq::empty())
    } else {
        let first = dispatch_spec(v, frames[0].0, frames[0].1);
        let rest = answer_all(first.0, frames.drop_first());
        (rest.0, first.1 + rest.1)
    }
}

/// Answering one more frame after a prefix of frames.
proof fn lemma_answer_all_push(v: BridgeView, frames: Seq<(u8, Seq<u8>)>, f: (u8, Seq<u8>))
    ensures
        answer_all(v, frames.push(f)).0 == dispatch_spec(answer_all(v, frames).0, f.0, f.1).0,
        answer_all(v, frames.push(f)).1 == answer_all(v, frames).1 + dispatch_spec(
            answer_all(v, frames).0,
            f.0,
            f.1,
        ).1,
    decreases frames.len(),
{
    let fs = frames.push(f);
    if frames.len() == 0 {
        assert(fs.drop_first() =~= Seq::<(u8, Seq<u8>)>::empty());
        assert(fs[0] == f);
        let first = dispatch_spec(v, f.0, f.1);
        assert(answer_all(first.0, fs.drop_first()) == (first.0, Seq::<u8>::empty()));
        assert(answer_all(v, frames) == (v, Seq::<u8>::empty()));
        assert(first.1 + Seq::<u8>::empty() =~= Seq::<u8>::empty() + first.1);
    } else {
        assert(fs.drop_first() =~= frames.drop_first().push(f));
        assert(fs[0] == frames[0]);
        let first = dispatch_spec(v, frames[0].0, frames[0].1);
        lemma_answer_all_push(first.0, frames.drop_first(), f);
        let rest = answer_all(first.0, frames.drop_first());
        let last = dispatch_spec(rest.0, f.0, f.1);
        assert(first.1 + (rest.1 + last.1) =~= (first.1 + rest.1) + last.1);
    }
}

/// Concatenation of byte sequences.
pub open spec fn concat(parts: Seq<Seq<u8>>) -> Seq<u8>
    decreases parts.len(),
{
    if parts.len() == 0 {
        Seq::empty()
    } else {
        concat(parts.drop_last()) + parts.last()
    }
}

/// What one turn of the connection loop produces from the bytes received so
/// far: the state afterwards, the bytes to send (the replies to every
/// complete frame, then every queued event frame) and the bytes kept for
/// the next turn.
pub open spec fn serve_spec(v: BridgeView, buf: Seq<u8>) -> (BridgeView, Seq<u8>, Seq<u8>) {
    let (v1, replies) = answer_all(v, complete_frames(buf));
    (BridgeView { events: Seq::empty(), ..v1 }, replies + concat(v1.events), leftover(buf))
}

/// One turn of the connection loop: answers every complete frame in `buf`,
/// then flushes the queued events. Returns (bytes to send, bytes to keep).
pub fn serve_buffer(bridge: &mut Bridge, buf: &[u8]) -> (r: (Vec<u8>, Vec<u8>))
    ensures
        (final(bridge).view(), r.0@, r.1@) == serve_spec(old(bridge).view(), buf@),
{
    let (frames, rest) = split_frames(buf);
    let ghost fv = frames_view(frames@);
    let ghost v0 = bridge.view();
    let mut out: Vec<u8> = Vec::new();
    let mut i: usize = 0;
    while i < frames.len()
        invariant
            i <= frames@.len(),
            fv == frames_view(frames@),
            (bridge.view(), out@) == answer_all(v0, fv.take(i as int)),
        decreases frames@.len() - i,
    {
        let ghost before = out@;
        let reply = dispatch(bridge, &frames[i]);
        push_all(&mut out, reply.as_slice());
        proof {
            assert(fv.take(i as int + 1) =~= fv.take(i as int).push(fv[i as int]));
            lemma_answer_all_push(v0, fv.take(i as int), fv[i as int]);
        }
        i = i + 1;
    }
    assert(fv.take(i as int) =~= fv);
    let ghost v1 = bridge.view();
    let events = take_event_frames(bridge);
    let ghost ev = events@.map_values(|e: Vec<u8>| e@);
    let ghost replies = out@;
    let mut j: usize = 0;
    while j < events.len()
        invariant
            j <= events@.len(),
            ev == events@.map_values(|e: Vec<u8>| e@),
            out@ == replies + concat(ev.take(j as int)),
        decreases events@.len() - j,
    {
        push_all(&mut out, events[j].as_slice());
        proof {
            assert(ev.take(j as int + 1).drop_last() =~= ev.take(j as int));
        }
        j = j + 1;
        assert(out@ =~= replies + concat(ev.take(j as int)));
    }
    assert(ev.take(j as int) =~= ev);
    let kept = crate::bytes::copy_range(rest, 0, rest.len());
    assert(kept@ =~= rest@);
    (out, kept)
}

/// One change to the set of owned NPCs.
pub enum TrackOp {
    Track(u32),
    Untrack(u32),
    Reset,
}

/// The owned list after applying `ops` in order to `t`.
pub open spec fn run_tracking(t: Seq<u32>, ops: Seq<TrackOp>) -> Seq<u32>
    decreases ops.len(),
{
    if ops.len() == 0 {
        t
    } else {
        let prev = run_tracking(t, ops.drop_last());
        match ops.last() {
            TrackOp::Track(r) => with_tracked(prev, r),
            TrackOp::Untrack(r) => without_tracked(prev, r),
            TrackOp::Reset => Seq::empty(),
        }
    }
}

/// Whether `r` is owned after `ops`: the last operation naming it (or a
/// reset) decides; with none, whether it was owned before.
pub open spec fn owned_after(t: Seq<u32>, ops: Seq<TrackOp>, r: u32) -> bool
    decreases ops.len(),
{
    if ops.len() == 0 {
        t.contains(r)
    } else {
        match ops.last() {
            TrackOp::Track(x) => x == r || owned_after(t, ops.drop_last(), r),
            TrackOp::Untrack(x) => x != r && owned_after(t, ops.drop_last(), r),
            TrackOp::Reset => false,
        }
    }
}

pub proof fn lemma_untracked(t: Seq<u32>, r: u32)
    ensures
        t.no_duplicates() ==> without_tracked(t, r).no_duplicates(),
        forall|x: u32| #[trigger] without_tracked(t, r).contains(x) <==> t.contains(x) && x != r,
    decreases t.len(),
{
    reveal(Seq::filter);
    let f = without_tracked(t, r);
    if t.len() > 0 {
        let pre = t.drop_last();
        lemma_untracked(pre, r);
        let fp = without_tracked(pre, r);
        assert forall|x: u32| #[trigger] f.contains(x) <==> t.contains(x) && x != r by {
            if t.contains(x) && x != r {
                let k = choose|k: int| 0 <= k < t.len() && t[k] == x;
                if k < pre.len() {
                    assert(pre[k] == x);
                    assert(fp.contains(x));
                    let m = choose|m: int| 0 <= m < fp.len() && fp[m] == x;
                    if differs(r)(t.last()) {
                        assert(f == fp.push(t.last()));
                        assert(f[m] == x);
                    } else {
                        assert(f == fp);
                    }
                } else {
                    assert(f == fp.push(t.last()));
                    assert(f[fp.len() as int] == x);
                }
            }
            if f.contains(x) {
                let m = choose|m: int| 0 <= m < f.len() && f[m] == x;
                if differs(r)(t.last()) {
                    assert(f == fp.push(t.last()));
                    if m < fp.len() {
                        assert(fp[m] == x);
                        assert(fp.contains(x));
                        let k = choose|k: int| 0 <= k < pre.len() && pre[k] == x;
                        assert(t[k] == x);
                    } else {
                        assert(t[t.len() - 1] == x);
                    }
                } else {
                    assert(f == fp);
                    assert(fp.contains(x));
                    let k = choose|k: int| 0 <= k < pre.len() && pre[k] == x;
                    assert(t[k] == x);
                }
            }
        }
        if t.no_duplicates() {
            assert(pre.no_duplicates()) by {
                assert forall|i: int, j: int| 0 <= i < pre.len() && 0 <= j < pre.len() && i != j implies pre[i] != pre[j] by {
                    assert(pre[i] == t[i] && pre[j] == t[j]);
                }
            }
            if differs(r)(t.last()) {
                assert(f == fp.push(t.last()));
                assert(!pre.contains(t.last())) by {
                    if pre.contains(t.last()) {
                        let k = choose|k: int| 0 <= k < pre.len() && pre[k] == t.last();
                        assert(t[k] == t[t.len() - 1]);
                    }
                }
                assert(!fp.contains(t.last()));
                assert forall|i: int, j: int| 0 <= i < f.len() && 0 <= j < f.len() && i != j implies f[i] != f[j] by {
                    if i < fp.len() && j < fp.len() {
                        assert(f[i] == fp[i] && f[j] == fp[j]);
                    } else if i < fp.len() {
                        assert(f[i] == fp[i]);
                    } else {
                        assert(f[j] == fp[j]);
                    }
                }
            } else {
                assert(f == fp);
            }
        }
    }
}

/// Over any sequence of track, untrack and reset calls, an NPC is owned
/// exactly when the last call naming it tracked it (a reset names every
/// NPC), and no NPC is owned twice.
pub proof fn law_tracking_sequence(t: Seq<u32>, ops: Seq<TrackOp>, r: u32)
    requires
        t.no_duplicates(),
    ensures
        run_tracking(t, ops).no_duplicates(),
        run_tracking(t, ops).contains(r) == owned_after(t, ops, r),
    decreases ops.len(),
{
    if ops.len() > 0 {
        let pre = ops.drop_last();
        law_tracking_sequence(t, pre, r);
        let p = run_tracking(t, pre);
        match ops.last() {
            TrackOp::Track(x) => {
                if !p.contains(x) {
                    let q = p.push(x);
                    assert forall|i: int, j: int| 0 <= i < q.len() && 0 <= j < q.len() && i != j implies q[i] != q[j] by {
                        if i < p.len() && j < p.len() {
                            assert(q[i] == p[i] && q[j] == p[j]);
                        } else if i < p.len() {
                            assert(q[i] == p[i]);
                        } else {
                            assert(q[j] == p[j]);
                        }
                    }
                    if x == r {
                        assert(q[p.len() as int] == r);
                    } else if q.contains(r) {
                        let k = choose|k: int| 0 <= k < q.len() && q[k] == r;
                        assert(p[k] == r);
                    } else if p.contains(r) {
                        let k = choose|k: int| 0 <= k < p.len() && p[k] == r;
                        assert(q[k] == r);
                    }
                }
            },
            TrackOp::Untrack(x) => {
                lemma_untracked(p, x);
            },
            TrackOp::Reset => {},
        }
    }
}

/// A reference has at most one first position.
proof fn lemma_first_of_unique(w: Seq<PlayerStateEvent>, r: u32, a: int, b: int)
    requires
        first_of(w, r, a),
        first_of(w, r, b),
    ensures
        a == b,
{
    if a < b {
        assert(w[a].ref_id != r);
    } else if b < a {
        assert(w[b].ref_id != r);
    }
}

/// A reference that occurs in `w` has a first position.
proof fn lemma_occurs_has_first(w: Seq<PlayerStateEvent>, r: u32, j: int)
    requires
        0 <= j < w.len(),
        w[j].ref_id == r,
    ensures
        world_index(w, r) is Some,
    decreases j,
{
    if forall|m: int| 0 <= m < j ==> (#[trigger] w[m]).ref_id != r {
        assert(first_of(w, r, j));
    } else {
        let m = choose|m: int| 0 <= m < j && (#[trigger] w[m]).ref_id == r;
        lemma_occurs_has_first(w, r, m);
    }
}

/// Where `w` and `w2` agree on the reference at every position (and have
/// the same length, or `w2` adds one entry of another reference), the
/// first position of `r` is the same in both.
proof fn lemma_same_index(w: Seq<PlayerStateEvent>, w2: Seq<PlayerStateEvent>, r: u32)
    requires
        w2.len() == w.len() || (w2.len() == w.len() + 1 && w2[w.len() as int].ref_id != r),
        forall|j: int| 0 <= j < w.len() ==> (#[trigger] w2[j]).ref_id == w[j].ref_id,
    ensures
        world_index(w2, r) == world_index(w, r),
{
    match world_index(w, r) {
        Some(i) => {
            assert(first_of(w, r, i));
            assert(first_of(w2, r, i)) by {
                assert forall|j: int| 0 <= j < i implies (#[trigger] w2[j]).ref_id != r by {
                    assert(w[j].ref_id != r);
                }
            }
            let c = choose|c: int| first_of(w2, r, c);
            lemma_first_of_unique(w2, r, c, i);
        },
        None => {
            if exists|c: int| first_of(w2, r, c) {
                let c = choose|c: int| first_of(w2, r, c);
                assert(c < w.len());
                lemma_occurs_has_first(w, r, c);
            }
        },
    }
}

/// Reading back what was observed: after observing a state, sampling its
/// reference gives exactly that state, and sampling any other reference
/// gives what it gave before.
pub proof fn law_observe_then_sample(w: Seq<PlayerStateEvent>, e: PlayerStateEvent, r: u32)
    ensures
        world_sample(observed(w, e), e.ref_id) == e,
        r != e.ref_id ==> world_sample(observed(w, e), r) == world_sample(w, r),
{
    let w2 = observed(w, e);
    let x = e.ref_id;
    match world_index(w, x) {
        Some(i) => {
            assert(first_of(w, x, i));
            assert(first_of(w2, x, i)) by {
                assert forall|j: int| 0 <= j < i implies (#[trigger] w2[j]).ref_id != x by {
                    assert(w2[j] == w[j]);
                }
            }
            let c = choose|c: int| first_of(w2, x, c);
            lemma_first_of_unique(w2, x, c, i);
            if r != x {
                assert forall|j: int| 0 <= j < w.len() implies (#[trigger] w2[j]).ref_id == w[j].ref_id by {
                    if j == i {
                        assert(w[i].ref_id == x);
                    }
                }
                lemma_same_index(w, w2, r);
                if let Some(k) = world_index(w, r) {
                    assert(first_of(w, r, k));
                    assert(k != i);
                }
            }
        },
        None => {
            let n = w.len() as int;
            assert(first_of(w2, x, n)) by {
                assert forall|j: int| 0 <= j < n implies (#[trigger] w2[j]).ref_id != x by {
                    assert(w2[j] == w[j]);
                    if w[j].ref_id == x {
                        lemma_occurs_has_first(w, x, j);
                    }
                }
            }
            let c = choose|c: int| first_of(w2, x, c);
            lemma_first_of_unique(w2, x, c, n);
            if r != x {
                assert forall|j: int| 0 <= j < w.len() implies (#[trigger] w2[j]).ref_id == w[j].ref_id by {
                    assert(w2[j] == w[j]);
                }
                lemma_same_index(w, w2, r);
                if let Some(k) = world_index(w, r) {
                    assert(first_of(w, r, k));
                    assert(w2[k] == w[k]);
                }
            }
        },
    }
}

} // verus!
