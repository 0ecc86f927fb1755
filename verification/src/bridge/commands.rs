//! Command dispatcher: maps pipe opcodes to engine calls and encodes their
//! results. Parameters and results are little-endian; positions and angles
//! travel as IEEE-754 single-precision bit patterns.
use vstd::prelude::*;
use crate::bytes::{le32, push_le32};
use crate::event::{read_u32, u32_at, PlayerStateEvent, lemma_u32_at_concat};
use crate::client::ipc::{Param, params_bytes};
use crate::bridge::network::{
    Bridge, BridgeView, player_report_frame, with_tracked, without_tracked, report_player_state,
    world_sample, written, sample, write_transform, world_index, first_of, lemma_untracked,
    track_actor, untrack_actor,
};

verus! {

pub const OP_GET_POS: u32 = 0x0001;
pub const OP_SET_POS: u32 = 0x0002;
pub const OP_GET_ANGLE: u32 = 0x0003;
pub const OP_SET_ANGLE: u32 = 0x0004;
pub const OP_GET_CELL: u32 = 0x0005;
pub const OP_SET_CELL: u32 = 0x0006;
pub const OP_GET_ACTOR_STATE: u32 = 0x0007;
pub const OP_GET_ACTOR_VALUE: u32 = 0x0008;
pub const OP_SET_ACTOR_VALUE: u32 = 0x0009;
pub const OP_GET_CONTROL: u32 = 0x000A;
pub const OP_SET_CONTROL: u32 = 0x000B;
pub const OP_GET_ACTIVATE: u32 = 0x000C;
pub const OP_FIRE_WEAPON: u32 = 0x000D;
pub const OP_GET_NAME: u32 = 0x000E;
pub const OP_SET_NAME: u32 = 0x000F;
pub const OP_GET_ENABLED: u32 = 0x0010;
pub const OP_SET_ENABLED: u32 = 0x0011;
pub const OP_GET_LOCK: u32 = 0x0012;
pub const OP_SET_LOCK: u32 = 0x0013;
pub const OP_MOVE_TO: u32 = 0x0014;
pub const OP_PLAY_SOUND: u32 = 0x0015;
pub const OP_PLACE_AT_ME: u32 = 0x0016;
pub const OP_GET_BASE: u32 = 0x0017;
/// Stop sampling an owned NPC: params `[ref_id:4]`.
pub const OP_UNTRACK_ACTOR: u32 = 0x00F5;
/// Start sampling an owned NPC: params `[ref_id:4]`.
pub const OP_TRACK_ACTOR: u32 = 0x00F6;
/// Sample the local player now; the reply is the queued event frame.
pub const OP_REPORT_PLAYER_STATE: u32 = 0x00F7;

/// Bytes of three 32-bit values.
pub open spec fn triple_bytes(a: Seq<u32>) -> Seq<u8> {
    le32(a[0]) + le32(a[1]) + le32(a[2])
}


/// The effect and reply of a command.
#[verifier::opaque]
pub open spec fn execute_spec(v: BridgeView, func: u32, params: Seq<u8>) -> (BridgeView, Seq<u8>) {
    if func == OP_GET_POS || func == OP_GET_ANGLE {
        if params.len() < 4 {
            (v, Seq::empty())
        } else {
            let e = world_sample(v.world, crate::event::u32_at(params, 0));
            (v, triple_bytes(if func == OP_GET_POS { e.pos@ } else { e.angle@ }))
        }
    } else if func == OP_SET_POS || func == OP_SET_ANGLE {
        if params.len() < 16 {
            (v, Seq::empty())
        } else {
            let t = [crate::event::u32_at(params, 4), crate::event::u32_at(params, 8), crate::event::u32_at(params, 12)];
            (
                BridgeView { world: written(v.world, crate::event::u32_at(params, 0), func == OP_SET_POS, t), ..v },
                seq![1u8],
            )
        }
    } else if func == OP_REPORT_PLAYER_STATE {
        (BridgeView { events: v.events.push(player_report_frame(v.world)), ..v }, player_report_frame(v.world))
    } else if func == OP_TRACK_ACTOR {
        if params.len() < 4 {
            (v, Seq::empty())
        } else {
            (
                BridgeView { owned: with_tracked(v.owned, crate::event::u32_at(params, 0)), ..v },
                seq![1u8],
            )
        }
    } else if func == OP_UNTRACK_ACTOR {
        if params.len() < 4 {
            (v, Seq::empty())
        } else {
            (
                BridgeView {
                    owned: without_tracked(v.owned, crate::event::u32_at(params, 0)),
                    ..v
                },
                seq![1u8],
            )
        }
    } else {
        (v, Seq::empty())
    }
}

/// Encodes three 32-bit values.
fn encode_triple(a: [u32; 3]) -> (r: Vec<u8>)
    ensures
        r@ == triple_bytes(a@),
{
    let mut out: Vec<u8> = Vec::new();
    push_le32(&mut out, a[0]);
    push_le32(&mut out, a[1]);
    push_le32(&mut out, a[2]);
    assert(out@ =~= triple_bytes(a@));
    out
}

/// Reads the three 32-bit values after the 4-byte ref id.
fn read_triple(params: &[u8]) -> (r: [u32; 3])
    requires
        params.len() >= 16,
    ensures
        r[0] == crate::event::u32_at(params@, 4),
        r[1] == crate::event::u32_at(params@, 8),
        r[2] == crate::event::u32_at(params@, 12),
{
    [read_u32(params, 4), read_u32(params, 8), read_u32(params, 12)]
}

/// Executes a command and returns its result bytes: position and angle
/// reads answer 12 bytes, writes answer `[1]`, tracking commands answer
/// `[1]`, the report command answers the queued event frame; short
/// parameters and unknown opcodes answer nothing.
pub fn execute(bridge: &mut Bridge, func: u32, params: &[u8]) -> (r: Vec<u8>)
    ensures
        (final(bridge).view(), r@) == execute_spec(old(bridge).view(), func, params@),
{
    reveal(execute_spec);
    if func == OP_GET_POS || func == OP_GET_ANGLE {
        if params.len() < 4 {
            return Vec::new();
        }
        let ref_id = read_u32(params, 0);
        let e = sample(bridge, ref_id);
        let v = if func == OP_GET_POS { e.pos } else { e.angle };
        encode_triple(v)
    } else if func == OP_SET_POS || func == OP_SET_ANGLE {
        if params.len() < 16 {
            return Vec::new();
        }
        let ref_id = read_u32(params, 0);
        let v = read_triple(params);
        assert(v == [crate::event::u32_at(params@, 4), crate::event::u32_at(params@, 8), crate::event::u32_at(params@, 12)]);
        let _ = write_transform(bridge, ref_id, func == OP_SET_POS, v);
        let r = vec![1u8];
        assert(r@ =~= seq![1u8]);
        r
    } else if func == OP_REPORT_PLAYER_STATE {
        report_player_state(bridge)
    } else if func == OP_TRACK_ACTOR || func == OP_UNTRACK_ACTOR {
        if params.len() < 4 {
            return Vec::new();
        }
        let ref_id = read_u32(params, 0);
        if func == OP_TRACK_ACTOR {
            track_actor(bridge, ref_id);
        } else {
            untrack_actor(bridge, ref_id);
        }
        let r = vec![1u8];
        assert(r@ =~= seq![1u8]);
        r
    } else {
        Vec::new()
    }
}

/// A reference keeps its place in the world when its state at that place
/// is replaced by another state of the same reference.
proof fn lemma_index_after_update(w: Seq<PlayerStateEvent>, r: u32, i: int, e: PlayerStateEvent)
    requires
        world_index(w, r) == Some(i),
        e.ref_id == r,
    ensures
        world_index(w.update(i, e), r) == Some(i),
{
    let w2 = w.update(i, e);
    assert(first_of(w, r, i));
    assert(first_of(w2, r, i)) by {
        assert forall|j: int| 0 <= j < i implies (#[trigger] w2[j]).ref_id != r by {
            assert(w2[j] == w[j]);
            assert(w[j].ref_id != r);
        }
    }
    let c = choose|c: int| first_of(w2, r, c);
    if c < i {
        assert(w2[c].ref_id != r);
    } else if c > i {
        assert(w2[i].ref_id != r);
    }
}

/// The three values a set command carries after the ref id.
pub open spec fn param_triple(params: Seq<u8>) -> [u32; 3] {
    [u32_at(params, 4), u32_at(params, 8), u32_at(params, 12)]
}

/// Rotating an observed reference: the reply is `[1]`; its rotation
/// becomes the three parameters while its position and every other part of
/// its state stay, no other reference changes, and a following rotation
/// read answers the new rotation and a position read the old position.
#[verifier::rlimit(40)]
pub proof fn law_set_angle_rotates_only(v: BridgeView, params: Seq<u8>, i: int)
    requires
        params.len() >= 16,
        world_index(v.world, u32_at(params, 0)) == Some(i),
    ensures
        ({
            let r = u32_at(params, 0);
            let (v2, reply) = execute_spec(v, OP_SET_ANGLE, params);
            let e = v.world[i];
            &&& reply == seq![1u8]
            &&& v2.world.len() == v.world.len()
            &&& forall|j: int| 0 <= j < v.world.len() && j != i ==> #[trigger] v2.world[j] == v.world[j]
            &&& world_sample(v2.world, r) == PlayerStateEvent { angle: param_triple(params), ..e }
            &&& world_sample(v2.world, r).pos == world_sample(v.world, r).pos
            &&& v2.events == v.events && v2.owned == v.owned && v2.pending == v.pending
            &&& execute_spec(v2, OP_GET_ANGLE, params).1 == triple_bytes(param_triple(params)@)
            &&& execute_spec(v2, OP_GET_POS, params).1 == triple_bytes(e.pos@)
        }),
{
    reveal(execute_spec);
    let r = u32_at(params, 0);
    let e2 = PlayerStateEvent { angle: param_triple(params), ..v.world[i] };
    assert(v.world[i].ref_id == r);
    lemma_index_after_update(v.world, r, i, e2);
}

/// Moving an observed reference: the reply is `[1]`; its position becomes
/// the three parameters while its rotation and every other part of its
/// state stay, no other reference changes, and a following position read
/// answers the new position and a rotation read the old rotation.
#[verifier::rlimit(40)]
pub proof fn law_set_pos_moves_only(v: BridgeView, params: Seq<u8>, i: int)
    requires
        params.len() >= 16,
        world_index(v.world, u32_at(params, 0)) == Some(i),
    ensures
        ({
            let r = u32_at(params, 0);
            let (v2, reply) = execute_spec(v, OP_SET_POS, params);
            let e = v.world[i];
            &&& reply == seq![1u8]
            &&& v2.world.len() == v.world.len()
            &&& forall|j: int| 0 <= j < v.world.len() && j != i ==> #[trigger] v2.world[j] == v.world[j]
            &&& world_sample(v2.world, r) == PlayerStateEvent { pos: param_triple(params), ..e }
            &&& world_sample(v2.world, r).angle == world_sample(v.world, r).angle
            &&& v2.events == v.events && v2.owned == v.owned && v2.pending == v.pending
            &&& execute_spec(v2, OP_GET_POS, params).1 == triple_bytes(param_triple(params)@)
            &&& execute_spec(v2, OP_GET_ANGLE, params).1 == triple_bytes(e.angle@)
        }),
{
    reveal(execute_spec);
    let r = u32_at(params, 0);
    let e2 = PlayerStateEvent { pos: param_triple(params), ..v.world[i] };
    assert(v.world[i].ref_id == r);
    lemma_index_after_update(v.world, r, i, e2);
}

/// Tracking commands: after a track command the NPC is owned, after an
/// untrack command it is not; both answer `[1]` and leave every other
/// NPC's ownership as it was. A command too short to name an NPC changes
/// nothing and answers nothing.
pub proof fn law_track_commands(v: BridgeView, params: Seq<u8>, x: u32)
    ensures
        ({
            let t = execute_spec(v, OP_TRACK_ACTOR, params);
            let u = execute_spec(v, OP_UNTRACK_ACTOR, params);
            let r = u32_at(params, 0);
            &&& params.len() >= 4 ==> {
                &&& t.1 == seq![1u8] && u.1 == seq![1u8]
                &&& t.0.owned.contains(r)
                &&& !u.0.owned.contains(r)
                &&& x != r ==> (t.0.owned.contains(x) == v.owned.contains(x))
                &&& x != r ==> (u.0.owned.contains(x) == v.owned.contains(x))
                &&& t.0.world == v.world && u.0.world == v.world
            }
            &&& params.len() < 4 ==> t == (v, Seq::<u8>::empty()) && u == (v, Seq::<u8>::empty())
        }),
{
    reveal(execute_spec);
    if params.len() >= 4 {
        let r = u32_at(params, 0);
        lemma_untracked(v.owned, r);
        if !v.owned.contains(r) {
            let q = v.owned.push(r);
            assert(q[v.owned.len() as int] == r);
            if v.owned.contains(x) {
                let k = choose|k: int| 0 <= k < v.owned.len() && v.owned[k] == x;
                assert(q[k] == x);
            }
            if q.contains(x) && x != r {
                let k = choose|k: int| 0 <= k < q.len() && q[k] == x;
                assert(v.owned[k] == x);
            }
        }
    }
}

/// Reporting the player: the reply is the player-state event frame of the
/// local player's state as the engine reports it, and that same frame is
/// queued once.
pub proof fn law_report_command(v: BridgeView, params: Seq<u8>)
    ensures
        ({
            let frame = crate::event::event_frame_bytes(
                crate::event::EVENT_PLAYER_STATE,
                crate::event::player_state_bytes(world_sample(v.world, 0x14)),
            );
            let (v2, reply) = execute_spec(v, OP_REPORT_PLAYER_STATE, params);
            &&& reply == frame
            &&& v2.events == v.events.push(frame)
            &&& v2.owned == v.owned && v2.world == v.world && v2.pending == v.pending
        }),
{
    reveal(execute_spec);
}

/// The parameter bytes the client sends for a move of reference `r` to
/// (x, y, z), as the bridge reads them: the ref id, then the three values.
proof fn lemma_move_params(r: u32, x: u32, y: u32, z: u32)
    ensures
        ({
            let ps = crate::client::ipc::params_bytes(seq![
                crate::client::ipc::Param::U32(r),
                crate::client::ipc::Param::F32(x),
                crate::client::ipc::Param::F32(y),
                crate::client::ipc::Param::F32(z),
            ]);
            &&& ps.len() == 16
            &&& u32_at(ps, 0) == r
            &&& param_triple(ps) == [x, y, z]
        }),
{
    let l = seq![Param::U32(r), Param::F32(x), Param::F32(y), Param::F32(z)];
    assert(l.drop_last().drop_last().drop_last().drop_last() =~= Seq::<Param>::empty());
    reveal_with_fuel(params_bytes, 5);
    let ps = params_bytes(l);
    let z0 = Seq::<u8>::empty();
    assert(ps =~= le32(r) + le32(x) + le32(y) + le32(z));
    lemma_u32_at_concat(z0, r, le32(x) + le32(y) + le32(z));
    assert(z0 + le32(r) + (le32(x) + le32(y) + le32(z)) =~= ps);
    lemma_u32_at_concat(le32(r), x, le32(y) + le32(z));
    assert(le32(r) + le32(x) + (le32(y) + le32(z)) =~= ps);
    lemma_u32_at_concat(le32(r) + le32(x), y, le32(z));
    assert(le32(r) + le32(x) + le32(y) + le32(z) =~= ps);
    lemma_u32_at_concat(le32(r) + le32(x) + le32(y), z, z0);
    assert(le32(r) + le32(x) + le32(y) + le32(z) + z0 =~= ps);
}

/// End to end: the move command the client encodes for an observed
/// reference, run by the bridge, leaves that reference at the requested
/// position with its rotation unchanged, and answers `[1]`.
pub proof fn law_client_move_reaches_engine(v: BridgeView, r: u32, x: u32, y: u32, z: u32, i: int)
    requires
        world_index(v.world, r) == Some(i),
    ensures
        ({
            let ps = crate::client::ipc::params_bytes(seq![
                crate::client::ipc::Param::U32(r),
                crate::client::ipc::Param::F32(x),
                crate::client::ipc::Param::F32(y),
                crate::client::ipc::Param::F32(z),
            ]);
            let (v2, reply) = execute_spec(v, crate::client::ipc::OP_SET_POS, ps);
            &&& reply == seq![1u8]
            &&& world_sample(v2.world, r).pos == [x, y, z]
            &&& world_sample(v2.world, r).angle == world_sample(v.world, r).angle
        }),
{
    lemma_move_params(r, x, y, z);
    let ps = crate::client::ipc::params_bytes(seq![
        crate::client::ipc::Param::U32(r),
        crate::client::ipc::Param::F32(x),
        crate::client::ipc::Param::F32(y),
        crate::client::ipc::Param::F32(z),
    ]);
    law_set_pos_moves_only(v, ps, i);
}

/// Reading an observed reference: a position read answers its position
/// and a rotation read its rotation, as three little-endian values, and
/// neither changes anything. A read too short to name a reference answers
/// nothing.
pub proof fn law_get_commands_read_state(v: BridgeView, params: Seq<u8>, i: int)
    requires
        params.len() >= 4 ==> world_index(v.world, u32_at(params, 0)) == Some(i),
    ensures
        ({
            let p = execute_spec(v, OP_GET_POS, params);
            let a = execute_spec(v, OP_GET_ANGLE, params);
            &&& p.0 == v && a.0 == v
            &&& params.len() >= 4 ==> {
                &&& p.1 == triple_bytes(v.world[i].pos@)
                &&& a.1 == triple_bytes(v.world[i].angle@)
            }
            &&& params.len() < 4 ==> p.1 == Seq::<u8>::empty() && a.1 == Seq::<u8>::empty()
        }),
{
    reveal(execute_spec);
}

/// A move or rotation too short to carry a reference and three values
/// changes nothing and answers nothing; so does every command the bridge
/// does not know.
pub proof fn law_short_or_unknown_commands_do_nothing(v: BridgeView, func: u32, params: Seq<u8>)
    ensures
        params.len() < 16 ==> execute_spec(v, OP_SET_POS, params) == (v, Seq::<u8>::empty()),
        params.len() < 16 ==> execute_spec(v, OP_SET_ANGLE, params) == (v, Seq::<u8>::empty()),
        func != OP_GET_POS && func != OP_SET_POS && func != OP_GET_ANGLE && func != OP_SET_ANGLE
            && func != OP_REPORT_PLAYER_STATE && func != OP_TRACK_ACTOR && func != OP_UNTRACK_ACTOR
            ==> execute_spec(v, func, params) == (v, Seq::<u8>::empty()),
{
    reveal(execute_spec);
}

} // verus!
