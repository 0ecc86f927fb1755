//! Bridge <-> server synchronisation, the co-op loop's two pure halves:
//! engine event frames become server packets (own-player state, NPC
//! spawns with an ownership claim, removals, activations, shots), and
//! server packets about remote entities become bridge commands.
//!
//! Game references get entity ids in a space shared with the server: the
//! high bit of the low 32 marks a reference-derived id, so both sides agree
//! on an NPC's id without a handshake and it never collides with
//! server-assigned ids (which start at 1).
use vstd::prelude::*;
use crate::id::NetworkID;
use crate::event::{
    PipeFrame, PlayerStateEvent, frames_view, u32_at, player_state_of, npc_spawn_of,
    decode_event, decode_player_state, decode_npc_spawn, decode_npc_remove, decode_ref_event,
    PIPE_OP_EVENT, EVENT_PLAYER_STATE, EVENT_NPC_SPAWN, EVENT_NPC_STATE, EVENT_NPC_REMOVE,
    EVENT_ACTIVATE, EVENT_FIRE, PLAYER_STATE_SIZE, NPC_SPAWN_SIZE,
};
use crate::protocol::Packet;
use crate::client::ipc::{
    Param, OP_SET_POS, OP_SET_ANGLE, OP_SET_ACTOR_VALUE, OP_KILL, OP_GET_ACTIVATE,
    OP_FIRE_WEAPON, OP_SET_LOCK, OP_SET_SCALE,
};

verus! {

/// Marker bit of a reference-derived entity id.
pub const REF_MARK: u64 = 0x8000_0000;

/// The entity id of a game reference.
pub open spec fn entity_of(ref_id: u32) -> u64 {
    (ref_id as u64) | REF_MARK
}

/// The entity id of a game reference.
pub fn entity_id(ref_id: u32) -> (r: NetworkID)
    ensures
        r.value() == entity_of(ref_id),
{
    let r = ref_id as u64;
    assert(0x8000_0000u64 | r == r | 0x8000_0000u64) by (bit_vector);
    NetworkID::new(REF_MARK | r)
}

/// The game reference of a reference-derived entity id: the low 31 bits,
/// when the marker bit is set.
pub fn ref_of_entity(id: NetworkID) -> (r: Option<u32>)
    ensures
        id.value() & REF_MARK != 0 ==> r == Some((id.value() & 0x7FFF_FFFF) as u32),
        id.value() & REF_MARK == 0 ==> r is None,
{
    let v = id.as_u64();
    if v & REF_MARK != 0 {
        Some((v & 0x7FFF_FFFF) as u32)
    } else {
        None
    }
}

/// A reference id below 2^31 comes back from its entity id.
pub proof fn law_entity_ref_roundtrip(ref_id: u32)
    requires
        ref_id < 0x8000_0000,
    ensures
        entity_of(ref_id) & REF_MARK != 0,
        (entity_of(ref_id) & 0x7FFF_FFFF) as u32 == ref_id,
{
    let r = ref_id as u64;
    assert(r < 0x8000_0000 ==> (r | 0x8000_0000u64) & 0x8000_0000u64 != 0) by (bit_vector);
    assert(r < 0x8000_0000 ==> ((r | 0x8000_0000u64) & 0x7FFF_FFFFu64) == r) by (bit_vector);
}

/// Bit pattern of 1.0, the scale of a newly observed actor.
pub const SCALE_ONE_BITS: u32 = 0x3F80_0000;
/// Actor value index of health.
pub const AV_HEALTH: u8 = 0x14;

/// A packet the event side produces, described without its containers.
pub enum SyncOut {
    Pos(NetworkID, [u32; 3]),
    /// Rotation about x and z.
    Angle(NetworkID, [u32; 2]),
    /// The animation fields of a state sample, all present, firing absent.
    StateDelta(NetworkID, PlayerStateEvent),
    Health(NetworkID, u32),
    /// A newly observed actor with default state and empty value maps.
    ActorNew(NetworkID, u32, u32),
    Claim(NetworkID),
    Remove(NetworkID),
    /// `actor` activated object `id`.
    Activate(NetworkID, NetworkID),
    /// `id` fired `weapon`.
    Fire(NetworkID, u32),
}

/// Whether a packet is the one described.
pub open spec fn realizes(p: Packet, s: SyncOut) -> bool {
    match s {
        SyncOut::Pos(id, pos) => p == (Packet::UpdatePos { id, pos }),
        SyncOut::Angle(id, angle) => p == (Packet::UpdateAngle { id, angle }),
        SyncOut::StateDelta(id, e) => p == (Packet::ActorStateDelta {
            id,
            idle: Some(e.idle),
            moving: Some(e.moving),
            moving_xy: Some(e.moving_xy),
            weapon: Some(e.weapon),
            alerted: Some(e.alerted),
            sneaking: Some(e.sneaking),
            firing: None,
        }),
        SyncOut::Health(id, value) => p == (Packet::UpdateActorValue {
            id,
            base: false,
            index: AV_HEALTH,
            value,
        }),
        SyncOut::ActorNew(id, ref_id, base_id) => match p {
            Packet::ActorNew {
                id: i,
                ref_id: r,
                base_id: b,
                values,
                base_values,
                race,
                age,
                idle,
                moving,
                moving_xy,
                weapon,
                female,
                alerted,
                sneaking,
                dead,
                death_limbs,
                death_cause,
                scale,
            } => i == id && r == ref_id && b == base_id && values@.len() == 0
                && base_values@.len() == 0 && race == 0 && age == 0 && idle == 0 && moving == 0
                && moving_xy == 0 && weapon == 0 && !female && !alerted && !sneaking && !dead
                && death_limbs == 0 && death_cause == 0 && scale == SCALE_ONE_BITS,
            _ => false,
        },
        SyncOut::Claim(id) => p == (Packet::OwnershipClaim { id }),
        SyncOut::Remove(id) => p == (Packet::ObjectRemove { id, silent: false }),
        SyncOut::Activate(id, actor) => p == (Packet::UpdateActivate { id, actor }),
        SyncOut::Fire(id, weapon) => p == (Packet::UpdateFireWeapon { id, weapon }),
    }
}

/// The id of a reference-derived entity, as a value.
pub open spec fn entity(ref_id: u32) -> NetworkID {
    choose|n: NetworkID| n.value() == entity_of(ref_id)
}

/// The packets of a state sample about entity `id`.
pub open spec fn state_packets(id: NetworkID, e: PlayerStateEvent) -> Seq<SyncOut> {
    seq![
        SyncOut::Pos(id, e.pos),
        SyncOut::Angle(id, [e.angle[0], e.angle[2]]),
        SyncOut::StateDelta(id, e),
        SyncOut::Health(id, e.health),
    ]
}

/// The packets one event of type `t` with record `d` becomes.
pub open spec fn event_packets(t: u32, d: Seq<u8>, local: NetworkID) -> Seq<SyncOut> {
    if t == EVENT_PLAYER_STATE {
        if d.len() >= PLAYER_STATE_SIZE {
            state_packets(local, player_state_of(d))
        } else {
            Seq::empty()
        }
    } else if t == EVENT_NPC_SPAWN {
        if d.len() >= NPC_SPAWN_SIZE {
            let e = npc_spawn_of(d);
            let id = entity(e.ref_id);
            seq![SyncOut::ActorNew(id, e.ref_id, e.base_id), SyncOut::Pos(id, e.pos), SyncOut::Claim(id)]
        } else {
            Seq::empty()
        }
    } else if t == EVENT_NPC_STATE {
        if d.len() >= PLAYER_STATE_SIZE {
            let e = player_state_of(d);
            state_packets(entity(e.ref_id), e)
        } else {
            Seq::empty()
        }
    } else if t == EVENT_NPC_REMOVE {
        if d.len() >= 4 {
            seq![SyncOut::Remove(entity(u32_at(d, 0)))]
        } else {
            Seq::empty()
        }
    } else if t == EVENT_ACTIVATE {
        if d.len() >= 4 {
            seq![SyncOut::Activate(entity(u32_at(d, 0)), local)]
        } else {
            Seq::empty()
        }
    } else if t == EVENT_FIRE {
        if d.len() >= 4 {
            seq![SyncOut::Fire(local, u32_at(d, 0))]
        } else {
            Seq::empty()
        }
    } else {
        Seq::empty()
    }
}

/// The packets one bridge frame becomes: nothing unless it is an event
/// frame with at least the 4-byte event type.
pub open spec fn frame_packets(f: (u8, Seq<u8>), local: NetworkID) -> Seq<SyncOut> {
    if f.0 != PIPE_OP_EVENT || f.1.len() < 4 {
        Seq::empty()
    } else {
        event_packets(u32_at(f.1, 0), f.1.skip(4), local)
    }
}

/// The packets a sequence of bridge frames becomes, frame by frame.
pub open spec fn sync_packets(fs: Seq<(u8, Seq<u8>)>, local: NetworkID) -> Seq<SyncOut>
    decreases fs.len(),
{
    if fs.len() == 0 {
        Seq::empty()
    } else {
        sync_packets(fs.drop_last(), local) + frame_packets(fs.last(), local)
    }
}

/// Whether `out` is, element by element, the packets described by `s`.
pub open spec fn realizes_all(out: Seq<Packet>, s: Seq<SyncOut>) -> bool {
    out.len() == s.len() && forall|i: int| 0 <= i < s.len() ==> realizes(#[trigger] out[i], s[i])
}

/// Appends the packets of a state sample about `id`.
fn push_state_packets(out: &mut Vec<Packet>, id: NetworkID, e: &PlayerStateEvent)
    ensures
        final(out)@.len() == old(out)@.len() + 4,
        forall|i: int| 0 <= i < old(out)@.len() ==> final(out)@[i] == old(out)@[i],
        forall|k: int| 0 <= k < 4 ==> realizes(#[trigger] final(out)@[old(out)@.len() + k], state_packets(id, *e)[k]),
{
    out.push(Packet::UpdatePos { id, pos: e.pos });
    out.push(Packet::UpdateAngle { id, angle: [e.angle[0], e.angle[2]] });
    out.push(
        Packet::ActorStateDelta {
            id,
            idle: Some(e.idle),
            moving: Some(e.moving),
            moving_xy: Some(e.moving_xy),
            weapon: Some(e.weapon),
            alerted: Some(e.alerted),
            sneaking: Some(e.sneaking),
            firing: None,
        },
    );
    out.push(Packet::UpdateActorValue { id, base: false, index: AV_HEALTH, value: e.health });
}

/// The packets one event becomes, appended to `out`.
fn push_event_packets(out: &mut Vec<Packet>, t: u32, data: &[u8], local: NetworkID)
    ensures
        final(out)@.len() == old(out)@.len() + event_packets(t, data@, local).len(),
        forall|i: int| 0 <= i < old(out)@.len() ==> final(out)@[i] == old(out)@[i],
        forall|k: int| 0 <= k < event_packets(t, data@, local).len() ==> realizes(
            #[trigger] final(out)@[old(out)@.len() + k],
            event_packets(t, data@, local)[k],
        ),
{
    if t == EVENT_PLAYER_STATE {
        if let Some(e) = decode_player_state(data) {
            push_state_packets(out, local, &e);
        }
    } else if t == EVENT_NPC_SPAWN {
        if let Some(e) = decode_npc_spawn(data) {
            let id = entity_id(e.ref_id);
            proof {
                NetworkID::lemma_value_injective(id, entity(e.ref_id));
            }
            out.push(
                Packet::ActorNew {
                    id,
                    ref_id: e.ref_id,
                    base_id: e.base_id,
                    values: Vec::new(),
                    base_values: Vec::new(),
                    race: 0,
                    age: 0,
                    idle: 0,
                    moving: 0,
                    moving_xy: 0,
                    weapon: 0,
                    female: false,
                    alerted: false,
                    sneaking: false,
                    dead: false,
                    death_limbs: 0,
                    death_cause: 0,
                    scale: SCALE_ONE_BITS,
                },
            );
            out.push(Packet::UpdatePos { id, pos: e.pos });
            out.push(Packet::OwnershipClaim { id });
        }
    } else if t == EVENT_NPC_STATE {
        if let Some(e) = decode_player_state(data) {
            let id = entity_id(e.ref_id);
            proof {
                NetworkID::lemma_value_injective(id, entity(e.ref_id));
            }
            push_state_packets(out, id, &e);
        }
    } else if t == EVENT_NPC_REMOVE {
        if let Some(e) = decode_npc_remove(data) {
            let id = entity_id(e.ref_id);
            proof {
                NetworkID::lemma_value_injective(id, entity(e.ref_id));
            }
            out.push(Packet::ObjectRemove { id, silent: false });
        }
    } else if t == EVENT_ACTIVATE {
        if let Some(ref_id) = decode_ref_event(data) {
            let id = entity_id(ref_id);
            proof {
                NetworkID::lemma_value_injective(id, entity(ref_id));
            }
            out.push(Packet::UpdateActivate { id, actor: local });
        }
    } else if t == EVENT_FIRE {
        if let Some(ref_id) = decode_ref_event(data) {
            out.push(Packet::UpdateFireWeapon { id: local, weapon: ref_id });
        }
    }
}

/// Bridge event frames to server packets: the local player's state becomes
/// position, angle, animation-state and health updates; an observed NPC
/// becomes an `ActorNew`, its position and an ownership claim; an owned
/// NPC's state, removals, activations and shots are relayed. Frames that
/// are not events, and events that do not decode, produce nothing.
pub fn events_to_packets(frames: &[PipeFrame], local_id: NetworkID) -> (r: Vec<Packet>)
    ensures
        realizes_all(r@, sync_packets(frames_view(frames@), local_id)),
{
    let ghost fv = frames_view(frames@);
    let mut out: Vec<Packet> = Vec::new();
    let mut i: usize = 0;
    while i < frames.len()
        invariant
            i <= frames@.len(),
            fv == frames_view(frames@),
            realizes_all(out@, sync_packets(fv.take(i as int), local_id)),
        decreases frames@.len() - i,
    {
        let frame = &frames[i];
        let ghost before = out@;
        let ghost prev = sync_packets(fv.take(i as int), local_id);
        proof {
            assert(fv.take(i as int + 1).drop_last() =~= fv.take(i as int));
            assert(fv.take(i as int + 1).last() == fv[i as int]);
            assert(fv[i as int] == (frame.opcode, frame.payload@));
        }
        let ghost added = frame_packets(fv[i as int], local_id);
        if frame.opcode == PIPE_OP_EVENT {
            if let Some((event_type, data)) = decode_event(frame.payload.as_slice()) {
                push_event_packets(&mut out, event_type, data, local_id);
                proof {
                    assert(added == event_packets(event_type, data@, local_id));
                    assert forall|k: int| prev.len() <= k < prev.len() + added.len() implies realizes(
                        #[trigger] out@[k],
                        added[k - prev.len()],
                    ) by {
                        assert(out@[before.len() + (k - prev.len())] == out@[k]);
                    }
                }
            } else {
                assert(added.len() == 0);
            }
        } else {
            assert(added.len() == 0);
        }
        proof {
            let next = sync_packets(fv.take(i as int + 1), local_id);
            assert(next == prev + added);
            assert forall|k: int| 0 <= k < next.len() implies realizes(#[trigger] out@[k], next[k]) by {
                if k < prev.len() {
                    assert(out@[k] == before[k]);
                } else {
                    assert(next[k] == added[k - prev.len()]);
                }
            }
        }
        i = i + 1;
    }
    assert(fv.take(i as int) =~= fv);
    out
}

/// The entity whose local copy a server packet changes through a bridge
/// command, if the packet maps to one. Position, angle, value, death and
/// fire updates about the local player are skipped.
pub open spec fn command_target(p: Packet, local: NetworkID) -> Option<NetworkID> {
    match p {
        Packet::UpdatePos { id, .. } => if id != local { Some(id) } else { None },
        Packet::UpdateAngle { id, .. } => if id != local { Some(id) } else { None },
        Packet::UpdateActorValue { id, .. } => if id != local { Some(id) } else { None },
        Packet::UpdateActorDead { id, dead, .. } => if dead && id != local { Some(id) } else { None },
        Packet::UpdateActivate { id, .. } => Some(id),
        Packet::UpdateFireWeapon { id, .. } => if id != local { Some(id) } else { None },
        Packet::UpdateLock { id, .. } => Some(id),
        Packet::UpdateScale { id, .. } => Some(id),
        _ => None,
    }
}

/// The bridge command applying a packet to the game reference `r`.
pub open spec fn command_for(p: Packet, r: u32) -> (u32, Seq<Param>) {
    match p {
        Packet::UpdatePos { pos, .. } => (
            OP_SET_POS,
            seq![Param::U32(r), Param::F32(pos[0]), Param::F32(pos[1]), Param::F32(pos[2])],
        ),
        Packet::UpdateAngle { angle, .. } => (
            OP_SET_ANGLE,
            seq![Param::U32(r), Param::F32(angle[0]), Param::F32(0), Param::F32(angle[1])],
        ),
        Packet::UpdateActorValue { index, value, .. } => (
            OP_SET_ACTOR_VALUE,
            seq![Param::U32(r), Param::U8(index), Param::F32(value)],
        ),
        Packet::UpdateActorDead { .. } => (
            OP_KILL,
            seq![Param::U32(r), Param::U32(0), Param::U8(0), Param::U8(0)],
        ),
        Packet::UpdateActivate { .. } => (OP_GET_ACTIVATE, seq![Param::U32(r)]),
        Packet::UpdateFireWeapon { weapon, .. } => (OP_FIRE_WEAPON, seq![Param::U32(r), Param::U32(weapon)]),
        Packet::UpdateLock { lock, .. } => (OP_SET_LOCK, seq![Param::U32(r), Param::U32(lock)]),
        Packet::UpdateScale { scale, .. } => (OP_SET_SCALE, seq![Param::U32(r), Param::F32(scale)]),
        _ => (0, Seq::empty()),
    }
}

/// The commands for a sequence of packets, given what each packet's
/// target resolved to (`rs[i]` for packet `i`): a command for every packet
/// with a target that resolved to a game reference, in packet order.
pub open spec fn commands_spec(ps: Seq<Packet>, local: NetworkID, rs: Seq<Option<u32>>) -> Seq<(u32, Seq<Param>)>
    decreases ps.len(),
{
    if ps.len() == 0 {
        Seq::empty()
    } else {
        let prev = commands_spec(ps.drop_last(), local, rs.take(ps.len() - 1));
        match (command_target(ps.last(), local), rs[ps.len() - 1]) {
            (Some(_), Some(r)) => prev.push(command_for(ps.last(), r)),
            _ => prev,
        }
    }
}

/// Commands as (opcode, parameters).
pub open spec fn commands_view(v: Seq<(u32, Vec<Param>)>) -> Seq<(u32, Seq<Param>)> {
    v.map_values(|c: (u32, Vec<Param>)| (c.0, c.1@))
}

/// The command for a packet with a target, addressed to reference `r`.
fn build_command(p: &Packet, r: u32, Ghost(local): Ghost<NetworkID>) -> (c: (u32, Vec<Param>))
    requires
        command_target(*p, local) is Some,
    ensures
        (c.0, c.1@) == command_for(*p, r),
{
    let (op, params) = match p {
        Packet::UpdatePos { pos, .. } => (OP_SET_POS, vec![Param::U32(r), Param::F32(pos[0]), Param::F32(pos[1]), Param::F32(pos[2])]),
        Packet::UpdateAngle { angle, .. } => (OP_SET_ANGLE, vec![Param::U32(r), Param::F32(angle[0]), Param::F32(0), Param::F32(angle[1])]),
        Packet::UpdateActorValue { index, value, .. } => (OP_SET_ACTOR_VALUE, vec![Param::U32(r), Param::U8(*index), Param::F32(*value)]),
        Packet::UpdateActorDead { .. } => (OP_KILL, vec![Param::U32(r), Param::U32(0), Param::U8(0), Param::U8(0)]),
        Packet::UpdateActivate { .. } => (OP_GET_ACTIVATE, vec![Param::U32(r)]),
        Packet::UpdateFireWeapon { weapon, .. } => (OP_FIRE_WEAPON, vec![Param::U32(r), Param::U32(*weapon)]),
        Packet::UpdateLock { lock, .. } => (OP_SET_LOCK, vec![Param::U32(r), Param::U32(*lock)]),
        Packet::UpdateScale { scale, .. } => (OP_SET_SCALE, vec![Param::U32(r), Param::F32(*scale)]),
        _ => (0, Vec::new()),
    };
    assert(params@ =~= command_for(*p, r).1);
    (op, params)
}

/// The target of a packet that maps to a command.
fn target_of(p: &Packet, local: NetworkID) -> (r: Option<NetworkID>)
    ensures
        r == command_target(*p, local),
{
    match p {
        Packet::UpdatePos { id, .. } => if *id != local { Some(*id) } else { None },
        Packet::UpdateAngle { id, .. } => if *id != local { Some(*id) } else { None },
        Packet::UpdateActorValue { id, .. } => if *id != local { Some(*id) } else { None },
        Packet::UpdateActorDead { id, dead, .. } => if *dead && *id != local { Some(*id) } else { None },
        Packet::UpdateActivate { id, .. } => Some(*id),
        Packet::UpdateFireWeapon { id, .. } => if *id != local { Some(*id) } else { None },
        Packet::UpdateLock { id, .. } => Some(*id),
        Packet::UpdateScale { id, .. } => Some(*id),
        _ => None,
    }
}

/// Server packets to bridge commands for remote entities (never the local
/// player): positions, angles, actor values, deaths, activations, shots,
/// lock and scale changes. `resolve_ref` maps a server entity to its game
/// reference; packets whose entity does not resolve are skipped.
pub fn packets_to_commands<F: Fn(NetworkID) -> Option<u32>>(
    packets: &[Packet],
    local_id: NetworkID,
    resolve_ref: F,
) -> (r: Vec<(u32, Vec<Param>)>)
    requires
        forall|id: NetworkID| resolve_ref.requires((id,)),
    ensures
        exists|rs: Seq<Option<u32>>|
            {
                &&& rs.len() == packets@.len()
                &&& forall|i: int|
                    0 <= i < packets@.len() ==> (command_target(packets@[i], local_id) matches Some(id)
                        ==> resolve_ref.ensures((id,), #[trigger] rs[i]))
                &&& commands_view(r@) == commands_spec(packets@, local_id, rs)
            },
{
    let mut out: Vec<(u32, Vec<Param>)> = Vec::new();
    let ghost mut rs: Seq<Option<u32>> = Seq::empty();
    let mut i: usize = 0;
    while i < packets.len()
        invariant
            i <= packets@.len(),
            rs.len() == i,
            forall|id: NetworkID| resolve_ref.requires((id,)),
            forall|k: int|
                0 <= k < i ==> (command_target(packets@[k], local_id) matches Some(id)
                    ==> resolve_ref.ensures((id,), #[trigger] rs[k])),
            commands_view(out@) == commands_spec(packets@.take(i as int), local_id, rs),
        decreases packets@.len() - i,
    {
        let p = &packets[i];
        let ghost prev_out = out@;
        let ghost prev_rs = rs;
        match target_of(p, local_id) {
            Some(id) => {
                let res = resolve_ref(id);
                proof {
                    rs = rs.push(res);
                }
                if let Some(r) = res {
                    let c = build_command(p, r, Ghost(local_id));
                    out.push(c);
                }
            },
            None => {
                proof {
                    rs = rs.push(None);
                }
            },
        }
        proof {
            let ps = packets@.take(i as int + 1);
            assert(ps.drop_last() =~= packets@.take(i as int));
            assert(ps.last() == packets@[i as int]);
            assert(rs.take(ps.len() - 1) =~= prev_rs);
            assert(commands_view(out@) =~= commands_spec(ps, local_id, rs));
        }
        i = i + 1;
    }
    assert(packets@.take(i as int) =~= packets@);
    out
}

/// The packets a player-state sample from the bridge becomes, for the
/// local entity: its position, its rotation about x and z, its animation
/// state (every field present, firing absent) and its health, in that
/// order, read from the engine record as the bridge encodes it.
#[verifier::rlimit(40)]
pub proof fn law_player_state_event_becomes_packets(e: PlayerStateEvent, local: NetworkID, out: Seq<Packet>)
    requires
        realizes_all(
            out,
            sync_packets(
                seq![(PIPE_OP_EVENT, crate::bytes::le32(EVENT_PLAYER_STATE) + crate::event::player_state_bytes(e))],
                local,
            ),
        ),
    ensures
        out.len() == 4,
        out[0] == (Packet::UpdatePos { id: local, pos: e.pos }),
        out[1] == (Packet::UpdateAngle { id: local, angle: [e.angle[0], e.angle[2]] }),
        out[2] == (Packet::ActorStateDelta {
            id: local,
            idle: Some(e.idle),
            moving: Some(e.moving),
            moving_xy: Some(e.moving_xy),
            weapon: Some(e.weapon),
            alerted: Some(e.alerted),
            sneaking: Some(e.sneaking),
            firing: None,
        }),
        out[3] == (Packet::UpdateActorValue { id: local, base: false, index: 0x14, value: e.health }),
{
    let rec = crate::event::player_state_bytes(e);
    let payload = crate::bytes::le32(EVENT_PLAYER_STATE) + rec;
    let fs = seq![(PIPE_OP_EVENT, payload)];
    crate::event::law_player_state_roundtrip(e);
    crate::event::lemma_u32_at_concat(Seq::<u8>::empty(), EVENT_PLAYER_STATE, rec);
    assert(Seq::<u8>::empty() + crate::bytes::le32(EVENT_PLAYER_STATE) + rec =~= payload);
    assert(payload.skip(4) =~= rec);
    assert(fs.drop_last() =~= Seq::<(u8, Seq<u8>)>::empty());
    assert(sync_packets(fs.drop_last(), local) =~= Seq::<SyncOut>::empty());
    let sp = state_packets(local, e);
    assert(sync_packets(fs, local) =~= sp);
    assert(realizes(out[0], sp[0]));
    assert(realizes(out[1], sp[1]));
    assert(realizes(out[2], sp[2]));
    assert(realizes(out[3], sp[3]));
}

/// A remote entity's movement from the server becomes one bridge command
/// on its game reference `r`: a position update sets the position (opcode
/// 2) to the packet's three values, a rotation update sets the rotation
/// (opcode 4) from the packet's x and z rotation with y zero. The local
/// player's own updates, and updates whose target has no reference,
/// become no command.
pub proof fn law_remote_movement_becomes_commands(id: NetworkID, local: NetworkID, r: u32, pos: [u32; 3], angle: [u32; 2])
    ensures
        ({
            let mv = Packet::UpdatePos { id, pos };
            let rot = Packet::UpdateAngle { id, angle };
            &&& id != local ==> commands_spec(seq![mv], local, seq![Some(r)]) == seq![
                (0x0002u32, seq![Param::U32(r), Param::F32(pos[0]), Param::F32(pos[1]), Param::F32(pos[2])]),
            ]
            &&& id != local ==> commands_spec(seq![rot], local, seq![Some(r)]) == seq![
                (0x0004u32, seq![Param::U32(r), Param::F32(angle[0]), Param::F32(0), Param::F32(angle[1])]),
            ]
            &&& id == local ==> commands_spec(seq![mv], local, seq![Some(r)]).len() == 0
            &&& id == local ==> commands_spec(seq![rot], local, seq![Some(r)]).len() == 0
            &&& commands_spec(seq![mv], local, seq![None]).len() == 0
            &&& commands_spec(seq![rot], local, seq![None]).len() == 0
        }),
{
    let mv = Packet::UpdatePos { id, pos };
    let rot = Packet::UpdateAngle { id, angle };
    assert(seq![mv].drop_last() =~= Seq::<Packet>::empty());
    assert(seq![rot].drop_last() =~= Seq::<Packet>::empty());
    assert(seq![mv].last() == mv);
    assert(seq![rot].last() == rot);
    assert(commands_spec(Seq::<Packet>::empty(), local, seq![Some(r)].take(0)) =~= Seq::<(u32, Seq<Param>)>::empty());
    assert(commands_spec(Seq::<Packet>::empty(), local, seq![None::<u32>].take(0)) =~= Seq::<(u32, Seq<Param>)>::empty());
    assert(Seq::<(u32, Seq<Param>)>::empty().push(command_for(mv, r)) =~= seq![command_for(mv, r)]);
    assert(Seq::<(u32, Seq<Param>)>::empty().push(command_for(rot, r)) =~= seq![command_for(rot, r)]);
}

} // verus!
