//! Client-side object cache, updated by server packets and read by the
//! renderer. Positions, angles, scales, conditions and health are IEEE-754
//! bit patterns. Position samples for the render-behind interpolation are
//! handed back to the caller, which owns the interpolation buffers.
use vstd::prelude::*;
use crate::id::NetworkID;
use crate::protocol::Packet;
use crate::string_cache::{StringTable, TableView, received, resolved_text};
use crate::text::{chars_of, string_of_chars, decimal};

verus! {

/// Bit pattern of 100.0, the health of an actor whose health is unknown.
pub const FULL_HEALTH_BITS: u32 = 0x42C8_0000;
/// Actor value index of health.
pub const AV_HEALTH: u8 = 0x14;

/// A client-side object.
#[derive(Debug, Clone, PartialEq, Eq)]
pub enum ClientObject {
    Object {
        ref_id: u32,
        base_id: u32,
        name: String,
        pos: [u32; 3],
        angle: [u32; 3],
        scale: u32,
        cell: u32,
        enabled: bool,
    },
    Item { base_id: u32, cond: u32, count: u32, equipped: bool },
    Actor {
        ref_id: u32,
        pos: [u32; 3],
        angle: [u32; 3],
        dead: bool,
        health: u32,
        alerted: bool,
        sneaking: bool,
        moving: u8,
        weapon: u8,
    },
    Player { ref_id: u32, name: String, pos: [u32; 3], angle: [u32; 3], health: u32 },
}

/// A client object with its name as characters.
pub enum ObjView {
    Object {
        ref_id: u32,
        base_id: u32,
        name: Seq<char>,
        pos: [u32; 3],
        angle: [u32; 3],
        scale: u32,
        cell: u32,
        enabled: bool,
    },
    Item { base_id: u32, cond: u32, count: u32, equipped: bool },
    Actor {
        ref_id: u32,
        pos: [u32; 3],
        angle: [u32; 3],
        dead: bool,
        health: u32,
        alerted: bool,
        sneaking: bool,
        moving: u8,
        weapon: u8,
    },
    Player { ref_id: u32, name: Seq<char>, pos: [u32; 3], angle: [u32; 3], health: u32 },
}

impl ClientObject {
    /// The object with its name as characters.
    pub open spec fn view(&self) -> ObjView {
        match *self {
            ClientObject::Object { ref_id, base_id, name, pos, angle, scale, cell, enabled } => ObjView::Object {
                ref_id,
                base_id,
                name: name@,
                pos,
                angle,
                scale,
                cell,
                enabled,
            },
            ClientObject::Item { base_id, cond, count, equipped } => ObjView::Item { base_id, cond, count, equipped },
            ClientObject::Actor { ref_id, pos, angle, dead, health, alerted, sneaking, moving, weapon } => ObjView::Actor {
                ref_id,
                pos,
                angle,
                dead,
                health,
                alerted,
                sneaking,
                moving,
                weapon,
            },
            ClientObject::Player { ref_id, name, pos, angle, health } => ObjView::Player {
                ref_id,
                name: name@,
                pos,
                angle,
                health,
            },
        }
    }
}

/// What the interpolation buffers must do after a packet.
#[derive(Debug, Clone, Copy, PartialEq, Eq)]
pub enum InterpUpdate {
    /// Nothing.
    Keep,
    /// Push a position sample for an entity (creating its buffer).
    Push(NetworkID, [u32; 3]),
    /// Drop an entity's buffer.
    Drop(NetworkID),
}

/// No id occurs twice.
pub open spec fn ids_distinct(s: Seq<(NetworkID, ObjView)>) -> bool {
    forall|i: int, j: int| 0 <= i < j < s.len() ==> s[i].0 != s[j].0
}

/// Position of the object with id `id`.
pub open spec fn find_obj(s: Seq<(NetworkID, ObjView)>, id: NetworkID) -> Option<int> {
    if exists|i: int| 0 <= i < s.len() && s[i].0 == id {
        Some(choose|i: int| 0 <= i < s.len() && s[i].0 == id)
    } else {
        None
    }
}

/// The objects after storing `o` under `id` (replacing the object there).
pub open spec fn put_obj(s: Seq<(NetworkID, ObjView)>, id: NetworkID, o: ObjView) -> Seq<(NetworkID, ObjView)> {
    match find_obj(s, id) {
        Some(i) => s.update(i, (id, o)),
        None => s.push((id, o)),
    }
}

/// The objects after removing the one under `id`.
pub open spec fn drop_obj(s: Seq<(NetworkID, ObjView)>, id: NetworkID) -> Seq<(NetworkID, ObjView)> {
    match find_obj(s, id) {
        Some(i) => s.remove(i),
        None => s,
    }
}

/// The first value under `key` in a list of pairs.
pub open spec fn first_value(pairs: Seq<(u8, u32)>, key: u8) -> Option<u32>
    decreases pairs.len(),
{
    if pairs.len() == 0 {
        None
    } else if pairs[0].0 == key {
        Some(pairs[0].1)
    } else {
        first_value(pairs.drop_first(), key)
    }
}

/// Abstract registry state.
pub struct RegView {
    pub objects: Seq<(NetworkID, ObjView)>,
    pub table: TableView,
    pub owned: Set<NetworkID>,
    pub weather: u32,
}

/// A change to a known object.
pub enum Change {
    Name(Seq<char>),
    Pos([u32; 3]),
    Count(u32),
    Condition(u32),
    Equipped(bool),
    State(bool, bool, u8, u8),
    Delta(Option<u8>, Option<u8>, Option<bool>, Option<bool>),
    Health(u32),
    Dead(bool),
}

/// An object after a change, when the change applies to its kind.
pub open spec fn changed(c: Change, o: ObjView) -> Option<ObjView> {
    match (c, o) {
        (Change::Name(n), ObjView::Object { ref_id, base_id, pos, angle, scale, cell, enabled, .. }) => Some(
            ObjView::Object { ref_id, base_id, name: n, pos, angle, scale, cell, enabled },
        ),
        (Change::Pos(p), ObjView::Object { ref_id, base_id, name, angle, scale, cell, enabled, .. }) => Some(
            ObjView::Object { ref_id, base_id, name, pos: p, angle, scale, cell, enabled },
        ),
        (Change::Pos(p), ObjView::Actor { ref_id, angle, dead, health, alerted, sneaking, moving, weapon, .. }) => Some(
            ObjView::Actor { ref_id, pos: p, angle, dead, health, alerted, sneaking, moving, weapon },
        ),
        (Change::Pos(p), ObjView::Player { ref_id, name, angle, health, .. }) => Some(
            ObjView::Player { ref_id, name, pos: p, angle, health },
        ),
        (Change::Count(n), ObjView::Item { base_id, cond, equipped, .. }) => Some(
            ObjView::Item { base_id, cond, count: n, equipped },
        ),
        (Change::Condition(v), ObjView::Item { base_id, count, equipped, .. }) => Some(
            ObjView::Item { base_id, cond: v, count, equipped },
        ),
        (Change::Equipped(e), ObjView::Item { base_id, cond, count, .. }) => Some(
            ObjView::Item { base_id, cond, count, equipped: e },
        ),
        (Change::State(a, s, m, w), ObjView::Actor { ref_id, pos, angle, dead, health, .. }) => Some(
            ObjView::Actor { ref_id, pos, angle, dead, health, alerted: a, sneaking: s, moving: m, weapon: w },
        ),
        (Change::Delta(m, w, a, s), ObjView::Actor { ref_id, pos, angle, dead, health, alerted, sneaking, moving, weapon }) => Some(
            ObjView::Actor {
                ref_id,
                pos,
                angle,
                dead,
                health,
                alerted: match a { Some(v) => v, None => alerted },
                sneaking: match s { Some(v) => v, None => sneaking },
                moving: match m { Some(v) => v, None => moving },
                weapon: match w { Some(v) => v, None => weapon },
            },
        ),
        (Change::Health(h), ObjView::Actor { ref_id, pos, angle, dead, alerted, sneaking, moving, weapon, .. }) => Some(
            ObjView::Actor { ref_id, pos, angle, dead, health: h, alerted, sneaking, moving, weapon },
        ),
        (Change::Dead(d), ObjView::Actor { ref_id, pos, angle, health, alerted, sneaking, moving, weapon, .. }) => Some(
            ObjView::Actor { ref_id, pos, angle, dead: d, health, alerted, sneaking, moving, weapon },
        ),
        _ => None,
    }
}

/// The objects after a change to the object under `id`.
pub open spec fn apply_change(s: Seq<(NetworkID, ObjView)>, id: NetworkID, c: Change) -> Seq<(NetworkID, ObjView)> {
    match find_obj(s, id) {
        Some(i) => match changed(c, s[i].1) {
            Some(o) => s.update(i, (id, o)),
            None => s,
        },
        None => s,
    }
}

/// The name a new player is listed under.
pub open spec fn player_name(id: NetworkID) -> Seq<char> {
    "Player_"@ + decimal(id.value() as nat)
}

/// The registry after a packet, and what the interpolation buffers must do.
pub open spec fn reg_step(v: RegView, p: Packet) -> (RegView, InterpUpdate) {
    match p {
        Packet::ObjectNew { id, ref_id, name, net_pos, angle, scale, cell, enabled, .. } => (
            RegView {
                objects: put_obj(
                    v.objects,
                    id,
                    ObjView::Object {
                        ref_id,
                        base_id: 0,
                        name: resolved_text(v.table, name.view_cs()),
                        pos: net_pos,
                        angle,
                        scale,
                        cell,
                        enabled,
                    },
                ),
                table: received(v.table, name.view_cs()),
                ..v
            },
            InterpUpdate::Push(id, net_pos),
        ),
        Packet::UpdateName { id, name } => (
            RegView {
                objects: apply_change(v.objects, id, Change::Name(resolved_text(v.table, name.view_cs()))),
                table: received(v.table, name.view_cs()),
                ..v
            },
            InterpUpdate::Keep,
        ),
        Packet::UpdatePos { id, pos } => (
            RegView { objects: apply_change(v.objects, id, Change::Pos(pos)), ..v },
            InterpUpdate::Push(id, pos),
        ),
        Packet::ObjectRemove { id, .. } => (
            RegView { objects: drop_obj(v.objects, id), ..v },
            InterpUpdate::Drop(id),
        ),
        Packet::ItemNew { id, base_id, count, condition, equipped, .. } => (
            RegView {
                objects: put_obj(v.objects, id, ObjView::Item { base_id, cond: condition, count, equipped }),
                ..v
            },
            InterpUpdate::Keep,
        ),
        Packet::UpdateItemCount { id, count, .. } => (
            RegView { objects: apply_change(v.objects, id, Change::Count(count)), ..v },
            InterpUpdate::Keep,
        ),
        Packet::UpdateItemCondition { id, condition, .. } => (
            RegView { objects: apply_change(v.objects, id, Change::Condition(condition)), ..v },
            InterpUpdate::Keep,
        ),
        Packet::UpdateItemEquipped { id, equipped, .. } => (
            RegView { objects: apply_change(v.objects, id, Change::Equipped(equipped)), ..v },
            InterpUpdate::Keep,
        ),
        Packet::ActorNew { id, ref_id, values, dead, .. } => (
            RegView {
                objects: put_obj(
                    v.objects,
                    id,
                    ObjView::Actor {
                        ref_id,
                        pos: [0u32, 0u32, 0u32],
                        angle: [0u32, 0u32, 0u32],
                        dead,
                        health: match first_value(values@, AV_HEALTH) {
                            Some(h) => h,
                            None => FULL_HEALTH_BITS,
                        },
                        alerted: false,
                        sneaking: false,
                        moving: 0,
                        weapon: 0,
                    },
                ),
                ..v
            },
            InterpUpdate::Keep,
        ),
        Packet::UpdateActorState { id, alerted, sneaking, moving, weapon, .. } => (
            RegView {
                objects: apply_change(v.objects, id, Change::State(alerted, sneaking, moving, weapon)),
                ..v
            },
            InterpUpdate::Keep,
        ),
        Packet::ActorStateDelta { id, moving, weapon, alerted, sneaking, .. } => (
            RegView {
                objects: apply_change(v.objects, id, Change::Delta(moving, weapon, alerted, sneaking)),
                ..v
            },
            InterpUpdate::Keep,
        ),
        Packet::OwnershipGranted { id } => (RegView { owned: v.owned.insert(id), ..v }, InterpUpdate::Keep),
        Packet::OwnershipReleased { id } => (RegView { owned: v.owned.remove(id), ..v }, InterpUpdate::Keep),
        Packet::UpdateActorValue { id, index, value, .. } => (
            if index == AV_HEALTH {
                RegView { objects: apply_change(v.objects, id, Change::Health(value)), ..v }
            } else {
                v
            },
            InterpUpdate::Keep,
        ),
        Packet::UpdateActorDead { id, dead, .. } => (
            RegView { objects: apply_change(v.objects, id, Change::Dead(dead)), ..v },
            InterpUpdate::Keep,
        ),
        Packet::PlayerNew { id, ref_id, .. } => (
            RegView {
                objects: put_obj(
                    v.objects,
                    id,
                    ObjView::Player {
                        ref_id,
                        name: player_name(id),
                        pos: [0u32, 0u32, 0u32],
                        angle: [0u32, 0u32, 0u32],
                        health: FULL_HEALTH_BITS,
                    },
                ),
                ..v
            },
            InterpUpdate::Keep,
        ),
        _ => (v, InterpUpdate::Keep),
    }
}

/// With distinct ids, the object at `i` is the one `find_obj` finds.
proof fn lemma_find_obj_is(s: Seq<(NetworkID, ObjView)>, id: NetworkID, i: int)
    requires
        ids_distinct(s),
        0 <= i < s.len(),
        s[i].0 == id,
    ensures
        find_obj(s, id) == Some(i),
{
    let c = choose|j: int| 0 <= j < s.len() && s[j].0 == id;
    assert(0 <= c < s.len() && s[c].0 == id);
    if c != i {
        if c < i {
            assert(s[c].0 != s[i].0);
        } else {
            assert(s[i].0 != s[c].0);
        }
    }
}

/// A change with its strings as `String`s.
pub enum ObjChange {
    Name(String),
    Pos([u32; 3]),
    Count(u32),
    Condition(u32),
    Equipped(bool),
    State(bool, bool, u8, u8),
    Delta(Option<u8>, Option<u8>, Option<bool>, Option<bool>),
    Health(u32),
    Dead(bool),
}

impl ObjChange {
    /// The change with its strings as characters.
    pub open spec fn view(&self) -> Change {
        match self {
            ObjChange::Name(n) => Change::Name(n@),
            ObjChange::Pos(p) => Change::Pos(*p),
            ObjChange::Count(c) => Change::Count(*c),
            ObjChange::Condition(c) => Change::Condition(*c),
            ObjChange::Equipped(e) => Change::Equipped(*e),
            ObjChange::State(a, s, m, w) => Change::State(*a, *s, *m, *w),
            ObjChange::Delta(m, w, a, s) => Change::Delta(*m, *w, *a, *s),
            ObjChange::Health(h) => Change::Health(*h),
            ObjChange::Dead(d) => Change::Dead(*d),
        }
    }
}

/// An object after a change; the object itself when the change does not
/// apply to its kind.
fn change_object(c: ObjChange, o: ClientObject) -> (r: ClientObject)
    ensures
        match changed(c.view(), o@) {
            Some(n) => r@ == n,
            None => r@ == o@,
        },
{
    match (c, o) {
        (ObjChange::Name(n), ClientObject::Object { ref_id, base_id, pos, angle, scale, cell, enabled, .. }) => {
            ClientObject::Object { ref_id, base_id, name: n, pos, angle, scale, cell, enabled }
        },
        (ObjChange::Pos(p), ClientObject::Object { ref_id, base_id, name, angle, scale, cell, enabled, .. }) => {
            ClientObject::Object { ref_id, base_id, name, pos: p, angle, scale, cell, enabled }
        },
        (ObjChange::Pos(p), ClientObject::Actor { ref_id, angle, dead, health, alerted, sneaking, moving, weapon, .. }) => {
            ClientObject::Actor { ref_id, pos: p, angle, dead, health, alerted, sneaking, moving, weapon }
        },
        (ObjChange::Pos(p), ClientObject::Player { ref_id, name, angle, health, .. }) => {
            ClientObject::Player { ref_id, name, pos: p, angle, health }
        },
        (ObjChange::Count(n), ClientObject::Item { base_id, cond, equipped, .. }) => {
            ClientObject::Item { base_id, cond, count: n, equipped }
        },
        (ObjChange::Condition(v), ClientObject::Item { base_id, count, equipped, .. }) => {
            ClientObject::Item { base_id, cond: v, count, equipped }
        },
        (ObjChange::Equipped(e), ClientObject::Item { base_id, cond, count, .. }) => {
            ClientObject::Item { base_id, cond, count, equipped: e }
        },
        (ObjChange::State(a, s, m, w), ClientObject::Actor { ref_id, pos, angle, dead, health, .. }) => {
            ClientObject::Actor { ref_id, pos, angle, dead, health, alerted: a, sneaking: s, moving: m, weapon: w }
        },
        (ObjChange::Delta(m, w, a, s), ClientObject::Actor { ref_id, pos, angle, dead, health, alerted, sneaking, moving, weapon }) => {
            ClientObject::Actor {
                ref_id,
                pos,
                angle,
                dead,
                health,
                alerted: match a { Some(v) => v, None => alerted },
                sneaking: match s { Some(v) => v, None => sneaking },
                moving: match m { Some(v) => v, None => moving },
                weapon: match w { Some(v) => v, None => weapon },
            }
        },
        (ObjChange::Health(h), ClientObject::Actor { ref_id, pos, angle, dead, alerted, sneaking, moving, weapon, .. }) => {
            ClientObject::Actor { ref_id, pos, angle, dead, health: h, alerted, sneaking, moving, weapon }
        },
        (ObjChange::Dead(d), ClientObject::Actor { ref_id, pos, angle, health, alerted, sneaking, moving, weapon, .. }) => {
            ClientObject::Actor { ref_id, pos, angle, dead: d, health, alerted, sneaking, moving, weapon }
        },
        (_, o) => o,
    }
}

/// Client-side object registry.
#[derive(Debug)]
pub struct ClientRegistry {
    objects: Vec<(NetworkID, ClientObject)>,
    string_table: StringTable,
    owned_actors: Vec<NetworkID>,
    /// Current weather form id.
    pub weather: u32,
}

impl ClientRegistry {
    /// The registry's abstract state.
    pub closed spec fn view(&self) -> RegView {
        RegView {
            objects: self.objects@.map_values(|p: (NetworkID, ClientObject)| (p.0, p.1@)),
            table: self.string_table.view(),
            owned: self.owned_actors@.to_set(),
            weather: self.weather,
        }
    }

    /// Ids are distinct, the string table is well formed and no owned
    /// actor is listed twice.
    pub closed spec fn wf(&self) -> bool {
        &&& ids_distinct(self.view().objects)
        &&& self.string_table.wf()
        &&& self.owned_actors@.no_duplicates()
    }

    /// An empty registry.
    pub fn new() -> (r: ClientRegistry)
        ensures
            r.wf(),
            r.view().objects == Seq::<(NetworkID, ObjView)>::empty(),
            r.view().table.ids == Seq::<Seq<char>>::empty(),
            r.view().table.index == Map::<Seq<char>, u16>::empty(),
            r.view().owned == Set::<NetworkID>::empty(),
            r.view().weather == 0,
    {
        let r = ClientRegistry {
            objects: Vec::new(),
            string_table: StringTable::new(),
            owned_actors: Vec::new(),
            weather: 0,
        };
        assert(r.view().objects =~= Seq::<(NetworkID, ObjView)>::empty());
        assert(r.view().owned =~= Set::<NetworkID>::empty());
        r
    }

    /// Position of the object with id `id`.
    fn position(&self, id: NetworkID) -> (r: Option<usize>)
        requires
            self.wf(),
        ensures
            match r {
                Some(i) => find_obj(self.view().objects, id) == Some(i as int) && i < self.objects@.len(),
                None => find_obj(self.view().objects, id) is None,
            },
    {
        let ghost s = self.view().objects;
        let mut i: usize = 0;
        while i < self.objects.len()
            invariant
                s == self.objects@.map_values(|p: (NetworkID, ClientObject)| (p.0, p.1@)),
                ids_distinct(s),
                i <= self.objects@.len(),
                forall|j: int| 0 <= j < i ==> s[j].0 != id,
            decreases self.objects@.len() - i,
        {
            if self.objects[i].0 == id {
                proof {
                    assert(s[i as int].0 == id);
                    lemma_find_obj_is(s, id, i as int);
                }
                return Some(i);
            }
            i = i + 1;
        }
        None
    }

    /// Stores an object under `id`.
    fn put(&mut self, id: NetworkID, o: ClientObject)
        requires
            old(self).wf(),
        ensures
            final(self).wf(),
            final(self).view() == (RegView { objects: put_obj(old(self).view().objects, id, o@), ..old(self).view() }),
            final(self).view().weather == old(self).view().weather,
    {
        let ghost s = self.view().objects;
        let ghost ov = o@;
        match self.position(id) {
            Some(i) => {
                proof {
                    assert(s[i as int].0 == id);
                }
                self.objects.set(i, (id, o));
                proof {
                    assert(self.view().objects =~= s.update(i as int, (id, ov)));
                    assert forall|a: int, b: int| 0 <= a < b < s.len() implies self.view().objects[a].0
                        != self.view().objects[b].0 by {
                        assert(s[a].0 != s[b].0);
                    }
                }
            },
            None => {
                self.objects.push((id, o));
                proof {
                    assert(self.view().objects =~= s.push((id, ov)));
                    assert forall|a: int, b: int| 0 <= a < b < s.len() + 1 implies self.view().objects[a].0
                        != self.view().objects[b].0 by {
                        if b < s.len() {
                            assert(s[a].0 != s[b].0);
                        } else {
                            assert(s[a].0 != id);
                        }
                    }
                }
            },
        }
    }

    /// Removes the object under `id`.
    fn take(&mut self, id: NetworkID)
        requires
            old(self).wf(),
        ensures
            final(self).wf(),
            final(self).view() == (RegView { objects: drop_obj(old(self).view().objects, id), ..old(self).view() }),
            final(self).view().weather == old(self).view().weather,
    {
        let ghost s = self.view().objects;
        match self.position(id) {
            Some(i) => {
                let ghost before = self.objects@;
                self.objects.remove(i);
                proof {
                    assert(self.objects@ == before.remove(i as int));
                    assert(self.view().objects =~= s.remove(i as int));
                    assert forall|a: int, b: int| 0 <= a < b < s.len() - 1 implies self.view().objects[a].0
                        != self.view().objects[b].0 by {
                        let a2 = if a < i { a } else { a + 1 };
                        let b2 = if b < i { b } else { b + 1 };
                        assert(s[a2].0 != s[b2].0);
                    }
                }
            },
            None => {},
        }
    }

    /// Applies a change to the object under `id`.
    fn change(&mut self, id: NetworkID, c: ObjChange)
        requires
            old(self).wf(),
        ensures
            final(self).wf(),
            final(self).view() == (RegView {
                objects: apply_change(old(self).view().objects, id, c.view()),
                ..old(self).view()
            }),
            final(self).view().weather == old(self).view().weather,
    {
        let ghost s = self.view().objects;
        let ghost cv = c.view();
        match self.position(id) {
            Some(i) => {
                let ghost before = self.objects@;
                let (k, o) = self.objects.remove(i);
                proof {
                    assert(before[i as int] == (k, o));
                    assert(s[i as int] == (k, o@));
                }
                let n = change_object(c, o);
                let ghost nv = n@;
                self.objects.insert(i, (k, n));
                proof {
                    assert(self.objects@ =~= before.update(i as int, (k, n)));
                    assert(self.view().objects =~= s.update(i as int, (id, nv)));
                    assert forall|a: int, b: int| 0 <= a < b < s.len() implies self.view().objects[a].0
                        != self.view().objects[b].0 by {
                        assert(s[a].0 != s[b].0);
                    }
                    match changed(cv, s[i as int].1) {
                        Some(_) => {},
                        None => {
                            assert(s.update(i as int, (id, nv)) =~= s);
                        },
                    }
                }
            },
            None => {},
        }
    }
}

/// The first value under `key`.
fn first_value_of(pairs: &Vec<(u8, u32)>, key: u8) -> (r: Option<u32>)
    ensures
        r == first_value(pairs@, key),
{
    let mut i: usize = 0;
    assert(pairs@.skip(0) =~= pairs@);
    while i < pairs.len()
        invariant
            i <= pairs@.len(),
            first_value(pairs@, key) == first_value(pairs@.skip(i as int), key),
        decreases pairs@.len() - i,
    {
        proof {
            assert(pairs@.skip(i as int)[0] == pairs@[i as int]);
            assert(pairs@.skip(i as int).drop_first() =~= pairs@.skip(i as int + 1));
        }
        if pairs[i].0 == key {
            return Some(pairs[i].1);
        }
        i = i + 1;
    }
    proof {
        assert(pairs@.skip(i as int) =~= Seq::<(u8, u32)>::empty());
    }
    None
}

/// The name a new player is listed under.
fn player_label(id: NetworkID) -> (r: String)
    ensures
        r@ == player_name(id),
{
    let prefix = chars_of("Player_");
    let digits = chars_of(crate::text::decimal_string(id.as_u64()).as_str());
    let mut all: Vec<char> = prefix;
    let mut i: usize = 0;
    let ghost start = all@;
    while i < digits.len()
        invariant
            i <= digits@.len(),
            all@ == start + digits@.take(i as int),
        decreases digits@.len() - i,
    {
        all.push(digits[i]);
        i = i + 1;
        assert(all@ =~= start + digits@.take(i as int));
    }
    assert(digits@.take(i as int) =~= digits@);
    string_of_chars(all)
}

impl ClientRegistry {
    /// Applies a server packet to the cache and says what the
    /// interpolation buffers must do: object spawns and position updates
    /// push a sample, removals drop the buffer.
    pub fn apply_packet(&mut self, packet: &Packet) -> (r: InterpUpdate)
        requires
            old(self).wf(),
        ensures
            final(self).wf(),
            (final(self).view(), r) == reg_step(old(self).view(), *packet),
            final(self).view().weather == old(self).view().weather,
    {
        match packet {
            Packet::ObjectNew { id, ref_id, name, net_pos, angle, scale, cell, enabled, .. } => {
                let text = name.resolve(&mut self.string_table);
                let o = ClientObject::Object {
                    ref_id: *ref_id,
                    base_id: 0,
                    name: text,
                    pos: *net_pos,
                    angle: *angle,
                    scale: *scale,
                    cell: *cell,
                    enabled: *enabled,
                };
                self.put(*id, o);
                InterpUpdate::Push(*id, *net_pos)
            },
            Packet::UpdateName { id, name } => {
                let text = name.resolve(&mut self.string_table);
                self.change(*id, ObjChange::Name(text));
                InterpUpdate::Keep
            },
            Packet::UpdatePos { id, pos } => {
                self.change(*id, ObjChange::Pos(*pos));
                InterpUpdate::Push(*id, *pos)
            },
            Packet::ObjectRemove { id, .. } => {
                self.take(*id);
                InterpUpdate::Drop(*id)
            },
            Packet::ItemNew { id, base_id, count, condition, equipped, .. } => {
                self.put(*id, ClientObject::Item { base_id: *base_id, cond: *condition, count: *count, equipped: *equipped });
                InterpUpdate::Keep
            },
            Packet::UpdateItemCount { id, count, .. } => {
                self.change(*id, ObjChange::Count(*count));
                InterpUpdate::Keep
            },
            Packet::UpdateItemCondition { id, condition, .. } => {
                self.change(*id, ObjChange::Condition(*condition));
                InterpUpdate::Keep
            },
            Packet::UpdateItemEquipped { id, equipped, .. } => {
                self.change(*id, ObjChange::Equipped(*equipped));
                InterpUpdate::Keep
            },
            Packet::ActorNew { id, ref_id, values, dead, .. } => {
                let health = match first_value_of(values, AV_HEALTH) {
                    Some(h) => h,
                    None => FULL_HEALTH_BITS,
                };
                self.put(
                    *id,
                    ClientObject::Actor {
                        ref_id: *ref_id,
                        pos: [0, 0, 0],
                        angle: [0, 0, 0],
                        dead: *dead,
                        health,
                        alerted: false,
                        sneaking: false,
                        moving: 0,
                        weapon: 0,
                    },
                );
                InterpUpdate::Keep
            },
            Packet::UpdateActorState { id, alerted, sneaking, moving, weapon, .. } => {
                self.change(*id, ObjChange::State(*alerted, *sneaking, *moving, *weapon));
                InterpUpdate::Keep
            },
            Packet::ActorStateDelta { id, moving, weapon, alerted, sneaking, .. } => {
                self.change(*id, ObjChange::Delta(*moving, *weapon, *alerted, *sneaking));
                InterpUpdate::Keep
            },
            Packet::OwnershipGranted { id } => {
                self.own(*id);
                InterpUpdate::Keep
            },
            Packet::OwnershipReleased { id } => {
                self.disown(*id);
                InterpUpdate::Keep
            },
            Packet::UpdateActorValue { id, index, value, .. } => {
                if *index == AV_HEALTH {
                    self.change(*id, ObjChange::Health(*value));
                }
                InterpUpdate::Keep
            },
            Packet::UpdateActorDead { id, dead, .. } => {
                self.change(*id, ObjChange::Dead(*dead));
                InterpUpdate::Keep
            },
            Packet::PlayerNew { id, ref_id, .. } => {
                let name = player_label(*id);
                self.put(
                    *id,
                    ClientObject::Player { ref_id: *ref_id, name, pos: [0, 0, 0], angle: [0, 0, 0], health: FULL_HEALTH_BITS },
                );
                InterpUpdate::Keep
            },
            _ => InterpUpdate::Keep,
        }
    }

    /// Marks an actor as simulated by this client.
    fn own(&mut self, id: NetworkID)
        requires
            old(self).wf(),
        ensures
            final(self).wf(),
            final(self).view() == (RegView { owned: old(self).view().owned.insert(id), ..old(self).view() }),
            final(self).view().weather == old(self).view().weather,
    {
        let ghost o = self.owned_actors@;
        let mut i: usize = 0;
        while i < self.owned_actors.len()
            invariant
                o == self.owned_actors@,
                self.wf(),
                *self == *old(self),
                i <= o.len(),
                forall|j: int| 0 <= j < i ==> o[j] != id,
            decreases o.len() - i,
        {
            if self.owned_actors[i] == id {
                assert(o.contains(id));
                assert(o.to_set().insert(id) =~= o.to_set());
                return;
            }
            i = i + 1;
        }
        self.owned_actors.push(id);
        proof {
            o.lemma_push_to_set_commute(id);
            assert(self.owned_actors@.no_duplicates()) by {
                let n = self.owned_actors@;
                assert forall|a: int, b: int| 0 <= a < n.len() && 0 <= b < n.len() && a != b implies n[a]
                    != n[b] by {
                    if a == o.len() {
                        assert(n[b] == o[b]);
                    } else if b == o.len() {
                        assert(n[a] == o[a]);
                    }
                }
            }
        }
    }

    /// Marks an actor as no longer simulated by this client.
    fn disown(&mut self, id: NetworkID)
        requires
            old(self).wf(),
        ensures
            final(self).wf(),
            final(self).view() == (RegView { owned: old(self).view().owned.remove(id), ..old(self).view() }),
            final(self).view().weather == old(self).view().weather,
    {
        let ghost o = self.owned_actors@;
        let mut kept: Vec<NetworkID> = Vec::new();
        let mut i: usize = 0;
        while i < self.owned_actors.len()
            invariant
                o == self.owned_actors@,
                o.no_duplicates(),
                i <= o.len(),
                kept@.no_duplicates(),
                kept@.to_set() == o.take(i as int).to_set().remove(id),
                forall|x: NetworkID| kept@.contains(x) ==> o.take(i as int).contains(x),
            decreases o.len() - i,
        {
            let x = self.owned_actors[i];
            proof {
                assert(o.take(i as int + 1) =~= o.take(i as int).push(x));
                o.take(i as int).lemma_push_to_set_commute(x);
                assert(!o.take(i as int).contains(x)) by {
                    if o.take(i as int).contains(x) {
                        let k = o.take(i as int).index_of(x);
                        assert(o[k] == o[i as int]);
                    }
                }
            }
            if x != id {
                let ghost k0 = kept@;
                kept.push(x);
                proof {
                    k0.lemma_push_to_set_commute(x);
                    assert(kept@.no_duplicates()) by {
                        let n = kept@;
                        assert forall|a: int, b: int| 0 <= a < n.len() && 0 <= b < n.len() && a != b implies n[a]
                            != n[b] by {
                            if a == k0.len() {
                                assert(n[b] == k0[b]);
                                assert(k0.contains(k0[b]));
                            } else if b == k0.len() {
                                assert(n[a] == k0[a]);
                                assert(k0.contains(k0[a]));
                            }
                        }
                    }
                    assert(kept@.to_set() =~= o.take(i as int + 1).to_set().remove(id));
                    assert forall|y: NetworkID| kept@.contains(y) implies o.take(i as int + 1).contains(y) by {
                        if y == x {
                            assert(o.take(i as int + 1)[i as int] == x);
                        } else {
                            let k = kept@.index_of(y);
                            assert(k0.contains(y));
                            let m = o.take(i as int).index_of(y);
                            assert(o.take(i as int + 1)[m] == y);
                        }
                    }
                }
            } else {
                proof {
                    assert(kept@.to_set() =~= o.take(i as int + 1).to_set().remove(id));
                    assert forall|y: NetworkID| kept@.contains(y) implies o.take(i as int + 1).contains(y) by {
                        let m = o.take(i as int).index_of(y);
                        assert(o.take(i as int + 1)[m] == y);
                    }
                }
            }
            i = i + 1;
        }
        assert(o.take(i as int) =~= o);
        self.owned_actors = kept;
    }

    /// The object under `id`, if any.
    pub fn get(&self, id: NetworkID) -> (r: Option<&ClientObject>)
        requires
            self.wf(),
        ensures
            match find_obj(self.view().objects, id) {
                Some(i) => r matches Some(o) && o@ == self.view().objects[i].1,
                None => r is None,
            },
    {
        match self.position(id) {
            Some(i) => Some(&self.objects[i].1),
            None => None,
        }
    }

    /// Every cached object with its id.
    pub fn get_objects(&self) -> (r: &[(NetworkID, ClientObject)])
        ensures
            r@.map_values(|p: (NetworkID, ClientObject)| (p.0, p.1@)) == self.view().objects,
    {
        self.objects.as_slice()
    }

    /// Number of cached objects.
    pub fn object_count(&self) -> (r: usize)
        ensures
            r == self.view().objects.len(),
    {
        self.objects.len()
    }

    /// Whether this client simulates the actor.
    pub fn is_owned(&self, id: NetworkID) -> (r: bool)
        ensures
            r == self.view().owned.contains(id),
    {
        let mut i: usize = 0;
        while i < self.owned_actors.len()
            invariant
                i <= self.owned_actors@.len(),
                forall|j: int| 0 <= j < i ==> self.owned_actors@[j] != id,
            decreases self.owned_actors@.len() - i,
        {
            if self.owned_actors[i] == id {
                assert(self.owned_actors@.contains(id));
                return true;
            }
            i = i + 1;
        }
        assert(!self.owned_actors@.contains(id));
        false
    }

    /// The string table built from received names.
    pub fn string_table(&self) -> (r: &StringTable)
        ensures
            r.view() == self.view().table,
    {
        &self.string_table
    }

    /// The game reference of an entity, from its New packet: known for
    /// objects, actors and players with a nonzero reference.
    pub fn ref_of(&self, id: NetworkID) -> (r: Option<u32>)
        requires
            self.wf(),
        ensures
            r == reg_ref(self.view(), id),
    {
        match self.position(id) {
            Some(i) => {
                let r = match &self.objects[i].1 {
                    ClientObject::Object { ref_id, .. } => *ref_id,
                    ClientObject::Actor { ref_id, .. } => *ref_id,
                    ClientObject::Player { ref_id, .. } => *ref_id,
                    ClientObject::Item { .. } => 0,
                };
                if r != 0 {
                    Some(r)
                } else {
                    None
                }
            },
            None => None,
        }
    }
}

/// The game reference of entity `id` in registry state `v`.
pub open spec fn reg_ref(v: RegView, id: NetworkID) -> Option<u32> {
    match find_obj(v.objects, id) {
        Some(i) => ref_of_view(v.objects[i].1),
        None => None::<u32>,
    }
}

/// The game reference of a cached object, when it has a nonzero one.
pub open spec fn ref_of_view(o: ObjView) -> Option<u32> {
    let r = match o {
        ObjView::Object { ref_id, .. } => ref_id,
        ObjView::Actor { ref_id, .. } => ref_id,
        ObjView::Player { ref_id, .. } => ref_id,
        ObjView::Item { .. } => 0,
    };
    if r != 0 {
        Some(r)
    } else {
        None
    }
}

/// Granting and then releasing an actor this client did not own leaves
/// the registry as it was.
pub proof fn law_grant_then_release_restores(v: RegView, id: NetworkID)
    requires
        !v.owned.contains(id),
    ensures
        reg_step(reg_step(v, Packet::OwnershipGranted { id }).0, Packet::OwnershipReleased { id }).0 == v,
{
    assert(v.owned.insert(id).remove(id) =~= v.owned);
}

/// Only the object at `i` may differ between `a` and `b`, and the rest of
/// the registry is the same.
pub open spec fn others_kept(a: RegView, b: RegView, i: int) -> bool {
    &&& b.objects.len() == a.objects.len()
    &&& forall|j: int| 0 <= j < a.objects.len() && j != i ==> #[trigger] b.objects[j] == a.objects[j]
    &&& b.objects[i].0 == a.objects[i].0
    &&& b.table == a.table
    &&& b.owned == a.owned
    &&& b.weather == a.weather
}

/// A death packet for a cached actor sets its dead flag to the packet's,
/// and changes nothing else: not the actor's other fields, not any other
/// object.
pub proof fn law_death_packet_sets_dead(v: RegView, i: int, dead: bool, limbs: u16, cause: i8)
    requires
        ids_distinct(v.objects),
        0 <= i < v.objects.len(),
        v.objects[i].1 is Actor,
    ensures
        ({
            let before = v.objects[i].1;
            let after = reg_step(v, Packet::UpdateActorDead { id: v.objects[i].0, dead, limbs, cause }).0;
            let o = after.objects[i].1;
            &&& others_kept(v, after, i)
            &&& o is Actor
            &&& o->Actor_dead == dead
            &&& o->Actor_ref_id == before->Actor_ref_id
            &&& o->Actor_pos == before->Actor_pos
            &&& o->Actor_angle == before->Actor_angle
            &&& o->Actor_health == before->Actor_health
            &&& o->Actor_alerted == before->Actor_alerted
            &&& o->Actor_sneaking == before->Actor_sneaking
            &&& o->Actor_moving == before->Actor_moving
            &&& o->Actor_weapon == before->Actor_weapon
        }),
{
    lemma_find_obj_is(v.objects, v.objects[i].0, i);
}

/// A health update (actor value 0x14) for a cached actor sets its health
/// and nothing else; updates of other actor values change nothing.
pub proof fn law_health_packet_sets_health(v: RegView, i: int, base: bool, index: u8, value: u32)
    requires
        ids_distinct(v.objects),
        0 <= i < v.objects.len(),
        v.objects[i].1 is Actor,
    ensures
        ({
            let before = v.objects[i].1;
            let after = reg_step(v, Packet::UpdateActorValue { id: v.objects[i].0, base, index, value }).0;
            let o = after.objects[i].1;
            &&& others_kept(v, after, i)
            &&& index != AV_HEALTH ==> after == v
            &&& index == AV_HEALTH ==> {
                &&& o is Actor
                &&& o->Actor_health == value
                &&& o->Actor_dead == before->Actor_dead
                &&& o->Actor_ref_id == before->Actor_ref_id
                &&& o->Actor_pos == before->Actor_pos
                &&& o->Actor_angle == before->Actor_angle
                &&& o->Actor_alerted == before->Actor_alerted
                &&& o->Actor_sneaking == before->Actor_sneaking
                &&& o->Actor_moving == before->Actor_moving
                &&& o->Actor_weapon == before->Actor_weapon
            }
        }),
{
    lemma_find_obj_is(v.objects, v.objects[i].0, i);
}

/// A position update moves a cached object, actor or player to the
/// packet's position, keeps every other field, and asks for that position
/// to be pushed to the object's interpolation buffer.
pub proof fn law_position_packet_moves(v: RegView, i: int, pos: [u32; 3])
    requires
        ids_distinct(v.objects),
        0 <= i < v.objects.len(),
        !(v.objects[i].1 is Item),
    ensures
        ({
            let before = v.objects[i].1;
            let id = v.objects[i].0;
            let r = reg_step(v, Packet::UpdatePos { id, pos });
            let o = r.0.objects[i].1;
            &&& others_kept(v, r.0, i)
            &&& r.1 == InterpUpdate::Push(id, pos)
            &&& before is Actor ==> {
                &&& o is Actor
                &&& o->Actor_pos == pos
                &&& o->Actor_angle == before->Actor_angle
                &&& o->Actor_dead == before->Actor_dead
                &&& o->Actor_health == before->Actor_health
                &&& o->Actor_ref_id == before->Actor_ref_id
            }
            &&& before is Player ==> {
                &&& o is Player
                &&& o->Player_pos == pos
                &&& o->Player_angle == before->Player_angle
                &&& o->Player_name == before->Player_name
                &&& o->Player_health == before->Player_health
            }
            &&& before is Object ==> {
                &&& o is Object
                &&& o->Object_pos == pos
                &&& o->Object_angle == before->Object_angle
                &&& o->Object_name == before->Object_name
                &&& o->Object_scale == before->Object_scale
                &&& o->Object_cell == before->Object_cell
            }
        }),
{
    lemma_find_obj_is(v.objects, v.objects[i].0, i);
}

/// An animation-state update sets a cached actor's alert, sneak, movement
/// and weapon state, keeping its position, health and death state.
pub proof fn law_state_packet_sets_state(
    v: RegView,
    i: int,
    idle: u32,
    moving: u8,
    moving_xy: u8,
    weapon: u8,
    alerted: bool,
    sneaking: bool,
    firing: bool,
)
    requires
        ids_distinct(v.objects),
        0 <= i < v.objects.len(),
        v.objects[i].1 is Actor,
    ensures
        ({
            let before = v.objects[i].1;
            let p = Packet::UpdateActorState { id: v.objects[i].0, idle, moving, moving_xy, weapon, alerted, sneaking, firing };
            let after = reg_step(v, p).0;
            let o = after.objects[i].1;
            &&& others_kept(v, after, i)
            &&& o is Actor
            &&& o->Actor_alerted == alerted
            &&& o->Actor_sneaking == sneaking
            &&& o->Actor_moving == moving
            &&& o->Actor_weapon == weapon
            &&& o->Actor_pos == before->Actor_pos
            &&& o->Actor_angle == before->Actor_angle
            &&& o->Actor_dead == before->Actor_dead
            &&& o->Actor_health == before->Actor_health
            &&& o->Actor_ref_id == before->Actor_ref_id
        }),
{
    lemma_find_obj_is(v.objects, v.objects[i].0, i);
}

/// Item updates set the count, condition or equipped flag of a cached
/// item and keep its other fields.
pub proof fn law_item_packets_set_their_field(v: RegView, i: int, n: u32, h: u32, b: bool, silent: bool, stick: bool)
    requires
        ids_distinct(v.objects),
        0 <= i < v.objects.len(),
        v.objects[i].1 is Item,
    ensures
        ({
            let before = v.objects[i].1;
            let id = v.objects[i].0;
            let c = reg_step(v, Packet::UpdateItemCount { id, count: n, silent }).0;
            let d = reg_step(v, Packet::UpdateItemCondition { id, condition: n, health: h }).0;
            let e = reg_step(v, Packet::UpdateItemEquipped { id, equipped: b, silent, stick }).0;
            &&& others_kept(v, c, i) && others_kept(v, d, i) && others_kept(v, e, i)
            &&& c.objects[i].1 == ObjView::Item {
                base_id: before->Item_base_id,
                cond: before->Item_cond,
                count: n,
                equipped: before->Item_equipped,
            }
            &&& d.objects[i].1 == ObjView::Item {
                base_id: before->Item_base_id,
                cond: n,
                count: before->Item_count,
                equipped: before->Item_equipped,
            }
            &&& e.objects[i].1 == ObjView::Item {
                base_id: before->Item_base_id,
                cond: before->Item_cond,
                count: before->Item_count,
                equipped: b,
            }
        }),
{
    lemma_find_obj_is(v.objects, v.objects[i].0, i);
}

/// Storing `o` under `id` leaves exactly one entry under `id`, holding
/// `o`, and keeps the ids distinct.
proof fn lemma_put_found(s: Seq<(NetworkID, ObjView)>, id: NetworkID, o: ObjView)
    requires
        ids_distinct(s),
    ensures
        ids_distinct(put_obj(s, id, o)),
        find_obj(put_obj(s, id, o), id) matches Some(k) && put_obj(s, id, o)[k] == (id, o),
{
    let t = put_obj(s, id, o);
    match find_obj(s, id) {
        Some(i) => {
            assert(s[i].0 == id);
            assert(ids_distinct(t)) by {
                assert forall|a: int, b: int| 0 <= a < b < t.len() implies t[a].0 != t[b].0 by {
                    if a == i {
                        assert(s[b].0 != s[i].0);
                    } else if b == i {
                        assert(s[a].0 != s[i].0);
                    } else {
                        assert(s[a].0 != s[b].0);
                    }
                }
            }
            lemma_find_obj_is(t, id, i);
        },
        None => {
            assert(ids_distinct(t)) by {
                assert forall|a: int, b: int| 0 <= a < b < t.len() implies t[a].0 != t[b].0 by {
                    if b == s.len() {
                        assert(s[a].0 != id);
                    } else {
                        assert(s[a].0 != s[b].0);
                    }
                }
            }
            lemma_find_obj_is(t, id, s.len() as int);
        },
    }
}

/// A new actor from the server is cached under its id as a live-or-dead
/// actor of its reference, as the packet says, at the origin and at rest,
/// with the health its values carry (full health when they carry none).
pub proof fn law_actor_new_caches_actor(v: RegView, p: Packet)
    requires
        ids_distinct(v.objects),
        p is ActorNew,
    ensures
        ({
            let after = reg_step(v, p).0;
            &&& ids_distinct(after.objects)
            &&& find_obj(after.objects, p->ActorNew_id) matches Some(k) && {
                let o = after.objects[k].1;
                &&& o is Actor
                &&& o->Actor_ref_id == p->ActorNew_ref_id
                &&& o->Actor_dead == p->ActorNew_dead
                &&& o->Actor_health == (match first_value(p->ActorNew_values@, 0x14) {
                    Some(h) => h,
                    None => FULL_HEALTH_BITS,
                })
                &&& o->Actor_pos == [0u32, 0u32, 0u32]
            }
            &&& after.table == v.table && after.owned == v.owned && after.weather == v.weather
        }),
{
    if let Packet::ActorNew { id, ref_id, values, dead, .. } = p {
        let o = ObjView::Actor {
            ref_id,
            pos: [0u32, 0u32, 0u32],
            angle: [0u32, 0u32, 0u32],
            dead,
            health: match first_value(values@, AV_HEALTH) {
                Some(h) => h,
                None => FULL_HEALTH_BITS,
            },
            alerted: false,
            sneaking: false,
            moving: 0,
            weapon: 0,
        };
        lemma_put_found(v.objects, id, o);
    }
}

/// Removing an object forgets it: nothing is cached under its id any more,
/// the other objects stay, and its interpolation buffer is dropped.
pub proof fn law_remove_forgets(v: RegView, id: NetworkID, silent: bool)
    requires
        ids_distinct(v.objects),
    ensures
        ({
            let r = reg_step(v, Packet::ObjectRemove { id, silent });
            &&& find_obj(r.0.objects, id) is None
            &&& r.1 == InterpUpdate::Drop(id)
            &&& forall|j: int| 0 <= j < v.objects.len() && v.objects[j].0 != id ==> r.0.objects.contains(
                #[trigger] v.objects[j],
            )
        }),
{
    let t = reg_step(v, Packet::ObjectRemove { id, silent }).0.objects;
    match find_obj(v.objects, id) {
        Some(i) => {
            assert(t == v.objects.remove(i));
            assert forall|j: int| 0 <= j < v.objects.len() && v.objects[j].0 != id implies t.contains(
                #[trigger] v.objects[j],
            ) by {
                if j < i {
                    assert(t[j] == v.objects[j]);
                } else {
                    assert(j != i);
                    assert(t[j - 1] == v.objects[j]);
                }
            }
            if exists|k: int| 0 <= k < t.len() && t[k].0 == id {
                let k = choose|k: int| 0 <= k < t.len() && t[k].0 == id;
                if k < i {
                    assert(v.objects[k].0 != v.objects[i].0);
                } else {
                    assert(t[k] == v.objects[k + 1]);
                    assert(v.objects[i].0 != v.objects[k + 1].0);
                }
            }
        },
        None => {
            assert forall|j: int| 0 <= j < v.objects.len() && v.objects[j].0 != id implies t.contains(
                #[trigger] v.objects[j],
            ) by {
                assert(t[j] == v.objects[j]);
            }
        },
    }
}

/// A state delta for a cached actor sets each field the packet carries and
/// keeps each field it leaves out, along with the actor's position, health
/// and death state; no other object changes.
pub proof fn law_delta_packet_sets_present_fields(
    v: RegView,
    i: int,
    idle: Option<u32>,
    moving: Option<u8>,
    moving_xy: Option<u8>,
    weapon: Option<u8>,
    alerted: Option<bool>,
    sneaking: Option<bool>,
    firing: Option<bool>,
)
    requires
        ids_distinct(v.objects),
        0 <= i < v.objects.len(),
        v.objects[i].1 is Actor,
    ensures
        ({
            let before = v.objects[i].1;
            let p = Packet::ActorStateDelta { id: v.objects[i].0, idle, moving, moving_xy, weapon, alerted, sneaking, firing };
            let r = reg_step(v, p);
            let o = r.0.objects[i].1;
            &&& others_kept(v, r.0, i)
            &&& r.1 == InterpUpdate::Keep
            &&& o is Actor
            &&& (moving matches Some(m) ==> o->Actor_moving == m)
            &&& (moving is None ==> o->Actor_moving == before->Actor_moving)
            &&& (weapon matches Some(w) ==> o->Actor_weapon == w)
            &&& (weapon is None ==> o->Actor_weapon == before->Actor_weapon)
            &&& (alerted matches Some(a) ==> o->Actor_alerted == a)
            &&& (alerted is None ==> o->Actor_alerted == before->Actor_alerted)
            &&& (sneaking matches Some(b) ==> o->Actor_sneaking == b)
            &&& (sneaking is None ==> o->Actor_sneaking == before->Actor_sneaking)
            &&& o->Actor_pos == before->Actor_pos
            &&& o->Actor_angle == before->Actor_angle
            &&& o->Actor_dead == before->Actor_dead
            &&& o->Actor_health == before->Actor_health
            &&& o->Actor_ref_id == before->Actor_ref_id
        }),
{
    lemma_find_obj_is(v.objects, v.objects[i].0, i);
}

/// A new world object is cached under its id with the packet's reference,
/// network position, rotation, scale, cell and enabled flag, and its
/// network position is pushed to its interpolation buffer.
pub proof fn law_object_new_caches_object(v: RegView, p: Packet)
    requires
        ids_distinct(v.objects),
        p is ObjectNew,
    ensures
        ({
            let r = reg_step(v, p);
            let after = r.0;
            &&& ids_distinct(after.objects)
            &&& r.1 == InterpUpdate::Push(p->ObjectNew_id, p->ObjectNew_net_pos)
            &&& find_obj(after.objects, p->ObjectNew_id) matches Some(k) && {
                let o = after.objects[k].1;
                &&& o is Object
                &&& o->Object_ref_id == p->ObjectNew_ref_id
                &&& o->Object_pos == p->ObjectNew_net_pos
                &&& o->Object_angle == p->ObjectNew_angle
                &&& o->Object_scale == p->ObjectNew_scale
                &&& o->Object_cell == p->ObjectNew_cell
                &&& o->Object_enabled == p->ObjectNew_enabled
            }
            &&& after.owned == v.owned && after.weather == v.weather
        }),
{
    if let Packet::ObjectNew { id, ref_id, name, net_pos, angle, scale, cell, enabled, .. } = p {
        let o = ObjView::Object {
            ref_id,
            base_id: 0,
            name: resolved_text(v.table, name.view_cs()),
            pos: net_pos,
            angle,
            scale,
            cell,
            enabled,
        };
        lemma_put_found(v.objects, id, o);
    }
}

/// A new item is cached under its id with the packet's base form, count,
/// condition and equipped flag.
pub proof fn law_item_new_caches_item(v: RegView, p: Packet)
    requires
        ids_distinct(v.objects),
        p is ItemNew,
    ensures
        ({
            let r = reg_step(v, p);
            let after = r.0;
            &&& ids_distinct(after.objects)
            &&& r.1 == InterpUpdate::Keep
            &&& find_obj(after.objects, p->ItemNew_id) matches Some(k) && after.objects[k].1 == ObjView::Item {
                base_id: p->ItemNew_base_id,
                cond: p->ItemNew_condition,
                count: p->ItemNew_count,
                equipped: p->ItemNew_equipped,
            }
            &&& after.table == v.table && after.owned == v.owned && after.weather == v.weather
        }),
{
    if let Packet::ItemNew { id, base_id, count, condition, equipped, .. } = p {
        lemma_put_found(v.objects, id, ObjView::Item { base_id, cond: condition, count, equipped });
    }
}

/// A new player is cached under its id with the packet's reference, listed
/// as `Player_` and its id, at the origin and at full health.
pub proof fn law_player_new_caches_player(v: RegView, p: Packet)
    requires
        ids_distinct(v.objects),
        p is PlayerNew,
    ensures
        ({
            let r = reg_step(v, p);
            let after = r.0;
            &&& ids_distinct(after.objects)
            &&& r.1 == InterpUpdate::Keep
            &&& find_obj(after.objects, p->PlayerNew_id) matches Some(k) && after.objects[k].1 == ObjView::Player {
                ref_id: p->PlayerNew_ref_id,
                name: "Player_"@ + decimal(p->PlayerNew_id.value() as nat),
                pos: [0u32, 0u32, 0u32],
                angle: [0u32, 0u32, 0u32],
                health: FULL_HEALTH_BITS,
            }
            &&& after.table == v.table && after.owned == v.owned && after.weather == v.weather
        }),
{
    if let Packet::PlayerNew { id, ref_id, .. } = p {
        lemma_put_found(
            v.objects,
            id,
            ObjView::Player {
                ref_id,
                name: player_name(id),
                pos: [0u32, 0u32, 0u32],
                angle: [0u32, 0u32, 0u32],
                health: FULL_HEALTH_BITS,
            },
        );
    }
}

} // verus!
