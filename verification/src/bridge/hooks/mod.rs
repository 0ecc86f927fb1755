//! Gamebryo engine hooks for Fallout 3 / New Vegas.
//!
//! The engine-facing getters and setters below are the hook surface the
//! command dispatcher calls. References resolve only through the engine's
//! form lookup inside the game process; this library runs outside it, where
//! no reference resolves, so getters report the engine defaults and setters
//! change nothing. Memory-level work (guards, patches, image dumps) is done
//! on a `MemoryImage` of the process.
pub mod address;
pub mod animation;
pub mod detour;
pub mod discovery;
pub mod memory;
pub mod opcode;
pub mod vaultmp;
pub mod vtable;

use vstd::prelude::*;
use crate::bytes::{le32, from_le16, from_le32, push_le32, push_all};
use crate::bridge::hooks::memory::MemoryImage;

verus! {

/// Which game engine is running.
#[derive(Debug, Clone, Copy, PartialEq, Eq, Structural)]
pub enum GameEngine {
    Fallout3,
    FalloutNV,
    Unknown,
}

/// Engine detection. No checksum identifies a build reliably, so the
/// checksum is not consulted and the engine is reported as unknown.
pub fn detect_engine(_crc: u32) -> (r: GameEngine)
    ensures
        r == GameEngine::Unknown,
{
    GameEngine::Unknown
}

/// Whether the running engine is New Vegas. Detection never reports New
/// Vegas, so the Fallout 3 layout is used throughout.
pub fn is_fnv() -> (r: bool)
    ensures
        !r,
{
    detect_engine(0) == GameEngine::FalloutNV
}

/// Installation state of the hook set.
#[derive(Debug, Clone, Copy, PartialEq, Eq, Structural)]
pub struct HookState {
    pub installed: bool,
}

/// Marks every hook as removed.
pub fn uninstall(state: &mut HookState)
    ensures
        !final(state).installed,
{
    state.installed = false;
}

/// Resolves a form id to the address of its object; 0 when the form is not
/// loaded. Outside the game process no form is loaded.
pub fn lookup_form_by_id(_form_id: u32) -> (r: usize)
    ensures
        r == 0,
{
    0
}

/// Position of a reference, each component as its IEEE-754 bit pattern.
/// An unresolved reference reads as the origin.
pub fn get_pos(ref_id: u32) -> (r: [u32; 3])
    ensures
        r == [0u32, 0u32, 0u32],
{
    let _ = lookup_form_by_id(ref_id);
    [0, 0, 0]
}

/// Sets the position of a reference; returns whether it resolved.
pub fn set_pos(ref_id: u32, _pos: [u32; 3]) -> (r: bool)
    ensures
        !r,
{
    lookup_form_by_id(ref_id) != 0
}

/// Rotation of a reference in degrees, as bit patterns. An unresolved
/// reference reads as no rotation.
pub fn get_angle(ref_id: u32) -> (r: [u32; 3])
    ensures
        r == [0u32, 0u32, 0u32],
{
    get_pos(ref_id)
}

/// Sets the rotation of a reference; returns whether it resolved.
pub fn set_angle(ref_id: u32, _angle: [u32; 3]) -> (r: bool)
    ensures
        !r,
{
    lookup_form_by_id(ref_id) != 0
}

/// Animation state of an actor: (idle, moving, weapon, movement flags,
/// alerted, sneaking). An unresolved actor reads as all clear.
pub fn get_actor_state(ref_id: u32) -> (r: (u32, u8, u8, u8, bool, bool))
    ensures
        r == (0u32, 0u8, 0u8, 0u8, false, false),
{
    let _ = lookup_form_by_id(ref_id);
    (0, 0, 0, 0, false, false)
}

/// An actor value (health = 0x14, action points = 0x15, ...) as an IEEE-754
/// bit pattern. An unresolved actor reads as 0.0.
pub fn get_actor_value(ref_id: u32, _index: u8) -> (r: u32)
    ensures
        r == 0,
{
    let _ = lookup_form_by_id(ref_id);
    0
}

/// Base value of an actor value, as a bit pattern. An unresolved actor
/// reads as 0.0.
pub fn get_actor_base_value(ref_id: u32, _index: u8) -> (r: u32)
    ensures
        r == 0,
{
    let _ = lookup_form_by_id(ref_id);
    0
}

/// Writes an actor value (a bit pattern); returns whether the actor
/// resolved.
pub fn set_actor_value(ref_id: u32, _index: u8, _value: u32) -> (r: bool)
    ensures
        !r,
{
    lookup_form_by_id(ref_id) != 0
}

/// Scale of a reference as a bit pattern; an unresolved reference has unit
/// scale.
pub fn get_scale(ref_id: u32) -> (r: u32)
    ensures
        r == crate::bridge::hooks::vtable::UNIT_SCALE_BITS,
{
    let _ = lookup_form_by_id(ref_id);
    crate::bridge::hooks::vtable::UNIT_SCALE_BITS
}

/// Sets the scale (a bit pattern) of a reference; returns whether it
/// resolved.
pub fn set_scale(ref_id: u32, _scale: u32) -> (r: bool)
    ensures
        !r,
{
    lookup_form_by_id(ref_id) != 0
}

/// Form id of the cell a reference stands in; 0 when unresolved.
pub fn get_cell(ref_id: u32) -> (r: u32)
    ensures
        r == 0,
{
    let _ = lookup_form_by_id(ref_id);
    0
}

/// The parent-cell field of a reference; 0 when unresolved.
pub fn get_parent_cell(ref_id: u32) -> (r: u32)
    ensures
        r == 0,
{
    let _ = lookup_form_by_id(ref_id);
    0
}

/// Moves a reference to another cell; returns whether it resolved.
pub fn set_parent_cell(ref_id: u32, _cell: u32) -> (r: bool)
    ensures
        !r,
{
    lookup_form_by_id(ref_id) != 0
}

/// Confirms a remote activation: the reference itself when it resolves to a
/// live object, else 0.
pub fn get_activate(ref_id: u32) -> (r: u32)
    ensures
        r == 0,
{
    if lookup_form_by_id(ref_id) == 0 {
        return 0;
    }
    ref_id
}

/// Runs the engine's weapon-fire routine for a shooter: 1 when the shooter
/// resolved and the routine was found, else 0.
pub fn fire_weapon(shooter_ref: u32, _weapon: u32) -> (r: u32)
    ensures
        r == 0,
{
    if lookup_form_by_id(shooter_ref) == 0 {
        return 0;
    }
    1
}

/// Whether a reference is enabled; an unresolved reference counts as
/// enabled.
pub fn get_enabled(ref_id: u32) -> (r: bool)
    ensures
        r,
{
    lookup_form_by_id(ref_id) == 0
}

/// Enables or disables a reference; returns whether it resolved.
pub fn set_enabled(ref_id: u32, _enabled: bool) -> (r: bool)
    ensures
        !r,
{
    lookup_form_by_id(ref_id) != 0
}

/// The lock object of a reference; 0 when unresolved.
pub fn get_lock(ref_id: u32) -> (r: u32)
    ensures
        r == 0,
{
    let _ = lookup_form_by_id(ref_id);
    0
}

/// Locks or unlocks a reference; returns whether it resolved.
pub fn set_lock(ref_id: u32, _locked: bool) -> (r: bool)
    ensures
        !r,
{
    lookup_form_by_id(ref_id) != 0
}

/// Form id of the base record of a reference; 0 when unresolved.
pub fn get_base(ref_id: u32) -> (r: u32)
    ensures
        r == 0,
{
    let _ = lookup_form_by_id(ref_id);
    0
}

/// Display name of a reference; "unnamed" when unresolved.
pub fn get_name(ref_id: u32) -> (r: String)
    ensures
        r@ == "unnamed"@,
{
    let _ = lookup_form_by_id(ref_id);
    String::from_str("unnamed")
}

/// Whether an actor is dead (its death state is non-zero); an unresolved
/// actor is not.
pub fn is_dead(ref_id: u32) -> (r: bool)
    ensures
        !r,
{
    lookup_form_by_id(ref_id) != 0
}

/// Current combat target of an actor; 0 when unresolved.
pub fn get_combat_target(ref_id: u32) -> (r: u32)
    ensures
        r == 0,
{
    let _ = lookup_form_by_id(ref_id);
    0
}

/// Linear velocity of the rigid body of a reference, as bit patterns; at
/// rest until the rigid body is reachable.
pub fn get_velocity(_ref_id: u32) -> (r: [u32; 3])
    ensures
        r == [0u32, 0u32, 0u32],
{
    [0, 0, 0]
}

/// Sets the linear velocity (bit patterns) of the rigid body of a
/// reference; no rigid body is reachable, so nothing changes.
pub fn set_velocity(_ref_id: u32, _vel: [u32; 3]) {
}

/// Damage resistance of an actor as a bit pattern (0.0).
pub fn get_damage_resistance(_actor_id: u32) -> (r: u32)
    ensures
        r == 0,
{
    0
}

/// Damage threshold of an actor as a bit pattern (0.0).
pub fn get_damage_threshold(_actor_id: u32) -> (r: u32)
    ensures
        r == 0,
{
    0
}

/// Base damage of a weapon form as a bit pattern (0.0).
pub fn get_weapon_base_damage(_weapon_base_id: u32) -> (r: u32)
    ensures
        r == 0,
{
    0
}

/// Critical damage multiplier of a weapon form as a bit pattern (1.0).
pub fn get_weapon_crit_mult(_weapon_base_id: u32) -> (r: u32)
    ensures
        r == crate::bridge::hooks::vtable::UNIT_SCALE_BITS,
{
    crate::bridge::hooks::vtable::UNIT_SCALE_BITS
}

/// Critical chance bonus of a weapon form as a bit pattern (0.0).
pub fn get_weapon_crit_chance(_weapon_base_id: u32) -> (r: u32)
    ensures
        r == 0,
{
    0
}

/// Hardcore needs (hunger, thirst, sleep) as bit patterns; all 0.0, and
/// only New Vegas has them.
pub fn get_hardcore_stats() -> (r: (u32, u32, u32))
    ensures
        r == (0u32, 0u32, 0u32),
{
    if !is_fnv() {
        return (0, 0, 0);
    }
    (0, 0, 0)
}

/// Sets the hardcore needs (bit patterns); nothing to change outside the
/// game.
pub fn set_hardcore_stats(_hunger: u32, _thirst: u32, _sleep: u32) {
}

/// Damages an actor value by an amount (a bit pattern).
pub fn damage_actor_value(_ref_id: u32, _index: u8, _damage: u32) {
}

/// Restores an actor value by an amount (a bit pattern).
pub fn restore_actor_value(_ref_id: u32, _index: u8, _amount: u32) {
}

/// Force-sets an actor value (a bit pattern).
pub fn force_actor_value(_ref_id: u32, _index: u8, _value: u32) {
}

/// Whether the actor's rigid body touches the ground.
pub fn is_on_ground(_ref_id: u32) -> (r: bool)
    ensures
        !r,
{
    false
}

/// Collision layer flags of the rigid body.
pub fn get_collision_flags(_ref_id: u32) -> (r: u32)
    ensures
        r == 0,
{
    0
}

/// Limb hit by the most recent attack (0 = torso).
pub fn get_hit_limb(_ref_id: u32) -> (r: u8)
    ensures
        r == 0,
{
    0
}

/// Current AI package of an NPC: (package type, flags).
pub fn get_ai_package(_ref_id: u32) -> (r: (u32, u8))
    ensures
        r == (0u32, 0u8),
{
    (0, 0)
}

/// Factions of an NPC with their ranks.
pub fn get_faction(_ref_id: u32) -> (r: Vec<(u32, i8)>)
    ensures
        r@.len() == 0,
{
    Vec::new()
}

/// Whether two factions are hostile to each other.
pub fn is_faction_hostile(_faction_a: u32, _faction_b: u32) -> (r: bool)
    ensures
        !r,
{
    false
}

/// State of a player control.
pub fn get_control(_ref_id: u32, _control: u8) -> (r: u8)
    ensures
        r == 0,
{
    0
}

/// Enables or disables a player control.
pub fn set_control(_ref_id: u32, _control: u8, _enabled: bool) {
}

/// Whether a door is open.
pub fn get_door_state(_ref_id: u32) -> (r: bool)
    ensures
        !r,
{
    false
}

/// Opens or closes a door.
pub fn set_door_state(_ref_id: u32, _open: bool) {
}

/// Whether a terminal is locked.
pub fn get_terminal_locked(_ref_id: u32) -> (r: bool)
    ensures
        !r,
{
    false
}

/// Locks or unlocks a terminal.
pub fn set_terminal_locked(_ref_id: u32, _locked: bool) {
}

/// Current stage of a quest.
pub fn get_quest_stage(_quest_id: u32) -> (r: u16)
    ensures
        r == 0,
{
    0
}

/// Sets the stage of a quest.
pub fn set_quest_stage(_quest_id: u32, _stage: u16) {
}

/// Value of a dialogue flag.
pub fn get_dialogue_flag(_flag_id: u32) -> (r: bool)
    ensures
        !r,
{
    false
}

/// Sets a dialogue flag.
pub fn set_dialogue_flag(_flag_id: u32, _value: bool) {
}

/// Reputation with a faction; New Vegas only, 0 on Fallout 3.
pub fn get_reputation(_faction: u32) -> (r: i32)
    ensures
        r == 0,
{
    if !is_fnv() {
        return 0;
    }
    0
}

/// Sets the reputation with a faction (New Vegas only).
pub fn set_reputation(_faction: u32, _value: i32) {
}

/// Gate of the single-player respawn path. The respawn byte patches
/// already keep players dead until the server revives them; this toggle
/// changes nothing on its own.
pub fn set_respawn_allowed(_allowed: bool) {
}

/// Equips an item on an actor.
pub fn equip_item(_ref_id: u32, _item_id: u32, _equip_slot: u32, _prevent_removal: u8) {
}

/// Unequips an item from an actor.
pub fn unequip_item(_ref_id: u32, _item_id: u32, _equip_slot: u32, _prevent_removal: u8) {
}

/// Adds items to an inventory.
pub fn add_item(_ref_id: u32, _item_id: u32, _count: u32, _silent: u8) {
}

/// Removes items from an inventory.
pub fn remove_item(_ref_id: u32, _item_id: u32, _count: u32, _silent: u8) {
}

/// Removes every item, optionally moving them to another container.
pub fn remove_all_items(_ref_id: u32, _transfer_to: u32) {
}

/// Reference count of an inventory item form.
pub fn get_ref_count(_ref_id: u32) -> (r: u32)
    ensures
        r == 0,
{
    0
}

/// Kills an actor outright.
pub fn kill_actor(_ref_id: u32, _killer_id: u32, _limb: i8, _cause: i8) {
}

/// Plays an animation group on an actor.
pub fn play_group(_ref_id: u32, _group_id: u32, _flags: u32) {
}

/// Forces the global weather.
pub fn force_weather(_weather_id: u32) {
}

/// Restrains or frees an actor.
pub fn set_restrained(_ref_id: u32, _restrained: u8) {
}

/// Validates a script opcode before it runs: every opcode is allowed.
pub fn intercept_opcode(_opcode: u16, _args: &[u32]) -> (r: bool)
    ensures
        r,
{
    true
}

/// The registry of intercepted console commands.
#[derive(Debug, Clone)]
pub struct ConsoleCommands {
    names: Vec<String>,
}

impl ConsoleCommands {
    /// The registered command names.
    pub closed spec fn view(&self) -> Set<Seq<char>> {
        self.names@.map_values(|s: String| s@).to_set()
    }

    /// No name is registered twice.
    pub closed spec fn wf(&self) -> bool {
        self.names@.map_values(|s: String| s@).no_duplicates()
    }

    /// An empty registry.
    pub fn new() -> (r: ConsoleCommands)
        ensures
            r.wf(),
            r.view() == Set::<Seq<char>>::empty(),
    {
        let r = ConsoleCommands { names: Vec::new() };
        assert(r.names@.map_values(|s: String| s@) =~= Seq::<Seq<char>>::empty());
        assert(r.view() =~= Set::<Seq<char>>::empty());
        r
    }

    /// Position of `name`, if registered.
    fn position(&self, name: &String) -> (r: Option<usize>)
        ensures
            match r {
                Some(i) => i < self.names@.len() && self.names@[i as int]@ == name@,
                None => forall|i: int| 0 <= i < self.names@.len() ==> self.names@[i]@ != name@,
            },
    {
        let mut i: usize = 0;
        while i < self.names.len()
            invariant
                i <= self.names@.len(),
                forall|j: int| 0 <= j < i ==> self.names@[j]@ != name@,
            decreases self.names@.len() - i,
        {
            if self.names[i] == *name {
                return Some(i);
            }
            i = i + 1;
        }
        None
    }
}

/// Whether a console command is intercepted before the engine runs it.
pub fn hook_console_command(registry: &ConsoleCommands, command: &str) -> (r: bool)
    ensures
        r == registry.view().contains(command@),
{
    has_console_command(registry, command)
}

/// Registers a console command.
pub fn register_console_command(registry: &mut ConsoleCommands, command: &str)
    requires
        old(registry).wf(),
    ensures
        final(registry).wf(),
        final(registry).view() == old(registry).view().insert(command@),
{
    let name = command.to_owned();
    let ghost names = registry.names@.map_values(|s: String| s@);
    match registry.position(&name) {
        Some(i) => {
            proof {
                assert(names[i as int] == command@);
                assert(registry.view() =~= registry.view().insert(command@));
            }
        },
        None => {
            registry.names.push(name);
            proof {
                let after = registry.names@.map_values(|s: String| s@);
                assert(after =~= names.push(command@));
                assert(!names.contains(command@)) by {
                    if names.contains(command@) {
                        let k = names.index_of(command@);
                        assert(old(registry).names@[k]@ == command@);
                    }
                }
                names.lemma_push_to_set_commute(command@);
                assert(after.no_duplicates()) by {
                    assert forall|a: int, b: int| 0 <= a < after.len() && 0 <= b < after.len() && a
                        != b implies after[a] != after[b] by {
                        if a < names.len() && b < names.len() {
                        } else if a == names.len() {
                            assert(after[a] == command@);
                            assert(after[b] == names[b]);
                        } else {
                            assert(after[b] == command@);
                            assert(after[a] == names[a]);
                        }
                    }
                }
            }
        },
    }
}

/// Unregisters a console command.
pub fn unregister_console_command(registry: &mut ConsoleCommands, command: &str)
    requires
        old(registry).wf(),
    ensures
        final(registry).wf(),
        final(registry).view() == old(registry).view().remove(command@),
{
    let name = command.to_owned();
    let ghost names = registry.names@.map_values(|s: String| s@);
    match registry.position(&name) {
        Some(i) => {
            registry.names.remove(i);
            proof {
                let after = registry.names@.map_values(|s: String| s@);
                assert(after =~= names.remove(i as int));
                assert(names[i as int] == command@);
                assert(after.no_duplicates()) by {
                    assert forall|a: int, b: int| 0 <= a < after.len() && 0 <= b < after.len() && a
                        != b implies after[a] != after[b] by {
                        let a2 = if a < i { a } else { a + 1 };
                        let b2 = if b < i { b } else { b + 1 };
                        assert(after[a] == names[a2]);
                        assert(after[b] == names[b2]);
                    }
                }
                assert(after.to_set() =~= names.to_set().remove(command@)) by {
                    assert forall|x: Seq<char>| after.to_set().contains(x) <==> names.to_set().remove(
                        command@,
                    ).contains(x) by {
                        if after.to_set().contains(x) {
                            let k = after.index_of(x);
                            let k2 = if k < i { k } else { k + 1 };
                            assert(names[k2] == x);
                            assert(k2 != i);
                            assert(names.contains(x));
                        }
                        if names.to_set().remove(command@).contains(x) {
                            let k = names.index_of(x);
                            assert(k != i);
                            let k2 = if k < i { k } else { k - 1 };
                            assert(after[k2] == x);
                            assert(after.contains(x));
                        }
                    }
                }
            }
        },
        None => {
            proof {
                assert(!names.contains(command@)) by {
                    if names.contains(command@) {
                        let k = names.index_of(command@);
                        assert(old(registry).names@[k]@ == command@);
                    }
                }
                assert(registry.view() =~= registry.view().remove(command@));
            }
        },
    }
}

/// Whether a console command is registered.
pub fn has_console_command(registry: &ConsoleCommands, command: &str) -> (r: bool)
    ensures
        r == registry.view().contains(command@),
{
    let name = command.to_owned();
    let ghost names = registry.names@.map_values(|s: String| s@);
    match registry.position(&name) {
        Some(i) => {
            assert(names[i as int] == command@);
            true
        },
        None => {
            assert(!names.contains(command@)) by {
                if names.contains(command@) {
                    let k = names.index_of(command@);
                    assert(registry.names@[k]@ == command@);
                }
            }
            false
        },
    }
}

/// Largest read `read_bytes` serves.
pub const MAX_READ: usize = 64;

/// What `read_bytes` returns: the bytes at `[addr, addr + len)` when the
/// request is a plausible probe (non-null, 1..=64 bytes) of mapped memory,
/// nothing otherwise.
pub open spec fn read_result(image: MemoryImage, addr: usize, len: usize) -> Seq<u8> {
    if addr == 0 || len == 0 || len > MAX_READ || !image.covers(addr, len as nat) {
        Seq::empty()
    } else {
        image.bytes_at(addr, len as nat)
    }
}

/// Reads `len` bytes at an absolute address of the process image.
pub fn read_bytes(image: &MemoryImage, addr: usize, len: usize) -> (r: Vec<u8>)
    ensures
        r@ == read_result(*image, addr, len),
{
    if addr == 0 || len == 0 || len > MAX_READ {
        return Vec::new();
    }
    match image.read(addr, len) {
        Some(v) => v,
        None => Vec::new(),
    }
}

/// Where the game executable is loaded.
pub const IMAGE_BASE: usize = 0x0040_0000;
/// Largest image size `dump_image` accepts (512 MiB).
pub const IMAGE_CAP: u32 = 0x2000_0000;
/// Reply opcode of a large return.
pub const PIPE_OP_RETURN_BIG: u8 = 0x04;
/// Reply opcode of an error.
pub const PIPE_OP_ERROR: u8 = 0x05;

/// The 32-bit little-endian value at offset `at` of `s`.
pub open spec fn le32_at(s: Seq<u8>, at: int) -> u32 {
    from_le32(s[at], s[at + 1], s[at + 2], s[at + 3])
}

/// What `dump_image` answers for an image whose bytes, from the load
/// address on, are `c`: the whole PE image, or an error code (1: no valid PE
/// header, 2: implausible image size).
pub open spec fn dump_reply(c: Seq<u8>) -> Seq<u8> {
    if c.len() < 0x40 {
        seq![PIPE_OP_ERROR, 1u8, 0u8, 0u8, 0u8]
    } else {
        let e = le32_at(c, 0x3C) as int;
        if e == 0 || e > 0x1000 || e + 0x54 > c.len() || from_le16(c[e], c[e + 1]) != 0x4550 {
            seq![PIPE_OP_ERROR, 1u8, 0u8, 0u8, 0u8]
        } else {
            let size = le32_at(c, e + 0x50);
            if size == 0 || size > IMAGE_CAP || size > c.len() {
                seq![PIPE_OP_ERROR, 2u8, 0u8, 0u8, 0u8]
            } else {
                seq![PIPE_OP_RETURN_BIG] + le32(size) + c.take(size as int)
            }
        }
    }
}

/// The bytes of `image` from the load address on; empty when the image
/// does not start there.
pub open spec fn from_load_address(image: MemoryImage) -> Seq<u8> {
    if image.base() == IMAGE_BASE {
        image.contents()
    } else {
        Seq::empty()
    }
}

/// Streams the executable image: reads the PE header at the load address
/// (`e_lfanew`, the `PE\0\0` signature, `SizeOfImage`) and answers the
/// whole image as a large return, or an error frame.
pub fn dump_image(image: &MemoryImage) -> (r: Vec<u8>)
    ensures
        r@ == dump_reply(from_load_address(*image)),
{
    let mut out: Vec<u8> = Vec::new();
    if image.base_addr() != IMAGE_BASE {
        out.push(PIPE_OP_ERROR);
        out.push(1);
        out.push(0);
        out.push(0);
        out.push(0);
        assert(out@ =~= dump_reply(Seq::empty()));
        return out;
    }
    let ghost c = image.contents();
    let n = image.size();
    let header = match image.read(IMAGE_BASE, if n < 0x1058 { n } else { 0x1058 }) {
        Some(h) => h,
        None => Vec::new(),
    };
    assert(header@ =~= c.take(if n < 0x1058 { n as int } else { 0x1058 }));
    if header.len() < 0x40 {
        out.push(PIPE_OP_ERROR);
        out.push(1);
        out.push(0);
        out.push(0);
        out.push(0);
        assert(out@ =~= dump_reply(c));
        return out;
    }
    let e = crate::event::read_u32(header.as_slice(), 0x3C);
    assert(e == le32_at(c, 0x3C));
    if e == 0 || e > 0x1000 || (e as usize) + 0x54 > n {
        out.push(PIPE_OP_ERROR);
        out.push(1);
        out.push(0);
        out.push(0);
        out.push(0);
        assert(out@ =~= dump_reply(c));
        return out;
    }
    let eu = e as usize;
    let sig = crate::bytes::u16_from_le(header[eu], header[eu + 1]);
    if sig != 0x4550 {
        out.push(PIPE_OP_ERROR);
        out.push(1);
        out.push(0);
        out.push(0);
        out.push(0);
        assert(out@ =~= dump_reply(c));
        return out;
    }
    let size = crate::event::read_u32(header.as_slice(), eu + 0x50);
    assert(size == le32_at(c, eu + 0x50));
    if size == 0 || size > IMAGE_CAP || (size as usize) > n {
        out.push(PIPE_OP_ERROR);
        out.push(2);
        out.push(0);
        out.push(0);
        out.push(0);
        assert(out@ =~= dump_reply(c));
        return out;
    }
    let body = match image.read(IMAGE_BASE, size as usize) {
        Some(b) => b,
        None => Vec::new(),
    };
    out.push(PIPE_OP_RETURN_BIG);
    push_le32(&mut out, size);
    push_all(&mut out, body.as_slice());
    assert(body@ =~= c.take(size as int));
    assert(out@ =~= dump_reply(c));
    out
}

/// Debug probe of the save directory. Locating it needs the Windows shell
/// folder API, which this library does not reach; the probe reports nothing.
pub fn probe_saves() -> (r: Vec<u8>)
    ensures
        r@.len() == 0,
{
    Vec::new()
}

/// Size in bytes of the engine's event record for `event_type` (the
/// layout of the `TES*Event` records), for the event types the bridge
/// reports.
pub open spec fn event_record_size(event_type: u32) -> Option<nat> {
    if event_type == crate::bridge::events::EVENT_ON_HIT {
        Some(24)
    } else if event_type == crate::bridge::events::EVENT_ON_ACTIVATE {
        Some(8)
    } else if event_type == crate::bridge::events::EVENT_ON_EQUIP {
        Some(16)
    } else if event_type == crate::bridge::events::EVENT_ON_CELL_CHANGE {
        Some(12)
    } else if event_type == crate::bridge::events::EVENT_ON_DEATH {
        Some(12)
    } else if event_type == crate::bridge::events::EVENT_ON_LOAD_GAME {
        Some(1)
    } else if event_type == crate::bridge::events::EVENT_ON_MAGIC_EFFECT {
        Some(16)
    } else {
        None
    }
}

/// Size of the event record for `event_type`.
pub fn event_size(event_type: u32) -> (r: Option<usize>)
    ensures
        match event_record_size(event_type) {
            Some(n) => r == Some(n as usize),
            None => r is None,
        },
{
    match event_type {
        0 => Some(24),
        1 => Some(8),
        2 => Some(16),
        3 => Some(12),
        4 => Some(12),
        5 => Some(1),
        6 => Some(16),
        _ => None,
    }
}

/// An engine event as a frame for the client: the event opcode, the event
/// type (little-endian) and the record's bytes. `None` without a record
/// or for an event type the bridge does not report.
pub fn encode_event_frame(event_type: u32, event: Option<&[u8]>) -> (r: Option<Vec<u8>>)
    requires
        event matches Some(b) ==> (event_record_size(event_type) matches Some(n) ==> b@.len() >= n),
    ensures
        match (event, event_record_size(event_type)) {
            (Some(b), Some(n)) => r matches Some(f) && f@ == seq![crate::bridge::network::PIPE_OP_EVENT] + le32(
                event_type,
            ) + b@.take(n as int),
            _ => r is None,
        },
{
    let data = match event {
        Some(b) => b,
        None => return None,
    };
    let n = match event_size(event_type) {
        Some(n) => n,
        None => return None,
    };
    let mut frame: Vec<u8> = Vec::new();
    frame.push(crate::bridge::network::PIPE_OP_EVENT);
    push_le32(&mut frame, event_type);
    let record = crate::bytes::copy_range(data, 0, n);
    push_all(&mut frame, record.as_slice());
    assert(frame@ =~= seq![crate::bridge::network::PIPE_OP_EVENT] + le32(event_type) + data@.take(n as int));
    Some(frame)
}

/// Whether a module path names a game executable: its file name,
/// lower-cased, is `fallout3.exe` or `falloutnv.exe`.
pub open spec fn is_game_exe_path(lowered: Seq<char>) -> bool {
    let base = crate::bridge::hooks::vtable::last_component(lowered);
    base == "fallout3.exe"@ || base == "falloutnv.exe"@
}

/// Whether the host process, whose module path is `path`, is a game
/// executable. Hard-coded engine addresses are only valid inside one.
pub fn is_game_process(path: &str) -> (r: bool)
    ensures
        r == is_game_exe_path(crate::bridge::console::lowercase(path@)),
{
    let lowered = crate::bridge::console::to_lowercase(path);
    match crate::bridge::hooks::vtable::exe_base_name(lowered.as_str()) {
        Some(base) => {
            let b = base.as_str();
            let fo3 = crate::text::str_eq(b, "fallout3.exe");
            let fnv = crate::text::str_eq(b, "falloutnv.exe");
            fo3 || fnv
        },
        None => {
            proof {
                reveal_strlit("fallout3.exe");
                reveal_strlit("falloutnv.exe");
            }
            false
        },
    }
}

} // verus!
