//! Sites of the behavior patches on the post-2023 Steam Fallout 3 build.
use vstd::prelude::*;

verus! {

/// Idle-animation call site.
pub const PLAY_IDLE_CALL_SRC: usize = 0x0085_E0A0;
/// Lock-state fix.
pub const LOCK_FIX: usize = 0x0079_8B65;
/// First AI-pause fix.
pub const AI_FIX1: usize = 0x005E_99E2;
/// Activation capture jump.
pub const GET_ACTIVATE_JMP: usize = 0x008D_3BC8;
/// Delegator stub pad.
pub const DELEGATOR_DEST: usize = 0x0040_5E69;
/// Delegator stub call site (one byte into the pad).
pub const DELEGATOR_CALL_SRC: usize = 0x0040_5E6A;
/// PlayGroup fix.
pub const PLAY_GROUP_FIX: usize = 0x0043_50F9;
/// Actor-value fix hook slot.
pub const AV_FIX_SRC: usize = 0x005B_7AC7;
/// Return address after the actor-value hook (slot + 5).
pub const AV_FIX_RET: usize = 0x005B_7ACC;
/// Formatting call after the actor-value format push.
pub const AV_FIX_TERM: usize = 0x005B_7AE2;
/// Return address of the activation capture.
pub const GET_ACTIVATE_RET: usize = 0x008D_3CB8;
/// Weapon-fire call site.
pub const FIRE_WEAPON_JMP: usize = 0x007D_F3F7;
/// Engine weapon-fire routine.
pub const FIRE_WEAPON_CALL: usize = 0x0077_0880;
/// The `.txt` of the Plugins.txt path literal.
pub const PLUGINS_VMP: usize = 0x00F9_FDB1;
/// Second AI-pause fix (death-state JE redirect).
pub const AI_FIX2: usize = 0x007D_0AA6;
/// Third AI-pause fix (test block in the int3 pad).
pub const AI_FIX3: usize = 0x007D_0AD5;
/// Steam AI predicate (per-actor processing gate).
pub const AI_PREDICATE: usize = 0x007D_0A50;
/// Script-delegator call site.
pub const DELEGATOR_SRC: usize = 0x009B_3EF6;
/// Idle fix site.
pub const PLAY_IDLE_FIX_SRC: usize = 0x0079_DA88;
/// Fire-relay jump site.
pub const FIRE_FIX_JMP: usize = 0x008D_A397;
/// Fire-relay patch site.
pub const FIRE_FIX_PATCH: usize = 0x008D_A3CE;
/// PlaceAtMe spawn call site.
pub const PLACE_AT_ME_JMP: usize = 0x0079_E556;
/// PlaceAtMe implementation.
pub const PLACE_AT_ME_CALL: usize = 0x0070_4480;
/// PlaceAtMe spawn skip.
pub const PLACE_AT_ME_FIX: usize = 0x009C_BCAF;
/// Where the PlaceAtMe skip lands.
pub const PLACE_AT_ME_FIX_DEST: usize = 0x009C_BF97;
/// First race-match NOP block.
pub const MATCH_RACE_NOP1: usize = 0x006F_71FA;
/// Second race-match NOP block.
pub const MATCH_RACE_NOP2: usize = 0x006F_720E;
/// Race-match patch site.
pub const MATCH_RACE_PATCH: usize = 0x006F_7220;

} // verus!
