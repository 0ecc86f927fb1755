//! Respawn-disable sites of the post-2023 Steam Fallout 3 build.
use vstd::prelude::*;

verus! {

/// Respawn predicate JNE (`75 03`); NOPed so the predicate always denies.
pub const SITE_A_JNE: usize = 0x009C_43A5;
/// Six-byte JNE guarding the respawn-flag write (`0F 85 77 00 00 00`).
pub const SITE_B_JNE: usize = 0x008C_9CE0;
/// Where the JNE at site B lands: past the respawn-flag write.
pub const SITE_B_SKIP: usize = 0x008C_9D5D;
/// Last byte of the six-byte JNE, left over after a five-byte JMP.
pub const SITE_B_TAIL: usize = SITE_B_JNE + 5;
/// Respawn-flag write on the second death path (`C6 40 02 01`).
pub const SITE_B2_FLAG: usize = 0x008C_9D52;

} // verus!
