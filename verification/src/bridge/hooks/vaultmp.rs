//! Fallout 3 classic-Steam multiplayer behavior patches.
//!
//! Each recipe keeps the exact bytes of the vaultmp `PatchGame()` sequence,
//! so the same patches can be re-targeted per build: respawn disable, AI
//! pause in unloaded cells, race matching on spawn, fire/activate/PlaceAtMe
//! interception and the animation delegator. The byte-guarded installers at
//! the end apply patches to a `MemoryImage` of the game process: each site
//! is checked against its expected bytes first, so a different build is
//! left untouched.
pub mod fo3_steam_17_respawn;
pub mod fo3_steam_17_vaultmp;

use vstd::prelude::*;
use crate::bridge::hooks::memory::{
    MemoryImage, Patch, PatchOp, splice, rel_bytes, write_rel_call, write_rel_jump, JMP_OPCODE,
    CALL_OPCODE, in_region,
};
use crate::bridge::hooks::{read_bytes, read_result, MAX_READ};
use crate::bytes::{le32, push_le32};
use crate::bridge::hooks::detour::{Detour, trampoline_bytes, TRAMPOLINE_SIZE};

verus! {

/// Classic Steam FO3 1.7 address table of every patch site.
#[derive(Debug, Clone, Copy, PartialEq, Eq, Structural)]
pub struct Fo3SteamClassic {
    /// Plugins.txt string constant, patched to ".vmp" so the multiplayer plugin list loads.
    pub plugins_vmp: usize,
    /// Animation group dispatcher (PlayGroup implementation entry).
    pub play_group: usize,
    /// Script-delegator call site.
    pub delegator_src: usize,
    /// Delegator redirect target (PUSH ECX stub).
    pub delegator_dest: usize,
    /// Delegator call site (E8 target rewritten to the delegator stub).
    pub delegator_call_src: usize,
    /// Respawn guard: 2-byte conditional (JNZ rel8).
    pub no_respawn_nop: usize,
    /// Respawn check jump source.
    pub no_respawn_jmp_src: usize,
    /// Respawn check jump destination (the skip path).
    pub no_respawn_jmp_dest: usize,
    /// PlayIdle call site (re-routed through the anim delegator).
    pub play_idle_call_src: usize,
    /// PlayIdle fix site (call rewritten).
    pub play_idle_fix_src: usize,
    /// Race-matching NOP block 1 (18 bytes).
    pub match_race_nop1: usize,
    /// Race-matching NOP block 2 (3 bytes).
    pub match_race_nop2: usize,
    /// Race-matching patch site.
    pub match_race_patch: usize,
    /// Race-matching parameter byte.
    pub match_race_param: usize,
    /// Lock-pick fix (disables the vanilla lock bypass check).
    pub lock_fix: usize,
    /// AI fix 1 (prevents NPC processing outside loaded cells).
    pub ai_fix1: usize,
    /// AI fix 2 (byte redirect).
    pub ai_fix2: usize,
    /// AI fix 3 (6-byte instruction block).
    pub ai_fix3: usize,
    /// AI fix 4 (11-byte NOP block).
    pub ai_fix4: usize,
    /// PlayGroup fix (2-byte redirect).
    pub play_group_fix: usize,
    /// PlayGroup fix jump source.
    pub play_group_fix_src: usize,
    /// PlayGroup fix jump destination.
    pub play_group_fix_dest: usize,
    /// Actor-value fix source (jump to the AVFix detour).
    pub av_fix_src: usize,
    /// Actor-value fix return address.
    pub av_fix_ret: usize,
    /// Actor-value fix terminator.
    pub av_fix_term: usize,
    /// Fire relay: 3-byte jump at the fire call site.
    pub fire_fix_jmp: usize,
    /// Fire relay: 9-byte instruction block.
    pub fire_fix_patch: usize,
    /// Activate interception jump source.
    pub get_activate_jmp: usize,
    /// Activate interception return address.
    pub get_activate_ret: usize,
    /// PlaceAtMe interception jump source.
    pub place_at_me_jmp: usize,
    /// PlaceAtMe internal call (position write target).
    pub place_at_me_call: usize,
    /// PlaceAtMe spawn fix source.
    pub place_at_me_fix: usize,
    /// PlaceAtMe spawn fix destination.
    pub place_at_me_fix_dest: usize,
    /// FireWeapon interception jump source.
    pub fire_weapon_jmp: usize,
    /// FireWeapon internal call (the real fire routine).
    pub fire_weapon_call: usize,
}

impl Fo3SteamClassic {
    /// Sites written at an offset past a table address stay addressable.
    pub open spec fn offsets_fit(&self) -> bool {
        &&& self.delegator_call_src <= usize::MAX - 5
        &&& self.get_activate_jmp <= usize::MAX - 5
        &&& self.match_race_patch <= usize::MAX - 5
        &&& self.no_respawn_jmp_src <= usize::MAX - 5
        &&& self.place_at_me_fix <= usize::MAX - 5
        &&& self.play_idle_fix_src <= usize::MAX - 5
    }
}

/// The classic Steam FO3 1.7 table.
pub open spec fn spec_fo3_steam_classic() -> Fo3SteamClassic {
    Fo3SteamClassic {
        plugins_vmp: 0x00E10FF1,
        play_group: 0x0045F704,
        delegator_src: 0x006EEC86,
        delegator_dest: 0x006EDBD9,
        delegator_call_src: 0x006EDBDA,
        no_respawn_nop: 0x006D5965,
        no_respawn_jmp_src: 0x0078B230,
        no_respawn_jmp_dest: 0x0078B2B9,
        play_idle_call_src: 0x0073BB20,
        play_idle_fix_src: 0x00534D8D,
        match_race_nop1: 0x0052F4DD,
        match_race_nop2: 0x0052F50F,
        match_race_patch: 0x0052F513,
        match_race_param: 0x00F51ADC,
        lock_fix: 0x00527F33,
        ai_fix1: 0x0072051E,
        ai_fix2: 0x006FAEE8,
        ai_fix3: 0x006FAF19,
        ai_fix4: 0x0042FBDC,
        play_group_fix: 0x0049DD6A,
        play_group_fix_src: 0x0049DD8E,
        play_group_fix_dest: 0x0049DCF1,
        av_fix_src: 0x00473D35,
        av_fix_ret: 0x00473D3B,
        av_fix_term: 0x00473E85,
        fire_fix_jmp: 0x0079236C,
        fire_fix_patch: 0x007923C5,
        get_activate_jmp: 0x0078A68D,
        get_activate_ret: 0x0078A995,
        place_at_me_jmp: 0x00539785,
        place_at_me_call: 0x0043DEF0,
        place_at_me_fix: 0x006F1CB6,
        place_at_me_fix_dest: 0x006F1F6E,
        fire_weapon_jmp: 0x0071F05F,
        fire_weapon_call: 0x004BE1A0,
    }
}

/// The classic Steam FO3 1.7 table.
pub fn fo3_steam_classic() -> (r: Fo3SteamClassic)
    ensures
        r == spec_fo3_steam_classic(),
{
    Fo3SteamClassic {
        plugins_vmp: 0x00E10FF1,
        play_group: 0x0045F704,
        delegator_src: 0x006EEC86,
        delegator_dest: 0x006EDBD9,
        delegator_call_src: 0x006EDBDA,
        no_respawn_nop: 0x006D5965,
        no_respawn_jmp_src: 0x0078B230,
        no_respawn_jmp_dest: 0x0078B2B9,
        play_idle_call_src: 0x0073BB20,
        play_idle_fix_src: 0x00534D8D,
        match_race_nop1: 0x0052F4DD,
        match_race_nop2: 0x0052F50F,
        match_race_patch: 0x0052F513,
        match_race_param: 0x00F51ADC,
        lock_fix: 0x00527F33,
        ai_fix1: 0x0072051E,
        ai_fix2: 0x006FAEE8,
        ai_fix3: 0x006FAF19,
        ai_fix4: 0x0042FBDC,
        play_group_fix: 0x0049DD6A,
        play_group_fix_src: 0x0049DD8E,
        play_group_fix_dest: 0x0049DCF1,
        av_fix_src: 0x00473D35,
        av_fix_ret: 0x00473D3B,
        av_fix_term: 0x00473E85,
        fire_fix_jmp: 0x0079236C,
        fire_fix_patch: 0x007923C5,
        get_activate_jmp: 0x0078A68D,
        get_activate_ret: 0x0078A995,
        place_at_me_jmp: 0x00539785,
        place_at_me_call: 0x0043DEF0,
        place_at_me_fix: 0x006F1CB6,
        place_at_me_fix_dest: 0x006F1F6E,
        fire_weapon_jmp: 0x0071F05F,
        fire_weapon_call: 0x004BE1A0,
    }
}

/// A single patch recipe: the exact bytes written at one address, or a
/// relative jump/call whose target is a table address or a hook function
/// supplied at install time.
#[derive(Debug, Clone, PartialEq, Eq)]
pub enum Recipe {
    /// Fixed byte sequence written at `addr`.
    Bytes { name: &'static str, addr: usize, bytes: Vec<u8> },
    /// Little-endian value of `width` bytes (1, 2 or 4) written at `addr`.
    Write { name: &'static str, addr: usize, value: u32, width: u8 },
    /// Relative call from `from` to a table address.
    RelCall { name: &'static str, from: usize, to: usize },
    /// Relative jump from `from` to a table address.
    RelJump { name: &'static str, from: usize, to: usize },
    /// Relative call from `from` to the hook function named `name`.
    RelCallHook { name: &'static str, from: usize },
    /// Relative jump from `from` to the hook function named `name`.
    RelJumpHook { name: &'static str, from: usize },
}

/// A recipe with its name and bytes as sequences.
pub enum RecipeView {
    Bytes(Seq<char>, usize, Seq<u8>),
    Write(Seq<char>, usize, u32, u8),
    RelCall(Seq<char>, usize, usize),
    RelJump(Seq<char>, usize, usize),
    RelCallHook(Seq<char>, usize),
    RelJumpHook(Seq<char>, usize),
}

impl Recipe {
    pub open spec fn view_recipe(self) -> RecipeView {
        match self {
            Recipe::Bytes { name, addr, bytes } => RecipeView::Bytes(name@, addr, bytes@),
            Recipe::Write { name, addr, value, width } => RecipeView::Write(name@, addr, value, width),
            Recipe::RelCall { name, from, to } => RecipeView::RelCall(name@, from, to),
            Recipe::RelJump { name, from, to } => RecipeView::RelJump(name@, from, to),
            Recipe::RelCallHook { name, from } => RecipeView::RelCallHook(name@, from),
            Recipe::RelJumpHook { name, from } => RecipeView::RelJumpHook(name@, from),
        }
    }

    /// Address this recipe writes to (for conflict detection).
    pub fn addr(&self) -> (r: usize)
        ensures
            r == recipe_addr(self.view_recipe()),
    {
        match self {
            Recipe::Bytes { addr, .. } => *addr,
            Recipe::Write { addr, .. } => *addr,
            Recipe::RelCall { from, .. } => *from,
            Recipe::RelJump { from, .. } => *from,
            Recipe::RelCallHook { from, .. } => *from,
            Recipe::RelJumpHook { from, .. } => *from,
        }
    }

    /// Name of the hook function this recipe needs, if any.
    pub fn required_hook(&self) -> (r: Option<&'static str>)
        ensures
            match recipe_hook(self.view_recipe()) {
                Some(n) => r matches Some(s) && s@ == n,
                None => r is None,
            },
    {
        match self {
            Recipe::RelCallHook { name, .. } => Some(*name),
            Recipe::RelJumpHook { name, .. } => Some(*name),
            _ => None,
        }
    }
}

/// Address a recipe writes to.
pub open spec fn recipe_addr(r: RecipeView) -> usize {
    match r {
        RecipeView::Bytes(_, a, _) => a,
        RecipeView::Write(_, a, _, _) => a,
        RecipeView::RelCall(_, a, _) => a,
        RecipeView::RelJump(_, a, _) => a,
        RecipeView::RelCallHook(_, a) => a,
        RecipeView::RelJumpHook(_, a) => a,
    }
}

/// Hook a recipe needs, if any.
pub open spec fn recipe_hook(r: RecipeView) -> Option<Seq<char>> {
    match r {
        RecipeView::RelCallHook(n, _) => Some(n),
        RecipeView::RelJumpHook(n, _) => Some(n),
        _ => None,
    }
}

/// The complete patch sequence for a table, in application order.
pub open spec fn spec_recipes(t: Fo3SteamClassic) -> Seq<RecipeView> {
    seq![
        RecipeView::Write("no_respawn_jnz"@, t.no_respawn_nop, 0x0375u32, 2u8),
        RecipeView::Write("no_respawn_jmp_nop"@, (t.no_respawn_jmp_src + 5) as usize, 0x90u32, 1u8),
        RecipeView::RelCallHook("respawn_detour"@, t.no_respawn_jmp_src),
        RecipeView::Write("delegator_push_ecx"@, t.delegator_dest, 0x51u32, 1u8),
        RecipeView::Write("delegator_call_pop_ecx"@, (t.delegator_call_src + 5) as usize, 0x59u32, 1u8),
        RecipeView::Write("play_group_short_jmp"@, t.play_group, 0xEBu32, 1u8),
        RecipeView::RelCall("delegator_redirect"@, t.delegator_src, t.delegator_dest),
        RecipeView::RelCallHook("bethesda_delegator"@, t.delegator_call_src),
        RecipeView::Write("play_idle_fix_nop"@, (t.play_idle_fix_src + 5) as usize, 0x9090u32, 2u8),
        RecipeView::RelCallHook("play_idle_detour"@, t.play_idle_fix_src),
        RecipeView::RelJumpHook("anim_detour"@, t.play_idle_call_src),
        RecipeView::Write("lock_fix_nop"@, t.lock_fix, 0x9090u32, 2u8),
        RecipeView::Write("ai_fix1_nop"@, t.ai_fix1, 0x9090u32, 2u8),
        RecipeView::Write("ai_fix2_redirect"@, t.ai_fix2, 0x30u32, 1u8),
        RecipeView::Bytes("ai_fix3_block"@, t.ai_fix3, seq![0x85u8, 0xFFu8, 0x74u8, 0xCCu8, 0xEBu8, 0xF6u8]),
        RecipeView::Bytes("ai_fix4_nop"@, t.ai_fix4, Seq::new(11, |i: int| 0x90u8)),
        RecipeView::Bytes("match_race_nop1"@, t.match_race_nop1, Seq::new(18, |i: int| 0x90u8)),
        RecipeView::Bytes("match_race_nop2"@, t.match_race_nop2, seq![0x90u8, 0x90u8, 0x90u8]),
        RecipeView::Write("match_race_patch"@, (t.match_race_patch + 1) as usize, 0xF1u32, 1u8),
        RecipeView::Bytes("match_race_patch_nop"@, (t.match_race_patch + 2) as usize, Seq::new(4, |i: int| 0x90u8)),
        RecipeView::Write("match_race_param"@, t.match_race_param, 0x0Fu32, 1u8),
        RecipeView::Bytes("play_group_fix_block"@, t.play_group_fix_dest, seq![0x85u8, 0xC9u8, 0x0Fu8, 0x84u8, 0xFFu8, 0x00u8, 0x00u8, 0x00u8, 0x8Bu8, 0x71u8, 0x0Cu8, 0x85u8, 0xF6u8, 0xEBu8, 0x6Au8]),
        RecipeView::Bytes("play_group_fix_jmp"@, t.play_group_fix, seq![0xEBu8, 0x27u8]),
        RecipeView::RelJump("play_group_fix_reljump"@, t.play_group_fix_src, t.play_group_fix_dest),
        RecipeView::RelJumpHook("av_fix"@, t.av_fix_src),
        RecipeView::Bytes("fire_fix_jmp"@, t.fire_fix_jmp, seq![0xEBu8, 0x57u8, 0x90u8]),
        RecipeView::Bytes("fire_fix_patch"@, t.fire_fix_patch, seq![0x85u8, 0xEDu8, 0x74u8, 0xE8u8, 0x8Bu8, 0x55u8, 0x00u8, 0xEBu8, 0xA1u8]),
        RecipeView::RelCallHook("get_activate"@, t.get_activate_jmp),
        RecipeView::RelJump("get_activate_ret"@, (t.get_activate_jmp + 5) as usize, t.get_activate_ret),
        RecipeView::RelJumpHook("place_at_me"@, t.place_at_me_jmp),
        RecipeView::RelJump("place_at_me_fix"@, t.place_at_me_fix, t.place_at_me_fix_dest),
        RecipeView::Write("place_at_me_fix_nop"@, (t.place_at_me_fix + 5) as usize, 0x90u32, 1u8),
        RecipeView::RelJumpHook("fire_weapon"@, t.fire_weapon_jmp),
        RecipeView::Write("plugins_vmp"@, t.plugins_vmp, 0x706D762Eu32, 4u8)
    ]
}

/// `n` NOP (0x90) bytes.
fn nops(n: usize) -> (r: Vec<u8>)
    ensures
        r@ == Seq::new(n as nat, |i: int| 0x90u8),
{
    let mut v: Vec<u8> = Vec::new();
    while v.len() < n
        invariant
            v.len() <= n,
            v@ == Seq::new(v.len() as nat, |i: int| 0x90u8),
        decreases n - v.len(),
    {
        v.push(0x90u8);
        assert(v@ =~= Seq::new(v.len() as nat, |i: int| 0x90u8));
    }
    v
}

/// Builds the complete patch sequence as recipes for table `t`.
pub fn recipes(t: &Fo3SteamClassic) -> (r: Vec<Recipe>)
    requires
        t.offsets_fit(),
    ensures
        r@.map_values(|x: Recipe| x.view_recipe()) == spec_recipes(*t),
{
    let ghost s = spec_recipes(*t);
    let mut out: Vec<Recipe> = Vec::new();
    let x = Recipe::Write { name: "no_respawn_jnz", addr: t.no_respawn_nop, value: 0x0375u32, width: 2 };
    proof { assert(x.view_recipe() == s[0]); }
    out.push(x);
    assert(out@.map_values(|r: Recipe| r.view_recipe()) =~= s.take(1));
    let x = Recipe::Write { name: "no_respawn_jmp_nop", addr: t.no_respawn_jmp_src + 5, value: 0x90u32, width: 1 };
    proof { assert(x.view_recipe() == s[1]); }
    out.push(x);
    assert(out@.map_values(|r: Recipe| r.view_recipe()) =~= s.take(2));
    let x = Recipe::RelCallHook { name: "respawn_detour", from: t.no_respawn_jmp_src };
    proof { assert(x.view_recipe() == s[2]); }
    out.push(x);
    assert(out@.map_values(|r: Recipe| r.view_recipe()) =~= s.take(3));
    let x = Recipe::Write { name: "delegator_push_ecx", addr: t.delegator_dest, value: 0x51u32, width: 1 };
    proof { assert(x.view_recipe() == s[3]); }
    out.push(x);
    assert(out@.map_values(|r: Recipe| r.view_recipe()) =~= s.take(4));
    let x = Recipe::Write { name: "delegator_call_pop_ecx", addr: t.delegator_call_src + 5, value: 0x59u32, width: 1 };
    proof { assert(x.view_recipe() == s[4]); }
    out.push(x);
    assert(out@.map_values(|r: Recipe| r.view_recipe()) =~= s.take(5));
    let x = Recipe::Write { name: "play_group_short_jmp", addr: t.play_group, value: 0xEBu32, width: 1 };
    proof { assert(x.view_recipe() == s[5]); }
    out.push(x);
    assert(out@.map_values(|r: Recipe| r.view_recipe()) =~= s.take(6));
    let x = Recipe::RelCall { name: "delegator_redirect", from: t.delegator_src, to: t.delegator_dest };
    proof { assert(x.view_recipe() == s[6]); }
    out.push(x);
    assert(out@.map_values(|r: Recipe| r.view_recipe()) =~= s.take(7));
    let x = Recipe::RelCallHook { name: "bethesda_delegator", from: t.delegator_call_src };
    proof { assert(x.view_recipe() == s[7]); }
    out.push(x);
    assert(out@.map_values(|r: Recipe| r.view_recipe()) =~= s.take(8));
    let x = Recipe::Write { name: "play_idle_fix_nop", addr: t.play_idle_fix_src + 5, value: 0x9090u32, width: 2 };
    proof { assert(x.view_recipe() == s[8]); }
    out.push(x);
    assert(out@.map_values(|r: Recipe| r.view_recipe()) =~= s.take(9));
    let x = Recipe::RelCallHook { name: "play_idle_detour", from: t.play_idle_fix_src };
    proof { assert(x.view_recipe() == s[9]); }
    out.push(x);
    assert(out@.map_values(|r: Recipe| r.view_recipe()) =~= s.take(10));
    let x = Recipe::RelJumpHook { name: "anim_detour", from: t.play_idle_call_src };
    proof { assert(x.view_recipe() == s[10]); }
    out.push(x);
    assert(out@.map_values(|r: Recipe| r.view_recipe()) =~= s.take(11));
    let x = Recipe::Write { name: "lock_fix_nop", addr: t.lock_fix, value: 0x9090u32, width: 2 };
    proof { assert(x.view_recipe() == s[11]); }
    out.push(x);
    assert(out@.map_values(|r: Recipe| r.view_recipe()) =~= s.take(12));
    let x = Recipe::Write { name: "ai_fix1_nop", addr: t.ai_fix1, value: 0x9090u32, width: 2 };
    proof { assert(x.view_recipe() == s[12]); }
    out.push(x);
    assert(out@.map_values(|r: Recipe| r.view_recipe()) =~= s.take(13));
    let x = Recipe::Write { name: "ai_fix2_redirect", addr: t.ai_fix2, value: 0x30u32, width: 1 };
    proof { assert(x.view_recipe() == s[13]); }
    out.push(x);
    assert(out@.map_values(|r: Recipe| r.view_recipe()) =~= s.take(14));
    let x = Recipe::Bytes { name: "ai_fix3_block", addr: t.ai_fix3, bytes: vec![0x85u8, 0xFFu8, 0x74u8, 0xCCu8, 0xEBu8, 0xF6u8] };
    proof { assert(x.view_recipe() =~~= s[14]); assert(x.view_recipe() == s[14]); }
    out.push(x);
    assert(out@.map_values(|r: Recipe| r.view_recipe()) =~= s.take(15));
    let x = Recipe::Bytes { name: "ai_fix4_nop", addr: t.ai_fix4, bytes: nops(11) };
    proof { assert(x.view_recipe() =~~= s[15]); assert(x.view_recipe() == s[15]); }
    out.push(x);
    assert(out@.map_values(|r: Recipe| r.view_recipe()) =~= s.take(16));
    let x = Recipe::Bytes { name: "match_race_nop1", addr: t.match_race_nop1, bytes: nops(18) };
    proof { assert(x.view_recipe() =~~= s[16]); assert(x.view_recipe() == s[16]); }
    out.push(x);
    assert(out@.map_values(|r: Recipe| r.view_recipe()) =~= s.take(17));
    let x = Recipe::Bytes { name: "match_race_nop2", addr: t.match_race_nop2, bytes: vec![0x90u8, 0x90u8, 0x90u8] };
    proof { assert(x.view_recipe() =~~= s[17]); assert(x.view_recipe() == s[17]); }
    out.push(x);
    assert(out@.map_values(|r: Recipe| r.view_recipe()) =~= s.take(18));
    let x = Recipe::Write { name: "match_race_patch", addr: t.match_race_patch + 1, value: 0xF1u32, width: 1 };
    proof { assert(x.view_recipe() == s[18]); }
    out.push(x);
    assert(out@.map_values(|r: Recipe| r.view_recipe()) =~= s.take(19));
    let x = Recipe::Bytes { name: "match_race_patch_nop", addr: t.match_race_patch + 2, bytes: nops(4) };
    proof { assert(x.view_recipe() =~~= s[19]); assert(x.view_recipe() == s[19]); }
    out.push(x);
    assert(out@.map_values(|r: Recipe| r.view_recipe()) =~= s.take(20));
    let x = Recipe::Write { name: "match_race_param", addr: t.match_race_param, value: 0x0Fu32, width: 1 };
    proof { assert(x.view_recipe() == s[20]); }
    out.push(x);
    assert(out@.map_values(|r: Recipe| r.view_recipe()) =~= s.take(21));
    let x = Recipe::Bytes { name: "play_group_fix_block", addr: t.play_group_fix_dest, bytes: vec![0x85u8, 0xC9u8, 0x0Fu8, 0x84u8, 0xFFu8, 0x00u8, 0x00u8, 0x00u8, 0x8Bu8, 0x71u8, 0x0Cu8, 0x85u8, 0xF6u8, 0xEBu8, 0x6Au8] };
    proof { assert(x.view_recipe() =~~= s[21]); assert(x.view_recipe() == s[21]); }
    out.push(x);
    assert(out@.map_values(|r: Recipe| r.view_recipe()) =~= s.take(22));
    let x = Recipe::Bytes { name: "play_group_fix_jmp", addr: t.play_group_fix, bytes: vec![0xEBu8, 0x27u8] };
    proof { assert(x.view_recipe() =~~= s[22]); assert(x.view_recipe() == s[22]); }
    out.push(x);
    assert(out@.map_values(|r: Recipe| r.view_recipe()) =~= s.take(23));
    let x = Recipe::RelJump { name: "play_group_fix_reljump", from: t.play_group_fix_src, to: t.play_group_fix_dest };
    proof { assert(x.view_recipe() == s[23]); }
    out.push(x);
    assert(out@.map_values(|r: Recipe| r.view_recipe()) =~= s.take(24));
    let x = Recipe::RelJumpHook { name: "av_fix", from: t.av_fix_src };
    proof { assert(x.view_recipe() == s[24]); }
    out.push(x);
    assert(out@.map_values(|r: Recipe| r.view_recipe()) =~= s.take(25));
    let x = Recipe::Bytes { name: "fire_fix_jmp", addr: t.fire_fix_jmp, bytes: vec![0xEBu8, 0x57u8, 0x90u8] };
    proof { assert(x.view_recipe() =~~= s[25]); assert(x.view_recipe() == s[25]); }
    out.push(x);
    assert(out@.map_values(|r: Recipe| r.view_recipe()) =~= s.take(26));
    let x = Recipe::Bytes { name: "fire_fix_patch", addr: t.fire_fix_patch, bytes: vec![0x85u8, 0xEDu8, 0x74u8, 0xE8u8, 0x8Bu8, 0x55u8, 0x00u8, 0xEBu8, 0xA1u8] };
    proof { assert(x.view_recipe() =~~= s[26]); assert(x.view_recipe() == s[26]); }
    out.push(x);
    assert(out@.map_values(|r: Recipe| r.view_recipe()) =~= s.take(27));
    let x = Recipe::RelCallHook { name: "get_activate", from: t.get_activate_jmp };
    proof { assert(x.view_recipe() == s[27]); }
    out.push(x);
    assert(out@.map_values(|r: Recipe| r.view_recipe()) =~= s.take(28));
    let x = Recipe::RelJump { name: "get_activate_ret", from: t.get_activate_jmp + 5, to: t.get_activate_ret };
    proof { assert(x.view_recipe() == s[28]); }
    out.push(x);
    assert(out@.map_values(|r: Recipe| r.view_recipe()) =~= s.take(29));
    let x = Recipe::RelJumpHook { name: "place_at_me", from: t.place_at_me_jmp };
    proof { assert(x.view_recipe() == s[29]); }
    out.push(x);
    assert(out@.map_values(|r: Recipe| r.view_recipe()) =~= s.take(30));
    let x = Recipe::RelJump { name: "place_at_me_fix", from: t.place_at_me_fix, to: t.place_at_me_fix_dest };
    proof { assert(x.view_recipe() == s[30]); }
    out.push(x);
    assert(out@.map_values(|r: Recipe| r.view_recipe()) =~= s.take(31));
    let x = Recipe::Write { name: "place_at_me_fix_nop", addr: t.place_at_me_fix + 5, value: 0x90u32, width: 1 };
    proof { assert(x.view_recipe() == s[31]); }
    out.push(x);
    assert(out@.map_values(|r: Recipe| r.view_recipe()) =~= s.take(32));
    let x = Recipe::RelJumpHook { name: "fire_weapon", from: t.fire_weapon_jmp };
    proof { assert(x.view_recipe() == s[32]); }
    out.push(x);
    assert(out@.map_values(|r: Recipe| r.view_recipe()) =~= s.take(33));
    let x = Recipe::Write { name: "plugins_vmp", addr: t.plugins_vmp, value: 0x706D762Eu32, width: 4 };
    proof { assert(x.view_recipe() == s[33]); }
    out.push(x);
    assert(out@.map_values(|r: Recipe| r.view_recipe()) =~= s.take(34));
    assert(s.take(34) =~= s);
    out
}

/// All hook names a full install requires, in canonical order.
pub open spec fn spec_required_hooks() -> Seq<Seq<char>> {
    seq![
        "respawn_detour"@,
        "bethesda_delegator"@,
        "play_idle_detour"@,
        "anim_detour"@,
        "av_fix"@,
        "get_activate"@,
        "place_at_me"@,
        "fire_weapon"@,
    ]
}

/// All hook names a full install requires, in canonical order.
pub fn required_hooks() -> (r: Vec<&'static str>)
    ensures
        r@.map_values(|s: &'static str| s@) == spec_required_hooks(),
{
    let r = vec![
        "respawn_detour",
        "bethesda_delegator",
        "play_idle_detour",
        "anim_detour",
        "av_fix",
        "get_activate",
        "place_at_me",
        "fire_weapon",
    ];
    assert(r@.map_values(|s: &'static str| s@) =~= spec_required_hooks());
    r
}

/// The hooks the recipes of a table request, in recipe order.
pub open spec fn requested_hooks(rs: Seq<RecipeView>) -> Seq<Seq<char>>
    decreases rs.len(),
{
    if rs.len() == 0 {
        Seq::empty()
    } else {
        match recipe_hook(rs[0]) {
            Some(n) => seq![n] + requested_hooks(rs.drop_first()),
            None => requested_hooks(rs.drop_first()),
        }
    }
}

/// Whatever the table, the patch sequence has 34 recipes and requests
/// exactly the required hooks, each once, in the canonical order.
#[verifier::rlimit(60)]
#[verifier::spinoff_prover]
pub proof fn law_recipes_request_required_hooks(t: Fo3SteamClassic)
    ensures
        spec_recipes(t).len() == 34,
        requested_hooks(spec_recipes(t)) == spec_required_hooks(),
{
    reveal_with_fuel(requested_hooks, 35);
    assert(requested_hooks(spec_recipes(t)) =~= spec_required_hooks());
}

/// The addresses the recipes of the classic table write to.
pub open spec fn classic_sites() -> Seq<usize> {
    spec_recipes(spec_fo3_steam_classic()).map_values(|r: RecipeView| recipe_addr(r))
}

/// For the classic table, every recipe writes inside the FO3 image
/// (0x400000..0x1200000) and no two recipes write the same site.
pub proof fn law_classic_sites_distinct_and_in_image()
    ensures
        classic_sites().len() == 34,
        forall|i: int| 0 <= i < 34 ==> 0x400000 <= #[trigger] classic_sites()[i] < 0x1200000,
        forall|i: int, j: int| 0 <= i < j < 34 ==> classic_sites()[i] != classic_sites()[j],
{
    let a = classic_sites();
    assert(a =~= seq![
        0x006D5965usize, 0x0078B235, 0x0078B230, 0x006EDBD9, 0x006EDBDF, 0x0045F704, 0x006EEC86,
        0x006EDBDA, 0x00534D92, 0x00534D8D, 0x0073BB20, 0x00527F33, 0x0072051E, 0x006FAEE8,
        0x006FAF19, 0x0042FBDC, 0x0052F4DD, 0x0052F50F, 0x0052F514, 0x0052F515, 0x00F51ADC,
        0x0049DCF1, 0x0049DD6A, 0x0049DD8E, 0x00473D35, 0x0079236C, 0x007923C5, 0x0078A68D,
        0x0078A692, 0x00539785, 0x006F1CB6, 0x006F1CBB, 0x0071F05F, 0x00E10FF1,
    ]);
}

/// Whether the image holds exactly `expected` at `addr` (a probe of 1 to
/// 64 mapped bytes).
pub open spec fn holds(image: MemoryImage, addr: usize, expected: Seq<u8>) -> bool {
    read_result(image, addr, expected.len() as usize) == expected
}

/// Whether the image holds exactly `expected` at `addr`.
pub fn guard_holds(image: &MemoryImage, addr: usize, expected: &[u8]) -> (r: bool)
    ensures
        r == holds(*image, addr, expected@),
{
    let found = read_bytes(image, addr, expected.len());
    if found.len() != expected.len() {
        assert(found@.len() != expected@.len());
        return false;
    }
    let mut i: usize = 0;
    while i < expected.len()
        invariant
            found@.len() == expected@.len(),
            found@ == read_result(*image, addr, expected@.len() as usize),
            i <= expected@.len(),
            forall|j: int| 0 <= j < i ==> found@[j] == expected@[j],
        decreases expected@.len() - i,
    {
        if found[i] != expected[i] {
            assert(found@[i as int] != expected@[i as int]);
            return false;
        }
        i = i + 1;
    }
    assert(found@ =~= expected@);
    true
}

/// A probe that matched guarantees the range is mapped.
proof fn lemma_holds_covers(image: MemoryImage, addr: usize, expected: Seq<u8>)
    requires
        holds(image, addr, expected),
        expected.len() > 0,
    ensures
        image.covers(addr, expected.len()),
        image.bytes_at(addr, expected.len()) == expected,
{
}

/// Records and applies a byte patch at a mapped range.
fn apply_bytes(image: &mut MemoryImage, addr: usize, data: &[u8]) -> (r: Patch)
    requires
        old(image).covers(addr, data@.len()),
    ensures
        r.target() == addr,
        r.data() == data@,
        r.saved() == old(image).bytes_at(addr, data@.len()),
        final(image).base() == old(image).base(),
        final(image).contents() == splice(old(image).contents(), addr - old(image).base(), data@),
{
    let p = match Patch::new(image, addr, data) {
        Some(p) => p,
        None => {
            assert(false);
            return Patch::new(image, addr, data).unwrap();
        },
    };
    let op = p.apply();
    let ok = image.write(&op);
    p
}

/// Applies a write at a mapped range.
fn apply_op(image: &mut MemoryImage, op: &PatchOp)
    requires
        old(image).covers(op.addr, op.bytes@.len()),
    ensures
        final(image).base() == old(image).base(),
        final(image).contents() == splice(
            old(image).contents(),
            op.addr - old(image).base(),
            op.bytes@,
        ),
{
    let _ = image.write(op);
}

/// Expected bytes of respawn site A (`jne +3`).
pub open spec fn respawn_guard_a() -> Seq<u8> {
    seq![0x75u8, 0x03]
}

/// Expected bytes of respawn site B (`jne rel32`).
pub open spec fn respawn_guard_b() -> Seq<u8> {
    seq![0x0Fu8, 0x85, 0x77, 0x00, 0x00, 0x00]
}

/// Expected bytes of the second-path respawn-flag write (`mov byte [eax+2],1`).
pub open spec fn respawn_guard_b2() -> Seq<u8> {
    seq![0xC6u8, 0x40, 0x02, 0x01]
}

/// Whether the image is the Steam build the respawn patch was derived on.
pub open spec fn respawn_guards_hold(image: MemoryImage) -> bool {
    &&& holds(image, fo3_steam_17_respawn::SITE_A_JNE, respawn_guard_a())
    &&& holds(image, fo3_steam_17_respawn::SITE_B_JNE, respawn_guard_b())
    &&& holds(image, fo3_steam_17_respawn::SITE_B2_FLAG, respawn_guard_b2())
}

/// Image bytes after the respawn patch: site A NOPed, site B turned into a
/// jump over the flag write (its tail byte NOPed), the flag write NOPed.
pub open spec fn respawn_patched(c: Seq<u8>, base: usize) -> Seq<u8> {
    let c1 = splice(c, fo3_steam_17_respawn::SITE_A_JNE - base, seq![0x90u8, 0x90]);
    let c2 = splice(
        c1,
        fo3_steam_17_respawn::SITE_B_JNE - base,
        rel_bytes(
            JMP_OPCODE,
            fo3_steam_17_respawn::SITE_B_JNE,
            fo3_steam_17_respawn::SITE_B_SKIP,
        ),
    );
    let c3 = splice(c2, fo3_steam_17_respawn::SITE_B_TAIL - base, seq![0x90u8]);
    splice(c3, fo3_steam_17_respawn::SITE_B2_FLAG - base, seq![0x90u8, 0x90, 0x90, 0x90])
}

/// Disables the single-player respawn on the Steam build. Byte-guarded:
/// only when every site holds its expected bytes is anything written; the
/// byte patches made are returned so they can be restored.
pub fn apply_steam_respawn(image: &mut MemoryImage) -> (r: Option<Vec<Patch>>)
    ensures
        r is Some <==> respawn_guards_hold(*old(image)),
        final(image).base() == old(image).base(),
        r is Some ==> final(image).contents() == respawn_patched(
            old(image).contents(),
            old(image).base(),
        ),
        r is None ==> final(image).contents() == old(image).contents(),
        r matches Some(ps) ==> ps@.len() == 3,
{
    if !guard_holds(image, fo3_steam_17_respawn::SITE_A_JNE, &[0x75, 0x03]) {
        return None;
    }
    if !guard_holds(image, fo3_steam_17_respawn::SITE_B_JNE, &[0x0F, 0x85, 0x77, 0x00, 0x00, 0x00]) {
        return None;
    }
    if !guard_holds(image, fo3_steam_17_respawn::SITE_B2_FLAG, &[0xC6, 0x40, 0x02, 0x01]) {
        return None;
    }
    proof {
        lemma_holds_covers(*image, fo3_steam_17_respawn::SITE_A_JNE, respawn_guard_a());
        lemma_holds_covers(*image, fo3_steam_17_respawn::SITE_B_JNE, respawn_guard_b());
        lemma_holds_covers(*image, fo3_steam_17_respawn::SITE_B2_FLAG, respawn_guard_b2());
    }
    let mut out: Vec<Patch> = Vec::new();
    let a = apply_bytes(image, fo3_steam_17_respawn::SITE_A_JNE, &[0x90, 0x90]);
    out.push(a);
    let jump = write_rel_jump(fo3_steam_17_respawn::SITE_B_JNE, fo3_steam_17_respawn::SITE_B_SKIP);
    apply_op(image, &jump);
    let t = apply_bytes(image, fo3_steam_17_respawn::SITE_B_TAIL, &[0x90]);
    out.push(t);
    let b2 = apply_bytes(image, fo3_steam_17_respawn::SITE_B2_FLAG, &[0x90, 0x90, 0x90, 0x90]);
    out.push(b2);
    Some(out)
}

/// New Vegas frame-hook site: the main loop's once-per-frame call.
pub const FNV_FRAME_HOOK_SITE: usize = 0x0086_B386;
/// Fallout 3 classic frame-hook site: the frame body's call.
pub const FO3_FRAME_HOOK_SITE: usize = 0x006E_EB2F;
/// Steam Fallout 3 frame-hook site: `call [0xF241E4]` in the frame body.
pub const STEAM_FRAME_HOOK_SITE: usize = 0x009B_3D77;
/// The import slot the Steam frame call goes through.
pub const STEAM_FRAME_IAT_SLOT: usize = 0x00F2_41E4;

/// Expected bytes of the New Vegas frame-hook site (`call 0x43C4B0`).
pub open spec fn fnv_frame_guard() -> Seq<u8> {
    seq![0xE8u8, 0x25, 0x11, 0xBD, 0xFF]
}

/// Expected bytes of the Fallout 3 classic frame-hook site (`call 0x6E3E40`).
pub open spec fn fo3_frame_guard() -> Seq<u8> {
    seq![0xE8u8, 0x0C, 0x53, 0xFF, 0xFF]
}

/// Expected bytes of the Steam frame-hook site (`call [0xF241E4]`).
pub open spec fn steam_frame_guard() -> Seq<u8> {
    seq![0xFFu8, 0x15, 0xE4, 0x41, 0xF2, 0x00]
}

/// Redirects a guarded five-byte call to `hook`.
fn redirect_call(image: &mut MemoryImage, site: usize, guard: &[u8], hook: usize) -> (r: bool)
    requires
        guard@.len() == 5,
    ensures
        r == holds(*old(image), site, guard@),
        final(image).base() == old(image).base(),
        r ==> final(image).contents() == splice(
            old(image).contents(),
            site - old(image).base(),
            rel_bytes(CALL_OPCODE, site, hook),
        ),
        !r ==> final(image).contents() == old(image).contents(),
{
    if !guard_holds(image, site, guard) {
        return false;
    }
    proof {
        lemma_holds_covers(*image, site, guard@);
    }
    let call = write_rel_call(site, hook);
    apply_op(image, &call);
    true
}

/// Installs the New Vegas per-frame hook: the main loop's call is
/// redirected to `hook` (which runs the engine's routine and samples the player).
/// Byte-guarded: `false`, with nothing written, on any other build.
pub fn apply_fnv_frame_hook(image: &mut MemoryImage, hook: usize) -> (r: bool)
    ensures
        r == holds(*old(image), FNV_FRAME_HOOK_SITE, fnv_frame_guard()),
        final(image).base() == old(image).base(),
        r ==> final(image).contents() == splice(
            old(image).contents(),
            FNV_FRAME_HOOK_SITE - old(image).base(),
            rel_bytes(CALL_OPCODE, FNV_FRAME_HOOK_SITE, hook),
        ),
        !r ==> final(image).contents() == old(image).contents(),
{
    let guard: [u8; 5] = [0xE8, 0x25, 0x11, 0xBD, 0xFF];
    assert(guard@ =~= fnv_frame_guard());
    redirect_call(image, FNV_FRAME_HOOK_SITE, &guard, hook)
}

/// Installs the Fallout 3 classic per-frame hook. Byte-guarded: `false`,
/// with nothing written, on any other build.
pub fn apply_fo3_frame_hook(image: &mut MemoryImage, hook: usize) -> (r: bool)
    ensures
        r == holds(*old(image), FO3_FRAME_HOOK_SITE, fo3_frame_guard()),
        final(image).base() == old(image).base(),
        r ==> final(image).contents() == splice(
            old(image).contents(),
            FO3_FRAME_HOOK_SITE - old(image).base(),
            rel_bytes(CALL_OPCODE, FO3_FRAME_HOOK_SITE, hook),
        ),
        !r ==> final(image).contents() == old(image).contents(),
{
    let guard: [u8; 5] = [0xE8, 0x0C, 0x53, 0xFF, 0xFF];
    assert(guard@ =~= fo3_frame_guard());
    redirect_call(image, FO3_FRAME_HOOK_SITE, &guard, hook)
}

/// Installs the Steam Fallout 3 per-frame hook: the six-byte indirect call
/// becomes a five-byte call to `hook` and a NOP. Byte-guarded: `false`,
/// with nothing written, on any other build.
pub fn apply_steam_frame_hook(image: &mut MemoryImage, hook: usize) -> (r: bool)
    ensures
        r == holds(*old(image), STEAM_FRAME_HOOK_SITE, steam_frame_guard()),
        final(image).base() == old(image).base(),
        r ==> final(image).contents() == splice(
            splice(
                old(image).contents(),
                STEAM_FRAME_HOOK_SITE - old(image).base(),
                rel_bytes(CALL_OPCODE, STEAM_FRAME_HOOK_SITE, hook),
            ),
            STEAM_FRAME_HOOK_SITE + 5 - old(image).base(),
            seq![0x90u8],
        ),
        !r ==> final(image).contents() == old(image).contents(),
{
    let guard: [u8; 6] = [0xFF, 0x15, 0xE4, 0x41, 0xF2, 0x00];
    assert(guard@ =~= steam_frame_guard());
    if !guard_holds(image, STEAM_FRAME_HOOK_SITE, &guard) {
        return false;
    }
    proof {
        lemma_holds_covers(*image, STEAM_FRAME_HOOK_SITE, steam_frame_guard());
    }
    let call = write_rel_call(STEAM_FRAME_HOOK_SITE, hook);
    apply_op(image, &call);
    let _ = apply_bytes(image, STEAM_FRAME_HOOK_SITE + 5, &[0x90]);
    true
}

/// The bytes a `Write` recipe stores: `width` little-endian bytes of
/// `value` (four for any width other than 1 or 2).
pub open spec fn write_bytes(value: u32, width: u8) -> Seq<u8> {
    if width == 1 {
        seq![(value & 0xFF) as u8]
    } else if width == 2 {
        seq![(value & 0xFF) as u8, ((value >> 8) & 0xFF) as u8]
    } else {
        le32(value)
    }
}

/// The write a recipe makes, given what its hook (if any) resolved to:
/// none for a hook recipe whose hook is absent.
pub open spec fn recipe_write(r: RecipeView, hook: Option<usize>) -> Option<(usize, Seq<u8>)> {
    match r {
        RecipeView::Bytes(_, a, b) => Some((a, b)),
        RecipeView::Write(_, a, v, w) => Some((a, write_bytes(v, w))),
        RecipeView::RelCall(_, f, t) => Some((f, rel_bytes(CALL_OPCODE, f, t))),
        RecipeView::RelJump(_, f, t) => Some((f, rel_bytes(JMP_OPCODE, f, t))),
        RecipeView::RelCallHook(_, f) => match hook {
            Some(h) => Some((f, rel_bytes(CALL_OPCODE, f, h))),
            None => None,
        },
        RecipeView::RelJumpHook(_, f) => match hook {
            Some(h) => Some((f, rel_bytes(JMP_OPCODE, f, h))),
            None => None,
        },
    }
}

/// The bytes `c` of a region at `base` after applying the recipes `rs` in
/// order; `hs[i]` is what the hook of recipe `i` resolved to.
pub open spec fn applied_recipes(c: Seq<u8>, base: usize, rs: Seq<RecipeView>, hs: Seq<Option<usize>>) -> Seq<u8>
    decreases rs.len(),
{
    if rs.len() == 0 {
        c
    } else {
        let prev = applied_recipes(c, base, rs.drop_last(), hs.drop_last());
        match recipe_write(rs.last(), hs.last()) {
            Some(w) => put(prev, base, w.0 as int, w.1),
            None => prev,
        }
    }
}

/// The (address, bytes) of the byte patches among the recipes, in order:
/// the ones recorded so they can be restored.
pub open spec fn saved_patches(rs: Seq<RecipeView>) -> Seq<(usize, Seq<u8>)>
    decreases rs.len(),
{
    if rs.len() == 0 {
        Seq::empty()
    } else {
        let prev = saved_patches(rs.drop_last());
        match rs.last() {
            RecipeView::Bytes(_, a, b) => prev.push((a, b)),
            RecipeView::Write(_, a, v, w) => prev.push((a, write_bytes(v, w))),
            _ => prev,
        }
    }
}

/// The byte patches of a recipe lie inside a region of `len` bytes at
/// `base`.
pub open spec fn byte_recipe_fits(base: usize, len: nat, r: RecipeView) -> bool {
    match r {
        RecipeView::Bytes(_, a, b) => in_region(base, len, a, b.len()),
        RecipeView::Write(_, a, v, w) => in_region(base, len, a, write_bytes(v, w).len()),
        _ => true,
    }
}

/// The hook a recipe names, if it is a hook recipe.
pub open spec fn hook_name(r: Recipe) -> Option<&'static str> {
    match r {
        Recipe::RelCallHook { name, .. } => Some(name),
        Recipe::RelJumpHook { name, .. } => Some(name),
        _ => None,
    }
}

/// The recipes as views.
pub open spec fn recipe_views(rs: Seq<Recipe>) -> Seq<RecipeView> {
    rs.map_values(|x: Recipe| x.view_recipe())
}

/// The (address, bytes) of recorded patches.
pub open spec fn patch_view(ps: Seq<Patch>) -> Seq<(usize, Seq<u8>)> {
    ps.map_values(|p: Patch| (p.target(), p.data()))
}

/// The stored bytes of a `Write` recipe.
fn write_value_bytes(value: u32, width: u8) -> (r: Vec<u8>)
    ensures
        r@ == write_bytes(value, width),
{
    let mut r: Vec<u8> = Vec::new();
    if width == 1 {
        r.push((value & 0xFF) as u8);
    } else if width == 2 {
        r.push((value & 0xFF) as u8);
        r.push(((value >> 8) & 0xFF) as u8);
    } else {
        push_le32(&mut r, value);
    }
    assert(r@ =~= write_bytes(value, width));
    r
}

/// Records and applies a byte patch inside the image.
fn record_patch(image: &mut MemoryImage, addr: usize, data: &[u8]) -> (p: Patch)
    requires
        old(image).covers(addr, data@.len()),
    ensures
        p.target() == addr,
        p.data() == data@,
        final(image).base() == old(image).base(),
        final(image).contents() == put(old(image).contents(), old(image).base(), addr as int, data@),
{
    apply_bytes(image, addr, data)
}

/// Applies recipes in order: byte patches are recorded and returned, jumps
/// and calls are written, and each hook recipe asks `hook_addr` for its
/// hook and is skipped when there is none. Writes that do not fit the image
/// are skipped.
pub fn apply_recipes<F: Fn(&str) -> Option<usize>>(
    image: &mut MemoryImage,
    rs: &Vec<Recipe>,
    hook_addr: F,
) -> (r: Vec<Patch>)
    requires
        forall|n: &str| hook_addr.requires((n,)),
        forall|k: int|
            0 <= k < rs@.len() ==> byte_recipe_fits(
                old(image).base(),
                old(image).contents().len(),
                #[trigger] rs@[k].view_recipe(),
            ),
    ensures
        final(image).base() == old(image).base(),
        patch_view(r@) == saved_patches(recipe_views(rs@)),
        exists|hs: Seq<Option<usize>>|
            {
                &&& hs.len() == rs@.len()
                &&& forall|k: int|
                    0 <= k < rs@.len() ==> (hook_name(rs@[k]) matches Some(n) ==> hook_addr.ensures(
                        (n,),
                        #[trigger] hs[k],
                    ))
                &&& final(image).contents() == #[trigger] applied_recipes(
                    old(image).contents(),
                    old(image).base(),
                    recipe_views(rs@),
                    hs,
                )
            },
{
    let ghost c = image.contents();
    let ghost base = image.base();
    let ghost vs = recipe_views(rs@);
    let mut out: Vec<Patch> = Vec::new();
    let ghost mut hs: Seq<Option<usize>> = Seq::empty();
    let mut i: usize = 0;
    while i < rs.len()
        invariant
            i <= rs@.len(),
            vs == recipe_views(rs@),
            hs.len() == i,
            image.base() == base,
            image.contents().len() == c.len(),
            forall|n: &str| hook_addr.requires((n,)),
            forall|k: int|
                0 <= k < rs@.len() ==> byte_recipe_fits(base, c.len(), #[trigger] rs@[k].view_recipe()),
            forall|k: int|
                0 <= k < i ==> (hook_name(rs@[k]) matches Some(n) ==> hook_addr.ensures((n,), #[trigger] hs[k])),
            image.contents() == applied_recipes(c, base, vs.take(i as int), hs),
            patch_view(out@) == saved_patches(vs.take(i as int)),
        decreases rs@.len() - i,
    {
        let ghost before = image.contents();
        let ghost pv = out@;
        assert(vs.take(i as int + 1).drop_last() =~= vs.take(i as int));
        assert(vs.take(i as int + 1).last() == rs@[i as int].view_recipe());
        assert(byte_recipe_fits(base, c.len(), rs@[i as int].view_recipe()));
        let ghost h: Option<usize> = None;
        match &rs[i] {
            Recipe::Bytes { addr, bytes, .. } => {
                let p = record_patch(image, *addr, bytes.as_slice());
                out.push(p);
                assert(patch_view(out@) =~= patch_view(pv).push((*addr, bytes@)));
            },
            Recipe::Write { addr, value, width, .. } => {
                let data = write_value_bytes(*value, *width);
                let p = record_patch(image, *addr, data.as_slice());
                out.push(p);
                assert(patch_view(out@) =~= patch_view(pv).push((*addr, write_bytes(*value, *width))));
            },
            Recipe::RelCall { from, to, .. } => {
                put_op(image, &write_rel_call(*from, *to));
            },
            Recipe::RelJump { from, to, .. } => {
                put_op(image, &write_rel_jump(*from, *to));
            },
            Recipe::RelCallHook { name, from } => {
                let found = hook_addr(*name);
                proof {
                    h = found;
                }
                match found {
                    Some(a) => {
                        put_op(image, &write_rel_call(*from, a));
                    },
                    None => {},
                }
            },
            Recipe::RelJumpHook { name, from } => {
                let found = hook_addr(*name);
                proof {
                    h = found;
                }
                match found {
                    Some(a) => {
                        put_op(image, &write_rel_jump(*from, a));
                    },
                    None => {},
                }
            },
        }
        proof {
            let hs0 = hs;
            hs = hs.push(h);
            assert(hs.drop_last() =~= hs0);
            assert(hs.last() == h);
        }
        i = i + 1;
    }
    assert(vs.take(i as int) =~= vs);
    out
}

/// Applies the complete recipe sequence of table `t`, with the hooks
/// `hook_addr` resolves; returns the recorded byte patches.
pub fn apply<F: Fn(&str) -> Option<usize>>(image: &mut MemoryImage, t: &Fo3SteamClassic, hook_addr: F) -> (r: Vec<Patch>)
    requires
        t.offsets_fit(),
        forall|n: &str| hook_addr.requires((n,)),
        forall|k: int|
            0 <= k < spec_recipes(*t).len() ==> byte_recipe_fits(
                old(image).base(),
                old(image).contents().len(),
                #[trigger] spec_recipes(*t)[k],
            ),
    ensures
        final(image).base() == old(image).base(),
        patch_view(r@) == saved_patches(spec_recipes(*t)),
        exists|hs: Seq<Option<usize>>|
            {
                &&& hs.len() == spec_recipes(*t).len()
                &&& forall|k: int|
                    0 <= k < spec_recipes(*t).len() ==> (recipe_hook(spec_recipes(*t)[k]) matches Some(n) ==> exists|s: &str|
                        s@ == n && hook_addr.ensures((s,), #[trigger] hs[k]))
                &&& final(image).contents() == #[trigger] applied_recipes(
                    old(image).contents(),
                    old(image).base(),
                    spec_recipes(*t),
                    hs,
                )
            },
{
    let rs = recipes(t);
    let ghost vs = recipe_views(rs@);
    assert forall|k: int| 0 <= k < rs@.len() implies byte_recipe_fits(
        image.base(),
        image.contents().len(),
        #[trigger] rs@[k].view_recipe(),
    ) by {
        assert(vs[k] == rs@[k].view_recipe());
    }
    let r = apply_recipes(image, &rs, hook_addr);
    proof {
        let hs = choose|hs: Seq<Option<usize>>|
            {
                &&& hs.len() == rs@.len()
                &&& forall|k: int|
                    0 <= k < rs@.len() ==> (hook_name(rs@[k]) matches Some(n) ==> hook_addr.ensures(
                        (n,),
                        #[trigger] hs[k],
                    ))
                &&& image.contents() == #[trigger] applied_recipes(
                    old(image).contents(),
                    old(image).base(),
                    vs,
                    hs,
                )
            };
        assert forall|k: int|
            0 <= k < spec_recipes(*t).len() implies (recipe_hook(spec_recipes(*t)[k]) matches Some(n) ==> exists|s: &str|
                s@ == n && hook_addr.ensures((s,), #[trigger] hs[k])) by {
            assert(vs[k] == rs@[k].view_recipe());
            if let Some(n) = recipe_hook(spec_recipes(*t)[k]) {
                let s = hook_name(rs@[k]).unwrap();
                assert(s@ == n);
                assert(hook_addr.ensures((s,), hs[k]));
            }
        }
    }
    r
}

/// Whether the image is the classic build the recipe table was derived on:
/// the respawn check and the lock fix hold their classic bytes.
pub open spec fn classic_guards_hold(image: MemoryImage) -> bool {
    &&& holds(image, spec_fo3_steam_classic().no_respawn_nop, seq![0x75u8, 0x03])
    &&& holds(image, spec_fo3_steam_classic().lock_fix, seq![0x74u8, 0x02, 0x88, 0x08])
}

/// Installs the complete behaviour-patch set on the classic build, with
/// the hooks `hook_addr` resolves. Byte-guarded: nothing is written on any
/// other build. Returns whether it was installed.
pub fn apply_classic_vaultmp<F: Fn(&str) -> Option<usize>>(image: &mut MemoryImage, hook_addr: F) -> (r: bool)
    requires
        forall|n: &str| hook_addr.requires((n,)),
        forall|k: int|
            0 <= k < spec_recipes(spec_fo3_steam_classic()).len() ==> byte_recipe_fits(
                old(image).base(),
                old(image).contents().len(),
                #[trigger] spec_recipes(spec_fo3_steam_classic())[k],
            ),
    ensures
        final(image).base() == old(image).base(),
        r == classic_guards_hold(*old(image)),
        !r ==> final(image).contents() == old(image).contents(),
        r ==> exists|hs: Seq<Option<usize>>|
            {
                &&& hs.len() == spec_recipes(spec_fo3_steam_classic()).len()
                &&& forall|k: int|
                    0 <= k < hs.len() ==> (recipe_hook(spec_recipes(spec_fo3_steam_classic())[k]) matches Some(
                        n,
                    ) ==> exists|s: &str| s@ == n && hook_addr.ensures((s,), #[trigger] hs[k]))
                &&& final(image).contents() == #[trigger] applied_recipes(
                    old(image).contents(),
                    old(image).base(),
                    spec_recipes(spec_fo3_steam_classic()),
                    hs,
                )
            },
{
    let t = fo3_steam_classic();
    let respawn: [u8; 2] = [0x75, 0x03];
    let lock: [u8; 4] = [0x74, 0x02, 0x88, 0x08];
    assert(respawn@ =~= seq![0x75u8, 0x03]);
    assert(lock@ =~= seq![0x74u8, 0x02, 0x88, 0x08]);
    if !guard_holds(image, t.no_respawn_nop, &respawn) {
        return false;
    }
    if !guard_holds(image, t.lock_fix, &lock) {
        return false;
    }
    let _patches = apply(image, &t, hook_addr);
    true
}

/// Whether the bytes `c` of a region at `base` hold `g` at `addr`, as a
/// probe of 1 to 64 bytes at a nonzero address sees them.
pub open spec fn holds_in(c: Seq<u8>, base: usize, addr: usize, g: Seq<u8>) -> bool {
    &&& addr != 0
    &&& 0 < g.len() <= MAX_READ
    &&& in_region(base, c.len(), addr, g.len())
    &&& c.subrange(addr - base, addr - base + g.len()) == g
}

/// The bytes `c` of a region at `base` after writing `data` at `addr`; a
/// write that does not fit changes nothing.
pub open spec fn put(c: Seq<u8>, base: usize, addr: int, data: Seq<u8>) -> Seq<u8> {
    if 0 <= addr <= usize::MAX && in_region(base, c.len(), addr as usize, data.len()) {
        splice(c, addr - base, data)
    } else {
        c
    }
}

proof fn lemma_holds_in(image: MemoryImage, addr: usize, g: Seq<u8>)
    requires
        0 < g.len() <= MAX_READ,
    ensures
        holds(image, addr, g) == holds_in(image.contents(), image.base(), addr, g),
{
}

/// Writes `op`; nothing changes when it does not fit.
fn put_op(image: &mut MemoryImage, op: &PatchOp)
    ensures
        final(image).base() == old(image).base(),
        final(image).contents() == put(old(image).contents(), old(image).base(), op.addr as int, op.bytes@),
{
    let _ = image.write(op);
}

/// Writes `data` at `addr`; nothing changes when it does not fit.
fn put_bytes(image: &mut MemoryImage, addr: usize, data: &[u8])
    ensures
        final(image).base() == old(image).base(),
        final(image).contents() == put(old(image).contents(), old(image).base(), addr as int, data@),
{
    let mut bytes: Vec<u8> = Vec::new();
    crate::bytes::push_all(&mut bytes, data);
    assert(bytes@ =~= data@);
    put_op(image, &PatchOp { addr, bytes });
}

/// Hook entry points the Steam behavior patches jump or call into, as
/// resolved by the bridge (absent when the bridge has no such thunk).
#[derive(Debug, Clone, Copy, PartialEq, Eq, Structural)]
pub struct VaultmpHooks {
    pub bethesda_delegator: Option<usize>,
    pub place_at_me: Option<usize>,
    pub fire_weapon: Option<usize>,
}

/// Guard of the first AI-pause fix, one byte before its site.
pub open spec fn ai_fix2_guard() -> Seq<u8> {
    seq![0x74u8, 0x2A, 0x83, 0xF8, 0x03, 0x74]
}

/// The int3 pad the second AI-pause fix fills.
pub open spec fn ai_fix3_guard() -> Seq<u8> {
    seq![0xCCu8, 0xCC, 0xCC, 0xCC, 0xCC, 0xCC]
}

/// The test block written into that pad.
pub open spec fn ai_fix3_block() -> Seq<u8> {
    seq![0x85u8, 0xFF, 0x74, 0xCE, 0xEB, 0xF6]
}

/// Guard of the delegator call site (`mov ecx, [0x123C5D4]`).
pub open spec fn delegator_src_guard() -> Seq<u8> {
    seq![0x8Bu8, 0x0D, 0xD4, 0xC5, 0x23, 0x01]
}

/// The pad the delegator stub is built in.
pub open spec fn delegator_pad_guard() -> Seq<u8> {
    seq![0xCCu8, 0xCC, 0xCC]
}

/// Guard of the spawn call (`call 0x704480`).
pub open spec fn place_at_me_guard() -> Seq<u8> {
    seq![0xE8u8, 0x25, 0x5F, 0xF6, 0xFF]
}

/// Guard of the spawn skip (`je rel32`).
pub open spec fn place_at_me_fix_guard() -> Seq<u8> {
    seq![0x0Fu8, 0x84, 0xE2, 0x02, 0x00, 0x00]
}

/// Guard of the fire call (`call 0x770880`).
pub open spec fn fire_weapon_guard() -> Seq<u8> {
    seq![0xE8u8, 0x84, 0x14, 0xF9, 0xFF]
}

/// A patch of `data` at `addr` where `guard` holds at `at`, with whether
/// it applied.
pub open spec fn guarded(c: Seq<u8>, base: usize, at: usize, guard: Seq<u8>, addr: int, data: Seq<u8>) -> (Seq<u8>, bool) {
    if holds_in(c, base, at, guard) {
        (put(c, base, addr, data), true)
    } else {
        (c, false)
    }
}

/// Delegator stub: PUSH ECX at the pad, POP ECX after the call, and the
/// call wired to the delegator hook when there is one.
#[verifier::opaque]
pub open spec fn delegator_pad_step(c: Seq<u8>, base: usize, hook: Option<usize>) -> (Seq<u8>, bool) {
    if holds_in(c, base, fo3_steam_17_vaultmp::DELEGATOR_DEST, delegator_pad_guard()) {
        let d1 = put(c, base, fo3_steam_17_vaultmp::DELEGATOR_DEST as int, seq![0x51u8]);
        let d2 = put(d1, base, fo3_steam_17_vaultmp::DELEGATOR_CALL_SRC + 5, seq![0x59u8]);
        (
            match hook {
                Some(a) => put(
                    d2,
                    base,
                    fo3_steam_17_vaultmp::DELEGATOR_CALL_SRC as int,
                    rel_bytes(CALL_OPCODE, fo3_steam_17_vaultmp::DELEGATOR_CALL_SRC, a),
                ),
                None => d2,
            },
            true,
        )
    } else {
        (c, false)
    }
}

/// A guarded jump from `site` to `hook`, skipped when there is no hook.
pub open spec fn hook_jump_step(c: Seq<u8>, base: usize, site: usize, guard: Seq<u8>, hook: Option<usize>) -> (Seq<u8>, bool) {
    match hook {
        Some(a) => guarded(c, base, site, guard, site as int, rel_bytes(JMP_OPCODE, site, a)),
        None => (c, false),
    }
}

/// PlaceAtMe skip: the conditional becomes a jump past the spawn and its
/// sixth byte a NOP.
#[verifier::opaque]
pub open spec fn place_at_me_fix_step(c: Seq<u8>, base: usize) -> (Seq<u8>, bool) {
    if holds_in(c, base, fo3_steam_17_vaultmp::PLACE_AT_ME_FIX, place_at_me_fix_guard()) {
        (
            put(
                put(
                    c,
                    base,
                    fo3_steam_17_vaultmp::PLACE_AT_ME_FIX as int,
                    rel_bytes(
                        JMP_OPCODE,
                        fo3_steam_17_vaultmp::PLACE_AT_ME_FIX,
                        fo3_steam_17_vaultmp::PLACE_AT_ME_FIX_DEST,
                    ),
                ),
                base,
                fo3_steam_17_vaultmp::PLACE_AT_ME_FIX + 5,
                seq![0x90u8],
            ),
            true,
        )
    } else {
        (c, false)
    }
}

/// The Steam behavior patches applied in order to the bytes `c` of a
/// region at `base`, each only where its guard holds at that point; with
/// whether any was applied. A hook patch whose hook is absent is skipped.
pub open spec fn steam_vaultmp_patched(c: Seq<u8>, base: usize, h: VaultmpHooks) -> (Seq<u8>, bool) {
    let s1 = guarded(
        c,
        base,
        (fo3_steam_17_vaultmp::AI_FIX2 - 1) as usize,
        ai_fix2_guard(),
        fo3_steam_17_vaultmp::AI_FIX2 as int,
        seq![0x2Eu8],
    );
    let s2 = guarded(
        s1.0,
        base,
        fo3_steam_17_vaultmp::AI_FIX3,
        ai_fix3_guard(),
        fo3_steam_17_vaultmp::AI_FIX3 as int,
        ai_fix3_block(),
    );
    let s3 = guarded(
        s2.0,
        base,
        fo3_steam_17_vaultmp::DELEGATOR_SRC,
        delegator_src_guard(),
        fo3_steam_17_vaultmp::DELEGATOR_SRC as int,
        rel_bytes(CALL_OPCODE, fo3_steam_17_vaultmp::DELEGATOR_SRC, fo3_steam_17_vaultmp::DELEGATOR_DEST),
    );
    let s4 = delegator_pad_step(s3.0, base, h.bethesda_delegator);
    let s5 = hook_jump_step(s4.0, base, fo3_steam_17_vaultmp::PLACE_AT_ME_JMP, place_at_me_guard(), h.place_at_me);
    let s6 = place_at_me_fix_step(s5.0, base);
    let s7 = hook_jump_step(s6.0, base, fo3_steam_17_vaultmp::FIRE_WEAPON_JMP, fire_weapon_guard(), h.fire_weapon);
    (s7.0, s1.1 || s2.1 || s3.1 || s4.1 || s5.1 || s6.1 || s7.1)
}

/// Checks a guard against the image.
fn check(image: &MemoryImage, addr: usize, guard: &[u8]) -> (r: bool)
    requires
        0 < guard@.len() <= MAX_READ,
    ensures
        r == holds_in(image.contents(), image.base(), addr, guard@),
{
    proof {
        lemma_holds_in(*image, addr, guard@);
    }
    guard_holds(image, addr, guard)
}

/// Writes `op` where `guard` holds at `at`.
fn guarded_op(image: &mut MemoryImage, at: usize, guard: &[u8], op: &PatchOp) -> (r: bool)
    requires
        0 < guard@.len() <= MAX_READ,
    ensures
        final(image).base() == old(image).base(),
        (final(image).contents(), r) == guarded(
            old(image).contents(),
            old(image).base(),
            at,
            guard@,
            op.addr as int,
            op.bytes@,
        ),
{
    if check(image, at, guard) {
        put_op(image, op);
        true
    } else {
        false
    }
}

/// A guarded jump from `site` to `hook`; nothing without a hook.
fn hook_jump(image: &mut MemoryImage, site: usize, guard: &[u8], hook: Option<usize>) -> (r: bool)
    requires
        0 < guard@.len() <= MAX_READ,
    ensures
        final(image).base() == old(image).base(),
        (final(image).contents(), r) == hook_jump_step(old(image).contents(), old(image).base(), site, guard@, hook),
{
    match hook {
        Some(a) => {
            let jump = write_rel_jump(site, a);
            guarded_op(image, site, guard, &jump)
        },
        None => false,
    }
}

fn delegator_pad(image: &mut MemoryImage, hook: Option<usize>) -> (r: bool)
    ensures
        final(image).base() == old(image).base(),
        (final(image).contents(), r) == delegator_pad_step(old(image).contents(), old(image).base(), hook),
{
    reveal(delegator_pad_step);
    let g: [u8; 3] = [0xCC, 0xCC, 0xCC];
    assert(g@ =~= delegator_pad_guard());
    if !check(image, fo3_steam_17_vaultmp::DELEGATOR_DEST, &g) {
        return false;
    }
    put_bytes(image, fo3_steam_17_vaultmp::DELEGATOR_DEST, &[0x51]);
    put_bytes(image, fo3_steam_17_vaultmp::DELEGATOR_CALL_SRC + 5, &[0x59]);
    match hook {
        Some(a) => {
            let call = write_rel_call(fo3_steam_17_vaultmp::DELEGATOR_CALL_SRC, a);
            put_op(image, &call);
        },
        None => {},
    }
    true
}

fn place_at_me_fix(image: &mut MemoryImage) -> (r: bool)
    ensures
        final(image).base() == old(image).base(),
        (final(image).contents(), r) == place_at_me_fix_step(old(image).contents(), old(image).base()),
{
    reveal(place_at_me_fix_step);
    let g: [u8; 6] = [0x0F, 0x84, 0xE2, 0x02, 0x00, 0x00];
    assert(g@ =~= place_at_me_fix_guard());
    if !check(image, fo3_steam_17_vaultmp::PLACE_AT_ME_FIX, &g) {
        return false;
    }
    let jump = write_rel_jump(fo3_steam_17_vaultmp::PLACE_AT_ME_FIX, fo3_steam_17_vaultmp::PLACE_AT_ME_FIX_DEST);
    put_op(image, &jump);
    put_bytes(image, fo3_steam_17_vaultmp::PLACE_AT_ME_FIX + 5, &[0x90]);
    true
}

/// Applies the Steam behavior patches (AI pause, script delegator,
/// PlaceAtMe interception and skip, weapon-fire interception). Each site is
/// checked against its expected bytes at the moment it is reached and
/// skipped on a mismatch, so any other build is left alone. Returns
/// whether anything was applied.
pub fn apply_steam_vaultmp(image: &mut MemoryImage, hooks: VaultmpHooks) -> (r: bool)
    ensures
        final(image).base() == old(image).base(),
        (final(image).contents(), r) == steam_vaultmp_patched(old(image).contents(), old(image).base(), hooks),
{
    let g1: [u8; 6] = [0x74, 0x2A, 0x83, 0xF8, 0x03, 0x74];
    assert(g1@ =~= ai_fix2_guard());
    let mut b1: Vec<u8> = Vec::new();
    b1.push(0x2E);
    assert(b1@ =~= seq![0x2Eu8]);
    let a1 = guarded_op(
        image,
        fo3_steam_17_vaultmp::AI_FIX2 - 1,
        &g1,
        &PatchOp { addr: fo3_steam_17_vaultmp::AI_FIX2, bytes: b1 },
    );
    let g2: [u8; 6] = [0xCC, 0xCC, 0xCC, 0xCC, 0xCC, 0xCC];
    assert(g2@ =~= ai_fix3_guard());
    let b2: Vec<u8> = vec![0x85, 0xFF, 0x74, 0xCE, 0xEB, 0xF6];
    assert(b2@ =~= ai_fix3_block());
    let a2 = guarded_op(image, fo3_steam_17_vaultmp::AI_FIX3, &g2, &PatchOp { addr: fo3_steam_17_vaultmp::AI_FIX3, bytes: b2 });
    let g3: [u8; 6] = [0x8B, 0x0D, 0xD4, 0xC5, 0x23, 0x01];
    assert(g3@ =~= delegator_src_guard());
    let call = write_rel_call(fo3_steam_17_vaultmp::DELEGATOR_SRC, fo3_steam_17_vaultmp::DELEGATOR_DEST);
    let a3 = guarded_op(image, fo3_steam_17_vaultmp::DELEGATOR_SRC, &g3, &call);
    let a4 = delegator_pad(image, hooks.bethesda_delegator);
    let g5: [u8; 5] = [0xE8, 0x25, 0x5F, 0xF6, 0xFF];
    assert(g5@ =~= place_at_me_guard());
    let a5 = hook_jump(image, fo3_steam_17_vaultmp::PLACE_AT_ME_JMP, &g5, hooks.place_at_me);
    let a6 = place_at_me_fix(image);
    let g7: [u8; 5] = [0xE8, 0x84, 0x14, 0xF9, 0xFF];
    assert(g7@ =~= fire_weapon_guard());
    let a7 = hook_jump(image, fo3_steam_17_vaultmp::FIRE_WEAPON_JMP, &g7, hooks.fire_weapon);
    a1 || a2 || a3 || a4 || a5 || a6 || a7
}

/// A build whose bytes match none of the Steam guards is left exactly as
/// it was, and nothing is reported applied.
pub proof fn law_steam_vaultmp_leaves_other_builds(c: Seq<u8>, base: usize, h: VaultmpHooks)
    requires
        !holds_in(c, base, (fo3_steam_17_vaultmp::AI_FIX2 - 1) as usize, ai_fix2_guard()),
        !holds_in(c, base, fo3_steam_17_vaultmp::AI_FIX3, ai_fix3_guard()),
        !holds_in(c, base, fo3_steam_17_vaultmp::DELEGATOR_SRC, delegator_src_guard()),
        !holds_in(c, base, fo3_steam_17_vaultmp::DELEGATOR_DEST, delegator_pad_guard()),
        !holds_in(c, base, fo3_steam_17_vaultmp::PLACE_AT_ME_JMP, place_at_me_guard()),
        !holds_in(c, base, fo3_steam_17_vaultmp::PLACE_AT_ME_FIX, place_at_me_fix_guard()),
        !holds_in(c, base, fo3_steam_17_vaultmp::FIRE_WEAPON_JMP, fire_weapon_guard()),
    ensures
        steam_vaultmp_patched(c, base, h) == (c, false),
{
    reveal(delegator_pad_step);
    reveal(place_at_me_fix_step);
}

/// The engine's per-actor AI predicate on the classic build.
pub const AI_PREDICATE_FO3_CLASSIC: usize = 0x006F_AE90;
/// The same predicate on the Steam build.
pub const STEAM_AI_PREDICATE: usize = 0x007D_0A50;

/// Prologue of the AI predicate on both builds: `push esi; mov esi, ecx`.
pub open spec fn ai_predicate_prologue() -> Seq<u8> {
    seq![0x56u8, 0x8B, 0xF1]
}

/// The AI-predicate site of the running build, picked by its prologue.
pub open spec fn ai_site(image: MemoryImage) -> Option<usize> {
    if holds(image, AI_PREDICATE_FO3_CLASSIC, ai_predicate_prologue()) {
        Some(AI_PREDICATE_FO3_CLASSIC)
    } else if holds(image, STEAM_AI_PREDICATE, ai_predicate_prologue()) {
        Some(STEAM_AI_PREDICATE)
    } else {
        None
    }
}

/// The AI-predicate site of the running build; `None` on an unknown build.
pub fn ai_predicate_site(image: &MemoryImage) -> (r: Option<usize>)
    ensures
        r == ai_site(*image),
{
    let prologue: [u8; 3] = [0x56, 0x8B, 0xF1];
    assert(prologue@ =~= ai_predicate_prologue());
    if guard_holds(image, AI_PREDICATE_FO3_CLASSIC, &prologue) {
        return Some(AI_PREDICATE_FO3_CLASSIC);
    }
    if guard_holds(image, STEAM_AI_PREDICATE, &prologue) {
        return Some(STEAM_AI_PREDICATE);
    }
    None
}

/// Installs the actor-discovery detour: the AI predicate every processed
/// actor passes through is detoured to `thunk`, which reports the actor
/// and continues through the trampoline built at `trampoline`. Nothing
/// happens on an unknown build; an installed detour is kept. Returns
/// whether the detour is in place.
pub fn apply_actor_discovery(
    image: &mut MemoryImage,
    installed: &mut Option<Detour>,
    thunk: usize,
    trampoline: usize,
) -> (r: bool)
    ensures
        final(image).base() == old(image).base(),
        ai_site(*old(image)) is None ==> !r && final(image).contents() == old(image).contents()
            && *final(installed) == *old(installed),
        ai_site(*old(image)) is Some && (*old(installed)) is Some ==> r && final(image).contents() == old(
            image,
        ).contents() && *final(installed) == *old(installed),
        ai_site(*old(image)) matches Some(site) ==> ((*old(installed)) is None ==> {
            let fits = old(image).covers(site, 5) && old(image).covers(trampoline, TRAMPOLINE_SIZE as nat)
                && trampoline + 5 <= usize::MAX && site + 5 <= usize::MAX;
            &&& r == fits
            &&& !fits ==> final(image).contents() == old(image).contents() && (*final(installed)) is None
            &&& fits ==> ((*final(installed)) matches Some(d) && d.target() == site && d.hook() == thunk
                && d.trampoline() == trampoline && d.installed() && d.saved() == old(image).bytes_at(site, 5)
                && final(image).contents() == splice(
                splice(
                    old(image).contents(),
                    trampoline - old(image).base(),
                    trampoline_bytes(old(image).bytes_at(site, 5), site, trampoline),
                ),
                site - old(image).base(),
                rel_bytes(JMP_OPCODE, site, thunk),
            ))
        }),
{
    let site = match ai_predicate_site(image) {
        Some(s) => s,
        None => return false,
    };
    if installed.is_some() {
        return true;
    }
    let ghost c0 = image.contents();
    let mut d = match Detour::new(image, site, thunk, trampoline) {
        Some(d) => d,
        None => return false,
    };
    assert(image.contents().len() == c0.len());
    d.install(image);
    *installed = Some(d);
    true
}

/// Classic/GOG weapon-fire routine.
pub const FIRE_ROUTINE_CLASSIC: usize = 0x004B_E1A0;
/// Steam weapon-fire routine.
pub const FIRE_ROUTINE_STEAM: usize = 0x0077_0880;

/// Prologue of the classic fire routine (SEH frame setup).
pub open spec fn fire_prologue_classic() -> Seq<u8> {
    seq![0x6Au8, 0xFF, 0x68, 0xDA, 0x2F, 0xC3]
}

/// Prologue of the Steam fire routine.
pub open spec fn fire_prologue_steam() -> Seq<u8> {
    seq![0x53u8, 0x8B, 0xDC, 0x83, 0xEC, 0x08]
}

/// The engine's weapon-fire routine for the running build, picked by its
/// prologue bytes; 0 when neither build matches.
pub fn fire_routine_addr(image: &MemoryImage) -> (r: usize)
    ensures
        r == if holds(*image, FIRE_ROUTINE_CLASSIC, fire_prologue_classic()) {
            FIRE_ROUTINE_CLASSIC
        } else if holds(*image, FIRE_ROUTINE_STEAM, fire_prologue_steam()) {
            FIRE_ROUTINE_STEAM
        } else {
            0
        },
{
    let classic: [u8; 6] = [0x6A, 0xFF, 0x68, 0xDA, 0x2F, 0xC3];
    let steam: [u8; 6] = [0x53, 0x8B, 0xDC, 0x83, 0xEC, 0x08];
    assert(classic@ =~= fire_prologue_classic());
    assert(steam@ =~= fire_prologue_steam());
    if guard_holds(image, FIRE_ROUTINE_CLASSIC, &classic) {
        return FIRE_ROUTINE_CLASSIC;
    }
    if guard_holds(image, FIRE_ROUTINE_STEAM, &steam) {
        return FIRE_ROUTINE_STEAM;
    }
    0
}

/// Collector behind the respawn hook: player respawn stays off until the
/// server revives them.
pub fn ashfall_hook_respawn() {
    crate::bridge::hooks::set_respawn_allowed(false);
}

/// The event queue after an object hook fired on `obj`: a null object
/// queues nothing; otherwise the object's form id goes out as a
/// single-ref event of `event_type`.
pub open spec fn after_object_hook(
    v: crate::bridge::network::BridgeView,
    image: MemoryImage,
    obj: usize,
    event_type: u32,
) -> crate::bridge::network::BridgeView {
    if obj == 0 {
        v
    } else {
        crate::bridge::network::BridgeView {
            events: v.events.push(
                crate::event::event_frame_bytes(
                    event_type,
                    le32(crate::bridge::hooks::vtable::word_at(image, obj + crate::bridge::hooks::vtable::OFFSET_REF_ID)),
                ),
            ),
            ..v
        }
    }
}

fn object_hook(
    bridge: &mut crate::bridge::network::Bridge,
    image: &MemoryImage,
    obj: usize,
    event_type: u32,
)
    requires
        obj != 0 ==> crate::bridge::hooks::vtable::readable32(*image, obj + crate::bridge::hooks::vtable::OFFSET_REF_ID),
    ensures
        final(bridge).view() == after_object_hook(old(bridge).view(), *image, obj, event_type),
{
    if obj != 0 {
        let ref_id = crate::bridge::hooks::vtable::get_ref_id(image, obj);
        let frame = crate::event::encode_ref_event(event_type, ref_id);
        crate::bridge::network::push_event_frame(bridge, frame);
    }
}

/// Collector behind the activation hook: reports the activated object as
/// an activation event.
pub fn ashfall_hook_activate(bridge: &mut crate::bridge::network::Bridge, image: &MemoryImage, obj: usize)
    requires
        obj != 0 ==> crate::bridge::hooks::vtable::readable32(*image, obj + crate::bridge::hooks::vtable::OFFSET_REF_ID),
    ensures
        final(bridge).view() == after_object_hook(old(bridge).view(), *image, obj, crate::event::EVENT_ACTIVATE),
{
    object_hook(bridge, image, obj, crate::event::EVENT_ACTIVATE);
}

/// Collector behind the weapon-fire hook: reports the shooter as a fire
/// event.
pub fn ashfall_hook_fire(bridge: &mut crate::bridge::network::Bridge, image: &MemoryImage, obj: usize)
    requires
        obj != 0 ==> crate::bridge::hooks::vtable::readable32(*image, obj + crate::bridge::hooks::vtable::OFFSET_REF_ID),
    ensures
        final(bridge).view() == after_object_hook(old(bridge).view(), *image, obj, crate::event::EVENT_FIRE),
{
    object_hook(bridge, image, obj, crate::event::EVENT_FIRE);
}

/// Collector behind the animation hook; animations are not relayed yet.
pub fn ashfall_hook_anim() {
}

/// Collector behind the idle-animation hook; idles are not relayed yet.
pub fn ashfall_hook_play_idle() {
}

/// Collector behind the actor-value hook; values are not relayed yet.
pub fn ashfall_hook_av() {
}

/// Collector behind the script-delegator hook; delegated calls are not
/// relayed yet.
pub fn ashfall_hook_delegator() {
}

} // verus!
