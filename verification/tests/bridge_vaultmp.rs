use ashfall::bridge::hooks::memory::MemoryImage;
use ashfall::bridge::hooks::vaultmp::{
    apply, apply_fnv_frame_hook, apply_fo3_frame_hook, apply_steam_frame_hook, apply_steam_respawn,
    ai_predicate_site, apply_actor_discovery, apply_classic_vaultmp, apply_steam_vaultmp, fire_routine_addr, fo3_steam_classic,
    recipes, VaultmpHooks, AI_PREDICATE_FO3_CLASSIC, STEAM_AI_PREDICATE,
    required_hooks, Recipe, FIRE_ROUTINE_CLASSIC, FIRE_ROUTINE_STEAM, FNV_FRAME_HOOK_SITE,
    FO3_FRAME_HOOK_SITE, STEAM_FRAME_HOOK_SITE, STEAM_FRAME_IAT_SLOT,
};
use ashfall::bridge::hooks::vaultmp::fo3_steam_17_respawn as respawn;
use ashfall::bridge::hooks::vaultmp::fo3_steam_17_vaultmp as sv;
use std::collections::BTreeSet;

fn in_range(a: usize) -> bool {
    (0x400000..0x1200000).contains(&a)
}

#[test]
fn every_required_hook_resolves() {
    // Hook thunks exist only inside the injected plugin; off the game host
    // there is nothing to resolve, and the list itself must be complete.
    assert_eq!(required_hooks().len(), 8);
}

#[test]
fn steam_respawn_sites_consistent() {
    let rel: i32 = 0x77;
    assert_eq!(respawn::SITE_B_JNE + 6 + rel as usize, respawn::SITE_B_SKIP);
    assert_eq!(respawn::SITE_B_TAIL, respawn::SITE_B_JNE + 5);
    assert!(in_range(respawn::SITE_A_JNE));
    assert!(in_range(respawn::SITE_B_SKIP));
    assert_eq!(respawn::SITE_B2_FLAG, 0x8C9D52);
    assert!(in_range(respawn::SITE_B2_FLAG));
}

#[test]
fn steam_vaultmp_sites_consistent() {
    for a in [
        sv::PLAY_IDLE_CALL_SRC,
        sv::LOCK_FIX,
        sv::AI_FIX1,
        sv::GET_ACTIVATE_JMP,
        sv::GET_ACTIVATE_RET,
        sv::DELEGATOR_DEST,
        sv::DELEGATOR_CALL_SRC,
        sv::PLAY_GROUP_FIX,
        sv::AV_FIX_SRC,
        sv::AV_FIX_RET,
        sv::AV_FIX_TERM,
        sv::FIRE_WEAPON_JMP,
        sv::FIRE_WEAPON_CALL,
        sv::PLUGINS_VMP,
    ] {
    assert!(in_range(a), "{a:#x} out of range");
    }
    assert_eq!(sv::PLUGINS_VMP, 0xF9FDB1);
    assert_eq!(sv::FIRE_WEAPON_CALL, 0x770880);
    assert_eq!(sv::FIRE_WEAPON_JMP, 0x7DF3F7);
    assert_eq!(sv::GET_ACTIVATE_JMP, 0x8D3BC8);
    assert_eq!(sv::GET_ACTIVATE_RET, 0x8D3CB8);
    assert_eq!(sv::AI_FIX1, 0x5E99E2);
    assert_eq!(sv::PLAY_GROUP_FIX, 0x4350F9);
    assert_eq!(sv::DELEGATOR_DEST, 0x405E69);
    assert_eq!(sv::DELEGATOR_CALL_SRC, sv::DELEGATOR_DEST + 1);
    assert_eq!(sv::AV_FIX_RET, sv::AV_FIX_SRC + 5);
    assert!(sv::AV_FIX_TERM > sv::AV_FIX_RET);
}

#[test]
fn table_addresses_in_pe_range() {
    let t = fo3_steam_classic();
    let addrs = [
        t.plugins_vmp,
        t.play_group,
        t.delegator_src,
        t.delegator_dest,
        t.delegator_call_src,
        t.no_respawn_nop,
        t.no_respawn_jmp_src,
        t.no_respawn_jmp_dest,
        t.play_idle_call_src,
        t.play_idle_fix_src,
        t.match_race_nop1,
        t.match_race_nop2,
        t.match_race_patch,
        t.match_race_param,
        t.lock_fix,
        t.ai_fix1,
        t.ai_fix2,
        t.ai_fix3,
        t.ai_fix4,
        t.play_group_fix,
        t.play_group_fix_src,
        t.play_group_fix_dest,
        t.av_fix_src,
        t.av_fix_ret,
        t.av_fix_term,
        t.fire_fix_jmp,
        t.fire_fix_patch,
        t.get_activate_jmp,
        t.get_activate_ret,
        t.place_at_me_jmp,
        t.place_at_me_call,
        t.place_at_me_fix,
        t.place_at_me_fix_dest,
        t.fire_weapon_jmp,
        t.fire_weapon_call,
    ];
    for a in addrs {
    assert!(in_range(a), "address 0x{a:x} outside FO3 image range");
    }
}

#[test]
fn steam_frame_hook_site_consistent() {
    assert!(in_range(STEAM_FRAME_HOOK_SITE));
    assert!(in_range(STEAM_FRAME_IAT_SLOT));
    assert_eq!(STEAM_FRAME_HOOK_SITE, 0x009B_3D77);
    assert_eq!(STEAM_FRAME_IAT_SLOT, 0x00F2_41E4);
}

fn recipe_name(rec: &Recipe) -> &'static str {
    match rec {
        Recipe::Bytes { name, .. } => name,
        Recipe::Write { name, .. } => name,
        Recipe::RelCall { name, .. } => name,
        Recipe::RelJump { name, .. } => name,
        Recipe::RelCallHook { name, .. } => name,
        Recipe::RelJumpHook { name, .. } => name,
    }
}

#[test]
fn recipes_cover_every_patch_from_patchgame() {
    let r = recipes(&fo3_steam_classic());
    assert_eq!(r.len(), 34, "recipe count regressed");
    for rec in &r {
    assert!(
            in_range(rec.addr()),
            "recipe {} at 0x{:x} outside range",
            recipe_name(rec),
            rec.addr()
        );
    }
    let mut sites: Vec<usize> = r.iter().map(|rec| rec.addr()).collect();
    sites.sort();
    let dup: Vec<_> = sites.windows(2).filter(|w| w[0] == w[1]).collect();
    assert!(dup.is_empty(), "duplicate recipe sites: {dup:?}");
}

#[test]
fn every_required_hook_is_requested() {
    let r = recipes(&fo3_steam_classic());
    let requested: BTreeSet<_> = r.iter().filter_map(Recipe::required_hook).collect();
    let required = required_hooks();
    for h in &required {
    assert!(requested.contains(h), "hook {h} not requested by recipes");
    }
    assert_eq!(requested.len(), required.len());
}

#[test]
fn plugins_vmp_bytes_are_literal_dot_vmp() {
    assert_eq!(u32::from_le_bytes(*b".vmp"), 0x706D762E);
}

#[test]
fn steam_vaultmp_site_constants_are_documented() {
    assert_eq!(sv::AI_FIX2, 0x007D_0AA6);
    assert_eq!(sv::AI_FIX3, 0x007D_0AD5);
    assert_eq!(sv::AI_PREDICATE, 0x007D_0A50);
    assert_eq!(sv::DELEGATOR_SRC, 0x009B_3EF6);
    assert_eq!(sv::DELEGATOR_DEST, 0x0040_5E69);
    assert_eq!(sv::DELEGATOR_CALL_SRC, 0x0040_5E6A);
    assert_eq!(sv::PLAY_IDLE_FIX_SRC, 0x0079_DA88);
    assert_eq!(sv::FIRE_FIX_JMP, 0x008D_A397);
    assert_eq!(sv::FIRE_FIX_PATCH, 0x008D_A3CE);
    assert_eq!(sv::PLACE_AT_ME_JMP, 0x0079_E556);
    assert_eq!(sv::PLACE_AT_ME_CALL, 0x0070_4480);
    assert_eq!(sv::PLACE_AT_ME_FIX, 0x009C_BCAF);
    assert_eq!(sv::PLACE_AT_ME_FIX_DEST, 0x009C_BF97);
    assert_eq!(sv::MATCH_RACE_NOP1, 0x006F_71FA);
    assert_eq!(sv::MATCH_RACE_NOP2, 0x006F_720E);
    assert_eq!(sv::MATCH_RACE_PATCH, 0x006F_7220);
}

#[test]
fn rel_jump_offset_math() {
    let from = 0x0049DD8Eusize;
    let to = 0x0049DCF1usize;
    let disp = (to as isize - from as isize - 5) as i32;
    assert_eq!(disp, -162);
    assert_eq!(disp.to_le_bytes(), [0x5E, 0xFF, 0xFF, 0xFF]);
    let op = ashfall::bridge::hooks::memory::write_rel_jump(from, to);
    assert_eq!(op.bytes[1..], disp.to_le_bytes());
}

#[test]
fn recipe_bytes_match_vaultmp_source() {
    let r = recipes(&fo3_steam_classic());
    let find = |name: &str| {
        r.iter()
            .find(|rec| match rec {
                Recipe::Bytes { name: n, .. } => *n == name,
                Recipe::Write { name: n, .. } => *n == name,
                _ => false,
            })
            .expect(name)
    };
    if let Recipe::Write { value, .. } = find("delegator_push_ecx") {
    assert_eq!(*value, 0x51);
    } else {
        panic!("delegator_push_ecx wrong variant");
    }
    if let Recipe::Write { value, .. } = find("delegator_call_pop_ecx") {
    assert_eq!(*value, 0x59);
    } else {
        panic!("delegator_call_pop_ecx wrong variant");
    }
    if let Recipe::Bytes { bytes, .. } = find("ai_fix3_block") {
    assert_eq!(*bytes, [0x85, 0xFF, 0x74, 0xCC, 0xEB, 0xF6]);
    } else {
        panic!("ai_fix3_block wrong variant");
    }
    if let Recipe::Bytes { bytes, .. } = find("fire_fix_jmp") {
    assert_eq!(*bytes, [0xEB, 0x57, 0x90]);
    } else {
        panic!("fire_fix_jmp wrong variant");
    }
    if let Recipe::Bytes { bytes, .. } = find("match_race_nop1") {
    assert_eq!(bytes.len(), 18);
        assert!(bytes.iter().all(|b| *b == 0x90));
    } else {
        panic!("match_race_nop1 wrong variant");
    }
}

// ── byte-guarded installers ──

const STEAM_BASE: usize = 0x008C_9000;

fn steam_respawn_image() -> MemoryImage {
    let mut bytes = vec![0xCCu8; 0x009C_5000 - STEAM_BASE];
    bytes[respawn::SITE_A_JNE - STEAM_BASE..][..2].copy_from_slice(&[0x75, 0x03]);
    bytes[respawn::SITE_B_JNE - STEAM_BASE..][..6].copy_from_slice(&[0x0F, 0x85, 0x77, 0x00, 0x00, 0x00]);
    bytes[respawn::SITE_B2_FLAG - STEAM_BASE..][..4].copy_from_slice(&[0xC6, 0x40, 0x02, 0x01]);
    MemoryImage::new(STEAM_BASE, bytes)
}

#[test]
fn steam_respawn_patch_applies_on_matching_build() {
    let mut image = steam_respawn_image();
    let patches = apply_steam_respawn(&mut image).expect("guards match");
    assert_eq!(patches.len(), 3);
    assert_eq!(image.read(respawn::SITE_A_JNE, 2), Some(vec![0x90, 0x90]));
    let jmp = image.read(respawn::SITE_B_JNE, 6).unwrap();
    assert_eq!(jmp[0], 0xE9);
    let disp = i32::from_le_bytes([jmp[1], jmp[2], jmp[3], jmp[4]]);
    assert_eq!((respawn::SITE_B_JNE as i64 + 5 + disp as i64) as usize, respawn::SITE_B_SKIP);
    assert_eq!(jmp[5], 0x90);
    assert_eq!(image.read(respawn::SITE_B2_FLAG, 4), Some(vec![0x90; 4]));
    // Restoring the byte patches in reverse order puts the saved bytes back.
    for p in patches.iter().rev() {
    assert!(image.write(&p.restore()));
    }
    assert_eq!(image.read(respawn::SITE_A_JNE, 2), Some(vec![0x75, 0x03]));
    assert_eq!(image.read(respawn::SITE_B2_FLAG, 4), Some(vec![0xC6, 0x40, 0x02, 0x01]));
}

#[test]
fn steam_respawn_patch_skips_other_builds() {
    let mut image = steam_respawn_image();
    assert!(image.write(&ashfall::bridge::hooks::memory::PatchOp {
        addr: respawn::SITE_B2_FLAG,
        bytes: vec![0xC6, 0x40, 0x02, 0x00],
    }));
    let before = image.read(STEAM_BASE, image.size()).unwrap();
    assert!(apply_steam_respawn(&mut image).is_none());
    assert_eq!(image.read(STEAM_BASE, image.size()).unwrap(), before);
}

#[test]
fn frame_hooks_redirect_only_guarded_calls() {
    let base = 0x006E_0000usize;
    let mut bytes = vec![0u8; 0x0020_0000];
    bytes[FO3_FRAME_HOOK_SITE - base..][..5].copy_from_slice(&[0xE8, 0x0C, 0x53, 0xFF, 0xFF]);
    let mut image = MemoryImage::new(base, bytes);
    let hook = 0x1000_0000usize;
    assert!(!apply_fnv_frame_hook(&mut image, hook), "not a New Vegas image");
    assert!(!apply_steam_frame_hook(&mut image, hook));
    assert!(apply_fo3_frame_hook(&mut image, hook));
    let call = image.read(FO3_FRAME_HOOK_SITE, 5).unwrap();
    assert_eq!(call[0], 0xE8);
    let disp = i32::from_le_bytes([call[1], call[2], call[3], call[4]]);
    assert_eq!((FO3_FRAME_HOOK_SITE as i64 + 5 + disp as i64) as usize, hook);
    // A second install finds the call already redirected.
    assert!(!apply_fo3_frame_hook(&mut image, hook));
}

#[test]
fn steam_frame_hook_nops_the_sixth_byte() {
    let base = 0x009B_0000usize;
    let mut bytes = vec![0u8; 0x10000];
    bytes[STEAM_FRAME_HOOK_SITE - base..][..6].copy_from_slice(&[0xFF, 0x15, 0xE4, 0x41, 0xF2, 0x00]);
    let mut image = MemoryImage::new(base, bytes);
    assert!(apply_steam_frame_hook(&mut image, 0x0050_0000));
    let site = image.read(STEAM_FRAME_HOOK_SITE, 6).unwrap();
    assert_eq!(site[0], 0xE8);
    assert_eq!(site[5], 0x90);
}

#[test]
fn fnv_frame_hook_applies_on_new_vegas() {
    let base = 0x0086_0000usize;
    let mut bytes = vec![0u8; 0x10000];
    bytes[FNV_FRAME_HOOK_SITE - base..][..5].copy_from_slice(&[0xE8, 0x25, 0x11, 0xBD, 0xFF]);
    let mut image = MemoryImage::new(base, bytes);
    assert!(apply_fnv_frame_hook(&mut image, 0x0090_0000));
    assert_eq!(image.read(FNV_FRAME_HOOK_SITE, 1), Some(vec![0xE8]));
}

#[test]
fn fire_routine_is_picked_by_prologue() {
    let base = 0x004B_0000usize;
    let mut bytes = vec![0u8; 0x0030_0000];
    let empty = MemoryImage::new(base, bytes.clone());
    assert_eq!(fire_routine_addr(&empty), 0);
    bytes[FIRE_ROUTINE_STEAM - base..][..6].copy_from_slice(&[0x53, 0x8B, 0xDC, 0x83, 0xEC, 0x08]);
    assert_eq!(fire_routine_addr(&MemoryImage::new(base, bytes.clone())), FIRE_ROUTINE_STEAM);
    bytes[FIRE_ROUTINE_CLASSIC - base..][..6].copy_from_slice(&[0x6A, 0xFF, 0x68, 0xDA, 0x2F, 0xC3]);
    assert_eq!(fire_routine_addr(&MemoryImage::new(base, bytes)), FIRE_ROUTINE_CLASSIC);
}

const IMG_BASE: usize = 0x0040_0000;

fn rel_target(image: &MemoryImage, site: usize) -> usize {
    let b = image.read(site, 5).unwrap();
    let disp = i32::from_le_bytes([b[1], b[2], b[3], b[4]]);
    (site as i64 + 5 + disp as i64) as usize
}

fn steam_vaultmp_image() -> MemoryImage {
    let mut bytes = vec![0u8; 0x009D_0000 - IMG_BASE];
    let mut set = |addr: usize, data: &[u8]| bytes[addr - IMG_BASE..][..data.len()].copy_from_slice(data);
    set(sv::AI_FIX2 - 1, &[0x74, 0x2A, 0x83, 0xF8, 0x03, 0x74]);
    set(sv::AI_FIX3, &[0xCC; 6]);
    set(sv::DELEGATOR_SRC, &[0x8B, 0x0D, 0xD4, 0xC5, 0x23, 0x01]);
    set(sv::DELEGATOR_DEST, &[0xCC; 3]);
    set(sv::PLACE_AT_ME_JMP, &[0xE8, 0x25, 0x5F, 0xF6, 0xFF]);
    set(sv::PLACE_AT_ME_FIX, &[0x0F, 0x84, 0xE2, 0x02, 0x00, 0x00]);
    set(sv::FIRE_WEAPON_JMP, &[0xE8, 0x84, 0x14, 0xF9, 0xFF]);
    MemoryImage::new(IMG_BASE, bytes)
}

#[test]
fn steam_vaultmp_applies_every_guarded_site() {
    let mut image = steam_vaultmp_image();
    let hooks = VaultmpHooks {
        bethesda_delegator: Some(0x1000_0000),
        place_at_me: Some(0x1000_0100),
        fire_weapon: Some(0x1000_0200),
    };
    assert!(apply_steam_vaultmp(&mut image, hooks));
    assert_eq!(image.read(sv::AI_FIX2, 1), Some(vec![0x2E]));
    assert_eq!(image.read(sv::AI_FIX3, 6), Some(vec![0x85, 0xFF, 0x74, 0xCE, 0xEB, 0xF6]));
    assert_eq!(image.read(sv::DELEGATOR_SRC, 1), Some(vec![0xE8]));
    assert_eq!(rel_target(&image, sv::DELEGATOR_SRC), sv::DELEGATOR_DEST);
    assert_eq!(image.read(sv::DELEGATOR_DEST, 1), Some(vec![0x51]));
    assert_eq!(image.read(sv::DELEGATOR_CALL_SRC + 5, 1), Some(vec![0x59]));
    assert_eq!(rel_target(&image, sv::DELEGATOR_CALL_SRC), 0x1000_0000);
    assert_eq!(image.read(sv::PLACE_AT_ME_JMP, 1), Some(vec![0xE9]));
    assert_eq!(rel_target(&image, sv::PLACE_AT_ME_JMP), 0x1000_0100);
    assert_eq!(rel_target(&image, sv::PLACE_AT_ME_FIX), sv::PLACE_AT_ME_FIX_DEST);
    assert_eq!(image.read(sv::PLACE_AT_ME_FIX + 5, 1), Some(vec![0x90]));
    assert_eq!(image.read(sv::FIRE_WEAPON_JMP, 1), Some(vec![0xE9]));
    assert_eq!(rel_target(&image, sv::FIRE_WEAPON_JMP), 0x1000_0200);
    // Every guard now fails: a second run changes nothing.
    let before = image.read(IMG_BASE, 64).unwrap();
    assert!(!apply_steam_vaultmp(&mut image, hooks));
    assert_eq!(image.read(IMG_BASE, 64).unwrap(), before);
}

#[test]
fn steam_vaultmp_skips_hook_sites_without_hooks() {
    let mut image = steam_vaultmp_image();
    let none = VaultmpHooks { bethesda_delegator: None, place_at_me: None, fire_weapon: None };
    assert!(apply_steam_vaultmp(&mut image, none));
    assert_eq!(image.read(sv::PLACE_AT_ME_JMP, 5), Some(vec![0xE8, 0x25, 0x5F, 0xF6, 0xFF]));
    assert_eq!(image.read(sv::FIRE_WEAPON_JMP, 5), Some(vec![0xE8, 0x84, 0x14, 0xF9, 0xFF]));
    assert_eq!(image.read(sv::DELEGATOR_DEST, 1), Some(vec![0x51]));
}

#[test]
fn steam_vaultmp_leaves_other_builds_alone() {
    let mut image = MemoryImage::new(IMG_BASE, vec![0u8; 0x009D_0000 - IMG_BASE]);
    let hooks = VaultmpHooks { bethesda_delegator: Some(1), place_at_me: Some(2), fire_weapon: Some(3) };
    assert!(!apply_steam_vaultmp(&mut image, hooks));
    assert_eq!(image.read(sv::AI_FIX2, 1), Some(vec![0]));
}

#[test]
fn recipe_table_applies_to_a_classic_image() {
    let t = fo3_steam_classic();
    let mut image = MemoryImage::new(IMG_BASE, vec![0u8; 0x00FA_0000 - IMG_BASE]);
    let hook = |name: &str| -> Option<usize> {
        if name == "fire_weapon" { Some(0x2000_0000) } else { None }
    };
    let patches = apply(&mut image, &t, hook);
    let byte_patches = recipes(&t)
        .iter()
        .filter(|r| matches!(r, Recipe::Bytes { .. } | Recipe::Write { .. }))
        .count();
    assert_eq!(patches.len(), byte_patches);
    assert_eq!(image.read(t.plugins_vmp, 4), Some(b".vmp".to_vec()));
    assert_eq!(image.read(t.delegator_dest, 1), Some(vec![0x51]));
    assert_eq!(rel_target(&image, t.delegator_src), t.delegator_dest);
    assert_eq!(rel_target(&image, t.fire_weapon_jmp), 0x2000_0000);
    assert_eq!(image.read(t.place_at_me_jmp, 5), Some(vec![0; 5]), "no hook, no jump");
    // Restoring the recorded patches in reverse order zeroes them again.
    for p in patches.iter().rev() {
        assert!(image.write(&p.restore()));
    }
    assert_eq!(image.read(t.plugins_vmp, 4), Some(vec![0; 4]));
}

#[test]
fn actor_discovery_detours_the_ai_predicate_once() {
    let base = 0x006F_0000usize;
    let mut bytes = vec![0u8; 0x0020_0000];
    bytes[STEAM_AI_PREDICATE - base..][..5].copy_from_slice(&[0x56, 0x8B, 0xF1, 0x57, 0x8B]);
    let mut image = MemoryImage::new(base, bytes);
    assert_eq!(ai_predicate_site(&image), Some(STEAM_AI_PREDICATE));
    let mut slot = None;
    let thunk = 0x3000_0000usize;
    let trampoline = 0x0070_0000usize;
    assert!(apply_actor_discovery(&mut image, &mut slot, thunk, trampoline));
    let d = slot.as_ref().expect("detour kept");
    assert!(d.is_installed());
    assert_eq!(d.original(), &vec![0x56, 0x8B, 0xF1, 0x57, 0x8B]);
    assert_eq!(image.read(STEAM_AI_PREDICATE, 1), Some(vec![0xE9]));
    assert_eq!(rel_target(&image, STEAM_AI_PREDICATE), thunk);
    // The trampoline runs the saved prologue, then jumps back past it.
    assert_eq!(image.read(trampoline, 5), Some(vec![0x56, 0x8B, 0xF1, 0x57, 0x8B]));
    assert_eq!(rel_target(&image, trampoline + 5), STEAM_AI_PREDICATE + 5);
    // The prologue is now a jump, so the site no longer matches: a second
    // call finds no site and leaves the installed detour alone.
    assert_eq!(ai_predicate_site(&image), None);
    assert!(!apply_actor_discovery(&mut image, &mut slot, thunk, trampoline));
    assert!(slot.as_ref().unwrap().is_installed());
}

#[test]
fn actor_discovery_skips_unknown_builds() {
    let base = 0x006F_0000usize;
    let mut image = MemoryImage::new(base, vec![0u8; 0x0020_0000]);
    assert_eq!(ai_predicate_site(&image), None);
    let mut slot = None;
    assert!(!apply_actor_discovery(&mut image, &mut slot, 1, 0x0070_0000));
    assert!(slot.is_none());
    let mut bytes = vec![0u8; 0x0020_0000];
    bytes[AI_PREDICATE_FO3_CLASSIC - base..][..3].copy_from_slice(&[0x56, 0x8B, 0xF1]);
    assert_eq!(ai_predicate_site(&MemoryImage::new(base, bytes)), Some(AI_PREDICATE_FO3_CLASSIC));
}

#[test]
fn classic_patch_set_installs_only_on_the_classic_build() {
    let t = fo3_steam_classic();
    let hook = |name: &str| -> Option<usize> { if name == "av_fix" { Some(0x2000_0000) } else { None } };
    let mut other = MemoryImage::new(IMG_BASE, vec![0u8; 0x00FA_0000 - IMG_BASE]);
    assert!(!apply_classic_vaultmp(&mut other, hook));
    assert_eq!(other.read(t.plugins_vmp, 4), Some(vec![0; 4]), "nothing written");
    let mut bytes = vec![0u8; 0x00FA_0000 - IMG_BASE];
    bytes[t.no_respawn_nop - IMG_BASE..][..2].copy_from_slice(&[0x75, 0x03]);
    bytes[t.lock_fix - IMG_BASE..][..4].copy_from_slice(&[0x74, 0x02, 0x88, 0x08]);
    let mut classic = MemoryImage::new(IMG_BASE, bytes);
    assert!(apply_classic_vaultmp(&mut classic, hook));
    assert_eq!(classic.read(t.plugins_vmp, 4), Some(b".vmp".to_vec()));
    assert_eq!(classic.read(t.lock_fix, 2), Some(vec![0x90, 0x90]));
    assert_eq!(rel_target(&classic, t.av_fix_src), 0x2000_0000);
    // The lock fix no longer holds its classic bytes: a second run is refused.
    assert!(!apply_classic_vaultmp(&mut classic, hook));
}
