use ashfall::bridge::events::{
    has_event_sinks, register_event_sink, sinks_for, unregister_event_sink, EventSinks,
    TESDeathEvent, EVENT_ON_DEATH, EVENT_ON_HIT,
};
use ashfall::bridge::hooks::address::{select_candidate, AutoPtr, Candidate};
use ashfall::bridge::hooks::detour::Detour;
use ashfall::bridge::hooks::memory::MemoryImage;
use ashfall::bridge::hooks::vtable::{
    exe_base_name, fo3_lookup_addr, read_field_u32, read_field_u8, steam_slot_for,
    vtable_entry_size, vtable_index, write_field_u32, write_field_u8, AV_ACTION_POINTS,
    AV_CARRY_WEIGHT, AV_DAMAGE_RESIST, AV_DAMAGE_THRESHOLD, AV_DEHYDRATION, AV_HEALTH, AV_HUNGER,
    AV_RADIATION, AV_SLEEP, AV_SPEED_MULT, LOOKUP_FORM_FO3_GOG, LOOKUP_FORM_FO3_STEAM,
};
use std::cell::Cell;

#[test]
fn test_event_sink_registration() {
    let mut sinks = EventSinks::new();
    let hit_sink = 0x1000usize;
    unregister_event_sink(&mut sinks, EVENT_ON_HIT, hit_sink);
    assert!(!has_event_sinks(&sinks, EVENT_ON_HIT));
    register_event_sink(&mut sinks, EVENT_ON_HIT, hit_sink);
    assert!(has_event_sinks(&sinks, EVENT_ON_HIT));
    unregister_event_sink(&mut sinks, EVENT_ON_HIT, hit_sink);
    assert!(!has_event_sinks(&sinks, EVENT_ON_HIT));
}

#[test]
fn test_event_sink_unknown_type_and_empty() {
    let sinks = EventSinks::new();
    assert!(!has_event_sinks(&sinks, 99));
    assert!(sinks_for(&sinks, 99).is_empty());
}

#[test]
fn event_sinks_fire_in_registration_order() {
    let mut sinks = EventSinks::new();
    register_event_sink(&mut sinks, EVENT_ON_DEATH, 0x30);
    register_event_sink(&mut sinks, EVENT_ON_HIT, 0x10);
    register_event_sink(&mut sinks, EVENT_ON_DEATH, 0x20);
    register_event_sink(&mut sinks, EVENT_ON_DEATH, 0x30);
    assert_eq!(sinks_for(&sinks, EVENT_ON_DEATH), vec![0x30, 0x20, 0x30]);
    unregister_event_sink(&mut sinks, EVENT_ON_DEATH, 0x30);
    assert_eq!(sinks_for(&sinks, EVENT_ON_DEATH), vec![0x20]);
    assert_eq!(sinks_for(&sinks, EVENT_ON_HIT), vec![0x10]);
    let e = TESDeathEvent { actor: 7, killer: 8, limbs: 2, cause: 1 };
    assert_eq!(e.limbs, 2);
}

#[test]
fn test_auto_ptr_resolves_once() {
    let calls = Cell::new(0usize);
    let mut ptr = AutoPtr::new(|| {
        calls.set(calls.get() + 1);
        0xDEADBEEF
    });
    assert_eq!(ptr.get(), 0xDEADBEEF);
    assert_eq!(ptr.get(), 0xDEADBEEF);
    assert_eq!(calls.get(), 1, "resolved once");
}

#[test]
fn test_select_candidate_fallback_off_windows() {
    let image = MemoryImage::new(0x1000, vec![0; 0x2000]);
    let picked = select_candidate(
        &image,
        &[
            Candidate { addr: 0x1111, signature: vec![0x51, 0x8B] },
            Candidate { addr: 0x2222, signature: vec![0x55, 0x8B] },
        ],
        0x3333,
    );
    assert_eq!(picked, 0x3333);
}

#[test]
fn select_candidate_picks_first_match() {
    let mut bytes = vec![0u8; 0x2000];
    bytes[0x1222..0x1224].copy_from_slice(&[0x55, 0x8B]);
    bytes[0x0111..0x0113].copy_from_slice(&[0x51, 0x8B]);
    let image = MemoryImage::new(0x1000, bytes);
    let cands = [
        Candidate { addr: 0x2222, signature: vec![0x55, 0x8B] },
        Candidate { addr: 0x1111, signature: vec![0x51, 0x8B] },
    ];
    assert_eq!(select_candidate(&image, &cands, 0), 0x2222);
}

#[test]
fn fo3_lookup_addr_by_prologue() {
    let base = 0x0045_0000usize;
    let mut bytes = vec![0u8; 0x0030_0000];
    assert_eq!(fo3_lookup_addr(&MemoryImage::new(base, bytes.clone())), LOOKUP_FORM_FO3_GOG);
    bytes[LOOKUP_FORM_FO3_STEAM - base..][..4].copy_from_slice(&[0x55, 0x8B, 0xEC, 0x53]);
    assert_eq!(fo3_lookup_addr(&MemoryImage::new(base, bytes.clone())), LOOKUP_FORM_FO3_STEAM);
    assert_eq!(LOOKUP_FORM_FO3_STEAM, 0x0071_2AF0);
    bytes[LOOKUP_FORM_FO3_GOG - base..][..4].copy_from_slice(&[0x51, 0x8B, 0x0D, 0x14]);
    assert_eq!(fo3_lookup_addr(&MemoryImage::new(base, bytes)), LOOKUP_FORM_FO3_GOG);
}

#[test]
fn test_detour_new_saves_original_bytes() {
    let mut image = MemoryImage::new(0x1000, (0u8..64).collect());
    let d = Detour::new(&mut image, 0x1004, 0x9000, 0x1020);
    if let Some(detour) = d {
        assert!(!detour.original().is_empty());
        assert_eq!(detour.original().len(), 5);
        assert_eq!(*detour.original(), vec![4, 5, 6, 7, 8]);
    } else {
        panic!("target and trampoline are mapped");
    }
}

#[test]
fn test_detour_install_uninstall_cycle() {
    let mut image = MemoryImage::new(0x1000, (0u8..64).collect());
    let mut detour = Detour::new(&mut image, 0x1004, 0x1030, 0x1020).expect("mapped");
    let trampoline = image.read(0x1020, 10).unwrap();
    assert_eq!(&trampoline[..5], &[4, 5, 6, 7, 8]);
    assert_eq!(trampoline[5], 0xE9);
    assert!(!detour.is_installed());
    detour.install(&mut image);
    assert!(detour.is_installed());
    assert_eq!(image.read(0x1004, 1), Some(vec![0xE9]));
    detour.install(&mut image);
    assert!(detour.is_installed());
    detour.uninstall(&mut image);
    assert!(!detour.is_installed());
    assert_eq!(image.read(0x1004, 5), Some(vec![4, 5, 6, 7, 8]));
    detour.uninstall(&mut image);
    assert!(!detour.is_installed());
}

#[test]
fn detour_needs_mapped_trampoline() {
    let mut image = MemoryImage::new(0x1000, vec![0x90; 16]);
    assert!(Detour::new(&mut image, 0x1000, 0x2000, 0x5000).is_none());
    assert_eq!(image.read(0x1000, 16), Some(vec![0x90; 16]));
}

#[test]
fn test_write_field_u8() {
    let mut image = MemoryImage::new(0x4000, vec![0u8; 16]);
    assert!(write_field_u8(&mut image, 0x4000, 4, 0x7B));
    assert!(write_field_u8(&mut image, 0x4000, 5, 0x42));
    assert_eq!(read_field_u8(&image, 0x4000, 4), Some(0x7B));
    assert_eq!(read_field_u8(&image, 0x4000, 5), Some(0x42));
    assert!(!write_field_u8(&mut image, 0x4000, 16, 1));
    assert_eq!(read_field_u8(&image, 0x4000, 16), None);
}

#[test]
fn field_u32_roundtrip() {
    let mut image = MemoryImage::new(0x4000, vec![0u8; 16]);
    assert!(write_field_u32(&mut image, 0x4000, 0x0C, 0xDEAD_BEEF));
    assert_eq!(read_field_u32(&image, 0x4000, 0x0C), Some(0xDEAD_BEEF));
    assert_eq!(read_field_u8(&image, 0x4000, 0x0C), Some(0xEF));
    assert!(!write_field_u32(&mut image, 0x4000, 0x0D, 1));
}

#[test]
fn test_vtable_index_x86() {
    let size = vtable_entry_size();
    if size == 4 {
        assert_eq!(vtable_index(0x30), 12);
        assert_eq!(vtable_index(0x68), 26);
        assert_eq!(vtable_index(0x01E4), 121);
    } else {
        assert_eq!(size, 8);
        assert_eq!(vtable_index(0x30), 6);
        assert_eq!(vtable_index(0x68), 13);
    }
}

#[test]
fn test_actor_value_constants() {
    let vals = [
        AV_HEALTH, AV_ACTION_POINTS, AV_CARRY_WEIGHT, AV_DAMAGE_RESIST, AV_DAMAGE_THRESHOLD,
        AV_SPEED_MULT, AV_RADIATION, AV_DEHYDRATION, AV_HUNGER, AV_SLEEP,
    ];
    for i in 0..vals.len() {
        for j in i + 1..vals.len() {
            assert_ne!(vals[i], vals[j], "AV constants must be distinct");
        }
    }
    assert_eq!(AV_HEALTH, 0x14);
    assert_eq!(AV_DAMAGE_THRESHOLD, 0x2A);
    assert_eq!(AV_SLEEP, 0x2D);
}

#[test]
fn test_exe_base_name() {
    assert_eq!(exe_base_name(r"C:\Games\Fallout 3\Fallout3.exe").as_deref(), Some("Fallout3.exe"));
    assert_eq!(exe_base_name("Z:\\games\\FalloutNV.exe").as_deref(), Some("FalloutNV.exe"));
    assert_eq!(exe_base_name("/opt/loader.exe").as_deref(), Some("loader.exe"));
    assert_eq!(exe_base_name(""), None);
    assert_eq!(exe_base_name("noslash").as_deref(), Some("noslash"));
    assert_eq!(exe_base_name("dir/"), None);
}

#[test]
fn steam_slot_mapping() {
    let base = 0x0045_0000usize;
    let mut bytes = vec![0u8; 0x0030_0000];
    // Not a Steam image (here: no known prologue at all): never remapped.
    let other = MemoryImage::new(base, bytes.clone());
    assert_eq!(steam_slot_for(&other, 0xA0), None);
    bytes[LOOKUP_FORM_FO3_STEAM - base..][..4].copy_from_slice(&[0x55, 0x8B, 0xEC, 0x53]);
    let steam = MemoryImage::new(base, bytes.clone());
    assert_eq!(steam_slot_for(&steam, 0xA0), Some(0xFC));
    assert_eq!(steam_slot_for(&steam, 0x9C), None);
    // The classic build keeps its own slots.
    bytes[LOOKUP_FORM_FO3_GOG - base..][..4].copy_from_slice(&[0x51, 0x8B, 0x0D, 0x14]);
    assert_eq!(steam_slot_for(&MemoryImage::new(base, bytes), 0xA0), None);
}
