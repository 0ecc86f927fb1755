use ashfall::bridge::events::{dispatch_event, register_event_sink, EventSinks, EVENT_ON_DEATH, EVENT_ON_HIT};
use ashfall::bridge::hooks::vtable::UNIT_SCALE_BITS;
use ashfall::bridge::hooks::{
    fire_weapon, get_activate, get_actor_base_value, get_base, get_cell, get_combat_target,
    get_enabled, get_hardcore_stats, get_lock, get_name, get_parent_cell, get_scale,
    get_velocity, get_weapon_crit_mult, is_dead, set_actor_value, set_enabled, set_lock,
    set_parent_cell, set_scale,
};
use ashfall::bridge::hooks::memory::MemoryImage;
use ashfall::bridge::hooks::vaultmp::{ashfall_hook_activate, ashfall_hook_fire};
use ashfall::bridge::network::{take_event_frames, Bridge};
use ashfall::event::{encode_ref_event, EVENT_ACTIVATE, EVENT_FIRE};
use std::cell::RefCell;

#[test]
fn unresolved_reference_reads_engine_defaults() {
    let player = 0x14;
    assert_eq!(get_cell(player), 0);
    assert_eq!(get_parent_cell(player), 0);
    assert_eq!(get_lock(player), 0);
    assert_eq!(get_base(player), 0);
    assert_eq!(get_combat_target(player), 0);
    assert_eq!(get_activate(player), 0);
    assert_eq!(get_actor_base_value(player, 0x14), 0);
    assert!(get_enabled(player));
    assert!(!is_dead(player));
    assert_eq!(get_name(player), "unnamed");
    assert_eq!(get_scale(player), UNIT_SCALE_BITS);
    assert_eq!(f32::from_bits(get_scale(player)), 1.0);
    assert_eq!(get_velocity(player), [0, 0, 0]);
    assert_eq!(f32::from_bits(get_weapon_crit_mult(0x1234)), 1.0);
    assert_eq!(get_hardcore_stats(), (0, 0, 0));
}

#[test]
fn unresolved_reference_ignores_writes() {
    let player = 0x14;
    assert!(!set_enabled(player, false));
    assert!(!set_lock(player, true));
    assert!(!set_parent_cell(player, 0x3C));
    assert!(!set_scale(player, 2.0f32.to_bits()));
    assert!(!set_actor_value(player, 0x14, 50.0f32.to_bits()));
    assert_eq!(fire_weapon(player, 0x1234), 0);
}

#[test]
fn dispatch_fires_registered_callbacks_in_order() {
    let mut sinks = EventSinks::new();
    register_event_sink(&mut sinks, EVENT_ON_HIT, 0x10);
    register_event_sink(&mut sinks, EVENT_ON_DEATH, 0x30);
    register_event_sink(&mut sinks, EVENT_ON_HIT, 0x20);
    let fired = RefCell::new(Vec::new());
    let n = dispatch_event(&sinks, EVENT_ON_HIT, |t: u32, cb: usize| fired.borrow_mut().push((t, cb)));
    assert_eq!(n, 2);
    assert_eq!(*fired.borrow(), vec![(EVENT_ON_HIT, 0x10), (EVENT_ON_HIT, 0x20)]);
    let none = dispatch_event(&EventSinks::new(), EVENT_ON_HIT, |_t: u32, _cb: usize| {});
    assert_eq!(none, 0);
}

#[test]
fn object_hooks_report_the_form_id() {
    const OBJ: usize = 0x0100_0000;
    let mut bytes = vec![0u8; 0x20];
    bytes[0x0C..0x10].copy_from_slice(&0x0001_2345u32.to_le_bytes());
    let image = MemoryImage::new(OBJ, bytes);
    let mut bridge = Bridge::new();
    ashfall_hook_activate(&mut bridge, &image, 0);
    ashfall_hook_fire(&mut bridge, &image, 0);
    assert!(take_event_frames(&mut bridge).is_empty());
    ashfall_hook_activate(&mut bridge, &image, OBJ);
    ashfall_hook_fire(&mut bridge, &image, OBJ);
    assert_eq!(
        take_event_frames(&mut bridge),
        vec![encode_ref_event(EVENT_ACTIVATE, 0x0001_2345), encode_ref_event(EVENT_FIRE, 0x0001_2345)]
    );
}
