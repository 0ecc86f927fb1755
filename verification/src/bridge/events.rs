//! Engine event types and the sink registry.
//!
//! The engine dispatches events through `BSTEventSink<T>` classes; the
//! bridge registers callbacks per event type. A callback is identified by
//! its entry address, which is what unregistering compares.
use vstd::prelude::*;

verus! {

/// An actor took damage.
#[derive(Debug, Clone, Copy, PartialEq, Eq, Structural)]
pub struct TESHitEvent {
    pub target: u32,
    pub attacker: u32,
    /// Damage dealt, as an IEEE-754 bit pattern.
    pub damage: u32,
    /// Form id of the weapon.
    pub weapon: u32,
    /// Form id of the projectile.
    pub projectile: u32,
    pub flags: u32,
}

/// An object was activated.
#[derive(Debug, Clone, Copy, PartialEq, Eq, Structural)]
pub struct TESActivateEvent {
    /// Reference that activated.
    pub activator: u32,
    /// Reference activated.
    pub target: u32,
}

/// Equipment was equipped or unequipped.
#[derive(Debug, Clone, Copy, PartialEq, Eq, Structural)]
pub struct TESEquipEvent {
    pub actor: u32,
    /// Form id of the base object.
    pub base_obj: u32,
    pub equip_slot: u32,
    pub equipped: bool,
}

/// A reference changed cell.
#[derive(Debug, Clone, Copy, PartialEq, Eq, Structural)]
pub struct TESCellChangeEvent {
    pub reference: u32,
    pub old_cell: u32,
    pub new_cell: u32,
}

/// An actor died.
#[derive(Debug, Clone, Copy, PartialEq, Eq, Structural)]
pub struct TESDeathEvent {
    pub actor: u32,
    pub killer: u32,
    pub limbs: u16,
    pub cause: i8,
}

/// A save game was loaded.
#[derive(Debug, Clone, Copy, PartialEq, Eq, Structural)]
pub struct TESLoadGameEvent {
    pub loaded: bool,
}

/// A magic effect was applied.
#[derive(Debug, Clone, Copy, PartialEq, Eq, Structural)]
pub struct TESMagicEffectApplyEvent {
    pub caster: u32,
    pub target: u32,
    /// Form id of the magic effect.
    pub effect_code: u32,
    /// Magnitude, as an IEEE-754 bit pattern.
    pub magnitude: u32,
}

pub const EVENT_ON_HIT: u32 = 0;
pub const EVENT_ON_ACTIVATE: u32 = 1;
pub const EVENT_ON_EQUIP: u32 = 2;
pub const EVENT_ON_CELL_CHANGE: u32 = 3;
pub const EVENT_ON_DEATH: u32 = 4;
pub const EVENT_ON_LOAD_GAME: u32 = 5;
pub const EVENT_ON_MAGIC_EFFECT: u32 = 6;

/// The registered sinks: (event type, callback address), in registration
/// order; a callback may be registered more than once.
#[derive(Debug, Clone)]
pub struct EventSinks {
    sinks: Vec<(u32, usize)>,
}

/// The callbacks registered for an event type, in registration order.
pub open spec fn callbacks_for(sinks: Seq<(u32, usize)>, event_type: u32) -> Seq<usize>
    decreases sinks.len(),
{
    if sinks.len() == 0 {
        Seq::empty()
    } else {
        let rest = callbacks_for(sinks.drop_last(), event_type);
        if sinks.last().0 == event_type {
            rest.push(sinks.last().1)
        } else {
            rest
        }
    }
}

/// Whether a sink entry is not the given (event type, callback) pair.
pub open spec fn other_than(event_type: u32, callback: usize) -> spec_fn((u32, usize)) -> bool {
    |s: (u32, usize)| !(s.0 == event_type && s.1 == callback)
}

impl EventSinks {
    /// The registered sinks.
    pub closed spec fn view(&self) -> Seq<(u32, usize)> {
        self.sinks@
    }

    /// No sink registered.
    pub fn new() -> (r: EventSinks)
        ensures
            r.view() == Seq::<(u32, usize)>::empty(),
    {
        EventSinks { sinks: Vec::new() }
    }
}

/// Registers a callback for an event type; several callbacks may listen
/// to the same type.
pub fn register_event_sink(sinks: &mut EventSinks, event_type: u32, callback: usize)
    ensures
        final(sinks).view() == old(sinks).view().push((event_type, callback)),
{
    sinks.sinks.push((event_type, callback));
}

/// Removes every registration of `callback` for `event_type`.
pub fn unregister_event_sink(sinks: &mut EventSinks, event_type: u32, callback: usize)
    ensures
        final(sinks).view() == old(sinks).view().filter(other_than(event_type, callback)),
{
    let ghost t = sinks.sinks@;
    let mut kept: Vec<(u32, usize)> = Vec::new();
    let mut i: usize = 0;
    while i < sinks.sinks.len()
        invariant
            i <= sinks.sinks@.len(),
            sinks.sinks@ == t,
            kept@ == t.take(i as int).filter(other_than(event_type, callback)),
        decreases sinks.sinks@.len() - i,
    {
        let s = sinks.sinks[i];
        proof {
            reveal(Seq::filter);
            assert(t.take(i as int + 1).drop_last() =~= t.take(i as int));
            assert(t.take(i as int + 1).last() == s);
        }
        if !(s.0 == event_type && s.1 == callback) {
            kept.push(s);
        }
        i = i + 1;
    }
    assert(t.take(i as int) =~= t);
    sinks.sinks = kept;
}

/// The callbacks to fire for an event, in registration order.
pub fn sinks_for(sinks: &EventSinks, event_type: u32) -> (r: Vec<usize>)
    ensures
        r@ == callbacks_for(sinks.view(), event_type),
{
    let mut out: Vec<usize> = Vec::new();
    let mut i: usize = 0;
    while i < sinks.sinks.len()
        invariant
            i <= sinks.sinks@.len(),
            out@ == callbacks_for(sinks.sinks@.take(i as int), event_type),
        decreases sinks.sinks@.len() - i,
    {
        assert(sinks.sinks@.take(i as int + 1).drop_last() =~= sinks.sinks@.take(i as int));
        let s = sinks.sinks[i];
        if s.0 == event_type {
            out.push(s.1);
        }
        i = i + 1;
    }
    assert(sinks.sinks@.take(i as int) =~= sinks.sinks@);
    out
}

/// Whether any callback is registered for an event type.
pub fn has_event_sinks(sinks: &EventSinks, event_type: u32) -> (r: bool)
    ensures
        r == (callbacks_for(sinks.view(), event_type).len() > 0),
{
    sinks_for(sinks, event_type).len() > 0
}

/// Fires an event: `fire` is called with the event type and each callback
/// registered for it, in registration order. Returns how many callbacks
/// were fired.
pub fn dispatch_event<F: Fn(u32, usize)>(sinks: &EventSinks, event_type: u32, fire: F) -> (r: usize)
    requires
        forall|cb: usize| call_requires(fire, (event_type, cb)),
    ensures
        r == callbacks_for(sinks.view(), event_type).len(),
{
    let callbacks = sinks_for(sinks, event_type);
    let mut i: usize = 0;
    while i < callbacks.len()
        invariant
            i <= callbacks@.len(),
            forall|cb: usize| call_requires(fire, (event_type, cb)),
        decreases callbacks@.len() - i,
    {
        fire(event_type, callbacks[i]);
        i = i + 1;
    }
    callbacks.len()
}

/// After unregistering `callback` for `event_type`, it is no longer fired
/// for that type, and every other event type fires the same callbacks as
/// before.
pub proof fn law_unregister_silences_only_that_sink(sinks: Seq<(u32, usize)>, event_type: u32, callback: usize, other: u32)
    requires
        other != event_type,
    ensures
        !callbacks_for(sinks.filter(other_than(event_type, callback)), event_type).contains(callback),
        callbacks_for(sinks.filter(other_than(event_type, callback)), other) == callbacks_for(sinks, other),
    decreases sinks.len(),
{
    reveal(Seq::filter);
    let f = sinks.filter(other_than(event_type, callback));
    if sinks.len() > 0 {
        law_unregister_silences_only_that_sink(sinks.drop_last(), event_type, callback, other);
        let prev = sinks.drop_last().filter(other_than(event_type, callback));
        if other_than(event_type, callback)(sinks.last()) {
            assert(f == prev.push(sinks.last()));
            assert(f.drop_last() =~= prev);
        } else {
            assert(f == prev);
        }
    }
}

/// A registered callback is fired for its event type, after the ones
/// registered before it.
pub proof fn law_register_then_fired(sinks: Seq<(u32, usize)>, event_type: u32, callback: usize)
    ensures
        callbacks_for(sinks.push((event_type, callback)), event_type) == callbacks_for(sinks, event_type).push(
            callback,
        ),
{
    assert(sinks.push((event_type, callback)).drop_last() =~= sinks);
}

} // verus!
