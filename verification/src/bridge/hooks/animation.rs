//! Remote-actor animation controller.
//!
//! Per remote actor, every actor-state update is turned into the PlayGroup
//! animations and state changes the game must apply, so remote players and
//! NPCs walk, run, aim, draw and fire with matching animation. Only changed
//! fields produce actions; weapon animations are suppressed while firing,
//! while unalerted, and for the equip/unequip/holster cycle.
use vstd::prelude::*;

verus! {

/// Anim-group values shared by FO3 (FOSE) and FNV (NVSE).
pub const IDLE: u8 = 0x00;
pub const DYNAMIC_IDLE: u8 = 0x01;
pub const SPECIAL_IDLE: u8 = 0x02;
pub const FORWARD: u8 = 0x03;
pub const BACKWARD: u8 = 0x04;
pub const LEFT: u8 = 0x05;
pub const RIGHT: u8 = 0x06;
pub const FAST_FORWARD: u8 = 0x07;
pub const FAST_BACKWARD: u8 = 0x08;
pub const FAST_LEFT: u8 = 0x09;
pub const FAST_RIGHT: u8 = 0x0A;
pub const DODGE_FORWARD: u8 = 0x0B;
pub const DODGE_BACK: u8 = 0x0C;
pub const DODGE_LEFT: u8 = 0x0D;
pub const DODGE_RIGHT: u8 = 0x0E;
pub const TURN_LEFT: u8 = 0x0F;
pub const TURN_RIGHT: u8 = 0x10;
pub const AIM: u8 = 0x11;
pub const AIM_UP: u8 = 0x12;
pub const AIM_DOWN: u8 = 0x13;
pub const AIM_IS: u8 = 0x14;
pub const AIM_IS_UP: u8 = 0x15;
pub const AIM_IS_DOWN: u8 = 0x16;
pub const HOLSTER: u8 = 0x17;
pub const EQUIP: u8 = 0x18;
pub const UNEQUIP: u8 = 0x19;
pub const ATTACK_LEFT: u8 = 0x1A;
pub const ATTACK_RIGHT: u8 = 0x20;
pub const ATTACK_3: u8 = 0x26;
pub const ATTACK_LOOP: u8 = 0x4A;
pub const ATTACK_SPIN: u8 = 0x50;
pub const ATTACK_SPIN2: u8 = 0x56;
pub const ATTACK_POWER: u8 = 0x5C;
pub const ATTACK_FORWARD_POWER: u8 = 0x5D;
pub const ATTACK_BACK_POWER: u8 = 0x5E;
pub const ATTACK_LEFT_POWER: u8 = 0x5F;
pub const ATTACK_RIGHT_POWER: u8 = 0x60;
pub const BLOCK_IDLE: u8 = 0x8B;
pub const BLOCK_HIT: u8 = 0x8C;
pub const RELOAD_A: u8 = 0x8E;
pub const RELOAD_B: u8 = 0x8F;
pub const RELOAD_C: u8 = 0x90;
pub const JUMP_START: u8 = 0xA8;
pub const JUMP_LOOP: u8 = 0xA9;
pub const JUMP_LAND: u8 = 0xAA;
pub const JUMP_LAND_LEFT: u8 = 0xB5;
pub const JUMP_LAND_RIGHT: u8 = 0xB6;

/// What the game should do for one remote actor after a state update.
#[derive(Debug, Clone, PartialEq, Eq)]
pub struct AnimAction {
    /// (anim_group, force): run `PlayGroup anim force`, in order.
    pub play_group: Vec<(u8, bool)>,
    /// Sneak state to force (`SetForceSneak`).
    pub set_sneak: Option<bool>,
    /// Alert state to force (`SetAlert`).
    pub set_alert: Option<bool>,
    /// Z-angle adjustment in whole degrees when the strafe flags change
    /// (0x01: -45, 0x02: +45, otherwise 0).
    pub yaw_adjust: Option<i16>,
    /// Re-sync position (the movement animation went idle: the actor stopped).
    pub set_pos: bool,
}

/// An action with its animation list as a sequence.
pub struct AnimActionView {
    pub play_group: Seq<(u8, bool)>,
    pub set_sneak: Option<bool>,
    pub set_alert: Option<bool>,
    pub yaw_adjust: Option<i16>,
    pub set_pos: bool,
}

impl AnimAction {
    pub open spec fn view_action(self) -> AnimActionView {
        AnimActionView {
            play_group: self.play_group@,
            set_sneak: self.set_sneak,
            set_alert: self.set_alert,
            yaw_adjust: self.yaw_adjust,
            set_pos: self.set_pos,
        }
    }

    /// The empty action (nothing to apply).
    pub fn none() -> (r: AnimAction)
        ensures
            r.view_action() == no_action(),
    {
        AnimAction {
            play_group: Vec::new(),
            set_sneak: None,
            set_alert: None,
            yaw_adjust: None,
            set_pos: false,
        }
    }
}

/// The empty action.
pub open spec fn no_action() -> AnimActionView {
    AnimActionView {
        play_group: Seq::empty(),
        set_sneak: None,
        set_alert: None,
        yaw_adjust: None,
        set_pos: false,
    }
}

/// The last state seen for one actor.
pub struct AnimState {
    pub moving: u8,
    pub moving_xy: u8,
    pub weapon: u8,
    pub alerted: bool,
    pub sneaking: bool,
}

/// The state of a fresh (or reset) controller: everything zero/false.
pub open spec fn initial_anim_state() -> AnimState {
    AnimState { moving: 0, moving_xy: 0, weapon: 0, alerted: false, sneaking: false }
}

/// Yaw adjustment for a strafe bitmask.
pub open spec fn strafe_yaw(moving_xy: u8) -> i16 {
    if moving_xy == 0x01 {
        -45i16
    } else if moving_xy == 0x02 {
        45i16
    } else {
        0i16
    }
}

/// Weapon groups the engine animates itself on the local actor.
pub open spec fn is_equip_cycle(weapon: u8) -> bool {
    weapon == IDLE || weapon == EQUIP || weapon == UNEQUIP || weapon == HOLSTER
}

/// Whether a weapon change plays an animation.
pub open spec fn weapon_plays(prev: AnimState, weapon: u8, alerted: bool, firing: bool) -> bool {
    weapon != prev.weapon && !firing && alerted && !is_equip_cycle(weapon)
}

/// The weapon animations for a weapon change: leaving iron sights for Aim
/// plays down/up first, entering iron sights plays the IS down/up after.
pub open spec fn weapon_groups(prev_weapon: u8, weapon: u8) -> Seq<(u8, bool)> {
    let pre = if weapon == AIM && prev_weapon == AIM_IS {
        seq![(AIM_DOWN, true), (AIM_UP, true)]
    } else {
        Seq::empty()
    };
    let post = if weapon == AIM_IS {
        seq![(AIM_IS_DOWN, true), (AIM_IS_UP, true)]
    } else {
        Seq::empty()
    };
    pre + seq![(weapon, true)] + post
}

/// The action one update produces from the previous state.
pub open spec fn anim_action(
    prev: AnimState,
    moving: u8,
    moving_xy: u8,
    weapon: u8,
    alerted: bool,
    sneaking: bool,
    firing: bool,
) -> AnimActionView {
    let moves = if moving != prev.moving {
        seq![(moving, true)]
    } else {
        Seq::empty()
    };
    let weapons = if weapon_plays(prev, weapon, alerted, firing) {
        weapon_groups(prev.weapon, weapon)
    } else {
        Seq::empty()
    };
    AnimActionView {
        play_group: moves + weapons,
        set_sneak: if sneaking != prev.sneaking { Some(sneaking) } else { None },
        set_alert: if alerted != prev.alerted { Some(alerted) } else { None },
        yaw_adjust: if moving_xy != prev.moving_xy { Some(strafe_yaw(moving_xy)) } else { None },
        set_pos: moving != prev.moving && moving == IDLE,
    }
}

/// Yaw adjustment in degrees for a strafe bitmask.
fn yaw_for(moving_xy: u8) -> (r: i16)
    ensures
        r == strafe_yaw(moving_xy),
{
    if moving_xy == 0x01 {
        -45
    } else if moving_xy == 0x02 {
        45
    } else {
        0
    }
}

/// The weapon animations of one update (empty when the change is suppressed).
fn weapon_anims(prev_weapon: u8, weapon: u8, alerted: bool, firing: bool) -> (r: Vec<(u8, bool)>)
    ensures
        r@ == (if weapon != prev_weapon && !firing && alerted && !is_equip_cycle(weapon) {
            weapon_groups(prev_weapon, weapon)
        } else {
            Seq::empty()
        }),
{
    let mut out: Vec<(u8, bool)> = Vec::new();
    let equip_cycle = weapon == IDLE || weapon == EQUIP || weapon == UNEQUIP || weapon == HOLSTER;
    if weapon != prev_weapon && !firing && alerted && !equip_cycle {
        if weapon == AIM && prev_weapon == AIM_IS {
            out.push((AIM_DOWN, true));
            out.push((AIM_UP, true));
        }
        out.push((weapon, true));
        if weapon == AIM_IS {
            out.push((AIM_IS_DOWN, true));
            out.push((AIM_IS_UP, true));
        }
        assert(out@ =~= weapon_groups(prev_weapon, weapon));
    }
    out
}

/// Per-actor animation state machine; one instance per remote actor.
#[derive(Debug, Clone)]
pub struct ActorAnimController {
    prev_moving: u8,
    prev_moving_xy: u8,
    prev_weapon: u8,
    prev_alerted: bool,
    prev_sneaking: bool,
}

impl ActorAnimController {
    /// The controller's remembered state.
    pub closed spec fn state(&self) -> AnimState {
        AnimState {
            moving: self.prev_moving,
            moving_xy: self.prev_moving_xy,
            weapon: self.prev_weapon,
            alerted: self.prev_alerted,
            sneaking: self.prev_sneaking,
        }
    }

    pub fn new() -> (r: ActorAnimController)
        ensures
            r.state() == initial_anim_state(),
    {
        ActorAnimController {
            prev_moving: 0,
            prev_moving_xy: 0,
            prev_weapon: 0,
            prev_alerted: false,
            prev_sneaking: false,
        }
    }

    /// Feeds one actor-state update; returns the animations/state to apply.
    /// The controller then remembers the new sample.
    pub fn update(
        &mut self,
        moving: u8,
        moving_xy: u8,
        weapon: u8,
        alerted: bool,
        sneaking: bool,
        firing: bool,
    ) -> (r: AnimAction)
        ensures
            r.view_action() == anim_action(
                old(self).state(),
                moving,
                moving_xy,
                weapon,
                alerted,
                sneaking,
                firing,
            ),
            final(self).state() == (AnimState { moving, moving_xy, weapon, alerted, sneaking }),
    {
        let yaw_adjust = if moving_xy != self.prev_moving_xy {
            Some(yaw_for(moving_xy))
        } else {
            None
        };
        let set_alert = if alerted != self.prev_alerted {
            Some(alerted)
        } else {
            None
        };
        let set_sneak = if sneaking != self.prev_sneaking {
            Some(sneaking)
        } else {
            None
        };
        let mut play_group: Vec<(u8, bool)> = Vec::new();
        if moving != self.prev_moving {
            play_group.push((moving, true));
        }
        // Stopped: re-sync position so clients converge exactly.
        let set_pos = moving != self.prev_moving && moving == IDLE;
        let mut weapons = weapon_anims(self.prev_weapon, weapon, alerted, firing);
        let ghost moves = play_group@;
        play_group.append(&mut weapons);
        self.prev_moving = moving;
        self.prev_moving_xy = moving_xy;
        self.prev_weapon = weapon;
        self.prev_alerted = alerted;
        self.prev_sneaking = sneaking;
        AnimAction { play_group, set_sneak, set_alert, yaw_adjust, set_pos }
    }

    /// Resets to a clean slate (actor despawned or re-spawned).
    pub fn reset(&mut self)
        ensures
            final(self).state() == initial_anim_state(),
    {
        *self = ActorAnimController::new();
    }
}

impl Default for ActorAnimController {
    fn default() -> (r: ActorAnimController)
        ensures
            r.state() == initial_anim_state(),
    {
        ActorAnimController::new()
    }
}

/// Feeding the same sample twice in a row produces nothing the second time:
/// only changed fields produce actions.
pub proof fn law_repeat_sample_is_silent(
    prev: AnimState,
    moving: u8,
    moving_xy: u8,
    weapon: u8,
    alerted: bool,
    sneaking: bool,
    firing: bool,
)
    ensures
        anim_action(
            AnimState { moving, moving_xy, weapon, alerted, sneaking },
            moving,
            moving_xy,
            weapon,
            alerted,
            sneaking,
            firing,
        ) == no_action(),
{
    let a = anim_action(
        AnimState { moving, moving_xy, weapon, alerted, sneaking },
        moving,
        moving_xy,
        weapon,
        alerted,
        sneaking,
        firing,
    );
    assert(a.play_group =~= Seq::<(u8, bool)>::empty());
}

/// No weapon animation plays while firing, while unalerted, or for the
/// equip cycle: the only group played is then the locomotion change.
pub proof fn law_weapon_anim_guard(
    prev: AnimState,
    moving: u8,
    moving_xy: u8,
    weapon: u8,
    alerted: bool,
    sneaking: bool,
    firing: bool,
)
    requires
        firing || !alerted || is_equip_cycle(weapon),
    ensures
        anim_action(prev, moving, moving_xy, weapon, alerted, sneaking, firing).play_group == (
        if moving != prev.moving {
            seq![(moving, true)]
        } else {
            Seq::<(u8, bool)>::empty()
        }),
{
    let a = anim_action(prev, moving, moving_xy, weapon, alerted, sneaking, firing);
    assert(a.play_group =~= (if moving != prev.moving {
        seq![(moving, true)]
    } else {
        Seq::<(u8, bool)>::empty()
    }));
}

/// PlayGroup name of a locomotion anim group (console-command form).
pub open spec fn locomotion_text(moving: u8) -> Seq<char> {
    if moving == FORWARD {
        "Forward"@
    } else if moving == BACKWARD {
        "Backward"@
    } else if moving == LEFT {
        "Left"@
    } else if moving == RIGHT {
        "Right"@
    } else if moving == FAST_FORWARD {
        "FastForward"@
    } else if moving == FAST_BACKWARD {
        "FastBackward"@
    } else if moving == FAST_LEFT {
        "FastLeft"@
    } else if moving == FAST_RIGHT {
        "FastRight"@
    } else {
        "Idle"@
    }
}

/// Maps a locomotion anim group to its PlayGroup name; anything that is not
/// a locomotion group is "Idle".
pub fn locomotion_name(moving: u8) -> (r: &'static str)
    ensures
        r@ == locomotion_text(moving),
{
    if moving == FORWARD {
        "Forward"
    } else if moving == BACKWARD {
        "Backward"
    } else if moving == LEFT {
        "Left"
    } else if moving == RIGHT {
        "Right"
    } else if moving == FAST_FORWARD {
        "FastForward"
    } else if moving == FAST_BACKWARD {
        "FastBackward"
    } else if moving == FAST_LEFT {
        "FastLeft"
    } else if moving == FAST_RIGHT {
        "FastRight"
    } else {
        "Idle"
    }
}

} // verus!
