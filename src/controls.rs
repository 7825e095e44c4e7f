use vstd::prelude::*;
use crate::magazine::{Gun, GunView, Magazine};
use crate::revolver::{Cartridge, Revolver, RevolverView};

verus! {

/// The movement keys held during a frame.
#[derive(Debug, Clone, Copy, PartialEq, Eq)]
pub struct MovementKeys {
    pub forward: bool,
    pub back: bool,
    pub right: bool,
    pub left: bool,
    pub up: bool,
    pub down: bool,
}

/// The net direction asked for along each of the player's axes: -1, 0 or 1.
///
/// `forward` runs along the player's facing flattened onto the ground, `right` along
/// the player's right, `up` along the world's vertical.
#[derive(Debug, Clone, Copy, PartialEq, Eq)]
pub struct MovementAxes {
    pub forward: i8,
    pub right: i8,
    pub up: i8,
}

/// One axis: +1 for the positive key alone, -1 for the negative key alone, 0 for
/// both or neither.
pub open spec fn axis(positive: bool, negative: bool) -> int {
    (if positive { 1int } else { 0 }) - (if negative { 1int } else { 0 })
}

fn axis_of(positive: bool, negative: bool) -> (r: i8)
    ensures
        r == axis(positive, negative),
{
    let p: i8 = if positive { 1 } else { 0 };
    let n: i8 = if negative { 1 } else { 0 };
    p - n
}

/// The direction along each axis in which the held keys accelerate the player. Each
/// held key adds its own acceleration, so opposite keys cancel.
pub fn movement_axes(keys: MovementKeys) -> (r: MovementAxes)
    ensures
        r.forward == axis(keys.forward, keys.back),
        r.right == axis(keys.right, keys.left),
        r.up == axis(keys.up, keys.down),
{
    MovementAxes {
        forward: axis_of(keys.forward, keys.back),
        right: axis_of(keys.right, keys.left),
        up: axis_of(keys.up, keys.down),
    }
}

impl MovementKeys {
    /// Whether one of the four walking keys is held (vertical movement does not count).
    pub fn is_walking(&self) -> (r: bool)
        ensures
            r == (self.forward || self.back || self.right || self.left),
    {
        self.forward || self.back || self.right || self.left
    }
}

/// What to do with the repeating timer that sways the gun while the player walks.
#[derive(Debug, Clone, Copy, PartialEq, Eq)]
pub enum SwayAlarm {
    Start,
    Cancel,
    Keep,
}

/// The sway timer runs exactly while the player walks: it starts when walking begins
/// without one, and is cancelled when walking stops with one running.
pub fn sway_alarm_action(walking: bool, alarm_active: bool) -> (r: SwayAlarm)
    ensures
        r == (if walking && !alarm_active {
            SwayAlarm::Start
        } else if !walking && alarm_active {
            SwayAlarm::Cancel
        } else {
            SwayAlarm::Keep
        }),
{
    if walking {
        if alarm_active {
            SwayAlarm::Keep
        } else {
            SwayAlarm::Start
        }
    } else if alarm_active {
        SwayAlarm::Cancel
    } else {
        SwayAlarm::Keep
    }
}

/// The revolver requests made during one frame. The buttons are edge triggered: each
/// flag is set on the frame its button went down.
#[derive(Debug, Clone, Copy, PartialEq, Eq)]
pub struct RevolverInput {
    /// Chambers to turn the cylinder by; 0 for none.
    pub scroll: isize,
    /// Load a fresh cartridge into the chamber under the hammer.
    pub reload: bool,
    /// Pull the hammer back.
    pub cock: bool,
    /// Pull the trigger.
    pub fire: bool,
}

/// What came of a frame's revolver requests.
#[derive(Debug, Clone, Copy, PartialEq, Eq)]
pub struct InputOutcome {
    /// The outcome of the load, when one was asked for.
    pub loaded: Option<Result<(), Cartridge>>,
    /// A round went off: the caller spawns the projectile and kicks the gun back.
    pub fired: bool,
}

/// The revolver's state after a frame's requests, handled in this order: turning the
/// cylinder, loading, cocking, and last the trigger.
pub open spec fn input_applied(s: RevolverView, input: RevolverInput) -> (RevolverView, InputOutcome) {
    let s1 = if input.scroll != 0 {
        s.rotated(input.scroll as int)
    } else {
        s
    };
    let (s2, loaded) = if input.reload {
        let (t, l) = s1.loaded(Cartridge { has_fired: false });
        (t, Some(l))
    } else {
        (s1, None)
    };
    let s3 = if input.cock {
        s2.hammer_pulled()
    } else {
        s2
    };
    let (s4, fired) = if input.fire {
        s3.fired()
    } else {
        (s3, false)
    };
    (s4, InputOutcome { loaded, fired })
}

/// Hands a frame's requests to the revolver, in the order of `input_applied`.
pub fn apply_revolver_input(gun: &mut Revolver, input: RevolverInput) -> (r: InputOutcome)
    requires
        old(gun).wf(),
    ensures
        final(gun).wf(),
        (final(gun)@, r) == input_applied(old(gun)@, input),
{
    if input.scroll != 0 {
        gun.rotate_cylinder(input.scroll);
    }
    let loaded = if input.reload {
        Some(gun.load_cartridge(Cartridge { has_fired: false }))
    } else {
        None
    };
    if input.cock {
        gun.pull_hammer();
    }
    let fired = if input.fire {
        gun.fire()
    } else {
        false
    };
    InputOutcome { loaded, fired }
}

/// Hands a frame's requests to a magazine-fed gun: cocking first, then the trigger,
/// which fires only when the gun can. Returns whether a round went off.
pub fn apply_gun_input(gun: &mut Gun, cock: bool, fire: bool) -> (r: bool)
    ensures
        ({
            let cocked = if cock {
                GunView { magazine: old(gun)@.magazine, is_cocked: true }
            } else {
                old(gun)@
            };
            &&& r == (fire && cocked.can_fire())
            &&& r ==> final(gun)@ == (GunView {
                magazine: Some(
                    Magazine {
                        capacity: cocked.magazine->0.capacity,
                        rounds: (cocked.magazine->0.rounds - 1) as u32,
                    },
                ),
                is_cocked: false,
            })
            &&& !r ==> final(gun)@ == cocked
        }),
{
    if cock {
        gun.pull_hammer();
    }
    if fire && gun.can_fire() {
        gun.fire();
        true
    } else {
        false
    }
}

} // verus!
