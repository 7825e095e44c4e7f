use fps_core::controls::{
    apply_gun_input, apply_revolver_input, movement_axes, sway_alarm_action, InputOutcome,
    MovementAxes, MovementKeys, RevolverInput, SwayAlarm,
};
use fps_core::magazine::{Gun, Magazine};
use fps_core::revolver::{Cartridge, Revolver, CYLINDER_ROTATION_MICROS};

fn keys() -> MovementKeys {
    MovementKeys { forward: false, back: false, right: false, left: false, up: false, down: false }
}

fn no_input() -> RevolverInput {
    RevolverInput { scroll: 0, reload: false, cock: false, fire: false }
}

#[test]
fn movement_axes_cancel_and_add() {
    assert_eq!(movement_axes(keys()), MovementAxes { forward: 0, right: 0, up: 0 });
    let k = MovementKeys { forward: true, left: true, down: true, ..keys() };
    assert_eq!(movement_axes(k), MovementAxes { forward: 1, right: -1, up: -1 });
    let k = MovementKeys { forward: true, back: true, right: true, up: true, ..keys() };
    assert_eq!(movement_axes(k), MovementAxes { forward: 0, right: 1, up: 1 });
}

#[test]
fn walking_ignores_vertical_keys() {
    assert!(!MovementKeys { up: true, down: true, ..keys() }.is_walking());
    assert!(MovementKeys { left: true, ..keys() }.is_walking());
}

#[test]
fn sway_alarm_follows_walking() {
    assert_eq!(sway_alarm_action(true, false), SwayAlarm::Start);
    assert_eq!(sway_alarm_action(true, true), SwayAlarm::Keep);
    assert_eq!(sway_alarm_action(false, true), SwayAlarm::Cancel);
    assert_eq!(sway_alarm_action(false, false), SwayAlarm::Keep);
}

#[test]
fn revolver_input_reload_cock_fire() {
    let mut gun = Revolver::new();
    let out = apply_revolver_input(&mut gun, RevolverInput { reload: true, ..no_input() });
    assert_eq!(out, InputOutcome { loaded: Some(Ok(())), fired: false });
    let out = apply_revolver_input(&mut gun, RevolverInput { reload: true, ..no_input() });
    assert_eq!(out, InputOutcome { loaded: Some(Err(Cartridge { has_fired: false })), fired: false });

    // Cocking turns the loaded chamber away; turn back and fire in one frame.
    let out = apply_revolver_input(&mut gun, RevolverInput { cock: true, ..no_input() });
    assert_eq!(out, InputOutcome { loaded: None, fired: false });
    gun.update_cylinder(CYLINDER_ROTATION_MICROS + 1);
    assert_eq!(gun.cylinder().position(), 1);
    apply_revolver_input(&mut gun, RevolverInput { scroll: -1, ..no_input() });
    gun.update_cylinder(CYLINDER_ROTATION_MICROS + 1);
    assert_eq!(gun.cylinder().position(), 0);
    let out = apply_revolver_input(&mut gun, RevolverInput { fire: true, ..no_input() });
    assert_eq!(out, InputOutcome { loaded: None, fired: true });
    assert_eq!(*gun.cylinder().chamber(0), Some(Cartridge { has_fired: true }));
}

#[test]
fn revolver_input_fire_without_cock_does_nothing() {
    let mut gun = Revolver::new();
    gun.load_cartridge(Cartridge { has_fired: false }).unwrap();
    let out = apply_revolver_input(&mut gun, RevolverInput { fire: true, ..no_input() });
    assert!(!out.fired);
    assert_eq!(*gun.cylinder().current(), Some(Cartridge { has_fired: false }));
}

#[test]
fn gun_input_fires_only_when_ready() {
    let mut gun = Gun::new();
    gun.insert_magazine(Magazine { capacity: 6, rounds: 1 });
    assert!(!apply_gun_input(&mut gun, false, true));
    assert!(apply_gun_input(&mut gun, true, true));
    assert_eq!(*gun.magazine(), Some(Magazine { capacity: 6, rounds: 0 }));
    assert!(!apply_gun_input(&mut gun, true, true));
    assert!(gun.can_fire() == false);
}
