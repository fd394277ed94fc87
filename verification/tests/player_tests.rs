use rustopia::player::{movement_intent, PlayerControls, AIR_SPEED, DASH_SPEED, GROUND_SPEED, JUMP_SPEED};

fn keys(left: bool, right: bool, down: bool, jump_pressed: bool, dash_pressed: bool) -> PlayerControls {
    PlayerControls { left, right, down, jump_pressed, dash_pressed }
}

#[test]
fn speeds() {
    assert_eq!((JUMP_SPEED, GROUND_SPEED, AIR_SPEED, DASH_SPEED), (760, 320, 220, 900));
}

#[test]
fn running_on_ground() {
    let i = movement_intent(keys(false, true, false, false, false), true, false, false);
    assert_eq!(i.direction, 1);
    assert_eq!(i.horizontal_velocity, 320);
    assert!(i.grounded);
    assert!(!i.jump);
}

#[test]
fn both_keys_cancel() {
    let i = movement_intent(keys(true, true, false, false, true), true, false, true);
    assert_eq!(i.direction, 0);
    assert_eq!(i.horizontal_velocity, 0);
    assert!(!i.start_dash);
}

#[test]
fn jump_only_when_grounded_and_uses_air_speed() {
    let i = movement_intent(keys(true, false, false, true, false), true, false, false);
    assert!(i.jump);
    assert!(!i.grounded);
    assert_eq!(i.horizontal_velocity, -220);
    let j = movement_intent(keys(true, false, false, true, false), false, false, false);
    assert!(!j.jump);
    assert_eq!(j.horizontal_velocity, -220);
}

#[test]
fn dash_needs_cooldown_and_direction() {
    let i = movement_intent(keys(false, true, false, false, true), true, false, true);
    assert!(i.start_dash);
    assert!(i.dashing);
    assert_eq!(i.horizontal_velocity, 900);
    let not_ready = movement_intent(keys(false, true, false, false, true), true, false, false);
    assert!(!not_ready.start_dash);
    assert_eq!(not_ready.horizontal_velocity, 320);
    let no_direction = movement_intent(keys(false, false, false, false, true), true, false, true);
    assert!(!no_direction.start_dash);
}

#[test]
fn running_dash_keeps_speed() {
    let i = movement_intent(keys(true, false, false, false, false), false, true, false);
    assert!(i.dashing);
    assert!(!i.start_dash);
    assert_eq!(i.horizontal_velocity, -900);
}

#[test]
fn down_drops() {
    let i = movement_intent(keys(false, false, true, false, false), true, false, false);
    assert!(i.dropping);
}
