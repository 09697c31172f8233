use duck_client::intent::handle_joystick_or_keyboard_input;
use duck_client::intent::normalize_or_zero;
use duck_client::movement::apply_movement;
use duck_client::movement::MoveRequestEvent;
use duck_client::movement::MovementController;
use duck_client::movement::Vec2;
use duck_client::movement::MAX_X_POS;
use duck_client::movement::MIN_X_POS;
use duck_client::movement::MIN_Y_POS;

#[test]
fn full_speed_east_moves_and_emits_delta() {
    let c = MovementController { intent: Vec2 { x: 1000, y: 0 }, max_speed: 100 };
    let o = apply_movement(&c, Vec2 { x: 0, y: 0 }, Vec2 { x: 0, y: 0 }, 1000);
    assert_eq!(o.new_position, Vec2 { x: 100, y: 0 });
    assert_eq!(o.new_camera, Vec2 { x: 100, y: 0 });
    assert_eq!(o.move_event, Some(MoveRequestEvent(100, 0)));
}

#[test]
fn position_clamps_at_max_bound() {
    let c = MovementController { intent: Vec2 { x: 1000, y: 0 }, max_speed: 400 };
    let o = apply_movement(&c, Vec2 { x: 990, y: 0 }, Vec2 { x: 990, y: 0 }, 1000);
    assert_eq!(o.new_position.x, MAX_X_POS);
    assert_eq!(o.new_camera.x, MAX_X_POS);
    // the emitted delta is the raw displacement, not the clamped one
    assert_eq!(o.move_event, Some(MoveRequestEvent(400, 0)));
}

#[test]
fn position_clamps_at_min_bound() {
    let c = MovementController { intent: Vec2 { x: -707, y: -707 }, max_speed: 400 };
    let o = apply_movement(&c, Vec2 { x: -990, y: -990 }, Vec2 { x: 0, y: 0 }, 1000);
    // -707 * 400 * 1000 / 1_000_000 truncates toward zero to -282
    assert_eq!(o.move_event, Some(MoveRequestEvent(-282, -282)));
    assert_eq!(o.new_position, Vec2 { x: MIN_X_POS, y: MIN_Y_POS });
    assert_eq!(o.new_camera, Vec2 { x: -282, y: -282 });
}

#[test]
fn stationary_tick_emits_no_event_and_leaves_camera() {
    let c = MovementController { intent: Vec2 { x: 0, y: 0 }, max_speed: 400 };
    let o = apply_movement(&c, Vec2 { x: 5, y: 6 }, Vec2 { x: 7, y: 8 }, 16);
    assert_eq!(o.move_event, None);
    assert_eq!(o.new_position, Vec2 { x: 5, y: 6 });
    assert_eq!(o.new_camera, Vec2 { x: 7, y: 8 });
}

#[test]
fn tiny_tick_truncates_displacement() {
    let c = MovementController { intent: Vec2 { x: 707, y: 707 }, max_speed: 400 };
    let o = apply_movement(&c, Vec2 { x: 0, y: 0 }, Vec2 { x: 0, y: 0 }, 16);
    // 707 * 400 * 16 / 1_000_000 = 4.5248, truncated to 4
    assert_eq!(o.move_event, Some(MoveRequestEvent(4, 4)));
    assert_eq!(o.new_position, Vec2 { x: 4, y: 4 });
}

#[test]
fn zero_speed_tick_is_stationary() {
    let c = MovementController { intent: Vec2 { x: 1000, y: 0 }, max_speed: 0 };
    let o = apply_movement(&c, Vec2 { x: 1, y: 2 }, Vec2 { x: 1, y: 2 }, 1000);
    assert_eq!(o.move_event, None);
    assert_eq!(o.new_position, Vec2 { x: 1, y: 2 });
}

#[test]
fn default_controller_is_stationary_at_400() {
    let c = MovementController::default();
    assert_eq!(c.intent, Vec2 { x: 0, y: 0 });
    assert_eq!(c.max_speed, 400);
}

#[test]
fn opposite_keys_net_zero_intent() {
    let v = handle_joystick_or_keyboard_input(true, true, false, false, 0, 0);
    assert_eq!(v, Vec2 { x: 0, y: 0 });
}

#[test]
fn single_key_gives_unit_intent() {
    let v = handle_joystick_or_keyboard_input(true, false, false, false, 0, 0);
    assert_eq!(v, Vec2 { x: 0, y: 1000 });
}

#[test]
fn diagonal_keys_normalize_within_unit_length() {
    let v = handle_joystick_or_keyboard_input(true, false, false, true, 0, 0);
    assert_eq!(v, Vec2 { x: 706, y: 706 });
    assert!(v.x * v.x + v.y * v.y <= 1000 * 1000);
}

#[test]
fn resting_joystick_does_not_override_keys() {
    let keys_only = handle_joystick_or_keyboard_input(true, false, false, false, 0, 0);
    assert_eq!(keys_only, Vec2 { x: 0, y: 1000 });
}

#[test]
fn touched_joystick_overrides_keys() {
    let v = handle_joystick_or_keyboard_input(true, false, false, false, 500, 0);
    // any nonzero joystick vector is scaled up to unit length
    assert_eq!(v, Vec2 { x: 1000, y: 0 });
}

#[test]
fn joystick_pythagorean_normalization_is_exact() {
    let v = handle_joystick_or_keyboard_input(false, false, false, false, 3, 4);
    assert_eq!(v, Vec2 { x: 600, y: 800 });
    assert_eq!(v.x * v.x + v.y * v.y, 1000 * 1000);
}

#[test]
fn normalize_zero_stays_zero() {
    let v = normalize_or_zero(0, 0);
    assert_eq!(v, Vec2 { x: 0, y: 0 });
}

#[test]
fn normalize_keeps_signs_and_unit_bound() {
    let v = normalize_or_zero(-250_000, 1_000_000);
    assert!(v.x < 0 && v.y > 0);
    assert!(v.x * v.x + v.y * v.y <= 1000 * 1000);
    // a nonzero vector never normalizes below half a unit
    assert!(v.x * v.x + v.y * v.y >= 500 * 500);
}

#[test]
fn normalize_tiny_vector_scales_up() {
    let v = normalize_or_zero(1, 0);
    assert_eq!(v, Vec2 { x: 1000, y: 0 });
}
