//! The movement controller: each tick it scales the player's intent by the
//! maximum speed, applies the resulting displacement to the player and to the
//! tracking camera, clamps both to the world bounds, and emits an outbound
//! move event carrying the raw displacement — unless the displacement is
//! exactly zero, in which case nothing is sent.

use vstd::prelude::*;

verus! {

/// Lowest world x coordinate a character or the camera may occupy.
pub const MIN_X_POS: i64 = -1000;
/// Lowest world y coordinate a character or the camera may occupy.
pub const MIN_Y_POS: i64 = -1000;
/// Highest world x coordinate a character or the camera may occupy.
pub const MAX_X_POS: i64 = 1000;
/// Highest world y coordinate a character or the camera may occupy.
pub const MAX_Y_POS: i64 = 1000;

/// An intent component of this magnitude stands for one world unit per
/// second of speed: intents are measured in thousandths.
pub const INTENT_ONE: i64 = 1000;

/// Milliseconds per second, used to scale a tick duration.
pub const MS_PER_SECOND: i64 = 1000;

/// Largest maximum speed a controller may carry, in world units per second.
pub const MAX_SPEED_LIMIT: i64 = 1_000_000;

/// Largest tick duration `apply_movement` accepts, in milliseconds.
pub const MAX_TICK_MS: u64 = 1_000_000_000;

/// Positions handed to `apply_movement` must be at most this far from the
/// origin on each axis, so the displaced position fits in an `i64`.
pub const POS_LIMIT: i64 = 1_000_000_000_000_000;

/// A two-dimensional integer vector: world positions in whole units,
/// intents in thousandths of a unit.
#[derive(Clone, Copy, Debug, PartialEq, Eq, Structural)]
pub struct Vec2 {
    pub x: i64,
    pub y: i64,
}

impl Vec2 {
    /// Squared magnitude, as a mathematical integer.
    pub open spec fn mag_sq(self) -> int {
        self.x * self.x + self.y * self.y
    }
}

/// An outbound request to the server carrying the displacement (delta, not
/// absolute position) that the local player moved this tick.
#[derive(Clone, Copy, Debug, PartialEq, Eq, Structural)]
pub struct MoveRequestEvent(pub i64, pub i64);

/// Movement parameters of a character: the direction it wants to move in and
/// its maximum speed.
#[derive(Clone, Copy, Debug, PartialEq, Eq, Structural)]
pub struct MovementController {
    /// Desired movement direction, length at most one unit
    /// (`intent.mag_sq() <= INTENT_ONE * INTENT_ONE`).
    pub intent: Vec2,
    /// Maximum speed in world units per second.
    pub max_speed: i64,
}

impl MovementController {
    /// A controller is well formed when its intent is a unit vector or
    /// shorter and its maximum speed is nonnegative and bounded.
    pub open spec fn wf(self) -> bool {
        &&& self.intent.mag_sq() <= INTENT_ONE * INTENT_ONE
        &&& 0 <= self.max_speed <= MAX_SPEED_LIMIT
    }
}

impl Default for MovementController {
    /// A stationary controller with the default maximum speed of 400 world
    /// units per second.
    fn default() -> (c: MovementController)
        ensures
            c.intent.x == 0 && c.intent.y == 0,
            c.max_speed == 400,
            c.wf(),
    {
        MovementController { intent: Vec2 { x: 0, y: 0 }, max_speed: 400 }
    }
}

/// `v` clamped to the closed interval `[lo, hi]`.
pub open spec fn clamp_spec(v: int, lo: int, hi: int) -> int {
    if v < lo {
        lo
    } else if v > hi {
        hi
    } else {
        v
    }
}

/// Truncating division of `a` by a positive `b`, rounding toward zero as the
/// machine division of signed integers does.
pub open spec fn div_trunc(a: int, b: int) -> int
    recommends
        b > 0,
{
    if a >= 0 {
        a / b
    } else {
        -((-a) / b)
    }
}

/// The displacement one axis travels in a tick: intent times maximum speed
/// times the tick duration, scaled back down by the intent and millisecond
/// units, truncated toward zero.
pub open spec fn displacement_axis(intent: int, max_speed: int, dt_ms: int) -> int {
    div_trunc(intent * max_speed * dt_ms, INTENT_ONE * MS_PER_SECOND)
}

/// A position within the world rectangle on both axes.
pub open spec fn in_bounds(p: Vec2) -> bool {
    &&& MIN_X_POS <= p.x <= MAX_X_POS
    &&& MIN_Y_POS <= p.y <= MAX_Y_POS
}

/// `v` clamped to `[lo, hi]`.
pub fn clamp_i64(v: i64, lo: i64, hi: i64) -> (r: i64)
    requires
        lo <= hi,
    ensures
        r == clamp_spec(v as int, lo as int, hi as int),
{
    if v < lo {
        lo
    } else if v > hi {
        hi
    } else {
        v
    }
}

/// One axis of the tick displacement, computed on magnitudes so that the
/// truncating machine division matches `div_trunc`.
fn displacement(intent: i64, max_speed: i64, dt_ms: u64) -> (d: i64)
    requires
        -INTENT_ONE <= intent <= INTENT_ONE,
        0 <= max_speed <= MAX_SPEED_LIMIT,
        dt_ms <= MAX_TICK_MS,
    ensures
        d == displacement_axis(intent as int, max_speed as int, dt_ms as int),
        -1_000_000_000_000 <= d <= 1_000_000_000_000,
{
    let neg = intent < 0;
    let mag: u64 = if neg {
        (-intent) as u64
    } else {
        intent as u64
    };
    assert(mag <= 1000);
    assert(mag * (max_speed as u64) <= 1000 * 1_000_000) by (nonlinear_arith)
        requires
            mag <= 1000,
            0 <= max_speed <= 1_000_000,
    ;
    let speed_scaled: u64 = mag * (max_speed as u64);
    assert(speed_scaled * dt_ms <= 1_000_000_000_000_000_000) by (nonlinear_arith)
        requires
            speed_scaled <= 1_000_000_000,
            dt_ms <= 1_000_000_000,
    ;
    let prod: u64 = speed_scaled * dt_ms;
    let q: u64 = prod / 1_000_000;
    proof {
        assert(q <= 1_000_000_000_000) by {
            vstd::arithmetic::div_mod::lemma_div_is_ordered(
                prod as int,
                1_000_000_000_000_000_000,
                1_000_000,
            );
        }
        if intent >= 0 {
            assert(mag * (max_speed as u64) * dt_ms == intent * max_speed * dt_ms);
        } else {
            vstd::arithmetic::mul::lemma_mul_unary_negation(intent as int, max_speed as int);
            vstd::arithmetic::mul::lemma_mul_unary_negation(
                (intent * max_speed) as int,
                dt_ms as int,
            );
            assert(mag == -(intent as int));
            assert(mag * (max_speed as u64) == -(intent * max_speed));
            assert(mag * (max_speed as u64) * dt_ms == -(intent * max_speed * dt_ms));
        }
    }
    if neg {
        -(q as i64)
    } else {
        q as i64
    }
}

/// What one movement tick produced: the clamped player position, the clamped
/// camera position, and the outbound move event, absent when the tick's raw
/// displacement was exactly zero.
#[derive(Clone, Copy, Debug, PartialEq, Eq, Structural)]
pub struct MovementOutcome {
    pub new_position: Vec2,
    pub new_camera: Vec2,
    pub move_event: Option<MoveRequestEvent>,
}

/// One tick of the movement controller. The velocity is the intent scaled by
/// the maximum speed; the displacement is the velocity scaled by the tick
/// duration; the player position is the displaced position clamped into the
/// world bounds per axis. A zero displacement emits no event and leaves the
/// camera alone; a nonzero one applies the same raw displacement to the
/// camera, clamps it independently, and emits the raw displacement outbound.
pub fn apply_movement(controller: &MovementController, position: Vec2, camera: Vec2, dt_ms: u64) -> (o:
    MovementOutcome)
    requires
        controller.wf(),
        dt_ms <= MAX_TICK_MS,
        -POS_LIMIT <= position.x <= POS_LIMIT,
        -POS_LIMIT <= position.y <= POS_LIMIT,
        -POS_LIMIT <= camera.x <= POS_LIMIT,
        -POS_LIMIT <= camera.y <= POS_LIMIT,
    ensures
        ({
            let dx = displacement_axis(
                controller.intent.x as int,
                controller.max_speed as int,
                dt_ms as int,
            );
            let dy = displacement_axis(
                controller.intent.y as int,
                controller.max_speed as int,
                dt_ms as int,
            );
            &&& o.new_position.x == clamp_spec(position.x + dx, MIN_X_POS as int, MAX_X_POS as int)
            &&& o.new_position.y == clamp_spec(position.y + dy, MIN_Y_POS as int, MAX_Y_POS as int)
            &&& in_bounds(o.new_position)
            &&& (o.move_event is Some <==> !(dx == 0 && dy == 0))
            &&& (o.move_event matches Some(e) ==> e.0 == dx && e.1 == dy)
            &&& (dx == 0 && dy == 0 ==> o.new_camera == camera)
            &&& (!(dx == 0 && dy == 0) ==> {
                &&& o.new_camera.x == clamp_spec(camera.x + dx, MIN_X_POS as int, MAX_X_POS as int)
                &&& o.new_camera.y == clamp_spec(camera.y + dy, MIN_Y_POS as int, MAX_Y_POS as int)
                &&& in_bounds(o.new_camera)
            })
        }),
{
    proof {
        intent_components_bounded(controller.intent);
    }
    let dx = displacement(controller.intent.x, controller.max_speed, dt_ms);
    let dy = displacement(controller.intent.y, controller.max_speed, dt_ms);
    let new_position = Vec2 {
        x: clamp_i64(position.x + dx, MIN_X_POS, MAX_X_POS),
        y: clamp_i64(position.y + dy, MIN_Y_POS, MAX_Y_POS),
    };
    if dx == 0 && dy == 0 {
        MovementOutcome { new_position, new_camera: camera, move_event: None }
    } else {
        let new_camera = Vec2 {
            x: clamp_i64(camera.x + dx, MIN_X_POS, MAX_X_POS),
            y: clamp_i64(camera.y + dy, MIN_Y_POS, MAX_Y_POS),
        };
        MovementOutcome { new_position, new_camera, move_event: Some(MoveRequestEvent(dx, dy)) }
    }
}

/// A vector whose squared magnitude is at most `INTENT_ONE * INTENT_ONE` has
/// each component within `[-INTENT_ONE, INTENT_ONE]`.
pub proof fn intent_components_bounded(v: Vec2)
    requires
        v.mag_sq() <= INTENT_ONE * INTENT_ONE,
    ensures
        -INTENT_ONE <= v.x <= INTENT_ONE,
        -INTENT_ONE <= v.y <= INTENT_ONE,
{
    assert(-1000 <= v.x <= 1000 && -1000 <= v.y <= 1000) by (nonlinear_arith)
        requires
            v.x * v.x + v.y * v.y <= 1000 * 1000,
    ;
}

} // verus!
