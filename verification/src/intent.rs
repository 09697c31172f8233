//! Movement intent from input: key presses contribute one unit per axis, a
//! touched joystick overrides them, and the resulting vector is normalized to
//! length at most one unit (`INTENT_ONE` thousandths) before the movement
//! controller scales it by the maximum speed.

use vstd::prelude::*;

use crate::movement::INTENT_ONE;
use crate::movement::Vec2;

verus! {

/// Largest raw axis value `normalize_or_zero` and `compute_intent` accept;
/// keeps every intermediate square within a `u64`.
pub const RAW_AXIS_LIMIT: i64 = 1_000_000;

/// The integer square root: the largest `r` with `r * r <= n`.
fn isqrt_u64(n: u64) -> (r: u64)
    ensures
        r * r <= n,
        n < (r + 1) * (r + 1),
        r < 4_294_967_296,
{
    let mut lo: u64 = 0;
    let mut hi: u64 = 4_294_967_296;
    assert(n < hi * hi) by (nonlinear_arith)
        requires
            hi == 4_294_967_296u64,
            n <= u64::MAX,
    ;
    while lo + 1 < hi
        invariant
            lo < hi,
            hi <= 4_294_967_296,
            lo * lo <= n,
            n < hi * hi,
        decreases hi - lo,
    {
        let mid = lo + (hi - lo) / 2;
        assert(lo < mid < hi);
        assert(mid * mid < 4_294_967_296u64 * 4_294_967_296u64) by (nonlinear_arith)
            requires
                mid < 4_294_967_296u64,
        ;
        if mid * mid <= n {
            lo = mid;
        } else {
            hi = mid;
        }
    }
    lo
}

/// The ceiling square root: the smallest `d` with `n <= d * d`.
fn ceil_sqrt_u64(n: u64) -> (d: u64)
    ensures
        n <= d * d,
        n > 0 ==> d > 0,
        d > 0 ==> (d - 1) * (d - 1) < n,
{
    let r = isqrt_u64(n);
    if r * r == n {
        proof {
            if r > 0 {
                assert((r - 1) * (r - 1) < r * r) by (nonlinear_arith)
                    requires
                        r > 0,
                ;
            }
        }
        r
    } else {
        r + 1
    }
}

/// Whether `d` is the ceiling square root of a positive `n`: the smallest
/// positive integer whose square reaches `n`. At most one `d` satisfies this.
pub open spec fn is_ceil_sqrt(n: int, d: int) -> bool {
    &&& d >= 1
    &&& d * d >= n
    &&& (d - 1) * (d - 1) < n
}

/// The ceiling square root of a positive `n`; well defined because
/// `is_ceil_sqrt` has exactly one solution (`lemma_ceil_sqrt_unique`).
pub open spec fn ceil_sqrt_of(n: int) -> int {
    choose|d: int| is_ceil_sqrt(n, d)
}

/// The ceiling square root is unique: two integers whose squares first reach
/// `n` at the same point are equal.
pub proof fn lemma_ceil_sqrt_unique(n: int, d1: int, d2: int)
    requires
        is_ceil_sqrt(n, d1),
        is_ceil_sqrt(n, d2),
    ensures
        d1 == d2,
{
    assert(d1 == d2) by (nonlinear_arith)
        requires
            d1 >= 1 && d1 * d1 >= n && (d1 - 1) * (d1 - 1) < n,
            d2 >= 1 && d2 * d2 >= n && (d2 - 1) * (d2 - 1) < n,
    ;
}

/// The exact normalization of a raw intent vector: zero stays zero, and any
/// other vector is scaled by `INTENT_ONE` and divided — truncating toward
/// zero — by the ceiling square root of its squared magnitude.
pub open spec fn normalize_spec(x: int, y: int) -> (int, int) {
    if x == 0 && y == 0 {
        (0, 0)
    } else {
        let d = ceil_sqrt_of(x * x + y * y);
        (
            crate::movement::div_trunc(x * (INTENT_ONE as int), d),
            crate::movement::div_trunc(y * (INTENT_ONE as int), d),
        )
    }
}

/// Normalization of a raw intent vector: the zero vector stays zero, and any
/// other vector is scaled to length at most one unit, keeping each
/// component's sign. This is how the diagonal of two held keys, or a raw
/// joystick vector, becomes a unit-length intent.
pub fn normalize_or_zero(x: i64, y: i64) -> (r: Vec2)
    requires
        -RAW_AXIS_LIMIT <= x <= RAW_AXIS_LIMIT,
        -RAW_AXIS_LIMIT <= y <= RAW_AXIS_LIMIT,
    ensures
        (r.x as int, r.y as int) == normalize_spec(x as int, y as int),
        r.mag_sq() <= INTENT_ONE * INTENT_ONE,
        (x == 0 && y == 0) ==> (r.x == 0 && r.y == 0),
        r.x * x >= 0 && r.y * y >= 0,
        (x == 0 ==> r.x == 0) && (y == 0 ==> r.y == 0),
        !(x == 0 && y == 0) ==> r.mag_sq() >= 500 * 500,
{
    if x == 0 && y == 0 {
        return Vec2 { x: 0, y: 0 };
    }
    let ax: u64 = if x < 0 {
        (-x) as u64
    } else {
        x as u64
    };
    let ay: u64 = if y < 0 {
        (-y) as u64
    } else {
        y as u64
    };
    assert(ax * ax <= 1_000_000_000_000u64 && ay * ay <= 1_000_000_000_000u64)
        by (nonlinear_arith)
        requires
            ax <= 1_000_000,
            ay <= 1_000_000,
    ;
    let n: u64 = ax * ax + ay * ay;
    assert(ax > 0 || ay > 0);
    assert(n > 0) by (nonlinear_arith)
        requires
            n == ax * ax + ay * ay,
            ax > 0 || ay > 0,
    ;
    let d: u64 = ceil_sqrt_u64(n);
    let qx: u64 = (ax * 1000) / d;
    let qy: u64 = (ay * 1000) / d;
    proof {
        lemma_scaled_quotients_bounded(ax as int, ay as int, d as int, qx as int, qy as int);
        let amax = if ax >= ay {
            ax as int
        } else {
            ay as int
        };
        let qmax = if ax >= ay {
            qx as int
        } else {
            qy as int
        };
        assert(n <= 2 * amax * amax) by (nonlinear_arith)
            requires
                n == ax * ax + ay * ay,
                ax <= amax && ay <= amax,
                ax >= 0,
                ay >= 0,
        ;
        assert(d <= 2 * amax) by (nonlinear_arith)
            requires
                amax >= 1,
                (d - 1) * (d - 1) < n,
                n <= 2 * amax * amax,
                n == ax * ax + ay * ay,
                amax == ax || amax == ay,
                ax <= amax && ay <= amax,
                d >= 1,
        ;
        lemma_quotient_at_least_half(amax, d as int, qmax);
        assert(qx * qx + qy * qy >= 500 * 500) by (nonlinear_arith)
            requires
                qmax == qx || qmax == qy,
                qmax >= 500,
                qx >= 0 && qy >= 0,
        ;
    }
    let rx: i64 = if x < 0 {
        -(qx as i64)
    } else {
        qx as i64
    };
    let ry: i64 = if y < 0 {
        -(qy as i64)
    } else {
        qy as i64
    };
    proof {
        assert(rx * rx == qx * qx && ry * ry == qy * qy) by (nonlinear_arith)
            requires
                rx == qx || rx == -(qx as int),
                ry == qy || ry == -(qy as int),
        ;
        assert(rx * x >= 0 && ry * y >= 0) by (nonlinear_arith)
            requires
                (x < 0 ==> rx <= 0) && (x >= 0 ==> rx >= 0),
                (y < 0 ==> ry <= 0) && (y >= 0 ==> ry >= 0),
        ;
        assert(x * x == ax * ax && y * y == ay * ay) by (nonlinear_arith)
            requires
                ax == x || ax == -(x as int),
                ay == y || ay == -(y as int),
        ;
        assert(is_ceil_sqrt(x * x + y * y, d as int));
        lemma_ceil_sqrt_unique(x * x + y * y, ceil_sqrt_of(x * x + y * y), d as int);
        assert(rx as int == crate::movement::div_trunc(x * (INTENT_ONE as int), d as int));
        assert(ry as int == crate::movement::div_trunc(y * (INTENT_ONE as int), d as int));
    }
    Vec2 { x: rx, y: ry }
}

/// Dividing a thousandfold value by at most its double leaves at least half
/// a thousand: the largest component of a normalized vector keeps at least
/// half a unit, so normalization never collapses a nonzero vector to zero.
proof fn lemma_quotient_at_least_half(amax: int, d: int, qmax: int)
    requires
        amax >= 1,
        1 <= d <= 2 * amax,
        qmax == (amax * 1000) / d,
    ensures
        qmax >= 500,
{
    vstd::arithmetic::div_mod::lemma_fundamental_div_mod(amax * 1000, d);
    vstd::arithmetic::div_mod::lemma_mod_bound(amax * 1000, d);
    assert(qmax >= 500) by (nonlinear_arith)
        requires
            amax * 1000 == d * qmax + (amax * 1000) % d,
            0 <= (amax * 1000) % d < d,
            1 <= d <= 2 * amax,
            amax >= 1,
    ;
}

/// The raw contribution of one axis's two keys, before normalization: one
/// unit toward the positive key, one unit toward the negative key; holding
/// both nets zero.
pub open spec fn key_axis(positive: bool, negative: bool) -> int {
    (if positive {
        INTENT_ONE as int
    } else {
        0
    }) - (if negative {
        INTENT_ONE as int
    } else {
        0
    })
}

/// The raw intent before normalization: the key axes, unless the joystick
/// reports a nonzero vector, which overrides them. A joystick at rest,
/// reporting exactly zero, leaves the key intent alone.
pub open spec fn raw_intent(
    up: bool,
    down: bool,
    left: bool,
    right: bool,
    joystick_x: int,
    joystick_y: int,
) -> (int, int) {
    if joystick_x != 0 || joystick_y != 0 {
        (joystick_x, joystick_y)
    } else {
        (key_axis(right, left), key_axis(up, down))
    }
}

/// One input snapshot turned into a movement intent: directional keys give a
/// unit on each held axis, a touched joystick overrides the keys, and the
/// result is normalized to length at most one unit.
pub fn handle_joystick_or_keyboard_input(
    up: bool,
    down: bool,
    left: bool,
    right: bool,
    joystick_x: i64,
    joystick_y: i64,
) -> (r: Vec2)
    requires
        -RAW_AXIS_LIMIT <= joystick_x <= RAW_AXIS_LIMIT,
        -RAW_AXIS_LIMIT <= joystick_y <= RAW_AXIS_LIMIT,
    ensures
        ({
            let (raw_x, raw_y) = raw_intent(
                up,
                down,
                left,
                right,
                joystick_x as int,
                joystick_y as int,
            );
            &&& (r.x as int, r.y as int) == normalize_spec(raw_x, raw_y)
            &&& r.mag_sq() <= INTENT_ONE * INTENT_ONE
            &&& (raw_x == 0 && raw_y == 0) ==> (r.x == 0 && r.y == 0)
            &&& !(raw_x == 0 && raw_y == 0) ==> r.mag_sq() >= 500 * 500
            &&& r.x * raw_x >= 0 && r.y * raw_y >= 0
            &&& (raw_x == 0 ==> r.x == 0) && (raw_y == 0 ==> r.y == 0)
        }),
{
    let mut x: i64 = 0;
    let mut y: i64 = 0;
    if up {
        y = y + 1000;
    }
    if down {
        y = y - 1000;
    }
    if left {
        x = x - 1000;
    }
    if right {
        x = x + 1000;
    }
    if joystick_x != 0 || joystick_y != 0 {
        x = joystick_x;
        y = joystick_y;
    }
    normalize_or_zero(x, y)
}

/// The two scaled quotients of a vector by the ceiling square root of its
/// squared magnitude have squared magnitude at most `INTENT_ONE` squared.
proof fn lemma_scaled_quotients_bounded(ax: int, ay: int, d: int, qx: int, qy: int)
    requires
        0 <= ax,
        0 <= ay,
        0 < d,
        ax * ax + ay * ay <= d * d,
        qx == (ax * 1000) / d,
        qy == (ay * 1000) / d,
    ensures
        qx * qx + qy * qy <= 1000 * 1000,
        0 <= qx,
        0 <= qy,
{
    vstd::arithmetic::div_mod::lemma_div_pos_is_pos(ax * 1000, d);
    vstd::arithmetic::div_mod::lemma_div_pos_is_pos(ay * 1000, d);
    vstd::arithmetic::mul::lemma_mul_nonnegative(ax, 1000);
    vstd::arithmetic::mul::lemma_mul_nonnegative(ay, 1000);
    vstd::arithmetic::div_mod::lemma_fundamental_div_mod(ax * 1000, d);
    vstd::arithmetic::div_mod::lemma_mod_bound(ax * 1000, d);
    vstd::arithmetic::div_mod::lemma_fundamental_div_mod(ay * 1000, d);
    vstd::arithmetic::div_mod::lemma_mod_bound(ay * 1000, d);
    assert(qx * d <= ax * 1000) by (nonlinear_arith)
        requires
            ax * 1000 == d * qx + (ax * 1000) % d,
            (ax * 1000) % d >= 0,
    ;
    assert(qy * d <= ay * 1000) by (nonlinear_arith)
        requires
            ay * 1000 == d * qy + (ay * 1000) % d,
            (ay * 1000) % d >= 0,
    ;
    assert((qx * qx + qy * qy) * (d * d) <= (ax * ax + ay * ay) * (1000 * 1000))
        by (nonlinear_arith)
        requires
            0 <= qx,
            0 <= qy,
            0 < d,
            0 <= ax,
            0 <= ay,
            qx * d <= ax * 1000,
            qy * d <= ay * 1000,
    ;
    assert(qx * qx + qy * qy <= 1000 * 1000) by (nonlinear_arith)
        requires
            0 < d,
            (qx * qx + qy * qy) * (d * d) <= (ax * ax + ay * ay) * (1000 * 1000),
            ax * ax + ay * ay <= d * d,
    ;
}

} // verus!
