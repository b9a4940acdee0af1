//! Fixed-point plane geometry shared by every part of the simulation.
//!
//! Lengths are measured in thousandths of a pixel, times in microseconds and
//! directions as integer vectors of length `UNIT`.
use vstd::prelude::*;

verus! {

/// Subdivisions of one pixel.
pub const PIXEL: i64 = 1000;

/// Microseconds in one second.
pub const SECOND: i64 = 1_000_000;

/// Length of a direction vector.
pub const UNIT: i64 = 1_000_000;

/// Largest magnitude of a coordinate: the world is the square `[-WORLD_LIMIT, WORLD_LIMIT]²`.
pub const WORLD_LIMIT: i64 = 1_000_000_000_000;

/// Largest extent of a sprite, a hitbox or a radius.
pub const SIZE_LIMIT: i64 = 1_000_000_000;

/// Largest magnitude of a velocity component, per second.
pub const SPEED_LIMIT: i64 = 1_000_000_000_000;

/// Largest magnitude of a rectangle's corner coordinate.
pub const RECT_LIMIT: i64 = 4_000_000_000_000_000_000;

/// Longest time step handed to one tick.
pub const DELTA_LIMIT: i64 = 1_000_000_000;

/// A facing or movement direction on the screen.
#[derive(Clone, Copy, Debug, PartialEq, Eq, Structural)]
pub enum Direction {
    Up,
    Down,
    Left,
    Right,
}

/// A point of the world.
#[derive(Clone, Copy, Debug, PartialEq, Eq, Structural)]
pub struct Position {
    pub x: i64,
    pub y: i64,
}

/// An axis-aligned rectangle given by its top-left corner and its extents.
#[derive(Clone, Copy, Debug, PartialEq, Eq, Structural)]
pub struct Rect {
    pub x: i64,
    pub y: i64,
    pub width: i64,
    pub height: i64,
}

pub open spec fn in_world(v: int) -> bool {
    -WORLD_LIMIT <= v <= WORLD_LIMIT
}

impl Position {
    pub open spec fn wf(&self) -> bool {
        in_world(self.x as int) && in_world(self.y as int)
    }
}

impl Rect {
    /// Corners lie within `RECT_LIMIT` and extents are sizes.
    pub open spec fn wf(&self) -> bool {
        &&& -RECT_LIMIT <= self.x <= RECT_LIMIT
        &&& -RECT_LIMIT <= self.y <= RECT_LIMIT
        &&& 0 <= self.width <= 2 * SIZE_LIMIT
        &&& 0 <= self.height <= 2 * SIZE_LIMIT
    }
}

pub open spec fn valid_size(v: int) -> bool {
    0 <= v <= SIZE_LIMIT
}

pub open spec fn valid_speed(v: int) -> bool {
    -SPEED_LIMIT <= v <= SPEED_LIMIT
}

pub open spec fn valid_delta(d: int) -> bool {
    0 <= d <= DELTA_LIMIT
}

pub open spec fn clamp(v: int, lo: int, hi: int) -> int {
    if v < lo {
        lo
    } else if v > hi {
        hi
    } else {
        v
    }
}

pub open spec fn abs(v: int) -> int {
    if v < 0 {
        -v
    } else {
        v
    }
}

/// Division that rounds toward zero, as Rust's `/` on signed integers does.
pub open spec fn trunc_div(a: int, d: int) -> int {
    if a >= 0 {
        a / d
    } else {
        -((-a) / d)
    }
}

/// How far a velocity carries in `delta` microseconds.
pub open spec fn displacement_of(vel: int, delta: int) -> int {
    trunc_div(vel * delta, SECOND as int)
}

/// A coordinate advanced by a velocity for `delta`, kept inside the world.
pub open spec fn step_of(pos: int, vel: int, delta: int) -> int {
    clamp(pos + displacement_of(vel, delta), -WORLD_LIMIT as int, WORLD_LIMIT as int)
}

/// The square centred on `c` with half extents `hw` and `hh`.
pub open spec fn centered_rect(c: Position, hw: int, hh: int) -> Rect {
    Rect {
        x: (c.x - hw) as i64,
        y: (c.y - hh) as i64,
        width: (2 * hw) as i64,
        height: (2 * hh) as i64,
    }
}

/// Two rectangles share interior points.
pub open spec fn rects_overlap_spec(a: Rect, b: Rect) -> bool {
    &&& a.x < b.x + b.width
    &&& a.x + a.width > b.x
    &&& a.y < b.y + b.height
    &&& a.y + a.height > b.y
}

/// Squared distance from `(cx, cy)` to the nearest point of `r`.
pub open spec fn dist_sq_to_rect(cx: int, cy: int, r: Rect) -> int {
    let nx = clamp(cx, r.x as int, r.x + r.width);
    let ny = clamp(cy, r.y as int, r.y + r.height);
    (cx - nx) * (cx - nx) + (cy - ny) * (cy - ny)
}

/// A closed disc of radius `radius` meets the rectangle `r`.
pub open spec fn circle_meets_rect_spec(cx: int, cy: int, radius: int, r: Rect) -> bool {
    dist_sq_to_rect(cx, cy, r) <= radius * radius
}

/// `r` is the largest integer whose square does not exceed `n`.
pub open spec fn is_floor_sqrt(n: int, r: int) -> bool {
    0 <= r && r * r <= n && n < (r + 1) * (r + 1)
}

/// The largest integer whose square does not exceed `n`.
pub open spec fn floor_sqrt(n: int) -> int {
    choose|r: int| #[trigger] is_floor_sqrt(n, r)
}

/// Length of `(dx, dy)`, rounded down.
pub open spec fn length_of(dx: int, dy: int) -> int {
    floor_sqrt(dx * dx + dy * dy)
}

/// The direction of `(dx, dy)` scaled to `UNIT`, or nothing for the zero vector.
pub open spec fn unit_of(dx: int, dy: int) -> Option<(i64, i64)> {
    if dx == 0 && dy == 0 {
        None
    } else {
        let d = length_of(dx, dy);
        Some(
            (
                trunc_div(dx * UNIT, d) as i64,
                trunc_div(dy * UNIT, d) as i64,
            ),
        )
    }
}

/// Any two integer square roots of one number are equal.
pub proof fn lemma_floor_sqrt_unique(n: int, r: int)
    requires
        0 <= r,
        r * r <= n,
        n < (r + 1) * (r + 1),
    ensures
        floor_sqrt(n) == r,
{
    assert(is_floor_sqrt(n, r));
    let s = floor_sqrt(n);
    assert(is_floor_sqrt(n, s));
    assert(0 <= s && s * s <= n && n < (s + 1) * (s + 1));
    if s < r {
        assert((s + 1) * (s + 1) <= r * r) by (nonlinear_arith)
            requires
                0 <= s,
                s + 1 <= r,
        ;
    } else if r < s {
        assert((r + 1) * (r + 1) <= s * s) by (nonlinear_arith)
            requires
                0 <= r,
                r + 1 <= s,
        ;
    }
}

/// A component of a vector is at most its length.
pub proof fn lemma_component_le_length(a: int, b: int, d: int)
    requires
        0 <= d,
        a * a + b * b < (d + 1) * (d + 1),
    ensures
        abs(a) <= d,
{
    if abs(a) > d {
        assert((d + 1) * (d + 1) <= abs(a) * abs(a)) by (nonlinear_arith)
            requires
                0 <= d,
                d + 1 <= abs(a),
        ;
        assert(abs(a) * abs(a) == a * a) by (nonlinear_arith);
        assert(b * b >= 0) by (nonlinear_arith);
    }
}

/// Keeps a coordinate inside the world.
pub fn clamp_world(v: i128) -> (r: i64)
    ensures
        r == clamp(v as int, -WORLD_LIMIT as int, WORLD_LIMIT as int),
{
    if v < -(WORLD_LIMIT as i128) {
        -WORLD_LIMIT
    } else if v > WORLD_LIMIT as i128 {
        WORLD_LIMIT
    } else {
        v as i64
    }
}

/// Rounds `a / d` toward zero.
pub fn div_toward_zero(a: i128, d: i128) -> (r: i128)
    requires
        d > 0,
        a > i128::MIN,
    ensures
        r == trunc_div(a as int, d as int),
{
    if a >= 0 {
        a / d
    } else {
        let q = (-a) / d;
        -q
    }
}

/// How far `vel` (per second) carries in `delta` microseconds.
pub fn displacement(vel: i64, delta: i64) -> (r: i64)
    requires
        valid_speed(vel as int),
        valid_delta(delta as int),
    ensures
        r == displacement_of(vel as int, delta as int),
        abs(r as int) <= SPEED_LIMIT * (DELTA_LIMIT / SECOND),
{
    assert(abs(vel * delta) <= SPEED_LIMIT * DELTA_LIMIT) by (nonlinear_arith)
        requires
            -SPEED_LIMIT <= vel <= SPEED_LIMIT,
            0 <= delta <= DELTA_LIMIT,
    ;
    let p = vel as i128 * delta as i128;
    let r = div_toward_zero(p, SECOND as i128);
    proof {
        let pi = p as int;
        if pi >= 0 {
            assert(pi / 1_000_000 <= 1_000_000_000_000_000) by (nonlinear_arith)
                requires
                    0 <= pi <= 1_000_000_000_000_000_000_000,
            ;
            assert(pi / 1_000_000 >= 0) by (nonlinear_arith)
                requires
                    0 <= pi,
            ;
        } else {
            assert((-pi) / 1_000_000 <= 1_000_000_000_000_000) by (nonlinear_arith)
                requires
                    0 <= -pi <= 1_000_000_000_000_000_000_000,
            ;
            assert((-pi) / 1_000_000 >= 0) by (nonlinear_arith)
                requires
                    0 <= -pi,
            ;
        }
    }
    r as i64
}

/// Advances one coordinate by a velocity for `delta`, staying inside the world.
pub fn step_coord(pos: i64, vel: i64, delta: i64) -> (r: i64)
    requires
        in_world(pos as int),
        valid_speed(vel as int),
        valid_delta(delta as int),
    ensures
        r == step_of(pos as int, vel as int, delta as int),
        in_world(r as int),
{
    let d = displacement(vel, delta);
    clamp_world(pos as i128 + d as i128)
}

/// The rectangle centred on `c` with half extents `hw` and `hh`.
pub fn centered(c: Position, hw: i64, hh: i64) -> (r: Rect)
    requires
        c.wf(),
        valid_size(hw as int),
        valid_size(hh as int),
    ensures
        r == centered_rect(c, hw as int, hh as int),
        r.wf(),
{
    Rect { x: c.x - hw, y: c.y - hh, width: 2 * hw, height: 2 * hh }
}

/// Whether two rectangles share interior points.
pub fn rects_overlap(a: &Rect, b: &Rect) -> (r: bool)
    requires
        a.wf(),
        b.wf(),
    ensures
        r == rects_overlap_spec(*a, *b),
{
    a.x < b.x + b.width && a.x + a.width > b.x && a.y < b.y + b.height && a.y + a.height > b.y
}

fn clamp_i128(v: i128, lo: i128, hi: i128) -> (r: i128)
    requires
        lo <= hi,
    ensures
        r == clamp(v as int, lo as int, hi as int),
{
    if v < lo {
        lo
    } else if v > hi {
        hi
    } else {
        v
    }
}

/// Whether the closed disc of radius `radius` around `(cx, cy)` meets `r`.
pub fn circle_meets_rect(cx: i64, cy: i64, radius: i64, r: &Rect) -> (b: bool)
    requires
        -2 * WORLD_LIMIT <= cx <= 2 * WORLD_LIMIT,
        -2 * WORLD_LIMIT <= cy <= 2 * WORLD_LIMIT,
        0 <= radius <= 2 * SIZE_LIMIT,
        r.wf(),
    ensures
        b == circle_meets_rect_spec(cx as int, cy as int, radius as int, *r),
{
    let nx = clamp_i128(cx as i128, r.x as i128, r.x as i128 + r.width as i128);
    let ny = clamp_i128(cy as i128, r.y as i128, r.y as i128 + r.height as i128);
    let ex = cx as i128 - nx;
    let ey = cy as i128 - ny;
    assert(-5_000_000_000_000_000_000 <= ex <= 5_000_000_000_000_000_000);
    assert(-5_000_000_000_000_000_000 <= ey <= 5_000_000_000_000_000_000);
    assert(ex * ex <= 25_000_000_000_000_000_000_000_000_000_000_000_000) by (nonlinear_arith)
        requires
            -5_000_000_000_000_000_000 <= ex <= 5_000_000_000_000_000_000,
    ;
    assert(ey * ey <= 25_000_000_000_000_000_000_000_000_000_000_000_000) by (nonlinear_arith)
        requires
            -5_000_000_000_000_000_000 <= ey <= 5_000_000_000_000_000_000,
    ;
    assert(ex * ex >= 0 && ey * ey >= 0) by (nonlinear_arith);
    assert(radius * radius <= 4 * SIZE_LIMIT * SIZE_LIMIT) by (nonlinear_arith)
        requires
            0 <= radius <= 2 * SIZE_LIMIT,
    ;
    ex * ex + ey * ey <= radius as i128 * radius as i128
}

/// Largest argument of `isqrt`.
pub const SQRT_INPUT_LIMIT: u128 = 100_000_000_000_000_000_000_000_000;

/// Square root of `SQRT_INPUT_LIMIT`.
pub const SQRT_OUTPUT_LIMIT: u128 = 10_000_000_000_000;

/// The integer square root of `n`, by bisection.
pub fn isqrt(n: u128) -> (r: u128)
    requires
        n <= SQRT_INPUT_LIMIT,
    ensures
        r == floor_sqrt(n as int),
        r * r <= n < (r + 1) * (r + 1),
{
    // lo * lo <= n < hi * hi
    let mut lo: u128 = 0;
    let mut hi: u128 = SQRT_OUTPUT_LIMIT + 1;
    assert(n < hi * hi) by (nonlinear_arith)
        requires
            n <= SQRT_INPUT_LIMIT,
            hi == SQRT_OUTPUT_LIMIT + 1,
    ;
    while lo + 1 < hi
        invariant
            lo < hi <= SQRT_OUTPUT_LIMIT + 1,
            lo * lo <= n,
            n < hi * hi,
        decreases hi - lo,
    {
        let mid = lo + (hi - lo) / 2;
        assert(mid * mid <= hi * hi) by (nonlinear_arith)
            requires
                0 <= mid <= hi,
        ;
        assert(mid * mid <= 10_000_000_000_001 * 10_000_000_000_001) by (nonlinear_arith)
            requires
                0 <= mid <= 10_000_000_000_001,
        ;
        if mid * mid <= n {
            lo = mid;
        } else {
            hi = mid;
        }
    }
    assert(hi == lo + 1);
    proof {
        lemma_floor_sqrt_unique(n as int, lo as int);
    }
    lo
}

/// The direction from `from` to `to`, scaled to `UNIT`; nothing when the points coincide.
pub fn unit_toward(from: Position, to: Position) -> (r: Option<(i64, i64)>)
    requires
        from.wf(),
        to.wf(),
    ensures
        r == unit_of(to.x - from.x, to.y - from.y),
        r matches Some((ux, uy)) ==> abs(ux as int) <= UNIT && abs(uy as int) <= UNIT,
{
    let dx = to.x as i128 - from.x as i128;
    let dy = to.y as i128 - from.y as i128;
    if dx == 0 && dy == 0 {
        return None;
    }
    assert(dx * dx <= 4 * WORLD_LIMIT * WORLD_LIMIT && dx * dx >= 0) by (nonlinear_arith)
        requires
            -2 * WORLD_LIMIT <= dx <= 2 * WORLD_LIMIT,
    ;
    assert(dy * dy <= 4 * WORLD_LIMIT * WORLD_LIMIT && dy * dy >= 0) by (nonlinear_arith)
        requires
            -2 * WORLD_LIMIT <= dy <= 2 * WORLD_LIMIT,
    ;
    let sq = (dx * dx + dy * dy) as u128;
    let root = isqrt(sq);
    assert(root <= SQRT_OUTPUT_LIMIT) by (nonlinear_arith)
        requires
            root * root <= sq <= SQRT_INPUT_LIMIT,
    ;
    let d = root as i128;
    proof {
        lemma_component_le_length(dx as int, dy as int, d as int);
        lemma_component_le_length(dy as int, dx as int, d as int);
        if d == 0 {
            assert(dx * dx + dy * dy < 1);
            assert(dx * dx >= 0 && dy * dy >= 0) by (nonlinear_arith);
            assert(dx * dx == 0 ==> dx == 0) by (nonlinear_arith);
            assert(dy * dy == 0 ==> dy == 0) by (nonlinear_arith);
        }
    }
    assert(abs(dx * UNIT) <= 2 * WORLD_LIMIT * UNIT) by (nonlinear_arith)
        requires
            -2 * WORLD_LIMIT <= dx <= 2 * WORLD_LIMIT,
    ;
    assert(abs(dy * UNIT) <= 2 * WORLD_LIMIT * UNIT) by (nonlinear_arith)
        requires
            -2 * WORLD_LIMIT <= dy <= 2 * WORLD_LIMIT,
    ;
    let ux = div_toward_zero(dx * UNIT as i128, d);
    let uy = div_toward_zero(dy * UNIT as i128, d);
    proof {
        lemma_unit_component_bound(dx as int, d as int);
        lemma_unit_component_bound(dy as int, d as int);
    }
    Some((ux as i64, uy as i64))
}

/// A component no longer than the length scales to at most `UNIT`.
pub proof fn lemma_unit_component_bound(a: int, d: int)
    requires
        0 < d,
        abs(a) <= d,
    ensures
        abs(trunc_div(a * UNIT, d)) <= UNIT,
{
    if a >= 0 {
        assert(a * UNIT <= d * UNIT) by (nonlinear_arith)
            requires
                0 <= a <= d,
        ;
        assert((a * UNIT) / d <= (d * UNIT) / d) by (nonlinear_arith)
            requires
                0 <= a * UNIT <= d * UNIT,
                0 < d,
        ;
        assert((d * UNIT) / d == UNIT) by (nonlinear_arith)
            requires
                0 < d,
        ;
        assert(a * UNIT >= 0) by (nonlinear_arith)
            requires
                a >= 0,
        ;
        assert((a * UNIT) / d >= 0) by (nonlinear_arith)
            requires
                a * UNIT >= 0,
                0 < d,
        ;
    } else {
        assert((-a) * UNIT <= d * UNIT) by (nonlinear_arith)
            requires
                0 <= -a <= d,
        ;
        assert(((-a) * UNIT) / d <= (d * UNIT) / d) by (nonlinear_arith)
            requires
                0 <= (-a) * UNIT <= d * UNIT,
                0 < d,
        ;
        assert((d * UNIT) / d == UNIT) by (nonlinear_arith)
            requires
                0 < d,
        ;
        assert(-(a * UNIT) == (-a) * UNIT) by (nonlinear_arith);
        assert(((-a) * UNIT) / d >= 0) by (nonlinear_arith)
            requires
                (-a) * UNIT >= 0,
                0 < d,
        ;
    }
}

} // verus!
