//! Points, play-area sizes and the integer trigonometry that turns a heading
//! into a direction.
//!
//! Lengths are in micro-pixels, times in milliseconds, headings in
//! millidegrees clockwise from the x axis (y grows downward). A velocity is in
//! micro-pixels per millisecond: a speed of `s` pixels per second is
//! `1000 * s` of these.
use vstd::prelude::*;

verus! {

/// Micro-pixels in one pixel.
pub const UNITS_PER_PIXEL: i64 = 1_000_000;

/// The largest width or height of a play area (a million pixels).
pub const MAX_EXTENT: i64 = 1_000_000_000_000;

/// The largest speed along one axis that an entity may have.
pub const MAX_SPEED: i64 = 1_000_000_000;

/// The longest single time step, in milliseconds.
pub const MAX_STEP_MS: u64 = 1_000_000_000;

/// Millidegrees in a full turn.
pub const FULL_TURN: u32 = 360_000;

/// Millidegrees in half a turn.
pub const HALF_TURN: u32 = 180_000;

/// Millidegrees in a quarter turn.
pub const QUARTER_TURN: u32 = 90_000;

/// Fixed-point scale of a direction component: `1000` stands for `1.0`.
pub const UNIT: i64 = 1000;

/// A location, or a velocity, in integer units.
#[derive(Clone, Copy, Debug, PartialEq, Eq, Structural)]
pub struct Point {
    pub x: i64,
    pub y: i64,
}

/// The extent of the rectangular play area `[0, width) x [0, height)`.
#[derive(Clone, Copy, Debug, PartialEq, Eq, Structural)]
pub struct Size {
    pub width: i64,
    pub height: i64,
}

impl Point {
    pub fn new(x: i64, y: i64) -> (r: Point)
        ensures
            r.x == x,
            r.y == y,
    {
        Point { x, y }
    }

    /// Both components are at most `MAX_SPEED` in absolute value.
    pub open spec fn is_bounded_speed(self) -> bool {
        -MAX_SPEED <= self.x <= MAX_SPEED && -MAX_SPEED <= self.y <= MAX_SPEED
    }
}

impl Size {
    pub fn new(width: i64, height: i64) -> (r: Size)
        requires
            0 < width <= MAX_EXTENT,
            0 < height <= MAX_EXTENT,
        ensures
            r.width == width,
            r.height == height,
            r.wf(),
    {
        Size { width, height }
    }

    /// A play area of positive extent, no larger than `MAX_EXTENT` either way.
    pub open spec fn wf(self) -> bool {
        0 < self.width <= MAX_EXTENT && 0 < self.height <= MAX_EXTENT
    }

    pub open spec fn spec_contains(self, p: Point) -> bool {
        0 <= p.x < self.width && 0 <= p.y < self.height
    }

    /// Whether `p` lies inside the play area.
    #[verifier::when_used_as_spec(spec_contains)]
    pub fn contains(self, p: Point) -> (r: bool)
        ensures
            r == self.spec_contains(p),
    {
        0 <= p.x && p.x < self.width && 0 <= p.y && p.y < self.height
    }
}

/// `p` after moving with velocity `v` for `dt` milliseconds.
pub open spec fn moved(p: Point, v: Point, dt: int) -> Point {
    Point { x: (p.x + v.x * dt) as i64, y: (p.y + v.y * dt) as i64 }
}

/// Moving a point of the play area at a bounded speed for at most `MAX_STEP_MS`
/// stays far inside the range of `i64`.
pub proof fn lemma_moved_in_range(p: Point, v: Point, dt: int, size: Size)
    requires
        size.wf(),
        size.spec_contains(p),
        v.is_bounded_speed(),
        0 <= dt <= MAX_STEP_MS,
    ensures
        -4_000_000_000_000_000_000 <= p.x + v.x * dt <= 4_000_000_000_000_000_000,
        -4_000_000_000_000_000_000 <= p.y + v.y * dt <= 4_000_000_000_000_000_000,
{
    assert(-1_000_000_000_000_000_000 <= v.x * dt <= 1_000_000_000_000_000_000) by (nonlinear_arith)
        requires
            -1_000_000_000 <= v.x <= 1_000_000_000,
            0 <= dt <= 1_000_000_000,
    ;
    assert(-1_000_000_000_000_000_000 <= v.y * dt <= 1_000_000_000_000_000_000) by (nonlinear_arith)
        requires
            -1_000_000_000 <= v.y <= 1_000_000_000,
            0 <= dt <= 1_000_000_000,
    ;
}

/// Moves a point of the play area with velocity `v` for `dt` milliseconds.
pub fn move_point(p: Point, v: Point, dt: u64, size: Size) -> (r: Point)
    requires
        size.wf(),
        size.contains(p),
        v.is_bounded_speed(),
        dt <= MAX_STEP_MS,
    ensures
        r == moved(p, v, dt as int),
        r.x == p.x + v.x * dt,
        r.y == p.y + v.y * dt,
{
    proof {
        lemma_moved_in_range(p, v, dt as int, size);
    }
    let t = dt as i64;
    Point { x: p.x + v.x * t, y: p.y + v.y * t }
}

/// `c` brought into `[0, extent)` by whole multiples of `extent`.
pub open spec fn wrapped(c: int, extent: int) -> int {
    c % extent
}

/// Wraps one coordinate around a positive extent (toroidal play area).
pub fn wrap_coordinate(c: i64, extent: i64) -> (r: i64)
    requires
        0 < extent,
        c > i64::MIN,
    ensures
        r == wrapped(c as int, extent as int),
        0 <= r < extent,
{
    if c >= 0 {
        c % extent
    } else {
        let m = (-c) % extent;
        proof {
            let n = -c;
            assert(c % extent == if m == 0 { 0 } else { extent - m }) by {
                vstd::arithmetic::div_mod::lemma_fundamental_div_mod(n as int, extent as int);
                vstd::arithmetic::div_mod::lemma_mod_pos_bound(n as int, extent as int);
                let q = n as int / extent as int;
                if m == 0 {
                    vstd::arithmetic::div_mod::lemma_mod_multiples_vanish(-q, 0, extent as int);
                    assert(c == (-q) * extent) by (nonlinear_arith)
                        requires n == q * extent + m, m == 0, c == -n;
                    vstd::arithmetic::div_mod::lemma_mod_multiples_basic(-q, extent as int);
                } else {
                    assert(c == (-q - 1) * extent + (extent - m)) by (nonlinear_arith)
                        requires n == q * extent + m, c == -n;
                    vstd::arithmetic::div_mod::lemma_mod_multiples_vanish(-q - 1, extent - m, extent as int);
                    vstd::arithmetic::div_mod::lemma_small_mod((extent - m) as nat, extent as nat);
                }
            }
        }
        if m == 0 {
            0
        } else {
            extent - m
        }
    }
}

/// `x * (180000 - x)`: the product at the heart of the sine approximation.
pub open spec fn arch(x: int) -> int {
    x * (HALF_TURN - x)
}

/// Bhaskara's approximation of `1000 * sin(x)` on half a turn, `x` in millidegrees.
pub open spec fn half_sine(x: int) -> int {
    (4 * UNIT * arch(x)) / (40_500_000_000 - arch(x))
}

/// `1000 * sin(h)` for a heading `h` in `[0, 360000)` millidegrees.
pub open spec fn sine(h: int) -> int {
    if h < HALF_TURN {
        half_sine(h)
    } else {
        -half_sine(h - HALF_TURN)
    }
}

/// `1000 * cos(h)`: the sine a quarter turn ahead.
pub open spec fn cosine(h: int) -> int {
    sine((h + QUARTER_TURN) % (FULL_TURN as int))
}

/// The unit direction of a heading, scaled by `UNIT`.
pub open spec fn direction(h: int) -> Point {
    Point { x: cosine(h) as i64, y: sine(h) as i64 }
}

proof fn lemma_half_sine_bounds(x: int)
    requires
        0 <= x <= HALF_TURN,
    ensures
        0 <= arch(x) <= 8_100_000_000,
        0 <= half_sine(x) <= UNIT,
{
    assert(0 <= x * (180_000 - x) <= 8_100_000_000) by (nonlinear_arith)
        requires
            0 <= x <= 180_000,
    ;
    let a = arch(x);
    let d = 40_500_000_000 - a;
    assert(4000 * a <= 1000 * d);
    vstd::arithmetic::div_mod::lemma_div_is_ordered(4000 * a, 1000 * d, d);
    vstd::arithmetic::div_mod::lemma_div_multiples_vanish(1000, d);
    vstd::arithmetic::div_mod::lemma_div_pos_is_pos(4000 * a, d);
}

fn half_sine_exec(x: u32) -> (r: i64)
    requires
        x <= HALF_TURN,
    ensures
        r == half_sine(x as int),
        0 <= r <= UNIT,
{
    proof {
        lemma_half_sine_bounds(x as int);
    }
    let xx = x as u64;
    let a: u64 = xx * (180_000 - xx);
    let n: u64 = 4000 * a;
    let d: u64 = 40_500_000_000 - a;
    (n / d) as i64
}

/// `1000 * sin(h)` by Bhaskara's approximation.
pub fn sine_exec(h: u32) -> (r: i64)
    requires
        h < FULL_TURN,
    ensures
        r == sine(h as int),
        -UNIT <= r <= UNIT,
{
    if h < HALF_TURN {
        half_sine_exec(h)
    } else {
        -half_sine_exec(h - HALF_TURN)
    }
}

/// `1000 * cos(h)` by Bhaskara's approximation.
pub fn cosine_exec(h: u32) -> (r: i64)
    requires
        h < FULL_TURN,
    ensures
        r == cosine(h as int),
        -UNIT <= r <= UNIT,
{
    sine_exec((h + QUARTER_TURN) % FULL_TURN)
}

/// The direction of heading `h`, each component scaled by `UNIT`.
pub fn direction_exec(h: u32) -> (r: Point)
    requires
        h < FULL_TURN,
    ensures
        r == direction(h as int),
        r.x == cosine(h as int),
        r.y == sine(h as int),
        -UNIT <= r.x <= UNIT,
        -UNIT <= r.y <= UNIT,
{
    Point { x: cosine_exec(h), y: sine_exec(h) }
}

/// `direction(h)` scaled by a speed in pixels per second: a velocity.
pub open spec fn heading_velocity(h: int, speed: int) -> Point {
    Point { x: (speed * cosine(h)) as i64, y: (speed * sine(h)) as i64 }
}

/// The velocity of something heading `h` at `speed` pixels per second.
pub fn velocity_toward(h: u32, speed: i64) -> (r: Point)
    requires
        h < FULL_TURN,
        0 <= speed <= 1_000_000,
    ensures
        r == heading_velocity(h as int, speed as int),
        r.is_bounded_speed(),
{
    let d = direction_exec(h);
    proof {
        assert(-1_000_000_000 <= speed * d.x <= 1_000_000_000) by (nonlinear_arith)
            requires
                -1000 <= d.x <= 1000,
                0 <= speed <= 1_000_000,
        ;
        assert(-1_000_000_000 <= speed * d.y <= 1_000_000_000) by (nonlinear_arith)
            requires
                -1000 <= d.y <= 1000,
                0 <= speed <= 1_000_000,
        ;
    }
    Point { x: speed * d.x, y: speed * d.y }
}

} // verus!
