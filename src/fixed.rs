//! Fixed-point arithmetic for the controller.
//!
//! Lengths and velocities are counted in millionths of a world unit,
//! dimensionless factors in millionths, durations in microseconds and angles
//! in microradians. Every operation rounds toward zero, so a run of the
//! controller gives the same numbers on every machine.
use vstd::prelude::*;

verus! {

/// Steps in one world unit, in one whole factor and in one second.
pub const SCALE: i64 = 1_000_000;

/// Largest coordinate, in steps, that the controller takes in: about a
/// million world units, far inside the range of `i64` products.
pub const WORLD_LIMIT: i64 = 1_099_511_627_776;

/// `n / d` rounded toward zero, for a positive `d`.
pub open spec fn trunc_div(n: int, d: int) -> int {
    if n >= 0 {
        n / d
    } else {
        -((-n) / d)
    }
}

/// The magnitude of `trunc_div(n, d)` is `|n| / d` rounded down, and it
/// keeps the sign of `n`.
pub proof fn lemma_trunc_div_bounds(n: int, d: int)
    requires
        d > 0,
    ensures
        n >= 0 ==> 0 <= trunc_div(n, d) <= n,
        n <= 0 ==> n <= trunc_div(n, d) <= 0,
        n >= 0 ==> trunc_div(n, d) * d <= n < (trunc_div(n, d) + 1) * d,
        n <= 0 ==> -trunc_div(n, d) * d <= -n < (-trunc_div(n, d) + 1) * d,
{
    if n >= 0 {
        assert(0 <= n / d <= n) by (nonlinear_arith)
            requires
                n >= 0,
                d > 0,
        ;
        assert((n / d) * d <= n < (n / d + 1) * d) by (nonlinear_arith)
            requires
                n >= 0,
                d > 0,
        ;
    } else {
        let m = -n;
        assert(0 <= m / d <= m) by (nonlinear_arith)
            requires
                m >= 0,
                d > 0,
        ;
        assert((m / d) * d <= m < (m / d + 1) * d) by (nonlinear_arith)
            requires
                m >= 0,
                d > 0,
        ;
    }
}

/// Rounding toward zero keeps the order of numerators.
pub proof fn lemma_trunc_div_monotone(a: int, b: int, d: int)
    requires
        d > 0,
        a <= b,
    ensures
        trunc_div(a, d) <= trunc_div(b, d),
{
    lemma_trunc_div_bounds(a, d);
    lemma_trunc_div_bounds(b, d);
    if a >= 0 {
        assert(a / d <= b / d) by (nonlinear_arith)
            requires
                0 <= a <= b,
                d > 0,
        ;
    } else if b <= 0 {
        assert((-b) / d <= (-a) / d) by (nonlinear_arith)
            requires
                0 <= -b <= -a,
                d > 0,
        ;
    }
}

/// An exact multiple divides back exactly.
pub proof fn lemma_trunc_div_exact(k: int, d: int)
    requires
        d > 0,
    ensures
        trunc_div(k * d, d) == k,
{
    if k >= 0 {
        assert(k * d >= 0) by (nonlinear_arith)
            requires
                k >= 0,
                d > 0,
        ;
        vstd::arithmetic::div_mod::lemma_fundamental_div_mod_converse(k * d, d, k, 0);
    } else {
        assert(k * d < 0 && -(k * d) == (-k) * d) by (nonlinear_arith)
            requires
                k < 0,
                d > 0,
        ;
        vstd::arithmetic::div_mod::lemma_fundamental_div_mod_converse(-(k * d), d, -k, 0);
    }
}

/// Interpolation by zero stays at the start, by one reaches the target.
pub proof fn lemma_lerp_ends(a: int, b: int)
    ensures
        lerp_spec(a, b, 0) == a,
        lerp_spec(a, b, SCALE as int) == b,
{
    lemma_trunc_div_exact(a - b, SCALE as int);
    assert(trunc_div(0, SCALE as int) == 0);
    assert((a - b) * (SCALE - 0) == (a - b) * SCALE);
    assert((a - b) * (SCALE - SCALE) == 0);
}

/// `a * b / d`, rounded toward zero.
pub fn mul_div(a: i64, b: i64, d: i64) -> (r: i64)
    requires
        d > 0,
        -i64::MAX <= trunc_div(a * b, d as int) <= i64::MAX,
    ensures
        r == trunc_div(a * b, d as int),
{
    assert(-0x4000_0000_0000_0000_0000_0000_0000_0000int <= a * b
        <= 0x4000_0000_0000_0000_0000_0000_0000_0000int) by (nonlinear_arith)
        requires
            i64::MIN <= a <= i64::MAX,
            i64::MIN <= b <= i64::MAX,
    ;
    let n: i128 = (a as i128) * (b as i128);
    if n >= 0 {
        let q: u128 = (n as u128) / (d as u128);
        q as i64
    } else {
        let q: u128 = ((-n) as u128) / (d as u128);
        -(q as i64)
    }
}

/// Linear interpolation from `a` to `b` by the factor `t` (in millionths):
/// the distance left to `b` is scaled by `1 - t` and rounded toward `b`, so
/// `t == 0` gives `a` and `t == SCALE` gives `b` exactly.
pub open spec fn lerp_spec(a: int, b: int, t: int) -> int {
    b + trunc_div((a - b) * (SCALE - t), SCALE as int)
}

/// Interpolates between two coordinates; see `lerp_spec`.
pub fn lerp(a: i64, b: i64, t: i64) -> (r: i64)
    requires
        -WORLD_LIMIT <= a <= WORLD_LIMIT,
        -WORLD_LIMIT <= b <= WORLD_LIMIT,
        -16 * SCALE <= t <= 16 * SCALE,
    ensures
        r == lerp_spec(a as int, b as int, t as int),
        0 <= t <= SCALE && a <= b ==> a <= r <= b,
        0 <= t <= SCALE && b <= a ==> b <= r <= a,
{
    proof {
        if 0 <= t <= SCALE {
            lemma_lerp_toward(a as int, b as int, t as int, 0);
            lemma_lerp_ends(a as int, b as int);
        }
    }
    let gap: i64 = a - b;
    let keep: i64 = SCALE - t;
    proof {
        assert(-0x4_0000_0000_0000_0000int <= gap * keep <= 0x4_0000_0000_0000_0000int)
            by (nonlinear_arith)
            requires
                -2_199_023_255_552 <= gap <= 2_199_023_255_552,
                -15_000_000 <= keep <= 17_000_000,
        ;
        lemma_trunc_div_bounds(gap * keep, SCALE as int);
        assert(-0x4_0000_0000_0000_0000int / (SCALE as int) <= trunc_div(gap * keep, SCALE as int)
            <= 0x4_0000_0000_0000_0000int / (SCALE as int)) by {
            lemma_trunc_div_monotone(gap * keep, 0x4_0000_0000_0000_0000int, SCALE as int);
            lemma_trunc_div_monotone(-0x4_0000_0000_0000_0000int, gap * keep, SCALE as int);
        }
    }
    b + mul_div(gap, keep, SCALE)
}

/// `a` times the factor `f` (in millionths, within `[-1, 1]`), rounded
/// toward zero; the result is no larger than `a`.
pub fn scale_by(a: i64, f: i64) -> (r: i64)
    requires
        -WORLD_LIMIT <= a <= WORLD_LIMIT,
        -SCALE <= f <= SCALE,
    ensures
        r == trunc_div(a * f, SCALE as int),
        a >= 0 ==> -a <= r <= a,
        a <= 0 ==> a <= r <= -a,
{
    proof {
        let n = a * f;
        assert(-a * SCALE <= n <= a * SCALE || a * SCALE <= n <= -a * SCALE) by (nonlinear_arith)
            requires
                n == a * f,
                -1_000_000 <= f <= 1_000_000,
                SCALE == 1_000_000,
        ;
        lemma_trunc_div_bounds(n, SCALE as int);
        lemma_trunc_div_monotone(n, if a >= 0 { a * SCALE } else { -a * SCALE }, SCALE as int);
        lemma_trunc_div_monotone(if a >= 0 { -a * SCALE } else { a * SCALE }, n, SCALE as int);
        assert(trunc_div(a * SCALE, SCALE as int) == a) by {
            if a >= 0 {
                vstd::arithmetic::div_mod::lemma_fundamental_div_mod_converse(
                    a * SCALE,
                    SCALE as int,
                    a as int,
                    0,
                );
            } else {
                vstd::arithmetic::div_mod::lemma_fundamental_div_mod_converse(
                    -a * SCALE,
                    SCALE as int,
                    -a,
                    0,
                );
            }
        }
        assert(trunc_div(-a * SCALE, SCALE as int) == -a) by {
            if a <= 0 {
                vstd::arithmetic::div_mod::lemma_fundamental_div_mod_converse(
                    -a * SCALE,
                    SCALE as int,
                    -a,
                    0,
                );
            } else {
                vstd::arithmetic::div_mod::lemma_fundamental_div_mod_converse(
                    a * SCALE,
                    SCALE as int,
                    a as int,
                    0,
                );
            }
        }
    }
    mul_div(a, f, SCALE)
}

/// A larger factor leaves the interpolation nearer its target, on the same
/// side as the start, as long as the factor does not pass one.
pub proof fn lemma_lerp_toward(a: int, b: int, t1: int, t2: int)
    requires
        t2 <= t1 <= SCALE,
    ensures
        a >= b ==> b <= lerp_spec(a, b, t1) <= lerp_spec(a, b, t2),
        a <= b ==> lerp_spec(a, b, t2) <= lerp_spec(a, b, t1) <= b,
{
    let k1 = (a - b) * (SCALE - t1);
    let k2 = (a - b) * (SCALE - t2);
    if a >= b {
        assert(0 <= k1 <= k2) by (nonlinear_arith)
            requires
                k1 == (a - b) * (SCALE - t1),
                k2 == (a - b) * (SCALE - t2),
                a >= b,
                t2 <= t1 <= SCALE,
        ;
        lemma_trunc_div_bounds(k1, SCALE as int);
    } else {
        assert(k2 <= k1 <= 0) by (nonlinear_arith)
            requires
                k1 == (a - b) * (SCALE - t1),
                k2 == (a - b) * (SCALE - t2),
                a < b,
                t2 <= t1 <= SCALE,
        ;
        lemma_trunc_div_bounds(k1, SCALE as int);
    }
    lemma_trunc_div_monotone(if a >= b { k1 } else { k2 }, if a >= b { k2 } else { k1 }, SCALE as int);
}

/// A point or a displacement in world space, each coordinate in millionths
/// of a world unit.
#[derive(Clone, Copy, Debug, PartialEq, Eq, Structural)]
pub struct Vec3 {
    pub x: i64,
    pub y: i64,
    pub z: i64,
}

impl Vec3 {
    /// Every coordinate lies within `lim` of zero.
    pub open spec fn within(self, lim: int) -> bool {
        &&& -lim <= self.x <= lim
        &&& -lim <= self.y <= lim
        &&& -lim <= self.z <= lim
    }

    /// The squared length, in squared steps.
    pub open spec fn length_squared(self) -> int {
        self.x * self.x + self.y * self.y + self.z * self.z
    }

    pub fn new(x: i64, y: i64, z: i64) -> (r: Vec3)
        ensures
            r.x == x,
            r.y == y,
            r.z == z,
    {
        Vec3 { x, y, z }
    }

    pub fn zero() -> (r: Vec3)
        ensures
            r == (Vec3 { x: 0, y: 0, z: 0 }),
    {
        Vec3 { x: 0, y: 0, z: 0 }
    }

    /// Coordinate-wise sum.
    pub fn plus(self, o: Vec3) -> (r: Vec3)
        requires
            self.within(WORLD_LIMIT as int) || o.within(WORLD_LIMIT as int),
            self.within(4 * WORLD_LIMIT) && o.within(4 * WORLD_LIMIT),
        ensures
            r.x == self.x + o.x,
            r.y == self.y + o.y,
            r.z == self.z + o.z,
    {
        Vec3 { x: self.x + o.x, y: self.y + o.y, z: self.z + o.z }
    }

    /// Coordinate-wise difference.
    pub fn minus(self, o: Vec3) -> (r: Vec3)
        requires
            self.within(4 * WORLD_LIMIT) && o.within(4 * WORLD_LIMIT),
        ensures
            r.x == self.x - o.x,
            r.y == self.y - o.y,
            r.z == self.z - o.z,
    {
        Vec3 { x: self.x - o.x, y: self.y - o.y, z: self.z - o.z }
    }

    /// Coordinate-wise interpolation toward `o`; see `lerp_spec`.
    pub fn lerp(self, o: Vec3, t: i64) -> (r: Vec3)
        requires
            self.within(WORLD_LIMIT as int),
            o.within(WORLD_LIMIT as int),
            -16 * SCALE <= t <= 16 * SCALE,
        ensures
            r.x == lerp_spec(self.x as int, o.x as int, t as int),
            r.y == lerp_spec(self.y as int, o.y as int, t as int),
            r.z == lerp_spec(self.z as int, o.z as int, t as int),
    {
        Vec3 { x: lerp(self.x, o.x, t), y: lerp(self.y, o.y, t), z: lerp(self.z, o.z, t) }
    }
}

} // verus!
