//! Integer helpers for the fixed-point simulation: clamping, magnitudes,
//! ratio scaling, an exact integer square root, the ball's speed clamp and
//! the quantized sine/cosine used for the player bounce.

use vstd::prelude::*;
use vstd::arithmetic::div_mod::*;
use vstd::arithmetic::mul::*;
use crate::consts::MAX_BALL_SPEED;

verus! {

/// A two-dimensional vector in fixed-point world coordinates.
#[derive(Clone, Copy, Debug, PartialEq, Eq, Structural)]
pub struct Vec2 {
    pub x: i64,
    pub y: i64,
}

impl Vec2 {
    /// Squared length of the vector, in squared fixed-point subunits.
    pub open spec fn speed_sq(self) -> int {
        self.x * self.x + self.y * self.y
    }

    pub fn new(x: i64, y: i64) -> (r: Vec2)
        ensures
            r == (Vec2 { x, y }),
    {
        Vec2 { x, y }
    }
}

/// The value `v` pulled into the interval `[lo, hi]`.
pub open spec fn clamp_i(v: int, lo: int, hi: int) -> int {
    if v < lo {
        lo
    } else if v > hi {
        hi
    } else {
        v
    }
}

pub fn clamp_i64(v: i64, lo: i64, hi: i64) -> (r: i64)
    requires
        lo <= hi,
    ensures
        r == clamp_i(v as int, lo as int, hi as int),
{
    if v < lo {
        lo
    } else if v > hi {
        hi
    } else {
        v
    }
}

/// Absolute value of a mathematical integer.
pub open spec fn iabs(v: int) -> int {
    if v < 0 {
        -v
    } else {
        v
    }
}

/// Magnitude of `v` as an unsigned integer.
pub fn abs_mag(v: i64) -> (r: u64)
    requires
        v > i64::MIN,
    ensures
        r == iabs(v as int),
{
    if v >= 0 {
        v as u64
    } else {
        (-v) as u64
    }
}

/// `v` scaled by `num / den`, rounding the magnitude toward zero, so that
/// the result is symmetric in the sign of `v`.
pub open spec fn scale_ratio(v: int, num: int, den: int) -> int {
    if v >= 0 {
        v * num / den
    } else {
        -((-v) * num / den)
    }
}

pub fn scale_ratio_i64(v: i64, num: u64, den: u64) -> (r: i64)
    requires
        0 < den,
        num <= 10_000,
        -1_000_000_000 <= v <= 1_000_000_000,
    ensures
        r == scale_ratio(v as int, num as int, den as int),
        iabs(r as int) == iabs(v as int) * num / (den as int),
{
    let m = abs_mag(v);
    proof {
        assert(m * num <= 1_000_000_000 * 10_000) by (nonlinear_arith)
            requires
                m <= 1_000_000_000,
                num <= 10_000,
        ;
        lemma_div_nonincreasing((m * num) as int, den as int);
        lemma_div_pos_is_pos((m * num) as int, den as int);
    }
    let scaled = m * num / den;
    if v >= 0 {
        scaled as i64
    } else {
        -(scaled as i64)
    }
}

/// Scaling by a ratio with `num <= den` never grows the magnitude.
pub proof fn lemma_scale_ratio_shrinks(v: int, num: int, den: int)
    requires
        0 <= num <= den,
        0 < den,
    ensures
        iabs(scale_ratio(v, num, den)) <= iabs(v),
{
    let m = iabs(v);
    lemma_mul_inequality(num, den, m);
    lemma_mul_is_commutative(num, m);
    lemma_mul_is_commutative(den, m);
    lemma_div_is_ordered(m * num, m * den, den);
    lemma_div_multiples_vanish(m, den);
    lemma_mul_is_commutative(m, den);
    lemma_div_pos_is_pos(m * num, den);
}

/// Largest integer whose square does not exceed `n`.
pub open spec fn sqrt_floor(n: nat) -> nat
    decreases n,
{
    if n == 0 {
        0
    } else {
        let r = sqrt_floor((n - 1) as nat);
        if (r + 1) * (r + 1) <= n {
            r + 1
        } else {
            r
        }
    }
}

pub proof fn lemma_sqrt_floor_bounds(n: nat)
    ensures
        sqrt_floor(n) * sqrt_floor(n) <= n,
        n < (sqrt_floor(n) + 1) * (sqrt_floor(n) + 1),
    decreases n,
{
    if n == 0 {
        assert(sqrt_floor(0) == 0);
        assert(n < (sqrt_floor(n) + 1) * (sqrt_floor(n) + 1)) by (nonlinear_arith)
            requires
                n == 0,
                sqrt_floor(n) == 0,
        ;
    } else {
        lemma_sqrt_floor_bounds((n - 1) as nat);
        let r = sqrt_floor((n - 1) as nat);
        assert(r * r <= n - 1);
        assert(n - 1 < (r + 1) * (r + 1));
        if (r + 1) * (r + 1) <= n {
            assert(sqrt_floor(n) == r + 1);
            assert((r + 1) * (r + 1) < (r + 2) * (r + 2)) by (nonlinear_arith);
            assert(n < (sqrt_floor(n) + 1) * (sqrt_floor(n) + 1));
        } else {
            assert(sqrt_floor(n) == r);
            assert(n < (sqrt_floor(n) + 1) * (sqrt_floor(n) + 1));
        }
    }
}

pub proof fn lemma_sqrt_floor_unique(n: nat, r: nat)
    requires
        r * r <= n,
        n < (r + 1) * (r + 1),
    ensures
        r == sqrt_floor(n),
{
    lemma_sqrt_floor_bounds(n);
    let s = sqrt_floor(n);
    if r < s {
        assert((r + 1) * (r + 1) <= s * s) by (nonlinear_arith)
            requires
                r + 1 <= s,
        ;
    } else if s < r {
        assert((s + 1) * (s + 1) <= r * r) by (nonlinear_arith)
            requires
                s + 1 <= r,
        ;
    }
}

/// Exact integer square root by binary search.
pub fn isqrt(n: u64) -> (r: u64)
    ensures
        r == sqrt_floor(n as nat),
{
    let mut lo: u64 = 0;
    let mut hi: u64 = 4294967295;
    while lo < hi
        invariant
            lo <= hi,
            hi <= 4294967295,
            lo * lo <= n,
            n < (hi + 1) * (hi + 1),
        decreases hi - lo,
    {
        let ghost_bound: u64 = 4294967295;
        proof {
            lemma_mul_upper_bound(((lo + hi + 1) / 2) as int, ghost_bound as int,
                ((lo + hi + 1) / 2) as int, ghost_bound as int);
        }
        let mid = (lo + hi + 1) / 2;
        if mid * mid <= n {
            lo = mid;
        } else {
            hi = mid - 1;
        }
    }
    proof {
        lemma_sqrt_floor_unique(n as nat, lo as nat);
    }
    lo
}

/// Smallest integer whose square is at least `n`.
pub open spec fn sqrt_ceil(n: nat) -> nat {
    let r = sqrt_floor(n);
    if r * r == n {
        r
    } else {
        r + 1
    }
}

pub proof fn lemma_sqrt_ceil_bound(n: nat)
    ensures
        n <= sqrt_ceil(n) * sqrt_ceil(n),
        n > 0 ==> sqrt_ceil(n) > 0,
{
    lemma_sqrt_floor_bounds(n);
}

/// Scaling both components of a vector by `m / s` keeps the squared length
/// within `m * m` whenever the original squared length is within `s * s`.
pub proof fn lemma_rescaled_speed_bounded(a: int, b: int, s: int, m: int)
    requires
        0 <= a,
        0 <= b,
        0 < s,
        0 <= m,
        a * a + b * b <= s * s,
    ensures
        (a * m / s) * (a * m / s) + (b * m / s) * (b * m / s) <= m * m,
{
    let p = a * m / s;
    let q = b * m / s;
    lemma_mul_nonnegative(a, m);
    lemma_mul_nonnegative(b, m);
    lemma_div_pos_is_pos(a * m, s);
    lemma_div_pos_is_pos(b * m, s);
    lemma_fundamental_div_mod(a * m, s);
    lemma_remainder_lower(a * m, s);
    assert(s * p <= a * m);
    lemma_fundamental_div_mod(b * m, s);
    lemma_remainder_lower(b * m, s);
    assert(s * q <= b * m);
    assert(p * p + q * q <= m * m) by (nonlinear_arith)
        requires
            0 <= p,
            0 <= q,
            0 < s,
            0 <= a,
            0 <= b,
            0 <= m,
            s * p <= a * m,
            s * q <= b * m,
            a * a + b * b <= s * s,
    ;
}

/// The square of a value equals the square of its magnitude.
pub proof fn lemma_abs_sq(v: int)
    ensures
        iabs(v) * iabs(v) == v * v,
{
    assert(iabs(v) * iabs(v) == v * v) by (nonlinear_arith);
}

/// The ball's velocity, rescaled onto the speed limit when it exceeds it:
/// a vector whose squared length is over `MAX_BALL_SPEED * MAX_BALL_SPEED`
/// is scaled by `MAX_BALL_SPEED / ceil(|v|)`, which preserves its direction
/// at the engine's quantization precision and never leaves the limit
/// exceeded.
pub open spec fn spec_clamp_speed(v: Vec2) -> Vec2 {
    if v.speed_sq() <= MAX_BALL_SPEED * MAX_BALL_SPEED {
        v
    } else {
        let s = sqrt_ceil(v.speed_sq() as nat) as int;
        Vec2 {
            x: scale_ratio(v.x as int, MAX_BALL_SPEED as int, s) as i64,
            y: scale_ratio(v.y as int, MAX_BALL_SPEED as int, s) as i64,
        }
    }
}

pub fn clamp_speed(v: Vec2) -> (r: Vec2)
    requires
        iabs(v.x as int) <= 100_000,
        iabs(v.y as int) <= 100_000,
    ensures
        r == spec_clamp_speed(v),
        r.speed_sq() <= MAX_BALL_SPEED * MAX_BALL_SPEED,
        v.speed_sq() <= MAX_BALL_SPEED * MAX_BALL_SPEED ==> r == v,
{
    let mx = abs_mag(v.x);
    let my = abs_mag(v.y);
    proof {
        assert(mx * mx <= 100_000 * 100_000 && my * my <= 100_000 * 100_000)
            by (nonlinear_arith)
            requires
                mx <= 100_000,
                my <= 100_000,
        ;
        lemma_abs_sq(v.x as int);
        lemma_abs_sq(v.y as int);
        assert(MAX_BALL_SPEED * MAX_BALL_SPEED == 7_290_000) by (nonlinear_arith);
    }
    let sq = mx * mx + my * my;
    if sq <= 7_290_000 {
        v
    } else {
        proof {
            lemma_sqrt_floor_bounds(sq as nat);
        }
        let sf = isqrt(sq);
        proof {
            assert(sf <= 200_000) by (nonlinear_arith)
                requires
                    sf * sf <= sq,
                    sq <= 20_000_000_000,
                    0 <= sf,
            ;
        }
        let s = if sf * sf == sq { sf } else { sf + 1 };
        proof {
            assert(s == sqrt_ceil(sq as nat));
            lemma_sqrt_ceil_bound(sq as nat);
            assert(2700 * 2700 < sq) by (nonlinear_arith)
                requires
                    sq > 7_290_000,
            ;
            assert(s > 2700) by (nonlinear_arith)
                requires
                    2700 * 2700 < sq,
                    sq <= s * s,
                    0 <= s,
            ;
            assert(mx * 2700 <= 270_000_000) by (nonlinear_arith)
                requires
                    mx <= 100_000,
            ;
            assert(my * 2700 <= 270_000_000) by (nonlinear_arith)
                requires
                    my <= 100_000,
            ;
            lemma_rescaled_speed_bounded(mx as int, my as int, s as int, 2700);
            lemma_div_pos_is_pos((mx * 2700) as int, s as int);
            lemma_div_pos_is_pos((my * 2700) as int, s as int);
        }
        let nx = mx * 2700 / s;
        let ny = my * 2700 / s;
        let rx: i64 = if v.x >= 0 {
            nx as i64
        } else {
            -(nx as i64)
        };
        let ry: i64 = if v.y >= 0 {
            ny as i64
        } else {
            -(ny as i64)
        };
        proof {
            assert(rx * rx == nx * nx && ry * ry == ny * ny) by (nonlinear_arith)
                requires
                    rx == nx || rx == -(nx as int),
                    ry == ny || ry == -(ny as int),
            ;
        }
        Vec2 { x: rx, y: ry }
    }
}

/// Each component of a vector within the speed limit is itself within
/// the limit.
pub proof fn lemma_speed_components(v: Vec2)
    requires
        v.speed_sq() <= MAX_BALL_SPEED * MAX_BALL_SPEED,
    ensures
        -MAX_BALL_SPEED <= v.x <= MAX_BALL_SPEED,
        -MAX_BALL_SPEED <= v.y <= MAX_BALL_SPEED,
{
    let x = v.x as int;
    let y = v.y as int;
    assert(-2700 <= x <= 2700 && -2700 <= y <= 2700) by (nonlinear_arith)
        requires
            x * x + y * y <= 2700 * 2700,
    ;
}

/// The speed clamp never leaves the squared speed above the limit.
pub proof fn lemma_spec_clamp_speed_bound(v: Vec2)
    ensures
        spec_clamp_speed(v).speed_sq() <= MAX_BALL_SPEED * MAX_BALL_SPEED,
        iabs(spec_clamp_speed(v).x as int) <= iabs(v.x as int),
        iabs(spec_clamp_speed(v).y as int) <= iabs(v.y as int),
{
    if v.speed_sq() <= MAX_BALL_SPEED * MAX_BALL_SPEED {
    } else {
        let n = v.speed_sq() as nat;
        lemma_sqrt_ceil_bound(n);
        let s = sqrt_ceil(n) as int;
        let ax = iabs(v.x as int);
        let ay = iabs(v.y as int);
        lemma_abs_sq(v.x as int);
        lemma_abs_sq(v.y as int);
        assert(ax * ax + ay * ay == n);
        assert(0 < s);
        assert(ax <= s && ay <= s) by (nonlinear_arith)
            requires
                ax * ax + ay * ay <= s * s,
                0 <= ax,
                0 <= ay,
                0 <= s,
        ;
        lemma_mul_inequality(ax, s, 2700);
        lemma_mul_inequality(ay, s, 2700);
        lemma_div_is_ordered(ax * 2700, s * 2700, s);
        lemma_div_is_ordered(ay * 2700, s * 2700, s);
        lemma_div_multiples_vanish(2700, s);
        lemma_mul_is_commutative(2700, s);
        lemma_div_pos_is_pos(ax * 2700, s);
        lemma_div_pos_is_pos(ay * 2700, s);
        let p = ax * 2700 / s;
        let q = ay * 2700 / s;
        assert(p <= 2700 && q <= 2700);
        lemma_rescaled_speed_bounded(ax, ay, s, 2700);
        let r = spec_clamp_speed(v);
        assert(r.x as int == scale_ratio(v.x as int, 2700, s));
        assert(r.y as int == scale_ratio(v.y as int, 2700, s));
        assert(iabs(r.x as int) == p && iabs(r.y as int) == q);
        assert(r.speed_sq() == p * p + q * q) by (nonlinear_arith)
            requires
                iabs(r.x as int) == p,
                iabs(r.y as int) == q,
                r.speed_sq() == r.x * r.x + r.y * r.y,
        ;
        assert(2700 * 2700 < n) by (nonlinear_arith)
            requires
                n > 7_290_000,
        ;
        assert(2700 < s) by (nonlinear_arith)
            requires
                2700 * 2700 < n,
                n <= s * s,
                0 <= s,
        ;
        lemma_fundamental_div_mod(ax * 2700, s);
        lemma_remainder_lower(ax * 2700, s);
        lemma_fundamental_div_mod(ay * 2700, s);
        lemma_remainder_lower(ay * 2700, s);
        assert(p <= ax && q <= ay) by (nonlinear_arith)
            requires
                s * p <= ax * 2700,
                s * q <= ay * 2700,
                2700 < s,
                0 <= p,
                0 <= q,
                0 <= ax,
                0 <= ay,
        ;
    }
}

/// The bounce offset magnitude `m` (0 to 160, standing for 0.0 to 1.0)
/// taken to an angle of `m / 160 * 45` degrees, at scale 2^20.
pub open spec fn trig_angle(m: int) -> int {
    m * 5147
}

/// Square of the angle, at scale 2^20.
pub open spec fn trig_sq(m: int) -> int {
    trig_angle(m) * trig_angle(m) / 1048576
}

/// Cube of the angle, at scale 2^20.
pub open spec fn trig_cube(m: int) -> int {
    trig_sq(m) * trig_angle(m) / 1048576
}

/// Fourth power of the angle, at scale 2^20.
pub open spec fn trig_fourth(m: int) -> int {
    trig_sq(m) * trig_sq(m) / 1048576
}

/// Fifth power of the angle, at scale 2^20.
pub open spec fn trig_fifth(m: int) -> int {
    trig_cube(m) * trig_sq(m) / 1048576
}

/// Quantized sine of the bounce angle, at scale 2^20: the integer
/// evaluation of `x - x^3/6 + x^5/120` on the angle `x`.
pub open spec fn spec_sin(m: int) -> int {
    trig_angle(m) - trig_cube(m) / 6 + trig_fifth(m) / 120
}

/// Quantized cosine of the bounce angle, at scale 2^20: the integer
/// evaluation of `1 - x^2/2 + x^4/24` on the angle `x`.
pub open spec fn spec_cos(m: int) -> int {
    1048576 - trig_sq(m) / 2 + trig_fourth(m) / 24
}

/// `k` scaled by the quantized sine of the bounce angle for offset `m`.
pub open spec fn spec_scaled_sin(m: int, k: int) -> int {
    spec_sin(m) * k / 1048576
}

/// `k` scaled by the quantized cosine of the bounce angle for offset `m`.
pub open spec fn spec_scaled_cos(m: int, k: int) -> int {
    spec_cos(m) * k / 1048576
}

/// The quantized sine and cosine scalings stay within [0, k].
pub proof fn lemma_scaled_trig_bounds(m: int, k: int)
    requires
        0 <= m <= 160,
        0 <= k <= 100_000,
    ensures
        0 <= spec_scaled_sin(m, k) <= k,
        0 <= spec_scaled_cos(m, k) <= k,
{
    let t1 = trig_angle(m);
    assert(0 <= t1 <= 823520);
    lemma_mul_nonnegative(t1, t1);
    assert(t1 * t1 <= 823520 * 823520) by (nonlinear_arith)
        requires
            0 <= t1 <= 823520,
    ;
    lemma_div_is_ordered(t1 * t1, (823520 * 823520) as int, 1048576);
    lemma_div_pos_is_pos(t1 * t1, 1048576);
    let t2 = trig_sq(m);
    assert(0 <= t2 <= 1048576);
    lemma_mul_nonnegative(t2, t1);
    assert(t2 * t1 <= 1048576 * t1) by (nonlinear_arith)
        requires
            t2 <= 1048576,
            0 <= t1,
    ;
    lemma_div_is_ordered(t2 * t1, 1048576 * t1, 1048576);
    lemma_div_multiples_vanish(t1, 1048576);
    lemma_div_pos_is_pos(t2 * t1, 1048576);
    let t3 = trig_cube(m);
    assert(0 <= t3 <= t1);
    lemma_mul_nonnegative(t3, t2);
    assert(t3 * t2 <= 1048576 * t3) by (nonlinear_arith)
        requires
            t2 <= 1048576,
            0 <= t3,
    ;
    lemma_div_is_ordered(t3 * t2, 1048576 * t3, 1048576);
    lemma_div_multiples_vanish(t3, 1048576);
    lemma_div_pos_is_pos(t3 * t2, 1048576);
    let t5 = trig_fifth(m);
    assert(0 <= t5 <= t3);
    lemma_mul_nonnegative(t2, t2);
    assert(t2 * t2 <= 1048576 * t2) by (nonlinear_arith)
        requires
            t2 <= 1048576,
            0 <= t2,
    ;
    lemma_div_is_ordered(t2 * t2, 1048576 * t2, 1048576);
    lemma_div_multiples_vanish(t2, 1048576);
    lemma_div_pos_is_pos(t2 * t2, 1048576);
    let t4 = trig_fourth(m);
    assert(0 <= t4 <= t2);
    lemma_div_is_ordered(t5, t3, 120);
    lemma_div_is_ordered_by_denominator(t3, 6, 120);
    lemma_div_nonincreasing(t3, 6);
    lemma_div_pos_is_pos(t3, 6);
    lemma_div_pos_is_pos(t5, 120);
    let s = spec_sin(m);
    assert(0 <= s <= 1048576);
    lemma_div_is_ordered(t4, t2, 24);
    lemma_div_is_ordered_by_denominator(t2, 2, 24);
    lemma_div_pos_is_pos(t2, 2);
    lemma_div_pos_is_pos(t4, 24);
    lemma_div_nonincreasing(t2, 2);
    let c = spec_cos(m);
    assert(0 <= c <= 1048576);
    lemma_mul_nonnegative(s, k);
    assert(s * k <= 1048576 * k) by (nonlinear_arith)
        requires
            s <= 1048576,
            0 <= k,
    ;
    lemma_div_is_ordered(s * k, 1048576 * k, 1048576);
    lemma_div_multiples_vanish(k, 1048576);
    lemma_div_pos_is_pos(s * k, 1048576);
    lemma_mul_nonnegative(c, k);
    assert(c * k <= 1048576 * k) by (nonlinear_arith)
        requires
            c <= 1048576,
            0 <= k,
    ;
    lemma_div_is_ordered(c * k, 1048576 * k, 1048576);
    lemma_div_pos_is_pos(c * k, 1048576);
}

pub fn scaled_sin(m: u64, k: u64) -> (r: u64)
    requires
        m <= 160,
        k <= 100_000,
    ensures
        r == spec_scaled_sin(m as int, k as int),
        r <= k,
{
    let t1 = m * 5147;
    proof {
        assert(t1 * t1 <= 823520 * 823520) by (nonlinear_arith)
            requires
                t1 <= 823520,
        ;
        lemma_div_is_ordered((t1 * t1) as int, (823520 * 823520) as int, 1048576);
    }
    let t2 = t1 * t1 / 1048576;
    proof {
        assert(t2 * t1 <= 1048576 * t1) by (nonlinear_arith)
            requires
                t2 <= 1048576,
                0 <= t1,
        ;
        lemma_div_is_ordered((t2 * t1) as int, 1048576 * (t1 as int), 1048576);
        lemma_div_multiples_vanish(t1 as int, 1048576);
    }
    let t3 = t2 * t1 / 1048576;
    proof {
        assert(t3 * t2 <= 1048576 * t3) by (nonlinear_arith)
            requires
                t2 <= 1048576,
                0 <= t3,
        ;
        lemma_div_is_ordered((t3 * t2) as int, 1048576 * (t3 as int), 1048576);
        lemma_div_multiples_vanish(t3 as int, 1048576);
        lemma_div_is_ordered_by_denominator(t3 as int, 6, 120);
        lemma_div_nonincreasing(t3 as int, 6);
    }
    let t5 = t3 * t2 / 1048576;
    let s = t1 - t3 / 6 + t5 / 120;
    proof {
        lemma_div_is_ordered((t5 / 120) as int, (t3 / 120) as int, 1);
        lemma_div_is_ordered(t5 as int, t3 as int, 120);
        assert(s <= 1048576);
        assert(s * k <= 1048576 * k) by (nonlinear_arith)
            requires
                s <= 1048576,
                0 <= k,
        ;
        lemma_div_is_ordered((s * k) as int, 1048576 * (k as int), 1048576);
        lemma_div_multiples_vanish(k as int, 1048576);
    }
    let r = s * k / 1048576;
    r
}

pub fn scaled_cos(m: u64, k: u64) -> (r: u64)
    requires
        m <= 160,
        k <= 100_000,
    ensures
        r == spec_scaled_cos(m as int, k as int),
        r <= k,
{
    let t1 = m * 5147;
    proof {
        assert(t1 * t1 <= 823520 * 823520) by (nonlinear_arith)
            requires
                t1 <= 823520,
        ;
        lemma_div_is_ordered((t1 * t1) as int, (823520 * 823520) as int, 1048576);
    }
    let t2 = t1 * t1 / 1048576;
    proof {
        assert(t2 * t2 <= 1048576 * t2) by (nonlinear_arith)
            requires
                t2 <= 1048576,
                0 <= t2,
        ;
        lemma_div_is_ordered((t2 * t2) as int, 1048576 * (t2 as int), 1048576);
        lemma_div_multiples_vanish(t2 as int, 1048576);
        lemma_div_is_ordered_by_denominator(t2 as int, 2, 24);
    }
    let t4 = t2 * t2 / 1048576;
    proof {
        lemma_div_is_ordered(t4 as int, t2 as int, 24);
    }
    let c = 1048576 - t2 / 2 + t4 / 24;
    proof {
        assert(c <= 1048576);
        assert(c * k <= 1048576 * k) by (nonlinear_arith)
            requires
                c <= 1048576,
                0 <= k,
        ;
        lemma_div_is_ordered((c * k) as int, 1048576 * (k as int), 1048576);
        lemma_div_multiples_vanish(k as int, 1048576);
    }
    let r = c * k / 1048576;
    r
}

} // verus!
