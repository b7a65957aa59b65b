use volleyball_sim::math::abs_mag;
use volleyball_sim::math::clamp_i64;
use volleyball_sim::math::clamp_speed;
use volleyball_sim::math::isqrt;
use volleyball_sim::math::scale_ratio_i64;
use volleyball_sim::math::scaled_cos;
use volleyball_sim::math::scaled_sin;
use volleyball_sim::math::Vec2;

#[test]
fn isqrt_exact_values() {
    assert_eq!(isqrt(0), 0);
    assert_eq!(isqrt(1), 1);
    assert_eq!(isqrt(2), 1);
    assert_eq!(isqrt(3), 1);
    assert_eq!(isqrt(4), 2);
    assert_eq!(isqrt(8), 2);
    assert_eq!(isqrt(9), 3);
    assert_eq!(isqrt(7_289_999), 2699);
    assert_eq!(isqrt(7_290_000), 2700);
    assert_eq!(isqrt(7_290_001), 2700);
    assert_eq!(isqrt(u64::MAX), 4294967295);
}

#[test]
fn clamp_speed_rescales_over_limit() {
    // |(3000, 4000)| = 5000 > 2700: each component scales by 2700/5000.
    let v = clamp_speed(Vec2 { x: 3000, y: 4000 });
    assert_eq!(v, Vec2 { x: 1620, y: 2160 });
    let v = clamp_speed(Vec2 { x: -3000, y: -4000 });
    assert_eq!(v, Vec2 { x: -1620, y: -2160 });
    let v = clamp_speed(Vec2 { x: -3000, y: 4000 });
    assert_eq!(v, Vec2 { x: -1620, y: 2160 });
}

#[test]
fn clamp_speed_keeps_slow_vectors() {
    let v = Vec2 { x: 100, y: -200 };
    assert_eq!(clamp_speed(v), v);
    let v = Vec2 { x: 2700, y: 0 };
    assert_eq!(clamp_speed(v), v);
}

#[test]
fn scale_ratio_rounds_toward_zero_symmetrically() {
    assert_eq!(scale_ratio_i64(7, 4, 5), 5);
    assert_eq!(scale_ratio_i64(-7, 4, 5), -5);
    assert_eq!(scale_ratio_i64(10, 4, 5), 8);
    assert_eq!(scale_ratio_i64(-10, 4, 5), -8);
    assert_eq!(scale_ratio_i64(5, 1, 2), 2);
    assert_eq!(scale_ratio_i64(-5, 1, 2), -2);
}

#[test]
fn clamp_and_abs_helpers() {
    assert_eq!(clamp_i64(5, -1, 3), 3);
    assert_eq!(clamp_i64(-5, -1, 3), -1);
    assert_eq!(clamp_i64(2, -1, 3), 2);
    assert_eq!(abs_mag(-7), 7);
    assert_eq!(abs_mag(7), 7);
    assert_eq!(abs_mag(0), 0);
}

#[test]
fn quantized_trig_spot_values() {
    // At zero offset: sin 0, cos 1 (times the scale argument).
    assert_eq!(scaled_sin(0, 3240), 0);
    assert_eq!(scaled_cos(0, 3240), 3240);
    // At half offset (22.5 degrees): sin 0.3824, cos 0.9239.
    assert_eq!(scaled_sin(80, 3240), 1239);
    assert_eq!(scaled_cos(80, 3240), 2993);
    // At full offset (45 degrees): both near 0.7071 * 3240 = 2291.
    assert_eq!(scaled_sin(160, 3240), 2291);
    assert_eq!(scaled_cos(160, 3240), 2292);
}
