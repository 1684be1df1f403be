//! Mapping of an angle to a PWM duty value.
//!
//! Both mappings are linear in the angle and computed in integers with
//! truncating division. An angle is meant to lie in `0..=180`; larger
//! values of a `u8` are scaled by the same formula and are not clamped.

use vstd::prelude::*;

verus! {

/// The largest angle of the intended domain.
pub const MAX_ANGLE: u8 = 180;

/// The intensity for `angle` on a channel whose largest duty is `max_duty`:
/// `angle * max_duty / 180`, rounded down.
pub open spec fn spec_angle_to_intensity(angle: int, max_duty: int) -> int {
    angle * max_duty / 180
}

/// The lower end of the servo band: 2.5% of `max_duty`, rounded down.
pub open spec fn spec_servo_min_duty(max_duty: int) -> int {
    max_duty / 40
}

/// The upper end of the servo band: 12.5% of `max_duty`, rounded down.
pub open spec fn spec_servo_upper_duty(max_duty: int) -> int {
    max_duty / 8
}

/// The servo duty for `angle`: the linear interpolation between the two
/// ends of the servo band, rounded down.
pub open spec fn spec_angle_to_servo_duty(angle: int, max_duty: int) -> int {
    spec_servo_min_duty(max_duty) + angle * (spec_servo_upper_duty(max_duty) - spec_servo_min_duty(
        max_duty,
    )) / 180
}

/// Whether the intensity of every angle that a `u8` can hold fits in a `u32`
/// on a channel whose largest duty is `max_duty`.
pub open spec fn intensity_representable(max_duty: int) -> bool {
    spec_angle_to_intensity(255, max_duty) <= u32::MAX
}

/// An angle inside the intended domain maps to an intensity inside
/// `0..=max_duty`, which the two ends of the domain reach exactly.
pub proof fn lemma_intensity_range(angle: int, max_duty: int)
    requires
        0 <= angle <= 180,
        0 <= max_duty,
    ensures
        0 <= spec_angle_to_intensity(angle, max_duty) <= max_duty,
        spec_angle_to_intensity(0, max_duty) == 0,
        spec_angle_to_intensity(180, max_duty) == max_duty,
{
    assert(0 <= angle * max_duty <= 180 * max_duty) by (nonlinear_arith)
        requires
            0 <= angle <= 180,
            0 <= max_duty,
    ;
    assert(0 * max_duty == 0);
}

/// The intensity grows with the angle.
pub proof fn lemma_intensity_monotonic(a: int, b: int, max_duty: int)
    requires
        0 <= a <= b,
        0 <= max_duty,
    ensures
        spec_angle_to_intensity(a, max_duty) <= spec_angle_to_intensity(b, max_duty),
{
    assert(a * max_duty <= b * max_duty) by (nonlinear_arith)
        requires
            0 <= a <= b,
            0 <= max_duty,
    ;
}

/// The ends of the servo band are the largest integers that are no more than
/// a fortieth and an eighth of `max_duty`.
pub proof fn lemma_servo_band_is_floor(max_duty: int)
    requires
        0 <= max_duty,
    ensures
        40 * spec_servo_min_duty(max_duty) <= max_duty < 40 * (spec_servo_min_duty(max_duty) + 1),
        8 * spec_servo_upper_duty(max_duty) <= max_duty < 8 * (spec_servo_upper_duty(max_duty)
            + 1),
{
}

/// An angle inside the intended domain maps to a servo duty inside the servo
/// band, whose two ends the ends of the domain reach exactly; the band lies
/// inside `0..=max_duty`.
pub proof fn lemma_servo_duty_range(angle: int, max_duty: int)
    requires
        0 <= angle <= 180,
        0 <= max_duty,
    ensures
        spec_servo_min_duty(max_duty) <= spec_angle_to_servo_duty(angle, max_duty)
            <= spec_servo_upper_duty(max_duty) <= max_duty,
        0 <= spec_servo_min_duty(max_duty),
        spec_angle_to_servo_duty(0, max_duty) == spec_servo_min_duty(max_duty),
        spec_angle_to_servo_duty(180, max_duty) == spec_servo_upper_duty(max_duty),
{
    let range = spec_servo_upper_duty(max_duty) - spec_servo_min_duty(max_duty);
    assert(0 <= range);
    assert(0 <= angle * range <= 180 * range) by (nonlinear_arith)
        requires
            0 <= angle <= 180,
            0 <= range,
    ;
    assert(0 * range == 0);
}

/// Scales `angle` linearly to the full duty range of a colour channel.
///
/// The result is `angle * max_duty / 180`, rounded down. An angle up to 180
/// gives a value in `0..=max_duty`. For a larger angle the call needs the
/// value to fit in a `u32`, which it does for every angle where
/// `intensity_representable(max_duty)`.
pub fn angle_to_intensity(angle: u8, max_duty: u32) -> (duty: u32)
    requires
        angle <= MAX_ANGLE || spec_angle_to_intensity(angle as int, max_duty as int) <= u32::MAX,
    ensures
        duty == spec_angle_to_intensity(angle as int, max_duty as int),
        angle <= MAX_ANGLE ==> duty <= max_duty,
        angle == 0 ==> duty == 0,
        angle == MAX_ANGLE ==> duty == max_duty,
{
    proof {
        assert(0 <= angle * max_duty <= 255 * 0xffff_ffff) by (nonlinear_arith)
            requires
                0 <= angle <= 255,
                0 <= max_duty <= 0xffff_ffff,
        ;
        if angle <= 180 {
            lemma_intensity_range(angle as int, max_duty as int);
        }
    }
    let scaled: u64 = (angle as u64) * (max_duty as u64) / 180;
    scaled as u32
}

/// Scales `angle` to a colour intensity where the result fits in a `u32`,
/// and reports with `None` where it does not.
pub fn checked_angle_to_intensity(angle: u8, max_duty: u32) -> (duty: Option<u32>)
    ensures
        duty == if spec_angle_to_intensity(angle as int, max_duty as int) <= u32::MAX {
            Some(spec_angle_to_intensity(angle as int, max_duty as int) as u32)
        } else {
            None
        },
        angle <= MAX_ANGLE ==> duty is Some,
{
    proof {
        assert(0 <= angle * max_duty <= 255 * 0xffff_ffff) by (nonlinear_arith)
            requires
                0 <= angle <= 255,
                0 <= max_duty <= 0xffff_ffff,
        ;
        if angle <= 180 {
            lemma_intensity_range(angle as int, max_duty as int);
        }
    }
    let scaled: u64 = (angle as u64) * (max_duty as u64) / 180;
    if scaled <= 0xffff_ffff {
        Some(scaled as u32)
    } else {
        None
    }
}

/// Maps `angle` to the duty of a servo channel: the linear interpolation
/// between 2.5% and 12.5% of `max_duty`.
///
/// The result is `max_duty / 40 + angle * (max_duty / 8 - max_duty / 40) / 180`
/// with each division rounded down. It fits in a `u32` for every angle.
pub fn map_angle_to_duty(angle: u8, max_duty: u32) -> (duty: u32)
    ensures
        duty == spec_angle_to_servo_duty(angle as int, max_duty as int),
        angle <= MAX_ANGLE ==> spec_servo_min_duty(max_duty as int) <= duty
            <= spec_servo_upper_duty(max_duty as int),
        angle <= MAX_ANGLE ==> duty <= max_duty,
        angle == 0 ==> duty == spec_servo_min_duty(max_duty as int),
        angle == MAX_ANGLE ==> duty == spec_servo_upper_duty(max_duty as int),
{
    let min_duty: u32 = max_duty / 40;
    let upper_duty: u32 = max_duty / 8;
    let duty_range: u32 = upper_duty - min_duty;
    proof {
        assert(0 <= angle * duty_range <= 255 * duty_range) by (nonlinear_arith)
            requires
                0 <= angle <= 255,
                0 <= duty_range,
        ;
        if angle <= 180 {
            lemma_servo_duty_range(angle as int, max_duty as int);
        }
    }
    let offset: u64 = (angle as u64) * (duty_range as u64) / 180;
    min_duty + (offset as u32)
}

} // verus!
