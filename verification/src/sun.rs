//! The position of the sun from a Julian Day: its ecliptic longitude and
//! the equation of time, by a short periodic series that is good to about
//! a hundredth of a degree.
//!
//! The series is summed in whole numbers.  Angles are microdegrees, the
//! time from the epoch J2000 is counted in picocenturies, millionths of a
//! millionth of a Julian century.  Sines and arc tangents are not computed
//! here: the caller hands in a sine, which takes an angle in microdegrees
//! from 0° up to 360° and gives the sine in billionths, and an arc tangent
//! of two arguments, which takes an ordinate and an abscissa in billionths
//! and gives the angle of their direction in microdegrees.

use vstd::prelude::*;
use crate::euclid::{div_euclid_i128, lemma_floor_div_bounds, rem_euclid_i128};
use crate::jieqi::FULL_CIRCLE;
use crate::solar::{SolarPosition, MICROS_PER_MICRODEGREE};
use crate::term_search::{angular_residual, angular_residual_spec};

verus! {

/// The sine of a right angle, as the sines are scaled: a billion.
pub const SINE_SCALE: i64 = 1_000_000_000;

/// Julian Day 2451545.0, the epoch J2000, in microseconds.
pub const J2000_JD: i64 = 211_813_488_000_000_000;

/// A right angle, in microdegrees.
pub const RIGHT_ANGLE: i64 = 90_000_000;

/// The sine can be called at every angle.
pub open spec fn sine_total<S: Fn(i64) -> i64>(sin: S) -> bool {
    forall|angle: i64| call_requires(sin, (angle,))
}

/// The sine gives values between minus one and one.
pub open spec fn sine_bounded<S: Fn(i64) -> i64>(sin: S) -> bool {
    forall|angle: i64, value: i64|
        call_ensures(sin, (angle,), value) ==> -SINE_SCALE <= value <= SINE_SCALE
}

/// The sine gives one value at each angle.
pub open spec fn sine_deterministic<S: Fn(i64) -> i64>(sin: S) -> bool {
    forall|angle: i64, a: i64, b: i64|
        call_ensures(sin, (angle,), a) && call_ensures(sin, (angle,), b) ==> a == b
}

/// The arc tangent can be called for every direction.
pub open spec fn arc_total<A: Fn(i64, i64) -> i64>(atan2: A) -> bool {
    forall|y: i64, x: i64| call_requires(atan2, (y, x))
}

/// The arc tangent gives one angle for each direction.
pub open spec fn arc_deterministic<A: Fn(i64, i64) -> i64>(atan2: A) -> bool {
    forall|y: i64, x: i64, a: i64, b: i64|
        call_ensures(atan2, (y, x), a) && call_ensures(atan2, (y, x), b) ==> a == b
}

/// The sine of an angle, in billionths; the angle is taken round the
/// circle first.
pub open spec fn sine_of<S: Fn(i64) -> i64>(sin: S, angle: int) -> int {
    let turned = (angle % (FULL_CIRCLE as int)) as i64;
    (choose|value: i64| call_ensures(sin, (turned,), value)) as int
}

/// The cosine of an angle: the sine of the angle a quarter turn on.
pub open spec fn cosine_of<S: Fn(i64) -> i64>(sin: S, angle: int) -> int {
    sine_of(sin, angle + RIGHT_ANGLE)
}

/// The angle of the direction with ordinate `y` and abscissa `x`, taken
/// round the circle.
pub open spec fn arc_of<A: Fn(i64, i64) -> i64>(atan2: A, y: int, x: int) -> int {
    let ordinate = y as i64;
    let abscissa = x as i64;
    (choose|angle: i64| call_ensures(atan2, (ordinate, abscissa), angle)) as int % (
    FULL_CIRCLE as int)
}

/// The time from J2000 to the Julian Day `jd`, in picocenturies.
pub open spec fn centuries_spec(jd: int) -> int {
    ((jd - J2000_JD) * 25) / 78894
}

/// The mean longitude of the sun, on the circle:
/// 280.46646° + 36000.76983° T + 0.0003032° T².
pub open spec fn mean_longitude_spec(t: int) -> int {
    (280_466_460 + (36_000_769_830 * t) / 1_000_000_000_000 + (3032 * t * t)
        / 10_000_000_000_000_000_000_000_000) % (FULL_CIRCLE as int)
}

/// The mean anomaly of the sun, on the circle:
/// 357.52911° + 35999.05029° T − 0.0001537° T².
pub open spec fn mean_anomaly_spec(t: int) -> int {
    (357_529_110 + (35_999_050_290 * t) / 1_000_000_000_000 - (1537 * t * t)
        / 10_000_000_000_000_000_000_000_000) % (FULL_CIRCLE as int)
}

/// The equation of the centre: three terms in the sines of the mean
/// anomaly, of twice and of three times the anomaly, with the amplitudes
/// 1.914602° − 0.004817° T − 0.000014° T², 0.019993° − 0.000101° T and
/// 0.000289°.
pub open spec fn equation_of_center_spec<S: Fn(i64) -> i64>(sin: S, t: int) -> int {
    let m = mean_anomaly_spec(t);
    let first = 1_914_602 - (4817 * t) / 1_000_000_000_000 - (14 * t * t)
        / 1_000_000_000_000_000_000_000_000;
    let second = 19_993 - (101 * t) / 1_000_000_000_000;
    (first * sine_of(sin, m) + second * sine_of(sin, 2 * m) + 289 * sine_of(sin, 3 * m)) / (
    SINE_SCALE as int)
}

/// The true longitude of the sun, on the circle: the mean longitude and
/// the equation of the centre.
pub open spec fn true_longitude_spec<S: Fn(i64) -> i64>(sin: S, t: int) -> int {
    (mean_longitude_spec(t) + equation_of_center_spec(sin, t)) % (FULL_CIRCLE as int)
}

/// The mean obliquity of the ecliptic: 23.439291° − 0.0130042° T.
pub open spec fn obliquity_spec(t: int) -> int {
    23_439_291 - (130_042 * t) / 10_000_000_000_000
}

/// The right ascension of the sun, on the circle: the angle of the
/// direction whose ordinate is the sine of the longitude times the cosine
/// of the obliquity and whose abscissa is the cosine of the longitude.
pub open spec fn right_ascension_spec<S: Fn(i64) -> i64, A: Fn(i64, i64) -> i64>(
    sin: S,
    atan2: A,
    t: int,
) -> int {
    let lambda = true_longitude_spec(sin, t);
    let y = (cosine_of(sin, obliquity_spec(t)) * sine_of(sin, lambda)) / (SINE_SCALE as int);
    let x = cosine_of(sin, lambda);
    arc_of(atan2, y, x)
}

/// The position of the sun at the Julian Day `jd`: its true longitude,
/// and for the equation of time what the mean longitude is ahead of the
/// right ascension, taken the short way round the circle and counted at
/// four minutes to the degree.
pub open spec fn solar_position_spec<S: Fn(i64) -> i64, A: Fn(i64, i64) -> i64>(
    sin: S,
    atan2: A,
    jd: int,
) -> SolarPosition {
    let t = centuries_spec(jd);
    SolarPosition {
        ecliptic_longitude: true_longitude_spec(sin, t) as i64,
        equation_of_time: (angular_residual_spec(
            mean_longitude_spec(t),
            right_ascension_spec(sin, atan2, t),
        ) * MICROS_PER_MICRODEGREE) as i64,
    }
}

/// The product of two bounded numbers is bounded by the product of the
/// bounds.
proof fn lemma_product_bound(a: int, b: int, bound_a: int, bound_b: int)
    requires
        -bound_a <= a <= bound_a,
        -bound_b <= b <= bound_b,
    ensures
        -(bound_a * bound_b) <= a * b <= bound_a * bound_b,
{
    assert(-(bound_a * bound_b) <= a * b <= bound_a * bound_b) by (nonlinear_arith)
        requires
            -bound_a <= a <= bound_a,
            -bound_b <= b <= bound_b,
    ;
}

/// Calls the sine at an angle taken round the circle.
fn sine<S: Fn(i64) -> i64>(sin: &S, angle: i128) -> (value: i64)
    requires
        sine_total(*sin),
        sine_bounded(*sin),
    ensures
        -SINE_SCALE <= value <= SINE_SCALE,
        sine_deterministic(*sin) ==> value == sine_of(*sin, angle as int),
{
    let turned: i64 = rem_euclid_i128(angle, 360_000_000) as i64;
    sin(turned)
}

/// The times from J2000 that the Julian Days in microseconds reach.
pub open spec fn centuries_in_range(t: int) -> bool {
    -3_000_000_000_000_000 <= t <= 3_000_000_000_000_000
}

/// The time from J2000 to a Julian Day, in picocenturies.
pub fn centuries(jd: i64) -> (t: i128)
    ensures
        t == centuries_spec(jd as int),
        centuries_in_range(t as int),
{
    proof {
        lemma_floor_div_bounds((jd - J2000_JD) * 25, 78894);
    }
    div_euclid_i128(((jd as i128) - 211_813_488_000_000_000) * 25, 78894)
}

/// The mean longitude of the sun at the time `t` from J2000.
pub fn mean_longitude(t: i128) -> (l0: i64)
    requires
        centuries_in_range(t as int),
    ensures
        l0 == mean_longitude_spec(t as int),
        0 <= l0 < FULL_CIRCLE,
{
    proof {
        lemma_product_bound(t as int, t as int, 3_000_000_000_000_000, 3_000_000_000_000_000);
        lemma_floor_div_bounds(36_000_769_830 * t, 1_000_000_000_000);
        lemma_floor_div_bounds(3032 * (t * t), 10_000_000_000_000_000_000_000_000);
        assert(3032 * t * t == 3032 * (t * t)) by (nonlinear_arith);
    }
    let linear: i128 = div_euclid_i128(36_000_769_830 * t, 1_000_000_000_000);
    let square: i128 = div_euclid_i128(3032 * (t * t), 10_000_000_000_000_000_000_000_000);
    rem_euclid_i128(280_466_460 + linear + square, 360_000_000) as i64
}

/// The mean anomaly of the sun at the time `t` from J2000.
pub fn mean_anomaly(t: i128) -> (m: i64)
    requires
        centuries_in_range(t as int),
    ensures
        m == mean_anomaly_spec(t as int),
        0 <= m < FULL_CIRCLE,
{
    proof {
        lemma_product_bound(t as int, t as int, 3_000_000_000_000_000, 3_000_000_000_000_000);
        lemma_floor_div_bounds(35_999_050_290 * t, 1_000_000_000_000);
        lemma_floor_div_bounds(1537 * (t * t), 10_000_000_000_000_000_000_000_000);
        assert(1537 * t * t == 1537 * (t * t)) by (nonlinear_arith);
    }
    let linear: i128 = div_euclid_i128(35_999_050_290 * t, 1_000_000_000_000);
    let square: i128 = div_euclid_i128(1537 * (t * t), 10_000_000_000_000_000_000_000_000);
    rem_euclid_i128(357_529_110 + linear - square, 360_000_000) as i64
}

/// The equation of the centre at the time `t` from J2000.
pub fn equation_of_center<S: Fn(i64) -> i64>(sin: &S, t: i128) -> (c: i64)
    requires
        centuries_in_range(t as int),
        sine_total(*sin),
        sine_bounded(*sin),
    ensures
        -300_000_000 <= c <= 300_000_000,
        sine_deterministic(*sin) ==> c == equation_of_center_spec(*sin, t as int),
{
    let m: i64 = mean_anomaly(t);
    proof {
        lemma_product_bound(t as int, t as int, 3_000_000_000_000_000, 3_000_000_000_000_000);
        lemma_floor_div_bounds(4817 * t, 1_000_000_000_000);
        lemma_floor_div_bounds(14 * (t * t), 1_000_000_000_000_000_000_000_000);
        lemma_floor_div_bounds(101 * t, 1_000_000_000_000);
        assert(14 * t * t == 14 * (t * t)) by (nonlinear_arith);
    }
    let first: i128 = 1_914_602 - div_euclid_i128(4817 * t, 1_000_000_000_000) - div_euclid_i128(
        14 * (t * t),
        1_000_000_000_000_000_000_000_000,
    );
    let second: i128 = 19_993 - div_euclid_i128(101 * t, 1_000_000_000_000);
    let sin_m: i64 = sine(sin, m as i128);
    let sin_2m: i64 = sine(sin, 2 * (m as i128));
    let sin_3m: i64 = sine(sin, 3 * (m as i128));
    proof {
        lemma_product_bound(first as int, sin_m as int, 200_000_000, 1_000_000_000);
        lemma_product_bound(second as int, sin_2m as int, 400_000, 1_000_000_000);
        lemma_floor_div_bounds(
            first * sin_m + second * sin_2m + 289 * sin_3m,
            1_000_000_000,
        );
    }
    div_euclid_i128(
        first * (sin_m as i128) + second * (sin_2m as i128) + 289 * (sin_3m as i128),
        1_000_000_000,
    ) as i64
}

/// The true longitude of the sun at the time `t` from J2000.
pub fn true_longitude<S: Fn(i64) -> i64>(sin: &S, t: i128) -> (lambda: i64)
    requires
        centuries_in_range(t as int),
        sine_total(*sin),
        sine_bounded(*sin),
    ensures
        0 <= lambda < FULL_CIRCLE,
        sine_deterministic(*sin) ==> lambda == true_longitude_spec(*sin, t as int),
{
    let l0: i64 = mean_longitude(t);
    let c: i64 = equation_of_center(sin, t);
    rem_euclid_i128((l0 as i128) + (c as i128), 360_000_000) as i64
}

/// The mean obliquity of the ecliptic at the time `t` from J2000.
pub fn obliquity(t: i128) -> (epsilon: i64)
    requires
        centuries_in_range(t as int),
    ensures
        epsilon == obliquity_spec(t as int),
        -100_000_000 <= epsilon <= 100_000_000,
{
    proof {
        lemma_floor_div_bounds(130_042 * t, 10_000_000_000_000);
    }
    (23_439_291 - div_euclid_i128(130_042 * t, 10_000_000_000_000)) as i64
}

/// The right ascension of the sun at the time `t` from J2000.
pub fn right_ascension<S: Fn(i64) -> i64, A: Fn(i64, i64) -> i64>(sin: &S, atan2: &A, t: i128) -> (alpha:
    i64)
    requires
        centuries_in_range(t as int),
        sine_total(*sin),
        sine_bounded(*sin),
        arc_total(*atan2),
    ensures
        0 <= alpha < FULL_CIRCLE,
        sine_deterministic(*sin) && arc_deterministic(*atan2) ==> alpha == right_ascension_spec(
            *sin,
            *atan2,
            t as int,
        ),
{
    let lambda: i64 = true_longitude(sin, t);
    let epsilon: i64 = obliquity(t);
    let cos_epsilon: i64 = sine(sin, (epsilon as i128) + 90_000_000);
    let sin_lon: i64 = sine(sin, lambda as i128);
    let cos_lon: i64 = sine(sin, (lambda as i128) + 90_000_000);
    proof {
        lemma_product_bound(cos_epsilon as int, sin_lon as int, 1_000_000_000, 1_000_000_000);
        lemma_floor_div_bounds(cos_epsilon * sin_lon, 1_000_000_000);
    }
    let y: i64 = div_euclid_i128((cos_epsilon as i128) * (sin_lon as i128), 1_000_000_000) as i64;
    let angle: i64 = atan2(y, cos_lon);
    rem_euclid_i128(angle as i128, 360_000_000) as i64
}

/// Computes the position of the sun at a Julian Day.
///
/// `jd` is in microseconds.  `sin` gives the sine, in billionths, of an
/// angle in microdegrees from 0° up to 360°; `atan2` gives the angle, in
/// microdegrees, of the direction with the given ordinate and abscissa.
pub fn solar_position<S: Fn(i64) -> i64, A: Fn(i64, i64) -> i64>(jd: i64, sin: &S, atan2: &A) -> (position:
    SolarPosition)
    requires
        sine_total(*sin),
        sine_bounded(*sin),
        arc_total(*atan2),
    ensures
        position.wf(),
        -180 * 240_000_000 < position.equation_of_time <= 180 * 240_000_000,
        sine_deterministic(*sin) && arc_deterministic(*atan2) ==> position == solar_position_spec(
            *sin,
            *atan2,
            jd as int,
        ),
{
    let t: i128 = centuries(jd);
    let l0: i64 = mean_longitude(t);
    let sun_lon: i64 = true_longitude(sin, t);
    let alpha: i64 = right_ascension(sin, atan2, t);
    let eot: i64 = angular_residual(l0, alpha);
    SolarPosition { ecliptic_longitude: sun_lon, equation_of_time: eot * 240 }
}

/// The longitude of the sun by the shorter series of the almanac, on the
/// circle: the mean longitude 280.46646° + 36000.76983° T and two terms in
/// the sines of the mean anomaly 357.52911° + 35999.05029° T and of twice
/// the anomaly, with the amplitudes 1.914602° − 0.004817° T and 0.019993°.
pub open spec fn solar_lambda_spec<S: Fn(i64) -> i64>(sin: S, jd: int) -> int {
    let t = centuries_spec(jd);
    let l0 = 280_466_460 + (36_000_769_830 * t) / 1_000_000_000_000;
    let m = 357_529_110 + (35_999_050_290 * t) / 1_000_000_000_000;
    let first = 1_914_602 - (4817 * t) / 1_000_000_000_000;
    let c = (first * sine_of(sin, m) + 19_993 * sine_of(sin, 2 * m)) / (SINE_SCALE as int);
    (l0 + c) % (FULL_CIRCLE as int)
}

/// Computes the longitude of the sun at a Julian Day by the shorter
/// series of the almanac.
pub fn solar_lambda<S: Fn(i64) -> i64>(jd: i64, sin: &S) -> (lambda: i64)
    requires
        sine_total(*sin),
        sine_bounded(*sin),
    ensures
        0 <= lambda < FULL_CIRCLE,
        sine_deterministic(*sin) ==> lambda == solar_lambda_spec(*sin, jd as int),
{
    let t: i128 = centuries(jd);
    proof {
        lemma_floor_div_bounds(36_000_769_830 * t, 1_000_000_000_000);
        lemma_floor_div_bounds(35_999_050_290 * t, 1_000_000_000_000);
        lemma_floor_div_bounds(4817 * t, 1_000_000_000_000);
    }
    let l0: i128 = 280_466_460 + div_euclid_i128(36_000_769_830 * t, 1_000_000_000_000);
    let m: i128 = 357_529_110 + div_euclid_i128(35_999_050_290 * t, 1_000_000_000_000);
    let first: i128 = 1_914_602 - div_euclid_i128(4817 * t, 1_000_000_000_000);
    let sin_m: i64 = sine(sin, m);
    let sin_2m: i64 = sine(sin, 2 * m);
    proof {
        lemma_product_bound(first as int, sin_m as int, 200_000_000, 1_000_000_000);
        lemma_floor_div_bounds(first * sin_m + 19_993 * sin_2m, 1_000_000_000);
    }
    let c: i128 = div_euclid_i128(
        first * (sin_m as i128) + 19_993 * (sin_2m as i128),
        1_000_000_000,
    );
    rem_euclid_i128(l0 + c, 360_000_000) as i64
}

/// The equation of time on day `day_of_year` of the year by Spencer's
/// formula, in microseconds: 9.87 minutes times the sine of 2 B less 7.67
/// minutes times the sine of B + 78.7°, where B is 360° times the days
/// from day 81, over 365.
pub open spec fn equation_of_time_spencer_spec<S: Fn(i64) -> i64>(sin: S, day_of_year: int) -> int {
    let b = (360_000_000 * (day_of_year - 81)) / 365;
    (592_200_000 * sine_of(sin, 2 * b) - 460_200_000 * sine_of(sin, b + 78_700_000)) / (
    SINE_SCALE as int)
}

/// Computes the equation of time on a day of the year by Spencer's
/// formula, good to about half a minute.
pub fn equation_of_time_spencer<S: Fn(i64) -> i64>(day_of_year: u32, sin: &S) -> (eot: i64)
    requires
        sine_total(*sin),
        sine_bounded(*sin),
    ensures
        -1_052_400_000 <= eot <= 1_052_400_000,
        sine_deterministic(*sin) ==> eot == equation_of_time_spencer_spec(
            *sin,
            day_of_year as int,
        ),
{
    proof {
        lemma_floor_div_bounds(360_000_000 * (day_of_year - 81), 365);
    }
    let b: i128 = div_euclid_i128(360_000_000 * ((day_of_year as i128) - 81), 365);
    let sin_2b: i64 = sine(sin, 2 * b);
    let sin_shifted: i64 = sine(sin, b + 78_700_000);
    proof {
        lemma_floor_div_bounds(592_200_000 * sin_2b - 460_200_000 * sin_shifted, 1_000_000_000);
    }
    div_euclid_i128(
        592_200_000 * (sin_2b as i128) - 460_200_000 * (sin_shifted as i128),
        1_000_000_000,
    ) as i64
}

/// The longitude of the sun at a Julian Day, for the sine `sin`: the
/// true longitude of [`solar_position`].
pub fn solar_longitude<S: Fn(i64) -> i64>(jd: i64, sin: &S) -> (lambda: i64)
    requires
        sine_total(*sin),
        sine_bounded(*sin),
    ensures
        0 <= lambda < FULL_CIRCLE,
        sine_deterministic(*sin) ==> lambda == true_longitude_spec(
            *sin,
            centuries_spec(jd as int),
        ),
{
    true_longitude(sin, centuries(jd))
}

} // verus!
