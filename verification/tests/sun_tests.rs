use chrono::{TimeZone, Utc};
use huangji_core::solar::utc_to_jd;
use huangji_core::sun::{
    centuries, equation_of_center, equation_of_time_spencer, mean_anomaly, mean_longitude, obliquity, right_ascension,
    solar_lambda, solar_longitude, solar_position, true_longitude, J2000_JD,
};

/// Sine in billionths of an angle in microdegrees.
fn sine(angle: i64) -> i64 {
    ((angle as f64 / 1_000_000.0).to_radians().sin() * 1_000_000_000.0).round() as i64
}

/// Angle in microdegrees of the direction with ordinate `y` and abscissa `x`.
fn arc_tangent(y: i64, x: i64) -> i64 {
    ((y as f64).atan2(x as f64).to_degrees() * 1_000_000.0).round() as i64
}

/// Longitude in degrees and equation of time in minutes, in floating point.
fn reference(jd: f64) -> (f64, f64) {
    let t = (jd - 2451545.0) / 36525.0;
    let l0 = (280.46646 + 36000.76983 * t + 0.0003032 * t * t).rem_euclid(360.0);
    let m = (357.52911 + 35999.05029 * t - 0.0001537 * t * t).rem_euclid(360.0);
    let m_rad = m.to_radians();
    let c = (1.914602 - 0.004817 * t - 0.000014 * t * t) * m_rad.sin()
        + (0.019993 - 0.000101 * t) * (2.0 * m_rad).sin()
        + 0.000289 * (3.0 * m_rad).sin();
    let sun_lon = (l0 + c).rem_euclid(360.0);
    let epsilon = 23.439291 - 0.0130042 * t;
    let y = epsilon.to_radians().cos() * sun_lon.to_radians().sin();
    let x = sun_lon.to_radians().cos();
    let alpha = y.atan2(x).to_degrees().rem_euclid(360.0);
    let mut eot = l0 - alpha;
    if eot > 180.0 {
        eot -= 360.0;
    }
    if eot < -180.0 {
        eot += 360.0;
    }
    (sun_lon, eot * 4.0)
}

fn reference_lambda(jd: f64) -> f64 {
    let d_jc = (jd - 2451545.0) / 36525.0;
    let l0 = 280.46646 + 36000.76983 * d_jc;
    let m = 357.52911 + 35999.05029 * d_jc;
    let m_rad = m.to_radians();
    let c = (1.914602 - 0.004817 * d_jc) * m_rad.sin() + 0.019993 * (2.0 * m_rad).sin();
    (l0 + c).rem_euclid(360.0)
}

fn circle_distance(a: i64, b: i64) -> i64 {
    let d = (a - b).rem_euclid(360_000_000);
    d.min(360_000_000 - d)
}

#[test]
fn test_solar_longitude_vernal_equinox() {
    let dt = Utc.with_ymd_and_hms(2024, 3, 20, 3, 6, 0).unwrap();
    let jd = utc_to_jd(dt.timestamp());
    let solar = solar_position(jd, &sine, &arc_tangent);
    assert!(solar.ecliptic_longitude < 1_000_000 || solar.ecliptic_longitude > 359_000_000);
}

#[test]
fn test_solar_longitude_lichun() {
    let dt = Utc.with_ymd_and_hms(2025, 2, 3, 22, 10, 0).unwrap();
    let jd = utc_to_jd(dt.timestamp());
    let solar = solar_position(jd, &sine, &arc_tangent);
    assert!((solar.ecliptic_longitude - 315_000_000).abs() < 1_000_000);
}

#[test]
fn test_equation_of_time() {
    for day in [1, 45, 105, 166, 227, 288, 349] {
        let eot = equation_of_time_spencer(day, &sine);
        assert!(eot.abs() < 20 * 60_000_000);
    }
}

#[test]
fn spencer_through_the_year() {
    for day in 1u32..=366 {
        let b = (360.0 * (day as f64 - 81.0) / 365.0).to_radians();
        let minutes = 9.87 * (2.0 * b).sin() - 7.67 * (b + 78.7_f64.to_radians()).sin();
        let expected = (minutes * 60_000_000.0).round() as i64;
        let eot = equation_of_time_spencer(day, &sine);
        assert!((eot - expected).abs() <= 100, "day {}", day);
    }
    let one = |_: i64| -> i64 { 1_000_000_000 };
    assert_eq!(equation_of_time_spencer(81, &one), 592_200_000 - 460_200_000);
    let zero = |_: i64| -> i64 { 0 };
    assert_eq!(equation_of_time_spencer(200, &zero), 0);
}

#[test]
fn polynomials_at_the_epoch_and_a_century_on() {
    assert_eq!(centuries(J2000_JD), 0);
    assert_eq!(mean_longitude(0), 280_466_460);
    assert_eq!(mean_anomaly(0), 357_529_110);
    assert_eq!(obliquity(0), 23_439_291);
    let century = 1_000_000_000_000i128;
    assert_eq!(centuries(J2000_JD + 36_525 * 86_400_000_000), century);
    assert_eq!(mean_longitude(century), 281_236_593);
    assert_eq!(mean_anomaly(century), 356_579_247);
    assert_eq!(obliquity(century), 23_426_287);
    assert_eq!(centuries(J2000_JD - 36_525 * 86_400_000_000), -century);
    assert_eq!(mean_longitude(-century), 279_696_933);
    assert_eq!(obliquity(-century), 23_452_296);
    // a tenth of a second is about 32 picocenturies
    assert_eq!(centuries(J2000_JD + 100_000), 31);
    assert_eq!(centuries(J2000_JD - 1), -1);
}

#[test]
fn series_with_given_sines() {
    let zero = |_: i64| -> i64 { 0 };
    let one = |_: i64| -> i64 { 1_000_000_000 };
    let east = |_: i64, _: i64| -> i64 { 0 };
    let west = |_: i64, _: i64| -> i64 { -170_000_000 };
    // without sines the true longitude is the mean longitude
    assert_eq!(equation_of_center(&zero, 0), 0);
    assert_eq!(true_longitude(&zero, 0), 280_466_460);
    assert_eq!(solar_lambda(J2000_JD, &zero), 280_466_460);
    // with every sine at one the amplitudes add up
    assert_eq!(equation_of_center(&one, 0), 1_914_602 + 19_993 + 289);
    assert_eq!(true_longitude(&one, 0), 280_466_460 + 1_934_884);
    assert_eq!(solar_lambda(J2000_JD, &one), 280_466_460 + 1_914_602 + 19_993);
    // the right ascension is taken round the circle
    assert_eq!(right_ascension(&zero, &east, 0), 0);
    assert_eq!(right_ascension(&zero, &west, 0), 190_000_000);
    // the equation of time is what the mean longitude is ahead, the short way round
    let p = solar_position(J2000_JD, &zero, &east);
    assert_eq!(p.ecliptic_longitude, 280_466_460);
    assert_eq!(p.equation_of_time, (280_466_460 - 360_000_000) * 240);
    let p = solar_position(J2000_JD, &zero, &west);
    assert_eq!(p.equation_of_time, (280_466_460 - 190_000_000) * 240);
}

#[test]
fn series_agree_with_floating_point() {
    // every 37.3 days from 1900 to 2100
    let mut jd = 2_415_020.5;
    while jd < 2_488_070.0 {
        let micros = (jd * 86_400_000_000.0_f64).round() as i64;
        let exact_jd = micros as f64 / 86_400_000_000.0;
        let (lon, eot) = reference(exact_jd);
        let p = solar_position(micros, &sine, &arc_tangent);
        let lon_micro = (lon * 1_000_000.0).round() as i64;
        assert!(circle_distance(p.ecliptic_longitude, lon_micro) <= 20, "longitude at {}", jd);
        assert_eq!(solar_longitude(micros, &sine), p.ecliptic_longitude);
        let eot_micro = (eot * 60_000_000.0).round() as i64;
        assert!((p.equation_of_time - eot_micro).abs() <= 10_000, "equation of time at {}", jd);
        assert!(p.equation_of_time.abs() < 17 * 60_000_000);
        let lambda = (reference_lambda(exact_jd) * 1_000_000.0).round() as i64;
        assert!(circle_distance(solar_lambda(micros, &sine), lambda) <= 20, "lambda at {}", jd);
        jd += 37.3;
    }
}

#[test]
fn equation_of_time_through_the_year() {
    // early November the sundial is some sixteen minutes ahead, in mid February fourteen behind
    let november = utc_to_jd(Utc.with_ymd_and_hms(2025, 11, 3, 12, 0, 0).unwrap().timestamp());
    let p = solar_position(november, &sine, &arc_tangent);
    assert!(16 * 60_000_000 < p.equation_of_time && p.equation_of_time < 17 * 60_000_000);
    let february = utc_to_jd(Utc.with_ymd_and_hms(2025, 2, 11, 12, 0, 0).unwrap().timestamp());
    let p = solar_position(february, &sine, &arc_tangent);
    assert!(-15 * 60_000_000 < p.equation_of_time && p.equation_of_time < -14 * 60_000_000);
}
