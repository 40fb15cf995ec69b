use chrono::{NaiveDate, TimeZone, Utc};
use huangji_core::ganzhi::{
    bazi_pillars_at, bazi_pillars_from_position, calc_bazi_pillars, calc_day_pillar, calc_hour_pillar, calc_month_pillar,
    calc_year_pillar, dayun_runs_forward, dayun_start_age, get_nayin, DIZHI, TIANGAN,
};
use huangji_core::jieqi::SolarTerm;
use huangji_core::solar::{
    datetime_to_jd, hour_to_dizhi_index, true_solar_hour, true_solar_time, utc_to_jd,
    SolarPosition, DAY, HOUR, MINUTE, SECOND, UNIX_EPOCH_JD,
};

fn udeg(degrees: f64) -> i64 {
    (degrees * 1_000_000.0).round() as i64
}

fn hours(h: f64) -> i64 {
    (h * 3_600_000_000.0).round() as i64
}

fn jd_micros(jd: f64) -> i64 {
    (jd * 86_400_000_000.0).round() as i64
}

/// Longitude of the sun in degrees and equation of time in minutes.
fn solar_position(jd: f64) -> (f64, f64) {
    let t = (jd - 2451545.0) / 36525.0;
    let l0 = (280.46646 + 36000.76983 * t + 0.0003032 * t * t).rem_euclid(360.0);
    let m = (357.52911 + 35999.05029 * t - 0.0001537 * t * t).rem_euclid(360.0);
    let m_rad = m.to_radians();
    let c = (1.914602 - 0.004817 * t - 0.000014 * t * t) * m_rad.sin()
        + (0.019993 - 0.000101 * t) * (2.0 * m_rad).sin()
        + 0.000289 * (3.0 * m_rad).sin();
    let sun_lon = (l0 + c).rem_euclid(360.0);
    let epsilon = 23.439291 - 0.0130042 * t;
    let y = epsilon.to_radians().cos() * sun_lon.to_radians().sin();
    let x = sun_lon.to_radians().cos();
    let alpha = y.atan2(x).to_degrees().rem_euclid(360.0);
    let mut eot = l0 - alpha;
    if eot > 180.0 {
        eot -= 360.0;
    }
    if eot < -180.0 {
        eot += 360.0;
    }
    (sun_lon, eot * 4.0)
}

/// Sine in billionths of an angle in microdegrees.
fn sine(angle: i64) -> i64 {
    ((angle as f64 / 1_000_000.0).to_radians().sin() * 1_000_000_000.0).round() as i64
}

/// Angle in microdegrees of the direction with ordinate `y` and abscissa `x`.
fn arc_tangent(y: i64, x: i64) -> i64 {
    ((y as f64).atan2(x as f64).to_degrees() * 1_000_000.0).round() as i64
}

fn position_at(timestamp: i64) -> SolarPosition {
    let jd = timestamp as f64 / 86400.0 + 2440587.5;
    let (lon, eot) = solar_position(jd);
    SolarPosition {
        ecliptic_longitude: ((lon * 1_000_000.0).floor() as i64).rem_euclid(360_000_000),
        equation_of_time: (eot * 60_000_000.0).round() as i64,
    }
}

#[test]
fn bazi_test_test_day_pillar_1970() {
    let (day_gan_idx, day_zhi_idx) = calc_day_pillar(UNIX_EPOCH_JD, false);
    assert_eq!(TIANGAN[day_gan_idx], "庚", "1970-01-01 天干应为庚");
    assert_eq!(DIZHI[day_zhi_idx], "戌", "1970-01-01 地支应为戌");
}

#[test]
fn ganzhi_test_day_pillar_1970() {
    let jd = jd_micros(2440587.5);
    let (gan, zhi) = calc_day_pillar(jd, false);
    assert_eq!(TIANGAN[gan], "庚", "1970-01-01天干应为庚");
    assert_eq!(DIZHI[zhi], "戌", "1970-01-01地支应为戌");
}

#[test]
fn test_hour_pillar_five_rats() {
    for day_gan_idx in 0..10 {
        let (hour_gan_idx, hour_zhi_idx) = calc_hour_pillar(day_gan_idx, 0);
        assert_eq!(hour_zhi_idx, 0);
        match day_gan_idx {
            0 | 5 => assert_eq!(hour_gan_idx, 0, "甲/己日子时应为甲子"),
            1 | 6 => assert_eq!(hour_gan_idx, 2, "乙/庚日子时应为丙子"),
            2 | 7 => assert_eq!(hour_gan_idx, 4, "丙/辛日子时应为戊子"),
            3 | 8 => assert_eq!(hour_gan_idx, 6, "丁/壬日子时应为庚子"),
            4 | 9 => assert_eq!(hour_gan_idx, 8, "戊/癸日子时应为壬子"),
            _ => {}
        }
    }
}

#[test]
fn test_month_gan_five_tigers() {
    for year_gan_idx in 0..10 {
        let (yin_month_gan_idx, zhi) = calc_month_pillar(year_gan_idx, udeg(315.0));
        assert_eq!(zhi, 2);
        match year_gan_idx {
            0 | 5 => assert_eq!(yin_month_gan_idx, 2, "甲/己年正月应为丙寅"),
            1 | 6 => assert_eq!(yin_month_gan_idx, 4, "乙/庚年正月应为戊寅"),
            2 | 7 => assert_eq!(yin_month_gan_idx, 6, "丙/辛年正月应为庚寅"),
            3 | 8 => assert_eq!(yin_month_gan_idx, 8, "丁/壬年正月应为壬寅"),
            4 | 9 => assert_eq!(yin_month_gan_idx, 0, "戊/癸年正月应为甲寅"),
            _ => {}
        }
    }
}

#[test]
fn test_year_pillar_lichun() {
    // 2025-02-03 12:00 UTC, before Lichun
    let jd_before = 2460710.0;
    let (solar_lon_before, _) = solar_position(jd_before);
    assert_eq!(
        calc_year_pillar(2025, udeg(solar_lon_before)),
        calc_year_pillar(2024, 0),
        "2025年2月3日应该在立春前"
    );

    // 2025-02-05 12:00 UTC, after Lichun
    let jd_after = 2460712.0;
    let (solar_lon_after, _) = solar_position(jd_after);
    assert_eq!(
        calc_year_pillar(2025, udeg(solar_lon_after)),
        calc_year_pillar(2025, 0),
        "2025年2月5日应该在立春后"
    );
}

#[test]
fn test_month_branch_solar_terms() {
    assert_eq!(calc_month_pillar(0, udeg(315.0)).1, 2, "立春315°应为寅月");
    assert_eq!(calc_month_pillar(0, udeg(345.0)).1, 3, "惊蛰345°应为卯月");
    assert_eq!(calc_month_pillar(0, udeg(15.0)).1, 4, "清明15°应为辰月");
    assert_eq!(calc_month_pillar(0, udeg(285.0)).1, 1, "小寒285°应为丑月");
}

#[test]
fn test_year_pillar_after_lichun() {
    let solar_lon = udeg(316.0);
    let (gan, zhi) = calc_year_pillar(2025, solar_lon);
    assert_eq!(TIANGAN[gan], "乙", "立春后年干应为乙");
    assert_eq!(DIZHI[zhi], "巳", "立春后年支应为巳");
}

#[test]
fn test_year_pillar_before_lichun() {
    let solar_lon = udeg(313.0);
    let (gan, zhi) = calc_year_pillar(2025, solar_lon);
    assert_eq!(TIANGAN[gan], "甲", "立春前年干应为甲");
    assert_eq!(DIZHI[zhi], "辰", "立春前年支应为辰");
}

#[test]
fn test_month_pillar_formula() {
    let (_, zhi) = calc_month_pillar(0, udeg(315.0));
    assert_eq!(DIZHI[zhi], "寅", "315°应为寅月");

    let (_, zhi) = calc_month_pillar(0, udeg(345.0));
    assert_eq!(DIZHI[zhi], "卯", "345°应为卯月");

    let (_, zhi) = calc_month_pillar(0, udeg(15.0));
    assert_eq!(DIZHI[zhi], "辰", "15°应为辰月");
}

#[test]
fn test_five_tigers() {
    let (gan, zhi) = calc_month_pillar(0, udeg(315.0));
    assert_eq!(TIANGAN[gan], "丙", "甲年正月天干应为丙");
    assert_eq!(DIZHI[zhi], "寅", "正月地支应为寅");

    let (gan, _) = calc_month_pillar(1, udeg(315.0));
    assert_eq!(TIANGAN[gan], "戊", "乙年正月天干应为戊");
}

#[test]
fn test_five_rats() {
    let (gan, zhi) = calc_hour_pillar(0, 0);
    assert_eq!(TIANGAN[gan], "甲", "甲日子时天干应为甲");
    assert_eq!(DIZHI[zhi], "子", "子时地支应为子");

    let (gan, _) = calc_hour_pillar(1, 0);
    assert_eq!(TIANGAN[gan], "丙", "乙日子时天干应为丙");

    let (gan, _) = calc_hour_pillar(2, 0);
    assert_eq!(TIANGAN[gan], "戊", "丙日子时天干应为戊");
}

#[test]
fn test_hour_to_dizhi() {
    assert_eq!(hour_to_dizhi_index(hours(23.5)), (0, true));
    assert_eq!(hour_to_dizhi_index(hours(0.5)), (0, false));

    assert_eq!(hour_to_dizhi_index(hours(1.5)), (1, false));
    assert_eq!(hour_to_dizhi_index(hours(2.5)), (1, false));

    assert_eq!(hour_to_dizhi_index(hours(12.0)), (6, false));
}

#[test]
fn test_boundary_consistency() {
    let before_lichun = Utc.with_ymd_and_hms(2025, 2, 3, 12, 0, 0).unwrap().timestamp();
    let after_lichun = Utc.with_ymd_and_hms(2025, 2, 5, 12, 0, 0).unwrap().timestamp();

    let pillars_before =
        calc_bazi_pillars(before_lichun, udeg(116.4), &sine, &arc_tangent).unwrap();
    let pillars_after =
        calc_bazi_pillars(after_lichun, udeg(116.4), &sine, &arc_tangent).unwrap();

    assert!(
        pillars_before.solar_longitude < udeg(315.0)
            && pillars_before.solar_longitude >= udeg(270.0),
        "立春前黄经应在 [270, 315) 范围内，实际: {}",
        pillars_before.solar_longitude
    );
    assert!(
        pillars_after.solar_longitude >= udeg(315.0)
            || pillars_after.solar_longitude < udeg(270.0),
        "立春后黄经应 >= 315 或 < 270，实际: {}",
        pillars_after.solar_longitude
    );
    assert_ne!(pillars_before.year.1, pillars_after.year.1, "立春前后年支应该不同");
    assert_eq!(DIZHI[pillars_after.month.1], "寅", "立春后月支应为寅月");
    assert_eq!(DIZHI[pillars_before.month.1], "丑", "立春前月支应为丑月");
}

#[test]
fn test_month_transitions() {
    let test_dates = [
        ("2025-02-15", "寅"),
        ("2025-03-15", "卯"),
        ("2025-04-15", "辰"),
        ("2025-05-15", "巳"),
        ("2025-06-15", "午"),
        ("2025-07-15", "未"),
        ("2025-08-15", "申"),
        ("2025-09-15", "酉"),
        ("2025-10-15", "戌"),
        ("2025-11-15", "亥"),
        ("2025-12-15", "子"),
        ("2026-01-15", "丑"),
    ];

    for (date_str, expected_zhi) in test_dates {
        let dt = NaiveDate::parse_from_str(date_str, "%Y-%m-%d")
            .unwrap()
            .and_hms_opt(12, 0, 0)
            .unwrap();
        let timestamp = Utc.from_utc_datetime(&dt).timestamp();

        let pillars = calc_bazi_pillars(timestamp, udeg(116.4), &sine, &arc_tangent).unwrap();
        let actual_zhi = DIZHI[pillars.month.1];

        assert_eq!(
            actual_zhi, expected_zhi,
            "{} 月支应为 {}, 实际为 {}",
            date_str, expected_zhi, actual_zhi
        );
    }
}

#[test]
fn lichun_threshold_is_hard() {
    assert_eq!(calc_year_pillar(2025, 314_999_999), (0, 4));
    assert_eq!(calc_year_pillar(2025, 315_000_000), (1, 5));
    assert_eq!(calc_year_pillar(2025, 270_000_000), (0, 4));
    assert_eq!(calc_year_pillar(2025, 269_999_999), (1, 5));
    assert_eq!(calc_year_pillar(2025, 0), (1, 5));
    assert_eq!(calc_year_pillar(4, 0), (0, 0));
    assert_eq!(calc_year_pillar(3, 0), (9, 11));
    assert_eq!(calc_year_pillar(-1, 0), (5, 7));
    assert_eq!(calc_year_pillar(1984, 0), (0, 0));
    assert_eq!(calc_year_pillar(i32::MIN, 300_000_000).0 < 10, true);
}

#[test]
fn month_pillars_round_the_year() {
    for k in 0..12usize {
        let lon = ((315 + 30 * k as i64) % 360) * 1_000_000;
        let (gan, zhi) = calc_month_pillar(0, lon);
        assert_eq!(zhi, (k + 2) % 12);
        assert_eq!(gan, (2 + k) % 10);
        assert_eq!(calc_month_pillar(0, lon + 29_999_999).1, (k + 2) % 12);
    }
    assert_eq!(calc_month_pillar(3, udeg(100.0)), (2, 6));
    assert_eq!(calc_month_pillar(0, udeg(-45.0)).1, 2);
}

#[test]
fn day_pillars() {
    assert_eq!(calc_day_pillar(UNIX_EPOCH_JD, false), (6, 10));
    assert_eq!(calc_day_pillar(UNIX_EPOCH_JD, true), (7, 11));
    assert_eq!(calc_day_pillar(UNIX_EPOCH_JD - 1, false), (5, 9));
    assert_eq!(calc_day_pillar(UNIX_EPOCH_JD + DAY - 1, false), (6, 10));
    assert_eq!(calc_day_pillar(UNIX_EPOCH_JD + DAY, false), (7, 11));
    assert_eq!(calc_day_pillar(UNIX_EPOCH_JD + 60 * DAY, false), (6, 10));
    // 2000-01-01 lies 10957 days after the first day of 1970
    assert_eq!(calc_day_pillar(utc_to_jd(946_684_800), false), (3, 11));
    assert_eq!(calc_day_pillar(i64::MIN, false).0 < 10, true);
    assert_eq!(calc_day_pillar(i64::MAX, true).1 < 12, true);
}

#[test]
fn hour_pillars_and_nayin() {
    assert_eq!(calc_hour_pillar(6, 11), (3, 11));
    assert_eq!(calc_hour_pillar(9, 5), (3, 5));
    assert_eq!(calc_hour_pillar(usize::MAX, usize::MAX).1, usize::MAX);
    assert_eq!(get_nayin(0, 0), "海中金");
    assert_eq!(get_nayin(0, 2), "炉中火");
    assert_eq!(get_nayin(1, 1), "涧下水");
    assert_eq!(get_nayin(9, 11), "大海水");
    assert_eq!(get_nayin(5, 0), "海中金");
}

#[test]
fn hour_branches() {
    assert_eq!(hour_to_dizhi_index(0), (0, false));
    assert_eq!(hour_to_dizhi_index(HOUR - 1), (0, false));
    assert_eq!(hour_to_dizhi_index(HOUR), (1, false));
    assert_eq!(hour_to_dizhi_index(3 * HOUR - 1), (1, false));
    assert_eq!(hour_to_dizhi_index(3 * HOUR), (2, false));
    assert_eq!(hour_to_dizhi_index(21 * HOUR), (11, false));
    assert_eq!(hour_to_dizhi_index(23 * HOUR - 1), (11, false));
    assert_eq!(hour_to_dizhi_index(23 * HOUR), (0, true));
    assert_eq!(hour_to_dizhi_index(DAY - 1), (0, true));
}

#[test]
fn julian_days() {
    assert_eq!(utc_to_jd(0), UNIX_EPOCH_JD);
    assert_eq!(datetime_to_jd(0), jd_micros(2440587.5));
    assert_eq!(utc_to_jd(946_728_000), jd_micros(2451545.0));
    assert_eq!(utc_to_jd(-86_400), UNIX_EPOCH_JD - DAY);
    assert_eq!(utc_to_jd(1), UNIX_EPOCH_JD + SECOND);
}

#[test]
fn true_solar_hours() {
    // noon UTC on the prime meridian without equation of time
    assert_eq!(true_solar_hour(43_200, 0, 0), 12 * HOUR);
    // fifteen degrees east is one hour ahead
    assert_eq!(true_solar_hour(43_200, udeg(15.0), 0), 13 * HOUR);
    assert_eq!(true_solar_hour(43_200, udeg(-15.0), 0), 11 * HOUR);
    assert_eq!(true_solar_hour(43_200, udeg(116.4), 0), 12 * HOUR + 27_936 * SECOND);
    assert_eq!(true_solar_hour(43_200, 0, 10 * MINUTE), 12 * HOUR + 10 * MINUTE);
    // wraps into the day
    assert_eq!(true_solar_hour(82_800, udeg(30.0), 0), HOUR);
    assert_eq!(true_solar_hour(0, udeg(-15.0), 0), 23 * HOUR);
    assert_eq!(true_solar_hour(-1, 0, 0), DAY - SECOND);
    assert_eq!(true_solar_hour(86_400 * 365 + 3_600, 0, -MINUTE), HOUR - MINUTE);
}

#[test]
fn true_solar_clock() {
    // Beijing time, 116.4° east against the meridian of 120°: 14.4 minutes behind
    let utc = Utc.with_ymd_and_hms(2025, 12, 18, 4, 0, 0).unwrap().timestamp();
    assert_eq!(true_solar_time(utc, udeg(116.4), udeg(120.0), 0), utc + 8 * 3600 - 864);
    assert_eq!(
        true_solar_time(utc, udeg(116.4), udeg(120.0), 3 * MINUTE + 500_000),
        utc + 8 * 3600 - 684
    );
    assert_eq!(true_solar_time(utc, udeg(-75.0), udeg(-75.0), 0), utc - 5 * 3600);
    assert_eq!(true_solar_time(utc, udeg(82.5), udeg(82.5), 0), utc + 6 * 3600);
}

#[test]
fn pillars_of_an_instant() {
    // 1970-01-01 00:00 UTC at Greenwich, the sun near 280°
    let solar = SolarPosition { ecliptic_longitude: udeg(280.0), equation_of_time: 0 };
    let p = bazi_pillars_from_position(0, 0, solar).unwrap();
    assert_eq!(p.year, (5, 9));
    assert_eq!(p.month, (2, 0));
    assert_eq!(p.day, (6, 10));
    assert_eq!(p.hour, (2, 0));
    assert_eq!(p.solar_term, SolarTerm::Dongzhi);
    assert_eq!(p.solar_longitude, udeg(280.0));
    assert!(!p.is_late_zi);

    // one hour earlier the day pillar has already turned
    let late = bazi_pillars_from_position(-3_600, 0, solar).unwrap();
    assert!(late.is_late_zi);
    assert_eq!(late.day, (6, 10));
    assert_eq!(late.hour, (2, 0));
    assert_eq!(late.year, (4, 8));

    let same = bazi_pillars_at(1970, 0, 0, solar);
    assert_eq!(same.year, p.year);
    assert_eq!(same.day, p.day);
    let other_year = bazi_pillars_at(1984, 0, 0, SolarPosition { ecliptic_longitude: 0, equation_of_time: 0 });
    assert_eq!(other_year.year, (0, 0));
    assert_eq!(other_year.month, (3, 3));

    // an instant beyond the calendar has no pillars
    assert!(bazi_pillars_from_position(i64::MAX, 0, solar).is_none());
    assert!(bazi_pillars_from_position(i64::MIN, 0, solar).is_none());
}

#[test]
fn pillars_from_instant_and_place() {
    // 2025-02-05 12:00 UTC in Beijing: 乙巳 year, 戊寅 month
    let timestamp = Utc.with_ymd_and_hms(2025, 2, 5, 12, 0, 0).unwrap().timestamp();
    let p = calc_bazi_pillars(timestamp, udeg(116.4), &sine, &arc_tangent).unwrap();
    assert_eq!(p.year, (1, 5));
    assert_eq!(p.month, (4, 2));
    assert_eq!(p.day, (0, 10));
    // 12:00 UTC and 7 h 46 min of longitude, less fourteen minutes: about 19:32 true solar time
    assert_eq!(p.hour, (0, 10));
    assert_eq!(p.solar_term, SolarTerm::Lichun);
    assert!(!p.is_late_zi);
    // the same pillars come from the position of the sun
    let same = bazi_pillars_from_position(timestamp, udeg(116.4), position_at(timestamp)).unwrap();
    assert_eq!((same.year, same.month, same.day, same.hour), (p.year, p.month, p.day, p.hour));
    // three and a half hours later true solar time has passed 23:00
    let late = calc_bazi_pillars(timestamp + 12_600, udeg(116.4), &sine, &arc_tangent).unwrap();
    assert!(late.is_late_zi);
    assert_eq!(late.day, (1, 11));
    assert_eq!(late.hour, (2, 0));
    assert!(calc_bazi_pillars(i64::MAX, 0, &sine, &arc_tangent).is_none());
}

#[test]
fn luck_cycle_direction_and_start() {
    assert!(dayun_runs_forward(0, true));
    assert!(!dayun_runs_forward(1, true));
    assert!(!dayun_runs_forward(0, false));
    assert!(dayun_runs_forward(1, false));
    assert_eq!(dayun_start_age(9 * DAY), 3_000_000);
    assert_eq!(dayun_start_age(DAY), 1_000_000);
    assert_eq!(dayun_start_age(0), 1_000_000);
    assert_eq!(dayun_start_age(-DAY), 1_000_000);
    assert_eq!(dayun_start_age(10 * DAY), 3_333_333);
}
