use huangji_core::civil::{utc_year, CivilDate};
use huangji_core::lunar::{
    compute_lunar, get_ganzhi, get_ganzhi_day, get_solar_term_and_month_branch,
    get_twelve_officer, get_yi_ji, lunar_info_of, LunarError, LunarNames,
};
use huangji_core::solar::utc_to_jd;

fn udeg(degrees: f64) -> i64 {
    (degrees * 1_000_000.0).round() as i64
}

fn strings(list: &[&str]) -> Vec<String> {
    list.iter().map(|s| s.to_string()).collect()
}

#[test]
fn ganzhi_names() {
    assert_eq!(get_ganzhi(0, 0), "甲子");
    assert_eq!(get_ganzhi(9, 11), "癸亥");
    assert_eq!(get_ganzhi(10, 12), "甲子");
    assert_eq!(get_ganzhi(4, 6), "戊午");
    assert_eq!(get_ganzhi(13, 14), "丁寅");
}

#[test]
fn almanac_day_names() {
    // 2000-01-01 12:00 UTC is Julian Day 2451545.0
    assert_eq!(get_ganzhi_day(utc_to_jd(946_728_000)), (4, 6, "戊午".to_string()));
    // the day number turns at midnight
    assert_eq!(get_ganzhi_day(utc_to_jd(946_684_800)), (4, 6, "戊午".to_string()));
    assert_eq!(get_ganzhi_day(utc_to_jd(946_684_799)), (3, 5, "丁巳".to_string()));
    assert_eq!(get_ganzhi_day(utc_to_jd(946_771_200)), (5, 7, "己未".to_string()));
    // 2025-11-29
    assert_eq!(get_ganzhi_day(utc_to_jd(1_764_417_600)).2, "壬寅");
}

#[test]
fn solar_term_and_month_branch() {
    assert_eq!(
        get_solar_term_and_month_branch(udeg(315.0)),
        (Some("立春".to_string()), 2, "寅".to_string())
    );
    assert_eq!(
        get_solar_term_and_month_branch(udeg(314.9)),
        (Some("大寒".to_string()), 1, "丑".to_string())
    );
    assert_eq!(
        get_solar_term_and_month_branch(0),
        (Some("春分".to_string()), 3, "卯".to_string())
    );
    assert_eq!(
        get_solar_term_and_month_branch(udeg(350.0)),
        (Some("惊蛰".to_string()), 3, "卯".to_string())
    );
    assert_eq!(
        get_solar_term_and_month_branch(udeg(247.0)),
        (Some("小雪".to_string()), 11, "亥".to_string())
    );
}

#[test]
fn officers_of_the_days() {
    let names = ["建", "除", "满", "平", "定", "执", "破", "危", "成", "收", "开", "闭"];
    for month in 0..12usize {
        for k in 0..12usize {
            assert_eq!(get_twelve_officer(month, (month + k) % 12), names[k]);
        }
    }
    assert_eq!(get_twelve_officer(11, 2), "平");
}

#[test]
fn good_and_bad_of_the_days() {
    assert_eq!(
        get_yi_ji("建"),
        (strings(&["出行", "访友", "纳财", "祭祀"]), strings(&["动土", "开仓", "掘井"]))
    );
    assert_eq!(
        get_yi_ji("成"),
        (strings(&["嫁娶", "开市", "入学", "祭祀"]), strings(&["词讼", "打官司"]))
    );
    assert_eq!(
        get_yi_ji("闭"),
        (strings(&["筑堤", "安床", "补垣"]), strings(&["开市", "出行", "求医"]))
    );
    assert_eq!(get_yi_ji("平").0, strings(&["修饰", "涂泥", "移徙"]));
    assert_eq!(get_yi_ji("?"), (Vec::<String>::new(), Vec::<String>::new()));
    assert_eq!(get_yi_ji(""), (Vec::<String>::new(), Vec::<String>::new()));
}

#[test]
fn almanac_of_2025_11_29() {
    // 2025-11-29 12:00 UTC, the sun near 247.5°
    let info = compute_lunar(1_764_417_600, udeg(247.5)).unwrap();
    assert_eq!(info.ganzhi_year, "乙巳");
    assert_eq!(info.ganzhi_month, "丁亥");
    assert_eq!(info.ganzhi_day, "壬寅");
    assert_eq!(info.ganzhi_hour, "丙午");
    assert_eq!(info.solar_term, Some("小雪".to_string()));
    assert_eq!(info.twelve_officer, "平");
    assert_eq!(info.yi, strings(&["修饰", "涂泥", "移徙"]));
    assert_eq!(info.ji, strings(&["入宅", "安门", "栽种"]));
    assert_eq!(info.aus_directions, "喜神: 东北, 财神: 正北");
    assert_eq!(info.lunar_year, "乙巳");
    assert_eq!(info.lunar_month, "十月");
    assert_eq!(info.lunar_day, "初十");
    assert_eq!(info.zodiac, "蛇");
}

#[test]
fn almanac_year_turns_at_lichun() {
    // 2024-02-03 12:00 UTC, before Lichun
    let before = compute_lunar(1_706_961_600, udeg(313.9)).unwrap();
    assert_eq!(before.ganzhi_year, "癸卯");
    // 2024-02-05 12:00 UTC, after Lichun
    let after = compute_lunar(1_707_134_400, udeg(315.9)).unwrap();
    assert_eq!(after.ganzhi_year, "甲辰");
    // in January the year is always the one before
    let january = compute_lunar(1_704_110_400, udeg(280.0)).unwrap();
    assert_eq!(january.ganzhi_year, "癸卯");
    assert_eq!(january.lunar_year, "癸卯");
    assert_eq!(january.zodiac, "兔");
}

#[test]
fn almanac_errors() {
    assert_eq!(compute_lunar(i64::MAX, 0).unwrap_err(), LunarError::OutsideCalendar);
    // 1800-01-01 lies before the years of the lunisolar calendar
    assert_eq!(compute_lunar(-5_364_662_400, 0).unwrap_err(), LunarError::OutOfRange);
    // 2200-01-01 lies after them
    assert_eq!(compute_lunar(7_258_118_400, 0).unwrap_err(), LunarError::OutOfRange);
    // the years are read in sixteen bits: the leap day of 67436 is read as 29 February 1900
    let leap_day = chrono::NaiveDate::from_ymd_opt(67_436, 2, 29)
        .unwrap()
        .and_hms_opt(12, 0, 0)
        .unwrap()
        .and_utc()
        .timestamp();
    assert_eq!(compute_lunar(leap_day, 0).unwrap_err(), LunarError::InvalidDate);
}

#[test]
fn almanac_from_given_names() {
    let names = LunarNames {
        year: "甲子".to_string(),
        month: "正月".to_string(),
        day: "初一".to_string(),
        zodiac: "鼠".to_string(),
    };
    let date = CivilDate { year: 2000, month: 1, day: 1 };
    let info = lunar_info_of(names, date, 946_728_000, udeg(280.0));
    assert_eq!(info.lunar_year, "甲子");
    assert_eq!(info.lunar_month, "正月");
    assert_eq!(info.lunar_day, "初一");
    assert_eq!(info.zodiac, "鼠");
    assert_eq!(info.ganzhi_year, "己卯");
    assert_eq!(info.ganzhi_day, "戊午");
    assert_eq!(info.ganzhi_hour, "戊午");
    assert_eq!(info.ganzhi_month, "丙子");
    assert_eq!(info.twelve_officer, "破");
}

#[test]
fn civil_years() {
    assert_eq!(utc_year(0), Some(1970));
    assert_eq!(utc_year(-1), Some(1969));
    assert_eq!(utc_year(1_764_417_600), Some(2025));
    assert_eq!(utc_year(-62_167_219_200), Some(0));
    assert_eq!(utc_year(-62_167_219_201), Some(-1));
    assert_eq!(utc_year(i64::MAX), None);
}
