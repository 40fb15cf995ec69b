use huangji_core::data::{get_year_record, YearRecord, YearTable};
use huangji_core::fortune::{compute_fortune, flying_star, fortune_of_year, hexagram_code};
use huangji_core::query::leading_year;

fn record(year: i32, dynasty: &str, person: &str) -> YearRecord {
    YearRecord {
        gregorian_year: year,
        ganzhi: "乙巳".to_string(),
        nian_hexagram: "乾".to_string(),
        dynasty: dynasty.to_string(),
        person: person.to_string(),
        yuan_raw: "1".to_string(),
        hui_raw: "7".to_string(),
        yun_raw: "12".to_string(),
        shi_raw: "10".to_string(),
        xun_raw: "2旬".to_string(),
    }
}

#[test]
fn hexagram_codes() {
    assert_eq!(hexagram_code(7, 7), vec![1, 1, 1, 1, 1, 1]);
    assert_eq!(hexagram_code(0, 0), vec![0, 0, 0, 0, 0, 0]);
    assert_eq!(hexagram_code(7, 0), vec![1, 1, 1, 0, 0, 0]);
    assert_eq!(hexagram_code(4, 1), vec![1, 0, 0, 0, 0, 1]);
    assert_eq!(hexagram_code(5, 2), vec![1, 0, 1, 0, 1, 0]);
    assert_eq!(hexagram_code(6, 3), vec![1, 1, 0, 0, 1, 1]);
}

#[test]
fn flying_stars() {
    assert_eq!(flying_star(2025), "二黑巨门");
    assert_eq!(flying_star(2024), "三碧禄存");
    assert_eq!(flying_star(2026), "一白贪狼");
    assert_eq!(flying_star(2027), "九紫右弼");
    assert_eq!(flying_star(2), "九紫右弼");
    assert_eq!(flying_star(1), "一白贪狼");
    assert_eq!(flying_star(-1), "二黑巨门");
    assert_eq!(flying_star(-5), "六白武曲");
    assert_eq!(flying_star(i32::MIN), flying_star(i32::MIN + 9));
}

#[test]
fn year_table() {
    let mut table = YearTable::new();
    assert_eq!(table.len(), 0);
    assert!(get_year_record(&table, 2025).is_none());
    table.insert(record(2025, "当代", ""));
    table.load(vec![record(618, "唐", "高祖"), record(2025, "今", "某"), record(-221, "秦", "始皇")]);
    assert_eq!(table.len(), 3);
    let found = get_year_record(&table, 2025).unwrap();
    assert_eq!(found.dynasty, "今");
    assert_eq!(found.person, "某");
    assert_eq!(get_year_record(&table, -221).unwrap().dynasty, "秦");
    assert_eq!(get_year_record(&table, 618).unwrap().gregorian_year, 618);
    assert!(get_year_record(&table, 0).is_none());
}

#[test]
fn fortune_of_2024() {
    let fortune = fortune_of_year(2024, Some(record(2024, " 当代", "某人 ")), None);
    assert_eq!(fortune.yuan, "1");
    assert_eq!(fortune.hui, "午");
    assert_eq!(fortune.yun, "困");
    assert_eq!(fortune.shi, "萃");
    assert_eq!(fortune.xun, "甲戌");
    assert_eq!(fortune.nian_ganzhi, "未知");
    assert_eq!(fortune.hexagram_major, "丰");
    assert_eq!(fortune.hexagram_minor, None);
    // 丰 is the trigram 5 over the trigram 1
    assert_eq!(fortune.hexagram_code, Some(vec![1, 0, 1, 0, 0, 1]));
    assert_eq!(fortune.flying_star, Some("三碧禄存".to_string()));
    assert_eq!(fortune.next_yun_start_year, Some(2104));
    assert_eq!(fortune.next_shi_start_year, Some(2044));
    assert_eq!(fortune.next_xun_start_year, Some(2034));
    assert_eq!(fortune.note, "当代 某人");
    assert_eq!(fortune.mapping_record.unwrap().gregorian_year, 2024);
    assert_eq!(fortune.period_info.unwrap().shi.start_year, 2014);
    assert!(fortune.lunar.is_none());
}

#[test]
fn fortune_without_a_record() {
    let fortune = fortune_of_year(-300, None, None);
    assert_eq!(fortune.note, "数据未覆盖 -300 年");
    assert!(fortune.mapping_record.is_none());
    let fortune = fortune_of_year(2025, Some(record(2025, "", "")), None);
    assert_eq!(fortune.note, "");
}

#[test]
fn fortune_of_an_instant() {
    let mut table = YearTable::new();
    table.insert(record(2025, "当代", ""));
    // 2025-11-29 12:00 UTC
    let fortune = compute_fortune(1_764_417_600, 247_500_000, &table).unwrap();
    assert_eq!(fortune.nian_ganzhi, "乙巳");
    assert_eq!(fortune.note, "当代");
    assert_eq!(fortune.xun, "甲戌");
    assert_eq!(fortune.flying_star, Some("二黑巨门".to_string()));
    assert_eq!(fortune.lunar.unwrap().ganzhi_day, "壬寅");
    // 1800 has periods but no almanac entry
    let old = compute_fortune(-5_364_662_400, 0, &table).unwrap();
    assert!(old.lunar.is_none());
    assert_eq!(old.nian_ganzhi, "未知");
    assert_eq!(old.note, "数据未覆盖 1800 年");
    // the civil year 0 is no historical year
    assert!(compute_fortune(-62_167_219_200, 0, &table).is_none());
    assert!(compute_fortune(i64::MAX, 0, &table).is_none());
}

#[test]
fn years_from_dates() {
    assert_eq!(leading_year("2025-01-31T12:00:00Z"), 2025);
    assert_eq!(leading_year("1984-02-04"), 1984);
    assert_eq!(leading_year("618"), 618);
    assert_eq!(leading_year("+0042-01-01"), 42);
    assert_eq!(leading_year("0-1-1"), 0);
    assert_eq!(leading_year("2147483647-01-01"), 2147483647);
    assert_eq!(leading_year("2147483648-01-01"), 2025);
    assert_eq!(leading_year("99999999999999999999-01-01"), 2025);
    assert_eq!(leading_year("-500-01-01"), 2025);
    assert_eq!(leading_year(""), 2025);
    assert_eq!(leading_year("+"), 2025);
    assert_eq!(leading_year("+-1"), 2025);
    assert_eq!(leading_year("20x5-01-01"), 2025);
    assert_eq!(leading_year(" 2024-01-01"), 2025);
    assert_eq!(leading_year("２０２４-01-01"), 2025);
    assert_eq!(leading_year("1999"), 1999);
}
