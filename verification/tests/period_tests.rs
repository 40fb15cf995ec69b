use huangji_core::decimal::decimal_string;
use huangji_core::period::{get_hj_info, year_gua, years_to_next_boundary, PeriodInfo};
use huangji_core::timeline::get_timeline_info;
use huangji_core::year_axis::year_to_acc;

fn check(p: &PeriodInfo, name: &str, start: i32, end: i32, index: u32, max_index: u32) {
    assert_eq!(p.name, name);
    assert_eq!(p.start_year, start);
    assert_eq!(p.end_year, end);
    assert_eq!(p.index, index);
    assert_eq!(p.max_index, max_index);
}

#[test]
fn test_segment_lengths() {
    let test_years = [-2156, -1, 1, 2014, 2044, 9999];
    for &y in &test_years {
        let info = get_hj_info(y);

        let hui_len = year_to_acc(info.hui.end_year).unwrap()
            - year_to_acc(info.hui.start_year).unwrap()
            + 1;
        assert_eq!(hui_len, 10800, "Hui length for year {} should be 10800, got {}", y, hui_len);

        let yun_len = year_to_acc(info.yun.end_year).unwrap()
            - year_to_acc(info.yun.start_year).unwrap()
            + 1;
        assert_eq!(yun_len, 360, "Yun length for year {} should be 360, got {}", y, yun_len);

        let shi_len = year_to_acc(info.shi.end_year).unwrap()
            - year_to_acc(info.shi.start_year).unwrap()
            + 1;
        assert_eq!(shi_len, 30, "Shi length for year {} should be 30, got {}", y, shi_len);

        let xun_len = year_to_acc(info.xun.end_year).unwrap()
            - year_to_acc(info.xun.start_year).unwrap()
            + 1;
        assert_eq!(xun_len, 10, "Xun length for year {} should be 10, got {}", y, xun_len);
    }
}

#[test]
fn test_boundary_2044() {
    let info_2043 = get_hj_info(2043);
    let info_2044 = get_hj_info(2044);

    assert_eq!(info_2044.shi.start_year, 2044, "2044 should be start of new Shi");
    assert_eq!(info_2043.shi.end_year, 2043, "2043 should be end of previous Shi");
}

#[test]
fn test_boundary_2044_detailed() {
    let info_2044 = get_hj_info(2044);
    assert_eq!(info_2044.shi.start_year, 2044, "2044 should be start of new Shi");
    assert!(info_2044.shi.end_year >= 2044, "2044 Shi end_year should be >= 2044");

    let info_2043 = get_hj_info(2043);
    assert_eq!(info_2043.shi.end_year, 2043, "2043 should be end of previous Shi");
    assert!(info_2043.shi.start_year <= 2043, "2043 Shi start_year should be <= 2043");

    assert!(
        info_2044.shi.start_year > info_2043.shi.start_year,
        "2044 should be in a different Shi than 2043"
    );
}

#[test]
fn test_years_to_next_boundary_nonnegative() {
    let test_years = [-2156, -1, 1, 2014, 2043, 2044, 9999];
    for &y in &test_years {
        let info = get_hj_info(y);
        let acc = year_to_acc(y).unwrap();

        let shi_end_acc = year_to_acc(info.shi.end_year).unwrap() + 1;
        let years_to_next_shi = years_to_next_boundary(acc, shi_end_acc);
        assert!(
            years_to_next_shi >= 0,
            "Years to next Shi should be non-negative for year {}, got {}",
            y,
            years_to_next_shi
        );

        let xun_end_acc = year_to_acc(info.xun.end_year).unwrap() + 1;
        let years_to_next_xun = years_to_next_boundary(acc, xun_end_acc);
        assert!(
            years_to_next_xun >= 0,
            "Years to next Xun should be non-negative for year {}, got {}",
            y,
            years_to_next_xun
        );
    }
}

#[test]
fn years_to_next_boundary_values() {
    assert_eq!(years_to_next_boundary(10, 25), 15);
    assert_eq!(years_to_next_boundary(25, 25), 0);
    assert_eq!(years_to_next_boundary(26, 25), 0);
    assert_eq!(years_to_next_boundary(-5, 5), 10);
    let acc = year_to_acc(2024).unwrap();
    let info = get_hj_info(2024);
    assert_eq!(years_to_next_boundary(acc, year_to_acc(info.shi.end_year).unwrap() + 1), 20);
    assert_eq!(years_to_next_boundary(acc, year_to_acc(info.xun.end_year).unwrap() + 1), 10);
}

#[test]
fn periods_of_2024() {
    let info = get_hj_info(2024);
    check(&info.yuan, "1", -67017, 62583, 1, 1);
    check(&info.hui, "午", -2217, 8583, 7, 12);
    check(&info.yun, "困", 1744, 2103, 12, 30);
    check(&info.shi, "萃", 2014, 2043, 10, 12);
    check(&info.xun, "甲戌", 2024, 2033, 2, 3);
    assert_eq!(info.year_gua, "丰");
}

#[test]
fn periods_across_the_seam() {
    let bc = get_hj_info(-1);
    let ad = get_hj_info(1);
    check(&bc.yun, "井", -57, 303, 7, 30);
    check(&bc.shi, "大过", -27, 3, 2, 12);
    check(&bc.xun, "甲申", -7, 3, 3, 3);
    check(&ad.shi, "大过", -27, 3, 2, 12);
    check(&ad.xun, "甲申", -7, 3, 3, 3);
    assert_eq!(bc.year_gua, "大壮");
    assert_eq!(ad.year_gua, "夬");
}

#[test]
fn periods_at_the_epoch_and_before() {
    let first = get_hj_info(-67017);
    check(&first.yuan, "1", -67017, 62583, 1, 1);
    check(&first.hui, "子", -67017, -56218, 1, 12);
    check(&first.yun, "震", -67017, -66658, 1, 30);
    check(&first.shi, "复", -67017, -66988, 1, 12);
    check(&first.xun, "甲子", -67017, -67008, 1, 3);

    let before = get_hj_info(-67018);
    check(&before.yuan, "0", -196617, -67018, 0, 1);
    check(&before.hui, "亥", -77817, -67018, 12, 12);
    check(&before.yun, "艮", -67377, -67018, 30, 30);
    check(&before.shi, "剥", -67047, -67018, 12, 12);
    check(&before.xun, "甲申", -67027, -67018, 3, 3);

    let deep = get_hj_info(-200000);
    check(&deep.yuan, "-1", -326217, -196618, u32::MAX, 1);
    check(&deep.yun, "观", -200217, -199858, 21, 30);
    check(&deep.shi, "益", -200007, -199978, 8, 12);
    assert_eq!(deep.year_gua, "明夷");

    let next = get_hj_info(62584);
    check(&next.yuan, "2", 62584, 192183, 2, 1);
    check(&next.hui, "子", 62584, 73383, 1, 12);
}

#[test]
fn segment_lengths_over_a_wide_range() {
    for year in (-10000i32..10000i32).step_by(7) {
        if year == 0 {
            continue;
        }
        let info = get_hj_info(year);
        let levels = [
            (&info.yuan, 129600),
            (&info.hui, 10800),
            (&info.yun, 360),
            (&info.shi, 30),
            (&info.xun, 10),
        ];
        let acc = year_to_acc(year).unwrap();
        for (p, len) in levels {
            let start = year_to_acc(p.start_year).unwrap();
            let end = year_to_acc(p.end_year).unwrap() + 1;
            assert_eq!(end - start, len);
            assert!(start <= acc && acc < end);
            assert!(years_to_next_boundary(acc, end) >= 1);
        }
    }
}

#[test]
fn index_steps_by_one_or_wraps() {
    for year in -9999i32..9999i32 {
        if year == 0 {
            continue;
        }
        let next_year = if year == -1 { 1 } else { year + 1 };
        let a = get_hj_info(year);
        let b = get_hj_info(next_year);
        for (p, q) in [(&a.hui, &b.hui), (&a.yun, &b.yun), (&a.shi, &b.shi), (&a.xun, &b.xun)] {
            if year == p.end_year {
                assert_eq!(q.start_year, next_year);
                let expected = if p.index == p.max_index { 1 } else { p.index + 1 };
                assert_eq!(q.index, expected);
            } else {
                assert_eq!(q.index, p.index);
                assert_eq!(q.start_year, p.start_year);
                assert_eq!(q.name, p.name);
            }
        }
    }
    assert_eq!(get_hj_info(2043).xun.index, 3);
    assert_eq!(get_hj_info(2044).xun.index, 1);
    assert_eq!(get_hj_info(2103).shi.index, 12);
    assert_eq!(get_hj_info(2104).shi.index, 1);
}

#[test]
fn year_gua_cycle() {
    assert_eq!(year_gua(1984), "鼎");
    assert_eq!(year_gua(2044), "鼎");
    assert_eq!(year_gua(1985), "恒");
    assert_eq!(year_gua(1983), "大过");
    assert_eq!(year_gua(2024), "丰");
    assert_eq!(year_gua(9999), "无妄");
    assert_eq!(year_gua(-2156), "鼎");
}

#[test]
fn decimal_strings() {
    assert_eq!(decimal_string(0), "0");
    assert_eq!(decimal_string(7), "7");
    assert_eq!(decimal_string(10), "10");
    assert_eq!(decimal_string(-1), "-1");
    assert_eq!(decimal_string(129600), "129600");
    assert_eq!(decimal_string(i32::MAX), "2147483647");
    assert_eq!(decimal_string(i32::MIN), "-2147483648");
}

#[test]
fn timeline_of_2024() {
    let t = get_timeline_info(2024);
    assert_eq!(t.current.shi.name, "萃");
    assert_eq!(t.yuan_list.len(), 1);
    check(&t.yuan_list[0], "1", -67017, 62583, 1, 1);
    assert_eq!(t.hui_list.len(), 12);
    check(&t.hui_list[0], "子", -67017, -56218, 1, 12);
    check(&t.hui_list[6], "午", -2217, 8583, 7, 12);
    check(&t.hui_list[11], "亥", 51784, 62583, 12, 12);
    assert_eq!(t.yun_list.len(), 30);
    check(&t.yun_list[11], "困", 1744, 2103, 12, 30);
    check(&t.yun_list[0], "巽", -2217, -1858, 1, 30);
    assert_eq!(t.shi_list.len(), 12);
    check(&t.shi_list[9], "萃", 2014, 2043, 10, 12);
    check(&t.shi_list[10], "大过", 2044, 2073, 11, 12);
    assert_eq!(t.xun_list.len(), 3);
    check(&t.xun_list[0], "甲子", 2014, 2023, 1, 3);
    check(&t.xun_list[1], "甲戌", 2024, 2033, 2, 3);
    check(&t.xun_list[2], "甲申", 2034, 2043, 3, 3);
}

#[test]
fn timeline_holds_the_current_periods() {
    for year in [-67018, -2156, -1, 1, 1984, 2024, 9999, 62584] {
        let t = get_timeline_info(year);
        for (list, cur) in [
            (&t.hui_list, &t.current.hui),
            (&t.yun_list, &t.current.yun),
            (&t.shi_list, &t.current.shi),
            (&t.xun_list, &t.current.xun),
            (&t.yuan_list, &t.current.yuan),
        ] {
            let found = if list.len() == 1 { &list[0] } else { &list[(cur.index - 1) as usize] };
            assert_eq!(found.name, cur.name);
            assert_eq!(found.start_year, cur.start_year);
            assert_eq!(found.end_year, cur.end_year);
            assert_eq!(found.index, cur.index);
        }
        for list in [&t.hui_list, &t.yun_list, &t.shi_list, &t.xun_list] {
            for w in list.windows(2) {
                assert_eq!(
                    year_to_acc(w[1].start_year).unwrap(),
                    year_to_acc(w[0].end_year).unwrap() + 1
                );
            }
        }
    }
}
