use huangji_core::chart::{
    calculate_ten_god, clock_pillars, element_balance, get_hidden_stems_with_gods, hidden_stem,
    ClockPillars, HiddenRank, Strength,
};
use huangji_core::luck::{
    calculate_dayun, calculate_liunian, calculate_start_age, calculate_xiaoyun,
    days_to_next_jieqi, runs_forward,
};
use huangji_core::term_search::find_solar_terms_for_year;

#[test]
fn ten_gods() {
    assert_eq!(calculate_ten_god(0, 0), "比肩");
    assert_eq!(calculate_ten_god(0, 1), "劫财");
    assert_eq!(calculate_ten_god(0, 2), "食神");
    assert_eq!(calculate_ten_god(0, 3), "伤官");
    assert_eq!(calculate_ten_god(0, 4), "偏财");
    assert_eq!(calculate_ten_god(0, 5), "正财");
    assert_eq!(calculate_ten_god(0, 6), "偏官");
    assert_eq!(calculate_ten_god(0, 7), "正官");
    assert_eq!(calculate_ten_god(0, 8), "偏印");
    assert_eq!(calculate_ten_god(0, 9), "正印");
    assert_eq!(calculate_ten_god(9, 0), "伤官");
    assert_eq!(calculate_ten_god(9, 9), "比肩");
    assert_eq!(calculate_ten_god(5, 2), "正印");
    assert_eq!(calculate_ten_god(5, 3), "偏印");
    assert_eq!(calculate_ten_god(6, 1), "正财");
}

#[test]
fn hidden_stems() {
    assert_eq!(hidden_stem(0, 0), None);
    assert_eq!(hidden_stem(0, 2), Some(9));
    assert_eq!(hidden_stem(2, 0), Some(4));
    assert_eq!(hidden_stem(2, 1), Some(2));
    assert_eq!(hidden_stem(2, 2), Some(0));
    assert_eq!(hidden_stem(6, 0), Some(5));
    assert_eq!(hidden_stem(6, 1), None);
    assert_eq!(hidden_stem(11, 0), Some(0));
    assert_eq!(hidden_stem(11, 2), Some(8));
    assert_eq!(hidden_stem(2, 3), None);

    // 子 hides 癸 alone
    let zi = get_hidden_stems_with_gods(0, 0);
    assert_eq!(zi.len(), 1);
    assert_eq!((zi[0].gan_idx, zi[0].ten_god, zi[0].rank, zi[0].energy), (9, "正印", HiddenRank::Main, 50));
    // 寅 hides 戊, 丙 and 甲
    let yin = get_hidden_stems_with_gods(2, 0);
    assert_eq!(yin.len(), 3);
    assert_eq!((yin[0].gan_idx, yin[0].ten_god, yin[0].rank, yin[0].energy), (4, "偏财", HiddenRank::Residual, 30));
    assert_eq!((yin[1].gan_idx, yin[1].ten_god, yin[1].rank, yin[1].energy), (2, "食神", HiddenRank::Middle, 20));
    assert_eq!((yin[2].gan_idx, yin[2].ten_god, yin[2].rank, yin[2].energy), (0, "比肩", HiddenRank::Main, 50));
    // 午 hides 己 and 丁
    let wu = get_hidden_stems_with_gods(6, 3);
    assert_eq!(wu.len(), 2);
    assert_eq!((wu[0].gan_idx, wu[0].rank, wu[0].energy), (5, HiddenRank::Residual, 30));
    assert_eq!((wu[1].gan_idx, wu[1].ten_god, wu[1].rank), (3, "比肩", HiddenRank::Main));
}

#[test]
fn pillars_by_the_clock() {
    // 2025-02-05 12:00 UTC, the sun past Lichun
    let p = clock_pillars(2025, 12, 1_738_756_800, 316_500_000);
    assert_eq!(p.year, (1, 5));
    assert_eq!(p.month, (4, 2));
    assert_eq!(p.day, (0, 10));
    assert_eq!(p.hour, (6, 6));
    // before Lichun the year is still the one before
    let p = clock_pillars(2025, 12, 1_738_584_000, 314_400_000);
    assert_eq!(p.year, (0, 4));
    assert_eq!(p.month, (3, 1));
    // from 23:00 on the day is the next one and the hour the first
    let late = clock_pillars(1970, 23, 82_800, 280_000_000);
    assert_eq!(late.day, (7, 11));
    assert_eq!(late.hour, (4, 0));
    let early = clock_pillars(1970, 22, 79_200, 280_000_000);
    assert_eq!(early.day, (6, 10));
    assert_eq!(early.hour, (3, 11));
    // before 1970 the days are counted towards zero
    let before = clock_pillars(1969, 12, -43_200, 280_000_000);
    assert_eq!(before.day, (6, 10));
    let before = clock_pillars(1969, 12, -129_600, 280_000_000);
    assert_eq!(before.day, (5, 9));
}

#[test]
fn balance_of_the_elements() {
    let p = ClockPillars { year: (0, 2), month: (2, 2), day: (0, 0), hour: (0, 0) };
    let b = element_balance(&p);
    assert_eq!(b.counts, [5, 1, 0, 0, 2]);
    assert_eq!(b.day_master, 0);
    assert_eq!(b.strength, Strength::Strong);
    let p = ClockPillars { year: (0, 2), month: (2, 5), day: (6, 0), hour: (8, 4) };
    let b = element_balance(&p);
    assert_eq!(b.counts, [2, 2, 1, 1, 2]);
    assert_eq!(b.day_master, 3);
    assert_eq!(b.strength, Strength::Weak);
    let p = ClockPillars { year: (6, 8), month: (2, 5), day: (7, 0), hour: (8, 4) };
    let b = element_balance(&p);
    assert_eq!(b.counts.iter().map(|&c| c as u32).sum::<u32>(), 8);
    assert_eq!(b.counts[3], 3);
    assert_eq!(b.strength, Strength::Strong);
    let p = ClockPillars { year: (4, 8), month: (2, 5), day: (7, 0), hour: (8, 4) };
    assert_eq!(element_balance(&p).strength, Strength::Balanced);
}

#[test]
fn great_luck_cycles() {
    assert!(runs_forward("male", 0));
    assert!(!runs_forward("male", 1));
    assert!(runs_forward("female", 1));
    assert!(!runs_forward("female", 0));
    assert!(!runs_forward("other", 0));
    assert!(!runs_forward("other", 1));

    let cycles = calculate_dayun(2, 2, 0, "male", 1990, 4_600_000);
    assert_eq!(cycles.len(), 10);
    assert_eq!(cycles[0].cycle, 1);
    assert_eq!((cycles[0].gan_idx, cycles[0].zhi_idx), (3, 3));
    assert_eq!((cycles[0].start_age, cycles[0].end_age), (5, 14));
    assert_eq!((cycles[0].start_year, cycles[0].end_year), (1995, 2004));
    assert_eq!((cycles[9].gan_idx, cycles[9].zhi_idx), (2, 0));
    assert_eq!((cycles[9].start_age, cycles[9].end_age), (95, 104));
    assert_eq!(cycles[9].cycle, 10);

    let back = calculate_dayun(2, 2, 0, "female", 1990, 1_000_000);
    assert_eq!((back[0].gan_idx, back[0].zhi_idx), (1, 1));
    assert_eq!((back[2].gan_idx, back[2].zhi_idx), (9, 11));
    assert_eq!((back[0].start_age, back[0].end_age), (1, 10));
    assert_eq!((back[1].start_year, back[1].end_year), (2001, 2010));
    // half a year rounds up
    let half = calculate_dayun(0, 0, 1, "male", 2000, 2_500_000);
    assert_eq!((half[0].start_age, half[0].end_age), (3, 12));
}

#[test]
fn small_luck_and_years_to_come() {
    let luck = calculate_xiaoyun(0, 0, "male", 1990, 2025);
    assert_eq!((luck.age, luck.year, luck.gan_idx, luck.zhi_idx), (35, 2025, 5, 11));
    let luck = calculate_xiaoyun(0, 0, "female", 1990, 2025);
    assert_eq!((luck.age, luck.gan_idx, luck.zhi_idx), (35, 5, 1));
    let luck = calculate_xiaoyun(3, 7, "male", 2000, 1990);
    assert_eq!((luck.age, luck.gan_idx, luck.zhi_idx), (-10, 3, 9));

    let years = calculate_liunian(1990, 2025, 6);
    assert_eq!(years.len(), 6);
    assert_eq!((years[0].year, years[0].age, years[0].gan_idx, years[0].zhi_idx), (2025, 35, 1, 5));
    assert_eq!((years[5].year, years[5].age, years[5].gan_idx, years[5].zhi_idx), (2030, 40, 6, 10));
    assert!(calculate_liunian(1990, 2025, 0).is_empty());
    assert!(calculate_liunian(1990, 2025, -3).is_empty());
    let old = calculate_liunian(-10, -3, 2);
    assert_eq!((old[0].gan_idx, old[0].zhi_idx), (3, 5));
}

#[test]
fn way_to_the_month_boundary() {
    let day = 86_400_000_000i128;
    let travel = |udeg: i64| (udeg as i128 * day / 985_600) as i64;
    // from 300° forward to 330°
    assert_eq!(days_to_next_jieqi(300_000_000, true), travel(30_000_000));
    // from 316° forward to 330°, backward to 300°
    assert_eq!(days_to_next_jieqi(316_000_000, true), travel(14_000_000));
    assert_eq!(days_to_next_jieqi(316_000_000, false), travel(16_000_000));
    // from 350° forward to 360°
    assert_eq!(days_to_next_jieqi(350_000_000, true), travel(10_000_000));
    // in the first pair of terms the count goes back to 330°
    assert_eq!(days_to_next_jieqi(10_000_000, false), travel(40_000_000));
    // right on a boundary the count goes back a full circle
    assert_eq!(days_to_next_jieqi(60_000_000, false), travel(360_000_000));
    assert_eq!(days_to_next_jieqi(60_000_000, true), travel(30_000_000));

    // nine degrees at the mean motion are a little over nine days: three years
    let age = calculate_start_age(321_000_000, "male", 0);
    assert_eq!(age, travel(9_000_000) / 259_200);
    assert!(3_000_000 < age && age < 3_100_000);
    assert_eq!(calculate_start_age(329_000_000, "male", 0), 1_000_000);
    assert_eq!(calculate_start_age(316_000_000, "female", 0), travel(16_000_000) / 259_200);
}

#[test]
fn terms_of_a_year_come_in_order() {
    // a sun that moves one degree a day and stands at 0° on 1 January 2025
    let start = 1_735_689_600i64 * 1_000_000 + 210_866_760_000_000_000;
    let sun = move |jd: i64| -> i64 {
        (((jd - start) as i128 * 1_000_000 / 86_400_000_000) as i64).rem_euclid(360_000_000)
    };
    let points = find_solar_terms_for_year(2025, &sun).unwrap();
    assert_eq!(points.len(), 24);
    for w in points.windows(2) {
        assert!(w[0].jd <= w[1].jd);
    }
    let mut seen = [false; 24];
    for p in &points {
        assert_eq!(p.longitude, p.term.longitude());
        assert!(!seen[p.term.index() as usize]);
        seen[p.term.index() as usize] = true;
    }
    assert!(seen.iter().all(|&s| s));
    assert!(find_solar_terms_for_year(10_000, &sun).is_none());
}
