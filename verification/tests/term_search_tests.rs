use huangji_core::jieqi::SolarTerm;
use huangji_core::solar::{utc_to_jd, DAY};
use huangji_core::term_search::{
    angular_residual, calc_dayun_start_age, find_next_jie, find_prev_jie, find_solar_term_jd,
    next_jie_search, prev_jie_search, run_search, solar_term_search, year_start_jd, SearchOutcome,
    TermSearch,
};

fn udeg(degrees: f64) -> i64 {
    (degrees * 1_000_000.0).round() as i64
}

/// Longitude of the sun in microdegrees at a Julian Day in microseconds.
fn solar_longitude(jd_micros: i64) -> i64 {
    let jd = jd_micros as f64 / 86_400_000_000.0;
    let t = (jd - 2451545.0) / 36525.0;
    let l0 = (280.46646 + 36000.76983 * t + 0.0003032 * t * t).rem_euclid(360.0);
    let m = (357.52911 + 35999.05029 * t - 0.0001537 * t * t).rem_euclid(360.0);
    let m_rad = m.to_radians();
    let c = (1.914602 - 0.004817 * t - 0.000014 * t * t) * m_rad.sin()
        + (0.019993 - 0.000101 * t) * (2.0 * m_rad).sin()
        + 0.000289 * (3.0 * m_rad).sin();
    let sun_lon = (l0 + c).rem_euclid(360.0);
    ((sun_lon * 1_000_000.0).floor() as i64).rem_euclid(360_000_000)
}

/// A sun that moves at exactly one degree a day and stands at 0° at Julian Day 0.
fn steady_sun(jd_micros: i64) -> i64 {
    ((jd_micros as i128 * 1_000_000 / 86_400_000_000) as i64).rem_euclid(360_000_000)
}

#[test]
fn residual_takes_the_short_way() {
    assert_eq!(angular_residual(udeg(10.0), udeg(350.0)), udeg(20.0));
    assert_eq!(angular_residual(udeg(350.0), udeg(10.0)), udeg(-20.0));
    assert_eq!(angular_residual(udeg(180.0), 0), udeg(180.0));
    assert_eq!(angular_residual(180_000_001, 0), -179_999_999);
    assert_eq!(angular_residual(0, udeg(180.0)), udeg(180.0));
    assert_eq!(angular_residual(udeg(315.0), udeg(315.0)), 0);
    assert_eq!(angular_residual(udeg(720.0), 0), 0);
    assert_eq!(angular_residual(-1, 0), -1);
    assert_eq!(angular_residual(i64::MAX, i64::MIN) > -180_000_000, true);
}

#[test]
fn one_step_of_a_search() {
    let s = TermSearch { target: udeg(315.0), low: 1_000, high: 2_000, steps_left: 3 };
    assert_eq!(s.midpoint(), 1_500);
    match s.observe(udeg(316.0)) {
        SearchOutcome::Continue(next) => {
            assert_eq!((next.low, next.high, next.steps_left, next.target), (1_000, 1_500, 2, udeg(315.0)));
        }
        SearchOutcome::Found(_) => panic!("the sun is a degree past the term"),
    }
    match s.observe(udeg(314.0)) {
        SearchOutcome::Continue(next) => {
            assert_eq!((next.low, next.high, next.steps_left), (1_500, 2_000, 2));
        }
        SearchOutcome::Found(_) => panic!("the sun is a degree before the term"),
    }
    match s.observe(315_000_099) {
        SearchOutcome::Found(jd) => assert_eq!(jd, 1_500),
        SearchOutcome::Continue(_) => panic!("the sun is at the term"),
    }
    match s.observe(314_999_901) {
        SearchOutcome::Found(jd) => assert_eq!(jd, 1_500),
        SearchOutcome::Continue(_) => panic!("the sun is at the term"),
    }
    assert!(matches!(s.observe(315_000_100), SearchOutcome::Continue(_)));
    assert!(matches!(s.observe(314_999_900), SearchOutcome::Continue(_)));
    let odd = TermSearch { target: 0, low: -3, high: 0, steps_left: 1 };
    assert_eq!(odd.midpoint(), -2);
}

#[test]
fn a_search_without_steps_gives_the_middle() {
    let s = TermSearch { target: 0, low: 10, high: 30, steps_left: 0 };
    assert_eq!(run_search(s, &steady_sun), 20);
}

#[test]
fn search_on_a_steady_sun() {
    // the sun reaches 45° at day 45
    let s = TermSearch { target: udeg(45.0), low: 40 * DAY, high: 50 * DAY, steps_left: 30 };
    let jd = run_search(s, &steady_sun);
    assert!((jd - 45 * DAY).abs() <= 100 * 86_400, "found {}", jd);
    assert!(angular_residual(steady_sun(jd), udeg(45.0)).abs() < 100);
    // after its one step the search settles for the middle of the half that is left
    let short = TermSearch { target: udeg(46.0), low: 40 * DAY, high: 50 * DAY, steps_left: 1 };
    assert_eq!(run_search(short, &steady_sun), 47 * DAY + DAY / 2);
    let short = TermSearch { target: udeg(44.0), low: 40 * DAY, high: 50 * DAY, steps_left: 1 };
    assert_eq!(run_search(short, &steady_sun), 42 * DAY + DAY / 2);
}

#[test]
fn windows_of_the_jie_searches() {
    let jd = 1_000 * DAY;
    // the sun at 300° is in Dahan; the next jie is Lichun, 15° ahead
    let (search, term) = next_jie_search(jd, udeg(300.0));
    assert_eq!(term, SolarTerm::Lichun);
    assert_eq!(search.target, udeg(315.0));
    let travel = (15_000_000i128 * 86_400_000_000 / 985_600) as i64;
    assert_eq!(search.low, jd + travel - 5 * DAY);
    assert_eq!(search.high, jd + travel + 5 * DAY);
    assert_eq!(search.steps_left, 30);
    // the last jie before it is Xiaohan, 15° back
    let (search, term) = prev_jie_search(jd, udeg(300.0));
    assert_eq!(term, SolarTerm::Xiaohan);
    assert_eq!(search.target, udeg(285.0));
    assert_eq!(search.low, jd - travel - 5 * DAY);
    assert_eq!(search.high, jd - travel + 5 * DAY);
    // within a jie term the next jie is two terms on
    let (_, term) = next_jie_search(jd, udeg(316.0));
    assert_eq!(term, SolarTerm::Jingzhe);
    let (_, term) = prev_jie_search(jd, udeg(316.0));
    assert_eq!(term, SolarTerm::Xiaohan);
    let (_, term) = next_jie_search(jd, udeg(350.0));
    assert_eq!(term, SolarTerm::Qingming);
}

#[test]
fn window_of_a_term_of_the_year() {
    let start = 2_000 * DAY;
    let s = solar_term_search(start, SolarTerm::Lichun);
    assert_eq!((s.target, s.low, s.high, s.steps_left), (udeg(315.0), start - 20 * DAY, start + 20 * DAY, 50));
    let s = solar_term_search(start, SolarTerm::Chunfen);
    assert_eq!(s.low, start + 3 * 1_315_008_000_000 - 20 * DAY);
    let s = solar_term_search(start, SolarTerm::Jingzhe);
    assert_eq!(s.high, start + 2 * 1_315_008_000_000 + 20 * DAY);
    let s = solar_term_search(start, SolarTerm::Dahan);
    assert_eq!(s.low, start + 23 * 1_315_008_000_000 - 20 * DAY);
}

#[test]
fn start_of_a_year() {
    assert_eq!(year_start_jd(1970), Some(utc_to_jd(0)));
    assert_eq!(year_start_jd(2000), Some(utc_to_jd(946_684_800)));
    assert_eq!(year_start_jd(2025), Some(utc_to_jd(1_735_689_600)));
    assert_eq!(year_start_jd(10_000), None);
}

#[test]
fn term_of_a_year() {
    // a sun that stands at 315° twelve days after the start of 2025
    let start = utc_to_jd(1_735_689_600);
    let sun = move |jd: i64| -> i64 {
        (315_000_000 + ((jd - start - 12 * DAY) as i128 * 1_000_000 / 86_400_000_000) as i64)
            .rem_euclid(360_000_000)
    };
    let jd = find_solar_term_jd(2025, SolarTerm::Lichun, &sun).unwrap();
    assert!((jd - (start + 12 * DAY)).abs() <= 100 * 86_400, "found {}", jd);
    assert_eq!(jd, run_search(solar_term_search(start, SolarTerm::Lichun), &sun));
    // whatever the sun does, the result lies in the window of forty days
    let jd = find_solar_term_jd(2025, SolarTerm::Lichun, &solar_longitude).unwrap();
    assert!(start - 20 * DAY <= jd && jd <= start + 20 * DAY);
    assert_eq!(find_solar_term_jd(10_000, SolarTerm::Lichun, &solar_longitude), None);
}

#[test]
fn jie_around_an_instant() {
    // 2025-01-20 12:00 UTC: after Xiaohan (5 January), before Lichun (3 February)
    let jd = utc_to_jd(1_737_374_400);
    let (next_jd, next_term) = find_next_jie(jd, &solar_longitude);
    assert_eq!(next_term, SolarTerm::Lichun);
    assert!((next_jd - utc_to_jd(1_738_591_800)).abs() < DAY / 24);
    let (prev_jd, prev_term) = find_prev_jie(jd, &solar_longitude);
    assert_eq!(prev_term, SolarTerm::Xiaohan);
    assert!(prev_jd < jd && jd - prev_jd < 16 * DAY);
    assert!(angular_residual(solar_longitude(prev_jd), udeg(285.0)).abs() < 100);

    // about fourteen days to Lichun: between four and five years
    let forward = calc_dayun_start_age(jd, 0, true, &solar_longitude);
    assert_eq!(forward, (next_jd - jd) / 259_200);
    assert!(4_000_000 < forward && forward < 5_000_000);
    let backward = calc_dayun_start_age(jd, 1, true, &solar_longitude);
    assert_eq!(backward, (jd - prev_jd) / 259_200);
    // less than three days before the jie the age is one year
    let close = calc_dayun_start_age(next_jd - DAY, 0, true, &solar_longitude);
    assert_eq!(close, 1_000_000);
}
