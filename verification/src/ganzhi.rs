//! The sexagenary pillars: heavenly stems 0 to 9 and earthly branches
//! 0 to 11 for the year, the month, the day and the double hour of an
//! instant.
//!
//! The year turns at Lichun, where the sun stands at 315°, the months turn
//! at the jie, the day turns at 23:00 true solar time, and the stems of
//! month and hour follow from the stems of year and day.

use vstd::prelude::*;
use crate::civil::{utc_year, utc_year_of};
use crate::euclid::{
    div_euclid_i128, div_euclid_i64, lemma_floor_div_bounds, lemma_floor_div_unique,
    rem_euclid_i128, rem_euclid_i64,
};
use crate::jieqi::{term_index_of_longitude, term_of_index, SolarTerm, DEGREE, FULL_CIRCLE};
use crate::sun::{
    arc_deterministic, arc_total, sine_bounded, sine_deterministic, sine_total, solar_position,
    solar_position_spec,
};
use crate::solar::{
    hour_branch_spec, hour_to_dizhi_index, is_late_zi_spec, jd_of_timestamp, true_solar_hour,
    true_solar_hour_spec, SolarPosition, DAY, SECOND, UNIX_EPOCH_JD,
};

verus! {

/// The ten heavenly stems.
pub const TIANGAN: [&'static str; 10] = ["甲", "乙", "丙", "丁", "戊", "己", "庚", "辛", "壬", "癸"];

/// The twelve earthly branches.
pub const DIZHI: [&'static str; 12] = [
    "子", "丑", "寅", "卯", "辰", "巳", "午", "未", "申", "酉", "戌", "亥",
];

/// The animals of the twelve earthly branches.
pub const SHENGXIAO: [&'static str; 12] = [
    "鼠", "牛", "虎", "兔", "龙", "蛇", "马", "羊", "猴", "鸡", "狗", "猪",
];

/// Polarity and element of the ten heavenly stems.
pub const GAN_WUXING: [&'static str; 10] = [
    "阳木", "阴木", "阳火", "阴火", "阳土", "阴土", "阳金", "阴金", "阳水", "阴水",
];

/// Polarity and element of the twelve earthly branches.
pub const ZHI_WUXING: [&'static str; 12] = [
    "阳水", "阴土", "阳木", "阴木", "阳土", "阴火", "阳火", "阴土", "阳金", "阴金", "阳土", "阴水",
];

/// The thirty Nayin, one for every two neighbouring pairs of stem and
/// branch.
pub const NAYIN: [&'static str; 30] = [
    "海中金", "炉中火", "大林木", "路旁土", "剑锋金", "山头火",
    "涧下水", "城头土", "白蜡金", "杨柳木", "泉中水", "屋上土",
    "霹雳火", "松柏木", "长流水", "砂石金", "山下火", "平地木",
    "壁上土", "金箔金", "覆灯火", "天河水", "大驿土", "钗钏金",
    "桑柘木", "大溪水", "沙中土", "天上火", "石榴木", "大海水",
];

/// The first day of 1970 has stem 6.
pub const EPOCH_DAY_STEM: i64 = 6;

/// The first day of 1970 has branch 10.
pub const EPOCH_DAY_BRANCH: i64 = 10;

/// The four pillars of an instant, each a pair of stem and branch.
#[derive(Debug, Clone, Copy)]
pub struct BaziPillars {
    pub year: (usize, usize),
    pub month: (usize, usize),
    pub day: (usize, usize),
    pub hour: (usize, usize),
    /// Ecliptic longitude of the sun, in microdegrees.
    pub solar_longitude: i64,
    /// The solar term that holds that longitude.
    pub solar_term: SolarTerm,
    /// The instant lies in the hour before true solar midnight, which
    /// counts towards the next day.
    pub is_late_zi: bool,
}

/// A pair of a stem and a branch.
pub open spec fn valid_pillar(pillar: (usize, usize)) -> bool {
    pillar.0 < 10 && pillar.1 < 12
}

/// The sun has not yet reached Lichun: its longitude lies from 270° up to
/// but not including 315°.
pub open spec fn before_lichun(solar_longitude: int) -> bool {
    270 * DEGREE <= solar_longitude < 315 * DEGREE
}

/// The year whose stem and branch an instant carries: the civil year, and
/// before Lichun still the year before it.
pub open spec fn bazi_year_spec(year: int, solar_longitude: int) -> int {
    if before_lichun(solar_longitude) {
        year - 1
    } else {
        year
    }
}

/// Stem and branch of a year of the sexagenary count: year 4 has the
/// first stem and the first branch.
pub open spec fn year_pillar_spec(bazi_year: int) -> (int, int) {
    ((bazi_year - 4) % 10, (bazi_year - 4) % 12)
}

/// The branch of the month that holds the solar longitude: the month of
/// branch 2 starts at Lichun, and every thirty degrees the next month.
pub open spec fn month_branch_spec(solar_longitude: int) -> int {
    (((solar_longitude - 315 * DEGREE + 360 * DEGREE) % (FULL_CIRCLE as int)) / (30 * DEGREE) + 2)
        % 12
}

/// The stem of the month of branch 2 in a year of the given stem.
pub open spec fn first_month_stem_spec(year_stem: int) -> int {
    ((year_stem % 5) * 2 + 2) % 10
}

/// The stem of the month of the given branch in a year of the given stem:
/// the stems run on from the month of branch 2.
pub open spec fn month_stem_spec(year_stem: int, month_branch: int) -> int {
    (first_month_stem_spec(year_stem) + (month_branch - 2 + 12) % 12) % 10
}

/// Whole days from the start of 1970 to the day of the Julian Day `jd`,
/// one more for an instant in the hour before true solar midnight.
pub open spec fn pillar_days_spec(jd: int, is_late_zi: bool) -> int {
    (jd - UNIX_EPOCH_JD) / (DAY as int) + if is_late_zi {
        1int
    } else {
        0int
    }
}

/// Stem and branch of the day that lies `days` days after the first day
/// of 1970.
pub open spec fn day_pillar_spec(days: int) -> (int, int) {
    ((days + EPOCH_DAY_STEM) % 10, (days + EPOCH_DAY_BRANCH) % 12)
}

/// The stem of the double hour of the given branch on a day of the given
/// stem: the stems run on from the first double hour.
pub open spec fn hour_stem_spec(day_stem: int, hour_branch: int) -> int {
    ((day_stem % 5) * 2 + hour_branch) % 10
}

/// The place in [`NAYIN`] of the pair of the given stem and branch.
pub open spec fn nayin_index_spec(gan_idx: int, zhi_idx: int) -> int {
    (((gan_idx * 12 + zhi_idx) % 60) / 2) % 30
}

/// The year pillar of an instant in the civil year `year` at which the
/// sun stands at `solar_longitude`, in microdegrees.
pub fn calc_year_pillar(year: i32, solar_longitude: i64) -> (pillar: (usize, usize))
    ensures
        (pillar.0 as int, pillar.1 as int) == year_pillar_spec(
            bazi_year_spec(year as int, solar_longitude as int),
        ),
        valid_pillar(pillar),
        pillar.0 % 2 == pillar.1 % 2,
{
    let bazi_year: i64 = if 270 * DEGREE <= solar_longitude && solar_longitude < 315 * DEGREE {
        year as i64 - 1
    } else {
        year as i64
    };
    let gan_idx: i64 = rem_euclid_i64(bazi_year - 4, 10);
    let zhi_idx: i64 = rem_euclid_i64(bazi_year - 4, 12);
    proof {
        let n = bazi_year - 4;
        lemma_floor_div_bounds(n, 10);
        lemma_floor_div_bounds(n, 12);
        lemma_floor_div_bounds(n, 2);
        lemma_floor_div_unique(n, 2, (n / 10) * 5 + (n % 10) / 2, (n % 10) % 2);
        lemma_floor_div_unique(n, 2, (n / 12) * 6 + (n % 12) / 2, (n % 12) % 2);
    }
    (gan_idx as usize, zhi_idx as usize)
}

/// The month pillar at the solar longitude `solar_longitude`, in
/// microdegrees, in a year whose stem is `year_gan_idx`.
pub fn calc_month_pillar(year_gan_idx: usize, solar_longitude: i64) -> (pillar: (usize, usize))
    ensures
        pillar.1 == month_branch_spec(solar_longitude as int),
        pillar.0 == month_stem_spec(year_gan_idx as int, pillar.1 as int),
        valid_pillar(pillar),
{
    let adjusted_lon: i128 = rem_euclid_i128(
        (solar_longitude as i128) - 315_000_000 + 360_000_000,
        360_000_000,
    );
    let month_offset: usize = (adjusted_lon / 30_000_000) as usize;
    let month_zhi_idx: usize = (month_offset + 2) % 12;
    let yin_month_gan: usize = ((year_gan_idx % 5) * 2 + 2) % 10;
    let month_gan_offset: usize = (month_zhi_idx + 12 - 2) % 12;
    let month_gan_idx: usize = (yin_month_gan + month_gan_offset) % 10;
    (month_gan_idx, month_zhi_idx)
}

/// The pillar of the day that lies `days` days after the first day of
/// 1970.
fn day_pillar_of_days(days: i64) -> (pillar: (usize, usize))
    requires
        i64::MIN + 16 <= days <= i64::MAX - 16,
    ensures
        (pillar.0 as int, pillar.1 as int) == day_pillar_spec(days as int),
        valid_pillar(pillar),
{
    let gan_idx: i64 = rem_euclid_i64(days + EPOCH_DAY_STEM, 10);
    let zhi_idx: i64 = rem_euclid_i64(days + EPOCH_DAY_BRANCH, 12);
    (gan_idx as usize, zhi_idx as usize)
}

/// The day pillar of the Julian Day `jd`, given in microseconds.  The day
/// turns at midnight UTC; with `is_late_zi` the pillar is that of the next
/// day.
pub fn calc_day_pillar(jd: i64, is_late_zi: bool) -> (pillar: (usize, usize))
    ensures
        (pillar.0 as int, pillar.1 as int) == day_pillar_spec(
            pillar_days_spec(jd as int, is_late_zi),
        ),
        valid_pillar(pillar),
        pillar.0 % 2 == pillar.1 % 2,
{
    let days_from_epoch: i128 = div_euclid_i128(
        (jd as i128) - 210_866_760_000_000_000,
        86_400_000_000,
    );
    proof {
        lemma_floor_div_bounds(jd - UNIX_EPOCH_JD, DAY as int);
    }
    let adjusted_days: i64 = if is_late_zi {
        (days_from_epoch + 1) as i64
    } else {
        days_from_epoch as i64
    };
    proof {
        lemma_day_pillar_parity(adjusted_days as int);
    }
    day_pillar_of_days(adjusted_days)
}

/// The hour pillar of the double hour of branch `hour_zhi_idx` on a day
/// whose stem is `day_gan_idx`.
pub fn calc_hour_pillar(day_gan_idx: usize, hour_zhi_idx: usize) -> (pillar: (usize, usize))
    ensures
        pillar.0 == hour_stem_spec(day_gan_idx as int, hour_zhi_idx as int),
        pillar.1 == hour_zhi_idx,
        pillar.0 < 10,
{
    let zi_hour_gan: usize = (day_gan_idx % 5) * 2;
    let hour_gan_idx: usize = (zi_hour_gan + hour_zhi_idx % 10) % 10;
    (hour_gan_idx, hour_zhi_idx)
}

/// The Nayin of the pair of stem `gan_idx` and branch `zhi_idx`.
pub fn get_nayin(gan_idx: usize, zhi_idx: usize) -> (name: &'static str)
    ensures
        name@ == NAYIN[nayin_index_spec(gan_idx as int, zhi_idx as int)]@,
{
    let ganzhi_idx: usize = ((gan_idx % 5) * 12 + zhi_idx % 60) % 60;
    proof {
        let g = gan_idx as int;
        let z = zhi_idx as int;
        let small = (g % 5) * 12 + z % 60;
        lemma_floor_div_bounds(g, 5);
        lemma_floor_div_bounds(z, 60);
        lemma_floor_div_bounds(small, 60);
        lemma_floor_div_unique(g * 12 + z, 60, g / 5 + z / 60 + small / 60, small % 60);
    }
    let nayin_idx: usize = ganzhi_idx / 2;
    NAYIN[nayin_idx % 30]
}

/// The four pillars of the instant `timestamp` in the civil year `year`,
/// at a place of geographic longitude `longitude`, with the sun at
/// `solar`.
pub open spec fn bazi_pillars_spec(year: int, timestamp: int, longitude: int, solar: SolarPosition)
    -> BaziPillars {
    let time = true_solar_hour_spec(timestamp, longitude, solar.equation_of_time as int);
    let late = is_late_zi_spec(time);
    let year_pillar = year_pillar_spec(bazi_year_spec(year, solar.ecliptic_longitude as int));
    let month_branch = month_branch_spec(solar.ecliptic_longitude as int);
    let day_pillar = day_pillar_spec(pillar_days_spec(jd_of_timestamp(timestamp), late));
    BaziPillars {
        year: (year_pillar.0 as usize, year_pillar.1 as usize),
        month: (month_stem_spec(year_pillar.0, month_branch) as usize, month_branch as usize),
        day: (day_pillar.0 as usize, day_pillar.1 as usize),
        hour: (
            hour_stem_spec(day_pillar.0, hour_branch_spec(time)) as usize,
            hour_branch_spec(time) as usize,
        ),
        solar_longitude: solar.ecliptic_longitude,
        solar_term: term_of_index(term_index_of_longitude(solar.ecliptic_longitude as int)),
        is_late_zi: late,
    }
}

/// The four pillars of an instant whose civil year is known.
///
/// `timestamp` is the instant in seconds since the start of 1970 in UTC,
/// `year` the civil year in which it falls, `longitude` the geographic
/// longitude of the place in microdegrees, east positive, and `solar` the
/// position of the sun at the instant.
pub fn bazi_pillars_at(year: i32, timestamp: i64, longitude: i64, solar: SolarPosition) -> (pillars:
    BaziPillars)
    ensures
        pillars == bazi_pillars_spec(year as int, timestamp as int, longitude as int, solar),
        valid_pillar(pillars.year),
        valid_pillar(pillars.month),
        valid_pillar(pillars.day),
        valid_pillar(pillars.hour),
{
    let solar_longitude: i64 = solar.ecliptic_longitude;
    let tst_hour: i64 = true_solar_hour(timestamp, longitude, solar.equation_of_time);
    let (hour_zhi_idx, is_late_zi) = hour_to_dizhi_index(tst_hour);
    let year_pillar = calc_year_pillar(year, solar_longitude);
    let month_pillar = calc_month_pillar(year_pillar.0, solar_longitude);
    let days: i64 = div_euclid_i64(timestamp, 86400);
    proof {
        lemma_floor_div_bounds(timestamp as int, 86400);
        let q = timestamp as int / 86400;
        let r = timestamp as int % 86400;
        lemma_floor_div_unique(jd_of_timestamp(timestamp as int) - UNIX_EPOCH_JD, DAY as int, q, r * SECOND);
    }
    let day_pillar = day_pillar_of_days(
        if is_late_zi {
            days + 1
        } else {
            days
        },
    );
    let hour_pillar = calc_hour_pillar(day_pillar.0, hour_zhi_idx);
    let solar_term = SolarTerm::from_longitude(solar_longitude);
    BaziPillars {
        year: year_pillar,
        month: month_pillar,
        day: day_pillar,
        hour: hour_pillar,
        solar_longitude,
        solar_term,
        is_late_zi,
    }
}

/// The four pillars of the instant `timestamp`, given in seconds since
/// the start of 1970 in UTC, at a place of geographic longitude
/// `longitude`, with the sun at `solar`.
///
/// The civil year of the instant is read off the calendar; an instant
/// that the calendar does not hold has no pillars.
pub fn bazi_pillars_from_position(timestamp: i64, longitude: i64, solar: SolarPosition) -> (pillars: Option<
    BaziPillars,
>)
    ensures
        pillars is Some <==> utc_year_of(timestamp as int) is Some,
        pillars matches Some(p) ==> utc_year_of(timestamp as int) matches Some(year) && p
            == bazi_pillars_spec(year, timestamp as int, longitude as int, solar),
{
    match utc_year(timestamp) {
        Some(year) => Some(bazi_pillars_at(year, timestamp, longitude, solar)),
        None => None,
    }
}

/// The four pillars of the instant `timestamp` at a place of geographic
/// longitude `longitude`, with the sun where the series of
/// [`crate::sun::solar_position`] puts it for the sine `sin` and the arc
/// tangent `atan2`; there are none for an instant that the calendar does
/// not hold or whose Julian Day cannot be written.
pub open spec fn calc_bazi_pillars_spec<S: Fn(i64) -> i64, A: Fn(i64, i64) -> i64>(
    sin: S,
    atan2: A,
    timestamp: int,
    longitude: int,
) -> Option<BaziPillars> {
    match utc_year_of(timestamp) {
        Some(year) => if i64::MIN <= jd_of_timestamp(timestamp) <= i64::MAX {
            Some(
                bazi_pillars_spec(
                    year,
                    timestamp,
                    longitude,
                    solar_position_spec(sin, atan2, jd_of_timestamp(timestamp)),
                ),
            )
        } else {
            None
        },
        None => None,
    }
}

/// Computes the four pillars of an instant from the instant and the
/// place alone.
///
/// `timestamp` is in seconds since the start of 1970 in UTC, `longitude`
/// the geographic longitude in microdegrees, east positive.  The position
/// of the sun is computed for the Julian Day of the instant; `sin` and
/// `atan2` are the sine and the arc tangent that the series is summed
/// with.
pub fn calc_bazi_pillars<S: Fn(i64) -> i64, A: Fn(i64, i64) -> i64>(
    timestamp: i64,
    longitude: i64,
    sin: &S,
    atan2: &A,
) -> (pillars: Option<BaziPillars>)
    requires
        sine_total(*sin),
        sine_bounded(*sin),
        arc_total(*atan2),
    ensures
        pillars is Some <==> calc_bazi_pillars_spec(
            *sin,
            *atan2,
            timestamp as int,
            longitude as int,
        ) is Some,
        sine_deterministic(*sin) && arc_deterministic(*atan2) ==> pillars
            == calc_bazi_pillars_spec(*sin, *atan2, timestamp as int, longitude as int),
        pillars matches Some(p) ==> valid_pillar(p.year) && valid_pillar(p.month) && valid_pillar(
            p.day,
        ) && valid_pillar(p.hour),
{
    let year: i32 = match utc_year(timestamp) {
        Some(year) => year,
        None => {
            return None;
        },
    };
    let jd: i128 = (timestamp as i128) * 1_000_000 + 210_866_760_000_000_000;
    if jd < (i64::MIN as i128) || jd > (i64::MAX as i128) {
        return None;
    }
    let solar: SolarPosition = solar_position(jd as i64, sin, atan2);
    Some(bazi_pillars_at(year, timestamp, longitude, solar))
}

/// The luck cycles of a chart run forward through the months for a man
/// born in a year of an even stem and for a woman born in a year of an odd
/// stem, and backward for the others.
pub open spec fn dayun_forward_spec(year_gan_idx: int, is_male: bool) -> bool {
    is_male == (year_gan_idx % 2 == 0)
}

/// Whether the luck cycles run forward.
pub fn dayun_runs_forward(year_gan_idx: usize, is_male: bool) -> (forward: bool)
    ensures
        forward == dayun_forward_spec(year_gan_idx as int, is_male),
{
    let year_is_yang: bool = year_gan_idx % 2 == 0;
    (is_male && year_is_yang) || (!is_male && !year_is_yang)
}

/// The age at which the first luck cycle starts, in millionths of a year:
/// a year for every three days between the birth and the jie towards which
/// the cycles run, and one year at the least.
pub open spec fn dayun_start_age_spec(span: int) -> int {
    if span / 259200 < 1_000_000 {
        1_000_000
    } else {
        span / 259200
    }
}

/// The age at which the first luck cycle starts, in millionths of a year,
/// for a birth that lies `span` microseconds away from the jie towards
/// which the cycles run.
pub fn dayun_start_age(span: i64) -> (age: i64)
    ensures
        age == dayun_start_age_spec(span as int),
        age >= 1_000_000,
{
    let age: i64 = div_euclid_i64(span, 259200);
    if age < 1_000_000 {
        1_000_000
    } else {
        age
    }
}

/// Stem and branch of a day are both even or both odd.
pub proof fn lemma_day_pillar_parity(days: int)
    ensures
        day_pillar_spec(days).0 % 2 == day_pillar_spec(days).1 % 2,
        0 <= day_pillar_spec(days).0 < 10,
        0 <= day_pillar_spec(days).1 < 12,
{
    let a = days + 6;
    let b = days + 10;
    lemma_floor_div_bounds(a, 10);
    lemma_floor_div_bounds(b, 12);
    lemma_floor_div_bounds(a, 2);
    lemma_floor_div_bounds(b, 2);
    lemma_floor_div_unique(a, 2, (a / 10) * 5 + (a % 10) / 2, (a % 10) % 2);
    lemma_floor_div_unique(b, 2, (b / 12) * 6 + (b % 12) / 2, (b % 12) % 2);
    lemma_floor_div_unique(b, 2, a / 2 + 2, a % 2);
}

/// The pillars of years and of days come round every sixty.
pub proof fn lemma_sixty_cycle(n: int)
    ensures
        year_pillar_spec(n + 60) == year_pillar_spec(n),
        day_pillar_spec(n + 60) == day_pillar_spec(n),
{
    lemma_floor_div_bounds(n - 4, 10);
    lemma_floor_div_bounds(n - 4, 12);
    lemma_floor_div_unique(n + 60 - 4, 10, (n - 4) / 10 + 6, (n - 4) % 10);
    lemma_floor_div_unique(n + 60 - 4, 12, (n - 4) / 12 + 5, (n - 4) % 12);
    lemma_floor_div_bounds(n + 6, 10);
    lemma_floor_div_bounds(n + 10, 12);
    lemma_floor_div_unique(n + 60 + 6, 10, (n + 6) / 10 + 6, (n + 6) % 10);
    lemma_floor_div_unique(n + 60 + 10, 12, (n + 10) / 12 + 5, (n + 10) % 12);
}

/// The month of branch 2 starts at Lichun, and the month changes exactly
/// where a jie starts: the month branch is fixed by the solar term.
pub proof fn lemma_month_of_term(solar_longitude: int)
    requires
        0 <= solar_longitude < FULL_CIRCLE,
    ensures
        month_branch_spec(315 * DEGREE) == 2,
        month_branch_spec(solar_longitude) == (((term_index_of_longitude(solar_longitude) + 3)
            % 24) / 2 + 2) % 12,
{
    let term = solar_longitude / 15_000_000;
    let rest = solar_longitude % 15_000_000;
    lemma_floor_div_bounds(solar_longitude, 15_000_000);
    lemma_floor_div_unique(term, 24, 0, term);
    let shifted = solar_longitude + 45_000_000;
    if shifted >= 360_000_000 {
        lemma_floor_div_unique(shifted, 360_000_000, 1, shifted - 360_000_000);
        lemma_floor_div_unique(term + 3, 24, 1, term + 3 - 24);
        let half = (term + 3 - 24) / 2;
        lemma_floor_div_bounds(term + 3 - 24, 2);
        lemma_floor_div_unique(
            shifted - 360_000_000,
            30_000_000,
            half,
            ((term + 3 - 24) % 2) * 15_000_000 + rest,
        );
    } else {
        lemma_floor_div_unique(shifted, 360_000_000, 0, shifted);
        lemma_floor_div_unique(term + 3, 24, 0, term + 3);
        let half = (term + 3) / 2;
        lemma_floor_div_bounds(term + 3, 2);
        lemma_floor_div_unique(shifted, 30_000_000, half, ((term + 3) % 2) * 15_000_000 + rest);
    }
}

/// The first day of 1970 has the stem 6 and the branch 10.
pub proof fn lemma_epoch_day_pillar()
    ensures
        day_pillar_spec(pillar_days_spec(UNIX_EPOCH_JD as int, false)) == (6int, 10int),
{
}

} // verus!
