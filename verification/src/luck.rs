//! The luck cycles of a chart: the great cycles of ten years that follow
//! the month of birth, the small cycle that follows the hour of birth, and
//! the pillars of the years to come.
//!
//! Ages are given in millionths of a year where they are not whole.

use vstd::prelude::*;
use crate::chart::{valid_branch, valid_stem};
use crate::euclid::{div_euclid_i128, lemma_floor_div_bounds, rem_euclid_i64, round_div, round_div_spec};
use crate::ganzhi::{dayun_start_age, dayun_start_age_spec, year_pillar_spec};
use crate::hexagram::str_eq;
use crate::jieqi::{term_index_of_longitude, DEGREE, FULL_CIRCLE, TERM_WIDTH};
use crate::solar::DAY;
use crate::term_search::{mean_travel_time, MEAN_DAILY_MOTION};

verus! {

/// One great luck cycle of ten years.
#[derive(Debug, Clone, Copy, PartialEq, Eq, Structural)]
pub struct DayunCycle {
    /// Number of the cycle, from one.
    pub cycle: u32,
    pub gan_idx: usize,
    pub zhi_idx: usize,
    /// Age at which the cycle starts, in whole years.
    pub start_age: i32,
    /// Age at which the cycle ends.
    pub end_age: i32,
    /// Year in which the cycle starts.
    pub start_year: i32,
    /// Year in which the cycle ends.
    pub end_year: i32,
}

/// The small luck of a year.
#[derive(Debug, Clone, Copy, PartialEq, Eq, Structural)]
pub struct Xiaoyun {
    pub age: i32,
    pub year: i32,
    pub gan_idx: usize,
    pub zhi_idx: usize,
}

/// The pillar of a year to come.
#[derive(Debug, Clone, Copy, PartialEq, Eq, Structural)]
pub struct Liunian {
    pub year: i32,
    pub age: i32,
    pub gan_idx: usize,
    pub zhi_idx: usize,
}

/// The cycles of a chart run forward for "male" in a year of an even stem
/// and for "female" in a year of an odd stem, and backward otherwise.
pub open spec fn runs_forward_spec(gender: Seq<char>, year_gan_idx: int) -> bool {
    (gender == "male"@ && year_gan_idx % 2 == 0) || (gender == "female"@ && year_gan_idx % 2 != 0)
}

/// Whether the cycles of a chart run forward.
pub fn runs_forward(gender: &str, year_gan_idx: i32) -> (forward: bool)
    ensures
        forward == runs_forward_spec(gender@, year_gan_idx as int),
{
    let year_is_yang: bool = rem_euclid_i64(year_gan_idx as i64, 2) == 0;
    (str_eq(gender, "male") && year_is_yang) || (str_eq(gender, "female") && !year_is_yang)
}

/// Great luck cycle number `i`, counted from zero, of a chart: its stem
/// and branch lie `i + 1` steps after those of the month where the cycles
/// run forward and before them where they run backward; it starts ten
/// years after the cycle before it and lasts until nine years later, the
/// ages rounded to whole years.
pub open spec fn dayun_cycle_spec(
    month_gan_idx: int,
    month_zhi_idx: int,
    forward: bool,
    birth_year: int,
    start_age: int,
    i: int,
) -> DayunCycle {
    let step = if forward {
        i + 1
    } else {
        -(i + 1)
    };
    let start = round_div_spec(start_age + i * 10_000_000, 1_000_000);
    let end = round_div_spec(start_age + i * 10_000_000 + 9_000_000, 1_000_000);
    DayunCycle {
        cycle: (i + 1) as u32,
        gan_idx: ((month_gan_idx + step) % 10) as usize,
        zhi_idx: ((month_zhi_idx + step) % 12) as usize,
        start_age: start as i32,
        end_age: end as i32,
        start_year: (birth_year + start) as i32,
        end_year: (birth_year + end) as i32,
    }
}

/// The birth year and the starting age are such that the years of ten
/// cycles can be written.
pub open spec fn dayun_fits(birth_year: int, start_age: int) -> bool {
    &&& 0 <= start_age <= 1_000_000_000_000
    &&& i32::MIN <= birth_year
    &&& birth_year + 1_000_100 <= i32::MAX
}

/// Lists the ten great luck cycles of a chart.
///
/// `start_age` is the age at which the first cycle starts, in millionths
/// of a year.
pub fn calculate_dayun(
    month_gan_idx: i32,
    month_zhi_idx: i32,
    year_gan_idx: i32,
    gender: &str,
    birth_year: i32,
    start_age: i64,
) -> (cycles: Vec<DayunCycle>)
    requires
        valid_stem(month_gan_idx as int),
        valid_branch(month_zhi_idx as int),
        dayun_fits(birth_year as int, start_age as int),
    ensures
        cycles@ == Seq::new(
            10,
            |i: int|
                dayun_cycle_spec(
                    month_gan_idx as int,
                    month_zhi_idx as int,
                    runs_forward_spec(gender@, year_gan_idx as int),
                    birth_year as int,
                    start_age as int,
                    i,
                ),
        ),
{
    let forward: bool = runs_forward(gender, year_gan_idx);
    let mut dayun_cycles: Vec<DayunCycle> = Vec::new();
    let mut i: i32 = 0;
    while i < 10
        invariant
            0 <= i <= 10,
            valid_stem(month_gan_idx as int),
            valid_branch(month_zhi_idx as int),
            dayun_fits(birth_year as int, start_age as int),
            dayun_cycles@.len() == i,
            forall|k: int|
                0 <= k < i ==> #[trigger] dayun_cycles@[k] == dayun_cycle_spec(
                    month_gan_idx as int,
                    month_zhi_idx as int,
                    forward,
                    birth_year as int,
                    start_age as int,
                    k,
                ),
        decreases 10 - i,
    {
        let cycle_num: i32 = if forward {
            i + 1
        } else {
            -(i + 1)
        };
        let gan_idx: i64 = rem_euclid_i64((month_gan_idx + cycle_num) as i64, 10);
        let zhi_idx: i64 = rem_euclid_i64((month_zhi_idx + cycle_num) as i64, 12);
        let start_age_for_cycle: i128 = (start_age as i128) + (i as i128) * 10_000_000;
        let end_age: i128 = start_age_for_cycle + 9_000_000;
        let start_years: i128 = round_div(start_age_for_cycle, 1_000_000);
        let end_years: i128 = round_div(end_age, 1_000_000);
        proof {
            lemma_floor_div_bounds(2 * start_age_for_cycle + 1_000_000, 2_000_000);
            lemma_floor_div_bounds(2 * end_age + 1_000_000, 2_000_000);
        }
        dayun_cycles.push(
            DayunCycle {
                cycle: (i + 1) as u32,
                gan_idx: gan_idx as usize,
                zhi_idx: zhi_idx as usize,
                start_age: start_years as i32,
                end_age: end_years as i32,
                start_year: ((birth_year as i128) + start_years) as i32,
                end_year: ((birth_year as i128) + end_years) as i32,
            },
        );
        i = i + 1;
    }
    assert(dayun_cycles@ =~= Seq::new(
        10,
        |i: int|
            dayun_cycle_spec(
                month_gan_idx as int,
                month_zhi_idx as int,
                runs_forward_spec(gender@, year_gan_idx as int),
                birth_year as int,
                start_age as int,
                i,
            ),
    ));
    dayun_cycles
}

/// The small luck of the year `current_year`: its stem and branch lie as
/// many steps from those of the hour of birth as the age counts years,
/// after them for "male" and before them otherwise.
pub open spec fn xiaoyun_spec(
    hour_gan_idx: int,
    hour_zhi_idx: int,
    gender: Seq<char>,
    birth_year: int,
    current_year: int,
) -> Xiaoyun {
    let age = current_year - birth_year;
    let offset = if gender == "male"@ {
        age
    } else {
        -age
    };
    Xiaoyun {
        age: age as i32,
        year: current_year as i32,
        gan_idx: ((hour_gan_idx + offset) % 10) as usize,
        zhi_idx: ((hour_zhi_idx + offset) % 12) as usize,
    }
}

/// The small luck of a year.
pub fn calculate_xiaoyun(
    hour_gan_idx: i32,
    hour_zhi_idx: i32,
    gender: &str,
    birth_year: i32,
    current_year: i32,
) -> (luck: Xiaoyun)
    requires
        i32::MIN < current_year - birth_year <= i32::MAX,
    ensures
        luck == xiaoyun_spec(
            hour_gan_idx as int,
            hour_zhi_idx as int,
            gender@,
            birth_year as int,
            current_year as int,
        ),
        luck.gan_idx < 10,
        luck.zhi_idx < 12,
{
    let forward: bool = str_eq(gender, "male");
    let age: i32 = current_year - birth_year;
    let offset: i64 = if forward {
        age as i64
    } else {
        -(age as i64)
    };
    let gan_idx: i64 = rem_euclid_i64(hour_gan_idx as i64 + offset, 10);
    let zhi_idx: i64 = rem_euclid_i64(hour_zhi_idx as i64 + offset, 12);
    Xiaoyun { age, year: current_year, gan_idx: gan_idx as usize, zhi_idx: zhi_idx as usize }
}

/// The pillar of the year that lies `i` years after `current_year`.
pub open spec fn liunian_spec(birth_year: int, current_year: int, i: int) -> Liunian {
    let year = current_year + i;
    Liunian {
        year: year as i32,
        age: (year - birth_year) as i32,
        gan_idx: year_pillar_spec(year).0 as usize,
        zhi_idx: year_pillar_spec(year).1 as usize,
    }
}

/// Lists the pillars of `num_years` years from `current_year` on.
pub fn calculate_liunian(birth_year: i32, current_year: i32, num_years: i32) -> (years: Vec<Liunian>)
    requires
        current_year + num_years <= i32::MAX,
        i32::MIN <= current_year - birth_year,
        current_year + num_years - birth_year <= i32::MAX,
    ensures
        years@ == Seq::new(
            if num_years > 0 {
                num_years as nat
            } else {
                0nat
            },
            |i: int| liunian_spec(birth_year as int, current_year as int, i),
        ),
{
    let mut liunian: Vec<Liunian> = Vec::new();
    let mut i: i32 = 0;
    while i < num_years
        invariant
            0 <= i,
            i <= num_years || num_years < 0,
            num_years < 0 ==> i == 0,
            current_year + num_years <= i32::MAX,
            i32::MIN <= current_year - birth_year,
            current_year + num_years - birth_year <= i32::MAX,
            liunian@.len() == i,
            forall|k: int|
                0 <= k < i ==> #[trigger] liunian@[k] == liunian_spec(
                    birth_year as int,
                    current_year as int,
                    k,
                ),
        decreases num_years - i,
    {
        let year: i32 = current_year + i;
        let age: i32 = year - birth_year;
        let gan_idx: i64 = rem_euclid_i64(year as i64 - 4, 10);
        let zhi_idx: i64 = rem_euclid_i64(year as i64 - 4, 12);
        liunian.push(Liunian { year, age, gan_idx: gan_idx as usize, zhi_idx: zhi_idx as usize });
        i = i + 1;
    }
    assert(liunian@ =~= Seq::new(
        if num_years > 0 {
            num_years as nat
        } else {
            0nat
        },
        |i: int| liunian_spec(birth_year as int, current_year as int, i),
    ));
    liunian
}

/// The way, in microdegrees, from the longitude `current_lon` to the
/// boundary between two months that the count of days goes by: forward to
/// the start of the next pair of solar terms, and backward to the start of
/// the pair in which the longitude lies, a full circle where it stands
/// right on it; in the first pair the count goes back to 330°.
pub open spec fn jieqi_distance_spec(current_lon: int, forward: bool) -> int {
    let term_idx = term_index_of_longitude(current_lon);
    if forward {
        let next_idx = ((term_idx / 2) * 2 + 2) % 24;
        let target = if next_idx == 0 {
            360 * DEGREE
        } else {
            next_idx * TERM_WIDTH
        };
        if target > current_lon {
            target - current_lon
        } else {
            target + 360 * DEGREE - current_lon
        }
    } else {
        let prev_idx = if term_idx < 2 {
            22
        } else {
            (term_idx / 2) * 2
        };
        let target = prev_idx * TERM_WIDTH;
        if current_lon > target {
            current_lon - target
        } else {
            current_lon + 360 * DEGREE - target
        }
    }
}

/// The time, in microseconds, that the sun takes at its mean motion from
/// the longitude `current_lon` to the boundary that the count of days goes
/// by, or took from that boundary.
pub fn days_to_next_jieqi(current_lon: i64, forward: bool) -> (time: i64)
    requires
        0 <= current_lon < FULL_CIRCLE,
    ensures
        time == mean_travel_time(jieqi_distance_spec(current_lon as int, forward)),
        0 <= time,
{
    let current_term_idx: i64 = (current_lon / TERM_WIDTH) % 24;
    let lon_diff: i64 = if forward {
        let next_idx: i64 = ((current_term_idx / 2) * 2 + 2) % 24;
        let target_lon: i64 = if next_idx == 0 {
            360_000_000
        } else {
            next_idx * 15_000_000
        };
        if target_lon > current_lon {
            target_lon - current_lon
        } else {
            target_lon + 360_000_000 - current_lon
        }
    } else {
        let prev_idx: i64 = if current_term_idx < 2 {
            22
        } else {
            (current_term_idx / 2) * 2
        };
        let target_lon: i64 = prev_idx * 15_000_000;
        if current_lon > target_lon {
            current_lon - target_lon
        } else {
            current_lon + 360_000_000 - target_lon
        }
    };
    proof {
        lemma_floor_div_bounds(lon_diff * DAY, MEAN_DAILY_MOTION as int);
    }
    div_euclid_i128((lon_diff as i128) * 86_400_000_000, 985_600) as i64
}

/// The age at which the first great cycle starts, in millionths of a
/// year: a year for every three days on the way that
/// [`days_to_next_jieqi`] measures, and one year at the least.
pub fn calculate_start_age(current_lon: i64, gender: &str, year_gan_idx: i32) -> (age: i64)
    requires
        0 <= current_lon < FULL_CIRCLE,
    ensures
        age == dayun_start_age_spec(
            mean_travel_time(
                jieqi_distance_spec(
                    current_lon as int,
                    runs_forward_spec(gender@, year_gan_idx as int),
                ),
            ),
        ),
        age >= 1_000_000,
{
    let forward: bool = runs_forward(gender, year_gan_idx);
    let days: i64 = days_to_next_jieqi(current_lon, forward);
    dayun_start_age(days)
}

} // verus!
