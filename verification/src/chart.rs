//! What is read off the four pillars of a birth: the ten gods, the stems
//! hidden in the branches and the balance of the five elements.
//!
//! The pillars themselves are reckoned here by the clock: the day turns
//! at 23:00 of the clock, and the hour is the clock hour.

use vstd::prelude::*;
use crate::euclid::rem_euclid_i64;
use crate::ganzhi::{
    before_lichun, day_pillar_spec, month_branch_spec, month_stem_spec, year_pillar_spec,
};
use crate::jieqi::FULL_CIRCLE;

verus! {

/// The five elements, in the order in which each brings forth the next.
pub const WUXING: [&'static str; 5] = ["木", "火", "土", "金", "水"];

/// The element of each of the twelve branches, as its place in
/// [`WUXING`].
pub const ZHI_ELEMENT: [u8; 12] = [4, 2, 0, 0, 2, 1, 1, 2, 3, 3, 2, 4];

/// A stem, as its place in the cycle of ten.
pub open spec fn valid_stem(idx: int) -> bool {
    0 <= idx < 10
}

/// A branch, as its place in the cycle of twelve.
pub open spec fn valid_branch(idx: int) -> bool {
    0 <= idx < 12
}

/// The ten god that the stem `target_gan_idx` is to the stem of the day:
/// the pair of gods is fixed by how many steps the element of the stem
/// lies after that of the day in the cycle of the elements, and which of
/// the pair it is by whether the two stems are of the same polarity.
pub open spec fn ten_god_spec(day_gan_idx: int, target_gan_idx: int) -> Seq<char> {
    let same = day_gan_idx % 2 == target_gan_idx % 2;
    let relation = (target_gan_idx / 2 + 5 - day_gan_idx / 2) % 5;
    if relation == 0 {
        if same {
            "比肩"@
        } else {
            "劫财"@
        }
    } else if relation == 1 {
        if same {
            "食神"@
        } else {
            "伤官"@
        }
    } else if relation == 2 {
        if same {
            "偏财"@
        } else {
            "正财"@
        }
    } else if relation == 3 {
        if same {
            "偏官"@
        } else {
            "正官"@
        }
    } else {
        if same {
            "偏印"@
        } else {
            "正印"@
        }
    }
}

/// The ten god that a stem is to the stem of the day.
pub fn calculate_ten_god(day_gan_idx: usize, target_gan_idx: usize) -> (god: &'static str)
    requires
        valid_stem(day_gan_idx as int),
        valid_stem(target_gan_idx as int),
    ensures
        god@ == ten_god_spec(day_gan_idx as int, target_gan_idx as int),
{
    let day_is_yang: bool = day_gan_idx % 2 == 0;
    let target_is_yang: bool = target_gan_idx % 2 == 0;
    let same_yin_yang: bool = day_is_yang == target_is_yang;
    let day_wuxing: usize = day_gan_idx / 2;
    let target_wuxing: usize = target_gan_idx / 2;
    let relation: usize = (target_wuxing + 5 - day_wuxing) % 5;
    if relation == 0 {
        if same_yin_yang {
            "比肩"
        } else {
            "劫财"
        }
    } else if relation == 1 {
        if same_yin_yang {
            "食神"
        } else {
            "伤官"
        }
    } else if relation == 2 {
        if same_yin_yang {
            "偏财"
        } else {
            "正财"
        }
    } else if relation == 3 {
        if same_yin_yang {
            "偏官"
        } else {
            "正官"
        }
    } else {
        if same_yin_yang {
            "偏印"
        } else {
            "正印"
        }
    }
}

/// The stem hidden in slot `slot` of the branch `zhi_idx`, where the slot
/// holds one: slot 2 holds the main stem of the branch, slots 0 and 1 the
/// lesser ones.
pub open spec fn hidden_stem_spec(zhi_idx: int, slot: int) -> Option<int> {
    if slot == 2 {
        Some(
            if zhi_idx == 0 {
                9int
            } else if zhi_idx == 1 {
                5
            } else if zhi_idx == 2 {
                0
            } else if zhi_idx == 3 {
                1
            } else if zhi_idx == 4 {
                4
            } else if zhi_idx == 5 {
                2
            } else if zhi_idx == 6 {
                3
            } else if zhi_idx == 7 {
                5
            } else if zhi_idx == 8 {
                6
            } else if zhi_idx == 9 {
                7
            } else if zhi_idx == 10 {
                4
            } else {
                8
            },
        )
    } else if slot == 1 {
        if zhi_idx == 1 {
            Some(7int)
        } else if zhi_idx == 2 {
            Some(2int)
        } else if zhi_idx == 4 {
            Some(1int)
        } else if zhi_idx == 5 {
            Some(6int)
        } else if zhi_idx == 7 {
            Some(1int)
        } else if zhi_idx == 8 {
            Some(8int)
        } else if zhi_idx == 10 {
            Some(7int)
        } else {
            None
        }
    } else if slot == 0 {
        if zhi_idx == 1 {
            Some(9int)
        } else if zhi_idx == 2 {
            Some(4int)
        } else if zhi_idx == 4 {
            Some(9int)
        } else if zhi_idx == 5 {
            Some(4int)
        } else if zhi_idx == 6 {
            Some(5int)
        } else if zhi_idx == 7 {
            Some(3int)
        } else if zhi_idx == 8 {
            Some(4int)
        } else if zhi_idx == 10 {
            Some(3int)
        } else if zhi_idx == 11 {
            Some(0int)
        } else {
            None
        }
    } else {
        None
    }
}

/// The stem hidden in a slot of a branch.
pub fn hidden_stem(zhi_idx: usize, slot: usize) -> (stem: Option<usize>)
    ensures
        match stem {
            Some(s) => hidden_stem_spec(zhi_idx as int, slot as int) == Some(s as int) && s < 10,
            None => hidden_stem_spec(zhi_idx as int, slot as int) is None,
        },
{
    if slot == 2 {
        Some(
            if zhi_idx == 0 {
                9
            } else if zhi_idx == 1 {
                5
            } else if zhi_idx == 2 {
                0
            } else if zhi_idx == 3 {
                1
            } else if zhi_idx == 4 {
                4
            } else if zhi_idx == 5 {
                2
            } else if zhi_idx == 6 {
                3
            } else if zhi_idx == 7 {
                5
            } else if zhi_idx == 8 {
                6
            } else if zhi_idx == 9 {
                7
            } else if zhi_idx == 10 {
                4
            } else {
                8
            },
        )
    } else if slot == 1 {
        if zhi_idx == 1 {
            Some(7)
        } else if zhi_idx == 2 {
            Some(2)
        } else if zhi_idx == 4 {
            Some(1)
        } else if zhi_idx == 5 {
            Some(6)
        } else if zhi_idx == 7 {
            Some(1)
        } else if zhi_idx == 8 {
            Some(8)
        } else if zhi_idx == 10 {
            Some(7)
        } else {
            None
        }
    } else if slot == 0 {
        if zhi_idx == 1 {
            Some(9)
        } else if zhi_idx == 2 {
            Some(4)
        } else if zhi_idx == 4 {
            Some(9)
        } else if zhi_idx == 5 {
            Some(4)
        } else if zhi_idx == 6 {
            Some(5)
        } else if zhi_idx == 7 {
            Some(3)
        } else if zhi_idx == 8 {
            Some(4)
        } else if zhi_idx == 10 {
            Some(3)
        } else if zhi_idx == 11 {
            Some(0)
        } else {
            None
        }
    } else {
        None
    }
}

/// The rank of a hidden stem.
#[derive(Debug, Clone, Copy, PartialEq, Eq, Structural)]
pub enum HiddenRank {
    /// The lesser stem that lingers from the season before: 余气.
    Residual,
    /// The stem of the middle rank: 中气.
    Middle,
    /// The main stem of the branch: 本气.
    Main,
}

/// A stem hidden in a branch, with what it is to the stem of the day.
#[derive(Debug, Clone, Copy)]
pub struct HiddenStem {
    /// The hidden stem.
    pub gan_idx: usize,
    /// The ten god that the hidden stem is to the stem of the day.
    pub ten_god: &'static str,
    pub rank: HiddenRank,
    /// The share of the branch's strength that the stem holds, in
    /// hundredths.
    pub energy: u32,
}

/// The rank of the stem in slot `slot` of the branch `zhi_idx`: the main
/// stem stands in slot 2; the stem of slot 1 is of the middle rank where
/// slot 0 holds a stem too, and lingers where it does not.
pub open spec fn hidden_rank_spec(zhi_idx: int, slot: int) -> HiddenRank {
    if slot == 2 {
        HiddenRank::Main
    } else if slot == 1 && hidden_stem_spec(zhi_idx, 0) is Some {
        HiddenRank::Middle
    } else {
        HiddenRank::Residual
    }
}

/// The share of strength that goes with a rank.
pub open spec fn rank_energy_spec(rank: HiddenRank) -> int {
    match rank {
        HiddenRank::Residual => 30,
        HiddenRank::Middle => 20,
        HiddenRank::Main => 50,
    }
}

/// The stem hidden in slot `slot` of the branch `zhi_idx`, as it is
/// listed for a day of stem `day_gan_idx`.
pub open spec fn hidden_entry_spec(zhi_idx: int, slot: int, day_gan_idx: int) -> Option<
    (int, Seq<char>, HiddenRank, int),
> {
    match hidden_stem_spec(zhi_idx, slot) {
        Some(gan) => Some(
            (
                gan,
                ten_god_spec(day_gan_idx, gan),
                hidden_rank_spec(zhi_idx, slot),
                rank_energy_spec(hidden_rank_spec(zhi_idx, slot)),
            ),
        ),
        None => None,
    }
}

/// What a listed stem holds, as mathematical values.
pub open spec fn hidden_view(stem: HiddenStem) -> (int, Seq<char>, HiddenRank, int) {
    (stem.gan_idx as int, stem.ten_god@, stem.rank, stem.energy as int)
}

/// The entries of the slots 0 to `slots - 1` of a branch that hold a
/// stem, in the order of the slots.
pub open spec fn hidden_list_spec(zhi_idx: int, day_gan_idx: int, slots: int) -> Seq<
    (int, Seq<char>, HiddenRank, int),
>
    decreases slots,
{
    if slots <= 0 {
        seq![]
    } else {
        match hidden_entry_spec(zhi_idx, slots - 1, day_gan_idx) {
            Some(entry) => hidden_list_spec(zhi_idx, day_gan_idx, slots - 1).push(entry),
            None => hidden_list_spec(zhi_idx, day_gan_idx, slots - 1),
        }
    }
}

/// Lists the stems hidden in the branch `zhi_idx` with the ten god of
/// each for a day of stem `day_gan_idx`, the lesser stems first.
pub fn get_hidden_stems_with_gods(zhi_idx: usize, day_gan_idx: usize) -> (list: Vec<HiddenStem>)
    requires
        valid_branch(zhi_idx as int),
        valid_stem(day_gan_idx as int),
    ensures
        list@.len() == hidden_list_spec(zhi_idx as int, day_gan_idx as int, 3).len(),
        forall|k: int|
            0 <= k < list@.len() ==> hidden_view(#[trigger] list@[k]) == hidden_list_spec(
                zhi_idx as int,
                day_gan_idx as int,
                3,
            )[k],
        1 <= list@.len() <= 3,
{
    let mut result: Vec<HiddenStem> = Vec::new();
    let first_is_empty: bool = hidden_stem(zhi_idx, 0).is_none();
    let mut i: usize = 0;
    while i < 3
        invariant
            i <= 3,
            valid_branch(zhi_idx as int),
            valid_stem(day_gan_idx as int),
            first_is_empty == (hidden_stem_spec(zhi_idx as int, 0) is None),
            result@.len() == hidden_list_spec(zhi_idx as int, day_gan_idx as int, i as int).len(),
            result@.len() <= i,
            forall|k: int|
                0 <= k < result@.len() ==> hidden_view(#[trigger] result@[k]) == hidden_list_spec(
                    zhi_idx as int,
                    day_gan_idx as int,
                    i as int,
                )[k],
        decreases 3 - i,
    {
        match hidden_stem(zhi_idx, i) {
            Some(gan_idx) => {
                let ten_god: &'static str = calculate_ten_god(day_gan_idx, gan_idx);
                let (rank, energy) = if i == 0 {
                    (HiddenRank::Residual, 30u32)
                } else if i == 1 {
                    if first_is_empty {
                        (HiddenRank::Residual, 30u32)
                    } else {
                        (HiddenRank::Middle, 20u32)
                    }
                } else {
                    (HiddenRank::Main, 50u32)
                };
                result.push(HiddenStem { gan_idx, ten_god, rank, energy });
            },
            None => {},
        }
        i = i + 1;
    }
    result
}

/// The quotient of a division that rounds towards zero.
pub open spec fn truncated_div(a: int, d: int) -> int {
    if a >= 0 {
        a / d
    } else {
        -((-a) / d)
    }
}

/// The pillars of an instant by the clock.
#[derive(Debug, Clone, Copy)]
pub struct ClockPillars {
    pub year: (usize, usize),
    pub month: (usize, usize),
    pub day: (usize, usize),
    pub hour: (usize, usize),
}

/// The pillars by the clock of an instant in the civil year `year`, at
/// the clock hour `hour`, with the sun at `solar_longitude`: the year turns
/// at Lichun and the months at the jie, the day pillar is counted in whole
/// days from the start of 1970 and is that of the next day from 23:00 on,
/// and the hour pillar goes by the clock hour.
pub open spec fn clock_pillars_spec(year: int, hour: int, timestamp: int, solar_longitude: int)
    -> ClockPillars {
    let bazi_year = if before_lichun(solar_longitude) {
        year - 1
    } else {
        year
    };
    let year_pillar = year_pillar_spec(bazi_year);
    let month_branch = month_branch_spec(solar_longitude);
    let days = truncated_div(timestamp, 86400) + if hour >= 23 {
        1int
    } else {
        0int
    };
    let day_pillar = day_pillar_spec(days);
    let hour_branch = if hour >= 23 {
        0int
    } else {
        ((hour + 1) / 2) % 12
    };
    ClockPillars {
        year: (year_pillar.0 as usize, year_pillar.1 as usize),
        month: (month_stem_spec(year_pillar.0, month_branch) as usize, month_branch as usize),
        day: (day_pillar.0 as usize, day_pillar.1 as usize),
        hour: ((((day_pillar.0 % 5) * 2 + hour_branch) % 10) as usize, hour_branch as usize),
    }
}

/// Reckons the four pillars of an instant by the clock.
///
/// `year` and `hour` are the civil year and the clock hour of the instant
/// `timestamp`, `solar_longitude` the longitude of the sun in
/// microdegrees, on the circle.
pub fn clock_pillars(year: i32, hour: u32, timestamp: i64, solar_longitude: i64) -> (pillars:
    ClockPillars)
    requires
        hour < 24,
        0 <= solar_longitude < FULL_CIRCLE,
    ensures
        pillars == clock_pillars_spec(
            year as int,
            hour as int,
            timestamp as int,
            solar_longitude as int,
        ),
        pillars.year.0 < 10 && pillars.year.1 < 12,
        pillars.month.0 < 10 && pillars.month.1 < 12,
        pillars.day.0 < 10 && pillars.day.1 < 12,
        pillars.hour.0 < 10 && pillars.hour.1 < 12,
{
    let year_pillar = crate::ganzhi::calc_year_pillar(year, solar_longitude);
    let month_pillar = crate::ganzhi::calc_month_pillar(year_pillar.0, solar_longitude);
    let mut days_from_epoch: i64 = if timestamp >= 0 {
        timestamp / 86400
    } else if timestamp == i64::MIN {
        -106751991167300
    } else {
        -((-timestamp) / 86400)
    };
    if hour >= 23 {
        days_from_epoch = days_from_epoch + 1;
    }
    let day_gan_idx: usize = rem_euclid_i64(days_from_epoch + 6, 10) as usize;
    let day_zhi_idx: usize = rem_euclid_i64(days_from_epoch + 10, 12) as usize;
    let hour_zhi_idx: usize = if hour >= 23 {
        0
    } else {
        (((hour + 1) / 2) % 12) as usize
    };
    let zi_hour_gan_idx: usize = (day_gan_idx % 5) * 2;
    let hour_gan_idx: usize = (zi_hour_gan_idx + hour_zhi_idx) % 10;
    ClockPillars {
        year: year_pillar,
        month: month_pillar,
        day: (day_gan_idx, day_zhi_idx),
        hour: (hour_gan_idx, hour_zhi_idx),
    }
}

/// One where a sign of element `sign_element` is of the element
/// `element`, and nothing where it is not.
#[verifier::opaque]
pub open spec fn is_element(sign_element: int, element: int) -> int {
    if sign_element == element {
        1
    } else {
        0
    }
}

/// How often the element `element` occurs among the stems and branches
/// of the four pillars; elements are given by their place in [`WUXING`].
pub open spec fn element_count_spec(pillars: ClockPillars, element: int) -> int {
    is_element(pillars.year.0 as int / 2, element) + is_element(
        pillars.month.0 as int / 2,
        element,
    ) + is_element(pillars.day.0 as int / 2, element) + is_element(
        pillars.hour.0 as int / 2,
        element,
    ) + is_element(ZHI_ELEMENT[pillars.year.1 as int] as int, element) + is_element(
        ZHI_ELEMENT[pillars.month.1 as int] as int,
        element,
    ) + is_element(ZHI_ELEMENT[pillars.day.1 as int] as int, element) + is_element(
        ZHI_ELEMENT[pillars.hour.1 as int] as int,
        element,
    )
}

/// How strong the element of the day stem stands in a chart.
#[derive(Debug, Clone, Copy, PartialEq, Eq, Structural)]
pub enum Strength {
    Strong,
    Balanced,
    Weak,
}

/// The balance of the five elements in a chart.
#[derive(Debug, Clone, Copy)]
pub struct ElementBalance {
    /// How often each element occurs, in the order of [`WUXING`].
    pub counts: [u8; 5],
    /// The element of the day stem.
    pub day_master: usize,
    pub strength: Strength,
}

/// The strength of an element that occurs `count` times among the eight
/// signs: strong from three, weak up to one.
pub open spec fn strength_spec(count: int) -> Strength {
    if count >= 3 {
        Strength::Strong
    } else if count <= 1 {
        Strength::Weak
    } else {
        Strength::Balanced
    }
}

/// One where a sign of element `sign_element` is of the element
/// `element`.
fn element_hit(sign_element: usize, element: usize) -> (hit: u8)
    ensures
        hit == is_element(sign_element as int, element as int),
        hit <= 1,
{
    reveal(is_element);
    if sign_element == element {
        1
    } else {
        0
    }
}

/// How often an element occurs among the eight signs of a chart.
fn count_element(pillars: &ClockPillars, element: usize) -> (n: u8)
    requires
        pillars.year.1 < 12,
        pillars.month.1 < 12,
        pillars.day.1 < 12,
        pillars.hour.1 < 12,
    ensures
        n == element_count_spec(*pillars, element as int),
        n <= 8,
{
    let stems: u8 = element_hit(pillars.year.0 / 2, element) + element_hit(
        pillars.month.0 / 2,
        element,
    ) + element_hit(pillars.day.0 / 2, element) + element_hit(pillars.hour.0 / 2, element);
    let branches: u8 = element_hit(ZHI_ELEMENT[pillars.year.1] as usize, element) + element_hit(
        ZHI_ELEMENT[pillars.month.1] as usize,
        element,
    ) + element_hit(ZHI_ELEMENT[pillars.day.1] as usize, element) + element_hit(
        ZHI_ELEMENT[pillars.hour.1] as usize,
        element,
    );
    stems + branches
}

/// Counts the elements of the eight signs of a chart and weighs the
/// element of the day stem.
pub fn element_balance(pillars: &ClockPillars) -> (balance: ElementBalance)
    requires
        pillars.year.0 < 10 && pillars.year.1 < 12,
        pillars.month.0 < 10 && pillars.month.1 < 12,
        pillars.day.0 < 10 && pillars.day.1 < 12,
        pillars.hour.0 < 10 && pillars.hour.1 < 12,
    ensures
        forall|e: int| 0 <= e < 5 ==> #[trigger] balance.counts[e] == element_count_spec(*pillars, e),
        balance.day_master == pillars.day.0 / 2,
        balance.strength == strength_spec(
            element_count_spec(*pillars, (pillars.day.0 / 2) as int),
        ),
{
    let counts: [u8; 5] = [
        count_element(pillars, 0),
        count_element(pillars, 1),
        count_element(pillars, 2),
        count_element(pillars, 3),
        count_element(pillars, 4),
    ];
    let day_master: usize = pillars.day.0 / 2;
    let day_master_count: u8 = counts[day_master];
    let strength: Strength = if day_master_count >= 3 {
        Strength::Strong
    } else if day_master_count <= 1 {
        Strength::Weak
    } else {
        Strength::Balanced
    };
    ElementBalance { counts, day_master, strength }
}

/// The elements before `upto` whose count is zero, in their order.
pub open spec fn missing_spec(counts: Seq<u8>, upto: int) -> Seq<usize>
    decreases upto,
{
    if upto <= 0 {
        seq![]
    } else if counts[upto - 1] == 0 {
        missing_spec(counts, upto - 1).push((upto - 1) as usize)
    } else {
        missing_spec(counts, upto - 1)
    }
}

/// Lists the elements that do not occur in a chart, in the order of
/// [`WUXING`].
pub fn missing_elements(counts: &[u8; 5]) -> (missing: Vec<usize>)
    ensures
        missing@ == missing_spec(counts@, 5),
        forall|k: int| 0 <= k < missing@.len() ==> missing@[k] < 5 && counts[missing@[k] as int] == 0,
{
    let mut missing: Vec<usize> = Vec::new();
    let mut e: usize = 0;
    while e < 5
        invariant
            e <= 5,
            missing@ == missing_spec(counts@, e as int),
            forall|k: int|
                0 <= k < missing@.len() ==> missing@[k] < 5 && counts[missing@[k] as int] == 0,
        decreases 5 - e,
    {
        if counts[e] == 0 {
            missing.push(e);
        }
        e = e + 1;
    }
    missing
}

/// The place in [`crate::ganzhi::NAYIN`] of the Nayin that a chart shows
/// for the pillar of stem `gan_idx` and branch `zhi_idx`.
pub open spec fn pillar_nayin_index_spec(gan_idx: int, zhi_idx: int) -> int {
    ((gan_idx / 2) * 6 + zhi_idx / 2) % 30
}

/// The Nayin that a chart shows for a pillar.
pub fn pillar_nayin(gan_idx: usize, zhi_idx: usize) -> (name: &'static str)
    requires
        valid_stem(gan_idx as int),
        valid_branch(zhi_idx as int),
    ensures
        name@ == crate::ganzhi::NAYIN[pillar_nayin_index_spec(gan_idx as int, zhi_idx as int)]@,
{
    let nayin_idx: usize = ((gan_idx / 2) * 6 + zhi_idx / 2) % 30;
    crate::ganzhi::NAYIN[nayin_idx]
}

/// Every sign has one element, so the counts of the five elements add up
/// to the eight signs.
pub proof fn lemma_eight_signs(pillars: ClockPillars)
    requires
        pillars.year.0 < 10 && pillars.year.1 < 12,
        pillars.month.0 < 10 && pillars.month.1 < 12,
        pillars.day.0 < 10 && pillars.day.1 < 12,
        pillars.hour.0 < 10 && pillars.hour.1 < 12,
    ensures
        element_count_spec(pillars, 0) + element_count_spec(pillars, 1) + element_count_spec(
            pillars,
            2,
        ) + element_count_spec(pillars, 3) + element_count_spec(pillars, 4) == 8,
{
    lemma_one_element(pillars.year.0 as int, pillars.year.1 as int);
    lemma_one_element(pillars.month.0 as int, pillars.month.1 as int);
    lemma_one_element(pillars.day.0 as int, pillars.day.1 as int);
    lemma_one_element(pillars.hour.0 as int, pillars.hour.1 as int);
}

/// A stem and a branch each have one of the five elements.
proof fn lemma_one_element(stem: int, branch: int)
    requires
        0 <= stem < 10,
        0 <= branch < 12,
    ensures
        is_element(stem / 2, 0) + is_element(stem / 2, 1) + is_element(stem / 2, 2) + is_element(
            stem / 2,
            3,
        ) + is_element(stem / 2, 4) == 1,
        is_element(ZHI_ELEMENT[branch] as int, 0) + is_element(ZHI_ELEMENT[branch] as int, 1)
            + is_element(ZHI_ELEMENT[branch] as int, 2) + is_element(
            ZHI_ELEMENT[branch] as int,
            3,
        ) + is_element(ZHI_ELEMENT[branch] as int, 4) == 1,
{
    reveal(is_element);
}

} // verus!
