//! The period hierarchy: every year lies in one Yuan, one Hui, one Yun,
//! one Shi and one Xun, each level cutting the accumulated year axis into
//! segments of a fixed length that start at the epoch.
//!
//! Segments are half-open on the accumulated axis; a [`PeriodInfo`] shows
//! them as a closed interval of historical years.

use vstd::prelude::*;
use crate::decimal::{decimal_int, decimal_string};
use crate::euclid::{div_euclid, lemma_floor_div_bounds, rem_euclid, rem_euclid_i64};
use crate::hexagram::{hexagram_struct_spec, Hexagram};
use crate::sequence::{
    get_year_gua_seq, get_zheng_gua_seq, year_gua_spec, zheng_gua_seq_spec, YEAR_GUA_ANCHOR_INDEX,
    YEAR_GUA_ANCHOR_YEAR,
};
use crate::year_axis::{acc_to_year, acc_to_year_spec, year_to_acc, year_to_acc_spec, ACC_BC1};

verus! {

/// Accumulated year at which the first Yuan starts.
pub const EPOCH_ACC: i32 = 1;

/// Years in a Yuan.
pub const YUAN_YEARS: i32 = 129600;

/// Years in a Hui; twelve Hui make a Yuan.
pub const HUI_YEARS: i32 = 10800;

/// Years in a Yun; thirty Yun make a Hui.
pub const YUN_YEARS: i32 = 360;

/// Years in a Shi; twelve Shi make a Yun.
pub const SHI_YEARS: i32 = 30;

/// Years in a Xun; three Xun make a Shi.
pub const XUN_YEARS: i32 = 10;

/// Earliest year whose Yuan can be written in 32-bit years.
pub const MIN_YEAR: i32 = -2147354049;

/// Latest year whose Yuan can be written in 32-bit years.
pub const MAX_YEAR: i32 = 2147287030;

/// The names of the twelve Hui of a Yuan.
pub const HUI_NAMES: [&'static str; 12] = [
    "子", "丑", "寅", "卯", "辰", "巳", "午", "未", "申", "酉", "戌", "亥",
];

/// The names of the three Xun of a Shi.
pub const XUN_NAMES: [&'static str; 3] = ["甲子", "甲戌", "甲申"];

/// One level of the hierarchy around a year.
#[derive(Debug)]
pub struct PeriodInfo {
    pub name: String,
    pub start_year: i32,
    /// Last year of the period, inclusive.
    pub end_year: i32,
    /// Place of the period within its parent, counted from one.
    pub index: u32,
    /// Number of such periods in the parent.
    pub max_index: u32,
}

/// What a [`PeriodInfo`] holds, as mathematical values.
pub struct PeriodView {
    pub name: Seq<char>,
    pub start_year: int,
    pub end_year: int,
    pub index: int,
    pub max_index: int,
}

impl View for PeriodInfo {
    type V = PeriodView;

    open spec fn view(&self) -> PeriodView {
        PeriodView {
            name: self.name@,
            start_year: self.start_year as int,
            end_year: self.end_year as int,
            index: self.index as int,
            max_index: self.max_index as int,
        }
    }
}

impl Clone for PeriodInfo {
    fn clone(&self) -> (copy: Self)
        ensures
            copy == *self,
    {
        PeriodInfo {
            name: self.name.clone(),
            start_year: self.start_year,
            end_year: self.end_year,
            index: self.index,
            max_index: self.max_index,
        }
    }
}

/// The five periods around a year, and the hexagram of the year itself.
#[derive(Debug)]
pub struct HuangjiInfo {
    pub yuan: PeriodInfo,
    pub hui: PeriodInfo,
    pub yun: PeriodInfo,
    pub shi: PeriodInfo,
    pub xun: PeriodInfo,
    pub year_gua: String,
}

/// What a [`HuangjiInfo`] holds, as mathematical values.
pub struct HuangjiView {
    pub yuan: PeriodView,
    pub hui: PeriodView,
    pub yun: PeriodView,
    pub shi: PeriodView,
    pub xun: PeriodView,
    pub year_gua: Seq<char>,
}

impl View for HuangjiInfo {
    type V = HuangjiView;

    open spec fn view(&self) -> HuangjiView {
        HuangjiView {
            yuan: self.yuan@,
            hui: self.hui@,
            yun: self.yun@,
            shi: self.shi@,
            xun: self.xun@,
            year_gua: self.year_gua@,
        }
    }
}

impl Clone for HuangjiInfo {
    fn clone(&self) -> (copy: Self)
        ensures
            copy == *self,
    {
        HuangjiInfo {
            yuan: self.yuan.clone(),
            hui: self.hui.clone(),
            yun: self.yun.clone(),
            shi: self.shi.clone(),
            xun: self.xun.clone(),
            year_gua: self.year_gua.clone(),
        }
    }
}

/// The years whose periods can all be written in 32-bit years.
pub open spec fn year_supported(year: int) -> bool {
    year != 0 && MIN_YEAR <= year <= MAX_YEAR
}

/// The accumulated years of the supported years.
pub open spec fn acc_supported(acc: int) -> bool {
    i32::MIN + 196617 <= acc <= i32::MAX - 129600
}

/// Number of the segment of length `len` that holds `acc`, counted from
/// the epoch: a floor division, so that years before the epoch get
/// negative numbers.
pub open spec fn segment_index(acc: int, len: int) -> int {
    (acc - EPOCH_ACC) / len
}

/// First accumulated year of the segment of length `len` that holds `acc`.
pub open spec fn segment_start(acc: int, len: int) -> int {
    EPOCH_ACC + segment_index(acc, len) * len
}

/// The period of `len` years that starts at the accumulated year
/// `start_acc`, shown with its first and its last historical year.
pub open spec fn span_view(name: Seq<char>, start_acc: int, len: int, index: int, max_index: int)
    -> PeriodView {
    PeriodView {
        name,
        start_year: acc_to_year_spec(start_acc),
        end_year: acc_to_year_spec(start_acc + len - 1),
        index,
        max_index,
    }
}

/// A period of length `len` around `acc` with the given name and indices.
pub open spec fn period_view(name: Seq<char>, acc: int, len: int, index: int, max_index: int)
    -> PeriodView {
    span_view(name, segment_start(acc, len), len, index, max_index)
}

/// The value that an unsigned 32-bit field holds for the number `n`:
/// negative numbers wrap around.
pub open spec fn wrapped_u32(n: int) -> int {
    if n >= 0 {
        n
    } else {
        n + 0x1_0000_0000
    }
}

/// The Yuan around `acc`.  Yuan are numbered from one at the epoch and
/// named by their number.
pub open spec fn yuan_view(acc: int) -> PeriodView {
    let number = segment_index(acc, YUAN_YEARS as int) + 1;
    period_view(decimal_int(number), acc, YUAN_YEARS as int, wrapped_u32(number), 1)
}

/// The Hui around `acc`, named by its place among the twelve of its Yuan.
pub open spec fn hui_view(acc: int) -> PeriodView {
    let in_yuan = segment_index(acc, HUI_YEARS as int) % 12;
    period_view(HUI_NAMES[in_yuan]@, acc, HUI_YEARS as int, in_yuan + 1, 12)
}

/// The hexagram of the Yun with the given number: six Yun in a row share
/// one proper hexagram, and each of the six flips another line of it.
pub open spec fn yun_hexagram_spec(yun_index: int) -> Hexagram {
    let proper = hexagram_struct_spec(zheng_gua_seq_spec()[((yun_index % 360) / 6) % 60]);
    Hexagram { upper: proper.0, lower: proper.1 }.change_line_spec((yun_index % 6) as u16)
}

/// The Yun around `acc`, named by its hexagram.
pub open spec fn yun_view(acc: int) -> PeriodView {
    let yun_index = segment_index(acc, YUN_YEARS as int);
    period_view(
        yun_hexagram_spec(yun_index).name_spec(),
        acc,
        YUN_YEARS as int,
        yun_index % 30 + 1,
        30,
    )
}

/// The hexagram of a Shi: the hexagram of its Yun with one more line
/// flipped, the same line for two Shi in a row.
pub open spec fn shi_hexagram_spec(yun_index: int, shi_in_yun: int) -> Hexagram {
    yun_hexagram_spec(yun_index).change_line_spec((shi_in_yun / 2) as u16)
}

/// The Shi around `acc`, named by its hexagram.
pub open spec fn shi_view(acc: int) -> PeriodView {
    let in_yun = segment_index(acc, SHI_YEARS as int) % 12;
    period_view(
        shi_hexagram_spec(segment_index(acc, YUN_YEARS as int), in_yun).name_spec(),
        acc,
        SHI_YEARS as int,
        in_yun + 1,
        12,
    )
}

/// The Xun around `acc`, named by its place among the three of its Shi.
pub open spec fn xun_view(acc: int) -> PeriodView {
    let in_shi = segment_index(acc, XUN_YEARS as int) % 3;
    period_view(XUN_NAMES[in_shi]@, acc, XUN_YEARS as int, in_shi + 1, 3)
}

/// The five periods around the historical year `year`, and its hexagram.
pub open spec fn hj_info_spec(year: int) -> HuangjiView {
    let acc = year_to_acc_spec(year);
    HuangjiView {
        yuan: yuan_view(acc),
        hui: hui_view(acc),
        yun: yun_view(acc),
        shi: shi_view(acc),
        xun: xun_view(acc),
        year_gua: year_gua_spec(year),
    }
}

/// Years from `current_acc` to `next_boundary_acc`, and zero where the
/// boundary is already behind.
pub open spec fn years_to_next_boundary_spec(current_acc: int, next_boundary_acc: int) -> int {
    if next_boundary_acc >= current_acc {
        next_boundary_acc - current_acc
    } else {
        0
    }
}

/// Years left until the next period boundary; never negative.
pub fn years_to_next_boundary(current_acc: i32, next_boundary_acc: i32) -> (years: i32)
    requires
        i32::MIN <= next_boundary_acc - current_acc <= i32::MAX,
    ensures
        years == years_to_next_boundary_spec(current_acc as int, next_boundary_acc as int),
        years >= 0,
{
    let diff: i32 = next_boundary_acc - current_acc;
    if diff > 0 {
        diff
    } else {
        0
    }
}

/// The period of `len` years that starts at `start_acc`, with the given
/// name and indices.
pub(crate) fn span_info(name: String, start_acc: i32, len: i32, index: u32, max_index: u32) -> (p:
    PeriodInfo)
    requires
        i32::MIN + ACC_BC1 + 1 <= start_acc,
        0 < len,
        start_acc + len <= i32::MAX,
    ensures
        p@ == span_view(name@, start_acc as int, len as int, index as int, max_index as int),
{
    let start_year: i32 = acc_to_year(start_acc);
    let end_year: i32 = acc_to_year(start_acc + len - 1);
    PeriodInfo { name, start_year, end_year, index, max_index }
}

/// First accumulated year of the segment of length `len` around `acc`.
pub(crate) fn segment_start_of(acc: i32, len: i32) -> (start_acc: i32)
    requires
        acc_supported(acc as int),
        0 < len <= YUAN_YEARS,
    ensures
        start_acc == segment_start(acc as int, len as int),
        acc - len < start_acc <= acc,
{
    let t: i32 = acc - EPOCH_ACC;
    let index_from_epoch: i32 = div_euclid(t, len);
    proof {
        lemma_floor_div_bounds(t as int, len as int);
        assert(index_from_epoch * len == len * index_from_epoch) by (nonlinear_arith);
    }
    EPOCH_ACC + index_from_epoch * len
}

/// The period of length `len` around `acc`, with the given name and
/// indices.
fn period_info(name: String, acc: i32, len: i32, index: u32, max_index: u32) -> (p: PeriodInfo)
    requires
        acc_supported(acc as int),
        0 < len <= YUAN_YEARS,
    ensures
        p@ == period_view(name@, acc as int, len as int, index as int, max_index as int),
{
    span_info(name, segment_start_of(acc, len), len, index, max_index)
}

/// The number `n` as an unsigned 32-bit value; negative numbers wrap
/// around.
fn wrap_u32(n: i32) -> (w: u32)
    ensures
        w == wrapped_u32(n as int),
{
    if n >= 0 {
        n as u32
    } else {
        u32::MAX - ((-(n + 1)) as u32)
    }
}

/// The hexagram of the Yun with number `yun_index`.
pub(crate) fn yun_hexagram(yun_index: i32, zheng_gua_seq: &Vec<String>) -> (h: Hexagram)
    requires
        zheng_gua_seq@.len() == 60,
        forall|k: int| 0 <= k < 60 ==> zheng_gua_seq@[k]@ == #[trigger] zheng_gua_seq_spec()[k],
    ensures
        h == yun_hexagram_spec(yun_index as int),
        h.wf(),
{
    let zheng_gua_idx: usize = (rem_euclid(yun_index, 360) / 6) as usize;
    let zheng_gua_name: &String = &zheng_gua_seq[zheng_gua_idx % zheng_gua_seq.len()];
    let zheng_hex = Hexagram::from_name(zheng_gua_name.as_str());
    let yun_line: usize = rem_euclid(yun_index, 6) as usize;
    zheng_hex.change_line(yun_line)
}

/// The hexagram of the historical year `year`.
pub fn year_gua(year: i32) -> (name: String)
    ensures
        name@ == year_gua_spec(year as int),
{
    let val_seq = get_year_gua_seq();
    let year_offset: i64 = year as i64 - YEAR_GUA_ANCHOR_YEAR as i64;
    let target_idx: i64 = rem_euclid_i64(YEAR_GUA_ANCHOR_INDEX as i64 + year_offset, 60);
    val_seq[target_idx as usize].clone()
}

/// Computes the five periods around a historical year and the hexagram of
/// the year.
///
/// There is no year zero; the caller rules it out.
pub fn get_hj_info(hj_year: i32) -> (info: HuangjiInfo)
    requires
        year_supported(hj_year as int),
    ensures
        info@ == hj_info_spec(hj_year as int),
{
    let acc: i32 = year_to_acc(hj_year).expect("hj_year should not be 0");
    let t: i32 = acc - EPOCH_ACC;

    let yuan_index: i32 = div_euclid(t, YUAN_YEARS);
    proof {
        lemma_floor_div_bounds(t as int, YUAN_YEARS as int);
    }
    let yuan = period_info(
        decimal_string(yuan_index + 1),
        acc,
        YUAN_YEARS,
        wrap_u32(yuan_index + 1),
        1,
    );

    let hui_index: i32 = div_euclid(t, HUI_YEARS);
    let hui_in_yuan: i32 = rem_euclid(hui_index, 12);
    let hui = period_info(
        HUI_NAMES[hui_in_yuan as usize].to_string(),
        acc,
        HUI_YEARS,
        (hui_in_yuan + 1) as u32,
        12,
    );

    let yun_global_index: i32 = div_euclid(t, YUN_YEARS);
    let yun_in_hui: i32 = rem_euclid(yun_global_index, 30);
    let zheng_gua_seq = get_zheng_gua_seq();
    let yun_hex = yun_hexagram(yun_global_index, &zheng_gua_seq);
    let yun = period_info(yun_hex.name(), acc, YUN_YEARS, (yun_in_hui + 1) as u32, 30);

    let shi_global_index: i32 = div_euclid(t, SHI_YEARS);
    let shi_in_yun: i32 = rem_euclid(shi_global_index, 12);
    let shi_line: usize = (shi_in_yun / 2) as usize;
    let shi_hex = yun_hex.change_line(shi_line);
    let shi = period_info(shi_hex.name(), acc, SHI_YEARS, (shi_in_yun + 1) as u32, 12);

    let xun_global_index: i32 = div_euclid(t, XUN_YEARS);
    let xun_in_shi: i32 = rem_euclid(xun_global_index, 3);
    let xun = period_info(
        XUN_NAMES[xun_in_shi as usize].to_string(),
        acc,
        XUN_YEARS,
        (xun_in_shi + 1) as u32,
        3,
    );

    let year_gua = year_gua(hj_year);

    HuangjiInfo { yuan, hui, yun, shi, xun, year_gua }
}

} // verus!
