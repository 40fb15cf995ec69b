//! What holds of the period hierarchy for every historical year.

use vstd::prelude::*;
use crate::euclid::{lemma_floor_div_bounds, lemma_floor_div_refines, lemma_floor_div_step};
use crate::hexagram::{
    hexagram_struct_spec, is_hexagram_name, lemma_change_line_named, lemma_struct_of_name,
    unknown_name, Hexagram,
};
use crate::period::{
    hj_info_spec, period_view, yun_hexagram_spec, segment_index, segment_start, year_supported,
    years_to_next_boundary_spec, PeriodView, HUI_YEARS, SHI_YEARS, XUN_YEARS, YUAN_YEARS,
    YUN_YEARS,
};
use crate::sequence::zheng_gua_seq_spec;
use crate::year_axis::{acc_to_year_spec, next_year, year_to_acc_spec};

verus! {

/// Length of a period in years, measured on the accumulated axis.
pub open spec fn period_length(p: PeriodView) -> int {
    year_to_acc_spec(p.end_year) - year_to_acc_spec(p.start_year) + 1
}

/// The period holds the accumulated year `acc`: it starts at or before it
/// and ends after it.
pub open spec fn period_contains(p: PeriodView, acc: int) -> bool {
    year_to_acc_spec(p.start_year) <= acc < year_to_acc_spec(p.end_year) + 1
}

/// Period `inner` lies within period `outer`.
pub open spec fn period_within(inner: PeriodView, outer: PeriodView) -> bool {
    year_to_acc_spec(outer.start_year) <= year_to_acc_spec(inner.start_year)
        && year_to_acc_spec(inner.end_year) <= year_to_acc_spec(outer.end_year)
}

/// From one year to the next, a period either stays the same or is
/// followed by the period that starts with the next year, whose index is
/// one higher or, after the last period of the parent, one again.
pub open spec fn period_steps(before: PeriodView, after: PeriodView, year: int) -> bool {
    if year == before.end_year {
        &&& after.start_year == next_year(year)
        &&& after.max_index == before.max_index
        &&& after.index == if before.index == before.max_index {
            1
        } else {
            before.index + 1
        }
    } else {
        after == before
    }
}

/// Every segment of a level has the length of that level, also where it
/// spans the seam between 1 BC and 1 AD, and it holds the year it was
/// computed for.
pub proof fn lemma_segment(name: Seq<char>, acc: int, len: int, index: int, max_index: int)
    requires
        len > 0,
    ensures
        period_length(period_view(name, acc, len, index, max_index)) == len,
        period_contains(period_view(name, acc, len, index, max_index), acc),
        year_to_acc_spec(period_view(name, acc, len, index, max_index).start_year)
            == segment_start(acc, len),
        segment_start(acc, len) <= acc < segment_start(acc, len) + len,
{
    let t = acc - 1;
    assert(t == len * (t / len) + t % len && 0 <= t % len < len) by (nonlinear_arith)
        requires
            len > 0,
    ;
    assert((t / len) * len == len * (t / len)) by (nonlinear_arith);
}

/// The intervals of the five levels have the lengths 129600, 10800, 360,
/// 30 and 10, measured on the accumulated axis.
pub proof fn lemma_segment_lengths(year: int)
    requires
        year != 0,
    ensures
        period_length(hj_info_spec(year).yuan) == 129600,
        period_length(hj_info_spec(year).hui) == 10800,
        period_length(hj_info_spec(year).yun) == 360,
        period_length(hj_info_spec(year).shi) == 30,
        period_length(hj_info_spec(year).xun) == 10,
{
    let acc = year_to_acc_spec(year);
    let info = hj_info_spec(year);
    lemma_segment(info.yuan.name, acc, YUAN_YEARS as int, info.yuan.index, 1);
    lemma_segment(info.hui.name, acc, HUI_YEARS as int, info.hui.index, 12);
    lemma_segment(info.yun.name, acc, YUN_YEARS as int, info.yun.index, 30);
    lemma_segment(info.shi.name, acc, SHI_YEARS as int, info.shi.index, 12);
    lemma_segment(info.xun.name, acc, XUN_YEARS as int, info.xun.index, 3);
}

/// The accumulated year of `year` lies in the half-open segment of every
/// level, and `year` itself between the first and the last year shown.
pub proof fn lemma_segment_containment(year: int)
    requires
        year != 0,
    ensures
        period_contains(hj_info_spec(year).yuan, year_to_acc_spec(year)),
        period_contains(hj_info_spec(year).hui, year_to_acc_spec(year)),
        period_contains(hj_info_spec(year).yun, year_to_acc_spec(year)),
        period_contains(hj_info_spec(year).shi, year_to_acc_spec(year)),
        period_contains(hj_info_spec(year).xun, year_to_acc_spec(year)),
        hj_info_spec(year).yuan.start_year <= year <= hj_info_spec(year).yuan.end_year,
        hj_info_spec(year).hui.start_year <= year <= hj_info_spec(year).hui.end_year,
        hj_info_spec(year).yun.start_year <= year <= hj_info_spec(year).yun.end_year,
        hj_info_spec(year).shi.start_year <= year <= hj_info_spec(year).shi.end_year,
        hj_info_spec(year).xun.start_year <= year <= hj_info_spec(year).xun.end_year,
{
    let acc = year_to_acc_spec(year);
    let info = hj_info_spec(year);
    lemma_segment(info.yuan.name, acc, YUAN_YEARS as int, info.yuan.index, 1);
    lemma_segment(info.hui.name, acc, HUI_YEARS as int, info.hui.index, 12);
    lemma_segment(info.yun.name, acc, YUN_YEARS as int, info.yun.index, 30);
    lemma_segment(info.shi.name, acc, SHI_YEARS as int, info.shi.index, 12);
    lemma_segment(info.xun.name, acc, XUN_YEARS as int, info.xun.index, 3);
}

/// The segments of length `len * count` are cut into `count` segments of
/// length `len` each: the number of the longer segment is the number of the
/// shorter one divided by `count`, and the shorter lies within the longer.
pub proof fn lemma_level_refines(acc: int, len: int, count: int)
    requires
        len > 0,
        count > 0,
    ensures
        segment_index(acc, len * count) == segment_index(acc, len) / count,
        segment_start(acc, len * count) <= segment_start(acc, len),
        segment_start(acc, len) + len <= segment_start(acc, len * count) + len * count,
{
    let t = acc - 1;
    lemma_floor_div_refines(t, len, count);
    lemma_floor_div_bounds(t, len);
    lemma_floor_div_bounds(t, len * count);
    lemma_floor_div_bounds(t / len, count);
    let q = t / len;
    let big = t / (len * count);
    let qr = q % count;
    assert(big * (len * count) <= q * len && q * len + len <= big * (len * count) + len * count)
        by (nonlinear_arith)
        requires
            q == count * big + qr,
            0 <= qr < count,
            len > 0,
            count > 0,
    ;
}

/// From one accumulated year to the next, the segment stays the same
/// except after its last year, where the next segment starts.
pub proof fn lemma_level_step(acc: int, len: int)
    requires
        len > 0,
    ensures
        acc + 1 == segment_start(acc, len) + len ==> segment_index(acc + 1, len) == segment_index(
            acc,
            len,
        ) + 1 && segment_start(acc + 1, len) == acc + 1,
        acc + 1 != segment_start(acc, len) + len ==> segment_index(acc + 1, len) == segment_index(
            acc,
            len,
        ) && segment_start(acc + 1, len) == segment_start(acc, len),
{
    let t = acc - 1;
    lemma_floor_div_step(t, len);
    lemma_floor_div_bounds(t, len);
    lemma_floor_div_bounds(t + 1, len);
    assert((t / len) * len == len * (t / len)) by (nonlinear_arith);
    assert(((t + 1) / len) * len == len * ((t + 1) / len)) by (nonlinear_arith);
}

/// Each period lies within the period of the level above it.
pub proof fn lemma_nested(year: int)
    requires
        year != 0,
    ensures
        period_within(hj_info_spec(year).xun, hj_info_spec(year).shi),
        period_within(hj_info_spec(year).shi, hj_info_spec(year).yun),
        period_within(hj_info_spec(year).yun, hj_info_spec(year).hui),
        period_within(hj_info_spec(year).hui, hj_info_spec(year).yuan),
{
    let acc = year_to_acc_spec(year);
    lemma_level_refines(acc, 10, 3);
    lemma_level_refines(acc, 30, 12);
    lemma_level_refines(acc, 360, 30);
    lemma_level_refines(acc, 10800, 12);
}

/// The year is the last of the period exactly when its accumulated year
/// is the last of the segment.
proof fn lemma_last_year(year: int, len: int)
    requires
        year != 0,
        len > 0,
    ensures
        year == acc_to_year_spec(segment_start(year_to_acc_spec(year), len) + len - 1)
            <==> year_to_acc_spec(year) + 1 == segment_start(year_to_acc_spec(year), len) + len,
        year_to_acc_spec(next_year(year)) == year_to_acc_spec(year) + 1,
        acc_to_year_spec(year_to_acc_spec(year) + 1) == next_year(year),
{
}

proof fn lemma_hui_steps(year: int)
    requires
        year != 0,
    ensures
        period_steps(hj_info_spec(year).hui, hj_info_spec(next_year(year)).hui, year),
{
    let acc = year_to_acc_spec(year);
    lemma_last_year(year, 10800);
    lemma_level_step(acc, 10800);
    lemma_floor_div_step(segment_index(acc, 10800), 12);
}

proof fn lemma_xun_steps(year: int)
    requires
        year != 0,
    ensures
        period_steps(hj_info_spec(year).xun, hj_info_spec(next_year(year)).xun, year),
{
    let acc = year_to_acc_spec(year);
    lemma_last_year(year, 10);
    lemma_level_step(acc, 10);
    lemma_floor_div_step(segment_index(acc, 10), 3);
}

proof fn lemma_yun_steps(year: int)
    requires
        year != 0,
    ensures
        period_steps(hj_info_spec(year).yun, hj_info_spec(next_year(year)).yun, year),
{
    let acc = year_to_acc_spec(year);
    lemma_last_year(year, 360);
    lemma_level_step(acc, 360);
    lemma_floor_div_step(segment_index(acc, 360), 30);
}

proof fn lemma_shi_steps(year: int)
    requires
        year != 0,
    ensures
        period_steps(hj_info_spec(year).shi, hj_info_spec(next_year(year)).shi, year),
{
    let acc = year_to_acc_spec(year);
    lemma_last_year(year, 30);
    lemma_level_step(acc, 30);
    lemma_floor_div_step(segment_index(acc, 30), 12);
    lemma_level_refines(acc, 30, 12);
    lemma_level_refines(acc + 1, 30, 12);
}

proof fn lemma_yuan_steps(year: int)
    requires
        year != 0,
    ensures
        year != hj_info_spec(year).yuan.end_year ==> hj_info_spec(next_year(year)).yuan
            == hj_info_spec(year).yuan,
        year == hj_info_spec(year).yuan.end_year ==> {
            &&& hj_info_spec(next_year(year)).yuan.start_year == next_year(year)
            &&& segment_index(year_to_acc_spec(next_year(year)), YUAN_YEARS as int)
                == segment_index(year_to_acc_spec(year), YUAN_YEARS as int) + 1
        },
{
    let acc = year_to_acc_spec(year);
    lemma_last_year(year, 129600);
    lemma_level_step(acc, 129600);
}

/// Stepping from a year to the next one, skipping the missing year zero,
/// leaves the Hui, Yun, Shi and Xun as they are or moves each to its
/// successor: the index never skips and never goes backward, and after the
/// last period of a parent comes the first of the next.  The Yuan stays, or
/// the Yuan with the next number starts.
pub proof fn lemma_index_steps(year: int)
    requires
        year != 0,
    ensures
        period_steps(hj_info_spec(year).hui, hj_info_spec(next_year(year)).hui, year),
        period_steps(hj_info_spec(year).yun, hj_info_spec(next_year(year)).yun, year),
        period_steps(hj_info_spec(year).shi, hj_info_spec(next_year(year)).shi, year),
        period_steps(hj_info_spec(year).xun, hj_info_spec(next_year(year)).xun, year),
        year != hj_info_spec(year).yuan.end_year ==> hj_info_spec(next_year(year)).yuan
            == hj_info_spec(year).yuan,
        year == hj_info_spec(year).yuan.end_year ==> {
            &&& hj_info_spec(next_year(year)).yuan.start_year == next_year(year)
            &&& segment_index(year_to_acc_spec(next_year(year)), YUAN_YEARS as int)
                == segment_index(year_to_acc_spec(year), YUAN_YEARS as int) + 1
        },
{
    lemma_hui_steps(year);
    lemma_yun_steps(year);
    lemma_shi_steps(year);
    lemma_xun_steps(year);
    lemma_yuan_steps(year);
}

/// The periods of a supported year can be written in 32-bit years, with a
/// year to spare after each.
pub proof fn lemma_segment_bounds(year: int)
    requires
        year_supported(year),
    ensures
        i32::MIN <= hj_info_spec(year).yuan.start_year,
        hj_info_spec(year).yuan.end_year < i32::MAX,
        hj_info_spec(year).hui.end_year < i32::MAX,
        hj_info_spec(year).yun.end_year < i32::MAX,
        hj_info_spec(year).shi.end_year < i32::MAX,
        hj_info_spec(year).xun.end_year < i32::MAX,
{
    lemma_nested(year);
    let acc = year_to_acc_spec(year);
    let info = hj_info_spec(year);
    lemma_segment(info.yuan.name, acc, YUAN_YEARS as int, info.yuan.index, 1);
    lemma_segment(info.hui.name, acc, HUI_YEARS as int, info.hui.index, 12);
    lemma_segment(info.yun.name, acc, YUN_YEARS as int, info.yun.index, 30);
    lemma_segment(info.shi.name, acc, SHI_YEARS as int, info.shi.index, 12);
    lemma_segment(info.xun.name, acc, XUN_YEARS as int, info.xun.index, 3);
}

/// The Yun and the Shi of every year are named by hexagrams of the table,
/// never by the name for a pair that is no hexagram.
pub proof fn lemma_period_names(year: int)
    requires
        year != 0,
    ensures
        is_hexagram_name(hj_info_spec(year).yun.name),
        is_hexagram_name(hj_info_spec(year).shi.name),
        hj_info_spec(year).yun.name != unknown_name(),
        hj_info_spec(year).shi.name != unknown_name(),
{
    let acc = year_to_acc_spec(year);
    let yun_index = segment_index(acc, YUN_YEARS as int);
    let shi_in_yun = segment_index(acc, SHI_YEARS as int) % 12;
    let proper = hexagram_struct_spec(zheng_gua_seq_spec()[((yun_index % 360) / 6) % 60]);
    lemma_struct_of_name(zheng_gua_seq_spec()[((yun_index % 360) / 6) % 60]);
    let base = Hexagram { upper: proper.0, lower: proper.1 };
    lemma_change_line_named(base, (yun_index % 6) as u16);
    let yun_hex = yun_hexagram_spec(yun_index);
    lemma_change_line_named(yun_hex, (shi_in_yun / 2) as u16);
}

/// The distance from a year to the start of the next Shi and of the next
/// Xun is never negative: it is at least one year and at most the length
/// of the period.
pub proof fn lemma_years_to_next_boundary(year: int)
    requires
        year != 0,
    ensures
        1 <= years_to_next_boundary_spec(
            year_to_acc_spec(year),
            year_to_acc_spec(hj_info_spec(year).shi.end_year) + 1,
        ) <= 30,
        1 <= years_to_next_boundary_spec(
            year_to_acc_spec(year),
            year_to_acc_spec(hj_info_spec(year).xun.end_year) + 1,
        ) <= 10,
        forall|current: int, boundary: int|
            0 <= #[trigger] years_to_next_boundary_spec(current, boundary),
{
    let acc = year_to_acc_spec(year);
    let info = hj_info_spec(year);
    lemma_segment(info.shi.name, acc, SHI_YEARS as int, info.shi.index, 12);
    lemma_segment(info.xun.name, acc, XUN_YEARS as int, info.xun.index, 3);
}

} // verus!
