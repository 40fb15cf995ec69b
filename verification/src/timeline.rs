//! The periods around a year together with their siblings: all the Hui of
//! its Yuan, all the Yun of its Hui, all the Shi of its Yun and all the Xun
//! of its Shi.

use vstd::prelude::*;
use crate::euclid::{div_euclid, lemma_floor_div_bounds, lemma_floor_div_refines};
use crate::period::{
    acc_supported, get_hj_info, hj_info_spec, segment_index, segment_start, segment_start_of,
    span_info, span_view, year_supported, yun_hexagram, yun_hexagram_spec, HuangjiInfo,
    HuangjiView, PeriodInfo, PeriodView, EPOCH_ACC, HUI_NAMES, HUI_YEARS, SHI_YEARS, XUN_NAMES,
    XUN_YEARS, YUAN_YEARS, YUN_YEARS,
};

use crate::sequence::{get_zheng_gua_seq, zheng_gua_seq_spec};
use crate::year_axis::{year_to_acc, year_to_acc_spec};

verus! {

/// The periods around a year and, for each level, the list of the
/// periods that share its parent, in their order.
#[derive(Debug)]
pub struct TimelineData {
    pub current: HuangjiInfo,
    pub yuan_list: Vec<PeriodInfo>,
    pub hui_list: Vec<PeriodInfo>,
    pub yun_list: Vec<PeriodInfo>,
    pub shi_list: Vec<PeriodInfo>,
    pub xun_list: Vec<PeriodInfo>,
}

/// What a [`TimelineData`] holds, as mathematical values.
pub struct TimelineView {
    pub current: HuangjiView,
    pub yuan_list: Seq<PeriodView>,
    pub hui_list: Seq<PeriodView>,
    pub yun_list: Seq<PeriodView>,
    pub shi_list: Seq<PeriodView>,
    pub xun_list: Seq<PeriodView>,
}

/// The views of a list of periods.
pub open spec fn period_views(list: Seq<PeriodInfo>) -> Seq<PeriodView> {
    Seq::new(list.len(), |i: int| list[i]@)
}

impl View for TimelineData {
    type V = TimelineView;

    open spec fn view(&self) -> TimelineView {
        TimelineView {
            current: self.current@,
            yuan_list: period_views(self.yuan_list@),
            hui_list: period_views(self.hui_list@),
            yun_list: period_views(self.yun_list@),
            shi_list: period_views(self.shi_list@),
            xun_list: period_views(self.xun_list@),
        }
    }
}

/// The `i`-th Hui of the Yuan around `acc`.
pub open spec fn hui_sibling(acc: int, i: int) -> PeriodView {
    span_view(
        HUI_NAMES[i]@,
        segment_start(acc, YUAN_YEARS as int) + i * HUI_YEARS,
        HUI_YEARS as int,
        i + 1,
        12,
    )
}

/// The `i`-th Yun of the Hui around `acc`.
pub open spec fn yun_sibling(acc: int, i: int) -> PeriodView {
    span_view(
        yun_hexagram_spec(segment_index(acc, HUI_YEARS as int) * 30 + i).name_spec(),
        segment_start(acc, HUI_YEARS as int) + i * YUN_YEARS,
        YUN_YEARS as int,
        i + 1,
        30,
    )
}

/// The `i`-th Shi of the Yun around `acc`.
pub open spec fn shi_sibling(acc: int, i: int) -> PeriodView {
    span_view(
        yun_hexagram_spec(segment_index(acc, YUN_YEARS as int)).change_line_spec(
            (i / 2) as u16,
        ).name_spec(),
        segment_start(acc, YUN_YEARS as int) + i * SHI_YEARS,
        SHI_YEARS as int,
        i + 1,
        12,
    )
}

/// The `i`-th Xun of the Shi around `acc`.
pub open spec fn xun_sibling(acc: int, i: int) -> PeriodView {
    span_view(
        XUN_NAMES[i]@,
        segment_start(acc, SHI_YEARS as int) + i * XUN_YEARS,
        XUN_YEARS as int,
        i + 1,
        3,
    )
}

/// The periods around the historical year `year` with their siblings.
pub open spec fn timeline_spec(year: int) -> TimelineView {
    let acc = year_to_acc_spec(year);
    TimelineView {
        current: hj_info_spec(year),
        yuan_list: seq![hj_info_spec(year).yuan],
        hui_list: Seq::new(12, |i: int| hui_sibling(acc, i)),
        yun_list: Seq::new(30, |i: int| yun_sibling(acc, i)),
        shi_list: Seq::new(12, |i: int| shi_sibling(acc, i)),
        xun_list: Seq::new(3, |i: int| xun_sibling(acc, i)),
    }
}

fn hui_siblings(acc: i32) -> (list: Vec<PeriodInfo>)
    requires
        acc_supported(acc as int),
    ensures
        period_views(list@) == Seq::new(12, |i: int| hui_sibling(acc as int, i)),
{
    let yuan_start_acc: i32 = segment_start_of(acc, YUAN_YEARS);
    let mut list: Vec<PeriodInfo> = Vec::new();
    let mut i: i32 = 0;
    while i < 12
        invariant
            0 <= i <= 12,
            acc_supported(acc as int),
            yuan_start_acc == segment_start(acc as int, YUAN_YEARS as int),
            acc - YUAN_YEARS < yuan_start_acc <= acc,
            list@.len() == i,
            forall|k: int| 0 <= k < i ==> (#[trigger] list@[k])@ == hui_sibling(acc as int, k),
        decreases 12 - i,
    {
        let start_acc: i32 = yuan_start_acc + i * HUI_YEARS;
        list.push(span_info(HUI_NAMES[i as usize].to_string(), start_acc, HUI_YEARS, (i + 1) as u32, 12));
        i = i + 1;
    }
    assert(period_views(list@) =~= Seq::new(12, |i: int| hui_sibling(acc as int, i)));
    list
}

fn yun_siblings(acc: i32, zheng_gua_seq: &Vec<String>) -> (list: Vec<PeriodInfo>)
    requires
        acc_supported(acc as int),
        zheng_gua_seq@.len() == 60,
        forall|k: int| 0 <= k < 60 ==> zheng_gua_seq@[k]@ == #[trigger] zheng_gua_seq_spec()[k],
    ensures
        period_views(list@) == Seq::new(30, |i: int| yun_sibling(acc as int, i)),
{
    let hui_index: i32 = div_euclid(acc - EPOCH_ACC, HUI_YEARS);
    let hui_start_acc: i32 = segment_start_of(acc, HUI_YEARS);
    proof {
        lemma_floor_div_bounds(acc - EPOCH_ACC, HUI_YEARS as int);
    }
    let mut list: Vec<PeriodInfo> = Vec::new();
    let mut i: i32 = 0;
    while i < 30
        invariant
            0 <= i <= 30,
            acc_supported(acc as int),
            hui_index == segment_index(acc as int, HUI_YEARS as int),
            -200000 <= hui_index <= 200000,
            hui_start_acc == segment_start(acc as int, HUI_YEARS as int),
            acc - HUI_YEARS < hui_start_acc <= acc,
            zheng_gua_seq@.len() == 60,
            forall|k: int| 0 <= k < 60 ==> zheng_gua_seq@[k]@ == #[trigger] zheng_gua_seq_spec()[k],
            list@.len() == i,
            forall|k: int| 0 <= k < i ==> (#[trigger] list@[k])@ == yun_sibling(acc as int, k),
        decreases 30 - i,
    {
        let yun_global: i32 = hui_index * 30 + i;
        let start_acc: i32 = hui_start_acc + i * YUN_YEARS;
        let yun_hex = yun_hexagram(yun_global, zheng_gua_seq);
        list.push(span_info(yun_hex.name(), start_acc, YUN_YEARS, (i + 1) as u32, 30));
        i = i + 1;
    }
    assert(period_views(list@) =~= Seq::new(30, |i: int| yun_sibling(acc as int, i)));
    list
}

fn shi_siblings(acc: i32, zheng_gua_seq: &Vec<String>) -> (list: Vec<PeriodInfo>)
    requires
        acc_supported(acc as int),
        zheng_gua_seq@.len() == 60,
        forall|k: int| 0 <= k < 60 ==> zheng_gua_seq@[k]@ == #[trigger] zheng_gua_seq_spec()[k],
    ensures
        period_views(list@) == Seq::new(12, |i: int| shi_sibling(acc as int, i)),
{
    let yun_global_index: i32 = div_euclid(acc - EPOCH_ACC, YUN_YEARS);
    let yun_start_acc: i32 = segment_start_of(acc, YUN_YEARS);
    let yun_hex = yun_hexagram(yun_global_index, zheng_gua_seq);
    let mut list: Vec<PeriodInfo> = Vec::new();
    let mut i: i32 = 0;
    while i < 12
        invariant
            0 <= i <= 12,
            acc_supported(acc as int),
            yun_global_index == segment_index(acc as int, YUN_YEARS as int),
            yun_hex == yun_hexagram_spec(yun_global_index as int),
            yun_start_acc == segment_start(acc as int, YUN_YEARS as int),
            acc - YUN_YEARS < yun_start_acc <= acc,
            list@.len() == i,
            forall|k: int| 0 <= k < i ==> (#[trigger] list@[k])@ == shi_sibling(acc as int, k),
        decreases 12 - i,
    {
        let start_acc: i32 = yun_start_acc + i * SHI_YEARS;
        let shi_line: usize = (i / 2) as usize;
        let shi_hex = yun_hex.change_line(shi_line);
        list.push(span_info(shi_hex.name(), start_acc, SHI_YEARS, (i + 1) as u32, 12));
        i = i + 1;
    }
    assert(period_views(list@) =~= Seq::new(12, |i: int| shi_sibling(acc as int, i)));
    list
}

fn xun_siblings(acc: i32) -> (list: Vec<PeriodInfo>)
    requires
        acc_supported(acc as int),
    ensures
        period_views(list@) == Seq::new(3, |i: int| xun_sibling(acc as int, i)),
{
    let shi_start_acc: i32 = segment_start_of(acc, SHI_YEARS);
    let mut list: Vec<PeriodInfo> = Vec::new();
    let mut i: i32 = 0;
    while i < 3
        invariant
            0 <= i <= 3,
            acc_supported(acc as int),
            shi_start_acc == segment_start(acc as int, SHI_YEARS as int),
            acc - SHI_YEARS < shi_start_acc <= acc,
            list@.len() == i,
            forall|k: int| 0 <= k < i ==> (#[trigger] list@[k])@ == xun_sibling(acc as int, k),
        decreases 3 - i,
    {
        let start_acc: i32 = shi_start_acc + i * XUN_YEARS;
        list.push(span_info(XUN_NAMES[i as usize].to_string(), start_acc, XUN_YEARS, (i + 1) as u32, 3));
        i = i + 1;
    }
    assert(period_views(list@) =~= Seq::new(3, |i: int| xun_sibling(acc as int, i)));
    list
}

/// Computes the periods around a historical year and the sibling lists
/// of every level.
///
/// There is no year zero; the caller rules it out.
pub fn get_timeline_info(hj_year: i32) -> (timeline: TimelineData)
    requires
        year_supported(hj_year as int),
    ensures
        timeline@ == timeline_spec(hj_year as int),
{
    let current = get_hj_info(hj_year);
    let acc: i32 = year_to_acc(hj_year).expect("hj_year should not be 0");

    let mut yuan_list: Vec<PeriodInfo> = Vec::new();
    yuan_list.push(current.yuan.clone());
    assert(period_views(yuan_list@) =~= seq![hj_info_spec(hj_year as int).yuan]);

    let hui_list = hui_siblings(acc);
    let zheng_gua_seq = get_zheng_gua_seq();
    let yun_list = yun_siblings(acc, &zheng_gua_seq);
    let shi_list = shi_siblings(acc, &zheng_gua_seq);
    let xun_list = xun_siblings(acc);

    TimelineData { current, yuan_list, hui_list, yun_list, shi_list, xun_list }
}

/// Every sibling list holds the period around the year itself, at the
/// place that its index names.
pub proof fn lemma_current_among_siblings(year: int)
    requires
        year != 0,
    ensures
        timeline_spec(year).hui_list[hj_info_spec(year).hui.index - 1] == hj_info_spec(year).hui,
        timeline_spec(year).yun_list[hj_info_spec(year).yun.index - 1] == hj_info_spec(year).yun,
        timeline_spec(year).shi_list[hj_info_spec(year).shi.index - 1] == hj_info_spec(year).shi,
        timeline_spec(year).xun_list[hj_info_spec(year).xun.index - 1] == hj_info_spec(year).xun,
        timeline_spec(year).yuan_list[0] == hj_info_spec(year).yuan,
{
    let acc = year_to_acc_spec(year);
    let t = acc - 1;
    lemma_floor_div_refines(t, 10800, 12);
    lemma_floor_div_refines(t, 360, 30);
    lemma_floor_div_refines(t, 30, 12);
    lemma_floor_div_refines(t, 10, 3);
    lemma_floor_div_bounds(t / 10800, 12);
    lemma_floor_div_bounds(t / 360, 30);
    lemma_floor_div_bounds(t / 30, 12);
    lemma_floor_div_bounds(t / 10, 3);
    lemma_floor_div_bounds(t, 129600);
    lemma_floor_div_bounds(t, 10800);
    lemma_floor_div_bounds(t, 360);
    lemma_floor_div_bounds(t, 30);
    lemma_floor_div_bounds(t, 10);
}

/// The siblings of a level follow one another without a gap and fill
/// their parent: the first starts where the parent starts, and each next
/// one starts in the year after the one before it ends.
pub proof fn lemma_siblings_adjacent(year: int, i: int)
    requires
        year != 0,
    ensures
        0 <= i < 11 ==> year_to_acc_spec(timeline_spec(year).hui_list[i + 1].start_year)
            == year_to_acc_spec(timeline_spec(year).hui_list[i].end_year) + 1,
        0 <= i < 29 ==> year_to_acc_spec(timeline_spec(year).yun_list[i + 1].start_year)
            == year_to_acc_spec(timeline_spec(year).yun_list[i].end_year) + 1,
        0 <= i < 11 ==> year_to_acc_spec(timeline_spec(year).shi_list[i + 1].start_year)
            == year_to_acc_spec(timeline_spec(year).shi_list[i].end_year) + 1,
        0 <= i < 2 ==> year_to_acc_spec(timeline_spec(year).xun_list[i + 1].start_year)
            == year_to_acc_spec(timeline_spec(year).xun_list[i].end_year) + 1,
        timeline_spec(year).hui_list[0].start_year == hj_info_spec(year).yuan.start_year,
        timeline_spec(year).yun_list[0].start_year == hj_info_spec(year).hui.start_year,
        timeline_spec(year).shi_list[0].start_year == hj_info_spec(year).yun.start_year,
        timeline_spec(year).xun_list[0].start_year == hj_info_spec(year).shi.start_year,
        timeline_spec(year).hui_list[11].end_year == hj_info_spec(year).yuan.end_year,
        timeline_spec(year).yun_list[29].end_year == hj_info_spec(year).hui.end_year,
        timeline_spec(year).shi_list[11].end_year == hj_info_spec(year).yun.end_year,
        timeline_spec(year).xun_list[2].end_year == hj_info_spec(year).shi.end_year,
{
}

} // verus!
