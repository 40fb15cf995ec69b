//! The circular Fuxi arrangement of the sixty-four hexagram names and the
//! two sequences cut from it: the sixty "proper" hexagrams that name the
//! Yun periods, and the sixty hexagrams that are dealt out to single years.
//! Both leave out the four anchor hexagrams 乾, 坤, 坎 and 离.

use vstd::prelude::*;
use crate::hexagram::{lemma_hexagram_names, str_eq};

verus! {

/// The sixty-four hexagram names in the circular Fuxi arrangement.
pub const FUXI_SEQ: [&'static str; 64] = [
    "姤", "大过", "鼎", "恒", "巽", "井", "蛊", "升",
    "讼", "困", "未济", "解", "涣", "坎", "蒙", "师",
    "遁", "咸", "旅", "小过", "渐", "蹇", "艮", "谦",
    "否", "萃", "晋", "豫", "观", "比", "剥", "坤",
    "复", "颐", "屯", "益", "震", "噬嗑", "随", "无妄",
    "明夷", "贲", "既济", "家人", "丰", "离", "革", "同人",
    "临", "损", "节", "中孚", "归妹", "睽", "兑", "履",
    "泰", "大畜", "需", "小畜", "大壮", "大有", "夬", "乾",
];

/// Position in [`FUXI_SEQ`] of 复, the hexagram that opens the sequence of
/// proper hexagrams.
pub const ZHENG_GUA_START: usize = 32;

/// The year to which the per-year hexagram cycle is anchored.
pub const YEAR_GUA_ANCHOR_YEAR: i32 = 1984;

/// Position, in the sequence dealt out to years, of 鼎: the hexagram of
/// the anchor year.
pub const YEAR_GUA_ANCHOR_INDEX: usize = 2;

/// `name` is one of the four anchor hexagrams, which both sequences skip.
pub open spec fn is_skipped(name: Seq<char>) -> bool {
    name == "乾"@ || name == "坤"@ || name == "坎"@ || name == "离"@
}

/// The Fuxi circle read once around, starting at position `start`.
pub open spec fn fuxi_cycle_from(start: int) -> Seq<Seq<char>> {
    Seq::new(64, |i: int| FUXI_SEQ[(start + i) % 64]@)
}

/// The names of `names` that are not skipped, in their order.
pub open spec fn unskipped(names: Seq<Seq<char>>) -> Seq<Seq<char>> {
    names.filter(|name: Seq<char>| !is_skipped(name))
}

/// The sequence of proper hexagrams: the Fuxi circle from 复 onwards
/// without the four anchor hexagrams.
pub open spec fn zheng_gua_seq_spec() -> Seq<Seq<char>> {
    unskipped(fuxi_cycle_from(ZHENG_GUA_START as int))
}

/// The sequence dealt out to years: the Fuxi arrangement from its first
/// name onwards without the four anchor hexagrams.
pub open spec fn year_gua_seq_spec() -> Seq<Seq<char>> {
    unskipped(fuxi_cycle_from(0))
}

/// The hexagram of a historical year: the anchor year has the hexagram at
/// the anchor index, and each later year the next one of the sixty, round
/// and round.
pub open spec fn year_gua_spec(year: int) -> Seq<char> {
    year_gua_seq_spec()[(YEAR_GUA_ANCHOR_INDEX + (year - YEAR_GUA_ANCHOR_YEAR)) % 60]
}

/// In either sequence the four skipped names stand thirteenth, thirty-first,
/// forty-fifth and sixty-third (counted from zero) in the circle it is cut
/// from; this is the place in the circle of the `k`-th name that stays.
pub open spec fn unskipped_position(k: int) -> int {
    if k < 13 {
        k
    } else if k < 30 {
        k + 1
    } else if k < 43 {
        k + 2
    } else {
        k + 3
    }
}

/// The number of names that stay among the first `i` of the circle.
pub open spec fn unskipped_before(i: int) -> int {
    if i <= 13 {
        i
    } else if i <= 31 {
        i - 1
    } else if i <= 45 {
        i - 2
    } else if i <= 63 {
        i - 3
    } else {
        i - 4
    }
}

/// Whether `name` is one of the four anchor hexagrams.
pub fn is_skipped_name(name: &str) -> (skipped: bool)
    ensures
        skipped == is_skipped(name@),
{
    str_eq(name, "乾") || str_eq(name, "坤") || str_eq(name, "坎") || str_eq(name, "离")
}

/// The first position of `name` in the Fuxi arrangement.
pub fn fuxi_position(name: &str) -> (pos: Option<usize>)
    ensures
        pos matches Some(i) ==> i < 64 && FUXI_SEQ[i as int]@ == name@ && forall|j: int|
            0 <= j < i ==> FUXI_SEQ[j]@ != name@,
        pos is None ==> forall|j: int| 0 <= j < 64 ==> FUXI_SEQ[j]@ != name@,
{
    let mut i: usize = 0;
    while i < 64
        invariant
            i <= 64,
            forall|j: int| 0 <= j < i ==> FUXI_SEQ[j]@ != name@,
        decreases 64 - i,
    {
        if str_eq(FUXI_SEQ[i], name) {
            return Some(i);
        }
        i = i + 1;
    }
    None
}

/// Taking one more name into account either appends it or, where it is
/// skipped, changes nothing.
pub proof fn lemma_unskipped_step(names: Seq<Seq<char>>, i: int)
    requires
        0 <= i < names.len(),
    ensures
        unskipped(names.take(i + 1)) == if is_skipped(names[i]) {
            unskipped(names.take(i))
        } else {
            unskipped(names.take(i)).push(names[i])
        },
{
    reveal(Seq::filter);
    assert(names.take(i + 1).drop_last() =~= names.take(i));
    assert(names.take(i + 1).last() == names[i]);
}

/// The names of the Fuxi circle from `start` onwards that are not skipped,
/// in their order.
pub fn collect_unskipped(start: usize) -> (seq: Vec<String>)
    requires
        start < 64,
    ensures
        seq@.len() == unskipped(fuxi_cycle_from(start as int)).len(),
        forall|k: int| 0 <= k < seq@.len() ==> seq@[k]@ == #[trigger] unskipped(fuxi_cycle_from(start as int))[k],
{
    let mut seq: Vec<String> = Vec::new();
    let ghost cycle = fuxi_cycle_from(start as int);
    assert(cycle.take(0) =~= Seq::<Seq<char>>::empty());
    assert(unskipped(cycle.take(0)) =~= Seq::<Seq<char>>::empty()) by {
        reveal(Seq::filter);
    }
    let mut i: usize = 0;
    while i < 64
        invariant
            i <= 64,
            start < 64,
            cycle == fuxi_cycle_from(start as int),
            seq@.len() == unskipped(cycle.take(i as int)).len(),
            forall|k: int| 0 <= k < seq@.len() ==> seq@[k]@ == #[trigger] unskipped(cycle.take(i as int))[k],
        decreases 64 - i,
    {
        let idx: usize = (start + i) % 64;
        let name: &'static str = FUXI_SEQ[idx];
        proof {
            lemma_unskipped_step(cycle, i as int);
            assert(cycle[i as int] == name@);
        }
        if !is_skipped_name(name) {
            seq.push(name.to_string());
        }
        i = i + 1;
    }
    assert(cycle.take(64) =~= cycle);
    seq
}

/// The sequence of the sixty proper hexagrams, from 复 onwards.
pub fn get_zheng_gua_seq() -> (seq: Vec<String>)
    ensures
        seq@.len() == 60,
        zheng_gua_seq_spec().len() == 60,
        forall|k: int| 0 <= k < 60 ==> seq@[k]@ == #[trigger] zheng_gua_seq_spec()[k],
{
    let start: usize = match fuxi_position("复") {
        Some(i) => i,
        None => 0,
    };
    proof {
        lemma_fuxi_names();
        lemma_hexagram_names();
        assert(FUXI_SEQ[32]@ == "复"@);
        assert(start == 32);
        lemma_unskipped_cycle(32, 64);
        assert(fuxi_cycle_from(32).take(64) =~= fuxi_cycle_from(32));
    }
    collect_unskipped(start)
}

/// The sequence of the sixty hexagrams that are dealt out to years.
pub fn get_year_gua_seq() -> (seq: Vec<String>)
    ensures
        seq@.len() == 60,
        year_gua_seq_spec().len() == 60,
        forall|k: int| 0 <= k < 60 ==> seq@[k]@ == #[trigger] year_gua_seq_spec()[k],
{
    proof {
        lemma_unskipped_cycle(0, 64);
        assert(fuxi_cycle_from(0).take(64) =~= fuxi_cycle_from(0));
    }
    collect_unskipped(0)
}

/// The name at each place of the Fuxi arrangement.
pub proof fn lemma_fuxi_names()
    ensures
        FUXI_SEQ[0]@ == "姤"@,
        FUXI_SEQ[1]@ == "大过"@,
        FUXI_SEQ[2]@ == "鼎"@,
        FUXI_SEQ[3]@ == "恒"@,
        FUXI_SEQ[4]@ == "巽"@,
        FUXI_SEQ[5]@ == "井"@,
        FUXI_SEQ[6]@ == "蛊"@,
        FUXI_SEQ[7]@ == "升"@,
        FUXI_SEQ[8]@ == "讼"@,
        FUXI_SEQ[9]@ == "困"@,
        FUXI_SEQ[10]@ == "未济"@,
        FUXI_SEQ[11]@ == "解"@,
        FUXI_SEQ[12]@ == "涣"@,
        FUXI_SEQ[13]@ == "坎"@,
        FUXI_SEQ[14]@ == "蒙"@,
        FUXI_SEQ[15]@ == "师"@,
        FUXI_SEQ[16]@ == "遁"@,
        FUXI_SEQ[17]@ == "咸"@,
        FUXI_SEQ[18]@ == "旅"@,
        FUXI_SEQ[19]@ == "小过"@,
        FUXI_SEQ[20]@ == "渐"@,
        FUXI_SEQ[21]@ == "蹇"@,
        FUXI_SEQ[22]@ == "艮"@,
        FUXI_SEQ[23]@ == "谦"@,
        FUXI_SEQ[24]@ == "否"@,
        FUXI_SEQ[25]@ == "萃"@,
        FUXI_SEQ[26]@ == "晋"@,
        FUXI_SEQ[27]@ == "豫"@,
        FUXI_SEQ[28]@ == "观"@,
        FUXI_SEQ[29]@ == "比"@,
        FUXI_SEQ[30]@ == "剥"@,
        FUXI_SEQ[31]@ == "坤"@,
        FUXI_SEQ[32]@ == "复"@,
        FUXI_SEQ[33]@ == "颐"@,
        FUXI_SEQ[34]@ == "屯"@,
        FUXI_SEQ[35]@ == "益"@,
        FUXI_SEQ[36]@ == "震"@,
        FUXI_SEQ[37]@ == "噬嗑"@,
        FUXI_SEQ[38]@ == "随"@,
        FUXI_SEQ[39]@ == "无妄"@,
        FUXI_SEQ[40]@ == "明夷"@,
        FUXI_SEQ[41]@ == "贲"@,
        FUXI_SEQ[42]@ == "既济"@,
        FUXI_SEQ[43]@ == "家人"@,
        FUXI_SEQ[44]@ == "丰"@,
        FUXI_SEQ[45]@ == "离"@,
        FUXI_SEQ[46]@ == "革"@,
        FUXI_SEQ[47]@ == "同人"@,
        FUXI_SEQ[48]@ == "临"@,
        FUXI_SEQ[49]@ == "损"@,
        FUXI_SEQ[50]@ == "节"@,
        FUXI_SEQ[51]@ == "中孚"@,
        FUXI_SEQ[52]@ == "归妹"@,
        FUXI_SEQ[53]@ == "睽"@,
        FUXI_SEQ[54]@ == "兑"@,
        FUXI_SEQ[55]@ == "履"@,
        FUXI_SEQ[56]@ == "泰"@,
        FUXI_SEQ[57]@ == "大畜"@,
        FUXI_SEQ[58]@ == "需"@,
        FUXI_SEQ[59]@ == "小畜"@,
        FUXI_SEQ[60]@ == "大壮"@,
        FUXI_SEQ[61]@ == "大有"@,
        FUXI_SEQ[62]@ == "夬"@,
        FUXI_SEQ[63]@ == "乾"@,
{
}

/// Of the Fuxi circle read from the first name or from 复, exactly the
/// thirteenth, thirty-first, forty-fifth and sixty-third name (counted from
/// zero) are skipped.
pub proof fn lemma_fuxi_skipped(start: int, i: int)
    requires
        start == 0 || start == 32,
        0 <= i < 64,
    ensures
        is_skipped(fuxi_cycle_from(start)[i]) <==> (i == 13 || i == 31 || i == 45 || i == 63),
{
    lemma_fuxi_names();
    lemma_hexagram_names();
}

/// The names that stay among the first `i` of the circle, listed by their
/// places in the circle.
pub proof fn lemma_unskipped_cycle(start: int, i: int)
    requires
        start == 0 || start == 32,
        0 <= i <= 64,
    ensures
        unskipped(fuxi_cycle_from(start).take(i)).len() == unskipped_before(i),
        forall|k: int|
            0 <= k < unskipped_before(i) ==> #[trigger] unskipped(fuxi_cycle_from(start).take(i))[k]
                == fuxi_cycle_from(start)[unskipped_position(k)],
    decreases i,
{
    let cycle = fuxi_cycle_from(start);
    if i == 0 {
        reveal(Seq::filter);
        assert(cycle.take(0) =~= Seq::<Seq<char>>::empty());
    } else {
        lemma_unskipped_cycle(start, i - 1);
        lemma_unskipped_step(cycle, i - 1);
        lemma_fuxi_skipped(start, i - 1);
    }
}

/// Both sequences hold sixty names, none of them skipped, and the `k`-th
/// is the name at place [`unskipped_position`]`(k)` of the circle.
pub proof fn lemma_sequences(k: int)
    requires
        0 <= k < 60,
    ensures
        zheng_gua_seq_spec().len() == 60,
        year_gua_seq_spec().len() == 60,
        zheng_gua_seq_spec()[k] == FUXI_SEQ[(32 + unskipped_position(k)) % 64]@,
        year_gua_seq_spec()[k] == FUXI_SEQ[unskipped_position(k)]@,
        !is_skipped(zheng_gua_seq_spec()[k]),
        !is_skipped(year_gua_seq_spec()[k]),
{
    lemma_unskipped_cycle(0, 64);
    lemma_unskipped_cycle(32, 64);
    assert(fuxi_cycle_from(0).take(64) =~= fuxi_cycle_from(0));
    assert(fuxi_cycle_from(32).take(64) =~= fuxi_cycle_from(32));
    lemma_fuxi_skipped(0, unskipped_position(k));
    lemma_fuxi_skipped(32, unskipped_position(k));
}

/// The hexagram of the anchor year is 鼎, and the hexagrams of the years
/// repeat every sixty years.
pub proof fn lemma_year_gua_anchor(year: int)
    ensures
        year_gua_spec(YEAR_GUA_ANCHOR_YEAR as int) == "鼎"@,
        year_gua_spec(year + 60) == year_gua_spec(year),
{
    lemma_sequences(2);
    lemma_fuxi_names();
}

} // verus!
