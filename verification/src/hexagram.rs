//! The sixty-four hexagrams as pairs of trigrams.
//!
//! A trigram is a three-bit value (0 to 7); a hexagram is an upper trigram
//! over a lower one.  Every pair of trigrams carries exactly one of
//! sixty-four names, and the six lines of a hexagram are numbered from the
//! bottom: lines 0 to 2 are the bits of the lower trigram, lines 3 to 5 the
//! bits of the upper one.

use vstd::prelude::*;

verus! {

/// The name given to a pair that is no hexagram.
pub open spec fn unknown_name() -> Seq<char> {
    "未知"@
}

/// Both values are trigrams.
pub open spec fn valid_pair(upper: u8, lower: u8) -> bool {
    upper < 8 && lower < 8
}

/// The name of the hexagram with trigram `upper` over trigram `lower`, and
/// [`unknown_name`] for a pair that is no hexagram.
pub open spec fn hexagram_name_spec(upper: u8, lower: u8) -> Seq<char> {
    match (upper, lower) {
        (7, 7) => "乾"@,
        (7, 3) => "夬"@,
        (7, 5) => "大有"@,
        (7, 1) => "大壮"@,
        (7, 6) => "小畜"@,
        (7, 2) => "需"@,
        (7, 4) => "大畜"@,
        (7, 0) => "否"@,
        (3, 7) => "履"@,
        (3, 3) => "兑"@,
        (3, 5) => "睽"@,
        (3, 1) => "归妹"@,
        (3, 6) => "中孚"@,
        (3, 2) => "节"@,
        (3, 4) => "损"@,
        (3, 0) => "临"@,
        (5, 7) => "同人"@,
        (5, 3) => "革"@,
        (5, 5) => "离"@,
        (5, 1) => "丰"@,
        (5, 6) => "家人"@,
        (5, 2) => "既济"@,
        (5, 4) => "贲"@,
        (5, 0) => "明夷"@,
        (1, 7) => "无妄"@,
        (1, 3) => "随"@,
        (1, 5) => "噬嗑"@,
        (1, 1) => "震"@,
        (1, 6) => "益"@,
        (1, 2) => "屯"@,
        (1, 4) => "颐"@,
        (1, 0) => "复"@,
        (6, 7) => "姤"@,
        (6, 3) => "大过"@,
        (6, 5) => "鼎"@,
        (6, 1) => "恒"@,
        (6, 6) => "巽"@,
        (6, 2) => "井"@,
        (6, 4) => "蛊"@,
        (6, 0) => "升"@,
        (2, 7) => "讼"@,
        (2, 3) => "困"@,
        (2, 5) => "未济"@,
        (2, 1) => "解"@,
        (2, 6) => "涣"@,
        (2, 2) => "坎"@,
        (2, 4) => "蒙"@,
        (2, 0) => "师"@,
        (4, 7) => "遁"@,
        (4, 3) => "咸"@,
        (4, 5) => "旅"@,
        (4, 1) => "小过"@,
        (4, 6) => "渐"@,
        (4, 2) => "蹇"@,
        (4, 4) => "艮"@,
        (4, 0) => "谦"@,
        (0, 7) => "泰"@,
        (0, 3) => "萃"@,
        (0, 5) => "晋"@,
        (0, 1) => "豫"@,
        (0, 6) => "观"@,
        (0, 2) => "比"@,
        (0, 4) => "剥"@,
        (0, 0) => "坤"@,
        _ => "未知"@,
    }
}

/// The trigram pair that carries `name`, and `(0, 0)` for a string that
/// names no hexagram.
pub open spec fn hexagram_struct_spec(name: Seq<char>) -> (u8, u8) {
    if name == "乾"@ {
        (7u8, 7u8)
    } else if name == "夬"@ {
        (7u8, 3u8)
    } else if name == "大有"@ {
        (7u8, 5u8)
    } else if name == "大壮"@ {
        (7u8, 1u8)
    } else if name == "小畜"@ {
        (7u8, 6u8)
    } else if name == "需"@ {
        (7u8, 2u8)
    } else if name == "大畜"@ {
        (7u8, 4u8)
    } else if name == "否"@ {
        (7u8, 0u8)
    } else if name == "履"@ {
        (3u8, 7u8)
    } else if name == "兑"@ {
        (3u8, 3u8)
    } else if name == "睽"@ {
        (3u8, 5u8)
    } else if name == "归妹"@ {
        (3u8, 1u8)
    } else if name == "中孚"@ {
        (3u8, 6u8)
    } else if name == "节"@ {
        (3u8, 2u8)
    } else if name == "损"@ {
        (3u8, 4u8)
    } else if name == "临"@ {
        (3u8, 0u8)
    } else if name == "同人"@ {
        (5u8, 7u8)
    } else if name == "革"@ {
        (5u8, 3u8)
    } else if name == "离"@ {
        (5u8, 5u8)
    } else if name == "丰"@ {
        (5u8, 1u8)
    } else if name == "家人"@ {
        (5u8, 6u8)
    } else if name == "既济"@ {
        (5u8, 2u8)
    } else if name == "贲"@ {
        (5u8, 4u8)
    } else if name == "明夷"@ {
        (5u8, 0u8)
    } else if name == "无妄"@ {
        (1u8, 7u8)
    } else if name == "随"@ {
        (1u8, 3u8)
    } else if name == "噬嗑"@ {
        (1u8, 5u8)
    } else if name == "震"@ {
        (1u8, 1u8)
    } else if name == "益"@ {
        (1u8, 6u8)
    } else if name == "屯"@ {
        (1u8, 2u8)
    } else if name == "颐"@ {
        (1u8, 4u8)
    } else if name == "复"@ {
        (1u8, 0u8)
    } else if name == "姤"@ {
        (6u8, 7u8)
    } else if name == "大过"@ {
        (6u8, 3u8)
    } else if name == "鼎"@ {
        (6u8, 5u8)
    } else if name == "恒"@ {
        (6u8, 1u8)
    } else if name == "巽"@ {
        (6u8, 6u8)
    } else if name == "井"@ {
        (6u8, 2u8)
    } else if name == "蛊"@ {
        (6u8, 4u8)
    } else if name == "升"@ {
        (6u8, 0u8)
    } else if name == "讼"@ {
        (2u8, 7u8)
    } else if name == "困"@ {
        (2u8, 3u8)
    } else if name == "未济"@ {
        (2u8, 5u8)
    } else if name == "解"@ {
        (2u8, 1u8)
    } else if name == "涣"@ {
        (2u8, 6u8)
    } else if name == "坎"@ {
        (2u8, 2u8)
    } else if name == "蒙"@ {
        (2u8, 4u8)
    } else if name == "师"@ {
        (2u8, 0u8)
    } else if name == "遁"@ {
        (4u8, 7u8)
    } else if name == "咸"@ {
        (4u8, 3u8)
    } else if name == "旅"@ {
        (4u8, 5u8)
    } else if name == "小过"@ {
        (4u8, 1u8)
    } else if name == "渐"@ {
        (4u8, 6u8)
    } else if name == "蹇"@ {
        (4u8, 2u8)
    } else if name == "艮"@ {
        (4u8, 4u8)
    } else if name == "谦"@ {
        (4u8, 0u8)
    } else if name == "泰"@ {
        (0u8, 7u8)
    } else if name == "萃"@ {
        (0u8, 3u8)
    } else if name == "晋"@ {
        (0u8, 5u8)
    } else if name == "豫"@ {
        (0u8, 1u8)
    } else if name == "观"@ {
        (0u8, 6u8)
    } else if name == "比"@ {
        (0u8, 2u8)
    } else if name == "剥"@ {
        (0u8, 4u8)
    } else if name == "坤"@ {
        (0u8, 0u8)
    } else {
        (0u8, 0u8)
    }
}

/// `name` is one of the sixty-four hexagram names.
pub open spec fn is_hexagram_name(name: Seq<char>) -> bool {
    hexagram_name_spec(hexagram_struct_spec(name).0, hexagram_struct_spec(name).1) == name
}

/// Equality of string slices, as `str`'s `PartialEq::eq` of the standard
/// library decides it: two slices are equal exactly when they hold the same
/// characters.
#[verifier::external_body]
pub(crate) fn str_eq(a: &str, b: &str) -> (r: bool)
    ensures
        r == (a@ == b@),
{
    a == b
}

/// Looks up the name of the hexagram `upper` over `lower`.
///
/// The lookup is total: a pair outside the table gives the name "未知".
pub fn get_hexagram_name(upper: u8, lower: u8) -> (name: String)
    ensures
        name@ == hexagram_name_spec(upper, lower),
{
    let name: &'static str = match (upper, lower) {
        (7, 7) => "乾",
        (7, 3) => "夬",
        (7, 5) => "大有",
        (7, 1) => "大壮",
        (7, 6) => "小畜",
        (7, 2) => "需",
        (7, 4) => "大畜",
        (7, 0) => "否",
        (3, 7) => "履",
        (3, 3) => "兑",
        (3, 5) => "睽",
        (3, 1) => "归妹",
        (3, 6) => "中孚",
        (3, 2) => "节",
        (3, 4) => "损",
        (3, 0) => "临",
        (5, 7) => "同人",
        (5, 3) => "革",
        (5, 5) => "离",
        (5, 1) => "丰",
        (5, 6) => "家人",
        (5, 2) => "既济",
        (5, 4) => "贲",
        (5, 0) => "明夷",
        (1, 7) => "无妄",
        (1, 3) => "随",
        (1, 5) => "噬嗑",
        (1, 1) => "震",
        (1, 6) => "益",
        (1, 2) => "屯",
        (1, 4) => "颐",
        (1, 0) => "复",
        (6, 7) => "姤",
        (6, 3) => "大过",
        (6, 5) => "鼎",
        (6, 1) => "恒",
        (6, 6) => "巽",
        (6, 2) => "井",
        (6, 4) => "蛊",
        (6, 0) => "升",
        (2, 7) => "讼",
        (2, 3) => "困",
        (2, 5) => "未济",
        (2, 1) => "解",
        (2, 6) => "涣",
        (2, 2) => "坎",
        (2, 4) => "蒙",
        (2, 0) => "师",
        (4, 7) => "遁",
        (4, 3) => "咸",
        (4, 5) => "旅",
        (4, 1) => "小过",
        (4, 6) => "渐",
        (4, 2) => "蹇",
        (4, 4) => "艮",
        (4, 0) => "谦",
        (0, 7) => "泰",
        (0, 3) => "萃",
        (0, 5) => "晋",
        (0, 1) => "豫",
        (0, 6) => "观",
        (0, 2) => "比",
        (0, 4) => "剥",
        (0, 0) => "坤",
        _ => "未知",
    };
    name.to_string()
}

/// Looks up the trigram pair of a hexagram name.
///
/// The lookup is total: a string that names no hexagram gives `(0, 0)`.
pub fn get_hexagram_struct(name: &str) -> (pair: (u8, u8))
    ensures
        pair == hexagram_struct_spec(name@),
        valid_pair(pair.0, pair.1),
{
    if str_eq(name, "乾") {
        (7, 7)
    } else if str_eq(name, "夬") {
        (7, 3)
    } else if str_eq(name, "大有") {
        (7, 5)
    } else if str_eq(name, "大壮") {
        (7, 1)
    } else if str_eq(name, "小畜") {
        (7, 6)
    } else if str_eq(name, "需") {
        (7, 2)
    } else if str_eq(name, "大畜") {
        (7, 4)
    } else if str_eq(name, "否") {
        (7, 0)
    } else if str_eq(name, "履") {
        (3, 7)
    } else if str_eq(name, "兑") {
        (3, 3)
    } else if str_eq(name, "睽") {
        (3, 5)
    } else if str_eq(name, "归妹") {
        (3, 1)
    } else if str_eq(name, "中孚") {
        (3, 6)
    } else if str_eq(name, "节") {
        (3, 2)
    } else if str_eq(name, "损") {
        (3, 4)
    } else if str_eq(name, "临") {
        (3, 0)
    } else if str_eq(name, "同人") {
        (5, 7)
    } else if str_eq(name, "革") {
        (5, 3)
    } else if str_eq(name, "离") {
        (5, 5)
    } else if str_eq(name, "丰") {
        (5, 1)
    } else if str_eq(name, "家人") {
        (5, 6)
    } else if str_eq(name, "既济") {
        (5, 2)
    } else if str_eq(name, "贲") {
        (5, 4)
    } else if str_eq(name, "明夷") {
        (5, 0)
    } else if str_eq(name, "无妄") {
        (1, 7)
    } else if str_eq(name, "随") {
        (1, 3)
    } else if str_eq(name, "噬嗑") {
        (1, 5)
    } else if str_eq(name, "震") {
        (1, 1)
    } else if str_eq(name, "益") {
        (1, 6)
    } else if str_eq(name, "屯") {
        (1, 2)
    } else if str_eq(name, "颐") {
        (1, 4)
    } else if str_eq(name, "复") {
        (1, 0)
    } else if str_eq(name, "姤") {
        (6, 7)
    } else if str_eq(name, "大过") {
        (6, 3)
    } else if str_eq(name, "鼎") {
        (6, 5)
    } else if str_eq(name, "恒") {
        (6, 1)
    } else if str_eq(name, "巽") {
        (6, 6)
    } else if str_eq(name, "井") {
        (6, 2)
    } else if str_eq(name, "蛊") {
        (6, 4)
    } else if str_eq(name, "升") {
        (6, 0)
    } else if str_eq(name, "讼") {
        (2, 7)
    } else if str_eq(name, "困") {
        (2, 3)
    } else if str_eq(name, "未济") {
        (2, 5)
    } else if str_eq(name, "解") {
        (2, 1)
    } else if str_eq(name, "涣") {
        (2, 6)
    } else if str_eq(name, "坎") {
        (2, 2)
    } else if str_eq(name, "蒙") {
        (2, 4)
    } else if str_eq(name, "师") {
        (2, 0)
    } else if str_eq(name, "遁") {
        (4, 7)
    } else if str_eq(name, "咸") {
        (4, 3)
    } else if str_eq(name, "旅") {
        (4, 5)
    } else if str_eq(name, "小过") {
        (4, 1)
    } else if str_eq(name, "渐") {
        (4, 6)
    } else if str_eq(name, "蹇") {
        (4, 2)
    } else if str_eq(name, "艮") {
        (4, 4)
    } else if str_eq(name, "谦") {
        (4, 0)
    } else if str_eq(name, "泰") {
        (0, 7)
    } else if str_eq(name, "萃") {
        (0, 3)
    } else if str_eq(name, "晋") {
        (0, 5)
    } else if str_eq(name, "豫") {
        (0, 1)
    } else if str_eq(name, "观") {
        (0, 6)
    } else if str_eq(name, "比") {
        (0, 2)
    } else if str_eq(name, "剥") {
        (0, 4)
    } else if str_eq(name, "坤") {
        (0, 0)
    } else {
        (0, 0)
    }
}

/// The characters of every name in the table.
pub proof fn lemma_hexagram_names()
    ensures
        "乾"@.len() == 1,
        "乾"@[0] == '乾',
        "夬"@.len() == 1,
        "夬"@[0] == '夬',
        "大有"@.len() == 2,
        "大有"@[0] == '大',
        "大有"@[1] == '有',
        "大壮"@.len() == 2,
        "大壮"@[0] == '大',
        "大壮"@[1] == '壮',
        "小畜"@.len() == 2,
        "小畜"@[0] == '小',
        "小畜"@[1] == '畜',
        "需"@.len() == 1,
        "需"@[0] == '需',
        "大畜"@.len() == 2,
        "大畜"@[0] == '大',
        "大畜"@[1] == '畜',
        "否"@.len() == 1,
        "否"@[0] == '否',
        "履"@.len() == 1,
        "履"@[0] == '履',
        "兑"@.len() == 1,
        "兑"@[0] == '兑',
        "睽"@.len() == 1,
        "睽"@[0] == '睽',
        "归妹"@.len() == 2,
        "归妹"@[0] == '归',
        "归妹"@[1] == '妹',
        "中孚"@.len() == 2,
        "中孚"@[0] == '中',
        "中孚"@[1] == '孚',
        "节"@.len() == 1,
        "节"@[0] == '节',
        "损"@.len() == 1,
        "损"@[0] == '损',
        "临"@.len() == 1,
        "临"@[0] == '临',
        "同人"@.len() == 2,
        "同人"@[0] == '同',
        "同人"@[1] == '人',
        "革"@.len() == 1,
        "革"@[0] == '革',
        "离"@.len() == 1,
        "离"@[0] == '离',
        "丰"@.len() == 1,
        "丰"@[0] == '丰',
        "家人"@.len() == 2,
        "家人"@[0] == '家',
        "家人"@[1] == '人',
        "既济"@.len() == 2,
        "既济"@[0] == '既',
        "既济"@[1] == '济',
        "贲"@.len() == 1,
        "贲"@[0] == '贲',
        "明夷"@.len() == 2,
        "明夷"@[0] == '明',
        "明夷"@[1] == '夷',
        "无妄"@.len() == 2,
        "无妄"@[0] == '无',
        "无妄"@[1] == '妄',
        "随"@.len() == 1,
        "随"@[0] == '随',
        "噬嗑"@.len() == 2,
        "噬嗑"@[0] == '噬',
        "噬嗑"@[1] == '嗑',
        "震"@.len() == 1,
        "震"@[0] == '震',
        "益"@.len() == 1,
        "益"@[0] == '益',
        "屯"@.len() == 1,
        "屯"@[0] == '屯',
        "颐"@.len() == 1,
        "颐"@[0] == '颐',
        "复"@.len() == 1,
        "复"@[0] == '复',
        "姤"@.len() == 1,
        "姤"@[0] == '姤',
        "大过"@.len() == 2,
        "大过"@[0] == '大',
        "大过"@[1] == '过',
        "鼎"@.len() == 1,
        "鼎"@[0] == '鼎',
        "恒"@.len() == 1,
        "恒"@[0] == '恒',
        "巽"@.len() == 1,
        "巽"@[0] == '巽',
        "井"@.len() == 1,
        "井"@[0] == '井',
        "蛊"@.len() == 1,
        "蛊"@[0] == '蛊',
        "升"@.len() == 1,
        "升"@[0] == '升',
        "讼"@.len() == 1,
        "讼"@[0] == '讼',
        "困"@.len() == 1,
        "困"@[0] == '困',
        "未济"@.len() == 2,
        "未济"@[0] == '未',
        "未济"@[1] == '济',
        "解"@.len() == 1,
        "解"@[0] == '解',
        "涣"@.len() == 1,
        "涣"@[0] == '涣',
        "坎"@.len() == 1,
        "坎"@[0] == '坎',
        "蒙"@.len() == 1,
        "蒙"@[0] == '蒙',
        "师"@.len() == 1,
        "师"@[0] == '师',
        "遁"@.len() == 1,
        "遁"@[0] == '遁',
        "咸"@.len() == 1,
        "咸"@[0] == '咸',
        "旅"@.len() == 1,
        "旅"@[0] == '旅',
        "小过"@.len() == 2,
        "小过"@[0] == '小',
        "小过"@[1] == '过',
        "渐"@.len() == 1,
        "渐"@[0] == '渐',
        "蹇"@.len() == 1,
        "蹇"@[0] == '蹇',
        "艮"@.len() == 1,
        "艮"@[0] == '艮',
        "谦"@.len() == 1,
        "谦"@[0] == '谦',
        "泰"@.len() == 1,
        "泰"@[0] == '泰',
        "萃"@.len() == 1,
        "萃"@[0] == '萃',
        "晋"@.len() == 1,
        "晋"@[0] == '晋',
        "豫"@.len() == 1,
        "豫"@[0] == '豫',
        "观"@.len() == 1,
        "观"@[0] == '观',
        "比"@.len() == 1,
        "比"@[0] == '比',
        "剥"@.len() == 1,
        "剥"@[0] == '剥',
        "坤"@.len() == 1,
        "坤"@[0] == '坤',
        "未知"@.len() == 2,
        "未知"@[0] == '未',
        "未知"@[1] == '知',
{
    reveal_strlit("乾");
    reveal_strlit("夬");
    reveal_strlit("大有");
    reveal_strlit("大壮");
    reveal_strlit("小畜");
    reveal_strlit("需");
    reveal_strlit("大畜");
    reveal_strlit("否");
    reveal_strlit("履");
    reveal_strlit("兑");
    reveal_strlit("睽");
    reveal_strlit("归妹");
    reveal_strlit("中孚");
    reveal_strlit("节");
    reveal_strlit("损");
    reveal_strlit("临");
    reveal_strlit("同人");
    reveal_strlit("革");
    reveal_strlit("离");
    reveal_strlit("丰");
    reveal_strlit("家人");
    reveal_strlit("既济");
    reveal_strlit("贲");
    reveal_strlit("明夷");
    reveal_strlit("无妄");
    reveal_strlit("随");
    reveal_strlit("噬嗑");
    reveal_strlit("震");
    reveal_strlit("益");
    reveal_strlit("屯");
    reveal_strlit("颐");
    reveal_strlit("复");
    reveal_strlit("姤");
    reveal_strlit("大过");
    reveal_strlit("鼎");
    reveal_strlit("恒");
    reveal_strlit("巽");
    reveal_strlit("井");
    reveal_strlit("蛊");
    reveal_strlit("升");
    reveal_strlit("讼");
    reveal_strlit("困");
    reveal_strlit("未济");
    reveal_strlit("解");
    reveal_strlit("涣");
    reveal_strlit("坎");
    reveal_strlit("蒙");
    reveal_strlit("师");
    reveal_strlit("遁");
    reveal_strlit("咸");
    reveal_strlit("旅");
    reveal_strlit("小过");
    reveal_strlit("渐");
    reveal_strlit("蹇");
    reveal_strlit("艮");
    reveal_strlit("谦");
    reveal_strlit("泰");
    reveal_strlit("萃");
    reveal_strlit("晋");
    reveal_strlit("豫");
    reveal_strlit("观");
    reveal_strlit("比");
    reveal_strlit("剥");
    reveal_strlit("坤");
    reveal_strlit("未知");
}

/// The table is a bijection: every pair of trigrams has a name other than
/// [`unknown_name`], and looking that name up gives the pair back.
pub proof fn lemma_hexagram_bijection(upper: u8, lower: u8)
    requires
        valid_pair(upper, lower),
    ensures
        hexagram_name_spec(upper, lower) != unknown_name(),
        hexagram_struct_spec(hexagram_name_spec(upper, lower)) == (upper, lower),
        is_hexagram_name(hexagram_name_spec(upper, lower)),
{
    lemma_hexagram_names();
}

/// Only pairs of trigrams have a name: every other pair is
/// [`unknown_name`], which names no hexagram.
pub proof fn lemma_unknown_name(upper: u8, lower: u8)
    ensures
        !valid_pair(upper, lower) <==> hexagram_name_spec(upper, lower) == unknown_name(),
        hexagram_struct_spec(unknown_name()) == (0u8, 0u8),
        !is_hexagram_name(unknown_name()),
{
    lemma_hexagram_names();
}

/// Looking a name up always gives a pair of trigrams, and for a hexagram
/// name the pair carries that name again.
pub proof fn lemma_struct_of_name(name: Seq<char>)
    ensures
        valid_pair(hexagram_struct_spec(name).0, hexagram_struct_spec(name).1),
        hexagram_struct_spec(name) != (0u8, 0u8) ==> is_hexagram_name(name),
{
}

/// A hexagram: an upper trigram over a lower one.
#[derive(Debug, Clone, Copy)]
pub struct Hexagram {
    pub upper: u8,
    pub lower: u8,
}

/// The six lines of the pair packed into one value, the lower trigram in
/// bits 0 to 2 and the upper trigram in bits 3 to 5.
pub open spec fn packed_lines(upper: u8, lower: u8) -> u16 {
    ((upper as u16) << 3) | (lower as u16)
}

/// Line `line` of the pair, counted from the bottom, is solid.
pub open spec fn line_is_solid(upper: u8, lower: u8, line: u16) -> bool {
    (packed_lines(upper, lower) >> line) & 1 == 1
}

impl Hexagram {
    /// Both halves are trigrams.
    pub open spec fn wf(&self) -> bool {
        valid_pair(self.upper, self.lower)
    }

    /// The hexagram with line `line` flipped: the six lines are packed,
    /// the bit of that line is inverted, and the two trigrams are unpacked.
    pub open spec fn change_line_spec(&self, line: u16) -> Hexagram {
        let flipped = packed_lines(self.upper, self.lower) ^ (1u16 << line);
        Hexagram { upper: ((flipped >> 3) & 0x7) as u8, lower: (flipped & 0x7) as u8 }
    }

    /// The name of the hexagram.
    pub open spec fn name_spec(&self) -> Seq<char> {
        hexagram_name_spec(self.upper, self.lower)
    }

    pub fn new(upper: u8, lower: u8) -> (h: Self)
        ensures
            h.upper == upper,
            h.lower == lower,
    {
        Self { upper, lower }
    }

    /// The hexagram that carries `name`; a string that names no hexagram
    /// gives the hexagram `(0, 0)`.
    pub fn from_name(name: &str) -> (h: Self)
        ensures
            (h.upper, h.lower) == hexagram_struct_spec(name@),
            h.wf(),
    {
        let (u, l) = get_hexagram_struct(name);
        Self { upper: u, lower: l }
    }

    /// Flips one line; `line_idx` counts from the bottom line, 0, to the
    /// top line, 5.  The result is again a pair of trigrams.
    pub fn change_line(&self, line_idx: usize) -> (h: Self)
        requires
            line_idx <= 5,
        ensures
            h == self.change_line_spec(line_idx as u16),
            h.wf(),
    {
        let line: u16 = line_idx as u16;
        let upper: u8 = self.upper;
        let lower: u8 = self.lower;
        let full: u16 = ((upper as u16) << 3) | (lower as u16);
        let flipped: u16 = full ^ (1u16 << line);
        let new_upper: u16 = (flipped >> 3) & 0x7;
        let new_lower: u16 = flipped & 0x7;
        assert(new_upper < 8 && new_lower < 8) by (bit_vector)
            requires
                new_upper == (flipped >> 3) & 0x7,
                new_lower == flipped & 0x7,
        ;
        Self { upper: new_upper as u8, lower: new_lower as u8 }
    }

    pub fn name(&self) -> (name: String)
        ensures
            name@ == self.name_spec(),
    {
        get_hexagram_name(self.upper, self.lower)
    }
}

/// Flipping a line of a hexagram inverts that line and leaves the five
/// other lines as they were: lines 0 to 2 change the lower trigram only,
/// lines 3 to 5 the upper trigram only.
pub proof fn lemma_change_line_flips_one(h: Hexagram, line: u16, other: u16)
    requires
        h.wf(),
        line <= 5,
        other <= 5,
    ensures
        h.change_line_spec(line).wf(),
        line < 3 ==> h.change_line_spec(line).upper == h.upper && h.change_line_spec(line).lower
            == h.lower ^ (1u8 << line),
        line >= 3 ==> h.change_line_spec(line).lower == h.lower && h.change_line_spec(line).upper
            == h.upper ^ (1u8 << ((line - 3) as u16)),
        line_is_solid(h.change_line_spec(line).upper, h.change_line_spec(line).lower, other) == (
        if other == line {
            !line_is_solid(h.upper, h.lower, other)
        } else {
            line_is_solid(h.upper, h.lower, other)
        }),
{
    let u = h.upper;
    let l = h.lower;
    let flipped = packed_lines(u, l) ^ (1u16 << line);
    let nu = ((flipped >> 3) & 0x7) as u8;
    let nl = (flipped & 0x7) as u8;
    assert(nu < 8 && nl < 8) by (bit_vector)
        requires
            nu == ((flipped >> 3) & 0x7) as u8,
            nl == (flipped & 0x7) as u8,
    ;
    assert(line < 3 ==> nu == u && nl == l ^ (1u8 << line)) by (bit_vector)
        requires
            u < 8,
            l < 8,
            line <= 5,
            flipped == (((u as u16) << 3) | (l as u16)) ^ (1u16 << line),
            nu == ((flipped >> 3) & 0x7) as u8,
            nl == (flipped & 0x7) as u8,
    ;
    assert(line >= 3 ==> nl == l && nu == u ^ (1u8 << ((line - 3) as u16))) by (bit_vector)
        requires
            u < 8,
            l < 8,
            line <= 5,
            flipped == (((u as u16) << 3) | (l as u16)) ^ (1u16 << line),
            nu == ((flipped >> 3) & 0x7) as u8,
            nl == (flipped & 0x7) as u8,
    ;
    assert(((((nu as u16) << 3) | (nl as u16)) >> other) & 1 == 1 <==> (if other == line {
        !(((((u as u16) << 3) | (l as u16)) >> other) & 1 == 1)
    } else {
        ((((u as u16) << 3) | (l as u16)) >> other) & 1 == 1
    })) by (bit_vector)
        requires
            u < 8,
            l < 8,
            line <= 5,
            other <= 5,
            flipped == (((u as u16) << 3) | (l as u16)) ^ (1u16 << line),
            nu == ((flipped >> 3) & 0x7) as u8,
            nl == (flipped & 0x7) as u8,
    ;
}

/// Flipping the same line twice gives the hexagram back, and flipping it
/// once gives a different hexagram.
pub proof fn lemma_change_line_involution(h: Hexagram, line: u16)
    requires
        h.wf(),
        line <= 5,
    ensures
        h.change_line_spec(line).change_line_spec(line) == h,
        h.change_line_spec(line) != h,
{
    let u = h.upper;
    let l = h.lower;
    let flipped = packed_lines(u, l) ^ (1u16 << line);
    let nu = ((flipped >> 3) & 0x7) as u8;
    let nl = (flipped & 0x7) as u8;
    let back = packed_lines(nu, nl) ^ (1u16 << line);
    let bu = ((back >> 3) & 0x7) as u8;
    let bl = (back & 0x7) as u8;
    assert(bu == u && bl == l && !(nu == u && nl == l)) by (bit_vector)
        requires
            u < 8,
            l < 8,
            line <= 5,
            flipped == (((u as u16) << 3) | (l as u16)) ^ (1u16 << line),
            nu == ((flipped >> 3) & 0x7) as u8,
            nl == (flipped & 0x7) as u8,
            back == (((nu as u16) << 3) | (nl as u16)) ^ (1u16 << line),
            bu == ((back >> 3) & 0x7) as u8,
            bl == (back & 0x7) as u8,
    ;
}

/// Flipping a line of a hexagram gives a hexagram of the table again: its
/// name is never [`unknown_name`].
pub proof fn lemma_change_line_named(h: Hexagram, line: u16)
    requires
        h.wf(),
        line <= 5,
    ensures
        h.change_line_spec(line).wf(),
        h.change_line_spec(line).name_spec() != unknown_name(),
        is_hexagram_name(h.change_line_spec(line).name_spec()),
{
    lemma_change_line_flips_one(h, line, 0);
    let changed = h.change_line_spec(line);
    lemma_hexagram_bijection(changed.upper, changed.lower);
}

/// The name of a single trigram.
pub open spec fn trigram_name_spec(val: u8) -> Seq<char> {
    match val {
        7 => "乾"@,
        3 => "兑"@,
        5 => "离"@,
        1 => "震"@,
        6 => "巽"@,
        2 => "坎"@,
        4 => "艮"@,
        0 => "坤"@,
        _ => "?"@,
    }
}

/// Looks up the name of a trigram; a value that is no trigram gives "?".
pub fn get_trigram_name(val: u8) -> (name: &'static str)
    ensures
        name@ == trigram_name_spec(val),
{
    match val {
        7 => "乾",
        3 => "兑",
        5 => "离",
        1 => "震",
        6 => "巽",
        2 => "坎",
        4 => "艮",
        0 => "坤",
        _ => "?",
    }
}

/// A doubled trigram carries the name of that trigram.
pub proof fn lemma_doubled_trigram(val: u8)
    requires
        val < 8,
    ensures
        hexagram_name_spec(val, val) == trigram_name_spec(val),
{
}

} // verus!
