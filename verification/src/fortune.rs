//! The fortune of a year: its periods and its hexagram, the flying star
//! of the year, the almanac entry of the day and what the chronicle
//! records for the year.

use vstd::prelude::*;
use vstd::string::StringExecFns;
use crate::civil::{utc_year, utc_year_of};
use crate::data::{get_year_record, YearRecord, YearTable};
use crate::decimal::{decimal_int, decimal_string};
use crate::hexagram::{get_hexagram_struct, hexagram_struct_spec};
use crate::jieqi::FULL_CIRCLE;
use crate::lunar::{compute_lunar, compute_lunar_spec, LunarInfo, LunarInfoView};
use crate::period::{get_hj_info, hj_info_spec, year_supported, HuangjiInfo, HuangjiView};

verus! {

/// The nine flying stars, each under its number.
pub const STARS: [&'static str; 10] = [
    "", "一白贪狼", "二黑巨门", "三碧禄存", "四绿文曲", "五黄廉贞", "六白武曲", "七赤破军", "八白左辅", "九紫右弼",
];

/// The fortune of a year.
#[derive(Debug)]
pub struct FortuneResponse {
    pub yuan: String,
    pub hui: String,
    pub yun: String,
    pub shi: String,
    pub xun: String,
    /// The sexagenary name of the year.
    pub nian_ganzhi: String,
    /// The hexagram of the year.
    pub hexagram_major: String,
    pub hexagram_minor: Option<String>,
    /// The six lines of the hexagram of the year from the top line down,
    /// one for a solid line.
    pub hexagram_code: Option<Vec<u8>>,
    pub flying_star: Option<String>,
    pub period_info: Option<HuangjiInfo>,
    pub next_yun_start_year: Option<i32>,
    pub next_shi_start_year: Option<i32>,
    pub next_xun_start_year: Option<i32>,
    pub lunar: Option<LunarInfo>,
    pub note: String,
    pub mapping_record: Option<YearRecord>,
}

/// What a [`FortuneResponse`] holds, as mathematical values.
pub struct FortuneView {
    pub yuan: Seq<char>,
    pub hui: Seq<char>,
    pub yun: Seq<char>,
    pub shi: Seq<char>,
    pub xun: Seq<char>,
    pub nian_ganzhi: Seq<char>,
    pub hexagram_major: Seq<char>,
    pub hexagram_minor: Option<Seq<char>>,
    pub hexagram_code: Option<Seq<u8>>,
    pub flying_star: Option<Seq<char>>,
    pub period_info: Option<HuangjiView>,
    pub next_yun_start_year: Option<int>,
    pub next_shi_start_year: Option<int>,
    pub next_xun_start_year: Option<int>,
    pub lunar: Option<LunarInfoView>,
    pub note: Seq<char>,
    pub mapping_record: Option<YearRecord>,
}

impl View for FortuneResponse {
    type V = FortuneView;

    open spec fn view(&self) -> FortuneView {
        FortuneView {
            yuan: self.yuan@,
            hui: self.hui@,
            yun: self.yun@,
            shi: self.shi@,
            xun: self.xun@,
            nian_ganzhi: self.nian_ganzhi@,
            hexagram_major: self.hexagram_major@,
            hexagram_minor: match self.hexagram_minor {
                Some(name) => Some(name@),
                None => None,
            },
            hexagram_code: match self.hexagram_code {
                Some(code) => Some(code@),
                None => None,
            },
            flying_star: match self.flying_star {
                Some(star) => Some(star@),
                None => None,
            },
            period_info: match self.period_info {
                Some(info) => Some(info@),
                None => None,
            },
            next_yun_start_year: match self.next_yun_start_year {
                Some(year) => Some(year as int),
                None => None,
            },
            next_shi_start_year: match self.next_shi_start_year {
                Some(year) => Some(year as int),
                None => None,
            },
            next_xun_start_year: match self.next_xun_start_year {
                Some(year) => Some(year as int),
                None => None,
            },
            lunar: match self.lunar {
                Some(entry) => Some(entry@),
                None => None,
            },
            note: self.note@,
            mapping_record: self.mapping_record,
        }
    }
}

/// A text without the white space at its start and at its end, as
/// `str::trim` of the standard library cuts it.
pub uninterp spec fn trimmed(text: Seq<char>) -> Seq<char>;

/// `str::trim` of the standard library, its result copied into a string
/// of its own.  The result is the named value [`trimmed`] of the text;
/// nothing more is claimed of it.
#[verifier::external_body]
pub(crate) fn trim_string(text: &str) -> (out: String)
    ensures
        out@ == trimmed(text@),
{
    text.trim().to_string()
}

/// The six lines of the hexagram `upper` over `lower` from the top line
/// down: the three bits of the upper trigram, then those of the lower,
/// each from its highest bit.
pub open spec fn hexagram_code_spec(upper: u8, lower: u8) -> Seq<u8> {
    seq![
        (upper >> 2) & 1,
        (upper >> 1) & 1,
        upper & 1,
        (lower >> 2) & 1,
        (lower >> 1) & 1,
        lower & 1,
    ]
}

/// The six lines of a hexagram from the top line down.
pub fn hexagram_code(upper: u8, lower: u8) -> (code: Vec<u8>)
    ensures
        code@ == hexagram_code_spec(upper, lower),
        code@.len() == 6,
{
    let mut code: Vec<u8> = Vec::new();
    code.push((upper >> 2) & 1);
    code.push((upper >> 1) & 1);
    code.push(upper & 1);
    code.push((lower >> 2) & 1);
    code.push((lower >> 1) & 1);
    code.push(lower & 1);
    assert(code@ =~= hexagram_code_spec(upper, lower));
    code
}

/// The remainder of a division that rounds towards zero: it has the sign
/// of `a`.
pub open spec fn truncated_rem(a: int, m: int) -> int {
    if a >= 0 {
        a % m
    } else {
        -((-a) % m)
    }
}

/// The number of the flying star of a year, from 1 to 9: the stars run
/// backward through the years, and the years before 1 AD are counted with
/// a year zero.
pub open spec fn flying_star_number(year: int) -> int {
    let counted = if year > 0 {
        year
    } else {
        year + 1
    };
    let star = (11 - truncated_rem(counted, 9)) % 9;
    if star == 0 {
        9
    } else {
        star
    }
}

/// The flying star of a year.
pub fn flying_star(year: i32) -> (star: String)
    ensures
        star@ == STARS[flying_star_number(year as int)]@,
        1 <= flying_star_number(year as int) <= 9,
{
    let counted: i64 = if year > 0 {
        year as i64
    } else {
        year as i64 + 1
    };
    let rem: i64 = if counted >= 0 {
        counted % 9
    } else {
        -((-counted) % 9)
    };
    let mut star_val: i64 = (11 - rem) % 9;
    if star_val == 0 {
        star_val = 9;
    }
    STARS[star_val as usize].to_string()
}

/// The note on a year: dynasty and person of its record, and where the
/// year has no record the remark that it is not covered.
pub open spec fn note_spec(year: int, record: Option<YearRecord>) -> Seq<char> {
    match record {
        Some(r) => trimmed(r.dynasty@ + " "@ + r.person@),
        None => "数据未覆盖 "@ + decimal_int(year) + " 年"@,
    }
}

/// The fortune of the year `year` with the record `record` of the
/// chronicle and the almanac entry `lunar`.
pub open spec fn fortune_spec(year: int, record: Option<YearRecord>, lunar: Option<LunarInfoView>)
    -> FortuneView {
    let info = hj_info_spec(year);
    let pair = hexagram_struct_spec(info.year_gua);
    FortuneView {
        yuan: info.yuan.name,
        hui: info.hui.name,
        yun: info.yun.name,
        shi: info.shi.name,
        xun: info.xun.name,
        nian_ganzhi: match lunar {
            Some(entry) => entry.ganzhi_year,
            None => "未知"@,
        },
        hexagram_major: info.year_gua,
        hexagram_minor: None,
        hexagram_code: Some(hexagram_code_spec(pair.0, pair.1)),
        flying_star: Some(STARS[flying_star_number(year)]@),
        period_info: Some(info),
        next_yun_start_year: Some(info.yun.end_year + 1),
        next_shi_start_year: Some(info.shi.end_year + 1),
        next_xun_start_year: Some(info.xun.end_year + 1),
        lunar,
        note: note_spec(year, record),
        mapping_record: record,
    }
}

/// Puts together the fortune of a year from its periods, the record of
/// the chronicle and the almanac entry of the day.
pub fn fortune_of_year(year: i32, record: Option<YearRecord>, lunar: Option<LunarInfo>) -> (fortune:
    FortuneResponse)
    requires
        year_supported(year as int),
    ensures
        fortune@ == fortune_spec(
            year as int,
            record,
            match lunar {
                Some(entry) => Some(entry@),
                None => None,
            },
        ),
{
    let algo_info: HuangjiInfo = get_hj_info(year);

    let note: String = match &record {
        Some(r) => {
            let mut joined: String = r.dynasty.clone();
            joined.append(" ");
            joined.append(r.person.as_str());
            trim_string(joined.as_str())
        },
        None => {
            let mut text: String = "数据未覆盖 ".to_string();
            text.append(decimal_string(year).as_str());
            text.append(" 年");
            text
        },
    };

    let ganzhi: String = match &lunar {
        Some(entry) => entry.ganzhi_year.clone(),
        None => "未知".to_string(),
    };

    let (u, l) = get_hexagram_struct(algo_info.year_gua.as_str());
    let hex_code: Vec<u8> = hexagram_code(u, l);
    let star: String = flying_star(year);

    proof {
        crate::period_laws::lemma_segment_bounds(year as int);
    }
    let next_yun: i32 = algo_info.yun.end_year + 1;
    let next_shi: i32 = algo_info.shi.end_year + 1;
    let next_xun: i32 = algo_info.xun.end_year + 1;

    FortuneResponse {
        yuan: algo_info.yuan.name.clone(),
        hui: algo_info.hui.name.clone(),
        yun: algo_info.yun.name.clone(),
        shi: algo_info.shi.name.clone(),
        xun: algo_info.xun.name.clone(),
        nian_ganzhi: ganzhi,
        hexagram_major: algo_info.year_gua.clone(),
        hexagram_minor: None,
        hexagram_code: Some(hex_code),
        flying_star: Some(star),
        period_info: Some(algo_info),
        lunar,
        note,
        mapping_record: record,
        next_yun_start_year: Some(next_yun),
        next_shi_start_year: Some(next_shi),
        next_xun_start_year: Some(next_xun),
    }
}

/// The fortune of the instant `timestamp` with the sun at `lambda`: that
/// of its civil year, where the instant has one that is no year zero and
/// whose periods can be written.
pub open spec fn compute_fortune_spec(timestamp: int, lambda: int, table: Map<i32, YearRecord>)
    -> Option<FortuneView> {
    match utc_year_of(timestamp) {
        Some(year) => if year_supported(year) {
            Some(
                fortune_spec(
                    year,
                    if table.contains_key(year as i32) {
                        Some(table[year as i32])
                    } else {
                        None
                    },
                    match compute_lunar_spec(timestamp, lambda) {
                        Ok(entry) => Some(entry),
                        Err(_) => None,
                    },
                ),
            )
        } else {
            None
        },
        None => None,
    }
}

/// The fortune that was computed, as mathematical values.
pub open spec fn fortune_view(fortune: Option<FortuneResponse>) -> Option<FortuneView> {
    match fortune {
        Some(f) => Some(f@),
        None => None,
    }
}

/// Computes the fortune of the civil year of an instant.
///
/// `timestamp` is in seconds since the start of 1970 in UTC, `lambda` the
/// longitude of the sun at that instant in microdegrees, on the circle,
/// and `table` the records of the chronicle.  The year is the civil year
/// of the instant in UTC; there is no fortune for an instant outside the
/// calendar, in the civil year 0 or in a year whose periods cannot be
/// written.
pub fn compute_fortune(timestamp: i64, lambda: i64, table: &YearTable) -> (fortune: Option<
    FortuneResponse,
>)
    requires
        0 <= lambda < FULL_CIRCLE,
    ensures
        fortune_view(fortune) == compute_fortune_spec(timestamp as int, lambda as int, table@),
{
    let year: i32 = match utc_year(timestamp) {
        Some(year) => year,
        None => {
            return None;
        },
    };
    if year == 0 || year < crate::period::MIN_YEAR || year > crate::period::MAX_YEAR {
        return None;
    }
    let record: Option<YearRecord> = get_year_record(table, year);
    let lunar_info: Option<LunarInfo> = match compute_lunar(timestamp, lambda) {
        Ok(entry) => Some(entry),
        Err(_) => None,
    };
    Some(fortune_of_year(year, record, lunar_info))
}

} // verus!
