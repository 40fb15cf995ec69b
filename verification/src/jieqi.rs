//! The twenty-four solar terms.
//!
//! A solar term is a fifteen-degree division of the sun's yearly path
//! along the ecliptic, counted from the spring equinox at 0°.  Every other
//! term is a "jie", a term that opens a month of the sexagenary calendar.
//!
//! Angles are whole microdegrees: one degree is [`DEGREE`].

use vstd::prelude::*;
use crate::euclid::{lemma_floor_div_bounds, lemma_floor_div_refines, rem_euclid_i64};

verus! {

/// One degree, in microdegrees.
pub const DEGREE: i64 = 1_000_000;

/// The full circle, in microdegrees.
pub const FULL_CIRCLE: i64 = 360_000_000;

/// The width of a solar term, in microdegrees.
pub const TERM_WIDTH: i64 = 15_000_000;

/// The twenty-four solar terms, from the spring equinox onwards.
#[derive(Debug, Clone, Copy, PartialEq, Eq, Hash, Structural)]
pub enum SolarTerm {
    /// 春分, 0°
    Chunfen,
    /// 清明, 15°
    Qingming,
    /// 谷雨, 30°
    Guyu,
    /// 立夏, 45°
    Lixia,
    /// 小满, 60°
    Xiaoman,
    /// 芒种, 75°
    Mangzhong,
    /// 夏至, 90°
    Xiazhi,
    /// 小暑, 105°
    Xiaoshu,
    /// 大暑, 120°
    Dashu,
    /// 立秋, 135°
    Liqiu,
    /// 处暑, 150°
    Chushu,
    /// 白露, 165°
    Bailu,
    /// 秋分, 180°
    Qiufen,
    /// 寒露, 195°
    Hanlu,
    /// 霜降, 210°
    Shuangjiang,
    /// 立冬, 225°
    Lidong,
    /// 小雪, 240°
    Xiaoxue,
    /// 大雪, 255°
    Daxue,
    /// 冬至, 270°
    Dongzhi,
    /// 小寒, 285°
    Xiaohan,
    /// 大寒, 300°
    Dahan,
    /// 立春, 315°
    Lichun,
    /// 雨水, 330°
    Yushui,
    /// 惊蛰, 345°
    Jingzhe,
}

/// The solar term with the given number; meaningful for 0 to 23.
pub open spec fn term_of_index(index: int) -> SolarTerm {
    if index == 0 {
        SolarTerm::Chunfen
    } else if index == 1 {
        SolarTerm::Qingming
    } else if index == 2 {
        SolarTerm::Guyu
    } else if index == 3 {
        SolarTerm::Lixia
    } else if index == 4 {
        SolarTerm::Xiaoman
    } else if index == 5 {
        SolarTerm::Mangzhong
    } else if index == 6 {
        SolarTerm::Xiazhi
    } else if index == 7 {
        SolarTerm::Xiaoshu
    } else if index == 8 {
        SolarTerm::Dashu
    } else if index == 9 {
        SolarTerm::Liqiu
    } else if index == 10 {
        SolarTerm::Chushu
    } else if index == 11 {
        SolarTerm::Bailu
    } else if index == 12 {
        SolarTerm::Qiufen
    } else if index == 13 {
        SolarTerm::Hanlu
    } else if index == 14 {
        SolarTerm::Shuangjiang
    } else if index == 15 {
        SolarTerm::Lidong
    } else if index == 16 {
        SolarTerm::Xiaoxue
    } else if index == 17 {
        SolarTerm::Daxue
    } else if index == 18 {
        SolarTerm::Dongzhi
    } else if index == 19 {
        SolarTerm::Xiaohan
    } else if index == 20 {
        SolarTerm::Dahan
    } else if index == 21 {
        SolarTerm::Lichun
    } else if index == 22 {
        SolarTerm::Yushui
    } else {
        SolarTerm::Jingzhe
    }
}

/// The number of the solar term that holds the ecliptic longitude
/// `longitude`: the whole fifteens of degrees in it, counted round the
/// circle.
pub open spec fn term_index_of_longitude(longitude: int) -> int {
    (longitude / (TERM_WIDTH as int)) % 24
}

impl SolarTerm {
    /// The number of the term, from 0 for the spring equinox to 23.
    pub open spec fn index_spec(self) -> int {
        match self {
            SolarTerm::Chunfen => 0,
            SolarTerm::Qingming => 1,
            SolarTerm::Guyu => 2,
            SolarTerm::Lixia => 3,
            SolarTerm::Xiaoman => 4,
            SolarTerm::Mangzhong => 5,
            SolarTerm::Xiazhi => 6,
            SolarTerm::Xiaoshu => 7,
            SolarTerm::Dashu => 8,
            SolarTerm::Liqiu => 9,
            SolarTerm::Chushu => 10,
            SolarTerm::Bailu => 11,
            SolarTerm::Qiufen => 12,
            SolarTerm::Hanlu => 13,
            SolarTerm::Shuangjiang => 14,
            SolarTerm::Lidong => 15,
            SolarTerm::Xiaoxue => 16,
            SolarTerm::Daxue => 17,
            SolarTerm::Dongzhi => 18,
            SolarTerm::Xiaohan => 19,
            SolarTerm::Dahan => 20,
            SolarTerm::Lichun => 21,
            SolarTerm::Yushui => 22,
            SolarTerm::Jingzhe => 23,
        }
    }

    /// The Chinese name of the term.
    pub open spec fn name_spec(self) -> Seq<char> {
        match self {
            SolarTerm::Chunfen => "春分"@,
            SolarTerm::Qingming => "清明"@,
            SolarTerm::Guyu => "谷雨"@,
            SolarTerm::Lixia => "立夏"@,
            SolarTerm::Xiaoman => "小满"@,
            SolarTerm::Mangzhong => "芒种"@,
            SolarTerm::Xiazhi => "夏至"@,
            SolarTerm::Xiaoshu => "小暑"@,
            SolarTerm::Dashu => "大暑"@,
            SolarTerm::Liqiu => "立秋"@,
            SolarTerm::Chushu => "处暑"@,
            SolarTerm::Bailu => "白露"@,
            SolarTerm::Qiufen => "秋分"@,
            SolarTerm::Hanlu => "寒露"@,
            SolarTerm::Shuangjiang => "霜降"@,
            SolarTerm::Lidong => "立冬"@,
            SolarTerm::Xiaoxue => "小雪"@,
            SolarTerm::Daxue => "大雪"@,
            SolarTerm::Dongzhi => "冬至"@,
            SolarTerm::Xiaohan => "小寒"@,
            SolarTerm::Dahan => "大寒"@,
            SolarTerm::Lichun => "立春"@,
            SolarTerm::Yushui => "雨水"@,
            SolarTerm::Jingzhe => "惊蛰"@,
        }
    }

    /// The ecliptic longitude at which the term starts, in microdegrees.
    pub open spec fn longitude_spec(self) -> int {
        self.index_spec() * TERM_WIDTH
    }

    /// The term is a jie: the terms with odd numbers are, from Qingming at
    /// 15° to Jingzhe at 345°.
    pub open spec fn is_jie_spec(self) -> bool {
        self.index_spec() % 2 == 1
    }

    /// The number of the term, from 0 for the spring equinox to 23.
    pub fn index(&self) -> (i: u8)
        ensures
            i == self.index_spec(),
            i < 24,
    {
        match self {
            SolarTerm::Chunfen => 0,
            SolarTerm::Qingming => 1,
            SolarTerm::Guyu => 2,
            SolarTerm::Lixia => 3,
            SolarTerm::Xiaoman => 4,
            SolarTerm::Mangzhong => 5,
            SolarTerm::Xiazhi => 6,
            SolarTerm::Xiaoshu => 7,
            SolarTerm::Dashu => 8,
            SolarTerm::Liqiu => 9,
            SolarTerm::Chushu => 10,
            SolarTerm::Bailu => 11,
            SolarTerm::Qiufen => 12,
            SolarTerm::Hanlu => 13,
            SolarTerm::Shuangjiang => 14,
            SolarTerm::Lidong => 15,
            SolarTerm::Xiaoxue => 16,
            SolarTerm::Daxue => 17,
            SolarTerm::Dongzhi => 18,
            SolarTerm::Xiaohan => 19,
            SolarTerm::Dahan => 20,
            SolarTerm::Lichun => 21,
            SolarTerm::Yushui => 22,
            SolarTerm::Jingzhe => 23,
        }
    }

    /// The Chinese name of the term.
    pub fn name(&self) -> (name: &'static str)
        ensures
            name@ == self.name_spec(),
    {
        match self {
            SolarTerm::Chunfen => "春分",
            SolarTerm::Qingming => "清明",
            SolarTerm::Guyu => "谷雨",
            SolarTerm::Lixia => "立夏",
            SolarTerm::Xiaoman => "小满",
            SolarTerm::Mangzhong => "芒种",
            SolarTerm::Xiazhi => "夏至",
            SolarTerm::Xiaoshu => "小暑",
            SolarTerm::Dashu => "大暑",
            SolarTerm::Liqiu => "立秋",
            SolarTerm::Chushu => "处暑",
            SolarTerm::Bailu => "白露",
            SolarTerm::Qiufen => "秋分",
            SolarTerm::Hanlu => "寒露",
            SolarTerm::Shuangjiang => "霜降",
            SolarTerm::Lidong => "立冬",
            SolarTerm::Xiaoxue => "小雪",
            SolarTerm::Daxue => "大雪",
            SolarTerm::Dongzhi => "冬至",
            SolarTerm::Xiaohan => "小寒",
            SolarTerm::Dahan => "大寒",
            SolarTerm::Lichun => "立春",
            SolarTerm::Yushui => "雨水",
            SolarTerm::Jingzhe => "惊蛰",
        }
    }

    /// The ecliptic longitude at which the term starts, in microdegrees.
    pub fn longitude(&self) -> (longitude: i64)
        ensures
            longitude == self.longitude_spec(),
            0 <= longitude < FULL_CIRCLE,
            term_index_of_longitude(longitude as int) == self.index_spec(),
    {
        let i: u8 = self.index();
        proof {
            lemma_floor_div_bounds(i * TERM_WIDTH, TERM_WIDTH as int);
        }
        (i as i64) * TERM_WIDTH
    }

    /// Whether the term is a jie, a term that opens a month.
    pub fn is_jie(&self) -> (jie: bool)
        ensures
            jie == self.is_jie_spec(),
    {
        matches!(
            self,
            SolarTerm::Lichun | SolarTerm::Jingzhe | SolarTerm::Qingming | SolarTerm::Lixia
                | SolarTerm::Mangzhong | SolarTerm::Xiaoshu | SolarTerm::Liqiu | SolarTerm::Bailu
                | SolarTerm::Hanlu | SolarTerm::Lidong | SolarTerm::Daxue | SolarTerm::Xiaohan
        )
    }

    /// The term with the given number, for the numbers 0 to 23.
    pub fn from_index(idx: u8) -> (term: Option<Self>)
        ensures
            term is Some <==> idx < 24,
            term matches Some(t) ==> t == term_of_index(idx as int) && t.index_spec() == idx,
    {
        match idx {
            0 => Some(SolarTerm::Chunfen),
            1 => Some(SolarTerm::Qingming),
            2 => Some(SolarTerm::Guyu),
            3 => Some(SolarTerm::Lixia),
            4 => Some(SolarTerm::Xiaoman),
            5 => Some(SolarTerm::Mangzhong),
            6 => Some(SolarTerm::Xiazhi),
            7 => Some(SolarTerm::Xiaoshu),
            8 => Some(SolarTerm::Dashu),
            9 => Some(SolarTerm::Liqiu),
            10 => Some(SolarTerm::Chushu),
            11 => Some(SolarTerm::Bailu),
            12 => Some(SolarTerm::Qiufen),
            13 => Some(SolarTerm::Hanlu),
            14 => Some(SolarTerm::Shuangjiang),
            15 => Some(SolarTerm::Lidong),
            16 => Some(SolarTerm::Xiaoxue),
            17 => Some(SolarTerm::Daxue),
            18 => Some(SolarTerm::Dongzhi),
            19 => Some(SolarTerm::Xiaohan),
            20 => Some(SolarTerm::Dahan),
            21 => Some(SolarTerm::Lichun),
            22 => Some(SolarTerm::Yushui),
            23 => Some(SolarTerm::Jingzhe),
            _ => None,
        }
    }

    /// The term that holds the ecliptic longitude `longitude`, given in
    /// microdegrees.  Longitudes outside the circle are taken round it.
    pub fn from_longitude(longitude: i64) -> (term: Self)
        ensures
            term.index_spec() == term_index_of_longitude(longitude as int),
            term == term_of_index(term_index_of_longitude(longitude as int)),
    {
        let normalized: i64 = rem_euclid_i64(longitude, FULL_CIRCLE);
        let idx: u8 = (normalized / TERM_WIDTH) as u8;
        proof {
            lemma_floor_div_refines(longitude as int, TERM_WIDTH as int, 24);
            lemma_floor_div_bounds(longitude as int, TERM_WIDTH as int);
            lemma_floor_div_bounds(longitude as int, FULL_CIRCLE as int);
            lemma_floor_div_bounds(longitude as int / TERM_WIDTH as int, 24);
        }
        match Self::from_index(idx % 24) {
            Some(term) => term,
            None => SolarTerm::Chunfen,
        }
    }
}

/// The solar term that holds the ecliptic longitude `longitude`.
pub fn current_solar_term(longitude: i64) -> (term: SolarTerm)
    ensures
        term.index_spec() == term_index_of_longitude(longitude as int),
{
    SolarTerm::from_longitude(longitude)
}

/// The number of the first jie after term `index` on the circle.
pub open spec fn next_jie_index(index: int) -> int {
    if index % 2 == 0 {
        (index + 1) % 24
    } else {
        (index + 2) % 24
    }
}

/// The number of the last jie before term `index` on the circle.
pub open spec fn prev_jie_index(index: int) -> int {
    if index % 2 == 0 {
        (index + 23) % 24
    } else {
        (index + 22) % 24
    }
}

/// The first jie that follows `term` on the circle; `term` itself does not
/// count.
pub fn next_jie_after(term: SolarTerm) -> (jie: SolarTerm)
    ensures
        jie.is_jie_spec(),
        jie.index_spec() == next_jie_index(term.index_spec()),
{
    let mut next_idx: u8 = (term.index() + 1) % 24;
    let mut found: SolarTerm = SolarTerm::Qingming;
    let mut searching: bool = true;
    let mut tries: u8 = 0;
    while searching
        invariant
            next_idx < 24,
            tries <= 1,
            searching ==> next_idx == (term.index_spec() + 1 + tries) % 24,
            searching && tries == 1 ==> term.index_spec() % 2 == 1,
            !searching ==> found.is_jie_spec() && found.index_spec() == next_jie_index(
                term.index_spec(),
            ),
        decreases
                if searching {
                    2 - tries
                } else {
                    0
                },
    {
        let candidate: SolarTerm = match SolarTerm::from_index(next_idx) {
            Some(t) => t,
            None => SolarTerm::Qingming,
        };
        if candidate.is_jie() {
            found = candidate;
            searching = false;
        } else {
            next_idx = (next_idx + 1) % 24;
            tries = tries + 1;
        }
    }
    found
}

/// The last jie that precedes `term` on the circle; `term` itself does
/// not count.
pub fn prev_jie_before(term: SolarTerm) -> (jie: SolarTerm)
    ensures
        jie.is_jie_spec(),
        jie.index_spec() == prev_jie_index(term.index_spec()),
{
    let mut prev_idx: u8 = (term.index() + 23) % 24;
    let mut found: SolarTerm = SolarTerm::Qingming;
    let mut searching: bool = true;
    let mut tries: u8 = 0;
    while searching
        invariant
            prev_idx < 24,
            tries <= 1,
            searching ==> prev_idx == (term.index_spec() + 23 - tries) % 24,
            searching && tries == 1 ==> term.index_spec() % 2 == 1,
            !searching ==> found.is_jie_spec() && found.index_spec() == prev_jie_index(
                term.index_spec(),
            ),
        decreases
                if searching {
                    2 - tries
                } else {
                    0
                },
    {
        let candidate: SolarTerm = match SolarTerm::from_index(prev_idx) {
            Some(t) => t,
            None => SolarTerm::Qingming,
        };
        if candidate.is_jie() {
            found = candidate;
            searching = false;
        } else {
            prev_idx = (prev_idx + 23) % 24;
            tries = tries + 1;
        }
    }
    found
}

/// Numbers and terms correspond one to one.
pub proof fn lemma_term_index(term: SolarTerm, index: int)
    ensures
        0 <= term.index_spec() < 24,
        term_of_index(term.index_spec()) == term,
        0 <= index < 24 ==> term_of_index(index).index_spec() == index,
{
}

/// Twelve of the twenty-four terms are jie, and jie and other terms
/// alternate round the circle.
pub proof fn lemma_jie_alternate(index: int)
    requires
        0 <= index < 24,
    ensures
        term_of_index(index).is_jie_spec() != term_of_index((index + 1) % 24).is_jie_spec(),
        term_of_index(next_jie_index(index)).is_jie_spec(),
        term_of_index(prev_jie_index(index)).is_jie_spec(),
{
}

/// Every longitude lies in the term that [`term_index_of_longitude`]
/// names: at or after its start and less than fifteen degrees after it,
/// round the circle.
pub proof fn lemma_longitude_in_term(longitude: int)
    ensures
        0 <= term_index_of_longitude(longitude) < 24,
        0 <= (longitude - term_of_index(term_index_of_longitude(longitude)).longitude_spec())
            % (FULL_CIRCLE as int) < TERM_WIDTH,
        term_index_of_longitude(longitude + FULL_CIRCLE) == term_index_of_longitude(longitude),
{
    let w = TERM_WIDTH as int;
    lemma_floor_div_bounds(longitude, w);
    lemma_floor_div_bounds(longitude / w, 24);
    lemma_floor_div_refines(longitude, w, 24);
    let q = longitude / w;
    let i = q % 24;
    let turns = q / 24;
    lemma_term_index(SolarTerm::Chunfen, i);
    let rest = longitude % w;
    assert(longitude - i * w == turns * (FULL_CIRCLE as int) + rest) by (nonlinear_arith)
        requires
            longitude == w * q + rest,
            q == 24 * turns + i,
            w == 15_000_000,
            FULL_CIRCLE == 360_000_000,
    ;
    crate::euclid::lemma_floor_div_unique(longitude - i * w, FULL_CIRCLE as int, turns, rest);
    lemma_floor_div_bounds(longitude + FULL_CIRCLE, w);
    crate::euclid::lemma_floor_div_unique(longitude + FULL_CIRCLE, w, q + 24, rest);
    crate::euclid::lemma_floor_div_unique(q + 24, 24, turns + 1, i);
}

} // verus!
