//! The almanac entry of a day: its date in the lunisolar calendar, the
//! sexagenary names of year, month, day and double hour, the solar term,
//! the officer of the day and what the day is good and bad for.
//!
//! The date in the lunisolar calendar is taken from the
//! `chinese_lunisolar_calendar` crate; everything else is reckoned here.

use chinese_lunisolar_calendar::{LunisolarDate, SolarDate};
use vstd::prelude::*;
use vstd::string::StringExecFns;
use crate::civil::{utc_date, utc_date_of, CivilDate};
use crate::euclid::{
    div_euclid_i128, lemma_floor_div_bounds, lemma_floor_div_unique, rem_euclid, rem_euclid_i128,
    rem_euclid_i64,
};
use crate::ganzhi::{DIZHI, TIANGAN};
use crate::hexagram::str_eq;
use crate::jieqi::{term_index_of_longitude, term_of_index, SolarTerm, DEGREE, FULL_CIRCLE};
use crate::solar::{jd_of_timestamp, DAY};

verus! {

/// The twelve officers of the days, from the day whose branch is that of
/// the month.
pub const OFFICERS: [&'static str; 12] = [
    "建", "除", "满", "平", "定", "执", "破", "危", "成", "收", "开", "闭",
];

/// Julian Day 2451544.5 in whole days: the day number of 2000-01-01, a
/// day of stem 4 and branch 6.
pub const ALMANAC_EPOCH_DAY: i64 = 2451545;

/// The directions of the lucky spirits, the same for every day.
pub open spec fn aus_directions_spec() -> Seq<char> {
    "喜神: 东北, 财神: 正北"@
}

/// The names that the lunisolar calendar gives to a date.
#[derive(Debug)]
pub struct LunarNames {
    pub year: String,
    pub month: String,
    pub day: String,
    pub zodiac: String,
}

/// What a [`LunarNames`] holds, as mathematical values.
pub struct LunarNamesView {
    pub year: Seq<char>,
    pub month: Seq<char>,
    pub day: Seq<char>,
    pub zodiac: Seq<char>,
}

impl View for LunarNames {
    type V = LunarNamesView;

    open spec fn view(&self) -> LunarNamesView {
        LunarNamesView {
            year: self.year@,
            month: self.month@,
            day: self.day@,
            zodiac: self.zodiac@,
        }
    }
}

/// Why a day has no almanac entry.
#[derive(Debug, Clone, Copy, PartialEq, Eq, Structural)]
pub enum LunarError {
    /// The instant lies outside the civil calendar.
    OutsideCalendar,
    /// Year, month and day do not make a date.
    InvalidDate,
    /// The date lies outside the years that the lunisolar calendar covers.
    OutOfRange,
}

/// The names that the lunisolar calendar gives to the civil date of
/// `year`, `month` and `day`, or the reason why it gives none.
pub uninterp spec fn lunar_names_of(year: int, month: int, day: int) -> Result<
    LunarNamesView,
    LunarError,
>;

/// The names that were found, as mathematical values, or the reason why
/// none were.
pub open spec fn lunar_names_view(names: Result<LunarNames, LunarError>) -> Result<
    LunarNamesView,
    LunarError,
> {
    match names {
        Ok(n) => Ok(n@),
        Err(e) => Err(e),
    }
}

/// `chinese_lunisolar_calendar::LunisolarDate::from_solar_date` on the
/// `SolarDate::from_ymd` of a civil date, read with `to_lunar_year`,
/// `to_lunar_month`, `to_lunar_day` and `to_zodiac`, each written out in
/// Chinese.  The result is the named value [`lunar_names_of`] of the date,
/// with [`LunarError::InvalidDate`] where `from_ymd` refuses the date and
/// [`LunarError::OutOfRange`] where `from_solar_date` does; nothing more
/// is claimed of it.
#[verifier::external_body]
pub(crate) fn lunar_names(year: u16, month: u8, day: u8) -> (names: Result<LunarNames, LunarError>)
    ensures
        lunar_names_view(names) == lunar_names_of(year as int, month as int, day as int),
{
    let solar = match SolarDate::from_ymd(year, month, day) {
        Ok(solar) => solar,
        Err(_) => return Err(LunarError::InvalidDate),
    };
    let date = match LunisolarDate::from_solar_date(solar) {
        Ok(date) => date,
        Err(_) => return Err(LunarError::OutOfRange),
    };
    let (y, m, d) = (date.to_lunar_year(), date.to_lunar_month(), date.to_lunar_day());
    let zodiac = y.to_zodiac().to_string();
    Ok(LunarNames { year: y.to_string(), month: m.to_string(), day: d.to_string(), zodiac })
}

/// The almanac entry of a day.
#[derive(Debug)]
pub struct LunarInfo {
    pub lunar_year: String,
    pub lunar_month: String,
    pub lunar_day: String,
    pub ganzhi_year: String,
    pub ganzhi_month: String,
    pub ganzhi_day: String,
    pub ganzhi_hour: String,
    pub zodiac: String,
    pub solar_term: Option<String>,
    /// The officer of the day.
    pub twelve_officer: String,
    /// The directions of the lucky spirits.
    pub aus_directions: String,
    /// What the day is good for.
    pub yi: Vec<String>,
    /// What the day is bad for.
    pub ji: Vec<String>,
}

/// What a [`LunarInfo`] holds, as mathematical values.
pub struct LunarInfoView {
    pub lunar_year: Seq<char>,
    pub lunar_month: Seq<char>,
    pub lunar_day: Seq<char>,
    pub ganzhi_year: Seq<char>,
    pub ganzhi_month: Seq<char>,
    pub ganzhi_day: Seq<char>,
    pub ganzhi_hour: Seq<char>,
    pub zodiac: Seq<char>,
    pub solar_term: Option<Seq<char>>,
    pub twelve_officer: Seq<char>,
    pub aus_directions: Seq<char>,
    pub yi: Seq<Seq<char>>,
    pub ji: Seq<Seq<char>>,
}

/// The characters of each string of a list.
pub open spec fn string_views(list: Seq<String>) -> Seq<Seq<char>> {
    Seq::new(list.len(), |i: int| list[i]@)
}

impl View for LunarInfo {
    type V = LunarInfoView;

    open spec fn view(&self) -> LunarInfoView {
        LunarInfoView {
            lunar_year: self.lunar_year@,
            lunar_month: self.lunar_month@,
            lunar_day: self.lunar_day@,
            ganzhi_year: self.ganzhi_year@,
            ganzhi_month: self.ganzhi_month@,
            ganzhi_day: self.ganzhi_day@,
            ganzhi_hour: self.ganzhi_hour@,
            zodiac: self.zodiac@,
            solar_term: match self.solar_term {
                Some(term) => Some(term@),
                None => None,
            },
            twelve_officer: self.twelve_officer@,
            aus_directions: self.aus_directions@,
            yi: string_views(self.yi@),
            ji: string_views(self.ji@),
        }
    }
}

/// The name of the pair of a stem and a branch: the name of the stem
/// followed by the name of the branch, both counted round their cycles.
pub open spec fn ganzhi_spec(stem_idx: int, branch_idx: int) -> Seq<char> {
    TIANGAN[stem_idx % 10]@ + DIZHI[branch_idx % 12]@
}

/// The name of the pair of stem `stem_idx` and branch `branch_idx`.
pub fn get_ganzhi(stem_idx: usize, branch_idx: usize) -> (name: String)
    ensures
        name@ == ganzhi_spec(stem_idx as int, branch_idx as int),
{
    let mut name: String = TIANGAN[stem_idx % 10].to_string();
    name.append(DIZHI[branch_idx % 12]);
    name
}

/// The day number of a Julian Day: Julian Days turn at noon, day numbers
/// at the midnight before.
pub open spec fn day_number_spec(jd: int) -> int {
    (jd + DAY / 2) / (DAY as int)
}

/// Stem and branch of the day with the given day number, counted from
/// 2000-01-01.
pub open spec fn almanac_day_pillar_spec(day_number: int) -> (int, int) {
    ((4 + day_number - ALMANAC_EPOCH_DAY) % 10, (6 + day_number - ALMANAC_EPOCH_DAY) % 12)
}

/// Stem, branch and name of the day of the Julian Day `jd`, given in
/// microseconds.
pub fn get_ganzhi_day(jd: i64) -> (r: (usize, usize, String))
    ensures
        (r.0 as int, r.1 as int) == almanac_day_pillar_spec(day_number_spec(jd as int)),
        r.0 < 10,
        r.1 < 12,
        r.2@ == ganzhi_spec(r.0 as int, r.1 as int),
{
    let day_number: i128 = div_euclid_i128((jd as i128) + 43_200_000_000, 86_400_000_000);
    proof {
        lemma_floor_div_bounds(jd + DAY / 2, DAY as int);
    }
    let offset: i128 = day_number - 2451545;
    let stem_idx: usize = rem_euclid_i128(4 + offset, 10) as usize;
    let branch_idx: usize = rem_euclid_i128(6 + offset, 12) as usize;
    (stem_idx, branch_idx, get_ganzhi(stem_idx, branch_idx))
}

/// The branch of the month that holds the solar longitude `lambda`, a
/// longitude on the circle: the month of branch 2 starts at 315°.
pub open spec fn almanac_month_branch_spec(lambda: int) -> int {
    ((lambda + 45 * DEGREE) / (30 * DEGREE) + 2) % 12
}

/// The name of the solar term of the longitude `lambda`, given in
/// microdegrees on the circle, and the branch of its month with its name.
pub fn get_solar_term_and_month_branch(lambda: i64) -> (r: (Option<String>, usize, String))
    requires
        0 <= lambda < FULL_CIRCLE,
    ensures
        r.0 matches Some(name) && name@ == term_of_index(
            term_index_of_longitude(lambda as int),
        ).name_spec(),
        r.1 == almanac_month_branch_spec(lambda as int),
        r.1 < 12,
        r.2@ == DIZHI[r.1 as int]@,
{
    let month_idx_raw: usize = ((lambda + 45_000_000) / 30_000_000) as usize;
    let month_branch_idx: usize = (month_idx_raw + 2) % 12;
    let current_term: String = SolarTerm::from_longitude(lambda).name().to_string();
    (Some(current_term), month_branch_idx, DIZHI[month_branch_idx].to_string())
}

/// The officer of a day: the first officer on the day whose branch is
/// that of the month, and the next one on each day after it.
pub open spec fn twelve_officer_spec(month_branch_idx: int, day_branch_idx: int) -> Seq<char> {
    OFFICERS[(day_branch_idx - month_branch_idx) % 12]@
}

/// The officer of the day of branch `day_branch_idx` in the month of
/// branch `month_branch_idx`.
pub fn get_twelve_officer(month_branch_idx: usize, day_branch_idx: usize) -> (officer: String)
    requires
        month_branch_idx < 12,
        day_branch_idx < 12,
    ensures
        officer@ == twelve_officer_spec(month_branch_idx as int, day_branch_idx as int),
{
    let diff: usize = rem_euclid(day_branch_idx as i32 - month_branch_idx as i32, 12) as usize;
    OFFICERS[diff].to_string()
}

/// What the day of an officer is good for; nothing for a string that
/// names no officer.
pub open spec fn yi_spec(officer: Seq<char>) -> Seq<Seq<char>> {
    if officer == "建"@ {
        seq!["出行"@, "访友"@, "纳财"@, "祭祀"@]
    } else if officer == "除"@ {
        seq!["扫舍"@, "沐浴"@, "求医"@, "治病"@]
    } else if officer == "满"@ {
        seq!["嫁娶"@, "祈福"@, "开市"@, "纳财"@]
    } else if officer == "平"@ {
        seq!["修饰"@, "涂泥"@, "移徙"@]
    } else if officer == "定"@ {
        seq!["入学"@, "祭祀"@, "裁衣"@, "纳畜"@]
    } else if officer == "执"@ {
        seq!["祭祀"@, "祈福"@, "捕捉"@, "纳采"@]
    } else if officer == "破"@ {
        seq!["求医"@, "治病"@, "破屋"@, "拆卸"@]
    } else if officer == "危"@ {
        seq!["安床"@, "祭祀"@, "安门"@]
    } else if officer == "成"@ {
        seq!["嫁娶"@, "开市"@, "入学"@, "祭祀"@]
    } else if officer == "收"@ {
        seq!["纳财"@, "捕捉"@, "索债"@]
    } else if officer == "开"@ {
        seq!["祭祀"@, "祈福"@, "入学"@, "开市"@]
    } else if officer == "闭"@ {
        seq!["筑堤"@, "安床"@, "补垣"@]
    } else {
        seq![]
    }
}

/// What the day of an officer is bad for; nothing for a string that
/// names no officer.
pub open spec fn ji_spec(officer: Seq<char>) -> Seq<Seq<char>> {
    if officer == "建"@ {
        seq!["动土"@, "开仓"@, "掘井"@]
    } else if officer == "除"@ {
        seq!["嫁娶"@, "出行"@, "开市"@]
    } else if officer == "满"@ {
        seq!["动土"@, "安葬"@, "破土"@]
    } else if officer == "平"@ {
        seq!["入宅"@, "安门"@, "栽种"@]
    } else if officer == "定"@ {
        seq!["词讼"@, "出行"@, "打官司"@]
    } else if officer == "执"@ {
        seq!["开市"@, "出货"@, "移徙"@]
    } else if officer == "破"@ {
        seq!["嫁娶"@, "签约"@, "动土"@]
    } else if officer == "危"@ {
        seq!["登山"@, "乘船"@, "出行"@]
    } else if officer == "成"@ {
        seq!["词讼"@, "打官司"@]
    } else if officer == "收"@ {
        seq!["放债"@, "出行"@, "安葬"@]
    } else if officer == "开"@ {
        seq!["安葬"@, "动土"@]
    } else if officer == "闭"@ {
        seq!["开市"@, "出行"@, "求医"@]
    } else {
        seq![]
    }
}

/// What the day of the officer `officer` is good for and what it is bad
/// for.
pub fn get_yi_ji(officer: &str) -> (r: (Vec<String>, Vec<String>))
    ensures
        string_views(r.0@) == yi_spec(officer@),
        string_views(r.1@) == ji_spec(officer@),
{
    let mut yi: Vec<String> = Vec::new();
    let mut ji: Vec<String> = Vec::new();
    proof {
        lemma_officer_names();
    }
    if str_eq(officer, "建") {
        yi.push("出行".to_string());
        yi.push("访友".to_string());
        yi.push("纳财".to_string());
        yi.push("祭祀".to_string());
        ji.push("动土".to_string());
        ji.push("开仓".to_string());
        ji.push("掘井".to_string());
    } else if str_eq(officer, "除") {
        yi.push("扫舍".to_string());
        yi.push("沐浴".to_string());
        yi.push("求医".to_string());
        yi.push("治病".to_string());
        ji.push("嫁娶".to_string());
        ji.push("出行".to_string());
        ji.push("开市".to_string());
    } else if str_eq(officer, "满") {
        yi.push("嫁娶".to_string());
        yi.push("祈福".to_string());
        yi.push("开市".to_string());
        yi.push("纳财".to_string());
        ji.push("动土".to_string());
        ji.push("安葬".to_string());
        ji.push("破土".to_string());
    } else if str_eq(officer, "平") {
        yi.push("修饰".to_string());
        yi.push("涂泥".to_string());
        yi.push("移徙".to_string());
        ji.push("入宅".to_string());
        ji.push("安门".to_string());
        ji.push("栽种".to_string());
    } else if str_eq(officer, "定") {
        yi.push("入学".to_string());
        yi.push("祭祀".to_string());
        yi.push("裁衣".to_string());
        yi.push("纳畜".to_string());
        ji.push("词讼".to_string());
        ji.push("出行".to_string());
        ji.push("打官司".to_string());
    } else if str_eq(officer, "执") {
        yi.push("祭祀".to_string());
        yi.push("祈福".to_string());
        yi.push("捕捉".to_string());
        yi.push("纳采".to_string());
        ji.push("开市".to_string());
        ji.push("出货".to_string());
        ji.push("移徙".to_string());
    } else if str_eq(officer, "破") {
        yi.push("求医".to_string());
        yi.push("治病".to_string());
        yi.push("破屋".to_string());
        yi.push("拆卸".to_string());
        ji.push("嫁娶".to_string());
        ji.push("签约".to_string());
        ji.push("动土".to_string());
    } else if str_eq(officer, "危") {
        yi.push("安床".to_string());
        yi.push("祭祀".to_string());
        yi.push("安门".to_string());
        ji.push("登山".to_string());
        ji.push("乘船".to_string());
        ji.push("出行".to_string());
    } else if str_eq(officer, "成") {
        yi.push("嫁娶".to_string());
        yi.push("开市".to_string());
        yi.push("入学".to_string());
        yi.push("祭祀".to_string());
        ji.push("词讼".to_string());
        ji.push("打官司".to_string());
    } else if str_eq(officer, "收") {
        yi.push("纳财".to_string());
        yi.push("捕捉".to_string());
        yi.push("索债".to_string());
        ji.push("放债".to_string());
        ji.push("出行".to_string());
        ji.push("安葬".to_string());
    } else if str_eq(officer, "开") {
        yi.push("祭祀".to_string());
        yi.push("祈福".to_string());
        yi.push("入学".to_string());
        yi.push("开市".to_string());
        ji.push("安葬".to_string());
        ji.push("动土".to_string());
    } else if str_eq(officer, "闭") {
        yi.push("筑堤".to_string());
        yi.push("安床".to_string());
        yi.push("补垣".to_string());
        ji.push("开市".to_string());
        ji.push("出行".to_string());
        ji.push("求医".to_string());
    }
    assert(string_views(yi@) =~= yi_spec(officer@));
    assert(string_views(ji@) =~= ji_spec(officer@));
    (yi, ji)
}

/// The names of the twelve officers differ from one another.
pub proof fn lemma_officer_names()
    ensures
        forall|i: int, j: int| 0 <= i < j < 12 ==> OFFICERS[i]@ != OFFICERS[j]@,
{
    reveal_strlit("建");
    reveal_strlit("除");
    reveal_strlit("满");
    reveal_strlit("平");
    reveal_strlit("定");
    reveal_strlit("执");
    reveal_strlit("破");
    reveal_strlit("危");
    reveal_strlit("成");
    reveal_strlit("收");
    reveal_strlit("开");
    reveal_strlit("闭");
    assert("建"@[0] == '建');
    assert("除"@[0] == '除');
    assert("满"@[0] == '满');
    assert("平"@[0] == '平');
    assert("定"@[0] == '定');
    assert("执"@[0] == '执');
    assert("破"@[0] == '破');
    assert("危"@[0] == '危');
    assert("成"@[0] == '成');
    assert("收"@[0] == '收');
    assert("开"@[0] == '开');
    assert("闭"@[0] == '闭');
}

/// The year whose stem and branch the almanac gives to a day: in January
/// the year before the civil year, in February too while the sun is past
/// 270° and short of 315°, and the civil year after that.
pub open spec fn almanac_year_spec(year: int, month: int, lambda: int) -> int {
    if month == 1 {
        year - 1
    } else if month == 2 && 270 * DEGREE < lambda < 315 * DEGREE {
        year - 1
    } else {
        year
    }
}

/// The branch of the double hour of a clock hour.
pub open spec fn clock_hour_branch_spec(hour: int) -> int {
    (((hour + 1) / 2) % 24) % 12
}

/// The almanac entry of the day of `date` at the instant `timestamp`,
/// with the sun at the longitude `lambda` and with the names `names` of
/// the lunisolar calendar.
pub open spec fn lunar_info_spec(names: LunarNamesView, date: CivilDate, timestamp: int, lambda: int)
    -> LunarInfoView {
    let day = almanac_day_pillar_spec(day_number_spec(jd_of_timestamp(timestamp)));
    let month_branch = almanac_month_branch_spec(lambda);
    let bazi_year = almanac_year_spec((date.year as u16) as int, date.month as int, lambda);
    let year_stem = (bazi_year - 4) % 10;
    let year_branch = (bazi_year - 4) % 12;
    let month_stem = (((year_stem % 5) * 2 + 2) % 10 + (month_branch - 2 + 12) % 12) % 10;
    let hour_branch = clock_hour_branch_spec((timestamp % 86400) / 3600);
    let hour_stem = ((day.0 % 5) * 2 + hour_branch) % 10;
    let officer = twelve_officer_spec(month_branch, day.1);
    LunarInfoView {
        lunar_year: names.year,
        lunar_month: names.month,
        lunar_day: names.day,
        ganzhi_year: ganzhi_spec(year_stem, year_branch),
        ganzhi_month: TIANGAN[month_stem]@ + DIZHI[month_branch]@,
        ganzhi_day: ganzhi_spec(day.0, day.1),
        ganzhi_hour: ganzhi_spec(hour_stem, hour_branch),
        zodiac: names.zodiac,
        solar_term: Some(term_of_index(term_index_of_longitude(lambda)).name_spec()),
        twelve_officer: officer,
        aus_directions: aus_directions_spec(),
        yi: yi_spec(officer),
        ji: ji_spec(officer),
    }
}

/// Puts together the almanac entry of a day whose names in the lunisolar
/// calendar are known.
///
/// `date` is the civil date of the instant `timestamp`, `lambda` the
/// longitude of the sun at that instant in microdegrees.
pub fn lunar_info_of(names: LunarNames, date: CivilDate, timestamp: i64, lambda: i64) -> (info:
    LunarInfo)
    requires
        0 <= lambda < FULL_CIRCLE,
    ensures
        info@ == lunar_info_spec(names@, date, timestamp as int, lambda as int),
{
    let year: u16 = #[verifier::truncate] (date.year as u16);
    let month: u32 = date.month;

    let days: i64 = crate::euclid::div_euclid_i64(timestamp, 86400);
    let second_of_day: i64 = rem_euclid_i64(timestamp, 86400);
    proof {
        lemma_floor_div_bounds(timestamp as int, 86400);
        lemma_floor_div_unique(
            jd_of_timestamp(timestamp as int) + DAY / 2,
            DAY as int,
            days + 2440588,
            second_of_day * 1_000_000,
        );
    }
    let day_offset: i64 = days + 2440588 - ALMANAC_EPOCH_DAY;
    let day_stem_idx: usize = rem_euclid_i64(4 + day_offset, 10) as usize;
    let day_branch_idx: usize = rem_euclid_i64(6 + day_offset, 12) as usize;
    let ganzhi_day: String = get_ganzhi(day_stem_idx, day_branch_idx);

    let (solar_term, month_branch_idx, month_branch_char) = get_solar_term_and_month_branch(
        lambda,
    );

    let mut bazi_year: i32 = year as i32;
    if month == 1 {
        bazi_year = year as i32 - 1;
    } else if month == 2 && lambda < 315_000_000 && lambda > 270_000_000 {
        bazi_year = year as i32 - 1;
    }
    let year_stem_idx: usize = rem_euclid(bazi_year - 4, 10) as usize;
    let year_branch_idx: usize = rem_euclid(bazi_year - 4, 12) as usize;
    let ganzhi_year: String = get_ganzhi(year_stem_idx, year_branch_idx);

    let first_month_stem_idx: usize = (year_stem_idx % 5 * 2 + 2) % 10;
    let month_offset: usize = (month_branch_idx + 12 - 2) % 12;
    let current_month_stem_idx: usize = (first_month_stem_idx + month_offset) % 10;
    let mut ganzhi_month: String = TIANGAN[current_month_stem_idx].to_string();
    ganzhi_month.append(month_branch_char.as_str());

    let hour: i64 = second_of_day / 3600;
    let hour_branch_idx: usize = ((hour + 1) / 2 % 24 % 12) as usize;
    let hour_stem_idx: usize = (day_stem_idx % 5 * 2 + hour_branch_idx) % 10;
    let ganzhi_hour: String = get_ganzhi(hour_stem_idx, hour_branch_idx);

    let officer: String = get_twelve_officer(month_branch_idx, day_branch_idx);
    let (yi, ji) = get_yi_ji(officer.as_str());

    LunarInfo {
        lunar_year: names.year,
        lunar_month: names.month,
        lunar_day: names.day,
        ganzhi_year,
        ganzhi_month,
        ganzhi_day,
        ganzhi_hour,
        zodiac: names.zodiac,
        solar_term,
        twelve_officer: officer,
        aus_directions: "喜神: 东北, 财神: 正北".to_string(),
        yi,
        ji,
    }
}

/// The almanac entry of the instant `timestamp` with the sun at
/// `lambda`, or the reason why there is none.
pub open spec fn compute_lunar_spec(timestamp: int, lambda: int) -> Result<
    LunarInfoView,
    LunarError,
> {
    match utc_date_of(timestamp) {
        None => Err(LunarError::OutsideCalendar),
        Some(date) => match lunar_names_of(
            (date.year as u16) as int,
            (date.month as u8) as int,
            (date.day as u8) as int,
        ) {
            Err(e) => Err(e),
            Ok(names) => Ok(lunar_info_spec(names, date, timestamp, lambda)),
        },
    }
}

/// The entry that was computed, as mathematical values, or the reason
/// why none was.
pub open spec fn lunar_info_view(info: Result<LunarInfo, LunarError>) -> Result<
    LunarInfoView,
    LunarError,
> {
    match info {
        Ok(entry) => Ok(entry@),
        Err(e) => Err(e),
    }
}

/// Computes the almanac entry of an instant.
///
/// `timestamp` is in seconds since the start of 1970 in UTC; `lambda` is
/// the longitude of the sun at that instant in microdegrees, on the
/// circle.  The names of the lunisolar calendar are looked up for the UTC
/// date of the instant; an instant for which there are none has no entry.
pub fn compute_lunar(timestamp: i64, lambda: i64) -> (info: Result<LunarInfo, LunarError>)
    requires
        0 <= lambda < FULL_CIRCLE,
    ensures
        lunar_info_view(info) == compute_lunar_spec(timestamp as int, lambda as int),
{
    let date: CivilDate = match utc_date(timestamp) {
        Some(date) => date,
        None => {
            return Err(LunarError::OutsideCalendar);
        },
    };
    let year: u16 = #[verifier::truncate] (date.year as u16);
    let month: u8 = #[verifier::truncate] (date.month as u8);
    let day: u8 = #[verifier::truncate] (date.day as u8);
    match lunar_names(year, month, day) {
        Ok(names) => Ok(lunar_info_of(names, date, timestamp, lambda)),
        Err(e) => Err(e),
    }
}

} // verus!
