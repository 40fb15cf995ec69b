//! Finding the instant at which the sun reaches a solar term.
//!
//! The sun's longitude grows with time, so the instant is found by
//! bisection: a window of Julian Days is halved until the longitude at its
//! middle is within [`CONVERGENCE`] of the term, or until the steps that
//! the search was given are used up.  The longitude itself is not computed
//! here: the caller hands in the function that gives the sun's ecliptic
//! longitude, in microdegrees, at a Julian Day in microseconds.

use vstd::arithmetic::power2::{lemma2_to64, lemma_pow2_pos, lemma_pow2_unfold, pow2};
use vstd::prelude::*;
use crate::civil::{year_start_of, year_start_timestamp};
use crate::euclid::{div_euclid_i128, lemma_floor_div_bounds, rem_euclid_i128};
use crate::ganzhi::{dayun_forward_spec, dayun_runs_forward, dayun_start_age, dayun_start_age_spec};
use crate::jieqi::{
    next_jie_after, next_jie_index, prev_jie_before, prev_jie_index, term_index_of_longitude,
    term_of_index, SolarTerm, DEGREE, FULL_CIRCLE,
};
use crate::solar::{jd_of_timestamp, DAY};

verus! {

/// A search ends when the sun is nearer to the term than this: a
/// ten-thousandth of a degree, in microdegrees.
pub const CONVERGENCE: i64 = 100;

/// The steps given to the search for a neighbouring jie.
pub const JIE_SEARCH_STEPS: u32 = 30;

/// The steps given to the search for a term of a year.
pub const TERM_SEARCH_STEPS: u32 = 50;

/// Half the width of the window in which a neighbouring jie is sought:
/// five days.
pub const JIE_HALF_WINDOW: i64 = 432_000_000_000;

/// Half the width of the window in which a term of a year is sought:
/// twenty days.
pub const TERM_HALF_WINDOW: i64 = 1_728_000_000_000;

/// The mean motion of the sun in a day, in microdegrees.
pub const MEAN_DAILY_MOTION: i64 = 985_600;

/// The mean time from one solar term to the next: 15.22 days.
pub const TERM_SPACING: i64 = 1_315_008_000_000;

/// The time by which a search must keep clear of the ends of the range
/// of Julian Days: four hundred days.
pub const SEARCH_MARGIN: i64 = 34_560_000_000_000;

/// How far the longitude `longitude` lies past `target`, measured the
/// short way round the circle: more than −180° and at most 180°.
pub open spec fn angular_residual_spec(longitude: int, target: int) -> int {
    let diff = (longitude - target) % (FULL_CIRCLE as int);
    if diff > 180 * DEGREE {
        diff - FULL_CIRCLE
    } else {
        diff
    }
}

/// How far `longitude` lies past `target`, the short way round the
/// circle; both in microdegrees.
pub fn angular_residual(longitude: i64, target: i64) -> (residual: i64)
    ensures
        residual == angular_residual_spec(longitude as int, target as int),
        -180 * DEGREE < residual <= 180 * DEGREE,
        (longitude - target - residual) % (FULL_CIRCLE as int) == 0,
{
    let diff: i128 = rem_euclid_i128((longitude as i128) - (target as i128), 360_000_000);
    proof {
        let d = longitude - target;
        lemma_floor_div_bounds(d, FULL_CIRCLE as int);
        crate::euclid::lemma_floor_div_unique(d - diff, FULL_CIRCLE as int, d / (FULL_CIRCLE as int), 0);
        crate::euclid::lemma_floor_div_unique(
            d - (diff - FULL_CIRCLE),
            FULL_CIRCLE as int,
            d / (FULL_CIRCLE as int) + 1,
            0,
        );
    }
    if diff > 180_000_000 {
        (diff - 360_000_000) as i64
    } else {
        diff as i64
    }
}

/// A bisection under way: the term sought and the window that is left.
#[derive(Debug, Clone, Copy)]
pub struct TermSearch {
    /// The longitude sought, in microdegrees.
    pub target: i64,
    /// Start of the window, a Julian Day in microseconds.
    pub low: i64,
    /// End of the window.
    pub high: i64,
    /// Steps that the search may still take.
    pub steps_left: u32,
}

/// What a search does after it has seen the longitude at the middle of
/// its window.
#[derive(Debug, Clone, Copy)]
pub enum SearchOutcome {
    /// The search goes on in half the window.
    Continue(TermSearch),
    /// The sun stands at the term at this Julian Day.
    Found(i64),
}

impl TermSearch {
    /// The middle of the window.
    pub open spec fn midpoint_spec(self) -> int {
        (self.low + self.high) / 2
    }

    /// The search after it has seen `longitude` at the middle of its
    /// window: it ends there if the sun is within [`CONVERGENCE`] of the
    /// term, goes on before the middle if the sun is already past the term,
    /// and after the middle if not.
    pub open spec fn observe_spec(self, longitude: int) -> SearchOutcome {
        let mid = self.midpoint_spec() as i64;
        let diff = angular_residual_spec(longitude, self.target as int);
        if -CONVERGENCE < diff < CONVERGENCE {
            SearchOutcome::Found(mid)
        } else if diff > 0 {
            SearchOutcome::Continue(
                TermSearch {
                    target: self.target,
                    low: self.low,
                    high: mid,
                    steps_left: (self.steps_left - 1) as u32,
                },
            )
        } else {
            SearchOutcome::Continue(
                TermSearch {
                    target: self.target,
                    low: mid,
                    high: self.high,
                    steps_left: (self.steps_left - 1) as u32,
                },
            )
        }
    }

    /// The middle of the window: the Julian Day at which the search wants
    /// to see the longitude next.
    pub fn midpoint(&self) -> (mid: i64)
        ensures
            mid == self.midpoint_spec(),
            self.low <= self.high ==> self.low <= mid <= self.high,
    {
        div_euclid_i128((self.low as i128) + (self.high as i128), 2) as i64
    }

    /// Takes one step: `longitude` is the sun's longitude at the middle of
    /// the window.
    pub fn observe(&self, longitude: i64) -> (outcome: SearchOutcome)
        requires
            self.steps_left > 0,
        ensures
            outcome == self.observe_spec(longitude as int),
            outcome matches SearchOutcome::Continue(next) ==> {
                &&& next.steps_left + 1 == self.steps_left
                &&& next.target == self.target
                &&& self.low <= self.high ==> self.low <= next.low <= next.high <= self.high
                &&& self.low <= self.high ==> 2 * (next.high - next.low) <= self.high - self.low + 1
            },
            outcome matches SearchOutcome::Found(jd) ==> jd == self.midpoint_spec(),
    {
        let mid: i64 = self.midpoint();
        let diff: i64 = angular_residual(longitude, self.target);
        if -CONVERGENCE < diff && diff < CONVERGENCE {
            SearchOutcome::Found(mid)
        } else if diff > 0 {
            SearchOutcome::Continue(
                TermSearch {
                    target: self.target,
                    low: self.low,
                    high: mid,
                    steps_left: self.steps_left - 1,
                },
            )
        } else {
            SearchOutcome::Continue(
                TermSearch {
                    target: self.target,
                    low: mid,
                    high: self.high,
                    steps_left: self.steps_left - 1,
                },
            )
        }
    }
}

/// The function can be called at every Julian Day.
pub open spec fn total<F: Fn(i64) -> i64>(f: F) -> bool {
    forall|jd: i64| call_requires(f, (jd,))
}

/// The function gives one value at each Julian Day.
pub open spec fn deterministic<F: Fn(i64) -> i64>(f: F) -> bool {
    forall|jd: i64, a: i64, b: i64|
        call_ensures(f, (jd,), a) && call_ensures(f, (jd,), b) ==> a == b
}

/// The value of the function at a Julian Day.
pub open spec fn value_at<F: Fn(i64) -> i64>(f: F, jd: i64) -> i64 {
    choose|longitude: i64| call_ensures(f, (jd,), longitude)
}

/// The Julian Day at which a search ends when the sun's longitude is
/// given by `f`: it takes steps until one of them finds the term, and
/// settles for the middle of the window when no step is left.
pub open spec fn search_result_spec<F: Fn(i64) -> i64>(f: F, search: TermSearch) -> i64
    decreases search.steps_left,
{
    let mid = search.midpoint_spec() as i64;
    if search.steps_left == 0 {
        mid
    } else {
        match search.observe_spec(value_at(f, mid) as int) {
            SearchOutcome::Found(jd) => jd,
            SearchOutcome::Continue(next) => search_result_spec(f, next),
        }
    }
}

/// Runs a search to its end.
pub fn run_search<F: Fn(i64) -> i64>(search: TermSearch, solar_longitude: &F) -> (jd: i64)
    requires
        total(*solar_longitude),
    ensures
        deterministic(*solar_longitude) ==> jd == search_result_spec(*solar_longitude, search),
        search.low <= search.high ==> search.low <= jd <= search.high,
{
    let mut current: TermSearch = search;
    while current.steps_left > 0
        invariant
            total(*solar_longitude),
            deterministic(*solar_longitude) ==> search_result_spec(*solar_longitude, current)
                == search_result_spec(*solar_longitude, search),
            search.low <= search.high ==> search.low <= current.low <= current.high
                <= search.high,
        decreases current.steps_left,
    {
        let jd_mid: i64 = current.midpoint();
        let lon: i64 = solar_longitude(jd_mid);
        match current.observe(lon) {
            SearchOutcome::Found(jd) => {
                return jd;
            },
            SearchOutcome::Continue(next) => {
                current = next;
            },
        }
    }
    current.midpoint()
}

/// The window of a search brackets the term for the sun's longitude
/// given by `f`: at its start the sun has not passed the term, at its end
/// it has reached it.
pub open spec fn brackets<F: Fn(i64) -> i64>(f: F, search: TermSearch) -> bool {
    &&& search.low <= search.high
    &&& angular_residual_spec(value_at(f, search.low) as int, search.target as int) <= 0
    &&& angular_residual_spec(value_at(f, search.high) as int, search.target as int) >= 0
}

/// The search as it stands when it ends: with steps left where a step has
/// found the term, and without where the steps have run out.
pub open spec fn final_search<F: Fn(i64) -> i64>(f: F, search: TermSearch) -> TermSearch
    decreases search.steps_left,
{
    if search.steps_left == 0 {
        search
    } else {
        match search.observe_spec(value_at(f, search.midpoint_spec() as i64) as int) {
            SearchOutcome::Found(_) => search,
            SearchOutcome::Continue(next) => final_search(f, next),
        }
    }
}

/// A search that starts with a window that brackets the term ends at the
/// middle of a window that still brackets it and lies within the first.
/// Either the sun is within [`CONVERGENCE`] of the term there, or every
/// step has halved the window: a window of ten days is less than a
/// millisecond wide after thirty steps.
pub proof fn lemma_search_brackets<F: Fn(i64) -> i64>(f: F, search: TermSearch)
    requires
        brackets(f, search),
    ensures
        brackets(f, final_search(f, search)),
        final_search(f, search).target == search.target,
        search_result_spec(f, search) == final_search(f, search).midpoint_spec(),
        search.low <= final_search(f, search).low <= search_result_spec(f, search)
            <= final_search(f, search).high <= search.high,
        final_search(f, search).steps_left > 0 ==> -CONVERGENCE < angular_residual_spec(
            value_at(f, search_result_spec(f, search)) as int,
            search.target as int,
        ) < CONVERGENCE,
        final_search(f, search).steps_left == 0 ==> (final_search(f, search).high - final_search(
            f,
            search,
        ).low - 1) * pow2(search.steps_left as nat) <= search.high - search.low - 1,
    decreases search.steps_left,
{
    let mid = search.midpoint_spec();
    lemma_floor_div_bounds(search.low + search.high, 2);
    if search.steps_left == 0 {
        lemma2_to64();
    } else {
        lemma_pow2_unfold(search.steps_left as nat);
        match search.observe_spec(value_at(f, mid as i64) as int) {
            SearchOutcome::Found(_) => {},
            SearchOutcome::Continue(next) => {
                lemma_search_brackets(f, next);
                let last = final_search(f, next);
                let half = pow2(next.steps_left as nat) as int;
                lemma_pow2_pos(next.steps_left as nat);
                if last.steps_left == 0 {
                    assert((last.high - last.low - 1) * (2 * half) <= search.high - search.low - 1)
                        by (nonlinear_arith)
                        requires
                            (last.high - last.low - 1) * half <= next.high - next.low - 1,
                            2 * (next.high - next.low - 1) <= search.high - search.low - 1,
                            half > 0,
                    ;
                }
            },
        }
    }
}

/// The Julian Day `jd` is far enough from the ends of the range for a
/// search to start from it.
pub open spec fn jd_searchable(jd: int) -> bool {
    i64::MIN + SEARCH_MARGIN <= jd <= i64::MAX - SEARCH_MARGIN
}

/// The time that the sun takes at its mean motion to move on by
/// `advance` microdegrees, in microseconds.
pub open spec fn mean_travel_time(advance: int) -> int {
    (advance * DAY) / (MEAN_DAILY_MOTION as int)
}

/// The search for the first jie after the Julian Day `jd`, at which the
/// sun stands at `current_longitude`: the jie is the first one after the
/// solar term of that longitude, and the window is ten days wide around
/// the instant at which the sun would reach it at its mean motion.
pub open spec fn next_jie_search_spec(jd: int, current_longitude: int) -> (TermSearch, SolarTerm) {
    let term = term_of_index(next_jie_index(term_index_of_longitude(current_longitude)));
    let advance = (term.longitude_spec() - current_longitude) % (FULL_CIRCLE as int);
    let approx_jd = jd + mean_travel_time(advance);
    (
        TermSearch {
            target: term.longitude_spec() as i64,
            low: (approx_jd - JIE_HALF_WINDOW) as i64,
            high: (approx_jd + JIE_HALF_WINDOW) as i64,
            steps_left: JIE_SEARCH_STEPS,
        },
        term,
    )
}

/// The search for the last jie before the Julian Day `jd`, at which the
/// sun stands at `current_longitude`.
pub open spec fn prev_jie_search_spec(jd: int, current_longitude: int) -> (TermSearch, SolarTerm) {
    let term = term_of_index(prev_jie_index(term_index_of_longitude(current_longitude)));
    let advance = (current_longitude - term.longitude_spec()) % (FULL_CIRCLE as int);
    let approx_jd = jd - mean_travel_time(advance);
    (
        TermSearch {
            target: term.longitude_spec() as i64,
            low: (approx_jd - JIE_HALF_WINDOW) as i64,
            high: (approx_jd + JIE_HALF_WINDOW) as i64,
            steps_left: JIE_SEARCH_STEPS,
        },
        term,
    )
}

/// The search for the solar term `term` in the year that starts at the
/// Julian Day `year_start_jd`: the window is forty days wide around the
/// mean date of the term, reckoned from Lichun early in the year.
pub open spec fn solar_term_search_spec(year_start_jd: int, term: SolarTerm) -> TermSearch {
    let terms_from_lichun = if term.index_spec() >= 21 {
        term.index_spec() - 21
    } else {
        term.index_spec() + 3
    };
    let approx_jd = year_start_jd + terms_from_lichun * TERM_SPACING;
    TermSearch {
        target: term.longitude_spec() as i64,
        low: (approx_jd - TERM_HALF_WINDOW) as i64,
        high: (approx_jd + TERM_HALF_WINDOW) as i64,
        steps_left: TERM_SEARCH_STEPS,
    }
}

/// The time the sun takes at its mean motion for `advance` microdegrees.
fn travel_time(advance: i128) -> (time: i64)
    requires
        0 <= advance < FULL_CIRCLE,
    ensures
        time == mean_travel_time(advance as int),
        0 <= time < SEARCH_MARGIN - JIE_HALF_WINDOW,
{
    proof {
        lemma_floor_div_bounds(advance * DAY, MEAN_DAILY_MOTION as int);
    }
    div_euclid_i128(advance * 86_400_000_000, 985_600) as i64
}

/// Sets up the search for the first jie after `jd`.
pub fn next_jie_search(jd: i64, current_longitude: i64) -> (r: (TermSearch, SolarTerm))
    requires
        jd_searchable(jd as int),
    ensures
        r == next_jie_search_spec(jd as int, current_longitude as int),
        r.1.is_jie_spec(),
        r.0.low <= r.0.high,
        jd - JIE_HALF_WINDOW <= r.0.low,
        r.0.high <= jd + SEARCH_MARGIN,
{
    let current_term = SolarTerm::from_longitude(current_longitude);
    let term = next_jie_after(current_term);
    let target_lon: i64 = term.longitude();
    let lon_diff: i128 = rem_euclid_i128((target_lon as i128) - (current_longitude as i128), 360_000_000);
    let approx_jd: i64 = jd + travel_time(lon_diff);
    proof {
        crate::jieqi::lemma_term_index(term, term.index_spec());
    }
    (
        TermSearch {
            target: target_lon,
            low: approx_jd - JIE_HALF_WINDOW,
            high: approx_jd + JIE_HALF_WINDOW,
            steps_left: JIE_SEARCH_STEPS,
        },
        term,
    )
}

/// Sets up the search for the last jie before `jd`.
pub fn prev_jie_search(jd: i64, current_longitude: i64) -> (r: (TermSearch, SolarTerm))
    requires
        jd_searchable(jd as int),
    ensures
        r == prev_jie_search_spec(jd as int, current_longitude as int),
        r.1.is_jie_spec(),
        r.0.low <= r.0.high,
        r.0.high <= jd + JIE_HALF_WINDOW,
        jd - SEARCH_MARGIN <= r.0.low,
{
    let current_term = SolarTerm::from_longitude(current_longitude);
    let term = prev_jie_before(current_term);
    let target_lon: i64 = term.longitude();
    let lon_diff: i128 = rem_euclid_i128((current_longitude as i128) - (target_lon as i128), 360_000_000);
    let approx_jd: i64 = jd - travel_time(lon_diff);
    proof {
        crate::jieqi::lemma_term_index(term, term.index_spec());
    }
    (
        TermSearch {
            target: target_lon,
            low: approx_jd - JIE_HALF_WINDOW,
            high: approx_jd + JIE_HALF_WINDOW,
            steps_left: JIE_SEARCH_STEPS,
        },
        term,
    )
}

/// Sets up the search for `term` in the year that starts at
/// `year_start_jd`.
pub fn solar_term_search(year_start_jd: i64, term: SolarTerm) -> (search: TermSearch)
    requires
        jd_searchable(year_start_jd as int),
    ensures
        search == solar_term_search_spec(year_start_jd as int, term),
        search.low <= search.high,
{
    let target_lon: i64 = term.longitude();
    let term_idx: u8 = term.index();
    let terms_from_lichun: i64 = if term_idx >= 21 {
        (term_idx - 21) as i64
    } else {
        term_idx as i64 + 3
    };
    let approx_jd: i64 = year_start_jd + terms_from_lichun * TERM_SPACING;
    TermSearch {
        target: target_lon,
        low: approx_jd - TERM_HALF_WINDOW,
        high: approx_jd + TERM_HALF_WINDOW,
        steps_left: TERM_SEARCH_STEPS,
    }
}

/// The first jie after `jd` and the Julian Day at which the sun reaches
/// it, for the sun's longitude given by `f`.
pub open spec fn find_next_jie_spec<F: Fn(i64) -> i64>(f: F, jd: i64) -> (i64, SolarTerm) {
    let start = next_jie_search_spec(jd as int, value_at(f, jd) as int);
    (search_result_spec(f, start.0), start.1)
}

/// The last jie before `jd` and the Julian Day at which the sun reached
/// it, for the sun's longitude given by `f`.
pub open spec fn find_prev_jie_spec<F: Fn(i64) -> i64>(f: F, jd: i64) -> (i64, SolarTerm) {
    let start = prev_jie_search_spec(jd as int, value_at(f, jd) as int);
    (search_result_spec(f, start.0), start.1)
}

/// Finds the first jie after the Julian Day `jd` and the Julian Day at
/// which the sun reaches it.
pub fn find_next_jie<F: Fn(i64) -> i64>(jd: i64, solar_longitude: &F) -> (r: (i64, SolarTerm))
    requires
        jd_searchable(jd as int),
        total(*solar_longitude),
    ensures
        deterministic(*solar_longitude) ==> r == find_next_jie_spec(*solar_longitude, jd),
        r.1.is_jie_spec(),
        jd - JIE_HALF_WINDOW <= r.0 <= jd + SEARCH_MARGIN,
{
    let current_lon: i64 = solar_longitude(jd);
    let (search, term) = next_jie_search(jd, current_lon);
    (run_search(search, solar_longitude), term)
}

/// Finds the last jie before the Julian Day `jd` and the Julian Day at
/// which the sun reached it.
pub fn find_prev_jie<F: Fn(i64) -> i64>(jd: i64, solar_longitude: &F) -> (r: (i64, SolarTerm))
    requires
        jd_searchable(jd as int),
        total(*solar_longitude),
    ensures
        deterministic(*solar_longitude) ==> r == find_prev_jie_spec(*solar_longitude, jd),
        r.1.is_jie_spec(),
        jd - SEARCH_MARGIN <= r.0 <= jd + JIE_HALF_WINDOW,
{
    let current_lon: i64 = solar_longitude(jd);
    let (search, term) = prev_jie_search(jd, current_lon);
    (run_search(search, solar_longitude), term)
}

/// The Julian Day at which the civil year `year` starts in UTC, where the
/// calendar holds that year and a search can start from its first day.
pub open spec fn year_start_jd_spec(year: int) -> Option<int> {
    match year_start_of(year) {
        Some(timestamp) => if jd_searchable(jd_of_timestamp(timestamp)) {
            Some(jd_of_timestamp(timestamp))
        } else {
            None
        },
        None => None,
    }
}

/// The Julian Day at which the civil year `year` starts in UTC.
pub fn year_start_jd(year: i32) -> (jd: Option<i64>)
    ensures
        jd matches Some(day) ==> year_start_jd_spec(year as int) == Some(day as int),
        jd is None ==> year_start_jd_spec(year as int) is None,
{
    match year_start_timestamp(year) {
        Some(timestamp) => {
            let jd: i128 = (timestamp as i128) * 1_000_000 + 210_866_760_000_000_000;
            if (i64::MIN as i128) + 34_560_000_000_000 <= jd && jd <= (i64::MAX as i128)
                - 34_560_000_000_000 {
                Some(jd as i64)
            } else {
                None
            }
        },
        None => None,
    }
}

/// Finds the Julian Day at which the sun reaches `term` in the civil
/// year `year`.
///
/// There is no result for a year that the calendar does not hold.
pub fn find_solar_term_jd<F: Fn(i64) -> i64>(year: i32, term: SolarTerm, solar_longitude: &F) -> (jd:
    Option<i64>)
    requires
        total(*solar_longitude),
    ensures
        jd is Some <==> year_start_jd_spec(year as int) is Some,
        deterministic(*solar_longitude) ==> (jd matches Some(day) ==> year_start_jd_spec(
            year as int,
        ) matches Some(start) && day == search_result_spec(
            *solar_longitude,
            solar_term_search_spec(start, term),
        )),
{
    match year_start_jd(year) {
        Some(start) => Some(run_search(solar_term_search(start, term), solar_longitude)),
        None => None,
    }
}

/// The instant of a solar term.
#[derive(Debug, Clone, Copy)]
pub struct SolarTermPoint {
    pub term: SolarTerm,
    /// The Julian Day at which the sun reaches the term, in microseconds.
    pub jd: i64,
    /// The longitude of the term, in microdegrees.
    pub longitude: i64,
}

/// The first pair comes before the second or is the second: pairs are
/// ordered by their Julian Day, and by the number of the term where the
/// Julian Days are the same.
pub open spec fn instants_ordered(a: (i64, u8), b: (i64, u8)) -> bool {
    a.0 < b.0 || (a.0 == b.0 && a.1 <= b.1)
}

/// `sort` on the slice of a vector, of the standard library: what the
/// vector holds is put into ascending order.  Pairs are ordered by their
/// first part, and by their second part where the first parts are equal.
/// The vector holds the same pairs as before, each as often as before.
#[verifier::external_body]
fn sort_instants(instants: &mut Vec<(i64, u8)>)
    ensures
        final(instants)@.to_multiset() == old(instants)@.to_multiset(),
        forall|i: int, j: int|
            0 <= i < j < final(instants)@.len() ==> instants_ordered(
                #[trigger] final(instants)@[i],
                #[trigger] final(instants)@[j],
            ),
{
    instants.sort();
}

/// The list holds the instant of the term with number `index`.
pub open spec fn holds_term(points: Seq<SolarTermPoint>, index: int) -> bool {
    exists|i: int| 0 <= i < points.len() && (#[trigger] points[i]).term == term_of_index(index)
}

/// The Julian Day at which a search for term `index` of the year that
/// starts at `start` ends, for the sun's longitude given by `f`.
pub open spec fn term_instant_spec<F: Fn(i64) -> i64>(f: F, start: int, index: int) -> i64 {
    search_result_spec(f, solar_term_search_spec(start, term_of_index(index)))
}

/// Finds the instants of the twenty-four solar terms of the civil year
/// `year`, in the order of their Julian Days.
///
/// There is no result for a year that the calendar does not hold.  Each
/// term is sought in the window around its mean date; where two terms are
/// found at the same Julian Day, the one with the lower number comes
/// first.
pub fn find_solar_terms_for_year<F: Fn(i64) -> i64>(year: i32, solar_longitude: &F) -> (terms: Option<
    Vec<SolarTermPoint>,
>)
    requires
        total(*solar_longitude),
    ensures
        terms is Some <==> year_start_jd_spec(year as int) is Some,
        terms matches Some(points) ==> {
            &&& points@.len() == 24
            &&& forall|i: int, j: int|
                0 <= i < j < 24 ==> instants_ordered(
                    (#[trigger] points@[i].jd, points@[i].term.index_spec() as u8),
                    (#[trigger] points@[j].jd, points@[j].term.index_spec() as u8),
                )
            &&& forall|i: int|
                0 <= i < 24 ==> (#[trigger] points@[i]).longitude == points@[i].term.longitude_spec()
            &&& forall|k: int| 0 <= k < 24 ==> #[trigger] holds_term(points@, k)
            &&& deterministic(*solar_longitude) ==> forall|i: int|
                0 <= i < 24 ==> (#[trigger] points@[i]).jd == term_instant_spec(
                    *solar_longitude,
                    year_start_jd_spec(year as int)->Some_0,
                    points@[i].term.index_spec(),
                )
        },
{
    let start: i64 = match year_start_jd(year) {
        Some(start) => start,
        None => {
            return None;
        },
    };
    let mut instants: Vec<(i64, u8)> = Vec::with_capacity(24);
    let mut i: u8 = 0;
    while i < 24
        invariant
            i <= 24,
            total(*solar_longitude),
            jd_searchable(start as int),
            instants@.len() == i,
            forall|k: int| 0 <= k < i ==> (#[trigger] instants@[k]).1 == k,
            deterministic(*solar_longitude) ==> forall|k: int|
                0 <= k < i ==> (#[trigger] instants@[k]).0 == term_instant_spec(
                    *solar_longitude,
                    start as int,
                    k,
                ),
        decreases 24 - i,
    {
        match SolarTerm::from_index(i) {
            Some(term) => {
                let jd: i64 = run_search(solar_term_search(start, term), solar_longitude);
                instants.push((jd, i));
            },
            None => {
                instants.push((start, i));
            },
        }
        i = i + 1;
    }
    let ghost found = instants@;
    sort_instants(&mut instants);
    proof {
        found.to_multiset_ensures();
        instants@.to_multiset_ensures();
        assert forall|p: int| 0 <= p < 24 implies exists|k: int|
            0 <= k < 24 && found[k] == #[trigger] instants@[p] by {
            let item = instants@[p];
            assert(instants@.contains(item));
            assert(instants@.to_multiset().count(item) > 0);
            assert(found.contains(item));
        }
        assert forall|k: int| 0 <= k < 24 implies exists|p: int|
            0 <= p < 24 && instants@[p] == #[trigger] found[k] by {
            let item = found[k];
            assert(found.contains(item));
            assert(found.to_multiset().count(item) > 0);
            assert(instants@.contains(item));
        }
    }
    let mut points: Vec<SolarTermPoint> = Vec::with_capacity(24);
    let mut p: usize = 0;
    while p < 24
        invariant
            p <= 24,
            instants@.len() == 24,
            forall|q: int| 0 <= q < 24 ==> (#[trigger] instants@[q]).1 < 24,
            points@.len() == p,
            forall|q: int|
                0 <= q < p ==> {
                    &&& (#[trigger] points@[q]).jd == instants@[q].0
                    &&& points@[q].term == term_of_index(instants@[q].1 as int)
                    &&& points@[q].term.index_spec() == instants@[q].1
                    &&& points@[q].longitude == points@[q].term.longitude_spec()
                },
        decreases 24 - p,
    {
        let (jd, index) = instants[p];
        let term: SolarTerm = match SolarTerm::from_index(index) {
            Some(term) => term,
            None => SolarTerm::Chunfen,
        };
        points.push(SolarTermPoint { term, jd, longitude: term.longitude() });
        p = p + 1;
    }
    proof {
        assert forall|k: int| 0 <= k < 24 implies #[trigger] holds_term(points@, k) by {
            let q = choose|q: int| 0 <= q < 24 && instants@[q] == found[k];
            assert(points@[q].term == term_of_index(k));
        }
        if deterministic(*solar_longitude) {
            assert forall|i: int| 0 <= i < 24 implies (#[trigger] points@[i]).jd
                == term_instant_spec(
                *solar_longitude,
                start as int,
                points@[i].term.index_spec(),
            ) by {
                let k = choose|k: int| 0 <= k < 24 && found[k] == instants@[i];
                assert(found[k].1 == k);
            }
        }
    }
    Some(points)
}

/// The age at which the first luck cycle of a chart starts, in
/// millionths of a year, for the sun's longitude given by `f`: a year for
/// every three days from the birth at `jd` to the next jie where the
/// cycles run forward, and back to the last jie where they run backward.
pub open spec fn calc_dayun_start_age_spec<F: Fn(i64) -> i64>(
    f: F,
    jd: i64,
    year_gan_idx: int,
    is_male: bool,
) -> int {
    if dayun_forward_spec(year_gan_idx, is_male) {
        dayun_start_age_spec(find_next_jie_spec(f, jd).0 - jd)
    } else {
        dayun_start_age_spec(jd - find_prev_jie_spec(f, jd).0)
    }
}

/// The age at which the first luck cycle starts, in millionths of a
/// year, for a birth at the Julian Day `jd` in a year of stem
/// `year_gan_idx`.
pub fn calc_dayun_start_age<F: Fn(i64) -> i64>(
    jd: i64,
    year_gan_idx: usize,
    is_male: bool,
    solar_longitude: &F,
) -> (age: i64)
    requires
        jd_searchable(jd as int),
        total(*solar_longitude),
    ensures
        deterministic(*solar_longitude) ==> age == calc_dayun_start_age_spec(
            *solar_longitude,
            jd,
            year_gan_idx as int,
            is_male,
        ),
        age >= 1_000_000,
{
    let forward: bool = dayun_runs_forward(year_gan_idx, is_male);
    let days: i128 = if forward {
        let (next_jie_jd, _) = find_next_jie(jd, solar_longitude);
        (next_jie_jd as i128) - (jd as i128)
    } else {
        let (prev_jie_jd, _) = find_prev_jie(jd, solar_longitude);
        (jd as i128) - (prev_jie_jd as i128)
    };
    dayun_start_age(days as i64)
}

} // verus!
