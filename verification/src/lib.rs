//! Deterministic calendar computations of the Huangji Jingshi system.
//!
//! The library reckons two linked calendars.  The first is the nested
//! period hierarchy of Yuan, Hui, Yun, Shi and Xun, which places every
//! historical year on a multi-scale cycle named by hexagrams
//! ([`year_axis`], [`hexagram`], [`sequence`], [`period`], [`timeline`],
//! with its laws in [`period_laws`]).  The second is the sexagenary
//! calendar of stems and branches: the position of the sun ([`sun`]), the
//! solar terms ([`jieqi`]), the search for the instant of a term
//! ([`term_search`]), the time base ([`solar`]) and the four pillars of an
//! instant ([`ganzhi`]), with what is read off
//! a chart ([`chart`], [`luck`]), the almanac entry of a day ([`lunar`]),
//! the rule time of an instant ([`time_rule`]) and the fortune of a year
//! ([`fortune`], [`data`], [`query`]).
//!
//! All quantities are whole numbers.  Angles are microdegrees, times and
//! Julian Days are microseconds, instants are Unix timestamps in seconds.
//! Sines and arc tangents are handed in by the caller as functions on
//! whole numbers; everything that is reckoned with them is reckoned here.

pub mod chart;
pub mod civil;
pub mod data;
pub mod decimal;
pub mod euclid;
pub mod fortune;
pub mod ganzhi;
pub mod hexagram;
pub mod jieqi;
pub mod luck;
pub mod lunar;
pub mod period;
pub mod period_laws;
pub mod query;
pub mod sequence;
pub mod solar;
pub mod sun;
pub mod term_search;
pub mod time_rule;
pub mod timeline;
pub mod year_axis;
