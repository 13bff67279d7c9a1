//! Candle request parameters.

use crate::num::{dec_chars_i64, i64_to_decimal};
use vstd::prelude::*;

verus! {

/// The candle aggregation window, as the wire names it.
#[derive(Clone, Copy, Debug, PartialEq, Eq, Structural)]
pub enum CandlesTimeFrame {
    OneMinute,
    FiveMinutes,
    FifteenMinutes,
    ThirtyMinutes,
    OneHour,
    ThreeHours,
    SixHours,
    TwelveHours,
    OneDay,
    OneWeek,
    TwoWeeks,
}

impl CandlesTimeFrame {
    /// The wire name of the window.
    pub open spec fn spec_str(self) -> Seq<char> {
        match self {
            CandlesTimeFrame::OneMinute => "1m"@,
            CandlesTimeFrame::FiveMinutes => "5m"@,
            CandlesTimeFrame::FifteenMinutes => "15m"@,
            CandlesTimeFrame::ThirtyMinutes => "30m"@,
            CandlesTimeFrame::OneHour => "1h"@,
            CandlesTimeFrame::ThreeHours => "3h"@,
            CandlesTimeFrame::SixHours => "6h"@,
            CandlesTimeFrame::TwelveHours => "12h"@,
            CandlesTimeFrame::OneDay => "1D"@,
            CandlesTimeFrame::OneWeek => "7D"@,
            CandlesTimeFrame::TwoWeeks => "14D"@,
        }
    }

    pub fn to_string(&self) -> (r: String)
        ensures
            r@ == self.spec_str(),
    {
        match self {
            CandlesTimeFrame::OneMinute => "1m".to_owned(),
            CandlesTimeFrame::FiveMinutes => "5m".to_owned(),
            CandlesTimeFrame::FifteenMinutes => "15m".to_owned(),
            CandlesTimeFrame::ThirtyMinutes => "30m".to_owned(),
            CandlesTimeFrame::OneHour => "1h".to_owned(),
            CandlesTimeFrame::ThreeHours => "3h".to_owned(),
            CandlesTimeFrame::SixHours => "6h".to_owned(),
            CandlesTimeFrame::TwelveHours => "12h".to_owned(),
            CandlesTimeFrame::OneDay => "1D".to_owned(),
            CandlesTimeFrame::OneWeek => "7D".to_owned(),
            CandlesTimeFrame::TwoWeeks => "14D".to_owned(),
        }
    }
}

/// Which section of the candle endpoint is read.
#[derive(Clone, Copy, Debug, PartialEq, Eq, Structural)]
pub enum CandlesSection {
    Last,
    Hist,
}

impl CandlesSection {
    /// The wire name of the section.
    pub open spec fn spec_str(self) -> Seq<char> {
        match self {
            CandlesSection::Last => "last"@,
            CandlesSection::Hist => "hist"@,
        }
    }

    pub fn to_string(&self) -> (r: String)
        ensures
            r@ == self.spec_str(),
    {
        match self {
            CandlesSection::Last => "last".to_owned(),
            CandlesSection::Hist => "hist".to_owned(),
        }
    }
}

/// The query parameters of a candle history request.
#[derive(Clone, Debug)]
pub struct CandleHistoryParams {
    /// number of candles requested (the wire caps it at 10000)
    pub limit: Option<i32>,
    /// filter start, in milliseconds
    pub start: Option<i64>,
    /// filter end, in milliseconds
    pub end: Option<i64>,
    /// whether results are sorted from old to new
    pub sort: Option<bool>,
}

/// What one optional numeric query value prints as: its decimal notation, or
/// nothing at all.
pub open spec fn opt_num_str(o: Option<int>) -> Seq<char> {
    match o {
        Some(n) => dec_chars_i64(n),
        None => Seq::empty(),
    }
}

/// What the sort parameter prints as: `1` to sort old to new, `0` not to,
/// nothing when unset.
pub open spec fn opt_sort_str(o: Option<bool>) -> Seq<char> {
    match o {
        Some(b) => if b {
            "1"@
        } else {
            "0"@
        },
        None => Seq::empty(),
    }
}

impl CandleHistoryParams {
    /// The default request: the newest 120 candles, unsorted.
    pub fn new() -> (r: CandleHistoryParams)
        ensures
            r.limit == Some(120i32),
            r.start is None,
            r.end is None,
            r.sort == Some(false),
    {
        CandleHistoryParams { limit: Some(120), start: None, end: None, sort: Some(false) }
    }

    /// The query string, with unset parameters printed empty.
    pub fn to_query(&self) -> (r: String)
        ensures
            r@ == "limit="@ + opt_num_str(
                match self.limit {
                    Some(v) => Some(v as int),
                    None => None,
                },
            ) + "&start="@ + opt_num_str(
                match self.start {
                    Some(v) => Some(v as int),
                    None => None,
                },
            ) + "&end="@ + opt_num_str(
                match self.end {
                    Some(v) => Some(v as int),
                    None => None,
                },
            ) + "&sort="@ + opt_sort_str(self.sort),
    {
        let mut r = "limit=".to_owned();
        match self.limit {
            Some(v) => r.append(i64_to_decimal(v as i64).as_str()),
            None => (),
        }
        r.append("&start=");
        match self.start {
            Some(v) => r.append(i64_to_decimal(v).as_str()),
            None => (),
        }
        r.append("&end=");
        match self.end {
            Some(v) => r.append(i64_to_decimal(v).as_str()),
            None => (),
        }
        r.append("&sort=");
        match self.sort {
            Some(true) => r.append("1"),
            Some(false) => r.append("0"),
            None => (),
        }
        proof {
            assert(r@ =~= "limit="@ + opt_num_str(
                match self.limit {
                    Some(v) => Some(v as int),
                    None => None,
                },
            ) + "&start="@ + opt_num_str(
                match self.start {
                    Some(v) => Some(v as int),
                    None => None,
                },
            ) + "&end="@ + opt_num_str(
                match self.end {
                    Some(v) => Some(v as int),
                    None => None,
                },
            ) + "&sort="@ + opt_sort_str(self.sort));
        }
        r
    }
}

} // verus!
