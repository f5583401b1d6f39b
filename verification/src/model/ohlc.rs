//! Open-high-low-close price charts.

use crate::model::Timestamp;
use rust_decimal::Decimal;
use vstd::prelude::*;
use vstd::string::*;

verus! {

/// A price chart: its period and its candles, oldest first.
#[derive(Debug, Clone, Eq, PartialEq, Hash)]
pub struct OpenHighLowCloseChart {
    pub chart: Vec<Ohlc>,
    pub period: Period,
}

/// One candle of a chart.
#[derive(Debug, Clone, Copy, Eq, PartialEq, Hash)]
pub struct Ohlc {
    pub close: Decimal,
    pub high: Decimal,
    pub low: Decimal,
    pub open: Decimal,
    pub time: Timestamp,
}

/// The span of time a chart covers.
#[derive(Debug, Copy, Clone, Eq, PartialEq, Hash)]
pub enum Period {
    Day,
    Week,
    Month,
    Year,
    FiveYears,
}

impl Period {
    /// The token that names the period in a chart's path.
    pub open spec fn token(self) -> Seq<char> {
        match self {
            Period::Day => "day"@,
            Period::Week => "week"@,
            Period::Month => "month"@,
            Period::Year => "year"@,
            Period::FiveYears => "five-years"@,
        }
    }

    /// Writes the period as its path token.
    pub fn to_string(&self) -> (r: String)
        ensures
            r@ == self.token(),
    {
        match self {
            Period::Day => "day",
            Period::Month => "month",
            Period::Week => "week",
            Period::Year => "year",
            Period::FiveYears => "five-years",
        }.to_owned()
    }
}

} // verus!
