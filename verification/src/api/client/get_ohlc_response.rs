//! The answer to a request for a price chart.

use crate::model::ohlc::{Ohlc, Period};
use crate::model::{OpenHighLowCloseChart, Timestamp};
use rust_decimal::Decimal;
use vstd::prelude::*;

verus! {

/// The payload.
pub struct GetOhlcResponse {
    pub data: Vec<Data>,
}

/// One candle record.
pub struct Data {
    pub attributes: Attributes,
}

/// The fields of a candle record.
pub struct Attributes {
    pub open: Decimal,
    pub close: Decimal,
    pub high: Decimal,
    pub low: Decimal,
    pub time: Time,
}

/// The time of a record.
pub struct Time {
    pub date_iso8601: Timestamp,
}

impl Data {
    /// The record as a candle.
    pub open spec fn candle(self) -> Ohlc {
        Ohlc {
            open: self.attributes.open,
            close: self.attributes.close,
            high: self.attributes.high,
            low: self.attributes.low,
            time: self.attributes.time.date_iso8601,
        }
    }
}

impl GetOhlcResponse {
    /// The candles of the payload, one for one and in the order received.
    pub open spec fn candles(self) -> Seq<Ohlc> {
        Seq::new(self.data@.len(), |i: int| self.data@[i].candle())
    }

    /// Turns the payload into the chart of the period that was asked for.
    pub fn into_ohlc(self, period: Period) -> (r: OpenHighLowCloseChart)
        ensures
            r.period == period,
            r.chart@ == self.candles(),
    {
        let ghost all = self.data@;
        let mut chart = Vec::with_capacity(self.data.len());
        for data in it: self.data.into_iter()
            invariant
                it.seq() == all,
                chart@.len() == it.index(),
                forall|i: int| 0 <= i < chart@.len() ==> chart@[i] == all[i].candle(),
        {
            chart.push(
                Ohlc {
                    open: data.attributes.open,
                    close: data.attributes.close,
                    high: data.attributes.high,
                    low: data.attributes.low,
                    time: data.attributes.time.date_iso8601,
                },
            );
        }
        assert(chart@ =~= self.candles());
        OpenHighLowCloseChart { period, chart }
    }
}

} // verus!
