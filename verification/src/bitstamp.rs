//! Types for the price/OHLC gateway: the shapes of its responses and the
//! chart timeframes a fetch can be made for.

use vstd::prelude::*;
use crate::parse::{parse_decimal_i64, parse_i64_spec};
use crate::timefmt::{format_epoch_local, rfc3339_of};

verus! {

/// Body of the ticker endpoint: the latest trade price, as text.
pub struct BitstampResponse {
    pub last: String,
}

/// The mathematical content of a raw OHLC record: its five text fields.
#[verifier::ext_equal]
pub ghost struct OhlcModel {
    pub timestamp: Seq<char>,
    pub open: Seq<char>,
    pub high: Seq<char>,
    pub low: Seq<char>,
    pub close: Seq<char>,
}

/// One OHLC record as the gateway sends it: every field is text and must be
/// parsed before use.
pub struct BitstampOHLC {
    pub timestamp: String,
    pub open: String,
    pub high: String,
    pub low: String,
    pub close: String,
}

impl View for BitstampOHLC {
    type V = OhlcModel;

    open spec fn view(&self) -> OhlcModel {
        OhlcModel {
            timestamp: self.timestamp@,
            open: self.open@,
            high: self.high@,
            low: self.low@,
            close: self.close@,
        }
    }
}

/// The `data` object of the OHLC endpoint.
pub struct BitstampOHLCData {
    pub ohlc: Vec<BitstampOHLC>,
}

/// The whole body of the OHLC endpoint.
pub struct BitstampHistoricalData {
    pub data: BitstampOHLCData,
}

/// The granularity and span of the price-history chart.
#[derive(Clone, Copy, Debug, PartialEq, Eq, Structural)]
pub enum ChartTimeframe {
    Hours24,
    Week,
    Month,
    Year,
}

impl ChartTimeframe {
    /// The label shown for this timeframe.
    pub open spec fn spec_description(self) -> Seq<char> {
        match self {
            ChartTimeframe::Hours24 => "24 Hours (hourly)"@,
            ChartTimeframe::Week => "1 Week (4-hour)"@,
            ChartTimeframe::Month => "1 Month (daily)"@,
            ChartTimeframe::Year => "1 Year (daily)"@,
        }
    }

    pub fn description(&self) -> (r: &'static str)
        ensures
            r@ == self.spec_description(),
    {
        match self {
            ChartTimeframe::Hours24 => "24 Hours (hourly)",
            ChartTimeframe::Week => "1 Week (4-hour)",
            ChartTimeframe::Month => "1 Month (daily)",
            ChartTimeframe::Year => "1 Year (daily)",
        }
    }

    /// The candle interval in seconds and the number of candles requested
    /// from the OHLC gateway for this timeframe.
    pub open spec fn spec_api_params(self) -> (u32, u32) {
        match self {
            ChartTimeframe::Hours24 => (3600u32, 24u32),
            ChartTimeframe::Week => (14400u32, 42u32),
            ChartTimeframe::Month => (86400u32, 30u32),
            ChartTimeframe::Year => (86400u32, 365u32),
        }
    }

    pub fn api_params(&self) -> (r: (u32, u32))
        ensures
            r == self.spec_api_params(),
    {
        match self {
            ChartTimeframe::Hours24 => (3600, 24),
            ChartTimeframe::Week => (14400, 42),
            ChartTimeframe::Month => (86400, 30),
            ChartTimeframe::Year => (86400, 365),
        }
    }
}

/// Does the text name an epoch second the calendar library can render: a
/// signed decimal integer whose value is inside the representable range?
pub open spec fn renderable_timestamp(s: Seq<char>) -> bool {
    match parse_i64_spec(s) {
        Some(ts) => rfc3339_of(ts) is Some,
        None => false,
    }
}

/// Render an epoch second given as text as a local date-time string,
/// `YYYY-MM-DD HH:MM`.
///
/// The result is `Invalid timestamp` exactly when the text does not parse
/// as a signed decimal integer or names a second outside the calendar
/// library's range; otherwise it is the local rendering, whose text depends
/// on the machine's time zone and is never the placeholder.
pub fn format_unix_timestamp(timestamp_str: &str) -> (r: String)
    ensures
        r@ == "Invalid timestamp"@ <==> !renderable_timestamp(timestamp_str@),
{
    match parse_decimal_i64(timestamp_str) {
        Some(ts) => match format_epoch_local(ts) {
            Some(s) => s,
            None => "Invalid timestamp".to_owned(),
        },
        None => "Invalid timestamp".to_owned(),
    }
}

} // verus!
