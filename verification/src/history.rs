//! Parsed price history: candles, their timestamps, and the conversion of a
//! raw OHLC response into them.
//!
//! Every upstream field arrives as text; a record whose fields do not all
//! parse is dropped whole, never stored half-filled. Prices are fixed-point
//! integers in hundredths of the quote currency.

use vstd::prelude::*;
use crate::bitstamp::{BitstampHistoricalData, BitstampOHLC, format_unix_timestamp};
use crate::parse::{parse_decimal_i64, parse_price, parse_i64_spec, parse_price_spec};
use crate::timefmt::{epoch_to_rfc3339, rfc3339_of};

verus! {

/// One candle: open, high, low and close price, in hundredths.
#[derive(Clone, Copy, Debug, PartialEq, Eq, Structural)]
pub struct CandleData {
    pub open: u64,
    pub high: u64,
    pub low: u64,
    pub close: u64,
}

/// The mathematical content of a `TimeInfo`.
#[verifier::ext_equal]
pub ghost struct TimeModel {
    pub ts: i64,
    pub formatted: Seq<char>,
    pub rfc: Seq<char>,
}

/// A timestamp as the display layer needs it: the raw epoch second and two
/// renderings derived from it once, at ingestion.
#[derive(Debug)]
pub struct TimeInfo {
    /// Seconds since the epoch.
    pub raw_timestamp: i64,
    /// Local date-time text, for display.
    pub formatted_time: String,
    /// RFC 3339 text at UTC.
    pub rfc3339: String,
}

impl View for TimeInfo {
    type V = TimeModel;

    open spec fn view(&self) -> TimeModel {
        TimeModel { ts: self.raw_timestamp, formatted: self.formatted_time@, rfc: self.rfc3339@ }
    }
}

impl Clone for TimeInfo {
    fn clone(&self) -> (r: Self)
        ensures
            r == *self,
    {
        TimeInfo {
            raw_timestamp: self.raw_timestamp,
            formatted_time: self.formatted_time.clone(),
            rfc3339: self.rfc3339.clone(),
        }
    }
}

impl TimeInfo {
    /// The text shown for this timestamp.
    pub fn display_string(&self) -> (r: String)
        ensures
            r@ == self@.formatted,
    {
        self.formatted_time.clone()
    }
}

/// The mathematical content of a `HistoryEntry`.
#[verifier::ext_equal]
pub ghost struct EntryModel {
    pub time: TimeModel,
    pub candle: CandleData,
}

/// One displayed point of price history: a candle and its timestamp.
#[derive(Debug)]
pub struct HistoryEntry {
    pub time: TimeInfo,
    pub candle: CandleData,
}

impl View for HistoryEntry {
    type V = EntryModel;

    open spec fn view(&self) -> EntryModel {
        EntryModel { time: self.time@, candle: self.candle }
    }
}

impl Clone for HistoryEntry {
    fn clone(&self) -> (r: Self)
        ensures
            r == *self,
    {
        HistoryEntry { time: self.time.clone(), candle: self.candle }
    }
}

/// The views of a sequence of history entries.
pub open spec fn entry_views(es: Seq<HistoryEntry>) -> Seq<EntryModel> {
    es.map_values(|e: HistoryEntry| e@)
}

/// What one raw OHLC record parses to: its epoch second and candle, or
/// `None` when any field fails to parse or the timestamp cannot be
/// represented by the calendar library.
pub open spec fn parse_record(r: crate::bitstamp::OhlcModel) -> Option<(i64, CandleData)> {
    match (
        parse_i64_spec(r.timestamp),
        parse_price_spec(r.open),
        parse_price_spec(r.high),
        parse_price_spec(r.low),
        parse_price_spec(r.close),
    ) {
        (Some(ts), Some(o), Some(h), Some(l), Some(c)) => if rfc3339_of(ts) is Some {
            Some((ts, CandleData { open: o, high: h, low: l, close: c }))
        } else {
            None
        },
        _ => None,
    }
}

/// What a whole OHLC response parses to: the records that parse, in their
/// upstream order; the others dropped.
pub open spec fn parse_records(rs: Seq<crate::bitstamp::OhlcModel>) -> Seq<(i64, CandleData)>
    decreases rs.len(),
{
    if rs.len() == 0 {
        Seq::empty()
    } else {
        let rest = parse_records(rs.drop_last());
        match parse_record(rs.last()) {
            Some(p) => rest.push(p),
            None => rest,
        }
    }
}

/// Do the parsed entries carry exactly the timestamps and candles of `ps`,
/// in order, each with its RFC 3339 rendering?
///
/// The local date-time text of each entry depends on the machine's time
/// zone and is not constrained.
pub open spec fn entries_match(es: Seq<EntryModel>, ps: Seq<(i64, CandleData)>) -> bool {
    &&& es.len() == ps.len()
    &&& forall|i: int|
        0 <= i < es.len() ==> {
            &&& (#[trigger] es[i]).time.ts == ps[i].0
            &&& es[i].candle == ps[i].1
            &&& rfc3339_of(ps[i].0) == Some(es[i].time.rfc)
        }
}

/// Parse a raw OHLC response into history entries: the records that parse,
/// in upstream order; a record with any unusable field is dropped whole.
pub fn parse_historical_data(data: &BitstampHistoricalData) -> (r: Vec<HistoryEntry>)
    ensures
        entries_match(
            entry_views(r@),
            parse_records(data.data.ohlc@.map_values(|p: BitstampOHLC| p@)),
        ),
{
    let ghost models = data.data.ohlc@.map_values(|p: BitstampOHLC| p@);
    let mut out: Vec<HistoryEntry> = Vec::new();
    let n = data.data.ohlc.len();
    let mut i: usize = 0;
    while i < n
        invariant
            0 <= i <= n,
            n == data.data.ohlc@.len(),
            models == data.data.ohlc@.map_values(|p: BitstampOHLC| p@),
            entries_match(entry_views(out@), parse_records(models.take(i as int))),
        decreases n - i,
    {
        let point = &data.data.ohlc[i];
        assert(point@ == models[i as int]);
        assert(models.take(i + 1).drop_last() =~= models.take(i as int));
        assert(models.take(i + 1).last() == models[i as int]);
        let parsed: Option<(i64, CandleData)> = match (
            parse_decimal_i64(point.timestamp.as_str()),
            parse_price(point.open.as_str()),
            parse_price(point.high.as_str()),
            parse_price(point.low.as_str()),
            parse_price(point.close.as_str()),
        ) {
            (Some(ts), Some(o), Some(h), Some(l), Some(c)) => Some(
                (ts, CandleData { open: o, high: h, low: l, close: c }),
            ),
            _ => None,
        };
        match parsed {
            Some((ts, candle)) => {
                match epoch_to_rfc3339(ts) {
                    Some(rfc) => {
                        assert(parse_record(models[i as int]) == Some((ts, candle)));
                        let formatted = format_unix_timestamp(point.timestamp.as_str());
                        let ghost prev = out@;
                        let entry = HistoryEntry {
                            time: TimeInfo {
                                raw_timestamp: ts,
                                formatted_time: formatted,
                                rfc3339: rfc,
                            },
                            candle,
                        };
                        out.push(entry);
                        proof {
                            assert(entry_views(out@) =~= entry_views(prev).push(entry@));
                            let ps = parse_records(models.take(i + 1));
                            assert(ps == parse_records(models.take(i as int)).push((ts, candle)));
                            assert(entries_match(entry_views(out@), ps));
                        }
                    },
                    None => {
                        assert(parse_record(models[i as int]) is None);
                        assert(parse_records(models.take(i + 1)) == parse_records(
                            models.take(i as int),
                        ));
                    },
                }
            },
            None => {
                assert(parse_record(models[i as int]) is None);
                assert(parse_records(models.take(i + 1)) == parse_records(models.take(i as int)));
            },
        }
        i = i + 1;
    }
    assert(models.take(n as int) =~= models);
    out
}

} // verus!
