//! The render loop's state reconciliation: each tick copies the stored
//! history into a local display buffer, appends a synthesized point when a
//! new price was fetched, and keeps the buffer bounded.
//!
//! The buffer never exceeds 100 entries; when it would, the oldest entries
//! are dropped first.

use vstd::prelude::*;
use crate::history::{CandleData, EntryModel, HistoryEntry, TimeInfo, entry_views};
use crate::state::{BitcoinState, StateModel};
use crate::timefmt::{epoch_to_rfc3339, now_epoch_seconds, rfc3339_of};

verus! {

/// A sequence cut down to its newest 100 entries, oldest dropped first.
pub open spec fn cap_to_bound(b: Seq<EntryModel>) -> Seq<EntryModel> {
    if b.len() > 100 {
        b.skip(b.len() - 100)
    } else {
        b
    }
}

/// What the display buffer holds after the copy phase of a tick: the stored
/// history when there is any, the old buffer otherwise, bounded either way.
pub open spec fn copied_base(hist: Seq<EntryModel>, buf: Seq<EntryModel>) -> Seq<EntryModel> {
    if hist.len() > 0 {
        cap_to_bound(hist)
    } else {
        cap_to_bound(buf)
    }
}

/// A bounded buffer with one entry appended: when it is full, the oldest
/// entry makes room.
pub open spec fn appended_capped(b: Seq<EntryModel>, e: EntryModel) -> Seq<EntryModel> {
    let ap = b.push(e);
    if ap.len() > 100 {
        ap.skip(1)
    } else {
        ap
    }
}

/// The point synthesized for a freshly fetched price: a flat candle at that
/// price.
pub open spec fn synthesized_candle(price: u64) -> CandleData {
    CandleData { open: price, high: price, low: price, close: price }
}

/// The lowest low among the candles of `es` (zero for an empty sequence).
pub open spec fn min_low(es: Seq<EntryModel>) -> u64
    decreases es.len(),
{
    if es.len() == 0 {
        0
    } else if es.len() == 1 {
        es[0].candle.low
    } else {
        let m = min_low(es.drop_last());
        if es.last().candle.low < m {
            es.last().candle.low
        } else {
            m
        }
    }
}

/// The highest high among the candles of `es` (zero for an empty sequence).
pub open spec fn max_high(es: Seq<EntryModel>) -> u64
    decreases es.len(),
{
    if es.len() == 0 {
        0
    } else if es.len() == 1 {
        es[0].candle.high
    } else {
        let m = max_high(es.drop_last());
        if es.last().candle.high > m {
            es.last().candle.high
        } else {
            m
        }
    }
}

/// The full span of a display buffer, for resetting the chart view: its
/// time range and its price range.
#[derive(Clone, Copy, Debug, PartialEq, Eq, Structural)]
pub struct ChartBounds {
    /// Timestamp of the oldest entry.
    pub start_ts: i64,
    /// Timestamp of the newest entry.
    pub end_ts: i64,
    /// Lowest candle low, in hundredths.
    pub min_price: u64,
    /// Highest candle high, in hundredths.
    pub max_price: u64,
}

/// Recompute the chart's view bounds from the full span of the display
/// buffer, as the render tick that observes the view-reset flag must.
/// An empty buffer has no bounds.
pub fn chart_bounds(buffer: &Vec<HistoryEntry>) -> (r: Option<ChartBounds>)
    ensures
        match r {
            Some(b) => {
                let es = entry_views(buffer@);
                &&& es.len() > 0
                &&& b.start_ts == es[0].time.ts
                &&& b.end_ts == es.last().time.ts
                &&& b.min_price == min_low(es)
                &&& b.max_price == max_high(es)
            },
            None => buffer@.len() == 0,
        },
{
    let ghost es = entry_views(buffer@);
    let n = buffer.len();
    if n == 0 {
        return None;
    }
    let mut lo: u64 = buffer[0].candle.low;
    let mut hi: u64 = buffer[0].candle.high;
    let mut i: usize = 1;
    while i < n
        invariant
            1 <= i <= n,
            n == buffer@.len(),
            es == entry_views(buffer@),
            lo == min_low(es.take(i as int)),
            hi == max_high(es.take(i as int)),
        decreases n - i,
    {
        assert(es.take(i + 1).drop_last() =~= es.take(i as int));
        assert(es.take(i + 1).last() == es[i as int]);
        let low = buffer[i].candle.low;
        let high = buffer[i].candle.high;
        if low < lo {
            lo = low;
        }
        if high > hi {
            hi = high;
        }
        i = i + 1;
    }
    assert(es.take(n as int) =~= es);
    Some(
        ChartBounds {
            start_ts: buffer[0].time.raw_timestamp,
            end_ts: buffer[n - 1].time.raw_timestamp,
            min_price: lo,
            max_price: hi,
        },
    )
}

/// How many of the smallest currency subunits one quote unit buys at the
/// given price: with prices in hundredths and one hundred million subunits
/// to the asset, this is ten billion divided by the price.
pub fn sats_per_dollar(price: u64) -> (r: u64)
    requires
        price > 0,
    ensures
        r == 10_000_000_000u64 / price,
{
    10_000_000_000u64 / price
}

/// One render tick's buffer maintenance.
///
/// Copies the stored history into the local display buffer (whole, never a
/// merge) when there is any; when a new price was fetched, appends one
/// synthesized flat candle stamped with the clock's present reading and the
/// stored timestamp text, and clears that flag. The buffer leaves with at
/// most 100 entries, oldest dropped first.
pub fn update_price_history(buffer: &mut Vec<HistoryEntry>, state: &mut BitcoinState)
    ensures
        final(state)@ == (StateModel { new_price_fetched: false, ..old(state)@ }),
        entry_views(final(buffer)@).len() <= 100,
        !old(state)@.new_price_fetched ==> entry_views(final(buffer)@) == copied_base(
            old(state)@.historical_data,
            entry_views(old(buffer)@),
        ),
        old(state)@.new_price_fetched ==> (exists|e: EntryModel|
            {
                &&& entry_views(final(buffer)@) == #[trigger] appended_capped(
                    copied_base(old(state)@.historical_data, entry_views(old(buffer)@)),
                    e,
                )
                &&& e.candle == synthesized_candle(old(state)@.price)
                &&& e.time.formatted == old(state)@.last_updated
                &&& (rfc3339_of(e.time.ts) == Some(e.time.rfc) || (rfc3339_of(e.time.ts) is None
                    && e.time.rfc == Seq::<char>::empty()))
            }),
{
    let ghost old_hist = old(state)@.historical_data;
    let ghost old_buf = entry_views(old(buffer)@);
    if state.historical_data.len() > 0 {
        *buffer = state.historical_data.clone();
        proof {
            assert(entry_views(buffer@) =~= old_hist);
        }
    }
    let ghost base = entry_views(buffer@);
    // Keep only the newest 100 entries.
    while buffer.len() > 100
        invariant
            cap_to_bound(entry_views(buffer@)) == cap_to_bound(base),
        decreases buffer.len(),
    {
        let ghost before = entry_views(buffer@);
        buffer.remove(0);
        proof {
            assert(entry_views(buffer@) =~= before.skip(1));
            assert(cap_to_bound(before.skip(1)) =~= cap_to_bound(before));
        }
    }
    proof {
        assert(entry_views(buffer@) == cap_to_bound(base));
        assert(cap_to_bound(base) == copied_base(old_hist, old_buf));
    }
    if state.new_price_fetched {
        let price = state.price;
        let ts = now_epoch_seconds();
        let rfc: String = match epoch_to_rfc3339(ts) {
            Some(s) => s,
            None => String::new(),
        };
        let entry = HistoryEntry {
            time: TimeInfo {
                raw_timestamp: ts,
                formatted_time: state.last_updated.clone(),
                rfc3339: rfc,
            },
            candle: CandleData { open: price, high: price, low: price, close: price },
        };
        let ghost e = entry@;
        let ghost pre_push = entry_views(buffer@);
        buffer.push(entry);
        proof {
            assert(entry_views(buffer@) =~= pre_push.push(e));
        }
        if buffer.len() > 100 {
            let ghost before = entry_views(buffer@);
            buffer.remove(0);
            proof {
                assert(entry_views(buffer@) =~= before.skip(1));
            }
        }
        state.new_price_fetched = false;
        proof {
            assert(entry_views(buffer@) =~= appended_capped(copied_base(old_hist, old_buf), e));
            assert(state@ =~= (StateModel { new_price_fetched: false, ..old(state)@ }));
        }
    } else {
        state.new_price_fetched = false;
        proof {
            assert(state@ =~= (StateModel { new_price_fetched: false, ..old(state)@ }));
        }
    }
}

} // verus!
