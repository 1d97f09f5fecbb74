//! Laws of the refresh protocol, stated over the transition functions and
//! proved once and for all.
//!
//! The shared state is guarded by one lock, so any set of concurrent
//! refresh invocations is observed as some sequence of the transitions of
//! `crate::state`; these laws quantify over such sequences.

use vstd::prelude::*;
use crate::bitstamp::ChartTimeframe;
use crate::state::{
    StateModel, begin_price_step, fallback_marker, history_step, price_failure_step,
    price_success_step, render_reset_step, timeframe_step,
};
use crate::history::EntryModel;

verus! {

/// How one refresh invocation's price fetch ended: with a fresh price and
/// its timestamp text, or with only a timestamp text for the failure path.
pub ghost enum PriceOutcome {
    Success { price: u64, now: Seq<char> },
    Failure { now: Seq<char> },
}

/// The transition an outcome makes when it is recorded.
pub open spec fn price_outcome_step(s: StateModel, o: PriceOutcome) -> StateModel {
    match o {
        PriceOutcome::Success { price, now } => price_success_step(s, price, now),
        PriceOutcome::Failure { now } => price_failure_step(s, now),
    }
}

/// The price displayed after `o` is recorded against state `s`: the fetched
/// price, or on failure the close of the newest stored candle when there is
/// one, else whatever was displayed before.
pub open spec fn outcome_price(s: StateModel, o: PriceOutcome) -> u64 {
    match o {
        PriceOutcome::Success { price, now } => price,
        PriceOutcome::Failure { now } => if s.historical_data.len() > 0 {
            s.historical_data.last().candle.close
        } else {
            s.price
        },
    }
}

/// The timestamp text displayed after `o` is recorded against state `s`:
/// the fetch's own stamp, marked as a fallback on the failure path that
/// substituted a stale price.
pub open spec fn outcome_stamp(s: StateModel, o: PriceOutcome) -> Seq<char> {
    match o {
        PriceOutcome::Success { price, now } => now,
        PriceOutcome::Failure { now } => if s.historical_data.len() > 0 {
            now + fallback_marker()
        } else {
            s.last_updated
        },
    }
}

/// One step of one price-refresh invocation, as the lock serializes them:
/// the invocation first marks itself in flight, later records its outcome.
pub ghost enum RefreshEvent {
    Begin,
    Done(PriceOutcome),
}

pub open spec fn refresh_event_step(s: StateModel, e: RefreshEvent) -> StateModel {
    match e {
        RefreshEvent::Begin => begin_price_step(s),
        RefreshEvent::Done(o) => price_outcome_step(s, o),
    }
}

/// The state after a whole interleaving of refresh events.
pub open spec fn apply_refresh_events(s: StateModel, es: Seq<RefreshEvent>) -> StateModel
    decreases es.len(),
{
    if es.len() == 0 {
        s
    } else {
        refresh_event_step(apply_refresh_events(s, es.drop_last()), es.last())
    }
}

/// Law: however many price-refresh invocations run concurrently and however
/// their critical sections interleave, once the last of them has recorded
/// its outcome the in-flight flag is down — no interleaving leaves
/// `updating` stuck at `true`.
pub proof fn lemma_refresh_clears_updating(s: StateModel, es: Seq<RefreshEvent>)
    requires
        es.len() > 0,
        es.last() is Done,
    ensures
        !apply_refresh_events(s, es).updating,
{
    let prev = apply_refresh_events(s, es.drop_last());
    match es.last() {
        RefreshEvent::Done(o) => {
            assert(!price_outcome_step(prev, o).updating);
        },
        RefreshEvent::Begin => {},
    }
}

/// Law: when two refresh invocations race, the state they leave is the one
/// the later write dictates — the displayed price and stamp are those of
/// the second outcome (judged against the state the first one left), the
/// stored history is untouched by either, and the in-flight flag is down.
pub proof fn lemma_last_writer_wins(s: StateModel, o1: PriceOutcome, o2: PriceOutcome)
    ensures
        ({
            let s1 = price_outcome_step(s, o1);
            let s2 = price_outcome_step(s1, o2);
            &&& !s2.updating
            &&& s2.price == outcome_price(s1, o2)
            &&& s2.last_updated == outcome_stamp(s1, o2)
            &&& s2.historical_data == s.historical_data
        }),
{
}

/// Law: a failed price fetch against a state with stored history displays
/// exactly the close of the newest stored candle, under a timestamp that
/// carries the fallback marker.
pub proof fn lemma_fallback_display(s: StateModel, now: Seq<char>)
    requires
        s.historical_data.len() > 0,
    ensures
        price_failure_step(s, now).price == s.historical_data.last().candle.close,
        price_failure_step(s, now).last_updated == now + fallback_marker(),
        !price_failure_step(s, now).updating,
{
}

/// Law: selecting a timeframe that differs from the stored one raises the
/// view-reset flag, the first render tick to consume it lowers it, and a
/// second consumption changes nothing more — the flag is one-shot.
pub proof fn lemma_view_reset_is_one_shot(s: StateModel, tf: ChartTimeframe)
    requires
        s.chart_timeframe != tf,
    ensures
        timeframe_step(s, tf).timeframe_changed,
        !render_reset_step(timeframe_step(s, tf)).timeframe_changed,
        render_reset_step(render_reset_step(timeframe_step(s, tf))) == render_reset_step(
            timeframe_step(s, tf),
        ),
{
    assert(render_reset_step(render_reset_step(timeframe_step(s, tf))) =~= render_reset_step(
        timeframe_step(s, tf),
    ));
}

/// The state after a run of OHLC fetches, each recorded as it completed.
pub open spec fn apply_history_fetches(s: StateModel, fs: Seq<Seq<EntryModel>>) -> StateModel
    decreases fs.len(),
{
    if fs.len() == 0 {
        s
    } else {
        history_step(apply_history_fetches(s, fs.drop_last()), fs.last())
    }
}

/// Law: history is replaced whole, never merged — after any run of OHLC
/// fetches whose last parse was nonempty, the stored history is exactly
/// that last parse, whatever came before.
pub proof fn lemma_history_full_replacement(s: StateModel, fs: Seq<Seq<EntryModel>>)
    requires
        fs.len() > 0,
        fs.last().len() > 0,
    ensures
        apply_history_fetches(s, fs).historical_data == fs.last(),
{
}

} // verus!
