//! The shared application state and the refresh protocol's transitions.
//!
//! One record holds every displayed metric plus the bookkeeping flags the
//! threads signal each other with. Each transition below is one critical
//! section of the refresh coordinator or of the render loop: it is given the
//! outcome of any network call as a plain value and rewrites the record, so
//! no I/O ever happens inside. Every transition is stated exactly, as a
//! function from the old state to the new.

use vstd::prelude::*;
use crate::bitstamp::ChartTimeframe;
use crate::config::{AppConfig, DEFAULT_MEMPOOL_API_URL};
use crate::history::{EntryModel, HistoryEntry, entry_views};
use crate::mempool::MempoolFeeEstimate;

verus! {

/// The mathematical content of a `BitcoinState`.
#[verifier::ext_equal]
pub ghost struct StateModel {
    pub price: u64,
    pub last_updated: Seq<char>,
    pub updating: bool,
    pub new_price_fetched: bool,
    pub historical_data: Seq<EntryModel>,
    pub chart_timeframe: ChartTimeframe,
    pub timeframe_changed: bool,
    pub block_height: u32,
    pub block_time: Seq<char>,
    pub fastest_fee: u32,
    pub half_hour_fee: u32,
    pub hour_fee: u32,
    pub economy_fee: u32,
    pub minimum_fee: u32,
    pub mempool_updating: bool,
    pub mempool_last_updated: Seq<char>,
    pub mempool_api_url: Seq<char>,
    pub mempool_custom_url_enabled: bool,
    pub config_custom_url_enabled: bool,
    pub config_mempool_api_url: Seq<char>,
}

/// The shared application state: every displayed metric, the signalling
/// flags, and the persisted configuration values.
///
/// Prices are fixed-point integers in hundredths of the quote currency;
/// a price of zero means none has been fetched yet.
#[derive(Debug)]
pub struct BitcoinState {
    /// Latest known price, in hundredths. Zero until first fetched.
    pub price: u64,
    /// When the price was last written, as display text.
    pub last_updated: String,
    /// A price fetch is in flight. Advisory, for display only.
    pub updating: bool,
    /// The render loop must append a new point to its buffer.
    pub new_price_fetched: bool,
    /// The stored history, ordered as the gateway sent it; replaced whole on
    /// every successful OHLC fetch, never merged.
    pub historical_data: Vec<HistoryEntry>,
    /// The timeframe charts are drawn for.
    pub chart_timeframe: ChartTimeframe,
    /// The render loop must reset its chart view bounds.
    pub timeframe_changed: bool,
    /// Height of the latest known block. Zero until first fetched.
    pub block_height: u32,
    /// Display text of the latest block's timestamp.
    pub block_time: String,
    pub fastest_fee: u32,
    pub half_hour_fee: u32,
    pub hour_fee: u32,
    pub economy_fee: u32,
    pub minimum_fee: u32,
    /// A block/fee fetch is in flight. Advisory, for display only.
    pub mempool_updating: bool,
    /// When fee data was last successfully written, as display text.
    pub mempool_last_updated: String,
    /// The custom explorer endpoint, as configured.
    pub mempool_api_url: String,
    /// Whether the custom explorer endpoint is in use.
    pub mempool_custom_url_enabled: bool,
    /// The persisted configuration these two fields mirror.
    pub config: AppConfig,
}

impl View for BitcoinState {
    type V = StateModel;

    open spec fn view(&self) -> StateModel {
        StateModel {
            price: self.price,
            last_updated: self.last_updated@,
            updating: self.updating,
            new_price_fetched: self.new_price_fetched,
            historical_data: entry_views(self.historical_data@),
            chart_timeframe: self.chart_timeframe,
            timeframe_changed: self.timeframe_changed,
            block_height: self.block_height,
            block_time: self.block_time@,
            fastest_fee: self.fastest_fee,
            half_hour_fee: self.half_hour_fee,
            hour_fee: self.hour_fee,
            economy_fee: self.economy_fee,
            minimum_fee: self.minimum_fee,
            mempool_updating: self.mempool_updating,
            mempool_last_updated: self.mempool_last_updated@,
            mempool_api_url: self.mempool_api_url@,
            mempool_custom_url_enabled: self.mempool_custom_url_enabled,
            config_custom_url_enabled: self.config.mempool_custom_url_enabled,
            config_mempool_api_url: self.config.mempool_api_url@,
        }
    }
}

/// The state a run starts from: placeholders everywhere, endpoint taken
/// from the configuration.
pub open spec fn initial_state(config_enabled: bool, config_url: Seq<char>) -> StateModel {
    StateModel {
        price: 0,
        last_updated: "Never"@,
        updating: false,
        new_price_fetched: false,
        historical_data: Seq::empty(),
        chart_timeframe: ChartTimeframe::Hours24,
        timeframe_changed: false,
        block_height: 0,
        block_time: "Unknown"@,
        fastest_fee: 0,
        half_hour_fee: 0,
        hour_fee: 0,
        economy_fee: 0,
        minimum_fee: 0,
        mempool_updating: false,
        mempool_last_updated: "Never"@,
        mempool_api_url: config_url,
        mempool_custom_url_enabled: config_enabled,
        config_custom_url_enabled: config_enabled,
        config_mempool_api_url: config_url,
    }
}

/// A price refresh has started: mark it, and nothing else.
pub open spec fn begin_price_step(s: StateModel) -> StateModel {
    StateModel { updating: true, ..s }
}

/// A price fetch succeeded: store the price and its timestamp, clear the
/// in-flight mark, and tell the render loop — but only when the price
/// actually changed.
pub open spec fn price_success_step(s: StateModel, price: u64, now: Seq<char>) -> StateModel {
    StateModel {
        price,
        last_updated: now,
        updating: false,
        new_price_fetched: s.new_price_fetched || s.price != price,
        ..s
    }
}

/// The marker appended to the timestamp of a stale, substituted price.
pub open spec fn fallback_marker() -> Seq<char> {
    "* (fallback)"@
}

/// A price fetch failed: clear the in-flight mark, and when history exists
/// fall back to the close of its most recent candle, marking the timestamp
/// text as a fallback.
pub open spec fn price_failure_step(s: StateModel, now: Seq<char>) -> StateModel {
    if s.historical_data.len() > 0 {
        StateModel {
            updating: false,
            price: s.historical_data.last().candle.close,
            last_updated: now + fallback_marker(),
            ..s
        }
    } else {
        StateModel { updating: false, ..s }
    }
}

/// An OHLC fetch parsed to something: replace the stored history whole and
/// force a chart redraw. An empty parse leaves the state untouched.
pub open spec fn history_step(s: StateModel, h: Seq<EntryModel>) -> StateModel {
    if h.len() > 0 {
        StateModel { historical_data: h, new_price_fetched: true, ..s }
    } else {
        s
    }
}

/// A block/fee refresh has started: mark it, and nothing else.
pub open spec fn begin_mempool_step(s: StateModel) -> StateModel {
    StateModel { mempool_updating: true, ..s }
}

/// The block-info fetch succeeded: store height and block time.
pub open spec fn block_info_step(s: StateModel, height: u32, block_time: Seq<char>) -> StateModel {
    StateModel { block_height: height, block_time, ..s }
}

/// The fee fetch succeeded: store the tiers, stamp the success, clear the
/// in-flight mark.
pub open spec fn fee_success_step(
    s: StateModel,
    fees: MempoolFeeEstimate,
    now: Seq<char>,
) -> StateModel {
    StateModel {
        fastest_fee: fees.fastest_fee,
        half_hour_fee: fees.half_hour_fee,
        hour_fee: fees.hour_fee,
        economy_fee: fees.economy_fee,
        minimum_fee: fees.minimum_fee,
        mempool_last_updated: now,
        mempool_updating: false,
        ..s
    }
}

/// The fee fetch failed: only clear the in-flight mark; the stamp moves on
/// success alone.
pub open spec fn fee_failure_step(s: StateModel) -> StateModel {
    StateModel { mempool_updating: false, ..s }
}

/// A timeframe was selected: when it differs from the stored one, store it
/// and raise the one-shot view-reset flag; otherwise change nothing.
pub open spec fn timeframe_step(s: StateModel, tf: ChartTimeframe) -> StateModel {
    if s.chart_timeframe != tf {
        StateModel { chart_timeframe: tf, timeframe_changed: true, ..s }
    } else {
        s
    }
}

/// The render loop consumed the view-reset flag: clear it.
pub open spec fn render_reset_step(s: StateModel) -> StateModel {
    StateModel { timeframe_changed: false, ..s }
}

/// The endpoint in force: the custom one when enabled, the stock one
/// otherwise.
pub open spec fn active_mempool_url(s: StateModel) -> Seq<char> {
    if s.mempool_custom_url_enabled {
        s.mempool_api_url
    } else {
        DEFAULT_MEMPOOL_API_URL@
    }
}

impl BitcoinState {
    /// The state at startup, endpoint values taken from the loaded
    /// configuration.
    pub fn new(config: AppConfig) -> (r: Self)
        ensures
            r@ == initial_state(config.mempool_custom_url_enabled, config.mempool_api_url@),
    {
        let mempool_api_url = config.mempool_api_url.clone();
        let mempool_custom_url_enabled = config.mempool_custom_url_enabled;
        let r = BitcoinState {
            price: 0,
            last_updated: "Never".to_owned(),
            updating: false,
            new_price_fetched: false,
            historical_data: Vec::new(),
            chart_timeframe: ChartTimeframe::Hours24,
            timeframe_changed: false,
            block_height: 0,
            block_time: "Unknown".to_owned(),
            fastest_fee: 0,
            half_hour_fee: 0,
            hour_fee: 0,
            economy_fee: 0,
            minimum_fee: 0,
            mempool_updating: false,
            mempool_last_updated: "Never".to_owned(),
            mempool_api_url,
            mempool_custom_url_enabled,
            config,
        };
        proof {
            assert(r@ =~= initial_state(
                r.config.mempool_custom_url_enabled,
                r.config.mempool_api_url@,
            ));
        }
        r
    }

    /// Mark a price refresh as in flight.
    pub fn begin_price_refresh(&mut self)
        ensures
            final(self)@ == begin_price_step(old(self)@),
    {
        self.updating = true;
        proof {
            assert(self@ =~= begin_price_step(old(self)@));
        }
    }

    /// Record a successfully fetched price, stamped `now`.
    pub fn apply_price_success(&mut self, price: u64, now: String)
        ensures
            final(self)@ == price_success_step(old(self)@, price, now@),
    {
        if self.price != price {
            self.new_price_fetched = true;
        }
        self.price = price;
        self.last_updated = now;
        self.updating = false;
        proof {
            assert(self@ =~= price_success_step(old(self)@, price, self.last_updated@));
        }
    }

    /// Record a failed price fetch, stamped `now`: fall back to the most
    /// recent candle's close when history exists, and mark the stamp.
    pub fn apply_price_failure(&mut self, now: String)
        ensures
            final(self)@ == price_failure_step(old(self)@, now@),
    {
        self.updating = false;
        if self.historical_data.len() > 0 {
            let idx = self.historical_data.len() - 1;
            self.price = self.historical_data[idx].candle.close;
            self.last_updated = now.concat("* (fallback)");
            proof {
                assert(old(self)@.historical_data.last() == self.historical_data@[idx as int]@);
                assert(self@ =~= price_failure_step(old(self)@, now@));
            }
        } else {
            proof {
                assert(self@ =~= price_failure_step(old(self)@, now@));
            }
        }
    }

    /// Replace the stored history with a freshly parsed one, whole; an empty
    /// parse leaves everything untouched.
    pub fn apply_history_success(&mut self, history: Vec<HistoryEntry>)
        ensures
            final(self)@ == history_step(old(self)@, entry_views(history@)),
    {
        let ghost h = entry_views(history@);
        if history.len() > 0 {
            self.historical_data = history;
            self.new_price_fetched = true;
            proof {
                assert(self@ =~= history_step(old(self)@, h));
            }
        } else {
            proof {
                assert(h.len() == 0);
                assert(self@ =~= history_step(old(self)@, h));
            }
        }
    }

    /// Mark a block/fee refresh as in flight.
    pub fn begin_mempool_refresh(&mut self)
        ensures
            final(self)@ == begin_mempool_step(old(self)@),
    {
        self.mempool_updating = true;
        proof {
            assert(self@ =~= begin_mempool_step(old(self)@));
        }
    }

    /// Record successfully fetched block info.
    pub fn apply_block_info(&mut self, height: u32, block_time: String)
        ensures
            final(self)@ == block_info_step(old(self)@, height, block_time@),
    {
        self.block_height = height;
        self.block_time = block_time;
        proof {
            assert(self@ =~= block_info_step(old(self)@, height, self.block_time@));
        }
    }

    /// Record successfully fetched fee estimates, stamped `now`.
    pub fn apply_fee_estimates(&mut self, fees: &MempoolFeeEstimate, now: String)
        ensures
            final(self)@ == fee_success_step(old(self)@, *fees, now@),
    {
        self.fastest_fee = fees.fastest_fee;
        self.half_hour_fee = fees.half_hour_fee;
        self.hour_fee = fees.hour_fee;
        self.economy_fee = fees.economy_fee;
        self.minimum_fee = fees.minimum_fee;
        self.mempool_last_updated = now;
        self.mempool_updating = false;
        proof {
            assert(self@ =~= fee_success_step(old(self)@, *fees, self.mempool_last_updated@));
        }
    }

    /// Record a failed fee fetch: the in-flight mark is cleared whether or
    /// not anything succeeded.
    pub fn apply_mempool_failure(&mut self)
        ensures
            final(self)@ == fee_failure_step(old(self)@),
    {
        self.mempool_updating = false;
        proof {
            assert(self@ =~= fee_failure_step(old(self)@));
        }
    }

    /// Store a custom explorer endpoint, in the state and in the mirrored
    /// configuration. Persisting the configuration is the caller's business.
    pub fn set_mempool_api_url(&mut self, url: &str)
        ensures
            final(self)@ == (StateModel {
                mempool_api_url: url@,
                config_mempool_api_url: url@,
                ..old(self)@
            }),
    {
        self.mempool_api_url = url.to_owned();
        self.config.mempool_api_url = url.to_owned();
        proof {
            assert(self@ =~= StateModel {
                mempool_api_url: url@,
                config_mempool_api_url: url@,
                ..old(self)@
            });
        }
    }

    /// Enable or disable the custom endpoint, in the state and in the
    /// mirrored configuration. Persisting is the caller's business.
    pub fn set_custom_mempool_enabled(&mut self, enabled: bool)
        ensures
            final(self)@ == (StateModel {
                mempool_custom_url_enabled: enabled,
                config_custom_url_enabled: enabled,
                ..old(self)@
            }),
    {
        self.mempool_custom_url_enabled = enabled;
        self.config.mempool_custom_url_enabled = enabled;
        proof {
            assert(self@ =~= StateModel {
                mempool_custom_url_enabled: enabled,
                config_custom_url_enabled: enabled,
                ..old(self)@
            });
        }
    }

    /// The explorer endpoint to call right now.
    pub fn get_active_mempool_url(&self) -> (r: &str)
        ensures
            r@ == active_mempool_url(self@),
    {
        if self.mempool_custom_url_enabled {
            self.mempool_api_url.as_str()
        } else {
            DEFAULT_MEMPOOL_API_URL
        }
    }

    /// Select a timeframe. Returns whether it differed from the stored one;
    /// exactly then the caller owes one immediate refresh for it, and the
    /// one-shot view-reset flag has been raised.
    pub fn change_timeframe(&mut self, tf: ChartTimeframe) -> (changed: bool)
        ensures
            changed == (old(self)@.chart_timeframe != tf),
            final(self)@ == timeframe_step(old(self)@, tf),
    {
        if self.chart_timeframe != tf {
            self.chart_timeframe = tf;
            self.timeframe_changed = true;
            proof {
                assert(self@ =~= timeframe_step(old(self)@, tf));
            }
            true
        } else {
            proof {
                assert(self@ =~= timeframe_step(old(self)@, tf));
            }
            false
        }
    }

    /// Read and clear the one-shot view-reset flag: the render tick that
    /// observes it recomputes its chart bounds, and no later tick does.
    pub fn consume_timeframe_reset(&mut self) -> (was: bool)
        ensures
            was == old(self)@.timeframe_changed,
            final(self)@ == render_reset_step(old(self)@),
    {
        let was = self.timeframe_changed;
        self.timeframe_changed = false;
        proof {
            assert(self@ =~= render_reset_step(old(self)@));
        }
        was
    }
}

} // verus!
