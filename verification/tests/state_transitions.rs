use btc_ticker::bitstamp::ChartTimeframe;
use btc_ticker::config::{AppConfig, DEFAULT_MEMPOOL_API_URL};
use btc_ticker::history::{CandleData, HistoryEntry, TimeInfo};
use btc_ticker::mempool::MempoolFeeEstimate;
use btc_ticker::state::BitcoinState;

fn entry(ts: i64, close: u64) -> HistoryEntry {
    HistoryEntry {
        time: TimeInfo {
            raw_timestamp: ts,
            formatted_time: format!("t{}", ts),
            rfc3339: format!("r{}", ts),
        },
        candle: CandleData { open: close, high: close, low: close, close },
    }
}

fn fresh_state() -> BitcoinState {
    BitcoinState::new(AppConfig::default())
}

#[test]
fn initial_state_has_placeholders() {
    let s = fresh_state();
    assert_eq!(s.price, 0);
    assert_eq!(s.last_updated, "Never");
    assert!(!s.updating);
    assert!(!s.new_price_fetched);
    assert!(s.historical_data.is_empty());
    assert_eq!(s.chart_timeframe, ChartTimeframe::Hours24);
    assert!(!s.timeframe_changed);
    assert_eq!(s.block_height, 0);
    assert_eq!(s.block_time, "Unknown");
    assert_eq!(s.fastest_fee, 0);
    assert_eq!(s.minimum_fee, 0);
    assert!(!s.mempool_updating);
    assert_eq!(s.mempool_last_updated, "Never");
    assert_eq!(s.mempool_api_url, DEFAULT_MEMPOOL_API_URL);
    assert!(!s.mempool_custom_url_enabled);
}

#[test]
fn price_success_sets_flag_only_on_change() {
    let mut s = fresh_state();
    s.begin_price_refresh();
    assert!(s.updating);
    s.apply_price_success(5000000, "t1".to_string());
    assert!(!s.updating);
    assert_eq!(s.price, 5000000);
    assert_eq!(s.last_updated, "t1");
    assert!(s.new_price_fetched);

    s.new_price_fetched = false;
    s.apply_price_success(5000000, "t2".to_string());
    assert_eq!(s.last_updated, "t2");
    assert!(!s.new_price_fetched, "an unchanged price must not raise the flag");

    s.apply_price_success(5000001, "t3".to_string());
    assert!(s.new_price_fetched);
}

#[test]
fn price_failure_with_history_falls_back() {
    let mut s = fresh_state();
    s.apply_history_success(vec![entry(10, 111), entry(20, 222)]);
    s.begin_price_refresh();
    s.apply_price_failure("t9".to_string());
    assert!(!s.updating);
    assert_eq!(s.price, 222, "fallback must be the close of the newest candle");
    assert_eq!(s.last_updated, "t9* (fallback)");
}

#[test]
fn price_failure_without_history_changes_nothing_but_flag() {
    let mut s = fresh_state();
    s.begin_price_refresh();
    s.apply_price_failure("t9".to_string());
    assert!(!s.updating);
    assert_eq!(s.price, 0);
    assert_eq!(s.last_updated, "Never");
}

#[test]
fn history_is_replaced_whole() {
    let mut s = fresh_state();
    s.apply_history_success(vec![entry(10, 100), entry(20, 200), entry(30, 300)]);
    assert_eq!(s.historical_data.len(), 3);
    assert!(s.new_price_fetched);

    // A second fetch replaces everything; nothing is merged.
    s.apply_history_success(vec![entry(40, 400)]);
    assert_eq!(s.historical_data.len(), 1);
    assert_eq!(s.historical_data[0].time.raw_timestamp, 40);
    assert_eq!(s.historical_data[0].candle.close, 400);
}

#[test]
fn empty_history_fetch_is_ignored() {
    let mut s = fresh_state();
    s.apply_history_success(vec![entry(10, 100)]);
    s.new_price_fetched = false;
    s.apply_history_success(Vec::new());
    assert_eq!(s.historical_data.len(), 1);
    assert!(!s.new_price_fetched);
}

#[test]
fn mempool_success_path() {
    let mut s = fresh_state();
    s.begin_mempool_refresh();
    assert!(s.mempool_updating);
    s.apply_block_info(840000, "bt".to_string());
    assert_eq!(s.block_height, 840000);
    assert_eq!(s.block_time, "bt");
    let fees = MempoolFeeEstimate {
        fastest_fee: 40,
        half_hour_fee: 30,
        hour_fee: 20,
        economy_fee: 10,
        minimum_fee: 5,
    };
    s.apply_fee_estimates(&fees, "mt".to_string());
    assert!(!s.mempool_updating);
    assert_eq!(s.fastest_fee, 40);
    assert_eq!(s.half_hour_fee, 30);
    assert_eq!(s.hour_fee, 20);
    assert_eq!(s.economy_fee, 10);
    assert_eq!(s.minimum_fee, 5);
    assert_eq!(s.mempool_last_updated, "mt");
}

#[test]
fn mempool_failure_clears_flag_and_keeps_stamp() {
    let mut s = fresh_state();
    s.begin_mempool_refresh();
    s.apply_mempool_failure();
    assert!(!s.mempool_updating);
    assert_eq!(s.mempool_last_updated, "Never", "the stamp moves on success alone");
}

#[test]
fn custom_endpoint_round_trip() {
    let mut s = fresh_state();
    assert_eq!(s.get_active_mempool_url(), DEFAULT_MEMPOOL_API_URL);
    s.set_mempool_api_url("https://my.node/api");
    assert_eq!(s.mempool_api_url, "https://my.node/api");
    assert_eq!(s.config.mempool_api_url, "https://my.node/api");
    // Not yet enabled: the stock endpoint stays active.
    assert_eq!(s.get_active_mempool_url(), DEFAULT_MEMPOOL_API_URL);
    s.set_custom_mempool_enabled(true);
    assert!(s.config.mempool_custom_url_enabled);
    assert_eq!(s.get_active_mempool_url(), "https://my.node/api");
    s.set_custom_mempool_enabled(false);
    assert_eq!(s.get_active_mempool_url(), DEFAULT_MEMPOOL_API_URL);
}

#[test]
fn interleaved_refreshes_leave_consistent_state() {
    let mut s = fresh_state();
    s.apply_history_success(vec![entry(10, 111)]);
    // Two invocations mark themselves in flight before either records its
    // outcome, as a manual refresh racing a timer-driven one does.
    s.begin_price_refresh();
    s.begin_price_refresh();
    assert!(s.updating);
    // One succeeds, then the other fails.
    s.apply_price_success(999900, "t1".to_string());
    s.apply_price_failure("t2".to_string());
    assert!(!s.updating, "no interleaving leaves the flag stuck");
    assert_eq!(s.price, 111, "the state is the last writer's");
    assert_eq!(s.last_updated, "t2* (fallback)");

    // The same race with the outcomes in the other order.
    s.begin_price_refresh();
    s.begin_price_refresh();
    s.apply_price_failure("t3".to_string());
    s.apply_price_success(888800, "t4".to_string());
    assert!(!s.updating);
    assert_eq!(s.price, 888800);
    assert_eq!(s.last_updated, "t4");
}

#[test]
fn timeframe_change_owes_exactly_one_refresh() {
    let mut s = fresh_state();
    let changed = s.change_timeframe(ChartTimeframe::Week);
    assert!(changed, "a differing timeframe owes one immediate refresh");
    assert_eq!(s.chart_timeframe, ChartTimeframe::Week);
    assert!(s.timeframe_changed);

    // Selecting the active timeframe again owes nothing.
    let changed_again = s.change_timeframe(ChartTimeframe::Week);
    assert!(!changed_again);
    assert!(s.timeframe_changed, "the unconsumed flag is left as it was");
}

#[test]
fn view_reset_flag_is_one_shot() {
    let mut s = fresh_state();
    s.change_timeframe(ChartTimeframe::Month);
    assert!(s.consume_timeframe_reset(), "the first render tick sees the flag");
    assert!(!s.consume_timeframe_reset(), "and clears it for every later tick");
    assert!(!s.timeframe_changed);
}
