use btc_ticker::config::AppConfig;
use btc_ticker::history::{CandleData, HistoryEntry, TimeInfo};
use btc_ticker::render::{chart_bounds, sats_per_dollar, update_price_history, ChartBounds};
use btc_ticker::state::BitcoinState;

fn entry(ts: i64, close: u64) -> HistoryEntry {
    HistoryEntry {
        time: TimeInfo {
            raw_timestamp: ts,
            formatted_time: format!("t{}", ts),
            rfc3339: format!("r{}", ts),
        },
        candle: CandleData { open: close, high: close, low: close, close },
    }
}

#[test]
fn buffer_copies_stored_history_whole() {
    let mut s = BitcoinState::new(AppConfig::default());
    s.apply_history_success(vec![entry(1, 10), entry(2, 20)]);
    s.new_price_fetched = false;
    let mut buffer: Vec<HistoryEntry> = vec![entry(99, 990)];
    update_price_history(&mut buffer, &mut s);
    // Full replacement, not a merge: the old buffer entry is gone.
    assert_eq!(buffer.len(), 2);
    assert_eq!(buffer[0].time.raw_timestamp, 1);
    assert_eq!(buffer[1].time.raw_timestamp, 2);
}

#[test]
fn empty_history_keeps_buffer() {
    let mut s = BitcoinState::new(AppConfig::default());
    let mut buffer: Vec<HistoryEntry> = vec![entry(99, 990)];
    update_price_history(&mut buffer, &mut s);
    assert_eq!(buffer.len(), 1);
    assert_eq!(buffer[0].time.raw_timestamp, 99);
}

#[test]
fn new_price_appends_synthesized_flat_candle() {
    let mut s = BitcoinState::new(AppConfig::default());
    s.apply_price_success(1234500, "stamp".to_string());
    assert!(s.new_price_fetched);
    let mut buffer: Vec<HistoryEntry> = Vec::new();
    update_price_history(&mut buffer, &mut s);
    assert!(!s.new_price_fetched, "the render tick consumes the flag");
    assert_eq!(buffer.len(), 1);
    let last = buffer.last().unwrap();
    assert_eq!(last.candle, CandleData { open: 1234500, high: 1234500, low: 1234500, close: 1234500 });
    assert_eq!(last.time.formatted_time, "stamp");
}

#[test]
fn full_buffer_evicts_oldest_and_stays_at_bound() {
    let mut s = BitcoinState::new(AppConfig::default());
    s.apply_price_success(777700, "now".to_string());
    let mut buffer: Vec<HistoryEntry> = (0..100i64).map(|i| entry(i, i as u64 * 10)).collect();
    update_price_history(&mut buffer, &mut s);
    assert_eq!(buffer.len(), 100, "appending to a full buffer keeps it at the bound");
    assert_eq!(buffer[0].time.raw_timestamp, 1, "the oldest entry is evicted first");
    assert_eq!(buffer.last().unwrap().candle.close, 777700);
}

#[test]
fn chart_bounds_span_the_whole_buffer() {
    let mut e1 = entry(100, 500);
    e1.candle.low = 450;
    e1.candle.high = 520;
    let mut e2 = entry(200, 480);
    e2.candle.low = 400;
    e2.candle.high = 700;
    let mut e3 = entry(300, 600);
    e3.candle.low = 550;
    e3.candle.high = 650;
    let buffer = vec![e1, e2, e3];
    assert_eq!(
        chart_bounds(&buffer),
        Some(ChartBounds { start_ts: 100, end_ts: 300, min_price: 400, max_price: 700 }),
    );
}

#[test]
fn chart_bounds_of_empty_buffer() {
    assert_eq!(chart_bounds(&Vec::new()), None);
}

#[test]
fn sats_per_dollar_at_known_prices() {
    // At $100,000.00 one dollar buys one thousand subunits.
    assert_eq!(sats_per_dollar(10_000_000), 1000);
    // At $50,000.00, two thousand.
    assert_eq!(sats_per_dollar(5_000_000), 2000);
}

#[test]
fn oversized_history_is_capped_to_newest_hundred() {
    let mut s = BitcoinState::new(AppConfig::default());
    s.apply_history_success((0..365i64).map(|i| entry(i, i as u64)).collect());
    s.new_price_fetched = false;
    let mut buffer: Vec<HistoryEntry> = Vec::new();
    update_price_history(&mut buffer, &mut s);
    assert_eq!(buffer.len(), 100);
    assert_eq!(buffer[0].time.raw_timestamp, 265);
    assert_eq!(buffer[99].time.raw_timestamp, 364);
}
