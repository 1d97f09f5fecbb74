use btc_ticker::bitstamp::ChartTimeframe;
use btc_ticker::config::AppConfig;

#[test]
fn descriptions() {
    assert_eq!(ChartTimeframe::Hours24.description(), "24 Hours (hourly)");
    assert_eq!(ChartTimeframe::Week.description(), "1 Week (4-hour)");
    assert_eq!(ChartTimeframe::Month.description(), "1 Month (daily)");
    assert_eq!(ChartTimeframe::Year.description(), "1 Year (daily)");
}

#[test]
fn api_params() {
    assert_eq!(ChartTimeframe::Hours24.api_params(), (3600, 24));
    assert_eq!(ChartTimeframe::Week.api_params(), (14400, 42));
    assert_eq!(ChartTimeframe::Month.api_params(), (86400, 30));
    assert_eq!(ChartTimeframe::Year.api_params(), (86400, 365));
}

#[test]
fn default_config() {
    let c = AppConfig::default();
    assert!(!c.mempool_custom_url_enabled);
    assert_eq!(c.mempool_api_url, "https://mempool.space/api");
}
