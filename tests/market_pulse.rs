use marketpulse::{MarketData, MarketPulse};
use std::time::{SystemTime, UNIX_EPOCH};

fn tick(symbol: &str, price: f64, volume: f64, timestamp: u64) -> MarketData<f64> {
    MarketData { symbol: symbol.to_string(), price, volume, timestamp }
}

/// The mean of the window that the store selects, summed newest first.
fn sma(pulse: &MarketPulse<f64>, symbol: &str, period: usize) -> Option<f64> {
    pulse
        .recent_prices(symbol, period)
        .map(|w| w.iter().sum::<f64>() / period as f64)
}

/// The sum of a symbol's whole volume history, oldest first.
fn total_volume(pulse: &MarketPulse<f64>, symbol: &str) -> f64 {
    pulse.volumes(symbol).iter().sum()
}

#[test]
fn test_new_market_pulse() {
    let pulse: MarketPulse<f64> = MarketPulse::new();
    assert_eq!(pulse.symbol_count(), 0);
}

#[test]
fn test_ingest_market_data() {
    let mut pulse = MarketPulse::new();
    let data = tick("BTCUSD", 50000.0, 1.0, 1);
    pulse.ingest(data.clone());
    assert_eq!(pulse.symbol_count(), 1);
    let history = pulse.history("BTCUSD").unwrap();
    assert_eq!(history.len(), 1);
    assert_eq!(history[0].price, 50000.0);
}

#[test]
fn test_get_latest() {
    let mut pulse = MarketPulse::new();
    pulse.ingest(tick("BTCUSD", 50000.0, 1.0, 1));
    pulse.ingest(tick("BTCUSD", 51000.0, 2.0, 2));
    let latest = pulse.get_latest("BTCUSD").unwrap();
    assert_eq!(latest.price, 51000.0);
}

#[test]
fn test_calculate_sma() {
    let mut pulse = MarketPulse::new();
    for i in 0..10 {
        pulse.ingest(tick("BTCUSD", 100.0 + i as f64, 1.0, i as u64));
    }
    let value = sma(&pulse, "BTCUSD", 5).unwrap();
    assert_eq!(value, 107.0);
    assert!(sma(&pulse, "BTCUSD", 15).is_none());
}

#[test]
fn test_get_volume_24h() {
    let mut pulse = MarketPulse::new();
    pulse.ingest(tick("BTCUSD", 50000.0, 1.0, 1));
    pulse.ingest(tick("BTCUSD", 51000.0, 2.0, 2));
    assert_eq!(total_volume(&pulse, "BTCUSD"), 3.0);
    assert_eq!(total_volume(&pulse, "ETHUSD"), 0.0);
}

#[test]
fn test_multiple_symbols() {
    let mut pulse = MarketPulse::new();
    pulse.ingest(tick("BTCUSD", 50000.0, 1.0, 1));
    pulse.ingest(tick("ETHUSD", 3000.0, 2.0, 1));
    let btc_latest = pulse.get_latest("BTCUSD").unwrap();
    let eth_latest = pulse.get_latest("ETHUSD").unwrap();
    assert_eq!(btc_latest.price, 50000.0);
    assert_eq!(eth_latest.price, 3000.0);
}

#[test]
fn test_sma_with_exact_period() {
    let mut pulse = MarketPulse::new();
    for i in 0..5 {
        pulse.ingest(tick("BTCUSD", 100.0 + i as f64, 1.0, i as u64));
    }
    let value = sma(&pulse, "BTCUSD", 5).unwrap();
    assert_eq!(value, 102.0);
}

#[test]
fn test_default_trait() {
    let pulse: MarketPulse<f64> = MarketPulse::default();
    assert_eq!(pulse.symbol_count(), 0);
}

#[test]
fn test_get_latest_empty() {
    let pulse: MarketPulse<f64> = MarketPulse::new();
    assert!(pulse.get_latest("BTCUSD").is_none());
}

#[test]
fn test_calculate_sma_empty() {
    let pulse: MarketPulse<f64> = MarketPulse::new();
    assert!(sma(&pulse, "BTCUSD", 5).is_none());
}

#[test]
fn test_full_trading_workflow() {
    let mut pulse = MarketPulse::new();
    let symbols = ["BTCUSD", "ETHUSD"];
    let base_prices = [50000.0, 3000.0];
    for i in 0..100 {
        let timestamp = SystemTime::now().duration_since(UNIX_EPOCH).unwrap().as_secs();
        for (idx, symbol) in symbols.iter().enumerate() {
            pulse.ingest(tick(symbol, base_prices[idx] + (i as f64 * 10.0), 1.0 + (i as f64 * 0.01), timestamp));
        }
    }

    let btc_latest = pulse.get_latest("BTCUSD").unwrap();
    assert_eq!(btc_latest.price, 50990.0);
    let btc_sma_10 = sma(&pulse, "BTCUSD", 10).unwrap();
    assert!(btc_sma_10 > 50900.0 && btc_sma_10 < 51000.0);
    let btc_volume = total_volume(&pulse, "BTCUSD");
    assert!(btc_volume > 0.0);

    let eth_latest = pulse.get_latest("ETHUSD").unwrap();
    assert_eq!(eth_latest.price, 3990.0);
    let eth_sma_20 = sma(&pulse, "ETHUSD", 20).unwrap();
    assert!(eth_sma_20 > 3800.0 && eth_sma_20 < 4000.0);
}

#[test]
fn test_sma_accuracy() {
    let mut pulse = MarketPulse::new();
    let prices = [100.0, 101.0, 102.0, 103.0, 104.0];
    for (i, price) in prices.iter().enumerate() {
        pulse.ingest(tick("TEST", *price, 1.0, i as u64));
    }
    assert_eq!(sma(&pulse, "TEST", 5).unwrap(), 102.0);
    assert_eq!(sma(&pulse, "TEST", 3).unwrap(), 103.0);
}

#[test]
fn test_concurrent_symbol_operations() {
    let mut pulse = MarketPulse::new();
    for i in 0..50 {
        pulse.ingest(tick("BTC", 50000.0 + i as f64, 1.0, i as u64));
        pulse.ingest(tick("ETH", 3000.0 + i as f64, 2.0, i as u64));
    }
    let btc_sma = sma(&pulse, "BTC", 10).unwrap();
    let eth_sma = sma(&pulse, "ETH", 10).unwrap();
    assert!(btc_sma > 50000.0);
    assert!(eth_sma > 3000.0);
    assert_ne!(btc_sma, eth_sma);
}

#[test]
fn test_volume_aggregation() {
    let mut pulse = MarketPulse::new();
    let volumes = [1.5, 2.3, 3.7, 4.2, 5.0];
    for (i, volume) in volumes.iter().enumerate() {
        pulse.ingest(tick("BTC", 50000.0, *volume, i as u64));
    }
    let expected: f64 = volumes.iter().sum();
    assert_eq!(total_volume(&pulse, "BTC"), expected);
}

#[test]
fn test_edge_cases() {
    let mut pulse = MarketPulse::new();
    pulse.ingest(tick("BTC", 50000.0, 1.0, 1));
    assert_eq!(sma(&pulse, "BTC", 1).unwrap(), 50000.0);
    assert!(sma(&pulse, "BTC", 1000).is_none());
    assert!(pulse.get_latest("XYZ").is_none());
    assert!(sma(&pulse, "XYZ", 5).is_none());
    assert_eq!(total_volume(&pulse, "XYZ"), 0.0);
}
