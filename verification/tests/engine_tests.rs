use risk_engine::compound::CompoundClient;
use risk_engine::config::Config;
use risk_engine::errors::ConfigurationError;
use risk_engine::models::{Address, SnapshotSource};
use risk_engine::risk::RiskCategory;
use risk_engine::RiskEngine;

#[test]
fn test_default_config() {
    let config = Config::default();
    assert_eq!(config.compound.chain_id, 1);
    assert!(config.risk.max_utilization_threshold > 0);
}

#[test]
fn test_default_config_values() {
    let config = Config::default();
    assert_eq!(config.risk.max_utilization_threshold, 850_000);
    assert_eq!(config.risk.liquidation_threshold_buffer, 50_000);
    assert_eq!(config.risk.max_price_volatility, 100_000);
    assert_eq!(config.log_level, "info");
    assert_eq!(
        config.compound.comet_proxy_address,
        "0xc3d688B66703497DAA19211EEdff47f25384cdc3"
    );
}

#[test]
fn test_risk_engine_creation() {
    let config = Config::default();
    let engine = RiskEngine::new(config);
    assert!(engine.is_ok());
}

#[test]
fn test_risk_engine_rejects_bad_address() {
    let mut config = Config::default();
    config.compound.comet_proxy_address = "not an address".to_string();
    let engine = RiskEngine::new(config);
    assert!(matches!(engine, Err(ConfigurationError::InvalidAddress)));
}

#[test]
fn test_create_mock_market() {
    let config = Config::default();
    let client = CompoundClient::new(config).unwrap();
    let market = client.create_mock_market();

    assert_eq!(market.name, "USDC");
    assert_eq!(market.utilization_rate, 750_000);
    // fallback data carries its source tag, so it is never mistaken for live state
    assert_eq!(market.source, SnapshotSource::Fallback);
}

#[test]
fn test_mock_market_details() {
    let client = CompoundClient::new(Config::default()).unwrap();
    let market = client.create_mock_market();

    assert_eq!(market.base_asset.symbol, "USDC");
    assert_eq!(market.base_asset.decimals, 6);
    assert_eq!(market.base_asset.price, 1_000_000);
    assert_eq!(market.total_supply, 1_000_000_000_000_000);
    assert_eq!(market.total_borrow, 750_000_000_000_000);
    assert_eq!(market.collateral_assets.len(), 1);

    let weth = &market.collateral_assets[0];
    assert_eq!(weth.symbol, "WETH");
    assert_eq!(weth.decimals, 18);
    assert_eq!(weth.price, 2_000_000_000);
    assert_eq!(weth.collateral_factor, 825_000);
    assert_eq!(weth.liquidation_factor, 910_000);
    assert_eq!(weth.supply_cap, 10_000_000_000_000_000_000_000);
}

#[test]
fn test_get_markets_uses_cache() {
    let mut client = CompoundClient::new(Config::default()).unwrap();

    let first = client.get_markets(1_000).unwrap();
    assert_eq!(first.len(), 1);
    assert_eq!(first[0].utilization_rate, 750_000);

    // within the time-to-live the cached snapshot is served
    let second = client.get_markets(1_059).unwrap();
    assert_eq!(second.len(), 1);
    assert_eq!(second[0].name, first[0].name);

    // after it has elapsed a fresh snapshot is fetched and re-cached
    let third = client.get_markets(1_061).unwrap();
    assert_eq!(third.len(), 1);
    assert_eq!(third[0].utilization_rate, 750_000);
}

#[test]
fn test_get_user_position_mock_values() {
    let client = CompoundClient::new(Config::default()).unwrap();
    let market = client.create_mock_market();
    let user = Address { hi: 0x12345678, lo: 0x9 };

    let position = client.get_user_position(&market, user).unwrap();
    assert_eq!(position.address, user);
    assert_eq!(position.base_balance, 1_000_000_000); // 1000 USDC supplied
    assert_eq!(position.collateral_balances.len(), 1);
    assert_eq!(position.collateral_balances[0].1, 500_000); // 0.5 WETH
    assert_eq!(position.total_collateral_value, 1_000_000_000); // 0.5 * $2000
    assert_eq!(position.total_borrow_value, 0);
    assert_eq!(position.health_factor, 100_000_000);
}

#[test]
fn test_get_protocol_metrics_values() {
    let client = CompoundClient::new(Config::default()).unwrap();
    let market = client.create_mock_market();

    let metrics = client.get_protocol_metrics(&market).unwrap();
    assert_eq!(metrics.tvl, 1_000_000_000_000_000); // 1e9 USDC at $1
    assert_eq!(metrics.total_borrow, 750_000_000_000_000);
    assert_eq!(metrics.utilization_rate, 750_000);
    assert_eq!(metrics.suppliers_count, 1250);
    assert_eq!(metrics.borrowers_count, 750);
}

#[test]
fn test_assess_risks_calm_mock_market() {
    let mut engine = RiskEngine::new(Config::default()).unwrap();
    let assessments = engine.assess_risks(2_000).unwrap();

    assert_eq!(assessments.len(), 1);
    let a = &assessments[0];
    assert_eq!(a.market_name, "USDC");
    // mock utilization 0.75 sits below the 0.85 threshold
    assert!(a.findings.is_empty());
    assert_eq!(a.risk_score, 0);
    assert_eq!(a.timestamp, 2_000);
}

#[test]
fn test_assess_risks_flags_cached_market() {
    let mut engine = RiskEngine::new(Config::default()).unwrap();

    // populate the cache with a strained snapshot
    let mut strained = engine.compound.create_mock_market();
    strained.total_borrow = 950_000_000_000_000;
    strained.utilization_rate = 950_000;
    let key = engine.compound.comet_address;
    engine.compound.cache.put(key, strained, 3_000);

    let assessments = engine.assess_risks(3_010).unwrap();
    assert_eq!(assessments.len(), 1);
    let a = &assessments[0];
    assert_eq!(a.findings.len(), 1);
    assert_eq!(a.findings[0].category, RiskCategory::HighUtilization);
    assert_eq!(a.risk_score, 50); // Critical: 0.95 exceeds 0.85 + 0.10
}
