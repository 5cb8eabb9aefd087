use risk_engine::compound::{
    health_factor_value, position_from_balances, HEALTH_FACTOR_SENTINEL,
};
use risk_engine::config::Config;
use risk_engine::models::{compute_utilization, Address, Asset, AssetType, Market, SnapshotSource};
use risk_engine::risk::{
    MetaValue, RiskCategory, RiskFinding, RiskProcessor, RiskSeverity,
};

fn usdc_address() -> Address {
    Address {
        hi: 0xa0b86991,
        lo: 0xc6218b36c1d19d4a2e9eb0ce3606eb48,
    }
}

fn weth_address() -> Address {
    Address {
        hi: 0xC02aaA39,
        lo: 0xb223FE8D0A0e5C4F27eAD9083C756Cc2,
    }
}

fn comet_address() -> Address {
    Address {
        hi: 0xc3d688b6,
        lo: 0x6703497daa19211eedff47f25384cdc3,
    }
}

/// A market at ninety percent utilization with no collateral listed.
fn create_test_market() -> Market {
    let base_asset = Asset {
        address: usdc_address(),
        symbol: "USDC".to_string(),
        decimals: 6,
        price: 1_000_000,
        asset_type: AssetType::Base,
        collateral_factor: 0,
        liquidation_factor: 0,
        liquidation_penalty: 0,
        supply_cap: 0,
        borrow_cap: 0,
    };
    let total_supply: u128 = 1_000_000_000_000_000;
    let total_borrow: u128 = 900_000_000_000_000;
    Market {
        name: "USDC".to_string(),
        comet_address: comet_address(),
        base_asset,
        collateral_assets: Vec::new(),
        total_supply,
        total_borrow,
        utilization_rate: compute_utilization(total_supply, total_borrow),
        supply_apr: 50_000,
        borrow_apr: 80_000,
        base_tracking_supply_speed: 0,
        base_tracking_borrow_speed: 0,
        base_min_interest_rate: 0,
        base_max_interest_rate: 0,
        source: SnapshotSource::Ledger,
    }
}

/// The same market with one WETH collateral whose liquidation factor is
/// 0.825.
fn market_with_weth() -> Market {
    let mut market = create_test_market();
    market.collateral_assets.push(Asset {
        address: weth_address(),
        symbol: "WETH".to_string(),
        decimals: 18,
        price: 2_000_000_000,
        asset_type: AssetType::Collateral,
        collateral_factor: 825_000,
        liquidation_factor: 825_000,
        liquidation_penalty: 50_000,
        supply_cap: 10_000_000_000_000_000_000_000,
        borrow_cap: 0,
    });
    market
}

fn market_with_utilization(total_borrow: u128) -> Market {
    let mut market = create_test_market();
    market.total_borrow = total_borrow;
    market.utilization_rate = compute_utilization(market.total_supply, total_borrow);
    market
}

fn finding(category: RiskCategory, severity: RiskSeverity, description: &str) -> RiskFinding {
    RiskFinding {
        category,
        severity,
        description: description.to_string(),
        metadata: Vec::new(),
        timestamp: 0,
    }
}

#[test]
fn test_check_utilization() {
    let config = Config::default();
    let processor = RiskProcessor::new(config);
    let market = create_test_market();

    let mut findings = Vec::new();
    let now: i64 = 1_700_000_000;

    processor.check_utilization(&market, &mut findings, now);

    assert!(!findings.is_empty());
    assert_eq!(findings[0].category, RiskCategory::HighUtilization);
    assert_eq!(findings[0].severity, RiskSeverity::High);
}

#[test]
fn test_check_utilization_boundaries() {
    let processor = RiskProcessor::new(Config::default());
    let now: i64 = 0;

    // at exactly the threshold: no finding
    let mut findings = Vec::new();
    processor.check_utilization(&market_with_utilization(850_000_000_000_000), &mut findings, now);
    assert!(findings.is_empty());

    // at 0.90, exactly threshold + 0.05: High
    let mut findings = Vec::new();
    processor.check_utilization(&market_with_utilization(900_000_000_000_000), &mut findings, now);
    assert_eq!(findings[0].severity, RiskSeverity::High);

    // at 0.901: still High
    let mut findings = Vec::new();
    processor.check_utilization(&market_with_utilization(901_000_000_000_000), &mut findings, now);
    assert_eq!(findings[0].severity, RiskSeverity::High);

    // just below threshold + 0.05: Medium
    let mut findings = Vec::new();
    processor.check_utilization(&market_with_utilization(899_999_000_000_000), &mut findings, now);
    assert_eq!(findings[0].severity, RiskSeverity::Medium);

    // at threshold + 0.10 and above: Critical
    let mut findings = Vec::new();
    processor.check_utilization(&market_with_utilization(950_000_000_000_000), &mut findings, now);
    assert_eq!(findings[0].severity, RiskSeverity::Critical);
}

#[test]
fn test_check_utilization_description_and_metadata() {
    let processor = RiskProcessor::new(Config::default());
    let mut findings = Vec::new();
    processor.check_utilization(&create_test_market(), &mut findings, 0);

    let f = &findings[0];
    assert_eq!(
        f.description,
        "Market utilization is 90.00%, which exceeds the recommended threshold of 85.00%"
    );
    assert_eq!(f.metadata.len(), 5);
    assert_eq!(f.metadata[0].0, "current_utilization");
    assert!(matches!(f.metadata[0].1, MetaValue::Num(900_000)));
    assert_eq!(f.metadata[1].0, "threshold");
    assert!(matches!(f.metadata[1].1, MetaValue::Num(850_000)));
    assert_eq!(f.metadata[2].0, "base_asset");
    assert!(matches!(f.metadata[2].1, MetaValue::Text(ref s) if s == "USDC"));
}

#[test]
fn test_calculate_risk_score() {
    let config = Config::default();
    let processor = RiskProcessor::new(config);

    let findings = vec![
        finding(
            RiskCategory::HighUtilization,
            RiskSeverity::High,
            "Test finding",
        ),
        finding(
            RiskCategory::LiquidationCascade,
            RiskSeverity::Medium,
            "Test finding 2",
        ),
    ];

    let score = processor.calculate_risk_score(&findings);
    assert_eq!(score, 45); // 30 (High) + 15 (Medium) = 45
}

#[test]
fn test_risk_score_bounds() {
    let processor = RiskProcessor::new(Config::default());

    // no findings score zero
    assert_eq!(processor.calculate_risk_score(&Vec::new()), 0);

    // many critical findings cap at one hundred
    let findings: Vec<RiskFinding> = (0..5)
        .map(|_| finding(RiskCategory::HighUtilization, RiskSeverity::Critical, "x"))
        .collect();
    assert_eq!(processor.calculate_risk_score(&findings), 100);

    // one of each severity: 5 + 15 + 30 + 50 = 100
    let findings = vec![
        finding(RiskCategory::Concentration, RiskSeverity::Low, "a"),
        finding(RiskCategory::PriceVolatility, RiskSeverity::Medium, "b"),
        finding(RiskCategory::OracleReliability, RiskSeverity::High, "c"),
        finding(RiskCategory::SmartContractRisk, RiskSeverity::Critical, "d"),
    ];
    assert_eq!(processor.calculate_risk_score(&findings), 100);
}

#[test]
fn test_assess_market_at_flagged_market() {
    let processor = RiskProcessor::new(Config::default());
    let market = create_test_market();
    let assessment = processor.assess_market_at(&market, 123).unwrap();

    assert_eq!(assessment.market_name, "USDC");
    assert_eq!(assessment.market_address, comet_address());
    assert_eq!(assessment.findings.len(), 1);
    assert_eq!(assessment.findings[0].severity, RiskSeverity::High);
    assert_eq!(assessment.risk_score, 30);
    assert_eq!(assessment.timestamp, 123);
}

#[test]
fn test_assess_market_at_calm_market() {
    let processor = RiskProcessor::new(Config::default());
    let market = market_with_utilization(500_000_000_000_000);
    let assessment = processor.assess_market_at(&market, 5).unwrap();
    assert!(assessment.findings.is_empty());
    assert_eq!(assessment.risk_score, 0);
}

#[test]
fn test_assess_market_current_time() {
    // the clock decides only the timestamps: findings and score are those
    // of the explicit-time assessment
    let processor = RiskProcessor::new(Config::default());
    let market = create_test_market();
    let assessment = processor.assess_market(&market).unwrap();
    assert_eq!(assessment.findings.len(), 1);
    assert_eq!(assessment.findings[0].severity, RiskSeverity::High);
    assert_eq!(assessment.risk_score, 30);
}

#[test]
fn test_check_user_liquidation_risk_current_time() {
    let processor = RiskProcessor::new(Config::default());
    let market = market_with_weth();
    let position = position_from_balances(
        &market,
        Address { hi: 5, lo: 5 },
        -2_000_000_000,
        vec![(weth_address(), 1_000_000)],
    );
    let finding = processor.check_user_liquidation_risk(&position).unwrap();
    assert_eq!(finding.severity, RiskSeverity::Critical);
}

#[test]
fn test_simulate_market_conditions_current_time() {
    let processor = RiskProcessor::new(Config::default());
    let market = market_with_utilization(800_000_000_000_000);
    let findings = processor
        .simulate_market_conditions(&market, 100_000)
        .unwrap();
    assert_eq!(findings.len(), 1);
    // 0.90 sits exactly at threshold + 0.05: High, as the utilization check tiers it
    assert_eq!(findings[0].severity, RiskSeverity::High);
}

#[test]
fn test_simulate_market_conditions() {
    let processor = RiskProcessor::new(Config::default());

    // 0.80 utilization raised by 0.10: the simulated 0.90 exceeds the threshold
    let market = market_with_utilization(800_000_000_000_000);
    let findings = processor
        .simulate_market_conditions_at(&market, 100_000, 9)
        .unwrap();
    assert_eq!(findings.len(), 1);
    assert_eq!(findings[0].category, RiskCategory::HighUtilization);
    assert_eq!(findings[0].severity, RiskSeverity::High);
    assert_eq!(
        findings[0].description,
        "Simulated increase of 10.00% in utilization would result in 90.00% utilization, exceeding threshold"
    );

    // 0.70 utilization: the simulated 0.80 stays below the threshold
    let market = market_with_utilization(700_000_000_000_000);
    let findings = processor
        .simulate_market_conditions_at(&market, 100_000, 9)
        .unwrap();
    assert!(findings.is_empty());
}

#[test]
fn test_simulate_severity_follows_utilization_tiering() {
    let processor = RiskProcessor::new(Config::default());

    // 0.76 raised by 0.10 gives 0.86: above the threshold but below
    // threshold + 0.05, so Medium
    let market = market_with_utilization(760_000_000_000_000);
    let findings = processor
        .simulate_market_conditions_at(&market, 100_000, 9)
        .unwrap();
    assert_eq!(findings[0].severity, RiskSeverity::Medium);

    // a market already flagged at 0.90 raised by 0.10 gives 1.00, past
    // threshold + 0.10: Critical
    let market = market_with_utilization(900_000_000_000_000);
    let findings = processor
        .simulate_market_conditions_at(&market, 100_000, 9)
        .unwrap();
    assert_eq!(findings[0].severity, RiskSeverity::Critical);

    // a caller-supplied shift other than one tenth
    let market = market_with_utilization(800_000_000_000_000);
    let findings = processor
        .simulate_market_conditions_at(&market, 60_000, 9)
        .unwrap();
    assert_eq!(findings[0].severity, RiskSeverity::Medium);
    assert_eq!(
        findings[0].description,
        "Simulated increase of 6.00% in utilization would result in 86.00% utilization, exceeding threshold"
    );
    let findings = processor
        .simulate_market_conditions_at(&market, 40_000, 9)
        .unwrap();
    assert!(findings.is_empty());
}

#[test]
fn test_health_factor_scenario() {
    // one collateral unit priced at 2000 with liquidation factor 0.825
    // against 1000 borrowed: health factor (1.0 * 2000 * 0.825) / 1000 = 1.65
    let market = market_with_weth();
    let balances = vec![(weth_address(), 1_000_000u128)];
    let hf = health_factor_value(-1_000_000_000, &balances, &market);
    assert_eq!(hf, 1_650_000);
}

#[test]
fn test_liquidation_scenario_healthy_position() {
    // health factor 1.65 with buffer 0.05: 1.65 >= 1.05, so no finding
    let processor = RiskProcessor::new(Config::default());
    let market = market_with_weth();
    let position = position_from_balances(
        &market,
        Address { hi: 5, lo: 5 },
        -1_000_000_000,
        vec![(weth_address(), 1_000_000)],
    );
    assert_eq!(position.health_factor, 1_650_000);
    assert_eq!(position.total_borrow_value, 1_000_000_000);
    assert_eq!(position.total_collateral_value, 2_000_000_000);

    let finding = processor.check_user_liquidation_risk_at(&position, 0);
    assert!(finding.is_none());
}

#[test]
fn test_liquidation_severities() {
    let processor = RiskProcessor::new(Config::default());
    let market = market_with_weth();

    // borrow 1650 against one collateral unit: health factor exactly 1.0 -> High
    let position = position_from_balances(
        &market,
        Address { hi: 5, lo: 5 },
        -1_650_000_000,
        vec![(weth_address(), 1_000_000)],
    );
    assert_eq!(position.health_factor, 1_000_000);
    let f = processor.check_user_liquidation_risk_at(&position, 7).unwrap();
    assert_eq!(f.category, RiskCategory::LiquidationCascade);
    assert_eq!(f.severity, RiskSeverity::High);

    // borrow 2000: health factor 0.825 -> Critical
    let position = position_from_balances(
        &market,
        Address { hi: 5, lo: 5 },
        -2_000_000_000,
        vec![(weth_address(), 1_000_000)],
    );
    assert_eq!(position.health_factor, 825_000);
    let f = processor.check_user_liquidation_risk_at(&position, 7).unwrap();
    assert_eq!(f.severity, RiskSeverity::Critical);
    assert_eq!(
        f.description,
        "User position has a health factor of 0.83, which is close to or below the liquidation threshold"
    );

    // borrow 1600: health factor 1.03125, above 1 + buffer/2 = 1.025 -> Medium
    let position = position_from_balances(
        &market,
        Address { hi: 5, lo: 5 },
        -1_600_000_000,
        vec![(weth_address(), 1_000_000)],
    );
    assert_eq!(position.health_factor, 1_031_250);
    let f = processor.check_user_liquidation_risk_at(&position, 7).unwrap();
    assert_eq!(f.severity, RiskSeverity::Medium);
}

#[test]
fn test_health_factor_sentinel() {
    // nothing borrowed: the health factor is exactly 100.0
    let market = market_with_weth();
    let position = position_from_balances(
        &market,
        Address { hi: 5, lo: 5 },
        1_000_000_000,
        vec![(weth_address(), 500_000)],
    );
    assert_eq!(position.total_borrow_value, 0);
    assert_eq!(position.health_factor, HEALTH_FACTOR_SENTINEL);
    assert_eq!(position.health_factor, 100_000_000);

    // a zero base balance borrows nothing either
    let hf = health_factor_value(0, &vec![(weth_address(), 500_000)], &market);
    assert_eq!(hf, HEALTH_FACTOR_SENTINEL);
}

#[test]
fn test_position_drops_empty_balances() {
    let market = market_with_weth();
    let position = position_from_balances(
        &market,
        Address { hi: 5, lo: 5 },
        1_000_000,
        vec![(weth_address(), 0), (Address { hi: 9, lo: 9 }, 3)],
    );
    assert_eq!(position.collateral_balances.len(), 1);
    assert_eq!(position.collateral_balances[0].0, Address { hi: 9, lo: 9 });
    // an address the market does not list is kept but contributes no value
    assert_eq!(position.total_collateral_value, 0);
}
