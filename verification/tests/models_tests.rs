use risk_engine::errors::ConfigurationError;
use risk_engine::models::{
    compute_utilization, Address, Asset, AssetType, Market, SnapshotSource,
};
use risk_engine::utils::parse_address;

fn asset(
    address: Address,
    symbol: &str,
    decimals: u8,
    price: u128,
    asset_type: AssetType,
    collateral_factor: u128,
    liquidation_factor: u128,
    liquidation_penalty: u128,
    supply_cap: u128,
) -> Asset {
    Asset {
        address,
        symbol: symbol.to_string(),
        decimals,
        price,
        asset_type,
        collateral_factor,
        liquidation_factor,
        liquidation_penalty,
        supply_cap,
        borrow_cap: 0,
    }
}

#[test]
fn test_market_creation() {
    let base_asset = asset(
        parse_address("0xa0b86991c6218b36c1d19d4a2e9eb0ce3606eb48").unwrap(),
        "USDC",
        6,
        1_000_000,
        AssetType::Base,
        0,
        0,
        0,
        0,
    );

    let weth_address = parse_address("0xc02aaa39b223fe8d0a0e5c4f27ead9083c756cc2").unwrap();
    let weth_asset = asset(
        weth_address,
        "WETH",
        18,
        2_000_000_000,
        AssetType::Collateral,
        825_000,
        910_000,
        50_000,
        10_000_000_000_000_000_000_000, // 10,000 ETH
    );

    let total_supply: u128 = 1_000_000_000_000_000;
    let total_borrow: u128 = 500_000_000_000_000;
    let market = Market {
        name: "USDC".to_string(),
        comet_address: parse_address("0xc3d688b66703497daa19211eedff47f25384cdc3").unwrap(),
        base_asset,
        collateral_assets: vec![weth_asset],
        total_supply,
        total_borrow,
        utilization_rate: compute_utilization(total_supply, total_borrow),
        supply_apr: 12_500,
        borrow_apr: 32_500,
        base_tracking_supply_speed: 0,
        base_tracking_borrow_speed: 0,
        base_min_interest_rate: 0,
        base_max_interest_rate: 0,
        source: SnapshotSource::Ledger,
    };

    assert_eq!(market.name, "USDC");
    assert_eq!(market.utilization_rate, 500_000);
    assert_eq!(market.collateral_assets.len(), 1);
}

#[test]
fn test_compute_utilization_values() {
    // 90% utilization, exactly
    assert_eq!(
        compute_utilization(1_000_000_000_000_000, 900_000_000_000_000),
        900_000
    );
    // nothing supplied means zero utilization
    assert_eq!(compute_utilization(0, 900_000_000_000_000), 0);
    // rounding to the nearest micro
    assert_eq!(compute_utilization(3_000_000, 1_000_000), 333_333);
    assert_eq!(compute_utilization(3_000_000, 2_000_000), 666_667);
}

#[test]
fn test_annual_rate() {
    // a per-second rate of one micro over 31,536,000 seconds
    assert_eq!(risk_engine::models::annual_rate(1), 31_536_000);
    // a per-second rate of 0.0004 scales to 12,614.4 a year
    assert_eq!(risk_engine::models::annual_rate(400), 12_614_400_000);
}

#[test]
fn test_parse_address_with_prefix() {
    let a = parse_address("0x1234567890abcdef1234567890abcdef12345678").unwrap();
    assert_eq!(a.hi, 0x12345678);
    assert_eq!(a.lo, 0x90abcdef1234567890abcdef12345678);
}

#[test]
fn test_parse_address_without_prefix() {
    let a = parse_address("C02aaA39b223FE8D0A0e5C4F27eAD9083C756Cc2").unwrap();
    assert_eq!(a.hi, 0xC02aaA39);
    assert_eq!(a.lo, 0xb223FE8D0A0e5C4F27eAD9083C756Cc2);
}

#[test]
fn test_parse_address_mixed_case_matches_lowercase() {
    let a = parse_address("0xC02aaA39b223FE8D0A0e5C4F27eAD9083C756Cc2").unwrap();
    let b = parse_address("0xc02aaa39b223fe8d0a0e5c4f27ead9083c756cc2").unwrap();
    assert_eq!(a, b);
}

#[test]
fn test_parse_address_rejects_bad_input() {
    assert_eq!(
        parse_address("0x1234"),
        Err(ConfigurationError::InvalidAddress)
    );
    assert_eq!(parse_address(""), Err(ConfigurationError::InvalidAddress));
    assert_eq!(
        parse_address("0xz234567890abcdef1234567890abcdef12345678"),
        Err(ConfigurationError::InvalidAddress)
    );
    assert_eq!(
        parse_address("0x1234567890abcdef1234567890abcdef123456789"),
        Err(ConfigurationError::InvalidAddress)
    );
}
