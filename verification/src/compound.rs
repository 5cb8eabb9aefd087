//! Acquisition of market and position snapshots.
//!
//! The client serves snapshots out of a time-bounded cache and, on a miss,
//! from its data source. No ledger connection is configured in this scope:
//! the source is a deterministic fallback data set, stated exactly by
//! [`mock_market_model`], so every acquisition succeeds and is fully
//! specified.

use vstd::prelude::*;
use vstd::arithmetic::div_mod::{lemma_div_is_ordered, lemma_div_pos_is_pos};
use vstd::arithmetic::mul::{lemma_mul_nonnegative, lemma_mul_upper_bound};
use vstd::string::StringExecFns;

use crate::cache::{MarketSnapshotStore, SNAPSHOT_TTL_SECONDS};
use crate::config::Config;
use crate::errors::{AcquisitionError, ConfigurationError};
use crate::fixed_point::{round_div, MICRO};
use crate::models::{
    lookup_asset, Address, Asset, AssetModel, AssetType, Market, MarketModel, ProtocolMetrics,
    SnapshotSource, UserPosition, UserPositionModel, MAX_COLLATERAL_ASSETS, MAX_VALUE_MICROS,
};
use crate::models::{compute_utilization, find_asset};
use crate::utils::{address_of_text, parse_address, valid_address_text};

verus! {

/// Health factor reported when nothing is borrowed: effectively
/// unconstrained, not a real ratio.
pub const HEALTH_FACTOR_SENTINEL: u128 = 100_000_000;

/// Largest value one collateral entry can contribute, in micro-USD.
pub const MAX_COLLATERAL_TERM: u128 = 1_000_000_000_000_000_000_000_000_000_000;

/// Address of the base asset of the fallback data set.
pub open spec fn mock_base_address() -> Address {
    Address { hi: 0xA0b86991, lo: 0xc6218b36c1d19D4a2e9Eb0cE3606eB48 }
}

/// Address of the collateral asset of the fallback data set.
pub open spec fn mock_collateral_address() -> Address {
    Address { hi: 0xC02aaA39, lo: 0xb223FE8D0A0e5C4F27eAD9083C756Cc2 }
}

/// The base asset of the fallback data set.
pub open spec fn mock_base_asset() -> AssetModel {
    AssetModel {
        address: mock_base_address(),
        symbol: "USDC"@,
        decimals: 6,
        price: 1_000_000,
        asset_type: AssetType::Base,
        collateral_factor: 0,
        liquidation_factor: 0,
        liquidation_penalty: 0,
        supply_cap: 0,
        borrow_cap: 0,
    }
}

/// The collateral asset of the fallback data set.
pub open spec fn mock_collateral_asset() -> AssetModel {
    AssetModel {
        address: mock_collateral_address(),
        symbol: "WETH"@,
        decimals: 18,
        price: 2_000_000_000,
        asset_type: AssetType::Collateral,
        collateral_factor: 825_000,
        liquidation_factor: 910_000,
        liquidation_penalty: 50_000,
        supply_cap: 10_000_000_000_000_000_000_000,
        borrow_cap: 0,
    }
}

/// The market snapshot of the fallback data set.
pub open spec fn mock_market_model(comet_address: Address) -> MarketModel {
    MarketModel {
        name: "USDC"@,
        comet_address,
        base_asset: mock_base_asset(),
        collateral_assets: seq![mock_collateral_asset()],
        total_supply: 1_000_000_000_000_000,
        total_borrow: 750_000_000_000_000,
        utilization_rate: 750_000,
        supply_apr: 12_500,
        borrow_apr: 32_500,
        base_tracking_supply_speed: 0,
        base_tracking_borrow_speed: 0,
        base_min_interest_rate: 0,
        base_max_interest_rate: 0,
        source: SnapshotSource::Fallback,
    }
}

/// USD value, in micros, that one collateral entry contributes: its amount
/// times the asset's price, truncated to a micro; an address the market
/// does not list contributes nothing.
pub open spec fn asset_value(amount: int, market: MarketModel, addr: Address) -> int {
    match lookup_asset(market.collateral_assets, addr) {
        Some(a) => amount * a.price / (MICRO as int),
        None => 0,
    }
}

/// Liquidation-factor-weighted USD value, in micros, that one collateral
/// entry contributes.
pub open spec fn weighted_asset_value(amount: int, market: MarketModel, addr: Address) -> int {
    match lookup_asset(market.collateral_assets, addr) {
        Some(a) => ((amount * a.price) / (MICRO as int)) * a.liquidation_factor / (MICRO as int),
        None => 0,
    }
}

/// Total USD value, in micros, of a sequence of collateral balances.
pub open spec fn collateral_value_of(balances: Seq<(Address, int)>, market: MarketModel) -> int
    decreases balances.len(),
{
    if balances.len() == 0 {
        0
    } else {
        collateral_value_of(balances.drop_last(), market) + asset_value(
            balances.last().1,
            market,
            balances.last().0,
        )
    }
}

/// Total liquidation-factor-weighted USD value, in micros, of a sequence of
/// collateral balances.
pub open spec fn weighted_collateral_value(balances: Seq<(Address, int)>, market: MarketModel) -> int
    decreases balances.len(),
{
    if balances.len() == 0 {
        0
    } else {
        weighted_collateral_value(balances.drop_last(), market) + weighted_asset_value(
            balances.last().1,
            market,
            balances.last().0,
        )
    }
}

/// The entries with strictly positive balance, in order.
pub open spec fn positive_entries(balances: Seq<(Address, int)>) -> Seq<(Address, int)>
    decreases balances.len(),
{
    if balances.len() == 0 {
        Seq::empty()
    } else if balances.last().1 > 0 {
        positive_entries(balances.drop_last()).push(balances.last())
    } else {
        positive_entries(balances.drop_last())
    }
}

/// USD value borrowed, in micros: the negated base balance times the base
/// price when the balance is negative, zero otherwise.
pub open spec fn borrow_value_of(base_balance: int, base_price: int) -> int {
    if base_balance < 0 {
        (-base_balance) * base_price / (MICRO as int)
    } else {
        0
    }
}

/// Health factor, in micros: weighted collateral value over borrow value,
/// rounded to the nearest micro, or the sentinel when nothing is borrowed.
pub open spec fn health_factor_of(
    base_balance: int,
    balances: Seq<(Address, int)>,
    market: MarketModel,
) -> int {
    let borrow_value = borrow_value_of(base_balance, market.base_asset.price);
    if borrow_value > 0 {
        round_div(weighted_collateral_value(balances, market) * MICRO, borrow_value)
    } else {
        HEALTH_FACTOR_SENTINEL as int
    }
}

/// Health factor sentinel law: whenever nothing is borrowed — the borrow
/// value is zero — the health factor is exactly the sentinel `100.0`,
/// whatever the collateral holds.
pub proof fn lemma_health_factor_sentinel(
    base_balance: int,
    balances: Seq<(Address, int)>,
    market: MarketModel,
)
    requires
        borrow_value_of(base_balance, market.base_asset.price) == 0,
    ensures
        health_factor_of(base_balance, balances, market) == HEALTH_FACTOR_SENTINEL,
{
}

/// A looked-up collateral asset is one of the market's own.
proof fn lemma_lookup_wf(assets: Seq<AssetModel>, addr: Address)
    requires
        forall|i: int| 0 <= i < assets.len() ==> (#[trigger] assets[i]).wf(),
    ensures
        lookup_asset(assets, addr) matches Some(a) ==> a.wf(),
    decreases assets.len(),
{
    if assets.len() > 0 && assets[0].address != addr {
        assert(forall|i: int|
            0 <= i < assets.skip(1).len() ==> (#[trigger] assets.skip(1)[i]) == assets[i + 1]);
        lemma_lookup_wf(assets.skip(1), addr);
    }
}

/// Each collateral entry of a well-formed market contributes between zero
/// and `MAX_COLLATERAL_TERM` micro-USD, weighted or not.
proof fn lemma_term_bounds(amount: int, market: MarketModel, addr: Address)
    requires
        market.wf(),
        0 <= amount <= MAX_VALUE_MICROS,
    ensures
        0 <= asset_value(amount, market, addr) <= MAX_COLLATERAL_TERM,
        0 <= weighted_asset_value(amount, market, addr) <= MAX_COLLATERAL_TERM,
{
    lemma_lookup_wf(market.collateral_assets, addr);
    match lookup_asset(market.collateral_assets, addr) {
        Some(a) => {
            lemma_mul_nonnegative(amount, a.price);
            lemma_mul_upper_bound(amount, MAX_VALUE_MICROS as int, a.price, MAX_VALUE_MICROS as int);
            lemma_div_pos_is_pos(amount * a.price, MICRO as int);
            lemma_div_is_ordered(
                amount * a.price,
                MAX_VALUE_MICROS as int * MAX_VALUE_MICROS as int,
                MICRO as int,
            );
            let t1 = amount * a.price / (MICRO as int);
            assert(0 <= t1 <= MAX_COLLATERAL_TERM);
            lemma_mul_nonnegative(t1, a.liquidation_factor);
            lemma_mul_upper_bound(t1, MAX_COLLATERAL_TERM as int, a.liquidation_factor, MICRO as int);
            lemma_div_pos_is_pos(t1 * a.liquidation_factor, MICRO as int);
            lemma_div_is_ordered(
                t1 * a.liquidation_factor,
                MAX_COLLATERAL_TERM as int * MICRO as int,
                MICRO as int,
            );
        },
        None => {},
    }
}

/// The collateral sums of a well-formed market are non-negative and grow by
/// at most `MAX_COLLATERAL_TERM` per entry.
proof fn lemma_sum_bounds(balances: Seq<(Address, int)>, market: MarketModel)
    requires
        market.wf(),
        forall|i: int| 0 <= i < balances.len() ==> 0 <= (#[trigger] balances[i]).1 <= MAX_VALUE_MICROS,
    ensures
        0 <= collateral_value_of(balances, market) <= balances.len() * MAX_COLLATERAL_TERM,
        0 <= weighted_collateral_value(balances, market) <= balances.len() * MAX_COLLATERAL_TERM,
    decreases balances.len(),
{
    if balances.len() > 0 {
        lemma_sum_bounds(balances.drop_last(), market);
        lemma_term_bounds(balances.last().1, market, balances.last().0);
    }
}

/// Computes the health factor of a holding: the liquidation-factor-weighted
/// USD value of the collateral balances over the USD value borrowed, or the
/// sentinel when nothing is borrowed.
pub fn health_factor_value(
    base_balance: i128,
    balances: &Vec<(Address, u128)>,
    market: &Market,
) -> (hf: u128)
    requires
        market@.wf(),
        -(MAX_VALUE_MICROS as int) <= base_balance <= MAX_VALUE_MICROS as int,
        forall|i: int|
            0 <= i < balances@.len() ==> (#[trigger] balances@[i]).1 <= MAX_VALUE_MICROS,
        balances@.len() <= MAX_COLLATERAL_ASSETS,
    ensures
        hf as int == health_factor_of(
            base_balance as int,
            balances@.map_values(|p: (Address, u128)| (p.0, p.1 as int)),
            market@,
        ),
{
    let ghost model = balances@.map_values(|p: (Address, u128)| (p.0, p.1 as int));
    let weighted = weighted_collateral_total(balances, market);
    let borrow_value: u128 = if base_balance < 0 {
        proof {
            lemma_mul_nonnegative(-(base_balance as int), market@.base_asset.price);
            lemma_mul_upper_bound(
                -(base_balance as int),
                MAX_VALUE_MICROS as int,
                market@.base_asset.price,
                MAX_VALUE_MICROS as int,
            );
            lemma_div_pos_is_pos(-(base_balance as int) * market@.base_asset.price, MICRO as int);
            lemma_div_is_ordered(
                -(base_balance as int) * market@.base_asset.price,
                MAX_VALUE_MICROS as int * MAX_VALUE_MICROS as int,
                MICRO as int,
            );
        }
        ((-base_balance) as u128) * market.base_asset.price / MICRO
    } else {
        0
    };
    proof {
        assert(borrow_value as int == borrow_value_of(base_balance as int, market@.base_asset.price));
        lemma_sum_bounds(model, market@);
    }
    if borrow_value > 0 {
        (weighted * MICRO + borrow_value / 2) / borrow_value
    } else {
        HEALTH_FACTOR_SENTINEL
    }
}

/// Sums the liquidation-factor-weighted USD value of collateral balances.
fn weighted_collateral_total(balances: &Vec<(Address, u128)>, market: &Market) -> (total: u128)
    requires
        market@.wf(),
        forall|i: int|
            0 <= i < balances@.len() ==> (#[trigger] balances@[i]).1 <= MAX_VALUE_MICROS,
        balances@.len() <= MAX_COLLATERAL_ASSETS,
    ensures
        total as int == weighted_collateral_value(
            balances@.map_values(|p: (Address, u128)| (p.0, p.1 as int)),
            market@,
        ),
        total <= balances@.len() * MAX_COLLATERAL_TERM,
{
    let ghost model = balances@.map_values(|p: (Address, u128)| (p.0, p.1 as int));
    let mut total: u128 = 0;
    let mut i: usize = 0;
    proof {
        assert(model.take(0) =~= Seq::<(Address, int)>::empty());
    }
    while i < balances.len()
        invariant
            market@.wf(),
            forall|j: int|
                0 <= j < balances@.len() ==> (#[trigger] balances@[j]).1 <= MAX_VALUE_MICROS,
            balances@.len() <= MAX_COLLATERAL_ASSETS,
            model == balances@.map_values(|p: (Address, u128)| (p.0, p.1 as int)),
            i <= balances@.len(),
            total as int == weighted_collateral_value(model.take(i as int), market@),
            total <= i * MAX_COLLATERAL_TERM,
        decreases balances@.len() - i,
    {
        let (addr, amount) = balances[i];
        proof {
            assert(model.take(i as int + 1).drop_last() =~= model.take(i as int));
            assert(model.take(i as int + 1).last() == model[i as int]);
            lemma_term_bounds(amount as int, market@, addr);
        }
        let weighted = weighted_entry_value(amount, addr, market);
        total = total + weighted;
        i = i + 1;
    }
    proof {
        assert(model.take(balances@.len() as int) =~= model);
    }
    total
}

/// Liquidation-factor-weighted USD value of one collateral entry.
fn weighted_entry_value(amount: u128, addr: Address, market: &Market) -> (value: u128)
    requires
        market@.wf(),
        amount <= MAX_VALUE_MICROS,
    ensures
        value as int == weighted_asset_value(amount as int, market@, addr),
        value <= MAX_COLLATERAL_TERM,
{
    proof {
        lemma_term_bounds(amount as int, market@, addr);
    }
    match find_asset(&market.collateral_assets, addr) {
        Some(idx) => {
            let asset = &market.collateral_assets[idx];
            proof {
                lemma_lookup_wf(market@.collateral_assets, addr);
                lemma_mul_nonnegative(amount as int, asset@.price);
                lemma_mul_upper_bound(
                    amount as int,
                    MAX_VALUE_MICROS as int,
                    asset@.price,
                    MAX_VALUE_MICROS as int,
                );
                lemma_mul_nonnegative(
                    amount as int * asset@.price / (MICRO as int),
                    asset@.liquidation_factor,
                );
                lemma_div_pos_is_pos(amount as int * asset@.price, MICRO as int);
                lemma_div_is_ordered(
                    amount as int * asset@.price,
                    MAX_VALUE_MICROS as int * MAX_VALUE_MICROS as int,
                    MICRO as int,
                );
                lemma_mul_upper_bound(
                    amount as int * asset@.price / (MICRO as int),
                    MAX_COLLATERAL_TERM as int,
                    asset@.liquidation_factor,
                    MICRO as int,
                );
            }
            amount * asset.price / MICRO * asset.liquidation_factor / MICRO
        },
        None => 0,
    }
}

/// USD value of one collateral entry, unweighted.
fn entry_value(amount: u128, addr: Address, market: &Market) -> (value: u128)
    requires
        market@.wf(),
        amount <= MAX_VALUE_MICROS,
    ensures
        value as int == asset_value(amount as int, market@, addr),
        value <= MAX_COLLATERAL_TERM,
{
    proof {
        lemma_term_bounds(amount as int, market@, addr);
    }
    match find_asset(&market.collateral_assets, addr) {
        Some(idx) => {
            let asset = &market.collateral_assets[idx];
            proof {
                lemma_lookup_wf(market@.collateral_assets, addr);
                lemma_mul_nonnegative(amount as int, asset@.price);
                lemma_mul_upper_bound(
                    amount as int,
                    MAX_VALUE_MICROS as int,
                    asset@.price,
                    MAX_VALUE_MICROS as int,
                );
            }
            amount * asset.price / MICRO
        },
        None => 0,
    }
}

/// Builds a user position from its raw balances, as read from the data
/// source: entries with no balance are dropped, the USD totals are
/// accumulated from the market's prices, and the health factor is
/// recomputed from the kept balances.
pub fn position_from_balances(
    market: &Market,
    account: Address,
    base_balance: i128,
    balances: Vec<(Address, u128)>,
) -> (p: UserPosition)
    requires
        market@.wf(),
        -(MAX_VALUE_MICROS as int) <= base_balance <= MAX_VALUE_MICROS as int,
        forall|i: int|
            0 <= i < balances@.len() ==> (#[trigger] balances@[i]).1 <= MAX_VALUE_MICROS,
        balances@.len() <= MAX_COLLATERAL_ASSETS,
    ensures
        p@.address == account,
        p@.base_balance == base_balance as int,
        p@.collateral_balances == positive_entries(
            balances@.map_values(|q: (Address, u128)| (q.0, q.1 as int)),
        ),
        p@.total_collateral_value == collateral_value_of(p@.collateral_balances, market@),
        p@.total_borrow_value == borrow_value_of(base_balance as int, market@.base_asset.price),
        p@.health_factor == health_factor_of(
            base_balance as int,
            p@.collateral_balances,
            market@,
        ),
{
    let ghost model = balances@.map_values(|q: (Address, u128)| (q.0, q.1 as int));
    let mut kept: Vec<(Address, u128)> = Vec::new();
    let mut collateral_value: u128 = 0;
    let mut i: usize = 0;
    proof {
        assert(model.take(0) =~= Seq::<(Address, int)>::empty());
        assert(positive_entries(model.take(0)) =~= Seq::<(Address, int)>::empty());
        assert(kept@.map_values(|q: (Address, u128)| (q.0, q.1 as int)) =~= Seq::<(
            Address,
            int,
        )>::empty());
    }
    while i < balances.len()
        invariant
            market@.wf(),
            forall|j: int|
                0 <= j < balances@.len() ==> (#[trigger] balances@[j]).1 <= MAX_VALUE_MICROS,
            balances@.len() <= MAX_COLLATERAL_ASSETS,
            model == balances@.map_values(|q: (Address, u128)| (q.0, q.1 as int)),
            i <= balances@.len(),
            kept@.map_values(|q: (Address, u128)| (q.0, q.1 as int)) == positive_entries(
                model.take(i as int),
            ),
            kept@.len() <= i,
            forall|j: int| 0 <= j < kept@.len() ==> (#[trigger] kept@[j]).1 <= MAX_VALUE_MICROS,
            collateral_value as int == collateral_value_of(
                positive_entries(model.take(i as int)),
                market@,
            ),
            collateral_value <= i * MAX_COLLATERAL_TERM,
        decreases balances@.len() - i,
    {
        let (addr, amount) = balances[i];
        proof {
            assert(model.take(i as int + 1).drop_last() =~= model.take(i as int));
            assert(model.take(i as int + 1).last() == model[i as int]);
        }
        if amount > 0 {
            kept.push((addr, amount));
            proof {
                assert(kept@.map_values(|q: (Address, u128)| (q.0, q.1 as int)) =~= positive_entries(
                    model.take(i as int + 1),
                ));
                let pos = positive_entries(model.take(i as int + 1));
                assert(pos.drop_last() =~= positive_entries(model.take(i as int)));
                lemma_sum_bounds_positive(model.take(i as int), market@);
            }
            let value = entry_value(amount, addr, market);
            collateral_value = collateral_value + value;
        }
        i = i + 1;
    }
    proof {
        assert(model.take(balances@.len() as int) =~= model);
    }
    let ghost kept_model = positive_entries(model);
    let health_factor = health_factor_value(base_balance, &kept, market);
    let borrow_value: u128 = if base_balance < 0 {
        proof {
            lemma_mul_nonnegative(-(base_balance as int), market@.base_asset.price);
            lemma_mul_upper_bound(
                -(base_balance as int),
                MAX_VALUE_MICROS as int,
                market@.base_asset.price,
                MAX_VALUE_MICROS as int,
            );
            lemma_div_pos_is_pos(-(base_balance as int) * market@.base_asset.price, MICRO as int);
        }
        ((-base_balance) as u128) * market.base_asset.price / MICRO
    } else {
        0
    };
    let p = UserPosition {
        address: account,
        base_balance,
        collateral_balances: kept,
        total_collateral_value: collateral_value,
        total_borrow_value: borrow_value,
        health_factor,
    };
    proof {
        assert(p@.collateral_balances =~= kept_model);
    }
    p
}

/// The entries kept by `positive_entries` stay bounded by the bounds of the
/// entries they came from.
proof fn lemma_positive_entries_bounded(balances: Seq<(Address, int)>)
    requires
        forall|i: int|
            0 <= i < balances.len() ==> (#[trigger] balances[i]).1 <= MAX_VALUE_MICROS,
    ensures
        forall|i: int|
            0 <= i < positive_entries(balances).len() ==> 0 <= (#[trigger] positive_entries(
                balances,
            )[i]).1 <= MAX_VALUE_MICROS,
    decreases balances.len(),
{
    if balances.len() > 0 {
        lemma_positive_entries_bounded(balances.drop_last());
        let prior = positive_entries(balances.drop_last());
        if balances.last().1 > 0 {
            assert(positive_entries(balances) == prior.push(balances.last()));
            let pos = prior.push(balances.last());
            assert(balances.last() == balances[balances.len() - 1]);
            assert forall|i: int| 0 <= i < pos.len() implies 0 <= (#[trigger] pos[i]).1
                <= MAX_VALUE_MICROS by {
                if i < pos.len() - 1 {
                    assert(pos[i] == prior[i]);
                } else {
                    assert(pos[i] == balances.last());
                }
            }
        } else {
            assert(positive_entries(balances) == prior);
        }
    }
}

/// The positive entries of a bounded sequence have a bounded collateral
/// value.
proof fn lemma_sum_bounds_positive(balances: Seq<(Address, int)>, market: MarketModel)
    requires
        market.wf(),
        forall|i: int|
            0 <= i < balances.len() ==> (#[trigger] balances[i]).1 <= MAX_VALUE_MICROS,
    ensures
        0 <= collateral_value_of(positive_entries(balances), market) <= positive_entries(
            balances,
        ).len() * MAX_COLLATERAL_TERM,
{
    lemma_positive_entries_bounded(balances);
    lemma_sum_bounds(positive_entries(balances), market);
}

/// Client serving market snapshots and user positions.
pub struct CompoundClient {
    /// The engine configuration.
    pub config: Config,
    /// Address of the market contract.
    pub comet_address: Address,
    /// Cache of the last fetched snapshot.
    pub cache: MarketSnapshotStore,
}

impl CompoundClient {
    /// Well-formedness: the configuration and the cache are well-formed.
    pub open spec fn wf(self) -> bool {
        &&& self.config.wf()
        &&& self.cache.wf()
    }

    /// Builds a client for the market named by the configuration; a
    /// malformed market address is a `ConfigurationError`.
    pub fn new(config: Config) -> (r: Result<CompoundClient, ConfigurationError>)
        requires
            config.wf(),
        ensures
            r is Ok <==> valid_address_text(config@.compound.comet_proxy_address),
            r matches Ok(c) ==> {
                &&& c.wf()
                &&& c.config@ == config@
                &&& c.comet_address == address_of_text(config@.compound.comet_proxy_address)
                &&& c.cache.ttl_seconds == SNAPSHOT_TTL_SECONDS
                &&& c.cache.contents() == Map::<Address, (MarketModel, int)>::empty()
            },
            r is Err ==> r == Err::<CompoundClient, ConfigurationError>(
                ConfigurationError::InvalidAddress,
            ),
    {
        let comet_address = match parse_address(config.compound.comet_proxy_address.as_str()) {
            Ok(a) => a,
            Err(e) => {
                return Err(e);
            },
        };
        Ok(CompoundClient { config, comet_address, cache: MarketSnapshotStore::new() })
    }

    /// The fallback data set: one USDC market with WETH collateral, at
    /// seventy-five percent utilization.
    pub fn create_mock_market(&self) -> (m: Market)
        ensures
            m@ == mock_market_model(self.comet_address),
            m@.wf(),
    {
        let base_asset = Asset {
            address: Address { hi: 0xA0b86991, lo: 0xc6218b36c1d19D4a2e9Eb0cE3606eB48 },
            symbol: String::from_str("USDC"),
            decimals: 6,
            price: 1_000_000,
            asset_type: AssetType::Base,
            collateral_factor: 0,
            liquidation_factor: 0,
            liquidation_penalty: 0,
            supply_cap: 0,
            borrow_cap: 0,
        };
        let weth = Asset {
            address: Address { hi: 0xC02aaA39, lo: 0xb223FE8D0A0e5C4F27eAD9083C756Cc2 },
            symbol: String::from_str("WETH"),
            decimals: 18,
            price: 2_000_000_000,
            asset_type: AssetType::Collateral,
            collateral_factor: 825_000,
            liquidation_factor: 910_000,
            liquidation_penalty: 50_000,
            supply_cap: 10_000_000_000_000_000_000_000,
            borrow_cap: 0,
        };
        let mut collateral_assets: Vec<Asset> = Vec::new();
        collateral_assets.push(weth);
        let total_supply: u128 = 1_000_000_000_000_000;
        let total_borrow: u128 = 750_000_000_000_000;
        let utilization_rate = compute_utilization(total_supply, total_borrow);
        let m = Market {
            name: String::from_str("USDC"),
            comet_address: self.comet_address,
            base_asset,
            collateral_assets,
            total_supply,
            total_borrow,
            utilization_rate,
            supply_apr: 12_500,
            borrow_apr: 32_500,
            base_tracking_supply_speed: 0,
            base_tracking_borrow_speed: 0,
            base_min_interest_rate: 0,
            base_max_interest_rate: 0,
            source: SnapshotSource::Fallback,
        };
        proof {
            assert(m@.collateral_assets =~= seq![mock_collateral_asset()]);
            assert(m@ =~= mock_market_model(self.comet_address));
        }
        m
    }

    /// Serves the known markets — in this scope, the one configured market:
    /// the cached snapshot while it is live, otherwise a fresh snapshot
    /// from the data source, which is cached before it is returned.
    pub fn get_markets(&mut self, now: i64) -> (r: Result<Vec<Market>, AcquisitionError>)
        requires
            old(self).wf(),
            now >= 0,
        ensures
            final(self).wf(),
            final(self).comet_address == old(self).comet_address,
            final(self).config == old(self).config,
            final(self).cache.ttl_seconds == old(self).cache.ttl_seconds,
            r matches Ok(v) && {
                &&& v@.len() == 1
                &&& v@[0]@.wf()
                &&& match old(self).cache.get_spec(old(self).comet_address, now as int) {
                    Some(m) => {
                        &&& v@[0]@ == m
                        &&& final(self).cache == old(self).cache
                    },
                    None => {
                        &&& v@[0]@ == mock_market_model(old(self).comet_address)
                        &&& final(self).cache.contents() == old(self).cache.contents().insert(
                            old(self).comet_address,
                            (mock_market_model(old(self).comet_address), now as int),
                        )
                    },
                }
            },
    {
        let key = self.comet_address;
        match self.cache.get(key, now) {
            Some(cached) => {
                let mut v: Vec<Market> = Vec::new();
                v.push(cached);
                Ok(v)
            },
            None => {
                let market = self.create_mock_market();
                self.cache.put(key, market.clone(), now);
                let mut v: Vec<Market> = Vec::new();
                v.push(market);
                Ok(v)
            },
        }
    }

    /// Reads the account's position in the market from the data source: in
    /// the fallback data set, one thousand base units supplied and half a
    /// unit of WETH collateral.
    pub fn get_user_position(&self, market: &Market, user_address: Address) -> (r: Result<
        UserPosition,
        AcquisitionError,
    >)
        requires
            market@.wf(),
        ensures
            r matches Ok(p) && {
                &&& p@.address == user_address
                &&& p@.base_balance == 1_000_000_000
                &&& p@.collateral_balances == seq![(mock_collateral_address(), 500_000int)]
                &&& p@.total_collateral_value == collateral_value_of(
                    p@.collateral_balances,
                    market@,
                )
                &&& p@.total_borrow_value == 0
                &&& p@.health_factor == HEALTH_FACTOR_SENTINEL
            },
    {
        let weth_address = Address { hi: 0xC02aaA39, lo: 0xb223FE8D0A0e5C4F27eAD9083C756Cc2 };
        let mut balances: Vec<(Address, u128)> = Vec::new();
        balances.push((weth_address, 500_000));
        let ghost model = balances@.map_values(|q: (Address, u128)| (q.0, q.1 as int));
        proof {
            assert(model =~= seq![(mock_collateral_address(), 500_000int)]);
            assert(model.drop_last() =~= Seq::<(Address, int)>::empty());
            assert(positive_entries(model.drop_last()) =~= Seq::<(Address, int)>::empty());
            assert(model.last() == (mock_collateral_address(), 500_000int));
            assert(positive_entries(model) =~= seq![(mock_collateral_address(), 500_000int)]);
        }
        let p = position_from_balances(market, user_address, 1_000_000_000, balances);
        Ok(p)
    }

    /// Protocol metrics of a market: USD totals from the snapshot, with the
    /// participant counts and reserves of the data source.
    pub fn get_protocol_metrics(&self, market: &Market) -> (r: Result<
        ProtocolMetrics,
        AcquisitionError,
    >)
        requires
            market@.wf(),
        ensures
            r matches Ok(pm) && {
                &&& pm.tvl as int == market@.total_supply * market@.base_asset.price / (
                MICRO as int)
                &&& pm.total_borrow as int == market@.total_borrow * market@.base_asset.price / (
                MICRO as int)
                &&& pm.utilization_rate == market@.utilization_rate
                &&& pm.suppliers_count == 1250
                &&& pm.borrowers_count == 750
                &&& pm.reserves == 25_000_000_000_000u128
            },
    {
        proof {
            lemma_mul_nonnegative(market@.total_supply, market@.base_asset.price);
            lemma_mul_upper_bound(
                market@.total_supply,
                MAX_VALUE_MICROS as int,
                market@.base_asset.price,
                MAX_VALUE_MICROS as int,
            );
            lemma_mul_nonnegative(market@.total_borrow, market@.base_asset.price);
            lemma_mul_upper_bound(
                market@.total_borrow,
                MAX_VALUE_MICROS as int,
                market@.base_asset.price,
                MAX_VALUE_MICROS as int,
            );
        }
        let tvl = market.total_supply * market.base_asset.price / MICRO;
        let total_borrow = market.total_borrow * market.base_asset.price / MICRO;
        Ok(
            ProtocolMetrics {
                tvl,
                total_borrow,
                utilization_rate: market.utilization_rate,
                suppliers_count: 1250,
                borrowers_count: 750,
                reserves: 25_000_000_000_000,
            },
        )
    }

    /// Health factor of a holding against this market, exactly as
    /// [`health_factor_of`] states it.
    pub fn calculate_health_factor(
        &self,
        base_balance: i128,
        collateral_balances: &Vec<(Address, u128)>,
        market: &Market,
    ) -> (hf: u128)
        requires
            market@.wf(),
            -(MAX_VALUE_MICROS as int) <= base_balance <= MAX_VALUE_MICROS as int,
            forall|i: int|
                0 <= i < collateral_balances@.len() ==> (#[trigger] collateral_balances@[i]).1
                    <= MAX_VALUE_MICROS,
            collateral_balances@.len() <= MAX_COLLATERAL_ASSETS,
        ensures
            hf as int == health_factor_of(
                base_balance as int,
                collateral_balances@.map_values(|p: (Address, u128)| (p.0, p.1 as int)),
                market@,
            ),
    {
        health_factor_value(base_balance, collateral_balances, market)
    }
}

} // verus!
