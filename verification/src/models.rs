//! Domain values of a lending market: assets, market snapshots, user
//! positions and protocol metrics.
//!
//! Every decimal quantity is held in integer micros (see
//! [`crate::fixed_point`]). Each executable type has a ghost model — its
//! mathematical view — over which the contracts of the library speak.

use vstd::prelude::*;
use vstd::arithmetic::div_mod::{lemma_div_nonincreasing, lemma_div_pos_is_pos};

use crate::fixed_point::{round_div, MICRO};

verus! {

/// Largest decimal quantity, in micros, a snapshot field may hold; keeps
/// every product and sum in the library within `u128`.
pub const MAX_VALUE_MICROS: u128 = 1_000_000_000_000_000_000;

/// Largest number of collateral assets a market may list.
pub const MAX_COLLATERAL_ASSETS: usize = 64;

/// Seconds in one year, used to annualize per-second interest rates.
pub const SECONDS_PER_YEAR: u64 = 31_536_000;

/// A 160-bit account or contract identifier, split into its upper 32 and
/// lower 128 bits.
#[derive(Debug, Clone, Copy, PartialEq, Eq, Hash, Structural)]
pub struct Address {
    pub hi: u32,
    pub lo: u128,
}

impl Address {
    /// The identifier as a single 160-bit number.
    pub open spec fn value(self) -> int {
        self.hi as int * 0x100000000000000000000000000000000 + self.lo as int
    }
}

/// Role of an asset within a market.
#[derive(Debug, Clone, Copy, PartialEq, Eq, Structural)]
pub enum AssetType {
    /// The single asset that is supplied and borrowed.
    Base,
    /// An asset deposited to back borrowing of the base asset.
    Collateral,
}

/// A fungible token participating in a market.
#[derive(Debug)]
pub struct Asset {
    /// Token contract address.
    pub address: Address,
    /// Ticker symbol.
    pub symbol: String,
    /// Number of decimals of the token's raw representation.
    pub decimals: u8,
    /// USD price of one unit, in micros.
    pub price: u128,
    /// Role of the asset.
    pub asset_type: AssetType,
    /// Collateral factor in micros of one; zero for the base asset.
    pub collateral_factor: u128,
    /// Liquidation factor in micros of one; zero for the base asset.
    pub liquidation_factor: u128,
    /// Liquidation penalty in micros of one; zero for the base asset.
    pub liquidation_penalty: u128,
    /// Supply cap in raw token units.
    pub supply_cap: u128,
    /// Borrow cap in raw token units.
    pub borrow_cap: u128,
}

/// Mathematical view of an [`Asset`].
#[verifier::ext_equal]
pub ghost struct AssetModel {
    pub address: Address,
    pub symbol: Seq<char>,
    pub decimals: int,
    pub price: int,
    pub asset_type: AssetType,
    pub collateral_factor: int,
    pub liquidation_factor: int,
    pub liquidation_penalty: int,
    pub supply_cap: int,
    pub borrow_cap: int,
}

impl View for Asset {
    type V = AssetModel;

    open spec fn view(&self) -> AssetModel {
        AssetModel {
            address: self.address,
            symbol: self.symbol@,
            decimals: self.decimals as int,
            price: self.price as int,
            asset_type: self.asset_type,
            collateral_factor: self.collateral_factor as int,
            liquidation_factor: self.liquidation_factor as int,
            liquidation_penalty: self.liquidation_penalty as int,
            supply_cap: self.supply_cap as int,
            borrow_cap: self.borrow_cap as int,
        }
    }
}

impl AssetModel {
    /// Well-formedness: the price is bounded, the three risk factors lie in
    /// `[0, 1]`, and the base asset carries no risk parameters.
    pub open spec fn wf(self) -> bool {
        &&& 0 <= self.price <= MAX_VALUE_MICROS
        &&& 0 <= self.collateral_factor <= MICRO
        &&& 0 <= self.liquidation_factor <= MICRO
        &&& 0 <= self.liquidation_penalty <= MICRO
        &&& self.asset_type is Base ==> {
            &&& self.collateral_factor == 0
            &&& self.liquidation_factor == 0
            &&& self.liquidation_penalty == 0
        }
    }
}

impl Clone for Asset {
    fn clone(&self) -> (res: Self)
        ensures
            res@ == self@,
    {
        Asset {
            address: self.address,
            symbol: self.symbol.clone(),
            decimals: self.decimals,
            price: self.price,
            asset_type: self.asset_type,
            collateral_factor: self.collateral_factor,
            liquidation_factor: self.liquidation_factor,
            liquidation_penalty: self.liquidation_penalty,
            supply_cap: self.supply_cap,
            borrow_cap: self.borrow_cap,
        }
    }
}

/// Where a market snapshot came from, so fallback data is never mistaken
/// for live state.
#[derive(Debug, Clone, Copy, PartialEq, Eq, Structural)]
pub enum SnapshotSource {
    /// Read from the remote ledger.
    Ledger,
    /// Taken from the deterministic fallback data set.
    Fallback,
}

/// The state of one lending market at a point in time.
#[derive(Debug)]
pub struct Market {
    /// Market name.
    pub name: String,
    /// Address of the market contract.
    pub comet_address: Address,
    /// The base asset.
    pub base_asset: Asset,
    /// Collateral assets, with pairwise distinct addresses.
    pub collateral_assets: Vec<Asset>,
    /// Total supplied base asset, in micros of base units.
    pub total_supply: u128,
    /// Total borrowed base asset, in micros of base units.
    pub total_borrow: u128,
    /// `total_borrow / total_supply` in micros, zero when nothing is
    /// supplied; always recomputed, never set independently.
    pub utilization_rate: u128,
    /// Annualized supply rate, in micros of one.
    pub supply_apr: u128,
    /// Annualized borrow rate, in micros of one.
    pub borrow_apr: u128,
    /// Raw base tracking supply speed.
    pub base_tracking_supply_speed: u128,
    /// Raw base tracking borrow speed.
    pub base_tracking_borrow_speed: u128,
    /// Raw lower interest-rate bound.
    pub base_min_interest_rate: u128,
    /// Raw upper interest-rate bound.
    pub base_max_interest_rate: u128,
    /// Where the snapshot came from.
    pub source: SnapshotSource,
}

/// Mathematical view of a [`Market`].
#[verifier::ext_equal]
pub ghost struct MarketModel {
    pub name: Seq<char>,
    pub comet_address: Address,
    pub base_asset: AssetModel,
    pub collateral_assets: Seq<AssetModel>,
    pub total_supply: int,
    pub total_borrow: int,
    pub utilization_rate: int,
    pub supply_apr: int,
    pub borrow_apr: int,
    pub base_tracking_supply_speed: int,
    pub base_tracking_borrow_speed: int,
    pub base_min_interest_rate: int,
    pub base_max_interest_rate: int,
    pub source: SnapshotSource,
}

impl View for Market {
    type V = MarketModel;

    open spec fn view(&self) -> MarketModel {
        MarketModel {
            name: self.name@,
            comet_address: self.comet_address,
            base_asset: self.base_asset@,
            collateral_assets: self.collateral_assets@.map_values(|a: Asset| a@),
            total_supply: self.total_supply as int,
            total_borrow: self.total_borrow as int,
            utilization_rate: self.utilization_rate as int,
            supply_apr: self.supply_apr as int,
            borrow_apr: self.borrow_apr as int,
            base_tracking_supply_speed: self.base_tracking_supply_speed as int,
            base_tracking_borrow_speed: self.base_tracking_borrow_speed as int,
            base_min_interest_rate: self.base_min_interest_rate as int,
            base_max_interest_rate: self.base_max_interest_rate as int,
            source: self.source,
        }
    }
}

/// The utilization rate, in micros: `borrow / supply` rounded to the
/// nearest micro when anything is supplied, zero otherwise.
pub open spec fn utilization_of(supply: int, borrow: int) -> int {
    if supply > 0 {
        round_div(borrow * MICRO, supply)
    } else {
        0
    }
}

impl MarketModel {
    /// Well-formedness: the base asset is a well-formed `Base` asset, every
    /// collateral asset is a well-formed `Collateral` asset, collateral
    /// addresses are pairwise distinct, the totals are bounded, and the
    /// utilization rate is exactly the one recomputed from the totals.
    pub open spec fn wf(self) -> bool {
        &&& self.base_asset.wf()
        &&& self.base_asset.asset_type is Base
        &&& forall|i: int|
            0 <= i < self.collateral_assets.len() ==> {
                &&& (#[trigger] self.collateral_assets[i]).wf()
                &&& self.collateral_assets[i].asset_type is Collateral
            }
        &&& forall|i: int, j: int|
            0 <= i < j < self.collateral_assets.len()
                ==> (#[trigger] self.collateral_assets[i]).address != (
            #[trigger] self.collateral_assets[j]).address
        &&& self.collateral_assets.len() <= MAX_COLLATERAL_ASSETS
        &&& 0 <= self.total_supply <= MAX_VALUE_MICROS
        &&& 0 <= self.total_borrow <= MAX_VALUE_MICROS
        &&& 0 <= self.supply_apr <= MAX_VALUE_MICROS
        &&& 0 <= self.borrow_apr <= MAX_VALUE_MICROS
        &&& self.utilization_rate == utilization_of(self.total_supply, self.total_borrow)
    }
}

impl Market {
    /// Well-formedness of the snapshot, stated on its model.
    pub open spec fn wf(self) -> bool {
        self@.wf()
    }
}

impl Clone for Market {
    fn clone(&self) -> (res: Self)
        ensures
            res@ == self@,
    {
        let res = Market {
            name: self.name.clone(),
            comet_address: self.comet_address,
            base_asset: self.base_asset.clone(),
            collateral_assets: clone_assets(&self.collateral_assets),
            total_supply: self.total_supply,
            total_borrow: self.total_borrow,
            utilization_rate: self.utilization_rate,
            supply_apr: self.supply_apr,
            borrow_apr: self.borrow_apr,
            base_tracking_supply_speed: self.base_tracking_supply_speed,
            base_tracking_borrow_speed: self.base_tracking_borrow_speed,
            base_min_interest_rate: self.base_min_interest_rate,
            base_max_interest_rate: self.base_max_interest_rate,
            source: self.source,
        };
        proof {
            assert(res@.collateral_assets =~= self@.collateral_assets);
            assert(res@ =~= self@);
        }
        res
    }
}

/// Copies a vector of assets, preserving each asset's model.
fn clone_assets(assets: &Vec<Asset>) -> (res: Vec<Asset>)
    ensures
        res@.len() == assets@.len(),
        forall|i: int| 0 <= i < assets@.len() ==> (#[trigger] res@[i])@ == assets@[i]@,
{
    let mut res: Vec<Asset> = Vec::new();
    let mut i: usize = 0;
    while i < assets.len()
        invariant
            i <= assets@.len(),
            res@.len() == i,
            forall|j: int| 0 <= j < i ==> (#[trigger] res@[j])@ == assets@[j]@,
        decreases assets@.len() - i,
    {
        res.push(assets[i].clone());
        i = i + 1;
    }
    res
}

/// First collateral asset with the given address, if any.
pub open spec fn lookup_asset(assets: Seq<AssetModel>, addr: Address) -> Option<AssetModel>
    decreases assets.len(),
{
    if assets.len() == 0 {
        None
    } else if assets[0].address == addr {
        Some(assets[0])
    } else {
        lookup_asset(assets.skip(1), addr)
    }
}

/// Finds the index of the collateral asset with the given address.
pub fn find_asset(assets: &Vec<Asset>, addr: Address) -> (r: Option<usize>)
    ensures
        match r {
            Some(i) => i < assets@.len() && lookup_asset(
                assets@.map_values(|a: Asset| a@),
                addr,
            ) == Some(assets@[i as int]@),
            None => lookup_asset(assets@.map_values(|a: Asset| a@), addr) is None,
        },
{
    let ghost models = assets@.map_values(|a: Asset| a@);
    proof {
        assert(models.skip(0) =~= models);
    }
    let mut i: usize = 0;
    while i < assets.len()
        invariant
            i <= assets@.len(),
            models == assets@.map_values(|a: Asset| a@),
            lookup_asset(models, addr) == lookup_asset(models.skip(i as int), addr),
        decreases assets@.len() - i,
    {
        if address_eq(&assets[i].address, &addr) {
            proof {
                assert(models.skip(i as int)[0] == models[i as int]);
            }
            return Some(i);
        }
        proof {
            assert(models.skip(i as int).skip(1) =~= models.skip(i as int + 1));
            assert(models.skip(i as int)[0] == models[i as int]);
        }
        i = i + 1;
    }
    proof {
        assert(models.skip(i as int).len() == 0);
    }
    None
}

/// Compares two addresses.
pub fn address_eq(a: &Address, b: &Address) -> (r: bool)
    ensures
        r == (a == b),
{
    a.hi == b.hi && a.lo == b.lo
}

/// The utilization rate of bounded totals is itself bounded.
pub proof fn lemma_utilization_bounds(supply: int, borrow: int)
    requires
        0 <= supply <= MAX_VALUE_MICROS,
        0 <= borrow <= MAX_VALUE_MICROS,
    ensures
        0 <= utilization_of(supply, borrow) <= 2_000_000_000_000_000_000_000_000,
{
    if supply > 0 {
        let num = borrow * (MICRO as int) + supply / 2;
        lemma_div_pos_is_pos(num, supply);
        lemma_div_nonincreasing(num, supply);
    }
}

/// Computes the utilization rate of a market from its totals.
pub fn compute_utilization(total_supply: u128, total_borrow: u128) -> (r: u128)
    requires
        total_supply <= MAX_VALUE_MICROS,
        total_borrow <= MAX_VALUE_MICROS,
    ensures
        r as int == utilization_of(total_supply as int, total_borrow as int),
{
    if total_supply == 0 {
        0
    } else {
        (total_borrow * MICRO + total_supply / 2) / total_supply
    }
}

/// Annualizes a per-second interest rate given in micros of one.
pub fn annual_rate(per_second_rate: u128) -> (r: u128)
    requires
        per_second_rate * SECONDS_PER_YEAR <= u128::MAX,
    ensures
        r as int == per_second_rate as int * SECONDS_PER_YEAR as int,
{
    per_second_rate * (SECONDS_PER_YEAR as u128)
}

/// A single account's exposure within one market.
#[derive(Debug)]
pub struct UserPosition {
    /// Account address.
    pub address: Address,
    /// Net base-asset balance in micros: positive when supplying, negative
    /// when borrowing.
    pub base_balance: i128,
    /// Collateral amounts by asset address, in micros of asset units; only
    /// strictly positive balances are listed.
    pub collateral_balances: Vec<(Address, u128)>,
    /// USD value of all collateral, in micros.
    pub total_collateral_value: u128,
    /// USD value of the borrow, in micros.
    pub total_borrow_value: u128,
    /// Ratio of liquidation-factor-weighted collateral value to borrow
    /// value, in micros; the sentinel `100.0` when nothing is borrowed.
    pub health_factor: u128,
}

/// Mathematical view of a [`UserPosition`].
#[verifier::ext_equal]
pub ghost struct UserPositionModel {
    pub address: Address,
    pub base_balance: int,
    pub collateral_balances: Seq<(Address, int)>,
    pub total_collateral_value: int,
    pub total_borrow_value: int,
    pub health_factor: int,
}

impl View for UserPosition {
    type V = UserPositionModel;

    open spec fn view(&self) -> UserPositionModel {
        UserPositionModel {
            address: self.address,
            base_balance: self.base_balance as int,
            collateral_balances: self.collateral_balances@.map_values(
                |p: (Address, u128)| (p.0, p.1 as int),
            ),
            total_collateral_value: self.total_collateral_value as int,
            total_borrow_value: self.total_borrow_value as int,
            health_factor: self.health_factor as int,
        }
    }
}

impl UserPositionModel {
    /// The position's USD totals and health factor fit a signed machine
    /// word, so they can be carried in finding metadata.
    pub open spec fn bounded(self) -> bool {
        &&& self.total_collateral_value <= i128::MAX
        &&& self.total_borrow_value <= i128::MAX
        &&& self.health_factor <= i128::MAX
    }
}

impl Clone for UserPosition {
    fn clone(&self) -> (res: Self)
        ensures
            res@ == self@,
    {
        let res = UserPosition {
            address: self.address,
            base_balance: self.base_balance,
            collateral_balances: clone_balances(&self.collateral_balances),
            total_collateral_value: self.total_collateral_value,
            total_borrow_value: self.total_borrow_value,
            health_factor: self.health_factor,
        };
        proof {
            assert(res@.collateral_balances =~= self@.collateral_balances);
            assert(res@ =~= self@);
        }
        res
    }
}

/// Copies a vector of collateral balances.
fn clone_balances(balances: &Vec<(Address, u128)>) -> (res: Vec<(Address, u128)>)
    ensures
        res@ == balances@,
{
    let mut res: Vec<(Address, u128)> = Vec::new();
    let mut i: usize = 0;
    while i < balances.len()
        invariant
            i <= balances@.len(),
            res@ == balances@.subrange(0, i as int),
        decreases balances@.len() - i,
    {
        let (addr, amount) = balances[i];
        res.push((addr, amount));
        proof {
            assert(res@ =~= balances@.subrange(0, i as int + 1));
        }
        i = i + 1;
    }
    proof {
        assert(res@ =~= balances@);
    }
    res
}

/// Protocol-level metrics of one market.
#[derive(Debug, Clone, Copy, PartialEq, Eq, Structural)]
pub struct ProtocolMetrics {
    /// Total value locked, in micro-USD.
    pub tvl: u128,
    /// Total borrowed value, in micro-USD.
    pub total_borrow: u128,
    /// Utilization rate, in micros.
    pub utilization_rate: u128,
    /// Number of active suppliers.
    pub suppliers_count: u64,
    /// Number of active borrowers.
    pub borrowers_count: u64,
    /// Reserves in micros of base units.
    pub reserves: u128,
}

/// Price movement of one asset over time.
#[derive(Debug)]
pub struct PriceHistory {
    /// Token contract address.
    pub asset_address: Address,
    /// Ticker symbol.
    pub symbol: String,
    /// Timestamped USD prices, in micros.
    pub price_points: Vec<(i64, u128)>,
    /// Price change over one day, in micros of one; may be negative.
    pub price_change_24h: i128,
    /// Price change over seven days, in micros of one; may be negative.
    pub price_change_7d: i128,
    /// Thirty-day volatility, in micros of one.
    pub volatility_30d: u128,
}

} // verus!
