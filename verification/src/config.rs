//! Configuration of the risk engine: ledger connection parameters and the
//! thresholds of the rule checks.

use vstd::prelude::*;
use vstd::string::StringExecFns;

use crate::fixed_point::MICRO;
use crate::models::MAX_VALUE_MICROS;

verus! {

/// Connection parameters of one market deployment.
#[derive(Debug)]
pub struct CompoundConfig {
    /// Endpoint URL of the ledger.
    pub rpc_url: String,
    /// Address of the market contract, as hexadecimal text.
    pub comet_proxy_address: String,
    /// Address of the configurator contract, as hexadecimal text.
    pub configurator_address: String,
    /// Chain identifier of the network.
    pub chain_id: u64,
}

/// Mathematical view of a [`CompoundConfig`].
#[verifier::ext_equal]
pub ghost struct CompoundConfigModel {
    pub rpc_url: Seq<char>,
    pub comet_proxy_address: Seq<char>,
    pub configurator_address: Seq<char>,
    pub chain_id: int,
}

impl View for CompoundConfig {
    type V = CompoundConfigModel;

    open spec fn view(&self) -> CompoundConfigModel {
        CompoundConfigModel {
            rpc_url: self.rpc_url@,
            comet_proxy_address: self.comet_proxy_address@,
            configurator_address: self.configurator_address@,
            chain_id: self.chain_id as int,
        }
    }
}

impl Clone for CompoundConfig {
    fn clone(&self) -> (res: Self)
        ensures
            res@ == self@,
    {
        CompoundConfig {
            rpc_url: self.rpc_url.clone(),
            comet_proxy_address: self.comet_proxy_address.clone(),
            configurator_address: self.configurator_address.clone(),
            chain_id: self.chain_id,
        }
    }
}

/// Thresholds of the rule checks, in micros of one.
#[derive(Debug, Clone, Copy, PartialEq, Eq, Structural)]
pub struct RiskConfig {
    /// Utilization rate above which a market is flagged; lies strictly
    /// between zero and one.
    pub max_utilization_threshold: u128,
    /// Margin above a health factor of one within which a position is
    /// flagged as close to liquidation.
    pub liquidation_threshold_buffer: u128,
    /// Price volatility above which an asset would be flagged; declared for
    /// forward compatibility, no check reads it yet.
    pub max_price_volatility: u128,
}

impl RiskConfig {
    /// Well-formedness: the utilization threshold lies strictly between
    /// zero and one, and the remaining parameters are bounded.
    pub open spec fn wf(self) -> bool {
        &&& 0 < self.max_utilization_threshold < MICRO
        &&& self.liquidation_threshold_buffer <= MAX_VALUE_MICROS
        &&& self.max_price_volatility <= MAX_VALUE_MICROS
    }
}

/// Full configuration of the risk engine.
#[derive(Debug)]
pub struct Config {
    /// Ledger connection parameters.
    pub compound: CompoundConfig,
    /// Rule-check thresholds.
    pub risk: RiskConfig,
    /// Log level name for the surrounding application.
    pub log_level: String,
}

/// Mathematical view of a [`Config`].
#[verifier::ext_equal]
pub ghost struct ConfigModel {
    pub compound: CompoundConfigModel,
    pub risk: RiskConfig,
    pub log_level: Seq<char>,
}

impl View for Config {
    type V = ConfigModel;

    open spec fn view(&self) -> ConfigModel {
        ConfigModel { compound: self.compound@, risk: self.risk, log_level: self.log_level@ }
    }
}

impl Config {
    /// Well-formedness: the rule-check thresholds are well-formed.
    pub open spec fn wf(self) -> bool {
        self.risk.wf()
    }
}

impl Clone for Config {
    fn clone(&self) -> (res: Self)
        ensures
            res@ == self@,
    {
        Config {
            compound: self.compound.clone(),
            risk: self.risk,
            log_level: self.log_level.clone(),
        }
    }
}

impl Default for Config {
    /// The mainnet USDC market with a utilization threshold of `0.85`, a
    /// liquidation buffer of `0.05` and a volatility bound of `0.1`.
    fn default() -> (res: Self)
        ensures
            res@.compound.rpc_url == "https://eth-mainnet.alchemyapi.io/v2/demo"@,
            res@.compound.comet_proxy_address == "0xc3d688B66703497DAA19211EEdff47f25384cdc3"@,
            res@.compound.configurator_address == "0x316f9708bB98af7dA9c68C1C3b5e79039cD336E3"@,
            res@.compound.chain_id == 1,
            res@.risk == (RiskConfig {
                max_utilization_threshold: 850_000,
                liquidation_threshold_buffer: 50_000,
                max_price_volatility: 100_000,
            }),
            res@.log_level == "info"@,
            res.wf(),
    {
        Config {
            compound: CompoundConfig {
                rpc_url: String::from_str("https://eth-mainnet.alchemyapi.io/v2/demo"),
                comet_proxy_address: String::from_str("0xc3d688B66703497DAA19211EEdff47f25384cdc3"),
                configurator_address: String::from_str(
                    "0x316f9708bB98af7dA9c68C1C3b5e79039cD336E3",
                ),
                chain_id: 1,
            },
            risk: RiskConfig {
                max_utilization_threshold: 850_000,
                liquidation_threshold_buffer: 50_000,
                max_price_volatility: 100_000,
            },
            log_level: String::from_str("info"),
        }
    }
}

} // verus!
