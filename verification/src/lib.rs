//! A risk-assessment library for a single Compound-style lending market.
//!
//! All monetary and rate quantities are fixed-point decimals held in integer
//! "micro" units: one unit of value is `1_000_000` micros, so `0.85` is
//! `850_000` micros and `100.0` is `100_000_000` micros. This keeps every
//! computation exact and lets each rule boundary be stated as an integer
//! comparison.
//!
//! [`RiskEngine`] composes the pieces: [`compound::CompoundClient`] acquires
//! and caches market snapshots, and [`risk::RiskProcessor`] evaluates the
//! rule checks over them.

use vstd::prelude::*;

pub mod cache;
pub mod compound;
pub mod config;
pub mod errors;
pub mod fixed_point;
pub mod models;
pub mod risk;
pub mod utils;

use crate::cache::SNAPSHOT_TTL_SECONDS;
use crate::compound::{mock_market_model, CompoundClient};
use crate::config::Config;
use crate::errors::{AcquisitionError, ConfigurationError};
use crate::models::{Market, MarketModel};
use crate::risk::{assessment_matches, RiskAssessment, RiskProcessor};
use crate::utils::{address_of_text, valid_address_text};

verus! {

/// Orchestrator of a risk assessment: fetches the known markets and runs
/// the rule checks over each.
pub struct RiskEngine {
    /// The engine configuration.
    pub config: Config,
    /// The market data source and its cache.
    pub compound: CompoundClient,
}

/// The market snapshot an engine serves at time `now`: the cached one while
/// it is live, otherwise the data source's.
pub open spec fn market_served(engine: RiskEngine, now: int) -> MarketModel {
    match engine.compound.cache.get_spec(engine.compound.comet_address, now) {
        Some(m) => m,
        None => mock_market_model(engine.compound.comet_address),
    }
}

impl RiskEngine {
    /// Well-formedness: the configuration and the client are well-formed.
    pub open spec fn wf(self) -> bool {
        &&& self.config.wf()
        &&& self.compound.wf()
    }

    /// Builds an engine from a configuration; a malformed market address is
    /// a `ConfigurationError`.
    pub fn new(config: Config) -> (r: Result<RiskEngine, ConfigurationError>)
        requires
            config.wf(),
        ensures
            r is Ok <==> valid_address_text(config@.compound.comet_proxy_address),
            r matches Ok(e) ==> {
                &&& e.wf()
                &&& e.config@ == config@
                &&& e.compound.comet_address == address_of_text(
                    config@.compound.comet_proxy_address,
                )
                &&& e.compound.cache.ttl_seconds == SNAPSHOT_TTL_SECONDS
                &&& e.compound.cache.contents() == Map::<
                    models::Address,
                    (MarketModel, int),
                >::empty()
            },
            r is Err ==> r == Err::<RiskEngine, ConfigurationError>(
                ConfigurationError::InvalidAddress,
            ),
    {
        let compound = match CompoundClient::new(config.clone()) {
            Ok(c) => c,
            Err(e) => {
                return Err(e);
            },
        };
        Ok(RiskEngine { config, compound })
    }

    /// Assesses every known market at time `now` — in this scope, the one
    /// configured market: the snapshot served (cached or fresh) is scored
    /// by the utilization check.
    pub fn assess_risks(&mut self, now: i64) -> (r: Result<Vec<RiskAssessment>, AcquisitionError>)
        requires
            old(self).wf(),
            now >= 0,
        ensures
            final(self).wf(),
            final(self).config == old(self).config,
            final(self).compound.comet_address == old(self).compound.comet_address,
            r matches Ok(v) && v@.len() == 1 && assessment_matches(
                v@[0]@,
                market_served(*old(self), now as int),
                old(self).config.risk.max_utilization_threshold as int,
                now as int,
            ),
            match old(self).compound.cache.get_spec(
                old(self).compound.comet_address,
                now as int,
            ) {
                Some(_) => final(self).compound.cache == old(self).compound.cache,
                None => final(self).compound.cache.contents() == old(
                    self,
                ).compound.cache.contents().insert(
                    old(self).compound.comet_address,
                    (mock_market_model(old(self).compound.comet_address), now as int),
                ),
            },
    {
        let markets = match self.compound.get_markets(now) {
            Ok(v) => v,
            Err(e) => {
                return Err(e);
            },
        };
        let assessment = match self.assess_market(&markets[0], now) {
            Ok(a) => a,
            Err(e) => {
                return Err(e);
            },
        };
        let mut assessments: Vec<RiskAssessment> = Vec::new();
        assessments.push(assessment);
        Ok(assessments)
    }

    /// Assesses one market at time `now` with a processor built from the
    /// engine's configuration.
    fn assess_market(&self, market: &Market, now: i64) -> (r: Result<
        RiskAssessment,
        AcquisitionError,
    >)
        requires
            self.config.wf(),
            market@.wf(),
        ensures
            r matches Ok(a) && assessment_matches(
                a@,
                market@,
                self.config.risk.max_utilization_threshold as int,
                now as int,
            ),
    {
        let processor = RiskProcessor::new(self.config.clone());
        processor.assess_market_at(market, now)
    }
}

} // verus!
