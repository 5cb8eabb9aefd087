//! The risk-scoring engine: independent rule checks against one market
//! snapshot or one user position, ordered findings, and a bounded score.
//!
//! Boundary conventions, chosen once and used throughout: a market is
//! flagged when its utilization rate strictly exceeds the threshold, and a
//! severity step is reached at its boundary, so utilization `0.90` against
//! threshold `0.85` is `High`. A position is flagged while its health
//! factor is strictly below one plus the buffer, with strict comparisons at
//! the severity steps; an odd buffer has its half truncated to a micro.

use vstd::prelude::*;
use vstd::string::StringExecFns;

use crate::config::Config;
use crate::errors::AcquisitionError;
use crate::fixed_point::MICRO;
use crate::models::{
    lemma_utilization_bounds, utilization_of, Address, Market, MarketModel, UserPosition,
    UserPositionModel, MAX_VALUE_MICROS,
};
use crate::utils::{percent_chars, percent_string, unit_chars, unit_string};

verus! {

/// Severity of one finding, in ascending order.
#[derive(Debug, Clone, Copy, PartialEq, Eq, Structural)]
pub enum RiskSeverity {
    /// No significant risk identified.
    Low,
    /// Potential risk that should be monitored.
    Medium,
    /// High risk that requires attention.
    High,
    /// Critical risk that requires immediate action.
    Critical,
}

/// Category of one finding. Only the utilization and liquidation checks
/// are implemented in this scope; the remaining categories keep the schema
/// forward-compatible.
#[derive(Debug, Clone, Copy, PartialEq, Eq, Structural)]
pub enum RiskCategory {
    /// Market utilization is too high.
    HighUtilization,
    /// Asset price volatility is concerning.
    PriceVolatility,
    /// Too much value concentrated in few accounts.
    Concentration,
    /// Liquidation cascade risk.
    LiquidationCascade,
    /// Oracle reliability issues.
    OracleReliability,
    /// Smart contract vulnerability or issue.
    SmartContractRisk,
}

/// One structured metadata value of a finding.
#[derive(Debug, Clone)]
pub enum MetaValue {
    /// A quantity in micros.
    Num(i128),
    /// A piece of text, such as an asset symbol.
    Text(String),
}

/// Mathematical view of a [`MetaValue`].
#[verifier::ext_equal]
pub ghost enum MetaValueModel {
    Num(int),
    Text(Seq<char>),
}

impl View for MetaValue {
    type V = MetaValueModel;

    open spec fn view(&self) -> MetaValueModel {
        match self {
            MetaValue::Num(n) => MetaValueModel::Num(*n as int),
            MetaValue::Text(s) => MetaValueModel::Text(s@),
        }
    }
}

/// One rule violation.
#[derive(Debug, Clone)]
pub struct RiskFinding {
    /// Category of the violated rule.
    pub category: RiskCategory,
    /// Severity of the violation.
    pub severity: RiskSeverity,
    /// Human-readable description.
    pub description: String,
    /// Structured key/value context of the rule.
    pub metadata: Vec<(String, MetaValue)>,
    /// Unix time, in seconds, at which the risk was identified.
    pub timestamp: i64,
}

/// Mathematical view of a [`RiskFinding`].
#[verifier::ext_equal]
pub ghost struct RiskFindingModel {
    pub category: RiskCategory,
    pub severity: RiskSeverity,
    pub description: Seq<char>,
    pub metadata: Seq<(Seq<char>, MetaValueModel)>,
    pub timestamp: int,
}

impl View for RiskFinding {
    type V = RiskFindingModel;

    open spec fn view(&self) -> RiskFindingModel {
        RiskFindingModel {
            category: self.category,
            severity: self.severity,
            description: self.description@,
            metadata: self.metadata@.map_values(|p: (String, MetaValue)| (p.0@, p.1@)),
            timestamp: self.timestamp as int,
        }
    }
}

/// The per-market scoring result.
#[derive(Debug, Clone)]
pub struct RiskAssessment {
    /// Market name.
    pub market_name: String,
    /// Market address.
    pub market_address: Address,
    /// Findings, in rule-evaluation order.
    pub findings: Vec<RiskFinding>,
    /// Overall risk score, from zero to one hundred; higher is riskier.
    pub risk_score: u8,
    /// Unix time, in seconds, of the assessment.
    pub timestamp: i64,
}

/// Mathematical view of a [`RiskAssessment`].
#[verifier::ext_equal]
pub ghost struct RiskAssessmentModel {
    pub market_name: Seq<char>,
    pub market_address: Address,
    pub findings: Seq<RiskFindingModel>,
    pub risk_score: int,
    pub timestamp: int,
}

impl View for RiskAssessment {
    type V = RiskAssessmentModel;

    open spec fn view(&self) -> RiskAssessmentModel {
        RiskAssessmentModel {
            market_name: self.market_name@,
            market_address: self.market_address,
            findings: self.findings@.map_values(|f: RiskFinding| f@),
            risk_score: self.risk_score as int,
            timestamp: self.timestamp as int,
        }
    }
}

/// Score weight of one severity.
pub open spec fn severity_weight(s: RiskSeverity) -> int {
    match s {
        RiskSeverity::Low => 5,
        RiskSeverity::Medium => 15,
        RiskSeverity::High => 30,
        RiskSeverity::Critical => 50,
    }
}

/// Position of one severity in the severity order.
pub open spec fn severity_rank(s: RiskSeverity) -> int {
    match s {
        RiskSeverity::Low => 0,
        RiskSeverity::Medium => 1,
        RiskSeverity::High => 2,
        RiskSeverity::Critical => 3,
    }
}

/// Sum of the severity weights of a sequence of findings.
pub open spec fn weight_sum(severities: Seq<RiskSeverity>) -> int
    decreases severities.len(),
{
    if severities.len() == 0 {
        0
    } else {
        weight_sum(severities.drop_last()) + severity_weight(severities.last())
    }
}

/// The risk score of a sequence of findings: the sum of their severity
/// weights, capped at one hundred.
pub open spec fn score_of(severities: Seq<RiskSeverity>) -> int {
    if weight_sum(severities) < 100 {
        weight_sum(severities)
    } else {
        100
    }
}

/// The weight sum is non-negative and at most fifty per finding.
pub proof fn lemma_weight_sum_bounds(severities: Seq<RiskSeverity>)
    ensures
        0 <= weight_sum(severities) <= 50 * severities.len(),
    decreases severities.len(),
{
    if severities.len() > 0 {
        lemma_weight_sum_bounds(severities.drop_last());
    }
}

/// Score boundedness law: every sequence of findings scores between zero
/// and one hundred.
pub proof fn lemma_score_bounded(severities: Seq<RiskSeverity>)
    ensures
        0 <= score_of(severities) <= 100,
{
    lemma_weight_sum_bounds(severities);
}

/// Whether a utilization rate is flagged against a threshold: strictly
/// above it.
pub open spec fn utilization_flagged(utilization: int, threshold: int) -> bool {
    utilization > threshold
}

/// Severity of a flagged utilization rate: `Critical` from one tenth above
/// the threshold, `High` from five hundredths above, `Medium` below that.
pub open spec fn utilization_severity(utilization: int, threshold: int) -> RiskSeverity {
    if utilization >= threshold + 100_000 {
        RiskSeverity::Critical
    } else if utilization >= threshold + 50_000 {
        RiskSeverity::High
    } else {
        RiskSeverity::Medium
    }
}

/// Utilization determinism and monotonicity law: the severity is a function
/// of the utilization rate and threshold alone, and neither the flag nor
/// the severity decreases as the utilization rate grows.
pub proof fn lemma_utilization_severity_monotone(u1: int, u2: int, threshold: int)
    requires
        u1 <= u2,
    ensures
        utilization_flagged(u1, threshold) ==> utilization_flagged(u2, threshold),
        severity_rank(utilization_severity(u1, threshold)) <= severity_rank(
            utilization_severity(u2, threshold),
        ),
{
}

/// Description of a utilization finding.
pub open spec fn utilization_description(utilization: int, threshold: int) -> Seq<char> {
    "Market utilization is "@ + percent_chars(utilization)
        + ", which exceeds the recommended threshold of "@ + percent_chars(threshold)
}

/// Metadata of a utilization finding.
pub open spec fn utilization_metadata(m: MarketModel, threshold: int) -> Seq<
    (Seq<char>, MetaValueModel),
> {
    seq![
        ("current_utilization"@, MetaValueModel::Num(m.utilization_rate)),
        ("threshold"@, MetaValueModel::Num(threshold)),
        ("base_asset"@, MetaValueModel::Text(m.base_asset.symbol)),
        ("total_supply"@, MetaValueModel::Num(m.total_supply)),
        ("total_borrow"@, MetaValueModel::Num(m.total_borrow)),
    ]
}

/// What a utilization finding holds: the category, the severity of the
/// market's utilization rate, the exact description and metadata, and the
/// evaluation time.
pub open spec fn is_utilization_finding(
    f: RiskFindingModel,
    m: MarketModel,
    threshold: int,
    timestamp: int,
) -> bool {
    &&& f.category == RiskCategory::HighUtilization
    &&& f.severity == utilization_severity(m.utilization_rate, threshold)
    &&& f.description == utilization_description(m.utilization_rate, threshold)
    &&& f.metadata == utilization_metadata(m, threshold)
    &&& f.timestamp == timestamp
}

/// Description of a simulation finding.
pub open spec fn simulation_description(delta: int, simulated_utilization: int) -> Seq<char> {
    "Simulated increase of "@ + percent_chars(delta)
        + " in utilization would result in "@ + percent_chars(simulated_utilization)
        + " utilization, exceeding threshold"@
}

/// Metadata of a simulation finding.
pub open spec fn simulation_metadata(m: MarketModel, delta: int, threshold: int) -> Seq<
    (Seq<char>, MetaValueModel),
> {
    seq![
        ("simulated_utilization"@, MetaValueModel::Num(m.utilization_rate + delta)),
        ("current_utilization"@, MetaValueModel::Num(m.utilization_rate)),
        ("threshold"@, MetaValueModel::Num(threshold)),
    ]
}

/// What a simulation finding holds: the category, the utilization check's
/// severity at the shifted rate, the exact description and metadata, and
/// the evaluation time.
pub open spec fn is_simulation_finding(
    f: RiskFindingModel,
    m: MarketModel,
    delta: int,
    threshold: int,
    timestamp: int,
) -> bool {
    &&& f.category == RiskCategory::HighUtilization
    &&& f.severity == utilization_severity(m.utilization_rate + delta, threshold)
    &&& f.description == simulation_description(delta, m.utilization_rate + delta)
    &&& f.metadata == simulation_metadata(m, delta, threshold)
    &&& f.timestamp == timestamp
}

/// Whether a position is flagged as close to liquidation: something is
/// borrowed and the health factor lies strictly below one plus the buffer.
pub open spec fn liquidation_flagged(p: UserPositionModel, buffer: int) -> bool {
    p.total_borrow_value > 0 && p.health_factor < MICRO + buffer
}

/// Severity of a flagged position: `Critical` strictly below a health
/// factor of one, `High` strictly below one plus half the buffer, `Medium`
/// otherwise.
pub open spec fn liquidation_severity(health_factor: int, buffer: int) -> RiskSeverity {
    if health_factor < MICRO {
        RiskSeverity::Critical
    } else if health_factor < MICRO + buffer / 2 {
        RiskSeverity::High
    } else {
        RiskSeverity::Medium
    }
}

/// Description of a liquidation finding.
pub open spec fn liquidation_description(health_factor: int) -> Seq<char> {
    "User position has a health factor of "@ + unit_chars(health_factor)
        + ", which is close to or below the liquidation threshold"@
}

/// Metadata of a liquidation finding.
pub open spec fn liquidation_metadata(p: UserPositionModel, buffer: int) -> Seq<
    (Seq<char>, MetaValueModel),
> {
    seq![
        ("health_factor"@, MetaValueModel::Num(p.health_factor)),
        ("buffer"@, MetaValueModel::Num(buffer)),
        ("collateral_value"@, MetaValueModel::Num(p.total_collateral_value)),
        ("borrow_value"@, MetaValueModel::Num(p.total_borrow_value)),
    ]
}

/// What a liquidation finding holds.
pub open spec fn is_liquidation_finding(
    f: RiskFindingModel,
    p: UserPositionModel,
    buffer: int,
    timestamp: int,
) -> bool {
    &&& f.category == RiskCategory::LiquidationCascade
    &&& f.severity == liquidation_severity(p.health_factor, buffer)
    &&& f.description == liquidation_description(p.health_factor)
    &&& f.metadata == liquidation_metadata(p, buffer)
    &&& f.timestamp == timestamp
}

/// What an assessment of a market holds: its name and address, exactly the
/// findings of the implemented checks in evaluation order, their score, and
/// the assessment time.
pub open spec fn assessment_matches(
    a: RiskAssessmentModel,
    m: MarketModel,
    threshold: int,
    timestamp: int,
) -> bool {
    &&& a.market_name == m.name
    &&& a.market_address == m.comet_address
    &&& if utilization_flagged(m.utilization_rate, threshold) {
        a.findings.len() == 1 && is_utilization_finding(a.findings[0], m, threshold, timestamp)
    } else {
        a.findings.len() == 0
    }
    &&& a.risk_score == score_of(a.findings.map_values(|f: RiskFindingModel| f.severity))
    &&& a.timestamp == timestamp
}

/// Relies on chrono's `Utc::now` and `DateTime::timestamp`: the current
/// time as whole seconds since the Unix epoch. `Utc::now` reads the system
/// clock and does not return if the clock stands before the epoch. The
/// value depends on the clock, so nothing is promised of it.
#[verifier::external_body]
pub(crate) fn current_timestamp() -> i64 {
    chrono::Utc::now().timestamp()
}

/// Stateless evaluator of the rule checks.
pub struct RiskProcessor {
    /// The engine configuration; the checks read its thresholds.
    pub config: Config,
}

impl RiskProcessor {
    /// A processor evaluating against the given configuration.
    pub fn new(config: Config) -> (p: RiskProcessor)
        ensures
            p.config@ == config@,
    {
        RiskProcessor { config }
    }

    /// Appends a utilization finding exactly when the market's utilization
    /// rate strictly exceeds the configured threshold; earlier findings are
    /// kept unchanged.
    pub fn check_utilization(
        &self,
        market: &Market,
        findings: &mut Vec<RiskFinding>,
        timestamp: i64,
    )
        requires
            market@.wf(),
            self.config.wf(),
        ensures
            ({
                let threshold = self.config.risk.max_utilization_threshold as int;
                if utilization_flagged(market@.utilization_rate, threshold) {
                    &&& final(findings)@.len() == old(findings)@.len() + 1
                    &&& final(findings)@.subrange(0, old(findings)@.len() as int) == old(
                        findings,
                    )@
                    &&& is_utilization_finding(
                        final(findings)@.last()@,
                        market@,
                        threshold,
                        timestamp as int,
                    )
                } else {
                    final(findings)@ == old(findings)@
                }
            }),
    {
        let utilization = market.utilization_rate;
        let threshold = self.config.risk.max_utilization_threshold;
        proof {
            lemma_utilization_bounds(market@.total_supply, market@.total_borrow);
        }
        if utilization > threshold {
            let severity = if utilization >= threshold + 100_000 {
                RiskSeverity::Critical
            } else if utilization >= threshold + 50_000 {
                RiskSeverity::High
            } else {
                RiskSeverity::Medium
            };
            let description = describe_utilization(utilization, threshold);
            let mut metadata: Vec<(String, MetaValue)> = Vec::new();
            metadata.push(
                (String::from_str("current_utilization"), MetaValue::Num(utilization as i128)),
            );
            metadata.push((String::from_str("threshold"), MetaValue::Num(threshold as i128)));
            metadata.push(
                (String::from_str("base_asset"), MetaValue::Text(market.base_asset.symbol.clone())),
            );
            metadata.push(
                (String::from_str("total_supply"), MetaValue::Num(market.total_supply as i128)),
            );
            metadata.push(
                (String::from_str("total_borrow"), MetaValue::Num(market.total_borrow as i128)),
            );
            let finding = RiskFinding {
                category: RiskCategory::HighUtilization,
                severity,
                description,
                metadata,
                timestamp,
            };
            proof {
                assert(finding@.metadata =~= utilization_metadata(
                    market@,
                    threshold as int,
                ));
            }
            findings.push(finding);
            proof {
                assert(findings@.subrange(0, old(findings)@.len() as int) =~= old(findings)@);
            }
        }
    }

    /// The risk score of a sequence of findings: the sum of their severity
    /// weights, capped at one hundred; no findings score zero.
    pub fn calculate_risk_score(&self, findings: &Vec<RiskFinding>) -> (score: u8)
        ensures
            score as int == score_of(findings@.map_values(|f: RiskFinding| f.severity)),
    {
        let ghost severities = findings@.map_values(|f: RiskFinding| f.severity);
        let mut total: u128 = 0;
        let mut i: usize = 0;
        proof {
            assert(severities.take(0) =~= Seq::<RiskSeverity>::empty());
        }
        while i < findings.len()
            invariant
                i <= findings@.len(),
                severities == findings@.map_values(|f: RiskFinding| f.severity),
                total as int == weight_sum(severities.take(i as int)),
                total <= 50 * i,
            decreases findings@.len() - i,
        {
            proof {
                assert(severities.take(i as int + 1).drop_last() =~= severities.take(i as int));
                assert(severities.take(i as int + 1).last() == severities[i as int]);
            }
            let w: u8 = match findings[i].severity {
                RiskSeverity::Low => 5,
                RiskSeverity::Medium => 15,
                RiskSeverity::High => 30,
                RiskSeverity::Critical => 50,
            };
            total = total + w as u128;
            i = i + 1;
        }
        proof {
            assert(severities.take(findings@.len() as int) =~= severities);
        }
        if total >= 100 {
            100
        } else {
            total as u8
        }
    }

    /// Assesses a market at an explicit time: evaluates the utilization
    /// check and aggregates the score.
    pub fn assess_market_at(&self, market: &Market, now: i64) -> (r: Result<
        RiskAssessment,
        AcquisitionError,
    >)
        requires
            market@.wf(),
            self.config.wf(),
        ensures
            r matches Ok(a) && assessment_matches(
                a@,
                market@,
                self.config.risk.max_utilization_threshold as int,
                now as int,
            ),
    {
        let mut findings: Vec<RiskFinding> = Vec::new();
        self.check_utilization(market, &mut findings, now);
        let risk_score = self.calculate_risk_score(&findings);
        let assessment = RiskAssessment {
            market_name: market.name.clone(),
            market_address: market.comet_address,
            findings,
            risk_score,
            timestamp: now,
        };
        proof {
            let ghost threshold = self.config.risk.max_utilization_threshold as int;
            assert(assessment@.findings.map_values(|f: RiskFindingModel| f.severity)
                =~= assessment.findings@.map_values(|f: RiskFinding| f.severity));
            if utilization_flagged(market@.utilization_rate, threshold) {
                assert(assessment@.findings[0] == assessment.findings@.last()@);
            }
        }
        Ok(assessment)
    }

    /// Assesses a market at the current time. The clock decides only the
    /// timestamps; everything else is as [`assess_market_at`] states it.
    ///
    /// [`assess_market_at`]: RiskProcessor::assess_market_at
    pub fn assess_market(&self, market: &Market) -> (r: Result<RiskAssessment, AcquisitionError>)
        requires
            market@.wf(),
            self.config.wf(),
        ensures
            r matches Ok(a) && exists|ts: int|
                assessment_matches(
                    a@,
                    market@,
                    self.config.risk.max_utilization_threshold as int,
                    ts,
                ),
    {
        let now = current_timestamp();
        let r = self.assess_market_at(market, now);
        proof {
            if r is Ok {
                let a = r->Ok_0;
                assert(assessment_matches(
                    a@,
                    market@,
                    self.config.risk.max_utilization_threshold as int,
                    now as int,
                ));
            }
        }
        r
    }

    /// Recomputes the utilization check against the rate raised by a
    /// caller-supplied `delta`, at an explicit time, without touching the
    /// snapshot: one finding exactly when the shifted rate exceeds the
    /// threshold, with the utilization check's own severity tiering at that
    /// rate.
    pub fn simulate_market_conditions_at(&self, market: &Market, delta: u128, now: i64) -> (r:
        Result<Vec<RiskFinding>, AcquisitionError>)
        requires
            market@.wf(),
            self.config.wf(),
            delta <= MAX_VALUE_MICROS,
        ensures
            r matches Ok(v) && ({
                let threshold = self.config.risk.max_utilization_threshold as int;
                if market@.utilization_rate + delta > threshold {
                    v@.len() == 1 && is_simulation_finding(
                        v@[0]@,
                        market@,
                        delta as int,
                        threshold,
                        now as int,
                    )
                } else {
                    v@.len() == 0
                }
            }),
    {
        let mut findings: Vec<RiskFinding> = Vec::new();
        proof {
            lemma_utilization_bounds(market@.total_supply, market@.total_borrow);
        }
        let simulated_utilization = market.utilization_rate + delta;
        let threshold = self.config.risk.max_utilization_threshold;
        if simulated_utilization > threshold {
            let severity = if simulated_utilization >= threshold + 100_000 {
                RiskSeverity::Critical
            } else if simulated_utilization >= threshold + 50_000 {
                RiskSeverity::High
            } else {
                RiskSeverity::Medium
            };
            let description = describe_simulation(delta, simulated_utilization);
            let mut metadata: Vec<(String, MetaValue)> = Vec::new();
            metadata.push(
                (
                    String::from_str("simulated_utilization"),
                    MetaValue::Num(simulated_utilization as i128),
                ),
            );
            metadata.push(
                (
                    String::from_str("current_utilization"),
                    MetaValue::Num(market.utilization_rate as i128),
                ),
            );
            metadata.push((String::from_str("threshold"), MetaValue::Num(threshold as i128)));
            let finding = RiskFinding {
                category: RiskCategory::HighUtilization,
                severity,
                description,
                metadata,
                timestamp: now,
            };
            proof {
                assert(finding@.metadata =~= simulation_metadata(
                    market@,
                    delta as int,
                    threshold as int,
                ));
            }
            findings.push(finding);
        }
        Ok(findings)
    }

    /// Recomputes the utilization check against the rate raised by a
    /// caller-supplied `delta`, at the current time.
    pub fn simulate_market_conditions(&self, market: &Market, delta: u128) -> (r: Result<
        Vec<RiskFinding>,
        AcquisitionError,
    >)
        requires
            market@.wf(),
            self.config.wf(),
            delta <= MAX_VALUE_MICROS,
        ensures
            r matches Ok(v) && ({
                let threshold = self.config.risk.max_utilization_threshold as int;
                if market@.utilization_rate + delta > threshold {
                    v@.len() == 1 && exists|ts: int|
                        is_simulation_finding(v@[0]@, market@, delta as int, threshold, ts)
                } else {
                    v@.len() == 0
                }
            }),
    {
        let now = current_timestamp();
        let r = self.simulate_market_conditions_at(market, delta, now);
        proof {
            let threshold = self.config.risk.max_utilization_threshold as int;
            if r is Ok && market@.utilization_rate + delta > threshold {
                let v = r->Ok_0;
                assert(is_simulation_finding(v@[0]@, market@, delta as int, threshold, now as int));
            }
        }
        r
    }

    /// Flags a position close to liquidation, at an explicit time: a
    /// finding exactly when something is borrowed and the health factor
    /// lies strictly below one plus the configured buffer.
    pub fn check_user_liquidation_risk_at(&self, user: &UserPosition, timestamp: i64) -> (r:
        Option<RiskFinding>)
        requires
            self.config.wf(),
            user@.bounded(),
        ensures
            r is Some <==> liquidation_flagged(
                user@,
                self.config.risk.liquidation_threshold_buffer as int,
            ),
            r matches Some(f) ==> is_liquidation_finding(
                f@,
                user@,
                self.config.risk.liquidation_threshold_buffer as int,
                timestamp as int,
            ),
    {
        if user.total_borrow_value == 0 {
            return None;
        }
        let buffer = self.config.risk.liquidation_threshold_buffer;
        if user.health_factor < MICRO + buffer {
            let severity = if user.health_factor < MICRO {
                RiskSeverity::Critical
            } else if user.health_factor < MICRO + buffer / 2 {
                RiskSeverity::High
            } else {
                RiskSeverity::Medium
            };
            let description = describe_liquidation(user.health_factor);
            let mut metadata: Vec<(String, MetaValue)> = Vec::new();
            metadata.push(
                (String::from_str("health_factor"), MetaValue::Num(user.health_factor as i128)),
            );
            metadata.push((String::from_str("buffer"), MetaValue::Num(buffer as i128)));
            metadata.push(
                (
                    String::from_str("collateral_value"),
                    MetaValue::Num(user.total_collateral_value as i128),
                ),
            );
            metadata.push(
                (String::from_str("borrow_value"), MetaValue::Num(user.total_borrow_value as i128)),
            );
            let finding = RiskFinding {
                category: RiskCategory::LiquidationCascade,
                severity,
                description,
                metadata,
                timestamp,
            };
            proof {
                assert(finding@.metadata =~= liquidation_metadata(
                    user@,
                    buffer as int,
                ));
            }
            Some(finding)
        } else {
            None
        }
    }

    /// Flags a position close to liquidation, at the current time.
    pub fn check_user_liquidation_risk(&self, user: &UserPosition) -> (r: Option<RiskFinding>)
        requires
            self.config.wf(),
            user@.bounded(),
        ensures
            r is Some <==> liquidation_flagged(
                user@,
                self.config.risk.liquidation_threshold_buffer as int,
            ),
            r matches Some(f) ==> exists|ts: int|
                is_liquidation_finding(
                    f@,
                    user@,
                    self.config.risk.liquidation_threshold_buffer as int,
                    ts,
                ),
    {
        let now = current_timestamp();
        let r = self.check_user_liquidation_risk_at(user, now);
        proof {
            if r is Some {
                let f = r->Some_0;
                assert(is_liquidation_finding(
                    f@,
                    user@,
                    self.config.risk.liquidation_threshold_buffer as int,
                    now as int,
                ));
            }
        }
        r
    }
}

/// Builds the description of a utilization finding.
fn describe_utilization(utilization: u128, threshold: u128) -> (s: String)
    requires
        utilization + 50 <= u128::MAX,
        threshold + 50 <= u128::MAX,
    ensures
        s@ == utilization_description(utilization as int, threshold as int),
{
    let mut s = String::from_str("Market utilization is ");
    let p1 = percent_string(utilization);
    s.append(p1.as_str());
    s.append(", which exceeds the recommended threshold of ");
    let p2 = percent_string(threshold);
    s.append(p2.as_str());
    s
}

/// Builds the description of a simulation finding.
fn describe_simulation(delta: u128, simulated_utilization: u128) -> (s: String)
    requires
        delta + 50 <= u128::MAX,
        simulated_utilization + 50 <= u128::MAX,
    ensures
        s@ == simulation_description(delta as int, simulated_utilization as int),
{
    let mut s = String::from_str("Simulated increase of ");
    let p1 = percent_string(delta);
    s.append(p1.as_str());
    s.append(" in utilization would result in ");
    let p2 = percent_string(simulated_utilization);
    s.append(p2.as_str());
    s.append(" utilization, exceeding threshold");
    s
}

/// Builds the description of a liquidation finding.
fn describe_liquidation(health_factor: u128) -> (s: String)
    requires
        health_factor + 5000 <= u128::MAX,
    ensures
        s@ == liquidation_description(health_factor as int),
{
    let mut s = String::from_str("User position has a health factor of ");
    let p = unit_string(health_factor);
    s.append(p.as_str());
    s.append(", which is close to or below the liquidation threshold");
    s
}

} // verus!
