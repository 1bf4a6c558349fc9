use vstd::prelude::*;

verus! {

/// Number of distinct identifiers for services, vendors, departments and
/// risk factors; every fixed-size distribution has one bucket per identifier.
pub const BUCKET_COUNT: usize = 5;

/// Vendor identifier treated as high risk by the EU-Act rule and as a
/// public model by the risk stage.
pub const HIGH_RISK_VENDOR: u8 = 0;

/// Department identifier whose usage is restricted to an allow-list of
/// services by the internal-policy rule.
pub const FINANCE_DEPARTMENT: u8 = 2;

/// The two service identifiers that the finance department may use.
pub const FINANCE_APPROVED_FIRST: u8 = 1;
pub const FINANCE_APPROVED_SECOND: u8 = 3;

/// Largest data-sensitivity value an event may carry.
pub const MAX_SENSITIVITY: u8 = 100;

/// Sensitivity above which a high-risk vendor violates the EU-Act rule.
pub const EU_ACT_SENSITIVITY_LIMIT: u8 = 70;

/// Sensitivity below which an event is GDPR compliant.
pub const GDPR_SENSITIVITY_LIMIT: u8 = 50;

/// Sensitivity above which the sensitive-data risk factor fires.
pub const SENSITIVE_DATA_LIMIT: u8 = 80;

/// Risk-score contribution of each factor.
pub const SCORE_EU_ACT: u8 = 40;
pub const SCORE_GDPR: u8 = 30;
pub const SCORE_INTERNAL: u8 = 20;
pub const SCORE_SENSITIVE_DATA: u8 = 10;
pub const SCORE_PUBLIC_MODEL: u8 = 5;

/// Upper clamp for the risk score.
pub const MAX_RISK_SCORE: u8 = 100;

/// Scores above this are high risk; scores above `MEDIUM_RISK_LIMIT` and at
/// most this are medium risk; the rest are low risk.
pub const HIGH_RISK_LIMIT: u8 = 70;
pub const MEDIUM_RISK_LIMIT: u8 = 30;

/// Bound on each historical series: the oldest entry is evicted once a
/// series would grow past this many entries.
pub const HISTORY_WINDOW: usize = 30;

/// A worker flushes its accumulated metrics every this many cycles.
pub const CYCLES_PER_FLUSH: u64 = 10;

} // verus!
