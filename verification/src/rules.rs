use vstd::prelude::*;

use crate::components::{AIService, ComplianceStatus, Event, RiskAssessment, RiskFactors, Usage};
use crate::constants::{
    EU_ACT_SENSITIVITY_LIMIT, FINANCE_APPROVED_FIRST, FINANCE_APPROVED_SECOND, FINANCE_DEPARTMENT,
    GDPR_SENSITIVITY_LIMIT, HIGH_RISK_VENDOR, MAX_RISK_SCORE, SCORE_EU_ACT, SCORE_GDPR,
    SCORE_INTERNAL, SCORE_PUBLIC_MODEL, SCORE_SENSITIVE_DATA, SENSITIVE_DATA_LIMIT,
};

verus! {

/// The EU-Act rule passes unless a high-risk vendor handles data above the
/// EU-Act sensitivity limit.
pub open spec fn spec_eu_act_ok(service: AIService, usage: Usage) -> bool {
    !(service.vendor_idx == HIGH_RISK_VENDOR && usage.data_sensitivity > EU_ACT_SENSITIVITY_LIMIT)
}

/// The GDPR rule passes exactly when the data sensitivity stays below its
/// limit; it reads nothing else.
pub open spec fn spec_gdpr_ok(usage: Usage) -> bool {
    usage.data_sensitivity < GDPR_SENSITIVITY_LIMIT
}

/// The internal-policy rule restricts the finance department to the two
/// approved services; every other department always passes.
pub open spec fn spec_internal_ok(service: AIService, usage: Usage) -> bool {
    usage.department_idx == FINANCE_DEPARTMENT ==> (service.name_idx == FINANCE_APPROVED_FIRST
        || service.name_idx == FINANCE_APPROVED_SECOND)
}

/// An event after the EU-Act stage: only the EU-Act flag is rewritten.
pub open spec fn spec_apply_eu_act(e: Event) -> Event {
    Event {
        compliance: ComplianceStatus { eu_act: spec_eu_act_ok(e.service, e.usage), ..e.compliance },
        ..e
    }
}

/// An event after the GDPR stage: only the GDPR flag is rewritten.
pub open spec fn spec_apply_gdpr(e: Event) -> Event {
    Event { compliance: ComplianceStatus { gdpr: spec_gdpr_ok(e.usage), ..e.compliance }, ..e }
}

/// An event after the internal-policy stage: only that flag is rewritten.
pub open spec fn spec_apply_internal(e: Event) -> Event {
    Event {
        compliance: ComplianceStatus {
            internal_policy: spec_internal_ok(e.service, e.usage),
            ..e.compliance
        },
        ..e
    }
}

/// The risk contributors that fire for an event, read off the current
/// compliance register and the usage attributes.
pub open spec fn spec_risk_factors(e: Event) -> RiskFactors {
    RiskFactors {
        eu_act: !e.compliance.eu_act,
        gdpr: !e.compliance.gdpr,
        internal_policy: !e.compliance.internal_policy,
        sensitive_data: e.usage.data_sensitivity > SENSITIVE_DATA_LIMIT,
        public_model: e.service.vendor_idx == HIGH_RISK_VENDOR,
    }
}

/// Sum of the contributions of the factors that fired, before clamping.
pub open spec fn spec_factor_sum(f: RiskFactors) -> int {
    (if f.eu_act { SCORE_EU_ACT as int } else { 0 }) + (if f.gdpr { SCORE_GDPR as int } else { 0 })
        + (if f.internal_policy { SCORE_INTERNAL as int } else { 0 }) + (if f.sensitive_data {
        SCORE_SENSITIVE_DATA as int
    } else {
        0
    }) + (if f.public_model { SCORE_PUBLIC_MODEL as int } else { 0 })
}

/// The risk score: the factor sum, clamped from above to `MAX_RISK_SCORE`.
pub open spec fn spec_risk_score(f: RiskFactors) -> int {
    if spec_factor_sum(f) > MAX_RISK_SCORE as int {
        MAX_RISK_SCORE as int
    } else {
        spec_factor_sum(f)
    }
}

/// An event after the risk stage: a fresh risk assessment is attached,
/// replacing any prior one; nothing else changes.
pub open spec fn spec_apply_risk(e: Event) -> Event {
    Event {
        risk: Some(
            RiskAssessment {
                score: spec_risk_score(spec_risk_factors(e)) as u8,
                factors: spec_risk_factors(e),
            },
        ),
        ..e
    }
}

/// An event after the whole chain has run, in stage order.
pub open spec fn spec_apply_chain(e: Event) -> Event {
    spec_apply_risk(spec_apply_internal(spec_apply_gdpr(spec_apply_eu_act(e))))
}

/// EU-Act stage: clears the EU-Act flag of each event exactly when a
/// high-risk vendor handles data above the EU-Act sensitivity limit, and
/// sets it otherwise.
pub fn eu_ai_act_system(batch: &mut Vec<Event>)
    ensures
        final(batch)@.len() == old(batch)@.len(),
        forall|i: int|
            0 <= i < old(batch)@.len() ==> final(batch)@[i] == spec_apply_eu_act(old(batch)@[i]),
{
    let n = batch.len();
    for i in 0..n
        invariant
            batch@.len() == n,
            forall|j: int| 0 <= j < i ==> batch@[j] == spec_apply_eu_act(old(batch)@[j]),
            forall|j: int| i <= j < n ==> batch@[j] == old(batch)@[j],
    {
        let e = batch[i];
        let is_high_risk = e.service.vendor_idx == HIGH_RISK_VENDOR;
        let eu_act = !(is_high_risk && e.usage.data_sensitivity > EU_ACT_SENSITIVITY_LIMIT);
        batch[i] = Event { compliance: ComplianceStatus { eu_act, ..e.compliance }, ..e };
    }
}

/// GDPR stage: sets the GDPR flag of each event exactly when its data
/// sensitivity is below the GDPR limit, and clears it otherwise.
pub fn gdpr_system(batch: &mut Vec<Event>)
    ensures
        final(batch)@.len() == old(batch)@.len(),
        forall|i: int|
            0 <= i < old(batch)@.len() ==> final(batch)@[i] == spec_apply_gdpr(old(batch)@[i]),
{
    let n = batch.len();
    for i in 0..n
        invariant
            batch@.len() == n,
            forall|j: int| 0 <= j < i ==> batch@[j] == spec_apply_gdpr(old(batch)@[j]),
            forall|j: int| i <= j < n ==> batch@[j] == old(batch)@[j],
    {
        let e = batch[i];
        let gdpr = e.usage.data_sensitivity < GDPR_SENSITIVITY_LIMIT;
        batch[i] = Event { compliance: ComplianceStatus { gdpr, ..e.compliance }, ..e };
    }
}

/// Internal-policy stage: for the finance department the flag is set exactly
/// when the service is on the approved list; for every other department it
/// is always set.
pub fn internal_policy_system(batch: &mut Vec<Event>)
    ensures
        final(batch)@.len() == old(batch)@.len(),
        forall|i: int|
            0 <= i < old(batch)@.len() ==> final(batch)@[i] == spec_apply_internal(old(batch)@[i]),
{
    let n = batch.len();
    for i in 0..n
        invariant
            batch@.len() == n,
            forall|j: int| 0 <= j < i ==> batch@[j] == spec_apply_internal(old(batch)@[j]),
            forall|j: int| i <= j < n ==> batch@[j] == old(batch)@[j],
    {
        let e = batch[i];
        let internal_policy = if e.usage.department_idx == FINANCE_DEPARTMENT {
            e.service.name_idx == FINANCE_APPROVED_FIRST
                || e.service.name_idx == FINANCE_APPROVED_SECOND
        } else {
            true
        };
        batch[i] = Event { compliance: ComplianceStatus { internal_policy, ..e.compliance }, ..e };
    }
}

/// Risk stage: derives each event's factor set and clamped score from the
/// current compliance register and usage, and attaches the assessment,
/// replacing any prior one.
pub fn risk_assessment_system(batch: &mut Vec<Event>)
    ensures
        final(batch)@.len() == old(batch)@.len(),
        forall|i: int|
            0 <= i < old(batch)@.len() ==> final(batch)@[i] == spec_apply_risk(old(batch)@[i]),
{
    let n = batch.len();
    for i in 0..n
        invariant
            batch@.len() == n,
            forall|j: int| 0 <= j < i ==> batch@[j] == spec_apply_risk(old(batch)@[j]),
            forall|j: int| i <= j < n ==> batch@[j] == old(batch)@[j],
    {
        let e = batch[i];
        let factors = RiskFactors {
            eu_act: !e.compliance.eu_act,
            gdpr: !e.compliance.gdpr,
            internal_policy: !e.compliance.internal_policy,
            sensitive_data: e.usage.data_sensitivity > SENSITIVE_DATA_LIMIT,
            public_model: e.service.vendor_idx == HIGH_RISK_VENDOR,
        };
        let mut score: u8 = 0;
        if factors.eu_act {
            score += SCORE_EU_ACT;
        }
        if factors.gdpr {
            score += SCORE_GDPR;
        }
        if factors.internal_policy {
            score += SCORE_INTERNAL;
        }
        if factors.sensitive_data {
            score += SCORE_SENSITIVE_DATA;
        }
        if factors.public_model {
            score += SCORE_PUBLIC_MODEL;
        }
        if score > MAX_RISK_SCORE {
            score = MAX_RISK_SCORE;
        }
        batch[i] = Event { risk: Some(RiskAssessment { score, factors }), ..e };
    }
}

/// Runs the four stages over the whole batch in their fixed order; later
/// stages read compliance flags written by earlier ones, so the order is
/// part of the contract.
pub fn apply_rule_chain(batch: &mut Vec<Event>)
    ensures
        final(batch)@.len() == old(batch)@.len(),
        forall|i: int|
            0 <= i < old(batch)@.len() ==> final(batch)@[i] == spec_apply_chain(old(batch)@[i]),
{
    eu_ai_act_system(batch);
    gdpr_system(batch);
    internal_policy_system(batch);
    risk_assessment_system(batch);
}

} // verus!
