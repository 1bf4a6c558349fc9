use compliance_pipeline::components::{AIService, Event, Usage};
use compliance_pipeline::rules::{
    apply_rule_chain, eu_ai_act_system, gdpr_system, internal_policy_system,
    risk_assessment_system,
};

fn event(name: u8, vendor: u8, department: u8, sensitivity: u8) -> Event {
    Event::new(
        AIService { name_idx: name, vendor_idx: vendor },
        Usage { department_idx: department, data_sensitivity: sensitivity },
    )
}

fn run_chain(e: Event) -> Event {
    let mut batch = vec![e];
    apply_rule_chain(&mut batch);
    batch[0]
}

#[test]
fn score_sums_fired_contributions() {
    // vendor 0 with sensitivity 85 in a non-finance department: the EU-Act
    // and GDPR flags clear, the internal flag stays set, the sensitive-data
    // and public-model factors fire. Score 40 + 30 + 10 + 5 = 85.
    let e = run_chain(event(0, 0, 0, 85));
    assert!(!e.compliance.eu_act);
    assert!(!e.compliance.gdpr);
    assert!(e.compliance.internal_policy);
    let risk = e.risk.expect("risk attached after the chain");
    assert_eq!(risk.score, 85);
    assert!(risk.factors.eu_act);
    assert!(risk.factors.gdpr);
    assert!(!risk.factors.internal_policy);
    assert!(risk.factors.sensitive_data);
    assert!(risk.factors.public_model);
}

#[test]
fn score_clamps_at_one_hundred() {
    // Finance department using an unapproved service on top of the case
    // above: all five factors fire, 105 clamps to 100.
    let e = run_chain(event(0, 0, 2, 85));
    let risk = e.risk.expect("risk attached after the chain");
    assert!(risk.factors.eu_act);
    assert!(risk.factors.gdpr);
    assert!(risk.factors.internal_policy);
    assert!(risk.factors.sensitive_data);
    assert!(risk.factors.public_model);
    assert_eq!(risk.score, 100);
}

#[test]
fn fully_compliant_event_scores_zero() {
    let e = run_chain(event(1, 1, 0, 10));
    assert!(e.compliance.eu_act);
    assert!(e.compliance.gdpr);
    assert!(e.compliance.internal_policy);
    let risk = e.risk.expect("risk attached after the chain");
    assert_eq!(risk.score, 0);
    assert!(!risk.factors.eu_act);
    assert!(!risk.factors.gdpr);
    assert!(!risk.factors.internal_policy);
    assert!(!risk.factors.sensitive_data);
    assert!(!risk.factors.public_model);
}

#[test]
fn eu_act_boundary() {
    // Sensitivity 70 with the high-risk vendor stays compliant; 71 does not.
    let mut batch = vec![event(0, 0, 0, 70), event(0, 0, 0, 71), event(0, 1, 0, 71)];
    eu_ai_act_system(&mut batch);
    assert!(batch[0].compliance.eu_act);
    assert!(!batch[1].compliance.eu_act);
    assert!(batch[2].compliance.eu_act);
}

#[test]
fn gdpr_boundary() {
    // Sensitivity 49 is compliant; 50 is not.
    let mut batch = vec![event(0, 1, 0, 49), event(0, 1, 0, 50)];
    gdpr_system(&mut batch);
    assert!(batch[0].compliance.gdpr);
    assert!(!batch[1].compliance.gdpr);
}

#[test]
fn internal_policy_finance_allow_list() {
    let mut batch = vec![
        event(1, 1, 2, 10), // finance, approved service
        event(3, 1, 2, 10), // finance, approved service
        event(0, 1, 2, 10), // finance, unapproved service
        event(0, 1, 1, 10), // other department, any service
    ];
    internal_policy_system(&mut batch);
    assert!(batch[0].compliance.internal_policy);
    assert!(batch[1].compliance.internal_policy);
    assert!(!batch[2].compliance.internal_policy);
    assert!(batch[3].compliance.internal_policy);
}

#[test]
fn sensitive_data_factor_boundary() {
    // Sensitivity 80 does not fire the sensitive-data factor; 81 does.
    let at_limit = run_chain(event(1, 1, 0, 80));
    let above = run_chain(event(1, 1, 0, 81));
    assert!(!at_limit.risk.unwrap().factors.sensitive_data);
    assert!(above.risk.unwrap().factors.sensitive_data);
}

#[test]
fn risk_stage_reads_current_register() {
    // The risk stage derives factors from the register as it stands: with
    // the GDPR flag cleared by hand and no other stage run, only the GDPR
    // contribution applies.
    let mut e = event(1, 1, 0, 10);
    e.compliance.gdpr = false;
    let mut batch = vec![e];
    risk_assessment_system(&mut batch);
    let risk = batch[0].risk.expect("risk attached by the risk stage");
    assert_eq!(risk.score, 30);
    assert!(risk.factors.gdpr);
    assert!(!risk.factors.eu_act);
    assert!(!risk.factors.internal_policy);
}

#[test]
fn chain_preserves_service_and_usage() {
    let before = event(4, 3, 2, 99);
    let after = run_chain(before);
    assert_eq!(after.service, before.service);
    assert_eq!(after.usage, before.usage);
}
