use compliance_pipeline::components::{AIService, Event, Usage};
use compliance_pipeline::metrics::{collect_metrics, ComplianceMetrics};
use compliance_pipeline::rules::apply_rule_chain;

fn sample(total: u64, eu: u64, gdpr: u64, internal: u64, high: u64, medium: u64, low: u64,
    lead_bucket: u64) -> ComplianceMetrics {
    // A consistent snapshot with every event counted in the first bucket of
    // each distribution, except the portion moved to the second bucket.
    let mut m = ComplianceMetrics::new();
    m.total_events = total;
    m.eu_act_violations = eu;
    m.gdpr_violations = gdpr;
    m.internal_violations = internal;
    m.high_risk_count = high;
    m.medium_risk_count = medium;
    m.low_risk_count = low;
    m.service_counts = [lead_bucket, total - lead_bucket, 0, 0, 0];
    m.vendor_counts = [total, 0, 0, 0, 0];
    m.department_counts = [0, 0, total, 0, 0];
    m.risk_factor_counts = [eu, gdpr, internal, 0, 0];
    m.total_data_sensitivity = 10 * total;
    m.data_sensitivity_samples = total;
    m
}

#[test]
fn merge_adds_every_counter() {
    let mut a = sample(10, 1, 2, 3, 4, 3, 3, 10);
    let b = sample(6, 1, 0, 1, 2, 2, 2, 4);
    a.merge(&b);
    assert_eq!(a.total_events, 16);
    assert_eq!(a.eu_act_violations, 2);
    assert_eq!(a.gdpr_violations, 2);
    assert_eq!(a.internal_violations, 4);
    assert_eq!(a.high_risk_count, 6);
    assert_eq!(a.medium_risk_count, 5);
    assert_eq!(a.low_risk_count, 5);
    assert_eq!(a.service_counts, [14, 2, 0, 0, 0]);
    assert_eq!(a.vendor_counts, [16, 0, 0, 0, 0]);
    assert_eq!(a.department_counts, [0, 0, 16, 0, 0]);
    assert_eq!(a.risk_factor_counts, [2, 2, 4, 0, 0]);
    assert_eq!(a.total_data_sensitivity, 160);
    assert_eq!(a.data_sensitivity_samples, 16);
}

#[test]
fn merge_is_commutative_and_associative() {
    let b = sample(6, 1, 0, 1, 2, 2, 2, 4);
    let c = sample(3, 0, 1, 0, 1, 1, 1, 2);

    // merge(merge(a, b), c)
    let mut left = sample(10, 1, 2, 3, 4, 3, 3, 10);
    left.merge(&b);
    left.merge(&c);

    // merge(a, merge(b, c))
    let mut bc = sample(6, 1, 0, 1, 2, 2, 2, 4);
    bc.merge(&c);
    let mut right = sample(10, 1, 2, 3, 4, 3, 3, 10);
    right.merge(&bc);

    // merge(c, merge(a, b))
    let mut ab = sample(10, 1, 2, 3, 4, 3, 3, 10);
    ab.merge(&b);
    let mut other = sample(3, 0, 1, 0, 1, 1, 1, 2);
    other.merge(&ab);

    assert_eq!(left, right);
    assert_eq!(left, other);
}

#[test]
fn merge_leaves_history_and_rate_alone() {
    let mut a = sample(10, 1, 2, 3, 4, 3, 3, 10);
    a.update_historical_data(500, 1000);
    let rates_before = a.historical_rates.clone();
    let violations_before = a.historical_violations.clone();
    let rate_before = a.processing_rate;
    let b = sample(6, 1, 0, 1, 2, 2, 2, 4);
    a.merge(&b);
    assert_eq!(a.historical_rates, rates_before);
    assert_eq!(a.historical_violations, violations_before);
    assert_eq!(a.processing_rate, rate_before);
}

#[test]
fn compliance_percentage_with_no_events_is_one_hundred() {
    let m = ComplianceMetrics::new();
    let (num, den) = m.compliance_percentage();
    assert_eq!((num, den), (100, 1));
    assert_eq!(num as f64 / den as f64, 100.0);
}

#[test]
fn compliance_percentage_ten_events_three_violations() {
    let m = sample(10, 1, 1, 1, 4, 3, 3, 10);
    let (num, den) = m.compliance_percentage();
    assert_eq!((num, den), (2700, 30));
    assert_eq!(num as f64 / den as f64, 90.0);
}

#[test]
fn risk_distribution_with_no_events_is_zero() {
    let m = ComplianceMetrics::new();
    let (nums, den) = m.risk_distribution();
    assert_eq!(nums, [0, 0, 0]);
    assert_eq!(den, 1);
}

#[test]
fn risk_distribution_ten_events() {
    let m = sample(10, 1, 1, 1, 4, 3, 3, 10);
    let (nums, den) = m.risk_distribution();
    assert_eq!(nums[0] as f64 / den as f64, 40.0);
    assert_eq!(nums[1] as f64 / den as f64, 30.0);
    assert_eq!(nums[2] as f64 / den as f64, 30.0);
}

#[test]
fn history_window_never_exceeds_thirty_and_keeps_latest() {
    let mut m = sample(10, 1, 2, 3, 4, 3, 3, 10);
    for k in 0..35u64 {
        m.update_historical_data(k * 10, 1000);
        assert!(m.historical_rates.len() <= 30);
        assert!(m.historical_violations.len() <= 30);
    }
    // 35 appends with rates 0, 10, ..., 340: the window keeps the last 30,
    // in append order.
    assert_eq!(m.historical_rates.len(), 30);
    assert_eq!(m.historical_rates[0], 50);
    assert_eq!(m.historical_rates[29], 340);
    assert_eq!(m.historical_violations.len(), 30);
    assert_eq!(m.historical_violations[29], (1, 2, 3));
}

#[test]
fn processing_rate_is_events_per_second() {
    let mut m = sample(10, 1, 2, 3, 4, 3, 3, 10);
    m.update_historical_data(500, 5000);
    assert_eq!(m.processing_rate, 100);
    assert_eq!(m.historical_rates, vec![100]);
}

#[test]
fn processing_rate_saturates() {
    let mut m = sample(10, 1, 2, 3, 4, 3, 3, 10);
    m.update_historical_data(u64::MAX, 1);
    assert_eq!(m.processing_rate, u64::MAX);
}

#[test]
fn collect_counts_batch_without_risk_stage() {
    // An event that never went through the risk stage is counted in the
    // base counters but in no risk tier or factor.
    let e = Event::new(
        AIService { name_idx: 2, vendor_idx: 1 },
        Usage { department_idx: 3, data_sensitivity: 55 },
    );
    let batch = vec![e];
    let m = collect_metrics(&batch);
    assert_eq!(m.total_events, 1);
    assert_eq!(m.service_counts, [0, 0, 1, 0, 0]);
    assert_eq!(m.vendor_counts, [0, 1, 0, 0, 0]);
    assert_eq!(m.department_counts, [0, 0, 0, 1, 0]);
    assert_eq!(m.risk_factor_counts, [0, 0, 0, 0, 0]);
    assert_eq!(m.high_risk_count + m.medium_risk_count + m.low_risk_count, 0);
    assert_eq!(m.total_data_sensitivity, 55);
    assert_eq!(m.data_sensitivity_samples, 1);
    // The register starts all-compliant, so no violations either.
    assert_eq!(m.eu_act_violations, 0);
    assert_eq!(m.gdpr_violations, 0);
    assert_eq!(m.internal_violations, 0);
}

#[test]
fn collect_counts_a_processed_batch_exactly() {
    // One event that violates everything and one that violates nothing.
    let mut batch = vec![
        Event::new(
            AIService { name_idx: 0, vendor_idx: 0 },
            Usage { department_idx: 2, data_sensitivity: 85 },
        ),
        Event::new(
            AIService { name_idx: 1, vendor_idx: 1 },
            Usage { department_idx: 0, data_sensitivity: 10 },
        ),
    ];
    apply_rule_chain(&mut batch);
    let m = collect_metrics(&batch);

    assert_eq!(m.total_events, 2);
    assert_eq!(m.eu_act_violations, 1);
    assert_eq!(m.gdpr_violations, 1);
    assert_eq!(m.internal_violations, 1);
    // Scores 100 and 0: one high-risk event, one low-risk event.
    assert_eq!(m.high_risk_count, 1);
    assert_eq!(m.medium_risk_count, 0);
    assert_eq!(m.low_risk_count, 1);
    // All five factors fired for the first event, none for the second.
    assert_eq!(m.risk_factor_counts, [1, 1, 1, 1, 1]);
    assert_eq!(m.service_counts, [1, 1, 0, 0, 0]);
    assert_eq!(m.vendor_counts, [1, 1, 0, 0, 0]);
    assert_eq!(m.department_counts, [1, 0, 1, 0, 0]);
    assert_eq!(m.total_data_sensitivity, 95);
    assert_eq!(m.data_sensitivity_samples, 2);
}

#[test]
fn snapshot_is_observably_identical() {
    let mut m = sample(10, 1, 2, 3, 4, 3, 3, 10);
    m.update_historical_data(500, 1000);
    let copy = m.snapshot();
    assert_eq!(copy, m);
}
