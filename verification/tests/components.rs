use compliance_pipeline::components::{AIService, Args, Event, Usage};
use compliance_pipeline::generator::generate_ai_events;
use rand::rngs::StdRng;
use rand::SeedableRng;

#[test]
fn worker_count_prefers_the_explicit_choice() {
    let args = Args { rate: 100_000, interval: 5, threads: Some(3) };
    assert_eq!(args.worker_count(8), Some(3));
}

#[test]
fn worker_count_defaults_to_the_machine() {
    let args = Args { rate: 100_000, interval: 5, threads: None };
    assert_eq!(args.worker_count(8), Some(8));
}

#[test]
fn non_positive_worker_count_is_invalid() {
    let explicit = Args { rate: 100_000, interval: 5, threads: Some(0) };
    assert_eq!(explicit.worker_count(8), None);
    let defaulted = Args { rate: 100_000, interval: 5, threads: None };
    assert_eq!(defaulted.worker_count(0), None);
}

#[test]
fn events_per_batch_splits_the_rate() {
    let args = Args { rate: 100_000, interval: 5, threads: Some(4) };
    // 100000 events/s over 4 workers, 100 cycles per second each.
    assert_eq!(args.events_per_batch(4), 250);
}

#[test]
fn events_per_batch_has_a_floor_of_one() {
    let args = Args { rate: 100, interval: 5, threads: Some(4) };
    assert_eq!(args.events_per_batch(4), 1);
}

#[test]
fn fresh_events_start_compliant_without_risk() {
    let e = Event::new(
        AIService { name_idx: 1, vendor_idx: 2 },
        Usage { department_idx: 3, data_sensitivity: 40 },
    );
    assert!(e.compliance.eu_act);
    assert!(e.compliance.gdpr);
    assert!(e.compliance.internal_policy);
    assert!(e.risk.is_none());
}

#[test]
fn generated_events_stay_in_their_domains() {
    let mut rng = StdRng::seed_from_u64(1);
    let pairs = generate_ai_events(&mut rng, 500);
    assert_eq!(pairs.len(), 500);
    for (service, usage) in &pairs {
        assert!(service.name_idx < 5);
        assert!(service.vendor_idx < 5);
        assert!(usage.department_idx < 5);
        assert!(usage.data_sensitivity < 100);
    }
}

#[test]
fn generation_is_deterministic_per_seed() {
    let mut rng_one = StdRng::seed_from_u64(77);
    let mut rng_two = StdRng::seed_from_u64(77);
    let one = generate_ai_events(&mut rng_one, 50);
    let two = generate_ai_events(&mut rng_two, 50);
    assert_eq!(one, two);
}

#[test]
fn generation_consumes_the_source() {
    // Two draws from one source continue the stream rather than repeat it.
    let mut rng = StdRng::seed_from_u64(77);
    let first = generate_ai_events(&mut rng, 50);
    let second = generate_ai_events(&mut rng, 50);
    assert_ne!(first, second);
}
