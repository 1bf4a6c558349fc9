use vstd::prelude::*;

use crate::components::{Event, RiskFactors};
use crate::constants::{BUCKET_COUNT, HIGH_RISK_LIMIT, HISTORY_WINDOW, MAX_SENSITIVITY,
    MEDIUM_RISK_LIMIT};

verus! {

broadcast use vstd::array::group_array_axioms;

/// Aggregated metrics over a set of events: scalar counters, fixed-size
/// per-identifier distributions, and — only on the aggregator's copy — a
/// processing rate and two bounded historical series.
#[derive(PartialEq, Eq, Debug)]
pub struct ComplianceMetrics {
    pub total_events: u64,
    pub eu_act_violations: u64,
    pub gdpr_violations: u64,
    pub internal_violations: u64,
    pub high_risk_count: u64,
    pub medium_risk_count: u64,
    pub low_risk_count: u64,
    pub service_counts: [u64; BUCKET_COUNT],
    pub vendor_counts: [u64; BUCKET_COUNT],
    pub department_counts: [u64; BUCKET_COUNT],
    pub risk_factor_counts: [u64; BUCKET_COUNT],
    pub total_data_sensitivity: u64,
    pub data_sensitivity_samples: u64,
    pub processing_rate: u64,
    pub historical_rates: Vec<u64>,
    pub historical_violations: Vec<(u64, u64, u64)>,
}

/// The mathematical value of a snapshot's mergeable part: every counter as
/// an unbounded integer, every distribution as a five-element sequence.
/// The historical series and the processing rate are deliberately not part
/// of it: merging is not meaningful over them.
#[verifier::ext_equal]
pub ghost struct CountsView {
    pub total_events: int,
    pub eu_act_violations: int,
    pub gdpr_violations: int,
    pub internal_violations: int,
    pub high_risk_count: int,
    pub medium_risk_count: int,
    pub low_risk_count: int,
    pub service_counts: Seq<int>,
    pub vendor_counts: Seq<int>,
    pub department_counts: Seq<int>,
    pub risk_factor_counts: Seq<int>,
    pub total_data_sensitivity: int,
    pub data_sensitivity_samples: int,
}

/// A sequence of counters as unbounded integers.
pub open spec fn seq_int(s: Seq<u64>) -> Seq<int> {
    s.map_values(|x: u64| x as int)
}

/// Element-wise sum of two distributions.
pub open spec fn seq5_add(a: Seq<int>, b: Seq<int>) -> Seq<int> {
    Seq::new(BUCKET_COUNT as nat, |i: int| a[i] + b[i])
}

/// The all-zero distribution.
pub open spec fn zeros5() -> Seq<int> {
    Seq::new(BUCKET_COUNT as nat, |i: int| 0)
}

/// Sum of the five buckets of a distribution.
pub open spec fn sum5(s: Seq<int>) -> int {
    s[0] + s[1] + s[2] + s[3] + s[4]
}

impl CountsView {
    /// The five distributions have one bucket per identifier.
    pub open spec fn wf(self) -> bool {
        &&& self.service_counts.len() == BUCKET_COUNT
        &&& self.vendor_counts.len() == BUCKET_COUNT
        &&& self.department_counts.len() == BUCKET_COUNT
        &&& self.risk_factor_counts.len() == BUCKET_COUNT
    }

    /// The counts of a snapshot with no events.
    pub open spec fn empty() -> CountsView {
        CountsView {
            total_events: 0,
            eu_act_violations: 0,
            gdpr_violations: 0,
            internal_violations: 0,
            high_risk_count: 0,
            medium_risk_count: 0,
            low_risk_count: 0,
            service_counts: zeros5(),
            vendor_counts: zeros5(),
            department_counts: zeros5(),
            risk_factor_counts: zeros5(),
            total_data_sensitivity: 0,
            data_sensitivity_samples: 0,
        }
    }

    /// Element-wise sum: the mathematical meaning of a merge.
    pub open spec fn add(self, other: CountsView) -> CountsView {
        CountsView {
            total_events: self.total_events + other.total_events,
            eu_act_violations: self.eu_act_violations + other.eu_act_violations,
            gdpr_violations: self.gdpr_violations + other.gdpr_violations,
            internal_violations: self.internal_violations + other.internal_violations,
            high_risk_count: self.high_risk_count + other.high_risk_count,
            medium_risk_count: self.medium_risk_count + other.medium_risk_count,
            low_risk_count: self.low_risk_count + other.low_risk_count,
            service_counts: seq5_add(self.service_counts, other.service_counts),
            vendor_counts: seq5_add(self.vendor_counts, other.vendor_counts),
            department_counts: seq5_add(self.department_counts, other.department_counts),
            risk_factor_counts: seq5_add(self.risk_factor_counts, other.risk_factor_counts),
            total_data_sensitivity: self.total_data_sensitivity + other.total_data_sensitivity,
            data_sensitivity_samples: self.data_sensitivity_samples + other.data_sensitivity_samples,
        }
    }
}

/// Internal consistency of a snapshot's counts: every violation and tier
/// counter is bounded by the event total, each identifier distribution sums
/// to the event total, and the sensitivity sum stays on its scale.
pub open spec fn counts_wf(c: CountsView) -> bool {
    &&& c.wf()
    &&& 0 <= c.total_events
    &&& 0 <= c.eu_act_violations <= c.total_events
    &&& 0 <= c.gdpr_violations <= c.total_events
    &&& 0 <= c.internal_violations <= c.total_events
    &&& 0 <= c.high_risk_count
    &&& 0 <= c.medium_risk_count
    &&& 0 <= c.low_risk_count
    &&& c.high_risk_count + c.medium_risk_count + c.low_risk_count <= c.total_events
    &&& sum5(c.service_counts) == c.total_events
    &&& sum5(c.vendor_counts) == c.total_events
    &&& sum5(c.department_counts) == c.total_events
    &&& forall|j: int|
        0 <= j < BUCKET_COUNT ==> 0 <= #[trigger] c.service_counts[j] <= c.total_events
    &&& forall|j: int|
        0 <= j < BUCKET_COUNT ==> 0 <= #[trigger] c.vendor_counts[j] <= c.total_events
    &&& forall|j: int|
        0 <= j < BUCKET_COUNT ==> 0 <= #[trigger] c.department_counts[j] <= c.total_events
    &&& forall|j: int|
        0 <= j < BUCKET_COUNT ==> 0 <= #[trigger] c.risk_factor_counts[j] <= c.total_events
    &&& 0 <= c.total_data_sensitivity <= MAX_SENSITIVITY as int * c.total_events
    &&& c.data_sensitivity_samples == c.total_events
}

/// Merging two internally consistent counts gives internally consistent
/// counts.
pub proof fn lemma_counts_wf_add(a: CountsView, b: CountsView)
    requires
        counts_wf(a),
        counts_wf(b),
    ensures
        counts_wf(a.add(b)),
{
}

/// Merging counts is commutative.
pub proof fn lemma_merge_commutative(a: CountsView, b: CountsView)
    ensures
        a.add(b) == b.add(a),
{
    assert(a.add(b) =~= b.add(a));
}

/// Merging counts is associative.
pub proof fn lemma_merge_associative(a: CountsView, b: CountsView, c: CountsView)
    ensures
        a.add(b).add(c) == a.add(b.add(c)),
{
    assert(a.add(b).add(c) =~= a.add(b.add(c)));
}

/// A bounded series after one append: the new value goes at the end, and
/// the oldest entry is evicted if the series was full.
pub open spec fn spec_window_push<T>(s: Seq<T>, v: T) -> Seq<T> {
    if s.len() < HISTORY_WINDOW {
        s.push(v)
    } else {
        s.subrange(1, s.len() as int).push(v)
    }
}

/// A bounded series after a whole sequence of appends, oldest first.
pub open spec fn spec_window_fold<T>(s: Seq<T>, appends: Seq<T>) -> Seq<T>
    decreases appends.len(),
{
    if appends.len() == 0 {
        s
    } else {
        spec_window_fold(spec_window_push(s, appends[0]), appends.drop_first())
    }
}

/// Windowing bound: after any number of appends to a bounded series, the
/// series never exceeds its window, and it holds exactly the most recent
/// entries, in order.
pub proof fn lemma_window_bound<T>(s: Seq<T>, appends: Seq<T>)
    requires
        s.len() <= HISTORY_WINDOW,
    ensures
        spec_window_fold(s, appends).len() <= HISTORY_WINDOW,
        spec_window_fold(s, appends).len() == if s.len() + appends.len() <= HISTORY_WINDOW {
            s.len() + appends.len() as int
        } else {
            HISTORY_WINDOW as int
        },
        spec_window_fold(s, appends) == (s + appends).subrange(
            s.len() + appends.len() - spec_window_fold(s, appends).len(),
            (s + appends).len() as int,
        ),
    decreases appends.len(),
{
    let all = s + appends;
    if appends.len() == 0 {
        assert(all =~= s);
        assert(all.subrange(0, all.len() as int) =~= s);
    } else {
        let s1 = spec_window_push(s, appends[0]);
        let rest = appends.drop_first();
        lemma_window_bound(s1, rest);
        let r = spec_window_fold(s1, rest);
        let all1 = s1 + rest;
        if s.len() < HISTORY_WINDOW {
            assert(all1 =~= all);
        } else {
            assert(all1 =~= all.subrange(1, all.len() as int));
            assert(all1.subrange(all1.len() - r.len(), all1.len() as int) =~= all.subrange(
                all.len() - r.len(),
                all.len() as int,
            ));
        }
    }
}

impl ComplianceMetrics {
    /// The mergeable part of the snapshot as a mathematical value.
    pub open spec fn counts(self) -> CountsView {
        CountsView {
            total_events: self.total_events as int,
            eu_act_violations: self.eu_act_violations as int,
            gdpr_violations: self.gdpr_violations as int,
            internal_violations: self.internal_violations as int,
            high_risk_count: self.high_risk_count as int,
            medium_risk_count: self.medium_risk_count as int,
            low_risk_count: self.low_risk_count as int,
            service_counts: seq_int(self.service_counts@),
            vendor_counts: seq_int(self.vendor_counts@),
            department_counts: seq_int(self.department_counts@),
            risk_factor_counts: seq_int(self.risk_factor_counts@),
            total_data_sensitivity: self.total_data_sensitivity as int,
            data_sensitivity_samples: self.data_sensitivity_samples as int,
        }
    }

    /// A snapshot is well formed when its counts are internally consistent
    /// and its historical series respect the window bound.
    pub open spec fn wf(self) -> bool {
        &&& counts_wf(self.counts())
        &&& self.historical_rates@.len() <= HISTORY_WINDOW
        &&& self.historical_violations@.len() <= HISTORY_WINDOW
    }

    /// An empty snapshot: no events, empty history, zero rate.
    pub fn new() -> (m: ComplianceMetrics)
        ensures
            m.wf(),
            m.counts() == CountsView::empty(),
            m.processing_rate == 0,
            m.historical_rates@.len() == 0,
            m.historical_violations@.len() == 0,
    {
        let m = ComplianceMetrics {
            total_events: 0,
            eu_act_violations: 0,
            gdpr_violations: 0,
            internal_violations: 0,
            high_risk_count: 0,
            medium_risk_count: 0,
            low_risk_count: 0,
            service_counts: [0u64; BUCKET_COUNT],
            vendor_counts: [0u64; BUCKET_COUNT],
            department_counts: [0u64; BUCKET_COUNT],
            risk_factor_counts: [0u64; BUCKET_COUNT],
            total_data_sensitivity: 0,
            data_sensitivity_samples: 0,
            processing_rate: 0,
            historical_rates: Vec::new(),
            historical_violations: Vec::new(),
        };
        proof {
            assert(m.counts().service_counts =~= zeros5());
            assert(m.counts().vendor_counts =~= zeros5());
            assert(m.counts().department_counts =~= zeros5());
            assert(m.counts().risk_factor_counts =~= zeros5());
            assert(m.counts() =~= CountsView::empty());
        }
        m
    }

    /// Folds another snapshot's counts into this one, element-wise; the
    /// historical series and the processing rate are left to their owner
    /// and are not touched.
    pub fn merge(&mut self, other: &ComplianceMetrics)
        requires
            old(self).wf(),
            other.wf(),
            (old(self).total_events + other.total_events) * MAX_SENSITIVITY as int <= u64::MAX,
        ensures
            final(self).wf(),
            final(self).counts() == old(self).counts().add(other.counts()),
            final(self).processing_rate == old(self).processing_rate,
            final(self).historical_rates@ == old(self).historical_rates@,
            final(self).historical_violations@ == old(self).historical_violations@,
    {
        proof {
            lemma_counts_wf_add(old(self).counts(), other.counts());
            assert forall|j: int|
                0 <= j < BUCKET_COUNT implies old(self).risk_factor_counts@[j]
                + other.risk_factor_counts@[j] <= u64::MAX by {
                assert(old(self).counts().risk_factor_counts[j] == old(
                    self,
                ).risk_factor_counts@[j] as int);
                assert(other.counts().risk_factor_counts[j] == other.risk_factor_counts@[j] as int);
            }
        }
        self.total_events = self.total_events + other.total_events;
        self.eu_act_violations = self.eu_act_violations + other.eu_act_violations;
        self.gdpr_violations = self.gdpr_violations + other.gdpr_violations;
        self.internal_violations = self.internal_violations + other.internal_violations;
        self.high_risk_count = self.high_risk_count + other.high_risk_count;
        self.medium_risk_count = self.medium_risk_count + other.medium_risk_count;
        self.low_risk_count = self.low_risk_count + other.low_risk_count;
        add_buckets(&mut self.service_counts, &other.service_counts);
        add_buckets(&mut self.vendor_counts, &other.vendor_counts);
        add_buckets(&mut self.department_counts, &other.department_counts);
        add_buckets(&mut self.risk_factor_counts, &other.risk_factor_counts);
        self.total_data_sensitivity = self.total_data_sensitivity + other.total_data_sensitivity;
        self.data_sensitivity_samples = self.data_sensitivity_samples
            + other.data_sensitivity_samples;
        proof {
            assert(self.counts().service_counts =~= old(self).counts().add(
                other.counts(),
            ).service_counts);
            assert(self.counts().vendor_counts =~= old(self).counts().add(
                other.counts(),
            ).vendor_counts);
            assert(self.counts().department_counts =~= old(self).counts().add(
                other.counts(),
            ).department_counts);
            assert(self.counts().risk_factor_counts =~= old(self).counts().add(
                other.counts(),
            ).risk_factor_counts);
            assert(self.counts() =~= old(self).counts().add(other.counts()));
        }
    }

    /// One reporting tick: records the processing rate measured over the
    /// elapsed interval and appends it, together with the current violation
    /// triple, to the bounded historical series. Counters are untouched.
    pub fn update_historical_data(&mut self, processed_since_last: u64, elapsed_ms: u64)
        requires
            old(self).wf(),
            elapsed_ms >= 1,
        ensures
            final(self).wf(),
            final(self).counts() == old(self).counts(),
            final(self).processing_rate == spec_rate(processed_since_last, elapsed_ms),
            final(self).historical_rates@ == spec_window_push(
                old(self).historical_rates@,
                final(self).processing_rate,
            ),
            final(self).historical_violations@ == spec_window_push(
                old(self).historical_violations@,
                (old(self).eu_act_violations, old(self).gdpr_violations, old(
                    self,
                ).internal_violations),
            ),
    {
        let wide: u128 = (processed_since_last as u128) * 1000 / (elapsed_ms as u128);
        let rate: u64 = if wide > u64::MAX as u128 {
            u64::MAX
        } else {
            wide as u64
        };
        self.processing_rate = rate;
        self.historical_rates.push(rate);
        if self.historical_rates.len() > HISTORY_WINDOW {
            self.historical_rates.remove(0);
        }
        proof {
            assert(self.historical_rates@ =~= spec_window_push(
                old(self).historical_rates@,
                rate,
            ));
        }
        let violations = (self.eu_act_violations, self.gdpr_violations, self.internal_violations);
        self.historical_violations.push(violations);
        if self.historical_violations.len() > HISTORY_WINDOW {
            self.historical_violations.remove(0);
        }
        proof {
            assert(self.historical_violations@ =~= spec_window_push(
                old(self).historical_violations@,
                violations,
            ));
            assert(self.counts() =~= old(self).counts());
        }
    }

    /// The overall compliance percentage as an exact fraction: numerator
    /// over denominator, out of three checks per event. With no events the
    /// pipeline is fully compliant, and the fraction is exactly one hundred.
    pub fn compliance_percentage(&self) -> (r: (u128, u128))
        requires
            self.wf(),
        ensures
            r.1 >= 1,
            self.total_events == 0 ==> r == (100u128, 1u128),
            self.total_events > 0 ==> {
                &&& r.0 == 100 * (3 * self.total_events - (self.eu_act_violations
                    + self.gdpr_violations + self.internal_violations))
                &&& r.1 == 3 * self.total_events
            },
    {
        if self.total_events == 0 {
            (100, 1)
        } else {
            let checks: u128 = 3 * (self.total_events as u128);
            let violations: u128 = self.eu_act_violations as u128 + self.gdpr_violations as u128
                + self.internal_violations as u128;
            (100 * (checks - violations), checks)
        }
    }

    /// The share of events in each risk tier, as exact fractions over a
    /// common denominator: numerators for high, medium and low, each one
    /// hundred times the tier count. With no events every share is zero.
    pub fn risk_distribution(&self) -> (r: ([u128; 3], u128))
        requires
            self.wf(),
        ensures
            r.1 >= 1,
            self.total_events == 0 ==> r.0@[0] == 0 && r.0@[1] == 0 && r.0@[2] == 0 && r.1 == 1,
            self.total_events > 0 ==> {
                &&& r.0@[0] == 100 * self.high_risk_count
                &&& r.0@[1] == 100 * self.medium_risk_count
                &&& r.0@[2] == 100 * self.low_risk_count
                &&& r.1 == self.total_events
            },
    {
        if self.total_events == 0 {
            ([0, 0, 0], 1)
        } else {
            (
                [
                    100 * (self.high_risk_count as u128),
                    100 * (self.medium_risk_count as u128),
                    100 * (self.low_risk_count as u128),
                ],
                self.total_events as u128,
            )
        }
    }

    /// An observably identical copy of the snapshot: same counts, same
    /// rate, same historical series.
    pub fn snapshot(&self) -> (r: ComplianceMetrics)
        ensures
            r.counts() == self.counts(),
            r.processing_rate == self.processing_rate,
            r.historical_rates@ == self.historical_rates@,
            r.historical_violations@ == self.historical_violations@,
            self.wf() ==> r.wf(),
    {
        ComplianceMetrics {
            total_events: self.total_events,
            eu_act_violations: self.eu_act_violations,
            gdpr_violations: self.gdpr_violations,
            internal_violations: self.internal_violations,
            high_risk_count: self.high_risk_count,
            medium_risk_count: self.medium_risk_count,
            low_risk_count: self.low_risk_count,
            service_counts: self.service_counts,
            vendor_counts: self.vendor_counts,
            department_counts: self.department_counts,
            risk_factor_counts: self.risk_factor_counts,
            total_data_sensitivity: self.total_data_sensitivity,
            data_sensitivity_samples: self.data_sensitivity_samples,
            processing_rate: self.processing_rate,
            historical_rates: copy_vec(&self.historical_rates),
            historical_violations: copy_vec(&self.historical_violations),
        }
    }
}

/// The processing rate over one interval, in events per second: integer
/// division, saturating at the counter bound.
pub open spec fn spec_rate(processed: u64, elapsed_ms: u64) -> int
    recommends
        elapsed_ms >= 1,
{
    if processed * 1000 / (elapsed_ms as int) > u64::MAX {
        u64::MAX as int
    } else {
        processed * 1000 / (elapsed_ms as int)
    }
}

/// A copy of a vector of plain values.
fn copy_vec<T: Copy>(v: &Vec<T>) -> (r: Vec<T>)
    ensures
        r@ == v@,
{
    let mut r: Vec<T> = Vec::new();
    let n = v.len();
    for i in 0..n
        invariant
            n == v@.len(),
            r@ == v@.take(i as int),
    {
        r.push(v[i]);
        proof {
            assert(r@ =~= v@.take(i as int + 1));
        }
    }
    proof {
        assert(v@.take(n as int) =~= v@);
    }
    r
}

/// A distribution with a single count in the given bucket.
pub open spec fn unit5(idx: int) -> Seq<int> {
    Seq::new(BUCKET_COUNT as nat, |i: int| if i == idx { 1int } else { 0int })
}

/// A risk-factor distribution with one count per factor that fired, in the
/// fixed factor order.
pub open spec fn factor_seq(f: RiskFactors) -> Seq<int> {
    seq![
        if f.eu_act { 1int } else { 0int },
        if f.gdpr { 1int } else { 0int },
        if f.internal_policy { 1int } else { 0int },
        if f.sensitive_data { 1int } else { 0int },
        if f.public_model { 1int } else { 0int },
    ]
}

/// What one event contributes to a collected snapshot: one to the total,
/// one per cleared compliance flag, its bucket in each distribution, its
/// sensitivity, and — only when a risk assessment is attached — its risk
/// factors and exactly one risk tier.
pub open spec fn spec_event_counts(e: Event) -> CountsView {
    CountsView {
        total_events: 1,
        eu_act_violations: if e.compliance.eu_act { 0int } else { 1int },
        gdpr_violations: if e.compliance.gdpr { 0int } else { 1int },
        internal_violations: if e.compliance.internal_policy { 0int } else { 1int },
        high_risk_count: match e.risk {
            Some(r) => if r.score > HIGH_RISK_LIMIT { 1int } else { 0int },
            None => 0int,
        },
        medium_risk_count: match e.risk {
            Some(r) => if MEDIUM_RISK_LIMIT < r.score <= HIGH_RISK_LIMIT { 1int } else { 0int },
            None => 0int,
        },
        low_risk_count: match e.risk {
            Some(r) => if r.score <= MEDIUM_RISK_LIMIT { 1int } else { 0int },
            None => 0int,
        },
        service_counts: unit5(e.service.name_idx as int),
        vendor_counts: unit5(e.service.vendor_idx as int),
        department_counts: unit5(e.usage.department_idx as int),
        risk_factor_counts: match e.risk {
            Some(r) => factor_seq(r.factors),
            None => zeros5(),
        },
        total_data_sensitivity: e.usage.data_sensitivity as int,
        data_sensitivity_samples: 1,
    }
}

/// The counts a scan of a whole batch produces: the sum of what each event
/// contributes.
pub open spec fn spec_collect(s: Seq<Event>) -> CountsView
    decreases s.len(),
{
    if s.len() == 0 {
        CountsView::empty()
    } else {
        spec_collect(s.drop_last()).add(spec_event_counts(s.last()))
    }
}

/// One valid event's contribution is internally consistent.
proof fn lemma_event_counts_wf(e: Event)
    requires
        e.valid(),
    ensures
        counts_wf(spec_event_counts(e)),
        spec_event_counts(e).total_events == 1,
{
}

/// A scan of valid events yields internally consistent counts, with one
/// counted event per scanned event.
pub proof fn lemma_collect_props(s: Seq<Event>)
    requires
        forall|i: int| 0 <= i < s.len() ==> s[i].valid(),
    ensures
        counts_wf(spec_collect(s)),
        spec_collect(s).total_events == s.len(),
    decreases s.len(),
{
    if s.len() > 0 {
        lemma_collect_props(s.drop_last());
        lemma_event_counts_wf(s.last());
        lemma_counts_wf_add(spec_collect(s.drop_last()), spec_event_counts(s.last()));
    }
}

/// Over a batch in which every event carries a risk assessment, each event
/// falls into exactly one risk tier, so the three tier counters sum to the
/// batch size.
pub proof fn lemma_collect_tiers(s: Seq<Event>)
    requires
        forall|i: int| 0 <= i < s.len() ==> (#[trigger] s[i]).risk is Some,
    ensures
        spec_collect(s).high_risk_count + spec_collect(s).medium_risk_count + spec_collect(
            s,
        ).low_risk_count == s.len(),
    decreases s.len(),
{
    if s.len() > 0 {
        lemma_collect_tiers(s.drop_last());
    }
}

/// Counts one more event in the given bucket.
fn bump_bucket(a: &mut [u64; BUCKET_COUNT], idx: u8)
    requires
        idx < BUCKET_COUNT as u8,
        forall|j: int| 0 <= j < BUCKET_COUNT ==> old(a)@[j] < u64::MAX,
    ensures
        forall|j: int|
            0 <= j < BUCKET_COUNT ==> final(a)@[j] == old(a)@[j] + if j == idx as int {
                1int
            } else {
                0int
            },
{
    a[idx as usize] = a[idx as usize] + 1;
}

/// Scans a fully processed batch once and produces its snapshot: the
/// counts are exactly the sum of each event's contribution, the history is
/// empty and the rate unset.
#[verifier::rlimit(100)]
pub fn collect_metrics(batch: &Vec<Event>) -> (m: ComplianceMetrics)
    requires
        forall|i: int| 0 <= i < batch@.len() ==> batch@[i].valid(),
        batch@.len() * MAX_SENSITIVITY as int <= u64::MAX,
    ensures
        m.wf(),
        m.counts() == spec_collect(batch@),
        m.total_events == batch@.len(),
        m.processing_rate == 0,
        m.historical_rates@.len() == 0,
        m.historical_violations@.len() == 0,
{
    let mut m = ComplianceMetrics::new();
    let n = batch.len();
    for i in 0..n
        invariant
            n == batch@.len(),
            forall|k: int| 0 <= k < batch@.len() ==> batch@[k].valid(),
            batch@.len() * MAX_SENSITIVITY as int <= u64::MAX,
            m.counts() == spec_collect(batch@.take(i as int)),
            m.processing_rate == 0,
            m.historical_rates@.len() == 0,
            m.historical_violations@.len() == 0,
    {
        let ghost prev = m.counts();
        proof {
            lemma_collect_props(batch@.take(i as int));
            assert forall|j: int|
                0 <= j < BUCKET_COUNT implies m.service_counts@[j] < u64::MAX
                && m.vendor_counts@[j] < u64::MAX && m.department_counts@[j] < u64::MAX
                && m.risk_factor_counts@[j] + BUCKET_COUNT < u64::MAX by {
                assert(prev.service_counts[j] == m.service_counts@[j] as int);
                assert(prev.vendor_counts[j] == m.vendor_counts@[j] as int);
                assert(prev.department_counts[j] == m.department_counts@[j] as int);
                assert(prev.risk_factor_counts[j] == m.risk_factor_counts@[j] as int);
            }
        }
        let e = batch[i];
        m.total_events = m.total_events + 1;
        bump_bucket(&mut m.service_counts, e.service.name_idx);
        bump_bucket(&mut m.vendor_counts, e.service.vendor_idx);
        bump_bucket(&mut m.department_counts, e.usage.department_idx);
        m.total_data_sensitivity = m.total_data_sensitivity + e.usage.data_sensitivity as u64;
        m.data_sensitivity_samples = m.data_sensitivity_samples + 1;
        if !e.compliance.eu_act {
            m.eu_act_violations = m.eu_act_violations + 1;
        }
        if !e.compliance.gdpr {
            m.gdpr_violations = m.gdpr_violations + 1;
        }
        if !e.compliance.internal_policy {
            m.internal_violations = m.internal_violations + 1;
        }
        match e.risk {
            Some(risk) => {
                if risk.factors.eu_act {
                    bump_bucket(&mut m.risk_factor_counts, 0);
                }
                if risk.factors.gdpr {
                    bump_bucket(&mut m.risk_factor_counts, 1);
                }
                if risk.factors.internal_policy {
                    bump_bucket(&mut m.risk_factor_counts, 2);
                }
                if risk.factors.sensitive_data {
                    bump_bucket(&mut m.risk_factor_counts, 3);
                }
                if risk.factors.public_model {
                    bump_bucket(&mut m.risk_factor_counts, 4);
                }
                if risk.score > HIGH_RISK_LIMIT {
                    m.high_risk_count = m.high_risk_count + 1;
                } else if risk.score > MEDIUM_RISK_LIMIT {
                    m.medium_risk_count = m.medium_risk_count + 1;
                } else {
                    m.low_risk_count = m.low_risk_count + 1;
                }
            },
            None => {},
        }
        proof {
            let s1 = batch@.take(i as int + 1);
            assert(s1.drop_last() =~= batch@.take(i as int));
            assert(s1.last() == batch@[i as int]);
            let delta = spec_event_counts(batch@[i as int]);
            assert(m.counts().service_counts =~= seq5_add(prev.service_counts,
                delta.service_counts));
            assert(m.counts().vendor_counts =~= seq5_add(prev.vendor_counts,
                delta.vendor_counts));
            assert(m.counts().department_counts =~= seq5_add(prev.department_counts,
                delta.department_counts));
            assert(m.counts().risk_factor_counts =~= seq5_add(prev.risk_factor_counts,
                delta.risk_factor_counts));
            assert(m.counts() =~= prev.add(delta));
        }
    }
    proof {
        assert(batch@.take(n as int) =~= batch@);
        lemma_collect_props(batch@);
    }
    m
}

/// Adds a distribution into another, bucket by bucket.
fn add_buckets(a: &mut [u64; BUCKET_COUNT], b: &[u64; BUCKET_COUNT])
    requires
        forall|j: int| 0 <= j < BUCKET_COUNT ==> old(a)@[j] + b@[j] <= u64::MAX,
    ensures
        forall|j: int| 0 <= j < BUCKET_COUNT ==> final(a)@[j] == old(a)@[j] + b@[j],
{
    for i in 0..BUCKET_COUNT
        invariant
            forall|j: int| 0 <= j < BUCKET_COUNT ==> old(a)@[j] + b@[j] <= u64::MAX,
            forall|j: int| 0 <= j < i ==> a@[j] == old(a)@[j] + b@[j],
            forall|j: int| i <= j < BUCKET_COUNT ==> a@[j] == old(a)@[j],
    {
        a[i] = a[i] + b[i];
    }
}

} // verus!
