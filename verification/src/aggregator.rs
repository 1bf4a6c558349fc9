use vstd::prelude::*;

use crate::constants::MAX_SENSITIVITY;
use crate::metrics::{spec_rate, spec_window_push, ComplianceMetrics, CountsView};

verus! {

/// The aggregator's state, owned by a single consumer of the metrics
/// channel: the lifetime total of everything received, and the part
/// received since the last reporting tick.
pub struct Aggregator {
    pub total: ComplianceMetrics,
    pub since_last: ComplianceMetrics,
}

impl Aggregator {
    /// Both snapshots are well formed, the interval part is a plain
    /// counter snapshot, and it never counts more than the total.
    pub open spec fn wf(self) -> bool {
        &&& self.total.wf()
        &&& self.since_last.wf()
        &&& self.since_last.processing_rate == 0
        &&& self.since_last.historical_rates@.len() == 0
        &&& self.since_last.historical_violations@.len() == 0
        &&& self.since_last.total_events <= self.total.total_events
    }

    /// A fresh aggregator that has received nothing.
    pub fn new() -> (a: Aggregator)
        ensures
            a.wf(),
            a.total.counts() == CountsView::empty(),
            a.total.historical_rates@.len() == 0,
            a.total.historical_violations@.len() == 0,
            a.total.processing_rate == 0,
            a.since_last.counts() == CountsView::empty(),
    {
        Aggregator { total: ComplianceMetrics::new(), since_last: ComplianceMetrics::new() }
    }

    /// Folds one received snapshot into both the lifetime total and the
    /// interval delta; the total's historical series are untouched.
    pub fn absorb(&mut self, m: &ComplianceMetrics)
        requires
            old(self).wf(),
            m.wf(),
            (old(self).total.total_events + m.total_events) * MAX_SENSITIVITY as int <= u64::MAX,
        ensures
            final(self).wf(),
            final(self).total.counts() == old(self).total.counts().add(m.counts()),
            final(self).since_last.counts() == old(self).since_last.counts().add(m.counts()),
            final(self).total.processing_rate == old(self).total.processing_rate,
            final(self).total.historical_rates@ == old(self).total.historical_rates@,
            final(self).total.historical_violations@ == old(self).total.historical_violations@,
    {
        self.total.merge(m);
        self.since_last.merge(m);
    }

    /// One reporting tick, after the elapsed interval: records the
    /// throughput measured from the interval delta, appends it and the
    /// lifetime violation triple to the total's bounded series, resets the
    /// interval delta, and returns a copy of the total for display.
    pub fn tick(&mut self, elapsed_ms: u64) -> (snap: ComplianceMetrics)
        requires
            old(self).wf(),
            elapsed_ms >= 1,
        ensures
            final(self).wf(),
            final(self).total.counts() == old(self).total.counts(),
            final(self).total.processing_rate == spec_rate(
                old(self).since_last.total_events,
                elapsed_ms,
            ),
            final(self).total.historical_rates@ == spec_window_push(
                old(self).total.historical_rates@,
                final(self).total.processing_rate,
            ),
            final(self).total.historical_violations@ == spec_window_push(
                old(self).total.historical_violations@,
                (old(self).total.eu_act_violations, old(self).total.gdpr_violations, old(
                    self,
                ).total.internal_violations),
            ),
            final(self).since_last.counts() == CountsView::empty(),
            snap.counts() == final(self).total.counts(),
            snap.processing_rate == final(self).total.processing_rate,
            snap.historical_rates@ == final(self).total.historical_rates@,
            snap.historical_violations@ == final(self).total.historical_violations@,
            snap.wf(),
    {
        let processed = self.since_last.total_events;
        self.total.update_historical_data(processed, elapsed_ms);
        let snap = self.total.snapshot();
        self.since_last = ComplianceMetrics::new();
        snap
    }
}

} // verus!
