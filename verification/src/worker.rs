use vstd::prelude::*;

use crate::components::{spec_fresh_event, AIService, Event, Usage};
use crate::constants::{CYCLES_PER_FLUSH, MAX_SENSITIVITY};
use crate::generator::{generate_ai_events, rng_from_seed};
use crate::metrics::{collect_metrics, counts_wf, lemma_collect_tiers, lemma_counts_wf_add,
    lemma_merge_associative, spec_collect, ComplianceMetrics, CountsView};
use crate::rules::{apply_rule_chain, spec_apply_chain};
use rand::rngs::StdRng;

verus! {

/// The batch a worker evaluates, as a value: one fresh event per generated
/// pair, each run through the whole rule chain.
pub open spec fn spec_processed_batch(pairs: Seq<(AIService, Usage)>) -> Seq<Event> {
    pairs.map_values(|p: (AIService, Usage)| spec_apply_chain(spec_fresh_event(p.0, p.1)))
}

/// Wraps raw generated pairs into fresh events, ready for the rule chain.
pub fn build_events(pairs: &Vec<(AIService, Usage)>) -> (batch: Vec<Event>)
    ensures
        batch@.len() == pairs@.len(),
        forall|i: int|
            0 <= i < pairs@.len() ==> batch@[i] == spec_fresh_event(
                (#[trigger] pairs@[i]).0,
                pairs@[i].1,
            ),
{
    let mut batch: Vec<Event> = Vec::with_capacity(pairs.len());
    let n = pairs.len();
    for k in 0..n
        invariant
            n == pairs@.len(),
            batch@.len() == k,
            forall|i: int|
                0 <= i < k ==> batch@[i] == spec_fresh_event(
                    (#[trigger] pairs@[i]).0,
                    pairs@[i].1,
                ),
    {
        let (service, usage) = pairs[k];
        batch.push(Event::new(service, usage));
    }
    batch
}

/// The pure core of one worker cycle: builds fresh events from the raw
/// pairs, runs the rule chain over the whole batch in stage order, and
/// scans the processed batch into one snapshot.
pub fn process_batch(pairs: &Vec<(AIService, Usage)>) -> (m: ComplianceMetrics)
    requires
        forall|i: int| 0 <= i < pairs@.len() ==> (#[trigger] pairs@[i]).0.valid()
            && pairs@[i].1.valid(),
        pairs@.len() * MAX_SENSITIVITY as int <= u64::MAX,
    ensures
        m.wf(),
        m.counts() == spec_collect(spec_processed_batch(pairs@)),
        m.total_events == pairs@.len(),
        m.high_risk_count + m.medium_risk_count + m.low_risk_count == pairs@.len(),
        m.processing_rate == 0,
        m.historical_rates@.len() == 0,
        m.historical_violations@.len() == 0,
{
    let mut batch = build_events(pairs);
    apply_rule_chain(&mut batch);
    proof {
        assert(batch@ =~= spec_processed_batch(pairs@));
        assert forall|i: int| 0 <= i < batch@.len() implies (#[trigger] batch@[i]).valid()
            && batch@[i].risk is Some by {
            assert(batch@[i] == spec_apply_chain(spec_fresh_event(pairs@[i].0, pairs@[i].1)));
        }
        lemma_collect_tiers(batch@);
    }
    let m = collect_metrics(&batch);
    m
}

/// One worker's private state: its own random source, the metrics
/// accumulated since the last flush, and the position within the flush
/// window. The two ghost fields account for everything the worker has
/// collected and everything it has handed out, so that nothing is lost
/// between flushes.
pub struct WorkerState {
    pub rng: StdRng,
    pub acc: ComplianceMetrics,
    pub cycles_since_flush: u64,
    pub collected: Ghost<CountsView>,
    pub flushed: Ghost<CountsView>,
}

impl WorkerState {
    /// The accumulator is a plain, internally consistent counter snapshot
    /// within the flush window, and everything collected is either still
    /// accumulated or already flushed.
    pub open spec fn wf(self) -> bool {
        &&& self.acc.wf()
        &&& self.acc.processing_rate == 0
        &&& self.acc.historical_rates@.len() == 0
        &&& self.acc.historical_violations@.len() == 0
        &&& self.cycles_since_flush < CYCLES_PER_FLUSH
        &&& counts_wf(self.flushed@)
        &&& self.collected@ == self.flushed@.add(self.acc.counts())
    }

    /// A fresh worker with its own seeded random source and an empty
    /// accumulator.
    pub fn new(seed: u64) -> (w: WorkerState)
        ensures
            w.wf(),
            w.acc.counts() == CountsView::empty(),
            w.collected@ == CountsView::empty(),
            w.flushed@ == CountsView::empty(),
            w.cycles_since_flush == 0,
    {
        let w = WorkerState {
            rng: rng_from_seed(seed),
            acc: ComplianceMetrics::new(),
            cycles_since_flush: 0,
            collected: Ghost(CountsView::empty()),
            flushed: Ghost(CountsView::empty()),
        };
        proof {
            assert(CountsView::empty().add(CountsView::empty()) =~= CountsView::empty());
        }
        w
    }

    /// One full cycle: generate a batch, evaluate it, fold its snapshot
    /// into the accumulator, and—on every tenth cycle—hand the accumulator
    /// out for sending and start over empty. The caller performs the
    /// actual send; a failed send is its concern, never the worker's.
    pub fn run_cycle(&mut self, batch_size: usize) -> (flush: Option<ComplianceMetrics>)
        requires
            old(self).wf(),
            batch_size >= 1,
            (old(self).acc.total_events + batch_size) * MAX_SENSITIVITY as int <= u64::MAX,
        ensures
            final(self).wf(),
            exists|d: CountsView|
                {
                    &&& counts_wf(d)
                    &&& d.total_events == batch_size
                    &&& final(self).collected@ == old(self).collected@.add(d)
                    &&& (old(self).cycles_since_flush + 1 == CYCLES_PER_FLUSH ==> {
                        &&& flush is Some
                        &&& flush.unwrap().counts() == old(self).acc.counts().add(d)
                        &&& flush.unwrap().wf()
                        &&& final(self).acc.counts() == CountsView::empty()
                        &&& final(self).flushed@ == old(self).flushed@.add(flush.unwrap().counts())
                        &&& final(self).cycles_since_flush == 0
                    })
                    &&& (old(self).cycles_since_flush + 1 < CYCLES_PER_FLUSH ==> {
                        &&& flush is None
                        &&& final(self).acc.counts() == old(self).acc.counts().add(d)
                        &&& final(self).flushed@ == old(self).flushed@
                        &&& final(self).cycles_since_flush == old(self).cycles_since_flush + 1
                    })
                },
    {
        let pairs = generate_ai_events(&mut self.rng, batch_size);
        let batch_metrics = process_batch(&pairs);
        let ghost d = batch_metrics.counts();
        proof {
            lemma_counts_wf_add(old(self).acc.counts(), d);
        }
        self.acc.merge(&batch_metrics);
        self.collected = Ghost(self.collected@.add(d));
        proof {
            lemma_merge_associative(old(self).flushed@, old(self).acc.counts(), d);
        }
        self.cycles_since_flush = self.cycles_since_flush + 1;
        if self.cycles_since_flush == CYCLES_PER_FLUSH {
            self.cycles_since_flush = 0;
            let out = self.acc.snapshot();
            self.acc = ComplianceMetrics::new();
            self.flushed = Ghost(self.flushed@.add(out.counts()));
            proof {
                assert(self.flushed@.add(self.acc.counts()) =~= self.collected@);
            }
            Some(out)
        } else {
            None
        }
    }

    /// The final flush on shutdown: hands out whatever is still
    /// accumulated, after which everything the worker ever collected has
    /// been flushed — the conservation half of the shutdown property.
    pub fn drain(&mut self) -> (flush: Option<ComplianceMetrics>)
        requires
            old(self).wf(),
        ensures
            final(self).wf(),
            final(self).collected@ == old(self).collected@,
            final(self).flushed@ == final(self).collected@,
            final(self).acc.counts() == CountsView::empty(),
            final(self).cycles_since_flush == 0,
            old(self).acc.total_events > 0 ==> flush is Some && flush.unwrap().counts() == old(
                self,
            ).acc.counts() && flush.unwrap().wf(),
            old(self).acc.total_events == 0 ==> flush is None,
    {
        self.cycles_since_flush = 0;
        if self.acc.total_events > 0 {
            let out = self.acc.snapshot();
            self.acc = ComplianceMetrics::new();
            self.flushed = Ghost(self.flushed@.add(out.counts()));
            proof {
                assert(self.flushed@.add(self.acc.counts()) =~= self.flushed@);
                assert(self.flushed@ =~= self.collected@);
            }
            Some(out)
        } else {
            proof {
                lemma_zero_total_is_empty(self.acc.counts());
                assert(self.flushed@.add(self.acc.counts()) =~= self.flushed@);
            }
            None
        }
    }
}

/// Internally consistent counts with no events are the empty counts.
proof fn lemma_zero_total_is_empty(c: CountsView)
    requires
        counts_wf(c),
        c.total_events == 0,
    ensures
        c == CountsView::empty(),
{
    assert(c =~= CountsView::empty());
}

} // verus!
