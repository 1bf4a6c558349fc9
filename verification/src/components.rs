use vstd::prelude::*;

use crate::constants::BUCKET_COUNT;

verus! {

/// Runtime configuration consumed by the pipeline: target aggregate event
/// rate, reporting interval, and an optional worker-thread count.
#[derive(Clone, Copy, Debug)]
pub struct Args {
    /// Number of events to process per second, over all workers.
    pub rate: u32,
    /// Reporting interval in seconds.
    pub interval: u64,
    /// Number of worker threads; `None` asks for the machine's default.
    pub threads: Option<usize>,
}

impl Args {
    /// Resolves the worker-thread count against a machine-supplied default,
    /// rejecting a non-positive count.
    pub fn worker_count(&self, available: usize) -> (r: Option<usize>)
        ensures
            r == (match self.threads {
                Some(t) => if t > 0 { Some(t) } else { None::<usize> },
                None => if available > 0 { Some(available) } else { None::<usize> },
            }),
    {
        match self.threads {
            Some(t) => if t > 0 { Some(t) } else { None },
            None => if available > 0 { Some(available) } else { None },
        }
    }

    /// Size of the batch each worker generates per cycle: the per-worker
    /// share of the target rate, spread over one hundred cycles per second,
    /// with a minimum practical batch of one event.
    pub fn events_per_batch(&self, workers: usize) -> (b: usize)
        requires
            workers >= 1,
        ensures
            b == if self.rate as int / workers as int / 100 == 0 {
                1int
            } else {
                self.rate as int / workers as int / 100
            },
            b >= 1,
    {
        let share: usize = (self.rate as usize) / workers / 100;
        if share == 0 { 1 } else { share }
    }
}

/// The service an event was recorded against, as indices into the fixed
/// identifier lists.
#[derive(Clone, Copy, PartialEq, Eq, Structural, Debug)]
pub struct AIService {
    pub name_idx: u8,
    pub vendor_idx: u8,
}

impl AIService {
    /// Both indices fall inside the fixed identifier lists.
    pub open spec fn valid(self) -> bool {
        self.name_idx < BUCKET_COUNT as u8 && self.vendor_idx < BUCKET_COUNT as u8
    }
}

/// How the service was used: the requesting department and how sensitive
/// the data involved was, on a scale from 0 to `MAX_SENSITIVITY`.
#[derive(Clone, Copy, PartialEq, Eq, Structural, Debug)]
pub struct Usage {
    pub department_idx: u8,
    pub data_sensitivity: u8,
}

impl Usage {
    /// The department index falls inside the fixed identifier list and the
    /// sensitivity stays on its scale.
    pub open spec fn valid(self) -> bool {
        self.department_idx < BUCKET_COUNT as u8
            && self.data_sensitivity <= crate::constants::MAX_SENSITIVITY
    }
}

/// Per-event compliance register: one flag per rule, set meaning compliant.
#[derive(Clone, Copy, PartialEq, Eq, Structural, Debug)]
pub struct ComplianceStatus {
    pub eu_act: bool,
    pub gdpr: bool,
    pub internal_policy: bool,
}

impl ComplianceStatus {
    /// The register every event starts from: compliant with every rule.
    pub fn all_compliant() -> (c: ComplianceStatus)
        ensures
            c.eu_act && c.gdpr && c.internal_policy,
    {
        ComplianceStatus { eu_act: true, gdpr: true, internal_policy: true }
    }
}

/// Which risk contributors fired for an event.
#[derive(Clone, Copy, PartialEq, Eq, Structural, Debug)]
pub struct RiskFactors {
    pub eu_act: bool,
    pub gdpr: bool,
    pub internal_policy: bool,
    pub sensitive_data: bool,
    pub public_model: bool,
}

/// Risk derived from an event's compliance register and usage: a score on
/// a 0 to 100 scale and the set of factors that contributed to it.
#[derive(Clone, Copy, PartialEq, Eq, Structural, Debug)]
pub struct RiskAssessment {
    pub score: u8,
    pub factors: RiskFactors,
}

/// One simulated unit of AI-service usage. The risk field is present if and
/// only if the full rule chain has run on the event.
#[derive(Clone, Copy, Debug)]
pub struct Event {
    pub service: AIService,
    pub usage: Usage,
    pub compliance: ComplianceStatus,
    pub risk: Option<RiskAssessment>,
}

/// A fresh event as a value: all-compliant register, no risk attached yet.
pub open spec fn spec_fresh_event(service: AIService, usage: Usage) -> Event {
    Event {
        service,
        usage,
        compliance: ComplianceStatus { eu_act: true, gdpr: true, internal_policy: true },
        risk: None,
    }
}

impl Event {
    /// A fresh event: all-compliant register, no risk attached yet.
    pub fn new(service: AIService, usage: Usage) -> (e: Event)
        ensures
            e == spec_fresh_event(service, usage),
    {
        Event { service, usage, compliance: ComplianceStatus::all_compliant(), risk: None }
    }

    /// The identifier indices the event carries are all in range.
    pub open spec fn valid(self) -> bool {
        self.service.valid() && self.usage.valid()
    }
}

} // verus!
