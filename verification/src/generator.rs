use vstd::prelude::*;

use crate::components::{AIService, Usage};
use crate::constants::{BUCKET_COUNT, MAX_SENSITIVITY};
use rand::rngs::StdRng;
use rand::Rng;

verus! {

/// rand's standard generator. Each worker owns one, so batches can be
/// produced concurrently without shared state; its value is opaque here.
#[verifier::external_type_specification]
#[verifier::external_body]
pub struct ExStdRng(StdRng);

/// Relies on rand's `SeedableRng::seed_from_u64` for `StdRng`: builds a
/// generator from a word-sized seed.
#[verifier::external_body]
pub(crate) fn rng_from_seed(seed: u64) -> StdRng {
    rand::SeedableRng::seed_from_u64(seed)
}

/// Relies on rand's `Rng::random_range` over `0..bound`: the draw always
/// lies below the bound. The call panics on an empty range, so the bound
/// must be positive.
#[verifier::external_body]
fn draw_below(rng: &mut StdRng, bound: u8) -> (r: u8)
    requires
        bound > 0,
    ensures
        r < bound,
{
    rng.random_range(0..bound)
}

/// Generates a batch of raw events, every attribute drawn independently
/// and uniformly from its domain, consuming only the caller's own random
/// source.
pub fn generate_ai_events(rng: &mut StdRng, count: usize) -> (events: Vec<(AIService, Usage)>)
    ensures
        events@.len() == count,
        forall|i: int|
            0 <= i < count ==> (#[trigger] events@[i]).0.valid() && events@[i].1.valid()
                && events@[i].1.data_sensitivity < MAX_SENSITIVITY,
{
    let mut events: Vec<(AIService, Usage)> = Vec::with_capacity(count);
    for k in 0..count
        invariant
            events@.len() == k,
            forall|i: int|
                0 <= i < k ==> (#[trigger] events@[i]).0.valid() && events@[i].1.valid()
                    && events@[i].1.data_sensitivity < MAX_SENSITIVITY,
    {
        let service = AIService {
            name_idx: draw_below(rng, BUCKET_COUNT as u8),
            vendor_idx: draw_below(rng, BUCKET_COUNT as u8),
        };
        let usage = Usage {
            department_idx: draw_below(rng, BUCKET_COUNT as u8),
            data_sensitivity: draw_below(rng, MAX_SENSITIVITY),
        };
        events.push((service, usage));
    }
    events
}

} // verus!
