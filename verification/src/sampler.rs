//! The analog sampler: what becomes of one conversion result.

use vstd::prelude::*;

verus! {

/// The fixed wait between two conversions, in milliseconds.
pub const POLL_INTERVAL_MS: u64 = 100;

/// What the sampler does after a conversion has completed.
#[derive(Clone, Copy, Debug, PartialEq, Eq, Structural)]
pub struct SamplerStep {
    /// The value to store into the rate cell.
    pub store: u16,
    /// The timer wait that ends the iteration, in milliseconds.
    pub wait_ms: u64,
}

impl SamplerStep {
    /// The iteration for a conversion result: the raw reading is stored as it
    /// is, neither scaled nor clamped, and the task then waits one polling
    /// interval.
    pub open spec fn of(sample: u16) -> SamplerStep {
        SamplerStep { store: sample, wait_ms: POLL_INTERVAL_MS }
    }
}

/// Decides one iteration of the sampler from the conversion result.
pub fn potentiometer_task_step(sample: u16) -> (step: SamplerStep)
    ensures
        step == SamplerStep::of(sample),
        step.store == sample,
        step.wait_ms == 100,
{
    SamplerStep { store: sample, wait_ms: POLL_INTERVAL_MS }
}

} // verus!
