//! A minimal audio signal-processing unit.
//!
//! The library models a processor that owns a lifecycle state (idle or
//! running) and a scalar gain parameter, and offers a pure, element-wise
//! buffer transform. Sound output itself is the business of a host audio
//! engine; an unverified binding layer sequences the engine calls and keeps
//! an [`AudioProcessor`] value as the record of what it has done.
//!
//! Samples and the gain are IEEE-754 single-precision values. Verified code
//! cannot compute with them, so the library holds each one as its 32-bit
//! pattern and takes the per-sample shaping curve as an argument.

mod processor;

pub use processor::AudioProcessor;
pub use processor::ProcessorState;
pub use processor::DEFAULT_GAIN_BITS;
pub use processor::with_gain;
pub use processor::lemma_set_gain_last_write_wins;
pub use processor::lemma_process_buffer_pure;

use vstd::prelude::*;

verus! {

/// Sum of two machine words, defined where it does not overflow.
pub fn add(left: u64, right: u64) -> (sum: u64)
    requires
        left + right <= u64::MAX,
    ensures
        sum == left + right,
{
    left + right
}

} // verus!
