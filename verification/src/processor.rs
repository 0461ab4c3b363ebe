use vstd::prelude::*;

verus! {

/// Lifecycle of the processor: `Idle` until an oscillation is started,
/// `Running` while one is active. The host engine owns an oscillation handle
/// exactly while the processor is `Running`.
#[derive(Clone, Copy, Debug, PartialEq, Eq, Structural)]
pub enum ProcessorState {
    Idle,
    Running,
}

/// IEEE-754 single-precision bit pattern of 1.0, the gain a fresh processor
/// carries.
pub const DEFAULT_GAIN_BITS: u32 = 0x3F80_0000;

/// The processing unit: its lifecycle state and its gain parameter.
///
/// The gain is an unconstrained single-precision value held as its bit
/// pattern; the processor stores it and hands it on, it never computes with
/// it. Every combination of state and gain is a valid processor, so the
/// fields are public.
#[derive(Clone, Copy, Debug, PartialEq, Eq, Structural)]
pub struct AudioProcessor {
    pub state: ProcessorState,
    pub gain_bits: u32,
}

/// The processor as `set_gain` leaves it: the new gain, everything else kept.
pub open spec fn with_gain(p: AudioProcessor, gain_bits: u32) -> AudioProcessor {
    AudioProcessor { state: p.state, gain_bits: gain_bits }
}

impl AudioProcessor {
    /// A fresh processor: idle, with the default gain of 1.0.
    pub fn new() -> (p: AudioProcessor)
        ensures
            p.state == ProcessorState::Idle,
            p.gain_bits == DEFAULT_GAIN_BITS,
    {
        AudioProcessor { state: ProcessorState::Idle, gain_bits: DEFAULT_GAIN_BITS }
    }

    /// Begin emission. From either state the processor ends up `Running`;
    /// starting while already `Running` stands for replacing the active
    /// oscillation with a fresh one. The gain is untouched.
    pub fn start(&mut self)
        ensures
            final(self).state == ProcessorState::Running,
            final(self).gain_bits == old(self).gain_bits,
    {
        self.state = ProcessorState::Running;
    }

    /// Halt emission. From either state the processor ends up `Idle`, so
    /// stopping an idle processor is a no-op and never fails. The gain is
    /// untouched.
    pub fn stop(&mut self)
        ensures
            final(self).state == ProcessorState::Idle,
            final(self).gain_bits == old(self).gain_bits,
    {
        self.state = ProcessorState::Idle;
    }

    /// Set the gain multiplier. Any bit pattern is accepted — negative and
    /// zero gains included — and the write replaces the old value outright.
    pub fn set_gain(&mut self, gain_bits: u32)
        ensures
            *final(self) == with_gain(*old(self), gain_bits),
            final(self).gain_bits == gain_bits,
            final(self).state == old(self).state,
    {
        self.gain_bits = gain_bits;
    }

    /// Apply the per-sample shaping curve to every sample of the buffer.
    ///
    /// The curve — for this processor a hyperbolic-tangent soft clip —
    /// computes on single-precision values, which verified code cannot
    /// hold, so the caller hands it in over bit patterns. The output has
    /// the length of the input, each element a result the curve allows for
    /// the element in its place, and nothing of the processor — state,
    /// gain, or earlier calls — enters into it.
    pub fn process_buffer<F: Fn(u32) -> u32>(&self, input: &Vec<u32>, curve: F) -> (out: Vec<
        u32,
    >)
        requires
            forall|i: int| 0 <= i < input@.len() ==> call_requires(curve, (input@[i],)),
        ensures
            out@.len() == input@.len(),
            forall|i: int|
                0 <= i < input@.len() ==> call_ensures(curve, (input@[i],), #[trigger] out@[i]),
    {
        let mut out: Vec<u32> = Vec::new();
        let mut j: usize = 0;
        while j < input.len()
            invariant
                j <= input@.len(),
                out@.len() == j,
                forall|i: int| 0 <= i < input@.len() ==> call_requires(curve, (input@[i],)),
                forall|i: int|
                    0 <= i < j ==> call_ensures(curve, (input@[i],), #[trigger] out@[i]),
            decreases input@.len() - j,
        {
            let shaped = curve(input[j]);
            out.push(shaped);
            j += 1;
        }
        out
    }
}

/// Processing carries no hidden state: a deterministic per-sample curve,
/// applied twice to the same input, can only yield the same output both
/// times.
pub proof fn lemma_process_buffer_pure<F: Fn(u32) -> u32>(
    curve: F,
    input: Seq<u32>,
    first: Seq<u32>,
    second: Seq<u32>,
)
    requires
        forall|x: u32, r1: u32, r2: u32|
            #![trigger call_ensures(curve, (x,), r1), call_ensures(curve, (x,), r2)]
            call_ensures(curve, (x,), r1) && call_ensures(curve, (x,), r2) ==> r1 == r2,
        first.len() == input.len(),
        forall|i: int| 0 <= i < input.len() ==> call_ensures(curve, (input[i],), #[trigger] first[i]),
        second.len() == input.len(),
        forall|i: int|
            0 <= i < input.len() ==> call_ensures(curve, (input[i],), #[trigger] second[i]),
    ensures
        first == second,
{
    assert forall|i: int| 0 <= i < input.len() implies first[i] == second[i] by {
        assert(call_ensures(curve, (input[i],), first[i]));
        assert(call_ensures(curve, (input[i],), second[i]));
    }
    assert(first =~= second);
}

/// Writing the gain twice leaves the gain of the second write: the last
/// write wins, and earlier writes do not accumulate into it.
pub proof fn lemma_set_gain_last_write_wins(p: AudioProcessor, first: u32, second: u32)
    ensures
        with_gain(with_gain(p, first), second) == with_gain(p, second),
        with_gain(with_gain(p, first), second).gain_bits == second,
{
}

} // verus!
