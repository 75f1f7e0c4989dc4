use vstd::prelude::*;
use crate::errors::GenError;
use crate::tensor::content_of;
use crate::text::copy_range;

verus! {

/// The seeded sampling stream of the tensor runtime (candle_transformers).
#[verifier::external_type_specification]
#[verifier::external_body]
pub struct ExLogitsProcessor(candle_transformers::generation::LogitsProcessor);

/// Bit pattern of the neutral repetition-penalty multiplier (one): with this
/// factor the penalty step leaves the logits untouched and is skipped.
pub const NEUTRAL_PENALTY_BITS: u32 = 0x3F80_0000;

/// The index of the greatest entry of a logits vector, as candle's greedy
/// (argmax) sampling computes it: a pure function of the entries. Relied on:
/// ties between equal entries are broken by the backend's scan order (the CPU
/// backend takes the first greatest entry); a session drives one model on one
/// device, so one backend's choice is the name's value.
pub uninterp spec fn argmax_of(logits: Seq<u32>) -> u32;

/// The logits after candle's repetition penalty with the factor whose bit
/// pattern is `penalty_bits` was applied over the ids in `window`: a pure
/// function of these three arguments.
pub uninterp spec fn penalty_of(logits: Seq<u32>, penalty_bits: u32, window: Seq<u32>) -> Seq<u32>;

/// Turns a logits vector into the chosen next token id, suppressing tokens
/// that appear in the trailing window of the history.
pub struct SamplingPolicy {
    /// The seeded sampling stream.
    processor: candle_transformers::generation::LogitsProcessor,
    /// Whether `processor` was built for greedy (argmax) selection. The
    /// fields are private: a policy can only be obtained through `new`,
    /// which builds a greedy stream, so this flag always tells the truth
    /// about `processor`.
    greedy: bool,
    /// Bit pattern of the repetition-penalty factor.
    penalty_bits: u32,
    /// Length of the trailing history window the penalty is applied over.
    repeat_last_n: usize,
    /// The seed the stream was built with; greedy selection never consumes
    /// randomness, so the stream stays at its seed position.
    seed: Ghost<u64>,
}

impl SamplingPolicy {
    /// Whether the wrapped sampling stream performs greedy argmax selection.
    pub closed spec fn greedy(self) -> bool {
        self.greedy
    }

    /// Bit pattern of the repetition-penalty factor.
    pub closed spec fn penalty_bits(self) -> u32 {
        self.penalty_bits
    }

    /// Length of the trailing history window the penalty is applied over.
    pub closed spec fn repeat_last_n(self) -> usize {
        self.repeat_last_n
    }

    /// The seed the sampling stream was built with.
    pub closed spec fn seed(self) -> u64 {
        self.seed@
    }
}

/// The trailing window of the last `rlast` history entries (all of them when
/// the history is shorter).
pub open spec fn spec_window(rlast: int, history: Seq<u32>) -> Seq<u32> {
    if history.len() > rlast {
        history.subrange(history.len() - rlast, history.len() as int)
    } else {
        history
    }
}

/// The token a greedy policy with the given penalty configuration chooses
/// from `logits` after seeing `history`.
pub open spec fn spec_sample(penalty_bits: u32, rlast: int, logits: Seq<u32>, history: Seq<u32>) -> u32 {
    if penalty_bits == NEUTRAL_PENALTY_BITS {
        argmax_of(logits)
    } else {
        argmax_of(penalty_of(logits, penalty_bits, spec_window(rlast, history)))
    }
}

/// Relies on `candle_transformers::utils::apply_repeat_penalty`: a pure
/// function of the logits contents, the penalty factor (passed by its bit
/// pattern) and the window ids; it divides positive logits of windowed ids by
/// the factor and multiplies negative ones with it.
#[verifier::external_body]
pub(crate) fn apply_penalty(
    logits: &candle_core::Tensor,
    penalty_bits: u32,
    window: &Vec<u32>,
) -> (r: Result<candle_core::Tensor, GenError>)
    ensures
        r matches Ok(t) ==> content_of(t) == penalty_of(content_of(*logits), penalty_bits, window@),
        r matches Err(e) ==> e is ModelForward,
{
    let run = || -> Result<candle_core::Tensor, candle_core::Error> {
        let factor = candle_core::Tensor::from_raw_buffer(
            &penalty_bits.to_ne_bytes(),
            candle_core::DType::F32,
            &[1],
            &candle_core::Device::Cpu,
        )?;
        candle_transformers::utils::apply_repeat_penalty(
            logits,
            factor.squeeze(0)?.to_scalar()?,
            window,
        )
    };
    run().map_err(|e| GenError::ModelForward(e.to_string()))
}

/// Relies on `LogitsProcessor::from_sampling` with `Sampling::ArgMax`
/// (candle_transformers): builds a sampling stream that always performs
/// greedy argmax selection.
#[verifier::external_body]
pub(crate) fn new_argmax_processor(seed: u64) -> (r: candle_transformers::generation::LogitsProcessor)
{
    candle_transformers::generation::LogitsProcessor::from_sampling(
        seed,
        candle_transformers::generation::Sampling::ArgMax,
    )
}

/// Relies on `LogitsProcessor::sample` (candle_transformers): under greedy
/// (argmax) sampling the result is the index of the greatest logit, a pure
/// function of the logits contents; the stream's configuration is not
/// changed by sampling.
#[verifier::external_body]
pub(crate) fn sample_token(
    p: &mut SamplingPolicy,
    logits: &candle_core::Tensor,
) -> (r: Result<u32, GenError>)
    ensures
        final(p).greedy() == old(p).greedy(),
        final(p).penalty_bits() == old(p).penalty_bits(),
        final(p).repeat_last_n() == old(p).repeat_last_n(),
        final(p).seed() == old(p).seed(),
        old(p).greedy() ==> (r matches Ok(id) ==> id == argmax_of(content_of(*logits))),
        r matches Err(e) ==> e is ModelForward,
{
    p.processor.sample(logits).map_err(|e| GenError::ModelForward(e.to_string()))
}

impl SamplingPolicy {
    /// Builds a greedy policy with the given seed and penalty configuration.
    pub fn new(seed: u64, penalty_bits: u32, repeat_last_n: usize) -> (r: SamplingPolicy)
        ensures
            r.greedy(),
            r.penalty_bits() == penalty_bits,
            r.repeat_last_n() == repeat_last_n,
            r.seed() == seed,
    {
        SamplingPolicy {
            processor: new_argmax_processor(seed),
            greedy: true,
            penalty_bits,
            repeat_last_n,
            seed: Ghost(seed),
        }
    }

    /// Chooses the next token id from `logits` given the full token history:
    /// unless the penalty factor is neutral, the logits of the ids in the
    /// trailing window of the history are first pushed toward "less likely",
    /// then the greatest logit wins.
    pub fn sample(&mut self, logits: &candle_core::Tensor, history: &Vec<u32>) -> (r: Result<
        u32,
        GenError,
    >)
        ensures
            final(self).greedy() == old(self).greedy(),
            final(self).penalty_bits() == old(self).penalty_bits(),
            final(self).repeat_last_n() == old(self).repeat_last_n(),
            final(self).seed() == old(self).seed(),
            old(self).greedy() ==> (r matches Ok(id) ==> id == spec_sample(
                old(self).penalty_bits(),
                old(self).repeat_last_n() as int,
                content_of(*logits),
                history@,
            )),
            r matches Err(e) ==> e is ModelForward,
    {
        if self.penalty_bits == NEUTRAL_PENALTY_BITS {
            sample_token(self, logits)
        } else {
            let start: usize = if history.len() > self.repeat_last_n {
                history.len() - self.repeat_last_n
            } else {
                0
            };
            let window = copy_range(history, start, history.len());
            assert(window@ =~= spec_window(self.repeat_last_n as int, history@));
            let penalized = match apply_penalty(logits, self.penalty_bits, &window) {
                Ok(t) => t,
                Err(e) => {
                    return Err(e);
                },
            };
            sample_token(self, &penalized)
        }
    }
}

} // verus!
