use vstd::prelude::*;
use crate::errors::GenError;
use crate::tensor::content_of;

verus! {

/// The loaded causal language model (candle_transformers' qwen2), which holds
/// its KV cache internally and is mutated in place by every forward pass.
#[verifier::external_type_specification]
#[verifier::external_body]
pub struct ExModelForCausalLM(candle_transformers::models::qwen2::ModelForCausalLM);

/// Abstract fingerprint of a loaded model: its weight tensors together with
/// its compute target. Forward passes and cache clears mutate only the KV
/// cache and leave this fingerprint unchanged.
pub uninterp spec fn weights_of(m: candle_transformers::models::qwen2::ModelForCausalLM) -> Seq<
    u32,
>;

/// The logits one forward pass returns for a model with fingerprint `w`,
/// when the KV cache was built by exactly the passes `cache` (each entry the
/// ids one earlier pass fed, in order) and this pass feeds `ids`: a pure
/// function of these three, because the kernels are deterministic. Nothing is
/// claimed about two different splits of the same token history: float
/// accumulation differs with batch shape, so their logits may differ in low
/// bits.
pub uninterp spec fn logits_of(w: Seq<u32>, cache: Seq<Seq<u32>>, ids: Seq<u32>) -> Seq<u32>;

/// The token ids a sequence of passes fed, concatenated in order: the
/// positions the KV cache covers.
pub open spec fn flat_passes(passes: Seq<Seq<u32>>) -> Seq<u32>
    decreases passes.len(),
{
    if passes.len() == 0 {
        Seq::empty()
    } else {
        flat_passes(passes.drop_last()) + passes.last()
    }
}

/// Appending one pass appends its ids to the covered positions.
pub proof fn lemma_flat_passes_push(passes: Seq<Seq<u32>>, ids: Seq<u32>)
    ensures
        flat_passes(passes.push(ids)) == flat_passes(passes) + ids,
{
    assert(passes.push(ids).drop_last() =~= passes);
    assert(passes.push(ids).last() == ids);
}

/// The model together with the sequence of forward passes that built its
/// current KV cache. The fields are crate-private: outside this crate a
/// handle can only be obtained through `wrap_model`, which clears the cache,
/// so the ghost history below always reflects the real cache contents.
pub struct ModelHandle {
    pub(crate) model: candle_transformers::models::qwen2::ModelForCausalLM,
    pub(crate) hist: Ghost<Seq<Seq<u32>>>,
}

impl ModelHandle {
    /// The forward passes that built the current KV cache, each the ids it
    /// fed, in order.
    pub closed spec fn cache(self) -> Seq<Seq<u32>> {
        self.hist@
    }

    /// The wrapped model's fingerprint.
    pub closed spec fn weights(self) -> Seq<u32> {
        weights_of(self.model)
    }
}

/// Relies on `ModelForCausalLM::forward` (candle_transformers, qwen2): one
/// pass over `ids` at position offset `offset` extends the KV cache by
/// exactly those positions and returns the logits of the next position, a
/// pure function of the model's weights, the passes that built the cache and
/// the fed ids. The wrapper shapes the ids into the batch-of-one input tensor
/// the model wants and flattens the returned logits to a plain f32 vector. On
/// failure the cache contents are unspecified (the caller clears them).
#[verifier::external_body]
pub(crate) fn forward_logits(
    h: &mut ModelHandle,
    device: &candle_core::Device,
    ids: &Vec<u32>,
    offset: usize,
) -> (r: Result<candle_core::Tensor, GenError>)
    requires
        ids@.len() >= 1,
        offset == flat_passes(old(h).cache()).len(),
    ensures
        final(h).weights() == old(h).weights(),
        r matches Ok(t) ==> final(h).cache() == old(h).cache().push(ids@) && content_of(t)
            == logits_of(old(h).weights(), old(h).cache(), ids@),
        r matches Err(e) ==> e is ModelForward,
{
    let mut run = || -> Result<candle_core::Tensor, candle_core::Error> {
        let input = candle_core::Tensor::new(ids.as_slice(), device)?.unsqueeze(0)?;
        let logits = h.model.forward(&input, offset)?;
        logits.squeeze(0)?.squeeze(0)?.to_dtype(candle_core::DType::F32)
    };
    run().map_err(|e| GenError::ModelForward(e.to_string()))
}

/// Relies on `ModelForCausalLM::clear_kv_cache` (candle_transformers, qwen2):
/// empties every layer's KV cache and touches nothing else.
#[verifier::external_body]
pub(crate) fn clear_cache(h: &mut ModelHandle)
    ensures
        weights_of(final(h).model) == weights_of(old(h).model),
        final(h).weights() == old(h).weights(),
        final(h).cache() == Seq::<Seq<u32>>::empty(),
{
    h.model.clear_kv_cache();
}

/// Takes ownership of a loaded model and clears its KV cache, so the ghost
/// history provably starts out empty whatever state the model arrived in.
pub fn wrap_model(model: candle_transformers::models::qwen2::ModelForCausalLM) -> (h: ModelHandle)
    ensures
        h.cache() == Seq::<Seq<u32>>::empty(),
        h.weights() == weights_of(model),
{
    let mut h = ModelHandle { model, hist: Ghost(Seq::empty()) };
    clear_cache(&mut h);
    h
}

} // verus!
