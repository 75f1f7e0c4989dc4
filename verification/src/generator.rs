use vstd::prelude::*;
use vstd::string::*;
use crate::errors::GenError;
use crate::model::{
    clear_cache, flat_passes, forward_logits, lemma_flat_passes_push, logits_of, weights_of,
    wrap_model, ModelHandle,
};
use crate::sampling::{spec_sample, SamplingPolicy};
use crate::tensor::content_of;
use crate::text::{append_chars, copy_range, string_from_chars};
use crate::token_stream::{
    decode_additive, decoded, lemma_stream_round_trip, spec_feed, spec_flush, stream_fold,
    stream_init, vocab_of, StreamState, TokenStream,
};
use crate::transcript::compose;

verus! {

/// Number of decode steps one generation may take before it is cut off;
/// exhausting the budget is a normal terminal state, not an error.
pub const MAX_DECODE_STEPS: usize = 256;

/// Seed of the sampling stream.
pub const DEFAULT_SEED: u64 = 299792458;

/// Bit pattern of the default repetition-penalty multiplier (one and one
/// tenth).
pub const DEFAULT_REPEAT_PENALTY_BITS: u32 = 0x3F8C_CCCD;

/// Default length of the trailing window the repetition penalty considers.
pub const DEFAULT_REPEAT_LAST_N: usize = 64;

/// Everything a decoding run's outcome depends on: the model fingerprint, the
/// tokenizer, the sampling configuration and the two resolved stop ids.
pub struct RunCfg {
    pub w: Seq<u32>,
    pub tok: tokenizers::Tokenizer,
    pub penalty_bits: u32,
    pub repeat_last_n: int,
    pub eos1: u32,
    pub eos2: u32,
}

/// State of a decoding run: the token sequence (prompt plus generated ids),
/// the forward passes made so far (each the ids it fed the model), the
/// incremental decoder's state, the text emitted so far, and whether a stop
/// token ended the run.
pub struct RunState {
    pub toks: Seq<u32>,
    pub passes: Seq<Seq<u32>>,
    pub stream: StreamState,
    pub emitted: Seq<char>,
    pub done: bool,
}

/// The ids the next forward pass feeds: the whole token sequence on the first
/// pass (the prefill), the single newest token on every later pass, so that
/// the KV cache is never asked to reprocess a position.
pub open spec fn spec_fed(s: RunState) -> Seq<u32> {
    if s.passes.len() == 0 {
        s.toks
    } else {
        seq![s.toks.last()]
    }
}

/// The token id the policy chooses at state `s`: the argmax policy over the
/// logits this state's forward pass returns, penalized over the trailing
/// window of the full history.
pub open spec fn spec_next(cfg: RunCfg, s: RunState) -> u32 {
    spec_sample(
        cfg.penalty_bits,
        cfg.repeat_last_n,
        logits_of(cfg.w, s.passes, spec_fed(s)),
        s.toks,
    )
}

/// One decode step: run one forward pass and sample the next id; on a stop id
/// the run ends with the decoder untouched, otherwise the id is fed to the
/// incremental decoder and its fragment appended to the output.
pub open spec fn spec_step(cfg: RunCfg, s: RunState) -> RunState {
    if s.done {
        s
    } else {
        let id = spec_next(cfg, s);
        let passes2 = s.passes.push(spec_fed(s));
        let toks2 = s.toks.push(id);
        if id == cfg.eos1 || id == cfg.eos2 {
            RunState { toks: toks2, passes: passes2, stream: s.stream, emitted: s.emitted, done: true }
        } else {
            let fr = spec_feed(cfg.tok, s.stream, id);
            RunState { toks: toks2, passes: passes2, stream: fr.0, emitted: s.emitted + fr.1, done: false }
        }
    }
}

/// The run state after at most `steps` decode steps over the prompt ids.
pub open spec fn spec_run(cfg: RunCfg, prompt: Seq<u32>, steps: nat) -> RunState
    decreases steps,
{
    if steps == 0 {
        RunState {
            toks: prompt,
            passes: Seq::empty(),
            stream: stream_init(),
            emitted: Seq::empty(),
            done: false,
        }
    } else {
        spec_step(cfg, spec_run(cfg, prompt, (steps - 1) as nat))
    }
}

/// The text a full decoding run returns: everything emitted during the run,
/// closed by the decoder's final flush.
pub open spec fn spec_generation(cfg: RunCfg, prompt: Seq<u32>) -> Seq<char> {
    let s = spec_run(cfg, prompt, MAX_DECODE_STEPS as nat);
    s.emitted + spec_flush(cfg.tok, s.stream)
}

/// Once a run has stopped, further steps change nothing.
pub proof fn lemma_run_frozen(cfg: RunCfg, prompt: Seq<u32>, m: nat, n: nat)
    requires
        m <= n,
        spec_run(cfg, prompt, m).done,
    ensures
        spec_run(cfg, prompt, n) == spec_run(cfg, prompt, m),
    decreases n - m,
{
    if n > m {
        lemma_run_frozen(cfg, prompt, m, (n - 1) as nat);
    }
}

/// The generation session: owns the model (with its KV cache), the compute
/// device, the tokenizer session and the sampling policy, and exposes the
/// single `generate` operation. At most one call may be in flight at a time;
/// every call leaves the KV cache empty and the decode cursor cleared.
pub struct SqlCodeGenerator {
    pub model: ModelHandle,
    pub device: candle_core::Device,
    pub tokenizer: TokenStream,
    pub sampling: SamplingPolicy,
    pub eos1: u32,
    pub eos2: u32,
}

impl SqlCodeGenerator {
    /// Between calls the session is idle: the KV cache is empty, the decode
    /// cursor is cleared, and the sampling stream is the greedy one the
    /// constructors build. Constructors establish this state and every call
    /// restores it on every exit, errors included.
    pub open spec fn wf(self) -> bool {
        &&& self.sampling.greedy()
        &&& self.tokenizer.wf()
        &&& self.tokenizer.state() == stream_init()
        &&& self.model.cache() == Seq::<Seq<u32>>::empty()
    }

    /// The run configuration this session decodes under; `generate` never
    /// changes it.
    pub open spec fn cfg(self) -> RunCfg {
        RunCfg {
            w: self.model.weights(),
            tok: self.tokenizer.tokenizer,
            penalty_bits: self.sampling.penalty_bits(),
            repeat_last_n: self.sampling.repeat_last_n() as int,
            eos1: self.eos1,
            eos2: self.eos2,
        }
    }

    /// Builds a session over loaded artifacts with an explicit sampling
    /// configuration. Fails, with `MissingStopToken`, exactly when the
    /// tokenizer's vocabulary lacks one of the two required stop markers.
    pub fn with_config(
        model: candle_transformers::models::qwen2::ModelForCausalLM,
        device: candle_core::Device,
        tokenizer: tokenizers::Tokenizer,
        seed: u64,
        penalty_bits: u32,
        repeat_last_n: usize,
    ) -> (r: Result<SqlCodeGenerator, GenError>)
        ensures
            r matches Ok(s) ==> {
                &&& s.wf()
                &&& s.tokenizer.state() == stream_init()
                &&& s.model.weights() == weights_of(model)
                &&& s.tokenizer.tokenizer == tokenizer
                &&& s.sampling.seed() == seed
                &&& s.sampling.penalty_bits() == penalty_bits
                &&& s.sampling.repeat_last_n() == repeat_last_n
                &&& s.eos1 == vocab_of(tokenizer)["<|endoftext|>"@]
                &&& s.eos2 == vocab_of(tokenizer)["<|im_end|>"@]
            },
            r is Err <==> (!vocab_of(tokenizer).dom().contains("<|endoftext|>"@) || !vocab_of(
                tokenizer,
            ).dom().contains("<|im_end|>"@)),
            r matches Err(e) ==> e is MissingStopToken,
    {
        let ts = TokenStream::new(tokenizer);
        let eos1 = match ts.get_token("<|endoftext|>") {
            Some(id) => id,
            None => {
                return Err(GenError::MissingStopToken);
            },
        };
        let eos2 = match ts.get_token("<|im_end|>") {
            Some(id) => id,
            None => {
                return Err(GenError::MissingStopToken);
            },
        };
        Ok(
            SqlCodeGenerator {
                model: wrap_model(model),
                device,
                tokenizer: ts,
                sampling: SamplingPolicy::new(seed, penalty_bits, repeat_last_n),
                eos1,
                eos2,
            },
        )
    }

    /// Builds a session with the default sampling configuration: the fixed
    /// seed, the default repetition penalty over the default trailing window.
    pub fn new(
        model: candle_transformers::models::qwen2::ModelForCausalLM,
        device: candle_core::Device,
        tokenizer: tokenizers::Tokenizer,
    ) -> (r: Result<SqlCodeGenerator, GenError>)
        ensures
            r matches Ok(s) ==> {
                &&& s.wf()
                &&& s.tokenizer.state() == stream_init()
                &&& s.model.weights() == weights_of(model)
                &&& s.tokenizer.tokenizer == tokenizer
                &&& s.sampling.seed() == DEFAULT_SEED
                &&& s.sampling.penalty_bits() == DEFAULT_REPEAT_PENALTY_BITS
                &&& s.sampling.repeat_last_n() == DEFAULT_REPEAT_LAST_N
            },
            r is Err <==> (!vocab_of(tokenizer).dom().contains("<|endoftext|>"@) || !vocab_of(
                tokenizer,
            ).dom().contains("<|im_end|>"@)),
            r matches Err(e) ==> e is MissingStopToken,
    {
        Self::with_config(
            model,
            device,
            tokenizer,
            DEFAULT_SEED,
            DEFAULT_REPEAT_PENALTY_BITS,
            DEFAULT_REPEAT_LAST_N,
        )
    }

    /// The decoding loop: one full-context prefill pass, then one token per
    /// step through the KV cache, until a stop token or the step budget ends
    /// the run. The returned text is exactly `spec_generation` of the
    /// session's configuration and the prompt ids; the KV cache is reset on
    /// every exit, errors included.
    pub fn run_decoding(&mut self, prompt_ids: Vec<u32>) -> (r: Result<String, GenError>)
        requires
            old(self).wf(),
            prompt_ids@.len() >= 1,
        ensures
            final(self).wf(),
            final(self).cfg() == old(self).cfg(),
            final(self).device == old(self).device,
            r matches Ok(out) ==> out@ == spec_generation(old(self).cfg(), prompt_ids@)
                && out@.len() > 0,
            r matches Err(e) ==> e is Decode || e is ModelForward || e is EmptyOutput,
            (r matches Err(e) && e is EmptyOutput) ==> spec_generation(
                old(self).cfg(),
                prompt_ids@,
            ).len() == 0,
    {
        let ghost cfg = old(self).cfg();
        let ghost prompt = prompt_ids@;
        self.tokenizer.reset();
        let mut tokens = prompt_ids;
        let mut output: Vec<char> = Vec::new();
        let mut index: usize = 0;
        let mut stopped: bool = false;
        while index < MAX_DECODE_STEPS && !stopped
            invariant
                cfg == old(self).cfg(),
                prompt == prompt_ids@,
                self.cfg() == cfg,
                self.device == old(self).device,
                self.sampling.greedy(),
                self.tokenizer.wf(),
                index <= MAX_DECODE_STEPS,
                prompt.len() >= 1,
                !stopped ==> ({
                    let s = spec_run(cfg, prompt, index as nat);
                    &&& !s.done
                    &&& tokens@ == s.toks
                    &&& self.tokenizer.state() == s.stream
                    &&& output@ == s.emitted
                    &&& tokens@.len() == prompt.len() + index
                    &&& self.model.cache() == s.passes
                    &&& (index == 0 ==> s.passes.len() == 0)
                    &&& (index >= 1 ==> s.passes.len() >= 1)
                    &&& flat_passes(s.passes).len() == (if index == 0 {
                        0int
                    } else {
                        tokens@.len() - 1
                    })
                }),
                stopped ==> ({
                    let s = spec_run(cfg, prompt, MAX_DECODE_STEPS as nat);
                    &&& s.done
                    &&& self.tokenizer.state() == s.stream
                    &&& output@ == s.emitted
                }),
            decreases MAX_DECODE_STEPS - index + (if stopped { 0int } else { 1int }),
        {
            let ghost s_k = spec_run(cfg, prompt, index as nat);
            let ctxt: Vec<u32>;
            let offset: usize;
            if index == 0 {
                ctxt = copy_range(&tokens, 0, tokens.len());
                offset = 0;
            } else {
                let mut c: Vec<u32> = Vec::new();
                c.push(tokens[tokens.len() - 1]);
                ctxt = c;
                offset = tokens.len() - 1;
            }
            proof {
                assert(ctxt@ =~= spec_fed(s_k));
                assert(tokens@ =~= tokens@.subrange(0, tokens@.len() as int));
            }
            let logits = match forward_logits(&mut self.model, &self.device, &ctxt, offset) {
                Ok(t) => t,
                Err(e) => {
                    self.tokenizer.reset();
                    clear_cache(&mut self.model);
                    return Err(e);
                },
            };
            assert(content_of(logits) == logits_of(cfg.w, s_k.passes, spec_fed(s_k)));
            proof {
                lemma_flat_passes_push(s_k.passes, ctxt@);
            }
            let next = match self.sampling.sample(&logits, &tokens) {
                Ok(id) => id,
                Err(e) => {
                    self.tokenizer.reset();
                    clear_cache(&mut self.model);
                    return Err(e);
                },
            };
            assert(next == spec_next(cfg, s_k));
            tokens.push(next);
            proof {
                assert(spec_run(cfg, prompt, (index + 1) as nat) == spec_step(
                    cfg,
                    spec_run(cfg, prompt, index as nat),
                ));
            }
            let ghost s_k1 = spec_run(cfg, prompt, (index + 1) as nat);
            if next == self.eos1 || next == self.eos2 {
                proof {
                    lemma_run_frozen(cfg, prompt, (index + 1) as nat, MAX_DECODE_STEPS as nat);
                }
                stopped = true;
            } else {
                let ghost fr = spec_feed(cfg.tok, s_k.stream, next);
                match self.tokenizer.next_token(next) {
                    Ok(Some(f)) => {
                        append_chars(&mut output, &f);
                    },
                    Ok(None) => {
                        proof {
                            assert(fr.1.len() == 0);
                            assert(output@ =~= s_k.emitted + fr.1);
                        }
                    },
                    Err(e) => {
                        self.tokenizer.reset();
                        clear_cache(&mut self.model);
                        return Err(e);
                    },
                }
                proof {
                    assert(tokens@.drop_last() =~= s_k.toks);
                }
                index = index + 1;
            }
        }
        let ghost s_fin = spec_run(cfg, prompt, MAX_DECODE_STEPS as nat);
        let rest = match self.tokenizer.decode_rest() {
            Ok(o) => o,
            Err(e) => {
                self.tokenizer.reset();
                clear_cache(&mut self.model);
                return Err(e);
            },
        };
        match rest {
            Some(v) => {
                append_chars(&mut output, &v);
            },
            None => {
                proof {
                    assert(output@ =~= s_fin.emitted + spec_flush(cfg.tok, s_fin.stream));
                }
            },
        }
        self.tokenizer.reset();
        clear_cache(&mut self.model);
        if output.len() == 0 {
            return Err(GenError::EmptyOutput);
        }
        let out = string_from_chars(&output);
        Ok(out)
    }

    /// Turns a question and a table schema into the model's answer: composes
    /// the ChatML transcript, encodes it, and runs the decoding loop. The
    /// session returns to its pre-call configuration whatever happens.
    pub fn generate(&mut self, prompt: &str, table_schema: &str) -> (r: Result<String, GenError>)
        requires
            old(self).wf(),
        ensures
            final(self).wf(),
            final(self).cfg() == old(self).cfg(),
            final(self).device == old(self).device,
            r matches Ok(out) ==> out@.len() > 0 && exists|ids: Seq<u32>|
                ids.len() >= 1 && out@ == spec_generation(old(self).cfg(), ids),
            r matches Err(e) ==> e is Encode || e is Decode || e is ModelForward
                || e is EmptyOutput,
    {
        let transcript_text = match compose(prompt, table_schema) {
            Ok(t) => t,
            Err(e) => {
                return Err(e);
            },
        };
        let ids = match self.tokenizer.encode(&transcript_text) {
            Ok(v) => v,
            Err(e) => {
                return Err(e);
            },
        };
        if ids.len() == 0 {
            return Err(GenError::Encode("the transcript encoded to no tokens".to_owned()));
        }
        let ghost witness = ids@;
        let r = self.run_decoding(ids);
        proof {
            match &r {
                Ok(out) => {
                    assert(out@ == spec_generation(old(self).cfg(), witness));
                },
                Err(_) => {},
            }
        }
        r
    }
}

/// Law (determinism): the decoded output is a pure function of the session's
/// fixed configuration — model weights, tokenizer, sampling settings, stop
/// set — and the prompt ids; two successful runs from equal configurations
/// over the same ids return byte-identical text.
pub proof fn lemma_generation_deterministic(
    first: SqlCodeGenerator,
    second: SqlCodeGenerator,
    prompt_ids: Seq<u32>,
    out1: Seq<char>,
    out2: Seq<char>,
)
    requires
        first.cfg() == second.cfg(),
        out1 == spec_generation(first.cfg(), prompt_ids),
        out2 == spec_generation(second.cfg(), prompt_ids),
    ensures
        out1 == out2,
{
}

/// Law (cache-reset idempotence): `run_decoding` pins its result to the
/// session's configuration and restores that configuration on return, so the
/// second of two consecutive successful calls returns the same text as the
/// first, and the same text as a call on a freshly constructed session over
/// the same artifacts and settings.
pub proof fn lemma_cache_reset_idempotent(
    before: SqlCodeGenerator,
    after_first_call: SqlCodeGenerator,
    fresh: SqlCodeGenerator,
    prompt_ids: Seq<u32>,
    out1: Seq<char>,
    out2: Seq<char>,
    out_fresh: Seq<char>,
)
    requires
        after_first_call.cfg() == before.cfg(),
        fresh.cfg() == before.cfg(),
        out1 == spec_generation(before.cfg(), prompt_ids),
        out2 == spec_generation(after_first_call.cfg(), prompt_ids),
        out_fresh == spec_generation(fresh.cfg(), prompt_ids),
    ensures
        out1 == out2,
        out2 == out_fresh,
{
}

/// The incremental decoder state a run reaches is exactly the fold of the
/// ids it fed into a fresh stream, and the run's emitted text is that fold's.
pub proof fn lemma_run_stream_is_fold(cfg: RunCfg, prompt: Seq<u32>, steps: nat)
    ensures
        stream_fold(cfg.tok, spec_run(cfg, prompt, steps).stream.fed) == (
            spec_run(cfg, prompt, steps).stream,
            spec_run(cfg, prompt, steps).emitted,
        ),
    decreases steps,
{
    if steps == 0 {
    } else {
        lemma_run_stream_is_fold(cfg, prompt, (steps - 1) as nat);
        let s = spec_run(cfg, prompt, (steps - 1) as nat);
        let s2 = spec_run(cfg, prompt, steps);
        assert(s2 == spec_step(cfg, s));
        if !s.done {
            let id = spec_next(cfg, s);
            if id != cfg.eos1 && id != cfg.eos2 {
                let fed2 = s.stream.fed.push(id);
                assert(fed2.len() > 0);
                assert(fed2.drop_last() =~= s.stream.fed);
                assert(fed2.last() == id);
                assert(s2.stream.fed == fed2);
            }
        }
    }
}

/// Law (tokenizer round trip, over a whole run): under a decoder that
/// distributes over concatenation, the text a run emits, closed by the final
/// flush, equals the direct batch decode of exactly the ids the run fed to
/// the incremental decoder — the generated ids before the stop token, in
/// sampling order.
pub proof fn lemma_run_round_trip(cfg: RunCfg, prompt: Seq<u32>, steps: nat)
    requires
        decode_additive(cfg.tok),
    ensures
        ({
            let s = spec_run(cfg, prompt, steps);
            s.emitted + spec_flush(cfg.tok, s.stream) == decoded(cfg.tok, s.stream.fed)
        }),
{
    lemma_run_stream_is_fold(cfg, prompt, steps);
    lemma_stream_round_trip(cfg.tok, spec_run(cfg, prompt, steps).stream.fed);
}

/// Law (stop-token exclusion): the ids fed to the incremental decoder during
/// a run never include either stop id — the stop token itself is never
/// decoded into output text.
pub proof fn lemma_stop_ids_never_fed(cfg: RunCfg, prompt: Seq<u32>, steps: nat)
    ensures
        !spec_run(cfg, prompt, steps).stream.fed.contains(cfg.eos1),
        !spec_run(cfg, prompt, steps).stream.fed.contains(cfg.eos2),
    decreases steps,
{
    if steps == 0 {
    } else {
        lemma_stop_ids_never_fed(cfg, prompt, (steps - 1) as nat);
        let s = spec_run(cfg, prompt, (steps - 1) as nat);
        let s2 = spec_run(cfg, prompt, steps);
        assert(s2 == spec_step(cfg, s));
        if !s.done {
            let id = spec_next(cfg, s);
            if id != cfg.eos1 && id != cfg.eos2 {
                let fed2 = s.stream.fed.push(id);
                assert(s2.stream.fed == fed2);
                assert forall|e: u32|
                    fed2.contains(e) implies s.stream.fed.contains(e) || e == id by {
                    let i = choose|i: int| 0 <= i < fed2.len() && fed2[i] == e;
                    if i < s.stream.fed.len() {
                        assert(s.stream.fed[i] == e);
                    }
                }
            }
        }
    }
}

/// Law (step budget): a run grows the token sequence by at most
/// `MAX_DECODE_STEPS` ids — and by exactly that many when no stop token was
/// sampled, in which case the truncated text is still a normal result.
pub proof fn lemma_step_budget(cfg: RunCfg, prompt: Seq<u32>, steps: nat)
    ensures
        spec_run(cfg, prompt, steps).toks.len() <= prompt.len() + steps,
        !spec_run(cfg, prompt, steps).done ==> spec_run(cfg, prompt, steps).toks.len()
            == prompt.len() + steps,
    decreases steps,
{
    if steps > 0 {
        lemma_step_budget(cfg, prompt, (steps - 1) as nat);
    }
}

} // verus!
