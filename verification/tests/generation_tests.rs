use std::collections::HashMap;
use candle_core::{DType, Device};
use candle_nn::{Activation, VarBuilder};
use candle_transformers::models::qwen2::{Config, ModelForCausalLM};
use sqlgen::errors::GenError;
use sqlgen::generator::SqlCodeGenerator;
use tokenizers::models::wordlevel::WordLevel;
use tokenizers::{AddedToken, Tokenizer};

fn tiny_config(vocab_size: usize) -> Config {
    Config {
        vocab_size,
        hidden_size: 8,
        intermediate_size: 16,
        num_hidden_layers: 1,
        num_attention_heads: 2,
        num_key_value_heads: 2,
        max_position_embeddings: 1024,
        sliding_window: 1024,
        max_window_layers: 0,
        tie_word_embeddings: true,
        rope_theta: 10000.0,
        rms_norm_eps: 1e-6,
        use_sliding_window: false,
        hidden_act: Activation::Gelu,
    }
}

fn tiny_model(vocab_size: usize) -> (ModelForCausalLM, Device) {
    let device = Device::Cpu;
    let vb = VarBuilder::zeros(DType::F32, &device);
    let model = ModelForCausalLM::new(&tiny_config(vocab_size), vb).unwrap();
    (model, device)
}

/// A word tokenizer whose stop markers sit beyond the model's vocabulary, so
/// greedy decoding can never sample them and always runs out the step budget.
fn tokenizer_without_reachable_stops() -> Tokenizer {
    let mut vocab: HashMap<String, u32> = HashMap::new();
    vocab.insert("hello".to_string(), 0);
    vocab.insert("world".to_string(), 1);
    vocab.insert("<unk>".to_string(), 2);
    let model = WordLevel::builder()
        .vocab(vocab.into_iter().collect())
        .unk_token("<unk>".to_string())
        .build()
        .unwrap();
    let mut tok = Tokenizer::new(model);
    tok.add_special_tokens(vec![
        AddedToken::from("<|endoftext|>", true),
        AddedToken::from("<|im_end|>", true),
    ]);
    tok
}

/// A word tokenizer whose whole model vocabulary consists of the two stop
/// markers, so the very first greedy sample is a stop token.
fn tokenizer_of_only_stops() -> Tokenizer {
    let mut vocab: HashMap<String, u32> = HashMap::new();
    vocab.insert("<|endoftext|>".to_string(), 0);
    vocab.insert("<|im_end|>".to_string(), 1);
    let model = WordLevel::builder()
        .vocab(vocab.into_iter().collect())
        .unk_token("<|endoftext|>".to_string())
        .build()
        .unwrap();
    let mut tok = Tokenizer::new(model);
    tok.add_special_tokens(vec![
        AddedToken::from("<|endoftext|>", true),
        AddedToken::from("<|im_end|>", true),
    ]);
    tok
}

fn budget_session() -> SqlCodeGenerator {
    // The model vocabulary covers the two added stop ids (3 and 4), which do
    // occur in the encoded transcript, but all-equal zero logits make greedy
    // decoding pick token 0, so a stop id is never sampled.
    let (model, device) = tiny_model(5);
    SqlCodeGenerator::new(model, device, tokenizer_without_reachable_stops()).unwrap()
}

#[test]
fn generate_is_deterministic_across_sessions_and_calls() {
    let mut first = budget_session();
    let out1 = first.generate("How many rows?", "CREATE TABLE t(x INT);").unwrap();
    let out2 = first.generate("How many rows?", "CREATE TABLE t(x INT);").unwrap();
    let mut fresh = budget_session();
    let out3 = fresh.generate("How many rows?", "CREATE TABLE t(x INT);").unwrap();
    assert_eq!(out1, out2);
    assert_eq!(out1, out3);
    assert!(!out1.is_empty());
}

#[test]
fn generate_exhausts_step_budget_and_still_succeeds() {
    // No stop id can ever be sampled, so the run is cut off at the budget and
    // returns a truncated result rather than an error: 256 decoded words.
    let mut session = budget_session();
    let out = session.generate("count them", "CREATE TABLE t(x INT);").unwrap();
    assert_eq!(out.split(' ').count(), 256);
}

#[test]
fn generate_output_never_contains_stop_markers() {
    let mut session = budget_session();
    let out = session.generate("list all", "CREATE TABLE t(x INT);").unwrap();
    assert!(!out.contains("<|endoftext|>"));
    assert!(!out.contains("<|im_end|>"));
}

#[test]
fn generate_stops_immediately_on_stop_token() {
    // Every reachable id is a stop id, so decoding halts at the first step
    // without accumulating any text; a successful result is always non-empty,
    // so this is reported as the typed empty-output error.
    let (model, device) = tiny_model(2);
    let mut session =
        SqlCodeGenerator::new(model, device, tokenizer_of_only_stops()).unwrap();
    let r = session.generate("anything", "CREATE TABLE t(x INT);");
    assert!(matches!(r, Err(GenError::EmptyOutput)));
}

#[test]
fn session_stays_usable_after_empty_output() {
    // The empty-output error still leaves the session idle: the next call
    // behaves exactly like the first.
    let (model, device) = tiny_model(2);
    let mut session =
        SqlCodeGenerator::new(model, device, tokenizer_of_only_stops()).unwrap();
    let first = session.generate("anything", "CREATE TABLE t(x INT);");
    let second = session.generate("anything", "CREATE TABLE t(x INT);");
    assert!(matches!(first, Err(GenError::EmptyOutput)));
    assert!(matches!(second, Err(GenError::EmptyOutput)));
}

#[test]
fn construction_fails_without_stop_markers() {
    let mut vocab: HashMap<String, u32> = HashMap::new();
    vocab.insert("hello".to_string(), 0);
    vocab.insert("<unk>".to_string(), 1);
    let model = WordLevel::builder()
        .vocab(vocab.into_iter().collect())
        .unk_token("<unk>".to_string())
        .build()
        .unwrap();
    let tok = Tokenizer::new(model);
    let (m, device) = tiny_model(5);
    let r = SqlCodeGenerator::new(m, device, tok);
    assert!(matches!(r, Err(GenError::MissingStopToken)));
}

#[test]
fn session_stays_usable_after_a_call() {
    let mut session = budget_session();
    let first = session.generate("q one", "s one").unwrap();
    let second = session.generate("q two", "s two").unwrap();
    // Different prompts encode to the same unknown-word id sequence length
    // here, but both calls must succeed on the same session.
    assert!(!first.is_empty());
    assert!(!second.is_empty());
}
