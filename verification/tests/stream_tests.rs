use std::collections::HashMap;
use sqlgen::token_stream::TokenStream;
use tokenizers::models::wordlevel::WordLevel;
use tokenizers::{AddedToken, Tokenizer};

fn word_tokenizer() -> Tokenizer {
    let mut vocab: HashMap<String, u32> = HashMap::new();
    vocab.insert("hello".to_string(), 0);
    vocab.insert("world".to_string(), 1);
    vocab.insert("<unk>".to_string(), 2);
    let model = WordLevel::builder()
        .vocab(vocab.into_iter().collect())
        .unk_token("<unk>".to_string())
        .build()
        .unwrap();
    let mut tok = Tokenizer::new(model);
    tok.add_special_tokens(vec![
        AddedToken::from("<|endoftext|>", true),
        AddedToken::from("<|im_end|>", true),
    ]);
    tok
}

#[test]
fn stream_emits_stable_fragments() {
    let mut stream = TokenStream::new(word_tokenizer());
    let first = stream.next_token(0).unwrap();
    assert_eq!(first.map(String::from_iter), Some("hello".to_string()));
    let second = stream.next_token(1).unwrap();
    assert_eq!(second.map(String::from_iter), Some(" world".to_string()));
    let rest = stream.decode_rest().unwrap();
    assert!(rest.is_none());
}

#[test]
fn stream_buffers_unstable_tail_until_flush() {
    // "<unk>" ends in '>', which is not alphanumeric, so the fragment is
    // held back until the final flush.
    let mut stream = TokenStream::new(word_tokenizer());
    assert!(stream.next_token(2).unwrap().is_none());
    let rest = stream.decode_rest().unwrap();
    assert_eq!(rest.map(String::from_iter), Some("<unk>".to_string()));
}

#[test]
fn stream_round_trip_matches_batch_decode() {
    let tok = word_tokenizer();
    let ids = vec![0u32, 1, 0, 2, 1];
    let mut stream = TokenStream::new(tok);
    let mut rebuilt = String::new();
    for id in &ids {
        if let Some(fragment) = stream.next_token(*id).unwrap() {
            rebuilt.push_str(&String::from_iter(fragment));
        }
    }
    if let Some(rest) = stream.decode_rest().unwrap() {
        rebuilt.push_str(&String::from_iter(rest));
    }
    let direct = word_tokenizer().decode(&ids, true).unwrap();
    assert_eq!(rebuilt, direct);
}

#[test]
fn stream_reset_clears_state() {
    let mut stream = TokenStream::new(word_tokenizer());
    stream.next_token(0).unwrap();
    stream.next_token(1).unwrap();
    stream.reset();
    let again = stream.next_token(1).unwrap();
    assert_eq!(again.map(String::from_iter), Some("world".to_string()));
}

#[test]
fn stream_resolves_special_tokens() {
    let stream = TokenStream::new(word_tokenizer());
    let eos = stream.get_token("<|endoftext|>");
    let im_end = stream.get_token("<|im_end|>");
    assert!(eos.is_some());
    assert!(im_end.is_some());
    assert_ne!(eos, im_end);
    assert!(stream.get_token("<|missing|>").is_none());
}

#[test]
fn stream_encode_returns_ids() {
    let stream = TokenStream::new(word_tokenizer());
    let ids = stream.encode(&"anything at all".to_string()).unwrap();
    assert!(!ids.is_empty());
}
