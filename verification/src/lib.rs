//! An incremental token-by-token decoding engine that turns a natural-language
//! question plus a table schema into a single SQL statement by driving a small
//! causal language model.
//!
//! The crate owns the algorithmic core: prompt composition, the tokenizer
//! session with its incremental decode cursor, the sampling policy with its
//! repetition penalty, and the autoregressive decoding loop with its KV-cache
//! discipline and dual stop-token detection. The tensor runtime, the tokenizer
//! implementation and the chat-template renderer are outside collaborators,
//! reached through small trusted wrappers.

pub mod errors;
pub mod generator;
pub mod model;
pub mod sampling;
pub mod tensor;
pub mod text;
pub mod token_stream;
pub mod transcript;
