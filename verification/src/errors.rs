use vstd::prelude::*;

verus! {

/// The closed set of failures the generation engine can report.
///
/// `MissingStopToken` can only arise while a session is constructed; the
/// other variants abort a single `generate` call and leave the session
/// reusable.
#[derive(Debug)]
pub enum GenError {
    /// The chat-template renderer rejected the transcript.
    Template(String),
    /// The tokenizer could not encode the transcript.
    Encode(String),
    /// The tokenizer could not decode generated ids into text.
    Decode(String),
    /// The tokenizer's vocabulary lacks one of the required stop markers.
    MissingStopToken,
    /// The tensor runtime failed during prefill or a decode step.
    ModelForward(String),
    /// The run terminated without accumulating any text (the very first
    /// sampled id was a stop token, or nothing decodable was produced):
    /// a successful result is always non-empty, so this is reported as an
    /// error rather than an empty string.
    EmptyOutput,
}

} // verus!
