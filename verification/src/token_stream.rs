use vstd::prelude::*;
use crate::errors::GenError;
use crate::text::{copy_range, is_alnum};

verus! {

/// The tokenizer implementation (tokenizers crate): encodes text to ids and
/// decodes ids to text.
#[verifier::external_type_specification]
#[verifier::external_body]
pub struct ExTokenizer(tokenizers::Tokenizer);

/// What the tokenizer decodes a given id sequence to, special tokens skipped:
/// a pure function of the tokenizer value and the ids.
pub uninterp spec fn decoded(t: tokenizers::Tokenizer, ids: Seq<u32>) -> Seq<char>;

/// The tokenizer's vocabulary with its added special tokens, as a map from
/// token text to id: a pure function of the tokenizer value.
pub uninterp spec fn vocab_of(t: tokenizers::Tokenizer) -> Map<Seq<char>, u32>;

/// Relies on `Tokenizer::decode` (tokenizers) with skip_special_tokens =
/// true: a pure function of the tokenizer and the ids. The wrapper hands the
/// text back as its characters, in order.
#[verifier::external_body]
pub(crate) fn decode_ids(t: &tokenizers::Tokenizer, ids: &Vec<u32>) -> (r: Result<
    Vec<char>,
    GenError,
>)
    ensures
        r matches Ok(v) ==> v@ == decoded(*t, ids@),
        r matches Err(e) ==> e is Decode,
{
    match t.decode(ids, true) {
        Ok(s) => Ok(s.chars().collect()),
        Err(e) => Err(GenError::Decode(e.to_string())),
    }
}

/// Relies on `Tokenizer::encode` (tokenizers) with add_special_tokens = true.
/// Nothing is assumed of the ids it returns: an encoder may be configured to
/// randomize its merges.
#[verifier::external_body]
pub(crate) fn encode_text(t: &tokenizers::Tokenizer, text: &String) -> (r: Result<
    Vec<u32>,
    GenError,
>)
    ensures
        r matches Err(e) ==> e is Encode,
{
    match t.encode(text.as_str(), true) {
        Ok(enc) => Ok(enc.get_ids().to_vec()),
        Err(e) => Err(GenError::Encode(e.to_string())),
    }
}

/// Relies on `Tokenizer::get_vocab(true)` (tokenizers): the merged
/// vocabulary with the added special tokens, a pure function of the
/// tokenizer value.
#[verifier::external_body]
pub(crate) fn lookup_token(t: &tokenizers::Tokenizer, name: &str) -> (r: Option<u32>)
    ensures
        r matches Some(id) ==> vocab_of(*t).dom().contains(name@) && vocab_of(*t)[name@] == id,
        r is None ==> !vocab_of(*t).dom().contains(name@),
{
    t.get_vocab(true).get(name).copied()
}

/// Ghost state of the incremental decoder: the ids fed so far and the two
/// cursor positions delimiting the ids whose text was last emitted.
pub struct StreamState {
    pub fed: Seq<u32>,
    pub prev: int,
    pub cur: int,
}

/// The decoder's initial state.
pub open spec fn stream_init() -> StreamState {
    StreamState { fed: Seq::empty(), prev: 0, cur: 0 }
}

/// The text of the current cursor window, against which the next decode is
/// compared; empty while nothing was fed.
pub open spec fn spec_prev_text(t: tokenizers::Tokenizer, s: StreamState) -> Seq<char> {
    if s.fed.len() == 0 {
        Seq::empty()
    } else {
        decoded(t, s.fed.subrange(s.prev, s.cur))
    }
}

/// One feed step of the incremental decoder: the state after `id` is
/// appended, and the fragment emitted (empty when the decoded tail has not
/// yet grown into stable output ending in an alphanumeric character).
pub open spec fn spec_feed(t: tokenizers::Tokenizer, s: StreamState, id: u32) -> (
    StreamState,
    Seq<char>,
) {
    let prev_text = spec_prev_text(t, s);
    let fed2 = s.fed.push(id);
    let text = decoded(t, fed2.subrange(s.prev, fed2.len() as int));
    if text.len() > prev_text.len() && is_alnum(text.last()) {
        (
            StreamState { fed: fed2, prev: s.cur, cur: fed2.len() as int },
            text.skip(prev_text.len() as int),
        )
    } else {
        (StreamState { fed: fed2, prev: s.prev, cur: s.cur }, Seq::empty())
    }
}

/// The text still buffered after the loop ends: the decoded tail beyond the
/// already-emitted window, with no stability condition.
pub open spec fn spec_flush(t: tokenizers::Tokenizer, s: StreamState) -> Seq<char> {
    let prev_text = spec_prev_text(t, s);
    let text = decoded(t, s.fed.subrange(s.prev, s.fed.len() as int));
    if text.len() > prev_text.len() {
        text.skip(prev_text.len() as int)
    } else {
        Seq::empty()
    }
}

/// Stateful wrapper around the tokenizer: encodes the transcript and
/// incrementally decodes generated ids into text, tracking a decode cursor
/// so sub-word fragments are only emitted once complete.
pub struct TokenStream {
    pub tokenizer: tokenizers::Tokenizer,
    pub tokens: Vec<u32>,
    pub prev_index: usize,
    pub current_index: usize,
}

impl TokenStream {
    /// The cursors never pass each other or the end of the fed ids.
    pub open spec fn wf(self) -> bool {
        self.prev_index <= self.current_index <= self.tokens@.len()
    }

    /// The ghost decoder state this session is in.
    pub open spec fn state(self) -> StreamState {
        StreamState {
            fed: self.tokens@,
            prev: self.prev_index as int,
            cur: self.current_index as int,
        }
    }

    /// Wraps a tokenizer in a fresh session.
    pub fn new(tokenizer: tokenizers::Tokenizer) -> (r: TokenStream)
        ensures
            r.tokenizer == tokenizer,
            r.state() == stream_init(),
            r.wf(),
    {
        TokenStream { tokenizer, tokens: Vec::new(), prev_index: 0, current_index: 0 }
    }

    /// Clears the incremental decode state; called at the start of every
    /// generation.
    pub fn reset(&mut self)
        ensures
            final(self).tokenizer == old(self).tokenizer,
            final(self).state() == stream_init(),
            final(self).wf(),
    {
        self.tokens.clear();
        self.prev_index = 0;
        self.current_index = 0;
    }

    /// Encodes text with the wrapped tokenizer.
    pub fn encode(&self, text: &String) -> (r: Result<Vec<u32>, GenError>)
        ensures
            r matches Err(e) ==> e is Encode,
    {
        encode_text(&self.tokenizer, text)
    }

    /// Looks up a named (special) token in the vocabulary.
    pub fn get_token(&self, name: &str) -> (r: Option<u32>)
        ensures
            r matches Some(id) ==> vocab_of(self.tokenizer).dom().contains(name@) && vocab_of(
                self.tokenizer,
            )[name@] == id,
            r is None ==> !vocab_of(self.tokenizer).dom().contains(name@),
    {
        lookup_token(&self.tokenizer, name)
    }

    /// Feeds one generated id and returns a text fragment once enough
    /// sub-word pieces have accumulated to form stable output.
    pub fn next_token(&mut self, id: u32) -> (r: Result<Option<Vec<char>>, GenError>)
        requires
            old(self).wf(),
        ensures
            final(self).wf(),
            final(self).tokenizer == old(self).tokenizer,
            r matches Ok(frag) ==> {
                let (s2, em) = spec_feed(old(self).tokenizer, old(self).state(), id);
                &&& final(self).state() == s2
                &&& match frag {
                    Some(f) => f@ == em && em.len() > 0,
                    None => em.len() == 0,
                }
            },
            r matches Err(e) ==> e is Decode,
    {
        let prev_text: Vec<char> = if self.tokens.len() == 0 {
            Vec::new()
        } else {
            let window = copy_range(&self.tokens, self.prev_index, self.current_index);
            match decode_ids(&self.tokenizer, &window) {
                Ok(v) => v,
                Err(e) => {
                    return Err(e);
                },
            }
        };
        self.tokens.push(id);
        let tail = copy_range(&self.tokens, self.prev_index, self.tokens.len());
        let text = match decode_ids(&self.tokenizer, &tail) {
            Ok(v) => v,
            Err(e) => {
                return Err(e);
            },
        };
        if text.len() > prev_text.len() && text[text.len() - 1].is_alphanumeric() {
            let frag = copy_range(&text, prev_text.len(), text.len());
            self.prev_index = self.current_index;
            self.current_index = self.tokens.len();
            assert(frag@ =~= text@.skip(prev_text@.len() as int));
            Ok(Some(frag))
        } else {
            Ok(None)
        }
    }

    /// After the loop ends, returns any buffered-but-not-yet-emitted text.
    pub fn decode_rest(&self) -> (r: Result<Option<Vec<char>>, GenError>)
        requires
            self.wf(),
        ensures
            r matches Ok(frag) ==> match frag {
                Some(f) => f@ == spec_flush(self.tokenizer, self.state()) && f@.len() > 0,
                None => spec_flush(self.tokenizer, self.state()).len() == 0,
            },
            r matches Err(e) ==> e is Decode,
    {
        let prev_text: Vec<char> = if self.tokens.len() == 0 {
            Vec::new()
        } else {
            let window = copy_range(&self.tokens, self.prev_index, self.current_index);
            match decode_ids(&self.tokenizer, &window) {
                Ok(v) => v,
                Err(e) => {
                    return Err(e);
                },
            }
        };
        let tail = copy_range(&self.tokens, self.prev_index, self.tokens.len());
        let text = match decode_ids(&self.tokenizer, &tail) {
            Ok(v) => v,
            Err(e) => {
                return Err(e);
            },
        };
        if text.len() > prev_text.len() {
            let frag = copy_range(&text, prev_text.len(), text.len());
            assert(frag@ =~= text@.skip(prev_text@.len() as int));
            Ok(Some(frag))
        } else {
            Ok(None)
        }
    }
}

/// The decoder state and emitted text after feeding `ids` one by one into a
/// fresh session.
pub open spec fn stream_fold(t: tokenizers::Tokenizer, ids: Seq<u32>) -> (StreamState, Seq<char>)
    decreases ids.len(),
{
    if ids.len() == 0 {
        (stream_init(), Seq::empty())
    } else {
        let prior = stream_fold(t, ids.drop_last());
        let step = spec_feed(t, prior.0, ids.last());
        (step.0, prior.1 + step.1)
    }
}

/// A decoder distributes over concatenation: decoding two id sequences one
/// after the other gives the same text as decoding their concatenation.
pub open spec fn decode_additive(t: tokenizers::Tokenizer) -> bool {
    forall|xs: Seq<u32>, ys: Seq<u32>| #[trigger] decoded(t, xs + ys) == decoded(t, xs) + decoded(
        t,
        ys,
    )
}

proof fn lemma_decoded_empty(t: tokenizers::Tokenizer)
    requires
        decode_additive(t),
    ensures
        decoded(t, Seq::empty()) == Seq::<char>::empty(),
{
    let e = Seq::<u32>::empty();
    assert(e + e =~= e);
    assert(decoded(t, e + e) == decoded(t, e) + decoded(t, e));
    assert(decoded(t, e) =~= Seq::<char>::empty());
}

proof fn lemma_fold_invariant(t: tokenizers::Tokenizer, ids: Seq<u32>)
    requires
        decode_additive(t),
    ensures
        ({
            let (s, em) = stream_fold(t, ids);
            &&& s.fed == ids
            &&& 0 <= s.prev <= s.cur <= ids.len()
            &&& em == decoded(t, ids.subrange(0, s.cur))
        }),
    decreases ids.len(),
{
    lemma_decoded_empty(t);
    if ids.len() == 0 {
        assert(ids.subrange(0, 0) =~= Seq::<u32>::empty());
    } else {
        let pre = ids.drop_last();
        lemma_fold_invariant(t, pre);
        let (s1, em1) = stream_fold(t, pre);
        let fed2 = s1.fed.push(ids.last());
        assert(fed2 =~= ids);
        let a = ids.subrange(s1.prev, s1.cur);
        let rest = ids.subrange(s1.cur, ids.len() as int);
        assert(a + rest =~= ids.subrange(s1.prev, ids.len() as int));
        assert(decoded(t, a + rest) == decoded(t, a) + decoded(t, rest));
        assert(pre.subrange(s1.prev, s1.cur) =~= a);
        assert(pre.subrange(0, s1.cur) =~= ids.subrange(0, s1.cur));
        let prev_text = spec_prev_text(t, s1);
        assert(prev_text == decoded(t, a));
        let text = decoded(t, fed2.subrange(s1.prev, fed2.len() as int));
        assert(fed2.subrange(s1.prev, fed2.len() as int) =~= ids.subrange(
            s1.prev,
            ids.len() as int,
        ));
        assert(text == prev_text + decoded(t, rest));
        if text.len() > prev_text.len() && is_alnum(text.last()) {
            assert((prev_text + decoded(t, rest)).skip(prev_text.len() as int) =~= decoded(
                t,
                rest,
            ));
            assert(ids.subrange(0, s1.cur) + rest =~= ids.subrange(0, ids.len() as int));
            assert(decoded(t, ids.subrange(0, s1.cur) + rest) == decoded(
                t,
                ids.subrange(0, s1.cur),
            ) + decoded(t, rest));
            assert(ids.subrange(0, ids.len() as int) =~= ids);
        } else {
        }
    }
}

/// Law (tokenizer round trip): for a decoder that distributes over
/// concatenation, the fragments an incremental decode session emits,
/// concatenated in emission order and closed by the final flush, equal the
/// direct batch decode of the full id sequence.
///
/// The hypothesis `decode_additive` holds of decoders that concatenate the
/// texts of their ids (byte-level decoders), not of decoders that insert a
/// separator between independently decoded chunks (a word-level decoder
/// joining with spaces): for those this law says nothing, although the
/// session still reconstructs their batch decode in practice because every
/// decode window overlaps the previously emitted chunk.
pub proof fn lemma_stream_round_trip(t: tokenizers::Tokenizer, ids: Seq<u32>)
    requires
        decode_additive(t),
    ensures
        ({
            let (s, em) = stream_fold(t, ids);
            em + spec_flush(t, s) == decoded(t, ids)
        }),
{
    lemma_decoded_empty(t);
    lemma_fold_invariant(t, ids);
    let (s, em) = stream_fold(t, ids);
    if ids.len() == 0 {
        assert(ids.subrange(0, 0) =~= Seq::<u32>::empty());
        assert(em + spec_flush(t, s) =~= decoded(t, ids));
    } else {
        let a = ids.subrange(s.prev, s.cur);
        let rest = ids.subrange(s.cur, ids.len() as int);
        assert(a + rest =~= ids.subrange(s.prev, ids.len() as int));
        assert(decoded(t, a + rest) == decoded(t, a) + decoded(t, rest));
        let prev_text = spec_prev_text(t, s);
        assert(prev_text == decoded(t, a));
        let text = decoded(t, s.fed.subrange(s.prev, s.fed.len() as int));
        assert(s.fed.subrange(s.prev, s.fed.len() as int) =~= ids.subrange(
            s.prev,
            ids.len() as int,
        ));
        assert(text == prev_text + decoded(t, rest));
        assert(ids.subrange(0, s.cur) + rest =~= ids.subrange(0, ids.len() as int));
        assert(decoded(t, ids.subrange(0, s.cur) + rest) == decoded(t, ids.subrange(0, s.cur))
            + decoded(t, rest));
        assert(ids.subrange(0, ids.len() as int) =~= ids);
        if text.len() > prev_text.len() {
            assert((prev_text + decoded(t, rest)).skip(prev_text.len() as int) =~= decoded(
                t,
                rest,
            ));
        } else {
            assert(decoded(t, rest).len() == 0);
            assert(decoded(t, rest) =~= Seq::<char>::empty());
            assert(em + spec_flush(t, s) =~= decoded(t, ids));
        }
    }
}

} // verus!
