//! Boundary to the tokenizer: the tokenizer and its per-sentence encodings
//! are opaque outside types; the contracts speak of each encoding's token
//! ids and of names for the tokenizer's deterministic results.

use vstd::prelude::*;

use crate::errors::{EmbeddingError, LoadError};

verus! {

#[verifier::external_type_specification]
#[verifier::external_body]
pub struct ExTokenizer(tokenizers::Tokenizer);

#[verifier::external_type_specification]
#[verifier::external_body]
pub struct ExEncoding(tokenizers::Encoding);

/// The token ids an encoding holds, in order.
pub uninterp spec fn encoding_ids(e: tokenizers::Encoding) -> Seq<u32>;

/// Whether padding parameters are present in the tokenizer's state with
/// the batch-longest strategy.
pub uninterp spec fn padding_set(t: tokenizers::Tokenizer) -> bool;

/// Whether a byte buffer deserializes into a tokenizer document.
pub uninterp spec fn tokenizer_parses(bytes: Seq<u8>) -> bool;

/// The tokenizer a byte buffer deserializes into, where it parses.
pub uninterp spec fn parsed_tokenizer(bytes: Seq<u8>) -> tokenizers::Tokenizer;

/// The given tokenizer with its padding strategy set to batch-longest:
/// any other padding settings it already holds are kept, the crate's
/// defaults fill them in where none were set, and all remaining tokenizer
/// state — vocabulary, normalization, encoding rules — is unchanged.
pub uninterp spec fn with_batch_longest(t: tokenizers::Tokenizer) -> tokenizers::Tokenizer;

/// Whether a tokenizer encodes purely from its stored state and input,
/// so that two calls on the same arguments give the same outcome. Most
/// tokenizers do; a byte-pair-encoding model may carry a dropout
/// probability, and with it set, merging draws random numbers on every
/// call.
pub uninterp spec fn deterministic_tokenizer(t: tokenizers::Tokenizer) -> bool;

/// The batch encoding a deterministically encoding tokenizer produces
/// for a sequence of sentences, with special tokens added and the
/// tokenizer's padding applied: one row of token ids per sentence, in
/// order, or `None` where some sentence cannot be encoded. For a
/// tokenizer that encodes stochastically no contract relates this name
/// to any call.
pub uninterp spec fn batch_encoding(t: tokenizers::Tokenizer, sentences: Seq<Seq<char>>) -> Option<
    Seq<Seq<u32>>,
>;

/// Relies on tokenizers' Tokenizer::from_bytes: it deserializes a
/// tokenizer document, or rejects malformed bytes.
#[verifier::external_body]
pub(crate) fn tokenizer_from_bytes(bytes: &Vec<u8>) -> (r: Result<tokenizers::Tokenizer, LoadError>)
    ensures
        r is Ok <==> tokenizer_parses(bytes@),
        r is Ok ==> r->Ok_0 == parsed_tokenizer(bytes@),
        r is Err ==> r->Err_0 is TokenizerError,
{
    tokenizers::Tokenizer::from_bytes(bytes.as_slice())
        .map_err(|e| LoadError::TokenizerError(e.to_string()))
}

/// Relies on Tokenizer::get_padding_mut and Tokenizer::with_padding: the
/// padding strategy becomes batch-longest and nothing else of the
/// tokenizer changes — existing padding settings are kept, or the crate's
/// defaults fill them in where none were set, and in particular whether
/// the tokenizer encodes deterministically is untouched. Whether settings
/// were present is state of the loaded document, which only the tokenizer
/// itself can see.
#[verifier::external_body]
pub(crate) fn set_batch_longest_padding(t: &mut tokenizers::Tokenizer)
    ensures
        *final(t) == with_batch_longest(*old(t)),
        padding_set(*final(t)),
        deterministic_tokenizer(*final(t)) == deterministic_tokenizer(*old(t)),
{
    if let Some(pp) = t.get_padding_mut() {
        pp.strategy = tokenizers::PaddingStrategy::BatchLongest;
    } else {
        let pp = tokenizers::PaddingParams {
            strategy: tokenizers::PaddingStrategy::BatchLongest,
            ..Default::default()
        };
        t.with_padding(Some(pp));
    }
}

/// Relies on Tokenizer::encode_batch with special tokens added. Of every
/// outcome: one encoding per sentence, in order, or failure for the batch
/// as a whole; with batch-longest padding set, every returned encoding is
/// padded to the longest id sequence of the batch, so all id sequences
/// have one length. Only for a tokenizer that encodes deterministically
/// is the outcome the named batch encoding of the sentences.
#[verifier::external_body]
pub(crate) fn encode_batch(t: &tokenizers::Tokenizer, sentences: &[String]) -> (r: Result<
    Vec<tokenizers::Encoding>,
    EmbeddingError,
>)
    ensures
        deterministic_tokenizer(*t) ==> (r is Ok <==> batch_encoding(
            *t,
            sentences.deep_view(),
        ) is Some),
        r is Ok ==> r->Ok_0@.len() == sentences@.len(),
        (deterministic_tokenizer(*t) && r is Ok) ==> batch_encoding(
            *t,
            sentences.deep_view(),
        )->Some_0.len() == sentences@.len(),
        (deterministic_tokenizer(*t) && r is Ok) ==> (forall|i: int|
            0 <= i < sentences@.len() ==> #[trigger] encoding_ids(r->Ok_0@[i]) == batch_encoding(
                *t,
                sentences.deep_view(),
            )->Some_0[i]),
        (padding_set(*t) && r is Ok) ==> (forall|i: int, j: int|
            0 <= i < r->Ok_0@.len() && 0 <= j < r->Ok_0@.len()
                ==> #[trigger] encoding_ids(r->Ok_0@[i]).len() == #[trigger] encoding_ids(
                r->Ok_0@[j],
            ).len()),
        r is Err ==> r->Err_0 is TokenizeError,
{
    t.encode_batch(sentences.to_vec(), true)
        .map_err(|e| EmbeddingError::TokenizeError(e.to_string()))
}

/// Relies on Encoding::get_ids: the encoding's token ids as a slice.
#[verifier::external_body]
pub(crate) fn ids_of(e: &tokenizers::Encoding) -> (r: Vec<u32>)
    ensures
        r@ == encoding_ids(*e),
{
    e.get_ids().to_vec()
}

} // verus!
