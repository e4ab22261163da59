//! The embedding pipeline: a loaded encoder model and tokenizer that turn a
//! batch of sentences into one fixed-size vector per sentence.
//!
//! One call tokenizes the batch with batch-longest padding, stacks the token
//! ids into an (n, t) matrix, runs the encoder's forward pass to (n, t, h)
//! hidden states, mean-pools over the token axis — padding positions are
//! deliberately not masked out — and, on request, L2-normalizes each row.
//! The contracts say exactly when each call succeeds, over names for the
//! deterministic outside results, and pin the shape of every stage; a row
//! whose L2 norm is zero is normalized to non-finite values rather than
//! being treated as an error.

use vstd::prelude::*;
use vstd::string::*;

use crate::errors::{EmbeddingError, LoadError};
use crate::runtime::{
    bert_float, bert_forward, bert_hidden, broadcast_div_rows, config_heads, config_hidden,
    config_parses, div_rows_of, forward_ok, forward_states, ids_content, ids_vector, load_bert,
    mean_of, mean_over_tokens, parse_config, parsed_config, sqr_of, sqrt_elems, sqrt_of,
    square_elems, stack_tensors, sum_cols_keepdim, sum_cols_of, tensor_dims, tensor_float,
    tensor_from_ids, weights_bind,
};
use crate::tokenizer::{
    batch_encoding, deterministic_tokenizer, encode_batch, encoding_ids, ids_of, padding_set,
    parsed_tokenizer, set_batch_longest_padding, tokenizer_from_bytes, tokenizer_parses,
    with_batch_longest,
};
use candle_core::Tensor;
use candle_transformers::models::bert::BertModel;
use tokenizers::Tokenizer;

verus! {

/// A loaded encoder model and tokenizer, ready for inference.
///
/// Everything but the one-shot padding transition is immutable after load:
/// the encoder, and with it the hidden size of every output vector, never
/// changes for the lifetime of the pipeline.
pub struct Model {
    bert: BertModel,
    tokenizer: Tokenizer,
    padding_ready: bool,
}

/// One embedding request: the sentences and whether to L2-normalize.
pub struct Params {
    sentences: Vec<String>,
    normalize_embeddings: bool,
}

/// Whether a configuration buffer is good: it parses, and it prescribes
/// at least one attention head, without which no encoder can be built
/// from it.
pub open spec fn config_ok(config: Seq<u8>) -> bool {
    config_parses(config) && config_heads(parsed_config(config)) > 0
}

/// Whether the three load buffers together yield a pipeline: the
/// configuration is good, the tokenizer document parses, and the weights
/// bind against the parsed configuration.
pub open spec fn load_ok(config: Seq<u8>, tokenizer: Seq<u8>, weights: Seq<u8>) -> bool {
    config_ok(config) && tokenizer_parses(tokenizer) && weights_bind(
        weights,
        parsed_config(config),
    )
}

/// The rows of a tensor divided by their L2 norms, written over the
/// backend's named operations.
pub open spec fn normalized_rows(t: Tensor) -> Tensor {
    div_rows_of(t, sqrt_of(sum_cols_of(sqr_of(t))))
}

/// The tensor the pipeline returns for an encoder, a padded token-id
/// matrix and the normalize flag: the forward pass's hidden states,
/// mean-pooled over the token axis, L2-normalized on request.
pub open spec fn pipeline_output(m: BertModel, rows: Seq<Seq<u32>>, normalize: bool) -> Tensor {
    if normalize {
        normalized_rows(mean_of(forward_states(m, rows)))
    } else {
        mean_of(forward_states(m, rows))
    }
}

impl Model {
    /// The encoder the pipeline was loaded with.
    pub closed spec fn encoder(self) -> BertModel {
        self.bert
    }

    /// The tokenizer state the pipeline holds.
    pub closed spec fn tokenizer_state(self) -> Tokenizer {
        self.tokenizer
    }

    /// Whether the one-shot batch-longest padding transition has happened.
    pub closed spec fn padding_configured(self) -> bool {
        self.padding_ready
    }

    /// The hidden size every output vector has: the size the encoder was
    /// built with, fixed by the loaded configuration.
    pub closed spec fn hidden_size(self) -> nat {
        bert_hidden(self.bert)
    }

    /// The tokenizer state a call encodes with: the held one once the
    /// padding transition has happened, else the held one with
    /// batch-longest padding applied first.
    pub open spec fn effective_tokenizer(self) -> Tokenizer {
        if self.padding_configured() {
            self.tokenizer_state()
        } else {
            with_batch_longest(self.tokenizer_state())
        }
    }

    /// Whether a call on this pipeline succeeds for a batch of sentences:
    /// the batch encodes, and the encoder's forward pass accepts the
    /// encoded token ids.
    pub open spec fn embeds(self, sentences: Seq<Seq<char>>) -> bool {
        &&& batch_encoding(self.effective_tokenizer(), sentences) is Some
        &&& forward_ok(
            self.encoder(),
            batch_encoding(self.effective_tokenizer(), sentences)->Some_0,
        )
    }

    /// The pipeline's validity: the encoder holds float parameters as the
    /// loader builds them, and once the padding transition is recorded as
    /// done the tokenizer really has batch-longest padding configured.
    pub closed spec fn wf(self) -> bool {
        &&& bert_float(self.bert)
        &&& (self.padding_ready ==> padding_set(self.tokenizer))
    }

    /// Loads a pipeline from three in-memory byte buffers: a weight
    /// archive, a tokenizer document and a configuration document. It
    /// succeeds exactly when all three buffers are good; otherwise the
    /// error names the first stage, in configuration, tokenizer, weights
    /// order, whose buffer is bad, and nothing usable is returned.
    pub fn from_stream(weights: Vec<u8>, tokenizer: Vec<u8>, config: Vec<u8>) -> (r: Result<
        Model,
        LoadError,
    >)
        ensures
            r is Ok <==> load_ok(config@, tokenizer@, weights@),
            r is Ok ==> r->Ok_0.wf() && !r->Ok_0.padding_configured(),
            r is Ok ==> r->Ok_0.tokenizer_state() == parsed_tokenizer(tokenizer@),
            r is Ok ==> r->Ok_0.hidden_size() == config_hidden(parsed_config(config@)),
            r is Err ==> (r->Err_0 is ConfigError <==> !config_ok(config@)),
            r is Err ==> (r->Err_0 is TokenizerError <==> config_ok(config@) && !tokenizer_parses(
                tokenizer@,
            )),
            r is Err ==> (r->Err_0 is WeightLoadError <==> config_ok(config@) && tokenizer_parses(
                tokenizer@,
            ) && !weights_bind(weights@, parsed_config(config@))),
    {
        let (parsed, heads) = match parse_config(&config) {
            Ok(p) => p,
            Err(e) => {
                return Err(e);
            },
        };
        if heads == 0 {
            return Err(LoadError::ConfigError(String::from_str("no attention heads")));
        }
        let tok = match tokenizer_from_bytes(&tokenizer) {
            Ok(t) => t,
            Err(e) => {
                return Err(e);
            },
        };
        let bert = match load_bert(weights, &parsed) {
            Ok(b) => b,
            Err(e) => {
                return Err(e);
            },
        };
        Ok(Model { bert, tokenizer: tok, padding_ready: false })
    }

    /// Switches the tokenizer to batch-longest padding once, leaving all
    /// its other state alone; later calls leave the pipeline exactly as
    /// it is.
    fn ensure_padding(&mut self)
        requires
            old(self).wf(),
        ensures
            final(self).bert == old(self).bert,
            final(self).padding_ready,
            final(self).wf(),
            padding_set(final(self).tokenizer),
            final(self).tokenizer == old(self).effective_tokenizer(),
            old(self).padding_ready ==> *final(self) == *old(self),
    {
        if !self.padding_ready {
            set_batch_longest_padding(&mut self.tokenizer);
            self.padding_ready = true;
        }
    }

    /// Embeds a batch of sentences: one vector of the loaded hidden size
    /// per sentence, in input order, as the rows of an (n, h) tensor.
    ///
    /// An empty batch returns `None` at once, before any tokenization or
    /// inference. A failure is a `TokenizeError` or an `InferenceError`;
    /// pooling and normalization add no failing condition. Where the
    /// tokenizer encodes deterministically, a non-empty call succeeds
    /// exactly when the batch encodes and the forward pass accepts the
    /// encoded ids, the two errors name exactly those two stages, and the
    /// returned tensor is the named composition of the backend's stages
    /// on the encoded batch — so two calls with the same sentences and
    /// flag agree, and row i comes from sentence i's padded ids. The
    /// hidden size and the encoder are the same after every call; only
    /// the one-shot padding transition can change the pipeline's state,
    /// on the first non-empty call, and it touches nothing but the
    /// padding strategy.
    pub fn get_embeddings(&mut self, sentences: &[String], normalize_embedding: bool) -> (r:
        Result<Option<Tensor>, EmbeddingError>)
        requires
            old(self).wf(),
        ensures
            final(self).wf(),
            final(self).hidden_size() == old(self).hidden_size(),
            final(self).encoder() == old(self).encoder(),
            final(self).padding_configured() == (old(self).padding_configured()
                || sentences@.len() > 0),
            final(self).tokenizer_state() == (if sentences@.len() == 0 {
                old(self).tokenizer_state()
            } else {
                old(self).effective_tokenizer()
            }),
            old(self).padding_configured() ==> *final(self) == *old(self),
            sentences@.len() == 0 ==> *final(self) == *old(self) && r is Ok && r->Ok_0 is None,
            r is Err ==> sentences@.len() > 0 && (r->Err_0 is TokenizeError
                || r->Err_0 is InferenceError),
            (r is Ok && sentences@.len() > 0) ==> r->Ok_0 is Some && tensor_dims(
                r->Ok_0->Some_0,
            ) =~= seq![sentences@.len() as nat, old(self).hidden_size()],
            (deterministic_tokenizer(old(self).effective_tokenizer()) && sentences@.len() > 0)
                ==> (r is Ok <==> old(self).embeds(sentences.deep_view())),
            (deterministic_tokenizer(old(self).effective_tokenizer()) && r is Err) ==> (
            r->Err_0 is TokenizeError <==> batch_encoding(
                old(self).effective_tokenizer(),
                sentences.deep_view(),
            ) is None),
            (deterministic_tokenizer(old(self).effective_tokenizer()) && r is Err) ==> (
            r->Err_0 is InferenceError <==> batch_encoding(
                old(self).effective_tokenizer(),
                sentences.deep_view(),
            ) is Some && !forward_ok(
                old(self).encoder(),
                batch_encoding(old(self).effective_tokenizer(), sentences.deep_view())->Some_0,
            )),
            (deterministic_tokenizer(old(self).effective_tokenizer()) && r is Ok
                && sentences@.len() > 0) ==> r->Ok_0->Some_0 == pipeline_output(
                old(self).encoder(),
                batch_encoding(old(self).effective_tokenizer(), sentences.deep_view())->Some_0,
                normalize_embedding,
            ),
    {
        let input = Params {
            sentences: clone_sentences(sentences),
            normalize_embeddings: normalize_embedding,
        };
        let sentence_vec = input.sentences;
        let normalize_embeddings = input.normalize_embeddings;

        if sentence_vec.len() == 0 {
            return Ok(None);
        }
        self.ensure_padding();

        let sentence_slice = sentence_vec.as_slice();
        proof {
            assert(sentence_slice.deep_view() =~= sentences.deep_view());
        }
        let ghost batch = batch_encoding(old(self).effective_tokenizer(), sentences.deep_view());
        let encodings = match encode_batch(&self.tokenizer, sentence_slice) {
            Ok(e) => e,
            Err(e) => {
                return Err(e);
            },
        };
        let ids = encodings_to_ids(&encodings);
        proof {
            if deterministic_tokenizer(old(self).effective_tokenizer()) {
                assert(forall|i: int|
                    0 <= i < ids@.len() ==> #[trigger] ids@[i]@ == batch->Some_0[i]);
            }
        }
        let row_tensors = match rows_to_tensors(&ids) {
            Ok(t) => t,
            Err(e) => {
                return Err(e);
            },
        };
        proof {
            assert forall|i: int| 0 <= i < row_tensors@.len() implies #[trigger] tensor_dims(
                row_tensors@[i],
            ) == tensor_dims(row_tensors@[0]) by {
                assert(encoding_ids(encodings@[i]).len() == encoding_ids(encodings@[0]).len());
                assert(tensor_dims(row_tensors@[i]) =~= tensor_dims(row_tensors@[0]));
            }
            assert(forall|i: int|
                0 <= i < row_tensors@.len() ==> #[trigger] ids_vector(row_tensors@[i]) is Some);
        }
        let token_ids = match stack_tensors(&row_tensors) {
            Ok(t) => t,
            Err(e) => {
                return Err(e);
            },
        };
        proof {
            assert(tensor_dims(token_ids) =~= seq![
                sentences@.len() as nat,
                ids@[0]@.len() as nat,
            ]);
            if deterministic_tokenizer(old(self).effective_tokenizer()) {
                assert(Seq::new(row_tensors@.len(), |i: int| ids_vector(row_tensors@[i])->Some_0)
                    =~= batch->Some_0);
                assert(ids_content(token_ids) == Some(batch->Some_0));
            }
        }
        let hidden_states = match bert_forward(&self.bert, &token_ids) {
            Ok(t) => t,
            Err(e) => {
                return Err(e);
            },
        };
        let pooled = match mean_over_tokens(&hidden_states) {
            Ok(t) => t,
            Err(e) => {
                return Err(e);
            },
        };
        proof {
            assert(tensor_dims(pooled) =~= seq![sentences@.len() as nat, self.hidden_size()]);
        }
        let out = if normalize_embeddings {
            match l2_normalize(&pooled) {
                Ok(t) => t,
                Err(e) => {
                    return Err(e);
                },
            }
        } else {
            pooled
        };
        Ok(Some(out))
    }
}

/// Clones a borrowed batch of sentences into an owned request record.
fn clone_sentences(sentences: &[String]) -> (r: Vec<String>)
    ensures
        r@.len() == sentences@.len(),
        r.deep_view() == sentences.deep_view(),
{
    let mut out: Vec<String> = Vec::new();
    let mut i: usize = 0;
    while i < sentences.len()
        invariant
            i <= sentences@.len(),
            out@.len() == i,
            forall|j: int| 0 <= j < i ==> #[trigger] out@[j]@ == sentences@[j]@,
        decreases sentences@.len() - i,
    {
        out.push(sentences[i].clone());
        i += 1;
    }
    proof {
        assert(out.deep_view() =~= sentences.deep_view());
    }
    out
}

/// Reads each encoding's padded token ids out into a plain matrix, row i
/// for sentence i.
fn encodings_to_ids(encs: &Vec<tokenizers::Encoding>) -> (r: Vec<Vec<u32>>)
    ensures
        r@.len() == encs@.len(),
        forall|i: int| 0 <= i < encs@.len() ==> #[trigger] r@[i]@ == encoding_ids(encs@[i]),
{
    let mut out: Vec<Vec<u32>> = Vec::new();
    let mut i: usize = 0;
    while i < encs.len()
        invariant
            i <= encs@.len(),
            out@.len() == i,
            forall|j: int| 0 <= j < i ==> #[trigger] out@[j]@ == encoding_ids(encs@[j]),
        decreases encs@.len() - i,
    {
        out.push(ids_of(&encs[i]));
        i += 1;
    }
    out
}

/// Turns each id row into a one-axis integer tensor of the row's length
/// and contents.
fn rows_to_tensors(ids: &Vec<Vec<u32>>) -> (r: Result<Vec<Tensor>, EmbeddingError>)
    ensures
        r is Ok,
        r is Ok ==> r->Ok_0@.len() == ids@.len(),
        r is Ok ==> (forall|i: int|
            0 <= i < ids@.len() ==> tensor_dims(#[trigger] r->Ok_0@[i]) =~= seq![
                ids@[i]@.len() as nat,
            ]),
        r is Ok ==> (forall|i: int|
            0 <= i < ids@.len() ==> ids_vector(#[trigger] r->Ok_0@[i]) == Some(ids@[i]@)),
{
    let mut out: Vec<Tensor> = Vec::new();
    let mut i: usize = 0;
    while i < ids.len()
        invariant
            i <= ids@.len(),
            out@.len() == i,
            forall|j: int|
                0 <= j < i ==> tensor_dims(#[trigger] out@[j]) =~= seq![ids@[j]@.len() as nat],
            forall|j: int| 0 <= j < i ==> ids_vector(#[trigger] out@[j]) == Some(ids@[j]@),
        decreases ids@.len() - i,
    {
        let t = match tensor_from_ids(&ids[i]) {
            Ok(t) => t,
            Err(e) => {
                return Err(e);
            },
        };
        out.push(t);
        i += 1;
    }
    Ok(out)
}

/// Divides each row of an (n, h) float tensor by the square root of the
/// sum of its squared components; no step of this can fail. A zero-norm
/// row divides by zero and yields non-finite components; that is the
/// documented behaviour, not an error.
fn l2_normalize(rows: &Tensor) -> (r: Result<Tensor, EmbeddingError>)
    requires
        tensor_dims(*rows).len() == 2,
        tensor_float(*rows),
    ensures
        r is Ok,
        r is Ok ==> r->Ok_0 == normalized_rows(*rows),
        r is Ok ==> tensor_dims(r->Ok_0) == tensor_dims(*rows),
{
    let squared = match square_elems(rows) {
        Ok(t) => t,
        Err(e) => {
            return Err(e);
        },
    };
    let sums = match sum_cols_keepdim(&squared) {
        Ok(t) => t,
        Err(e) => {
            return Err(e);
        },
    };
    let norms = match sqrt_elems(&sums) {
        Ok(t) => t,
        Err(e) => {
            return Err(e);
        },
    };
    proof {
        assert(tensor_dims(norms) =~= seq![tensor_dims(*rows)[0], 1nat]);
    }
    broadcast_div_rows(rows, &norms)
}

} // verus!
