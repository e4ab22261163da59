//! Boundary to the numeric backend: the tensor type, the encoder model and
//! its configuration are opaque outside types; each operation the pipeline
//! needs is a small trusted wrapper whose contract speaks of tensor shapes,
//! element kinds, and names for the deterministic results of the calls.

use vstd::prelude::*;

use crate::errors::{EmbeddingError, LoadError};
use candle_transformers::models::bert::{BertModel, Config};

verus! {

#[verifier::external_type_specification]
#[verifier::external_body]
pub struct ExTensor(candle_core::Tensor);

#[verifier::external_type_specification]
#[verifier::external_body]
pub struct ExCandleError(candle_core::Error);

#[verifier::external_type_specification]
#[verifier::external_body]
pub struct ExBertModel(BertModel);

#[verifier::external_type_specification]
#[verifier::external_body]
pub struct ExConfig(Config);

/// The shape of a tensor: the extent of each of its axes, outermost first.
pub uninterp spec fn tensor_dims(t: candle_core::Tensor) -> Seq<nat>;

/// Whether a tensor's elements are 64-bit floats, the one element kind
/// this pipeline computes with. The element-wise square, square-root and
/// division of this backend are defined only for float tensors — on
/// integer tensors they panic — and mixing element kinds is an error.
pub uninterp spec fn tensor_float(t: candle_core::Tensor) -> bool;

/// The token-id rows of a two-axis tensor of unsigned 32-bit integers in
/// the backend's standard layout, as the stacking below builds them:
/// `Some` of its rows for such a tensor, `None` for any other.
pub uninterp spec fn ids_content(t: candle_core::Tensor) -> Option<Seq<Seq<u32>>>;

/// The token ids of a one-axis tensor of unsigned 32-bit integers in the
/// backend's standard layout, as the constructor below builds them:
/// `Some` of its elements for such a tensor, `None` for any other.
pub uninterp spec fn ids_vector(t: candle_core::Tensor) -> Option<Seq<u32>>;

/// The hidden size an encoder model was built with: the extent of the last
/// axis of every hidden-state tensor it produces.
pub uninterp spec fn bert_hidden(m: BertModel) -> nat;

/// Whether an encoder model's parameters are 64-bit floats, as the loader
/// below builds them. The forward pass normalizes layer inputs with a
/// square root, which panics on integer parameters.
pub uninterp spec fn bert_float(m: BertModel) -> bool;

/// Whether a byte buffer deserializes into the configuration type.
pub uninterp spec fn config_parses(bytes: Seq<u8>) -> bool;

/// The configuration a byte buffer deserializes into, where it parses.
pub uninterp spec fn parsed_config(bytes: Seq<u8>) -> Config;

/// The attention-head count a parsed configuration prescribes. The
/// encoder loader divides the hidden size by it, so a loadable
/// configuration must prescribe at least one head.
pub uninterp spec fn config_heads(c: Config) -> nat;

/// The hidden size a parsed configuration prescribes.
pub uninterp spec fn config_hidden(c: Config) -> nat;

/// Whether a weight archive parses and binds against a configuration:
/// every parameter the configuration asks for is present under its name
/// with its shape.
pub uninterp spec fn weights_bind(weights: Seq<u8>, c: Config) -> bool;

/// Whether the encoder's forward pass succeeds for a model on a token-id
/// matrix, with an all-zero token-type matrix of the same shape: a
/// deterministic function of the model and the ids (an id outside the
/// model's vocabulary or position table fails the lookup).
pub uninterp spec fn forward_ok(m: BertModel, ids: Seq<Seq<u32>>) -> bool;

/// The hidden-state tensor the encoder's forward pass returns for a model
/// on a token-id matrix, where it succeeds: the pass holds no random or
/// stateful step, so on this backend the result is a function of the
/// model and the ids alone.
pub uninterp spec fn forward_states(m: BertModel, ids: Seq<Seq<u32>>) -> candle_core::Tensor;

/// The mean of a tensor over axis 1, as the backend computes it: a
/// function of the tensor value alone.
pub uninterp spec fn mean_of(t: candle_core::Tensor) -> candle_core::Tensor;

/// The elementwise square of a tensor, as the backend computes it.
pub uninterp spec fn sqr_of(t: candle_core::Tensor) -> candle_core::Tensor;

/// The elementwise square root of a tensor, as the backend computes it.
pub uninterp spec fn sqrt_of(t: candle_core::Tensor) -> candle_core::Tensor;

/// The sum of a tensor over axis 1 with the axis kept, as the backend
/// computes it.
pub uninterp spec fn sum_cols_of(t: candle_core::Tensor) -> candle_core::Tensor;

/// The broadcast division of one tensor by another, as the backend
/// computes it.
pub uninterp spec fn div_rows_of(a: candle_core::Tensor, b: candle_core::Tensor) -> candle_core::Tensor;

/// Relies on serde_json::from_slice for candle's BERT configuration type,
/// parsing the document or rejecting malformed or incomplete bytes; and on
/// serde_json's generic value for reading the attention-head count out of
/// the same document, which the configuration type keeps private. A
/// document that yields a configuration always carries that count as a
/// non-negative integer, so the second read cannot fail where the first
/// parse succeeded.
#[verifier::external_body]
pub(crate) fn parse_config(config: &Vec<u8>) -> (r: Result<(Config, usize), LoadError>)
    ensures
        r is Ok <==> config_parses(config@),
        r is Ok ==> r->Ok_0.0 == parsed_config(config@),
        r is Ok ==> r->Ok_0.1 as nat == config_heads(r->Ok_0.0),
        r is Err ==> r->Err_0 is ConfigError,
{
    let parsed: Config = serde_json::from_slice(config.as_slice())
        .map_err(|e| LoadError::ConfigError(e.to_string()))?;
    let value: serde_json::Value = serde_json::from_slice(config.as_slice())
        .map_err(|e| LoadError::ConfigError(e.to_string()))?;
    let heads = value
        .get("num_attention_heads")
        .and_then(|h| h.as_u64())
        .ok_or_else(|| LoadError::ConfigError("num_attention_heads".to_string()))?;
    Ok((parsed, heads as usize))
}

/// Relies on candle_nn::VarBuilder::from_buffered_safetensors and on
/// candle_transformers' BertModel::load: the archive is parsed and each
/// parameter is bound, as 64-bit floats, against the configuration's names
/// and shapes, succeeding exactly when all of them bind; the loaded
/// encoder produces states of the configuration's hidden size. The loader
/// divides by the configuration's attention-head count, hence the
/// requirement. The var-builder intermediate cannot be named in a
/// signature, so both steps stand in this one body.
#[verifier::external_body]
pub(crate) fn load_bert(weights: Vec<u8>, config: &Config) -> (r: Result<BertModel, LoadError>)
    requires
        config_heads(*config) > 0,
    ensures
        r is Ok <==> weights_bind(weights@, *config),
        r is Ok ==> bert_float(r->Ok_0),
        r is Ok ==> bert_hidden(r->Ok_0) == config_hidden(*config),
        r is Err ==> r->Err_0 is WeightLoadError,
{
    let load = || -> Result<BertModel, candle_core::Error> {
        let device = &candle_core::Device::Cpu;
        let vb = candle_nn::VarBuilder::from_buffered_safetensors(
            weights,
            candle_core::DType::F64,
            device,
        )?;
        BertModel::load(vb, config)
    };
    load().map_err(|e| LoadError::WeightLoadError(e.to_string()))
}

/// Relies on candle_core::Tensor::new on a slice of token ids: it builds a
/// one-axis u32 tensor holding the slice's elements; on the fixed device
/// this construction has no failing path.
#[verifier::external_body]
pub(crate) fn tensor_from_ids(ids: &Vec<u32>) -> (r: Result<candle_core::Tensor, EmbeddingError>)
    ensures
        r is Ok,
        r is Ok ==> tensor_dims(r->Ok_0) =~= seq![ids@.len() as nat],
        r is Ok ==> ids_vector(r->Ok_0) == Some(ids@),
{
    candle_core::Tensor::new(ids.as_slice(), &candle_core::Device::Cpu)
        .map_err(|e| EmbeddingError::InferenceError(e.to_string()))
}

/// Relies on candle_core::Tensor::stack along a new leading axis: on a
/// non-empty list of equal-length one-axis id tensors — all of one
/// element kind, so the concatenation cannot reject them — it succeeds,
/// the result's shape is the count followed by the common length, and
/// the result holds the matrix of their rows, in order.
#[verifier::external_body]
pub(crate) fn stack_tensors(ts: &Vec<candle_core::Tensor>) -> (r: Result<
    candle_core::Tensor,
    EmbeddingError,
>)
    ensures
        (ts@.len() > 0 && (forall|i: int|
            0 <= i < ts@.len() ==> #[trigger] tensor_dims(ts@[i]) == tensor_dims(ts@[0])) && (
        forall|i: int| 0 <= i < ts@.len() ==> #[trigger] ids_vector(ts@[i]) is Some)) ==> (r is Ok
            && tensor_dims(r->Ok_0) =~= seq![ts@.len() as nat] + tensor_dims(ts@[0])
            && ids_content(r->Ok_0) == Some(
            Seq::new(ts@.len(), |i: int| ids_vector(ts@[i])->Some_0),
        )),
        r is Err ==> r->Err_0 is InferenceError,
{
    candle_core::Tensor::stack(ts.as_slice(), 0)
        .map_err(|e| EmbeddingError::InferenceError(e.to_string()))
}

/// Relies on candle_core::Tensor::zeros_like and on candle_transformers'
/// BertModel::forward: the encoder derives an all-zero token-type tensor
/// of the ids' shape and runs the forward pass, succeeding exactly when
/// the pass succeeds on those ids; on a (n, t) id matrix a success is the
/// (n, t, h) float hidden states, h the size the model was built with.
/// The zero-tensor derivation has no failing path, so both steps stand in
/// this one body as one encoder operation.
#[verifier::external_body]
pub(crate) fn bert_forward(m: &BertModel, token_ids: &candle_core::Tensor) -> (r: Result<
    candle_core::Tensor,
    EmbeddingError,
>)
    requires
        bert_float(*m),
    ensures
        ids_content(*token_ids) is Some ==> (r is Ok <==> forward_ok(
            *m,
            ids_content(*token_ids)->Some_0,
        )),
        (ids_content(*token_ids) is Some && r is Ok) ==> r->Ok_0 == forward_states(
            *m,
            ids_content(*token_ids)->Some_0,
        ),
        (tensor_dims(*token_ids).len() == 2 && r is Ok) ==> tensor_dims(r->Ok_0) =~= tensor_dims(
            *token_ids,
        ).push(bert_hidden(*m)),
        r is Ok ==> tensor_float(r->Ok_0),
        r is Err ==> r->Err_0 is InferenceError,
{
    let run = || -> Result<candle_core::Tensor, candle_core::Error> {
        let token_type_ids = token_ids.zeros_like()?;
        m.forward(token_ids, &token_type_ids)
    };
    run().map_err(|e| EmbeddingError::InferenceError(e.to_string()))
}

/// Relies on candle_core::Tensor::mean over axis 1: it sums over that axis
/// and scales by the axis's extent, removing the axis from the shape; on a
/// tensor with at least two axes it has no failing path, and it keeps the
/// element kind.
#[verifier::external_body]
pub(crate) fn mean_over_tokens(t: &candle_core::Tensor) -> (r: Result<
    candle_core::Tensor,
    EmbeddingError,
>)
    ensures
        tensor_dims(*t).len() == 3 ==> r is Ok,
        r is Ok ==> r->Ok_0 == mean_of(*t),
        (tensor_dims(*t).len() == 3 && r is Ok) ==> tensor_dims(r->Ok_0) =~= seq![
            tensor_dims(*t)[0],
            tensor_dims(*t)[2],
        ],
        (tensor_float(*t) && r is Ok) ==> tensor_float(r->Ok_0),
        r is Err ==> r->Err_0 is InferenceError,
{
    t.mean(1).map_err(|e| EmbeddingError::InferenceError(e.to_string()))
}

/// Relies on candle_core::Tensor::sqr: elementwise square, same shape and
/// element kind, with no failing path on float tensors. On integer
/// tensors the backend's unary op is unwritten and panics, hence the
/// requirement.
#[verifier::external_body]
pub(crate) fn square_elems(t: &candle_core::Tensor) -> (r: Result<
    candle_core::Tensor,
    EmbeddingError,
>)
    requires
        tensor_float(*t),
    ensures
        r is Ok,
        r is Ok ==> r->Ok_0 == sqr_of(*t),
        r is Ok ==> tensor_dims(r->Ok_0) == tensor_dims(*t),
        r is Ok ==> tensor_float(r->Ok_0),
        r is Err ==> r->Err_0 is InferenceError,
{
    t.sqr().map_err(|e| EmbeddingError::InferenceError(e.to_string()))
}

/// Relies on candle_core::Tensor::sqrt: elementwise square root, same
/// shape and element kind, with no failing path on float tensors. On
/// integer tensors the backend's unary op is unwritten and panics, hence
/// the requirement.
#[verifier::external_body]
pub(crate) fn sqrt_elems(t: &candle_core::Tensor) -> (r: Result<
    candle_core::Tensor,
    EmbeddingError,
>)
    requires
        tensor_float(*t),
    ensures
        r is Ok,
        r is Ok ==> r->Ok_0 == sqrt_of(*t),
        r is Ok ==> tensor_dims(r->Ok_0) == tensor_dims(*t),
        r is Ok ==> tensor_float(r->Ok_0),
        r is Err ==> r->Err_0 is InferenceError,
{
    t.sqrt().map_err(|e| EmbeddingError::InferenceError(e.to_string()))
}

/// Relies on candle_core::Tensor::sum_keepdim over axis 1: the axis is
/// summed away but kept in the shape with extent one; on a two-axis
/// tensor it has no failing path, and it keeps the element kind.
#[verifier::external_body]
pub(crate) fn sum_cols_keepdim(t: &candle_core::Tensor) -> (r: Result<
    candle_core::Tensor,
    EmbeddingError,
>)
    ensures
        tensor_dims(*t).len() == 2 ==> r is Ok,
        r is Ok ==> r->Ok_0 == sum_cols_of(*t),
        (tensor_dims(*t).len() == 2 && r is Ok) ==> tensor_dims(r->Ok_0) =~= seq![
            tensor_dims(*t)[0],
            1nat,
        ],
        (tensor_float(*t) && r is Ok) ==> tensor_float(r->Ok_0),
        r is Err ==> r->Err_0 is InferenceError,
{
    t.sum_keepdim(1).map_err(|e| EmbeddingError::InferenceError(e.to_string()))
}

/// Relies on candle_core::Tensor::broadcast_div: dividing a (n, k) float
/// tensor by a (n, 1) float tensor broadcasts the divisor over each row,
/// keeps the dividend's shape, and has no failing path — a zero divisor
/// gives non-finite float values, not an error. Integer division by zero
/// would panic, hence the requirements.
#[verifier::external_body]
pub(crate) fn broadcast_div_rows(
    a: &candle_core::Tensor,
    b: &candle_core::Tensor,
) -> (r: Result<candle_core::Tensor, EmbeddingError>)
    requires
        tensor_float(*a),
        tensor_float(*b),
    ensures
        (tensor_dims(*a).len() == 2 && tensor_dims(*b) =~= seq![tensor_dims(*a)[0], 1nat]) ==> (r
            is Ok && tensor_dims(r->Ok_0) == tensor_dims(*a)),
        r is Ok ==> r->Ok_0 == div_rows_of(*a, *b),
        r is Ok ==> tensor_float(r->Ok_0),
        r is Err ==> r->Err_0 is InferenceError,
{
    a.broadcast_div(b).map_err(|e| EmbeddingError::InferenceError(e.to_string()))
}

} // verus!
