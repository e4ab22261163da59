use vstd::prelude::*;

verus! {

/// Failure of the model loader. Each variant names the loading stage that
/// rejected its byte buffer; the payload carries the underlying message.
#[derive(Debug)]
pub enum LoadError {
    /// The configuration document was malformed or missing required fields.
    ConfigError(String),
    /// The tokenizer document was malformed.
    TokenizerError(String),
    /// The weight archive was malformed or incompatible with the configuration.
    WeightLoadError(String),
}

/// Failure of one embedding call. The pipeline stays usable afterwards.
#[derive(Debug)]
pub enum EmbeddingError {
    /// A sentence of the batch could not be encoded; the whole call fails.
    TokenizeError(String),
    /// The numeric forward pass or a pooling step failed.
    InferenceError(String),
}

} // verus!
