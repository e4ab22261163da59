//! Sentence embeddings from a pretrained transformer encoder, loaded from
//! in-memory byte buffers, plus the message modelling for a remote
//! chat-completion request.
//!
//! The pipeline in [`bert`] tokenizes a batch with batch-longest padding,
//! runs the encoder's forward pass, mean-pools each sentence's per-token
//! states over the token axis — padding included — and optionally
//! L2-normalizes the rows. The numeric backend and the tokenizer are
//! outside crates behind the trusted boundaries in [`runtime`] and
//! [`tokenizer`]; every contract over them speaks of tensor shapes and
//! token-id sequences.

pub mod bert;
pub mod errors;
pub mod openai;
pub mod runtime;
pub mod tokenizer;
