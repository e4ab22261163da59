//! End-to-end tests of the embedding pipeline on a small model whose
//! weights, tokenizer and configuration are built in memory.

use embedder::bert::Model;
use embedder::errors::{EmbeddingError, LoadError};

const HIDDEN: usize = 8;
const VOCAB: usize = 4;
const MAX_POS: usize = 16;
const TYPE_VOCAB: usize = 2;
const INTER: usize = 16;
const LAYERS: usize = 2;

fn toy_config() -> Vec<u8> {
    let json = "{\"vocab_size\":4,\"hidden_size\":8,\"num_hidden_layers\":2,\
                 \"num_attention_heads\":2,\"intermediate_size\":16,\"hidden_act\":\"gelu\",\
                 \"hidden_dropout_prob\":0.0,\"max_position_embeddings\":16,\
                 \"type_vocab_size\":2,\"initializer_range\":0.02,\"layer_norm_eps\":1e-12,\
                 \"pad_token_id\":0}";
    json.as_bytes().to_vec()
}

fn tokenizer_json(vocab: &str, unk: &str) -> Vec<u8> {
    format!(
        "{{\"version\":\"1.0\",\"truncation\":null,\"padding\":null,\"added_tokens\":[],\
         \"normalizer\":null,\"pre_tokenizer\":{{\"type\":\"Whitespace\"}},\
         \"post_processor\":null,\"decoder\":null,\
         \"model\":{{\"type\":\"WordLevel\",\"vocab\":{vocab},\"unk_token\":\"{unk}\"}}}}"
    )
    .into_bytes()
}

fn toy_tokenizer() -> Vec<u8> {
    tokenizer_json("{\"[PAD]\":0,\"[UNK]\":1,\"a\":2,\"b\":3}", "[UNK]")
}

/// A small deterministic pseudo-random generator for weight values.
struct Lcg(u64);

impl Lcg {
    fn next_value(&mut self) -> f64 {
        self.0 = self
            .0
            .wrapping_mul(6364136223846793005)
            .wrapping_add(1442695040888963407);
        ((self.0 >> 33) as f64 / (1u64 << 31) as f64 - 0.5) * 0.2
    }
}

struct SafetensorsBuilder {
    entries: Vec<String>,
    data: Vec<u8>,
}

impl SafetensorsBuilder {
    fn new() -> Self {
        SafetensorsBuilder {
            entries: Vec::new(),
            data: Vec::new(),
        }
    }

    fn add(&mut self, name: &str, shape: &[usize], values: &[f64]) {
        assert_eq!(shape.iter().product::<usize>(), values.len());
        let start = self.data.len();
        for v in values {
            self.data.extend_from_slice(&v.to_le_bytes());
        }
        let end = self.data.len();
        let dims: Vec<String> = shape.iter().map(|d| d.to_string()).collect();
        self.entries.push(format!(
            "\"{}\":{{\"dtype\":\"F64\",\"shape\":[{}],\"data_offsets\":[{},{}]}}",
            name,
            dims.join(","),
            start,
            end
        ));
    }

    fn add_random(&mut self, rng: &mut Lcg, name: &str, shape: &[usize]) {
        let n: usize = shape.iter().product();
        let values: Vec<f64> = (0..n).map(|_| rng.next_value()).collect();
        self.add(name, shape, &values);
    }

    fn add_layer_norm(&mut self, prefix: &str) {
        self.add(&format!("{prefix}.weight"), &[HIDDEN], &[1.0; HIDDEN]);
        self.add(&format!("{prefix}.bias"), &[HIDDEN], &[0.0; HIDDEN]);
    }

    fn finish(self) -> Vec<u8> {
        let header = format!("{{{}}}", self.entries.join(","));
        let mut out = Vec::new();
        out.extend_from_slice(&(header.len() as u64).to_le_bytes());
        out.extend_from_slice(header.as_bytes());
        out.extend_from_slice(&self.data);
        out
    }
}

fn toy_weights() -> Vec<u8> {
    let mut rng = Lcg(42);
    let mut b = SafetensorsBuilder::new();
    b.add_random(&mut rng, "embeddings.word_embeddings.weight", &[VOCAB, HIDDEN]);
    b.add_random(
        &mut rng,
        "embeddings.position_embeddings.weight",
        &[MAX_POS, HIDDEN],
    );
    b.add_random(
        &mut rng,
        "embeddings.token_type_embeddings.weight",
        &[TYPE_VOCAB, HIDDEN],
    );
    b.add_layer_norm("embeddings.LayerNorm");
    for i in 0..LAYERS {
        let p = format!("encoder.layer.{i}");
        b.add_random(&mut rng, &format!("{p}.attention.self.query.weight"), &[HIDDEN, HIDDEN]);
        b.add_random(&mut rng, &format!("{p}.attention.self.query.bias"), &[HIDDEN]);
        b.add_random(&mut rng, &format!("{p}.attention.self.key.weight"), &[HIDDEN, HIDDEN]);
        b.add_random(&mut rng, &format!("{p}.attention.self.key.bias"), &[HIDDEN]);
        b.add_random(&mut rng, &format!("{p}.attention.self.value.weight"), &[HIDDEN, HIDDEN]);
        b.add_random(&mut rng, &format!("{p}.attention.self.value.bias"), &[HIDDEN]);
        b.add_random(&mut rng, &format!("{p}.attention.output.dense.weight"), &[HIDDEN, HIDDEN]);
        b.add_random(&mut rng, &format!("{p}.attention.output.dense.bias"), &[HIDDEN]);
        b.add_layer_norm(&format!("{p}.attention.output.LayerNorm"));
        b.add_random(&mut rng, &format!("{p}.intermediate.dense.weight"), &[INTER, HIDDEN]);
        b.add_random(&mut rng, &format!("{p}.intermediate.dense.bias"), &[INTER]);
        b.add_random(&mut rng, &format!("{p}.output.dense.weight"), &[HIDDEN, INTER]);
        b.add_random(&mut rng, &format!("{p}.output.dense.bias"), &[HIDDEN]);
        b.add_layer_norm(&format!("{p}.output.LayerNorm"));
    }
    b.finish()
}

fn toy_model() -> Model {
    Model::from_stream(toy_weights(), toy_tokenizer(), toy_config()).unwrap()
}

fn sentences(list: &[&str]) -> Vec<String> {
    list.iter().map(|s| s.to_string()).collect()
}

fn embed(model: &mut Model, list: &[&str], normalize: bool) -> Vec<Vec<f64>> {
    match model.get_embeddings(&sentences(list), normalize) {
        Ok(None) => Vec::new(),
        Ok(Some(t)) => t.to_vec2::<f64>().unwrap(),
        Err(e) => panic!("embedding failed: {:?}", e),
    }
}

fn l2_norm(row: &[f64]) -> f64 {
    row.iter().map(|v| v * v).sum::<f64>().sqrt()
}

#[test]
fn test_batch_length_and_order() {
    let mut model = toy_model();
    let first = embed(&mut model, &["a b", "a"], false);
    let second = embed(&mut model, &["a", "a b"], false);
    assert_eq!(first.len(), 2);
    assert_eq!(second.len(), 2);
    // Same sentences, same padded length, swapped order: rows swap too.
    assert_eq!(first[0], second[1]);
    assert_eq!(first[1], second[0]);
    // Different sentences give different vectors.
    assert!(first[0] != first[1]);
}

#[test]
fn test_empty_batch() {
    let mut model = toy_model();
    assert!(matches!(model.get_embeddings(&[], false), Ok(None)));
    assert_eq!(embed(&mut model, &[], false), Vec::<Vec<f64>>::new());
    assert_eq!(embed(&mut model, &[], true), Vec::<Vec<f64>>::new());
}

#[test]
fn test_normalization_divides_by_row_norm() {
    let mut model = toy_model();
    let raw = embed(&mut model, &["a b", "b"], false);
    let normalized = embed(&mut model, &["a b", "b"], true);
    for (raw_row, norm_row) in raw.iter().zip(normalized.iter()) {
        let n = l2_norm(raw_row);
        for (x, y) in raw_row.iter().zip(norm_row.iter()) {
            assert!((x / n - y).abs() < 1e-9);
        }
    }
}

#[test]
fn test_hidden_size_fixed_across_calls() {
    let mut model = toy_model();
    let first = embed(&mut model, &["a"], false);
    let second = embed(&mut model, &["a b", "b", "a a a"], false);
    for row in first.iter().chain(second.iter()) {
        assert_eq!(row.len(), HIDDEN);
    }
}

#[test]
fn test_normalized_rows_have_unit_norm() {
    let mut model = toy_model();
    let rows = embed(&mut model, &["a b", "a", "b b a"], true);
    for row in &rows {
        assert!((l2_norm(row) - 1.0).abs() < 1e-6);
    }
}

#[test]
fn test_determinism() {
    let mut model = toy_model();
    let first = embed(&mut model, &["hello"], false);
    let second = embed(&mut model, &["hello"], false);
    assert_eq!(first, second);
}

#[test]
fn test_padding_changes_pooled_values() {
    // Mean pooling divides by the batch-wide padded length and padding is
    // not masked, so the same sentence embedded next to a longer one must
    // give a different vector than embedded alone.
    let mut model = toy_model();
    let alone = embed(&mut model, &["a"], false);
    let padded = embed(&mut model, &["a", "b a b a b"], false);
    let diverges = alone[0]
        .iter()
        .zip(padded[0].iter())
        .any(|(x, y)| (x - y).abs() > 1e-9);
    assert!(diverges);
}

#[test]
fn test_toy_scenario_shape_and_norms() {
    let mut model = toy_model();
    let rows = embed(&mut model, &["a b", "a"], true);
    assert_eq!(rows.len(), 2);
    for row in &rows {
        assert_eq!(row.len(), HIDDEN);
        assert!((l2_norm(row) - 1.0).abs() < 1e-6);
    }
}

#[test]
fn test_malformed_config_is_config_error() {
    let r = Model::from_stream(toy_weights(), toy_tokenizer(), b"{not json".to_vec());
    assert!(matches!(r, Err(LoadError::ConfigError(_))));
}

#[test]
fn test_missing_config_field_is_config_error() {
    let r = Model::from_stream(
        toy_weights(),
        toy_tokenizer(),
        b"{\"vocab_size\":4}".to_vec(),
    );
    assert!(matches!(r, Err(LoadError::ConfigError(_))));
}

#[test]
fn test_zero_attention_heads_is_config_error() {
    // A document that deserializes but prescribes no attention heads
    // cannot build an encoder; the loader must reject it, not fall over.
    let cfg = "{\"vocab_size\":4,\"hidden_size\":8,\"num_hidden_layers\":2,\
               \"num_attention_heads\":0,\"intermediate_size\":16,\"hidden_act\":\"gelu\",\
               \"hidden_dropout_prob\":0.0,\"max_position_embeddings\":16,\
               \"type_vocab_size\":2,\"initializer_range\":0.02,\"layer_norm_eps\":1e-12,\
               \"pad_token_id\":0}";
    let r = Model::from_stream(toy_weights(), toy_tokenizer(), cfg.as_bytes().to_vec());
    assert!(matches!(r, Err(LoadError::ConfigError(_))));
}

#[test]
fn test_malformed_tokenizer_is_tokenizer_error() {
    let r = Model::from_stream(toy_weights(), b"\xff\xfe not a tokenizer".to_vec(), toy_config());
    assert!(matches!(r, Err(LoadError::TokenizerError(_))));
}

#[test]
fn test_incompatible_weights_is_weight_load_error() {
    // A valid but empty archive has none of the parameters the
    // configuration asks for.
    let empty = {
        let header = "{}";
        let mut out = Vec::new();
        out.extend_from_slice(&(header.len() as u64).to_le_bytes());
        out.extend_from_slice(header.as_bytes());
        out
    };
    let r = Model::from_stream(empty, toy_tokenizer(), toy_config());
    assert!(matches!(r, Err(LoadError::WeightLoadError(_))));
}

#[test]
fn test_unencodable_sentence_is_tokenize_error() {
    // The fallback token this tokenizer names is missing from its
    // vocabulary, so an out-of-vocabulary word cannot be encoded; the call
    // fails atomically and the pipeline stays usable.
    let tok = tokenizer_json("{\"[PAD]\":0,\"a\":2,\"b\":3}", "[MISSING]");
    let mut model = Model::from_stream(toy_weights(), tok, toy_config()).unwrap();
    let r = model.get_embeddings(&sentences(&["zzz"]), false);
    assert!(matches!(r, Err(EmbeddingError::TokenizeError(_))));
    let rows = embed(&mut model, &["a"], false);
    assert_eq!(rows.len(), 1);
}

#[test]
fn test_failed_forward_is_inference_error() {
    // A token id beyond the model's vocabulary makes the embedding lookup
    // fail inside the forward pass.
    let tok = tokenizer_json("{\"[PAD]\":0,\"[UNK]\":1,\"a\":2,\"x\":9}", "[UNK]");
    let mut model = Model::from_stream(toy_weights(), tok, toy_config()).unwrap();
    let r = model.get_embeddings(&sentences(&["x"]), false);
    assert!(matches!(r, Err(EmbeddingError::InferenceError(_))));
}
