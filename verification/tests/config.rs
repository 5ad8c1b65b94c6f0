use eredu_architectures::config::{ModelArgs, RopeValue};
use eredu_architectures::errors::ConfigError;
use eredu_architectures::fingerprint::FingerprintTexts;
use eredu_architectures::float::Float32;
use eredu_architectures::formats::{canonical_weight_name, LinearFormat, WeightQuantization};
use eredu_architectures::metadata::{MetadataInteger, MetadataValue};
use eredu_architectures::names::{NameSet, StringMap};
use eredu_architectures::normalize::{normalize, AttentionKind, ModelArgsSource, RotaryChecks};
use eredu_architectures::schedule::{
    AttentionPolicy, AttentionStateSource, AttentionValueSource, FeedForwardPolicy, LayerPolicy,
};

fn float(value: f32) -> Float32 {
    Float32 { bits: value.to_bits() }
}

fn base(theta: f32) -> StringMap<RopeValue> {
    StringMap::new().with("rope_theta".to_owned(), RopeValue::Float(float(theta)))
}

fn fixture() -> ModelArgsSource {
    let sliding = AttentionKind::SlidingAttention;
    let full = AttentionKind::FullAttention;
    ModelArgsSource {
        model_type: "gemma4_unified".to_owned(),
        hidden_size: 32,
        num_hidden_layers: 6,
        intermediate_size: 64,
        use_double_wide_mlp: true,
        feed_forward_lengths: None,
        num_attention_heads: 4,
        rms_norm_eps: float(0.000001),
        vocab_size: 128,
        pad_token_id: 0,
        num_key_value_heads: 2,
        num_global_key_value_heads: Some(1),
        max_position_embeddings: 256,
        rope_theta: float(10000.0),
        head_dim: 8,
        global_head_dim: Some(16),
        tie_word_embeddings: true,
        attention_bias: false,
        attention_k_eq_v: true,
        hidden_size_per_layer_input: 0,
        vocab_size_per_layer_input: None,
        num_kv_shared_layers: 2,
        layer_types: vec![sliding, full, sliding, full, sliding, full],
        sliding_window: Some(32),
        final_logit_softcapping: Some(float(30.0)),
        enable_moe_block: false,
        num_experts: None,
        top_k_experts: None,
        moe_intermediate_size: None,
        rope_scaling: None,
        rope_parameters: Some(
            StringMap::new()
                .with("full_attention".to_owned(), base(1000000.0))
                .with("sliding_attention".to_owned(), base(10000.0)),
        ),
        weight_quantization: None,
        quantized_weights: None,
        quantized_weight_configs: None,
    }
}

fn resolved() -> RotaryChecks {
    RotaryChecks { scaling: Ok(()), parameters: vec![Ok(()), Ok(())] }
}

fn normalized(source: ModelArgsSource) -> Result<ModelArgs, ConfigError> {
    ModelArgs::from_hf_json(Ok(source), &resolved())
}

fn message(result: Result<ModelArgs, ConfigError>) -> String {
    match result {
        Err(ConfigError::Invalid(message)) => message,
        Err(ConfigError::Json(_)) => "json".to_owned(),
        Ok(_) => "accepted".to_owned(),
    }
}

fn texts(args: &ModelArgs) -> FingerprintTexts {
    FingerprintTexts {
        full_rope: vec!["Float(1000000.0)".to_owned()],
        sliding_rope: vec!["Float(10000.0)".to_owned()],
        quantization: format!("{:?}", args.weight_quantization),
        quantized_weights: "none".to_owned(),
        quantized_weight_configs: "none".to_owned(),
    }
}

#[test]
fn normalizes_exact_attention_geometry_shared_kv_and_dense_widths() {
    let args = normalized(fixture()).unwrap();
    assert_eq!(args.num_hidden_layers(), 6);
    assert_eq!(args.layer_policy(0).unwrap().head_dim, 8);
    assert_eq!(args.layer_policy(1).unwrap().head_dim, 16);
    assert_eq!(
        args.layer_policy(3).unwrap().key_value,
        AttentionStateSource::Publish { value: AttentionValueSource::ReuseKey }
    );
    assert_eq!(args.layer_policy(4).unwrap().key_value, AttentionStateSource::Shared);
    assert_eq!(args.layer_policy(4).unwrap().intermediate_size, 128);
    assert_eq!(args.rope_theta_for(AttentionPolicy::Full), float(1_000_000.0));
    assert_ne!(args.architecture_fingerprint(&texts(&args)), Vec::new());
}

#[test]
fn prompt_cache_fingerprint_includes_effective_quantization() {
    let mut args = normalized(fixture()).unwrap();
    let dense = args.architecture_fingerprint(&texts(&args));
    args.weight_quantization = Some(WeightQuantization::Affine { group_size: 16, bits: 4 });
    assert_ne!(dense, args.architecture_fingerprint(&texts(&args)));
}

#[test]
fn rejects_schedule_shared_geometry_and_moe_drift() {
    let mut value = fixture();
    value.layer_types = vec![AttentionKind::FullAttention];
    assert!(normalized(value).is_err());

    let mut value = fixture();
    value.num_global_key_value_heads = Some(2);
    value.global_head_dim = Some(8);
    // Matching publishers and consumers remain valid after a global geometry change.
    assert!(normalized(value).is_ok());

    let mut value = fixture();
    value.enable_moe_block = true;
    value.num_experts = Some(4);
    value.top_k_experts = Some(5);
    value.moe_intermediate_size = Some(16);
    assert!(normalized(value).is_err());
}

#[test]
fn rejects_head_widths_without_a_rotary_pair() {
    let mut local = fixture();
    local.head_dim = 1;
    assert_eq!(
        message(normalized(local)),
        "Gemma 4 layer 0 head dimension must be at least 2"
    );

    let mut global = fixture();
    global.global_head_dim = Some(1);
    assert_eq!(
        message(normalized(global)),
        "Gemma 4 layer 1 head dimension must be at least 2"
    );
}

fn nothing() -> MetadataValue {
    MetadataValue {
        integer: None,
        as_i64: None,
        as_f32: None,
        as_bool: None,
        bool_array: None,
        f32_array: None,
        to_i64_vec: None,
        to_u32_vec: None,
        to_f32_vec: None,
    }
}

fn uint(value: u32) -> MetadataValue {
    MetadataValue {
        integer: Some(MetadataInteger::Unsigned(u64::from(value))),
        as_i64: Some(i64::from(value)),
        as_f32: Some(float(value as f32)),
        to_i64_vec: Some(vec![i64::from(value)]),
        to_u32_vec: Some(vec![value]),
        ..nothing()
    }
}

fn number(value: f32) -> MetadataValue {
    MetadataValue { as_f32: Some(float(value)), ..nothing() }
}

fn uints(values: Vec<u32>) -> MetadataValue {
    MetadataValue {
        to_i64_vec: Some(values.iter().map(|value| i64::from(*value)).collect()),
        to_u32_vec: Some(values),
        ..nothing()
    }
}

fn switches(values: Vec<bool>) -> MetadataValue {
    MetadataValue { bool_array: Some(values), ..nothing() }
}

fn gguf_metadata() -> StringMap<MetadataValue> {
    let entries = vec![
        ("gemma4.block_count", uint(4)),
        ("gemma4.embedding_length", uint(32)),
        ("gemma4.attention.head_count", uint(4)),
        ("gemma4.attention.key_length", uint(8)),
        ("gemma4.attention.key_length_swa", uint(8)),
        ("gemma4.attention.shared_kv_layers", uint(2)),
        ("gemma4.attention.sliding_window", uint(16)),
        ("gemma4.attention.layer_norm_rms_epsilon", number(1e-6)),
        ("gemma4.vocab_size", uint(64)),
        ("gemma4.context_length", uint(128)),
        ("gemma4.final_logit_softcapping", number(30.0)),
        ("gemma4.feed_forward_length", uints(vec![64])),
        ("gemma4.attention.head_count_kv", uints(vec![1, 2, 1, 2])),
        (
            "gemma4.attention.sliding_window_pattern",
            switches(vec![true, false, true, false]),
        ),
        ("tokenizer.ggml.padding_token_id", nothing()),
    ];
    let mut metadata = StringMap::new();
    for (key, value) in entries {
        metadata = metadata.with(key.to_owned(), value);
    }
    metadata
}

fn gguf_catalog() -> NameSet {
    NameSet::new()
        .with("output.weight".to_owned())
        .with("blk.1.attn_k.weight".to_owned())
        .with("blk.0.attn_k.weight".to_owned())
        .with("blk.0.attn_v.weight".to_owned())
}

fn from_gguf(metadata: &StringMap<MetadataValue>) -> Result<ModelArgs, ConfigError> {
    ModelArgs::from_gguf_metadata(&gguf_catalog(), metadata, &resolved())
}

#[test]
fn parses_portable_gguf_schedule_shared_kv_and_key_as_value() {
    let args = from_gguf(&gguf_metadata()).unwrap();
    assert_eq!(args.pad_token_id, 0);
    assert!(!args.tie_word_embeddings);
    assert_eq!(args.num_hidden_layers(), 4);
    assert!(matches!(
        args.layer_policy(1).unwrap().key_value,
        AttentionStateSource::Publish { value: AttentionValueSource::ReuseKey }
    ));
    assert_eq!(args.layer_policy(3).unwrap().key_value, AttentionStateSource::Shared);
}

#[test]
fn gguf_defaults_settle_rotary_bases_and_tables() {
    let args = from_gguf(&gguf_metadata()).unwrap();
    assert_eq!(args.model_type, "gemma4");
    assert_eq!(args.rope_theta_for(AttentionPolicy::Full), float(1_000_000.0));
    assert_eq!(
        args.rope_theta_for(AttentionPolicy::Sliding { window: 16 }),
        float(10_000.0)
    );
    assert_eq!(args.final_logit_softcapping, Some(float(30.0)));
    assert_eq!(args.vocab_size_per_layer_input, Some(64));
    assert_eq!(
        args.layer_policy(0).unwrap(),
        LayerPolicy {
            attention: AttentionPolicy::Sliding { window: 16 },
            head_dim: 8,
            num_key_value_heads: 1,
            key_value: AttentionStateSource::Publish { value: AttentionValueSource::Projected },
            intermediate_size: 64,
            feed_forward: FeedForwardPolicy::Dense,
        }
    );
}

#[test]
fn gguf_metadata_faults_are_reported_in_words() {
    let missing = StringMap::new();
    assert_eq!(
        message(from_gguf(&missing)),
        "Gemma 4 GGUF is missing \"gemma4.block_count\""
    );
    let wrong = gguf_metadata().with("gemma4.block_count".to_owned(), nothing());
    assert_eq!(
        message(from_gguf(&wrong)),
        "Gemma 4 GGUF \"gemma4.block_count\" must be an i32"
    );
    let none = gguf_metadata().with("gemma4.block_count".to_owned(), uint(0));
    assert_eq!(message(from_gguf(&none)), "Gemma 4 GGUF block_count must be positive");
    let short = gguf_metadata().with(
        "gemma4.attention.sliding_window_pattern".to_owned(),
        switches(vec![true]),
    );
    assert_eq!(
        message(from_gguf(&short)),
        "Gemma 4 GGUF sliding pattern has 1 entries for 4 layers"
    );
    let heads = gguf_metadata().with(
        "gemma4.attention.head_count_kv".to_owned(),
        uints(vec![1, 2, 3, 2]),
    );
    assert_eq!(
        message(from_gguf(&heads)),
        "Gemma 4 GGUF KV heads must be uniform within each attention policy"
    );
    let shared = gguf_metadata().with("gemma4.attention.shared_kv_layers".to_owned(), uint(5));
    assert_eq!(
        message(from_gguf(&shared)),
        "Gemma 4 GGUF shared-KV layer count is invalid"
    );
}

#[test]
fn gguf_numbers_without_a_json_form_fail_to_decode() {
    let epsilon = gguf_metadata().with(
        "gemma4.attention.layer_norm_rms_epsilon".to_owned(),
        number(f32::INFINITY),
    );
    assert!(matches!(from_gguf(&epsilon), Err(ConfigError::Json(_))));
    let cap = gguf_metadata().with("gemma4.final_logit_softcapping".to_owned(), number(f32::NAN));
    assert_eq!(from_gguf(&cap).unwrap().final_logit_softcapping, None);
}

#[test]
fn normalization_faults_are_reported_in_words() {
    let mut value = fixture();
    value.model_type = "gemma\n3".to_owned();
    assert_eq!(
        message(normalized(value)),
        "unsupported Gemma 4 model_type \"gemma\\n3\""
    );
    let mut value = fixture();
    value.num_hidden_layers = 0;
    assert_eq!(message(normalized(value)), "Gemma 4 num_hidden_layers must be positive");
    let mut value = fixture();
    value.vocab_size = -1;
    assert_eq!(message(normalized(value)), "Gemma 4 vocab_size must be positive");
    let mut value = fixture();
    value.rms_norm_eps = float(f32::NAN);
    assert_eq!(
        message(normalized(value)),
        "Gemma 4 epsilon, rotary base, and logit cap must be finite and positive"
    );
    let mut value = fixture();
    value.layer_types = vec![AttentionKind::FullAttention];
    assert_eq!(message(normalized(value)), "Gemma 4 layer_types has 1 entries for 6 layers");
    let mut value = fixture();
    value.sliding_window = None;
    assert_eq!(message(normalized(value)), "Gemma 4 sliding layer requires sliding_window");
    let mut value = fixture();
    value.sliding_window = Some(1 << 31);
    assert_eq!(
        message(normalized(value)),
        "Gemma 4 sliding_window must be positive and fit i32"
    );
    let mut value = fixture();
    value.num_kv_shared_layers = 7;
    assert_eq!(
        message(normalized(value)),
        "Gemma 4 shared-KV layer count exceeds decoder depth"
    );
    let mut value = fixture();
    value.num_kv_shared_layers = 6;
    assert_eq!(
        message(normalized(value)),
        "Gemma 4 shared-KV layer 0 has no earlier matching attention publisher"
    );
    let mut value = fixture();
    value.feed_forward_lengths = Some(vec![64]);
    assert_eq!(
        message(normalized(value)),
        "Gemma 4 feed-forward widths has 1 entries for 6 layers"
    );
    let mut value = fixture();
    value.feed_forward_lengths = Some(vec![64, 64, 0, 64, 64, 64]);
    assert_eq!(
        message(normalized(value)),
        "Gemma 4 layer 2 feed-forward width must be positive"
    );
    let mut value = fixture();
    value.num_experts = Some(2);
    assert_eq!(
        message(normalized(value)),
        "Gemma 4 dense config cannot declare sparse expert geometry"
    );
    let mut value = fixture();
    value.sliding_window = Some(0);
    assert!(matches!(normalized(value), Err(ConfigError::Invalid(_))));
    let checks = RotaryChecks {
        scaling: Err("unknown".to_owned()),
        parameters: vec![Ok(()), Ok(())],
    };
    assert_eq!(message(normalize(fixture(), &checks)), "unknown");
    let checks = RotaryChecks {
        scaling: Ok(()),
        parameters: vec![Ok(()), Err("unknown override".to_owned())],
    };
    assert_eq!(message(normalize(fixture(), &checks)), "unknown override");
    let undecodable = Err(serde_json::from_str::<u8>("{").unwrap_err());
    assert_eq!(message(ModelArgs::from_hf_json(undecodable, &resolved())), "json");
}

#[test]
fn text_decoders_have_the_identity_of_their_family() {
    for (declared, identity) in [
        ("gemma4", "gemma4"),
        ("gemma4_text", "gemma4"),
        ("gemma4_unified", "gemma4_unified"),
        ("gemma4_unified_text", "gemma4_unified"),
    ] {
        let mut value = fixture();
        value.model_type = declared.to_owned();
        let args = normalized(value).unwrap();
        assert_eq!(args.model_type, identity);
        assert_eq!(args.architecture_fingerprint(&texts(&args))[0].1, identity);
    }
}

#[test]
fn schedule_components_spell_out_every_policy() {
    let args = normalized(fixture()).unwrap();
    assert_eq!(args.layer_policy(0).unwrap().fingerprint_component(), "s32:h8:k2:lp:i64:d");
    assert_eq!(args.layer_policy(3).unwrap().fingerprint_component(), "f:h16:k1:pr:i64:d");
    assert_eq!(args.layer_policy(4).unwrap().fingerprint_component(), "s32:h8:k2:s:i128:d");
    let fields = args.architecture_fingerprint(&texts(&args));
    assert_eq!(fields.len(), 10);
    assert_eq!(fields[0], ("model_type".to_owned(), "gemma4_unified".to_owned()));
    assert_eq!(fields[2], ("num_hidden_layers".to_owned(), "6".to_owned()));
    assert!(fields[6].1.starts_with("Sliding { window: 32 }:461c4000:rope_theta=Float(10000.0),"));
    assert!(fields[6].1.contains("Full:49742400:rope_theta=Float(1000000.0)"));
}

#[test]
fn override_order_leaves_the_identity_unchanged() {
    let forward = base(5.0).with("factor".to_owned(), RopeValue::Bool(true));
    let backward = StringMap::new()
        .with("factor".to_owned(), RopeValue::Bool(true))
        .with("rope_theta".to_owned(), RopeValue::Float(float(5.0)));
    let mut left = fixture();
    left.rope_parameters =
        Some(StringMap::new().with("full_attention".to_owned(), forward));
    let mut right = fixture();
    right.rope_parameters =
        Some(StringMap::new().with("full_attention".to_owned(), backward));
    let left = normalized(left).unwrap();
    let right = normalized(right).unwrap();
    let mut left_texts = texts(&left);
    left_texts.full_rope = vec!["Float(5.0)".to_owned(), "Bool(true)".to_owned()];
    left_texts.sliding_rope = Vec::new();
    let mut right_texts = texts(&right);
    right_texts.full_rope = vec!["Bool(true)".to_owned(), "Float(5.0)".to_owned()];
    right_texts.sliding_rope = Vec::new();
    assert_eq!(
        left.architecture_fingerprint(&left_texts),
        right.architecture_fingerprint(&right_texts)
    );
}

#[test]
fn rotary_overrides_fall_back_to_the_default() {
    let mut value = fixture();
    value.rope_parameters = None;
    value.rope_scaling = Some(StringMap::new().with(
        "rope_type".to_owned(),
        RopeValue::Text { text: "linear".to_owned(), number: None },
    ));
    let args = normalized(value).unwrap();
    assert_eq!(args.rope_theta_for(AttentionPolicy::Full), float(10_000.0));
    let scaling = args.rope_scaling_for(AttentionPolicy::Full).unwrap();
    assert!(scaling.contains("rope_type"));
    assert_eq!(scaling.len(), 1);
    let args = normalized(fixture()).unwrap();
    let scaling = args.rope_scaling_for(AttentionPolicy::Sliding { window: 32 }).unwrap();
    assert!(matches!(scaling.get("rope_theta"), Some(RopeValue::Float(_))));
}

#[test]
fn spellings_of_one_weight_share_a_canonical_name() {
    let expected = "model.layers.0.mlp.up_proj.weight";
    assert_eq!(canonical_weight_name("language_model.model.layers.0.mlp.up_proj"), expected);
    assert_eq!(canonical_weight_name("model.language_model.layers.0.mlp.up_proj"), expected);
    assert_eq!(canonical_weight_name("model.layers.0.mlp.up_proj.weight"), expected);
    assert_eq!(canonical_weight_name("language_model.lm_head"), "lm_head.weight");
    assert_eq!(canonical_weight_name("vision_tower.a"), "model.vision_tower.a.weight");
    assert_eq!(canonical_weight_name("embed_audio.b.weight"), "model.embed_audio.b.weight");
}

#[test]
fn exact_overrides_precede_the_model_wide_encoding() {
    let mut args = normalized(fixture()).unwrap();
    let wide = WeightQuantization::Affine { group_size: 32, bits: 4 };
    args.weight_quantization = Some(wide);
    args.quantized_weights = Some(NameSet::new().with("model.a.weight".to_owned()));
    args.quantized_weight_configs = Some(
        StringMap::new().with("model.b.weight".to_owned(), WeightQuantization::MxFp4),
    );
    assert_eq!(args.linear_format_for("model.a.weight"), LinearFormat::Quantized(wide));
    assert_eq!(
        args.linear_format_for("language_model.model.b"),
        LinearFormat::Quantized(WeightQuantization::MxFp4)
    );
    assert_eq!(args.linear_format_for("model.c.weight"), LinearFormat::Dense);
    args.quantized_weights = None;
    assert_eq!(args.linear_format_for("model.c.weight"), LinearFormat::Quantized(wide));
}

#[test]
fn pipeline_stages_keep_consumers_with_their_publishers() {
    let args = normalized(fixture()).unwrap();
    let whole = args.pipeline_layer_ranges(1).unwrap();
    assert_eq!(whole, vec![0..6]);
    // Layers 2 and 3 publish for layers 4 and 5, so no boundary falls between them.
    assert_eq!(args.pipeline_layer_ranges(2).unwrap(), vec![0..2, 2..6]);
    assert_eq!(args.pipeline_layer_ranges(3).unwrap(), vec![0..1, 1..2, 2..6]);
    match args.pipeline_layer_ranges(4) {
        Err(ConfigError::Invalid(message)) => assert_eq!(
            message,
            "4 pipeline stages cannot be assigned to 3 dependency-safe Gemma 4 decoder units; reduce pipeline_parallel_size"
        ),
        _ => panic!("four stages were planned"),
    }
    match args.pipeline_layer_ranges(0) {
        Err(ConfigError::Invalid(message)) => assert_eq!(
            message,
            "Gemma 4 pipeline planning requires positive layer and stage counts"
        ),
        _ => panic!("no stages were planned"),
    }
}

#[test]
fn pipeline_stages_are_balanced() {
    let mut value = fixture();
    value.num_kv_shared_layers = 0;
    let args = normalized(value).unwrap();
    assert_eq!(args.pipeline_layer_ranges(3).unwrap(), vec![0..2, 2..4, 4..6]);
    let stages = args.pipeline_layer_ranges(4).unwrap();
    assert_eq!(stages.len(), 4);
    assert_eq!(stages.iter().map(|stage| stage.len()).max(), Some(2));
}

#[test]
fn consumers_without_a_publisher_cannot_be_staged() {
    let mut args = normalized(fixture()).unwrap();
    args.layer_schedule[0].key_value = AttentionStateSource::Shared;
    match args.pipeline_layer_ranges(1) {
        Err(ConfigError::Invalid(message)) => assert_eq!(
            message,
            "Gemma 4 layer 0 consumes Sliding { window: 32 } shared KV before any publisher"
        ),
        _ => panic!("an orphan was planned"),
    }
}
