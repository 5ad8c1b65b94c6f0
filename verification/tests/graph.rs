use eredu_architectures::config::ModelArgs;
use eredu_architectures::float::Float32;
use eredu_architectures::graph::{
    component_graph, state_layout, ComponentGraph, ComponentKind, ComponentOptions,
    ComponentResidencyClass, LayerCachePolicy, StateTensorDimension,
};
use eredu_architectures::normalize::{normalize, AttentionKind, ModelArgsSource, RotaryChecks};
use eredu_architectures::schedule::AttentionPolicy;

fn float(value: f32) -> Float32 {
    Float32 { bits: value.to_bits() }
}

fn args() -> ModelArgs {
    let full = AttentionKind::FullAttention;
    let source = ModelArgsSource {
        model_type: "gemma4".to_owned(),
        hidden_size: 16,
        num_hidden_layers: 4,
        intermediate_size: 32,
        use_double_wide_mlp: false,
        feed_forward_lengths: None,
        num_attention_heads: 2,
        rms_norm_eps: float(0.000001),
        vocab_size: 64,
        pad_token_id: 0,
        num_key_value_heads: 1,
        num_global_key_value_heads: None,
        max_position_embeddings: 128,
        rope_theta: float(10000.0),
        head_dim: 8,
        global_head_dim: None,
        tie_word_embeddings: true,
        attention_bias: false,
        attention_k_eq_v: true,
        hidden_size_per_layer_input: 0,
        vocab_size_per_layer_input: None,
        num_kv_shared_layers: 1,
        layer_types: vec![AttentionKind::SlidingAttention, full, full, full],
        sliding_window: Some(16),
        final_logit_softcapping: None,
        enable_moe_block: false,
        num_experts: None,
        top_k_experts: None,
        moe_intermediate_size: None,
        rope_scaling: None,
        rope_parameters: None,
        weight_quantization: None,
        quantized_weights: None,
        quantized_weight_configs: None,
    };
    normalize(source, &RotaryChecks { scaling: Ok(()), parameters: Vec::new() }).unwrap()
}

fn residency_count(graph: &ComponentGraph, class: ComponentResidencyClass) -> usize {
    graph.units.iter().filter(|unit| unit.residency == class).count()
}

#[test]
fn component_graph_accounts_media_decoder_and_draft_units_separately() {
    let graph = component_graph(
        &args(),
        ComponentOptions { vision: true, audio: true, prediction: true, assistant: true },
    );
    assert_eq!(residency_count(&graph, ComponentResidencyClass::Media), 2);
    assert_eq!(residency_count(&graph, ComponentResidencyClass::Decoder), 4);
    assert_eq!(residency_count(&graph, ComponentResidencyClass::Draft), 2);
    assert_eq!(graph.outputs.len(), 3);
}

#[test]
fn state_layout_stores_values_even_for_reused_key_projections() {
    let layout = state_layout(&args());
    assert!(matches!(
        layout.layers[0],
        LayerCachePolicy::KeyValueWithFixedState { .. }
    ));
    // Layer 1 declares `attention_k_eq_v`; its values are a separately normalized, unrotated
    // tensor, so the cache must retain them.
    assert!(matches!(layout.layers[1], LayerCachePolicy::KeyValue { .. }));
    assert!(matches!(layout.layers[3], LayerCachePolicy::NoState));
}

#[test]
fn text_only_graphs_chain_embedding_decoder_and_output() {
    let graph = component_graph(&args(), ComponentOptions::default());
    let ids: Vec<&str> = graph.units.iter().map(|unit| unit.id.as_str()).collect();
    assert_eq!(
        ids,
        [
            "text.embedding",
            "assembly",
            "decoder.0",
            "decoder.1",
            "decoder.2",
            "decoder.3",
            "output"
        ]
    );
    assert_eq!(graph.units[2].dependencies, ["assembly"]);
    assert_eq!(graph.units[6].dependencies, ["decoder.3"]);
    assert_eq!(graph.units[6].kind, ComponentKind::OutputProjection);
    assert_eq!(graph.outputs, ["output"]);
}

#[test]
fn components_name_only_earlier_components() {
    let graph = component_graph(
        &args(),
        ComponentOptions { vision: true, audio: true, prediction: true, assistant: true },
    );
    for (at, unit) in graph.units.iter().enumerate() {
        for dependency in &unit.dependencies {
            assert!(graph.units[..at].iter().any(|earlier| earlier.id == *dependency));
        }
        assert!(graph.units[..at].iter().all(|earlier| earlier.id != unit.id));
    }
}

#[test]
fn state_geometry_follows_the_schedule() {
    let layout = state_layout(&args());
    assert_eq!(
        layout.prefix.dimensions,
        vec![
            StateTensorDimension::Batch,
            StateTensorDimension::PrefixTokens,
            StateTensorDimension::Fixed(16)
        ]
    );
    assert!(!layout.prefix.required);
    assert_eq!(
        layout.layers[0],
        LayerCachePolicy::KeyValueWithFixedState {
            attention: AttentionPolicy::Sliding { window: 16 },
            kv_heads: 1,
            head_dim: 8
        }
    );
    assert_eq!(
        layout.layers[2],
        LayerCachePolicy::KeyValue { attention: AttentionPolicy::Full, kv_heads: 1, head_dim: 8 }
    );
}
