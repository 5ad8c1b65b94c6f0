use eredu_architectures::artifact::{ArtifactRole, CompositeArtifactError, Gemma4ArtifactConfig};
use eredu_architectures::config::ModelArgs;
use eredu_architectures::experts::{
    expert_recipes, expert_residency_catalog, unit_recipes, BankRange, ExpertResidencyDistribution,
};
use eredu_architectures::family::{
    load_time_quantization, with_checkpoint_formats, AudioConfig, FamilyConfig, VisionConfig,
};
use eredu_architectures::float::Float32;
use eredu_architectures::formats::{canonical_weight_name, LinearFormat, WeightQuantization};
use eredu_architectures::gguf_plan::gguf_plan;
use eredu_architectures::names::{NameSet, StringMap};
use eredu_architectures::normalize::{normalize, AttentionKind, ModelArgsSource, RotaryChecks};
use eredu_architectures::plan::{TensorOperation, TensorRequirement};
use eredu_architectures::projector::{mmproj_gguf_plan, projector_physical_name};
use eredu_architectures::safetensors::{
    safe, safe_alias, MatrixFormat, MatrixRequest, SafetensorsCheckpointPlan,
    SafetensorsTensorConstraint, TensorRole,
};
use eredu_architectures::safetensors_plan::{
    add_mlx_vlm_aliases, mlx_vlm_physical_name, safetensors_draft, safetensors_plan, Expansion,
};
use eredu_architectures::schedule::{AttentionStateSource, AttentionValueSource};
use eredu_architectures::weight_names::translate_gguf_weight_name;
use std::collections::BTreeSet;

fn float(value: f32) -> Float32 {
    Float32 { bits: value.to_bits() }
}

fn source(hidden_size: i32) -> ModelArgsSource {
    ModelArgsSource {
        model_type: "gemma4".to_owned(),
        hidden_size,
        num_hidden_layers: 1,
        intermediate_size: 32,
        use_double_wide_mlp: false,
        feed_forward_lengths: None,
        num_attention_heads: 2,
        rms_norm_eps: float(0.000001),
        vocab_size: 64,
        pad_token_id: 0,
        num_key_value_heads: 1,
        num_global_key_value_heads: None,
        max_position_embeddings: 128,
        rope_theta: float(10000.0),
        head_dim: 8,
        global_head_dim: None,
        tie_word_embeddings: true,
        attention_bias: false,
        attention_k_eq_v: false,
        hidden_size_per_layer_input: 0,
        vocab_size_per_layer_input: None,
        num_kv_shared_layers: 0,
        layer_types: vec![AttentionKind::FullAttention],
        sliding_window: None,
        final_logit_softcapping: None,
        enable_moe_block: true,
        num_experts: Some(4),
        top_k_experts: Some(2),
        moe_intermediate_size: Some(8),
        rope_scaling: None,
        rope_parameters: None,
        weight_quantization: None,
        quantized_weights: None,
        quantized_weight_configs: None,
    }
}

fn normalized(source: ModelArgsSource) -> ModelArgs {
    normalize(source, &RotaryChecks { scaling: Ok(()), parameters: Vec::new() }).unwrap()
}

fn sparse_args() -> ModelArgs {
    normalized(source(16))
}

fn sparse_family() -> FamilyConfig {
    FamilyConfig {
        text: normalized(ModelArgsSource {
            intermediate_size: 64,
            num_attention_heads: 4,
            num_key_value_heads: 2,
            moe_intermediate_size: Some(32),
            tie_word_embeddings: false,
            ..source(32)
        }),
        vision: Some(VisionConfig {
            hidden_size: 16,
            intermediate_size: 32,
            num_hidden_layers: 1,
            num_attention_heads: 2,
            num_key_value_heads: 1,
            head_dim: 8,
            patch_size: 4,
            position_embedding_size: 16,
            standardize: false,
            weight_quantization: None,
            quantized_weights: None,
            quantized_weight_configs: None,
        }),
        audio: Some(AudioConfig {
            hidden_size: 16,
            num_hidden_layers: 1,
            head_dim: 8,
            subsampling_conv_channels: vec![4, 8],
            output_proj_dims: 8,
            conv_kernel_size: 3,
            weight_quantization: None,
            quantized_weights: None,
            quantized_weight_configs: None,
        }),
    }
}

fn config() -> Gemma4ArtifactConfig {
    Gemma4ArtifactConfig {
        unified: true,
        hidden_size: 32,
        image_token_id: Some(100),
        video_token_id: None,
        audio_token_id: Some(101),
        projector: true,
        assistant: true,
    }
}

/// A dense matrix is stored as one floating-point tensor.
fn dense(request: &MatrixRequest) -> Expansion {
    Ok(vec![match &request.alias {
        Some(alias) => safe_alias(request.key.clone(), alias.clone(), request.shape.clone()),
        None => safe(request.key.clone(), request.shape.clone()),
    }])
}

fn dense_expansions(family: &FamilyConfig) -> Vec<Expansion> {
    safetensors_draft(family).requests.iter().map(dense).collect()
}

fn dense_plan(family: &FamilyConfig) -> SafetensorsCheckpointPlan {
    safetensors_plan(family, &dense_expansions(family)).unwrap()
}

fn every_tensor(plan: &SafetensorsCheckpointPlan) -> Vec<&SafetensorsTensorConstraint> {
    plan.common_tensors
        .iter()
        .chain(plan.layout_groups.iter().flat_map(|group| {
            group.variants.iter().flat_map(|variant| variant.tensors.iter())
        }))
        .collect()
}

#[test]
fn load_time_quantization_replaces_all_family_checkpoint_formats() {
    let mut source = sparse_family();
    let stored = WeightQuantization::Affine { group_size: 32, bits: 8 };
    source.text.quantized_weights = Some(NameSet::new().with("text.weight".to_owned()));
    source.text.quantized_weight_configs =
        Some(StringMap::new().with("text.weight".to_owned(), stored));
    let vision = source.vision.as_mut().unwrap();
    vision.quantized_weights = Some(NameSet::new().with("vision.weight".to_owned()));
    vision.quantized_weight_configs =
        Some(StringMap::new().with("vision.weight".to_owned(), stored));
    let audio = source.audio.as_mut().unwrap();
    audio.quantized_weights = Some(NameSet::new().with("audio.weight".to_owned()));
    audio.quantized_weight_configs =
        Some(StringMap::new().with("audio.weight".to_owned(), stored));

    let requested = WeightQuantization::Affine { group_size: 32, bits: 4 };
    let target = load_time_quantization(source.clone(), requested, Ok(())).unwrap();

    assert_eq!(target.text.weight_quantization, Some(requested));
    assert!(target.text.quantized_weights.is_none());
    assert!(target.text.quantized_weight_configs.is_none());
    let vision = target.vision.unwrap();
    assert_eq!(vision.weight_quantization, Some(requested));
    assert!(vision.quantized_weights.is_none());
    assert!(vision.quantized_weight_configs.is_none());
    let audio = target.audio.unwrap();
    assert_eq!(audio.weight_quantization, Some(requested));
    assert!(audio.quantized_weights.is_none());
    assert!(audio.quantized_weight_configs.is_none());
    assert!(source.text.quantized_weight_configs.is_some());
    assert!(source.vision.as_ref().unwrap().quantized_weight_configs.is_some());
    assert!(source.audio.as_ref().unwrap().quantized_weight_configs.is_some());
}

#[test]
fn refused_encodings_are_not_applied() {
    let quantization = WeightQuantization::Affine { group_size: 31, bits: 4 };
    let refused = Err("unsupported group size".to_owned());
    assert_eq!(
        load_time_quantization(sparse_family(), quantization, refused).unwrap_err(),
        "unsupported group size"
    );
}

#[test]
fn load_time_quantization_covers_every_decoder_weight() {
    let requested = WeightQuantization::Affine { group_size: 32, bits: 4 };
    let target = load_time_quantization(sparse_family(), requested, Ok(())).unwrap();
    for name in ["model.layers.0.mlp.up_proj.weight", "lm_head.weight", "anything"] {
        assert_eq!(target.text.linear_format_for(name), LinearFormat::Quantized(requested));
    }
}

#[test]
fn selected_formats_are_partitioned_across_every_family_component() {
    let format = WeightQuantization::MxFp4;
    let text = "model.language_model.layers.0.self_attn.q_proj.weight";
    let vision = "model.vision_tower.encoder.layers.0.self_attn.q_proj.linear.weight";
    let audio = "model.audio_tower.layers.0.self_attn.q_proj.linear.weight";
    let vision_projection = "model.embed_vision.embedding_projection.weight";
    let formats = StringMap::new()
        .with(text.to_owned(), format)
        .with(vision.to_owned(), format)
        .with(audio.to_owned(), format)
        .with(vision_projection.to_owned(), format);
    let target = with_checkpoint_formats(sparse_family(), formats);
    assert_eq!(target.text.linear_format_for(text), LinearFormat::from(format));
    let held = target.vision.as_ref().unwrap().quantized_weight_configs.as_ref().unwrap();
    assert_eq!(held.get(vision), Some(&format));
    assert_eq!(held.get(vision_projection), Some(&format));
    assert_eq!(held.len(), 2);
    let held = target.audio.as_ref().unwrap().quantized_weight_configs.as_ref().unwrap();
    assert_eq!(held.get(audio), Some(&format));
    assert_eq!(held.len(), 1);
    assert_eq!(target.text.linear_format_for(vision_projection), LinearFormat::from(format));
    assert_eq!(target.text.linear_format_for(vision), LinearFormat::Dense);
}

#[test]
fn components_without_formats_hold_none() {
    let formats = StringMap::new().with(
        "model.vision_tower.a.weight".to_owned(),
        WeightQuantization::MxFp4,
    );
    let target = with_checkpoint_formats(sparse_family(), formats);
    assert!(target.text.quantized_weight_configs.is_none());
    assert!(target.vision.unwrap().quantized_weight_configs.is_some());
    assert!(target.audio.unwrap().quantized_weight_configs.is_none());
}

#[test]
fn artifact_schema_freezes_optional_projector_and_required_assistant() {
    let config = config();
    let schema = config.artifact_schema().unwrap();
    assert_eq!(schema.primary.architecture, "gemma4_unified");
    assert_eq!(schema.siblings.len(), 2);
    assert!(!schema.siblings[0].required);
    assert!(schema.siblings[1].required);
    let catalog = config.parameter_catalog();
    let owner = catalog
        .components
        .iter()
        .find(|(_, parameters)| {
            parameters.iter().any(|parameter| parameter == "masked_embedding.token_ordering")
        })
        .map(|(component, _)| component.as_str());
    assert_eq!(owner, Some("assistant"));
}

#[test]
fn artifacts_without_a_width_are_refused() {
    let mut config = config();
    config.hidden_size = 0;
    assert_eq!(
        config.artifact_schema().unwrap_err(),
        CompositeArtifactError::ProjectorWidthMismatch { decoder: 0, projector: 0 }
    );
}

#[test]
fn bare_artifacts_have_the_decoder_alone() {
    let config = Gemma4ArtifactConfig {
        unified: false,
        projector: false,
        assistant: false,
        ..config()
    };
    let schema = config.artifact_schema().unwrap();
    assert_eq!(schema.primary.architecture, "gemma4");
    assert_eq!(schema.primary.component, "decoder");
    assert_eq!(schema.primary.role, ArtifactRole::Decoder);
    assert!(schema.siblings.is_empty());
    let catalog = config.parameter_catalog();
    assert_eq!(catalog.components.len(), 1);
    assert_eq!(
        catalog.components[0].1,
        ["model.embed_tokens.weight", "model.norm.weight", "lm_head.weight"]
    );
}

#[test]
fn sibling_projector_must_match_identity_width_and_modality_tokens() {
    let config = config();
    let tokens = BTreeSet::from([100, 101]);
    let matching =
        config.projector_compatibility("gemma4_unified".to_owned(), 32, tokens.clone());
    assert_eq!(matching.decoder_architecture, matching.projector_architecture);
    assert_eq!(matching.decoder_hidden_width, matching.projector_output_width);
    assert_eq!(matching.decoder_modality_tokens, matching.projector_modality_tokens);
    let foreign = config.projector_compatibility("gemma4".to_owned(), 32, tokens.clone());
    assert_ne!(foreign.decoder_architecture, foreign.projector_architecture);
    let narrow = config.projector_compatibility("gemma4_unified".to_owned(), 16, tokens);
    assert_ne!(narrow.decoder_hidden_width, narrow.projector_output_width);
}

#[test]
fn separate_expert_bank_derives_exact_fused_neutral_targets() {
    let prefix = "model.language_model.layers.0.experts.switch_glu";
    let present = NameSet::new()
        .with(format!("{prefix}.gate_proj.weight"))
        .with(format!("{prefix}.up_proj.weight"))
        .with(format!("{prefix}.down_proj.weight"));
    let names = expert_recipes(&present, &sparse_args(), 0).unwrap();
    assert!(present.contains(&names.separate_gate));
    assert!(present.contains(&names.separate_up));
    assert!(present.contains(&names.separate_down));
    assert!(!present.contains(&names.packed_gate_up));
    assert_eq!(names.target_gate_up, format!("{prefix}.gate_up_proj"));
    assert_eq!(names.target_down, format!("{prefix}.down_proj"));
    assert_eq!(names.separate_gate, format!("{prefix}.gate_proj.weight"));
    assert!(names.independent.is_empty());
}

#[test]
fn expert_banks_are_asked_of_sparse_layers_alone() {
    let present = NameSet::new();
    assert_eq!(
        expert_recipes(&present, &sparse_args(), 1).unwrap_err(),
        "Gemma 4 expert recipe layer 1 is out of range"
    );
    let dense = normalized(ModelArgsSource {
        enable_moe_block: false,
        num_experts: None,
        top_k_experts: None,
        moe_intermediate_size: None,
        ..source(16)
    });
    assert_eq!(
        expert_recipes(&present, &dense, 0).unwrap_err(),
        "Gemma 4 layer 0 has no routed experts"
    );
    assert_eq!(
        expert_residency_catalog(&dense).unwrap_err(),
        "Gemma 4 expert residency requires an expert count"
    );
}

#[test]
fn residency_catalog_owns_sparse_schedule_identity_and_bindings() {
    let units = expert_residency_catalog(&sparse_args()).unwrap();
    assert_eq!(units.len(), 4);
    let first = &units[0];
    assert_eq!((first.namespace, first.layer, first.expert), (0, 0, 0));
    assert_eq!(first.distribution, ExpertResidencyDistribution::ExpertParallel);
    assert_eq!(first.owner_group, "text_decoder");
    assert_eq!(first.unit_path, "model.language_model.layers.0");
    let bindings: Vec<(&str, &str)> = first
        .parameters
        .iter()
        .map(|parameter| (parameter.binding.as_str(), parameter.target.as_str()))
        .collect();
    assert_eq!(
        bindings,
        [
            (
                "gate_up_proj",
                "model.language_model.layers.0.experts.switch_glu.gate_up_proj"
            ),
            (
                "down_proj",
                "model.language_model.layers.0.experts.switch_glu.down_proj"
            ),
        ]
    );
    assert_eq!(first.parameters[0].scales, "gate_up_proj_scales");
    assert_eq!(first.parameters[1].biases, "down_proj_biases");
    assert_eq!((units[3].namespace, units[3].layer, units[3].expert), (0, 0, 3));
    for parameter in &units[3].parameters {
        assert_eq!(parameter.selection, BankRange { axis: 0, start: 3, end: 4 });
    }
}

#[test]
fn mlx_vlm_physical_names_are_admitted_as_aliases() {
    assert_eq!(
        mlx_vlm_physical_name("model.language_model.layers.3.mlp.down_proj.scales").as_deref(),
        Some("language_model.model.layers.3.mlp.down_proj.scales")
    );
    assert_eq!(
        mlx_vlm_physical_name("model.audio_tower.layers.0.lconv1d.linear_end.input_max").as_deref(),
        Some("audio_tower.layers.0.lconv1d.linear_end.input_max")
    );
    assert_eq!(mlx_vlm_physical_name("model.layers.0.mlp.down_proj.weight"), None);
    assert_eq!(mlx_vlm_physical_name("masked_embedding.centroids.weight"), None);
    let family = sparse_family();
    let safe = dense_plan(&family);
    let mut seen_text = false;
    let mut seen_media = false;
    for tensor in every_tensor(&safe) {
        if tensor.key.starts_with("model.language_model.") {
            let physical = mlx_vlm_physical_name(&tensor.key).unwrap();
            assert!(tensor.aliases.contains(&physical), "{} lacks {physical}", tensor.key);
            seen_text = true;
        }
        if tensor.key.starts_with("model.vision_tower.")
            || tensor.key.starts_with("model.audio_tower.")
        {
            let physical = mlx_vlm_physical_name(&tensor.key).unwrap();
            assert!(tensor.aliases.contains(&physical), "{} lacks {physical}", tensor.key);
            seen_media = true;
        }
    }
    assert!(seen_text && seen_media);
}

#[test]
fn aliases_are_added_once() {
    let mut tensor = safe_alias(
        "model.language_model.norm.weight".to_owned(),
        "model.norm.weight".to_owned(),
        vec![16],
    );
    add_mlx_vlm_aliases(&mut tensor);
    assert_eq!(tensor.aliases, ["model.norm.weight", "language_model.model.norm.weight"]);
    add_mlx_vlm_aliases(&mut tensor);
    assert_eq!(tensor.aliases, ["model.norm.weight", "language_model.model.norm.weight"]);
}

#[test]
fn every_name_of_a_cataloged_tensor_is_admitted_in_mlx_conversions() {
    let safe = dense_plan(&sparse_family());
    for tensor in every_tensor(&safe) {
        for name in tensor.aliases.iter().chain([&tensor.key]) {
            if let Some(physical) = mlx_vlm_physical_name(name) {
                assert!(tensor.aliases.contains(&physical), "{name} lacks {physical}");
            }
        }
    }
    let mut tensor = safe_alias(
        "model.layers.0.norm.weight".to_owned(),
        "model.language_model.layers.0.norm.weight".to_owned(),
        vec![16],
    );
    add_mlx_vlm_aliases(&mut tensor);
    assert_eq!(
        tensor.aliases,
        [
            "model.language_model.layers.0.norm.weight",
            "language_model.model.layers.0.norm.weight",
        ]
    );
}

#[test]
fn every_cataloged_gguf_name_has_an_identity_of_its_own() {
    let mut sparse = source(16);
    sparse.hidden_size_per_layer_input = 8;
    sparse.tie_word_embeddings = false;
    let plan = gguf_plan(&normalized(sparse)).unwrap();
    let mut keys: Vec<&str> =
        plan.common_tensors.iter().map(|tensor| tensor.key.as_str()).collect();
    for group in &plan.layout_groups {
        for variant in &group.variants {
            keys.extend(variant.tensors.iter().map(|tensor| tensor.key.as_str()));
        }
    }
    let mut identities = BTreeSet::new();
    for key in &keys {
        let identity = translate_gguf_weight_name(key);
        assert_ne!(&identity, key);
        if key.starts_with("blk.0.") {
            assert!(identity.starts_with("model.layers.0."), "{key} became {identity}");
        } else {
            assert!(
                identity.starts_with("model.") || identity.starts_with("lm_head."),
                "{key} became {identity}"
            );
        }
        assert!(identities.insert(identity), "{key} shares its identity");
    }
    assert_eq!(identities.len(), keys.len());
}

#[test]
fn strict_plans_cover_media_shared_policy_and_expert_alternatives() {
    let family = sparse_family();
    let safe = dense_plan(&family);
    assert!(safe.catalog_policy.strict);
    assert_eq!(safe.layout_groups.len(), 1);
    assert_eq!(safe.layout_groups[0].variants.len(), 2);
    assert!(safe
        .common_tensors
        .iter()
        .any(|tensor| tensor.key == "model.vision_tower.patch_embedder.input_proj.weight"));
    assert!(safe.common_tensors.iter().any(|tensor| {
        tensor.key == "model.audio_tower.subsample_conv_projection.layer0.conv.weight"
    }));
    let gguf = gguf_plan(&family.text).unwrap();
    assert!(gguf.catalog_policy.strict);
    assert_eq!(gguf.layout_groups.len(), 1);
    assert_eq!(
        translate_gguf_weight_name("blk.0.ffn_gate_up_exps.weight"),
        "model.layers.0.experts.switch_glu.gate_up_proj.weight"
    );
}

#[test]
fn unit_recipes_use_the_composite_architecture_ordinal() {
    let family = sparse_family();
    let root = "model.language_model.layers.0.experts.switch_glu";
    let present = NameSet::new()
        .with(format!("{root}.gate_up_proj"))
        .with(format!("{root}.down_proj"));
    assert!(unit_recipes(&present, &family, 0).unwrap().is_none());
    assert!(unit_recipes(&present, &family, 1).unwrap().is_none());
    let decoder = unit_recipes(&present, &family, 2).unwrap().unwrap();
    assert_eq!(decoder.target_gate_up, format!("{root}.gate_up_proj"));
    assert_eq!(decoder.target_down, format!("{root}.down_proj"));
    assert_eq!(decoder.packed_gate_up, format!("{root}.gate_up_proj"));
    assert!(unit_recipes(&present, &family, 3).is_err());
    assert_eq!(
        unit_recipes(&present, &family, 3).unwrap_err(),
        "Gemma 4 execution ordinal 3 is outside its architecture layout"
    );
}

#[test]
fn negative_tower_depths_are_refused() {
    let present = NameSet::new();
    let mut family = sparse_family();
    family.vision.as_mut().unwrap().num_hidden_layers = -1;
    assert_eq!(
        unit_recipes(&present, &family, 0).unwrap_err(),
        "invalid Gemma 4 vision layer count"
    );
    let mut family = sparse_family();
    family.audio.as_mut().unwrap().num_hidden_layers = -1;
    assert_eq!(
        unit_recipes(&present, &family, 0).unwrap_err(),
        "invalid Gemma 4 audio layer count"
    );
}

#[test]
fn gguf_catalogs_follow_state_ownership() {
    let mut args = normalized(ModelArgsSource {
        num_hidden_layers: 2,
        num_kv_shared_layers: 1,
        attention_k_eq_v: true,
        layer_types: Vec::new(),
        ..source(16)
    });
    assert_eq!(
        args.layer_schedule[0].key_value,
        AttentionStateSource::Publish { value: AttentionValueSource::ReuseKey }
    );
    let plan = gguf_plan(&args).unwrap();
    let has = |key: &str| plan.common_tensors.iter().any(|tensor| tensor.key == key);
    assert!(has("blk.0.attn_k.weight"));
    assert!(!has("blk.0.attn_v.weight"));
    assert!(!has("blk.1.attn_k.weight"));
    assert_eq!(
        plan.catalog_policy.allowed_prefixes,
        ["rope_freqs.", "blk.1.attn_k.", "blk.1.attn_v.", "blk.1.attn_k_norm."]
    );
    assert_eq!(plan.layout_groups.len(), 2);
    assert_eq!(plan.layout_groups[1].id, "blk.1 expert gate/up storage");
    assert_eq!(
        plan.layout_groups[1].variants[1].discriminator_keys,
        ["blk.1.ffn_gate_up_exps.weight"]
    );
    assert_eq!(plan.layout_groups[1].variants[1].tensors[0].shape, [4, 16, 16]);
    let query = plan
        .common_tensors
        .iter()
        .find(|tensor| tensor.key == "blk.0.attn_q.weight")
        .unwrap();
    assert_eq!(query.shape, [16, 16]);
    assert_eq!(query.operation, TensorOperation::Matrix);
    args.hidden_size = 0;
    assert_eq!(
        gguf_plan(&args).unwrap_err(),
        "Gemma 4 hidden size must be positive, got 0"
    );
}

#[test]
fn per_layer_embeddings_need_a_vocabulary() {
    let mut args = sparse_args();
    args.hidden_size_per_layer_input = 4;
    args.vocab_size_per_layer_input = Some(-3);
    assert_eq!(
        gguf_plan(&args).unwrap_err(),
        "Gemma 4 per-layer input vocabulary size must be positive, got -3"
    );
    args.vocab_size_per_layer_input = None;
    let plan = gguf_plan(&args).unwrap();
    let table = plan
        .common_tensors
        .iter()
        .find(|tensor| tensor.key == "per_layer_token_embd.weight")
        .unwrap();
    assert_eq!(table.shape, [64, 4]);
}

#[test]
fn released_gguf_names_translate_to_neutral_ones() {
    for (name, expected) in [
        ("token_embd.weight", "model.embed_tokens.weight"),
        ("output.weight", "lm_head.weight"),
        ("output_norm.weight", "model.norm.weight"),
        ("blk.12.attn_k_norm.weight", "model.layers.12.self_attn.k_norm.weight"),
        ("blk.3.layer_output_scale.weight", "model.layers.3.layer_scalar.weight"),
        ("blk.3.unknown.weight", "blk.3.unknown.weight"),
        ("blk.3", "blk.3"),
        ("rope_freqs.weight", "rope_freqs.weight"),
    ] {
        assert_eq!(translate_gguf_weight_name(name), expected);
    }
}

#[test]
fn projector_catalogs_hold_the_media_tensors() {
    let family = sparse_family();
    let expansions = dense_expansions(&family);
    let plan = mmproj_gguf_plan(&family, &expansions).unwrap();
    assert_eq!(plan.name, "Gemma 4 sibling projector GGUF");
    assert!(plan.catalog_policy.strict);
    assert!(plan.layout_groups.is_empty());
    assert!(plan.common_tensors.iter().all(|tensor| {
        ["vision_tower.", "embed_vision.", "audio_tower.", "embed_audio."]
            .iter()
            .any(|prefix| tensor.key.starts_with(prefix))
    }));
    let bias = plan
        .common_tensors
        .iter()
        .find(|tensor| tensor.key == "audio_tower.output_proj.bias")
        .unwrap();
    assert_eq!(bias.requirement, TensorRequirement::Optional);
    assert_eq!(bias.shape, [8]);
    assert_eq!(
        projector_physical_name("model.embed_vision").as_deref(),
        Some("embed_vision")
    );
    assert_eq!(projector_physical_name("model.embed_visions"), None);
}

#[test]
fn projector_catalogs_refuse_companions_and_text_only_families() {
    let family = sparse_family();
    let mut expansions = dense_expansions(&family);
    let requests = safetensors_draft(&family).requests;
    let at = requests
        .iter()
        .position(|request| request.key.starts_with("model.vision_tower."))
        .unwrap();
    let mut scales = safe("model.vision_tower.scales".to_owned(), vec![1]);
    scales.role = TensorRole::Companion;
    expansions[at] = Ok(vec![scales]);
    assert_eq!(
        mmproj_gguf_plan(&family, &expansions).unwrap_err(),
        "Gemma 4 projector GGUF does not admit companion tensor \"model.vision_tower.scales\""
    );
    let text = FamilyConfig { vision: None, audio: None, ..sparse_family() };
    assert_eq!(
        mmproj_gguf_plan(&text, &dense_expansions(&text)).unwrap_err(),
        "Gemma 4 projector plan has no enabled media component"
    );
}

#[test]
fn text_only_catalogs_admit_leftover_projections() {
    let text = FamilyConfig { vision: None, audio: None, ..sparse_family() };
    let plan = dense_plan(&text);
    assert_eq!(
        plan.catalog_policy.allowed_prefixes,
        [
            "multi_modal_projector.",
            "model.multi_modal_projector.",
            "model.vision_embedder.",
            "vision_embedder.",
            "model.embed_vision.",
            "embed_vision.",
            "model.embed_audio.",
            "embed_audio."
        ]
    );
    assert_eq!(dense_plan(&sparse_family()).catalog_policy.allowed_prefixes.len(), 4);
}

#[test]
fn requested_matrices_carry_the_format_that_decides_their_storage() {
    let mut family = sparse_family();
    family.text.weight_quantization = Some(WeightQuantization::MxFp4);
    let draft = safetensors_draft(&family);
    assert_eq!(draft.failure, None);
    let table = &draft.requests[0];
    assert_eq!(table.key, "model.language_model.embed_tokens.weight");
    assert_eq!(table.alias.as_deref(), Some("model.embed_tokens.weight"));
    assert_eq!(table.shape, [64, 32]);
    assert_eq!(
        table.format,
        MatrixFormat::Settled(LinearFormat::Quantized(WeightQuantization::MxFp4))
    );
    let patches = draft
        .requests
        .iter()
        .find(|request| request.key == "model.vision_tower.patch_embedder.input_proj.weight")
        .unwrap();
    assert_eq!(patches.format, MatrixFormat::Vision { input: 48 });
    let input = draft
        .requests
        .iter()
        .find(|request| request.key.ends_with("input_proj_linear.weight"))
        .unwrap();
    assert_eq!(input.format, MatrixFormat::Audio { input: 256 });
}

#[test]
fn refused_matrices_precede_geometry_faults() {
    let mut family = sparse_family();
    family.audio.as_mut().unwrap().subsampling_conv_channels = vec![4];
    let expansions = dense_expansions(&family);
    assert_eq!(
        safetensors_plan(&family, &expansions).unwrap_err(),
        "Gemma 4 audio requires two subsampling channels"
    );
    let mut expansions = expansions;
    expansions[1] = Err("refused format".to_owned());
    assert_eq!(safetensors_plan(&family, &expansions).unwrap_err(), "refused format");
}

#[test]
fn mlx_names_keep_the_canonical_name_of_their_tensor() {
    for name in [
        "model.language_model.layers.0.mlp.up_proj.weight",
        "lm_head.weight",
        "model.vision_tower.std_bias",
        "model.embed_audio.embedding_projection.weight",
    ] {
        let physical = mlx_vlm_physical_name(name).unwrap();
        assert_ne!(physical, name);
        assert_eq!(canonical_weight_name(&physical), canonical_weight_name(name));
    }
}

#[test]
fn catalogs_list_every_tensor_in_order() {
    let plan = dense_plan(&sparse_family());
    assert_eq!(plan.name, "Gemma 4 SafeTensors");
    let keys: Vec<&str> = plan.common_tensors.iter().map(|tensor| tensor.key.as_str()).collect();
    assert_eq!(keys.len(), 24 + 44 + 70);
    let root = "model.language_model.layers.0";
    let expected: Vec<String> = [
        "input_layernorm.weight",
        "post_attention_layernorm.weight",
        "pre_feedforward_layernorm.weight",
        "post_feedforward_layernorm.weight",
        "layer_scalar",
        "self_attn.q_proj.weight",
        "self_attn.o_proj.weight",
        "mlp.gate_proj.weight",
        "mlp.up_proj.weight",
        "mlp.down_proj.weight",
        "self_attn.q_norm.weight",
        "self_attn.k_proj.weight",
        "self_attn.k_norm.weight",
        "self_attn.v_proj.weight",
        "router.proj.weight",
        "router.scale",
        "router.per_expert_scale",
        "post_feedforward_layernorm_1.weight",
        "pre_feedforward_layernorm_2.weight",
        "post_feedforward_layernorm_2.weight",
        "experts.switch_glu.down_proj.weight",
    ]
    .iter()
    .map(|local| format!("{root}.{local}"))
    .collect();
    assert_eq!(
        keys[..3],
        [
            "model.language_model.embed_tokens.weight",
            "model.language_model.norm.weight",
            "lm_head.weight"
        ]
    );
    assert_eq!(keys[3..24], expected);
    assert_eq!(keys[24], "model.vision_tower.patch_embedder.input_proj.weight");
    assert_eq!(keys[25], "model.vision_tower.patch_embedder.position_embedding_table");
    assert_eq!(keys[30], "model.vision_tower.encoder.layers.0.self_attn.q_proj.linear.weight");
    assert_eq!(keys[31], "model.vision_tower.encoder.layers.0.self_attn.q_proj.input_min");
    assert_eq!(keys[67], "model.embed_vision.embedding_projection.weight");
    assert_eq!(keys[74], "model.audio_tower.output_proj.bias");
    assert_eq!(keys[75], "model.audio_tower.layers.0.feed_forward1.pre_layer_norm.weight");
    assert_eq!(keys[136], "model.audio_tower.layers.0.lconv1d.depthwise_conv1d.weight");
    assert_eq!(keys[137], "model.embed_audio.embedding_projection.weight");
    let shape = |at: usize| plan.common_tensors[at].shape.as_slice();
    assert_eq!(shape(8), [32, 32]);
    assert_eq!(shape(14), [16, 32]);
    assert_eq!(shape(23), [4, 32, 32]);
    assert_eq!(shape(24), [16, 48]);
    assert_eq!(shape(25), [2, 16, 16]);
    assert_eq!(shape(31), [0usize; 0]);
    assert_eq!(shape(68), [4, 3, 3, 1]);
    assert_eq!(shape(70), [8, 3, 3, 4]);
    assert_eq!(shape(136), [16, 3, 1]);
    let group = &plan.layout_groups[0];
    assert_eq!(group.id, "model.layers.0.experts.switch_glu gate/up storage");
    assert!(group.required);
    assert_eq!(group.variants[0].id, "separate gate and up");
    assert_eq!(group.variants[0].tensors.len(), 2);
    assert_eq!(group.variants[0].tensors[0].shape, [4, 32, 32]);
    assert_eq!(group.variants[1].id, "single fused gate and up");
    assert_eq!(group.variants[1].tensors[0].shape, [4, 64, 32]);
    assert_eq!(
        group.variants[1].discriminator_keys,
        [format!("{root}.experts.switch_glu.gate_up_proj.weight")]
    );
}
