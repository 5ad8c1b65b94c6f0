use eredu_architectures::artifact_plan::{
    ArtifactArchitecturePlan, ExternalAssistantTargetProfile, GgufArchitecture,
    GgufArchitecturePlan, GroupedOperationRequirement, ModelConfig, ModelKind,
    NormalizedProcessorPlan, ProcessorDocuments, ProcessorFamily, SafetensorsArchitecturePlan,
};
use eredu_architectures::errors::ProcessorPlanError;
use eredu_architectures::float::{Float32, Float64};
use eredu_architectures::gemma_processor::{
    Gemma4ModelSource, Gemma4ProcessorPlan, Gemma4VisionSource, GEMMA_SOFT_TOKENS,
};
use eredu_architectures::inkling::{
    InklingProcessorPlan, InklingSource, INKLING_AUDIO_BOS, INKLING_IMAGE_BOS,
};
use eredu_architectures::media::{Channels, FrameRate, GgufSpecialTokenIds, GgufSpecialTokenKind};
use eredu_architectures::metadata::{MetadataInteger, MetadataValue};
use eredu_architectures::muse::{MuseProcessorPlan, MuseProcessorSource, MuseVisualSource};
use eredu_architectures::names::StringMap;
use eredu_architectures::qwen::{
    QwenModelSource, QwenProcessorPlan, QwenProcessorSize, QwenVisualSource,
};

type Config = ModelConfig<u8, u16, u32>;
type Plan = ArtifactArchitecturePlan<Config, Config, &'static str, u64>;

fn float(value: f32) -> Float32 {
    Float32 { bits: value.to_bits() }
}

fn nothing() -> MetadataValue {
    MetadataValue {
        integer: None,
        as_i64: None,
        as_f32: None,
        as_bool: None,
        bool_array: None,
        f32_array: None,
        to_i64_vec: None,
        to_u32_vec: None,
        to_f32_vec: None,
    }
}

fn uint(value: u32) -> MetadataValue {
    MetadataValue {
        integer: Some(MetadataInteger::Unsigned(u64::from(value))),
        as_i64: Some(i64::from(value)),
        to_i64_vec: Some(vec![i64::from(value)]),
        to_u32_vec: Some(vec![value]),
        ..nothing()
    }
}

fn floats(values: Vec<f32>) -> MetadataValue {
    let values: Vec<Float32> = values.into_iter().map(float).collect();
    MetadataValue {
        f32_array: Some(values.clone()),
        to_f32_vec: Some(values),
        ..nothing()
    }
}

/// Family of an exact architecture.
fn kind_of(architecture: GgufArchitecture) -> ModelKind {
    match architecture {
        GgufArchitecture::Llama | GgufArchitecture::Mistral => ModelKind::Llama,
        GgufArchitecture::Gemma4 => ModelKind::Gemma4,
        GgufArchitecture::Inkling => ModelKind::Inkling,
        GgufArchitecture::MuseGlimmer => ModelKind::MuseGlimmer,
        GgufArchitecture::Qwen3Vl => ModelKind::Qwen3Vl,
        GgufArchitecture::Qwen3VlMoe => ModelKind::Qwen3VlMoe,
        GgufArchitecture::Qwen35 | GgufArchitecture::Qwen35Moe => ModelKind::Qwen35,
        GgufArchitecture::DeepSeek4 => ModelKind::Other { id: 4 },
        GgufArchitecture::Other { id } => ModelKind::Other { id },
    }
}

fn gguf_artifact_plan(architecture: GgufArchitecture) -> Plan {
    Plan::from_gguf_architecture(GgufArchitecturePlan {
        architecture,
        model_kind: kind_of(architecture),
        grouped_routed_experts: false,
        detail: ModelConfig::Other(0),
    })
}

fn safetensors_artifact_plan(model_kind: ModelKind) -> Plan {
    Plan::from_safetensors_architecture(SafetensorsArchitecturePlan {
        model_kind,
        grouped_routed_experts: false,
        detail: ModelConfig::Other(0),
    })
}

fn message<T>(result: Result<T, ProcessorPlanError>) -> String {
    match result {
        Err(ProcessorPlanError::Invalid(message)) => message,
        Err(ProcessorPlanError::Json(_)) => "json".to_owned(),
        Ok(_) => "accepted".to_owned(),
    }
}

fn gemma_model() -> Gemma4ModelSource {
    Gemma4ModelSource {
        boi_token_id: Some(43),
        eoi_token_id: Some(44),
        boa_token_id: None,
        eoa_token_id: None,
        boa_token_index: None,
        eoa_token_index: None,
        vision_soft_tokens_per_image: GEMMA_SOFT_TOKENS,
        vision_config: Some(Ok(Gemma4VisionSource { patch_size: 2, pooling_kernel_size: 1 })),
        has_audio_config: false,
    }
}

fn inkling_model() -> InklingSource {
    InklingSource {
        model_type: "inkling_mm_model".to_owned(),
        image_bos_token_id: INKLING_IMAGE_BOS,
        audio_bos_token_id: INKLING_AUDIO_BOS,
        audio_config: None,
    }
}

fn muse_document() -> MuseProcessorSource {
    MuseProcessorSource {
        image_processor: MuseVisualSource::default(),
        video_processor: MuseVisualSource::default(),
    }
}

fn even(value: f32) -> Channels {
    Channels { red: float(value), green: float(value), blue: float(value) }
}

fn qwen_visual() -> QwenVisualSource {
    QwenVisualSource {
        size: QwenProcessorSize { shortest_edge: 16, longest_edge: 16 },
        patch_size: 2,
        temporal_patch_size: 2,
        merge_size: 2,
        do_resize: true,
        do_rescale: true,
        rescale_factor: float(1.0 / 255.0),
        do_normalize: true,
        resample: 3,
        image_mean: even(0.0),
        image_std: even(1.0),
        fps: FrameRate { value: Float64 { bits: 2.0f64.to_bits() }, text: "2".to_owned() },
        min_frames: 1,
        max_frames: 8,
        do_sample_frames: true,
    }
}

fn qwen_model() -> QwenModelSource {
    QwenModelSource {
        vision_start_token_id: Some(44),
        vision_end_token_id: Some(45),
        text_config: None,
    }
}

fn muse_projector() -> StringMap<MetadataValue> {
    StringMap::new()
        .with("clip.vision.patch_size".to_owned(), uint(2))
        .with("clip.vision.spatial_merge_size".to_owned(), uint(2))
        .with("clip.vision.image_mean".to_owned(), floats(vec![0.0; 3]))
        .with("clip.vision.image_std".to_owned(), floats(vec![1.0; 3]))
}

#[test]
fn artifact_plan_retains_validated_safetensors_plan_and_exact_gguf_identity() {
    let plan = safetensors_artifact_plan(ModelKind::Llama);
    assert_eq!(plan.model_kind(), ModelKind::Llama);
    assert!(plan.safetensors_architecture().is_some());
    assert_eq!(plan.gguf_architecture(), None);

    for architecture in [
        GgufArchitecture::Llama,
        GgufArchitecture::Mistral,
        GgufArchitecture::DeepSeek4,
        GgufArchitecture::Gemma4,
        GgufArchitecture::MuseGlimmer,
        GgufArchitecture::Qwen35Moe,
    ] {
        let plan = gguf_artifact_plan(architecture)
            .with_gguf_processors(&StringMap::new(), None)
            .unwrap();
        assert_eq!(plan.model_kind(), kind_of(architecture));
        assert_eq!(plan.gguf_architecture(), Some(architecture));
    }
}

#[test]
fn artifact_plan_retains_every_normalized_processor_variant() {
    assert!(Gemma4ProcessorPlan::from_hf_json(Ok(gemma_model()), None, None)
        .unwrap()
        .is_some());
    assert!(InklingProcessorPlan::from_hf_json(Ok(inkling_model())).unwrap().is_some());
    assert!(MuseProcessorPlan::from_hf_json(Ok(muse_document())).is_ok());
    let plan =
        QwenProcessorPlan::from_hf_json(Ok(qwen_model()), Some(Ok(qwen_visual())), None).unwrap();
    assert!(plan.is_some());

    let gemma_model = StringMap::new()
        .with("gemma4.boi_token_id".to_owned(), uint(43))
        .with("gemma4.eoi_token_id".to_owned(), uint(44));
    let gemma_projector =
        StringMap::new().with("clip.vision.patch_size".to_owned(), uint(2));
    assert!(gguf_artifact_plan(GgufArchitecture::Gemma4)
        .with_gguf_processors(&gemma_model, Some(&gemma_projector))
        .unwrap()
        .gemma4()
        .is_some());
    let inkling = gguf_artifact_plan(GgufArchitecture::Inkling)
        .with_gguf_processors(&StringMap::new(), Some(&StringMap::new()))
        .unwrap();
    assert_eq!(
        inkling.required_gguf_special_tokens(),
        Some(GgufSpecialTokenKind::Inkling)
    );
    assert!(inkling.inkling().is_none());

    assert!(gguf_artifact_plan(GgufArchitecture::MuseGlimmer)
        .with_gguf_processors(&StringMap::new(), Some(&muse_projector()))
        .unwrap()
        .muse()
        .is_some());

    let qwen = gguf_artifact_plan(GgufArchitecture::Qwen3Vl)
        .with_gguf_processors(&StringMap::new(), Some(&muse_projector()))
        .unwrap();
    assert_eq!(qwen.required_gguf_special_tokens(), Some(GgufSpecialTokenKind::Qwen));
    assert!(qwen.qwen().is_none());
}

#[test]
fn safetensors_families_read_their_own_documents() {
    let documents = |family: ProcessorFamily| match family {
        ProcessorFamily::Gemma4 => ProcessorDocuments::Gemma4 {
            model: Ok(gemma_model()),
            image: None,
            video: None,
        },
        ProcessorFamily::Inkling => ProcessorDocuments::Inkling { model: Ok(inkling_model()) },
        ProcessorFamily::Muse => ProcessorDocuments::Muse { processor: Some(Ok(muse_document())) },
        ProcessorFamily::Qwen => ProcessorDocuments::Qwen {
            model: Ok(qwen_model()),
            image: Some(Ok(qwen_visual())),
            video: None,
        },
        ProcessorFamily::Absent => ProcessorDocuments::Absent,
    };
    let planned = |kind: ModelKind| {
        safetensors_artifact_plan(kind)
            .with_safetensors_processors(documents(kind.processor_family()))
            .unwrap()
    };
    assert!(planned(ModelKind::Gemma4).gemma4().is_some());
    assert!(planned(ModelKind::Inkling).inkling().is_some());
    assert!(planned(ModelKind::MuseGlimmer).muse().is_some());
    assert!(planned(ModelKind::Qwen3Vl).qwen().is_some());
    assert!(planned(ModelKind::Qwen35).qwen().is_some());
    assert!(!planned(ModelKind::Llama).has_processor());
    let silent = safetensors_artifact_plan(ModelKind::MuseGlimmer)
        .with_safetensors_processors(ProcessorDocuments::Muse { processor: None })
        .unwrap();
    assert!(!silent.has_processor());
    assert_eq!(
        message(
            gguf_artifact_plan(GgufArchitecture::Gemma4)
                .with_safetensors_processors(ProcessorDocuments::Absent)
        ),
        "SafeTensors processor planning requires a validated architecture plan"
    );
    assert_eq!(
        message(
            safetensors_artifact_plan(ModelKind::Gemma4)
                .with_gguf_processors(&StringMap::new(), None)
        ),
        "GGUF processor planning requires a resolved architecture"
    );
}

#[test]
fn processor_faults_pass_through_the_plan() {
    assert_eq!(
        message(
            gguf_artifact_plan(GgufArchitecture::Qwen35Moe)
                .with_gguf_processors(&StringMap::new(), Some(&StringMap::new()))
        ),
        "Qwen projector is missing GGUF metadata key \"clip.vision.patch_size\""
    );
    assert_eq!(
        message(
            gguf_artifact_plan(GgufArchitecture::MuseGlimmer)
                .with_gguf_processors(&StringMap::new(), Some(&StringMap::new()))
        ),
        "Muse-Glimmer projector GGUF requires three Float32 values in \"clip.vision.image_mean\""
    );
    let undecodable = Err(serde_json::from_str::<u8>("{").unwrap_err());
    assert_eq!(
        message(
            safetensors_artifact_plan(ModelKind::Inkling)
                .with_safetensors_processors(ProcessorDocuments::Inkling { model: undecodable })
        ),
        "json"
    );
}

fn qwen_ids() -> GgufSpecialTokenIds {
    GgufSpecialTokenIds::Qwen {
        image_token_id: 1,
        video_token_id: 2,
        vision_start_token_id: 3,
        vision_end_token_id: 4,
    }
}

#[test]
fn bound_tokens_make_media_plans_executable() {
    let mut plan = gguf_artifact_plan(GgufArchitecture::Qwen3Vl)
        .with_gguf_processors(&StringMap::new(), Some(&muse_projector()))
        .unwrap();
    assert_eq!(
        message(plan.bind_gguf_special_token_ids(qwen_ids(), Ok("bound"))),
        "Qwen GGUF special tokens require an admitted media projector"
    );
    let mut plan = plan.with_gguf_media_projector(Some("unbound"));
    assert_eq!(
        message(plan.bind_gguf_special_token_ids(qwen_ids(), Err("refused".to_owned()))),
        "refused"
    );
    assert!(plan.qwen().is_none());
    plan.bind_gguf_special_token_ids(qwen_ids(), Ok("bound")).unwrap();
    assert_eq!(plan.required_gguf_special_tokens(), None);
    assert_eq!(plan.gguf_media_projector(), Some(&"bound"));
    let framing = plan.qwen().unwrap().framing.unwrap();
    assert_eq!((framing.start_token_id, framing.end_token_id), (3, 4));

    let ids = GgufSpecialTokenIds::Inkling { image_bos_token_id: 5, audio_bos_token_id: 6 };
    assert_eq!(
        message(plan.bind_gguf_special_token_ids(ids, Ok("unread"))),
        "Inkling GGUF special tokens require a processor plan"
    );
    let mut plan = gguf_artifact_plan(GgufArchitecture::Inkling)
        .with_gguf_processors(&StringMap::new(), Some(&StringMap::new()))
        .unwrap();
    assert_eq!(
        message(plan.bind_gguf_special_token_ids(qwen_ids(), Ok("unread"))),
        "Qwen GGUF special tokens require a processor plan"
    );
    plan.bind_gguf_special_token_ids(ids, Ok("unread")).unwrap();
    assert_eq!(plan.inkling().unwrap().image_bos_token_id, Some(5));
    assert_eq!(plan.gguf_media_projector(), None);
    assert!(matches!(plan.processor, Some(NormalizedProcessorPlan::Inkling(_))));
}

#[test]
fn prediction_extensions_split_from_their_target() {
    let target = SafetensorsArchitecturePlan {
        model_kind: ModelKind::Gemma4,
        grouped_routed_experts: true,
        detail: ModelConfig::Gemma4(9),
    };
    let plan = safetensors_artifact_plan(ModelKind::Llama)
        .prediction_target_projection(Ok(Some((target.clone(), 77))))
        .unwrap()
        .unwrap();
    assert_eq!(plan.model_kind(), ModelKind::Gemma4);
    assert_eq!(plan.prediction_extension(), Some(&77));
    assert_eq!(plan.without_prediction_extension().prediction_extension(), None);
    let whole = safetensors_artifact_plan(ModelKind::Llama);
    assert!(whole.prediction_target_projection(Ok(None)).unwrap().is_none());
    assert_eq!(
        safetensors_artifact_plan(ModelKind::Llama)
            .prediction_target_projection(Err("drift".to_owned()))
            .unwrap_err(),
        "drift"
    );
    assert!(gguf_artifact_plan(GgufArchitecture::Llama)
        .prediction_target_projection(Ok(Some((target, 77))))
        .unwrap()
        .is_none());
}

#[test]
fn catalogs_are_admitted_for_safetensors_alone() {
    let architecture = SafetensorsArchitecturePlan {
        model_kind: ModelKind::Llama,
        grouped_routed_experts: false,
        detail: ModelConfig::Other(5),
    };
    let plan = safetensors_artifact_plan(ModelKind::Llama)
        .admit_safetensors_catalog(Ok(architecture.clone()))
        .unwrap();
    assert!(matches!(
        plan.safetensors_architecture().unwrap().detail,
        ModelConfig::Other(5)
    ));
    assert_eq!(
        gguf_artifact_plan(GgufArchitecture::Llama)
            .admit_safetensors_catalog(Ok(architecture))
            .unwrap_err(),
        "SafeTensors catalog admission requires a SafeTensors architecture plan"
    );
    assert_eq!(
        safetensors_artifact_plan(ModelKind::Llama)
            .admit_safetensors_catalog(Err("missing".to_owned()))
            .unwrap_err(),
        "missing"
    );
}

#[test]
fn assistant_targets_are_gemma_and_muse() {
    let mut plan = gguf_artifact_plan(GgufArchitecture::Llama);
    assert!(plan.external_assistant_target_profile().is_none());
    plan = Plan::from_gguf_architecture(GgufArchitecturePlan {
        architecture: GgufArchitecture::Gemma4,
        model_kind: ModelKind::Gemma4,
        grouped_routed_experts: false,
        detail: ModelConfig::Gemma4(3),
    });
    assert_eq!(
        plan.external_assistant_target_profile(),
        Some(ExternalAssistantTargetProfile::Gemma4(&3))
    );
    assert!(plan.gguf_plan().is_some());
    plan = Plan::from_safetensors_architecture(SafetensorsArchitecturePlan {
        model_kind: ModelKind::MuseGlimmer,
        grouped_routed_experts: false,
        detail: ModelConfig::MuseGlimmer(4),
    });
    assert_eq!(
        plan.external_assistant_target_profile(),
        Some(ExternalAssistantTargetProfile::MuseGlimmer(&4))
    );
    assert!(plan.gguf_plan().is_none());
}

#[test]
fn routed_models_require_grouped_products() {
    let plan = gguf_artifact_plan(GgufArchitecture::Llama);
    assert!(plan.grouped_operation_requirements(Some(4)).is_empty());
    let plan = Plan::from_safetensors_architecture(SafetensorsArchitecturePlan {
        model_kind: ModelKind::Gemma4,
        grouped_routed_experts: true,
        detail: ModelConfig::Other(0),
    });
    let whole = [GroupedOperationRequirement::GatedProduct];
    assert_eq!(plan.grouped_operation_requirements(None), whole);
    assert_eq!(plan.grouped_operation_requirements(Some(1)), whole);
    assert_eq!(
        plan.grouped_operation_requirements(Some(2)),
        [
            GroupedOperationRequirement::GatedProduct,
            GroupedOperationRequirement::GatedProductTensorParallelPartial
        ]
    );
}
