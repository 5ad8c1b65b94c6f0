use eredu_architectures::errors::ProcessorPlanError;
use eredu_architectures::float::{Float32, Float64};
use eredu_architectures::gemma_processor::{
    gemma_timestamp, resize_fits, Gemma4ModelSource, Gemma4ProcessorPlan, Gemma4VideoSteps,
    Gemma4VisionSource, Gemma4VisualPolicy, ScaledSides, GEMMA_SOFT_TOKENS,
};
use eredu_architectures::inkling::{
    AudioFrameCount, AudioWindow, InklingAudioSource, InklingProcessorPlan, InklingSource,
    Logarithm, MelNormalization, MelScale, SpectrumValue, INKLING_AUDIO_BOS, INKLING_IMAGE_BOS,
};
use eredu_architectures::media::{
    pad_frame_indices, sampled_frame_count, uniform_sample_indices, Channels, FrameRate,
    MediaFraming, VideoSampling, MUSE_PROCESSOR_CONFIG_FILENAME, PROCESSOR_CONFIG_FILENAME,
    VIDEO_PROCESSOR_CONFIG_FILENAME,
};
use eredu_architectures::metadata::{MetadataInteger, MetadataValue};
use eredu_architectures::muse::{
    GridCandidate, GridSteps, MuseProcessorPlan, MuseProcessorSource, MuseVideoSteps,
    MuseVisualSource,
};
use eredu_architectures::names::StringMap;
use eredu_architectures::qwen::{
    QwenModelSource, QwenProcessorPlan, QwenProcessorSize, QwenTextSource, QwenVideoSteps,
    QwenVisualSource, ResizeSteps,
};

fn float(value: f32) -> Float32 {
    Float32 { bits: value.to_bits() }
}

fn rate(value: f64) -> FrameRate {
    FrameRate { value: Float64 { bits: value.to_bits() }, text: format!("{value}") }
}

fn even(value: f32) -> Channels {
    Channels { red: float(value), green: float(value), blue: float(value) }
}

fn undecodable<T>() -> Result<T, serde_json::Error> {
    Err(serde_json::from_str::<u8>("{").unwrap_err())
}

fn message<T>(result: Result<T, ProcessorPlanError>) -> String {
    match result {
        Err(ProcessorPlanError::Invalid(message)) => message,
        Err(ProcessorPlanError::Json(_)) => "json".to_owned(),
        Ok(_) => "accepted".to_owned(),
    }
}

fn positions(total: usize, count: usize) -> Vec<usize> {
    if count < 2 {
        return Vec::new();
    }
    let last = (total - 1) as f64;
    let denominator = (count - 1) as f64;
    (0..count)
        .map(|index| (index as f64 * last / denominator).round_ties_even() as usize)
        .collect()
}

fn resize_steps(
    height: usize,
    width: usize,
    pixels: usize,
    factor: usize,
    least: usize,
    most: usize,
) -> ResizeSteps {
    let ratio = height.max(width) as f64 / height.min(width) as f64;
    let shrink = (pixels as f64 / most as f64).sqrt();
    let grow = (least as f64 / pixels as f64).sqrt();
    let rounded = |side: usize| (side as f64 / factor as f64).round_ties_even() as usize;
    let shrunk = |side: usize| (side as f64 / shrink / factor as f64).floor() as usize;
    let grown = |side: usize| (side as f64 * grow / factor as f64).ceil() as usize;
    ResizeSteps {
        above_limit: ratio > 200.0,
        ratio_text: format!("{ratio}"),
        rounded_height: rounded(height),
        rounded_width: rounded(width),
        shrunk_height: shrunk(height),
        shrunk_width: shrunk(width),
        grown_height: grown(height),
        grown_width: grown(width),
    }
}

fn qwen_visual() -> QwenVisualSource {
    QwenVisualSource {
        size: QwenProcessorSize { shortest_edge: 16, longest_edge: 16 },
        patch_size: 2,
        temporal_patch_size: 2,
        merge_size: 2,
        do_resize: true,
        do_rescale: true,
        rescale_factor: float(1.0 / 255.0),
        do_normalize: true,
        resample: 3,
        image_mean: even(0.0),
        image_std: even(1.0),
        fps: rate(2.0),
        min_frames: 1,
        max_frames: 8,
        do_sample_frames: true,
    }
}

fn qwen_model() -> QwenModelSource {
    QwenModelSource {
        vision_start_token_id: Some(44),
        vision_end_token_id: Some(45),
        text_config: None,
    }
}

fn middle_seconds(frames: &[usize], temporal: usize, fps: f64) -> Vec<String> {
    frames
        .chunks_exact(temporal)
        .map(|chunk| {
            let first = chunk[0] as f64 / fps;
            let last = chunk[chunk.len() - 1] as f64 / fps;
            format!("{:.1}", (first + last) / 2.0)
        })
        .collect()
}

#[test]
fn qwen_plan_owns_resize_sampling_and_framing() {
    let plan = QwenProcessorPlan::from_hf_json(
        Ok(qwen_model()),
        Some(Ok(qwen_visual())),
        Some(Ok(qwen_visual())),
    )
    .unwrap()
    .unwrap();
    let image = plan.image(4, 4, &resize_steps(4, 4, 16, 4, 16, 16)).unwrap();
    assert_eq!((image.transform.height, image.transform.width), (4, 4));
    assert_eq!(image.framing.start_token_id, 44);
    let frames = positions(4, 4);
    let steps = QwenVideoSteps {
        requested: 0,
        seconds: middle_seconds(&frames, 2, 2.0),
        positions: frames,
        resize: resize_steps(4, 4, 64, 4, 16, 16),
    };
    let video = plan.video(4, 4, 4, &Some(rate(2.0)), &VideoSampling::All, &steps).unwrap();
    assert_eq!(video.groups.len(), 2);
    assert_eq!(video.groups[0].timestamp_text, "<0.2 seconds>");
    assert_eq!(video.groups[1].timestamp_text, "<1.2 seconds>");
    assert_eq!(video.groups[1].source_indices, [2, 3]);
}

fn nothing() -> MetadataValue {
    MetadataValue {
        integer: None,
        as_i64: None,
        as_f32: None,
        as_bool: None,
        bool_array: None,
        f32_array: None,
        to_i64_vec: None,
        to_u32_vec: None,
        to_f32_vec: None,
    }
}

fn uint(value: u32) -> MetadataValue {
    MetadataValue {
        integer: Some(MetadataInteger::Unsigned(u64::from(value))),
        as_i64: Some(i64::from(value)),
        to_i64_vec: Some(vec![i64::from(value)]),
        to_u32_vec: Some(vec![value]),
        ..nothing()
    }
}

fn floats(values: Vec<f32>) -> MetadataValue {
    let values: Vec<Float32> = values.into_iter().map(float).collect();
    MetadataValue {
        f32_array: Some(values.clone()),
        to_f32_vec: Some(values),
        ..nothing()
    }
}

fn qwen_projector() -> StringMap<MetadataValue> {
    StringMap::new()
        .with("clip.vision.patch_size".to_owned(), uint(2))
        .with("clip.vision.spatial_merge_size".to_owned(), uint(2))
        .with("clip.vision.image_min_pixels".to_owned(), uint(16))
        .with("clip.vision.image_max_pixels".to_owned(), uint(64))
        .with("clip.vision.image_mean".to_owned(), floats(vec![0.1, 0.2, 0.3]))
        .with("clip.vision.image_std".to_owned(), floats(vec![0.4, 0.5, 0.6]))
}

#[test]
fn qwen_gguf_plan_binds_typed_framing_to_projector_policy() {
    let mut plan = QwenProcessorPlan::from_gguf_metadata(&qwen_projector()).unwrap();
    let steps = resize_steps(8, 8, 64, 4, 16, 64);
    assert!(plan.image(8, 8, &steps).is_err());
    plan.bind_framing(MediaFraming { start_token_id: 1, end_token_id: 2 });
    let image = plan.image(8, 8, &steps).unwrap();
    assert_eq!(image.framing.start_token_id, 1);
    assert_eq!(image.framing.end_token_id, 2);
    assert_eq!((image.transform.height, image.transform.width), (8, 8));
    assert_eq!(
        image.transform.mean,
        Channels { red: float(0.1), green: float(0.2), blue: float(0.3) }
    );
    assert_eq!(image.patches.patch_size, 2);
    assert_eq!(image.patches.merge_size, 2);
}

#[test]
fn qwen_projector_defaults_scale_with_the_token_area() {
    let projector = StringMap::new()
        .with("clip.vision.patch_size".to_owned(), uint(4))
        .with("clip.vision.image_mean".to_owned(), floats(vec![0.0; 3]))
        .with("clip.vision.image_std".to_owned(), floats(vec![1.0; 3]));
    let plan = QwenProcessorPlan::from_gguf_metadata(&projector).unwrap();
    let image = plan.image.unwrap();
    assert_eq!(image.merge_size, 2);
    assert_eq!(image.size.shortest_edge, 8 * 64);
    assert_eq!(image.size.longest_edge, 4096 * 64);
    assert_eq!(image.temporal_patch_size, 2);
    assert_eq!((image.min_frames, image.max_frames), (4, 768));
}

#[test]
fn qwen_projector_faults_are_reported_in_words() {
    assert_eq!(
        message(QwenProcessorPlan::from_gguf_metadata(&StringMap::new())),
        "Qwen projector is missing GGUF metadata key \"clip.vision.patch_size\""
    );
    let wrong = qwen_projector().with("clip.vision.patch_size".to_owned(), nothing());
    assert_eq!(
        message(QwenProcessorPlan::from_gguf_metadata(&wrong)),
        "processor GGUF metadata key \"clip.vision.patch_size\" must be a non-negative integer"
    );
    let short = qwen_projector().with("clip.vision.image_mean".to_owned(), floats(vec![0.0]));
    assert_eq!(
        message(QwenProcessorPlan::from_gguf_metadata(&short)),
        "Qwen projector metadata \"clip.vision.image_mean\" must contain 3 floats, got 1"
    );
    let plain = qwen_projector().with("clip.vision.image_std".to_owned(), uint(1));
    assert_eq!(
        message(QwenProcessorPlan::from_gguf_metadata(&plain)),
        "Qwen projector is missing float RGB metadata \"clip.vision.image_std\""
    );
    let zero = qwen_projector().with("clip.vision.patch_size".to_owned(), uint(0));
    assert_eq!(
        message(QwenProcessorPlan::from_gguf_metadata(&zero)),
        "Qwen patch_size, temporal_patch_size, and merge_size must be positive"
    );
}

#[test]
fn qwen_documents_are_optional_but_checked() {
    assert!(QwenProcessorPlan::from_hf_json(undecodable(), None, None).unwrap().is_none());
    let visual = || Some(Ok(qwen_visual()));
    assert_eq!(message(QwenProcessorPlan::from_hf_json(undecodable(), visual(), None)), "json");
    assert_eq!(
        message(QwenProcessorPlan::from_hf_json(Ok(qwen_model()), Some(undecodable()), None)),
        "json"
    );
    let mut model = qwen_model();
    model.vision_start_token_id = None;
    assert_eq!(
        message(QwenProcessorPlan::from_hf_json(Ok(model), visual(), None)),
        "Qwen processor requires vision_start_token_id in config.json"
    );
    model.text_config = Some(QwenTextSource {
        vision_start_token_id: Some(9),
        vision_end_token_id: Some(8),
    });
    let plan = QwenProcessorPlan::from_hf_json(Ok(model), None, visual()).unwrap().unwrap();
    assert_eq!(plan.framing, Some(MediaFraming { start_token_id: 9, end_token_id: 45 }));
    model.vision_end_token_id = None;
    model.text_config = None;
    model.vision_start_token_id = Some(1);
    assert_eq!(
        message(QwenProcessorPlan::from_hf_json(Ok(model), visual(), None)),
        "Qwen processor requires vision_end_token_id in config.json"
    );
}

#[test]
fn qwen_visual_faults_are_reported_in_words() {
    let planned = |visual: QwenVisualSource| {
        message(QwenProcessorPlan::from_hf_json(Ok(qwen_model()), Some(Ok(visual)), None))
    };
    let mut visual = qwen_visual();
    visual.size.shortest_edge = 17;
    assert_eq!(planned(visual), "invalid Qwen image size constraints: 17..16 pixels");
    let mut visual = qwen_visual();
    visual.resample = 2;
    assert_eq!(
        planned(visual),
        "Qwen visual resample mode 2 is unsupported; expected bicubic mode 3"
    );
    let mut visual = qwen_visual();
    visual.min_frames = 9;
    assert_eq!(planned(visual), "invalid Qwen video sampling defaults: fps 2, frames 9..8");
    let mut visual = qwen_visual();
    visual.fps = rate(f64::NAN);
    assert_eq!(planned(visual), "invalid Qwen video sampling defaults: fps NaN, frames 1..8");
}

#[test]
fn qwen_images_shrink_and_grow_to_the_pixel_budget() {
    let mut visual = qwen_visual();
    visual.size = QwenProcessorSize { shortest_edge: 64, longest_edge: 144 };
    let plan = QwenProcessorPlan::from_hf_json(Ok(qwen_model()), Some(Ok(visual)), None)
        .unwrap()
        .unwrap();
    let sides = |height: usize, width: usize| {
        let steps = resize_steps(height, width, height * width, 4, 64, 144);
        let image = plan.image(height, width, &steps).unwrap();
        (image.transform.height, image.transform.width)
    };
    assert_eq!(sides(100, 100), (12, 12));
    assert_eq!(sides(4, 4), (8, 8));
    assert_eq!(sides(9, 11), (8, 12));
    let narrow = resize_steps(1, 201, 201, 4, 64, 144);
    assert_eq!(
        message(plan.image(1, 201, &narrow)),
        "absolute image aspect ratio must be at most 200, got 201"
    );
    let empty = ResizeSteps { above_limit: false, ..narrow };
    assert_eq!(
        message(plan.image(0, 5, &empty)),
        "smart resize requires positive dimensions and factor, got 5x0, factor 4"
    );
    let none = QwenVideoSteps {
        requested: 0,
        positions: Vec::new(),
        seconds: Vec::new(),
        resize: empty,
    };
    assert_eq!(
        message(plan.video(1, 4, 4, &None, &VideoSampling::All, &none)),
        "Qwen model directory has no video processor config"
    );
}

#[test]
fn qwen_videos_are_sampled_and_padded() {
    let plan = QwenProcessorPlan::from_hf_json(Ok(qwen_model()), None, Some(Ok(qwen_visual())))
        .unwrap()
        .unwrap();
    let total = 9;
    // Nine frames at three per second last three seconds: six frames at two per second.
    let requested = (total as f64 / 3.0 * 2.0) as usize;
    let count = plan
        .video_sample_count(total, &Some(rate(3.0)), &VideoSampling::ProcessorDefault, requested)
        .unwrap();
    assert_eq!(count, 6);
    let frames = positions(total, 3);
    let steps = QwenVideoSteps {
        requested: 0,
        seconds: middle_seconds(&[0, 4, 8, 8], 2, 3.0),
        positions: frames,
        resize: resize_steps(4, 4, 48, 4, 16, 16),
    };
    let video = plan
        .video(total, 4, 4, &Some(rate(3.0)), &VideoSampling::FrameCount(3), &steps)
        .unwrap();
    assert_eq!(video.groups[0].source_indices, [0, 4]);
    assert_eq!(video.groups[1].source_indices, [8, 8]);
    assert_eq!(
        message(plan.video_sample_count(1, &Some(rate(-1.0)), &VideoSampling::All, 0)),
        "video source FPS must be finite and positive, got -1"
    );
    assert_eq!(
        message(plan.video_sample_count(1, &None, &VideoSampling::Fps(rate(0.0)), 0)),
        "video target FPS must be finite and positive, got 0"
    );
    assert_eq!(
        message(plan.video(0, 4, 4, &None, &VideoSampling::All, &QwenVideoSteps {
            requested: 0,
            positions: Vec::new(),
            seconds: Vec::new(),
            resize: resize_steps(4, 4, 16, 4, 16, 16),
        })),
        "video sampling requires positive frame counts, got 0 source and 0 requested"
    );
    let small = QwenVideoSteps {
        requested: 0,
        positions: vec![0, 1],
        seconds: vec!["0.0".to_owned()],
        resize: resize_steps(3, 4, 24, 4, 16, 16),
    };
    assert_eq!(
        message(plan.video(2, 3, 4, &None, &VideoSampling::All, &small)),
        "video dimensions 4x3 must be at least resize factor 4"
    );
}

fn gemma_model() -> Gemma4ModelSource {
    Gemma4ModelSource {
        boi_token_id: Some(43),
        eoi_token_id: Some(44),
        boa_token_id: None,
        eoa_token_id: None,
        boa_token_index: None,
        eoa_token_index: None,
        vision_soft_tokens_per_image: GEMMA_SOFT_TOKENS,
        vision_config: Some(Ok(Gemma4VisionSource { patch_size: 16, pooling_kernel_size: 3 })),
        has_audio_config: false,
    }
}

fn scaled_sides(height: usize, width: usize, patch: usize, patches: usize) -> ScaledSides {
    let target = patches as f64 * (patch * patch) as f64;
    let factor = (target / (height * width) as f64).sqrt();
    ScaledSides {
        height: (factor * height as f64).floor() as usize,
        width: (factor * width as f64).floor() as usize,
    }
}

#[test]
fn gemma_plan_owns_defaults_resize_and_timestamp_framing() {
    let plan = Gemma4ProcessorPlan::from_hf_json(Ok(gemma_model()), None, None)
        .unwrap()
        .unwrap();
    let image = plan.image(320, 480, scaled_sides(320, 480, 16, 2520)).unwrap();
    assert_eq!((image.transform.height, image.transform.width), (624, 960));
    assert_eq!(image.max_patches, 2520);
    let steps = Gemma4VideoSteps {
        requested: 0,
        positions: positions(2, 2),
        seconds: vec![0, 1],
        scaled: scaled_sides(320, 480, 16, 630),
    };
    let video = plan
        .video(2, 320, 480, &Some(rate(1.0)), &VideoSampling::ProcessorDefault, &steps)
        .unwrap();
    assert_eq!(video.frames[0].timestamp_text, "00:00 ");
    assert_eq!(video.frames[1].timestamp_text, " 00:01 ");
    assert_eq!(video.max_patches, 630);
}

#[test]
fn gemma_timestamps_count_minutes_past_an_hour() {
    assert_eq!(gemma_timestamp(59, true), "00:59 ");
    assert_eq!(gemma_timestamp(60, false), " 01:00 ");
    assert_eq!(gemma_timestamp(6000, false), " 100:00 ");
}

#[test]
fn gemma_documents_are_checked() {
    let planned = |model: Gemma4ModelSource| {
        message(Gemma4ProcessorPlan::from_hf_json(Ok(model), None, None))
    };
    assert_eq!(message(Gemma4ProcessorPlan::from_hf_json(undecodable(), None, None)), "json");
    let mut model = gemma_model();
    model.vision_config = Some(undecodable());
    assert_eq!(planned(model), "json");
    let mut model = gemma_model();
    model.eoi_token_id = None;
    assert_eq!(
        planned(model),
        "Gemma 4 visual framing must declare both opening and closing token IDs"
    );
    let mut model = gemma_model();
    model.vision_soft_tokens_per_image = 100;
    assert_eq!(
        planned(model),
        "Gemma 4 image max_soft_tokens must be one of 70, 140, 280, 560, or 1120, got 100"
    );
    let mut model = gemma_model();
    model.vision_config = Some(Ok(Gemma4VisionSource { patch_size: 0, pooling_kernel_size: 3 }));
    assert_eq!(planned(model), "Gemma 4 image patch and pooling sizes must be positive");
    let mut model = gemma_model();
    model.vision_config = None;
    assert!(Gemma4ProcessorPlan::from_hf_json(Ok(model), None, None).unwrap().is_none());
}

#[test]
fn gemma_audio_takes_either_spelling_of_its_tokens() {
    let mut model = gemma_model();
    model.vision_config = None;
    model.has_audio_config = true;
    model.boa_token_id = Some(7);
    model.eoa_token_index = Some(9);
    let plan = Gemma4ProcessorPlan::from_hf_json(Ok(model), None, None).unwrap().unwrap();
    assert!(plan.has_audio());
    assert!(!plan.has_image());
    let audio = plan.audio().unwrap();
    assert_eq!(audio.framing, MediaFraming { start_token_id: 7, end_token_id: 9 });
    assert_eq!((audio.sample_rate, audio.mel_bins), (16_000, 128));
    assert_eq!(audio.mel_floor, float(1e-3));
    assert_eq!(
        message(plan.image(4, 4, ScaledSides { height: 0, width: 0 })),
        "Gemma 4 model has no image processor"
    );
    let silent = Gemma4ProcessorPlan::from_hf_json(Ok(gemma_model()), None, None)
        .unwrap()
        .unwrap();
    assert_eq!(message(silent.audio()), "Gemma 4 model has no audio processor");
}

#[test]
fn gemma_sides_that_vanish_keep_one_multiple() {
    let plan = Gemma4ProcessorPlan::from_hf_json(Ok(gemma_model()), None, None)
        .unwrap()
        .unwrap();
    let flat = plan.image(1, 1000, scaled_sides(1, 1000, 16, 2520)).unwrap();
    assert_eq!((flat.transform.height, flat.transform.width), (48, 13440));
    assert_eq!(
        message(plan.image(8, 8, ScaledSides { height: 40, width: 40 })),
        "Gemma 4 image is too small for resize multiple 48"
    );
    assert_eq!(
        message(plan.image(8, 8, ScaledSides { height: 4800, width: 4800 })),
        "Gemma 4 resize 4800x4800 exceeds the 2520-patch budget"
    );
}

#[test]
fn gemma_sides_follow_exchanged_inputs() {
    let plan = Gemma4ProcessorPlan::from_hf_json(Ok(gemma_model()), None, None)
        .unwrap()
        .unwrap();
    for (height, width) in [(320, 480), (1, 1000), (37, 4099)] {
        let image = plan.image(height, width, scaled_sides(height, width, 16, 2520)).unwrap();
        let turned = plan.image(width, height, scaled_sides(width, height, 16, 2520)).unwrap();
        assert!(image.transform.height > 0 && image.transform.width > 0);
        assert_eq!(
            (turned.transform.height, turned.transform.width),
            (image.transform.width, image.transform.height)
        );
    }
}

#[test]
fn gemma_sides_at_one_scale_are_whole_multiples() {
    let plan = Gemma4ProcessorPlan::from_hf_json(Ok(gemma_model()), None, None)
        .unwrap()
        .unwrap();
    let at_scale = |height: usize, width: usize| ScaledSides {
        height: 3 * height / 2,
        width: 3 * width / 2,
    };
    let image = plan.image(325, 487, at_scale(325, 487)).unwrap();
    assert_eq!((image.transform.height, image.transform.width), (480, 720));
    let turned = plan.image(487, 325, at_scale(487, 325)).unwrap();
    assert_eq!((turned.transform.height, turned.transform.width), (720, 480));
    let flat = plan.image(20, 487, at_scale(20, 487)).unwrap();
    assert_eq!((flat.transform.height, flat.transform.width), (48, 1152));
}

#[test]
fn gemma_projector_metadata_overrides_the_defaults() {
    let model = StringMap::new()
        .with("gemma4.boi_token_id".to_owned(), uint(43))
        .with("gemma4.eoi_token_id".to_owned(), uint(44));
    let projector = StringMap::new()
        .with("clip.vision.patch_size".to_owned(), uint(2))
        .with("clip.vision.video.frame_count".to_owned(), uint(5));
    let plan = Gemma4ProcessorPlan::from_gguf_metadata(&model, &projector).unwrap();
    assert!(plan.has_image());
    let (policy, frames) = plan.video.unwrap();
    assert_eq!((policy.patch_size, policy.max_soft_tokens, frames), (2, 70, 5));
    let wide = model.with("gemma4.boi_token_id".to_owned(), MetadataValue {
        integer: Some(MetadataInteger::Unsigned(1 << 40)),
        ..nothing()
    });
    assert_eq!(
        message(Gemma4ProcessorPlan::from_gguf_metadata(&wide, &projector)),
        "processor GGUF metadata key \"gemma4.boi_token_id\" must fit u32"
    );
    let negative = StringMap::new().with("clip.vision.patch_size".to_owned(), MetadataValue {
        integer: Some(MetadataInteger::Signed(-1)),
        ..nothing()
    });
    assert_eq!(
        message(Gemma4ProcessorPlan::from_gguf_metadata(&StringMap::new(), &negative)),
        "processor GGUF metadata key \"clip.vision.patch_size\" must be a non-negative integer"
    );
    let blind = StringMap::new().with("clip.has_vision_encoder".to_owned(), MetadataValue {
        as_bool: Some(false),
        ..nothing()
    });
    let plan = Gemma4ProcessorPlan::from_gguf_metadata(&StringMap::new(), &blind).unwrap();
    assert!(!plan.has_image());
}

#[test]
fn inkling_plan_owns_markers_patch_grid_and_dmel_policy() {
    let plan = InklingProcessorPlan::from_hf_json(Ok(InklingSource {
        model_type: "inkling_mm_model".to_owned(),
        image_bos_token_id: 7,
        audio_bos_token_id: 8,
        audio_config: Some(InklingAudioSource {
            mel_vocab_size: 32,
            dmel_min_value: float(-8.0),
            dmel_max_value: float(3.0),
        }),
    }))
    .unwrap()
    .unwrap();
    let image = plan.image(40, 40).unwrap();
    assert_eq!(image.start_token_id, 7);
    assert_eq!((image.patch_rows, image.patch_columns), (1, 2));
    let audio = plan.audio().unwrap();
    assert_eq!(audio.start_token_id, 8);
    assert_eq!((audio.mel_bins, audio.dmel_bins), (80, 32));
    assert_eq!(audio.window, AudioWindow::PeriodicHann);
    assert_eq!(audio.framing.leading_zeros, 800);
    assert_eq!(audio.framing.frame_count, AudioFrameCount::InputDivHopCeil);
    assert_eq!(audio.framing.trailing_padding_value, float(0.0));
    assert_eq!((audio.min_frequency, audio.max_frequency), (float(0.0), float(8_000.0)));
    assert_eq!(audio.mel_scale, MelScale::Slaney);
    assert_eq!(audio.mel_normalization, MelNormalization::SlaneyArea);
    assert_eq!(audio.spectrum, SpectrumValue::Magnitude);
    assert_eq!(audio.logarithm, Logarithm::Base10);
    assert_eq!(audio.energy_floor, float(1e-10));
}

fn inkling(model_type: &str, bins: usize, low: f32, high: f32) -> InklingSource {
    InklingSource {
        model_type: model_type.to_owned(),
        image_bos_token_id: INKLING_IMAGE_BOS,
        audio_bos_token_id: INKLING_AUDIO_BOS,
        audio_config: Some(InklingAudioSource {
            mel_vocab_size: bins,
            dmel_min_value: float(low),
            dmel_max_value: float(high),
        }),
    }
}

#[test]
fn inkling_plans_need_a_range_and_its_own_model() {
    let planned = |source: InklingSource| InklingProcessorPlan::from_hf_json(Ok(source));
    assert!(planned(inkling("inkling", 0, 0.0, 0.0)).unwrap().is_none());
    for (bins, low, high) in [
        (1, 0.0, 1.0),
        (2, 1.0, 1.0),
        (2, 1.0, -1.0),
        (2, f32::NEG_INFINITY, 1.0),
        (2, 0.0, f32::NAN),
        (2, -0.0, 0.0),
    ] {
        assert_eq!(
            message(planned(inkling("inkling_mm_model", bins, low, high))),
            "invalid Inkling dMel bin configuration"
        );
    }
    assert!(planned(inkling("inkling_mm_model", 2, -2.0, -1.0)).unwrap().is_some());
    assert_eq!(message(InklingProcessorPlan::from_hf_json(undecodable())), "json");
}

#[test]
fn inkling_tokens_are_bound_after_the_fact() {
    let mut plan = InklingProcessorPlan::from_gguf_metadata().unwrap();
    assert!(!plan.has_token_ids());
    assert_eq!(
        message(plan.image(1, 1)),
        "Inkling GGUF image framing token ID is unresolved"
    );
    assert_eq!(message(plan.audio()), "Inkling GGUF audio framing token ID is unresolved");
    plan.bind_token_ids(3, 4);
    assert_eq!(plan, InklingProcessorPlan::from_gguf_token_ids(3, 4).unwrap());
    let image = plan.image(81, 79).unwrap();
    assert_eq!((image.patch_rows, image.patch_columns), (3, 2));
    assert_eq!(image.padding_value, float(-1.0));
    assert_eq!(
        image.mean,
        Channels {
            red: float(0.481_454_66),
            green: float(0.457_827_5),
            blue: float(0.408_210_73)
        }
    );
    assert_eq!(message(plan.image(0, 1)), "Inkling image dimensions must be positive");
}

fn muse_plan() -> MuseProcessorPlan {
    MuseProcessorPlan::from_hf_json(Ok(MuseProcessorSource {
        image_processor: MuseVisualSource::default(),
        video_processor: MuseVisualSource::default(),
    }))
    .unwrap()
}

fn grid_steps(height: usize, width: usize, patch: usize, tokens: usize) -> GridSteps {
    let mut rows = height as f64 / patch as f64;
    let mut columns = width as f64 / patch as f64;
    let ratio = columns / rows;
    if rows * columns > tokens as f64 {
        rows = (tokens as f64 / ratio).sqrt();
        columns = rows * ratio;
    }
    let target = height as f64 / width as f64;
    let candidate = |rows: f64, columns: f64| GridCandidate {
        rows: rows as usize,
        columns: columns as usize,
        distance: (rows / columns - target).abs().to_bits(),
    };
    GridSteps {
        low: candidate(rows.floor(), columns.floor()),
        low_high: candidate(rows.floor(), columns.ceil()),
        high_low: candidate(rows.ceil(), columns.floor()),
        high: candidate(rows.ceil(), columns.ceil()),
        nearest: candidate(rows.round().max(1.0), columns.round().max(1.0)),
    }
}

#[test]
fn muse_plan_owns_resize_video_groups_and_text_framing() {
    let plan = muse_plan();
    for (height, width) in [(1200, 800), (800, 1200), (28, 4096), (4096, 28)] {
        let image = plan.image(height, width, &grid_steps(height, width, 28, 4096)).unwrap();
        assert_eq!(image.transform.height % 28, 0);
        assert_eq!(image.transform.width % 28, 0);
        assert!(image.transform.height / 28 * (image.transform.width / 28) <= 4096);
    }
    let steps = MuseVideoSteps {
        requested: 0,
        positions: positions(4, 4),
        seconds: vec!["0.0".to_owned(), "1.0".to_owned()],
        grid: grid_steps(800, 1200, 28, 144),
    };
    let video = plan
        .video(4, 800, 1200, &Some(rate(2.0)), &VideoSampling::All, &steps)
        .unwrap();
    assert_eq!(video.start_text, "<|vid_start|>");
    assert_eq!(video.groups.len(), 2);
    assert_eq!(video.groups[0].timestamp_text, "Time: 0.0s");
    assert_eq!(video.groups[0].boundary_text, "<|vid_frame_separator|>");
    assert_eq!(video.groups[1].boundary_text, "<|vid_end|>");
    assert_eq!(video.groups[1].timestamp_text, "Time: 1.0s");
    assert_eq!(video.groups[1].source_indices, [2, 3]);
}

#[test]
fn muse_grids_stay_closest_to_the_input() {
    let plan = muse_plan();
    let image = plan.image(1200, 800, &grid_steps(1200, 800, 28, 4096)).unwrap();
    assert_eq!((image.transform.height, image.transform.width), (42 * 28, 28 * 28));
    assert_eq!((image.start_text, image.end_text), ("<|image_start|>", "<|image_end|>"));
    // Thinner than one patch: no candidate is admissible and one row remains.
    let thin = plan.image(7, 140_000, &grid_steps(7, 140_000, 28, 4096)).unwrap();
    assert_eq!(thin.transform.height, 28);
    assert_eq!(
        message(plan.image(0, 1, &grid_steps(1, 1, 28, 4096))),
        "Muse-Glimmer smart resize requires positive dimensions"
    );
}

#[test]
fn muse_documents_are_checked() {
    assert_eq!(message(MuseProcessorPlan::from_hf_json(undecodable())), "json");
    let planned = |image: MuseVisualSource, video: MuseVisualSource| {
        message(MuseProcessorPlan::from_hf_json(Ok(MuseProcessorSource {
            image_processor: image,
            video_processor: video,
        })))
    };
    let mut image = MuseVisualSource::default();
    image.fps = rate(f64::INFINITY);
    assert_eq!(
        planned(image, MuseVisualSource::default()),
        "Muse-Glimmer image processor dimensions, rates, and token limits must be positive"
    );
    let mut video = MuseVisualSource::default();
    video.resample = 3;
    assert_eq!(
        planned(MuseVisualSource::default(), video),
        "Muse-Glimmer video processor requires Lanczos resample mode 1, got 3"
    );
}

#[test]
fn muse_projectors_are_image_only() {
    let projector = StringMap::new()
        .with("clip.vision.patch_size".to_owned(), uint(2))
        .with("clip.vision.spatial_merge_size".to_owned(), uint(2))
        .with("clip.vision.image_mean".to_owned(), floats(vec![0.0; 3]))
        .with("clip.vision.image_std".to_owned(), floats(vec![1.0; 3]));
    let plan = MuseProcessorPlan::from_gguf_metadata(&projector).unwrap();
    assert!(plan.image_only);
    assert_eq!(plan.image.temporal_patch_size, 1);
    assert_eq!(
        message(plan.video_sample_count(4, &None, &VideoSampling::All, 0)),
        "the official Muse-Glimmer GGUF projector is image-only because its temporal patch weights are collapsed"
    );
    let empty = GridCandidate { rows: 0, columns: 0, distance: 0 };
    let idle = MuseVideoSteps {
        requested: 0,
        positions: Vec::new(),
        seconds: Vec::new(),
        grid: GridSteps {
            low: empty,
            low_high: empty,
            high_low: empty,
            high: empty,
            nearest: empty,
        },
    };
    assert_eq!(
        message(plan.video(4, 56, 56, &None, &VideoSampling::All, &idle)),
        "the official Muse-Glimmer GGUF projector is image-only because its temporal patch weights are collapsed"
    );
    let zero = projector.with("clip.vision.spatial_merge_size".to_owned(), uint(0));
    assert_eq!(
        message(MuseProcessorPlan::from_gguf_metadata(&zero)),
        "Muse-Glimmer projector GGUF requires positive integer metadata \"clip.vision.spatial_merge_size\""
    );
    assert_eq!(
        message(MuseProcessorPlan::from_gguf_metadata(&StringMap::new())),
        "Muse-Glimmer projector GGUF requires three Float32 values in \"clip.vision.image_mean\""
    );
}

#[test]
fn muse_videos_take_whole_groups() {
    let plan = muse_plan();
    let count = |total: usize, sampling: VideoSampling, requested: usize| {
        plan.video_sample_count(total, &None, &sampling, requested).unwrap()
    };
    assert_eq!(count(100, VideoSampling::FrameCount(5), 0), 4);
    assert_eq!(count(100, VideoSampling::FrameCount(0), 0), 2);
    assert_eq!(count(1, VideoSampling::All, 0), 1);
    assert_eq!(count(1000, VideoSampling::ProcessorDefault, 500), 96);
    assert_eq!(
        message(plan.video_sample_count(1, &None, &VideoSampling::Fps(rate(0.0)), 0)),
        "Muse-Glimmer target FPS must be finite and positive, got 0"
    );
}

#[test]
fn sampling_helpers_keep_their_bounds() {
    let even = |requested: usize| {
        sampled_frame_count(10, &rate(24.0), &rate(2.0), 4, 8, requested).unwrap()
    };
    assert_eq!((even(0), even(6), even(100)), (4, 6, 8));
    assert_eq!(sampled_frame_count(2, &rate(24.0), &rate(2.0), 4, 8, 0).unwrap(), 2);
    assert_eq!(
        message(sampled_frame_count(2, &rate(24.0), &rate(2.0), 0, 8, 0)),
        "video frame limits must be positive and ordered, got 0..8"
    );
    assert_eq!(uniform_sample_indices(9, 1, &Vec::new()).unwrap(), [0]);
    assert_eq!(uniform_sample_indices(9, 3, &positions(9, 3)).unwrap(), [0, 4, 8]);
    let mut frames = vec![1, 2, 3];
    pad_frame_indices(&mut frames, 2).unwrap();
    assert_eq!(frames, [1, 2, 3, 3]);
    let mut none: Vec<usize> = Vec::new();
    assert_eq!(
        message(pad_frame_indices(&mut none, 2)),
        "temporal frame padding requires frames and a positive factor"
    );
}

#[test]
fn sidecar_files_have_their_conventional_names() {
    assert_eq!(PROCESSOR_CONFIG_FILENAME, "preprocessor_config.json");
    assert_eq!(VIDEO_PROCESSOR_CONFIG_FILENAME, "video_preprocessor_config.json");
    assert_eq!(MUSE_PROCESSOR_CONFIG_FILENAME, "processor_config.json");
}

#[test]
fn oversized_steps_are_recognized() {
    let steps = resize_steps(8, 8, 64, 4, 16, 64);
    assert!(steps.fits(4));
    assert!(!ResizeSteps { grown_width: usize::MAX, ..steps }.fits(2));
    let grid = grid_steps(1200, 800, 28, 4096);
    assert!(grid.fits(28, 4096));
    assert!(!grid.fits(usize::MAX, 4096));
    let policy = Gemma4VisualPolicy {
        patch_size: 16,
        pooling_kernel_size: 3,
        max_soft_tokens: 280,
    };
    assert!(resize_fits(&policy, 320, 480, scaled_sides(320, 480, 16, 2520)));
    let whole = ScaledSides { height: usize::MAX, width: usize::MAX };
    assert!(!resize_fits(&policy, 320, 480, whole));
}
