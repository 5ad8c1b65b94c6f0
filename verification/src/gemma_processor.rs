//! Gemma 4 image, video, and audio processor policy.

use crate::errors::{
    Decoded, Fault, ProcessorPlanError, Reading, answers, fault_if, fault_of, first_of, refuses,
    unplanned,
};
use crate::float::Float32;
use crate::media::{
    BYTE_SCALE, EIGHT_THOUSAND, FrameRate, MediaFraming, ONE, RgbResample, RgbTransformPlan,
    VideoSampling, ZERO, channels, clamp_count, clamped, even_channels, framing_reading, least,
    lesser, limited_frames, optional_framing, positions_cover, sampled_frame_count, sampled_frames,
    sampling_fault, saturated, saturating_product, source_rate, source_rate_fault, target_fault,
    uniform_sample_indices, validate_fps,
};
use crate::media_metadata::{
    optional_metadata_u32, optional_metadata_usize, optional_u32, optional_usize,
};
use crate::metadata::MetadataValue;
use crate::names::StringMap;
use crate::text::{
    decimal, decimal_text, has_prefix, push_item, starts_with, two_digit_text, two_digits,
};
use vstd::prelude::*;

verus! {

/// Patch side length where none is declared.
pub const GEMMA_PATCH_SIZE: usize = 16;

/// Pooling side length where none is declared.
pub const GEMMA_POOLING_SIZE: usize = 3;

/// Image tokens where none are declared.
pub const GEMMA_SOFT_TOKENS: usize = 280;

/// Video frame tokens where none are declared.
pub const GEMMA_VIDEO_SOFT_TOKENS: usize = 70;

/// Video frames where none are declared.
pub const GEMMA_VIDEO_FRAMES: usize = 32;

/// Encoding of the floor of mel features before the logarithm: one thousandth.
pub const GEMMA_MEL_FLOOR: u32 = 0x3a83_126f;

/// Vision settings of a model configuration.
#[derive(Debug, Clone, Copy, PartialEq, Eq, Structural)]
pub struct Gemma4VisionSource {
    /// Patch side length.
    pub patch_size: usize,
    /// Pooling side length.
    pub pooling_kernel_size: usize,
}

/// Model configuration.
#[derive(Debug)]
pub struct Gemma4ModelSource {
    /// Opening image token.
    pub boi_token_id: Option<u32>,
    /// Closing image token.
    pub eoi_token_id: Option<u32>,
    /// Opening audio token.
    pub boa_token_id: Option<u32>,
    /// Closing audio token.
    pub eoa_token_id: Option<u32>,
    /// Opening audio token in its other spelling, which may stand beside the first.
    pub boa_token_index: Option<u32>,
    /// Closing audio token in its other spelling, which may stand beside the first.
    pub eoa_token_index: Option<u32>,
    /// Image tokens.
    pub vision_soft_tokens_per_image: usize,
    /// Vision settings.
    pub vision_config: Option<Decoded<Gemma4VisionSource>>,
    /// Whether the model declares an audio tower.
    pub has_audio_config: bool,
}

/// Image processor configuration.
#[derive(Debug, Clone, Copy, PartialEq, Eq, Structural)]
pub struct Gemma4ImageProcessorSource {
    /// Patch side length.
    pub patch_size: Option<usize>,
    /// Pooling side length.
    pub pooling_kernel_size: Option<usize>,
    /// Image tokens.
    pub max_soft_tokens: Option<usize>,
}

impl Default for Gemma4ImageProcessorSource {
    fn default() -> (r: Gemma4ImageProcessorSource)
        ensures
            r.patch_size is None && r.pooling_kernel_size is None && r.max_soft_tokens is None,
    {
        Gemma4ImageProcessorSource {
            patch_size: None,
            pooling_kernel_size: None,
            max_soft_tokens: None,
        }
    }
}

/// Video processor configuration.
#[derive(Debug, Clone, Copy, PartialEq, Eq, Structural)]
pub struct Gemma4VideoProcessorSource {
    /// Patch side length.
    pub patch_size: usize,
    /// Pooling side length.
    pub pooling_kernel_size: usize,
    /// Frame tokens.
    pub max_soft_tokens: usize,
    /// Frames.
    pub num_frames: usize,
}

/// Video configuration where none is declared.
pub open spec fn default_video() -> Gemma4VideoProcessorSource {
    Gemma4VideoProcessorSource {
        patch_size: GEMMA_PATCH_SIZE,
        pooling_kernel_size: GEMMA_POOLING_SIZE,
        max_soft_tokens: GEMMA_VIDEO_SOFT_TOKENS,
        num_frames: GEMMA_VIDEO_FRAMES,
    }
}

impl Default for Gemma4VideoProcessorSource {
    fn default() -> (r: Gemma4VideoProcessorSource)
        ensures
            r == default_video(),
    {
        Gemma4VideoProcessorSource {
            patch_size: GEMMA_PATCH_SIZE,
            pooling_kernel_size: GEMMA_POOLING_SIZE,
            max_soft_tokens: GEMMA_VIDEO_SOFT_TOKENS,
            num_frames: GEMMA_VIDEO_FRAMES,
        }
    }
}

/// Patch geometry and token budget of one modality.
#[derive(Debug, Clone, Copy, PartialEq, Eq, Structural)]
pub struct Gemma4VisualPolicy {
    /// Patch side length.
    pub patch_size: usize,
    /// Pooling side length.
    pub pooling_kernel_size: usize,
    /// Token budget.
    pub max_soft_tokens: usize,
}

/// Complete Gemma 4 image preprocessing plan.
#[derive(Debug, Clone, Copy, PartialEq, Eq, Structural)]
pub struct Gemma4ImagePlan {
    /// Family framing token IDs.
    pub framing: MediaFraming,
    /// RGB resize and normalization.
    pub transform: RgbTransformPlan,
    /// Spatial patch side length.
    pub patch_size: usize,
    /// Padded patch count emitted by the backend.
    pub max_patches: usize,
}

/// One selected and framed Gemma 4 video frame.
#[derive(Debug, Clone)]
pub struct Gemma4VideoFramePlan {
    /// Source frame index.
    pub source_index: usize,
    /// Family timestamp text to tokenize before the opening token.
    pub timestamp_text: String,
}

impl DeepView for Gemma4VideoFramePlan {
    type V = (usize, Seq<char>);

    open spec fn deep_view(&self) -> (usize, Seq<char>) {
        (self.source_index, self.timestamp_text@)
    }
}

/// Complete Gemma 4 video preprocessing plan.
#[derive(Debug, Clone)]
pub struct Gemma4VideoPlan {
    /// Family framing token IDs used for every selected frame.
    pub framing: MediaFraming,
    /// RGB resize and normalization shared by all selected frames.
    pub transform: RgbTransformPlan,
    /// Spatial patch side length.
    pub patch_size: usize,
    /// Padded patch count emitted for every frame.
    pub max_patches: usize,
    /// Ordered selected source frames and timestamp text.
    pub frames: Vec<Gemma4VideoFramePlan>,
}

/// Backend-executed Gemma 4 log-mel feature policy.
#[derive(Debug, Clone, Copy, PartialEq, Eq, Structural)]
pub struct Gemma4AudioPlan {
    /// Family framing token IDs.
    pub framing: MediaFraming,
    /// Expected waveform sample rate.
    pub sample_rate: u32,
    /// Analysis frame length in samples.
    pub frame_length: usize,
    /// Analysis hop length in samples.
    pub hop_length: usize,
    /// FFT length.
    pub fft_length: usize,
    /// Number of mel bands.
    pub mel_bins: usize,
    /// Lower mel filter frequency.
    pub min_frequency: Float32,
    /// Upper mel filter frequency.
    pub max_frequency: Float32,
    /// Feature floor before logarithm.
    pub mel_floor: Float32,
    /// Maximum waveform sample count.
    pub max_samples: usize,
    /// Feature frames are padded to this multiple.
    pub pad_to_multiple: usize,
}

/// Normalized Gemma 4 image, video, and audio processor policy.
#[derive(Debug, Clone, Copy)]
pub struct Gemma4ProcessorPlan {
    /// Image policy.
    pub image: Option<Gemma4VisualPolicy>,
    /// Video policy and frame count.
    pub video: Option<(Gemma4VisualPolicy, usize)>,
    /// Image and video framing.
    pub image_framing: Option<MediaFraming>,
    /// Audio framing.
    pub audio_framing: Option<MediaFraming>,
    /// Whether audio is processed.
    pub has_audio: bool,
}

/// Whether `tokens` is a released token budget.
pub open spec fn released_budget(tokens: usize) -> bool {
    tokens == 70 || tokens == 140 || tokens == 280 || tokens == 560 || tokens == 1120
}

/// Fault of the policy of one modality.
pub open spec fn policy_fault(kind: Seq<char>, policy: Gemma4VisualPolicy) -> Option<Fault> {
    first_of(
        fault_if(
            policy.patch_size == 0 || policy.pooling_kernel_size == 0,
            "Gemma 4 "@ + kind + " patch and pooling sizes must be positive"@,
        ),
        fault_if(
            !released_budget(policy.max_soft_tokens),
            "Gemma 4 "@ + kind
                + " max_soft_tokens must be one of 70, 140, 280, 560, or 1120, got "@ + decimal(
                policy.max_soft_tokens as nat,
            ),
        ),
    )
}

fn check_policy(kind: &str, policy: &Gemma4VisualPolicy) -> (r: Result<(), ProcessorPlanError>)
    ensures
        match policy_fault(kind@, *policy) {
            Some(fault) => refuses(r, fault),
            None => r is Ok,
        },
{
    if policy.patch_size == 0 || policy.pooling_kernel_size == 0 {
        return Err(
            ProcessorPlanError::Invalid(
                "Gemma 4 ".to_owned().concat(kind).concat(
                    " patch and pooling sizes must be positive",
                ),
            ),
        );
    }
    let tokens: usize = policy.max_soft_tokens;
    if !(tokens == 70 || tokens == 140 || tokens == 280 || tokens == 560 || tokens == 1120) {
        return Err(
            ProcessorPlanError::Invalid(
                "Gemma 4 ".to_owned().concat(kind).concat(
                    " max_soft_tokens must be one of 70, 140, 280, 560, or 1120, got ",
                ).concat(decimal_text(tokens as u64).as_str()),
            ),
        );
    }
    Ok(())
}

impl Gemma4ProcessorPlan {
    /// Fault of the policy.
    pub open spec fn fault(self) -> Option<Fault> {
        first_of(
            match self.image {
                Some(policy) => policy_fault("image"@, policy),
                None => None,
            },
            first_of(
                match self.video {
                    Some(video) => policy_fault("video"@, video.0),
                    None => None,
                },
                fault_if(
                    self.video matches Some(video) && video.1 == 0,
                    "Gemma 4 video processor requires a positive frame count"@,
                ),
            ),
        )
    }

    fn validate(&self) -> (r: Result<(), ProcessorPlanError>)
        ensures
            match self.fault() {
                Some(fault) => refuses(r, fault),
                None => r is Ok,
            },
    {
        if let Some(policy) = &self.image {
            check_policy("image", policy)?;
        }
        if let Some(video) = &self.video {
            check_policy("video", &video.0)?;
            if video.1 == 0 {
                return Err(
                    unplanned("Gemma 4 video processor requires a positive frame count"),
                );
            }
        }
        Ok(())
    }
}

/// The first of two optional tokens.
pub open spec fn either(first: Option<u32>, second: Option<u32>) -> Option<u32> {
    if first is Some {
        first
    } else {
        second
    }
}

fn either_token(first: Option<u32>, second: Option<u32>) -> (r: Option<u32>)
    ensures
        r == either(first, second),
{
    if first.is_some() {
        first
    } else {
        second
    }
}

/// Decoded Hugging Face documents of a model.
pub struct GemmaDocuments {
    /// Model configuration.
    pub model: Decoded<Gemma4ModelSource>,
    /// Image processor configuration.
    pub image: Option<Decoded<Gemma4ImageProcessorSource>>,
    /// Video processor configuration.
    pub video: Option<Decoded<Gemma4VideoProcessorSource>>,
}

/// Fault of decoding an optional document.
pub open spec fn undecoded<T>(document: Option<Decoded<T>>) -> Option<Fault> {
    match document {
        Some(Err(error)) => Some(Fault::Json(error)),
        _ => None,
    }
}

impl GemmaDocuments {
    /// Fault of decoding the documents: the model, its vision settings, then the processors.
    pub open spec fn decoding_fault(self) -> Option<Fault> {
        match self.model {
            Err(error) => Some(Fault::Json(error)),
            Ok(model) => first_of(
                undecoded(model.vision_config),
                first_of(undecoded(self.image), undecoded(self.video)),
            ),
        }
    }

    /// Vision settings.
    pub open spec fn vision(self) -> Option<Gemma4VisionSource> {
        match self.model->Ok_0.vision_config {
            Some(Ok(vision)) => Some(vision),
            _ => None,
        }
    }

    /// Image policy: declared settings first, then those of the model.
    pub open spec fn image_policy(self) -> Option<Gemma4VisualPolicy> {
        let declared = match self.image {
            Some(Ok(image)) => image,
            _ => Gemma4ImageProcessorSource {
                patch_size: None,
                pooling_kernel_size: None,
                max_soft_tokens: None,
            },
        };
        match self.vision() {
            Some(vision) => Some(
                Gemma4VisualPolicy {
                    patch_size: if declared.patch_size is Some {
                        declared.patch_size->0
                    } else {
                        vision.patch_size
                    },
                    pooling_kernel_size: if declared.pooling_kernel_size is Some {
                        declared.pooling_kernel_size->0
                    } else {
                        vision.pooling_kernel_size
                    },
                    max_soft_tokens: if declared.max_soft_tokens is Some {
                        declared.max_soft_tokens->0
                    } else {
                        self.model->Ok_0.vision_soft_tokens_per_image
                    },
                },
            ),
            None => None,
        }
    }

    /// Video policy and frame count.
    pub open spec fn video_policy(self) -> Option<(Gemma4VisualPolicy, usize)> {
        let declared = match self.video {
            Some(Ok(video)) => video,
            _ => default_video(),
        };
        match self.vision() {
            Some(_) => Some(
                (
                    Gemma4VisualPolicy {
                        patch_size: declared.patch_size,
                        pooling_kernel_size: declared.pooling_kernel_size,
                        max_soft_tokens: declared.max_soft_tokens,
                    },
                    declared.num_frames,
                ),
            ),
            None => None,
        }
    }

    /// Image framing.
    pub open spec fn image_framing(self) -> Reading<Option<MediaFraming>> {
        framing_reading(
            self.model->Ok_0.boi_token_id,
            self.model->Ok_0.eoi_token_id,
            "Gemma 4 visual"@,
        )
    }

    /// Audio framing.
    pub open spec fn audio_framing(self) -> Reading<Option<MediaFraming>> {
        framing_reading(
            either(self.model->Ok_0.boa_token_id, self.model->Ok_0.boa_token_index),
            either(self.model->Ok_0.eoa_token_id, self.model->Ok_0.eoa_token_index),
            "Gemma 4 audio"@,
        )
    }

    /// The policy that the documents declare.
    pub open spec fn plan(self) -> Gemma4ProcessorPlan {
        Gemma4ProcessorPlan {
            image: self.image_policy(),
            video: self.video_policy(),
            image_framing: self.image_framing()->Ok_0,
            audio_framing: self.audio_framing()->Ok_0,
            has_audio: self.model->Ok_0.has_audio_config,
        }
    }

    /// The plan that the documents declare; there is none without images and audio.
    pub open spec fn reading(self) -> Reading<Option<Gemma4ProcessorPlan>> {
        match self.fault() {
            Some(fault) => Err(fault),
            None => Ok(
                if self.plan().image is None && !self.plan().has_audio {
                    None
                } else {
                    Some(self.plan())
                },
            ),
        }
    }

    /// Fault of planning from the documents.
    pub open spec fn fault(self) -> Option<Fault> {
        first_of(
            self.decoding_fault(),
            first_of(
                fault_of(self.image_framing()),
                first_of(fault_of(self.audio_framing()), self.plan().fault()),
            ),
        )
    }
}

/// Metadata of a model and its projector.
pub struct GemmaMetadata {
    /// Model metadata.
    pub model: Map<Seq<char>, MetadataValue>,
    /// Projector metadata.
    pub projector: Map<Seq<char>, MetadataValue>,
}

impl GemmaMetadata {
    /// Declared projector setting, or `default`.
    pub open spec fn setting(self, key: Seq<char>, default: usize) -> usize {
        match optional_usize(self.projector, key) {
            Ok(Some(value)) => value,
            _ => default,
        }
    }

    /// Declared projector switch.
    pub open spec fn switch(self, key: Seq<char>) -> Option<bool> {
        if self.projector.contains_key(key) {
            self.projector[key].as_bool
        } else {
            None
        }
    }

    /// Whether the projector processes images: as declared, or where it has vision settings.
    pub open spec fn has_vision(self) -> bool {
        match self.switch("clip.has_vision_encoder"@) {
            Some(declared) => declared,
            None => exists|key: Seq<char>| #[trigger]
                self.projector.contains_key(key) && has_prefix(key, "clip.vision."@),
        }
    }

    /// Fault of a projector setting.
    pub open spec fn setting_fault(self, key: Seq<char>) -> Option<Fault> {
        fault_of(optional_usize(self.projector, key))
    }

    /// Fault of the video geometry.
    pub open spec fn video_fault(self) -> Option<Fault> {
        first_of(
            self.setting_fault("clip.vision.video.patch_size"@),
            self.setting_fault("clip.vision.video.pooling_kernel_size"@),
        )
    }

    /// Image framing.
    pub open spec fn image_framing(self) -> Reading<Option<MediaFraming>> {
        framing_reading(
            optional_u32(self.model, "gemma4.boi_token_id"@)->Ok_0,
            optional_u32(self.model, "gemma4.eoi_token_id"@)->Ok_0,
            "Gemma 4 visual"@,
        )
    }

    /// Audio framing.
    pub open spec fn audio_framing(self) -> Reading<Option<MediaFraming>> {
        framing_reading(
            optional_u32(self.model, "gemma4.boa_token_id"@)->Ok_0,
            optional_u32(self.model, "gemma4.eoa_token_id"@)->Ok_0,
            "Gemma 4 audio"@,
        )
    }

    /// Fault of the framing tokens.
    pub open spec fn framing_fault(self) -> Option<Fault> {
        first_of(
            fault_of(optional_u32(self.model, "gemma4.boi_token_id"@)),
            first_of(
                fault_of(optional_u32(self.model, "gemma4.eoi_token_id"@)),
                first_of(
                    fault_of(self.image_framing()),
                    first_of(
                        fault_of(optional_u32(self.model, "gemma4.boa_token_id"@)),
                        first_of(
                            fault_of(optional_u32(self.model, "gemma4.eoa_token_id"@)),
                            fault_of(self.audio_framing()),
                        ),
                    ),
                ),
            ),
        )
    }

    /// The policy that the metadata declares.
    pub open spec fn plan(self) -> Gemma4ProcessorPlan {
        let patch_size = self.setting("clip.vision.patch_size"@, GEMMA_PATCH_SIZE);
        let pooling = self.setting("clip.vision.pooling_kernel_size"@, GEMMA_POOLING_SIZE);
        Gemma4ProcessorPlan {
            image: if self.has_vision() {
                Some(
                    Gemma4VisualPolicy {
                        patch_size,
                        pooling_kernel_size: pooling,
                        max_soft_tokens: self.setting(
                            "clip.vision.max_soft_tokens"@,
                            GEMMA_SOFT_TOKENS,
                        ),
                    },
                )
            } else {
                None
            },
            video: if self.has_vision() {
                Some(
                    (
                        Gemma4VisualPolicy {
                            patch_size: self.setting("clip.vision.video.patch_size"@, patch_size),
                            pooling_kernel_size: self.setting(
                                "clip.vision.video.pooling_kernel_size"@,
                                pooling,
                            ),
                            max_soft_tokens: self.setting(
                                "clip.vision.video.max_soft_tokens"@,
                                GEMMA_VIDEO_SOFT_TOKENS,
                            ),
                        },
                        self.setting("clip.vision.video.frame_count"@, GEMMA_VIDEO_FRAMES),
                    ),
                )
            } else {
                None
            },
            image_framing: self.image_framing()->Ok_0,
            audio_framing: self.audio_framing()->Ok_0,
            has_audio: self.switch("clip.has_audio_encoder"@) == Some(true),
        }
    }

    /// The plan that the metadata declares.
    pub open spec fn reading(self) -> Reading<Gemma4ProcessorPlan> {
        match self.fault() {
            Some(fault) => Err(fault),
            None => Ok(self.plan()),
        }
    }

    /// Fault of planning from the metadata.
    pub open spec fn fault(self) -> Option<Fault> {
        first_of(
            self.setting_fault("clip.vision.patch_size"@),
            first_of(
                self.setting_fault("clip.vision.pooling_kernel_size"@),
                first_of(
                    self.setting_fault("clip.vision.max_soft_tokens"@),
                    first_of(
                        self.setting_fault("clip.vision.video.max_soft_tokens"@),
                        first_of(
                            self.setting_fault("clip.vision.video.frame_count"@),
                            first_of(
                                self.video_fault(),
                                first_of(self.framing_fault(), self.plan().fault()),
                            ),
                        ),
                    ),
                ),
            ),
        )
    }
}

fn vision_keys(projector: &StringMap<MetadataValue>) -> (r: bool)
    ensures
        r == exists|key: Seq<char>| #[trigger]
            projector@.contains_key(key) && has_prefix(key, "clip.vision."@),
{
    let count: usize = projector.len();
    let mut at: usize = 0;
    while at < count
        invariant
            at <= count,
            count == projector.names().len(),
            projector@.dom() == projector.names().to_set(),
            forall|i: int|
                0 <= i < at ==> !has_prefix(#[trigger] projector.names()[i], "clip.vision."@),
        decreases count - at,
    {
        if starts_with(projector.name_at(at), "clip.vision.") {
            proof {
                let key = projector.names()[at as int];
                assert(projector.names().contains(key));
                assert(projector@.dom().contains(key));
                assert(projector@.contains_key(key) && has_prefix(key, "clip.vision."@));
            }
            return true;
        }
        at = at + 1;
    }
    proof {
        assert forall|key: Seq<char>| #[trigger] projector@.contains_key(key) implies !has_prefix(
            key,
            "clip.vision."@,
        ) by {
            assert(projector.names().to_set().contains(key));
            let i = projector.names().index_of(key);
            assert(projector.names()[i] == key);
        }
    }
    false
}

fn read_switch(projector: &StringMap<MetadataValue>, key: &str) -> (r: Option<bool>)
    ensures
        r == (if projector@.contains_key(key@) {
            projector@[key@].as_bool
        } else {
            None
        }),
{
    match projector.get(key) {
        Some(value) => value.as_bool,
        None => None,
    }
}

fn read_setting(projector: &StringMap<MetadataValue>, key: &str, default: usize) -> (r: Result<
    usize,
    ProcessorPlanError,
>)
    ensures
        match fault_of(optional_usize(projector@, key@)) {
            Some(fault) => refuses(r, fault),
            None => r == Ok::<usize, ProcessorPlanError>(
                match optional_usize(projector@, key@) {
                    Ok(Some(value)) => value,
                    _ => default,
                },
            ),
        },
{
    match optional_metadata_usize(projector, key)? {
        Some(value) => Ok(value),
        None => Ok(default),
    }
}

impl Gemma4ProcessorPlan {
    /// Plans from decoded Hugging Face model and optional visual processor documents.
    pub fn from_hf_json(
        model: Decoded<Gemma4ModelSource>,
        image: Option<Decoded<Gemma4ImageProcessorSource>>,
        video: Option<Decoded<Gemma4VideoProcessorSource>>,
    ) -> (r: Result<Option<Gemma4ProcessorPlan>, ProcessorPlanError>)
        ensures
            answers(r, (GemmaDocuments { model, image, video }).reading()),
    {
        let model: Gemma4ModelSource = match model {
            Ok(model) => model,
            Err(error) => {
                return Err(ProcessorPlanError::Json(error));
            },
        };
        let vision: Option<Gemma4VisionSource> = match model.vision_config {
            Some(Ok(vision)) => Some(vision),
            Some(Err(error)) => {
                return Err(ProcessorPlanError::Json(error));
            },
            None => None,
        };
        let image_source: Gemma4ImageProcessorSource = match image {
            Some(Ok(image)) => image,
            Some(Err(error)) => {
                return Err(ProcessorPlanError::Json(error));
            },
            None => Gemma4ImageProcessorSource::default(),
        };
        let video_source: Gemma4VideoProcessorSource = match video {
            Some(Ok(video)) => video,
            Some(Err(error)) => {
                return Err(ProcessorPlanError::Json(error));
            },
            None => Gemma4VideoProcessorSource::default(),
        };
        let image_policy: Option<Gemma4VisualPolicy> = match vision {
            Some(vision) => Some(
                Gemma4VisualPolicy {
                    patch_size: image_source.patch_size.unwrap_or(vision.patch_size),
                    pooling_kernel_size: image_source.pooling_kernel_size.unwrap_or(
                        vision.pooling_kernel_size,
                    ),
                    max_soft_tokens: image_source.max_soft_tokens.unwrap_or(
                        model.vision_soft_tokens_per_image,
                    ),
                },
            ),
            None => None,
        };
        let video_policy: Option<(Gemma4VisualPolicy, usize)> = match vision {
            Some(_) => Some(
                (
                    Gemma4VisualPolicy {
                        patch_size: video_source.patch_size,
                        pooling_kernel_size: video_source.pooling_kernel_size,
                        max_soft_tokens: video_source.max_soft_tokens,
                    },
                    video_source.num_frames,
                ),
            ),
            None => None,
        };
        let image_framing: Option<MediaFraming> = optional_framing(
            model.boi_token_id,
            model.eoi_token_id,
            "Gemma 4 visual",
        )?;
        let audio_framing: Option<MediaFraming> = optional_framing(
            either_token(model.boa_token_id, model.boa_token_index),
            either_token(model.eoa_token_id, model.eoa_token_index),
            "Gemma 4 audio",
        )?;
        let plan = Gemma4ProcessorPlan {
            image: image_policy,
            video: video_policy,
            image_framing,
            audio_framing,
            has_audio: model.has_audio_config,
        };
        plan.validate()?;
        if plan.image.is_none() && !plan.has_audio {
            Ok(None)
        } else {
            Ok(Some(plan))
        }
    }

    /// Parses processor policy from portable GGUF metadata.
    pub fn from_gguf_metadata(
        model: &StringMap<MetadataValue>,
        projector: &StringMap<MetadataValue>,
    ) -> (r: Result<Gemma4ProcessorPlan, ProcessorPlanError>)
        ensures
            answers(r, (GemmaMetadata { model: model@, projector: projector@ }).reading()),
    {
        let has_vision: bool = match read_switch(projector, "clip.has_vision_encoder") {
            Some(declared) => declared,
            None => vision_keys(projector),
        };
        let patch_size: usize = read_setting(
            projector,
            "clip.vision.patch_size",
            GEMMA_PATCH_SIZE,
        )?;
        let pooling_kernel_size: usize = read_setting(
            projector,
            "clip.vision.pooling_kernel_size",
            GEMMA_POOLING_SIZE,
        )?;
        let max_soft_tokens: usize = read_setting(
            projector,
            "clip.vision.max_soft_tokens",
            GEMMA_SOFT_TOKENS,
        )?;
        let video_max_soft_tokens: usize = read_setting(
            projector,
            "clip.vision.video.max_soft_tokens",
            GEMMA_VIDEO_SOFT_TOKENS,
        )?;
        let video_num_frames: usize = read_setting(
            projector,
            "clip.vision.video.frame_count",
            GEMMA_VIDEO_FRAMES,
        )?;
        let video_patch_size: usize = read_setting(
            projector,
            "clip.vision.video.patch_size",
            patch_size,
        )?;
        let video_pooling: usize = read_setting(
            projector,
            "clip.vision.video.pooling_kernel_size",
            pooling_kernel_size,
        )?;
        let boi: Option<u32> = optional_metadata_u32(model, "gemma4.boi_token_id")?;
        let eoi: Option<u32> = optional_metadata_u32(model, "gemma4.eoi_token_id")?;
        let image_framing: Option<MediaFraming> = optional_framing(boi, eoi, "Gemma 4 visual")?;
        let boa: Option<u32> = optional_metadata_u32(model, "gemma4.boa_token_id")?;
        let eoa: Option<u32> = optional_metadata_u32(model, "gemma4.eoa_token_id")?;
        let audio_framing: Option<MediaFraming> = optional_framing(boa, eoa, "Gemma 4 audio")?;
        let has_audio: bool = match read_switch(projector, "clip.has_audio_encoder") {
            Some(declared) => declared,
            None => false,
        };
        let plan = Gemma4ProcessorPlan {
            image: if has_vision {
                Some(Gemma4VisualPolicy { patch_size, pooling_kernel_size, max_soft_tokens })
            } else {
                None
            },
            video: if has_vision {
                Some(
                    (
                        Gemma4VisualPolicy {
                            patch_size: video_patch_size,
                            pooling_kernel_size: video_pooling,
                            max_soft_tokens: video_max_soft_tokens,
                        },
                        video_num_frames,
                    ),
                )
            } else {
                None
            },
            image_framing,
            audio_framing,
            has_audio,
        };
        plan.validate()?;
        Ok(plan)
    }

    /// Whether the model declares a visual processor.
    pub fn has_image(&self) -> (r: bool)
        ensures
            r == self.image is Some,
    {
        self.image.is_some()
    }

    /// Whether the model declares an audio processor.
    pub fn has_audio(&self) -> (r: bool)
        ensures
            r == self.has_audio,
    {
        self.has_audio
    }

    /// Feature policy of audio that nothing refuses.
    pub open spec fn audio_plan(self) -> Gemma4AudioPlan {
        Gemma4AudioPlan {
            framing: self.audio_framing->0,
            sample_rate: 16_000,
            frame_length: 320,
            hop_length: 160,
            fft_length: 512,
            mel_bins: 128,
            min_frequency: Float32 { bits: ZERO },
            max_frequency: Float32 { bits: EIGHT_THOUSAND },
            mel_floor: Float32 { bits: GEMMA_MEL_FLOOR },
            max_samples: 480_000,
            pad_to_multiple: 128,
        }
    }

    /// Returns the architecture-declared audio framing and feature policy.
    pub fn audio(&self) -> (r: Result<Gemma4AudioPlan, ProcessorPlanError>)
        ensures
            match first_of(
                fault_if(!self.has_audio, "Gemma 4 model has no audio processor"@),
                fault_if(
                    self.audio_framing is None,
                    "Gemma 4 audio processor requires boa_token_id and eoa_token_id"@,
                ),
            ) {
                Some(fault) => refuses(r, fault),
                None => r == Ok::<Gemma4AudioPlan, ProcessorPlanError>(self.audio_plan()),
            },
    {
        if !self.has_audio {
            return Err(unplanned("Gemma 4 model has no audio processor"));
        }
        match self.audio_framing {
            None => Err(
                unplanned("Gemma 4 audio processor requires boa_token_id and eoa_token_id"),
            ),
            Some(framing) => Ok(
                Gemma4AudioPlan {
                    framing,
                    sample_rate: 16_000,
                    frame_length: 320,
                    hop_length: 160,
                    fft_length: 512,
                    mel_bins: 128,
                    min_frequency: Float32 { bits: ZERO },
                    max_frequency: Float32 { bits: EIGHT_THOUSAND },
                    mel_floor: Float32 { bits: GEMMA_MEL_FLOOR },
                    max_samples: 480_000,
                    pad_to_multiple: 128,
                },
            ),
        }
    }
}

/// Patches that a token budget covers.
pub open spec fn patch_budget(policy: Gemma4VisualPolicy) -> int {
    policy.max_soft_tokens * (policy.pooling_kernel_size * policy.pooling_kernel_size)
}

/// Multiple that both sides of a resized input keep.
pub open spec fn side_multiple(policy: Gemma4VisualPolicy) -> int {
    policy.patch_size * policy.pooling_kernel_size
}

/// Longest side of a resized input.
pub open spec fn longest_side(policy: Gemma4VisualPolicy) -> int {
    (patch_budget(policy) / (policy.pooling_kernel_size * policy.pooling_kernel_size))
        * side_multiple(policy)
}

/// Sides of an input scaled to the whole patch budget, in the same aspect ratio.
#[derive(Debug, Clone, Copy, PartialEq, Eq, Structural)]
pub struct ScaledSides {
    /// Height, rounded down.
    pub height: usize,
    /// Width, rounded down.
    pub width: usize,
}

impl ScaledSides {
    /// The longer side stays the longer one.
    pub open spec fn keeps_order(self, height: int, width: int) -> bool {
        &&& height <= width ==> self.height <= self.width
        &&& width <= height ==> self.width <= self.height
    }

    /// Both sides are scaled by `scale / unit` and rounded down.
    pub open spec fn at_scale(self, height: int, width: int, scale: int, unit: int) -> bool {
        &&& scale > 0
        &&& unit > 0
        &&& self.height == (scale * height) / unit
        &&& self.width == (scale * width) / unit
    }

    /// Height for width.
    pub open spec fn exchanged(self) -> ScaledSides {
        ScaledSides { height: self.width, width: self.height }
    }
}

/// The largest multiple of `multiple` at or below `side`.
pub open spec fn floored(side: int, multiple: int) -> int {
    (side / multiple) * multiple
}

/// Sides of a resized input. A side that would vanish keeps one multiple, and the other then
/// follows the aspect ratio up to the longest side.
pub open spec fn gemma_sides(
    policy: Gemma4VisualPolicy,
    height: int,
    width: int,
    scaled: ScaledSides,
) -> (int, int) {
    let multiple = side_multiple(policy);
    let tall = floored(scaled.height as int, multiple);
    let wide = floored(scaled.width as int, multiple);
    if tall == 0 {
        (multiple, lesser(saturated(width / height, multiple), longest_side(policy)))
    } else if wide == 0 {
        (lesser(saturated(height / width, multiple), longest_side(policy)), multiple)
    } else {
        (tall, wide)
    }
}

/// Pixels that a patch budget covers.
pub open spec fn pixel_budget(policy: Gemma4VisualPolicy) -> int {
    patch_budget(policy) * policy.patch_size * policy.patch_size
}

/// Fault of the patch budget of a policy.
pub open spec fn budget_fault(policy: Gemma4VisualPolicy) -> Option<Fault> {
    first_of(
        fault_if(
            policy.pooling_kernel_size * policy.pooling_kernel_size > usize::MAX,
            "Gemma 4 pooling area overflow"@,
        ),
        fault_if(patch_budget(policy) > usize::MAX, "Gemma 4 patch budget overflow"@),
    )
}

/// Fault of resizing an input.
pub open spec fn sides_fault(
    policy: Gemma4VisualPolicy,
    height: int,
    width: int,
    scaled: ScaledSides,
) -> Option<Fault> {
    let multiple = side_multiple(policy);
    let sides = gemma_sides(policy, height, width, scaled);
    first_of(
        fault_if(
            height == 0 || width == 0 || policy.patch_size == 0 || policy.pooling_kernel_size == 0
                || patch_budget(policy) == 0,
            "Gemma 4 image processor dimensions must be positive"@,
        ),
        first_of(
            fault_if(multiple > usize::MAX, "Gemma 4 resize multiple overflow"@),
            first_of(
                fault_if(
                    floored(scaled.height as int, multiple) == 0 && floored(
                        scaled.width as int,
                        multiple,
                    ) == 0,
                    "Gemma 4 image is too small for resize multiple "@ + decimal(multiple as nat),
                ),
                fault_if(
                    sides.0 * sides.1 > pixel_budget(policy),
                    "Gemma 4 resize "@ + decimal(sides.0 as nat) + "x"@ + decimal(sides.1 as nat)
                        + " exceeds the "@ + decimal(patch_budget(policy) as nat)
                        + "-patch budget"@,
                ),
            ),
        ),
    )
}

/// Fault of planning a visual input.
pub open spec fn visual_fault(
    policy: Gemma4VisualPolicy,
    height: int,
    width: int,
    scaled: ScaledSides,
) -> Option<Fault> {
    first_of(budget_fault(policy), sides_fault(policy, height, width, scaled))
}

/// Every product that resizing takes fits a machine word.
pub open spec fn sides_fit(
    policy: Gemma4VisualPolicy,
    height: int,
    width: int,
    scaled: ScaledSides,
) -> bool {
    let sides = gemma_sides(policy, height, width, scaled);
    &&& longest_side(policy) <= usize::MAX
    &&& sides.0 * sides.1 <= usize::MAX
    &&& patch_budget(policy) * policy.patch_size <= usize::MAX
    &&& pixel_budget(policy) <= usize::MAX
}

/// Transform of a visual input.
pub open spec fn gemma_transform(sides: (int, int)) -> RgbTransformPlan {
    RgbTransformPlan {
        height: sides.0 as usize,
        width: sides.1 as usize,
        resample: RgbResample::Bicubic,
        rescale_factor: Float32 { bits: BYTE_SCALE },
        mean: even_channels(ZERO),
        std: even_channels(ONE),
    }
}

proof fn lemma_floored(side: int, multiple: int)
    requires
        side >= 0,
        multiple > 0,
    ensures
        0 <= floored(side, multiple) <= side,
        floored(side, multiple) % multiple == 0,
{
    vstd::arithmetic::div_mod::lemma_fundamental_div_mod(side, multiple);
    vstd::arithmetic::div_mod::lemma_div_pos_is_pos(side, multiple);
    assert((side / multiple) * multiple == multiple * (side / multiple)) by (nonlinear_arith);
    assert(0 <= (side / multiple) * multiple) by (nonlinear_arith)
        requires
            0 <= side / multiple,
            multiple > 0,
    ;
    vstd::arithmetic::div_mod::lemma_mod_multiples_basic(side / multiple, multiple);
}

/// Resizes an input to the patch budget in its aspect ratio. `scaled` are its sides at the whole
/// budget.
pub fn gemma_aspect_ratio_preserving_size(
    height: usize,
    width: usize,
    policy: &Gemma4VisualPolicy,
    max_patches: usize,
    scaled: ScaledSides,
) -> (r: Result<(usize, usize), ProcessorPlanError>)
    requires
        budget_fault(*policy) is None,
        max_patches == patch_budget(*policy),
        height > 0 && width > 0 ==> sides_fit(*policy, height as int, width as int, scaled),
    ensures
        match sides_fault(*policy, height as int, width as int, scaled) {
            Some(fault) => refuses(r, fault),
            None => r matches Ok(sides) && (sides.0 as int, sides.1 as int) == gemma_sides(
                *policy,
                height as int,
                width as int,
                scaled,
            ),
        },
{
    let patch_size: usize = policy.patch_size;
    let pooling: usize = policy.pooling_kernel_size;
    if height == 0 || width == 0 || patch_size == 0 || pooling == 0 || max_patches == 0 {
        return Err(unplanned("Gemma 4 image processor dimensions must be positive"));
    }
    let multiple: usize = match patch_size.checked_mul(pooling) {
        Some(multiple) => multiple,
        None => {
            return Err(unplanned("Gemma 4 resize multiple overflow"));
        },
    };
    proof {
        assert(patch_size * pooling > 0) by (nonlinear_arith)
            requires
                patch_size > 0,
                pooling > 0,
        ;
        assert(pooling * pooling > 0) by (nonlinear_arith)
            requires
                pooling > 0,
        ;
        lemma_floored(scaled.height as int, multiple as int);
        lemma_floored(scaled.width as int, multiple as int);
    }
    let mut target_height: usize = (scaled.height / multiple) * multiple;
    let mut target_width: usize = (scaled.width / multiple) * multiple;
    let max_side: usize = (max_patches / (pooling * pooling)) * multiple;
    if target_height == 0 && target_width == 0 {
        return Err(
            ProcessorPlanError::Invalid(
                "Gemma 4 image is too small for resize multiple ".to_owned().concat(
                    decimal_text(multiple as u64).as_str(),
                ),
            ),
        );
    }
    if target_height == 0 {
        target_height = multiple;
        target_width = least(saturating_product(width / height, multiple), max_side);
    } else if target_width == 0 {
        target_width = multiple;
        target_height = least(saturating_product(height / width, multiple), max_side);
    }
    if target_height * target_width > max_patches * patch_size * patch_size {
        return Err(
            ProcessorPlanError::Invalid(
                "Gemma 4 resize ".to_owned().concat(
                    decimal_text(target_height as u64).as_str(),
                ).concat("x").concat(decimal_text(target_width as u64).as_str()).concat(
                    " exceeds the ",
                ).concat(decimal_text(max_patches as u64).as_str()).concat("-patch budget"),
            ),
        );
    }
    Ok((target_height, target_width))
}

/// Whether every product that resizing takes fits a machine word.
pub fn resize_fits(
    policy: &Gemma4VisualPolicy,
    height: usize,
    width: usize,
    scaled: ScaledSides,
) -> (r: bool)
    requires
        policy.patch_size > 0,
        policy.pooling_kernel_size > 0,
        policy.max_soft_tokens > 0,
        height > 0,
        width > 0,
        budget_fault(*policy) is None,
    ensures
        r == sides_fit(*policy, height as int, width as int, scaled),
{
    let pooling: usize = policy.pooling_kernel_size;
    let patch_size: usize = policy.patch_size;
    proof {
        assert(pooling * pooling > 0) by (nonlinear_arith)
            requires
                pooling > 0,
        ;
        assert(patch_size * pooling > 0) by (nonlinear_arith)
            requires
                patch_size > 0,
                pooling > 0,
        ;
        vstd::arithmetic::div_mod::lemma_div_multiples_vanish(
            policy.max_soft_tokens as int,
            pooling * pooling,
        );
        vstd::arithmetic::mul::lemma_mul_is_commutative(
            policy.max_soft_tokens as int,
            pooling * pooling,
        );
        assert(longest_side(*policy) == policy.max_soft_tokens * side_multiple(*policy));
        assert(policy.max_soft_tokens * side_multiple(*policy) >= side_multiple(*policy))
            by (nonlinear_arith)
            requires
                policy.max_soft_tokens >= 1,
                side_multiple(*policy) >= 0,
        ;
    }
    let max_patches: usize = policy.max_soft_tokens * (pooling * pooling);
    let multiple: usize = match patch_size.checked_mul(pooling) {
        Some(multiple) => multiple,
        None => {
            return false;
        },
    };
    let max_side: usize = match policy.max_soft_tokens.checked_mul(multiple) {
        Some(max_side) => max_side,
        None => {
            return false;
        },
    };
    proof {
        lemma_floored(scaled.height as int, multiple as int);
        lemma_floored(scaled.width as int, multiple as int);
        assert(patch_budget(*policy) * patch_size >= 0) by (nonlinear_arith)
            requires
                patch_budget(*policy) >= 0,
                patch_size >= 0,
        ;
    }
    let tall: usize = (scaled.height / multiple) * multiple;
    let wide: usize = (scaled.width / multiple) * multiple;
    let sides: (usize, usize) = if tall == 0 {
        (multiple, least(saturating_product(width / height, multiple), max_side))
    } else if wide == 0 {
        (least(saturating_product(height / width, multiple), max_side), multiple)
    } else {
        (tall, wide)
    };
    if sides.0.checked_mul(sides.1).is_none() {
        return false;
    }
    match max_patches.checked_mul(patch_size) {
        Some(rows) => rows.checked_mul(patch_size).is_some(),
        None => false,
    }
}

fn gemma_visual_plan(
    policy: &Gemma4VisualPolicy,
    height: usize,
    width: usize,
    scaled: ScaledSides,
) -> (r: Result<(RgbTransformPlan, usize), ProcessorPlanError>)
    requires
        budget_fault(*policy) is None && height > 0 && width > 0 ==> sides_fit(
            *policy,
            height as int,
            width as int,
            scaled,
        ),
    ensures
        match visual_fault(*policy, height as int, width as int, scaled) {
            Some(fault) => refuses(r, fault),
            None => r matches Ok(plan) && {
                &&& plan.0 == gemma_transform(
                    gemma_sides(*policy, height as int, width as int, scaled),
                )
                &&& plan.1 == patch_budget(*policy)
            },
        },
{
    let pool_area: usize = match policy.pooling_kernel_size.checked_mul(
        policy.pooling_kernel_size,
    ) {
        Some(area) => area,
        None => {
            return Err(unplanned("Gemma 4 pooling area overflow"));
        },
    };
    let max_patches: usize = match policy.max_soft_tokens.checked_mul(pool_area) {
        Some(patches) => patches,
        None => {
            return Err(unplanned("Gemma 4 patch budget overflow"));
        },
    };
    let (height, width) = gemma_aspect_ratio_preserving_size(
        height,
        width,
        policy,
        max_patches,
        scaled,
    )?;
    Ok(
        (
            RgbTransformPlan {
                height,
                width,
                resample: RgbResample::Bicubic,
                rescale_factor: Float32 { bits: BYTE_SCALE },
                mean: channels(ZERO),
                std: channels(ONE),
            },
            max_patches,
        ),
    )
}

/// Resized sides are positive wherever scaling keeps the longer side the longer one.
pub proof fn law_gemma_sides_are_positive(
    policy: Gemma4VisualPolicy,
    height: int,
    width: int,
    scaled: ScaledSides,
)
    requires
        height > 0,
        width > 0,
        scaled.keeps_order(height, width),
        visual_fault(policy, height, width, scaled) is None,
        sides_fit(policy, height, width, scaled),
    ensures
        gemma_sides(policy, height, width, scaled).0 > 0,
        gemma_sides(policy, height, width, scaled).1 > 0,
{
    let multiple = side_multiple(policy);
    let area = policy.pooling_kernel_size * policy.pooling_kernel_size;
    assert(multiple > 0) by (nonlinear_arith)
        requires
            policy.patch_size > 0,
            policy.pooling_kernel_size > 0,
            multiple == policy.patch_size * policy.pooling_kernel_size,
    ;
    assert(area > 0) by (nonlinear_arith)
        requires
            policy.pooling_kernel_size > 0,
            area == policy.pooling_kernel_size * policy.pooling_kernel_size,
    ;
    lemma_floored(scaled.height as int, multiple);
    lemma_floored(scaled.width as int, multiple);
    let tokens = policy.max_soft_tokens as int;
    assert(tokens > 0) by {
        if tokens == 0 {
            assert(patch_budget(policy) == 0) by (nonlinear_arith)
                requires
                    tokens == 0,
                    patch_budget(policy) == tokens * area,
            ;
        }
    }
    vstd::arithmetic::div_mod::lemma_div_multiples_vanish(tokens, area);
    vstd::arithmetic::mul::lemma_mul_is_commutative(tokens, area);
    lemma_positive_product(tokens, multiple);
    let tall = floored(scaled.height as int, multiple);
    let wide = floored(scaled.width as int, multiple);
    if tall == 0 {
        if width < height {
            lemma_floored_order(scaled.width as int, scaled.height as int, multiple);
        }
        lemma_positive_quotient(width, height);
        lemma_positive_product(width / height, multiple);
    } else if wide == 0 {
        if height < width {
            lemma_floored_order(scaled.height as int, scaled.width as int, multiple);
        }
        lemma_positive_quotient(height, width);
        lemma_positive_product(height / width, multiple);
    }
}

proof fn lemma_positive_product(left: int, right: int)
    requires
        left > 0,
        right > 0,
    ensures
        left * right > 0,
{
    assert(left * right > 0) by (nonlinear_arith)
        requires
            left > 0,
            right > 0,
    ;
}

proof fn lemma_positive_quotient(left: int, right: int)
    requires
        left >= right > 0,
    ensures
        left / right > 0,
{
    assert(left / right > 0) by (nonlinear_arith)
        requires
            left >= right > 0,
    ;
}

proof fn lemma_floored_order(low: int, high: int, multiple: int)
    requires
        0 <= low <= high,
        multiple > 0,
    ensures
        floored(low, multiple) <= floored(high, multiple),
{
    vstd::arithmetic::div_mod::lemma_div_is_ordered(low, high, multiple);
    assert((low / multiple) * multiple <= (high / multiple) * multiple) by (nonlinear_arith)
        requires
            low / multiple <= high / multiple,
            multiple > 0,
    ;
}

/// An input with its sides exchanged is resized to the exchanged sides, and refused where the
/// other one is.
pub proof fn law_gemma_sides_follow_exchanged_inputs(
    policy: Gemma4VisualPolicy,
    height: int,
    width: int,
    scaled: ScaledSides,
)
    ensures
        ({
            let fault = visual_fault(policy, height, width, scaled);
            let sides = gemma_sides(policy, height, width, scaled);
            &&& (visual_fault(policy, width, height, scaled.exchanged()) is None) == (fault is None)
            &&& fault is None ==> gemma_sides(policy, width, height, scaled.exchanged()) == (
                sides.1,
                sides.0,
            )
        }),
{
    let sides = gemma_sides(policy, height, width, scaled);
    assert(sides.0 * sides.1 == sides.1 * sides.0) by (nonlinear_arith);
}

proof fn lemma_scaled_order(low: int, high: int, scale: int, unit: int)
    requires
        low <= high,
        scale > 0,
        unit > 0,
    ensures
        (scale * low) / unit <= (scale * high) / unit,
{
    assert(scale * low <= scale * high) by (nonlinear_arith)
        requires
            low <= high,
            scale > 0,
    ;
    vstd::arithmetic::div_mod::lemma_div_is_ordered(scale * low, scale * high, unit);
}

/// An input whose sides are scaled by one common factor keeps its longer side the longer one. It
/// is resized to positive sides that keep the multiple and stay within the pixel budget, and at
/// the same factor the input with its sides exchanged is resized to the exchanged sides.
pub proof fn law_gemma_sides_at_one_scale(
    policy: Gemma4VisualPolicy,
    height: int,
    width: int,
    scaled: ScaledSides,
    turned: ScaledSides,
    scale: int,
    unit: int,
)
    requires
        height > 0,
        width > 0,
        scaled.at_scale(height, width, scale, unit),
        turned.at_scale(width, height, scale, unit),
        visual_fault(policy, height, width, scaled) is None,
        sides_fit(policy, height, width, scaled),
    ensures
        ({
            let sides = gemma_sides(policy, height, width, scaled);
            let multiple = side_multiple(policy);
            &&& scaled.keeps_order(height, width)
            &&& sides.0 > 0
            &&& sides.1 > 0
            &&& sides.0 % multiple == 0
            &&& sides.1 % multiple == 0
            &&& sides.0 * sides.1 <= pixel_budget(policy)
            &&& visual_fault(policy, width, height, turned) is None
            &&& sides_fit(policy, width, height, turned)
            &&& gemma_sides(policy, width, height, turned) == (sides.1, sides.0)
        }),
{
    if height <= width {
        lemma_scaled_order(height, width, scale, unit);
    }
    if width <= height {
        lemma_scaled_order(width, height, scale, unit);
    }
    assert(turned == scaled.exchanged());
    law_gemma_sides_are_positive(policy, height, width, scaled);
    law_gemma_sides_keep_multiple_and_budget(policy, height, width, scaled);
    law_gemma_sides_follow_exchanged_inputs(policy, height, width, scaled);
    let sides = gemma_sides(policy, height, width, scaled);
    assert(sides.0 * sides.1 == sides.1 * sides.0) by (nonlinear_arith);
}

/// Resized sides keep the multiple and stay within the pixel budget.
pub proof fn law_gemma_sides_keep_multiple_and_budget(
    policy: Gemma4VisualPolicy,
    height: int,
    width: int,
    scaled: ScaledSides,
)
    requires
        height > 0,
        width > 0,
        visual_fault(policy, height, width, scaled) is None,
        sides_fit(policy, height, width, scaled),
    ensures
        ({
            let sides = gemma_sides(policy, height, width, scaled);
            let multiple = side_multiple(policy);
            &&& sides.0 % multiple == 0
            &&& sides.1 % multiple == 0
            &&& sides.0 * sides.1 <= pixel_budget(policy)
        }),
{
    let multiple = side_multiple(policy);
    assert(multiple > 0) by (nonlinear_arith)
        requires
            policy.patch_size > 0,
            policy.pooling_kernel_size > 0,
            multiple == policy.patch_size * policy.pooling_kernel_size,
    ;
    lemma_floored(scaled.height as int, multiple);
    lemma_floored(scaled.width as int, multiple);
    vstd::arithmetic::div_mod::lemma_mod_self_0(multiple);
    vstd::arithmetic::div_mod::lemma_mod_multiples_basic(width / height, multiple);
    vstd::arithmetic::div_mod::lemma_mod_multiples_basic(height / width, multiple);
    vstd::arithmetic::div_mod::lemma_mod_multiples_basic(
        patch_budget(policy) / (policy.pooling_kernel_size * policy.pooling_kernel_size),
        multiple,
    );
}

/// Timestamp before a frame: minutes and seconds, set apart from what precedes it.
pub open spec fn frame_timestamp(seconds: u64, first: bool) -> Seq<char> {
    let clock = two_digits((seconds / 60) as nat) + ":"@ + two_digits((seconds % 60) as nat);
    if first {
        clock + " "@
    } else {
        " "@ + clock + " "@
    }
}

/// Writes the timestamp before a frame.
pub fn gemma_timestamp(seconds: u64, first: bool) -> (r: String)
    ensures
        r@ == frame_timestamp(seconds, first),
{
    let clock: String = two_digit_text(seconds / 60).concat(":").concat(
        two_digit_text(seconds % 60).as_str(),
    );
    if first {
        clock.concat(" ")
    } else {
        " ".to_owned().concat(clock.as_str()).concat(" ")
    }
}

/// Quotients that a video plan takes of its input.
#[derive(Debug, Clone)]
pub struct Gemma4VideoSteps {
    /// Frames that the video's length has at the target rate.
    pub requested: usize,
    /// Evenly spaced positions of the selected frames.
    pub positions: Vec<usize>,
    /// Whole second of every selected frame.
    pub seconds: Vec<u64>,
    /// Frame sides at the whole patch budget.
    pub scaled: ScaledSides,
}

/// Number of frames selected for a video, where nothing faults.
pub open spec fn gemma_frame_count(
    default_frames: int,
    total: int,
    sampling: VideoSampling,
    requested: int,
) -> int {
    match sampling {
        VideoSampling::ProcessorDefault => lesser(default_frames, total),
        VideoSampling::All => total,
        VideoSampling::FrameCount(count) => clamped(count as int, total),
        VideoSampling::Fps(_) => limited_frames(requested, 1, default_frames, total),
    }
}

impl Gemma4VideoSteps {
    /// Frames selected for the video.
    pub open spec fn frames(
        self,
        default_frames: int,
        total: int,
        sampling: VideoSampling,
    ) -> Seq<usize> {
        sampled_frames(
            total,
            gemma_frame_count(default_frames, total, sampling, self.requested as int),
            self.positions@,
        )
    }

    /// Selected frames with their timestamps.
    pub open spec fn framed(self, frames: Seq<usize>) -> Seq<(usize, Seq<char>)> {
        Seq::new(
            frames.len(),
            |i: int| (frames[i], frame_timestamp(self.seconds[i], i == 0)),
        )
    }
}

impl Gemma4ProcessorPlan {
    /// Fault of planning an image.
    pub open spec fn image_fault(self, height: int, width: int, scaled: ScaledSides) -> Option<
        Fault,
    > {
        match self.image {
            None => Some(Fault::Invalid("Gemma 4 model has no image processor"@)),
            Some(policy) => first_of(
                fault_if(
                    self.image_framing is None,
                    "Gemma 4 image processor requires boi_token_id and eoi_token_id"@,
                ),
                visual_fault(policy, height, width, scaled),
            ),
        }
    }

    /// Plan of an image that nothing refuses.
    pub open spec fn image_plan(self, height: int, width: int, scaled: ScaledSides) -> Gemma4ImagePlan {
        Gemma4ImagePlan {
            framing: self.image_framing->0,
            transform: gemma_transform(gemma_sides(self.image->0, height, width, scaled)),
            patch_size: self.image->0.patch_size,
            max_patches: patch_budget(self.image->0) as usize,
        }
    }

    /// Derives one still-image transform and padded patch plan. `scaled` are the sides of the
    /// image at the whole patch budget.
    pub fn image(&self, height: usize, width: usize, scaled: ScaledSides) -> (r: Result<
        Gemma4ImagePlan,
        ProcessorPlanError,
    >)
        requires
            self.image matches Some(policy) ==> (budget_fault(policy) is None && height > 0
                && width > 0 ==> sides_fit(policy, height as int, width as int, scaled)),
        ensures
            match self.image_fault(height as int, width as int, scaled) {
                Some(fault) => refuses(r, fault),
                None => r == Ok::<Gemma4ImagePlan, ProcessorPlanError>(
                    self.image_plan(height as int, width as int, scaled),
                ),
            },
    {
        let policy: Gemma4VisualPolicy = match self.image {
            Some(policy) => policy,
            None => {
                return Err(unplanned("Gemma 4 model has no image processor"));
            },
        };
        let framing: MediaFraming = match self.image_framing {
            Some(framing) => framing,
            None => {
                return Err(
                    unplanned("Gemma 4 image processor requires boi_token_id and eoi_token_id"),
                );
            },
        };
        let (transform, max_patches) = gemma_visual_plan(&policy, height, width, scaled)?;
        Ok(Gemma4ImagePlan { framing, transform, patch_size: policy.patch_size, max_patches })
    }

    /// Fault of selecting frames of a video.
    pub open spec fn count_fault(
        self,
        source_fps: Option<FrameRate>,
        sampling: VideoSampling,
    ) -> Option<Fault> {
        match self.video {
            None => Some(Fault::Invalid("Gemma 4 model has no video processor"@)),
            Some(video) => first_of(
                fault_if(
                    self.image_framing is None,
                    "Gemma 4 video processor requires boi_token_id and eoi_token_id"@,
                ),
                first_of(
                    source_rate_fault(source_fps, "video source FPS"@),
                    match sampling {
                        VideoSampling::Fps(target) => target_fault(target, 1, video.1 as int),
                        _ => None,
                    },
                ),
            ),
        }
    }

    /// Number of frames to select of a video. `requested` is the number of frames that its
    /// length has at the target rate.
    pub fn video_sample_count(
        &self,
        total_frames: usize,
        source_fps: &Option<FrameRate>,
        sampling: &VideoSampling,
        requested: usize,
    ) -> (r: Result<usize, ProcessorPlanError>)
        requires
            *sampling is FrameCount && self.count_fault(*source_fps, *sampling) is None
                ==> total_frames >= 1,
        ensures
            match self.count_fault(*source_fps, *sampling) {
                Some(fault) => refuses(r, fault),
                None => r matches Ok(count) && count == gemma_frame_count(
                    (self.video->0).1 as int,
                    total_frames as int,
                    *sampling,
                    requested as int,
                ),
            },
    {
        let default_frames: usize = match self.video {
            Some(video) => video.1,
            None => {
                return Err(unplanned("Gemma 4 model has no video processor"));
            },
        };
        if self.image_framing.is_none() {
            return Err(
                unplanned("Gemma 4 video processor requires boi_token_id and eoi_token_id"),
            );
        }
        let rate: FrameRate = source_rate(source_fps);
        validate_fps(&rate, "video source FPS")?;
        match sampling {
            VideoSampling::ProcessorDefault => Ok(least(default_frames, total_frames)),
            VideoSampling::All => Ok(total_frames),
            VideoSampling::FrameCount(count) => Ok(clamp_count(*count, total_frames)),
            VideoSampling::Fps(target) => sampled_frame_count(
                total_frames,
                &rate,
                target,
                1,
                default_frames,
                requested,
            ),
        }
    }

    /// Fault of planning a video.
    pub open spec fn video_fault(
        self,
        total: int,
        height: int,
        width: int,
        source_fps: Option<FrameRate>,
        sampling: VideoSampling,
        steps: Gemma4VideoSteps,
    ) -> Option<Fault> {
        first_of(
            self.count_fault(source_fps, sampling),
            first_of(
                sampling_fault(
                    total,
                    gemma_frame_count(
                        (self.video->0).1 as int,
                        total,
                        sampling,
                        steps.requested as int,
                    ),
                ),
                visual_fault((self.video->0).0, height, width, steps.scaled),
            ),
        )
    }

    /// Whether `steps` belong to the video, and every product fits a machine word.
    pub open spec fn video_ready(
        self,
        total: int,
        height: int,
        width: int,
        sampling: VideoSampling,
        steps: Gemma4VideoSteps,
    ) -> bool {
        self.video matches Some(video) ==> {
            let count = gemma_frame_count(
                video.1 as int,
                total,
                sampling,
                steps.requested as int,
            );
            &&& positions_cover(total, count, steps.positions@)
            &&& sampling_fault(total, count) is None ==> steps.seconds.len() == lesser(
                count,
                total,
            )
            &&& budget_fault(video.0) is None && height > 0 && width > 0 ==> sides_fit(
                video.0,
                height,
                width,
                steps.scaled,
            )
        }
    }

    /// Whether `plan` is that of a video that nothing refuses.
    pub open spec fn plans_video(
        self,
        plan: Gemma4VideoPlan,
        total: int,
        height: int,
        width: int,
        sampling: VideoSampling,
        steps: Gemma4VideoSteps,
    ) -> bool {
        let policy = (self.video->0).0;
        &&& plan.framing == self.image_framing->0
        &&& plan.transform == gemma_transform(gemma_sides(policy, height, width, steps.scaled))
        &&& plan.patch_size == policy.patch_size
        &&& plan.max_patches == patch_budget(policy)
        &&& plan.frames.deep_view() == steps.framed(
            steps.frames((self.video->0).1 as int, total, sampling),
        )
    }

    /// Derives sampling, framing, RGB transform, and patches for a video. `steps` are the
    /// quotients of the video.
    pub fn video(
        &self,
        total_frames: usize,
        height: usize,
        width: usize,
        source_fps: &Option<FrameRate>,
        sampling: &VideoSampling,
        steps: &Gemma4VideoSteps,
    ) -> (r: Result<Gemma4VideoPlan, ProcessorPlanError>)
        requires
            *sampling is FrameCount && self.count_fault(*source_fps, *sampling) is None
                ==> total_frames >= 1,
            self.count_fault(*source_fps, *sampling) is None ==> self.video_ready(
                total_frames as int,
                height as int,
                width as int,
                *sampling,
                *steps,
            ),
        ensures
            match self.video_fault(
                total_frames as int,
                height as int,
                width as int,
                *source_fps,
                *sampling,
                *steps,
            ) {
                Some(fault) => refuses(r, fault),
                None => r matches Ok(plan) && self.plans_video(
                    plan,
                    total_frames as int,
                    height as int,
                    width as int,
                    *sampling,
                    *steps,
                ),
            },
    {
        let count: usize = self.video_sample_count(
            total_frames,
            source_fps,
            sampling,
            steps.requested,
        )?;
        let policy: Gemma4VisualPolicy = match self.video {
            Some(video) => video.0,
            None => {
                return Err(unplanned("Gemma 4 model has no video processor"));
            },
        };
        let framing: MediaFraming = match self.image_framing {
            Some(framing) => framing,
            None => {
                return Err(
                    unplanned("Gemma 4 video processor requires boi_token_id and eoi_token_id"),
                );
            },
        };
        let indices: Vec<usize> = uniform_sample_indices(total_frames, count, &steps.positions)?;
        let frames = frame_video(&indices, steps);
        let (transform, max_patches) = gemma_visual_plan(&policy, height, width, steps.scaled)?;
        Ok(
            Gemma4VideoPlan {
                framing,
                transform,
                patch_size: policy.patch_size,
                max_patches,
                frames,
            },
        )
    }
}

fn frame_video(indices: &Vec<usize>, steps: &Gemma4VideoSteps) -> (r: Vec<Gemma4VideoFramePlan>)
    requires
        steps.seconds.len() == indices.len(),
    ensures
        r.deep_view() == steps.framed(indices@),
{
    let ghost all = steps.framed(indices@);
    let mut frames: Vec<Gemma4VideoFramePlan> = Vec::new();
    let mut at: usize = 0;
    assert(frames.deep_view() =~= all.take(0));
    while at < indices.len()
        invariant
            at <= indices.len(),
            steps.seconds.len() == indices.len(),
            all == steps.framed(indices@),
            frames.deep_view() == all.take(at as int),
        decreases indices.len() - at,
    {
        push_item(
            &mut frames,
            Gemma4VideoFramePlan {
                source_index: indices[at],
                timestamp_text: gemma_timestamp(steps.seconds[at], at == 0),
            },
        );
        assert(frames.deep_view() =~= all.take(at as int + 1));
        at = at + 1;
    }
    assert(all.take(all.len() as int) =~= all);
    frames
}

} // verus!
