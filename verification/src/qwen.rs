//! Qwen image and video processor policy.

use crate::errors::{
    Decoded, Fault, ProcessorPlanError, Reading, answers, fault_if, fault_of, first_of, refuses,
    unplanned,
};
use crate::float::{Float32, Float64};
use crate::media::{
    BYTE_SCALE, Channels, DEFAULT_SAMPLING_RATE, FrameRate, MediaFraming, ONE, RgbResample,
    RgbTransformPlan, VideoSampling, ZERO, channels, clamp_count, clamped, even_channels, greater,
    greatest, group_frames, lesser, limited_frames, pad_frame_indices, padded_frames, padding,
    padding_fault, positions_cover, sampled_frame_count, sampled_frames, sampling_fault, saturated,
    saturating_product, source_rate, source_rate_fault, take_group, target_fault,
    uniform_sample_indices, validate_fps,
};
use crate::media_metadata::{
    converted_channels, optional_btree_usize, optional_single, required_btree_rgb,
    required_btree_usize, required_single,
};
use crate::metadata::MetadataValue;
use crate::names::StringMap;
use crate::text::{decimal, decimal_text, push_item};
use vstd::prelude::*;

verus! {

/// Resample mode that selects bicubic interpolation.
pub const BICUBIC_RESAMPLE: u8 = 3;

/// Fewest frames sampled by default.
pub const QWEN_MIN_FRAMES: usize = 4;

/// Most frames sampled by default.
pub const QWEN_MAX_FRAMES: usize = 768;

/// Pixel budget of one image or video.
#[derive(Debug, Clone, Copy, PartialEq, Eq, Structural)]
pub struct QwenProcessorSize {
    /// Fewest pixels.
    pub shortest_edge: u64,
    /// Most pixels.
    pub longest_edge: u64,
}

/// Visual processor configuration.
#[derive(Debug)]
pub struct QwenVisualSource {
    /// Pixel budget.
    pub size: QwenProcessorSize,
    /// Spatial patch side length.
    pub patch_size: usize,
    /// Frames folded into each patch row.
    pub temporal_patch_size: usize,
    /// Spatial merge side length.
    pub merge_size: usize,
    /// Whether inputs are resized.
    pub do_resize: bool,
    /// Whether values are rescaled.
    pub do_rescale: bool,
    /// Scalar applied before normalization.
    pub rescale_factor: Float32,
    /// Whether channels are normalized.
    pub do_normalize: bool,
    /// Resample mode.
    pub resample: u8,
    /// Channel means.
    pub image_mean: Channels,
    /// Channel deviations.
    pub image_std: Channels,
    /// Sampling rate.
    pub fps: FrameRate,
    /// Fewest sampled frames.
    pub min_frames: usize,
    /// Most sampled frames.
    pub max_frames: usize,
    /// Whether frames are sampled by default.
    pub do_sample_frames: bool,
}

impl Clone for QwenVisualSource {
    fn clone(&self) -> (r: QwenVisualSource)
        ensures
            r == *self,
    {
        QwenVisualSource {
            size: self.size,
            patch_size: self.patch_size,
            temporal_patch_size: self.temporal_patch_size,
            merge_size: self.merge_size,
            do_resize: self.do_resize,
            do_rescale: self.do_rescale,
            rescale_factor: self.rescale_factor,
            do_normalize: self.do_normalize,
            resample: self.resample,
            image_mean: self.image_mean,
            image_std: self.image_std,
            fps: self.fps.clone(),
            min_frames: self.min_frames,
            max_frames: self.max_frames,
            do_sample_frames: self.do_sample_frames,
        }
    }
}

/// Framing tokens of a nested text configuration.
#[derive(Debug, Clone, Copy, PartialEq, Eq, Structural)]
pub struct QwenTextSource {
    /// Opening vision framing token.
    pub vision_start_token_id: Option<u32>,
    /// Closing vision framing token.
    pub vision_end_token_id: Option<u32>,
}

/// Framing tokens of a model configuration.
#[derive(Debug, Clone, Copy, PartialEq, Eq, Structural)]
pub struct QwenModelSource {
    /// Opening vision framing token.
    pub vision_start_token_id: Option<u32>,
    /// Closing vision framing token.
    pub vision_end_token_id: Option<u32>,
    /// Nested text configuration.
    pub text_config: Option<QwenTextSource>,
}

impl QwenModelSource {
    /// Opening token, of the model or of its text configuration.
    pub open spec fn start(self) -> Option<u32> {
        match (self.vision_start_token_id, self.text_config) {
            (Some(token), _) => Some(token),
            (None, Some(text)) => text.vision_start_token_id,
            (None, None) => None,
        }
    }

    /// Closing token, of the model or of its text configuration.
    pub open spec fn end(self) -> Option<u32> {
        match (self.vision_end_token_id, self.text_config) {
            (Some(token), _) => Some(token),
            (None, Some(text)) => text.vision_end_token_id,
            (None, None) => None,
        }
    }

    fn start_token(&self) -> (r: Option<u32>)
        ensures
            r == self.start(),
    {
        match (self.vision_start_token_id, self.text_config) {
            (Some(token), _) => Some(token),
            (None, Some(text)) => text.vision_start_token_id,
            (None, None) => None,
        }
    }

    fn end_token(&self) -> (r: Option<u32>)
        ensures
            r == self.end(),
    {
        match (self.vision_end_token_id, self.text_config) {
            (Some(token), _) => Some(token),
            (None, Some(text)) => text.vision_end_token_id,
            (None, None) => None,
        }
    }
}

/// Qwen patch packing geometry consumed by a concrete backend.
#[derive(Debug, Clone, Copy, PartialEq, Eq, Structural)]
pub struct QwenPatchPlan {
    /// Spatial patch side length.
    pub patch_size: usize,
    /// Frames folded into each patch row.
    pub temporal_patch_size: usize,
    /// Spatial merge side length used for patch ordering.
    pub merge_size: usize,
}

/// Complete Qwen still-image preprocessing plan.
#[derive(Debug, Clone, Copy, PartialEq, Eq, Structural)]
pub struct QwenImagePlan {
    /// Family framing token IDs.
    pub framing: MediaFraming,
    /// RGB resize and normalization.
    pub transform: RgbTransformPlan,
    /// Patch packing geometry.
    pub patches: QwenPatchPlan,
}

/// One framed temporal group in a Qwen video plan.
#[derive(Debug, Clone)]
pub struct QwenVideoGroupPlan {
    /// Source frame indices, padded to the temporal patch size.
    pub source_indices: Vec<usize>,
    /// Family timestamp text to tokenize before the opening token.
    pub timestamp_text: String,
}

impl DeepView for QwenVideoGroupPlan {
    type V = (Seq<usize>, Seq<char>);

    open spec fn deep_view(&self) -> (Seq<usize>, Seq<char>) {
        (self.source_indices@, self.timestamp_text@)
    }
}

/// Complete Qwen video preprocessing plan.
#[derive(Debug, Clone)]
pub struct QwenVideoPlan {
    /// Family framing token IDs used for every temporal group.
    pub framing: MediaFraming,
    /// RGB resize and normalization shared by all selected frames.
    pub transform: RgbTransformPlan,
    /// Patch packing geometry.
    pub patches: QwenPatchPlan,
    /// Ordered framed temporal groups.
    pub groups: Vec<QwenVideoGroupPlan>,
}

/// Quotients that a resize takes of its input and of the pixel budget.
#[derive(Debug, Clone)]
pub struct ResizeSteps {
    /// Whether the aspect ratio is above 200.
    pub above_limit: bool,
    /// Numeral of the aspect ratio.
    pub ratio_text: String,
    /// Height over the factor, rounded to the nearest integer.
    pub rounded_height: usize,
    /// Width over the factor, rounded to the nearest integer.
    pub rounded_width: usize,
    /// Height over the factor at the largest budget, rounded down.
    pub shrunk_height: usize,
    /// Width over the factor at the largest budget, rounded down.
    pub shrunk_width: usize,
    /// Height over the factor at the smallest budget, rounded up.
    pub grown_height: usize,
    /// Width over the factor at the smallest budget, rounded up.
    pub grown_width: usize,
}

impl ResizeSteps {
    /// Sides rounded to the factor, at least one factor long.
    pub open spec fn rounded(self, factor: int) -> (int, int) {
        (
            greater(self.rounded_height * factor, factor),
            greater(self.rounded_width * factor, factor),
        )
    }

    /// Sides brought within a pixel budget, where `size` is the number of rounded pixels.
    pub open spec fn settled(self, factor: int, size: int, least: int, most: int) -> (int, int) {
        if size > most {
            (
                greater(self.shrunk_height * factor, factor),
                greater(self.shrunk_width * factor, factor),
            )
        } else if size < least {
            (self.grown_height * factor, self.grown_width * factor)
        } else {
            self.rounded(factor)
        }
    }

    /// Every side fits a machine word.
    pub open spec fn fit(self, factor: int) -> bool {
        &&& self.rounded_height * factor <= usize::MAX
        &&& self.rounded_width * factor <= usize::MAX
        &&& self.shrunk_height * factor <= usize::MAX
        &&& self.shrunk_width * factor <= usize::MAX
        &&& self.grown_height * factor <= usize::MAX
        &&& self.grown_width * factor <= usize::MAX
    }

    /// Whether every side fits a machine word.
    pub fn fits(&self, factor: usize) -> (r: bool)
        ensures
            r == self.fit(factor as int),
    {
        self.rounded_height.checked_mul(factor).is_some() && self.rounded_width.checked_mul(
            factor,
        ).is_some() && self.shrunk_height.checked_mul(factor).is_some()
            && self.shrunk_width.checked_mul(factor).is_some() && self.grown_height.checked_mul(
            factor,
        ).is_some() && self.grown_width.checked_mul(factor).is_some()
    }
}

/// Fault of resizing an image.
pub open spec fn image_resize_fault(
    height: int,
    width: int,
    factor: int,
    steps: ResizeSteps,
) -> Option<Fault> {
    first_of(
        fault_if(
            height == 0 || width == 0 || factor == 0,
            "smart resize requires positive dimensions and factor, got "@ + decimal(width as nat)
                + "x"@ + decimal(height as nat) + ", factor "@ + decimal(factor as nat),
        ),
        fault_if(
            steps.above_limit,
            "absolute image aspect ratio must be at most 200, got "@ + steps.ratio_text@,
        ),
    )
}

/// Sides of a resized image.
pub open spec fn resized_image(
    factor: int,
    min_pixels: int,
    max_pixels: int,
    steps: ResizeSteps,
) -> (int, int) {
    let rounded = steps.rounded(factor);
    steps.settled(factor, saturated(rounded.0, rounded.1), min_pixels, max_pixels)
}

fn settle_sides(
    factor: usize,
    size: usize,
    min_pixels: usize,
    max_pixels: usize,
    steps: &ResizeSteps,
) -> (r: (usize, usize))
    requires
        steps.fit(factor as int),
    ensures
        (r.0 as int, r.1 as int) == steps.settled(
            factor as int,
            size as int,
            min_pixels as int,
            max_pixels as int,
        ),
{
    if size > max_pixels {
        (
            greatest(steps.shrunk_height * factor, factor),
            greatest(steps.shrunk_width * factor, factor),
        )
    } else if size < min_pixels {
        (steps.grown_height * factor, steps.grown_width * factor)
    } else {
        (
            greatest(steps.rounded_height * factor, factor),
            greatest(steps.rounded_width * factor, factor),
        )
    }
}

/// Resizes an image to multiples of `factor` within a pixel budget.
pub fn qwen_smart_resize(
    height: usize,
    width: usize,
    factor: usize,
    min_pixels: usize,
    max_pixels: usize,
    steps: &ResizeSteps,
) -> (r: Result<(usize, usize), ProcessorPlanError>)
    requires
        steps.fit(factor as int),
    ensures
        match image_resize_fault(height as int, width as int, factor as int, *steps) {
            Some(fault) => refuses(r, fault),
            None => r matches Ok(sides) && (sides.0 as int, sides.1 as int) == resized_image(
                factor as int,
                min_pixels as int,
                max_pixels as int,
                *steps,
            ),
        },
{
    if height == 0 || width == 0 || factor == 0 {
        return Err(
            ProcessorPlanError::Invalid(
                "smart resize requires positive dimensions and factor, got ".to_owned().concat(
                    decimal_text(width as u64).as_str(),
                ).concat("x").concat(decimal_text(height as u64).as_str()).concat(
                    ", factor ",
                ).concat(decimal_text(factor as u64).as_str()),
            ),
        );
    }
    if steps.above_limit {
        return Err(
            ProcessorPlanError::Invalid(
                "absolute image aspect ratio must be at most 200, got ".to_owned().concat(
                    steps.ratio_text.as_str(),
                ),
            ),
        );
    }
    let area: usize = saturating_product(
        greatest(steps.rounded_height * factor, factor),
        greatest(steps.rounded_width * factor, factor),
    );
    Ok(settle_sides(factor, area, min_pixels, max_pixels, steps))
}

/// Fault of resizing a video.
pub open spec fn video_resize_fault(
    num_frames: int,
    height: int,
    width: int,
    temporal_factor: int,
    factor: int,
    steps: ResizeSteps,
) -> Option<Fault> {
    first_of(
        fault_if(
            num_frames == 0 || temporal_factor == 0 || factor == 0,
            "video smart resize requires frames and positive factors"@,
        ),
        first_of(
            fault_if(
                height < factor || width < factor,
                "video dimensions "@ + decimal(width as nat) + "x"@ + decimal(height as nat)
                    + " must be at least resize factor "@ + decimal(factor as nat),
            ),
            fault_if(
                steps.above_limit,
                "absolute video aspect ratio must be at most 200, got "@ + steps.ratio_text@,
            ),
        ),
    )
}

/// Sides of the frames of a resized video. The budget covers all padded frames together.
pub open spec fn resized_video(
    num_frames: int,
    temporal_factor: int,
    factor: int,
    min_pixels: int,
    max_pixels: int,
    steps: ResizeSteps,
) -> (int, int) {
    let rounded = steps.rounded(factor);
    let frames = num_frames + padding(num_frames, temporal_factor);
    steps.settled(
        factor,
        saturated(saturated(frames, rounded.0), rounded.1),
        min_pixels,
        max_pixels,
    )
}

/// Resizes the frames of a video to multiples of `factor` within a pixel budget.
pub fn qwen_smart_resize_video(
    num_frames: usize,
    height: usize,
    width: usize,
    temporal_factor: usize,
    factor: usize,
    min_pixels: usize,
    max_pixels: usize,
    steps: &ResizeSteps,
) -> (r: Result<(usize, usize), ProcessorPlanError>)
    requires
        steps.fit(factor as int),
        temporal_factor > 0 ==> num_frames + padding(num_frames as int, temporal_factor as int)
            <= usize::MAX,
    ensures
        match video_resize_fault(
            num_frames as int,
            height as int,
            width as int,
            temporal_factor as int,
            factor as int,
            *steps,
        ) {
            Some(fault) => refuses(r, fault),
            None => r matches Ok(sides) && (sides.0 as int, sides.1 as int) == resized_video(
                num_frames as int,
                temporal_factor as int,
                factor as int,
                min_pixels as int,
                max_pixels as int,
                *steps,
            ),
        },
{
    if num_frames == 0 || temporal_factor == 0 || factor == 0 {
        return Err(unplanned("video smart resize requires frames and positive factors"));
    }
    if height < factor || width < factor {
        return Err(
            ProcessorPlanError::Invalid(
                "video dimensions ".to_owned().concat(decimal_text(width as u64).as_str()).concat(
                    "x",
                ).concat(decimal_text(height as u64).as_str()).concat(
                    " must be at least resize factor ",
                ).concat(decimal_text(factor as u64).as_str()),
            ),
        );
    }
    if steps.above_limit {
        return Err(
            ProcessorPlanError::Invalid(
                "absolute video aspect ratio must be at most 200, got ".to_owned().concat(
                    steps.ratio_text.as_str(),
                ),
            ),
        );
    }
    let remainder: usize = num_frames % temporal_factor;
    let frames: usize = if remainder == 0 {
        num_frames
    } else {
        num_frames + (temporal_factor - remainder)
    };
    let volume: usize = saturating_product(
        saturating_product(frames, greatest(steps.rounded_height * factor, factor)),
        greatest(steps.rounded_width * factor, factor),
    );
    Ok(settle_sides(factor, volume, min_pixels, max_pixels, steps))
}

/// Resized sides are multiples of the factor; they are at least one factor long unless they were
/// grown to the smallest budget.
pub proof fn law_resized_sides_are_multiples(
    factor: int,
    size: int,
    min_pixels: int,
    max_pixels: int,
    steps: ResizeSteps,
)
    requires
        factor > 0,
    ensures
        ({
            let sides = steps.settled(factor, size, min_pixels, max_pixels);
            &&& sides.0 % factor == 0
            &&& sides.1 % factor == 0
            &&& (size > max_pixels || size >= min_pixels) ==> sides.0 >= factor && sides.1
                >= factor
        }),
{
    vstd::arithmetic::div_mod::lemma_mod_multiples_basic(steps.rounded_height as int, factor);
    vstd::arithmetic::div_mod::lemma_mod_multiples_basic(steps.rounded_width as int, factor);
    vstd::arithmetic::div_mod::lemma_mod_multiples_basic(steps.shrunk_height as int, factor);
    vstd::arithmetic::div_mod::lemma_mod_multiples_basic(steps.shrunk_width as int, factor);
    vstd::arithmetic::div_mod::lemma_mod_multiples_basic(steps.grown_height as int, factor);
    vstd::arithmetic::div_mod::lemma_mod_multiples_basic(steps.grown_width as int, factor);
    vstd::arithmetic::div_mod::lemma_mod_self_0(factor);
}

/// An image whose rounded sides are within the budget keeps them.
pub proof fn law_resize_keeps_sides_within_budget(
    factor: int,
    min_pixels: int,
    max_pixels: int,
    steps: ResizeSteps,
)
    requires
        min_pixels <= steps.rounded(factor).0 * steps.rounded(factor).1 <= max_pixels,
        max_pixels <= usize::MAX,
    ensures
        resized_image(factor, min_pixels, max_pixels, steps) == steps.rounded(factor),
{
}

/// Fault of a visual configuration.
pub open spec fn visual_fault(source: QwenVisualSource) -> Option<Fault> {
    first_of(
        fault_if(
            source.patch_size == 0 || source.temporal_patch_size == 0 || source.merge_size == 0,
            "Qwen patch_size, temporal_patch_size, and merge_size must be positive"@,
        ),
        first_of(
            fault_if(
                source.size.shortest_edge == 0 || source.size.longest_edge == 0
                    || source.size.shortest_edge > source.size.longest_edge,
                "invalid Qwen image size constraints: "@ + decimal(
                    source.size.shortest_edge as nat,
                ) + ".."@ + decimal(source.size.longest_edge as nat) + " pixels"@,
            ),
            first_of(
                fault_if(
                    source.resample != BICUBIC_RESAMPLE,
                    "Qwen visual resample mode "@ + decimal(source.resample as nat)
                        + " is unsupported; expected bicubic mode 3"@,
                ),
                fault_if(
                    !source.fps.value.finite_positive() || source.min_frames == 0
                        || source.max_frames < source.min_frames,
                    "invalid Qwen video sampling defaults: fps "@ + source.fps.text@
                        + ", frames "@ + decimal(source.min_frames as nat) + ".."@ + decimal(
                        source.max_frames as nat,
                    ),
                ),
            ),
        ),
    )
}

/// Checks a visual configuration.
pub fn parse_qwen_visual_source(source: &QwenVisualSource) -> (r: Result<(), ProcessorPlanError>)
    ensures
        match visual_fault(*source) {
            Some(fault) => refuses(r, fault),
            None => r is Ok,
        },
{
    if source.patch_size == 0 || source.temporal_patch_size == 0 || source.merge_size == 0 {
        return Err(
            unplanned("Qwen patch_size, temporal_patch_size, and merge_size must be positive"),
        );
    }
    if source.size.shortest_edge == 0 || source.size.longest_edge == 0
        || source.size.shortest_edge > source.size.longest_edge {
        return Err(
            ProcessorPlanError::Invalid(
                "invalid Qwen image size constraints: ".to_owned().concat(
                    decimal_text(source.size.shortest_edge).as_str(),
                ).concat("..").concat(decimal_text(source.size.longest_edge).as_str()).concat(
                    " pixels",
                ),
            ),
        );
    }
    if source.resample != BICUBIC_RESAMPLE {
        return Err(
            ProcessorPlanError::Invalid(
                "Qwen visual resample mode ".to_owned().concat(
                    decimal_text(source.resample as u64).as_str(),
                ).concat(" is unsupported; expected bicubic mode 3"),
            ),
        );
    }
    if !source.fps.value.is_finite_positive() || source.min_frames == 0 || source.max_frames
        < source.min_frames {
        return Err(
            ProcessorPlanError::Invalid(
                "invalid Qwen video sampling defaults: fps ".to_owned().concat(
                    source.fps.text.as_str(),
                ).concat(", frames ").concat(
                    decimal_text(source.min_frames as u64).as_str(),
                ).concat("..").concat(decimal_text(source.max_frames as u64).as_str()),
            ),
        );
    }
    Ok(())
}

/// Fault of an optional visual document.
pub open spec fn document_fault(document: Option<Decoded<QwenVisualSource>>) -> Option<Fault> {
    match document {
        None => None,
        Some(Err(error)) => Some(Fault::Json(error)),
        Some(Ok(source)) => visual_fault(source),
    }
}

/// Configuration that an optional visual document holds.
pub open spec fn document_source(document: Option<Decoded<QwenVisualSource>>) -> Option<
    QwenVisualSource,
> {
    match document {
        Some(Ok(source)) => Some(source),
        _ => None,
    }
}

fn parse_qwen_visual(document: Option<Decoded<QwenVisualSource>>) -> (r: Result<
    Option<QwenVisualSource>,
    ProcessorPlanError,
>)
    ensures
        match document_fault(document) {
            Some(fault) => refuses(r, fault),
            None => r == Ok::<Option<QwenVisualSource>, ProcessorPlanError>(
                document_source(document),
            ),
        },
{
    match document {
        None => Ok(None),
        Some(Err(error)) => Err(ProcessorPlanError::Json(error)),
        Some(Ok(source)) => {
            parse_qwen_visual_source(&source)?;
            Ok(Some(source))
        },
    }
}

/// Normalized Qwen image/video processor policy.
#[derive(Debug, Clone)]
pub struct QwenProcessorPlan {
    /// Still-image configuration.
    pub image: Option<QwenVisualSource>,
    /// Video configuration.
    pub video: Option<QwenVisualSource>,
    /// Framing tokens, once they are known.
    pub framing: Option<MediaFraming>,
}

/// Fault of the framing tokens of a model document.
pub open spec fn framing_fault(model: Decoded<QwenModelSource>) -> Option<Fault> {
    match model {
        Err(error) => Some(Fault::Json(error)),
        Ok(model) => first_of(
            fault_if(
                model.start() is None,
                "Qwen processor requires vision_start_token_id in config.json"@,
            ),
            fault_if(
                model.end() is None,
                "Qwen processor requires vision_end_token_id in config.json"@,
            ),
        ),
    }
}

/// Fault of planning from decoded documents. The model document counts only where there is a
/// visual one.
pub open spec fn documents_fault(
    model: Decoded<QwenModelSource>,
    image: Option<Decoded<QwenVisualSource>>,
    video: Option<Decoded<QwenVisualSource>>,
) -> Option<Fault> {
    first_of(
        document_fault(image),
        first_of(
            document_fault(video),
            if image is None && video is None {
                None
            } else {
                framing_fault(model)
            },
        ),
    )
}

/// The plan that decoded documents declare; there is none without a visual document.
pub open spec fn documents_reading(
    model: Decoded<QwenModelSource>,
    image: Option<Decoded<QwenVisualSource>>,
    video: Option<Decoded<QwenVisualSource>>,
) -> Reading<Option<QwenProcessorPlan>> {
    match documents_fault(model, image, video) {
        Some(fault) => Err(fault),
        None => if image is None && video is None {
            Ok(None)
        } else {
            Ok(
                Some(
                    QwenProcessorPlan {
                        image: document_source(image),
                        video: document_source(video),
                        framing: Some(
                            MediaFraming {
                                start_token_id: model->Ok_0.start()->0,
                                end_token_id: model->Ok_0.end()->0,
                            },
                        ),
                    },
                ),
            )
        },
    }
}

/// Transform of a visual configuration to the given sides.
pub open spec fn visual_transform(source: QwenVisualSource, sides: (int, int)) -> RgbTransformPlan {
    RgbTransformPlan {
        height: sides.0 as usize,
        width: sides.1 as usize,
        resample: RgbResample::Bicubic,
        rescale_factor: if source.do_rescale {
            source.rescale_factor
        } else {
            Float32 { bits: ONE }
        },
        mean: if source.do_normalize {
            source.image_mean
        } else {
            even_channels(ZERO)
        },
        std: if source.do_normalize {
            source.image_std
        } else {
            even_channels(ONE)
        },
    }
}

/// Patch geometry of a visual configuration.
pub open spec fn visual_patches(source: QwenVisualSource) -> QwenPatchPlan {
    QwenPatchPlan {
        patch_size: source.patch_size,
        temporal_patch_size: source.temporal_patch_size,
        merge_size: source.merge_size,
    }
}

fn qwen_transform(source: &QwenVisualSource, height: usize, width: usize) -> (r: RgbTransformPlan)
    ensures
        r == visual_transform(*source, (height as int, width as int)),
{
    RgbTransformPlan {
        height,
        width,
        resample: RgbResample::Bicubic,
        rescale_factor: if source.do_rescale {
            source.rescale_factor
        } else {
            Float32 { bits: ONE }
        },
        mean: if source.do_normalize {
            source.image_mean
        } else {
            channels(ZERO)
        },
        std: if source.do_normalize {
            source.image_std
        } else {
            channels(ONE)
        },
    }
}

fn qwen_patches(source: &QwenVisualSource) -> (r: QwenPatchPlan)
    ensures
        r == visual_patches(*source),
{
    QwenPatchPlan {
        patch_size: source.patch_size,
        temporal_patch_size: source.temporal_patch_size,
        merge_size: source.merge_size,
    }
}

/// Resize factor of a visual configuration.
pub open spec fn resize_factor(source: QwenVisualSource) -> int {
    source.patch_size * source.merge_size
}

/// Number of frames selected for a video, where nothing faults.
pub open spec fn selected_frames(
    source: QwenVisualSource,
    total: int,
    sampling: VideoSampling,
    requested: int,
) -> int {
    let limited = limited_frames(
        requested,
        source.min_frames as int,
        source.max_frames as int,
        total,
    );
    match sampling {
        VideoSampling::ProcessorDefault => if source.do_sample_frames {
            limited
        } else {
            total
        },
        VideoSampling::All => total,
        VideoSampling::Fps(_) => limited,
        VideoSampling::FrameCount(count) => clamped(count as int, total),
    }
}

/// Fault of selecting frames of a video.
pub open spec fn selection_fault(
    source: QwenVisualSource,
    sampling: VideoSampling,
) -> Option<Fault> {
    let target = match sampling {
        VideoSampling::ProcessorDefault => if source.do_sample_frames {
            Some(source.fps)
        } else {
            None
        },
        VideoSampling::Fps(target) => Some(target),
        _ => None,
    };
    match target {
        Some(target) => target_fault(
            target,
            source.min_frames as int,
            source.max_frames as int,
        ),
        None => None,
    }
}

/// Quotients that a video plan takes of its input.
#[derive(Debug, Clone)]
pub struct QwenVideoSteps {
    /// Frames that the video's length has at the sampling rate.
    pub requested: usize,
    /// Evenly spaced positions of the selected frames.
    pub positions: Vec<usize>,
    /// Resize quotients.
    pub resize: ResizeSteps,
    /// Numeral of the middle second of every temporal group.
    pub seconds: Vec<String>,
}

/// What a video plan holds beside its framing.
pub struct VideoGeometry {
    pub transform: RgbTransformPlan,
    pub patches: QwenPatchPlan,
    pub groups: Seq<(Seq<usize>, Seq<char>)>,
}

impl QwenVideoSteps {
    /// Frames selected for the video.
    pub open spec fn frames(
        self,
        source: QwenVisualSource,
        total: int,
        sampling: VideoSampling,
    ) -> Seq<usize> {
        sampled_frames(
            total,
            selected_frames(source, total, sampling, self.requested as int),
            self.positions@,
        )
    }

    /// Temporal groups of the selected frames, each with its timestamp.
    pub open spec fn groups(self, frames: Seq<usize>, temporal: int) -> Seq<
        (Seq<usize>, Seq<char>),
    > {
        let padded = padded_frames(frames, temporal);
        Seq::new(
            (padded.len() as int / temporal) as nat,
            |group: int|
                (
                    group_frames(padded, temporal, group),
                    "<"@ + self.seconds[group]@ + " seconds>"@,
                ),
        )
    }

    /// The quotients belong to the video, and every side and count fits a machine word.
    pub open spec fn ready(
        self,
        source: QwenVisualSource,
        total: int,
        sampling: VideoSampling,
    ) -> bool {
        let count = selected_frames(source, total, sampling, self.requested as int);
        let temporal = source.temporal_patch_size as int;
        let frames = self.frames(source, total, sampling);
        &&& positions_cover(total, count, self.positions@)
        &&& self.resize.fit(resize_factor(source))
        &&& temporal > 0 ==> {
            &&& frames.len() + padding(frames.len() as int, temporal) <= usize::MAX
            &&& self.seconds.len() == padded_frames(frames, temporal).len() as int / temporal
        }
    }
}

impl QwenProcessorPlan {
    /// Plans from decoded Hugging Face model and optional visual processor documents.
    pub fn from_hf_json(
        model: Decoded<QwenModelSource>,
        image: Option<Decoded<QwenVisualSource>>,
        video: Option<Decoded<QwenVisualSource>>,
    ) -> (r: Result<Option<QwenProcessorPlan>, ProcessorPlanError>)
        ensures
            answers(r, documents_reading(model, image, video)),
    {
        let image = parse_qwen_visual(image)?;
        let video = parse_qwen_visual(video)?;
        if image.is_none() && video.is_none() {
            return Ok(None);
        }
        let model: QwenModelSource = match model {
            Ok(model) => model,
            Err(error) => {
                return Err(ProcessorPlanError::Json(error));
            },
        };
        let start_token_id: u32 = match model.start_token() {
            Some(token) => token,
            None => {
                return Err(
                    unplanned("Qwen processor requires vision_start_token_id in config.json"),
                );
            },
        };
        let end_token_id: u32 = match model.end_token() {
            Some(token) => token,
            None => {
                return Err(
                    unplanned("Qwen processor requires vision_end_token_id in config.json"),
                );
            },
        };
        Ok(
            Some(
                QwenProcessorPlan {
                    image,
                    video,
                    framing: Some(MediaFraming { start_token_id, end_token_id }),
                },
            ),
        )
    }

    /// Binds the framing tokens.
    pub fn bind_framing(&mut self, framing: MediaFraming)
        ensures
            *final(self) == (QwenProcessorPlan { framing: Some(framing), ..*old(self) }),
    {
        self.framing = Some(framing);
    }

    /// Whether the framing tokens are known.
    pub fn has_framing(&self) -> (r: bool)
        ensures
            r == self.framing is Some,
    {
        self.framing.is_some()
    }

    /// Fault of planning an image.
    pub open spec fn image_fault(self, height: int, width: int, steps: ResizeSteps) -> Option<
        Fault,
    > {
        match self.image {
            None => Some(
                Fault::Invalid("Qwen model directory has no image processor config"@),
            ),
            Some(source) => first_of(
                fault_if(
                    resize_factor(source) > usize::MAX,
                    "Qwen image resize factor overflow"@,
                ),
                first_of(
                    if source.do_resize {
                        image_resize_fault(height, width, resize_factor(source), steps)
                    } else {
                        None
                    },
                    fault_if(
                        self.framing is None,
                        "Qwen GGUF media framing token IDs are unresolved"@,
                    ),
                ),
            ),
        }
    }

    /// Plan of an image that nothing refuses.
    pub open spec fn image_plan(self, height: int, width: int, steps: ResizeSteps) -> QwenImagePlan {
        let source = self.image->0;
        let sides = if source.do_resize {
            resized_image(
                resize_factor(source),
                source.size.shortest_edge as usize as int,
                source.size.longest_edge as usize as int,
                steps,
            )
        } else {
            (height, width)
        };
        QwenImagePlan {
            framing: self.framing->0,
            transform: visual_transform(source, sides),
            patches: visual_patches(source),
        }
    }

    /// Derives one still-image transform and patch plan. `steps` are the resize quotients of the
    /// image.
    pub fn image(&self, height: usize, width: usize, steps: &ResizeSteps) -> (r: Result<
        QwenImagePlan,
        ProcessorPlanError,
    >)
        requires
            self.image matches Some(source) ==> steps.fit(resize_factor(source)),
        ensures
            match self.image_fault(height as int, width as int, *steps) {
                Some(fault) => refuses(r, fault),
                None => r == Ok::<QwenImagePlan, ProcessorPlanError>(
                    self.image_plan(height as int, width as int, *steps),
                ),
            },
    {
        let source: &QwenVisualSource = match &self.image {
            Some(source) => source,
            None => {
                return Err(unplanned("Qwen model directory has no image processor config"));
            },
        };
        let factor: usize = match source.patch_size.checked_mul(source.merge_size) {
            Some(factor) => factor,
            None => {
                return Err(unplanned("Qwen image resize factor overflow"));
            },
        };
        let (height, width) = if source.do_resize {
            qwen_smart_resize(
                height,
                width,
                factor,
                source.size.shortest_edge as usize,
                source.size.longest_edge as usize,
                steps,
            )?
        } else {
            (height, width)
        };
        match self.framing {
            Some(framing) => Ok(
                QwenImagePlan {
                    framing,
                    transform: qwen_transform(source, height, width),
                    patches: qwen_patches(source),
                },
            ),
            None => Err(unplanned("Qwen GGUF media framing token IDs are unresolved")),
        }
    }

    /// Fault of selecting frames of a video.
    pub open spec fn count_fault(
        self,
        source_fps: Option<FrameRate>,
        sampling: VideoSampling,
    ) -> Option<Fault> {
        match self.video {
            None => Some(
                Fault::Invalid("Qwen model directory has no video processor config"@),
            ),
            Some(source) => first_of(
                source_rate_fault(source_fps, "video source FPS"@),
                selection_fault(source, sampling),
            ),
        }
    }

    /// Number of frames to select of a video. `requested` is the number of frames that its
    /// length has at the sampling rate.
    pub fn video_sample_count(
        &self,
        total_frames: usize,
        source_fps: &Option<FrameRate>,
        sampling: &VideoSampling,
        requested: usize,
    ) -> (r: Result<usize, ProcessorPlanError>)
        requires
            *sampling is FrameCount && self.count_fault(*source_fps, *sampling) is None
                ==> total_frames >= 1,
        ensures
            match self.count_fault(*source_fps, *sampling) {
                Some(fault) => refuses(r, fault),
                None => r matches Ok(count) && count == selected_frames(
                    self.video->0,
                    total_frames as int,
                    *sampling,
                    requested as int,
                ),
            },
    {
        let source: &QwenVisualSource = match &self.video {
            Some(source) => source,
            None => {
                return Err(unplanned("Qwen model directory has no video processor config"));
            },
        };
        let rate: FrameRate = source_rate(source_fps);
        validate_fps(&rate, "video source FPS")?;
        match sampling {
            VideoSampling::ProcessorDefault => if source.do_sample_frames {
                sampled_frame_count(
                    total_frames,
                    &rate,
                    &source.fps,
                    source.min_frames,
                    source.max_frames,
                    requested,
                )
            } else {
                Ok(total_frames)
            },
            VideoSampling::All => Ok(total_frames),
            VideoSampling::Fps(target) => sampled_frame_count(
                total_frames,
                &rate,
                target,
                source.min_frames,
                source.max_frames,
                requested,
            ),
            VideoSampling::FrameCount(count) => Ok(clamp_count(*count, total_frames)),
        }
    }

    /// Fault of planning a video.
    pub open spec fn video_fault(
        self,
        total: int,
        height: int,
        width: int,
        source_fps: Option<FrameRate>,
        sampling: VideoSampling,
        steps: QwenVideoSteps,
    ) -> Option<Fault> {
        first_of(
            self.count_fault(source_fps, sampling),
            self.frames_fault(total, height, width, sampling, steps),
        )
    }

    /// Fault of laying out the frames selected of a video.
    pub open spec fn frames_fault(
        self,
        total: int,
        height: int,
        width: int,
        sampling: VideoSampling,
        steps: QwenVideoSteps,
    ) -> Option<Fault> {
        let source = self.video->0;
        let count = selected_frames(source, total, sampling, steps.requested as int);
        let frames = lesser(count, total);
        first_of(
            sampling_fault(total, count),
            first_of(
                fault_if(
                    resize_factor(source) > usize::MAX,
                    "Qwen video resize factor overflow"@,
                ),
                first_of(
                    if source.do_resize {
                        video_resize_fault(
                            frames,
                            height,
                            width,
                            source.temporal_patch_size as int,
                            resize_factor(source),
                            steps.resize,
                        )
                    } else {
                        None
                    },
                    first_of(
                        padding_fault(frames, source.temporal_patch_size as int),
                        fault_if(
                            self.framing is None,
                            "Qwen GGUF media framing token IDs are unresolved"@,
                        ),
                    ),
                ),
            ),
        )
    }

    /// Geometry of a video plan.
    pub open spec fn video_geometry(
        self,
        total: int,
        height: int,
        width: int,
        sampling: VideoSampling,
        steps: QwenVideoSteps,
    ) -> VideoGeometry {
        let source = self.video->0;
        let frames = steps.frames(source, total, sampling);
        let sides = if source.do_resize {
            resized_video(
                frames.len() as int,
                source.temporal_patch_size as int,
                resize_factor(source),
                source.size.shortest_edge as usize as int,
                source.size.longest_edge as usize as int,
                steps.resize,
            )
        } else {
            (height, width)
        };
        VideoGeometry {
            transform: visual_transform(source, sides),
            patches: visual_patches(source),
            groups: steps.groups(frames, source.temporal_patch_size as int),
        }
    }

    /// Derives sampling, framing, RGB transform, and patch geometry for a video. `steps` are the
    /// quotients of the video.
    pub fn video(
        &self,
        total_frames: usize,
        height: usize,
        width: usize,
        source_fps: &Option<FrameRate>,
        sampling: &VideoSampling,
        steps: &QwenVideoSteps,
    ) -> (r: Result<QwenVideoPlan, ProcessorPlanError>)
        requires
            *sampling is FrameCount && self.count_fault(*source_fps, *sampling) is None
                ==> total_frames >= 1,
            self.count_fault(*source_fps, *sampling) is None ==> steps.ready(
                self.video->0,
                total_frames as int,
                *sampling,
            ),
        ensures
            match self.video_fault(
                total_frames as int,
                height as int,
                width as int,
                *source_fps,
                *sampling,
                *steps,
            ) {
                Some(fault) => refuses(r, fault),
                None => r matches Ok(plan) && {
                    let geometry = self.video_geometry(
                        total_frames as int,
                        height as int,
                        width as int,
                        *sampling,
                        *steps,
                    );
                    &&& plan.framing == self.framing->0
                    &&& plan.transform == geometry.transform
                    &&& plan.patches == geometry.patches
                    &&& plan.groups.deep_view() == geometry.groups
                },
            },
    {
        let count: usize = self.video_sample_count(
            total_frames,
            source_fps,
            sampling,
            steps.requested,
        )?;
        let source: &QwenVisualSource = match &self.video {
            Some(source) => source,
            None => {
                return Err(unplanned("Qwen model directory has no video processor config"));
            },
        };
        let mut indices: Vec<usize> = uniform_sample_indices(
            total_frames,
            count,
            &steps.positions,
        )?;
        let ghost frames = indices@;
        let factor: usize = match source.patch_size.checked_mul(source.merge_size) {
            Some(factor) => factor,
            None => {
                return Err(unplanned("Qwen video resize factor overflow"));
            },
        };
        let (height, width) = if source.do_resize {
            qwen_smart_resize_video(
                indices.len(),
                height,
                width,
                source.temporal_patch_size,
                factor,
                source.size.shortest_edge as usize,
                source.size.longest_edge as usize,
                &steps.resize,
            )?
        } else {
            (height, width)
        };
        pad_frame_indices(&mut indices, source.temporal_patch_size)?;
        let groups = group_video(&indices, source.temporal_patch_size, steps, Ghost(frames));
        match self.framing {
            Some(framing) => Ok(
                QwenVideoPlan {
                    framing,
                    transform: qwen_transform(source, height, width),
                    patches: qwen_patches(source),
                    groups,
                },
            ),
            None => Err(unplanned("Qwen GGUF media framing token IDs are unresolved")),
        }
    }
}

fn group_video(
    indices: &Vec<usize>,
    temporal: usize,
    steps: &QwenVideoSteps,
    Ghost(frames): Ghost<Seq<usize>>,
) -> (r: Vec<QwenVideoGroupPlan>)
    requires
        temporal > 0,
        indices@ == padded_frames(frames, temporal as int),
        steps.seconds.len() == indices.len() / temporal,
    ensures
        r.deep_view() == steps.groups(frames, temporal as int),
{
    let ghost all = steps.groups(frames, temporal as int);
    let count: usize = indices.len() / temporal;
    let mut groups: Vec<QwenVideoGroupPlan> = Vec::new();
    let mut group: usize = 0;
    assert(groups.deep_view() =~= all.take(0));
    while group < count
        invariant
            group <= count,
            count == indices.len() / temporal,
            temporal > 0,
            indices@ == padded_frames(frames, temporal as int),
            steps.seconds.len() == count,
            all == steps.groups(frames, temporal as int),
            all.len() == count,
            groups.deep_view() == all.take(group as int),
        decreases count - group,
    {
        push_item(
            &mut groups,
            QwenVideoGroupPlan {
                source_indices: take_group(indices, temporal, group),
                timestamp_text: "<".to_owned().concat(steps.seconds[group].as_str()).concat(
                    " seconds>",
                ),
            },
        );
        assert(groups.deep_view() =~= all.take(group as int + 1));
        group = group + 1;
    }
    assert(all.take(all.len() as int) =~= all);
    groups
}

/// Visual settings that a GGUF projector declares.
pub struct QwenProjector {
    /// Metadata values by key.
    pub metadata: Map<Seq<char>, MetadataValue>,
}

impl QwenProjector {
    /// Spatial merge side length.
    pub open spec fn merge_size(self) -> usize {
        match optional_single(self.metadata, "clip.vision.spatial_merge_size"@) {
            Ok(Some(size)) => size,
            _ => 2,
        }
    }

    /// Spatial patch side length.
    pub open spec fn patch_size(self) -> usize {
        required_single(self.metadata, "clip.vision.patch_size"@)->Ok_0
    }

    /// Pixels that one token covers.
    pub open spec fn pixels_per_token(self) -> int {
        (self.patch_size() * self.merge_size()) * (self.patch_size() * self.merge_size())
    }

    /// Declared pixel limit, or that of `tokens` tokens.
    pub open spec fn pixels(self, key: Seq<char>, tokens: int) -> int {
        match optional_single(self.metadata, key) {
            Ok(Some(pixels)) => pixels as int,
            _ => tokens * self.pixels_per_token(),
        }
    }

    /// Fault of the declared geometry.
    pub open spec fn geometry_fault(self) -> Option<Fault> {
        first_of(
            fault_of(required_single(self.metadata, "clip.vision.patch_size"@)),
            first_of(
                fault_of(optional_single(self.metadata, "clip.vision.spatial_merge_size"@)),
                first_of(
                    fault_if(
                        self.patch_size() * self.merge_size() > usize::MAX,
                        "Qwen GGUF resize factor overflow"@,
                    ),
                    first_of(
                        fault_if(
                            self.pixels_per_token() > usize::MAX,
                            "Qwen GGUF pixel geometry overflow"@,
                        ),
                        first_of(
                            fault_of(
                                optional_single(self.metadata, "clip.vision.image_min_pixels"@),
                            ),
                            first_of(
                                fault_if(
                                    8 * self.pixels_per_token() > usize::MAX,
                                    "Qwen GGUF minimum pixel geometry overflow"@,
                                ),
                                first_of(
                                    fault_of(
                                        optional_single(
                                            self.metadata,
                                            "clip.vision.image_max_pixels"@,
                                        ),
                                    ),
                                    fault_if(
                                        4096 * self.pixels_per_token() > usize::MAX,
                                        "Qwen GGUF maximum pixel geometry overflow"@,
                                    ),
                                ),
                            ),
                        ),
                    ),
                ),
            ),
        )
    }

    /// Fault of reading the settings.
    pub open spec fn reading_fault(self) -> Option<Fault> {
        first_of(
            self.geometry_fault(),
            first_of(
                fault_of(converted_channels(self.metadata, "clip.vision.image_mean"@)),
                fault_of(converted_channels(self.metadata, "clip.vision.image_std"@)),
            ),
        )
    }

    /// Whether `r` is the outcome of planning from the settings: a plan for images and videos
    /// alike, whose framing remains to be bound.
    pub open spec fn plans(self, r: Result<QwenProcessorPlan, ProcessorPlanError>) -> bool {
        match self.reading_fault() {
            Some(fault) => refuses(r, fault),
            None => exists|source: QwenVisualSource| #[trigger]
                self.declares(source) && match visual_fault(source) {
                    Some(fault) => refuses(r, fault),
                    None => r == Ok::<QwenProcessorPlan, ProcessorPlanError>(
                        QwenProcessorPlan {
                            image: Some(source),
                            video: Some(source),
                            framing: None,
                        },
                    ),
                },
        }
    }

    /// Whether `source` holds the declared settings, and defaults for the rest.
    pub open spec fn declares(self, source: QwenVisualSource) -> bool {
        &&& source.size == (QwenProcessorSize {
            shortest_edge: self.pixels("clip.vision.image_min_pixels"@, 8) as u64,
            longest_edge: self.pixels("clip.vision.image_max_pixels"@, 4096) as u64,
        })
        &&& source.patch_size == self.patch_size()
        &&& source.temporal_patch_size == 2
        &&& source.merge_size == self.merge_size()
        &&& source.do_resize
        &&& source.do_rescale
        &&& source.rescale_factor.bits == BYTE_SCALE
        &&& source.do_normalize
        &&& source.resample == BICUBIC_RESAMPLE
        &&& source.image_mean == converted_channels(
            self.metadata,
            "clip.vision.image_mean"@,
        )->Ok_0
        &&& source.image_std == converted_channels(
            self.metadata,
            "clip.vision.image_std"@,
        )->Ok_0
        &&& source.fps.value.bits == DEFAULT_SAMPLING_RATE
        &&& source.fps.text@ == "2"@
        &&& source.min_frames == QWEN_MIN_FRAMES
        &&& source.max_frames == QWEN_MAX_FRAMES
        &&& source.do_sample_frames
    }
}

/// Smallest and largest pixel budget that a projector declares.
fn projector_pixels(projector: &StringMap<MetadataValue>) -> (r: Result<
    (usize, usize, usize, usize),
    ProcessorPlanError,
>)
    ensures
        ({
            let declared = QwenProjector { metadata: projector@ };
            match declared.geometry_fault() {
                Some(fault) => refuses(r, fault),
                None => r matches Ok(geometry) && {
                    &&& geometry.0 == declared.patch_size()
                    &&& geometry.1 == declared.merge_size()
                    &&& geometry.2 == declared.pixels("clip.vision.image_min_pixels"@, 8)
                    &&& geometry.3 == declared.pixels("clip.vision.image_max_pixels"@, 4096)
                },
            }
        }),
{
    let patch_size: usize = required_btree_usize(projector, "clip.vision.patch_size")?;
    let merge_size: usize = match optional_btree_usize(
        projector,
        "clip.vision.spatial_merge_size",
    )? {
        Some(size) => size,
        None => 2,
    };
    let factor: usize = match patch_size.checked_mul(merge_size) {
        Some(factor) => factor,
        None => {
            return Err(unplanned("Qwen GGUF resize factor overflow"));
        },
    };
    let pixels_per_token: usize = match factor.checked_mul(factor) {
        Some(pixels) => pixels,
        None => {
            return Err(unplanned("Qwen GGUF pixel geometry overflow"));
        },
    };
    let declared_min: Option<usize> = optional_btree_usize(
        projector,
        "clip.vision.image_min_pixels",
    )?;
    let default_min: usize = match pixels_per_token.checked_mul(8) {
        Some(pixels) => pixels,
        None => {
            return Err(unplanned("Qwen GGUF minimum pixel geometry overflow"));
        },
    };
    let declared_max: Option<usize> = optional_btree_usize(
        projector,
        "clip.vision.image_max_pixels",
    )?;
    let default_max: usize = match pixels_per_token.checked_mul(4096) {
        Some(pixels) => pixels,
        None => {
            return Err(unplanned("Qwen GGUF maximum pixel geometry overflow"));
        },
    };
    Ok(
        (
            patch_size,
            merge_size,
            declared_min.unwrap_or(default_min),
            declared_max.unwrap_or(default_max),
        ),
    )
}

impl QwenProcessorPlan {
    /// Derives Qwen preprocessing geometry from the admitted GGUF projector. The framing tokens
    /// remain to be bound.
    pub fn from_gguf_metadata(projector: &StringMap<MetadataValue>) -> (r: Result<
        QwenProcessorPlan,
        ProcessorPlanError,
    >)
        ensures
            (QwenProjector { metadata: projector@ }).plans(r),
    {
        let (patch_size, merge_size, min_pixels, max_pixels) = projector_pixels(projector)?;
        let image_mean: Channels = required_btree_rgb(projector, "clip.vision.image_mean")?;
        let image_std: Channels = required_btree_rgb(projector, "clip.vision.image_std")?;
        let visual = QwenVisualSource {
            size: QwenProcessorSize {
                shortest_edge: min_pixels as u64,
                longest_edge: max_pixels as u64,
            },
            patch_size,
            temporal_patch_size: 2,
            merge_size,
            do_resize: true,
            do_rescale: true,
            rescale_factor: Float32 { bits: BYTE_SCALE },
            do_normalize: true,
            resample: BICUBIC_RESAMPLE,
            image_mean,
            image_std,
            fps: FrameRate {
                value: Float64 { bits: DEFAULT_SAMPLING_RATE },
                text: "2".to_owned(),
            },
            min_frames: QWEN_MIN_FRAMES,
            max_frames: QWEN_MAX_FRAMES,
            do_sample_frames: true,
        };
        assert((QwenProjector { metadata: projector@ }).declares(visual));
        parse_qwen_visual_source(&visual)?;
        Ok(
            QwenProcessorPlan {
                image: Some(visual.clone()),
                video: Some(visual),
                framing: None,
            },
        )
    }
}

/// A projector plan refuses every image until its framing is bound, and frames images with what
/// was bound.
pub proof fn law_binding_resolves_images(
    plan: QwenProcessorPlan,
    framing: MediaFraming,
    height: int,
    width: int,
    steps: ResizeSteps,
)
    requires
        plan.framing is None,
    ensures
        plan.image_fault(height, width, steps) is Some,
        ({
            let bound = QwenProcessorPlan { framing: Some(framing), ..plan };
            bound.image_fault(height, width, steps) is Some ==> bound.image_fault(
                height,
                width,
                steps,
            ) == plan.image_fault(height, width, steps)
        }),
{
}

} // verus!
