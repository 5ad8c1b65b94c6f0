//! Muse-Glimmer image and video processor policy.

use crate::errors::{
    Decoded, Fault, ProcessorPlanError, Reading, answers, fault_if, fault_of, first_of, refuses,
    unplanned,
};
use crate::float::{Float32, Float64};
use crate::media::{
    BYTE_SCALE, Channels, DEFAULT_SAMPLING_RATE, FrameRate, HALF, ONE, RgbResample,
    RgbTransformPlan, VideoSampling, ZERO, channels, even_channels, greater, greatest, group_frames,
    least, lesser, pad_frame_indices, padded_frames, padding, positions_cover, rate_fault,
    sampled_frames, sampling_fault, saturated, saturating_product, source_rate, source_rate_fault,
    take_group, uniform_sample_indices, validate_fps,
};
use crate::media_metadata::{metadata_rgb, positive_usize, required_metadata_usize, stored_channels};
use crate::metadata::MetadataValue;
use crate::names::StringMap;
use crate::text::{decimal, decimal_text, push_item};
use vstd::prelude::*;

verus! {

/// Patch side length where none is declared.
pub const MUSE_PATCH: usize = 14;

/// Temporal extent where none is declared.
pub const MUSE_TEMPORAL: usize = 2;

/// Merge side length where none is declared.
pub const MUSE_MERGE: usize = 2;

/// Image tokens where none are declared.
pub const MUSE_IMAGE_TOKENS: usize = 4096;

/// Video frame tokens where none are declared.
pub const MUSE_VIDEO_TOKENS: usize = 144;

/// Video frames where none are declared.
pub const MUSE_VIDEO_FRAMES: usize = 96;

/// Resample mode that selects Lanczos interpolation.
pub const LANCZOS_RESAMPLE: u8 = 1;

/// Visual processor configuration.
#[derive(Debug)]
pub struct MuseVisualSource {
    /// Whether inputs are resized.
    pub do_resize: bool,
    /// Whether values are rescaled.
    pub do_rescale: bool,
    /// Scalar applied before normalization.
    pub rescale_factor: Float32,
    /// Whether channels are normalized.
    pub do_normalize: bool,
    /// Channel means.
    pub image_mean: Channels,
    /// Channel deviations.
    pub image_std: Channels,
    /// Patch side length.
    pub patch_size: usize,
    /// Frames folded into every patch row.
    pub temporal_patch_size: usize,
    /// Merge side length.
    pub merge_size: usize,
    /// Image tokens.
    pub max_image_tokens: usize,
    /// Video frame tokens.
    pub max_video_frame_tokens: usize,
    /// Video frames.
    pub num_frames: usize,
    /// Sampling rate.
    pub fps: FrameRate,
    /// Whether frames are sampled by default.
    pub do_sample_frames: bool,
    /// Resample mode.
    pub resample: u8,
}

impl Clone for MuseVisualSource {
    fn clone(&self) -> (r: MuseVisualSource)
        ensures
            r == *self,
    {
        MuseVisualSource {
            do_resize: self.do_resize,
            do_rescale: self.do_rescale,
            rescale_factor: self.rescale_factor,
            do_normalize: self.do_normalize,
            image_mean: self.image_mean,
            image_std: self.image_std,
            patch_size: self.patch_size,
            temporal_patch_size: self.temporal_patch_size,
            merge_size: self.merge_size,
            max_image_tokens: self.max_image_tokens,
            max_video_frame_tokens: self.max_video_frame_tokens,
            num_frames: self.num_frames,
            fps: self.fps.clone(),
            do_sample_frames: self.do_sample_frames,
            resample: self.resample,
        }
    }
}

impl Default for MuseVisualSource {
    fn default() -> (r: MuseVisualSource)
        ensures
            r.do_resize && r.do_rescale && r.do_normalize && r.do_sample_frames,
            r.rescale_factor.bits == BYTE_SCALE,
            r.image_mean == even_channels(HALF),
            r.image_std == even_channels(HALF),
            r.patch_size == MUSE_PATCH,
            r.temporal_patch_size == MUSE_TEMPORAL,
            r.merge_size == MUSE_MERGE,
            r.max_image_tokens == MUSE_IMAGE_TOKENS,
            r.max_video_frame_tokens == MUSE_VIDEO_TOKENS,
            r.num_frames == MUSE_VIDEO_FRAMES,
            r.fps.value.bits == DEFAULT_SAMPLING_RATE,
            r.fps.text@ == "2"@,
            r.resample == LANCZOS_RESAMPLE,
    {
        MuseVisualSource {
            do_resize: true,
            do_rescale: true,
            rescale_factor: Float32 { bits: BYTE_SCALE },
            do_normalize: true,
            image_mean: channels(HALF),
            image_std: channels(HALF),
            patch_size: MUSE_PATCH,
            temporal_patch_size: MUSE_TEMPORAL,
            merge_size: MUSE_MERGE,
            max_image_tokens: MUSE_IMAGE_TOKENS,
            max_video_frame_tokens: MUSE_VIDEO_TOKENS,
            num_frames: MUSE_VIDEO_FRAMES,
            fps: FrameRate {
                value: Float64 { bits: DEFAULT_SAMPLING_RATE },
                text: "2".to_owned(),
            },
            do_sample_frames: true,
            resample: LANCZOS_RESAMPLE,
        }
    }
}

/// Nested processor configuration.
#[derive(Debug, Clone)]
pub struct MuseProcessorSource {
    /// Image configuration.
    pub image_processor: MuseVisualSource,
    /// Video configuration.
    pub video_processor: MuseVisualSource,
}

/// Muse-Glimmer patch packing geometry.
#[derive(Debug, Clone, Copy, PartialEq, Eq, Structural)]
pub struct MusePatchPlan {
    /// Spatial patch side length.
    pub patch_size: usize,
    /// Frames folded into every patch row.
    pub temporal_patch_size: usize,
    /// Spatial merge side length used by the family.
    pub merge_size: usize,
}

/// Complete Muse-Glimmer image processor plan.
#[derive(Debug, Clone, Copy)]
pub struct MuseImagePlan {
    /// Opening framing text to tokenize.
    pub start_text: &'static str,
    /// Closing framing text to tokenize.
    pub end_text: &'static str,
    /// Backend-executed RGB transform.
    pub transform: RgbTransformPlan,
    /// Patch packing geometry.
    pub patches: MusePatchPlan,
}

/// One timestamped Muse-Glimmer video patch group.
#[derive(Debug, Clone)]
pub struct MuseVideoGroupPlan {
    /// Source frame indices, padded to the temporal patch extent.
    pub source_indices: Vec<usize>,
    /// Timestamp framing text to tokenize before the tensor.
    pub timestamp_text: String,
    /// Separator or final framing text to tokenize after the tensor.
    pub boundary_text: &'static str,
}

/// What a video group says.
pub struct MuseGroup {
    pub source_indices: Seq<usize>,
    pub timestamp_text: Seq<char>,
    pub boundary_text: Seq<char>,
}

impl DeepView for MuseVideoGroupPlan {
    type V = MuseGroup;

    open spec fn deep_view(&self) -> MuseGroup {
        MuseGroup {
            source_indices: self.source_indices@,
            timestamp_text: self.timestamp_text@,
            boundary_text: self.boundary_text@,
        }
    }
}

/// Complete Muse-Glimmer video processor plan.
#[derive(Debug, Clone)]
pub struct MuseVideoPlan {
    /// Opening framing text to tokenize once.
    pub start_text: &'static str,
    /// Backend-executed RGB transform.
    pub transform: RgbTransformPlan,
    /// Patch packing geometry.
    pub patches: MusePatchPlan,
    /// Ordered timestamped temporal groups.
    pub groups: Vec<MuseVideoGroupPlan>,
}

/// Normalized Muse-Glimmer image and video processor policy.
#[derive(Debug, Clone)]
pub struct MuseProcessorPlan {
    /// Image configuration.
    pub image: MuseVisualSource,
    /// Video configuration.
    pub video: MuseVisualSource,
    /// Whether videos are refused.
    pub image_only: bool,
}

/// Fault of a visual configuration.
pub open spec fn muse_fault(source: MuseVisualSource, kind: Seq<char>) -> Option<Fault> {
    first_of(
        fault_if(
            source.patch_size == 0 || source.temporal_patch_size == 0 || source.merge_size == 0
                || source.max_image_tokens == 0 || source.max_video_frame_tokens == 0
                || source.num_frames == 0 || !source.fps.value.finite_positive(),
            "Muse-Glimmer "@ + kind
                + " processor dimensions, rates, and token limits must be positive"@,
        ),
        fault_if(
            source.resample != LANCZOS_RESAMPLE,
            "Muse-Glimmer "@ + kind + " processor requires Lanczos resample mode 1, got "@
                + decimal(source.resample as nat),
        ),
    )
}

/// Checks a visual configuration.
pub fn validate_muse(source: &MuseVisualSource, kind: &str) -> (r: Result<(), ProcessorPlanError>)
    ensures
        match muse_fault(*source, kind@) {
            Some(fault) => refuses(r, fault),
            None => r is Ok,
        },
{
    if source.patch_size == 0 || source.temporal_patch_size == 0 || source.merge_size == 0
        || source.max_image_tokens == 0 || source.max_video_frame_tokens == 0 || source.num_frames
        == 0 || !source.fps.value.is_finite_positive() {
        return Err(
            ProcessorPlanError::Invalid(
                "Muse-Glimmer ".to_owned().concat(kind).concat(
                    " processor dimensions, rates, and token limits must be positive",
                ),
            ),
        );
    }
    if source.resample != LANCZOS_RESAMPLE {
        return Err(
            ProcessorPlanError::Invalid(
                "Muse-Glimmer ".to_owned().concat(kind).concat(
                    " processor requires Lanczos resample mode 1, got ",
                ).concat(decimal_text(source.resample as u64).as_str()),
            ),
        );
    }
    Ok(())
}

/// A patch grid, with its distance from the aspect ratio of the input.
#[derive(Debug, Clone, Copy, PartialEq, Eq, Structural)]
pub struct GridCandidate {
    /// Rows.
    pub rows: usize,
    /// Columns.
    pub columns: usize,
    /// Encoding of the distance, a number at or above zero: larger encodings are larger.
    pub distance: u64,
}

/// Grids that a resize chooses between.
#[derive(Debug, Clone, Copy, PartialEq, Eq, Structural)]
pub struct GridSteps {
    /// The ideal grid with both sides rounded down.
    pub low: GridCandidate,
    /// The ideal grid with rows rounded down and columns up.
    pub low_high: GridCandidate,
    /// The ideal grid with rows rounded up and columns down.
    pub high_low: GridCandidate,
    /// The ideal grid with both sides rounded up.
    pub high: GridCandidate,
    /// The ideal grid rounded to the nearest, with at least one row and column.
    pub nearest: GridCandidate,
}

impl GridCandidate {
    /// Whether the grid is non-empty and within the token budget.
    pub open spec fn admissible(self, max_tokens: int) -> bool {
        self.rows > 0 && self.columns > 0 && saturated(self.rows as int, self.columns as int)
            <= max_tokens
    }
}

/// The closer of the grid chosen so far and an admissible candidate; the earlier one on a tie.
pub open spec fn closer(
    chosen: Option<GridCandidate>,
    candidate: GridCandidate,
    max_tokens: int,
) -> Option<GridCandidate> {
    if !candidate.admissible(max_tokens) {
        chosen
    } else {
        match chosen {
            Some(earlier) => if candidate.distance < earlier.distance {
                Some(candidate)
            } else {
                Some(earlier)
            },
            None => Some(candidate),
        }
    }
}

impl GridSteps {
    /// The closest admissible grid, if any.
    pub open spec fn closest(self, max_tokens: int) -> Option<GridCandidate> {
        closer(
            closer(
                closer(closer(None, self.low, max_tokens), self.low_high, max_tokens),
                self.high_low,
                max_tokens,
            ),
            self.high,
            max_tokens,
        )
    }

    /// The chosen grid: the closest admissible one, or the nearest where none is.
    pub open spec fn grid(self, max_tokens: int) -> GridCandidate {
        match self.closest(max_tokens) {
            Some(grid) => grid,
            None => self.nearest,
        }
    }

    /// Both sides of the resized input fit a machine word.
    pub open spec fn fit(self, patch_size: int, max_tokens: int) -> bool {
        &&& self.grid(max_tokens).rows * patch_size <= usize::MAX
        &&& self.grid(max_tokens).columns * patch_size <= usize::MAX
    }
}

fn pick_closer(chosen: Option<GridCandidate>, candidate: GridCandidate, max_tokens: usize) -> (r:
    Option<GridCandidate>)
    ensures
        r == closer(chosen, candidate, max_tokens as int),
{
    if candidate.rows == 0 || candidate.columns == 0 || saturating_product(
        candidate.rows,
        candidate.columns,
    ) > max_tokens {
        return chosen;
    }
    match chosen {
        Some(earlier) => if candidate.distance < earlier.distance {
            Some(candidate)
        } else {
            Some(earlier)
        },
        None => Some(candidate),
    }
}

impl GridSteps {
    fn choose_grid(&self, max_tokens: usize) -> (r: GridCandidate)
        ensures
            r == self.grid(max_tokens as int),
    {
        let low = pick_closer(None, self.low, max_tokens);
        let low_high = pick_closer(low, self.low_high, max_tokens);
        let high_low = pick_closer(low_high, self.high_low, max_tokens);
        let closest = pick_closer(high_low, self.high, max_tokens);
        match closest {
            Some(grid) => grid,
            None => self.nearest,
        }
    }

    /// Whether both sides of the resized input fit a machine word.
    pub fn fits(&self, patch_size: usize, max_tokens: usize) -> (r: bool)
        ensures
            r == self.fit(patch_size as int, max_tokens as int),
    {
        let grid: GridCandidate = self.choose_grid(max_tokens);
        grid.rows.checked_mul(patch_size).is_some() && grid.columns.checked_mul(
            patch_size,
        ).is_some()
    }
}

/// Fault of resizing an input.
pub open spec fn grid_fault(height: int, width: int, patch_size: int, max_tokens: int) -> Option<
    Fault,
> {
    fault_if(
        height == 0 || width == 0 || patch_size == 0 || max_tokens == 0,
        "Muse-Glimmer smart resize requires positive dimensions"@,
    )
}

impl GridSteps {
    /// Height and width of the resized input.
    pub open spec fn sides(self, patch_size: int, max_tokens: int) -> (int, int) {
        let grid = self.grid(max_tokens);
        (grid.rows * patch_size, grid.columns * patch_size)
    }
}

/// Resizes an input to the patch grid closest to its aspect ratio within a token budget.
pub fn muse_smart_resize(
    height: usize,
    width: usize,
    patch_size: usize,
    max_tokens: usize,
    steps: &GridSteps,
) -> (r: Result<(usize, usize), ProcessorPlanError>)
    requires
        steps.fit(patch_size as int, max_tokens as int),
    ensures
        match grid_fault(height as int, width as int, patch_size as int, max_tokens as int) {
            Some(fault) => refuses(r, fault),
            None => r matches Ok(sides) && (sides.0 as int, sides.1 as int) == steps.sides(
                patch_size as int,
                max_tokens as int,
            ),
        },
{
    if height == 0 || width == 0 || patch_size == 0 || max_tokens == 0 {
        return Err(unplanned("Muse-Glimmer smart resize requires positive dimensions"));
    }
    let grid: GridCandidate = steps.choose_grid(max_tokens);
    Ok((grid.rows * patch_size, grid.columns * patch_size))
}

/// The chosen grid is admissible and no candidate within the budget is closer, wherever one is
/// admissible.
pub proof fn law_grid_is_closest_within_budget(steps: GridSteps, max_tokens: int)
    requires
        steps.low.admissible(max_tokens) || steps.low_high.admissible(max_tokens)
            || steps.high_low.admissible(max_tokens) || steps.high.admissible(max_tokens),
    ensures
        ({
            let grid = steps.grid(max_tokens);
            &&& grid.admissible(max_tokens)
            &&& grid == steps.low || grid == steps.low_high || grid == steps.high_low || grid
                == steps.high
            &&& steps.low.admissible(max_tokens) ==> grid.distance <= steps.low.distance
            &&& steps.low_high.admissible(max_tokens) ==> grid.distance <= steps.low_high.distance
            &&& steps.high_low.admissible(max_tokens) ==> grid.distance <= steps.high_low.distance
            &&& steps.high.admissible(max_tokens) ==> grid.distance <= steps.high.distance
        }),
{
}

/// Resized sides are whole patches, and their grid stays within the token budget wherever a
/// candidate does.
pub proof fn law_muse_sides_are_whole_patches(steps: GridSteps, patch_size: int, max_tokens: int)
    requires
        patch_size > 0,
        max_tokens < usize::MAX,
        steps.closest(max_tokens) is Some,
    ensures
        ({
            let height = steps.grid(max_tokens).rows * patch_size;
            let width = steps.grid(max_tokens).columns * patch_size;
            &&& height % patch_size == 0
            &&& width % patch_size == 0
            &&& (height / patch_size) * (width / patch_size) <= max_tokens
        }),
{
    let rows = steps.grid(max_tokens).rows as int;
    let columns = steps.grid(max_tokens).columns as int;
    vstd::arithmetic::div_mod::lemma_mod_multiples_basic(rows, patch_size);
    vstd::arithmetic::div_mod::lemma_mod_multiples_basic(columns, patch_size);
    vstd::arithmetic::div_mod::lemma_div_by_multiple(rows, patch_size);
    vstd::arithmetic::div_mod::lemma_div_by_multiple(columns, patch_size);
}

/// Patch multiple of a visual configuration.
pub open spec fn patch_multiple(source: MuseVisualSource) -> int {
    source.patch_size * source.merge_size
}

/// Fault of transforming an input.
pub open spec fn transform_fault(
    source: MuseVisualSource,
    height: int,
    width: int,
    max_tokens: int,
) -> Option<Fault> {
    first_of(
        fault_if(
            patch_multiple(source) > usize::MAX,
            "Muse-Glimmer resize multiple overflow"@,
        ),
        grid_fault(height, width, patch_multiple(source), max_tokens),
    )
}

/// Transform of an input.
pub open spec fn muse_transformed(
    source: MuseVisualSource,
    height: int,
    width: int,
    max_tokens: int,
    steps: GridSteps,
) -> RgbTransformPlan {
    let grid = steps.grid(max_tokens);
    RgbTransformPlan {
        height: if source.do_resize {
            (grid.rows * patch_multiple(source)) as usize
        } else {
            height as usize
        },
        width: if source.do_resize {
            (grid.columns * patch_multiple(source)) as usize
        } else {
            width as usize
        },
        resample: RgbResample::Lanczos3,
        rescale_factor: if source.do_rescale {
            source.rescale_factor
        } else {
            Float32 { bits: ONE }
        },
        mean: if source.do_normalize {
            source.image_mean
        } else {
            even_channels(ZERO)
        },
        std: if source.do_normalize {
            source.image_std
        } else {
            even_channels(ONE)
        },
    }
}

fn muse_transform(
    source: &MuseVisualSource,
    height: usize,
    width: usize,
    max_tokens: usize,
    steps: &GridSteps,
) -> (r: Result<RgbTransformPlan, ProcessorPlanError>)
    requires
        steps.fit(patch_multiple(*source), max_tokens as int),
    ensures
        match transform_fault(*source, height as int, width as int, max_tokens as int) {
            Some(fault) => refuses(r, fault),
            None => r == Ok::<RgbTransformPlan, ProcessorPlanError>(
                muse_transformed(
                    *source,
                    height as int,
                    width as int,
                    max_tokens as int,
                    *steps,
                ),
            ),
        },
{
    let multiple: usize = match source.patch_size.checked_mul(source.merge_size) {
        Some(multiple) => multiple,
        None => {
            return Err(unplanned("Muse-Glimmer resize multiple overflow"));
        },
    };
    let (target_height, target_width) = muse_smart_resize(
        height,
        width,
        multiple,
        max_tokens,
        steps,
    )?;
    Ok(
        RgbTransformPlan {
            height: if source.do_resize {
                target_height
            } else {
                height
            },
            width: if source.do_resize {
                target_width
            } else {
                width
            },
            resample: RgbResample::Lanczos3,
            rescale_factor: if source.do_rescale {
                source.rescale_factor
            } else {
                Float32 { bits: ONE }
            },
            mean: if source.do_normalize {
                source.image_mean
            } else {
                channels(ZERO)
            },
            std: if source.do_normalize {
                source.image_std
            } else {
                channels(ONE)
            },
        },
    )
}

/// Patch geometry of a visual configuration.
pub open spec fn patches_of(source: MuseVisualSource) -> MusePatchPlan {
    MusePatchPlan {
        patch_size: source.patch_size,
        temporal_patch_size: source.temporal_patch_size,
        merge_size: source.merge_size,
    }
}

fn muse_patches(source: &MuseVisualSource) -> (r: MusePatchPlan)
    ensures
        r == patches_of(*source),
{
    MusePatchPlan {
        patch_size: source.patch_size,
        temporal_patch_size: source.temporal_patch_size,
        merge_size: source.merge_size,
    }
}

/// Fault of reading an image-only projector.
pub open spec fn projector_fault(metadata: Map<Seq<char>, MetadataValue>) -> Option<Fault> {
    first_of(
        fault_of(stored_channels(metadata, "clip.vision.image_mean"@)),
        first_of(
            fault_of(stored_channels(metadata, "clip.vision.image_std"@)),
            first_of(
                fault_of(
                    positive_usize(metadata, "clip.vision.patch_size"@, "Muse-Glimmer"@),
                ),
                fault_of(
                    positive_usize(
                        metadata,
                        "clip.vision.spatial_merge_size"@,
                        "Muse-Glimmer"@,
                    ),
                ),
            ),
        ),
    )
}

/// Whether `source` holds the settings of an image-only projector, and defaults for the rest.
pub open spec fn projector_declares(
    metadata: Map<Seq<char>, MetadataValue>,
    source: MuseVisualSource,
) -> bool {
    &&& source.do_resize
    &&& source.do_rescale
    &&& source.rescale_factor.bits == BYTE_SCALE
    &&& source.do_normalize
    &&& source.image_mean == stored_channels(metadata, "clip.vision.image_mean"@)->Ok_0
    &&& source.image_std == stored_channels(metadata, "clip.vision.image_std"@)->Ok_0
    &&& source.patch_size == positive_usize(
        metadata,
        "clip.vision.patch_size"@,
        "Muse-Glimmer"@,
    )->Ok_0
    &&& source.temporal_patch_size == 1
    &&& source.merge_size == positive_usize(
        metadata,
        "clip.vision.spatial_merge_size"@,
        "Muse-Glimmer"@,
    )->Ok_0
    &&& source.max_image_tokens == MUSE_IMAGE_TOKENS
    &&& source.max_video_frame_tokens == MUSE_VIDEO_TOKENS
    &&& source.num_frames == MUSE_VIDEO_FRAMES
    &&& source.fps.value.bits == DEFAULT_SAMPLING_RATE
    &&& source.fps.text@ == "2"@
    &&& source.do_sample_frames
    &&& source.resample == LANCZOS_RESAMPLE
}

/// Whether `r` is the outcome of planning from an image-only projector.
pub open spec fn projector_plans(
    metadata: Map<Seq<char>, MetadataValue>,
    r: Result<MuseProcessorPlan, ProcessorPlanError>,
) -> bool {
    match projector_fault(metadata) {
        Some(fault) => refuses(r, fault),
        None => r matches Ok(plan) && {
            &&& projector_declares(metadata, plan.image)
            &&& plan.video == plan.image
            &&& plan.image_only
        },
    }
}

/// The plan that a decoded processor configuration declares.
pub open spec fn muse_reading(document: Decoded<MuseProcessorSource>) -> Reading<
    MuseProcessorPlan,
> {
    match document {
        Err(error) => Err(Fault::Json(error)),
        Ok(source) => match first_of(
            muse_fault(source.image_processor, "image"@),
            muse_fault(source.video_processor, "video"@),
        ) {
            Some(fault) => Err(fault),
            None => Ok(
                MuseProcessorPlan {
                    image: source.image_processor,
                    video: source.video_processor,
                    image_only: false,
                },
            ),
        },
    }
}

/// Quotients that a video plan takes of its input.
#[derive(Debug, Clone)]
pub struct MuseVideoSteps {
    /// Frames that the video's length has at the sampling rate.
    pub requested: usize,
    /// Evenly spaced positions of the selected frames.
    pub positions: Vec<usize>,
    /// Numeral of the first second of every temporal group.
    pub seconds: Vec<String>,
    /// Grids of a frame.
    pub grid: GridSteps,
}

/// Number of frames asked for, before whole temporal groups are taken.
pub open spec fn asked_frames(
    source: MuseVisualSource,
    total: int,
    sampling: VideoSampling,
    requested: int,
) -> int {
    let limited = lesser(lesser(requested, source.num_frames as int), total);
    match sampling {
        VideoSampling::ProcessorDefault => if source.do_sample_frames {
            limited
        } else {
            total
        },
        VideoSampling::All => total,
        VideoSampling::Fps(_) => limited,
        VideoSampling::FrameCount(count) => lesser(count as int, total),
    }
}

/// Number of frames selected: whole temporal groups, within the video, and at least one frame.
pub open spec fn muse_frame_count(
    source: MuseVisualSource,
    total: int,
    sampling: VideoSampling,
    requested: int,
) -> int {
    let temporal = source.temporal_patch_size as int;
    let asked = greater(asked_frames(source, total, sampling, requested), temporal);
    greater(lesser((asked / temporal) * temporal, total), 1)
}

/// Selected frames make whole temporal groups, unless they are the whole video.
pub proof fn law_muse_counts_are_whole_groups(
    source: MuseVisualSource,
    total: int,
    sampling: VideoSampling,
    requested: int,
)
    requires
        source.temporal_patch_size > 0,
        total > 0,
    ensures
        ({
            let count = muse_frame_count(source, total, sampling, requested);
            &&& 1 <= count <= total
            &&& count % source.temporal_patch_size as int == 0 || count == total
        }),
{
    let temporal = source.temporal_patch_size as int;
    let asked = greater(asked_frames(source, total, sampling, requested), temporal);
    vstd::arithmetic::div_mod::lemma_mod_multiples_basic(asked / temporal, temporal);
    vstd::arithmetic::div_mod::lemma_div_non_zero(asked, temporal);
    assert((asked / temporal) * temporal >= 1) by (nonlinear_arith)
        requires
            asked / temporal > 0,
            temporal > 0,
    ;
}

impl MuseVideoSteps {
    /// Frames selected for the video.
    pub open spec fn frames(
        self,
        source: MuseVisualSource,
        total: int,
        sampling: VideoSampling,
    ) -> Seq<usize> {
        sampled_frames(
            total,
            muse_frame_count(source, total, sampling, self.requested as int),
            self.positions@,
        )
    }

    /// Temporal groups of the selected frames.
    pub open spec fn groups(self, frames: Seq<usize>, temporal: int) -> Seq<MuseGroup> {
        let padded = padded_frames(frames, temporal);
        let count = padded.len() as int / temporal;
        Seq::new(
            count as nat,
            |group: int|
                MuseGroup {
                    source_indices: group_frames(padded, temporal, group),
                    timestamp_text: "Time: "@ + self.seconds[group]@ + "s"@,
                    boundary_text: if group + 1 == count {
                        "<|vid_end|>"@
                    } else {
                        "<|vid_frame_separator|>"@
                    },
                },
        )
    }

    /// The quotients belong to the video, and every side and count fits a machine word.
    pub open spec fn ready(
        self,
        source: MuseVisualSource,
        total: int,
        sampling: VideoSampling,
    ) -> bool {
        let temporal = source.temporal_patch_size as int;
        let frames = self.frames(source, total, sampling);
        &&& positions_cover(
            total,
            muse_frame_count(source, total, sampling, self.requested as int),
            self.positions@,
        )
        &&& frames.len() + padding(frames.len() as int, temporal) <= usize::MAX
        &&& self.seconds.len() == padded_frames(frames, temporal).len() as int / temporal
        &&& self.grid.fit(patch_multiple(source), source.max_video_frame_tokens as int)
    }
}

impl MuseProcessorPlan {
    /// Plans from a decoded nested Hugging Face processor configuration.
    pub fn from_hf_json(document: Decoded<MuseProcessorSource>) -> (r: Result<
        MuseProcessorPlan,
        ProcessorPlanError,
    >)
        ensures
            answers(r, muse_reading(document)),
    {
        let source: MuseProcessorSource = match document {
            Ok(source) => source,
            Err(error) => {
                return Err(ProcessorPlanError::Json(error));
            },
        };
        validate_muse(&source.image_processor, "image")?;
        validate_muse(&source.video_processor, "video")?;
        Ok(
            MuseProcessorPlan {
                image: source.image_processor,
                video: source.video_processor,
                image_only: false,
            },
        )
    }

    /// Parses the official image-only projector policy from portable GGUF metadata.
    pub fn from_gguf_metadata(metadata: &StringMap<MetadataValue>) -> (r: Result<
        MuseProcessorPlan,
        ProcessorPlanError,
    >)
        ensures
            projector_plans(metadata@, r),
    {
        let image_mean: Channels = metadata_rgb(metadata, "clip.vision.image_mean")?;
        let image_std: Channels = metadata_rgb(metadata, "clip.vision.image_std")?;
        let patch_size: usize = required_metadata_usize(
            metadata,
            "clip.vision.patch_size",
            "Muse-Glimmer",
        )?;
        let merge_size: usize = required_metadata_usize(
            metadata,
            "clip.vision.spatial_merge_size",
            "Muse-Glimmer",
        )?;
        let image = MuseVisualSource {
            do_resize: true,
            do_rescale: true,
            rescale_factor: Float32 { bits: BYTE_SCALE },
            do_normalize: true,
            image_mean,
            image_std,
            patch_size,
            temporal_patch_size: 1,
            merge_size,
            max_image_tokens: MUSE_IMAGE_TOKENS,
            max_video_frame_tokens: MUSE_VIDEO_TOKENS,
            num_frames: MUSE_VIDEO_FRAMES,
            fps: FrameRate {
                value: Float64 { bits: DEFAULT_SAMPLING_RATE },
                text: "2".to_owned(),
            },
            do_sample_frames: true,
            resample: LANCZOS_RESAMPLE,
        };
        validate_muse(&image, "image")?;
        Ok(MuseProcessorPlan { video: image.clone(), image, image_only: true })
    }

    /// Whether `plan` is that of an image that nothing refuses.
    pub open spec fn plans_image(
        self,
        plan: MuseImagePlan,
        height: int,
        width: int,
        steps: GridSteps,
    ) -> bool {
        &&& plan.start_text@ == "<|image_start|>"@
        &&& plan.end_text@ == "<|image_end|>"@
        &&& plan.transform == muse_transformed(
            self.image,
            height,
            width,
            self.image.max_image_tokens as int,
            steps,
        )
        &&& plan.patches == patches_of(self.image)
    }

    /// Derives image framing, transform, and patch policy. `steps` are the grids of the image.
    pub fn image(&self, height: usize, width: usize, steps: &GridSteps) -> (r: Result<
        MuseImagePlan,
        ProcessorPlanError,
    >)
        requires
            steps.fit(patch_multiple(self.image), self.image.max_image_tokens as int),
        ensures
            match transform_fault(
                self.image,
                height as int,
                width as int,
                self.image.max_image_tokens as int,
            ) {
                Some(fault) => refuses(r, fault),
                None => r matches Ok(plan) && self.plans_image(
                    plan,
                    height as int,
                    width as int,
                    *steps,
                ),
            },
    {
        let transform: RgbTransformPlan = muse_transform(
            &self.image,
            height,
            width,
            self.image.max_image_tokens,
            steps,
        )?;
        Ok(
            MuseImagePlan {
                start_text: "<|image_start|>",
                end_text: "<|image_end|>",
                transform,
                patches: muse_patches(&self.image),
            },
        )
    }

    /// Fault of selecting frames of a video.
    pub open spec fn count_fault(
        self,
        source_fps: Option<FrameRate>,
        sampling: VideoSampling,
    ) -> Option<Fault> {
        first_of(
            fault_if(
                self.image_only,
                "the official Muse-Glimmer GGUF projector is image-only because its temporal patch weights are collapsed"@,
            ),
            first_of(
                source_rate_fault(source_fps, "Muse-Glimmer video source FPS"@),
                match sampling {
                    VideoSampling::Fps(target) => rate_fault(
                        target,
                        "Muse-Glimmer target FPS"@,
                    ),
                    _ => None,
                },
            ),
        )
    }

    /// Number of frames to select of a video. `requested` is the number of frames that its
    /// length has at the sampling rate.
    pub fn video_sample_count(
        &self,
        total_frames: usize,
        source_fps: &Option<FrameRate>,
        sampling: &VideoSampling,
        requested: usize,
    ) -> (r: Result<usize, ProcessorPlanError>)
        requires
            self.count_fault(*source_fps, *sampling) is None ==> self.video.temporal_patch_size
                > 0,
        ensures
            match self.count_fault(*source_fps, *sampling) {
                Some(fault) => refuses(r, fault),
                None => r matches Ok(count) && count == muse_frame_count(
                    self.video,
                    total_frames as int,
                    *sampling,
                    requested as int,
                ),
            },
    {
        if self.image_only {
            return Err(
                unplanned(
                    "the official Muse-Glimmer GGUF projector is image-only because its temporal patch weights are collapsed",
                ),
            );
        }
        let rate: FrameRate = source_rate(source_fps);
        validate_fps(&rate, "Muse-Glimmer video source FPS")?;
        let limited: usize = least(least(requested, self.video.num_frames), total_frames);
        let asked: usize = match sampling {
            VideoSampling::ProcessorDefault => if self.video.do_sample_frames {
                limited
            } else {
                total_frames
            },
            VideoSampling::All => total_frames,
            VideoSampling::Fps(target) => {
                validate_fps(target, "Muse-Glimmer target FPS")?;
                limited
            },
            VideoSampling::FrameCount(count) => least(*count, total_frames),
        };
        let temporal: usize = self.video.temporal_patch_size;
        let asked: usize = greatest(asked, temporal);
        proof {
            vstd::arithmetic::div_mod::lemma_fundamental_div_mod(asked as int, temporal as int);
            assert((asked / temporal) * temporal == temporal * (asked / temporal))
                by (nonlinear_arith);
        }
        let whole: usize = (asked / temporal) * temporal;
        Ok(greatest(least(whole, total_frames), 1))
    }

    /// Fault of planning a video.
    pub open spec fn video_fault(
        self,
        total: int,
        height: int,
        width: int,
        source_fps: Option<FrameRate>,
        sampling: VideoSampling,
        steps: MuseVideoSteps,
    ) -> Option<Fault> {
        first_of(
            self.count_fault(source_fps, sampling),
            first_of(
                sampling_fault(
                    total,
                    muse_frame_count(self.video, total, sampling, steps.requested as int),
                ),
                transform_fault(
                    self.video,
                    height,
                    width,
                    self.video.max_video_frame_tokens as int,
                ),
            ),
        )
    }

    /// Whether `plan` is that of a video that nothing refuses.
    pub open spec fn plans_video(
        self,
        plan: MuseVideoPlan,
        total: int,
        height: int,
        width: int,
        sampling: VideoSampling,
        steps: MuseVideoSteps,
    ) -> bool {
        &&& plan.start_text@ == "<|vid_start|>"@
        &&& plan.transform == muse_transformed(
            self.video,
            height,
            width,
            self.video.max_video_frame_tokens as int,
            steps.grid,
        )
        &&& plan.patches == patches_of(self.video)
        &&& plan.groups.deep_view() == steps.groups(
            steps.frames(self.video, total, sampling),
            self.video.temporal_patch_size as int,
        )
    }

    /// Derives video sampling, framing, transform, and patch policy. `steps` are the quotients
    /// of the video.
    pub fn video(
        &self,
        total_frames: usize,
        height: usize,
        width: usize,
        source_fps: &Option<FrameRate>,
        sampling: &VideoSampling,
        steps: &MuseVideoSteps,
    ) -> (r: Result<MuseVideoPlan, ProcessorPlanError>)
        requires
            self.count_fault(*source_fps, *sampling) is None ==> {
                &&& self.video.temporal_patch_size > 0
                &&& total_frames > 0 ==> steps.ready(self.video, total_frames as int, *sampling)
                &&& positions_cover(
                    total_frames as int,
                    muse_frame_count(
                        self.video,
                        total_frames as int,
                        *sampling,
                        steps.requested as int,
                    ),
                    steps.positions@,
                )
            },
        ensures
            match self.video_fault(
                total_frames as int,
                height as int,
                width as int,
                *source_fps,
                *sampling,
                *steps,
            ) {
                Some(fault) => refuses(r, fault),
                None => r matches Ok(plan) && self.plans_video(
                    plan,
                    total_frames as int,
                    height as int,
                    width as int,
                    *sampling,
                    *steps,
                ),
            },
    {
        let count: usize = self.video_sample_count(
            total_frames,
            source_fps,
            sampling,
            steps.requested,
        )?;
        let mut indices: Vec<usize> = uniform_sample_indices(
            total_frames,
            count,
            &steps.positions,
        )?;
        let ghost frames = indices@;
        pad_frame_indices(&mut indices, self.video.temporal_patch_size)?;
        let groups = group_video(
            &indices,
            self.video.temporal_patch_size,
            steps,
            Ghost(frames),
        );
        let transform: RgbTransformPlan = muse_transform(
            &self.video,
            height,
            width,
            self.video.max_video_frame_tokens,
            &steps.grid,
        )?;
        Ok(
            MuseVideoPlan {
                start_text: "<|vid_start|>",
                transform,
                patches: muse_patches(&self.video),
                groups,
            },
        )
    }
}

fn group_video(
    indices: &Vec<usize>,
    temporal: usize,
    steps: &MuseVideoSteps,
    Ghost(frames): Ghost<Seq<usize>>,
) -> (r: Vec<MuseVideoGroupPlan>)
    requires
        temporal > 0,
        indices@ == padded_frames(frames, temporal as int),
        steps.seconds.len() == indices.len() / temporal,
    ensures
        r.deep_view() == steps.groups(frames, temporal as int),
{
    let ghost all = steps.groups(frames, temporal as int);
    let count: usize = indices.len() / temporal;
    let mut groups: Vec<MuseVideoGroupPlan> = Vec::new();
    let mut group: usize = 0;
    assert(groups.deep_view() =~= all.take(0));
    while group < count
        invariant
            group <= count,
            count == indices.len() / temporal,
            temporal > 0,
            indices@ == padded_frames(frames, temporal as int),
            steps.seconds.len() == count,
            all == steps.groups(frames, temporal as int),
            all.len() == count,
            groups.deep_view() == all.take(group as int),
        decreases count - group,
    {
        push_item(
            &mut groups,
            MuseVideoGroupPlan {
                source_indices: take_group(indices, temporal, group),
                timestamp_text: "Time: ".to_owned().concat(steps.seconds[group].as_str()).concat(
                    "s",
                ),
                boundary_text: if group + 1 == count {
                    "<|vid_end|>"
                } else {
                    "<|vid_frame_separator|>"
                },
            },
        );
        assert(groups.deep_view() =~= all.take(group as int + 1));
        group = group + 1;
    }
    assert(all.take(all.len() as int) =~= all);
    groups
}

} // verus!
