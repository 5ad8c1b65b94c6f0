//! What a Muse-Glimmer plan is to its configuration and input.

use crate::errors::Fault;
use crate::float::Float32;
use crate::gemma_laws::stored_count;
use crate::media::{Channels, RgbTransformPlan, VideoSampling};
use crate::metadata::MetadataValue;
use crate::muse::{
    GridCandidate, GridSteps, MuseImagePlan, MuseProcessorPlan, MuseProcessorSource, MuseVideoPlan,
    MuseVideoSteps, MuseVisualSource, muse_frame_count, muse_reading, muse_transformed,
    patch_multiple, projector_declares, projector_fault, projector_plans, transform_fault,
};
use crate::qwen_laws::lemma_grouped;
use vstd::prelude::*;

verus! {

/// Whether a grid is not empty and needs no more than `max_tokens` tokens.
pub open spec fn within(grid: GridCandidate, max_tokens: int) -> bool {
    grid.rows > 0 && grid.columns > 0 && grid.rows * grid.columns <= max_tokens
}

/// Whether `grid` is chosen over `other`: the other one is out of the budget, or no closer.
pub open spec fn beats(grid: GridCandidate, other: GridCandidate, max_tokens: int) -> bool {
    within(other, max_tokens) ==> grid.distance <= other.distance
}

/// The chosen grid is one of the four around the ideal one that is within the budget and closest
/// to the input's aspect ratio, or the nearest grid where none is within it.
pub proof fn law_muse_grids_are_closest(steps: GridSteps, max_tokens: int)
    requires
        0 <= max_tokens < usize::MAX,
    ensures
        ({
            let grid = steps.grid(max_tokens);
            if within(steps.low, max_tokens) || within(steps.low_high, max_tokens) || within(
                steps.high_low,
                max_tokens,
            ) || within(steps.high, max_tokens) {
                &&& within(grid, max_tokens)
                &&& grid == steps.low || grid == steps.low_high || grid == steps.high_low || grid
                    == steps.high
                &&& beats(grid, steps.low, max_tokens)
                &&& beats(grid, steps.low_high, max_tokens)
                &&& beats(grid, steps.high_low, max_tokens)
                &&& beats(grid, steps.high, max_tokens)
            } else {
                grid == steps.nearest
            }
        }),
{
    assert(steps.low.admissible(max_tokens) == within(steps.low, max_tokens));
    assert(steps.low_high.admissible(max_tokens) == within(steps.low_high, max_tokens));
    assert(steps.high_low.admissible(max_tokens) == within(steps.high_low, max_tokens));
    assert(steps.high.admissible(max_tokens) == within(steps.high, max_tokens));
}

/// A resized input is as high as the rows of its grid and as wide as the columns, one patch each.
pub proof fn law_muse_sides_follow_the_grid(steps: GridSteps, patch_size: int, max_tokens: int)
    ensures
        steps.sides(patch_size, max_tokens).0 == steps.grid(max_tokens).rows * patch_size,
        steps.sides(patch_size, max_tokens).1 == steps.grid(max_tokens).columns * patch_size,
{
}

/// Whether a transform to `height` by `width` normalizes as the configuration says.
pub open spec fn transforms(
    transform: RgbTransformPlan,
    source: MuseVisualSource,
    height: int,
    width: int,
) -> bool {
    &&& transform.height == height
    &&& transform.width == width
    &&& transform.resample is Lanczos3
    &&& transform.rescale_factor == if source.do_rescale {
        source.rescale_factor
    } else {
        Float32 { bits: 0x3f80_0000 }
    }
    &&& if source.do_normalize {
        transform.mean == source.image_mean && transform.std == source.image_std
    } else {
        &&& transform.mean == Channels {
            red: Float32 { bits: 0 },
            green: Float32 { bits: 0 },
            blue: Float32 { bits: 0 },
        }
        &&& transform.std == Channels {
            red: Float32 { bits: 0x3f80_0000 },
            green: Float32 { bits: 0x3f80_0000 },
            blue: Float32 { bits: 0x3f80_0000 },
        }
    }
}

/// A transform has one merged patch for every row and column of the chosen grid, or keeps the
/// sides of its input where nothing is resized.
pub proof fn law_muse_transforms_follow_the_grid(
    source: MuseVisualSource,
    height: usize,
    width: usize,
    max_tokens: usize,
    steps: GridSteps,
)
    requires
        transform_fault(source, height as int, width as int, max_tokens as int) is None,
        steps.fit(patch_multiple(source), max_tokens as int),
    ensures
        ({
            let transform = muse_transformed(
                source,
                height as int,
                width as int,
                max_tokens as int,
                steps,
            );
            let grid = steps.grid(max_tokens as int);
            let side = source.patch_size * source.merge_size;
            &&& height > 0 && width > 0 && side > 0 && max_tokens > 0
            &&& if source.do_resize {
                transforms(transform, source, grid.rows * side, grid.columns * side)
            } else {
                transforms(transform, source, height as int, width as int)
            }
        }),
{
    let grid = steps.grid(max_tokens as int);
    let side = source.patch_size * source.merge_size;
    assert(side >= 0) by (nonlinear_arith)
        requires
            side == source.patch_size * source.merge_size,
    ;
    assert(grid.rows * side >= 0 && grid.columns * side >= 0) by (nonlinear_arith)
        requires
            side >= 0,
    ;
}

/// A planned image stands between the image markers, with the image configuration's patches and
/// its token budget.
pub proof fn law_muse_images_follow_their_configuration(
    plan: MuseProcessorPlan,
    image: MuseImagePlan,
    height: usize,
    width: usize,
    steps: GridSteps,
)
    requires
        plan.plans_image(image, height as int, width as int, steps),
    ensures
        image.start_text@ == "<|image_start|>"@,
        image.end_text@ == "<|image_end|>"@,
        image.patches.patch_size == plan.image.patch_size,
        image.patches.temporal_patch_size == plan.image.temporal_patch_size,
        image.patches.merge_size == plan.image.merge_size,
        image.transform == muse_transformed(
            plan.image,
            height as int,
            width as int,
            plan.image.max_image_tokens as int,
            steps,
        ),
{
}

/// A planned video opens with the video marker and has the video configuration's patches and
/// frame budget. Each temporal group holds the next whole extent of frames, the last frame
/// standing in for missing ones, under its own second; separators stand between the groups, and
/// the closing marker after the last.
pub proof fn law_muse_videos_follow_their_configuration(
    plan: MuseProcessorPlan,
    video: MuseVideoPlan,
    total: int,
    height: usize,
    width: usize,
    sampling: VideoSampling,
    steps: MuseVideoSteps,
    groups: int,
    group: int,
    at: int,
)
    requires
        plan.plans_video(video, total, height as int, width as int, sampling, steps),
        ({
            let frames = steps.frames(plan.video, total, sampling);
            let temporal = plan.video.temporal_patch_size as int;
            &&& temporal > 0
            &&& (groups - 1) * temporal < frames.len() <= groups * temporal
            &&& frames.len() > 0
            &&& 0 <= group < groups
            &&& 0 <= at < temporal
        }),
    ensures
        video.start_text@ == "<|vid_start|>"@,
        video.patches.patch_size == plan.video.patch_size,
        video.patches.temporal_patch_size == plan.video.temporal_patch_size,
        video.patches.merge_size == plan.video.merge_size,
        video.transform == muse_transformed(
            plan.video,
            height as int,
            width as int,
            plan.video.max_video_frame_tokens as int,
            steps.grid,
        ),
        video.groups.len() == groups,
        ({
            let frames = steps.frames(plan.video, total, sampling);
            let temporal = plan.video.temporal_patch_size as int;
            let held = video.groups[group];
            &&& held.source_indices.len() == temporal
            &&& held.source_indices[at] == if group * temporal + at < frames.len() {
                frames[group * temporal + at]
            } else {
                frames.last()
            }
            &&& held.timestamp_text@ == "Time: "@ + steps.seconds[group]@ + "s"@
            &&& group + 1 < groups ==> held.boundary_text@ == "<|vid_frame_separator|>"@
            &&& group + 1 == groups ==> held.boundary_text@ == "<|vid_end|>"@
        }),
{
    let frames = steps.frames(plan.video, total, sampling);
    let temporal = plan.video.temporal_patch_size as int;
    lemma_grouped(frames, temporal, groups, group, at);
    assert(video.groups.deep_view().len() == groups);
    assert(video.groups.deep_view()[group] == video.groups[group].deep_view());
}

/// Number of frames that a sampling asks for, before whole groups are taken.
pub open spec fn asks_for(
    source: MuseVisualSource,
    total: int,
    sampling: VideoSampling,
    requested: int,
    asked: int,
) -> bool {
    match sampling {
        VideoSampling::FrameCount(count) => {
            &&& asked <= count && asked <= total
            &&& asked == count || asked == total
        },
        VideoSampling::All => asked == total,
        VideoSampling::ProcessorDefault if !source.do_sample_frames => asked == total,
        _ => {
            &&& asked <= requested && asked <= source.num_frames && asked <= total
            &&& asked == requested || asked == source.num_frames || asked == total
        },
    }
}

/// As many whole temporal groups are taken as the asked frames fill, but at least one group, and
/// never more than the video has.
pub proof fn law_muse_frame_counts_follow_the_sampling(
    source: MuseVisualSource,
    total: int,
    sampling: VideoSampling,
    requested: int,
    asked: int,
)
    requires
        source.temporal_patch_size > 0,
        total > 0,
        requested >= 0,
        asks_for(source, total, sampling, requested, asked),
    ensures
        ({
            let count = muse_frame_count(source, total, sampling, requested);
            let temporal = source.temporal_patch_size as int;
            &&& 1 <= count <= total
            &&& count < total ==> count % temporal == 0
            &&& asked >= temporal ==> count <= asked && asked - temporal < count
            &&& asked < temporal ==> count <= temporal && (count == temporal || count == total)
        }),
{
    let temporal = source.temporal_patch_size as int;
    let whole = if asked >= temporal {
        asked
    } else {
        temporal
    };
    vstd::arithmetic::div_mod::lemma_fundamental_div_mod(whole, temporal);
    vstd::arithmetic::div_mod::lemma_mod_bound(whole, temporal);
    assert((whole / temporal) * temporal == temporal * (whole / temporal)) by (nonlinear_arith);
    vstd::arithmetic::div_mod::lemma_mod_multiples_basic(whole / temporal, temporal);
    if asked < temporal {
        vstd::arithmetic::div_mod::lemma_div_basics(temporal);
        vstd::arithmetic::div_mod::lemma_mod_self_0(temporal);
    }
    vstd::arithmetic::div_mod::lemma_div_non_zero(whole, temporal);
    assert((whole / temporal) * temporal >= 1) by (nonlinear_arith)
        requires
            whole / temporal > 0,
            temporal > 0,
    ;
}

/// Channels stored as floats under `key`, in their order.
pub open spec fn has_stored_channels(
    metadata: Map<Seq<char>, MetadataValue>,
    key: Seq<char>,
    channels: Channels,
) -> bool {
    metadata[key].f32_array->0@ == seq![channels.red, channels.green, channels.blue]
}

/// An image-only projector's settings are those stored under its own keys, with the released
/// budgets and rate beside them.
pub proof fn law_muse_projectors_follow_metadata(
    metadata: Map<Seq<char>, MetadataValue>,
    source: MuseVisualSource,
)
    requires
        projector_fault(metadata) is None,
        projector_declares(metadata, source),
    ensures
        stored_count(metadata, "clip.vision.patch_size"@) == Some(source.patch_size as int),
        stored_count(metadata, "clip.vision.spatial_merge_size"@) == Some(
            source.merge_size as int,
        ),
        source.patch_size > 0 && source.merge_size > 0,
        has_stored_channels(metadata, "clip.vision.image_mean"@, source.image_mean),
        has_stored_channels(metadata, "clip.vision.image_std"@, source.image_std),
        source.temporal_patch_size == 1,
        source.max_image_tokens == 4096,
        source.max_video_frame_tokens == 144,
        source.num_frames == 96,
        source.fps.value.bits == 0x4000_0000_0000_0000,
        source.rescale_factor.bits == 0x3b80_8081,
        source.resample == 1,
        source.do_resize && source.do_rescale && source.do_normalize && source.do_sample_frames,
{
    let mean = metadata["clip.vision.image_mean"@].f32_array->0@;
    let deviation = metadata["clip.vision.image_std"@].f32_array->0@;
    assert(mean =~= seq![source.image_mean.red, source.image_mean.green, source.image_mean.blue]);
    assert(deviation =~= seq![
        source.image_std.red,
        source.image_std.green,
        source.image_std.blue,
    ]);
}

/// A processor document gives images and videos each its own configuration, for both kinds of
/// media.
pub proof fn law_muse_documents_are_held(source: MuseProcessorSource, plan: MuseProcessorPlan)
    requires
        muse_reading(Ok(source)) == Ok::<MuseProcessorPlan, Fault>(plan),
    ensures
        plan.image == source.image_processor,
        plan.video == source.video_processor,
        !plan.image_only,
{
}

/// A projector gives a plan for images alone, with the settings that it stores.
pub proof fn law_muse_projectors_are_for_images(
    metadata: Map<Seq<char>, MetadataValue>,
    plan: MuseProcessorPlan,
)
    requires
        projector_plans(metadata, Ok(plan)),
    ensures
        plan.image_only,
        projector_declares(metadata, plan.image),
        plan.video == plan.image,
{
}

} // verus!
