//! What a Qwen plan is to its configuration and input.

use crate::errors::Decoded;
use crate::float::Float32;
use crate::media::{Channels, RgbTransformPlan, VideoSampling, group_frames, padded_frames, padding};
use crate::metadata::MetadataValue;
use crate::qwen::{
    QwenModelSource, QwenProcessorPlan, QwenProjector, QwenVideoSteps, QwenVisualSource,
    ResizeSteps, documents_reading, resize_factor, resized_image, resized_video, selected_frames,
};
use vstd::prelude::*;

verus! {

/// Whether `side` is `quotient` factors long, and at least one.
pub open spec fn is_factors(side: int, quotient: usize, factor: int) -> bool {
    &&& side >= factor
    &&& side >= quotient * factor
    &&& side == factor || side == quotient * factor
}

/// Pixels counted in a machine word.
pub open spec fn counted(pixels: int) -> int {
    if pixels <= usize::MAX {
        pixels
    } else {
        usize::MAX as int
    }
}

/// Whether `height` and `width` follow their own quotients: those at the largest budget where
/// `volume` is above it, those at the smallest where it is below, and the rounded ones between.
pub open spec fn follow_quotients(
    height: int,
    width: int,
    factor: int,
    volume: int,
    least: int,
    most: int,
    steps: ResizeSteps,
) -> bool {
    if volume > most {
        &&& is_factors(height, steps.shrunk_height, factor)
        &&& is_factors(width, steps.shrunk_width, factor)
    } else if volume < least {
        &&& height == steps.grown_height * factor
        &&& width == steps.grown_width * factor
    } else {
        &&& is_factors(height, steps.rounded_height, factor)
        &&& is_factors(width, steps.rounded_width, factor)
    }
}

proof fn lemma_product_order(left: int, right: int, factor: int)
    requires
        left <= right,
        factor >= 0,
    ensures
        left * factor <= right * factor,
{
    assert(left * factor <= right * factor) by (nonlinear_arith)
        requires
            left <= right,
            factor >= 0,
    ;
}

/// Each side of a resized image follows its own quotients. The budget is that of the whole
/// image, and a landscape input stays one.
pub proof fn law_resized_images_follow_their_quotients(
    factor: int,
    min_pixels: int,
    max_pixels: int,
    steps: ResizeSteps,
    rounded_height: int,
    rounded_width: int,
)
    requires
        factor > 0,
        is_factors(rounded_height, steps.rounded_height, factor),
        is_factors(rounded_width, steps.rounded_width, factor),
    ensures
        ({
            let sides = resized_image(factor, min_pixels, max_pixels, steps);
            let area = counted(rounded_height * rounded_width);
            &&& follow_quotients(sides.0, sides.1, factor, area, min_pixels, max_pixels, steps)
            &&& steps.shrunk_height <= steps.shrunk_width && steps.grown_height
                <= steps.grown_width && steps.rounded_height <= steps.rounded_width ==> sides.0
                <= sides.1
            &&& steps.shrunk_width <= steps.shrunk_height && steps.grown_width
                <= steps.grown_height && steps.rounded_width <= steps.rounded_height ==> sides.1
                <= sides.0
        }),
{
    lemma_orders(factor, steps);
    assert(steps.rounded(factor) == (rounded_height, rounded_width));
}

proof fn lemma_orders(factor: int, steps: ResizeSteps)
    requires
        factor > 0,
    ensures
        steps.shrunk_height <= steps.shrunk_width ==> steps.shrunk_height * factor
            <= steps.shrunk_width * factor,
        steps.shrunk_width <= steps.shrunk_height ==> steps.shrunk_width * factor
            <= steps.shrunk_height * factor,
        steps.grown_height <= steps.grown_width ==> steps.grown_height * factor
            <= steps.grown_width * factor,
        steps.grown_width <= steps.grown_height ==> steps.grown_width * factor
            <= steps.grown_height * factor,
        steps.rounded_height <= steps.rounded_width ==> steps.rounded_height * factor
            <= steps.rounded_width * factor,
        steps.rounded_width <= steps.rounded_height ==> steps.rounded_width * factor
            <= steps.rounded_height * factor,
{
    if steps.shrunk_height <= steps.shrunk_width {
        lemma_product_order(steps.shrunk_height as int, steps.shrunk_width as int, factor);
    }
    if steps.shrunk_width <= steps.shrunk_height {
        lemma_product_order(steps.shrunk_width as int, steps.shrunk_height as int, factor);
    }
    if steps.grown_height <= steps.grown_width {
        lemma_product_order(steps.grown_height as int, steps.grown_width as int, factor);
    }
    if steps.grown_width <= steps.grown_height {
        lemma_product_order(steps.grown_width as int, steps.grown_height as int, factor);
    }
    if steps.rounded_height <= steps.rounded_width {
        lemma_product_order(steps.rounded_height as int, steps.rounded_width as int, factor);
    }
    if steps.rounded_width <= steps.rounded_height {
        lemma_product_order(steps.rounded_width as int, steps.rounded_height as int, factor);
    }
}

/// Each side of a resized video follows its own quotients. The budget is that of all frames
/// together, counted in whole temporal groups.
pub proof fn law_resized_videos_follow_their_quotients(
    groups: int,
    num_frames: int,
    temporal_factor: int,
    factor: int,
    min_pixels: int,
    max_pixels: int,
    steps: ResizeSteps,
    rounded_height: int,
    rounded_width: int,
)
    requires
        factor > 0,
        temporal_factor > 0,
        (groups - 1) * temporal_factor < num_frames <= groups * temporal_factor,
        is_factors(rounded_height, steps.rounded_height, factor),
        is_factors(rounded_width, steps.rounded_width, factor),
    ensures
        ({
            let sides = resized_video(
                num_frames,
                temporal_factor,
                factor,
                min_pixels,
                max_pixels,
                steps,
            );
            let volume = counted(counted(groups * temporal_factor * rounded_height) * rounded_width);
            &&& follow_quotients(sides.0, sides.1, factor, volume, min_pixels, max_pixels, steps)
            &&& steps.shrunk_height <= steps.shrunk_width && steps.grown_height
                <= steps.grown_width && steps.rounded_height <= steps.rounded_width ==> sides.0
                <= sides.1
            &&& steps.shrunk_width <= steps.shrunk_height && steps.grown_width
                <= steps.grown_height && steps.rounded_width <= steps.rounded_height ==> sides.1
                <= sides.0
        }),
{
    lemma_orders(factor, steps);
    assert(steps.rounded(factor) == (rounded_height, rounded_width));
    lemma_whole_groups(groups, num_frames, temporal_factor);
}

/// Padding completes the last group and no more.
pub(crate) proof fn lemma_whole_groups(groups: int, frames: int, temporal_factor: int)
    requires
        temporal_factor > 0,
        (groups - 1) * temporal_factor < frames <= groups * temporal_factor,
    ensures
        frames + padding(frames, temporal_factor) == groups * temporal_factor,
{
    let missing = groups * temporal_factor - frames;
    assert(groups * temporal_factor == (groups - 1) * temporal_factor + temporal_factor)
        by (nonlinear_arith);
    assert(0 <= missing < temporal_factor);
    if missing == 0 {
        vstd::arithmetic::div_mod::lemma_mod_multiples_basic(groups, temporal_factor);
    } else {
        assert(frames == temporal_factor * (groups - 1) + (temporal_factor - missing))
            by (nonlinear_arith)
            requires
                missing == groups * temporal_factor - frames,
        ;
        vstd::arithmetic::div_mod::lemma_fundamental_div_mod_converse(
            frames,
            temporal_factor,
            groups - 1,
            temporal_factor - missing,
        );
    }
}

/// Whether a transform normalizes as the configuration says: only where it asks for it, and by
/// its own means and deviations.
pub open spec fn normalizes(transform: RgbTransformPlan, source: QwenVisualSource) -> bool {
    &&& transform.resample is Bicubic
    &&& transform.rescale_factor == if source.do_rescale {
        source.rescale_factor
    } else {
        Float32 { bits: 0x3f80_0000 }
    }
    &&& if source.do_normalize {
        transform.mean == source.image_mean && transform.std == source.image_std
    } else {
        &&& transform.mean == Channels {
            red: Float32 { bits: 0 },
            green: Float32 { bits: 0 },
            blue: Float32 { bits: 0 },
        }
        &&& transform.std == Channels {
            red: Float32 { bits: 0x3f80_0000 },
            green: Float32 { bits: 0x3f80_0000 },
            blue: Float32 { bits: 0x3f80_0000 },
        }
    }
}

/// A planned image has the framing of the plan, the patches and normalization of its
/// configuration, and its own sides unless it is resized: those of its quotients at a factor of
/// whole merged patches, within the configured budget.
pub proof fn law_qwen_images_follow_their_configuration(
    plan: QwenProcessorPlan,
    height: usize,
    width: usize,
    steps: ResizeSteps,
)
    requires
        plan.image_fault(height as int, width as int, steps) is None,
        steps.fit(resize_factor(plan.image->0)),
        plan.image->0.size.longest_edge <= usize::MAX,
        plan.image->0.size.shortest_edge <= usize::MAX,
    ensures
        ({
            let source = plan.image->0;
            let image = plan.image_plan(height as int, width as int, steps);
            let factor = source.patch_size * source.merge_size;
            &&& plan.framing == Some(image.framing)
            &&& image.patches.patch_size == source.patch_size
            &&& image.patches.temporal_patch_size == source.temporal_patch_size
            &&& image.patches.merge_size == source.merge_size
            &&& normalizes(image.transform, source)
            &&& !source.do_resize ==> image.transform.height == height && image.transform.width
                == width
            &&& source.do_resize ==> {
                let sides = resized_image(
                    factor,
                    source.size.shortest_edge as int,
                    source.size.longest_edge as int,
                    steps,
                );
                image.transform.height == sides.0 && image.transform.width == sides.1
            }
        }),
{
}

/// A planned video has the patches and normalization of its configuration, and its own sides
/// unless it is resized.
pub proof fn law_qwen_videos_follow_their_configuration(
    plan: QwenProcessorPlan,
    total: usize,
    height: usize,
    width: usize,
    sampling: VideoSampling,
    steps: QwenVideoSteps,
)
    requires
        plan.video is Some,
        steps.resize.fit(resize_factor(plan.video->0)),
        plan.video->0.patch_size * plan.video->0.merge_size <= usize::MAX,
        plan.video->0.size.longest_edge <= usize::MAX,
        plan.video->0.size.shortest_edge <= usize::MAX,
    ensures
        ({
            let source = plan.video->0;
            let video = plan.video_geometry(
                total as int,
                height as int,
                width as int,
                sampling,
                steps,
            );
            let frames = steps.frames(source, total as int, sampling);
            &&& video.patches.patch_size == source.patch_size
            &&& video.patches.temporal_patch_size == source.temporal_patch_size
            &&& video.patches.merge_size == source.merge_size
            &&& normalizes(video.transform, source)
            &&& !source.do_resize ==> video.transform.height == height && video.transform.width
                == width
            &&& source.do_resize ==> {
                let sides = resized_video(
                    frames.len() as int,
                    source.temporal_patch_size as int,
                    source.patch_size * source.merge_size,
                    source.size.shortest_edge as int,
                    source.size.longest_edge as int,
                    steps.resize,
                );
                video.transform.height == sides.0 && video.transform.width == sides.1
            }
            &&& video.groups == steps.groups(frames, source.temporal_patch_size as int)
        }),
{
}

/// Frames are chosen as they were asked for: all of them, a count kept within the video, or as
/// many as the sampling rate gives within the configured limits.
pub proof fn law_qwen_frame_counts_follow_the_sampling(
    source: QwenVisualSource,
    total: int,
    sampling: VideoSampling,
    requested: int,
)
    requires
        total > 0,
        0 < source.min_frames <= source.max_frames,
        requested >= 0,
    ensures
        ({
            let count = selected_frames(source, total, sampling, requested);
            let limited = match sampling {
                VideoSampling::ProcessorDefault => source.do_sample_frames,
                VideoSampling::Fps(_) => true,
                _ => false,
            };
            let whole = match sampling {
                VideoSampling::ProcessorDefault => !source.do_sample_frames,
                VideoSampling::All => true,
                _ => false,
            };
            &&& 1 <= count <= total
            &&& whole ==> count == total
            &&& sampling matches VideoSampling::FrameCount(asked) ==> {
                &&& count <= asked || asked == 0 && count == 1
                &&& count == asked || count == total || count == 1
                &&& asked <= total ==> count >= asked
                &&& asked > total ==> count == total
            }
            &&& limited ==> {
                &&& count <= source.max_frames
                &&& requested > source.max_frames && total >= source.max_frames ==> count
                    == source.max_frames
                &&& source.min_frames <= requested <= source.max_frames && total >= requested
                    ==> count == requested
                &&& requested < source.min_frames && total >= source.min_frames ==> count
                    == source.min_frames
            }
        }),
{
}

/// Temporal group `group` of a video holds the next whole extent of its frames, the last frame
/// standing in for missing ones, under the numeral of its own second.
pub proof fn law_qwen_groups_hold_their_frames(
    steps: QwenVideoSteps,
    frames: Seq<usize>,
    temporal: int,
    groups: int,
    group: int,
    at: int,
)
    requires
        temporal > 0,
        (groups - 1) * temporal < frames.len() <= groups * temporal,
        frames.len() > 0,
        0 <= group < groups,
        0 <= at < temporal,
    ensures
        steps.groups(frames, temporal).len() == groups,
        steps.groups(frames, temporal)[group].0.len() == temporal,
        steps.groups(frames, temporal)[group].0[at] == if group * temporal + at < frames.len() {
            frames[group * temporal + at]
        } else {
            frames.last()
        },
        steps.groups(frames, temporal)[group].1 == "<"@ + steps.seconds[group]@ + " seconds>"@,
{
    lemma_grouped(frames, temporal, groups, group, at);
}

/// Frames of a temporal group: the next whole extent, the last frame standing in for missing
/// ones.
pub(crate) proof fn lemma_grouped(
    frames: Seq<usize>,
    temporal: int,
    groups: int,
    group: int,
    at: int,
)
    requires
        temporal > 0,
        (groups - 1) * temporal < frames.len() <= groups * temporal,
        frames.len() > 0,
        0 <= group < groups,
        0 <= at < temporal,
    ensures
        padded_frames(frames, temporal).len() == groups * temporal,
        padded_frames(frames, temporal).len() as int / temporal == groups,
        group_frames(padded_frames(frames, temporal), temporal, group).len() == temporal,
        group_frames(padded_frames(frames, temporal), temporal, group)[at] == if group * temporal
            + at < frames.len() {
            frames[group * temporal + at]
        } else {
            frames.last()
        },
{
    lemma_whole_groups(groups, frames.len() as int, temporal);
    let padded = padded_frames(frames, temporal);
    assert(padding(frames.len() as int, temporal) >= 0) by {
        vstd::arithmetic::div_mod::lemma_mod_bound(frames.len() as int, temporal);
    }
    assert(padded.len() == groups * temporal);
    vstd::arithmetic::div_mod::lemma_div_multiples_vanish(groups, temporal);
    vstd::arithmetic::mul::lemma_mul_is_commutative(groups, temporal);
    assert((group + 1) * temporal == group * temporal + temporal) by (nonlinear_arith);
    assert(0 <= group * temporal && (group + 1) * temporal <= groups * temporal)
        by (nonlinear_arith)
        requires
            0 <= group < groups,
            temporal > 0,
    ;
}

/// A document plan holds the documents it was given and the framing tokens of the model, or else
/// of its text configuration.
pub proof fn law_qwen_documents_are_held(
    model: Decoded<QwenModelSource>,
    image: Option<Decoded<QwenVisualSource>>,
    video: Option<Decoded<QwenVisualSource>>,
    plan: QwenProcessorPlan,
)
    requires
        documents_reading(model, image, video) == Ok::<_, crate::errors::Fault>(Some(plan)),
    ensures
        image is Some || video is Some,
        image matches Some(document) ==> document is Ok && plan.image == Some(document->Ok_0),
        image is None ==> plan.image is None,
        video matches Some(document) ==> document is Ok && plan.video == Some(document->Ok_0),
        video is None ==> plan.video is None,
        model is Ok,
        plan.framing is Some,
        ({
            let tokens = model->Ok_0;
            let framing = plan.framing->0;
            &&& Some(framing.start_token_id) == if tokens.vision_start_token_id is Some {
                tokens.vision_start_token_id
            } else {
                tokens.text_config->0.vision_start_token_id
            }
            &&& Some(framing.end_token_id) == if tokens.vision_end_token_id is Some {
                tokens.vision_end_token_id
            } else {
                tokens.text_config->0.vision_end_token_id
            }
        }),
{
}

/// Number stored alone under `key`, where there is one.
pub open spec fn stored_single(metadata: Map<Seq<char>, MetadataValue>, key: Seq<char>) -> Option<
    int,
> {
    if metadata.contains_key(key) && metadata[key].to_u32_vec is Some
        && metadata[key].to_u32_vec->0.len() == 1 {
        Some(metadata[key].to_u32_vec->0[0] as int)
    } else {
        None
    }
}

/// Channels stored under `key`, in their order.
pub open spec fn has_channels(
    metadata: Map<Seq<char>, MetadataValue>,
    key: Seq<char>,
    channels: Channels,
) -> bool {
    metadata[key].to_f32_vec->0@ == seq![channels.red, channels.green, channels.blue]
}

/// A projector's settings are those stored under its own keys. Unless it stores a budget, it is
/// that of eight to 4096 tokens, each of a square of merged patches.
pub proof fn law_qwen_projectors_follow_metadata(
    projector: QwenProjector,
    source: QwenVisualSource,
)
    requires
        projector.reading_fault() is None,
        projector.declares(source),
        usize::BITS == 64,
    ensures
        ({
            let metadata = projector.metadata;
            let side = source.patch_size * source.merge_size;
            &&& stored_single(metadata, "clip.vision.patch_size"@) == Some(
                source.patch_size as int,
            )
            &&& source.merge_size == match stored_single(
                metadata,
                "clip.vision.spatial_merge_size"@,
            ) {
                Some(size) => size,
                None => 2,
            }
            &&& source.size.shortest_edge == match stored_single(
                metadata,
                "clip.vision.image_min_pixels"@,
            ) {
                Some(pixels) => pixels,
                None => 8 * (side * side),
            }
            &&& source.size.longest_edge == match stored_single(
                metadata,
                "clip.vision.image_max_pixels"@,
            ) {
                Some(pixels) => pixels,
                None => 4096 * (side * side),
            }
            &&& source.temporal_patch_size == 2
            &&& has_channels(metadata, "clip.vision.image_mean"@, source.image_mean)
            &&& has_channels(metadata, "clip.vision.image_std"@, source.image_std)
            &&& source.do_resize && source.do_rescale && source.do_normalize
                && source.do_sample_frames
            &&& source.rescale_factor.bits == 0x3b80_8081
            &&& source.resample == 3
            &&& source.fps.value.bits == 0x4000_0000_0000_0000
            &&& source.min_frames == 4
            &&& source.max_frames == 768
        }),
{
    let metadata = projector.metadata;
    let mean = metadata["clip.vision.image_mean"@].to_f32_vec->0@;
    let deviation = metadata["clip.vision.image_std"@].to_f32_vec->0@;
    assert(mean =~= seq![source.image_mean.red, source.image_mean.green, source.image_mean.blue]);
    assert(deviation =~= seq![
        source.image_std.red,
        source.image_std.green,
        source.image_std.blue,
    ]);
    assert(projector.pixels_per_token() >= 0) by (nonlinear_arith)
        requires
            projector.pixels_per_token() == (projector.patch_size() * projector.merge_size()) * (
            projector.patch_size() * projector.merge_size()),
    ;
}

} // verus!
