//! Which inputs are admitted: exactly those for which every condition holds.

use crate::config::ModelArgs;
use crate::errors::Fault;
use crate::experts::{bank_fault, residency_fault};
use crate::family::{AudioConfig, VisionConfig};
use crate::float::Float32;
use crate::gemma_processor::{
    Gemma4ProcessorPlan, Gemma4VisualPolicy, ScaledSides, budget_fault, gemma_sides, sides_fault,
};
use crate::geometry::{dimension_fault, product_fault};
use crate::gguf_plan::{gguf_fault, gguf_layer_fault, gguf_layers_fault};
use crate::inkling::range_fault;
use crate::media::{
    FrameRate, VideoSampling, frame_count_fault, limited_frames, padding_fault, sampling_fault,
    target_fault,
};
use crate::media_metadata::{
    converted_channels, optional_single, optional_u32, optional_u64, optional_usize,
    positive_usize, required_single, stored_channels,
};
use crate::metadata::{MetadataInteger, MetadataValue};
use crate::muse::{MuseProcessorPlan, MuseVisualSource, muse_fault, transform_fault};
use crate::qwen::{
    QwenProcessorPlan, QwenVisualSource, ResizeSteps, image_resize_fault, video_resize_fault,
    visual_fault,
};
use crate::safetensors_media::{audio_fault, vision_fault};
use crate::safetensors_text::{attention_fault, expert_fault};
use vstd::prelude::*;

verus! {

/// A binary32 value is finite below the encoding of infinity, sign apart. Positive values are
/// ordered as their encodings are, negative ones the other way round and below them, and both
/// zeros are one.
pub proof fn law_encodings_order_their_values(left: Float32, right: Float32)
    ensures
        left.bits < 0x8000_0000 ==> left.finite() == (left.bits < 0x7f80_0000),
        left.bits >= 0x8000_0000 ==> left.finite() == (left.bits < 0xff80_0000),
        left.finite_positive() == (0 < left.bits < 0x7f80_0000),
        left.bits < 0x8000_0000 && right.bits < 0x8000_0000 ==> (left.rank() < right.rank())
            == (left.bits < right.bits),
        left.bits >= 0x8000_0000 && right.bits >= 0x8000_0000 ==> (left.rank() < right.rank())
            == (left.bits > right.bits),
        left.bits > 0x8000_0000 && right.bits < 0x8000_0000 ==> left.rank() < right.rank(),
        left.bits == 0x8000_0000 && right.bits == 0 ==> left.rank() == right.rank(),
{
}

/// Whether a rate is finite and above zero.
pub open spec fn is_rate(rate: FrameRate) -> bool {
    0 < rate.value.bits < 0x7ff0_0000_0000_0000
}

/// A frame count is chosen for two rates and limits that are positive and in order, a sample is
/// taken of positive counts, and frames are padded to a positive extent where there are any.
pub proof fn law_sampling_needs_positive_counts(
    source: FrameRate,
    target: FrameRate,
    min_frames: int,
    max_frames: int,
    total: int,
    count: int,
    temporal: int,
)
    requires
        min_frames >= 0,
        total >= 0,
        count >= 0,
        temporal >= 0,
    ensures
        frame_count_fault(source, target, min_frames, max_frames) is None <==> is_rate(source)
            && is_rate(target) && 0 < min_frames <= max_frames,
        target_fault(target, min_frames, max_frames) is None <==> is_rate(target) && 0 < min_frames
            <= max_frames,
        sampling_fault(total, count) is None <==> total > 0 && count > 0,
        padding_fault(count, temporal) is None <==> count > 0 && temporal > 0,
{
}

/// The frame count is the requested one, raised to the lower limit, lowered to the upper limit
/// and to the length of the video, and never none.
pub proof fn law_frame_counts_are_limited(
    requested: int,
    min_frames: int,
    max_frames: int,
    total: int,
)
    requires
        0 < min_frames <= max_frames,
        total >= 0,
    ensures
        ({
            let count = limited_frames(requested, min_frames, max_frames, total);
            &&& min_frames <= requested <= max_frames && requested <= total ==> count == requested
            &&& requested < min_frames && min_frames <= total ==> count == min_frames
            &&& requested > max_frames && max_frames <= total ==> count == max_frames
            &&& 0 < total <= requested && total <= max_frames ==> count == total
            &&& 0 < total <= min_frames ==> count == total
            &&& total == 0 ==> count == 1
        }),
{
}

/// A dimension is admitted where it is positive, and a product where it fits the machine.
pub proof fn law_geometry_is_positive_and_fits(
    value: i32,
    left: int,
    right: int,
    name: Seq<char>,
)
    ensures
        dimension_fault(value, name) is None <==> value > 0,
        product_fault(left, right, name) is None <==> left * right <= usize::MAX,
{
}

/// Whether a Qwen configuration can be used.
pub open spec fn is_usable(source: QwenVisualSource) -> bool {
    &&& source.patch_size > 0
    &&& source.temporal_patch_size > 0
    &&& source.merge_size > 0
    &&& 0 < source.size.shortest_edge <= source.size.longest_edge
    &&& source.resample == 3
    &&& is_rate(source.fps)
    &&& 0 < source.min_frames <= source.max_frames
}

/// A Qwen configuration is admitted where patches, pixel limits, rate, and frame limits are
/// positive and in order, and resampling is bicubic.
pub proof fn law_qwen_configurations_are_usable(source: QwenVisualSource)
    ensures
        visual_fault(source) is None <==> is_usable(source),
{
}

/// An image is resized where its sides and factor are positive, and a video where it has frames
/// and both sides hold the factor; neither where it is too elongated.
pub proof fn law_resizing_needs_room(
    frames: int,
    height: int,
    width: int,
    temporal: int,
    factor: int,
    steps: ResizeSteps,
)
    requires
        frames >= 0,
        height >= 0,
        width >= 0,
        temporal >= 0,
        factor >= 0,
    ensures
        image_resize_fault(height, width, factor, steps) is None <==> height > 0 && width > 0
            && factor > 0 && !steps.above_limit,
        video_resize_fault(frames, height, width, temporal, factor, steps) is None <==> frames > 0
            && temporal > 0 && factor > 0 && height >= factor && width >= factor
            && !steps.above_limit,
{
}

/// A Qwen image is planned where images are configured, framing is bound, its merged patch fits
/// the machine, and it can be resized where it is to be.
pub proof fn law_qwen_images_are_admitted(
    plan: QwenProcessorPlan,
    height: int,
    width: int,
    steps: ResizeSteps,
)
    requires
        height >= 0,
        width >= 0,
    ensures
        plan.image_fault(height, width, steps) is None <==> plan.image is Some && plan.framing
            is Some && ({
            let factor = plan.image->0.patch_size * plan.image->0.merge_size;
            &&& factor <= usize::MAX
            &&& plan.image->0.do_resize ==> height > 0 && width > 0 && factor > 0
                && !steps.above_limit
        }),
{
    if let Some(source) = plan.image {
        assert(source.patch_size * source.merge_size >= 0) by (nonlinear_arith);
    }
}

/// Frames of a Qwen video are selected where videos are configured, the declared rate is
/// positive, and so is the rate to sample at, with limits in order, where frames are sampled at
/// a rate.
pub proof fn law_qwen_videos_are_admitted(
    plan: QwenProcessorPlan,
    source_fps: Option<FrameRate>,
    sampling: VideoSampling,
)
    ensures
        plan.count_fault(source_fps, sampling) is None <==> plan.video is Some && (source_fps
            is Some ==> is_rate(source_fps->0)) && match sampling {
            VideoSampling::ProcessorDefault => plan.video->0.do_sample_frames ==> is_rate(
                plan.video->0.fps,
            ) && 0 < plan.video->0.min_frames <= plan.video->0.max_frames,
            VideoSampling::Fps(target) => is_rate(target) && 0 < plan.video->0.min_frames
                <= plan.video->0.max_frames,
            _ => true,
        },
{
}

/// Frames of a Gemma 4 video are selected where videos are configured, framing is bound, and
/// every rate is positive.
pub proof fn law_gemma_videos_are_admitted(
    plan: Gemma4ProcessorPlan,
    source_fps: Option<FrameRate>,
    sampling: VideoSampling,
)
    ensures
        plan.count_fault(source_fps, sampling) is None <==> plan.video is Some
            && plan.image_framing is Some && (source_fps is Some ==> is_rate(source_fps->0))
            && match sampling {
            VideoSampling::Fps(target) => is_rate(target) && (plan.video->0).1 >= 1,
            _ => true,
        },
{
}

/// The patch budget of a Gemma 4 policy is admitted where it fits the machine, and an input where
/// sides, patches, and budget are positive, one of its scaled sides holds a whole multiple, and
/// the resized sides stay within the budget's pixels.
pub proof fn law_gemma_inputs_are_admitted(
    policy: Gemma4VisualPolicy,
    height: int,
    width: int,
    scaled: ScaledSides,
)
    requires
        height >= 0,
        width >= 0,
    ensures
        ({
            let area = policy.pooling_kernel_size * policy.pooling_kernel_size;
            let budget = policy.max_soft_tokens * area;
            let multiple = policy.patch_size * policy.pooling_kernel_size;
            let sides = gemma_sides(policy, height, width, scaled);
            &&& budget_fault(policy) is None <==> area <= usize::MAX && budget <= usize::MAX
            &&& sides_fault(policy, height, width, scaled) is None <==> {
                &&& height > 0 && width > 0
                &&& policy.patch_size > 0 && policy.pooling_kernel_size > 0 && budget != 0
                &&& multiple <= usize::MAX
                &&& scaled.height >= multiple || scaled.width >= multiple
                &&& sides.0 * sides.1 <= budget * policy.patch_size * policy.patch_size
            }
        }),
{
    let multiple = policy.patch_size * policy.pooling_kernel_size;
    if policy.patch_size > 0 && policy.pooling_kernel_size > 0 {
        assert(multiple > 0) by (nonlinear_arith)
            requires
                multiple == policy.patch_size * policy.pooling_kernel_size,
                policy.patch_size > 0,
                policy.pooling_kernel_size > 0,
        ;
        lemma_floor(scaled.height as int, multiple);
        lemma_floor(scaled.width as int, multiple);
    }
}

proof fn lemma_floor(side: int, multiple: int)
    requires
        side >= 0,
        multiple > 0,
    ensures
        (side / multiple) * multiple == 0 <==> side < multiple,
{
    if side < multiple {
        vstd::arithmetic::div_mod::lemma_basic_div(side, multiple);
    } else {
        vstd::arithmetic::div_mod::lemma_div_non_zero(side, multiple);
        assert((side / multiple) * multiple > 0) by (nonlinear_arith)
            requires
                side / multiple > 0,
                multiple > 0,
        ;
    }
}

/// A Muse-Glimmer configuration is admitted where patches, budgets, frames, and rate are
/// positive, and resampling is Lanczos; an input where its sides and budget are positive and its
/// merged patch fits the machine.
pub proof fn law_muse_inputs_are_admitted(
    source: MuseVisualSource,
    kind: Seq<char>,
    height: int,
    width: int,
    max_tokens: int,
)
    requires
        height >= 0,
        width >= 0,
        max_tokens >= 0,
    ensures
        muse_fault(source, kind) is None <==> {
            &&& source.patch_size > 0
            &&& source.temporal_patch_size > 0
            &&& source.merge_size > 0
            &&& source.max_image_tokens > 0
            &&& source.max_video_frame_tokens > 0
            &&& source.num_frames > 0
            &&& is_rate(source.fps)
            &&& source.resample == 1
        },
        transform_fault(source, height, width, max_tokens) is None <==> height > 0 && width > 0
            && max_tokens > 0 && 0 < source.patch_size * source.merge_size <= usize::MAX,
{
    assert(source.patch_size * source.merge_size >= 0) by (nonlinear_arith);
}

/// Frames of a Muse-Glimmer video are selected unless the plan is for images alone, and where
/// every rate is positive.
pub proof fn law_muse_videos_are_admitted(
    plan: MuseProcessorPlan,
    source_fps: Option<FrameRate>,
    sampling: VideoSampling,
)
    ensures
        plan.count_fault(source_fps, sampling) is None <==> !plan.image_only && (source_fps
            is Some ==> is_rate(source_fps->0)) && match sampling {
            VideoSampling::Fps(target) => is_rate(target),
            _ => true,
        },
{
}

/// A quantization range is admitted where it is finite, not empty, and has at least two bins.
pub proof fn law_quantization_ranges_are_not_empty(bins: int, min: Float32, max: Float32)
    ensures
        range_fault(bins, min, max) is None <==> bins >= 2 && min.finite() && max.finite()
            && min.rank() < max.rank(),
{
}

/// Experts are scheduled where there is a positive number of them, and bound for layers of the
/// schedule that route to them.
pub proof fn law_experts_need_routing(args: ModelArgs, layer: int)
    requires
        layer >= 0,
    ensures
        residency_fault(args) is None <==> args.num_experts is Some && args.num_experts->0 > 0,
        bank_fault(args, layer) is None <==> layer < args.layer_schedule.len()
            && args.layer_schedule[layer].feed_forward is DenseWithSparseMoe,
{
}

/// Whether the widths of a decoder layer are positive and fit the machine.
pub open spec fn fits_layer(args: ModelArgs, layer: int) -> bool {
    let policy = args.layer_schedule[layer];
    &&& args.num_attention_heads > 0
    &&& args.num_attention_heads * policy.head_dim <= usize::MAX
    &&& policy.num_key_value_heads * policy.head_dim <= usize::MAX
}

/// Whether the routed experts have a positive number and width.
pub open spec fn has_experts(args: ModelArgs) -> bool {
    &&& args.num_experts is Some && args.num_experts->0 > 0
    &&& args.moe_intermediate_size is Some && args.moe_intermediate_size->0 > 0
}

proof fn lemma_layers(args: ModelArgs, layers: int)
    requires
        0 <= layers <= args.layer_schedule.len(),
    ensures
        gguf_layers_fault(args, layers) is None <==> (forall|layer: int|
            0 <= layer < layers ==> #[trigger] gguf_layer_fault(args, layer) is None),
    decreases layers,
{
    if layers > 0 {
        lemma_layers(args, layers - 1);
        if gguf_layers_fault(args, layers) is None {
            assert forall|layer: int| 0 <= layer < layers implies #[trigger] gguf_layer_fault(
                args,
                layer,
            ) is None by {
                if layer == layers - 1 {
                    assert(gguf_layer_fault(args, layers - 1) is None);
                }
            }
        } else if forall|layer: int|
            0 <= layer < layers ==> #[trigger] gguf_layer_fault(args, layer) is None {
            assert(gguf_layer_fault(args, layers - 1) is None);
        }
    }
}

/// A GGUF catalog is built exactly where sizes are positive, every width fits the machine, and
/// the layers that route to experts have some.
pub proof fn law_gguf_catalogs_are_admitted(args: ModelArgs)
    ensures
        gguf_fault(args) is None <==> {
            &&& args.hidden_size > 0
            &&& args.vocab_size > 0
            &&& args.num_attention_heads > 0
            &&& args.hidden_size_per_layer_input > 0 ==> {
                &&& args.layer_schedule.len() * args.hidden_size_per_layer_input <= usize::MAX
                &&& match args.vocab_size_per_layer_input {
                    Some(entries) => entries > 0,
                    None => true,
                }
            }
            &&& forall|layer: int|
                0 <= layer < args.layer_schedule.len() ==> {
                    let policy = #[trigger] args.layer_schedule[layer];
                    &&& args.num_attention_heads * policy.head_dim <= usize::MAX
                    &&& policy.num_key_value_heads * policy.head_dim <= usize::MAX
                    &&& policy.feed_forward is DenseWithSparseMoe ==> has_experts(args) && 2
                        * args.moe_intermediate_size->0 <= usize::MAX
                }
        },
{
    let layers = args.layer_schedule.len() as int;
    lemma_layers(args, layers);
    if gguf_layers_fault(args, layers) is None {
        assert forall|layer: int| 0 <= layer < args.layer_schedule.len() implies {
            let policy = #[trigger] args.layer_schedule[layer];
            &&& args.num_attention_heads * policy.head_dim <= usize::MAX
            &&& policy.num_key_value_heads * policy.head_dim <= usize::MAX
            &&& policy.feed_forward is DenseWithSparseMoe ==> has_experts(args) && 2
                * args.moe_intermediate_size->0 <= usize::MAX
        } by {
            assert(gguf_layer_fault(args, layer) is None);
        }
    } else {
        let layer = choose|layer: int|
            0 <= layer < layers && !(#[trigger] gguf_layer_fault(args, layer) is None);
        let policy = args.layer_schedule[layer];
        assert(gguf_layer_fault(args, layer) is Some);
    }
}

/// A layer of a SafeTensors catalog is admitted where its widths fit the machine, and its experts
/// where they have a positive number and width.
pub proof fn law_released_layers_are_admitted(args: ModelArgs, layer: int)
    ensures
        attention_fault(args, layer) is None <==> fits_layer(args, layer),
        expert_fault(args) is None <==> has_experts(args),
{
}

/// A vision tower is admitted where its sizes are positive and its widths and patches fit the
/// machine; an audio tower where its sizes are positive and it subsamples twice.
pub proof fn law_towers_are_admitted(vision: VisionConfig, audio: AudioConfig)
    ensures
        vision_fault(vision) is None <==> {
            &&& vision.hidden_size > 0
            &&& vision.intermediate_size > 0
            &&& vision.head_dim > 0
            &&& vision.num_attention_heads > 0
            &&& vision.num_key_value_heads > 0
            &&& vision.patch_size > 0
            &&& vision.num_attention_heads * vision.head_dim <= usize::MAX
            &&& vision.num_key_value_heads * vision.head_dim <= usize::MAX
            &&& vision.patch_size * vision.patch_size <= usize::MAX
            &&& 3 * (vision.patch_size * vision.patch_size) <= usize::MAX
        },
        audio_fault(audio) is None <==> {
            &&& audio.hidden_size > 0
            &&& audio.subsampling_conv_channels.len() == 2
            &&& audio.subsampling_conv_channels[0] > 0
            &&& audio.subsampling_conv_channels[1] > 0
            &&& audio.output_proj_dims > 0
        },
{
}

/// Integer stored under `key`, where it is one and not negative.
pub open spec fn whole_number(metadata: Map<Seq<char>, MetadataValue>, key: Seq<char>) -> Option<
    int,
> {
    match metadata[key].integer {
        Some(MetadataInteger::Unsigned(value)) => Some(value as int),
        Some(MetadataInteger::Signed(value)) => if value >= 0 {
            Some(value as int)
        } else {
            None
        },
        None => None,
    }
}

/// Settings are read as they are stored: none where the key is absent, the number where it is one
/// that is not negative and fits, and refused elsewhere.
pub proof fn law_settings_are_read_as_stored(
    metadata: Map<Seq<char>, MetadataValue>,
    key: Seq<char>,
    family: Seq<char>,
)
    ensures
        ({
            let stored = whole_number(metadata, key);
            if !metadata.contains_key(key) {
                &&& optional_u64(metadata, key) == Ok::<Option<u64>, Fault>(None)
                &&& optional_usize(metadata, key) == Ok::<Option<usize>, Fault>(None)
                &&& optional_u32(metadata, key) == Ok::<Option<u32>, Fault>(None)
                &&& optional_single(metadata, key) == Ok::<Option<usize>, Fault>(None)
                &&& positive_usize(metadata, key, family) is Err
                &&& required_single(metadata, key) is Err
            } else {
                &&& match optional_u64(metadata, key) {
                    Ok(read) => read is Some && stored == Some(read->0 as int),
                    Err(_) => stored is None,
                }
                &&& match optional_usize(metadata, key) {
                    Ok(read) => read is Some && stored == Some(read->0 as int),
                    Err(_) => stored is None || stored->0 > usize::MAX,
                }
                &&& match optional_u32(metadata, key) {
                    Ok(read) => read is Some && stored == Some(read->0 as int),
                    Err(_) => stored is None || stored->0 > u32::MAX,
                }
                &&& match positive_usize(metadata, key, family) {
                    Ok(read) => read > 0 && stored == Some(read as int),
                    Err(_) => stored is None || stored->0 > usize::MAX || stored->0 == 0,
                }
                &&& match optional_single(metadata, key) {
                    Ok(read) => {
                        &&& read is Some
                        &&& metadata[key].to_u32_vec is Some
                        &&& metadata[key].to_u32_vec->0@ == seq![read->0 as u32]
                    },
                    Err(_) => metadata[key].to_u32_vec is None
                        || metadata[key].to_u32_vec->0.len() != 1,
                }
                &&& match required_single(metadata, key) {
                    Ok(read) => metadata[key].to_u32_vec is Some
                        && metadata[key].to_u32_vec->0@ == seq![read as u32],
                    Err(_) => metadata[key].to_u32_vec is None
                        || metadata[key].to_u32_vec->0.len() != 1,
                }
            }
        }),
{
    if metadata.contains_key(key) && metadata[key].to_u32_vec is Some {
        let values = metadata[key].to_u32_vec->0@;
        if values.len() == 1 {
            assert(values =~= seq![values[0]]);
        }
    }
}

/// Channels are read in the order red, green, blue, from exactly three values.
pub proof fn law_channels_are_read_in_order(
    metadata: Map<Seq<char>, MetadataValue>,
    key: Seq<char>,
)
    ensures
        match stored_channels(metadata, key) {
            Ok(channels) => metadata.contains_key(key) && metadata[key].f32_array is Some
                && metadata[key].f32_array->0@ == seq![channels.red, channels.green, channels.blue],
            Err(_) => !metadata.contains_key(key) || metadata[key].f32_array is None
                || metadata[key].f32_array->0.len() != 3,
        },
        match converted_channels(metadata, key) {
            Ok(channels) => metadata.contains_key(key) && metadata[key].to_f32_vec is Some
                && metadata[key].to_f32_vec->0@ == seq![
                channels.red,
                channels.green,
                channels.blue,
            ],
            Err(_) => !metadata.contains_key(key) || metadata[key].to_f32_vec is None
                || metadata[key].to_f32_vec->0.len() != 3,
        },
{
    if metadata.contains_key(key) {
        if metadata[key].f32_array is Some && metadata[key].f32_array->0.len() == 3 {
            let values = metadata[key].f32_array->0@;
            assert(values =~= seq![values[0], values[1], values[2]]);
        }
        if metadata[key].to_f32_vec is Some && metadata[key].to_f32_vec->0.len() == 3 {
            let values = metadata[key].to_f32_vec->0@;
            assert(values =~= seq![values[0], values[1], values[2]]);
        }
    }
}

} // verus!
