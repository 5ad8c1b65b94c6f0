//! What a Gemma 4 processor plan is to its declaration and input.

use crate::errors::Fault;
use crate::float::Float32;
use crate::gemma_processor::{
    Gemma4ProcessorPlan, Gemma4VideoPlan, Gemma4VideoSteps, Gemma4VisualPolicy, GemmaDocuments,
    GemmaMetadata, ScaledSides, frame_timestamp, gemma_frame_count, gemma_sides, sides_fit,
    visual_fault,
};
use crate::media::{Channels, MediaFraming, RgbTransformPlan, VideoSampling};
use crate::metadata::{MetadataInteger, MetadataValue};
use crate::text::{decimal, has_prefix};
use vstd::prelude::*;

verus! {

proof fn lemma_floor(side: int, multiple: int)
    requires
        side >= 0,
        multiple > 0,
    ensures
        (side / multiple) * multiple <= side < (side / multiple) * multiple + multiple,
        side < multiple ==> (side / multiple) * multiple == 0,
        side >= multiple ==> (side / multiple) * multiple >= multiple,
{
    vstd::arithmetic::div_mod::lemma_fundamental_div_mod(side, multiple);
    vstd::arithmetic::div_mod::lemma_mod_bound(side, multiple);
    let quotient = side / multiple;
    assert(quotient * multiple == multiple * quotient) by (nonlinear_arith);
    if side >= multiple {
        assert(quotient >= 1) by (nonlinear_arith)
            requires
                side >= multiple > 0,
                quotient == side / multiple,
        ;
        assert(quotient * multiple >= multiple) by (nonlinear_arith)
            requires
                quotient >= 1,
                multiple > 0,
        ;
    } else {
        assert(quotient == 0) by (nonlinear_arith)
            requires
                0 <= side < multiple,
                quotient == side / multiple,
        ;
        assert(quotient * multiple == 0) by (nonlinear_arith)
            requires
                quotient == 0,
        ;
    }
}

/// Each resized side is its own scaled side, rounded down to whole pooled patches. Where one side
/// would vanish it keeps one multiple, and the other side then has the aspect ratio of the input,
/// as far as a single row of tokens reaches.
pub proof fn law_gemma_sides_follow_their_own(
    policy: Gemma4VisualPolicy,
    height: int,
    width: int,
    scaled: ScaledSides,
)
    requires
        height > 0,
        width > 0,
        visual_fault(policy, height, width, scaled) is None,
        sides_fit(policy, height, width, scaled),
    ensures
        ({
            let sides = gemma_sides(policy, height, width, scaled);
            let multiple = policy.patch_size * policy.pooling_kernel_size;
            let row = policy.max_soft_tokens * multiple;
            &&& multiple > 0
            &&& scaled.height >= multiple || scaled.width >= multiple
            &&& scaled.height >= multiple && scaled.width >= multiple ==> {
                &&& sides.0 <= scaled.height < sides.0 + multiple
                &&& sides.1 <= scaled.width < sides.1 + multiple
            }
            &&& scaled.height < multiple ==> {
                &&& sides.0 == multiple
                &&& sides.1 <= (width / height) * multiple
                &&& sides.1 <= row
                &&& sides.1 == (width / height) * multiple || sides.1 == row
            }
            &&& scaled.width < multiple ==> {
                &&& sides.1 == multiple
                &&& sides.0 <= (height / width) * multiple
                &&& sides.0 <= row
                &&& sides.0 == (height / width) * multiple || sides.0 == row
            }
        }),
{
    let multiple = policy.patch_size * policy.pooling_kernel_size;
    let area = policy.pooling_kernel_size * policy.pooling_kernel_size;
    let tokens = policy.max_soft_tokens as int;
    assert(multiple > 0) by (nonlinear_arith)
        requires
            policy.patch_size > 0,
            policy.pooling_kernel_size > 0,
            multiple == policy.patch_size * policy.pooling_kernel_size,
    ;
    assert(area > 0) by (nonlinear_arith)
        requires
            policy.pooling_kernel_size > 0,
            area == policy.pooling_kernel_size * policy.pooling_kernel_size,
    ;
    lemma_floor(scaled.height as int, multiple);
    lemma_floor(scaled.width as int, multiple);
    vstd::arithmetic::div_mod::lemma_div_multiples_vanish(tokens, area);
    vstd::arithmetic::mul::lemma_mul_is_commutative(tokens, area);
    assert((tokens * area) / area == tokens);
}

/// Whether a transform keeps bytes in the unit interval and normalizes no further.
pub open spec fn is_plain(transform: RgbTransformPlan) -> bool {
    &&& transform.resample is Bicubic
    &&& transform.rescale_factor == Float32 { bits: 0x3b80_8081 }
    &&& transform.mean == Channels {
        red: Float32 { bits: 0 },
        green: Float32 { bits: 0 },
        blue: Float32 { bits: 0 },
    }
    &&& transform.std == Channels {
        red: Float32 { bits: 0x3f80_0000 },
        green: Float32 { bits: 0x3f80_0000 },
        blue: Float32 { bits: 0x3f80_0000 },
    }
}

/// A planned image has the visual framing, the patches of the image policy, and one patch for
/// every place that pools into its tokens.
pub proof fn law_gemma_images_follow_their_policy(
    plan: Gemma4ProcessorPlan,
    height: int,
    width: int,
    scaled: ScaledSides,
)
    requires
        height > 0,
        width > 0,
        plan.image_fault(height, width, scaled) is None,
        sides_fit(plan.image->0, height, width, scaled),
    ensures
        ({
            let image = plan.image_plan(height, width, scaled);
            let policy = plan.image->0;
            let sides = gemma_sides(policy, height, width, scaled);
            &&& plan.image is Some
            &&& plan.image_framing == Some(image.framing)
            &&& image.patch_size == policy.patch_size
            &&& image.max_patches == policy.max_soft_tokens * (policy.pooling_kernel_size
                * policy.pooling_kernel_size)
            &&& image.transform.height == sides.0
            &&& image.transform.width == sides.1
            &&& is_plain(image.transform)
        }),
{
    lemma_sides_fit(plan.image->0, height, width, scaled);
}

proof fn lemma_sides_fit(policy: Gemma4VisualPolicy, height: int, width: int, scaled: ScaledSides)
    requires
        height > 0,
        width > 0,
        visual_fault(policy, height, width, scaled) is None,
        sides_fit(policy, height, width, scaled),
    ensures
        0 <= gemma_sides(policy, height, width, scaled).0 <= usize::MAX,
        0 <= gemma_sides(policy, height, width, scaled).1 <= usize::MAX,
        0 <= policy.max_soft_tokens * (policy.pooling_kernel_size * policy.pooling_kernel_size),
{
    law_gemma_sides_follow_their_own(policy, height, width, scaled);
    let multiple = policy.patch_size * policy.pooling_kernel_size;
    assert(width / height >= 0) by (nonlinear_arith)
        requires
            width > 0,
            height > 0,
    ;
    assert(height / width >= 0) by (nonlinear_arith)
        requires
            width > 0,
            height > 0,
    ;
    assert((width / height) * multiple >= 0) by (nonlinear_arith)
        requires
            width / height >= 0,
            multiple > 0,
    ;
    assert((height / width) * multiple >= 0) by (nonlinear_arith)
        requires
            height / width >= 0,
            multiple > 0,
    ;
    assert(policy.max_soft_tokens * multiple >= 0) by (nonlinear_arith)
        requires
            policy.max_soft_tokens >= 0,
            multiple > 0,
    ;
    lemma_floor(scaled.height as int, multiple);
    lemma_floor(scaled.width as int, multiple);
    assert(policy.max_soft_tokens * (policy.pooling_kernel_size * policy.pooling_kernel_size) >= 0)
        by (nonlinear_arith);
}

/// A planned video has the visual framing, the patches of the video policy, and the selected
/// frames in order, each with the timestamp of its own second.
pub proof fn law_gemma_videos_follow_their_policy(
    plan: Gemma4ProcessorPlan,
    video: Gemma4VideoPlan,
    total: int,
    height: int,
    width: int,
    sampling: VideoSampling,
    steps: Gemma4VideoSteps,
)
    requires
        height > 0,
        width > 0,
        plan.video is Some,
        plan.image_framing is Some,
        plan.plans_video(video, total, height, width, sampling, steps),
        visual_fault((plan.video->0).0, height, width, steps.scaled) is None,
        sides_fit((plan.video->0).0, height, width, steps.scaled),
    ensures
        ({
            let policy = (plan.video->0).0;
            let sides = gemma_sides(policy, height, width, steps.scaled);
            let frames = steps.frames((plan.video->0).1 as int, total, sampling);
            &&& plan.image_framing == Some(video.framing)
            &&& video.patch_size == policy.patch_size
            &&& video.max_patches == policy.max_soft_tokens * (policy.pooling_kernel_size
                * policy.pooling_kernel_size)
            &&& video.transform.height == sides.0
            &&& video.transform.width == sides.1
            &&& is_plain(video.transform)
            &&& video.frames.len() == frames.len()
            &&& forall|i: int|
                0 <= i < frames.len() ==> {
                    &&& (#[trigger] video.frames[i]).source_index == frames[i]
                    &&& video.frames[i].timestamp_text@ == frame_timestamp(
                        steps.seconds[i],
                        i == 0,
                    )
                }
        }),
{
    lemma_sides_fit((plan.video->0).0, height, width, steps.scaled);
    let frames = steps.frames((plan.video->0).1 as int, total, sampling);
    assert(video.frames.deep_view().len() == frames.len());
    assert forall|i: int| 0 <= i < frames.len() implies {
        &&& (#[trigger] video.frames[i]).source_index == frames[i]
        &&& video.frames[i].timestamp_text@ == frame_timestamp(steps.seconds[i], i == 0)
    } by {
        assert(video.frames.deep_view()[i] == steps.framed(frames)[i]);
    }
}

/// Frames are chosen as they were asked for: all of them, a count kept within the video, at most
/// the declared count, or as many as the target rate gives up to it.
pub proof fn law_gemma_frame_counts_follow_the_sampling(
    default_frames: int,
    total: int,
    sampling: VideoSampling,
    requested: int,
)
    requires
        total > 0,
        default_frames > 0,
        requested >= 0,
    ensures
        ({
            let count = gemma_frame_count(default_frames, total, sampling, requested);
            &&& 1 <= count <= total
            &&& sampling is All ==> count == total
            &&& sampling is ProcessorDefault ==> count <= default_frames && (count
                == default_frames || count == total)
            &&& sampling matches VideoSampling::FrameCount(asked) ==> {
                &&& 1 <= asked <= total ==> count == asked
                &&& asked > total ==> count == total
                &&& asked == 0 ==> count == 1
            }
            &&& sampling is Fps ==> {
                &&& count <= default_frames
                &&& 1 <= requested <= default_frames && requested <= total ==> count == requested
                &&& requested > default_frames && default_frames <= total ==> count
                    == default_frames
                &&& requested > total && total <= default_frames ==> count == total
            }
        }),
{
}

/// A timestamp below a hundred minutes reads as two digits of minutes and two of seconds, set
/// apart by a space after it, and before it where it is not the first.
pub proof fn law_timestamps_read_as_a_clock(seconds: u64)
    requires
        seconds < 6000,
    ensures
        ({
            let first = frame_timestamp(seconds, true);
            &&& first.len() == 6
            &&& first[0] as int == '0' as int + seconds as int / 600
            &&& first[1] as int == '0' as int + (seconds as int / 60) % 10
            &&& first[2] == ':'
            &&& first[3] as int == '0' as int + (seconds as int % 60) / 10
            &&& first[4] as int == '0' as int + (seconds as int % 60) % 10
            &&& first[5] == ' '
            &&& frame_timestamp(seconds, false) == seq![' '] + first
        }),
{
    reveal_strlit("0");
    reveal_strlit(":");
    reveal_strlit(" ");
    reveal_with_fuel(decimal, 3);
    let minutes = (seconds / 60) as nat;
    let rest = (seconds % 60) as nat;
    assert(frame_timestamp(seconds, false) =~= seq![' '] + frame_timestamp(seconds, true));
    assert(minutes < 100);
    assert(minutes / 10 == seconds / 600);
}

/// Whether `framing` holds `start` and `end`, or stands for neither.
pub open spec fn frames_with(
    framing: Option<MediaFraming>,
    start: Option<u32>,
    end: Option<u32>,
) -> bool {
    match framing {
        Some(framing) => start == Some(framing.start_token_id) && end == Some(
            framing.end_token_id,
        ),
        None => start is None && end is None,
    }
}

/// A document plan holds what its documents declare: image settings of the processor document,
/// or else of the model; video settings of theirs, or else the released ones; and framing tokens
/// of the model, where either spelling names an audio token.
pub proof fn law_gemma_documents_are_held(documents: GemmaDocuments, plan: Gemma4ProcessorPlan)
    requires
        documents.reading() == Ok::<_, Fault>(Some(plan)),
    ensures
        documents.model is Ok,
        ({
            let model = documents.model->Ok_0;
            let seen = model.vision_config is Some;
            &&& plan.has_audio == model.has_audio_config
            &&& seen || plan.has_audio
            &&& (plan.image is Some) == seen
            &&& (plan.video is Some) == seen
            &&& frames_with(plan.image_framing, model.boi_token_id, model.eoi_token_id)
            &&& frames_with(
                plan.audio_framing,
                if model.boa_token_id is Some {
                    model.boa_token_id
                } else {
                    model.boa_token_index
                },
                if model.eoa_token_id is Some {
                    model.eoa_token_id
                } else {
                    model.eoa_token_index
                },
            )
            &&& plan.image matches Some(policy) ==> {
                let vision = model.vision_config->0->Ok_0;
                match documents.image {
                    Some(Ok(image)) => {
                        &&& policy.patch_size == match image.patch_size {
                            Some(size) => size,
                            None => vision.patch_size,
                        }
                        &&& policy.pooling_kernel_size == match image.pooling_kernel_size {
                            Some(size) => size,
                            None => vision.pooling_kernel_size,
                        }
                        &&& policy.max_soft_tokens == match image.max_soft_tokens {
                            Some(tokens) => tokens,
                            None => model.vision_soft_tokens_per_image,
                        }
                    },
                    Some(Err(_)) => false,
                    None => {
                        &&& policy.patch_size == vision.patch_size
                        &&& policy.pooling_kernel_size == vision.pooling_kernel_size
                        &&& policy.max_soft_tokens == model.vision_soft_tokens_per_image
                    },
                }
            }
            &&& plan.video matches Some(video) ==> match documents.video {
                Some(Ok(declared)) => {
                    &&& video.0.patch_size == declared.patch_size
                    &&& video.0.pooling_kernel_size == declared.pooling_kernel_size
                    &&& video.0.max_soft_tokens == declared.max_soft_tokens
                    &&& video.1 == declared.num_frames
                },
                Some(Err(_)) => false,
                None => {
                    &&& video.0.patch_size == 16
                    &&& video.0.pooling_kernel_size == 3
                    &&& video.0.max_soft_tokens == 70
                    &&& video.1 == 32
                },
            }
            &&& plan.image matches Some(policy) ==> is_released(policy)
            &&& plan.video matches Some(video) ==> is_released(video.0) && video.1 > 0
        }),
{
    law_gemma_policies_are_released(plan);
}

/// Whether a policy has positive sizes and a released token budget.
pub open spec fn is_released(policy: Gemma4VisualPolicy) -> bool {
    &&& policy.patch_size > 0
    &&& policy.pooling_kernel_size > 0
    &&& exists|level: nat| #![trigger budget_at(level)]
        level < 5 && policy.max_soft_tokens == budget_at(level)
}

/// Released token budgets double from 70.
pub open spec fn budget_at(level: nat) -> nat
    decreases level,
{
    if level == 0 {
        70
    } else {
        2 * budget_at((level - 1) as nat)
    }
}

/// Accepted policies have positive sizes and one of the five budgets that double from 70.
pub proof fn law_gemma_policies_are_released(plan: Gemma4ProcessorPlan)
    ensures
        plan.fault() is None <==> {
            &&& plan.image matches Some(policy) ==> is_released(policy)
            &&& plan.video matches Some(video) ==> is_released(video.0) && video.1 > 0
        },
{
    reveal_with_fuel(budget_at, 5);
    assert(budget_at(0) == 70 && budget_at(1) == 140 && budget_at(2) == 280 && budget_at(3) == 560
        && budget_at(4) == 1120);
}

/// Non-negative integer stored under `key`, where there is one.
pub open spec fn stored_count(metadata: Map<Seq<char>, MetadataValue>, key: Seq<char>) -> Option<
    int,
> {
    if metadata.contains_key(key) {
        match metadata[key].integer {
            Some(MetadataInteger::Unsigned(value)) => Some(value as int),
            Some(MetadataInteger::Signed(value)) => Some(value as int),
            None => None,
        }
    } else {
        None
    }
}

/// Setting stored under `key`, or `default`.
pub open spec fn setting_or(
    metadata: Map<Seq<char>, MetadataValue>,
    key: Seq<char>,
    default: int,
) -> int {
    match stored_count(metadata, key) {
        Some(value) => value,
        None => default,
    }
}

/// A metadata plan holds what is stored under its own keys. Video geometry falls back to that of
/// images, budgets and counts to the released ones, and vision to whether any is described.
pub proof fn law_gemma_metadata_is_held(declared: GemmaMetadata, plan: Gemma4ProcessorPlan)
    requires
        declared.reading() == Ok::<_, Fault>(plan),
    ensures
        ({
            let projector = declared.projector;
            let switch = "clip.has_vision_encoder"@;
            let audio = "clip.has_audio_encoder"@;
            let seen = if projector.contains_key(switch) && projector[switch].as_bool is Some {
                projector[switch].as_bool->0
            } else {
                exists|key: Seq<char>| #[trigger]
                    projector.contains_key(key) && has_prefix(key, "clip.vision."@)
            };
            let patch = setting_or(projector, "clip.vision.patch_size"@, 16);
            let pooling = setting_or(projector, "clip.vision.pooling_kernel_size"@, 3);
            &&& (plan.image is Some) == seen
            &&& (plan.video is Some) == seen
            &&& plan.has_audio == (projector.contains_key(audio) && projector[audio].as_bool
                == Some(true))
            &&& plan.image matches Some(policy) ==> {
                &&& policy.patch_size == patch
                &&& policy.pooling_kernel_size == pooling
                &&& policy.max_soft_tokens == setting_or(
                    projector,
                    "clip.vision.max_soft_tokens"@,
                    280,
                )
            }
            &&& plan.video matches Some(video) ==> {
                &&& video.0.patch_size == setting_or(
                    projector,
                    "clip.vision.video.patch_size"@,
                    patch,
                )
                &&& video.0.pooling_kernel_size == setting_or(
                    projector,
                    "clip.vision.video.pooling_kernel_size"@,
                    pooling,
                )
                &&& video.0.max_soft_tokens == setting_or(
                    projector,
                    "clip.vision.video.max_soft_tokens"@,
                    70,
                )
                &&& video.1 == setting_or(projector, "clip.vision.video.frame_count"@, 32)
            }
            &&& match plan.image_framing {
                Some(framing) => {
                    &&& stored_count(declared.model, "gemma4.boi_token_id"@) == Some(
                        framing.start_token_id as int,
                    )
                    &&& stored_count(declared.model, "gemma4.eoi_token_id"@) == Some(
                        framing.end_token_id as int,
                    )
                },
                None => {
                    &&& stored_count(declared.model, "gemma4.boi_token_id"@) is None
                    &&& stored_count(declared.model, "gemma4.eoi_token_id"@) is None
                },
            }
            &&& match plan.audio_framing {
                Some(framing) => {
                    &&& stored_count(declared.model, "gemma4.boa_token_id"@) == Some(
                        framing.start_token_id as int,
                    )
                    &&& stored_count(declared.model, "gemma4.eoa_token_id"@) == Some(
                        framing.end_token_id as int,
                    )
                },
                None => {
                    &&& stored_count(declared.model, "gemma4.boa_token_id"@) is None
                    &&& stored_count(declared.model, "gemma4.eoa_token_id"@) is None
                },
            }
        }),
{
}

/// Audio is analyzed at sixteen thousand samples a second in frames of twenty milliseconds every
/// ten, up to half the sample rate and half a minute, between the audio framing tokens.
pub proof fn law_gemma_audio_is_analyzed_in_milliseconds(plan: Gemma4ProcessorPlan)
    requires
        plan.audio_framing is Some,
    ensures
        ({
            let audio = plan.audio_plan();
            &&& plan.audio_framing == Some(audio.framing)
            &&& audio.sample_rate == 16_000
            &&& audio.frame_length * 1000 == 20 * audio.sample_rate
            &&& audio.hop_length * 2 == audio.frame_length
            &&& audio.max_samples == 30 * audio.sample_rate
            &&& audio.frame_length <= audio.fft_length < 2 * audio.frame_length
            &&& audio.fft_length == 4 * audio.mel_bins
            &&& audio.pad_to_multiple == audio.mel_bins
            &&& audio.min_frequency == Float32 { bits: 0 }
            &&& audio.max_frequency == Float32 { bits: 0x45fa_0000 }
            &&& audio.mel_floor == Float32 { bits: 0x3a83_126f }
        }),
{
}

} // verus!
