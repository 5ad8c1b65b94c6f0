//! Policy shared by every multimodal processor: framing, transforms, sampling, and padding.

use crate::errors::{
    Fault, ProcessorPlanError, Reading, answers, fault_if, first_of, refuses, unplanned,
};
use crate::float::{Float32, Float64};
use crate::text::{decimal, decimal_text};
use vstd::prelude::*;

verus! {

/// Conventional Hugging Face still-image processor configuration filename.
pub const PROCESSOR_CONFIG_FILENAME: &'static str = "preprocessor_config.json";

/// Conventional Hugging Face video processor configuration filename.
pub const VIDEO_PROCESSOR_CONFIG_FILENAME: &'static str = "video_preprocessor_config.json";

/// Muse-Glimmer's nested Hugging Face processor configuration filename.
pub const MUSE_PROCESSOR_CONFIG_FILENAME: &'static str = "processor_config.json";

/// Encoding of zero.
pub const ZERO: u32 = 0;

/// Encoding of one.
pub const ONE: u32 = 0x3f80_0000;

/// Encoding of one half.
pub const HALF: u32 = 0x3f00_0000;

/// Encoding of minus one.
pub const MINUS_ONE: u32 = 0xbf80_0000;

/// Encoding of the factor that takes a byte to the unit interval: one 255th.
pub const BYTE_SCALE: u32 = 0x3b80_8081;

/// Encoding of eight thousand.
pub const EIGHT_THOUSAND: u32 = 0x45fa_0000;

/// One value for each color channel.
#[derive(Debug, Clone, Copy, PartialEq, Eq, Structural)]
pub struct Channels {
    /// Red channel.
    pub red: Float32,
    /// Green channel.
    pub green: Float32,
    /// Blue channel.
    pub blue: Float32,
}

/// The same value in every channel.
pub open spec fn even_channels(bits: u32) -> Channels {
    Channels { red: Float32 { bits }, green: Float32 { bits }, blue: Float32 { bits } }
}

/// Builds channels of the same value.
pub(crate) fn channels(bits: u32) -> (r: Channels)
    ensures
        r == even_channels(bits),
{
    Channels { red: Float32 { bits }, green: Float32 { bits }, blue: Float32 { bits } }
}

/// Token IDs placed immediately around one prepared media tensor.
#[derive(Debug, Clone, Copy, PartialEq, Eq, Structural)]
pub struct MediaFraming {
    /// Opening family protocol token.
    pub start_token_id: u32,
    /// Closing family protocol token.
    pub end_token_id: u32,
}

/// Facade-owned tokenizer identities required to finish one GGUF media plan.
#[derive(Debug, Clone, Copy, PartialEq, Eq, Structural)]
pub enum GgufSpecialTokenKind {
    /// Qwen image/video placeholders and media framing tokens.
    Qwen,
    /// Inkling image/audio content framing tokens.
    Inkling,
}

/// Typed token IDs resolved from strings only after tokenizer reconstruction.
#[derive(Debug, Clone, Copy, PartialEq, Eq, Structural)]
pub enum GgufSpecialTokenIds {
    /// Qwen tokenizer protocol IDs.
    Qwen {
        /// Image tensor placeholder.
        image_token_id: u32,
        /// Video tensor placeholder.
        video_token_id: u32,
        /// Opening vision framing token.
        vision_start_token_id: u32,
        /// Closing vision framing token.
        vision_end_token_id: u32,
    },
    /// Inkling tokenizer protocol IDs.
    Inkling {
        /// Opening image-content token.
        image_bos_token_id: u32,
        /// Opening audio-content token.
        audio_bos_token_id: u32,
    },
}

/// Backend-neutral pixel interpolation policy.
#[derive(Debug, Clone, Copy, PartialEq, Eq, Structural)]
pub enum RgbResample {
    /// Bicubic interpolation.
    Bicubic,
    /// Lanczos interpolation with a three-lobe kernel.
    Lanczos3,
}

/// Backend-executed RGB transform selected by architecture policy.
#[derive(Debug, Clone, Copy, PartialEq, Eq, Structural)]
pub struct RgbTransformPlan {
    /// Target image height.
    pub height: usize,
    /// Target image width.
    pub width: usize,
    /// Pixel interpolation selected by the family processor.
    pub resample: RgbResample,
    /// Scalar applied before channel normalization.
    pub rescale_factor: Float32,
    /// Per-channel normalization mean.
    pub mean: Channels,
    /// Per-channel normalization standard deviation.
    pub std: Channels,
}

/// Frame rate, with its decimal numeral.
#[derive(Debug)]
pub struct FrameRate {
    /// Frames per second.
    pub value: Float64,
    /// Numeral used in messages.
    pub text: String,
}

impl Clone for FrameRate {
    fn clone(&self) -> (r: FrameRate)
        ensures
            r == *self,
    {
        FrameRate { value: self.value, text: self.text.clone() }
    }
}

/// Encoding of the frame rate of a video that declares none: 24.
pub const DEFAULT_SOURCE_RATE: u64 = 0x4038_0000_0000_0000;

/// Encoding of the rate at which processors sample by default: 2.
pub const DEFAULT_SAMPLING_RATE: u64 = 0x4000_0000_0000_0000;

/// Frame rate of a video: the one it declares, or the default.
pub(crate) fn source_rate(declared: &Option<FrameRate>) -> (r: FrameRate)
    ensures
        match declared {
            Some(rate) => r == *rate,
            None => r.value.bits == DEFAULT_SOURCE_RATE,
        },
{
    match declared {
        Some(rate) => rate.clone(),
        None => FrameRate { value: Float64 { bits: DEFAULT_SOURCE_RATE }, text: "24".to_owned() },
    }
}

/// Fault of the frame rate that a video declares.
pub open spec fn source_rate_fault(declared: Option<FrameRate>, field: Seq<char>) -> Option<Fault> {
    match declared {
        Some(rate) => rate_fault(rate, field),
        None => None,
    }
}

/// Which frames of a video are prepared.
#[derive(Debug, Clone)]
pub enum VideoSampling {
    /// Those that the processor selects.
    ProcessorDefault,
    /// All of them.
    All,
    /// Those at a target rate.
    Fps(FrameRate),
    /// A number of frames.
    FrameCount(usize),
}

/// Fault of a frame rate.
pub open spec fn rate_fault(rate: FrameRate, field: Seq<char>) -> Option<Fault> {
    fault_if(
        !rate.value.finite_positive(),
        field + " must be finite and positive, got "@ + rate.text@,
    )
}

/// Checks a frame rate.
pub(crate) fn validate_fps(rate: &FrameRate, field: &str) -> (r: Result<(), ProcessorPlanError>)
    ensures
        match rate_fault(*rate, field@) {
            Some(fault) => refuses(r, fault),
            None => r is Ok,
        },
{
    if !rate.value.is_finite_positive() {
        return Err(
            ProcessorPlanError::Invalid(
                field.to_owned().concat(" must be finite and positive, got ").concat(
                    rate.text.as_str(),
                ),
            ),
        );
    }
    Ok(())
}

/// The smaller of two numbers.
pub open spec fn lesser(left: int, right: int) -> int {
    if left <= right {
        left
    } else {
        right
    }
}

/// The larger of two numbers.
pub open spec fn greater(left: int, right: int) -> int {
    if left >= right {
        left
    } else {
        right
    }
}

/// The smaller of two sizes.
pub(crate) fn least(left: usize, right: usize) -> (r: usize)
    ensures
        r == lesser(left as int, right as int),
{
    if left <= right {
        left
    } else {
        right
    }
}

/// The larger of two sizes.
pub(crate) fn greatest(left: usize, right: usize) -> (r: usize)
    ensures
        r == greater(left as int, right as int),
{
    if left >= right {
        left
    } else {
        right
    }
}

/// The product of two sizes, or the largest size where that is exceeded.
pub open spec fn saturated(left: int, right: int) -> int {
    lesser(left * right, usize::MAX as int)
}

/// Multiplies two sizes, up to the largest size.
pub(crate) fn saturating_product(left: usize, right: usize) -> (r: usize)
    ensures
        r == saturated(left as int, right as int),
{
    match left.checked_mul(right) {
        Some(product) => product,
        None => usize::MAX,
    }
}

/// `count` kept within `1..=total`.
pub open spec fn clamped(count: int, total: int) -> int {
    if count < 1 {
        1
    } else {
        lesser(count, total)
    }
}

/// Keeps `count` within `1..=total`.
pub(crate) fn clamp_count(count: usize, total: usize) -> (r: usize)
    requires
        total >= 1,
    ensures
        r == clamped(count as int, total as int),
{
    if count < 1 {
        1
    } else {
        least(count, total)
    }
}

/// Fault of a target rate and frame limits.
pub open spec fn target_fault(target: FrameRate, min_frames: int, max_frames: int) -> Option<Fault> {
    first_of(
        rate_fault(target, "video target FPS"@),
        fault_if(
            min_frames == 0 || max_frames < min_frames,
            "video frame limits must be positive and ordered, got "@ + decimal(min_frames as nat)
                + ".."@ + decimal(max_frames as nat),
        ),
    )
}

/// Fault of choosing a frame count at a target rate.
pub open spec fn frame_count_fault(
    source: FrameRate,
    target: FrameRate,
    min_frames: int,
    max_frames: int,
) -> Option<Fault> {
    first_of(
        rate_fault(source, "video source FPS"@),
        target_fault(target, min_frames, max_frames),
    )
}

/// Frame count for `requested` frames: within the limits, within the video, and at least one.
pub open spec fn limited_frames(requested: int, min_frames: int, max_frames: int, total: int) -> int {
    greater(lesser(lesser(greater(requested, min_frames), max_frames), total), 1)
}

/// Chooses a frame count at a target rate. `requested` is the number of frames that the video's
/// length has at that rate.
pub fn sampled_frame_count(
    total_frames: usize,
    source_fps: &FrameRate,
    target_fps: &FrameRate,
    min_frames: usize,
    max_frames: usize,
    requested: usize,
) -> (r: Result<usize, ProcessorPlanError>)
    ensures
        match frame_count_fault(
            *source_fps,
            *target_fps,
            min_frames as int,
            max_frames as int,
        ) {
            Some(fault) => refuses(r, fault),
            None => r matches Ok(count) && count == limited_frames(
                requested as int,
                min_frames as int,
                max_frames as int,
                total_frames as int,
            ),
        },
{
    validate_fps(source_fps, "video source FPS")?;
    validate_fps(target_fps, "video target FPS")?;
    if min_frames == 0 || max_frames < min_frames {
        return Err(
            ProcessorPlanError::Invalid(
                "video frame limits must be positive and ordered, got ".to_owned().concat(
                    decimal_text(min_frames as u64).as_str(),
                ).concat("..").concat(decimal_text(max_frames as u64).as_str()),
            ),
        );
    }
    Ok(
        greatest(
            least(least(greatest(requested, min_frames), max_frames), total_frames),
            1,
        ),
    )
}

/// Fault of sampling `count` of `total` frames.
pub open spec fn sampling_fault(total: int, count: int) -> Option<Fault> {
    fault_if(
        total == 0 || count == 0,
        "video sampling requires positive frame counts, got "@ + decimal(total as nat)
            + " source and "@ + decimal(count as nat) + " requested"@,
    )
}

/// Frames sampled when `count` of `total` are asked for: the first alone, or the evenly spaced
/// `positions`.
pub open spec fn sampled_frames(total: int, count: int, positions: Seq<usize>) -> Seq<usize> {
    if lesser(count, total) == 1 {
        seq![0usize]
    } else {
        positions
    }
}

/// Whether `positions` holds one evenly spaced position for every sampled frame.
pub open spec fn positions_cover(total: int, count: int, positions: Seq<usize>) -> bool {
    lesser(count, total) > 1 ==> positions.len() == lesser(count, total)
}

/// Samples frames uniformly. `positions` are the evenly spaced frame positions.
pub fn uniform_sample_indices(
    total_frames: usize,
    sample_count: usize,
    positions: &Vec<usize>,
) -> (r: Result<Vec<usize>, ProcessorPlanError>)
    requires
        positions_cover(total_frames as int, sample_count as int, positions@),
    ensures
        match sampling_fault(total_frames as int, sample_count as int) {
            Some(fault) => refuses(r, fault),
            None => r matches Ok(frames) && {
                &&& frames@ == sampled_frames(
                    total_frames as int,
                    sample_count as int,
                    positions@,
                )
                &&& frames.len() == lesser(sample_count as int, total_frames as int)
            },
        },
{
    if total_frames == 0 || sample_count == 0 {
        return Err(
            ProcessorPlanError::Invalid(
                "video sampling requires positive frame counts, got ".to_owned().concat(
                    decimal_text(total_frames as u64).as_str(),
                ).concat(" source and ").concat(decimal_text(sample_count as u64).as_str()).concat(
                    " requested",
                ),
            ),
        );
    }
    if least(sample_count, total_frames) == 1 {
        let first: Vec<usize> = vec![0];
        assert(first@ =~= seq![0usize]);
        return Ok(first);
    }
    Ok(positions.clone())
}

/// Sampling gives as many frames as were asked for and are there: the first frame where that is
/// one, else the evenly spaced positions.
pub proof fn law_sampled_frames_are_the_positions(total: int, count: int, positions: Seq<usize>)
    requires
        total > 0,
        count > 0,
        positions_cover(total, count, positions),
    ensures
        ({
            let frames = sampled_frames(total, count, positions);
            &&& frames.len() <= count && frames.len() <= total
            &&& frames.len() == count || frames.len() == total
            &&& frames.len() == 1 ==> frames[0] == 0
            &&& count > 1 && total > 1 ==> frames == positions
        }),
{
}

/// Frames missing from the last temporal group.
pub open spec fn padding(frames: int, temporal_factor: int) -> int {
    if frames % temporal_factor == 0 {
        0
    } else {
        temporal_factor - frames % temporal_factor
    }
}

/// The frames, with the last one repeated to a multiple of the temporal extent.
pub open spec fn padded_frames(frames: Seq<usize>, temporal_factor: int) -> Seq<usize> {
    frames + Seq::new(
        padding(frames.len() as int, temporal_factor) as nat,
        |i: int| frames.last(),
    )
}

/// Fault of padding frames.
pub open spec fn padding_fault(frames: int, temporal_factor: int) -> Option<Fault> {
    fault_if(
        frames == 0 || temporal_factor == 0,
        "temporal frame padding requires frames and a positive factor"@,
    )
}

/// Repeats the last frame until the temporal extent divides the frame count.
pub fn pad_frame_indices(indices: &mut Vec<usize>, temporal_factor: usize) -> (r: Result<
    (),
    ProcessorPlanError,
>)
    requires
        old(indices).len() > 0 && temporal_factor > 0 ==> old(indices).len() + padding(
            old(indices).len() as int,
            temporal_factor as int,
        ) <= usize::MAX,
    ensures
        match padding_fault(old(indices).len() as int, temporal_factor as int) {
            Some(fault) => refuses(r, fault) && final(indices)@ == old(indices)@,
            None => r is Ok && final(indices)@ == padded_frames(
                old(indices)@,
                temporal_factor as int,
            ),
        },
{
    if indices.len() == 0 || temporal_factor == 0 {
        return Err(unplanned("temporal frame padding requires frames and a positive factor"));
    }
    let ghost before = indices@;
    let remainder: usize = indices.len() % temporal_factor;
    if remainder != 0 {
        let last: usize = indices[indices.len() - 1];
        let missing: usize = temporal_factor - remainder;
        let mut added: usize = 0;
        while added < missing
            invariant
                added <= missing,
                before.len() > 0,
                last == before.last(),
                indices@ == before + Seq::new(added as nat, |i: int| before.last()),
            decreases missing - added,
        {
            indices.push(last);
            assert(indices@ =~= before + Seq::new(added as nat + 1, |i: int| before.last()));
            added = added + 1;
        }
    }
    assert(indices@ =~= padded_frames(before, temporal_factor as int));
    Ok(())
}

/// Padding keeps the frames in front and makes their number a multiple of the temporal extent,
/// with less than one group added.
pub proof fn law_padding_completes_groups(frames: Seq<usize>, temporal_factor: int)
    requires
        frames.len() > 0,
        temporal_factor > 0,
    ensures
        padded_frames(frames, temporal_factor).len() % (temporal_factor as nat) == 0,
        frames.len() <= padded_frames(frames, temporal_factor).len() < frames.len()
            + temporal_factor,
        padded_frames(frames, temporal_factor).take(frames.len() as int) == frames,
        forall|i: int|
            frames.len() <= i < padded_frames(frames, temporal_factor).len()
                ==> #[trigger] padded_frames(frames, temporal_factor)[i] == frames.last(),
{
    let n = frames.len() as int;
    let t = temporal_factor;
    vstd::arithmetic::div_mod::lemma_fundamental_div_mod(n, t);
    vstd::arithmetic::div_mod::lemma_mod_bound(n, t);
    if n % t != 0 {
        assert(n + (t - n % t) == t * (n / t + 1)) by (nonlinear_arith)
            requires
                n == t * (n / t) + n % t,
        ;
        vstd::arithmetic::div_mod::lemma_mod_multiples_basic(n / t + 1, t);
        assert((n + padding(n, t)) % t == 0) by {
            assert(t * (n / t + 1) == (n / t + 1) * t) by (nonlinear_arith);
        }
    }
    assert(padded_frames(frames, t).len() == n + padding(n, t));
    assert(padded_frames(frames, temporal_factor).take(frames.len() as int) =~= frames);
}

/// Sampled counts stay within the video and the limits wherever the two allow it.
pub proof fn law_sampled_counts_are_bounded(
    requested: int,
    min_frames: int,
    max_frames: int,
    total: int,
)
    requires
        0 < min_frames <= max_frames,
        total > 0,
    ensures
        1 <= limited_frames(requested, min_frames, max_frames, total) <= total,
        limited_frames(requested, min_frames, max_frames, total) <= max_frames,
        total >= min_frames ==> limited_frames(requested, min_frames, max_frames, total)
            >= min_frames,
{
}

/// Frames of temporal group `group`.
pub open spec fn group_frames(frames: Seq<usize>, temporal_factor: int, group: int) -> Seq<usize> {
    frames.subrange(group * temporal_factor, (group + 1) * temporal_factor)
}

/// Copies the frames of a temporal group.
pub(crate) fn take_group(frames: &Vec<usize>, temporal_factor: usize, group: usize) -> (r: Vec<
    usize,
>)
    requires
        temporal_factor > 0,
        group < frames.len() / temporal_factor,
    ensures
        r@ == group_frames(frames@, temporal_factor as int, group as int),
{
    let ghost all = group_frames(frames@, temporal_factor as int, group as int);
    proof {
        let count = frames.len() as int / temporal_factor as int;
        vstd::arithmetic::div_mod::lemma_fundamental_div_mod(
            frames.len() as int,
            temporal_factor as int,
        );
        assert((group + 1) * temporal_factor <= frames.len()) by (nonlinear_arith)
            requires
                group + 1 <= count,
                frames.len() == temporal_factor * count + frames.len() % temporal_factor,
                frames.len() % temporal_factor >= 0,
        ;
        assert((group + 1) * temporal_factor == group * temporal_factor + temporal_factor)
            by (nonlinear_arith);
        assert(0 <= group * temporal_factor) by (nonlinear_arith);
    }
    let start: usize = group * temporal_factor;
    let mut r: Vec<usize> = Vec::new();
    let mut at: usize = 0;
    assert(r@ =~= all.take(0));
    while at < temporal_factor
        invariant
            at <= temporal_factor,
            start == group * temporal_factor,
            start + temporal_factor <= frames.len(),
            (group + 1) * temporal_factor == start + temporal_factor,
            all == group_frames(frames@, temporal_factor as int, group as int),
            r@ == all.take(at as int),
        decreases temporal_factor - at,
    {
        r.push(frames[start + at]);
        assert(r@ =~= all.take(at as int + 1));
        at = at + 1;
    }
    assert(all.take(all.len() as int) =~= all);
    r
}

/// Reading of framing tokens: both, or neither.
pub open spec fn framing_reading(
    start: Option<u32>,
    end: Option<u32>,
    family: Seq<char>,
) -> Reading<Option<MediaFraming>> {
    match (start, end) {
        (Some(start_token_id), Some(end_token_id)) => Ok(
            Some(MediaFraming { start_token_id, end_token_id }),
        ),
        (None, None) => Ok(None),
        _ => Err(
            Fault::Invalid(family + " framing must declare both opening and closing token IDs"@),
        ),
    }
}

/// Reads framing tokens.
pub(crate) fn optional_framing(start: Option<u32>, end: Option<u32>, family: &str) -> (r: Result<
    Option<MediaFraming>,
    ProcessorPlanError,
>)
    ensures
        answers(r, framing_reading(start, end, family@)),
{
    match (start, end) {
        (Some(start_token_id), Some(end_token_id)) => Ok(
            Some(MediaFraming { start_token_id, end_token_id }),
        ),
        (None, None) => Ok(None),
        _ => Err(
            ProcessorPlanError::Invalid(
                family.to_owned().concat(
                    " framing must declare both opening and closing token IDs",
                ),
            ),
        ),
    }
}

} // verus!
