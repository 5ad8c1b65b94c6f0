//! Inkling image and audio processor policy.

use crate::errors::{
    Decoded, Fault, ProcessorPlanError, Reading, answers, fault_if, refuses, unplanned,
};
use crate::float::Float32;
use crate::media::{BYTE_SCALE, Channels, EIGHT_THOUSAND, MINUS_ONE, ZERO};
use crate::text::same_text;
use vstd::prelude::*;

verus! {

/// Opening image-content token where none is declared.
pub const INKLING_IMAGE_BOS: u32 = 200_005;

/// Opening audio-content token where none is declared.
pub const INKLING_AUDIO_BOS: u32 = 200_020;

/// Mel vocabulary bins where none are declared.
pub const INKLING_DMEL_BINS: usize = 16;

/// Encoding of the smallest quantized value where none is declared: minus seven.
pub const INKLING_DMEL_MIN: u32 = 0xc0e0_0000;

/// Encoding of the largest quantized value where none is declared: two.
pub const INKLING_DMEL_MAX: u32 = 0x4000_0000;

/// Side length of one image patch.
pub const INKLING_PATCH: usize = 40;

/// Encoding of the energy floor before the logarithm: one ten-billionth.
pub const INKLING_ENERGY_FLOOR: u32 = 0x2edb_e6ff;

/// Audio settings of a model configuration.
#[derive(Debug, Clone, Copy, PartialEq, Eq, Structural)]
pub struct InklingAudioSource {
    /// Mel vocabulary bins.
    pub mel_vocab_size: usize,
    /// Smallest quantized value.
    pub dmel_min_value: Float32,
    /// Largest quantized value.
    pub dmel_max_value: Float32,
}

/// Model configuration.
#[derive(Debug, Clone)]
pub struct InklingSource {
    /// Declared model identity.
    pub model_type: String,
    /// Opening image-content token.
    pub image_bos_token_id: u32,
    /// Opening audio-content token.
    pub audio_bos_token_id: u32,
    /// Audio settings.
    pub audio_config: Option<InklingAudioSource>,
}

/// Backend-neutral analysis-window function.
#[derive(Debug, Clone, Copy, PartialEq, Eq, Structural)]
pub enum AudioWindow {
    /// Periodic Hann: `0.5 - 0.5*cos(2*pi*n/N)` for `0 <= n < N`.
    PeriodicHann,
}

/// Backend-neutral output-frame-count convention.
#[derive(Debug, Clone, Copy, PartialEq, Eq, Structural)]
pub enum AudioFrameCount {
    /// Emit `ceil(input_samples / hop_length)` frames.
    InputDivHopCeil,
}

/// Backend-neutral waveform framing and padding convention.
#[derive(Debug, Clone, Copy, PartialEq, Eq, Structural)]
pub struct AudioFramingPlan {
    /// Zero-valued samples prepended before the first analysis frame.
    pub leading_zeros: usize,
    /// Rule used to derive the number of emitted frames.
    pub frame_count: AudioFrameCount,
    /// Samples beyond the waveform are filled with this value.
    pub trailing_padding_value: Float32,
}

/// Backend-neutral frequency-to-mel conversion convention.
#[derive(Debug, Clone, Copy, PartialEq, Eq, Structural)]
pub enum MelScale {
    /// Slaney's piecewise linear/logarithmic mel scale.
    Slaney,
}

/// Backend-neutral mel filter-bank normalization convention.
#[derive(Debug, Clone, Copy, PartialEq, Eq, Structural)]
pub enum MelNormalization {
    /// Slaney area normalization, scaling each triangle by `2 / (right - left)`.
    SlaneyArea,
}

/// Backend-neutral spectrum value accumulated through a filter bank.
#[derive(Debug, Clone, Copy, PartialEq, Eq, Structural)]
pub enum SpectrumValue {
    /// Complex magnitude, equivalent to a spectrum power of one.
    Magnitude,
}

/// Backend-neutral logarithm convention.
#[derive(Debug, Clone, Copy, PartialEq, Eq, Structural)]
pub enum Logarithm {
    /// Base-ten logarithm.
    Base10,
}

/// Inkling image patch and normalization policy.
#[derive(Debug, Clone, Copy, PartialEq, Eq, Structural)]
pub struct InklingImagePlan {
    /// Token placed before the image tensor.
    pub start_token_id: u32,
    /// Spatial patch side length.
    pub patch_size: usize,
    /// Duplicated temporal extent.
    pub temporal_patch_size: usize,
    /// Patch rows, including a final partial row.
    pub patch_rows: usize,
    /// Patch columns, including the released extra-column behavior.
    pub patch_columns: usize,
    /// Pixel rescaling factor.
    pub rescale_factor: Float32,
    /// Channel normalization mean.
    pub mean: Channels,
    /// Channel normalization standard deviation.
    pub std: Channels,
    /// Raw byte-domain value used outside the source image.
    pub padding_value: Float32,
}

/// Inkling audio feature extraction and dMel quantization policy.
#[derive(Debug, Clone, Copy, PartialEq, Eq, Structural)]
pub struct InklingAudioPlan {
    /// Token placed before the audio tensor.
    pub start_token_id: u32,
    /// Required waveform sample rate.
    pub sample_rate: u32,
    /// FFT and analysis-window length.
    pub fft_length: usize,
    /// Analysis hop length.
    pub hop_length: usize,
    /// Analysis-window function.
    pub window: AudioWindow,
    /// Waveform padding and output-frame-count convention.
    pub framing: AudioFramingPlan,
    /// Number of continuous mel bands.
    pub mel_bins: usize,
    /// Lower mel filter frequency.
    pub min_frequency: Float32,
    /// Upper mel filter frequency.
    pub max_frequency: Float32,
    /// Frequency-to-mel conversion convention.
    pub mel_scale: MelScale,
    /// Mel filter-bank normalization convention.
    pub mel_normalization: MelNormalization,
    /// Spectrum value accumulated through the mel filters.
    pub spectrum: SpectrumValue,
    /// Logarithm applied after flooring the filtered spectrum.
    pub logarithm: Logarithm,
    /// Number of discrete mel vocabulary bins.
    pub dmel_bins: usize,
    /// Minimum quantized log-mel value.
    pub dmel_min: Float32,
    /// Maximum quantized log-mel value.
    pub dmel_max: Float32,
    /// Energy floor before base-ten logarithm.
    pub energy_floor: Float32,
}

/// Normalized Inkling multimodal processor policy.
#[derive(Debug, Clone, Copy, PartialEq, Eq, Structural)]
pub struct InklingProcessorPlan {
    /// Opening image-content token, once it is known.
    pub image_bos_token_id: Option<u32>,
    /// Opening audio-content token, once it is known.
    pub audio_bos_token_id: Option<u32>,
    /// Mel vocabulary bins.
    pub dmel_bins: usize,
    /// Smallest quantized value.
    pub dmel_min: Float32,
    /// Largest quantized value.
    pub dmel_max: Float32,
}

/// Channel means of released images.
pub open spec fn inkling_mean() -> Channels {
    Channels {
        red: Float32 { bits: 0x3ef6_813a },
        green: Float32 { bits: 0x3eea_685e },
        blue: Float32 { bits: 0x3ed1_00ff },
    }
}

/// Channel deviations of released images.
pub open spec fn inkling_std() -> Channels {
    Channels {
        red: Float32 { bits: 0x3e89_89d0 },
        green: Float32 { bits: 0x3e85_c974 },
        blue: Float32 { bits: 0x3e8d_32a8 },
    }
}

/// Whether the quantization range is usable: two bins or more over a finite, non-empty range.
pub open spec fn usable_range(bins: int, min: Float32, max: Float32) -> bool {
    bins >= 2 && min.finite() && max.finite() && max.rank() > min.rank()
}

/// Fault of the quantization range.
pub open spec fn range_fault(bins: int, min: Float32, max: Float32) -> Option<Fault> {
    fault_if(!usable_range(bins, min, max), "invalid Inkling dMel bin configuration"@)
}

/// Audio settings: declared ones, or the defaults.
pub open spec fn audio_settings(declared: Option<InklingAudioSource>) -> InklingAudioSource {
    match declared {
        Some(audio) => audio,
        None => InklingAudioSource {
            mel_vocab_size: INKLING_DMEL_BINS,
            dmel_min_value: Float32 { bits: INKLING_DMEL_MIN },
            dmel_max_value: Float32 { bits: INKLING_DMEL_MAX },
        },
    }
}

/// The plan that a decoded model configuration declares; other models have none.
pub open spec fn inkling_reading(model: Decoded<InklingSource>) -> Reading<
    Option<InklingProcessorPlan>,
> {
    match model {
        Err(error) => Err(Fault::Json(error)),
        Ok(source) => if source.model_type@ != "inkling_mm_model"@ {
            Ok(None)
        } else {
            let audio = audio_settings(source.audio_config);
            match range_fault(
                audio.mel_vocab_size as int,
                audio.dmel_min_value,
                audio.dmel_max_value,
            ) {
                Some(fault) => Err(fault),
                None => Ok(
                    Some(
                        InklingProcessorPlan {
                            image_bos_token_id: Some(source.image_bos_token_id),
                            audio_bos_token_id: Some(source.audio_bos_token_id),
                            dmel_bins: audio.mel_vocab_size,
                            dmel_min: audio.dmel_min_value,
                            dmel_max: audio.dmel_max_value,
                        },
                    ),
                ),
            }
        },
    }
}

/// The plan of an admitted projector, whose content tokens remain to be bound.
pub open spec fn unresolved_plan() -> InklingProcessorPlan {
    InklingProcessorPlan {
        image_bos_token_id: None,
        audio_bos_token_id: None,
        dmel_bins: INKLING_DMEL_BINS,
        dmel_min: Float32 { bits: INKLING_DMEL_MIN },
        dmel_max: Float32 { bits: INKLING_DMEL_MAX },
    }
}

/// Patch rows of an image: a final partial row counts.
pub open spec fn patch_rows(height: int) -> int {
    (height + INKLING_PATCH - 1) / INKLING_PATCH as int
}

/// Patch columns of an image: one more than the whole patches.
pub open spec fn patch_columns(width: int) -> int {
    width / INKLING_PATCH as int + 1
}

/// Image policy after the opening token `token`.
pub open spec fn image_plan(token: u32, height: int, width: int) -> InklingImagePlan {
    InklingImagePlan {
        start_token_id: token,
        patch_size: INKLING_PATCH,
        temporal_patch_size: 2,
        patch_rows: patch_rows(height) as usize,
        patch_columns: patch_columns(width) as usize,
        rescale_factor: Float32 { bits: BYTE_SCALE },
        mean: inkling_mean(),
        std: inkling_std(),
        padding_value: Float32 { bits: MINUS_ONE },
    }
}

impl InklingProcessorPlan {
    fn new(
        image_bos_token_id: u32,
        audio_bos_token_id: u32,
        dmel_bins: usize,
        dmel_min: Float32,
        dmel_max: Float32,
    ) -> (r: Result<InklingProcessorPlan, ProcessorPlanError>)
        ensures
            match range_fault(dmel_bins as int, dmel_min, dmel_max) {
                Some(fault) => refuses(r, fault),
                None => r == Ok::<InklingProcessorPlan, ProcessorPlanError>(
                    (InklingProcessorPlan {
                        image_bos_token_id: Some(image_bos_token_id),
                        audio_bos_token_id: Some(audio_bos_token_id),
                        dmel_bins,
                        dmel_min,
                        dmel_max,
                    }),
                ),
            },
    {
        if dmel_bins < 2 || !dmel_min.is_finite() || !dmel_max.is_finite() || !dmel_max.exceeds(
            dmel_min,
        ) {
            return Err(unplanned("invalid Inkling dMel bin configuration"));
        }
        Ok(
            InklingProcessorPlan {
                image_bos_token_id: Some(image_bos_token_id),
                audio_bos_token_id: Some(audio_bos_token_id),
                dmel_bins,
                dmel_min,
                dmel_max,
            },
        )
    }

    /// Plans from a decoded Inkling family model configuration. Other models have no plan.
    pub fn from_hf_json(model: Decoded<InklingSource>) -> (r: Result<
        Option<InklingProcessorPlan>,
        ProcessorPlanError,
    >)
        ensures
            answers(r, inkling_reading(model)),
    {
        let source: InklingSource = match model {
            Ok(source) => source,
            Err(error) => {
                return Err(ProcessorPlanError::Json(error));
            },
        };
        if !same_text(source.model_type.as_str(), "inkling_mm_model") {
            return Ok(None);
        }
        let audio: InklingAudioSource = match source.audio_config {
            Some(audio) => audio,
            None => InklingAudioSource {
                mel_vocab_size: INKLING_DMEL_BINS,
                dmel_min_value: Float32 { bits: INKLING_DMEL_MIN },
                dmel_max_value: Float32 { bits: INKLING_DMEL_MAX },
            },
        };
        let plan: InklingProcessorPlan = InklingProcessorPlan::new(
            source.image_bos_token_id,
            source.audio_bos_token_id,
            audio.mel_vocab_size,
            audio.dmel_min_value,
            audio.dmel_max_value,
        )?;
        Ok(Some(plan))
    }

    /// Builds structurally admitted Inkling GGUF processing awaiting token IDs.
    pub fn from_gguf_metadata() -> (r: Result<InklingProcessorPlan, ProcessorPlanError>)
        ensures
            r == Ok::<InklingProcessorPlan, ProcessorPlanError>(unresolved_plan()),
    {
        let plan: InklingProcessorPlan = InklingProcessorPlan::from_gguf_token_ids(0, 1)?;
        Ok(
            InklingProcessorPlan {
                image_bos_token_id: None,
                audio_bos_token_id: None,
                dmel_bins: plan.dmel_bins,
                dmel_min: plan.dmel_min,
                dmel_max: plan.dmel_max,
            },
        )
    }

    /// The plan with its opening content tokens bound.
    pub open spec fn with_ids(self, image_bos_token_id: u32, audio_bos_token_id: u32) -> (
        InklingProcessorPlan) {
        InklingProcessorPlan {
            image_bos_token_id: Some(image_bos_token_id),
            audio_bos_token_id: Some(audio_bos_token_id),
            ..self
        }
    }

    /// Builds Inkling GGUF processing from facade-resolved tokenizer IDs.
    pub fn from_gguf_token_ids(image_bos_token_id: u32, audio_bos_token_id: u32) -> (r: Result<
        InklingProcessorPlan,
        ProcessorPlanError,
    >)
        ensures
            r == Ok::<InklingProcessorPlan, ProcessorPlanError>(
                unresolved_plan().with_ids(image_bos_token_id, audio_bos_token_id),
            ),
    {
        InklingProcessorPlan::new(
            image_bos_token_id,
            audio_bos_token_id,
            INKLING_DMEL_BINS,
            Float32 { bits: INKLING_DMEL_MIN },
            Float32 { bits: INKLING_DMEL_MAX },
        )
    }

    /// Binds the opening content tokens.
    pub fn bind_token_ids(&mut self, image_bos_token_id: u32, audio_bos_token_id: u32)
        ensures
            *final(self) == old(self).with_ids(image_bos_token_id, audio_bos_token_id),
    {
        self.image_bos_token_id = Some(image_bos_token_id);
        self.audio_bos_token_id = Some(audio_bos_token_id);
    }

    /// Whether both content tokens are known.
    pub open spec fn resolved(self) -> bool {
        self.image_bos_token_id is Some && self.audio_bos_token_id is Some
    }

    /// Whether both content tokens are known.
    pub fn has_token_ids(&self) -> (r: bool)
        ensures
            r == self.resolved(),
    {
        self.image_bos_token_id.is_some() && self.audio_bos_token_id.is_some()
    }

    /// Derives the released image grid and normalization policy.
    pub fn image(&self, height: usize, width: usize) -> (r: Result<
        InklingImagePlan,
        ProcessorPlanError,
    >)
        ensures
            if height == 0 || width == 0 {
                refuses(r, Fault::Invalid("Inkling image dimensions must be positive"@))
            } else {
                match self.image_bos_token_id {
                    None => refuses(
                        r,
                        Fault::Invalid("Inkling GGUF image framing token ID is unresolved"@),
                    ),
                    Some(token) => r == Ok::<InklingImagePlan, ProcessorPlanError>(
                        image_plan(token, height as int, width as int),
                    ),
                }
            },
    {
        if height == 0 || width == 0 {
            return Err(unplanned("Inkling image dimensions must be positive"));
        }
        let start_token_id: u32 = match self.image_bos_token_id {
            Some(token) => token,
            None => {
                return Err(unplanned("Inkling GGUF image framing token ID is unresolved"));
            },
        };
        let partial: usize = if height % INKLING_PATCH == 0 {
            0
        } else {
            1
        };
        Ok(
            InklingImagePlan {
                start_token_id,
                patch_size: INKLING_PATCH,
                temporal_patch_size: 2,
                patch_rows: height / INKLING_PATCH + partial,
                patch_columns: width / INKLING_PATCH + 1,
                rescale_factor: Float32 { bits: BYTE_SCALE },
                mean: Channels {
                    red: Float32 { bits: 0x3ef6_813a },
                    green: Float32 { bits: 0x3eea_685e },
                    blue: Float32 { bits: 0x3ed1_00ff },
                },
                std: Channels {
                    red: Float32 { bits: 0x3e89_89d0 },
                    green: Float32 { bits: 0x3e85_c974 },
                    blue: Float32 { bits: 0x3e8d_32a8 },
                },
                padding_value: Float32 { bits: MINUS_ONE },
            },
        )
    }

    /// Audio policy after the opening token `token`.
    pub open spec fn audio_plan(self, token: u32) -> InklingAudioPlan {
        InklingAudioPlan {
            start_token_id: token,
            sample_rate: 16_000,
            fft_length: 1_600,
            hop_length: 800,
            window: AudioWindow::PeriodicHann,
            framing: AudioFramingPlan {
                leading_zeros: 800,
                frame_count: AudioFrameCount::InputDivHopCeil,
                trailing_padding_value: Float32 { bits: ZERO },
            },
            mel_bins: 80,
            min_frequency: Float32 { bits: ZERO },
            max_frequency: Float32 { bits: EIGHT_THOUSAND },
            mel_scale: MelScale::Slaney,
            mel_normalization: MelNormalization::SlaneyArea,
            spectrum: SpectrumValue::Magnitude,
            logarithm: Logarithm::Base10,
            dmel_bins: self.dmel_bins,
            dmel_min: self.dmel_min,
            dmel_max: self.dmel_max,
            energy_floor: Float32 { bits: INKLING_ENERGY_FLOOR },
        }
    }

    /// Returns the released audio framing, analysis, and quantization policy.
    pub fn audio(&self) -> (r: Result<InklingAudioPlan, ProcessorPlanError>)
        ensures
            match self.audio_bos_token_id {
                None => refuses(
                    r,
                    Fault::Invalid("Inkling GGUF audio framing token ID is unresolved"@),
                ),
                Some(token) => r == Ok::<InklingAudioPlan, ProcessorPlanError>(
                    self.audio_plan(token),
                ),
            },
    {
        let start_token_id: u32 = match self.audio_bos_token_id {
            Some(token) => token,
            None => {
                return Err(unplanned("Inkling GGUF audio framing token ID is unresolved"));
            },
        };
        Ok(
            InklingAudioPlan {
                start_token_id,
                sample_rate: 16_000,
                fft_length: 1_600,
                hop_length: 800,
                window: AudioWindow::PeriodicHann,
                framing: AudioFramingPlan {
                    leading_zeros: 800,
                    frame_count: AudioFrameCount::InputDivHopCeil,
                    trailing_padding_value: Float32 { bits: ZERO },
                },
                mel_bins: 80,
                min_frequency: Float32 { bits: ZERO },
                max_frequency: Float32 { bits: EIGHT_THOUSAND },
                mel_scale: MelScale::Slaney,
                mel_normalization: MelNormalization::SlaneyArea,
                spectrum: SpectrumValue::Magnitude,
                logarithm: Logarithm::Base10,
                dmel_bins: self.dmel_bins,
                dmel_min: self.dmel_min,
                dmel_max: self.dmel_max,
                energy_floor: Float32 { bits: INKLING_ENERGY_FLOOR },
            },
        )
    }
}

/// The patch grid covers the image: rows exactly, columns with one to spare.
pub proof fn law_inkling_grid_covers_the_image(height: int, width: int)
    requires
        height > 0,
        width > 0,
    ensures
        patch_rows(height) * INKLING_PATCH >= height,
        (patch_rows(height) - 1) * INKLING_PATCH < height,
        patch_columns(width) * INKLING_PATCH > width,
        (patch_columns(width) - 1) * INKLING_PATCH <= width,
{
}

/// A planned image opens with its own token and has forty-pixel patches, duplicated in time. Rows
/// count a final partial one, columns count one more than the whole ones, and colors are
/// normalized channel by channel.
pub proof fn law_inkling_images_have_forty_pixel_patches(token: u32, height: usize, width: usize)
    requires
        height > 0,
        width > 0,
    ensures
        ({
            let image = image_plan(token, height as int, width as int);
            &&& image.start_token_id == token
            &&& image.patch_size == 40
            &&& image.temporal_patch_size == 2
            &&& 40 * image.patch_rows >= height > 40 * (image.patch_rows - 1)
            &&& 40 * image.patch_columns > width >= 40 * (image.patch_columns - 1)
            &&& image.rescale_factor.bits == 0x3b80_8081
            &&& image.mean.red.bits == 0x3ef6_813a
            &&& image.mean.green.bits == 0x3eea_685e
            &&& image.mean.blue.bits == 0x3ed1_00ff
            &&& image.std.red.bits == 0x3e89_89d0
            &&& image.std.green.bits == 0x3e85_c974
            &&& image.std.blue.bits == 0x3e8d_32a8
            &&& image.padding_value.bits == 0xbf80_0000
        }),
{
}

/// Audio opens with its own token and is analyzed at sixteen thousand samples a second in windows
/// of a tenth of a second that overlap by half, and quantized over the range of the plan.
pub proof fn law_inkling_audio_overlaps_by_half(plan: InklingProcessorPlan, token: u32)
    ensures
        ({
            let audio = plan.audio_plan(token);
            &&& audio.start_token_id == token
            &&& audio.sample_rate == 16_000
            &&& 10 * audio.fft_length == audio.sample_rate
            &&& 2 * audio.hop_length == audio.fft_length
            &&& audio.framing.leading_zeros == audio.hop_length
            &&& audio.framing.trailing_padding_value.bits == 0
            &&& audio.mel_bins == 80
            &&& audio.min_frequency.bits == 0
            &&& audio.max_frequency.bits == 0x45fa_0000
            &&& audio.dmel_bins == plan.dmel_bins
            &&& audio.dmel_min == plan.dmel_min
            &&& audio.dmel_max == plan.dmel_max
            &&& audio.energy_floor.bits == 0x2edb_e6ff
        }),
{
}

/// A model configuration gives its own tokens and quantization range to its plan, or else the
/// released range of sixteen bins from minus seven to two. The range is finite and not empty.
pub proof fn law_inkling_models_are_held(source: InklingSource, plan: InklingProcessorPlan)
    requires
        inkling_reading(Ok(source)) == Ok::<_, Fault>(Some(plan)),
    ensures
        source.model_type@ == "inkling_mm_model"@,
        plan.image_bos_token_id == Some(source.image_bos_token_id),
        plan.audio_bos_token_id == Some(source.audio_bos_token_id),
        plan.dmel_bins >= 2,
        plan.dmel_min.magnitude() < 0x7f80_0000 && plan.dmel_max.magnitude() < 0x7f80_0000,
        plan.dmel_min.rank() < plan.dmel_max.rank(),
        match source.audio_config {
            Some(audio) => {
                &&& plan.dmel_bins == audio.mel_vocab_size
                &&& plan.dmel_min == audio.dmel_min_value
                &&& plan.dmel_max == audio.dmel_max_value
            },
            None => {
                &&& plan.dmel_bins == 16
                &&& plan.dmel_min.bits == 0xc0e0_0000
                &&& plan.dmel_max.bits == 0x4000_0000
            },
        },
{
}

/// A plan without resolved tokens has the released range of sixteen bins from minus seven to two.
/// Binding tokens opens images and audio each with its own, and keeps the range.
pub proof fn law_inkling_tokens_are_bound(plan: InklingProcessorPlan, image: u32, audio: u32)
    ensures
        !unresolved_plan().resolved(),
        unresolved_plan().dmel_bins == 16,
        unresolved_plan().dmel_min.bits == 0xc0e0_0000,
        unresolved_plan().dmel_max.bits == 0x4000_0000,
        plan.with_ids(image, audio).resolved(),
        plan.with_ids(image, audio).image_bos_token_id == Some(image),
        plan.with_ids(image, audio).audio_bos_token_id == Some(audio),
        plan.with_ids(image, audio).dmel_bins == plan.dmel_bins,
        plan.with_ids(image, audio).dmel_min == plan.dmel_min,
        plan.with_ids(image, audio).dmel_max == plan.dmel_max,
{
}

} // verus!
