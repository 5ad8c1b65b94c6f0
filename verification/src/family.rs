//! Composite Gemma 4 family configuration and its weight encodings.

use crate::config::ModelArgs;
use crate::errors::{Fault, says};
use crate::formats::{WeightQuantization, map_view};
use crate::names::{NameSet, StringMap};
use crate::text::{has_prefix, starts_with};
use vstd::prelude::*;

verus! {

/// Vision tower geometry and encodings.
#[derive(Debug, Clone)]
pub struct VisionConfig {
    /// Tower hidden width.
    pub hidden_size: i32,
    /// MLP width.
    pub intermediate_size: i32,
    /// Tower depth.
    pub num_hidden_layers: i32,
    /// Query head count.
    pub num_attention_heads: i32,
    /// Key/value head count.
    pub num_key_value_heads: i32,
    /// Head width.
    pub head_dim: i32,
    /// Patch side length.
    pub patch_size: i32,
    /// Positions of the position table.
    pub position_embedding_size: i32,
    /// Whether outputs are standardized.
    pub standardize: bool,
    /// Model-wide physical weight encoding.
    pub weight_quantization: Option<WeightQuantization>,
    /// Parameter names using the model-wide encoding.
    pub quantized_weights: Option<NameSet>,
    /// Exact per-parameter encodings.
    pub quantized_weight_configs: Option<StringMap<WeightQuantization>>,
}

/// Audio tower geometry and encodings.
#[derive(Debug, Clone)]
pub struct AudioConfig {
    /// Tower hidden width.
    pub hidden_size: i32,
    /// Tower depth.
    pub num_hidden_layers: i32,
    /// Head width.
    pub head_dim: i32,
    /// Channels of the subsampling convolutions.
    pub subsampling_conv_channels: Vec<i32>,
    /// Output projection width.
    pub output_proj_dims: i32,
    /// Depthwise convolution kernel length.
    pub conv_kernel_size: i32,
    /// Model-wide physical weight encoding.
    pub weight_quantization: Option<WeightQuantization>,
    /// Parameter names using the model-wide encoding.
    pub quantized_weights: Option<NameSet>,
    /// Exact per-parameter encodings.
    pub quantized_weight_configs: Option<StringMap<WeightQuantization>>,
}

/// Text decoder with its optional media towers.
#[derive(Debug, Clone)]
pub struct FamilyConfig {
    /// Text decoder.
    pub text: ModelArgs,
    /// Vision tower.
    pub vision: Option<VisionConfig>,
    /// Audio tower.
    pub audio: Option<AudioConfig>,
}

impl ModelArgs {
    /// Whether the decoder is `source` but for its weight encodings.
    pub open spec fn reencodes(self, source: ModelArgs) -> bool {
        self == (ModelArgs {
            weight_quantization: self.weight_quantization,
            quantized_weights: self.quantized_weights,
            quantized_weight_configs: self.quantized_weight_configs,
            ..source
        })
    }
}

impl VisionConfig {
    /// Whether the tower is `source` but for its weight encodings.
    pub open spec fn reencodes(self, source: VisionConfig) -> bool {
        self == (VisionConfig {
            weight_quantization: self.weight_quantization,
            quantized_weights: self.quantized_weights,
            quantized_weight_configs: self.quantized_weight_configs,
            ..source
        })
    }
}

impl AudioConfig {
    /// Whether the tower is `source` but for its weight encodings.
    pub open spec fn reencodes(self, source: AudioConfig) -> bool {
        self == (AudioConfig {
            weight_quantization: self.weight_quantization,
            quantized_weights: self.quantized_weights,
            quantized_weight_configs: self.quantized_weight_configs,
            ..source
        })
    }
}

/// Whether every component of `target` is that of `source` under the one encoding `quantization`.
pub open spec fn quantized_whole(
    target: FamilyConfig,
    source: FamilyConfig,
    quantization: WeightQuantization,
) -> bool {
    &&& target.text.reencodes(source.text)
    &&& target.text.weight_quantization == Some(quantization)
    &&& target.text.quantized_weights is None
    &&& target.text.quantized_weight_configs is None
    &&& target.vision is Some == source.vision is Some
    &&& target.vision matches Some(vision) ==> {
        &&& vision.reencodes(source.vision->0)
        &&& vision.weight_quantization == Some(quantization)
        &&& vision.quantized_weights is None
        &&& vision.quantized_weight_configs is None
    }
    &&& target.audio is Some == source.audio is Some
    &&& target.audio matches Some(audio) ==> {
        &&& audio.reencodes(source.audio->0)
        &&& audio.weight_quantization == Some(quantization)
        &&& audio.quantized_weights is None
        &&& audio.quantized_weight_configs is None
    }
}

/// Derives a Gemma 4 family configuration whose text and aligned media matrix formats reflect
/// load-time quantization. `valid` is the outcome of validating `quantization` itself.
pub fn load_time_quantization(
    config: FamilyConfig,
    quantization: WeightQuantization,
    valid: Result<(), String>,
) -> (r: Result<FamilyConfig, String>)
    ensures
        match valid {
            Ok(()) => r matches Ok(target) && quantized_whole(target, config, quantization),
            Err(message) => says(r, Fault::Invalid(message@)),
        },
{
    valid?;
    let text = ModelArgs {
        weight_quantization: Some(quantization),
        quantized_weights: None,
        quantized_weight_configs: None,
        ..config.text
    };
    let vision = match config.vision {
        Some(vision) => Some(
            VisionConfig {
                weight_quantization: Some(quantization),
                quantized_weights: None,
                quantized_weight_configs: None,
                ..vision
            },
        ),
        None => None,
    };
    let audio = match config.audio {
        Some(audio) => Some(
            AudioConfig {
                weight_quantization: Some(quantization),
                quantized_weights: None,
                quantized_weight_configs: None,
                ..audio
            },
        ),
        None => None,
    };
    Ok(FamilyConfig { text, vision, audio })
}

/// Whether `name` is a parameter of the vision tower or its projection.
pub open spec fn vision_name(name: Seq<char>) -> bool {
    has_prefix(name, "model.vision_tower."@) || has_prefix(name, "model.embed_vision."@)
}

/// Whether `name` is a parameter of the audio tower or its projection.
pub open spec fn audio_name(name: Seq<char>) -> bool {
    !vision_name(name) && (has_prefix(name, "model.audio_tower."@) || has_prefix(
        name,
        "model.embed_audio."@,
    ))
}

/// Whether `name` is a parameter of the text decoder: any but those of the towers.
pub open spec fn text_name(name: Seq<char>) -> bool {
    if vision_name(name) {
        has_prefix(name, "model.embed_vision."@)
    } else if audio_name(name) {
        has_prefix(name, "model.embed_audio."@)
    } else {
        true
    }
}

/// The entries of `formats` whose name is kept.
pub open spec fn kept(
    formats: Map<Seq<char>, WeightQuantization>,
    keep: spec_fn(Seq<char>) -> bool,
) -> Map<Seq<char>, WeightQuantization> {
    Map::new(
        |name: Seq<char>| formats.contains_key(name) && keep(name),
        |name: Seq<char>| formats[name],
    )
}

/// Whether `configs` holds the entries of `formats` whose name is kept, and is absent where
/// there are none.
pub open spec fn holds_kept(
    configs: Option<StringMap<WeightQuantization>>,
    formats: Map<Seq<char>, WeightQuantization>,
    keep: spec_fn(Seq<char>) -> bool,
) -> bool {
    if kept(formats, keep) == Map::<Seq<char>, WeightQuantization>::empty() {
        configs is None
    } else {
        map_view(configs) == Some(kept(formats, keep))
    }
}

/// Whether every component of `target` is that of `source` under its share of `formats`.
pub open spec fn formats_shared(
    target: FamilyConfig,
    source: FamilyConfig,
    formats: Map<Seq<char>, WeightQuantization>,
) -> bool {
    &&& target.text.reencodes(source.text)
    &&& target.text.weight_quantization is None
    &&& target.text.quantized_weights is None
    &&& holds_kept(target.text.quantized_weight_configs, formats, |name| text_name(name))
    &&& target.vision is Some == source.vision is Some
    &&& target.vision matches Some(vision) ==> {
        &&& vision.reencodes(source.vision->0)
        &&& vision.weight_quantization is None
        &&& vision.quantized_weights is None
        &&& holds_kept(vision.quantized_weight_configs, formats, |name| vision_name(name))
    }
    &&& target.audio is Some == source.audio is Some
    &&& target.audio matches Some(audio) ==> {
        &&& audio.reencodes(source.audio->0)
        &&& audio.weight_quantization is None
        &&& audio.quantized_weights is None
        &&& holds_kept(audio.quantized_weight_configs, formats, |name| audio_name(name))
    }
}

/// Whether `part` holds the first `end` entries of `formats` whose name is kept.
spec fn collected(
    part: StringMap<WeightQuantization>,
    formats: StringMap<WeightQuantization>,
    end: int,
    keep: spec_fn(Seq<char>) -> bool,
) -> bool {
    &&& forall|name: Seq<char>| #[trigger]
        part@.contains_key(name) <==> formats.names().take(end).contains(name) && keep(name)
    &&& forall|name: Seq<char>| #[trigger]
        part@.contains_key(name) ==> part@[name] == formats@[name]
}

proof fn lemma_collect(
    before: StringMap<WeightQuantization>,
    after: StringMap<WeightQuantization>,
    formats: StringMap<WeightQuantization>,
    at: int,
    keep: spec_fn(Seq<char>) -> bool,
)
    requires
        0 <= at < formats.names().len(),
        collected(before, formats, at, keep),
        formats@[formats.names()[at]] == formats.values()[at],
        after@ == if keep(formats.names()[at]) {
            before@.insert(formats.names()[at], formats.values()[at])
        } else {
            before@
        },
    ensures
        collected(after, formats, at + 1, keep),
{
    let here = formats.names()[at];
    let old_names = formats.names().take(at);
    let new_names = formats.names().take(at + 1);
    assert(new_names =~= old_names.push(here));
    assert forall|name: Seq<char>| #[trigger]
        after@.contains_key(name) <==> new_names.contains(name) && keep(name) by {
        if old_names.contains(name) {
            let i = choose|i: int| 0 <= i < old_names.len() && old_names[i] == name;
            assert(new_names[i] == name);
        }
        assert(new_names[at] == here);
    }
}

proof fn lemma_collected(
    part: StringMap<WeightQuantization>,
    formats: StringMap<WeightQuantization>,
    keep: spec_fn(Seq<char>) -> bool,
)
    requires
        collected(part, formats, formats.names().len() as int, keep),
        formats@.dom() == formats.names().to_set(),
    ensures
        part@ == kept(formats@, keep),
{
    assert(formats.names().take(formats.names().len() as int) =~= formats.names());
    assert forall|name: Seq<char>| part@.contains_key(name) == kept(
        formats@,
        keep,
    ).contains_key(name) by {
        assert(formats@.contains_key(name) == formats.names().to_set().contains(name));
    }
    assert(part@ =~= kept(formats@, keep));
}

fn unless_empty(formats: StringMap<WeightQuantization>) -> (r: Option<
    StringMap<WeightQuantization>,
>)
    ensures
        if formats@ == Map::<Seq<char>, WeightQuantization>::empty() {
            r is None
        } else {
            r == Some(formats)
        },
{
    if formats.is_empty() {
        None
    } else {
        Some(formats)
    }
}

/// Applies canonical checkpoint formats to a complete Gemma 4 family configuration. Tower
/// parameters go to their tower, media projections to tower and decoder, and all others to the
/// decoder.
pub fn with_checkpoint_formats(
    config: FamilyConfig,
    formats: StringMap<WeightQuantization>,
) -> (target: FamilyConfig)
    ensures
        formats_shared(target, config, formats@),
{
    let ghost keep_text = |name: Seq<char>| text_name(name);
    let ghost keep_vision = |name: Seq<char>| vision_name(name);
    let ghost keep_audio = |name: Seq<char>| audio_name(name);
    let mut text: StringMap<WeightQuantization> = StringMap::new();
    let mut vision: StringMap<WeightQuantization> = StringMap::new();
    let mut audio: StringMap<WeightQuantization> = StringMap::new();
    let count: usize = formats.len();
    let mut at: usize = 0;
    while at < count
        invariant
            at <= count,
            count == formats.names().len(),
            formats.values().len() == count,
            keep_text == |name: Seq<char>| text_name(name),
            keep_vision == |name: Seq<char>| vision_name(name),
            keep_audio == |name: Seq<char>| audio_name(name),
            forall|i: int|
                0 <= i < formats.names().len() ==> #[trigger] formats@[formats.names()[i]]
                    == formats.values()[i],
            collected(text, formats, at as int, keep_text),
            collected(vision, formats, at as int, keep_vision),
            collected(audio, formats, at as int, keep_audio),
        decreases count - at,
    {
        let ghost before = (text, vision, audio);
        let name: &str = formats.name_at(at);
        let format: WeightQuantization = *formats.value_at(at);
        if starts_with(name, "model.vision_tower.") || starts_with(name, "model.embed_vision.") {
            vision = vision.with(name.to_owned(), format);
            if starts_with(name, "model.embed_vision.") {
                text = text.with(name.to_owned(), format);
            }
        } else if starts_with(name, "model.audio_tower.") || starts_with(
            name,
            "model.embed_audio.",
        ) {
            audio = audio.with(name.to_owned(), format);
            if starts_with(name, "model.embed_audio.") {
                text = text.with(name.to_owned(), format);
            }
        } else {
            text = text.with(name.to_owned(), format);
        }
        proof {
            lemma_collect(before.0, text, formats, at as int, keep_text);
            lemma_collect(before.1, vision, formats, at as int, keep_vision);
            lemma_collect(before.2, audio, formats, at as int, keep_audio);
        }
        at = at + 1;
    }
    proof {
        lemma_collected(text, formats, keep_text);
        lemma_collected(vision, formats, keep_vision);
        lemma_collected(audio, formats, keep_audio);
    }
    let text = ModelArgs {
        weight_quantization: None,
        quantized_weights: None,
        quantized_weight_configs: unless_empty(text),
        ..config.text
    };
    let vision = match config.vision {
        Some(tower) => Some(
            VisionConfig {
                weight_quantization: None,
                quantized_weights: None,
                quantized_weight_configs: unless_empty(vision),
                ..tower
            },
        ),
        None => None,
    };
    let audio = match config.audio {
        Some(tower) => Some(
            AudioConfig {
                weight_quantization: None,
                quantized_weights: None,
                quantized_weight_configs: unless_empty(audio),
                ..tower
            },
        ),
        None => None,
    };
    FamilyConfig { text, vision, audio }
}

} // verus!
