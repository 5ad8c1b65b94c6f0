//! Physical weight encodings and canonical weight names.

use crate::names::{NameSet, StringMap};
use crate::text::{ends_with, has_prefix, has_suffix, starts_with, strip_prefix, stripped};
use vstd::prelude::*;

verus! {

/// Physical encoding of quantized weights.
#[derive(Debug, Clone, Copy, PartialEq, Eq, Structural)]
pub enum WeightQuantization {
    /// Grouped affine integers.
    Affine {
        /// Weights sharing one scale and bias.
        group_size: u32,
        /// Bits of one weight.
        bits: u32,
    },
    /// Microscaling four-bit floats.
    MxFp4,
    /// Any further encoding, by the identity its checkpoint format assigns.
    Other {
        /// Assigned identity.
        id: u32,
    },
}

/// Physical encoding of one linear weight.
#[derive(Debug, Clone, Copy, PartialEq, Eq, Structural)]
pub enum LinearFormat {
    /// Stored in its floating-point type.
    Dense,
    /// Stored quantized.
    Quantized(WeightQuantization),
}

impl From<WeightQuantization> for LinearFormat {
    fn from(quantization: WeightQuantization) -> (r: LinearFormat) {
        LinearFormat::Quantized(quantization)
    }
}

impl vstd::std_specs::convert::FromSpecImpl<WeightQuantization> for LinearFormat {
    open spec fn obeys_from_spec() -> bool {
        true
    }

    open spec fn from_spec(quantization: WeightQuantization) -> LinearFormat {
        LinearFormat::Quantized(quantization)
    }
}

/// Canonical root of `key`: released, canonical, and mlx-vlm spellings agree on it.
pub open spec fn canonical_root(key: Seq<char>) -> Seq<char> {
    if let Some(rest) = stripped(key, "language_model.model."@) {
        "model."@ + rest
    } else if let Some(rest) = stripped(key, "model.language_model."@) {
        "model."@ + rest
    } else if let Some(rest) = stripped(key, "language_model.lm_head"@) {
        "lm_head"@ + rest
    } else if has_prefix(key, "vision_tower."@) || has_prefix(key, "audio_tower."@) || has_prefix(
        key,
        "embed_vision."@,
    ) || has_prefix(key, "embed_audio."@) {
        "model."@ + key
    } else {
        key
    }
}

/// Canonical `model.*.weight` name of the tensor that `key` names.
pub open spec fn canonical_name(key: Seq<char>) -> Seq<char> {
    let root = canonical_root(key);
    if has_suffix(root, ".weight"@) {
        root
    } else {
        root + ".weight"@
    }
}

/// Canonical `model.*.weight` name of a tensor named in a quantization override, accepting the
/// released, canonical and mlx-vlm spellings.
pub fn canonical_weight_name(key: &str) -> (r: String)
    ensures
        r@ == canonical_name(key@),
{
    let name: String = if let Some(rest) = strip_prefix(key, "language_model.model.") {
        "model.".to_owned().concat(rest)
    } else if let Some(rest) = strip_prefix(key, "model.language_model.") {
        "model.".to_owned().concat(rest)
    } else if let Some(rest) = strip_prefix(key, "language_model.lm_head") {
        "lm_head".to_owned().concat(rest)
    } else if starts_with(key, "vision_tower.") || starts_with(key, "audio_tower.") || starts_with(
        key,
        "embed_vision.",
    ) || starts_with(key, "embed_audio.") {
        "model.".to_owned().concat(key)
    } else {
        key.to_owned()
    };
    if ends_with(name.as_str(), ".weight") {
        name
    } else {
        name.concat(".weight")
    }
}

/// Model-wide encoding, the weights it covers, and exact per-weight encodings.
pub open spec fn selected_format(
    weight_quantization: Option<WeightQuantization>,
    quantized_weights: Option<Set<Seq<char>>>,
    quantized_weight_configs: Option<Map<Seq<char>, WeightQuantization>>,
    name: Seq<char>,
) -> LinearFormat {
    if quantized_weight_configs matches Some(formats) && formats.contains_key(name) {
        LinearFormat::Quantized(quantized_weight_configs->0[name])
    } else if quantized_weight_configs matches Some(formats) && formats.contains_key(
        canonical_name(name),
    ) {
        LinearFormat::Quantized(quantized_weight_configs->0[canonical_name(name)])
    } else if weight_quantization is Some && (quantized_weights is None
        || quantized_weights->0.contains(name)) {
        LinearFormat::Quantized(weight_quantization->0)
    } else {
        LinearFormat::Dense
    }
}

/// View of an optional set of names.
pub open spec fn set_view(names: Option<NameSet>) -> Option<Set<Seq<char>>> {
    match names {
        Some(names) => Some(names@),
        None => None,
    }
}

/// View of an optional map of encodings.
pub open spec fn map_view<V>(formats: Option<StringMap<V>>) -> Option<Map<Seq<char>, V>> {
    match formats {
        Some(formats) => Some(formats@),
        None => None,
    }
}

/// Selects the encoding of the weight `name`: an exact override under that name, then one under
/// its canonical name, then the model-wide encoding where it covers the weight.
pub fn select_format(
    weight_quantization: Option<WeightQuantization>,
    quantized_weights: &Option<NameSet>,
    quantized_weight_configs: &Option<StringMap<WeightQuantization>>,
    name: &str,
) -> (r: LinearFormat)
    ensures
        r == selected_format(
            weight_quantization,
            set_view(*quantized_weights),
            map_view(*quantized_weight_configs),
            name@,
        ),
{
    if let Some(formats) = quantized_weight_configs {
        if let Some(format) = formats.get(name) {
            return LinearFormat::from(*format);
        }
        if let Some(format) = formats.get(canonical_weight_name(name).as_str()) {
            return LinearFormat::from(*format);
        }
    }
    match weight_quantization {
        Some(format) => {
            let covered: bool = match quantized_weights {
                Some(weights) => weights.contains(name),
                None => true,
            };
            if covered {
                LinearFormat::from(format)
            } else {
                LinearFormat::Dense
            }
        },
        None => LinearFormat::Dense,
    }
}

} // verus!
