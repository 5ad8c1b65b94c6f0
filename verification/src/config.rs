//! Validated backend-neutral Gemma 4 text configuration.

use crate::errors::ConfigError;
use crate::float::Float32;
use crate::formats::{
    LinearFormat, WeightQuantization, map_view, select_format, selected_format, set_view,
};
use crate::names::{NameSet, StringMap};
use crate::pipeline::{pipeline_plan, plan_stages, ranges_between};
use crate::schedule::{AttentionPolicy, LayerPolicy};
use core::ops::Range;
use vstd::prelude::*;

verus! {

/// One rotary setting.
#[derive(Debug, Clone)]
pub enum RopeValue {
    /// Numeric setting.
    Float(Float32),
    /// Textual setting.
    Text {
        /// Text as configured.
        text: String,
        /// Number the text spells, where it spells one.
        number: Option<Float32>,
    },
    /// Switch.
    Bool(bool),
}

/// What a rotary setting holds.
pub enum RopeSetting {
    Float(Float32),
    Text(Seq<char>, Option<Float32>),
    Bool(bool),
}

impl DeepView for RopeValue {
    type V = RopeSetting;

    open spec fn deep_view(&self) -> RopeSetting {
        match self {
            RopeValue::Float(value) => RopeSetting::Float(*value),
            RopeValue::Text { text, number } => RopeSetting::Text(text@, *number),
            RopeValue::Bool(value) => RopeSetting::Bool(*value),
        }
    }
}

impl RopeValue {
    /// Number that the setting gives.
    pub open spec fn number(self) -> Option<Float32> {
        match self {
            RopeValue::Float(value) => Some(value),
            RopeValue::Text { text: _, number } => number,
            RopeValue::Bool(_) => None,
        }
    }
}

/// Number that a rotary setting gives.
pub fn rope_float(value: &RopeValue) -> (r: Option<Float32>)
    ensures
        r == value.number(),
{
    match value {
        RopeValue::Float(value) => Some(*value),
        RopeValue::Text { text: _, number } => *number,
        RopeValue::Bool(_) => None,
    }
}

/// Key of the rotary overrides for an attention kind.
pub open spec fn attention_key_spec(attention: AttentionPolicy) -> Seq<char> {
    match attention {
        AttentionPolicy::Full => "full_attention"@,
        AttentionPolicy::Sliding { .. } => "sliding_attention"@,
    }
}

/// Key of the rotary overrides for an attention kind.
pub fn attention_key(attention: AttentionPolicy) -> (r: &'static str)
    ensures
        r@ == attention_key_spec(attention),
{
    match attention {
        AttentionPolicy::Full => "full_attention",
        AttentionPolicy::Sliding { .. } => "sliding_attention",
    }
}

/// Normalized Gemma 4 decoder configuration.
#[derive(Debug, Clone)]
pub struct ModelArgs {
    /// Exact model identity (`gemma4` or `gemma4_unified`).
    pub model_type: String,
    /// Decoder hidden width.
    pub hidden_size: i32,
    /// Query head count.
    pub num_attention_heads: i32,
    /// Normalization epsilon.
    pub rms_norm_eps: Float32,
    /// Token vocabulary size.
    pub vocab_size: i32,
    /// Media-safe padding token for per-layer embeddings.
    pub pad_token_id: i32,
    /// Maximum configured sequence length.
    pub max_position_embeddings: i32,
    /// Default rotary base.
    pub rope_theta: Float32,
    /// Whether input and output token tables are tied.
    pub tie_word_embeddings: bool,
    /// Whether attention projections include bias.
    pub attention_bias: bool,
    /// Hidden width of optional per-layer token embeddings.
    pub hidden_size_per_layer_input: i32,
    /// Vocabulary size of optional per-layer token embeddings.
    pub vocab_size_per_layer_input: Option<i32>,
    /// Authoritative decoder layer schedule.
    pub layer_schedule: Vec<LayerPolicy>,
    /// Optional final-logit soft cap.
    pub final_logit_softcapping: Option<Float32>,
    /// Routed expert count.
    pub num_experts: Option<i32>,
    /// Selected experts per token.
    pub top_k_experts: Option<i32>,
    /// Routed expert intermediate width.
    pub moe_intermediate_size: Option<i32>,
    /// Default rotary scaling policy.
    pub rope_scaling: Option<StringMap<RopeValue>>,
    /// Per-attention-kind rotary overrides.
    pub rope_parameters: Option<StringMap<StringMap<RopeValue>>>,
    /// Preferred model-wide physical weight encoding.
    pub weight_quantization: Option<WeightQuantization>,
    /// Exact parameter names using the model-wide encoding in mixed artifacts.
    pub quantized_weights: Option<NameSet>,
    /// Exact per-parameter encodings for mixed GGUF artifacts.
    pub quantized_weight_configs: Option<StringMap<WeightQuantization>>,
}

impl ModelArgs {
    /// Rotary overrides for an attention kind.
    pub open spec fn rope_overrides(self, attention: AttentionPolicy) -> Option<
        StringMap<RopeValue>,
    > {
        match self.rope_parameters {
            Some(parameters) if parameters@.contains_key(attention_key_spec(attention)) => Some(
                parameters@[attention_key_spec(attention)],
            ),
            _ => None,
        }
    }

    /// Rotary base for an attention kind: a numeric override, else the default.
    pub open spec fn rope_theta_spec(self, attention: AttentionPolicy) -> Float32 {
        match self.rope_overrides(attention) {
            Some(overrides) if overrides@.contains_key("rope_theta"@)
                && overrides@["rope_theta"@].number() is Some => {
                overrides@["rope_theta"@].number()->0
            },
            _ => self.rope_theta,
        }
    }

    /// Rotary settings for an attention kind: its overrides, else the default ones.
    pub open spec fn rope_scaling_spec(self, attention: AttentionPolicy) -> Option<
        StringMap<RopeValue>,
    > {
        match self.rope_overrides(attention) {
            Some(overrides) => Some(overrides),
            None => self.rope_scaling,
        }
    }

    /// Encoding of the weight `name`.
    pub open spec fn format_of(self, name: Seq<char>) -> LinearFormat {
        selected_format(
            self.weight_quantization,
            set_view(self.quantized_weights),
            map_view(self.quantized_weight_configs),
            name,
        )
    }

    /// Number of decoder layers.
    pub fn num_hidden_layers(&self) -> (r: usize)
        ensures
            r == self.layer_schedule.len(),
    {
        self.layer_schedule.len()
    }

    /// Balances decoder layers across pipeline stages without separating a shared-KV consumer
    /// from the layer that publishes its attention state.
    pub fn pipeline_layer_ranges(&self, stages: usize) -> (r: Result<
        Vec<Range<usize>>,
        ConfigError,
    >)
        ensures
            match pipeline_plan(self.layer_schedule@, stages as int) {
                Ok(cuts) => r matches Ok(ranges) && ranges_between(ranges@, cuts),
                Err(fault) => r matches Err(error) && error.deep_view() == fault,
            },
    {
        plan_stages(&self.layer_schedule, stages)
    }

    /// Returns one complete layer policy without fallback.
    pub fn layer_policy(&self, layer: usize) -> (r: Option<LayerPolicy>)
        ensures
            r == if layer < self.layer_schedule.len() {
                Some(self.layer_schedule[layer as int])
            } else {
                None
            },
    {
        if layer < self.layer_schedule.len() {
            Some(self.layer_schedule[layer])
        } else {
            None
        }
    }

    /// Returns the rotary base selected for one attention kind.
    pub fn rope_theta_for(&self, attention: AttentionPolicy) -> (r: Float32)
        ensures
            r == self.rope_theta_spec(attention),
    {
        if let Some(parameters) = &self.rope_parameters {
            if let Some(overrides) = parameters.get(attention_key(attention)) {
                if let Some(value) = overrides.get("rope_theta") {
                    if let Some(theta) = rope_float(value) {
                        return theta;
                    }
                }
            }
        }
        self.rope_theta
    }

    /// Returns normalized rotary metadata selected for one attention kind.
    pub fn rope_scaling_for(&self, attention: AttentionPolicy) -> (r: Option<
        &StringMap<RopeValue>,
    >)
        ensures
            match r {
                Some(scaling) => self.rope_scaling_spec(attention) == Some(*scaling),
                None => self.rope_scaling_spec(attention) is None,
            },
    {
        if let Some(parameters) = &self.rope_parameters {
            if let Some(overrides) = parameters.get(attention_key(attention)) {
                return Some(overrides);
            }
        }
        self.rope_scaling.as_ref()
    }

    /// Returns the physical encoding for one linear weight, named in the released, canonical or
    /// mlx-vlm spelling. Per-tensor overrides are keyed by the canonical `model.*.weight` name,
    /// but callers that build modules under a released layer root look them up by that root, so
    /// the raw name is tried first and the canonical one second.
    pub fn linear_format_for(&self, name: &str) -> (r: LinearFormat)
        ensures
            r == self.format_of(name@),
    {
        select_format(
            self.weight_quantization,
            &self.quantized_weights,
            &self.quantized_weight_configs,
            name,
        )
    }
}

} // verus!
