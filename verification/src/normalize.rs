//! Normalization of a decoded Gemma 4 text configuration.

use crate::config::{ModelArgs, RopeValue};
use crate::errors::{ConfigError, Decoded, Fault, fault_if, first_of, invalid, reports};
use crate::float::Float32;
use crate::formats::WeightQuantization;
use crate::names::{NameSet, StringMap};
use crate::schedule::{
    AttentionPolicy, AttentionStateSource, AttentionValueSource, FeedForwardPolicy, LayerPolicy,
};
use crate::text::{debug_quoted, debug_text, decimal, decimal_text, same_text};
use vstd::prelude::*;

verus! {

/// Attention kind declared for one layer.
#[derive(Debug, Clone, Copy, PartialEq, Eq, Structural)]
pub enum AttentionKind {
    /// Attention over a sliding window.
    SlidingAttention,
    /// Attention over the whole prefix.
    FullAttention,
}

/// Text configuration as decoded, before validation.
#[derive(Debug)]
pub struct ModelArgsSource {
    /// Declared model identity.
    pub model_type: String,
    /// Decoder hidden width.
    pub hidden_size: i32,
    /// Decoder depth.
    pub num_hidden_layers: i32,
    /// Dense MLP width.
    pub intermediate_size: i32,
    /// Whether layers with shared state have a doubled MLP width.
    pub use_double_wide_mlp: bool,
    /// Exact MLP width of every layer.
    pub feed_forward_lengths: Option<Vec<i32>>,
    /// Query head count.
    pub num_attention_heads: i32,
    /// Normalization epsilon.
    pub rms_norm_eps: Float32,
    /// Token vocabulary size.
    pub vocab_size: i32,
    /// Padding token.
    pub pad_token_id: i32,
    /// Key/value head count of sliding layers, and of full layers unless overridden.
    pub num_key_value_heads: i32,
    /// Key/value head count of full layers.
    pub num_global_key_value_heads: Option<i32>,
    /// Maximum sequence length.
    pub max_position_embeddings: i32,
    /// Default rotary base.
    pub rope_theta: Float32,
    /// Head width of sliding layers, and of full layers unless overridden.
    pub head_dim: i32,
    /// Head width of full layers.
    pub global_head_dim: Option<i32>,
    /// Whether input and output token tables are tied.
    pub tie_word_embeddings: bool,
    /// Whether attention projections include bias.
    pub attention_bias: bool,
    /// Whether full layers reuse the key projection for values.
    pub attention_k_eq_v: bool,
    /// Hidden width of per-layer token embeddings; zero where there are none.
    pub hidden_size_per_layer_input: i32,
    /// Vocabulary size of per-layer token embeddings.
    pub vocab_size_per_layer_input: Option<i32>,
    /// Number of trailing layers that consume shared state.
    pub num_kv_shared_layers: i32,
    /// Attention kind of every layer; empty where all are full.
    pub layer_types: Vec<AttentionKind>,
    /// Sliding window.
    pub sliding_window: Option<i64>,
    /// Final-logit soft cap.
    pub final_logit_softcapping: Option<Float32>,
    /// Whether layers route to sparse experts.
    pub enable_moe_block: bool,
    /// Routed expert count.
    pub num_experts: Option<i32>,
    /// Selected experts per token.
    pub top_k_experts: Option<i32>,
    /// Routed expert width.
    pub moe_intermediate_size: Option<i32>,
    /// Default rotary scaling policy.
    pub rope_scaling: Option<StringMap<RopeValue>>,
    /// Per-attention-kind rotary overrides.
    pub rope_parameters: Option<StringMap<StringMap<RopeValue>>>,
    /// Model-wide physical weight encoding.
    pub weight_quantization: Option<WeightQuantization>,
    /// Parameter names using the model-wide encoding.
    pub quantized_weights: Option<NameSet>,
    /// Exact per-parameter encodings.
    pub quantized_weight_configs: Option<StringMap<WeightQuantization>>,
}

/// Outcome of resolving the rotary algorithms that a configuration names.
#[derive(Debug)]
pub struct RotaryChecks {
    /// Outcome for the default scaling policy.
    pub scaling: Result<(), String>,
    /// Outcomes for the per-attention-kind overrides, in the order they were resolved.
    pub parameters: Vec<Result<(), String>>,
}

impl RotaryChecks {
    /// Every override of `source` has its outcome.
    pub open spec fn cover(self, source: ModelArgsSource) -> bool {
        source.rope_parameters matches Some(overrides) ==> self.parameters.len()
            == overrides.names().len()
    }
}

/// Last of the first `end` layers with attention `kind`.
pub open spec fn last_with(attention: Seq<AttentionPolicy>, end: int, kind: AttentionPolicy) -> Option<
    int,
>
    decreases end,
{
    if end <= 0 {
        None
    } else if attention[end - 1] == kind {
        Some(end - 1)
    } else {
        last_with(attention, end - 1, kind)
    }
}

/// Geometry of every layer, as declared.
pub struct Geometry {
    /// Attention policies.
    pub attention: Seq<AttentionPolicy>,
    /// Dense MLP widths.
    pub feed_forward: Seq<i32>,
    /// Key/value head counts.
    pub kv_heads: Seq<i32>,
    /// Head widths.
    pub head_dims: Seq<i32>,
    /// First layer that consumes shared state.
    pub first_shared: int,
    /// Value topologies.
    pub values: Seq<AttentionValueSource>,
    /// Whether layers route to sparse experts.
    pub enable_moe: bool,
}

impl Geometry {
    /// The layer whose state a shared layer of attention `kind` consumes.
    pub open spec fn shared_provider(self, kind: AttentionPolicy) -> Option<int> {
        last_with(self.attention, self.first_shared, kind)
    }

    /// Fault of the shared layer `layer`.
    pub open spec fn sharing_fault(self, layer: int) -> Option<Fault> {
        match self.shared_provider(self.attention[layer]) {
            Some(publisher) => fault_if(
                self.kv_heads[publisher] != self.kv_heads[layer] || self.head_dims[publisher]
                    != self.head_dims[layer],
                "Gemma 4 shared-KV layer "@ + decimal(layer as nat)
                    + " geometry does not match publisher "@ + decimal(publisher as nat),
            ),
            None => Some(
                Fault::Invalid(
                    "Gemma 4 shared-KV layer "@ + decimal(layer as nat)
                        + " has no earlier matching attention publisher"@,
                ),
            ),
        }
    }

    /// First sharing fault of the shared layers before `end`.
    pub open spec fn first_sharing_fault(self, end: int) -> Option<Fault>
        decreases end,
    {
        if end <= self.first_shared || end <= 0 {
            None
        } else {
            first_of(self.first_sharing_fault(end - 1), self.sharing_fault(end - 1))
        }
    }

    /// Fault of the widths of layer `layer`.
    pub open spec fn width_fault(self, layer: int) -> Option<Fault> {
        let named = "Gemma 4 layer "@ + decimal(layer as nat);
        first_of(
            fault_if(self.head_dims[layer] < 2, named + " head dimension must be at least 2"@),
            first_of(
                fault_if(self.kv_heads[layer] <= 0, named + " KV heads must be positive"@),
                fault_if(
                    self.feed_forward[layer] <= 0,
                    named + " feed-forward width must be positive"@,
                ),
            ),
        )
    }

    /// First width fault of the first `end` layers.
    pub open spec fn first_width_fault(self, end: int) -> Option<Fault>
        decreases end,
    {
        if end <= 0 {
            None
        } else {
            first_of(self.first_width_fault(end - 1), self.width_fault(end - 1))
        }
    }

    /// Whether a shared layer consumes the state of layer `layer`.
    pub open spec fn is_publisher(self, layer: int) -> bool {
        &&& layer < self.first_shared
        &&& self.shared_provider(self.attention[layer]) == Some(layer)
        &&& exists|consumer: int|
            self.first_shared <= consumer < self.attention.len() && #[trigger] self.attention[consumer]
                == self.attention[layer]
    }

    /// State source of layer `layer`.
    pub open spec fn state_of(self, layer: int) -> AttentionStateSource {
        if layer >= self.first_shared {
            AttentionStateSource::Shared
        } else if self.is_publisher(layer) {
            AttentionStateSource::Publish { value: self.values[layer] }
        } else {
            AttentionStateSource::Local { value: self.values[layer] }
        }
    }

    /// Policy of layer `layer`.
    pub open spec fn policy_of(self, layer: int) -> LayerPolicy {
        LayerPolicy {
            attention: self.attention[layer],
            head_dim: self.head_dims[layer] as u32,
            num_key_value_heads: self.kv_heads[layer] as u32,
            key_value: self.state_of(layer),
            intermediate_size: self.feed_forward[layer] as u32,
            feed_forward: if self.enable_moe {
                FeedForwardPolicy::DenseWithSparseMoe
            } else {
                FeedForwardPolicy::Dense
            },
        }
    }

    /// First fault of the schedule.
    pub open spec fn fault(self) -> Option<Fault> {
        first_of(
            self.first_sharing_fault(self.attention.len() as int),
            self.first_width_fault(self.attention.len() as int),
        )
    }

    /// The layer schedule.
    pub open spec fn schedule(self) -> Seq<LayerPolicy> {
        Seq::new(self.attention.len(), |layer: int| self.policy_of(layer))
    }

    /// Every list covers every layer.
    pub open spec fn complete(self) -> bool {
        &&& self.feed_forward.len() == self.attention.len()
        &&& self.kv_heads.len() == self.attention.len()
        &&& self.head_dims.len() == self.attention.len()
        &&& self.values.len() == self.attention.len()
        &&& 0 <= self.first_shared <= self.attention.len()
    }
}

fn find_last(attention: &Vec<AttentionPolicy>, end: usize, kind: AttentionPolicy) -> (r: Option<usize>)
    requires
        end <= attention.len(),
    ensures
        match r {
            Some(at) => at < end && last_with(attention@, end as int, kind) == Some(at as int),
            None => last_with(attention@, end as int, kind) is None,
        },
{
    let mut at: usize = end;
    while at > 0
        invariant
            at <= end <= attention.len(),
            last_with(attention@, end as int, kind) == last_with(attention@, at as int, kind),
        decreases at,
    {
        if attention[at - 1] == kind {
            return Some(at - 1);
        }
        at = at - 1;
    }
    None
}

/// Whether a layer at or after `from` has attention `kind`.
fn occurs_from(attention: &Vec<AttentionPolicy>, from: usize, kind: AttentionPolicy) -> (r: bool)
    ensures
        r == exists|i: int| from <= i < attention.len() && #[trigger] attention[i] == kind,
{
    let mut at: usize = from;
    while at < attention.len()
        invariant
            from <= at,
            forall|i: int| from <= i < at && i < attention.len() ==> #[trigger] attention[i] != kind,
        decreases attention.len() - at,
    {
        if attention[at] == kind {
            return true;
        }
        at = at + 1;
    }
    false
}

fn layer_message(layer: usize, tail: &str) -> (r: String)
    ensures
        r@ == "Gemma 4 layer "@ + decimal(layer as nat) + tail@,
{
    "Gemma 4 layer ".to_owned().concat(decimal_text(layer as u64).as_str()).concat(tail)
}

/// Checks that every shared layer has a publisher of its own geometry.
fn check_sharing(
    attention: &Vec<AttentionPolicy>,
    kv_heads: &Vec<i32>,
    head_dims: &Vec<i32>,
    first_shared: usize,
    Ghost(geometry): Ghost<Geometry>,
) -> (r: Result<(), ConfigError>)
    requires
        geometry.complete(),
        geometry.attention == attention@,
        geometry.kv_heads == kv_heads@,
        geometry.head_dims == head_dims@,
        geometry.first_shared == first_shared,
    ensures
        match geometry.first_sharing_fault(attention.len() as int) {
            Some(fault) => reports(r, fault),
            None => r is Ok,
        },
{
    let layers: usize = attention.len();
    let mut layer: usize = first_shared;
    while layer < layers
        invariant
            first_shared <= layer <= layers,
            layers == attention.len(),
            geometry.complete(),
            geometry.attention == attention@,
            geometry.kv_heads == kv_heads@,
            geometry.head_dims == head_dims@,
            geometry.first_shared == first_shared,
            geometry.first_sharing_fault(layer as int) is None,
        decreases layers - layer,
    {
        match find_last(attention, first_shared, attention[layer]) {
            Some(publisher) => {
                if kv_heads[publisher] != kv_heads[layer] || head_dims[publisher]
                    != head_dims[layer] {
                    proof {
                        lemma_sharing_stable(geometry, layer as int + 1, layers as int);
                    }
                    return Err(
                        ConfigError::Invalid(
                            "Gemma 4 shared-KV layer ".to_owned().concat(
                                decimal_text(layer as u64).as_str(),
                            ).concat(" geometry does not match publisher ").concat(
                                decimal_text(publisher as u64).as_str(),
                            ),
                        ),
                    );
                }
            },
            None => {
                proof {
                    lemma_sharing_stable(geometry, layer as int + 1, layers as int);
                }
                return Err(
                    ConfigError::Invalid(
                        "Gemma 4 shared-KV layer ".to_owned().concat(
                            decimal_text(layer as u64).as_str(),
                        ).concat(" has no earlier matching attention publisher"),
                    ),
                );
            },
        }
        layer = layer + 1;
    }
    Ok(())
}

proof fn lemma_sharing_stable(geometry: Geometry, from: int, to: int)
    requires
        0 <= geometry.first_shared <= from <= to,
        geometry.first_sharing_fault(from) is Some,
    ensures
        geometry.first_sharing_fault(to) == geometry.first_sharing_fault(from),
    decreases to - from,
{
    if from < to {
        lemma_sharing_stable(geometry, from, to - 1);
    }
}

proof fn lemma_width_stable(geometry: Geometry, from: int, to: int)
    requires
        from <= to,
        geometry.first_width_fault(from) is Some,
    ensures
        geometry.first_width_fault(to) == geometry.first_width_fault(from),
    decreases to - from,
{
    if from < to {
        lemma_width_stable(geometry, from, to - 1);
    }
}

/// Builds the layer schedule from the declared geometry of every layer.
pub fn layer_schedule(
    attention: &Vec<AttentionPolicy>,
    feed_forward: &Vec<i32>,
    kv_heads: &Vec<i32>,
    head_dims: &Vec<i32>,
    first_shared: usize,
    values: &Vec<AttentionValueSource>,
    enable_moe: bool,
) -> (r: Result<Vec<LayerPolicy>, ConfigError>)
    requires
        (Geometry {
            attention: attention@,
            feed_forward: feed_forward@,
            kv_heads: kv_heads@,
            head_dims: head_dims@,
            first_shared: first_shared as int,
            values: values@,
            enable_moe,
        }).complete(),
    ensures
        ({
            let geometry = Geometry {
                attention: attention@,
                feed_forward: feed_forward@,
                kv_heads: kv_heads@,
                head_dims: head_dims@,
                first_shared: first_shared as int,
                values: values@,
                enable_moe,
            };
            match geometry.fault() {
                Some(fault) => reports(r, fault),
                None => r matches Ok(policies) && policies@ == geometry.schedule(),
            }
        }),
{
    let ghost geometry = Geometry {
        attention: attention@,
        feed_forward: feed_forward@,
        kv_heads: kv_heads@,
        head_dims: head_dims@,
        first_shared: first_shared as int,
        values: values@,
        enable_moe,
    };
    let layers: usize = attention.len();
    if let Err(error) = check_sharing(
        attention,
        kv_heads,
        head_dims,
        first_shared,
        Ghost(geometry),
    ) {
        return Err(error);
    }
    let mut policies: Vec<LayerPolicy> = Vec::new();
    let mut layer: usize = 0;
    while layer < layers
        invariant
            layer <= layers,
            layers == attention.len(),
            geometry.complete(),
            geometry == (Geometry {
                attention: attention@,
                feed_forward: feed_forward@,
                kv_heads: kv_heads@,
                head_dims: head_dims@,
                first_shared: first_shared as int,
                values: values@,
                enable_moe,
            }),
            geometry.first_sharing_fault(layers as int) is None,
            geometry.first_width_fault(layer as int) is None,
            policies@ == geometry.schedule().take(layer as int),
        decreases layers - layer,
    {
        let message: Option<&str> = if head_dims[layer] < 2 {
            Some(" head dimension must be at least 2")
        } else if kv_heads[layer] <= 0 {
            Some(" KV heads must be positive")
        } else if feed_forward[layer] <= 0 {
            Some(" feed-forward width must be positive")
        } else {
            None
        };
        if let Some(tail) = message {
            proof {
                lemma_width_stable(geometry, layer as int + 1, layers as int);
            }
            return Err(ConfigError::Invalid(layer_message(layer, tail)));
        }
        let kind = attention[layer];
        let key_value: AttentionStateSource = if layer >= first_shared {
            AttentionStateSource::Shared
        } else {
            let last: bool = match find_last(attention, first_shared, kind) {
                Some(at) => at == layer,
                None => false,
            };
            if last && occurs_from(attention, first_shared, kind) {
                AttentionStateSource::Publish { value: values[layer] }
            } else {
                AttentionStateSource::Local { value: values[layer] }
            }
        };
        assert(key_value == geometry.state_of(layer as int));
        policies.push(
            LayerPolicy {
                attention: kind,
                head_dim: head_dims[layer] as u32,
                num_key_value_heads: kv_heads[layer] as u32,
                key_value,
                intermediate_size: feed_forward[layer] as u32,
                feed_forward: if enable_moe {
                    FeedForwardPolicy::DenseWithSparseMoe
                } else {
                    FeedForwardPolicy::Dense
                },
            },
        );
        assert(policies@ =~= geometry.schedule().take(layer as int + 1));
        layer = layer + 1;
    }
    assert(geometry.schedule().take(layers as int) =~= geometry.schedule());
    Ok(policies)
}

impl ModelArgsSource {
    /// Whether the declared identity is a Gemma 4 text decoder.
    pub open spec fn supported(self) -> bool {
        ||| self.model_type@ == "gemma4"@
        ||| self.model_type@ == "gemma4_text"@
        ||| self.model_type@ == "gemma4_unified"@
        ||| self.model_type@ == "gemma4_unified_text"@
    }

    /// Model identity: that of a text decoder is the identity of its family.
    pub open spec fn identity(self) -> Seq<char> {
        identity_of(self.model_type@)
    }

    /// Fault of a scalar dimension that must be positive.
    pub open spec fn dimension_fault(self) -> Option<Fault> {
        first_of(
            positive_fault("hidden_size"@, self.hidden_size),
            first_of(
                positive_fault("intermediate_size"@, self.intermediate_size),
                first_of(
                    positive_fault("num_attention_heads"@, self.num_attention_heads),
                    first_of(
                        positive_fault("num_key_value_heads"@, self.num_key_value_heads),
                        first_of(
                            positive_fault("head_dim"@, self.head_dim),
                            first_of(
                                positive_fault("vocab_size"@, self.vocab_size),
                                positive_fault(
                                    "max_position_embeddings"@,
                                    self.max_position_embeddings,
                                ),
                            ),
                        ),
                    ),
                ),
            ),
        )
    }

    /// Whether epsilon, rotary base, and logit cap are finite and positive.
    pub open spec fn scalars_valid(self) -> bool {
        &&& self.rms_norm_eps.finite_positive()
        &&& self.rope_theta.finite_positive()
        &&& self.final_logit_softcapping matches Some(cap) ==> cap.finite_positive()
    }

    /// Fault of the declared attention kinds and window over `layers` layers.
    pub open spec fn attention_fault(self, layers: int) -> Option<Fault> {
        first_of(
            fault_if(
                self.layer_types.len() != 0 && self.layer_types.len() != layers,
                "Gemma 4 layer_types has "@ + decimal(self.layer_types.len() as nat)
                    + " entries for "@ + decimal(layers as nat) + " layers"@,
            ),
            first_of(
                window_fault(self.sliding_window),
                fault_if(
                    self.sliding_window is None && exists|i: int|
                        0 <= i < self.layer_types.len() && #[trigger] self.layer_types[i]
                            is SlidingAttention,
                    "Gemma 4 sliding layer requires sliding_window"@,
                ),
            ),
        )
    }

    /// Attention policy of layer `layer`.
    pub open spec fn attention_of(self, layer: int) -> AttentionPolicy {
        if self.layer_types.len() == 0 || self.layer_types[layer] is FullAttention {
            AttentionPolicy::Full
        } else {
            AttentionPolicy::Sliding { window: self.sliding_window->0 as u32 }
        }
    }

    /// Attention policies of `layers` layers.
    pub open spec fn attention(self, layers: nat) -> Seq<AttentionPolicy> {
        Seq::new(layers, |layer: int| self.attention_of(layer))
    }

    /// First layer that consumes shared state.
    pub open spec fn first_shared(self) -> int {
        self.num_hidden_layers - self.num_kv_shared_layers
    }

    /// Dense MLP width of every layer.
    pub open spec fn widths(self) -> Seq<i32> {
        match self.feed_forward_lengths {
            Some(lengths) => lengths@,
            None => Seq::new(
                self.num_hidden_layers as nat,
                |layer: int|
                    if self.use_double_wide_mlp && layer >= self.first_shared() {
                        doubled(self.intermediate_size)
                    } else {
                        self.intermediate_size
                    },
            ),
        }
    }

    /// Declared geometry of every layer.
    pub open spec fn geometry(self) -> Geometry {
        let attention = self.attention(self.num_hidden_layers as nat);
        Geometry {
            attention,
            feed_forward: self.widths(),
            kv_heads: Seq::new(
                attention.len(),
                |layer: int|
                    if attention[layer] is Full && self.num_global_key_value_heads is Some {
                        self.num_global_key_value_heads->0
                    } else {
                        self.num_key_value_heads
                    },
            ),
            head_dims: Seq::new(
                attention.len(),
                |layer: int|
                    if attention[layer] is Full && self.global_head_dim is Some {
                        self.global_head_dim->0
                    } else {
                        self.head_dim
                    },
            ),
            first_shared: self.first_shared(),
            values: Seq::new(
                attention.len(),
                |layer: int|
                    if self.attention_k_eq_v && attention[layer] is Full {
                        AttentionValueSource::ReuseKey
                    } else {
                        AttentionValueSource::Projected
                    },
            ),
            enable_moe: self.enable_moe_block,
        }
    }

    /// Fault of the sparse expert declaration.
    pub open spec fn expert_fault(self) -> Option<Fault> {
        if self.enable_moe_block {
            fault_if(
                !(self.num_experts matches Some(experts) && self.top_k_experts matches Some(top_k)
                    && self.moe_intermediate_size matches Some(width) && 0 < top_k <= experts
                    && width > 0),
                "Gemma 4 MoE requires positive expert count/width and top_k <= experts"@,
            )
        } else {
            fault_if(
                self.num_experts is Some || self.top_k_experts is Some
                    || self.moe_intermediate_size is Some,
                "Gemma 4 dense config cannot declare sparse expert geometry"@,
            )
        }
    }

    /// Fault of resolving the declared rotary algorithms.
    pub open spec fn rotary_fault(self, checks: RotaryChecks) -> Option<Fault> {
        first_of(
            check_fault(checks.scaling),
            if self.rope_parameters is Some {
                first_check_fault(checks.parameters@, checks.parameters.len() as int)
            } else {
                None
            },
        )
    }

    /// First fault found by normalization, in the order the checks are made.
    pub open spec fn fault(self, checks: RotaryChecks) -> Option<Fault> {
        let layers = self.num_hidden_layers as int;
        first_of(
            fault_if(
                !self.supported(),
                "unsupported Gemma 4 model_type "@ + debug_quoted(self.model_type@),
            ),
            first_of(
                fault_if(layers <= 0, "Gemma 4 num_hidden_layers must be positive"@),
                first_of(
                    self.dimension_fault(),
                    first_of(
                        fault_if(
                            !self.scalars_valid(),
                            "Gemma 4 epsilon, rotary base, and logit cap must be finite and positive"@,
                        ),
                        first_of(self.attention_fault(layers), self.layout_fault(checks)),
                    ),
                ),
            ),
        )
    }

    /// First fault found after the attention kinds are settled.
    pub open spec fn layout_fault(self, checks: RotaryChecks) -> Option<Fault> {
        let layers = self.num_hidden_layers as int;
        first_of(
            fault_if(
                self.num_kv_shared_layers < 0,
                "Gemma 4 shared-KV layer count must be non-negative"@,
            ),
            first_of(
                fault_if(
                    self.num_kv_shared_layers > layers,
                    "Gemma 4 shared-KV layer count exceeds decoder depth"@,
                ),
                first_of(
                    fault_if(
                        self.widths().len() != layers,
                        "Gemma 4 feed-forward widths has "@ + decimal(self.widths().len())
                            + " entries for "@ + decimal(layers as nat) + " layers"@,
                    ),
                    first_of(
                        fault_if(
                            self.use_double_wide_mlp && self.intermediate_size * 2 > i32::MAX
                                && self.num_kv_shared_layers > 0,
                            "Gemma 4 doubled MLP width exceeds i32"@,
                        ),
                        first_of(
                            self.geometry().fault(),
                            first_of(self.expert_fault(), self.rotary_fault(checks)),
                        ),
                    ),
                ),
            ),
        )
    }
}

/// Identity that a declared model type stands for.
pub open spec fn identity_of(model_type: Seq<char>) -> Seq<char> {
    if model_type == "gemma4_text"@ {
        "gemma4"@
    } else if model_type == "gemma4_unified_text"@ {
        "gemma4_unified"@
    } else {
        model_type
    }
}

/// Fault of a sliding window. In which words an empty window is refused is left open.
pub open spec fn window_fault(window: Option<i64>) -> Option<Fault> {
    if window == Some(0i64) {
        Some(Fault::Refused)
    } else {
        fault_if(
            window matches Some(window) && !(0 < window <= i32::MAX),
            "Gemma 4 sliding_window must be positive and fit i32"@,
        )
    }
}

/// Fault of a dimension that must be positive.
pub open spec fn positive_fault(name: Seq<char>, value: i32) -> Option<Fault> {
    fault_if(value <= 0, "Gemma 4 "@ + name + " must be positive"@)
}

/// Twice `width`, or the largest `i32` where that is exceeded.
pub open spec fn doubled(width: i32) -> i32 {
    if width * 2 > i32::MAX {
        i32::MAX
    } else {
        (width * 2) as i32
    }
}

/// Fault reported by one rotary check.
pub open spec fn check_fault(check: Result<(), String>) -> Option<Fault> {
    match check {
        Ok(()) => None,
        Err(message) => Some(Fault::Invalid(message@)),
    }
}

/// First fault among the first `end` rotary checks.
pub open spec fn first_check_fault(checks: Seq<Result<(), String>>, end: int) -> Option<Fault>
    decreases end,
{
    if end <= 0 {
        None
    } else {
        first_of(first_check_fault(checks, end - 1), check_fault(checks[end - 1]))
    }
}

/// Whether `args` holds what `source` declares, under the schedule of its geometry.
pub open spec fn normalized(args: ModelArgs, source: ModelArgsSource) -> bool {
    &&& args.model_type@ == source.identity()
    &&& args.hidden_size == source.hidden_size
    &&& args.num_attention_heads == source.num_attention_heads
    &&& args.rms_norm_eps == source.rms_norm_eps
    &&& args.vocab_size == source.vocab_size
    &&& args.pad_token_id == source.pad_token_id
    &&& args.max_position_embeddings == source.max_position_embeddings
    &&& args.rope_theta == source.rope_theta
    &&& args.tie_word_embeddings == source.tie_word_embeddings
    &&& args.attention_bias == source.attention_bias
    &&& args.hidden_size_per_layer_input == source.hidden_size_per_layer_input
    &&& args.vocab_size_per_layer_input == source.vocab_size_per_layer_input
    &&& args.layer_schedule@ == source.geometry().schedule()
    &&& args.final_logit_softcapping == source.final_logit_softcapping
    &&& args.num_experts == source.num_experts
    &&& args.top_k_experts == source.top_k_experts
    &&& args.moe_intermediate_size == source.moe_intermediate_size
    &&& args.rope_scaling == source.rope_scaling
    &&& args.rope_parameters == source.rope_parameters
    &&& args.weight_quantization == source.weight_quantization
    &&& args.quantized_weights == source.quantized_weights
    &&& args.quantized_weight_configs == source.quantized_weight_configs
}

/// Settles the attention policy of every layer.
pub fn attention_schedule(source: &ModelArgsSource, layers: usize) -> (r: Result<
    Vec<AttentionPolicy>,
    ConfigError,
>)
    ensures
        match source.attention_fault(layers as int) {
            Some(fault) => reports(r, fault),
            None => r matches Ok(policies) && policies@ == source.attention(layers as nat),
        },
{
    let declared: usize = source.layer_types.len();
    if declared != 0 && declared != layers {
        return Err(
            ConfigError::Invalid(
                "Gemma 4 layer_types has ".to_owned().concat(
                    decimal_text(declared as u64).as_str(),
                ).concat(" entries for ").concat(decimal_text(layers as u64).as_str()).concat(
                    " layers",
                ),
            ),
        );
    }
    let sliding: Option<AttentionPolicy> = match source.sliding_window {
        Some(window) => {
            if window <= 0 || window > i32::MAX as i64 {
                return Err(invalid("Gemma 4 sliding_window must be positive and fit i32"));
            }
            Some(AttentionPolicy::Sliding { window: window as u32 })
        },
        None => None,
    };
    let mut policies: Vec<AttentionPolicy> = Vec::new();
    let mut layer: usize = 0;
    while layer < layers
        invariant
            layer <= layers,
            declared == source.layer_types.len(),
            declared == 0 || declared == layers,
            match source.sliding_window {
                Some(window) => 0 < window <= i32::MAX && sliding == Some(
                    AttentionPolicy::Sliding { window: window as u32 },
                ),
                None => sliding is None,
            },
            sliding is None ==> forall|i: int|
                0 <= i < layer && i < source.layer_types.len()
                    ==> !(#[trigger] source.layer_types[i] is SlidingAttention),
            policies@ == source.attention(layers as nat).take(layer as int),
        decreases layers - layer,
    {
        let kind: AttentionKind = if declared == 0 {
            AttentionKind::FullAttention
        } else {
            source.layer_types[layer]
        };
        let policy: AttentionPolicy = match kind {
            AttentionKind::FullAttention => AttentionPolicy::Full,
            AttentionKind::SlidingAttention => match sliding {
                Some(policy) => policy,
                None => {
                    return Err(invalid("Gemma 4 sliding layer requires sliding_window"));
                },
            },
        };
        policies.push(policy);
        assert(policies@ =~= source.attention(layers as nat).take(layer as int + 1));
        layer = layer + 1;
    }
    assert(source.attention(layers as nat).take(layers as int) =~= source.attention(layers as nat));
    Ok(policies)
}

/// Checks the sparse expert declaration.
pub fn validate_moe(source: &ModelArgsSource) -> (r: Result<(), ConfigError>)
    ensures
        match source.expert_fault() {
            Some(fault) => reports(r, fault),
            None => r is Ok,
        },
{
    if source.enable_moe_block {
        let experts: i32 = source.num_experts.unwrap_or(0);
        let top_k: i32 = source.top_k_experts.unwrap_or(0);
        let intermediate: i32 = source.moe_intermediate_size.unwrap_or(0);
        if experts <= 0 || top_k <= 0 || top_k > experts || intermediate <= 0 {
            return Err(
                invalid("Gemma 4 MoE requires positive expert count/width and top_k <= experts"),
            );
        }
    } else if source.num_experts.is_some() || source.top_k_experts.is_some()
        || source.moe_intermediate_size.is_some() {
        return Err(invalid("Gemma 4 dense config cannot declare sparse expert geometry"));
    }
    Ok(())
}

fn require_positive(name: &str, value: i32) -> (r: Result<(), ConfigError>)
    ensures
        match positive_fault(name@, value) {
            Some(fault) => reports(r, fault),
            None => r is Ok,
        },
{
    if value <= 0 {
        Err(ConfigError::Invalid("Gemma 4 ".to_owned().concat(name).concat(" must be positive")))
    } else {
        Ok(())
    }
}

fn check_dimensions(source: &ModelArgsSource) -> (r: Result<(), ConfigError>)
    ensures
        match source.dimension_fault() {
            Some(fault) => reports(r, fault),
            None => r is Ok,
        },
{
    require_positive("hidden_size", source.hidden_size)?;
    require_positive("intermediate_size", source.intermediate_size)?;
    require_positive("num_attention_heads", source.num_attention_heads)?;
    require_positive("num_key_value_heads", source.num_key_value_heads)?;
    require_positive("head_dim", source.head_dim)?;
    require_positive("vocab_size", source.vocab_size)?;
    require_positive("max_position_embeddings", source.max_position_embeddings)
}

fn check_rotary(source: &ModelArgsSource, checks: &RotaryChecks) -> (r: Result<(), ConfigError>)
    ensures
        match source.rotary_fault(*checks) {
            Some(fault) => reports(r, fault),
            None => r is Ok,
        },
{
    if let Err(message) = &checks.scaling {
        return Err(ConfigError::Invalid(message.clone()));
    }
    if source.rope_parameters.is_some() {
        let mut at: usize = 0;
        while at < checks.parameters.len()
            invariant
                at <= checks.parameters.len(),
                checks.scaling is Ok,
                source.rope_parameters is Some,
                first_check_fault(checks.parameters@, at as int) is None,
            decreases checks.parameters.len() - at,
        {
            if let Err(message) = &checks.parameters[at] {
                proof {
                    lemma_check_stable(
                        checks.parameters@,
                        at as int + 1,
                        checks.parameters.len() as int,
                    );
                }
                return Err(ConfigError::Invalid(message.clone()));
            }
            at = at + 1;
        }
    }
    Ok(())
}

proof fn lemma_check_stable(checks: Seq<Result<(), String>>, from: int, to: int)
    requires
        from <= to,
        first_check_fault(checks, from) is Some,
    ensures
        first_check_fault(checks, to) == first_check_fault(checks, from),
    decreases to - from,
{
    if from < to {
        lemma_check_stable(checks, from, to - 1);
    }
}

/// Dense MLP width of every layer.
fn layer_widths(source: &ModelArgsSource, layers: usize, first_shared: usize) -> (r: Vec<i32>)
    requires
        layers == source.num_hidden_layers,
        first_shared == source.first_shared(),
        source.intermediate_size > 0,
    ensures
        r@ == source.widths(),
{
    if let Some(lengths) = &source.feed_forward_lengths {
        return lengths.clone();
    }
    let mut widths: Vec<i32> = Vec::new();
    let mut layer: usize = 0;
    while layer < layers
        invariant
            layer <= layers,
            layers == source.num_hidden_layers,
            first_shared == source.first_shared(),
            source.intermediate_size > 0,
            source.feed_forward_lengths is None,
            widths@ == source.widths().take(layer as int),
        decreases layers - layer,
    {
        let width: i32 = if source.use_double_wide_mlp && layer >= first_shared {
            match source.intermediate_size.checked_mul(2) {
                Some(width) => width,
                None => i32::MAX,
            }
        } else {
            source.intermediate_size
        };
        widths.push(width);
        assert(widths@ =~= source.widths().take(layer as int + 1));
        layer = layer + 1;
    }
    assert(source.widths().take(layers as int) =~= source.widths());
    widths
}

/// Key/value heads, head widths, and value topologies of every layer.
fn layer_geometry(source: &ModelArgsSource, attention: &Vec<AttentionPolicy>) -> (r: (
    Vec<i32>,
    Vec<i32>,
    Vec<AttentionValueSource>,
))
    requires
        source.num_hidden_layers >= 0,
        attention@ == source.attention(source.num_hidden_layers as nat),
    ensures
        r.0@ == source.geometry().kv_heads,
        r.1@ == source.geometry().head_dims,
        r.2@ == source.geometry().values,
{
    let mut kv_heads: Vec<i32> = Vec::new();
    let mut head_dims: Vec<i32> = Vec::new();
    let mut values: Vec<AttentionValueSource> = Vec::new();
    let mut layer: usize = 0;
    while layer < attention.len()
        invariant
            layer <= attention.len(),
            source.num_hidden_layers >= 0,
            attention@ == source.attention(source.num_hidden_layers as nat),
            kv_heads@ == source.geometry().kv_heads.take(layer as int),
            head_dims@ == source.geometry().head_dims.take(layer as int),
            values@ == source.geometry().values.take(layer as int),
        decreases attention.len() - layer,
    {
        let full: bool = match attention[layer] {
            AttentionPolicy::Full => true,
            AttentionPolicy::Sliding { .. } => false,
        };
        kv_heads.push(
            if full {
                source.num_global_key_value_heads.unwrap_or(source.num_key_value_heads)
            } else {
                source.num_key_value_heads
            },
        );
        head_dims.push(
            if full {
                source.global_head_dim.unwrap_or(source.head_dim)
            } else {
                source.head_dim
            },
        );
        values.push(
            if source.attention_k_eq_v && full {
                AttentionValueSource::ReuseKey
            } else {
                AttentionValueSource::Projected
            },
        );
        assert(kv_heads@ =~= source.geometry().kv_heads.take(layer as int + 1));
        assert(head_dims@ =~= source.geometry().head_dims.take(layer as int + 1));
        assert(values@ =~= source.geometry().values.take(layer as int + 1));
        layer = layer + 1;
    }
    assert(kv_heads@ =~= source.geometry().kv_heads);
    assert(head_dims@ =~= source.geometry().head_dims);
    assert(values@ =~= source.geometry().values);
    (kv_heads, head_dims, values)
}

/// Settles the layer schedule once the attention kinds are valid.
fn settle_layout(
    source: &ModelArgsSource,
    checks: &RotaryChecks,
    layers: usize,
    attention: Vec<AttentionPolicy>,
) -> (r: Result<Vec<LayerPolicy>, ConfigError>)
    requires
        layers == source.num_hidden_layers,
        layers > 0,
        source.intermediate_size > 0,
        attention@ == source.attention(layers as nat),
    ensures
        match source.layout_fault(*checks) {
            Some(fault) => reports(r, fault),
            None => r matches Ok(policies) && policies@ == source.geometry().schedule(),
        },
{
    if source.num_kv_shared_layers < 0 {
        return Err(invalid("Gemma 4 shared-KV layer count must be non-negative"));
    }
    if source.num_kv_shared_layers > source.num_hidden_layers {
        return Err(invalid("Gemma 4 shared-KV layer count exceeds decoder depth"));
    }
    let first_shared: usize = (source.num_hidden_layers - source.num_kv_shared_layers) as usize;
    let widths = layer_widths(source, layers, first_shared);
    if widths.len() != layers {
        return Err(
            ConfigError::Invalid(
                "Gemma 4 feed-forward widths has ".to_owned().concat(
                    decimal_text(widths.len() as u64).as_str(),
                ).concat(" entries for ").concat(decimal_text(layers as u64).as_str()).concat(
                    " layers",
                ),
            ),
        );
    }
    if source.use_double_wide_mlp && source.intermediate_size.checked_mul(2).is_none()
        && first_shared < layers {
        return Err(invalid("Gemma 4 doubled MLP width exceeds i32"));
    }
    let (kv_heads, head_dims, values) = layer_geometry(source, &attention);
    let policies = layer_schedule(
        &attention,
        &widths,
        &kv_heads,
        &head_dims,
        first_shared,
        &values,
        source.enable_moe_block,
    )?;
    validate_moe(source)?;
    check_rotary(source, checks)?;
    Ok(policies)
}

fn settle_identity(model_type: &str) -> (r: String)
    ensures
        r@ == identity_of(model_type@),
{
    if same_text(model_type, "gemma4_text") {
        "gemma4".to_owned()
    } else if same_text(model_type, "gemma4_unified_text") {
        "gemma4_unified".to_owned()
    } else {
        model_type.to_owned()
    }
}

/// Validates a decoded text configuration and settles its layer schedule. `checks` are the
/// outcomes of resolving the rotary algorithms it names.
pub fn normalize(source: ModelArgsSource, checks: &RotaryChecks) -> (r: Result<
    ModelArgs,
    ConfigError,
>)
    requires
        checks.cover(source),
    ensures
        match source.fault(*checks) {
            Some(fault) => reports(r, fault),
            None => r matches Ok(args) && normalized(args, source),
        },
{
    let model_type: &str = source.model_type.as_str();
    let identity: String = settle_identity(model_type);
    if !(same_text(model_type, "gemma4") || same_text(model_type, "gemma4_text") || same_text(
        model_type,
        "gemma4_unified",
    ) || same_text(model_type, "gemma4_unified_text")) {
        return Err(
            ConfigError::Invalid(
                "unsupported Gemma 4 model_type ".to_owned().concat(
                    debug_text(model_type).as_str(),
                ),
            ),
        );
    }
    if source.num_hidden_layers <= 0 {
        return Err(invalid("Gemma 4 num_hidden_layers must be positive"));
    }
    let layers: usize = source.num_hidden_layers as usize;
    check_dimensions(&source)?;
    let cap_valid: bool = match source.final_logit_softcapping {
        Some(cap) => cap.is_finite_positive(),
        None => true,
    };
    if !source.rms_norm_eps.is_finite_positive() || !source.rope_theta.is_finite_positive()
        || !cap_valid {
        return Err(
            invalid("Gemma 4 epsilon, rotary base, and logit cap must be finite and positive"),
        );
    }
    let attention = attention_schedule(&source, layers)?;
    let layer_schedule = settle_layout(&source, checks, layers, attention)?;
    Ok(
        ModelArgs {
            model_type: identity,
            hidden_size: source.hidden_size,
            num_attention_heads: source.num_attention_heads,
            rms_norm_eps: source.rms_norm_eps,
            vocab_size: source.vocab_size,
            pad_token_id: source.pad_token_id,
            max_position_embeddings: source.max_position_embeddings,
            rope_theta: source.rope_theta,
            tie_word_embeddings: source.tie_word_embeddings,
            attention_bias: source.attention_bias,
            hidden_size_per_layer_input: source.hidden_size_per_layer_input,
            vocab_size_per_layer_input: source.vocab_size_per_layer_input,
            layer_schedule,
            final_logit_softcapping: source.final_logit_softcapping,
            num_experts: source.num_experts,
            top_k_experts: source.top_k_experts,
            moe_intermediate_size: source.moe_intermediate_size,
            rope_scaling: source.rope_scaling,
            rope_parameters: source.rope_parameters,
            weight_quantization: source.weight_quantization,
            quantized_weights: source.quantized_weights,
            quantized_weight_configs: source.quantized_weight_configs,
        },
    )
}

impl ModelArgs {
    /// Validates a decoded Hugging Face text configuration document. `checks` are the outcomes of
    /// resolving the rotary algorithms it names.
    pub fn from_hf_json(document: Decoded<ModelArgsSource>, checks: &RotaryChecks) -> (r: Result<
        ModelArgs,
        ConfigError,
    >)
        requires
            document matches Ok(source) ==> checks.cover(source),
        ensures
            match document {
                Err(error) => reports(r, Fault::Json(error)),
                Ok(source) => match source.fault(*checks) {
                    Some(fault) => reports(r, fault),
                    None => r matches Ok(args) && normalized(args, source),
                },
            },
    {
        match document {
            Ok(source) => normalize(source, checks),
            Err(error) => Err(ConfigError::Json(error)),
        }
    }
}

} // verus!
