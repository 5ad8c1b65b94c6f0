//! What a normalized configuration is to its declaration.

use crate::config::{ModelArgs, RopeValue};
use crate::float::Float32;
use crate::gguf_config::{
    Declared, any_bias, any_experts, differing, first_selected, full_owner, has_bias, has_experts,
    optional_i32, reuses_key,
};
use crate::metadata::MetadataValue;
use crate::normalize::{
    Geometry, ModelArgsSource, RotaryChecks, first_check_fault, last_with, normalized,
};
use crate::schedule::{AttentionPolicy, AttentionStateSource, AttentionValueSource};
use crate::schedule_laws::{law_normalized_schedule, lemma_last_with, lemma_width};
use crate::text::decimal;
use vstd::prelude::*;

verus! {

/// Whether layer `layer` attends over the whole prefix.
pub open spec fn declared_full(source: ModelArgsSource, layer: int) -> bool {
    source.layer_types.len() == 0 || source.layer_types[layer] is FullAttention
}

/// Each layer of a normalized schedule has the attention, widths, head counts, and feed-forward
/// topology that its declaration gives it: the global head settings belong to full-attention
/// layers, the window to sliding ones, and experts to every layer or to none.
pub proof fn law_layers_hold_their_declaration(
    args: ModelArgs,
    source: ModelArgsSource,
    checks: RotaryChecks,
    layer: int,
)
    requires
        source.fault(checks) is None,
        normalized(args, source),
        0 <= layer < source.num_hidden_layers,
    ensures
        args.layer_schedule.len() == source.num_hidden_layers,
        ({
            let policy = args.layer_schedule[layer];
            let full = declared_full(source, layer);
            &&& (policy.feed_forward is DenseWithSparseMoe) == source.enable_moe_block
            &&& (policy.attention is Full) == full
            &&& policy.attention matches AttentionPolicy::Sliding { window }
                ==> source.sliding_window == Some(window as i64)
            &&& policy.head_dim == (if full && source.global_head_dim is Some {
                source.global_head_dim->0
            } else {
                source.head_dim
            })
            &&& policy.num_key_value_heads == (if full
                && source.num_global_key_value_heads is Some {
                source.num_global_key_value_heads->0
            } else {
                source.num_key_value_heads
            })
            &&& policy.intermediate_size == (match source.feed_forward_lengths {
                Some(lengths) => lengths[layer] as int,
                None => if source.use_double_wide_mlp && layer + source.num_kv_shared_layers
                    >= source.num_hidden_layers {
                    2 * source.intermediate_size
                } else {
                    source.intermediate_size as int
                },
            })
        }),
{
    law_normalized_schedule(source, checks);
    let geometry = source.geometry();
    assert(args.layer_schedule@[layer] == geometry.schedule()[layer]);
    assert(geometry.schedule()[layer] == geometry.policy_of(layer));
    lemma_width(geometry, geometry.attention.len() as int, layer);
    assert(geometry.head_dims[layer] >= 2);
    assert(geometry.kv_heads[layer] > 0);
    assert(geometry.feed_forward[layer] > 0);
    if !declared_full(source, layer) {
        let window = source.sliding_window->0;
        assert(0 < window <= i32::MAX);
        assert(window as u32 == window);
    }
}

/// The last layers, as many as are declared, consume shared state. An earlier layer owns its
/// state, and publishes it exactly where it is the last owner of its attention policy before
/// them and one of them has that policy. Owned values reuse the keys exactly in full-attention
/// layers of a configuration that says so.
pub proof fn law_state_follows_the_declaration(
    args: ModelArgs,
    source: ModelArgsSource,
    checks: RotaryChecks,
    layer: int,
)
    requires
        source.fault(checks) is None,
        normalized(args, source),
        0 <= layer < source.num_hidden_layers,
    ensures
        ({
            let policy = args.layer_schedule[layer];
            let owners = source.num_hidden_layers - source.num_kv_shared_layers;
            let reuses = source.attention_k_eq_v && declared_full(source, layer);
            let value = if reuses {
                AttentionValueSource::ReuseKey
            } else {
                AttentionValueSource::Projected
            };
            let last = forall|other: int|
                layer < other < owners ==> (
                #[trigger] args.layer_schedule[other]).attention != policy.attention;
            let consumed = exists|other: int|
                owners <= other < source.num_hidden_layers && (
                #[trigger] args.layer_schedule[other]).attention == policy.attention;
            policy.key_value == (if layer >= owners {
                AttentionStateSource::Shared
            } else if last && consumed {
                AttentionStateSource::Publish { value }
            } else {
                AttentionStateSource::Local { value }
            })
        }),
{
    law_normalized_schedule(source, checks);
    let geometry = source.geometry();
    let owners = source.num_hidden_layers - source.num_kv_shared_layers;
    assert forall|other: int| 0 <= other < source.num_hidden_layers implies (
    #[trigger] args.layer_schedule[other]).attention == geometry.attention[other] by {
        assert(args.layer_schedule@[other] == geometry.schedule()[other]);
        assert(geometry.schedule()[other] == geometry.policy_of(other));
    }
    assert(args.layer_schedule@[layer] == geometry.schedule()[layer]);
    assert(geometry.schedule()[layer] == geometry.policy_of(layer));
    let kind = geometry.attention[layer];
    if layer < owners {
        lemma_last_with(geometry.attention, owners, kind);
        lemma_some_with(geometry.attention, owners, kind, layer);
        let found = last_with(geometry.attention, owners, kind)->0;
        if found == layer {
            assert forall|other: int| layer < other < owners implies (
            #[trigger] args.layer_schedule[other]).attention != args.layer_schedule[layer].attention by {
                assert(geometry.attention[other] != kind);
            }
        } else {
            assert(args.layer_schedule[found].attention == args.layer_schedule[layer].attention);
        }
        if exists|other: int|
            owners <= other < source.num_hidden_layers && (
            #[trigger] args.layer_schedule[other]).attention
                == args.layer_schedule[layer].attention {
            let other = choose|other: int|
                owners <= other < source.num_hidden_layers && (
                #[trigger] args.layer_schedule[other]).attention
                    == args.layer_schedule[layer].attention;
            assert(geometry.attention[other] == kind);
        }
        if geometry.is_publisher(layer) {
            let consumer = choose|consumer: int|
                geometry.first_shared <= consumer < geometry.attention.len()
                    && #[trigger] geometry.attention[consumer] == geometry.attention[layer];
            assert(args.layer_schedule[consumer].attention
                == args.layer_schedule[layer].attention);
        }
    }
}

/// A layer with the policy is found where there is one.
proof fn lemma_some_with(
    attention: Seq<AttentionPolicy>,
    end: int,
    kind: AttentionPolicy,
    layer: int,
)
    requires
        0 <= layer < end,
        attention[layer] == kind,
    ensures
        last_with(attention, end, kind) matches Some(found) && found >= layer,
    decreases end,
{
    if attention[end - 1] != kind {
        lemma_some_with(attention, end - 1, kind, layer);
    }
}

/// What a configuration declares for the whole decoder is kept as it is.
pub proof fn law_declared_scalars_are_kept(
    args: ModelArgs,
    source: ModelArgsSource,
    checks: RotaryChecks,
)
    requires
        source.fault(checks) is None,
        normalized(args, source),
    ensures
        args.hidden_size == source.hidden_size > 0,
        args.num_attention_heads == source.num_attention_heads > 0,
        args.vocab_size == source.vocab_size > 0,
        args.max_position_embeddings == source.max_position_embeddings > 0,
        args.pad_token_id == source.pad_token_id,
        args.rms_norm_eps == source.rms_norm_eps,
        args.rope_theta == source.rope_theta,
        args.tie_word_embeddings == source.tie_word_embeddings,
        args.attention_bias == source.attention_bias,
        args.hidden_size_per_layer_input == source.hidden_size_per_layer_input,
        args.vocab_size_per_layer_input == source.vocab_size_per_layer_input,
        args.final_logit_softcapping == source.final_logit_softcapping,
        args.num_experts == source.num_experts,
        args.top_k_experts == source.top_k_experts,
        args.moe_intermediate_size == source.moe_intermediate_size,
        args.rope_scaling == source.rope_scaling,
        args.rope_parameters == source.rope_parameters,
        args.weight_quantization == source.weight_quantization,
        args.quantized_weights == source.quantized_weights,
        args.quantized_weight_configs == source.quantized_weight_configs,
        source.model_type@ == "gemma4"@ || source.model_type@ == "gemma4_text"@
            ==> args.model_type@ == "gemma4"@,
        source.model_type@ == "gemma4_unified"@ || source.model_type@ == "gemma4_unified_text"@
            ==> args.model_type@ == "gemma4_unified"@,
{
    reveal_strlit("gemma4");
    reveal_strlit("gemma4_text");
    reveal_strlit("gemma4_unified");
    reveal_strlit("gemma4_unified_text");
    assert("gemma4"@.len() == 6);
    assert("gemma4_text"@.len() == 11);
    assert("gemma4_unified"@.len() == 14);
    assert("gemma4_unified_text"@.len() == 19);
}

/// Whether a float is finite and positive: neither zero nor negative, infinite, or not a number.
pub open spec fn positive_bits(value: Float32) -> bool {
    0 < value.bits < 0x7f80_0000
}

/// Whether the layers that a configuration declares can be scheduled: each has a width, key/value
/// heads, and at least one rotary pair, and each layer without a state of its own follows an
/// owner of its attention kind.
pub open spec fn schedulable(source: ModelArgsSource) -> bool {
    let layers = source.num_hidden_layers as int;
    let owners = layers - source.num_kv_shared_layers;
    &&& forall|layer: int| #![trigger declared_full(source, layer)]
        0 <= layer < layers ==> {
            let full = declared_full(source, layer);
            &&& (if full && source.global_head_dim is Some {
                source.global_head_dim->0
            } else {
                source.head_dim
            }) >= 2
            &&& (if full && source.num_global_key_value_heads is Some {
                source.num_global_key_value_heads->0
            } else {
                source.num_key_value_heads
            }) > 0
        }
    &&& source.feed_forward_lengths matches Some(lengths) ==> lengths.len() == layers && (forall|
        layer: int,
    |
        0 <= layer < layers ==> #[trigger] lengths[layer] > 0)
    &&& forall|layer: int| #![trigger declared_full(source, layer)]
        owners <= layer < layers ==> exists|owner: int|
            0 <= owner < owners && #[trigger] declared_full(source, owner) == declared_full(
                source,
                layer,
            )
}

/// A configuration is accepted exactly where its identity is known, its dimensions and numbers
/// are positive, its layer lists fit its depth, its layers can be scheduled, expert geometry is
/// complete or absent, and every rotary algorithm it names is resolved.
pub proof fn law_accepted_configurations(source: ModelArgsSource, checks: RotaryChecks)
    ensures
        source.fault(checks) is None <==> {
            &&& source.model_type@ == "gemma4"@ || source.model_type@ == "gemma4_text"@
                || source.model_type@ == "gemma4_unified"@ || source.model_type@
                == "gemma4_unified_text"@
            &&& source.num_hidden_layers > 0
            &&& source.hidden_size > 0
            &&& source.intermediate_size > 0
            &&& source.num_attention_heads > 0
            &&& source.num_key_value_heads > 0
            &&& source.head_dim > 0
            &&& source.vocab_size > 0
            &&& source.max_position_embeddings > 0
            &&& positive_bits(source.rms_norm_eps)
            &&& positive_bits(source.rope_theta)
            &&& source.final_logit_softcapping matches Some(cap) ==> positive_bits(cap)
            &&& source.layer_types.len() == 0 || source.layer_types.len()
                == source.num_hidden_layers
            &&& source.sliding_window matches Some(window) ==> 0 < window <= i32::MAX
            &&& source.sliding_window is None ==> forall|layer: int|
                0 <= layer < source.layer_types.len() ==> #[trigger] source.layer_types[layer]
                    is FullAttention
            &&& 0 <= source.num_kv_shared_layers <= source.num_hidden_layers
            &&& source.use_double_wide_mlp && source.num_kv_shared_layers > 0 ==> 2
                * source.intermediate_size <= i32::MAX
            &&& schedulable(source)
            &&& if source.enable_moe_block {
                &&& source.num_experts is Some
                &&& source.top_k_experts is Some
                &&& source.moe_intermediate_size is Some
                &&& 0 < source.top_k_experts->0 <= source.num_experts->0
                &&& source.moe_intermediate_size->0 > 0
            } else {
                &&& source.num_experts is None
                &&& source.top_k_experts is None
                &&& source.moe_intermediate_size is None
            }
            &&& checks.scaling is Ok
            &&& source.rope_parameters is Some ==> forall|i: int|
                0 <= i < checks.parameters.len() ==> #[trigger] checks.parameters[i] is Ok
        },
{
    lemma_checks(checks.parameters@, checks.parameters.len() as int);
    let layers = source.num_hidden_layers as int;
    if layers > 0 && source.intermediate_size > 0 && source.attention_fault(layers) is None && 0
        <= source.num_kv_shared_layers <= layers && source.widths().len() == layers && (
    source.use_double_wide_mlp && source.num_kv_shared_layers > 0 ==> 2 * source.intermediate_size
        <= i32::MAX) {
        lemma_schedulable(source);
    }
    lemma_attention_accepted(source, layers);
}

proof fn lemma_checks(checks: Seq<Result<(), String>>, end: int)
    requires
        0 <= end <= checks.len(),
    ensures
        first_check_fault(checks, end) is None <==> forall|i: int|
            0 <= i < end ==> #[trigger] checks[i] is Ok,
    decreases end,
{
    if end > 0 {
        lemma_checks(checks, end - 1);
    }
}

proof fn lemma_attention_accepted(source: ModelArgsSource, layers: int)
    ensures
        source.attention_fault(layers) is None <==> {
            &&& source.layer_types.len() == 0 || source.layer_types.len() == layers
            &&& source.sliding_window matches Some(window) ==> 0 < window <= i32::MAX
            &&& source.sliding_window is None ==> forall|layer: int|
                0 <= layer < source.layer_types.len() ==> #[trigger] source.layer_types[layer]
                    is FullAttention
        },
{
}

proof fn lemma_faultless_widths(geometry: Geometry, end: int)
    ensures
        geometry.first_width_fault(end) is None <==> forall|layer: int|
            0 <= layer < end ==> #[trigger] geometry.width_fault(layer) is None,
    decreases end,
{
    if end > 0 {
        lemma_faultless_widths(geometry, end - 1);
    }
}

proof fn lemma_faultless_sharing(geometry: Geometry, end: int)
    requires
        geometry.first_shared >= 0,
    ensures
        geometry.first_sharing_fault(end) is None <==> forall|layer: int|
            geometry.first_shared <= layer < end ==> #[trigger] geometry.sharing_fault(layer)
                is None,
    decreases end,
{
    if end > 0 && end > geometry.first_shared {
        lemma_faultless_sharing(geometry, end - 1);
    }
}

proof fn lemma_schedulable(source: ModelArgsSource)
    requires
        source.num_hidden_layers > 0,
        source.intermediate_size > 0,
        source.attention_fault(source.num_hidden_layers as int) is None,
        0 <= source.num_kv_shared_layers <= source.num_hidden_layers,
        source.widths().len() == source.num_hidden_layers,
        source.use_double_wide_mlp && source.num_kv_shared_layers > 0 ==> 2
            * source.intermediate_size <= i32::MAX,
    ensures
        source.geometry().fault() is None <==> schedulable(source),
{
    let geometry = source.geometry();
    let layers = source.num_hidden_layers as int;
    let owners = geometry.first_shared;
    lemma_faultless_widths(geometry, layers);
    lemma_faultless_sharing(geometry, layers);
    assert forall|layer: int| 0 <= layer < layers implies geometry.attention[layer] == (
    if declared_full(source, layer) {
        AttentionPolicy::Full
    } else {
        AttentionPolicy::Sliding { window: source.sliding_window->0 as u32 }
    }) by {}
    assert forall|layer: int| owners <= layer < layers implies (#[trigger] geometry.sharing_fault(
        layer,
    ) is None <==> exists|owner: int|
        0 <= owner < owners && #[trigger] declared_full(source, owner) == declared_full(
            source,
            layer,
        )) by {
        let kind = geometry.attention[layer];
        lemma_last_with(geometry.attention, owners, kind);
        if exists|owner: int|
            0 <= owner < owners && #[trigger] declared_full(source, owner) == declared_full(
                source,
                layer,
            ) {
            let owner = choose|owner: int|
                0 <= owner < owners && #[trigger] declared_full(source, owner) == declared_full(
                    source,
                    layer,
                );
            assert(geometry.attention[owner] == kind);
            lemma_some_with(geometry.attention, owners, kind, owner);
            let publisher = geometry.shared_provider(kind)->0;
            assert(geometry.attention[publisher] == kind);
            assert(declared_full(source, publisher) == declared_full(source, layer));
        }
        if geometry.sharing_fault(layer) is None {
            let publisher = geometry.shared_provider(kind)->0;
            assert(declared_full(source, publisher) == declared_full(source, layer));
        }
    }
    if geometry.fault() is None {
        assert forall|layer: int|
            #![trigger declared_full(source, layer)]
            0 <= layer < layers implies geometry.width_fault(layer) is None by {}
        assert forall|layer: int|
            #![trigger declared_full(source, layer)]
            owners <= layer < layers implies geometry.sharing_fault(layer) is None by {}
        if let Some(lengths) = source.feed_forward_lengths {
            assert forall|layer: int| 0 <= layer < layers implies #[trigger] lengths[layer] > 0 by {
                assert(geometry.width_fault(layer) is None);
            }
        }
        assert(schedulable(source));
    }
    if schedulable(source) {
        assert forall|layer: int| 0 <= layer < layers implies #[trigger] geometry.width_fault(
            layer,
        ) is None by {
            let full = declared_full(source, layer);
            if let Some(lengths) = source.feed_forward_lengths {
                assert(lengths[layer] > 0);
            }
        }
        assert forall|layer: int| owners <= layer < layers implies #[trigger] geometry.sharing_fault(
            layer,
        ) is None by {
            let full = declared_full(source, layer);
        }
    }
}

/// Integer stored under `key`, where there is one.
pub open spec fn stored(metadata: Map<Seq<char>, MetadataValue>, key: Seq<char>) -> Option<int> {
    if metadata.contains_key(key) && metadata[key].as_i64 is Some {
        Some(metadata[key].as_i64->0 as int)
    } else {
        None
    }
}

/// Float stored under `key`, where there is one.
pub open spec fn stored_float(metadata: Map<Seq<char>, MetadataValue>, key: Seq<char>) -> Option<
    Float32,
> {
    if metadata.contains_key(key) {
        metadata[key].as_f32
    } else {
        None
    }
}

/// Entry of layer `layer` in the list stored under `key`; one entry stands for every layer.
pub open spec fn stored_entry(
    metadata: Map<Seq<char>, MetadataValue>,
    key: Seq<char>,
    layer: int,
) -> int {
    let values = metadata[key].to_i64_vec->0@;
    if values.len() == 1 {
        values[0] as int
    } else {
        values[layer] as int
    }
}

/// Whether the stored pattern marks layer `layer` as sliding.
pub open spec fn stored_slides(metadata: Map<Seq<char>, MetadataValue>, layer: int) -> bool {
    let key = "gemma4.attention.sliding_window_pattern"@;
    metadata.contains_key(key) && match metadata[key].bool_array {
        Some(switches) => switches[layer],
        None => metadata[key].to_i64_vec->0[layer] != 0,
    }
}

/// Whether the catalog holds tensor `local` of block `layer`.
pub open spec fn stored_block(catalog: Set<Seq<char>>, layer: int, local: Seq<char>) -> bool {
    catalog.contains("blk."@ + decimal(layer as nat) + local)
}

/// Whether a decoder routes to experts: a count is stored, or a block holds an expert bank.
pub open spec fn stored_sparse(declared: Declared) -> bool {
    ||| stored(declared.metadata, "gemma4.expert_count"@) matches Some(count) && count > 0
    ||| exists|layer: int| #![trigger decimal(layer as nat)]
        0 <= layer < stored(declared.metadata, "gemma4.block_count"@)->0 && (stored_block(
            declared.catalog,
            layer,
            ".ffn_gate_up_exps.weight"@,
        ) || stored_block(declared.catalog, layer, ".ffn_gate_exps.weight"@) || stored_block(
            declared.catalog,
            layer,
            ".ffn_down_exps.weight"@,
        ))
}

pub(crate) proof fn lemma_sparse(declared: Declared)
    requires
        declared.layers() is Ok,
        optional_i32(declared.metadata, "gemma4.expert_count"@) is Ok,
    ensures
        declared.sparse() == stored_sparse(declared),
{
    let layers = declared.layers()->Ok_0 as int;
    assert(stored(declared.metadata, "gemma4.block_count"@) == Some(layers));
    if any_experts(declared.catalog, layers) {
        let layer = choose|layer: int|
            0 <= layer < layers && #[trigger] has_experts(declared.catalog, layer);
        let numeral = decimal(layer as nat);
    }
    if exists|layer: int| #![trigger decimal(layer as nat)]
        0 <= layer < layers && (stored_block(
            declared.catalog,
            layer,
            ".ffn_gate_up_exps.weight"@,
        ) || stored_block(declared.catalog, layer, ".ffn_gate_exps.weight"@) || stored_block(
            declared.catalog,
            layer,
            ".ffn_down_exps.weight"@,
        )) {
        let layer = choose|layer: int| #![trigger decimal(layer as nat)]
            0 <= layer < layers && (stored_block(
                declared.catalog,
                layer,
                ".ffn_gate_up_exps.weight"@,
            ) || stored_block(declared.catalog, layer, ".ffn_gate_exps.weight"@) || stored_block(
                declared.catalog,
                layer,
                ".ffn_down_exps.weight"@,
            ));
        assert(has_experts(declared.catalog, layer));
    }
}

/// The value of the first selected layer is that of every selected one.
proof fn lemma_uniform(selected: Seq<bool>, kind: bool, values: Seq<i32>, end: int, layer: int)
    requires
        selected.len() == values.len(),
        !differing(selected, kind, values),
        0 <= layer < end <= selected.len(),
        selected[layer] == kind,
    ensures
        first_selected(selected, kind, end) matches Some(first) && 0 <= first < end
            && selected[first] == kind && values[first] == values[layer],
    decreases end,
{
    if layer < end - 1 {
        lemma_uniform(selected, kind, values, end - 1, layer);
    } else {
        lemma_first(selected, kind, end - 1);
        if first_selected(selected, kind, end - 1) is Some {
            let first = first_selected(selected, kind, end - 1)->0;
            assert(values[first] == values[layer]);
        }
    }
}

proof fn lemma_first(selected: Seq<bool>, kind: bool, end: int)
    requires
        0 <= end <= selected.len(),
    ensures
        first_selected(selected, kind, end) matches Some(first) ==> 0 <= first < end
            && selected[first] == kind,
    decreases end,
{
    if end > 0 {
        lemma_first(selected, kind, end - 1);
    }
}

/// Each layer of a decoder read from GGUF metadata has what the metadata stores for it. Sliding
/// layers have the head width stored for them, or else the common one; full-attention layers have
/// the common one.
pub proof fn law_gguf_layers_follow_metadata(
    declared: Declared,
    args: ModelArgs,
    source: ModelArgsSource,
    checks: RotaryChecks,
    layer: int,
)
    requires
        declared.fault() is None,
        declared.declares(source),
        source.fault(checks) is None,
        normalized(args, source),
        0 <= layer < args.layer_schedule.len(),
    ensures
        ({
            let metadata = declared.metadata;
            let policy = args.layer_schedule[layer];
            let shared = match stored(metadata, "gemma4.attention.shared_kv_layers"@) {
                Some(shared) => shared,
                None => 0,
            };
            &&& stored(metadata, "gemma4.block_count"@) == Some(args.layer_schedule.len() as int)
            &&& (policy.attention is Sliding) == stored_slides(metadata, layer)
            &&& policy.attention matches AttentionPolicy::Sliding { window } ==> stored(
                metadata,
                "gemma4.attention.sliding_window"@,
            ) == Some(window as int)
            &&& Some(policy.head_dim as int) == if stored_slides(metadata, layer) && stored(
                metadata,
                "gemma4.attention.key_length_swa"@,
            ) is Some {
                stored(metadata, "gemma4.attention.key_length_swa"@)
            } else {
                stored(metadata, "gemma4.attention.key_length"@)
            }
            &&& policy.num_key_value_heads == stored_entry(
                metadata,
                "gemma4.attention.head_count_kv"@,
                layer,
            )
            &&& policy.intermediate_size == stored_entry(
                metadata,
                "gemma4.feed_forward_length"@,
                layer,
            )
            &&& (policy.feed_forward is DenseWithSparseMoe) == stored_sparse(declared)
            &&& (policy.key_value is Shared) == (layer + shared >= args.layer_schedule.len())
        }),
{
    law_layers_hold_their_declaration(args, source, checks, layer);
    law_state_follows_the_declaration(args, source, checks, layer);
    lemma_sparse(declared);
    let pattern = declared.pattern()->Ok_0;
    let layers = source.num_hidden_layers as int;
    assert(pattern.len() == layers);
    assert(pattern[layer] == stored_slides(declared.metadata, layer));
    assert((source.layer_types[layer] is SlidingAttention) == pattern[layer]);
    let heads = declared.kv_heads()->Ok_0;
    assert(heads.len() == layers);
    assert(heads[layer] == stored_entry(
        declared.metadata,
        "gemma4.attention.head_count_kv"@,
        layer,
    ));
    lemma_uniform(pattern, pattern[layer], heads, layers, layer);
    let widths = declared.feed_forward()->Ok_0;
    assert(source.feed_forward_lengths->0@[layer] == widths[layer]);
}

/// A full-attention layer that owns its state reuses its keys exactly where its block stores keys
/// and no values; a sliding one never does.
pub proof fn law_gguf_values_follow_the_catalog(
    declared: Declared,
    args: ModelArgs,
    source: ModelArgsSource,
    checks: RotaryChecks,
    layer: int,
)
    requires
        declared.fault() is None,
        declared.declares(source),
        source.fault(checks) is None,
        normalized(args, source),
        0 <= layer < args.layer_schedule.len(),
    ensures
        ({
            let reuses = !stored_slides(declared.metadata, layer) && stored_block(
                declared.catalog,
                layer,
                ".attn_k.weight"@,
            ) && !stored_block(declared.catalog, layer, ".attn_v.weight"@);
            match args.layer_schedule[layer].key_value {
                AttentionStateSource::Local { value } => (value is ReuseKey) == reuses,
                AttentionStateSource::Publish { value } => (value is ReuseKey) == reuses,
                AttentionStateSource::Shared => true,
            }
        }),
{
    law_gguf_layers_follow_metadata(declared, args, source, checks, layer);
    law_layers_hold_their_declaration(args, source, checks, layer);
    law_state_follows_the_declaration(args, source, checks, layer);
    let pattern = declared.pattern()->Ok_0;
    let owners = declared.layers()->Ok_0 - declared.shared();
    let stores = stored_block(declared.catalog, layer, ".attn_k.weight"@) && !stored_block(
        declared.catalog,
        layer,
        ".attn_v.weight"@,
    );
    assert(reuses_key(declared.catalog, layer) == stores);
    if layer < owners && !pattern[layer] {
        assert(full_owner(declared.catalog, pattern, owners, layer, stores));
    }
}

/// What holds for the whole of a decoder read from GGUF metadata is stored under its own key.
/// Output tables are tied exactly where no output tensor is stored, and attention has biases
/// exactly where a block stores one.
pub proof fn law_gguf_scalars_follow_metadata(
    declared: Declared,
    args: ModelArgs,
    source: ModelArgsSource,
    checks: RotaryChecks,
)
    requires
        declared.fault() is None,
        declared.declares(source),
        source.fault(checks) is None,
        normalized(args, source),
    ensures
        ({
            let metadata = declared.metadata;
            let catalog = declared.catalog;
            &&& args.model_type@ == "gemma4"@
            &&& args.pad_token_id == 0
            &&& stored(metadata, "gemma4.embedding_length"@) == Some(args.hidden_size as int)
            &&& stored(metadata, "gemma4.attention.head_count"@) == Some(
                args.num_attention_heads as int,
            )
            &&& stored(metadata, "gemma4.vocab_size"@) == Some(args.vocab_size as int)
            &&& args.vocab_size_per_layer_input == Some(args.vocab_size)
            &&& stored(metadata, "gemma4.context_length"@) == Some(
                args.max_position_embeddings as int,
            )
            &&& args.hidden_size_per_layer_input == (match stored(
                metadata,
                "gemma4.embedding_length_per_layer_input"@,
            ) {
                Some(width) => width,
                None => 0,
            })
            &&& stored_float(metadata, "gemma4.attention.layer_norm_rms_epsilon"@) == Some(
                args.rms_norm_eps,
            )
            &&& args.final_logit_softcapping matches Some(cap) ==> stored_float(
                metadata,
                "gemma4.final_logit_softcapping"@,
            ) == Some(cap)
            &&& stored_float(metadata, "gemma4.final_logit_softcapping"@) matches Some(cap)
                ==> positive_bits(cap) ==> args.final_logit_softcapping == Some(cap)
            &&& args.tie_word_embeddings == !catalog.contains("output.weight"@)
            &&& args.attention_bias == exists|layer: int| #![trigger decimal(layer as nat)]
                0 <= layer < args.layer_schedule.len() && (stored_block(
                    catalog,
                    layer,
                    ".attn_q.bias"@,
                ) || stored_block(catalog, layer, ".attn_k.bias"@) || stored_block(
                    catalog,
                    layer,
                    ".attn_v.bias"@,
                ) || stored_block(catalog, layer, ".attn_output.bias"@))
            &&& if stored_sparse(declared) {
                &&& stored(metadata, "gemma4.expert_count"@) == Some(args.num_experts->0 as int)
                &&& stored(metadata, "gemma4.expert_used_count"@) == Some(
                    args.top_k_experts->0 as int,
                )
                &&& stored(metadata, "gemma4.expert_feed_forward_length"@) == Some(
                    args.moe_intermediate_size->0 as int,
                )
                &&& args.num_experts is Some
                &&& args.top_k_experts is Some
                &&& args.moe_intermediate_size is Some
            } else {
                &&& args.num_experts is None
                &&& args.top_k_experts is None
                &&& args.moe_intermediate_size is None
            }
        }),
{
    law_declared_scalars_are_kept(args, source, checks);
    law_accepted_configurations(source, checks);
    lemma_sparse(declared);
    let layers = declared.layers()->Ok_0 as int;
    assert(args.layer_schedule.len() == layers) by {
        law_layers_hold_their_declaration(args, source, checks, 0);
    }
    if any_bias(declared.catalog, layers) {
        let layer = choose|layer: int|
            0 <= layer < layers && #[trigger] has_bias(declared.catalog, layer);
        let numeral = decimal(layer as nat);
    }
    if exists|layer: int| #![trigger decimal(layer as nat)]
        0 <= layer < layers && (stored_block(declared.catalog, layer, ".attn_q.bias"@)
            || stored_block(declared.catalog, layer, ".attn_k.bias"@) || stored_block(
            declared.catalog,
            layer,
            ".attn_v.bias"@,
        ) || stored_block(declared.catalog, layer, ".attn_output.bias"@)) {
        let layer = choose|layer: int| #![trigger decimal(layer as nat)]
            0 <= layer < layers && (stored_block(declared.catalog, layer, ".attn_q.bias"@)
                || stored_block(declared.catalog, layer, ".attn_k.bias"@) || stored_block(
                declared.catalog,
                layer,
                ".attn_v.bias"@,
            ) || stored_block(declared.catalog, layer, ".attn_output.bias"@));
        assert(has_bias(declared.catalog, layer));
    }
}

/// Full-attention layers of a decoder read from GGUF metadata rotate a quarter of each head at
/// the base stored for them, or one million; sliding layers rotate whole heads at theirs, or ten
/// thousand.
pub proof fn law_gguf_rotary_bases_follow_metadata(
    declared: Declared,
    args: ModelArgs,
    source: ModelArgsSource,
    checks: RotaryChecks,
    window: u32,
)
    requires
        declared.fault() is None,
        declared.declares(source),
        source.fault(checks) is None,
        normalized(args, source),
    ensures
        ({
            let metadata = declared.metadata;
            let sliding = AttentionPolicy::Sliding { window };
            let full = args.rope_overrides(AttentionPolicy::Full)->0@;
            let local = args.rope_overrides(sliding)->0@;
            &&& args.rope_theta_spec(AttentionPolicy::Full) == match stored_float(
                metadata,
                "gemma4.rope.freq_base"@,
            ) {
                Some(base) => base,
                None => Float32 { bits: 0x4974_2400 },
            }
            &&& args.rope_theta_spec(sliding) == match stored_float(
                metadata,
                "gemma4.rope.freq_base_swa"@,
            ) {
                Some(base) => base,
                None => Float32 { bits: 0x461c_4000 },
            }
            &&& full["rope_type"@] matches RopeValue::Text { text, .. } && text@ == "proportional"@
            &&& full["partial_rotary_factor"@] == RopeValue::Float(Float32 { bits: 0x3e80_0000 })
            &&& local["rope_type"@] matches RopeValue::Text { text, .. } && text@ == "default"@
            &&& !local.contains_key("partial_rotary_factor"@)
        }),
{
    reveal_strlit("rope_type");
    reveal_strlit("partial_rotary_factor");
    reveal_strlit("rope_theta");
    assert("rope_type"@.len() == 9);
    assert("rope_theta"@.len() == 10);
    assert("partial_rotary_factor"@.len() == 21);
    let parameters = source.rope_parameters->0@;
    assert(parameters.dom().contains("full_attention"@));
    assert(parameters.dom().contains("sliding_attention"@));
    let full = parameters["full_attention"@]@;
    let local = parameters["sliding_attention"@]@;
    assert(full.dom().contains("rope_theta"@));
    assert(full.dom().contains("rope_type"@));
    assert(full.dom().contains("partial_rotary_factor"@));
    assert(local.dom().contains("rope_theta"@));
    assert(local.dom().contains("rope_type"@));
    assert(!local.dom().contains("partial_rotary_factor"@));
}

} // verus!
