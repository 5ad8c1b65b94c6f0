//! Decoder part of a Gemma 4 SafeTensors catalog.

use crate::config::ModelArgs;
use crate::errors::{Fault, fault_if, first_of, says};
use crate::geometry::{checked_mul, dimension, dimension_fault, product_fault};
use crate::gguf_plan::{
    combined_width, key_value_width, per_layer_fault, per_layer_vocabulary, projection_fault,
    query_width,
};
use crate::safetensors::{aliased_tensor, safe_alias};
use crate::safetensors_draft::{
    Draft, DraftGroup, Group, SafetensorsDraft, add_text_matrix, shape1, shape2, shape3,
    text_request,
};
use crate::schedule::{AttentionValueSource, FeedForwardPolicy, LayerPolicy};
use crate::text::{decimal, decimal_text};
use vstd::prelude::*;

verus! {

/// Root of the released decoder layers.
pub open spec fn released_layer(layer: int) -> Seq<char> {
    "model.language_model.layers."@ + decimal(layer as nat)
}

/// Root of the canonical decoder layers.
pub open spec fn canonical_layer(layer: int) -> Seq<char> {
    "model.layers."@ + decimal(layer as nat)
}

/// Builds the root of a released decoder layer.
pub fn released_layer_path(layer: usize) -> (r: String)
    ensures
        r@ == released_layer(layer as int),
{
    "model.language_model.layers.".to_owned().concat(decimal_text(layer as u64).as_str())
}

/// Fault of the attention geometry of a layer.
pub open spec fn attention_fault(args: ModelArgs, layer: int) -> Option<Fault> {
    first_of(
        dimension_fault(args.num_attention_heads, "attention head count"@),
        projection_fault(args, layer),
    )
}

/// Norms, query, output, and dense MLP of a layer.
pub open spec fn dense_part(d: Draft, args: ModelArgs, layer: int) -> Draft {
    let released = released_layer(layer);
    let canonical = canonical_layer(layer);
    let hidden = args.hidden_size as usize;
    let query = query_width(args, layer) as usize;
    let intermediate = args.layer_schedule[layer].intermediate_size as usize;
    let head = args.layer_schedule[layer].head_dim as usize;
    d.aliased(released, canonical, ".input_layernorm.weight"@, seq![hidden]).aliased(
        released,
        canonical,
        ".post_attention_layernorm.weight"@,
        seq![hidden],
    ).aliased(
        released,
        canonical,
        ".pre_feedforward_layernorm.weight"@,
        seq![hidden],
    ).aliased(
        released,
        canonical,
        ".post_feedforward_layernorm.weight"@,
        seq![hidden],
    ).aliased(released, canonical, ".layer_scalar"@, seq![1usize]).layer_text(
        args,
        released,
        canonical,
        ".self_attn.q_proj.weight"@,
        seq![query, hidden],
    ).layer_text(
        args,
        released,
        canonical,
        ".self_attn.o_proj.weight"@,
        seq![hidden, query],
    ).layer_text(
        args,
        released,
        canonical,
        ".mlp.gate_proj.weight"@,
        seq![intermediate, hidden],
    ).layer_text(
        args,
        released,
        canonical,
        ".mlp.up_proj.weight"@,
        seq![intermediate, hidden],
    ).layer_text(
        args,
        released,
        canonical,
        ".mlp.down_proj.weight"@,
        seq![hidden, intermediate],
    ).aliased(released, canonical, ".self_attn.q_norm.weight"@, seq![head])
}

/// Keys and values of a layer: none where it consumes shared state, and no values where it
/// reuses its keys.
pub open spec fn state_part(d: Draft, args: ModelArgs, layer: int) -> Draft {
    let released = released_layer(layer);
    let canonical = canonical_layer(layer);
    let hidden = args.hidden_size as usize;
    let key_value = key_value_width(args, layer) as usize;
    let policy = args.layer_schedule[layer];
    if policy.key_value is Shared {
        d
    } else {
        let keys = d.layer_text(
            args,
            released,
            canonical,
            ".self_attn.k_proj.weight"@,
            seq![key_value, hidden],
        ).aliased(
            released,
            canonical,
            ".self_attn.k_norm.weight"@,
            seq![policy.head_dim as usize],
        );
        if policy.key_value.value_spec() == Some(AttentionValueSource::ReuseKey) {
            keys
        } else {
            keys.layer_text(
                args,
                released,
                canonical,
                ".self_attn.v_proj.weight"@,
                seq![key_value, hidden],
            )
        }
    }
}

/// Per-layer inputs of a layer.
pub open spec fn input_part(d: Draft, args: ModelArgs, layer: int) -> Draft {
    let released = released_layer(layer);
    let canonical = canonical_layer(layer);
    let hidden = args.hidden_size as usize;
    let media = args.hidden_size_per_layer_input as usize;
    if args.hidden_size_per_layer_input > 0 {
        d.layer_text(
            args,
            released,
            canonical,
            ".per_layer_input_gate.weight"@,
            seq![media, hidden],
        ).layer_text(
            args,
            released,
            canonical,
            ".per_layer_projection.weight"@,
            seq![hidden, media],
        ).aliased(
            released,
            canonical,
            ".post_per_layer_input_norm.weight"@,
            seq![hidden],
        )
    } else {
        d
    }
}

/// Fault of the routed expert geometry.
pub open spec fn expert_fault(args: ModelArgs) -> Option<Fault> {
    first_of(
        fault_if(args.num_experts is None, "Gemma 4 sparse layer has no expert count"@),
        first_of(
            dimension_fault(args.num_experts->0, "expert count"@),
            first_of(
                fault_if(
                    args.moe_intermediate_size is None,
                    "Gemma 4 sparse layer has no expert width"@,
                ),
                dimension_fault(args.moe_intermediate_size->0, "expert intermediate size"@),
            ),
        ),
    )
}

/// Router of a layer.
pub open spec fn router_part(d: Draft, args: ModelArgs, layer: int) -> Draft {
    let released = released_layer(layer);
    let canonical = canonical_layer(layer);
    let hidden = args.hidden_size as usize;
    let experts = args.num_experts->0 as usize;
    d.layer_text(
        args,
        released,
        canonical,
        ".router.proj.weight"@,
        seq![experts, hidden],
    ).aliased(released, canonical, ".router.scale"@, seq![hidden]).aliased(
        released,
        canonical,
        ".router.per_expert_scale"@,
        seq![experts],
    ).aliased(
        released,
        canonical,
        ".post_feedforward_layernorm_1.weight"@,
        seq![hidden],
    ).aliased(
        released,
        canonical,
        ".pre_feedforward_layernorm_2.weight"@,
        seq![hidden],
    ).aliased(
        released,
        canonical,
        ".post_feedforward_layernorm_2.weight"@,
        seq![hidden],
    )
}

/// Expert banks of a layer: gate and up projections in two layouts, and the down projection.
pub open spec fn bank_part(d: Draft, args: ModelArgs, layer: int) -> Draft {
    let released = released_layer(layer) + ".experts.switch_glu"@;
    let canonical = canonical_layer(layer) + ".experts.switch_glu"@;
    let hidden = args.hidden_size as usize;
    let experts = args.num_experts->0 as usize;
    let width = args.moe_intermediate_size->0 as usize;
    let gate = released + ".gate_proj.weight"@;
    let up = released + ".up_proj.weight"@;
    let fused = released + ".gate_up_proj.weight"@;
    let separate = d.requested(
        text_request(args, gate, canonical + ".gate_proj.weight"@, seq![experts, width, hidden]),
    ).requested(
        text_request(args, up, canonical + ".up_proj.weight"@, seq![experts, width, hidden]),
    );
    match product_fault(2, width as int, "fused expert width"@) {
        Some(fault) => separate.failed(fault),
        None => {
            let packed = separate.requested(
                text_request(
                    args,
                    fused,
                    canonical + ".gate_up_proj"@,
                    seq![experts, (2 * width) as usize, hidden],
                ),
            );
            packed.grouped(
                Group {
                    id: canonical + " gate/up storage"@,
                    gate,
                    up,
                    fused,
                    first: d.requests.len(),
                },
            ).text(
                args,
                released + ".down_proj.weight"@,
                canonical + ".down_proj"@,
                seq![experts, hidden, width],
            )
        },
    }
}

/// Routed experts of a layer.
pub open spec fn expert_part(d: Draft, args: ModelArgs, layer: int) -> Draft {
    match expert_fault(args) {
        Some(fault) => d.failed(fault),
        None => bank_part(router_part(d, args, layer), args, layer),
    }
}

/// Fault of asking for a layer that has no policy.
pub open spec fn policy_fault(args: ModelArgs, layer: int) -> Option<Fault> {
    fault_if(
        layer >= args.layer_schedule.len(),
        "Gemma 4 layer "@ + decimal(layer as nat) + " has no normalized policy"@,
    )
}

/// A decoder layer.
pub open spec fn text_layer(d: Draft, args: ModelArgs, layer: int) -> Draft {
    match first_of(policy_fault(args, layer), attention_fault(args, layer)) {
        Some(fault) => d.failed(fault),
        None => {
            let dense = input_part(
                state_part(dense_part(d, args, layer), args, layer),
                args,
                layer,
            );
            if args.layer_schedule[layer].feed_forward is DenseWithSparseMoe {
                expert_part(dense, args, layer)
            } else {
                dense
            }
        },
    }
}

/// The first `layers` decoder layers, up to the first fault.
pub open spec fn text_layers(d: Draft, args: ModelArgs, layers: int) -> Draft
    decreases layers,
{
    if layers <= 0 {
        d
    } else {
        let earlier = text_layers(d, args, layers - 1);
        if earlier.failure is Some {
            earlier
        } else {
            text_layer(earlier, args, layers - 1)
        }
    }
}

/// Token tables and final norm.
pub open spec fn table_part(args: ModelArgs) -> Draft {
    let hidden = args.hidden_size as usize;
    let vocabulary = args.vocab_size as usize;
    let tables = Draft::empty().text(
        args,
        "model.language_model.embed_tokens.weight"@,
        "model.embed_tokens.weight"@,
        seq![vocabulary, hidden],
    ).plain(
        aliased_tensor("model.language_model.norm.weight"@, "model.norm.weight"@, seq![hidden]),
    );
    if args.tie_word_embeddings {
        tables
    } else {
        tables.text(args, "lm_head.weight"@, "lm_head.weight"@, seq![vocabulary, hidden])
    }
}

/// Per-layer token tables.
pub open spec fn per_layer_part(d: Draft, args: ModelArgs) -> Draft {
    let hidden = args.hidden_size as usize;
    let combined = combined_width(args) as usize;
    d.text(
        args,
        "model.language_model.embed_tokens_per_layer.weight"@,
        "model.embed_tokens_per_layer.weight"@,
        seq![per_layer_vocabulary(args) as usize, combined],
    ).text(
        args,
        "model.language_model.per_layer_model_projection.weight"@,
        "model.per_layer_model_projection.weight"@,
        seq![combined, hidden],
    ).plain(
        aliased_tensor(
            "model.language_model.per_layer_projection_norm.weight"@,
            "model.per_layer_projection_norm.weight"@,
            seq![args.hidden_size_per_layer_input as usize],
        ),
    )
}

/// The decoder, up to the first fault.
pub open spec fn text_draft(args: ModelArgs) -> Draft {
    match first_of(
        dimension_fault(args.hidden_size, "hidden size"@),
        dimension_fault(args.vocab_size, "vocabulary size"@),
    ) {
        Some(fault) => Draft::empty().failed(fault),
        None => match per_layer_fault(args) {
            Some(fault) => table_part(args).failed(fault),
            None => {
                let tables = if args.hidden_size_per_layer_input > 0 {
                    per_layer_part(table_part(args), args)
                } else {
                    table_part(args)
                };
                text_layers(tables, args, args.layer_schedule.len() as int)
            },
        },
    }
}

fn add_dense(
    draft: &mut SafetensorsDraft,
    args: &ModelArgs,
    layer: usize,
    released: &str,
    canonical: &str,
    hidden: usize,
    query: usize,
)
    requires
        layer < args.layer_schedule.len(),
        released@ == released_layer(layer as int),
        canonical@ == canonical_layer(layer as int),
        hidden == args.hidden_size as usize,
        query == query_width(*args, layer as int) as usize,
    ensures
        final(draft).deep_view() == dense_part(old(draft).deep_view(), *args, layer as int),
        old(draft).deep_view().complete() ==> final(draft).deep_view().complete(),
{
    let policy: LayerPolicy = args.layer_schedule[layer];
    let intermediate: usize = policy.intermediate_size as usize;
    draft.aliased(released, canonical, ".input_layernorm.weight", shape1(hidden));
    draft.aliased(released, canonical, ".post_attention_layernorm.weight", shape1(hidden));
    draft.aliased(released, canonical, ".pre_feedforward_layernorm.weight", shape1(hidden));
    draft.aliased(released, canonical, ".post_feedforward_layernorm.weight", shape1(hidden));
    draft.aliased(released, canonical, ".layer_scalar", shape1(1));
    draft.layer_text(
        args,
        released,
        canonical,
        ".self_attn.q_proj.weight",
        shape2(query, hidden),
    );
    draft.layer_text(
        args,
        released,
        canonical,
        ".self_attn.o_proj.weight",
        shape2(hidden, query),
    );
    draft.layer_text(
        args,
        released,
        canonical,
        ".mlp.gate_proj.weight",
        shape2(intermediate, hidden),
    );
    draft.layer_text(
        args,
        released,
        canonical,
        ".mlp.up_proj.weight",
        shape2(intermediate, hidden),
    );
    draft.layer_text(
        args,
        released,
        canonical,
        ".mlp.down_proj.weight",
        shape2(hidden, intermediate),
    );
    draft.aliased(
        released,
        canonical,
        ".self_attn.q_norm.weight",
        shape1(policy.head_dim as usize),
    );
}

fn add_state(
    draft: &mut SafetensorsDraft,
    args: &ModelArgs,
    layer: usize,
    released: &str,
    canonical: &str,
    hidden: usize,
    key_value: usize,
)
    requires
        layer < args.layer_schedule.len(),
        released@ == released_layer(layer as int),
        canonical@ == canonical_layer(layer as int),
        hidden == args.hidden_size as usize,
        key_value == key_value_width(*args, layer as int) as usize,
    ensures
        final(draft).deep_view() == state_part(old(draft).deep_view(), *args, layer as int),
        old(draft).deep_view().complete() ==> final(draft).deep_view().complete(),
{
    let policy: LayerPolicy = args.layer_schedule[layer];
    if policy.key_value.owns_state() {
        draft.layer_text(
            args,
            released,
            canonical,
            ".self_attn.k_proj.weight",
            shape2(key_value, hidden),
        );
        draft.aliased(
            released,
            canonical,
            ".self_attn.k_norm.weight",
            shape1(policy.head_dim as usize),
        );
        let reuses: bool = match policy.key_value.value() {
            Some(AttentionValueSource::ReuseKey) => true,
            _ => false,
        };
        if !reuses {
            draft.layer_text(
                args,
                released,
                canonical,
                ".self_attn.v_proj.weight",
                shape2(key_value, hidden),
            );
        }
    }
}

fn add_inputs(
    draft: &mut SafetensorsDraft,
    args: &ModelArgs,
    layer: usize,
    released: &str,
    canonical: &str,
    hidden: usize,
)
    requires
        layer < args.layer_schedule.len(),
        released@ == released_layer(layer as int),
        canonical@ == canonical_layer(layer as int),
        hidden == args.hidden_size as usize,
    ensures
        final(draft).deep_view() == input_part(old(draft).deep_view(), *args, layer as int),
        old(draft).deep_view().complete() ==> final(draft).deep_view().complete(),
{
    if args.hidden_size_per_layer_input > 0 {
        let media: usize = args.hidden_size_per_layer_input as usize;
        draft.layer_text(
            args,
            released,
            canonical,
            ".per_layer_input_gate.weight",
            shape2(media, hidden),
        );
        draft.layer_text(
            args,
            released,
            canonical,
            ".per_layer_projection.weight",
            shape2(hidden, media),
        );
        draft.aliased(
            released,
            canonical,
            ".post_per_layer_input_norm.weight",
            shape1(hidden),
        );
    }
}

fn add_router(
    draft: &mut SafetensorsDraft,
    args: &ModelArgs,
    layer: usize,
    released: &str,
    canonical: &str,
    hidden: usize,
    experts: usize,
)
    requires
        released@ == released_layer(layer as int),
        canonical@ == canonical_layer(layer as int),
        hidden == args.hidden_size as usize,
        experts == args.num_experts->0 as usize,
    ensures
        final(draft).deep_view() == router_part(old(draft).deep_view(), *args, layer as int),
        old(draft).deep_view().complete() ==> final(draft).deep_view().complete(),
{
    draft.layer_text(
        args,
        released,
        canonical,
        ".router.proj.weight",
        shape2(experts, hidden),
    );
    draft.aliased(released, canonical, ".router.scale", shape1(hidden));
    draft.aliased(released, canonical, ".router.per_expert_scale", shape1(experts));
    draft.aliased(released, canonical, ".post_feedforward_layernorm_1.weight", shape1(hidden));
    draft.aliased(released, canonical, ".pre_feedforward_layernorm_2.weight", shape1(hidden));
    draft.aliased(released, canonical, ".post_feedforward_layernorm_2.weight", shape1(hidden));
}

fn add_banks(
    draft: &mut SafetensorsDraft,
    args: &ModelArgs,
    layer: usize,
    released: &str,
    canonical: &str,
    hidden: usize,
    experts: usize,
    width: usize,
)
    requires
        released@ == released_layer(layer as int),
        canonical@ == canonical_layer(layer as int),
        hidden == args.hidden_size as usize,
        experts == args.num_experts->0 as usize,
        width == args.moe_intermediate_size->0 as usize,
    ensures
        final(draft).deep_view() == bank_part(old(draft).deep_view(), *args, layer as int),
        old(draft).deep_view().complete() ==> final(draft).deep_view().complete(),
{
    let released_root: String = released.to_owned().concat(".experts.switch_glu");
    let canonical_root: String = canonical.to_owned().concat(".experts.switch_glu");
    let first: usize = draft.requests.len();
    let gate: String = released_root.clone().concat(".gate_proj.weight");
    let up: String = released_root.clone().concat(".up_proj.weight");
    let fused: String = released_root.clone().concat(".gate_up_proj.weight");
    draft.requested(
        add_text_matrix(
            args,
            gate.clone(),
            canonical_root.clone().concat(".gate_proj.weight").as_str(),
            shape3(experts, width, hidden),
        ),
    );
    draft.requested(
        add_text_matrix(
            args,
            up.clone(),
            canonical_root.clone().concat(".up_proj.weight").as_str(),
            shape3(experts, width, hidden),
        ),
    );
    match checked_mul(2, width, "fused expert width") {
        Err(message) => {
            draft.fail(message);
        },
        Ok(fused_width) => {
            draft.requested(
                add_text_matrix(
                    args,
                    fused.clone(),
                    canonical_root.clone().concat(".gate_up_proj").as_str(),
                    shape3(experts, fused_width, hidden),
                ),
            );
            draft.group(
                DraftGroup {
                    id: canonical_root.clone().concat(" gate/up storage"),
                    gate,
                    up,
                    fused,
                    first,
                },
            );
            draft.text(
                args,
                released_root.concat(".down_proj.weight"),
                canonical_root.concat(".down_proj").as_str(),
                shape3(experts, hidden, width),
            );
        },
    }
}

/// Adds the routed experts of a layer.
fn add_safetensors_experts(
    draft: &mut SafetensorsDraft,
    args: &ModelArgs,
    layer: usize,
    released: &str,
    canonical: &str,
    hidden: usize,
)
    requires
        released@ == released_layer(layer as int),
        canonical@ == canonical_layer(layer as int),
        hidden == args.hidden_size as usize,
    ensures
        final(draft).deep_view() == expert_part(old(draft).deep_view(), *args, layer as int),
        old(draft).deep_view().complete() ==> final(draft).deep_view().complete(),
{
    let experts: usize = match args.num_experts {
        Some(experts) => match dimension(experts, "expert count") {
            Ok(experts) => experts,
            Err(message) => {
                draft.fail(message);
                return ;
            },
        },
        None => {
            draft.fail("Gemma 4 sparse layer has no expert count".to_owned());
            return ;
        },
    };
    let width: usize = match args.moe_intermediate_size {
        Some(width) => match dimension(width, "expert intermediate size") {
            Ok(width) => width,
            Err(message) => {
                draft.fail(message);
                return ;
            },
        },
        None => {
            draft.fail("Gemma 4 sparse layer has no expert width".to_owned());
            return ;
        },
    };
    add_router(draft, args, layer, released, canonical, hidden, experts);
    add_banks(draft, args, layer, released, canonical, hidden, experts, width);
}

fn attention_widths(args: &ModelArgs, layer: usize) -> (r: Result<(usize, usize), String>)
    requires
        layer < args.layer_schedule.len(),
    ensures
        match attention_fault(*args, layer as int) {
            Some(fault) => says(r, fault),
            None => r == Ok::<(usize, usize), String>(
                (
                    query_width(*args, layer as int) as usize,
                    key_value_width(*args, layer as int) as usize,
                ),
            ),
        },
{
    let policy: LayerPolicy = args.layer_schedule[layer];
    let head: usize = policy.head_dim as usize;
    let query: usize = checked_mul(
        dimension(args.num_attention_heads, "attention head count")?,
        head,
        "query projection width",
    )?;
    let key_value: usize = checked_mul(
        policy.num_key_value_heads as usize,
        head,
        "key/value projection width",
    )?;
    Ok((query, key_value))
}

/// Adds a decoder layer.
fn add_safetensors_layer(
    draft: &mut SafetensorsDraft,
    args: &ModelArgs,
    layer: usize,
    hidden: usize,
)
    requires
        hidden == args.hidden_size as usize,
    ensures
        final(draft).deep_view() == text_layer(old(draft).deep_view(), *args, layer as int),
        old(draft).deep_view().complete() ==> final(draft).deep_view().complete(),
{
    let policy: LayerPolicy = match args.layer_policy(layer) {
        Some(policy) => policy,
        None => {
            draft.fail(
                "Gemma 4 layer ".to_owned().concat(decimal_text(layer as u64).as_str()).concat(
                    " has no normalized policy",
                ),
            );
            return ;
        },
    };
    let released: String = released_layer_path(layer);
    let canonical: String = "model.layers.".to_owned().concat(
        decimal_text(layer as u64).as_str(),
    );
    let (query, key_value) = match attention_widths(args, layer) {
        Ok(widths) => widths,
        Err(message) => {
            draft.fail(message);
            return ;
        },
    };
    add_dense(draft, args, layer, released.as_str(), canonical.as_str(), hidden, query);
    add_state(draft, args, layer, released.as_str(), canonical.as_str(), hidden, key_value);
    add_inputs(draft, args, layer, released.as_str(), canonical.as_str(), hidden);
    match policy.feed_forward {
        FeedForwardPolicy::DenseWithSparseMoe => {
            add_safetensors_experts(
                draft,
                args,
                layer,
                released.as_str(),
                canonical.as_str(),
                hidden,
            );
        },
        FeedForwardPolicy::Dense => {},
    }
}

proof fn lemma_text_layers_end(d: Draft, args: ModelArgs, from: int, to: int)
    requires
        0 <= from <= to,
        text_layers(d, args, from).failure is Some,
    ensures
        text_layers(d, args, to) == text_layers(d, args, from),
    decreases to - from,
{
    if from < to {
        lemma_text_layers_end(d, args, from, to - 1);
    }
}

fn add_layers(draft: &mut SafetensorsDraft, args: &ModelArgs, hidden: usize)
    requires
        hidden == args.hidden_size as usize,
        old(draft).failure is None,
    ensures
        final(draft).deep_view() == text_layers(
            old(draft).deep_view(),
            *args,
            args.layer_schedule.len() as int,
        ),
        old(draft).deep_view().complete() ==> final(draft).deep_view().complete(),
{
    let ghost before = draft.deep_view();
    let layers: usize = args.num_hidden_layers();
    let mut layer: usize = 0;
    while layer < layers
        invariant
            layer <= layers,
            layers == args.layer_schedule.len(),
            hidden == args.hidden_size as usize,
            before == old(draft).deep_view(),
            before.complete() ==> draft.deep_view().complete(),
            draft.failure is None,
            draft.deep_view() == text_layers(before, *args, layer as int),
        decreases layers - layer,
    {
        add_safetensors_layer(draft, args, layer, hidden);
        layer = layer + 1;
        if draft.failure.is_some() {
            proof {
                lemma_text_layers_end(before, *args, layer as int, layers as int);
            }
            return ;
        }
    }
}

fn text_dimensions(args: &ModelArgs) -> (r: Result<(usize, usize), String>)
    ensures
        match first_of(
            dimension_fault(args.hidden_size, "hidden size"@),
            dimension_fault(args.vocab_size, "vocabulary size"@),
        ) {
            Some(fault) => says(r, fault),
            None => r == Ok::<(usize, usize), String>(
                (args.hidden_size as usize, args.vocab_size as usize),
            ),
        },
{
    let hidden: usize = dimension(args.hidden_size, "hidden size")?;
    let vocabulary: usize = dimension(args.vocab_size, "vocabulary size")?;
    Ok((hidden, vocabulary))
}

fn per_layer_dimensions(args: &ModelArgs) -> (r: Result<(usize, usize), String>)
    requires
        args.hidden_size_per_layer_input > 0,
    ensures
        match per_layer_fault(*args) {
            Some(fault) => says(r, fault),
            None => r == Ok::<(usize, usize), String>(
                (combined_width(*args) as usize, per_layer_vocabulary(*args) as usize),
            ),
        },
{
    let per_layer: usize = args.hidden_size_per_layer_input as usize;
    let combined: usize = checked_mul(
        args.layer_schedule.len(),
        per_layer,
        "combined per-layer input width",
    )?;
    let vocabulary: usize = dimension(
        args.vocab_size_per_layer_input.unwrap_or(args.vocab_size),
        "per-layer input vocabulary size",
    )?;
    Ok((combined, vocabulary))
}

/// Drafts the decoder.
pub(crate) fn draft_text(args: &ModelArgs) -> (r: SafetensorsDraft)
    ensures
        r.deep_view() == text_draft(*args),
        r.deep_view().complete(),
{
    let mut draft = SafetensorsDraft::new();
    let (hidden, vocabulary) = match text_dimensions(args) {
        Ok(dimensions) => dimensions,
        Err(message) => {
            draft.fail(message);
            return draft;
        },
    };
    draft.text(
        args,
        "model.language_model.embed_tokens.weight".to_owned(),
        "model.embed_tokens.weight",
        shape2(vocabulary, hidden),
    );
    draft.plain(
        safe_alias(
            "model.language_model.norm.weight".to_owned(),
            "model.norm.weight".to_owned(),
            shape1(hidden),
        ),
    );
    if !args.tie_word_embeddings {
        draft.text(
            args,
            "lm_head.weight".to_owned(),
            "lm_head.weight",
            shape2(vocabulary, hidden),
        );
    }
    if args.hidden_size_per_layer_input > 0 {
        let (combined, per_layer_vocab) = match per_layer_dimensions(args) {
            Ok(dimensions) => dimensions,
            Err(message) => {
                draft.fail(message);
                return draft;
            },
        };
        draft.text(
            args,
            "model.language_model.embed_tokens_per_layer.weight".to_owned(),
            "model.embed_tokens_per_layer.weight",
            shape2(per_layer_vocab, combined),
        );
        draft.text(
            args,
            "model.language_model.per_layer_model_projection.weight".to_owned(),
            "model.per_layer_model_projection.weight",
            shape2(combined, hidden),
        );
        draft.plain(
            safe_alias(
                "model.language_model.per_layer_projection_norm.weight".to_owned(),
                "model.per_layer_projection_norm.weight".to_owned(),
                shape1(args.hidden_size_per_layer_input as usize),
            ),
        );
    }
    add_layers(&mut draft, args, hidden);
    draft
}

} // verus!
