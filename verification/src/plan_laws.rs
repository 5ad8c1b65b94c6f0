//! What holds of every checkpoint plan.

use crate::config::ModelArgs;
use crate::experts::{is_sparse, sparse_layers};
use crate::family::{
    FamilyConfig, audio_name, formats_shared, kept, quantized_whole, text_name, vision_name,
};
use crate::formats::{LinearFormat, WeightQuantization};
use crate::gguf_config::block_name;
use crate::gguf_plan::{
    gguf_expert_fault, gguf_fault, gguf_groups, gguf_layer, gguf_layer_fault, gguf_layers_fault,
    gguf_prefixes, gguf_state, gguf_tensors, key_value_width, per_layer_vocabulary,
    projection_fault,
};
use crate::name_laws::{admits_mlx, law_aliases_admit_mlx_conversions};
use crate::normalize::{ModelArgsSource, RotaryChecks, normalized};
use crate::plan::{GgufTensor, LayoutGroup, gguf_matrix, gguf_vector};
use crate::safetensors::{SafeTensor, SafetensorsCheckpointPlan};
use crate::safetensors_draft::{Draft, Entry, Group};
use crate::safetensors_plan::{
    Expansion, all_with_mlx_aliases, expanded, family_draft, is_catalog, placed, placed_group,
    with_mlx_aliases,
};
use crate::safetensors_text::{
    bank_part, dense_part, input_part, released_layer, router_part, state_part, text_layer,
};
use crate::schedule::AttentionValueSource;
use crate::schedule_laws::law_normalized_schedule;
use vstd::prelude::*;

verus! {

proof fn lemma_aliased_admits(tensor: SafeTensor)
    ensures
        admits_mlx(with_mlx_aliases(tensor)),
{
    law_aliases_admit_mlx_conversions(tensor);
}

proof fn lemma_all_aliased_admit(tensors: Seq<SafeTensor>)
    ensures
        forall|i: int|
            0 <= i < tensors.len() ==> admits_mlx(#[trigger] all_with_mlx_aliases(tensors)[i]),
{
    assert forall|i: int| 0 <= i < tensors.len() implies admits_mlx(
        #[trigger] all_with_mlx_aliases(tensors)[i],
    ) by {
        lemma_aliased_admits(tensors[i]);
    }
}

proof fn lemma_placed_admit(common: Seq<Entry>, expansions: Seq<Expansion>, end: int)
    ensures
        forall|i: int|
            0 <= i < placed(common, expansions, end).len() ==> admits_mlx(
                #[trigger] placed(common, expansions, end)[i],
            ),
    decreases end,
{
    if end > 0 {
        lemma_placed_admit(common, expansions, end - 1);
        let before = placed(common, expansions, end - 1);
        let added = match common[end - 1] {
            Entry::Plain(tensor) => seq![with_mlx_aliases(tensor)],
            Entry::Matrix(at) => all_with_mlx_aliases(expanded(expansions[at as int])),
        };
        match common[end - 1] {
            Entry::Plain(tensor) => {
                lemma_aliased_admits(tensor);
            },
            Entry::Matrix(at) => {
                lemma_all_aliased_admit(expanded(expansions[at as int]));
            },
        }
        assert forall|i: int| 0 <= i < (before + added).len() implies admits_mlx(
            #[trigger] (before + added)[i],
        ) by {
            if i >= before.len() {
                assert((before + added)[i] == added[i - before.len()]);
            } else {
                assert((before + added)[i] == before[i]);
            }
        }
    }
}

/// Whether every tensor of every layout is also known by its mlx-vlm names.
pub open spec fn group_admits_mlx(group: LayoutGroup<SafeTensor>) -> bool {
    forall|variant: int, i: int|
        0 <= variant < group.variants.len() && 0 <= i < group.variants[variant].tensors.len()
            ==> admits_mlx(#[trigger] group.variants[variant].tensors[i])
}

proof fn lemma_group_admits(group: Group, expansions: Seq<Expansion>)
    ensures
        group_admits_mlx(placed_group(group, expansions)),
{
    let first = group.first as int;
    let gate = all_with_mlx_aliases(expanded(expansions[first]));
    let up = all_with_mlx_aliases(expanded(expansions[first + 1]));
    lemma_all_aliased_admit(expanded(expansions[first]));
    lemma_all_aliased_admit(expanded(expansions[first + 1]));
    lemma_all_aliased_admit(expanded(expansions[first + 2]));
    let placed = placed_group(group, expansions);
    assert forall|variant: int, i: int|
        0 <= variant < placed.variants.len() && 0 <= i
            < placed.variants[variant].tensors.len() implies admits_mlx(
        #[trigger] placed.variants[variant].tensors[i],
    ) by {
        if variant == 0 {
            if i < gate.len() {
                assert((gate + up)[i] == gate[i]);
            } else {
                assert((gate + up)[i] == up[i - gate.len()]);
            }
        }
    }
}

/// Every tensor of a SafeTensors catalog, in every layout, is admitted under the mlx-vlm name of
/// its key and of each alias.
pub proof fn law_catalog_admits_mlx_conversions(
    plan: SafetensorsCheckpointPlan,
    family: FamilyConfig,
    expansions: Seq<Expansion>,
)
    requires
        is_catalog(plan, family, expansions),
    ensures
        forall|i: int|
            0 <= i < plan.common_tensors.deep_view().len() ==> admits_mlx(
                #[trigger] plan.common_tensors.deep_view()[i],
            ),
        forall|group: int|
            0 <= group < plan.layout_groups.deep_view().len() ==> group_admits_mlx(
                #[trigger] plan.layout_groups.deep_view()[group],
            ),
{
    let draft = family_draft(family);
    lemma_placed_admit(draft.common, expansions, draft.common.len() as int);
    assert forall|group: int| 0 <= group < plan.layout_groups.deep_view().len() implies
        group_admits_mlx(#[trigger] plan.layout_groups.deep_view()[group]) by {
        lemma_group_admits(draft.groups[group], expansions);
    }
}

/// Whether `after` holds all of `before`, in its place.
pub open spec fn extends(before: Draft, after: Draft) -> bool {
    &&& before.requests.is_prefix_of(after.requests)
    &&& before.common.is_prefix_of(after.common)
    &&& before.groups.is_prefix_of(after.groups)
}

pub(crate) proof fn lemma_extends(first: Draft, second: Draft, third: Draft)
    requires
        extends(first, second),
        extends(second, third),
    ensures
        extends(first, third),
{
}

pub(crate) proof fn lemma_dense_extends(d: Draft, args: ModelArgs, layer: int)
    ensures
        extends(d, dense_part(d, args, layer)),
        dense_part(d, args, layer).groups == d.groups,
        dense_part(d, args, layer).failure == d.failure,
{
}

pub(crate) proof fn lemma_state_extends(d: Draft, args: ModelArgs, layer: int)
    ensures
        extends(d, state_part(d, args, layer)),
        state_part(d, args, layer).groups == d.groups,
        state_part(d, args, layer).failure == d.failure,
{
}

pub(crate) proof fn lemma_input_extends(d: Draft, args: ModelArgs, layer: int)
    ensures
        extends(d, input_part(d, args, layer)),
        input_part(d, args, layer).groups == d.groups,
        input_part(d, args, layer).failure == d.failure,
{
}

pub(crate) proof fn lemma_router_extends(d: Draft, args: ModelArgs, layer: int)
    ensures
        extends(d, router_part(d, args, layer)),
        router_part(d, args, layer).groups == d.groups,
        router_part(d, args, layer).failure == d.failure,
{
}

pub(crate) proof fn lemma_bank_extends(d: Draft, args: ModelArgs, layer: int)
    ensures
        extends(d, bank_part(d, args, layer)),
        bank_part(d, args, layer).failure is None ==> bank_part(d, args, layer).groups.len()
            == d.groups.len() + 1,
{
}

/// A decoder layer only adds to the catalog: one group of expert layouts where it routes to
/// experts, and none elsewhere. A layer without a policy adds nothing, and is refused.
pub proof fn law_layers_extend_the_catalog(d: Draft, args: ModelArgs, layer: int)
    ensures
        ({
            let after = text_layer(d, args, layer);
            if layer >= args.layer_schedule.len() {
                &&& after.requests == d.requests
                &&& after.common == d.common
                &&& after.groups == d.groups
                &&& after.failure is Some
            } else {
                &&& extends(d, after)
                &&& after.failure is None ==> after.groups.len() == d.groups.len() + if is_sparse(
                    args,
                    layer,
                ) {
                    1int
                } else {
                    0
                }
            }
        }),
{
    let dense = dense_part(d, args, layer);
    let state = state_part(dense, args, layer);
    let inputs = input_part(state, args, layer);
    let router = router_part(inputs, args, layer);
    lemma_dense_extends(d, args, layer);
    lemma_state_extends(dense, args, layer);
    lemma_input_extends(state, args, layer);
    lemma_router_extends(inputs, args, layer);
    lemma_bank_extends(router, args, layer);
    lemma_extends(d, dense, state);
    lemma_extends(d, state, inputs);
    lemma_extends(d, inputs, router);
    lemma_extends(d, router, bank_part(router, args, layer));
}

/// Whether `key` names keys or values of layer `layer`.
spec fn names_state(key: Seq<char>, layer: int) -> bool {
    let root = released_layer(layer).len() as int;
    key[root + 1] == 's' && (key[root + 11] == 'k' || key[root + 11] == 'v')
}

/// Whether nothing between `before` and `after` names keys or values of layer `layer`.
spec fn stateless(before: Draft, after: Draft, layer: int) -> bool {
    &&& forall|i: int|
        before.requests.len() <= i < after.requests.len() ==> !names_state(
            #[trigger] after.requests[i].key,
            layer,
        )
    &&& forall|i: int|
        before.common.len() <= i < after.common.len() ==> (
        #[trigger] after.common[i] matches Entry::Plain(tensor) ==> !names_state(tensor.key, layer))
}

proof fn lemma_dense_stateless(d: Draft, args: ModelArgs, layer: int)
    ensures
        stateless(d, dense_part(d, args, layer), layer),
{
    reveal_strlit(".input_layernorm.weight");
    reveal_strlit(".post_attention_layernorm.weight");
    reveal_strlit(".pre_feedforward_layernorm.weight");
    reveal_strlit(".post_feedforward_layernorm.weight");
    reveal_strlit(".layer_scalar");
    reveal_strlit(".self_attn.q_proj.weight");
    reveal_strlit(".self_attn.o_proj.weight");
    reveal_strlit(".mlp.gate_proj.weight");
    reveal_strlit(".mlp.up_proj.weight");
    reveal_strlit(".mlp.down_proj.weight");
    reveal_strlit(".self_attn.q_norm.weight");
}

proof fn lemma_input_stateless(d: Draft, args: ModelArgs, layer: int)
    ensures
        stateless(d, input_part(d, args, layer), layer),
{
    reveal_strlit(".per_layer_input_gate.weight");
    reveal_strlit(".per_layer_projection.weight");
    reveal_strlit(".post_per_layer_input_norm.weight");
}

proof fn lemma_router_stateless(d: Draft, args: ModelArgs, layer: int)
    ensures
        stateless(d, router_part(d, args, layer), layer),
{
    reveal_strlit(".router.proj.weight");
    reveal_strlit(".router.scale");
    reveal_strlit(".router.per_expert_scale");
    reveal_strlit(".post_feedforward_layernorm_1.weight");
    reveal_strlit(".pre_feedforward_layernorm_2.weight");
    reveal_strlit(".post_feedforward_layernorm_2.weight");
}

proof fn lemma_bank_stateless(d: Draft, args: ModelArgs, layer: int)
    ensures
        stateless(d, bank_part(d, args, layer), layer),
{
    reveal_strlit(".experts.switch_glu");
    reveal_strlit(".gate_proj.weight");
    reveal_strlit(".up_proj.weight");
    reveal_strlit(".gate_up_proj.weight");
    reveal_strlit(".down_proj.weight");
}

proof fn lemma_stateless(first: Draft, second: Draft, third: Draft, layer: int)
    requires
        extends(second, third),
        stateless(first, second, layer),
        stateless(second, third, layer),
    ensures
        stateless(first, third, layer),
{
    assert forall|i: int| first.requests.len() <= i < third.requests.len() implies !names_state(
        #[trigger] third.requests[i].key,
        layer,
    ) by {
        if i < second.requests.len() {
            assert(third.requests[i] == second.requests[i]);
        }
    }
    assert forall|i: int| first.common.len() <= i < third.common.len() implies (
    #[trigger] third.common[i] matches Entry::Plain(tensor) ==> !names_state(tensor.key, layer)) by {
        if i < second.common.len() {
            assert(third.common[i] == second.common[i]);
        }
    }
}

/// Whether a matrix named `key` is requested between `before` and `after`.
pub open spec fn asked_since(before: Draft, after: Draft, key: Seq<char>) -> bool {
    exists|i: int|
        before.requests.len() <= i < after.requests.len() && #[trigger] after.requests[i].key == key
}

/// Whether a tensor named `key` is placed between `before` and `after`.
pub open spec fn placed_since(before: Draft, after: Draft, key: Seq<char>) -> bool {
    exists|i: int|
        before.common.len() <= i < after.common.len() && (
        #[trigger] after.common[i] matches Entry::Plain(tensor) && tensor.key == key)
}

/// A decoder layer adds keys exactly where it owns its state, and values where it also does not
/// reuse the keys.
pub proof fn law_released_state_follows_ownership(d: Draft, args: ModelArgs, layer: int)
    requires
        0 <= layer < args.layer_schedule.len(),
        text_layer(d, args, layer).failure is None,
    ensures
        ({
            let after = text_layer(d, args, layer);
            let root = released_layer(layer);
            let source = args.layer_schedule[layer].key_value;
            let owns = !(source is Shared);
            &&& asked_since(d, after, root + ".self_attn.k_proj.weight"@) == owns
            &&& placed_since(d, after, root + ".self_attn.k_norm.weight"@) == owns
            &&& asked_since(d, after, root + ".self_attn.v_proj.weight"@) == (owns
                && source.value_spec() != Some(AttentionValueSource::ReuseKey))
        }),
{
    reveal_strlit(".self_attn.k_proj.weight");
    reveal_strlit(".self_attn.k_norm.weight");
    reveal_strlit(".self_attn.v_proj.weight");
    let root = released_layer(layer);
    let keys = root + ".self_attn.k_proj.weight"@;
    let norm = root + ".self_attn.k_norm.weight"@;
    let values = root + ".self_attn.v_proj.weight"@;
    let after = text_layer(d, args, layer);
    let dense = dense_part(d, args, layer);
    let state = state_part(dense, args, layer);
    let inputs = input_part(state, args, layer);
    let router = router_part(inputs, args, layer);
    let source = args.layer_schedule[layer].key_value;
    lemma_dense_extends(d, args, layer);
    lemma_state_extends(dense, args, layer);
    lemma_input_extends(state, args, layer);
    lemma_router_extends(inputs, args, layer);
    lemma_bank_extends(router, args, layer);
    lemma_dense_stateless(d, args, layer);
    lemma_input_stateless(state, args, layer);
    lemma_router_stateless(inputs, args, layer);
    lemma_bank_stateless(router, args, layer);
    if is_sparse(args, layer) {
        lemma_stateless(state, inputs, router, layer);
        lemma_extends(inputs, router, after);
        lemma_extends(state, inputs, after);
        lemma_stateless(state, router, after, layer);
    }
    assert(extends(state, after));
    assert(stateless(state, after, layer));
    assert(names_state(keys, layer));
    assert(names_state(norm, layer));
    assert(names_state(values, layer));
    let matrices = dense.requests.len() as int;
    let places = dense.common.len() as int;
    lemma_extends(d, dense, state);
    lemma_extends(dense, state, after);
    if source is Shared {
        lemma_stateless(d, dense, after, layer);
    } else {
        assert(keys[root.len() as int + 11] == 'k');
        assert(values[root.len() as int + 11] == 'v');
        assert(state.requests[matrices].key == keys);
        assert(after.requests[matrices] == state.requests[matrices]);
        assert(state.common[places + 1] matches Entry::Plain(tensor) && tensor.key == norm);
        assert(after.common[places + 1] == state.common[places + 1]);
        if source.value_spec() == Some(AttentionValueSource::ReuseKey) {
            assert forall|i: int|
                d.requests.len() <= i < after.requests.len() implies #[trigger] after.requests[i].key
                != values by {
                if i < dense.requests.len() {
                    assert(after.requests[i] == dense.requests[i]);
                }
            }
        } else {
            assert(state.requests[matrices + 1].key == values);
            assert(after.requests[matrices + 1] == state.requests[matrices + 1]);
        }
    }
}

/// A GGUF catalog has one group of expert layouts for each layer that routes to experts, and in
/// each group exactly one of two layouts must be stored.
pub proof fn law_each_sparse_layer_has_its_layouts(args: ModelArgs, layers: int)
    ensures
        gguf_groups(args, layers).len() == sparse_layers(args, layers),
        forall|i: int|
            0 <= i < gguf_groups(args, layers).len() ==> {
                &&& (#[trigger] gguf_groups(args, layers)[i]).required
                &&& gguf_groups(args, layers)[i].variants.len() == 2
            },
    decreases layers,
{
    if layers > 0 {
        law_each_sparse_layer_has_its_layouts(args, layers - 1);
    }
}

proof fn lemma_prefix_kept(args: ModelArgs, from: int, to: int, prefix: Seq<char>)
    requires
        from <= to,
        gguf_prefixes(args, from).contains(prefix),
    ensures
        gguf_prefixes(args, to).contains(prefix),
    decreases to - from,
{
    if from < to {
        lemma_prefix_kept(args, from, to - 1, prefix);
        let before = gguf_prefixes(args, to - 1);
        let i = choose|i: int| 0 <= i < before.len() && before[i] == prefix;
        assert(gguf_prefixes(args, to)[i] == prefix);
    }
}

pub(crate) proof fn lemma_tensor_kept(args: ModelArgs, from: int, to: int, tensor: GgufTensor)
    requires
        from <= to,
        gguf_tensors(args, from).contains(tensor),
    ensures
        gguf_tensors(args, to).contains(tensor),
    decreases to - from,
{
    if from < to {
        lemma_tensor_kept(args, from, to - 1, tensor);
        let before = gguf_tensors(args, to - 1);
        let i = choose|i: int| 0 <= i < before.len() && before[i] == tensor;
        assert(gguf_tensors(args, to)[i] == tensor);
    }
}

proof fn lemma_state_kept(args: ModelArgs, layer: int, tensor: GgufTensor)
    requires
        0 <= layer < args.layer_schedule.len(),
        gguf_state(
            args.hidden_size as int,
            key_value_width(args, layer),
            args.layer_schedule[layer],
            layer,
        ).contains(tensor),
    ensures
        gguf_tensors(args, args.layer_schedule.len() as int).contains(tensor),
{
    let hidden = args.hidden_size as int;
    let state = gguf_state(
        hidden,
        key_value_width(args, layer),
        args.layer_schedule[layer],
        layer,
    );
    let i = choose|i: int| 0 <= i < state.len() && state[i] == tensor;
    let before = gguf_tensors(args, layer);
    let whole = gguf_tensors(args, layer + 1);
    assert(gguf_layer(args, layer)[11 + i] == tensor);
    assert(whole[before.len() + 11 + i] == tensor);
    lemma_tensor_kept(args, layer + 1, args.layer_schedule.len() as int, tensor);
}

/// A layer that owns its state must have its keys stored, and its values unless it reuses the
/// keys. A layer that consumes shared state need not: whatever a checkpoint still stores for it
/// is admitted by prefix.
pub proof fn law_state_tensors_follow_ownership(args: ModelArgs, layer: int)
    requires
        0 <= layer < args.layer_schedule.len(),
    ensures
        ({
            let layers = args.layer_schedule.len() as int;
            let policy = args.layer_schedule[layer];
            let hidden = args.hidden_size as int;
            let width = key_value_width(args, layer);
            if policy.key_value is Shared {
                &&& gguf_state(hidden, width, policy, layer).len() == 0
                &&& gguf_prefixes(args, layers).contains(block_name(layer, ".attn_k."@))
                &&& gguf_prefixes(args, layers).contains(block_name(layer, ".attn_v."@))
                &&& gguf_prefixes(args, layers).contains(block_name(layer, ".attn_k_norm."@))
            } else {
                let tensors = gguf_tensors(args, layers);
                &&& tensors.contains(
                    gguf_matrix(block_name(layer, ".attn_k.weight"@), width, hidden),
                )
                &&& tensors.contains(
                    gguf_vector(
                        block_name(layer, ".attn_k_norm.weight"@),
                        policy.head_dim as int,
                    ),
                )
                &&& policy.key_value.value_spec() == Some(AttentionValueSource::ReuseKey)
                    || tensors.contains(
                    gguf_matrix(block_name(layer, ".attn_v.weight"@), width, hidden),
                )
            }
        }),
{
    let layers = args.layer_schedule.len() as int;
    let policy = args.layer_schedule[layer];
    let hidden = args.hidden_size as int;
    let width = key_value_width(args, layer);
    if policy.key_value is Shared {
        let before = gguf_prefixes(args, layer);
        let after = gguf_prefixes(args, layer + 1);
        let end = before.len() as int;
        assert(after[end] == block_name(layer, ".attn_k."@));
        assert(after[end + 1] == block_name(layer, ".attn_v."@));
        assert(after[end + 2] == block_name(layer, ".attn_k_norm."@));
        lemma_prefix_kept(args, layer + 1, layers, block_name(layer, ".attn_k."@));
        lemma_prefix_kept(args, layer + 1, layers, block_name(layer, ".attn_v."@));
        lemma_prefix_kept(args, layer + 1, layers, block_name(layer, ".attn_k_norm."@));
    } else {
        let state = gguf_state(hidden, width, policy, layer);
        assert(state.contains(state[0]));
        assert(state.contains(state[1]));
        lemma_state_kept(args, layer, state[0]);
        lemma_state_kept(args, layer, state[1]);
        if policy.key_value.value_spec() != Some(AttentionValueSource::ReuseKey) {
            assert(state.contains(state[2]));
            lemma_state_kept(args, layer, state[2]);
        }
    }
}

proof fn lemma_product_fits(left: int, right: int)
    requires
        0 <= left <= u32::MAX,
        0 <= right <= u32::MAX,
        usize::BITS == 64,
    ensures
        left * right <= usize::MAX,
{
    assert(left * right <= 0xffff_ffff * 0xffff_ffff) by (nonlinear_arith)
        requires
            0 <= left <= 0xffff_ffff,
            0 <= right <= 0xffff_ffff,
    ;
}

proof fn lemma_layers_faultless(args: ModelArgs, layers: int)
    requires
        0 <= layers <= args.layer_schedule.len(),
        forall|layer: int| 0 <= layer < layers ==> #[trigger] gguf_layer_fault(args, layer) is None,
    ensures
        gguf_layers_fault(args, layers) is None,
    decreases layers,
{
    if layers > 0 {
        lemma_layers_faultless(args, layers - 1);
    }
}

/// Where sizes have 64 bits, every normalized configuration has a GGUF catalog, but for one with
/// per-layer embeddings of no vocabulary.
pub proof fn law_normalized_configurations_have_catalogs(
    args: ModelArgs,
    source: ModelArgsSource,
    checks: RotaryChecks,
)
    requires
        source.fault(checks) is None,
        normalized(args, source),
        args.hidden_size_per_layer_input > 0 ==> per_layer_vocabulary(args) > 0,
        usize::BITS == 64,
    ensures
        gguf_fault(args) is None,
{
    law_normalized_schedule(source, checks);
    let layers = args.layer_schedule.len() as int;
    assert(layers == source.num_hidden_layers);
    if args.hidden_size_per_layer_input > 0 {
        lemma_product_fits(layers, args.hidden_size_per_layer_input as int);
    }
    assert forall|layer: int| 0 <= layer < layers implies #[trigger] gguf_layer_fault(
        args,
        layer,
    ) is None by {
        let policy = args.layer_schedule[layer];
        assert(source.geometry().schedule()[layer] == source.geometry().policy_of(layer));
        lemma_product_fits(args.num_attention_heads as int, policy.head_dim as int);
        lemma_product_fits(policy.num_key_value_heads as int, policy.head_dim as int);
        assert(projection_fault(args, layer) is None);
        if policy.feed_forward is DenseWithSparseMoe {
            assert(source.enable_moe_block);
            lemma_product_fits(2, args.moe_intermediate_size->0 as int);
            assert(gguf_expert_fault(args) is None);
        }
    }
    lemma_layers_faultless(args, layers);
}

/// Once formats are shared out, each text and projection weight has the format declared under
/// its name, and the format of each tower weight is held by its tower.
pub proof fn law_formats_reach_their_component(
    target: FamilyConfig,
    source: FamilyConfig,
    formats: Map<Seq<char>, WeightQuantization>,
    name: Seq<char>,
)
    requires
        formats_shared(target, source, formats),
        formats.contains_key(name),
    ensures
        text_name(name) ==> target.text.format_of(name) == LinearFormat::Quantized(formats[name]),
        vision_name(name) && target.vision is Some ==> (
        target.vision->0.quantized_weight_configs matches Some(held)
            && held@.contains_key(name) && held@[name] == formats[name]),
        audio_name(name) && target.audio is Some ==> (
        target.audio->0.quantized_weight_configs matches Some(held)
            && held@.contains_key(name) && held@[name] == formats[name]),
        text_name(name) || vision_name(name) || audio_name(name),
{
    let none = Map::<Seq<char>, WeightQuantization>::empty();
    if text_name(name) {
        assert(kept(formats, |name| text_name(name)).contains_key(name));
        assert(!none.contains_key(name));
    }
    if vision_name(name) {
        assert(kept(formats, |name| vision_name(name)).contains_key(name));
        assert(!none.contains_key(name));
    }
    if audio_name(name) {
        assert(kept(formats, |name| audio_name(name)).contains_key(name));
        assert(!none.contains_key(name));
    }
}

/// Under load-time quantization every weight of the decoder has the requested encoding.
pub proof fn law_load_time_quantization_covers_the_decoder(
    target: FamilyConfig,
    source: FamilyConfig,
    quantization: WeightQuantization,
    name: Seq<char>,
)
    requires
        quantized_whole(target, source, quantization),
    ensures
        target.text.format_of(name) == LinearFormat::Quantized(quantization),
{
}

} // verus!
