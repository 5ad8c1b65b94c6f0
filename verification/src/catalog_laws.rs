//! What a SafeTensors catalog asks of the decoder, name by name.

use crate::config::ModelArgs;
use crate::plan_laws::{
    extends, law_layers_extend_the_catalog, lemma_bank_extends, lemma_dense_extends, lemma_extends,
    lemma_input_extends, lemma_router_extends, lemma_state_extends,
};
use crate::safetensors::{MatrixFormat, Request, aliased_tensor};
use crate::safetensors_draft::{Draft, Entry, text_request};
use crate::safetensors_text::{
    attention_fault, bank_part, canonical_layer, dense_part, expert_fault, input_part,
    per_layer_part, released_layer, router_part, state_part, table_part, text_draft, text_layer,
    text_layers,
};
use crate::schedule::{AttentionStateSource, AttentionValueSource};
use crate::text::decimal;
use vstd::prelude::*;

verus! {

/// Whether a shape has exactly the given sides.
pub open spec fn has_sides(shape: Seq<usize>, sides: Seq<int>) -> bool {
    &&& shape.len() == sides.len()
    &&& forall|i: int| 0 <= i < sides.len() ==> #[trigger] shape[i] == sides[i]
}

/// Whether a request is for the matrix `key` with these sides, also known as `alias`.
pub open spec fn is_request(
    request: Request,
    key: Seq<char>,
    alias: Option<Seq<char>>,
    sides: Seq<int>,
    format: MatrixFormat,
) -> bool {
    &&& request.key == key
    &&& request.alias == alias
    &&& request.format == format
    &&& has_sides(request.shape, sides)
}

/// Whether the place `at` holds the matrix `key`.
pub open spec fn matrix_at(
    d: Draft,
    at: int,
    key: Seq<char>,
    alias: Option<Seq<char>>,
    sides: Seq<int>,
    format: MatrixFormat,
) -> bool {
    d.common[at] matches Entry::Matrix(place) && place < d.requests.len() && is_request(
        d.requests[place as int],
        key,
        alias,
        sides,
        format,
    )
}

/// Whether a place from `from` on holds the matrix `key`.
pub open spec fn asks(
    d: Draft,
    from: int,
    key: Seq<char>,
    alias: Option<Seq<char>>,
    sides: Seq<int>,
    format: MatrixFormat,
) -> bool {
    exists|at: int|
        from <= at < d.common.len() && #[trigger] matrix_at(d, at, key, alias, sides, format)
}

/// Whether the place `at` holds the required floating-point tensor `key`.
pub open spec fn tensor_at(
    d: Draft,
    at: int,
    key: Seq<char>,
    aliases: Seq<Seq<char>>,
    sides: Seq<int>,
) -> bool {
    d.common[at] matches Entry::Plain(tensor) && {
        &&& tensor.key == key
        &&& tensor.aliases == aliases
        &&& has_sides(tensor.shape, sides)
        &&& tensor.alternate_shapes.len() == 0
        &&& tensor.element_count is None
        &&& tensor.dtype is Floating
        &&& tensor.role is Tensor
        &&& tensor.requirement is Required
    }
}

/// Whether a place from `from` on holds the required floating-point tensor `key`.
pub open spec fn lists(
    d: Draft,
    from: int,
    key: Seq<char>,
    aliases: Seq<Seq<char>>,
    sides: Seq<int>,
) -> bool {
    exists|at: int|
        from <= at < d.common.len() && #[trigger] tensor_at(d, at, key, aliases, sides)
}

/// Whether the matrix `local` of decoder layer `layer` is asked for from `from` on, under its
/// released and canonical names, in the format of the canonical one.
pub open spec fn asks_in_layer(
    d: Draft,
    from: int,
    args: ModelArgs,
    layer: int,
    local: Seq<char>,
    sides: Seq<int>,
) -> bool {
    let canonical = "model.layers."@ + decimal(layer as nat) + local;
    asks(
        d,
        from,
        "model.language_model.layers."@ + decimal(layer as nat) + local,
        Some(canonical),
        sides,
        MatrixFormat::Settled(args.format_of(canonical)),
    )
}

/// Whether the tensor `local` of decoder layer `layer` is listed from `from` on, under its
/// released and canonical names.
pub open spec fn lists_in_layer(
    d: Draft,
    from: int,
    layer: int,
    local: Seq<char>,
    sides: Seq<int>,
) -> bool {
    lists(
        d,
        from,
        "model.language_model.layers."@ + decimal(layer as nat) + local,
        seq!["model.layers."@ + decimal(layer as nat) + local],
        sides,
    )
}

/// Whether the norms, query, output, and dense MLP of a layer are there, each with its shape.
pub open spec fn holds_dense(d: Draft, from: int, args: ModelArgs, layer: int) -> bool {
    let hidden = args.hidden_size as int;
    let heads = args.num_attention_heads as int;
    let head = args.layer_schedule[layer].head_dim as int;
    let intermediate = args.layer_schedule[layer].intermediate_size as int;
    &&& asks_in_layer(d, from, args, layer, ".self_attn.q_proj.weight"@, seq![heads * head, hidden])
    &&& asks_in_layer(d, from, args, layer, ".self_attn.o_proj.weight"@, seq![hidden, heads * head])
    &&& asks_in_layer(d, from, args, layer, ".mlp.gate_proj.weight"@, seq![intermediate, hidden])
    &&& asks_in_layer(d, from, args, layer, ".mlp.up_proj.weight"@, seq![intermediate, hidden])
    &&& asks_in_layer(d, from, args, layer, ".mlp.down_proj.weight"@, seq![hidden, intermediate])
    &&& lists_in_layer(d, from, layer, ".input_layernorm.weight"@, seq![hidden])
    &&& lists_in_layer(d, from, layer, ".post_attention_layernorm.weight"@, seq![hidden])
    &&& lists_in_layer(d, from, layer, ".pre_feedforward_layernorm.weight"@, seq![hidden])
    &&& lists_in_layer(d, from, layer, ".post_feedforward_layernorm.weight"@, seq![hidden])
    &&& lists_in_layer(d, from, layer, ".layer_scalar"@, seq![1int])
    &&& lists_in_layer(d, from, layer, ".self_attn.q_norm.weight"@, seq![head])
}

/// Whether the keys and values of a layer are there, each with its shape: both where the layer
/// owns its state, but no values where it reuses its keys.
pub open spec fn holds_state(d: Draft, from: int, args: ModelArgs, layer: int) -> bool {
    let hidden = args.hidden_size as int;
    let policy = args.layer_schedule[layer];
    let width = policy.num_key_value_heads * policy.head_dim;
    match policy.key_value {
        AttentionStateSource::Shared { .. } => true,
        AttentionStateSource::Local { value } | AttentionStateSource::Publish { value, .. } => {
            &&& asks_in_layer(
                d,
                from,
                args,
                layer,
                ".self_attn.k_proj.weight"@,
                seq![width, hidden],
            )
            &&& lists_in_layer(
                d,
                from,
                layer,
                ".self_attn.k_norm.weight"@,
                seq![policy.head_dim as int],
            )
            &&& value is Projected ==> asks_in_layer(
                d,
                from,
                args,
                layer,
                ".self_attn.v_proj.weight"@,
                seq![width, hidden],
            )
        },
    }
}

/// Whether the per-layer inputs of a layer are there, each with its shape.
pub open spec fn holds_inputs(d: Draft, from: int, args: ModelArgs, layer: int) -> bool {
    let hidden = args.hidden_size as int;
    let width = args.hidden_size_per_layer_input as int;
    width > 0 ==> {
        &&& asks_in_layer(
            d,
            from,
            args,
            layer,
            ".per_layer_input_gate.weight"@,
            seq![width, hidden],
        )
        &&& asks_in_layer(
            d,
            from,
            args,
            layer,
            ".per_layer_projection.weight"@,
            seq![hidden, width],
        )
        &&& lists_in_layer(
            d,
            from,
            layer,
            ".post_per_layer_input_norm.weight"@,
            seq![hidden],
        )
    }
}

/// Whether the router, its norms, and the experts' down projection are there, each with its
/// shape.
pub open spec fn holds_router(d: Draft, from: int, args: ModelArgs, layer: int) -> bool {
    let hidden = args.hidden_size as int;
    let experts = args.num_experts->0 as int;
    let width = args.moe_intermediate_size->0 as int;
    let canonical = "model.layers."@ + decimal(layer as nat)
        + ".experts.switch_glu.down_proj"@;
    &&& asks_in_layer(d, from, args, layer, ".router.proj.weight"@, seq![experts, hidden])
    &&& lists_in_layer(d, from, layer, ".router.scale"@, seq![hidden])
    &&& lists_in_layer(d, from, layer, ".router.per_expert_scale"@, seq![experts])
    &&& lists_in_layer(d, from, layer, ".post_feedforward_layernorm_1.weight"@, seq![hidden])
    &&& lists_in_layer(d, from, layer, ".pre_feedforward_layernorm_2.weight"@, seq![hidden])
    &&& lists_in_layer(d, from, layer, ".post_feedforward_layernorm_2.weight"@, seq![hidden])
    &&& asks(
        d,
        from,
        "model.language_model.layers."@ + decimal(layer as nat)
            + ".experts.switch_glu.down_proj.weight"@,
        Some(canonical),
        seq![experts, hidden, width],
        MatrixFormat::Settled(args.format_of(canonical)),
    )
}

/// Whether the request at `place` is for the expert bank `local` of a layer, known by the
/// canonical name `alias`.
pub open spec fn bank_at(
    d: Draft,
    place: int,
    args: ModelArgs,
    layer: int,
    local: Seq<char>,
    alias: Seq<char>,
    sides: Seq<int>,
) -> bool {
    let canonical = "model.layers."@ + decimal(layer as nat) + alias;
    0 <= place < d.requests.len() && is_request(
        d.requests[place],
        "model.language_model.layers."@ + decimal(layer as nat) + local,
        Some(canonical),
        sides,
        MatrixFormat::Settled(args.format_of(canonical)),
    )
}

/// Whether the group `at` holds both ways to store a layer's expert gate and up projections.
pub open spec fn layouts_at(d: Draft, at: int, args: ModelArgs, layer: int) -> bool {
    let hidden = args.hidden_size as int;
    let experts = args.num_experts->0 as int;
    let width = args.moe_intermediate_size->0 as int;
    let group = d.groups[at];
    let first = group.first as int;
    let root = "model.language_model.layers."@ + decimal(layer as nat);
    &&& group.id == "model.layers."@ + decimal(layer as nat) + ".experts.switch_glu"@
        + " gate/up storage"@
    &&& group.gate == root + ".experts.switch_glu.gate_proj.weight"@
    &&& group.up == root + ".experts.switch_glu.up_proj.weight"@
    &&& group.fused == root + ".experts.switch_glu.gate_up_proj.weight"@
    &&& bank_at(
        d,
        first,
        args,
        layer,
        ".experts.switch_glu.gate_proj.weight"@,
        ".experts.switch_glu.gate_proj.weight"@,
        seq![experts, width, hidden],
    )
    &&& bank_at(
        d,
        first + 1,
        args,
        layer,
        ".experts.switch_glu.up_proj.weight"@,
        ".experts.switch_glu.up_proj.weight"@,
        seq![experts, width, hidden],
    )
    &&& bank_at(
        d,
        first + 2,
        args,
        layer,
        ".experts.switch_glu.gate_up_proj.weight"@,
        ".experts.switch_glu.gate_up_proj"@,
        seq![experts, 2 * width, hidden],
    )
}

/// Whether everything of a layer is there.
pub open spec fn holds_layer(
    d: Draft,
    from: int,
    groups: int,
    args: ModelArgs,
    layer: int,
) -> bool {
    &&& holds_dense(d, from, args, layer)
    &&& holds_state(d, from, args, layer)
    &&& holds_inputs(d, from, args, layer)
    &&& is_routed(args, layer) ==> {
        &&& holds_router(d, from, args, layer)
        &&& exists|at: int| groups <= at < d.groups.len() && #[trigger] layouts_at(
            d,
            at,
            args,
            layer,
        )
    }
}

/// Whether a layer routes to experts.
pub open spec fn is_routed(args: ModelArgs, layer: int) -> bool {
    args.layer_schedule[layer].feed_forward is DenseWithSparseMoe
}

proof fn lemma_names_differ(layer: int, released: Seq<char>, canonical: Seq<char>)
    ensures
        released_layer(layer) + released != canonical_layer(layer) + canonical,
{
    reveal_strlit("model.language_model.layers.");
    reveal_strlit("model.layers.");
    assert((released_layer(layer) + released)[8] == 'n');
    assert((canonical_layer(layer) + canonical)[8] == 'y');
}

proof fn lemma_asked(
    d: Draft,
    from: int,
    at: int,
    args: ModelArgs,
    layer: int,
    local: Seq<char>,
    shape: Seq<usize>,
    sides: Seq<int>,
)
    requires
        from <= at < d.common.len(),
        d.common[at] matches Entry::Matrix(place) && place < d.requests.len()
            && d.requests[place as int] == text_request(
            args,
            released_layer(layer) + local,
            canonical_layer(layer) + local,
            shape,
        ),
        has_sides(shape, sides),
    ensures
        asks_in_layer(d, from, args, layer, local, sides),
{
    lemma_names_differ(layer, local, local);
    let canonical = canonical_layer(layer) + local;
    assert(matrix_at(
        d,
        at,
        released_layer(layer) + local,
        Some(canonical),
        sides,
        MatrixFormat::Settled(args.format_of(canonical)),
    ));
}

proof fn lemma_listed(
    d: Draft,
    from: int,
    at: int,
    layer: int,
    local: Seq<char>,
    shape: Seq<usize>,
    sides: Seq<int>,
)
    requires
        from <= at < d.common.len(),
        d.common[at] == Entry::Plain(
            aliased_tensor(released_layer(layer) + local, canonical_layer(layer) + local, shape),
        ),
        has_sides(shape, sides),
    ensures
        lists_in_layer(d, from, layer, local, sides),
{
    lemma_names_differ(layer, local, local);
    assert(tensor_at(
        d,
        at,
        released_layer(layer) + local,
        seq![canonical_layer(layer) + local],
        sides,
    ));
}

pub(crate) proof fn lemma_width(left: int, right: int)
    requires
        left >= 0,
        right >= 0,
    ensures
        left * right >= 0,
{
    assert(left * right >= 0) by (nonlinear_arith)
        requires
            left >= 0,
            right >= 0,
    ;
}

#[verifier::rlimit(50)]
proof fn lemma_dense(d: Draft, args: ModelArgs, layer: int)
    requires
        args.hidden_size > 0,
        attention_fault(args, layer) is None,
    ensures
        holds_dense(dense_part(d, args, layer), d.common.len() as int, args, layer),
        dense_part(d, args, layer).common.len() == d.common.len() + 11,
        dense_part(d, args, layer).requests.len() == d.requests.len() + 5,
{
    let hidden = args.hidden_size as int;
    let heads = args.num_attention_heads as int;
    let head = args.layer_schedule[layer].head_dim as int;
    let intermediate = args.layer_schedule[layer].intermediate_size as int;
    lemma_width(heads, head);
    let hid = hidden as usize;
    let hd = head as usize;
    let inter = intermediate as usize;
    let query = (heads * head) as usize;
    let after = dense_part(d, args, layer);
    let from = d.common.len() as int;
    lemma_asked(
        after,
        from,
        from + 5,
        args,
        layer,
        ".self_attn.q_proj.weight"@,
        seq![query, hid],
        seq![heads * head, hidden],
    );
    lemma_asked(
        after,
        from,
        from + 6,
        args,
        layer,
        ".self_attn.o_proj.weight"@,
        seq![hid, query],
        seq![hidden, heads * head],
    );
    lemma_asked(
        after,
        from,
        from + 7,
        args,
        layer,
        ".mlp.gate_proj.weight"@,
        seq![inter, hid],
        seq![intermediate, hidden],
    );
    lemma_asked(
        after,
        from,
        from + 8,
        args,
        layer,
        ".mlp.up_proj.weight"@,
        seq![inter, hid],
        seq![intermediate, hidden],
    );
    lemma_asked(
        after,
        from,
        from + 9,
        args,
        layer,
        ".mlp.down_proj.weight"@,
        seq![hid, inter],
        seq![hidden, intermediate],
    );
    lemma_listed(after, from, from, layer, ".input_layernorm.weight"@, seq![hid], seq![hidden]);
    lemma_listed(
        after,
        from,
        from + 1,
        layer,
        ".post_attention_layernorm.weight"@,
        seq![hid],
        seq![hidden],
    );
    lemma_listed(
        after,
        from,
        from + 2,
        layer,
        ".pre_feedforward_layernorm.weight"@,
        seq![hid],
        seq![hidden],
    );
    lemma_listed(
        after,
        from,
        from + 3,
        layer,
        ".post_feedforward_layernorm.weight"@,
        seq![hid],
        seq![hidden],
    );
    lemma_listed(after, from, from + 4, layer, ".layer_scalar"@, seq![1usize], seq![1int]);
    lemma_listed(after, from, from + 10, layer, ".self_attn.q_norm.weight"@, seq![hd], seq![head]);
}

proof fn lemma_state(d: Draft, args: ModelArgs, layer: int)
    requires
        args.hidden_size > 0,
        attention_fault(args, layer) is None,
    ensures
        holds_state(state_part(d, args, layer), d.common.len() as int, args, layer),
{
    let hidden = args.hidden_size as int;
    let policy = args.layer_schedule[layer];
    let width = policy.num_key_value_heads * policy.head_dim;
    lemma_width(policy.num_key_value_heads as int, policy.head_dim as int);
    let after = state_part(d, args, layer);
    let from = d.common.len() as int;
    if !(policy.key_value is Shared) {
        let shape = seq![width as usize, hidden as usize];
        lemma_asked(
            after,
            from,
            from,
            args,
            layer,
            ".self_attn.k_proj.weight"@,
            shape,
            seq![width, hidden],
        );
        lemma_listed(
            after,
            from,
            from + 1,
            layer,
            ".self_attn.k_norm.weight"@,
            seq![policy.head_dim as usize],
            seq![policy.head_dim as int],
        );
        if policy.key_value.value_spec() != Some(AttentionValueSource::ReuseKey) {
            lemma_asked(
                after,
                from,
                from + 2,
                args,
                layer,
                ".self_attn.v_proj.weight"@,
                shape,
                seq![width, hidden],
            );
        }
    }
}

proof fn lemma_inputs(d: Draft, args: ModelArgs, layer: int)
    requires
        args.hidden_size > 0,
    ensures
        holds_inputs(input_part(d, args, layer), d.common.len() as int, args, layer),
{
    let hidden = args.hidden_size as int;
    let width = args.hidden_size_per_layer_input as int;
    let after = input_part(d, args, layer);
    let from = d.common.len() as int;
    if width > 0 {
        lemma_asked(
            after,
            from,
            from,
            args,
            layer,
            ".per_layer_input_gate.weight"@,
            seq![width as usize, hidden as usize],
            seq![width, hidden],
        );
        lemma_asked(
            after,
            from,
            from + 1,
            args,
            layer,
            ".per_layer_projection.weight"@,
            seq![hidden as usize, width as usize],
            seq![hidden, width],
        );
        lemma_listed(
            after,
            from,
            from + 2,
            layer,
            ".post_per_layer_input_norm.weight"@,
            seq![hidden as usize],
            seq![hidden],
        );
    }
}

proof fn lemma_bank(
    d: Draft,
    place: int,
    args: ModelArgs,
    layer: int,
    local: Seq<char>,
    alias: Seq<char>,
    shape: Seq<usize>,
    sides: Seq<int>,
)
    requires
        0 <= place < d.requests.len(),
        d.requests[place] == text_request(
            args,
            released_layer(layer) + local,
            canonical_layer(layer) + alias,
            shape,
        ),
        has_sides(shape, sides),
    ensures
        bank_at(d, place, args, layer, local, alias, sides),
{
    lemma_names_differ(layer, local, alias);
}

proof fn lemma_joined(root: Seq<char>)
    ensures
        root + ".experts.switch_glu"@ + ".gate_proj.weight"@ == root
            + ".experts.switch_glu.gate_proj.weight"@,
        root + ".experts.switch_glu"@ + ".up_proj.weight"@ == root
            + ".experts.switch_glu.up_proj.weight"@,
        root + ".experts.switch_glu"@ + ".gate_up_proj.weight"@ == root
            + ".experts.switch_glu.gate_up_proj.weight"@,
        root + ".experts.switch_glu"@ + ".gate_up_proj"@ == root
            + ".experts.switch_glu.gate_up_proj"@,
        root + ".experts.switch_glu"@ + ".down_proj.weight"@ == root
            + ".experts.switch_glu.down_proj.weight"@,
        root + ".experts.switch_glu"@ + ".down_proj"@ == root + ".experts.switch_glu.down_proj"@,
{
    reveal_strlit(".experts.switch_glu");
    reveal_strlit(".gate_proj.weight");
    reveal_strlit(".up_proj.weight");
    reveal_strlit(".gate_up_proj.weight");
    reveal_strlit(".gate_up_proj");
    reveal_strlit(".down_proj.weight");
    reveal_strlit(".down_proj");
    reveal_strlit(".experts.switch_glu.gate_proj.weight");
    reveal_strlit(".experts.switch_glu.up_proj.weight");
    reveal_strlit(".experts.switch_glu.gate_up_proj.weight");
    reveal_strlit(".experts.switch_glu.gate_up_proj");
    reveal_strlit(".experts.switch_glu.down_proj.weight");
    reveal_strlit(".experts.switch_glu.down_proj");
    assert(".experts.switch_glu"@ + ".gate_proj.weight"@
        =~= ".experts.switch_glu.gate_proj.weight"@);
    assert(".experts.switch_glu"@ + ".up_proj.weight"@ =~= ".experts.switch_glu.up_proj.weight"@);
    assert(".experts.switch_glu"@ + ".gate_up_proj.weight"@
        =~= ".experts.switch_glu.gate_up_proj.weight"@);
    assert(".experts.switch_glu"@ + ".gate_up_proj"@ =~= ".experts.switch_glu.gate_up_proj"@);
    assert(".experts.switch_glu"@ + ".down_proj.weight"@
        =~= ".experts.switch_glu.down_proj.weight"@);
    assert(".experts.switch_glu"@ + ".down_proj"@ =~= ".experts.switch_glu.down_proj"@);
    lemma_split(root, ".experts.switch_glu"@, ".gate_proj.weight"@);
    lemma_split(root, ".experts.switch_glu"@, ".up_proj.weight"@);
    lemma_split(root, ".experts.switch_glu"@, ".gate_up_proj.weight"@);
    lemma_split(root, ".experts.switch_glu"@, ".gate_up_proj"@);
    lemma_split(root, ".experts.switch_glu"@, ".down_proj.weight"@);
    lemma_split(root, ".experts.switch_glu"@, ".down_proj"@);
}

proof fn lemma_split(first: Seq<char>, second: Seq<char>, third: Seq<char>)
    ensures
        first + second + third == first + (second + third),
{
    assert(first + second + third =~= first + (second + third));
}

#[verifier::rlimit(50)]
proof fn lemma_experts(d: Draft, args: ModelArgs, layer: int)
    requires
        args.hidden_size > 0,
        expert_fault(args) is None,
        bank_part(router_part(d, args, layer), args, layer).failure is None,
    ensures
        ({
            let after = bank_part(router_part(d, args, layer), args, layer);
            &&& holds_router(after, d.common.len() as int, args, layer)
            &&& layouts_at(after, d.groups.len() as int, args, layer)
            &&& after.groups.len() == d.groups.len() + 1
            &&& after.common.len() == d.common.len() + 7
            &&& after.requests.len() == d.requests.len() + 5
        }),
{
    let hidden = args.hidden_size as int;
    let experts = args.num_experts->0 as int;
    let width = args.moe_intermediate_size->0 as int;
    let routed = router_part(d, args, layer);
    let after = bank_part(routed, args, layer);
    let from = d.common.len() as int;
    let first = routed.requests.len() as int;
    lemma_joined(released_layer(layer));
    lemma_joined(canonical_layer(layer));
    lemma_asked(
        after,
        from,
        from,
        args,
        layer,
        ".router.proj.weight"@,
        seq![experts as usize, hidden as usize],
        seq![experts, hidden],
    );
    lemma_listed(
        after,
        from,
        from + 1,
        layer,
        ".router.scale"@,
        seq![hidden as usize],
        seq![hidden],
    );
    lemma_listed(
        after,
        from,
        from + 2,
        layer,
        ".router.per_expert_scale"@,
        seq![experts as usize],
        seq![experts],
    );
    lemma_listed(
        after,
        from,
        from + 3,
        layer,
        ".post_feedforward_layernorm_1.weight"@,
        seq![hidden as usize],
        seq![hidden],
    );
    lemma_listed(
        after,
        from,
        from + 4,
        layer,
        ".pre_feedforward_layernorm_2.weight"@,
        seq![hidden as usize],
        seq![hidden],
    );
    lemma_listed(
        after,
        from,
        from + 5,
        layer,
        ".post_feedforward_layernorm_2.weight"@,
        seq![hidden as usize],
        seq![hidden],
    );
    lemma_bank(
        after,
        first,
        args,
        layer,
        ".experts.switch_glu.gate_proj.weight"@,
        ".experts.switch_glu.gate_proj.weight"@,
        seq![experts as usize, width as usize, hidden as usize],
        seq![experts, width, hidden],
    );
    lemma_bank(
        after,
        first + 1,
        args,
        layer,
        ".experts.switch_glu.up_proj.weight"@,
        ".experts.switch_glu.up_proj.weight"@,
        seq![experts as usize, width as usize, hidden as usize],
        seq![experts, width, hidden],
    );
    lemma_bank(
        after,
        first + 2,
        args,
        layer,
        ".experts.switch_glu.gate_up_proj.weight"@,
        ".experts.switch_glu.gate_up_proj"@,
        seq![experts as usize, (2 * width) as usize, hidden as usize],
        seq![experts, 2 * width, hidden],
    );
    lemma_names_differ(
        layer,
        ".experts.switch_glu.down_proj.weight"@,
        ".experts.switch_glu.down_proj"@,
    );
    let canonical = canonical_layer(layer) + ".experts.switch_glu.down_proj"@;
    assert(matrix_at(
        after,
        from + 6,
        released_layer(layer) + ".experts.switch_glu.down_proj.weight"@,
        Some(canonical),
        seq![experts, hidden, width],
        MatrixFormat::Settled(args.format_of(canonical)),
    ));
}

pub(crate) proof fn lemma_ask_kept(
    before: Draft,
    after: Draft,
    from: int,
    key: Seq<char>,
    alias: Option<Seq<char>>,
    sides: Seq<int>,
    format: MatrixFormat,
)
    requires
        extends(before, after),
        from >= 0,
        asks(before, from, key, alias, sides, format),
    ensures
        forall|earlier: int|
            earlier <= from ==> #[trigger] asks(after, earlier, key, alias, sides, format),
{
    let at = choose|at: int|
        from <= at < before.common.len() && #[trigger] matrix_at(
            before,
            at,
            key,
            alias,
            sides,
            format,
        );
    assert(after.common[at] == before.common[at]);
    let place = before.common[at]->Matrix_0 as int;
    assert(after.requests[place] == before.requests[place]);
    assert(matrix_at(after, at, key, alias, sides, format));
}

pub(crate) proof fn lemma_list_kept(
    before: Draft,
    after: Draft,
    from: int,
    key: Seq<char>,
    aliases: Seq<Seq<char>>,
    sides: Seq<int>,
)
    requires
        extends(before, after),
        from >= 0,
        lists(before, from, key, aliases, sides),
    ensures
        forall|earlier: int|
            earlier <= from ==> #[trigger] lists(after, earlier, key, aliases, sides),
{
    let at = choose|at: int|
        from <= at < before.common.len() && #[trigger] tensor_at(before, at, key, aliases, sides);
    assert(after.common[at] == before.common[at]);
    assert(tensor_at(after, at, key, aliases, sides));
}

proof fn lemma_layer_ask_kept(
    before: Draft,
    after: Draft,
    from: int,
    args: ModelArgs,
    layer: int,
    local: Seq<char>,
    sides: Seq<int>,
)
    requires
        extends(before, after),
        from >= 0,
        asks_in_layer(before, from, args, layer, local, sides),
    ensures
        forall|earlier: int|
            earlier <= from ==> #[trigger] asks_in_layer(
                after,
                earlier,
                args,
                layer,
                local,
                sides,
            ),
{
    let canonical = "model.layers."@ + decimal(layer as nat) + local;
    lemma_ask_kept(
        before,
        after,
        from,
        "model.language_model.layers."@ + decimal(layer as nat) + local,
        Some(canonical),
        sides,
        MatrixFormat::Settled(args.format_of(canonical)),
    );
}

proof fn lemma_layer_list_kept(
    before: Draft,
    after: Draft,
    from: int,
    layer: int,
    local: Seq<char>,
    sides: Seq<int>,
)
    requires
        extends(before, after),
        from >= 0,
        lists_in_layer(before, from, layer, local, sides),
    ensures
        forall|earlier: int|
            earlier <= from ==> #[trigger] lists_in_layer(after, earlier, layer, local, sides),
{
    lemma_list_kept(
        before,
        after,
        from,
        "model.language_model.layers."@ + decimal(layer as nat) + local,
        seq!["model.layers."@ + decimal(layer as nat) + local],
        sides,
    );
}

proof fn lemma_dense_kept(
    before: Draft,
    after: Draft,
    from: int,
    earlier: int,
    args: ModelArgs,
    layer: int,
)
    requires
        extends(before, after),
        0 <= earlier <= from,
        holds_dense(before, from, args, layer),
    ensures
        holds_dense(after, earlier, args, layer),
{
    let hidden = args.hidden_size as int;
    let heads = args.num_attention_heads as int;
    let head = args.layer_schedule[layer].head_dim as int;
    let intermediate = args.layer_schedule[layer].intermediate_size as int;
    lemma_layer_ask_kept(
        before,
        after,
        from,
        args,
        layer,
        ".self_attn.q_proj.weight"@,
        seq![heads * head, hidden],
    );
    lemma_layer_ask_kept(
        before,
        after,
        from,
        args,
        layer,
        ".self_attn.o_proj.weight"@,
        seq![hidden, heads * head],
    );
    lemma_layer_ask_kept(
        before,
        after,
        from,
        args,
        layer,
        ".mlp.gate_proj.weight"@,
        seq![intermediate, hidden],
    );
    lemma_layer_ask_kept(
        before,
        after,
        from,
        args,
        layer,
        ".mlp.up_proj.weight"@,
        seq![intermediate, hidden],
    );
    lemma_layer_ask_kept(
        before,
        after,
        from,
        args,
        layer,
        ".mlp.down_proj.weight"@,
        seq![hidden, intermediate],
    );
    lemma_layer_list_kept(before, after, from, layer, ".input_layernorm.weight"@, seq![hidden]);
    lemma_layer_list_kept(
        before,
        after,
        from,
        layer,
        ".post_attention_layernorm.weight"@,
        seq![hidden],
    );
    lemma_layer_list_kept(
        before,
        after,
        from,
        layer,
        ".pre_feedforward_layernorm.weight"@,
        seq![hidden],
    );
    lemma_layer_list_kept(
        before,
        after,
        from,
        layer,
        ".post_feedforward_layernorm.weight"@,
        seq![hidden],
    );
    lemma_layer_list_kept(before, after, from, layer, ".layer_scalar"@, seq![1int]);
    lemma_layer_list_kept(before, after, from, layer, ".self_attn.q_norm.weight"@, seq![head]);
}

proof fn lemma_state_kept(
    before: Draft,
    after: Draft,
    from: int,
    earlier: int,
    args: ModelArgs,
    layer: int,
)
    requires
        extends(before, after),
        0 <= earlier <= from,
        holds_state(before, from, args, layer),
    ensures
        holds_state(after, earlier, args, layer),
{
    let hidden = args.hidden_size as int;
    let policy = args.layer_schedule[layer];
    let width = policy.num_key_value_heads * policy.head_dim;
    if !(policy.key_value is Shared) {
        lemma_layer_ask_kept(
            before,
            after,
            from,
            args,
            layer,
            ".self_attn.k_proj.weight"@,
            seq![width, hidden],
        );
        lemma_layer_list_kept(
            before,
            after,
            from,
            layer,
            ".self_attn.k_norm.weight"@,
            seq![policy.head_dim as int],
        );
        if policy.key_value.value_spec() != Some(AttentionValueSource::ReuseKey) {
            lemma_layer_ask_kept(
                before,
                after,
                from,
                args,
                layer,
                ".self_attn.v_proj.weight"@,
                seq![width, hidden],
            );
        }
    }
}

proof fn lemma_inputs_kept(
    before: Draft,
    after: Draft,
    from: int,
    earlier: int,
    args: ModelArgs,
    layer: int,
)
    requires
        extends(before, after),
        0 <= earlier <= from,
        holds_inputs(before, from, args, layer),
    ensures
        holds_inputs(after, earlier, args, layer),
{
    let hidden = args.hidden_size as int;
    let width = args.hidden_size_per_layer_input as int;
    if width > 0 {
        lemma_layer_ask_kept(
            before,
            after,
            from,
            args,
            layer,
            ".per_layer_input_gate.weight"@,
            seq![width, hidden],
        );
        lemma_layer_ask_kept(
            before,
            after,
            from,
            args,
            layer,
            ".per_layer_projection.weight"@,
            seq![hidden, width],
        );
        lemma_layer_list_kept(
            before,
            after,
            from,
            layer,
            ".post_per_layer_input_norm.weight"@,
            seq![hidden],
        );
    }
}

proof fn lemma_router_kept(
    before: Draft,
    after: Draft,
    from: int,
    earlier: int,
    args: ModelArgs,
    layer: int,
)
    requires
        extends(before, after),
        0 <= earlier <= from,
        holds_router(before, from, args, layer),
    ensures
        holds_router(after, earlier, args, layer),
{
    let hidden = args.hidden_size as int;
    let experts = args.num_experts->0 as int;
    let width = args.moe_intermediate_size->0 as int;
    let canonical = "model.layers."@ + decimal(layer as nat)
        + ".experts.switch_glu.down_proj"@;
    lemma_layer_ask_kept(
        before,
        after,
        from,
        args,
        layer,
        ".router.proj.weight"@,
        seq![experts, hidden],
    );
    lemma_layer_list_kept(before, after, from, layer, ".router.scale"@, seq![hidden]);
    lemma_layer_list_kept(before, after, from, layer, ".router.per_expert_scale"@, seq![experts]);
    lemma_layer_list_kept(
        before,
        after,
        from,
        layer,
        ".post_feedforward_layernorm_1.weight"@,
        seq![hidden],
    );
    lemma_layer_list_kept(
        before,
        after,
        from,
        layer,
        ".pre_feedforward_layernorm_2.weight"@,
        seq![hidden],
    );
    lemma_layer_list_kept(
        before,
        after,
        from,
        layer,
        ".post_feedforward_layernorm_2.weight"@,
        seq![hidden],
    );
    lemma_ask_kept(
        before,
        after,
        from,
        "model.language_model.layers."@ + decimal(layer as nat)
            + ".experts.switch_glu.down_proj.weight"@,
        Some(canonical),
        seq![experts, hidden, width],
        MatrixFormat::Settled(args.format_of(canonical)),
    );
}

pub(crate) proof fn lemma_layer_kept(
    before: Draft,
    after: Draft,
    from: int,
    groups: int,
    args: ModelArgs,
    layer: int,
)
    requires
        extends(before, after),
        from >= 0,
        groups >= 0,
        holds_layer(before, from, groups, args, layer),
    ensures
        holds_layer(after, 0, 0, args, layer),
{
    lemma_dense_kept(before, after, from, 0, args, layer);
    lemma_state_kept(before, after, from, 0, args, layer);
    lemma_inputs_kept(before, after, from, 0, args, layer);
    if is_routed(args, layer) {
        lemma_router_kept(before, after, from, 0, args, layer);
        let at = choose|at: int| groups <= at < before.groups.len() && #[trigger] layouts_at(
            before,
            at,
            args,
            layer,
        );
        let first = before.groups[at].first as int;
        assert(after.groups[at] == before.groups[at]);
        assert(after.requests[first] == before.requests[first]);
        assert(after.requests[first + 1] == before.requests[first + 1]);
        assert(after.requests[first + 2] == before.requests[first + 2]);
        assert(layouts_at(after, at, args, layer));
    }
}

/// A decoder layer adds each of its matrices and norms, under its own name and with the shape
/// that makes the matrices compose, and nothing else.
#[verifier::rlimit(50)]
pub proof fn law_layers_hold_their_matrices(d: Draft, args: ModelArgs, layer: int)
    requires
        0 <= layer < args.layer_schedule.len(),
        args.hidden_size > 0,
        text_layer(d, args, layer).failure is None,
    ensures
        ({
            let after = text_layer(d, args, layer);
            let source = args.layer_schedule[layer].key_value;
            let state: int = match source {
                AttentionStateSource::Shared { .. } => 0,
                AttentionStateSource::Local { value } | AttentionStateSource::Publish { value, .. }
                    => if value is Projected {
                    2
                } else {
                    1
                },
            };
            let inputs: int = if args.hidden_size_per_layer_input > 0 {
                2
            } else {
                0
            };
            let routed = is_routed(args, layer);
            &&& holds_layer(
                after,
                d.common.len() as int,
                d.groups.len() as int,
                args,
                layer,
            )
            &&& after.requests.len() == d.requests.len() + 5 + state + inputs + if routed {
                5int
            } else {
                0
            }
            &&& after.common.len() == d.common.len() + 11 + state + if state > 0 {
                1int
            } else {
                0
            } + inputs + inputs / 2 + if routed {
                7int
            } else {
                0
            }
            &&& after.groups.len() == d.groups.len() + if routed {
                1int
            } else {
                0
            }
        }),
{
    let dense = dense_part(d, args, layer);
    let state = state_part(dense, args, layer);
    let inputs = input_part(state, args, layer);
    let after = text_layer(d, args, layer);
    lemma_dense(d, args, layer);
    lemma_state(dense, args, layer);
    lemma_inputs(state, args, layer);
    lemma_dense_extends(d, args, layer);
    lemma_state_extends(dense, args, layer);
    lemma_input_extends(state, args, layer);
    if is_routed(args, layer) {
        let router = router_part(inputs, args, layer);
        lemma_experts(inputs, args, layer);
        lemma_router_extends(inputs, args, layer);
        lemma_bank_extends(router, args, layer);
        lemma_extends(inputs, router, after);
    }
    lemma_layer_joined(d, dense, state, inputs, after, args, layer);
}

proof fn lemma_layer_joined(
    d: Draft,
    dense: Draft,
    state: Draft,
    inputs: Draft,
    after: Draft,
    args: ModelArgs,
    layer: int,
)
    requires
        extends(d, dense),
        extends(dense, state),
        extends(state, inputs),
        extends(inputs, after),
        holds_dense(dense, d.common.len() as int, args, layer),
        holds_state(state, dense.common.len() as int, args, layer),
        holds_inputs(inputs, state.common.len() as int, args, layer),
        is_routed(args, layer) ==> {
            &&& holds_router(after, inputs.common.len() as int, args, layer)
            &&& layouts_at(after, d.groups.len() as int, args, layer)
            &&& after.groups.len() == d.groups.len() + 1
        },
    ensures
        holds_layer(after, d.common.len() as int, d.groups.len() as int, args, layer),
{
    let from = d.common.len() as int;
    lemma_extends(dense, state, inputs);
    lemma_extends(dense, inputs, after);
    lemma_extends(state, inputs, after);
    lemma_dense_kept(dense, after, from, from, args, layer);
    lemma_state_kept(state, after, dense.common.len() as int, from, args, layer);
    lemma_inputs_kept(inputs, after, state.common.len() as int, from, args, layer);
    if is_routed(args, layer) {
        lemma_router_kept(after, after, inputs.common.len() as int, from, args, layer);
        assert(layouts_at(after, d.groups.len() as int, args, layer));
    }
}

proof fn lemma_earlier_layer(d: Draft, args: ModelArgs, layer: int, layers: int)
    requires
        0 <= layer < layers <= args.layer_schedule.len(),
        text_layers(d, args, layers).failure is None,
    ensures
        text_layers(d, args, layer + 1).failure is None,
        text_layers(d, args, layer + 1) == text_layer(text_layers(d, args, layer), args, layer),
        extends(text_layers(d, args, layer + 1), text_layers(d, args, layers)),
    decreases layers,
{
    let earlier = text_layers(d, args, layers - 1);
    if earlier.failure is Some {
        assert(text_layers(d, args, layers) == earlier);
    }
    if layer + 1 < layers {
        lemma_earlier_layer(d, args, layer, layers - 1);
        law_layers_extend_the_catalog(earlier, args, layers - 1);
        lemma_extends(
            text_layers(d, args, layer + 1),
            earlier,
            text_layers(d, args, layers),
        );
    }
}

/// A complete decoder catalog holds every matrix and norm of every layer, under its own name and
/// with the shape that makes the matrices compose.
pub proof fn law_decoders_hold_every_layer(args: ModelArgs, layer: int)
    requires
        0 <= layer < args.layer_schedule.len(),
        text_draft(args).failure is None,
    ensures
        holds_layer(text_draft(args), 0, 0, args, layer),
{
    let tables = if args.hidden_size_per_layer_input > 0 {
        per_layer_part(table_part(args), args)
    } else {
        table_part(args)
    };
    let layers = args.layer_schedule.len() as int;
    lemma_earlier_layer(tables, args, layer, layers);
    let before = text_layers(tables, args, layer);
    let after = text_layers(tables, args, layer + 1);
    law_layers_hold_their_matrices(before, args, layer);
    lemma_layer_kept(
        after,
        text_draft(args),
        before.common.len() as int,
        before.groups.len() as int,
        args,
        layer,
    );
}

proof fn lemma_layers_extend(d: Draft, args: ModelArgs, layers: int)
    requires
        0 <= layers <= args.layer_schedule.len(),
    ensures
        extends(d, text_layers(d, args, layers)),
    decreases layers,
{
    if layers > 0 {
        let earlier = text_layers(d, args, layers - 1);
        lemma_layers_extend(d, args, layers - 1);
        law_layers_extend_the_catalog(earlier, args, layers - 1);
        lemma_extends(d, earlier, text_layers(d, args, layers));
    }
}

/// Whether the token tables and final norm are there, an output table where it is not tied, and
/// the per-layer tables where they have a width, each with its shape.
pub open spec fn holds_tables(d: Draft, args: ModelArgs) -> bool {
    let hidden = args.hidden_size as int;
    let vocabulary = args.vocab_size as int;
    let media = args.hidden_size_per_layer_input as int;
    let combined = args.layer_schedule.len() * media;
    let entries = match args.vocab_size_per_layer_input {
        Some(entries) => entries as int,
        None => vocabulary,
    };
    &&& asks(
        d,
        0,
        "model.language_model.embed_tokens.weight"@,
        Some("model.embed_tokens.weight"@),
        seq![vocabulary, hidden],
        MatrixFormat::Settled(args.format_of("model.embed_tokens.weight"@)),
    )
    &&& lists(
        d,
        0,
        "model.language_model.norm.weight"@,
        seq!["model.norm.weight"@],
        seq![hidden],
    )
    &&& !args.tie_word_embeddings ==> asks(
        d,
        0,
        "lm_head.weight"@,
        None,
        seq![vocabulary, hidden],
        MatrixFormat::Settled(args.format_of("lm_head.weight"@)),
    )
    &&& media > 0 ==> {
        &&& asks(
            d,
            0,
            "model.language_model.embed_tokens_per_layer.weight"@,
            Some("model.embed_tokens_per_layer.weight"@),
            seq![entries, combined],
            MatrixFormat::Settled(args.format_of("model.embed_tokens_per_layer.weight"@)),
        )
        &&& asks(
            d,
            0,
            "model.language_model.per_layer_model_projection.weight"@,
            Some("model.per_layer_model_projection.weight"@),
            seq![combined, hidden],
            MatrixFormat::Settled(args.format_of("model.per_layer_model_projection.weight"@)),
        )
        &&& lists(
            d,
            0,
            "model.language_model.per_layer_projection_norm.weight"@,
            seq!["model.per_layer_projection_norm.weight"@],
            seq![media],
        )
    }
}

proof fn lemma_table_names()
    ensures
        "model.language_model.embed_tokens.weight"@ != "model.embed_tokens.weight"@,
        "model.language_model.norm.weight"@ != "model.norm.weight"@,
        "model.language_model.embed_tokens_per_layer.weight"@
            != "model.embed_tokens_per_layer.weight"@,
        "model.language_model.per_layer_model_projection.weight"@
            != "model.per_layer_model_projection.weight"@,
        "model.language_model.per_layer_projection_norm.weight"@
            != "model.per_layer_projection_norm.weight"@,
{
    reveal_strlit("model.language_model.embed_tokens.weight");
    reveal_strlit("model.language_model.norm.weight");
    reveal_strlit("model.language_model.embed_tokens_per_layer.weight");
    reveal_strlit("model.language_model.per_layer_model_projection.weight");
    reveal_strlit("model.language_model.per_layer_projection_norm.weight");
    reveal_strlit("model.embed_tokens.weight");
    reveal_strlit("model.norm.weight");
    reveal_strlit("model.embed_tokens_per_layer.weight");
    reveal_strlit("model.per_layer_model_projection.weight");
    reveal_strlit("model.per_layer_projection_norm.weight");
    assert("model.language_model.embed_tokens.weight"@[6] == 'l');
    assert("model.embed_tokens.weight"@[6] == 'e');
    assert("model.language_model.norm.weight"@[6] == 'l');
    assert("model.norm.weight"@[6] == 'n');
    assert("model.language_model.embed_tokens_per_layer.weight"@[6] == 'l');
    assert("model.embed_tokens_per_layer.weight"@[6] == 'e');
    assert("model.language_model.per_layer_model_projection.weight"@[6] == 'l');
    assert("model.per_layer_model_projection.weight"@[6] == 'p');
    assert("model.language_model.per_layer_projection_norm.weight"@[6] == 'l');
    assert("model.per_layer_projection_norm.weight"@[6] == 'p');
}

proof fn lemma_tables(args: ModelArgs)
    requires
        text_draft(args).failure is None,
    ensures
        ({
            let tables = if args.hidden_size_per_layer_input > 0 {
                per_layer_part(table_part(args), args)
            } else {
                table_part(args)
            };
            &&& holds_tables(tables, args)
            &&& tables.requests.len() == 1 + if args.tie_word_embeddings {
                0int
            } else {
                1
            } + if args.hidden_size_per_layer_input > 0 {
                2int
            } else {
                0
            }
            &&& tables.common.len() == tables.requests.len() + 1
                + if args.hidden_size_per_layer_input > 0 {
                1int
            } else {
                0
            }
            &&& tables.groups.len() == 0
        }),
{
    let hidden = args.hidden_size as int;
    let vocabulary = args.vocab_size as int;
    let media = args.hidden_size_per_layer_input as int;
    let combined = args.layer_schedule.len() * media;
    let entries = match args.vocab_size_per_layer_input {
        Some(entries) => entries as int,
        None => vocabulary,
    };
    lemma_table_names();
    let tables = if media > 0 {
        per_layer_part(table_part(args), args)
    } else {
        table_part(args)
    };
    assert(matrix_at(
        tables,
        0,
        "model.language_model.embed_tokens.weight"@,
        Some("model.embed_tokens.weight"@),
        seq![vocabulary, hidden],
        MatrixFormat::Settled(args.format_of("model.embed_tokens.weight"@)),
    ));
    assert(tensor_at(
        tables,
        1,
        "model.language_model.norm.weight"@,
        seq!["model.norm.weight"@],
        seq![hidden],
    ));
    let next: int = if args.tie_word_embeddings {
        2
    } else {
        3
    };
    if !args.tie_word_embeddings {
        assert(matrix_at(
            tables,
            2,
            "lm_head.weight"@,
            None,
            seq![vocabulary, hidden],
            MatrixFormat::Settled(args.format_of("lm_head.weight"@)),
        ));
    }
    if media > 0 {
        lemma_width(args.layer_schedule.len() as int, media);
        assert(matrix_at(
            tables,
            next,
            "model.language_model.embed_tokens_per_layer.weight"@,
            Some("model.embed_tokens_per_layer.weight"@),
            seq![entries, combined],
            MatrixFormat::Settled(args.format_of("model.embed_tokens_per_layer.weight"@)),
        ));
        assert(matrix_at(
            tables,
            next + 1,
            "model.language_model.per_layer_model_projection.weight"@,
            Some("model.per_layer_model_projection.weight"@),
            seq![combined, hidden],
            MatrixFormat::Settled(args.format_of("model.per_layer_model_projection.weight"@)),
        ));
        assert(tensor_at(
            tables,
            next + 2,
            "model.language_model.per_layer_projection_norm.weight"@,
            seq!["model.per_layer_projection_norm.weight"@],
            seq![media],
        ));
    }
}

/// A complete decoder catalog holds its tables, each with its shape, and nothing else outside
/// the layers.
pub proof fn law_decoders_hold_their_tables(args: ModelArgs)
    requires
        text_draft(args).failure is None,
    ensures
        holds_tables(text_draft(args), args),
        args.layer_schedule.len() == 0 ==> text_draft(args).common.len() == 2
            + if args.tie_word_embeddings {
            0int
        } else {
            1
        } + if args.hidden_size_per_layer_input > 0 {
            3int
        } else {
            0
        },
{
    let media = args.hidden_size_per_layer_input as int;
    let hidden = args.hidden_size as int;
    let vocabulary = args.vocab_size as int;
    let combined = args.layer_schedule.len() * media;
    let entries = match args.vocab_size_per_layer_input {
        Some(entries) => entries as int,
        None => vocabulary,
    };
    let tables = if media > 0 {
        per_layer_part(table_part(args), args)
    } else {
        table_part(args)
    };
    let whole = text_draft(args);
    lemma_tables(args);
    lemma_layers_extend(tables, args, args.layer_schedule.len() as int);
    lemma_ask_kept(
        tables,
        whole,
        0,
        "model.language_model.embed_tokens.weight"@,
        Some("model.embed_tokens.weight"@),
        seq![vocabulary, hidden],
        MatrixFormat::Settled(args.format_of("model.embed_tokens.weight"@)),
    );
    lemma_list_kept(
        tables,
        whole,
        0,
        "model.language_model.norm.weight"@,
        seq!["model.norm.weight"@],
        seq![hidden],
    );
    if !args.tie_word_embeddings {
        lemma_ask_kept(
            tables,
            whole,
            0,
            "lm_head.weight"@,
            None,
            seq![vocabulary, hidden],
            MatrixFormat::Settled(args.format_of("lm_head.weight"@)),
        );
    }
    if media > 0 {
        lemma_ask_kept(
            tables,
            whole,
            0,
            "model.language_model.embed_tokens_per_layer.weight"@,
            Some("model.embed_tokens_per_layer.weight"@),
            seq![entries, combined],
            MatrixFormat::Settled(args.format_of("model.embed_tokens_per_layer.weight"@)),
        );
        lemma_ask_kept(
            tables,
            whole,
            0,
            "model.language_model.per_layer_model_projection.weight"@,
            Some("model.per_layer_model_projection.weight"@),
            seq![combined, hidden],
            MatrixFormat::Settled(args.format_of("model.per_layer_model_projection.weight"@)),
        );
        lemma_list_kept(
            tables,
            whole,
            0,
            "model.language_model.per_layer_projection_norm.weight"@,
            seq!["model.per_layer_projection_norm.weight"@],
            seq![media],
        );
    }
}

} // verus!
