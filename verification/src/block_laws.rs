//! What a GGUF catalog asks of the decoder, name by name.

use crate::catalog_laws::{has_sides, is_routed, lemma_width};
use crate::config::ModelArgs;
use crate::gguf_plan::{
    gguf_fault, gguf_groups, gguf_layer, gguf_layer_fault, gguf_layers_fault, gguf_prefixes,
    gguf_tensors,
};
use crate::plan::{GgufTensor, LayoutGroup, TensorOperation};
use crate::plan_laws::lemma_tensor_kept;
use crate::schedule::{AttentionStateSource, AttentionValueSource};
use crate::text::decimal;
use vstd::prelude::*;

verus! {

/// Whether a tensor is the required one named `key`, with these sides and this use.
pub open spec fn is_stored(
    tensor: GgufTensor,
    key: Seq<char>,
    sides: Seq<int>,
    operation: TensorOperation,
) -> bool {
    &&& tensor.key == key
    &&& has_sides(tensor.shape, sides)
    &&& tensor.operation == operation
    &&& tensor.requirement is Required
    &&& tensor.alternate_shapes.len() == 0
    &&& tensor.element_count is None
}

/// Whether the required tensor `key` is among `tensors`, with these sides and this use.
pub open spec fn stores(
    tensors: Seq<GgufTensor>,
    key: Seq<char>,
    sides: Seq<int>,
    operation: TensorOperation,
) -> bool {
    exists|i: int|
        0 <= i < tensors.len() && is_stored(#[trigger] tensors[i], key, sides, operation)
}

/// Stored name of a block tensor.
pub open spec fn in_block(layer: int, local: Seq<char>) -> Seq<char> {
    "blk."@ + decimal(layer as nat) + local
}

/// Whether every tensor of a block is there, each with the shape that makes the matrices compose.
pub open spec fn stores_block(tensors: Seq<GgufTensor>, args: ModelArgs, layer: int) -> bool {
    let hidden = args.hidden_size as int;
    let heads = args.num_attention_heads as int;
    let policy = args.layer_schedule[layer];
    let head = policy.head_dim as int;
    let intermediate = policy.intermediate_size as int;
    let width = policy.num_key_value_heads * policy.head_dim;
    let media = args.hidden_size_per_layer_input as int;
    let experts = args.num_experts->0 as int;
    let expert_width = args.moe_intermediate_size->0 as int;
    &&& stores(
        tensors,
        in_block(layer, ".attn_norm.weight"@),
        seq![hidden],
        TensorOperation::Vector,
    )
    &&& stores(
        tensors,
        in_block(layer, ".post_attention_norm.weight"@),
        seq![hidden],
        TensorOperation::Vector,
    )
    &&& stores(tensors, in_block(layer, ".ffn_norm.weight"@), seq![hidden], TensorOperation::Vector)
    &&& stores(
        tensors,
        in_block(layer, ".post_ffw_norm.weight"@),
        seq![hidden],
        TensorOperation::Vector,
    )
    &&& stores(
        tensors,
        in_block(layer, ".layer_output_scale.weight"@),
        seq![1int],
        TensorOperation::Vector,
    )
    &&& stores(
        tensors,
        in_block(layer, ".attn_q.weight"@),
        seq![heads * head, hidden],
        TensorOperation::Matrix,
    )
    &&& stores(
        tensors,
        in_block(layer, ".attn_output.weight"@),
        seq![hidden, heads * head],
        TensorOperation::Matrix,
    )
    &&& stores(
        tensors,
        in_block(layer, ".attn_q_norm.weight"@),
        seq![head],
        TensorOperation::Vector,
    )
    &&& stores(
        tensors,
        in_block(layer, ".ffn_gate.weight"@),
        seq![intermediate, hidden],
        TensorOperation::Matrix,
    )
    &&& stores(
        tensors,
        in_block(layer, ".ffn_up.weight"@),
        seq![intermediate, hidden],
        TensorOperation::Matrix,
    )
    &&& stores(
        tensors,
        in_block(layer, ".ffn_down.weight"@),
        seq![hidden, intermediate],
        TensorOperation::Matrix,
    )
    &&& match policy.key_value {
        AttentionStateSource::Shared => true,
        AttentionStateSource::Local { value } | AttentionStateSource::Publish { value } => {
            &&& stores(
                tensors,
                in_block(layer, ".attn_k.weight"@),
                seq![width, hidden],
                TensorOperation::Matrix,
            )
            &&& stores(
                tensors,
                in_block(layer, ".attn_k_norm.weight"@),
                seq![head],
                TensorOperation::Vector,
            )
            &&& value is Projected ==> stores(
                tensors,
                in_block(layer, ".attn_v.weight"@),
                seq![width, hidden],
                TensorOperation::Matrix,
            )
        },
    }
    &&& media > 0 ==> {
        &&& stores(
            tensors,
            in_block(layer, ".inp_gate.weight"@),
            seq![media, hidden],
            TensorOperation::Matrix,
        )
        &&& stores(
            tensors,
            in_block(layer, ".proj.weight"@),
            seq![hidden, media],
            TensorOperation::Matrix,
        )
        &&& stores(
            tensors,
            in_block(layer, ".post_norm.weight"@),
            seq![hidden],
            TensorOperation::Vector,
        )
    }
    &&& is_routed(args, layer) ==> {
        &&& stores(
            tensors,
            in_block(layer, ".ffn_gate_inp.weight"@),
            seq![experts, hidden],
            TensorOperation::Matrix,
        )
        &&& stores(
            tensors,
            in_block(layer, ".ffn_gate_inp.scale"@),
            seq![hidden],
            TensorOperation::Vector,
        )
        &&& stores(
            tensors,
            in_block(layer, ".ffn_down_exps.scale"@),
            seq![experts],
            TensorOperation::Vector,
        )
        &&& stores(
            tensors,
            in_block(layer, ".post_ffw_norm_1.weight"@),
            seq![hidden],
            TensorOperation::Vector,
        )
        &&& stores(
            tensors,
            in_block(layer, ".pre_ffw_norm_2.weight"@),
            seq![hidden],
            TensorOperation::Vector,
        )
        &&& stores(
            tensors,
            in_block(layer, ".post_ffw_norm_2.weight"@),
            seq![hidden],
            TensorOperation::Vector,
        )
        &&& stores(
            tensors,
            in_block(layer, ".ffn_down_exps.weight"@),
            seq![experts, hidden, expert_width],
            TensorOperation::Matrix,
        )
    }
}

proof fn lemma_stores(
    tensors: Seq<GgufTensor>,
    tensor: GgufTensor,
    key: Seq<char>,
    sides: Seq<int>,
    operation: TensorOperation,
)
    requires
        tensors.contains(tensor),
        is_stored(tensor, key, sides, operation),
    ensures
        stores(tensors, key, sides, operation),
{
    let i = choose|i: int| 0 <= i < tensors.len() && tensors[i] == tensor;
    assert(is_stored(tensors[i], key, sides, operation));
}

proof fn lemma_block_kept(args: ModelArgs, layer: int, i: int)
    requires
        0 <= layer < args.layer_schedule.len(),
        0 <= i < gguf_layer(args, layer).len(),
    ensures
        gguf_tensors(args, args.layer_schedule.len() as int).contains(gguf_layer(args, layer)[i]),
{
    let before = gguf_tensors(args, layer);
    assert(gguf_tensors(args, layer + 1)[before.len() + i] == gguf_layer(args, layer)[i]);
    lemma_tensor_kept(
        args,
        layer + 1,
        args.layer_schedule.len() as int,
        gguf_layer(args, layer)[i],
    );
}

proof fn lemma_block_sound(args: ModelArgs, layer: int, layers: int)
    requires
        0 <= layer < layers,
        gguf_layers_fault(args, layers) is None,
    ensures
        gguf_layer_fault(args, layer) is None,
    decreases layers,
{
    if layer < layers - 1 {
        lemma_block_sound(args, layer, layers - 1);
    }
}

proof fn lemma_dense_block(args: ModelArgs, layer: int)
    requires
        0 <= layer < args.layer_schedule.len(),
        gguf_fault(args) is None,
    ensures
        ({
            let tensors = gguf_tensors(args, args.layer_schedule.len() as int);
            let hidden = args.hidden_size as int;
            let heads = args.num_attention_heads as int;
            let policy = args.layer_schedule[layer];
            let head = policy.head_dim as int;
            let intermediate = policy.intermediate_size as int;
            let width = policy.num_key_value_heads * policy.head_dim;
            let media = args.hidden_size_per_layer_input as int;
            let experts = args.num_experts->0 as int;
            let expert_width = args.moe_intermediate_size->0 as int;
            &&& stores(
                tensors,
                in_block(layer, ".attn_norm.weight"@),
                seq![hidden],
                TensorOperation::Vector,
            )
            &&& stores(
                tensors,
                in_block(layer, ".post_attention_norm.weight"@),
                seq![hidden],
                TensorOperation::Vector,
            )
            &&& stores(
                tensors,
                in_block(layer, ".ffn_norm.weight"@),
                seq![hidden],
                TensorOperation::Vector,
            )
            &&& stores(
                tensors,
                in_block(layer, ".post_ffw_norm.weight"@),
                seq![hidden],
                TensorOperation::Vector,
            )
            &&& stores(
                tensors,
                in_block(layer, ".layer_output_scale.weight"@),
                seq![1int],
                TensorOperation::Vector,
            )
            &&& stores(
                tensors,
                in_block(layer, ".attn_q.weight"@),
                seq![heads * head, hidden],
                TensorOperation::Matrix,
            )
            &&& stores(
                tensors,
                in_block(layer, ".attn_output.weight"@),
                seq![hidden, heads * head],
                TensorOperation::Matrix,
            )
            &&& stores(
                tensors,
                in_block(layer, ".attn_q_norm.weight"@),
                seq![head],
                TensorOperation::Vector,
            )
            &&& stores(
                tensors,
                in_block(layer, ".ffn_gate.weight"@),
                seq![intermediate, hidden],
                TensorOperation::Matrix,
            )
            &&& stores(
                tensors,
                in_block(layer, ".ffn_up.weight"@),
                seq![intermediate, hidden],
                TensorOperation::Matrix,
            )
            &&& stores(
                tensors,
                in_block(layer, ".ffn_down.weight"@),
                seq![hidden, intermediate],
                TensorOperation::Matrix,
            )
        }),
{
    let tensors = gguf_tensors(args, args.layer_schedule.len() as int);
    let block = gguf_layer(args, layer);
    let hidden = args.hidden_size as int;
    let heads = args.num_attention_heads as int;
    let policy = args.layer_schedule[layer];
    let head = policy.head_dim as int;
    let intermediate = policy.intermediate_size as int;
    let width = policy.num_key_value_heads * policy.head_dim;
    let media = args.hidden_size_per_layer_input as int;
    let experts = args.num_experts->0 as int;
    let expert_width = args.moe_intermediate_size->0 as int;
    lemma_block_sound(args, layer, args.layer_schedule.len() as int);
    lemma_width(heads, head);
    lemma_width(policy.num_key_value_heads as int, head);
    lemma_block_kept(args, layer, 0);
    lemma_stores(
        tensors,
        block[0],
        in_block(layer, ".attn_norm.weight"@),
        seq![hidden],
        TensorOperation::Vector,
    );
    lemma_block_kept(args, layer, 1);
    lemma_stores(
        tensors,
        block[1],
        in_block(layer, ".post_attention_norm.weight"@),
        seq![hidden],
        TensorOperation::Vector,
    );
    lemma_block_kept(args, layer, 2);
    lemma_stores(
        tensors,
        block[2],
        in_block(layer, ".ffn_norm.weight"@),
        seq![hidden],
        TensorOperation::Vector,
    );
    lemma_block_kept(args, layer, 3);
    lemma_stores(
        tensors,
        block[3],
        in_block(layer, ".post_ffw_norm.weight"@),
        seq![hidden],
        TensorOperation::Vector,
    );
    lemma_block_kept(args, layer, 4);
    lemma_stores(
        tensors,
        block[4],
        in_block(layer, ".layer_output_scale.weight"@),
        seq![1int],
        TensorOperation::Vector,
    );
    lemma_block_kept(args, layer, 5);
    lemma_stores(
        tensors,
        block[5],
        in_block(layer, ".attn_q.weight"@),
        seq![heads * head, hidden],
        TensorOperation::Matrix,
    );
    lemma_block_kept(args, layer, 6);
    lemma_stores(
        tensors,
        block[6],
        in_block(layer, ".attn_output.weight"@),
        seq![hidden, heads * head],
        TensorOperation::Matrix,
    );
    lemma_block_kept(args, layer, 7);
    lemma_stores(
        tensors,
        block[7],
        in_block(layer, ".attn_q_norm.weight"@),
        seq![head],
        TensorOperation::Vector,
    );
    lemma_block_kept(args, layer, 8);
    lemma_stores(
        tensors,
        block[8],
        in_block(layer, ".ffn_gate.weight"@),
        seq![intermediate, hidden],
        TensorOperation::Matrix,
    );
    lemma_block_kept(args, layer, 9);
    lemma_stores(
        tensors,
        block[9],
        in_block(layer, ".ffn_up.weight"@),
        seq![intermediate, hidden],
        TensorOperation::Matrix,
    );
    lemma_block_kept(args, layer, 10);
    lemma_stores(
        tensors,
        block[10],
        in_block(layer, ".ffn_down.weight"@),
        seq![hidden, intermediate],
        TensorOperation::Matrix,
    );
}

proof fn lemma_state_block(args: ModelArgs, layer: int)
    requires
        0 <= layer < args.layer_schedule.len(),
        gguf_fault(args) is None,
        !(args.layer_schedule[layer].key_value is Shared),
    ensures
        ({
            let tensors = gguf_tensors(args, args.layer_schedule.len() as int);
            let hidden = args.hidden_size as int;
            let heads = args.num_attention_heads as int;
            let policy = args.layer_schedule[layer];
            let head = policy.head_dim as int;
            let intermediate = policy.intermediate_size as int;
            let width = policy.num_key_value_heads * policy.head_dim;
            let media = args.hidden_size_per_layer_input as int;
            let experts = args.num_experts->0 as int;
            let expert_width = args.moe_intermediate_size->0 as int;
            &&& stores(
                tensors,
                in_block(layer, ".attn_k.weight"@),
                seq![width, hidden],
                TensorOperation::Matrix,
            )
            &&& stores(
                tensors,
                in_block(layer, ".attn_k_norm.weight"@),
                seq![head],
                TensorOperation::Vector,
            )
            &&& policy.key_value.value_spec() != Some(AttentionValueSource::ReuseKey) ==> stores(
                tensors,
                in_block(layer, ".attn_v.weight"@),
                seq![width, hidden],
                TensorOperation::Matrix,
            )
        }),
{
    let tensors = gguf_tensors(args, args.layer_schedule.len() as int);
    let block = gguf_layer(args, layer);
    let hidden = args.hidden_size as int;
    let heads = args.num_attention_heads as int;
    let policy = args.layer_schedule[layer];
    let head = policy.head_dim as int;
    let intermediate = policy.intermediate_size as int;
    let width = policy.num_key_value_heads * policy.head_dim;
    let media = args.hidden_size_per_layer_input as int;
    let experts = args.num_experts->0 as int;
    let expert_width = args.moe_intermediate_size->0 as int;
    lemma_block_sound(args, layer, args.layer_schedule.len() as int);
    lemma_width(heads, head);
    lemma_width(policy.num_key_value_heads as int, head);
    lemma_block_kept(args, layer, 11);
    lemma_stores(
        tensors,
        block[11],
        in_block(layer, ".attn_k.weight"@),
        seq![width, hidden],
        TensorOperation::Matrix,
    );
    lemma_block_kept(args, layer, 12);
    lemma_stores(
        tensors,
        block[12],
        in_block(layer, ".attn_k_norm.weight"@),
        seq![head],
        TensorOperation::Vector,
    );
    if policy.key_value.value_spec() != Some(AttentionValueSource::ReuseKey) {
        lemma_block_kept(args, layer, 13);
        lemma_stores(
                tensors,
                block[13],
                in_block(layer, ".attn_v.weight"@),
                seq![width, hidden],
                TensorOperation::Matrix,
        );
    }
}

proof fn lemma_input_block(args: ModelArgs, layer: int)
    requires
        0 <= layer < args.layer_schedule.len(),
        gguf_fault(args) is None,
        args.hidden_size_per_layer_input > 0,
    ensures
        ({
            let tensors = gguf_tensors(args, args.layer_schedule.len() as int);
            let hidden = args.hidden_size as int;
            let heads = args.num_attention_heads as int;
            let policy = args.layer_schedule[layer];
            let head = policy.head_dim as int;
            let intermediate = policy.intermediate_size as int;
            let width = policy.num_key_value_heads * policy.head_dim;
            let media = args.hidden_size_per_layer_input as int;
            let experts = args.num_experts->0 as int;
            let expert_width = args.moe_intermediate_size->0 as int;
            &&& stores(
                tensors,
                in_block(layer, ".inp_gate.weight"@),
                seq![media, hidden],
                TensorOperation::Matrix,
            )
            &&& stores(
                tensors,
                in_block(layer, ".proj.weight"@),
                seq![hidden, media],
                TensorOperation::Matrix,
            )
            &&& stores(
                tensors,
                in_block(layer, ".post_norm.weight"@),
                seq![hidden],
                TensorOperation::Vector,
            )
        }),
{
    let tensors = gguf_tensors(args, args.layer_schedule.len() as int);
    let block = gguf_layer(args, layer);
    let hidden = args.hidden_size as int;
    let heads = args.num_attention_heads as int;
    let policy = args.layer_schedule[layer];
    let head = policy.head_dim as int;
    let intermediate = policy.intermediate_size as int;
    let width = policy.num_key_value_heads * policy.head_dim;
    let media = args.hidden_size_per_layer_input as int;
    let experts = args.num_experts->0 as int;
    let expert_width = args.moe_intermediate_size->0 as int;
    lemma_block_sound(args, layer, args.layer_schedule.len() as int);
    lemma_width(heads, head);
    lemma_width(policy.num_key_value_heads as int, head);
    let from: int = if policy.key_value is Shared {
        11
    } else if policy.key_value.value_spec() == Some(AttentionValueSource::ReuseKey) {
        13
    } else {
        14
    };
    lemma_block_kept(args, layer, from);
    lemma_stores(
        tensors,
        block[from],
        in_block(layer, ".inp_gate.weight"@),
        seq![media, hidden],
        TensorOperation::Matrix,
    );
    lemma_block_kept(args, layer, from + 1);
    lemma_stores(
        tensors,
        block[from + 1],
        in_block(layer, ".proj.weight"@),
        seq![hidden, media],
        TensorOperation::Matrix,
    );
    lemma_block_kept(args, layer, from + 2);
    lemma_stores(
        tensors,
        block[from + 2],
        in_block(layer, ".post_norm.weight"@),
        seq![hidden],
        TensorOperation::Vector,
    );
}

proof fn lemma_expert_block(args: ModelArgs, layer: int)
    requires
        0 <= layer < args.layer_schedule.len(),
        gguf_fault(args) is None,
        is_routed(args, layer),
    ensures
        ({
            let tensors = gguf_tensors(args, args.layer_schedule.len() as int);
            let hidden = args.hidden_size as int;
            let heads = args.num_attention_heads as int;
            let policy = args.layer_schedule[layer];
            let head = policy.head_dim as int;
            let intermediate = policy.intermediate_size as int;
            let width = policy.num_key_value_heads * policy.head_dim;
            let media = args.hidden_size_per_layer_input as int;
            let experts = args.num_experts->0 as int;
            let expert_width = args.moe_intermediate_size->0 as int;
            &&& stores(
                tensors,
                in_block(layer, ".ffn_gate_inp.weight"@),
                seq![experts, hidden],
                TensorOperation::Matrix,
            )
            &&& stores(
                tensors,
                in_block(layer, ".ffn_gate_inp.scale"@),
                seq![hidden],
                TensorOperation::Vector,
            )
            &&& stores(
                tensors,
                in_block(layer, ".ffn_down_exps.scale"@),
                seq![experts],
                TensorOperation::Vector,
            )
            &&& stores(
                tensors,
                in_block(layer, ".post_ffw_norm_1.weight"@),
                seq![hidden],
                TensorOperation::Vector,
            )
            &&& stores(
                tensors,
                in_block(layer, ".pre_ffw_norm_2.weight"@),
                seq![hidden],
                TensorOperation::Vector,
            )
            &&& stores(
                tensors,
                in_block(layer, ".post_ffw_norm_2.weight"@),
                seq![hidden],
                TensorOperation::Vector,
            )
            &&& stores(
                tensors,
                in_block(layer, ".ffn_down_exps.weight"@),
                seq![experts, hidden, expert_width],
                TensorOperation::Matrix,
            )
        }),
{
    let tensors = gguf_tensors(args, args.layer_schedule.len() as int);
    let block = gguf_layer(args, layer);
    let hidden = args.hidden_size as int;
    let heads = args.num_attention_heads as int;
    let policy = args.layer_schedule[layer];
    let head = policy.head_dim as int;
    let intermediate = policy.intermediate_size as int;
    let width = policy.num_key_value_heads * policy.head_dim;
    let media = args.hidden_size_per_layer_input as int;
    let experts = args.num_experts->0 as int;
    let expert_width = args.moe_intermediate_size->0 as int;
    lemma_block_sound(args, layer, args.layer_schedule.len() as int);
    lemma_width(heads, head);
    lemma_width(policy.num_key_value_heads as int, head);
    let from: int = if policy.key_value is Shared {
        11
    } else if policy.key_value.value_spec() == Some(AttentionValueSource::ReuseKey) {
        13
    } else {
        14
    };
    let routed = from + if media > 0 {
        3int
    } else {
        0
    };
    lemma_block_kept(args, layer, routed);
    lemma_stores(
        tensors,
        block[routed],
        in_block(layer, ".ffn_gate_inp.weight"@),
        seq![experts, hidden],
        TensorOperation::Matrix,
    );
    lemma_block_kept(args, layer, routed + 1);
    lemma_stores(
        tensors,
        block[routed + 1],
        in_block(layer, ".ffn_gate_inp.scale"@),
        seq![hidden],
        TensorOperation::Vector,
    );
    lemma_block_kept(args, layer, routed + 2);
    lemma_stores(
        tensors,
        block[routed + 2],
        in_block(layer, ".ffn_down_exps.scale"@),
        seq![experts],
        TensorOperation::Vector,
    );
    lemma_block_kept(args, layer, routed + 3);
    lemma_stores(
        tensors,
        block[routed + 3],
        in_block(layer, ".post_ffw_norm_1.weight"@),
        seq![hidden],
        TensorOperation::Vector,
    );
    lemma_block_kept(args, layer, routed + 4);
    lemma_stores(
        tensors,
        block[routed + 4],
        in_block(layer, ".pre_ffw_norm_2.weight"@),
        seq![hidden],
        TensorOperation::Vector,
    );
    lemma_block_kept(args, layer, routed + 5);
    lemma_stores(
        tensors,
        block[routed + 5],
        in_block(layer, ".post_ffw_norm_2.weight"@),
        seq![hidden],
        TensorOperation::Vector,
    );
    lemma_block_kept(args, layer, routed + 6);
    lemma_stores(
        tensors,
        block[routed + 6],
        in_block(layer, ".ffn_down_exps.weight"@),
        seq![experts, hidden, expert_width],
        TensorOperation::Matrix,
    );
}

/// A complete GGUF catalog holds every tensor of every block, under its own name and with the
/// shape that makes the matrices compose.
pub proof fn law_gguf_catalogs_hold_every_block(args: ModelArgs, layer: int)
    requires
        0 <= layer < args.layer_schedule.len(),
        gguf_fault(args) is None,
    ensures
        stores_block(gguf_tensors(args, args.layer_schedule.len() as int), args, layer),
{
    lemma_dense_block(args, layer);
    if !(args.layer_schedule[layer].key_value is Shared) {
        lemma_state_block(args, layer);
    }
    if args.hidden_size_per_layer_input > 0 {
        lemma_input_block(args, layer);
    }
    if is_routed(args, layer) {
        lemma_expert_block(args, layer);
    }
}

/// A block adds its own tensors to a GGUF catalog and no others.
pub proof fn law_gguf_blocks_add_nothing_else(args: ModelArgs, layer: int)
    requires
        0 <= layer < args.layer_schedule.len(),
    ensures
        ({
            let state: int = match args.layer_schedule[layer].key_value {
                AttentionStateSource::Shared => 0,
                AttentionStateSource::Local { value } | AttentionStateSource::Publish { value } =>
                    if value is Projected {
                    3
                } else {
                    2
                },
            };
            let inputs: int = if args.hidden_size_per_layer_input > 0 {
                3
            } else {
                0
            };
            let experts: int = if is_routed(args, layer) {
                7
            } else {
                0
            };
            gguf_tensors(args, layer + 1).len() == gguf_tensors(args, layer).len() + 11 + state
                + inputs + experts
        }),
{
}

/// A GGUF catalog holds the token tables and final norm, an output table where it is not tied,
/// and the per-layer tables where they have a width, each with its shape, and nothing else
/// outside the blocks.
pub proof fn law_gguf_catalogs_hold_their_tables(args: ModelArgs)
    requires
        gguf_fault(args) is None,
    ensures
        ({
            let tensors = gguf_tensors(args, 0);
            let hidden = args.hidden_size as int;
            let vocabulary = args.vocab_size as int;
            let media = args.hidden_size_per_layer_input as int;
            let combined = args.layer_schedule.len() * media;
            &&& stores(
                tensors,
                "token_embd.weight"@,
                seq![vocabulary, hidden],
                TensorOperation::Matrix,
            )
            &&& stores(tensors, "output_norm.weight"@, seq![hidden], TensorOperation::Vector)
            &&& !args.tie_word_embeddings ==> stores(
                tensors,
                "output.weight"@,
                seq![vocabulary, hidden],
                TensorOperation::Matrix,
            )
            &&& media > 0 ==> {
                &&& stores(
                    tensors,
                    "per_layer_token_embd.weight"@,
                    seq![
                        match args.vocab_size_per_layer_input {
                            Some(entries) => entries as int,
                            None => vocabulary,
                        },
                        combined,
                    ],
                    TensorOperation::Matrix,
                )
                &&& stores(
                    tensors,
                    "per_layer_model_proj.weight"@,
                    seq![combined, hidden],
                    TensorOperation::Matrix,
                )
                &&& stores(
                    tensors,
                    "per_layer_proj_norm.weight"@,
                    seq![media],
                    TensorOperation::Vector,
                )
            }
            &&& tensors.len() == 2 + if args.tie_word_embeddings {
                0int
            } else {
                1
            } + if media > 0 {
                3int
            } else {
                0
            }
        }),
{
    let tensors = gguf_tensors(args, 0);
    let hidden = args.hidden_size as int;
    let vocabulary = args.vocab_size as int;
    let media = args.hidden_size_per_layer_input as int;
    let combined = args.layer_schedule.len() * media;
    let matrix = TensorOperation::Matrix;
    let vector = TensorOperation::Vector;
    assert(is_stored(tensors[0], "token_embd.weight"@, seq![vocabulary, hidden], matrix));
    assert(is_stored(tensors[1], "output_norm.weight"@, seq![hidden], vector));
    let next: int = if args.tie_word_embeddings {
        2
    } else {
        3
    };
    if !args.tie_word_embeddings {
        assert(is_stored(tensors[2], "output.weight"@, seq![vocabulary, hidden], matrix));
    }
    if media > 0 {
        lemma_width(args.layer_schedule.len() as int, media);
        let entries = match args.vocab_size_per_layer_input {
            Some(entries) => entries as int,
            None => vocabulary,
        };
        assert(is_stored(
            tensors[next],
            "per_layer_token_embd.weight"@,
            seq![entries, combined],
            matrix,
        ));
        assert(is_stored(
            tensors[next + 1],
            "per_layer_model_proj.weight"@,
            seq![combined, hidden],
            matrix,
        ));
        assert(is_stored(
            tensors[next + 2],
            "per_layer_proj_norm.weight"@,
            seq![media],
            vector,
        ));
    }
}

/// Whether a group holds both ways to store a block's expert gate and up projections: as two
/// banks, or as one of twice the width.
pub open spec fn are_block_layouts(
    group: LayoutGroup<GgufTensor>,
    args: ModelArgs,
    layer: int,
) -> bool {
    let hidden = args.hidden_size as int;
    let experts = args.num_experts->0 as int;
    let width = args.moe_intermediate_size->0 as int;
    let gate = in_block(layer, ".ffn_gate_exps.weight"@);
    let up = in_block(layer, ".ffn_up_exps.weight"@);
    let fused = in_block(layer, ".ffn_gate_up_exps.weight"@);
    &&& group.required
    &&& group.variants.len() == 2
    &&& group.id == in_block(layer, " expert gate/up storage"@)
    &&& group.variants[0].id == "separate gate and up"@
    &&& group.variants[0].discriminator_keys == seq![gate, up]
    &&& group.variants[0].tensors.len() == 2
    &&& is_stored(
        group.variants[0].tensors[0],
        gate,
        seq![experts, width, hidden],
        TensorOperation::Matrix,
    )
    &&& is_stored(
        group.variants[0].tensors[1],
        up,
        seq![experts, width, hidden],
        TensorOperation::Matrix,
    )
    &&& group.variants[1].id == "single fused gate and up"@
    &&& group.variants[1].discriminator_keys == seq![fused]
    &&& group.variants[1].tensors.len() == 1
    &&& is_stored(
        group.variants[1].tensors[0],
        fused,
        seq![experts, 2 * width, hidden],
        TensorOperation::Matrix,
    )
}

/// A complete GGUF catalog holds the layouts of the experts of every block that routes to them.
pub proof fn law_gguf_catalogs_hold_their_layouts(args: ModelArgs, layer: int, layers: int)
    requires
        0 <= layer < layers <= args.layer_schedule.len(),
        gguf_fault(args) is None,
        is_routed(args, layer),
    ensures
        exists|i: int|
            0 <= i < gguf_groups(args, layers).len() && are_block_layouts(
                #[trigger] gguf_groups(args, layers)[i],
                args,
                layer,
            ),
    decreases layers,
{
    lemma_block_sound(args, layer, args.layer_schedule.len() as int);
    let all = gguf_groups(args, layers);
    let earlier = gguf_groups(args, layers - 1);
    if layer < layers - 1 {
        law_gguf_catalogs_hold_their_layouts(args, layer, layers - 1);
        let i = choose|i: int|
            0 <= i < earlier.len() && are_block_layouts(#[trigger] earlier[i], args, layer);
        assert(all[i] == earlier[i]);
    } else {
        assert(are_block_layouts(all[earlier.len() as int], args, layer));
    }
}

/// Beside its tensors a GGUF catalog admits rotary frequencies, and the keys and values that a
/// checkpoint still has for blocks that consume shared state: three names for each of them, and
/// nothing else.
pub proof fn law_gguf_catalogs_admit_spare_state(args: ModelArgs, layer: int)
    requires
        0 <= layer < args.layer_schedule.len(),
    ensures
        gguf_prefixes(args, 0) == seq!["rope_freqs."@],
        ({
            let before = gguf_prefixes(args, layer);
            let after = gguf_prefixes(args, layer + 1);
            if args.layer_schedule[layer].key_value is Shared {
                after == before.push(in_block(layer, ".attn_k."@)).push(
                    in_block(layer, ".attn_v."@),
                ).push(in_block(layer, ".attn_k_norm."@))
            } else {
                after == before
            }
        }),
{
    let before = gguf_prefixes(args, layer);
    let after = gguf_prefixes(args, layer + 1);
    if args.layer_schedule[layer].key_value is Shared {
        assert(after =~= before.push(in_block(layer, ".attn_k."@)).push(
            in_block(layer, ".attn_v."@),
        ).push(in_block(layer, ".attn_k_norm."@)));
    }
}

} // verus!
