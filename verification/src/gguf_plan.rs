//! Strict text GGUF catalog of a Gemma 4 decoder.

use crate::config::ModelArgs;
use crate::errors::{Fault, fault_if, first_of, says};
use crate::geometry::{checked_mul, dimension, dimension_fault, product_fault};
use crate::gguf_config::block_name;
use crate::plan::{
    AlternativeLayoutGroup, CatalogPolicy, GgufCheckpointPlan, GgufTensor, GgufTensorConstraint,
    LayoutGroup, TensorOperation, gate_up_group, gguf_matrix, gguf_tensor, gguf_vector,
    push_gate_up_group, push_gguf, push_matrix, push_vector,
};
use crate::schedule::{AttentionValueSource, FeedForwardPolicy, LayerPolicy};
use crate::text::{decimal_text, push_item};
use vstd::prelude::*;

verus! {

/// Vocabulary size of per-layer token embeddings.
pub open spec fn per_layer_vocabulary(args: ModelArgs) -> i32 {
    match args.vocab_size_per_layer_input {
        Some(vocabulary) => vocabulary,
        None => args.vocab_size,
    }
}

/// Per-layer input width of all layers together.
pub open spec fn combined_width(args: ModelArgs) -> int {
    args.layer_schedule.len() * args.hidden_size_per_layer_input
}

/// Query projection width of a layer.
pub open spec fn query_width(args: ModelArgs, layer: int) -> int {
    args.num_attention_heads * args.layer_schedule[layer].head_dim
}

/// Key and value projection width of a layer.
pub open spec fn key_value_width(args: ModelArgs, layer: int) -> int {
    args.layer_schedule[layer].num_key_value_heads * args.layer_schedule[layer].head_dim
}

/// Fault of the per-layer token embeddings.
pub open spec fn per_layer_fault(args: ModelArgs) -> Option<Fault> {
    if args.hidden_size_per_layer_input > 0 {
        first_of(
            product_fault(
                args.layer_schedule.len() as int,
                args.hidden_size_per_layer_input as int,
                "combined per-layer input width"@,
            ),
            dimension_fault(
                per_layer_vocabulary(args),
                "per-layer input vocabulary size"@,
            ),
        )
    } else {
        None
    }
}

/// Fault of the projection widths of a layer.
pub open spec fn projection_fault(args: ModelArgs, layer: int) -> Option<Fault> {
    first_of(
        product_fault(
            args.num_attention_heads as int,
            args.layer_schedule[layer].head_dim as int,
            "query projection width"@,
        ),
        product_fault(
            args.layer_schedule[layer].num_key_value_heads as int,
            args.layer_schedule[layer].head_dim as int,
            "key/value projection width"@,
        ),
    )
}

/// Fault of the routed expert geometry.
pub open spec fn gguf_expert_fault(args: ModelArgs) -> Option<Fault> {
    first_of(
        fault_if(args.num_experts is None, "Gemma 4 MoE has no expert count"@),
        first_of(
            dimension_fault(args.num_experts->0, "expert count"@),
            first_of(
                fault_if(args.moe_intermediate_size is None, "Gemma 4 MoE has no expert width"@),
                first_of(
                    dimension_fault(args.moe_intermediate_size->0, "expert width"@),
                    product_fault(2, args.moe_intermediate_size->0 as int, "fused expert width"@),
                ),
            ),
        ),
    )
}

/// Fault of the layer `layer`.
pub open spec fn gguf_layer_fault(args: ModelArgs, layer: int) -> Option<Fault> {
    first_of(
        projection_fault(args, layer),
        if args.layer_schedule[layer].feed_forward is DenseWithSparseMoe {
            gguf_expert_fault(args)
        } else {
            None
        },
    )
}

/// First fault of the first `layers` layers.
pub open spec fn gguf_layers_fault(args: ModelArgs, layers: int) -> Option<Fault>
    decreases layers,
{
    if layers <= 0 {
        None
    } else {
        first_of(gguf_layers_fault(args, layers - 1), gguf_layer_fault(args, layers - 1))
    }
}

/// First fault of the catalog.
pub open spec fn gguf_fault(args: ModelArgs) -> Option<Fault> {
    first_of(
        dimension_fault(args.hidden_size, "hidden size"@),
        first_of(
            dimension_fault(args.vocab_size, "vocabulary size"@),
            first_of(
                per_layer_fault(args),
                first_of(
                    dimension_fault(args.num_attention_heads, "attention head count"@),
                    gguf_layers_fault(args, args.layer_schedule.len() as int),
                ),
            ),
        ),
    )
}

/// Tensors outside the layers.
pub open spec fn gguf_base(args: ModelArgs) -> Seq<GgufTensor> {
    let hidden = args.hidden_size as int;
    let tables = seq![
        gguf_matrix("token_embd.weight"@, args.vocab_size as int, hidden),
        gguf_vector("output_norm.weight"@, hidden),
    ];
    let output = if args.tie_word_embeddings {
        Seq::empty()
    } else {
        seq![gguf_matrix("output.weight"@, args.vocab_size as int, hidden)]
    };
    let per_layer = if args.hidden_size_per_layer_input > 0 {
        seq![
            gguf_matrix(
                "per_layer_token_embd.weight"@,
                per_layer_vocabulary(args) as int,
                combined_width(args),
            ),
            gguf_matrix("per_layer_model_proj.weight"@, combined_width(args), hidden),
            gguf_vector("per_layer_proj_norm.weight"@, args.hidden_size_per_layer_input as int),
        ]
    } else {
        Seq::empty()
    };
    tables + output + per_layer
}

/// Norms of a layer.
pub open spec fn gguf_norms(hidden: int, layer: int) -> Seq<GgufTensor> {
    seq![
        gguf_vector(block_name(layer, ".attn_norm.weight"@), hidden),
        gguf_vector(block_name(layer, ".post_attention_norm.weight"@), hidden),
        gguf_vector(block_name(layer, ".ffn_norm.weight"@), hidden),
        gguf_vector(block_name(layer, ".post_ffw_norm.weight"@), hidden),
    ]
}

/// Query, output, and dense MLP tensors of a layer.
pub open spec fn gguf_dense(
    hidden: int,
    query: int,
    policy: LayerPolicy,
    layer: int,
) -> Seq<GgufTensor> {
    let intermediate = policy.intermediate_size as int;
    seq![
        gguf_vector(block_name(layer, ".layer_output_scale.weight"@), 1),
        gguf_matrix(block_name(layer, ".attn_q.weight"@), query, hidden),
        gguf_matrix(block_name(layer, ".attn_output.weight"@), hidden, query),
        gguf_vector(block_name(layer, ".attn_q_norm.weight"@), policy.head_dim as int),
        gguf_matrix(block_name(layer, ".ffn_gate.weight"@), intermediate, hidden),
        gguf_matrix(block_name(layer, ".ffn_up.weight"@), intermediate, hidden),
        gguf_matrix(block_name(layer, ".ffn_down.weight"@), hidden, intermediate),
    ]
}

/// Key and value tensors of a layer: none where it consumes shared state, and no values where
/// it reuses its keys.
pub open spec fn gguf_state(
    hidden: int,
    key_value: int,
    policy: LayerPolicy,
    layer: int,
) -> Seq<GgufTensor> {
    if policy.key_value is Shared {
        Seq::empty()
    } else {
        let keys = seq![
            gguf_matrix(block_name(layer, ".attn_k.weight"@), key_value, hidden),
            gguf_vector(block_name(layer, ".attn_k_norm.weight"@), policy.head_dim as int),
        ];
        if policy.key_value.value_spec() == Some(AttentionValueSource::ReuseKey) {
            keys
        } else {
            keys.push(gguf_matrix(block_name(layer, ".attn_v.weight"@), key_value, hidden))
        }
    }
}

/// Per-layer input tensors of a layer.
pub open spec fn gguf_per_layer(hidden: int, media: int, layer: int) -> Seq<GgufTensor> {
    if media > 0 {
        seq![
            gguf_matrix(block_name(layer, ".inp_gate.weight"@), media, hidden),
            gguf_matrix(block_name(layer, ".proj.weight"@), hidden, media),
            gguf_vector(block_name(layer, ".post_norm.weight"@), hidden),
        ]
    } else {
        Seq::empty()
    }
}

/// An expert bank.
pub open spec fn gguf_bank(key: Seq<char>, experts: int, rows: int, columns: int) -> GgufTensor {
    gguf_tensor(
        key,
        seq![experts as usize, rows as usize, columns as usize],
        TensorOperation::Matrix,
    )
}

/// Router and expert tensors of a layer.
pub open spec fn gguf_experts(hidden: int, experts: int, moe: int, layer: int) -> Seq<GgufTensor> {
    seq![
        gguf_matrix(block_name(layer, ".ffn_gate_inp.weight"@), experts, hidden),
        gguf_vector(block_name(layer, ".ffn_gate_inp.scale"@), hidden),
        gguf_vector(block_name(layer, ".ffn_down_exps.scale"@), experts),
        gguf_vector(block_name(layer, ".post_ffw_norm_1.weight"@), hidden),
        gguf_vector(block_name(layer, ".pre_ffw_norm_2.weight"@), hidden),
        gguf_vector(block_name(layer, ".post_ffw_norm_2.weight"@), hidden),
        gguf_bank(block_name(layer, ".ffn_down_exps.weight"@), experts, hidden, moe),
    ]
}

/// The two ways to store a layer's expert gate and up projections.
pub open spec fn gguf_expert_group(
    hidden: int,
    experts: int,
    moe: int,
    layer: int,
) -> LayoutGroup<GgufTensor> {
    let gate = block_name(layer, ".ffn_gate_exps.weight"@);
    let up = block_name(layer, ".ffn_up_exps.weight"@);
    let fused = block_name(layer, ".ffn_gate_up_exps.weight"@);
    gate_up_group(
        block_name(layer, " expert gate/up storage"@),
        seq![gguf_bank(gate, experts, moe, hidden), gguf_bank(up, experts, moe, hidden)],
        gate,
        up,
        seq![gguf_bank(fused, experts, 2 * moe, hidden)],
        fused,
    )
}

/// Tensors of a layer in every layout.
pub open spec fn gguf_layer(args: ModelArgs, layer: int) -> Seq<GgufTensor> {
    let hidden = args.hidden_size as int;
    let policy = args.layer_schedule[layer];
    let experts = if policy.feed_forward is DenseWithSparseMoe {
        gguf_experts(
            hidden,
            args.num_experts->0 as int,
            args.moe_intermediate_size->0 as int,
            layer,
        )
    } else {
        Seq::empty()
    };
    gguf_norms(hidden, layer) + gguf_dense(hidden, query_width(args, layer), policy, layer)
        + gguf_state(hidden, key_value_width(args, layer), policy, layer) + gguf_per_layer(
        hidden,
        args.hidden_size_per_layer_input as int,
        layer,
    ) + experts
}

/// Tensors outside the layers and of the first `layers` layers.
pub open spec fn gguf_tensors(args: ModelArgs, layers: int) -> Seq<GgufTensor>
    decreases layers,
{
    if layers <= 0 {
        gguf_base(args)
    } else {
        gguf_tensors(args, layers - 1) + gguf_layer(args, layers - 1)
    }
}

/// Expert layouts of the first `layers` layers.
pub open spec fn gguf_groups(args: ModelArgs, layers: int) -> Seq<LayoutGroup<GgufTensor>>
    decreases layers,
{
    if layers <= 0 {
        Seq::empty()
    } else if args.layer_schedule[layers - 1].feed_forward is DenseWithSparseMoe {
        gguf_groups(args, layers - 1).push(
            gguf_expert_group(
                args.hidden_size as int,
                args.num_experts->0 as int,
                args.moe_intermediate_size->0 as int,
                layers - 1,
            ),
        )
    } else {
        gguf_groups(args, layers - 1)
    }
}

/// Prefixes admitted outside the plan: the key and value tensors that a checkpoint may still
/// hold for layers that consume shared state.
pub open spec fn gguf_prefixes(args: ModelArgs, layers: int) -> Seq<Seq<char>>
    decreases layers,
{
    if layers <= 0 {
        seq!["rope_freqs."@]
    } else if args.layer_schedule[layers - 1].key_value is Shared {
        gguf_prefixes(args, layers - 1) + seq![
            block_name(layers - 1, ".attn_k."@),
            block_name(layers - 1, ".attn_v."@),
            block_name(layers - 1, ".attn_k_norm."@),
        ]
    } else {
        gguf_prefixes(args, layers - 1)
    }
}

fn block(layer: usize, local: &str) -> (r: String)
    ensures
        r@ == block_name(layer as int, local@),
{
    "blk.".to_owned().concat(decimal_text(layer as u64).as_str()).concat(local)
}

fn push_bank(
    tensors: &mut Vec<GgufTensorConstraint>,
    key: String,
    experts: usize,
    rows: usize,
    columns: usize,
)
    ensures
        final(tensors).deep_view() == old(tensors).deep_view().push(
            gguf_bank(key@, experts as int, rows as int, columns as int),
        ),
{
    let shape: Vec<usize> = vec![experts, rows, columns];
    assert(shape@ =~= seq![experts, rows, columns]);
    push_gguf(tensors, key, shape, TensorOperation::Matrix);
}

fn push_base(args: &ModelArgs, hidden: usize, vocabulary: usize) -> (r: Result<
    Vec<GgufTensorConstraint>,
    String,
>)
    requires
        hidden == args.hidden_size,
        vocabulary == args.vocab_size,
    ensures
        match per_layer_fault(*args) {
            Some(fault) => says(r, fault),
            None => r matches Ok(tensors) && tensors.deep_view() == gguf_base(*args),
        },
{
    let mut common: Vec<GgufTensorConstraint> = Vec::new();
    push_matrix(&mut common, "token_embd.weight".to_owned(), vocabulary, hidden);
    push_vector(&mut common, "output_norm.weight".to_owned(), hidden);
    if !args.tie_word_embeddings {
        push_matrix(&mut common, "output.weight".to_owned(), vocabulary, hidden);
    }
    if args.hidden_size_per_layer_input > 0 {
        let per_layer: usize = dimension(
            args.hidden_size_per_layer_input,
            "per-layer input width",
        )?;
        let combined: usize = checked_mul(
            args.layer_schedule.len(),
            per_layer,
            "combined per-layer input width",
        )?;
        let per_layer_vocab: usize = dimension(
            args.vocab_size_per_layer_input.unwrap_or(args.vocab_size),
            "per-layer input vocabulary size",
        )?;
        push_matrix(
            &mut common,
            "per_layer_token_embd.weight".to_owned(),
            per_layer_vocab,
            combined,
        );
        push_matrix(&mut common, "per_layer_model_proj.weight".to_owned(), combined, hidden);
        push_vector(&mut common, "per_layer_proj_norm.weight".to_owned(), per_layer);
    }
    assert(common.deep_view() =~= gguf_base(*args));
    Ok(common)
}

fn push_norms(common: &mut Vec<GgufTensorConstraint>, hidden: usize, layer: usize)
    ensures
        final(common).deep_view() == old(common).deep_view() + gguf_norms(
            hidden as int,
            layer as int,
        ),
{
    push_vector(common, block(layer, ".attn_norm.weight"), hidden);
    push_vector(common, block(layer, ".post_attention_norm.weight"), hidden);
    push_vector(common, block(layer, ".ffn_norm.weight"), hidden);
    push_vector(common, block(layer, ".post_ffw_norm.weight"), hidden);
    assert(common.deep_view() =~= old(common).deep_view() + gguf_norms(
        hidden as int,
        layer as int,
    ));
}

fn push_dense(
    common: &mut Vec<GgufTensorConstraint>,
    hidden: usize,
    query: usize,
    policy: LayerPolicy,
    layer: usize,
)
    ensures
        final(common).deep_view() == old(common).deep_view() + gguf_dense(
            hidden as int,
            query as int,
            policy,
            layer as int,
        ),
{
    let intermediate: usize = policy.intermediate_size as usize;
    push_vector(common, block(layer, ".layer_output_scale.weight"), 1);
    push_matrix(common, block(layer, ".attn_q.weight"), query, hidden);
    push_matrix(common, block(layer, ".attn_output.weight"), hidden, query);
    push_vector(common, block(layer, ".attn_q_norm.weight"), policy.head_dim as usize);
    push_matrix(common, block(layer, ".ffn_gate.weight"), intermediate, hidden);
    push_matrix(common, block(layer, ".ffn_up.weight"), intermediate, hidden);
    push_matrix(common, block(layer, ".ffn_down.weight"), hidden, intermediate);
    assert(common.deep_view() =~= old(common).deep_view() + gguf_dense(
        hidden as int,
        query as int,
        policy,
        layer as int,
    ));
}

fn push_state(
    common: &mut Vec<GgufTensorConstraint>,
    prefixes: &mut Vec<String>,
    hidden: usize,
    key_value: usize,
    policy: LayerPolicy,
    layer: usize,
)
    ensures
        final(common).deep_view() == old(common).deep_view() + gguf_state(
            hidden as int,
            key_value as int,
            policy,
            layer as int,
        ),
        final(prefixes).deep_view() == if policy.key_value is Shared {
            old(prefixes).deep_view() + seq![
                block_name(layer as int, ".attn_k."@),
                block_name(layer as int, ".attn_v."@),
                block_name(layer as int, ".attn_k_norm."@),
            ]
        } else {
            old(prefixes).deep_view()
        },
{
    if policy.key_value.owns_state() {
        push_matrix(common, block(layer, ".attn_k.weight"), key_value, hidden);
        push_vector(common, block(layer, ".attn_k_norm.weight"), policy.head_dim as usize);
        let reuses: bool = match policy.key_value.value() {
            Some(AttentionValueSource::ReuseKey) => true,
            _ => false,
        };
        if !reuses {
            push_matrix(common, block(layer, ".attn_v.weight"), key_value, hidden);
        }
    } else {
        push_item(prefixes, block(layer, ".attn_k."));
        push_item(prefixes, block(layer, ".attn_v."));
        push_item(prefixes, block(layer, ".attn_k_norm."));
        assert(prefixes.deep_view() =~= old(prefixes).deep_view() + seq![
            block_name(layer as int, ".attn_k."@),
            block_name(layer as int, ".attn_v."@),
            block_name(layer as int, ".attn_k_norm."@),
        ]);
    }
    assert(common.deep_view() =~= old(common).deep_view() + gguf_state(
        hidden as int,
        key_value as int,
        policy,
        layer as int,
    ));
}

fn push_per_layer(
    common: &mut Vec<GgufTensorConstraint>,
    hidden: usize,
    media: i32,
    layer: usize,
)
    ensures
        final(common).deep_view() == old(common).deep_view() + gguf_per_layer(
            hidden as int,
            media as int,
            layer as int,
        ),
{
    if media > 0 {
        let media: usize = media as usize;
        push_matrix(common, block(layer, ".inp_gate.weight"), media, hidden);
        push_matrix(common, block(layer, ".proj.weight"), hidden, media);
        push_vector(common, block(layer, ".post_norm.weight"), hidden);
    }
    assert(common.deep_view() =~= old(common).deep_view() + gguf_per_layer(
        hidden as int,
        media as int,
        layer as int,
    ));
}

fn push_experts(
    args: &ModelArgs,
    common: &mut Vec<GgufTensorConstraint>,
    groups: &mut Vec<AlternativeLayoutGroup<GgufTensorConstraint>>,
    hidden: usize,
    layer: usize,
) -> (r: Result<(), String>)
    ensures
        match gguf_expert_fault(*args) {
            Some(fault) => says(r, fault),
            None => {
                &&& r is Ok
                &&& final(common).deep_view() == old(common).deep_view() + gguf_experts(
                    hidden as int,
                    args.num_experts->0 as int,
                    args.moe_intermediate_size->0 as int,
                    layer as int,
                )
                &&& final(groups).deep_view() == old(groups).deep_view().push(
                    gguf_expert_group(
                        hidden as int,
                        args.num_experts->0 as int,
                        args.moe_intermediate_size->0 as int,
                        layer as int,
                    ),
                )
            },
        },
{
    let experts: usize = match args.num_experts {
        Some(experts) => dimension(experts, "expert count")?,
        None => {
            return Err("Gemma 4 MoE has no expert count".to_owned());
        },
    };
    let moe: usize = match args.moe_intermediate_size {
        Some(width) => dimension(width, "expert width")?,
        None => {
            return Err("Gemma 4 MoE has no expert width".to_owned());
        },
    };
    let fused_width: usize = checked_mul(2, moe, "fused expert width")?;
    push_matrix(common, block(layer, ".ffn_gate_inp.weight"), experts, hidden);
    push_vector(common, block(layer, ".ffn_gate_inp.scale"), hidden);
    push_vector(common, block(layer, ".ffn_down_exps.scale"), experts);
    push_vector(common, block(layer, ".post_ffw_norm_1.weight"), hidden);
    push_vector(common, block(layer, ".pre_ffw_norm_2.weight"), hidden);
    push_vector(common, block(layer, ".post_ffw_norm_2.weight"), hidden);
    push_bank(common, block(layer, ".ffn_down_exps.weight"), experts, hidden, moe);
    assert(common.deep_view() =~= old(common).deep_view() + gguf_experts(
        hidden as int,
        experts as int,
        moe as int,
        layer as int,
    ));
    let mut separate: Vec<GgufTensorConstraint> = Vec::new();
    push_bank(&mut separate, block(layer, ".ffn_gate_exps.weight"), experts, moe, hidden);
    push_bank(&mut separate, block(layer, ".ffn_up_exps.weight"), experts, moe, hidden);
    let mut packed: Vec<GgufTensorConstraint> = Vec::new();
    push_bank(
        &mut packed,
        block(layer, ".ffn_gate_up_exps.weight"),
        experts,
        fused_width,
        hidden,
    );
    proof {
        let gate = block_name(layer as int, ".ffn_gate_exps.weight"@);
        let up = block_name(layer as int, ".ffn_up_exps.weight"@);
        let fused = block_name(layer as int, ".ffn_gate_up_exps.weight"@);
        assert(separate.deep_view() =~= seq![
            gguf_bank(gate, experts as int, moe as int, hidden as int),
            gguf_bank(up, experts as int, moe as int, hidden as int),
        ]);
        assert(packed.deep_view() =~= seq![
            gguf_bank(fused, experts as int, 2 * moe as int, hidden as int),
        ]);
    }
    push_gate_up_group(
        groups,
        block(layer, " expert gate/up storage"),
        separate,
        block(layer, ".ffn_gate_exps.weight"),
        block(layer, ".ffn_up_exps.weight"),
        packed,
        block(layer, ".ffn_gate_up_exps.weight"),
    );
    Ok(())
}

proof fn lemma_layers_fault_stable(args: ModelArgs, from: int, to: int)
    requires
        from <= to,
        gguf_layers_fault(args, from) is Some,
    ensures
        gguf_layers_fault(args, to) == gguf_layers_fault(args, from),
    decreases to - from,
{
    if from < to {
        lemma_layers_fault_stable(args, from, to - 1);
    }
}

/// Tensors, layouts, and admitted prefixes under construction.
struct Parts {
    common: Vec<GgufTensorConstraint>,
    groups: Vec<AlternativeLayoutGroup<GgufTensorConstraint>>,
    prefixes: Vec<String>,
}

impl Parts {
    /// The parts cover the first `layers` layers.
    spec fn cover(self, args: ModelArgs, layers: int) -> bool {
        &&& self.common.deep_view() == gguf_tensors(args, layers)
        &&& self.groups.deep_view() == gguf_groups(args, layers)
        &&& self.prefixes.deep_view() == gguf_prefixes(args, layers)
    }
}

fn push_layer(
    args: &ModelArgs,
    parts: Parts,
    hidden: usize,
    attention_heads: usize,
    layer: usize,
) -> (r: Result<Parts, String>)
    requires
        layer < args.layer_schedule.len(),
        hidden == args.hidden_size,
        attention_heads == args.num_attention_heads,
        parts.cover(*args, layer as int),
    ensures
        match gguf_layer_fault(*args, layer as int) {
            Some(fault) => says(r, fault),
            None => r matches Ok(parts) && parts.cover(*args, layer as int + 1),
        },
{
    let policy: LayerPolicy = args.layer_schedule[layer];
    let head: usize = policy.head_dim as usize;
    let query: usize = checked_mul(attention_heads, head, "query projection width")?;
    let key_value: usize = checked_mul(
        policy.num_key_value_heads as usize,
        head,
        "key/value projection width",
    )?;
    let mut common = parts.common;
    let mut groups = parts.groups;
    let mut prefixes = parts.prefixes;
    push_norms(&mut common, hidden, layer);
    push_dense(&mut common, hidden, query, policy, layer);
    push_state(&mut common, &mut prefixes, hidden, key_value, policy, layer);
    push_per_layer(&mut common, hidden, args.hidden_size_per_layer_input, layer);
    match policy.feed_forward {
        FeedForwardPolicy::DenseWithSparseMoe => {
            push_experts(args, &mut common, &mut groups, hidden, layer)?;
        },
        FeedForwardPolicy::Dense => {},
    }
    assert(common.deep_view() =~= gguf_tensors(*args, layer as int + 1));
    Ok(Parts { common, groups, prefixes })
}

/// What a complete catalog says.
pub open spec fn is_gguf_catalog(plan: GgufCheckpointPlan, args: ModelArgs) -> bool {
    let layers = args.layer_schedule.len() as int;
    &&& plan.name@ == "Gemma 4 GGUF"@
    &&& plan.common_tensors.deep_view() == gguf_tensors(args, layers)
    &&& plan.layout_groups.deep_view() == gguf_groups(args, layers)
    &&& plan.catalog_policy.strict
    &&& plan.catalog_policy.allowed_prefixes.deep_view() == gguf_prefixes(args, layers)
}

/// Builds the strict text GGUF catalog, including shared-KV omissions and split/fused
/// routed-expert alternatives.
pub fn gguf_plan(args: &ModelArgs) -> (r: Result<GgufCheckpointPlan, String>)
    ensures
        match gguf_fault(*args) {
            Some(fault) => says(r, fault),
            None => r matches Ok(plan) && is_gguf_catalog(plan, *args),
        },
{
    let hidden: usize = dimension(args.hidden_size, "hidden size")?;
    let layers: usize = args.num_hidden_layers();
    let vocabulary: usize = dimension(args.vocab_size, "vocabulary size")?;
    let common = push_base(args, hidden, vocabulary)?;
    let attention_heads: usize = dimension(args.num_attention_heads, "attention head count")?;
    let mut parts = Parts {
        common,
        groups: Vec::new(),
        prefixes: vec!["rope_freqs.".to_owned()],
    };
    assert(parts.prefixes.deep_view() =~= seq!["rope_freqs."@]);
    assert(parts.groups.deep_view() =~= Seq::empty());
    let mut layer: usize = 0;
    while layer < layers
        invariant
            layer <= layers,
            layers == args.layer_schedule.len(),
            hidden == args.hidden_size,
            attention_heads == args.num_attention_heads,
            gguf_layers_fault(*args, layer as int) is None,
            gguf_fault(*args) == gguf_layers_fault(*args, layers as int),
            parts.cover(*args, layer as int),
        decreases layers - layer,
    {
        proof {
            if gguf_layer_fault(*args, layer as int) is Some {
                lemma_layers_fault_stable(*args, layer as int + 1, layers as int);
            }
        }
        parts = push_layer(args, parts, hidden, attention_heads, layer)?;
        layer = layer + 1;
    }
    Ok(
        GgufCheckpointPlan {
            name: "Gemma 4 GGUF".to_owned(),
            common_tensors: parts.common,
            layout_groups: parts.groups,
            catalog_policy: CatalogPolicy { strict: true, allowed_prefixes: parts.prefixes },
        },
    )
}

} // verus!
