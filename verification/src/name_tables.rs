//! The neutral name of every released GGUF parameter.

use crate::text::decimal;
use crate::weight_names::{
    block_identity, law_block_names_keep_their_layer, renamed, root_identity, translated,
};
use vstd::prelude::*;

verus! {

/// Whether a text holds no component separator.
spec fn is_component(text: Seq<char>) -> bool {
    forall|i: int| 0 <= i < text.len() ==> #[trigger] text[i] != '.'
}

/// Whether a text can follow a component: it is empty, or begins with a separator.
pub open spec fn follows(tail: Seq<char>) -> bool {
    tail.len() == 0 || tail[0] == '.'
}

proof fn lemma_leads(source: Seq<char>, target: Seq<char>, tail: Seq<char>)
    requires
        follows(tail),
    ensures
        renamed(source + tail, source, target) == Some(target + tail),
{
    reveal_strlit(".");
    let name = source + tail;
    assert(name.subrange(source.len() as int, name.len() as int) =~= tail);
    if tail.len() == 0 {
        assert(name =~= source);
    } else {
        assert(name.subrange(0, source.len() as int + 1) =~= source + "."@);
    }
}

proof fn lemma_other(source: Seq<char>, tail: Seq<char>)
    requires
        follows(tail),
        is_component(source),
    ensures
        forall|other: Seq<char>, target: Seq<char>|
            is_component(other) && other != source ==> #[trigger] renamed(
                source + tail,
                other,
                target,
            ) is None,
{
    reveal_strlit(".");
    let name = source + tail;
    assert forall|other: Seq<char>, target: Seq<char>|
        is_component(other) && other != source implies #[trigger] renamed(
        name,
        other,
        target,
    ) is None by {
        if renamed(name, other, target) is Some {
            if name == other {
                if tail.len() > 0 {
                    assert(other[source.len() as int] == '.');
                }
                assert(name =~= source);
            } else {
                assert((other + "."@)[other.len() as int] == '.');
                assert(name[other.len() as int] == '.') by {
                    assert(name.subrange(0, other.len() as int + 1)[other.len() as int] == '.');
                }
                if other.len() < source.len() {
                    assert(source[other.len() as int] == '.');
                }
                if source.len() < other.len() {
                    assert(name.subrange(0, other.len() as int + 1)[source.len() as int] == '.');
                    assert(other[source.len() as int] == '.');
                }
                assert forall|i: int| 0 <= i < other.len() implies other[i] == source[i] by {
                    assert(name.subrange(0, other.len() as int + 1)[i] == other[i]);
                }
                assert(other =~= source);
            }
        }
    }
}

proof fn lemma_components()
    ensures
        is_component("attn_q"@),
        is_component("attn_k"@),
        is_component("attn_v"@),
        is_component("attn_output"@),
        is_component("attn_q_norm"@),
        is_component("attn_k_norm"@),
        is_component("attn_norm"@),
        is_component("post_attention_norm"@),
        is_component("ffn_norm"@),
        is_component("post_ffw_norm_1"@),
        is_component("pre_ffw_norm_2"@),
        is_component("post_ffw_norm_2"@),
        is_component("post_ffw_norm"@),
        is_component("layer_output_scale"@),
        is_component("ffn_gate_inp"@),
        is_component("ffn_gate_up_exps"@),
        is_component("ffn_gate_exps"@),
        is_component("ffn_up_exps"@),
        is_component("ffn_down_exps"@),
        is_component("ffn_gate"@),
        is_component("ffn_up"@),
        is_component("ffn_down"@),
        is_component("inp_gate"@),
        is_component("proj"@),
        is_component("post_norm"@),
        is_component("token_embd"@),
        is_component("output_norm"@),
        is_component("output"@),
        is_component("per_layer_token_embd"@),
        is_component("per_layer_model_proj"@),
        is_component("per_layer_proj_norm"@),
{
    reveal_strlit("attn_q");
    reveal_strlit("attn_k");
    reveal_strlit("attn_v");
    reveal_strlit("attn_output");
    reveal_strlit("attn_q_norm");
    reveal_strlit("attn_k_norm");
    reveal_strlit("attn_norm");
    reveal_strlit("post_attention_norm");
    reveal_strlit("ffn_norm");
    reveal_strlit("post_ffw_norm_1");
    reveal_strlit("pre_ffw_norm_2");
    reveal_strlit("post_ffw_norm_2");
    reveal_strlit("post_ffw_norm");
    reveal_strlit("layer_output_scale");
    reveal_strlit("ffn_gate_inp");
    reveal_strlit("ffn_gate_up_exps");
    reveal_strlit("ffn_gate_exps");
    reveal_strlit("ffn_up_exps");
    reveal_strlit("ffn_down_exps");
    reveal_strlit("ffn_gate");
    reveal_strlit("ffn_up");
    reveal_strlit("ffn_down");
    reveal_strlit("inp_gate");
    reveal_strlit("proj");
    reveal_strlit("post_norm");
    reveal_strlit("token_embd");
    reveal_strlit("output_norm");
    reveal_strlit("output");
    reveal_strlit("per_layer_token_embd");
    reveal_strlit("per_layer_model_proj");
    reveal_strlit("per_layer_proj_norm");
}

proof fn lemma_parameters_apart()
    ensures
        "attn_q"@.len() == 6,
        "attn_q"@[5] == 'q',
        "attn_k"@.len() == 6,
        "attn_k"@[5] == 'k',
        "attn_v"@.len() == 6,
        "attn_v"@[5] == 'v',
        "attn_output"@.len() == 11,
        "attn_output"@[5] == 'o',
        "attn_q_norm"@.len() == 11,
        "attn_q_norm"@[5] == 'q',
        "attn_k_norm"@.len() == 11,
        "attn_k_norm"@[5] == 'k',
        "attn_norm"@.len() == 9,
        "attn_norm"@[0] == 'a',
        "post_attention_norm"@.len() == 19,
        "ffn_norm"@.len() == 8,
        "ffn_norm"@[0] == 'f',
        "ffn_norm"@[4] == 'n',
        "post_ffw_norm_1"@.len() == 15,
        "post_ffw_norm_1"@[14] == '1',
        "pre_ffw_norm_2"@.len() == 14,
        "post_ffw_norm_2"@.len() == 15,
        "post_ffw_norm_2"@[14] == '2',
        "post_ffw_norm"@.len() == 13,
        "post_ffw_norm"@[4] == '_',
        "layer_output_scale"@.len() == 18,
        "ffn_gate_inp"@.len() == 12,
        "ffn_gate_up_exps"@.len() == 16,
        "ffn_gate_exps"@.len() == 13,
        "ffn_gate_exps"@[4] == 'g',
        "ffn_up_exps"@.len() == 11,
        "ffn_up_exps"@[5] == 'p',
        "ffn_down_exps"@.len() == 13,
        "ffn_down_exps"@[4] == 'd',
        "ffn_gate"@.len() == 8,
        "ffn_gate"@[0] == 'f',
        "ffn_gate"@[4] == 'g',
        "ffn_up"@.len() == 6,
        "ffn_up"@[5] == 'p',
        "ffn_down"@.len() == 8,
        "ffn_down"@[0] == 'f',
        "ffn_down"@[4] == 'd',
        "inp_gate"@.len() == 8,
        "inp_gate"@[0] == 'i',
        "inp_gate"@[4] == 'g',
        "proj"@.len() == 4,
        "post_norm"@.len() == 9,
        "post_norm"@[0] == 'p',
{
    reveal_strlit("attn_q");
    reveal_strlit("attn_k");
    reveal_strlit("attn_v");
    reveal_strlit("attn_output");
    reveal_strlit("attn_q_norm");
    reveal_strlit("attn_k_norm");
    reveal_strlit("attn_norm");
    reveal_strlit("post_attention_norm");
    reveal_strlit("ffn_norm");
    reveal_strlit("post_ffw_norm_1");
    reveal_strlit("pre_ffw_norm_2");
    reveal_strlit("post_ffw_norm_2");
    reveal_strlit("post_ffw_norm");
    reveal_strlit("layer_output_scale");
    reveal_strlit("ffn_gate_inp");
    reveal_strlit("ffn_gate_up_exps");
    reveal_strlit("ffn_gate_exps");
    reveal_strlit("ffn_up_exps");
    reveal_strlit("ffn_down_exps");
    reveal_strlit("ffn_gate");
    reveal_strlit("ffn_up");
    reveal_strlit("ffn_down");
    reveal_strlit("inp_gate");
    reveal_strlit("proj");
    reveal_strlit("post_norm");
}

proof fn lemma_attention_table(tail: Seq<char>)
    requires
        follows(tail),
    ensures
        block_identity("attn_q"@ + tail) == Some("self_attn.q_proj"@ + tail),
        block_identity("attn_k"@ + tail) == Some("self_attn.k_proj"@ + tail),
        block_identity("attn_v"@ + tail) == Some("self_attn.v_proj"@ + tail),
        block_identity("attn_output"@ + tail) == Some("self_attn.o_proj"@ + tail),
        block_identity("attn_q_norm"@ + tail) == Some("self_attn.q_norm"@ + tail),
        block_identity("attn_k_norm"@ + tail) == Some("self_attn.k_norm"@ + tail),
{
    lemma_components();
    assert(block_identity("attn_q"@ + tail) == Some("self_attn.q_proj"@ + tail)) by {
        lemma_parameters_apart();
        lemma_leads("attn_q"@, "self_attn.q_proj"@, tail);
        lemma_other("attn_q"@, tail);
    }
    assert(block_identity("attn_k"@ + tail) == Some("self_attn.k_proj"@ + tail)) by {
        lemma_parameters_apart();
        lemma_leads("attn_k"@, "self_attn.k_proj"@, tail);
        lemma_other("attn_k"@, tail);
    }
    assert(block_identity("attn_v"@ + tail) == Some("self_attn.v_proj"@ + tail)) by {
        lemma_parameters_apart();
        lemma_leads("attn_v"@, "self_attn.v_proj"@, tail);
        lemma_other("attn_v"@, tail);
    }
    assert(block_identity("attn_output"@ + tail) == Some("self_attn.o_proj"@ + tail)) by {
        lemma_parameters_apart();
        lemma_leads("attn_output"@, "self_attn.o_proj"@, tail);
        lemma_other("attn_output"@, tail);
    }
    assert(block_identity("attn_q_norm"@ + tail) == Some("self_attn.q_norm"@ + tail)) by {
        lemma_parameters_apart();
        lemma_leads("attn_q_norm"@, "self_attn.q_norm"@, tail);
        lemma_other("attn_q_norm"@, tail);
    }
    assert(block_identity("attn_k_norm"@ + tail) == Some("self_attn.k_norm"@ + tail)) by {
        lemma_parameters_apart();
        lemma_leads("attn_k_norm"@, "self_attn.k_norm"@, tail);
        lemma_other("attn_k_norm"@, tail);
    }
}

proof fn lemma_norm_table(tail: Seq<char>)
    requires
        follows(tail),
    ensures
        block_identity("attn_norm"@ + tail) == Some("input_layernorm"@ + tail),
        block_identity("post_attention_norm"@ + tail) == Some("post_attention_layernorm"@ + tail),
        block_identity("ffn_norm"@ + tail) == Some("pre_feedforward_layernorm"@ + tail),
        block_identity("post_ffw_norm_1"@ + tail) == Some("post_feedforward_layernorm_1"@ + tail),
        block_identity("pre_ffw_norm_2"@ + tail) == Some("pre_feedforward_layernorm_2"@ + tail),
        block_identity("post_ffw_norm_2"@ + tail) == Some("post_feedforward_layernorm_2"@ + tail),
        block_identity("post_ffw_norm"@ + tail) == Some("post_feedforward_layernorm"@ + tail),
        block_identity("layer_output_scale"@ + tail) == Some("layer_scalar"@ + tail),
{
    lemma_components();
    assert(block_identity("attn_norm"@ + tail) == Some("input_layernorm"@ + tail)) by {
        lemma_parameters_apart();
        lemma_leads("attn_norm"@, "input_layernorm"@, tail);
        lemma_other("attn_norm"@, tail);
    }
    assert(
        block_identity("post_attention_norm"@ + tail) == Some("post_attention_layernorm"@ + tail)
    ) by {
        lemma_parameters_apart();
        lemma_leads("post_attention_norm"@, "post_attention_layernorm"@, tail);
        lemma_other("post_attention_norm"@, tail);
    }
    assert(block_identity("ffn_norm"@ + tail) == Some("pre_feedforward_layernorm"@ + tail)) by {
        lemma_parameters_apart();
        lemma_leads("ffn_norm"@, "pre_feedforward_layernorm"@, tail);
        lemma_other("ffn_norm"@, tail);
    }
    assert(
        block_identity("post_ffw_norm_1"@ + tail) == Some("post_feedforward_layernorm_1"@ + tail)
    ) by {
        lemma_parameters_apart();
        lemma_leads("post_ffw_norm_1"@, "post_feedforward_layernorm_1"@, tail);
        lemma_other("post_ffw_norm_1"@, tail);
    }
    assert(
        block_identity("pre_ffw_norm_2"@ + tail) == Some("pre_feedforward_layernorm_2"@ + tail)
    ) by {
        lemma_parameters_apart();
        lemma_leads("pre_ffw_norm_2"@, "pre_feedforward_layernorm_2"@, tail);
        lemma_other("pre_ffw_norm_2"@, tail);
    }
    assert(
        block_identity("post_ffw_norm_2"@ + tail) == Some("post_feedforward_layernorm_2"@ + tail)
    ) by {
        lemma_parameters_apart();
        lemma_leads("post_ffw_norm_2"@, "post_feedforward_layernorm_2"@, tail);
        lemma_other("post_ffw_norm_2"@, tail);
    }
    assert(
        block_identity("post_ffw_norm"@ + tail) == Some("post_feedforward_layernorm"@ + tail)
    ) by {
        lemma_parameters_apart();
        lemma_leads("post_ffw_norm"@, "post_feedforward_layernorm"@, tail);
        lemma_other("post_ffw_norm"@, tail);
    }
    assert(block_identity("layer_output_scale"@ + tail) == Some("layer_scalar"@ + tail)) by {
        lemma_parameters_apart();
        lemma_leads("layer_output_scale"@, "layer_scalar"@, tail);
        lemma_other("layer_output_scale"@, tail);
    }
}

proof fn lemma_feed_forward_table(tail: Seq<char>)
    requires
        follows(tail),
    ensures
        block_identity("ffn_gate_inp"@ + tail) == Some("router.proj"@ + tail),
        block_identity("ffn_gate_up_exps"@ + tail) == Some(
            "experts.switch_glu.gate_up_proj"@ + tail,
        ),
        block_identity("ffn_gate_exps"@ + tail) == Some("experts.switch_glu.gate_proj"@ + tail),
        block_identity("ffn_up_exps"@ + tail) == Some("experts.switch_glu.up_proj"@ + tail),
        block_identity("ffn_down_exps"@ + tail) == Some("experts.switch_glu.down_proj"@ + tail),
        block_identity("ffn_gate"@ + tail) == Some("mlp.gate_proj"@ + tail),
        block_identity("ffn_up"@ + tail) == Some("mlp.up_proj"@ + tail),
        block_identity("ffn_down"@ + tail) == Some("mlp.down_proj"@ + tail),
        block_identity("inp_gate"@ + tail) == Some("per_layer_input_gate"@ + tail),
        block_identity("proj"@ + tail) == Some("per_layer_projection"@ + tail),
        block_identity("post_norm"@ + tail) == Some("post_per_layer_input_norm"@ + tail),
{
    lemma_components();
    assert(block_identity("ffn_gate_inp"@ + tail) == Some("router.proj"@ + tail)) by {
        lemma_parameters_apart();
        lemma_leads("ffn_gate_inp"@, "router.proj"@, tail);
        lemma_other("ffn_gate_inp"@, tail);
    }
    assert(
        block_identity("ffn_gate_up_exps"@ + tail) == Some(
            "experts.switch_glu.gate_up_proj"@ + tail,
        )
    ) by {
        lemma_parameters_apart();
        lemma_leads("ffn_gate_up_exps"@, "experts.switch_glu.gate_up_proj"@, tail);
        lemma_other("ffn_gate_up_exps"@, tail);
    }
    assert(
        block_identity("ffn_gate_exps"@ + tail) == Some("experts.switch_glu.gate_proj"@ + tail)
    ) by {
        lemma_parameters_apart();
        lemma_leads("ffn_gate_exps"@, "experts.switch_glu.gate_proj"@, tail);
        lemma_other("ffn_gate_exps"@, tail);
    }
    assert(block_identity("ffn_up_exps"@ + tail) == Some("experts.switch_glu.up_proj"@ + tail)) by {
        lemma_parameters_apart();
        lemma_leads("ffn_up_exps"@, "experts.switch_glu.up_proj"@, tail);
        lemma_other("ffn_up_exps"@, tail);
    }
    assert(
        block_identity("ffn_down_exps"@ + tail) == Some("experts.switch_glu.down_proj"@ + tail)
    ) by {
        lemma_parameters_apart();
        lemma_leads("ffn_down_exps"@, "experts.switch_glu.down_proj"@, tail);
        lemma_other("ffn_down_exps"@, tail);
    }
    assert(block_identity("ffn_gate"@ + tail) == Some("mlp.gate_proj"@ + tail)) by {
        lemma_parameters_apart();
        lemma_leads("ffn_gate"@, "mlp.gate_proj"@, tail);
        lemma_other("ffn_gate"@, tail);
    }
    assert(block_identity("ffn_up"@ + tail) == Some("mlp.up_proj"@ + tail)) by {
        lemma_parameters_apart();
        lemma_leads("ffn_up"@, "mlp.up_proj"@, tail);
        lemma_other("ffn_up"@, tail);
    }
    assert(block_identity("ffn_down"@ + tail) == Some("mlp.down_proj"@ + tail)) by {
        lemma_parameters_apart();
        lemma_leads("ffn_down"@, "mlp.down_proj"@, tail);
        lemma_other("ffn_down"@, tail);
    }
    assert(block_identity("inp_gate"@ + tail) == Some("per_layer_input_gate"@ + tail)) by {
        lemma_parameters_apart();
        lemma_leads("inp_gate"@, "per_layer_input_gate"@, tail);
        lemma_other("inp_gate"@, tail);
    }
    assert(block_identity("proj"@ + tail) == Some("per_layer_projection"@ + tail)) by {
        lemma_parameters_apart();
        lemma_leads("proj"@, "per_layer_projection"@, tail);
        lemma_other("proj"@, tail);
    }
    assert(block_identity("post_norm"@ + tail) == Some("post_per_layer_input_norm"@ + tail)) by {
        lemma_parameters_apart();
        lemma_leads("post_norm"@, "post_per_layer_input_norm"@, tail);
        lemma_other("post_norm"@, tail);
    }
}

proof fn lemma_roots_apart()
    ensures
        "token_embd"@.len() == 10,
        "output_norm"@.len() == 11,
        "output"@.len() == 6,
        "per_layer_token_embd"@.len() == 20,
        "per_layer_token_embd"@[10] == 't',
        "per_layer_model_proj"@.len() == 20,
        "per_layer_model_proj"@[10] == 'm',
        "per_layer_proj_norm"@.len() == 19,
{
    reveal_strlit("token_embd");
    reveal_strlit("output_norm");
    reveal_strlit("output");
    reveal_strlit("per_layer_token_embd");
    reveal_strlit("per_layer_model_proj");
    reveal_strlit("per_layer_proj_norm");
}

proof fn lemma_root_table(tail: Seq<char>)
    requires
        follows(tail),
    ensures
        root_identity("token_embd"@ + tail) == Some("model.embed_tokens"@ + tail),
        root_identity("output_norm"@ + tail) == Some("model.norm"@ + tail),
        root_identity("output"@ + tail) == Some("lm_head"@ + tail),
        root_identity("per_layer_token_embd"@ + tail) == Some(
            "model.embed_tokens_per_layer"@ + tail,
        ),
        root_identity("per_layer_model_proj"@ + tail) == Some(
            "model.per_layer_model_projection"@ + tail,
        ),
        root_identity("per_layer_proj_norm"@ + tail) == Some(
            "model.per_layer_projection_norm"@ + tail,
        ),
{
    lemma_components();
    assert(root_identity("token_embd"@ + tail) == Some("model.embed_tokens"@ + tail)) by {
        lemma_roots_apart();
        lemma_leads("token_embd"@, "model.embed_tokens"@, tail);
        lemma_other("token_embd"@, tail);
    }
    assert(root_identity("output_norm"@ + tail) == Some("model.norm"@ + tail)) by {
        lemma_roots_apart();
        lemma_leads("output_norm"@, "model.norm"@, tail);
        lemma_other("output_norm"@, tail);
    }
    assert(root_identity("output"@ + tail) == Some("lm_head"@ + tail)) by {
        lemma_roots_apart();
        lemma_leads("output"@, "lm_head"@, tail);
        lemma_other("output"@, tail);
    }
    assert(
        root_identity("per_layer_token_embd"@ + tail) == Some(
            "model.embed_tokens_per_layer"@ + tail,
        )
    ) by {
        lemma_roots_apart();
        lemma_leads("per_layer_token_embd"@, "model.embed_tokens_per_layer"@, tail);
        lemma_other("per_layer_token_embd"@, tail);
    }
    assert(
        root_identity("per_layer_model_proj"@ + tail) == Some(
            "model.per_layer_model_projection"@ + tail,
        )
    ) by {
        lemma_roots_apart();
        lemma_leads("per_layer_model_proj"@, "model.per_layer_model_projection"@, tail);
        lemma_other("per_layer_model_proj"@, tail);
    }
    assert(
        root_identity("per_layer_proj_norm"@ + tail) == Some(
            "model.per_layer_projection_norm"@ + tail,
        )
    ) by {
        lemma_roots_apart();
        lemma_leads("per_layer_proj_norm"@, "model.per_layer_projection_norm"@, tail);
        lemma_other("per_layer_proj_norm"@, tail);
    }
}

/// A tensor outside the blocks has the neutral name of its leading component, before whatever
/// follows it.
pub proof fn law_released_tensors_have_their_names(tail: Seq<char>)
    requires
        follows(tail),
    ensures
        translated("token_embd"@ + tail) == "model.embed_tokens"@ + tail,
        translated("output_norm"@ + tail) == "model.norm"@ + tail,
        translated("output"@ + tail) == "lm_head"@ + tail,
        translated("per_layer_token_embd"@ + tail) == "model.embed_tokens_per_layer"@ + tail,
        translated("per_layer_model_proj"@ + tail) == "model.per_layer_model_projection"@ + tail,
        translated("per_layer_proj_norm"@ + tail) == "model.per_layer_projection_norm"@ + tail,
{
    lemma_root_table(tail);
}

/// Released name of a block parameter.
pub open spec fn in_block(layer: nat, released: Seq<char>, tail: Seq<char>) -> Seq<char> {
    "blk."@ + decimal(layer) + "."@ + released + tail
}

/// Neutral name of a layer parameter.
pub open spec fn in_layer(layer: nat, neutral: Seq<char>, tail: Seq<char>) -> Seq<char> {
    "model.layers."@ + decimal(layer) + "."@ + neutral + tail
}

proof fn lemma_translates(layer: nat, released: Seq<char>, neutral: Seq<char>, tail: Seq<char>)
    requires
        block_identity(released + tail) == Some(neutral + tail),
    ensures
        translated(in_block(layer, released, tail)) == in_layer(layer, neutral, tail),
{
    law_block_names_keep_their_layer(layer, released + tail);
    assert("blk."@ + decimal(layer) + "."@ + (released + tail) =~= in_block(
        layer,
        released,
        tail,
    ));
    assert("model.layers."@ + decimal(layer) + "."@ + (neutral + tail) =~= in_layer(
        layer,
        neutral,
        tail,
    ));
}

/// Attention parameters of a released block have their own neutral name inside the same
/// layer, before whatever follows the leading component.
pub proof fn law_released_attention_names(layer: nat, tail: Seq<char>)
    requires
        follows(tail),
    ensures
        translated(in_block(layer, "attn_q"@, tail)) == in_layer(
            layer,
            "self_attn.q_proj"@,
            tail,
        ),
        translated(in_block(layer, "attn_k"@, tail)) == in_layer(
            layer,
            "self_attn.k_proj"@,
            tail,
        ),
        translated(in_block(layer, "attn_v"@, tail)) == in_layer(
            layer,
            "self_attn.v_proj"@,
            tail,
        ),
        translated(in_block(layer, "attn_output"@, tail)) == in_layer(
            layer,
            "self_attn.o_proj"@,
            tail,
        ),
        translated(in_block(layer, "attn_q_norm"@, tail)) == in_layer(
            layer,
            "self_attn.q_norm"@,
            tail,
        ),
        translated(in_block(layer, "attn_k_norm"@, tail)) == in_layer(
            layer,
            "self_attn.k_norm"@,
            tail,
        ),
{
    lemma_attention_table(tail);
    lemma_translates(layer, "attn_q"@, "self_attn.q_proj"@, tail);
    lemma_translates(layer, "attn_k"@, "self_attn.k_proj"@, tail);
    lemma_translates(layer, "attn_v"@, "self_attn.v_proj"@, tail);
    lemma_translates(layer, "attn_output"@, "self_attn.o_proj"@, tail);
    lemma_translates(layer, "attn_q_norm"@, "self_attn.q_norm"@, tail);
    lemma_translates(layer, "attn_k_norm"@, "self_attn.k_norm"@, tail);
}

/// Norms and the scale of a released block have their own neutral name inside the same
/// layer, before whatever follows the leading component.
pub proof fn law_released_norm_names(layer: nat, tail: Seq<char>)
    requires
        follows(tail),
    ensures
        translated(in_block(layer, "attn_norm"@, tail)) == in_layer(
            layer,
            "input_layernorm"@,
            tail,
        ),
        translated(in_block(layer, "post_attention_norm"@, tail)) == in_layer(
            layer,
            "post_attention_layernorm"@,
            tail,
        ),
        translated(in_block(layer, "ffn_norm"@, tail)) == in_layer(
            layer,
            "pre_feedforward_layernorm"@,
            tail,
        ),
        translated(in_block(layer, "post_ffw_norm_1"@, tail)) == in_layer(
            layer,
            "post_feedforward_layernorm_1"@,
            tail,
        ),
        translated(in_block(layer, "pre_ffw_norm_2"@, tail)) == in_layer(
            layer,
            "pre_feedforward_layernorm_2"@,
            tail,
        ),
        translated(in_block(layer, "post_ffw_norm_2"@, tail)) == in_layer(
            layer,
            "post_feedforward_layernorm_2"@,
            tail,
        ),
        translated(in_block(layer, "post_ffw_norm"@, tail)) == in_layer(
            layer,
            "post_feedforward_layernorm"@,
            tail,
        ),
        translated(in_block(layer, "layer_output_scale"@, tail)) == in_layer(
            layer,
            "layer_scalar"@,
            tail,
        ),
{
    lemma_norm_table(tail);
    lemma_translates(layer, "attn_norm"@, "input_layernorm"@, tail);
    lemma_translates(layer, "post_attention_norm"@, "post_attention_layernorm"@, tail);
    lemma_translates(layer, "ffn_norm"@, "pre_feedforward_layernorm"@, tail);
    lemma_translates(layer, "post_ffw_norm_1"@, "post_feedforward_layernorm_1"@, tail);
    lemma_translates(layer, "pre_ffw_norm_2"@, "pre_feedforward_layernorm_2"@, tail);
    lemma_translates(layer, "post_ffw_norm_2"@, "post_feedforward_layernorm_2"@, tail);
    lemma_translates(layer, "post_ffw_norm"@, "post_feedforward_layernorm"@, tail);
    lemma_translates(layer, "layer_output_scale"@, "layer_scalar"@, tail);
}

/// Feed-forward, expert, and per-layer-input parameters of a released block have their own
/// neutral name inside the same layer, before whatever follows the leading component.
pub proof fn law_released_feed_forward_names(layer: nat, tail: Seq<char>)
    requires
        follows(tail),
    ensures
        translated(in_block(layer, "ffn_gate_inp"@, tail)) == in_layer(
            layer,
            "router.proj"@,
            tail,
        ),
        translated(in_block(layer, "ffn_gate_up_exps"@, tail)) == in_layer(
            layer,
            "experts.switch_glu.gate_up_proj"@,
            tail,
        ),
        translated(in_block(layer, "ffn_gate_exps"@, tail)) == in_layer(
            layer,
            "experts.switch_glu.gate_proj"@,
            tail,
        ),
        translated(in_block(layer, "ffn_up_exps"@, tail)) == in_layer(
            layer,
            "experts.switch_glu.up_proj"@,
            tail,
        ),
        translated(in_block(layer, "ffn_down_exps"@, tail)) == in_layer(
            layer,
            "experts.switch_glu.down_proj"@,
            tail,
        ),
        translated(in_block(layer, "ffn_gate"@, tail)) == in_layer(
            layer,
            "mlp.gate_proj"@,
            tail,
        ),
        translated(in_block(layer, "ffn_up"@, tail)) == in_layer(
            layer,
            "mlp.up_proj"@,
            tail,
        ),
        translated(in_block(layer, "ffn_down"@, tail)) == in_layer(
            layer,
            "mlp.down_proj"@,
            tail,
        ),
        translated(in_block(layer, "inp_gate"@, tail)) == in_layer(
            layer,
            "per_layer_input_gate"@,
            tail,
        ),
        translated(in_block(layer, "proj"@, tail)) == in_layer(
            layer,
            "per_layer_projection"@,
            tail,
        ),
        translated(in_block(layer, "post_norm"@, tail)) == in_layer(
            layer,
            "post_per_layer_input_norm"@,
            tail,
        ),
{
    lemma_feed_forward_table(tail);
    lemma_translates(layer, "ffn_gate_inp"@, "router.proj"@, tail);
    lemma_translates(layer, "ffn_gate_up_exps"@, "experts.switch_glu.gate_up_proj"@, tail);
    lemma_translates(layer, "ffn_gate_exps"@, "experts.switch_glu.gate_proj"@, tail);
    lemma_translates(layer, "ffn_up_exps"@, "experts.switch_glu.up_proj"@, tail);
    lemma_translates(layer, "ffn_down_exps"@, "experts.switch_glu.down_proj"@, tail);
    lemma_translates(layer, "ffn_gate"@, "mlp.gate_proj"@, tail);
    lemma_translates(layer, "ffn_up"@, "mlp.up_proj"@, tail);
    lemma_translates(layer, "ffn_down"@, "mlp.down_proj"@, tail);
    lemma_translates(layer, "inp_gate"@, "per_layer_input_gate"@, tail);
    lemma_translates(layer, "proj"@, "per_layer_projection"@, tail);
    lemma_translates(layer, "post_norm"@, "post_per_layer_input_norm"@, tail);
}

} // verus!
