//! Neutral parameter identities of released GGUF names.

use crate::text::{
    decimal, find_from, has_prefix, lemma_numeral, same_text, split_at_first, split_once, starts_with,
    strip_prefix, stripped,
};
use vstd::prelude::*;

verus! {

/// `name` with its leading component `source` replaced by `target`, where it leads.
pub open spec fn renamed(name: Seq<char>, source: Seq<char>, target: Seq<char>) -> Option<
    Seq<char>,
> {
    if name == source || has_prefix(name, source + "."@) {
        Some(target + name.subrange(source.len() as int, name.len() as int))
    } else {
        None
    }
}

/// Replaces the leading component `source` of `name` by `target`, where it leads.
pub fn rename(name: &str, source: &str, target: &str) -> (r: Option<String>)
    ensures
        r.deep_view() == renamed(name@, source@, target@),
{
    if same_text(name, source) || starts_with(name, source.to_owned().concat(".").as_str()) {
        Some(
            target.to_owned().concat(
                name.substring_char(source.unicode_len(), name.unicode_len()),
            ),
        )
    } else {
        None
    }
}

/// Neutral identity of a tensor outside the blocks.
pub open spec fn root_identity(name: Seq<char>) -> Option<Seq<char>> {
    if let Some(r) = renamed(name, "token_embd"@, "model.embed_tokens"@) {
        Some(r)
    } else if let Some(r) = renamed(name, "output_norm"@, "model.norm"@) {
        Some(r)
    } else if let Some(r) = renamed(name, "output"@, "lm_head"@) {
        Some(r)
    } else if let Some(r) = renamed(
        name,
        "per_layer_token_embd"@,
        "model.embed_tokens_per_layer"@,
    ) {
        Some(r)
    } else if let Some(r) = renamed(
        name,
        "per_layer_model_proj"@,
        "model.per_layer_model_projection"@,
    ) {
        Some(r)
    } else {
        renamed(name, "per_layer_proj_norm"@, "model.per_layer_projection_norm"@)
    }
}

/// Neutral identity of an attention parameter inside its layer.
pub open spec fn attention_identity(parameter: Seq<char>) -> Option<Seq<char>> {
    if let Some(r) = renamed(parameter, "attn_q"@, "self_attn.q_proj"@) {
        Some(r)
    } else if let Some(r) = renamed(parameter, "attn_k"@, "self_attn.k_proj"@) {
        Some(r)
    } else if let Some(r) = renamed(parameter, "attn_v"@, "self_attn.v_proj"@) {
        Some(r)
    } else if let Some(r) = renamed(parameter, "attn_output"@, "self_attn.o_proj"@) {
        Some(r)
    } else if let Some(r) = renamed(parameter, "attn_q_norm"@, "self_attn.q_norm"@) {
        Some(r)
    } else {
        renamed(parameter, "attn_k_norm"@, "self_attn.k_norm"@)
    }
}

/// Neutral identity of a norm or scale inside its layer.
pub open spec fn norm_identity(parameter: Seq<char>) -> Option<Seq<char>> {
    if let Some(r) = renamed(parameter, "attn_norm"@, "input_layernorm"@) {
        Some(r)
    } else if let Some(r) = renamed(
        parameter,
        "post_attention_norm"@,
        "post_attention_layernorm"@,
    ) {
        Some(r)
    } else if let Some(r) = renamed(parameter, "ffn_norm"@, "pre_feedforward_layernorm"@) {
        Some(r)
    } else if let Some(r) = renamed(
        parameter,
        "post_ffw_norm_1"@,
        "post_feedforward_layernorm_1"@,
    ) {
        Some(r)
    } else if let Some(r) = renamed(
        parameter,
        "pre_ffw_norm_2"@,
        "pre_feedforward_layernorm_2"@,
    ) {
        Some(r)
    } else if let Some(r) = renamed(
        parameter,
        "post_ffw_norm_2"@,
        "post_feedforward_layernorm_2"@,
    ) {
        Some(r)
    } else if let Some(r) = renamed(parameter, "post_ffw_norm"@, "post_feedforward_layernorm"@) {
        Some(r)
    } else {
        renamed(parameter, "layer_output_scale"@, "layer_scalar"@)
    }
}

/// Neutral identity of a feed-forward or per-layer-input parameter inside its layer.
pub open spec fn feed_forward_identity(parameter: Seq<char>) -> Option<Seq<char>> {
    if let Some(r) = renamed(parameter, "ffn_gate_inp"@, "router.proj"@) {
        Some(r)
    } else if let Some(r) = renamed(
        parameter,
        "ffn_gate_up_exps"@,
        "experts.switch_glu.gate_up_proj"@,
    ) {
        Some(r)
    } else if let Some(r) = renamed(
        parameter,
        "ffn_gate_exps"@,
        "experts.switch_glu.gate_proj"@,
    ) {
        Some(r)
    } else if let Some(r) = renamed(parameter, "ffn_up_exps"@, "experts.switch_glu.up_proj"@) {
        Some(r)
    } else if let Some(r) = renamed(
        parameter,
        "ffn_down_exps"@,
        "experts.switch_glu.down_proj"@,
    ) {
        Some(r)
    } else if let Some(r) = renamed(parameter, "ffn_gate"@, "mlp.gate_proj"@) {
        Some(r)
    } else if let Some(r) = renamed(parameter, "ffn_up"@, "mlp.up_proj"@) {
        Some(r)
    } else if let Some(r) = renamed(parameter, "ffn_down"@, "mlp.down_proj"@) {
        Some(r)
    } else if let Some(r) = renamed(parameter, "inp_gate"@, "per_layer_input_gate"@) {
        Some(r)
    } else if let Some(r) = renamed(parameter, "proj"@, "per_layer_projection"@) {
        Some(r)
    } else {
        renamed(parameter, "post_norm"@, "post_per_layer_input_norm"@)
    }
}

/// Neutral identity of a block parameter inside its layer.
pub open spec fn block_identity(parameter: Seq<char>) -> Option<Seq<char>> {
    if let Some(r) = attention_identity(parameter) {
        Some(r)
    } else if let Some(r) = norm_identity(parameter) {
        Some(r)
    } else {
        feed_forward_identity(parameter)
    }
}

/// Neutral identity of a released text GGUF name; other names stand for themselves.
pub open spec fn translated(name: Seq<char>) -> Seq<char> {
    if let Some(r) = root_identity(name) {
        r
    } else if let Some(rest) = stripped(name, "blk."@) {
        match split_at_first(rest, '.') {
            Some((layer, parameter)) => match block_identity(parameter) {
                Some(identity) => "model.layers."@ + layer + "."@ + identity,
                None => name,
            },
            None => name,
        }
    } else {
        name
    }
}

fn root_name(name: &str) -> (r: Option<String>)
    ensures
        r.deep_view() == root_identity(name@),
{
    if let Some(r) = rename(name, "token_embd", "model.embed_tokens") {
        Some(r)
    } else if let Some(r) = rename(name, "output_norm", "model.norm") {
        Some(r)
    } else if let Some(r) = rename(name, "output", "lm_head") {
        Some(r)
    } else if let Some(r) = rename(
        name,
        "per_layer_token_embd",
        "model.embed_tokens_per_layer",
    ) {
        Some(r)
    } else if let Some(r) = rename(
        name,
        "per_layer_model_proj",
        "model.per_layer_model_projection",
    ) {
        Some(r)
    } else {
        rename(name, "per_layer_proj_norm", "model.per_layer_projection_norm")
    }
}

fn attention_name(parameter: &str) -> (r: Option<String>)
    ensures
        r.deep_view() == attention_identity(parameter@),
{
    if let Some(r) = rename(parameter, "attn_q", "self_attn.q_proj") {
        Some(r)
    } else if let Some(r) = rename(parameter, "attn_k", "self_attn.k_proj") {
        Some(r)
    } else if let Some(r) = rename(parameter, "attn_v", "self_attn.v_proj") {
        Some(r)
    } else if let Some(r) = rename(parameter, "attn_output", "self_attn.o_proj") {
        Some(r)
    } else if let Some(r) = rename(parameter, "attn_q_norm", "self_attn.q_norm") {
        Some(r)
    } else {
        rename(parameter, "attn_k_norm", "self_attn.k_norm")
    }
}

fn norm_name(parameter: &str) -> (r: Option<String>)
    ensures
        r.deep_view() == norm_identity(parameter@),
{
    if let Some(r) = rename(parameter, "attn_norm", "input_layernorm") {
        Some(r)
    } else if let Some(r) = rename(
        parameter,
        "post_attention_norm",
        "post_attention_layernorm",
    ) {
        Some(r)
    } else if let Some(r) = rename(parameter, "ffn_norm", "pre_feedforward_layernorm") {
        Some(r)
    } else if let Some(r) = rename(
        parameter,
        "post_ffw_norm_1",
        "post_feedforward_layernorm_1",
    ) {
        Some(r)
    } else if let Some(r) = rename(
        parameter,
        "pre_ffw_norm_2",
        "pre_feedforward_layernorm_2",
    ) {
        Some(r)
    } else if let Some(r) = rename(
        parameter,
        "post_ffw_norm_2",
        "post_feedforward_layernorm_2",
    ) {
        Some(r)
    } else if let Some(r) = rename(parameter, "post_ffw_norm", "post_feedforward_layernorm") {
        Some(r)
    } else {
        rename(parameter, "layer_output_scale", "layer_scalar")
    }
}

fn feed_forward_name(parameter: &str) -> (r: Option<String>)
    ensures
        r.deep_view() == feed_forward_identity(parameter@),
{
    if let Some(r) = rename(parameter, "ffn_gate_inp", "router.proj") {
        Some(r)
    } else if let Some(r) = rename(
        parameter,
        "ffn_gate_up_exps",
        "experts.switch_glu.gate_up_proj",
    ) {
        Some(r)
    } else if let Some(r) = rename(parameter, "ffn_gate_exps", "experts.switch_glu.gate_proj") {
        Some(r)
    } else if let Some(r) = rename(parameter, "ffn_up_exps", "experts.switch_glu.up_proj") {
        Some(r)
    } else if let Some(r) = rename(parameter, "ffn_down_exps", "experts.switch_glu.down_proj") {
        Some(r)
    } else if let Some(r) = rename(parameter, "ffn_gate", "mlp.gate_proj") {
        Some(r)
    } else if let Some(r) = rename(parameter, "ffn_up", "mlp.up_proj") {
        Some(r)
    } else if let Some(r) = rename(parameter, "ffn_down", "mlp.down_proj") {
        Some(r)
    } else if let Some(r) = rename(parameter, "inp_gate", "per_layer_input_gate") {
        Some(r)
    } else if let Some(r) = rename(parameter, "proj", "per_layer_projection") {
        Some(r)
    } else {
        rename(parameter, "post_norm", "post_per_layer_input_norm")
    }
}

/// Translates one released Gemma 4 text GGUF name to neutral parameter identity.
pub fn translate_gguf_weight_name(name: &str) -> (r: String)
    ensures
        r@ == translated(name@),
{
    if let Some(r) = root_name(name) {
        return r;
    }
    let rest: &str = match strip_prefix(name, "blk.") {
        Some(rest) => rest,
        None => {
            return name.to_owned();
        },
    };
    let (layer, parameter) = match split_once(rest, '.') {
        Some(parts) => parts,
        None => {
            return name.to_owned();
        },
    };
    let identity: Option<String> = if let Some(r) = attention_name(parameter) {
        Some(r)
    } else if let Some(r) = norm_name(parameter) {
        Some(r)
    } else {
        feed_forward_name(parameter)
    };
    match identity {
        Some(identity) => "model.layers.".to_owned().concat(layer).concat(".").concat(
            identity.as_str(),
        ),
        None => name.to_owned(),
    }
}

proof fn lemma_find(text: Seq<char>, mark: char, from: int, at: int)
    requires
        0 <= from <= at < text.len(),
        text[at] == mark,
        forall|i: int| from <= i < at ==> text[i] != mark,
    ensures
        find_from(text, mark, from) == Some(at),
    decreases at - from,
{
    if from < at {
        lemma_find(text, mark, from + 1, at);
    }
}

/// The translation of a block tensor keeps its layer and follows its parameter alone; a
/// parameter without a neutral identity leaves the name as it is.
pub proof fn law_block_names_keep_their_layer(layer: nat, parameter: Seq<char>)
    ensures
        ({
            let name = "blk."@ + decimal(layer) + "."@ + parameter;
            translated(name) == match block_identity(parameter) {
                Some(identity) => "model.layers."@ + decimal(layer) + "."@ + identity,
                None => name,
            }
        }),
{
    let name = "blk."@ + decimal(layer) + "."@ + parameter;
    let rest = decimal(layer) + "."@ + parameter;
    reveal_strlit("blk.");
    reveal_strlit(".");
    reveal_strlit("token_embd");
    reveal_strlit("output_norm");
    reveal_strlit("output");
    reveal_strlit("per_layer_token_embd");
    reveal_strlit("per_layer_model_proj");
    reveal_strlit("per_layer_proj_norm");
    assert(name[0] == 'b');
    assert(root_identity(name) is None) by {
        lemma_first_char(name, "token_embd"@);
        lemma_first_char(name, "output_norm"@);
        lemma_first_char(name, "output"@);
        lemma_first_char(name, "per_layer_token_embd"@);
        lemma_first_char(name, "per_layer_model_proj"@);
        lemma_first_char(name, "per_layer_proj_norm"@);
    }
    assert(name.subrange(0, 4) =~= "blk."@);
    assert(name.subrange(4, name.len() as int) =~= rest);
    let at = decimal(layer).len() as int;
    assert forall|i: int| 0 <= i < at implies rest[i] != '.' by {
        lemma_numeral(layer);
        assert(rest[i] == decimal(layer)[i]);
    }
    assert(rest[at] == '.');
    lemma_find(rest, '.', 0, at);
    assert(rest.subrange(0, at) =~= decimal(layer));
    assert(rest.subrange(at + 1, rest.len() as int) =~= parameter);
}

proof fn lemma_first_char(name: Seq<char>, source: Seq<char>)
    requires
        name.len() > 0,
        source.len() > 0,
        name[0] != source[0],
    ensures
        name != source,
        !has_prefix(name, source + "."@),
{
    if has_prefix(name, source + "."@) {
        assert(name.subrange(0, (source + "."@).len() as int)[0] == (source + "."@)[0]);
    }
}

} // verus!
