//! What holds of every translated GGUF name.

use crate::config::ModelArgs;
use crate::gguf_config::block_name;
use crate::gguf_plan::{
    gguf_base, gguf_dense, gguf_expert_group, gguf_experts, gguf_groups, gguf_layer, gguf_norms,
    gguf_per_layer, gguf_state, gguf_tensors, key_value_width, query_width,
};
use crate::plan::{GgufTensor, LayoutGroup};
use crate::schedule::LayerPolicy;
use crate::text::{decimal, find_from, has_prefix, lemma_numeral, stripped};
use crate::weight_names::{
    block_identity, law_block_names_keep_their_layer, renamed, root_identity, translated,
};
use vstd::prelude::*;

verus! {

/// Released and neutral leading component of a tensor outside the blocks.
spec fn root_pair(place: int) -> (Seq<char>, Seq<char>) {
    if place == 0 {
        ("token_embd"@, "model.embed_tokens"@)
    } else if place == 1 {
        ("output_norm"@, "model.norm"@)
    } else if place == 2 {
        ("output"@, "lm_head"@)
    } else if place == 3 {
        ("per_layer_token_embd"@, "model.embed_tokens_per_layer"@)
    } else if place == 4 {
        ("per_layer_model_proj"@, "model.per_layer_model_projection"@)
    } else {
        ("per_layer_proj_norm"@, "model.per_layer_projection_norm"@)
    }
}

/// Released and neutral leading component of a block parameter.
spec fn block_pair(place: int) -> (Seq<char>, Seq<char>) {
    if place == 0 {
        ("attn_q"@, "self_attn.q_proj"@)
    } else if place == 1 {
        ("attn_k"@, "self_attn.k_proj"@)
    } else if place == 2 {
        ("attn_v"@, "self_attn.v_proj"@)
    } else if place == 3 {
        ("attn_output"@, "self_attn.o_proj"@)
    } else if place == 4 {
        ("attn_q_norm"@, "self_attn.q_norm"@)
    } else if place == 5 {
        ("attn_k_norm"@, "self_attn.k_norm"@)
    } else if place == 6 {
        ("attn_norm"@, "input_layernorm"@)
    } else if place == 7 {
        ("post_attention_norm"@, "post_attention_layernorm"@)
    } else if place == 8 {
        ("ffn_norm"@, "pre_feedforward_layernorm"@)
    } else if place == 9 {
        ("post_ffw_norm_1"@, "post_feedforward_layernorm_1"@)
    } else if place == 10 {
        ("pre_ffw_norm_2"@, "pre_feedforward_layernorm_2"@)
    } else if place == 11 {
        ("post_ffw_norm_2"@, "post_feedforward_layernorm_2"@)
    } else if place == 12 {
        ("post_ffw_norm"@, "post_feedforward_layernorm"@)
    } else if place == 13 {
        ("layer_output_scale"@, "layer_scalar"@)
    } else if place == 14 {
        ("ffn_gate_inp"@, "router.proj"@)
    } else if place == 15 {
        ("ffn_gate_up_exps"@, "experts.switch_glu.gate_up_proj"@)
    } else if place == 16 {
        ("ffn_gate_exps"@, "experts.switch_glu.gate_proj"@)
    } else if place == 17 {
        ("ffn_up_exps"@, "experts.switch_glu.up_proj"@)
    } else if place == 18 {
        ("ffn_down_exps"@, "experts.switch_glu.down_proj"@)
    } else if place == 19 {
        ("ffn_gate"@, "mlp.gate_proj"@)
    } else if place == 20 {
        ("ffn_up"@, "mlp.up_proj"@)
    } else if place == 21 {
        ("ffn_down"@, "mlp.down_proj"@)
    } else if place == 22 {
        ("inp_gate"@, "per_layer_input_gate"@)
    } else if place == 23 {
        ("proj"@, "per_layer_projection"@)
    } else {
        ("post_norm"@, "post_per_layer_input_norm"@)
    }
}

/// Whether `tail` may follow a leading component.
spec fn is_tail(tail: Seq<char>) -> bool {
    tail.len() == 0 || tail[0] == '.'
}

/// Place of the pair that a neutral name outside the blocks has, told by the characters that set
/// it apart; after the last place for a block.
spec fn root_mark(name: Seq<char>) -> int {
    if name[0] == 'l' {
        2
    } else if name[6] == 'e' {
        if name.len() > 18 && name[18] == '_' {
            3
        } else {
            0
        }
    } else if name[6] == 'n' {
        1
    } else if name[6] == 'p' {
        if name[16] == 'm' {
            4
        } else {
            5
        }
    } else {
        6
    }
}

/// Place of the pair that a neutral attention parameter has.
spec fn attention_mark(name: Seq<char>) -> int {
    if name[10] == 'v' {
        2
    } else if name[10] == 'o' {
        3
    } else if name[10] == 'q' {
        if name[12] == 'p' {
            0
        } else {
            4
        }
    } else if name[12] == 'p' {
        1
    } else {
        5
    }
}

/// Place of the pair that a neutral expert parameter has.
spec fn expert_mark(name: Seq<char>) -> int {
    if name[19] == 'u' {
        17
    } else if name[19] == 'd' {
        18
    } else if name[24] == 'u' {
        15
    } else {
        16
    }
}

/// Place of the pair that a neutral norm or per-layer-input parameter has.
spec fn norm_mark(name: Seq<char>) -> int {
    if name[1] == 'e' {
        if name[10] == 'i' {
            22
        } else {
            23
        }
    } else if name[1] == 'r' {
        if name.len() > 25 && name[25] == '_' {
            10
        } else {
            8
        }
    } else if name[5] == 'a' {
        7
    } else if name[5] == 'p' {
        24
    } else if name.len() > 26 && name[26] == '_' {
        if name[27] == '1' {
            9
        } else {
            11
        }
    } else {
        12
    }
}

/// Place of the pair that a neutral block parameter has, told by the characters that set it
/// apart.
spec fn block_mark(name: Seq<char>) -> int {
    if name[0] == 's' {
        attention_mark(name)
    } else if name[0] == 'i' {
        6
    } else if name[0] == 'l' {
        13
    } else if name[0] == 'r' {
        14
    } else if name[0] == 'e' {
        expert_mark(name)
    } else if name[0] == 'm' {
        if name[4] == 'g' {
            19
        } else if name[4] == 'u' {
            20
        } else {
            21
        }
    } else {
        norm_mark(name)
    }
}

proof fn lemma_root_mark(place: int, tail: Seq<char>)
    requires
        0 <= place < 6,
        is_tail(tail),
    ensures
        root_mark(root_pair(place).1 + tail) == place,
{
    if place == 0 {
        reveal_strlit("model.embed_tokens");
    } else if place == 1 {
        reveal_strlit("model.norm");
    } else if place == 2 {
        reveal_strlit("lm_head");
    } else if place == 3 {
        reveal_strlit("model.embed_tokens_per_layer");
    } else if place == 4 {
        reveal_strlit("model.per_layer_model_projection");
    } else {
        reveal_strlit("model.per_layer_projection_norm");
    }
}

proof fn lemma_block_mark(place: int, tail: Seq<char>)
    requires
        0 <= place < 25,
        is_tail(tail),
    ensures
        block_mark(block_pair(place).1 + tail) == place,
{
    if place == 0 {
        reveal_strlit("self_attn.q_proj");
    } else if place == 1 {
        reveal_strlit("self_attn.k_proj");
    } else if place == 2 {
        reveal_strlit("self_attn.v_proj");
    } else if place == 3 {
        reveal_strlit("self_attn.o_proj");
    } else if place == 4 {
        reveal_strlit("self_attn.q_norm");
    } else if place == 5 {
        reveal_strlit("self_attn.k_norm");
    } else if place == 6 {
        reveal_strlit("input_layernorm");
    } else if place == 7 {
        reveal_strlit("post_attention_layernorm");
    } else if place == 8 {
        reveal_strlit("pre_feedforward_layernorm");
    } else if place == 9 {
        reveal_strlit("post_feedforward_layernorm_1");
    } else if place == 10 {
        reveal_strlit("pre_feedforward_layernorm_2");
    } else if place == 11 {
        reveal_strlit("post_feedforward_layernorm_2");
    } else if place == 12 {
        reveal_strlit("post_feedforward_layernorm");
    } else if place == 13 {
        reveal_strlit("layer_scalar");
    } else if place == 14 {
        reveal_strlit("router.proj");
    } else if place == 15 {
        reveal_strlit("experts.switch_glu.gate_up_proj");
    } else if place == 16 {
        reveal_strlit("experts.switch_glu.gate_proj");
    } else if place == 17 {
        reveal_strlit("experts.switch_glu.up_proj");
    } else if place == 18 {
        reveal_strlit("experts.switch_glu.down_proj");
    } else if place == 19 {
        reveal_strlit("mlp.gate_proj");
    } else if place == 20 {
        reveal_strlit("mlp.up_proj");
    } else if place == 21 {
        reveal_strlit("mlp.down_proj");
    } else if place == 22 {
        reveal_strlit("per_layer_input_gate");
    } else if place == 23 {
        reveal_strlit("per_layer_projection");
    } else {
        reveal_strlit("post_per_layer_input_norm");
    }
}

/// The pair by which a tensor outside the blocks is translated.
proof fn lemma_root_place(name: Seq<char>) -> (place: int)
    requires
        root_identity(name) is Some,
    ensures
        0 <= place < 6,
        renamed(name, root_pair(place).0, root_pair(place).1) == root_identity(name),
{
    if renamed(name, "token_embd"@, "model.embed_tokens"@) is Some {
        0
    } else if renamed(name, "output_norm"@, "model.norm"@) is Some {
        1
    } else if renamed(name, "output"@, "lm_head"@) is Some {
        2
    } else if renamed(name, "per_layer_token_embd"@, "model.embed_tokens_per_layer"@) is Some {
        3
    } else if renamed(name, "per_layer_model_proj"@, "model.per_layer_model_projection"@) is Some {
        4
    } else {
        5
    }
}

/// The pair by which a block parameter is translated.
proof fn lemma_block_place(name: Seq<char>) -> (place: int)
    requires
        block_identity(name) is Some,
    ensures
        0 <= place < 25,
        renamed(name, block_pair(place).0, block_pair(place).1) == block_identity(name),
{
    if renamed(name, "attn_q"@, "self_attn.q_proj"@) is Some {
        0
    } else if renamed(name, "attn_k"@, "self_attn.k_proj"@) is Some {
        1
    } else if renamed(name, "attn_v"@, "self_attn.v_proj"@) is Some {
        2
    } else if renamed(name, "attn_output"@, "self_attn.o_proj"@) is Some {
        3
    } else if renamed(name, "attn_q_norm"@, "self_attn.q_norm"@) is Some {
        4
    } else if renamed(name, "attn_k_norm"@, "self_attn.k_norm"@) is Some {
        5
    } else if renamed(name, "attn_norm"@, "input_layernorm"@) is Some {
        6
    } else if renamed(name, "post_attention_norm"@, "post_attention_layernorm"@) is Some {
        7
    } else if renamed(name, "ffn_norm"@, "pre_feedforward_layernorm"@) is Some {
        8
    } else if renamed(name, "post_ffw_norm_1"@, "post_feedforward_layernorm_1"@) is Some {
        9
    } else if renamed(name, "pre_ffw_norm_2"@, "pre_feedforward_layernorm_2"@) is Some {
        10
    } else if renamed(name, "post_ffw_norm_2"@, "post_feedforward_layernorm_2"@) is Some {
        11
    } else if renamed(name, "post_ffw_norm"@, "post_feedforward_layernorm"@) is Some {
        12
    } else if renamed(name, "layer_output_scale"@, "layer_scalar"@) is Some {
        13
    } else if renamed(name, "ffn_gate_inp"@, "router.proj"@) is Some {
        14
    } else if renamed(name, "ffn_gate_up_exps"@, "experts.switch_glu.gate_up_proj"@) is Some {
        15
    } else if renamed(name, "ffn_gate_exps"@, "experts.switch_glu.gate_proj"@) is Some {
        16
    } else if renamed(name, "ffn_up_exps"@, "experts.switch_glu.up_proj"@) is Some {
        17
    } else if renamed(name, "ffn_down_exps"@, "experts.switch_glu.down_proj"@) is Some {
        18
    } else if renamed(name, "ffn_gate"@, "mlp.gate_proj"@) is Some {
        19
    } else if renamed(name, "ffn_up"@, "mlp.up_proj"@) is Some {
        20
    } else if renamed(name, "ffn_down"@, "mlp.down_proj"@) is Some {
        21
    } else if renamed(name, "inp_gate"@, "per_layer_input_gate"@) is Some {
        22
    } else if renamed(name, "proj"@, "per_layer_projection"@) is Some {
        23
    } else {
        24
    }
}

/// A renamed component keeps what follows it.
proof fn lemma_renamed(name: Seq<char>, source: Seq<char>, target: Seq<char>) -> (tail: Seq<char>)
    requires
        renamed(name, source, target) is Some,
    ensures
        is_tail(tail),
        name == source + tail,
        renamed(name, source, target) == Some(target + tail),
{
    let tail = name.subrange(source.len() as int, name.len() as int);
    reveal_strlit(".");
    if name != source {
        let lead = source + "."@;
        assert(name.subrange(0, lead.len() as int)[source.len() as int] == '.');
        assert(name.subrange(0, lead.len() as int).subrange(0, source.len() as int) =~= source);
        assert(name.subrange(0, source.len() as int) =~= source);
    }
    assert(name =~= source + tail);
    tail
}

proof fn lemma_same_tail(source: Seq<char>, left: Seq<char>, right: Seq<char>)
    requires
        source + left == source + right,
    ensures
        left == right,
{
    let whole = source + left;
    assert(whole.subrange(source.len() as int, whole.len() as int) =~= left);
    assert(whole.subrange(source.len() as int, whole.len() as int) =~= right);
}

proof fn lemma_found(text: Seq<char>, mark: char, from: int)
    requires
        0 <= from,
    ensures
        find_from(text, mark, from) matches Some(at) ==> {
            &&& from <= at < text.len()
            &&& text[at] == mark
            &&& forall|i: int| from <= i < at ==> #[trigger] text[i] != mark
        },
    decreases text.len() - from,
{
    if from < text.len() && text[from] != mark {
        lemma_found(text, mark, from + 1);
    }
}

/// Whether `text` holds no separator.
spec fn is_whole(text: Seq<char>) -> bool {
    forall|i: int| 0 <= i < text.len() ==> #[trigger] text[i] != '.'
}

/// What precedes the first separator is told apart from what follows it.
proof fn lemma_first_component(
    left: Seq<char>,
    left_rest: Seq<char>,
    right: Seq<char>,
    right_rest: Seq<char>,
)
    requires
        is_whole(left),
        is_whole(right),
        left + "."@ + left_rest == right + "."@ + right_rest,
    ensures
        left == right,
        left_rest == right_rest,
{
    reveal_strlit(".");
    let whole = left + "."@ + left_rest;
    let other = right + "."@ + right_rest;
    assert(whole[left.len() as int] == '.');
    assert(other[right.len() as int] == '.');
    if left.len() < right.len() {
        assert(other[left.len() as int] == right[left.len() as int]);
    }
    if right.len() < left.len() {
        assert(whole[right.len() as int] == left[right.len() as int]);
    }
    assert(whole.subrange(0, left.len() as int) =~= left);
    assert(other.subrange(0, right.len() as int) =~= right);
    assert(whole.subrange(left.len() as int + 1, whole.len() as int) =~= left_rest);
    assert(other.subrange(right.len() as int + 1, other.len() as int) =~= right_rest);
}

/// Layer and parameter of a translated block tensor.
proof fn lemma_block_parts(name: Seq<char>) -> (parts: (Seq<char>, Seq<char>))
    requires
        root_identity(name) is None,
        translated(name) != name,
    ensures
        is_whole(parts.0),
        name == "blk."@ + parts.0 + "."@ + parts.1,
        block_identity(parts.1) is Some,
        translated(name) == "model.layers."@ + parts.0 + "."@ + block_identity(parts.1)->0,
{
    reveal_strlit("blk.");
    reveal_strlit(".");
    let rest = stripped(name, "blk."@)->0;
    lemma_found(rest, '.', 0);
    let at = find_from(rest, '.', 0)->0;
    let parts = (rest.subrange(0, at), rest.subrange(at + 1, rest.len() as int));
    assert(rest =~= parts.0 + "."@ + parts.1);
    assert(name =~= "blk."@ + rest);
    assert(name =~= "blk."@ + parts.0 + "."@ + parts.1);
    parts
}

proof fn lemma_block_root(layer: Seq<char>, identity: Seq<char>)
    ensures
        root_mark("model.layers."@ + layer + "."@ + identity) == 6,
{
    reveal_strlit("model.layers.");
}

proof fn lemma_roots_apart(left: Seq<char>, right: Seq<char>)
    requires
        root_identity(left) is Some,
        root_identity(left) == root_identity(right),
    ensures
        left == right,
{
    let place = lemma_root_place(left);
    let other = lemma_root_place(right);
    let (source, target) = root_pair(place);
    let tail = lemma_renamed(left, source, target);
    let other_tail = lemma_renamed(right, root_pair(other).0, root_pair(other).1);
    lemma_root_mark(place, tail);
    lemma_root_mark(other, other_tail);
    lemma_same_tail(target, tail, other_tail);
}

proof fn lemma_parameters_apart(left: Seq<char>, right: Seq<char>)
    requires
        block_identity(left) is Some,
        block_identity(left) == block_identity(right),
    ensures
        left == right,
{
    let place = lemma_block_place(left);
    let other = lemma_block_place(right);
    let (source, target) = block_pair(place);
    let tail = lemma_renamed(left, source, target);
    let other_tail = lemma_renamed(right, block_pair(other).0, block_pair(other).1);
    lemma_block_mark(place, tail);
    lemma_block_mark(other, other_tail);
    lemma_same_tail(target, tail, other_tail);
}

/// A name outside the blocks never has the identity of a block tensor.
proof fn lemma_root_not_block(root: Seq<char>, block: Seq<char>)
    requires
        root_identity(root) is Some,
        root_identity(block) is None,
        translated(block) != block,
    ensures
        translated(root) != translated(block),
{
    let place = lemma_root_place(root);
    let (source, target) = root_pair(place);
    let tail = lemma_renamed(root, source, target);
    lemma_root_mark(place, tail);
    let (layer, parameter) = lemma_block_parts(block);
    lemma_block_root(layer, block_identity(parameter)->0);
}

/// Two different translated names have different neutral identities.
pub proof fn law_translated_names_stay_apart(left: Seq<char>, right: Seq<char>)
    requires
        left != right,
        translated(left) != left,
        translated(right) != right,
    ensures
        translated(left) != translated(right),
{
    if root_identity(left) is Some && root_identity(right) is Some {
        if translated(left) == translated(right) {
            lemma_roots_apart(left, right);
        }
    } else if root_identity(left) is Some {
        lemma_root_not_block(left, right);
    } else if root_identity(right) is Some {
        lemma_root_not_block(right, left);
    } else if translated(left) == translated(right) {
        let (layer, parameter) = lemma_block_parts(left);
        let (other_layer, other_parameter) = lemma_block_parts(right);
        let identity = block_identity(parameter)->0;
        let other_identity = block_identity(other_parameter)->0;
        let lead = "model.layers."@;
        assert(lead + layer + "."@ + identity =~= lead + (layer + "."@ + identity));
        assert(lead + other_layer + "."@ + other_identity =~= lead + (other_layer + "."@
            + other_identity));
        lemma_same_tail(
            lead,
            layer + "."@ + identity,
            other_layer + "."@ + other_identity,
        );
        lemma_first_component(layer, identity, other_layer, other_identity);
        lemma_parameters_apart(parameter, other_parameter);
    }
}

/// Root of a GGUF block.
pub open spec fn block_root(layer: nat) -> Seq<char> {
    "blk."@ + decimal(layer) + "."@
}

/// Whether a GGUF name is translated to a decoder or output name, a block tensor to one of the
/// layer with the same number.
pub open spec fn finds_identity(key: Seq<char>) -> bool {
    &&& translated(key) != key
    &&& has_prefix(translated(key), "model."@) || has_prefix(translated(key), "lm_head."@)
    &&& forall|layer: nat| #[trigger]
        has_prefix(key, block_root(layer)) ==> has_prefix(
            translated(key),
            "model.layers."@ + decimal(layer) + "."@,
        )
}

/// The same, for lemmas that do not look into it.
#[verifier::opaque]
spec fn known(key: Seq<char>) -> bool {
    finds_identity(key)
}

proof fn lemma_root_key(key: Seq<char>)
    requires
        root_identity(key) is Some,
        key != "output"@,
    ensures
        known(key),
{
    reveal(known);
    reveal_strlit("model.");
    reveal_strlit("lm_head.");
    reveal_strlit("blk.");
    reveal_strlit("token_embd");
    reveal_strlit("model.embed_tokens");
    reveal_strlit("output_norm");
    reveal_strlit("model.norm");
    reveal_strlit("output");
    reveal_strlit("lm_head");
    reveal_strlit("per_layer_token_embd");
    reveal_strlit("model.embed_tokens_per_layer");
    reveal_strlit("per_layer_model_proj");
    reveal_strlit("model.per_layer_model_projection");
    reveal_strlit("per_layer_proj_norm");
    reveal_strlit("model.per_layer_projection_norm");
    let place = lemma_root_place(key);
    let (source, target) = root_pair(place);
    let tail = lemma_renamed(key, source, target);
    let name = translated(key);
    assert(name == target + tail);
    assert(key[0] == source[0]);
    assert(name[0] == target[0]);
    if place == 2 {
        assert(tail.len() > 0) by {
            if tail.len() == 0 {
                assert(key =~= "output"@);
            }
        }
        assert(name.subrange(0, 8) =~= "lm_head."@);
    } else {
        assert(name.subrange(0, 6) =~= "model."@);
    }
    assert forall|layer: nat| #[trigger] has_prefix(key, block_root(layer)) implies has_prefix(
        name,
        "model.layers."@ + decimal(layer) + "."@,
    ) by {
        assert(key.subrange(0, block_root(layer).len() as int)[0] == block_root(layer)[0]);
    }
}

proof fn lemma_block_found(layer: nat, parameter: Seq<char>)
    requires
        block_identity(parameter) is Some,
    ensures
        finds_identity("blk."@ + decimal(layer) + "."@ + parameter),
{
    reveal_strlit("model.");
    reveal_strlit("model.layers.");
    reveal_strlit("blk.");
    reveal_strlit(".");
    let key = "blk."@ + decimal(layer) + "."@ + parameter;
    let lead = "model.layers."@ + decimal(layer) + "."@;
    law_block_names_keep_their_layer(layer, parameter);
    let name = translated(key);
    assert(name == lead + block_identity(parameter)->0);
    assert(key[0] == 'b');
    assert(name[0] == 'm');
    assert(name.subrange(0, 6) =~= "model."@);
    assert forall|other: nat| #[trigger] has_prefix(key, block_root(other)) implies has_prefix(
        name,
        "model.layers."@ + decimal(other) + "."@,
    ) by {
        let opening = block_root(other);
        let rest = key.subrange(opening.len() as int, key.len() as int);
        lemma_numeral(layer);
        lemma_numeral(other);
        assert(key =~= opening + rest);
        assert(key =~= "blk."@ + (decimal(layer) + "."@ + parameter));
        assert(key =~= "blk."@ + (decimal(other) + "."@ + rest));
        lemma_same_tail(
            "blk."@,
            decimal(layer) + "."@ + parameter,
            decimal(other) + "."@ + rest,
        );
        lemma_first_component(decimal(layer), parameter, decimal(other), rest);
        assert(name.subrange(0, lead.len() as int) =~= lead);
    }
}

/// A parameter that one of the pairs renames has an identity.
proof fn lemma_block_recognized(parameter: Seq<char>, place: int)
    requires
        0 <= place < 25,
        renamed(parameter, block_pair(place).0, block_pair(place).1) is Some,
    ensures
        block_identity(parameter) is Some,
{
}

proof fn lemma_block_key(layer: int, local: Seq<char>, place: int)
    requires
        layer >= 0,
        0 <= place < 25,
        ({
            let source = block_pair(place).0;
            &&& local.len() > source.len() + 1
            &&& local[0] == '.'
            &&& local[source.len() as int + 1] == '.'
            &&& local.subrange(1, source.len() as int + 1) =~= source
        }),
    ensures
        known(block_name(layer, local)),
{
    reveal(known);
    reveal_strlit(".");
    let source = block_pair(place).0;
    let parameter = local.subrange(1, local.len() as int);
    assert(parameter.subrange(0, source.len() as int + 1) =~= source + "."@);
    lemma_block_recognized(parameter, place);
    lemma_block_found(layer as nat, parameter);
    assert(block_name(layer, local) =~= "blk."@ + decimal(layer as nat) + "."@ + parameter);
}

/// Whether every tensor has a neutral identity.
spec fn all_known(tensors: Seq<GgufTensor>) -> bool {
    forall|i: int| 0 <= i < tensors.len() ==> known(#[trigger] tensors[i].key)
}

proof fn lemma_all_known(left: Seq<GgufTensor>, right: Seq<GgufTensor>)
    requires
        all_known(left),
        all_known(right),
    ensures
        all_known(left + right),
{
    assert forall|i: int| 0 <= i < (left + right).len() implies known(
        #[trigger] (left + right)[i].key,
    ) by {
        if i < left.len() {
            assert((left + right)[i] == left[i]);
        } else {
            assert((left + right)[i] == right[i - left.len()]);
        }
    }
}

proof fn lemma_base_found(args: ModelArgs)
    ensures
        all_known(gguf_base(args)),
{
    reveal_strlit(".");
    reveal_strlit("output");
    assert(known("token_embd.weight"@)) by {
        reveal_strlit("token_embd.weight");
        reveal_strlit("token_embd");
        assert("token_embd.weight"@.subrange(0, 11) =~= "token_embd"@ + "."@);
        assert("token_embd.weight"@.len() == 17);
        lemma_root_key("token_embd.weight"@);
    }
    assert(known("output_norm.weight"@)) by {
        reveal_strlit("output_norm.weight");
        reveal_strlit("output_norm");
        assert("output_norm.weight"@.subrange(0, 12) =~= "output_norm"@ + "."@);
        assert("output_norm.weight"@.len() == 18);
        lemma_root_key("output_norm.weight"@);
    }
    assert(known("output.weight"@)) by {
        reveal_strlit("output.weight");
        reveal_strlit("output");
        assert("output.weight"@.subrange(0, 7) =~= "output"@ + "."@);
        assert("output.weight"@.len() == 13);
        lemma_root_key("output.weight"@);
    }
    assert(known("per_layer_token_embd.weight"@)) by {
        reveal_strlit("per_layer_token_embd.weight");
        reveal_strlit("per_layer_token_embd");
        assert("per_layer_token_embd.weight"@.subrange(0, 21) =~= "per_layer_token_embd"@ + "."@);
        assert("per_layer_token_embd.weight"@.len() == 27);
        lemma_root_key("per_layer_token_embd.weight"@);
    }
    assert(known("per_layer_model_proj.weight"@)) by {
        reveal_strlit("per_layer_model_proj.weight");
        reveal_strlit("per_layer_model_proj");
        assert("per_layer_model_proj.weight"@.subrange(0, 21) =~= "per_layer_model_proj"@ + "."@);
        assert("per_layer_model_proj.weight"@.len() == 27);
        lemma_root_key("per_layer_model_proj.weight"@);
    }
    assert(known("per_layer_proj_norm.weight"@)) by {
        reveal_strlit("per_layer_proj_norm.weight");
        reveal_strlit("per_layer_proj_norm");
        assert("per_layer_proj_norm.weight"@.subrange(0, 20) =~= "per_layer_proj_norm"@ + "."@);
        assert("per_layer_proj_norm.weight"@.len() == 26);
        lemma_root_key("per_layer_proj_norm.weight"@);
    }
}

proof fn lemma_norms_found(hidden: int, layer: int)
    requires
        layer >= 0,
    ensures
        all_known(gguf_norms(hidden, layer)),
{
    assert(known(block_name(layer, ".attn_norm.weight"@))) by {
        reveal_strlit(".attn_norm.weight");
        reveal_strlit("attn_norm");
        lemma_block_key(layer, ".attn_norm.weight"@, 6);
    }
    assert(known(block_name(layer, ".post_attention_norm.weight"@))) by {
        reveal_strlit(".post_attention_norm.weight");
        reveal_strlit("post_attention_norm");
        lemma_block_key(layer, ".post_attention_norm.weight"@, 7);
    }
    assert(known(block_name(layer, ".ffn_norm.weight"@))) by {
        reveal_strlit(".ffn_norm.weight");
        reveal_strlit("ffn_norm");
        lemma_block_key(layer, ".ffn_norm.weight"@, 8);
    }
    assert(known(block_name(layer, ".post_ffw_norm.weight"@))) by {
        reveal_strlit(".post_ffw_norm.weight");
        reveal_strlit("post_ffw_norm");
        lemma_block_key(layer, ".post_ffw_norm.weight"@, 12);
    }
}

proof fn lemma_dense_found(hidden: int, query: int, policy: LayerPolicy, layer: int)
    requires
        layer >= 0,
    ensures
        all_known(gguf_dense(hidden, query, policy, layer)),
{
    assert(known(block_name(layer, ".layer_output_scale.weight"@))) by {
        reveal_strlit(".layer_output_scale.weight");
        reveal_strlit("layer_output_scale");
        lemma_block_key(layer, ".layer_output_scale.weight"@, 13);
    }
    assert(known(block_name(layer, ".attn_q.weight"@))) by {
        reveal_strlit(".attn_q.weight");
        reveal_strlit("attn_q");
        lemma_block_key(layer, ".attn_q.weight"@, 0);
    }
    assert(known(block_name(layer, ".attn_output.weight"@))) by {
        reveal_strlit(".attn_output.weight");
        reveal_strlit("attn_output");
        lemma_block_key(layer, ".attn_output.weight"@, 3);
    }
    assert(known(block_name(layer, ".attn_q_norm.weight"@))) by {
        reveal_strlit(".attn_q_norm.weight");
        reveal_strlit("attn_q_norm");
        lemma_block_key(layer, ".attn_q_norm.weight"@, 4);
    }
    assert(known(block_name(layer, ".ffn_gate.weight"@))) by {
        reveal_strlit(".ffn_gate.weight");
        reveal_strlit("ffn_gate");
        lemma_block_key(layer, ".ffn_gate.weight"@, 19);
    }
    assert(known(block_name(layer, ".ffn_up.weight"@))) by {
        reveal_strlit(".ffn_up.weight");
        reveal_strlit("ffn_up");
        lemma_block_key(layer, ".ffn_up.weight"@, 20);
    }
    assert(known(block_name(layer, ".ffn_down.weight"@))) by {
        reveal_strlit(".ffn_down.weight");
        reveal_strlit("ffn_down");
        lemma_block_key(layer, ".ffn_down.weight"@, 21);
    }
}

proof fn lemma_state_found(hidden: int, width: int, policy: LayerPolicy, layer: int)
    requires
        layer >= 0,
    ensures
        all_known(gguf_state(hidden, width, policy, layer)),
{
    assert(known(block_name(layer, ".attn_k.weight"@))) by {
        reveal_strlit(".attn_k.weight");
        reveal_strlit("attn_k");
        lemma_block_key(layer, ".attn_k.weight"@, 1);
    }
    assert(known(block_name(layer, ".attn_k_norm.weight"@))) by {
        reveal_strlit(".attn_k_norm.weight");
        reveal_strlit("attn_k_norm");
        lemma_block_key(layer, ".attn_k_norm.weight"@, 5);
    }
    assert(known(block_name(layer, ".attn_v.weight"@))) by {
        reveal_strlit(".attn_v.weight");
        reveal_strlit("attn_v");
        lemma_block_key(layer, ".attn_v.weight"@, 2);
    }
}

proof fn lemma_per_layer_found(hidden: int, media: int, layer: int)
    requires
        layer >= 0,
    ensures
        all_known(gguf_per_layer(hidden, media, layer)),
{
    assert(known(block_name(layer, ".inp_gate.weight"@))) by {
        reveal_strlit(".inp_gate.weight");
        reveal_strlit("inp_gate");
        lemma_block_key(layer, ".inp_gate.weight"@, 22);
    }
    assert(known(block_name(layer, ".proj.weight"@))) by {
        reveal_strlit(".proj.weight");
        reveal_strlit("proj");
        lemma_block_key(layer, ".proj.weight"@, 23);
    }
    assert(known(block_name(layer, ".post_norm.weight"@))) by {
        reveal_strlit(".post_norm.weight");
        reveal_strlit("post_norm");
        lemma_block_key(layer, ".post_norm.weight"@, 24);
    }
}

proof fn lemma_experts_found(hidden: int, experts: int, moe: int, layer: int)
    requires
        layer >= 0,
    ensures
        all_known(gguf_experts(hidden, experts, moe, layer)),
{
    assert(known(block_name(layer, ".ffn_gate_inp.weight"@))) by {
        reveal_strlit(".ffn_gate_inp.weight");
        reveal_strlit("ffn_gate_inp");
        lemma_block_key(layer, ".ffn_gate_inp.weight"@, 14);
    }
    assert(known(block_name(layer, ".ffn_gate_inp.scale"@))) by {
        reveal_strlit(".ffn_gate_inp.scale");
        reveal_strlit("ffn_gate_inp");
        lemma_block_key(layer, ".ffn_gate_inp.scale"@, 14);
    }
    assert(known(block_name(layer, ".ffn_down_exps.scale"@))) by {
        reveal_strlit(".ffn_down_exps.scale");
        reveal_strlit("ffn_down_exps");
        lemma_block_key(layer, ".ffn_down_exps.scale"@, 18);
    }
    assert(known(block_name(layer, ".post_ffw_norm_1.weight"@))) by {
        reveal_strlit(".post_ffw_norm_1.weight");
        reveal_strlit("post_ffw_norm_1");
        lemma_block_key(layer, ".post_ffw_norm_1.weight"@, 9);
    }
    assert(known(block_name(layer, ".pre_ffw_norm_2.weight"@))) by {
        reveal_strlit(".pre_ffw_norm_2.weight");
        reveal_strlit("pre_ffw_norm_2");
        lemma_block_key(layer, ".pre_ffw_norm_2.weight"@, 10);
    }
    assert(known(block_name(layer, ".post_ffw_norm_2.weight"@))) by {
        reveal_strlit(".post_ffw_norm_2.weight");
        reveal_strlit("post_ffw_norm_2");
        lemma_block_key(layer, ".post_ffw_norm_2.weight"@, 11);
    }
    assert(known(block_name(layer, ".ffn_down_exps.weight"@))) by {
        reveal_strlit(".ffn_down_exps.weight");
        reveal_strlit("ffn_down_exps");
        lemma_block_key(layer, ".ffn_down_exps.weight"@, 18);
    }
}

/// Whether every tensor of every layout has a neutral identity.
spec fn group_known(group: LayoutGroup<GgufTensor>) -> bool {
    forall|variant: int|
        0 <= variant < group.variants.len() ==> all_known(
            #[trigger] group.variants[variant].tensors,
        )
}

proof fn lemma_group_found(hidden: int, experts: int, moe: int, layer: int)
    requires
        layer >= 0,
    ensures
        group_known(gguf_expert_group(hidden, experts, moe, layer)),
{
    assert(known(block_name(layer, ".ffn_gate_exps.weight"@))) by {
        reveal_strlit(".ffn_gate_exps.weight");
        reveal_strlit("ffn_gate_exps");
        lemma_block_key(layer, ".ffn_gate_exps.weight"@, 16);
    }
    assert(known(block_name(layer, ".ffn_up_exps.weight"@))) by {
        reveal_strlit(".ffn_up_exps.weight");
        reveal_strlit("ffn_up_exps");
        lemma_block_key(layer, ".ffn_up_exps.weight"@, 17);
    }
    assert(known(block_name(layer, ".ffn_gate_up_exps.weight"@))) by {
        reveal_strlit(".ffn_gate_up_exps.weight");
        reveal_strlit("ffn_gate_up_exps");
        lemma_block_key(layer, ".ffn_gate_up_exps.weight"@, 15);
    }
}

proof fn lemma_layer_found(args: ModelArgs, layer: int)
    requires
        layer >= 0,
    ensures
        all_known(gguf_layer(args, layer)),
{
    let hidden = args.hidden_size as int;
    let policy = args.layer_schedule[layer];
    let norms = gguf_norms(hidden, layer);
    let dense = gguf_dense(hidden, query_width(args, layer), policy, layer);
    let state = gguf_state(hidden, key_value_width(args, layer), policy, layer);
    let per_layer = gguf_per_layer(hidden, args.hidden_size_per_layer_input as int, layer);
    let experts = if policy.feed_forward is DenseWithSparseMoe {
        gguf_experts(
            hidden,
            args.num_experts->0 as int,
            args.moe_intermediate_size->0 as int,
            layer,
        )
    } else {
        Seq::empty()
    };
    lemma_norms_found(hidden, layer);
    lemma_dense_found(hidden, query_width(args, layer), policy, layer);
    lemma_state_found(hidden, key_value_width(args, layer), policy, layer);
    lemma_per_layer_found(hidden, args.hidden_size_per_layer_input as int, layer);
    lemma_experts_found(
        hidden,
        args.num_experts->0 as int,
        args.moe_intermediate_size->0 as int,
        layer,
    );
    lemma_all_known(norms, dense);
    lemma_all_known(norms + dense, state);
    lemma_all_known(norms + dense + state, per_layer);
    lemma_all_known(norms + dense + state + per_layer, experts);
}

proof fn lemma_catalog_known(args: ModelArgs, layers: int)
    ensures
        all_known(gguf_tensors(args, layers)),
        forall|group: int|
            0 <= group < gguf_groups(args, layers).len() ==> group_known(
                #[trigger] gguf_groups(args, layers)[group],
            ),
    decreases layers,
{
    if layers <= 0 {
        lemma_base_found(args);
    } else {
        lemma_catalog_known(args, layers - 1);
        lemma_layer_found(args, layers - 1);
        lemma_all_known(gguf_tensors(args, layers - 1), gguf_layer(args, layers - 1));
        lemma_group_found(
            args.hidden_size as int,
            args.num_experts->0 as int,
            args.moe_intermediate_size->0 as int,
            layers - 1,
        );
        let before = gguf_groups(args, layers - 1);
        let after = gguf_groups(args, layers);
        assert forall|group: int| 0 <= group < after.len() implies group_known(
            #[trigger] after[group],
        ) by {
            if group < before.len() {
                assert(after[group] == before[group]);
            }
        }
    }
}

/// Every tensor of a GGUF catalog, in every layout, is translated to a decoder or output name,
/// and a block tensor keeps the number of its layer.
pub proof fn law_cataloged_names_are_translated(args: ModelArgs, layers: int)
    ensures
        forall|i: int|
            0 <= i < gguf_tensors(args, layers).len() ==> finds_identity(
                #[trigger] gguf_tensors(args, layers)[i].key,
            ),
        forall|group: int, variant: int, i: int|
            0 <= group < gguf_groups(args, layers).len() && 0 <= variant < gguf_groups(
                args,
                layers,
            )[group].variants.len() && 0 <= i < gguf_groups(
                args,
                layers,
            )[group].variants[variant].tensors.len() ==> finds_identity(
                #[trigger] gguf_groups(args, layers)[group].variants[variant].tensors[i].key,
            ),
{
    reveal(known);
    lemma_catalog_known(args, layers);
    assert forall|group: int, variant: int, i: int|
        0 <= group < gguf_groups(args, layers).len() && 0 <= variant < gguf_groups(
            args,
            layers,
        )[group].variants.len() && 0 <= i < gguf_groups(
            args,
            layers,
        )[group].variants[variant].tensors.len() implies finds_identity(
        #[trigger] gguf_groups(args, layers)[group].variants[variant].tensors[i].key,
    ) by {
        let known_group = gguf_groups(args, layers)[group];
        assert(group_known(known_group));
        assert(all_known(known_group.variants[variant].tensors));
    }
}

} // verus!
