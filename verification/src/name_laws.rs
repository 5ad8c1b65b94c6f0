//! What holds of every spelling of a weight name.

use crate::formats::{
    LinearFormat, WeightQuantization, canonical_name, canonical_root, selected_format,
};
use crate::safetensors::SafeTensor;
use crate::safetensors_plan::{admitted, mlx_name, with_mlx_aliases};
use crate::text::{has_prefix, stripped};
use vstd::prelude::*;

verus! {

proof fn lemma_stripped(prefix: Seq<char>, rest: Seq<char>)
    ensures
        has_prefix(prefix + rest, prefix),
        stripped(prefix + rest, prefix) == Some(rest),
{
    assert((prefix + rest).subrange(0, prefix.len() as int) =~= prefix);
    assert((prefix + rest).subrange(prefix.len() as int, (prefix + rest).len() as int) =~= rest);
}

proof fn lemma_not_prefix(text: Seq<char>, prefix: Seq<char>, at: int)
    requires
        0 <= at < prefix.len(),
        at < text.len(),
        text[at] != prefix[at],
    ensures
        !has_prefix(text, prefix),
        stripped(text, prefix) is None,
{
    if has_prefix(text, prefix) {
        assert(text.subrange(0, prefix.len() as int)[at] == text[at]);
    }
}

proof fn lemma_joined(prefix: Seq<char>, text: Seq<char>)
    requires
        has_prefix(text, prefix),
    ensures
        text == prefix + stripped(text, prefix)->0,
{
    assert(text =~= prefix + text.subrange(prefix.len() as int, text.len() as int));
}

pub(crate) proof fn lemma_decoder_roots(rest: Seq<char>)
    ensures
        canonical_root("language_model.model."@ + rest) == "model."@ + rest,
        canonical_root("model.language_model."@ + rest) == "model."@ + rest,
        !has_prefix(rest, "language_model."@) ==> canonical_root("model."@ + rest) == "model."@
            + rest,
{
    reveal_strlit("language_model.model.");
    reveal_strlit("model.language_model.");
    reveal_strlit("language_model.lm_head");
    reveal_strlit("language_model.");
    reveal_strlit("vision_tower.");
    reveal_strlit("audio_tower.");
    reveal_strlit("embed_vision.");
    reveal_strlit("embed_audio.");
    reveal_strlit("model.");
    lemma_stripped("language_model.model."@, rest);
    let released = "model.language_model."@ + rest;
    lemma_stripped("model.language_model."@, rest);
    lemma_not_prefix(released, "language_model.model."@, 0);
    let canonical = "model."@ + rest;
    if !has_prefix(rest, "language_model."@) {
        lemma_not_prefix(canonical, "language_model.model."@, 0);
        lemma_not_prefix(canonical, "language_model.lm_head"@, 0);
        lemma_not_prefix(canonical, "vision_tower."@, 0);
        lemma_not_prefix(canonical, "audio_tower."@, 0);
        lemma_not_prefix(canonical, "embed_vision."@, 0);
        lemma_not_prefix(canonical, "embed_audio."@, 0);
        if has_prefix(canonical, "model.language_model."@) {
            assert(rest.subrange(0, 15) =~= canonical.subrange(0, 21).subrange(6, 21));
            assert("model.language_model."@.subrange(6, 21) =~= "language_model."@);
        }
    }
}

pub(crate) proof fn lemma_head_roots(rest: Seq<char>)
    ensures
        canonical_root("language_model.lm_head"@ + rest) == "lm_head"@ + rest,
        canonical_root("lm_head"@ + rest) == "lm_head"@ + rest,
{
    reveal_strlit("language_model.model.");
    reveal_strlit("model.language_model.");
    reveal_strlit("language_model.lm_head");
    reveal_strlit("lm_head");
    reveal_strlit("vision_tower.");
    reveal_strlit("audio_tower.");
    reveal_strlit("embed_vision.");
    reveal_strlit("embed_audio.");
    let nested = "language_model.lm_head"@ + rest;
    lemma_stripped("language_model.lm_head"@, rest);
    lemma_not_prefix(nested, "language_model.model."@, 15);
    lemma_not_prefix(nested, "model.language_model."@, 0);
    let head = "lm_head"@ + rest;
    lemma_not_prefix(head, "language_model.model."@, 1);
    lemma_not_prefix(head, "model.language_model."@, 0);
    lemma_not_prefix(head, "language_model.lm_head"@, 1);
    lemma_not_prefix(head, "vision_tower."@, 0);
    lemma_not_prefix(head, "audio_tower."@, 0);
    lemma_not_prefix(head, "embed_vision."@, 0);
    lemma_not_prefix(head, "embed_audio."@, 0);
}

/// Whether `name` starts at the root of a media tower or its projection.
pub open spec fn media_root(name: Seq<char>) -> bool {
    has_prefix(name, "vision_tower."@) || has_prefix(name, "audio_tower."@) || has_prefix(
        name,
        "embed_vision."@,
    ) || has_prefix(name, "embed_audio."@)
}

pub(crate) proof fn lemma_media_roots(name: Seq<char>)
    requires
        media_root(name),
    ensures
        canonical_root(name) == "model."@ + name,
        canonical_root("model."@ + name) == "model."@ + name,
{
    reveal_strlit("language_model.model.");
    reveal_strlit("model.language_model.");
    reveal_strlit("language_model.lm_head");
    reveal_strlit("vision_tower.");
    reveal_strlit("audio_tower.");
    reveal_strlit("embed_vision.");
    reveal_strlit("embed_audio.");
    reveal_strlit("language_model.");
    let first = if has_prefix(name, "vision_tower."@) {
        "vision_tower."@
    } else if has_prefix(name, "audio_tower."@) {
        "audio_tower."@
    } else if has_prefix(name, "embed_vision."@) {
        "embed_vision."@
    } else {
        "embed_audio."@
    };
    assert(has_prefix(name, first));
    assert(name.subrange(0, first.len() as int)[0] == name[0]);
    lemma_not_prefix(name, "language_model.model."@, 0);
    lemma_not_prefix(name, "model.language_model."@, 0);
    lemma_not_prefix(name, "language_model.lm_head"@, 0);
    lemma_not_prefix(name, "language_model."@, 0);
    lemma_decoder_roots(name);
}

/// The released, mlx-vlm, and canonical spellings of a decoder weight have one canonical name.
/// The canonical spelling is told apart from the released one by what follows `model.`.
pub proof fn law_decoder_spellings_agree(rest: Seq<char>)
    ensures
        canonical_name("language_model.model."@ + rest) == canonical_name(
            "model.language_model."@ + rest,
        ),
        !has_prefix(rest, "language_model."@) ==> canonical_name("model."@ + rest)
            == canonical_name("model.language_model."@ + rest),
{
    lemma_decoder_roots(rest);
}

/// The output table has one canonical name, whether it is nested in the decoder or not.
pub proof fn law_head_spellings_agree(rest: Seq<char>)
    ensures
        canonical_name("language_model.lm_head"@ + rest) == canonical_name("lm_head"@ + rest),
{
    lemma_head_roots(rest);
}

/// A media weight has one canonical name, with and without the `model.` prefix.
pub proof fn law_media_spellings_agree(name: Seq<char>)
    requires
        media_root(name),
    ensures
        canonical_name(name) == canonical_name("model."@ + name),
{
    lemma_media_roots(name);
}

/// The mlx-vlm name of a tensor has the canonical name of that tensor, so an encoding declared
/// under the canonical name covers both.
pub proof fn law_mlx_names_keep_their_tensor(name: Seq<char>)
    ensures
        mlx_name(name) matches Some(physical) ==> canonical_name(physical) == canonical_name(name),
{
    reveal_strlit("lm_head.");
    reveal_strlit("lm_head");
    reveal_strlit("language_model.lm_head.");
    reveal_strlit("language_model.lm_head");
    reveal_strlit("model.");
    reveal_strlit("model.vision_tower.");
    reveal_strlit("model.embed_vision.");
    reveal_strlit("model.audio_tower.");
    reveal_strlit("model.embed_audio.");
    reveal_strlit("vision_tower.");
    reveal_strlit("audio_tower.");
    reveal_strlit("embed_vision.");
    reveal_strlit("embed_audio.");
    if let Some(physical) = mlx_name(name) {
        if let Some(rest) = stripped(name, "model.language_model."@) {
            lemma_joined("model.language_model."@, name);
            lemma_decoder_roots(rest);
        } else if let Some(rest) = stripped(name, "lm_head."@) {
            lemma_joined("lm_head."@, name);
            let tail = seq!['.'] + rest;
            assert("lm_head."@ + rest =~= "lm_head"@ + tail);
            assert("language_model.lm_head."@ + rest =~= "language_model.lm_head"@ + tail);
            lemma_head_roots(tail);
        } else {
            if let Some(rest) = stripped(name, "model.vision_tower."@) {
                lemma_joined("model.vision_tower."@, name);
                lemma_stripped("vision_tower."@, rest);
                assert("model.vision_tower."@ =~= "model."@ + "vision_tower."@);
            } else if let Some(rest) = stripped(name, "model.embed_vision."@) {
                lemma_joined("model.embed_vision."@, name);
                lemma_stripped("embed_vision."@, rest);
                assert("model.embed_vision."@ =~= "model."@ + "embed_vision."@);
            } else if let Some(rest) = stripped(name, "model.audio_tower."@) {
                lemma_joined("model.audio_tower."@, name);
                lemma_stripped("audio_tower."@, rest);
                assert("model.audio_tower."@ =~= "model."@ + "audio_tower."@);
            } else if let Some(rest) = stripped(name, "model.embed_audio."@) {
                lemma_joined("model.embed_audio."@, name);
                lemma_stripped("embed_audio."@, rest);
                assert("model.embed_audio."@ =~= "model."@ + "embed_audio."@);
            }
            assert(name =~= "model."@ + physical);
            assert(media_root(physical));
            law_media_spellings_agree(physical);
        }
    }
}

/// An encoding declared under a canonical name covers every spelling of that name, unless a
/// spelling has an encoding of its own.
pub proof fn law_overrides_cover_every_spelling(
    weight_quantization: Option<WeightQuantization>,
    quantized_weights: Option<Set<Seq<char>>>,
    formats: Map<Seq<char>, WeightQuantization>,
    name: Seq<char>,
)
    requires
        formats.contains_key(canonical_name(name)),
        name == canonical_name(name) || !formats.contains_key(name),
    ensures
        selected_format(weight_quantization, quantized_weights, Some(formats), name)
            == LinearFormat::Quantized(formats[canonical_name(name)]),
{
}

/// Whether `name` starts at a root of the released layout.
pub open spec fn released_root(name: Seq<char>) -> bool {
    has_prefix(name, "model."@) || has_prefix(name, "lm_head."@)
}

/// An mlx-vlm name stands under no released root, and has no mlx-vlm name of its own.
proof fn lemma_mlx_name_is_foreign(name: Seq<char>)
    ensures
        mlx_name(name) matches Some(physical) ==> {
            &&& physical != name
            &&& !released_root(physical)
            &&& mlx_name(physical) is None
        },
{
    reveal_strlit("model.");
    reveal_strlit("model.language_model.");
    reveal_strlit("language_model.model.");
    reveal_strlit("lm_head.");
    reveal_strlit("language_model.lm_head.");
    reveal_strlit("model.vision_tower.");
    reveal_strlit("model.embed_vision.");
    reveal_strlit("model.audio_tower.");
    reveal_strlit("model.embed_audio.");
    reveal_strlit("vision_tower.");
    reveal_strlit("audio_tower.");
    reveal_strlit("embed_vision.");
    reveal_strlit("embed_audio.");
    if let Some(physical) = mlx_name(name) {
        assert(physical[0] != 'm');
        lemma_not_prefix(physical, "model."@, 0);
        lemma_not_prefix(physical, "model.language_model."@, 0);
        lemma_not_prefix(physical, "model.vision_tower."@, 0);
        lemma_not_prefix(physical, "model.embed_vision."@, 0);
        lemma_not_prefix(physical, "model.audio_tower."@, 0);
        lemma_not_prefix(physical, "model.embed_audio."@, 0);
        lemma_not_prefix(
            physical,
            "lm_head."@,
            if physical[0] == 'l' {
                1
            } else {
                0
            },
        );
    }
}

pub(crate) proof fn lemma_admitted(
    key: Seq<char>,
    names: Seq<Seq<char>>,
    end: int,
    aliases: Seq<Seq<char>>,
    name: Seq<char>,
)
    requires
        0 <= end <= names.len(),
    ensures
        aliases.contains(name) ==> admitted(key, names, end, aliases).contains(name),
        admitted(key, names, end, aliases).contains(name) ==> aliases.contains(name) || exists|
            i: int,
        |
            0 <= i < end && mlx_name(#[trigger] names[i]) == Some(name),
        forall|i: int|
            0 <= i < end && mlx_name(#[trigger] names[i]) == Some(name) && name != key ==> admitted(
                key,
                names,
                end,
                aliases,
            ).contains(name),
    decreases end,
{
    if end > 0 {
        lemma_admitted(key, names, end - 1, aliases, name);
        let earlier = admitted(key, names, end - 1, aliases);
        if let Some(physical) = mlx_name(names[end - 1]) {
            if physical != key && !earlier.contains(physical) {
                let now = earlier.push(physical);
                assert(now[earlier.len() as int] == physical);
                if earlier.contains(name) {
                    let i = choose|i: int| 0 <= i < earlier.len() && earlier[i] == name;
                    assert(now[i] == name);
                }
            }
        }
    }
}

/// Whether the tensor is also known by the mlx-vlm name of its key and of each alias. Only a key
/// outside the released roots can be that name itself.
pub open spec fn admits_mlx(tensor: SafeTensor) -> bool {
    forall|name: Seq<char>|
        name == tensor.key || tensor.aliases.contains(name) ==> match #[trigger] mlx_name(name) {
            Some(physical) => tensor.aliases.contains(physical) || (physical == tensor.key
                && !released_root(tensor.key)),
            None => true,
        }
}

/// A tensor with mlx-vlm aliases keeps its key and every alias it had, and is known by the
/// mlx-vlm name of each of them. Its key is never made an alias.
pub proof fn law_aliases_admit_mlx_conversions(tensor: SafeTensor)
    ensures
        with_mlx_aliases(tensor).key == tensor.key,
        forall|name: Seq<char>| #[trigger]
            tensor.aliases.contains(name) ==> with_mlx_aliases(tensor).aliases.contains(name),
        with_mlx_aliases(tensor).aliases.contains(tensor.key) ==> tensor.aliases.contains(
            tensor.key,
        ),
        mlx_name(tensor.key) matches Some(physical) ==> with_mlx_aliases(tensor).aliases.contains(
            physical,
        ),
        admits_mlx(with_mlx_aliases(tensor)),
{
    let names = seq![tensor.key] + tensor.aliases;
    let end = names.len() as int;
    let after = with_mlx_aliases(tensor).aliases;
    assert forall|name: Seq<char>| #[trigger] tensor.aliases.contains(name) implies after.contains(
        name,
    ) by {
        lemma_admitted(tensor.key, names, end, tensor.aliases, name);
    }
    if !tensor.aliases.contains(tensor.key) {
        lemma_key_stays(tensor.key, names, end, tensor.aliases);
    }
    assert(names[0] == tensor.key);
    lemma_mlx_name_is_foreign(tensor.key);
    if let Some(physical) = mlx_name(tensor.key) {
        lemma_admitted(tensor.key, names, end, tensor.aliases, physical);
    }
    assert forall|name: Seq<char>| name == tensor.key || after.contains(name) implies match
    #[trigger] mlx_name(name) {
        Some(physical) => after.contains(physical) || (physical == tensor.key && !released_root(
            tensor.key,
        )),
        None => true,
    } by {
        lemma_mlx_name_is_foreign(name);
        if let Some(physical) = mlx_name(name) {
            if name != tensor.key {
                lemma_admitted(tensor.key, names, end, tensor.aliases, name);
                if !tensor.aliases.contains(name) {
                    let i = choose|i: int| 0 <= i < end && mlx_name(#[trigger] names[i]) == Some(
                        name,
                    );
                    lemma_mlx_name_is_foreign(names[i]);
                }
                let i = choose|i: int| 0 <= i < tensor.aliases.len() && tensor.aliases[i] == name;
                assert(names[i + 1] == name);
            }
            lemma_admitted(tensor.key, names, end, tensor.aliases, physical);
        }
    }
}

proof fn lemma_key_stays(
    key: Seq<char>,
    names: Seq<Seq<char>>,
    end: int,
    aliases: Seq<Seq<char>>,
)
    requires
        !aliases.contains(key),
    ensures
        !admitted(key, names, end, aliases).contains(key),
    decreases end,
{
    if end > 0 {
        lemma_key_stays(key, names, end - 1, aliases);
        let earlier = admitted(key, names, end - 1, aliases);
        if let Some(physical) = mlx_name(names[end - 1]) {
            if physical != key && !earlier.contains(physical) {
                let now = earlier.push(physical);
                if now.contains(key) {
                    let i = choose|i: int| 0 <= i < now.len() && now[i] == key;
                    assert(earlier[i] == key);
                }
            }
        }
    }
}

} // verus!
