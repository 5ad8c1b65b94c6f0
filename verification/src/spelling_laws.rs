//! How each layout spells a weight name, and which encoding a weight has.

use crate::config::{ModelArgs, RopeValue};
use crate::family::{
    FamilyConfig, audio_name, formats_shared, kept, quantized_whole, text_name, vision_name,
};
use crate::formats::{LinearFormat, WeightQuantization, canonical_name, selected_format};
use crate::name_laws::{lemma_decoder_roots, lemma_head_roots, lemma_media_roots, media_root};
use crate::name_tables::follows;
use crate::projector::projector_name;
use crate::safetensors_plan::mlx_name;
use crate::schedule::AttentionPolicy;
use crate::text::{has_prefix, has_suffix, stripped};
use crate::text_laws::law_prefixes_open_their_texts;
use crate::weight_names::renamed;
use vstd::prelude::*;

verus! {

proof fn lemma_strip(prefix: Seq<char>, rest: Seq<char>)
    ensures
        has_prefix(prefix + rest, prefix),
        stripped(prefix + rest, prefix) == Some(rest),
{
    law_prefixes_open_their_texts(prefix, rest, prefix + rest);
}

proof fn lemma_other(text: Seq<char>, prefix: Seq<char>, at: int)
    requires
        0 <= at < prefix.len(),
        at < text.len(),
        text[at] != prefix[at],
    ensures
        !has_prefix(text, prefix),
        stripped(text, prefix) is None,
{
    if has_prefix(text, prefix) {
        assert(text.subrange(0, prefix.len() as int)[at] == text[at]);
    }
}

/// The mlx-vlm layout nests the decoder under `language_model.model`, the output table under
/// `language_model`, and keeps the towers and their projections without the `model` root.
pub proof fn law_mlx_names_are_nested(rest: Seq<char>)
    ensures
        mlx_name("model.language_model."@ + rest) == Some("language_model.model."@ + rest),
        mlx_name("lm_head."@ + rest) == Some("language_model.lm_head."@ + rest),
        mlx_name("model.vision_tower."@ + rest) == Some("vision_tower."@ + rest),
        mlx_name("model.embed_vision."@ + rest) == Some("embed_vision."@ + rest),
        mlx_name("model.audio_tower."@ + rest) == Some("audio_tower."@ + rest),
        mlx_name("model.embed_audio."@ + rest) == Some("embed_audio."@ + rest),
{
    reveal_strlit("model.language_model.");
    reveal_strlit("lm_head.");
    reveal_strlit("model.vision_tower.");
    reveal_strlit("model.embed_vision.");
    reveal_strlit("model.audio_tower.");
    reveal_strlit("model.embed_audio.");
    let decoder = "model.language_model."@;
    let head = "lm_head."@;
    let vision = "model.vision_tower."@;
    let seen = "model.embed_vision."@;
    let audio = "model.audio_tower."@;
    let heard = "model.embed_audio."@;
    lemma_strip(decoder, rest);
    lemma_strip(head, rest);
    lemma_other(head + rest, decoder, 0);
    lemma_strip(vision, rest);
    lemma_other(vision + rest, decoder, 6);
    lemma_other(vision + rest, head, 0);
    lemma_strip(seen, rest);
    lemma_other(seen + rest, decoder, 6);
    lemma_other(seen + rest, head, 0);
    lemma_other(seen + rest, vision, 6);
    lemma_strip(audio, rest);
    lemma_other(audio + rest, decoder, 6);
    lemma_other(audio + rest, head, 0);
    lemma_other(audio + rest, vision, 6);
    lemma_other(audio + rest, seen, 6);
    lemma_strip(heard, rest);
    lemma_other(heard + rest, decoder, 6);
    lemma_other(heard + rest, head, 0);
    lemma_other(heard + rest, vision, 6);
    lemma_other(heard + rest, seen, 12);
    lemma_other(heard + rest, audio, 6);
}

/// Names outside the released layout have no mlx-vlm name.
pub proof fn law_other_names_have_no_mlx_name(name: Seq<char>)
    requires
        !has_prefix(name, "model.language_model."@),
        !has_prefix(name, "lm_head."@),
        !has_prefix(name, "model.vision_tower."@),
        !has_prefix(name, "model.embed_vision."@),
        !has_prefix(name, "model.audio_tower."@),
        !has_prefix(name, "model.embed_audio."@),
    ensures
        mlx_name(name) is None,
{
}

proof fn lemma_leads(source: Seq<char>, target: Seq<char>, tail: Seq<char>)
    requires
        follows(tail),
    ensures
        renamed(source + tail, source, target) == Some(target + tail),
{
    reveal_strlit(".");
    let name = source + tail;
    assert(name.subrange(source.len() as int, name.len() as int) =~= tail);
    if tail.len() == 0 {
        assert(name =~= source);
    } else {
        assert(name.subrange(0, source.len() as int + 1) =~= source + "."@);
    }
}

proof fn lemma_elsewhere(name: Seq<char>, source: Seq<char>, target: Seq<char>, at: int)
    requires
        0 <= at < source.len(),
        at < name.len(),
        name[at] != source[at],
    ensures
        renamed(name, source, target) is None,
{
    if has_prefix(name, source + "."@) {
        assert(name.subrange(0, (source + "."@).len() as int)[at] == name[at]);
        assert((source + "."@)[at] == source[at]);
    }
}

/// A projector stores the towers and their projections without the `model` root, before whatever
/// follows, and nothing of the decoder.
pub proof fn law_projectors_drop_the_root(tail: Seq<char>, rest: Seq<char>)
    requires
        follows(tail),
    ensures
        projector_name("model.vision_tower"@ + tail) == Some("vision_tower"@ + tail),
        projector_name("model.embed_vision"@ + tail) == Some("embed_vision"@ + tail),
        projector_name("model.audio_tower"@ + tail) == Some("audio_tower"@ + tail),
        projector_name("model.embed_audio"@ + tail) == Some("embed_audio"@ + tail),
        projector_name("model.language_model."@ + rest) is None,
        projector_name("lm_head"@ + rest) is None,
{
    reveal_strlit("model.vision_tower");
    reveal_strlit("model.embed_vision");
    reveal_strlit("model.audio_tower");
    reveal_strlit("model.embed_audio");
    reveal_strlit("model.language_model.");
    reveal_strlit("lm_head");
    let vision = "model.vision_tower"@;
    let seen = "model.embed_vision"@;
    let audio = "model.audio_tower"@;
    let heard = "model.embed_audio"@;
    lemma_leads(vision, "vision_tower"@, tail);
    lemma_leads(seen, "embed_vision"@, tail);
    lemma_elsewhere(seen + tail, vision, "vision_tower"@, 6);
    lemma_leads(audio, "audio_tower"@, tail);
    lemma_elsewhere(audio + tail, vision, "vision_tower"@, 6);
    lemma_elsewhere(audio + tail, seen, "embed_vision"@, 6);
    lemma_leads(heard, "embed_audio"@, tail);
    lemma_elsewhere(heard + tail, vision, "vision_tower"@, 6);
    lemma_elsewhere(heard + tail, seen, "embed_vision"@, 12);
    lemma_elsewhere(heard + tail, audio, "audio_tower"@, 6);
    let decoder = "model.language_model."@ + rest;
    lemma_elsewhere(decoder, vision, "vision_tower"@, 6);
    lemma_elsewhere(decoder, seen, "embed_vision"@, 6);
    lemma_elsewhere(decoder, audio, "audio_tower"@, 6);
    lemma_elsewhere(decoder, heard, "embed_audio"@, 6);
    let head = "lm_head"@ + rest;
    lemma_elsewhere(head, vision, "vision_tower"@, 0);
    lemma_elsewhere(head, seen, "embed_vision"@, 0);
    lemma_elsewhere(head, audio, "audio_tower"@, 0);
    lemma_elsewhere(head, heard, "embed_audio"@, 0);
}

/// Whether `name` is `root`, completed by `.weight` where it does not end so already.
pub open spec fn completes(name: Seq<char>, root: Seq<char>) -> bool {
    if has_suffix(root, ".weight"@) {
        name == root
    } else {
        name == root + ".weight"@
    }
}

/// The canonical name of a weight stands under `model` for the decoder and the media, under
/// `lm_head` for the output table, and ends with `.weight`.
pub proof fn law_canonical_names_are_spelled_out(rest: Seq<char>, media: Seq<char>)
    requires
        media_root(media),
    ensures
        completes(canonical_name("language_model.model."@ + rest), "model."@ + rest),
        completes(canonical_name("model.language_model."@ + rest), "model."@ + rest),
        !has_prefix(rest, "language_model."@) ==> completes(
            canonical_name("model."@ + rest),
            "model."@ + rest,
        ),
        completes(canonical_name("language_model.lm_head"@ + rest), "lm_head"@ + rest),
        completes(canonical_name("lm_head"@ + rest), "lm_head"@ + rest),
        completes(canonical_name(media), "model."@ + media),
        completes(canonical_name("model."@ + media), "model."@ + media),
{
    lemma_decoder_roots(rest);
    lemma_head_roots(rest);
    lemma_media_roots(media);
}

/// A weight has the encoding declared for its own name; else that for its canonical name; else
/// the model-wide one where it covers the weight, which it does unless a list of weights leaves
/// it out; else it is not quantized.
pub proof fn law_encodings_are_chosen_in_order(
    everywhere: Option<WeightQuantization>,
    weights: Option<Set<Seq<char>>>,
    own: Option<Map<Seq<char>, WeightQuantization>>,
    name: Seq<char>,
    canonical: Seq<char>,
)
    requires
        canonical == canonical_name(name),
    ensures
        ({
            let format = selected_format(everywhere, weights, own, name);
            &&& own is Some && own->0.contains_key(name) ==> format == LinearFormat::Quantized(
                own->0[name],
            )
            &&& own is Some && !own->0.contains_key(name) && own->0.contains_key(canonical)
                ==> format == LinearFormat::Quantized(own->0[canonical])
            &&& own is None || !own->0.contains_key(name) && !own->0.contains_key(canonical) ==> {
                &&& everywhere is None ==> format is Dense
                &&& everywhere is Some && weights is None ==> format == LinearFormat::Quantized(
                    everywhere->0,
                )
                &&& everywhere is Some && weights is Some && weights->0.contains(name) ==> format
                    == LinearFormat::Quantized(everywhere->0)
                &&& everywhere is Some && weights is Some && !weights->0.contains(name) ==> format
                    is Dense
            }
        }),
{
}

/// Name under which the rotary overrides of an attention kind are declared.
pub open spec fn override_name(attention: AttentionPolicy) -> Seq<char> {
    if attention is Full {
        "full_attention"@
    } else {
        "sliding_attention"@
    }
}

/// The rotary base of an attention kind is the number that its own overrides give, and the
/// default where they give none.
pub proof fn law_rotary_bases_follow_their_overrides(args: ModelArgs, attention: AttentionPolicy)
    ensures
        ({
            let base = args.rope_theta_spec(attention);
            match args.rope_parameters {
                None => base == args.rope_theta && args.rope_overrides(attention) is None,
                Some(parameters) => if !parameters@.contains_key(override_name(attention)) {
                    base == args.rope_theta && args.rope_overrides(attention) is None
                } else {
                    let own = parameters@[override_name(attention)];
                    &&& args.rope_overrides(attention) == Some(own)
                    &&& if !own@.contains_key("rope_theta"@) {
                        base == args.rope_theta
                    } else {
                        match own@["rope_theta"@] {
                            RopeValue::Float(value) => base == value,
                            RopeValue::Text { text: _, number: Some(value) } => base == value,
                            _ => base == args.rope_theta,
                        }
                    }
                },
            }
        }),
{
}

/// The rotary settings of an attention kind are its own overrides as a whole, and the default
/// ones where it has none.
pub proof fn law_rotary_settings_follow_their_overrides(
    args: ModelArgs,
    attention: AttentionPolicy,
)
    ensures
        ({
            let own = args.rope_parameters is Some && args.rope_parameters->0@.contains_key(
                override_name(attention),
            );
            &&& own ==> args.rope_scaling_spec(attention) == Some(
                args.rope_parameters->0@[override_name(attention)],
            )
            &&& !own ==> args.rope_scaling_spec(attention) == args.rope_scaling
        }),
{
}

/// Whether the decoder holds the encoding declared for `name`.
pub open spec fn decoder_holds(
    family: FamilyConfig,
    name: Seq<char>,
    encoding: WeightQuantization,
) -> bool {
    family.text.quantized_weight_configs matches Some(held) && held@.contains_key(name)
        && held@[name] == encoding
}

/// Whether the decoder declares nothing for `name`.
pub open spec fn decoder_lacks(family: FamilyConfig, name: Seq<char>) -> bool {
    family.text.quantized_weight_configs matches Some(held) ==> !held@.contains_key(name)
}

/// Whether the vision tower, where there is one, holds the encoding declared for `name`.
pub open spec fn vision_holds(
    family: FamilyConfig,
    name: Seq<char>,
    encoding: WeightQuantization,
) -> bool {
    family.vision matches Some(tower) ==> tower.quantized_weight_configs is Some
        && tower.quantized_weight_configs->0@.contains_key(name)
        && tower.quantized_weight_configs->0@[name] == encoding
}

/// Whether the vision tower declares nothing for `name`.
pub open spec fn vision_lacks(family: FamilyConfig, name: Seq<char>) -> bool {
    family.vision matches Some(tower) ==> tower.quantized_weight_configs is None
        || !tower.quantized_weight_configs->0@.contains_key(name)
}

/// Whether the audio tower, where there is one, holds the encoding declared for `name`.
pub open spec fn audio_holds(
    family: FamilyConfig,
    name: Seq<char>,
    encoding: WeightQuantization,
) -> bool {
    family.audio matches Some(tower) ==> tower.quantized_weight_configs is Some
        && tower.quantized_weight_configs->0@.contains_key(name)
        && tower.quantized_weight_configs->0@[name] == encoding
}

/// Whether the audio tower declares nothing for `name`.
pub open spec fn audio_lacks(family: FamilyConfig, name: Seq<char>) -> bool {
    family.audio matches Some(tower) ==> tower.quantized_weight_configs is None
        || !tower.quantized_weight_configs->0@.contains_key(name)
}

proof fn lemma_shares(
    target: FamilyConfig,
    source: FamilyConfig,
    formats: Map<Seq<char>, WeightQuantization>,
    name: Seq<char>,
)
    requires
        formats_shared(target, source, formats),
    ensures
        formats.contains_key(name) && text_name(name) ==> decoder_holds(
            target,
            name,
            formats[name],
        ),
        !formats.contains_key(name) || !text_name(name) ==> decoder_lacks(target, name),
        formats.contains_key(name) && vision_name(name) ==> vision_holds(
            target,
            name,
            formats[name],
        ),
        !formats.contains_key(name) || !vision_name(name) ==> vision_lacks(target, name),
        formats.contains_key(name) && audio_name(name) ==> audio_holds(
            target,
            name,
            formats[name],
        ),
        !formats.contains_key(name) || !audio_name(name) ==> audio_lacks(target, name),
{
    let none = Map::<Seq<char>, WeightQuantization>::empty();
    let text = kept(formats, |name: Seq<char>| text_name(name));
    let vision = kept(formats, |name: Seq<char>| vision_name(name));
    let audio = kept(formats, |name: Seq<char>| audio_name(name));
    assert(!none.contains_key(name));
    assert(text.contains_key(name) == (formats.contains_key(name) && text_name(name)));
    assert(vision.contains_key(name) == (formats.contains_key(name) && vision_name(name)));
    assert(audio.contains_key(name) == (formats.contains_key(name) && audio_name(name)));
}

/// Declared encodings go to the component whose name they have: to a tower for its own weights,
/// to tower and decoder for the projections between them, and to the decoder alone for all
/// others.
pub proof fn law_encodings_go_to_their_component(
    target: FamilyConfig,
    source: FamilyConfig,
    formats: Map<Seq<char>, WeightQuantization>,
    rest: Seq<char>,
)
    requires
        formats_shared(target, source, formats),
    ensures
        ({
            let name = "model.vision_tower."@ + rest;
            formats.contains_key(name) ==> {
                &&& vision_holds(target, name, formats[name])
                &&& decoder_lacks(target, name)
                &&& audio_lacks(target, name)
            }
        }),
        ({
            let name = "model.embed_vision."@ + rest;
            formats.contains_key(name) ==> {
                &&& vision_holds(target, name, formats[name])
                &&& decoder_holds(target, name, formats[name])
                &&& audio_lacks(target, name)
            }
        }),
        ({
            let name = "model.audio_tower."@ + rest;
            formats.contains_key(name) ==> {
                &&& audio_holds(target, name, formats[name])
                &&& decoder_lacks(target, name)
                &&& vision_lacks(target, name)
            }
        }),
        ({
            let name = "model.embed_audio."@ + rest;
            formats.contains_key(name) ==> {
                &&& audio_holds(target, name, formats[name])
                &&& decoder_holds(target, name, formats[name])
                &&& vision_lacks(target, name)
            }
        }),
        ({
            let name = "model.layers."@ + rest;
            formats.contains_key(name) ==> {
                &&& decoder_holds(target, name, formats[name])
                &&& vision_lacks(target, name)
                &&& audio_lacks(target, name)
            }
        }),
        !formats.contains_key(rest) ==> {
            &&& decoder_lacks(target, rest)
            &&& vision_lacks(target, rest)
            &&& audio_lacks(target, rest)
        },
        target.text.weight_quantization is None && target.text.quantized_weights is None,
        target.vision is Some == source.vision is Some,
        target.audio is Some == source.audio is Some,
{
    reveal_strlit("model.vision_tower.");
    reveal_strlit("model.embed_vision.");
    reveal_strlit("model.audio_tower.");
    reveal_strlit("model.embed_audio.");
    reveal_strlit("model.layers.");
    let vision = "model.vision_tower."@;
    let seen = "model.embed_vision."@;
    let audio = "model.audio_tower."@;
    let heard = "model.embed_audio."@;
    let layers = "model.layers."@;
    lemma_strip(vision, rest);
    lemma_other(vision + rest, seen, 6);
    lemma_other(vision + rest, audio, 6);
    lemma_other(vision + rest, heard, 6);
    lemma_strip(seen, rest);
    lemma_other(seen + rest, vision, 6);
    lemma_other(seen + rest, audio, 6);
    lemma_other(seen + rest, heard, 12);
    lemma_strip(audio, rest);
    lemma_other(audio + rest, vision, 6);
    lemma_other(audio + rest, seen, 6);
    lemma_other(audio + rest, heard, 6);
    lemma_strip(heard, rest);
    lemma_other(heard + rest, vision, 6);
    lemma_other(heard + rest, seen, 12);
    lemma_other(heard + rest, audio, 6);
    lemma_other(layers + rest, vision, 6);
    lemma_other(layers + rest, seen, 6);
    lemma_other(layers + rest, audio, 6);
    lemma_other(layers + rest, heard, 6);
    lemma_shares(target, source, formats, vision + rest);
    lemma_shares(target, source, formats, seen + rest);
    lemma_shares(target, source, formats, audio + rest);
    lemma_shares(target, source, formats, heard + rest);
    lemma_shares(target, source, formats, layers + rest);
    lemma_shares(target, source, formats, rest);
}

/// Load-time quantization gives every component the one requested encoding, without exceptions,
/// and keeps components and widths as they were.
pub proof fn law_load_time_quantization_reaches_the_towers(
    target: FamilyConfig,
    source: FamilyConfig,
    quantization: WeightQuantization,
)
    requires
        quantized_whole(target, source, quantization),
    ensures
        target.text.weight_quantization == Some(quantization),
        target.text.quantized_weights is None,
        target.text.quantized_weight_configs is None,
        target.text.layer_schedule == source.text.layer_schedule,
        target.text.hidden_size == source.text.hidden_size,
        target.text.vocab_size == source.text.vocab_size,
        target.vision is Some == source.vision is Some,
        target.vision is Some ==> {
            &&& target.vision->0.weight_quantization == Some(quantization)
            &&& target.vision->0.quantized_weights is None
            &&& target.vision->0.quantized_weight_configs is None
            &&& target.vision->0.hidden_size == source.vision->0.hidden_size
            &&& target.vision->0.num_hidden_layers == source.vision->0.num_hidden_layers
        },
        target.audio is Some == source.audio is Some,
        target.audio is Some ==> {
            &&& target.audio->0.weight_quantization == Some(quantization)
            &&& target.audio->0.quantized_weights is None
            &&& target.audio->0.quantized_weight_configs is None
            &&& target.audio->0.hidden_size == source.audio->0.hidden_size
            &&& target.audio->0.num_hidden_layers == source.audio->0.num_hidden_layers
        },
{
}

} // verus!
