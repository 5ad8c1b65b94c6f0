//! What inspection promises of graphs, states, experts, artifacts, and identities.

use crate::artifact::{CompositeArtifactSchema, Gemma4ArtifactConfig, ProjectorCompatibility};
use crate::artifact_plan::{
    ArtifactArchitecturePlan, ArtifactFamilyPlan, ExternalAssistantTargetProfile, GgufArchitecture,
    ModelConfig, ModelKind, NormalizedProcessorPlan, ProcessorDocuments,
    SafetensorsArchitecturePlan, documents_of, documents_processor, projector_processor,
};
use crate::catalog_laws::is_routed;
use crate::config::ModelArgs;
use crate::errors::Fault;
use crate::experts::{
    GatedProductExpertLayoutNames, are_bank_names, derives_weights, ordinal_fault, resident_experts,
};
use crate::family::FamilyConfig;
use crate::fingerprint::{FingerprintTexts, fingerprint_fields, layer_rope_text, scaling_text};
use crate::graph::{
    Component, ComponentDomain, ComponentGraph, ComponentKind, ComponentOptions,
    ComponentResidencyClass, LayerCachePolicy, StateLayout, StateTensorDimension, assembly, decoder,
    input_components, is_graph, is_state_layout, layer_states, output_components,
};
use crate::media::GgufSpecialTokenIds;
use crate::metadata::MetadataValue;
use crate::schedule::{AttentionPolicy, AttentionStateSource, LayerPolicy};
use crate::text::{decimal, hexadecimal, joined, signed_decimal};
use std::collections::BTreeSet;
use vstd::prelude::*;

verus! {

/// A layer that owns its state caches keys and values for its own attention policy, heads, and
/// head width; the first one beside the optional prefix embedding, of decoder width. A layer
/// that consumes shared state caches nothing.
pub proof fn law_states_follow_the_schedule(layout: StateLayout, args: ModelArgs, layer: int)
    requires
        is_state_layout(layout, args),
        0 <= layer < args.layer_schedule.len(),
    ensures
        layout.layers.len() == args.layer_schedule.len(),
        layout.prefix.dimensions@ == seq![
            StateTensorDimension::Batch,
            StateTensorDimension::PrefixTokens,
            StateTensorDimension::Fixed(args.hidden_size),
        ],
        !layout.prefix.required,
        ({
            let policy = args.layer_schedule[layer];
            match layout.layers[layer] {
                LayerCachePolicy::NoState => policy.key_value is Shared,
                LayerCachePolicy::KeyValue { attention, kv_heads, head_dim } => {
                    &&& !(policy.key_value is Shared) && layer > 0
                    &&& attention == policy.attention
                    &&& kv_heads == policy.num_key_value_heads as i32
                    &&& head_dim == policy.head_dim as i32
                },
                LayerCachePolicy::KeyValueWithFixedState { attention, kv_heads, head_dim } => {
                    &&& !(policy.key_value is Shared) && layer == 0
                    &&& attention == policy.attention
                    &&& kv_heads == policy.num_key_value_heads as i32
                    &&& head_dim == policy.head_dim as i32
                },
            }
        }),
{
    assert(layout.layers@.len() == args.layer_schedule.len());
    assert(layout.layers[layer] == layer_states(args.layer_schedule@)[layer]);
}

/// Whether a component that reads `input` from outside the graph alone is there, and gives hidden
/// states.
pub open spec fn has_source(
    units: Seq<Component>,
    id: Seq<char>,
    kind: ComponentKind,
    input: ComponentDomain,
    residency: ComponentResidencyClass,
) -> bool {
    exists|i: int|
        0 <= i < units.len() && {
            let unit = #[trigger] units[i];
            &&& unit.id == id
            &&& unit.kind == kind
            &&& unit.external_inputs == seq![input]
            &&& unit.dependencies.len() == 0
            &&& unit.dependency_inputs.len() == 0
            &&& unit.output is HiddenStates
            &&& unit.residency == residency
        }
}

/// Whether a component fed by the hidden states of `previous` is there.
pub open spec fn has_stage(
    units: Seq<Component>,
    id: Seq<char>,
    kind: ComponentKind,
    external_inputs: Seq<ComponentDomain>,
    previous: Seq<char>,
    output: ComponentDomain,
    residency: ComponentResidencyClass,
) -> bool {
    exists|i: int|
        0 <= i < units.len() && {
            let unit = #[trigger] units[i];
            &&& unit.id == id
            &&& unit.kind == kind
            &&& unit.external_inputs == external_inputs
            &&& unit.dependencies == seq![previous]
            &&& unit.dependency_inputs == seq![ComponentDomain::HiddenStates]
            &&& unit.output == output
            &&& unit.residency == residency
        }
}

/// Identities of the inputs that the assembly joins.
pub open spec fn input_ids(options: ComponentOptions) -> Seq<Seq<char>> {
    seq!["text.embedding"@] + (if options.vision {
        seq!["vision"@]
    } else {
        Seq::empty()
    }) + (if options.audio {
        seq!["audio"@]
    } else {
        Seq::empty()
    })
}

/// The graph embeds tokens, runs the towers that are included, joins all of their states, runs
/// the decoder layers one after the other, and projects the last states to scores; it holds no
/// other component.
pub proof fn law_graphs_run_inputs_layers_and_outputs(
    graph: ComponentGraph,
    options: ComponentOptions,
    layers: nat,
    layer: int,
)
    requires
        is_graph(graph, options, layers),
    ensures
        ({
            let units = graph.units.deep_view();
            &&& has_source(
                units,
                "text.embedding"@,
                ComponentKind::StaticText,
                ComponentDomain::TokenIds,
                ComponentResidencyClass::Static,
            )
            &&& options.vision ==> has_source(
                units,
                "vision"@,
                ComponentKind::Vision,
                ComponentDomain::PatchMatrix,
                ComponentResidencyClass::Media,
            )
            &&& options.audio ==> has_source(
                units,
                "audio"@,
                ComponentKind::Audio,
                ComponentDomain::AudioFeatures,
                ComponentResidencyClass::Media,
            )
            &&& exists|i: int|
                0 <= i < units.len() && {
                    let unit = #[trigger] units[i];
                    &&& unit.id == "assembly"@
                    &&& unit.kind is Assembly
                    &&& unit.external_inputs.len() == 0
                    &&& unit.dependencies == input_ids(options)
                    &&& unit.dependency_inputs.len() == unit.dependencies.len()
                    &&& unit.output is HiddenStates
                    &&& unit.residency is Static
                }
            &&& units.len() == 3 + layers + if options.vision {
                1int
            } else {
                0
            } + if options.audio {
                1int
            } else {
                0
            } + if options.prediction {
                1int
            } else {
                0
            } + if options.assistant {
                1int
            } else {
                0
            }
        }),
        0 <= layer < layers ==> has_stage(
            graph.units.deep_view(),
            "decoder."@ + decimal(layer as nat),
            ComponentKind::Decoder,
            Seq::empty(),
            if layer == 0 {
                "assembly"@
            } else {
                "decoder."@ + decimal((layer - 1) as nat)
            },
            ComponentDomain::HiddenStates,
            ComponentResidencyClass::Decoder,
        ),
{
    let units = graph.units.deep_view();
    let inputs = input_components(options);
    let first = inputs.len() as int;
    assert(units[0] == inputs[0]);
    if options.vision {
        assert(units[1] == inputs[1]);
    }
    if options.audio {
        assert(units[first - 1] == inputs[first - 1]);
    }
    assert(units[first] == assembly(options));
    assert(units[first].dependencies =~= input_ids(options));
    if 0 <= layer < layers {
        assert(units[first + 1 + layer] == decoder(layer));
    }
}

/// Scores leave the graph through the output projection, and through a prediction and an
/// assistant head that also read tokens where they are included, in that order; each is fed by
/// the last decoder layer.
pub proof fn law_graphs_give_scores(
    graph: ComponentGraph,
    options: ComponentOptions,
    layers: nat,
)
    requires
        is_graph(graph, options, layers),
    ensures
        ({
            let units = graph.units.deep_view();
            let last = if layers == 0 {
                "assembly"@
            } else {
                "decoder."@ + decimal((layers - 1) as nat)
            };
            &&& has_stage(
                units,
                "output"@,
                ComponentKind::OutputProjection,
                Seq::empty(),
                last,
                ComponentDomain::Logits,
                ComponentResidencyClass::Static,
            )
            &&& options.prediction ==> has_stage(
                units,
                "prediction"@,
                ComponentKind::Prediction,
                seq![ComponentDomain::TokenIds],
                last,
                ComponentDomain::Logits,
                ComponentResidencyClass::Draft,
            )
            &&& options.assistant ==> has_stage(
                units,
                "assistant"@,
                ComponentKind::Assistant,
                seq![ComponentDomain::TokenIds],
                last,
                ComponentDomain::Logits,
                ComponentResidencyClass::Draft,
            )
        }),
        graph.outputs.deep_view() == seq!["output"@] + (if options.prediction {
            seq!["prediction"@]
        } else {
            Seq::empty()
        }) + (if options.assistant {
            seq!["assistant"@]
        } else {
            Seq::empty()
        }),
{
    let units = graph.units.deep_view();
    let outputs = output_components(options, layers as int);
    let first = input_components(options).len() as int + 1 + layers;
    assert(units[first] == outputs[0]);
    if options.prediction {
        assert(units[first + 1] == outputs[1]);
    }
    if options.assistant {
        assert(units[first + outputs.len() - 1] == outputs[outputs.len() - 1]);
    }
    assert(graph.outputs.deep_view() =~= seq!["output"@] + (if options.prediction {
        seq!["prediction"@]
    } else {
        Seq::empty()
    }) + (if options.assistant {
        seq!["assistant"@]
    } else {
        Seq::empty()
    }));
}

/// Root of the experts of a layer.
pub open spec fn experts_root(layer: int) -> Seq<char> {
    "model.language_model.layers."@ + decimal(layer as nat) + ".experts.switch_glu"@
}

/// Every scheduled expert belongs to a layer that routes to experts, and takes one index along
/// the first axis of that layer's two banks.
pub proof fn law_residents_are_slices_of_their_banks(args: ModelArgs, layers: int, i: int)
    requires
        0 <= layers <= args.layer_schedule.len(),
        args.num_experts matches Some(experts) && experts > 0,
        0 <= i < resident_experts(args, layers).len(),
    ensures
        ({
            let unit = resident_experts(args, layers)[i];
            let root = experts_root(unit.layer);
            &&& 0 <= unit.layer < layers
            &&& is_routed(args, unit.layer)
            &&& 0 <= unit.expert < args.num_experts->0
            &&& unit.namespace == 0
            &&& unit.owner_group == "text_decoder"@
            &&& unit.unit_path == "model.language_model.layers."@ + decimal(unit.layer as nat)
            &&& unit.parameters.len() == 2
            &&& unit.parameters[0].binding == "gate_up_proj"@
            &&& unit.parameters[0].target == root + "."@ + "gate_up_proj"@
            &&& unit.parameters[0].scales == "gate_up_proj"@ + "_scales"@
            &&& unit.parameters[0].biases == "gate_up_proj"@ + "_biases"@
            &&& unit.parameters[1].binding == "down_proj"@
            &&& unit.parameters[1].target == root + "."@ + "down_proj"@
            &&& unit.parameters[1].scales == "down_proj"@ + "_scales"@
            &&& unit.parameters[1].biases == "down_proj"@ + "_biases"@
            &&& forall|parameter: int|
                0 <= parameter < 2 ==> {
                    let selection = (#[trigger] unit.parameters[parameter]).selection;
                    &&& selection.axis == 0
                    &&& selection.start == unit.expert
                    &&& selection.end == unit.expert + 1
                }
        }),
    decreases layers,
{
    if layers > 0 {
        let earlier = resident_experts(args, layers - 1);
        if i < earlier.len() {
            law_residents_are_slices_of_their_banks(args, layers - 1, i);
            assert(resident_experts(args, layers)[i] == earlier[i]);
        }
    }
}

/// Name of a stored bank: the bare one where the checkpoint holds it, and with `.weight` where it
/// does not.
pub open spec fn is_stored_bank(stored: Seq<char>, present: Set<Seq<char>>, bare: Seq<char>) -> bool {
    if present.contains(bare) {
        stored == bare
    } else {
        stored == bare + ".weight"@
    }
}

/// A layer's banks are bound to their bare fused gate and up and down names, and each is read
/// from its own stored name.
pub proof fn law_banks_have_their_names(
    names: GatedProductExpertLayoutNames,
    present: Set<Seq<char>>,
    layer: int,
)
    requires
        are_bank_names(names, present, layer),
    ensures
        names.target_gate_up@ == experts_root(layer) + ".gate_up_proj"@,
        names.target_down@ == experts_root(layer) + ".down_proj"@,
        is_stored_bank(
            names.packed_gate_up@,
            present,
            experts_root(layer) + ".gate_up_proj"@,
        ),
        is_stored_bank(names.packed_down@, present, experts_root(layer) + ".down_proj"@),
        is_stored_bank(names.separate_gate@, present, experts_root(layer) + ".gate_proj"@),
        is_stored_bank(names.separate_up@, present, experts_root(layer) + ".up_proj"@),
        is_stored_bank(names.separate_down@, present, experts_root(layer) + ".down_proj"@),
        names.independent.len() == 0,
{
}

/// Execution ordinals count the vision layers, then the audio layers, then the decoder layers;
/// those of decoder layers that route to experts alone have derived weights.
pub proof fn law_ordinals_count_towers_first(family: FamilyConfig, ordinal: int, layer: int)
    requires
        ordinal >= 0,
        ordinal_fault(family, ordinal) is None,
    ensures
        ({
            let seen = if family.vision is Some {
                family.vision->0.num_hidden_layers as int
            } else {
                0
            };
            let heard = if family.audio is Some {
                family.audio->0.num_hidden_layers as int
            } else {
                0
            };
            &&& seen >= 0 && heard >= 0
            &&& ordinal < seen + heard + family.text.layer_schedule.len()
            &&& ordinal < seen + heard ==> !derives_weights(family, ordinal)
            &&& layer >= 0 && ordinal == seen + heard + layer ==> derives_weights(family, ordinal)
                == is_routed(family.text, layer)
        }),
{
}

/// A schema has a required decoder, an optional projector where one is admitted, and a required
/// assistant where one is needed, all of one model identity, which follows the unified flag.
pub proof fn law_schemas_name_their_components(
    config: Gemma4ArtifactConfig,
    schema: CompositeArtifactSchema,
)
    requires
        config.is_schema(schema),
    ensures
        ({
            let identity = if config.unified {
                "gemma4_unified"@
            } else {
                "gemma4"@
            };
            let siblings = schema.siblings.deep_view();
            let projectors: int = if config.projector {
                1
            } else {
                0
            };
            &&& config.identity() == identity
            &&& schema.primary.component@ == "decoder"@
            &&& schema.primary.role is Decoder
            &&& schema.primary.required
            &&& schema.primary.architecture@ == identity
            &&& siblings.len() == projectors + if config.assistant {
                1int
            } else {
                0
            }
            &&& config.projector ==> {
                &&& siblings[0].component == "media_projector"@
                &&& siblings[0].role is Projector
                &&& !siblings[0].required
                &&& siblings[0].architecture == identity
            }
            &&& config.assistant ==> {
                &&& siblings[projectors].component == "assistant"@
                &&& siblings[projectors].role is Assistant
                &&& siblings[projectors].required
                &&& siblings[projectors].architecture == identity
            }
        }),
{
}

/// The decoder owns its tables and final norm, a projector the media projections, and an
/// assistant its masked embedding.
pub proof fn law_parameters_have_their_owner(config: Gemma4ArtifactConfig)
    ensures
        ({
            let owners = config.parameters();
            let projectors: int = if config.projector {
                1
            } else {
                0
            };
            &&& owners.len() == 1 + projectors + if config.assistant {
                1int
            } else {
                0
            }
            &&& owners[0].0 == "decoder"@
            &&& owners[0].1 == seq![
                "model.embed_tokens.weight"@,
                "model.norm.weight"@,
                "lm_head.weight"@,
            ]
            &&& config.projector ==> {
                &&& owners[1].0 == "media_projector"@
                &&& owners[1].1 == seq![
                    "model.embed_vision.projection.weight"@,
                    "model.embed_audio.embedding_projection.weight"@,
                ]
            }
            &&& config.assistant ==> {
                &&& owners[1 + projectors].0 == "assistant"@
                &&& owners[1 + projectors].1 == seq![
                    "masked_embedding.centroids.weight"@,
                    "masked_embedding.token_ordering"@,
                ]
            }
        }),
{
}

/// Decoder and projector are compared by their own identities, widths, and placeholder tokens;
/// the decoder's tokens are those it declares for images, videos, and audio.
pub proof fn law_comparisons_keep_the_sides_apart(
    config: Gemma4ArtifactConfig,
    facts: ProjectorCompatibility,
    architecture: String,
    width: usize,
    tokens: BTreeSet<u32>,
    token: u32,
)
    requires
        config.compares(facts, architecture, width, tokens),
    ensures
        config.unified ==> facts.decoder_architecture@ == "gemma4_unified"@,
        !config.unified ==> facts.decoder_architecture@ == "gemma4"@,
        facts.projector_architecture == architecture,
        facts.decoder_hidden_width == config.hidden_size,
        facts.projector_output_width == width,
        facts.projector_modality_tokens == tokens,
        facts.decoder_modality_tokens@.contains(token) <==> config.image_token_id == Some(token)
            || config.video_token_id == Some(token) || config.audio_token_id == Some(token),
{
}

/// A schedule component says the attention, head width, key/value heads, state source,
/// intermediate width, and feed-forward topology of its layer, in that order.
pub proof fn law_components_say_their_policy(policy: LayerPolicy)
    ensures
        policy.component() == (match policy.attention {
            AttentionPolicy::Full => "f"@,
            AttentionPolicy::Sliding { window } => "s"@ + decimal(window as nat),
        }) + ":h"@ + decimal(policy.head_dim as nat) + ":k"@ + decimal(
            policy.num_key_value_heads as nat,
        ) + ":"@ + (match policy.key_value {
            AttentionStateSource::Local { value } => if value is Projected {
                "lp"@
            } else {
                "lr"@
            },
            AttentionStateSource::Publish { value } => if value is Projected {
                "pp"@
            } else {
                "pr"@
            },
            AttentionStateSource::Shared => "s"@,
        }) + ":i"@ + decimal(policy.intermediate_size as nat) + ":"@ + (
        if policy.feed_forward is DenseWithSparseMoe {
            "m"@
        } else {
            "d"@
        }),
{
}

/// The identity has ten fields, each the value of its name: sizes as decimal numerals, layer
/// components in the order of the schedule, and the texts of the encodings.
pub proof fn law_identities_name_their_fields(args: ModelArgs, texts: FingerprintTexts)
    ensures
        ({
            let fields = fingerprint_fields(args, texts);
            let layers = args.layer_schedule@;
            &&& fields.len() == 10
            &&& fields[0] == ("model_type"@, args.model_type@)
            &&& fields[1] == ("hidden_size"@, signed_decimal(args.hidden_size as int))
            &&& fields[2] == ("num_hidden_layers"@, decimal(layers.len()))
            &&& fields[3] == (
                "num_attention_heads"@,
                signed_decimal(args.num_attention_heads as int),
            )
            &&& fields[4] == (
                "max_position_embeddings"@,
                signed_decimal(args.max_position_embeddings as int),
            )
            &&& fields[5].0 == "layer_schedule"@
            &&& fields[5].1 == joined(
                Seq::new(layers.len(), |layer: int| layers[layer].component()),
                ","@,
            )
            &&& fields[6].0 == "layer_rope"@
            &&& fields[6].1 == joined(
                Seq::new(
                    layers.len(),
                    |layer: int| layer_rope_text(args, texts, layers[layer].attention),
                ),
                ","@,
            )
            &&& fields[7] == ("quantization"@, texts.quantization@)
            &&& fields[8] == ("quantized_weights"@, texts.quantized_weights@)
            &&& fields[9] == ("quantized_weight_configs"@, texts.quantized_weight_configs@)
        }),
{
    let layers = args.layer_schedule@;
    assert(Seq::new(
        args.layer_schedule.len() as nat,
        |layer: int| layer_rope_text(args, texts, args.layer_schedule[layer].attention),
    ) =~= Seq::new(
        layers.len(),
        |layer: int| layer_rope_text(args, texts, layers[layer].attention),
    ));
}

/// The rotary text of a layer says its attention, the eight digits of its base, and its
/// overrides.
pub proof fn law_rotary_texts_say_their_policy(
    args: ModelArgs,
    texts: FingerprintTexts,
    attention: AttentionPolicy,
)
    ensures
        layer_rope_text(args, texts, attention) == (match attention {
            AttentionPolicy::Full => "Full"@,
            AttentionPolicy::Sliding { window } => "Sliding { window: "@ + decimal(window as nat)
                + " }"@,
        }) + ":"@ + hexadecimal(args.rope_theta_spec(attention).bits as nat, 8) + ":"@
            + scaling_text(args, texts, attention),
        attention is Full ==> texts.rope(attention) == texts.full_rope.deep_view(),
        attention is Sliding ==> texts.rope(attention) == texts.sliding_rope.deep_view(),
{
}

/// Each family reads its own documents: the three Qwen families one kind, and families without
/// media none.
pub proof fn law_families_read_their_documents(kind: ModelKind, documents: ProcessorDocuments)
    requires
        documents.belong_to(documents_of(kind)),
    ensures
        kind is Gemma4 <==> documents is Gemma4,
        kind is Inkling <==> documents is Inkling,
        kind is MuseGlimmer <==> documents is Muse,
        kind is Qwen3Vl || kind is Qwen3VlMoe || kind is Qwen35 <==> documents is Qwen,
{
}

/// A GGUF artifact without a projector has no processor; one with a projector has that of its
/// own family, and none where the family has no media.
pub proof fn law_projectors_plan_their_family(
    architecture: GgufArchitecture,
    model: Map<Seq<char>, MetadataValue>,
    projector: Option<Map<Seq<char>, MetadataValue>>,
    planned: Option<NormalizedProcessorPlan>,
)
    requires
        projector_processor(architecture, model, projector, Ok(planned)),
    ensures
        projector is None ==> planned is None,
        planned matches Some(plan) ==> {
            &&& plan is Gemma4 ==> architecture is Gemma4
            &&& plan is Inkling ==> architecture is Inkling
            &&& plan is Muse ==> architecture is MuseGlimmer
            &&& plan is Qwen ==> architecture is Qwen3Vl || architecture is Qwen3VlMoe
                || architecture is Qwen35 || architecture is Qwen35Moe
        },
        projector is Some ==> (planned is Some <==> architecture is Gemma4 || architecture
            is Inkling || architecture is MuseGlimmer || architecture is Qwen3Vl || architecture
            is Qwen3VlMoe || architecture is Qwen35 || architecture is Qwen35Moe),
{
}

/// Bound Qwen tokens frame media between the vision start and the vision end token; bound Inkling
/// tokens open images and audio with their own. The rest of the processor stays as it was.
pub proof fn law_bound_tokens_are_held<S, G, P, E>(
    plan: ArtifactArchitecturePlan<S, G, P, E>,
    ids: GgufSpecialTokenIds,
    bound: Result<P, String>,
)
    requires
        plan.binding_fault(ids, bound) is None,
    ensures
        match ids {
            GgufSpecialTokenIds::Qwen { vision_start_token_id, vision_end_token_id, .. } => match (
                plan.processor,
                plan.with_tokens(ids, bound).processor,
            ) {
                (
                    Some(NormalizedProcessorPlan::Qwen(before)),
                    Some(NormalizedProcessorPlan::Qwen(after)),
                ) => {
                    &&& after.framing is Some
                    &&& after.framing->0.start_token_id == vision_start_token_id
                    &&& after.framing->0.end_token_id == vision_end_token_id
                    &&& after.image == before.image
                    &&& after.video == before.video
                    &&& plan.with_tokens(ids, bound).media_projector == Some(bound->Ok_0)
                },
                _ => false,
            },
            GgufSpecialTokenIds::Inkling { image_bos_token_id, audio_bos_token_id } => match (
                plan.processor,
                plan.with_tokens(ids, bound).processor,
            ) {
                (
                    Some(NormalizedProcessorPlan::Inkling(before)),
                    Some(NormalizedProcessorPlan::Inkling(after)),
                ) => {
                    &&& after.image_bos_token_id == Some(image_bos_token_id)
                    &&& after.audio_bos_token_id == Some(audio_bos_token_id)
                    &&& after.dmel_bins == before.dmel_bins
                    &&& after.dmel_min == before.dmel_min
                    &&& after.dmel_max == before.dmel_max
                    &&& plan.with_tokens(ids, bound).media_projector == plan.media_projector
                },
                _ => false,
            },
        },
{
}

/// Grouped products are needed exactly where the model routes to grouped experts, and partial
/// ones beside them exactly where its tensors are split over more than one device.
pub proof fn law_grouped_products_follow_routing<S, G, P, E>(
    plan: ArtifactArchitecturePlan<S, G, P, E>,
    tensor_parallel: Option<usize>,
)
    ensures
        ({
            let routed = match plan.family {
                ArtifactFamilyPlan::Safetensors(family) => family.grouped_routed_experts,
                ArtifactFamilyPlan::Gguf(family) => family.grouped_routed_experts,
            };
            let split = tensor_parallel is Some && tensor_parallel->0 > 1;
            let needed = plan.grouped_operations(tensor_parallel);
            &&& !routed ==> needed.len() == 0
            &&& routed ==> needed[0] is GatedProduct
            &&& routed && !split ==> needed.len() == 1
            &&& routed && split ==> needed.len() == 2 && needed[1]
                is GatedProductTensorParallelPartial
        }),
{
}

/// A target projection has the target's family and the extension, and admission the admitted
/// family; projector and processor stay as they were, and so does the extension under admission.
pub proof fn law_resolution_keeps_the_rest<S, G, P, E>(
    plan: ArtifactArchitecturePlan<S, G, P, E>,
    family: SafetensorsArchitecturePlan<S>,
    extension: E,
)
    ensures
        plan.targeting(family, extension).family == ArtifactFamilyPlan::<S, G>::Safetensors(family),
        plan.targeting(family, extension).prediction_extension == Some(extension),
        plan.targeting(family, extension).media_projector == plan.media_projector,
        plan.targeting(family, extension).processor == plan.processor,
        plan.admitting(family).family == ArtifactFamilyPlan::<S, G>::Safetensors(family),
        plan.admitting(family).prediction_extension == plan.prediction_extension,
        plan.admitting(family).media_projector == plan.media_projector,
        plan.admitting(family).processor == plan.processor,
{
}

/// Documents give a processor of their own family, and none where none are read.
pub proof fn law_documents_plan_their_family(
    documents: ProcessorDocuments,
    planned: Option<NormalizedProcessorPlan>,
)
    requires
        documents_processor(documents) == Ok::<Option<NormalizedProcessorPlan>, Fault>(planned),
    ensures
        documents is Absent ==> planned is None,
        planned matches Some(plan) ==> {
            &&& plan is Gemma4 <==> documents is Gemma4
            &&& plan is Inkling <==> documents is Inkling
            &&& plan is Muse <==> documents is Muse
            &&& plan is Qwen <==> documents is Qwen
        },
{
}

/// An external assistant is admitted for Gemma 4 and Muse-Glimmer targets alone, by the very
/// configuration of the target.
pub proof fn law_assistants_see_their_target<C, M, O>(
    config: ModelConfig<C, M, O>,
    profile: Option<ExternalAssistantTargetProfile<&C, &M>>,
)
    requires
        config.profiles(profile),
    ensures
        match config {
            ModelConfig::Gemma4(target) => profile == Some(
                ExternalAssistantTargetProfile::<&C, &M>::Gemma4(&target),
            ),
            ModelConfig::MuseGlimmer(target) => profile == Some(
                ExternalAssistantTargetProfile::<&C, &M>::MuseGlimmer(&target),
            ),
            ModelConfig::Other(_) => profile is None,
        },
{
}

/// Tokens are lacking exactly where a Qwen plan has no framing or an Inkling plan not both of its
/// opening tokens.
pub proof fn law_tokens_are_lacking_where_unbound<S, G, P, E>(
    plan: ArtifactArchitecturePlan<S, G, P, E>,
)
    ensures
        match plan.processor {
            Some(NormalizedProcessorPlan::Qwen(qwen)) => match plan.lacking_tokens() {
                Some(kind) => kind is Qwen && qwen.framing is None,
                None => qwen.framing is Some,
            },
            Some(NormalizedProcessorPlan::Inkling(inkling)) => match plan.lacking_tokens() {
                Some(kind) => kind is Inkling && (inkling.image_bos_token_id is None
                    || inkling.audio_bos_token_id is None),
                None => inkling.image_bos_token_id is Some && inkling.audio_bos_token_id is Some,
            },
            _ => plan.lacking_tokens() is None,
        },
{
}

} // verus!
