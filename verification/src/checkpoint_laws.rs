//! What a finished checkpoint plan is to its draft.

use crate::block_laws::{
    are_block_layouts, law_gguf_catalogs_hold_every_block, law_gguf_catalogs_hold_their_layouts,
    stores_block,
};
use crate::catalog_laws::is_routed;
use crate::config::ModelArgs;
use crate::family::FamilyConfig;
use crate::gguf_plan::{gguf_fault, is_gguf_catalog};
use crate::name_laws::lemma_admitted;
use crate::plan::{GgufCheckpointPlan, GgufTensor};
use crate::projector::{is_projector_catalog, projected, projected_tensors, projector_name};
use crate::safetensors::{SafeTensor, SafetensorsCheckpointPlan};
use crate::safetensors_draft::Entry;
use crate::safetensors_plan::{
    Expansion, all_with_mlx_aliases, allowed_prefixes, catalog_fault, expanded, family_draft,
    first_refusal, is_catalog, mlx_name, placed, placed_group, with_mlx_aliases,
};
use vstd::prelude::*;

verus! {

/// Whether `stored` is `tensor`, with its aliases and the mlx-vlm names of its names, and no
/// other alias.
pub open spec fn stands_for(stored: SafeTensor, tensor: SafeTensor) -> bool {
    &&& stored.key == tensor.key
    &&& stored.shape == tensor.shape
    &&& stored.alternate_shapes == tensor.alternate_shapes
    &&& stored.element_count == tensor.element_count
    &&& stored.dtype == tensor.dtype
    &&& stored.role == tensor.role
    &&& stored.requirement == tensor.requirement
    &&& forall|alias: Seq<char>| #[trigger]
        tensor.aliases.contains(alias) ==> stored.aliases.contains(alias)
    &&& forall|alias: Seq<char>| #[trigger]
        stored.aliases.contains(alias) ==> tensor.aliases.contains(alias) || mlx_name(tensor.key)
            == Some(alias) || exists|i: int|
            0 <= i < tensor.aliases.len() && mlx_name(#[trigger] tensor.aliases[i]) == Some(alias)
}

proof fn lemma_stands_for(tensor: SafeTensor)
    ensures
        stands_for(with_mlx_aliases(tensor), tensor),
{
    let names = seq![tensor.key] + tensor.aliases;
    let end = names.len() as int;
    let stored = with_mlx_aliases(tensor);
    assert forall|alias: Seq<char>| #[trigger] tensor.aliases.contains(alias) implies
        stored.aliases.contains(alias) by {
        lemma_admitted(tensor.key, names, end, tensor.aliases, alias);
    }
    assert forall|alias: Seq<char>| #[trigger] stored.aliases.contains(alias) implies
        tensor.aliases.contains(alias) || mlx_name(tensor.key) == Some(alias) || exists|i: int|
        0 <= i < tensor.aliases.len() && mlx_name(#[trigger] tensor.aliases[i]) == Some(alias) by {
        lemma_admitted(tensor.key, names, end, tensor.aliases, alias);
        if !tensor.aliases.contains(alias) {
            let i = choose|i: int| 0 <= i < end && mlx_name(#[trigger] names[i]) == Some(alias);
            if i > 0 {
                assert(names[i] == tensor.aliases[i - 1]);
            } else {
                assert(names[i] == tensor.key);
            }
        }
    }
}

/// Whether a tensor of the plan stands for `tensor`.
pub open spec fn is_planned(tensors: Seq<SafeTensor>, tensor: SafeTensor) -> bool {
    exists|i: int| 0 <= i < tensors.len() && stands_for(#[trigger] tensors[i], tensor)
}

proof fn lemma_planned_kept(
    common: Seq<Entry>,
    expansions: Seq<Expansion>,
    from: int,
    to: int,
    tensor: SafeTensor,
)
    requires
        from <= to,
        is_planned(placed(common, expansions, from), tensor),
    ensures
        is_planned(placed(common, expansions, to), tensor),
    decreases to - from,
{
    if from < to && to > 0 {
        lemma_planned_kept(common, expansions, from, to - 1, tensor);
        let before = placed(common, expansions, to - 1);
        let i = choose|i: int| 0 <= i < before.len() && stands_for(#[trigger] before[i], tensor);
        assert(placed(common, expansions, to)[i] == before[i]);
    }
}

/// A catalog holds every tensor of its draft that no format affects, and every stored tensor of
/// every matrix it asks for, each known by its own names and their mlx-vlm names.
pub proof fn law_catalogs_hold_what_is_drafted(
    plan: SafetensorsCheckpointPlan,
    family: FamilyConfig,
    expansions: Seq<Expansion>,
    at: int,
    stored: int,
)
    requires
        is_catalog(plan, family, expansions),
        0 <= at < family_draft(family).common.len(),
    ensures
        match family_draft(family).common[at] {
            Entry::Plain(tensor) => is_planned(plan.common_tensors.deep_view(), tensor),
            Entry::Matrix(place) => expansions[place as int] is Ok && 0 <= stored
                < expansions[place as int]->Ok_0.len() ==> is_planned(
                plan.common_tensors.deep_view(),
                expansions[place as int]->Ok_0[stored].deep_view(),
            ),
        },
{
    let common = family_draft(family).common;
    let end = common.len() as int;
    let before = placed(common, expansions, at);
    let after = placed(common, expansions, at + 1);
    match common[at] {
        Entry::Plain(tensor) => {
            lemma_stands_for(tensor);
            assert(after[before.len() as int] == with_mlx_aliases(tensor));
            lemma_planned_kept(common, expansions, at + 1, end, tensor);
        },
        Entry::Matrix(place) => {
            if expansions[place as int] is Ok && 0 <= stored
                < expansions[place as int]->Ok_0.len() {
                let all = expanded(expansions[place as int]);
                let tensor = all[stored];
                lemma_stands_for(tensor);
                assert(all_with_mlx_aliases(all)[stored] == with_mlx_aliases(tensor));
                assert(after[before.len() + stored] == with_mlx_aliases(tensor));
                lemma_planned_kept(common, expansions, at + 1, end, tensor);
            }
        },
    }
}

/// A place of a draft adds one tensor to the catalog, or those of its matrix, and no others.
pub proof fn law_places_add_nothing_else(common: Seq<Entry>, expansions: Seq<Expansion>, at: int)
    requires
        0 <= at < common.len(),
    ensures
        placed(common, expansions, 0).len() == 0,
        placed(common, expansions, at + 1).len() == placed(common, expansions, at).len() + match
        common[at] {
            Entry::Plain(_) => 1int,
            Entry::Matrix(place) => match expansions[place as int] {
                Ok(tensors) => tensors.len() as int,
                Err(_) => 0,
            },
        },
{
    let before = placed(common, expansions, at);
    let added = match common[at] {
        Entry::Plain(tensor) => seq![with_mlx_aliases(tensor)],
        Entry::Matrix(place) => all_with_mlx_aliases(expanded(expansions[place as int])),
    };
    assert(placed(common, expansions, at + 1) == before + added);
}

/// Each group of a catalog offers gate and up projections apart, or fused, and must have one
/// of the two; the stored tensors are those of the three matrices that its draft asks for.
pub proof fn law_groups_offer_both_layouts(
    plan: SafetensorsCheckpointPlan,
    family: FamilyConfig,
    expansions: Seq<Expansion>,
    at: int,
)
    requires
        is_catalog(plan, family, expansions),
        0 <= at < family_draft(family).groups.len(),
        ({
            let first = family_draft(family).groups[at].first as int;
            &&& first + 2 < expansions.len()
            &&& expansions[first] is Ok
            &&& expansions[first + 1] is Ok
            &&& expansions[first + 2] is Ok
        }),
    ensures
        plan.layout_groups.len() == family_draft(family).groups.len(),
        ({
            let drafted = family_draft(family).groups[at];
            let first = drafted.first as int;
            let gate = expansions[first]->Ok_0.deep_view();
            let up = expansions[first + 1]->Ok_0.deep_view();
            let fused = expansions[first + 2]->Ok_0.deep_view();
            let group = plan.layout_groups.deep_view()[at];
            &&& group.id == drafted.id
            &&& group.required
            &&& group.variants.len() == 2
            &&& group.variants[0].id == "separate gate and up"@
            &&& group.variants[0].discriminator_keys == seq![drafted.gate, drafted.up]
            &&& group.variants[0].tensors.len() == gate.len() + up.len()
            &&& forall|i: int|
                0 <= i < gate.len() ==> stands_for(
                    group.variants[0].tensors[i],
                    #[trigger] gate[i],
                )
            &&& forall|i: int|
                0 <= i < up.len() ==> stands_for(
                    group.variants[0].tensors[gate.len() + i],
                    #[trigger] up[i],
                )
            &&& group.variants[1].id == "single fused gate and up"@
            &&& group.variants[1].discriminator_keys == seq![drafted.fused]
            &&& group.variants[1].tensors.len() == fused.len()
            &&& forall|i: int|
                0 <= i < fused.len() ==> stands_for(
                    group.variants[1].tensors[i],
                    #[trigger] fused[i],
                )
        }),
{
    let drafted = family_draft(family).groups[at];
    let first = drafted.first as int;
    let gate = expansions[first]->Ok_0.deep_view();
    let up = expansions[first + 1]->Ok_0.deep_view();
    let fused = expansions[first + 2]->Ok_0.deep_view();
    let group = plan.layout_groups.deep_view()[at];
    assert(plan.layout_groups.deep_view().len() == plan.layout_groups.len());
    assert(group == placed_group(drafted, expansions));
    assert forall|i: int| 0 <= i < gate.len() implies stands_for(
        group.variants[0].tensors[i],
        #[trigger] gate[i],
    ) by {
        lemma_stands_for(gate[i]);
    }
    assert forall|i: int| 0 <= i < up.len() implies stands_for(
        group.variants[0].tensors[gate.len() + i],
        #[trigger] up[i],
    ) by {
        lemma_stands_for(up[i]);
    }
    assert forall|i: int| 0 <= i < fused.len() implies stands_for(
        group.variants[1].tensors[i],
        #[trigger] fused[i],
    ) by {
        lemma_stands_for(fused[i]);
    }
}

proof fn lemma_refused(expansions: Seq<Expansion>, at: int, end: int)
    requires
        0 <= at < end <= expansions.len(),
        expansions[at] is Err,
    ensures
        first_refusal(expansions, end) is Some,
    decreases end,
{
    if at < end - 1 {
        lemma_refused(expansions, at, end - 1);
    }
}

/// A catalog is refused where its geometry fails or one of its matrices is refused.
pub proof fn law_refused_matrices_refuse_the_catalog(
    family: FamilyConfig,
    expansions: Seq<Expansion>,
    at: int,
)
    requires
        family_draft(family).failure is Some || 0 <= at < expansions.len() && expansions[at]
            is Err,
    ensures
        catalog_fault(family_draft(family), expansions) is Some,
{
    if 0 <= at < expansions.len() && expansions[at] is Err {
        lemma_refused(expansions, at, expansions.len() as int);
    }
}

/// Whether names that begin with `prefix` are admitted outside the plan.
pub open spec fn admits_prefix(plan: SafetensorsCheckpointPlan, prefix: Seq<char>) -> bool {
    plan.catalog_policy.allowed_prefixes.deep_view().contains(prefix)
}

/// A catalog is strict, but for unused projectors and embedders, and for the projections of the
/// towers that it does not have.
pub proof fn law_catalogs_admit_spare_projections(
    plan: SafetensorsCheckpointPlan,
    family: FamilyConfig,
    expansions: Seq<Expansion>,
)
    requires
        is_catalog(plan, family, expansions),
    ensures
        plan.name@ == "Gemma 4 SafeTensors"@,
        plan.catalog_policy.strict,
        admits_prefix(plan, "multi_modal_projector."@),
        admits_prefix(plan, "model.multi_modal_projector."@),
        admits_prefix(plan, "model.vision_embedder."@),
        admits_prefix(plan, "vision_embedder."@),
        family.vision is None ==> admits_prefix(plan, "model.embed_vision."@) && admits_prefix(
            plan,
            "embed_vision."@,
        ),
        family.audio is None ==> admits_prefix(plan, "model.embed_audio."@) && admits_prefix(
            plan,
            "embed_audio."@,
        ),
        plan.catalog_policy.allowed_prefixes.len() == 4 + if family.vision is None {
            2int
        } else {
            0
        } + if family.audio is None {
            2int
        } else {
            0
        },
{
    let prefixes = plan.catalog_policy.allowed_prefixes.deep_view();
    assert(prefixes.len() == plan.catalog_policy.allowed_prefixes.len());
    lemma_prefixes(family);
}

proof fn lemma_prefixes(family: FamilyConfig)
    ensures
        ({
            let prefixes = allowed_prefixes(family);
            &&& prefixes.contains("multi_modal_projector."@)
            &&& prefixes.contains("model.multi_modal_projector."@)
            &&& prefixes.contains("model.vision_embedder."@)
            &&& prefixes.contains("vision_embedder."@)
            &&& family.vision is None ==> prefixes.contains("model.embed_vision."@)
                && prefixes.contains("embed_vision."@)
            &&& family.audio is None ==> prefixes.contains("model.embed_audio."@)
                && prefixes.contains("embed_audio."@)
            &&& prefixes.len() == 4 + if family.vision is None {
                2int
            } else {
                0
            } + if family.audio is None {
                2int
            } else {
                0
            }
        }),
{
    let prefixes = allowed_prefixes(family);
    assert(prefixes[0] == "multi_modal_projector."@);
    assert(prefixes[1] == "model.multi_modal_projector."@);
    assert(prefixes[2] == "model.vision_embedder."@);
    assert(prefixes[3] == "vision_embedder."@);
    let next: int = if family.vision is None {
        6
    } else {
        4
    };
    if family.vision is None {
        assert(prefixes[4] == "model.embed_vision."@);
        assert(prefixes[5] == "embed_vision."@);
    }
    if family.audio is None {
        assert(prefixes[next] == "model.embed_audio."@);
        assert(prefixes[next + 1] == "embed_audio."@);
    }
}

/// A GGUF catalog is strict, holds every block with the shapes that make its matrices compose,
/// and the layouts of the experts of every block that routes to them.
pub proof fn law_gguf_catalogs_are_complete(
    plan: GgufCheckpointPlan,
    args: ModelArgs,
    layer: int,
)
    requires
        gguf_fault(args) is None,
        is_gguf_catalog(plan, args),
        0 <= layer < args.layer_schedule.len(),
    ensures
        plan.name@ == "Gemma 4 GGUF"@,
        plan.catalog_policy.strict,
        stores_block(plan.common_tensors.deep_view(), args, layer),
        is_routed(args, layer) ==> exists|i: int|
            0 <= i < plan.layout_groups.deep_view().len() && are_block_layouts(
                #[trigger] plan.layout_groups.deep_view()[i],
                args,
                layer,
            ),
{
    law_gguf_catalogs_hold_every_block(args, layer);
    if is_routed(args, layer) {
        law_gguf_catalogs_hold_their_layouts(args, layer, args.layer_schedule.len() as int);
    }
}

/// Whether `stored` is the projector's form of the media tensor `tensor`, under the name `key`.
pub open spec fn projects(stored: GgufTensor, tensor: SafeTensor, key: Seq<char>) -> bool {
    &&& stored.key == key
    &&& stored.shape == tensor.shape
    &&& stored.alternate_shapes == tensor.alternate_shapes
    &&& stored.element_count == tensor.element_count
    &&& stored.operation is Dense
    &&& stored.requirement == tensor.requirement
}

proof fn lemma_projected_kept(tensors: Seq<SafeTensor>, from: int, to: int, at: int)
    requires
        from <= to,
        0 <= at < projected_tensors(tensors, from).len(),
    ensures
        at < projected_tensors(tensors, to).len(),
        projected_tensors(tensors, to)[at] == projected_tensors(tensors, from)[at],
    decreases to - from,
{
    if from < to {
        lemma_projected_kept(tensors, from, to - 1, at);
    }
}

/// A projector catalog is strict, admits nothing else, and holds every media tensor in its dense
/// form, under its name without the root.
pub proof fn law_projectors_hold_every_media_tensor(
    plan: GgufCheckpointPlan,
    tensors: Seq<SafeTensor>,
    at: int,
)
    requires
        is_projector_catalog(plan, tensors),
        0 <= at < tensors.len(),
    ensures
        plan.name@ == "Gemma 4 sibling projector GGUF"@,
        plan.catalog_policy.strict,
        plan.catalog_policy.allowed_prefixes.len() == 0,
        plan.layout_groups.len() == 0,
        projector_name(tensors[at].key) matches Some(key) ==> exists|i: int|
            0 <= i < plan.common_tensors.deep_view().len() && projects(
                #[trigger] plan.common_tensors.deep_view()[i],
                tensors[at],
                key,
            ),
{
    if let Some(key) = projector_name(tensors[at].key) {
        let place = projected_tensors(tensors, at).len() as int;
        assert(projected_tensors(tensors, at + 1)[place] == projected(tensors[at]));
        lemma_projected_kept(tensors, at + 1, tensors.len() as int, place);
        assert(projects(plan.common_tensors.deep_view()[place], tensors[at], key));
    }
}

/// A projector catalog holds media tensors alone: each is the form of one of them.
pub proof fn law_projectors_hold_media_tensors_alone(
    tensors: Seq<SafeTensor>,
    end: int,
    i: int,
) -> (at: int)
    requires
        0 <= end <= tensors.len(),
        0 <= i < projected_tensors(tensors, end).len(),
    ensures
        0 <= at < end,
        projector_name(tensors[at].key) matches Some(key) && projects(
            projected_tensors(tensors, end)[i],
            tensors[at],
            key,
        ),
    decreases end,
{
    if i < projected_tensors(tensors, end - 1).len() {
        law_projectors_hold_media_tensors_alone(tensors, end - 1, i)
    } else {
        end - 1
    }
}

} // verus!
