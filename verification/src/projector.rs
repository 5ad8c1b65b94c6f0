//! Strict GGUF catalog of a sibling media projector.

use crate::errors::{Fault, fault_if, first_of, says};
use crate::family::FamilyConfig;
use crate::plan::{
    CatalogPolicy, GgufCheckpointPlan, GgufTensor, GgufTensorConstraint, TensorOperation,
};
use crate::safetensors::{
    SafeTensor, SafetensorsCheckpointPlan, SafetensorsTensorConstraint, TensorRole, copy_shapes,
};
use crate::safetensors_plan::{Expansion, catalog_fault, family_draft, placed, safetensors_plan};
use crate::text::{debug_quoted, debug_text, push_item};
use crate::weight_names::{rename, renamed};
use vstd::prelude::*;

verus! {

/// Stored name of a media tensor in a released projector.
pub open spec fn projector_name(canonical: Seq<char>) -> Option<Seq<char>> {
    if let Some(r) = renamed(canonical, "model.vision_tower"@, "vision_tower"@) {
        Some(r)
    } else if let Some(r) = renamed(canonical, "model.embed_vision"@, "embed_vision"@) {
        Some(r)
    } else if let Some(r) = renamed(canonical, "model.audio_tower"@, "audio_tower"@) {
        Some(r)
    } else {
        renamed(canonical, "model.embed_audio"@, "embed_audio"@)
    }
}

/// Translates a canonical media name to its stored name in a released projector.
pub fn projector_physical_name(canonical: &str) -> (r: Option<String>)
    ensures
        r.deep_view() == projector_name(canonical@),
{
    if let Some(r) = rename(canonical, "model.vision_tower", "vision_tower") {
        Some(r)
    } else if let Some(r) = rename(canonical, "model.embed_vision", "embed_vision") {
        Some(r)
    } else if let Some(r) = rename(canonical, "model.audio_tower", "audio_tower") {
        Some(r)
    } else {
        rename(canonical, "model.embed_audio", "embed_audio")
    }
}

/// Projector tensor of a media tensor.
pub open spec fn projected(tensor: SafeTensor) -> GgufTensor {
    GgufTensor {
        key: projector_name(tensor.key)->0,
        shape: tensor.shape,
        alternate_shapes: tensor.alternate_shapes,
        element_count: tensor.element_count,
        operation: TensorOperation::Dense,
        requirement: tensor.requirement,
    }
}

/// Projector tensors of the media tensors among the first `end`.
pub open spec fn projected_tensors(tensors: Seq<SafeTensor>, end: int) -> Seq<GgufTensor>
    decreases end,
{
    if end <= 0 {
        Seq::empty()
    } else if projector_name(tensors[end - 1].key) is Some {
        projected_tensors(tensors, end - 1).push(projected(tensors[end - 1]))
    } else {
        projected_tensors(tensors, end - 1)
    }
}

/// First companion tensor of a media weight among the first `end`.
pub open spec fn companion_fault(tensors: Seq<SafeTensor>, end: int) -> Option<Fault>
    decreases end,
{
    if end <= 0 {
        None
    } else {
        let tensor = tensors[end - 1];
        first_of(
            companion_fault(tensors, end - 1),
            fault_if(
                projector_name(tensor.key) is Some && !(tensor.role is Tensor),
                "Gemma 4 projector GGUF does not admit companion tensor "@ + debug_quoted(
                    tensor.key,
                ),
            ),
        )
    }
}

/// First fault of a projector catalog.
pub open spec fn projector_fault(tensors: Seq<SafeTensor>) -> Option<Fault> {
    first_of(
        companion_fault(tensors, tensors.len() as int),
        fault_if(
            projected_tensors(tensors, tensors.len() as int).len() == 0,
            "Gemma 4 projector plan has no enabled media component"@,
        ),
    )
}

proof fn lemma_companion_stable(tensors: Seq<SafeTensor>, from: int, to: int)
    requires
        from <= to,
        companion_fault(tensors, from) is Some,
    ensures
        companion_fault(tensors, to) == companion_fault(tensors, from),
    decreases to - from,
{
    if from < to {
        lemma_companion_stable(tensors, from, to - 1);
    }
}

/// Whether `plan` is the projector catalog of the media tensors among `tensors`.
pub open spec fn is_projector_catalog(
    plan: GgufCheckpointPlan,
    tensors: Seq<SafeTensor>,
) -> bool {
    &&& plan.name@ == "Gemma 4 sibling projector GGUF"@
    &&& plan.common_tensors.deep_view() == projected_tensors(tensors, tensors.len() as int)
    &&& plan.layout_groups.len() == 0
    &&& plan.catalog_policy.strict
    &&& plan.catalog_policy.allowed_prefixes.len() == 0
}

/// Builds the strict released sibling-projector GGUF catalog.
///
/// The media geometry is derived from the same neutral parameter plan used by SafeTensors, with
/// the same `expansions`; only the released physical prefixes and GGUF encoding policy differ.
pub fn mmproj_gguf_plan(family: &FamilyConfig, expansions: &Vec<Expansion>) -> (r: Result<
    GgufCheckpointPlan,
    String,
>)
    requires
        expansions.len() == family_draft(*family).requests.len(),
    ensures
        ({
            let draft = family_draft(*family);
            let tensors = placed(draft.common, expansions@, draft.common.len() as int);
            match first_of(catalog_fault(draft, expansions@), projector_fault(tensors)) {
                Some(fault) => says(r, fault),
                None => r matches Ok(plan) && is_projector_catalog(plan, tensors),
            }
        }),
{
    let safe: SafetensorsCheckpointPlan = safetensors_plan(family, expansions)?;
    project_catalog(&safe)
}

fn project_catalog(safe: &SafetensorsCheckpointPlan) -> (r: Result<GgufCheckpointPlan, String>)
    ensures
        match projector_fault(safe.common_tensors.deep_view()) {
            Some(fault) => says(r, fault),
            None => r matches Ok(plan) && is_projector_catalog(
                plan,
                safe.common_tensors.deep_view(),
            ),
        },
{
    let ghost all = safe.common_tensors.deep_view();
    let mut tensors: Vec<GgufTensorConstraint> = Vec::new();
    assert(tensors.deep_view() =~= Seq::empty());
    let mut at: usize = 0;
    while at < safe.common_tensors.len()
        invariant
            at <= safe.common_tensors.len(),
            all == safe.common_tensors.deep_view(),
            companion_fault(all, at as int) is None,
            tensors.deep_view() == projected_tensors(all, at as int),
        decreases safe.common_tensors.len() - at,
    {
        let tensor: &SafetensorsTensorConstraint = &safe.common_tensors[at];
        assert(all[at as int] == tensor.deep_view());
        if let Some(key) = projector_physical_name(tensor.key.as_str()) {
            match tensor.role {
                TensorRole::Tensor => {},
                TensorRole::Companion => {
                    proof {
                        lemma_companion_stable(all, at as int + 1, all.len() as int);
                    }
                    return Err(
                        "Gemma 4 projector GGUF does not admit companion tensor ".to_owned().concat(
                            debug_text(tensor.key.as_str()).as_str(),
                        ),
                    );
                },
            }
            let constraint = GgufTensorConstraint {
                key,
                shape: tensor.shape.clone(),
                alternate_shapes: copy_shapes(&tensor.alternate_shapes),
                element_count: tensor.element_count,
                operation: TensorOperation::Dense,
                requirement: tensor.requirement,
            };
            push_item(&mut tensors, constraint);
        }
        at = at + 1;
    }
    if tensors.len() == 0 {
        assert(tensors.deep_view().len() == 0);
        return Err("Gemma 4 projector plan has no enabled media component".to_owned());
    }
    assert(tensors.deep_view().len() == tensors.len());
    Ok(
        GgufCheckpointPlan {
            name: "Gemma 4 sibling projector GGUF".to_owned(),
            common_tensors: tensors,
            layout_groups: Vec::new(),
            catalog_policy: CatalogPolicy { strict: true, allowed_prefixes: Vec::new() },
        },
    )
}

} // verus!
