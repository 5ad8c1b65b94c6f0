//! Complete SafeTensors catalog of a Gemma 4 artifact.

use crate::errors::{Fault, first_of, says};
use crate::family::FamilyConfig;
use crate::plan::{
    AlternativeLayoutGroup, CatalogPolicy, LayoutGroup, gate_up_group, push_gate_up_group,
};
use crate::safetensors::{SafeTensor, SafetensorsCheckpointPlan, SafetensorsTensorConstraint};
use crate::safetensors_draft::{Draft, DraftEntry, DraftGroup, Entry, Group, SafetensorsDraft};
use crate::safetensors_media::{
    add_safetensors_audio, add_safetensors_vision, audio_part, vision_part,
};
use crate::safetensors_text::{draft_text, text_draft};
use crate::text::{list_has, push_item, strip_prefix, stripped};
use vstd::prelude::*;

verus! {

/// Physical name of a released-layout tensor in the `mlx-vlm` conversions.
pub open spec fn mlx_name(name: Seq<char>) -> Option<Seq<char>> {
    if let Some(rest) = stripped(name, "model.language_model."@) {
        Some("language_model.model."@ + rest)
    } else if let Some(rest) = stripped(name, "lm_head."@) {
        Some("language_model.lm_head."@ + rest)
    } else if let Some(rest) = stripped(name, "model.vision_tower."@) {
        Some("vision_tower."@ + rest)
    } else if let Some(rest) = stripped(name, "model.embed_vision."@) {
        Some("embed_vision."@ + rest)
    } else if let Some(rest) = stripped(name, "model.audio_tower."@) {
        Some("audio_tower."@ + rest)
    } else if let Some(rest) = stripped(name, "model.embed_audio."@) {
        Some("embed_audio."@ + rest)
    } else {
        None
    }
}

/// Physical name of a released-layout tensor in the `mlx-vlm` / `mlx-community` SafeTensors
/// conversions, which nest the decoder under `language_model.model` and keep the media towers
/// and projections at the root without the `model.` prefix. Returns `None` for names that
/// already use a layout those conversions share with the released one.
pub fn mlx_vlm_physical_name(name: &str) -> (r: Option<String>)
    ensures
        r.deep_view() == mlx_name(name@),
{
    if let Some(rest) = strip_prefix(name, "model.language_model.") {
        Some("language_model.model.".to_owned().concat(rest))
    } else if let Some(rest) = strip_prefix(name, "lm_head.") {
        Some("language_model.lm_head.".to_owned().concat(rest))
    } else if let Some(rest) = strip_prefix(name, "model.vision_tower.") {
        Some("vision_tower.".to_owned().concat(rest))
    } else if let Some(rest) = strip_prefix(name, "model.embed_vision.") {
        Some("embed_vision.".to_owned().concat(rest))
    } else if let Some(rest) = strip_prefix(name, "model.audio_tower.") {
        Some("audio_tower.".to_owned().concat(rest))
    } else if let Some(rest) = strip_prefix(name, "model.embed_audio.") {
        Some("embed_audio.".to_owned().concat(rest))
    } else {
        None
    }
}

/// `aliases` with the physical names of the first `end` of `names` that are new.
pub open spec fn admitted(
    key: Seq<char>,
    names: Seq<Seq<char>>,
    end: int,
    aliases: Seq<Seq<char>>,
) -> Seq<Seq<char>>
    decreases end,
{
    if end <= 0 {
        aliases
    } else {
        let earlier = admitted(key, names, end - 1, aliases);
        match mlx_name(names[end - 1]) {
            Some(physical) if physical != key && !earlier.contains(physical) => earlier.push(
                physical,
            ),
            _ => earlier,
        }
    }
}

/// The tensor, also admitted under the physical names of its key and aliases.
pub open spec fn with_mlx_aliases(tensor: SafeTensor) -> SafeTensor {
    let names = seq![tensor.key] + tensor.aliases;
    SafeTensor {
        aliases: admitted(tensor.key, names, names.len() as int, tensor.aliases),
        ..tensor
    }
}

/// Adds the `mlx-vlm` physical alias of a constraint's key and existing aliases so one plan
/// admits the released, canonical, and MLX conversions.
pub fn add_mlx_vlm_aliases(constraint: &mut SafetensorsTensorConstraint)
    ensures
        final(constraint).deep_view() == with_mlx_aliases(old(constraint).deep_view()),
{
    let ghost tensor = constraint.deep_view();
    let ghost names = seq![tensor.key] + tensor.aliases;
    let declared: usize = constraint.aliases.len();
    if let Some(name) = mlx_vlm_physical_name(constraint.key.as_str()) {
        add_alias(constraint, name);
    }
    assert(constraint.aliases.deep_view() =~= admitted(tensor.key, names, 1, tensor.aliases)) by {
        reveal_with_fuel(admitted, 2);
    }
    let mut at: usize = 0;
    while at < declared
        invariant
            at <= declared,
            tensor == old(constraint).deep_view(),
            names == seq![tensor.key] + tensor.aliases,
            declared == tensor.aliases.len(),
            declared <= constraint.aliases.len(),
            forall|i: int|
                0 <= i < declared ==> #[trigger] constraint.aliases[i]@ == tensor.aliases[i],
            constraint.deep_view() == (SafeTensor {
                aliases: admitted(tensor.key, names, at as int + 1, tensor.aliases),
                ..tensor
            }),
        decreases declared - at,
    {
        let physical: Option<String> = mlx_vlm_physical_name(constraint.aliases[at].as_str());
        assert(physical.deep_view() == mlx_name(names[at as int + 1]));
        if let Some(name) = physical {
            add_alias(constraint, name);
        }
        at = at + 1;
    }
}

/// Adds `name` to the aliases unless it is the key or among them.
fn add_alias(constraint: &mut SafetensorsTensorConstraint, name: String)
    ensures
        ({
            let before = old(constraint).deep_view();
            final(constraint).deep_view() == if name@ != before.key && !before.aliases.contains(
                name@,
            ) {
                SafeTensor { aliases: before.aliases.push(name@), ..before }
            } else {
                before
            }
        }),
        final(constraint).aliases.len() >= old(constraint).aliases.len(),
        forall|i: int|
            0 <= i < old(constraint).aliases.len() ==> #[trigger] final(constraint).aliases[i]
                == old(constraint).aliases[i],
{
    if name != constraint.key && !list_has(&constraint.aliases, name.as_str()) {
        push_item(&mut constraint.aliases, name);
    }
}

/// The catalog before expansion, up to the first geometry fault.
pub open spec fn family_draft(family: FamilyConfig) -> Draft {
    let hidden = family.text.hidden_size as usize;
    let text = text_draft(family.text);
    if text.failure is Some {
        text
    } else {
        let seen = match family.vision {
            Some(vision) => vision_part(text, vision, hidden),
            None => text,
        };
        if seen.failure is Some {
            seen
        } else {
            match family.audio {
                Some(audio) => audio_part(seen, audio, hidden),
                None => seen,
            }
        }
    }
}

/// Drafts the complete catalog: its tensors in order, and the matrices that remain to be
/// expanded by their weight format.
pub fn safetensors_draft(family: &FamilyConfig) -> (r: SafetensorsDraft)
    ensures
        r.deep_view() == family_draft(*family),
        r.deep_view().complete(),
{
    let mut draft = draft_text(&family.text);
    if draft.failure.is_some() {
        return draft;
    }
    let hidden: usize = family.text.hidden_size as usize;
    if let Some(vision) = &family.vision {
        add_safetensors_vision(&mut draft, vision, hidden);
        if draft.failure.is_some() {
            return draft;
        }
    }
    if let Some(audio) = &family.audio {
        add_safetensors_audio(&mut draft, audio, hidden);
    }
    draft
}

/// Stored tensors of one matrix, or why its format refuses it.
pub type Expansion = Result<Vec<SafetensorsTensorConstraint>, String>;

/// Stored tensors of an expanded matrix.
pub open spec fn expanded(expansion: Expansion) -> Seq<SafeTensor> {
    match expansion {
        Ok(tensors) => tensors.deep_view(),
        Err(_) => Seq::empty(),
    }
}

/// First refusal among the first `end` expansions.
pub open spec fn first_refusal(expansions: Seq<Expansion>, end: int) -> Option<Fault>
    decreases end,
{
    if end <= 0 {
        None
    } else {
        first_of(
            first_refusal(expansions, end - 1),
            match expansions[end - 1] {
                Ok(_) => None,
                Err(message) => Some(Fault::Invalid(message@)),
            },
        )
    }
}

/// First fault of a catalog: the first refused matrix, else the first geometry fault.
pub open spec fn catalog_fault(draft: Draft, expansions: Seq<Expansion>) -> Option<Fault> {
    first_of(first_refusal(expansions, expansions.len() as int), draft.failure)
}

/// Every tensor with its `mlx-vlm` aliases.
pub open spec fn all_with_mlx_aliases(tensors: Seq<SafeTensor>) -> Seq<SafeTensor> {
    Seq::new(tensors.len(), |i: int| with_mlx_aliases(tensors[i]))
}

/// Tensors of the first `end` places.
pub open spec fn placed(common: Seq<Entry>, expansions: Seq<Expansion>, end: int) -> Seq<
    SafeTensor,
>
    decreases end,
{
    if end <= 0 {
        Seq::empty()
    } else {
        placed(common, expansions, end - 1) + match common[end - 1] {
            Entry::Plain(tensor) => seq![with_mlx_aliases(tensor)],
            Entry::Matrix(at) => all_with_mlx_aliases(expanded(expansions[at as int])),
        }
    }
}

/// Layouts of a group.
pub open spec fn placed_group(group: Group, expansions: Seq<Expansion>) -> LayoutGroup<SafeTensor> {
    let first = group.first as int;
    gate_up_group(
        group.id,
        all_with_mlx_aliases(expanded(expansions[first])) + all_with_mlx_aliases(
            expanded(expansions[first + 1]),
        ),
        group.gate,
        group.up,
        all_with_mlx_aliases(expanded(expansions[first + 2])),
        group.fused,
    )
}

/// Prefixes admitted outside the plan. A text-only conversion may keep the media-to-text
/// projections of the towers it dropped.
pub open spec fn allowed_prefixes(family: FamilyConfig) -> Seq<Seq<char>> {
    let shared = seq![
        "multi_modal_projector."@,
        "model.multi_modal_projector."@,
        "model.vision_embedder."@,
        "vision_embedder."@,
    ];
    let seen = if family.vision is None {
        shared + seq!["model.embed_vision."@, "embed_vision."@]
    } else {
        shared
    };
    if family.audio is None {
        seen + seq!["model.embed_audio."@, "embed_audio."@]
    } else {
        seen
    }
}

fn append_aliased(
    tensors: &mut Vec<SafetensorsTensorConstraint>,
    more: &Vec<SafetensorsTensorConstraint>,
)
    ensures
        final(tensors).deep_view() == old(tensors).deep_view() + all_with_mlx_aliases(
            more.deep_view(),
        ),
{
    let ghost before = tensors.deep_view();
    let ghost all = all_with_mlx_aliases(more.deep_view());
    let mut at: usize = 0;
    assert(tensors.deep_view() =~= before + all.take(0));
    while at < more.len()
        invariant
            at <= more.len(),
            all == all_with_mlx_aliases(more.deep_view()),
            tensors.deep_view() == before + all.take(at as int),
        decreases more.len() - at,
    {
        let mut tensor: SafetensorsTensorConstraint = more[at].clone();
        add_mlx_vlm_aliases(&mut tensor);
        push_item(tensors, tensor);
        assert(tensors.deep_view() =~= before + all.take(at as int + 1));
        at = at + 1;
    }
    assert(all.take(more.len() as int) =~= all);
}

fn append_expanded(tensors: &mut Vec<SafetensorsTensorConstraint>, expansion: &Expansion)
    ensures
        final(tensors).deep_view() == old(tensors).deep_view() + all_with_mlx_aliases(
            expanded(*expansion),
        ),
{
    match expansion {
        Ok(more) => {
            append_aliased(tensors, more);
        },
        Err(_) => {
            assert(tensors.deep_view() =~= tensors.deep_view() + all_with_mlx_aliases(
                expanded(*expansion),
            ));
        },
    }
}

fn check_expansions(expansions: &Vec<Expansion>) -> (r: Result<(), String>)
    ensures
        match first_refusal(expansions@, expansions.len() as int) {
            Some(fault) => says(r, fault),
            None => r is Ok,
        },
{
    let mut at: usize = 0;
    while at < expansions.len()
        invariant
            at <= expansions.len(),
            first_refusal(expansions@, at as int) is None,
        decreases expansions.len() - at,
    {
        if let Err(message) = &expansions[at] {
            proof {
                lemma_refusal_stable(expansions@, at as int + 1, expansions.len() as int);
            }
            return Err(message.clone());
        }
        at = at + 1;
    }
    Ok(())
}

proof fn lemma_refusal_stable(expansions: Seq<Expansion>, from: int, to: int)
    requires
        from <= to,
        first_refusal(expansions, from) is Some,
    ensures
        first_refusal(expansions, to) == first_refusal(expansions, from),
    decreases to - from,
{
    if from < to {
        lemma_refusal_stable(expansions, from, to - 1);
    }
}

fn place_common(draft: &SafetensorsDraft, expansions: &Vec<Expansion>) -> (r: Vec<
    SafetensorsTensorConstraint,
>)
    requires
        draft.deep_view().complete(),
        expansions.len() == draft.requests.len(),
    ensures
        r.deep_view() == placed(
            draft.deep_view().common,
            expansions@,
            draft.common.len() as int,
        ),
{
    let ghost common = draft.deep_view().common;
    let mut tensors: Vec<SafetensorsTensorConstraint> = Vec::new();
    assert(tensors.deep_view() =~= Seq::empty());
    let mut at: usize = 0;
    while at < draft.common.len()
        invariant
            at <= draft.common.len(),
            common == draft.deep_view().common,
            draft.deep_view().complete(),
            expansions.len() == draft.requests.len(),
            tensors.deep_view() == placed(common, expansions@, at as int),
        decreases draft.common.len() - at,
    {
        let ghost before = tensors.deep_view();
        proof {
            reveal(Draft::complete);
            assert(common[at as int] == draft.common[at as int].deep_view());
        }
        match &draft.common[at] {
            DraftEntry::Plain(tensor) => {
                let mut tensor: SafetensorsTensorConstraint = tensor.clone();
                add_mlx_vlm_aliases(&mut tensor);
                push_item(&mut tensors, tensor);
                assert(tensors.deep_view() =~= before + seq![tensor.deep_view()]);
            },
            DraftEntry::Matrix(request) => {
                append_expanded(&mut tensors, &expansions[*request]);
            },
        }
        at = at + 1;
    }
    tensors
}

fn place_group(
    groups: &mut Vec<AlternativeLayoutGroup<SafetensorsTensorConstraint>>,
    group: &DraftGroup,
    expansions: &Vec<Expansion>,
)
    requires
        group.first + 2 < expansions.len(),
    ensures
        final(groups).deep_view() == old(groups).deep_view().push(
            placed_group(group.deep_view(), expansions@),
        ),
{
    let mut separate: Vec<SafetensorsTensorConstraint> = Vec::new();
    append_expanded(&mut separate, &expansions[group.first]);
    append_expanded(&mut separate, &expansions[group.first + 1]);
    let mut packed: Vec<SafetensorsTensorConstraint> = Vec::new();
    append_expanded(&mut packed, &expansions[group.first + 2]);
    proof {
        let first = group.first as int;
        assert(separate.deep_view() =~= all_with_mlx_aliases(expanded(expansions@[first]))
            + all_with_mlx_aliases(expanded(expansions@[first + 1])));
        assert(packed.deep_view() =~= all_with_mlx_aliases(expanded(expansions@[first + 2])));
    }
    push_gate_up_group(
        groups,
        group.id.clone(),
        separate,
        group.gate.clone(),
        group.up.clone(),
        packed,
        group.fused.clone(),
    );
}

fn place_groups(draft: &SafetensorsDraft, expansions: &Vec<Expansion>) -> (r: Vec<
    AlternativeLayoutGroup<SafetensorsTensorConstraint>,
>)
    requires
        draft.deep_view().complete(),
        expansions.len() == draft.requests.len(),
    ensures
        r.deep_view() == Seq::new(
            draft.groups.len() as nat,
            |i: int| placed_group(draft.deep_view().groups[i], expansions@),
        ),
{
    let ghost all = Seq::new(
        draft.groups.len() as nat,
        |i: int| placed_group(draft.deep_view().groups[i], expansions@),
    );
    let mut groups: Vec<AlternativeLayoutGroup<SafetensorsTensorConstraint>> = Vec::new();
    assert(groups.deep_view() =~= all.take(0));
    let mut at: usize = 0;
    while at < draft.groups.len()
        invariant
            at <= draft.groups.len(),
            draft.deep_view().complete(),
            expansions.len() == draft.requests.len(),
            all == Seq::new(
                draft.groups.len() as nat,
                |i: int| placed_group(draft.deep_view().groups[i], expansions@),
            ),
            groups.deep_view() == all.take(at as int),
        decreases draft.groups.len() - at,
    {
        proof {
            reveal(Draft::complete);
            assert(draft.deep_view().groups[at as int] == draft.groups[at as int].deep_view());
        }
        place_group(&mut groups, &draft.groups[at], expansions);
        assert(groups.deep_view() =~= all.take(at as int + 1));
        at = at + 1;
    }
    assert(all.take(all.len() as int) =~= all);
    groups
}

fn catalog_prefixes(family: &FamilyConfig) -> (r: Vec<String>)
    ensures
        r.deep_view() == allowed_prefixes(*family),
{
    let mut prefixes: Vec<String> = Vec::new();
    push_item(&mut prefixes, "multi_modal_projector.".to_owned());
    push_item(&mut prefixes, "model.multi_modal_projector.".to_owned());
    push_item(&mut prefixes, "model.vision_embedder.".to_owned());
    push_item(&mut prefixes, "vision_embedder.".to_owned());
    if family.vision.is_none() {
        push_item(&mut prefixes, "model.embed_vision.".to_owned());
        push_item(&mut prefixes, "embed_vision.".to_owned());
    }
    if family.audio.is_none() {
        push_item(&mut prefixes, "model.embed_audio.".to_owned());
        push_item(&mut prefixes, "embed_audio.".to_owned());
    }
    assert(prefixes.deep_view() =~= allowed_prefixes(*family));
    prefixes
}

/// What a complete catalog says.
pub open spec fn is_catalog(
    plan: SafetensorsCheckpointPlan,
    family: FamilyConfig,
    expansions: Seq<Expansion>,
) -> bool {
    let draft = family_draft(family);
    &&& plan.name@ == "Gemma 4 SafeTensors"@
    &&& plan.common_tensors.deep_view() == placed(
        draft.common,
        expansions,
        draft.common.len() as int,
    )
    &&& plan.layout_groups.deep_view() == Seq::new(
        draft.groups.len(),
        |i: int| placed_group(draft.groups[i], expansions),
    )
    &&& plan.catalog_policy.strict
    &&& plan.catalog_policy.allowed_prefixes.deep_view() == allowed_prefixes(family)
}

/// Builds the complete decoder portion of a Gemma 4 SafeTensors artifact. Native media
/// components are appended from the same normalized family configuration, while residency
/// remains a runtime concern. `expansions` are the stored tensors of the matrices that
/// `safetensors_draft` requests, in order.
pub fn safetensors_plan(family: &FamilyConfig, expansions: &Vec<Expansion>) -> (r: Result<
    SafetensorsCheckpointPlan,
    String,
>)
    requires
        expansions.len() == family_draft(*family).requests.len(),
    ensures
        match catalog_fault(family_draft(*family), expansions@) {
            Some(fault) => says(r, fault),
            None => r matches Ok(plan) && is_catalog(plan, *family, expansions@),
        },
{
    let draft = safetensors_draft(family);
    assert(draft.requests.deep_view().len() == draft.requests.len());
    check_expansions(expansions)?;
    if let Some(message) = draft.failure {
        return Err(message);
    }
    let common_tensors = place_common(&draft, expansions);
    let layout_groups = place_groups(&draft, expansions);
    Ok(
        SafetensorsCheckpointPlan {
            name: "Gemma 4 SafeTensors".to_owned(),
            common_tensors,
            layout_groups,
            catalog_policy: CatalogPolicy {
                strict: true,
                allowed_prefixes: catalog_prefixes(family),
            },
        },
    )
}

} // verus!
