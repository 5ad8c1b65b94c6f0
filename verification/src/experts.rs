//! Derived expert weights and their residency schedule.

use crate::config::ModelArgs;
use crate::errors::{Fault, fault_if, first_of, says};
use crate::family::FamilyConfig;
use crate::names::NameSet;
use crate::safetensors_text::{released_layer, released_layer_path};
use crate::schedule::FeedForwardPolicy;
use crate::text::{decimal, decimal_text, push_item};
use vstd::prelude::*;

verus! {

/// Execution group that owns decoder layers.
pub open spec fn text_execution_group() -> Seq<char> {
    "text_decoder"@
}

/// Names under which an expert bank may be stored, and those it is bound to.
#[derive(Debug, Clone)]
pub struct GatedProductExpertLayoutNames {
    /// Bound gate and up projection.
    pub target_gate_up: String,
    /// Bound down projection.
    pub target_down: String,
    /// Stored fused gate and up projection.
    pub packed_gate_up: String,
    /// Stored down projection beside the fused one.
    pub packed_down: String,
    /// Stored separate gate projection.
    pub separate_gate: String,
    /// Stored separate up projection.
    pub separate_up: String,
    /// Stored down projection beside the separate ones.
    pub separate_down: String,
    /// Banks stored expert by expert; Gemma 4 has none.
    pub independent: Vec<String>,
}

/// Root of a layer's expert bank.
pub open spec fn bank_root(layer: int) -> Seq<char> {
    released_layer(layer) + ".experts.switch_glu"@
}

/// Stored name of a bank tensor: the bare name where the checkpoint has it.
pub open spec fn stored_name(present: Set<Seq<char>>, base: Seq<char>) -> Seq<char> {
    if present.contains(base) {
        base
    } else {
        base + ".weight"@
    }
}

/// Whether `names` are those of layer `layer` in a checkpoint that holds `present`.
pub open spec fn are_bank_names(
    names: GatedProductExpertLayoutNames,
    present: Set<Seq<char>>,
    layer: int,
) -> bool {
    let gate_up = bank_root(layer) + ".gate_up_proj"@;
    let gate = bank_root(layer) + ".gate_proj"@;
    let up = bank_root(layer) + ".up_proj"@;
    let down = bank_root(layer) + ".down_proj"@;
    &&& names.target_gate_up@ == gate_up
    &&& names.target_down@ == down
    &&& names.packed_gate_up@ == stored_name(present, gate_up)
    &&& names.packed_down@ == stored_name(present, down)
    &&& names.separate_gate@ == stored_name(present, gate)
    &&& names.separate_up@ == stored_name(present, up)
    &&& names.separate_down@ == stored_name(present, down)
    &&& names.independent.len() == 0
}

/// Whether layer `layer` routes to sparse experts.
pub open spec fn is_sparse(args: ModelArgs, layer: int) -> bool {
    args.layer_schedule[layer].feed_forward is DenseWithSparseMoe
}

/// Fault of asking for the expert bank of layer `layer`.
pub open spec fn bank_fault(args: ModelArgs, layer: int) -> Option<Fault> {
    first_of(
        fault_if(
            layer >= args.layer_schedule.len(),
            "Gemma 4 expert recipe layer "@ + decimal(layer as nat) + " is out of range"@,
        ),
        fault_if(
            !is_sparse(args, layer),
            "Gemma 4 layer "@ + decimal(layer as nat) + " has no routed experts"@,
        ),
    )
}

fn pick_stored(present: &NameSet, base: &String) -> (r: String)
    ensures
        r@ == stored_name(present@, base@),
{
    if present.contains(base.as_str()) {
        base.clone()
    } else {
        base.clone().concat(".weight")
    }
}

/// Resolves the released separate gate/up or already-fused sparse bank into the canonical
/// neutral expert slots used by the ordinary Gemma block. `present` are the tensors that the
/// checkpoint holds.
pub fn expert_recipes(present: &NameSet, args: &ModelArgs, layer: usize) -> (r: Result<
    GatedProductExpertLayoutNames,
    String,
>)
    ensures
        match bank_fault(*args, layer as int) {
            Some(fault) => says(r, fault),
            None => r matches Ok(names) && are_bank_names(names, present@, layer as int),
        },
{
    match args.layer_policy(layer) {
        None => {
            return Err(
                "Gemma 4 expert recipe layer ".to_owned().concat(
                    decimal_text(layer as u64).as_str(),
                ).concat(" is out of range"),
            );
        },
        Some(policy) => match policy.feed_forward {
            FeedForwardPolicy::DenseWithSparseMoe => {},
            FeedForwardPolicy::Dense => {
                return Err(
                    "Gemma 4 layer ".to_owned().concat(
                        decimal_text(layer as u64).as_str(),
                    ).concat(" has no routed experts"),
                );
            },
        },
    }
    let root: String = released_layer_path(layer).concat(".experts.switch_glu");
    let gate_up: String = root.clone().concat(".gate_up_proj");
    let gate: String = root.clone().concat(".gate_proj");
    let up: String = root.clone().concat(".up_proj");
    let down: String = root.concat(".down_proj");
    Ok(
        GatedProductExpertLayoutNames {
            packed_gate_up: pick_stored(present, &gate_up),
            packed_down: pick_stored(present, &down),
            separate_gate: pick_stored(present, &gate),
            separate_up: pick_stored(present, &up),
            separate_down: pick_stored(present, &down),
            target_gate_up: gate_up,
            target_down: down,
            independent: Vec::new(),
        },
    )
}

/// Depth of the vision tower.
pub open spec fn vision_depth(family: FamilyConfig) -> int {
    match family.vision {
        Some(vision) => vision.num_hidden_layers as int,
        None => 0,
    }
}

/// Depth of the audio tower.
pub open spec fn audio_depth(family: FamilyConfig) -> int {
    match family.audio {
        Some(audio) => audio.num_hidden_layers as int,
        None => 0,
    }
}

/// Ordinal of the first decoder layer: vision and audio units precede it.
pub open spec fn decoder_start(family: FamilyConfig) -> int {
    vision_depth(family) + audio_depth(family)
}

/// Fault of asking for the derived weights of an execution ordinal.
pub open spec fn ordinal_fault(family: FamilyConfig, ordinal: int) -> Option<Fault> {
    first_of(
        fault_if(vision_depth(family) < 0, "invalid Gemma 4 vision layer count"@),
        first_of(
            fault_if(audio_depth(family) < 0, "invalid Gemma 4 audio layer count"@),
            first_of(
                fault_if(
                    decoder_start(family) > usize::MAX,
                    "Gemma 4 media unit count overflowed"@,
                ),
                fault_if(
                    ordinal >= decoder_start(family) + family.text.layer_schedule.len(),
                    "Gemma 4 execution ordinal "@ + decimal(ordinal as nat)
                        + " is outside its architecture layout"@,
                ),
            ),
        ),
    )
}

/// Whether an execution ordinal has derived weights: those of a sparse decoder layer.
pub open spec fn derives_weights(family: FamilyConfig, ordinal: int) -> bool {
    ordinal >= decoder_start(family) && is_sparse(family.text, ordinal - decoder_start(family))
}

/// Returns the derived-weight bank for one canonical Gemma execution ordinal, if it has one.
///
/// The family graph places optional vision and audio units before the decoder. Recipe callers
/// pass the architecture-flat ordinal unchanged so this neutral catalog remains the sole owner
/// of that topology-to-decoder translation.
pub fn unit_recipes(present: &NameSet, family: &FamilyConfig, ordinal: usize) -> (r: Result<
    Option<GatedProductExpertLayoutNames>,
    String,
>)
    ensures
        match ordinal_fault(*family, ordinal as int) {
            Some(fault) => says(r, fault),
            None => if derives_weights(*family, ordinal as int) {
                r matches Ok(Some(names)) && are_bank_names(
                    names,
                    present@,
                    ordinal - decoder_start(*family),
                )
            } else {
                r matches Ok(None)
            },
        },
{
    let vision: i32 = match &family.vision {
        Some(vision) => vision.num_hidden_layers,
        None => 0,
    };
    if vision < 0 {
        return Err("invalid Gemma 4 vision layer count".to_owned());
    }
    let audio: i32 = match &family.audio {
        Some(audio) => audio.num_hidden_layers,
        None => 0,
    };
    if audio < 0 {
        return Err("invalid Gemma 4 audio layer count".to_owned());
    }
    let start: usize = match (vision as usize).checked_add(audio as usize) {
        Some(start) => start,
        None => {
            return Err("Gemma 4 media unit count overflowed".to_owned());
        },
    };
    if ordinal < start {
        return Ok(None);
    }
    let layer: usize = ordinal - start;
    if layer >= family.text.num_hidden_layers() {
        return Err(
            "Gemma 4 execution ordinal ".to_owned().concat(
                decimal_text(ordinal as u64).as_str(),
            ).concat(" is outside its architecture layout"),
        );
    }
    match family.text.layer_schedule[layer].feed_forward {
        FeedForwardPolicy::Dense => Ok(None),
        FeedForwardPolicy::DenseWithSparseMoe => Ok(
            Some(expert_recipes(present, &family.text, layer)?),
        ),
    }
}

/// Namespace of the parameter banks that hold routed experts.
pub const EXPERT_NAMESPACE: usize = 0;

/// How independently resident experts are spread over devices.
#[derive(Debug, Clone, Copy, PartialEq, Eq, Structural)]
pub enum ExpertResidencyDistribution {
    /// Each expert stays whole on one device.
    ExpertParallel,
}

/// Range of a bank along one axis.
#[derive(Debug, Clone, Copy, PartialEq, Eq, Structural)]
pub struct BankRange {
    /// Axis of the bank.
    pub axis: usize,
    /// First index of the range.
    pub start: usize,
    /// Index after the range.
    pub end: usize,
}

/// One bound projection of an independently resident expert.
#[derive(Debug, Clone)]
pub struct ExpertParameter {
    /// Name inside the bank.
    pub binding: String,
    /// Bound bank.
    pub target: String,
    /// The expert's part of the bank.
    pub selection: BankRange,
    /// Companion scales of a quantized projection.
    pub scales: String,
    /// Companion biases of a quantized projection.
    pub biases: String,
}

/// What a bound projection says.
pub struct ExpertSlot {
    pub binding: Seq<char>,
    pub target: Seq<char>,
    pub selection: BankRange,
    pub scales: Seq<char>,
    pub biases: Seq<char>,
}

impl DeepView for ExpertParameter {
    type V = ExpertSlot;

    open spec fn deep_view(&self) -> ExpertSlot {
        ExpertSlot {
            binding: self.binding@,
            target: self.target@,
            selection: self.selection,
            scales: self.scales@,
            biases: self.biases@,
        }
    }
}

/// One independently resident expert. Namespace, layer, and expert identify it.
#[derive(Debug, Clone)]
pub struct ExpertResidencyUnit {
    /// Namespace of the bank.
    pub namespace: usize,
    /// Decoder layer that owns the expert.
    pub layer: usize,
    /// Place in the layer's banks.
    pub expert: usize,
    /// Execution group of the owner.
    pub owner_group: String,
    /// Root of the owning layer.
    pub unit_path: String,
    /// How experts are spread over devices.
    pub distribution: ExpertResidencyDistribution,
    /// Bound projections.
    pub parameters: Vec<ExpertParameter>,
}

/// What a residency unit says.
#[verifier::ext_equal]
pub struct ResidentExpert {
    pub namespace: int,
    pub layer: int,
    pub expert: int,
    pub owner_group: Seq<char>,
    pub unit_path: Seq<char>,
    pub distribution: ExpertResidencyDistribution,
    pub parameters: Seq<ExpertSlot>,
}

impl DeepView for ExpertResidencyUnit {
    type V = ResidentExpert;

    open spec fn deep_view(&self) -> ResidentExpert {
        ResidentExpert {
            namespace: self.namespace as int,
            layer: self.layer as int,
            expert: self.expert as int,
            owner_group: self.owner_group@,
            unit_path: self.unit_path@,
            distribution: self.distribution,
            parameters: self.parameters.deep_view(),
        }
    }
}

/// Place of expert `expert` in its layer's banks: one index along the first axis.
pub open spec fn expert_range(expert: int) -> BankRange {
    BankRange { axis: 0, start: expert as usize, end: (expert + 1) as usize }
}

/// A bound projection of expert `expert` of layer `layer`, with the companions of its quantized
/// form.
pub open spec fn expert_slot(layer: int, expert: int, binding: Seq<char>) -> ExpertSlot {
    ExpertSlot {
        binding,
        target: bank_root(layer) + "."@ + binding,
        selection: expert_range(expert),
        scales: binding + "_scales"@,
        biases: binding + "_biases"@,
    }
}

/// Expert `expert` of layer `layer`.
pub open spec fn resident_expert(layer: int, expert: int) -> ResidentExpert {
    ResidentExpert {
        namespace: EXPERT_NAMESPACE as int,
        layer,
        expert,
        owner_group: text_execution_group(),
        unit_path: released_layer(layer),
        distribution: ExpertResidencyDistribution::ExpertParallel,
        parameters: seq![
            expert_slot(layer, expert, "gate_up_proj"@),
            expert_slot(layer, expert, "down_proj"@),
        ],
    }
}

/// The experts of layer `layer`.
pub open spec fn layer_experts(layer: int, experts: nat) -> Seq<ResidentExpert> {
    Seq::new(experts, |expert: int| resident_expert(layer, expert))
}

/// The experts of the sparse layers among the first `layers`, layer by layer.
pub open spec fn resident_experts(args: ModelArgs, layers: int) -> Seq<ResidentExpert>
    decreases layers,
{
    if layers <= 0 {
        Seq::empty()
    } else if is_sparse(args, layers - 1) {
        resident_experts(args, layers - 1) + layer_experts(
            layers - 1,
            args.num_experts->0 as nat,
        )
    } else {
        resident_experts(args, layers - 1)
    }
}

/// Fault of scheduling experts.
pub open spec fn residency_fault(args: ModelArgs) -> Option<Fault> {
    first_of(
        fault_if(
            args.num_experts is None,
            "Gemma 4 expert residency requires an expert count"@,
        ),
        fault_if(args.num_experts->0 <= 0, "Gemma 4 expert count must be positive"@),
    )
}

fn bind_parameter(root: &String, binding: &str, layer: usize, expert: usize) -> (r: ExpertParameter)
    requires
        root@ == bank_root(layer as int),
        expert < usize::MAX,
    ensures
        r.deep_view() == expert_slot(layer as int, expert as int, binding@),
{
    ExpertParameter {
        binding: binding.to_owned(),
        target: root.clone().concat(".").concat(binding),
        selection: BankRange { axis: 0, start: expert, end: expert + 1 },
        scales: binding.to_owned().concat("_scales"),
        biases: binding.to_owned().concat("_biases"),
    }
}

fn place_expert(layer: usize, expert: usize) -> (r: ExpertResidencyUnit)
    requires
        expert < usize::MAX,
    ensures
        r.deep_view() == resident_expert(layer as int, expert as int),
{
    let root: String = released_layer_path(layer).concat(".experts.switch_glu");
    let mut parameters: Vec<ExpertParameter> = Vec::new();
    push_item(&mut parameters, bind_parameter(&root, "gate_up_proj", layer, expert));
    push_item(&mut parameters, bind_parameter(&root, "down_proj", layer, expert));
    let r = ExpertResidencyUnit {
        namespace: EXPERT_NAMESPACE,
        layer,
        expert,
        owner_group: "text_decoder".to_owned(),
        unit_path: released_layer_path(layer),
        distribution: ExpertResidencyDistribution::ExpertParallel,
        parameters,
    };
    assert(r.deep_view() =~= resident_expert(layer as int, expert as int));
    r
}

fn place_layer(units: &mut Vec<ExpertResidencyUnit>, layer: usize, experts: usize)
    ensures
        final(units).deep_view() == old(units).deep_view() + layer_experts(
            layer as int,
            experts as nat,
        ),
{
    let ghost before = units.deep_view();
    let ghost all = layer_experts(layer as int, experts as nat);
    let mut expert: usize = 0;
    assert(units.deep_view() =~= before + all.take(0));
    while expert < experts
        invariant
            expert <= experts,
            all == layer_experts(layer as int, experts as nat),
            units.deep_view() == before + all.take(expert as int),
        decreases experts - expert,
    {
        push_item(units, place_expert(layer, expert));
        assert(units.deep_view() =~= before + all.take(expert as int + 1));
        expert = expert + 1;
    }
    assert(all.take(experts as int) =~= all);
}

/// Builds the complete architecture-owned schedule for independently resident experts.
pub fn expert_residency_catalog(args: &ModelArgs) -> (r: Result<Vec<ExpertResidencyUnit>, String>)
    ensures
        match residency_fault(*args) {
            Some(fault) => says(r, fault),
            None => r matches Ok(units) && units.deep_view() == resident_experts(
                *args,
                args.layer_schedule.len() as int,
            ),
        },
{
    let experts: i32 = match args.num_experts {
        Some(experts) => experts,
        None => {
            return Err("Gemma 4 expert residency requires an expert count".to_owned());
        },
    };
    if experts <= 0 {
        return Err("Gemma 4 expert count must be positive".to_owned());
    }
    let layers: usize = args.num_hidden_layers();
    let mut units: Vec<ExpertResidencyUnit> = Vec::new();
    assert(units.deep_view() =~= Seq::empty());
    let mut layer: usize = 0;
    while layer < layers
        invariant
            layer <= layers,
            layers == args.layer_schedule.len(),
            args.num_experts == Some(experts),
            experts > 0,
            units.deep_view() == resident_experts(*args, layer as int),
        decreases layers - layer,
    {
        match args.layer_schedule[layer].feed_forward {
            FeedForwardPolicy::DenseWithSparseMoe => {
                place_layer(&mut units, layer, experts as usize);
            },
            FeedForwardPolicy::Dense => {},
        }
        layer = layer + 1;
    }
    Ok(units)
}

/// Number of sparse layers among the first `layers`.
pub open spec fn sparse_layers(args: ModelArgs, layers: int) -> nat
    decreases layers,
{
    if layers <= 0 {
        0
    } else {
        sparse_layers(args, layers - 1) + if is_sparse(args, layers - 1) {
            1nat
        } else {
            0nat
        }
    }
}

/// The schedule holds every expert of every sparse layer once.
pub proof fn law_residency_covers_every_expert(args: ModelArgs, layers: int)
    requires
        residency_fault(args) is None,
        0 <= layers <= args.layer_schedule.len(),
    ensures
        resident_experts(args, layers).len() == sparse_layers(args, layers)
            * args.num_experts->0,
        forall|layer: int, expert: int|
            0 <= layer < layers && is_sparse(args, layer) && 0 <= expert < args.num_experts->0
                ==> resident_experts(args, layers).contains(
                #[trigger] resident_expert(layer, expert),
            ),
    decreases layers,
{
    if layers > 0 {
        law_residency_covers_every_expert(args, layers - 1);
        let earlier = resident_experts(args, layers - 1);
        let all = resident_experts(args, layers);
        let experts = args.num_experts->0 as int;
        if is_sparse(args, layers - 1) {
            assert((sparse_layers(args, layers - 1) + 1) * experts == sparse_layers(
                args,
                layers - 1,
            ) * experts + experts) by (nonlinear_arith);
        }
        assert forall|layer: int, expert: int|
            0 <= layer < layers && is_sparse(args, layer) && 0 <= expert
                < experts implies all.contains(#[trigger] resident_expert(layer, expert)) by {
            if layer == layers - 1 {
                assert(all[earlier.len() + expert] == resident_expert(layer, expert));
            } else {
                assert(earlier.contains(resident_expert(layer, expert)));
                let i = choose|i: int|
                    0 <= i < earlier.len() && earlier[i] == resident_expert(layer, expert);
                assert(all[i] == resident_expert(layer, expert));
            }
        }
    }
}

/// Units are ordered by layer, then by expert; no expert is scheduled twice.
pub proof fn law_residency_is_ordered(args: ModelArgs, layers: int, i: int, j: int)
    requires
        0 <= layers <= args.layer_schedule.len(),
        0 <= i < j < resident_experts(args, layers).len(),
    ensures
        ({
            let left = resident_experts(args, layers)[i];
            let right = resident_experts(args, layers)[j];
            &&& 0 <= left.layer <= right.layer < layers
            &&& left.layer == right.layer ==> left.expert < right.expert
        }),
    decreases layers,
{
    if layers > 0 {
        let earlier = resident_experts(args, layers - 1);
        if j < earlier.len() {
            law_residency_is_ordered(args, layers - 1, i, j);
        } else if i < earlier.len() {
            lemma_unit_layer(args, layers - 1, i);
        }
    }
}

proof fn lemma_unit_layer(args: ModelArgs, layers: int, i: int)
    requires
        0 <= layers <= args.layer_schedule.len(),
        0 <= i < resident_experts(args, layers).len(),
    ensures
        0 <= resident_experts(args, layers)[i].layer < layers,
    decreases layers,
{
    if layers > 0 && i < resident_experts(args, layers - 1).len() {
        lemma_unit_layer(args, layers - 1, i);
    }
}

} // verus!
