//! Typed component and mutable-state graphs for Gemma 4.

use crate::config::ModelArgs;
use crate::schedule::{AttentionPolicy, AttentionStateSource, LayerPolicy};
use crate::text::{decimal, decimal_text, lemma_numeral_unique, push_item};
use vstd::prelude::*;

verus! {

/// Optional component topology surrounding the text decoder.
#[derive(Debug, Clone, Copy, PartialEq, Eq, Structural)]
pub struct ComponentOptions {
    /// Include a vision tower and projector.
    pub vision: bool,
    /// Include an audio tower and projector.
    pub audio: bool,
    /// Include embedded multi-token prediction.
    pub prediction: bool,
    /// Include an external assistant output.
    pub assistant: bool,
}

impl Default for ComponentOptions {
    fn default() -> (r: ComponentOptions)
        ensures
            !r.vision && !r.audio && !r.prediction && !r.assistant,
    {
        ComponentOptions { vision: false, audio: false, prediction: false, assistant: false }
    }
}

/// What a component computes.
#[derive(Debug, Clone, Copy, PartialEq, Eq, Structural)]
pub enum ComponentKind {
    /// Token embedding.
    StaticText,
    /// Vision tower.
    Vision,
    /// Audio tower.
    Audio,
    /// Assembly of text and media states.
    Assembly,
    /// One decoder layer.
    Decoder,
    /// Output projection.
    OutputProjection,
    /// Embedded multi-token prediction.
    Prediction,
    /// External assistant.
    Assistant,
}

/// Values that components exchange.
#[derive(Debug, Clone, Copy, PartialEq, Eq, Structural)]
pub enum ComponentDomain {
    /// Token identities.
    TokenIds,
    /// Image patches.
    PatchMatrix,
    /// Audio features.
    AudioFeatures,
    /// Decoder-width states.
    HiddenStates,
    /// Output scores.
    Logits,
}

/// Residency class under which a component's weights are accounted.
#[derive(Debug, Clone, Copy, PartialEq, Eq, Structural)]
pub enum ComponentResidencyClass {
    /// Always resident.
    Static,
    /// Resident for media inputs.
    Media,
    /// Decoder layer.
    Decoder,
    /// Draft model.
    Draft,
}

/// One component.
#[derive(Debug, Clone)]
pub struct ComponentSpec {
    /// Identity.
    pub id: String,
    /// What it computes.
    pub kind: ComponentKind,
    /// Inputs from outside the graph.
    pub external_inputs: Vec<ComponentDomain>,
    /// Components it depends on.
    pub dependencies: Vec<String>,
    /// Values it takes from them.
    pub dependency_inputs: Vec<ComponentDomain>,
    /// Value it gives.
    pub output: ComponentDomain,
    /// Residency class.
    pub residency: ComponentResidencyClass,
}

/// What a component says.
#[verifier::ext_equal]
pub struct Component {
    pub id: Seq<char>,
    pub kind: ComponentKind,
    pub external_inputs: Seq<ComponentDomain>,
    pub dependencies: Seq<Seq<char>>,
    pub dependency_inputs: Seq<ComponentDomain>,
    pub output: ComponentDomain,
    pub residency: ComponentResidencyClass,
}

impl DeepView for ComponentSpec {
    type V = Component;

    open spec fn deep_view(&self) -> Component {
        Component {
            id: self.id@,
            kind: self.kind,
            external_inputs: self.external_inputs@,
            dependencies: self.dependencies.deep_view(),
            dependency_inputs: self.dependency_inputs@,
            output: self.output,
            residency: self.residency,
        }
    }
}

/// Components in dependency order, and those whose output leaves the graph.
#[derive(Debug, Clone)]
pub struct ComponentGraph {
    /// Components.
    pub units: Vec<ComponentSpec>,
    /// Output components.
    pub outputs: Vec<String>,
}

/// A component fed from outside the graph.
pub open spec fn source(
    id: Seq<char>,
    kind: ComponentKind,
    input: ComponentDomain,
    residency: ComponentResidencyClass,
) -> Component {
    Component {
        id,
        kind,
        external_inputs: seq![input],
        dependencies: Seq::empty(),
        dependency_inputs: Seq::empty(),
        output: ComponentDomain::HiddenStates,
        residency,
    }
}

/// A component fed by the states of one other.
pub open spec fn stage(
    id: Seq<char>,
    kind: ComponentKind,
    external_inputs: Seq<ComponentDomain>,
    previous: Seq<char>,
    output: ComponentDomain,
    residency: ComponentResidencyClass,
) -> Component {
    Component {
        id,
        kind,
        external_inputs,
        dependencies: seq![previous],
        dependency_inputs: seq![ComponentDomain::HiddenStates],
        output,
        residency,
    }
}

/// Token embedding and media towers.
pub open spec fn input_components(options: ComponentOptions) -> Seq<Component> {
    let text = seq![
        source(
            "text.embedding"@,
            ComponentKind::StaticText,
            ComponentDomain::TokenIds,
            ComponentResidencyClass::Static,
        ),
    ];
    let seen = if options.vision {
        text.push(
            source(
                "vision"@,
                ComponentKind::Vision,
                ComponentDomain::PatchMatrix,
                ComponentResidencyClass::Media,
            ),
        )
    } else {
        text
    };
    if options.audio {
        seen.push(
            source(
                "audio"@,
                ComponentKind::Audio,
                ComponentDomain::AudioFeatures,
                ComponentResidencyClass::Media,
            ),
        )
    } else {
        seen
    }
}

/// Assembly of all inputs.
pub open spec fn assembly(options: ComponentOptions) -> Component {
    let inputs = input_components(options);
    Component {
        id: "assembly"@,
        kind: ComponentKind::Assembly,
        external_inputs: Seq::empty(),
        dependencies: Seq::new(inputs.len(), |i: int| inputs[i].id),
        dependency_inputs: Seq::new(inputs.len(), |i: int| ComponentDomain::HiddenStates),
        output: ComponentDomain::HiddenStates,
        residency: ComponentResidencyClass::Static,
    }
}

/// Identity of a decoder layer.
pub open spec fn decoder_id(layer: int) -> Seq<char> {
    "decoder."@ + decimal(layer as nat)
}

/// Identity of what precedes decoder layer `layer`.
pub open spec fn before_decoder(layer: int) -> Seq<char> {
    if layer <= 0 {
        "assembly"@
    } else {
        decoder_id(layer - 1)
    }
}

/// Decoder layer `layer`, fed by what precedes it.
pub open spec fn decoder(layer: int) -> Component {
    stage(
        decoder_id(layer),
        ComponentKind::Decoder,
        Seq::empty(),
        before_decoder(layer),
        ComponentDomain::HiddenStates,
        ComponentResidencyClass::Decoder,
    )
}

/// Inputs, assembly, and the first `layers` decoder layers.
pub open spec fn through_decoder(options: ComponentOptions, layers: nat) -> Seq<Component> {
    input_components(options).push(assembly(options)) + Seq::new(
        layers,
        |layer: int| decoder(layer),
    )
}

/// Components fed by the last decoder layer, whose scores leave the graph.
pub open spec fn output_components(options: ComponentOptions, layers: int) -> Seq<Component> {
    let last = before_decoder(layers);
    let output = seq![
        stage(
            "output"@,
            ComponentKind::OutputProjection,
            Seq::empty(),
            last,
            ComponentDomain::Logits,
            ComponentResidencyClass::Static,
        ),
    ];
    let predicted = if options.prediction {
        output.push(
            stage(
                "prediction"@,
                ComponentKind::Prediction,
                seq![ComponentDomain::TokenIds],
                last,
                ComponentDomain::Logits,
                ComponentResidencyClass::Draft,
            ),
        )
    } else {
        output
    };
    if options.assistant {
        predicted.push(
            stage(
                "assistant"@,
                ComponentKind::Assistant,
                seq![ComponentDomain::TokenIds],
                last,
                ComponentDomain::Logits,
                ComponentResidencyClass::Draft,
            ),
        )
    } else {
        predicted
    }
}

/// All components, in order.
pub open spec fn components(options: ComponentOptions, layers: nat) -> Seq<Component> {
    through_decoder(options, layers) + output_components(options, layers as int)
}

fn source_component(
    id: &str,
    kind: ComponentKind,
    input: ComponentDomain,
    residency: ComponentResidencyClass,
) -> (r: ComponentSpec)
    ensures
        r.deep_view() == source(id@, kind, input, residency),
{
    let r = ComponentSpec {
        id: id.to_owned(),
        kind,
        external_inputs: vec![input],
        dependencies: Vec::new(),
        dependency_inputs: Vec::new(),
        output: ComponentDomain::HiddenStates,
        residency,
    };
    assert(r.deep_view() =~= source(id@, kind, input, residency));
    r
}

fn stage_component(
    id: String,
    kind: ComponentKind,
    external_inputs: Vec<ComponentDomain>,
    previous: String,
    output: ComponentDomain,
    residency: ComponentResidencyClass,
) -> (r: ComponentSpec)
    ensures
        r.deep_view() == stage(id@, kind, external_inputs@, previous@, output, residency),
{
    let ghost expected = stage(id@, kind, external_inputs@, previous@, output, residency);
    let r = ComponentSpec {
        id,
        kind,
        external_inputs,
        dependencies: vec![previous],
        dependency_inputs: vec![ComponentDomain::HiddenStates],
        output,
        residency,
    };
    assert(r.deep_view() =~= expected);
    r
}

fn build_inputs(options: ComponentOptions) -> (r: Vec<ComponentSpec>)
    ensures
        r.deep_view() == input_components(options),
{
    let mut units: Vec<ComponentSpec> = Vec::new();
    push_item(
        &mut units,
        source_component(
            "text.embedding",
            ComponentKind::StaticText,
            ComponentDomain::TokenIds,
            ComponentResidencyClass::Static,
        ),
    );
    if options.vision {
        push_item(
            &mut units,
            source_component(
                "vision",
                ComponentKind::Vision,
                ComponentDomain::PatchMatrix,
                ComponentResidencyClass::Media,
            ),
        );
    }
    if options.audio {
        push_item(
            &mut units,
            source_component(
                "audio",
                ComponentKind::Audio,
                ComponentDomain::AudioFeatures,
                ComponentResidencyClass::Media,
            ),
        );
    }
    assert(units.deep_view() =~= input_components(options));
    units
}

fn build_assembly(options: ComponentOptions, inputs: &Vec<ComponentSpec>) -> (r: ComponentSpec)
    requires
        inputs.deep_view() == input_components(options),
    ensures
        r.deep_view() == assembly(options),
{
    let mut dependencies: Vec<String> = Vec::new();
    let mut dependency_inputs: Vec<ComponentDomain> = Vec::new();
    let mut at: usize = 0;
    while at < inputs.len()
        invariant
            at <= inputs.len(),
            inputs.deep_view() == input_components(options),
            inputs.len() == input_components(options).len(),
            dependencies.deep_view() == assembly(options).dependencies.take(at as int),
            dependency_inputs@ == assembly(options).dependency_inputs.take(at as int),
        decreases inputs.len() - at,
    {
        assert(input_components(options)[at as int] == inputs[at as int].deep_view());
        push_item(&mut dependencies, inputs[at].id.clone());
        dependency_inputs.push(ComponentDomain::HiddenStates);
        assert(dependencies.deep_view() =~= assembly(options).dependencies.take(at as int + 1));
        assert(dependency_inputs@ =~= assembly(options).dependency_inputs.take(at as int + 1));
        at = at + 1;
    }
    let r = ComponentSpec {
        id: "assembly".to_owned(),
        kind: ComponentKind::Assembly,
        external_inputs: Vec::new(),
        dependencies,
        dependency_inputs,
        output: ComponentDomain::HiddenStates,
        residency: ComponentResidencyClass::Static,
    };
    assert(r.deep_view() =~= assembly(options));
    r
}

fn decoder_name(layer: usize) -> (r: String)
    ensures
        r@ == decoder_id(layer as int),
{
    "decoder.".to_owned().concat(decimal_text(layer as u64).as_str())
}

fn preceding(layer: usize) -> (r: String)
    ensures
        r@ == before_decoder(layer as int),
{
    if layer == 0 {
        "assembly".to_owned()
    } else {
        decoder_name(layer - 1)
    }
}

fn build_outputs(options: ComponentOptions, layers: usize) -> (r: Vec<ComponentSpec>)
    ensures
        r.deep_view() == output_components(options, layers as int),
{
    let mut units: Vec<ComponentSpec> = Vec::new();
    let none: Vec<ComponentDomain> = Vec::new();
    push_item(
        &mut units,
        stage_component(
            "output".to_owned(),
            ComponentKind::OutputProjection,
            none,
            preceding(layers),
            ComponentDomain::Logits,
            ComponentResidencyClass::Static,
        ),
    );
    if options.prediction {
        let tokens = vec![ComponentDomain::TokenIds];
        assert(tokens@ =~= seq![ComponentDomain::TokenIds]);
        push_item(
            &mut units,
            stage_component(
                "prediction".to_owned(),
                ComponentKind::Prediction,
                tokens,
                preceding(layers),
                ComponentDomain::Logits,
                ComponentResidencyClass::Draft,
            ),
        );
    }
    if options.assistant {
        let tokens = vec![ComponentDomain::TokenIds];
        assert(tokens@ =~= seq![ComponentDomain::TokenIds]);
        push_item(
            &mut units,
            stage_component(
                "assistant".to_owned(),
                ComponentKind::Assistant,
                tokens,
                preceding(layers),
                ComponentDomain::Logits,
                ComponentResidencyClass::Draft,
            ),
        );
    }
    assert(units.deep_view() =~= output_components(options, layers as int));
    units
}

/// Whether `graph` is the component graph of a decoder of `layers` layers.
pub open spec fn is_graph(graph: ComponentGraph, options: ComponentOptions, layers: nat) -> bool {
    &&& graph.units.deep_view() == components(options, layers)
    &&& graph.outputs.deep_view() == Seq::new(
        output_components(options, layers as int).len(),
        |i: int| output_components(options, layers as int)[i].id,
    )
}

/// Builds the architecture's storage-independent component graph.
pub fn component_graph(args: &ModelArgs, options: ComponentOptions) -> (r: ComponentGraph)
    ensures
        is_graph(r, options, args.layer_schedule.len() as nat),
{
    let layers: usize = args.num_hidden_layers();
    let mut units: Vec<ComponentSpec> = build_inputs(options);
    let joined = build_assembly(options, &units);
    push_item(&mut units, joined);
    assert(units.deep_view() =~= through_decoder(options, 0));
    let mut layer: usize = 0;
    while layer < layers
        invariant
            layer <= layers,
            units.deep_view() == through_decoder(options, layer as nat),
        decreases layers - layer,
    {
        let none: Vec<ComponentDomain> = Vec::new();
        push_item(
            &mut units,
            stage_component(
                decoder_name(layer),
                ComponentKind::Decoder,
                none,
                preceding(layer),
                ComponentDomain::HiddenStates,
                ComponentResidencyClass::Decoder,
            ),
        );
        assert(units.deep_view() =~= through_decoder(options, layer as nat + 1));
        layer = layer + 1;
    }
    let mut last: Vec<ComponentSpec> = build_outputs(options, layers);
    let ghost scored = output_components(options, layers as int);
    let ghost names = Seq::new(scored.len(), |i: int| scored[i].id);
    let mut outputs: Vec<String> = Vec::new();
    let mut at: usize = 0;
    assert(outputs.deep_view() =~= names.take(0));
    while at < last.len()
        invariant
            at <= last.len(),
            last.deep_view() == scored,
            names == Seq::new(scored.len(), |i: int| scored[i].id),
            outputs.deep_view() == names.take(at as int),
        decreases last.len() - at,
    {
        assert(scored[at as int] == last[at as int].deep_view());
        push_item(&mut outputs, last[at].id.clone());
        assert(outputs.deep_view() =~= names.take(at as int + 1));
        at = at + 1;
    }
    assert(names.take(names.len() as int) =~= names);
    assert(last.deep_view().len() == last.len());
    let ghost decoded = units.deep_view();
    units.append(&mut last);
    assert(units.deep_view() =~= decoded + scored);
    ComponentGraph { units, outputs }
}

/// What a state tensor is for.
#[derive(Debug, Clone, Copy, PartialEq, Eq, Structural)]
pub enum StateTensorRole {
    /// Embedding of prefix tokens.
    PrefixEmbedding,
}

/// One axis of a state tensor.
#[derive(Debug, Clone, Copy, PartialEq, Eq, Structural)]
pub enum StateTensorDimension {
    /// Sequences in the batch.
    Batch,
    /// Tokens of the prefix.
    PrefixTokens,
    /// A fixed width.
    Fixed(i32),
}

/// Stored type of a state tensor.
#[derive(Debug, Clone, Copy, PartialEq, Eq, Structural)]
pub enum StateTensorDtype {
    /// Any floating-point type.
    Floating,
}

/// Where mutable state stays.
#[derive(Debug, Clone, Copy, PartialEq, Eq, Structural)]
pub enum MutableStateResidency {
    /// On the device, mutable.
    AlwaysDeviceMutable,
}

/// A state tensor beside keys and values.
#[derive(Debug, Clone)]
pub struct StateTensorPolicy {
    /// What it is for.
    pub role: StateTensorRole,
    /// Its axes.
    pub dimensions: Vec<StateTensorDimension>,
    /// Stored type.
    pub dtype: StateTensorDtype,
    /// Where it stays.
    pub residency: MutableStateResidency,
    /// Whether it must be there.
    pub required: bool,
}

/// Mutable state of one layer.
#[derive(Debug, Clone, Copy, PartialEq, Eq, Structural)]
pub enum LayerCachePolicy {
    /// The layer keeps none.
    NoState,
    /// Keys and values.
    KeyValue {
        /// Attention policy.
        attention: AttentionPolicy,
        /// Key/value head count.
        kv_heads: i32,
        /// Head width.
        head_dim: i32,
    },
    /// Keys and values beside the prefix embedding.
    KeyValueWithFixedState {
        /// Attention policy.
        attention: AttentionPolicy,
        /// Key/value head count.
        kv_heads: i32,
        /// Head width.
        head_dim: i32,
    },
}

/// Mutable state of every layer, and the prefix embedding that the first one keeps.
#[derive(Debug, Clone)]
pub struct StateLayout {
    /// Prefix embedding.
    pub prefix: StateTensorPolicy,
    /// State by layer.
    pub layers: Vec<LayerCachePolicy>,
}

/// State of layer `layer`. Keys and values are both stored even where the value projection
/// reuses that of the keys: the cached keys are normalized and rotated, the values are not.
pub open spec fn layer_state(schedule: Seq<LayerPolicy>, layer: int) -> LayerCachePolicy {
    let policy = schedule[layer];
    let kv_heads = policy.num_key_value_heads as i32;
    let head_dim = policy.head_dim as i32;
    if policy.key_value is Shared {
        LayerCachePolicy::NoState
    } else if layer == 0 {
        LayerCachePolicy::KeyValueWithFixedState {
            attention: policy.attention,
            kv_heads,
            head_dim,
        }
    } else {
        LayerCachePolicy::KeyValue { attention: policy.attention, kv_heads, head_dim }
    }
}

/// State of every layer.
pub open spec fn layer_states(schedule: Seq<LayerPolicy>) -> Seq<LayerCachePolicy> {
    Seq::new(schedule.len(), |layer: int| layer_state(schedule, layer))
}

/// Whether `layout` is the state layout of `args`.
pub open spec fn is_state_layout(layout: StateLayout, args: ModelArgs) -> bool {
    &&& layout.prefix.role is PrefixEmbedding
    &&& layout.prefix.dimensions@ == seq![
        StateTensorDimension::Batch,
        StateTensorDimension::PrefixTokens,
        StateTensorDimension::Fixed(args.hidden_size),
    ]
    &&& layout.prefix.dtype is Floating
    &&& layout.prefix.residency is AlwaysDeviceMutable
    &&& !layout.prefix.required
    &&& layout.layers@ == layer_states(args.layer_schedule@)
}

/// Builds append-only, shared, and prefix state geometry from the same layer schedule used by
/// execution.
pub fn state_layout(args: &ModelArgs) -> (r: StateLayout)
    ensures
        is_state_layout(r, *args),
{
    let dimensions = vec![
        StateTensorDimension::Batch,
        StateTensorDimension::PrefixTokens,
        StateTensorDimension::Fixed(args.hidden_size),
    ];
    assert(dimensions@ =~= seq![
        StateTensorDimension::Batch,
        StateTensorDimension::PrefixTokens,
        StateTensorDimension::Fixed(args.hidden_size),
    ]);
    let mut layers: Vec<LayerCachePolicy> = Vec::new();
    let mut layer: usize = 0;
    while layer < args.layer_schedule.len()
        invariant
            layer <= args.layer_schedule.len(),
            layers@ == layer_states(args.layer_schedule@).take(layer as int),
        decreases args.layer_schedule.len() - layer,
    {
        let policy: LayerPolicy = args.layer_schedule[layer];
        let attention: AttentionPolicy = policy.attention;
        let kv_heads: i32 = policy.num_key_value_heads as i32;
        let head_dim: i32 = policy.head_dim as i32;
        let state: LayerCachePolicy = match policy.key_value {
            AttentionStateSource::Shared => LayerCachePolicy::NoState,
            _ => if layer == 0 {
                LayerCachePolicy::KeyValueWithFixedState { attention, kv_heads, head_dim }
            } else {
                LayerCachePolicy::KeyValue { attention, kv_heads, head_dim }
            },
        };
        layers.push(state);
        assert(layers@ =~= layer_states(args.layer_schedule@).take(layer as int + 1));
        layer = layer + 1;
    }
    assert(layers@ =~= layer_states(args.layer_schedule@));
    StateLayout {
        prefix: StateTensorPolicy {
            role: StateTensorRole::PrefixEmbedding,
            dimensions,
            dtype: StateTensorDtype::Floating,
            residency: MutableStateResidency::AlwaysDeviceMutable,
            required: false,
        },
        layers,
    }
}

/// Whether `id` names one of the first `end` components.
pub open spec fn named_before(units: Seq<Component>, id: Seq<char>, end: int) -> bool {
    exists|i: int| 0 <= i < end && #[trigger] units[i].id == id
}

/// Every component depends on earlier components alone, and takes one value from each.
pub proof fn law_components_follow_their_dependencies(
    options: ComponentOptions,
    layers: nat,
    unit: int,
    dependency: int,
)
    requires
        0 <= unit < components(options, layers).len(),
        0 <= dependency < components(options, layers)[unit].dependencies.len(),
    ensures
        named_before(
            components(options, layers),
            components(options, layers)[unit].dependencies[dependency],
            unit,
        ),
        components(options, layers)[unit].dependency_inputs.len() == components(
            options,
            layers,
        )[unit].dependencies.len(),
{
    let all = components(options, layers);
    let inputs = input_components(options);
    let first = inputs.len() as int + 1;
    if unit == inputs.len() {
        assert(all[unit] == assembly(options));
        assert(all[dependency] == inputs[dependency]);
        assert(all[dependency].id == all[unit].dependencies[dependency]);
    } else if unit > inputs.len() {
        assert(all[first - 1] == assembly(options));
        if unit < first + layers {
            let layer = unit - first;
            assert(all[unit] == decoder(layer));
            if layer > 0 {
                assert(all[unit - 1] == decoder(layer - 1));
                assert(all[unit - 1].id == all[unit].dependencies[dependency]);
            } else {
                assert(all[unit - 1].id == all[unit].dependencies[dependency]);
            }
        } else {
            assert(all[unit] == output_components(options, layers as int)[unit - first - layers]);
            if layers > 0 {
                assert(all[first + layers - 1] == decoder(layers - 1));
            }
            assert(all[first + layers - 1].id == all[unit].dependencies[dependency]);
        }
    }
}

/// Number of components of a residency class among the first `end`.
pub open spec fn class_count(
    units: Seq<Component>,
    class: ComponentResidencyClass,
    end: int,
) -> nat
    decreases end,
{
    if end <= 0 {
        0
    } else {
        class_count(units, class, end - 1) + if units[end - 1].residency == class {
            1nat
        } else {
            0nat
        }
    }
}

/// Media towers, decoder layers, and draft heads are accounted separately.
pub proof fn law_residency_classes_are_separate(options: ComponentOptions, layers: nat)
    ensures
        ({
            let units = components(options, layers);
            let end = units.len() as int;
            let media = if options.vision { 1int } else { 0int } + if options.audio { 1int } else {
                0int
            };
            let draft = if options.prediction { 1int } else { 0int } + if options.assistant {
                1int
            } else {
                0int
            };
            &&& class_count(units, ComponentResidencyClass::Media, end) == media
            &&& class_count(units, ComponentResidencyClass::Decoder, end) == layers
            &&& class_count(units, ComponentResidencyClass::Draft, end) == draft
            &&& class_count(units, ComponentResidencyClass::Static, end) == 3
        }),
{
    let inputs = input_components(options);
    let joined = seq![assembly(options)];
    let decoders = Seq::new(layers, |layer: int| decoder(layer));
    let outputs = output_components(options, layers as int);
    assert(inputs.push(assembly(options)) =~= inputs + joined);
    assert forall|class: ComponentResidencyClass| #[trigger]
        class_count(
            components(options, layers),
            class,
            components(options, layers).len() as int,
        ) == class_count(inputs, class, inputs.len() as int) + class_count(joined, class, 1)
            + class_count(decoders, class, layers as int) + class_count(
            outputs,
            class,
            outputs.len() as int,
        ) by {
        lemma_count_append(inputs, joined, class, 1);
        lemma_count_append(inputs + joined, decoders, class, layers as int);
        lemma_count_append(
            inputs + joined + decoders,
            outputs,
            class,
            outputs.len() as int,
        );
    }
    lemma_decoder_count(decoders, layers as int);
    reveal_with_fuel(class_count, 4);
}

proof fn lemma_count_append(
    left: Seq<Component>,
    right: Seq<Component>,
    class: ComponentResidencyClass,
    end: int,
)
    requires
        0 <= end <= right.len(),
    ensures
        class_count(left + right, class, left.len() + end) == class_count(
            left,
            class,
            left.len() as int,
        ) + class_count(right, class, end),
    decreases end,
{
    if end > 0 {
        lemma_count_append(left, right, class, end - 1);
        assert((left + right)[left.len() + end - 1] == right[end - 1]);
    } else {
        lemma_count_prefix(left, right, class, left.len() as int);
    }
}

proof fn lemma_count_prefix(
    left: Seq<Component>,
    right: Seq<Component>,
    class: ComponentResidencyClass,
    end: int,
)
    requires
        0 <= end <= left.len(),
    ensures
        class_count(left + right, class, end) == class_count(left, class, end),
    decreases end,
{
    if end > 0 {
        lemma_count_prefix(left, right, class, end - 1);
        assert((left + right)[end - 1] == left[end - 1]);
    }
}

proof fn lemma_decoder_count(decoders: Seq<Component>, end: int)
    requires
        0 <= end <= decoders.len(),
        forall|layer: int| 0 <= layer < decoders.len() ==> #[trigger] decoders[layer] == decoder(layer),
    ensures
        class_count(decoders, ComponentResidencyClass::Decoder, end) == end,
        class_count(decoders, ComponentResidencyClass::Media, end) == 0,
        class_count(decoders, ComponentResidencyClass::Draft, end) == 0,
        class_count(decoders, ComponentResidencyClass::Static, end) == 0,
    decreases end,
{
    if end > 0 {
        lemma_decoder_count(decoders, end - 1);
        assert(decoders[end - 1] == decoder(end - 1));
    }
}

/// A layer keeps state exactly where it does not consume shared state.
pub proof fn law_shared_layers_keep_no_state(schedule: Seq<LayerPolicy>, layer: int)
    requires
        0 <= layer < schedule.len(),
    ensures
        layer_states(schedule)[layer] is NoState <==> schedule[layer].key_value is Shared,
{
}

/// Place of a kind of component in the graph.
spec fn place(kind: ComponentKind) -> int {
    match kind {
        ComponentKind::StaticText => 0,
        ComponentKind::Vision => 1,
        ComponentKind::Audio => 2,
        ComponentKind::Assembly => 3,
        ComponentKind::Decoder => 4,
        ComponentKind::OutputProjection => 5,
        ComponentKind::Prediction => 6,
        ComponentKind::Assistant => 7,
    }
}

/// Identity of every component but decoder layers.
spec fn fixed_id(kind: ComponentKind) -> Seq<char> {
    match kind {
        ComponentKind::StaticText => "text.embedding"@,
        ComponentKind::Vision => "vision"@,
        ComponentKind::Audio => "audio"@,
        ComponentKind::Assembly => "assembly"@,
        ComponentKind::Decoder => "decoder."@,
        ComponentKind::OutputProjection => "output"@,
        ComponentKind::Prediction => "prediction"@,
        ComponentKind::Assistant => "assistant"@,
    }
}

proof fn lemma_places(options: ComponentOptions, layers: nat, left: int, right: int)
    requires
        0 <= left < right < components(options, layers).len(),
    ensures
        ({
            let before = components(options, layers)[left];
            let after = components(options, layers)[right];
            let first = input_components(options).len() + 1;
            &&& before.kind !is Decoder ==> before.id == fixed_id(before.kind)
            &&& after.kind !is Decoder ==> after.id == fixed_id(after.kind)
            &&& before.kind is Decoder ==> before.id == decoder_id(left - first) && left >= first
            &&& after.kind is Decoder ==> after.id == decoder_id(right - first) && right >= first
            &&& before.kind is Decoder && after.kind is Decoder || place(before.kind) < place(
                after.kind,
            )
        }),
{
}

/// No two components share an identity.
pub proof fn law_components_have_their_own_identity(
    options: ComponentOptions,
    layers: nat,
    left: int,
    right: int,
)
    requires
        0 <= left < right < components(options, layers).len(),
    ensures
        components(options, layers)[left].id != components(options, layers)[right].id,
{
    reveal_strlit("text.embedding");
    reveal_strlit("vision");
    reveal_strlit("audio");
    reveal_strlit("assembly");
    reveal_strlit("decoder.");
    reveal_strlit("output");
    reveal_strlit("prediction");
    reveal_strlit("assistant");
    lemma_places(options, layers, left, right);
    let before = components(options, layers)[left];
    let after = components(options, layers)[right];
    if before.kind is Decoder && after.kind is Decoder {
        let first = input_components(options).len() + 1;
        let i = (left - first) as nat;
        let j = (right - first) as nat;
        if before.id == after.id {
            assert(decimal(i) =~= before.id.subrange(8, before.id.len() as int));
            assert(decimal(j) =~= after.id.subrange(8, after.id.len() as int));
            lemma_numeral_unique(i, j);
        }
    } else {
        assert(before.id[0] == fixed_id(before.kind)[0]);
        assert(after.id[0] == fixed_id(after.kind)[0]);
        assert("audio"@.len() != "assembly"@.len());
        assert("audio"@.len() != "assistant"@.len());
        assert("assembly"@.len() != "assistant"@.len());
        assert(before.id != after.id);
    }
}

} // verus!
