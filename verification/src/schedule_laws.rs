//! What holds of every normalized layer schedule.

use crate::config::ModelArgs;
use crate::normalize::{Geometry, ModelArgsSource, RotaryChecks, last_with, normalized};
use crate::pipeline::{
    first_orphan, law_planning_is_complete, orphaned, pipeline_plan, provider, publisher_before,
};
use crate::schedule::{AttentionPolicy, LayerPolicy};
use vstd::prelude::*;

verus! {

pub(crate) proof fn lemma_last_with(attention: Seq<AttentionPolicy>, end: int, kind: AttentionPolicy)
    requires
        end >= 0,
    ensures
        last_with(attention, end, kind) matches Some(at) ==> {
            &&& 0 <= at < end
            &&& attention[at] == kind
            &&& forall|i: int| at < i < end ==> #[trigger] attention[i] != kind
        },
    decreases end,
{
    if end > 0 {
        lemma_last_with(attention, end - 1, kind);
    }
}

pub(crate) proof fn lemma_sharing(geometry: Geometry, end: int, layer: int)
    requires
        0 <= geometry.first_shared <= layer < end,
        geometry.first_sharing_fault(end) is None,
    ensures
        geometry.sharing_fault(layer) is None,
    decreases end,
{
    if layer < end - 1 {
        lemma_sharing(geometry, end - 1, layer);
    }
}

pub(crate) proof fn lemma_width(geometry: Geometry, end: int, layer: int)
    requires
        0 <= layer < end,
        geometry.first_width_fault(end) is None,
    ensures
        geometry.width_fault(layer) is None,
    decreases end,
{
    if layer < end - 1 {
        lemma_width(geometry, end - 1, layer);
    }
}

proof fn lemma_publisher_found(
    geometry: Geometry,
    end: int,
    kind: AttentionPolicy,
    publisher: int,
)
    requires
        geometry.complete(),
        geometry.shared_provider(kind) == Some(publisher),
        geometry.is_publisher(publisher),
        publisher < end <= geometry.attention.len(),
    ensures
        publisher_before(geometry.schedule(), end, kind) == Some(publisher),
    decreases end,
{
    lemma_last_with(geometry.attention, geometry.first_shared, kind);
    let schedule = geometry.schedule();
    if end - 1 > publisher {
        assert(schedule[end - 1] == geometry.policy_of(end - 1));
        if end - 1 < geometry.first_shared {
            assert(geometry.attention[end - 1] != kind);
        }
        lemma_publisher_found(geometry, end - 1, kind, publisher);
    } else {
        assert(schedule[publisher] == geometry.policy_of(publisher));
    }
}

/// Every layer of an accepted geometry that consumes shared state has an earlier publisher with
/// its attention policy, head width, and key/value head count.
pub proof fn law_shared_layers_have_publishers(geometry: Geometry, layer: int)
    requires
        geometry.complete(),
        geometry.fault() is None,
        0 <= layer < geometry.attention.len(),
        geometry.schedule()[layer].key_value is Shared,
    ensures
        provider(geometry.schedule(), layer) matches Some(publisher) && {
            let source = geometry.schedule()[publisher];
            let consumer = geometry.schedule()[layer];
            &&& 0 <= publisher < layer
            &&& source.key_value is Publish
            &&& source.attention == consumer.attention
            &&& source.head_dim == consumer.head_dim
            &&& source.num_key_value_heads == consumer.num_key_value_heads
        },
{
    assert(geometry.schedule()[layer] == geometry.policy_of(layer));
    assert(layer >= geometry.first_shared);
    let kind = geometry.attention[layer];
    lemma_sharing(geometry, geometry.attention.len() as int, layer);
    let publisher = geometry.shared_provider(kind)->0;
    lemma_last_with(geometry.attention, geometry.first_shared, kind);
    assert(geometry.attention[layer] == geometry.attention[publisher]);
    assert(geometry.is_publisher(publisher));
    lemma_publisher_found(geometry, layer, kind, publisher);
    assert(geometry.schedule()[publisher] == geometry.policy_of(publisher));
}

/// Every layer of an accepted geometry has positive widths and at least one rotary pair.
pub proof fn law_layers_are_well_formed(geometry: Geometry, layer: int)
    requires
        geometry.complete(),
        geometry.fault() is None,
        0 <= layer < geometry.attention.len(),
        geometry.attention[layer] matches AttentionPolicy::Sliding { window } ==> window > 0,
    ensures
        geometry.schedule()[layer].well_formed(),
{
    lemma_width(geometry, geometry.attention.len() as int, layer);
    assert(geometry.schedule()[layer] == geometry.policy_of(layer));
}

proof fn lemma_orphan_free(schedule: Seq<LayerPolicy>, layers: int)
    requires
        forall|layer: int| 0 <= layer < layers ==> !#[trigger] orphaned(schedule, layer),
    ensures
        first_orphan(schedule, layers) is None,
    decreases layers,
{
    if layers > 0 {
        lemma_orphan_free(schedule, layers - 1);
    }
}

/// A normalized configuration has well-formed layers, and each layer that consumes shared state
/// has a publisher.
pub proof fn law_normalized_schedule(source: ModelArgsSource, checks: RotaryChecks)
    requires
        source.fault(checks) is None,
    ensures
        source.geometry().complete(),
        source.geometry().fault() is None,
        source.geometry().schedule().len() == source.num_hidden_layers,
        forall|layer: int|
            0 <= layer < source.num_hidden_layers ==> (
            #[trigger] source.geometry().schedule()[layer]).well_formed(),
        first_orphan(source.geometry().schedule(), source.num_hidden_layers as int) is None,
{
    let geometry = source.geometry();
    assert forall|layer: int| 0 <= layer < source.num_hidden_layers implies (
    #[trigger] geometry.schedule()[layer]).well_formed() by {
        if source.layer_types.len() != 0 && source.layer_types[layer] is SlidingAttention {
            assert(source.sliding_window is Some);
            let window = source.sliding_window->0;
            assert(0 < window <= i32::MAX);
            assert(window as u32 == window);
        }
        law_layers_are_well_formed(geometry, layer);
    }
    assert forall|layer: int| 0 <= layer < source.num_hidden_layers implies !#[trigger] orphaned(
        geometry.schedule(),
        layer,
    ) by {
        if geometry.schedule()[layer].key_value is Shared {
            law_shared_layers_have_publishers(geometry, layer);
        }
    }
    lemma_orphan_free(geometry.schedule(), source.num_hidden_layers as int);
}

/// The identity of a normalized configuration is `gemma4` or `gemma4_unified`.
pub proof fn law_normalized_identity(
    args: ModelArgs,
    source: ModelArgsSource,
    checks: RotaryChecks,
)
    requires
        source.fault(checks) is None,
        normalized(args, source),
    ensures
        args.model_type@ == "gemma4"@ || args.model_type@ == "gemma4_unified"@,
{
}

/// A normalized configuration always fits on one pipeline stage.
pub proof fn law_one_stage_always_fits(source: ModelArgsSource, checks: RotaryChecks)
    requires
        source.fault(checks) is None,
    ensures
        pipeline_plan(source.geometry().schedule(), 1) is Ok,
{
    law_normalized_schedule(source, checks);
    law_planning_is_complete(
        source.geometry().schedule(),
        1,
        seq![0int, source.num_hidden_layers as int],
    );
}

} // verus!
