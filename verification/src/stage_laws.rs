//! What pipeline stages are to the layers they run.

use crate::pipeline::{
    admissible, at_edges, best_cut, chosen_cuts, first_orphan, heaviest, increasing, larger,
    law_planning_is_complete, law_stages_are_admissible, law_stages_are_balanced, least_load,
    lemma_best_cut, lemma_chosen, lemma_edge_indices, lemma_least, lemma_no_orphan,
    lemma_unit_edges, orphaned, parts, pipeline_plan, provider, publisher_before, ranges_between,
    splittable, stage_cuts, unit_edges,
};
use crate::schedule::{AttentionPolicy, AttentionStateSource, AttentionValueSource, LayerPolicy};
use core::ops::Range;
use vstd::prelude::*;

verus! {

/// Whether layer `publisher` is the last before `consumer` that publishes state of the
/// consumer's attention policy.
pub open spec fn serves(schedule: Seq<LayerPolicy>, publisher: int, consumer: int) -> bool {
    &&& 0 <= publisher < consumer
    &&& schedule[publisher].key_value is Publish
    &&& schedule[publisher].attention == schedule[consumer].attention
    &&& forall|layer: int|
        publisher < layer < consumer ==> !((#[trigger] schedule[layer]).key_value is Publish
            && schedule[layer].attention == schedule[consumer].attention)
}

/// Whether `cuts` divide the schedule into `stages` stages, none of them empty, such that every
/// consumer of shared state runs on the stage of the layer that serves it.
pub open spec fn divides(schedule: Seq<LayerPolicy>, cuts: Seq<int>, stages: int) -> bool {
    &&& cuts.len() == stages + 1
    &&& cuts[0] == 0
    &&& cuts[stages] == schedule.len()
    &&& forall|i: int, j: int| 0 <= i < j < cuts.len() ==> cuts[i] < cuts[j]
    &&& forall|stage: int, publisher: int, consumer: int|
        #![trigger cuts[stage], serves(schedule, publisher, consumer)]
        0 < stage < stages && consumer < schedule.len() && schedule[consumer].key_value is Shared
            && serves(schedule, publisher, consumer) ==> !(publisher < cuts[stage] <= consumer)
}

proof fn lemma_found(
    schedule: Seq<LayerPolicy>,
    layer: int,
    attention: AttentionPolicy,
    publisher: int,
)
    requires
        0 <= publisher < layer,
        schedule[publisher].key_value is Publish,
        schedule[publisher].attention == attention,
        forall|other: int|
            publisher < other < layer ==> !((#[trigger] schedule[other]).key_value is Publish
                && schedule[other].attention == attention),
    ensures
        publisher_before(schedule, layer, attention) == Some(publisher),
    decreases layer,
{
    if publisher < layer - 1 {
        lemma_found(schedule, layer - 1, attention, publisher);
    }
}

proof fn lemma_last(schedule: Seq<LayerPolicy>, layer: int, attention: AttentionPolicy)
    requires
        layer >= 0,
    ensures
        match publisher_before(schedule, layer, attention) {
            Some(publisher) => {
                &&& 0 <= publisher < layer
                &&& schedule[publisher].key_value is Publish
                &&& schedule[publisher].attention == attention
                &&& forall|other: int|
                    publisher < other < layer ==> !((#[trigger] schedule[other]).key_value
                        is Publish && schedule[other].attention == attention)
            },
            None => forall|other: int|
                0 <= other < layer ==> !((#[trigger] schedule[other]).key_value is Publish
                    && schedule[other].attention == attention),
        },
    decreases layer,
{
    if layer > 0 {
        lemma_last(schedule, layer - 1, attention);
    }
}

proof fn lemma_serves(schedule: Seq<LayerPolicy>, publisher: int, consumer: int)
    requires
        consumer >= 0,
    ensures
        serves(schedule, publisher, consumer) <==> provider(schedule, consumer) == Some(publisher),
{
    lemma_last(schedule, consumer, schedule[consumer].attention);
    if serves(schedule, publisher, consumer) {
        lemma_found(schedule, consumer, schedule[consumer].attention, publisher);
    }
}

proof fn lemma_divides(schedule: Seq<LayerPolicy>, cuts: Seq<int>, stages: int)
    requires
        stages >= 0,
    ensures
        divides(schedule, cuts, stages) <==> admissible(schedule, cuts, stages),
{
    if admissible(schedule, cuts, stages) {
        assert forall|stage: int, publisher: int, consumer: int|
            #![trigger cuts[stage], serves(schedule, publisher, consumer)]
            0 < stage < stages && consumer < schedule.len() && schedule[consumer].key_value
                is Shared && serves(schedule, publisher, consumer) implies !(publisher
            < cuts[stage] <= consumer) by {
            lemma_serves(schedule, publisher, consumer);
            assert(splittable(schedule, cuts[stage], schedule.len() as int));
            assert(!parts(schedule, cuts[stage], consumer));
        }
    }
    if divides(schedule, cuts, stages) {
        assert forall|i: int| 0 < i < stages implies splittable(
            schedule,
            #[trigger] cuts[i],
            schedule.len() as int,
        ) by {
            assert forall|consumer: int| 0 <= consumer < schedule.len() implies !#[trigger] parts(
                schedule,
                cuts[i],
                consumer,
            ) by {
                if parts(schedule, cuts[i], consumer) {
                    let publisher = provider(schedule, consumer)->0;
                    lemma_serves(schedule, publisher, consumer);
                    assert(serves(schedule, publisher, consumer));
                }
            }
        }
    }
}

/// Planned stages divide the schedule: they cover every layer in order, none of them is empty,
/// and every consumer of shared state is served, by a layer of its own stage.
pub proof fn law_plans_divide_the_schedule(
    schedule: Seq<LayerPolicy>,
    stages: int,
    consumer: int,
)
    requires
        stages >= 0,
        schedule.len() <= usize::MAX,
        pipeline_plan(schedule, stages) is Ok,
    ensures
        divides(schedule, pipeline_plan(schedule, stages)->Ok_0, stages),
        0 <= consumer < schedule.len() && schedule[consumer].key_value is Shared ==> exists|
            publisher: int,
        | #[trigger] serves(schedule, publisher, consumer),
{
    law_stages_are_admissible(schedule, stages);
    lemma_divides(schedule, pipeline_plan(schedule, stages)->Ok_0, stages);
    if 0 <= consumer < schedule.len() && schedule[consumer].key_value is Shared {
        lemma_no_orphan(schedule, schedule.len() as int, consumer);
        let publisher = provider(schedule, consumer)->0;
        lemma_serves(schedule, publisher, consumer);
        assert(serves(schedule, publisher, consumer));
    }
}

proof fn lemma_some_stage(cuts: Seq<int>) -> (stage: int)
    requires
        cuts.len() >= 2,
        increasing(cuts),
    ensures
        0 <= stage < cuts.len() - 1,
        cuts[stage + 1] - cuts[stage] == heaviest(cuts),
    decreases cuts.len(),
{
    let before = cuts.drop_last();
    assert(cuts[cuts.len() - 2] < cuts[cuts.len() - 1]);
    if cuts.len() > 2 && heaviest(before) >= cuts.last() - cuts[cuts.len() - 2] {
        let stage = lemma_some_stage(before);
        assert(before[stage + 1] == cuts[stage + 1]);
        stage
    } else {
        if cuts.len() == 2 {
            assert(heaviest(before) == 0);
        }
        cuts.len() - 2
    }
}

proof fn lemma_no_longer(cuts: Seq<int>, stage: int)
    requires
        0 <= stage < cuts.len() - 1,
    ensures
        cuts[stage + 1] - cuts[stage] <= heaviest(cuts),
    decreases cuts.len(),
{
    if stage < cuts.len() - 2 {
        lemma_no_longer(cuts.drop_last(), stage);
    }
}

/// Planned stages are balanced: any other division into as many stages has a stage at least as
/// long as each of them.
pub proof fn law_plans_are_balanced(
    schedule: Seq<LayerPolicy>,
    stages: int,
    other: Seq<int>,
    stage: int,
)
    requires
        schedule.len() <= usize::MAX,
        pipeline_plan(schedule, stages) is Ok,
        divides(schedule, other, stages),
        0 <= stage < stages,
    ensures
        exists|longest: int|
            0 <= longest < stages && #[trigger] other[longest + 1] - other[longest]
                >= pipeline_plan(schedule, stages)->Ok_0[stage + 1] - pipeline_plan(
                schedule,
                stages,
            )->Ok_0[stage],
{
    let planned = pipeline_plan(schedule, stages)->Ok_0;
    law_stages_are_admissible(schedule, stages);
    lemma_divides(schedule, other, stages);
    law_stages_are_balanced(schedule, stages, other);
    lemma_no_longer(planned, stage);
    let longest = lemma_some_stage(other);
    assert(other[longest + 1] - other[longest] >= planned[stage + 1] - planned[stage]);
}

/// Stages are planned wherever the schedule can be divided and every consumer of shared state is
/// served, and never where one is not.
pub proof fn law_plans_are_found(schedule: Seq<LayerPolicy>, stages: int, other: Seq<int>)
    requires
        stages > 0,
        schedule.len() > 0,
        divides(schedule, other, stages),
        forall|consumer: int|
            0 <= consumer < schedule.len() && (#[trigger] schedule[consumer]).key_value is Shared
                ==> exists|publisher: int| #[trigger] serves(schedule, publisher, consumer),
    ensures
        pipeline_plan(schedule, stages) is Ok,
{
    lemma_divides(schedule, other, stages);
    lemma_all_served(schedule, schedule.len() as int);
    law_planning_is_complete(schedule, stages, other);
}

proof fn lemma_all_served(schedule: Seq<LayerPolicy>, layers: int)
    requires
        0 <= layers <= schedule.len(),
        forall|consumer: int|
            0 <= consumer < schedule.len() && (#[trigger] schedule[consumer]).key_value is Shared
                ==> exists|publisher: int| #[trigger] serves(schedule, publisher, consumer),
    ensures
        first_orphan(schedule, layers) is None,
    decreases layers,
{
    if layers > 0 {
        lemma_all_served(schedule, layers - 1);
        if schedule[layers - 1].key_value is Shared {
            let publisher = choose|publisher: int| #[trigger]
                serves(schedule, publisher, layers - 1);
            lemma_serves(schedule, publisher, layers - 1);
        }
    }
}

/// No stage is planned for none, for no layers, or where a consumer of shared state follows no
/// layer that publishes for its attention policy.
pub proof fn law_unserved_schedules_are_refused(
    schedule: Seq<LayerPolicy>,
    stages: int,
    consumer: int,
)
    requires
        stages == 0 || schedule.len() == 0 || {
            &&& 0 <= consumer < schedule.len()
            &&& schedule[consumer].key_value is Shared
            &&& forall|layer: int|
                0 <= layer < consumer ==> !((#[trigger] schedule[layer]).key_value is Publish
                    && schedule[layer].attention == schedule[consumer].attention)
        },
    ensures
        pipeline_plan(schedule, stages) is Err,
{
    if stages != 0 && schedule.len() != 0 {
        lemma_last(schedule, consumer, schedule[consumer].attention);
        assert(orphaned(schedule, consumer));
        if first_orphan(schedule, schedule.len() as int) is None {
            lemma_no_orphan(schedule, schedule.len() as int, consumer);
        }
    }
}

proof fn lemma_first_cut(edges: Seq<int>, groups: int, end: int, limit: int, cut: int)
    requires
        1 <= groups,
        groups - 1 <= cut < limit <= end < edges.len(),
        larger(least_load(edges, groups - 1, cut), edges[end] - edges[cut]) <= best_cut(
            edges,
            groups,
            end,
            limit,
        ).0,
        best_cut(edges, groups, end, limit).0 < usize::MAX,
    ensures
        best_cut(edges, groups, end, limit).1 <= cut,
    decreases limit,
{
    let candidate = larger(
        least_load(edges, groups - 1, limit - 1),
        edges[end] - edges[limit - 1],
    );
    let before = best_cut(edges, groups, end, limit - 1);
    if cut < limit - 1 {
        if candidate < before.0 {
            lemma_bounded(edges, groups, end, limit - 1, cut);
        } else {
            lemma_first_cut(edges, groups, end, limit - 1, cut);
        }
    } else {
        lemma_cut_before(edges, groups, end, limit);
    }
}

proof fn lemma_bounded(edges: Seq<int>, groups: int, end: int, limit: int, cut: int)
    requires
        1 <= groups,
        groups - 1 <= cut < limit <= end < edges.len(),
    ensures
        best_cut(edges, groups, end, limit).0 <= larger(
            least_load(edges, groups - 1, cut),
            edges[end] - edges[cut],
        ),
    decreases limit,
{
    if cut < limit - 1 {
        lemma_bounded(edges, groups, end, limit - 1, cut);
    }
}

proof fn lemma_cut_before(edges: Seq<int>, groups: int, end: int, limit: int)
    requires
        1 <= groups,
        groups - 1 < limit <= end < edges.len(),
    ensures
        best_cut(edges, groups, end, limit).1 <= limit - 1,
    decreases limit,
{
    reveal_with_fuel(best_cut, 2);
    if groups - 1 < limit - 1 {
        lemma_cut_before(edges, groups, end, limit - 1);
    }
}

/// Among equally balanced divisions the planned one has the longest last stage.
pub proof fn law_ties_lengthen_the_last_stage(
    schedule: Seq<LayerPolicy>,
    stages: int,
    other: Seq<int>,
)
    requires
        schedule.len() < usize::MAX,
        pipeline_plan(schedule, stages) is Ok,
        stages > 0,
        divides(schedule, other, stages),
        heaviest(other) <= heaviest(pipeline_plan(schedule, stages)->Ok_0),
    ensures
        pipeline_plan(schedule, stages)->Ok_0[stages - 1] <= other[stages - 1],
{
    let edges = unit_edges(schedule);
    let end = edges.len() - 1;
    lemma_divides(schedule, other, stages);
    lemma_unit_edges(schedule);
    let indices = lemma_edge_indices(schedule, stages, other);
    let cuts = chosen_cuts(edges, stages, end);
    lemma_chosen(edges, stages, end);
    lemma_best_cut(edges, stages, end);
    assert(stage_cuts(schedule, stages) =~= at_edges(edges, cuts));
    let before = indices.drop_last();
    let cut = indices[stages - 1];
    assert(before.last() == cut);
    assert(indices[stages - 1] < indices[stages]);
    lemma_least(edges, before);
    assert(at_edges(edges, indices) =~= other);
    assert(at_edges(edges, indices).drop_last() =~= at_edges(edges, before));
    assert(least_load(edges, stages - 1, cut) <= heaviest(at_edges(edges, before)));
    assert(heaviest(other) == larger(
        heaviest(at_edges(edges, before)),
        edges[end] - edges[cut],
    ));
    lemma_first_cut(edges, stages, end, end, cut);
    let chosen = best_cut(edges, stages, end, end).1;
    lemma_chosen(edges, stages - 1, chosen);
    assert(cuts[stages - 1] == chosen);
    if chosen < cut {
        assert(edges[chosen] < edges[cut]);
    }
}

/// Planned ranges are as many as stages, start with the first layer, end with the last, and each
/// begins where the one before it ends.
pub proof fn law_ranges_follow_each_other(
    schedule: Seq<LayerPolicy>,
    stages: int,
    ranges: Seq<Range<usize>>,
    stage: int,
)
    requires
        schedule.len() <= usize::MAX,
        stages > 0,
        pipeline_plan(schedule, stages) is Ok,
        ranges_between(ranges, pipeline_plan(schedule, stages)->Ok_0),
        0 <= stage < stages,
    ensures
        ranges.len() == stages,
        ranges[0].start == 0,
        ranges[stages - 1].end == schedule.len(),
        ranges[stage].start < ranges[stage].end,
        stage + 1 < stages ==> ranges[stage].end == ranges[stage + 1].start,
{
    law_stages_are_admissible(schedule, stages);
    let cuts = pipeline_plan(schedule, stages)->Ok_0;
    assert(ranges[0].start == cuts[0]);
    assert(ranges[stages - 1].end == cuts[stages - 1 + 1]);
    assert(ranges[stage].start == cuts[stage]);
    assert(cuts[stage] < cuts[stage + 1]);
    if stage + 1 < stages {
        assert(ranges[stage + 1].start == cuts[stage + 1]);
    }
}

/// A layer that keeps its state to itself or publishes it has the value topology it declares; one
/// that consumes shared state has none.
pub proof fn law_owned_states_have_values(value: AttentionValueSource)
    ensures
        (AttentionStateSource::Local { value }).value_spec() == Some(value),
        (AttentionStateSource::Publish { value }).value_spec() == Some(value),
        AttentionStateSource::Shared.value_spec() is None,
{
}

} // verus!
