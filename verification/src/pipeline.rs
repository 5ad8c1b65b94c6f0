//! Balanced pipeline stages that keep shared attention state on one stage.

use crate::errors::{ConfigError, Fault};
use crate::schedule::{AttentionPolicy, AttentionStateSource, LayerPolicy};
use crate::text::{decimal, decimal_text};
use core::ops::Range;
use vstd::prelude::*;

verus! {

/// Whether layer `layer` publishes state of kind `attention`.
pub open spec fn publishes(
    schedule: Seq<LayerPolicy>,
    layer: int,
    attention: AttentionPolicy,
) -> bool {
    schedule[layer].key_value is Publish && schedule[layer].attention == attention
}

/// Last publisher of `attention` among the first `layer` layers.
pub open spec fn publisher_before(
    schedule: Seq<LayerPolicy>,
    layer: int,
    attention: AttentionPolicy,
) -> Option<int>
    decreases layer,
{
    if layer <= 0 {
        None
    } else if publishes(schedule, layer - 1, attention) {
        Some(layer - 1)
    } else {
        publisher_before(schedule, layer - 1, attention)
    }
}

/// The layer whose state layer `layer` consumes.
pub open spec fn provider(schedule: Seq<LayerPolicy>, layer: int) -> Option<int> {
    publisher_before(schedule, layer, schedule[layer].attention)
}

/// Whether layer `layer` consumes shared state that no earlier layer publishes.
pub open spec fn orphaned(schedule: Seq<LayerPolicy>, layer: int) -> bool {
    schedule[layer].key_value is Shared && provider(schedule, layer) is None
}

/// First orphaned layer among the first `layers` layers.
pub open spec fn first_orphan(schedule: Seq<LayerPolicy>, layers: int) -> Option<int>
    decreases layers,
{
    if layers <= 0 {
        None
    } else if first_orphan(schedule, layers - 1) is Some {
        first_orphan(schedule, layers - 1)
    } else if orphaned(schedule, layers - 1) {
        Some(layers - 1)
    } else {
        None
    }
}

/// Whether a stage boundary at `position` would part consumer `consumer` from its publisher.
pub open spec fn parts(schedule: Seq<LayerPolicy>, position: int, consumer: int) -> bool {
    &&& schedule[consumer].key_value is Shared
    &&& provider(schedule, consumer) matches Some(publisher) && publisher < position <= consumer
}

/// Whether no consumer among the first `layers` layers is parted by a boundary at `position`.
pub open spec fn splittable(schedule: Seq<LayerPolicy>, position: int, layers: int) -> bool {
    forall|consumer: int| 0 <= consumer < layers ==> !#[trigger] parts(schedule, position, consumer)
}

/// Admissible stage boundaries up to and including `position`, in order, from zero.
pub open spec fn boundaries(schedule: Seq<LayerPolicy>, position: int) -> Seq<int>
    decreases position,
{
    if position <= 0 {
        seq![0int]
    } else if splittable(schedule, position, schedule.len() as int) {
        boundaries(schedule, position - 1).push(position)
    } else {
        boundaries(schedule, position - 1)
    }
}

/// Edges of the indivisible decoder units: every admissible boundary, and the end.
pub open spec fn unit_edges(schedule: Seq<LayerPolicy>) -> Seq<int> {
    boundaries(schedule, schedule.len() - 1).push(schedule.len() as int)
}

/// Larger of two loads.
pub open spec fn larger(left: int, right: int) -> int {
    if left >= right {
        left
    } else {
        right
    }
}

/// Least achievable heaviest group, and the first last cut achieving it, when the units before
/// edge `end` form `groups` groups and the last cut lies before edge `limit`.
pub open spec fn best_cut(edges: Seq<int>, groups: int, end: int, limit: int) -> (int, int)
    decreases groups, limit,
    when groups >= 1 && limit >= groups - 1
{
    if limit <= groups - 1 {
        (usize::MAX as int, 0)
    } else {
        let (load, cut) = best_cut(edges, groups, end, limit - 1);
        let candidate = larger(
            least_load(edges, groups - 1, limit - 1),
            edges[end] - edges[limit - 1],
        );
        if candidate < load {
            (candidate, limit - 1)
        } else {
            (load, cut)
        }
    }
}

/// Least heaviest group when the units before edge `end` form `groups` groups;
/// `usize::MAX` where there are fewer units than groups.
pub open spec fn least_load(edges: Seq<int>, groups: int, end: int) -> int
    decreases groups, end + 1,
    when groups >= 0 && end >= 0
{
    if groups == 0 {
        if end == 0 {
            0
        } else {
            usize::MAX as int
        }
    } else if end < groups {
        usize::MAX as int
    } else {
        best_cut(edges, groups, end, end).0
    }
}

/// Cuts of the units before edge `end` into `groups` groups, as edge indices.
pub open spec fn chosen_cuts(edges: Seq<int>, groups: int, end: int) -> Seq<int>
    decreases groups,
{
    if groups <= 0 {
        seq![end]
    } else {
        chosen_cuts(edges, groups - 1, best_cut(edges, groups, end, end).1).push(end)
    }
}

/// Stage boundaries, as layer positions, that the plan selects.
pub open spec fn stage_cuts(schedule: Seq<LayerPolicy>, stages: int) -> Seq<int> {
    let edges = unit_edges(schedule);
    let cuts = chosen_cuts(edges, stages, edges.len() - 1);
    Seq::new(cuts.len(), |i: int| edges[cuts[i]])
}

/// Text `{:?}` gives for an attention policy.
pub open spec fn attention_debug(attention: AttentionPolicy) -> Seq<char> {
    match attention {
        AttentionPolicy::Full => "Full"@,
        AttentionPolicy::Sliding { window } => "Sliding { window: "@ + decimal(window as nat)
            + " }"@,
    }
}

/// Outcome of planning `stages` stages: the stage boundaries, or the fault.
pub open spec fn pipeline_plan(schedule: Seq<LayerPolicy>, stages: int) -> Result<Seq<int>, Fault> {
    let layers = schedule.len() as int;
    let units = unit_edges(schedule).len() - 1;
    if stages == 0 || layers == 0 {
        Err(
            Fault::Invalid(
                "Gemma 4 pipeline planning requires positive layer and stage counts"@,
            ),
        )
    } else if let Some(layer) = first_orphan(schedule, layers) {
        Err(
            Fault::Invalid(
                "Gemma 4 layer "@ + decimal(layer as nat) + " consumes "@ + attention_debug(
                    schedule[layer].attention,
                ) + " shared KV before any publisher"@,
            ),
        )
    } else if units < stages {
        Err(
            Fault::Invalid(
                decimal(stages as nat) + " pipeline stages cannot be assigned to "@ + decimal(
                    units as nat,
                ) + " dependency-safe Gemma 4 decoder units; reduce pipeline_parallel_size"@,
            ),
        )
    } else {
        Ok(stage_cuts(schedule, stages))
    }
}

/// Whether `ranges` are the gaps between consecutive `cuts`.
pub open spec fn ranges_between(ranges: Seq<Range<usize>>, cuts: Seq<int>) -> bool {
    &&& ranges.len() + 1 == cuts.len()
    &&& forall|i: int|
        0 <= i < ranges.len() ==> (#[trigger] ranges[i]).start == cuts[i] && ranges[i].end == cuts[i
            + 1]
}

pub(crate) fn attention_debug_text(attention: AttentionPolicy) -> (r: String)
    ensures
        r@ == attention_debug(attention),
{
    match attention {
        AttentionPolicy::Full => "Full".to_owned(),
        AttentionPolicy::Sliding { window } => "Sliding { window: ".to_owned().concat(
            decimal_text(window as u64).as_str(),
        ).concat(" }"),
    }
}

fn find_publisher(schedule: &Vec<LayerPolicy>, layer: usize, attention: AttentionPolicy) -> (r:
    Option<usize>)
    requires
        layer <= schedule.len(),
    ensures
        r matches Some(p) ==> p < layer && publisher_before(schedule@, layer as int, attention)
            == Some(p as int),
        r is None ==> publisher_before(schedule@, layer as int, attention) is None,
{
    let mut end: usize = layer;
    while end > 0
        invariant
            end <= layer <= schedule.len(),
            publisher_before(schedule@, layer as int, attention) == publisher_before(
                schedule@,
                end as int,
                attention,
            ),
        decreases end,
    {
        let policy = schedule[end - 1];
        if let AttentionStateSource::Publish { .. } = policy.key_value {
            if policy.attention == attention {
                return Some(end - 1);
            }
        }
        end = end - 1;
    }
    None
}

/// Marks which positions admit a stage boundary, or names the first orphaned layer.
fn mark_boundaries(schedule: &Vec<LayerPolicy>) -> (r: Result<Vec<bool>, usize>)
    requires
        schedule.len() > 0,
    ensures
        match r {
            Ok(open) => {
                &&& first_orphan(schedule@, schedule.len() as int) is None
                &&& open.len() == schedule.len()
                &&& forall|position: int|
                    0 <= position < schedule.len() ==> #[trigger] open[position] == splittable(
                        schedule@,
                        position,
                        schedule.len() as int,
                    )
            },
            Err(layer) => layer < schedule.len() && first_orphan(schedule@, schedule.len() as int)
                == Some(layer as int),
        },
{
    let layers: usize = schedule.len();
    let mut open: Vec<bool> = Vec::new();
    let mut position: usize = 0;
    while position < layers
        invariant
            position <= layers,
            open.len() == position,
            forall|i: int| 0 <= i < position ==> #[trigger] open[i],
        decreases layers - position,
    {
        open.push(true);
        position = position + 1;
    }
    let mut layer: usize = 0;
    while layer < layers
        invariant
            layer <= layers,
            layers == schedule.len(),
            open.len() == layers,
            first_orphan(schedule@, layer as int) is None,
            forall|position: int|
                0 <= position < layers ==> #[trigger] open[position] == splittable(
                    schedule@,
                    position,
                    layer as int,
                ),
        decreases layers - layer,
    {
        let policy = schedule[layer];
        let ghost before = open@;
        if let AttentionStateSource::Shared = policy.key_value {
            match find_publisher(schedule, layer, policy.attention) {
                None => {
                    proof {
                        lemma_first_orphan_stable(schedule@, layer as int + 1, layers as int);
                    }
                    return Err(layer);
                },
                Some(publisher) => {
                    let mut at: usize = publisher + 1;
                    while at <= layer
                        invariant
                            publisher + 1 <= at <= layer + 1,
                            layer < layers,
                            open.len() == layers,
                            before.len() == layers,
                            forall|i: int|
                                0 <= i < layers ==> #[trigger] open[i] == (before[i] && !(publisher
                                    < i < at)),
                        decreases layer + 1 - at,
                    {
                        open.set(at, false);
                        at = at + 1;
                    }
                },
            }
        }
        proof {
            assert forall|position: int| 0 <= position < layers implies #[trigger] open[position]
                == splittable(schedule@, position, layer as int + 1) by {
                assert(open[position] == (before[position] && !parts(
                    schedule@,
                    position,
                    layer as int,
                )));
                assert(before[position] == splittable(schedule@, position, layer as int));
                if splittable(schedule@, position, layer as int + 1) {
                    assert forall|consumer: int| 0 <= consumer < layer implies !#[trigger] parts(
                        schedule@,
                        position,
                        consumer,
                    ) by {}
                }
            }
        }
        layer = layer + 1;
    }
    Ok(open)
}

proof fn lemma_first_orphan_stable(schedule: Seq<LayerPolicy>, from: int, to: int)
    requires
        from <= to,
        first_orphan(schedule, from) is Some,
    ensures
        first_orphan(schedule, to) == first_orphan(schedule, from),
    decreases to - from,
{
    if from < to {
        lemma_first_orphan_stable(schedule, from, to - 1);
    }
}

/// Whether the values strictly increase.
pub open spec fn increasing(edges: Seq<int>) -> bool {
    forall|i: int, j: int| 0 <= i < j < edges.len() ==> edges[i] < edges[j]
}

proof fn lemma_boundaries(schedule: Seq<LayerPolicy>, position: int)
    requires
        position >= 0,
    ensures
        boundaries(schedule, position).len() >= 1,
        boundaries(schedule, position)[0] == 0,
        increasing(boundaries(schedule, position)),
        forall|i: int|
            0 <= i < boundaries(schedule, position).len() ==> 0 <= #[trigger] boundaries(
                schedule,
                position,
            )[i] <= position,
        boundaries(schedule, position).len() <= position + 1,
        forall|i: int|
            0 < i < boundaries(schedule, position).len() ==> splittable(
                schedule,
                #[trigger] boundaries(schedule, position)[i],
                schedule.len() as int,
            ),
        forall|x: int|
            0 < x <= position && #[trigger] splittable(schedule, x, schedule.len() as int)
                ==> boundaries(schedule, position).contains(x),
    decreases position,
{
    if position > 0 {
        lemma_boundaries(schedule, position - 1);
        let before = boundaries(schedule, position - 1);
        let after = boundaries(schedule, position);
        assert forall|x: int|
            0 < x <= position && #[trigger] splittable(
                schedule,
                x,
                schedule.len() as int,
            ) implies after.contains(x) by {
            if x == position {
                assert(after[after.len() - 1] == x);
            } else {
                let i = choose|i: int| 0 <= i < before.len() && before[i] == x;
                assert(after[i] == x);
            }
        }
    }
}

pub(crate) proof fn lemma_unit_edges(schedule: Seq<LayerPolicy>)
    requires
        schedule.len() > 0,
    ensures
        unit_edges(schedule).len() >= 2,
        unit_edges(schedule)[0] == 0,
        unit_edges(schedule).last() == schedule.len(),
        increasing(unit_edges(schedule)),
        forall|i: int|
            0 < i < unit_edges(schedule).len() - 1 ==> splittable(
                schedule,
                #[trigger] unit_edges(schedule)[i],
                schedule.len() as int,
            ),
        forall|x: int|
            0 < x < schedule.len() && #[trigger] splittable(schedule, x, schedule.len() as int)
                ==> unit_edges(schedule).contains(x),
{
    lemma_boundaries(schedule, schedule.len() - 1);
    let before = boundaries(schedule, schedule.len() - 1);
    let edges = unit_edges(schedule);
    assert forall|x: int|
        0 < x < schedule.len() && #[trigger] splittable(
            schedule,
            x,
            schedule.len() as int,
        ) implies edges.contains(x) by {
        let i = choose|i: int| 0 <= i < before.len() && before[i] == x;
        assert(edges[i] == x);
    }
}

/// The selected last cut lies among the candidates and achieves the least load.
pub(crate) proof fn lemma_best_cut(edges: Seq<int>, groups: int, end: int)
    requires
        1 <= groups <= end < edges.len(),
        edges[0] == 0,
        increasing(edges),
        edges.last() <= usize::MAX,
    ensures
        groups - 1 <= best_cut(edges, groups, end, end).1 < end,
        groups == 1 ==> best_cut(edges, groups, end, end).1 == 0,
        least_load(edges, groups, end) == larger(
            least_load(edges, groups - 1, best_cut(edges, groups, end, end).1),
            edges[end] - edges[best_cut(edges, groups, end, end).1],
        ),
        least_load(edges, groups, end) <= edges[end],
        0 <= least_load(edges, groups, end),
    decreases groups,
{
    lemma_best_prefix(edges, groups, end, end);
    assert(edges[end] <= edges.last());
}

proof fn lemma_best_prefix(edges: Seq<int>, groups: int, end: int, limit: int)
    requires
        1 <= groups,
        groups - 1 <= limit <= end < edges.len(),
        edges[0] == 0,
        increasing(edges),
        edges.last() <= usize::MAX,
    ensures
        ({
            let (load, cut) = best_cut(edges, groups, end, limit);
            &&& groups == 1 ==> cut == 0 && load == if limit == 0 {
                usize::MAX as int
            } else {
                edges[end]
            }
            &&& groups > 1 && limit == groups - 1 ==> load == usize::MAX
            &&& groups > 1 && limit > groups - 1 ==> {
                &&& groups - 1 <= cut < limit
                &&& load == larger(least_load(edges, groups - 1, cut), edges[end] - edges[cut])
                &&& 0 <= load < edges[end]
            }
        }),
    decreases groups, limit,
{
    if limit > groups - 1 {
        lemma_best_prefix(edges, groups, end, limit - 1);
        assert(edges[end] <= edges.last());
        assert(edges[limit - 1] < edges[end]);
        if groups == 1 {
            assert(least_load(edges, 0, limit - 1) == if limit == 1 {
                0
            } else {
                usize::MAX as int
            });
        } else {
            lemma_best_cut(edges, groups - 1, limit - 1);
            assert(edges[0] < edges[limit - 1]);
        }
    }
}

/// Edge positions as mathematical integers.
pub open spec fn positions(edges: Seq<usize>) -> Seq<int> {
    Seq::new(edges.len(), |i: int| edges[i] as int)
}

fn collect_edges(schedule: &Vec<LayerPolicy>, open: &Vec<bool>) -> (edges: Vec<usize>)
    requires
        schedule.len() > 0,
        open.len() == schedule.len(),
        forall|position: int|
            0 <= position < schedule.len() ==> #[trigger] open[position] == splittable(
                schedule@,
                position,
                schedule.len() as int,
            ),
    ensures
        positions(edges@) == unit_edges(schedule@),
{
    let layers: usize = schedule.len();
    let mut edges: Vec<usize> = Vec::new();
    edges.push(0);
    let mut position: usize = 1;
    assert(positions(edges@) =~= boundaries(schedule@, 0));
    while position < layers
        invariant
            1 <= position <= layers,
            layers == schedule.len(),
            open.len() == layers,
            forall|position: int|
                0 <= position < layers ==> #[trigger] open[position] == splittable(
                    schedule@,
                    position,
                    layers as int,
                ),
            positions(edges@) == boundaries(schedule@, position - 1),
        decreases layers - position,
    {
        if open[position] {
            edges.push(position);
        }
        assert(positions(edges@) =~= boundaries(schedule@, position as int));
        position = position + 1;
    }
    edges.push(layers);
    assert(positions(edges@) =~= unit_edges(schedule@));
    edges
}

/// Least loads and last cuts for `groups` groups, from the loads for one group fewer.
fn extend_rows(edges: &Vec<usize>, previous: &Vec<usize>, groups: usize) -> (r: (
    Vec<usize>,
    Vec<usize>,
))
    requires
        1 <= groups < edges.len(),
        increasing(positions(edges@)),
        previous.len() == edges.len(),
        forall|end: int|
            0 <= end < edges.len() ==> #[trigger] previous[end] == least_load(
                positions(edges@),
                groups - 1,
                end,
            ),
    ensures
        r.0.len() == edges.len(),
        r.1.len() == edges.len(),
        forall|end: int|
            0 <= end < edges.len() ==> #[trigger] r.0[end] == least_load(
                positions(edges@),
                groups as int,
                end,
            ),
        forall|end: int|
            groups <= end < edges.len() ==> #[trigger] r.1[end] == best_cut(
                positions(edges@),
                groups as int,
                end,
                end,
            ).1,
{
    let count: usize = edges.len();
    let mut loads: Vec<usize> = Vec::new();
    let mut cuts: Vec<usize> = Vec::new();
    let mut end: usize = 0;
    while end < count
        invariant
            end <= count,
            count == edges.len(),
            1 <= groups < count,
            increasing(positions(edges@)),
            previous.len() == count,
            forall|i: int|
                0 <= i < count ==> #[trigger] previous[i] == least_load(
                    positions(edges@),
                    groups - 1,
                    i,
                ),
            loads.len() == end,
            cuts.len() == end,
            forall|i: int|
                0 <= i < end ==> #[trigger] loads[i] == least_load(
                    positions(edges@),
                    groups as int,
                    i,
                ),
            forall|i: int|
                groups <= i < end ==> #[trigger] cuts[i] == best_cut(
                    positions(edges@),
                    groups as int,
                    i,
                    i,
                ).1,
        decreases count - end,
    {
        let mut load: usize = usize::MAX;
        let mut cut: usize = 0;
        if end >= groups {
            let mut at: usize = groups - 1;
            while at < end
                invariant
                    groups - 1 <= at <= end,
                    1 <= groups,
                    end < count,
                    count == edges.len(),
                    increasing(positions(edges@)),
                    previous.len() == count,
                    forall|i: int|
                        0 <= i < count ==> #[trigger] previous[i] == least_load(
                            positions(edges@),
                            groups - 1,
                            i,
                        ),
                    (load as int, cut as int) == best_cut(
                        positions(edges@),
                        groups as int,
                        end as int,
                        at as int,
                    ),
                decreases end - at,
            {
                assert(positions(edges@)[at as int] < positions(edges@)[end as int]);
                let width: usize = edges[end] - edges[at];
                let candidate: usize = if previous[at] >= width {
                    previous[at]
                } else {
                    width
                };
                if candidate < load {
                    load = candidate;
                    cut = at;
                }
                at = at + 1;
            }
        }
        loads.push(load);
        cuts.push(cut);
        end = end + 1;
    }
    (loads, cuts)
}

/// Whether `row` holds the selected last cut of `groups` groups for every end that admits them.
pub open spec fn cut_row(row: Seq<usize>, edges: Seq<int>, groups: int) -> bool {
    &&& row.len() == edges.len()
    &&& forall|end: int|
        groups <= end < edges.len() ==> #[trigger] row[end] == best_cut(edges, groups, end, end).1
}

/// Ranges between the selected cuts, from the tables of last cuts.
fn collect_ranges(edges: &Vec<usize>, tables: &Vec<Vec<usize>>, groups: usize, end: usize) -> (r:
    Vec<Range<usize>>)
    requires
        end < edges.len(),
        groups <= end,
        groups == 0 ==> end == 0,
        edges[0] == 0,
        increasing(positions(edges@)),
        groups <= tables.len(),
        forall|g: int|
            0 <= g < tables.len() ==> cut_row(#[trigger] tables[g]@, positions(edges@), g + 1),
    ensures
        r.len() == groups,
        chosen_cuts(positions(edges@), groups as int, end as int).len() == groups + 1,
        forall|i: int|
            0 <= i <= groups ==> 0 <= #[trigger] chosen_cuts(
                positions(edges@),
                groups as int,
                end as int,
            )[i] < edges.len(),
        forall|i: int|
            0 <= i < groups ==> (#[trigger] r[i]).start == edges[chosen_cuts(
                positions(edges@),
                groups as int,
                end as int,
            )[i]] && r[i].end == edges[chosen_cuts(positions(edges@), groups as int, end as int)[i
                + 1]],
    decreases groups,
{
    if groups == 0 {
        return Vec::new();
    }
    proof {
        lemma_best_cut(positions(edges@), groups as int, end as int);
        assert(cut_row(tables[groups - 1]@, positions(edges@), groups as int));
    }
    let cut: usize = tables[groups - 1][end];
    let mut ranges = collect_ranges(edges, tables, groups - 1, cut);
    ranges.push(edges[cut]..edges[end]);
    proof {
        let before = chosen_cuts(positions(edges@), groups - 1, cut as int);
        let after = chosen_cuts(positions(edges@), groups as int, end as int);
        assert(after == before.push(end as int));
        lemma_last_cut(positions(edges@), groups - 1, cut as int);
        assert(after[groups - 1] == cut);
        assert forall|i: int| 0 <= i < groups implies (#[trigger] ranges[i]).start
            == edges[after[i]] && ranges[i].end == edges[after[i + 1]] by {
            if i < groups - 1 {
                assert(after[i] == before[i] && after[i + 1] == before[i + 1]);
            }
        }
    }
    ranges
}

proof fn lemma_last_cut(edges: Seq<int>, groups: int, end: int)
    requires
        groups >= 0,
    ensures
        chosen_cuts(edges, groups, end).len() == groups + 1,
        chosen_cuts(edges, groups, end).last() == end,
    decreases groups,
{
    if groups > 0 {
        lemma_last_cut(edges, groups - 1, best_cut(edges, groups, end, end).1);
    }
}

/// Balances decoder layers across pipeline stages without separating a shared-KV consumer from
/// the layer that publishes its attention state.
pub fn plan_stages(schedule: &Vec<LayerPolicy>, stages: usize) -> (r: Result<
    Vec<Range<usize>>,
    ConfigError,
>)
    ensures
        match pipeline_plan(schedule@, stages as int) {
            Ok(cuts) => r matches Ok(ranges) && ranges_between(ranges@, cuts),
            Err(fault) => r matches Err(error) && error.deep_view() == fault,
        },
{
    let layers: usize = schedule.len();
    if stages == 0 || layers == 0 {
        return Err(
            ConfigError::Invalid(
                "Gemma 4 pipeline planning requires positive layer and stage counts".to_owned(),
            ),
        );
    }
    let open = match mark_boundaries(schedule) {
        Ok(open) => open,
        Err(layer) => {
            let attention = schedule[layer].attention;
            return Err(
                ConfigError::Invalid(
                    "Gemma 4 layer ".to_owned().concat(
                        decimal_text(layer as u64).as_str(),
                    ).concat(" consumes ").concat(attention_debug_text(attention).as_str()).concat(
                        " shared KV before any publisher",
                    ),
                ),
            );
        },
    };
    let edges = collect_edges(schedule, &open);
    proof {
        lemma_unit_edges(schedule@);
        assert(unit_edges(schedule@).len() == edges.len());
    }
    let count: usize = edges.len() - 1;
    if count < stages {
        return Err(
            ConfigError::Invalid(
                decimal_text(stages as u64).concat(
                    " pipeline stages cannot be assigned to ",
                ).concat(decimal_text(count as u64).as_str()).concat(
                    " dependency-safe Gemma 4 decoder units; reduce pipeline_parallel_size",
                ),
            ),
        );
    }
    let mut loads: Vec<usize> = Vec::new();
    loads.push(0);
    while loads.len() < edges.len()
        invariant
            1 <= loads.len() <= edges.len(),
            loads[0] == 0,
            forall|i: int| 0 < i < loads.len() ==> #[trigger] loads[i] == usize::MAX,
        decreases edges.len() - loads.len(),
    {
        loads.push(usize::MAX);
    }
    let mut tables: Vec<Vec<usize>> = Vec::new();
    let mut groups: usize = 0;
    while groups < stages
        invariant
            groups <= stages < edges.len(),
            tables.len() == groups,
            increasing(positions(edges@)),
            loads.len() == edges.len(),
            forall|end: int|
                0 <= end < edges.len() ==> #[trigger] loads[end] == least_load(
                    positions(edges@),
                    groups as int,
                    end,
                ),
            forall|g: int|
                0 <= g < tables.len() ==> cut_row(#[trigger] tables[g]@, positions(edges@), g + 1),
        decreases stages - groups,
    {
        let ghost filled = tables@;
        let (next, cuts) = extend_rows(&edges, &loads, groups + 1);
        tables.push(cuts);
        loads = next;
        groups = groups + 1;
        assert forall|g: int| 0 <= g < tables.len() implies cut_row(
            #[trigger] tables[g]@,
            positions(edges@),
            g + 1,
        ) by {
            if g < filled.len() {
                assert(tables[g] == filled[g]);
            }
        }
    }
    let ranges = collect_ranges(&edges, &tables, stages, count);
    proof {
        let cuts = chosen_cuts(positions(edges@), stages as int, count as int);
        let planned = stage_cuts(schedule@, stages as int);
        assert forall|i: int| 0 <= i < ranges.len() implies (#[trigger] ranges[i]).start
            == planned[i] && ranges[i].end == planned[i + 1] by {
            assert(planned[i] == edges[cuts[i]]);
            assert(planned[i + 1] == edges[cuts[i + 1]]);
        }
    }
    Ok(ranges)
}

/// Whether `cuts` divide the schedule into `stages` non-empty stages whose boundaries part no
/// consumer from its publisher.
pub open spec fn admissible(schedule: Seq<LayerPolicy>, cuts: Seq<int>, stages: int) -> bool {
    &&& cuts.len() == stages + 1
    &&& cuts[0] == 0
    &&& cuts.last() == schedule.len()
    &&& increasing(cuts)
    &&& forall|i: int|
        0 < i < stages ==> splittable(schedule, #[trigger] cuts[i], schedule.len() as int)
}

/// Layer count of the heaviest stage between consecutive `cuts`.
pub open spec fn heaviest(cuts: Seq<int>) -> int
    decreases cuts.len(),
{
    if cuts.len() <= 1 {
        0
    } else {
        larger(heaviest(cuts.drop_last()), cuts.last() - cuts[cuts.len() - 2])
    }
}

/// Edge positions selected by edge indices.
pub open spec fn at_edges(edges: Seq<int>, cuts: Seq<int>) -> Seq<int> {
    Seq::new(cuts.len(), |i: int| edges[cuts[i]])
}

pub(crate) proof fn lemma_chosen(edges: Seq<int>, groups: int, end: int)
    requires
        0 <= groups <= end < edges.len(),
        groups == 0 ==> end == 0,
        edges[0] == 0,
        increasing(edges),
        edges.last() <= usize::MAX,
    ensures
        ({
            let cuts = chosen_cuts(edges, groups, end);
            &&& cuts.len() == groups + 1
            &&& cuts[0] == 0
            &&& cuts.last() == end
            &&& increasing(cuts)
            &&& forall|i: int| 0 <= i < cuts.len() ==> 0 <= #[trigger] cuts[i] <= end
            &&& heaviest(at_edges(edges, cuts)) == least_load(edges, groups, end)
        }),
    decreases groups,
{
    let cuts = chosen_cuts(edges, groups, end);
    if groups == 0 {
        assert(cuts =~= seq![0int]);
    } else {
        lemma_best_cut(edges, groups, end);
        let cut = best_cut(edges, groups, end, end).1;
        lemma_chosen(edges, groups - 1, cut);
        let before = chosen_cuts(edges, groups - 1, cut);
        assert(cuts =~= before.push(end));
        assert forall|i: int| 0 <= i < cuts.len() implies 0 <= #[trigger] cuts[i] <= end by {
            if i < before.len() {
                assert(cuts[i] == before[i]);
            }
        }
        assert(at_edges(edges, cuts).drop_last() =~= at_edges(edges, before));
        assert(cuts[cuts.len() - 2] == before.last());
    }
}

/// No division of the units before the last of `cuts` is lighter than the least load.
pub(crate) proof fn lemma_least(edges: Seq<int>, cuts: Seq<int>)
    requires
        cuts.len() >= 1,
        cuts[0] == 0,
        increasing(cuts),
        cuts.last() < edges.len(),
        edges[0] == 0,
        increasing(edges),
        edges.last() <= usize::MAX,
    ensures
        cuts.len() - 1 <= cuts.last(),
        least_load(edges, cuts.len() - 1, cuts.last()) <= heaviest(at_edges(edges, cuts)),
    decreases cuts.len(),
{
    if cuts.len() > 1 {
        let before = cuts.drop_last();
        let groups = cuts.len() - 1;
        let end = cuts.last();
        assert(before.last() == cuts[cuts.len() - 2]);
        assert(before.last() < end);
        lemma_least(edges, before);
        lemma_no_better(edges, groups, end, end, before.last());
        assert(at_edges(edges, cuts).drop_last() =~= at_edges(edges, before));
    }
}

proof fn lemma_no_better(edges: Seq<int>, groups: int, end: int, limit: int, cut: int)
    requires
        1 <= groups,
        groups - 1 <= cut < limit <= end < edges.len(),
    ensures
        best_cut(edges, groups, end, limit).0 <= larger(
            least_load(edges, groups - 1, cut),
            edges[end] - edges[cut],
        ),
    decreases limit,
{
    if cut < limit - 1 {
        lemma_no_better(edges, groups, end, limit - 1, cut);
    }
}

/// Planned stages are contiguous, non-empty, cover every layer in order, and are as many as
/// requested; no boundary parts a shared-state consumer from its publisher.
pub proof fn law_stages_are_admissible(schedule: Seq<LayerPolicy>, stages: int)
    requires
        stages >= 0,
        schedule.len() <= usize::MAX,
        pipeline_plan(schedule, stages) is Ok,
    ensures
        admissible(schedule, pipeline_plan(schedule, stages)->Ok_0, stages),
{
    let edges = unit_edges(schedule);
    lemma_unit_edges(schedule);
    lemma_chosen(edges, stages, edges.len() - 1);
    let cuts = chosen_cuts(edges, stages, edges.len() - 1);
    let planned = stage_cuts(schedule, stages);
    assert forall|i: int, j: int| 0 <= i < j < planned.len() implies planned[i] < planned[j] by {
        assert(cuts[i] < cuts[j]);
        assert(edges[cuts[i]] < edges[cuts[j]]);
    }
    assert forall|i: int| 0 < i < stages implies splittable(
        schedule,
        #[trigger] planned[i],
        schedule.len() as int,
    ) by {
        assert(cuts[0] < cuts[i] < cuts[stages]);
        assert(planned[i] == edges[cuts[i]]);
    }
}

/// A shared-state consumer runs on the stage of the layer that publishes its state.
pub proof fn law_consumers_stay_with_publishers(
    schedule: Seq<LayerPolicy>,
    stages: int,
    stage: int,
    consumer: int,
)
    requires
        schedule.len() <= usize::MAX,
        pipeline_plan(schedule, stages) is Ok,
        0 <= stage < stages,
        pipeline_plan(schedule, stages)->Ok_0[stage] <= consumer < pipeline_plan(
            schedule,
            stages,
        )->Ok_0[stage + 1],
        schedule[consumer].key_value is Shared,
    ensures
        provider(schedule, consumer) matches Some(publisher) && pipeline_plan(
            schedule,
            stages,
        )->Ok_0[stage] <= publisher < consumer,
{
    law_stages_are_admissible(schedule, stages);
    let cuts = pipeline_plan(schedule, stages)->Ok_0;
    assert(cuts[stage + 1] <= cuts[stages]);
    assert(cuts[0] <= cuts[stage]);
    lemma_no_orphan(schedule, schedule.len() as int, consumer);
    lemma_publisher(schedule, consumer, schedule[consumer].attention);
    if stage > 0 {
        assert(splittable(schedule, cuts[stage], schedule.len() as int));
        assert(!parts(schedule, cuts[stage], consumer));
    }
}

pub(crate) proof fn lemma_no_orphan(schedule: Seq<LayerPolicy>, layers: int, layer: int)
    requires
        0 <= layer < layers,
        first_orphan(schedule, layers) is None,
    ensures
        !orphaned(schedule, layer),
    decreases layers,
{
    if layer < layers - 1 {
        lemma_no_orphan(schedule, layers - 1, layer);
    }
}

proof fn lemma_publisher(schedule: Seq<LayerPolicy>, layer: int, attention: AttentionPolicy)
    requires
        layer >= 0,
    ensures
        publisher_before(schedule, layer, attention) matches Some(publisher) ==> 0 <= publisher
            < layer && publishes(schedule, publisher, attention),
    decreases layer,
{
    if layer > 0 {
        lemma_publisher(schedule, layer - 1, attention);
    }
}

/// Every admissible division cuts at edges of the indivisible units.
pub(crate) proof fn lemma_edge_indices(schedule: Seq<LayerPolicy>, stages: int, other: Seq<int>) -> (indices:
    Seq<int>)
    requires
        stages >= 0,
        schedule.len() > 0,
        admissible(schedule, other, stages),
    ensures
        indices.len() == other.len(),
        increasing(indices),
        indices[0] == 0,
        indices[stages] == unit_edges(schedule).len() - 1,
        forall|i: int|
            0 <= i < other.len() ==> 0 <= #[trigger] indices[i] < unit_edges(schedule).len()
                && unit_edges(schedule)[indices[i]] == other[i],
{
    let edges = unit_edges(schedule);
    lemma_unit_edges(schedule);
    let indices = Seq::new(
        other.len(),
        |i: int| choose|k: int| 0 <= k < edges.len() && edges[k] == other[i],
    );
    assert forall|i: int| 0 <= i < other.len() implies 0 <= #[trigger] indices[i] < edges.len()
        && edges[indices[i]] == other[i] by {
        if i == 0 {
            assert(edges[0] == other[i]);
        } else if i == stages {
            assert(edges[edges.len() - 1] == other[i]);
        } else {
            assert(other[0] < other[i] < other[stages]);
            assert(edges.contains(other[i]));
        }
    }
    assert forall|i: int, j: int| 0 <= i < j < indices.len() implies indices[i] < indices[j] by {
        assert(other[i] < other[j]);
        if indices[j] < indices[i] {
            assert(edges[indices[j]] < edges[indices[i]]);
        }
    }
    if indices[0] != 0 {
        assert(edges[0] < edges[indices[0]]);
    }
    if indices[stages] != edges.len() - 1 {
        assert(edges[indices[stages]] < edges[edges.len() - 1]);
    }
    indices
}

/// Planned stages are balanced: no admissible division into as many stages has a lighter
/// heaviest stage.
pub proof fn law_stages_are_balanced(schedule: Seq<LayerPolicy>, stages: int, other: Seq<int>)
    requires
        stages >= 0,
        schedule.len() <= usize::MAX,
        pipeline_plan(schedule, stages) is Ok,
        admissible(schedule, other, stages),
    ensures
        heaviest(pipeline_plan(schedule, stages)->Ok_0) <= heaviest(other),
{
    let edges = unit_edges(schedule);
    lemma_unit_edges(schedule);
    lemma_chosen(edges, stages, edges.len() - 1);
    assert(stage_cuts(schedule, stages) =~= at_edges(
        edges,
        chosen_cuts(edges, stages, edges.len() - 1),
    ));
    let indices = lemma_edge_indices(schedule, stages, other);
    lemma_least(edges, indices);
    assert(at_edges(edges, indices) =~= other);
}

/// Planning succeeds whenever some admissible division exists and no layer is orphaned.
pub proof fn law_planning_is_complete(schedule: Seq<LayerPolicy>, stages: int, other: Seq<int>)
    requires
        stages > 0,
        schedule.len() > 0,
        first_orphan(schedule, schedule.len() as int) is None,
        admissible(schedule, other, stages),
    ensures
        pipeline_plan(schedule, stages) is Ok,
{
    let edges = unit_edges(schedule);
    lemma_unit_edges(schedule);
    let indices = lemma_edge_indices(schedule, stages, other);
    lemma_increasing_bound(indices, stages);
}

proof fn lemma_increasing_bound(values: Seq<int>, at: int)
    requires
        increasing(values),
        0 <= at < values.len(),
        values[0] >= 0,
    ensures
        values[at] >= at,
    decreases at,
{
    if at > 0 {
        lemma_increasing_bound(values, at - 1);
        assert(values[at - 1] < values[at]);
    }
}

} // verus!
