//! What a SafeTensors catalog asks of the media towers, name by name.

use crate::catalog_laws::{
    asks, has_sides, holds_layer, law_decoders_hold_every_layer, lemma_ask_kept, lemma_layer_kept,
    lemma_list_kept, lemma_width, lists, matrix_at, tensor_at,
};
use crate::family::{AudioConfig, FamilyConfig, VisionConfig};
use crate::plan_laws::{extends, lemma_extends};
use crate::safetensors::MatrixFormat;
use crate::safetensors_draft::{Draft, Entry};
use crate::safetensors_media::{
    audio_fault, audio_layer, audio_layers, audio_matrices, audio_norms, audio_part,
    audio_projection_part, audio_widths, convolution_part, patch_part, vision_fault, vision_layer,
    vision_layers, vision_part, vision_widths,
};
use crate::safetensors_plan::family_draft;
use crate::safetensors_text::text_draft;
use crate::text::decimal;
use vstd::prelude::*;

verus! {

/// Whether a matrix is asked for from `from` on, with the bounds of its inputs and outputs.
pub open spec fn clips(
    d: Draft,
    from: int,
    prefix: Seq<char>,
    sides: Seq<int>,
    format: MatrixFormat,
) -> bool {
    &&& asks(d, from, prefix + ".linear.weight"@, None, sides, format)
    &&& lists(d, from, prefix + ".input_min"@, Seq::empty(), Seq::empty())
    &&& lists(d, from, prefix + ".input_max"@, Seq::empty(), Seq::empty())
    &&& lists(d, from, prefix + ".output_min"@, Seq::empty(), Seq::empty())
    &&& lists(d, from, prefix + ".output_max"@, Seq::empty(), Seq::empty())
}

/// Whether `after` is `before` with some places and requests more.
spec fn adds(before: Draft, after: Draft, places: int, requests: int) -> bool {
    &&& extends(before, after)
    &&& after.groups == before.groups
    &&& after.failure == before.failure
    &&& after.common.len() == before.common.len() + places
    &&& after.requests.len() == before.requests.len() + requests
}

proof fn lemma_media(d: Draft, key: Seq<char>, shape: Seq<usize>, sides: Seq<int>)
    requires
        has_sides(shape, sides),
    ensures
        lists(d.media(key, shape), d.common.len() as int, key, Seq::empty(), sides),
        adds(d, d.media(key, shape), 1, 0),
{
    assert(tensor_at(d.media(key, shape), d.common.len() as int, key, Seq::empty(), sides));
}

proof fn lemma_tower(
    d: Draft,
    key: Seq<char>,
    shape: Seq<usize>,
    sides: Seq<int>,
    format: MatrixFormat,
)
    requires
        has_sides(shape, sides),
    ensures
        asks(d.tower(key, shape, format), d.common.len() as int, key, None, sides, format),
        adds(d, d.tower(key, shape, format), 1, 1),
{
    assert(matrix_at(
        d.tower(key, shape, format),
        d.common.len() as int,
        key,
        None,
        sides,
        format,
    ));
}

proof fn lemma_clipped(
    d: Draft,
    prefix: Seq<char>,
    shape: Seq<usize>,
    sides: Seq<int>,
    format: MatrixFormat,
)
    requires
        has_sides(shape, sides),
    ensures
        clips(d.clipped(prefix, shape, format), d.common.len() as int, prefix, sides, format),
        adds(d, d.clipped(prefix, shape, format), 5, 1),
{
    let after = d.clipped(prefix, shape, format);
    let from = d.common.len() as int;
    assert(matrix_at(after, from, prefix + ".linear.weight"@, None, sides, format));
    assert(tensor_at(after, from + 1, prefix + ".input_min"@, Seq::empty(), Seq::empty()));
    assert(tensor_at(after, from + 2, prefix + ".input_max"@, Seq::empty(), Seq::empty()));
    assert(tensor_at(after, from + 3, prefix + ".output_min"@, Seq::empty(), Seq::empty()));
    assert(tensor_at(after, from + 4, prefix + ".output_max"@, Seq::empty(), Seq::empty()));
}

proof fn lemma_clip_kept(
    before: Draft,
    after: Draft,
    from: int,
    earlier: int,
    prefix: Seq<char>,
    sides: Seq<int>,
    format: MatrixFormat,
)
    requires
        extends(before, after),
        0 <= earlier <= from,
        clips(before, from, prefix, sides, format),
    ensures
        clips(after, earlier, prefix, sides, format),
{
    let bounds = Seq::<int>::empty();
    lemma_ask_kept(before, after, from, prefix + ".linear.weight"@, None, sides, format);
    lemma_list_kept(before, after, from, prefix + ".input_min"@, Seq::empty(), bounds);
    lemma_list_kept(before, after, from, prefix + ".input_max"@, Seq::empty(), bounds);
    lemma_list_kept(before, after, from, prefix + ".output_min"@, Seq::empty(), bounds);
    lemma_list_kept(before, after, from, prefix + ".output_max"@, Seq::empty(), bounds);
}

/// Whether everything of a vision layer is there, each matrix with the shape that makes it compose
/// and its input width.
pub open spec fn holds_vision_layer(d: Draft, from: int, config: VisionConfig, layer: int) -> bool {
    let root = "model.vision_tower.encoder.layers."@ + decimal(layer as nat);
    let hidden = config.hidden_size as int;
    let intermediate = config.intermediate_size as int;
    let head = config.head_dim as int;
    let query = config.num_attention_heads * config.head_dim;
    let width = config.num_key_value_heads * config.head_dim;
    &&& lists(d, from, root + ".input_layernorm.weight"@, Seq::empty(), seq![hidden])
    &&& lists(d, from, root + ".post_attention_layernorm.weight"@, Seq::empty(), seq![hidden])
    &&& lists(d, from, root + ".pre_feedforward_layernorm.weight"@, Seq::empty(), seq![hidden])
    &&& lists(d, from, root + ".post_feedforward_layernorm.weight"@, Seq::empty(), seq![hidden])
    &&& clips(
        d,
        from,
        root + ".self_attn.q_proj"@,
        seq![query, hidden],
        MatrixFormat::Vision { input: hidden as i32 },
    )
    &&& clips(
        d,
        from,
        root + ".self_attn.k_proj"@,
        seq![width, hidden],
        MatrixFormat::Vision { input: hidden as i32 },
    )
    &&& clips(
        d,
        from,
        root + ".self_attn.v_proj"@,
        seq![width, hidden],
        MatrixFormat::Vision { input: hidden as i32 },
    )
    &&& clips(
        d,
        from,
        root + ".self_attn.o_proj"@,
        seq![hidden, query],
        MatrixFormat::Vision { input: query as i32 },
    )
    &&& clips(
        d,
        from,
        root + ".mlp.gate_proj"@,
        seq![intermediate, hidden],
        MatrixFormat::Vision { input: hidden as i32 },
    )
    &&& clips(
        d,
        from,
        root + ".mlp.up_proj"@,
        seq![intermediate, hidden],
        MatrixFormat::Vision { input: hidden as i32 },
    )
    &&& clips(
        d,
        from,
        root + ".mlp.down_proj"@,
        seq![hidden, intermediate],
        MatrixFormat::Vision { input: intermediate as i32 },
    )
    &&& lists(d, from, root + ".self_attn.q_norm.weight"@, Seq::empty(), seq![head])
    &&& lists(d, from, root + ".self_attn.k_norm.weight"@, Seq::empty(), seq![head])
}

proof fn lemma_holds_vision_layer_kept(
    before: Draft,
    after: Draft,
    from: int,
    earlier: int,
    config: VisionConfig,
    layer: int,
)
    requires
        extends(before, after),
        0 <= earlier <= from,
        holds_vision_layer(before, from, config, layer),
    ensures
        holds_vision_layer(after, earlier, config, layer),
{
    let root = "model.vision_tower.encoder.layers."@ + decimal(layer as nat);
    let hidden = config.hidden_size as int;
    let intermediate = config.intermediate_size as int;
    let head = config.head_dim as int;
    let query = config.num_attention_heads * config.head_dim;
    let width = config.num_key_value_heads * config.head_dim;
    lemma_list_kept(
        before,
        after,
        from,
        root + ".input_layernorm.weight"@,
        Seq::empty(),
        seq![hidden],
    );
    lemma_list_kept(
        before,
        after,
        from,
        root + ".post_attention_layernorm.weight"@,
        Seq::empty(),
        seq![hidden],
    );
    lemma_list_kept(
        before,
        after,
        from,
        root + ".pre_feedforward_layernorm.weight"@,
        Seq::empty(),
        seq![hidden],
    );
    lemma_list_kept(
        before,
        after,
        from,
        root + ".post_feedforward_layernorm.weight"@,
        Seq::empty(),
        seq![hidden],
    );
    lemma_clip_kept(
        before,
        after,
        from,
        earlier,
        root + ".self_attn.q_proj"@,
        seq![query, hidden],
        MatrixFormat::Vision { input: hidden as i32 },
    );
    lemma_clip_kept(
        before,
        after,
        from,
        earlier,
        root + ".self_attn.k_proj"@,
        seq![width, hidden],
        MatrixFormat::Vision { input: hidden as i32 },
    );
    lemma_clip_kept(
        before,
        after,
        from,
        earlier,
        root + ".self_attn.v_proj"@,
        seq![width, hidden],
        MatrixFormat::Vision { input: hidden as i32 },
    );
    lemma_clip_kept(
        before,
        after,
        from,
        earlier,
        root + ".self_attn.o_proj"@,
        seq![hidden, query],
        MatrixFormat::Vision { input: query as i32 },
    );
    lemma_clip_kept(
        before,
        after,
        from,
        earlier,
        root + ".mlp.gate_proj"@,
        seq![intermediate, hidden],
        MatrixFormat::Vision { input: hidden as i32 },
    );
    lemma_clip_kept(
        before,
        after,
        from,
        earlier,
        root + ".mlp.up_proj"@,
        seq![intermediate, hidden],
        MatrixFormat::Vision { input: hidden as i32 },
    );
    lemma_clip_kept(
        before,
        after,
        from,
        earlier,
        root + ".mlp.down_proj"@,
        seq![hidden, intermediate],
        MatrixFormat::Vision { input: intermediate as i32 },
    );
    lemma_list_kept(
        before,
        after,
        from,
        root + ".self_attn.q_norm.weight"@,
        Seq::empty(),
        seq![head],
    );
    lemma_list_kept(
        before,
        after,
        from,
        root + ".self_attn.k_norm.weight"@,
        Seq::empty(),
        seq![head],
    );
}

/// A tensor to list.
ghost struct Listed {
    key: Seq<char>,
    shape: Seq<usize>,
}

/// A matrix to ask for with its bounds.
ghost struct Clipped {
    prefix: Seq<char>,
    shape: Seq<usize>,
    format: MatrixFormat,
}

spec fn sides_of(shape: Seq<usize>) -> Seq<int> {
    Seq::new(shape.len(), |i: int| shape[i] as int)
}

spec fn listed_all(d: Draft, items: Seq<Listed>, end: int) -> Draft
    decreases end,
{
    if end <= 0 {
        d
    } else {
        listed_all(d, items, end - 1).media(items[end - 1].key, items[end - 1].shape)
    }
}

spec fn clipped_all(d: Draft, items: Seq<Clipped>, end: int) -> Draft
    decreases end,
{
    if end <= 0 {
        d
    } else {
        clipped_all(d, items, end - 1).clipped(
            items[end - 1].prefix,
            items[end - 1].shape,
            items[end - 1].format,
        )
    }
}

spec fn lists_item(d: Draft, from: int, item: Listed) -> bool {
    lists(d, from, item.key, Seq::empty(), sides_of(item.shape))
}

spec fn clips_item(d: Draft, from: int, item: Clipped) -> bool {
    clips(d, from, item.prefix, sides_of(item.shape), item.format)
}

proof fn lemma_listed_all(d: Draft, items: Seq<Listed>, end: int)
    requires
        0 <= end <= items.len(),
    ensures
        adds(d, listed_all(d, items, end), end, 0),
        forall|i: int|
            0 <= i < end ==> lists_item(
                listed_all(d, items, end),
                d.common.len() as int,
                #[trigger] items[i],
            ),
    decreases end,
{
    if end > 0 {
        let before = listed_all(d, items, end - 1);
        let after = listed_all(d, items, end);
        let from = d.common.len() as int;
        let last = items[end - 1];
        lemma_listed_all(d, items, end - 1);
        lemma_media(before, last.key, last.shape, sides_of(last.shape));
        lemma_extends(d, before, after);
        assert forall|i: int| 0 <= i < end implies lists_item(
            after,
            from,
            #[trigger] items[i],
        ) by {
            let item = items[i];
            let sides = sides_of(item.shape);
            if i < end - 1 {
                assert(lists_item(before, from, item));
                lemma_list_kept(before, after, from, item.key, Seq::empty(), sides);
            } else {
                lemma_list_kept(
                    after,
                    after,
                    before.common.len() as int,
                    item.key,
                    Seq::empty(),
                    sides,
                );
            }
        }
    }
}

proof fn lemma_clipped_all(d: Draft, items: Seq<Clipped>, end: int)
    requires
        0 <= end <= items.len(),
    ensures
        adds(d, clipped_all(d, items, end), 5 * end, end),
        forall|i: int|
            0 <= i < end ==> clips_item(
                clipped_all(d, items, end),
                d.common.len() as int,
                #[trigger] items[i],
            ),
    decreases end,
{
    if end > 0 {
        let before = clipped_all(d, items, end - 1);
        let after = clipped_all(d, items, end);
        let from = d.common.len() as int;
        let last = items[end - 1];
        lemma_clipped_all(d, items, end - 1);
        lemma_clipped(before, last.prefix, last.shape, sides_of(last.shape), last.format);
        lemma_extends(d, before, after);
        assert forall|i: int| 0 <= i < end implies clips_item(
            after,
            from,
            #[trigger] items[i],
        ) by {
            let item = items[i];
            let sides = sides_of(item.shape);
            if i < end - 1 {
                assert(clips_item(before, from, item));
                lemma_clip_kept(before, after, from, from, item.prefix, sides, item.format);
            } else {
                lemma_clip_kept(
                    after,
                    after,
                    before.common.len() as int,
                    from,
                    item.prefix,
                    sides,
                    item.format,
                );
            }
        }
    }
}

proof fn lemma_listed_kept(
    before: Draft,
    after: Draft,
    from: int,
    earlier: int,
    items: Seq<Listed>,
)
    requires
        extends(before, after),
        0 <= earlier <= from,
        forall|i: int|
            0 <= i < items.len() ==> lists_item(before, from, #[trigger] items[i]),
    ensures
        forall|i: int|
            0 <= i < items.len() ==> lists_item(after, earlier, #[trigger] items[i]),
{
    assert forall|i: int| 0 <= i < items.len() implies lists_item(
        after,
        earlier,
        #[trigger] items[i],
    ) by {
        lemma_list_kept(
            before,
            after,
            from,
            items[i].key,
            Seq::empty(),
            sides_of(items[i].shape),
        );
    }
}

proof fn lemma_clipped_kept(
    before: Draft,
    after: Draft,
    from: int,
    earlier: int,
    items: Seq<Clipped>,
)
    requires
        extends(before, after),
        0 <= earlier <= from,
        forall|i: int|
            0 <= i < items.len() ==> clips_item(before, from, #[trigger] items[i]),
    ensures
        forall|i: int|
            0 <= i < items.len() ==> clips_item(after, earlier, #[trigger] items[i]),
{
    assert forall|i: int| 0 <= i < items.len() implies clips_item(
        after,
        earlier,
        #[trigger] items[i],
    ) by {
        lemma_clip_kept(
            before,
            after,
            from,
            earlier,
            items[i].prefix,
            sides_of(items[i].shape),
            items[i].format,
        );
    }
}

proof fn lemma_stages(
    d: Draft,
    first: Seq<Listed>,
    second: Seq<Clipped>,
    third: Seq<Listed>,
    after: Draft,
)
    requires
        after == listed_all(
            clipped_all(
                listed_all(d, first, first.len() as int),
                second,
                second.len() as int,
            ),
            third,
            third.len() as int,
        ),
    ensures
        adds(
            d,
            after,
            first.len() as int + 5 * second.len() + third.len(),
            second.len() as int,
        ),
        forall|i: int|
            0 <= i < first.len() ==> lists_item(
                after,
                d.common.len() as int,
                #[trigger] first[i],
            ),
        forall|i: int|
            0 <= i < second.len() ==> clips_item(
                after,
                d.common.len() as int,
                #[trigger] second[i],
            ),
        forall|i: int|
            0 <= i < third.len() ==> lists_item(
                after,
                d.common.len() as int,
                #[trigger] third[i],
            ),
{
    let normed = listed_all(d, first, first.len() as int);
    let clipped = clipped_all(normed, second, second.len() as int);
    let from = d.common.len() as int;
    lemma_listed_all(d, first, first.len() as int);
    lemma_clipped_all(normed, second, second.len() as int);
    lemma_listed_all(clipped, third, third.len() as int);
    lemma_extends(normed, clipped, after);
    lemma_extends(d, normed, after);
    lemma_listed_kept(normed, after, from, from, first);
    lemma_clipped_kept(clipped, after, normed.common.len() as int, from, second);
    lemma_listed_kept(after, after, clipped.common.len() as int, from, third);
}

spec fn vision_norms(config: VisionConfig, layer: int) -> Seq<Listed> {
    let root = "model.vision_tower.encoder.layers."@ + decimal(layer as nat);
    let hidden = config.hidden_size as int;
    let intermediate = config.intermediate_size as int;
    let head = config.head_dim as int;
    let query = config.num_attention_heads * config.head_dim;
    let width = config.num_key_value_heads * config.head_dim;
    seq![
        Listed { key: root + ".input_layernorm.weight"@, shape: seq![hidden as usize] },
        Listed { key: root + ".post_attention_layernorm.weight"@, shape: seq![hidden as usize] },
        Listed { key: root + ".pre_feedforward_layernorm.weight"@, shape: seq![hidden as usize] },
        Listed { key: root + ".post_feedforward_layernorm.weight"@, shape: seq![hidden as usize] },
    ]
}

spec fn vision_matrices(config: VisionConfig, layer: int) -> Seq<Clipped> {
    let root = "model.vision_tower.encoder.layers."@ + decimal(layer as nat);
    let hidden = config.hidden_size as int;
    let intermediate = config.intermediate_size as int;
    let head = config.head_dim as int;
    let query = config.num_attention_heads * config.head_dim;
    let width = config.num_key_value_heads * config.head_dim;
    seq![
        Clipped { prefix: root + ".self_attn.q_proj"@, shape: seq![
            query as usize,
            hidden as usize,
        ], format: MatrixFormat::Vision { input: hidden as i32 } },
        Clipped { prefix: root + ".self_attn.k_proj"@, shape: seq![
            width as usize,
            hidden as usize,
        ], format: MatrixFormat::Vision { input: hidden as i32 } },
        Clipped { prefix: root + ".self_attn.v_proj"@, shape: seq![
            width as usize,
            hidden as usize,
        ], format: MatrixFormat::Vision { input: hidden as i32 } },
        Clipped { prefix: root + ".self_attn.o_proj"@, shape: seq![
            hidden as usize,
            query as usize,
        ], format: MatrixFormat::Vision { input: query as i32 } },
        Clipped { prefix: root + ".mlp.gate_proj"@, shape: seq![
            intermediate as usize,
            hidden as usize,
        ], format: MatrixFormat::Vision { input: hidden as i32 } },
        Clipped { prefix: root + ".mlp.up_proj"@, shape: seq![
            intermediate as usize,
            hidden as usize,
        ], format: MatrixFormat::Vision { input: hidden as i32 } },
        Clipped { prefix: root + ".mlp.down_proj"@, shape: seq![
            hidden as usize,
            intermediate as usize,
        ], format: MatrixFormat::Vision { input: intermediate as i32 } },
    ]
}

spec fn vision_heads(config: VisionConfig, layer: int) -> Seq<Listed> {
    let root = "model.vision_tower.encoder.layers."@ + decimal(layer as nat);
    let hidden = config.hidden_size as int;
    let intermediate = config.intermediate_size as int;
    let head = config.head_dim as int;
    let query = config.num_attention_heads * config.head_dim;
    let width = config.num_key_value_heads * config.head_dim;
    seq![
        Listed { key: root + ".self_attn.q_norm.weight"@, shape: seq![head as usize] },
        Listed { key: root + ".self_attn.k_norm.weight"@, shape: seq![head as usize] },
    ]
}

spec fn vision_norms_added(d: Draft, config: VisionConfig, layer: int) -> Draft {
    let root = "model.vision_tower.encoder.layers."@ + decimal(layer as nat);
    let hidden = config.hidden_size as int;
    let intermediate = config.intermediate_size as int;
    let head = config.head_dim as int;
    let query = config.num_attention_heads * config.head_dim;
    let width = config.num_key_value_heads * config.head_dim;
    d.media(
        root + ".input_layernorm.weight"@,
        seq![hidden as usize],
    ).media(
        root + ".post_attention_layernorm.weight"@,
        seq![hidden as usize],
    ).media(
        root + ".pre_feedforward_layernorm.weight"@,
        seq![hidden as usize],
    ).media(
        root + ".post_feedforward_layernorm.weight"@,
        seq![hidden as usize],
    )
}

proof fn lemma_vision_norms_are(d: Draft, config: VisionConfig, layer: int)
    requires
        vision_fault(config) is None,
    ensures
        listed_all(d, vision_norms(config, layer), 4) == vision_norms_added(d, config, layer),
{
    let root = "model.vision_tower.encoder.layers."@ + decimal(layer as nat);
    let hidden = config.hidden_size as int;
    let intermediate = config.intermediate_size as int;
    let head = config.head_dim as int;
    let query = config.num_attention_heads * config.head_dim;
    let width = config.num_key_value_heads * config.head_dim;
    lemma_width(config.num_attention_heads as int, head);
    lemma_width(config.num_key_value_heads as int, head);
    let items = vision_norms(config, layer);
    assert(listed_all(d, items, 0) == d);
    let d1 = d.media(root + ".input_layernorm.weight"@, seq![hidden as usize]);
    assert(listed_all(d, items, 1) == d1);
    let d2 = d1.media(root + ".post_attention_layernorm.weight"@, seq![hidden as usize]);
    assert(listed_all(d, items, 2) == d2);
    let d3 = d2.media(root + ".pre_feedforward_layernorm.weight"@, seq![hidden as usize]);
    assert(listed_all(d, items, 3) == d3);
    let d4 = d3.media(root + ".post_feedforward_layernorm.weight"@, seq![hidden as usize]);
    assert(listed_all(d, items, 4) == d4);
}

spec fn vision_matrices_added(d: Draft, config: VisionConfig, layer: int) -> Draft {
    let root = "model.vision_tower.encoder.layers."@ + decimal(layer as nat);
    let hidden = config.hidden_size as int;
    let intermediate = config.intermediate_size as int;
    let head = config.head_dim as int;
    let query = config.num_attention_heads * config.head_dim;
    let width = config.num_key_value_heads * config.head_dim;
    d.clipped(
        root + ".self_attn.q_proj"@,
        seq![query as usize, hidden as usize],
        MatrixFormat::Vision { input: hidden as i32 },
    ).clipped(
        root + ".self_attn.k_proj"@,
        seq![width as usize, hidden as usize],
        MatrixFormat::Vision { input: hidden as i32 },
    ).clipped(
        root + ".self_attn.v_proj"@,
        seq![width as usize, hidden as usize],
        MatrixFormat::Vision { input: hidden as i32 },
    ).clipped(
        root + ".self_attn.o_proj"@,
        seq![hidden as usize, query as usize],
        MatrixFormat::Vision { input: query as i32 },
    ).clipped(
        root + ".mlp.gate_proj"@,
        seq![intermediate as usize, hidden as usize],
        MatrixFormat::Vision { input: hidden as i32 },
    ).clipped(
        root + ".mlp.up_proj"@,
        seq![intermediate as usize, hidden as usize],
        MatrixFormat::Vision { input: hidden as i32 },
    ).clipped(
        root + ".mlp.down_proj"@,
        seq![hidden as usize, intermediate as usize],
        MatrixFormat::Vision { input: intermediate as i32 },
    )
}

proof fn lemma_vision_matrices_are(d: Draft, config: VisionConfig, layer: int)
    requires
        vision_fault(config) is None,
    ensures
        clipped_all(
            d,
            vision_matrices(config, layer),
            7,
        ) == vision_matrices_added(d, config, layer),
{
    let root = "model.vision_tower.encoder.layers."@ + decimal(layer as nat);
    let hidden = config.hidden_size as int;
    let intermediate = config.intermediate_size as int;
    let head = config.head_dim as int;
    let query = config.num_attention_heads * config.head_dim;
    let width = config.num_key_value_heads * config.head_dim;
    lemma_width(config.num_attention_heads as int, head);
    lemma_width(config.num_key_value_heads as int, head);
    let items = vision_matrices(config, layer);
    assert(clipped_all(d, items, 0) == d);
    let d1 = d.clipped(
        root + ".self_attn.q_proj"@,
        seq![query as usize, hidden as usize],
        MatrixFormat::Vision { input: hidden as i32 },
    );
    assert(clipped_all(d, items, 1) == d1);
    let d2 = d1.clipped(
        root + ".self_attn.k_proj"@,
        seq![width as usize, hidden as usize],
        MatrixFormat::Vision { input: hidden as i32 },
    );
    assert(clipped_all(d, items, 2) == d2);
    let d3 = d2.clipped(
        root + ".self_attn.v_proj"@,
        seq![width as usize, hidden as usize],
        MatrixFormat::Vision { input: hidden as i32 },
    );
    assert(clipped_all(d, items, 3) == d3);
    let d4 = d3.clipped(
        root + ".self_attn.o_proj"@,
        seq![hidden as usize, query as usize],
        MatrixFormat::Vision { input: query as i32 },
    );
    assert(clipped_all(d, items, 4) == d4);
    let d5 = d4.clipped(
        root + ".mlp.gate_proj"@,
        seq![intermediate as usize, hidden as usize],
        MatrixFormat::Vision { input: hidden as i32 },
    );
    assert(clipped_all(d, items, 5) == d5);
    let d6 = d5.clipped(
        root + ".mlp.up_proj"@,
        seq![intermediate as usize, hidden as usize],
        MatrixFormat::Vision { input: hidden as i32 },
    );
    assert(clipped_all(d, items, 6) == d6);
    let d7 = d6.clipped(
        root + ".mlp.down_proj"@,
        seq![hidden as usize, intermediate as usize],
        MatrixFormat::Vision { input: intermediate as i32 },
    );
    assert(clipped_all(d, items, 7) == d7);
}

spec fn vision_heads_added(d: Draft, config: VisionConfig, layer: int) -> Draft {
    let root = "model.vision_tower.encoder.layers."@ + decimal(layer as nat);
    let hidden = config.hidden_size as int;
    let intermediate = config.intermediate_size as int;
    let head = config.head_dim as int;
    let query = config.num_attention_heads * config.head_dim;
    let width = config.num_key_value_heads * config.head_dim;
    d.media(root + ".self_attn.q_norm.weight"@, seq![head as usize]).media(
        root + ".self_attn.k_norm.weight"@,
        seq![head as usize],
    )
}

proof fn lemma_vision_heads_are(d: Draft, config: VisionConfig, layer: int)
    requires
        vision_fault(config) is None,
    ensures
        listed_all(d, vision_heads(config, layer), 2) == vision_heads_added(d, config, layer),
{
    let root = "model.vision_tower.encoder.layers."@ + decimal(layer as nat);
    let hidden = config.hidden_size as int;
    let intermediate = config.intermediate_size as int;
    let head = config.head_dim as int;
    let query = config.num_attention_heads * config.head_dim;
    let width = config.num_key_value_heads * config.head_dim;
    lemma_width(config.num_attention_heads as int, head);
    lemma_width(config.num_key_value_heads as int, head);
    let items = vision_heads(config, layer);
    assert(listed_all(d, items, 0) == d);
    let d1 = d.media(root + ".self_attn.q_norm.weight"@, seq![head as usize]);
    assert(listed_all(d, items, 1) == d1);
    let d2 = d1.media(root + ".self_attn.k_norm.weight"@, seq![head as usize]);
    assert(listed_all(d, items, 2) == d2);
}

#[verifier::rlimit(50)]
proof fn lemma_vision_stages(d: Draft, config: VisionConfig, layer: int)
    requires
        vision_fault(config) is None,
    ensures
        vision_layer(d, vision_widths(config), layer) == listed_all(
            clipped_all(
                listed_all(d, vision_norms(config, layer), 4),
                vision_matrices(config, layer),
                7,
            ),
            vision_heads(config, layer),
            2,
        ),
{
    let root = "model.vision_tower.encoder.layers."@ + decimal(layer as nat);
    let hidden = config.hidden_size as int;
    let intermediate = config.intermediate_size as int;
    let head = config.head_dim as int;
    let query = config.num_attention_heads * config.head_dim;
    let width = config.num_key_value_heads * config.head_dim;
    lemma_width(config.num_attention_heads as int, head);
    lemma_width(config.num_key_value_heads as int, head);
    let normed = vision_norms_added(d, config, layer);
    let clipped = vision_matrices_added(normed, config, layer);
    lemma_vision_norms_are(d, config, layer);
    lemma_vision_matrices_are(normed, config, layer);
    lemma_vision_heads_are(clipped, config, layer);
}

proof fn lemma_vision_holds(d: Draft, after: Draft, config: VisionConfig, layer: int)
    requires
        vision_fault(config) is None,
        after == listed_all(
            clipped_all(
                listed_all(d, vision_norms(config, layer), 4),
                vision_matrices(config, layer),
                7,
            ),
            vision_heads(config, layer),
            2,
        ),
    ensures
        holds_vision_layer(after, d.common.len() as int, config, layer),
        adds(d, after, 41, 7),
{
    let from = d.common.len() as int;
    let root = "model.vision_tower.encoder.layers."@ + decimal(layer as nat);
    let hidden = config.hidden_size as int;
    let intermediate = config.intermediate_size as int;
    let head = config.head_dim as int;
    let query = config.num_attention_heads * config.head_dim;
    let width = config.num_key_value_heads * config.head_dim;
    lemma_width(config.num_attention_heads as int, head);
    lemma_width(config.num_key_value_heads as int, head);
    lemma_stages(
        d,
        vision_norms(config, layer),
        vision_matrices(config, layer),
        vision_heads(config, layer),
        after,
    );
    assert(sides_of(seq![hidden as usize]) =~= seq![hidden]);
    assert(sides_of(seq![query as usize, hidden as usize]) =~= seq![query, hidden]);
    assert(sides_of(seq![width as usize, hidden as usize]) =~= seq![width, hidden]);
    assert(sides_of(seq![hidden as usize, query as usize]) =~= seq![hidden, query]);
    assert(sides_of(seq![intermediate as usize, hidden as usize]) =~= seq![intermediate, hidden]);
    assert(sides_of(seq![hidden as usize, intermediate as usize]) =~= seq![hidden, intermediate]);
    assert(sides_of(seq![head as usize]) =~= seq![head]);
    assert(lists_item(after, from, vision_norms(config, layer)[0]));
    assert(lists_item(after, from, vision_norms(config, layer)[1]));
    assert(lists_item(after, from, vision_norms(config, layer)[2]));
    assert(lists_item(after, from, vision_norms(config, layer)[3]));
    assert(clips_item(after, from, vision_matrices(config, layer)[0]));
    assert(clips_item(after, from, vision_matrices(config, layer)[1]));
    assert(clips_item(after, from, vision_matrices(config, layer)[2]));
    assert(clips_item(after, from, vision_matrices(config, layer)[3]));
    assert(clips_item(after, from, vision_matrices(config, layer)[4]));
    assert(clips_item(after, from, vision_matrices(config, layer)[5]));
    assert(clips_item(after, from, vision_matrices(config, layer)[6]));
    assert(lists_item(after, from, vision_heads(config, layer)[0]));
    assert(lists_item(after, from, vision_heads(config, layer)[1]));
}

proof fn lemma_vision_layer(d: Draft, config: VisionConfig, layer: int)
    requires
        vision_fault(config) is None,
    ensures
        holds_vision_layer(
            vision_layer(d, vision_widths(config), layer),
            d.common.len() as int,
            config,
            layer,
        ),
        adds(d, vision_layer(d, vision_widths(config), layer), 41, 7),
{
    lemma_vision_stages(d, config, layer);
    lemma_vision_holds(d, vision_layer(d, vision_widths(config), layer), config, layer);
}

/// Whether the norms of an audio layer are there.
pub open spec fn holds_audio_norms(d: Draft, from: int, config: AudioConfig, layer: int) -> bool {
    let root = "model.audio_tower.layers."@ + decimal(layer as nat);
    let hidden = config.hidden_size as int;
    let head = config.head_dim as int;
    let kernel = config.conv_kernel_size as int;
    &&& lists(d, from, root + ".feed_forward1.pre_layer_norm.weight"@, Seq::empty(), seq![hidden])
    &&& lists(d, from, root + ".feed_forward1.post_layer_norm.weight"@, Seq::empty(), seq![hidden])
    &&& lists(d, from, root + ".norm_pre_attn.weight"@, Seq::empty(), seq![hidden])
    &&& lists(d, from, root + ".norm_post_attn.weight"@, Seq::empty(), seq![hidden])
    &&& lists(d, from, root + ".lconv1d.pre_layer_norm.weight"@, Seq::empty(), seq![hidden])
    &&& lists(d, from, root + ".lconv1d.conv_norm.weight"@, Seq::empty(), seq![hidden])
    &&& lists(d, from, root + ".feed_forward2.pre_layer_norm.weight"@, Seq::empty(), seq![hidden])
    &&& lists(d, from, root + ".feed_forward2.post_layer_norm.weight"@, Seq::empty(), seq![hidden])
    &&& lists(d, from, root + ".norm_out.weight"@, Seq::empty(), seq![hidden])
}

proof fn lemma_holds_audio_norms_kept(
    before: Draft,
    after: Draft,
    from: int,
    earlier: int,
    config: AudioConfig,
    layer: int,
)
    requires
        extends(before, after),
        0 <= earlier <= from,
        holds_audio_norms(before, from, config, layer),
    ensures
        holds_audio_norms(after, earlier, config, layer),
{
    let root = "model.audio_tower.layers."@ + decimal(layer as nat);
    let hidden = config.hidden_size as int;
    let head = config.head_dim as int;
    let kernel = config.conv_kernel_size as int;
    lemma_list_kept(
        before,
        after,
        from,
        root + ".feed_forward1.pre_layer_norm.weight"@,
        Seq::empty(),
        seq![hidden],
    );
    lemma_list_kept(
        before,
        after,
        from,
        root + ".feed_forward1.post_layer_norm.weight"@,
        Seq::empty(),
        seq![hidden],
    );
    lemma_list_kept(
        before,
        after,
        from,
        root + ".norm_pre_attn.weight"@,
        Seq::empty(),
        seq![hidden],
    );
    lemma_list_kept(
        before,
        after,
        from,
        root + ".norm_post_attn.weight"@,
        Seq::empty(),
        seq![hidden],
    );
    lemma_list_kept(
        before,
        after,
        from,
        root + ".lconv1d.pre_layer_norm.weight"@,
        Seq::empty(),
        seq![hidden],
    );
    lemma_list_kept(
        before,
        after,
        from,
        root + ".lconv1d.conv_norm.weight"@,
        Seq::empty(),
        seq![hidden],
    );
    lemma_list_kept(
        before,
        after,
        from,
        root + ".feed_forward2.pre_layer_norm.weight"@,
        Seq::empty(),
        seq![hidden],
    );
    lemma_list_kept(
        before,
        after,
        from,
        root + ".feed_forward2.post_layer_norm.weight"@,
        Seq::empty(),
        seq![hidden],
    );
    lemma_list_kept(before, after, from, root + ".norm_out.weight"@, Seq::empty(), seq![hidden]);
}

/// Whether the matrices of an audio layer are there, each with the shape that makes it compose and
/// its input width.
pub open spec fn holds_audio_matrices(
    d: Draft,
    from: int,
    config: AudioConfig,
    layer: int,
) -> bool {
    let root = "model.audio_tower.layers."@ + decimal(layer as nat);
    let hidden = config.hidden_size as int;
    let head = config.head_dim as int;
    let kernel = config.conv_kernel_size as int;
    &&& clips(
        d,
        from,
        root + ".feed_forward1.ffw_layer_1"@,
        seq![4 * hidden, hidden],
        MatrixFormat::Audio { input: hidden as i32 },
    )
    &&& clips(
        d,
        from,
        root + ".feed_forward1.ffw_layer_2"@,
        seq![hidden, 4 * hidden],
        MatrixFormat::Audio { input: (4 * hidden) as i32 },
    )
    &&& clips(
        d,
        from,
        root + ".self_attn.q_proj"@,
        seq![hidden, hidden],
        MatrixFormat::Audio { input: hidden as i32 },
    )
    &&& clips(
        d,
        from,
        root + ".self_attn.k_proj"@,
        seq![hidden, hidden],
        MatrixFormat::Audio { input: hidden as i32 },
    )
    &&& clips(
        d,
        from,
        root + ".self_attn.v_proj"@,
        seq![hidden, hidden],
        MatrixFormat::Audio { input: hidden as i32 },
    )
    &&& clips(
        d,
        from,
        root + ".self_attn.post"@,
        seq![hidden, hidden],
        MatrixFormat::Audio { input: hidden as i32 },
    )
    &&& clips(
        d,
        from,
        root + ".lconv1d.linear_start"@,
        seq![2 * hidden, hidden],
        MatrixFormat::Audio { input: hidden as i32 },
    )
    &&& clips(
        d,
        from,
        root + ".lconv1d.linear_end"@,
        seq![hidden, hidden],
        MatrixFormat::Audio { input: hidden as i32 },
    )
    &&& clips(
        d,
        from,
        root + ".feed_forward2.ffw_layer_1"@,
        seq![4 * hidden, hidden],
        MatrixFormat::Audio { input: hidden as i32 },
    )
    &&& clips(
        d,
        from,
        root + ".feed_forward2.ffw_layer_2"@,
        seq![hidden, 4 * hidden],
        MatrixFormat::Audio { input: (4 * hidden) as i32 },
    )
}

proof fn lemma_holds_audio_matrices_kept(
    before: Draft,
    after: Draft,
    from: int,
    earlier: int,
    config: AudioConfig,
    layer: int,
)
    requires
        extends(before, after),
        0 <= earlier <= from,
        holds_audio_matrices(before, from, config, layer),
    ensures
        holds_audio_matrices(after, earlier, config, layer),
{
    let root = "model.audio_tower.layers."@ + decimal(layer as nat);
    let hidden = config.hidden_size as int;
    let head = config.head_dim as int;
    let kernel = config.conv_kernel_size as int;
    lemma_clip_kept(
        before,
        after,
        from,
        earlier,
        root + ".feed_forward1.ffw_layer_1"@,
        seq![4 * hidden, hidden],
        MatrixFormat::Audio { input: hidden as i32 },
    );
    lemma_clip_kept(
        before,
        after,
        from,
        earlier,
        root + ".feed_forward1.ffw_layer_2"@,
        seq![hidden, 4 * hidden],
        MatrixFormat::Audio { input: (4 * hidden) as i32 },
    );
    lemma_clip_kept(
        before,
        after,
        from,
        earlier,
        root + ".self_attn.q_proj"@,
        seq![hidden, hidden],
        MatrixFormat::Audio { input: hidden as i32 },
    );
    lemma_clip_kept(
        before,
        after,
        from,
        earlier,
        root + ".self_attn.k_proj"@,
        seq![hidden, hidden],
        MatrixFormat::Audio { input: hidden as i32 },
    );
    lemma_clip_kept(
        before,
        after,
        from,
        earlier,
        root + ".self_attn.v_proj"@,
        seq![hidden, hidden],
        MatrixFormat::Audio { input: hidden as i32 },
    );
    lemma_clip_kept(
        before,
        after,
        from,
        earlier,
        root + ".self_attn.post"@,
        seq![hidden, hidden],
        MatrixFormat::Audio { input: hidden as i32 },
    );
    lemma_clip_kept(
        before,
        after,
        from,
        earlier,
        root + ".lconv1d.linear_start"@,
        seq![2 * hidden, hidden],
        MatrixFormat::Audio { input: hidden as i32 },
    );
    lemma_clip_kept(
        before,
        after,
        from,
        earlier,
        root + ".lconv1d.linear_end"@,
        seq![hidden, hidden],
        MatrixFormat::Audio { input: hidden as i32 },
    );
    lemma_clip_kept(
        before,
        after,
        from,
        earlier,
        root + ".feed_forward2.ffw_layer_1"@,
        seq![4 * hidden, hidden],
        MatrixFormat::Audio { input: hidden as i32 },
    );
    lemma_clip_kept(
        before,
        after,
        from,
        earlier,
        root + ".feed_forward2.ffw_layer_2"@,
        seq![hidden, 4 * hidden],
        MatrixFormat::Audio { input: (4 * hidden) as i32 },
    );
}

/// Whether the position projection, scale, and depthwise convolution of an audio layer are there.
pub open spec fn holds_audio_convolution(
    d: Draft,
    from: int,
    config: AudioConfig,
    layer: int,
) -> bool {
    let root = "model.audio_tower.layers."@ + decimal(layer as nat);
    let hidden = config.hidden_size as int;
    let head = config.head_dim as int;
    let kernel = config.conv_kernel_size as int;
    &&& lists(
        d,
        from,
        root + ".self_attn.relative_k_proj.weight"@,
        Seq::empty(),
        seq![hidden, hidden],
    )
    &&& lists(d, from, root + ".self_attn.per_dim_scale"@, Seq::empty(), seq![head])
    &&& lists(
        d,
        from,
        root + ".lconv1d.depthwise_conv1d.weight"@,
        Seq::empty(),
        seq![hidden, kernel, 1int],
    )
}

proof fn lemma_holds_audio_convolution_kept(
    before: Draft,
    after: Draft,
    from: int,
    earlier: int,
    config: AudioConfig,
    layer: int,
)
    requires
        extends(before, after),
        0 <= earlier <= from,
        holds_audio_convolution(before, from, config, layer),
    ensures
        holds_audio_convolution(after, earlier, config, layer),
{
    let root = "model.audio_tower.layers."@ + decimal(layer as nat);
    let hidden = config.hidden_size as int;
    let head = config.head_dim as int;
    let kernel = config.conv_kernel_size as int;
    lemma_list_kept(
        before,
        after,
        from,
        root + ".self_attn.relative_k_proj.weight"@,
        Seq::empty(),
        seq![hidden, hidden],
    );
    lemma_list_kept(
        before,
        after,
        from,
        root + ".self_attn.per_dim_scale"@,
        Seq::empty(),
        seq![head],
    );
    lemma_list_kept(
        before,
        after,
        from,
        root + ".lconv1d.depthwise_conv1d.weight"@,
        Seq::empty(),
        seq![hidden, kernel, 1int],
    );
}

/// Whether everything of an audio layer is there.
pub open spec fn holds_audio_layer(d: Draft, from: int, config: AudioConfig, layer: int) -> bool {
    &&& holds_audio_norms(d, from, config, layer)
    &&& holds_audio_matrices(d, from, config, layer)
    &&& holds_audio_convolution(d, from, config, layer)
}

proof fn lemma_audio_layer_kept(
    before: Draft,
    after: Draft,
    from: int,
    earlier: int,
    config: AudioConfig,
    layer: int,
)
    requires
        extends(before, after),
        0 <= earlier <= from,
        holds_audio_layer(before, from, config, layer),
    ensures
        holds_audio_layer(after, earlier, config, layer),
{
    lemma_holds_audio_norms_kept(before, after, from, earlier, config, layer);
    lemma_holds_audio_matrices_kept(before, after, from, earlier, config, layer);
    lemma_holds_audio_convolution_kept(before, after, from, earlier, config, layer);
}

spec fn audio_norm_items(config: AudioConfig, layer: int) -> Seq<Listed> {
    let root = "model.audio_tower.layers."@ + decimal(layer as nat);
    let hidden = config.hidden_size as int;
    let head = config.head_dim as int;
    let kernel = config.conv_kernel_size as int;
    seq![
        Listed { key: root + ".feed_forward1.pre_layer_norm.weight"@, shape: seq![hidden as usize] },
        Listed { key: root + ".feed_forward1.post_layer_norm.weight"@, shape: seq![hidden as usize] },
        Listed { key: root + ".norm_pre_attn.weight"@, shape: seq![hidden as usize] },
        Listed { key: root + ".norm_post_attn.weight"@, shape: seq![hidden as usize] },
        Listed { key: root + ".lconv1d.pre_layer_norm.weight"@, shape: seq![hidden as usize] },
        Listed { key: root + ".lconv1d.conv_norm.weight"@, shape: seq![hidden as usize] },
        Listed { key: root + ".feed_forward2.pre_layer_norm.weight"@, shape: seq![hidden as usize] },
        Listed { key: root + ".feed_forward2.post_layer_norm.weight"@, shape: seq![hidden as usize] },
        Listed { key: root + ".norm_out.weight"@, shape: seq![hidden as usize] },
    ]
}

spec fn audio_matrix_items(config: AudioConfig, layer: int) -> Seq<Clipped> {
    let root = "model.audio_tower.layers."@ + decimal(layer as nat);
    let hidden = config.hidden_size as int;
    let head = config.head_dim as int;
    let kernel = config.conv_kernel_size as int;
    seq![
        Clipped { prefix: root + ".feed_forward1.ffw_layer_1"@, shape: seq![
            (4 * hidden) as usize,
            hidden as usize,
        ], format: MatrixFormat::Audio { input: hidden as i32 } },
        Clipped { prefix: root + ".feed_forward1.ffw_layer_2"@, shape: seq![
            hidden as usize,
            (4 * hidden) as usize,
        ], format: MatrixFormat::Audio { input: (4 * hidden) as i32 } },
        Clipped { prefix: root + ".self_attn.q_proj"@, shape: seq![
            hidden as usize,
            hidden as usize,
        ], format: MatrixFormat::Audio { input: hidden as i32 } },
        Clipped { prefix: root + ".self_attn.k_proj"@, shape: seq![
            hidden as usize,
            hidden as usize,
        ], format: MatrixFormat::Audio { input: hidden as i32 } },
        Clipped { prefix: root + ".self_attn.v_proj"@, shape: seq![
            hidden as usize,
            hidden as usize,
        ], format: MatrixFormat::Audio { input: hidden as i32 } },
        Clipped { prefix: root + ".self_attn.post"@, shape: seq![
            hidden as usize,
            hidden as usize,
        ], format: MatrixFormat::Audio { input: hidden as i32 } },
        Clipped { prefix: root + ".lconv1d.linear_start"@, shape: seq![
            (2 * hidden) as usize,
            hidden as usize,
        ], format: MatrixFormat::Audio { input: hidden as i32 } },
        Clipped { prefix: root + ".lconv1d.linear_end"@, shape: seq![
            hidden as usize,
            hidden as usize,
        ], format: MatrixFormat::Audio { input: hidden as i32 } },
        Clipped { prefix: root + ".feed_forward2.ffw_layer_1"@, shape: seq![
            (4 * hidden) as usize,
            hidden as usize,
        ], format: MatrixFormat::Audio { input: hidden as i32 } },
        Clipped { prefix: root + ".feed_forward2.ffw_layer_2"@, shape: seq![
            hidden as usize,
            (4 * hidden) as usize,
        ], format: MatrixFormat::Audio { input: (4 * hidden) as i32 } },
    ]
}

spec fn audio_end_items(config: AudioConfig, layer: int) -> Seq<Listed> {
    let root = "model.audio_tower.layers."@ + decimal(layer as nat);
    let hidden = config.hidden_size as int;
    let head = config.head_dim as int;
    let kernel = config.conv_kernel_size as int;
    seq![
        Listed { key: root + ".self_attn.relative_k_proj.weight"@, shape: seq![
            hidden as usize,
            hidden as usize,
        ] },
        Listed { key: root + ".self_attn.per_dim_scale"@, shape: seq![head as usize] },
        Listed { key: root + ".lconv1d.depthwise_conv1d.weight"@, shape: seq![
            hidden as usize,
            kernel as usize,
            1usize,
        ] },
    ]
}

spec fn audio_norm_items_added(d: Draft, config: AudioConfig, layer: int) -> Draft {
    let root = "model.audio_tower.layers."@ + decimal(layer as nat);
    let hidden = config.hidden_size as int;
    let head = config.head_dim as int;
    let kernel = config.conv_kernel_size as int;
    d.media(
        root + ".feed_forward1.pre_layer_norm.weight"@,
        seq![hidden as usize],
    ).media(
        root + ".feed_forward1.post_layer_norm.weight"@,
        seq![hidden as usize],
    ).media(
        root + ".norm_pre_attn.weight"@,
        seq![hidden as usize],
    ).media(
        root + ".norm_post_attn.weight"@,
        seq![hidden as usize],
    ).media(
        root + ".lconv1d.pre_layer_norm.weight"@,
        seq![hidden as usize],
    ).media(
        root + ".lconv1d.conv_norm.weight"@,
        seq![hidden as usize],
    ).media(
        root + ".feed_forward2.pre_layer_norm.weight"@,
        seq![hidden as usize],
    ).media(
        root + ".feed_forward2.post_layer_norm.weight"@,
        seq![hidden as usize],
    ).media(
        root + ".norm_out.weight"@,
        seq![hidden as usize],
    )
}

proof fn lemma_audio_norm_items_are(d: Draft, config: AudioConfig, layer: int)
    requires
        config.hidden_size > 0,
    ensures
        listed_all(
            d,
            audio_norm_items(config, layer),
            9,
        ) == audio_norm_items_added(d, config, layer),
{
    let root = "model.audio_tower.layers."@ + decimal(layer as nat);
    let hidden = config.hidden_size as int;
    let head = config.head_dim as int;
    let kernel = config.conv_kernel_size as int;
    let items = audio_norm_items(config, layer);
    assert(listed_all(d, items, 0) == d);
    let d1 = d.media(root + ".feed_forward1.pre_layer_norm.weight"@, seq![hidden as usize]);
    assert(listed_all(d, items, 1) == d1);
    let d2 = d1.media(root + ".feed_forward1.post_layer_norm.weight"@, seq![hidden as usize]);
    assert(listed_all(d, items, 2) == d2);
    let d3 = d2.media(root + ".norm_pre_attn.weight"@, seq![hidden as usize]);
    assert(listed_all(d, items, 3) == d3);
    let d4 = d3.media(root + ".norm_post_attn.weight"@, seq![hidden as usize]);
    assert(listed_all(d, items, 4) == d4);
    let d5 = d4.media(root + ".lconv1d.pre_layer_norm.weight"@, seq![hidden as usize]);
    assert(listed_all(d, items, 5) == d5);
    let d6 = d5.media(root + ".lconv1d.conv_norm.weight"@, seq![hidden as usize]);
    assert(listed_all(d, items, 6) == d6);
    let d7 = d6.media(root + ".feed_forward2.pre_layer_norm.weight"@, seq![hidden as usize]);
    assert(listed_all(d, items, 7) == d7);
    let d8 = d7.media(root + ".feed_forward2.post_layer_norm.weight"@, seq![hidden as usize]);
    assert(listed_all(d, items, 8) == d8);
    let d9 = d8.media(root + ".norm_out.weight"@, seq![hidden as usize]);
    assert(listed_all(d, items, 9) == d9);
}

spec fn audio_matrix_items_added(d: Draft, config: AudioConfig, layer: int) -> Draft {
    let root = "model.audio_tower.layers."@ + decimal(layer as nat);
    let hidden = config.hidden_size as int;
    let head = config.head_dim as int;
    let kernel = config.conv_kernel_size as int;
    d.clipped(
        root + ".feed_forward1.ffw_layer_1"@,
        seq![(4 * hidden) as usize, hidden as usize],
        MatrixFormat::Audio { input: hidden as i32 },
    ).clipped(
        root + ".feed_forward1.ffw_layer_2"@,
        seq![hidden as usize, (4 * hidden) as usize],
        MatrixFormat::Audio { input: (4 * hidden) as i32 },
    ).clipped(
        root + ".self_attn.q_proj"@,
        seq![hidden as usize, hidden as usize],
        MatrixFormat::Audio { input: hidden as i32 },
    ).clipped(
        root + ".self_attn.k_proj"@,
        seq![hidden as usize, hidden as usize],
        MatrixFormat::Audio { input: hidden as i32 },
    ).clipped(
        root + ".self_attn.v_proj"@,
        seq![hidden as usize, hidden as usize],
        MatrixFormat::Audio { input: hidden as i32 },
    ).clipped(
        root + ".self_attn.post"@,
        seq![hidden as usize, hidden as usize],
        MatrixFormat::Audio { input: hidden as i32 },
    ).clipped(
        root + ".lconv1d.linear_start"@,
        seq![(2 * hidden) as usize, hidden as usize],
        MatrixFormat::Audio { input: hidden as i32 },
    ).clipped(
        root + ".lconv1d.linear_end"@,
        seq![hidden as usize, hidden as usize],
        MatrixFormat::Audio { input: hidden as i32 },
    ).clipped(
        root + ".feed_forward2.ffw_layer_1"@,
        seq![(4 * hidden) as usize, hidden as usize],
        MatrixFormat::Audio { input: hidden as i32 },
    ).clipped(
        root + ".feed_forward2.ffw_layer_2"@,
        seq![hidden as usize, (4 * hidden) as usize],
        MatrixFormat::Audio { input: (4 * hidden) as i32 },
    )
}

proof fn lemma_audio_matrix_items_are(d: Draft, config: AudioConfig, layer: int)
    requires
        config.hidden_size > 0,
    ensures
        clipped_all(
            d,
            audio_matrix_items(config, layer),
            10,
        ) == audio_matrix_items_added(d, config, layer),
{
    let root = "model.audio_tower.layers."@ + decimal(layer as nat);
    let hidden = config.hidden_size as int;
    let head = config.head_dim as int;
    let kernel = config.conv_kernel_size as int;
    let items = audio_matrix_items(config, layer);
    assert(clipped_all(d, items, 0) == d);
    let d1 = d.clipped(
        root + ".feed_forward1.ffw_layer_1"@,
        seq![(4 * hidden) as usize, hidden as usize],
        MatrixFormat::Audio { input: hidden as i32 },
    );
    assert(clipped_all(d, items, 1) == d1);
    let d2 = d1.clipped(
        root + ".feed_forward1.ffw_layer_2"@,
        seq![hidden as usize, (4 * hidden) as usize],
        MatrixFormat::Audio { input: (4 * hidden) as i32 },
    );
    assert(clipped_all(d, items, 2) == d2);
    let d3 = d2.clipped(
        root + ".self_attn.q_proj"@,
        seq![hidden as usize, hidden as usize],
        MatrixFormat::Audio { input: hidden as i32 },
    );
    assert(clipped_all(d, items, 3) == d3);
    let d4 = d3.clipped(
        root + ".self_attn.k_proj"@,
        seq![hidden as usize, hidden as usize],
        MatrixFormat::Audio { input: hidden as i32 },
    );
    assert(clipped_all(d, items, 4) == d4);
    let d5 = d4.clipped(
        root + ".self_attn.v_proj"@,
        seq![hidden as usize, hidden as usize],
        MatrixFormat::Audio { input: hidden as i32 },
    );
    assert(clipped_all(d, items, 5) == d5);
    let d6 = d5.clipped(
        root + ".self_attn.post"@,
        seq![hidden as usize, hidden as usize],
        MatrixFormat::Audio { input: hidden as i32 },
    );
    assert(clipped_all(d, items, 6) == d6);
    let d7 = d6.clipped(
        root + ".lconv1d.linear_start"@,
        seq![(2 * hidden) as usize, hidden as usize],
        MatrixFormat::Audio { input: hidden as i32 },
    );
    assert(clipped_all(d, items, 7) == d7);
    let d8 = d7.clipped(
        root + ".lconv1d.linear_end"@,
        seq![hidden as usize, hidden as usize],
        MatrixFormat::Audio { input: hidden as i32 },
    );
    assert(clipped_all(d, items, 8) == d8);
    let d9 = d8.clipped(
        root + ".feed_forward2.ffw_layer_1"@,
        seq![(4 * hidden) as usize, hidden as usize],
        MatrixFormat::Audio { input: hidden as i32 },
    );
    assert(clipped_all(d, items, 9) == d9);
    let d10 = d9.clipped(
        root + ".feed_forward2.ffw_layer_2"@,
        seq![hidden as usize, (4 * hidden) as usize],
        MatrixFormat::Audio { input: (4 * hidden) as i32 },
    );
    assert(clipped_all(d, items, 10) == d10);
}

spec fn audio_end_items_added(d: Draft, config: AudioConfig, layer: int) -> Draft {
    let root = "model.audio_tower.layers."@ + decimal(layer as nat);
    let hidden = config.hidden_size as int;
    let head = config.head_dim as int;
    let kernel = config.conv_kernel_size as int;
    d.media(
        root + ".self_attn.relative_k_proj.weight"@,
        seq![hidden as usize, hidden as usize],
    ).media(
        root + ".self_attn.per_dim_scale"@,
        seq![head as usize],
    ).media(
        root + ".lconv1d.depthwise_conv1d.weight"@,
        seq![hidden as usize, kernel as usize, 1usize],
    )
}

proof fn lemma_audio_end_items_are(d: Draft, config: AudioConfig, layer: int)
    requires
        config.hidden_size > 0,
    ensures
        listed_all(d, audio_end_items(config, layer), 3) == audio_end_items_added(d, config, layer),
{
    let root = "model.audio_tower.layers."@ + decimal(layer as nat);
    let hidden = config.hidden_size as int;
    let head = config.head_dim as int;
    let kernel = config.conv_kernel_size as int;
    let items = audio_end_items(config, layer);
    assert(listed_all(d, items, 0) == d);
    let d1 = d.media(
        root + ".self_attn.relative_k_proj.weight"@,
        seq![hidden as usize, hidden as usize],
    );
    assert(listed_all(d, items, 1) == d1);
    let d2 = d1.media(root + ".self_attn.per_dim_scale"@, seq![head as usize]);
    assert(listed_all(d, items, 2) == d2);
    let d3 = d2.media(
        root + ".lconv1d.depthwise_conv1d.weight"@,
        seq![hidden as usize, kernel as usize, 1usize],
    );
    assert(listed_all(d, items, 3) == d3);
}

#[verifier::rlimit(50)]
proof fn lemma_audio_stages(d: Draft, config: AudioConfig, layer: int)
    requires
        config.hidden_size > 0,
        audio_layer(d, config, layer).failure is None,
    ensures
        audio_layer(d, config, layer) == listed_all(
            clipped_all(
                listed_all(d, audio_norm_items(config, layer), 9),
                audio_matrix_items(config, layer),
                10,
            ),
            audio_end_items(config, layer),
            3,
        ),
{
    let normed = audio_norm_items_added(d, config, layer);
    let clipped = audio_matrix_items_added(normed, config, layer);
    lemma_audio_norm_items_are(d, config, layer);
    lemma_audio_matrix_items_are(normed, config, layer);
    lemma_audio_end_items_are(clipped, config, layer);
    assert(normed == audio_norms(d, config.hidden_size as usize, layer));
    assert(clipped == audio_matrices(normed, config.hidden_size as usize, layer));
}

proof fn lemma_audio_holds(d: Draft, after: Draft, config: AudioConfig, layer: int)
    requires
        config.hidden_size > 0,
        4 * config.hidden_size <= usize::MAX,
        config.conv_kernel_size > 0,
        after == listed_all(
            clipped_all(
                listed_all(d, audio_norm_items(config, layer), 9),
                audio_matrix_items(config, layer),
                10,
            ),
            audio_end_items(config, layer),
            3,
        ),
    ensures
        config.head_dim >= 0 ==> holds_audio_layer(
            after,
            d.common.len() as int,
            config,
            layer,
        ),
        adds(d, after, 62, 10),
{
    let from = d.common.len() as int;
    let root = "model.audio_tower.layers."@ + decimal(layer as nat);
    let hidden = config.hidden_size as int;
    let head = config.head_dim as int;
    let kernel = config.conv_kernel_size as int;
    lemma_stages(
        d,
        audio_norm_items(config, layer),
        audio_matrix_items(config, layer),
        audio_end_items(config, layer),
        after,
    );
    if config.head_dim >= 0 {
        assert(sides_of(seq![hidden as usize]) =~= seq![hidden]);
        assert(sides_of(seq![(4 * hidden) as usize, hidden as usize]) =~= seq![4 * hidden, hidden]);
        assert(sides_of(seq![hidden as usize, (4 * hidden) as usize]) =~= seq![hidden, 4 * hidden]);
        assert(sides_of(seq![hidden as usize, hidden as usize]) =~= seq![hidden, hidden]);
        assert(sides_of(seq![(2 * hidden) as usize, hidden as usize]) =~= seq![2 * hidden, hidden]);
        assert(sides_of(seq![head as usize]) =~= seq![head]);
        assert(
            sides_of(seq![hidden as usize, kernel as usize, 1usize]) =~= seq![hidden, kernel, 1int]
        );
        assert(lists_item(after, from, audio_norm_items(config, layer)[0]));
        assert(lists_item(after, from, audio_norm_items(config, layer)[1]));
        assert(lists_item(after, from, audio_norm_items(config, layer)[2]));
        assert(lists_item(after, from, audio_norm_items(config, layer)[3]));
        assert(lists_item(after, from, audio_norm_items(config, layer)[4]));
        assert(lists_item(after, from, audio_norm_items(config, layer)[5]));
        assert(lists_item(after, from, audio_norm_items(config, layer)[6]));
        assert(lists_item(after, from, audio_norm_items(config, layer)[7]));
        assert(lists_item(after, from, audio_norm_items(config, layer)[8]));
        assert(clips_item(after, from, audio_matrix_items(config, layer)[0]));
        assert(clips_item(after, from, audio_matrix_items(config, layer)[1]));
        assert(clips_item(after, from, audio_matrix_items(config, layer)[2]));
        assert(clips_item(after, from, audio_matrix_items(config, layer)[3]));
        assert(clips_item(after, from, audio_matrix_items(config, layer)[4]));
        assert(clips_item(after, from, audio_matrix_items(config, layer)[5]));
        assert(clips_item(after, from, audio_matrix_items(config, layer)[6]));
        assert(clips_item(after, from, audio_matrix_items(config, layer)[7]));
        assert(clips_item(after, from, audio_matrix_items(config, layer)[8]));
        assert(clips_item(after, from, audio_matrix_items(config, layer)[9]));
        assert(lists_item(after, from, audio_end_items(config, layer)[0]));
        assert(lists_item(after, from, audio_end_items(config, layer)[1]));
        assert(lists_item(after, from, audio_end_items(config, layer)[2]));
    }
}

proof fn lemma_audio_layer(d: Draft, config: AudioConfig, layer: int)
    requires
        config.hidden_size > 0,
        audio_layer(d, config, layer).failure is None,
    ensures
        config.head_dim >= 0 ==> holds_audio_layer(
            audio_layer(d, config, layer),
            d.common.len() as int,
            config,
            layer,
        ),
        adds(d, audio_layer(d, config, layer), 62, 10),
{
    lemma_audio_stages(d, config, layer);
    lemma_audio_holds(d, audio_layer(d, config, layer), config, layer);
}

/// Whether what stands outside the vision layers is there: the patch projection, the position
/// table, the standardization where configured, and the projection to the decoder.
pub open spec fn holds_vision_ends(
    d: Draft,
    from: int,
    config: VisionConfig,
    text_hidden: int,
) -> bool {
    let hidden = config.hidden_size as int;
    let patch = config.patch_size as int;
    let values = 3 * (patch * patch);
    let positions = config.position_embedding_size as int;
    &&& asks(
        d,
        from,
        "model.vision_tower.patch_embedder.input_proj.weight"@,
        None,
        seq![hidden, values],
        MatrixFormat::Vision { input: values as i32 },
    )
    &&& lists(
        d,
        from,
        "model.vision_tower.patch_embedder.position_embedding_table"@,
        Seq::empty(),
        seq![2int, positions, hidden],
    )
    &&& config.standardize ==> {
        &&& lists(d, from, "model.vision_tower.std_bias"@, Seq::empty(), seq![hidden])
        &&& lists(d, from, "model.vision_tower.std_scale"@, Seq::empty(), seq![hidden])
    }
    &&& asks(
        d,
        from,
        "model.embed_vision.embedding_projection.weight"@,
        None,
        seq![text_hidden, hidden],
        MatrixFormat::Vision { input: hidden as i32 },
    )
}

proof fn lemma_vision_layers(d: Draft, config: VisionConfig, layers: int, layer: int)
    requires
        vision_fault(config) is None,
        layers >= 0,
    ensures
        adds(d, vision_layers(d, vision_widths(config), layers), 41 * layers, 7 * layers),
        0 <= layer < layers ==> holds_vision_layer(
            vision_layers(d, vision_widths(config), layers),
            d.common.len() as int,
            config,
            layer,
        ),
    decreases layers,
{
    let widths = vision_widths(config);
    if layers > 0 {
        let before = vision_layers(d, widths, layers - 1);
        let after = vision_layers(d, widths, layers);
        lemma_vision_layers(d, config, layers - 1, layer);
        lemma_vision_layer(before, config, layers - 1);
        lemma_extends(d, before, after);
        let from = d.common.len() as int;
        if 0 <= layer < layers - 1 {
            lemma_holds_vision_layer_kept(before, after, from, from, config, layer);
        } else if layer == layers - 1 {
            lemma_holds_vision_layer_kept(
                after,
                after,
                before.common.len() as int,
                from,
                config,
                layer,
            );
        }
    }
}

#[verifier::rlimit(50)]
proof fn lemma_patches(d: Draft, config: VisionConfig)
    requires
        vision_fault(config) is None,
        patch_part(d, config).failure is None,
    ensures
        ({
            let after = patch_part(d, config);
            &&& holds_patches(after, d.common.len() as int, config)
            &&& adds(
                d,
                after,
                if config.standardize {
                    4
                } else {
                    2
                },
                1,
            )
        }),
{
    let after = patch_part(d, config);
    let hidden = config.hidden_size as int;
    let patch = config.patch_size as int;
    lemma_width(patch, patch);
    let values = 3 * (patch * patch);
    let from = d.common.len() as int;
    assert(matrix_at(
        after,
        from,
        "model.vision_tower.patch_embedder.input_proj.weight"@,
        None,
        seq![hidden, values],
        MatrixFormat::Vision { input: values as i32 },
    ));
    assert(tensor_at(
        after,
        from + 1,
        "model.vision_tower.patch_embedder.position_embedding_table"@,
        Seq::empty(),
        seq![2int, config.position_embedding_size as int, hidden],
    ));
    if config.standardize {
        assert(tensor_at(
            after,
            from + 2,
            "model.vision_tower.std_bias"@,
            Seq::empty(),
            seq![hidden],
        ));
        assert(tensor_at(
            after,
            from + 3,
            "model.vision_tower.std_scale"@,
            Seq::empty(),
            seq![hidden],
        ));
    }
}

proof fn lemma_vision_ends_kept(
    before: Draft,
    after: Draft,
    from: int,
    config: VisionConfig,
    text_hidden: int,
)
    requires
        extends(before, after),
        from >= 0,
        holds_vision_ends(before, from, config, text_hidden),
    ensures
        holds_vision_ends(after, 0, config, text_hidden),
{
    let hidden = config.hidden_size as int;
    let patch = config.patch_size as int;
    let values = 3 * (patch * patch);
    let none = Seq::<Seq<char>>::empty();
    lemma_ask_kept(
        before,
        after,
        from,
        "model.vision_tower.patch_embedder.input_proj.weight"@,
        None,
        seq![hidden, values],
        MatrixFormat::Vision { input: values as i32 },
    );
    lemma_list_kept(
        before,
        after,
        from,
        "model.vision_tower.patch_embedder.position_embedding_table"@,
        none,
        seq![2int, config.position_embedding_size as int, hidden],
    );
    if config.standardize {
        lemma_list_kept(before, after, from, "model.vision_tower.std_bias"@, none, seq![hidden]);
        lemma_list_kept(before, after, from, "model.vision_tower.std_scale"@, none, seq![hidden]);
    }
    lemma_ask_kept(
        before,
        after,
        from,
        "model.embed_vision.embedding_projection.weight"@,
        None,
        seq![text_hidden, hidden],
        MatrixFormat::Vision { input: hidden as i32 },
    );
}

/// A vision tower adds everything of each of its layers and its two ends, under their own names
/// and with the shapes that make the matrices compose, and nothing else.
#[verifier::rlimit(50)]
pub proof fn law_vision_towers_hold_their_matrices(
    d: Draft,
    config: VisionConfig,
    text_hidden: usize,
    layer: int,
)
    requires
        vision_part(d, config, text_hidden).failure is None,
    ensures
        ({
            let after = vision_part(d, config, text_hidden);
            let from = d.common.len() as int;
            let layers = config.num_hidden_layers as int;
            &&& extends(d, after)
            &&& after.groups == d.groups
            &&& holds_vision_ends(after, from, config, text_hidden as int)
            &&& 0 <= layer < layers ==> holds_vision_layer(after, from, config, layer)
            &&& after.requests.len() == d.requests.len() + 2 + 7 * layers
            &&& after.common.len() == d.common.len() + 3 + 41 * layers + if config.standardize {
                2int
            } else {
                0
            }
        }),
{
    let layers = config.num_hidden_layers as int;
    let after = vision_part(d, config, text_hidden);
    let patched = patch_part(d, config);
    let layered = vision_layers(patched, vision_widths(config), layers);
    lemma_patches(d, config);
    lemma_vision_layers(patched, config, layers, layer);
    lemma_vision_joined(d, patched, layered, after, config, text_hidden, layer);
}

/// Whether what precedes the vision layers is there.
spec fn holds_patches(d: Draft, from: int, config: VisionConfig) -> bool {
    let hidden = config.hidden_size as int;
    let patch = config.patch_size as int;
    let values = 3 * (patch * patch);
    &&& asks(
        d,
        from,
        "model.vision_tower.patch_embedder.input_proj.weight"@,
        None,
        seq![hidden, values],
        MatrixFormat::Vision { input: values as i32 },
    )
    &&& lists(
        d,
        from,
        "model.vision_tower.patch_embedder.position_embedding_table"@,
        Seq::empty(),
        seq![2int, config.position_embedding_size as int, hidden],
    )
    &&& config.standardize ==> {
        &&& lists(d, from, "model.vision_tower.std_bias"@, Seq::empty(), seq![hidden])
        &&& lists(d, from, "model.vision_tower.std_scale"@, Seq::empty(), seq![hidden])
    }
}

proof fn lemma_vision_joined(
    d: Draft,
    patched: Draft,
    layered: Draft,
    after: Draft,
    config: VisionConfig,
    text_hidden: usize,
    layer: int,
)
    requires
        config.hidden_size > 0,
        holds_patches(patched, d.common.len() as int, config),
        adds(
            d,
            patched,
            if config.standardize {
                4
            } else {
                2
            },
            1,
        ),
        adds(patched, layered, 41 * config.num_hidden_layers, 7 * config.num_hidden_layers),
        0 <= layer < config.num_hidden_layers ==> holds_vision_layer(
            layered,
            patched.common.len() as int,
            config,
            layer,
        ),
        after == layered.tower(
            "model.embed_vision.embedding_projection.weight"@,
            seq![text_hidden, config.hidden_size as usize],
            MatrixFormat::Vision { input: config.hidden_size as i32 },
        ),
    ensures
        adds(
            d,
            after,
            3 + 41 * config.num_hidden_layers + if config.standardize {
                2int
            } else {
                0
            },
            2 + 7 * config.num_hidden_layers,
        ),
        holds_vision_ends(after, d.common.len() as int, config, text_hidden as int),
        0 <= layer < config.num_hidden_layers ==> holds_vision_layer(
            after,
            d.common.len() as int,
            config,
            layer,
        ),
{
    let hidden = config.hidden_size as int;
    let patch = config.patch_size as int;
    let values = 3 * (patch * patch);
    let layers = config.num_hidden_layers as int;
    let from = d.common.len() as int;
    let none = Seq::<Seq<char>>::empty();
    lemma_tower(
        layered,
        "model.embed_vision.embedding_projection.weight"@,
        seq![text_hidden, config.hidden_size as usize],
        seq![text_hidden as int, hidden],
        MatrixFormat::Vision { input: hidden as i32 },
    );
    lemma_extends(patched, layered, after);
    lemma_extends(d, patched, after);
    lemma_ask_kept(
        patched,
        after,
        from,
        "model.vision_tower.patch_embedder.input_proj.weight"@,
        None,
        seq![hidden, values],
        MatrixFormat::Vision { input: values as i32 },
    );
    lemma_list_kept(
        patched,
        after,
        from,
        "model.vision_tower.patch_embedder.position_embedding_table"@,
        none,
        seq![2int, config.position_embedding_size as int, hidden],
    );
    if config.standardize {
        lemma_list_kept(patched, after, from, "model.vision_tower.std_bias"@, none, seq![hidden]);
        lemma_list_kept(patched, after, from, "model.vision_tower.std_scale"@, none, seq![hidden]);
    }
    lemma_ask_kept(
        after,
        after,
        layered.common.len() as int,
        "model.embed_vision.embedding_projection.weight"@,
        None,
        seq![text_hidden as int, hidden],
        MatrixFormat::Vision { input: hidden as i32 },
    );
    if 0 <= layer < layers {
        lemma_holds_vision_layer_kept(
            layered,
            after,
            patched.common.len() as int,
            from,
            config,
            layer,
        );
    }
}

/// Whether the place `at` holds the floating-point tensor `key`, which may be left out.
pub open spec fn optional_at(d: Draft, at: int, key: Seq<char>, sides: Seq<int>) -> bool {
    d.common[at] matches Entry::Plain(tensor) && {
        &&& tensor.key == key
        &&& tensor.aliases.len() == 0
        &&& has_sides(tensor.shape, sides)
        &&& tensor.alternate_shapes.len() == 0
        &&& tensor.element_count is None
        &&& tensor.dtype is Floating
        &&& tensor.role is Tensor
        &&& tensor.requirement is Optional
    }
}

/// Whether the subsampling convolutions and the two projections of an audio tower are there.
pub open spec fn holds_audio_inputs(d: Draft, from: int, config: AudioConfig) -> bool {
    let hidden = config.hidden_size as int;
    let first = config.subsampling_conv_channels[0] as int;
    let second = config.subsampling_conv_channels[1] as int;
    let projection = config.output_proj_dims as int;
    &&& lists(
        d,
        from,
        "model.audio_tower.subsample_conv_projection.layer0.conv.weight"@,
        Seq::empty(),
        seq![first, 3int, 3int, 1int],
    )
    &&& lists(
        d,
        from,
        "model.audio_tower.subsample_conv_projection.layer0.norm.weight"@,
        Seq::empty(),
        seq![first],
    )
    &&& lists(
        d,
        from,
        "model.audio_tower.subsample_conv_projection.layer1.conv.weight"@,
        Seq::empty(),
        seq![second, 3int, 3int, first],
    )
    &&& lists(
        d,
        from,
        "model.audio_tower.subsample_conv_projection.layer1.norm.weight"@,
        Seq::empty(),
        seq![second],
    )
    &&& asks(
        d,
        from,
        "model.audio_tower.subsample_conv_projection.input_proj_linear.weight"@,
        None,
        seq![hidden, 32 * second],
        MatrixFormat::Audio { input: (32 * second) as i32 },
    )
    &&& asks(
        d,
        from,
        "model.audio_tower.output_proj.weight"@,
        None,
        seq![projection, hidden],
        MatrixFormat::Audio { input: hidden as i32 },
    )
}

proof fn lemma_holds_audio_inputs_kept(
    before: Draft,
    after: Draft,
    from: int,
    earlier: int,
    config: AudioConfig,
)
    requires
        extends(before, after),
        0 <= earlier <= from,
        holds_audio_inputs(before, from, config),
    ensures
        holds_audio_inputs(after, earlier, config),
{
    let hidden = config.hidden_size as int;
    let first = config.subsampling_conv_channels[0] as int;
    let second = config.subsampling_conv_channels[1] as int;
    let projection = config.output_proj_dims as int;
    lemma_list_kept(
        before,
        after,
        from,
        "model.audio_tower.subsample_conv_projection.layer0.conv.weight"@,
        Seq::empty(),
        seq![first, 3int, 3int, 1int],
    );
    lemma_list_kept(
        before,
        after,
        from,
        "model.audio_tower.subsample_conv_projection.layer0.norm.weight"@,
        Seq::empty(),
        seq![first],
    );
    lemma_list_kept(
        before,
        after,
        from,
        "model.audio_tower.subsample_conv_projection.layer1.conv.weight"@,
        Seq::empty(),
        seq![second, 3int, 3int, first],
    );
    lemma_list_kept(
        before,
        after,
        from,
        "model.audio_tower.subsample_conv_projection.layer1.norm.weight"@,
        Seq::empty(),
        seq![second],
    );
    lemma_ask_kept(
        before,
        after,
        from,
        "model.audio_tower.subsample_conv_projection.input_proj_linear.weight"@,
        None,
        seq![hidden, 32 * second],
        MatrixFormat::Audio { input: (32 * second) as i32 },
    );
    lemma_ask_kept(
        before,
        after,
        from,
        "model.audio_tower.output_proj.weight"@,
        None,
        seq![projection, hidden],
        MatrixFormat::Audio { input: hidden as i32 },
    );
}

/// Whether what stands outside the audio layers is there: the inputs, the optional bias of the
/// output projection, and the projection to the decoder.
pub open spec fn holds_audio_ends(
    d: Draft,
    from: int,
    config: AudioConfig,
    text_hidden: int,
) -> bool {
    let projection = config.output_proj_dims as int;
    &&& holds_audio_inputs(d, from, config)
    &&& exists|at: int|
        from <= at < d.common.len() && #[trigger] optional_at(
            d,
            at,
            "model.audio_tower.output_proj.bias"@,
            seq![projection],
        )
    &&& asks(
        d,
        from,
        "model.embed_audio.embedding_projection.weight"@,
        None,
        seq![text_hidden, projection],
        MatrixFormat::Audio { input: projection as i32 },
    )
}

#[verifier::rlimit(50)]
proof fn lemma_audio_inputs(d: Draft, config: AudioConfig)
    requires
        audio_fault(config) is None,
        32 * config.subsampling_conv_channels[1] <= usize::MAX,
    ensures
        ({
            let widths = audio_widths(config);
            let after = audio_projection_part(convolution_part(d, widths), widths);
            &&& holds_audio_inputs(after, d.common.len() as int, config)
            &&& optional_at(
                after,
                d.common.len() as int + 6,
                "model.audio_tower.output_proj.bias"@,
                seq![config.output_proj_dims as int],
            )
            &&& adds(d, after, 7, 2)
        }),
{
    let widths = audio_widths(config);
    let whole = audio_projection_part(convolution_part(d, widths), widths);
    let from = d.common.len() as int;
    let hidden = config.hidden_size as int;
    let first = config.subsampling_conv_channels[0] as int;
    let second = config.subsampling_conv_channels[1] as int;
    let projection = config.output_proj_dims as int;
    let d1 = d.media(
        "model.audio_tower.subsample_conv_projection.layer0.conv.weight"@,
        seq![first as usize, 3usize, 3usize, 1usize],
    );
    lemma_media(
        d,
        "model.audio_tower.subsample_conv_projection.layer0.conv.weight"@,
        seq![first as usize, 3usize, 3usize, 1usize],
        seq![first, 3int, 3int, 1int],
    );
    let d2 = d1.media(
        "model.audio_tower.subsample_conv_projection.layer0.norm.weight"@,
        seq![first as usize],
    );
    lemma_media(
        d1,
        "model.audio_tower.subsample_conv_projection.layer0.norm.weight"@,
        seq![first as usize],
        seq![first],
    );
    let d3 = d2.media(
        "model.audio_tower.subsample_conv_projection.layer1.conv.weight"@,
        seq![second as usize, 3usize, 3usize, first as usize],
    );
    lemma_media(
        d2,
        "model.audio_tower.subsample_conv_projection.layer1.conv.weight"@,
        seq![second as usize, 3usize, 3usize, first as usize],
        seq![second, 3int, 3int, first],
    );
    let d4 = d3.media(
        "model.audio_tower.subsample_conv_projection.layer1.norm.weight"@,
        seq![second as usize],
    );
    lemma_media(
        d3,
        "model.audio_tower.subsample_conv_projection.layer1.norm.weight"@,
        seq![second as usize],
        seq![second],
    );
    let d5 = d4.tower(
        "model.audio_tower.subsample_conv_projection.input_proj_linear.weight"@,
        seq![hidden as usize, (32 * second) as usize],
        MatrixFormat::Audio { input: (32 * second) as i32 },
    );
    lemma_tower(
        d4,
        "model.audio_tower.subsample_conv_projection.input_proj_linear.weight"@,
        seq![hidden as usize, (32 * second) as usize],
        seq![hidden, 32 * second],
        MatrixFormat::Audio { input: (32 * second) as i32 },
    );
    let d6 = d5.tower(
        "model.audio_tower.output_proj.weight"@,
        seq![projection as usize, hidden as usize],
        MatrixFormat::Audio { input: hidden as i32 },
    );
    lemma_tower(
        d5,
        "model.audio_tower.output_proj.weight"@,
        seq![projection as usize, hidden as usize],
        seq![projection, hidden],
        MatrixFormat::Audio { input: hidden as i32 },
    );
    let after = d6;
    lemma_extends(d4, d5, after);
    lemma_extends(d3, d4, after);
    lemma_extends(d2, d3, after);
    lemma_extends(d1, d2, after);
    lemma_extends(d, d1, after);
    lemma_list_kept(
        d1,
        after,
        d.common.len() as int,
        "model.audio_tower.subsample_conv_projection.layer0.conv.weight"@,
        Seq::empty(),
        seq![first, 3int, 3int, 1int],
    );
    lemma_list_kept(
        d2,
        after,
        d1.common.len() as int,
        "model.audio_tower.subsample_conv_projection.layer0.norm.weight"@,
        Seq::empty(),
        seq![first],
    );
    lemma_list_kept(
        d3,
        after,
        d2.common.len() as int,
        "model.audio_tower.subsample_conv_projection.layer1.conv.weight"@,
        Seq::empty(),
        seq![second, 3int, 3int, first],
    );
    lemma_list_kept(
        d4,
        after,
        d3.common.len() as int,
        "model.audio_tower.subsample_conv_projection.layer1.norm.weight"@,
        Seq::empty(),
        seq![second],
    );
    lemma_ask_kept(
        d5,
        after,
        d4.common.len() as int,
        "model.audio_tower.subsample_conv_projection.input_proj_linear.weight"@,
        None,
        seq![hidden, 32 * second],
        MatrixFormat::Audio { input: (32 * second) as i32 },
    );
    lemma_ask_kept(
        after,
        after,
        d5.common.len() as int,
        "model.audio_tower.output_proj.weight"@,
        None,
        seq![projection, hidden],
        MatrixFormat::Audio { input: hidden as i32 },
    );
    assert(extends(after, whole));
    lemma_extends(d, after, whole);
    assert(holds_audio_inputs(after, from, config));
    lemma_holds_audio_inputs_kept(after, whole, from, from, config);
}

proof fn lemma_audio_layers(d: Draft, config: AudioConfig, layers: int, layer: int)
    requires
        config.hidden_size > 0,
        layers >= 0,
        audio_layers(d, config, layers).failure is None,
    ensures
        adds(d, audio_layers(d, config, layers), 62 * layers, 10 * layers),
        0 <= layer < layers && config.head_dim >= 0 ==> holds_audio_layer(
            audio_layers(d, config, layers),
            d.common.len() as int,
            config,
            layer,
        ),
    decreases layers,
{
    if layers > 0 {
        let before = audio_layers(d, config, layers - 1);
        let after = audio_layers(d, config, layers);
        if before.failure is Some {
            assert(after == before);
        }
        lemma_audio_layers(d, config, layers - 1, layer);
        lemma_audio_layer(before, config, layers - 1);
        lemma_extends(d, before, after);
        let from = d.common.len() as int;
        if config.head_dim >= 0 {
            if 0 <= layer < layers - 1 {
                lemma_audio_layer_kept(before, after, from, from, config, layer);
            } else if layer == layers - 1 {
                lemma_audio_layer_kept(
                    after,
                    after,
                    before.common.len() as int,
                    from,
                    config,
                    layer,
                );
            }
        }
    }
}

proof fn lemma_audio_ends_kept(
    before: Draft,
    after: Draft,
    from: int,
    config: AudioConfig,
    text_hidden: int,
)
    requires
        extends(before, after),
        from >= 0,
        holds_audio_ends(before, from, config, text_hidden),
    ensures
        holds_audio_ends(after, 0, config, text_hidden),
{
    let projection = config.output_proj_dims as int;
    lemma_holds_audio_inputs_kept(before, after, from, 0, config);
    let at = choose|at: int|
        from <= at < before.common.len() && #[trigger] optional_at(
            before,
            at,
            "model.audio_tower.output_proj.bias"@,
            seq![projection],
        );
    assert(after.common[at] == before.common[at]);
    assert(optional_at(after, at, "model.audio_tower.output_proj.bias"@, seq![projection]));
    lemma_ask_kept(
        before,
        after,
        from,
        "model.embed_audio.embedding_projection.weight"@,
        None,
        seq![text_hidden, projection],
        MatrixFormat::Audio { input: projection as i32 },
    );
}

/// An audio tower adds everything of each of its layers and its two ends, under their own names
/// and with the shapes that make the matrices compose, and nothing else.
#[verifier::rlimit(50)]
pub proof fn law_audio_towers_hold_their_matrices(
    d: Draft,
    config: AudioConfig,
    text_hidden: usize,
    layer: int,
)
    requires
        audio_part(d, config, text_hidden).failure is None,
        config.head_dim >= 0,
    ensures
        ({
            let after = audio_part(d, config, text_hidden);
            let from = d.common.len() as int;
            let layers = config.num_hidden_layers as int;
            &&& extends(d, after)
            &&& after.groups == d.groups
            &&& holds_audio_ends(after, from, config, text_hidden as int)
            &&& 0 <= layer < layers ==> holds_audio_layer(after, from, config, layer)
            &&& after.requests.len() == d.requests.len() + 3 + 10 * layers
            &&& after.common.len() == d.common.len() + 8 + 62 * layers
        }),
{
    let widths = audio_widths(config);
    let layers = config.num_hidden_layers as int;
    let after = audio_part(d, config, text_hidden);
    let projected = audio_projection_part(convolution_part(d, widths), widths);
    let layered = audio_layers(projected, config, layers);
    lemma_audio_inputs(d, config);
    lemma_audio_layers(projected, config, layers, layer);
    lemma_audio_joined(d, projected, layered, after, config, text_hidden, layer);
}

proof fn lemma_audio_joined(
    d: Draft,
    projected: Draft,
    layered: Draft,
    after: Draft,
    config: AudioConfig,
    text_hidden: usize,
    layer: int,
)
    requires
        config.output_proj_dims > 0,
        adds(d, projected, 7, 2),
        adds(projected, layered, 62 * config.num_hidden_layers, 10 * config.num_hidden_layers),
        holds_audio_inputs(projected, d.common.len() as int, config),
        optional_at(
            projected,
            d.common.len() as int + 6,
            "model.audio_tower.output_proj.bias"@,
            seq![config.output_proj_dims as int],
        ),
        0 <= layer < config.num_hidden_layers ==> holds_audio_layer(
            layered,
            projected.common.len() as int,
            config,
            layer,
        ),
        after == layered.tower(
            "model.embed_audio.embedding_projection.weight"@,
            seq![text_hidden, config.output_proj_dims as usize],
            MatrixFormat::Audio { input: config.output_proj_dims as i32 },
        ),
    ensures
        adds(d, after, 8 + 62 * config.num_hidden_layers, 3 + 10 * config.num_hidden_layers),
        holds_audio_ends(after, d.common.len() as int, config, text_hidden as int),
        0 <= layer < config.num_hidden_layers ==> holds_audio_layer(
            after,
            d.common.len() as int,
            config,
            layer,
        ),
{
    let projection = config.output_proj_dims as int;
    let layers = config.num_hidden_layers as int;
    let from = d.common.len() as int;
    lemma_tower(
        layered,
        "model.embed_audio.embedding_projection.weight"@,
        seq![text_hidden, config.output_proj_dims as usize],
        seq![text_hidden as int, projection],
        MatrixFormat::Audio { input: projection as i32 },
    );
    lemma_extends(projected, layered, after);
    lemma_extends(d, projected, after);
    lemma_holds_audio_inputs_kept(projected, after, from, from, config);
    assert(after.common[from + 6] == projected.common[from + 6]);
    assert(optional_at(
        after,
        from + 6,
        "model.audio_tower.output_proj.bias"@,
        seq![projection],
    ));
    lemma_ask_kept(
        after,
        after,
        layered.common.len() as int,
        "model.embed_audio.embedding_projection.weight"@,
        None,
        seq![text_hidden as int, projection],
        MatrixFormat::Audio { input: projection as i32 },
    );
    if 0 <= layer < layers {
        lemma_audio_layer_kept(
            layered,
            after,
            projected.common.len() as int,
            from,
            config,
            layer,
        );
    }
}

proof fn lemma_family(family: FamilyConfig)
    requires
        family_draft(family).failure is None,
        family.audio matches Some(audio) ==> audio.head_dim >= 0,
    ensures
        text_draft(family.text).failure is None,
        extends(text_draft(family.text), family_draft(family)),
{
    let hidden = family.text.hidden_size as usize;
    let text = text_draft(family.text);
    let seen = match family.vision {
        Some(vision) => vision_part(text, vision, hidden),
        None => text,
    };
    if let Some(vision) = family.vision {
        law_vision_towers_hold_their_matrices(text, vision, hidden, 0);
    }
    if let Some(audio) = family.audio {
        law_audio_towers_hold_their_matrices(seen, audio, hidden, 0);
    }
    lemma_extends(text, seen, family_draft(family));
}

/// A complete catalog holds everything of every decoder layer and of every layer and end of the
/// towers it has, under their own names and with the shapes that make the matrices compose.
#[verifier::rlimit(50)]
pub proof fn law_catalogs_hold_every_layer(family: FamilyConfig, layer: int)
    requires
        family_draft(family).failure is None,
        family.audio matches Some(audio) ==> audio.head_dim >= 0,
    ensures
        0 <= layer < family.text.layer_schedule.len() ==> holds_layer(
            family_draft(family),
            0,
            0,
            family.text,
            layer,
        ),
        family.vision matches Some(vision) ==> {
            &&& holds_vision_ends(family_draft(family), 0, vision, family.text.hidden_size as int)
            &&& 0 <= layer < vision.num_hidden_layers ==> holds_vision_layer(
                family_draft(family),
                0,
                vision,
                layer,
            )
        },
        family.audio matches Some(audio) ==> {
            &&& holds_audio_ends(family_draft(family), 0, audio, family.text.hidden_size as int)
            &&& 0 <= layer < audio.num_hidden_layers ==> holds_audio_layer(
                family_draft(family),
                0,
                audio,
                layer,
            )
        },
{
    lemma_family(family);
    let hidden = family.text.hidden_size as usize;
    let text = text_draft(family.text);
    let whole = family_draft(family);
    let seen = match family.vision {
        Some(vision) => vision_part(text, vision, hidden),
        None => text,
    };
    if 0 <= layer < family.text.layer_schedule.len() {
        law_decoders_hold_every_layer(family.text, layer);
        lemma_layer_kept(text, whole, 0, 0, family.text, layer);
    }
    if let Some(vision) = family.vision {
        law_vision_towers_hold_their_matrices(text, vision, hidden, layer);
        if let Some(audio) = family.audio {
            law_audio_towers_hold_their_matrices(seen, audio, hidden, layer);
        }
        let from = text.common.len() as int;
        lemma_vision_ends_kept(seen, whole, from, vision, hidden as int);
        if 0 <= layer < vision.num_hidden_layers {
            lemma_holds_vision_layer_kept(seen, whole, from, 0, vision, layer);
        }
    }
    if let Some(audio) = family.audio {
        law_audio_towers_hold_their_matrices(seen, audio, hidden, layer);
        let from = seen.common.len() as int;
        lemma_audio_ends_kept(whole, whole, from, audio, hidden as int);
        if 0 <= layer < audio.num_hidden_layers {
            lemma_audio_layer_kept(whole, whole, from, 0, audio, layer);
        }
    }
}

} // verus!
