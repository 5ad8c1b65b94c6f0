//! Media towers of a Gemma 4 SafeTensors catalog.

use crate::errors::{Fault, fault_if, first_of, says};
use crate::family::{AudioConfig, VisionConfig};
use crate::geometry::{checked_mul, dimension, dimension_fault, product_fault};
use crate::plan::TensorRequirement;
use crate::safetensors::{
    MatrixFormat, SafetensorsTensorConstraint, left_optional, safe, safe_tensor,
};
use crate::safetensors_draft::{Draft, SafetensorsDraft, shape1, shape2, shape3, shape4};
use crate::text::{decimal, decimal_text};
use vstd::prelude::*;

verus! {

/// Widths of a vision tower.
#[derive(Clone, Copy)]
pub struct VisionWidths {
    /// Tower hidden width.
    pub hidden: usize,
    /// MLP width.
    pub intermediate: usize,
    /// Head width.
    pub head: usize,
    /// Query projection width.
    pub query: usize,
    /// Key and value projection width.
    pub key_value: usize,
    /// Values of one patch.
    pub patch_input: usize,
}

/// Widths of the vision tower `config`.
pub open spec fn vision_widths(config: VisionConfig) -> VisionWidths {
    VisionWidths {
        hidden: config.hidden_size as usize,
        intermediate: config.intermediate_size as usize,
        head: config.head_dim as usize,
        query: (config.num_attention_heads * config.head_dim) as usize,
        key_value: (config.num_key_value_heads * config.head_dim) as usize,
        patch_input: (3 * (config.patch_size * config.patch_size)) as usize,
    }
}

/// Fault of the widths of a vision tower.
pub open spec fn vision_fault(config: VisionConfig) -> Option<Fault> {
    first_of(
        dimension_fault(config.hidden_size, "vision hidden size"@),
        first_of(
            dimension_fault(config.intermediate_size, "vision intermediate size"@),
            first_of(
                dimension_fault(config.head_dim, "vision head width"@),
                first_of(
                    dimension_fault(config.num_attention_heads, "vision attention head count"@),
                    first_of(
                        product_fault(
                            config.num_attention_heads as int,
                            config.head_dim as int,
                            "vision query width"@,
                        ),
                        first_of(
                            dimension_fault(config.num_key_value_heads, "vision KV head count"@),
                            first_of(
                                product_fault(
                                    config.num_key_value_heads as int,
                                    config.head_dim as int,
                                    "vision key/value width"@,
                                ),
                                patch_fault(config),
                            ),
                        ),
                    ),
                ),
            ),
        ),
    )
}

/// Fault of the patches of a vision tower.
pub open spec fn patch_fault(config: VisionConfig) -> Option<Fault> {
    first_of(
        dimension_fault(config.patch_size, "vision patch size"@),
        first_of(
            product_fault(
                config.patch_size as int,
                config.patch_size as int,
                "vision patch area"@,
            ),
            product_fault(
                3,
                config.patch_size * config.patch_size,
                "vision patch input width"@,
            ),
        ),
    )
}

/// Format that the vision tower selects, by input width.
pub open spec fn by_vision(input: usize) -> MatrixFormat {
    MatrixFormat::Vision { input: input as i32 }
}

/// Format that the audio tower selects, by input width.
pub open spec fn by_audio(input: usize) -> MatrixFormat {
    MatrixFormat::Audio { input: input as i32 }
}

/// A vision layer.
pub open spec fn vision_layer(d: Draft, widths: VisionWidths, layer: int) -> Draft {
    let root = "model.vision_tower.encoder.layers."@ + decimal(layer as nat);
    let hidden = widths.hidden;
    let query = widths.query;
    let key_value = widths.key_value;
    let intermediate = widths.intermediate;
    d.media(root + ".input_layernorm.weight"@, seq![hidden]).media(
        root + ".post_attention_layernorm.weight"@,
        seq![hidden],
    ).media(root + ".pre_feedforward_layernorm.weight"@, seq![hidden]).media(
        root + ".post_feedforward_layernorm.weight"@,
        seq![hidden],
    ).clipped(root + ".self_attn.q_proj"@, seq![query, hidden], by_vision(hidden)).clipped(
        root + ".self_attn.k_proj"@,
        seq![key_value, hidden],
        by_vision(hidden),
    ).clipped(root + ".self_attn.v_proj"@, seq![key_value, hidden], by_vision(hidden)).clipped(
        root + ".self_attn.o_proj"@,
        seq![hidden, query],
        by_vision(query),
    ).clipped(root + ".mlp.gate_proj"@, seq![intermediate, hidden], by_vision(hidden)).clipped(
        root + ".mlp.up_proj"@,
        seq![intermediate, hidden],
        by_vision(hidden),
    ).clipped(
        root + ".mlp.down_proj"@,
        seq![hidden, intermediate],
        by_vision(intermediate),
    ).media(root + ".self_attn.q_norm.weight"@, seq![widths.head]).media(
        root + ".self_attn.k_norm.weight"@,
        seq![widths.head],
    )
}

/// The first `layers` vision layers.
pub open spec fn vision_layers(d: Draft, widths: VisionWidths, layers: int) -> Draft
    decreases layers,
{
    if layers <= 0 {
        d
    } else {
        vision_layer(vision_layers(d, widths, layers - 1), widths, layers - 1)
    }
}

/// Patch embedder of the vision tower.
pub open spec fn patch_part(d: Draft, config: VisionConfig) -> Draft {
    let widths = vision_widths(config);
    let patched = d.tower(
        "model.vision_tower.patch_embedder.input_proj.weight"@,
        seq![widths.hidden, widths.patch_input],
        by_vision(widths.patch_input),
    );
    match dimension_fault(config.position_embedding_size, "vision position count"@) {
        Some(fault) => patched.failed(fault),
        None => {
            let positioned = patched.media(
                "model.vision_tower.patch_embedder.position_embedding_table"@,
                seq![2usize, config.position_embedding_size as usize, widths.hidden],
            );
            if config.standardize {
                positioned.media("model.vision_tower.std_bias"@, seq![widths.hidden]).media(
                    "model.vision_tower.std_scale"@,
                    seq![widths.hidden],
                )
            } else {
                positioned
            }
        },
    }
}

/// The vision tower and its projection to the decoder width, up to the first fault.
pub open spec fn vision_part(d: Draft, config: VisionConfig, text_hidden: usize) -> Draft {
    let widths = vision_widths(config);
    match vision_fault(config) {
        Some(fault) => d.failed(fault),
        None => {
            let patched = patch_part(d, config);
            if patched.failure is Some {
                patched
            } else {
                match dimension_fault(config.num_hidden_layers, "vision layer count"@) {
                    Some(fault) => patched.failed(fault),
                    None => vision_layers(
                        patched,
                        widths,
                        config.num_hidden_layers as int,
                    ).tower(
                        "model.embed_vision.embedding_projection.weight"@,
                        seq![text_hidden, widths.hidden],
                        by_vision(widths.hidden),
                    ),
                }
            }
        },
    }
}

fn settle_vision(config: &VisionConfig) -> (r: Result<VisionWidths, String>)
    ensures
        match vision_fault(*config) {
            Some(fault) => says(r, fault),
            None => r == Ok::<VisionWidths, String>(vision_widths(*config)),
        },
{
    let hidden: usize = dimension(config.hidden_size, "vision hidden size")?;
    let intermediate: usize = dimension(config.intermediate_size, "vision intermediate size")?;
    let head: usize = dimension(config.head_dim, "vision head width")?;
    let query: usize = checked_mul(
        dimension(config.num_attention_heads, "vision attention head count")?,
        head,
        "vision query width",
    )?;
    let key_value: usize = checked_mul(
        dimension(config.num_key_value_heads, "vision KV head count")?,
        head,
        "vision key/value width",
    )?;
    let patch: usize = dimension(config.patch_size, "vision patch size")?;
    let patch_input: usize = checked_mul(
        3,
        checked_mul(patch, patch, "vision patch area")?,
        "vision patch input width",
    )?;
    Ok(VisionWidths { hidden, intermediate, head, query, key_value, patch_input })
}

fn for_vision(input: usize) -> (r: MatrixFormat)
    ensures
        r == by_vision(input),
{
    MatrixFormat::Vision { input: input as i32 }
}

fn for_audio(input: usize) -> (r: MatrixFormat)
    ensures
        r == by_audio(input),
{
    MatrixFormat::Audio { input: input as i32 }
}

fn under(root: &String, local: &str) -> (r: String)
    ensures
        r@ == root@ + local@,
{
    root.clone().concat(local)
}

fn add_vision_layer(draft: &mut SafetensorsDraft, widths: VisionWidths, layer: usize)
    ensures
        final(draft).deep_view() == vision_layer(old(draft).deep_view(), widths, layer as int),
        old(draft).deep_view().complete() ==> final(draft).deep_view().complete(),
{
    let root: String = "model.vision_tower.encoder.layers.".to_owned().concat(
        decimal_text(layer as u64).as_str(),
    );
    let hidden: usize = widths.hidden;
    let query: usize = widths.query;
    let key_value: usize = widths.key_value;
    let intermediate: usize = widths.intermediate;
    draft.media(under(&root, ".input_layernorm.weight"), shape1(hidden));
    draft.media(under(&root, ".post_attention_layernorm.weight"), shape1(hidden));
    draft.media(under(&root, ".pre_feedforward_layernorm.weight"), shape1(hidden));
    draft.media(under(&root, ".post_feedforward_layernorm.weight"), shape1(hidden));
    draft.clipped(
        under(&root, ".self_attn.q_proj").as_str(),
        shape2(query, hidden),
        for_vision(hidden),
    );
    draft.clipped(
        under(&root, ".self_attn.k_proj").as_str(),
        shape2(key_value, hidden),
        for_vision(hidden),
    );
    draft.clipped(
        under(&root, ".self_attn.v_proj").as_str(),
        shape2(key_value, hidden),
        for_vision(hidden),
    );
    draft.clipped(
        under(&root, ".self_attn.o_proj").as_str(),
        shape2(hidden, query),
        for_vision(query),
    );
    draft.clipped(
        under(&root, ".mlp.gate_proj").as_str(),
        shape2(intermediate, hidden),
        for_vision(hidden),
    );
    draft.clipped(
        under(&root, ".mlp.up_proj").as_str(),
        shape2(intermediate, hidden),
        for_vision(hidden),
    );
    draft.clipped(
        under(&root, ".mlp.down_proj").as_str(),
        shape2(hidden, intermediate),
        for_vision(intermediate),
    );
    draft.media(under(&root, ".self_attn.q_norm.weight"), shape1(widths.head));
    draft.media(under(&root, ".self_attn.k_norm.weight"), shape1(widths.head));
}

fn add_patches(draft: &mut SafetensorsDraft, config: &VisionConfig, widths: VisionWidths)
    requires
        widths == vision_widths(*config),
        old(draft).failure is None,
    ensures
        final(draft).deep_view() == patch_part(old(draft).deep_view(), *config),
        old(draft).deep_view().complete() ==> final(draft).deep_view().complete(),
{
    draft.tower(
        "model.vision_tower.patch_embedder.input_proj.weight".to_owned(),
        shape2(widths.hidden, widths.patch_input),
        for_vision(widths.patch_input),
    );
    let positions: usize = match dimension(
        config.position_embedding_size,
        "vision position count",
    ) {
        Ok(positions) => positions,
        Err(message) => {
            draft.fail(message);
            return ;
        },
    };
    draft.media(
        "model.vision_tower.patch_embedder.position_embedding_table".to_owned(),
        shape3(2, positions, widths.hidden),
    );
    if config.standardize {
        draft.media("model.vision_tower.std_bias".to_owned(), shape1(widths.hidden));
        draft.media("model.vision_tower.std_scale".to_owned(), shape1(widths.hidden));
    }
}

/// Adds the vision tower and its projection to the decoder width.
pub(crate) fn add_safetensors_vision(
    draft: &mut SafetensorsDraft,
    config: &VisionConfig,
    text_hidden: usize,
)
    requires
        old(draft).failure is None,
    ensures
        final(draft).deep_view() == vision_part(old(draft).deep_view(), *config, text_hidden),
        old(draft).deep_view().complete() ==> final(draft).deep_view().complete(),
{
    let widths: VisionWidths = match settle_vision(config) {
        Ok(widths) => widths,
        Err(message) => {
            draft.fail(message);
            return ;
        },
    };
    add_patches(draft, config, widths);
    if draft.failure.is_some() {
        return ;
    }
    let layers: usize = match dimension(config.num_hidden_layers, "vision layer count") {
        Ok(layers) => layers,
        Err(message) => {
            draft.fail(message);
            return ;
        },
    };
    let ghost patched = draft.deep_view();
    let mut layer: usize = 0;
    while layer < layers
        invariant
            layer <= layers,
            draft.deep_view() == vision_layers(patched, widths, layer as int),
            patched.complete() ==> draft.deep_view().complete(),
        decreases layers - layer,
    {
        add_vision_layer(draft, widths, layer);
        layer = layer + 1;
    }
    draft.tower(
        "model.embed_vision.embedding_projection.weight".to_owned(),
        shape2(text_hidden, widths.hidden),
        for_vision(widths.hidden),
    );
}

/// Widths of an audio tower.
#[derive(Clone, Copy)]
pub struct AudioWidths {
    /// Tower hidden width.
    pub hidden: usize,
    /// Channels of the first subsampling convolution.
    pub first: usize,
    /// Channels of the second subsampling convolution.
    pub second: usize,
    /// Output projection width.
    pub projection: usize,
}

/// Widths of the audio tower `config`.
pub open spec fn audio_widths(config: AudioConfig) -> AudioWidths {
    AudioWidths {
        hidden: config.hidden_size as usize,
        first: config.subsampling_conv_channels[0] as usize,
        second: config.subsampling_conv_channels[1] as usize,
        projection: config.output_proj_dims as usize,
    }
}

/// Fault of the widths of an audio tower.
pub open spec fn audio_fault(config: AudioConfig) -> Option<Fault> {
    first_of(
        dimension_fault(config.hidden_size, "audio hidden size"@),
        first_of(
            fault_if(
                config.subsampling_conv_channels.len() != 2,
                "Gemma 4 audio requires two subsampling channels"@,
            ),
            first_of(
                dimension_fault(
                    config.subsampling_conv_channels[0],
                    "first audio channel count"@,
                ),
                first_of(
                    dimension_fault(
                        config.subsampling_conv_channels[1],
                        "second audio channel count"@,
                    ),
                    dimension_fault(config.output_proj_dims, "audio output width"@),
                ),
            ),
        ),
    )
}

fn settle_audio(config: &AudioConfig) -> (r: Result<AudioWidths, String>)
    ensures
        match audio_fault(*config) {
            Some(fault) => says(r, fault),
            None => r == Ok::<AudioWidths, String>(audio_widths(*config)),
        },
{
    let hidden: usize = dimension(config.hidden_size, "audio hidden size")?;
    if config.subsampling_conv_channels.len() != 2 {
        return Err("Gemma 4 audio requires two subsampling channels".to_owned());
    }
    let first: usize = dimension(
        config.subsampling_conv_channels[0],
        "first audio channel count",
    )?;
    let second: usize = dimension(
        config.subsampling_conv_channels[1],
        "second audio channel count",
    )?;
    let projection: usize = dimension(config.output_proj_dims, "audio output width")?;
    Ok(AudioWidths { hidden, first, second, projection })
}

/// Subsampling convolutions of the audio tower.
pub open spec fn convolution_part(d: Draft, widths: AudioWidths) -> Draft {
    d.media(
        "model.audio_tower.subsample_conv_projection.layer0.conv.weight"@,
        seq![widths.first, 3usize, 3usize, 1usize],
    ).media(
        "model.audio_tower.subsample_conv_projection.layer0.norm.weight"@,
        seq![widths.first],
    ).media(
        "model.audio_tower.subsample_conv_projection.layer1.conv.weight"@,
        seq![widths.second, 3usize, 3usize, widths.first],
    ).media(
        "model.audio_tower.subsample_conv_projection.layer1.norm.weight"@,
        seq![widths.second],
    )
}

/// Input and output projections of the audio tower.
pub open spec fn audio_projection_part(d: Draft, widths: AudioWidths) -> Draft {
    let input = (32 * widths.second) as usize;
    d.tower(
        "model.audio_tower.subsample_conv_projection.input_proj_linear.weight"@,
        seq![widths.hidden, input],
        by_audio(input),
    ).tower(
        "model.audio_tower.output_proj.weight"@,
        seq![widths.projection, widths.hidden],
        by_audio(widths.hidden),
    ).plain(
        left_optional(
            safe_tensor("model.audio_tower.output_proj.bias"@, seq![widths.projection]),
        ),
    )
}

/// Root of an audio layer.
pub open spec fn audio_root(layer: int) -> Seq<char> {
    "model.audio_tower.layers."@ + decimal(layer as nat)
}

/// Norms of an audio layer.
pub open spec fn audio_norms(d: Draft, hidden: usize, layer: int) -> Draft {
    let root = audio_root(layer);
    d.media(root + ".feed_forward1.pre_layer_norm.weight"@, seq![hidden]).media(
        root + ".feed_forward1.post_layer_norm.weight"@,
        seq![hidden],
    ).media(root + ".norm_pre_attn.weight"@, seq![hidden]).media(
        root + ".norm_post_attn.weight"@,
        seq![hidden],
    ).media(root + ".lconv1d.pre_layer_norm.weight"@, seq![hidden]).media(
        root + ".lconv1d.conv_norm.weight"@,
        seq![hidden],
    ).media(root + ".feed_forward2.pre_layer_norm.weight"@, seq![hidden]).media(
        root + ".feed_forward2.post_layer_norm.weight"@,
        seq![hidden],
    ).media(root + ".norm_out.weight"@, seq![hidden])
}

/// Matrices of an audio layer.
pub open spec fn audio_matrices(d: Draft, hidden: usize, layer: int) -> Draft {
    let root = audio_root(layer);
    let four = (4 * hidden) as usize;
    let two = (2 * hidden) as usize;
    let narrow = by_audio(hidden);
    let wide = by_audio(four);
    d.clipped(root + ".feed_forward1.ffw_layer_1"@, seq![four, hidden], narrow).clipped(
        root + ".feed_forward1.ffw_layer_2"@,
        seq![hidden, four],
        wide,
    ).clipped(root + ".self_attn.q_proj"@, seq![hidden, hidden], narrow).clipped(
        root + ".self_attn.k_proj"@,
        seq![hidden, hidden],
        narrow,
    ).clipped(root + ".self_attn.v_proj"@, seq![hidden, hidden], narrow).clipped(
        root + ".self_attn.post"@,
        seq![hidden, hidden],
        narrow,
    ).clipped(root + ".lconv1d.linear_start"@, seq![two, hidden], narrow).clipped(
        root + ".lconv1d.linear_end"@,
        seq![hidden, hidden],
        narrow,
    ).clipped(root + ".feed_forward2.ffw_layer_1"@, seq![four, hidden], narrow).clipped(
        root + ".feed_forward2.ffw_layer_2"@,
        seq![hidden, four],
        wide,
    )
}

/// An audio layer, up to the first fault.
pub open spec fn audio_layer(d: Draft, config: AudioConfig, layer: int) -> Draft {
    let root = audio_root(layer);
    let hidden = config.hidden_size as usize;
    let normed = audio_norms(d, hidden, layer);
    match first_of(
        product_fault(4, hidden as int, "audio feed-forward width"@),
        product_fault(2, hidden as int, "audio convolution gate width"@),
    ) {
        Some(fault) => normed.failed(fault),
        None => {
            let multiplied = audio_matrices(normed, hidden, layer);
            match dimension_fault(config.conv_kernel_size, "audio convolution kernel"@) {
                Some(fault) => multiplied.failed(fault),
                None => multiplied.media(
                    root + ".self_attn.relative_k_proj.weight"@,
                    seq![hidden, hidden],
                ).media(
                    root + ".self_attn.per_dim_scale"@,
                    seq![config.head_dim as usize],
                ).media(
                    root + ".lconv1d.depthwise_conv1d.weight"@,
                    seq![hidden, config.conv_kernel_size as usize, 1usize],
                ),
            }
        },
    }
}

/// The first `layers` audio layers, up to the first fault.
pub open spec fn audio_layers(d: Draft, config: AudioConfig, layers: int) -> Draft
    decreases layers,
{
    if layers <= 0 {
        d
    } else {
        let earlier = audio_layers(d, config, layers - 1);
        if earlier.failure is Some {
            earlier
        } else {
            audio_layer(earlier, config, layers - 1)
        }
    }
}

/// The audio tower and its projection to the decoder width, up to the first fault.
pub open spec fn audio_part(d: Draft, config: AudioConfig, text_hidden: usize) -> Draft {
    let widths = audio_widths(config);
    match audio_fault(config) {
        Some(fault) => d.failed(fault),
        None => {
            let convolved = convolution_part(d, widths);
            match product_fault(32, widths.second as int, "audio subsampling width"@) {
                Some(fault) => convolved.failed(fault),
                None => {
                    let projected = audio_projection_part(convolved, widths);
                    match dimension_fault(config.num_hidden_layers, "audio layer count"@) {
                        Some(fault) => projected.failed(fault),
                        None => {
                            let layered = audio_layers(
                                projected,
                                config,
                                config.num_hidden_layers as int,
                            );
                            if layered.failure is Some {
                                layered
                            } else {
                                layered.tower(
                                    "model.embed_audio.embedding_projection.weight"@,
                                    seq![text_hidden, widths.projection],
                                    by_audio(widths.projection),
                                )
                            }
                        },
                    }
                },
            }
        },
    }
}

fn add_audio_norms(draft: &mut SafetensorsDraft, root: &String, hidden: usize, layer: usize)
    requires
        root@ == audio_root(layer as int),
    ensures
        final(draft).deep_view() == audio_norms(old(draft).deep_view(), hidden, layer as int),
        old(draft).deep_view().complete() ==> final(draft).deep_view().complete(),
{
    draft.media(under(root, ".feed_forward1.pre_layer_norm.weight"), shape1(hidden));
    draft.media(under(root, ".feed_forward1.post_layer_norm.weight"), shape1(hidden));
    draft.media(under(root, ".norm_pre_attn.weight"), shape1(hidden));
    draft.media(under(root, ".norm_post_attn.weight"), shape1(hidden));
    draft.media(under(root, ".lconv1d.pre_layer_norm.weight"), shape1(hidden));
    draft.media(under(root, ".lconv1d.conv_norm.weight"), shape1(hidden));
    draft.media(under(root, ".feed_forward2.pre_layer_norm.weight"), shape1(hidden));
    draft.media(under(root, ".feed_forward2.post_layer_norm.weight"), shape1(hidden));
    draft.media(under(root, ".norm_out.weight"), shape1(hidden));
}

fn add_audio_matrices(
    draft: &mut SafetensorsDraft,
    root: &String,
    hidden: usize,
    four: usize,
    two: usize,
    layer: usize,
)
    requires
        root@ == audio_root(layer as int),
        four == 4 * hidden,
        two == 2 * hidden,
    ensures
        final(draft).deep_view() == audio_matrices(old(draft).deep_view(), hidden, layer as int),
        old(draft).deep_view().complete() ==> final(draft).deep_view().complete(),
{
    draft.clipped(
        under(root, ".feed_forward1.ffw_layer_1").as_str(),
        shape2(four, hidden),
        for_audio(hidden),
    );
    draft.clipped(
        under(root, ".feed_forward1.ffw_layer_2").as_str(),
        shape2(hidden, four),
        for_audio(four),
    );
    draft.clipped(
        under(root, ".self_attn.q_proj").as_str(),
        shape2(hidden, hidden),
        for_audio(hidden),
    );
    draft.clipped(
        under(root, ".self_attn.k_proj").as_str(),
        shape2(hidden, hidden),
        for_audio(hidden),
    );
    draft.clipped(
        under(root, ".self_attn.v_proj").as_str(),
        shape2(hidden, hidden),
        for_audio(hidden),
    );
    draft.clipped(
        under(root, ".self_attn.post").as_str(),
        shape2(hidden, hidden),
        for_audio(hidden),
    );
    draft.clipped(
        under(root, ".lconv1d.linear_start").as_str(),
        shape2(two, hidden),
        for_audio(hidden),
    );
    draft.clipped(
        under(root, ".lconv1d.linear_end").as_str(),
        shape2(hidden, hidden),
        for_audio(hidden),
    );
    draft.clipped(
        under(root, ".feed_forward2.ffw_layer_1").as_str(),
        shape2(four, hidden),
        for_audio(hidden),
    );
    draft.clipped(
        under(root, ".feed_forward2.ffw_layer_2").as_str(),
        shape2(hidden, four),
        for_audio(four),
    );
}

fn audio_products(hidden: usize) -> (r: Result<(usize, usize), String>)
    ensures
        match first_of(
            product_fault(4, hidden as int, "audio feed-forward width"@),
            product_fault(2, hidden as int, "audio convolution gate width"@),
        ) {
            Some(fault) => says(r, fault),
            None => r == Ok::<(usize, usize), String>(
                ((4 * hidden) as usize, (2 * hidden) as usize),
            ),
        },
{
    let four: usize = checked_mul(4, hidden, "audio feed-forward width")?;
    let two: usize = checked_mul(2, hidden, "audio convolution gate width")?;
    Ok((four, two))
}

fn add_audio_layer(
    draft: &mut SafetensorsDraft,
    config: &AudioConfig,
    hidden: usize,
    layer: usize,
)
    requires
        hidden == config.hidden_size as usize,
    ensures
        final(draft).deep_view() == audio_layer(old(draft).deep_view(), *config, layer as int),
        old(draft).deep_view().complete() ==> final(draft).deep_view().complete(),
{
    let root: String = "model.audio_tower.layers.".to_owned().concat(
        decimal_text(layer as u64).as_str(),
    );
    add_audio_norms(draft, &root, hidden, layer);
    let (four, two) = match audio_products(hidden) {
        Ok(products) => products,
        Err(message) => {
            draft.fail(message);
            return ;
        },
    };
    add_audio_matrices(draft, &root, hidden, four, two, layer);
    let kernel: usize = match dimension(config.conv_kernel_size, "audio convolution kernel") {
        Ok(kernel) => kernel,
        Err(message) => {
            draft.fail(message);
            return ;
        },
    };
    draft.media(under(&root, ".self_attn.relative_k_proj.weight"), shape2(hidden, hidden));
    draft.media(under(&root, ".self_attn.per_dim_scale"), shape1(config.head_dim as usize));
    draft.media(
        under(&root, ".lconv1d.depthwise_conv1d.weight"),
        shape3(hidden, kernel, 1),
    );
}

proof fn lemma_audio_layers_end(d: Draft, config: AudioConfig, from: int, to: int)
    requires
        0 <= from <= to,
        audio_layers(d, config, from).failure is Some,
    ensures
        audio_layers(d, config, to) == audio_layers(d, config, from),
    decreases to - from,
{
    if from < to {
        lemma_audio_layers_end(d, config, from, to - 1);
    }
}

fn add_audio_layers(
    draft: &mut SafetensorsDraft,
    config: &AudioConfig,
    hidden: usize,
    layers: usize,
)
    requires
        hidden == config.hidden_size as usize,
        old(draft).failure is None,
    ensures
        final(draft).deep_view() == audio_layers(
            old(draft).deep_view(),
            *config,
            layers as int,
        ),
        old(draft).deep_view().complete() ==> final(draft).deep_view().complete(),
{
    let ghost before = draft.deep_view();
    let mut layer: usize = 0;
    while layer < layers
        invariant
            layer <= layers,
            hidden == config.hidden_size as usize,
            before == old(draft).deep_view(),
            before.complete() ==> draft.deep_view().complete(),
            draft.failure is None,
            draft.deep_view() == audio_layers(before, *config, layer as int),
        decreases layers - layer,
    {
        add_audio_layer(draft, config, hidden, layer);
        layer = layer + 1;
        if draft.failure.is_some() {
            proof {
                lemma_audio_layers_end(before, *config, layer as int, layers as int);
            }
            return ;
        }
    }
}

fn add_convolutions(draft: &mut SafetensorsDraft, widths: AudioWidths)
    ensures
        final(draft).deep_view() == convolution_part(old(draft).deep_view(), widths),
        old(draft).deep_view().complete() ==> final(draft).deep_view().complete(),
{
    draft.media(
        "model.audio_tower.subsample_conv_projection.layer0.conv.weight".to_owned(),
        shape4(widths.first, 3, 3, 1),
    );
    draft.media(
        "model.audio_tower.subsample_conv_projection.layer0.norm.weight".to_owned(),
        shape1(widths.first),
    );
    draft.media(
        "model.audio_tower.subsample_conv_projection.layer1.conv.weight".to_owned(),
        shape4(widths.second, 3, 3, widths.first),
    );
    draft.media(
        "model.audio_tower.subsample_conv_projection.layer1.norm.weight".to_owned(),
        shape1(widths.second),
    );
}

fn add_audio_projections(draft: &mut SafetensorsDraft, widths: AudioWidths, input: usize)
    requires
        input == 32 * widths.second,
    ensures
        final(draft).deep_view() == audio_projection_part(old(draft).deep_view(), widths),
        old(draft).deep_view().complete() ==> final(draft).deep_view().complete(),
{
    draft.tower(
        "model.audio_tower.subsample_conv_projection.input_proj_linear.weight".to_owned(),
        shape2(widths.hidden, input),
        for_audio(input),
    );
    draft.tower(
        "model.audio_tower.output_proj.weight".to_owned(),
        shape2(widths.projection, widths.hidden),
        for_audio(widths.hidden),
    );
    let mut bias: SafetensorsTensorConstraint = safe(
        "model.audio_tower.output_proj.bias".to_owned(),
        shape1(widths.projection),
    );
    bias.requirement = TensorRequirement::Optional;
    draft.plain(bias);
}

/// Adds the audio tower and its projection to the decoder width.
pub(crate) fn add_safetensors_audio(
    draft: &mut SafetensorsDraft,
    config: &AudioConfig,
    text_hidden: usize,
)
    requires
        old(draft).failure is None,
    ensures
        final(draft).deep_view() == audio_part(old(draft).deep_view(), *config, text_hidden),
        old(draft).deep_view().complete() ==> final(draft).deep_view().complete(),
{
    let widths: AudioWidths = match settle_audio(config) {
        Ok(widths) => widths,
        Err(message) => {
            draft.fail(message);
            return ;
        },
    };
    add_convolutions(draft, widths);
    let input: usize = match checked_mul(32, widths.second, "audio subsampling width") {
        Ok(input) => input,
        Err(message) => {
            draft.fail(message);
            return ;
        },
    };
    add_audio_projections(draft, widths, input);
    let layers: usize = match dimension(config.num_hidden_layers, "audio layer count") {
        Ok(layers) => layers,
        Err(message) => {
            draft.fail(message);
            return ;
        },
    };
    assert(draft.deep_view().failure is None);
    add_audio_layers(draft, config, widths.hidden, layers);
    if draft.failure.is_some() {
        return ;
    }
    draft.tower(
        "model.embed_audio.embedding_projection.weight".to_owned(),
        shape2(text_hidden, widths.projection),
        for_audio(widths.projection),
    );
}

} // verus!
