//! Which GGUF metadata declares a decoder.

use crate::config_laws::{
    lemma_sparse, stored, stored_block, stored_entry, stored_float, stored_slides, stored_sparse,
};
use crate::errors::{Fault, fault_if, fault_of, first_of};
use crate::gguf_config::{
    Declared, differing, full_owner, key_as_value, layer_values, optional_i32, positive_i32,
    reuses_key, spread,
};
use crate::metadata::MetadataValue;
use vstd::prelude::*;

verus! {

/// Whether a 32-bit integer is stored under `key`.
pub open spec fn has_number(metadata: Map<Seq<char>, MetadataValue>, key: Seq<char>) -> bool {
    stored(metadata, key) is Some && i32::MIN <= stored(metadata, key)->0 <= i32::MAX
}

/// Whether nothing but a 32-bit integer is stored under `key`.
pub open spec fn may_have_number(metadata: Map<Seq<char>, MetadataValue>, key: Seq<char>) -> bool {
    metadata.contains_key(key) ==> has_number(metadata, key)
}

/// Whether nothing but a number is stored under `key`.
pub open spec fn may_have_float(metadata: Map<Seq<char>, MetadataValue>, key: Seq<char>) -> bool {
    metadata.contains_key(key) ==> stored_float(metadata, key) is Some
}

/// Whether a positive value is stored under `key` for every layer: one for each, or one for all.
pub open spec fn has_layer_values(
    metadata: Map<Seq<char>, MetadataValue>,
    key: Seq<char>,
    layers: int,
) -> bool {
    &&& metadata.contains_key(key)
    &&& metadata[key].to_i64_vec is Some
    &&& metadata[key].to_i64_vec->0.len() == 1 || metadata[key].to_i64_vec->0.len() == layers
    &&& forall|layer: int| #![trigger stored_entry(metadata, key, layer)]
        0 <= layer < layers ==> 0 < stored_entry(metadata, key, layer) <= i32::MAX
}

/// Whether the layer pattern, where one is stored, has one switch for every layer.
pub open spec fn has_pattern(metadata: Map<Seq<char>, MetadataValue>, layers: int) -> bool {
    let key = "gemma4.attention.sliding_window_pattern"@;
    metadata.contains_key(key) ==> match metadata[key].bool_array {
        Some(switches) => switches.len() == layers,
        None => metadata[key].to_i64_vec is Some && metadata[key].to_i64_vec->0.len() == layers,
    }
}

/// Number of trailing layers that are stored as consumers of shared state.
pub open spec fn shared_layers(metadata: Map<Seq<char>, MetadataValue>) -> int {
    match stored(metadata, "gemma4.attention.shared_kv_layers"@) {
        Some(shared) => shared,
        None => 0,
    }
}

/// Whether block `layer` stores keys without values.
pub open spec fn stores_keys_alone(declared: Declared, layer: int) -> bool {
    stored_block(declared.catalog, layer, ".attn_k.weight"@) && !stored_block(
        declared.catalog,
        layer,
        ".attn_v.weight"@,
    )
}

/// Whether the layers are declared: their number, pattern, window, widths, and head counts, the
/// same count for every layer of one attention kind.
pub open spec fn declares_layers(declared: Declared) -> bool {
    let metadata = declared.metadata;
    let layers = stored(metadata, "gemma4.block_count"@)->0;
    let window = "gemma4.attention.sliding_window"@;
    &&& has_number(metadata, "gemma4.block_count"@)
    &&& layers > 0
    &&& has_pattern(metadata, layers)
    &&& metadata.contains_key(window) ==> stored(metadata, window) is Some
    &&& forall|layer: int| #![trigger stored_slides(metadata, layer)]
        0 <= layer < layers && stored_slides(metadata, layer) ==> stored(metadata, window) is Some
            && stored(metadata, window)->0 > 0
    &&& has_layer_values(metadata, "gemma4.feed_forward_length"@, layers)
    &&& has_layer_values(metadata, "gemma4.attention.head_count_kv"@, layers)
    &&& forall|i: int, j: int|
        #![trigger stored_slides(metadata, i), stored_slides(metadata, j)]
        0 <= i < j < layers && stored_slides(metadata, i) == stored_slides(metadata, j)
            ==> stored_entry(metadata, "gemma4.attention.head_count_kv"@, i) == stored_entry(
            metadata,
            "gemma4.attention.head_count_kv"@,
            j,
        )
}

/// Whether state sharing is declared: no more shared layers than there are, and one value
/// topology for the full-attention layers that own their state.
pub open spec fn declares_state(declared: Declared) -> bool {
    let metadata = declared.metadata;
    let layers = stored(metadata, "gemma4.block_count"@)->0;
    &&& may_have_number(metadata, "gemma4.attention.shared_kv_layers"@)
    &&& 0 <= shared_layers(metadata) <= layers
    &&& forall|i: int, j: int|
        #![trigger stored_slides(metadata, i), stored_slides(metadata, j)]
        0 <= i < layers - shared_layers(metadata) && 0 <= j < layers - shared_layers(metadata)
            && !stored_slides(metadata, i) && !stored_slides(metadata, j) ==> stores_keys_alone(
            declared,
            i,
        ) == stores_keys_alone(declared, j)
}

/// Whether every other setting is declared.
pub open spec fn declares_scalars(declared: Declared) -> bool {
    let metadata = declared.metadata;
    let epsilon = stored_float(metadata, "gemma4.attention.layer_norm_rms_epsilon"@);
    let full = stored_float(metadata, "gemma4.rope.freq_base"@);
    let local = stored_float(metadata, "gemma4.rope.freq_base_swa"@);
    &&& may_have_number(metadata, "gemma4.expert_count"@)
    &&& has_number(metadata, "gemma4.vocab_size"@)
    &&& has_number(metadata, "gemma4.attention.key_length"@)
    &&& may_have_number(metadata, "gemma4.attention.key_length_swa"@)
    &&& may_have_float(metadata, "gemma4.rope.freq_base"@)
    &&& may_have_float(metadata, "gemma4.rope.freq_base_swa"@)
    &&& full is Some ==> full->0.finite()
    &&& local is Some ==> local->0.finite()
    &&& has_number(metadata, "gemma4.embedding_length"@)
    &&& has_number(metadata, "gemma4.attention.head_count"@)
    &&& epsilon is Some && epsilon->0.finite()
    &&& has_number(metadata, "gemma4.context_length"@)
    &&& may_have_number(metadata, "gemma4.embedding_length_per_layer_input"@)
    &&& may_have_float(metadata, "gemma4.final_logit_softcapping"@)
    &&& stored_sparse(declared) ==> {
        &&& has_number(metadata, "gemma4.expert_used_count"@)
        &&& has_number(metadata, "gemma4.expert_feed_forward_length"@)
    }
}

proof fn lemma_values(metadata: Map<Seq<char>, MetadataValue>, key: Seq<char>, layers: int)
    requires
        layers > 0,
    ensures
        layer_values(metadata, key, layers) is Ok <==> has_layer_values(metadata, key, layers),
        has_layer_values(metadata, key, layers) ==> {
            &&& layer_values(metadata, key, layers)->Ok_0.len() == layers
            &&& forall|layer: int| #![trigger stored_entry(metadata, key, layer)]
                0 <= layer < layers ==> layer_values(metadata, key, layers)->Ok_0[layer]
                    == stored_entry(metadata, key, layer)
        },
{
    if metadata.contains_key(key) && metadata[key].to_i64_vec is Some {
        let declared = metadata[key].to_i64_vec->0@;
        let values = spread(declared, layers);
        if values.len() == layers {
            assert forall|layer: int| #![trigger stored_entry(metadata, key, layer)]
                0 <= layer < layers implies values[layer] == stored_entry(metadata, key, layer) by {
            }
            if exists|i: int| 0 <= i < values.len() && !positive_i32(#[trigger] values[i]) {
                let i = choose|i: int| 0 <= i < values.len() && !positive_i32(#[trigger] values[i]);
                assert(values[i] == stored_entry(metadata, key, i));
            } else {
                assert forall|layer: int| #![trigger stored_entry(metadata, key, layer)]
                    0 <= layer < layers implies 0 < stored_entry(metadata, key, layer)
                    <= i32::MAX by {
                    assert(positive_i32(values[layer]));
                }
            }
        }
    }
}

proof fn lemma_pattern(declared: Declared)
    requires
        has_number(declared.metadata, "gemma4.block_count"@),
        stored(declared.metadata, "gemma4.block_count"@)->0 > 0,
    ensures
        ({
            let layers = stored(declared.metadata, "gemma4.block_count"@)->0;
            &&& declared.layers() == Ok::<i32, Fault>(layers as i32)
            &&& declared.pattern() is Ok <==> has_pattern(declared.metadata, layers)
            &&& has_pattern(declared.metadata, layers) ==> {
                &&& declared.pattern()->Ok_0.len() == layers
                &&& forall|layer: int| #![trigger stored_slides(declared.metadata, layer)]
                    0 <= layer < layers ==> declared.pattern()->Ok_0[layer] == stored_slides(
                        declared.metadata,
                        layer,
                    )
            }
        }),
{
}

proof fn lemma_layers_declared(declared: Declared)
    ensures
        declares_layers(declared) ==> declared.schedule_fault() == first_of(
            fault_of(
                optional_i32(declared.metadata, "gemma4.attention.shared_kv_layers"@),
            ),
            first_of(
                fault_if(
                    !(0 <= declared.shared() <= declared.layers()->Ok_0),
                    "Gemma 4 GGUF shared-KV layer count is invalid"@,
                ),
                fault_of(declared.key_as_value()),
            ),
        ),
        declared.schedule_fault() is None ==> declares_layers(declared),
{
    let metadata = declared.metadata;
    let layers = stored(metadata, "gemma4.block_count"@)->0;
    let heads = "gemma4.attention.head_count_kv"@;
    if has_number(metadata, "gemma4.block_count"@) && layers > 0 {
        lemma_pattern(declared);
        lemma_values(metadata, "gemma4.feed_forward_length"@, layers);
        lemma_values(metadata, heads, layers);
        let pattern = declared.pattern()->Ok_0;
        let values = declared.kv_heads()->Ok_0;
        if has_pattern(metadata, layers) {
            if declared.window_missing() {
                let i = choose|i: int| 0 <= i < pattern.len() && #[trigger] pattern[i];
                assert(stored_slides(metadata, i));
            } else {
                assert forall|layer: int| #![trigger stored_slides(metadata, layer)]
                    0 <= layer < layers && stored_slides(metadata, layer) implies pattern[layer] by {
                }
            }
            if has_layer_values(metadata, heads, layers) {
                assert forall|kind: bool| #[trigger] differing(pattern, kind, values) implies exists|
                    i: int,
                    j: int,
                |
                    #![trigger stored_slides(metadata, i), stored_slides(metadata, j)]
                    0 <= i < j < layers && stored_slides(metadata, i) == stored_slides(metadata, j)
                        && stored_entry(metadata, heads, i) != stored_entry(metadata, heads, j) by {
                    let (i, j) = choose|i: int, j: int|
                        0 <= i < j < pattern.len() && pattern[i] == kind && pattern[j] == kind
                            && #[trigger] values[i] != #[trigger] values[j];
                    assert(stored_slides(metadata, i) == stored_slides(metadata, j));
                    assert(stored_entry(metadata, heads, i) == values[i]);
                    assert(stored_entry(metadata, heads, j) == values[j]);
                }
                assert forall|i: int, j: int|
                    #![trigger stored_slides(metadata, i), stored_slides(metadata, j)]
                    0 <= i < j < layers && stored_slides(metadata, i) == stored_slides(metadata, j)
                        && stored_entry(metadata, heads, i) != stored_entry(
                        metadata,
                        heads,
                        j,
                    ) implies differing(pattern, stored_slides(metadata, i), values) by {
                    assert(values[i] != values[j]);
                }
            }
        }
    }
}

proof fn lemma_state_declared(declared: Declared)
    requires
        declares_layers(declared),
    ensures
        declared.schedule_fault() is None <==> declares_state(declared),
{
    lemma_layers_declared(declared);
    lemma_pattern(declared);
    let metadata = declared.metadata;
    let layers = stored(metadata, "gemma4.block_count"@)->0;
    if may_have_number(metadata, "gemma4.attention.shared_kv_layers"@) {
        assert(declared.shared() == shared_layers(metadata));
        let pattern = declared.pattern()->Ok_0;
        let owners = layers - shared_layers(metadata);
        if 0 <= shared_layers(metadata) <= layers {
            if key_as_value(declared.catalog, pattern, owners) is Err {
                let i = choose|layer: int| #[trigger]
                    full_owner(declared.catalog, pattern, owners, layer, true);
                let j = choose|layer: int| #[trigger]
                    full_owner(declared.catalog, pattern, owners, layer, false);
                assert(!stored_slides(metadata, i) && !stored_slides(metadata, j));
                assert(stores_keys_alone(declared, i) != stores_keys_alone(declared, j));
            } else {
                assert forall|i: int, j: int|
                    #![trigger stored_slides(metadata, i), stored_slides(metadata, j)]
                    0 <= i < owners && 0 <= j < owners && !stored_slides(metadata, i)
                        && !stored_slides(metadata, j) implies stores_keys_alone(declared, i)
                    == stores_keys_alone(declared, j) by {
                    assert(full_owner(
                        declared.catalog,
                        pattern,
                        owners,
                        i,
                        reuses_key(declared.catalog, i),
                    ));
                    assert(full_owner(
                        declared.catalog,
                        pattern,
                        owners,
                        j,
                        reuses_key(declared.catalog, j),
                    ));
                }
            }
        }
    }
}

/// GGUF metadata is admitted exactly where it declares the layers, the sharing of their state,
/// and every other setting that a decoder needs.
pub proof fn law_gguf_metadata_is_admitted(declared: Declared)
    ensures
        declared.fault() is None <==> declares_layers(declared) && declares_state(declared)
            && declares_scalars(declared),
{
    lemma_layers_declared(declared);
    if declares_layers(declared) {
        lemma_pattern(declared);
        lemma_state_declared(declared);
        if may_have_number(declared.metadata, "gemma4.expert_count"@) {
            lemma_sparse(declared);
        }
    }
}

} // verus!
