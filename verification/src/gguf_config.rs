//! Gemma 4 text configuration declared by GGUF metadata.

use crate::config::{ModelArgs, RopeSetting, RopeValue};
use crate::errors::{
    ConfigError, Fault, Reading, fault_if, fault_of, first_of, invalid, null_number,
    reports,
};
use crate::float::Float32;
use crate::metadata::MetadataValue;
use crate::names::{NameSet, StringMap};
use crate::normalize::{AttentionKind, ModelArgsSource, RotaryChecks, normalize, normalized};
use crate::text::{debug_quoted, debug_text, decimal, decimal_text};
use vstd::prelude::*;

verus! {

/// Encoding of the rotary base of full layers where metadata declares none: one million.
pub const DEFAULT_FULL_ROPE: u32 = 0x4974_2400;

/// Encoding of the rotary base of sliding layers where metadata declares none: ten thousand.
pub const DEFAULT_LOCAL_ROPE: u32 = 0x461c_4000;

/// Encoding of the share of every full-attention head that is rotated: one quarter.
pub const PARTIAL_ROTARY: u32 = 0x3e80_0000;

/// Whether an executed reader gave `reading`.
pub open spec fn gives<T>(r: Result<T, ConfigError>, reading: Reading<T>) -> bool {
    match reading {
        Ok(value) => r == Ok::<T, ConfigError>(value),
        Err(fault) => reports(r, fault),
    }
}

/// Reading of an optional signed 64-bit scalar.
pub open spec fn optional_i64(
    metadata: Map<Seq<char>, MetadataValue>,
    key: Seq<char>,
) -> Reading<Option<i64>> {
    if !metadata.contains_key(key) {
        Ok(None)
    } else {
        match metadata[key].as_i64 {
            Some(value) => Ok(Some(value)),
            None => Err(
                Fault::Invalid("Gemma 4 GGUF "@ + debug_quoted(key) + " must be an integer"@),
            ),
        }
    }
}

/// Reading of an optional signed 32-bit scalar.
pub open spec fn optional_i32(
    metadata: Map<Seq<char>, MetadataValue>,
    key: Seq<char>,
) -> Reading<Option<i32>> {
    if !metadata.contains_key(key) {
        Ok(None)
    } else {
        match metadata[key].as_i64 {
            Some(value) if i32::MIN <= value <= i32::MAX => Ok(Some(value as i32)),
            _ => Err(Fault::Invalid("Gemma 4 GGUF "@ + debug_quoted(key) + " must be an i32"@)),
        }
    }
}

/// Reading of an optional binary32 scalar.
pub open spec fn optional_f32(
    metadata: Map<Seq<char>, MetadataValue>,
    key: Seq<char>,
) -> Reading<Option<Float32>> {
    if !metadata.contains_key(key) {
        Ok(None)
    } else {
        match metadata[key].as_f32 {
            Some(value) => Ok(Some(value)),
            None => Err(Fault::Invalid("Gemma 4 GGUF "@ + debug_quoted(key) + " must be numeric"@)),
        }
    }
}

/// A reading that must be there.
pub open spec fn required<T>(reading: Reading<Option<T>>, key: Seq<char>) -> Reading<T> {
    match reading {
        Ok(Some(value)) => Ok(value),
        Ok(None) => Err(Fault::Invalid("Gemma 4 GGUF is missing "@ + debug_quoted(key))),
        Err(fault) => Err(fault),
    }
}

/// Reading of a signed 32-bit scalar that must be there.
pub open spec fn required_i32(
    metadata: Map<Seq<char>, MetadataValue>,
    key: Seq<char>,
) -> Reading<i32> {
    required(optional_i32(metadata, key), key)
}

fn key_error(key: &str, tail: &str) -> (r: ConfigError)
    ensures
        r.deep_view() == Fault::Invalid("Gemma 4 GGUF "@ + debug_quoted(key@) + tail@),
{
    ConfigError::Invalid(
        "Gemma 4 GGUF ".to_owned().concat(debug_text(key).as_str()).concat(tail),
    )
}

fn missing(key: &str) -> (r: ConfigError)
    ensures
        r.deep_view() == Fault::Invalid("Gemma 4 GGUF is missing "@ + debug_quoted(key@)),
{
    ConfigError::Invalid("Gemma 4 GGUF is missing ".to_owned().concat(debug_text(key).as_str()))
}

fn gguf_optional_i64(metadata: &StringMap<MetadataValue>, key: &str) -> (r: Result<
    Option<i64>,
    ConfigError,
>)
    ensures
        gives(r, optional_i64(metadata@, key@)),
{
    match metadata.get(key) {
        None => Ok(None),
        Some(value) => match value.as_i64 {
            Some(value) => Ok(Some(value)),
            None => Err(key_error(key, " must be an integer")),
        },
    }
}

fn gguf_optional_i32(metadata: &StringMap<MetadataValue>, key: &str) -> (r: Result<
    Option<i32>,
    ConfigError,
>)
    ensures
        gives(r, optional_i32(metadata@, key@)),
{
    match metadata.get(key) {
        None => Ok(None),
        Some(value) => match value.as_i64 {
            Some(value) if i32::MIN as i64 <= value && value <= i32::MAX as i64 => Ok(
                Some(value as i32),
            ),
            _ => Err(key_error(key, " must be an i32")),
        },
    }
}

fn gguf_i32(metadata: &StringMap<MetadataValue>, key: &str) -> (r: Result<i32, ConfigError>)
    ensures
        gives(r, required_i32(metadata@, key@)),
{
    match gguf_optional_i32(metadata, key)? {
        Some(value) => Ok(value),
        None => Err(missing(key)),
    }
}

fn gguf_optional_f32(metadata: &StringMap<MetadataValue>, key: &str) -> (r: Result<
    Option<Float32>,
    ConfigError,
>)
    ensures
        gives(r, optional_f32(metadata@, key@)),
{
    match metadata.get(key) {
        None => Ok(None),
        Some(value) => match value.as_f32 {
            Some(value) => Ok(Some(value)),
            None => Err(key_error(key, " must be numeric")),
        },
    }
}

fn gguf_f32(metadata: &StringMap<MetadataValue>, key: &str) -> (r: Result<Float32, ConfigError>)
    ensures
        gives(r, required(optional_f32(metadata@, key@), key@)),
{
    match gguf_optional_f32(metadata, key)? {
        Some(value) => Ok(value),
        None => Err(missing(key)),
    }
}

/// Per-layer switches of an integer array: whether each entry is nonzero.
pub open spec fn nonzero(values: Seq<i64>) -> Seq<bool> {
    Seq::new(values.len(), |i: int| values[i] != 0)
}

/// Which of `layers` layers slide.
pub open spec fn layer_pattern(metadata: Map<Seq<char>, MetadataValue>, layers: int) -> Reading<
    Seq<bool>,
> {
    let key = "gemma4.attention.sliding_window_pattern"@;
    if !metadata.contains_key(key) {
        Ok(Seq::new(layers as nat, |i: int| false))
    } else {
        let switches = match metadata[key].bool_array {
            Some(values) => Some(values@),
            None => match metadata[key].to_i64_vec {
                Some(values) => Some(nonzero(values@)),
                None => None,
            },
        };
        match switches {
            None => Err(
                Fault::Invalid(
                    "Gemma 4 GGUF "@ + debug_quoted(key) + " must be an integer/bool array"@,
                ),
            ),
            Some(values) => if values.len() != layers {
                Err(
                    Fault::Invalid(
                        "Gemma 4 GGUF sliding pattern has "@ + decimal(values.len())
                            + " entries for "@ + decimal(layers as nat) + " layers"@,
                    ),
                )
            } else {
                Ok(values)
            },
        }
    }
}

fn is_nonzero(values: &Vec<i64>) -> (r: Vec<bool>)
    ensures
        r@ == nonzero(values@),
{
    let mut switches: Vec<bool> = Vec::new();
    let mut at: usize = 0;
    while at < values.len()
        invariant
            at <= values.len(),
            switches@ == nonzero(values@).take(at as int),
        decreases values.len() - at,
    {
        switches.push(values[at] != 0);
        assert(switches@ =~= nonzero(values@).take(at as int + 1));
        at = at + 1;
    }
    assert(nonzero(values@).take(values.len() as int) =~= nonzero(values@));
    switches
}

/// Reads which layers slide.
fn gguf_layer_pattern(metadata: &StringMap<MetadataValue>, layers: usize) -> (r: Result<
    Vec<bool>,
    ConfigError,
>)
    ensures
        match layer_pattern(metadata@, layers as int) {
            Ok(pattern) => r matches Ok(values) && values@ == pattern,
            Err(fault) => reports(r, fault),
        },
{
    let key = "gemma4.attention.sliding_window_pattern";
    let values: Vec<bool> = match metadata.get(key) {
        None => {
            let mut full: Vec<bool> = Vec::new();
            let mut layer: usize = 0;
            while layer < layers
                invariant
                    layer <= layers,
                    full@ == Seq::new(layer as nat, |i: int| false),
                decreases layers - layer,
            {
                full.push(false);
                assert(full@ =~= Seq::new(layer as nat + 1, |i: int| false));
                layer = layer + 1;
            }
            return Ok(full);
        },
        Some(value) => match &value.bool_array {
            Some(values) => values.clone(),
            None => match &value.to_i64_vec {
                Some(values) => is_nonzero(values),
                None => {
                    return Err(key_error(key, " must be an integer/bool array"));
                },
            },
        },
    };
    if values.len() != layers {
        return Err(
            ConfigError::Invalid(
                "Gemma 4 GGUF sliding pattern has ".to_owned().concat(
                    decimal_text(values.len() as u64).as_str(),
                ).concat(" entries for ").concat(decimal_text(layers as u64).as_str()).concat(
                    " layers",
                ),
            ),
        );
    }
    Ok(values)
}

/// A list with one entry for every layer: one entry stands for all layers.
pub open spec fn spread(values: Seq<i64>, layers: int) -> Seq<i64> {
    if values.len() == 1 {
        Seq::new(layers as nat, |i: int| values[0])
    } else {
        values
    }
}

/// Whether `value` is a positive `i32`.
pub open spec fn positive_i32(value: i64) -> bool {
    0 < value <= i32::MAX
}

/// Positive value of every layer under `key`.
pub open spec fn layer_values(
    metadata: Map<Seq<char>, MetadataValue>,
    key: Seq<char>,
    layers: int,
) -> Reading<Seq<i32>> {
    if !metadata.contains_key(key) || metadata[key].to_i64_vec is None {
        Err(Fault::Invalid("Gemma 4 GGUF is missing integer array "@ + debug_quoted(key)))
    } else {
        let declared = metadata[key].to_i64_vec->0@;
        let values = spread(declared, layers);
        if values.len() != layers {
            Err(
                Fault::Invalid(
                    "Gemma 4 GGUF "@ + debug_quoted(key) + " has "@ + decimal(declared.len())
                        + " entries for "@ + decimal(layers as nat) + " layers"@,
                ),
            )
        } else if exists|i: int| 0 <= i < values.len() && !positive_i32(#[trigger] values[i]) {
            Err(
                Fault::Invalid(
                    "Gemma 4 GGUF "@ + debug_quoted(key) + " values must be positive i32"@,
                ),
            )
        } else {
            Ok(Seq::new(values.len(), |i: int| values[i] as i32))
        }
    }
}

/// Reads the positive value of every layer under `key`.
fn gguf_layer_i32_values(metadata: &StringMap<MetadataValue>, key: &str, layers: usize) -> (r:
    Result<Vec<i32>, ConfigError>)
    ensures
        match layer_values(metadata@, key@, layers as int) {
            Ok(expected) => r matches Ok(values) && values@ == expected,
            Err(fault) => reports(r, fault),
        },
{
    let declared: &Vec<i64> = match metadata.get(key) {
        Some(value) => match &value.to_i64_vec {
            Some(values) => values,
            None => {
                return Err(missing_array(key));
            },
        },
        None => {
            return Err(missing_array(key));
        },
    };
    let ghost all = spread(declared@, layers as int);
    if declared.len() != 1 && declared.len() != layers {
        return Err(
            ConfigError::Invalid(
                "Gemma 4 GGUF ".to_owned().concat(debug_text(key).as_str()).concat(" has ").concat(
                    decimal_text(declared.len() as u64).as_str(),
                ).concat(" entries for ").concat(decimal_text(layers as u64).as_str()).concat(
                    " layers",
                ),
            ),
        );
    }
    let mut values: Vec<i32> = Vec::new();
    let mut layer: usize = 0;
    while layer < layers
        invariant
            layer <= layers,
            metadata@.contains_key(key@),
            metadata@[key@].to_i64_vec == Some(*declared),
            all == spread(declared@, layers as int),
            all.len() == layers,
            declared.len() == 1 || declared.len() == layers,
            values.len() == layer,
            forall|i: int| 0 <= i < layer ==> positive_i32(#[trigger] all[i]),
            forall|i: int| 0 <= i < layer ==> #[trigger] values[i] == all[i] as i32,
        decreases layers - layer,
    {
        let value: i64 = if declared.len() == 1 {
            declared[0]
        } else {
            declared[layer]
        };
        assert(value == all[layer as int]);
        if value <= 0 || value > i32::MAX as i64 {
            return Err(key_error(key, " values must be positive i32"));
        }
        values.push(value as i32);
        layer = layer + 1;
    }
    assert(values@ =~= Seq::new(all.len(), |i: int| all[i] as i32));
    Ok(values)
}

fn missing_array(key: &str) -> (r: ConfigError)
    ensures
        r.deep_view() == Fault::Invalid(
            "Gemma 4 GGUF is missing integer array "@ + debug_quoted(key@),
        ),
{
    ConfigError::Invalid(
        "Gemma 4 GGUF is missing integer array ".to_owned().concat(debug_text(key).as_str()),
    )
}

/// First of the layers before `end` where `selected` is `kind`.
pub open spec fn first_selected(selected: Seq<bool>, kind: bool, end: int) -> Option<int>
    decreases end,
{
    if end <= 0 {
        None
    } else if first_selected(selected, kind, end - 1) is Some {
        first_selected(selected, kind, end - 1)
    } else if selected[end - 1] == kind {
        Some(end - 1)
    } else {
        None
    }
}

/// Whether two layers where `selected` is `kind` differ in their value.
pub open spec fn differing(selected: Seq<bool>, kind: bool, values: Seq<i32>) -> bool {
    exists|i: int, j: int|
        0 <= i < j < selected.len() && selected[i] == kind && selected[j] == kind
            && #[trigger] values[i] != #[trigger] values[j]
}

/// The one key/value head count of the layers whose pattern is `kind`.
pub open spec fn uniform_heads(selected: Seq<bool>, kind: bool, values: Seq<i32>) -> Reading<
    Option<i32>,
> {
    if differing(selected, kind, values) {
        Err(Fault::Invalid("Gemma 4 GGUF KV heads must be uniform within each attention policy"@))
    } else {
        match first_selected(selected, kind, selected.len() as int) {
            Some(layer) => Ok(Some(values[layer])),
            None => Ok(None),
        }
    }
}

/// Reads the one key/value head count of the layers whose pattern is `kind`.
fn uniform_kv_heads(pattern: &Vec<bool>, kind: bool, values: &Vec<i32>) -> (r: Result<
    Option<i32>,
    ConfigError,
>)
    requires
        pattern.len() == values.len(),
    ensures
        gives(r, uniform_heads(pattern@, kind, values@)),
{
    let mut found: Option<usize> = None;
    let mut layer: usize = 0;
    while layer < pattern.len()
        invariant
            layer <= pattern.len(),
            pattern.len() == values.len(),
            match found {
                Some(first) => first < layer && first_selected(pattern@, kind, layer as int)
                    == Some(first as int) && pattern[first as int] == kind,
                None => first_selected(pattern@, kind, layer as int) is None,
            },
            found is None ==> forall|i: int| 0 <= i < layer ==> #[trigger] pattern[i] != kind,
            found matches Some(first) ==> forall|i: int|
                0 <= i < layer && pattern[i] == kind ==> #[trigger] values[i]
                    == values[first as int],
        decreases pattern.len() - layer,
    {
        if pattern[layer] == kind {
            match found {
                Some(first) => {
                    if values[first] != values[layer] {
                        assert(differing(pattern@, kind, values@));
                        return Err(
                            invalid(
                                "Gemma 4 GGUF KV heads must be uniform within each attention policy",
                            ),
                        );
                    }
                },
                None => {
                    found = Some(layer);
                },
            }
        }
        layer = layer + 1;
    }
    match found {
        Some(first) => Ok(Some(values[first])),
        None => Ok(None),
    }
}

/// Name of a tensor of block `layer`.
pub open spec fn block_name(layer: int, local: Seq<char>) -> Seq<char> {
    "blk."@ + decimal(layer as nat) + local
}

/// Whether the catalog holds a tensor of block `layer`.
pub open spec fn block_has(catalog: Set<Seq<char>>, layer: int, local: Seq<char>) -> bool {
    catalog.contains(block_name(layer, local))
}

fn block_contains(catalog: &NameSet, layer: usize, local: &str) -> (r: bool)
    ensures
        r == block_has(catalog@, layer as int, local@),
{
    catalog.contains(
        "blk.".to_owned().concat(decimal_text(layer as u64).as_str()).concat(local).as_str(),
    )
}

/// Whether block `layer` stores keys without values.
pub open spec fn reuses_key(catalog: Set<Seq<char>>, layer: int) -> bool {
    block_has(catalog, layer, ".attn_k.weight"@) && !block_has(catalog, layer, ".attn_v.weight"@)
}

/// Whether block `layer` is a full-attention layer before `first_shared` with reuse policy
/// `reuse`.
pub open spec fn full_owner(
    catalog: Set<Seq<char>>,
    pattern: Seq<bool>,
    first_shared: int,
    layer: int,
    reuse: bool,
) -> bool {
    0 <= layer < first_shared && !pattern[layer] && reuses_key(catalog, layer) == reuse
}

/// Whether full-attention layers that own their state reuse keys as values.
pub open spec fn key_as_value(
    catalog: Set<Seq<char>>,
    pattern: Seq<bool>,
    first_shared: int,
) -> Reading<bool> {
    let reusing = exists|layer: int| #[trigger]
        full_owner(catalog, pattern, first_shared, layer, true);
    let storing = exists|layer: int| #[trigger]
        full_owner(catalog, pattern, first_shared, layer, false);
    if reusing && storing {
        Err(
            Fault::Invalid(
                "Gemma 4 GGUF key-as-value policy differs between full-attention owners"@,
            ),
        )
    } else {
        Ok(reusing)
    }
}

/// Reads whether full-attention layers that own their state reuse keys as values.
fn gguf_key_as_value(catalog: &NameSet, pattern: &Vec<bool>, first_shared: usize) -> (r: Result<
    bool,
    ConfigError,
>)
    requires
        first_shared <= pattern.len(),
    ensures
        gives(r, key_as_value(catalog@, pattern@, first_shared as int)),
{
    let mut policy: Option<bool> = None;
    let mut layer: usize = 0;
    while layer < first_shared
        invariant
            layer <= first_shared <= pattern.len(),
            policy == Some(true) ==> exists|i: int| #[trigger]
                full_owner(catalog@, pattern@, first_shared as int, i, true),
            policy == Some(false) ==> exists|i: int| #[trigger]
                full_owner(catalog@, pattern@, first_shared as int, i, false),
            forall|i: int|
                i < layer && #[trigger] full_owner(
                    catalog@,
                    pattern@,
                    first_shared as int,
                    i,
                    true,
                ) ==> policy == Some(true),
            forall|i: int|
                i < layer && #[trigger] full_owner(
                    catalog@,
                    pattern@,
                    first_shared as int,
                    i,
                    false,
                ) ==> policy == Some(false),
        decreases first_shared - layer,
    {
        if !pattern[layer] {
            let reuse: bool = block_contains(catalog, layer, ".attn_k.weight") && !block_contains(
                catalog,
                layer,
                ".attn_v.weight",
            );
            assert(full_owner(catalog@, pattern@, first_shared as int, layer as int, reuse));
            match policy {
                Some(previous) => {
                    if previous != reuse {
                        return Err(
                            invalid(
                                "Gemma 4 GGUF key-as-value policy differs between full-attention owners",
                            ),
                        );
                    }
                },
                None => {
                    policy = Some(reuse);
                },
            }
        }
        layer = layer + 1;
    }
    match policy {
        Some(reuse) => Ok(reuse),
        None => Ok(false),
    }
}

/// Whether block `layer` holds routed expert weights.
pub open spec fn has_experts(catalog: Set<Seq<char>>, layer: int) -> bool {
    ||| block_has(catalog, layer, ".ffn_gate_up_exps.weight"@)
    ||| block_has(catalog, layer, ".ffn_gate_exps.weight"@)
    ||| block_has(catalog, layer, ".ffn_down_exps.weight"@)
}

/// Whether one of `layers` blocks holds routed expert weights.
pub open spec fn any_experts(catalog: Set<Seq<char>>, layers: int) -> bool {
    exists|layer: int| 0 <= layer < layers && #[trigger] has_experts(catalog, layer)
}

/// Whether block `layer` holds an attention bias.
pub open spec fn has_bias(catalog: Set<Seq<char>>, layer: int) -> bool {
    ||| block_has(catalog, layer, ".attn_q.bias"@)
    ||| block_has(catalog, layer, ".attn_k.bias"@)
    ||| block_has(catalog, layer, ".attn_v.bias"@)
    ||| block_has(catalog, layer, ".attn_output.bias"@)
}

/// Whether one of `layers` blocks holds an attention bias.
pub open spec fn any_bias(catalog: Set<Seq<char>>, layers: int) -> bool {
    exists|layer: int| 0 <= layer < layers && #[trigger] has_bias(catalog, layer)
}

fn gguf_any_experts(catalog: &NameSet, layers: usize) -> (r: bool)
    ensures
        r == any_experts(catalog@, layers as int),
{
    let mut layer: usize = 0;
    while layer < layers
        invariant
            layer <= layers,
            forall|i: int| 0 <= i < layer ==> !#[trigger] has_experts(catalog@, i),
        decreases layers - layer,
    {
        if block_contains(catalog, layer, ".ffn_gate_up_exps.weight") || block_contains(
            catalog,
            layer,
            ".ffn_gate_exps.weight",
        ) || block_contains(catalog, layer, ".ffn_down_exps.weight") {
            assert(has_experts(catalog@, layer as int));
            return true;
        }
        layer = layer + 1;
    }
    false
}

fn gguf_any_bias(catalog: &NameSet, layers: usize) -> (r: bool)
    ensures
        r == any_bias(catalog@, layers as int),
{
    let mut layer: usize = 0;
    while layer < layers
        invariant
            layer <= layers,
            forall|i: int| 0 <= i < layer ==> !#[trigger] has_bias(catalog@, i),
        decreases layers - layer,
    {
        if block_contains(catalog, layer, ".attn_q.bias") || block_contains(
            catalog,
            layer,
            ".attn_k.bias",
        ) || block_contains(catalog, layer, ".attn_v.bias") || block_contains(
            catalog,
            layer,
            ".attn_output.bias",
        ) {
            assert(has_bias(catalog@, layer as int));
            return true;
        }
        layer = layer + 1;
    }
    false
}

/// Whether a setting map declares exactly the settings of the full-attention rotary policy.
pub open spec fn full_rotary(settings: Map<Seq<char>, RopeValue>, base: Float32) -> bool {
    &&& settings.dom() == set!["rope_type"@, "partial_rotary_factor"@, "rope_theta"@]
    &&& settings["rope_type"@].deep_view() == RopeSetting::Text("proportional"@, None)
    &&& settings["partial_rotary_factor"@].deep_view() == RopeSetting::Float(
        Float32 { bits: PARTIAL_ROTARY },
    )
    &&& settings["rope_theta"@].deep_view() == RopeSetting::Float(base)
}

/// Whether a setting map declares exactly the settings of the sliding-attention rotary policy.
pub open spec fn local_rotary(settings: Map<Seq<char>, RopeValue>, base: Float32) -> bool {
    &&& settings.dom() == set!["rope_type"@, "rope_theta"@]
    &&& settings["rope_type"@].deep_view() == RopeSetting::Text("default"@, None)
    &&& settings["rope_theta"@].deep_view() == RopeSetting::Float(base)
}

/// Whether the overrides of both attention kinds are declared, with bases `full` and `local`.
pub open spec fn rotary_declared(
    parameters: Option<StringMap<StringMap<RopeValue>>>,
    full: Float32,
    local: Float32,
) -> bool {
    &&& parameters is Some
    &&& parameters->0.names().len() == 2
    &&& parameters->0@.dom() == set!["full_attention"@, "sliding_attention"@]
    &&& full_rotary(parameters->0@["full_attention"@]@, full)
    &&& local_rotary(parameters->0@["sliding_attention"@]@, local)
}

fn text_setting(text: &str) -> (r: RopeValue)
    ensures
        r.deep_view() == RopeSetting::Text(text@, None),
{
    RopeValue::Text { text: text.to_owned(), number: None }
}

/// Builds the overrides of both attention kinds.
fn rotary_parameters(full: Float32, local: Float32) -> (r: StringMap<StringMap<RopeValue>>)
    ensures
        rotary_declared(Some(r), full, local),
{
    proof {
        reveal_strlit("rope_type");
        reveal_strlit("partial_rotary_factor");
        reveal_strlit("rope_theta");
        reveal_strlit("full_attention");
        reveal_strlit("sliding_attention");
        assert("rope_type"@.len() == 9);
        assert("rope_theta"@.len() == 10);
        assert("partial_rotary_factor"@.len() == 21);
        assert("full_attention"@.len() == 14);
        assert("sliding_attention"@.len() == 17);
    }
    let full_settings = StringMap::new().with(
        "rope_type".to_owned(),
        text_setting("proportional"),
    ).with(
        "partial_rotary_factor".to_owned(),
        RopeValue::Float(Float32 { bits: PARTIAL_ROTARY }),
    ).with("rope_theta".to_owned(), RopeValue::Float(full));
    assert(full_settings@.dom() =~= set![
        "rope_type"@,
        "partial_rotary_factor"@,
        "rope_theta"@,
    ]);
    let local_settings = StringMap::new().with("rope_type".to_owned(), text_setting("default")).with(
        "rope_theta".to_owned(),
        RopeValue::Float(local),
    );
    assert(local_settings@.dom() =~= set!["rope_type"@, "rope_theta"@]);
    let r = StringMap::new().with("full_attention".to_owned(), full_settings).with(
        "sliding_attention".to_owned(),
        local_settings,
    );
    assert(r@.dom() =~= set!["full_attention"@, "sliding_attention"@]);
    assert(full_rotary(full_settings@, full));
    assert(local_rotary(local_settings@, local));
    assert(r@["full_attention"@] == full_settings);
    assert(r@["sliding_attention"@] == local_settings);
    r
}

/// What metadata and a tensor catalog declare of a text decoder.
pub struct Declared {
    /// Metadata values by key.
    pub metadata: Map<Seq<char>, MetadataValue>,
    /// Tensor names.
    pub catalog: Set<Seq<char>>,
}

impl Declared {
    /// Decoder depth.
    pub open spec fn layers(self) -> Reading<i32> {
        required_i32(self.metadata, "gemma4.block_count"@)
    }

    /// Which layers slide.
    pub open spec fn pattern(self) -> Reading<Seq<bool>> {
        layer_pattern(self.metadata, self.layers()->Ok_0 as int)
    }

    /// Sliding window.
    pub open spec fn window(self) -> Reading<Option<i64>> {
        optional_i64(self.metadata, "gemma4.attention.sliding_window"@)
    }

    /// Whether a layer slides without a positive window.
    pub open spec fn window_missing(self) -> bool {
        &&& exists|i: int|
            0 <= i < self.pattern()->Ok_0.len() && #[trigger] self.pattern()->Ok_0[i]
        &&& !(self.window()->Ok_0 matches Some(window) && window > 0)
    }

    /// Dense MLP widths.
    pub open spec fn feed_forward(self) -> Reading<Seq<i32>> {
        layer_values(
            self.metadata,
            "gemma4.feed_forward_length"@,
            self.layers()->Ok_0 as int,
        )
    }

    /// Key/value head counts.
    pub open spec fn kv_heads(self) -> Reading<Seq<i32>> {
        layer_values(
            self.metadata,
            "gemma4.attention.head_count_kv"@,
            self.layers()->Ok_0 as int,
        )
    }

    /// Key/value head count of the layers whose sliding pattern is `kind`.
    pub open spec fn heads_of(self, kind: bool) -> Reading<Option<i32>> {
        uniform_heads(self.pattern()->Ok_0, kind, self.kv_heads()->Ok_0)
    }

    /// Number of trailing layers that consume shared state.
    pub open spec fn shared(self) -> i32 {
        match optional_i32(self.metadata, "gemma4.attention.shared_kv_layers"@) {
            Ok(Some(shared)) => shared,
            _ => 0,
        }
    }

    /// Whether full-attention owners reuse keys as values.
    pub open spec fn key_as_value(self) -> Reading<bool> {
        key_as_value(
            self.catalog,
            self.pattern()->Ok_0,
            self.layers()->Ok_0 - self.shared(),
        )
    }

    /// Declared routed expert count.
    pub open spec fn experts(self) -> i32 {
        match optional_i32(self.metadata, "gemma4.expert_count"@) {
            Ok(Some(experts)) => experts,
            _ => 0,
        }
    }

    /// Whether layers route to sparse experts.
    pub open spec fn sparse(self) -> bool {
        self.experts() > 0 || any_experts(self.catalog, self.layers()->Ok_0 as int)
    }

    /// Required scalar `name`.
    pub open spec fn scalar(self, name: Seq<char>) -> Reading<i32> {
        required_i32(self.metadata, name)
    }

    /// Rotary base under `name`, or the default encoding.
    pub open spec fn base(self, name: Seq<char>, default: u32) -> Float32 {
        match optional_f32(self.metadata, name) {
            Ok(Some(base)) => base,
            _ => Float32 { bits: default },
        }
    }

    /// Rotary base of full layers.
    pub open spec fn full_rope(self) -> Float32 {
        self.base("gemma4.rope.freq_base"@, DEFAULT_FULL_ROPE)
    }

    /// Rotary base of sliding layers.
    pub open spec fn local_rope(self) -> Float32 {
        self.base("gemma4.rope.freq_base_swa"@, DEFAULT_LOCAL_ROPE)
    }

    /// Normalization epsilon.
    pub open spec fn epsilon(self) -> Reading<Float32> {
        let key = "gemma4.attention.layer_norm_rms_epsilon"@;
        required(optional_f32(self.metadata, key), key)
    }

    /// Logit cap. One that is not finite counts as absent.
    pub open spec fn logit_cap(self) -> Option<Float32> {
        match optional_f32(self.metadata, "gemma4.final_logit_softcapping"@) {
            Ok(Some(cap)) if cap.finite() => Some(cap),
            _ => None,
        }
    }

    /// A scalar that sparse layers require, and others do not declare.
    pub open spec fn sparse_scalar(self, name: Seq<char>) -> Reading<Option<i32>> {
        if self.sparse() {
            match required_i32(self.metadata, name) {
                Ok(value) => Ok(Some(value)),
                Err(fault) => Err(fault),
            }
        } else {
            Ok(None)
        }
    }

    /// First fault in the declared layer schedule.
    pub open spec fn schedule_fault(self) -> Option<Fault> {
        first_of(
            fault_of(self.layers()),
            first_of(
                fault_if(
                    self.layers()->Ok_0 <= 0,
                    "Gemma 4 GGUF block_count must be positive"@,
                ),
                first_of(
                    fault_of(self.pattern()),
                    first_of(
                        fault_of(self.window()),
                        first_of(
                            fault_if(
                                self.window_missing(),
                                "Gemma 4 GGUF sliding layers require a positive sliding window"@,
                            ),
                            self.heads_fault(),
                        ),
                    ),
                ),
            ),
        )
    }

    /// First fault in the declared widths, head counts, and state topology.
    pub open spec fn heads_fault(self) -> Option<Fault> {
        let shared = optional_i32(self.metadata, "gemma4.attention.shared_kv_layers"@);
        first_of(
            fault_of(self.feed_forward()),
            first_of(
                fault_of(self.kv_heads()),
                first_of(
                    fault_of(self.heads_of(true)),
                    first_of(
                        fault_of(self.heads_of(false)),
                        first_of(
                            fault_of(shared),
                            first_of(
                                fault_if(
                                    !(0 <= self.shared() <= self.layers()->Ok_0),
                                    "Gemma 4 GGUF shared-KV layer count is invalid"@,
                                ),
                                fault_of(self.key_as_value()),
                            ),
                        ),
                    ),
                ),
            ),
        )
    }

    /// First fault in the declared scalars.
    pub open spec fn scalar_fault(self) -> Option<Fault> {
        first_of(
            fault_of(optional_i32(self.metadata, "gemma4.expert_count"@)),
            first_of(
                fault_of(self.scalar("gemma4.vocab_size"@)),
                first_of(
                    fault_of(self.scalar("gemma4.attention.key_length"@)),
                    first_of(
                        fault_of(
                            optional_i32(self.metadata, "gemma4.attention.key_length_swa"@),
                        ),
                        first_of(
                            fault_of(optional_f32(self.metadata, "gemma4.rope.freq_base"@)),
                            first_of(
                                fault_of(
                                    optional_f32(self.metadata, "gemma4.rope.freq_base_swa"@),
                                ),
                                self.width_fault(),
                            ),
                        ),
                    ),
                ),
            ),
        )
    }

    /// First fault in the scalars read after the rotary bases.
    pub open spec fn width_fault(self) -> Option<Fault> {
        first_of(
            fault_of(self.scalar("gemma4.embedding_length"@)),
            first_of(
                fault_of(self.scalar("gemma4.attention.head_count"@)),
                first_of(
                    fault_of(self.epsilon()),
                    first_of(
                        fault_of(self.scalar("gemma4.context_length"@)),
                        first_of(
                            fault_of(
                                optional_i32(
                                    self.metadata,
                                    "gemma4.embedding_length_per_layer_input"@,
                                ),
                            ),
                            first_of(
                                fault_of(
                                    optional_f32(
                                        self.metadata,
                                        "gemma4.final_logit_softcapping"@,
                                    ),
                                ),
                                first_of(
                                    fault_of(self.sparse_scalar("gemma4.expert_used_count"@)),
                                    first_of(
                                        fault_of(
                                            self.sparse_scalar(
                                                "gemma4.expert_feed_forward_length"@,
                                            ),
                                        ),
                                        if self.epsilon()->Ok_0.finite()
                                            && self.local_rope().finite()
                                            && self.full_rope().finite() {
                                            None
                                        } else {
                                            Some(Fault::NullNumber)
                                        },
                                    ),
                                ),
                            ),
                        ),
                    ),
                ),
            ),
        )
    }

    /// First fault of the declaration.
    pub open spec fn fault(self) -> Option<Fault> {
        first_of(self.schedule_fault(), self.scalar_fault())
    }

    /// Whether `source` is the text configuration declared here.
    pub open spec fn declares(self, source: ModelArgsSource) -> bool {
        let pattern = self.pattern()->Ok_0;
        let key_length = self.scalar("gemma4.attention.key_length"@)->Ok_0;
        let vocabulary = self.scalar("gemma4.vocab_size"@)->Ok_0;
        let local_heads = self.heads_of(true)->Ok_0;
        let global_heads = self.heads_of(false)->Ok_0;
        &&& source.model_type@ == "gemma4"@
        &&& source.hidden_size == self.scalar("gemma4.embedding_length"@)->Ok_0
        &&& source.num_hidden_layers == self.layers()->Ok_0
        &&& source.intermediate_size == self.feed_forward()->Ok_0[0]
        &&& !source.use_double_wide_mlp
        &&& source.feed_forward_lengths is Some
        &&& source.feed_forward_lengths->0@ == self.feed_forward()->Ok_0
        &&& source.num_attention_heads == self.scalar("gemma4.attention.head_count"@)->Ok_0
        &&& source.rms_norm_eps == self.epsilon()->Ok_0
        &&& source.vocab_size == vocabulary
        &&& source.pad_token_id == 0
        &&& source.num_key_value_heads == if local_heads is Some {
            local_heads->0
        } else {
            global_heads->0
        }
        &&& source.num_global_key_value_heads == global_heads
        &&& source.max_position_embeddings == self.scalar("gemma4.context_length"@)->Ok_0
        &&& source.rope_theta == self.local_rope()
        &&& source.head_dim == match optional_i32(
            self.metadata,
            "gemma4.attention.key_length_swa"@,
        ) {
            Ok(Some(length)) => length,
            _ => key_length,
        }
        &&& source.global_head_dim == Some(key_length)
        &&& source.tie_word_embeddings == !self.catalog.contains("output.weight"@)
        &&& source.attention_bias == any_bias(self.catalog, self.layers()->Ok_0 as int)
        &&& source.attention_k_eq_v == self.key_as_value()->Ok_0
        &&& source.hidden_size_per_layer_input == match optional_i32(
            self.metadata,
            "gemma4.embedding_length_per_layer_input"@,
        ) {
            Ok(Some(width)) => width,
            _ => 0,
        }
        &&& source.vocab_size_per_layer_input == Some(vocabulary)
        &&& source.num_kv_shared_layers == self.shared()
        &&& source.layer_types.len() == pattern.len()
        &&& forall|i: int|
            0 <= i < pattern.len() ==> (#[trigger] source.layer_types[i] is SlidingAttention)
                == pattern[i]
        &&& source.sliding_window == self.window()->Ok_0
        &&& source.final_logit_softcapping == self.logit_cap()
        &&& source.enable_moe_block == self.sparse()
        &&& source.num_experts == if self.sparse() {
            Some(self.experts())
        } else {
            None
        }
        &&& source.top_k_experts == self.sparse_scalar("gemma4.expert_used_count"@)->Ok_0
        &&& source.moe_intermediate_size == self.sparse_scalar(
            "gemma4.expert_feed_forward_length"@,
        )->Ok_0
        &&& source.rope_scaling is None
        &&& rotary_declared(source.rope_parameters, self.full_rope(), self.local_rope())
        &&& source.weight_quantization is None
        &&& source.quantized_weights is None
        &&& source.quantized_weight_configs is None
    }
}

/// Layer schedule read from metadata and catalog.
struct ScheduleReading {
    layers: i32,
    pattern: Vec<bool>,
    window: Option<i64>,
    feed_forward: Vec<i32>,
    local_heads: Option<i32>,
    global_heads: Option<i32>,
    shared: i32,
    key_as_value: bool,
}

fn any_slides(pattern: &Vec<bool>) -> (r: bool)
    ensures
        r == exists|i: int| 0 <= i < pattern.len() && #[trigger] pattern[i],
{
    let mut layer: usize = 0;
    while layer < pattern.len()
        invariant
            layer <= pattern.len(),
            forall|i: int| 0 <= i < layer ==> !#[trigger] pattern[i],
        decreases pattern.len() - layer,
    {
        if pattern[layer] {
            return true;
        }
        layer = layer + 1;
    }
    false
}

/// Reads the layer schedule.
fn read_schedule(catalog: &NameSet, metadata: &StringMap<MetadataValue>) -> (r: Result<
    ScheduleReading,
    ConfigError,
>)
    ensures
        ({
            let declared = Declared { metadata: metadata@, catalog: catalog@ };
            match declared.schedule_fault() {
                Some(fault) => reports(r, fault),
                None => r matches Ok(reading) && {
                    &&& reading.layers == declared.layers()->Ok_0
                    &&& reading.pattern@ == declared.pattern()->Ok_0
                    &&& reading.window == declared.window()->Ok_0
                    &&& reading.feed_forward@ == declared.feed_forward()->Ok_0
                    &&& reading.local_heads == declared.heads_of(true)->Ok_0
                    &&& reading.global_heads == declared.heads_of(false)->Ok_0
                    &&& reading.shared == declared.shared()
                    &&& reading.key_as_value == declared.key_as_value()->Ok_0
                },
            }
        }),
{
    let layers: i32 = gguf_i32(metadata, "gemma4.block_count")?;
    if layers <= 0 {
        return Err(invalid("Gemma 4 GGUF block_count must be positive"));
    }
    let count: usize = layers as usize;
    let pattern: Vec<bool> = gguf_layer_pattern(metadata, count)?;
    let window: Option<i64> = gguf_optional_i64(metadata, "gemma4.attention.sliding_window")?;
    let bounded: bool = match window {
        Some(window) => window > 0,
        None => false,
    };
    if any_slides(&pattern) && !bounded {
        return Err(invalid("Gemma 4 GGUF sliding layers require a positive sliding window"));
    }
    let feed_forward: Vec<i32> = gguf_layer_i32_values(
        metadata,
        "gemma4.feed_forward_length",
        count,
    )?;
    let kv_heads: Vec<i32> = gguf_layer_i32_values(
        metadata,
        "gemma4.attention.head_count_kv",
        count,
    )?;
    let local_heads: Option<i32> = uniform_kv_heads(&pattern, true, &kv_heads)?;
    let global_heads: Option<i32> = uniform_kv_heads(&pattern, false, &kv_heads)?;
    let shared: i32 = match gguf_optional_i32(metadata, "gemma4.attention.shared_kv_layers")? {
        Some(shared) => shared,
        None => 0,
    };
    if shared < 0 || shared > layers {
        return Err(invalid("Gemma 4 GGUF shared-KV layer count is invalid"));
    }
    let key_as_value: bool = gguf_key_as_value(catalog, &pattern, (layers - shared) as usize)?;
    Ok(
        ScheduleReading {
            layers,
            pattern,
            window,
            feed_forward,
            local_heads,
            global_heads,
            shared,
            key_as_value,
        },
    )
}

/// Attention kind of every layer.
fn layer_kinds(pattern: &Vec<bool>) -> (r: Vec<AttentionKind>)
    ensures
        r.len() == pattern.len(),
        forall|i: int|
            0 <= i < pattern.len() ==> (#[trigger] r[i] is SlidingAttention) == pattern[i],
{
    let mut kinds: Vec<AttentionKind> = Vec::new();
    let mut layer: usize = 0;
    while layer < pattern.len()
        invariant
            layer <= pattern.len(),
            kinds.len() == layer,
            forall|i: int| 0 <= i < layer ==> (#[trigger] kinds[i] is SlidingAttention) == pattern[i],
        decreases pattern.len() - layer,
    {
        kinds.push(
            if pattern[layer] {
                AttentionKind::SlidingAttention
            } else {
                AttentionKind::FullAttention
            },
        );
        layer = layer + 1;
    }
    kinds
}

/// Reads the text configuration that strict Gemma 4 metadata and a tensor catalog declare.
pub fn gguf_source(catalog: &NameSet, metadata: &StringMap<MetadataValue>) -> (r: Result<
    ModelArgsSource,
    ConfigError,
>)
    ensures
        ({
            let declared = Declared { metadata: metadata@, catalog: catalog@ };
            match declared.fault() {
                Some(fault) => reports(r, fault),
                None => r matches Ok(source) && declared.declares(source),
            }
        }),
{
    let ghost declared = Declared { metadata: metadata@, catalog: catalog@ };
    let schedule = read_schedule(catalog, metadata)?;
    let count: usize = schedule.layers as usize;
    let experts: i32 = match gguf_optional_i32(metadata, "gemma4.expert_count")? {
        Some(experts) => experts,
        None => 0,
    };
    let sparse: bool = experts > 0 || gguf_any_experts(catalog, count);
    let attention_bias: bool = gguf_any_bias(catalog, count);
    let vocabulary: i32 = gguf_i32(metadata, "gemma4.vocab_size")?;
    let global_head: i32 = gguf_i32(metadata, "gemma4.attention.key_length")?;
    let local_head: i32 = match gguf_optional_i32(metadata, "gemma4.attention.key_length_swa")? {
        Some(length) => length,
        None => global_head,
    };
    let full_rope: Float32 = match gguf_optional_f32(metadata, "gemma4.rope.freq_base")? {
        Some(base) => base,
        None => Float32 { bits: DEFAULT_FULL_ROPE },
    };
    let local_rope: Float32 = match gguf_optional_f32(metadata, "gemma4.rope.freq_base_swa")? {
        Some(base) => base,
        None => Float32 { bits: DEFAULT_LOCAL_ROPE },
    };
    let hidden_size: i32 = gguf_i32(metadata, "gemma4.embedding_length")?;
    let num_attention_heads: i32 = gguf_i32(metadata, "gemma4.attention.head_count")?;
    let rms_norm_eps: Float32 = gguf_f32(metadata, "gemma4.attention.layer_norm_rms_epsilon")?;
    let max_position_embeddings: i32 = gguf_i32(metadata, "gemma4.context_length")?;
    let per_layer_input: i32 = match gguf_optional_i32(
        metadata,
        "gemma4.embedding_length_per_layer_input",
    )? {
        Some(width) => width,
        None => 0,
    };
    let cap: Option<Float32> = gguf_optional_f32(metadata, "gemma4.final_logit_softcapping")?;
    let final_logit_softcapping: Option<Float32> = match cap {
        Some(cap) if cap.is_finite() => Some(cap),
        _ => None,
    };
    let top_k_experts: Option<i32> = if sparse {
        Some(gguf_i32(metadata, "gemma4.expert_used_count")?)
    } else {
        None
    };
    let moe_intermediate_size: Option<i32> = if sparse {
        Some(gguf_i32(metadata, "gemma4.expert_feed_forward_length")?)
    } else {
        None
    };
    if !rms_norm_eps.is_finite() || !local_rope.is_finite() || !full_rope.is_finite() {
        return Err(ConfigError::Json(null_number()));
    }
    let num_key_value_heads: i32 = match schedule.local_heads {
        Some(heads) => heads,
        None => match schedule.global_heads {
            Some(heads) => heads,
            None => {
                assert(first_selected(declared.pattern()->Ok_0, true, 1) is Some
                    || first_selected(declared.pattern()->Ok_0, false, 1) is Some);
                proof {
                    lemma_first_selected(
                        declared.pattern()->Ok_0,
                        declared.pattern()->Ok_0.len() as int,
                    );
                }
                0
            },
        },
    };
    Ok(
        ModelArgsSource {
            model_type: "gemma4".to_owned(),
            hidden_size,
            num_hidden_layers: schedule.layers,
            intermediate_size: schedule.feed_forward[0],
            use_double_wide_mlp: false,
            layer_types: layer_kinds(&schedule.pattern),
            feed_forward_lengths: Some(schedule.feed_forward),
            num_attention_heads,
            rms_norm_eps,
            vocab_size: vocabulary,
            pad_token_id: 0,
            num_key_value_heads,
            num_global_key_value_heads: schedule.global_heads,
            max_position_embeddings,
            rope_theta: local_rope,
            head_dim: local_head,
            global_head_dim: Some(global_head),
            tie_word_embeddings: !catalog.contains("output.weight"),
            attention_bias,
            attention_k_eq_v: schedule.key_as_value,
            hidden_size_per_layer_input: per_layer_input,
            vocab_size_per_layer_input: Some(vocabulary),
            num_kv_shared_layers: schedule.shared,
            sliding_window: schedule.window,
            final_logit_softcapping,
            enable_moe_block: sparse,
            num_experts: if sparse {
                Some(experts)
            } else {
                None
            },
            top_k_experts,
            moe_intermediate_size,
            rope_scaling: None,
            rope_parameters: Some(rotary_parameters(full_rope, local_rope)),
            weight_quantization: None,
            quantized_weights: None,
            quantized_weight_configs: None,
        },
    )
}

/// A layer slides or it does not.
proof fn lemma_first_selected(selected: Seq<bool>, end: int)
    requires
        1 <= end,
    ensures
        first_selected(selected, true, end) is Some || first_selected(selected, false, end) is Some,
    decreases end,
{
    if end > 1 {
        lemma_first_selected(selected, end - 1);
    }
}

impl ModelArgs {
    /// Parses strict Gemma 4 GGUF metadata and catalog-dependent storage policy without depending
    /// on a backend checkpoint type. `checks` are the outcomes for the two rotary overrides that
    /// `gguf_source` declares.
    pub fn from_gguf_metadata(
        catalog: &NameSet,
        metadata: &StringMap<MetadataValue>,
        checks: &RotaryChecks,
    ) -> (r: Result<ModelArgs, ConfigError>)
        requires
            (Declared { metadata: metadata@, catalog: catalog@ }).fault() is None
                ==> checks.parameters.len() == 2,
        ensures
            ({
                let declared = Declared { metadata: metadata@, catalog: catalog@ };
                match declared.fault() {
                    Some(fault) => reports(r, fault),
                    None => exists|source: ModelArgsSource| #[trigger]
                        declared.declares(source) && match source.fault(*checks) {
                            Some(fault) => reports(r, fault),
                            None => r matches Ok(args) && normalized(args, source),
                        },
                }
            }),
    {
        let source = gguf_source(catalog, metadata)?;
        let ghost declaration = source;
        let r = normalize(source, checks);
        assert((Declared { metadata: metadata@, catalog: catalog@ }).declares(declaration));
        r
    }
}

} // verus!