//! Processor settings read from GGUF metadata.

use crate::errors::{Fault, ProcessorPlanError, Reading, answers};
use crate::float::Float32;
use crate::media::Channels;
use crate::metadata::{MetadataInteger, MetadataValue};
use crate::names::StringMap;
use crate::text::{debug_quoted, debug_text, decimal, decimal_text};
use vstd::prelude::*;

verus! {

/// Fault of a processor metadata key.
pub open spec fn key_fault(key: Seq<char>, tail: Seq<char>) -> Fault {
    Fault::Invalid("processor GGUF metadata key "@ + debug_quoted(key) + tail)
}

/// Fault of a setting that is not a non-negative integer.
pub open spec fn integer_fault(key: Seq<char>) -> Fault {
    key_fault(key, " must be a non-negative integer"@)
}

/// Reading of an optional non-negative integer.
pub open spec fn optional_u64(
    metadata: Map<Seq<char>, MetadataValue>,
    key: Seq<char>,
) -> Reading<Option<u64>> {
    if !metadata.contains_key(key) {
        Ok(None)
    } else {
        match metadata[key].integer {
            Some(MetadataInteger::Unsigned(value)) => Ok(Some(value)),
            Some(MetadataInteger::Signed(value)) if value >= 0 => Ok(Some(value as u64)),
            _ => Err(integer_fault(key)),
        }
    }
}

/// Reading of an optional machine-sized integer.
pub open spec fn optional_usize(
    metadata: Map<Seq<char>, MetadataValue>,
    key: Seq<char>,
) -> Reading<Option<usize>> {
    match optional_u64(metadata, key) {
        Err(fault) => Err(fault),
        Ok(None) => Ok(None),
        Ok(Some(value)) => if value <= usize::MAX {
            Ok(Some(value as usize))
        } else {
            Err(key_fault(key, " exceeds usize"@))
        },
    }
}

/// Reading of an optional 32-bit integer.
pub open spec fn optional_u32(
    metadata: Map<Seq<char>, MetadataValue>,
    key: Seq<char>,
) -> Reading<Option<u32>> {
    match optional_u64(metadata, key) {
        Err(fault) => Err(fault),
        Ok(None) => Ok(None),
        Ok(Some(value)) => if value <= u32::MAX {
            Ok(Some(value as u32))
        } else {
            Err(key_fault(key, " must fit u32"@))
        },
    }
}

fn key_error(key: &str, tail: &str) -> (r: ProcessorPlanError)
    ensures
        r.deep_view() == key_fault(key@, tail@),
{
    ProcessorPlanError::Invalid(
        "processor GGUF metadata key ".to_owned().concat(debug_text(key).as_str()).concat(tail),
    )
}

fn invalid_metadata(key: &str) -> (r: ProcessorPlanError)
    ensures
        r.deep_view() == integer_fault(key@),
{
    key_error(key, " must be a non-negative integer")
}

fn optional_metadata_u64(metadata: &StringMap<MetadataValue>, key: &str) -> (r: Result<
    Option<u64>,
    ProcessorPlanError,
>)
    ensures
        answers(r, optional_u64(metadata@, key@)),
{
    match metadata.get(key) {
        None => Ok(None),
        Some(value) => match value.integer {
            Some(MetadataInteger::Unsigned(value)) => Ok(Some(value)),
            Some(MetadataInteger::Signed(value)) if value >= 0 => Ok(Some(value as u64)),
            _ => Err(invalid_metadata(key)),
        },
    }
}

/// Reads an optional machine-sized integer.
pub(crate) fn optional_metadata_usize(metadata: &StringMap<MetadataValue>, key: &str) -> (r:
    Result<Option<usize>, ProcessorPlanError>)
    ensures
        answers(r, optional_usize(metadata@, key@)),
{
    match optional_metadata_u64(metadata, key)? {
        None => Ok(None),
        Some(value) => if value <= usize::MAX as u64 {
            Ok(Some(value as usize))
        } else {
            Err(key_error(key, " exceeds usize"))
        },
    }
}

/// Reads an optional 32-bit integer.
pub(crate) fn optional_metadata_u32(metadata: &StringMap<MetadataValue>, key: &str) -> (r: Result<
    Option<u32>,
    ProcessorPlanError,
>)
    ensures
        answers(r, optional_u32(metadata@, key@)),
{
    match optional_metadata_u64(metadata, key)? {
        None => Ok(None),
        Some(value) => if value <= u32::MAX as u64 {
            Ok(Some(value as u32))
        } else {
            Err(key_error(key, " must fit u32"))
        },
    }
}

/// Reading of a positive machine-sized integer that must be there.
pub open spec fn positive_usize(
    metadata: Map<Seq<char>, MetadataValue>,
    key: Seq<char>,
    family: Seq<char>,
) -> Reading<usize> {
    match optional_usize(metadata, key) {
        Err(fault) => Err(fault),
        Ok(Some(value)) if value > 0 => Ok(value),
        Ok(_) => Err(
            Fault::Invalid(
                family + " projector GGUF requires positive integer metadata "@ + debug_quoted(key),
            ),
        ),
    }
}

/// Reads a positive machine-sized integer that must be there.
pub(crate) fn required_metadata_usize(
    metadata: &StringMap<MetadataValue>,
    key: &str,
    family: &str,
) -> (r: Result<usize, ProcessorPlanError>)
    ensures
        answers(r, positive_usize(metadata@, key@, family@)),
{
    match optional_metadata_usize(metadata, key)? {
        Some(value) if value > 0 => Ok(value),
        _ => Err(
            ProcessorPlanError::Invalid(
                family.to_owned().concat(
                    " projector GGUF requires positive integer metadata ",
                ).concat(debug_text(key).as_str()),
            ),
        ),
    }
}

/// Three values as channels.
pub open spec fn channels_of(values: Seq<Float32>) -> Channels {
    Channels { red: values[0], green: values[1], blue: values[2] }
}

/// Reading of three binary32 values stored as such.
pub open spec fn stored_channels(
    metadata: Map<Seq<char>, MetadataValue>,
    key: Seq<char>,
) -> Reading<Channels> {
    if metadata.contains_key(key) && metadata[key].f32_array is Some
        && metadata[key].f32_array->0.len() == 3 {
        Ok(channels_of(metadata[key].f32_array->0@))
    } else {
        Err(
            Fault::Invalid(
                "Muse-Glimmer projector GGUF requires three Float32 values in "@ + debug_quoted(
                    key,
                ),
            ),
        )
    }
}

/// Reads three binary32 values stored as such.
pub(crate) fn metadata_rgb(metadata: &StringMap<MetadataValue>, key: &str) -> (r: Result<
    Channels,
    ProcessorPlanError,
>)
    ensures
        answers(r, stored_channels(metadata@, key@)),
{
    if let Some(value) = metadata.get(key) {
        if let Some(values) = &value.f32_array {
            if values.len() == 3 {
                return Ok(Channels { red: values[0], green: values[1], blue: values[2] });
            }
        }
    }
    Err(
        ProcessorPlanError::Invalid(
            "Muse-Glimmer projector GGUF requires three Float32 values in ".to_owned().concat(
                debug_text(key).as_str(),
            ),
        ),
    )
}

/// Reading of an optional one-element list.
pub open spec fn optional_single(
    metadata: Map<Seq<char>, MetadataValue>,
    key: Seq<char>,
) -> Reading<Option<usize>> {
    if !metadata.contains_key(key) {
        Ok(None)
    } else {
        match metadata[key].to_u32_vec {
            Some(values) if values.len() == 1 => Ok(Some(values[0] as usize)),
            _ => Err(integer_fault(key)),
        }
    }
}

/// Reading of a one-element list that must be there.
pub open spec fn required_single(
    metadata: Map<Seq<char>, MetadataValue>,
    key: Seq<char>,
) -> Reading<usize> {
    match optional_single(metadata, key) {
        Err(fault) => Err(fault),
        Ok(Some(value)) => Ok(value),
        Ok(None) => Err(
            Fault::Invalid(
                "Qwen projector is missing GGUF metadata key "@ + debug_quoted(key),
            ),
        ),
    }
}

/// Reads an optional one-element list.
pub(crate) fn optional_btree_usize(metadata: &StringMap<MetadataValue>, key: &str) -> (r: Result<
    Option<usize>,
    ProcessorPlanError,
>)
    ensures
        answers(r, optional_single(metadata@, key@)),
{
    match metadata.get(key) {
        None => Ok(None),
        Some(value) => match &value.to_u32_vec {
            Some(values) if values.len() == 1 => Ok(Some(values[0] as usize)),
            _ => Err(invalid_metadata(key)),
        },
    }
}

/// Reads a one-element list that must be there.
pub(crate) fn required_btree_usize(metadata: &StringMap<MetadataValue>, key: &str) -> (r: Result<
    usize,
    ProcessorPlanError,
>)
    ensures
        answers(r, required_single(metadata@, key@)),
{
    match optional_btree_usize(metadata, key)? {
        Some(value) => Ok(value),
        None => Err(
            ProcessorPlanError::Invalid(
                "Qwen projector is missing GGUF metadata key ".to_owned().concat(
                    debug_text(key).as_str(),
                ),
            ),
        ),
    }
}

/// Reading of three values converted to binary32.
pub open spec fn converted_channels(
    metadata: Map<Seq<char>, MetadataValue>,
    key: Seq<char>,
) -> Reading<Channels> {
    if !metadata.contains_key(key) || metadata[key].to_f32_vec is None {
        Err(
            Fault::Invalid(
                "Qwen projector is missing float RGB metadata "@ + debug_quoted(key),
            ),
        )
    } else {
        let values = metadata[key].to_f32_vec->0;
        if values.len() == 3 {
            Ok(channels_of(values@))
        } else {
            Err(
                Fault::Invalid(
                    "Qwen projector metadata "@ + debug_quoted(key)
                        + " must contain 3 floats, got "@ + decimal(values.len() as nat),
                ),
            )
        }
    }
}

fn missing_channels(key: &str) -> (r: ProcessorPlanError)
    ensures
        r.deep_view() == Fault::Invalid(
            "Qwen projector is missing float RGB metadata "@ + debug_quoted(key@),
        ),
{
    ProcessorPlanError::Invalid(
        "Qwen projector is missing float RGB metadata ".to_owned().concat(
            debug_text(key).as_str(),
        ),
    )
}

/// Reads three values converted to binary32.
pub(crate) fn required_btree_rgb(metadata: &StringMap<MetadataValue>, key: &str) -> (r: Result<
    Channels,
    ProcessorPlanError,
>)
    ensures
        answers(r, converted_channels(metadata@, key@)),
{
    let values: &Vec<Float32> = match metadata.get(key) {
        Some(value) => match &value.to_f32_vec {
            Some(values) => values,
            None => {
                return Err(missing_channels(key));
            },
        },
        None => {
            return Err(missing_channels(key));
        },
    };
    if values.len() == 3 {
        Ok(Channels { red: values[0], green: values[1], blue: values[2] })
    } else {
        Err(
            ProcessorPlanError::Invalid(
                "Qwen projector metadata ".to_owned().concat(debug_text(key).as_str()).concat(
                    " must contain 3 floats, got ",
                ).concat(decimal_text(values.len() as u64).as_str()),
            ),
        )
    }
}

} // verus!
