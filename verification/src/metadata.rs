//! GGUF metadata values, as the readings that planning takes of them.

use crate::float::Float32;
use vstd::prelude::*;

verus! {

/// Integer metadata of any stored width.
#[derive(Debug, Clone, Copy, PartialEq, Eq, Structural)]
pub enum MetadataInteger {
    /// Stored in an unsigned type.
    Unsigned(u64),
    /// Stored in a signed type.
    Signed(i64),
}

/// One metadata value. Every field is a reading of the stored value, absent where the value has
/// no such reading.
#[derive(Debug, Clone)]
pub struct MetadataValue {
    /// The value of an integer scalar.
    pub integer: Option<MetadataInteger>,
    /// Conversion to a signed 64-bit scalar.
    pub as_i64: Option<i64>,
    /// Conversion to a binary32 scalar.
    pub as_f32: Option<Float32>,
    /// Conversion to a switch.
    pub as_bool: Option<bool>,
    /// The elements of an array of switches.
    pub bool_array: Option<Vec<bool>>,
    /// The elements of an array of binary32 values.
    pub f32_array: Option<Vec<Float32>>,
    /// Conversion to a list of signed 64-bit values.
    pub to_i64_vec: Option<Vec<i64>>,
    /// Conversion to a list of unsigned 32-bit values.
    pub to_u32_vec: Option<Vec<u32>>,
    /// Conversion of an array to a list of binary32 values.
    pub to_f32_vec: Option<Vec<Float32>>,
}

} // verus!
