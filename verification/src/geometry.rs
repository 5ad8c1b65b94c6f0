//! Checked tensor geometry.

use crate::errors::{Fault, fault_if, says};
use crate::text::{signed_decimal, signed_text};
use vstd::prelude::*;

verus! {

/// Fault of a dimension that must be positive.
pub open spec fn dimension_fault(value: i32, name: Seq<char>) -> Option<Fault> {
    fault_if(
        value <= 0,
        "Gemma 4 "@ + name + " must be positive, got "@ + signed_decimal(value as int),
    )
}

/// Reads a dimension that must be positive.
pub fn dimension(value: i32, name: &str) -> (r: Result<usize, String>)
    ensures
        match dimension_fault(value, name@) {
            Some(fault) => says(r, fault),
            None => r == Ok::<usize, String>(value as usize),
        },
{
    if value <= 0 {
        return Err(
            "Gemma 4 ".to_owned().concat(name).concat(" must be positive, got ").concat(
                signed_text(value).as_str(),
            ),
        );
    }
    Ok(value as usize)
}

/// Fault of a product that must fit `usize`.
pub open spec fn product_fault(left: int, right: int, name: Seq<char>) -> Option<Fault> {
    fault_if(left * right > usize::MAX, "Gemma 4 "@ + name + " geometry overflows"@)
}

/// Multiplies two dimensions.
pub fn checked_mul(left: usize, right: usize, name: &str) -> (r: Result<usize, String>)
    ensures
        match product_fault(left as int, right as int, name@) {
            Some(fault) => says(r, fault),
            None => r == Ok::<usize, String>((left * right) as usize),
        },
{
    match left.checked_mul(right) {
        Some(product) => Ok(product),
        None => Err("Gemma 4 ".to_owned().concat(name).concat(" geometry overflows")),
    }
}

} // verus!
