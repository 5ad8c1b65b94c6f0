//! Errors reported by configuration and processor planning.

use vstd::prelude::*;

verus! {

/// Decoding failure reported by `serde_json`; carried through as it is.
#[verifier::external_type_specification]
#[verifier::external_body]
pub struct ExJsonError(serde_json::Error);

/// A decoded document, or why it could not be decoded.
pub type Decoded<T> = Result<T, serde_json::Error>;

/// Invalid or unsupported Gemma 4 configuration.
#[derive(Debug)]
pub enum ConfigError {
    /// Configuration JSON could not be decoded.
    Json(serde_json::Error),
    /// Geometry or scheduling changes unsupported semantics.
    Invalid(String),
}

/// What a planning error says.
pub enum Fault {
    /// The decoding failure of a document.
    Json(serde_json::Error),
    /// Some decoding failure: a null stands where a number is expected.
    NullNumber,
    /// A refusal in the words of whoever refuses.
    Refused,
    /// An exact message.
    Invalid(Seq<char>),
}

/// Whether an error that says `said` reports `fault`.
pub open spec fn tells(said: Fault, fault: Fault) -> bool {
    said == fault || (said is Json && fault is NullNumber) || (said is Invalid && fault is Refused)
}

impl DeepView for ConfigError {
    type V = Fault;

    open spec fn deep_view(&self) -> Fault {
        match self {
            ConfigError::Json(error) => Fault::Json(*error),
            ConfigError::Invalid(message) => Fault::Invalid(message@),
        }
    }
}

/// The first of two faults, if any.
pub open spec fn first_of(first: Option<Fault>, second: Option<Fault>) -> Option<Fault> {
    if first is Some {
        first
    } else {
        second
    }
}

/// A fault with the message `message`, where `holds`.
pub open spec fn fault_if(holds: bool, message: Seq<char>) -> Option<Fault> {
    if holds {
        Some(Fault::Invalid(message))
    } else {
        None
    }
}

/// Whether `r` reports `fault`.
pub open spec fn reports<T>(r: Result<T, ConfigError>, fault: Fault) -> bool {
    r matches Err(error) && tells(error.deep_view(), fault)
}

/// What a metadata reader gives.
pub type Reading<T> = Result<T, Fault>;

/// Fault of a reading.
pub open spec fn fault_of<T>(reading: Reading<T>) -> Option<Fault> {
    match reading {
        Ok(_) => None,
        Err(fault) => Some(fault),
    }
}

/// A configuration error with the message `message`.
pub(crate) fn invalid(message: &str) -> (r: ConfigError)
    ensures
        r.deep_view() == Fault::Invalid(message@),
{
    ConfigError::Invalid(message.to_owned())
}

/// Whether `r` reports `fault` as plain text.
pub open spec fn says<T>(r: Result<T, String>, fault: Fault) -> bool {
    r matches Err(message) && Fault::Invalid(message@) == fault
}

impl From<serde_json::Error> for ConfigError {
    fn from(error: serde_json::Error) -> (r: ConfigError) {
        ConfigError::Json(error)
    }
}

impl vstd::std_specs::convert::FromSpecImpl<serde_json::Error> for ConfigError {
    open spec fn obeys_from_spec() -> bool {
        true
    }

    open spec fn from_spec(error: serde_json::Error) -> ConfigError {
        ConfigError::Json(error)
    }
}

/// Invalid family processor configuration or input geometry.
#[derive(Debug)]
pub enum ProcessorPlanError {
    /// Processor JSON could not be decoded.
    Json(serde_json::Error),
    /// Family preprocessing policy could not be satisfied.
    Invalid(String),
}

impl DeepView for ProcessorPlanError {
    type V = Fault;

    open spec fn deep_view(&self) -> Fault {
        match self {
            ProcessorPlanError::Json(error) => Fault::Json(*error),
            ProcessorPlanError::Invalid(message) => Fault::Invalid(message@),
        }
    }
}

impl From<serde_json::Error> for ProcessorPlanError {
    fn from(error: serde_json::Error) -> (r: ProcessorPlanError) {
        ProcessorPlanError::Json(error)
    }
}

impl vstd::std_specs::convert::FromSpecImpl<serde_json::Error> for ProcessorPlanError {
    open spec fn obeys_from_spec() -> bool {
        true
    }

    open spec fn from_spec(error: serde_json::Error) -> ProcessorPlanError {
        ProcessorPlanError::Json(error)
    }
}

/// Whether `r` refuses with `fault`.
pub open spec fn refuses<T>(r: Result<T, ProcessorPlanError>, fault: Fault) -> bool {
    r matches Err(error) && error.deep_view() == fault
}

/// Whether `r` is `reading`.
pub open spec fn answers<T>(r: Result<T, ProcessorPlanError>, reading: Reading<T>) -> bool {
    match reading {
        Ok(value) => r == Ok::<T, ProcessorPlanError>(value),
        Err(fault) => refuses(r, fault),
    }
}

/// A processor error with the message `message`.
pub(crate) fn unplanned(message: &str) -> (r: ProcessorPlanError)
    ensures
        r.deep_view() == Fault::Invalid(message@),
{
    ProcessorPlanError::Invalid(message.to_owned())
}

/// Decoding failure of a null where a number is expected.
///
/// Trusted: calls `serde::de::Error::invalid_type` of `serde_json::Error`. The failure is opaque,
/// and what it says is left unsaid.
#[verifier::external_body]
pub(crate) fn null_number() -> (r: serde_json::Error) {
    <serde_json::Error as serde::de::Error>::invalid_type(serde::de::Unexpected::Unit, &"f32")
}

} // verus!
