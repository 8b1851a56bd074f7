//! Import of primitive values.
//!
//! The scripting runtime coerces a value to the primitive that is asked for
//! and says whether that worked.  What is decided here is what a failed
//! coercion becomes: a diagnostic that names the expected kind.

use crate::hoo_meta::types::TryFromJsValueError;
use vstd::prelude::*;

verus! {

/// The primitive kinds whose import can fail.
#[derive(Debug, Clone, Copy, PartialEq, Eq, Structural)]
pub enum JsPrimitive {
    Int32,
    Uint32,
    Int64,
    Float32,
    Float64,
    Text,
}

impl JsPrimitive {
    /// The diagnostic for a value that is not of this kind.
    pub open spec fn mismatch(self) -> Seq<char> {
        match self {
            JsPrimitive::Int32 => "not a i32"@,
            JsPrimitive::Uint32 => "not a u32"@,
            JsPrimitive::Int64 => "not a i64"@,
            JsPrimitive::Float32 => "not a f32"@,
            JsPrimitive::Float64 => "not a f64"@,
            JsPrimitive::Text => "not a string"@,
        }
    }

    pub fn mismatch_message(&self) -> (msg: &'static str)
        ensures
            msg@ == self.mismatch(),
    {
        match self {
            JsPrimitive::Int32 => "not a i32",
            JsPrimitive::Uint32 => "not a u32",
            JsPrimitive::Int64 => "not a i64",
            JsPrimitive::Float32 => "not a f32",
            JsPrimitive::Float64 => "not a f64",
            JsPrimitive::Text => "not a string",
        }
    }
}

/// The diagnostic for a value that should have been null or undefined.
pub open spec fn not_null_or_undefined() -> Seq<char> {
    "not null or undefined"@
}

/// Imports a primitive of kind `kind` from the runtime's coercion: the value
/// where there is one, the kind's diagnostic where there is none.
pub fn try_from_coerced<V>(kind: JsPrimitive, coerced: Option<V>) -> (r: Result<
    V,
    TryFromJsValueError,
>)
    ensures
        match coerced {
            Some(value) => r == Ok::<V, TryFromJsValueError>(value),
            None => r matches Err(e) && e@ == kind.mismatch(),
        },
{
    match coerced {
        Some(value) => Ok(value),
        None => Err(TryFromJsValueError::new(kind.mismatch_message())),
    }
}

/// Imports a boolean.  Every scripting value is either truthy or not, so this
/// cannot fail.
pub fn try_from_truthiness(truthy: bool) -> (r: Result<bool, TryFromJsValueError>)
    ensures
        r == Ok::<bool, TryFromJsValueError>(truthy),
{
    Ok(truthy)
}

/// Imports the unit value, which only null and undefined stand for.
pub fn try_unit_from(null_or_undefined: bool) -> (r: Result<(), TryFromJsValueError>)
    ensures
        null_or_undefined ==> r is Ok,
        !null_or_undefined ==> (r matches Err(e) && e@ == not_null_or_undefined()),
{
    if !null_or_undefined {
        return Err(TryFromJsValueError::new("not null or undefined"));
    }
    Ok(())
}

} // verus!
