//! The decisions of a call thunk: is the number of arguments right, is a
//! field of a value type there, and what does the scripting caller get back.

use crate::hoo_meta::types::{JsException, TryFromJsValueError};
use vstd::prelude::*;
use vstd::string::StringExecFns;

verus! {

/// The diagnostic for a call with the wrong number of arguments.
pub open spec fn wrong_argument_count() -> Seq<char> {
    "incorrect number of arguments"@
}

/// The diagnostic for a value type that was given something else than an
/// object.
pub open spec fn not_an_object() -> Seq<char> {
    "not an object"@
}

/// The diagnostic for a value type whose field `name` is not there.
pub open spec fn missing_field(name: Seq<char>) -> Seq<char> {
    "field does not exist: "@ + name
}

/// How many scripting arguments a native function with `declared` parameters
/// takes: all of them, but for a method its receiver, which arrives as `this`.
pub open spec fn expected_arguments(declared: u32, is_method: bool) -> int {
    if is_method {
        declared - 1
    } else {
        declared as int
    }
}

/// Checks the number of arguments of a call before any of them is imported.
pub fn check_argument_count(given: i32, declared: u32, is_method: bool) -> (r: Result<
    (),
    TryFromJsValueError,
>)
    ensures
        given == expected_arguments(declared, is_method) ==> r is Ok,
        given != expected_arguments(declared, is_method) ==> (r matches Err(e) && e@
            == wrong_argument_count()),
{
    let receiver: i64 = if is_method {
        1
    } else {
        0
    };
    let expected: i64 = declared as i64 - receiver;
    if given as i64 == expected {
        Ok(())
    } else {
        Err(TryFromJsValueError::new("incorrect number of arguments"))
    }
}

/// The object that a value type is imported from, if the scripting value
/// could be read as one.
pub fn object_or_error<V>(object: Option<V>) -> (r: Result<V, TryFromJsValueError>)
    ensures
        match object {
            Some(value) => r == Ok::<V, TryFromJsValueError>(value),
            None => r matches Err(e) && e@ == not_an_object(),
        },
{
    match object {
        Some(value) => Ok(value),
        None => Err(TryFromJsValueError::new("not an object")),
    }
}

/// The property that a declared field is imported from.  Where the object has
/// no such property the diagnostic names the field.
pub fn field_or_error<V>(name: &str, property: Option<V>) -> (r: Result<V, TryFromJsValueError>)
    ensures
        match property {
            Some(value) => r == Ok::<V, TryFromJsValueError>(value),
            None => r matches Err(e) && e@ == missing_field(name@),
        },
{
    match property {
        Some(value) => Ok(value),
        None => {
            let mut msg = String::from_str("field does not exist: ");
            msg.append(name);
            Err(TryFromJsValueError::new(msg.as_str()))
        },
    }
}

/// What a thunk hands to the scripting caller.
#[derive(Debug)]
pub enum CallOutcome<V> {
    /// The call returns this scripting value.
    Return(V),
    /// The call raises an exception with this message.
    Throw(String),
}

/// The message of the exception that a failed call raises, if it failed.
pub open spec fn thrown<V>(call: Result<Result<V, JsException>, TryFromJsValueError>) -> Option<
    Seq<char>,
> {
    match call {
        Ok(Ok(_)) => None,
        Ok(Err(exception)) => Some(exception@),
        Err(error) => Some(error@),
    }
}

/// Ends a call.  `call` is what importing the arguments, running the native
/// function and exporting its result came to; either failure becomes an
/// exception with the failure's own message.
pub fn complete_call<V>(call: Result<Result<V, JsException>, TryFromJsValueError>) -> (outcome:
    CallOutcome<V>)
    ensures
        match call {
            Ok(Ok(value)) => outcome == CallOutcome::Return(value),
            _ => outcome matches CallOutcome::Throw(msg) && Some(msg@) == thrown(call),
        },
{
    match call {
        Ok(Ok(value)) => CallOutcome::Return(value),
        Ok(Err(exception)) => CallOutcome::Throw(exception.error_message()),
        Err(error) => CallOutcome::Throw(error.error_message()),
    }
}

} // verus!
