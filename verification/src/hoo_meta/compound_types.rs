//! Export of native results.

use crate::hoo_meta::types::JsException;
use vstd::prelude::*;

verus! {

/// Exports a native `Result`: a success goes on to its own export, a failure
/// is raised as an exception that carries the failure's text.
pub fn get_js_value_of_result<OT>(val: Result<OT, String>) -> (r: Result<OT, JsException>)
    ensures
        match val {
            Ok(value) => r == Ok::<OT, JsException>(value),
            Err(text) => r matches Err(e) && e@ == text@,
        },
{
    match val {
        Ok(value) => Ok(value),
        Err(text) => Err(JsException::new(text.as_str())),
    }
}

} // verus!
