//! The two recoverable failures of a call across the boundary.

use vstd::prelude::*;
use vstd::string::StringExecFns;

verus! {

/// A scripting value could not be turned into the native value that a call
/// needs.
#[derive(Debug)]
pub struct TryFromJsValueError(String);

impl View for TryFromJsValueError {
    type V = Seq<char>;

    closed spec fn view(&self) -> Seq<char> {
        self.0@
    }
}

impl TryFromJsValueError {
    pub fn new(msg: &str) -> (e: Self)
        ensures
            e@ == msg@,
    {
        TryFromJsValueError(String::from_str(msg))
    }

    pub fn error_message(&self) -> (msg: String)
        ensures
            msg@ == self@,
    {
        self.0.clone()
    }
}

/// A native value stands for a failure; it is raised as a scripting exception.
#[derive(Debug)]
pub struct JsException(String);

impl View for JsException {
    type V = Seq<char>;

    closed spec fn view(&self) -> Seq<char> {
        self.0@
    }
}

impl JsException {
    pub fn new(msg: &str) -> (e: Self)
        ensures
            e@ == msg@,
    {
        JsException(String::from_str(msg))
    }

    pub fn error_message(&self) -> (msg: String)
        ensures
            msg@ == self@,
    {
        self.0.clone()
    }
}

} // verus!
