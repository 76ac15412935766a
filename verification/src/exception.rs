//! Exceptions that an event reports.

use vstd::prelude::*;
use crate::stacktrace::Frame;

verus! {

/// An exception: its class, its message and the stack trace where it arose.
#[derive(Debug)]
pub struct Exception<'a> {
    pub error_class: &'a str,
    pub message: &'a str,
    pub stacktrace: &'a [Frame],
}

impl<'a> Exception<'a> {
    /// An exception with the given class, message and stack trace.
    pub fn new(errorclass: &'a str, message: &'a str, stacktrace: &'a [Frame]) -> (r: Exception<'a>)
        ensures
            r.error_class == errorclass,
            r.message == message,
            r.stacktrace == stacktrace,
    {
        Exception { error_class: errorclass, message, stacktrace }
    }
}

} // verus!
