//! Frames of a stack trace.

use vstd::prelude::*;

verus! {

/// One frame of a stack trace: a file, a line in it, a method, and whether
/// the code belongs to the project.
#[derive(Debug)]
pub struct Frame {
    pub file: String,
    pub line_number: u32,
    pub method: String,
    pub in_project: bool,
}

impl Frame {
    /// A frame with the given file, line, method and project membership.
    pub fn new(file: &str, linenumber: u32, method: &str, inproject: bool) -> (r: Frame)
        ensures
            r.file@ == file@,
            r.line_number == linenumber,
            r.method@ == method@,
            r.in_project == inproject,
    {
        Frame {
            file: file.to_owned(),
            line_number: linenumber,
            method: method.to_owned(),
            in_project: inproject,
        }
    }
}

} // verus!
