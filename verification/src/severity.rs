//! How severe an event is.

use vstd::prelude::*;

verus! {

/// How severe an event is.
#[derive(Debug, Clone, Copy, PartialEq, Eq, Structural)]
pub enum Severity {
    Error,
    Warning,
    Info,
}

} // verus!
