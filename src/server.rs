use vstd::prelude::*;

use crate::errors::{BAD_REQUEST, NOT_FOUND};

verus! {

/// How loudly a served request is logged.
#[derive(Clone, Copy, Debug, PartialEq, Eq, Structural)]
pub enum Severity {
    Error,
    Warn,
    Info,
}

/// Server errors are errors, a missing record or a bad request is a warning,
/// anything else is routine.
pub open spec fn severity_of(code: u16) -> Severity {
    if 500 <= code < 600 {
        Severity::Error
    } else if code == NOT_FOUND || code == BAD_REQUEST {
        Severity::Warn
    } else {
        Severity::Info
    }
}

pub fn log_severity(code: u16) -> (r: Severity)
    ensures
        r == severity_of(code),
{
    if 500 <= code && code < 600 {
        Severity::Error
    } else if code == NOT_FOUND || code == BAD_REQUEST {
        Severity::Warn
    } else {
        Severity::Info
    }
}

} // verus!
