//! What the transport shows of an operation's outcome.

use crate::error::{ServiceError, STATUS_OK};
use vstd::prelude::*;

verus! {

/// The body of the answer to a health probe.
pub fn health_check() -> (body: &'static str)
    ensures
        body@ == "OK"@,
{
    "OK"
}

/// The status under which an outcome is reported.
pub open spec fn status_of<T>(outcome: Result<T, ServiceError>) -> u16 {
    match outcome {
        Ok(_) => STATUS_OK,
        Err(e) => e.status_of(),
    }
}

/// The status under which an outcome is reported: 200 for an answer, and the
/// error's own status otherwise.
pub fn status<T>(outcome: &Result<T, ServiceError>) -> (code: u16)
    ensures
        code == status_of(*outcome),
{
    match outcome {
        Ok(_) => STATUS_OK,
        Err(e) => e.status(),
    }
}

} // verus!
