use vstd::prelude::*;

use crate::error::{ErrorKind, GuestError};

verus! {

/// Interprets the host's answer to a scoped-configuration lookup.
///
/// A missing key and a backend failure deliberately collapse into the
/// same capability failure: callers cannot distinguish the two, which
/// mirrors the behaviour this binding has always had.
pub fn interpret_get(outcome: Result<String, String>) -> (r: Result<String, GuestError>)
    ensures
        outcome matches Ok(v) ==> (r matches Ok(w) && w == v),
        outcome matches Err(d) ==> (r matches Err(e) && e.kind == ErrorKind::CapabilityFailure
            && e.message == d),
{
    crate::error::translate_host_outcome(outcome)
}

} // verus!
