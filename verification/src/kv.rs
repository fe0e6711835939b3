use vstd::prelude::*;

use crate::error::{ErrorKind, GuestError};
use crate::value::GuestValue;

verus! {

/// An opaque guest-visible handle to an open key-value store.
///
/// The underlying host resource is reference-counted and owned by the
/// runtime; the handle carries only the identity under which the runtime
/// knows it, so guest-side copies share one host connection.
#[derive(Clone, Copy, Debug, PartialEq, Eq, Structural)]
pub struct StoreHandle {
    pub id: u64,
}

/// Interprets the host's answer to opening a store: a fresh handle on
/// success, a capability failure otherwise.
pub fn interpret_open(outcome: Result<u64, String>) -> (r: Result<StoreHandle, GuestError>)
    ensures
        outcome matches Ok(id) ==> (r matches Ok(h) && h.id == id),
        outcome matches Err(d) ==> (r matches Err(e) && e.kind == ErrorKind::CapabilityFailure
            && e.message == d),
{
    match outcome {
        Ok(id) => Ok(StoreHandle { id }),
        Err(d) => Err(GuestError::capability_failure(d)),
    }
}

/// Interprets the host's answer to a `get`: a present value becomes a
/// guest byte buffer, a missing key becomes guest null — never an error —
/// and only a store failure is translated to a capability failure.
///
/// The other store operations (`set`, `delete`, `exists`, `list_keys`)
/// carry their results through unchanged and translate failures with
/// [`crate::error::translate_host_outcome`].
pub fn interpret_get(outcome: Result<Option<Vec<u8>>, String>) -> (r: Result<
    GuestValue,
    GuestError,
>)
    ensures
        match outcome {
            Ok(Some(v)) => r matches Ok(g) && g matches GuestValue::Bytes(b) && b == v,
            Ok(None) => r matches Ok(g) && g is Null,
            Err(d) => r matches Err(e) && e.kind == ErrorKind::CapabilityFailure && e.message
                == d,
        },
{
    match outcome {
        Ok(Some(v)) => Ok(GuestValue::Bytes(v)),
        Ok(None) => Ok(GuestValue::Null),
        Err(d) => Err(GuestError::capability_failure(d)),
    }
}

} // verus!
