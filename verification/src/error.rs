use vstd::prelude::*;

verus! {

/// The classification of a guest-visible failure.
///
/// Guest code sees exactly these kinds: a value outside the accepted type
/// lattice of a capability operation, a malformed or undecodable byte
/// sequence, a failure reported by the underlying host capability, or a
/// fatal failure of the one-time initialization.
#[derive(Clone, Copy, Debug, PartialEq, Eq, Structural)]
pub enum ErrorKind {
    InvalidArgument,
    ConversionFailure,
    CapabilityFailure,
    InitializationFailure,
}

/// The single error shape surfaced to guest code.
///
/// Every host-side failure, whatever its native kind, is collapsed into one
/// of the four [`ErrorKind`]s together with a diagnostic message, so guest
/// code can catch one error type regardless of which capability failed.
#[derive(Debug)]
pub struct GuestError {
    pub kind: ErrorKind,
    pub message: String,
}

impl GuestError {
    /// Wraps a diagnostic for a value outside the accepted type lattice.
    pub fn invalid_argument(message: String) -> (e: GuestError)
        ensures
            e.kind == ErrorKind::InvalidArgument,
            e.message == message,
    {
        GuestError { kind: ErrorKind::InvalidArgument, message }
    }

    /// Wraps a diagnostic for a malformed or undecodable value.
    pub fn conversion_failure(message: String) -> (e: GuestError)
        ensures
            e.kind == ErrorKind::ConversionFailure,
            e.message == message,
    {
        GuestError { kind: ErrorKind::ConversionFailure, message }
    }

    /// The uniform translation of a host capability failure: the diagnostic
    /// (already rendered with its full cause chain) is preserved verbatim,
    /// and no host error kind leaks through in its native shape.
    pub fn capability_failure(message: String) -> (e: GuestError)
        ensures
            e.kind == ErrorKind::CapabilityFailure,
            e.message == message,
    {
        GuestError { kind: ErrorKind::CapabilityFailure, message }
    }

    /// Wraps a diagnostic for a fatal initialization failure.
    pub fn initialization_failure(message: String) -> (e: GuestError)
        ensures
            e.kind == ErrorKind::InitializationFailure,
            e.message == message,
    {
        GuestError { kind: ErrorKind::InitializationFailure, message }
    }
}

/// Applies the uniform error translation to a host capability outcome:
/// success passes through untouched, and any failure diagnostic is wrapped
/// as a capability failure.
pub fn translate_host_outcome<T>(outcome: Result<T, String>) -> (r: Result<T, GuestError>)
    ensures
        outcome matches Ok(v) ==> (r matches Ok(w) && w == v),
        outcome matches Err(d) ==> (r matches Err(e) && e.kind == ErrorKind::CapabilityFailure
            && e.message == d),
{
    match outcome {
        Ok(v) => Ok(v),
        Err(d) => Err(GuestError::capability_failure(d)),
    }
}

} // verus!
