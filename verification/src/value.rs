use vstd::prelude::*;

verus! {

/// A guest-native value as it appears at a capability boundary.
///
/// The guest language is dynamically typed; the values guest code can hand
/// to (or receive from) a capability operation are modelled by this closed
/// union. A real number is carried as its IEEE-754 binary64 bit pattern:
/// the bridge moves it across the boundary without interpreting it.
#[derive(Debug)]
pub enum GuestValue {
    Null,
    Int(i64),
    /// IEEE-754 binary64 bit pattern of a guest real number.
    Real(u64),
    Text(String),
    Bytes(Vec<u8>),
    /// An ordered sequence of guest values; never accepted as a query or
    /// command argument.
    List(Vec<GuestValue>),
    /// A guest mapping (key/value pairs in guest order); never accepted as
    /// a query or command argument.
    Mapping(Vec<(String, GuestValue)>),
}

} // verus!
