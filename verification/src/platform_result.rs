use vstd::prelude::*;

verus! {

/// The outcome of a platform service: a value, or the reason none came back.
#[derive(Debug, PartialEq, Eq)]
pub enum PlatformResult<T> {
    /// The service ran and produced a value.
    Success(T),
    /// The service does not exist on this platform.
    Unavailable,
    /// The service exists but failed.
    UnknownError,
}

} // verus!
