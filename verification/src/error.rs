//! Why a run stops before its end.

use vstd::prelude::*;

verus! {

/// The conditions that end a run early. Each is final: once one has been
/// returned, the run accepts no further event.
#[derive(Debug, Clone, Copy, PartialEq, Eq)]
pub enum FetchError {
    /// The directory service answered with success, but its body was not the
    /// list of collections it promises.
    MalformedDirectory,
    /// An asset's quantity is not a 32-bit decimal integer.
    MalformedQuantity,
    /// A cover path is too short to hold the URI scheme.
    MalformedCoverPath,
    /// The caller could not perform the action it was asked for.
    ActionFailed,
    /// The event handed in does not answer the action last asked for.
    UnexpectedEvent,
}

} // verus!
