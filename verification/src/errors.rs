//! The error taxonomy shared by the arena types and the logger.

use vstd::prelude::*;

verus! {

/// Every failure the bundle can report to its caller.
///
/// - `CapacityExceeded`: a fixed-capacity arena would overflow; the caller may
///   reject the bytes or route them into a growable block.
/// - `ResourceExhausted`: a growable block could not reserve more memory.
/// - `MissingDestination`: the logger was asked to publish with no file path
///   configured; the buffered messages are retained.
/// - `IoFailure`: writing the published content to its destination failed.
#[derive(Clone, Copy, Debug, PartialEq, Eq, Structural)]
pub enum CoreError {
    CapacityExceeded,
    ResourceExhausted,
    MissingDestination,
    IoFailure,
}

} // verus!
