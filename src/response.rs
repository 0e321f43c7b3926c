use vstd::prelude::*;

verus! {

/// The single error kind surfaced across the cryptographic boundary.
///
/// Callers at this layer cannot recover differently per cause, so undersized
/// buffers and every backend failure are reported alike.
#[derive(Debug, Clone, Copy, PartialEq, Eq, Structural)]
pub enum DpeErrorCode {
    InternalError,
}

} // verus!
