//! The descriptor of an available update, as produced by the update checker.

use vstd::prelude::*;

verus! {

/// Opaque handle identifying the downloadable install payload of one
/// available update. The shell keeps the actual payload object and maps it
/// back from this token when the install is performed.
#[derive(Clone, Copy, PartialEq, Eq, Structural, Debug)]
pub struct PayloadHandle {
    pub token: u64,
}

/// Metadata of one available update: the version it offers, its release
/// notes already sanitized for embedding in markup, and the handle of its
/// install payload. Immutable once created by the checker.
#[derive(Debug)]
pub struct UpdateDescriptor {
    pub version: String,
    pub notes: String,
    pub payload: PayloadHandle,
}

} // verus!
