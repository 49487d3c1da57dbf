//! The errors of the data model.
use vstd::prelude::*;

verus! {

/// Why a read or an invocation failed.
#[derive(Debug, Clone, Copy, PartialEq, Eq, Structural)]
pub enum Error {
    /// The attribute number is neither a global attribute nor one that the
    /// cluster declares.
    UnsupportedAttribute,
    /// The command number is not among those that the cluster accepts.
    UnsupportedCommand,
    /// The sink could not take the data of the read.
    EncodingFailure,
    /// The cluster's metadata and its dispatch disagree: the metadata lists
    /// what the dispatch cannot serve.
    InternalInconsistency,
}

} // verus!
