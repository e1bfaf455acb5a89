//! Why an embedding request failed.

use vstd::prelude::*;

verus! {

/// The failure of one embedding request. A failure is scoped to the call that
/// met it: the next call starts afresh.
#[derive(Debug, Clone, Copy, PartialEq, Eq, Structural)]
pub enum EmbedError {
    /// The backend has no model with this id.
    UnknownModel(i32),
    /// The model could not be loaded, or the service could not be reached.
    InitializationFailed,
    /// The engine or the service rejected the request, or the transport failed.
    ExecutionFailed,
    /// No vector came back, so that the dimension is undefined.
    EmptyResponse,
    /// The number of vectors differs from the number of input items.
    CountMismatch,
    /// The vectors do not all have the same length.
    RaggedResponse,
}

} // verus!
