use vstd::prelude::*;

verus! {

/// The ways a step of the retrieval-and-generation pipeline can fail.
#[derive(Debug, Clone, Copy, PartialEq, Eq, Structural)]
pub enum PipelineError {
    /// A file could not be opened or read.
    Io,
    /// An embedding or completion backend failed or rejected the request.
    Provider,
    /// The vector store was unreachable or rejected the operation.
    Store,
    /// A vector's dimension differs from the dimension the collection was configured with.
    Config { expected: usize, found: usize },
}

} // verus!
