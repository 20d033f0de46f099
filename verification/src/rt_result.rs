use vstd::prelude::*;

verus! {

/// Error taxonomy of the orchestrator.
///
/// `Graph` and `Config` errors are fatal and abort a run; `Generation` and
/// `Io` errors are per-node failures that are recorded and reported without
/// stopping sibling nodes; `ToolNotFound` is fatal because no node can be
/// indexed without the external indexer.
pub enum RtErr {
    /// Malformed or cyclic dependency data.
    Graph(String),
    /// The external indexer binary could not be located.
    ToolNotFound(String),
    /// The external indexer ran and exited with a failure diagnostic.
    Generation(String),
    /// A filesystem operation failed.
    Io(String),
    /// The environment or configuration is unusable.
    Config(String),
}

pub type RtResult<T> = Result<T, RtErr>;

impl RtErr {
    /// Fatal errors abort the whole run; the others are isolated per node.
    pub open spec fn spec_is_fatal(&self) -> bool {
        match self {
            RtErr::Graph(_) => true,
            RtErr::ToolNotFound(_) => true,
            RtErr::Config(_) => true,
            RtErr::Generation(_) => false,
            RtErr::Io(_) => false,
        }
    }

    pub fn is_fatal(&self) -> (b: bool)
        ensures
            b == self.spec_is_fatal(),
    {
        match self {
            RtErr::Graph(_) => true,
            RtErr::ToolNotFound(_) => true,
            RtErr::Config(_) => true,
            RtErr::Generation(_) => false,
            RtErr::Io(_) => false,
        }
    }
}

} // verus!
