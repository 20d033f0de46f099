use vstd::prelude::*;

verus! {

/// One buildable unit: the root project or one transitive dependency.
///
/// Constructed once per run from the build tool's materialized metadata and
/// immutable thereafter.
pub struct SourceNode {
    /// Display identity; not unique across the graph.
    pub name: String,
    /// Stable identity derived from the node's source content/version;
    /// serves both as the cache key and as the lock key.
    pub hash: u64,
    /// Ordered collection of directories and files to index.
    pub source_paths: Vec<String>,
    /// Destination of this node's merged tags file.
    pub tags_path: String,
    /// Direct dependencies, as indices into the owning graph's node list.
    pub dependencies: Vec<usize>,
}

impl SourceNode {
    /// Well-formed within a graph of `n` nodes: every dependency edge points
    /// into the node list and there is at least one source path to index.
    pub open spec fn wf_in(&self, n: int) -> bool {
        &&& forall|k: int|
            0 <= k < self.dependencies@.len() ==> (#[trigger] self.dependencies@[k]) < n
        &&& self.source_paths@.len() > 0
    }
}

/// A dependency graph: the root project and every transitive dependency,
/// with edges by index into `nodes`.
pub struct Graph {
    pub nodes: Vec<SourceNode>,
}

impl Graph {
    pub open spec fn wf(&self) -> bool {
        forall|i: int|
            0 <= i < self.nodes@.len() ==> (#[trigger] self.nodes@[i]).wf_in(
                self.nodes@.len() as int,
            )
    }

    /// The hash of the node at index `i`.
    pub open spec fn hash_at(&self, i: int) -> u64 {
        self.nodes@[i].hash
    }
}

} // verus!
