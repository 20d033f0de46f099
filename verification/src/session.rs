use vstd::prelude::*;

use crate::config::Config;
use crate::dependencies::{covers_all, schedule_ok};
use crate::rt_result::RtErr;
use crate::tags::{concat_all, merge_tags};
use crate::types::{Graph, SourceNode};

verus! {

/// Where a node stands in the run, as the state machine of the orchestrator
/// sees it: `Pending` until the run reaches it, then one of the final states.
pub enum NodeStatus {
    /// Not reached yet.
    Pending,
    /// Artifact present and fresh: no work was performed.
    Skipped,
    /// Another cooperating process holds the node's lock; the node was left
    /// alone and its artifact was not touched.
    LockedElsewhere,
    /// The lock is held by this run and generation or merging is under way.
    Building,
    /// Generation and merge succeeded and the artifact was published.
    Done,
    /// Generation, merging or publication failed; the failure is recorded
    /// here and sibling nodes are unaffected.
    Failed(RtErr),
}

/// Why the external indexer produced no tags.
pub enum GenFailure {
    /// The indexer binary could not be located: an environment problem the
    /// user must fix, fatal for the whole run.
    ToolNotFound(String),
    /// The indexer ran and exited non-zero; its diagnostic output is kept.
    Failed(String),
}

pub open spec fn gen_failure_err(gf: GenFailure) -> RtErr {
    match gf {
        GenFailure::ToolNotFound(m) => RtErr::ToolNotFound(m),
        GenFailure::Failed(m) => RtErr::Generation(m),
    }
}

/// The build phase of the node currently being processed.
pub enum Phase {
    /// Waiting to learn whether the node's artifact exists and is fresh.
    Deciding,
    /// Waiting for the outcome of the atomic lock acquisition.
    Locking,
    /// Lock held; waiting for the external indexer's output.
    Generating,
    /// Lock held; own lines generated, waiting for the dependencies' tags.
    Merging,
    /// Lock held; merged artifact handed out for atomic publication.
    Publishing,
    /// Work over; waiting for confirmation that the lock was removed.
    Releasing,
}

/// What the environment observed, handed back to the state machine in answer
/// to the previous `Action`.
pub enum Event {
    /// Whether the node's tags file exists, and whether its recorded hash is
    /// unchanged since the last build.
    Freshness { artifact_exists: bool, hash_unchanged: bool },
    /// Whether the create-if-absent lock acquisition succeeded.
    LockResult { acquired: bool },
    /// The external indexer's freshly generated tag lines, or its failure.
    Generated { result: Result<Vec<String>, GenFailure> },
    /// The published tag lines of each dependency, in dependency order, or
    /// the filesystem failure met while reading them.
    DepTags { result: Result<Vec<Vec<String>>, String> },
    /// Whether the atomic publication of the merged artifact succeeded.
    Published { result: Result<(), String> },
    /// The node's lock artifact is gone.
    Released,
}

/// What the environment must do next on behalf of the state machine.
pub enum Action {
    /// Report whether the tags file at `tags_path` exists and whether the
    /// hash recorded for it matches `hash`.
    CheckFreshness { tags_path: String, hash: u64 },
    /// Atomically create the lock artifact keyed by `hash` if it is absent,
    /// and report whether this run now holds it.
    TryAcquire { hash: u64 },
    /// Run the external indexer over `source_paths`, recursing into
    /// subdirectories only when several paths are supplied.
    Generate { source_paths: Vec<String>, recurse: bool },
    /// Read the published tags at each path, in the given order.
    ReadDepTags { paths: Vec<String> },
    /// Write `lines` to a fresh temporary file and atomically rename it over
    /// `path`, so that no reader ever observes a partial artifact.
    Publish { path: String, lines: Vec<String> },
    /// Remove the lock artifact keyed by `hash`; removing an already-removed
    /// lock is not an error.
    Release { hash: u64 },
    /// The run is over; report the statuses.
    Finished,
}

/// Decides whether a node's tags must be (re)built: a node is fresh only when
/// its published artifact exists, its hash is unchanged since the last build,
/// and no forced recreation was requested.
pub fn needs_build(artifact_exists: bool, force_recreate: bool, hash_unchanged: bool) -> (b: bool)
    ensures
        b == !(artifact_exists && hash_unchanged && !force_recreate),
{
    !(artifact_exists && hash_unchanged && !force_recreate)
}

pub open spec fn status_final(st: NodeStatus) -> bool {
    match st {
        NodeStatus::Pending => false,
        NodeStatus::Building => false,
        NodeStatus::Skipped => true,
        NodeStatus::LockedElsewhere => true,
        NodeStatus::Done => true,
        NodeStatus::Failed(_) => true,
    }
}

pub open spec fn phase_status_ok(ph: Phase, st: NodeStatus) -> bool {
    match ph {
        Phase::Deciding => st is Pending,
        Phase::Locking => st is Pending,
        Phase::Generating => st is Building,
        Phase::Merging => st is Building,
        Phase::Publishing => st is Building,
        Phase::Releasing => st is Done || st is Failed,
    }
}

/// The tags paths of a node's direct dependencies, in dependency order.
pub open spec fn dep_paths_spec(g: &Graph, idx: int) -> Seq<Seq<char>> {
    Seq::new(
        g.nodes@[idx].dependencies@.len(),
        |k: int| g.nodes@[g.nodes@[idx].dependencies@[k] as int].tags_path@,
    )
}

/// One run of the build orchestrator over a scheduled dependency graph.
///
/// The session is a state machine: the environment performs each returned
/// `Action` (a filesystem check, the lock protocol, the external indexer, an
/// atomic publication) and hands the observed `Event` back to `step`, which
/// makes every decision. All locking follows a guaranteed-release
/// discipline: a held lock is released on every path, success or failure,
/// before the run moves to another node.
pub struct Session {
    pub graph: Graph,
    /// Build order: each distinct hash once, dependencies first.
    pub schedule: Vec<usize>,
    /// One status per schedule position.
    pub status: Vec<NodeStatus>,
    /// The first schedule position not yet finished.
    pub pos: usize,
    /// The build phase of the node at `pos`.
    pub phase: Phase,
    /// The node's freshly generated lines, held while merging.
    pub own_lines: Vec<String>,
    /// Rebuild nodes whose artifacts are present and fresh.
    pub force_recreate: bool,
    /// A fatal failure was met; the run stops once the lock is released.
    pub fatal: bool,
}

impl Session {
    pub open spec fn in_progress(&self) -> bool {
        self.pos < self.schedule@.len()
    }

    /// No further node will be processed.
    pub open spec fn halted(&self) -> bool {
        self.pos == self.schedule@.len() || self.fatal
    }

    /// The node index of the schedule position being processed.
    pub open spec fn current(&self) -> int {
        self.schedule@[self.pos as int] as int
    }

    pub open spec fn cur_node(&self) -> SourceNode {
        self.graph.nodes@[self.current()]
    }

    /// The lock keyed by the current node's hash is held by this run.
    pub open spec fn locked(&self) -> bool {
        match self.phase {
            Phase::Deciding => false,
            Phase::Locking => false,
            Phase::Generating => true,
            Phase::Merging => true,
            Phase::Publishing => true,
            Phase::Releasing => true,
        }
    }

    pub open spec fn wf(&self) -> bool {
        &&& self.graph.wf()
        &&& schedule_ok(&self.graph, self.schedule@)
        &&& covers_all(&self.graph, self.schedule@)
        &&& self.status@.len() == self.schedule@.len()
        &&& self.pos <= self.schedule@.len()
        &&& forall|i: int| 0 <= i < self.pos ==> status_final(#[trigger] self.status@[i])
        &&& forall|i: int|
            self.pos < i < self.status@.len() ==> (#[trigger] self.status@[i]) is Pending
        &&& self.in_progress() ==> phase_status_ok(self.phase, self.status@[self.pos as int])
        &&& !self.in_progress() ==> self.phase is Deciding
    }

    /// Which event kind the machine is waiting for.
    pub open spec fn expects(&self, e: &Event) -> bool {
        match self.phase {
            Phase::Deciding => e is Freshness,
            Phase::Locking => e is LockResult,
            Phase::Generating => e is Generated,
            Phase::Merging => e is DepTags,
            Phase::Publishing => e is Published,
            Phase::Releasing => e is Released,
        }
    }

    /// The action that opens the next node's processing, or `Finished` when
    /// no node is left or a fatal failure stops the run. Holds no lock.
    pub fn next_action(&self) -> (a: Action)
        requires
            self.wf(),
            self.phase is Deciding,
        ensures
            self.halted() ==> a is Finished,
            !self.halted() ==> (a matches Action::CheckFreshness { tags_path, hash }
                && tags_path@ == self.cur_node().tags_path@ && hash == self.cur_node().hash),
    {
        if self.fatal || self.pos >= self.schedule.len() {
            Action::Finished
        } else {
            let idx = self.schedule[self.pos];
            assert(idx < self.graph.nodes@.len());
            Action::CheckFreshness {
                tags_path: self.graph.nodes[idx].tags_path.clone(),
                hash: self.graph.nodes[idx].hash,
            }
        }
    }

    /// Feeds the machine the outcome of the previous action and takes the
    /// next one. The contract pins each transition of the per-node state
    /// machine `Pending -> (Skipped | LockedElsewhere | Building -> (Done |
    /// Failed))`; every path out of a `Building` node passes through the
    /// release of its lock before the run advances, and the only action that
    /// touches a published artifact is an atomic `Publish` of a complete
    /// merged buffer for the node whose lock this run holds.
    pub fn step(&mut self, e: Event) -> (a: Action)
        requires
            old(self).wf(),
            old(self).in_progress(),
            old(self).expects(&e),
        ensures
            final(self).wf(),
            final(self).graph == old(self).graph,
            final(self).schedule == old(self).schedule,
            final(self).force_recreate == old(self).force_recreate,
            final(self).status@.len() == old(self).status@.len(),
            // statuses are written once: everything but the current position is kept
            forall|i: int|
                0 <= i < old(self).status@.len() && i != old(self).pos ==> final(self).status@[i] == old(self).status@[i],
            // the run advances one node at a time
            old(self).pos <= final(self).pos <= old(self).pos + 1,
            // a node is left only with no lock held or after its release was confirmed
            final(self).pos == old(self).pos + 1 ==> (!old(self).locked() || e is Released),
            final(self).pos == old(self).pos + 1 ==> !final(self).locked(),
            // a fatal failure is never forgotten, and only a generator
            // failure can raise the flag: no skip, lock refusal, merge step
            // or release may halt the rest of the run
            old(self).fatal ==> final(self).fatal,
            !(e matches Event::Generated { result } && result is Err) ==> final(self).fatal
                == old(self).fatal,
            // after advancing, the machine stands ready for the next node's
            // freshness event
            final(self).pos == old(self).pos + 1 ==> final(self).phase is Deciding,
            // the run ends exactly when it advances past the last node or hits a fatal failure
            (a is Finished) == (final(self).pos == old(self).pos + 1 && final(self).halted()),
            final(self).pos == old(self).pos + 1 && !final(self).halted() ==> (a matches
                Action::CheckFreshness {
                tags_path,
                hash,
            } && tags_path@ == final(self).cur_node().tags_path@ && hash == final(self).cur_node().hash),
            // publication happens only under this run's lock, for the current
            // node, with the complete merged buffer
            (a matches Action::Publish { path, lines } ==> {
                &&& old(self).locked()
                &&& old(self).phase is Merging
                &&& old(self).status@[old(self).pos as int] is Building
                &&& final(self).pos == old(self).pos
                &&& path@ == old(self).cur_node().tags_path@
                &&& (e matches Event::DepTags { result } && result matches Ok(dep_lines)
                    && lines.deep_view() == old(self).own_lines.deep_view() + concat_all(
                    dep_lines.deep_view(),
                ))
            }),
            // artifact present, fresh, and no forced recreate: no work at all
            (e matches Event::Freshness { artifact_exists, hash_unchanged } ==> {
                if artifact_exists && hash_unchanged && !old(self).force_recreate {
                    &&& final(self).status@[old(self).pos as int] is Skipped
                    &&& final(self).pos == old(self).pos + 1
                } else {
                    &&& final(self).pos == old(self).pos
                    &&& final(self).phase is Locking
                    &&& final(self).status@[old(self).pos as int] is Pending
                    &&& (a matches Action::TryAcquire { hash } && hash == old(self).cur_node().hash)
                }
            }),
            // the lock decides: acquired means build; already locked means the
            // node is left alone, its artifact untouched
            (e matches Event::LockResult { acquired } ==> {
                if acquired {
                    &&& final(self).pos == old(self).pos
                    &&& final(self).phase is Generating
                    &&& final(self).status@[old(self).pos as int] is Building
                    &&& (a matches Action::Generate { source_paths, recurse }
                        && source_paths.deep_view() == old(self).cur_node().source_paths.deep_view()
                        && recurse == (old(self).cur_node().source_paths@.len() > 1))
                } else {
                    &&& final(self).status@[old(self).pos as int] is LockedElsewhere
                    &&& final(self).pos == old(self).pos + 1
                }
            }),
            (e matches Event::Generated { result } ==> {
                match result {
                    Ok(own) => {
                        &&& final(self).pos == old(self).pos
                        &&& final(self).phase is Merging
                        &&& final(self).status@[old(self).pos as int] is Building
                        &&& final(self).own_lines.deep_view() == own.deep_view()
                        &&& (a matches Action::ReadDepTags { paths } && paths.deep_view()
                            == dep_paths_spec(&old(self).graph, old(self).current()))
                    },
                    Err(gf) => {
                        &&& final(self).pos == old(self).pos
                        &&& final(self).phase is Releasing
                        &&& final(self).status@[old(self).pos as int] == NodeStatus::Failed(
                            gen_failure_err(gf),
                        )
                        &&& final(self).fatal == (old(self).fatal || gf is ToolNotFound)
                        &&& (a matches Action::Release { hash } && hash == old(self).cur_node().hash)
                    },
                }
            }),
            (e matches Event::DepTags { result } ==> {
                match result {
                    Ok(_) => {
                        &&& final(self).pos == old(self).pos
                        &&& final(self).phase is Publishing
                        &&& final(self).status@[old(self).pos as int] is Building
                        &&& a is Publish
                    },
                    Err(m) => {
                        &&& final(self).pos == old(self).pos
                        &&& final(self).phase is Releasing
                        &&& final(self).status@[old(self).pos as int] == NodeStatus::Failed(
                            RtErr::Io(m),
                        )
                        &&& (a matches Action::Release { hash } && hash == old(self).cur_node().hash)
                    },
                }
            }),
            (e matches Event::Published { result } ==> {
                &&& final(self).pos == old(self).pos
                &&& final(self).phase is Releasing
                &&& (match result {
                    Ok(_) => final(self).status@[old(self).pos as int] is Done,
                    Err(m) => final(self).status@[old(self).pos as int] == NodeStatus::Failed(
                        RtErr::Io(m),
                    ),
                })
                &&& (a matches Action::Release { hash } && hash == old(self).cur_node().hash)
            }),
            // the lock is gone: the node's recorded outcome stands and the run advances
            (e is Released ==> {
                &&& final(self).pos == old(self).pos + 1
                &&& final(self).status@[old(self).pos as int] == old(self).status@[old(self).pos as int]
            }),
    {
        let p = self.pos;
        let schedule_len = self.schedule.len();
        assert(p < schedule_len);
        assert(self.schedule@[p as int] < self.graph.nodes@.len());
        let idx = self.schedule[p];
        match e {
            Event::Freshness { artifact_exists, hash_unchanged } => {
                if needs_build(artifact_exists, self.force_recreate, hash_unchanged) {
                    self.phase = Phase::Locking;
                    Action::TryAcquire { hash: self.graph.nodes[idx].hash }
                } else {
                    self.status[p] = NodeStatus::Skipped;
                    self.pos = p + 1;
                    self.phase = Phase::Deciding;
                    assert(self.wf());
                    self.next_action()
                }
            },
            Event::LockResult { acquired } => {
                if acquired {
                    self.status[p] = NodeStatus::Building;
                    self.phase = Phase::Generating;
                    let source_paths = clone_strings(&self.graph.nodes[idx].source_paths);
                    let recurse = self.graph.nodes[idx].source_paths.len() > 1;
                    assert(self.wf());
                    Action::Generate { source_paths, recurse }
                } else {
                    self.status[p] = NodeStatus::LockedElsewhere;
                    self.pos = p + 1;
                    self.phase = Phase::Deciding;
                    assert(self.wf());
                    self.next_action()
                }
            },
            Event::Generated { result } => {
                match result {
                    Ok(own) => {
                        self.own_lines = own;
                        self.phase = Phase::Merging;
                        let paths = build_dep_paths(&self.graph, idx);
                        assert(self.wf());
                        Action::ReadDepTags { paths }
                    },
                    Err(gf) => {
                        let is_tool = match &gf {
                            GenFailure::ToolNotFound(_) => true,
                            GenFailure::Failed(_) => false,
                        };
                        let err = match gf {
                            GenFailure::ToolNotFound(m) => RtErr::ToolNotFound(m),
                            GenFailure::Failed(m) => RtErr::Generation(m),
                        };
                        self.status[p] = NodeStatus::Failed(err);
                        self.phase = Phase::Releasing;
                        if is_tool {
                            self.fatal = true;
                        }
                        assert(self.wf());
                        Action::Release { hash: self.graph.nodes[idx].hash }
                    },
                }
            },
            Event::DepTags { result } => {
                match result {
                    Ok(dep_lines) => {
                        let lines = merge_tags(clone_strings(&self.own_lines), &dep_lines);
                        self.phase = Phase::Publishing;
                        assert(self.wf());
                        Action::Publish { path: self.graph.nodes[idx].tags_path.clone(), lines }
                    },
                    Err(m) => {
                        self.status[p] = NodeStatus::Failed(RtErr::Io(m));
                        self.phase = Phase::Releasing;
                        assert(self.wf());
                        Action::Release { hash: self.graph.nodes[idx].hash }
                    },
                }
            },
            Event::Published { result } => {
                match result {
                    Ok(_) => {
                        self.status[p] = NodeStatus::Done;
                    },
                    Err(m) => {
                        self.status[p] = NodeStatus::Failed(RtErr::Io(m));
                    },
                }
                self.phase = Phase::Releasing;
                assert(self.wf());
                Action::Release { hash: self.graph.nodes[idx].hash }
            },
            Event::Released => {
                self.pos = p + 1;
                self.phase = Phase::Deciding;
                assert(self.wf());
                self.next_action()
            },
        }
    }
}

/// A fresh vector holding the same strings.
fn clone_strings(v: &Vec<String>) -> (r: Vec<String>)
    ensures
        r.deep_view() == v.deep_view(),
{
    let mut r: Vec<String> = Vec::new();
    let mut i: usize = 0;
    while i < v.len()
        invariant
            i <= v@.len(),
            r.deep_view() == v.deep_view().take(i as int),
        decreases v@.len() - i,
    {
        let ghost before = r.deep_view();
        r.push(v[i].clone());
        proof {
            assert(r.deep_view() =~~= before.push(v.deep_view()[i as int]));
            assert(r.deep_view() =~~= v.deep_view().take(i + 1));
        }
        i = i + 1;
    }
    proof {
        assert(v.deep_view().take(v@.len() as int) =~= v.deep_view());
    }
    r
}

/// The tags paths of a node's direct dependencies, in dependency order.
fn build_dep_paths(g: &Graph, idx: usize) -> (r: Vec<String>)
    requires
        g.wf(),
        idx < g.nodes@.len(),
    ensures
        r.deep_view() == dep_paths_spec(g, idx as int),
{
    let deps_len = g.nodes[idx].dependencies.len();
    let mut r: Vec<String> = Vec::new();
    let mut k: usize = 0;
    while k < deps_len
        invariant
            g.wf(),
            idx < g.nodes@.len(),
            k <= deps_len,
            deps_len == g.nodes@[idx as int].dependencies@.len(),
            r.deep_view() == dep_paths_spec(g, idx as int).take(k as int),
        decreases deps_len - k,
    {
        let dep = g.nodes[idx].dependencies[k];
        assert(dep < g.nodes@.len()) by {
            assert(g.nodes@[idx as int].wf_in(g.nodes@.len() as int));
        }
        let ghost before = r.deep_view();
        r.push(g.nodes[dep].tags_path.clone());
        proof {
            assert(r.deep_view() =~~= before.push(g.nodes@[dep as int].tags_path@));
            assert(r.deep_view() =~~= dep_paths_spec(g, idx as int).take(k + 1));
        }
        k = k + 1;
    }
    proof {
        assert(dep_paths_spec(g, idx as int).take(
            g.nodes@[idx as int].dependencies@.len() as int,
        ) =~= dep_paths_spec(g, idx as int));
    }
    r
}

} // verus!
