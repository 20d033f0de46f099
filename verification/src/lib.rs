use vstd::prelude::*;

pub mod config;
pub mod dependencies;
pub mod hashing;
pub mod metadata;
pub mod rt_result;
pub mod session;
pub mod stdlib;
pub mod tags;
pub mod types;

use crate::config::Config;
use crate::dependencies::{blocked, covers_all, dependency_schedule, schedule_ok};
use crate::rt_result::RtResult;
use crate::session::{NodeStatus, Phase, Session};
use crate::types::Graph;

verus! {

/// The entry point of the orchestration logic: turns a configuration and a
/// materialized dependency graph into a ready build session, scheduling
/// every distinct node once, dependencies before dependents.
///
/// Fails with a `Graph` error when the graph is malformed or cyclic; in the
/// cyclic case a blocked set of hashes exists that no schedule could order.
pub fn execute(config: &Config, graph: Graph) -> (r: RtResult<Session>)
    ensures
        r matches Ok(s) ==> {
            &&& s.wf()
            &&& s.graph == graph
            &&& s.pos == 0
            &&& s.phase is Deciding
            &&& !s.fatal
            &&& s.force_recreate == config.force_recreate
            &&& schedule_ok(&graph, s.schedule@)
            &&& covers_all(&graph, s.schedule@)
            &&& forall|i: int| 0 <= i < s.status@.len() ==> (#[trigger] s.status@[i]) is Pending
        },
        r matches Err(e) ==> e is Graph && (!graph.wf() || exists|held: Set<u64>|
            blocked(&graph, held)),
{
    let order = match dependency_schedule(&graph) {
        Ok(order) => order,
        Err(e) => {
            return Err(e);
        },
    };
    let order_len = order.len();
    let mut status: Vec<NodeStatus> = Vec::new();
    let mut i: usize = 0;
    while i < order_len
        invariant
            i <= order_len,
            status@.len() == i,
            forall|j: int| 0 <= j < i ==> (#[trigger] status@[j]) is Pending,
        decreases order_len - i,
    {
        status.push(NodeStatus::Pending);
        i = i + 1;
    }
    Ok(
        Session {
            graph,
            schedule: order,
            status,
            pos: 0,
            phase: Phase::Deciding,
            own_lines: Vec::new(),
            force_recreate: config.force_recreate,
            fatal: false,
        },
    )
}

} // verus!
