use vstd::prelude::*;
use vstd::set_lib::{lemma_int_range, lemma_len_subset, set_int_range};
use vstd::string::StringExecFns;

use crate::rt_result::RtErr;
use crate::types::Graph;

verus! {

/// Some position of `order` holds a node whose hash is `h`.
pub open spec fn hash_scheduled_spec(g: &Graph, order: Seq<usize>, h: u64) -> bool {
    exists|k: int| 0 <= k < order.len() && g.nodes@[(#[trigger] order[k]) as int].hash == h
}

/// The hash of the `d`-th direct dependency of the node at index `idx`.
pub open spec fn dep_hash(g: &Graph, idx: int, d: int) -> u64 {
    g.nodes@[g.nodes@[idx].dependencies@[d] as int].hash
}

/// Every direct dependency of the node at index `idx` already has its hash
/// somewhere in `order`.
pub open spec fn all_deps_scheduled_spec(g: &Graph, order: Seq<usize>, idx: int) -> bool {
    forall|d: int|
        0 <= d < g.nodes@[idx].dependencies@.len() ==> hash_scheduled_spec(
            g,
            order,
            #[trigger] dep_hash(g, idx, d),
        )
}

/// The dependencies of the node at position `j` of the schedule are all
/// covered by nodes at earlier positions.
pub open spec fn deps_before(g: &Graph, order: Seq<usize>, j: int) -> bool {
    all_deps_scheduled_spec(g, order.take(j), order[j] as int)
}

/// `order` is a valid build schedule for `g`: every entry is a node index,
/// no two entries share a hash (each distinct dependency is processed once),
/// and a node's dependencies are scheduled before the node itself.
pub open spec fn schedule_ok(g: &Graph, order: Seq<usize>) -> bool {
    &&& forall|k: int| 0 <= k < order.len() ==> (#[trigger] order[k]) < g.nodes@.len()
    &&& forall|i: int, j: int|
        0 <= i < j < order.len() ==> g.nodes@[(#[trigger] order[i]) as int].hash != g.nodes@[(
        #[trigger] order[j]) as int].hash
    &&& forall|j: int| 0 <= j < order.len() ==> #[trigger] deps_before(g, order, j)
}

/// Every node of the graph has its hash somewhere in the schedule.
pub open spec fn covers_all(g: &Graph, order: Seq<usize>) -> bool {
    forall|n: int|
        0 <= n < g.nodes@.len() ==> hash_scheduled_spec(g, order, (#[trigger] g.nodes@[n]).hash)
}

/// A cycle certificate: a nonempty set of node hashes each of whose nodes
/// depends on a node whose hash is also in the set. No schedule can order
/// such nodes dependencies-first.
pub open spec fn blocked(g: &Graph, held_back: Set<u64>) -> bool {
    &&& exists|n: int| 0 <= n < g.nodes@.len() && held_back.contains((#[trigger] g.nodes@[n]).hash)
    &&& forall|n: int|
        0 <= n < g.nodes@.len() && held_back.contains((#[trigger] g.nodes@[n]).hash) ==> exists|
            d: int,
        |
            0 <= d < g.nodes@[n].dependencies@.len() && held_back.contains(dep_hash(g, n, d))
}

/// Every node of the graph is covered by exactly one position of a valid,
/// complete schedule, however many dependents reference it: there is a
/// position holding the node's hash, and no two positions hold it.
pub proof fn lemma_each_node_scheduled_exactly_once(g: &Graph, order: Seq<usize>, n: int)
    requires
        schedule_ok(g, order),
        covers_all(g, order),
        0 <= n < g.nodes@.len(),
    ensures
        hash_scheduled_spec(g, order, g.nodes@[n].hash),
        forall|k1: int, k2: int|
            #![trigger order[k1], order[k2]]
            (0 <= k1 < order.len() && 0 <= k2 < order.len() && g.nodes@[order[k1] as int].hash
                == g.nodes@[n].hash && g.nodes@[order[k2] as int].hash == g.nodes@[n].hash) ==> k1
                == k2,
{
    assert forall|k1: int, k2: int|
        #![trigger order[k1], order[k2]]
        (0 <= k1 < order.len() && 0 <= k2 < order.len() && g.nodes@[order[k1] as int].hash
            == g.nodes@[n].hash && g.nodes@[order[k2] as int].hash == g.nodes@[n].hash) implies k1
        == k2 by {
        if k1 < k2 {
            assert(g.nodes@[(order[k1]) as int].hash != g.nodes@[(order[k2]) as int].hash);
        } else if k2 < k1 {
            assert(g.nodes@[(order[k2]) as int].hash != g.nodes@[(order[k1]) as int].hash);
        }
    }
}

proof fn lemma_blocked_hash_not_schedulable(g: &Graph, held: Set<u64>, order: Seq<usize>, i: int)
    requires
        g.wf(),
        blocked(g, held),
        schedule_ok(g, order),
        0 <= i < order.len(),
    ensures
        !held.contains(g.nodes@[order[i] as int].hash),
    decreases i,
{
    if held.contains(g.nodes@[order[i] as int].hash) {
        let ni = order[i] as int;
        assert(0 <= ni < g.nodes@.len());
        let d = choose|d: int|
            0 <= d < g.nodes@[ni].dependencies@.len() && held.contains(dep_hash(g, ni, d));
        assert(deps_before(g, order, i));
        assert(hash_scheduled_spec(g, order.take(i), dep_hash(g, ni, d)));
        let k = choose|k: int|
            0 <= k < order.take(i).len() && g.nodes@[(order.take(i)[k]) as int].hash == dep_hash(
                g,
                ni,
                d,
            );
        assert(order.take(i)[k] == order[k]);
        lemma_blocked_hash_not_schedulable(g, held, order, k);
    }
}

/// A blocked set genuinely excludes success: for a well-formed graph that
/// holds a cycle certificate, no valid schedule can cover every node, so the
/// orchestrator's refusal to schedule such a graph is not overcautious.
pub proof fn lemma_blocked_excludes_schedule(g: &Graph, held: Set<u64>, order: Seq<usize>)
    requires
        g.wf(),
        blocked(g, held),
        schedule_ok(g, order),
    ensures
        !covers_all(g, order),
{
    let n0 = choose|n: int| 0 <= n < g.nodes@.len() && held.contains((#[trigger] g.nodes@[n]).hash);
    if covers_all(g, order) {
        assert(hash_scheduled_spec(g, order, g.nodes@[n0].hash));
        let k = choose|k: int|
            0 <= k < order.len() && g.nodes@[(#[trigger] order[k]) as int].hash
                == g.nodes@[n0].hash;
        lemma_blocked_hash_not_schedulable(g, held, order, k);
    }
}

/// A scan of the whole graph can place no further node: each node is either
/// already scheduled or has an unscheduled dependency.
spec fn pass_stuck_at(g: &Graph, order: Seq<usize>, idx: int) -> bool {
    hash_scheduled_spec(g, order, g.nodes@[idx].hash) || !all_deps_scheduled_spec(g, order, idx)
}

fn hash_scheduled(g: &Graph, order: &Vec<usize>, h: u64) -> (b: bool)
    requires
        forall|k: int| 0 <= k < order@.len() ==> (#[trigger] order@[k]) < g.nodes@.len(),
    ensures
        b == hash_scheduled_spec(g, order@, h),
{
    let mut k: usize = 0;
    while k < order.len()
        invariant
            k <= order@.len(),
            forall|t: int| 0 <= t < order@.len() ==> (#[trigger] order@[t]) < g.nodes@.len(),
            forall|t: int| 0 <= t < k ==> g.nodes@[(#[trigger] order@[t]) as int].hash != h,
        decreases order@.len() - k,
    {
        if g.nodes[order[k]].hash == h {
            return true;
        }
        k = k + 1;
    }
    false
}

fn all_deps_scheduled(g: &Graph, order: &Vec<usize>, idx: usize) -> (b: bool)
    requires
        g.wf(),
        idx < g.nodes@.len(),
        forall|k: int| 0 <= k < order@.len() ==> (#[trigger] order@[k]) < g.nodes@.len(),
    ensures
        b == all_deps_scheduled_spec(g, order@, idx as int),
{
    let deps_len = g.nodes[idx].dependencies.len();
    let mut d: usize = 0;
    while d < deps_len
        invariant
            g.wf(),
            idx < g.nodes@.len(),
            deps_len == g.nodes@[idx as int].dependencies@.len(),
            d <= deps_len,
            forall|k: int| 0 <= k < order@.len() ==> (#[trigger] order@[k]) < g.nodes@.len(),
            forall|t: int|
                0 <= t < d ==> hash_scheduled_spec(g, order@, #[trigger] dep_hash(g, idx as int, t)),
        decreases deps_len - d,
    {
        let dep: usize = g.nodes[idx].dependencies[d];
        assert(dep < g.nodes@.len()) by {
            assert(g.nodes@[idx as int].wf_in(g.nodes@.len() as int));
        }
        if !hash_scheduled(g, order, g.nodes[dep].hash) {
            assert(!hash_scheduled_spec(g, order@, dep_hash(g, idx as int, d as int)));
            return false;
        }
        d = d + 1;
    }
    true
}

/// A schedule with pairwise distinct hashes holds at most one entry per
/// node, so it is never longer than the node list.
proof fn lemma_order_len_bound(g: &Graph, order: Seq<usize>)
    requires
        forall|k: int| 0 <= k < order.len() ==> (#[trigger] order[k]) < g.nodes@.len(),
        forall|i: int, j: int|
            0 <= i < j < order.len() ==> g.nodes@[(#[trigger] order[i]) as int].hash != g.nodes@[(
            #[trigger] order[j]) as int].hash,
    ensures
        order.len() <= g.nodes@.len(),
{
    let m = order.map_values(|x: usize| x as int);
    assert(m.no_duplicates()) by {
        assert forall|i: int, j: int| 0 <= i < m.len() && 0 <= j < m.len() && i != j implies m[i]
            != m[j] by {
            if i < j {
                assert(g.nodes@[(order[i]) as int].hash != g.nodes@[(order[j]) as int].hash);
            } else {
                assert(g.nodes@[(order[j]) as int].hash != g.nodes@[(order[i]) as int].hash);
            }
        }
    }
    m.unique_seq_to_set();
    let n = g.nodes@.len() as int;
    lemma_int_range(0, n);
    assert(m.to_set().subset_of(set_int_range(0, n))) by {
        assert forall|x: int| m.to_set().contains(x) implies set_int_range(0, n).contains(x) by {
            let k = choose|k: int| 0 <= k < m.len() && m[k] == x;
            assert(order[k] < g.nodes@.len());
        }
    }
    lemma_len_subset(m.to_set(), set_int_range(0, n));
}

/// Appending a node whose hash is new and whose dependencies are all already
/// scheduled keeps a schedule valid.
proof fn lemma_schedule_push(g: &Graph, order: Seq<usize>, idx: usize)
    requires
        schedule_ok(g, order),
        (idx as int) < g.nodes@.len(),
        !hash_scheduled_spec(g, order, g.nodes@[idx as int].hash),
        all_deps_scheduled_spec(g, order, idx as int),
    ensures
        schedule_ok(g, order.push(idx)),
{
    let new = order.push(idx);
    let len = order.len() as int;
    assert forall|i: int, j: int| 0 <= i < j < new.len() implies g.nodes@[(new[i]) as int].hash
        != g.nodes@[(new[j]) as int].hash by {
        if j < len {
            assert(new[i] == order[i] && new[j] == order[j]);
        } else {
            assert(new[j] == idx);
            assert(new[i] == order[i]);
            if g.nodes@[(order[i]) as int].hash == g.nodes@[idx as int].hash {
                assert(hash_scheduled_spec(g, order, g.nodes@[idx as int].hash));
            }
        }
    }
    assert forall|j: int| 0 <= j < new.len() implies #[trigger] deps_before(g, new, j) by {
        if j < len {
            assert(deps_before(g, order, j));
            assert(new.take(j) =~= order.take(j));
            assert(new[j] == order[j]);
        } else {
            assert(new[j] == idx);
            assert(new.take(j) =~= order);
        }
    }
}

/// A stuck scan with an unplaced node yields a cycle certificate: the set of
/// all still-unscheduled node hashes is nonempty and each of its nodes
/// depends on another of its nodes.
proof fn lemma_stuck_certificate(g: &Graph, order: Seq<usize>, witness: int)
    requires
        g.wf(),
        forall|t: int| 0 <= t < g.nodes@.len() ==> pass_stuck_at(g, order, t),
        0 <= witness < g.nodes@.len(),
        !hash_scheduled_spec(g, order, g.nodes@[witness].hash),
    ensures
        exists|held: Set<u64>| blocked(g, held),
{
    let held = Set::new(
        |h: u64|
            exists|m: int|
                0 <= m < g.nodes@.len() && (#[trigger] g.nodes@[m]).hash == h
                    && !hash_scheduled_spec(g, order, h),
    );
    assert(held.contains(g.nodes@[witness].hash));
    assert forall|m: int|
        0 <= m < g.nodes@.len() && held.contains((#[trigger] g.nodes@[m]).hash) implies exists|
        d: int,
    | 0 <= d < g.nodes@[m].dependencies@.len() && held.contains(dep_hash(g, m, d)) by {
        assert(!hash_scheduled_spec(g, order, g.nodes@[m].hash));
        assert(pass_stuck_at(g, order, m));
        let d = choose|d: int|
            0 <= d < g.nodes@[m].dependencies@.len() && !hash_scheduled_spec(
                g,
                order,
                #[trigger] dep_hash(g, m, d),
            );
        let dd = g.nodes@[m].dependencies@[d] as int;
        assert(g.nodes@[m].wf_in(g.nodes@.len() as int));
        assert(0 <= dd < g.nodes@.len());
        assert(g.nodes@[dd].hash == dep_hash(g, m, d));
        assert(held.contains(dep_hash(g, m, d)));
    }
    assert(blocked(g, held));
}

/// Produces a build schedule for the graph: each distinct hash appears
/// exactly once, and every node comes after all of its dependencies.
///
/// Fails with a `Graph` error when the graph is malformed (a dependency edge
/// out of range, or a node without a source path) or when it contains a
/// dependency cycle, in which case a blocked set of hashes exists that no
/// schedule could order.
pub fn dependency_schedule(g: &Graph) -> (r: Result<Vec<usize>, RtErr>)
    ensures
        r matches Ok(order) ==> g.wf() && schedule_ok(g, order@) && covers_all(g, order@),
        r matches Err(e) ==> e is Graph && (!g.wf() || exists|held: Set<u64>| blocked(g, held)),
{
    let n = g.nodes.len();

    // Validation: every edge in range, every node with a source path.
    let mut i: usize = 0;
    while i < n
        invariant
            n == g.nodes@.len(),
            i <= n,
            forall|j: int| 0 <= j < i ==> (#[trigger] g.nodes@[j]).wf_in(n as int),
        decreases n - i,
    {
        if g.nodes[i].source_paths.len() == 0 {
            assert(!g.nodes@[i as int].wf_in(n as int));
            return Err(
                RtErr::Graph(
                    String::from_str("dependency graph node has no source path: ").concat(
                        g.nodes[i].name.as_str(),
                    ),
                ),
            );
        }
        let deps_len = g.nodes[i].dependencies.len();
        let mut k: usize = 0;
        while k < deps_len
            invariant
                n == g.nodes@.len(),
                i < n,
                k <= deps_len,
                deps_len == g.nodes@[i as int].dependencies@.len(),
                forall|t: int| 0 <= t < k ==> (#[trigger] g.nodes@[i as int].dependencies@[t]) < n,
            decreases deps_len - k,
        {
            if g.nodes[i].dependencies[k] >= n {
                assert(!g.nodes@[i as int].wf_in(n as int));
                return Err(
                    RtErr::Graph(
                        String::from_str("dependency graph edge out of range at node: ").concat(
                            g.nodes[i].name.as_str(),
                        ),
                    ),
                );
            }
            k = k + 1;
        }
        assert(g.nodes@[i as int].wf_in(n as int));
        i = i + 1;
    }
    assert(g.wf());

    // Scheduling: repeatedly place every node whose dependencies are all
    // placed, until a whole pass places nothing.
    let mut order: Vec<usize> = Vec::new();
    let mut progressed: bool = true;
    while progressed
        invariant
            g.wf(),
            n == g.nodes@.len(),
            schedule_ok(g, order@),
            order@.len() <= n,
            !progressed ==> forall|t: int| 0 <= t < n ==> pass_stuck_at(g, order@, t),
        decreases n - order@.len() + (if progressed {
            1int
        } else {
            0int
        }),
    {
        progressed = false;
        let ghost order0 = order@;
        let mut idx: usize = 0;
        while idx < n
            invariant
                g.wf(),
                n == g.nodes@.len(),
                idx <= n,
                schedule_ok(g, order@),
                order@.len() <= n,
                !progressed ==> order@ == order0 && forall|t: int|
                    0 <= t < idx ==> pass_stuck_at(g, order@, t),
                progressed ==> order@.len() > order0.len(),
            decreases n - idx,
        {
            let h = g.nodes[idx].hash;
            if !hash_scheduled(g, &order, h) {
                if all_deps_scheduled(g, &order, idx) {
                    proof {
                        lemma_schedule_push(g, order@, idx);
                    }
                    order.push(idx);
                    progressed = true;
                    proof {
                        lemma_order_len_bound(g, order@);
                    }
                } else {
                    assert(pass_stuck_at(g, order@, idx as int));
                }
            } else {
                assert(pass_stuck_at(g, order@, idx as int));
            }
            idx = idx + 1;
        }
    }

    // Completeness check: an unplaced node witnesses a cycle.
    let mut idx2: usize = 0;
    while idx2 < n
        invariant
            g.wf(),
            n == g.nodes@.len(),
            idx2 <= n,
            schedule_ok(g, order@),
            forall|t: int| 0 <= t < n ==> pass_stuck_at(g, order@, t),
            forall|j: int|
                0 <= j < idx2 ==> hash_scheduled_spec(g, order@, (#[trigger] g.nodes@[j]).hash),
        decreases n - idx2,
    {
        if !hash_scheduled(g, &order, g.nodes[idx2].hash) {
            proof {
                lemma_stuck_certificate(g, order@, idx2 as int);
            }
            return Err(RtErr::Graph(String::from_str("cyclic dependency graph")));
        }
        idx2 = idx2 + 1;
    }
    Ok(order)
}

} // verus!
