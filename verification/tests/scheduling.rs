use rusty_tags::config::{Config, TagsKind};
use rusty_tags::dependencies::dependency_schedule;
use rusty_tags::hashing::node_hash;
use rusty_tags::metadata::command_failure_message;
use rusty_tags::rt_result::RtErr;
use rusty_tags::session::needs_build;
use rusty_tags::tags::merge_tags;
use rusty_tags::types::{Graph, SourceNode};

fn node(name: &str, hash: u64, paths: &[&str], tags: &str, deps: &[usize]) -> SourceNode {
    SourceNode {
        name: name.to_string(),
        hash,
        source_paths: paths.iter().map(|p| p.to_string()).collect(),
        tags_path: tags.to_string(),
        dependencies: deps.to_vec(),
    }
}

fn pos_of(order: &[usize], idx: usize) -> usize {
    order.iter().position(|&x| x == idx).expect("node index missing from schedule")
}

#[test]
fn fnv1a64_known_vectors() {
    assert_eq!(node_hash(""), 0xcbf29ce484222325);
    assert_eq!(node_hash("a"), 0xaf63dc4c8601ec8c);
    assert_eq!(node_hash("foobar"), 0x85944171f73967e8);
}

#[test]
fn fnv1a64_deterministic_and_separating() {
    assert_eq!(node_hash("serde 1.0.0"), node_hash("serde 1.0.0"));
    assert_ne!(node_hash("serde 1.0.0"), node_hash("serde 1.0.1"));
}

#[test]
fn freshness_decision_table() {
    // fresh artifact, unchanged hash, no force: the one no-work case
    assert!(!needs_build(true, false, true));
    assert!(needs_build(false, false, true));
    assert!(needs_build(true, false, false));
    // a forced run rebuilds whatever the freshness evidence says
    assert!(needs_build(true, true, true));
    assert!(needs_build(false, true, false));
}

#[test]
fn schedule_orders_dependencies_first() {
    // diamond: root -> a, b; a -> c; b -> c
    let g = Graph {
        nodes: vec![
            node("root", 1, &["r"], "r.tags", &[1, 2]),
            node("a", 2, &["a"], "a.tags", &[3]),
            node("b", 3, &["b"], "b.tags", &[3]),
            node("c", 4, &["c"], "c.tags", &[]),
        ],
    };
    let order = dependency_schedule(&g).ok().expect("acyclic graph must schedule");
    assert_eq!(order.len(), 4);
    let r = pos_of(&order, 0);
    let a = pos_of(&order, 1);
    let b = pos_of(&order, 2);
    let c = pos_of(&order, 3);
    assert!(c < a && c < b);
    assert!(a < r && b < r);
}

#[test]
fn schedule_deduplicates_by_hash() {
    // two distinct node entries share a hash: exactly one is scheduled
    let g = Graph {
        nodes: vec![
            node("root", 1, &["r"], "r.tags", &[1, 2]),
            node("dup", 7, &["d1"], "d.tags", &[]),
            node("dup", 7, &["d2"], "d.tags", &[]),
        ],
    };
    let order = dependency_schedule(&g).ok().expect("acyclic graph must schedule");
    assert_eq!(order.len(), 2);
    let dups = order.iter().filter(|&&x| x == 1 || x == 2).count();
    assert_eq!(dups, 1);
    assert!(pos_of(&order, 0) == 1);
}

#[test]
fn schedule_rejects_cycle() {
    let g = Graph {
        nodes: vec![
            node("x", 1, &["x"], "x.tags", &[1]),
            node("y", 2, &["y"], "y.tags", &[0]),
        ],
    };
    match dependency_schedule(&g) {
        Err(RtErr::Graph(_)) => {},
        _ => panic!("cycle must be refused with a graph error"),
    }
}

#[test]
fn schedule_rejects_self_cycle() {
    let g = Graph { nodes: vec![node("x", 1, &["x"], "x.tags", &[0])] };
    assert!(matches!(dependency_schedule(&g), Err(RtErr::Graph(_))));
}

#[test]
fn schedule_rejects_missing_source_path() {
    let g = Graph { nodes: vec![node("empty", 1, &[], "e.tags", &[])] };
    assert!(matches!(dependency_schedule(&g), Err(RtErr::Graph(_))));
}

#[test]
fn schedule_rejects_edge_out_of_range() {
    let g = Graph { nodes: vec![node("x", 1, &["x"], "x.tags", &[5])] };
    assert!(matches!(dependency_schedule(&g), Err(RtErr::Graph(_))));
}

#[test]
fn merge_keeps_own_symbols_first_then_dependencies_in_order() {
    let own = vec!["R1".to_string(), "R2".to_string()];
    let deps = vec![
        vec!["A1".to_string(), "A2".to_string()],
        vec!["B1".to_string()],
    ];
    let merged = merge_tags(own, &deps);
    assert_eq!(
        merged,
        vec![
            "R1".to_string(),
            "R2".to_string(),
            "A1".to_string(),
            "A2".to_string(),
            "B1".to_string(),
        ],
    );
}

#[test]
fn merge_preserves_duplicate_entries() {
    let own = vec!["S".to_string()];
    let deps = vec![vec!["S".to_string()], vec!["S".to_string()]];
    let merged = merge_tags(own, &deps);
    assert_eq!(merged, vec!["S".to_string(), "S".to_string(), "S".to_string()]);
}

#[test]
fn merge_with_no_dependencies_is_own_output() {
    let own = vec!["R1".to_string()];
    let merged = merge_tags(own, &vec![]);
    assert_eq!(merged, vec!["R1".to_string()]);
}

#[test]
fn tags_file_names() {
    assert_eq!(TagsKind::Vi.file_name(), "rusty-tags.vi");
    assert_eq!(TagsKind::Emacs.file_name(), "rusty-tags.emacs");
}

#[test]
fn failure_message_prefers_error_stream() {
    assert_eq!(
        command_failure_message("bad".to_string(), "out".to_string()),
        "bad".to_string(),
    );
    assert_eq!(
        command_failure_message(String::new(), "out".to_string()),
        "out".to_string(),
    );
}

#[test]
fn error_fatality() {
    assert!(RtErr::Graph("g".to_string()).is_fatal());
    assert!(RtErr::ToolNotFound("t".to_string()).is_fatal());
    assert!(RtErr::Config("c".to_string()).is_fatal());
    assert!(!RtErr::Generation("g".to_string()).is_fatal());
    assert!(!RtErr::Io("i".to_string()).is_fatal());
}

#[test]
fn config_is_carried() {
    let config = Config {
        force_recreate: true,
        verbose: false,
        start_dir: ".".to_string(),
        tags_kind: TagsKind::Emacs,
    };
    assert!(config.force_recreate);
    assert_eq!(config.tags_kind.file_name(), "rusty-tags.emacs");
}
