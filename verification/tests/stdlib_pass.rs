use rusty_tags::config::{Config, TagsKind};
use rusty_tags::rt_result::RtErr;
use rusty_tags::stdlib::{possible_src_dirs, std_lib_plan, StdLibPlan};

fn config(force: bool) -> Config {
    Config {
        force_recreate: force,
        verbose: false,
        start_dir: ".".to_string(),
        tags_kind: TagsKind::Vi,
    }
}

fn no_dirs() -> Vec<bool> {
    vec![false; possible_src_dirs().len()]
}

#[test]
fn candidate_directories_are_the_library_roots() {
    let names = possible_src_dirs();
    assert_eq!(names.len(), 16);
    assert_eq!(names[0], "liballoc".to_string());
    assert!(names.contains(&"libstd".to_string()));
    assert!(names.contains(&"libcore".to_string()));
    assert_eq!(names[15], "libterm".to_string());
}

#[test]
fn absent_source_root_skips_the_pass() {
    let r = std_lib_plan(&config(false), None, false, false, &no_dirs());
    assert!(matches!(r, Ok(StdLibPlan::Skip)));
}

#[test]
fn configured_but_missing_source_root_is_fatal() {
    let r = std_lib_plan(
        &config(false),
        Some("/nowhere".to_string()),
        false,
        false,
        &no_dirs(),
    );
    match r {
        Err(RtErr::Config(m)) => {
            assert_eq!(m, "Missing rust source code at '/nowhere'!".to_string());
        },
        _ => panic!("a configured but missing source root must be fatal"),
    }
}

#[test]
fn fresh_standard_library_tags_skip_the_pass() {
    let r = std_lib_plan(
        &config(false),
        Some("/rust/src".to_string()),
        true,
        true,
        &no_dirs(),
    );
    assert!(matches!(r, Ok(StdLibPlan::Skip)));
}

#[test]
fn forced_pass_rebuilds_existing_standard_library_tags() {
    let mut present = no_dirs();
    present[4] = true; // libcore
    present[13] = true; // libstd
    let r = std_lib_plan(
        &config(true),
        Some("/rust/src".to_string()),
        true,
        true,
        &present,
    );
    match r {
        Ok(StdLibPlan::Build { src_dirs, tags_path, recurse }) => {
            assert_eq!(
                src_dirs,
                vec!["/rust/src/libcore".to_string(), "/rust/src/libstd".to_string()],
            );
            assert_eq!(tags_path, "/rust/src/rusty-tags.vi".to_string());
            assert!(recurse);
        },
        _ => panic!("a forced pass must rebuild"),
    }
}

#[test]
fn missing_tags_build_without_force() {
    let mut present = no_dirs();
    present[13] = true; // libstd only
    let r = std_lib_plan(
        &config(false),
        Some("/rust/src".to_string()),
        true,
        false,
        &present,
    );
    match r {
        Ok(StdLibPlan::Build { src_dirs, tags_path, recurse }) => {
            assert_eq!(src_dirs, vec!["/rust/src/libstd".to_string()]);
            assert_eq!(tags_path, "/rust/src/rusty-tags.vi".to_string());
            assert!(!recurse);
        },
        _ => panic!("missing tags must be built"),
    }
}
