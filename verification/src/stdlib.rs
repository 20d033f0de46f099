use vstd::prelude::*;
use vstd::string::StringExecFns;

use crate::config::Config;
use crate::rt_result::{RtErr, RtResult};

verus! {

/// The subdirectories of a standard-library source root that are worth
/// indexing, where they are present.
pub open spec fn std_src_dir_names() -> Seq<Seq<char>> {
    seq![
        "liballoc"@,
        "libarena"@,
        "libbacktrace"@,
        "libcollections"@,
        "libcore"@,
        "libflate"@,
        "libfmt_macros"@,
        "libgetopts"@,
        "libgraphviz"@,
        "liblog"@,
        "librand"@,
        "librbml"@,
        "libserialize"@,
        "libstd"@,
        "libsyntax"@,
        "libterm"@,
    ]
}

/// The candidate subdirectory names, for the environment to probe.
pub fn possible_src_dirs() -> (v: Vec<String>)
    ensures
        v.deep_view() == std_src_dir_names(),
{
    let mut v: Vec<String> = Vec::new();
    v.push(String::from_str("liballoc"));
    v.push(String::from_str("libarena"));
    v.push(String::from_str("libbacktrace"));
    v.push(String::from_str("libcollections"));
    v.push(String::from_str("libcore"));
    v.push(String::from_str("libflate"));
    v.push(String::from_str("libfmt_macros"));
    v.push(String::from_str("libgetopts"));
    v.push(String::from_str("libgraphviz"));
    v.push(String::from_str("liblog"));
    v.push(String::from_str("librand"));
    v.push(String::from_str("librbml"));
    v.push(String::from_str("libserialize"));
    v.push(String::from_str("libstd"));
    v.push(String::from_str("libsyntax"));
    v.push(String::from_str("libterm"));
    proof {
        assert(v.deep_view() =~~= std_src_dir_names());
    }
    v
}

/// `p` and `name` joined with a path separator.
pub open spec fn joined(p: Seq<char>, name: Seq<char>) -> Seq<char> {
    p + "/"@ + name
}

/// The names marked present, each joined under `p`, in order.
pub open spec fn joined_existing(p: Seq<char>, names: Seq<Seq<char>>, present: Seq<bool>) -> Seq<
    Seq<char>,
>
    decreases names.len(),
{
    if names.len() == 0 {
        Seq::empty()
    } else {
        let rest = joined_existing(p, names.drop_last(), present.drop_last());
        if present[names.len() - 1] {
            rest.push(joined(p, names.last()))
        } else {
            rest
        }
    }
}

/// The diagnostic for a configured standard-library source root that does
/// not exist: a fatal configuration error the user must fix.
pub open spec fn missing_source_message(p: Seq<char>) -> Seq<char> {
    "Missing rust source code at '"@ + p + "'!"@
}

/// What the standard-library pass decided.
pub enum StdLibPlan {
    /// Nothing to do: either no source root is configured, or the artifact
    /// is already present and fresh.
    Skip,
    /// Index `src_dirs` and publish the merged output at `tags_path`.
    Build { src_dirs: Vec<String>, tags_path: String, recurse: bool },
}

/// Decides the standard-library pass, a separate top-level pass that runs
/// before the dependency tree and is not merged into it.
///
/// `src_path` is the optional configured source root; its absence simply
/// skips the pass, while a configured root that is not a directory is a
/// fatal configuration error. `present` says, per candidate subdirectory
/// name, whether it exists under the root. The pass recurses into
/// subdirectories only when several source directories are supplied.
pub fn std_lib_plan(
    config: &Config,
    src_path: Option<String>,
    src_path_is_dir: bool,
    tags_file_exists: bool,
    present: &Vec<bool>,
) -> (r: RtResult<StdLibPlan>)
    requires
        present@.len() == std_src_dir_names().len(),
    ensures
        src_path is None ==> (r matches Ok(p) && p is Skip),
        (src_path matches Some(sp) ==> (!src_path_is_dir ==> (r matches Err(e) && e matches
            RtErr::Config(m) && m@ == missing_source_message(sp@)))),
        src_path is Some && src_path_is_dir && tags_file_exists && !config.force_recreate ==> (
        r matches Ok(p) && p is Skip),
        (src_path matches Some(sp) ==> ((src_path_is_dir && (!tags_file_exists
            || config.force_recreate)) ==> (r matches Ok(plan) && plan matches StdLibPlan::Build {
            src_dirs,
            tags_path,
            recurse,
        } && src_dirs.deep_view() == joined_existing(sp@, std_src_dir_names(), present@)
            && tags_path@ == joined(sp@, config.tags_kind.spec_file_name()) && recurse == (
        src_dirs@.len() > 1)))),
{
    let sp = match src_path {
        Option::None => {
            return Ok(StdLibPlan::Skip);
        },
        Option::Some(sp) => sp,
    };
    if !src_path_is_dir {
        let m = String::from_str("Missing rust source code at '").concat(sp.as_str()).concat(
            "'!",
        );
        assert(m@ == missing_source_message(sp@));
        return Err(RtErr::Config(m));
    }
    if tags_file_exists && !config.force_recreate {
        return Ok(StdLibPlan::Skip);
    }
    let names = possible_src_dirs();
    let names_len = names.len();
    let mut src_dirs: Vec<String> = Vec::new();
    let mut i: usize = 0;
    while i < names_len
        invariant
            i <= names_len,
            names_len == names@.len(),
            names.deep_view() == std_src_dir_names(),
            present@.len() == names@.len(),
            src_dirs.deep_view() == joined_existing(
                sp@,
                std_src_dir_names().take(i as int),
                present@.take(i as int),
            ),
        decreases names_len - i,
    {
        let ghost before = src_dirs.deep_view();
        if present[i] {
            let d = sp.clone().concat("/").concat(names[i].as_str());
            assert(d@ == joined(sp@, std_src_dir_names()[i as int]));
            src_dirs.push(d);
        }
        proof {
            assert(std_src_dir_names().take(i + 1).drop_last() =~= std_src_dir_names().take(
                i as int,
            ));
            assert(present@.take(i + 1).drop_last() =~= present@.take(i as int));
            assert(std_src_dir_names().take(i + 1).last() == std_src_dir_names()[i as int]);
            if present@[i as int] {
                assert(src_dirs.deep_view() =~~= before.push(
                    joined(sp@, std_src_dir_names()[i as int]),
                ));
            }
            assert(src_dirs.deep_view() =~~= joined_existing(
                sp@,
                std_src_dir_names().take(i + 1),
                present@.take(i + 1),
            ));
        }
        i = i + 1;
    }
    proof {
        assert(std_src_dir_names().take(std_src_dir_names().len() as int)
            =~= std_src_dir_names());
        assert(present@.take(present@.len() as int) =~= present@);
    }
    let file_name = config.tags_kind.file_name();
    let tags_path = sp.clone().concat("/").concat(file_name.as_str());
    let recurse = src_dirs.len() > 1;
    Ok(StdLibPlan::Build { src_dirs, tags_path, recurse })
}

} // verus!
