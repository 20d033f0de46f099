use vstd::prelude::*;
use vstd::string::StringExecFns;

verus! {

/// The flavour of tags file to produce; it decides the file name under which
/// a node's tags are published.
pub enum TagsKind {
    Vi,
    Emacs,
}

impl TagsKind {
    pub open spec fn spec_file_name(&self) -> Seq<char> {
        match self {
            TagsKind::Vi => "rusty-tags.vi"@,
            TagsKind::Emacs => "rusty-tags.emacs"@,
        }
    }

    /// The file name of a tags artifact of this kind.
    pub fn file_name(&self) -> (r: String)
        ensures
            r@ == self.spec_file_name(),
    {
        match self {
            TagsKind::Vi => String::from_str("rusty-tags.vi"),
            TagsKind::Emacs => String::from_str("rusty-tags.emacs"),
        }
    }
}

/// Settings of one orchestration run.
pub struct Config {
    /// Rebuild every node even where its artifact is present and fresh.
    pub force_recreate: bool,
    /// Print informational lines about each node processed.
    pub verbose: bool,
    /// The directory the run operates from.
    pub start_dir: String,
    /// Which tags format the run produces.
    pub tags_kind: TagsKind,
}

} // verus!
