//! Which entries of a project a dry run copies into its scratch workspace.
use crate::text::str_eq;
use vstd::prelude::*;

verus! {

/// The directories that a dry-run copy leaves out: version control, build
/// output and installed dependencies.
pub open spec fn excluded_directory(name: Seq<char>) -> bool {
    name == ".git"@ || name == "target"@ || name == "node_modules"@ || name == "bin"@ || name == "obj"@
}

/// Whether a walked entry is copied: the project root itself, every file,
/// and every directory whose name is not excluded.
pub fn should_copy(depth: usize, is_dir: bool, name: &str) -> (r: bool)
    ensures
        r == (depth == 0 || !is_dir || !excluded_directory(name@)),
{
    depth == 0 || !is_dir || !(str_eq(name, ".git") || str_eq(name, "target") || str_eq(name, "node_modules")
        || str_eq(name, "bin") || str_eq(name, "obj"))
}

} // verus!
