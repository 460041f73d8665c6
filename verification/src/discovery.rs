//! The compute side of file discovery: which file names are candidates for
//! scanning, and which directory a project is actually walked from.
//!
//! The filesystem walk itself is I/O and lives outside the library; it hands
//! each entry's path in here to decide eligibility.

use vstd::prelude::*;
use vstd::string::StringExecFns;

verus! {

/// A path (as UTF-8 bytes) is a scan candidate when it ends in `.c` or `.h`,
/// the grammar's source and header extensions.
pub open spec fn is_candidate_name(name: Seq<u8>) -> bool {
    &&& name.len() >= 2
    &&& name[name.len() - 2] == 0x2eu8
    &&& (name[name.len() - 1] == 0x63u8 || name[name.len() - 1] == 0x68u8)
}

/// Decides whether a discovered path passes the extension allow-list:
/// it must end in `.c` (0x2e 0x63) or `.h` (0x2e 0x68).
pub fn is_candidate_file(name: &Vec<u8>) -> (r: bool)
    ensures
        r == is_candidate_name(name@),
{
    if name.len() < 2 {
        return false;
    }
    let dot = name[name.len() - 2];
    let ext = name[name.len() - 1];
    dot == 0x2eu8 && (ext == 0x63u8 || ext == 0x68u8)
}

/// The directory a project is walked from: its `src` child when one exists,
/// else the project directory itself.
pub open spec fn resolved_root(project: Seq<char>, has_src_child: bool) -> Seq<char> {
    if has_src_child {
        project + "/src"@
    } else {
        project
    }
}

/// Resolves the source root of one project. The caller supplies, as a plain
/// flag, whether the project directory has an existing `src` child (a
/// filesystem fact the library cannot observe itself).
pub fn resolve_source_root(project: String, has_src_child: bool) -> (r: String)
    ensures
        r@ == resolved_root(project@, has_src_child),
{
    if has_src_child {
        project.concat("/src")
    } else {
        project
    }
}

} // verus!
