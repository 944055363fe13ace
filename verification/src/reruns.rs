//! The directives that tell cargo when the build must be redone.

use crate::flags::texts;
use vstd::prelude::*;
use vstd::string::*;

verus! {

/// The build's own manifest: a change to it redoes the build.
pub const MANIFEST_PATH: &'static str = "Cargo.toml";

/// The directory whose files are watched, each on its own.
pub const SOURCE_ROOT: &'static str = "src";

/// The line that makes cargo redo the build when the file at `path` changes.
pub open spec fn changed_directive(path: Seq<char>) -> Seq<char> {
    "cargo:rerun-if-changed="@ + path
}

/// The line that makes cargo redo the build when the variable `var` changes.
pub open spec fn env_changed_directive(var: Seq<char>) -> Seq<char> {
    "cargo:rerun-if-env-changed="@ + var
}

/// One directive per path, in the paths' order.
pub open spec fn changed_directives(paths: Seq<Seq<char>>) -> Seq<Seq<char>> {
    Seq::new(paths.len(), |i: int| changed_directive(paths[i]))
}

/// The lines of a whole build: the manifest first, then every entry found
/// beneath the source directory.
pub open spec fn rerun_directives(entries: Seq<Seq<char>>) -> Seq<Seq<char>> {
    seq![changed_directive(MANIFEST_PATH@)] + changed_directives(entries)
}

/// The directive for one watched file.
pub fn rerun_if_changed(path: &str) -> (line: String)
    ensures
        line@ == changed_directive(path@),
{
    String::from_str("cargo:rerun-if-changed=").concat(path)
}

/// The directive for one watched environment variable.
pub fn rerun_if_env_changed(var: &str) -> (line: String)
    ensures
        line@ == env_changed_directive(var@),
{
    String::from_str("cargo:rerun-if-env-changed=").concat(var)
}

/// The directives for the entries that a walk of a directory found, one per
/// entry and in the order of the walk.
pub fn rerun_if_changed_recursive(entries: &Vec<String>) -> (lines: Vec<String>)
    ensures
        texts(lines@) == changed_directives(texts(entries@)),
{
    let mut lines: Vec<String> = Vec::new();
    append_changed(&mut lines, entries);
    proof {
        assert(texts(lines@) =~= changed_directives(texts(entries@)));
    }
    lines
}

/// Every directive of the build: one for the manifest, then one for each of
/// `entries`, the paths found beneath the source directory.
pub fn _main_print_reruns(entries: &Vec<String>) -> (lines: Vec<String>)
    ensures
        texts(lines@) == rerun_directives(texts(entries@)),
{
    let mut lines: Vec<String> = Vec::new();
    lines.push(rerun_if_changed(MANIFEST_PATH));
    append_changed(&mut lines, entries);
    proof {
        assert(texts(lines@) =~= rerun_directives(texts(entries@)));
    }
    lines
}

/// Appends the directive of each entry to `lines`.
fn append_changed(lines: &mut Vec<String>, entries: &Vec<String>)
    ensures
        final(lines)@.len() == old(lines)@.len() + entries@.len(),
        forall|k: int| 0 <= k < old(lines)@.len() ==> final(lines)@[k] == old(lines)@[k],
        forall|k: int|
            old(lines)@.len() <= k < final(lines)@.len() ==> (#[trigger] final(lines)@[k])@
                == changed_directive(entries@[k - old(lines)@.len()]@),
{
    let ghost before = lines@;
    let mut i: usize = 0;
    while i < entries.len()
        invariant
            i <= entries@.len(),
            lines@.len() == before.len() + i,
            forall|k: int| 0 <= k < before.len() ==> lines@[k] == before[k],
            forall|k: int|
                before.len() <= k < lines@.len() ==> (#[trigger] lines@[k])@ == changed_directive(
                    entries@[k - before.len()]@,
                ),
        decreases entries@.len() - i,
    {
        lines.push(rerun_if_changed(entries[i].as_str()));
        i += 1;
    }
}

} // verus!
