use crate::text::same_text;
use vstd::prelude::*;

verus! {

/// What to do with an entry of a directory that is being walked.
#[derive(Debug, Clone, Copy, PartialEq, Eq, Structural)]
pub enum EntryAction {
    /// A directory to walk in turn.
    Descend,
    /// A source file to scan.
    Scan,
    /// Neither: pass over it in silence.
    Skip,
}

/// What to do with the path that a scan starts from.
#[derive(Debug, Clone, Copy, PartialEq, Eq, Structural)]
pub enum RootAction {
    /// A directory: walk it.
    Walk,
    /// A source file: scan it.
    Scan,
    /// Anything else: tell the user that the path was passed over.
    Report,
}

/// A hidden entry: its name starts with a dot.
pub open spec fn is_hidden(name: Seq<char>) -> bool {
    name.len() > 0 && name[0] == '.'
}

/// The directory that holds build output.
pub open spec fn is_build_output(name: Seq<char>) -> bool {
    name == "target"@
}

/// A source file name: something, then a dot, then `rs` at the very end.
pub open spec fn has_source_extension(name: Seq<char>) -> bool {
    &&& name.len() > 3
    &&& name[name.len() - 3] == '.'
    &&& name[name.len() - 2] == 'r'
    &&& name[name.len() - 1] == 's'
}

/// The action for a directory entry with the given file name.
pub open spec fn entry_action(name: Seq<char>, is_dir: bool) -> EntryAction {
    if is_dir {
        if is_hidden(name) || is_build_output(name) {
            EntryAction::Skip
        } else {
            EntryAction::Descend
        }
    } else if has_source_extension(name) {
        EntryAction::Scan
    } else {
        EntryAction::Skip
    }
}

/// The action for the path that a scan starts from. A directory is walked
/// whatever its name is.
pub open spec fn root_action(name: Seq<char>, is_dir: bool, is_file: bool) -> RootAction {
    if is_dir {
        RootAction::Walk
    } else if is_file && has_source_extension(name) {
        RootAction::Scan
    } else {
        RootAction::Report
    }
}

/// Tells whether a file name ends in the source extension.
pub fn is_source_file(file_name: &str) -> (yes: bool)
    ensures
        yes == has_source_extension(file_name@),
{
    let n = file_name.unicode_len();
    n > 3 && file_name.get_char(n - 3) == '.' && file_name.get_char(n - 2) == 'r'
        && file_name.get_char(n - 1) == 's'
}

/// Tells whether a directory is left out of a walk: a hidden directory or
/// the build output directory.
pub fn is_excluded_dir(file_name: &str) -> (yes: bool)
    ensures
        yes == (is_hidden(file_name@) || is_build_output(file_name@)),
{
    let n = file_name.unicode_len();
    (n > 0 && file_name.get_char(0) == '.') || same_text(file_name, "target")
}

/// Decides what a walk does with a directory entry, from its file name and
/// whether it is a directory.
pub fn classify_entry(file_name: &str, is_dir: bool) -> (action: EntryAction)
    ensures
        action == entry_action(file_name@, is_dir),
{
    if is_dir {
        if is_excluded_dir(file_name) {
            EntryAction::Skip
        } else {
            EntryAction::Descend
        }
    } else if is_source_file(file_name) {
        EntryAction::Scan
    } else {
        EntryAction::Skip
    }
}

/// Decides what a scan does with the path it starts from, from the path's
/// file name and what the path is.
pub fn classify_root(file_name: &str, is_dir: bool, is_file: bool) -> (action: RootAction)
    ensures
        action == root_action(file_name@, is_dir, is_file),
{
    if is_dir {
        RootAction::Walk
    } else if is_file && is_source_file(file_name) {
        RootAction::Scan
    } else {
        RootAction::Report
    }
}

/// The note for a starting path that is neither a directory nor a source
/// file.
pub fn skipped_path_message(path: &str) -> (message: String)
    ensures
        message@ == "Path is not a Rust file or directory: "@ + path@,
{
    let mut message = String::new();
    message.append("Path is not a Rust file or directory: ");
    message.append(path);
    assert(message@ =~= "Path is not a Rust file or directory: "@ + path@);
    message
}

/// A walk never enters a hidden directory or the build output directory,
/// and scans a file only where its name has the source extension.
pub proof fn lemma_walk_exclusions(name: Seq<char>, is_dir: bool)
    ensures
        is_dir && (is_hidden(name) || is_build_output(name)) ==> entry_action(name, is_dir)
            == EntryAction::Skip,
        entry_action(name, is_dir) == EntryAction::Descend ==> is_dir && !is_hidden(name)
            && !is_build_output(name),
        entry_action(name, is_dir) == EntryAction::Scan <==> !is_dir && has_source_extension(name),
{
}

} // verus!
