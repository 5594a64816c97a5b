//! Putting the cache's bin directory on the user's `PATH` through the
//! shell's startup file.
use vstd::prelude::*;
use vstd::string::*;
use crate::text::{contains_seq, contains_text, owned};

verus! {

/// The startup file, under the home directory, of the shell named by the
/// `SHELL` value: `.zshrc` for zsh, `.bashrc` for bash, none for others.
pub open spec fn rc_file_spec(shell: Seq<char>) -> Option<Seq<char>> {
    if contains_seq(shell, "zsh"@) {
        Some(".zshrc"@)
    } else if contains_seq(shell, "bash"@) {
        Some(".bashrc"@)
    } else {
        None
    }
}

/// The startup file of a shell, under the home directory.
pub fn rc_file_name(shell: &str) -> (r: Option<&'static str>)
    ensures
        match r {
            Some(f) => rc_file_spec(shell@) == Some(f@),
            None => rc_file_spec(shell@) is None,
        },
{
    if contains_text(shell, "zsh") {
        Some(".zshrc")
    } else if contains_text(shell, "bash") {
        Some(".bashrc")
    } else {
        None
    }
}

/// The line that puts `bin_dir` first on `PATH`.
pub open spec fn path_entry_spec(bin_dir: Seq<char>) -> Seq<char> {
    "export PATH=\""@ + bin_dir + ":$PATH\""@
}

/// The line that puts `bin_dir` first on `PATH`.
pub fn path_entry(bin_dir: &str) -> (r: String)
    ensures
        r@ == path_entry_spec(bin_dir@),
{
    let mut r = owned("export PATH=\"");
    r.append(bin_dir);
    r.append(":$PATH\"");
    r
}

/// A startup file's new contents with `entry` appended on a line of its
/// own, or `None` where the entry is already there.
pub fn with_path_entry(contents: &str, entry: &str) -> (r: Option<String>)
    ensures
        contains_seq(contents@, entry@) <==> r is None,
        r matches Some(s) ==> s@ == contents@ + "\n"@ + entry@,
{
    if contains_text(contents, entry) {
        return None;
    }
    let mut r = owned(contents);
    r.append("\n");
    r.append(entry);
    Some(r)
}

} // verus!
