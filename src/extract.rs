//! Picking the installed binary out of a release archive.
use vstd::prelude::*;
use vstd::string::*;
use crate::text::{chars_of, owned, last_segment, last_segment_of, string_of_range};

verus! {

/// Permission bits of an installed binary: read and execute for all, write
/// for the owner.
pub const EXECUTABLE_MODE: u32 = 0o755;

/// Why a binary could not be taken out of an archive.
#[derive(Debug, Clone)]
pub enum ExtractError {
    /// The archive could not be read or decoded.
    ArchiveUnreadable,
    /// No entry of the archive has the binary's name as its last component.
    BinaryNotFoundInArchive(String),
}

/// Whether an archive entry's path ends in the component `name`.
pub open spec fn entry_matches(path: Seq<char>, name: Seq<char>) -> bool {
    last_segment(path, '/') == name
}

/// Whether an archive entry's path ends in the component `name`.
pub fn is_entry_for(path: &str, name: &str) -> (r: bool)
    ensures
        r == entry_matches(path@, name@),
{
    let last = last_segment_of(path, '/');
    let n = owned(name);
    last == n
}

/// The first entry, in archive order, whose last path component is `name`.
/// Unrelated entries are passed over.
pub fn select_entry(paths: &Vec<String>, name: &str) -> (r: Result<usize, ExtractError>)
    ensures
        r matches Ok(i) ==> i < paths@.len() && entry_matches(paths@[i as int]@, name@)
            && forall|j: int| 0 <= j < i ==> !entry_matches(#[trigger] paths@[j]@, name@),
        r is Err ==> forall|j: int| 0 <= j < paths@.len() ==> !entry_matches(#[trigger] paths@[j]@, name@),
        r is Err ==> match r {
            Err(ExtractError::BinaryNotFoundInArchive(n)) => n@ == name@,
            _ => false,
        },
{
    let mut i: usize = 0;
    while i < paths.len()
        invariant
            i <= paths@.len(),
            forall|j: int| 0 <= j < i ==> !entry_matches(#[trigger] paths@[j]@, name@),
        decreases paths@.len() - i,
    {
        if is_entry_for(paths[i].as_str(), name) {
            return Ok(i);
        }
        i = i + 1;
    }
    Err(ExtractError::BinaryNotFoundInArchive(owned(name)))
}

/// The lines of `s` from position `i` on, where the current line began at
/// `start`. Lines end at `\n`; a last line without one still counts, an
/// empty text after the last `\n` does not.
pub open spec fn lines_from(s: Seq<char>, i: int, start: int) -> Seq<Seq<char>>
    decreases s.len() - i,
{
    if i >= s.len() {
        if start < s.len() {
            seq![s.subrange(start, s.len() as int)]
        } else {
            seq![]
        }
    } else if s[i] == '\n' {
        seq![s.subrange(start, i)] + lines_from(s, i + 1, i + 1)
    } else {
        lines_from(s, i + 1, start)
    }
}

/// The views of a list of strings.
pub open spec fn views(v: Seq<String>) -> Seq<Seq<char>> {
    v.map_values(|s: String| s@)
}

/// The entry paths of an archive listing, one per line.
pub fn archive_listing(listing: &str) -> (r: Vec<String>)
    ensures
        views(r@) == lines_from(listing@, 0, 0),
{
    let cs = chars_of(listing);
    let mut out: Vec<String> = Vec::new();
    let mut start: usize = 0;
    let mut i: usize = 0;
    while i < cs.len()
        invariant
            start <= i <= cs@.len(),
            cs@ == listing@,
            lines_from(cs@, 0, 0) == views(out@) + lines_from(cs@, i as int, start as int),
        decreases cs@.len() - i,
    {
        if cs[i] == '\n' {
            let line = string_of_range(&cs, start, i);
            proof {
                assert(views(out@.push(line)) =~= views(out@).push(line@));
                assert(views(out@) + lines_from(cs@, i as int, start as int) =~= views(out@.push(line)) + lines_from(
                    cs@,
                    i + 1,
                    i + 1,
                ));
            }
            out.push(line);
            start = i + 1;
        }
        i = i + 1;
    }
    if start < cs.len() {
        let line = string_of_range(&cs, start, cs.len());
        proof {
            assert(views(out@.push(line)) =~= views(out@).push(line@));
        }
        out.push(line);
    } else {
        assert(views(out@) + lines_from(cs@, i as int, start as int) =~= views(out@));
    }
    out
}

/// Where an artifact's binary is installed: `<bin_dir>/<name>`.
pub fn install_path(bin_dir: &str, name: &str) -> (r: String)
    ensures
        r@ == bin_dir@ + "/"@ + name@,
{
    let mut r = owned(bin_dir);
    r.append("/");
    r.append(name);
    r
}

} // verus!
