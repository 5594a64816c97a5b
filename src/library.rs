//! Hoon library dependencies of a project: checking a library's
//! description, naming its cached checkout, and deciding which of its files
//! are copied where.
use vstd::prelude::*;
use vstd::string::*;
use crate::text::{
    chars_of, contains_seq, contains_text, last_segment, owned, same_text, segment_start,
    segment_start_exec, starts_with_text, string_of_range, trim_end_char, trimmed_end, trim_path_end, path_end,
    occurs_at_exec, lemma_segment_start_bounds,
};

verus! {

/// Where a library comes from and which part of it a project takes.
#[derive(Debug, Clone)]
pub struct LibrarySpec {
    pub url: String,
    pub commit: Option<String>,
    pub branch: Option<String>,
    /// A subdirectory of the repository to take the library from.
    pub directory: Option<String>,
    /// A single file of the repository to take instead of a directory.
    pub file: Option<String>,
}

/// Why a library could not be taken in.
#[derive(Debug, Clone, Copy, PartialEq, Eq, Structural)]
pub enum LibraryError {
    /// Both a branch and a commit are given.
    BranchAndCommit,
    /// Neither a branch nor a commit is given.
    NoRevision,
    /// Both a directory and a file are given.
    DirectoryAndFile,
    /// The URL is not a GitHub repository URL.
    UnsupportedHost,
    /// The URL has no repository name.
    InvalidUrl,
    /// The repository has none of the directories a Hoon library lives in.
    NoSourceDirectory,
    /// A path has no parent directory.
    NoParentDirectory,
}

/// The only repository host supported.
pub open spec fn github_prefix() -> Seq<char> {
    "https://github.com/"@
}

/// The error, if any, that a library description is rejected with; the
/// checks run in this order.
pub open spec fn library_spec_error(spec: LibrarySpec) -> Option<LibraryError> {
    if spec.branch is Some && spec.commit is Some {
        Some(LibraryError::BranchAndCommit)
    } else if spec.branch is None && spec.commit is None {
        Some(LibraryError::NoRevision)
    } else if spec.directory is Some && spec.file is Some {
        Some(LibraryError::DirectoryAndFile)
    } else if !github_prefix().is_prefix_of(spec.url@) {
        Some(LibraryError::UnsupportedHost)
    } else {
        None
    }
}

/// Accepts a library description with exactly one of branch and commit, at
/// most one of directory and file, and a GitHub URL.
pub fn validate_library_spec(spec: &LibrarySpec) -> (r: Result<(), LibraryError>)
    ensures
        r is Ok <==> library_spec_error(*spec) is None,
        r matches Err(e) ==> library_spec_error(*spec) == Some(e),
{
    match (&spec.branch, &spec.commit) {
        (Some(_), Some(_)) => {
            return Err(LibraryError::BranchAndCommit);
        },
        (None, None) => {
            return Err(LibraryError::NoRevision);
        },
        _ => {},
    }
    if spec.directory.is_some() && spec.file.is_some() {
        return Err(LibraryError::DirectoryAndFile);
    }
    if !starts_with_text(spec.url.as_str(), "https://github.com/") {
        return Err(LibraryError::UnsupportedHost);
    }
    Ok(())
}

/// `s` with every trailing copy of `suffix` removed.
pub open spec fn trim_end_seq(s: Seq<char>, suffix: Seq<char>) -> Seq<char>
    decreases s.len(),
{
    if suffix.len() > 0 && suffix.is_suffix_of(s) {
        trim_end_seq(s.subrange(0, s.len() - suffix.len()), suffix)
    } else {
        s
    }
}

/// The repository name of a URL: its last path segment once trailing
/// slashes are dropped, without any trailing `.git`. A URL whose trimmed form
/// holds no `/` has none.
pub open spec fn repo_name_spec(url: Seq<char>) -> Option<Seq<char>> {
    let t = trim_end_char(url, '/');
    if !t.contains('/') {
        None
    } else {
        Some(trim_end_seq(last_segment(t, '/'), ".git"@))
    }
}

/// The repository name of a URL: `https://github.com/user/repo.git` gives
/// `repo`.
pub fn extract_repo_name(url: &str) -> (r: Result<String, LibraryError>)
    ensures
        repo_name_spec(url@) is None <==> r is Err,
        r matches Err(e) ==> e == LibraryError::InvalidUrl,
        r matches Ok(name) ==> repo_name_spec(url@) == Some(name@),
{
    let cs = chars_of(url);
    assert(cs@.subrange(0, cs@.len() as int) =~= cs@);
    let end = trimmed_end(&cs, cs.len(), '/');
    let ghost t = cs@.subrange(0, end as int);
    let trimmed = string_of_range(&cs, 0, end);
    let tc = chars_of(trimmed.as_str());
    let start = segment_start_exec(&tc, '/');
    proof {
        lemma_segment_start_bounds(t, '/');
    }
    if start == 0 {
        assert(!t.contains('/'));
        return Err(LibraryError::InvalidUrl);
    }
    assert(t.contains('/')) by {
        assert(t[start - 1] == '/');
    }
    // drop every trailing ".git"
    let git = chars_of(".git");
    proof {
        reveal_strlit(".git");
    }
    let mut hi: usize = tc.len();
    while hi - start >= 4 && occurs_at_exec(&tc, &git, hi - 4)
        invariant
            start <= hi <= tc@.len(),
            git@ == ".git"@,
            git@.len() == 4,
            trim_end_seq(last_segment(t, '/'), ".git"@) == trim_end_seq(tc@.subrange(start as int, hi as int), ".git"@),
        decreases hi,
    {
        let ghost w = tc@.subrange(start as int, hi as int);
        assert(".git"@.is_suffix_of(w)) by {
            assert(w.subrange(w.len() - 4, w.len() as int) =~= tc@.subrange(hi - 4, hi as int));
        }
        assert(w.subrange(0, w.len() - 4) =~= tc@.subrange(start as int, hi - 4));
        hi = hi - 4;
    }
    proof {
        let w = tc@.subrange(start as int, hi as int);
        if ".git"@.is_suffix_of(w) {
            assert(w.len() >= 4);
            assert(tc@.subrange(hi - 4, hi as int) =~= w.subrange(w.len() - 4, w.len() as int));
        }
    }
    Ok(string_of_range(&tc, start, hi))
}

/// A path followed by one more component.
pub open spec fn join_spec(base: Seq<char>, part: Seq<char>) -> Seq<char> {
    base + "/"@ + part
}

/// A path followed by one more component.
pub fn join_path(base: &str, part: &str) -> (r: String)
    ensures
        r@ == join_spec(base@, part@),
{
    let mut r = owned(base);
    r.append("/");
    r.append(part);
    r
}

/// The directory of a checkout that a library is taken from: the chosen
/// subdirectory, or the whole checkout.
pub fn library_base_dir(repo_dir: &str, spec: &LibrarySpec) -> (r: String)
    ensures
        spec.directory matches Some(d) ==> r@ == join_spec(repo_dir@, d@),
        spec.directory is None ==> r@ == repo_dir@,
{
    match &spec.directory {
        Some(d) => join_path(repo_dir, d.as_str()),
        None => owned(repo_dir),
    }
}

/// Picks the directory a Hoon library lives in under `base_dir`: `desk`,
/// else `hoon`, else `src`, by which of them exist.
pub fn find_library_source_dir(base_dir: &str, has_desk: bool, has_hoon: bool, has_src: bool) -> (r: Result<
    String,
    LibraryError,
>)
    ensures
        has_desk ==> (r matches Ok(d) && d@ == join_spec(base_dir@, "desk"@)),
        !has_desk && has_hoon ==> (r matches Ok(d) && d@ == join_spec(base_dir@, "hoon"@)),
        !has_desk && !has_hoon && has_src ==> (r matches Ok(d) && d@ == join_spec(base_dir@, "src"@)),
        !has_desk && !has_hoon && !has_src ==> r == Err::<String, LibraryError>(LibraryError::NoSourceDirectory),
{
    if has_desk {
        Ok(join_path(base_dir, "desk"))
    } else if has_hoon {
        Ok(join_path(base_dir, "hoon"))
    } else if has_src {
        Ok(join_path(base_dir, "src"))
    } else {
        Err(LibraryError::NoSourceDirectory)
    }
}

/// The parent of a path, as a path's components give it: trailing
/// separators and `.` components do not count, a single relative component
/// has the empty parent, an entry at the root has the root, and the empty
/// path and the root have none.
pub open spec fn parent_spec(path: Seq<char>) -> Option<Seq<char>> {
    let t = trim_path_end(path);
    if t.len() == 0 {
        None
    } else {
        let rest = trim_path_end(t.subrange(0, segment_start(t, '/')));
        if rest.len() == 0 && path.len() > 0 && path[0] == '/' {
            Some("/"@)
        } else {
            Some(rest)
        }
    }
}

/// The parent of a path.
pub fn parent_of(path: &str) -> (r: Option<String>)
    ensures
        match r {
            Some(p) => parent_spec(path@) == Some(p@),
            None => parent_spec(path@) is None,
        },
{
    let cs = chars_of(path);
    assert(cs@.subrange(0, cs@.len() as int) =~= cs@);
    let n = path_end(&cs, cs.len());
    if n == 0 {
        return None;
    }
    let t = string_of_range(&cs, 0, n);
    let tc = chars_of(t.as_str());
    let s = segment_start_exec(&tc, '/');
    let m = path_end(&tc, s);
    if m == 0 && cs[0] == '/' {
        proof {
            reveal_strlit("/");
        }
        return Some(owned("/"));
    }
    Some(string_of_range(&tc, 0, m))
}

/// A whole-library copy: everything of interest under `from` goes under `to`.
#[derive(Debug, Clone)]
pub struct LibraryCopy {
    pub from: String,
    pub to: String,
}

/// Plans the copy of a whole library into a project. Libraries are
/// flattened: the contents of `source_dir` go to the project's Hoon
/// directory, the parent of its library directory `dest_lib_dir`.
pub fn copy_library_files(source_dir: &str, dest_lib_dir: &str) -> (r: Result<LibraryCopy, LibraryError>)
    ensures
        parent_spec(dest_lib_dir@) is None <==> r is Err,
        r matches Err(e) ==> e == LibraryError::NoParentDirectory,
        r matches Ok(c) ==> c.from@ == source_dir@ && parent_spec(dest_lib_dir@) == Some(c.to@),
{
    match parent_of(dest_lib_dir) {
        Some(to) => Ok(LibraryCopy { from: owned(source_dir), to }),
        None => Err(LibraryError::NoParentDirectory),
    }
}

/// The name of a path's last component, as a path's components give it:
/// trailing separators and `.` components do not count, and a path that
/// ends in `..`, is `.`, or has no component but the root has none.
pub open spec fn file_name_spec(path: Seq<char>) -> Option<Seq<char>> {
    let name = last_segment(trim_path_end(path), '/');
    if name.len() == 0 || name == "."@ || name == ".."@ {
        None
    } else {
        Some(name)
    }
}

/// The name of a path's last component.
pub fn file_name_of(path: &str) -> (r: Option<String>)
    ensures
        match r {
            Some(n) => file_name_spec(path@) == Some(n@),
            None => file_name_spec(path@) is None,
        },
{
    let cs = chars_of(path);
    assert(cs@.subrange(0, cs@.len() as int) =~= cs@);
    let n = path_end(&cs, cs.len());
    let t = string_of_range(&cs, 0, n);
    let tc = chars_of(t.as_str());
    let s = segment_start_exec(&tc, '/');
    let name = string_of_range(&tc, s, tc.len());
    if s == tc.len() || same_text(name.as_str(), ".") || same_text(name.as_str(), "..") {
        return None;
    }
    Some(name)
}

/// The extension of a path: what follows the last `.` of its file name,
/// where that dot is not the name's first character.
pub open spec fn extension_spec(path: Seq<char>) -> Option<Seq<char>> {
    match file_name_spec(path) {
        None => None,
        Some(name) => {
            let i = segment_start(name, '.');
            if i <= 1 {
                None
            } else {
                Some(name.subrange(i, name.len() as int))
            }
        },
    }
}

/// The extension of a path.
pub fn extension_of(path: &str) -> (r: Option<String>)
    ensures
        match r {
            Some(e) => extension_spec(path@) == Some(e@),
            None => extension_spec(path@) is None,
        },
{
    match file_name_of(path) {
        None => None,
        Some(name) => {
            let nc = chars_of(name.as_str());
            let d = segment_start_exec(&nc, '.');
            if d <= 1 {
                None
            } else {
                Some(string_of_range(&nc, d, nc.len()))
            }
        },
    }
}

/// The lower-case form of a text, by Unicode case mapping.
pub uninterp spec fn lower_of(s: Seq<char>) -> Seq<char>;

/// Relies on `str::to_lowercase`.
#[verifier::external_body]
pub(crate) fn to_lowercase(s: &str) -> (r: String)
    ensures
        r@ == lower_of(s@),
{
    s.to_lowercase()
}

/// The lower-case extensions of the files copied from a library.
pub open spec fn copied_extension(lowered: Seq<char>) -> bool {
    lowered == "hoon"@ || lowered == "hoon-mark"@ || lowered == "kelvin"@
}

/// Whether a lower-cased extension is one of those copied from a library:
/// `hoon`, `hoon-mark` or `kelvin`.
pub fn is_copied_extension(lowered: &str) -> (r: bool)
    ensures
        r == copied_extension(lowered@),
{
    same_text(lowered, "hoon") || same_text(lowered, "hoon-mark") || same_text(lowered, "kelvin")
}

/// Whether a file is copied from a library: its extension, in lower case,
/// is one of the copied ones.
pub open spec fn should_copy_spec(path: Seq<char>) -> bool {
    match extension_spec(path) {
        Some(ext) => copied_extension(lower_of(ext)),
        None => false,
    }
}

/// Whether a file is copied from a library.
pub fn should_copy_file(path: &str) -> (r: bool)
    ensures
        r == should_copy_spec(path@),
{
    match extension_of(path) {
        None => false,
        Some(ext) => {
            let lower = to_lowercase(ext.as_str());
            is_copied_extension(lower.as_str())
        },
    }
}

/// Top-level directories of a library that are never copied.
pub open spec fn skipped_dir_spec(name: Seq<char>) -> bool {
    name == "mar"@ || name == "tests"@
}

/// Whether a top-level directory of a library is left out of the copy.
pub fn is_skipped_library_dir(name: &str) -> (r: bool)
    ensures
        r == skipped_dir_spec(name@),
{
    same_text(name, "mar") || same_text(name, "tests")
}

/// The project subdirectory that a single library file goes to, by the
/// directory it sits in within the repository: `lib`, `sur` or `app`, and
/// `lib` where none of them shows.
pub open spec fn single_file_dir_spec(file_path: Seq<char>) -> Seq<char> {
    if contains_seq(file_path, "/lib/"@) {
        "lib"@
    } else if contains_seq(file_path, "/sur/"@) {
        "sur"@
    } else if contains_seq(file_path, "/app/"@) {
        "app"@
    } else {
        "lib"@
    }
}

/// The project subdirectory that a single library file goes to.
pub fn single_file_dir(file_path: &str) -> (r: &'static str)
    ensures
        r@ == single_file_dir_spec(file_path@),
{
    if contains_text(file_path, "/lib/") {
        "lib"
    } else if contains_text(file_path, "/sur/") {
        "sur"
    } else if contains_text(file_path, "/app/") {
        "app"
    } else {
        "lib"
    }
}

/// The name of a library's cached checkout: `<repo>_<commit or branch>`.
pub open spec fn cache_name_spec(spec: LibrarySpec) -> Option<Seq<char>> {
    match (repo_name_spec(spec.url@), spec.commit, spec.branch) {
        (Some(repo), Some(c), None) => Some(repo + "_"@ + c@),
        (Some(repo), None, Some(b)) => Some(repo + "_"@ + b@),
        _ => None,
    }
}

/// The name of a library's cached checkout. A URL without a repository name
/// is `InvalidUrl`; a description without exactly one of commit and branch
/// is rejected as `validate_library_spec` would.
pub fn library_cache_name(spec: &LibrarySpec) -> (r: Result<String, LibraryError>)
    ensures
        r is Ok <==> cache_name_spec(*spec) is Some,
        r matches Ok(n) ==> cache_name_spec(*spec) == Some(n@),
        repo_name_spec(spec.url@) is None ==> r == Err::<String, LibraryError>(LibraryError::InvalidUrl),
        repo_name_spec(spec.url@) is Some && spec.commit is Some && spec.branch is Some ==> r == Err::<
            String,
            LibraryError,
        >(LibraryError::BranchAndCommit),
        repo_name_spec(spec.url@) is Some && spec.commit is None && spec.branch is None ==> r == Err::<
            String,
            LibraryError,
        >(LibraryError::NoRevision),
{
    let mut name = extract_repo_name(spec.url.as_str())?;
    match (&spec.commit, &spec.branch) {
        (Some(c), None) => {
            name.append("_");
            name.append(c.as_str());
            Ok(name)
        },
        (None, Some(b)) => {
            name.append("_");
            name.append(b.as_str());
            Ok(name)
        },
        (Some(_), Some(_)) => Err(LibraryError::BranchAndCommit),
        (None, None) => Err(LibraryError::NoRevision),
    }
}

} // verus!
