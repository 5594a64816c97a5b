use std::path::Path;

use nockup::library::{copy_library_files, extension_of, file_name_of, parent_of, should_copy_file, LibraryError};

const PATHS: &[&str] = &[
    "", ".", "..", "/", "//", "/.", "./", "./a", "a", "lib", "a/b", "a/b/", "a//b", "a/./b", "a/b/.",
    "a/..", "/x", "//x", "/x/", "x.hoon/.", "lib/foo.hoon/", "lib/foo.hoon", ".hidden", "a/.hidden",
    "a..", "a.b.c", "dir/.hoon", "file.", "proj/hoon/lib", "/home/u/p/hoon/lib/", "a/./.",
];

#[test]
fn parents_match_std_paths() {
    for p in PATHS {
        let expected = Path::new(p).parent().map(|q| q.to_str().unwrap().to_string());
        assert_eq!(parent_of(p), expected, "parent of {:?}", p);
    }
}

#[test]
fn file_names_match_std_paths() {
    for p in PATHS {
        let expected = Path::new(p).file_name().map(|q| q.to_str().unwrap().to_string());
        assert_eq!(file_name_of(p), expected, "file name of {:?}", p);
    }
}

#[test]
fn extensions_match_std_paths() {
    for p in PATHS {
        let expected = Path::new(p).extension().map(|q| q.to_str().unwrap().to_string());
        assert_eq!(extension_of(p), expected, "extension of {:?}", p);
    }
}

#[test]
fn trailing_components_do_not_hide_the_extension() {
    assert!(should_copy_file("lib/foo.hoon/"));
    assert!(should_copy_file("x.hoon/."));
    assert!(!should_copy_file("x.hoon/.."));
}

#[test]
fn library_copy_parents() {
    assert_eq!(copy_library_files("/s", "lib").unwrap().to, "");
    assert_eq!(copy_library_files("/s", "a/b/").unwrap().to, "a");
    assert_eq!(copy_library_files("/s", "/x").unwrap().to, "/");
    assert!(matches!(copy_library_files("/s", "/"), Err(LibraryError::NoParentDirectory)));
    assert!(matches!(copy_library_files("/s", ""), Err(LibraryError::NoParentDirectory)));
}
