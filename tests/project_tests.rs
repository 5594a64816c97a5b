use nockup::shell::{path_entry, rc_file_name, with_path_entry};
use nockup::library::{
    copy_library_files, extract_repo_name, find_library_source_dir, is_skipped_library_dir,
    library_base_dir, library_cache_name, should_copy_file, single_file_dir,
    validate_library_spec, LibraryError, LibrarySpec,
};
use nockup::project::{create_template_context, sanitize_project_name, ProjectInfo, ProjectManifest};
use nockup::version::{expected_file_arch, extract_version_string};

fn spec(url: &str, commit: Option<&str>, branch: Option<&str>) -> LibrarySpec {
    LibrarySpec {
        url: url.to_string(),
        commit: commit.map(String::from),
        branch: branch.map(String::from),
        directory: None,
        file: None,
    }
}

#[test]
fn library_spec_rules() {
    let url = "https://github.com/user/repo";
    assert!(validate_library_spec(&spec(url, Some("abc"), None)).is_ok());
    assert!(validate_library_spec(&spec(url, None, Some("main"))).is_ok());
    assert_eq!(validate_library_spec(&spec(url, Some("abc"), Some("main"))), Err(LibraryError::BranchAndCommit));
    assert_eq!(validate_library_spec(&spec(url, None, None)), Err(LibraryError::NoRevision));
    let mut both = spec(url, None, Some("main"));
    both.directory = Some("d".to_string());
    both.file = Some("f".to_string());
    assert_eq!(validate_library_spec(&both), Err(LibraryError::DirectoryAndFile));
    assert_eq!(
        validate_library_spec(&spec("https://gitlab.com/user/repo", None, Some("main"))),
        Err(LibraryError::UnsupportedHost)
    );
}

#[test]
fn repo_names() {
    assert_eq!(extract_repo_name("https://github.com/user/repo").unwrap(), "repo");
    assert_eq!(extract_repo_name("https://github.com/user/repo.git").unwrap(), "repo");
    assert_eq!(extract_repo_name("https://github.com/user/repo/").unwrap(), "repo");
    assert_eq!(extract_repo_name("https://github.com/user/repo.git.git").unwrap(), "repo");
    assert_eq!(extract_repo_name("repo"), Err(LibraryError::InvalidUrl));
    assert_eq!(extract_repo_name("repo///"), Err(LibraryError::InvalidUrl));
}

#[test]
fn cache_names() {
    assert_eq!(
        library_cache_name(&spec("https://github.com/user/sequent", Some("1a2b"), None)).unwrap(),
        "sequent_1a2b"
    );
    assert_eq!(
        library_cache_name(&spec("https://github.com/user/sequent.git", None, Some("main"))).unwrap(),
        "sequent_main"
    );
    assert_eq!(library_cache_name(&spec("nope", None, Some("main"))), Err(LibraryError::InvalidUrl));
}

#[test]
fn source_directories() {
    let mut s = spec("https://github.com/u/r", None, Some("main"));
    assert_eq!(library_base_dir("/cache/r_main", &s), "/cache/r_main");
    s.directory = Some("libs/x".to_string());
    assert_eq!(library_base_dir("/cache/r_main", &s), "/cache/r_main/libs/x");
    assert_eq!(find_library_source_dir("/b", true, true, true).unwrap(), "/b/desk");
    assert_eq!(find_library_source_dir("/b", false, true, true).unwrap(), "/b/hoon");
    assert_eq!(find_library_source_dir("/b", false, false, true).unwrap(), "/b/src");
    assert_eq!(find_library_source_dir("/b", false, false, false), Err(LibraryError::NoSourceDirectory));
}

#[test]
fn library_copy_goes_to_hoon_dir() {
    let c = copy_library_files("/cache/r/desk", "proj/hoon/lib").unwrap();
    assert_eq!(c.from, "/cache/r/desk");
    assert_eq!(c.to, "proj/hoon");
    assert_eq!(copy_library_files("/x", "lib").unwrap().to, "");
}

#[test]
fn copied_file_kinds() {
    assert!(should_copy_file("desk/lib/foo.hoon"));
    assert!(should_copy_file("desk/lib/FOO.HOON"));
    assert!(should_copy_file("sys.kelvin"));
    assert!(should_copy_file("a/b.Hoon-Mark"));
    assert!(!should_copy_file("README.md"));
    assert!(!should_copy_file("Makefile"));
    assert!(!should_copy_file("dir/.hoon"));
    assert!(!should_copy_file("x.hoon/readme"));
}

#[test]
fn skipped_and_single_file_dirs() {
    assert!(is_skipped_library_dir("mar"));
    assert!(is_skipped_library_dir("tests"));
    assert!(!is_skipped_library_dir("lib"));
    assert_eq!(single_file_dir("desk/lib/foo.hoon"), "lib");
    assert_eq!(single_file_dir("desk/sur/foo.hoon"), "sur");
    assert_eq!(single_file_dir("desk/app/foo.hoon"), "app");
    assert_eq!(single_file_dir("foo.hoon"), "lib");
}

fn info() -> ProjectInfo {
    ProjectInfo {
        name: "My App".to_string(),
        project_name: "my-app".to_string(),
        version: "0.1.0".to_string(),
        description: "An app".to_string(),
        author_name: "A. Author".to_string(),
        author_email: "a@example.com".to_string(),
        github_username: "author".to_string(),
        license: "MIT".to_string(),
        keywords: vec!["nockapp".to_string(), "hoon".to_string(), "demo".to_string()],
        nockapp_commit_hash: "deadbeef".to_string(),
        template: "basic".to_string(),
    }
}

#[test]
fn template_context_values() {
    let m = ProjectManifest { project: info(), libraries: None };
    let c = create_template_context(&m);
    let get = |k: &str| c.iter().find(|(key, _)| key == k).map(|(_, v)| v.clone()).unwrap();
    assert_eq!(c.len(), 12);
    assert_eq!(get("name"), "My App");
    assert_eq!(get("project_name"), "my-app");
    assert_eq!(get("project_description"), "An app");
    assert_eq!(get("description"), "An app");
    assert_eq!(get("keywords"), "nockapp\", \"hoon\", \"demo");
    assert_eq!(get("nockapp_commit_hash"), "deadbeef");
    assert_eq!(get("template"), "basic");
}

#[test]
fn template_context_with_no_keywords() {
    let mut p = info();
    p.keywords = vec![];
    let c = create_template_context(&ProjectManifest { project: p, libraries: None });
    assert_eq!(c[9], ("keywords".to_string(), String::new()));
}

#[test]
fn sanitized_names() {
    assert_eq!(sanitize_project_name("My Project!"), "my-project");
    assert_eq!(sanitize_project_name("--Hello World--"), "hello-world");
    assert_eq!(sanitize_project_name("ÄBC"), "äbc");
    assert_eq!(sanitize_project_name("!!!"), "");
}

#[test]
fn version_strings() {
    assert_eq!(extract_version_string("hoonc 0.2.1"), "0.2.1");
    assert_eq!(extract_version_string("tool v1.4 (build 7)"), "1.4");
    assert_eq!(extract_version_string("nothing here"), "nothing here");
    assert_eq!(extract_version_string("v"), "v");
    assert_eq!(extract_version_string("  9  "), "9");
    assert_eq!(expected_file_arch("aarch64"), "arm64");
    assert_eq!(expected_file_arch("x86_64"), "x86_64");
}

#[test]
fn templates_are_filled_in() {
    let ctx = vec![
        ("name".to_string(), "demo".to_string()),
        ("keywords".to_string(), "a\", \"b".to_string()),
    ];
    assert_eq!(
        nockup::project::render_template("app {{name}}!", &ctx).unwrap(),
        "app demo!"
    );
    assert_eq!(
        nockup::project::render_template("[\"{{{keywords}}}\"]", &ctx).unwrap(),
        "[\"a\", \"b\"]"
    );
    assert!(nockup::project::render_template("{{#if}}", &ctx).is_err());
}

#[test]
fn shell_startup_file_entries() {
    assert_eq!(rc_file_name("/bin/zsh"), Some(".zshrc"));
    assert_eq!(rc_file_name("/usr/bin/bash"), Some(".bashrc"));
    assert_eq!(rc_file_name("/usr/bin/fish"), None);
    let entry = path_entry("/home/u/.nockup/bin");
    assert_eq!(entry, "export PATH=\"/home/u/.nockup/bin:$PATH\"");
    assert_eq!(with_path_entry("alias x=y", &entry).unwrap(), format!("alias x=y\n{}", entry));
    assert_eq!(with_path_entry(&format!("a\n{}\n", entry), &entry), None);
}

#[test]
fn version_from_tool_output() {
    assert_eq!(
        nockup::version::version_from_output("hoon 1.2.3\nmore text\n"),
        Some("1.2.3".to_string())
    );
    assert_eq!(nockup::version::version_from_output("  \nhoon 1.0"), None);
    assert_eq!(nockup::version::version_from_output(""), None);
    assert_eq!(
        nockup::version::version_from_output("  some tool \r\n"),
        Some("some tool".to_string())
    );
}

#[test]
fn hoon_apps_follow_binaries() {
    let none: Vec<String> = vec![];
    assert_eq!(nockup::project::hoon_apps(&none), vec!["app".to_string()]);
    assert_eq!(nockup::project::hoon_apps(&vec!["one".to_string()]), vec!["app".to_string()]);
    let two = vec!["talk".to_string(), "listen".to_string()];
    assert_eq!(nockup::project::hoon_apps(&two), two);
    assert_eq!(nockup::project::hoon_app_file("app"), "hoon/app/app.hoon");
}

#[test]
fn lowered_text_logic() {
    assert!(nockup::library::is_copied_extension("hoon"));
    assert!(nockup::library::is_copied_extension("hoon-mark"));
    assert!(nockup::library::is_copied_extension("kelvin"));
    assert!(!nockup::library::is_copied_extension("HOON"));
    assert_eq!(nockup::project::sanitize_lowered("my project!"), "my-project");
    assert_eq!(nockup::project::sanitize_lowered("My"), "My");
    assert_eq!(nockup::project::sanitize_lowered("-a--b-"), "a--b");
}

#[test]
fn version_strings_follow_whitespace_words() {
    let lines = [
        "hoonc 0.2.1",
        "tool\u{3000}v2",
        "a\u{200B}1 2",
        "\tv\tvv 3",
        "x v",
        "",
        "   ",
        "release-1 9.9",
    ];
    for line in lines {
        let expected = line
            .split_whitespace()
            .find_map(|w| {
                if w.chars().next().map_or(false, |c| c.is_ascii_digit()) {
                    Some(w.to_string())
                } else if w.starts_with('v') && w.len() > 1 {
                    Some(w[1..].to_string())
                } else {
                    None
                }
            })
            .unwrap_or_else(|| line.to_string());
        assert_eq!(extract_version_string(line), expected, "line {:?}", line);
    }
}
