use nockup::extract::{install_path, is_entry_for, select_entry, ExtractError, EXECUTABLE_MODE};
use nockup::fetch::{classify_download, signature_url, temp_file_name, FetchError};
use nockup::integrity::{check_digests, to_hex, verify_artifact, ChecksumMismatch, HashAlgorithm};
use nockup::manifest::{
    manifest_file_name, required_artifacts, ArtifactEntry, Manifest, ManifestError, ManifestRecord,
};
use nockup::signature::{
    advance_signature, classify_verification, start_signature_check, Keyserver, SignatureError,
    SignatureEvent, SignaturePhase, SignatureStep, VerifyOutcome,
};
use nockup::sync::{conclude_sync, needs_sync, SyncError};
use nockup::target::target_identifier;
use nockup::validation::Channel;

const ABC_SHA256: &str = "ba7816bf8f01cfea414140de5dae2223b00361a396177a9cb410ff61f20015ad";
const ABC_SHA1: &str = "a9993e364706816aba3e25717850c26c9cd0d89d";

#[test]
fn target_identifier_mapping() {
    assert_eq!(target_identifier("x86_64", "linux"), "x86_64-unknown-linux-gnu");
    assert_eq!(target_identifier("aarch64", "macos"), "aarch64-apple-darwin");
    assert_eq!(target_identifier("riscv64", "linux"), "riscv64-unknown-linux");
    assert_eq!(target_identifier("aarch64", "linux"), "aarch64-unknown-linux-gnu");
    assert_eq!(target_identifier("x86_64", "macos"), "x86_64-apple-darwin");
    assert_eq!(target_identifier("x86_64", "windows"), "x86_64-unknown-windows");
}

fn record(artifact: &str, target: &str, url: &str, strong: &str, weak: &str) -> ManifestRecord {
    ManifestRecord {
        artifact: artifact.to_string(),
        target: target.to_string(),
        entry: ArtifactEntry {
            url: url.to_string(),
            hash_strong: strong.to_string(),
            hash_weak: weak.to_string(),
        },
    }
}

#[test]
fn manifest_file_names() {
    assert_eq!(manifest_file_name("nockup", Channel::Stable), "channel-nockup-stable.toml");
    assert_eq!(manifest_file_name("nockup", Channel::Nightly), "channel-nockup-nightly.toml");
    assert_eq!(required_artifacts(), vec!["hoon".to_string(), "hoonc".to_string()]);
}

#[test]
fn manifest_resolves_in_order() {
    let m = Manifest {
        records: vec![
            record("hoonc", "x86_64-unknown-linux-gnu", "u2", "s2", "w2"),
            record("hoon", "aarch64-apple-darwin", "u0", "s0", "w0"),
            record("hoon", "x86_64-unknown-linux-gnu", "u1", "s1", "w1"),
            record("hoon", "x86_64-unknown-linux-gnu", "dup", "dup", "dup"),
        ],
    };
    let names = vec!["hoon".to_string(), "hoonc".to_string()];
    let r = m.resolve(&"x86_64-unknown-linux-gnu".to_string(), &names).unwrap();
    assert_eq!(r.len(), 2);
    assert_eq!(r[0].name, "hoon");
    assert_eq!(r[0].url, "u1");
    assert_eq!(r[0].hash_strong, "s1");
    assert_eq!(r[0].hash_weak, "w1");
    assert_eq!(r[1].name, "hoonc");
    assert_eq!(r[1].url, "u2");
}

#[test]
fn manifest_missing_target_entry_names_artifact() {
    let m = Manifest {
        records: vec![record("hoon", "aarch64-apple-darwin", "u0", "s0", "w0")],
    };
    let names = vec!["hoon".to_string(), "hoonc".to_string()];
    match m.resolve(&"aarch64-apple-darwin".to_string(), &names) {
        Err(ManifestError::MissingTargetEntry { artifact, target }) => {
            assert_eq!(artifact, "hoonc");
            assert_eq!(target, "aarch64-apple-darwin");
        }
        other => panic!("unexpected {:?}", other),
    }
}

#[test]
fn digests_of_known_input() {
    let data = b"abc".to_vec();
    assert!(verify_artifact(&data, ABC_SHA256, ABC_SHA1).is_ok());
    assert!(verify_artifact(&data, &ABC_SHA256.to_uppercase(), &ABC_SHA1.to_uppercase()).is_ok());
}

#[test]
fn strong_digest_mismatch_names_both_values() {
    let data = b"abc".to_vec();
    let expected = "abcd".repeat(16);
    match verify_artifact(&data, &expected, ABC_SHA1) {
        Err(ChecksumMismatch { algorithm, expected: e, got }) => {
            assert_eq!(algorithm, HashAlgorithm::Strong);
            assert_eq!(e, expected);
            assert_eq!(got, ABC_SHA256);
        }
        other => panic!("unexpected {:?}", other),
    }
}

#[test]
fn weak_digest_mismatch_is_reported() {
    let data = b"abc".to_vec();
    let wrong = "0".repeat(40);
    match verify_artifact(&data, ABC_SHA256, &wrong) {
        Err(m) => {
            assert_eq!(m.algorithm, HashAlgorithm::Weak);
            assert_eq!(m.expected, wrong);
            assert_eq!(m.got, ABC_SHA1);
        }
        Ok(()) => panic!("mismatch accepted"),
    }
}

#[test]
fn checksum_mismatch_scenario() {
    let expected = format!("abcd{}", "0".repeat(60));
    let got = "f".repeat(64);
    match check_digests(&expected, ABC_SHA1, &got, ABC_SHA1) {
        Err(m) => {
            assert_eq!(m.algorithm, HashAlgorithm::Strong);
            assert_eq!(m.expected, expected);
            assert_eq!(m.got, got);
        }
        Ok(()) => panic!("mismatch accepted"),
    }
}

#[test]
fn hex_encoding() {
    assert_eq!(to_hex(&vec![0x00, 0x0f, 0xa0, 0xff]), "000fa0ff");
    assert_eq!(to_hex(&vec![]), "");
}

#[test]
fn download_outcomes() {
    assert_eq!(classify_download(false, 200), Err(FetchError::TransportError));
    assert_eq!(classify_download(true, 404), Err(FetchError::DownloadFailed { status: 404 }));
    assert_eq!(classify_download(true, 199), Err(FetchError::DownloadFailed { status: 199 }));
    assert_eq!(classify_download(true, 200), Ok(()));
    assert_eq!(classify_download(true, 299), Ok(()));
}

#[test]
fn download_names() {
    let url = "https://example.com/releases/hoon-x86_64.tar.gz";
    assert_eq!(signature_url(url), "https://example.com/releases/hoon-x86_64.tar.gz.asc");
    assert_eq!(temp_file_name(url, 1700000000), "hoon-x86_64.tar.gz.1700000000");
    assert_eq!(temp_file_name("plain", 0), "plain.0");
    assert_ne!(temp_file_name(url, 10), temp_file_name(url, 1));
}

#[test]
fn signature_output_is_classified() {
    assert_eq!(
        classify_verification(true, "gpg: Good signature from \"Release\""),
        VerifyOutcome::Good
    );
    assert_eq!(
        classify_verification(false, "gpg: Good signature from \"Release\""),
        VerifyOutcome::Failed
    );
    assert_eq!(
        classify_verification(false, "gpg: Can't check signature: No public key"),
        VerifyOutcome::MissingKey
    );
    assert_eq!(classify_verification(false, "gpg: BAD signature"), VerifyOutcome::Failed);
}

#[test]
fn missing_key_with_failed_imports_is_fatal() {
    let p = start_signature_check();
    let (p, s) = advance_signature(p, SignatureEvent::Verification(VerifyOutcome::MissingKey));
    assert_eq!(s, SignatureStep::ImportKey(Keyserver::Primary));
    let (p, s) = advance_signature(p, SignatureEvent::KeyImport(false));
    assert_eq!(s, SignatureStep::ImportKey(Keyserver::Secondary));
    let (p, s) = advance_signature(p, SignatureEvent::KeyImport(false));
    assert_eq!(s, SignatureStep::Reject(SignatureError::KeyImportFailed));
    assert_eq!(p, SignaturePhase::Rejected(SignatureError::KeyImportFailed));
}

#[test]
fn key_import_allows_one_retry() {
    let p = start_signature_check();
    let (p, _) = advance_signature(p, SignatureEvent::Verification(VerifyOutcome::MissingKey));
    let (p, s) = advance_signature(p, SignatureEvent::KeyImport(true));
    assert_eq!(s, SignatureStep::RunVerification);
    let (_, s) = advance_signature(p, SignatureEvent::Verification(VerifyOutcome::MissingKey));
    assert_eq!(s, SignatureStep::Reject(SignatureError::VerificationFailed));
    let (_, s) = advance_signature(p, SignatureEvent::Verification(VerifyOutcome::Good));
    assert_eq!(s, SignatureStep::Accept);
}

#[test]
fn bad_signature_is_not_retried() {
    let p = start_signature_check();
    let (_, s) = advance_signature(p, SignatureEvent::Verification(VerifyOutcome::Failed));
    assert_eq!(s, SignatureStep::Reject(SignatureError::VerificationFailed));
    assert_eq!(Keyserver::Primary.host(), "keyserver.ubuntu.com");
    assert_eq!(Keyserver::Secondary.host(), "keys.openpgp.org");
}

#[test]
fn archive_entry_selection() {
    let entries = vec![
        "README.md".to_string(),
        "dist/hoonc".to_string(),
        "dist/hoon".to_string(),
        "hoon".to_string(),
    ];
    assert_eq!(select_entry(&entries, "hoon").unwrap(), 2);
    assert_eq!(select_entry(&entries, "hoonc").unwrap(), 1);
    match select_entry(&entries, "nockup") {
        Err(ExtractError::BinaryNotFoundInArchive(n)) => assert_eq!(n, "nockup"),
        other => panic!("unexpected {:?}", other),
    }
    assert!(is_entry_for("a/b/hoon", "hoon"));
    assert!(!is_entry_for("a/hoon/x", "hoon"));
    assert_eq!(install_path("/home/u/.nockup/bin", "hoon"), "/home/u/.nockup/bin/hoon");
    assert_eq!(EXECUTABLE_MODE, 0o755);
}

#[test]
fn sync_runs_once_for_unchanged_revision() {
    let remote = "0123abcd".to_string();
    let marker: Option<String> = None;
    let first = needs_sync(&marker, &remote);
    assert!(first);
    let (marker, result) = conclude_sync(marker, &remote, first, true);
    assert_eq!(result, Ok(()));
    assert_eq!(marker.as_deref(), Some("0123abcd"));
    let second = needs_sync(&marker, &remote);
    assert!(!second);
    let (marker, result) = conclude_sync(marker, &remote, second, true);
    assert_eq!(result, Ok(()));
    assert_eq!(marker.as_deref(), Some("0123abcd"));
}

#[test]
fn sync_refetches_on_new_revision_and_keeps_marker_on_failure() {
    let marker = Some("old".to_string());
    let remote = "new".to_string();
    assert!(needs_sync(&marker, &remote));
    let (kept, result) = conclude_sync(marker, &remote, true, false);
    assert_eq!(result, Err(SyncError::FetchFailed));
    assert_eq!(kept.as_deref(), Some("old"));
}

#[test]
fn status_codes_are_read() {
    assert_eq!(nockup::fetch::parse_status_code("200"), Some(200));
    assert_eq!(nockup::fetch::parse_status_code(" 404\n"), Some(404));
    assert_eq!(nockup::fetch::parse_status_code("000"), Some(0));
    assert_eq!(nockup::fetch::parse_status_code("65535"), Some(65535));
    assert_eq!(nockup::fetch::parse_status_code("65536"), None);
    assert_eq!(nockup::fetch::parse_status_code("123456789012"), None);
    assert_eq!(nockup::fetch::parse_status_code("2x0"), None);
    assert_eq!(nockup::fetch::parse_status_code(""), None);
    assert_eq!(nockup::fetch::parse_status_code("   "), None);
}

#[test]
fn archive_listings_split_into_lines() {
    assert_eq!(
        nockup::extract::archive_listing("a/\na/hoon\nREADME\n"),
        vec!["a/".to_string(), "a/hoon".to_string(), "README".to_string()]
    );
    assert_eq!(nockup::extract::archive_listing("x\ny"), vec!["x".to_string(), "y".to_string()]);
    assert!(nockup::extract::archive_listing("").is_empty());
    assert_eq!(nockup::extract::archive_listing("\n"), vec![String::new()]);
}

#[test]
fn ls_remote_revision() {
    assert_eq!(
        nockup::sync::revision_from_ls_remote("0123abcd\tHEAD\n"),
        Ok("0123abcd".to_string())
    );
    assert_eq!(
        nockup::sync::revision_from_ls_remote("  \n"),
        Err(SyncError::RemoteQueryFailed)
    );
}

#[test]
fn manifest_entries_are_validated() {
    let good = record("hoon", "t", "https://x/h.tar.gz", ABC_SHA256, ABC_SHA1);
    let bad = record("hoonc", "t", "https://x/c.tar.gz", "abcd", ABC_SHA1);
    assert!(Manifest { records: vec![good.clone()] }.validate().is_ok());
    match (Manifest { records: vec![good.clone(), bad] }).validate() {
        Err(ManifestError::InvalidEntry { artifact, target }) => {
            assert_eq!(artifact, "hoonc");
            assert_eq!(target, "t");
        }
        other => panic!("unexpected {:?}", other),
    }
    let no_url = record("hoon", "t", "", ABC_SHA256, ABC_SHA1);
    assert!(Manifest { records: vec![no_url] }.validate().is_err());
    let upper = record("hoon", "t", "u", &ABC_SHA256.to_uppercase(), ABC_SHA1);
    assert!(Manifest { records: vec![upper] }.validate().is_ok());
    let not_hex = record("hoon", "t", "u", &"g".repeat(64), ABC_SHA1);
    assert!(Manifest { records: vec![not_hex] }.validate().is_err());
}

#[test]
fn duplicate_manifest_keys_are_rejected() {
    let a = record("hoon", "t", "u1", ABC_SHA256, ABC_SHA1);
    let b = record("hoonc", "t", "u2", ABC_SHA256, ABC_SHA1);
    let c = record("hoon", "t", "u3", ABC_SHA256, ABC_SHA1);
    assert!(Manifest { records: vec![a.clone(), b.clone()] }.validate().is_ok());
    match (Manifest { records: vec![a, b, c] }).validate() {
        Err(ManifestError::DuplicateEntry { artifact, target }) => {
            assert_eq!(artifact, "hoon");
            assert_eq!(target, "t");
        }
        other => panic!("unexpected {:?}", other),
    }
}

#[test]
fn whitespace_matches_std() {
    for u in 0u32..=0x10FFFF {
        if let Some(c) = char::from_u32(u) {
            assert_eq!(nockup::text::is_whitespace(c), c.is_whitespace(), "U+{:04X}", u);
        }
    }
}
