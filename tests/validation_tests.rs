use nockup::config::{config_from_stored, default_config, set_channel};
use nockup::validation::{
    parse_channel, validate_channel_name, validate_existing_project, validate_project_name,
    validate_project_path, Channel, ValidationError,
};

#[test]
fn test_validate_project_name_valid() {
    assert!(validate_project_name("valid-project").is_ok());
    assert!(validate_project_name("valid_project").is_ok());
    assert!(validate_project_name("project123").is_ok());
    assert!(validate_project_name("a").is_ok());
    assert!(validate_project_name("my-awesome-project_v2").is_ok());
}

#[test]
fn test_validate_project_name_empty() {
    assert!(matches!(
        validate_project_name(""),
        Err(ValidationError::EmptyProjectName)
    ));
}

#[test]
fn test_validate_project_name_too_long() {
    let long_name = "a".repeat(51);
    assert!(matches!(
        validate_project_name(&long_name),
        Err(ValidationError::ProjectNameTooLong)
    ));
}

#[test]
fn test_validate_project_name_invalid_chars() {
    let invalid_names = vec![
        "project with spaces",
        "project/with/slashes",
        "project@with@symbols",
        "project!",
        "project.dot",
    ];

    for name in invalid_names {
        assert!(matches!(
            validate_project_name(name),
            Err(ValidationError::InvalidProjectNameChars(_))
        ));
    }
}

#[test]
fn test_validate_channel_name() {
    assert!(validate_channel_name("stable").is_ok());
    assert!(validate_channel_name("nightly").is_ok());

    assert!(matches!(
        validate_channel_name("invalid"),
        Err(ValidationError::InvalidChannelName(_))
    ));
    assert!(matches!(
        validate_channel_name(""),
        Err(ValidationError::InvalidChannelName(_))
    ));
}

#[test]
fn test_validate_project_path() {
    assert!(validate_project_path("non-existing", false).is_ok());
    assert!(matches!(
        validate_project_path("existing", true),
        Err(ValidationError::DirectoryExists(_))
    ));
}

#[test]
fn test_validate_existing_project() {
    assert!(matches!(
        validate_existing_project("non-existing", false, false),
        Err(ValidationError::PathNotFound(_))
    ));
    assert!(matches!(
        validate_existing_project("project", true, false),
        Err(ValidationError::PathNotFound(_))
    ));
    assert!(validate_existing_project("project", true, true).is_ok());
}

#[test]
fn project_name_of_fifty_bytes_is_accepted() {
    assert!(validate_project_name(&"b".repeat(50)).is_ok());
}

#[test]
fn project_name_length_counts_bytes() {
    // 26 two-byte characters: 52 bytes
    let name = "é".repeat(26);
    assert!(matches!(
        validate_project_name(&name),
        Err(ValidationError::ProjectNameTooLong)
    ));
}

#[test]
fn invalid_project_name_reports_offending_characters() {
    match validate_project_name("a b@c!") {
        Err(ValidationError::InvalidProjectNameChars(s)) => assert_eq!(s, " @!"),
        other => panic!("unexpected {:?}", other),
    }
}

#[test]
fn unicode_letters_are_alphanumeric() {
    assert!(validate_project_name("café").is_ok());
}

#[test]
fn channel_names_parse() {
    assert_eq!(parse_channel("stable").unwrap(), Channel::Stable);
    assert_eq!(parse_channel("nightly").unwrap(), Channel::Nightly);
    assert_eq!(Channel::Nightly.name(), "nightly");
    assert!(parse_channel("Stable").is_err());
}

#[test]
fn beta_channel_is_rejected_before_any_write() {
    let mut config = default_config("x86_64-unknown-linux-gnu");
    match set_channel(&mut config, "beta") {
        Err(ValidationError::InvalidChannelName(s)) => assert_eq!(s, "beta"),
        other => panic!("unexpected {:?}", other),
    }
    assert_eq!(config.channel, "stable");
    assert_eq!(config.architecture, "x86_64-unknown-linux-gnu");
}

#[test]
fn set_channel_to_nightly() {
    let mut config = default_config("aarch64-apple-darwin");
    assert!(set_channel(&mut config, "nightly").is_ok());
    assert_eq!(config.channel, "nightly");
    assert_eq!(config.architecture, "aarch64-apple-darwin");
}

#[test]
fn stored_config_defaults() {
    let c = config_from_stored(None, None, "riscv64-unknown-linux");
    assert_eq!(c.channel, "stable");
    assert_eq!(c.architecture, "riscv64-unknown-linux");
    let c = config_from_stored(Some("nightly".to_string()), Some("x".to_string()), "y");
    assert_eq!(c.channel, "nightly");
    assert_eq!(c.architecture, "x");
}
