use s3_facade::config::{create_client, ConfigError};

#[test]
fn client_is_made_from_region_and_credentials() {
    let handle = match create_client("eu-central-1", Some("AKIDEXAMPLE"), Some("wJalrXUtnFEMI")) {
        Ok(handle) => handle,
        Err(error) => panic!("unexpected failure: {}", error.message()),
    };
    assert_eq!(handle.region(), "eu-central-1");
    assert_eq!(handle.key_id(), "AKIDEXAMPLE");
    assert_eq!(handle.key_secret(), "wJalrXUtnFEMI");
}

#[test]
fn absent_key_id_is_a_config_error() {
    let outcome = create_client("eu-central-1", None, Some("secret"));
    assert!(matches!(outcome, Err(ConfigError::MissingKeyId)));
}

#[test]
fn empty_key_id_is_a_config_error() {
    let outcome = create_client("eu-central-1", Some(""), Some("secret"));
    assert!(matches!(outcome, Err(ConfigError::MissingKeyId)));
}

#[test]
fn absent_key_secret_is_a_config_error() {
    let outcome = create_client("eu-central-1", Some("id"), None);
    assert!(matches!(outcome, Err(ConfigError::MissingKeySecret)));
}

#[test]
fn empty_key_secret_is_a_config_error() {
    let outcome = create_client("eu-central-1", Some("id"), Some(""));
    assert!(matches!(outcome, Err(ConfigError::MissingKeySecret)));
}

#[test]
fn empty_region_is_a_config_error() {
    let outcome = create_client("", Some("id"), Some("secret"));
    assert!(matches!(outcome, Err(ConfigError::MissingRegion)));
}

#[test]
fn first_missing_setting_is_reported() {
    assert!(matches!(create_client("", None, None), Err(ConfigError::MissingRegion)));
    assert!(matches!(create_client("eu-central-1", None, None), Err(ConfigError::MissingKeyId)));
    assert!(matches!(
        create_client("eu-central-1", Some(""), Some("")),
        Err(ConfigError::MissingKeyId)
    ));
}

#[test]
fn a_single_character_counts_as_given() {
    let outcome = create_client("r", Some("i"), Some("s"));
    assert!(outcome.is_ok());
}

#[test]
fn config_errors_have_messages() {
    assert_eq!(ConfigError::MissingRegion.message(), "no region is configured");
    assert_eq!(ConfigError::MissingKeyId.message(), "the credential key id is missing or empty");
    assert_eq!(
        ConfigError::MissingKeySecret.message(),
        "the credential key secret is missing or empty"
    );
}
