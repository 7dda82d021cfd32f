use s3_facade::config::ConfigError;
use s3_facade::error::{ErrorKind, StoreError};
use s3_facade::upload::UploadError;

#[test]
fn each_kind_has_its_own_exit_code() {
    assert_eq!(ErrorKind::Config.exit_code(), 78);
    assert_eq!(ErrorKind::Store.exit_code(), 69);
    assert_eq!(ErrorKind::NotFound.exit_code(), 66);
}

#[test]
fn no_failure_exits_with_zero() {
    for kind in [ErrorKind::Config, ErrorKind::Store, ErrorKind::NotFound] {
        assert_ne!(kind.exit_code(), 0);
    }
}

#[test]
fn errors_know_their_kind() {
    assert_eq!(ConfigError::MissingRegion.kind(), ErrorKind::Config);
    assert_eq!(ConfigError::MissingKeyId.kind(), ErrorKind::Config);
    assert_eq!(ConfigError::MissingKeySecret.kind(), ErrorKind::Config);
    let store = StoreError::listing("photos", "refused".to_string());
    assert_eq!(store.kind(), ErrorKind::Store);
    assert_eq!(UploadError::Store(store).kind(), ErrorKind::Store);
    let missing = UploadError::NotFound { path: "a.txt".to_string() };
    assert_eq!(missing.kind(), ErrorKind::NotFound);
}
