use update_service_api::migration::migration_retry_delay_seconds;
use update_service_api::range::parse_range;
use update_service_api::validate::{
    validate_migration_direction, validate_password, validate_platform,
};

#[test]
fn accepts_platform_slugs() {
    assert!(validate_platform("windows-x64").is_ok());
    assert!(validate_platform("Android").is_err());
}

#[test]
fn understands_ranges() {
    assert_eq!(parse_range("bytes=10-19", 100), Some((10, 19)));
    assert_eq!(parse_range("bytes=-10", 100), Some((90, 99)));
    assert_eq!(parse_range("bytes=100-", 100), None);
}

#[test]
fn semver_is_required() {
    assert!(semver::Version::parse("1.2.3").is_ok());
    assert!(semver::Version::parse("2024-1").is_err());
}

#[test]
fn validates_storage_migration_directions() {
    assert!(validate_migration_direction("s3", "s3").is_ok());
    assert!(validate_migration_direction("s3", "local").is_ok());
    assert!(validate_migration_direction("local", "s3").is_ok());
    assert!(validate_migration_direction("local", "local").is_err());
    assert!(validate_migration_direction("unknown", "s3").is_err());
}

#[test]
fn password_length_is_unrestricted_but_empty_passwords_are_rejected() {
    assert!(validate_password("a").is_ok());
    assert!(validate_password(&"a".repeat(257)).is_ok());
    assert!(validate_password("").is_err());
}

#[test]
fn migration_retries_use_exponential_backoff() {
    assert_eq!(migration_retry_delay_seconds(1), 30);
    assert_eq!(migration_retry_delay_seconds(2), 60);
    assert_eq!(migration_retry_delay_seconds(4), 240);
}
