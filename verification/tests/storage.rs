use std::path::PathBuf;

use update_service_api::auth::{password_hash, verify_password};
use update_service_api::secret::{decrypt_secret, encrypt_secret};
use update_service_api::storage::{checked_local_path, s3_key};

#[test]
fn encryption_round_trip() {
    let key = [7; 32];
    let encrypted = encrypt_secret(&key, "top-secret").unwrap();
    assert_ne!(encrypted, "top-secret");
    assert_eq!(decrypt_secret(&key, &encrypted).unwrap(), "top-secret");
}

#[test]
fn local_object_keys_cannot_escape_the_root() {
    assert_eq!(
        PathBuf::from(checked_local_path("/srv/artifacts", "artifacts/app/file").unwrap()),
        PathBuf::from("/srv/artifacts/artifacts/app/file")
    );
    assert!(checked_local_path("/srv/artifacts", "../secret").is_err());
    assert!(checked_local_path("/srv/artifacts", "artifacts/../secret").is_err());
    assert!(checked_local_path("/srv/artifacts", "/etc/passwd").is_err());
    assert!(checked_local_path("/srv/artifacts", "").is_err());
}

#[test]
fn s3_prefix_is_normalized() {
    assert_eq!(s3_key("/updates/", "artifacts/one"), "updates/artifacts/one");
    assert_eq!(s3_key("", "artifacts/one"), "artifacts/one");
}

#[test]
fn password_round_trip() {
    let hash = password_hash("correct horse battery staple").unwrap();
    assert!(verify_password(&hash, "correct horse battery staple"));
    assert!(!verify_password(&hash, "wrong"));
}
