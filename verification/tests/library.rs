use update_service_api::auth::{
    check_login, check_password_change, clear_session_cookie, constant_time_eq, password_hash,
    require_csrf, session_cookie, session_token, session_user, LoginAccount, SESSION_COOKIE,
};
use update_service_api::codec::{hex_hash, random_token, sha256_hex};
use update_service_api::config::{
    non_empty, normalize_base_url, parse_cookie_secure, parse_master_key, parse_upload_max_bytes,
};
use update_service_api::error::ApiError;
use update_service_api::migration::{
    cancel_effect, check_activation_allowed, check_distinct_profiles, check_no_active_migration,
    check_profile_deletable, cleanup_retry_delay_seconds, cutover_decision, failure_plan,
    finish_item, item_profile_ids, migration_retry_delay_seconds, migration_total_bytes,
    reference_at_destination, retry_plan, check_retryable_status, route_item, run_step,
    CancelEffect, CutoverDecision, EnqueueTally, ItemRoute, MigrationRun, RunAction, RunEvent, RunPhase,
};
use update_service_api::page::{app_list_params, list_offset_fits, AppQuery, Page};
use update_service_api::range::{
    content_disposition, content_range, decimal, download_window, parse_range,
};
use update_service_api::release::{
    artifact_object_key, check_app_accepts_releases, check_release_status, check_update_query, download_url,
    find_update, release_step, validate_release_input, ReleaseAction, ReleaseInput,
};
use update_service_api::secret::{decrypt_secret, encrypt_secret, encrypt_secret_with_nonce};
use update_service_api::storage::{
    backend_of, check_destination_object, check_source_object, checked_local_path,
    destination_matches, expected_object_size, non_blank, ObjectHasher,
    require_destination_object, s3_key, transfer_outcome, validate_profile, Backend, LocalConfig,
    ObjectStats, S3Config, S3Secret, SecretInput, TransferOutcome,
};
use update_service_api::upload::UploadTracker;
use update_service_api::validate::{
    check_new_owner, check_user_update, require_admin, update_ends_sessions, validate_app_input,
    validate_initial_admin, validate_login_input, validate_new_user, validate_profile_name,
    validate_role, validate_username, Actor, AppInput, UserUpdate,
};

fn message(error: ApiError) -> String {
    error.message()
}

// ---------------------------------------------------------------- ranges

#[test]
fn range_edge_cases() {
    assert_eq!(parse_range("bytes=0-0", 1), Some((0, 0)));
    assert_eq!(parse_range("bytes=5-2", 100), None);
    assert_eq!(parse_range("bytes=+5-", 100), Some((5, 99)));
    assert_eq!(parse_range("bytes=-0", 100), None);
    assert_eq!(parse_range("bytes=-200", 100), Some((0, 99)));
    assert_eq!(parse_range("bytes=10-19,30-40", 100), Some((10, 19)));
    assert_eq!(parse_range("items=1-2", 100), None);
    assert_eq!(parse_range("bytes=1-2", 0), None);
    assert_eq!(parse_range("bytes=12", 100), None);
    assert_eq!(parse_range("bytes=a-b", 100), None);
    assert_eq!(parse_range("bytes=99999999999999999999-", 100), None);
}

#[test]
fn download_window_follows_the_range() {
    let partial = download_window(Some("bytes=10-19"), 100);
    assert!(partial.partial);
    assert_eq!((partial.start, partial.end, partial.length), (10, 19, 10));
    let whole = download_window(None, 100);
    assert!(!whole.partial);
    assert_eq!((whole.start, whole.end, whole.length), (0, 99, 100));
    let refused = download_window(Some("bytes=200-"), 100);
    assert!(!refused.partial);
    assert_eq!(refused.length, 100);
    let empty = download_window(Some("bytes=0-0"), 0);
    assert_eq!((empty.start, empty.end, empty.length), (0, 0, 0));
}

#[test]
fn download_headers_are_formatted() {
    assert_eq!(content_range(10, 19, 100), "bytes 10-19/100");
    assert_eq!(decimal(0), "0");
    assert_eq!(decimal(u64::MAX), u64::MAX.to_string());
    assert_eq!(
        content_disposition("a\"b\r\nc.zip"),
        "attachment; filename=\"a_b__c.zip\""
    );
}

// ---------------------------------------------------------------- validation

#[test]
fn user_names_are_checked() {
    assert!(validate_username("abc").is_ok());
    assert!(validate_username("a_b-C9").is_ok());
    assert!(validate_username("ab").is_err());
    assert!(validate_username(&"a".repeat(64)).is_ok());
    assert!(validate_username(&"a".repeat(65)).is_err());
    assert!(validate_username("héllo").is_err());
    assert_eq!(
        message(validate_username("a b").unwrap_err()),
        "Username must be 3-64 characters of letters, numbers, _ or -"
    );
}

#[test]
fn roles_and_new_users() {
    assert!(validate_role("admin").is_ok());
    assert!(validate_role("user").is_ok());
    assert!(validate_role("root").is_err());
    assert_eq!(message(validate_new_user("ab", "", "x").unwrap_err()),
        "Username must be 3-64 characters of letters, numbers, _ or -");
    assert_eq!(message(validate_new_user("abc", "", "x").unwrap_err()), "Password must not be empty");
    assert_eq!(message(validate_new_user("abc", "p", "x").unwrap_err()), "role must be admin or user");
    assert!(validate_new_user("abc", "p", "user").is_ok());
}

#[test]
fn application_input_is_checked() {
    let ok = AppInput { name: "Demo".to_owned(), description: String::new() };
    assert!(validate_app_input(&ok).is_ok());
    let blank = AppInput { name: " \t ".to_owned(), description: String::new() };
    assert_eq!(message(validate_app_input(&blank).unwrap_err()), "Application name must be 1-160 characters");
    let long = AppInput { name: "x".repeat(161), description: String::new() };
    assert!(validate_app_input(&long).is_err());
    let wordy = AppInput { name: "Demo".to_owned(), description: "d".repeat(10_001) };
    assert_eq!(message(validate_app_input(&wordy).unwrap_err()), "Description must be at most 10000 characters");
}

#[test]
fn login_and_profile_names() {
    assert!(validate_login_input("admin", "pw").is_ok());
    assert!(validate_login_input("  ", "pw").is_err());
    assert!(validate_login_input("admin", "").is_err());
    assert!(validate_profile_name("disk").is_ok());
    assert!(validate_profile_name(" ").is_err());
    assert!(validate_profile_name(&"n".repeat(101)).is_err());
}

#[test]
fn account_updates_are_checked() {
    let none = UserUpdate { role: None, enabled: None, password: None };
    assert_eq!(message(check_user_update(1, 2, &none).unwrap_err()), "No user fields supplied");
    let bad_role = UserUpdate { role: Some("boss".to_owned()), enabled: None, password: None };
    assert_eq!(message(check_user_update(1, 2, &bad_role).unwrap_err()), "role must be admin or user");
    let empty_pw = UserUpdate { role: None, enabled: None, password: Some(String::new()) };
    assert_eq!(message(check_user_update(1, 2, &empty_pw).unwrap_err()), "Password must not be empty");
    let disable_self = UserUpdate { role: None, enabled: Some(false), password: None };
    assert_eq!(message(check_user_update(1, 1, &disable_self).unwrap_err()), "You cannot disable your own account");
    assert!(check_user_update(1, 2, &disable_self).is_ok());
    assert!(update_ends_sessions(false, false));
    assert!(update_ends_sessions(true, true));
    assert!(!update_ends_sessions(true, false));
}

#[test]
fn administrators_and_owners() {
    let admin = Actor { id: 1, role: "admin".to_owned() };
    let user = Actor { id: 2, role: "user".to_owned() };
    assert!(require_admin(&admin).is_ok());
    let error = require_admin(&user).unwrap_err();
    assert_eq!(error.status(), 403);
    assert!(check_new_owner(Some(true)).is_ok());
    assert!(check_new_owner(Some(false)).is_err());
    assert!(check_new_owner(None).is_err());
}

#[test]
fn initial_administrator_is_checked() {
    assert!(validate_initial_admin(Some("admin"), Some("pw")).is_ok());
    assert_eq!(message(validate_initial_admin(None, Some("pw")).unwrap_err()),
        "INITIAL_ADMIN_USERNAME is required when no users exist");
    assert_eq!(message(validate_initial_admin(Some("admin"), None).unwrap_err()),
        "INITIAL_ADMIN_PASSWORD is required when no users exist");
    assert_eq!(message(validate_initial_admin(Some("a!"), Some("pw")).unwrap_err()),
        "INITIAL_ADMIN_USERNAME is invalid");
    assert_eq!(message(validate_initial_admin(Some("admin"), Some("")).unwrap_err()),
        "INITIAL_ADMIN_PASSWORD must not be empty");
    // No upper bound on the name of the first administrator.
    assert!(validate_initial_admin(Some(&"a".repeat(100)), Some("pw")).is_ok());
}

// ---------------------------------------------------------------- releases

#[test]
fn release_lifecycle() {
    assert_eq!(release_step("draft", ReleaseAction::Publish, 1).unwrap().unwrap(), "published");
    assert_eq!(message(release_step("draft", ReleaseAction::Publish, 0).unwrap_err()),
        "A release needs at least one artifact");
    assert_eq!(release_step("published", ReleaseAction::Withdraw, 0).unwrap().unwrap(), "withdrawn");
    assert_eq!(message(release_step("published", ReleaseAction::Edit, 1).unwrap_err()),
        "Only draft releases can be changed");
    assert!(release_step("draft", ReleaseAction::Delete, 3).unwrap().is_none());
    for action in [ReleaseAction::Edit, ReleaseAction::Publish, ReleaseAction::Withdraw,
        ReleaseAction::Delete, ReleaseAction::UploadArtifact, ReleaseAction::DeleteArtifact] {
        assert!(release_step("withdrawn", action, 5).is_err());
    }
    assert_eq!(message(release_step("published", ReleaseAction::UploadArtifact, 1).unwrap_err()),
        "Artifacts can only be changed on draft releases");
    assert_eq!(message(release_step("published", ReleaseAction::DeleteArtifact, 1).unwrap_err()),
        "Artifacts can only be deleted from draft releases");
    assert!(check_app_accepts_releases("active").is_ok());
    assert!(check_app_accepts_releases("deleted").is_err());
}

#[test]
fn release_input_is_checked() {
    let ok = ReleaseInput { version: " 1.2.3 ".to_owned(), channel: "beta".to_owned(), release_notes: String::new() };
    assert!(validate_release_input(&ok).is_ok());
    let bad_version = ReleaseInput { version: "1.2".to_owned(), channel: "beta".to_owned(), release_notes: String::new() };
    assert_eq!(message(validate_release_input(&bad_version).unwrap_err()), "version must be valid SemVer");
    let bad_channel = ReleaseInput { version: "1.2.3".to_owned(), channel: "nightly".to_owned(), release_notes: String::new() };
    assert_eq!(message(validate_release_input(&bad_channel).unwrap_err()), "channel must be stable or beta");
    let long_notes = ReleaseInput { version: "1.2.3".to_owned(), channel: "stable".to_owned(), release_notes: "n".repeat(50_001) };
    assert_eq!(message(validate_release_input(&long_notes).unwrap_err()), "Release notes are too long");
}

#[test]
fn update_checks_offer_the_newest_release() {
    let versions: Vec<String> = ["1.2.0", "not-a-version", "2.0.0-beta.1", "1.10.0", "2.0.0", "0.9.0"]
        .iter().map(|v| v.to_string()).collect();
    assert_eq!(find_update("1.2.0", "stable", "windows-x64", &versions).unwrap(), Some(4));
    assert_eq!(find_update("2.0.0", "stable", "windows-x64", &versions).unwrap(), None);
    assert_eq!(find_update("2.0.0-alpha", "beta", "linux", &versions).unwrap(), Some(4));
    // Equal versions: the later candidate is offered.
    let twins: Vec<String> = vec!["3.0.0".to_owned(), "3.0.0".to_owned()];
    assert_eq!(find_update("1.0.0", "stable", "mac", &twins).unwrap(), Some(1));
    assert_eq!(message(find_update("1.0", "stable", "mac", &twins).unwrap_err()),
        "current_version must be valid SemVer");
    assert_eq!(message(check_update_query("1.0.0", "dev", "mac").unwrap_err()),
        "channel must be stable or beta");
    assert_eq!(message(check_update_query("1.0.0", "stable", "Mac").unwrap_err()),
        "platform must be a 1-64 character lowercase slug");
}

#[test]
fn artifact_addresses() {
    assert_eq!(artifact_object_key("a", "r", "x"), "artifacts/a/r/x");
    assert_eq!(download_url("https://u.example", "42"), "https://u.example/api/public/artifacts/42/download");
}

// ---------------------------------------------------------------- storage

#[test]
fn local_paths_join_like_pathbuf() {
    assert_eq!(checked_local_path("/srv/", "a/b").unwrap(), "/srv/a/b");
    assert_eq!(checked_local_path("", "a").unwrap(), "a");
    assert!(checked_local_path("/srv", "./a").is_err());
    assert!(checked_local_path("/srv", ".").is_err());
    assert!(checked_local_path("/srv", "a/..").is_err());
    assert_eq!(checked_local_path("/srv", "a/./b").unwrap(), "/srv/a/./b");
    assert_eq!(checked_local_path("/srv", "a..b").unwrap(), "/srv/a..b");
    assert_eq!(message(checked_local_path("/srv", "..").unwrap_err()), "Invalid object key");
}

#[test]
fn bucket_keys() {
    assert_eq!(s3_key("///", "k"), "k");
    assert_eq!(s3_key("a/b/", "k"), "a/b/k");
}

#[test]
fn profiles_are_validated() {
    let local = LocalConfig { root: "/data".to_owned() };
    let blank_local = LocalConfig { root: "  ".to_owned() };
    assert!(validate_profile("local", Some(&local), None, &SecretInput::Absent).is_ok());
    assert_eq!(message(validate_profile("local", None, None, &SecretInput::Absent).unwrap_err()),
        "Local storage needs a root path");
    assert_eq!(message(validate_profile("local", Some(&blank_local), None, &SecretInput::Absent).unwrap_err()),
        "Local storage root cannot be empty");
    let s3 = S3Config { endpoint: None, region: "eu".to_owned(), bucket: "b".to_owned(), prefix: String::new(), path_style: false };
    let no_bucket = S3Config { endpoint: None, region: "eu".to_owned(), bucket: " ".to_owned(), prefix: String::new(), path_style: false };
    let secret = SecretInput::Parsed(S3Secret { access_key: "a".to_owned(), secret_key: "s".to_owned() });
    let empty_secret = SecretInput::Parsed(S3Secret { access_key: "a".to_owned(), secret_key: "".to_owned() });
    assert!(validate_profile("s3", None, Some(&s3), &secret).is_ok());
    assert_eq!(message(validate_profile("s3", None, None, &secret).unwrap_err()), "Invalid S3 configuration");
    assert_eq!(message(validate_profile("s3", None, Some(&no_bucket), &secret).unwrap_err()), "S3 requires region and bucket");
    assert_eq!(message(validate_profile("s3", None, Some(&s3), &SecretInput::Absent).unwrap_err()), "S3 requires access credentials");
    assert_eq!(message(validate_profile("s3", None, Some(&s3), &SecretInput::Malformed).unwrap_err()), "Invalid S3 credentials");
    assert_eq!(message(validate_profile("s3", None, Some(&s3), &empty_secret).unwrap_err()), "S3 credentials cannot be empty");
    assert_eq!(message(validate_profile("ftp", None, None, &SecretInput::Absent).unwrap_err()), "backend must be local or s3");
    assert_eq!(backend_of("local"), Some(Backend::Local));
    assert_eq!(backend_of("s3"), Some(Backend::S3));
    assert_eq!(backend_of("S3"), None);
    assert_eq!(non_blank(Some(" ")), None);
    assert_eq!(non_blank(Some("text/plain")), Some("text/plain"));
}

#[test]
fn transfers_are_verified() {
    let stats = ObjectStats { size_bytes: 17, sha256: "ab01".to_owned() };
    assert!(check_source_object(&stats, 17, "ab01", "k").is_ok());
    assert_eq!(message(check_source_object(&stats, 18, "ab01", "k").unwrap_err()),
        "Source object does not match artifact metadata: k");
    assert_eq!(check_destination_object(&stats, 17, "ffff", "k").unwrap_err().status(), 409);
    assert!(destination_matches(Some(&stats), 17, "ab01"));
    assert!(!destination_matches(None, 17, "ab01"));
    assert_eq!(expected_object_size(-1).unwrap_err().status(), 400);
    assert_eq!(expected_object_size(5).unwrap(), 5);
    assert_eq!(require_destination_object(None).unwrap_err().status(), 404);
    let kept: ObjectStats = require_destination_object(Some(stats.clone())).unwrap();
    assert_eq!(kept, stats);
    assert_eq!(transfer_outcome(true), TransferOutcome::AlreadyPresent);
    assert_eq!(transfer_outcome(false), TransferOutcome::Copied);
}

// ---------------------------------------------------------------- secrets and hashes

#[test]
fn secrets_seal_deterministically_under_a_nonce() {
    let key = [1_u8; 32];
    let nonce = [0_u8; 12];
    let first = encrypt_secret_with_nonce(&key, &nonce, "s3cret").unwrap();
    let second = encrypt_secret_with_nonce(&key, &nonce, "s3cret").unwrap();
    assert_eq!(first, second);
    assert_eq!(decrypt_secret(&key, &first).unwrap(), "s3cret");
    assert!(decrypt_secret(&[2_u8; 32], &first).is_err());
    let random = encrypt_secret(&key, "s3cret").unwrap();
    assert_ne!(random, first);
}

#[test]
fn stored_credentials_are_checked() {
    let key = [1_u8; 32];
    assert_eq!(message(decrypt_secret(&key, "***").unwrap_err()), "Stored credential cannot be decoded");
    assert_eq!(message(decrypt_secret(&key, "AAAA").unwrap_err()), "Stored credential is malformed");
    assert_eq!(message(decrypt_secret(&key, "AAAAAAAAAAAAAAAAAAAAAAAAAAAAAAAAAAAA").unwrap_err()),
        "Stored credential cannot be decrypted");
}

#[test]
fn digests_are_hex_sha256() {
    assert_eq!(sha256_hex(b"abc"), "ba7816bf8f01cfea414140de5dae2223b00361a396177a9cb410ff61f20015ad");
    assert_eq!(hex_hash("abc"), sha256_hex(b"abc"));
    let token = random_token();
    assert_eq!(token.len(), 43);
    assert!(token.bytes().all(|b| b.is_ascii_alphanumeric() || b == b'-' || b == b'_'));
    assert_ne!(random_token(), token);
}

#[test]
fn configuration_values() {
    assert_eq!(normalize_base_url("http://x//"), "http://x");
    assert_eq!(normalize_base_url("http://x"), "http://x");
    let key = parse_master_key("AAAAAAAAAAAAAAAAAAAAAAAAAAAAAAAAAAAAAAAAAAA=").unwrap();
    assert_eq!(key.len(), 32);
    assert_eq!(parse_master_key("%%").unwrap_err(), "SETTINGS_MASTER_KEY must be base64");
    assert_eq!(parse_master_key("AAAAAAAAAAAAAAAAAAAAAAAAAAAAAAAAAAAAAAAAAAA").unwrap_err(),
        "SETTINGS_MASTER_KEY must be base64");
    assert_eq!(parse_master_key("AAAAAAAAAAAAAAAAAAAAAAAAAAAAAAAAAAAAAAAAAAB=").unwrap_err(),
        "SETTINGS_MASTER_KEY must be base64");
    assert_eq!(parse_master_key("AAAA").unwrap_err(), "SETTINGS_MASTER_KEY must decode to exactly 32 bytes");
    assert_eq!(parse_upload_max_bytes("2147483648").unwrap(), 2147483648);
    assert_eq!(parse_upload_max_bytes("+7").unwrap(), 7);
    assert!(parse_upload_max_bytes("-1").is_err());
    assert!(parse_upload_max_bytes("").is_err());
    assert_eq!(parse_cookie_secure("true"), Ok(true));
    assert_eq!(parse_cookie_secure("false"), Ok(false));
    assert!(parse_cookie_secure("TRUE").is_err());
    assert_eq!(non_empty(Some(String::new())), None);
    assert_eq!(non_empty(Some("x".to_owned())), Some("x".to_owned()));
}

// ---------------------------------------------------------------- sessions

#[test]
fn sessions_and_csrf() {
    assert!(constant_time_eq(b"abc", b"abc"));
    assert!(!constant_time_eq(b"abc", b"abd"));
    assert!(!constant_time_eq(b"abc", b"ab"));
    assert!(require_csrf(Some("tok"), "tok").is_ok());
    assert!(require_csrf(Some("tok"), "other").is_err());
    assert!(require_csrf(Some(""), "").is_err());
    assert_eq!(message(require_csrf(None, "tok").unwrap_err()), "Invalid CSRF token");
    assert_eq!(session_token(Some("t")).unwrap(), "t");
    assert_eq!(message(session_token(None).unwrap_err()), "Login required");
    assert_eq!(session_user(Some(3)).unwrap(), 3);
    assert_eq!(message(session_user::<u8>(None).unwrap_err()), "Session expired");
    let cookie = session_cookie(true, "t");
    assert_eq!(cookie.name, SESSION_COOKIE);
    assert_eq!(cookie.secure, Some(true));
    assert!(clear_session_cookie().expire_now);
}

#[test]
fn logins_and_password_changes() {
    let hash = password_hash("pw").unwrap();
    let account = LoginAccount { enabled: true, password_hash: hash.clone() };
    let disabled = LoginAccount { enabled: false, password_hash: hash.clone() };
    assert!(check_login(Some(&account), "pw").is_ok());
    assert_eq!(message(check_login(Some(&account), "no").unwrap_err()), "Invalid username or password");
    assert!(check_login(Some(&disabled), "pw").is_err());
    assert!(check_login(None, "pw").is_err());
    assert!(check_password_change(&hash, "pw", "new").is_ok());
    assert_eq!(message(check_password_change(&hash, "pw", "").unwrap_err()), "Password must not be empty");
    assert_eq!(message(check_password_change(&hash, "bad", "new").unwrap_err()), "Current password is incorrect");
}

// ---------------------------------------------------------------- migrations

#[test]
fn retry_and_cleanup_delays() {
    assert_eq!(migration_retry_delay_seconds(0), 30);
    assert_eq!(migration_retry_delay_seconds(9), 7680);
    assert_eq!(migration_retry_delay_seconds(100), 7680);
    assert_eq!(cleanup_retry_delay_seconds(0), 30);
    assert_eq!(cleanup_retry_delay_seconds(3), 240);
    assert_eq!(cleanup_retry_delay_seconds(-4), 30);
    assert_eq!(cleanup_retry_delay_seconds(50), 7680);
}

#[test]
fn items_are_given_up_at_the_fifth_attempt() {
    let mut attempts = 0;
    let mut delays = Vec::new();
    loop {
        let plan = failure_plan(attempts, "boom");
        attempts = plan.attempts;
        if plan.terminal {
            break;
        }
        delays.push(plan.retry_delay_seconds);
    }
    assert_eq!(attempts, 5);
    assert_eq!(delays, vec![30, 60, 120, 240]);
    let long = "é".repeat(1500);
    assert_eq!(failure_plan(0, &long).message.chars().count(), 1000);
    assert_eq!(failure_plan(i32::MAX, "x").attempts, i32::MAX);
}

#[test]
fn items_are_routed_and_finished() {
    assert_eq!(item_profile_ids(None, Some(2)).unwrap_err(), "Migration source profile is no longer available");
    assert_eq!(item_profile_ids(Some(1), None).unwrap_err(), "Migration destination profile is no longer available");
    assert_eq!(item_profile_ids(Some(1), Some(2)).unwrap(), (1, 2));
    assert_eq!(route_item(1, 2, None), ItemRoute::Skip);
    assert_eq!(route_item(1, 2, Some(2)), ItemRoute::AlreadyMoved);
    assert_eq!(route_item(1, 2, Some(3)), ItemRoute::Skip);
    assert_eq!(route_item(1, 2, Some(1)), ItemRoute::Transfer);
    assert!(reference_at_destination(1, None, 2));
    assert!(reference_at_destination(0, Some(2), 2));
    assert!(!reference_at_destination(0, Some(1), 2));
    let moved = finish_item(true, false, true, true, 10);
    assert!(!moved.skipped && !moved.cleanup_destination && moved.bytes == 10);
    let raced = finish_item(true, false, true, false, 10);
    assert!(raced.skipped && raced.cleanup_destination && raced.bytes == 0);
    let skipped = finish_item(false, true, false, false, 10);
    assert!(skipped.skipped && !skipped.cleanup_destination && skipped.bytes == 0);
    assert_eq!(finish_item(true, false, false, true, -5).bytes, 0);
}

#[test]
fn migration_commands() {
    assert_eq!(cancel_effect("queued").unwrap(), CancelEffect::CancelNow);
    assert_eq!(cancel_effect("running").unwrap(), CancelEffect::RequestCancel);
    assert!(cancel_effect("completed").is_err());
    assert_eq!(retry_plan("cancelled", false).unwrap(), true);
    assert_eq!(retry_plan("partial_failed", false).unwrap(), false);
    assert_eq!(message(retry_plan("completed", false).unwrap_err()), "Only failed or cancelled migrations can be retried");
    assert_eq!(retry_plan("failed", true).unwrap_err().status(), 409);
    assert!(check_distinct_profiles(1, 1).is_err());
    assert!(check_distinct_profiles(1, 2).is_ok());
    assert!(check_no_active_migration(true).is_err());
    assert!(check_activation_allowed(false).is_ok());
    assert_eq!(check_activation_allowed(true).unwrap_err().status(), 409);
    assert_eq!(message(check_profile_deletable(true, 0).unwrap_err()), "The active storage profile cannot be deleted");
    assert_eq!(check_profile_deletable(false, 2).unwrap_err().status(), 409);
    assert!(check_profile_deletable(false, 0).is_ok());
}

#[test]
fn migration_totals_saturate() {
    assert_eq!(migration_total_bytes(&vec![10, -3, 5]), 15);
    assert_eq!(migration_total_bytes(&vec![i64::MAX, 1]), i64::MAX);
    assert_eq!(migration_total_bytes(&vec![]), 0);
    let mut tally = EnqueueTally::new();
    tally.record(7);
    tally.record(-1);
    assert_eq!((tally.added, tally.bytes), (2, 7));
}

#[test]
fn migrations_finish_after_two_quiet_scans() {
    let mut run = MigrationRun::start();
    let steps = [
        (RunEvent::Loaded { running: true, cancel_requested: false }, RunAction::Claim),
        (RunEvent::Claimed(true), RunAction::Load),
        (RunEvent::Loaded { running: true, cancel_requested: false }, RunAction::Claim),
        (RunEvent::Claimed(false), RunAction::Enqueue),
        (RunEvent::Enqueued(0), RunAction::CountPending),
        (RunEvent::Pending(2), RunAction::SleepThenLoad),
        (RunEvent::Loaded { running: true, cancel_requested: false }, RunAction::Claim),
        (RunEvent::Claimed(false), RunAction::Enqueue),
        (RunEvent::Enqueued(0), RunAction::CountPending),
        (RunEvent::Pending(0), RunAction::SleepThenLoad),
        (RunEvent::Loaded { running: true, cancel_requested: false }, RunAction::Claim),
        (RunEvent::Claimed(false), RunAction::Enqueue),
        (RunEvent::Enqueued(0), RunAction::CountPending),
        (RunEvent::Pending(0), RunAction::Enqueue),
        (RunEvent::Enqueued(0), RunAction::CountFailed),
        (RunEvent::Failed(1), RunAction::FinishPartialFailed),
    ];
    for (event, expected) in steps {
        let (next, action) = run_step(&run, event);
        assert_eq!(action, expected);
        run = next;
    }
    let mut late = MigrationRun::start();
    for event in [
        RunEvent::Loaded { running: true, cancel_requested: false },
        RunEvent::Claimed(false),
        RunEvent::Enqueued(0),
        RunEvent::Pending(0),
        RunEvent::Loaded { running: true, cancel_requested: false },
        RunEvent::Claimed(false),
        RunEvent::Enqueued(0),
        RunEvent::Pending(0),
    ] {
        late = run_step(&late, event).0;
    }
    assert_eq!(late.phase, RunPhase::Recheck);
    let (after, action) = run_step(&late, RunEvent::Enqueued(3));
    assert_eq!(action, RunAction::Load);
    assert_eq!(after.empty_scans, 0);
    let cancelled = run_step(&MigrationRun::start(), RunEvent::Loaded { running: true, cancel_requested: true });
    assert_eq!(cancelled.1, RunAction::FinishCancelled);
    let stopped = run_step(&MigrationRun::start(), RunEvent::Loaded { running: false, cancel_requested: true });
    assert_eq!(stopped.1, RunAction::Stop);
}

#[test]
fn uploads_follow_the_cutover() {
    assert_eq!(cutover_decision(1, Some(1)).unwrap(), CutoverDecision::Record);
    assert_eq!(cutover_decision(1, Some(2)).unwrap(), CutoverDecision::Relay(2));
    assert_eq!(message(cutover_decision(1, None).unwrap_err()), "No active storage profile configured");
}

#[test]
fn multipart_uploads_are_tracked() {
    let mut upload = UploadTracker::new(10);
    upload.on_platform("linux".to_owned());
    upload.on_file_start(None, None).unwrap();
    assert_eq!(message(upload.on_file_start(Some("x"), None).unwrap_err()), "Only one file field is allowed");
    upload.on_chunk(6).unwrap();
    upload.on_chunk(4).unwrap();
    let file = upload.finish().unwrap();
    assert_eq!((file.platform.as_str(), file.file_name.as_str(), file.content_type.as_str(), file.size),
        ("linux", "artifact.bin", "application/octet-stream", 10));
    let mut too_big = UploadTracker::new(3);
    too_big.on_file_start(Some("a.zip"), Some("application/zip")).unwrap();
    assert_eq!(message(too_big.on_chunk(4).unwrap_err()), "Upload exceeds configured maximum size");
    assert_eq!(message(UploadTracker::new(1).finish().unwrap_err()), "file is required");
    let mut no_platform = UploadTracker::new(1);
    no_platform.on_file_start(None, None).unwrap();
    assert_eq!(message(no_platform.finish().unwrap_err()), "platform is required");
    let mut bad_platform = UploadTracker::new(1);
    bad_platform.on_platform("Linux".to_owned());
    bad_platform.on_file_start(None, None).unwrap();
    assert!(bad_platform.finish().is_err());
}

// ---------------------------------------------------------------- listings

#[test]
fn listings_and_pages() {
    let page = Page::all(vec![1, 2, 3]);
    assert_eq!((page.total, page.page, page.page_size), (3, 1, 3));
    let empty: Page<u8> = Page::all(Vec::new());
    assert_eq!((empty.total, empty.page_size), (0, 1));
    let user = Actor { id: 7, role: "user".to_owned() };
    let admin = Actor { id: 1, role: "admin".to_owned() };
    let query = AppQuery { page: Some(3), page_size: Some(500), name: Some(" demo ".to_owned()), status: Some("archived".to_owned()), owner_id: Some(9) };
    let params = app_list_params(&query, &user);
    assert_eq!((params.page, params.page_size, params.offset), (3, 100, 200));
    assert_eq!(params.status, None);
    assert_eq!(params.name_pattern.as_deref(), Some("%demo%"));
    assert_eq!(params.owner, Some(7));
    let defaults = AppQuery { page: Some(-2), page_size: None, name: Some("  ".to_owned()), status: Some("deleted".to_owned()), owner_id: Some(9) };
    let params = app_list_params(&defaults, &admin);
    assert_eq!((params.page, params.page_size, params.offset), (1, 20, 0));
    assert_eq!(params.status.as_deref(), Some("deleted"));
    assert_eq!(params.name_pattern, None);
    assert_eq!(params.owner, Some(9));
}

#[test]
fn error_statuses() {
    assert_eq!(ApiError::validation("v").status(), 400);
    assert_eq!(ApiError::unauthorized("u").status(), 401);
    assert_eq!(ApiError::forbidden("f").status(), 403);
    assert_eq!(ApiError::not_found("n").status(), 404);
    assert_eq!(ApiError::conflict("c").status(), 409);
    assert_eq!(ApiError::internal("i").status(), 500);
    assert_eq!(ApiError::internal("i").message(), "i");
}

#[test]
fn object_hasher_counts_and_digests_what_it_is_fed() {
    let empty = ObjectHasher::new().finish();
    assert_eq!(empty.size_bytes, 0);
    assert_eq!(empty.sha256, "e3b0c44298fc1c149afbf4c8996fb92427ae41e4649b934ca495991b7852b855");
    let mut whole = ObjectHasher::new();
    whole.feed(b"abc");
    let whole = whole.finish();
    assert_eq!(whole.size_bytes, 3);
    assert_eq!(whole.sha256, "ba7816bf8f01cfea414140de5dae2223b00361a396177a9cb410ff61f20015ad");
    let mut pieces = ObjectHasher::new();
    pieces.feed(b"a");
    pieces.feed(b"");
    pieces.feed(b"bc");
    assert_eq!(pieces.finish(), whole);
    let mut payload = ObjectHasher::new();
    payload.feed(b"migration ");
    payload.feed(b"payload");
    let payload = payload.finish();
    assert_eq!(payload.size_bytes, 17);
    assert_eq!(payload.sha256, sha256_hex(b"migration payload"));
}

#[test]
fn listing_offsets_must_fit() {
    let query = |page: Option<i64>, page_size: Option<i64>| AppQuery {
        page,
        page_size,
        name: None,
        status: None,
        owner_id: None,
    };
    assert!(list_offset_fits(&query(None, None)));
    assert!(list_offset_fits(&query(Some(-5), Some(1000))));
    assert!(list_offset_fits(&query(Some(i64::MAX), Some(1))));
    assert!(!list_offset_fits(&query(Some(i64::MAX), Some(2))));
    assert!(list_offset_fits(&query(Some(i64::MAX / 100 + 1), Some(100))));
    assert!(!list_offset_fits(&query(Some(i64::MAX / 100 + 2), Some(100))));
}

#[test]
fn release_status_is_checked_before_artifacts_are_counted() {
    assert!(check_release_status("draft", ReleaseAction::Publish).is_ok());
    assert_eq!(message(check_release_status("published", ReleaseAction::Publish).unwrap_err()),
        "Only a draft release can be published");
    assert!(check_release_status("published", ReleaseAction::Withdraw).is_ok());
    assert_eq!(message(check_release_status("draft", ReleaseAction::Withdraw).unwrap_err()),
        "Only a published release can be withdrawn");
}

#[test]
fn only_failed_or_cancelled_migrations_are_retryable() {
    assert!(check_retryable_status("failed").is_ok());
    assert!(check_retryable_status("cancelled").is_ok());
    for status in ["queued", "running", "completed"] {
        let error = check_retryable_status(status).unwrap_err();
        assert_eq!(error.status(), 400);
        assert_eq!(message(error), "Only failed or cancelled migrations can be retried");
    }
}
