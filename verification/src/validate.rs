use vstd::prelude::*;
use crate::error::{is_forbidden, is_internal, is_validation, ApiError};
use crate::text::{is_blank, is_blank_str, str_equals};

verus! {

pub open spec fn is_ascii_digit(b: u8) -> bool {
    0x30 <= b <= 0x39
}

pub open spec fn is_ascii_lower(b: u8) -> bool {
    0x61 <= b <= 0x7a
}

pub open spec fn is_ascii_alnum(b: u8) -> bool {
    is_ascii_digit(b) || is_ascii_lower(b) || (0x41 <= b <= 0x5a)
}

/// A byte allowed in a user name: an ASCII letter or digit, `_` or `-`.
pub open spec fn is_name_byte(b: u8) -> bool {
    is_ascii_alnum(b) || b == 0x5f || b == 0x2d
}

/// A byte allowed in a platform slug: a lower-case ASCII letter, a digit,
/// `.`, `_` or `-`.
pub open spec fn is_slug_byte(b: u8) -> bool {
    is_ascii_lower(b) || is_ascii_digit(b) || b == 0x2e || b == 0x5f || b == 0x2d
}

pub open spec fn all_name_bytes(bytes: Seq<u8>) -> bool {
    forall|i: int| 0 <= i < bytes.len() ==> is_name_byte(#[trigger] bytes[i])
}

pub open spec fn all_slug_bytes(bytes: Seq<u8>) -> bool {
    forall|i: int| 0 <= i < bytes.len() ==> is_slug_byte(#[trigger] bytes[i])
}

/// The UTF-8 bytes of a text, which `str::len` counts.
pub open spec fn utf8(s: Seq<char>) -> Seq<u8> {
    vstd::utf8::encode_utf8(s)
}

/// A valid user name: 3 to 64 bytes, each an ASCII letter or digit, `_` or `-`.
pub open spec fn valid_username(name: Seq<char>) -> bool {
    3 <= utf8(name).len() <= 64 && all_name_bytes(utf8(name))
}

/// A valid platform slug: 1 to 64 bytes, each a lower-case ASCII letter, a
/// digit, `.`, `_` or `-`.
pub open spec fn valid_platform(platform: Seq<char>) -> bool {
    platform.len() > 0 && utf8(platform).len() <= 64 && all_slug_bytes(utf8(platform))
}

spec fn slug_code(v: u32) -> bool {
    (0x61 <= v <= 0x7a) || (0x30 <= v <= 0x39) || v == 0x2e || v == 0x5f || v == 0x2d
}

proof fn lemma_ascii_byte(v: u32)
    by (bit_vector)
    requires
        v <= 0x7f,
    ensures
        ((v & 0x7F) as u8) as u32 == v,
{
}

proof fn lemma_lead_bytes_high(v: u32)
    by (bit_vector)
    ensures
        (0xC0u8 | ((v >> 6) & 0x1F) as u8) >= 0xC0,
        (0xE0u8 | ((v >> 12) & 0x0F) as u8) >= 0xE0,
        (0xF0u8 | ((v >> 18) & 0x7) as u8) >= 0xF0,
{
}

proof fn lemma_slug_encoding(p: Seq<char>)
    ensures
        (forall|i: int| 0 <= i < p.len() ==> slug_code(#[trigger] p[i] as u32)) ==> {
            &&& utf8(p).len() == p.len()
            &&& all_slug_bytes(utf8(p))
        },
        all_slug_bytes(utf8(p)) ==> forall|i: int| 0 <= i < p.len() ==> slug_code(#[trigger] p[i] as u32),
    decreases p.len(),
{
    if p.len() > 0 {
        let rest = p.drop_first();
        lemma_slug_encoding(rest);
        let v = p[0] as u32;
        let head = vstd::utf8::encode_scalar(v);
        assert(utf8(p) == head + utf8(rest));
        lemma_lead_bytes_high(v);
        if forall|i: int| 0 <= i < p.len() ==> slug_code(#[trigger] p[i] as u32) {
            assert(slug_code(p[0] as u32));
            lemma_ascii_byte(v);
            assert forall|i: int| 0 <= i < rest.len() implies slug_code(#[trigger] rest[i] as u32) by {
                assert(rest[i] == p[i + 1]);
            }
            assert(head.len() == 1);
            assert forall|i: int| 0 <= i < utf8(p).len() implies is_slug_byte(#[trigger] utf8(p)[i]) by {
                if i > 0 {
                    assert(utf8(p)[i] == utf8(rest)[i - 1]);
                }
            }
        }
        if all_slug_bytes(utf8(p)) {
            assert(utf8(p)[0] == head[0]);
            assert(is_slug_byte(head[0]));
            assert(vstd::utf8::has_width_1_encoding(v));
            lemma_ascii_byte(v);
            assert forall|i: int| 0 <= i < utf8(rest).len() implies is_slug_byte(#[trigger] utf8(rest)[i]) by {
                assert(utf8(p)[i + head.len()] == utf8(rest)[i]);
            }
            assert forall|i: int| 0 <= i < p.len() implies slug_code(#[trigger] p[i] as u32) by {
                if i > 0 {
                    assert(rest[i - 1] == p[i]);
                }
            }
        }
    }
}

/// A platform slug, in characters: 1 to 64 of them, each a lower-case ASCII
/// letter, a digit, `.`, `_` or `-`.
pub proof fn lemma_valid_platform_chars(platform: Seq<char>)
    ensures
        valid_platform(platform) <==> {
            &&& 1 <= platform.len() <= 64
            &&& forall|i: int| 0 <= i < platform.len() ==> {
                let c = #[trigger] platform[i];
                ||| 'a' <= c <= 'z'
                ||| '0' <= c <= '9'
                ||| c == '.'
                ||| c == '_'
                ||| c == '-'
            }
        },
{
    lemma_slug_encoding(platform);
    assert forall|i: int| 0 <= i < platform.len() implies (slug_code(#[trigger] platform[i] as u32) <==> {
        let c = platform[i];
        ||| 'a' <= c <= 'z'
        ||| '0' <= c <= '9'
        ||| c == '.'
        ||| c == '_'
        ||| c == '-'
    }) by {
        let c = platform[i];
        vstd::utf8::char_u32_cast(c, c as u32);
        vstd::utf8::char_u32_cast('.', 0x2e);
        vstd::utf8::char_u32_cast('_', 0x5f);
        vstd::utf8::char_u32_cast('-', 0x2d);
        assert('a' as u32 == 0x61 && 'z' as u32 == 0x7a && '0' as u32 == 0x30 && '9' as u32 == 0x39);
        assert(('a' <= c <= 'z') <==> (0x61 <= c as u32 <= 0x7a));
        assert(('0' <= c <= '9') <==> (0x30 <= c as u32 <= 0x39));
    }
}

fn name_bytes_ok(bytes: &[u8]) -> (r: bool)
    ensures
        r == all_name_bytes(bytes@),
{
    let mut i: usize = 0;
    while i < bytes.len()
        invariant
            i <= bytes@.len(),
            forall|j: int| 0 <= j < i ==> is_name_byte(#[trigger] bytes@[j]),
        decreases bytes@.len() - i,
    {
        let b = bytes[i];
        if !((0x30 <= b && b <= 0x39) || (0x61 <= b && b <= 0x7a) || (0x41 <= b && b <= 0x5a)
            || b == 0x5f || b == 0x2d) {
            return false;
        }
        i = i + 1;
    }
    true
}

fn slug_bytes_ok(bytes: &[u8]) -> (r: bool)
    ensures
        r == all_slug_bytes(bytes@),
{
    let mut i: usize = 0;
    while i < bytes.len()
        invariant
            i <= bytes@.len(),
            forall|j: int| 0 <= j < i ==> is_slug_byte(#[trigger] bytes@[j]),
        decreases bytes@.len() - i,
    {
        let b = bytes[i];
        if !((0x61 <= b && b <= 0x7a) || (0x30 <= b && b <= 0x39) || b == 0x2e || b == 0x5f || b
            == 0x2d) {
            return false;
        }
        i = i + 1;
    }
    true
}

/// Accepts a user name of 3 to 64 bytes of ASCII letters, digits, `_` or `-`.
pub fn validate_username(value: &str) -> (r: Result<(), ApiError>)
    ensures
        r is Ok <==> valid_username(value@),
        r matches Err(e) ==> is_validation(
            e,
            "Username must be 3-64 characters of letters, numbers, _ or -"@,
        ),
{
    let len = value.as_bytes().len();
    if len >= 3 && len <= 64 && name_bytes_ok(value.as_bytes()) {
        Ok(())
    } else {
        Err(ApiError::validation("Username must be 3-64 characters of letters, numbers, _ or -"))
    }
}

/// Accepts any password that is not empty; there is no upper bound.
pub fn validate_password(value: &str) -> (r: Result<(), ApiError>)
    ensures
        r is Ok <==> value@.len() > 0,
        r matches Err(e) ==> is_validation(e, "Password must not be empty"@),
{
    if !value.is_empty() {
        Ok(())
    } else {
        Err(ApiError::validation("Password must not be empty"))
    }
}

/// Accepts the roles `admin` and `user`.
pub fn validate_role(value: &str) -> (r: Result<(), ApiError>)
    ensures
        r is Ok <==> (value@ == "admin"@ || value@ == "user"@),
        r matches Err(e) ==> is_validation(e, "role must be admin or user"@),
{
    if str_equals(value, "admin") || str_equals(value, "user") {
        Ok(())
    } else {
        Err(ApiError::validation("role must be admin or user"))
    }
}

/// The fields of an application that a user creates or edits.
#[derive(Debug)]
pub struct AppInput {
    pub name: String,
    pub description: String,
}

/// Accepts an application whose name is not blank and has at most 160 bytes,
/// and whose description has at most 10000 bytes.
pub fn validate_app_input(value: &AppInput) -> (r: Result<(), ApiError>)
    ensures
        r is Ok <==> (!is_blank(value.name@) && utf8(value.name@).len() <= 160 && utf8(
            value.description@,
        ).len() <= 10_000),
        r matches Err(e) ==> {
            if is_blank(value.name@) || utf8(value.name@).len() > 160 {
                is_validation(e, "Application name must be 1-160 characters"@)
            } else {
                is_validation(e, "Description must be at most 10000 characters"@)
            }
        },
{
    if is_blank_str(value.name.as_str()) || value.name.as_str().as_bytes().len() > 160 {
        return Err(ApiError::validation("Application name must be 1-160 characters"));
    }
    if value.description.as_str().as_bytes().len() > 10_000 {
        return Err(ApiError::validation("Description must be at most 10000 characters"));
    }
    Ok(())
}

/// Accepts a platform slug: 1 to 64 bytes of lower-case ASCII letters,
/// digits, `.`, `_` or `-`.
pub fn validate_platform(value: &str) -> (r: Result<(), ApiError>)
    ensures
        r is Ok <==> valid_platform(value@),
        r matches Err(e) ==> is_validation(e, "platform must be a 1-64 character lowercase slug"@),
{
    if !value.is_empty() && value.as_bytes().len() <= 64 && slug_bytes_ok(value.as_bytes()) {
        Ok(())
    } else {
        Err(ApiError::validation("platform must be a 1-64 character lowercase slug"))
    }
}

/// The storage migrations the service performs: S3 to S3, S3 to local disk,
/// and local disk to S3.
pub open spec fn supported_migration(source: Seq<char>, destination: Seq<char>) -> bool {
    ||| source == "s3"@ && destination == "s3"@
    ||| source == "s3"@ && destination == "local"@
    ||| source == "local"@ && destination == "s3"@
}

/// Accepts a migration between the given storage backends where it is one
/// the service performs.
pub fn validate_migration_direction(source: &str, destination: &str) -> (r: Result<(), ApiError>)
    ensures
        r is Ok <==> supported_migration(source@, destination@),
        r matches Err(e) ==> is_validation(
            e,
            "Storage migration supports S3 to S3, S3 to local, or local to S3"@,
        ),
{
    let from_s3 = str_equals(source, "s3");
    let from_local = str_equals(source, "local");
    let to_s3 = str_equals(destination, "s3");
    let to_local = str_equals(destination, "local");
    if (from_s3 && to_s3) || (from_s3 && to_local) || (from_local && to_s3) {
        Ok(())
    } else {
        Err(
            ApiError::validation(
                "Storage migration supports S3 to S3, S3 to local, or local to S3",
            ),
        )
    }
}

/// Accepts a login attempt that names a user (not blank) and a password
/// (not empty).
pub fn validate_login_input(username: &str, password: &str) -> (r: Result<(), ApiError>)
    ensures
        r is Ok <==> (!is_blank(username@) && password@.len() > 0),
        r matches Err(e) ==> is_validation(e, "Username and password are required"@),
{
    if is_blank_str(username) || password.is_empty() {
        Err(ApiError::validation("Username and password are required"))
    } else {
        Ok(())
    }
}

/// Accepts a new user: its name, then its password, then its role.
pub fn validate_new_user(username: &str, password: &str, role: &str) -> (r: Result<(), ApiError>)
    ensures
        r is Ok <==> (valid_username(username@) && password@.len() > 0 && (role@ == "admin"@
            || role@ == "user"@)),
        r matches Err(e) ==> {
            if !valid_username(username@) {
                is_validation(e, "Username must be 3-64 characters of letters, numbers, _ or -"@)
            } else if password@.len() == 0 {
                is_validation(e, "Password must not be empty"@)
            } else {
                is_validation(e, "role must be admin or user"@)
            }
        },
{
    validate_username(username)?;
    validate_password(password)?;
    validate_role(role)?;
    Ok(())
}

/// A signed-in user, as the access rules see it.
#[derive(Debug)]
pub struct Actor {
    pub id: u128,
    pub role: String,
}

/// The actor is an administrator.
pub open spec fn is_admin(actor: Actor) -> bool {
    actor.role@ == "admin"@
}

/// Accepts administrators only.
pub fn require_admin(actor: &Actor) -> (r: Result<(), ApiError>)
    ensures
        r is Ok <==> is_admin(*actor),
        r matches Err(e) ==> is_forbidden(e, "Administrator permission required"@),
{
    if str_equals(actor.role.as_str(), "admin") {
        Ok(())
    } else {
        Err(ApiError::forbidden("Administrator permission required"))
    }
}

/// The changes an administrator asks of a user account.
#[derive(Debug)]
pub struct UserUpdate {
    pub role: Option<String>,
    pub enabled: Option<bool>,
    pub password: Option<String>,
}

/// What makes an update of the account `target` by `actor` acceptable, in
/// the order the checks are made.
pub open spec fn update_refusal(actor: u128, target: u128, update: UserUpdate) -> Option<Seq<char>> {
    if update.role is None && update.enabled is None && update.password is None {
        Some("No user fields supplied"@)
    } else if update.role matches Some(role) && !(role@ == "admin"@ || role@ == "user"@) {
        Some("role must be admin or user"@)
    } else if update.password matches Some(p) && p@.len() == 0 {
        Some("Password must not be empty"@)
    } else if target == actor && update.enabled == Some(false) {
        Some("You cannot disable your own account"@)
    } else {
        None
    }
}

/// Checks an account update: at least one field, a known role, a non-empty
/// password, and no administrator disabling their own account.
pub fn check_user_update(actor: u128, target: u128, update: &UserUpdate) -> (r: Result<(), ApiError>)
    ensures
        r is Ok <==> update_refusal(actor, target, *update) is None,
        r matches Err(e) ==> is_validation(e, update_refusal(actor, target, *update)->0),
{
    if update.role.is_none() && update.enabled.is_none() && update.password.is_none() {
        return Err(ApiError::validation("No user fields supplied"));
    }
    if let Some(role) = &update.role {
        validate_role(role.as_str())?;
    }
    if let Some(password) = &update.password {
        validate_password(password.as_str())?;
    }
    if target == actor && update.enabled == Some(false) {
        return Err(ApiError::validation("You cannot disable your own account"));
    }
    Ok(())
}

/// After an account update, its sessions end where the account is disabled
/// or its password changed.
pub fn update_ends_sessions(enabled_after: bool, password_changed: bool) -> (r: bool)
    ensures
        r == (!enabled_after || password_changed),
{
    !enabled_after || password_changed
}

/// Accepts the first administrator that the configuration asks for, where
/// the service has no user yet: both a name and a password are required; the
/// name has at least 3 bytes of ASCII letters, digits, `_` or `-`; the
/// password is not empty.
pub fn validate_initial_admin(username: Option<&str>, password: Option<&str>) -> (r: Result<(), ApiError>)
    ensures
        r is Ok <==> (username matches Some(u) && password matches Some(p) && utf8(u@).len() >= 3
            && all_name_bytes(utf8(u@)) && p@.len() > 0),
        username is None ==> (r matches Err(e) && is_internal(
            e,
            "INITIAL_ADMIN_USERNAME is required when no users exist"@,
        )),
        username is Some && password is None ==> (r matches Err(e) && is_internal(
            e,
            "INITIAL_ADMIN_PASSWORD is required when no users exist"@,
        )),
        username matches Some(u) && password is Some && !(utf8(u@).len() >= 3 && all_name_bytes(
            utf8(u@),
        )) ==> (r matches Err(e) && is_internal(e, "INITIAL_ADMIN_USERNAME is invalid"@)),
        username matches Some(u) && password matches Some(p) && utf8(u@).len() >= 3
            && all_name_bytes(utf8(u@)) && p@.len() == 0 ==> (r matches Err(e) && is_internal(
            e,
            "INITIAL_ADMIN_PASSWORD must not be empty"@,
        )),
{
    let username = match username {
        Some(u) => u,
        None => return Err(ApiError::internal("INITIAL_ADMIN_USERNAME is required when no users exist")),
    };
    let password = match password {
        Some(p) => p,
        None => return Err(ApiError::internal("INITIAL_ADMIN_PASSWORD is required when no users exist")),
    };
    if username.as_bytes().len() < 3 || !name_bytes_ok(username.as_bytes()) {
        return Err(ApiError::internal("INITIAL_ADMIN_USERNAME is invalid"));
    }
    if password.is_empty() {
        return Err(ApiError::internal("INITIAL_ADMIN_PASSWORD must not be empty"));
    }
    Ok(())
}

/// Accepts a storage profile name that is not blank and has at most 100 bytes.
pub fn validate_profile_name(name: &str) -> (r: Result<(), ApiError>)
    ensures
        r is Ok <==> (!is_blank(name@) && utf8(name@).len() <= 100),
        r matches Err(e) ==> is_validation(e, "Storage profile name must be 1-100 characters"@),
{
    if is_blank_str(name) || name.as_bytes().len() > 100 {
        Err(ApiError::validation("Storage profile name must be 1-100 characters"))
    } else {
        Ok(())
    }
}

/// Accepts the new owner of an application only where it is an enabled user
/// (`None` where no such user exists).
pub fn check_new_owner(enabled: Option<bool>) -> (r: Result<(), ApiError>)
    ensures
        r is Ok <==> enabled == Some(true),
        r matches Err(e) ==> is_validation(e, "New owner must be an enabled user"@),
{
    match enabled {
        Some(true) => Ok(()),
        _ => Err(ApiError::validation("New owner must be an enabled user")),
    }
}

} // verus!
