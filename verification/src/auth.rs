use vstd::prelude::*;
use argon2::password_hash::{rand_core::OsRng, PasswordHash, PasswordHasher, PasswordVerifier, SaltString};
use crate::error::{is_forbidden, is_internal, is_unauthorized, is_validation, ApiError};
use crate::validate::validate_password;

verus! {

/// The name of the session cookie.
pub const SESSION_COOKIE: &'static str = "update_session";

/// Whether `argon2` accepts `password` against the PHC string `hash`:
/// `PasswordHash::new(hash)` parses and `Argon2::default().verify_password`
/// succeeds with the parameters the string records.
pub uninterp spec fn argon2_verifies(hash: Seq<char>, password: Seq<char>) -> bool;

/// The longest password that argon2 hashes (`argon2::MAX_PWD_LEN`, in bytes).
pub open spec fn argon2_max_password() -> nat {
    0xFFFF_FFFF
}

/// `Argon2::default().hash_password` of the UTF-8 bytes of `password` with a
/// fresh `SaltString::generate(&mut OsRng)`, as a PHC string; the error's
/// text where hashing fails. The source refuses only a password longer than
/// `MAX_PWD_LEN` (the generated 16-byte salt is always within bounds). The
/// salt is chance, so only this is stated of a hash: verification with the
/// same password accepts it. `OsRng` panics where the operating system gives
/// no entropy, which no `requires` can rule out.
#[verifier::external_body]
pub(crate) fn argon2_hash(password: &str) -> (r: Result<String, String>)
    ensures
        r is Ok <==> vstd::utf8::encode_utf8(password@).len() <= argon2_max_password(),
        r matches Ok(h) ==> argon2_verifies(h@, password@),
{
    let salt = SaltString::generate(&mut OsRng);
    argon2::Argon2::default()
        .hash_password(password.as_bytes(), &salt)
        .map(|v| v.to_string())
        .map_err(|e| e.to_string())
}

/// `PasswordHash::new(hash)` and then `Argon2::default().verify_password` of
/// the UTF-8 bytes of `password`; `false` where either fails.
#[verifier::external_body]
pub(crate) fn argon2_verify(hash: &str, password: &str) -> (r: bool)
    ensures
        r == argon2_verifies(hash@, password@),
{
    PasswordHash::new(hash)
        .ok()
        .and_then(|parsed| argon2::Argon2::default().verify_password(password.as_bytes(), &parsed).ok())
        .is_some()
}

/// Hashes a password for storage, with a fresh random salt: it succeeds for
/// every password of at most `argon2::MAX_PWD_LEN` bytes, and the hash
/// verifies against the same password.
pub fn password_hash(password: &str) -> (r: Result<String, ApiError>)
    ensures
        r is Ok <==> vstd::utf8::encode_utf8(password@).len() <= argon2_max_password(),
        r matches Ok(h) ==> argon2_verifies(h@, password@),
        r matches Err(e) ==> e is Internal,
{
    match argon2_hash(password) {
        Ok(h) => Ok(h),
        Err(message) => Err(ApiError::Internal(message)),
    }
}

/// Whether `password` matches the stored `hash`.
pub fn verify_password(hash: &str, password: &str) -> (r: bool)
    ensures
        r == argon2_verifies(hash@, password@),
{
    argon2_verify(hash, password)
}

/// Compares two byte strings in time that depends on their lengths only.
pub fn constant_time_eq(a: &[u8], b: &[u8]) -> (r: bool)
    ensures
        r == (a@ == b@),
{
    if a.len() != b.len() {
        return false;
    }
    let mut acc: u8 = 0;
    let mut i: usize = 0;
    while i < a.len()
        invariant
            i <= a@.len() == b@.len(),
            acc == 0 <==> forall|j: int| 0 <= j < i ==> a@[j] == b@[j],
        decreases a@.len() - i,
    {
        let x = a[i];
        let y = b[i];
        let next = acc | (x ^ y);
        assert((acc | (x ^ y)) == 0 <==> (acc == 0 && x == y)) by (bit_vector);
        proof {
            if next == 0 {
                assert forall|j: int| 0 <= j < i + 1 implies a@[j] == b@[j] by {
                    if j < i {
                    }
                }
            } else if acc == 0 {
                assert(a@[i as int] != b@[i as int]);
            } else {
                let k = choose|k: int| 0 <= k < i && a@[k] != b@[k];
                assert(0 <= k < i + 1 && a@[k] != b@[k]);
            }
        }
        acc = next;
        i = i + 1;
    }
    proof {
        if acc == 0 {
            assert(a@ =~= b@);
        }
    }
    acc == 0
}

proof fn lemma_utf8_injective(a: Seq<char>, b: Seq<char>)
    ensures
        vstd::utf8::encode_utf8(a) == vstd::utf8::encode_utf8(b) <==> a == b,
{
    vstd::utf8::encode_utf8_decode_utf8(a);
    vstd::utf8::encode_utf8_decode_utf8(b);
}

/// Accepts a state-changing request only where it carries the session's
/// CSRF token (`supplied`, the `x-csrf-token` header where it is readable
/// text): present, not empty and equal to it.
pub fn require_csrf(supplied: Option<&str>, csrf: &str) -> (r: Result<(), ApiError>)
    ensures
        r is Ok <==> (supplied matches Some(s) && s@.len() > 0 && s@ == csrf@),
        r matches Err(e) ==> is_forbidden(e, "Invalid CSRF token"@),
{
    let supplied = match supplied {
        Some(s) => s,
        None => "",
    };
    proof {
        lemma_utf8_injective(supplied@, csrf@);
        reveal_strlit("");
    }
    if supplied.is_empty() || !constant_time_eq(supplied.as_bytes(), csrf.as_bytes()) {
        return Err(ApiError::forbidden("Invalid CSRF token"));
    }
    Ok(())
}

/// The token of the session cookie, where the request carries one.
pub fn session_token(cookie: Option<&str>) -> (r: Result<String, ApiError>)
    ensures
        r is Ok <==> cookie is Some,
        r matches Ok(t) ==> t@ == cookie->0@,
        r matches Err(e) ==> is_unauthorized(e, "Login required"@),
{
    match cookie {
        Some(c) => Ok(c.to_owned()),
        None => Err(ApiError::unauthorized("Login required")),
    }
}

/// The user of a session, where a live session of an enabled user was found.
pub fn session_user<T>(found: Option<T>) -> (r: Result<T, ApiError>)
    ensures
        r is Ok <==> found is Some,
        r matches Ok(u) ==> found == Some(u),
        r matches Err(e) ==> is_unauthorized(e, "Session expired"@),
{
    match found {
        Some(u) => Ok(u),
        None => Err(ApiError::unauthorized("Session expired")),
    }
}

/// The account that a login names, as the login check reads it.
#[derive(Debug)]
pub struct LoginAccount {
    pub enabled: bool,
    pub password_hash: String,
}

/// Accepts a login only for an existing, enabled account whose password
/// matches; any other case gets the same answer.
pub fn check_login(account: Option<&LoginAccount>, password: &str) -> (r: Result<(), ApiError>)
    ensures
        r is Ok <==> (account matches Some(a) && a.enabled && argon2_verifies(
            a.password_hash@,
            password@,
        )),
        r matches Err(e) ==> is_unauthorized(e, "Invalid username or password"@),
{
    match account {
        Some(a) => if a.enabled && verify_password(a.password_hash.as_str(), password) {
            Ok(())
        } else {
            Err(ApiError::unauthorized("Invalid username or password"))
        },
        None => Err(ApiError::unauthorized("Invalid username or password")),
    }
}

/// Accepts a change of one's own password: the new one must not be empty,
/// and the current one must match the stored hash.
pub fn check_password_change(stored_hash: &str, current: &str, new_password: &str) -> (r: Result<(), ApiError>)
    ensures
        r is Ok <==> (new_password@.len() > 0 && argon2_verifies(stored_hash@, current@)),
        new_password@.len() == 0 ==> (r matches Err(e) && is_validation(e, "Password must not be empty"@)),
        new_password@.len() > 0 && !argon2_verifies(stored_hash@, current@) ==> (r matches Err(e)
            && is_forbidden(e, "Current password is incorrect"@)),
{
    validate_password(new_password)?;
    if !verify_password(stored_hash, current) {
        return Err(ApiError::forbidden("Current password is incorrect"));
    }
    Ok(())
}

/// The attributes of a cookie that the service sets.
#[derive(Debug)]
pub struct CookieSpec {
    pub name: String,
    pub value: String,
    pub path: String,
    pub http_only: bool,
    /// `SameSite=Lax` where set; no `SameSite` attribute otherwise.
    pub same_site_lax: bool,
    /// The `Secure` attribute where it is set explicitly.
    pub secure: Option<bool>,
    /// `Max-Age=0`: the browser drops the cookie at once.
    pub expire_now: bool,
}

/// The session cookie that carries `token`: for the whole site, hidden from
/// scripts, `SameSite=Lax`, secure where the service is configured so.
pub fn session_cookie(secure: bool, token: &str) -> (c: CookieSpec)
    ensures
        c.name@ == SESSION_COOKIE@,
        c.value@ == token@,
        c.path@ == "/"@,
        c.http_only,
        c.same_site_lax,
        c.secure == Some(secure),
        !c.expire_now,
{
    CookieSpec {
        name: SESSION_COOKIE.to_owned(),
        value: token.to_owned(),
        path: "/".to_owned(),
        http_only: true,
        same_site_lax: true,
        secure: Some(secure),
        expire_now: false,
    }
}

/// The cookie that ends a session in the browser: the session cookie,
/// emptied and expired.
pub fn clear_session_cookie() -> (c: CookieSpec)
    ensures
        c.name@ == SESSION_COOKIE@,
        c.value@ == ""@,
        c.path@ == "/"@,
        c.http_only,
        !c.same_site_lax,
        c.secure is None,
        c.expire_now,
{
    CookieSpec {
        name: SESSION_COOKIE.to_owned(),
        value: "".to_owned(),
        path: "/".to_owned(),
        http_only: true,
        same_site_lax: false,
        secure: None,
        expire_now: true,
    }
}

} // verus!
