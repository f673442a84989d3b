use vstd::prelude::*;
use crate::codec::{
    hex_encode, hex_lower, lemma_hex_lower_len, sha256_fed, sha256_of, sha256_stream_finish,
    sha256_stream_new, sha256_stream_update, Sha256Stream,
};
use crate::error::{is_conflict, is_not_found, is_validation, ApiError};
use crate::text::{chars_of, is_blank, is_blank_str, str_equals, trim, trim_bounds, CharClass};

verus! {

/// Configuration of a storage profile on the local disk.
#[derive(Debug)]
pub struct LocalConfig {
    pub root: String,
}

/// Configuration of a storage profile in an S3-compatible bucket.
#[derive(Debug)]
pub struct S3Config {
    pub endpoint: Option<String>,
    pub region: String,
    pub bucket: String,
    pub prefix: String,
    pub path_style: bool,
}

/// Access credentials of an S3 storage profile.
#[derive(Debug)]
pub struct S3Secret {
    pub access_key: String,
    pub secret_key: String,
}

/// Where a download is served from: a file of the local disk, or a
/// presigned URL to redirect to.
#[derive(Debug)]
pub enum DownloadSource {
    Local(String),
    Redirect(String),
}

/// Size and lower-case hexadecimal SHA-256 of a stored object.
#[derive(Debug, Clone, PartialEq, Eq)]
pub struct ObjectStats {
    pub size_bytes: u64,
    pub sha256: String,
}

/// Whether a migration copied an object or found it already in place.
#[derive(Debug, Clone, Copy, PartialEq, Eq, Structural)]
pub enum TransferOutcome {
    Copied,
    AlreadyPresent,
}

/// The storage backends the service knows.
#[derive(Debug, Clone, Copy, PartialEq, Eq, Structural)]
pub enum Backend {
    Local,
    S3,
}

/// The backend that `name` names.
pub open spec fn spec_backend(name: Seq<char>) -> Option<Backend> {
    if name == "local"@ {
        Some(Backend::Local)
    } else if name == "s3"@ {
        Some(Backend::S3)
    } else {
        None
    }
}

/// The backend that a profile names, where it is one the service knows.
pub fn backend_of(name: &str) -> (r: Option<Backend>)
    ensures
        r == spec_backend(name@),
{
    if str_equals(name, "local") {
        Some(Backend::Local)
    } else if str_equals(name, "s3") {
        Some(Backend::S3)
    } else {
        None
    }
}

// ---------------------------------------------------------------------------
// Object keys on the local disk

/// `s` holds a path segment `..` at `i`.
pub open spec fn dot_dot_at(s: Seq<char>, i: int) -> bool {
    &&& 0 <= i
    &&& i + 2 <= s.len()
    &&& s[i] == '.'
    &&& s[i + 1] == '.'
    &&& (i == 0 || s[i - 1] == '/')
    &&& (i + 2 == s.len() || s[i + 2] == '/')
}

/// A relative path whose every component is a plain name, as
/// `std::path::Path::components` reads it: not empty, not rooted, no `..`
/// segment, and not starting with a `.` segment.
pub open spec fn valid_object_key(key: Seq<char>) -> bool {
    &&& key.len() > 0
    &&& key[0] != '/'
    &&& !(key[0] == '.' && (key.len() == 1 || key[1] == '/'))
    &&& forall|i: int| !dot_dot_at(key, i)
}

/// `root` joined with `key` (`PathBuf::join`): a `/` between them where
/// `root` is not empty and does not already end with one.
pub open spec fn joined_path(root: Seq<char>, key: Seq<char>) -> Seq<char> {
    if root.len() > 0 && root.last() != '/' {
        root + seq!['/'] + key
    } else {
        root + key
    }
}

/// The file of the local profile rooted at `root` that holds `object_key`;
/// a key that could reach outside the root is refused.
pub fn checked_local_path(root: &str, object_key: &str) -> (r: Result<String, ApiError>)
    ensures
        r is Ok <==> valid_object_key(object_key@),
        r matches Ok(p) ==> p@ == joined_path(root@, object_key@),
        r matches Err(e) ==> is_validation(e, "Invalid object key"@),
{
    let key = chars_of(object_key);
    let n = key.len();
    if n == 0 || key[0] == '/' || (key[0] == '.' && (n == 1 || key[1] == '/')) {
        return Err(ApiError::validation("Invalid object key"));
    }
    let mut i: usize = 0;
    while i < n
        invariant
            n == key@.len(),
            key@ == object_key@,
            i <= n,
            forall|j: int| 0 <= j < i ==> !dot_dot_at(key@, j),
        decreases n - i,
    {
        if n - i >= 2 && key[i] == '.' && key[i + 1] == '.' && (i == 0 || key[i - 1] == '/') && (
        n - i == 2 || key[i + 2] == '/') {
            proof {
                assert(dot_dot_at(object_key@, i as int));
            }
            return Err(ApiError::validation("Invalid object key"));
        }
        i = i + 1;
    }
    assert(forall|j: int| !dot_dot_at(key@, j));
    let mut path = root.to_owned();
    let r = chars_of(root);
    if r.len() > 0 && r[r.len() - 1] != '/' {
        path.append("/");
    }
    path.append(object_key);
    proof {
        reveal_strlit("/");
        assert(path@ =~= joined_path(root@, object_key@));
    }
    Ok(path)
}

/// A key that `checked_local_path` accepts never leads out of the profile's
/// root: the path it gives starts with the root, followed (after a
/// separator) by the key itself, which names no parent directory and is not
/// rooted.
pub proof fn lemma_local_path_stays_under_root(root: Seq<char>, key: Seq<char>)
    requires
        valid_object_key(key),
    ensures
        joined_path(root, key).take(root.len() as int) == root,
        joined_path(root, key).skip(joined_path(root, key).len() - key.len()) == key,
        forall|i: int| !dot_dot_at(key, i),
        key[0] != '/',
{
    let p = joined_path(root, key);
    assert(p.take(root.len() as int) =~= root);
    assert(p.skip(p.len() - key.len()) =~= key);
}

// ---------------------------------------------------------------------------
// Object keys in a bucket

/// The key of an object in a bucket whose profile has `prefix`: the prefix
/// without leading or trailing slashes, a slash, then the object key; the
/// object key alone where the prefix has nothing else.
pub open spec fn spec_s3_key(prefix: Seq<char>, object_key: Seq<char>) -> Seq<char> {
    let p = trim(prefix, CharClass::Slash);
    if p.len() == 0 {
        object_key
    } else {
        p + seq!['/'] + object_key
    }
}

/// The key of `object_key` in a bucket whose profile has `prefix`.
pub fn s3_key(prefix: &str, object_key: &str) -> (r: String)
    ensures
        r@ == spec_s3_key(prefix@, object_key@),
{
    let v = chars_of(prefix);
    let (lo, hi) = trim_bounds(&v, CharClass::Slash);
    let ghost p = trim(prefix@, CharClass::Slash);
    assert(p == v@.subrange(lo as int, hi as int));
    if lo == hi {
        return object_key.to_owned();
    }
    let trimmed = prefix.substring_char(lo, hi);
    assert(trimmed@ == p);
    let mut key = trimmed.to_owned();
    let slash = "/";
    proof {
        reveal_strlit("/");
    }
    assert(slash@ == seq!['/']);
    key.append(slash);
    key.append(object_key);
    assert(key@ =~= p + seq!['/'] + object_key@);
    key
}

// ---------------------------------------------------------------------------
// Profile validation

/// What the secret of a new profile turned out to be.
#[derive(Debug)]
pub enum SecretInput {
    /// No secret was given.
    Absent,
    /// A secret was given that is not S3 credentials.
    Malformed,
    /// S3 credentials.
    Parsed(S3Secret),
}

/// Why a new storage profile is refused, in the order of the checks; `local`
/// and `s3` are its configuration read as each backend's, where it reads so.
pub open spec fn profile_refusal(
    backend: Seq<char>,
    local: Option<LocalConfig>,
    s3: Option<S3Config>,
    secret: SecretInput,
) -> Option<Seq<char>> {
    if backend == "local"@ {
        match local {
            None => Some("Local storage needs a root path"@),
            Some(c) => if is_blank(c.root@) {
                Some("Local storage root cannot be empty"@)
            } else {
                None
            },
        }
    } else if backend == "s3"@ {
        match s3 {
            None => Some("Invalid S3 configuration"@),
            Some(c) => if is_blank(c.region@) || is_blank(c.bucket@) {
                Some("S3 requires region and bucket"@)
            } else {
                match secret {
                    SecretInput::Absent => Some("S3 requires access credentials"@),
                    SecretInput::Malformed => Some("Invalid S3 credentials"@),
                    SecretInput::Parsed(s) => if is_blank(s.access_key@) || is_blank(
                        s.secret_key@,
                    ) {
                        Some("S3 credentials cannot be empty"@)
                    } else {
                        None
                    },
                }
            },
        }
    } else {
        Some("backend must be local or s3"@)
    }
}

/// Checks a new storage profile: a local one needs a root that is not
/// blank; an S3 one needs a region, a bucket, and both credentials.
pub fn validate_profile(
    backend: &str,
    local: Option<&LocalConfig>,
    s3: Option<&S3Config>,
    secret: &SecretInput,
) -> (r: Result<(), ApiError>)
    ensures
        r is Ok <==> profile_refusal(
            backend@,
            match local {
                Some(c) => Some(*c),
                None => None,
            },
            match s3 {
                Some(c) => Some(*c),
                None => None,
            },
            *secret,
        ) is None,
        r matches Err(e) ==> is_validation(
            e,
            profile_refusal(
                backend@,
                match local {
                    Some(c) => Some(*c),
                    None => None,
                },
                match s3 {
                    Some(c) => Some(*c),
                    None => None,
                },
                *secret,
            )->0,
        ),
{
    if str_equals(backend, "local") {
        match local {
            None => Err(ApiError::validation("Local storage needs a root path")),
            Some(c) => if is_blank_str(c.root.as_str()) {
                Err(ApiError::validation("Local storage root cannot be empty"))
            } else {
                Ok(())
            },
        }
    } else if str_equals(backend, "s3") {
        match s3 {
            None => Err(ApiError::validation("Invalid S3 configuration")),
            Some(c) => if is_blank_str(c.region.as_str()) || is_blank_str(c.bucket.as_str()) {
                Err(ApiError::validation("S3 requires region and bucket"))
            } else {
                match secret {
                    SecretInput::Absent => Err(ApiError::validation("S3 requires access credentials")),
                    SecretInput::Malformed => Err(ApiError::validation("Invalid S3 credentials")),
                    SecretInput::Parsed(s) => if is_blank_str(s.access_key.as_str())
                        || is_blank_str(s.secret_key.as_str()) {
                        Err(ApiError::validation("S3 credentials cannot be empty"))
                    } else {
                        Ok(())
                    },
                }
            },
        }
    } else {
        Err(ApiError::validation("backend must be local or s3"))
    }
}

/// An optional value that counts only where it is not blank (a content type,
/// a checksum to store as metadata, an S3 endpoint).
pub fn non_blank(value: Option<&str>) -> (r: Option<&str>)
    ensures
        r == (match value {
            Some(v) => if is_blank(v@) {
                None
            } else {
                Some(v)
            },
            None => None,
        }),
{
    match value {
        Some(v) => if is_blank_str(v) {
            None
        } else {
            Some(v)
        },
        None => None,
    }
}

// ---------------------------------------------------------------------------
// Object transfers between profiles

/// The size that an object must have: the recorded size, which cannot be
/// negative.
pub fn expected_object_size(size: i64) -> (r: Result<u64, ApiError>)
    ensures
        r is Ok <==> size >= 0,
        r matches Ok(n) ==> n == size,
        r matches Err(e) ==> is_validation(e, "Migration object size cannot be negative"@),
{
    if size < 0 {
        Err(ApiError::validation("Migration object size cannot be negative"))
    } else {
        Ok(size as u64)
    }
}

/// The byte count and SHA-256 of an object read piece by piece: a download
/// body, a file read in blocks or an uploaded part.
pub struct ObjectHasher {
    stream: Sha256Stream,
    size: u64,
}

/// `n` bytes counted in a `u64` that stops at its largest value.
pub open spec fn saturated_count(n: nat) -> u64 {
    if n > u64::MAX {
        u64::MAX
    } else {
        n as u64
    }
}

impl ObjectHasher {
    /// The bytes fed so far, in order.
    pub closed spec fn fed(&self) -> Seq<u8> {
        sha256_fed(self.stream)
    }

    /// The byte count kept so far.
    pub closed spec fn counted(&self) -> u64 {
        self.size
    }

    /// The count is that of the bytes fed.
    pub open spec fn wf(&self) -> bool {
        self.counted() == saturated_count(self.fed().len())
    }

    /// A hasher that has been fed nothing.
    pub fn new() -> (h: ObjectHasher)
        ensures
            h.wf(),
            h.fed() == Seq::<u8>::empty(),
    {
        ObjectHasher { stream: sha256_stream_new(), size: 0 }
    }

    /// Feeds the next piece of the object.
    pub fn feed(&mut self, chunk: &[u8])
        requires
            old(self).wf(),
        ensures
            final(self).wf(),
            final(self).fed() == old(self).fed() + chunk@,
            final(self).counted() == old(self).counted().saturating_add(chunk.len() as u64),
    {
        sha256_stream_update(&mut self.stream, chunk);
        self.size = self.size.saturating_add(chunk.len() as u64);
    }

    /// The statistics of everything fed: its size, saturated at the largest
    /// `u64`, and its lower-case hexadecimal SHA-256.
    pub fn finish(self) -> (s: ObjectStats)
        requires
            self.wf(),
        ensures
            s.size_bytes == saturated_count(self.fed().len()),
            s.sha256@ == hex_lower(sha256_of(self.fed())),
            s.sha256@.len() == 64,
    {
        let digest = sha256_stream_finish(self.stream);
        proof { lemma_hex_lower_len(digest@); }
        ObjectStats { size_bytes: self.size, sha256: hex_encode(digest.as_slice()) }
    }
}

/// The object has the expected size and checksum.
pub open spec fn stats_match(stats: ObjectStats, size: u64, sha256: Seq<char>) -> bool {
    stats.size_bytes == size && stats.sha256@ == sha256
}

/// Whether the object has the expected size and checksum.
pub fn matches_expected(stats: &ObjectStats, size: u64, sha256: &str) -> (r: bool)
    ensures
        r == stats_match(*stats, size, sha256@),
{
    stats.size_bytes == size && str_equals(stats.sha256.as_str(), sha256)
}

/// Accepts a migration source object only where it matches the artifact's
/// recorded size and checksum.
pub fn check_source_object(stats: &ObjectStats, size: u64, sha256: &str, object_key: &str) -> (r: Result<(), ApiError>)
    ensures
        r is Ok <==> stats_match(*stats, size, sha256@),
        r matches Err(e) ==> is_conflict(
            e,
            "Source object does not match artifact metadata: "@ + object_key@,
        ),
{
    if matches_expected(stats, size, sha256) {
        Ok(())
    } else {
        let mut message = "Source object does not match artifact metadata: ".to_owned();
        message.append(object_key);
        Err(ApiError::Conflict(message))
    }
}

/// Accepts a migrated object only where the copy at the destination matches
/// the artifact's recorded size and checksum.
pub fn check_destination_object(stats: &ObjectStats, size: u64, sha256: &str, object_key: &str) -> (r: Result<(), ApiError>)
    ensures
        r is Ok <==> stats_match(*stats, size, sha256@),
        r matches Err(e) ==> is_conflict(
            e,
            "Destination object failed integrity verification: "@ + object_key@,
        ),
{
    if matches_expected(stats, size, sha256) {
        Ok(())
    } else {
        let mut message = "Destination object failed integrity verification: ".to_owned();
        message.append(object_key);
        Err(ApiError::Conflict(message))
    }
}

/// Whether the destination already holds a correct copy: an object exists
/// there and matches the expected size and checksum.
pub fn destination_matches(stats: Option<&ObjectStats>, size: u64, sha256: &str) -> (r: bool)
    ensures
        r == (stats matches Some(s) && stats_match(*s, size, sha256@)),
{
    match stats {
        Some(s) => matches_expected(s, size, sha256),
        None => false,
    }
}

/// The statistics of a migrated object that must exist at the destination.
pub fn require_destination_object(stats: Option<ObjectStats>) -> (r: Result<ObjectStats, ApiError>)
    ensures
        r is Ok <==> stats is Some,
        r matches Ok(s) ==> stats == Some(s),
        r matches Err(e) ==> is_not_found(e, "Migration destination object not found"@),
{
    match stats {
        Some(s) => Ok(s),
        None => Err(ApiError::not_found("Migration destination object not found")),
    }
}

/// How a transfer ended: an upload where the destination did not already
/// hold the object.
pub fn transfer_outcome(already_present: bool) -> (r: TransferOutcome)
    ensures
        r == (if already_present {
            TransferOutcome::AlreadyPresent
        } else {
            TransferOutcome::Copied
        }),
{
    if already_present {
        TransferOutcome::AlreadyPresent
    } else {
        TransferOutcome::Copied
    }
}

} // verus!
