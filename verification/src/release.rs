use vstd::prelude::*;
use crate::error::{is_validation, ApiError};
use crate::text::{str_equals, trim, trimmed, CharClass};
use crate::validate::{utf8, valid_platform, validate_platform};

verus! {

/// Whether `semver::Version::parse` accepts `text` (Semantic Versioning 2.0).
pub uninterp spec fn semver_parses(text: Seq<char>) -> bool;

/// The order of two versions that `semver::Version::parse` accepts, as
/// `Ord for semver::Version` gives it: -1, 0 or 1 for less, equal, greater.
pub uninterp spec fn semver_order(a: Seq<char>, b: Seq<char>) -> int;

/// `semver::Version::parse(text).is_ok()`. A version that parses compares
/// equal to itself (`Ord for semver::Version` is a total order).
#[verifier::external_body]
pub(crate) fn is_semver(text: &str) -> (r: bool)
    ensures
        r == semver_parses(text@),
        r ==> semver_order(text@, text@) == 0,
{
    semver::Version::parse(text).is_ok()
}

/// `Ord::cmp` of the two `semver::Version`s that `a` and `b` parse to, as
/// -1, 0 or 1. The order is the derived lexicographic order over major,
/// minor, patch, pre-release and build metadata, each a total order, so the
/// contract also states what a total order gives: comparing the other way
/// round gives the opposite answer, and `a <= b` carries every version at
/// most `a` to at most `b`.
#[verifier::external_body]
pub(crate) fn compare_semver(a: &str, b: &str) -> (r: i8)
    requires
        semver_parses(a@),
        semver_parses(b@),
    ensures
        r == semver_order(a@, b@),
        r == -1 || r == 0 || r == 1,
        semver_order(b@, a@) == -r,
        r <= 0 ==> forall|k: Seq<char>|
            semver_parses(k) && #[trigger] semver_order(k, a@) <= 0 ==> semver_order(k, b@) <= 0,
{
    let left = semver::Version::parse(a).unwrap();
    let right = semver::Version::parse(b).unwrap();
    match left.cmp(&right) {
        std::cmp::Ordering::Less => -1,
        std::cmp::Ordering::Equal => 0,
        std::cmp::Ordering::Greater => 1,
    }
}

/// The release channels: `stable` and `beta`.
pub open spec fn is_channel(channel: Seq<char>) -> bool {
    channel == "stable"@ || channel == "beta"@
}

/// Why a client's update check is refused, in the order of the checks.
pub open spec fn update_query_refusal(current: Seq<char>, channel: Seq<char>, platform: Seq<char>) -> Option<Seq<char>> {
    if !semver_parses(current) {
        Some("current_version must be valid SemVer"@)
    } else if !is_channel(channel) {
        Some("channel must be stable or beta"@)
    } else if !valid_platform(platform) {
        Some("platform must be a 1-64 character lowercase slug"@)
    } else {
        None
    }
}

/// Checks a client's update query: its current version is SemVer, its
/// channel is `stable` or `beta`, its platform a slug.
pub fn check_update_query(current_version: &str, channel: &str, platform: &str) -> (r: Result<(), ApiError>)
    ensures
        r is Ok <==> update_query_refusal(current_version@, channel@, platform@) is None,
        r matches Err(e) ==> is_validation(
            e,
            update_query_refusal(current_version@, channel@, platform@)->0,
        ),
{
    if !is_semver(current_version) {
        return Err(ApiError::validation("current_version must be valid SemVer"));
    }
    if !(str_equals(channel, "stable") || str_equals(channel, "beta")) {
        return Err(ApiError::validation("channel must be stable or beta"));
    }
    validate_platform(platform)
}

/// The fields of a release that a user creates or edits.
#[derive(Debug)]
pub struct ReleaseInput {
    pub version: String,
    pub channel: String,
    pub release_notes: String,
}

/// Why a release input is refused, in the order of the checks.
pub open spec fn release_input_refusal(input: ReleaseInput) -> Option<Seq<char>> {
    if !semver_parses(trim(input.version@, CharClass::WhiteSpace)) {
        Some("version must be valid SemVer"@)
    } else if !is_channel(input.channel@) {
        Some("channel must be stable or beta"@)
    } else if utf8(input.release_notes@).len() > 50_000 {
        Some("Release notes are too long"@)
    } else {
        None
    }
}

/// Checks a release: its trimmed version is SemVer, its channel `stable` or
/// `beta`, its notes at most 50000 bytes.
pub fn validate_release_input(value: &ReleaseInput) -> (r: Result<(), ApiError>)
    ensures
        r is Ok <==> release_input_refusal(*value) is None,
        r matches Err(e) ==> is_validation(e, release_input_refusal(*value)->0),
{
    let version = trimmed(value.version.as_str(), CharClass::WhiteSpace);
    if !is_semver(version.as_str()) {
        return Err(ApiError::validation("version must be valid SemVer"));
    }
    if !(str_equals(value.channel.as_str(), "stable") || str_equals(value.channel.as_str(), "beta")) {
        return Err(ApiError::validation("channel must be stable or beta"));
    }
    if value.release_notes.as_str().as_bytes().len() > 50_000 {
        return Err(ApiError::validation("Release notes are too long"));
    }
    Ok(())
}

/// A candidate offers an update over `current` where its version parses and
/// is greater.
pub open spec fn is_newer(current: Seq<char>, version: Seq<char>) -> bool {
    semver_parses(version) && semver_order(version, current) == 1
}

/// The candidate that an update check offers among `versions`: the greatest
/// of the newer ones; of equal versions, the last.
pub open spec fn latest_update(current: Seq<char>, versions: Seq<Seq<char>>) -> Option<int>
    decreases versions.len(),
{
    if versions.len() == 0 {
        None
    } else {
        let last = versions.len() - 1;
        let before = latest_update(current, versions.drop_last());
        if !is_newer(current, versions[last]) {
            before
        } else {
            match before {
                None => Some(last),
                Some(b) => if semver_order(versions[b], versions[last]) == 1 {
                    Some(b)
                } else {
                    Some(last)
                },
            }
        }
    }
}

/// The texts of `v`.
pub open spec fn views(v: Seq<String>) -> Seq<Seq<char>> {
    v.map_values(|s: String| s@)
}

proof fn lemma_latest_update_in_range(current: Seq<char>, versions: Seq<Seq<char>>)
    ensures
        latest_update(current, versions) matches Some(i) ==> 0 <= i < versions.len() && is_newer(
            current,
            versions[i],
        ),
    decreases versions.len(),
{
    if versions.len() > 0 {
        lemma_latest_update_in_range(current, versions.drop_last());
    }
}

/// Of the candidates that are newer than `current`, the one offered is
/// greater than every later one: among equal greatest versions, the last is
/// offered.
pub proof fn lemma_latest_update_last_of_greatest(current: Seq<char>, versions: Seq<Seq<char>>)
    ensures
        latest_update(current, versions) matches Some(i) ==> forall|k: int|
            i < k < versions.len() && is_newer(current, #[trigger] versions[k])
                ==> semver_order(versions[i], versions[k]) == 1,
    decreases versions.len(),
{
    if versions.len() > 0 {
        let before = versions.drop_last();
        lemma_latest_update_last_of_greatest(current, before);
        lemma_latest_update_in_range(current, before);
        if let Some(i) = latest_update(current, versions) {
            assert forall|k: int|
                i < k < versions.len() && is_newer(current, #[trigger] versions[k])
                implies semver_order(versions[i], versions[k]) == 1 by {
                if k < versions.len() - 1 {
                    assert(before[k] == versions[k]);
                    assert(before[i] == versions[i]);
                }
            }
        }
    }
}

/// Picks the release that a client on `current_version` is offered among
/// the published candidates whose versions are `versions`.
pub fn select_update(current_version: &str, versions: &Vec<String>) -> (r: Option<usize>)
    requires
        semver_parses(current_version@),
    ensures
        r matches Some(i) ==> latest_update(current_version@, views(versions@)) == Some(i as int),
        r is None ==> latest_update(current_version@, views(versions@)) is None,
        r matches Some(i) ==> i < versions@.len() && is_newer(current_version@, versions@[i as int]@),
        r matches Some(i) ==> forall|k: int|
            0 <= k < versions@.len() && is_newer(current_version@, #[trigger] versions@[k]@)
                ==> semver_order(versions@[k]@, versions@[i as int]@) <= 0,
        r is None ==> forall|k: int|
            0 <= k < versions@.len() ==> !is_newer(current_version@, #[trigger] versions@[k]@),
        r matches Some(i) ==> forall|k: int|
            i < k < versions@.len() && is_newer(current_version@, #[trigger] versions@[k]@)
                ==> semver_order(versions@[i as int]@, versions@[k]@) == 1,
{
    let mut best: Option<usize> = None;
    let mut i: usize = 0;
    while i < versions.len()
        invariant
            i <= versions@.len(),
            semver_parses(current_version@),
            best matches Some(b) ==> latest_update(current_version@, views(versions@).take(i as int))
                == Some(b as int),
            best is None ==> latest_update(current_version@, views(versions@).take(i as int)) is None,
            best matches Some(b) ==> b < i && semver_parses(versions@[b as int]@),
            best matches Some(b) ==> forall|k: int|
                0 <= k < i && is_newer(current_version@, #[trigger] versions@[k]@)
                    ==> semver_order(versions@[k]@, versions@[b as int]@) <= 0,
            best is None ==> forall|k: int|
                0 <= k < i ==> !is_newer(current_version@, #[trigger] versions@[k]@),
        decreases versions@.len() - i,
    {
        let ghost vs = views(versions@).take(i + 1);
        proof {
            assert(vs.drop_last() =~= views(versions@).take(i as int));
            assert(vs[i as int] == versions@[i as int]@);
            lemma_latest_update_in_range(current_version@, views(versions@).take(i as int));
        }
        let v = versions[i].as_str();
        if is_semver(v) && compare_semver(v, current_version) == 1 {
            match best {
                None => {
                    best = Some(i);
                },
                Some(b) => {
                    proof {
                        assert(views(versions@)[b as int] == versions@[b as int]@);
                        assert(vs[b as int] == versions@[b as int]@);
                    }
                    let order = compare_semver(versions[b].as_str(), v);
                    if order != 1 {
                        proof {
                            assert forall|k: int|
                                0 <= k < i + 1 && is_newer(current_version@, #[trigger] versions@[k]@)
                                implies semver_order(versions@[k]@, v@) <= 0 by {
                                if k < i {
                                    assert(semver_order(versions@[k]@, versions@[b as int]@) <= 0);
                                }
                            }
                        }
                        best = Some(i);
                    }
                },
            }
        }
        i = i + 1;
    }
    proof {
        assert(views(versions@).take(i as int) =~= views(versions@));
        lemma_latest_update_in_range(current_version@, views(versions@));
        lemma_latest_update_last_of_greatest(current_version@, views(versions@));
        if let Some(b) = best {
            assert forall|k: int|
                b < k < versions@.len() && is_newer(current_version@, #[trigger] versions@[k]@)
                implies semver_order(versions@[b as int]@, versions@[k]@) == 1 by {
                assert(views(versions@)[k] == versions@[k]@);
                assert(views(versions@)[b as int] == versions@[b as int]@);
            }
        }
    }
    best
}

// ---------------------------------------------------------------------------
// Release lifecycle

/// What a user asks of a release.
#[derive(Debug)]
pub enum ReleaseAction {
    /// Change its version, channel or notes.
    Edit,
    /// Make it available to clients.
    Publish,
    /// Take it back from clients.
    Withdraw,
    /// Remove it.
    Delete,
    /// Add an artifact to it.
    UploadArtifact,
    /// Remove one of its artifacts.
    DeleteArtifact,
}

/// The status of a release after an accepted action; `None` where the
/// release is gone.
pub open spec fn status_after(action: ReleaseAction) -> Option<Seq<char>> {
    match action {
        ReleaseAction::Publish => Some("published"@),
        ReleaseAction::Withdraw => Some("withdrawn"@),
        ReleaseAction::Delete => None,
        _ => Some("draft"@),
    }
}

/// Why an action on a release of the given status, with `artifacts`
/// artifacts, is refused.
pub open spec fn release_refusal(status: Seq<char>, action: ReleaseAction, artifacts: i64) -> Option<Seq<char>> {
    match action {
        ReleaseAction::Edit => if status != "draft"@ {
            Some("Only draft releases can be changed"@)
        } else {
            None
        },
        ReleaseAction::Publish => if status != "draft"@ {
            Some("Only a draft release can be published"@)
        } else if artifacts == 0 {
            Some("A release needs at least one artifact"@)
        } else {
            None
        },
        ReleaseAction::Withdraw => if status != "published"@ {
            Some("Only a published release can be withdrawn"@)
        } else {
            None
        },
        ReleaseAction::Delete => if status != "draft"@ {
            Some("Only draft releases can be deleted"@)
        } else {
            None
        },
        ReleaseAction::UploadArtifact => if status != "draft"@ {
            Some("Artifacts can only be changed on draft releases"@)
        } else {
            None
        },
        ReleaseAction::DeleteArtifact => if status != "draft"@ {
            Some("Artifacts can only be deleted from draft releases"@)
        } else {
            None
        },
    }
}

/// Whether a release of the given status admits the action at all, before
/// its artifacts are counted: the refusal that `release_step` gives on a
/// release that has artifacts.
pub fn check_release_status(status: &str, action: ReleaseAction) -> (r: Result<(), ApiError>)
    ensures
        r is Ok <==> release_refusal(status@, action, 1) is None,
        r matches Err(e) ==> is_validation(e, release_refusal(status@, action, 1)->0),
{
    match release_step(status, action, 1) {
        Ok(_) => Ok(()),
        Err(e) => Err(e),
    }
}

/// Decides an action on a release of the given status that has `artifacts`
/// artifacts: the status it will have (`None` where it is deleted), or why
/// the action is refused.
pub fn release_step(status: &str, action: ReleaseAction, artifacts: i64) -> (r: Result<Option<String>, ApiError>)
    ensures
        r is Ok <==> release_refusal(status@, action, artifacts) is None,
        r matches Ok(s) ==> match (s, status_after(action)) {
            (Some(a), Some(b)) => a@ == b,
            (None, None) => true,
            _ => false,
        },
        r matches Err(e) ==> is_validation(e, release_refusal(status@, action, artifacts)->0),
{
    let draft = str_equals(status, "draft");
    match action {
        ReleaseAction::Edit => if !draft {
            Err(ApiError::validation("Only draft releases can be changed"))
        } else {
            Ok(Some("draft".to_owned()))
        },
        ReleaseAction::Publish => if !draft {
            Err(ApiError::validation("Only a draft release can be published"))
        } else if artifacts == 0 {
            Err(ApiError::validation("A release needs at least one artifact"))
        } else {
            Ok(Some("published".to_owned()))
        },
        ReleaseAction::Withdraw => if !str_equals(status, "published") {
            Err(ApiError::validation("Only a published release can be withdrawn"))
        } else {
            Ok(Some("withdrawn".to_owned()))
        },
        ReleaseAction::Delete => if !draft {
            Err(ApiError::validation("Only draft releases can be deleted"))
        } else {
            Ok(None)
        },
        ReleaseAction::UploadArtifact => if !draft {
            Err(ApiError::validation("Artifacts can only be changed on draft releases"))
        } else {
            Ok(Some("draft".to_owned()))
        },
        ReleaseAction::DeleteArtifact => if !draft {
            Err(ApiError::validation("Artifacts can only be deleted from draft releases"))
        } else {
            Ok(Some("draft".to_owned()))
        },
    }
}

/// A withdrawn release accepts no action at all.
pub proof fn lemma_withdrawn_release_is_final(action: ReleaseAction, artifacts: i64)
    ensures
        release_refusal("withdrawn"@, action, artifacts) is Some,
{
    reveal_strlit("withdrawn");
    reveal_strlit("draft");
    reveal_strlit("published");
    assert("withdrawn"@[0] != "draft"@[0]);
    assert("withdrawn"@[0] != "published"@[0]);
}

/// The only action a published release accepts is its withdrawal.
pub proof fn lemma_published_release_only_withdraws(action: ReleaseAction, artifacts: i64)
    ensures
        release_refusal("published"@, action, artifacts) is None <==> action is Withdraw,
{
    reveal_strlit("draft");
    reveal_strlit("published");
    assert("published"@[0] != "draft"@[0]);
}

/// Only a draft release is edited, deleted or has its artifacts changed, and
/// only a draft release with at least one artifact is published.
pub proof fn lemma_only_drafts_change(status: Seq<char>, action: ReleaseAction, artifacts: i64)
    requires
        release_refusal(status, action, artifacts) is None,
        !(action is Withdraw),
    ensures
        status == "draft"@,
        action is Publish ==> artifacts != 0,
{
}

/// Refuses a new release for an application that is not active.
pub fn check_app_accepts_releases(app_status: &str) -> (r: Result<(), ApiError>)
    ensures
        r is Ok <==> app_status@ == "active"@,
        r matches Err(e) ==> is_validation(e, "Cannot create releases for deleted applications"@),
{
    if str_equals(app_status, "active") {
        Ok(())
    } else {
        Err(ApiError::validation("Cannot create releases for deleted applications"))
    }
}

/// The key under which an artifact's file is stored.
pub fn artifact_object_key(app_id: &str, release_id: &str, artifact_id: &str) -> (r: String)
    ensures
        r@ == "artifacts/"@ + app_id@ + "/"@ + release_id@ + "/"@ + artifact_id@,
{
    let mut key = "artifacts/".to_owned();
    key.append(app_id);
    key.append("/");
    key.append(release_id);
    key.append("/");
    key.append(artifact_id);
    key
}

/// The public download address of an artifact, under the service's base URL.
pub fn download_url(base_url: &str, artifact_id: &str) -> (r: String)
    ensures
        r@ == base_url@ + "/api/public/artifacts/"@ + artifact_id@ + "/download"@,
{
    let mut url = base_url.to_owned();
    url.append("/api/public/artifacts/");
    url.append(artifact_id);
    url.append("/download");
    url
}

} // verus!

verus! {

/// Answers a client's update check over the published candidates for its
/// application, channel and platform, whose versions are `versions`: the
/// query is checked first; then the candidate to offer, if any is newer.
pub fn find_update(current_version: &str, channel: &str, platform: &str, versions: &Vec<String>) -> (r: Result<Option<usize>, ApiError>)
    ensures
        r is Err <==> update_query_refusal(current_version@, channel@, platform@) is Some,
        r matches Err(e) ==> is_validation(
            e,
            update_query_refusal(current_version@, channel@, platform@)->0,
        ),
        r matches Ok(Some(i)) ==> i < versions@.len()
            && latest_update(current_version@, views(versions@)) == Some(i as int)
            && is_newer(current_version@, versions@[i as int]@),
        r matches Ok(None) ==> latest_update(current_version@, views(versions@)) is None,
        r matches Ok(Some(i)) ==> forall|k: int|
            0 <= k < versions@.len() && is_newer(current_version@, #[trigger] versions@[k]@)
                ==> semver_order(versions@[k]@, versions@[i as int]@) <= 0,
        r matches Ok(None) ==> forall|k: int|
            0 <= k < versions@.len() ==> !is_newer(current_version@, #[trigger] versions@[k]@),
        r matches Ok(Some(i)) ==> forall|k: int|
            i < k < versions@.len() && is_newer(current_version@, #[trigger] versions@[k]@)
                ==> semver_order(versions@[i as int]@, versions@[k]@) == 1,
{
    check_update_query(current_version, channel, platform)?;
    Ok(select_update(current_version, versions))
}

/// An update check whose version is SemVer and whose channel is `stable` or
/// `beta` is decided by the platform alone, by the slug rule that uploads
/// follow: it is accepted exactly when the platform is a valid slug, and
/// refused with the slug message otherwise. A version that does not parse is
/// refused first, then a channel other than `stable` and `beta`.
pub proof fn lemma_update_query_rules(current: Seq<char>, channel: Seq<char>, platform: Seq<char>)
    ensures
        !semver_parses(current) ==> update_query_refusal(current, channel, platform)
            == Some("current_version must be valid SemVer"@),
        semver_parses(current) && channel != "stable"@ && channel != "beta"@
            ==> update_query_refusal(current, channel, platform)
            == Some("channel must be stable or beta"@),
        semver_parses(current) && (channel == "stable"@ || channel == "beta"@) ==> {
            &&& (update_query_refusal(current, channel, platform) is None <==> valid_platform(platform))
            &&& (!valid_platform(platform) ==> update_query_refusal(current, channel, platform)
                == Some("platform must be a 1-64 character lowercase slug"@))
        },
{
}

/// A release input is refused for its version exactly when `semver` does not
/// parse the trimmed version, whatever else it holds; and it is accepted
/// exactly when the trimmed version parses, the channel is `stable` or
/// `beta`, and the notes take at most 50000 bytes.
pub proof fn lemma_release_input_rules(input: ReleaseInput)
    ensures
        release_input_refusal(input) == Some("version must be valid SemVer"@)
            <==> !semver_parses(trim(input.version@, CharClass::WhiteSpace)),
        release_input_refusal(input) is None <==> {
            &&& semver_parses(trim(input.version@, CharClass::WhiteSpace))
            &&& (input.channel@ == "stable"@ || input.channel@ == "beta"@)
            &&& utf8(input.release_notes@).len() <= 50_000
        },
{
    reveal_strlit("version must be valid SemVer");
    reveal_strlit("channel must be stable or beta");
    reveal_strlit("Release notes are too long");
    assert("version must be valid SemVer"@[0] != "channel must be stable or beta"@[0]);
    assert("version must be valid SemVer"@[0] != "Release notes are too long"@[0]);
}

/// Every action on a release but publishing is decided by its status alone:
/// the number of its artifacts plays no part.
pub proof fn lemma_release_actions_ignore_artifacts(
    status: Seq<char>,
    action: ReleaseAction,
    n: i64,
    m: i64,
)
    requires
        !(action is Publish),
    ensures
        release_refusal(status, action, n) == release_refusal(status, action, m),
{
}

/// The release lifecycle: a draft, and only a draft, can be edited, deleted
/// and have artifacts added or removed, whatever artifacts it has; a draft
/// is published exactly when it has an artifact; only a published release
/// can be withdrawn.
pub proof fn lemma_release_lifecycle(status: Seq<char>, n: i64)
    ensures
        release_refusal(status, ReleaseAction::Edit, n) is None <==> status == "draft"@,
        release_refusal(status, ReleaseAction::Delete, n) is None <==> status == "draft"@,
        release_refusal(status, ReleaseAction::UploadArtifact, n) is None <==> status == "draft"@,
        release_refusal(status, ReleaseAction::DeleteArtifact, n) is None <==> status == "draft"@,
        release_refusal(status, ReleaseAction::Publish, n) is None <==> (status == "draft"@ && n != 0),
        release_refusal(status, ReleaseAction::Withdraw, n) is None <==> status == "published"@,
{
}

/// What an accepted action leaves: a changed draft stays a draft and can be
/// changed again; a published release can be withdrawn and nothing else; a
/// withdrawn release admits no action at all.
pub proof fn lemma_release_status_after(action: ReleaseAction, next: ReleaseAction, n: i64)
    ensures
        (action is Edit || action is UploadArtifact || action is DeleteArtifact)
            ==> status_after(action) == Some("draft"@),
        status_after(ReleaseAction::Publish) matches Some(t) && (release_refusal(t, next, n) is None
            <==> next is Withdraw),
        status_after(ReleaseAction::Withdraw) matches Some(t) && release_refusal(t, next, n) is Some,
        status_after(ReleaseAction::Delete) is None,
{
    reveal_strlit("draft");
    reveal_strlit("published");
    reveal_strlit("withdrawn");
    assert("published"@[0] != "draft"@[0]);
    assert("withdrawn"@[0] != "draft"@[0]);
    assert("withdrawn"@[0] != "published"@[0]);
}

} // verus!
