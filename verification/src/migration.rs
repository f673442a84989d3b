use vstd::prelude::*;
use vstd::arithmetic::power2::{lemma2_to64, pow2};
use crate::error::{is_conflict, is_validation, ApiError};
use crate::text::{chars_of, str_equals, string_of};

verus! {

/// The number of attempts after which a failing migration item is given up.
pub const MIGRATION_MAX_ATTEMPTS: i32 = 5;

/// Thirty seconds, doubled `exponent` times.
pub open spec fn backoff_seconds(exponent: int) -> int {
    30 * (pow2(exponent as nat) as int)
}

/// `n` clamped to `0..=8`.
pub open spec fn clamp_exponent(n: int) -> int {
    if n < 0 {
        0
    } else if n > 8 {
        8
    } else {
        n
    }
}

/// The delay before the next automatic attempt of a migration item that has
/// failed `attempts` times: thirty seconds, doubled for each earlier
/// failure, at most eight times.
pub open spec fn spec_retry_delay(attempts: int) -> int {
    backoff_seconds(clamp_exponent(attempts - 1))
}

fn backoff(exponent: i32) -> (delay: i64)
    requires
        0 <= exponent <= 8,
    ensures
        delay == backoff_seconds(exponent as int),
{
    let mut factor: i64 = 1;
    let mut i: i32 = 0;
    proof {
        lemma2_to64();
    }
    while i < exponent
        invariant
            0 <= i <= exponent <= 8,
            factor == pow2(i as nat),
        decreases exponent - i,
    {
        proof {
            lemma2_to64();
        }
        factor = factor * 2;
        i = i + 1;
    }
    proof {
        lemma2_to64();
    }
    30 * factor
}

/// Seconds to wait before retrying a migration item that has failed
/// `attempts` times.
pub fn migration_retry_delay_seconds(attempts: i32) -> (delay: i64)
    requires
        attempts > i32::MIN,
    ensures
        delay == spec_retry_delay(attempts as int),
{
    let exponent: i32 = if attempts - 1 < 0 {
        0
    } else if attempts - 1 > 8 {
        8
    } else {
        attempts - 1
    };
    backoff(exponent)
}

/// Seconds to wait before retrying the removal of an object that has failed
/// `attempts` times before: thirty seconds doubled `attempts` times, at most
/// eight times.
pub fn cleanup_retry_delay_seconds(attempts: i32) -> (delay: i64)
    ensures
        delay == backoff_seconds(clamp_exponent(attempts as int)),
{
    let exponent: i32 = if attempts < 0 {
        0
    } else if attempts > 8 {
        8
    } else {
        attempts
    };
    backoff(exponent)
}

/// Each further failure of a migration item doubles the wait before its next
/// attempt, from thirty seconds after the first, until the ninth failure.
pub proof fn lemma_retry_delay_doubles(attempts: int)
    requires
        1 <= attempts < 9,
    ensures
        spec_retry_delay(1) == 30,
        spec_retry_delay(attempts + 1) == 2 * spec_retry_delay(attempts),
{
    lemma2_to64();
}

// ---------------------------------------------------------------------------
// Failures of migration items

/// What becomes of a migration item whose attempt failed.
#[derive(Debug)]
pub struct FailurePlan {
    /// The attempts made so far, this one included.
    pub attempts: i32,
    /// The error, cut to its first 1000 characters.
    pub message: String,
    /// The item is given up (status `failed`); otherwise it waits for
    /// another attempt (status `pending`).
    pub terminal: bool,
    /// Seconds before the next attempt, where the item is not given up.
    pub retry_delay_seconds: i64,
}

/// `a + 1`, saturating at `i32::MAX`.
pub open spec fn next_attempt(a: i32) -> int {
    if a == i32::MAX {
        i32::MAX as int
    } else {
        a + 1
    }
}

/// Plans what becomes of an item that had `previous_attempts` failed
/// attempts and has now failed again with `message`: it is given up at the
/// fifth attempt, otherwise retried after an exponential delay.
pub fn failure_plan(previous_attempts: i32, message: &str) -> (p: FailurePlan)
    ensures
        p.attempts == next_attempt(previous_attempts),
        p.message@ == message@.take(if message@.len() < 1000 {
            message@.len() as int
        } else {
            1000
        }),
        p.terminal <==> p.attempts >= MIGRATION_MAX_ATTEMPTS,
        !p.terminal ==> p.retry_delay_seconds == spec_retry_delay(p.attempts as int),
        p.terminal ==> p.retry_delay_seconds == 0,
{
    let attempts: i32 = if previous_attempts == i32::MAX {
        i32::MAX
    } else {
        previous_attempts + 1
    };
    let chars = chars_of(message);
    let keep: usize = if chars.len() < 1000 {
        chars.len()
    } else {
        1000
    };
    let text = string_of(&chars, 0, keep);
    proof {
        assert(chars@.subrange(0, keep as int) =~= message@.take(keep as int));
    }
    if attempts >= MIGRATION_MAX_ATTEMPTS {
        FailurePlan { attempts, message: text, terminal: true, retry_delay_seconds: 0 }
    } else {
        let delay = migration_retry_delay_seconds(attempts);
        FailurePlan { attempts, message: text, terminal: false, retry_delay_seconds: delay }
    }
}

/// An item that fails on every attempt is attempted exactly five times: the
/// first four failures schedule a retry, the fifth gives it up.
pub proof fn lemma_at_most_five_attempts(previous_attempts: i32)
    requires
        0 <= previous_attempts,
    ensures
        next_attempt(previous_attempts) >= MIGRATION_MAX_ATTEMPTS <==> previous_attempts >= 4,
{
}

// ---------------------------------------------------------------------------
// Routing and finishing migration items

/// The profiles that a migration moves between, where both still exist.
pub fn item_profile_ids(source: Option<u128>, destination: Option<u128>) -> (r: Result<(u128, u128), String>)
    ensures
        source is None ==> (r matches Err(m) && m@ == "Migration source profile is no longer available"@),
        source is Some && destination is None ==> (r matches Err(m) && m@
            == "Migration destination profile is no longer available"@),
        r is Ok <==> (source is Some && destination is Some),
        r matches Ok((s, d)) ==> (source == Some(s) && destination == Some(d)),
{
    match source {
        None => Err("Migration source profile is no longer available".to_owned()),
        Some(s) => match destination {
            None => Err("Migration destination profile is no longer available".to_owned()),
            Some(d) => Ok((s, d)),
        },
    }
}

/// What is done with a migration item, given where its artifact is stored
/// now (`None` where the artifact is gone).
#[derive(Debug, Clone, Copy, PartialEq, Eq, Structural)]
pub enum ItemRoute {
    /// The artifact is gone or was moved elsewhere: skip the item.
    Skip,
    /// The artifact already lives at the destination: the item succeeded.
    AlreadyMoved,
    /// The artifact still lives at the source: copy it.
    Transfer,
}

/// Routes an item by where its artifact is stored now.
pub fn route_item(source: u128, destination: u128, artifact_profile: Option<u128>) -> (r: ItemRoute)
    ensures
        r == (match artifact_profile {
            None => ItemRoute::Skip,
            Some(p) => if p == destination {
                ItemRoute::AlreadyMoved
            } else if p != source {
                ItemRoute::Skip
            } else {
                ItemRoute::Transfer
            },
        }),
{
    match artifact_profile {
        None => ItemRoute::Skip,
        Some(p) => if p == destination {
            ItemRoute::AlreadyMoved
        } else if p != source {
            ItemRoute::Skip
        } else {
            ItemRoute::Transfer
        },
    }
}

/// The message recorded where one of the profiles of an item is gone.
pub fn missing_profile_message() -> (m: String)
    ensures
        m@ == "Migration storage profile is no longer available"@,
{
    "Migration storage profile is no longer available".to_owned()
}

/// How an item ends and what follows for the migration's counters.
#[derive(Debug)]
pub struct ItemFinish {
    /// The item is recorded as skipped rather than succeeded.
    pub skipped: bool,
    /// Bytes counted as copied.
    pub bytes: i64,
    /// The copy just made at the destination must be removed again.
    pub cleanup_destination: bool,
}

/// `size`, or 0 where it is negative.
pub open spec fn non_negative(size: i64) -> i64 {
    if size < 0 {
        0
    } else {
        size
    }
}

/// Whether an artifact reference points at the destination after the move:
/// the conditional update moved it (`rows_updated > 0`), or it already held
/// the destination (`current`).
pub fn reference_at_destination(rows_updated: u64, current: Option<u128>, destination: u128) -> (r: bool)
    ensures
        r == (rows_updated > 0 || current == Some(destination)),
{
    rows_updated > 0 || match current {
        Some(c) => c == destination,
        None => false,
    }
}

/// Decides how an item ends: `succeeded` where the object is at the
/// destination, `skipped` where the item was skipped, `created_destination`
/// where this attempt uploaded the object, and `at_destination` whether the
/// artifact's reference points at the destination after the move. A copy
/// whose reference did not move is skipped and its upload removed.
pub fn finish_item(succeeded: bool, skipped: bool, created_destination: bool, at_destination: bool, size: i64) -> (f: ItemFinish)
    ensures
        f.skipped == (skipped || (succeeded && !at_destination)),
        f.cleanup_destination == (succeeded && !at_destination && created_destination),
        f.bytes == (if f.skipped {
            0
        } else {
            non_negative(size)
        }),
{
    let mut final_skipped = skipped;
    let mut cleanup = false;
    if succeeded && !at_destination {
        final_skipped = true;
        cleanup = created_destination;
    }
    let bytes = if final_skipped {
        0
    } else if size < 0 {
        0
    } else {
        size
    };
    ItemFinish { skipped: final_skipped, bytes, cleanup_destination: cleanup }
}

// ---------------------------------------------------------------------------
// Commands on migrations

/// The effect of cancelling a migration.
#[derive(Debug, Clone, Copy, PartialEq, Eq, Structural)]
pub enum CancelEffect {
    /// A queued migration is cancelled at once.
    CancelNow,
    /// A running migration is asked to stop; its worker cancels it.
    RequestCancel,
}

/// Decides a cancellation: a queued migration is cancelled at once, a
/// running one is asked to stop; any other is refused.
pub fn cancel_effect(status: &str) -> (r: Result<CancelEffect, ApiError>)
    ensures
        status@ == "queued"@ ==> r == Ok::<CancelEffect, ApiError>(CancelEffect::CancelNow),
        status@ != "queued"@ && status@ == "running"@ ==> r == Ok::<CancelEffect, ApiError>(
            CancelEffect::RequestCancel,
        ),
        r is Err <==> (status@ != "queued"@ && status@ != "running"@),
        r matches Err(e) ==> is_validation(e, "Only queued or running migrations can be cancelled"@),
{
    if str_equals(status, "queued") {
        Ok(CancelEffect::CancelNow)
    } else if str_equals(status, "running") {
        Ok(CancelEffect::RequestCancel)
    } else {
        Err(ApiError::validation("Only queued or running migrations can be cancelled"))
    }
}

/// A migration that is queued, running, or completed.
pub open spec fn is_active_or_done(status: Seq<char>) -> bool {
    status == "queued"@ || status == "running"@ || status == "completed"@
}

/// Refuses a retry of a migration that is queued, running or completed.
pub fn check_retryable_status(status: &str) -> (r: Result<(), ApiError>)
    ensures
        r is Ok <==> !is_active_or_done(status@),
        r matches Err(e) ==> is_validation(e, "Only failed or cancelled migrations can be retried"@),
{
    if str_equals(status, "queued") || str_equals(status, "running") || str_equals(status, "completed") {
        Err(ApiError::validation("Only failed or cancelled migrations can be retried"))
    } else {
        Ok(())
    }
}

/// Decides a retry of a migration of the given status, where `other_active`
/// tells whether another migration is queued or running: only a migration
/// that neither is active nor completed is retried, and only while no other
/// runs. The result tells whether every unfinished item is reset (after a
/// cancellation), rather than the failed ones only.
pub fn retry_plan(status: &str, other_active: bool) -> (r: Result<bool, ApiError>)
    ensures
        r is Ok <==> (!is_active_or_done(status@) && !other_active),
        r matches Ok(all) ==> all == (status@ == "cancelled"@),
        is_active_or_done(status@) ==> (r matches Err(e) && is_validation(
            e,
            "Only failed or cancelled migrations can be retried"@,
        )),
        !is_active_or_done(status@) && other_active ==> (r matches Err(e) && is_conflict(
            e,
            "Another storage migration is already running"@,
        )),
{
    check_retryable_status(status)?;
    if other_active {
        return Err(ApiError::conflict("Another storage migration is already running"));
    }
    Ok(str_equals(status, "cancelled"))
}

/// Refuses a migration from a profile to itself.
pub fn check_distinct_profiles(source: u128, destination: u128) -> (r: Result<(), ApiError>)
    ensures
        r is Ok <==> source != destination,
        r matches Err(e) ==> is_validation(e, "Source and destination storage profiles must differ"@),
{
    if source == destination {
        Err(ApiError::validation("Source and destination storage profiles must differ"))
    } else {
        Ok(())
    }
}

/// Refuses a new migration while another is queued or running.
pub fn check_no_active_migration(active: bool) -> (r: Result<(), ApiError>)
    ensures
        r is Ok <==> !active,
        r matches Err(e) ==> is_conflict(e, "Another storage migration is already running"@),
{
    if active {
        Err(ApiError::conflict("Another storage migration is already running"))
    } else {
        Ok(())
    }
}

/// Refuses to change the active profile while a migration is queued or
/// running.
pub fn check_activation_allowed(migration_active: bool) -> (r: Result<(), ApiError>)
    ensures
        r is Ok <==> !migration_active,
        r matches Err(e) ==> is_conflict(
            e,
            "The active storage profile cannot be changed during a migration"@,
        ),
{
    if migration_active {
        Err(ApiError::conflict("The active storage profile cannot be changed during a migration"))
    } else {
        Ok(())
    }
}

/// Refuses to delete the active profile, or one that artifacts, cleanup jobs
/// or an active migration still refer to (`references` of them).
pub fn check_profile_deletable(is_active: bool, references: i64) -> (r: Result<(), ApiError>)
    ensures
        r is Ok <==> (!is_active && references <= 0),
        is_active ==> (r matches Err(e) && is_validation(
            e,
            "The active storage profile cannot be deleted"@,
        )),
        !is_active && references > 0 ==> (r matches Err(e) && is_conflict(
            e,
            "Storage profile is still referenced by artifacts, cleanup jobs, or an active migration"@,
        )),
{
    if is_active {
        return Err(ApiError::validation("The active storage profile cannot be deleted"));
    }
    if references > 0 {
        return Err(
            ApiError::conflict(
                "Storage profile is still referenced by artifacts, cleanup jobs, or an active migration",
            ),
        );
    }
    Ok(())
}

// ---------------------------------------------------------------------------
// Byte totals

/// `a + b` for non-negative `b`, saturating at `i64::MAX`.
pub open spec fn saturating_plus(a: int, b: int) -> int {
    if a + b > i64::MAX {
        i64::MAX as int
    } else {
        a + b
    }
}

/// The total of the non-negative sizes, added left to right with saturation.
pub open spec fn total_size(sizes: Seq<i64>) -> int
    decreases sizes.len(),
{
    if sizes.len() == 0 {
        0
    } else {
        saturating_plus(total_size(sizes.drop_last()), non_negative(sizes.last()) as int)
    }
}

/// `total + size` where `size` counts as 0 when negative, saturating at
/// `i64::MAX`.
pub fn add_size(total: i64, size: i64) -> (r: i64)
    requires
        total >= 0,
    ensures
        r == saturating_plus(total as int, non_negative(size) as int),
        r >= 0,
{
    let s = if size < 0 {
        0
    } else {
        size
    };
    if total > i64::MAX - s {
        i64::MAX
    } else {
        total + s
    }
}

/// The bytes a new migration will move: the sizes of its artifacts, a
/// negative one counting as 0, summed with saturation.
pub fn migration_total_bytes(sizes: &Vec<i64>) -> (r: i64)
    ensures
        r == total_size(sizes@),
        r >= 0,
{
    let mut total: i64 = 0;
    let mut i: usize = 0;
    while i < sizes.len()
        invariant
            i <= sizes@.len(),
            total == total_size(sizes@.take(i as int)),
            total >= 0,
        decreases sizes@.len() - i,
    {
        proof {
            assert(sizes@.take(i + 1).drop_last() =~= sizes@.take(i as int));
        }
        total = add_size(total, sizes[i]);
        i = i + 1;
    }
    proof {
        assert(sizes@.take(i as int) =~= sizes@);
    }
    total
}

// ---------------------------------------------------------------------------
// The run of one migration

/// Where a running migration's worker is in its loop.
#[derive(Debug, Clone, Copy, PartialEq, Eq, Structural)]
pub enum RunPhase {
    /// Reading the migration's row.
    Load,
    /// Claiming (and processing) the next due item.
    Claim,
    /// Adding items for source artifacts missing from the migration.
    Enqueue,
    /// Counting the items still pending.
    CountPending,
    /// Adding missing items once more, after the quiet period.
    Recheck,
    /// Counting the items that failed for good.
    CountFailed,
}

/// The state of a migration's worker: its phase, and whether a scan of the
/// source found nothing new since the last item was processed.
#[derive(Debug)]
pub struct MigrationRun {
    pub phase: RunPhase,
    pub empty_scans: u8,
}

/// What the worker learnt from the last action.
#[derive(Debug)]
pub enum RunEvent {
    /// The migration's row: whether it is running, and whether a cancellation
    /// was asked.
    Loaded { running: bool, cancel_requested: bool },
    /// Whether an item was due, claimed and processed.
    Claimed(bool),
    /// How many missing items were added.
    Enqueued(u64),
    /// How many items are pending.
    Pending(i64),
    /// How many items failed for good.
    Failed(i64),
}

/// What the worker does next.
#[derive(Debug, Clone, Copy, PartialEq, Eq, Structural)]
pub enum RunAction {
    /// Read the migration's row.
    Load,
    /// Wait a second, then read the migration's row.
    SleepThenLoad,
    /// Claim the next due item and process it.
    Claim,
    /// Add items for source artifacts missing from the migration.
    Enqueue,
    /// Count the pending items.
    CountPending,
    /// Count the items that failed for good.
    CountFailed,
    /// Record the migration as cancelled and stop.
    FinishCancelled,
    /// Record the migration as completed and stop.
    FinishCompleted,
    /// Record the migration as partly failed and stop.
    FinishPartialFailed,
    /// Stop: the migration is no longer running.
    Stop,
}

/// The worker's first state, with its first action `Load`.
pub open spec fn run_start() -> MigrationRun {
    MigrationRun { phase: RunPhase::Load, empty_scans: 0 }
}

/// The event that answers the action of each phase.
pub open spec fn event_fits(phase: RunPhase, event: RunEvent) -> bool {
    match phase {
        RunPhase::Load => event is Loaded,
        RunPhase::Claim => event is Claimed,
        RunPhase::Enqueue => event is Enqueued,
        RunPhase::CountPending => event is Pending,
        RunPhase::Recheck => event is Enqueued,
        RunPhase::CountFailed => event is Failed,
    }
}

/// The states the worker can reach: a count of empty scans of 0 or 1, and 1
/// in the last two phases, which only follow a quiet period.
pub open spec fn run_wf(run: MigrationRun) -> bool {
    &&& run.empty_scans <= 1
    &&& (run.phase is Recheck || run.phase is CountFailed) ==> run.empty_scans == 1
}

/// The next state and action of the worker after `event`.
pub open spec fn spec_run_step(run: MigrationRun, event: RunEvent) -> (MigrationRun, RunAction) {
    let load = MigrationRun { phase: RunPhase::Load, empty_scans: run.empty_scans };
    match event {
        RunEvent::Loaded { running, cancel_requested } => if !running {
            (load, RunAction::Stop)
        } else if cancel_requested {
            (load, RunAction::FinishCancelled)
        } else {
            (MigrationRun { phase: RunPhase::Claim, empty_scans: run.empty_scans }, RunAction::Claim)
        },
        RunEvent::Claimed(claimed) => if claimed {
            (MigrationRun { phase: RunPhase::Load, empty_scans: 0 }, RunAction::Load)
        } else {
            (MigrationRun { phase: RunPhase::Enqueue, empty_scans: run.empty_scans }, RunAction::Enqueue)
        },
        RunEvent::Enqueued(added) => if added > 0 {
            (MigrationRun { phase: RunPhase::Load, empty_scans: 0 }, RunAction::Load)
        } else if run.phase is Recheck {
            (MigrationRun { phase: RunPhase::CountFailed, empty_scans: run.empty_scans }, RunAction::CountFailed)
        } else {
            (MigrationRun { phase: RunPhase::CountPending, empty_scans: run.empty_scans }, RunAction::CountPending)
        },
        RunEvent::Pending(pending) => if pending > 0 {
            (load, RunAction::SleepThenLoad)
        } else if run.empty_scans == 0 {
            (MigrationRun { phase: RunPhase::Load, empty_scans: 1 }, RunAction::SleepThenLoad)
        } else {
            (MigrationRun { phase: RunPhase::Recheck, empty_scans: run.empty_scans }, RunAction::Enqueue)
        },
        RunEvent::Failed(failed) => if failed > 0 {
            (load, RunAction::FinishPartialFailed)
        } else {
            (load, RunAction::FinishCompleted)
        },
    }
}

impl MigrationRun {
    /// The worker's state when it takes up a migration; its first action is
    /// `RunAction::Load`.
    pub fn start() -> (run: MigrationRun)
        ensures
            run == run_start(),
            run_wf(run),
    {
        MigrationRun { phase: RunPhase::Load, empty_scans: 0 }
    }
}

/// The next state and action of a migration's worker after `event`: a
/// cancelled migration stops; due items are processed one at a time; an item
/// or a newly added artifact starts the count of quiet scans again; the
/// migration finishes only when, after a one-second pause, a second scan
/// found neither pending items nor missing artifacts.
pub fn run_step(run: &MigrationRun, event: RunEvent) -> (r: (MigrationRun, RunAction))
    requires
        event_fits(run.phase, event),
        run_wf(*run),
    ensures
        r == spec_run_step(*run, event),
        run_wf(r.0),
{
    let scans = run.empty_scans;
    match event {
        RunEvent::Loaded { running, cancel_requested } => if !running {
            (MigrationRun { phase: RunPhase::Load, empty_scans: scans }, RunAction::Stop)
        } else if cancel_requested {
            (MigrationRun { phase: RunPhase::Load, empty_scans: scans }, RunAction::FinishCancelled)
        } else {
            (MigrationRun { phase: RunPhase::Claim, empty_scans: scans }, RunAction::Claim)
        },
        RunEvent::Claimed(claimed) => if claimed {
            (MigrationRun { phase: RunPhase::Load, empty_scans: 0 }, RunAction::Load)
        } else {
            (MigrationRun { phase: RunPhase::Enqueue, empty_scans: scans }, RunAction::Enqueue)
        },
        RunEvent::Enqueued(added) => if added > 0 {
            (MigrationRun { phase: RunPhase::Load, empty_scans: 0 }, RunAction::Load)
        } else if run.phase == RunPhase::Recheck {
            (MigrationRun { phase: RunPhase::CountFailed, empty_scans: scans }, RunAction::CountFailed)
        } else {
            (MigrationRun { phase: RunPhase::CountPending, empty_scans: scans }, RunAction::CountPending)
        },
        RunEvent::Pending(pending) => if pending > 0 {
            (MigrationRun { phase: RunPhase::Load, empty_scans: scans }, RunAction::SleepThenLoad)
        } else if scans == 0 {
            (MigrationRun { phase: RunPhase::Load, empty_scans: 1 }, RunAction::SleepThenLoad)
        } else {
            (MigrationRun { phase: RunPhase::Recheck, empty_scans: scans }, RunAction::Enqueue)
        },
        RunEvent::Failed(failed) => if failed > 0 {
            (MigrationRun { phase: RunPhase::Load, empty_scans: scans }, RunAction::FinishPartialFailed)
        } else {
            (MigrationRun { phase: RunPhase::Load, empty_scans: scans }, RunAction::FinishCompleted)
        },
    }
}

/// A migration is recorded as completed or partly failed only from the count
/// of failures that follows a second empty scan: the worker had recorded one
/// quiet scan and paused before, and the last scan added nothing.
pub proof fn lemma_finish_follows_two_empty_scans(run: MigrationRun, event: RunEvent)
    requires
        run_wf(run),
        event_fits(run.phase, event),
        spec_run_step(run, event).1 is FinishCompleted || spec_run_step(run, event).1 is FinishPartialFailed,
    ensures
        run.phase is CountFailed,
        run.empty_scans == 1,
{
}

/// Every step keeps the worker's state among the reachable ones, and a run
/// that is asked to cancel finishes as cancelled.
pub proof fn lemma_run_step_keeps_wf(run: MigrationRun, event: RunEvent)
    requires
        run_wf(run),
        event_fits(run.phase, event),
    ensures
        run_wf(spec_run_step(run, event).0),
        event matches RunEvent::Loaded { running, cancel_requested } && running && cancel_requested
            ==> spec_run_step(run, event).1 is FinishCancelled,
{
}

/// The final count of failures decides how a migration ends: as partly
/// failed exactly when some item failed for good, as completed exactly when
/// none did; either way the worker goes back to reading the migration's row
/// with its count of quiet scans unchanged.
pub proof fn lemma_finish_by_failures(run: MigrationRun, failed: i64)
    requires
        run.phase is CountFailed,
    ensures
        spec_run_step(run, RunEvent::Failed(failed)).1 is FinishPartialFailed <==> failed > 0,
        spec_run_step(run, RunEvent::Failed(failed)).1 is FinishCompleted <==> failed <= 0,
        spec_run_step(run, RunEvent::Failed(failed)).0.phase is Load,
        spec_run_step(run, RunEvent::Failed(failed)).0.empty_scans == run.empty_scans,
{
}

/// The worker's reading of the migration's row: one that is no longer
/// running stops it, whether or not a cancellation was asked; a running one
/// that is asked to cancel finishes as cancelled; otherwise the next item is
/// claimed. Processing an item, or adding a missing one, starts the count of
/// quiet scans again; pending items make the worker pause and look again.
/// A first quiet count is recorded and followed by a pause; a second one
/// leads to a last scan for missing items, and only a last scan that adds
/// nothing leads to the count of failures.
pub proof fn lemma_run_step_progress(run: MigrationRun, event: RunEvent)
    requires
        run_wf(run),
        event_fits(run.phase, event),
    ensures
        event matches RunEvent::Loaded { running, cancel_requested } ==> {
            &&& (!running ==> spec_run_step(run, event).1 is Stop)
            &&& (running && !cancel_requested ==> spec_run_step(run, event).1 is Claim)
        },
        event matches RunEvent::Claimed(claimed) ==> (claimed <==> spec_run_step(run, event).0.empty_scans
            == 0 && spec_run_step(run, event).1 is Load),
        event matches RunEvent::Enqueued(added) && added > 0 ==> spec_run_step(run, event).0.empty_scans == 0
            && spec_run_step(run, event).1 is Load,
        event matches RunEvent::Pending(pending) && pending > 0 ==> spec_run_step(run, event).1 is SleepThenLoad
            && spec_run_step(run, event).0.empty_scans == run.empty_scans,
        event matches RunEvent::Pending(pending) && pending <= 0 && run.empty_scans == 0 ==> (
        spec_run_step(run, event).1 is SleepThenLoad && spec_run_step(run, event).0.empty_scans == 1),
        event matches RunEvent::Pending(pending) && pending <= 0 && run.empty_scans == 1 ==> (
        spec_run_step(run, event).1 is Enqueue && spec_run_step(run, event).0.phase is Recheck),
        event matches RunEvent::Enqueued(added) && added == 0 ==> (if run.phase is Recheck {
            spec_run_step(run, event).1 is CountFailed
        } else {
            spec_run_step(run, event).1 is CountPending
        }),
        spec_run_step(run, event).1 is FinishCancelled ==> (event matches RunEvent::Loaded {
            running,
            cancel_requested,
        } && running && cancel_requested),
{
}

// ---------------------------------------------------------------------------
// Uploads during a cutover

/// What becomes of an upload that went to the profile `uploaded_to`, given
/// the profile that is active when the artifact is recorded.
#[derive(Debug, Clone, Copy, PartialEq, Eq, Structural)]
pub enum CutoverDecision {
    /// The upload still goes to the active profile: record the artifact.
    Record,
    /// The active profile changed meanwhile: remove the upload and send the
    /// file to the new active profile.
    Relay(u128),
}

/// Decides, under the cutover lock, whether an upload can be recorded.
pub fn cutover_decision(uploaded_to: u128, active: Option<u128>) -> (r: Result<CutoverDecision, ApiError>)
    ensures
        active is None ==> (r matches Err(e) && is_validation(e, "No active storage profile configured"@)),
        active == Some(uploaded_to) ==> r == Ok::<CutoverDecision, ApiError>(CutoverDecision::Record),
        active is Some && active != Some(uploaded_to) ==> r == Ok::<CutoverDecision, ApiError>(
            CutoverDecision::Relay(active->0),
        ),
{
    match active {
        None => Err(ApiError::validation("No active storage profile configured")),
        Some(a) => if a == uploaded_to {
            Ok(CutoverDecision::Record)
        } else {
            Ok(CutoverDecision::Relay(a))
        },
    }
}

/// Counts the items that a scan adds to a migration, and their bytes.
#[derive(Debug)]
pub struct EnqueueTally {
    pub added: u64,
    pub bytes: i64,
}

impl EnqueueTally {
    /// Nothing added yet.
    pub fn new() -> (t: EnqueueTally)
        ensures
            t.added == 0,
            t.bytes == 0,
    {
        EnqueueTally { added: 0, bytes: 0 }
    }

    /// Counts one added item of `size` bytes (0 where negative), the bytes
    /// saturating at `i64::MAX`.
    pub fn record(&mut self, size: i64)
        requires
            old(self).added < u64::MAX,
            old(self).bytes >= 0,
        ensures
            final(self).added == old(self).added + 1,
            final(self).bytes == saturating_plus(old(self).bytes as int, non_negative(size) as int),
            final(self).bytes >= 0,
    {
        self.added = self.added + 1;
        self.bytes = add_size(self.bytes, size);
    }
}

} // verus!
