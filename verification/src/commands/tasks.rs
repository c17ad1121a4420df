//! Processing-task decisions: batch resolution under import limits, visibility and
//! deletion rules, and the safe errors shown for failed tasks.

use vstd::prelude::*;

use super::ingest::RegisteredArtifact;
use super::{command_error, CommandError};
use crate::domain::{plain_error, terminal_status, SafeTaskError, TaskAction, TaskErrorV, TaskStatus};
use crate::minutes::dates::rfc3339_instant;
use crate::minutes::model::opt_view;
use crate::ingest::policy::IngestPolicy;
use crate::minutes::error::{error_code, error_message, MinutesError};
use crate::providers::error::ProviderError;
use crate::minutes::templates::{get_template, is_builtin_id, BUILTIN_TEMPLATE_VERSION};
use crate::text::{copy_str, is_blank, str_eq, str_is_blank};

verus! {

/// The task-list filter chosen in the interface.
pub struct TaskQuery {
    pub filter: String,
}

/// A task of the list and of status events; progress is carried as the IEEE-754 bits of
/// the fraction done.
#[derive(Debug)]
pub struct TaskRecord {
    pub id: String,
    pub artifact_id: String,
    pub batch_id: Option<String>,
    pub meeting_id: Option<String>,
    pub display_name: String,
    pub template_id: String,
    pub status: TaskStatus,
    pub progress_bits: Option<u64>,
    pub attempt: u32,
    pub max_attempts: u32,
    pub error: Option<SafeTaskError>,
    pub created_at: String,
    pub updated_at: String,
    pub processing_started_at: Option<String>,
    pub processing_duration_ms: Option<u64>,
    pub available_actions: Vec<TaskAction>,
}

/// The view of a task.
pub struct TaskV {
    pub id: Seq<char>,
    pub artifact_id: Seq<char>,
    pub batch_id: Option<Seq<char>>,
    pub meeting_id: Option<Seq<char>>,
    pub display_name: Seq<char>,
    pub template_id: Seq<char>,
    pub status: TaskStatus,
    pub progress_bits: Option<u64>,
    pub attempt: u32,
    pub max_attempts: u32,
    pub error: Option<TaskErrorV>,
    pub created_at: Seq<char>,
    pub updated_at: Seq<char>,
    pub processing_started_at: Option<Seq<char>>,
    pub processing_duration_ms: Option<u64>,
    pub available_actions: Seq<TaskAction>,
}

/// The view of an optional task error.
pub open spec fn opt_error(e: Option<SafeTaskError>) -> Option<TaskErrorV> {
    match e {
        Some(x) => Some(x@),
        None => None,
    }
}

impl View for TaskRecord {
    type V = TaskV;

    open spec fn view(&self) -> TaskV {
        TaskV {
            id: self.id@,
            artifact_id: self.artifact_id@,
            batch_id: opt_view(self.batch_id),
            meeting_id: opt_view(self.meeting_id),
            display_name: self.display_name@,
            template_id: self.template_id@,
            status: self.status,
            progress_bits: self.progress_bits,
            attempt: self.attempt,
            max_attempts: self.max_attempts,
            error: opt_error(self.error),
            created_at: self.created_at@,
            updated_at: self.updated_at@,
            processing_started_at: opt_view(self.processing_started_at),
            processing_duration_ms: self.processing_duration_ms,
            available_actions: self.available_actions@,
        }
    }
}

/// Whether an action is offered.
pub open spec fn offers(actions: Seq<TaskAction>, a: TaskAction) -> bool {
    actions.contains(a)
}

/// Whether a list of actions holds an action.
fn has_action(actions: &Vec<TaskAction>, a: TaskAction) -> (r: bool)
    ensures
        r == offers(actions@, a),
{
    let mut i: usize = 0;
    while i < actions.len()
        invariant
            0 <= i <= actions@.len(),
            forall|k: int| 0 <= k < i ==> actions@[k] != a,
        decreases actions@.len() - i,
    {
        if actions[i] == a {
            proof {
                assert(actions@[i as int] == a);
            }
            return true;
        }
        i = i + 1;
    }
    false
}

impl TaskRecord {
    /// Whether the task still depends on its staged audio: it is not finished, or it
    /// can still be retried.
    pub fn retains_audio_artifact(&self) -> (r: bool)
        ensures
            r == (!terminal_status(self.status) || offers(self.available_actions@, TaskAction::Retry)),
    {
        !self.status.is_terminal() || has_action(&self.available_actions, TaskAction::Retry)
    }
}

/// Whether a task is visible under a filter: `active`, `failed`, `completed`, or all.
pub open spec fn filter_shows(status: TaskStatus, filter: Seq<char>) -> bool {
    if filter == "active"@ {
        !terminal_status(status)
    } else if filter == "failed"@ {
        status == TaskStatus::Failed || status == TaskStatus::Interrupted
    } else if filter == "completed"@ {
        status == TaskStatus::Completed
    } else {
        true
    }
}

/// Whether a task is visible under the list filter.
pub fn task_matches_filter(task: &TaskRecord, filter: &str) -> (r: bool)
    ensures
        r == filter_shows(task.status, filter@),
{
    if str_eq(filter, "active") {
        !task.status.is_terminal()
    } else if str_eq(filter, "failed") {
        task.status == TaskStatus::Failed || task.status == TaskStatus::Interrupted
    } else if str_eq(filter, "completed") {
        task.status == TaskStatus::Completed
    } else {
        true
    }
}

/// Whether a task may be deleted on its own: it failed or was interrupted and produced
/// no meeting (meetings are deleted with their own cascade).
pub open spec fn deletable(status: TaskStatus, meeting_id: Option<String>) -> bool {
    meeting_id is None && (status == TaskStatus::Failed || status == TaskStatus::Interrupted)
}

/// Whether a task may be deleted on its own.
pub fn task_can_be_deleted(task: &TaskRecord) -> (r: bool)
    ensures
        r == deletable(task.status, task.meeting_id),
{
    task.meeting_id.is_none() && (task.status == TaskStatus::Failed || task.status
        == TaskStatus::Interrupted)
}

/// Adds the delete action to a deletable task that lacks it; nothing else changes.
pub fn with_available_delete_action(task: TaskRecord) -> (r: TaskRecord)
    ensures
        deletable(task.status, task.meeting_id) && !offers(task.available_actions@, TaskAction::Delete)
            ==> r.available_actions@ == task.available_actions@.push(TaskAction::Delete),
        !(deletable(task.status, task.meeting_id) && !offers(task.available_actions@, TaskAction::Delete))
            ==> r.available_actions@ == task.available_actions@,
        r.status == task.status,
        r.meeting_id == task.meeting_id,
        r.id == task.id,
{
    let mut task = task;
    if task_can_be_deleted(&task) && !has_action(&task.available_actions, TaskAction::Delete) {
        task.available_actions.push(TaskAction::Delete);
    }
    task
}

/// A safe task error from its parts.
fn safe_error(code: &str, retryable: bool, message: &str) -> (r: SafeTaskError)
    ensures
        r.code@ == code@,
        r.retryable == retryable,
        r.safe_message@ == message@,
        r.http_status is None,
        r.retry_after_ms is None,
{
    SafeTaskError {
        code: copy_str(code),
        retryable,
        safe_message: copy_str(message),
        http_status: None,
        retry_after_ms: None,
    }
}

/// The task error of a sanitized provider error.
pub fn provider_error(error: ProviderError) -> (r: SafeTaskError)
    ensures
        r.code@ == error.code@,
        r.retryable == error.retryable,
        r.safe_message@ == error.safe_message@,
        r.http_status == error.http_status,
        r.retry_after_ms == error.retry_after_ms,
{
    SafeTaskError {
        code: error.code,
        retryable: error.retryable,
        safe_message: error.safe_message,
        http_status: error.http_status,
        retry_after_ms: error.retry_after_ms,
    }
}

/// The task error of a minutes error: its code and safe message, never retryable.
pub fn minutes_error(error: MinutesError) -> (r: SafeTaskError)
    ensures
        r.code@ == error_code(error)@,
        !r.retryable,
        r.safe_message@ == error_message(error)@,
        r.http_status is None,
        r.retry_after_ms is None,
{
    safe_error(error.code(), false, error.message())
}

/// The local storage failure, without database details.
pub fn local_error() -> (r: SafeTaskError)
    ensures
        r@ == plain_error("local_storage_error"@, true, "无法保存本地会议记录"@),
{
    safe_error("local_storage_error", true, "无法保存本地会议记录")
}

/// The failure of a task that used up its attempts.
pub open spec fn retry_limit_view() -> TaskErrorV {
    plain_error("retry_limit_reached"@, false, "任务已达到最大尝试次数，请检查配置或重新创建任务"@)
}

/// The failure of a task that used up its attempts.
pub fn retry_limit_error() -> (r: SafeTaskError)
    ensures
        r@ == retry_limit_view(),
{
    safe_error("retry_limit_reached", false, "任务已达到最大尝试次数，请检查配置或重新创建任务")
}

/// The cancellation of a task.
pub fn cancelled_error() -> (r: SafeTaskError)
    ensures
        r@ == plain_error("cancelled"@, false, "任务已取消"@),
{
    safe_error("cancelled", false, "任务已取消")
}

/// The first staged artifact with the given ID.
pub open spec fn artifact_with_id(registry: Seq<RegisteredArtifact>, id: Seq<char>, i: int) -> Option<
    RegisteredArtifact,
>
    decreases registry.len() - i,
{
    if i < 0 || i >= registry.len() {
        None
    } else if registry[i].id@ == id {
        Some(registry[i])
    } else {
        artifact_with_id(registry, id, i + 1)
    }
}

/// The outcome of resolving a logical batch: too many items, an unknown artifact, or a
/// running byte total over the limit fail, in selection order.
pub open spec fn batch_error(
    ids: Seq<String>,
    registry: Seq<RegisteredArtifact>,
    policy: IngestPolicy,
    i: int,
    total: nat,
) -> Option<(Seq<char>, Seq<char>)>
    decreases ids.len() - i,
{
    if i < 0 || i >= ids.len() {
        None
    } else {
        match artifact_with_id(registry, ids[i]@, 0) {
            None => Some(("artifact_not_found"@, "音频暂存记录不存在，请重新选择文件"@)),
            Some(a) => {
                let t: nat = total + a.byte_length as nat;
                if t > u64::MAX || t > policy.max_batch_total_bytes {
                    Some(("batch_limit_exceeded"@, "批量文件总大小超过限制，请拆分为多个批次"@))
                } else {
                    batch_error(ids, registry, policy, i + 1, t)
                }
            },
        }
    }
}

/// The first registered artifact with an ID.
fn find_artifact<'a>(registry: &'a Vec<RegisteredArtifact>, id: &str) -> (r: Option<&'a RegisteredArtifact>)
    ensures
        match artifact_with_id(registry@, id@, 0) {
            Some(a) => r is Some && *r->Some_0 == a,
            None => r is None,
        },
        r matches Some(a) ==> a.id@ == id@,
{
    let mut i: usize = 0;
    while i < registry.len()
        invariant
            0 <= i <= registry@.len(),
            artifact_with_id(registry@, id@, 0) == artifact_with_id(registry@, id@, i as int),
        decreases registry@.len() - i,
    {
        if str_eq(registry[i].id.as_str(), id) {
            return Some(&registry[i]);
        }
        i = i + 1;
    }
    None
}

/// Whether two staged-recording records hold the same values in every field.
pub open spec fn same_artifact(x: RegisteredArtifact, y: RegisteredArtifact) -> bool {
    &&& x.id@ == y.id@
    &&& x.display_name@ == y.display_name@
    &&& x.source_path@ == y.source_path@
    &&& x.mime_type@ == y.mime_type@
    &&& x.byte_length == y.byte_length
    &&& x.duration_ms == y.duration_ms
}

/// A copy of a registered artifact.
fn copy_artifact(a: &RegisteredArtifact) -> (r: RegisteredArtifact)
    ensures
        same_artifact(r, *a),
{
    RegisteredArtifact {
        id: copy_str(a.id.as_str()),
        display_name: copy_str(a.display_name.as_str()),
        source_path: copy_str(a.source_path.as_str()),
        mime_type: copy_str(a.mime_type.as_str()),
        byte_length: a.byte_length,
        duration_ms: a.duration_ms,
    }
}

/// Whether every ID from position `i` on names a staged recording.
pub open spec fn all_registered(ids: Seq<String>, registry: Seq<RegisteredArtifact>, i: int) -> bool {
    forall|k: int| i <= k < ids.len() ==> #[trigger] artifact_with_id(registry, ids[k]@, 0) is Some
}

/// The total size of the recordings the IDs from position `i` on name.
pub open spec fn bytes_from(ids: Seq<String>, registry: Seq<RegisteredArtifact>, i: int) -> nat
    decreases ids.len() - i,
{
    if i < 0 || i >= ids.len() {
        0
    } else {
        (match artifact_with_id(registry, ids[i]@, 0) {
            Some(a) => a.byte_length as nat,
            None => 0,
        }) + bytes_from(ids, registry, i + 1)
    }
}

proof fn lemma_batch_error_none(
    ids: Seq<String>,
    registry: Seq<RegisteredArtifact>,
    policy: IngestPolicy,
    i: int,
    total: nat,
)
    requires
        0 <= i <= ids.len(),
        total <= policy.max_batch_total_bytes,
    ensures
        batch_error(ids, registry, policy, i, total) is None <==> (all_registered(ids, registry, i) && total
            + bytes_from(ids, registry, i) <= policy.max_batch_total_bytes),
    decreases ids.len() - i,
{
    if i < ids.len() {
        match artifact_with_id(registry, ids[i]@, 0) {
            None => {
                assert(!all_registered(ids, registry, i));
            },
            Some(a) => {
                let t: nat = total + a.byte_length as nat;
                if t <= policy.max_batch_total_bytes {
                    lemma_batch_error_none(ids, registry, policy, i + 1, t);
                    assert(all_registered(ids, registry, i) <==> all_registered(ids, registry, i + 1));
                }
            },
        }
    }
}

/// A logical batch within the item limit is accepted exactly when every ID names a
/// staged recording and their sizes add up to no more than the batch limit.
pub proof fn law_batch_accepted_iff_registered_within_limit(
    ids: Seq<String>,
    registry: Seq<RegisteredArtifact>,
    policy: IngestPolicy,
)
    ensures
        batch_error(ids, registry, policy, 0, 0) is None <==> (all_registered(ids, registry, 0) && bytes_from(
            ids,
            registry,
            0,
        ) <= policy.max_batch_total_bytes),
{
    lemma_batch_error_none(ids, registry, policy, 0, 0);
}

/// Re-checks a whole logical batch against the import limits and resolves every staged
/// artifact at once.
pub fn resolve_batch_artifacts(
    artifact_ids: &[String],
    registry: &Vec<RegisteredArtifact>,
    policy: IngestPolicy,
) -> (r: Result<Vec<RegisteredArtifact>, CommandError>)
    ensures
        artifact_ids@.len() > policy.max_batch_items ==> r is Err && r->Err_0@ == command_error(
            "batch_limit_exceeded"@,
            "批量文件数量超过限制，请拆分为多个批次"@,
            false,
        ),
        artifact_ids@.len() <= policy.max_batch_items ==> match batch_error(
            artifact_ids@,
            registry@,
            policy,
            0,
            0,
        ) {
            Some(e) => r is Err && r->Err_0@ == command_error(e.0, e.1, false),
            None => r is Ok && r->Ok_0@.len() == artifact_ids@.len() && forall|k: int|
                0 <= k < artifact_ids@.len() ==> (#[trigger] r->Ok_0@[k]).id@ == artifact_ids@[k]@
                    && artifact_with_id(registry@, artifact_ids@[k]@, 0) is Some && same_artifact(
                    r->Ok_0@[k],
                    artifact_with_id(registry@, artifact_ids@[k]@, 0)->Some_0,
                ),
        },
{
    if artifact_ids.len() > policy.max_batch_items {
        return Err(
            CommandError::new("batch_limit_exceeded", "批量文件数量超过限制，请拆分为多个批次", false),
        );
    }
    let mut total: u64 = 0;
    let mut out: Vec<RegisteredArtifact> = Vec::new();
    let mut i: usize = 0;
    while i < artifact_ids.len()
        invariant
            0 <= i <= artifact_ids@.len(),
            artifact_ids@.len() <= policy.max_batch_items,
            batch_error(artifact_ids@, registry@, policy, 0, 0) == batch_error(
                artifact_ids@,
                registry@,
                policy,
                i as int,
                total as nat,
            ),
            out@.len() == i,
            forall|k: int|
                0 <= k < i ==> (#[trigger] out@[k]).id@ == artifact_ids@[k]@ && artifact_with_id(
                    registry@,
                    artifact_ids@[k]@,
                    0,
                ) is Some && same_artifact(out@[k], artifact_with_id(registry@, artifact_ids@[k]@, 0)->Some_0),
        decreases artifact_ids@.len() - i,
    {
        let a = match find_artifact(registry, artifact_ids[i].as_str()) {
            Some(a) => a,
            None => {
                return Err(
                    CommandError::new(
                        "artifact_not_found",
                        "音频暂存记录不存在，请重新选择文件",
                        false,
                    ),
                );
            },
        };
        if a.byte_length > u64::MAX - total || total + a.byte_length > policy.max_batch_total_bytes {
            return Err(
                CommandError::new("batch_limit_exceeded", "批量文件总大小超过限制，请拆分为多个批次", false),
            );
        }
        total = total + a.byte_length;
        let ghost before = out@;
        out.push(copy_artifact(a));
        proof {
            assert(out@[i as int].id@ == artifact_ids@[i as int]@);
            assert forall|k: int| 0 <= k < i implies #[trigger] out@[k] == before[k] by {}
        }
        i = i + 1;
    }
    Ok(out)
}

/// Task progress as the IEEE-754 bits of the fraction done, per pipeline stage.
pub const PROGRESS_QUEUED_BITS: u64 = 0x0;

pub const PROGRESS_PREPARING_BITS: u64 = 0x3fb47ae147ae147b;

pub const PROGRESS_TRANSCRIBING_BITS: u64 = 0x3fd1eb851eb851ec;

pub const PROGRESS_VALIDATING_TRANSCRIPT_BITS: u64 = 0x3fe0a3d70a3d70a4;

pub const PROGRESS_SUMMARIZING_BITS: u64 = 0x3fe5c28f5c28f5c3;

pub const PROGRESS_VALIDATING_MINUTES_BITS: u64 = 0x3fea3d70a3d70a3d;

pub const PROGRESS_SAVING_BITS: u64 = 0x3fee147ae147ae14;

pub const PROGRESS_DONE_BITS: u64 = 0x3ff0000000000000;

/// Whether a task still holds on to its staged audio.
pub open spec fn retains(t: TaskV) -> bool {
    !terminal_status(t.status) || offers(t.available_actions, TaskAction::Retry)
}

/// A new queued task for a staged artifact; its first attempt has started and at least
/// one attempt is allowed.
pub open spec fn new_task_view(
    id: Seq<char>,
    artifact: RegisteredArtifact,
    batch_id: Option<Seq<char>>,
    template_id: Seq<char>,
    max_attempts: u32,
    now: Seq<char>,
) -> TaskV {
    TaskV {
        id,
        artifact_id: artifact.id@,
        batch_id,
        meeting_id: None,
        display_name: artifact.display_name@,
        template_id,
        status: TaskStatus::Queued,
        progress_bits: Some(PROGRESS_QUEUED_BITS),
        attempt: 1,
        max_attempts: if max_attempts > 1 {
            max_attempts
        } else {
            1
        },
        error: None,
        created_at: now,
        updated_at: now,
        processing_started_at: None,
        processing_duration_ms: Some(0),
        available_actions: seq![TaskAction::Cancel],
    }
}

/// Creates the queued task of a staged artifact.
pub fn new_task(
    id: String,
    artifact: &RegisteredArtifact,
    batch_id: Option<String>,
    template_id: &str,
    max_attempts: u32,
    now: &str,
) -> (r: TaskRecord)
    ensures
        r@ == new_task_view(id@, *artifact, opt_view(batch_id), template_id@, max_attempts, now@),
{
    let mut actions: Vec<TaskAction> = Vec::new();
    actions.push(TaskAction::Cancel);
    let r = TaskRecord {
        id,
        artifact_id: artifact.id.clone(),
        batch_id,
        meeting_id: None,
        display_name: artifact.display_name.clone(),
        template_id: copy_str(template_id),
        status: TaskStatus::Queued,
        progress_bits: Some(PROGRESS_QUEUED_BITS),
        attempt: 1,
        max_attempts: if max_attempts > 1 {
            max_attempts
        } else {
            1
        },
        error: None,
        created_at: copy_str(now),
        updated_at: copy_str(now),
        processing_started_at: None,
        processing_duration_ms: Some(0),
        available_actions: actions,
    };
    proof {
        assert(r@.available_actions =~= seq![TaskAction::Cancel]);
    }
    r
}

/// The task entering a pipeline stage: the first stage also starts the attempt's clock.
pub open spec fn staged(t: TaskV, status: TaskStatus, progress_bits: u64, now: Seq<char>) -> TaskV {
    TaskV {
        processing_started_at: if t.processing_started_at is None {
            Some(now)
        } else {
            t.processing_started_at
        },
        status,
        progress_bits: Some(progress_bits),
        updated_at: now,
        ..t
    }
}

/// Moves a task to a stage's status and progress.
pub fn begin_stage(task: &mut TaskRecord, status: TaskStatus, progress_bits: u64, now: &str)
    ensures
        final(task)@ == staged(old(task)@, status, progress_bits, now@),
{
    if task.processing_started_at.is_none() {
        task.processing_started_at = Some(copy_str(now));
    }
    task.status = status;
    task.progress_bits = Some(progress_bits);
    task.updated_at = copy_str(now);
}

/// The signed time from one RFC 3339 date-time to another in whole milliseconds, as
/// chrono's `signed_duration_since` and `num_milliseconds` give it.
pub uninterp spec fn rfc3339_elapsed_ms(ended: Seq<char>, started: Seq<char>) -> Option<i64>;

/// Whole milliseconds in a signed number of nanoseconds, rounded toward zero.
pub open spec fn whole_ms(total_ns: int) -> int {
    if total_ns >= 0 {
        total_ns / 1_000_000
    } else {
        -((-total_ns) / 1_000_000)
    }
}

/// Parses both date-times with chrono's `DateTime::parse_from_rfc3339` and returns the
/// milliseconds of `signed_duration_since` between them: the named elapsed time, which
/// is absent exactly when a text does not parse. Outside leap seconds (a nanosecond
/// part below one second) it is the whole milliseconds between the two instants,
/// rounded toward zero, as `TimeDelta::num_milliseconds` documents.
#[verifier::external_body]
pub(crate) fn elapsed_ms_between(ended: &str, started: &str) -> (r: Option<i64>)
    ensures
        r == rfc3339_elapsed_ms(ended@, started@),
        r is None <==> (rfc3339_instant(ended@) is None || rfc3339_instant(started@) is None),
        (rfc3339_instant(ended@) matches Some(e) && rfc3339_instant(started@) matches Some(s) && e.1
            < 1_000_000_000 && s.1 < 1_000_000_000) ==> r == Some(
            whole_ms(
                (rfc3339_instant(ended@)->Some_0.0 - rfc3339_instant(started@)->Some_0.0) * 1_000_000_000
                    + rfc3339_instant(ended@)->Some_0.1 - rfc3339_instant(started@)->Some_0.1,
            ) as i64,
        ),
{
    match (chrono::DateTime::parse_from_rfc3339(ended), chrono::DateTime::parse_from_rfc3339(started)) {
        (Ok(e), Ok(s)) => Some(e.signed_duration_since(s).num_milliseconds()),
        _ => None,
    }
}

/// The task with its running attempt closed at `ended`: the time since the attempt
/// started (nothing when a time does not parse, never negative) is added, saturating,
/// to the processing duration. A task without a running attempt is unchanged.
pub open spec fn attempt_closed(t: TaskV, ended: Seq<char>) -> TaskV {
    match t.processing_started_at {
        None => t,
        Some(started) => {
            let elapsed: nat = match rfc3339_elapsed_ms(ended, started) {
                Some(ms) => if ms > 0 {
                    ms as nat
                } else {
                    0
                },
                None => 0,
            };
            let prev: nat = match t.processing_duration_ms {
                Some(d) => d as nat,
                None => 0,
            };
            let total: u64 = if prev + elapsed > u64::MAX {
                u64::MAX
            } else {
                (prev + elapsed) as u64
            };
            TaskV { processing_started_at: None, processing_duration_ms: Some(total), ..t }
        },
    }
}

/// Closes the running attempt at an explicit end, so that time spent offline is never
/// counted.
pub fn finish_processing_attempt_at(task: &mut TaskRecord, ended_at: &str)
    ensures
        final(task)@ == attempt_closed(old(task)@, ended_at@),
{
    let started = match task.processing_started_at.take() {
        Some(s) => s,
        None => {
            return;
        },
    };
    let elapsed: u64 = match elapsed_ms_between(ended_at, started.as_str()) {
        Some(ms) => if ms > 0 {
            ms as u64
        } else {
            0
        },
        None => 0,
    };
    let prev: u64 = match task.processing_duration_ms {
        Some(d) => d,
        None => 0,
    };
    task.processing_duration_ms = Some(prev.saturating_add(elapsed));
}

/// The task cancelled at `now`: its attempt is closed and it offers nothing more.
pub open spec fn cancelled_task(t: TaskV, now: Seq<char>) -> TaskV {
    TaskV {
        status: TaskStatus::Cancelled,
        progress_bits: None,
        error: None,
        available_actions: Seq::empty(),
        updated_at: now,
        ..attempt_closed(t, now)
    }
}

/// Puts a task in its final cancelled state.
pub fn mark_cancelled(task: &mut TaskRecord, now: &str)
    ensures
        final(task)@ == cancelled_task(old(task)@, now@),
{
    finish_processing_attempt_at(task, now);
    task.status = TaskStatus::Cancelled;
    task.progress_bits = None;
    task.error = None;
    task.available_actions = Vec::new();
    task.updated_at = copy_str(now);
    proof {
        assert(task@.available_actions =~= Seq::<TaskAction>::empty());
    }
}

/// The view of a pipeline outcome.
pub open spec fn outcome_view(o: Result<(), SafeTaskError>) -> Result<(), TaskErrorV> {
    match o {
        Ok(_) => Ok(()),
        Err(e) => Err(e@),
    }
}

/// The task after its pipeline ended: cancelled when cancellation was requested;
/// failed on an error, offering a retry only for a retryable error with attempts left
/// (a retryable error without attempts left becomes the attempt-limit error);
/// unchanged after success.
pub open spec fn settled(t: TaskV, outcome: Result<(), TaskErrorV>, cancelled: bool, now: Seq<char>) -> TaskV {
    if cancelled {
        cancelled_task(t, now)
    } else {
        match outcome {
            Ok(_) => t,
            Err(e) => {
                let can_retry = e.retryable && t.attempt < t.max_attempts;
                TaskV {
                    status: TaskStatus::Failed,
                    progress_bits: None,
                    available_actions: if can_retry {
                        seq![TaskAction::Retry]
                    } else {
                        Seq::empty()
                    },
                    error: Some(
                        if e.retryable && !can_retry {
                            retry_limit_view()
                        } else {
                            e
                        },
                    ),
                    updated_at: now,
                    ..t
                }
            },
        }
    }
}

/// Records how a task's pipeline ended.
pub fn settle_task(
    task: &mut TaskRecord,
    outcome: Result<(), SafeTaskError>,
    cancelled: bool,
    now: &str,
)
    ensures
        final(task)@ == settled(old(task)@, outcome_view(outcome), cancelled, now@),
{
    if cancelled {
        mark_cancelled(task, now);
        return;
    }
    match outcome {
        Ok(_) => {},
        Err(error) => {
            let can_retry = error.retryable && task.attempt < task.max_attempts;
            task.status = TaskStatus::Failed;
            task.progress_bits = None;
            let mut actions: Vec<TaskAction> = Vec::new();
            if can_retry {
                actions.push(TaskAction::Retry);
            }
            task.available_actions = actions;
            task.error = Some(
                if error.retryable && !can_retry {
                    retry_limit_error()
                } else {
                    error
                },
            );
            task.updated_at = copy_str(now);
            proof {
                if can_retry {
                    assert(task@.available_actions =~= seq![TaskAction::Retry]);
                } else {
                    assert(task@.available_actions =~= Seq::<TaskAction>::empty());
                }
            }
        },
    }
}

/// Whether a settled task's staged audio can be released: it completed, was cancelled,
/// or failed for good.
pub open spec fn needs_cleanup(t: TaskV) -> bool {
    t.status == TaskStatus::Completed || t.status == TaskStatus::Cancelled || (t.error matches Some(
        e,
    ) && !e.retryable)
}

/// Whether a settled task's staged audio should be released.
pub fn needs_artifact_cleanup(task: &TaskRecord) -> (r: bool)
    ensures
        r == needs_cleanup(task@),
{
    task.status == TaskStatus::Completed || task.status == TaskStatus::Cancelled || match &task.error {
        Some(e) => !e.retryable,
        None => false,
    }
}

/// The task whose meeting was saved but whose staged audio could not be released: it
/// fails retryably and offers both the retry of the cleanup and the meeting.
pub open spec fn cleanup_failed(t: TaskV, now: Seq<char>) -> TaskV {
    TaskV {
        status: TaskStatus::Failed,
        progress_bits: None,
        available_actions: seq![TaskAction::Retry, TaskAction::OpenMeeting],
        error: Some(
            plain_error(
                "artifact_cleanup_failed"@,
                true,
                "会议已保存，但音频暂存副本清理失败；关闭占用程序后重试清理"@,
            ),
        ),
        updated_at: now,
        ..t
    }
}

/// Records a failed release of the staged audio after a saved meeting.
pub fn record_cleanup_failure(task: &mut TaskRecord, now: &str)
    ensures
        final(task)@ == cleanup_failed(old(task)@, now@),
{
    task.status = TaskStatus::Failed;
    task.progress_bits = None;
    let mut actions: Vec<TaskAction> = Vec::new();
    actions.push(TaskAction::Retry);
    actions.push(TaskAction::OpenMeeting);
    task.available_actions = actions;
    task.error = Some(
        safe_error(
            "artifact_cleanup_failed",
            true,
            "会议已保存，但音频暂存副本清理失败；关闭占用程序后重试清理",
        ),
    );
    task.updated_at = copy_str(now);
    proof {
        assert(task@.available_actions =~= seq![TaskAction::Retry, TaskAction::OpenMeeting]);
    }
}

/// The task whose final state could not be saved the first time: it fails retryably and
/// still offers its meeting when there is one.
pub open spec fn terminal_fallback(t: TaskV, now: Seq<char>) -> TaskV {
    TaskV {
        status: TaskStatus::Failed,
        progress_bits: None,
        error: Some(
            plain_error(
                "terminal_state_persist_failed"@,
                true,
                "任务结果状态未能完整保存，请重启应用后检查本地记录"@,
            ),
        ),
        available_actions: if t.meeting_id is Some {
            seq![TaskAction::OpenMeeting]
        } else {
            Seq::empty()
        },
        updated_at: now,
        ..t
    }
}

/// Downgrades a task whose final state failed to save, before one more save.
pub fn fall_back_terminal_state(task: &mut TaskRecord, now: &str)
    ensures
        final(task)@ == terminal_fallback(old(task)@, now@),
{
    task.status = TaskStatus::Failed;
    task.progress_bits = None;
    task.error = Some(
        safe_error(
            "terminal_state_persist_failed",
            true,
            "任务结果状态未能完整保存，请重启应用后检查本地记录",
        ),
    );
    let mut actions: Vec<TaskAction> = Vec::new();
    if task.meeting_id.is_some() {
        actions.push(TaskAction::OpenMeeting);
    }
    task.available_actions = actions;
    task.updated_at = copy_str(now);
    proof {
        if task@.meeting_id is Some {
            assert(task@.available_actions =~= seq![TaskAction::OpenMeeting]);
        } else {
            assert(task@.available_actions =~= Seq::<TaskAction>::empty());
        }
    }
}

/// The task whose meeting was saved: completed, offering the meeting.
pub open spec fn completed_task(t: TaskV, meeting_id: Seq<char>, now: Seq<char>) -> TaskV {
    TaskV {
        meeting_id: Some(meeting_id),
        status: TaskStatus::Completed,
        progress_bits: Some(PROGRESS_DONE_BITS),
        error: None,
        available_actions: seq![TaskAction::OpenMeeting],
        updated_at: now,
        ..t
    }
}

/// Marks a task completed with its saved meeting.
pub fn complete_task(task: &mut TaskRecord, meeting_id: String, now: &str)
    ensures
        final(task)@ == completed_task(old(task)@, meeting_id@, now@),
{
    task.meeting_id = Some(meeting_id);
    task.status = TaskStatus::Completed;
    task.progress_bits = Some(PROGRESS_DONE_BITS);
    task.error = None;
    let mut actions: Vec<TaskAction> = Vec::new();
    actions.push(TaskAction::OpenMeeting);
    task.available_actions = actions;
    task.updated_at = copy_str(now);
    proof {
        assert(task@.available_actions =~= seq![TaskAction::OpenMeeting]);
    }
}

/// The task recovered after a restart of the application: a requested cancellation is
/// completed, and an unfinished task is interrupted (offering a new file while attempts
/// remain); its attempt is closed at its last update, so that offline time is never
/// counted. Finished and already interrupted tasks need nothing.
pub open spec fn recovered(t: TaskV, now: Seq<char>) -> Option<TaskV> {
    if t.status == TaskStatus::CancelRequested {
        Some(cancelled_task(attempt_closed(t, t.updated_at), now))
    } else if !terminal_status(t.status) && t.status != TaskStatus::Interrupted {
        let c = attempt_closed(t, t.updated_at);
        let attempts_left = c.attempt < c.max_attempts;
        Some(
            TaskV {
                status: TaskStatus::Interrupted,
                progress_bits: None,
                error: Some(
                    if attempts_left {
                        plain_error(
                            "app_restarted"@,
                            true,
                            "应用上次退出时任务尚未完成，请重新选择文件后重试"@,
                        )
                    } else {
                        retry_limit_view()
                    },
                ),
                available_actions: if attempts_left {
                    seq![TaskAction::ReselectFile]
                } else {
                    Seq::empty()
                },
                updated_at: now,
                ..c
            },
        )
    } else {
        None
    }
}

/// Recovers a task left behind by an earlier run; returns whether it changed and must
/// be saved.
pub fn recover_interrupted_task(task: &mut TaskRecord, now: &str) -> (changed: bool)
    ensures
        match recovered(old(task)@, now@) {
            Some(v) => changed && final(task)@ == v,
            None => !changed && final(task)@ == old(task)@,
        },
{
    if task.status == TaskStatus::CancelRequested {
        let last_active_at = task.updated_at.clone();
        finish_processing_attempt_at(task, last_active_at.as_str());
        mark_cancelled(task, now);
        return true;
    }
    if task.status.is_terminal() || task.status == TaskStatus::Interrupted {
        return false;
    }
    let last_active_at = task.updated_at.clone();
    finish_processing_attempt_at(task, last_active_at.as_str());
    task.status = TaskStatus::Interrupted;
    task.progress_bits = None;
    let mut actions: Vec<TaskAction> = Vec::new();
    if task.attempt < task.max_attempts {
        task.error = Some(
            safe_error(
                "app_restarted",
                true,
                "应用上次退出时任务尚未完成，请重新选择文件后重试",
            ),
        );
        actions.push(TaskAction::ReselectFile);
    } else {
        task.error = Some(retry_limit_error());
    }
    task.available_actions = actions;
    task.updated_at = copy_str(now);
    proof {
        if task@.attempt < task@.max_attempts {
            assert(task@.available_actions =~= seq![TaskAction::ReselectFile]);
        } else {
            assert(task@.available_actions =~= Seq::<TaskAction>::empty());
        }
    }
    true
}

/// The task that has used up its attempts: it fails for good and offers nothing.
pub open spec fn retry_exhausted(t: TaskV, now: Seq<char>) -> TaskV {
    TaskV {
        status: TaskStatus::Failed,
        progress_bits: None,
        error: Some(retry_limit_view()),
        available_actions: Seq::empty(),
        updated_at: now,
        ..t
    }
}

/// Allows another attempt only while attempts remain; otherwise the task is marked as
/// having used them up (to be saved) and the attempt is refused.
pub fn ensure_retry_available(task: &mut TaskRecord, now: &str) -> (r: Result<(), CommandError>)
    ensures
        old(task)@.attempt < old(task)@.max_attempts ==> r is Ok && final(task)@ == old(task)@,
        old(task)@.attempt >= old(task)@.max_attempts ==> r is Err && r->Err_0@ == command_error(
            "retry_limit_reached"@,
            "任务已达到最大尝试次数"@,
            false,
        ) && final(task)@ == retry_exhausted(old(task)@, now@),
{
    if task.attempt < task.max_attempts {
        return Ok(());
    }
    task.status = TaskStatus::Failed;
    task.progress_bits = None;
    task.error = Some(retry_limit_error());
    task.available_actions = Vec::new();
    task.updated_at = copy_str(now);
    proof {
        assert(task@.available_actions =~= Seq::<TaskAction>::empty());
    }
    Err(CommandError::new("retry_limit_reached", "任务已达到最大尝试次数", false))
}

/// The task queued for its next attempt.
pub open spec fn restarted(t: TaskV, now: Seq<char>) -> TaskV {
    TaskV {
        status: TaskStatus::Queued,
        attempt: if t.attempt == u32::MAX {
            u32::MAX
        } else {
            (t.attempt + 1) as u32
        },
        progress_bits: Some(PROGRESS_QUEUED_BITS),
        error: None,
        available_actions: seq![TaskAction::Cancel],
        updated_at: now,
        ..t
    }
}

/// Queues a task for its next attempt.
pub fn restart_attempt(task: &mut TaskRecord, now: &str)
    ensures
        final(task)@ == restarted(old(task)@, now@),
{
    task.status = TaskStatus::Queued;
    task.attempt = task.attempt.saturating_add(1);
    task.progress_bits = Some(PROGRESS_QUEUED_BITS);
    task.error = None;
    let mut actions: Vec<TaskAction> = Vec::new();
    actions.push(TaskAction::Cancel);
    task.available_actions = actions;
    task.updated_at = copy_str(now);
    proof {
        assert(task@.available_actions =~= seq![TaskAction::Cancel]);
    }
}

/// What a cancellation request did.
#[derive(Debug, Clone, Copy, PartialEq, Eq, Structural)]
pub enum CancelOutcome {
    /// The task had already finished and is unchanged.
    AlreadyFinished,
    /// The running pipeline is asked to stop.
    Requested,
    /// The task had no running pipeline and is now cancelled.
    Cancelled,
}

/// Handles a cancellation request: a finished task is left as it is, a task that is
/// saving its result cannot be cancelled, a running pipeline is asked to stop, and a
/// task without one is cancelled at once.
pub fn request_cancel(task: &mut TaskRecord, pipeline_running: bool, now: &str) -> (r: Result<
    CancelOutcome,
    CommandError,
>)
    ensures
        terminal_status(old(task)@.status) ==> r == Ok::<CancelOutcome, CommandError>(
            CancelOutcome::AlreadyFinished,
        ) && final(task)@ == old(task)@,
        !terminal_status(old(task)@.status) && old(task)@.status == TaskStatus::Saving ==> r is Err
            && r->Err_0@ == command_error(
            "task_not_cancellable"@,
            "任务正在原子保存结果，当前不能取消"@,
            false,
        ) && final(task)@ == old(task)@,
        !terminal_status(old(task)@.status) && old(task)@.status != TaskStatus::Saving
            && pipeline_running ==> r == Ok::<CancelOutcome, CommandError>(CancelOutcome::Requested)
            && final(task)@ == (TaskV {
            status: TaskStatus::CancelRequested,
            updated_at: now@,
            available_actions: Seq::empty(),
            ..old(task)@
        }),
        !terminal_status(old(task)@.status) && old(task)@.status != TaskStatus::Saving
            && !pipeline_running ==> r == Ok::<CancelOutcome, CommandError>(CancelOutcome::Cancelled)
            && final(task)@ == cancelled_task(old(task)@, now@),
{
    if task.status.is_terminal() {
        return Ok(CancelOutcome::AlreadyFinished);
    }
    if task.status == TaskStatus::Saving {
        return Err(CommandError::new("task_not_cancellable", "任务正在原子保存结果，当前不能取消", false));
    }
    if pipeline_running {
        task.status = TaskStatus::CancelRequested;
        task.updated_at = copy_str(now);
        task.available_actions = Vec::new();
        proof {
            assert(task@.available_actions =~= Seq::<TaskAction>::empty());
        }
        Ok(CancelOutcome::Requested)
    } else {
        mark_cancelled(task, now);
        Ok(CancelOutcome::Cancelled)
    }
}

/// How a retry proceeds.
#[derive(Debug, Clone, Copy, PartialEq, Eq, Structural)]
pub enum RetryPath {
    /// Only the release of the staged audio of a saved meeting is retried.
    ReleaseArtifact,
    /// The pipeline runs again.
    Restart,
}

/// Decides how a retry proceeds: only failed or interrupted tasks can be retried, and a
/// task whose only failure was the release of its audio just retries that release.
pub fn check_retry(task: &TaskRecord) -> (r: Result<RetryPath, CommandError>)
    ensures
        !(task.status == TaskStatus::Failed || task.status == TaskStatus::Interrupted) ==> r is Err
            && r->Err_0@ == command_error("task_not_retryable"@, "该任务当前不能重试"@, false),
        (task.status == TaskStatus::Failed || task.status == TaskStatus::Interrupted) ==> r == if (
        task@.error matches Some(e) && e.code == "artifact_cleanup_failed"@) {
            Ok::<RetryPath, CommandError>(RetryPath::ReleaseArtifact)
        } else {
            Ok::<RetryPath, CommandError>(RetryPath::Restart)
        },
{
    if !(task.status == TaskStatus::Failed || task.status == TaskStatus::Interrupted) {
        return Err(CommandError::new("task_not_retryable", "该任务当前不能重试", false));
    }
    match &task.error {
        Some(e) => {
            if str_eq(e.code.as_str(), "artifact_cleanup_failed") {
                return Ok(RetryPath::ReleaseArtifact);
            }
        },
        None => {},
    }
    Ok(RetryPath::Restart)
}

/// The task whose staged audio was finally released: completed, offering its meeting.
pub open spec fn released(t: TaskV, now: Seq<char>) -> TaskV {
    TaskV {
        status: TaskStatus::Completed,
        progress_bits: Some(PROGRESS_DONE_BITS),
        error: None,
        available_actions: seq![TaskAction::OpenMeeting],
        updated_at: now,
        ..t
    }
}

/// Completes a task once the staged audio of its saved meeting was released.
pub fn complete_after_cleanup(task: &mut TaskRecord, now: &str)
    ensures
        final(task)@ == released(old(task)@, now@),
{
    task.status = TaskStatus::Completed;
    task.progress_bits = Some(PROGRESS_DONE_BITS);
    task.error = None;
    let mut actions: Vec<TaskAction> = Vec::new();
    actions.push(TaskAction::OpenMeeting);
    task.available_actions = actions;
    task.updated_at = copy_str(now);
    proof {
        assert(task@.available_actions =~= seq![TaskAction::OpenMeeting]);
    }
}

/// Requires an interrupted task that asks for a new file.
pub fn check_reselectable(task: &TaskRecord) -> (r: Result<(), CommandError>)
    ensures
        r is Ok <==> (task.status == TaskStatus::Interrupted && offers(
            task.available_actions@,
            TaskAction::ReselectFile,
        )),
        r matches Err(e) ==> e@ == command_error(
            "task_not_reselectable"@,
            "该任务当前不需要重新选择音频"@,
            false,
        ),
{
    if task.status != TaskStatus::Interrupted || !has_action(
        &task.available_actions,
        TaskAction::ReselectFile,
    ) {
        return Err(CommandError::new("task_not_reselectable", "该任务当前不需要重新选择音频", false));
    }
    Ok(())
}

/// The task bound to a newly staged artifact and queued for its next attempt.
pub open spec fn rebound(t: TaskV, artifact: RegisteredArtifact, now: Seq<char>) -> TaskV {
    TaskV {
        artifact_id: artifact.id@,
        display_name: artifact.display_name@,
        ..restarted(t, now)
    }
}

/// Binds a task to a newly staged artifact and queues its next attempt.
pub fn rebind_task(task: &mut TaskRecord, artifact: &RegisteredArtifact, now: &str)
    ensures
        final(task)@ == rebound(old(task)@, *artifact, now@),
{
    task.artifact_id = artifact.id.clone();
    task.display_name = artifact.display_name.clone();
    restart_attempt(task, now);
}

/// Whether another task than `task_id` still holds on to a staged artifact.
pub open spec fn artifact_held_by_other(tasks: Seq<TaskRecord>, task_id: Seq<char>, artifact_id: Seq<
    char,
>) -> bool {
    exists|k: int|
        0 <= k < tasks.len() && (#[trigger] tasks[k])@.id != task_id && tasks[k]@.artifact_id
            == artifact_id && retains(tasks[k]@)
}

/// Whether another task still holds on to a staged artifact.
pub fn artifact_in_use(tasks: &Vec<TaskRecord>, task_id: &str, artifact_id: &str) -> (r: bool)
    ensures
        r == artifact_held_by_other(tasks@, task_id@, artifact_id@),
{
    let mut k: usize = 0;
    while k < tasks.len()
        invariant
            k <= tasks@.len(),
            forall|j: int|
                0 <= j < k ==> !((#[trigger] tasks@[j])@.id != task_id@ && tasks@[j]@.artifact_id
                    == artifact_id@ && retains(tasks@[j]@)),
        decreases tasks@.len() - k,
    {
        let t = &tasks[k];
        if !str_eq(t.id.as_str(), task_id) && str_eq(t.artifact_id.as_str(), artifact_id)
            && t.retains_audio_artifact() {
            return true;
        }
        k = k + 1;
    }
    false
}

/// Whether a list of IDs names one artifact twice.
pub open spec fn has_duplicate(ids: Seq<String>) -> bool {
    exists|i: int, j: int| 0 <= i < j < ids.len() && (#[trigger] ids[i])@ == (#[trigger] ids[j])@
}

/// Whether some task still holds on to one of the artifacts.
pub open spec fn some_artifact_active(ids: Seq<String>, tasks: Seq<TaskRecord>) -> bool {
    exists|i: int, k: int|
        0 <= i < ids.len() && 0 <= k < tasks.len() && retains((#[trigger] tasks[k])@) && tasks[k]@.artifact_id
            == (#[trigger] ids[i])@
}

/// The refusal of a task submission, checked in order: nothing selected, an unknown
/// template, an artifact named twice, an artifact still held by another task.
pub open spec fn submission_error(ids: Seq<String>, template_id: Seq<char>, tasks: Seq<TaskRecord>) -> Option<
    (Seq<char>, Seq<char>),
> {
    if ids.len() == 0 {
        Some(("no_audio_selected"@, "请至少选择一个已通过校验的音频文件"@))
    } else if !is_builtin_id(template_id) {
        Some(("unknown_minutes_template"@, "会议纪要模板不存在"@))
    } else if has_duplicate(ids) {
        Some(("duplicate_artifact_submission"@, "同一音频不能在一个批次中重复提交"@))
    } else if some_artifact_active(ids, tasks) {
        Some(("artifact_already_processing"@, "所选音频已有进行中的任务"@))
    } else {
        None
    }
}

/// Checks a submission of staged artifacts for processing against the current tasks.
pub fn validate_task_submission(artifact_ids: &[String], template_id: &str, tasks: &Vec<TaskRecord>) -> (r:
    Result<(), CommandError>)
    ensures
        match submission_error(artifact_ids@, template_id@, tasks@) {
            Some(e) => r is Err && r->Err_0@ == command_error(e.0, e.1, false),
            None => r is Ok,
        },
{
    if artifact_ids.len() == 0 {
        return Err(CommandError::new("no_audio_selected", "请至少选择一个已通过校验的音频文件", false));
    }
    match get_template(template_id, BUILTIN_TEMPLATE_VERSION) {
        Ok(_) => {},
        Err(error) => {
            proof {
                assert(error == MinutesError::UnknownTemplate);
            }
            return Err(CommandError::new(error.code(), error.message(), false));
        },
    }
    proof {
        assert(is_builtin_id(template_id@));
    }
    let n = artifact_ids.len();
    let mut i: usize = 0;
    while i < n
        invariant
            i <= n == artifact_ids@.len(),
            n > 0,
            is_builtin_id(template_id@),
            forall|a: int, b: int|
                0 <= a < b < artifact_ids@.len() && a < i ==> (#[trigger] artifact_ids@[a])@ != (
                #[trigger] artifact_ids@[b])@,
        decreases n - i,
    {
        let mut j: usize = i + 1;
        while j < n
            invariant
                i < j <= n == artifact_ids@.len(),
                is_builtin_id(template_id@),
                forall|a: int, b: int|
                    0 <= a < b < artifact_ids@.len() && a < i ==> (#[trigger] artifact_ids@[a])@ != (
                    #[trigger] artifact_ids@[b])@,
                forall|b: int| i < b < j ==> artifact_ids@[i as int]@ != (#[trigger] artifact_ids@[b])@,
            decreases n - j,
        {
            if str_eq(artifact_ids[i].as_str(), artifact_ids[j].as_str()) {
                proof {
                    assert(artifact_ids@[i as int]@ == artifact_ids@[j as int]@);
                    assert(has_duplicate(artifact_ids@));
                }
                return Err(
                    CommandError::new("duplicate_artifact_submission", "同一音频不能在一个批次中重复提交", false),
                );
            }
            j = j + 1;
        }
        i = i + 1;
    }
    let mut i: usize = 0;
    while i < n
        invariant
            i <= n == artifact_ids@.len(),
            n > 0,
            is_builtin_id(template_id@),
            !has_duplicate(artifact_ids@),
            forall|a: int, k: int|
                0 <= a < i && 0 <= k < tasks@.len() ==> !(retains((#[trigger] tasks@[k])@)
                    && tasks@[k]@.artifact_id == (#[trigger] artifact_ids@[a])@),
        decreases n - i,
    {
        let mut k: usize = 0;
        while k < tasks.len()
            invariant
                i < n == artifact_ids@.len(),
                is_builtin_id(template_id@),
                !has_duplicate(artifact_ids@),
                k <= tasks@.len(),
                forall|a: int, k2: int|
                    0 <= a < i && 0 <= k2 < tasks@.len() ==> !(retains((#[trigger] tasks@[k2])@)
                        && tasks@[k2]@.artifact_id == (#[trigger] artifact_ids@[a])@),
                forall|k2: int|
                    0 <= k2 < k ==> !(retains((#[trigger] tasks@[k2])@) && tasks@[k2]@.artifact_id
                        == artifact_ids@[i as int]@),
            decreases tasks@.len() - k,
        {
            if tasks[k].retains_audio_artifact() && str_eq(
                tasks[k].artifact_id.as_str(),
                artifact_ids[i].as_str(),
            ) {
                proof {
                    assert(retains(tasks@[k as int]@) && tasks@[k as int]@.artifact_id
                        == artifact_ids@[i as int]@);
                    assert(some_artifact_active(artifact_ids@, tasks@));
                    assert(!has_duplicate(artifact_ids@));
                }
                return Err(CommandError::new("artifact_already_processing", "所选音频已有进行中的任务", false));
            }
            k = k + 1;
        }
        i = i + 1;
    }
    proof {
        assert(!has_duplicate(artifact_ids@));
        assert(!some_artifact_active(artifact_ids@, tasks@));
    }
    Ok(())
}

/// The stages of the processing pipeline, in order.
#[derive(Debug, Clone, Copy, PartialEq, Eq, Structural)]
pub enum PipelineStage {
    Preparing,
    Transcribing,
    ValidatingTranscript,
    Summarizing,
    ValidatingMinutes,
    Saving,
}

/// The task status shown while a stage runs.
pub open spec fn stage_status(stage: PipelineStage) -> TaskStatus {
    match stage {
        PipelineStage::Preparing => TaskStatus::Preparing,
        PipelineStage::Transcribing => TaskStatus::Transcribing,
        PipelineStage::ValidatingTranscript => TaskStatus::ValidatingTranscript,
        PipelineStage::Summarizing => TaskStatus::Summarizing,
        PipelineStage::ValidatingMinutes => TaskStatus::ValidatingMinutes,
        PipelineStage::Saving => TaskStatus::Saving,
    }
}

/// The progress shown while a stage runs.
pub open spec fn stage_progress(stage: PipelineStage) -> u64 {
    match stage {
        PipelineStage::Preparing => PROGRESS_PREPARING_BITS,
        PipelineStage::Transcribing => PROGRESS_TRANSCRIBING_BITS,
        PipelineStage::ValidatingTranscript => PROGRESS_VALIDATING_TRANSCRIPT_BITS,
        PipelineStage::Summarizing => PROGRESS_SUMMARIZING_BITS,
        PipelineStage::ValidatingMinutes => PROGRESS_VALIDATING_MINUTES_BITS,
        PipelineStage::Saving => PROGRESS_SAVING_BITS,
    }
}

/// The stage after a stage, if any.
pub open spec fn stage_after(stage: PipelineStage) -> Option<PipelineStage> {
    match stage {
        PipelineStage::Preparing => Some(PipelineStage::Transcribing),
        PipelineStage::Transcribing => Some(PipelineStage::ValidatingTranscript),
        PipelineStage::ValidatingTranscript => Some(PipelineStage::Summarizing),
        PipelineStage::Summarizing => Some(PipelineStage::ValidatingMinutes),
        PipelineStage::ValidatingMinutes => Some(PipelineStage::Saving),
        PipelineStage::Saving => None,
    }
}

/// The stage that follows a stage; the pipeline ends after saving.
pub fn next_stage(stage: PipelineStage) -> (r: Option<PipelineStage>)
    ensures
        r == stage_after(stage),
{
    match stage {
        PipelineStage::Preparing => Some(PipelineStage::Transcribing),
        PipelineStage::Transcribing => Some(PipelineStage::ValidatingTranscript),
        PipelineStage::ValidatingTranscript => Some(PipelineStage::Summarizing),
        PipelineStage::Summarizing => Some(PipelineStage::ValidatingMinutes),
        PipelineStage::ValidatingMinutes => Some(PipelineStage::Saving),
        PipelineStage::Saving => None,
    }
}

/// The task entering a stage; saving withdraws every action first.
pub open spec fn entered(t: TaskV, stage: PipelineStage, now: Seq<char>) -> TaskV {
    let t1 = if stage == PipelineStage::Saving {
        TaskV { available_actions: Seq::empty(), ..t }
    } else {
        t
    };
    staged(t1, stage_status(stage), stage_progress(stage), now)
}

/// Enters a pipeline stage unless cancellation was requested, in which case the
/// pipeline stops with the cancellation error and the task is unchanged.
pub fn enter_stage(task: &mut TaskRecord, stage: PipelineStage, cancelled: bool, now: &str) -> (r:
    Result<(), SafeTaskError>)
    ensures
        cancelled ==> (r matches Err(e) && e@ == plain_error("cancelled"@, false, "任务已取消"@))
            && final(task)@ == old(task)@,
        !cancelled ==> r is Ok && final(task)@ == entered(old(task)@, stage, now@),
{
    if cancelled {
        return Err(cancelled_error());
    }
    if stage == PipelineStage::Saving {
        task.available_actions = Vec::new();
        proof {
            assert(task@ == (TaskV { available_actions: Seq::empty(), ..old(task)@ }));
        }
    }
    let (status, progress) = match stage {
        PipelineStage::Preparing => (TaskStatus::Preparing, PROGRESS_PREPARING_BITS),
        PipelineStage::Transcribing => (TaskStatus::Transcribing, PROGRESS_TRANSCRIBING_BITS),
        PipelineStage::ValidatingTranscript => (
            TaskStatus::ValidatingTranscript,
            PROGRESS_VALIDATING_TRANSCRIPT_BITS,
        ),
        PipelineStage::Summarizing => (TaskStatus::Summarizing, PROGRESS_SUMMARIZING_BITS),
        PipelineStage::ValidatingMinutes => (
            TaskStatus::ValidatingMinutes,
            PROGRESS_VALIDATING_MINUTES_BITS,
        ),
        PipelineStage::Saving => (TaskStatus::Saving, PROGRESS_SAVING_BITS),
    };
    begin_stage(task, status, progress, now);
    Ok(())
}

/// Ends the pipeline after the meeting was saved: a cancellation requested meanwhile
/// wins (the caller then deletes the meeting) and leaves the task unchanged; otherwise
/// the task is completed with the meeting.
pub fn finish_pipeline(task: &mut TaskRecord, meeting_id: String, cancelled: bool, now: &str) -> (r:
    Result<(), SafeTaskError>)
    ensures
        cancelled ==> (r matches Err(e) && e@ == plain_error("cancelled"@, false, "任务已取消"@))
            && final(task)@ == old(task)@,
        !cancelled ==> r is Ok && final(task)@ == completed_task(old(task)@, meeting_id@, now@),
{
    if cancelled {
        return Err(cancelled_error());
    }
    complete_task(task, meeting_id, now);
    Ok(())
}

/// The title of a meeting without one: the file stem when it is not blank, else the
/// default title.
pub open spec fn stem_title_of(stem: Option<Seq<char>>) -> Seq<char> {
    match stem {
        Some(s) => if is_blank(s) {
            "会议纪要"@
        } else {
            s
        },
        None => "会议纪要"@,
    }
}

/// The title of a meeting from the file stem of its source.
pub fn stem_title(stem: Option<String>) -> (r: String)
    ensures
        r@ == stem_title_of(opt_view(stem)),
{
    match stem {
        Some(s) => if str_is_blank(s.as_str()) {
            copy_str("会议纪要")
        } else {
            s
        },
        None => copy_str("会议纪要"),
    }
}

/// A name that every platform reads as a single path component: no `/`, no `\\`, and
/// no drive colon.
pub open spec fn one_component_name(s: Seq<char>) -> bool {
    forall|i: int| 0 <= i < s.len() ==> #[trigger] s[i] != '/' && s[i] != '\\' && s[i] != ':'
}

/// The position of the last occurrence of `c` in `s`, or -1.
pub open spec fn last_index_of(s: Seq<char>, c: char) -> int
    decreases s.len(),
{
    if s.len() == 0 {
        -1
    } else if s.last() == c {
        s.len() - 1
    } else {
        last_index_of(s.drop_last(), c)
    }
}

/// The stem of a one-component name as `Path::file_stem` documents it: none for an
/// empty name, `.` or `..`; the whole name when it has no dot or only a leading one;
/// otherwise the part before the last dot.
pub open spec fn portable_stem(s: Seq<char>) -> Option<Seq<char>> {
    if s.len() == 0 || s == seq!['.'] || s == seq!['.', '.'] {
        None
    } else {
        let k = last_index_of(s, '.');
        if k <= 0 {
            Some(s)
        } else {
            Some(s.subrange(0, k))
        }
    }
}

/// The file stem of a display name as `std::path::Path::file_stem` reads it on this
/// platform. Path syntax differs between platforms; what std gives on every platform
/// for a single-component name is stated.
#[verifier::external_body]
fn file_stem_of(display_name: &str) -> (r: Option<String>)
    ensures
        one_component_name(display_name@) ==> opt_view(r) == portable_stem(display_name@),
{
    std::path::Path::new(display_name).file_stem().and_then(|value| value.to_str()).map(
        |value| value.to_string(),
    )
}

/// A safe title from a display file name: its stem without the extension, or the
/// default title when there is no usable stem.
pub fn display_stem(display_name: &str) -> (r: String)
    ensures
        !is_blank(r@),
        one_component_name(display_name@) ==> r@ == stem_title_of(portable_stem(display_name@)),
{
    let stem = file_stem_of(display_name);
    let r = stem_title(stem);
    proof {
        reveal_strlit("会议纪要");
        crate::text::lemma_blank_iff_all_ws("会议纪要"@);
        assert(!crate::text::is_ws("会议纪要"@[0]));
    }
    r
}

/// A settled task releases its staged audio exactly when it no longer holds on to it:
/// whether the pipeline failed, was cancelled, or completed its meeting.
pub proof fn law_settled_task_releases_audio_iff_not_retained(
    t: TaskV,
    outcome: Result<(), TaskErrorV>,
    cancelled: bool,
    now: Seq<char>,
)
    requires
        cancelled || outcome is Err || (t.status == TaskStatus::Completed && t.available_actions
            == seq![TaskAction::OpenMeeting]),
    ensures
        needs_cleanup(settled(t, outcome, cancelled, now)) <==> !retains(
            settled(t, outcome, cancelled, now),
        ),
{
    let s = settled(t, outcome, cancelled, now);
    if !cancelled {
        if outcome is Ok {
            assert(!seq![TaskAction::OpenMeeting].contains(TaskAction::Retry)) by {
                if seq![TaskAction::OpenMeeting].contains(TaskAction::Retry) {
                    let k = choose|k: int| 0 <= k < 1 && seq![TaskAction::OpenMeeting][k] == TaskAction::Retry;
                    assert(seq![TaskAction::OpenMeeting][k] == TaskAction::OpenMeeting);
                }
            }
        } else {
            let e = outcome->Err_0;
            let can_retry = e.retryable && t.attempt < t.max_attempts;
            if can_retry {
                assert(seq![TaskAction::Retry][0] == TaskAction::Retry);
                assert(s.available_actions.contains(TaskAction::Retry));
            } else {
                assert(!Seq::<TaskAction>::empty().contains(TaskAction::Retry));
            }
        }
    } else {
        assert(!Seq::<TaskAction>::empty().contains(TaskAction::Retry));
    }
}

/// A failed task offers a retry only while it has attempts left, so a retry it offers
/// is never refused for the attempt limit.
pub proof fn law_offered_retry_has_attempts_left(t: TaskV, error: TaskErrorV, now: Seq<char>)
    ensures
        offers(settled(t, Err(error), false, now).available_actions, TaskAction::Retry) ==> t.attempt
            < t.max_attempts,
{
    if !(error.retryable && t.attempt < t.max_attempts) {
        assert(!Seq::<TaskAction>::empty().contains(TaskAction::Retry));
    }
}

/// A task never starts more attempts than it allows: a restart, with or without a newly
/// selected file, happens only while attempts remain and stays within the limit.
pub proof fn law_restart_stays_within_attempts(t: TaskV, artifact: RegisteredArtifact, now: Seq<char>)
    requires
        t.attempt < t.max_attempts,
    ensures
        restarted(t, now).attempt == t.attempt + 1,
        restarted(t, now).attempt <= restarted(t, now).max_attempts,
        rebound(t, artifact, now).attempt <= rebound(t, artifact, now).max_attempts,
{
}

/// A new task is running, holds on to its audio, and is within its attempts.
pub proof fn law_new_task_holds_its_audio(
    id: Seq<char>,
    artifact: RegisteredArtifact,
    batch_id: Option<Seq<char>>,
    template_id: Seq<char>,
    max_attempts: u32,
    now: Seq<char>,
)
    ensures
        retains(new_task_view(id, artifact, batch_id, template_id, max_attempts, now)),
        1 <= new_task_view(id, artifact, batch_id, template_id, max_attempts, now).attempt
            <= new_task_view(id, artifact, batch_id, template_id, max_attempts, now).max_attempts,
{
}

/// A cancelled task is final, offers nothing, shows no error, has no running attempt,
/// and gives up its staged audio.
pub proof fn law_cancelled_task_holds_nothing(t: TaskV, now: Seq<char>)
    ensures
        terminal_status(cancelled_task(t, now).status),
        cancelled_task(t, now).available_actions.len() == 0,
        cancelled_task(t, now).error is None,
        cancelled_task(t, now).processing_started_at is None,
        !retains(cancelled_task(t, now)),
        needs_cleanup(cancelled_task(t, now)),
{
    assert(!Seq::<TaskAction>::empty().contains(TaskAction::Retry));
}

/// After recovery no task is left running: every task is finished or interrupted, and
/// recovering again changes nothing.
pub proof fn law_recovery_leaves_no_running_task(t: TaskV, now: Seq<char>, later: Seq<char>)
    ensures
        match recovered(t, now) {
            Some(v) => (v.status == TaskStatus::Cancelled || v.status == TaskStatus::Interrupted)
                && recovered(v, later) is None,
            None => terminal_status(t.status) || t.status == TaskStatus::Interrupted,
        },
{
}

/// The "failed" list filter shows exactly the failed and the interrupted tasks, the
/// "completed" filter exactly the completed ones, and an unknown filter shows every task.
pub proof fn law_failed_filter_shows_failed_and_interrupted(status: TaskStatus, other: Seq<char>)
    requires
        other != "active"@ && other != "failed"@ && other != "completed"@,
    ensures
        filter_shows(status, "failed"@) <==> (status == TaskStatus::Failed || status == TaskStatus::Interrupted),
        filter_shows(status, "completed"@) <==> status == TaskStatus::Completed,
        filter_shows(status, other),
{
    reveal_strlit("active");
    reveal_strlit("failed");
    reveal_strlit("completed");
    assert("failed"@[0] != "active"@[0]);
    assert("completed"@[0] != "active"@[0] && "completed"@[0] != "failed"@[0]);
}

} // verus!
