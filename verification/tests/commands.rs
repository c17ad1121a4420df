use meeting_desk::commands::ingest::{
    ensure_audio_selection_ready, localize_ingest_error, mark_active_artifacts_unavailable,
    validate_staging_capacity, ImportCandidate, RegisteredArtifact,
};
use meeting_desk::commands::tasks::{
    begin_stage, check_reselectable, check_retry, complete_after_cleanup, enter_stage,
    ensure_retry_available, fall_back_terminal_state, finish_pipeline,
    finish_processing_attempt_at, mark_cancelled, needs_artifact_cleanup, new_task as create_task,
    next_stage, rebind_task, record_cleanup_failure, recover_interrupted_task, request_cancel,
    resolve_batch_artifacts, settle_task, stem_title, task_can_be_deleted, task_matches_filter,
    validate_task_submission, with_available_delete_action, artifact_in_use, display_stem,
    CancelOutcome, PipelineStage, RetryPath, TaskRecord, PROGRESS_DONE_BITS,
    PROGRESS_PREPARING_BITS,
};
use meeting_desk::domain::SafeTaskError;
use meeting_desk::domain::{PublicSettings, TaskAction, TaskStatus};
use meeting_desk::ingest::policy::IngestPolicy;

fn ready_settings() -> PublicSettings {
    let mut settings = PublicSettings::default();
    settings.transcription.secret_configured = true;
    settings.transcription.ready = true;
    settings.minutes.secret_configured = true;
    settings.minutes.ready = true;
    settings
}

fn registered_artifact(id: &str, byte_length: u64) -> RegisteredArtifact {
    RegisteredArtifact {
        id: id.to_string(),
        display_name: format!("{id}.wav"),
        source_path: format!("staging/{id}.wav"),
        mime_type: "audio/wav".to_string(),
        byte_length,
        duration_ms: None,
    }
}

fn new_task(artifact: &RegisteredArtifact) -> TaskRecord {
    TaskRecord {
        id: format!("task-{}", artifact.id),
        artifact_id: artifact.id.clone(),
        batch_id: None,
        meeting_id: None,
        display_name: artifact.display_name.clone(),
        template_id: "standard_meeting".to_string(),
        status: TaskStatus::Queued,
        progress_bits: None,
        attempt: 0,
        max_attempts: 3,
        error: None,
        created_at: "2026-07-21T01:00:00Z".to_string(),
        updated_at: "2026-07-21T01:00:00Z".to_string(),
        processing_started_at: None,
        processing_duration_ms: None,
        available_actions: vec![TaskAction::Cancel],
    }
}

#[test]
fn blocks_audio_selection_until_both_providers_are_ready() {
    let mut settings = ready_settings();
    settings.minutes.ready = false;
    let error = ensure_audio_selection_ready(&settings).expect_err("block incomplete settings");
    assert_eq!(error.code, "provider_configuration_required");

    settings.minutes.ready = true;
    assert!(ensure_audio_selection_ready(&settings).is_ok());
}

#[test]
fn active_duplicate_candidate_is_not_submittable_or_releasable() {
    let mut candidates = vec![ImportCandidate {
        id: "artifact-active".to_string(),
        artifact_id: Some("artifact-active".to_string()),
        display_name: "重复音频.wav".to_string(),
        mime_type: Some("audio/wav".to_string()),
        size_bytes: Some(128),
        duration_ms: None,
        validation_status: "ready",
        safe_message: None,
    }];
    let active = vec!["artifact-active".to_string()];

    mark_active_artifacts_unavailable(&mut candidates, &active);

    assert_eq!(candidates[0].validation_status, "invalid");
    assert!(candidates[0].artifact_id.is_none());
    assert_eq!(
        candidates[0].safe_message.as_deref(),
        Some("该音频已有进行中的任务")
    );
}

#[test]
fn inactive_candidate_is_left_unchanged() {
    let mut candidates = vec![ImportCandidate {
        id: "artifact-free".to_string(),
        artifact_id: Some("artifact-free".to_string()),
        display_name: "会议.wav".to_string(),
        mime_type: Some("audio/wav".to_string()),
        size_bytes: Some(128),
        duration_ms: None,
        validation_status: "ready",
        safe_message: None,
    }];
    mark_active_artifacts_unavailable(&mut candidates, &["other".to_string()]);
    assert_eq!(candidates[0].validation_status, "ready");
    assert_eq!(candidates[0].artifact_id.as_deref(), Some("artifact-free"));
    assert!(candidates[0].safe_message.is_none());
}

#[test]
fn rejects_staging_growth_across_multiple_selections() {
    let count_policy = IngestPolicy::new(100, 1, 200).expect("count policy");
    let count_error = validate_staging_capacity(&[60], &[Some(60)], count_policy)
        .expect_err("reject cumulative staging count");
    assert!(count_error.safe_message.contains("数量"));

    let policy = IngestPolicy::new(100, 3, 100).expect("create policy");
    let error = validate_staging_capacity(&[60], &[Some(60)], policy)
        .expect_err("reject cumulative staging bytes");
    assert_eq!(error.code, "batch_limit_exceeded");
}

#[test]
fn staging_within_limits_is_accepted() {
    let policy = IngestPolicy::new(100, 3, 200).expect("create policy");
    assert!(validate_staging_capacity(&[60], &[Some(60), None], policy).is_ok());
}

#[test]
fn rejects_logical_batch_over_cumulative_limits() {
    let registry = vec![
        registered_artifact("a", 60),
        registered_artifact("b", 60),
        registered_artifact("c", 10),
    ];
    let count_policy = IngestPolicy::new(100, 2, 200).expect("count policy");
    let count_error = resolve_batch_artifacts(
        &["a".to_string(), "b".to_string(), "c".to_string()],
        &registry,
        count_policy,
    )
    .expect_err("reject cumulative item count");
    assert_eq!(count_error.code, "batch_limit_exceeded");

    let bytes_policy = IngestPolicy::new(100, 3, 100).expect("bytes policy");
    let bytes_error = resolve_batch_artifacts(&["a".to_string(), "b".to_string()], &registry, bytes_policy)
        .expect_err("reject cumulative bytes");
    assert_eq!(bytes_error.code, "batch_limit_exceeded");
}

#[test]
fn resolves_batch_in_request_order() {
    let registry = vec![registered_artifact("a", 60), registered_artifact("c", 10)];
    let policy = IngestPolicy::new(100, 3, 200).expect("policy");
    let resolved = resolve_batch_artifacts(&["c".to_string(), "a".to_string()], &registry, policy)
        .expect("known artifacts");
    assert_eq!(resolved.len(), 2);
    assert_eq!(resolved[0].id, "c");
    assert_eq!(resolved[1].id, "a");
}

#[test]
fn unknown_batch_artifact_is_refused() {
    let registry = vec![registered_artifact("a", 60)];
    let policy = IngestPolicy::new(100, 3, 200).expect("policy");
    assert!(resolve_batch_artifacts(&["missing".to_string()], &registry, policy).is_err());
}

#[test]
fn retryable_failed_task_retains_audio_artifact() {
    let artifact = registered_artifact("retryable", 60);
    let mut task = new_task(&artifact);
    task.status = TaskStatus::Failed;
    task.available_actions = vec![TaskAction::Retry];

    assert!(task.retains_audio_artifact());

    task.available_actions.clear();
    assert!(!task.retains_audio_artifact());
}

#[test]
fn delete_action_is_limited_to_failed_tasks_without_meetings() {
    let artifact = registered_artifact("deletable", 60);
    let mut task = new_task(&artifact);
    task.status = TaskStatus::Failed;
    task.available_actions.clear();
    assert!(task_can_be_deleted(&task));
    let task = with_available_delete_action(task);
    assert!(task.available_actions.contains(&TaskAction::Delete));

    let mut task = task;
    task.status = TaskStatus::Completed;
    assert!(!task_can_be_deleted(&task));
    task.status = TaskStatus::Failed;
    task.meeting_id = Some("meeting-protected".to_string());
    assert!(!task_can_be_deleted(&task));
}

#[test]
fn task_filters_select_by_status() {
    let artifact = registered_artifact("filter", 60);
    let mut task = new_task(&artifact);
    assert!(task_matches_filter(&task, "active"));
    assert!(!task_matches_filter(&task, "completed"));
    task.status = TaskStatus::Interrupted;
    assert!(task_matches_filter(&task, "failed"));
    assert!(task_matches_filter(&task, "all"));
}

#[test]
fn unknown_ingest_key_gets_generic_message() {
    assert_eq!(
        localize_ingest_error("no_such_key"),
        "媒体文件无法导入，请检查文件后重试"
    );
    assert_eq!(
        localize_ingest_error("ingest.error.empty_audio"),
        "媒体文件为空"
    );
}

fn safe_error(code: &str, retryable: bool) -> SafeTaskError {
    SafeTaskError {
        code: code.to_string(),
        retryable,
        safe_message: "失败".to_string(),
        http_status: None,
        retry_after_ms: None,
    }
}

#[test]
fn new_task_is_queued_with_one_attempt() {
    let artifact = registered_artifact("artifact-1", 60);
    let task = create_task(
        "task-1".to_string(),
        &artifact,
        None,
        "standard_meeting",
        0,
        "2026-07-21T01:00:00Z",
    );
    assert_eq!(task.status, TaskStatus::Queued);
    assert_eq!(task.attempt, 1);
    assert_eq!(task.max_attempts, 1);
    assert_eq!(task.progress_bits, Some(0));
    assert_eq!(task.processing_duration_ms, Some(0));
    assert_eq!(task.available_actions, vec![TaskAction::Cancel]);
    assert_eq!(task.display_name, "artifact-1.wav");
    assert!(task.retains_audio_artifact());
}

#[test]
fn first_stage_starts_the_attempt_clock_once() {
    let artifact = registered_artifact("clock", 60);
    let mut task = new_task(&artifact);
    begin_stage(&mut task, TaskStatus::Preparing, PROGRESS_PREPARING_BITS, "2026-07-21T01:00:00Z");
    begin_stage(&mut task, TaskStatus::Transcribing, 1, "2026-07-21T01:00:09Z");
    assert_eq!(task.processing_started_at.as_deref(), Some("2026-07-21T01:00:00Z"));
    assert_eq!(task.status, TaskStatus::Transcribing);
    assert_eq!(task.updated_at, "2026-07-21T01:00:09Z");
    assert_eq!(f64::from_bits(PROGRESS_PREPARING_BITS), 0.08);
    assert_eq!(f64::from_bits(PROGRESS_DONE_BITS), 1.0);
}

#[test]
fn closing_an_attempt_adds_elapsed_time() {
    let artifact = registered_artifact("elapsed", 60);
    let mut task = new_task(&artifact);
    task.processing_started_at = Some("2026-07-21T01:00:00Z".to_string());
    task.processing_duration_ms = Some(1_000);
    finish_processing_attempt_at(&mut task, "2026-07-21T01:02:03Z");
    assert_eq!(task.processing_duration_ms, Some(124_000));
    assert!(task.processing_started_at.is_none());

    task.processing_started_at = Some("2026-07-21T01:00:00Z".to_string());
    finish_processing_attempt_at(&mut task, "not a time");
    assert_eq!(task.processing_duration_ms, Some(124_000));
}

#[test]
fn recovers_cancel_requested_and_active_tasks() {
    let artifact = registered_artifact("artifact-recovery", 128);
    let mut cancel_requested = new_task(&artifact);
    cancel_requested.status = TaskStatus::CancelRequested;
    cancel_requested.available_actions.clear();
    assert!(recover_interrupted_task(&mut cancel_requested, "2026-07-21T02:00:00Z"));
    assert_eq!(cancel_requested.status, TaskStatus::Cancelled);

    let mut active = new_task(&artifact);
    active.id = "active-recovery".to_string();
    active.status = TaskStatus::Transcribing;
    active.processing_started_at = Some("2026-07-21T01:00:00Z".to_string());
    active.processing_duration_ms = Some(0);
    active.attempt = 1;
    active.updated_at = "2026-07-21T01:00:05Z".to_string();
    assert!(recover_interrupted_task(&mut active, "2026-07-21T02:00:00Z"));
    assert_eq!(active.status, TaskStatus::Interrupted);
    assert_eq!(active.processing_duration_ms, Some(5_000));
    assert!(active.processing_started_at.is_none());
    assert_eq!(active.available_actions, vec![TaskAction::ReselectFile]);

    let mut exhausted = new_task(&artifact);
    exhausted.id = "exhausted-recovery".to_string();
    exhausted.status = TaskStatus::Summarizing;
    exhausted.attempt = 1;
    exhausted.max_attempts = 1;
    assert!(recover_interrupted_task(&mut exhausted, "2026-07-21T02:00:00Z"));
    assert_eq!(exhausted.status, TaskStatus::Interrupted);
    assert!(exhausted.available_actions.is_empty());
    assert_eq!(
        exhausted.error.as_ref().map(|error| error.code.as_str()),
        Some("retry_limit_reached")
    );

    assert!(!recover_interrupted_task(&mut exhausted, "2026-07-21T03:00:00Z"));
}

#[test]
fn rejects_retry_after_max_attempts() {
    let artifact = registered_artifact("artifact-retry-limit", 128);
    let mut task = new_task(&artifact);
    task.attempt = 1;
    task.max_attempts = 1;
    task.status = TaskStatus::Failed;
    task.available_actions = vec![TaskAction::Retry];

    let error = ensure_retry_available(&mut task, "2026-07-21T02:00:00Z").expect_err("reject retry");

    assert_eq!(error.code, "retry_limit_reached");
    assert!(task.available_actions.is_empty());
    assert_eq!(
        task.error.as_ref().map(|value| value.code.as_str()),
        Some("retry_limit_reached")
    );
}

#[test]
fn failed_pipeline_offers_retry_only_with_attempts_left() {
    let artifact = registered_artifact("settle", 60);
    let mut task = new_task(&artifact);
    task.attempt = 1;
    task.max_attempts = 2;
    settle_task(&mut task, Err(safe_error("http_5xx", true)), false, "2026-07-21T02:00:00Z");
    assert_eq!(task.status, TaskStatus::Failed);
    assert_eq!(task.available_actions, vec![TaskAction::Retry]);
    assert!(!needs_artifact_cleanup(&task));

    let mut last = new_task(&artifact);
    last.attempt = 2;
    last.max_attempts = 2;
    settle_task(&mut last, Err(safe_error("http_5xx", true)), false, "2026-07-21T02:00:00Z");
    assert!(last.available_actions.is_empty());
    assert_eq!(last.error.as_ref().map(|e| e.code.as_str()), Some("retry_limit_reached"));
    assert!(needs_artifact_cleanup(&last));

    let mut cancelled = new_task(&artifact);
    settle_task(&mut cancelled, Err(safe_error("http_5xx", true)), true, "2026-07-21T02:00:00Z");
    assert_eq!(cancelled.status, TaskStatus::Cancelled);
    assert!(cancelled.error.is_none());
    assert!(needs_artifact_cleanup(&cancelled));
}

#[test]
fn pipeline_stages_advance_until_saved() {
    let artifact = registered_artifact("stages", 60);
    let mut task = new_task(&artifact);
    let mut stage = PipelineStage::Preparing;
    let mut entered = 0;
    loop {
        enter_stage(&mut task, stage, false, "2026-07-21T01:00:00Z").expect("enter stage");
        entered += 1;
        match next_stage(stage) {
            Some(next) => stage = next,
            None => break,
        }
    }
    assert_eq!(entered, 6);
    assert_eq!(task.status, TaskStatus::Saving);
    assert!(task.available_actions.is_empty());
    let error = enter_stage(&mut task, PipelineStage::Saving, true, "later").expect_err("cancelled");
    assert_eq!(error.code, "cancelled");

    finish_pipeline(&mut task, "meeting-1".to_string(), false, "2026-07-21T01:05:00Z")
        .expect("finish");
    assert_eq!(task.status, TaskStatus::Completed);
    assert_eq!(task.meeting_id.as_deref(), Some("meeting-1"));
    assert_eq!(task.available_actions, vec![TaskAction::OpenMeeting]);
    assert!(needs_artifact_cleanup(&task));

    record_cleanup_failure(&mut task, "2026-07-21T01:05:01Z");
    assert_eq!(task.available_actions, vec![TaskAction::Retry, TaskAction::OpenMeeting]);
    assert_eq!(check_retry(&task).expect("retry cleanup"), RetryPath::ReleaseArtifact);
    complete_after_cleanup(&mut task, "2026-07-21T01:06:00Z");
    assert_eq!(task.status, TaskStatus::Completed);
    assert_eq!(task.progress_bits, Some(PROGRESS_DONE_BITS));
}

#[test]
fn cancellation_requests_follow_task_state() {
    let artifact = registered_artifact("cancel", 60);
    let mut running = new_task(&artifact);
    running.status = TaskStatus::Transcribing;
    assert_eq!(request_cancel(&mut running, true, "now").ok(), Some(CancelOutcome::Requested));
    assert_eq!(running.status, TaskStatus::CancelRequested);

    let mut saving = new_task(&artifact);
    saving.status = TaskStatus::Saving;
    let error = request_cancel(&mut saving, true, "now").expect_err("saving");
    assert_eq!(error.code, "task_not_cancellable");

    let mut orphan = new_task(&artifact);
    assert_eq!(request_cancel(&mut orphan, false, "now").ok(), Some(CancelOutcome::Cancelled));
    assert_eq!(orphan.status, TaskStatus::Cancelled);
    mark_cancelled(&mut orphan, "later");
    assert_eq!(
        request_cancel(&mut orphan, false, "now").ok(),
        Some(CancelOutcome::AlreadyFinished)
    );
}

#[test]
fn reselection_rebinds_interrupted_task() {
    let artifact = registered_artifact("old", 60);
    let mut task = new_task(&artifact);
    task.status = TaskStatus::Interrupted;
    task.available_actions = vec![TaskAction::ReselectFile];
    task.attempt = 1;
    assert!(check_reselectable(&task).is_ok());
    let fresh = registered_artifact("fresh", 80);
    rebind_task(&mut task, &fresh, "now");
    assert_eq!(task.artifact_id, "fresh");
    assert_eq!(task.attempt, 2);
    assert_eq!(task.status, TaskStatus::Queued);
    let error = check_reselectable(&task).expect_err("queued task");
    assert_eq!(error.code, "task_not_reselectable");
}

#[test]
fn submission_is_checked_before_tasks_start() {
    let artifact = registered_artifact("busy", 60);
    let busy = new_task(&artifact);
    let tasks = vec![busy];
    let code = |ids: &[&str], template: &str| {
        let ids: Vec<String> = ids.iter().map(|id| id.to_string()).collect();
        validate_task_submission(&ids, template, &tasks).map_err(|e| e.code)
    };
    assert_eq!(code(&[], "standard_meeting"), Err("no_audio_selected"));
    assert_eq!(code(&["a"], "nope"), Err("unknown_minutes_template"));
    assert_eq!(code(&["a", "a"], "standard_meeting"), Err("duplicate_artifact_submission"));
    assert_eq!(code(&["busy"], "standard_meeting"), Err("artifact_already_processing"));
    assert_eq!(code(&["a", "b"], "standard_meeting"), Ok(()));
    assert!(artifact_in_use(&tasks, "other-task", "busy"));
    assert!(!artifact_in_use(&tasks, "task-busy", "busy"));
}

#[test]
fn terminal_fallback_keeps_meeting_link() {
    let artifact = registered_artifact("fallback", 60);
    let mut task = new_task(&artifact);
    task.meeting_id = Some("meeting-9".to_string());
    fall_back_terminal_state(&mut task, "now");
    assert_eq!(task.status, TaskStatus::Failed);
    assert_eq!(task.available_actions, vec![TaskAction::OpenMeeting]);
    assert_eq!(
        task.error.as_ref().map(|e| e.code.as_str()),
        Some("terminal_state_persist_failed")
    );
}

#[test]
fn meeting_title_falls_back_to_file_stem() {
    assert_eq!(stem_title(Some("周会".to_string())), "周会");
    assert_eq!(stem_title(Some("  ".to_string())), "会议纪要");
    assert_eq!(stem_title(None), "会议纪要");
    assert_eq!(display_stem("周会.wav"), "周会");
    assert_eq!(display_stem("季度复盘"), "季度复盘");
    assert_eq!(display_stem("周会.v2.m4a"), "周会.v2");
    assert_eq!(display_stem(".周会"), ".周会");
    assert_eq!(display_stem(".."), "会议纪要");
    assert_eq!(display_stem("   "), "会议纪要");
}

#[test]
fn resolved_batch_records_equal_the_registered_ones() {
    let mut voiced = registered_artifact("v", 30);
    voiced.mime_type = "audio/mpeg".to_string();
    voiced.duration_ms = Some(1_500);
    let registry = vec![registered_artifact("a", 60), voiced];
    let policy = IngestPolicy::new(100, 3, 200).expect("policy");
    let resolved = resolve_batch_artifacts(&["v".to_string()], &registry, policy).expect("known artifact");
    assert_eq!(resolved[0].id, "v");
    assert_eq!(resolved[0].mime_type, "audio/mpeg");
    assert_eq!(resolved[0].duration_ms, Some(1_500));
    assert_eq!(resolved[0].display_name, "v.wav");
    assert_eq!(resolved[0].source_path, "staging/v.wav");
    assert_eq!(resolved[0].byte_length, 30);
}
