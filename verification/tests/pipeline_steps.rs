use meeting_desk::commands::ingest::map_candidates;
use meeting_desk::commands::settings::{
    connection_check, local_runtime_result, missing_key_result, parse_connection_target, probe_failure,
    probe_plan, usable_api_key, ConnectionCheck, SecretKind,
};
use meeting_desk::domain::{ProviderReadiness, PublicProviderConfig};
use meeting_desk::ingest::batch::{
    accept_copied_chunk, batch_total_exceeds_limit, check_copy_complete, check_selection, check_source,
    failed_batch, failed_item, part_file_name, staged_file_name, AudioArtifactRef, ImportBatchResponse,
    ImportItemResult, SourceProbe, StagingMetadata,
};
use meeting_desk::ingest::error::{IngestError, IngestErrorCode};
use meeting_desk::ingest::policy::{AudioSourceKind, ImportItemStatus, ImportSelectionMode, IngestPolicy};
use meeting_desk::json::{JsonNumber, JsonValue};
use meeting_desk::providers::attempt::{after_attempt, attempt_timeout_ms, classify_attempt, require_credential, AttemptDecision};
use meeting_desk::providers::contract::{
    CapabilityEvidence, OperationOutcome, ReplaySafety, TranscriptionCapabilities, TranscriptionOptions,
};
use meeting_desk::providers::error::{ProviderError, ProviderErrorCategory};
use meeting_desk::providers::http::{parse_retry_after_ms, 
    accept_body_chunk, classify_send_failure, HttpMethod, ProviderCredentialPlacement, ProviderHttpConfig,
    RawHttpResponse, TransportError, TransportErrorKind,
};
use meeting_desk::providers::local_funasr::{
    check_model_directory, check_output_size, check_staged_copy, language_argument, media_suffix,
    normalize_local_output, process_exit, LocalInferenceOutput, LocalInferenceSegment,
};
use meeting_desk::providers::mapping::{
    JsonPath, SegmentResponseMapping, TimestampUnit, ToggleFieldMapping, TranscriptionHttpMapping,
    TranscriptionResponseMapping,
};
use meeting_desk::providers::mock::{
    check_mock_audio, check_mock_prompt, mock_minutes_capabilities, mock_transcription_capabilities,
    result_outcome, MockConfig, MockScenario, MockTiming,
};
use meeting_desk::providers::retry::RetryPolicy;
use meeting_desk::providers::secret::ProviderCredential;
use meeting_desk::providers::local_funasr;

fn failure<T>(result: Result<T, ProviderError>) -> ProviderError {
    match result {
        Err(error) => error,
        Ok(_) => panic!("expected a failure"),
    }
}

fn artifact(id: &str) -> AudioArtifactRef {
    AudioArtifactRef {
        id: id.to_string(),
        import_batch_id: Some("batch-original".to_string()),
        source_kind: AudioSourceKind::UserSelectedFile,
        staging_metadata: StagingMetadata {
            mime_type: "audio/wav".to_string(),
            byte_length: 128,
            duration_ms: None,
            sha256: None,
            validated_at: "2026-01-01T00:00:00Z".to_string(),
        },
    }
}

#[test]
fn duplicate_import_maps_to_independent_invalid_candidate() {
    let response = ImportBatchResponse {
        batch_id: "batch-new".to_string(),
        items: vec![ImportItemResult {
            selection_index: 0,
            status: ImportItemStatus::Duplicate,
            artifact: Some(artifact("artifact-existing")),
            duplicate_of_artifact_id: Some("artifact-existing".to_string()),
            error: None,
        }],
    };

    let candidates = map_candidates(response, vec!["重复音频.wav".to_string()]);

    assert_eq!(candidates[0].id, "batch-new-0");
    assert_eq!(candidates[0].validation_status, "invalid");
    assert!(candidates[0].artifact_id.is_none());
    assert_eq!(candidates[0].safe_message.as_deref(), Some("该音频已在待处理列表或任务中"));
}

#[test]
fn ready_and_failed_imports_map_to_candidates() {
    let response = ImportBatchResponse {
        batch_id: "batch-7".to_string(),
        items: vec![
            ImportItemResult {
                selection_index: 0,
                status: ImportItemStatus::Ready,
                artifact: Some(artifact("artifact-1")),
                duplicate_of_artifact_id: None,
                error: None,
            },
            failed_item(1, &IngestError::EmptyAudio),
            failed_item(5, &IngestError::CorruptAudio),
        ],
    };
    let candidates = map_candidates(response, vec!["a.wav".to_string(), "b.wav".to_string()]);
    assert_eq!(candidates.len(), 3);
    assert_eq!(candidates[0].id, "artifact-1");
    assert_eq!(candidates[0].artifact_id.as_deref(), Some("artifact-1"));
    assert_eq!(candidates[0].validation_status, "ready");
    assert_eq!(candidates[0].size_bytes, Some(128));
    assert_eq!(candidates[0].mime_type.as_deref(), Some("audio/wav"));
    assert_eq!(candidates[1].id, "batch-7-1");
    assert_eq!(candidates[1].display_name, "b.wav");
    assert_eq!(candidates[1].safe_message.as_deref(), Some("媒体文件为空"));
    assert_eq!(candidates[2].display_name, "未命名音频");
    assert_eq!(candidates[2].validation_status, "invalid");
}

fn policy() -> IngestPolicy {
    IngestPolicy { max_file_bytes: 100, max_batch_items: 2, max_batch_total_bytes: 150 }
}

#[test]
fn selections_are_refused_as_a_whole() {
    assert!(check_selection(ImportSelectionMode::Single, &[], &policy()).is_ok());
    assert!(check_selection(ImportSelectionMode::Single, &[Some(10)], &policy()).is_ok());
    assert_eq!(
        check_selection(ImportSelectionMode::Single, &[Some(10), Some(10)], &policy()),
        Err(IngestError::InvalidSelection)
    );
    assert_eq!(
        check_selection(ImportSelectionMode::Batch, &[Some(1), Some(1), Some(1)], &policy()),
        Err(IngestError::BatchLimitExceeded)
    );
    assert_eq!(
        check_selection(ImportSelectionMode::Batch, &[Some(100), Some(51)], &policy()),
        Err(IngestError::BatchLimitExceeded)
    );
    assert!(check_selection(ImportSelectionMode::Batch, &[Some(100), None], &policy()).is_ok());
    assert!(!batch_total_exceeds_limit(&[Some(75), Some(75)], 150));
    assert!(batch_total_exceeds_limit(&[Some(u64::MAX), Some(1)], u64::MAX));
    let batch = failed_batch("b".to_string(), 3, &IngestError::BatchLimitExceeded);
    assert_eq!(batch.items.len(), 3);
    assert_eq!(batch.items[2].selection_index, 2);
    assert_eq!(batch.items[2].error.as_ref().expect("error").code, IngestErrorCode::BatchLimitExceeded);
}

#[test]
fn sources_and_copies_are_checked() {
    assert_eq!(check_source(SourceProbe::NotFound, 100), Err(IngestError::SourceNotFound));
    assert_eq!(check_source(SourceProbe::Unreadable, 100), Err(IngestError::SourceUnreadable));
    assert_eq!(check_source(SourceProbe::Found { is_file: false, byte_length: 5 }, 100), Err(IngestError::SourceNotFile));
    assert_eq!(check_source(SourceProbe::Found { is_file: true, byte_length: 0 }, 100), Err(IngestError::EmptyAudio));
    assert_eq!(check_source(SourceProbe::Found { is_file: true, byte_length: 101 }, 100), Err(IngestError::FileTooLarge));
    assert_eq!(check_source(SourceProbe::Found { is_file: true, byte_length: 100 }, 100), Ok(100));
    assert_eq!(accept_copied_chunk(40, 20, 100, 60), Ok(60));
    assert_eq!(accept_copied_chunk(40, 21, 100, 60), Err(IngestError::SourceChangedDuringImport));
    assert_eq!(accept_copied_chunk(u64::MAX, 1, u64::MAX, u64::MAX), Err(IngestError::FileTooLarge));
    assert!(check_copy_complete(60, 60, 60, 60, false).is_ok());
    assert_eq!(check_copy_complete(60, 60, 61, 60, false), Err(IngestError::SourceChangedDuringImport));
    assert_eq!(check_copy_complete(60, 60, 60, 60, true), Err(IngestError::SourceChangedDuringImport));
    assert_eq!(part_file_name("abc"), ".abc.part");
    assert_eq!(staged_file_name("abc", "wav"), "abc.wav");
}

fn config(replay: ReplaySafety, max_retries: u32) -> ProviderHttpConfig {
    ProviderHttpConfig {
        provider_id: "p".to_owned(),
        adapter_id: "a".to_owned(),
        adapter_version: "1".to_owned(),
        endpoint: "https://example.test/v1".to_owned(),
        model: "m".to_owned(),
        auth: ProviderCredentialPlacement::Bearer,
        connect_timeout_ms: 1_000,
        request_timeout_ms: 5_000,
        overall_timeout_ms: 10_000,
        max_response_bytes: 1024,
        max_concurrent: 1,
        min_request_interval_ms: 0,
        retry: RetryPolicy { max_retries, base_delay_ms: 10, max_delay_ms: 100, max_retry_after_ms: 250 },
        replay_safety: replay,
        idempotency_header: None,
        allow_insecure_loopback: false,
    }
}

#[test]
fn attempts_are_classified_and_retried_only_when_safe() {
    let ok = classify_attempt(Ok(RawHttpResponse::new(200, Vec::new(), b"{}".to_vec()))).expect("success");
    assert_eq!(ok.body, b"{}".to_vec());
    let limited = failure(classify_attempt(Ok(RawHttpResponse::new(
        429,
        vec![("Retry-After".to_string(), "2".to_string())],
        Vec::new(),
    ))));
    assert_eq!(limited.code, "http_429");
    assert_eq!(limited.retry_after_ms, Some(2_000));
    let connect = failure(classify_attempt(Err(TransportError { kind: TransportErrorKind::Connect, outcome: OperationOutcome::NotSent })));
    assert_eq!(connect.code, "network_unavailable");

    let safe = config(ReplaySafety::BeforeRequestBodySentOnly, 2);
    match after_attempt(&safe, 1, "op-1", Err(limited)) {
        AttemptDecision::Retry { error, .. } => panic!("a rejected request is not replayed: {error:?}"),
        AttemptDecision::Fail(error) => {
            assert_eq!(error.code, "http_429");
            assert!(!error.replay_safe);
        }
        AttemptDecision::Deliver(_) => panic!("an error is not delivered"),
    }
    match after_attempt(&safe, 1, "op-1", Err(connect)) {
        AttemptDecision::Retry { error, delay_ms, penalize_rate } => {
            assert!(error.replay_safe);
            assert!(delay_ms <= 100);
            assert!(!penalize_rate);
        }
        _ => panic!("a connection failure before sending is retried"),
    }
    let exhausted = failure(classify_attempt(Err(TransportError { kind: TransportErrorKind::Connect, outcome: OperationOutcome::NotSent })));
    assert!(matches!(after_attempt(&safe, 3, "op-1", Err(exhausted)), AttemptDecision::Fail(_)));
    let never = config(ReplaySafety::NeverAutomaticallyReplay, 2);
    let again = failure(classify_attempt(Err(TransportError { kind: TransportErrorKind::Connect, outcome: OperationOutcome::NotSent })));
    assert!(matches!(after_attempt(&never, 1, "op-1", Err(again)), AttemptDecision::Fail(_)));
    let always = config(ReplaySafety::VerifiedAlwaysSafe, 2);
    let limited_again = failure(classify_attempt(Ok(RawHttpResponse::new(
        429,
        vec![("retry-after".to_string(), "2".to_string())],
        Vec::new(),
    ))));
    match after_attempt(&always, 1, "op-1", Err(limited_again)) {
        AttemptDecision::Retry { error, delay_ms, penalize_rate } => {
            assert_eq!(delay_ms, 250);
            assert!(penalize_rate);
            assert!(error.replay_safe);
        }
        _ => panic!("a rate-limited request with verified replay safety is retried"),
    }
    let server = failure(classify_attempt(Ok(RawHttpResponse::new(503, Vec::new(), Vec::new()))));
    assert!(matches!(after_attempt(&always, 2, "op-1", Err(server)), AttemptDecision::Retry { .. }));
    assert!(matches!(
        after_attempt(&always, 1, "op-1", Ok(RawHttpResponse::new(200, Vec::new(), Vec::new()))),
        AttemptDecision::Deliver(_)
    ));
}

#[test]
fn attempt_timeouts_and_credentials() {
    let c = config(ReplaySafety::NeverAutomaticallyReplay, 1);
    assert_eq!(attempt_timeout_ms(&c, 0).expect_err("no time").code, "operation_timeout");
    assert_eq!(attempt_timeout_ms(&c, 1_000).expect("left"), 1_000);
    assert_eq!(attempt_timeout_ms(&c, 9_000).expect("capped"), 5_000);
    assert_eq!(require_credential(&c, None).expect_err("missing").code, "provider_not_configured");
    let empty = ProviderCredential::new(String::new());
    assert!(require_credential(&c, Some(&empty)).is_err());
    let key = ProviderCredential::new("k".to_string());
    assert!(require_credential(&c, Some(&key)).is_ok());
    let mut open = config(ReplaySafety::NeverAutomaticallyReplay, 1);
    open.auth = ProviderCredentialPlacement::NoCredential;
    assert!(require_credential(&open, None).is_ok());
}

#[test]
fn transport_failures_and_body_limits() {
    let connect = classify_send_failure(true, true, true);
    assert_eq!(connect.kind, TransportErrorKind::Connect);
    assert_eq!(connect.outcome, OperationOutcome::NotSent);
    let timeout = classify_send_failure(false, true, true);
    assert_eq!((timeout.kind, timeout.outcome), (TransportErrorKind::Timeout, OperationOutcome::Unknown));
    let build = classify_send_failure(false, false, true);
    assert_eq!((build.kind, build.outcome), (TransportErrorKind::RequestBuild, OperationOutcome::NotSent));
    let other = classify_send_failure(false, false, false);
    assert_eq!((other.kind, other.outcome), (TransportErrorKind::Network, OperationOutcome::Unknown));
    assert_eq!(accept_body_chunk(10, 5, 15).expect("fits"), 15);
    let too_large = accept_body_chunk(10, 6, 15).expect_err("too large");
    assert_eq!(too_large.kind, TransportErrorKind::ResponseTooLarge);
}

#[test]
fn idempotency_header_is_an_opaque_digest() {
    let mut c = config(ReplaySafety::SafeWithVerifiedIdempotencyKey, 1);
    assert!(c.idempotency_header("op-1").is_none());
    c.idempotency_header = Some("Idempotency-Key".to_string());
    let (name, value) = c.idempotency_header("op-1").expect("configured");
    assert_eq!(name, "Idempotency-Key");
    assert_eq!(value.len(), 64);
    assert!(!value.contains("op-1"));
    assert_eq!(value, c.idempotency_header("op-1").expect("again").1);
    assert_ne!(value, c.idempotency_header("op-2").expect("other").1);
}

fn transcription_mapping() -> TranscriptionHttpMapping {
    TranscriptionHttpMapping {
        method: HttpMethod::Post,
        audio_field: "file".to_string(),
        upload_file_name: "audio.wav".to_string(),
        model_field: Some("model".to_string()),
        language_field: Some("language".to_string()),
        timestamps_field: Some(ToggleFieldMapping {
            field_name: "timestamp_granularities[]".to_string(),
            enabled_value: "segment".to_string(),
            disabled_value: Some("none".to_string()),
        }),
        speaker_labels_field: None,
        confidence_field: None,
        static_text_fields: vec![
            ("response_format".to_string(), "verbose_json".to_string()),
            ("model".to_string(), "placeholder".to_string()),
        ],
        response: TranscriptionResponseMapping {
            text_path: JsonPath::keys(&["text"]),
            language_path: None,
            segments: Some(SegmentResponseMapping {
                segments_path: JsonPath::keys(&["segments"]),
                id_path: None,
                text_path: JsonPath::keys(&["text"]),
                start_path: None,
                end_path: None,
                speaker_path: None,
                confidence_path: None,
                timestamp_unit: TimestampUnit::Seconds,
            }),
            remote_request_id_header: None,
        },
        capabilities: TranscriptionCapabilities {
            evidence: CapabilityEvidence::Unverified,
            accepted_media_types: Vec::new(),
            max_audio_bytes: None,
            max_duration_ms: None,
            supports_async_jobs: false,
            supports_timestamps: true,
            supports_speaker_labels: false,
            supports_confidence: false,
            supports_remote_cancel: false,
            supports_remote_urls: false,
            replay_safety: ReplaySafety::NeverAutomaticallyReplay,
        },
    }
}

#[test]
fn multipart_text_fields_set_each_name_once() {
    let options = TranscriptionOptions {
        language_hint: Some("zh".to_string()),
        enable_timestamps: false,
        enable_speaker_labels: false,
        enable_confidence: false,
    };
    let fields = transcription_mapping().text_fields("whisper-1", &options);
    assert_eq!(
        fields,
        vec![
            ("response_format".to_string(), "verbose_json".to_string()),
            ("model".to_string(), "whisper-1".to_string()),
            ("language".to_string(), "zh".to_string()),
            ("timestamp_granularities[]".to_string(), "none".to_string()),
        ]
    );
    let with_timestamps = TranscriptionOptions { language_hint: None, enable_timestamps: true, ..options };
    let fields = transcription_mapping().text_fields("whisper-1", &with_timestamps);
    assert_eq!(fields.len(), 3);
    assert_eq!(fields[2], ("timestamp_granularities[]".to_string(), "segment".to_string()));
}

#[test]
fn local_inference_decisions() {
    assert_eq!(media_suffix("audio/mpeg").expect("mp3"), "mp3");
    assert_eq!(media_suffix("video/quicktime").expect("mov"), "mov");
    assert_eq!(media_suffix("AUDIO/MPEG").expect_err("exact").code, "unsupported_audio");
    assert_eq!(language_argument(Some("yue")), "yue");
    assert_eq!(language_argument(Some("fr")), "auto");
    assert_eq!(language_argument(None), "auto");
    assert!(check_model_directory(true, &[true, true, true], true, &[true, true, true, true]).is_ok());
    assert_eq!(
        check_model_directory(false, &[], false, &[]).expect_err("missing").code,
        "local_funasr_model_missing"
    );
    assert_eq!(
        check_model_directory(true, &[true, false, true], true, &[true; 4]).expect_err("incomplete").code,
        "local_funasr_model_incomplete"
    );
    assert_eq!(
        check_model_directory(true, &[true; 3], false, &[]).expect_err("no vad").code,
        "local_funasr_vad_model_missing"
    );
    assert_eq!(
        check_model_directory(true, &[true; 3], true, &[true, true, true, false]).expect_err("vad incomplete").code,
        "local_funasr_vad_model_incomplete"
    );
    assert!(process_exit(true, Some(20), "local_funasr_inference_failed").is_ok());
    assert_eq!(process_exit(false, Some(20), "x").expect_err("deps").code, "local_funasr_dependency_missing");
    assert_eq!(process_exit(false, Some(22), "x").expect_err("decode").category, ProviderErrorCategory::Input);
    let generic = process_exit(false, None, "local_funasr_inference_failed").expect_err("generic");
    assert_eq!(generic.code, "local_funasr_inference_failed");
    assert_eq!(generic.category, ProviderErrorCategory::LocalResource);
    assert!(check_output_size(0).is_err());
    assert!(check_output_size(local_funasr::MAX_OUTPUT_BYTES).is_ok());
    assert!(check_output_size(local_funasr::MAX_OUTPUT_BYTES + 1).is_err());
    assert_eq!(check_staged_copy(4, 5).expect_err("changed").code, "audio_metadata_mismatch");
    let caps = local_funasr::capabilities();
    assert!(caps.supports_timestamps);
    assert!(!caps.supports_speaker_labels);
    assert!(!caps.supports_confidence);
}

#[test]
fn local_output_keeps_positions_of_spoken_segments() {
    let output = LocalInferenceOutput {
        text: "first paragraph second".to_string(),
        language: Some("zh".to_string()),
        segments: vec![
            LocalInferenceSegment { start_ms: Some(120), end_ms: Some(900), text: "first paragraph".to_string() },
            LocalInferenceSegment { start_ms: Some(900), end_ms: Some(1_000), text: "  ".to_string() },
            LocalInferenceSegment { start_ms: Some(1_000), end_ms: Some(2_300), text: "second".to_string() },
        ],
    };
    let transcript = normalize_local_output(output, Some(2_300)).expect("speech");
    assert_eq!(transcript.segments.len(), 2);
    assert_eq!(transcript.segments[0].id, "s0001");
    assert_eq!(transcript.segments[0].start_ms, Some(120));
    assert_eq!(transcript.segments[1].id, "s0003");
    assert_eq!(transcript.segments[1].end_ms, Some(2_300));
    assert_eq!(transcript.language.as_deref(), Some("zh"));
    let silent = LocalInferenceOutput { text: " ".to_string(), language: None, segments: Vec::new() };
    assert_eq!(normalize_local_output(silent, None).expect_err("silence").code, "empty_transcript");
}

#[test]
fn mock_calls_follow_their_scenario() {
    let config = |scenario, delay_ms| MockConfig { scenario, delay_ms };
    assert_eq!(config(MockScenario::CancelPoll, 0).timing(), MockTiming::UntilCancelledOrDeadline);
    assert_eq!(config(MockScenario::Delay, 50).timing(), MockTiming::Sleep(50));
    assert_eq!(config(MockScenario::Success, 0).timing(), MockTiming::Immediate);
    assert_eq!(config(MockScenario::Http500, 50).timing(), MockTiming::Immediate);

    let transcript = config(MockScenario::Success, 0).mock_transcript("fixture text", Some(10)).expect("success");
    assert_eq!(transcript.text, "fixture text");
    assert_eq!(transcript.duration_ms, Some(10));
    assert_eq!(
        config(MockScenario::EmptyTranscript, 0).mock_transcript("x", None).expect_err("empty").code,
        "empty_transcript"
    );
    assert_eq!(config(MockScenario::Http401, 0).mock_transcript("x", None).expect_err("401").code, "http_401");

    let candidate = JsonValue::Number(JsonNumber { text: "1".to_string(), unsigned: Some(1) });
    assert!(matches!(
        config(MockScenario::Success, 0).mock_candidate(&candidate),
        Ok(JsonValue::Number(_))
    ));
    match config(MockScenario::InvalidMinutesSchema, 0).mock_candidate(&candidate).expect("invalid fixture") {
        JsonValue::Object(entries) => {
            assert_eq!(entries[0].0, "fixtureInvalid");
            assert!(matches!(entries[0].1, JsonValue::Bool(true)));
        }
        other => panic!("unexpected {other:?}"),
    }
    assert_eq!(check_mock_audio(0).expect_err("empty").code, "empty_audio");
    assert!(check_mock_audio(1).is_ok());
    assert_eq!(check_mock_prompt(" ").expect_err("blank").code, "empty_minutes_prompt");
    assert_eq!(mock_transcription_capabilities().evidence, CapabilityEvidence::Mock);
    assert_eq!(mock_minutes_capabilities("1.0.0").supported_schema_versions, vec!["1.0.0".to_string()]);
    let failed: Result<(), ProviderError> = Err(ProviderError::protocol("x", "y"));
    assert_eq!(result_outcome(&failed), OperationOutcome::Failed);
    assert_eq!(result_outcome(&Ok::<u8, ProviderError>(1)), OperationOutcome::Succeeded);
}

fn provider(preset_id: &str, kind: &str, binding: Option<&str>) -> PublicProviderConfig {
    PublicProviderConfig {
        preset_id: preset_id.to_string(),
        kind: kind.to_string(),
        endpoint: "https://example.test".to_string(),
        model: "m".to_string(),
        local_model_path: String::new(),
        credential_preset_id: binding.map(str::to_string),
        secret_configured: true,
        connect_timeout_ms: 2_000,
        request_timeout_ms: 60_000,
        max_retries: 1,
        ready: true,
        readiness: ProviderReadiness::Ready,
        validation_message: String::new(),
    }
}

#[test]
fn connection_tests_are_routed_and_summarized() {
    assert_eq!(parse_connection_target("minutes").expect("minutes"), SecretKind::Minutes);
    assert_eq!(parse_connection_target("other").expect_err("invalid").code, "settings_invalid");
    assert!(matches!(
        connection_check(&provider("local_funasr", "local_funasr", None)),
        Ok(ConnectionCheck::LocalRuntime)
    ));
    match connection_check(&provider("deepseek", "openai_compatible", Some("deepseek"))) {
        Ok(ConnectionCheck::RemoteProbe { binding_id }) => assert_eq!(binding_id, "deepseek"),
        _ => panic!("remote probe"),
    }
    assert_eq!(
        connection_check(&provider("deepseek", "openai_compatible", None)).err().expect("unbound").code,
        "provider_not_configured"
    );
    assert_eq!(usable_api_key(true, Some("k".to_string())).as_deref(), Some("k"));
    assert!(usable_api_key(false, Some("k".to_string())).is_none());
    assert!(usable_api_key(true, Some("  ".to_string())).is_none());
    assert_eq!(missing_key_result().safe_message, "请先保存 API Key");
    assert!(local_runtime_result(Ok(())).ok);
    let failed = local_runtime_result(Err(ProviderError::configuration("c", "模型缺失")));
    assert!(!failed.ok);
    assert_eq!(failed.safe_message, "模型缺失");
    let plan = probe_plan(&provider("volcengine_asr_flash", "volcengine_asr", Some("v")));
    assert_eq!(plan.timeout_ms, 30_000);
    assert_eq!(plan.connect_timeout_ms, 2_000);
    assert!(plan.key_in_api_key_header);
    assert!(!probe_plan(&provider("deepseek", "openai_compatible", None)).key_in_api_key_header);
    assert_eq!(probe_failure(true, true).safe_message, "连接测试超时，请检查网络、代理或服务地址");
    assert_eq!(probe_failure(false, true).safe_message, "无法连接服务，请检查网络、代理或服务地址");
    assert!(probe_failure(false, false).retryable);
}

#[test]
fn transcript_text_is_read_from_the_raw_body() {
    let mapping = transcription_mapping();
    let (text, language) = mapping.response.transcript_text_of_body(br#"{"text":"body text","segments":[]}"#).expect("text");
    assert_eq!(text, "body text");
    assert_eq!(language, None);
    assert_eq!(
        mapping.response.transcript_text_of_body(b"text=plain").expect_err("not json").safe_message,
        "Provider 返回的转写响应不是有效 JSON"
    );
    assert_eq!(mapping.response.transcript_text_of_body(br#"{"text":" "}"#).expect_err("blank").code, "empty_transcript");
}

#[test]
fn retry_after_dates_in_the_past_or_malformed_give_no_delay() {
    assert_eq!(parse_retry_after_ms("Wed, 21 Oct 2015 07:28:00 GMT"), None);
    assert_eq!(parse_retry_after_ms("tomorrow"), None);
    assert_eq!(parse_retry_after_ms(" 3 "), Some(3_000));
    let delay = parse_retry_after_ms("Fri, 01 Jan 2100 00:00:00 GMT").expect("future date");
    assert!(delay > 0);
}

#[test]
fn multipart_body_names_the_staged_recording() {
    let mapping = transcription_mapping();
    let body = mapping.multipart_body("whisper-1", &TranscriptionOptions::default(), "audio/wav", 1024);
    assert_eq!(body.file.field_name, "file");
    assert_eq!(body.file.upload_file_name, "audio.wav");
    assert_eq!(body.file.media_type, "audio/wav");
    assert_eq!(body.file.byte_length, 1024);
    assert!(body.text_fields.iter().any(|(k, v)| k == "model" && v == "whisper-1"));
}
