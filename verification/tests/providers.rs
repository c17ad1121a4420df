use meeting_desk::providers::contract::{
    CapabilityEvidence, OperationOutcome, ReplaySafety, TranscriptionCapabilities, TranscriptionOptions,
};
use meeting_desk::providers::mapping::{
    looks_secret_field, transcription_preflight, validate_http_capability_evidence,
    validate_requested_features, JsonPath, TimestampUnit, ToggleFieldMapping, TranscriptionHttpMapping,
    TranscriptionResponseMapping, SegmentResponseMapping,
};
use meeting_desk::providers::mock::{MockConfig, MockScenario};
use meeting_desk::providers::error::{ProviderError, ProviderErrorCategory};
use meeting_desk::providers::http::{
    classify_http_status, HttpMethod, parse_retry_after_ms, ProviderCredentialPlacement, ProviderHttpConfig,
    RawHttpResponse,
};
use meeting_desk::providers::retry::{is_replay_safe, RetryPolicy};
use meeting_desk::providers::secret::ProviderCredential;

fn test_config() -> ProviderHttpConfig {
    ProviderHttpConfig {
        provider_id: "test-provider".to_owned(),
        adapter_id: "explicit-test-codec".to_owned(),
        adapter_version: "1".to_owned(),
        endpoint: "http://127.0.0.1/mock".to_owned(),
        model: "test-model".to_owned(),
        auth: ProviderCredentialPlacement::Bearer,
        connect_timeout_ms: 1_000,
        request_timeout_ms: 1_000,
        overall_timeout_ms: 5_000,
        max_response_bytes: 64 * 1024,
        max_concurrent: 1,
        min_request_interval_ms: 0,
        retry: RetryPolicy {
            max_retries: 2,
            base_delay_ms: 1,
            max_delay_ms: 10,
            max_retry_after_ms: 100,
        },
        replay_safety: ReplaySafety::NeverAutomaticallyReplay,
        idempotency_header: None,
        allow_insecure_loopback: true,
    }
}

fn rate_limited(retry_after_ms: Option<u64>) -> ProviderError {
    ProviderError::new(
        "http_429",
        ProviderErrorCategory::RateLimit,
        true,
        true,
        "请求过于频繁",
        Some(429),
        retry_after_ms,
        OperationOutcome::Rejected,
    )
}

#[test]
fn http_rejects_insecure_remote_endpoint() {
    let mut config = test_config();
    config.endpoint = "http://example.invalid/api".to_owned();
    assert_eq!(
        config.validate().expect_err("http endpoint must fail").code,
        "insecure_provider_endpoint"
    );
}

#[test]
fn loopback_profile_is_valid() {
    assert!(test_config().validate().is_ok());
}

#[test]
fn classifies_auth_and_rate_limit_statuses() {
    let unauthorized = RawHttpResponse::new(401, Vec::new(), Vec::new());
    let error = classify_http_status(&unauthorized).expect("401 must be an error");
    assert_eq!(error.code, "http_401");
    assert!(!error.retryable);

    let limited = RawHttpResponse::new(
        429,
        vec![("retry-after".to_owned(), "2".to_owned())],
        Vec::new(),
    );
    let error = classify_http_status(&limited).expect("429 must be an error");
    assert_eq!(error.retry_after_ms, Some(2_000));
}

#[test]
fn success_status_is_not_an_error() {
    let ok = RawHttpResponse::new(200, Vec::new(), Vec::new());
    assert!(classify_http_status(&ok).is_none());
}

#[test]
fn parses_retry_after_seconds() {
    assert_eq!(parse_retry_after_ms("2"), Some(2_000));
    assert_eq!(parse_retry_after_ms(" 7 "), Some(7_000));
}

#[test]
fn credential_and_config_debug_are_redacted() {
    let dummy_value = "x".repeat(32);
    let credential = ProviderCredential::new(dummy_value.clone());
    assert!(!credential.debug_string().contains(&dummy_value));

    let mut config = test_config();
    config.endpoint = "https://internal.invalid/sensitive-path".to_owned();
    assert!(!config.debug_string().contains("sensitive-path"));
}

#[test]
fn debug_output_is_redacted() {
    let dummy_value = "x".repeat(32);
    let credential = ProviderCredential::new(dummy_value.clone());
    let output = credential.debug_string();
    assert!(!output.contains(&dummy_value));
    assert!(output.contains("REDACTED"));
    assert_eq!(credential.expose_secret(), dummy_value);
}

#[test]
fn refuses_unknown_outcome_without_idempotency() {
    assert!(!is_replay_safe(
        ReplaySafety::SafeWithVerifiedIdempotencyKey,
        false,
        OperationOutcome::Unknown,
    ));
    assert!(is_replay_safe(
        ReplaySafety::SafeWithVerifiedIdempotencyKey,
        true,
        OperationOutcome::Unknown,
    ));
}

#[test]
fn caps_retry_after_delay() {
    let policy = RetryPolicy {
        max_retries: 2,
        base_delay_ms: 10,
        max_delay_ms: 100,
        max_retry_after_ms: 250,
    };
    let error = rate_limited(Some(5_000));
    assert_eq!(policy.delay_for(1, "operation", &error), 250);
}

#[test]
fn jittered_delay_stays_within_backoff_cap() {
    let policy = RetryPolicy {
        max_retries: 3,
        base_delay_ms: 10,
        max_delay_ms: 100,
        max_retry_after_ms: 250,
    };
    let error = rate_limited(None);
    let cap = policy.backoff_cap_ms(2);
    assert_eq!(cap, 20);
    assert!(policy.delay_for(2, "operation", &error) <= cap);
    assert!(policy.delay_with_seed(2, 7, &error) <= cap);
}

#[test]
fn retry_budget_counts_completed_attempts() {
    let policy = RetryPolicy {
        max_retries: 2,
        base_delay_ms: 10,
        max_delay_ms: 100,
        max_retry_after_ms: 250,
    };
    assert!(policy.has_retry(1));
    assert!(policy.has_retry(2));
    assert!(!policy.has_retry(3));
}

fn transcription_mapping() -> TranscriptionHttpMapping {
    TranscriptionHttpMapping {
        method: HttpMethod::Post,
        audio_field: "file".to_string(),
        upload_file_name: "audio.wav".to_string(),
        model_field: Some("model".to_string()),
        language_field: None,
        timestamps_field: Some(ToggleFieldMapping {
            field_name: "timestamp_granularities[]".to_string(),
            enabled_value: "segment".to_string(),
            disabled_value: None,
        }),
        speaker_labels_field: None,
        confidence_field: None,
        static_text_fields: vec![("response_format".to_string(), "verbose_json".to_string())],
        response: TranscriptionResponseMapping {
            text_path: JsonPath::keys(&["text"]),
            language_path: Some(JsonPath::keys(&["language"])),
            segments: Some(SegmentResponseMapping {
                segments_path: JsonPath::keys(&["segments"]),
                id_path: None,
                text_path: JsonPath::keys(&["text"]),
                start_path: Some(JsonPath::keys(&["start"])),
                end_path: Some(JsonPath::keys(&["end"])),
                speaker_path: None,
                confidence_path: None,
                timestamp_unit: TimestampUnit::Seconds,
            }),
            remote_request_id_header: Some("x-request-id".to_string()),
        },
        capabilities: TranscriptionCapabilities {
            evidence: CapabilityEvidence::Unverified,
            accepted_media_types: vec!["audio/wav".to_string()],
            max_audio_bytes: None,
            max_duration_ms: None,
            supports_async_jobs: false,
            supports_timestamps: true,
            supports_speaker_labels: false,
            supports_confidence: false,
            supports_remote_cancel: false,
            supports_remote_urls: false,
            replay_safety: ReplaySafety::NeverAutomaticallyReplay,
        },
    }
}

#[test]
fn accepts_explicit_transcription_mapping() {
    assert!(transcription_mapping().validate().is_ok());
}

#[test]
fn rejects_unsafe_transcription_mappings() {
    let mut bad_name = transcription_mapping();
    bad_name.upload_file_name = "../audio.wav".to_string();
    assert_eq!(bad_name.validate().expect_err("path in name").code, "invalid_upload_file_name");

    let mut secret = transcription_mapping();
    secret.static_text_fields.push(("Api_Key".to_string(), "x".to_string()));
    assert_eq!(secret.validate().expect_err("secret field").code, "secret_in_request_mapping");

    let mut bad_field = transcription_mapping();
    bad_field.audio_field = "file name".to_string();
    assert_eq!(bad_field.validate().expect_err("space in field").code, "invalid_request_mapping");

    let mut bad_toggle = transcription_mapping();
    bad_toggle.timestamps_field = Some(ToggleFieldMapping {
        field_name: "timestamps".to_string(),
        enabled_value: "on\r\n".to_string(),
        disabled_value: None,
    });
    assert_eq!(bad_toggle.validate().expect_err("line break").code, "invalid_request_mapping");

    let mut bad_path = transcription_mapping();
    bad_path.response.text_path = JsonPath(Vec::new());
    assert_eq!(bad_path.validate().expect_err("empty path").code, "invalid_response_mapping");

    let mut bad_header = transcription_mapping();
    bad_header.response.remote_request_id_header = Some("bad header".to_string());
    assert_eq!(bad_header.validate().expect_err("bad header").code, "invalid_response_mapping");
}

#[test]
fn secret_like_fields_are_detected() {
    assert!(looks_secret_field("X-Access-Token"));
    assert!(looks_secret_field("CREDENTIAL_ID"));
    assert!(!looks_secret_field("response_format"));
}

fn plain_options() -> TranscriptionOptions {
    TranscriptionOptions {
        language_hint: None,
        enable_timestamps: false,
        enable_speaker_labels: false,
        enable_confidence: false,
    }
}

#[test]
fn requested_features_follow_the_mapping() {
    let mapping = transcription_mapping();
    assert!(validate_requested_features(&plain_options(), &mapping).is_ok());

    let mut timestamps = plain_options();
    timestamps.enable_timestamps = true;
    assert!(validate_requested_features(&timestamps, &mapping).is_ok());

    let mut language = plain_options();
    language.language_hint = Some("zh".to_string());
    let err = validate_requested_features(&language, &mapping).expect_err("no language field");
    assert_eq!(err.code, "unsupported_option");
    assert_eq!(err.category, ProviderErrorCategory::Input);
    assert_eq!(err.safe_message, "当前 Provider 未配置语言提示字段");

    let mut speakers = plain_options();
    speakers.enable_speaker_labels = true;
    let err = validate_requested_features(&speakers, &mapping).expect_err("no speaker labels");
    assert_eq!(err.code, "unsupported_option");
    assert_eq!(err.safe_message, "当前 Provider 未配置所请求的转写能力");
}

#[test]
fn preflight_checks_size_type_duration_and_features() {
    let mut mapping = transcription_mapping();
    mapping.capabilities.max_audio_bytes = Some(1000);
    mapping.capabilities.max_duration_ms = Some(60_000);
    let options = plain_options();

    assert!(transcription_preflight("AUDIO/WAV", 10, Some(1_000), &options, &mapping).is_ok());
    assert!(transcription_preflight("audio/wav", 1000, None, &options, &mapping).is_ok());
    assert_eq!(
        transcription_preflight("audio/wav", 0, None, &options, &mapping).expect_err("empty").code,
        "empty_audio"
    );
    assert_eq!(
        transcription_preflight("audio/mpeg", 10, None, &options, &mapping).expect_err("type").code,
        "unsupported_audio"
    );
    assert_eq!(
        transcription_preflight("audio/wav", 1001, None, &options, &mapping).expect_err("size").code,
        "file_too_large"
    );
    assert_eq!(
        transcription_preflight("audio/wav", 10, Some(60_001), &options, &mapping).expect_err("long").code,
        "duration_limit_exceeded"
    );
    let mut confidence = plain_options();
    confidence.enable_confidence = true;
    assert_eq!(
        transcription_preflight("audio/wav", 10, None, &confidence, &mapping).expect_err("feature").code,
        "unsupported_option"
    );

    let mut open = transcription_mapping();
    open.capabilities.accepted_media_types = Vec::new();
    assert!(transcription_preflight("audio/anything", 5, None, &options, &open).is_ok());
}

#[test]
fn http_adapter_refuses_mock_or_async_capabilities() {
    assert!(validate_http_capability_evidence(CapabilityEvidence::Unverified, false, false).is_ok());
    let mock = validate_http_capability_evidence(CapabilityEvidence::Mock, false, false).expect_err("mock");
    assert_eq!(mock.code, "invalid_capability_evidence");
    assert_eq!(mock.category, ProviderErrorCategory::Configuration);
    let jobs = validate_http_capability_evidence(CapabilityEvidence::Unverified, true, false).expect_err("jobs");
    assert_eq!(jobs.code, "unsupported_capability_config");
    let cancel =
        validate_http_capability_evidence(CapabilityEvidence::Unverified, false, true).expect_err("cancel");
    assert_eq!(cancel.code, "unsupported_capability_config");
}

#[test]
fn mock_scenarios_map_to_their_failures() {
    let config = |scenario| MockConfig { scenario, delay_ms: 0 };
    assert!(config(MockScenario::Success).scenario_error().is_none());
    assert!(config(MockScenario::EmptyTranscript).scenario_error().is_none());

    let connect = config(MockScenario::TimeoutConnect).scenario_error().expect("timeout");
    assert_eq!(connect.code, "connect_timeout");
    assert_eq!(connect.category, ProviderErrorCategory::Timeout);
    assert_eq!(connect.outcome, OperationOutcome::NotSent);
    assert!(connect.retryable && connect.replay_safe);

    let after_send = config(MockScenario::TimeoutAfterSend).scenario_error().expect("timeout");
    assert_eq!(after_send.code, "request_timeout");
    assert_eq!(after_send.outcome, OperationOutcome::Unknown);
    assert!(after_send.retryable && !after_send.replay_safe);

    let auth = config(MockScenario::Http401).scenario_error().expect("401");
    assert_eq!(auth.code, "http_401");
    assert_eq!(auth.category, ProviderErrorCategory::Authentication);
    assert_eq!(auth.http_status, Some(401));
    assert!(!auth.retryable);

    let limited = config(MockScenario::Http429).scenario_error().expect("429");
    assert_eq!(limited.category, ProviderErrorCategory::RateLimit);
    assert_eq!(limited.retry_after_ms, Some(1));

    let server = config(MockScenario::Http500).scenario_error().expect("500");
    assert_eq!(server.code, "http_5xx");
    assert!(server.retryable);

    let malformed = config(MockScenario::MalformedResponse).scenario_error().expect("malformed");
    assert_eq!(malformed.code, "invalid_provider_response");
    assert_eq!(malformed.category, ProviderErrorCategory::Protocol);
}

#[test]
fn mock_delay_is_capped_at_a_minute() {
    assert!(MockConfig { scenario: MockScenario::Delay, delay_ms: 60_000 }.validate().is_ok());
    let err = MockConfig { scenario: MockScenario::Delay, delay_ms: 60_001 }.validate().expect_err("too long");
    assert_eq!(err.code, "invalid_mock_delay");
}
