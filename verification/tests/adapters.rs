use meeting_desk::domain::{ProviderReadiness, PublicProviderConfig};
use meeting_desk::json::{JsonNumber, JsonValue};
use meeting_desk::providers::contract::{
    CapabilityEvidence, MinutesCapabilities, OperationOutcome, RemoteAudioFormat, ReplaySafety,
    TranscriptionOptions,
};
use meeting_desk::providers::error::ProviderErrorCategory;
use meeting_desk::providers::factory::{
    minutes_adapter, transcription_adapter, TranscriptionAdapter,
};
use meeting_desk::providers::http::{
    HttpMethod, ProviderCredentialPlacement, ProviderHttpConfig, RawHttpResponse,
};
use meeting_desk::providers::mapping::{
    optional_scalar_string, optional_string, required_scalar_string, required_string,
    JsonContentMode, JsonPath, JsonPathSegment,
};
use meeting_desk::providers::minutes_mapping::{
    check_minutes_request, contains_secret_key, count_placeholder, decode_minutes_candidate, decoded_minutes_candidate,
    replace_placeholder, MinutesContent, MinutesHttpMapping,
};
use meeting_desk::providers::retry::RetryPolicy;
use meeting_desk::providers::{volcengine, xiaomi_mimo};

fn s(value: &str) -> JsonValue {
    JsonValue::String(value.to_string())
}

fn num(value: u64) -> JsonValue {
    JsonValue::Number(JsonNumber { text: value.to_string(), unsigned: Some(value) })
}

fn obj(entries: Vec<(&str, JsonValue)>) -> JsonValue {
    JsonValue::Object(entries.into_iter().map(|(k, v)| (k.to_string(), v)).collect())
}

fn text_of(value: Option<&JsonValue>) -> Option<String> {
    match value {
        Some(JsonValue::String(t)) => Some(t.clone()),
        _ => None,
    }
}

fn options() -> TranscriptionOptions {
    TranscriptionOptions {
        language_hint: None,
        enable_timestamps: false,
        enable_speaker_labels: false,
        enable_confidence: false,
    }
}

#[test]
fn json_path_selects_members_and_elements() {
    let body = obj(vec![(
        "choices",
        JsonValue::Array(vec![obj(vec![("message", obj(vec![("content", s("hello"))]))])]),
    )]);
    let path = JsonPath(vec![
        JsonPathSegment::Key("choices".to_string()),
        JsonPathSegment::Index(0),
        JsonPathSegment::Key("message".to_string()),
        JsonPathSegment::Key("content".to_string()),
    ]);
    assert_eq!(text_of(path.select(&body)), Some("hello".to_string()));
    let past_end = JsonPath(vec![JsonPathSegment::Key("choices".to_string()), JsonPathSegment::Index(1)]);
    assert!(past_end.select(&body).is_none());
    assert!(JsonPath::keys(&["missing"]).select(&body).is_none());
    assert!(JsonPath(Vec::new()).select(&body).is_some());
}

#[test]
fn configured_fields_are_read_by_type() {
    let segment = obj(vec![("id", num(7)), ("text", s("hi")), ("speaker", JsonValue::Null), ("flag", JsonValue::Bool(true))]);
    assert_eq!(required_string(&JsonPath::keys(&["text"]), &segment).expect("text"), "hi");
    let missing = required_string(&JsonPath::keys(&["id"]), &segment).expect_err("number is not text");
    assert_eq!(missing.code, "invalid_provider_response");
    assert_eq!(missing.category, ProviderErrorCategory::Protocol);
    assert_eq!(missing.outcome, OperationOutcome::Failed);

    assert_eq!(optional_string(None, &segment).expect("no path"), None);
    assert_eq!(optional_string(Some(&JsonPath::keys(&["speaker"])), &segment).expect("null"), None);
    assert_eq!(optional_string(Some(&JsonPath::keys(&["absent"])), &segment).expect("absent"), None);
    assert_eq!(
        optional_string(Some(&JsonPath::keys(&["text"])), &segment).expect("text"),
        Some("hi".to_string())
    );
    assert_eq!(
        optional_string(Some(&JsonPath::keys(&["flag"])), &segment).expect_err("bool").safe_message,
        "Provider 响应字段类型与配置不一致"
    );

    assert_eq!(required_scalar_string(&JsonPath::keys(&["id"]), &segment).expect("id"), "7");
    assert_eq!(
        required_scalar_string(&JsonPath::keys(&["flag"]), &segment).expect_err("bool").safe_message,
        "Provider segment 标识字段无效"
    );
    assert_eq!(
        optional_scalar_string(Some(&JsonPath::keys(&["id"])), &segment).expect("number"),
        Some("7".to_string())
    );
    assert_eq!(
        optional_scalar_string(Some(&JsonPath::keys(&["flag"])), &segment).expect_err("bool").safe_message,
        "Provider segment 字段类型无效"
    );
}

#[test]
fn placeholders_are_counted_and_replaced_exactly() {
    let mut template = obj(vec![
        ("model", s("__MODEL__")),
        ("messages", JsonValue::Array(vec![obj(vec![("content", s("__PROMPT__"))]), s("__MODEL__x")])),
        ("again", s("__PROMPT__")),
    ]);
    assert_eq!(count_placeholder(&template, "__MODEL__"), 1);
    assert_eq!(count_placeholder(&template, "__PROMPT__"), 2);
    assert_eq!(count_placeholder(&template, "absent"), 0);

    replace_placeholder(&mut template, "__PROMPT__", obj(vec![("a", s("__MODEL__"))]));
    assert_eq!(count_placeholder(&template, "__PROMPT__"), 0);
    assert_eq!(count_placeholder(&template, "__MODEL__"), 3);
    replace_placeholder(&mut template, "__MODEL__", s("model-1"));
    assert_eq!(count_placeholder(&template, "__MODEL__"), 0);
    assert_eq!(count_placeholder(&template, "model-1"), 3);
    assert_eq!(count_placeholder(&template, "__MODEL__x"), 1);
}

#[test]
fn credential_like_keys_are_found_at_any_depth() {
    assert!(!contains_secret_key(&obj(vec![("model", s("api_key"))])));
    assert!(contains_secret_key(&obj(vec![("Authorization", s("x"))])));
    assert!(contains_secret_key(&obj(vec![(
        "outer",
        JsonValue::Array(vec![num(1), obj(vec![("x_token", s("v"))])]),
    )])));
    assert!(!contains_secret_key(&JsonValue::Array(vec![s("password")])));
}

fn minutes_mapping() -> MinutesHttpMapping {
    MinutesHttpMapping {
        method: HttpMethod::Post,
        body_template: obj(vec![
            ("fixtureModel", s("__MODEL__")),
            ("fixturePrompt", s("__PROMPT__")),
            ("fixtureSchema", s("__SCHEMA__")),
        ]),
        model_placeholder: "__MODEL__".to_string(),
        prompt_placeholder: "__PROMPT__".to_string(),
        schema_placeholder: Some("__SCHEMA__".to_string()),
        response_content_path: JsonPath::keys(&["fixture", "candidate"]),
        response_content_mode: JsonContentMode::JsonEncodedString,
        remote_request_id_header: None,
        capabilities: MinutesCapabilities {
            evidence: CapabilityEvidence::Unverified,
            supports_json_schema: true,
            supported_schema_versions: vec!["1.0.0".to_string()],
            max_input_characters: None,
            supports_async_jobs: false,
            supports_remote_cancel: false,
            replay_safety: ReplaySafety::NeverAutomaticallyReplay,
        },
    }
}

#[test]
fn minutes_provider_uses_explicit_template_and_response_path() {
    let mapping = minutes_mapping();
    assert!(mapping.validate().is_ok());
    assert!(check_minutes_request(&mapping.capabilities, "short non-sensitive fixture", "1.0.0").is_ok());

    let body = mapping.render_body("model-1", "short non-sensitive fixture", &obj(vec![("type", s("object"))]));
    let JsonValue::Object(entries) = &body else {
        panic!("rendered body must stay an object");
    };
    assert_eq!(entries.len(), 3);
    assert_eq!(text_of(Some(&entries[0].1)), Some("model-1".to_string()));
    assert_eq!(text_of(Some(&entries[1].1)), Some("short non-sensitive fixture".to_string()));
    assert!(matches!(&entries[2].1, JsonValue::Object(schema) if schema.len() == 1));

    let response = obj(vec![("fixture", obj(vec![("candidate", s("{\"schemaVersion\":\"1.0.0\"}"))]))]);
    match mapping.response_content(Some(&response)).expect("content") {
        MinutesContent::EncodedJson(text) => assert_eq!(text, "{\"schemaVersion\":\"1.0.0\"}"),
        MinutesContent::Value(_) => panic!("encoded mode keeps the text"),
    }
    let candidate = decoded_minutes_candidate(Some(obj(vec![("schemaVersion", s("1.0.0"))]))).expect("decoded");
    let JsonValue::Object(fields) = candidate else {
        panic!("candidate object");
    };
    assert_eq!(fields[0].0, "schemaVersion");
    assert_eq!(text_of(Some(&fields[0].1)), Some("1.0.0".to_string()));
}

#[test]
fn minutes_response_content_follows_the_mode() {
    let mut mapping = minutes_mapping();
    assert_eq!(mapping.response_content(None).expect_err("not json").safe_message, "Provider 返回的纪要响应不是有效 JSON");
    let wrong = obj(vec![("fixture", obj(vec![("candidate", num(1))]))]);
    assert_eq!(
        mapping.response_content(Some(&wrong)).expect_err("not text").safe_message,
        "Provider 纪要字段类型与配置不一致"
    );
    assert_eq!(
        mapping.response_content(Some(&obj(vec![]))).expect_err("missing").safe_message,
        "Provider 纪要响应缺少已配置字段"
    );
    mapping.response_content_mode = JsonContentMode::JsonValue;
    assert!(matches!(mapping.response_content(Some(&wrong)), Ok(MinutesContent::Value(JsonValue::Number(_)))));
    assert_eq!(decoded_minutes_candidate(None).expect_err("invalid").code, "invalid_minutes_json");
}

#[test]
fn minutes_mapping_rejects_unsafe_templates() {
    let code = |mapping: MinutesHttpMapping| mapping.validate().expect_err("invalid mapping").code;

    let mut not_object = minutes_mapping();
    not_object.body_template = JsonValue::Array(vec![s("__MODEL__")]);
    assert_eq!(code(not_object), "invalid_minutes_request_template");

    let mut same = minutes_mapping();
    same.prompt_placeholder = "__MODEL__".to_string();
    assert_eq!(code(same), "invalid_minutes_request_template");

    let mut twice = minutes_mapping();
    twice.body_template = obj(vec![("a", s("__MODEL__")), ("b", s("__MODEL__")), ("c", s("__PROMPT__")), ("d", s("__SCHEMA__"))]);
    let err = twice.validate().expect_err("twice");
    assert_eq!(err.safe_message, "模型和 Prompt 占位符必须各出现一次");

    let mut no_schema = minutes_mapping();
    no_schema.schema_placeholder = None;
    assert_eq!(code(no_schema), "missing_schema_mapping");

    let mut secret = minutes_mapping();
    secret.body_template = obj(vec![
        ("fixtureModel", s("__MODEL__")),
        ("fixturePrompt", s("__PROMPT__")),
        ("fixtureSchema", s("__SCHEMA__")),
        ("api_key", s("x")),
    ]);
    assert_eq!(code(secret), "secret_in_request_mapping");

    let mut bad_path = minutes_mapping();
    bad_path.response_content_path = JsonPath(Vec::new());
    assert_eq!(code(bad_path), "invalid_response_mapping");
}

#[test]
fn minutes_requests_are_checked_before_sending() {
    let mut caps = minutes_mapping().capabilities;
    assert_eq!(check_minutes_request(&caps, "  \n", "1.0.0").expect_err("blank").code, "empty_minutes_prompt");
    assert_eq!(
        check_minutes_request(&caps, "prompt", "2.0.0").expect_err("version").code,
        "unsupported_schema_version"
    );
    caps.max_input_characters = Some(3);
    assert!(check_minutes_request(&caps, "会议纪", "1.0.0").is_ok());
    assert_eq!(
        check_minutes_request(&caps, "会议纪要", "1.0.0").expect_err("too long").code,
        "minutes_input_too_large"
    );
    caps.supported_schema_versions = Vec::new();
    assert!(check_minutes_request(&caps, "abc", "9.9.9").is_ok());
}

fn http_config(model: &str, auth: ProviderCredentialPlacement, replay: ReplaySafety) -> ProviderHttpConfig {
    ProviderHttpConfig {
        provider_id: "provider".to_owned(),
        adapter_id: "adapter".to_owned(),
        adapter_version: "1".to_owned(),
        endpoint: "https://openspeech.bytedance.com/api/v3/auc/bigmodel/recognize/flash".to_owned(),
        model: model.to_owned(),
        auth,
        connect_timeout_ms: 1_000,
        request_timeout_ms: 5_000,
        overall_timeout_ms: 10_000,
        max_response_bytes: 256 * 1024,
        max_concurrent: 1,
        min_request_interval_ms: 0,
        retry: RetryPolicy { max_retries: 1, base_delay_ms: 1, max_delay_ms: 2, max_retry_after_ms: 10 },
        replay_safety: replay,
        idempotency_header: None,
        allow_insecure_loopback: false,
    }
}

fn api_key_header() -> ProviderCredentialPlacement {
    ProviderCredentialPlacement::Header { header_name: "X-Api-Key".to_owned(), prefix: None }
}

#[test]
fn volcengine_profile_is_fixed() {
    assert!(volcengine::validate_config(&http_config("bigmodel", api_key_header(), ReplaySafety::BeforeRequestBodySentOnly)).is_ok());
    let model = volcengine::validate_config(&http_config("other", api_key_header(), ReplaySafety::NeverAutomaticallyReplay));
    assert_eq!(model.expect_err("model").code, "unsupported_model");
    let auth = volcengine::validate_config(&http_config("bigmodel", ProviderCredentialPlacement::Bearer, ReplaySafety::NeverAutomaticallyReplay));
    assert_eq!(auth.expect_err("auth").code, "unsupported_auth_strategy");
    let replay = volcengine::validate_config(&http_config("bigmodel", api_key_header(), ReplaySafety::VerifiedAlwaysSafe));
    assert_eq!(replay.expect_err("replay").code, "unsupported_replay_safety");
}

#[test]
fn rejects_oversized_or_overlong_recordings() {
    let size_error = volcengine::preflight(volcengine::MAX_AUDIO_BYTES + 1, None, &options(), "audio/wav")
        .expect_err("oversized recording");
    assert_eq!(size_error.code, "file_too_large");
    let duration_error =
        volcengine::preflight(5, Some(volcengine::MAX_DURATION_MS + 1), &options(), "audio/wav")
            .expect_err("overlong recording");
    assert_eq!(duration_error.code, "duration_limit_exceeded");
    assert_eq!(volcengine::preflight(0, None, &options(), "audio/wav").expect_err("empty").code, "empty_audio");
    assert_eq!(volcengine::preflight(5, Some(2_499), &options(), "AUDIO/X-WAV").expect("wav"), "wav");
    assert_eq!(
        volcengine::preflight(5, None, &options(), "audio/mp4").expect_err("format").code,
        "unsupported_audio"
    );
    let mut speakers = options();
    speakers.enable_speaker_labels = true;
    assert_eq!(
        volcengine::preflight(5, None, &speakers, "audio/wav").expect_err("speakers").code,
        "unsupported_option"
    );
}

#[test]
fn volcengine_url_preflight_and_languages() {
    assert_eq!(volcengine::preflight_url(None, None, &options(), RemoteAudioFormat::Mp3).expect("mp3"), "mp3");
    assert_eq!(
        volcengine::preflight_url(Some(volcengine::MAX_AUDIO_BYTES + 1), None, &options(), RemoteAudioFormat::Mp3)
            .expect_err("size")
            .code,
        "file_too_large"
    );
    assert_eq!(
        volcengine::preflight_url(None, None, &options(), RemoteAudioFormat::M4a).expect_err("m4a").code,
        "unsupported_audio"
    );
    assert!(volcengine::validate_language(Some("yue-CN")).is_ok());
    assert!(volcengine::validate_language(None).is_ok());
    assert_eq!(volcengine::validate_language(Some("zh")).expect_err("zh").code, "unsupported_language");
}

fn response(status: &str, log_id: &str) -> RawHttpResponse {
    RawHttpResponse::new(
        200,
        vec![
            ("x-api-status-code".to_owned(), status.to_owned()),
            ("x-tt-logid".to_owned(), log_id.to_owned()),
        ],
        Vec::new(),
    )
}

#[test]
fn classifies_volcengine_business_errors() {
    let error = volcengine::validate_provider_status(&response("55000031", "log-error")).expect_err("business error");
    assert_eq!(error.code, "provider_unavailable");
    assert!(error.retryable);
    assert_eq!(error.remote_request_id.as_deref(), Some("log-error"));

    assert!(volcengine::validate_provider_status(&response("20000000", "log-1")).is_ok());
    assert_eq!(
        volcengine::validate_provider_status(&response("20000003", "l")).expect_err("silence").code,
        "empty_transcript"
    );
    let rejected = volcengine::validate_provider_status(&response("45000001", "l")).expect_err("rejected");
    assert_eq!(rejected.code, "invalid_provider_request");
    assert_eq!(rejected.outcome, OperationOutcome::Rejected);
    assert_eq!(
        volcengine::validate_provider_status(&response("40000000", "l")).expect_err("other").code,
        "provider_rejected_request"
    );
    let missing = RawHttpResponse::new(200, Vec::new(), Vec::new());
    let error = volcengine::validate_provider_status(&missing).expect_err("no status");
    assert_eq!(error.code, "invalid_provider_response");
    assert_eq!(error.remote_request_id, None);
}

#[test]
fn builds_flash_request_and_parses_utterances() {
    let audio = volcengine::audio_object("data", "YXVkaW8=", "wav", Some("zh-CN"));
    let body = volcengine::request_body("task-1", audio, "bigmodel");
    let JsonValue::Object(entries) = &body else {
        panic!("request body object");
    };
    assert_eq!(entries.iter().map(|e| e.0.as_str()).collect::<Vec<_>>(), vec!["user", "audio", "request"]);
    let JsonValue::Object(audio) = &entries[1].1 else {
        panic!("audio object");
    };
    assert_eq!(text_of(Some(&audio[1].1)), Some("wav".to_string()));
    assert_eq!(audio[2].0, "language");
    assert_eq!(text_of(Some(&audio[2].1)), Some("zh-CN".to_string()));
    let JsonValue::Object(request) = &entries[2].1 else {
        panic!("request object");
    };
    assert_eq!(text_of(Some(&request[0].1)), Some("bigmodel".to_string()));
    assert_eq!(request[4].0, "show_utterances");
    assert!(matches!(request[4].1, JsonValue::Bool(true)));
    let headers = volcengine::request_headers("operation-1");
    assert_eq!(headers[1], ("X-Api-Resource-Id".to_string(), "volc.bigasr.auc_turbo".to_string()));
    assert_eq!(headers[2], ("X-Api-Sequence".to_string(), "-1".to_string()));

    let reply = obj(vec![
        ("audio_info", obj(vec![("duration", num(2499))])),
        (
            "result",
            obj(vec![
                ("text", s("contract transcript")),
                (
                    "utterances",
                    JsonValue::Array(vec![obj(vec![
                        ("start_time", num(450)),
                        ("end_time", num(1530)),
                        ("text", s("contract transcript")),
                    ])]),
                ),
            ]),
        ),
    ]);
    let transcript = volcengine::parse_response(&response("20000000", "log-1"), Some(&reply), Some(2_499))
        .expect("transcription response");
    assert_eq!(transcript.text, "contract transcript");
    assert_eq!(transcript.segments.len(), 1);
    assert_eq!(transcript.segments[0].start_ms, Some(450));
    assert_eq!(transcript.segments[0].end_ms, Some(1530));
    assert_eq!(transcript.segments[0].id, "segment-1");
    assert_eq!(transcript.duration_ms, Some(2499));
}

#[test]
fn volcengine_response_shape_is_enforced() {
    let ok = response("20000000", "log");
    assert_eq!(
        volcengine::parse_response(&ok, None, None).expect_err("not json").safe_message,
        "火山引擎返回的转写响应不是有效 JSON"
    );
    let blank = obj(vec![("result", obj(vec![("text", s("  "))]))]);
    assert_eq!(volcengine::parse_response(&ok, Some(&blank), None).expect_err("blank").code, "empty_transcript");
    let no_utterances = obj(vec![("result", obj(vec![("text", s("words"))]))]);
    let transcript = volcengine::parse_response(&ok, Some(&no_utterances), Some(12)).expect("text only");
    assert!(transcript.segments.is_empty());
    assert_eq!(transcript.duration_ms, Some(12));
    let bad_list = obj(vec![("result", obj(vec![("text", s("words")), ("utterances", s("x"))]))]);
    assert_eq!(
        volcengine::parse_response(&ok, Some(&bad_list), None).expect_err("not a list").safe_message,
        "火山引擎分句字段格式无效"
    );
    let no_text = obj(vec![(
        "result",
        obj(vec![("text", s("words")), ("utterances", JsonValue::Array(vec![obj(vec![("start_time", num(1))])]))]),
    )]);
    assert_eq!(
        volcengine::parse_response(&ok, Some(&no_text), None).expect_err("no text").safe_message,
        "火山引擎分句缺少文本字段"
    );
    let caps = volcengine::capabilities(ReplaySafety::NeverAutomaticallyReplay);
    assert!(caps.supports_remote_urls && caps.supports_timestamps && !caps.supports_confidence);
    assert_eq!(caps.accepted_media_types.len(), 5);
}

fn mimo_config() -> ProviderHttpConfig {
    let mut config = http_config("mimo-v2.5-asr", ProviderCredentialPlacement::Bearer, ReplaySafety::BeforeRequestBodySentOnly);
    config.endpoint = "https://api.xiaomimimo.com/v1/chat/completions".to_owned();
    config
}

#[test]
fn builds_documented_request_and_parses_response() {
    assert!(xiaomi_mimo::validate_config(&mimo_config()).is_ok());
    let mut language = options();
    language.language_hint = Some("zh".to_owned());
    let mime = xiaomi_mimo::preflight(10, &language, "audio/mpeg").expect("preflight");
    let data_url = xiaomi_mimo::audio_data_url(mime, "dGVzdC1hdWRpbw==").expect("data url");
    assert!(data_url.starts_with("data:audio/mpeg;base64,"));
    let body = xiaomi_mimo::request_body("mimo-v2.5-asr", &data_url, Some("zh"));
    let JsonValue::Object(entries) = &body else {
        panic!("request body object");
    };
    assert_eq!(entries[2].0, "model");
    assert_eq!(text_of(Some(&entries[2].1)), Some("mimo-v2.5-asr".to_string()));
    let JsonValue::Object(asr) = &entries[0].1 else {
        panic!("asr options");
    };
    assert_eq!(text_of(Some(&asr[0].1)), Some("zh".to_string()));
    assert!(matches!(entries[3].1, JsonValue::Bool(false)));

    let reply = obj(vec![
        ("id", s("request-1")),
        ("choices", JsonValue::Array(vec![obj(vec![("message", obj(vec![("content", s("contract transcript"))]))])])),
    ]);
    let (transcript, request_id) = xiaomi_mimo::parse_response(Some(&reply), Some(10)).expect("transcription response");
    assert_eq!(transcript.text, "contract transcript");
    assert_eq!(request_id.as_deref(), Some("request-1"));
    assert!(transcript.segments.is_empty());
}

#[test]
fn rejects_audio_that_would_exceed_encoded_limit() {
    let error = xiaomi_mimo::preflight(xiaomi_mimo::MAX_RAW_AUDIO_BYTES + 1, &options(), "audio/mpeg")
        .expect_err("oversized audio must fail");
    assert_eq!(error.code, "file_too_large");
    let long = "A".repeat(xiaomi_mimo::MAX_ENCODED_AUDIO_BYTES);
    assert_eq!(xiaomi_mimo::audio_data_url("audio/wav", &long).expect_err("encoded limit").code, "file_too_large");
}

#[test]
fn rejects_unsupported_media_and_features() {
    let media_error = xiaomi_mimo::preflight(7, &options(), "audio/mp4").expect_err("unsupported media must fail");
    assert_eq!(media_error.code, "unsupported_audio");
    let mut speakers = options();
    speakers.enable_speaker_labels = true;
    let feature_error = xiaomi_mimo::preflight(7, &speakers, "audio/wav").expect_err("unsupported feature must fail");
    assert_eq!(feature_error.code, "unsupported_option");
    let mut language = options();
    language.language_hint = Some("fr".to_owned());
    assert_eq!(xiaomi_mimo::preflight(7, &language, "audio/wav").expect_err("language").code, "unsupported_language");
    assert_eq!(xiaomi_mimo::canonical_mime_type("Audio/Wave").expect("wave"), "audio/wav");
}

#[test]
fn rejects_empty_or_malformed_transcript_response() {
    let reply = obj(vec![("choices", JsonValue::Array(vec![obj(vec![("message", obj(vec![("content", s(""))]))])]))]);
    let error = xiaomi_mimo::parse_response(Some(&reply), None).expect_err("empty transcript must fail");
    assert_eq!(error.code, "empty_transcript");
    assert_eq!(error.outcome, OperationOutcome::Failed);
    assert_eq!(
        xiaomi_mimo::parse_response(None, None).expect_err("not json").code,
        "invalid_provider_response"
    );
}

fn provider(preset_id: &str, endpoint: &str, model: &str) -> PublicProviderConfig {
    PublicProviderConfig {
        preset_id: preset_id.to_string(),
        kind: "openai_compatible".to_string(),
        endpoint: endpoint.to_string(),
        model: model.to_string(),
        local_model_path: String::new(),
        credential_preset_id: Some(preset_id.to_string()),
        secret_configured: true,
        connect_timeout_ms: 1_000,
        request_timeout_ms: 5_000,
        max_retries: 1,
        ready: true,
        readiness: ProviderReadiness::Ready,
        validation_message: String::new(),
    }
}

#[test]
fn builds_only_executable_transcription_presets() {
    let mimo = provider(
        meeting_desk::config::PRESET_XIAOMI_MIMO_ASR,
        meeting_desk::config::XIAOMI_MIMO_ASR_ENDPOINT,
        "mimo-v2.5-asr",
    );
    let (adapter, profile) = transcription_adapter(&mimo).expect("executable preset");
    assert_eq!(adapter, TranscriptionAdapter::XiaomiMimo);
    assert_eq!(profile.adapter_id, "xiaomi_mimo_asr");
    assert_eq!(profile.replay_safety, ReplaySafety::NeverAutomaticallyReplay);

    let dashscope = provider(
        meeting_desk::config::PRESET_DASHSCOPE_FUNASR_CN,
        meeting_desk::config::DASHSCOPE_FUNASR_CN_ENDPOINT,
        "fun-asr",
    );
    assert_eq!(
        transcription_adapter(&dashscope).err().expect("unsupported adapter").code,
        "unsupported_transcription_provider"
    );
}

#[test]
fn rejects_tampered_managed_minutes_endpoint() {
    let deepseek = provider(
        meeting_desk::config::PRESET_DEEPSEEK,
        "https://example.invalid/chat/completions",
        "deepseek-v4-flash",
    );
    assert_eq!(
        minutes_adapter(&deepseek).err().expect("managed endpoint must be fixed").code,
        "managed_endpoint_mismatch"
    );
}

#[test]
fn adapter_profiles_follow_the_preset() {
    let volc = provider(
        meeting_desk::config::PRESET_VOLCENGINE_ASR_FLASH,
        meeting_desk::config::VOLCENGINE_ASR_FLASH_ENDPOINT,
        "bigmodel",
    );
    let (adapter, profile) = transcription_adapter(&volc).expect("volcengine");
    assert_eq!(adapter, TranscriptionAdapter::VolcengineFlash);
    assert_eq!(profile.max_concurrent, 2);
    assert!(!profile.allow_insecure_loopback);
    let wrong_model = provider(
        meeting_desk::config::PRESET_VOLCENGINE_ASR_FLASH,
        meeting_desk::config::VOLCENGINE_ASR_FLASH_ENDPOINT,
        "other",
    );
    assert_eq!(transcription_adapter(&wrong_model).err().expect("model").code, "unsupported_model");
    let custom = provider(meeting_desk::config::PRESET_CUSTOM_OPENAI, "http://127.0.0.1:8080/v1/chat", "m");
    let profile = minutes_adapter(&custom).expect("custom minutes");
    assert!(profile.allow_insecure_loopback);
    assert_eq!(profile.retry.max_delay_ms, 10_000);
    let unknown = provider("unknown", "https://example.invalid", "m");
    assert_eq!(minutes_adapter(&unknown).err().expect("unknown").code, "unsupported_minutes_provider");
}

#[test]
fn minutes_candidate_is_read_from_the_raw_body() {
    let mut mapping = minutes_mapping();
    let body = br#"{"fixture":{"candidate":"{\"schemaVersion\":\"1.0.0\",\"n\":2}"}}"#;
    let candidate = mapping.minutes_candidate_of_body(body).expect("candidate");
    assert!(matches!(candidate.get_member("schemaVersion"), Some(JsonValue::String(v)) if v == "1.0.0"));
    assert!(matches!(candidate.get_member("n"), Some(JsonValue::Number(n)) if n.unsigned == Some(2)));
    assert_eq!(mapping.minutes_candidate_of_body(b"not json").expect_err("body").code, "invalid_provider_response");
    let broken = br#"{"fixture":{"candidate":"{broken"}}"#;
    assert_eq!(mapping.minutes_candidate_of_body(broken).expect_err("candidate").code, "invalid_minutes_json");
    mapping.response_content_mode = JsonContentMode::JsonValue;
    let direct = mapping.minutes_candidate_of_body(br#"{"fixture":{"candidate":{"title":"t"}}}"#).expect("value");
    assert!(matches!(direct.get_member("title"), Some(JsonValue::String(v)) if v == "t"));
    assert!(matches!(decode_minutes_candidate("[true]"), Ok(JsonValue::Array(items)) if items.len() == 1));
}

#[test]
fn provider_parsers_read_raw_bodies() {
    let body = br#"{"id":"request-2","choices":[{"message":{"content":"raw transcript"}}]}"#;
    let (transcript, id) = xiaomi_mimo::parse_response_body(body, Some(5)).expect("mimo body");
    assert_eq!(transcript.text, "raw transcript");
    assert_eq!(id.as_deref(), Some("request-2"));
    assert_eq!(xiaomi_mimo::parse_response_body(b"<html>", None).expect_err("mimo").code, "invalid_provider_response");

    let mut ok = response("20000000", "log");
    ok.body = br#"{"audio_info":{"duration":900},"result":{"text":"flash text"}}"#.to_vec();
    let flash = volcengine::parse_response_body(&ok, None).expect("flash body");
    assert_eq!(flash.text, "flash text");
    assert_eq!(flash.duration_ms, Some(900));
    ok.body = b"{".to_vec();
    assert_eq!(volcengine::parse_response_body(&ok, None).expect_err("flash").code, "invalid_provider_response");
}
