use meeting_desk::commands::settings::{
    classify_probe_status, migrate_public_provider, resolve_provider, ProviderSettingsInput,
    ProviderTarget, validate_local_model_path, LocalModelDirectoryFacts};
use meeting_desk::config;
use meeting_desk::domain::{ProviderReadiness, PublicProviderConfig};

fn valid_input() -> ProviderSettingsInput {
    ProviderSettingsInput {
        preset_id: config::PRESET_CUSTOM_OPENAI.into(),
        kind: "openai_compatible".into(),
        endpoint: "https://api.example.test/v1".into(),
        model: "test-model".into(),
        local_model_path: None,
        api_key: None,
        connect_timeout_ms: 10_000,
        request_timeout_ms: 60_000,
        max_retries: 2,
    }
}

fn stored(endpoint: &str, model: &str) -> PublicProviderConfig {
    PublicProviderConfig {
        preset_id: String::new(),
        kind: "openai_compatible".to_string(),
        endpoint: endpoint.to_string(),
        model: model.to_string(),
        local_model_path: String::new(),
        credential_preset_id: None,
        secret_configured: true,
        connect_timeout_ms: 10_000,
        request_timeout_ms: 60_000,
        max_retries: 2,
        ready: false,
        readiness: ProviderReadiness::Incomplete,
        validation_message: String::new(),
    }
}

#[test]
fn settings_rejects_insecure_remote_endpoint() {
    let mut input = valid_input();
    input.endpoint = "http://example.test/v1".into();
    assert!(resolve_provider(&input, ProviderTarget::Minutes, None, false, &checked_directory()).is_err());
}

#[test]
fn accepts_local_development_endpoint() {
    let mut input = valid_input();
    input.endpoint = "http://127.0.0.1:3000/v1".into();
    assert!(resolve_provider(&input, ProviderTarget::Minutes, None, false, &checked_directory()).is_ok());
}

#[test]
fn classifies_safe_connection_probe_statuses() {
    assert!(classify_probe_status(200).ok);
    assert!(classify_probe_status(202).ok);
    assert!(classify_probe_status(405).ok);
    assert!(!classify_probe_status(401).ok);
    assert!(!classify_probe_status(404).ok);
    assert!(!classify_probe_status(429).ok);
    assert!(!classify_probe_status(502).ok);
}

#[test]
fn saved_public_provider_reports_readiness_without_secret_value() {
    let mut binding_source = stored("https://api.example.test/v1", "test-model");
    binding_source.preset_id = config::PRESET_CUSTOM_OPENAI.to_string();
    binding_source.secret_configured = false;
    let public = resolve_provider(
        &valid_input(),
        ProviderTarget::Minutes,
        Some(config::credential_binding_id(&binding_source)),
        true,
        &checked_directory(),
    )
    .expect("自定义 Provider 应通过校验");
    assert!(public.ready);
    assert!(public.secret_configured);
    assert_eq!(public.validation_message, "真实 Provider 配置已就绪");
}

#[test]
fn rejects_unimplemented_funasr_preset() {
    let mut input = valid_input();
    input.preset_id = config::PRESET_DASHSCOPE_FUNASR_CN.to_string();
    input.kind = "untrusted_kind".to_string();
    input.endpoint = "https://attacker.example.test/collect".to_string();
    input.model = "fun-asr-mtl".to_string();
    assert!(resolve_provider(&input, ProviderTarget::Transcription, None, false, &checked_directory()).is_err());
}

#[test]
fn local_funasr_uses_fixed_fields_without_credential() {
    let mut input = valid_input();
    input.preset_id = config::PRESET_LOCAL_FUNASR.to_string();
    input.kind = "untrusted_kind".to_string();
    input.endpoint = "https://attacker.example.test/collect".to_string();
    input.model.clear();
    input.request_timeout_ms = config::LOCAL_FUNASR_DEFAULT_TIMEOUT_MS;
    let public = resolve_provider(&input, ProviderTarget::Transcription, None, false, &checked_directory())
        .expect("local FunASR settings");
    assert_eq!(public.kind, "local_funasr");
    assert_eq!(public.endpoint, config::LOCAL_FUNASR_ENDPOINT);
    assert_eq!(public.model, config::LOCAL_FUNASR_MODEL);
    assert!(public.credential_preset_id.is_none());
    assert!(!public.secret_configured);
    assert!(public.ready);
}

#[test]
fn local_funasr_keeps_trimmed_model_directory() {
    let mut input = valid_input();
    input.preset_id = config::PRESET_LOCAL_FUNASR.to_string();
    input.kind = "local_funasr".to_string();
    input.model = config::LOCAL_FUNASR_MODEL.to_string();
    input.local_model_path = Some("  D:\\models\\SenseVoiceSmall ".to_string());
    input.request_timeout_ms = config::LOCAL_FUNASR_DEFAULT_TIMEOUT_MS;
    let public = resolve_provider(&input, ProviderTarget::Transcription, None, false, &checked_directory())
        .expect("selected model directory");
    assert_eq!(public.local_model_path, "D:\\models\\SenseVoiceSmall");
}

#[test]
fn rejects_disabled_xiaomi_mimo_asr() {
    let mut input = valid_input();
    input.preset_id = config::PRESET_XIAOMI_MIMO_ASR.to_string();
    input.kind = "untrusted_kind".to_string();
    input.endpoint = "https://attacker.example.test/collect".to_string();
    input.model.clear();
    assert!(resolve_provider(&input, ProviderTarget::Transcription, None, false, &checked_directory()).is_err());
}

#[test]
fn rejects_disabled_volcengine_asr() {
    let mut input = valid_input();
    input.preset_id = config::PRESET_VOLCENGINE_ASR_FLASH.to_string();
    input.kind = "untrusted_kind".to_string();
    input.endpoint = "https://attacker.example.test/collect".to_string();
    input.model.clear();
    assert!(resolve_provider(&input, ProviderTarget::Transcription, None, false, &checked_directory()).is_err());
}

#[test]
fn managed_xiaomi_mimo_llm_uses_fixed_contract() {
    let mut input = valid_input();
    input.preset_id = config::PRESET_XIAOMI_MIMO_LLM.to_string();
    input.kind = "untrusted_kind".to_string();
    input.endpoint = "https://attacker.example.test/collect".to_string();
    input.model = "mimo-v2.5-pro".to_string();
    let public = resolve_provider(&input, ProviderTarget::Minutes, None, false, &checked_directory())
        .expect("MiMo LLM 托管预设应使用固定字段");
    assert_eq!(public.kind, "openai_compatible");
    assert_eq!(public.endpoint, config::XIAOMI_MIMO_LLM_ENDPOINT);
    assert_eq!(public.model, "mimo-v2.5-pro");
}

#[test]
fn managed_deepseek_uses_fixed_endpoint_and_default_model() {
    let mut input = valid_input();
    input.preset_id = config::PRESET_DEEPSEEK.to_string();
    input.endpoint = "https://attacker.example.test/collect".to_string();
    input.model.clear();
    let public = resolve_provider(&input, ProviderTarget::Minutes, None, false, &checked_directory())
        .expect("托管 DeepSeek 输入应使用固定值");
    assert_eq!(public.endpoint, config::DEEPSEEK_ENDPOINT);
    assert_eq!(public.model, "deepseek-v4-flash");
}

#[test]
fn managed_aliyun_bailian_uses_fixed_endpoint_and_default_model() {
    let mut input = valid_input();
    input.preset_id = config::PRESET_ALIYUN_BAILIAN.to_string();
    input.endpoint = "https://attacker.example.test/collect".to_string();
    input.model.clear();
    let public = resolve_provider(&input, ProviderTarget::Minutes, None, false, &checked_directory())
        .expect("托管百炼输入应使用固定值");
    assert_eq!(public.endpoint, config::ALIYUN_BAILIAN_ENDPOINT);
    assert_eq!(public.model, "qwen-plus");
}

#[test]
fn managed_presets_reject_unknown_models() {
    let mut deepseek = valid_input();
    deepseek.preset_id = config::PRESET_DEEPSEEK.to_string();
    deepseek.model = "unknown-llm".to_string();
    assert!(resolve_provider(&deepseek, ProviderTarget::Minutes, None, false, &checked_directory()).is_err());

    let mut mimo_llm = valid_input();
    mimo_llm.preset_id = config::PRESET_XIAOMI_MIMO_LLM.to_string();
    mimo_llm.model = "unknown-mimo".to_string();
    assert!(resolve_provider(&mimo_llm, ProviderTarget::Minutes, None, false, &checked_directory()).is_err());

    let mut bailian = valid_input();
    bailian.preset_id = config::PRESET_ALIYUN_BAILIAN.to_string();
    bailian.model = "unknown-qwen".to_string();
    assert!(resolve_provider(&bailian, ProviderTarget::Minutes, None, false, &checked_directory()).is_err());

    let mut mimo = valid_input();
    mimo.preset_id = config::PRESET_XIAOMI_MIMO_ASR.to_string();
    mimo.model = "unknown-asr".to_string();
    assert!(resolve_provider(&mimo, ProviderTarget::Transcription, None, false, &checked_directory()).is_err());

    let mut volc = valid_input();
    volc.preset_id = config::PRESET_VOLCENGINE_ASR_FLASH.to_string();
    volc.model = "unknown-asr".to_string();
    assert!(resolve_provider(&volc, ProviderTarget::Transcription, None, false, &checked_directory()).is_err());
}

#[test]
fn rejects_legacy_mock_preset_from_settings_input() {
    let mut input = valid_input();
    input.preset_id = config::PRESET_MOCK.to_string();
    assert!(resolve_provider(&input, ProviderTarget::Minutes, None, false, &checked_directory()).is_err());
}

#[test]
fn legacy_mock_migration_does_not_rebind_legacy_credential() {
    let legacy = PublicProviderConfig {
        preset_id: config::PRESET_MOCK.to_string(),
        kind: "mock".to_string(),
        credential_preset_id: Some(config::PRESET_MOCK.to_string()),
        secret_configured: true,
        ..PublicProviderConfig::default()
    };

    let migrated = migrate_public_provider(legacy, ProviderTarget::Minutes, true);

    assert_eq!(migrated.preset_id, config::PRESET_DEEPSEEK);
    assert!(migrated.credential_preset_id.is_none());
    assert!(!migrated.secret_configured);
}

#[test]
fn switching_preset_does_not_reuse_existing_credential() {
    let input = valid_input();
    let public = resolve_provider(
        &input,
        ProviderTarget::Minutes,
        Some(config::PRESET_DEEPSEEK.to_string()),
        true,
        &checked_directory(),
    )
    .expect("自定义 Provider 输入应通过字段校验");
    assert_eq!(
        public.credential_preset_id.as_deref(),
        Some(config::PRESET_DEEPSEEK)
    );
    assert!(!public.secret_configured);
    assert!(!public.ready);
}

#[test]
fn legacy_preset_inference_requires_exact_managed_endpoint() {
    let mut managed = stored(config::DEEPSEEK_ENDPOINT, "deepseek-v4-flash");
    let migrated = migrate_public_provider(managed.copy(), ProviderTarget::Minutes, true);
    assert_eq!(migrated.preset_id, config::PRESET_DEEPSEEK);

    managed.endpoint.push('/');
    let custom = migrate_public_provider(managed, ProviderTarget::Minutes, true);
    assert_eq!(custom.preset_id, config::PRESET_CUSTOM_OPENAI);
}

#[test]
fn legacy_custom_transcription_migrates_to_local_funasr() {
    let mut custom = stored("https://asr.example.test/v1", "custom-asr");
    custom.preset_id = config::PRESET_CUSTOM_OPENAI.to_string();
    custom.ready = true;
    custom.readiness = ProviderReadiness::Ready;

    let migrated = migrate_public_provider(custom, ProviderTarget::Transcription, true);
    let evaluated = config::evaluate_provider_readiness(migrated);

    assert_eq!(evaluated.preset_id, config::PRESET_LOCAL_FUNASR);
    assert_eq!(evaluated.kind, "local_funasr");
    assert_eq!(evaluated.endpoint, config::LOCAL_FUNASR_ENDPOINT);
    assert_eq!(evaluated.model, config::LOCAL_FUNASR_MODEL);
    assert!(!evaluated.secret_configured);
    assert!(evaluated.ready);
}

#[test]
fn legacy_custom_minutes_binds_endpoint_credential() {
    let parsed = stored("https://api.example.test/v1", "example-model");
    let mut migrated = migrate_public_provider(parsed, ProviderTarget::Minutes, true);
    assert_eq!(migrated.preset_id, config::PRESET_CUSTOM_OPENAI);
    let expected_binding = config::credential_binding_id(&migrated);
    assert_eq!(
        migrated.credential_preset_id.as_deref(),
        Some(expected_binding.as_str())
    );
    migrated.secret_configured = true;
    let evaluated = config::evaluate_provider_readiness(migrated);
    assert!(evaluated.ready);
}

#[test]
fn transcription_preset_is_refused_for_minutes() {
    let mut input = valid_input();
    input.preset_id = config::PRESET_LOCAL_FUNASR.to_string();
    let error = resolve_provider(&input, ProviderTarget::Minutes, None, false, &checked_directory())
        .expect_err("transcription preset cannot serve minutes");
    assert_eq!(error.code, "settings_invalid");
    assert_eq!(error.safe_message, "Provider 预设与目标服务不兼容");
}

#[test]
fn out_of_range_timeouts_are_refused() {
    let mut input = valid_input();
    input.connect_timeout_ms = 10;
    let error = resolve_provider(&input, ProviderTarget::Minutes, None, false, &checked_directory())
        .expect_err("too short connect timeout");
    assert_eq!(error.code, "settings_invalid");
    assert_eq!(error.safe_message, "连接超时、请求超时或重试次数超出允许范围");
}

fn checked_directory() -> LocalModelDirectoryFacts {
    LocalModelDirectoryFacts { is_absolute: true, problem: None }
}

#[test]
fn local_model_directory_must_be_an_absolute_local_path() {
    let relative = LocalModelDirectoryFacts { is_absolute: false, problem: None };
    let error = validate_local_model_path(Some("models/SenseVoiceSmall"), &relative).expect_err("relative");
    assert_eq!(error.code, "local_model_path_invalid");
    assert_eq!(error.safe_message, "请选择本机磁盘上的 SenseVoiceSmall 模型目录");
    let unc = validate_local_model_path(Some("\\\\server\\models"), &checked_directory()).expect_err("unc");
    assert_eq!(unc.code, "local_model_path_invalid");
    assert!(validate_local_model_path(Some("//server/models"), &checked_directory()).is_err());
    let incomplete = LocalModelDirectoryFacts { is_absolute: true, problem: Some("模型目录不完整".to_string()) };
    let error = validate_local_model_path(Some("D:\\models"), &incomplete).expect_err("files");
    assert_eq!(error.safe_message, "模型目录不完整");
    assert_eq!(validate_local_model_path(Some("   "), &relative).expect("none chosen"), "");
    assert_eq!(validate_local_model_path(Some(" /opt/models "), &checked_directory()).expect("absolute"), "/opt/models");
}
