use meeting_desk::config::{
    credential_binding_id, evaluate_provider_readiness, evaluate_settings_readiness,
    infer_preset_from_endpoint, provider_defaults, ALIYUN_BAILIAN_ENDPOINT, DEEPSEEK_ENDPOINT,
    LOCAL_FUNASR_ENDPOINT, LOCAL_FUNASR_MODEL, PRESET_ALIYUN_BAILIAN, PRESET_CUSTOM_OPENAI,
    PRESET_DEEPSEEK, PRESET_LOCAL_FUNASR, PRESET_MOCK, PRESET_VOLCENGINE_ASR_FLASH,
    PRESET_XIAOMI_MIMO_ASR, PRESET_XIAOMI_MIMO_LLM, VOLCENGINE_ASR_FLASH_ENDPOINT,
    XIAOMI_MIMO_ASR_ENDPOINT, XIAOMI_MIMO_LLM_ENDPOINT,
};
use meeting_desk::domain::{ProviderReadiness, PublicProviderConfig, PublicSettings};

fn provider(endpoint: &str, model: &str, secret_configured: bool) -> PublicProviderConfig {
    PublicProviderConfig {
        preset_id: PRESET_CUSTOM_OPENAI.to_string(),
        kind: "openai_compatible".to_string(),
        endpoint: endpoint.to_string(),
        model: model.to_string(),
        local_model_path: String::new(),
        credential_preset_id: if secret_configured {
            Some(PRESET_CUSTOM_OPENAI.to_string())
        } else {
            None
        },
        secret_configured,
        connect_timeout_ms: 10_000,
        request_timeout_ms: 60_000,
        max_retries: 2,
        ready: false,
        readiness: ProviderReadiness::Incomplete,
        validation_message: String::new(),
    }
}

#[test]
fn reports_all_missing_real_provider_fields() {
    let evaluated = evaluate_provider_readiness(provider("", "", false));
    assert!(!evaluated.ready);
    assert_eq!(evaluated.readiness, ProviderReadiness::Incomplete);
    assert!(evaluated.validation_message.contains("API 地址"));
    assert!(evaluated.validation_message.contains("模型名"));
    assert!(evaluated.validation_message.contains("API Key"));
}

#[test]
fn requires_secret_for_real_provider_readiness() {
    let evaluated = evaluate_provider_readiness(provider(
        "https://api.example.test/v1",
        "example-model",
        false,
    ));
    assert!(!evaluated.ready);
    assert_eq!(evaluated.validation_message, "请补充：API Key");
}

#[test]
fn marks_complete_real_provider_as_ready() {
    let evaluated = evaluate_provider_readiness(provider(
        "https://api.example.test/v1",
        "example-model",
        true,
    ));
    assert!(evaluated.ready);
    assert_eq!(evaluated.readiness, ProviderReadiness::Ready);
}

#[test]
fn rejects_legacy_mock_as_real_ready() {
    let legacy = PublicProviderConfig {
        preset_id: PRESET_MOCK.to_string(),
        kind: "mock".to_string(),
        ..PublicProviderConfig::default()
    };
    let evaluated = evaluate_provider_readiness(legacy);
    assert!(!evaluated.ready);
    assert_eq!(evaluated.readiness, ProviderReadiness::Incomplete);
    assert!(evaluated.validation_message.contains("已停用"));
}

#[test]
fn defines_managed_environment_defaults() {
    assert_eq!(
        provider_defaults("ASR"),
        (
            PRESET_LOCAL_FUNASR,
            "local_funasr",
            LOCAL_FUNASR_ENDPOINT,
            LOCAL_FUNASR_MODEL
        )
    );
    assert_eq!(
        provider_defaults("LLM"),
        (
            PRESET_DEEPSEEK,
            "openai_compatible",
            DEEPSEEK_ENDPOINT,
            "deepseek-v4-flash"
        )
    );
}

#[test]
fn accepts_local_funasr_without_api_key() {
    let mut value = provider(LOCAL_FUNASR_ENDPOINT, LOCAL_FUNASR_MODEL, false);
    value.kind = "local_funasr".to_string();
    value.preset_id = PRESET_LOCAL_FUNASR.to_string();
    assert!(evaluate_provider_readiness(value).ready);
}

#[test]
fn rejects_disabled_online_asr_provider_readiness() {
    let mut mimo = provider(XIAOMI_MIMO_ASR_ENDPOINT, "mimo-v2.5-asr", true);
    mimo.kind = "xiaomi_mimo".to_string();
    mimo.preset_id = PRESET_XIAOMI_MIMO_ASR.to_string();
    assert!(!evaluate_provider_readiness(mimo).ready);

    let mut volc = provider(VOLCENGINE_ASR_FLASH_ENDPOINT, "bigmodel", true);
    volc.kind = "volcengine_asr".to_string();
    volc.preset_id = PRESET_VOLCENGINE_ASR_FLASH.to_string();
    assert!(!evaluate_provider_readiness(volc).ready);
}

#[test]
fn infers_aliyun_bailian_managed_preset() {
    assert_eq!(
        infer_preset_from_endpoint(ALIYUN_BAILIAN_ENDPOINT, "qwen-plus", PRESET_CUSTOM_OPENAI),
        PRESET_ALIYUN_BAILIAN
    );
}

#[test]
fn infers_new_managed_asr_presets_from_exact_endpoints() {
    assert_eq!(
        infer_preset_from_endpoint(
            XIAOMI_MIMO_ASR_ENDPOINT,
            "mimo-v2.5-asr",
            PRESET_CUSTOM_OPENAI
        ),
        PRESET_XIAOMI_MIMO_ASR
    );
    assert_eq!(
        infer_preset_from_endpoint(
            VOLCENGINE_ASR_FLASH_ENDPOINT,
            "bigmodel",
            PRESET_CUSTOM_OPENAI
        ),
        PRESET_VOLCENGINE_ASR_FLASH
    );
}

#[test]
fn distinguishes_xiaomi_mimo_presets_by_model() {
    assert_eq!(
        infer_preset_from_endpoint(XIAOMI_MIMO_LLM_ENDPOINT, "mimo-v2.5", PRESET_CUSTOM_OPENAI),
        PRESET_XIAOMI_MIMO_LLM
    );
    assert_eq!(
        infer_preset_from_endpoint(
            XIAOMI_MIMO_LLM_ENDPOINT,
            "mimo-v2.5-pro",
            PRESET_CUSTOM_OPENAI
        ),
        PRESET_XIAOMI_MIMO_LLM
    );
}

#[test]
fn custom_credential_binding_changes_with_endpoint_without_exposing_it() {
    let first = provider("https://first.example.test/v1", "model", true);
    let second = provider("https://second.example.test/v1", "model", true);
    let first_binding = credential_binding_id(&first);
    assert_ne!(first_binding, credential_binding_id(&second));
    assert!(!first_binding.contains("first.example"));
}

#[test]
fn evaluates_only_one_configured_provider() {
    let evaluated = evaluate_settings_readiness(PublicSettings {
        transcription: provider("https://api.example.test/v1", "asr-model", true),
        minutes: provider("", "", false),
    });
    assert!(evaluated.transcription.ready);
    assert!(!evaluated.minutes.ready);
}

#[test]
fn evaluates_both_configured_providers() {
    let evaluated = evaluate_settings_readiness(PublicSettings {
        transcription: provider("https://asr.example.test/v1", "asr-model", true),
        minutes: provider("https://llm.example.test/v1", "llm-model", true),
    });
    assert!(evaluated.transcription.ready);
    assert!(evaluated.minutes.ready);
}

#[test]
fn unknown_environment_prefix_has_no_defaults() {
    assert_eq!(
        provider_defaults("OTHER"),
        (PRESET_CUSTOM_OPENAI, "openai_compatible", "", "")
    );
}

#[test]
fn managed_preset_keeps_stable_binding() {
    let mut value = provider(DEEPSEEK_ENDPOINT, "deepseek-v4-flash", true);
    value.preset_id = PRESET_DEEPSEEK.to_string();
    assert_eq!(credential_binding_id(&value), PRESET_DEEPSEEK);
}

#[test]
fn custom_binding_is_prefixed_digest_of_trimmed_endpoint() {
    let spaced = provider("  https://first.example.test/v1  ", "model", true);
    let plain = provider("https://first.example.test/v1", "model", true);
    let binding = credential_binding_id(&plain);
    assert_eq!(binding, credential_binding_id(&spaced));
    let prefix = format!("{}:", PRESET_CUSTOM_OPENAI);
    assert!(binding.starts_with(&prefix));
    assert_eq!(binding.len(), prefix.len() + 24);
}
