//! Which production adapter a canonical provider preset gets, and the conservative HTTP
//! profile it runs with.

use vstd::prelude::*;

use super::contract::ReplaySafety;
use super::error::{configuration_error, ProviderError, ProviderErrorV};
use super::http::{http_config_error, HttpConfigV, PlacementV, ProviderCredentialPlacement, ProviderHttpConfig};
use super::mapping::{capability_evidence_problem, transcription_mapping_problem, TranscriptionHttpMapping};
use super::minutes_mapping::{minutes_mapping_problem, MinutesHttpMapping};
use super::retry::RetryPolicy;
use crate::config::{
    ALIYUN_BAILIAN_ENDPOINT, DEEPSEEK_ENDPOINT, PRESET_ALIYUN_BAILIAN, PRESET_CUSTOM_OPENAI,
    PRESET_DEEPSEEK, PRESET_VOLCENGINE_ASR_FLASH, PRESET_XIAOMI_MIMO_ASR, PRESET_XIAOMI_MIMO_LLM,
    VOLCENGINE_ASR_FLASH_ENDPOINT, XIAOMI_MIMO_ASR_ENDPOINT, XIAOMI_MIMO_LLM_ENDPOINT,
};
use crate::domain::PublicProviderConfig;
use crate::text::{chars_of, starts_with, starts_with_chars, str_eq};

verus! {

/// The largest transcription response read: 16 MiB.
pub const MAX_TRANSCRIPT_RESPONSE_BYTES: u64 = 16777216;

/// The largest minutes response read: 8 MiB.
pub const MAX_MINUTES_RESPONSE_BYTES: u64 = 8388608;

/// The production transcription adapters.
#[derive(Debug, Clone, Copy, PartialEq, Eq, Structural)]
pub enum TranscriptionAdapter {
    XiaomiMimo,
    VolcengineFlash,
}

/// Whether an endpoint is plain HTTP on the loopback interface.
pub open spec fn loopback_endpoint(e: Seq<char>) -> bool {
    starts_with(e, "http://127.0.0.1"@) || starts_with(e, "http://localhost"@) || starts_with(
        e,
        "http://[::1]"@,
    )
}

/// Whether `c` is the conservative profile built for a provider: its identity, endpoint,
/// model and timeouts, two concurrent requests, no pacing, a fixed backoff, and sent
/// requests never replayed.
pub open spec fn is_profile_for(
    c: ProviderHttpConfig,
    p: PublicProviderConfig,
    adapter_id: Seq<char>,
    auth: PlacementV,
    max_response_bytes: u64,
) -> bool {
    &&& c.provider_id@ == p.preset_id@
    &&& c.adapter_id@ == adapter_id
    &&& c.adapter_version@ == "1"@
    &&& c.endpoint@ == p.endpoint@
    &&& c.model@ == p.model@
    &&& c.auth@ == auth
    &&& c.connect_timeout_ms == p.connect_timeout_ms
    &&& c.request_timeout_ms == p.request_timeout_ms
    &&& c.overall_timeout_ms == p.request_timeout_ms
    &&& c.max_response_bytes == max_response_bytes
    &&& c.max_concurrent == 2
    &&& c.min_request_interval_ms == 0
    &&& c.retry == RetryPolicy {
        max_retries: p.max_retries,
        base_delay_ms: 500,
        max_delay_ms: 10000,
        max_retry_after_ms: 60000,
    }
    &&& c.replay_safety == ReplaySafety::NeverAutomaticallyReplay
    &&& c.idempotency_header is None
    &&& c.allow_insecure_loopback == loopback_endpoint(p.endpoint@)
}

/// The checked view of the profile built for a provider.
pub open spec fn profile_view(p: PublicProviderConfig, adapter_id: Seq<char>, auth: PlacementV, max_response_bytes: u64) -> HttpConfigV {
    HttpConfigV {
        provider_id: p.preset_id@,
        adapter_id: adapter_id,
        adapter_version: "1"@,
        endpoint: p.endpoint@,
        model: p.model@,
        auth: auth,
        connect_timeout_ms: p.connect_timeout_ms,
        request_timeout_ms: p.request_timeout_ms,
        overall_timeout_ms: p.request_timeout_ms,
        max_response_bytes: max_response_bytes,
        max_concurrent: 2,
        retry: RetryPolicy {
            max_retries: p.max_retries,
            base_delay_ms: 500,
            max_delay_ms: 10000,
            max_retry_after_ms: 60000,
        },
        replay_safety: ReplaySafety::NeverAutomaticallyReplay,
        idempotency_header: None,
        allow_insecure_loopback: loopback_endpoint(p.endpoint@),
        min_request_interval_ms: 0,
    }
}

/// Builds the conservative HTTP profile of a provider.
pub fn http_config(
    provider: &PublicProviderConfig,
    adapter_id: &str,
    auth: ProviderCredentialPlacement,
    max_response_bytes: u64,
) -> (r: ProviderHttpConfig)
    ensures
        is_profile_for(r, *provider, adapter_id@, auth@, max_response_bytes),
        r@ == profile_view(*provider, adapter_id@, auth@, max_response_bytes),
{
    let endpoint = chars_of(provider.endpoint.as_str());
    let loopback = starts_with_chars(endpoint.as_slice(), chars_of("http://127.0.0.1").as_slice())
        || starts_with_chars(endpoint.as_slice(), chars_of("http://localhost").as_slice())
        || starts_with_chars(endpoint.as_slice(), chars_of("http://[::1]").as_slice());
    ProviderHttpConfig {
        provider_id: provider.preset_id.clone(),
        adapter_id: adapter_id.to_string(),
        adapter_version: "1".to_string(),
        endpoint: provider.endpoint.clone(),
        model: provider.model.clone(),
        auth,
        connect_timeout_ms: provider.connect_timeout_ms,
        request_timeout_ms: provider.request_timeout_ms,
        overall_timeout_ms: provider.request_timeout_ms,
        max_response_bytes,
        max_concurrent: 2,
        min_request_interval_ms: 0,
        retry: RetryPolicy {
            max_retries: provider.max_retries,
            base_delay_ms: 500,
            max_delay_ms: 10000,
            max_retry_after_ms: 60000,
        },
        replay_safety: ReplaySafety::NeverAutomaticallyReplay,
        idempotency_header: None,
        allow_insecure_loopback: loopback,
    }
}

/// The error of a managed provider whose endpoint is not its preset's.
pub open spec fn endpoint_mismatch() -> ProviderErrorV {
    configuration_error("managed_endpoint_mismatch"@, "托管 Provider 地址与受信任预设不一致"@)
}

/// Refuses a tampered managed endpoint before a credential can be attached.
pub fn require_endpoint(provider: &PublicProviderConfig, expected: &str) -> (r: Result<(), ProviderError>)
    ensures
        r is Ok <==> provider.endpoint@ == expected@,
        r matches Err(e) ==> e@ == endpoint_mismatch(),
{
    if str_eq(provider.endpoint.as_str(), expected) {
        Ok(())
    } else {
        Err(ProviderError::configuration("managed_endpoint_mismatch", "托管 Provider 地址与受信任预设不一致"))
    }
}

/// The adapter and profile a transcription preset gets, or the error that refuses it:
/// only the Xiaomi MiMo and Volcengine flash presets have executable adapters, each at
/// its fixed endpoint.
pub open spec fn transcription_selection(p: PublicProviderConfig) -> Result<(TranscriptionAdapter, Seq<char>, PlacementV), ProviderErrorV> {
    if p.preset_id@ == PRESET_XIAOMI_MIMO_ASR@ {
        if p.endpoint@ == XIAOMI_MIMO_ASR_ENDPOINT@ {
            Ok((TranscriptionAdapter::XiaomiMimo, "xiaomi_mimo_asr"@, PlacementV::Bearer))
        } else {
            Err(endpoint_mismatch())
        }
    } else if p.preset_id@ == PRESET_VOLCENGINE_ASR_FLASH@ {
        if p.endpoint@ == VOLCENGINE_ASR_FLASH_ENDPOINT@ {
            Ok(
                (
                    TranscriptionAdapter::VolcengineFlash,
                    "volcengine_asr_flash"@,
                    PlacementV::Header { header_name: "X-Api-Key"@, prefix: None },
                ),
            )
        } else {
            Err(endpoint_mismatch())
        }
    } else {
        Err(
            configuration_error(
                "unsupported_transcription_provider"@,
                "当前语音转写预设尚未接入可执行适配器"@,
            ),
        )
    }
}

/// The adapter a transcription preset gets, or the first error that refuses it: the
/// preset and its endpoint, then its profile, then the adapter's fixed model.
pub open spec fn transcription_outcome(p: PublicProviderConfig) -> Result<TranscriptionAdapter, ProviderErrorV> {
    match transcription_selection(p) {
        Err(e) => Err(e),
        Ok((a, id, auth)) => {
            let v = profile_view(p, id, auth, MAX_TRANSCRIPT_RESPONSE_BYTES);
            if http_config_error(v) is Some {
                Err(http_config_error(v)->Some_0)
            } else if a == TranscriptionAdapter::XiaomiMimo && p.model@ != "mimo-v2.5-asr"@ {
                Err(configuration_error("unsupported_model"@, "Xiaomi MiMo ASR 适配器只支持 mimo-v2.5-asr"@))
            } else if a == TranscriptionAdapter::VolcengineFlash && p.model@ != "bigmodel"@ {
                Err(configuration_error("unsupported_model"@, "火山引擎录音文件极速版模型必须为 bigmodel"@))
            } else {
                Ok(a)
            }
        },
    }
}

/// Chooses the production transcription adapter of a canonical preset and builds and
/// checks its HTTP profile.
pub fn transcription_adapter(provider: &PublicProviderConfig) -> (r: Result<
    (TranscriptionAdapter, ProviderHttpConfig),
    ProviderError,
>)
    ensures
        match transcription_outcome(*provider) {
            Ok(adapter) => r is Ok && r->Ok_0.0 == adapter && ({
                let (_, id, auth) = transcription_selection(*provider)->Ok_0;
                is_profile_for(r->Ok_0.1, *provider, id, auth, MAX_TRANSCRIPT_RESPONSE_BYTES)
            }),
            Err(e) => r is Err && r->Err_0@ == e,
        },
{
    let preset = provider.preset_id.as_str();
    if str_eq(preset, PRESET_XIAOMI_MIMO_ASR) {
        require_endpoint(provider, XIAOMI_MIMO_ASR_ENDPOINT)?;
        let config = http_config(
            provider,
            "xiaomi_mimo_asr",
            ProviderCredentialPlacement::Bearer,
            MAX_TRANSCRIPT_RESPONSE_BYTES,
        );
        config.validate()?;
        super::xiaomi_mimo::validate_config(&config)?;
        Ok((TranscriptionAdapter::XiaomiMimo, config))
    } else if str_eq(preset, PRESET_VOLCENGINE_ASR_FLASH) {
        require_endpoint(provider, VOLCENGINE_ASR_FLASH_ENDPOINT)?;
        let config = http_config(
            provider,
            "volcengine_asr_flash",
            ProviderCredentialPlacement::Header { header_name: "X-Api-Key".to_string(), prefix: None },
            MAX_TRANSCRIPT_RESPONSE_BYTES,
        );
        config.validate()?;
        proof {
            reveal_strlit("X-Api-Key");
            reveal_strlit("x-api-key");
            assert(crate::text::ascii_lower_seq("X-Api-Key"@) =~= "x-api-key"@);
        }
        super::volcengine::validate_config(&config)?;
        Ok((TranscriptionAdapter::VolcengineFlash, config))
    } else {
        Err(
            ProviderError::configuration(
                "unsupported_transcription_provider",
                "当前语音转写预设尚未接入可执行适配器",
            ),
        )
    }
}

/// Whether a minutes preset is refused: an unknown preset, or a managed one away from its
/// fixed endpoint.
pub open spec fn minutes_selection_error(p: PublicProviderConfig) -> Option<ProviderErrorV> {
    let id = p.preset_id@;
    let e = p.endpoint@;
    if id == PRESET_XIAOMI_MIMO_LLM@ {
        if e == XIAOMI_MIMO_LLM_ENDPOINT@ {
            None
        } else {
            Some(endpoint_mismatch())
        }
    } else if id == PRESET_DEEPSEEK@ {
        if e == DEEPSEEK_ENDPOINT@ {
            None
        } else {
            Some(endpoint_mismatch())
        }
    } else if id == PRESET_ALIYUN_BAILIAN@ {
        if e == ALIYUN_BAILIAN_ENDPOINT@ {
            None
        } else {
            Some(endpoint_mismatch())
        }
    } else if id == PRESET_CUSTOM_OPENAI@ {
        None
    } else {
        Some(
            configuration_error(
                "unsupported_minutes_provider"@,
                "当前会议纪要预设尚未接入可执行适配器"@,
            ),
        )
    }
}

/// The first error that refuses a minutes preset: the preset and its endpoint, then its
/// profile.
pub open spec fn minutes_outcome_error(p: PublicProviderConfig) -> Option<ProviderErrorV> {
    if minutes_selection_error(p) is Some {
        minutes_selection_error(p)
    } else {
        http_config_error(
            profile_view(p, "openai_chat_completions_minutes"@, PlacementV::Bearer, MAX_MINUTES_RESPONSE_BYTES),
        )
    }
}

/// Admits a managed or custom OpenAI-compatible minutes preset and builds and checks its
/// profile.
pub fn minutes_adapter(provider: &PublicProviderConfig) -> (r: Result<ProviderHttpConfig, ProviderError>)
    ensures
        match minutes_outcome_error(*provider) {
            None => r is Ok && is_profile_for(
                r->Ok_0,
                *provider,
                "openai_chat_completions_minutes"@,
                PlacementV::Bearer,
                MAX_MINUTES_RESPONSE_BYTES,
            ),
            Some(e) => r is Err && r->Err_0@ == e,
        },
{
    let preset = provider.preset_id.as_str();
    if str_eq(preset, PRESET_XIAOMI_MIMO_LLM) {
        require_endpoint(provider, XIAOMI_MIMO_LLM_ENDPOINT)?;
    } else if str_eq(preset, PRESET_DEEPSEEK) {
        require_endpoint(provider, DEEPSEEK_ENDPOINT)?;
    } else if str_eq(preset, PRESET_ALIYUN_BAILIAN) {
        require_endpoint(provider, ALIYUN_BAILIAN_ENDPOINT)?;
    } else if !str_eq(preset, PRESET_CUSTOM_OPENAI) {
        return Err(
            ProviderError::configuration(
                "unsupported_minutes_provider",
                "当前会议纪要预设尚未接入可执行适配器",
            ),
        );
    }
    let config = http_config(
        provider,
        "openai_chat_completions_minutes",
        ProviderCredentialPlacement::Bearer,
        MAX_MINUTES_RESPONSE_BYTES,
    );
    config.validate()?;
    Ok(config)
}

/// The error of a capability declaration whose replay policy differs from the profile's.
pub open spec fn replay_mismatch() -> ProviderErrorV {
    configuration_error("inconsistent_replay_safety"@, "Provider 能力与 HTTP 重放策略不一致"@)
}

/// The first reason a configurable transcription provider cannot be built: its profile,
/// its mapping, its capability evidence, then a replay policy differing from the profile's.
pub open spec fn transcription_profile_error(c: ProviderHttpConfig, m: TranscriptionHttpMapping) -> Option<ProviderErrorV> {
    if http_config_error(c@) is Some {
        http_config_error(c@)
    } else if transcription_mapping_problem(m) is Some {
        Some(configuration_error(transcription_mapping_problem(m)->Some_0.0, transcription_mapping_problem(m)->Some_0.1))
    } else if capability_evidence_problem(
        m.capabilities.evidence,
        m.capabilities.supports_async_jobs,
        m.capabilities.supports_remote_cancel,
    ) is Some {
        let e = capability_evidence_problem(
            m.capabilities.evidence,
            m.capabilities.supports_async_jobs,
            m.capabilities.supports_remote_cancel,
        )->Some_0;
        Some(configuration_error(e.0, e.1))
    } else if c.replay_safety != m.capabilities.replay_safety {
        Some(replay_mismatch())
    } else {
        None
    }
}

/// Checks everything a configurable transcription provider needs before it is built.
pub fn validate_transcription_profile(config: &ProviderHttpConfig, mapping: &TranscriptionHttpMapping) -> (r: Result<
    (),
    ProviderError,
>)
    ensures
        match transcription_profile_error(*config, *mapping) {
            Some(e) => r is Err && r->Err_0@ == e,
            None => r is Ok,
        },
{
    config.validate()?;
    mapping.validate()?;
    super::mapping::validate_http_capability_evidence(
        mapping.capabilities.evidence,
        mapping.capabilities.supports_async_jobs,
        mapping.capabilities.supports_remote_cancel,
    )?;
    if config.replay_safety != mapping.capabilities.replay_safety {
        return Err(
            ProviderError::configuration("inconsistent_replay_safety", "Provider 能力与 HTTP 重放策略不一致"),
        );
    }
    Ok(())
}

/// The first reason a configurable minutes provider cannot be built: its profile, its
/// mapping, its capability evidence, then a replay policy differing from the profile's.
pub open spec fn minutes_profile_error(c: ProviderHttpConfig, m: MinutesHttpMapping) -> Option<ProviderErrorV> {
    if http_config_error(c@) is Some {
        http_config_error(c@)
    } else if minutes_mapping_problem(m) is Some {
        Some(configuration_error(minutes_mapping_problem(m)->Some_0.0, minutes_mapping_problem(m)->Some_0.1))
    } else if capability_evidence_problem(
        m.capabilities.evidence,
        m.capabilities.supports_async_jobs,
        m.capabilities.supports_remote_cancel,
    ) is Some {
        let e = capability_evidence_problem(
            m.capabilities.evidence,
            m.capabilities.supports_async_jobs,
            m.capabilities.supports_remote_cancel,
        )->Some_0;
        Some(configuration_error(e.0, e.1))
    } else if c.replay_safety != m.capabilities.replay_safety {
        Some(replay_mismatch())
    } else {
        None
    }
}

/// Checks everything a configurable minutes provider needs before it is built.
pub fn validate_minutes_profile(config: &ProviderHttpConfig, mapping: &MinutesHttpMapping) -> (r: Result<
    (),
    ProviderError,
>)
    ensures
        match minutes_profile_error(*config, *mapping) {
            Some(e) => r is Err && r->Err_0@ == e,
            None => r is Ok,
        },
{
    config.validate()?;
    mapping.validate()?;
    super::mapping::validate_http_capability_evidence(
        mapping.capabilities.evidence,
        mapping.capabilities.supports_async_jobs,
        mapping.capabilities.supports_remote_cancel,
    )?;
    if config.replay_safety != mapping.capabilities.replay_safety {
        return Err(
            ProviderError::configuration("inconsistent_replay_safety", "Provider 能力与 HTTP 重放策略不一致"),
        );
    }
    Ok(())
}

} // verus!
