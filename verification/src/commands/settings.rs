//! Provider settings: trusted resolution of saved input against presets, migration of
//! stored public configuration, endpoint rules, and connection-probe classification.

use vstd::prelude::*;

use super::{command_error, CommandError, CommandErrorV};
use crate::config::{
    binding_of, credential_binding_id, evaluate_provider_readiness, infer_preset_id,
    inferred_preset, readiness_of, ALIYUN_BAILIAN_ENDPOINT, DASHSCOPE_FUNASR_CN_ENDPOINT,
    DASHSCOPE_FUNASR_INTL_ENDPOINT, DEEPSEEK_ENDPOINT, LOCAL_FUNASR_DEFAULT_TIMEOUT_MS,
    LOCAL_FUNASR_ENDPOINT, LOCAL_FUNASR_MAX_TIMEOUT_MS, LOCAL_FUNASR_MODEL, PRESET_ALIYUN_BAILIAN,
    PRESET_CUSTOM_OPENAI, PRESET_DASHSCOPE_FUNASR_CN, PRESET_DASHSCOPE_FUNASR_INTL,
    PRESET_DEEPSEEK, PRESET_LOCAL_FUNASR, PRESET_MOCK, PRESET_VOLCENGINE_ASR_FLASH,
    PRESET_XIAOMI_MIMO_ASR, PRESET_XIAOMI_MIMO_LLM, VOLCENGINE_ASR_FLASH_ENDPOINT,
    XIAOMI_MIMO_ASR_ENDPOINT, XIAOMI_MIMO_LLM_ENDPOINT,
};
use crate::domain::{ProviderConfigV, ProviderReadiness, PublicProviderConfig, PublicSettings};
use crate::endpoint::{summarize_url, url_summary};
use crate::text::{chars_of, copy_str, is_blank, starts_with, starts_with_chars, str_eq, str_is_blank, trim, trim_str};

verus! {

/// The service a settings operation targets; presets are not interchangeable.
#[derive(Debug, Clone, Copy, PartialEq, Eq, Structural)]
pub enum ProviderTarget {
    Transcription,
    Minutes,
}

/// The credential slot of a service.
#[derive(Debug, Clone, Copy, PartialEq, Eq, Structural)]
pub enum SecretKind {
    Transcription,
    Minutes,
}

/// The settings input of one provider; the key only goes to the credential store.
pub struct ProviderSettingsInput {
    pub preset_id: String,
    pub kind: String,
    pub endpoint: String,
    pub model: String,
    pub local_model_path: Option<String>,
    pub api_key: Option<String>,
    pub connect_timeout_ms: u64,
    pub request_timeout_ms: u64,
    pub max_retries: u32,
}

/// The settings input of both providers.
pub struct SaveProviderSettingsInput {
    pub transcription: ProviderSettingsInput,
    pub minutes: ProviderSettingsInput,
}

/// The outcome of a connection check, without any response body.
pub struct ProviderConnectionResult {
    pub ok: bool,
    pub safe_message: String,
}

/// The view of a settings input.
pub struct SettingsInputV {
    pub preset_id: Seq<char>,
    pub kind: Seq<char>,
    pub endpoint: Seq<char>,
    pub model: Seq<char>,
    pub local_model_path: Option<Seq<char>>,
    pub api_key: Option<Seq<char>>,
    pub connect_timeout_ms: u64,
    pub request_timeout_ms: u64,
    pub max_retries: u32,
}

impl View for ProviderSettingsInput {
    type V = SettingsInputV;

    open spec fn view(&self) -> SettingsInputV {
        SettingsInputV {
            preset_id: self.preset_id@,
            kind: self.kind@,
            endpoint: self.endpoint@,
            model: self.model@,
            local_model_path: crate::config::opt_text(self.local_model_path),
            api_key: crate::config::opt_text(self.api_key),
            connect_timeout_ms: self.connect_timeout_ms,
            request_timeout_ms: self.request_timeout_ms,
            max_retries: self.max_retries,
        }
    }
}

/// A `settings_invalid` error with the given message.
pub open spec fn settings_invalid(message: Seq<char>) -> CommandErrorV {
    command_error("settings_invalid"@, message, false)
}

/// Whether the input carries a new non-blank key.
pub open spec fn new_secret(i: SettingsInputV) -> bool {
    match i.api_key {
        Some(k) => !is_blank(k),
        None => false,
    }
}

/// Whether the input carries a new non-blank key (its value is never read otherwise).
pub fn has_new_secret(input: &ProviderSettingsInput) -> (r: bool)
    ensures
        r == new_secret(input@),
{
    match &input.api_key {
        Some(k) => !str_is_blank(k.as_str()),
        None => false,
    }
}

/// Whether timeouts and retries are inside their allowed ranges; the local engine
/// allows long request timeouts.
pub open spec fn limits_ok(i: SettingsInputV) -> bool {
    let max_request = if i.preset_id == PRESET_LOCAL_FUNASR@ || i.kind == "local_funasr"@ {
        LOCAL_FUNASR_MAX_TIMEOUT_MS
    } else {
        600000
    };
    1000 <= i.connect_timeout_ms <= 60000 && 5000 <= i.request_timeout_ms <= max_request
        && i.max_retries <= 5
}

/// Checks timeout and retry ranges so that odd values cannot bypass the interface.
pub fn validate_limits(input: &ProviderSettingsInput) -> (r: Result<(), CommandError>)
    ensures
        limits_ok(input@) <==> r is Ok,
        r matches Err(e) ==> e@ == settings_invalid("连接超时、请求超时或重试次数超出允许范围"@),
{
    let max_request = if str_eq(input.preset_id.as_str(), PRESET_LOCAL_FUNASR) || str_eq(
        input.kind.as_str(),
        "local_funasr",
    ) {
        LOCAL_FUNASR_MAX_TIMEOUT_MS
    } else {
        600000
    };
    if !(1000 <= input.connect_timeout_ms && input.connect_timeout_ms <= 60000) || !(5000
        <= input.request_timeout_ms && input.request_timeout_ms <= max_request)
        || input.max_retries > 5 {
        return Err(
            CommandError::new("settings_invalid", "连接超时、请求超时或重试次数超出允许范围", false),
        );
    }
    Ok(())
}

/// The preset of an input: the trimmed given one, or for old inputs without it the
/// one inferred from the exact endpoint.
pub open spec fn effective_preset(i: SettingsInputV) -> Seq<char> {
    if !is_blank(i.preset_id) {
        trim(i.preset_id)
    } else {
        inferred_preset(i.endpoint, i.model, PRESET_CUSTOM_OPENAI@)
    }
}

/// The preset of an input, inferring it for old inputs that do not name one.
pub fn effective_preset_id(input: &ProviderSettingsInput) -> (r: String)
    ensures
        r@ == effective_preset(input@),
{
    if !str_is_blank(input.preset_id.as_str()) {
        return trim_str(input.preset_id.as_str());
    }
    crate::config::infer_preset_from_endpoint(
        input.endpoint.as_str(),
        input.model.as_str(),
        PRESET_CUSTOM_OPENAI,
    )
}

/// Whether a preset may serve the target: the local engine transcribes; DeepSeek,
/// MiMo, Bailian and custom OpenAI-compatible services write minutes.
pub open spec fn preset_allowed(preset: Seq<char>, target: ProviderTarget) -> bool {
    ||| (preset == PRESET_LOCAL_FUNASR@ && target == ProviderTarget::Transcription)
    ||| (preset == PRESET_DEEPSEEK@ && target == ProviderTarget::Minutes)
    ||| (preset == PRESET_XIAOMI_MIMO_LLM@ && target == ProviderTarget::Minutes)
    ||| (preset == PRESET_ALIYUN_BAILIAN@ && target == ProviderTarget::Minutes)
    ||| (preset == PRESET_CUSTOM_OPENAI@ && target == ProviderTarget::Minutes)
}

/// Checks that the preset exists and may serve the target.
pub fn validate_preset_target(preset_id: &str, target: ProviderTarget) -> (r: Result<(), CommandError>)
    ensures
        preset_allowed(preset_id@, target) <==> r is Ok,
        r matches Err(e) ==> e@ == settings_invalid("Provider 预设与目标服务不兼容"@),
{
    let transcription = target == ProviderTarget::Transcription;
    let supported = (str_eq(preset_id, PRESET_LOCAL_FUNASR) && transcription) || (str_eq(
        preset_id,
        PRESET_DEEPSEEK,
    ) && !transcription) || (str_eq(preset_id, PRESET_XIAOMI_MIMO_LLM) && !transcription) || (
    str_eq(preset_id, PRESET_ALIYUN_BAILIAN) && !transcription) || (str_eq(
        preset_id,
        PRESET_CUSTOM_OPENAI,
    ) && !transcription);
    if supported {
        Ok(())
    } else {
        Err(CommandError::new("settings_invalid", "Provider 预设与目标服务不兼容", false))
    }
}

/// The model of a managed preset: the default when blank, else one of the allowed
/// models (trimmed).
pub open spec fn managed_model_of(value: Seq<char>, allowed: Seq<Seq<char>>, fallback: Seq<char>) -> Result<
    Seq<char>,
    CommandErrorV,
> {
    let m = trim(value);
    if m.len() == 0 {
        Ok(fallback)
    } else if allowed.contains(m) {
        Ok(m)
    } else {
        Err(settings_invalid("所选模型不属于当前 Provider 预设"@))
    }
}

/// Checks a managed preset's model against its allow-list; blank means the default.
pub fn managed_model(value: &str, allowed: &[&'static str], fallback: &'static str) -> (r: Result<
    String,
    CommandError,
>)
    ensures
        match managed_model_of(value@, allowed@.map_values(|s: &'static str| s@), fallback@) {
            Ok(m) => r is Ok && r->Ok_0@ == m,
            Err(e) => r is Err && r->Err_0@ == e,
        },
{
    let ghost av = allowed@.map_values(|s: &'static str| s@);
    let model = trim_str(value);
    if model.as_str().unicode_len() == 0 {
        return Ok(copy_str(fallback));
    }
    let mut i: usize = 0;
    while i < allowed.len()
        invariant
            0 <= i <= allowed@.len(),
            av == allowed@.map_values(|s: &'static str| s@),
            forall|k: int| 0 <= k < i ==> #[trigger] av[k] != model@,
            model@ == trim(value@),
            model@.len() > 0,
        decreases allowed@.len() - i,
    {
        if str_eq(allowed[i], model.as_str()) {
            proof {
                assert(av[i as int] == model@);
            }
            return Ok(model);
        }
        i = i + 1;
    }
    Err(CommandError::new("settings_invalid", "所选模型不属于当前 Provider 预设", false))
}

/// The message of an unacceptable endpoint, if any: it must parse, carry no
/// credentials, query or fragment, and use HTTPS unless it is a loopback HTTP service.
pub open spec fn endpoint_problem(value: Seq<char>) -> Option<Seq<char>> {
    match url_summary(trim(value)) {
        None => Some("API 地址格式无效"@),
        Some(p) => if p.2 || p.3 {
            Some("API 地址不得包含凭据、查询参数或片段"@)
        } else {
            let localhost = match p.1 {
                Some(h) => h == "127.0.0.1"@ || h == "localhost"@ || h == "::1"@,
                None => false,
            };
            if p.0 != "https"@ && !(p.0 == "http"@ && localhost) {
                Some("API 地址必须使用 HTTPS；仅本机回环服务可使用 HTTP"@)
            } else {
                None
            }
        },
    }
}

/// Accepts only HTTPS endpoints, and plain HTTP only for loopback development services.
pub fn validate_endpoint(value: &str) -> (r: Result<(), CommandError>)
    ensures
        match endpoint_problem(value@) {
            Some(m) => r is Err && r->Err_0@ == settings_invalid(m),
            None => r is Ok,
        },
{
    let t = trim_str(value);
    let parts = match summarize_url(t.as_str()) {
        Some(p) => (p.1, p.2, p.3, p.4),
        None => {
            return Err(CommandError::new("settings_invalid", "API 地址格式无效", false));
        },
    };
    if parts.2 || parts.3 {
        return Err(CommandError::new("settings_invalid", "API 地址不得包含凭据、查询参数或片段", false));
    }
    let localhost = match &parts.1 {
        Some(h) => str_eq(h.as_str(), "127.0.0.1") || str_eq(h.as_str(), "localhost") || str_eq(
            h.as_str(),
            "::1",
        ),
        None => false,
    };
    if !str_eq(parts.0.as_str(), "https") && !(str_eq(parts.0.as_str(), "http") && localhost) {
        return Err(
            CommandError::new(
                "settings_invalid",
                "API 地址必须使用 HTTPS；仅本机回环服务可使用 HTTP",
                false,
            ),
        );
    }
    Ok(())
}

/// Maps the public name of a credential slot to the slot.
pub fn parse_secret_kind(value: &str) -> (r: Result<SecretKind, CommandError>)
    ensures
        value@ == "transcription"@ ==> r == Ok::<SecretKind, CommandError>(SecretKind::Transcription),
        value@ != "transcription"@ && value@ == "minutes"@ ==> r == Ok::<SecretKind, CommandError>(
            SecretKind::Minutes,
        ),
        value@ != "transcription"@ && value@ != "minutes"@ ==> r is Err && r->Err_0@
            == settings_invalid("秘密类型无效"@),
{
    if str_eq(value, "transcription") {
        Ok(SecretKind::Transcription)
    } else if str_eq(value, "minutes") {
        Ok(SecretKind::Minutes)
    } else {
        Err(CommandError::new("settings_invalid", "秘密类型无效", false))
    }
}

/// Whether a connection probe's HTTP status shows a reachable service, and its message;
/// only the status is used, never the response body.
pub open spec fn probe_outcome(status: u16) -> (bool, Seq<char>) {
    if (200 <= status && status <= 299) || status == 405 {
        (true, "服务地址可达；本测试不发送音频或提示词，密钥、模型和业务字段将在实际处理时进一步验证"@)
    } else if status == 401 || status == 403 {
        (false, "服务可达，但 API Key 未通过认证"@)
    } else if status == 404 {
        (false, "服务可达，但接口路径不存在，请检查服务地址"@)
    } else if status == 429 {
        (false, "服务可达，但当前触发限流，请稍后重试"@)
    } else if 500 <= status && status <= 599 {
        (false, "服务可达，但服务端暂时不可用"@)
    } else if 300 <= status && status <= 399 {
        (false, "服务返回重定向，出于安全原因未继续访问"@)
    } else {
        (false, "服务已响应，但当前状态无法确认配置有效"@)
    }
}

/// Classifies reachability by the HTTP status alone.
pub fn classify_probe_status(status: u16) -> (r: ProviderConnectionResult)
    ensures
        (r.ok, r.safe_message@) == probe_outcome(status),
{
    let (ok, msg) = if (200 <= status && status <= 299) || status == 405 {
        (true, "服务地址可达；本测试不发送音频或提示词，密钥、模型和业务字段将在实际处理时进一步验证")
    } else if status == 401 || status == 403 {
        (false, "服务可达，但 API Key 未通过认证")
    } else if status == 404 {
        (false, "服务可达，但接口路径不存在，请检查服务地址")
    } else if status == 429 {
        (false, "服务可达，但当前触发限流，请稍后重试")
    } else if 500 <= status && status <= 599 {
        (false, "服务可达，但服务端暂时不可用")
    } else if 300 <= status && status <= 399 {
        (false, "服务返回重定向，出于安全原因未继续访问")
    } else {
        (false, "服务已响应，但当前状态无法确认配置有效")
    };
    ProviderConnectionResult { ok, safe_message: copy_str(msg) }
}

/// The managed kind, endpoint and model of a preset allowed for its target, or why the
/// input is refused.
pub open spec fn preset_fields(preset: Seq<char>, i: SettingsInputV) -> Result<
    (Seq<char>, Seq<char>, Seq<char>),
    CommandErrorV,
> {
    if preset == PRESET_LOCAL_FUNASR@ {
        match managed_model_of(i.model, seq![LOCAL_FUNASR_MODEL@], LOCAL_FUNASR_MODEL@) {
            Ok(m) => Ok(("local_funasr"@, LOCAL_FUNASR_ENDPOINT@, m)),
            Err(e) => Err(e),
        }
    } else if preset == PRESET_XIAOMI_MIMO_LLM@ {
        match managed_model_of(i.model, seq!["mimo-v2.5"@, "mimo-v2.5-pro"@], "mimo-v2.5"@) {
            Ok(m) => Ok(("openai_compatible"@, XIAOMI_MIMO_LLM_ENDPOINT@, m)),
            Err(e) => Err(e),
        }
    } else if preset == PRESET_DEEPSEEK@ {
        match managed_model_of(
            i.model,
            seq!["deepseek-v4-flash"@, "deepseek-v4-pro"@],
            "deepseek-v4-flash"@,
        ) {
            Ok(m) => Ok(("openai_compatible"@, DEEPSEEK_ENDPOINT@, m)),
            Err(e) => Err(e),
        }
    } else if preset == PRESET_ALIYUN_BAILIAN@ {
        match managed_model_of(i.model, seq!["qwen-plus"@, "qwen-flash"@, "qwen-max"@], "qwen-plus"@) {
            Ok(m) => Ok(("openai_compatible"@, ALIYUN_BAILIAN_ENDPOINT@, m)),
            Err(e) => Err(e),
        }
    } else {
        match endpoint_problem(i.endpoint) {
            Some(msg) => Err(settings_invalid(msg)),
            None => if trim(i.model).len() == 0 {
                Err(settings_invalid("自定义 Provider 必须配置模型名"@))
            } else {
                Ok(("openai_compatible"@, trim(i.endpoint), trim(i.model)))
            },
        }
    }
}

/// What the caller found of a local model directory: whether the platform reads the
/// trimmed path as absolute, and the first problem of its files, if any.
pub struct LocalModelDirectoryFacts {
    pub is_absolute: bool,
    pub problem: Option<String>,
}

/// The local model directory to save: empty when none was chosen; otherwise the trimmed
/// path, unless it is not an absolute local path (relative, or a `\\\\` or `//` network
/// path) or its files have a problem.
pub open spec fn local_model_path_outcome(
    path: Option<Seq<char>>,
    is_absolute: bool,
    problem: Option<Seq<char>>,
) -> Result<Seq<char>, CommandErrorV> {
    let t = match path {
        Some(p) => trim(p),
        None => seq![],
    };
    if t.len() == 0 {
        Ok(t)
    } else if !is_absolute || starts_with(t, seq!['\\', '\\']) || starts_with(t, seq!['/', '/']) {
        Err(command_error("local_model_path_invalid"@, "请选择本机磁盘上的 SenseVoiceSmall 模型目录"@, false))
    } else {
        match problem {
            Some(m) => Err(command_error("local_model_path_invalid"@, m, false)),
            None => Ok(t),
        }
    }
}

/// Checks a chosen local model directory against what was found of it.
pub fn validate_local_model_path(value: Option<&str>, facts: &LocalModelDirectoryFacts) -> (r: Result<
    String,
    CommandError,
>)
    ensures
        match local_model_path_outcome(
            match value {
                Some(v) => Some(v@),
                None => None,
            },
            facts.is_absolute,
            crate::config::opt_text(facts.problem),
        ) {
            Ok(t) => r is Ok && r->Ok_0@ == t,
            Err(e) => r is Err && r->Err_0@ == e,
        },
{
    let t = match value {
        Some(v) => trim_str(v),
        None => String::new(),
    };
    proof {
        reveal_strlit("");
    }
    if t.as_str().unicode_len() == 0 {
        return Ok(t);
    }
    let v = chars_of(t.as_str());
    let unc: [char; 2] = ['\\', '\\'];
    let slashes: [char; 2] = ['/', '/'];
    proof {
        assert(unc@ =~= seq!['\\', '\\']);
        assert(slashes@ =~= seq!['/', '/']);
    }
    if !facts.is_absolute || starts_with_chars(v.as_slice(), unc.as_slice()) || starts_with_chars(
        v.as_slice(),
        slashes.as_slice(),
    ) {
        return Err(CommandError::new("local_model_path_invalid", "请选择本机磁盘上的 SenseVoiceSmall 模型目录", false));
    }
    match &facts.problem {
        Some(m) => Err(CommandError::new("local_model_path_invalid", m.as_str(), false)),
        None => Ok(t),
    }
}

/// The resolved public configuration of a settings input, or the first error: limits,
/// then the preset and its target, then the preset's managed fields. Managed presets
/// ignore the submitted kind and endpoint; a credential binding is kept only when it
/// matches the resolved provider.
pub open spec fn resolved_provider(
    i: SettingsInputV,
    target: ProviderTarget,
    previous_credential: Option<Seq<char>>,
    secret_exists_after_save: bool,
    dir_absolute: bool,
    dir_problem: Option<Seq<char>>,
) -> Result<ProviderConfigV, CommandErrorV> {
    if !limits_ok(i) {
        Err(settings_invalid("连接超时、请求超时或重试次数超出允许范围"@))
    } else {
        let preset = effective_preset(i);
        if !preset_allowed(preset, target) {
            Err(settings_invalid("Provider 预设与目标服务不兼容"@))
        } else {
            match preset_fields(preset, i) {
                Err(e) => Err(e),
                Ok(f) => match (if preset == PRESET_LOCAL_FUNASR@ {
                    local_model_path_outcome(i.local_model_path, dir_absolute, dir_problem)
                } else {
                    Ok(seq![])
                }) {
                Err(e) => Err(e),
                Ok(local_path) => {
                    let binding = binding_of(preset, f.1);
                    let credential = if preset == PRESET_LOCAL_FUNASR@ {
                        None
                    } else if new_secret(i) {
                        Some(binding)
                    } else {
                        previous_credential
                    };
                    Ok(
                        readiness_of(
                            ProviderConfigV {
                                preset_id: preset,
                                kind: f.0,
                                endpoint: f.1,
                                model: f.2,
                                local_model_path: local_path,
                                credential_preset_id: credential,
                                secret_configured: secret_exists_after_save && credential == Some(
                                    binding,
                                ),
                                connect_timeout_ms: i.connect_timeout_ms,
                                request_timeout_ms: i.request_timeout_ms,
                                max_retries: i.max_retries,
                                ready: false,
                                readiness: ProviderReadiness::Incomplete,
                                validation_message: seq![],
                            },
                        ),
                    )
                },
                },
            }
        }
    }
}

/// Resolves a saved input against its preset and target; managed addresses and kinds
/// never come from the submitted fields. A local model directory is checked against
/// what the caller found of it on disk.
pub fn resolve_provider(
    input: &ProviderSettingsInput,
    target: ProviderTarget,
    previous_credential_preset_id: Option<String>,
    secret_exists_after_save: bool,
    local_directory: &LocalModelDirectoryFacts,
) -> (r: Result<PublicProviderConfig, CommandError>)
    ensures
        match resolved_provider(
            input@,
            target,
            crate::config::opt_text(previous_credential_preset_id),
            secret_exists_after_save,
            local_directory.is_absolute,
            crate::config::opt_text(local_directory.problem),
        ) {
            Ok(p) => r is Ok && r->Ok_0@ == p,
            Err(e) => r is Err && r->Err_0@ == e,
        },
{
    validate_limits(input)?;
    let preset_id = effective_preset_id(input);
    validate_preset_target(preset_id.as_str(), target)?;
    let p = preset_id.as_str();
    let fields: (String, String, String) = if str_eq(p, PRESET_LOCAL_FUNASR) {
        let allowed: [&'static str; 1] = [LOCAL_FUNASR_MODEL];
        proof {
            assert(allowed@.map_values(|s: &'static str| s@) =~= seq![LOCAL_FUNASR_MODEL@]);
        }
        let m = managed_model(input.model.as_str(), allowed.as_slice(), LOCAL_FUNASR_MODEL)?;
        (copy_str("local_funasr"), copy_str(LOCAL_FUNASR_ENDPOINT), m)
    } else if str_eq(p, PRESET_XIAOMI_MIMO_LLM) {
        let allowed: [&'static str; 2] = ["mimo-v2.5", "mimo-v2.5-pro"];
        proof {
            assert(allowed@.map_values(|s: &'static str| s@) =~= seq!["mimo-v2.5"@, "mimo-v2.5-pro"@]);
        }
        let m = managed_model(input.model.as_str(), allowed.as_slice(), "mimo-v2.5")?;
        (copy_str("openai_compatible"), copy_str(XIAOMI_MIMO_LLM_ENDPOINT), m)
    } else if str_eq(p, PRESET_DEEPSEEK) {
        let allowed: [&'static str; 2] = ["deepseek-v4-flash", "deepseek-v4-pro"];
        proof {
            assert(allowed@.map_values(|s: &'static str| s@) =~= seq![
                "deepseek-v4-flash"@,
                "deepseek-v4-pro"@,
            ]);
        }
        let m = managed_model(input.model.as_str(), allowed.as_slice(), "deepseek-v4-flash")?;
        (copy_str("openai_compatible"), copy_str(DEEPSEEK_ENDPOINT), m)
    } else if str_eq(p, PRESET_ALIYUN_BAILIAN) {
        let allowed: [&'static str; 3] = ["qwen-plus", "qwen-flash", "qwen-max"];
        proof {
            assert(allowed@.map_values(|s: &'static str| s@) =~= seq![
                "qwen-plus"@,
                "qwen-flash"@,
                "qwen-max"@,
            ]);
        }
        let m = managed_model(input.model.as_str(), allowed.as_slice(), "qwen-plus")?;
        (copy_str("openai_compatible"), copy_str(ALIYUN_BAILIAN_ENDPOINT), m)
    } else {
        validate_endpoint(input.endpoint.as_str())?;
        let model = trim_str(input.model.as_str());
        if model.as_str().unicode_len() == 0 {
            return Err(CommandError::new("settings_invalid", "自定义 Provider 必须配置模型名", false));
        }
        (copy_str("openai_compatible"), trim_str(input.endpoint.as_str()), model)
    };
    let is_local = str_eq(p, PRESET_LOCAL_FUNASR);
    let local_model_path = if is_local {
        match &input.local_model_path {
            Some(path) => validate_local_model_path(Some(path.as_str()), local_directory)?,
            None => validate_local_model_path(None, local_directory)?,
        }
    } else {
        String::new()
    };
    let mut provider = PublicProviderConfig {
        preset_id: copy_str(p),
        kind: fields.0,
        endpoint: fields.1,
        model: fields.2,
        local_model_path,
        credential_preset_id: None,
        secret_configured: false,
        connect_timeout_ms: input.connect_timeout_ms,
        request_timeout_ms: input.request_timeout_ms,
        max_retries: input.max_retries,
        ready: false,
        readiness: ProviderReadiness::Incomplete,
        validation_message: String::new(),
    };
    let expected_binding = credential_binding_id(&provider);
    provider.credential_preset_id = if is_local {
        None
    } else if has_new_secret(input) {
        Some(copy_str(expected_binding.as_str()))
    } else {
        previous_credential_preset_id
    };
    let matches = match &provider.credential_preset_id {
        Some(c) => str_eq(c.as_str(), expected_binding.as_str()),
        None => false,
    };
    provider.secret_configured = secret_exists_after_save && matches;
    proof {
        reveal_strlit("");
    }
    Ok(evaluate_provider_readiness(provider))
}

/// The provider with a managed preset's fixed fields restored for its target; an
/// unknown preset or one for the other service is marked invalid and emptied.
pub open spec fn canonical_provider(p: ProviderConfigV, target: ProviderTarget) -> ProviderConfigV {
    let t = target == ProviderTarget::Transcription;
    let pr = p.preset_id;
    if pr == PRESET_LOCAL_FUNASR@ && t {
        ProviderConfigV {
            kind: "local_funasr"@,
            endpoint: LOCAL_FUNASR_ENDPOINT@,
            model: LOCAL_FUNASR_MODEL@,
            credential_preset_id: None,
            secret_configured: false,
            ..p
        }
    } else if pr == PRESET_DASHSCOPE_FUNASR_CN@ && t {
        ProviderConfigV {
            kind: "dashscope_funasr"@,
            endpoint: DASHSCOPE_FUNASR_CN_ENDPOINT@,
            model: if p.model == "fun-asr"@ || p.model == "fun-asr-mtl"@ {
                p.model
            } else {
                "fun-asr"@
            },
            ..p
        }
    } else if pr == PRESET_DASHSCOPE_FUNASR_INTL@ && t {
        ProviderConfigV {
            kind: "dashscope_funasr"@,
            endpoint: DASHSCOPE_FUNASR_INTL_ENDPOINT@,
            model: if p.model == "fun-asr"@ || p.model == "fun-asr-mtl"@ {
                p.model
            } else {
                "fun-asr"@
            },
            ..p
        }
    } else if pr == PRESET_XIAOMI_MIMO_ASR@ && t {
        ProviderConfigV {
            kind: "xiaomi_mimo"@,
            endpoint: XIAOMI_MIMO_ASR_ENDPOINT@,
            model: "mimo-v2.5-asr"@,
            ..p
        }
    } else if pr == PRESET_VOLCENGINE_ASR_FLASH@ && t {
        ProviderConfigV {
            kind: "volcengine_asr"@,
            endpoint: VOLCENGINE_ASR_FLASH_ENDPOINT@,
            model: "bigmodel"@,
            ..p
        }
    } else if pr == PRESET_XIAOMI_MIMO_LLM@ && !t {
        ProviderConfigV {
            kind: "openai_compatible"@,
            endpoint: XIAOMI_MIMO_LLM_ENDPOINT@,
            model: if p.model == "mimo-v2.5"@ || p.model == "mimo-v2.5-pro"@ {
                p.model
            } else {
                "mimo-v2.5"@
            },
            ..p
        }
    } else if pr == PRESET_DEEPSEEK@ && !t {
        ProviderConfigV {
            kind: "openai_compatible"@,
            endpoint: DEEPSEEK_ENDPOINT@,
            model: if p.model == "deepseek-v4-flash"@ || p.model == "deepseek-v4-pro"@ {
                p.model
            } else {
                "deepseek-v4-flash"@
            },
            ..p
        }
    } else if pr == PRESET_ALIYUN_BAILIAN@ && !t {
        ProviderConfigV {
            kind: "openai_compatible"@,
            endpoint: ALIYUN_BAILIAN_ENDPOINT@,
            model: if p.model == "qwen-plus"@ || p.model == "qwen-flash"@ || p.model == "qwen-max"@ {
                p.model
            } else {
                "qwen-plus"@
            },
            ..p
        }
    } else if pr == PRESET_CUSTOM_OPENAI@ && !t {
        ProviderConfigV { kind: "openai_compatible"@, ..p }
    } else {
        ProviderConfigV { kind: "invalid"@, endpoint: seq![], model: seq![], ..p }
    }
}

/// Restores a managed preset's fixed fields so that old or edited settings cannot move
/// a provider to another address.
pub fn canonicalize_managed_provider(provider: &mut PublicProviderConfig, target: ProviderTarget)
    ensures
        final(provider)@ == canonical_provider(old(provider)@, target),
{
    let t = target == ProviderTarget::Transcription;
    let ghost before = provider@;
    if str_eq(provider.preset_id.as_str(), PRESET_LOCAL_FUNASR) && t {
        provider.kind = copy_str("local_funasr");
        provider.endpoint = copy_str(LOCAL_FUNASR_ENDPOINT);
        provider.model = copy_str(LOCAL_FUNASR_MODEL);
        provider.credential_preset_id = None;
        provider.secret_configured = false;
    } else if str_eq(provider.preset_id.as_str(), PRESET_DASHSCOPE_FUNASR_CN) && t {
        provider.kind = copy_str("dashscope_funasr");
        provider.endpoint = copy_str(DASHSCOPE_FUNASR_CN_ENDPOINT);
        if !(str_eq(provider.model.as_str(), "fun-asr") || str_eq(provider.model.as_str(), "fun-asr-mtl")) {
            provider.model = copy_str("fun-asr");
        }
    } else if str_eq(provider.preset_id.as_str(), PRESET_DASHSCOPE_FUNASR_INTL) && t {
        provider.kind = copy_str("dashscope_funasr");
        provider.endpoint = copy_str(DASHSCOPE_FUNASR_INTL_ENDPOINT);
        if !(str_eq(provider.model.as_str(), "fun-asr") || str_eq(provider.model.as_str(), "fun-asr-mtl")) {
            provider.model = copy_str("fun-asr");
        }
    } else if str_eq(provider.preset_id.as_str(), PRESET_XIAOMI_MIMO_ASR) && t {
        provider.kind = copy_str("xiaomi_mimo");
        provider.endpoint = copy_str(XIAOMI_MIMO_ASR_ENDPOINT);
        provider.model = copy_str("mimo-v2.5-asr");
    } else if str_eq(provider.preset_id.as_str(), PRESET_VOLCENGINE_ASR_FLASH) && t {
        provider.kind = copy_str("volcengine_asr");
        provider.endpoint = copy_str(VOLCENGINE_ASR_FLASH_ENDPOINT);
        provider.model = copy_str("bigmodel");
    } else if str_eq(provider.preset_id.as_str(), PRESET_XIAOMI_MIMO_LLM) && !t {
        provider.kind = copy_str("openai_compatible");
        provider.endpoint = copy_str(XIAOMI_MIMO_LLM_ENDPOINT);
        if !(str_eq(provider.model.as_str(), "mimo-v2.5") || str_eq(provider.model.as_str(), "mimo-v2.5-pro")) {
            provider.model = copy_str("mimo-v2.5");
        }
    } else if str_eq(provider.preset_id.as_str(), PRESET_DEEPSEEK) && !t {
        provider.kind = copy_str("openai_compatible");
        provider.endpoint = copy_str(DEEPSEEK_ENDPOINT);
        if !(str_eq(provider.model.as_str(), "deepseek-v4-flash") || str_eq(
            provider.model.as_str(),
            "deepseek-v4-pro",
        )) {
            provider.model = copy_str("deepseek-v4-flash");
        }
    } else if str_eq(provider.preset_id.as_str(), PRESET_ALIYUN_BAILIAN) && !t {
        provider.kind = copy_str("openai_compatible");
        provider.endpoint = copy_str(ALIYUN_BAILIAN_ENDPOINT);
        if !(str_eq(provider.model.as_str(), "qwen-plus") || str_eq(provider.model.as_str(), "qwen-flash")
            || str_eq(provider.model.as_str(), "qwen-max")) {
            provider.model = copy_str("qwen-plus");
        }
    } else if str_eq(provider.preset_id.as_str(), PRESET_CUSTOM_OPENAI) && !t {
        provider.kind = copy_str("openai_compatible");
    } else {
        provider.kind = copy_str("invalid");
        provider.endpoint = String::new();
        provider.model = String::new();
    }
    proof {
        assert(provider@ =~= canonical_provider(before, target));
    }
}

/// A stored public provider moved to the preset model: transcription always becomes
/// the local engine; legacy demo settings become the default minutes preset without
/// their old binding; a missing preset is inferred; managed fields are restored; and
/// the binding is renewed only when it named this preset or, without a binding, a
/// legacy secret exists. The secret flag is always recomputed later.
pub open spec fn migrated_provider(
    p: ProviderConfigV,
    target: ProviderTarget,
    legacy_secret_exists: bool,
) -> ProviderConfigV {
    if target == ProviderTarget::Transcription {
        ProviderConfigV {
            preset_id: PRESET_LOCAL_FUNASR@,
            kind: "local_funasr"@,
            endpoint: LOCAL_FUNASR_ENDPOINT@,
            model: LOCAL_FUNASR_MODEL@,
            credential_preset_id: None,
            secret_configured: false,
            request_timeout_ms: if p.request_timeout_ms >= LOCAL_FUNASR_DEFAULT_TIMEOUT_MS {
                p.request_timeout_ms
            } else {
                LOCAL_FUNASR_DEFAULT_TIMEOUT_MS
            },
            max_retries: 0,
            ..p
        }
    } else {
        let was_mock = p.preset_id == PRESET_MOCK@ || p.kind == "mock"@;
        let p1 = if was_mock {
            ProviderConfigV {
                preset_id: PRESET_DEEPSEEK@,
                credential_preset_id: None,
                secret_configured: false,
                ..p
            }
        } else {
            p
        };
        let p2 = if is_blank(p1.preset_id) {
            ProviderConfigV {
                preset_id: inferred_preset(p1.endpoint, p1.model, PRESET_CUSTOM_OPENAI@),
                ..p1
            }
        } else {
            p1
        };
        let stored = p2.credential_preset_id;
        let p3 = canonical_provider(p2, target);
        let expected = binding_of(p3.preset_id, p3.endpoint);
        ProviderConfigV {
            credential_preset_id: if stored == Some(p3.preset_id) || (!was_mock && stored is None
                && legacy_secret_exists) {
                Some(expected)
            } else {
                p3.credential_preset_id
            },
            secret_configured: false,
            ..p3
        }
    }
}

/// Migrates a stored public provider to the preset model.
pub fn migrate_public_provider(
    provider: PublicProviderConfig,
    target: ProviderTarget,
    legacy_secret_exists: bool,
) -> (r: PublicProviderConfig)
    ensures
        r@ == migrated_provider(provider@, target, legacy_secret_exists),
{
    let ghost pv = provider@;
    let mut provider = provider;
    if target == ProviderTarget::Transcription {
        provider.preset_id = copy_str(PRESET_LOCAL_FUNASR);
        provider.kind = copy_str("local_funasr");
        provider.endpoint = copy_str(LOCAL_FUNASR_ENDPOINT);
        provider.model = copy_str(LOCAL_FUNASR_MODEL);
        provider.credential_preset_id = None;
        provider.secret_configured = false;
        if provider.request_timeout_ms < LOCAL_FUNASR_DEFAULT_TIMEOUT_MS {
            provider.request_timeout_ms = LOCAL_FUNASR_DEFAULT_TIMEOUT_MS;
        }
        provider.max_retries = 0;
        proof {
            assert(provider@ =~= migrated_provider(pv, target, legacy_secret_exists));
        }
        return provider;
    }
    let was_mock = str_eq(provider.preset_id.as_str(), PRESET_MOCK) || str_eq(
        provider.kind.as_str(),
        "mock",
    );
    if was_mock {
        provider.preset_id = copy_str(PRESET_DEEPSEEK);
        provider.credential_preset_id = None;
        provider.secret_configured = false;
    }
    if str_is_blank(provider.preset_id.as_str()) {
        provider.preset_id = infer_preset_id(&provider);
    }
    let stored = match &provider.credential_preset_id {
        Some(s) => Some(copy_str(s.as_str())),
        None => None,
    };
    canonicalize_managed_provider(&mut provider, target);
    let expected = credential_binding_id(&provider);
    let stored_is_preset = match &stored {
        Some(s) => str_eq(s.as_str(), provider.preset_id.as_str()),
        None => false,
    };
    if stored_is_preset || (!was_mock && stored.is_none() && legacy_secret_exists) {
        provider.credential_preset_id = Some(expected);
    }
    provider.secret_configured = false;
    proof {
        assert(provider@ =~= migrated_provider(pv, target, legacy_secret_exists));
    }
    provider
}

/// Whether a preset is a managed preset of a target's service.
pub open spec fn managed_pair(preset: Seq<char>, target: ProviderTarget) -> bool {
    if target == ProviderTarget::Transcription {
        preset == PRESET_LOCAL_FUNASR@ || preset == PRESET_DASHSCOPE_FUNASR_CN@ || preset
            == PRESET_DASHSCOPE_FUNASR_INTL@ || preset == PRESET_XIAOMI_MIMO_ASR@ || preset
            == PRESET_VOLCENGINE_ASR_FLASH@
    } else {
        preset == PRESET_XIAOMI_MIMO_LLM@ || preset == PRESET_DEEPSEEK@ || preset == PRESET_ALIYUN_BAILIAN@
            || preset == PRESET_CUSTOM_OPENAI@
    }
}

/// Restoring a stored provider's managed fields is stable and safe: a second pass
/// changes nothing; the preset, timeouts and retries are kept; a managed preset gets its
/// fixed endpoint; and a preset that is not one of the target's nine managed pairs is
/// marked invalid with its endpoint and model cleared.
pub proof fn law_canonical_provider_is_stable(p: ProviderConfigV, target: ProviderTarget)
    ensures
        ({
            let c = canonical_provider(p, target);
            &&& canonical_provider(c, target) == c
            &&& c.preset_id == p.preset_id && c.connect_timeout_ms == p.connect_timeout_ms
                && c.request_timeout_ms == p.request_timeout_ms && c.max_retries == p.max_retries
            &&& (!managed_pair(p.preset_id, target) ==> c.kind == "invalid"@ && c.endpoint.len() == 0
                && c.model.len() == 0)
            &&& (target == ProviderTarget::Minutes && p.preset_id == PRESET_DEEPSEEK@ ==> c.endpoint
                == DEEPSEEK_ENDPOINT@)
            &&& (target == ProviderTarget::Minutes && p.preset_id == PRESET_ALIYUN_BAILIAN@ ==> c.endpoint
                == ALIYUN_BAILIAN_ENDPOINT@)
            &&& (target == ProviderTarget::Minutes && p.preset_id == PRESET_XIAOMI_MIMO_LLM@ ==> c.endpoint
                == XIAOMI_MIMO_LLM_ENDPOINT@)
            &&& (target == ProviderTarget::Transcription && p.preset_id == PRESET_LOCAL_FUNASR@ ==> c.endpoint
                == LOCAL_FUNASR_ENDPOINT@)
            &&& (target == ProviderTarget::Transcription && p.preset_id == PRESET_VOLCENGINE_ASR_FLASH@
                ==> c.endpoint == VOLCENGINE_ASR_FLASH_ENDPOINT@)
        }),
{
    reveal_strlit("local_funasr");
    reveal_strlit("dashscope_funasr_cn");
    reveal_strlit("dashscope_funasr_intl");
    reveal_strlit("xiaomi_mimo_asr");
    reveal_strlit("volcengine_asr_flash");
    reveal_strlit("xiaomi_mimo_llm");
    reveal_strlit("deepseek");
    reveal_strlit("aliyun_bailian");
    reveal_strlit("custom_openai_compatible");
    assert(PRESET_DEEPSEEK@.len() == 8 && PRESET_ALIYUN_BAILIAN@.len() == 14 && PRESET_XIAOMI_MIMO_LLM@.len() == 15);
    assert(PRESET_CUSTOM_OPENAI@.len() == 24 && PRESET_LOCAL_FUNASR@.len() == 12);
    assert(PRESET_DASHSCOPE_FUNASR_CN@.len() == 19 && PRESET_DASHSCOPE_FUNASR_INTL@.len() == 21);
    assert(PRESET_XIAOMI_MIMO_ASR@.len() == 15 && PRESET_VOLCENGINE_ASR_FLASH@.len() == 20);
    assert(PRESET_XIAOMI_MIMO_ASR@[12] != PRESET_XIAOMI_MIMO_LLM@[12]);
}

/// A saved provider is never bound to a remote plain-HTTP custom endpoint, and a
/// managed preset always keeps its fixed endpoint, whatever endpoint was submitted.
pub proof fn law_resolved_endpoints_are_trusted(
    i: SettingsInputV,
    target: ProviderTarget,
    previous_credential: Option<Seq<char>>,
    secret_exists_after_save: bool,
    dir_absolute: bool,
    dir_problem: Option<Seq<char>>,
)
    requires
        resolved_provider(i, target, previous_credential, secret_exists_after_save, dir_absolute, dir_problem) is Ok,
    ensures
        ({
            let p = resolved_provider(i, target, previous_credential, secret_exists_after_save, dir_absolute, dir_problem)->Ok_0;
            &&& preset_allowed(p.preset_id, target)
            &&& (p.preset_id == PRESET_CUSTOM_OPENAI@ ==> endpoint_problem(i.endpoint) is None
                && p.endpoint == trim(i.endpoint))
            &&& (p.preset_id == PRESET_DEEPSEEK@ ==> p.endpoint == DEEPSEEK_ENDPOINT@)
            &&& (p.preset_id == PRESET_ALIYUN_BAILIAN@ ==> p.endpoint == ALIYUN_BAILIAN_ENDPOINT@)
            &&& (p.preset_id == PRESET_XIAOMI_MIMO_LLM@ ==> p.endpoint == XIAOMI_MIMO_LLM_ENDPOINT@)
            &&& (p.preset_id == PRESET_LOCAL_FUNASR@ ==> p.endpoint == LOCAL_FUNASR_ENDPOINT@
                && p.credential_preset_id is None)
        }),
{
    reveal_strlit("local_funasr");
    reveal_strlit("deepseek");
    reveal_strlit("aliyun_bailian");
    reveal_strlit("xiaomi_mimo_llm");
    reveal_strlit("custom_openai_compatible");
    let p = resolved_provider(i, target, previous_credential, secret_exists_after_save, dir_absolute, dir_problem)->Ok_0;
    let preset = effective_preset(i);
    assert(p.preset_id == preset);
    assert(PRESET_LOCAL_FUNASR@ == "local_funasr"@);
    assert(PRESET_DEEPSEEK@ == "deepseek"@);
    assert(PRESET_DEEPSEEK@.len() == 8);
    assert(PRESET_LOCAL_FUNASR@.len() == 12);
    assert(PRESET_DEEPSEEK@ != PRESET_LOCAL_FUNASR@);
    assert(preset_allowed(p.preset_id, target));
    assert(p.preset_id == PRESET_DEEPSEEK@ ==> p.endpoint == DEEPSEEK_ENDPOINT@);
    assert(p.preset_id == PRESET_LOCAL_FUNASR@ ==> p.endpoint == LOCAL_FUNASR_ENDPOINT@);
    assert(p.preset_id == PRESET_CUSTOM_OPENAI@ ==> endpoint_problem(i.endpoint) is None);
}

/// A saved provider reports a configured secret only when its credential binding is
/// exactly the binding of the resolved provider: switching presets without a new key
/// never reuses the old key.
pub proof fn law_secret_follows_binding(
    i: SettingsInputV,
    target: ProviderTarget,
    previous_credential: Option<Seq<char>>,
    secret_exists_after_save: bool,
    dir_absolute: bool,
    dir_problem: Option<Seq<char>>,
)
    requires
        resolved_provider(i, target, previous_credential, secret_exists_after_save, dir_absolute, dir_problem) is Ok,
    ensures
        ({
            let p = resolved_provider(i, target, previous_credential, secret_exists_after_save, dir_absolute, dir_problem)->Ok_0;
            p.secret_configured <==> (secret_exists_after_save && p.credential_preset_id == Some(
                binding_of(p.preset_id, p.endpoint),
            ))
        }),
{
}

/// The slot of a connection test's target: `transcription` or `minutes`.
pub fn parse_connection_target(target: &str) -> (r: Result<SecretKind, CommandError>)
    ensures
        target@ == "transcription"@ ==> r == Ok::<SecretKind, CommandError>(SecretKind::Transcription),
        target@ == "minutes"@ ==> r == Ok::<SecretKind, CommandError>(SecretKind::Minutes),
        target@ != "transcription"@ && target@ != "minutes"@ ==> r is Err && r->Err_0@ == command_error(
            "settings_invalid"@,
            "Provider 类型无效"@,
            false,
        ),
{
    proof {
        reveal_strlit("transcription");
        reveal_strlit("minutes");
        assert("transcription"@.len() != "minutes"@.len());
    }
    if str_eq(target, "transcription") {
        Ok(SecretKind::Transcription)
    } else if str_eq(target, "minutes") {
        Ok(SecretKind::Minutes)
    } else {
        Err(CommandError::new("settings_invalid", "Provider 类型无效", false))
    }
}

/// How a provider's connection is tested.
pub enum ConnectionCheck {
    /// The local model and runtime are loaded on this machine.
    LocalRuntime,
    /// The remote endpoint is probed with the key stored under this binding.
    RemoteProbe { binding_id: String },
}

/// Chooses the connection test of a provider: the local preset checks its runtime; a
/// remote provider needs a credential binding to probe with.
pub fn connection_check(provider: &PublicProviderConfig) -> (r: Result<ConnectionCheck, CommandError>)
    ensures
        provider.preset_id@ == PRESET_LOCAL_FUNASR@ ==> r matches Ok(ConnectionCheck::LocalRuntime),
        provider.preset_id@ != PRESET_LOCAL_FUNASR@ ==> match provider.credential_preset_id {
            Some(b) => r matches Ok(ConnectionCheck::RemoteProbe { binding_id }) && binding_id@ == b@,
            None => r is Err && r->Err_0@ == command_error(
                "provider_not_configured"@,
                "请先保存当前 Provider 的 API Key"@,
                false,
            ),
        },
{
    if str_eq(provider.preset_id.as_str(), PRESET_LOCAL_FUNASR) {
        return Ok(ConnectionCheck::LocalRuntime);
    }
    match &provider.credential_preset_id {
        Some(b) => Ok(ConnectionCheck::RemoteProbe { binding_id: b.clone() }),
        None => Err(CommandError::new("provider_not_configured", "请先保存当前 Provider 的 API Key", false)),
    }
}

/// The stored key a probe may use: only a non-blank key of a provider marked as having one.
pub fn usable_api_key(secret_configured: bool, stored: Option<String>) -> (r: Option<String>)
    ensures
        match stored {
            Some(k) if secret_configured && !is_blank(k@) => r == Some(k),
            _ => r is None,
        },
{
    match stored {
        Some(k) => {
            if secret_configured && !str_is_blank(k.as_str()) {
                Some(k)
            } else {
                None
            }
        },
        None => None,
    }
}

/// The answer of a connection test that has no usable key.
pub fn missing_key_result() -> (r: ProviderConnectionResult)
    ensures
        !r.ok,
        r.safe_message@ == "请先保存 API Key"@,
{
    ProviderConnectionResult { ok: false, safe_message: copy_str("请先保存 API Key") }
}

/// The answer of a local runtime check: its success message, or the check's safe message.
pub fn local_runtime_result(check: Result<(), crate::providers::error::ProviderError>) -> (r: ProviderConnectionResult)
    ensures
        match check {
            Ok(()) => r.ok && r.safe_message@ == "本地 SenseVoiceSmall、FSMN-VAD 模型与 FunASR 运行环境可用"@,
            Err(e) => !r.ok && r.safe_message@ == e.safe_message@,
        },
{
    match check {
        Ok(()) => ProviderConnectionResult {
            ok: true,
            safe_message: copy_str("本地 SenseVoiceSmall、FSMN-VAD 模型与 FunASR 运行环境可用"),
        },
        Err(e) => ProviderConnectionResult { ok: false, safe_message: e.safe_message },
    }
}

/// How a probe is sent: its timeouts, and whether the key goes in `X-Api-Key` rather
/// than as a Bearer token.
pub struct ProbePlan {
    pub connect_timeout_ms: u64,
    pub timeout_ms: u64,
    pub key_in_api_key_header: bool,
}

/// Plans a probe: the provider's connect timeout, its request timeout capped at thirty
/// seconds, and the Volcengine key header for Volcengine providers.
pub fn probe_plan(provider: &PublicProviderConfig) -> (r: ProbePlan)
    ensures
        r.connect_timeout_ms == provider.connect_timeout_ms,
        r.timeout_ms == (if provider.request_timeout_ms < 30000 {
            provider.request_timeout_ms
        } else {
            30000
        }),
        r.key_in_api_key_header == (provider.kind@ == "volcengine_asr"@),
{
    ProbePlan {
        connect_timeout_ms: provider.connect_timeout_ms,
        timeout_ms: if provider.request_timeout_ms < 30000 {
            provider.request_timeout_ms
        } else {
            30000
        },
        key_in_api_key_header: str_eq(provider.kind.as_str(), "volcengine_asr"),
    }
}

/// The error of a probe that got no response: a timeout, a failed connection, or another
/// failure; each may be retried.
pub fn probe_failure(is_timeout: bool, is_connect: bool) -> (r: CommandError)
    ensures
        r@ == command_error(
            "connection_test_failed"@,
            if is_timeout {
                "连接测试超时，请检查网络、代理或服务地址"@
            } else if is_connect {
                "无法连接服务，请检查网络、代理或服务地址"@
            } else {
                "连接测试失败，请稍后重试"@
            },
            true,
        ),
{
    let message = if is_timeout {
        "连接测试超时，请检查网络、代理或服务地址"
    } else if is_connect {
        "无法连接服务，请检查网络、代理或服务地址"
    } else {
        "连接测试失败，请稍后重试"
    };
    CommandError::new("connection_test_failed", message, true)
}

} // verus!
