//! Provider presets, managed defaults, preset inference from exact endpoints,
//! credential bindings, and the readiness of public provider configuration.

use sha2::Digest;
use vstd::prelude::*;

use crate::domain::{ProviderConfigV, ProviderReadiness, PublicProviderConfig, PublicSettings};
use crate::minutes::dates::{all_digits, digits_value};
use crate::text::{chars_of, copy_str, is_blank, push_str, str_eq, str_is_blank, trim, trim_str};

verus! {

pub const PRESET_MOCK: &'static str = "mock";
pub const PRESET_LOCAL_FUNASR: &'static str = "local_funasr";
pub const PRESET_DASHSCOPE_FUNASR_CN: &'static str = "dashscope_funasr_cn";
pub const PRESET_DASHSCOPE_FUNASR_INTL: &'static str = "dashscope_funasr_intl";
pub const PRESET_XIAOMI_MIMO_ASR: &'static str = "xiaomi_mimo_asr";
pub const PRESET_VOLCENGINE_ASR_FLASH: &'static str = "volcengine_asr_flash";
pub const PRESET_XIAOMI_MIMO_LLM: &'static str = "xiaomi_mimo_llm";
pub const PRESET_DEEPSEEK: &'static str = "deepseek";
pub const PRESET_ALIYUN_BAILIAN: &'static str = "aliyun_bailian";
pub const PRESET_CUSTOM_OPENAI: &'static str = "custom_openai_compatible";

pub const DASHSCOPE_FUNASR_CN_ENDPOINT: &'static str =
    "https://dashscope.aliyuncs.com/api/v1/services/audio/asr/transcription";
pub const DASHSCOPE_FUNASR_INTL_ENDPOINT: &'static str =
    "https://dashscope-intl.aliyuncs.com/api/v1/services/audio/asr/transcription";
pub const XIAOMI_MIMO_ASR_ENDPOINT: &'static str = "https://api.xiaomimimo.com/v1/chat/completions";
pub const XIAOMI_MIMO_LLM_ENDPOINT: &'static str = "https://api.xiaomimimo.com/v1/chat/completions";
pub const VOLCENGINE_ASR_FLASH_ENDPOINT: &'static str =
    "https://openspeech.bytedance.com/api/v3/auc/bigmodel/recognize/flash";
pub const DEEPSEEK_ENDPOINT: &'static str = "https://api.deepseek.com/chat/completions";
pub const ALIYUN_BAILIAN_ENDPOINT: &'static str =
    "https://dashscope.aliyuncs.com/compatible-mode/v1/chat/completions";
pub const LOCAL_FUNASR_ENDPOINT: &'static str = "local://model/SenseVoiceSmall";
pub const LOCAL_FUNASR_MODEL: &'static str = "SenseVoiceSmall";
pub const LOCAL_FUNASR_DEFAULT_TIMEOUT_MS: u64 = 3600000;
pub const LOCAL_FUNASR_MAX_TIMEOUT_MS: u64 = 14400000;

/// The managed defaults (preset, kind, endpoint, model) of an environment prefix.
pub open spec fn defaults_of(prefix: Seq<char>) -> (Seq<char>, Seq<char>, Seq<char>, Seq<char>) {
    if prefix == "ASR"@ {
        (PRESET_LOCAL_FUNASR@, "local_funasr"@, LOCAL_FUNASR_ENDPOINT@, LOCAL_FUNASR_MODEL@)
    } else if prefix == "LLM"@ {
        (PRESET_DEEPSEEK@, "openai_compatible"@, DEEPSEEK_ENDPOINT@, "deepseek-v4-flash"@)
    } else {
        (PRESET_CUSTOM_OPENAI@, "openai_compatible"@, ""@, ""@)
    }
}

/// The safe managed defaults of the transcription (`ASR`) and minutes (`LLM`) services.
pub fn provider_defaults(prefix: &str) -> (r: (&'static str, &'static str, &'static str, &'static str))
    ensures
        (r.0@, r.1@, r.2@, r.3@) == defaults_of(prefix@),
{
    if str_eq(prefix, "ASR") {
        (PRESET_LOCAL_FUNASR, "local_funasr", LOCAL_FUNASR_ENDPOINT, LOCAL_FUNASR_MODEL)
    } else if str_eq(prefix, "LLM") {
        (PRESET_DEEPSEEK, "openai_compatible", DEEPSEEK_ENDPOINT, "deepseek-v4-flash")
    } else {
        (PRESET_CUSTOM_OPENAI, "openai_compatible", "", "")
    }
}

/// The preset named by an exact managed endpoint (the shared MiMo endpoint is told
/// apart by the ASR model); a blank endpoint gives the fallback, any other the custom
/// OpenAI-compatible preset.
pub open spec fn inferred_preset(endpoint: Seq<char>, model: Seq<char>, fallback: Seq<char>) -> Seq<
    char,
> {
    let e = trim(endpoint);
    if e == LOCAL_FUNASR_ENDPOINT@ {
        PRESET_LOCAL_FUNASR@
    } else if e == DASHSCOPE_FUNASR_CN_ENDPOINT@ {
        PRESET_DASHSCOPE_FUNASR_CN@
    } else if e == DASHSCOPE_FUNASR_INTL_ENDPOINT@ {
        PRESET_DASHSCOPE_FUNASR_INTL@
    } else if e == XIAOMI_MIMO_ASR_ENDPOINT@ && trim(model) == "mimo-v2.5-asr"@ {
        PRESET_XIAOMI_MIMO_ASR@
    } else if e == XIAOMI_MIMO_LLM_ENDPOINT@ {
        PRESET_XIAOMI_MIMO_LLM@
    } else if e == VOLCENGINE_ASR_FLASH_ENDPOINT@ {
        PRESET_VOLCENGINE_ASR_FLASH@
    } else if e == DEEPSEEK_ENDPOINT@ {
        PRESET_DEEPSEEK@
    } else if e == ALIYUN_BAILIAN_ENDPOINT@ {
        PRESET_ALIYUN_BAILIAN@
    } else if e.len() == 0 {
        fallback
    } else {
        PRESET_CUSTOM_OPENAI@
    }
}

/// Infers the preset of an endpoint; custom addresses become the editable
/// OpenAI-compatible preset.
pub fn infer_preset_from_endpoint(endpoint: &str, model: &str, fallback: &str) -> (r: String)
    ensures
        r@ == inferred_preset(endpoint@, model@, fallback@),
{
    let e = trim_str(endpoint);
    let es = e.as_str();
    if str_eq(es, LOCAL_FUNASR_ENDPOINT) {
        copy_str(PRESET_LOCAL_FUNASR)
    } else if str_eq(es, DASHSCOPE_FUNASR_CN_ENDPOINT) {
        copy_str(PRESET_DASHSCOPE_FUNASR_CN)
    } else if str_eq(es, DASHSCOPE_FUNASR_INTL_ENDPOINT) {
        copy_str(PRESET_DASHSCOPE_FUNASR_INTL)
    } else if str_eq(es, XIAOMI_MIMO_ASR_ENDPOINT) && str_eq(trim_str(model).as_str(), "mimo-v2.5-asr") {
        copy_str(PRESET_XIAOMI_MIMO_ASR)
    } else if str_eq(es, XIAOMI_MIMO_LLM_ENDPOINT) {
        copy_str(PRESET_XIAOMI_MIMO_LLM)
    } else if str_eq(es, VOLCENGINE_ASR_FLASH_ENDPOINT) {
        copy_str(PRESET_VOLCENGINE_ASR_FLASH)
    } else if str_eq(es, DEEPSEEK_ENDPOINT) {
        copy_str(PRESET_DEEPSEEK)
    } else if str_eq(es, ALIYUN_BAILIAN_ENDPOINT) {
        copy_str(PRESET_ALIYUN_BAILIAN)
    } else if es.unicode_len() == 0 {
        copy_str(fallback)
    } else {
        copy_str(PRESET_CUSTOM_OPENAI)
    }
}

/// Whether a trimmed endpoint is one of the managed service endpoints.
pub open spec fn managed_endpoint(e: Seq<char>) -> bool {
    e == LOCAL_FUNASR_ENDPOINT@ || e == DASHSCOPE_FUNASR_CN_ENDPOINT@ || e == DASHSCOPE_FUNASR_INTL_ENDPOINT@
        || e == XIAOMI_MIMO_ASR_ENDPOINT@ || e == VOLCENGINE_ASR_FLASH_ENDPOINT@ || e == DEEPSEEK_ENDPOINT@
        || e == ALIYUN_BAILIAN_ENDPOINT@
}

/// An old configuration's preset follows its exact endpoint: each managed endpoint
/// gives its own preset (the shared MiMo endpoint gives the ASR preset only for the ASR
/// model), and every other endpoint, a trailing slash or an empty one included, gives
/// the custom OpenAI-compatible preset.
pub proof fn law_preset_follows_exact_endpoint(endpoint: Seq<char>, model: Seq<char>)
    ensures
        ({
            let e = trim(endpoint);
            let p = inferred_preset(endpoint, model, PRESET_CUSTOM_OPENAI@);
            &&& (e == DEEPSEEK_ENDPOINT@ ==> p == PRESET_DEEPSEEK@)
            &&& (e == ALIYUN_BAILIAN_ENDPOINT@ ==> p == PRESET_ALIYUN_BAILIAN@)
            &&& (e == LOCAL_FUNASR_ENDPOINT@ ==> p == PRESET_LOCAL_FUNASR@)
            &&& (e == VOLCENGINE_ASR_FLASH_ENDPOINT@ ==> p == PRESET_VOLCENGINE_ASR_FLASH@)
            &&& (e == XIAOMI_MIMO_ASR_ENDPOINT@ ==> p == (if trim(model) == "mimo-v2.5-asr"@ {
                PRESET_XIAOMI_MIMO_ASR@
            } else {
                PRESET_XIAOMI_MIMO_LLM@
            }))
            &&& (!managed_endpoint(e) ==> p == PRESET_CUSTOM_OPENAI@)
        }),
{
    reveal_strlit("https://dashscope.aliyuncs.com/api/v1/services/audio/asr/transcription");
    reveal_strlit("https://dashscope-intl.aliyuncs.com/api/v1/services/audio/asr/transcription");
    reveal_strlit("https://api.xiaomimimo.com/v1/chat/completions");
    reveal_strlit("https://openspeech.bytedance.com/api/v3/auc/bigmodel/recognize/flash");
    reveal_strlit("https://api.deepseek.com/chat/completions");
    reveal_strlit("https://dashscope.aliyuncs.com/compatible-mode/v1/chat/completions");
    reveal_strlit("local://model/SenseVoiceSmall");
    let l = seq![
        LOCAL_FUNASR_ENDPOINT@.len(),
        DASHSCOPE_FUNASR_CN_ENDPOINT@.len(),
        DASHSCOPE_FUNASR_INTL_ENDPOINT@.len(),
        XIAOMI_MIMO_ASR_ENDPOINT@.len(),
        VOLCENGINE_ASR_FLASH_ENDPOINT@.len(),
        DEEPSEEK_ENDPOINT@.len(),
        ALIYUN_BAILIAN_ENDPOINT@.len(),
    ];
    assert(l =~= seq![29nat, 70nat, 75nat, 46nat, 68nat, 41nat, 66nat]);
}

/// Infers the stable preset of an old configuration from its exact managed endpoint;
/// unknown endpoints map to the custom preset.
pub fn infer_preset_id(provider: &PublicProviderConfig) -> (r: String)
    ensures
        r@ == inferred_preset(provider.endpoint@, provider.model@, PRESET_CUSTOM_OPENAI@),
{
    infer_preset_from_endpoint(provider.endpoint.as_str(), provider.model.as_str(), PRESET_CUSTOM_OPENAI)
}

/// The SHA-256 digest of a byte string.
pub uninterp spec fn sha256_digest(data: Seq<u8>) -> Seq<u8>;

/// Hashes bytes with sha2's `Sha256::digest`; the result is the named digest of the
/// input, 32 bytes long.
#[verifier::external_body]
pub(crate) fn sha256(data: &[u8]) -> (r: Vec<u8>)
    ensures
        r@ == sha256_digest(data@),
        r@.len() == 32,
{
    sha2::Sha256::digest(data).to_vec()
}

/// The lower-case hexadecimal digit of a value below sixteen.
pub open spec fn hex_digit(v: int) -> char {
    if v < 10 {
        (48 + v) as char
    } else {
        (87 + v) as char
    }
}

/// Bytes written as lower-case hexadecimal, two digits per byte, most significant first.
pub open spec fn hex_lower(bytes: Seq<u8>) -> Seq<char>
    decreases bytes.len(),
{
    if bytes.len() == 0 {
        seq![]
    } else {
        hex_lower(bytes.drop_last()) + seq![
            hex_digit((bytes.last() / 16) as int),
            hex_digit((bytes.last() % 16) as int),
        ]
    }
}

/// Encodes bytes with `hex::encode`: lower-case hexadecimal, two digits per byte.
#[verifier::external_body]
pub(crate) fn hex_encode(bytes: &[u8]) -> (r: String)
    ensures
        r@ == hex_lower(bytes@),
{
    hex::encode(bytes)
}

/// The credential binding of a provider: the preset itself, or for the custom preset
/// an opaque fingerprint of the trimmed endpoint (24 hexadecimal digits of its SHA-256).
pub open spec fn binding_of(preset_id: Seq<char>, endpoint: Seq<char>) -> Seq<char> {
    if preset_id == PRESET_CUSTOM_OPENAI@ {
        PRESET_CUSTOM_OPENAI@ + ":"@ + hex_lower(
            sha256_digest(vstd::utf8::encode_utf8(trim(endpoint))),
        ).take(24)
    } else {
        preset_id
    }
}

/// A stable credential binding; custom endpoints get an opaque endpoint fingerprint
/// that does not hold the endpoint text.
pub fn credential_binding_id(provider: &PublicProviderConfig) -> (r: String)
    ensures
        r@ == binding_of(provider.preset_id@, provider.endpoint@),
{
    if str_eq(provider.preset_id.as_str(), PRESET_CUSTOM_OPENAI) {
        let endpoint = trim_str(provider.endpoint.as_str());
        let bytes = endpoint.as_str().as_bytes();
        let digest = sha256(bytes);
        let hex = hex_encode(digest.as_slice());
        proof {
            lemma_hex_lower_len(digest@);
        }
        let hv = chars_of(hex.as_str());
        let mut out = copy_str(PRESET_CUSTOM_OPENAI);
        push_str(&mut out, ":");
        let mut i: usize = 0;
        let ghost start = out@;
        while i < 24
            invariant
                0 <= i <= 24,
                hv@.len() == 64,
                out@ == start + hv@.take(i as int),
            decreases 24 - i,
        {
            crate::text::push_char(&mut out, hv[i]);
            i = i + 1;
            proof {
                assert(hv@.take(i as int) =~= hv@.take((i - 1) as int).push(hv@[i - 1]));
            }
        }
        out
    } else {
        copy_str(provider.preset_id.as_str())
    }
}

/// Hexadecimal text has two digits per byte.
proof fn lemma_hex_lower_len(bytes: Seq<u8>)
    ensures
        hex_lower(bytes).len() == 2 * bytes.len(),
    decreases bytes.len(),
{
    if bytes.len() > 0 {
        lemma_hex_lower_len(bytes.drop_last());
    }
}

/// The missing-field labels of a provider, in display order.
pub open spec fn missing_fields(p: ProviderConfigV) -> Seq<Seq<char>> {
    let is_local = p.preset_id == PRESET_LOCAL_FUNASR@ && p.kind == "local_funasr"@;
    (if is_blank(p.endpoint) {
        seq!["API 地址"@]
    } else {
        seq![]
    }) + (if is_blank(p.model) {
        seq!["模型名"@]
    } else {
        seq![]
    }) + (if !is_local && !p.secret_configured {
        seq!["API Key"@]
    } else {
        seq![]
    })
}

/// Labels joined by the enumeration comma.
pub open spec fn join_labels(labels: Seq<Seq<char>>) -> Seq<char>
    decreases labels.len(),
{
    if labels.len() == 0 {
        seq![]
    } else if labels.len() == 1 {
        labels[0]
    } else {
        join_labels(labels.drop_last()) + "、"@ + labels.last()
    }
}

/// The provider with its readiness, ready flag and safe message recomputed from its
/// kind, preset, endpoint, model and secret flag; nothing else changes.
pub open spec fn readiness_of(p: ProviderConfigV) -> ProviderConfigV {
    if p.kind == "mock"@ {
        ProviderConfigV {
            ready: false,
            readiness: ProviderReadiness::Incomplete,
            validation_message: "旧版演示配置已停用，请重新配置服务"@,
            ..p
        }
    } else {
        let is_local = p.preset_id == PRESET_LOCAL_FUNASR@ && p.kind == "local_funasr"@;
        let missing = missing_fields(p);
        let supported = p.kind == "local_funasr"@ || p.kind == "openai_compatible"@;
        if supported && missing.len() == 0 {
            ProviderConfigV {
                ready: true,
                readiness: ProviderReadiness::Ready,
                validation_message: if is_local {
                    "本地 SenseVoiceSmall 配置已就绪"@
                } else {
                    "真实 Provider 配置已就绪"@
                },
                ..p
            }
        } else {
            ProviderConfigV {
                ready: false,
                readiness: ProviderReadiness::Incomplete,
                validation_message: if !supported {
                    "Provider 类型无效，请重新配置"@
                } else {
                    "请补充："@ + join_labels(missing)
                },
                ..p
            }
        }
    }
}

/// A provider is ready exactly when its kind is supported, its endpoint and model are
/// not blank, and a secret is configured unless it is the local model; the ready flag
/// and the readiness always agree, and every other field but the message is kept.
pub proof fn law_readiness_is_exact(p: ProviderConfigV)
    ensures
        ({
            let r = readiness_of(p);
            &&& r.ready == (r.readiness == ProviderReadiness::Ready)
            &&& r.ready == ((p.kind == "local_funasr"@ || p.kind == "openai_compatible"@) && !is_blank(p.endpoint)
                && !is_blank(p.model) && (p.secret_configured || (p.preset_id == PRESET_LOCAL_FUNASR@ && p.kind
                == "local_funasr"@)))
            &&& r == ProviderConfigV { ready: r.ready, readiness: r.readiness, validation_message: r.validation_message, ..p }
        }),
{
    reveal_strlit("mock");
    reveal_strlit("local_funasr");
    reveal_strlit("openai_compatible");
    assert("mock"@.len() == 4 && "local_funasr"@.len() == 12 && "openai_compatible"@.len() == 17);
    assert("mock"@ != "local_funasr"@);
    assert("mock"@ != "openai_compatible"@);
    let m = missing_fields(p);
    assert(m.len() == 0 <==> (!is_blank(p.endpoint) && !is_blank(p.model) && (p.secret_configured || (p.preset_id
        == PRESET_LOCAL_FUNASR@ && p.kind == "local_funasr"@))));
}

/// Computes the safe readiness of a provider from its public fields and the secret
/// flag.
pub fn evaluate_provider_readiness(provider: PublicProviderConfig) -> (r: PublicProviderConfig)
    ensures
        r@ == readiness_of(provider@),
{
    let ghost pv = provider@;
    let mut provider = provider;
    if str_eq(provider.kind.as_str(), "mock") {
        provider.ready = false;
        provider.readiness = ProviderReadiness::Incomplete;
        provider.validation_message = copy_str("旧版演示配置已停用，请重新配置服务");
        return provider;
    }
    let is_local = str_eq(provider.preset_id.as_str(), PRESET_LOCAL_FUNASR) && str_eq(
        provider.kind.as_str(),
        "local_funasr",
    );
    let missing_endpoint = str_is_blank(provider.endpoint.as_str());
    let missing_model = str_is_blank(provider.model.as_str());
    let missing_key = !is_local && !provider.secret_configured;
    let supported = str_eq(provider.kind.as_str(), "local_funasr") || str_eq(
        provider.kind.as_str(),
        "openai_compatible",
    );
    let ghost missing = missing_fields(pv);
    proof {
        assert(missing.len() == 0 <==> (!missing_endpoint && !missing_model && !missing_key));
    }
    if supported && !missing_endpoint && !missing_model && !missing_key {
        provider.ready = true;
        provider.readiness = ProviderReadiness::Ready;
        provider.validation_message = if is_local {
            copy_str("本地 SenseVoiceSmall 配置已就绪")
        } else {
            copy_str("真实 Provider 配置已就绪")
        };
    } else {
        provider.ready = false;
        provider.readiness = ProviderReadiness::Incomplete;
        if !supported {
            provider.validation_message = copy_str("Provider 类型无效，请重新配置");
        } else {
            let mut msg = copy_str("请补充：");
            let ghost head = msg@;
            let mut first = true;
            if missing_endpoint {
                push_str(&mut msg, "API 地址");
                first = false;
            }
            let ghost l1 = if missing_endpoint {
                seq!["API 地址"@]
            } else {
                Seq::<Seq<char>>::empty()
            };
            proof {
                assert(msg@ =~= head + join_labels(l1));
            }
            if missing_model {
                if !first {
                    push_str(&mut msg, "、");
                }
                push_str(&mut msg, "模型名");
                first = false;
            }
            let ghost l2 = l1 + if missing_model {
                seq!["模型名"@]
            } else {
                Seq::<Seq<char>>::empty()
            };
            proof {
                if missing_model {
                    if l1.len() > 0 {
                        assert(l2.drop_last() =~= l1);
                    } else {
                        assert(l2 =~= seq!["模型名"@]);
                    }
                } else {
                    assert(l2 =~= l1);
                }
                assert(first == (l2.len() == 0));
                assert(msg@ =~= head + join_labels(l2));
            }
            if missing_key {
                if !first {
                    push_str(&mut msg, "、");
                }
                push_str(&mut msg, "API Key");
            }
            let ghost l3 = l2 + if missing_key {
                seq!["API Key"@]
            } else {
                Seq::<Seq<char>>::empty()
            };
            proof {
                if missing_key {
                    if l2.len() > 0 {
                        assert(l3.drop_last() =~= l2);
                    } else {
                        assert(l3 =~= seq!["API Key"@]);
                    }
                } else {
                    assert(l3 =~= l2);
                }
                assert(l3 =~= missing);
                assert(msg@ =~= head + join_labels(missing));
            }
            provider.validation_message = msg;
        }
    }
    proof {
        assert(provider@ =~= readiness_of(pv));
    }
    provider
}

/// Recomputes the readiness of both providers.
pub fn evaluate_settings_readiness(settings: PublicSettings) -> (r: PublicSettings)
    ensures
        r.transcription@ == readiness_of(settings.transcription@),
        r.minutes@ == readiness_of(settings.minutes@),
{
    PublicSettings {
        transcription: evaluate_provider_readiness(settings.transcription),
        minutes: evaluate_provider_readiness(settings.minutes),
    }
}

/// Recomputing readiness changes nothing the second time, and a provider is ready
/// exactly when its readiness is `Ready`; the legacy demo kind is never ready.
pub proof fn law_readiness_is_stable(p: ProviderConfigV)
    ensures
        readiness_of(readiness_of(p)) == readiness_of(p),
        readiness_of(p).ready <==> readiness_of(p).readiness == ProviderReadiness::Ready,
        p.kind == "mock"@ ==> !readiness_of(p).ready,
        readiness_of(p).preset_id == p.preset_id && readiness_of(p).endpoint == p.endpoint
            && readiness_of(p).model == p.model && readiness_of(p).secret_configured
            == p.secret_configured,
{
}

/// A ready provider that is not the local engine always has an endpoint, a model and a
/// configured secret.
pub proof fn law_ready_remote_provider_has_secret(p: ProviderConfigV)
    requires
        readiness_of(p).ready,
        !(p.preset_id == PRESET_LOCAL_FUNASR@ && p.kind == "local_funasr"@),
    ensures
        p.secret_configured,
        !is_blank(p.endpoint),
        !is_blank(p.model),
{
    let missing = missing_fields(p);
    if !p.secret_configured || is_blank(p.endpoint) || is_blank(p.model) {
        assert(missing.len() > 0);
    }
}

/// The raw process-environment values of one provider prefix, as read by the caller
/// (`None` where a variable is unset).
pub struct ProviderEnvironment {
    pub provider_kind: Option<String>,
    pub base_url: Option<String>,
    pub model: Option<String>,
    pub preset_id: Option<String>,
    pub api_key: Option<String>,
    pub model_dir: Option<String>,
    pub connect_timeout_ms: Option<String>,
    pub request_timeout_ms: Option<String>,
    pub max_retries: Option<String>,
}

/// A non-blank environment text, else the fallback.
pub open spec fn text_or(v: Option<Seq<char>>, fallback: Seq<char>) -> Seq<char> {
    match v {
        Some(s) => if is_blank(s) {
            fallback
        } else {
            s
        },
        None => fallback,
    }
}

/// The value of an unsigned decimal text as `str::parse` reads it: an optional `+`,
/// then at least one digit and nothing else.
pub open spec fn unsigned_value(s: Seq<char>) -> Option<nat> {
    let d = if s.len() > 0 && s[0] == '+' {
        s.skip(1)
    } else {
        s
    };
    if d.len() > 0 && all_digits(d) {
        Some(digits_value(d))
    } else {
        None
    }
}

/// A bounded number from the environment; unparsable or out-of-range values give the
/// fallback.
pub open spec fn number_or(v: Option<Seq<char>>, fallback: nat, minimum: nat, maximum: nat) -> nat {
    match v {
        Some(s) => match unsigned_value(s) {
            Some(n) => if minimum <= n && n <= maximum {
                n
            } else {
                fallback
            },
            None => fallback,
        },
        None => fallback,
    }
}

/// The view of an optional string.
pub open spec fn opt_text(o: Option<String>) -> Option<Seq<char>> {
    match o {
        Some(s) => Some(s@),
        None => None,
    }
}

/// Reads a non-blank environment text, else the fallback.
fn read_text(v: &Option<String>, fallback: &str) -> (r: String)
    ensures
        r@ == text_or(opt_text(*v), fallback@),
{
    match v {
        Some(s) => if str_is_blank(s.as_str()) {
            copy_str(fallback)
        } else {
            copy_str(s.as_str())
        },
        None => copy_str(fallback),
    }
}

/// Digits grow: a longer prefix never has a smaller value.
proof fn lemma_digits_prefix_monotone(s: Seq<char>, i: int, j: int)
    requires
        0 <= i <= j <= s.len(),
    ensures
        digits_value(s.take(i)) <= digits_value(s.take(j)),
    decreases j - i,
{
    if i < j {
        lemma_digits_prefix_monotone(s, i, j - 1);
        assert(s.take(j).drop_last() =~= s.take(j - 1));
    }
}

/// Reads a bounded number; `maximum` stays far below the `u64` range.
fn read_number(v: &Option<String>, fallback: u64, minimum: u64, maximum: u64) -> (r: u64)
    requires
        maximum < 1000000000000,
    ensures
        r as nat == number_or(opt_text(*v), fallback as nat, minimum as nat, maximum as nat),
{
    let s = match v {
        Some(s) => s,
        None => {
            return fallback;
        },
    };
    let c = chars_of(s.as_str());
    let start: usize = if c.len() > 0 && c[0] == '+' {
        1
    } else {
        0
    };
    let ghost d = if c@.len() > 0 && c@[0] == '+' {
        c@.skip(1)
    } else {
        c@
    };
    if start >= c.len() {
        proof {
            assert(d.len() == 0);
        }
        return fallback;
    }
    let cap: u64 = 1000000000000;
    let mut acc: u64 = 0;
    let mut i: usize = start;
    proof {
        assert(d =~= c@.skip(start as int));
        assert(d.take(0) =~= Seq::<char>::empty());
    }
    while i < c.len()
        invariant
            start <= i <= c@.len(),
            d == c@.skip(start as int),
            all_digits(d.take(i - start)),
            acc <= cap ==> acc as nat == digits_value(d.take(i - start)),
            acc > cap ==> digits_value(d.take(i - start)) > cap,
            acc <= cap + 1,
            cap == 1000000000000,
            opt_text(*v) == Some(c@),
            d == (if c@.len() > 0 && c@[0] == '+' {
                c@.skip(1)
            } else {
                c@
            }),
        decreases c@.len() - i,
    {
        let ch = c[i];
        if !('0' <= ch && ch <= '9') {
            proof {
                assert(d[i - start] == ch);
                assert(!all_digits(d));
            }
            return fallback;
        }
        let ghost k = i - start;
        proof {
            assert(d.take(k + 1).drop_last() =~= d.take(k));
            assert(d.take(k + 1).last() == ch);
            assert(all_digits(d.take(k + 1))) by {
                assert forall|m: int| 0 <= m < d.take(k + 1).len() implies crate::minutes::dates::is_digit(
                    #[trigger] d.take(k + 1)[m],
                ) by {
                    if m < k {
                        assert(d.take(k + 1)[m] == d.take(k)[m]);
                    }
                }
            }
        }
        if acc <= cap {
            let dv: u64 = (ch as u32 - 48) as u64;
            acc = acc * 10 + dv;
            if acc > cap {
                acc = cap + 1;
            }
        }
        i = i + 1;
    }
    proof {
        assert(d.take(d.len() as int) =~= d);
    }
    if acc > cap || acc < minimum || acc > maximum {
        fallback
    } else {
        acc
    }
}

/// The public configuration of one provider from its environment values: managed
/// defaults fill blank values, the preset is inferred from the endpoint when not given,
/// and numbers outside their ranges fall back to defaults.
pub open spec fn environment_provider(prefix: Seq<char>, env: EnvironmentV) -> ProviderConfigV {
    let d = defaults_of(prefix);
    let kind = text_or(env.provider_kind, d.1);
    let endpoint = text_or(env.base_url, d.2);
    let model = text_or(env.model, d.3);
    let preset = match env.preset_id {
        Some(p) => if is_blank(p) {
            inferred_preset(endpoint, model, d.0)
        } else {
            p
        },
        None => inferred_preset(endpoint, model, d.0),
    };
    let secret = match env.api_key {
        Some(k) => !is_blank(k),
        None => false,
    };
    let local_asr = prefix == "ASR"@ && preset == PRESET_LOCAL_FUNASR@;
    readiness_of(
        ProviderConfigV {
            preset_id: preset,
            kind,
            endpoint,
            model,
            local_model_path: if prefix == "ASR"@ {
                text_or(env.model_dir, ""@)
            } else {
                seq![]
            },
            credential_preset_id: if secret {
                Some(preset)
            } else {
                None
            },
            secret_configured: secret,
            connect_timeout_ms: number_or(env.connect_timeout_ms, 10000, 1000, 60000) as u64,
            request_timeout_ms: number_or(
                env.request_timeout_ms,
                if local_asr {
                    LOCAL_FUNASR_DEFAULT_TIMEOUT_MS as nat
                } else {
                    60000
                },
                5000,
                if local_asr {
                    LOCAL_FUNASR_MAX_TIMEOUT_MS as nat
                } else {
                    600000
                },
            ) as u64,
            max_retries: number_or(env.max_retries, 2, 0, 5) as u32,
            ready: false,
            readiness: ProviderReadiness::Incomplete,
            validation_message: seq![],
        },
    )
}

/// The view of environment values.
pub struct EnvironmentV {
    pub provider_kind: Option<Seq<char>>,
    pub base_url: Option<Seq<char>>,
    pub model: Option<Seq<char>>,
    pub preset_id: Option<Seq<char>>,
    pub api_key: Option<Seq<char>>,
    pub model_dir: Option<Seq<char>>,
    pub connect_timeout_ms: Option<Seq<char>>,
    pub request_timeout_ms: Option<Seq<char>>,
    pub max_retries: Option<Seq<char>>,
}

impl View for ProviderEnvironment {
    type V = EnvironmentV;

    open spec fn view(&self) -> EnvironmentV {
        EnvironmentV {
            provider_kind: opt_text(self.provider_kind),
            base_url: opt_text(self.base_url),
            model: opt_text(self.model),
            preset_id: opt_text(self.preset_id),
            api_key: opt_text(self.api_key),
            model_dir: opt_text(self.model_dir),
            connect_timeout_ms: opt_text(self.connect_timeout_ms),
            request_timeout_ms: opt_text(self.request_timeout_ms),
            max_retries: opt_text(self.max_retries),
        }
    }
}

/// The public configuration of one provider from its environment values.
pub fn provider_from_environment(prefix: &str, env: &ProviderEnvironment) -> (r: PublicProviderConfig)
    ensures
        r@ == environment_provider(prefix@, env@),
{
    let d = provider_defaults(prefix);
    let kind = read_text(&env.provider_kind, d.1);
    let endpoint = read_text(&env.base_url, d.2);
    let model = read_text(&env.model, d.3);
    let preset_id = match &env.preset_id {
        Some(p) => if str_is_blank(p.as_str()) {
            infer_preset_from_endpoint(endpoint.as_str(), model.as_str(), d.0)
        } else {
            copy_str(p.as_str())
        },
        None => infer_preset_from_endpoint(endpoint.as_str(), model.as_str(), d.0),
    };
    let secret = match &env.api_key {
        Some(k) => !str_is_blank(k.as_str()),
        None => false,
    };
    let is_asr = str_eq(prefix, "ASR");
    let local_asr = is_asr && str_eq(preset_id.as_str(), PRESET_LOCAL_FUNASR);
    let local_model_path = if is_asr {
        read_text(&env.model_dir, "")
    } else {
        String::new()
    };
    let credential_preset_id = if secret {
        Some(copy_str(preset_id.as_str()))
    } else {
        None
    };
    let connect = read_number(&env.connect_timeout_ms, 10000, 1000, 60000);
    let request = read_number(
        &env.request_timeout_ms,
        if local_asr {
            LOCAL_FUNASR_DEFAULT_TIMEOUT_MS
        } else {
            60000
        },
        5000,
        if local_asr {
            LOCAL_FUNASR_MAX_TIMEOUT_MS
        } else {
            600000
        },
    );
    let retries = read_number(&env.max_retries, 2, 0, 5);
    let provider = PublicProviderConfig {
        preset_id,
        kind,
        endpoint,
        model,
        local_model_path,
        credential_preset_id,
        secret_configured: secret,
        connect_timeout_ms: connect,
        request_timeout_ms: request,
        max_retries: retries as u32,
        ready: false,
        readiness: ProviderReadiness::Incomplete,
        validation_message: String::new(),
    };
    proof {
        reveal_strlit("");
    }
    evaluate_provider_readiness(provider)
}

/// The public settings of both providers from their environment values, with
/// readiness computed.
pub fn provider_settings_from_environment(asr: &ProviderEnvironment, llm: &ProviderEnvironment) -> (r:
    PublicSettings)
    ensures
        r.transcription@ == readiness_of(environment_provider("ASR"@, asr@)),
        r.minutes@ == readiness_of(environment_provider("LLM"@, llm@)),
{
    evaluate_settings_readiness(
        PublicSettings {
            transcription: provider_from_environment("ASR", asr),
            minutes: provider_from_environment("LLM", llm),
        },
    )
}

} // verus!
