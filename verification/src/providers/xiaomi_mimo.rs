//! The rules of the Xiaomi MiMo ASR adapter: its fixed profile, upload limits, the
//! documented request body and the chat-completion response it reads.

use vstd::prelude::*;

use super::contract::{CapabilityEvidence, ReplaySafety, TranscriptionCapabilities, TranscriptionOptions};
use super::error::{configuration_error, protocol_error, ProviderError, ProviderErrorV};
use super::http::{ascii_lowercase, PlacementV, ProviderCredentialPlacement, ProviderHttpConfig};
use super::mapping::input_error;
use crate::json::{json_document_bytes, parse_json_bytes, 
    entries_view, items_view, json_view, member_of, push_entry, push_item, JsonV, JsonValue,
};
use crate::minutes::transcript::Transcript;
use crate::text::{ascii_lower_seq, is_blank, str_eq, str_is_blank};

verus! {

/// The largest raw upload: its Base64 data URL stays within the 10 MB body limit.
pub const MAX_RAW_AUDIO_BYTES: u64 = 7499982;

/// The largest encoded audio data URL, in bytes.
pub const MAX_ENCODED_AUDIO_BYTES: usize = 10000000;

/// The fixed profile MiMo ASR requires: the `mimo-v2.5-asr` model, Bearer or an
/// `api-key` header without prefix, and a replay policy no looser than "before the body
/// is sent".
pub open spec fn profile_problem(c: ProviderHttpConfig) -> Option<(Seq<char>, Seq<char>)> {
    if c.model@ != "mimo-v2.5-asr"@ {
        Some(("unsupported_model"@, "Xiaomi MiMo ASR 适配器只支持 mimo-v2.5-asr"@))
    } else if !(c.auth@ == PlacementV::Bearer || (c.auth@ matches PlacementV::Header { header_name, prefix }
        && ascii_lower_seq(header_name) == "api-key"@ && prefix is None)) {
        Some(("unsupported_auth_strategy"@, "Xiaomi MiMo ASR 只支持 Bearer 或 api-key 鉴权"@))
    } else if !(c.replay_safety == ReplaySafety::BeforeRequestBodySentOnly || c.replay_safety
        == ReplaySafety::NeverAutomaticallyReplay) {
        Some(("unsupported_replay_safety"@, "Xiaomi MiMo ASR 未验证请求发送后的自动重放安全性"@))
    } else {
        None
    }
}

/// Checks the MiMo model, authentication and replay constraints.
pub fn validate_config(config: &ProviderHttpConfig) -> (r: Result<(), ProviderError>)
    ensures
        match profile_problem(*config) {
            Some(e) => r is Err && r->Err_0@ == configuration_error(e.0, e.1),
            None => r is Ok,
        },
{
    if !str_eq(config.model.as_str(), "mimo-v2.5-asr") {
        return Err(
            ProviderError::configuration("unsupported_model", "Xiaomi MiMo ASR 适配器只支持 mimo-v2.5-asr"),
        );
    }
    let supported_auth = match &config.auth {
        ProviderCredentialPlacement::Bearer => true,
        ProviderCredentialPlacement::Header { header_name, prefix } => {
            let lower = ascii_lowercase(header_name.as_str());
            str_eq(lower.as_str(), "api-key") && prefix.is_none()
        },
        ProviderCredentialPlacement::NoCredential => false,
    };
    if !supported_auth {
        return Err(
            ProviderError::configuration(
                "unsupported_auth_strategy",
                "Xiaomi MiMo ASR 只支持 Bearer 或 api-key 鉴权",
            ),
        );
    }
    match config.replay_safety {
        ReplaySafety::BeforeRequestBodySentOnly | ReplaySafety::NeverAutomaticallyReplay => Ok(()),
        _ => Err(
            ProviderError::configuration(
                "unsupported_replay_safety",
                "Xiaomi MiMo ASR 未验证请求发送后的自动重放安全性",
            ),
        ),
    }
}

/// The exact media type sent for an accepted alias, compared without regard to ASCII case.
pub open spec fn canonical_mime_of(mime: Seq<char>) -> Option<Seq<char>> {
    let l = ascii_lower_seq(mime);
    if l == "audio/mpeg"@ {
        Some("audio/mpeg"@)
    } else if l == "audio/mp3"@ {
        Some("audio/mp3"@)
    } else if l == "audio/wav"@ || l == "audio/x-wav"@ || l == "audio/wave"@ {
        Some("audio/wav"@)
    } else {
        None
    }
}

/// Maps an accepted media type alias to the exact type sent in the data URL.
pub fn canonical_mime_type(value: &str) -> (r: Result<&'static str, ProviderError>)
    ensures
        match canonical_mime_of(value@) {
            Some(m) => r is Ok && r->Ok_0@ == m,
            None => r is Err && r->Err_0@ == input_error(
                "unsupported_audio"@,
                "Xiaomi MiMo 当前只支持 MP3 和 WAV 音频"@,
            ),
        },
{
    let lower = ascii_lowercase(value);
    let l = lower.as_str();
    if str_eq(l, "audio/mpeg") {
        Ok("audio/mpeg")
    } else if str_eq(l, "audio/mp3") {
        Ok("audio/mp3")
    } else if str_eq(l, "audio/wav") || str_eq(l, "audio/x-wav") || str_eq(l, "audio/wave") {
        Ok("audio/wav")
    } else {
        Err(ProviderError::input("unsupported_audio", "Xiaomi MiMo 当前只支持 MP3 和 WAV 音频"))
    }
}

/// The documented language values.
pub open spec fn documented_language(l: Seq<char>) -> bool {
    l == "auto"@ || l == "zh"@ || l == "en"@
}

/// Accepts no language hint, `auto`, `zh` or `en`.
pub fn validate_language(value: Option<&str>) -> (r: Result<(), ProviderError>)
    ensures
        match value {
            Some(l) if !documented_language(l@) => r is Err && r->Err_0@ == input_error(
                "unsupported_language"@,
                "Xiaomi MiMo 语言参数只支持 auto、zh 或 en"@,
            ),
            _ => r is Ok,
        },
{
    match value {
        Some(l) => {
            if str_eq(l, "auto") || str_eq(l, "zh") || str_eq(l, "en") {
                Ok(())
            } else {
                Err(ProviderError::input("unsupported_language", "Xiaomi MiMo 语言参数只支持 auto、zh 或 en"))
            }
        },
        None => Ok(()),
    }
}

/// The media type to send, or why an upload is refused: empty audio, a size whose data
/// URL would pass the limit, the media type, unsupported features, then the language.
pub open spec fn preflight_outcome(byte_length: u64, options: TranscriptionOptions, mime: Seq<char>) -> Result<
    Seq<char>,
    (Seq<char>, Seq<char>),
> {
    if byte_length == 0 {
        Err(("empty_audio"@, "音频文件为空"@))
    } else if byte_length > MAX_RAW_AUDIO_BYTES {
        Err(("file_too_large"@, "音频文件编码后将超过 Xiaomi MiMo 的 10 MB 限制"@))
    } else if canonical_mime_of(mime) is None {
        Err(("unsupported_audio"@, "Xiaomi MiMo 当前只支持 MP3 和 WAV 音频"@))
    } else if options.enable_timestamps || options.enable_speaker_labels || options.enable_confidence {
        Err(("unsupported_option"@, "Xiaomi MiMo 当前不返回时间戳、说话人或置信度字段"@))
    } else if options.language_hint matches Some(l) && !documented_language(l@) {
        Err(("unsupported_language"@, "Xiaomi MiMo 语言参数只支持 auto、zh 或 en"@))
    } else {
        Ok(canonical_mime_of(mime)->Some_0)
    }
}

/// Refuses unsupported media, sizes, features and languages before any audio is read.
pub fn preflight(byte_length: u64, options: &TranscriptionOptions, mime_type: &str) -> (r: Result<
    &'static str,
    ProviderError,
>)
    ensures
        match preflight_outcome(byte_length, *options, mime_type@) {
            Ok(m) => r is Ok && r->Ok_0@ == m,
            Err(e) => r is Err && r->Err_0@ == input_error(e.0, e.1),
        },
{
    if byte_length == 0 {
        return Err(ProviderError::input("empty_audio", "音频文件为空"));
    }
    if byte_length > MAX_RAW_AUDIO_BYTES {
        return Err(
            ProviderError::input("file_too_large", "音频文件编码后将超过 Xiaomi MiMo 的 10 MB 限制"),
        );
    }
    let mime = canonical_mime_type(mime_type)?;
    if options.enable_timestamps || options.enable_speaker_labels || options.enable_confidence {
        return Err(
            ProviderError::input(
                "unsupported_option",
                "Xiaomi MiMo 当前不返回时间戳、说话人或置信度字段",
            ),
        );
    }
    match &options.language_hint {
        Some(l) => validate_language(Some(l.as_str()))?,
        None => {},
    }
    Ok(mime)
}

/// The data URL of Base64 audio.
pub open spec fn data_url(mime: Seq<char>, base64: Seq<char>) -> Seq<char> {
    "data:"@ + mime + ";base64,"@ + base64
}

/// Builds the documented data URL, refusing one over the encoded size limit.
pub fn audio_data_url(mime_type: &str, base64_audio: &str) -> (r: Result<String, ProviderError>)
    ensures
        match r {
            Ok(s) => s@ == data_url(mime_type@, base64_audio@),
            Err(e) => e@ == input_error(
                "file_too_large"@,
                "音频文件编码后超过 Xiaomi MiMo 的 10 MB 限制"@,
            ),
        },
        r is Err <==> vstd::utf8::encode_utf8(data_url(mime_type@, base64_audio@)).len() as usize
            > MAX_ENCODED_AUDIO_BYTES,
{
    let mut url = "data:".to_string();
    crate::text::push_str(&mut url, mime_type);
    crate::text::push_str(&mut url, ";base64,");
    crate::text::push_str(&mut url, base64_audio);
    proof {
        assert(url@ =~= data_url(mime_type@, base64_audio@));
    }
    if url.as_str().len() > MAX_ENCODED_AUDIO_BYTES {
        return Err(ProviderError::input("file_too_large", "音频文件编码后超过 Xiaomi MiMo 的 10 MB 限制"));
    }
    Ok(url)
}

/// The documented non-streaming request body: the model, one user message with the
/// audio data URL, the language (`auto` without a hint), and `stream: false`.
pub open spec fn request_body_view(model: Seq<char>, audio: Seq<char>, language: Seq<char>) -> JsonV {
    JsonV::Object(
        seq![
            ("asr_options"@, JsonV::Object(seq![("language"@, JsonV::Str(language))])),
            (
                "messages"@,
                JsonV::Array(
                    seq![
                        JsonV::Object(
                            seq![
                                (
                                    "content"@,
                                    JsonV::Array(
                                        seq![
                                            JsonV::Object(
                                                seq![
                                                    (
                                                        "input_audio"@,
                                                        JsonV::Object(seq![("data"@, JsonV::Str(audio))]),
                                                    ),
                                                    ("type"@, JsonV::Str("input_audio"@)),
                                                ],
                                            ),
                                        ],
                                    ),
                                ),
                                ("role"@, JsonV::Str("user"@)),
                            ],
                        ),
                    ],
                ),
            ),
            ("model"@, JsonV::Str(model)),
            ("stream"@, JsonV::Bool(false)),
        ],
    )
}

/// Builds the documented request body, keys in order.
pub fn request_body(model: &str, audio_data_url: &str, language_hint: Option<&str>) -> (r: JsonValue)
    ensures
        json_view(r) == request_body_view(
            model@,
            audio_data_url@,
            match language_hint {
                Some(l) => l@,
                None => "auto"@,
            },
        ),
{
    let language = match language_hint {
        Some(l) => l,
        None => "auto",
    };
    proof {
        assert(entries_view(Seq::<(String, JsonValue)>::empty()) =~= Seq::empty());
        assert(items_view(Seq::<JsonValue>::empty()) =~= Seq::empty());
    }
    let mut data_entries: Vec<(String, JsonValue)> = Vec::new();
    push_entry(&mut data_entries, "data", JsonValue::String(audio_data_url.to_string()));
    let ghost data_v = JsonV::Object(seq![("data"@, JsonV::Str(audio_data_url@))]);
    assert(JsonV::Object(entries_view(data_entries@)) =~~= data_v);
    let data = JsonValue::Object(data_entries);
    assert(json_view(data) == data_v);
    let mut part_entries: Vec<(String, JsonValue)> = Vec::new();
    push_entry(&mut part_entries, "input_audio", data);
    push_entry(&mut part_entries, "type", JsonValue::String("input_audio".to_string()));
    let ghost part_v = JsonV::Object(seq![("input_audio"@, data_v), ("type"@, JsonV::Str("input_audio"@))]);
    assert(entries_view(part_entries@) =~= seq![("input_audio"@, data_v), ("type"@, JsonV::Str("input_audio"@))]);
    let part = JsonValue::Object(part_entries);
    assert(json_view(part) == part_v);
    let mut parts: Vec<JsonValue> = Vec::new();
    push_item(&mut parts, part);
    let ghost parts_v = JsonV::Array(seq![part_v]);
    assert(JsonV::Array(items_view(parts@)) =~~= parts_v);
    let content = JsonValue::Array(parts);
    assert(json_view(content) == parts_v);
    let mut message_entries: Vec<(String, JsonValue)> = Vec::new();
    push_entry(&mut message_entries, "content", content);
    push_entry(&mut message_entries, "role", JsonValue::String("user".to_string()));
    let ghost message_v = JsonV::Object(seq![("content"@, parts_v), ("role"@, JsonV::Str("user"@))]);
    assert(entries_view(message_entries@) =~= seq![("content"@, parts_v), ("role"@, JsonV::Str("user"@))]);
    let message = JsonValue::Object(message_entries);
    assert(json_view(message) == message_v);
    let mut messages: Vec<JsonValue> = Vec::new();
    push_item(&mut messages, message);
    let ghost messages_v = JsonV::Array(seq![message_v]);
    assert(JsonV::Array(items_view(messages@)) =~~= messages_v);
    let messages_value = JsonValue::Array(messages);
    assert(json_view(messages_value) == messages_v);
    let mut option_entries: Vec<(String, JsonValue)> = Vec::new();
    push_entry(&mut option_entries, "language", JsonValue::String(language.to_string()));
    let ghost options_v = JsonV::Object(seq![("language"@, JsonV::Str(language@))]);
    assert(JsonV::Object(entries_view(option_entries@)) =~~= options_v);
    let options_value = JsonValue::Object(option_entries);
    assert(json_view(options_value) == options_v);
    let mut body_entries: Vec<(String, JsonValue)> = Vec::new();
    push_entry(&mut body_entries, "asr_options", options_value);
    push_entry(&mut body_entries, "messages", messages_value);
    push_entry(&mut body_entries, "model", JsonValue::String(model.to_string()));
    push_entry(&mut body_entries, "stream", JsonValue::Bool(false));
    assert(entries_view(body_entries@) =~= seq![
        ("asr_options"@, options_v),
        ("messages"@, messages_v),
        ("model"@, JsonV::Str(model@)),
        ("stream"@, JsonV::Bool(false)),
    ]);
    let body = JsonValue::Object(body_entries);
    assert(json_view(body) == request_body_view(model@, audio_data_url@, language@));
    body
}

/// The capabilities Xiaomi publishes for MiMo V2.5 ASR.
pub fn capabilities(replay_safety: ReplaySafety) -> (r: TranscriptionCapabilities)
    ensures
        r.evidence == CapabilityEvidence::Verified,
        r.accepted_media_types@.map_values(|t: String| t@) == seq!["audio/mpeg"@, "audio/mp3"@, "audio/wav"@],
        r.max_audio_bytes == Some(MAX_RAW_AUDIO_BYTES),
        r.max_duration_ms is None,
        !r.supports_async_jobs,
        !r.supports_timestamps,
        !r.supports_speaker_labels,
        !r.supports_confidence,
        !r.supports_remote_cancel,
        !r.supports_remote_urls,
        r.replay_safety == replay_safety,
{
    let mut types: Vec<String> = Vec::new();
    types.push("audio/mpeg".to_string());
    types.push("audio/mp3".to_string());
    types.push("audio/wav".to_string());
    proof {
        assert(types@.map_values(|t: String| t@) =~= seq!["audio/mpeg"@, "audio/mp3"@, "audio/wav"@]);
    }
    TranscriptionCapabilities {
        evidence: CapabilityEvidence::Verified,
        accepted_media_types: types,
        max_audio_bytes: Some(MAX_RAW_AUDIO_BYTES),
        max_duration_ms: None,
        supports_async_jobs: false,
        supports_timestamps: false,
        supports_speaker_labels: false,
        supports_confidence: false,
        supports_remote_cancel: false,
        supports_remote_urls: false,
        replay_safety,
    }
}

/// The step a JSON pointer token `0` takes: the first element of an array, or the
/// member named `0` of an object.
pub open spec fn pointer_zero(v: JsonV) -> Option<JsonV> {
    match v {
        JsonV::Object(_) => member_of(v, "0"@),
        JsonV::Array(items) => if items.len() > 0 {
            Some(items[0])
        } else {
            None
        },
        _ => None,
    }
}

/// The value at `/choices/0/message/content`.
pub open spec fn choice_content(body: JsonV) -> Option<JsonV> {
    match member_of(body, "choices"@) {
        Some(c) => match pointer_zero(c) {
            Some(z) => match member_of(z, "message"@) {
                Some(m) => member_of(m, "content"@),
                None => None,
            },
            None => None,
        },
        None => None,
    }
}

/// The transcript text and the response ID of a chat-completion reply, or the protocol
/// error of one that is not JSON or whose content is missing or blank.
pub open spec fn response_outcome(body: Option<JsonV>) -> Result<(Seq<char>, Option<Seq<char>>), ProviderErrorV> {
    match body {
        None => Err(protocol_error("invalid_provider_response"@, "Xiaomi MiMo 返回的转写响应不是有效 JSON"@)),
        Some(b) => match choice_content(b) {
            Some(JsonV::Str(t)) if !is_blank(t) => Ok(
                (
                    t,
                    match member_of(b, "id"@) {
                        Some(JsonV::Str(id)) => Some(id),
                        _ => None,
                    },
                ),
            ),
            _ => Err(protocol_error("empty_transcript"@, "Xiaomi MiMo 返回了空转写"@)),
        },
    }
}

/// The value a pointer token `0` selects.
fn step_zero(v: &JsonValue) -> (r: Option<&JsonValue>)
    ensures
        match pointer_zero(json_view(*v)) {
            Some(x) => r is Some && json_view(*r->Some_0) == x,
            None => r is None,
        },
{
    match v {
        JsonValue::Object(_) => v.get_member("0"),
        JsonValue::Array(items) => {
            proof {
                crate::json::lemma_items_view(items@);
            }
            if items.len() > 0 {
                Some(&items[0])
            } else {
                None
            }
        },
        _ => None,
    }
}

/// Normalizes a chat-completion reply into a transcript without segments; `body` is the
/// parsed body, `None` when it was not JSON, and the response ID comes back beside it.
pub fn parse_response(body: Option<&JsonValue>, duration_ms: Option<u64>) -> (r: Result<
    (Transcript, Option<String>),
    ProviderError,
>)
    ensures
        match response_outcome(
            match body {
                Some(b) => Some(json_view(*b)),
                None => None,
            },
        ) {
            Ok((t, id)) => r is Ok && r->Ok_0.0.schema_version@ == "1"@ && r->Ok_0.0.text@ == t
                && r->Ok_0.0.language is None && r->Ok_0.0.duration_ms == duration_ms
                && r->Ok_0.0.segments@.len() == 0 && crate::providers::mapping::opt_string_view(r->Ok_0.1) == id,
            Err(e) => r is Err && r->Err_0@ == e,
        },
{
    let root = match body {
        Some(b) => b,
        None => {
            return Err(
                ProviderError::protocol("invalid_provider_response", "Xiaomi MiMo 返回的转写响应不是有效 JSON"),
            );
        },
    };
    let content = match root.get_member("choices") {
        Some(c) => match step_zero(c) {
            Some(z) => match z.get_member("message") {
                Some(m) => m.get_member("content"),
                None => None,
            },
            None => None,
        },
        None => None,
    };
    let text = match content {
        Some(JsonValue::String(t)) => {
            if str_is_blank(t.as_str()) {
                return Err(ProviderError::protocol("empty_transcript", "Xiaomi MiMo 返回了空转写"));
            }
            t.clone()
        },
        _ => {
            return Err(ProviderError::protocol("empty_transcript", "Xiaomi MiMo 返回了空转写"));
        },
    };
    let remote_request_id = match root.get_member("id") {
        Some(JsonValue::String(id)) => Some(id.clone()),
        _ => None,
    };
    Ok(
        (
            Transcript {
                schema_version: "1".to_string(),
                text,
                language: None,
                duration_ms,
                segments: Vec::new(),
            },
            remote_request_id,
        ),
    )
}

/// Normalizes a raw chat completion body: the documented outcome on the JSON document of
/// the body.
pub fn parse_response_body(body: &[u8], duration_ms: Option<u64>) -> (r: Result<
    (Transcript, Option<String>),
    ProviderError,
>)
    ensures
        match response_outcome(json_document_bytes(body@)) {
            Ok((t, id)) => r is Ok && r->Ok_0.0.schema_version@ == "1"@ && r->Ok_0.0.text@ == t
                && r->Ok_0.0.language is None && r->Ok_0.0.duration_ms == duration_ms
                && r->Ok_0.0.segments@.len() == 0 && crate::providers::mapping::opt_string_view(r->Ok_0.1) == id,
            Err(e) => r is Err && r->Err_0@ == e,
        },
{
    let parsed = parse_json_bytes(body);
    match &parsed {
        Some(b) => parse_response(Some(b), duration_ms),
        None => parse_response(None, duration_ms),
    }
}

} // verus!
