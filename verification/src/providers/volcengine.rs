//! The rules of the Volcengine recording-file flash recognition adapter: its fixed
//! profile, upload limits, request options, business status header and response shape.

use vstd::prelude::*;

use super::contract::{
    CapabilityEvidence, RemoteAudioFormat, ReplaySafety, TranscriptionCapabilities, TranscriptionOptions,
};
use super::error::{
    configuration_error, protocol_error, provider_error, ProviderError, ProviderErrorCategory, ProviderErrorV,
};
use super::contract::OperationOutcome;
use super::http::{
    ascii_lowercase, header_value, headers_view, PlacementV, ProviderCredentialPlacement, ProviderHttpConfig,
    RawHttpResponse,
};
use super::mapping::input_error;
use crate::json::{json_document_bytes, parse_json_bytes, entries_view, items_view, json_view, lemma_items_view, member_of, push_entry, JsonV, JsonValue};
use crate::minutes::transcript::{Transcript, TranscriptSegment};
use crate::text::{ascii_lower_seq, chars_of, decimal, is_blank, push_decimal, starts_with, starts_with_chars, str_eq, str_is_blank};

verus! {

/// The largest recording the flash endpoint accepts, in bytes.
pub const MAX_AUDIO_BYTES: u64 = 100000000;

/// The longest recording the flash endpoint accepts: two hours, in milliseconds.
pub const MAX_DURATION_MS: u64 = 7200000;

/// The fixed profile the flash endpoint requires: the `bigmodel` model, the
/// `X-Api-Key` header without prefix, and a replay policy no looser than "before the
/// body is sent".
pub open spec fn profile_problem(c: ProviderHttpConfig) -> Option<(Seq<char>, Seq<char>)> {
    if c.model@ != "bigmodel"@ {
        Some(("unsupported_model"@, "火山引擎录音文件极速版模型必须为 bigmodel"@))
    } else if !(c.auth@ matches PlacementV::Header { header_name, prefix } && ascii_lower_seq(header_name)
        == "x-api-key"@ && prefix is None) {
        Some(("unsupported_auth_strategy"@, "火山引擎新控制台预设必须使用 X-Api-Key 鉴权"@))
    } else if !(c.replay_safety == ReplaySafety::BeforeRequestBodySentOnly || c.replay_safety
        == ReplaySafety::NeverAutomaticallyReplay) {
        Some(("unsupported_replay_safety"@, "火山引擎录音识别未验证请求发送后的自动重放安全性"@))
    } else {
        None
    }
}

/// Checks the fixed flash model, the new-console API key header and the replay policy.
pub fn validate_config(config: &ProviderHttpConfig) -> (r: Result<(), ProviderError>)
    ensures
        match profile_problem(*config) {
            Some(e) => r is Err && r->Err_0@ == configuration_error(e.0, e.1),
            None => r is Ok,
        },
{
    if !str_eq(config.model.as_str(), "bigmodel") {
        return Err(
            ProviderError::configuration("unsupported_model", "火山引擎录音文件极速版模型必须为 bigmodel"),
        );
    }
    let valid_auth = match &config.auth {
        ProviderCredentialPlacement::Header { header_name, prefix } => {
            let lower = ascii_lowercase(header_name.as_str());
            str_eq(lower.as_str(), "x-api-key") && prefix.is_none()
        },
        _ => false,
    };
    if !valid_auth {
        return Err(
            ProviderError::configuration(
                "unsupported_auth_strategy",
                "火山引擎新控制台预设必须使用 X-Api-Key 鉴权",
            ),
        );
    }
    match config.replay_safety {
        ReplaySafety::BeforeRequestBodySentOnly | ReplaySafety::NeverAutomaticallyReplay => Ok(()),
        _ => Err(
            ProviderError::configuration(
                "unsupported_replay_safety",
                "火山引擎录音识别未验证请求发送后的自动重放安全性",
            ),
        ),
    }
}

/// The flash format of a media type, compared without regard to ASCII case.
pub open spec fn audio_format_of(mime: Seq<char>) -> Option<Seq<char>> {
    let l = ascii_lower_seq(mime);
    if l == "audio/wav"@ || l == "audio/x-wav"@ || l == "audio/wave"@ {
        Some("wav"@)
    } else if l == "audio/mpeg"@ || l == "audio/mp3"@ {
        Some("mp3"@)
    } else if l == "audio/ogg"@ {
        Some("ogg"@)
    } else if l == "audio/opus"@ {
        Some("opus"@)
    } else {
        None
    }
}

/// Maps a supported media type to the flash endpoint's audio format value.
pub fn audio_format(value: &str) -> (r: Result<&'static str, ProviderError>)
    ensures
        match audio_format_of(value@) {
            Some(f) => r is Ok && r->Ok_0@ == f,
            None => r is Err && r->Err_0@ == input_error(
                "unsupported_audio"@,
                "火山引擎录音文件极速版不支持该媒体类型"@,
            ),
        },
{
    let lower = ascii_lowercase(value);
    let l = lower.as_str();
    if str_eq(l, "audio/wav") || str_eq(l, "audio/x-wav") || str_eq(l, "audio/wave") {
        Ok("wav")
    } else if str_eq(l, "audio/mpeg") || str_eq(l, "audio/mp3") {
        Ok("mp3")
    } else if str_eq(l, "audio/ogg") {
        Ok("ogg")
    } else if str_eq(l, "audio/opus") {
        Ok("opus")
    } else {
        Err(ProviderError::input("unsupported_audio", "火山引擎录音文件极速版不支持该媒体类型"))
    }
}

/// Maps a remote recording format to the flash endpoint's value; M4A is not taken.
pub fn remote_audio_format(value: RemoteAudioFormat) -> (r: Result<&'static str, ProviderError>)
    ensures
        match value {
            RemoteAudioFormat::Wav => r is Ok && r->Ok_0@ == "wav"@,
            RemoteAudioFormat::Mp3 => r is Ok && r->Ok_0@ == "mp3"@,
            RemoteAudioFormat::Ogg => r is Ok && r->Ok_0@ == "ogg"@,
            RemoteAudioFormat::Opus => r is Ok && r->Ok_0@ == "opus"@,
            RemoteAudioFormat::M4a => r is Err && r->Err_0@ == input_error(
                "unsupported_audio"@,
                "火山引擎录音文件极速版不支持该 URL 文件格式"@,
            ),
        },
{
    match value {
        RemoteAudioFormat::Wav => Ok("wav"),
        RemoteAudioFormat::Mp3 => Ok("mp3"),
        RemoteAudioFormat::Ogg => Ok("ogg"),
        RemoteAudioFormat::Opus => Ok("opus"),
        RemoteAudioFormat::M4a => Err(
            ProviderError::input("unsupported_audio", "火山引擎录音文件极速版不支持该 URL 文件格式"),
        ),
    }
}

/// The recording languages the flash endpoint publishes.
pub open spec fn published_language(l: Seq<char>) -> bool {
    ||| l == "zh-CN"@
    ||| l == "en-US"@
    ||| l == "ja-JP"@
    ||| l == "id-ID"@
    ||| l == "es-MX"@
    ||| l == "pt-BR"@
    ||| l == "de-DE"@
    ||| l == "fr-FR"@
    ||| l == "ko-KR"@
    ||| l == "fil-PH"@
    ||| l == "ms-MY"@
    ||| l == "th-TH"@
    ||| l == "ar-SA"@
    ||| l == "it-IT"@
    ||| l == "bn-BD"@
    ||| l == "el-GR"@
    ||| l == "nl-NL"@
    ||| l == "ru-RU"@
    ||| l == "tr-TR"@
    ||| l == "vi-VN"@
    ||| l == "pl-PL"@
    ||| l == "ro-RO"@
    ||| l == "ne-NP"@
    ||| l == "uk-UA"@
    ||| l == "yue-CN"@
}

/// Accepts no language hint or a published one, compared exactly.
pub fn validate_language(value: Option<&str>) -> (r: Result<(), ProviderError>)
    ensures
        match value {
            Some(l) if !published_language(l@) => r is Err && r->Err_0@ == input_error(
                "unsupported_language"@,
                "火山引擎不支持所选录音语言参数"@,
            ),
            _ => r is Ok,
        },
{
    let l = match value {
        Some(l) => l,
        None => {
            return Ok(());
        },
    };
    let known = str_eq(l, "zh-CN") || str_eq(l, "en-US") || str_eq(l, "ja-JP") || str_eq(l, "id-ID")
        || str_eq(l, "es-MX") || str_eq(l, "pt-BR") || str_eq(l, "de-DE") || str_eq(l, "fr-FR")
        || str_eq(l, "ko-KR") || str_eq(l, "fil-PH") || str_eq(l, "ms-MY") || str_eq(l, "th-TH")
        || str_eq(l, "ar-SA") || str_eq(l, "it-IT") || str_eq(l, "bn-BD") || str_eq(l, "el-GR")
        || str_eq(l, "nl-NL") || str_eq(l, "ru-RU") || str_eq(l, "tr-TR") || str_eq(l, "vi-VN")
        || str_eq(l, "pl-PL") || str_eq(l, "ro-RO") || str_eq(l, "ne-NP") || str_eq(l, "uk-UA")
        || str_eq(l, "yue-CN");
    if known {
        Ok(())
    } else {
        Err(ProviderError::input("unsupported_language", "火山引擎不支持所选录音语言参数"))
    }
}

/// The refusal of requested options: confidence and speaker labels are not normalized,
/// and a language hint must be published.
pub open spec fn options_problem(options: TranscriptionOptions) -> Option<(Seq<char>, Seq<char>)> {
    if options.enable_confidence || options.enable_speaker_labels {
        Some(("unsupported_option"@, "当前火山引擎适配器尚未归一化置信度或说话人字段"@))
    } else if options.language_hint matches Some(l) && !published_language(l@) {
        Some(("unsupported_language"@, "火山引擎不支持所选录音语言参数"@))
    } else {
        None
    }
}

/// Checks the normalized options shared by local and URL recordings.
pub fn validate_options(options: &TranscriptionOptions) -> (r: Result<(), ProviderError>)
    ensures
        match options_problem(*options) {
            Some(e) => r is Err && r->Err_0@ == input_error(e.0, e.1),
            None => r is Ok,
        },
{
    if options.enable_confidence || options.enable_speaker_labels {
        return Err(
            ProviderError::input(
                "unsupported_option",
                "当前火山引擎适配器尚未归一化置信度或说话人字段",
            ),
        );
    }
    match &options.language_hint {
        Some(l) => validate_language(Some(l.as_str())),
        None => validate_language(None),
    }
}

/// The format of a local upload, or why it is refused: empty audio, a size or a
/// duration over the endpoint's limits, the options, then the media type.
pub open spec fn preflight_outcome(
    byte_length: u64,
    duration_ms: Option<u64>,
    options: TranscriptionOptions,
    mime: Seq<char>,
) -> Result<Seq<char>, (Seq<char>, Seq<char>)> {
    if byte_length == 0 {
        Err(("empty_audio"@, "音频文件为空"@))
    } else if byte_length > MAX_AUDIO_BYTES {
        Err(("file_too_large"@, "音频文件超过火山引擎录音文件极速版的 100 MB 限制"@))
    } else if duration_ms matches Some(d) && d > MAX_DURATION_MS {
        Err(("duration_limit_exceeded"@, "音频时长超过火山引擎录音文件极速版的 2 小时限制"@))
    } else if options_problem(options) is Some {
        Err(options_problem(options)->Some_0)
    } else {
        match audio_format_of(mime) {
            Some(f) => Ok(f),
            None => Err(("unsupported_audio"@, "火山引擎录音文件极速版不支持该媒体类型"@)),
        }
    }
}

/// Refuses an unsupported local recording before anything is sent, and gives its format.
pub fn preflight(
    byte_length: u64,
    duration_ms: Option<u64>,
    options: &TranscriptionOptions,
    mime_type: &str,
) -> (r: Result<&'static str, ProviderError>)
    ensures
        match preflight_outcome(byte_length, duration_ms, *options, mime_type@) {
            Ok(f) => r is Ok && r->Ok_0@ == f,
            Err(e) => r is Err && r->Err_0@ == input_error(e.0, e.1),
        },
{
    if byte_length == 0 {
        return Err(ProviderError::input("empty_audio", "音频文件为空"));
    }
    if byte_length > MAX_AUDIO_BYTES {
        return Err(
            ProviderError::input("file_too_large", "音频文件超过火山引擎录音文件极速版的 100 MB 限制"),
        );
    }
    match duration_ms {
        Some(d) => {
            if d > MAX_DURATION_MS {
                return Err(
                    ProviderError::input(
                        "duration_limit_exceeded",
                        "音频时长超过火山引擎录音文件极速版的 2 小时限制",
                    ),
                );
            }
        },
        None => {},
    }
    validate_options(options)?;
    audio_format(mime_type)
}

/// The format of a remote recording, or why it is refused: a known size or duration over
/// the endpoint's limits, the options, then the format.
pub open spec fn preflight_url_outcome(
    byte_length: Option<u64>,
    duration_ms: Option<u64>,
    options: TranscriptionOptions,
    format: RemoteAudioFormat,
) -> Result<Seq<char>, (Seq<char>, Seq<char>)> {
    if byte_length matches Some(b) && b > MAX_AUDIO_BYTES {
        Err(("file_too_large"@, "录音文件超过火山引擎录音文件极速版的 100 MB 限制"@))
    } else if duration_ms matches Some(d) && d > MAX_DURATION_MS {
        Err(("duration_limit_exceeded"@, "录音时长超过火山引擎录音文件极速版的 2 小时限制"@))
    } else if options_problem(options) is Some {
        Err(options_problem(options)->Some_0)
    } else {
        match format {
            RemoteAudioFormat::Wav => Ok("wav"@),
            RemoteAudioFormat::Mp3 => Ok("mp3"@),
            RemoteAudioFormat::Ogg => Ok("ogg"@),
            RemoteAudioFormat::Opus => Ok("opus"@),
            RemoteAudioFormat::M4a => Err(("unsupported_audio"@, "火山引擎录音文件极速版不支持该 URL 文件格式"@)),
        }
    }
}

/// Checks the known metadata of a remote recording before the provider fetches it.
pub fn preflight_url(
    byte_length: Option<u64>,
    duration_ms: Option<u64>,
    options: &TranscriptionOptions,
    format: RemoteAudioFormat,
) -> (r: Result<&'static str, ProviderError>)
    ensures
        match preflight_url_outcome(byte_length, duration_ms, *options, format) {
            Ok(f) => r is Ok && r->Ok_0@ == f,
            Err(e) => r is Err && r->Err_0@ == input_error(e.0, e.1),
        },
{
    match byte_length {
        Some(b) => {
            if b > MAX_AUDIO_BYTES {
                return Err(
                    ProviderError::input("file_too_large", "录音文件超过火山引擎录音文件极速版的 100 MB 限制"),
                );
            }
        },
        None => {},
    }
    match duration_ms {
        Some(d) => {
            if d > MAX_DURATION_MS {
                return Err(
                    ProviderError::input(
                        "duration_limit_exceeded",
                        "录音时长超过火山引擎录音文件极速版的 2 小时限制",
                    ),
                );
            }
        },
        None => {},
    }
    validate_options(options)?;
    remote_audio_format(format)
}

/// The error a business status other than success stands for.
pub open spec fn status_error(s: Seq<char>) -> ProviderErrorV {
    if s == "20000003"@ {
        input_error("empty_transcript"@, "火山引擎未检测到人声"@)
    } else if s == "45000002"@ {
        input_error("empty_audio"@, "火山引擎判定音频为空"@)
    } else if s == "45000151"@ {
        input_error("unsupported_audio"@, "火山引擎无法识别该音频格式"@)
    } else if s == "45000001"@ {
        provider_error(
            "invalid_provider_request"@,
            ProviderErrorCategory::Provider,
            false,
            false,
            "火山引擎拒绝了请求参数"@,
            None,
            None,
            OperationOutcome::Rejected,
        )
    } else if starts_with(s, "550"@) {
        provider_error(
            "provider_unavailable"@,
            ProviderErrorCategory::Provider,
            true,
            false,
            "火山引擎服务暂时不可用"@,
            None,
            None,
            OperationOutcome::Failed,
        )
    } else {
        provider_error(
            "provider_rejected_request"@,
            ProviderErrorCategory::Provider,
            false,
            false,
            "火山引擎返回了未识别的业务错误"@,
            None,
            None,
            OperationOutcome::Rejected,
        )
    }
}

/// The outcome of a response's business status header: success, a missing header, or
/// the error the status stands for, carrying the response's log ID.
pub open spec fn status_outcome(headers: Seq<(Seq<char>, Seq<char>)>) -> Result<(), ProviderErrorV> {
    match header_value(headers, "x-api-status-code"@, 0) {
        None => Err(protocol_error("invalid_provider_response"@, "火山引擎响应缺少业务状态码"@)),
        Some(s) => if s == "20000000"@ {
            Ok(())
        } else {
            Err(ProviderErrorV { remote_request_id: header_value(headers, "x-tt-logid"@, 0), ..status_error(s) })
        },
    }
}

/// The error of a business status other than success.
fn error_for_status(status: &str) -> (r: ProviderError)
    ensures
        r@ == status_error(status@),
{
    if str_eq(status, "20000003") {
        ProviderError::input("empty_transcript", "火山引擎未检测到人声")
    } else if str_eq(status, "45000002") {
        ProviderError::input("empty_audio", "火山引擎判定音频为空")
    } else if str_eq(status, "45000151") {
        ProviderError::input("unsupported_audio", "火山引擎无法识别该音频格式")
    } else if str_eq(status, "45000001") {
        ProviderError::new(
            "invalid_provider_request",
            ProviderErrorCategory::Provider,
            false,
            false,
            "火山引擎拒绝了请求参数",
            None,
            None,
            OperationOutcome::Rejected,
        )
    } else if starts_with_chars(chars_of(status).as_slice(), chars_of("550").as_slice()) {
        ProviderError::new(
            "provider_unavailable",
            ProviderErrorCategory::Provider,
            true,
            false,
            "火山引擎服务暂时不可用",
            None,
            None,
            OperationOutcome::Failed,
        )
    } else {
        ProviderError::new(
            "provider_rejected_request",
            ProviderErrorCategory::Provider,
            false,
            false,
            "火山引擎返回了未识别的业务错误",
            None,
            None,
            OperationOutcome::Rejected,
        )
    }
}

/// Classifies the business status header without keeping any remote message.
pub fn validate_provider_status(response: &RawHttpResponse) -> (r: Result<(), ProviderError>)
    ensures
        match status_outcome(headers_view(response.headers@)) {
            Ok(()) => r is Ok,
            Err(e) => r is Err && r->Err_0@ == e,
        },
{
    let status = match response.header("x-api-status-code") {
        Some(s) => s,
        None => {
            return Err(ProviderError::protocol("invalid_provider_response", "火山引擎响应缺少业务状态码"));
        },
    };
    if str_eq(status, "20000000") {
        return Ok(());
    }
    let remote_request_id = match response.header("x-tt-logid") {
        Some(id) => Some(id.to_string()),
        None => None,
    };
    Err(error_for_status(status).with_remote_request_id(remote_request_id))
}

/// The limits and output fields the flash endpoint documents.
pub fn capabilities(replay_safety: ReplaySafety) -> (r: TranscriptionCapabilities)
    ensures
        r.evidence == CapabilityEvidence::Verified,
        r.accepted_media_types@.map_values(|t: String| t@) == seq![
            "audio/wav"@,
            "audio/mpeg"@,
            "audio/mp3"@,
            "audio/ogg"@,
            "audio/opus"@,
        ],
        r.max_audio_bytes == Some(MAX_AUDIO_BYTES),
        r.max_duration_ms == Some(MAX_DURATION_MS),
        !r.supports_async_jobs,
        r.supports_timestamps,
        !r.supports_speaker_labels,
        !r.supports_confidence,
        !r.supports_remote_cancel,
        r.supports_remote_urls,
        r.replay_safety == replay_safety,
{
    let mut types: Vec<String> = Vec::new();
    types.push("audio/wav".to_string());
    types.push("audio/mpeg".to_string());
    types.push("audio/mp3".to_string());
    types.push("audio/ogg".to_string());
    types.push("audio/opus".to_string());
    proof {
        assert(types@.map_values(|t: String| t@) =~= seq![
            "audio/wav"@,
            "audio/mpeg"@,
            "audio/mp3"@,
            "audio/ogg"@,
            "audio/opus"@,
        ]);
    }
    TranscriptionCapabilities {
        evidence: CapabilityEvidence::Verified,
        accepted_media_types: types,
        max_audio_bytes: Some(MAX_AUDIO_BYTES),
        max_duration_ms: Some(MAX_DURATION_MS),
        supports_async_jobs: false,
        supports_timestamps: true,
        supports_speaker_labels: false,
        supports_confidence: false,
        supports_remote_cancel: false,
        supports_remote_urls: true,
        replay_safety,
    }
}

/// A member two levels down.
pub open spec fn member_at(v: JsonV, outer: Seq<char>, inner: Seq<char>) -> Option<JsonV> {
    match member_of(v, outer) {
        Some(o) => member_of(o, inner),
        None => None,
    }
}

/// The `u64` value of an optional JSON number; any other value gives nothing.
pub open spec fn unsigned_of(v: Option<JsonV>) -> Option<u64> {
    match v {
        Some(JsonV::Number(_, u)) => u,
        _ => None,
    }
}

/// The identifier of the segment at `index`: `segment-` and its one-based position.
pub open spec fn segment_id(index: int) -> Seq<char> {
    "segment-"@ + decimal((index + 1) as nat)
}

/// The segment an utterance stands for, when it has a text.
pub open spec fn utterance_segment(item: JsonV, index: int) -> Option<crate::minutes::transcript::SegmentV> {
    match member_of(item, "text"@) {
        Some(JsonV::Str(t)) => Some(
            crate::minutes::transcript::SegmentV {
                id: segment_id(index),
                start_ms: unsigned_of(member_of(item, "start_time"@)),
                end_ms: unsigned_of(member_of(item, "end_time"@)),
                speaker_label: None,
                text: t,
                confidence_bits: None,
            },
        ),
        _ => None,
    }
}

/// Whether every utterance has a text.
pub open spec fn utterances_complete(items: Seq<JsonV>) -> bool {
    forall|i: int| 0 <= i < items.len() ==> #[trigger] utterance_segment(items[i], i) is Some
}

/// The segments a response body holds, or why they cannot be read: no utterances give
/// none; utterances that are not an array, or one without text, are refused.
pub open spec fn segments_outcome(body: JsonV) -> Result<Seq<crate::minutes::transcript::SegmentV>, (Seq<char>, Seq<char>)> {
    match member_at(body, "result"@, "utterances"@) {
        None => Ok(Seq::empty()),
        Some(JsonV::Array(items)) => if utterances_complete(items) {
            Ok(Seq::new(items.len(), |i: int| utterance_segment(items[i], i)->Some_0))
        } else {
            Err(("invalid_provider_response"@, "火山引擎分句缺少文本字段"@))
        },
        Some(_) => Err(("invalid_provider_response"@, "火山引擎分句字段格式无效"@)),
    }
}

/// The view of segments.
pub open spec fn segments_view(s: Seq<TranscriptSegment>) -> Seq<crate::minutes::transcript::SegmentV> {
    s.map_values(|x: TranscriptSegment| x@)
}

/// The member two levels down, when both exist.
fn member_at_exec<'a>(v: &'a JsonValue, outer: &str, inner: &str) -> (r: Option<&'a JsonValue>)
    ensures
        match member_at(json_view(*v), outer@, inner@) {
            Some(x) => r is Some && json_view(*r->Some_0) == x,
            None => r is None,
        },
{
    match v.get_member(outer) {
        Some(o) => o.get_member(inner),
        None => None,
    }
}

/// The `u64` value of an optional member.
fn unsigned_member(v: &JsonValue, key: &str) -> (r: Option<u64>)
    ensures
        r == unsigned_of(member_of(json_view(*v), key@)),
{
    match v.get_member(key) {
        Some(JsonValue::Number(n)) => n.unsigned,
        _ => None,
    }
}

/// Reads the documented utterances: their text and millisecond timestamps, nothing more.
pub fn parse_segments(body: &JsonValue) -> (r: Result<Vec<TranscriptSegment>, ProviderError>)
    ensures
        match segments_outcome(json_view(*body)) {
            Ok(segs) => r is Ok && segments_view(r->Ok_0@) == segs,
            Err(e) => r is Err && r->Err_0@ == protocol_error(e.0, e.1),
        },
{
    let utterances = match member_at_exec(body, "result", "utterances") {
        Some(u) => u,
        None => {
            proof {
                assert(segments_view(Seq::<TranscriptSegment>::empty()) =~= Seq::empty());
            }
            return Ok(Vec::new());
        },
    };
    let items = match utterances {
        JsonValue::Array(items) => items,
        _ => {
            return Err(ProviderError::protocol("invalid_provider_response", "火山引擎分句字段格式无效"));
        },
    };
    let ghost iv = items_view(items@);
    proof {
        lemma_items_view(items@);
    }
    let mut out: Vec<TranscriptSegment> = Vec::new();
    let mut i: usize = 0;
    while i < items.len()
        invariant
            i <= items@.len(),
            iv == items_view(items@),
            member_at(json_view(*body), "result"@, "utterances"@) == Some(JsonV::Array(iv)),
            iv.len() == items@.len(),
            forall|k: int| 0 <= k < items@.len() ==> #[trigger] iv[k] == json_view(items@[k]),
            out@.len() == i,
            forall|k: int| 0 <= k < i ==> #[trigger] utterance_segment(iv[k], k) is Some,
            forall|k: int| 0 <= k < i ==> (#[trigger] out@[k])@ == utterance_segment(iv[k], k)->Some_0,
        decreases items@.len() - i,
    {
        let item = &items[i];
        let text = match item.get_member("text") {
            Some(JsonValue::String(t)) => t.clone(),
            _ => {
                proof {
                    assert(utterance_segment(iv[i as int], i as int) is None);
                }
                return Err(ProviderError::protocol("invalid_provider_response", "火山引擎分句缺少文本字段"));
            },
        };
        let mut id = "segment-".to_string();
        push_decimal(&mut id, (i + 1) as u64);
        let seg = TranscriptSegment {
            id,
            start_ms: unsigned_member(item, "start_time"),
            end_ms: unsigned_member(item, "end_time"),
            speaker_label: None,
            text,
            confidence_bits: None,
        };
        proof {
            assert(json_view(*item) == iv[i as int]);
            assert(utterance_segment(iv[i as int], i as int) is Some);
            assert(seg@ == utterance_segment(iv[i as int], i as int)->Some_0);
        }
        let ghost before = out@;
        out.push(seg);
        proof {
            assert forall|k: int| 0 <= k < i + 1 implies (#[trigger] out@[k])@ == utterance_segment(iv[k], k)->Some_0 by {
                if k < i {
                    assert(out@[k] == before[k]);
                }
            }
        }
        i = i + 1;
    }
    proof {
        assert(utterances_complete(iv));
        assert(segments_view(out@) =~= Seq::new(iv.len(), |k: int| utterance_segment(iv[k], k)->Some_0));
    }
    Ok(out)
}

/// The transcript of a successful flash response, or why it is refused: the business
/// status, a body that is not JSON, an empty text, then the segments; the duration comes
/// from the response or else from what was known of the upload.
pub open spec fn response_outcome(
    headers: Seq<(Seq<char>, Seq<char>)>,
    body: Option<JsonV>,
    fallback_duration_ms: Option<u64>,
) -> Result<(Seq<char>, Option<u64>, Seq<crate::minutes::transcript::SegmentV>), ProviderErrorV> {
    match status_outcome(headers) {
        Err(e) => Err(e),
        Ok(()) => match body {
            None => Err(protocol_error("invalid_provider_response"@, "火山引擎返回的转写响应不是有效 JSON"@)),
            Some(b) => match member_at(b, "result"@, "text"@) {
                Some(JsonV::Str(t)) if !is_blank(t) => match segments_outcome(b) {
                    Err(e) => Err(protocol_error(e.0, e.1)),
                    Ok(segs) => Ok(
                        (
                            t,
                            match unsigned_of(member_at(b, "audio_info"@, "duration"@)) {
                                Some(d) => Some(d),
                                None => fallback_duration_ms,
                            },
                            segs,
                        ),
                    ),
                },
                _ => Err(protocol_error("empty_transcript"@, "火山引擎返回了空转写"@)),
            },
        },
    }
}

/// Normalizes the full text and documented utterances of a flash response; `body` is
/// the parsed body, `None` when it was not JSON.
pub fn parse_response(
    response: &RawHttpResponse,
    body: Option<&JsonValue>,
    fallback_duration_ms: Option<u64>,
) -> (r: Result<Transcript, ProviderError>)
    ensures
        match response_outcome(
            headers_view(response.headers@),
            match body {
                Some(b) => Some(json_view(*b)),
                None => None,
            },
            fallback_duration_ms,
        ) {
            Ok((t, d, segs)) => r is Ok && r->Ok_0.schema_version@ == "1"@ && r->Ok_0.text@ == t
                && r->Ok_0.language is None && r->Ok_0.duration_ms == d && segments_view(r->Ok_0.segments@)
                == segs,
            Err(e) => r is Err && r->Err_0@ == e,
        },
{
    validate_provider_status(response)?;
    let root = match body {
        Some(b) => b,
        None => {
            return Err(
                ProviderError::protocol("invalid_provider_response", "火山引擎返回的转写响应不是有效 JSON"),
            );
        },
    };
    let text = match member_at_exec(root, "result", "text") {
        Some(JsonValue::String(t)) => {
            if str_is_blank(t.as_str()) {
                return Err(ProviderError::protocol("empty_transcript", "火山引擎返回了空转写"));
            }
            t.clone()
        },
        _ => {
            return Err(ProviderError::protocol("empty_transcript", "火山引擎返回了空转写"));
        },
    };
    let segments = parse_segments(root)?;
    let duration_ms = match member_at_exec(root, "audio_info", "duration") {
        Some(JsonValue::Number(n)) => match n.unsigned {
            Some(d) => Some(d),
            None => fallback_duration_ms,
        },
        _ => fallback_duration_ms,
    };
    Ok(Transcript { schema_version: "1".to_string(), text, language: None, duration_ms, segments })
}

/// The `audio` object of a request: the source (`data` for Base64 audio, `url` for a
/// remote recording), the format, and the language when one is hinted.
pub open spec fn audio_view(source_key: Seq<char>, source: Seq<char>, format: Seq<char>, language: Option<Seq<char>>) -> JsonV {
    let base = seq![(source_key, JsonV::Str(source)), ("format"@, JsonV::Str(format))];
    JsonV::Object(
        match language {
            Some(l) => base.push(("language"@, JsonV::Str(l))),
            None => base,
        },
    )
}

/// Builds the `audio` object of a request.
pub fn audio_object(source_key: &str, source: &str, format: &str, language_hint: Option<&str>) -> (r: JsonValue)
    ensures
        json_view(r) == audio_view(
            source_key@,
            source@,
            format@,
            match language_hint {
                Some(l) => Some(l@),
                None => None,
            },
        ),
{
    proof {
        assert(entries_view(Seq::<(String, JsonValue)>::empty()) =~= Seq::empty());
    }
    let mut entries: Vec<(String, JsonValue)> = Vec::new();
    push_entry(&mut entries, source_key, JsonValue::String(source.to_string()));
    push_entry(&mut entries, "format", JsonValue::String(format.to_string()));
    match language_hint {
        Some(l) => {
            push_entry(&mut entries, "language", JsonValue::String(l.to_string()));
        },
        None => {},
    }
    let ghost base = seq![(source_key@, JsonV::Str(source@)), ("format"@, JsonV::Str(format@))];
    proof {
        match language_hint {
            Some(l) => {
                assert(entries_view(entries@) =~= base.push(("language"@, JsonV::Str(l@))));
            },
            None => {
                assert(entries_view(entries@) =~= base);
            },
        }
    }
    JsonValue::Object(entries)
}

/// The recognition options every flash request carries.
pub open spec fn recognition_options_view(model: Seq<char>) -> JsonV {
    JsonV::Object(
        seq![
            ("model_name"@, JsonV::Str(model)),
            ("enable_itn"@, JsonV::Bool(true)),
            ("enable_punc"@, JsonV::Bool(true)),
            ("enable_ddc"@, JsonV::Bool(true)),
            ("show_utterances"@, JsonV::Bool(true)),
            ("enable_speaker_info"@, JsonV::Bool(false)),
        ],
    )
}

/// The documented request body: the user, the audio object and the recognition options.
pub open spec fn request_body_view(task_id: Seq<char>, audio: JsonV, model: Seq<char>) -> JsonV {
    JsonV::Object(
        seq![
            ("user"@, JsonV::Object(seq![("uid"@, JsonV::Str(task_id))])),
            ("audio"@, audio),
            ("request"@, recognition_options_view(model)),
        ],
    )
}

/// Builds the documented request body around an `audio` object.
pub fn request_body(task_id: &str, audio: JsonValue, model: &str) -> (r: JsonValue)
    ensures
        json_view(r) == request_body_view(task_id@, json_view(audio), model@),
{
    proof {
        assert(entries_view(Seq::<(String, JsonValue)>::empty()) =~= Seq::empty());
    }
    let ghost audio_v = json_view(audio);
    let mut user_entries: Vec<(String, JsonValue)> = Vec::new();
    push_entry(&mut user_entries, "uid", JsonValue::String(task_id.to_string()));
    assert(entries_view(user_entries@) =~= seq![("uid"@, JsonV::Str(task_id@))]);
    let user = JsonValue::Object(user_entries);
    let mut options: Vec<(String, JsonValue)> = Vec::new();
    push_entry(&mut options, "model_name", JsonValue::String(model.to_string()));
    push_entry(&mut options, "enable_itn", JsonValue::Bool(true));
    push_entry(&mut options, "enable_punc", JsonValue::Bool(true));
    push_entry(&mut options, "enable_ddc", JsonValue::Bool(true));
    push_entry(&mut options, "show_utterances", JsonValue::Bool(true));
    push_entry(&mut options, "enable_speaker_info", JsonValue::Bool(false));
    assert(entries_view(options@) =~= seq![
        ("model_name"@, JsonV::Str(model@)),
        ("enable_itn"@, JsonV::Bool(true)),
        ("enable_punc"@, JsonV::Bool(true)),
        ("enable_ddc"@, JsonV::Bool(true)),
        ("show_utterances"@, JsonV::Bool(true)),
        ("enable_speaker_info"@, JsonV::Bool(false)),
    ]);
    let request = JsonValue::Object(options);
    assert(json_view(request) == recognition_options_view(model@));
    let mut body: Vec<(String, JsonValue)> = Vec::new();
    push_entry(&mut body, "user", user);
    push_entry(&mut body, "audio", audio);
    push_entry(&mut body, "request", request);
    assert(entries_view(body@) =~= seq![
        ("user"@, JsonV::Object(seq![("uid"@, JsonV::Str(task_id@))])),
        ("audio"@, audio_v),
        ("request"@, recognition_options_view(model@)),
    ]);
    JsonValue::Object(body)
}

/// The request headers the flash endpoint requires, in name order: the operation's
/// request ID, the flash resource ID, and the one-shot sequence number.
pub fn request_headers(operation_id: &str) -> (r: Vec<(String, String)>)
    ensures
        r@.map_values(|h: (String, String)| (h.0@, h.1@)) == seq![
            ("X-Api-Request-Id"@, operation_id@),
            ("X-Api-Resource-Id"@, "volc.bigasr.auc_turbo"@),
            ("X-Api-Sequence"@, "-1"@),
        ],
{
    let mut headers: Vec<(String, String)> = Vec::new();
    headers.push(("X-Api-Request-Id".to_string(), operation_id.to_string()));
    headers.push(("X-Api-Resource-Id".to_string(), "volc.bigasr.auc_turbo".to_string()));
    headers.push(("X-Api-Sequence".to_string(), "-1".to_string()));
    proof {
        assert(headers@.map_values(|h: (String, String)| (h.0@, h.1@)) =~= seq![
            ("X-Api-Request-Id"@, operation_id@),
            ("X-Api-Resource-Id"@, "volc.bigasr.auc_turbo"@),
            ("X-Api-Sequence"@, "-1"@),
        ]);
    }
    headers
}

/// Normalizes a raw flash recognition response: the status headers first, then the
/// documented outcome on the JSON document of the body.
pub fn parse_response_body(response: &RawHttpResponse, fallback_duration_ms: Option<u64>) -> (r: Result<
    Transcript,
    ProviderError,
>)
    ensures
        match response_outcome(headers_view(response.headers@), json_document_bytes(response.body@), fallback_duration_ms) {
            Ok((t, d, segs)) => r is Ok && r->Ok_0.schema_version@ == "1"@ && r->Ok_0.text@ == t
                && r->Ok_0.language is None && r->Ok_0.duration_ms == d && segments_view(r->Ok_0.segments@)
                == segs,
            Err(e) => r is Err && r->Err_0@ == e,
        },
{
    let parsed = parse_json_bytes(response.body.as_slice());
    match &parsed {
        Some(b) => parse_response(response, Some(b), fallback_duration_ms),
        None => parse_response(response, None, fallback_duration_ms),
    }
}

} // verus!
