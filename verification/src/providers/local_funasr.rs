//! The decisions of the local SenseVoiceSmall adapter: which media it stages, what its
//! model directories must hold, what the inference process's exit means, and how its
//! JSON result becomes a transcript. Files and the process stay with the caller.

use vstd::prelude::*;

use super::contract::{CapabilityEvidence, OperationOutcome, ReplaySafety, TranscriptionCapabilities};
use super::error::{configuration_error, protocol_error, provider_error, ProviderError, ProviderErrorCategory, ProviderErrorV};
use super::mapping::input_error;
use crate::minutes::transcript::{Transcript, TranscriptSegment};
use crate::text::{decimal, is_blank, push_decimal, str_eq, str_is_blank};

verus! {

/// The largest inference result read, in bytes.
pub const MAX_OUTPUT_BYTES: u64 = 16777216;

/// A sanitized local resource failure: not retried, safe to run again.
pub open spec fn local_resource(code: Seq<char>, message: Seq<char>) -> ProviderErrorV {
    provider_error(code, ProviderErrorCategory::LocalResource, false, true, message, None, None, OperationOutcome::Failed)
}

/// Creates a sanitized local resource error without paths or process output.
pub fn local_resource_error(code: &str, message: &str) -> (r: ProviderError)
    ensures
        r@ == local_resource(code@, message@),
{
    ProviderError::new(code, ProviderErrorCategory::LocalResource, false, true, message, None, None, OperationOutcome::Failed)
}

/// The timeout of local inference.
pub open spec fn local_timeout() -> ProviderErrorV {
    provider_error(
        "local_funasr_timeout"@,
        ProviderErrorCategory::Timeout,
        false,
        true,
        "本地语音转写超过设置的超时时间"@,
        None,
        None,
        OperationOutcome::Unknown,
    )
}

/// Creates the timeout error of local inference.
pub fn local_timeout_error() -> (r: ProviderError)
    ensures
        r@ == local_timeout(),
{
    ProviderError::new(
        "local_funasr_timeout",
        ProviderErrorCategory::Timeout,
        false,
        true,
        "本地语音转写超过设置的超时时间",
        None,
        None,
        OperationOutcome::Unknown,
    )
}

/// The file suffix a staged media type gets; the media types are compared exactly.
pub open spec fn suffix_of(mime: Seq<char>) -> Option<Seq<char>> {
    if mime == "audio/mpeg"@ {
        Some("mp3"@)
    } else if mime == "audio/wav"@ || mime == "audio/x-wav"@ {
        Some("wav"@)
    } else if mime == "audio/mp4"@ {
        Some("m4a"@)
    } else if mime == "video/mp4"@ {
        Some("mp4"@)
    } else if mime == "video/quicktime"@ {
        Some("mov"@)
    } else {
        None
    }
}

/// Maps a validated media type to a safe temporary file suffix.
pub fn media_suffix(mime_type: &str) -> (r: Result<&'static str, ProviderError>)
    ensures
        match suffix_of(mime_type@) {
            Some(s) => r is Ok && r->Ok_0@ == s,
            None => r is Err && r->Err_0@ == input_error("unsupported_audio"@, "本地模型不支持该媒体格式"@),
        },
{
    if str_eq(mime_type, "audio/mpeg") {
        Ok("mp3")
    } else if str_eq(mime_type, "audio/wav") || str_eq(mime_type, "audio/x-wav") {
        Ok("wav")
    } else if str_eq(mime_type, "audio/mp4") {
        Ok("m4a")
    } else if str_eq(mime_type, "video/mp4") {
        Ok("mp4")
    } else if str_eq(mime_type, "video/quicktime") {
        Ok("mov")
    } else {
        Err(ProviderError::input("unsupported_audio", "本地模型不支持该媒体格式"))
    }
}

/// The capabilities of local inference: five media types, VAD segment timestamps,
/// nothing remote, always safe to run again.
pub fn capabilities() -> (r: TranscriptionCapabilities)
    ensures
        r.evidence == CapabilityEvidence::Verified,
        r.accepted_media_types@.map_values(|t: String| t@) == seq![
            "audio/mpeg"@,
            "audio/wav"@,
            "audio/mp4"@,
            "video/mp4"@,
            "video/quicktime"@,
        ],
        r.max_audio_bytes is None,
        r.max_duration_ms is None,
        !r.supports_async_jobs,
        r.supports_timestamps,
        !r.supports_speaker_labels,
        !r.supports_confidence,
        !r.supports_remote_cancel,
        !r.supports_remote_urls,
        r.replay_safety == ReplaySafety::VerifiedAlwaysSafe,
{
    let mut types: Vec<String> = Vec::new();
    types.push("audio/mpeg".to_string());
    types.push("audio/wav".to_string());
    types.push("audio/mp4".to_string());
    types.push("video/mp4".to_string());
    types.push("video/quicktime".to_string());
    proof {
        assert(types@.map_values(|t: String| t@) =~= seq![
            "audio/mpeg"@,
            "audio/wav"@,
            "audio/mp4"@,
            "video/mp4"@,
            "video/quicktime"@,
        ]);
    }
    TranscriptionCapabilities {
        evidence: CapabilityEvidence::Verified,
        accepted_media_types: types,
        max_audio_bytes: None,
        max_duration_ms: None,
        supports_async_jobs: false,
        supports_timestamps: true,
        supports_speaker_labels: false,
        supports_confidence: false,
        supports_remote_cancel: false,
        supports_remote_urls: false,
        replay_safety: ReplaySafety::VerifiedAlwaysSafe,
    }
}

/// The language argument of inference: a supported hint, else `auto`.
pub open spec fn language_argument_of(hint: Option<Seq<char>>) -> Seq<char> {
    match hint {
        Some(l) => if l == "zh"@ || l == "en"@ || l == "yue"@ || l == "ja"@ || l == "ko"@ {
            l
        } else {
            "auto"@
        },
        None => "auto"@,
    }
}

/// Picks the language argument passed to the inference script.
pub fn language_argument(hint: Option<&str>) -> (r: &str)
    ensures
        r@ == language_argument_of(
            match hint {
                Some(l) => Some(l@),
                None => None,
            },
        ),
{
    match hint {
        Some(l) => {
            if str_eq(l, "zh") || str_eq(l, "en") || str_eq(l, "yue") || str_eq(l, "ja") || str_eq(l, "ko") {
                l
            } else {
                "auto"
            }
        },
        None => "auto",
    }
}

/// The first problem of a model directory, from what the caller found on disk: the
/// SenseVoiceSmall directory, its three required files, the sibling `fsmn-vad` directory,
/// then its four required files (a file counts when it is a non-empty regular file).
pub open spec fn model_directory_problem(
    model_is_dir: bool,
    model_files_valid: Seq<bool>,
    vad_is_dir: bool,
    vad_files_valid: Seq<bool>,
) -> Option<(Seq<char>, Seq<char>)> {
    if !model_is_dir {
        Some(("local_funasr_model_missing"@, "所选目录不是有效的 SenseVoiceSmall 模型目录"@))
    } else if exists|i: int| 0 <= i < model_files_valid.len() && !#[trigger] model_files_valid[i] {
        Some(("local_funasr_model_incomplete"@, "模型目录不完整，需要包含 config.yaml、model.pt 和 tokens.json"@))
    } else if !vad_is_dir {
        Some(("local_funasr_vad_model_missing"@, "缺少同级 fsmn-vad 模型目录，请将其放在 SenseVoiceSmall 旁边"@))
    } else if exists|i: int| 0 <= i < vad_files_valid.len() && !#[trigger] vad_files_valid[i] {
        Some(
            (
                "local_funasr_vad_model_incomplete"@,
                "fsmn-vad 模型目录不完整，需要包含 config.yaml、configuration.json、model.pt 和 am.mvn"@,
            ),
        )
    } else {
        None
    }
}

/// Whether every flag holds.
fn all_true(flags: &[bool]) -> (r: bool)
    ensures
        r <==> !(exists|i: int| 0 <= i < flags@.len() && !#[trigger] flags@[i]),
{
    let mut i: usize = 0;
    while i < flags.len()
        invariant
            i <= flags@.len(),
            forall|k: int| 0 <= k < i ==> #[trigger] flags@[k],
        decreases flags@.len() - i,
    {
        if !flags[i] {
            return false;
        }
        i = i + 1;
    }
    true
}

/// Checks a model directory from the facts found on disk, in the order the required
/// files are listed (`config.yaml`, `model.pt`, `tokens.json`; then `config.yaml`,
/// `configuration.json`, `model.pt`, `am.mvn` of `fsmn-vad`).
pub fn check_model_directory(
    model_is_dir: bool,
    model_files_valid: &[bool],
    vad_is_dir: bool,
    vad_files_valid: &[bool],
) -> (r: Result<(), ProviderError>)
    ensures
        match model_directory_problem(model_is_dir, model_files_valid@, vad_is_dir, vad_files_valid@) {
            Some(e) => r is Err && r->Err_0@ == configuration_error(e.0, e.1),
            None => r is Ok,
        },
{
    if !model_is_dir {
        return Err(
            ProviderError::configuration("local_funasr_model_missing", "所选目录不是有效的 SenseVoiceSmall 模型目录"),
        );
    }
    if !all_true(model_files_valid) {
        return Err(
            ProviderError::configuration(
                "local_funasr_model_incomplete",
                "模型目录不完整，需要包含 config.yaml、model.pt 和 tokens.json",
            ),
        );
    }
    if !vad_is_dir {
        return Err(
            ProviderError::configuration(
                "local_funasr_vad_model_missing",
                "缺少同级 fsmn-vad 模型目录，请将其放在 SenseVoiceSmall 旁边",
            ),
        );
    }
    if !all_true(vad_files_valid) {
        return Err(
            ProviderError::configuration(
                "local_funasr_vad_model_incomplete",
                "fsmn-vad 模型目录不完整，需要包含 config.yaml、configuration.json、model.pt 和 am.mvn",
            ),
        );
    }
    Ok(())
}

/// The error a failed inference process stands for, by its exit code: missing
/// dependencies, a model that does not load, undecodable media, or a generic failure
/// under the caller's code.
pub open spec fn exit_failure(code: Option<i32>, fallback_code: Seq<char>) -> ProviderErrorV {
    match code {
        Some(20) => configuration_error("local_funasr_dependency_missing"@, "内置 Python 环境缺少 FunASR 依赖，请重新安装应用"@),
        Some(21) => configuration_error(
            "local_funasr_model_load_failed"@,
            "本地 SenseVoiceSmall 或 FSMN-VAD 模型加载失败，请检查模型文件"@,
        ),
        Some(22) => input_error("local_audio_decode_failed"@, "无法解码该媒体文件，请检查格式或 FFmpeg 环境"@),
        _ => local_resource(fallback_code, "本地语音转写失败"@),
    }
}

/// Maps the exit of the inference process: success, or the error its code stands for.
pub fn process_exit(success: bool, code: Option<i32>, fallback_code: &str) -> (r: Result<(), ProviderError>)
    ensures
        success ==> r is Ok,
        !success ==> r is Err && r->Err_0@ == exit_failure(code, fallback_code@),
{
    if success {
        return Ok(());
    }
    match code {
        Some(20) => Err(
            ProviderError::configuration(
                "local_funasr_dependency_missing",
                "内置 Python 环境缺少 FunASR 依赖，请重新安装应用",
            ),
        ),
        Some(21) => Err(
            ProviderError::configuration(
                "local_funasr_model_load_failed",
                "本地 SenseVoiceSmall 或 FSMN-VAD 模型加载失败，请检查模型文件",
            ),
        ),
        Some(22) => Err(ProviderError::input("local_audio_decode_failed", "无法解码该媒体文件，请检查格式或 FFmpeg 环境")),
        _ => Err(local_resource_error(fallback_code, "本地语音转写失败")),
    }
}

/// Refuses an empty or oversized inference result before it is read.
pub fn check_output_size(byte_length: u64) -> (r: Result<(), ProviderError>)
    ensures
        r is Ok <==> 0 < byte_length <= MAX_OUTPUT_BYTES,
        r matches Err(e) ==> e@ == protocol_error("invalid_local_funasr_output"@, "本地转写结果大小无效"@),
{
    if byte_length == 0 || byte_length > MAX_OUTPUT_BYTES {
        return Err(ProviderError::protocol("invalid_local_funasr_output", "本地转写结果大小无效"));
    }
    Ok(())
}

/// Refuses a staged copy whose length differs from the imported file's.
pub fn check_staged_copy(copied: u64, expected: u64) -> (r: Result<(), ProviderError>)
    ensures
        r is Ok <==> copied == expected,
        r matches Err(e) ==> e@ == input_error("audio_metadata_mismatch"@, "音频文件已发生变化，请重新导入"@),
{
    if copied != expected {
        return Err(ProviderError::input("audio_metadata_mismatch", "音频文件已发生变化，请重新导入"));
    }
    Ok(())
}

/// One segment of the inference result.
pub struct LocalInferenceSegment {
    pub start_ms: Option<u64>,
    pub end_ms: Option<u64>,
    pub text: String,
}

/// The JSON result the inference script writes.
pub struct LocalInferenceOutput {
    pub text: String,
    pub language: Option<String>,
    pub segments: Vec<LocalInferenceSegment>,
}

/// A number written with at least four digits, zero-padded.
pub open spec fn decimal_pad4(n: nat) -> Seq<char> {
    if n < 10 {
        "000"@ + decimal(n)
    } else if n < 100 {
        "00"@ + decimal(n)
    } else if n < 1000 {
        "0"@ + decimal(n)
    } else {
        decimal(n)
    }
}

/// The identifier of the result segment at `index`: `s` and its one-based position in
/// the result, four digits at least.
pub open spec fn local_segment_id(index: int) -> Seq<char> {
    "s"@ + decimal_pad4((index + 1) as nat)
}

/// The transcript segments of a result: segments with text keep their position-based
/// identifier and timestamps; blank ones are dropped.
pub open spec fn kept_segments(segs: Seq<LocalInferenceSegment>, n: int) -> Seq<crate::minutes::transcript::SegmentV>
    decreases n,
{
    if n <= 0 {
        Seq::empty()
    } else {
        let before = kept_segments(segs, n - 1);
        let s = segs[n - 1];
        if is_blank(s.text@) {
            before
        } else {
            before.push(
                crate::minutes::transcript::SegmentV {
                    id: local_segment_id(n - 1),
                    start_ms: s.start_ms,
                    end_ms: s.end_ms,
                    speaker_label: None,
                    text: s.text@,
                    confidence_bits: None,
                },
            )
        }
    }
}

/// The identifier of a result segment.
fn segment_identifier(index: usize) -> (r: String)
    requires
        index < u64::MAX,
    ensures
        r@ == local_segment_id(index as int),
{
    let n: u64 = index as u64 + 1;
    let mut id = "s".to_string();
    if n < 10 {
        crate::text::push_str(&mut id, "000");
    } else if n < 100 {
        crate::text::push_str(&mut id, "00");
    } else if n < 1000 {
        crate::text::push_str(&mut id, "0");
    }
    push_decimal(&mut id, n);
    proof {
        assert(id@ =~= local_segment_id(index as int));
    }
    id
}

/// Normalizes the inference result into a transcript, or refuses one without speech.
pub fn normalize_local_output(output: LocalInferenceOutput, duration_ms: Option<u64>) -> (r: Result<
    Transcript,
    ProviderError,
>)
    ensures
        is_blank(output.text@) ==> r is Err && r->Err_0@ == input_error(
            "empty_transcript"@,
            "本地模型未检测到可转写语音"@,
        ),
        !is_blank(output.text@) ==> r is Ok && r->Ok_0.schema_version@ == "1"@ && r->Ok_0.text@ == output.text@
            && r->Ok_0.language == output.language && r->Ok_0.duration_ms == duration_ms
            && r->Ok_0.segments@.map_values(|x: TranscriptSegment| x@) == kept_segments(
            output.segments@,
            output.segments@.len() as int,
        ),
{
    if str_is_blank(output.text.as_str()) {
        return Err(ProviderError::input("empty_transcript", "本地模型未检测到可转写语音"));
    }
    let ghost segs = output.segments@;
    let mut kept: Vec<TranscriptSegment> = Vec::new();
    let mut i: usize = 0;
    while i < output.segments.len()
        invariant
            i <= segs.len(),
            segs == output.segments@,
            kept@.map_values(|x: TranscriptSegment| x@) == kept_segments(segs, i as int),
        decreases segs.len() - i,
    {
        let s = &output.segments[i];
        if !str_is_blank(s.text.as_str()) {
            let ghost before = kept@;
            let seg = TranscriptSegment {
                id: segment_identifier(i),
                start_ms: s.start_ms,
                end_ms: s.end_ms,
                speaker_label: None,
                text: s.text.clone(),
                confidence_bits: None,
            };
            kept.push(seg);
            proof {
                assert(kept@.map_values(|x: TranscriptSegment| x@) =~= before.map_values(
                    |x: TranscriptSegment| x@,
                ).push(seg@));
            }
        }
        i = i + 1;
    }
    Ok(Transcript { schema_version: "1".to_string(), text: output.text, language: output.language, duration_ms, segments: kept })
}

} // verus!
