//! The deterministic mock provider's configuration.

use vstd::prelude::*;

use super::contract::{
    CapabilityEvidence, MinutesCapabilities, OperationOutcome, ReplaySafety, TranscriptionCapabilities,
};
use super::error::{
    configuration_error, protocol_error, provider_error, ProviderError, ProviderErrorCategory, ProviderErrorV,
};
use super::mapping::input_error;
use crate::json::{entries_view, json_view, push_entry, JsonV, JsonValue};
use crate::minutes::transcript::Transcript;
use crate::text::{is_blank, str_is_blank};

verus! {

/// Deterministic mock scenarios available without a network or API key.
#[derive(Debug, Clone, Copy, PartialEq, Eq, Structural)]
pub enum MockScenario {
    Success,
    Delay,
    TimeoutConnect,
    TimeoutAfterSend,
    Http401,
    Http403,
    Http429,
    Http500,
    NetworkUnavailable,
    MalformedResponse,
    EmptyTranscript,
    InvalidMinutesSchema,
    CancelUpload,
    CancelPoll,
    CancelGenerate,
}

/// Non-sensitive mock configuration.
#[derive(Debug, Clone, Copy, PartialEq, Eq, Structural)]
pub struct MockConfig {
    pub scenario: MockScenario,
    pub delay_ms: u64,
}

impl MockConfig {
    /// Accepts only finite mock delays of at most a minute.
    pub fn validate(&self) -> (r: Result<(), ProviderError>)
        ensures
            r is Ok <==> self.delay_ms <= 60000,
            r matches Err(e) ==> e@ == configuration_error(
                "invalid_mock_delay"@,
                "Mock 延迟不能超过 60 秒"@,
            ),
    {
        if self.delay_ms > 60000 {
            return Err(ProviderError::configuration("invalid_mock_delay", "Mock 延迟不能超过 60 秒"));
        }
        Ok(())
    }
}

/// The error a rejected mock request gives.
pub open spec fn mock_http_error_view(
    code: Seq<char>,
    category: ProviderErrorCategory,
    status: u16,
    retryable: bool,
) -> ProviderErrorV {
    provider_error(
        code,
        category,
        retryable,
        retryable,
        "Mock Provider 返回错误"@,
        Some(status),
        None,
        OperationOutcome::Rejected,
    )
}

/// The failure each error scenario stands for; the other scenarios fail nothing here.
pub open spec fn scenario_failure(scenario: MockScenario) -> Option<ProviderErrorV> {
    match scenario {
        MockScenario::TimeoutConnect => Some(
            provider_error(
                "connect_timeout"@,
                ProviderErrorCategory::Timeout,
                true,
                true,
                "Mock 连接超时"@,
                None,
                None,
                OperationOutcome::NotSent,
            ),
        ),
        MockScenario::TimeoutAfterSend => Some(
            provider_error(
                "request_timeout"@,
                ProviderErrorCategory::Timeout,
                true,
                false,
                "Mock 请求超时"@,
                None,
                None,
                OperationOutcome::Unknown,
            ),
        ),
        MockScenario::Http401 => Some(
            mock_http_error_view("http_401"@, ProviderErrorCategory::Authentication, 401, false),
        ),
        MockScenario::Http403 => Some(
            mock_http_error_view("http_403"@, ProviderErrorCategory::Permission, 403, false),
        ),
        MockScenario::Http429 => Some(
            provider_error(
                "http_429"@,
                ProviderErrorCategory::RateLimit,
                true,
                true,
                "Mock 限流"@,
                Some(429),
                Some(1),
                OperationOutcome::Rejected,
            ),
        ),
        MockScenario::Http500 => Some(
            mock_http_error_view("http_5xx"@, ProviderErrorCategory::Provider, 500, true),
        ),
        MockScenario::NetworkUnavailable => Some(
            provider_error(
                "network_unavailable"@,
                ProviderErrorCategory::Network,
                true,
                true,
                "Mock 网络不可用"@,
                None,
                None,
                OperationOutcome::NotSent,
            ),
        ),
        MockScenario::MalformedResponse => Some(
            provider_error(
                "invalid_provider_response"@,
                ProviderErrorCategory::Protocol,
                false,
                false,
                "Mock 响应格式错误"@,
                None,
                None,
                OperationOutcome::Failed,
            ),
        ),
        _ => None,
    }
}

/// The error of a rejected mock request.
fn mock_http_error(code: &str, category: ProviderErrorCategory, status: u16, retryable: bool) -> (r:
    ProviderError)
    ensures
        r@ == mock_http_error_view(code@, category, status, retryable),
{
    ProviderError::new(
        code,
        category,
        retryable,
        retryable,
        "Mock Provider 返回错误",
        Some(status),
        None,
        OperationOutcome::Rejected,
    )
}

impl MockConfig {
    /// The failure this configuration's scenario stands for, if any.
    pub fn scenario_error(&self) -> (r: Option<ProviderError>)
        ensures
            match scenario_failure(self.scenario) {
                Some(e) => r matches Some(x) && x@ == e,
                None => r is None,
            },
    {
        match self.scenario {
            MockScenario::TimeoutConnect => Some(
                ProviderError::new(
                    "connect_timeout",
                    ProviderErrorCategory::Timeout,
                    true,
                    true,
                    "Mock 连接超时",
                    None,
                    None,
                    OperationOutcome::NotSent,
                ),
            ),
            MockScenario::TimeoutAfterSend => Some(
                ProviderError::new(
                    "request_timeout",
                    ProviderErrorCategory::Timeout,
                    true,
                    false,
                    "Mock 请求超时",
                    None,
                    None,
                    OperationOutcome::Unknown,
                ),
            ),
            MockScenario::Http401 => Some(
                mock_http_error("http_401", ProviderErrorCategory::Authentication, 401, false),
            ),
            MockScenario::Http403 => Some(
                mock_http_error("http_403", ProviderErrorCategory::Permission, 403, false),
            ),
            MockScenario::Http429 => Some(
                ProviderError::new(
                    "http_429",
                    ProviderErrorCategory::RateLimit,
                    true,
                    true,
                    "Mock 限流",
                    Some(429),
                    Some(1),
                    OperationOutcome::Rejected,
                ),
            ),
            MockScenario::Http500 => Some(
                mock_http_error("http_5xx", ProviderErrorCategory::Provider, 500, true),
            ),
            MockScenario::NetworkUnavailable => Some(
                ProviderError::new(
                    "network_unavailable",
                    ProviderErrorCategory::Network,
                    true,
                    true,
                    "Mock 网络不可用",
                    None,
                    None,
                    OperationOutcome::NotSent,
                ),
            ),
            MockScenario::MalformedResponse => Some(
                ProviderError::protocol("invalid_provider_response", "Mock 响应格式错误"),
            ),
            _ => None,
        }
    }
}

/// How a mock call waits before it answers.
#[derive(Debug, Clone, Copy, PartialEq, Eq, Structural)]
pub enum MockTiming {
    /// The cancellation scenarios wait for cancellation or the deadline, whichever first.
    UntilCancelledOrDeadline,
    /// Success and delay scenarios with a delay sleep it, unless cancelled.
    Sleep(u64),
    /// Every other call answers at once, unless already cancelled.
    Immediate,
}

impl MockConfig {
    /// The waiting behaviour of this configuration's calls.
    pub fn timing(&self) -> (r: MockTiming)
        ensures
            r == (if self.scenario == MockScenario::CancelUpload || self.scenario == MockScenario::CancelPoll
                || self.scenario == MockScenario::CancelGenerate {
                MockTiming::UntilCancelledOrDeadline
            } else if self.delay_ms > 0 && (self.scenario == MockScenario::Success || self.scenario
                == MockScenario::Delay) {
                MockTiming::Sleep(self.delay_ms)
            } else {
                MockTiming::Immediate
            }),
    {
        match self.scenario {
            MockScenario::CancelUpload | MockScenario::CancelPoll | MockScenario::CancelGenerate => {
                MockTiming::UntilCancelledOrDeadline
            },
            MockScenario::Success | MockScenario::Delay => {
                if self.delay_ms > 0 {
                    MockTiming::Sleep(self.delay_ms)
                } else {
                    MockTiming::Immediate
                }
            },
            _ => MockTiming::Immediate,
        }
    }

    /// The transcript a mock transcription answers once its timing has passed: the
    /// configured fixture text, unless the scenario is an empty transcript or a failure.
    pub fn mock_transcript(&self, transcript_text: &str, duration_ms: Option<u64>) -> (r: Result<Transcript, ProviderError>)
        ensures
            self.scenario == MockScenario::EmptyTranscript ==> r is Err && r->Err_0@ == protocol_error(
                "empty_transcript"@,
                "Mock 返回了空转写"@,
            ),
            self.scenario != MockScenario::EmptyTranscript ==> match scenario_failure(self.scenario) {
                Some(e) => r is Err && r->Err_0@ == e,
                None => r is Ok && r->Ok_0.schema_version@ == "1"@ && r->Ok_0.text@ == transcript_text@
                    && r->Ok_0.language is None && r->Ok_0.duration_ms == duration_ms && r->Ok_0.segments@.len()
                    == 0,
            },
    {
        if self.scenario == MockScenario::EmptyTranscript {
            return Err(ProviderError::protocol("empty_transcript", "Mock 返回了空转写"));
        }
        match self.scenario_error() {
            Some(e) => Err(e),
            None => Ok(
                Transcript {
                    schema_version: "1".to_string(),
                    text: transcript_text.to_string(),
                    language: None,
                    duration_ms,
                    segments: Vec::new(),
                },
            ),
        }
    }

    /// The candidate a mock minutes call answers once its timing has passed: the
    /// configured fixture, a schema-breaking object, or the scenario's failure.
    pub fn mock_candidate(&self, candidate: &JsonValue) -> (r: Result<JsonValue, ProviderError>)
        ensures
            match scenario_failure(self.scenario) {
                Some(e) => r is Err && r->Err_0@ == e,
                None => r is Ok && json_view(r->Ok_0) == (if self.scenario == MockScenario::InvalidMinutesSchema {
                    JsonV::Object(seq![("fixtureInvalid"@, JsonV::Bool(true))])
                } else {
                    json_view(*candidate)
                }),
            },
    {
        match self.scenario_error() {
            Some(e) => Err(e),
            None => {
                if self.scenario == MockScenario::InvalidMinutesSchema {
                    proof {
                        assert(entries_view(Seq::<(String, JsonValue)>::empty()) =~= Seq::empty());
                    }
                    let mut entries: Vec<(String, JsonValue)> = Vec::new();
                    push_entry(&mut entries, "fixtureInvalid", JsonValue::Bool(true));
                    assert(entries_view(entries@) =~= seq![("fixtureInvalid"@, JsonV::Bool(true))]);
                    Ok(JsonValue::Object(entries))
                } else {
                    Ok(candidate.copy())
                }
            },
        }
    }
}

/// Refuses an empty recording before a mock transcription.
pub fn check_mock_audio(byte_length: u64) -> (r: Result<(), ProviderError>)
    ensures
        r is Ok <==> byte_length > 0,
        r matches Err(e) ==> e@ == input_error("empty_audio"@, "音频文件为空"@),
{
    if byte_length == 0 {
        return Err(ProviderError::input("empty_audio", "音频文件为空"));
    }
    Ok(())
}

/// Refuses a blank prompt before a mock minutes call.
pub fn check_mock_prompt(prompt: &str) -> (r: Result<(), ProviderError>)
    ensures
        r is Ok <==> !is_blank(prompt@),
        r matches Err(e) ==> e@ == input_error("empty_minutes_prompt"@, "纪要 Prompt 不能为空"@),
{
    if str_is_blank(prompt) {
        return Err(ProviderError::input("empty_minutes_prompt", "纪要 Prompt 不能为空"));
    }
    Ok(())
}

/// The mock's transcription capabilities: mock evidence, cancellable, always replayable.
pub fn mock_transcription_capabilities() -> (r: TranscriptionCapabilities)
    ensures
        r.evidence == CapabilityEvidence::Mock,
        r.accepted_media_types@.len() == 0,
        r.max_audio_bytes is None,
        r.max_duration_ms is None,
        !r.supports_async_jobs,
        !r.supports_timestamps,
        !r.supports_speaker_labels,
        !r.supports_confidence,
        r.supports_remote_cancel,
        !r.supports_remote_urls,
        r.replay_safety == ReplaySafety::VerifiedAlwaysSafe,
{
    TranscriptionCapabilities {
        evidence: CapabilityEvidence::Mock,
        accepted_media_types: Vec::new(),
        max_audio_bytes: None,
        max_duration_ms: None,
        supports_async_jobs: false,
        supports_timestamps: false,
        supports_speaker_labels: false,
        supports_confidence: false,
        supports_remote_cancel: true,
        supports_remote_urls: false,
        replay_safety: ReplaySafety::VerifiedAlwaysSafe,
    }
}

/// The mock's minutes capabilities: mock evidence, JSON Schema, its one schema version.
pub fn mock_minutes_capabilities(schema_version: &str) -> (r: MinutesCapabilities)
    ensures
        r.evidence == CapabilityEvidence::Mock,
        r.supports_json_schema,
        r.supported_schema_versions@.map_values(|v: String| v@) == seq![schema_version@],
        r.max_input_characters is None,
        !r.supports_async_jobs,
        r.supports_remote_cancel,
        r.replay_safety == ReplaySafety::VerifiedAlwaysSafe,
{
    let mut versions: Vec<String> = Vec::new();
    versions.push(schema_version.to_string());
    proof {
        assert(versions@.map_values(|v: String| v@) =~= seq![schema_version@]);
    }
    MinutesCapabilities {
        evidence: CapabilityEvidence::Mock,
        supports_json_schema: true,
        supported_schema_versions: versions,
        max_input_characters: None,
        supports_async_jobs: false,
        supports_remote_cancel: true,
        replay_safety: ReplaySafety::VerifiedAlwaysSafe,
    }
}

/// The outcome a mock call records: success, or its error's outcome.
pub fn result_outcome<T>(result: &Result<T, ProviderError>) -> (r: OperationOutcome)
    ensures
        r == match result {
            Ok(_) => OperationOutcome::Succeeded,
            Err(e) => e.outcome,
        },
{
    match result {
        Ok(_) => OperationOutcome::Succeeded,
        Err(e) => e.outcome,
    }
}

} // verus!
