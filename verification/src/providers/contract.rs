//! Capability declarations and operation outcomes shared by all providers.

use vstd::prelude::*;

verus! {

/// How well a capability declaration is backed.
#[derive(Debug, Clone, Copy, PartialEq, Eq, Structural)]
pub enum CapabilityEvidence {
    /// Deterministic behaviour of the local mock.
    Mock,
    /// A real provider capability not yet verified by this project.
    Unverified,
    /// A capability checked against a documented or observed real contract.
    Verified,
}

/// When retrying a logical provider operation is safe.
#[derive(Debug, Clone, Copy, PartialEq, Eq, Structural)]
pub enum ReplaySafety {
    /// Replay is always safe by the adapter's verified contract.
    VerifiedAlwaysSafe,
    /// Replay is safe only with a configured, verified idempotency key.
    SafeWithVerifiedIdempotencyKey,
    /// Replay is safe only when the request body was not sent.
    BeforeRequestBodySentOnly,
    /// No automatic replay.
    NeverAutomaticallyReplay,
}

/// The best-known outcome of a failed remote attempt.
#[derive(Debug, Clone, Copy, PartialEq, Eq, Structural)]
pub enum OperationOutcome {
    Succeeded,
    NotSent,
    Rejected,
    Failed,
    Unknown,
}

/// Optional transcription features requested by the orchestrator.
pub struct TranscriptionOptions {
    pub language_hint: Option<String>,
    pub enable_timestamps: bool,
    pub enable_speaker_labels: bool,
    pub enable_confidence: bool,
}

impl Default for TranscriptionOptions {
    fn default() -> (r: Self)
        ensures
            r.language_hint is None,
            !r.enable_timestamps,
            !r.enable_speaker_labels,
            !r.enable_confidence,
    {
        TranscriptionOptions {
            language_hint: None,
            enable_timestamps: false,
            enable_speaker_labels: false,
            enable_confidence: false,
        }
    }
}

/// A recording format a provider accepts for a remote file URL.
#[derive(Debug, Clone, Copy, PartialEq, Eq, Structural)]
pub enum RemoteAudioFormat {
    Wav,
    Mp3,
    Ogg,
    Opus,
    M4a,
}

impl RemoteAudioFormat {
    /// The stable provider-facing name of the format.
    pub fn as_str(self) -> (r: &'static str)
        ensures
            r@ == match self {
                RemoteAudioFormat::Wav => "wav"@,
                RemoteAudioFormat::Mp3 => "mp3"@,
                RemoteAudioFormat::Ogg => "ogg"@,
                RemoteAudioFormat::Opus => "opus"@,
                RemoteAudioFormat::M4a => "m4a"@,
            },
    {
        match self {
            RemoteAudioFormat::Wav => "wav",
            RemoteAudioFormat::Mp3 => "mp3",
            RemoteAudioFormat::Ogg => "ogg",
            RemoteAudioFormat::Opus => "opus",
            RemoteAudioFormat::M4a => "m4a",
        }
    }
}

/// Verified or explicitly unknown transcription limits and features.
pub struct TranscriptionCapabilities {
    pub evidence: CapabilityEvidence,
    pub accepted_media_types: Vec<String>,
    pub max_audio_bytes: Option<u64>,
    pub max_duration_ms: Option<u64>,
    pub supports_async_jobs: bool,
    pub supports_timestamps: bool,
    pub supports_speaker_labels: bool,
    pub supports_confidence: bool,
    pub supports_remote_cancel: bool,
    pub supports_remote_urls: bool,
    pub replay_safety: ReplaySafety,
}

/// Verified or explicitly unknown minutes-generation limits and features.
pub struct MinutesCapabilities {
    pub evidence: CapabilityEvidence,
    pub supports_json_schema: bool,
    pub supported_schema_versions: Vec<String>,
    pub max_input_characters: Option<u64>,
    pub supports_async_jobs: bool,
    pub supports_remote_cancel: bool,
    pub replay_safety: ReplaySafety,
}

} // verus!
