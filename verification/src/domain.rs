//! Shared public records: task states and actions, safe task errors, meeting list
//! items, and provider configuration without secret values.

use vstd::prelude::*;

use crate::text::copy_str;

verus! {

/// The stable state of a processing task.
#[derive(Debug, Clone, Copy, PartialEq, Eq, Structural)]
pub enum TaskStatus {
    Queued,
    Preparing,
    Uploading,
    Transcribing,
    ValidatingTranscript,
    Summarizing,
    ValidatingMinutes,
    Saving,
    RetryWait,
    CancelRequested,
    Interrupted,
    Completed,
    Failed,
    Cancelled,
}

/// Whether a status is final: completed, failed or cancelled.
pub open spec fn terminal_status(s: TaskStatus) -> bool {
    s == TaskStatus::Completed || s == TaskStatus::Failed || s == TaskStatus::Cancelled
}

impl TaskStatus {
    /// Whether the task has reached a state from which processing cannot continue.
    pub fn is_terminal(&self) -> (r: bool)
        ensures
            r == terminal_status(*self),
    {
        match self {
            TaskStatus::Completed | TaskStatus::Failed | TaskStatus::Cancelled => true,
            _ => false,
        }
    }
}

/// An action the user may take on a task.
#[derive(Debug, Clone, Copy, PartialEq, Eq, Structural)]
pub enum TaskAction {
    Cancel,
    Retry,
    Delete,
    OpenMeeting,
    ReselectFile,
}

/// A task error that is safe to show.
#[derive(Debug)]
pub struct SafeTaskError {
    pub code: String,
    pub retryable: bool,
    pub safe_message: String,
    pub http_status: Option<u16>,
    pub retry_after_ms: Option<u64>,
}

/// The view of a task error.
pub struct TaskErrorV {
    pub code: Seq<char>,
    pub retryable: bool,
    pub safe_message: Seq<char>,
    pub http_status: Option<u16>,
    pub retry_after_ms: Option<u64>,
}

impl View for SafeTaskError {
    type V = TaskErrorV;

    open spec fn view(&self) -> TaskErrorV {
        TaskErrorV {
            code: self.code@,
            retryable: self.retryable,
            safe_message: self.safe_message@,
            http_status: self.http_status,
            retry_after_ms: self.retry_after_ms,
        }
    }
}

/// A task error without HTTP details.
pub open spec fn plain_error(code: Seq<char>, retryable: bool, message: Seq<char>) -> TaskErrorV {
    TaskErrorV { code, retryable, safe_message: message, http_status: None, retry_after_ms: None }
}

/// The minimal meeting information of the history list.
#[derive(Debug)]
pub struct MeetingListItem {
    pub id: String,
    pub title: String,
    pub source_name: String,
    pub template_id: String,
    pub created_at: String,
    pub updated_at: String,
}

/// Whether a provider may be called, without revealing any secret.
#[derive(Debug, Clone, Copy, PartialEq, Eq, Structural)]
pub enum ProviderReadiness {
    /// Configuration is incomplete; no real provider can be called.
    Incomplete,
    /// Kept for old persisted data; the demo mode is no longer offered.
    MockExperience,
    /// Public fields and the secret of a real provider are configured.
    Ready,
}

impl Default for ProviderReadiness {
    fn default() -> (r: Self)
        ensures
            r == ProviderReadiness::Incomplete,
    {
        ProviderReadiness::Incomplete
    }
}

/// The public configuration of one provider, holding no secret value.
#[derive(Debug)]
pub struct PublicProviderConfig {
    pub preset_id: String,
    pub kind: String,
    pub endpoint: String,
    pub model: String,
    pub local_model_path: String,
    pub credential_preset_id: Option<String>,
    pub secret_configured: bool,
    pub connect_timeout_ms: u64,
    pub request_timeout_ms: u64,
    pub max_retries: u32,
    pub ready: bool,
    pub readiness: ProviderReadiness,
    pub validation_message: String,
}

/// The view of a provider configuration.
pub struct ProviderConfigV {
    pub preset_id: Seq<char>,
    pub kind: Seq<char>,
    pub endpoint: Seq<char>,
    pub model: Seq<char>,
    pub local_model_path: Seq<char>,
    pub credential_preset_id: Option<Seq<char>>,
    pub secret_configured: bool,
    pub connect_timeout_ms: u64,
    pub request_timeout_ms: u64,
    pub max_retries: u32,
    pub ready: bool,
    pub readiness: ProviderReadiness,
    pub validation_message: Seq<char>,
}

impl View for PublicProviderConfig {
    type V = ProviderConfigV;

    open spec fn view(&self) -> ProviderConfigV {
        ProviderConfigV {
            preset_id: self.preset_id@,
            kind: self.kind@,
            endpoint: self.endpoint@,
            model: self.model@,
            local_model_path: self.local_model_path@,
            credential_preset_id: match self.credential_preset_id {
                Some(s) => Some(s@),
                None => None,
            },
            secret_configured: self.secret_configured,
            connect_timeout_ms: self.connect_timeout_ms,
            request_timeout_ms: self.request_timeout_ms,
            max_retries: self.max_retries,
            ready: self.ready,
            readiness: self.readiness,
            validation_message: self.validation_message@,
        }
    }
}

/// The safe unconfigured default: no address, no secret, default limits.
pub open spec fn default_provider_view() -> ProviderConfigV {
    ProviderConfigV {
        preset_id: seq![],
        kind: seq![],
        endpoint: seq![],
        model: seq![],
        local_model_path: seq![],
        credential_preset_id: None,
        secret_configured: false,
        connect_timeout_ms: 10000,
        request_timeout_ms: 60000,
        max_retries: 2,
        ready: false,
        readiness: ProviderReadiness::Incomplete,
        validation_message: "尚未配置服务"@,
    }
}

impl Default for PublicProviderConfig {
    fn default() -> (r: Self)
        ensures
            r@ == default_provider_view(),
    {
        let r = PublicProviderConfig {
            preset_id: String::new(),
            kind: String::new(),
            endpoint: String::new(),
            model: String::new(),
            local_model_path: String::new(),
            credential_preset_id: None,
            secret_configured: false,
            connect_timeout_ms: 10000,
            request_timeout_ms: 60000,
            max_retries: 2,
            ready: false,
            readiness: ProviderReadiness::Incomplete,
            validation_message: copy_str("尚未配置服务"),
        };
        proof {
            assert(r@ =~= default_provider_view());
        }
        r
    }
}

impl PublicProviderConfig {
    /// A copy of this configuration.
    pub fn copy(&self) -> (r: Self)
        ensures
            r@ == self@,
    {
        PublicProviderConfig {
            preset_id: copy_str(self.preset_id.as_str()),
            kind: copy_str(self.kind.as_str()),
            endpoint: copy_str(self.endpoint.as_str()),
            model: copy_str(self.model.as_str()),
            local_model_path: copy_str(self.local_model_path.as_str()),
            credential_preset_id: match &self.credential_preset_id {
                Some(s) => Some(copy_str(s.as_str())),
                None => None,
            },
            secret_configured: self.secret_configured,
            connect_timeout_ms: self.connect_timeout_ms,
            request_timeout_ms: self.request_timeout_ms,
            max_retries: self.max_retries,
            ready: self.ready,
            readiness: self.readiness,
            validation_message: copy_str(self.validation_message.as_str()),
        }
    }
}

/// The public configuration of the transcription and the minutes provider.
pub struct PublicSettings {
    pub transcription: PublicProviderConfig,
    pub minutes: PublicProviderConfig,
}

impl Default for PublicSettings {
    fn default() -> (r: Self)
        ensures
            r.transcription@ == default_provider_view(),
            r.minutes@ == default_provider_view(),
    {
        PublicSettings {
            transcription: PublicProviderConfig::default(),
            minutes: PublicProviderConfig::default(),
        }
    }
}

} // verus!
