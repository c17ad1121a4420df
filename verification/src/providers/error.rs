//! Sanitized provider errors: no headers, bodies, prompts, transcripts or secrets.

use vstd::prelude::*;

use super::contract::OperationOutcome;
use crate::text::{copy_str, push_str};

verus! {

/// Stable provider error categories shown to orchestration and the interface.
#[derive(Debug, Clone, Copy, PartialEq, Eq, Structural)]
pub enum ProviderErrorCategory {
    Configuration,
    Input,
    Authentication,
    Permission,
    RateLimit,
    Network,
    Timeout,
    Provider,
    Protocol,
    Cancellation,
    LocalResource,
}

/// A sanitized provider failure.
#[derive(Debug)]
pub struct ProviderError {
    pub code: String,
    pub category: ProviderErrorCategory,
    pub retryable: bool,
    pub replay_safe: bool,
    pub safe_message: String,
    pub http_status: Option<u16>,
    pub retry_after_ms: Option<u64>,
    pub outcome: OperationOutcome,
    pub remote_request_id: Option<String>,
}

/// The view of a provider error.
pub struct ProviderErrorV {
    pub code: Seq<char>,
    pub category: ProviderErrorCategory,
    pub retryable: bool,
    pub replay_safe: bool,
    pub safe_message: Seq<char>,
    pub http_status: Option<u16>,
    pub retry_after_ms: Option<u64>,
    pub outcome: OperationOutcome,
    pub remote_request_id: Option<Seq<char>>,
}

impl View for ProviderError {
    type V = ProviderErrorV;

    open spec fn view(&self) -> ProviderErrorV {
        ProviderErrorV {
            code: self.code@,
            category: self.category,
            retryable: self.retryable,
            replay_safe: self.replay_safe,
            safe_message: self.safe_message@,
            http_status: self.http_status,
            retry_after_ms: self.retry_after_ms,
            outcome: self.outcome,
            remote_request_id: match self.remote_request_id {
                Some(s) => Some(s@),
                None => None,
            },
        }
    }
}

/// A provider error view with no remote request ID.
pub open spec fn provider_error(
    code: Seq<char>,
    category: ProviderErrorCategory,
    retryable: bool,
    replay_safe: bool,
    safe_message: Seq<char>,
    http_status: Option<u16>,
    retry_after_ms: Option<u64>,
    outcome: OperationOutcome,
) -> ProviderErrorV {
    ProviderErrorV {
        code,
        category,
        retryable,
        replay_safe,
        safe_message,
        http_status,
        retry_after_ms,
        outcome,
        remote_request_id: None,
    }
}

/// A configuration failure before anything was sent.
pub open spec fn configuration_error(code: Seq<char>, safe_message: Seq<char>) -> ProviderErrorV {
    provider_error(
        code,
        ProviderErrorCategory::Configuration,
        false,
        false,
        safe_message,
        None,
        None,
        OperationOutcome::NotSent,
    )
}

/// A protocol failure: the provider's reply broke the configured contract.
pub open spec fn protocol_error(code: Seq<char>, safe_message: Seq<char>) -> ProviderErrorV {
    provider_error(
        code,
        ProviderErrorCategory::Protocol,
        false,
        false,
        safe_message,
        None,
        None,
        OperationOutcome::Failed,
    )
}

/// The cancellation failure.
pub open spec fn cancelled_error() -> ProviderErrorV {
    provider_error(
        "cancelled"@,
        ProviderErrorCategory::Cancellation,
        false,
        false,
        "任务已取消"@,
        None,
        None,
        OperationOutcome::Unknown,
    )
}

impl ProviderError {
    /// A fully specified sanitized provider error.
    pub fn new(
        code: &str,
        category: ProviderErrorCategory,
        retryable: bool,
        replay_safe: bool,
        safe_message: &str,
        http_status: Option<u16>,
        retry_after_ms: Option<u64>,
        outcome: OperationOutcome,
    ) -> (r: Self)
        ensures
            r@ == provider_error(
                code@,
                category,
                retryable,
                replay_safe,
                safe_message@,
                http_status,
                retry_after_ms,
                outcome,
            ),
    {
        ProviderError {
            code: copy_str(code),
            category,
            retryable,
            replay_safe,
            safe_message: copy_str(safe_message),
            http_status,
            retry_after_ms,
            outcome,
            remote_request_id: None,
        }
    }

    /// A non-retryable configuration failure before any request is sent.
    pub fn configuration(code: &str, safe_message: &str) -> (r: Self)
        ensures
            r@ == configuration_error(code@, safe_message@),
    {
        ProviderError::new(
            code,
            ProviderErrorCategory::Configuration,
            false,
            false,
            safe_message,
            None,
            None,
            OperationOutcome::NotSent,
        )
    }

    /// A non-retryable input failure before any request is sent.
    pub fn input(code: &str, safe_message: &str) -> (r: Self)
        ensures
            r@ == provider_error(
                code@,
                ProviderErrorCategory::Input,
                false,
                false,
                safe_message@,
                None,
                None,
                OperationOutcome::NotSent,
            ),
    {
        ProviderError::new(
            code,
            ProviderErrorCategory::Input,
            false,
            false,
            safe_message,
            None,
            None,
            OperationOutcome::NotSent,
        )
    }

    /// A non-retryable protocol failure with no raw response details.
    pub fn protocol(code: &str, safe_message: &str) -> (r: Self)
        ensures
            r@ == provider_error(
                code@,
                ProviderErrorCategory::Protocol,
                false,
                false,
                safe_message@,
                None,
                None,
                OperationOutcome::Failed,
            ),
    {
        ProviderError::new(
            code,
            ProviderErrorCategory::Protocol,
            false,
            false,
            safe_message,
            None,
            None,
            OperationOutcome::Failed,
        )
    }

    /// The terminal cancellation result.
    pub fn cancelled() -> (r: Self)
        ensures
            r@ == cancelled_error(),
    {
        ProviderError::new(
            "cancelled",
            ProviderErrorCategory::Cancellation,
            false,
            false,
            "任务已取消",
            None,
            None,
            OperationOutcome::Unknown,
        )
    }

    /// An overall operation timeout, never retried internally.
    pub fn operation_timeout() -> (r: Self)
        ensures
            r@ == provider_error(
                "operation_timeout"@,
                ProviderErrorCategory::Timeout,
                false,
                false,
                "云端处理超过总超时时间"@,
                None,
                None,
                OperationOutcome::Unknown,
            ),
    {
        ProviderError::new(
            "operation_timeout",
            ProviderErrorCategory::Timeout,
            false,
            false,
            "云端处理超过总超时时间",
            None,
            None,
            OperationOutcome::Unknown,
        )
    }

    /// Attaches a reviewed remote request ID without exposing response bodies.
    pub fn with_remote_request_id(self, request_id: Option<String>) -> (r: Self)
        ensures
            r@ == (ProviderErrorV {
                remote_request_id: match request_id {
                    Some(s) => Some(s@),
                    None => None,
                },
                ..self@
            }),
    {
        let mut e = self;
        e.remote_request_id = request_id;
        e
    }

    /// The display text `code: message`, which holds nothing but the sanitized fields.
    pub fn message_text(&self) -> (r: String)
        ensures
            r@ == self.code@ + ": "@ + self.safe_message@,
    {
        let mut s = copy_str(self.code.as_str());
        push_str(&mut s, ": ");
        push_str(&mut s, self.safe_message.as_str());
        s
    }
}

} // verus!
