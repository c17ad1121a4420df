//! The decisions of a provider call between its attempts: what a finished attempt
//! means, whether the call ends or tries again, and how long each attempt may take.
//! Waiting, cancellation and the transport stay with the caller.

use vstd::prelude::*;

use super::contract::ReplaySafety;
use super::error::{configuration_error, provider_error, ProviderError, ProviderErrorCategory, ProviderErrorV};
use super::contract::OperationOutcome;
use super::http::{
    classify_http_status, headers_view, status_class, status_error_matches, transport_provider_error,
    ProviderCredentialPlacement, ProviderHttpConfig, RawHttpResponse, TransportError,
};
use super::retry::{backoff_cap, replay_allowed};
use super::secret::ProviderCredential;

verus! {

/// What a finished attempt yields: the response of a success status, or the sanitized
/// error of a transport failure or of any other status.
pub fn classify_attempt(result: Result<RawHttpResponse, TransportError>) -> (r: Result<RawHttpResponse, ProviderError>)
    ensures
        match result {
            Err(t) => r is Err && r->Err_0@ == transport_provider_error(t),
            Ok(resp) => match status_class(resp.status) {
                None => r is Ok && r->Ok_0 == resp,
                Some(_) => r is Err && status_error_matches(resp.status, headers_view(resp.headers@), r->Err_0@),
            },
        },
{
    match result {
        Err(t) => Err(t.into_provider_error()),
        Ok(resp) => match classify_http_status(&resp) {
            Some(e) => Err(e),
            None => Ok(resp),
        },
    }
}

/// What the caller does after an attempt.
pub enum AttemptDecision {
    /// The call succeeded with this response.
    Deliver(RawHttpResponse),
    /// The call ends with this error.
    Fail(ProviderError),
    /// The call waits `delay_ms` and tries again; a rate-limit reply also slows the
    /// provider's shared gate by that delay.
    Retry { error: ProviderError, delay_ms: u64, penalize_rate: bool },
}

/// Whether the profile holds a verified idempotency key.
pub open spec fn idempotency_key_configured(c: ProviderHttpConfig) -> bool {
    c.replay_safety == ReplaySafety::SafeWithVerifiedIdempotencyKey && c.idempotency_header is Some
}

/// A failure with its replay safety judged by the profile's evidence.
pub open spec fn judged(c: ProviderHttpConfig, e: ProviderErrorV) -> ProviderErrorV {
    ProviderErrorV { replay_safe: replay_allowed(c.replay_safety, idempotency_key_configured(c), e.outcome), ..e }
}

/// Whether a failure after `attempts_completed` attempts is tried again: it is retryable,
/// replaying it is evidenced safe, and the retry budget is not spent.
pub open spec fn retries_after(c: ProviderHttpConfig, attempts_completed: u32, e: ProviderErrorV) -> bool {
    e.retryable && judged(c, e).replay_safe && attempts_completed <= c.retry.max_retries
}

/// Decides, after `attempts_completed` attempts, whether the call ends or retries.
pub fn after_attempt(
    config: &ProviderHttpConfig,
    attempts_completed: u32,
    operation_id: &str,
    outcome: Result<RawHttpResponse, ProviderError>,
) -> (r: AttemptDecision)
    ensures
        match outcome {
            Ok(resp) => r == AttemptDecision::Deliver(resp),
            Err(e) => if retries_after(*config, attempts_completed, e@) {
                r matches AttemptDecision::Retry { error, delay_ms, penalize_rate } && error@ == judged(*config, e@)
                    && penalize_rate == (e.http_status == Some(429u16)) && match e.retry_after_ms {
                    Some(ms) => delay_ms == (if ms < config.retry.max_retry_after_ms {
                        ms
                    } else {
                        config.retry.max_retry_after_ms
                    }),
                    None => delay_ms <= backoff_cap(config.retry, attempts_completed),
                }
            } else {
                r matches AttemptDecision::Fail(error) && error@ == judged(*config, e@)
            },
        },
{
    match outcome {
        Ok(resp) => AttemptDecision::Deliver(resp),
        Err(e) => {
            let mut error = e;
            let replay_safe = super::retry::is_replay_safe(
                config.replay_safety,
                config.has_idempotency_key(),
                error.outcome,
            );
            error.replay_safe = replay_safe;
            if !error.retryable || !replay_safe || !config.retry.has_retry(attempts_completed) {
                return AttemptDecision::Fail(error);
            }
            let delay_ms = config.retry.delay_for(attempts_completed, operation_id, &error);
            let penalize_rate = match error.http_status {
                Some(s) => s == 429,
                None => false,
            };
            AttemptDecision::Retry { error, delay_ms, penalize_rate }
        },
    }
}

/// The time one attempt may take: the profile's request timeout, cut to what is left of
/// the operation; nothing left is the operation's timeout.
pub fn attempt_timeout_ms(config: &ProviderHttpConfig, remaining_ms: u64) -> (r: Result<u64, ProviderError>)
    ensures
        remaining_ms == 0 ==> r is Err && r->Err_0@ == provider_error(
            "operation_timeout"@,
            ProviderErrorCategory::Timeout,
            false,
            false,
            "云端处理超过总超时时间"@,
            None,
            None,
            OperationOutcome::Unknown,
        ),
        remaining_ms > 0 ==> r == Ok::<u64, ProviderError>(
            if remaining_ms < config.request_timeout_ms {
                remaining_ms
            } else {
                config.request_timeout_ms
            },
        ),
{
    if remaining_ms == 0 {
        return Err(ProviderError::operation_timeout());
    }
    if remaining_ms < config.request_timeout_ms {
        Ok(remaining_ms)
    } else {
        Ok(config.request_timeout_ms)
    }
}

/// The error of a call that needs a credential it was not given.
pub open spec fn missing_credential() -> ProviderErrorV {
    configuration_error("provider_not_configured"@, "Provider 密钥尚未配置"@)
}

/// Requires a non-empty credential whenever the profile places one.
pub fn require_credential(config: &ProviderHttpConfig, credential: Option<&ProviderCredential>) -> (r: Result<
    (),
    ProviderError,
>)
    ensures
        r is Err <==> !(config.auth is NoCredential) && match credential {
            Some(c) => c.secret().len() == 0,
            None => true,
        },
        r matches Err(e) ==> e@ == missing_credential(),
{
    let needs = match config.auth {
        ProviderCredentialPlacement::NoCredential => false,
        _ => true,
    };
    let missing = match credential {
        Some(c) => c.is_empty(),
        None => true,
    };
    if needs && missing {
        return Err(ProviderError::configuration("provider_not_configured", "Provider 密钥尚未配置"));
    }
    Ok(())
}

/// How many calls a retrying call makes when its calls fail with `errors` in turn,
/// counting from `k` calls made: it stops at the first failure that is not retried, or
/// when the failures run out.
pub open spec fn calls_made(c: ProviderHttpConfig, errors: Seq<ProviderErrorV>, k: nat) -> nat
    decreases errors.len() - k,
{
    if k >= errors.len() || k + 1 > u32::MAX {
        k
    } else if retries_after(c, (k + 1) as u32, errors[k as int]) {
        calls_made(c, errors, k + 1)
    } else {
        k + 1
    }
}

proof fn lemma_calls_made_bounded(c: ProviderHttpConfig, errors: Seq<ProviderErrorV>, k: nat)
    requires
        k <= c.retry.max_retries,
    ensures
        calls_made(c, errors, k) <= c.retry.max_retries + 1,
    decreases errors.len() - k,
{
    if k < errors.len() && k + 1 <= u32::MAX && retries_after(c, (k + 1) as u32, errors[k as int]) {
        lemma_calls_made_bounded(c, errors, k + 1);
    }
}

/// A call is made at most `max_retries + 1` times, however its attempts fail, and a
/// failure that is not retryable ends it right after the call that produced it.
pub proof fn law_calls_are_bounded(c: ProviderHttpConfig, errors: Seq<ProviderErrorV>)
    ensures
        calls_made(c, errors, 0) <= c.retry.max_retries + 1,
        errors.len() > 0 && !errors[0].retryable ==> calls_made(c, errors, 0) == 1,
{
    lemma_calls_made_bounded(c, errors, 0);
}

} // verus!
