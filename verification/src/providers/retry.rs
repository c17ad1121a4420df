//! Bounded retries: policy limits, capped exponential backoff with jitter, and the
//! replay rules that decide whether a failed attempt may be repeated.

use std::collections::hash_map::DefaultHasher;
use std::hash::Hasher;
use vstd::std_specs::hash::DefaultHasherAdditionalSpecFns;
use vstd::string::StringSliceAdditionalSpecFns;
use vstd::prelude::*;

use super::contract::{OperationOutcome, ReplaySafety};
use super::error::{configuration_error, ProviderError};

verus! {

/// Bounded retry and backoff settings shared by HTTP providers.
#[derive(Debug, Clone, Copy, PartialEq, Eq, Structural)]
pub struct RetryPolicy {
    pub max_retries: u32,
    pub base_delay_ms: u64,
    pub max_delay_ms: u64,
    pub max_retry_after_ms: u64,
}

/// The first problem of a retry policy, if any.
pub open spec fn retry_policy_problem(p: RetryPolicy) -> Option<Seq<char>> {
    if p.max_retries > 10 {
        Some("自动重试次数不能超过 10"@)
    } else if p.base_delay_ms == 0 || p.max_delay_ms < p.base_delay_ms {
        Some("重试退避配置无效"@)
    } else if p.max_retry_after_ms == 0 {
        Some("Retry-After 上限必须大于零"@)
    } else {
        None
    }
}

/// Two to the power `e`.
pub open spec fn two_pow(e: nat) -> nat
    decreases e,
{
    if e == 0 {
        1
    } else {
        2 * two_pow((e - 1) as nat)
    }
}

/// The cap of the backoff before retry `retry_index`: the base delay doubled per
/// earlier retry (at most 31 times, saturating), bounded by the maximum delay.
pub open spec fn backoff_cap(p: RetryPolicy, retry_index: u32) -> u64 {
    let exponent: nat = if retry_index == 0 {
        0
    } else if retry_index - 1 > 31 {
        31
    } else {
        (retry_index - 1) as nat
    };
    let product = p.base_delay_ms * two_pow(exponent);
    let saturated: int = if product > u64::MAX {
        u64::MAX as int
    } else {
        product as int
    };
    if saturated < p.max_delay_ms {
        saturated as u64
    } else {
        p.max_delay_ms
    }
}

/// The delay before a retry for a given jitter seed: a server-supplied Retry-After hint
/// bounded by the policy, else the seed reduced into `[0, cap]`.
pub open spec fn retry_delay(
    p: RetryPolicy,
    retry_index: u32,
    seed: u64,
    retry_after_ms: Option<u64>,
) -> u64 {
    match retry_after_ms {
        Some(ms) => if ms < p.max_retry_after_ms {
            ms
        } else {
            p.max_retry_after_ms
        },
        None => {
            let cap = backoff_cap(p, retry_index);
            if cap == 0 {
                0
            } else {
                let m: int = if cap == u64::MAX {
                    u64::MAX as int
                } else {
                    cap + 1
                };
                (seed % (m as u64)) as u64
            }
        },
    }
}

/// Powers of two up to the 31st stay within 32 bits.
proof fn lemma_two_pow_bound(k: nat)
    requires
        k <= 31,
    ensures
        two_pow(k) <= 0x8000_0000,
    decreases 31 - k,
{
    if k < 31 {
        lemma_two_pow_bound(k + 1);
    } else {
        reveal_with_fuel(two_pow, 32);
        assert(two_pow(31) == 0x8000_0000);
    }
}

/// The writes that hash the jitter of a retry: the operation ID as `str`'s `Hash` writes
/// it (its UTF-8 bytes, then `0xff`), then the retry index as four little-endian bytes.
pub open spec fn jitter_writes(operation_id: Seq<u8>, retry_index: u32) -> Seq<Seq<u8>> {
    seq![
        operation_id,
        seq![0xffu8],
        seq![
            (retry_index % 256) as u8,
            ((retry_index / 256) % 256) as u8,
            ((retry_index / 65536) % 256) as u8,
            (retry_index / 16777216) as u8,
        ],
    ]
}

/// The jitter seed of a retry: std's `DefaultHasher` (fixed keys) over the writes above.
pub open spec fn jitter_of(operation_id: Seq<u8>, retry_index: u32) -> u64 {
    DefaultHasher::spec_finish(jitter_writes(operation_id, retry_index))
}

/// Hashes the operation and retry index with std's `DefaultHasher` to spread retries.
fn jitter_seed(operation_id: &str, retry_index: u32) -> (r: u64)
    ensures
        r == jitter_of(operation_id.spec_bytes(), retry_index),
{
    let mut hasher = DefaultHasher::new();
    hasher.write(operation_id.as_bytes());
    let terminator: [u8; 1] = [0xff];
    hasher.write(terminator.as_slice());
    let index: [u8; 4] = [
        (retry_index % 256) as u8,
        ((retry_index / 256) % 256) as u8,
        ((retry_index / 65536) % 256) as u8,
        (retry_index / 16777216) as u8,
    ];
    hasher.write(index.as_slice());
    proof {
        assert(terminator@ =~= seq![0xffu8]);
        assert(index@ =~= jitter_writes(operation_id.spec_bytes(), retry_index)[2]);
        assert(hasher@ =~= jitter_writes(operation_id.spec_bytes(), retry_index));
    }
    hasher.finish()
}

impl RetryPolicy {
    /// Rejects unbounded or contradictory retry settings.
    pub fn validate(&self) -> (r: Result<(), ProviderError>)
        ensures
            match retry_policy_problem(*self) {
                Some(m) => r is Err && r->Err_0@ == configuration_error("invalid_retry_policy"@, m),
                None => r is Ok,
            },
    {
        if self.max_retries > 10 {
            return Err(ProviderError::configuration("invalid_retry_policy", "自动重试次数不能超过 10"));
        }
        if self.base_delay_ms == 0 || self.max_delay_ms < self.base_delay_ms {
            return Err(ProviderError::configuration("invalid_retry_policy", "重试退避配置无效"));
        }
        if self.max_retry_after_ms == 0 {
            return Err(ProviderError::configuration("invalid_retry_policy", "Retry-After 上限必须大于零"));
        }
        Ok(())
    }

    /// The backoff cap before retry `retry_index`.
    pub fn backoff_cap_ms(&self, retry_index: u32) -> (r: u64)
        ensures
            r == backoff_cap(*self, retry_index),
    {
        let exponent: u32 = if retry_index == 0 {
            0
        } else if retry_index - 1 > 31 {
            31
        } else {
            retry_index - 1
        };
        let mut multiplier: u64 = 1;
        let mut i: u32 = 0;
        while i < exponent
            invariant
                0 <= i <= exponent,
                exponent <= 31,
                multiplier == two_pow(i as nat),
                multiplier <= 0x8000_0000,
            decreases exponent - i,
        {
            proof {
                lemma_two_pow_bound((i + 1) as nat);
            }
            multiplier = multiplier * 2;
            i = i + 1;
        }
        let saturated: u64 = match self.base_delay_ms.checked_mul(multiplier) {
            Some(v) => v,
            None => u64::MAX,
        };
        if saturated < self.max_delay_ms {
            saturated
        } else {
            self.max_delay_ms
        }
    }

    /// The delay before retry `retry_index` for a given jitter seed.
    pub fn delay_with_seed(&self, retry_index: u32, seed: u64, error: &ProviderError) -> (r: u64)
        ensures
            r == retry_delay(*self, retry_index, seed, error.retry_after_ms),
    {
        match error.retry_after_ms {
            Some(ms) => if ms < self.max_retry_after_ms {
                ms
            } else {
                self.max_retry_after_ms
            },
            None => {
                let cap = self.backoff_cap_ms(retry_index);
                if cap == 0 {
                    0
                } else {
                    let m: u64 = if cap == u64::MAX {
                        u64::MAX
                    } else {
                        cap + 1
                    };
                    seed % m
                }
            },
        }
    }

    /// The delay in milliseconds before retry `retry_index`: the bounded server hint, or
    /// a deterministic jitter within the capped exponential backoff.
    pub fn delay_for(&self, retry_index: u32, operation_id: &str, error: &ProviderError) -> (r: u64)
        ensures
            error.retry_after_ms matches Some(ms) ==> r == (if ms < self.max_retry_after_ms {
                ms
            } else {
                self.max_retry_after_ms
            }),
            error.retry_after_ms is None ==> r <= backoff_cap(*self, retry_index),
            r == retry_delay(*self, retry_index, jitter_of(operation_id.spec_bytes(), retry_index), error.retry_after_ms),
    {
        let seed = jitter_seed(operation_id, retry_index);
        let r = self.delay_with_seed(retry_index, seed, error);
        proof {
            let cap = backoff_cap(*self, retry_index);
            if error.retry_after_ms is None && cap != 0 {
                let m: int = if cap == u64::MAX {
                    u64::MAX as int
                } else {
                    cap + 1
                };
                assert(seed % (m as u64) < m);
            }
        }
        r
    }

    /// Whether another retry is available after the attempts completed so far.
    pub fn has_retry(&self, attempts_completed: u32) -> (r: bool)
        ensures
            r == (attempts_completed <= self.max_retries),
    {
        attempts_completed <= self.max_retries
    }
}

/// Whether an adapter's evidenced replay policy allows retrying a failure.
pub open spec fn replay_allowed(
    replay_safety: ReplaySafety,
    idempotency_key_configured: bool,
    outcome: OperationOutcome,
) -> bool {
    match replay_safety {
        ReplaySafety::VerifiedAlwaysSafe => true,
        ReplaySafety::SafeWithVerifiedIdempotencyKey => idempotency_key_configured,
        ReplaySafety::BeforeRequestBodySentOnly => outcome == OperationOutcome::NotSent,
        ReplaySafety::NeverAutomaticallyReplay => false,
    }
}

/// Whether an adapter's evidenced replay policy allows retrying a failure.
pub fn is_replay_safe(
    replay_safety: ReplaySafety,
    idempotency_key_configured: bool,
    outcome: OperationOutcome,
) -> (r: bool)
    ensures
        r == replay_allowed(replay_safety, idempotency_key_configured, outcome),
{
    match replay_safety {
        ReplaySafety::VerifiedAlwaysSafe => true,
        ReplaySafety::SafeWithVerifiedIdempotencyKey => idempotency_key_configured,
        ReplaySafety::BeforeRequestBodySentOnly => outcome == OperationOutcome::NotSent,
        ReplaySafety::NeverAutomaticallyReplay => false,
    }
}

/// A retry delay never exceeds its bound: the policy's Retry-After cap for server hints,
/// the capped backoff (itself at most the maximum delay) otherwise.
pub proof fn law_retry_delay_is_bounded(p: RetryPolicy, retry_index: u32, seed: u64, hint: Option<u64>)
    ensures
        hint is Some ==> retry_delay(p, retry_index, seed, hint) <= p.max_retry_after_ms,
        hint is None ==> retry_delay(p, retry_index, seed, hint) <= backoff_cap(p, retry_index),
        backoff_cap(p, retry_index) <= p.max_delay_ms,
{
    let cap = backoff_cap(p, retry_index);
    if hint is None && cap != 0 {
        let m: int = if cap == u64::MAX {
            u64::MAX as int
        } else {
            cap + 1
        };
        assert(seed % (m as u64) < m);
    }
}

/// Without a verified idempotency key, a request whose outcome is unknown is only
/// replayed by an adapter verified to be always safe.
pub proof fn law_unknown_outcome_needs_evidence(replay_safety: ReplaySafety)
    ensures
        replay_allowed(replay_safety, false, OperationOutcome::Unknown)
            ==> replay_safety == ReplaySafety::VerifiedAlwaysSafe,
{
}

} // verus!
