use vstd::prelude::*;

use crate::error::ClientError;

verus! {

/// Which operation an exchange belongs to.
#[derive(Debug, Clone, Copy, PartialEq, Eq, Structural)]
pub enum Operation {
    List,
    Get,
    Create,
    Update,
    UpdateMultiple,
    Delete,
}

/// Operations that address one record by id, where a 404 means the record
/// does not exist.
pub open spec fn reports_not_found(op: Operation) -> bool {
    op == Operation::Get || op == Operation::Update || op == Operation::Delete
}

/// How many times to try an exchange and how long to wait in between.
#[derive(Debug, Clone, Copy, PartialEq, Eq, Structural)]
pub struct RetryPolicy {
    /// Attempts in all, the first included.
    pub max_attempts: u32,
    /// Wait before the first retry.
    pub base_delay_ms: u64,
    /// Ceiling on the wait before any retry, jitter aside.
    pub max_delay_ms: u64,
}

/// What came of one attempt.
#[derive(Debug, Clone)]
pub enum Event {
    /// The store answered; `retry_after_ms` carries a `Retry-After` header.
    Response { status: u16, body: String, retry_after_ms: Option<u64> },
    /// The connection failed or timed out.
    TransportFailure,
    /// The caller abandoned the operation.
    Cancelled,
}

/// What to do after an attempt.
#[derive(Debug, Clone)]
pub enum Step {
    /// Hand the successful response to the decoder.
    Deliver { status: u16, body: String },
    /// Wait, then try again.
    Retry { delay_ms: u64 },
    /// Stop with this error.
    Fail(ClientError),
}

/// A 2xx status.
pub open spec fn is_success(status: u16) -> bool {
    200 <= status < 300
}

/// A status worth another attempt: rate limited, or a server error.
pub open spec fn is_retryable(status: u16) -> bool {
    status == 429 || (500 <= status < 600)
}

/// The wait before retry number `attempt + 1`, jitter aside: the base delay
/// doubled once per earlier retry, never above the ceiling.
pub open spec fn backoff_spec(policy: RetryPolicy, attempt: nat) -> int
    decreases attempt,
{
    if attempt == 0 {
        if policy.base_delay_ms <= policy.max_delay_ms {
            policy.base_delay_ms as int
        } else {
            policy.max_delay_ms as int
        }
    } else {
        let d = 2 * backoff_spec(policy, (attempt - 1) as nat);
        if d <= policy.max_delay_ms {
            d
        } else {
            policy.max_delay_ms as int
        }
    }
}

proof fn lemma_backoff_bounded(policy: RetryPolicy, attempt: nat)
    ensures
        0 <= backoff_spec(policy, attempt) <= policy.max_delay_ms,
    decreases attempt,
{
    if attempt > 0 {
        lemma_backoff_bounded(policy, (attempt - 1) as nat);
    }
}

/// The wait before the retry that follows attempt `attempt` (counted from 0).
pub fn backoff_floor(policy: RetryPolicy, attempt: u32) -> (r: u64)
    ensures
        r == backoff_spec(policy, attempt as nat),
{
    let mut d: u64 = if policy.base_delay_ms <= policy.max_delay_ms {
        policy.base_delay_ms
    } else {
        policy.max_delay_ms
    };
    let mut i: u32 = 0;
    while i < attempt
        invariant
            i <= attempt,
            d == backoff_spec(policy, i as nat),
        decreases attempt - i,
    {
        proof {
            lemma_backoff_bounded(policy, i as nat);
        }
        d = if d <= policy.max_delay_ms - d {
            2 * d
        } else {
            policy.max_delay_ms
        };
        i = i + 1;
    }
    d
}

/// The actual wait: the floor plus jitter (saturating), or the server's
/// `Retry-After` when that is longer.
pub open spec fn delay_spec(policy: RetryPolicy, attempt: nat, jitter_ms: u64, retry_after_ms: Option<u64>) -> u64 {
    let jittered = if backoff_spec(policy, attempt) + jitter_ms <= u64::MAX {
        (backoff_spec(policy, attempt) + jitter_ms) as u64
    } else {
        u64::MAX
    };
    match retry_after_ms {
        Some(a) => if a > jittered {
            a
        } else {
            jittered
        },
        None => jittered,
    }
}

/// The decision after attempt `attempt` (counted from 0) of `op` ended with
/// `event`; `jitter_ms` is the random part of a wait.
pub open spec fn step_spec(
    policy: RetryPolicy,
    op: Operation,
    attempt: nat,
    event: Event,
    jitter_ms: u64,
) -> Step {
    let may_retry = attempt + 1 < policy.max_attempts;
    match event {
        Event::Cancelled => Step::Fail(ClientError::Cancelled),
        Event::TransportFailure => if may_retry {
            Step::Retry { delay_ms: delay_spec(policy, attempt, jitter_ms, None) }
        } else {
            Step::Fail(ClientError::Transport)
        },
        Event::Response { status, body, retry_after_ms } => if is_success(status) {
            Step::Deliver { status, body }
        } else if status == 404 && reports_not_found(op) {
            Step::Fail(ClientError::NotFound)
        } else if is_retryable(status) && may_retry {
            Step::Retry { delay_ms: delay_spec(policy, attempt, jitter_ms, retry_after_ms) }
        } else {
            Step::Fail(ClientError::RemoteError { status, body })
        },
    }
}

/// Decides what follows one attempt of an exchange: deliver a 2xx, retry a
/// 429, a 5xx or a failed connection while attempts remain, and otherwise
/// fail; a 404 on an operation that names a record is `NotFound`, and a
/// cancelled attempt is never retried.
pub fn next_step(policy: RetryPolicy, op: Operation, attempt: u32, event: Event, jitter_ms: u64) -> (r:
    Step)
    ensures
        r == step_spec(policy, op, attempt as nat, event, jitter_ms),
{
    let may_retry = (attempt as u64) + 1 < policy.max_attempts as u64;
    match event {
        Event::Cancelled => Step::Fail(ClientError::Cancelled),
        Event::TransportFailure => {
            if may_retry {
                Step::Retry { delay_ms: retry_delay(policy, attempt, jitter_ms, None) }
            } else {
                Step::Fail(ClientError::Transport)
            }
        },
        Event::Response { status, body, retry_after_ms } => {
            let not_found_op = match op {
                Operation::Get | Operation::Update | Operation::Delete => true,
                _ => false,
            };
            if 200 <= status && status < 300 {
                Step::Deliver { status, body }
            } else if status == 404 && not_found_op {
                Step::Fail(ClientError::NotFound)
            } else if (status == 429 || (500 <= status && status < 600)) && may_retry {
                Step::Retry { delay_ms: retry_delay(policy, attempt, jitter_ms, retry_after_ms) }
            } else {
                Step::Fail(ClientError::RemoteError { status, body })
            }
        },
    }
}

/// The wait before the retry that follows attempt `attempt`.
pub fn retry_delay(policy: RetryPolicy, attempt: u32, jitter_ms: u64, retry_after_ms: Option<u64>) -> (r:
    u64)
    ensures
        r == delay_spec(policy, attempt as nat, jitter_ms, retry_after_ms),
        r >= backoff_spec(policy, attempt as nat),
{
    let floor = backoff_floor(policy, attempt);
    let jittered = if jitter_ms <= u64::MAX - floor {
        floor + jitter_ms
    } else {
        u64::MAX
    };
    match retry_after_ms {
        Some(a) => if a > jittered {
            a
        } else {
            jittered
        },
        None => jittered,
    }
}

/// A rate-limited first attempt is retried after at least the backoff
/// floor, and a 2xx on the retry is delivered to the caller unchanged.
pub proof fn lemma_rate_limited_then_ok(
    policy: RetryPolicy,
    op: Operation,
    first_body: String,
    first_retry_after: Option<u64>,
    first_jitter: u64,
    status: u16,
    body: String,
    retry_after: Option<u64>,
    jitter: u64,
)
    requires
        policy.max_attempts >= 2,
        is_success(status),
    ensures
        step_spec(
            policy,
            op,
            0,
            Event::Response { status: 429, body: first_body, retry_after_ms: first_retry_after },
            first_jitter,
        ) matches Step::Retry { delay_ms } && delay_ms >= backoff_spec(policy, 0),
        step_spec(policy, op, 1, Event::Response { status, body, retry_after_ms: retry_after }, jitter)
            == (Step::Deliver { status, body }),
{
    lemma_backoff_bounded(policy, 0);
}

/// A 404 on an operation that names a record is `NotFound`, never a
/// generic remote error, on any attempt.
pub proof fn lemma_missing_record_is_not_found(
    policy: RetryPolicy,
    op: Operation,
    attempt: nat,
    body: String,
    retry_after: Option<u64>,
    jitter: u64,
)
    requires
        reports_not_found(op),
    ensures
        step_spec(policy, op, attempt, Event::Response { status: 404, body, retry_after_ms: retry_after }, jitter)
            == Step::Fail(ClientError::NotFound),
{
}

} // verus!
