//! Rule-action outbox records and the retry schedule of failed deliveries.
use vstd::prelude::*;
use vstd::arithmetic::power2::pow2;
use crate::ids::{is_uuid_v4_text, new_uuid_v4};
use crate::json::Json;
use chrono::NaiveDateTime;

verus! {

/// Whether a failed delivery may be retried.
#[derive(Debug, Clone, Copy, PartialEq, Eq, Structural)]
pub enum FailureClass {
    Retryable,
    Permanent,
}

/// A claimed or dead-lettered outbox row.
pub struct OutboxEventRecord {
    /// Opaque token assigned to this lease. Absent for unclaimed or dead-letter rows.
    pub claim_token: Option<String>,
    pub id: String,
    pub tenant_id: String,
    pub event_type: String,
    pub aggregate_type: String,
    pub aggregate_id: String,
    pub payload: Json,
    pub attempts: i32,
    pub max_attempts: i32,
    pub last_error: Option<String>,
    pub created_at: NaiveDateTime,
    pub updated_at: NaiveDateTime,
}

/// A row to enqueue in the outbox.
pub struct NewOutboxEventRecord {
    pub id: String,
    pub tenant_id: String,
    pub event_type: String,
    pub aggregate_type: String,
    pub aggregate_id: String,
    pub idempotency_key: Option<String>,
    pub payload: Json,
}

/// Counts per outbox state for one tenant.
#[derive(Debug, Clone)]
pub struct OutboxSummaryRecord {
    pub pending_count: i64,
    pub processing_count: i64,
    pub failed_count: i64,
    pub dead_letter_count: i64,
    pub succeeded_count: i64,
    pub oldest_pending_at: Option<NaiveDateTime>,
    pub oldest_pending_age_seconds: Option<i64>,
}

/// `attempts` limited to the range 1 to 8.
pub open spec fn clamped_attempts(attempts: i32) -> nat {
    if attempts < 1 {
        1
    } else if attempts > 8 {
        8
    } else {
        attempts as nat
    }
}

/// A failure is terminal when it is permanent or the attempts are used up.
pub open spec fn failure_is_terminal(attempts: i32, max_attempts: i32, failure: FailureClass) -> bool {
    failure == FailureClass::Permanent || attempts >= max_attempts
}

/// Seconds until the next attempt: two to the clamped attempt count, at most 300.
pub open spec fn retry_delay_secs(attempts: i32) -> int {
    let d = pow2(clamped_attempts(attempts)) as int;
    if d < 300 {
        d
    } else {
        300
    }
}

/// The next state of a failed delivery (`dead_letter` when terminal, `failed`
/// otherwise) and the retry delay in seconds, on the exponential schedule of
/// 2 through 256 seconds.
pub fn failure_disposition(attempts: i32, max_attempts: i32, failure: FailureClass) -> (r: (
    &'static str,
    i64,
))
    ensures
        r.0@ == (if failure_is_terminal(attempts, max_attempts, failure) {
            "dead_letter"@
        } else {
            "failed"@
        }),
        r.1 == retry_delay_secs(attempts),
        failure == FailureClass::Retryable && attempts < max_attempts ==> r.0@ == "failed"@,
        failure == FailureClass::Retryable && attempts >= max_attempts ==> r.0@ == "dead_letter"@,
        failure == FailureClass::Permanent ==> r.0@ == "dead_letter"@,
{
    let terminal = failure == FailureClass::Permanent || attempts >= max_attempts;
    let exponent: u32 = if attempts < 1 {
        1
    } else if attempts > 8 {
        8
    } else {
        attempts as u32
    };
    let mut delay: i64 = 1;
    let mut i: u32 = 0;
    proof {
        vstd::arithmetic::power2::lemma2_to64();
    }
    while i < exponent
        invariant
            i <= exponent <= 8,
            delay as int == pow2(i as nat) as int,
        decreases exponent - i,
    {
        proof {
            vstd::arithmetic::power2::lemma_pow2_unfold((i + 1) as nat);
            vstd::arithmetic::power2::lemma_pow2_strictly_increases(i as nat, 8);
            vstd::arithmetic::power2::lemma2_to64();
        }
        delay = delay * 2;
        i = i + 1;
    }
    let delay = if delay < 300 {
        delay
    } else {
        300
    };
    (if terminal {
        "dead_letter"
    } else {
        "failed"
    }, delay)
}

/// The lease token of one claim: the worker's identifier, a colon and a
/// suffix unique to the claim.
pub fn claim_token_with(worker_id: &str, suffix: &str) -> (r: String)
    ensures
        r@ == worker_id@ + ":"@ + suffix@,
{
    let mut r = String::new();
    r.append(worker_id);
    r.append(":");
    r.append(suffix);
    r
}

/// The lease token of one claim, with a fresh random UUID as its suffix, so
/// that two claims by the same worker never share a token.
pub fn claim_token(worker_id: &str) -> (r: String)
    ensures
        r@.len() == worker_id@.len() + 37,
        r@.take(worker_id@.len() as int) == worker_id@,
        r@[worker_id@.len() as int] == ':',
        is_uuid_v4_text(r@.skip(worker_id@.len() as int + 1)),
{
    let suffix = new_uuid_v4();
    let r = claim_token_with(worker_id, suffix.as_str());
    proof {
        reveal_strlit(":");
        assert(r@.take(worker_id@.len() as int) =~= worker_id@);
        assert(r@.skip(worker_id@.len() as int + 1) =~= suffix@);
    }
    r
}

/// Law: a retryable failure ends the delivery exactly when the attempts are
/// used up; a permanent failure always ends it.
pub proof fn lemma_retryable_failures_retry_until_exhausted(attempts: i32, max_attempts: i32)
    ensures
        failure_is_terminal(attempts, max_attempts, FailureClass::Retryable) <==> attempts
            >= max_attempts,
        failure_is_terminal(attempts, max_attempts, FailureClass::Permanent),
{
}

/// Law: the first retry waits 2 seconds, each further attempt doubles the
/// wait up to the eighth, and from then on the wait stays at 256 seconds.
pub proof fn lemma_retry_delay_doubles(attempts: i32)
    ensures
        attempts <= 1 ==> retry_delay_secs(attempts) == 2,
        attempts >= 8 ==> retry_delay_secs(attempts) == 256,
        1 <= attempts < 8 ==> retry_delay_secs((attempts + 1) as i32) == 2 * retry_delay_secs(
            attempts,
        ),
{
    vstd::arithmetic::power2::lemma2_to64();
}

/// Law: the retry delay never shrinks as attempts grow, and stays within 2 to 256 seconds.
pub proof fn lemma_retry_delay_monotonic(a: i32, b: i32)
    requires
        a <= b,
    ensures
        retry_delay_secs(a) <= retry_delay_secs(b),
        2 <= retry_delay_secs(a) <= 256,
{
    vstd::arithmetic::power2::lemma2_to64();
    if clamped_attempts(a) < clamped_attempts(b) {
        vstd::arithmetic::power2::lemma_pow2_strictly_increases(
            clamped_attempts(a),
            clamped_attempts(b),
        );
    }
    if clamped_attempts(a) < 8 {
        vstd::arithmetic::power2::lemma_pow2_strictly_increases(clamped_attempts(a), 8);
    }
    if 1 < clamped_attempts(a) {
        vstd::arithmetic::power2::lemma_pow2_strictly_increases(1, clamped_attempts(a));
    }
}

} // verus!
