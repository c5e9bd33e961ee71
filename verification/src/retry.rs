//! Failure classification, backoff schedule, and the bounded retry
//! executor.

use vstd::prelude::*;

use crate::error::Error;

verus! {

/// The terminal code of one remote-call attempt, mirroring the gRPC status
/// code space (numeric codes 0 through 16). `Okay` is code 0 (success);
/// every other variant names one failure condition.
#[derive(Clone, Copy, Debug, PartialEq, Eq, Structural)]
pub enum StatusCode {
    Okay,
    Cancelled,
    Unknown,
    InvalidArgument,
    DeadlineExceeded,
    NotFound,
    AlreadyExists,
    PermissionDenied,
    ResourceExhausted,
    FailedPrecondition,
    Aborted,
    OutOfRange,
    Unimplemented,
    Internal,
    Unavailable,
    DataLoss,
    Unauthenticated,
}

/// The verdict on one failed attempt: whether the operation may be tried
/// again.
#[derive(Clone, Copy, Debug, PartialEq, Eq, Structural)]
pub enum RetryErrorType {
    Retryable,
    NonRetryable,
}

/// The classification table. Conditions that are transient by nature
/// (availability, timing, ephemeral load, spurious corruption) are
/// retryable; a malformed or rejected request, an authorization failure, or
/// a structurally impossible operation is not. Every code outside the
/// retryable set, including codes the classifier cannot reason about, is
/// conservatively non-retryable, so a broken collector is never hammered
/// forever.
///
/// A resource-exhausted status with a server-supplied retry hint is a
/// deliberate extension point: until a product decision settles how such a
/// hint interacts with the configured backoff, the status is classified
/// without regard to hints, hence non-retryable.
pub open spec fn classify_spec(code: StatusCode) -> RetryErrorType {
    match code {
        StatusCode::Unavailable => RetryErrorType::Retryable,
        StatusCode::DeadlineExceeded => RetryErrorType::Retryable,
        StatusCode::Cancelled => RetryErrorType::Retryable,
        StatusCode::OutOfRange => RetryErrorType::Retryable,
        StatusCode::DataLoss => RetryErrorType::Retryable,
        _ => RetryErrorType::NonRetryable,
    }
}

/// Classify one failed attempt by its status code.
pub fn classify_status(code: StatusCode) -> (r: RetryErrorType)
    ensures
        r == classify_spec(code),
{
    match code {
        StatusCode::Unavailable => RetryErrorType::Retryable,
        StatusCode::DeadlineExceeded => RetryErrorType::Retryable,
        StatusCode::Cancelled => RetryErrorType::Retryable,
        StatusCode::OutOfRange => RetryErrorType::Retryable,
        StatusCode::DataLoss => RetryErrorType::Retryable,
        _ => RetryErrorType::NonRetryable,
    }
}

/// The classifier is total and conservative: a code is retryable exactly
/// when it is one of the five transient conditions; every other code,
/// known or unknown to the mapping, is non-retryable.
pub proof fn lemma_classify_conservative()
    ensures
        forall|code: StatusCode| classify_spec(code) == RetryErrorType::Retryable <==> (
            code == StatusCode::Unavailable
            || code == StatusCode::DeadlineExceeded
            || code == StatusCode::Cancelled
            || code == StatusCode::OutOfRange
            || code == StatusCode::DataLoss
        ),
{
}

/// The numeric gRPC code space, decoded into the status code model.
/// Numbers outside the documented space 0 through 16 decode
/// conservatively to `Unknown`.
pub open spec fn code_from_number_spec(n: int) -> StatusCode {
    if n == 0 {
        StatusCode::Okay
    } else if n == 1 {
        StatusCode::Cancelled
    } else if n == 2 {
        StatusCode::Unknown
    } else if n == 3 {
        StatusCode::InvalidArgument
    } else if n == 4 {
        StatusCode::DeadlineExceeded
    } else if n == 5 {
        StatusCode::NotFound
    } else if n == 6 {
        StatusCode::AlreadyExists
    } else if n == 7 {
        StatusCode::PermissionDenied
    } else if n == 8 {
        StatusCode::ResourceExhausted
    } else if n == 9 {
        StatusCode::FailedPrecondition
    } else if n == 10 {
        StatusCode::Aborted
    } else if n == 11 {
        StatusCode::OutOfRange
    } else if n == 12 {
        StatusCode::Unimplemented
    } else if n == 13 {
        StatusCode::Internal
    } else if n == 14 {
        StatusCode::Unavailable
    } else if n == 15 {
        StatusCode::DataLoss
    } else if n == 16 {
        StatusCode::Unauthenticated
    } else {
        StatusCode::Unknown
    }
}

/// Decode a numeric gRPC code into the status code model.
pub fn status_code_from_number(n: i32) -> (r: StatusCode)
    ensures
        r == code_from_number_spec(n as int),
{
    match n {
        0 => StatusCode::Okay,
        1 => StatusCode::Cancelled,
        2 => StatusCode::Unknown,
        3 => StatusCode::InvalidArgument,
        4 => StatusCode::DeadlineExceeded,
        5 => StatusCode::NotFound,
        6 => StatusCode::AlreadyExists,
        7 => StatusCode::PermissionDenied,
        8 => StatusCode::ResourceExhausted,
        9 => StatusCode::FailedPrecondition,
        10 => StatusCode::Aborted,
        11 => StatusCode::OutOfRange,
        12 => StatusCode::Unimplemented,
        13 => StatusCode::Internal,
        14 => StatusCode::Unavailable,
        15 => StatusCode::DataLoss,
        16 => StatusCode::Unauthenticated,
        _ => StatusCode::Unknown,
    }
}

#[verifier::external_type_specification]
#[verifier::external_body]
pub struct ExStatus(tonic::Status);

/// The numeric gRPC code a tonic status carries: a function of the status
/// alone, computed by `tonic::Status::code`.
pub uninterp spec fn status_code_num_of(status: tonic::Status) -> int;

/// Relies on `tonic::Status::code` and tonic's `From<Code> for i32` impl:
/// the numeric gRPC code of a status, a function of the status alone,
/// which lies in the documented space 0 through 16.
#[verifier::external_body]
fn status_code_number(status: &tonic::Status) -> (r: i32)
    ensures
        r as int == status_code_num_of(*status),
        0 <= r <= 16,
{
    i32::from(status.code())
}

/// Classify one failed tonic call: the classification table's verdict for
/// the status's numeric gRPC code.
pub fn classify_tonic_status(status: &tonic::Status) -> (r: RetryErrorType)
    ensures
        r == classify_spec(code_from_number_spec(status_code_num_of(*status))),
{
    let n = status_code_number(status);
    let code = status_code_from_number(n);
    classify_status(code)
}

/// The parameters governing retries of one export operation. Immutable
/// once constructed and shared read-only across all export calls on an
/// exporter instance.
#[derive(Clone, Copy, Debug, PartialEq, Eq, Structural)]
pub struct RetryPolicy {
    /// How many retries may follow the first attempt; an operation makes at
    /// most `max_retries + 1` attempts in total.
    pub max_retries: u32,
    /// The delay before the first retry, in milliseconds.
    pub initial_delay_ms: u64,
    /// The cap on the grown delay, in milliseconds (jitter is added after
    /// capping).
    pub max_delay_ms: u64,
    /// The upper bound of the random jitter added to each delay, in
    /// milliseconds.
    pub jitter_ms: u64,
}

impl RetryPolicy {
    /// A policy is well formed when the largest possible delay and the
    /// attempt count both fit their machine types.
    pub open spec fn wf(self) -> bool {
        &&& self.max_delay_ms + self.jitter_ms <= u64::MAX
        &&& self.max_retries < u32::MAX
    }
}

impl Default for RetryPolicy {
    /// The documented default policy: 3 retries, 100 ms initial delay,
    /// 1600 ms delay cap, 100 ms jitter.
    fn default() -> (r: Self)
        ensures
            r == (RetryPolicy {
                max_retries: 3u32,
                initial_delay_ms: 100u64,
                max_delay_ms: 1600u64,
                jitter_ms: 100u64,
            }),
            r.wf(),
    {
        RetryPolicy { max_retries: 3, initial_delay_ms: 100, max_delay_ms: 1600, jitter_ms: 100 }
    }
}

/// The delay before the retry that follows failed attempt `n` (0-based),
/// before jitter: the initial delay doubled per attempt, capped at the
/// policy's delay cap.
pub open spec fn backoff_base_spec(policy: RetryPolicy, n: nat) -> int
    decreases n,
{
    if n == 0 {
        vstd::math::min(policy.initial_delay_ms as int, policy.max_delay_ms as int)
    } else {
        vstd::math::min(2 * backoff_base_spec(policy, (n - 1) as nat), policy.max_delay_ms as int)
    }
}

/// The base delay is a delay: never negative, never above the cap.
pub proof fn lemma_backoff_bounds(policy: RetryPolicy, n: nat)
    ensures
        0 <= backoff_base_spec(policy, n) <= policy.max_delay_ms,
    decreases n,
{
    if n > 0 {
        lemma_backoff_bounds(policy, (n - 1) as nat);
    }
}

/// The base delay never shrinks from one attempt to the next.
pub proof fn lemma_backoff_monotonic(policy: RetryPolicy, n: nat)
    ensures
        backoff_base_spec(policy, n) <= backoff_base_spec(policy, n + 1),
{
    lemma_backoff_bounds(policy, n);
}

/// Once the base delay reaches the cap it stays there: the schedule
/// saturates at the policy's delay cap.
pub proof fn lemma_backoff_saturates(policy: RetryPolicy, n: nat)
    requires
        backoff_base_spec(policy, n) == policy.max_delay_ms,
    ensures
        backoff_base_spec(policy, n + 1) == policy.max_delay_ms,
{
    lemma_backoff_bounds(policy, n);
}

/// Compute the delay before the retry that follows failed attempt
/// `attempt`, with the given jitter sample added after capping.
pub fn backoff_delay(policy: &RetryPolicy, attempt: u32, jitter: u64) -> (r: u64)
    requires
        policy.wf(),
        jitter <= policy.jitter_ms,
    ensures
        r == backoff_base_spec(*policy, attempt as nat) + jitter,
        r <= policy.max_delay_ms + policy.jitter_ms,
{
    proof {
        lemma_backoff_bounds(*policy, attempt as nat);
    }
    let mut d: u64 = if policy.initial_delay_ms < policy.max_delay_ms {
        policy.initial_delay_ms
    } else {
        policy.max_delay_ms
    };
    let mut i: u32 = 0;
    while i < attempt
        invariant
            i <= attempt,
            d == backoff_base_spec(*policy, i as nat),
            d <= policy.max_delay_ms,
        decreases attempt - i,
    {
        if d > policy.max_delay_ms / 2 {
            d = policy.max_delay_ms;
        } else {
            d = 2 * d;
        }
        i = i + 1;
    }
    d + jitter
}

/// Relies on `rand::random_range`: a sample from `0..=bound` lies in
/// that range.
#[verifier::external_body]
fn sample_jitter(bound: u64) -> (r: u64)
    ensures
        r <= bound,
{
    rand::random_range(0..=bound)
}

/// What one remote-call attempt produced: acknowledgement, or a terminal
/// status code describing the failure.
#[derive(Clone, Copy, Debug, PartialEq, Eq, Structural)]
pub enum AttemptOutcome {
    Success,
    Failure(StatusCode),
}

/// What the executor does after one attempt: finish successfully, finish
/// with a terminal error, or sleep for the given number of milliseconds
/// and try again.
#[derive(Clone, Copy, Debug, PartialEq, Eq, Structural)]
pub enum RetryDecision {
    Succeed,
    Fail(Error),
    RetryAfter(u64),
}

/// The executor's step: given the 0-based index of the attempt that just
/// finished, its outcome, and the jitter sample for the next delay, the
/// decision that follows. Success returns at once; a non-retryable failure
/// returns at once without consuming retry budget; a retryable failure
/// within budget waits out the backoff delay; a retryable failure with the
/// budget spent surfaces the last failure.
pub open spec fn decision_spec(
    policy: RetryPolicy,
    attempt: nat,
    outcome: AttemptOutcome,
    jitter: u64,
) -> RetryDecision {
    match outcome {
        AttemptOutcome::Success => RetryDecision::Succeed,
        AttemptOutcome::Failure(code) => {
            if classify_spec(code) == RetryErrorType::NonRetryable {
                RetryDecision::Fail(Error::NonRetryable(code))
            } else if attempt < policy.max_retries {
                RetryDecision::RetryAfter((backoff_base_spec(policy, attempt) + jitter) as u64)
            } else {
                RetryDecision::Fail(Error::RetriesExhausted(code))
            }
        },
    }
}

/// Decide what follows one attempt, with the jitter sample for the next
/// delay given explicitly.
pub fn retry_decision(
    policy: &RetryPolicy,
    attempt: u32,
    outcome: &AttemptOutcome,
    jitter: u64,
) -> (d: RetryDecision)
    requires
        policy.wf(),
        jitter <= policy.jitter_ms,
    ensures
        d == decision_spec(*policy, attempt as nat, *outcome, jitter),
{
    match outcome {
        AttemptOutcome::Success => RetryDecision::Succeed,
        AttemptOutcome::Failure(code) => {
            let class = classify_status(*code);
            if class == RetryErrorType::NonRetryable {
                RetryDecision::Fail(Error::NonRetryable(*code))
            } else if attempt < policy.max_retries {
                RetryDecision::RetryAfter(backoff_delay(policy, attempt, jitter))
            } else {
                RetryDecision::Fail(Error::RetriesExhausted(*code))
            }
        },
    }
}

/// Decide what follows one attempt, drawing a fresh jitter sample for the
/// delay: the decision of `decision_spec` for some jitter within the
/// policy's jitter bound.
pub fn next_decision(policy: &RetryPolicy, attempt: u32, outcome: &AttemptOutcome) -> (d:
    RetryDecision)
    requires
        policy.wf(),
    ensures
        exists|j: u64|
            j <= policy.jitter_ms && d == decision_spec(*policy, attempt as nat, *outcome, j),
{
    let jitter = sample_jitter(policy.jitter_ms);
    let d = retry_decision(policy, attempt, outcome, jitter);
    proof {
        assert(jitter <= policy.jitter_ms && d == decision_spec(
            *policy,
            attempt as nat,
            *outcome,
            jitter,
        ));
    }
    d
}

/// The 0-based index of the attempt on which the executor stops, when the
/// attempts from index `i` on produce the outcomes `outcomes[i]`,
/// `outcomes[i + 1]`, ...: the first attempt at or after `i` that
/// succeeds, fails non-retryably, or spends the retry budget.
pub open spec fn stop_index(policy: RetryPolicy, outcomes: Seq<AttemptOutcome>, i: nat) -> nat
    decreases policy.max_retries - i,
    when i <= policy.max_retries
{
    match outcomes[i as int] {
        AttemptOutcome::Success => i,
        AttemptOutcome::Failure(code) => {
            if classify_spec(code) == RetryErrorType::NonRetryable {
                i
            } else if i < policy.max_retries {
                stop_index(policy, outcomes, i + 1)
            } else {
                i
            }
        },
    }
}

/// The terminal result of one export operation whose attempts produce the
/// given outcomes: acknowledgement if the stopping attempt succeeded, and
/// otherwise its classified failure.
pub open spec fn run_result_spec(policy: RetryPolicy, outcomes: Seq<AttemptOutcome>) -> Result<
    (),
    Error,
> {
    match outcomes[stop_index(policy, outcomes, 0) as int] {
        AttemptOutcome::Success => Ok(()),
        AttemptOutcome::Failure(code) => {
            if classify_spec(code) == RetryErrorType::NonRetryable {
                Err(Error::NonRetryable(code))
            } else {
                Err(Error::RetriesExhausted(code))
            }
        },
    }
}

/// The stopping index lies between the starting attempt and the budget.
pub proof fn lemma_stop_index_bounds(policy: RetryPolicy, outcomes: Seq<AttemptOutcome>, i: nat)
    requires
        i <= policy.max_retries,
    ensures
        i <= stop_index(policy, outcomes, i) <= policy.max_retries,
    decreases policy.max_retries - i,
{
    if i < policy.max_retries {
        lemma_stop_index_bounds(policy, outcomes, i + 1);
    }
}

/// What one bounded run of the executor did: how many attempts it made,
/// the delays it waited between them, and the terminal result.
#[derive(Debug)]
pub struct RetryRun {
    /// Total attempts made, counting the first.
    pub attempts: u32,
    /// The delay, in milliseconds, waited after each non-final attempt.
    pub delays: Vec<u64>,
    /// The terminal result of the operation.
    pub result: Result<(), Error>,
}

/// The bounded retry executor over a schedule of attempt outcomes:
/// `outcomes[k]` is what attempt `k` produces and `jitters[k]` the jitter
/// sample for the delay after it. The executor stops on the first success
/// or non-retryable failure, makes at most `max_retries + 1` attempts,
/// sleeps the backoff schedule's delay between attempts, and always
/// surfaces an explicit terminal result.
pub fn run_retries(policy: &RetryPolicy, outcomes: &Vec<AttemptOutcome>, jitters: &Vec<u64>) -> (r:
    RetryRun)
    requires
        policy.wf(),
        outcomes.len() > policy.max_retries,
        jitters.len() > policy.max_retries,
        forall|k: int| 0 <= k < jitters.len() ==> #[trigger] jitters[k] <= policy.jitter_ms,
    ensures
        r.attempts == stop_index(*policy, outcomes@, 0) + 1,
        1 <= r.attempts <= policy.max_retries + 1,
        r.result == run_result_spec(*policy, outcomes@),
        r.delays.len() == r.attempts - 1,
        forall|k: int|
            0 <= k < r.delays.len() ==> #[trigger] r.delays[k] == backoff_base_spec(
                *policy,
                k as nat,
            ) + jitters[k],
{
    proof {
        lemma_stop_index_bounds(*policy, outcomes@, 0);
    }
    let mut attempt: u32 = 0;
    let mut delays: Vec<u64> = Vec::new();
    loop
        invariant
            policy.wf(),
            outcomes.len() > policy.max_retries,
            jitters.len() > policy.max_retries,
            forall|k: int| 0 <= k < jitters.len() ==> #[trigger] jitters[k] <= policy.jitter_ms,
            attempt <= policy.max_retries,
            stop_index(*policy, outcomes@, 0) == stop_index(*policy, outcomes@, attempt as nat),
            attempt <= stop_index(*policy, outcomes@, attempt as nat),
            delays.len() == attempt,
            forall|k: int|
                0 <= k < delays.len() ==> #[trigger] delays[k] == backoff_base_spec(
                    *policy,
                    k as nat,
                ) + jitters[k],
        decreases policy.max_retries - attempt,
    {
        let outcome = outcomes[attempt as usize];
        let decision = retry_decision(policy, attempt, &outcome, jitters[attempt as usize]);
        proof {
            lemma_stop_index_bounds(*policy, outcomes@, attempt as nat);
            lemma_backoff_bounds(*policy, attempt as nat);
        }
        match decision {
            RetryDecision::Succeed => {
                return RetryRun { attempts: attempt + 1, delays, result: Ok(()) };
            },
            RetryDecision::Fail(e) => {
                return RetryRun { attempts: attempt + 1, delays, result: Err(e) };
            },
            RetryDecision::RetryAfter(delay) => {
                proof {
                    lemma_stop_index_bounds(*policy, outcomes@, attempt as nat + 1);
                }
                delays.push(delay);
                attempt = attempt + 1;
            },
        }
    }
}

/// An outcome that fails with a retryable classification.
pub open spec fn retryable_failure(outcome: AttemptOutcome) -> bool {
    match outcome {
        AttemptOutcome::Success => false,
        AttemptOutcome::Failure(code) => classify_spec(code) == RetryErrorType::Retryable,
    }
}

/// A run of retryable failures is waited out: if every attempt from `i`
/// up to (not counting) `j` fails retryably and `j` is within budget, the
/// executor stops where it would stop had it started at `j`.
proof fn lemma_stop_skips_retryable(
    policy: RetryPolicy,
    outcomes: Seq<AttemptOutcome>,
    i: nat,
    j: nat,
)
    requires
        i <= j <= policy.max_retries,
        forall|k: int| i <= k < j ==> retryable_failure(#[trigger] outcomes[k]),
    ensures
        stop_index(policy, outcomes, i) == stop_index(policy, outcomes, j),
    decreases j - i,
{
    if i < j {
        lemma_stop_skips_retryable(policy, outcomes, i + 1, j);
    }
}

/// Law: a call that fails with a non-retryable classification ends the
/// operation on the spot. The executor stops on the first attempt, makes
/// exactly one attempt, and surfaces that failure, whatever retry budget
/// was left.
pub proof fn lemma_nonretryable_stops_first(
    policy: RetryPolicy,
    outcomes: Seq<AttemptOutcome>,
    code: StatusCode,
)
    requires
        outcomes[0] == AttemptOutcome::Failure(code),
        classify_spec(code) == RetryErrorType::NonRetryable,
    ensures
        stop_index(policy, outcomes, 0) == 0,
        run_result_spec(policy, outcomes) == Err::<(), Error>(Error::NonRetryable(code)),
{
}

/// Law: a call that fails retryably on every allowed attempt spends the
/// whole budget. The executor stops on attempt `max_retries` — so, with
/// `run_retries`' contract, it makes exactly `max_retries + 1` attempts —
/// and surfaces the last failure as an exhausted-retries error.
pub proof fn lemma_retryable_exhausts_budget(
    policy: RetryPolicy,
    outcomes: Seq<AttemptOutcome>,
    code: StatusCode,
)
    requires
        forall|k: int| 0 <= k <= policy.max_retries ==> retryable_failure(#[trigger] outcomes[k]),
        outcomes[policy.max_retries as int] == AttemptOutcome::Failure(code),
    ensures
        stop_index(policy, outcomes, 0) == policy.max_retries,
        run_result_spec(policy, outcomes) == Err::<(), Error>(Error::RetriesExhausted(code)),
{
    lemma_stop_skips_retryable(policy, outcomes, 0, policy.max_retries as nat);
}

/// Law: a call that fails retryably `j` times within budget and then
/// succeeds ends the operation successfully. The executor stops on attempt
/// `j` — so, with `run_retries`' contract, it makes exactly `j + 1`
/// attempts — and returns acknowledgement.
pub proof fn lemma_success_after_retryable_failures(
    policy: RetryPolicy,
    outcomes: Seq<AttemptOutcome>,
    j: nat,
)
    requires
        j <= policy.max_retries,
        forall|k: int| 0 <= k < j ==> retryable_failure(#[trigger] outcomes[k]),
        outcomes[j as int] == AttemptOutcome::Success,
    ensures
        stop_index(policy, outcomes, 0) == j,
        run_result_spec(policy, outcomes) == Ok::<(), Error>(()),
{
    lemma_stop_skips_retryable(policy, outcomes, 0, j);
}

} // verus!
