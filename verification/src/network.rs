//! The pool's network manager: retry schedules with timeouts and back-off, a
//! fallback between two operations, the network block height read from the block
//! explorer's page, and connectivity checks. The network calls themselves are made
//! by the caller, which feeds their outcomes into the decisions made here.
use vstd::prelude::*;
use crate::error::{classify, kind_recoverable, ErrorKind, PoolServerError};
use crate::text::{concat2, concat3, parse_u64, parse_u64_spec};

verus! {

/// How a network operation is retried.
#[derive(Debug)]
pub struct RetryConfig {
    /// The most attempts made.
    pub max_attempts: u32,
    /// The timeout of the first attempt, in milliseconds.
    pub initial_timeout_ms: u64,
    /// The pause between attempts, in milliseconds.
    pub retry_interval_ms: u64,
    /// Whether timeouts double and pauses grow with each attempt.
    pub use_exponential_backoff: bool,
}

impl Clone for RetryConfig {
    fn clone(&self) -> (r: Self)
        ensures
            r == *self,
    {
        RetryConfig {
            max_attempts: self.max_attempts,
            initial_timeout_ms: self.initial_timeout_ms,
            retry_interval_ms: self.retry_interval_ms,
            use_exponential_backoff: self.use_exponential_backoff,
        }
    }
}

impl Default for RetryConfig {
    /// Three attempts, a 5 s first timeout, 1 s between attempts, exponential back-off.
    fn default() -> (r: Self)
        ensures
            r.max_attempts == 3,
            r.initial_timeout_ms == 5000,
            r.retry_interval_ms == 1000,
            r.use_exponential_backoff,
    {
        RetryConfig {
            max_attempts: 3,
            initial_timeout_ms: 5000,
            retry_interval_ms: 1000,
            use_exponential_backoff: true,
        }
    }
}

/// `2^k`.
pub open spec fn two_to(k: nat) -> nat
    decreases k,
{
    if k == 0 { 1 } else { 2 * two_to((k - 1) as nat) }
}

impl RetryConfig {
    /// The timeout of attempt `attempt` (counted from 1): the initial timeout,
    /// doubled for each earlier attempt under exponential back-off.
    pub open spec fn timeout_for(self, attempt: nat) -> int {
        if self.use_exponential_backoff {
            self.initial_timeout_ms * two_to((attempt - 1) as nat)
        } else {
            self.initial_timeout_ms as int
        }
    }

    /// The pause after failed attempt `attempt`: the interval times the attempt's
    /// number under exponential back-off, else the interval.
    pub open spec fn wait_after(self, attempt: nat) -> int {
        if self.use_exponential_backoff {
            self.retry_interval_ms * attempt
        } else {
            self.retry_interval_ms as int
        }
    }

    /// The timeout of attempt `attempt` fits in a `u64`, and so does the power of
    /// two that the back-off computes for it.
    pub open spec fn attempt_fits(self, attempt: nat) -> bool {
        &&& self.use_exponential_backoff ==> two_to((attempt - 1) as nat) <= u64::MAX
        &&& self.timeout_for(attempt) <= u64::MAX
    }

    /// What follows a failed attempt `attempt` fits in a `u64`: when another
    /// attempt follows, the pause before it and that attempt's timeout.
    pub open spec fn next_fits(self, attempt: nat) -> bool {
        attempt < self.max_attempts ==> self.wait_after(attempt) <= u64::MAX && self.attempt_fits(attempt + 1)
    }

    /// Whether what follows a failed attempt `attempt` fits in a `u64`.
    pub fn fits_after(&self, attempt: u32) -> (b: bool)
        ensures
            b == self.next_fits(attempt as nat),
    {
        if attempt >= self.max_attempts {
            return true;
        }
        if !self.use_exponential_backoff {
            return true;
        }
        if self.retry_interval_ms.checked_mul(attempt as u64).is_none() {
            return false;
        }
        let mut p: u64 = 1;
        let mut k: u32 = 0;
        while k < attempt
            invariant
                self.use_exponential_backoff,
                attempt < self.max_attempts,
                k <= attempt,
                p == two_to(k as nat),
            decreases attempt - k,
        {
            match p.checked_mul(2) {
                Some(q) => {
                    p = q;
                },
                None => {
                    proof {
                        assert(two_to((k + 1) as nat) == 2 * two_to(k as nat));
                        lemma_two_to_monotone((k + 1) as nat, attempt as nat);
                        assert(((attempt + 1) - 1) as nat == attempt as nat);
                    }
                    assert(two_to(((attempt + 1) - 1) as nat) > u64::MAX);
                    return false;
                },
            }
            k = k + 1;
        }
        assert(two_to(((attempt + 1) - 1) as nat) == p);
        self.initial_timeout_ms.checked_mul(p).is_some()
    }

    /// The timeout of an attempt.
    pub fn timeout_ms(&self, attempt: u32) -> (t: u64)
        requires
            1 <= attempt,
            self.attempt_fits(attempt as nat),
        ensures
            t == self.timeout_for(attempt as nat),
    {
        if self.use_exponential_backoff {
            assert(two_to((attempt - 1) as nat) <= u64::MAX);
            let mut p: u64 = 1;
            let mut k: u32 = 0;
            while k < attempt - 1
                invariant
                    k <= attempt - 1,
                    p == two_to(k as nat),
                    two_to((attempt - 1) as nat) <= u64::MAX,
                decreases attempt - 1 - k,
            {
                proof { lemma_two_to_monotone((k + 1) as nat, (attempt - 1) as nat); }
                p = p * 2;
                k = k + 1;
            }
            assert(self.timeout_for(attempt as nat) <= u64::MAX);
            self.initial_timeout_ms * p
        } else {
            self.initial_timeout_ms
        }
    }

    /// The pause after a failed attempt that is not the last.
    pub fn wait_ms(&self, attempt: u32) -> (w: u64)
        requires
            self.wait_after(attempt as nat) <= u64::MAX,
        ensures
            w == self.wait_after(attempt as nat),
    {
        if self.use_exponential_backoff {
            assert(self.wait_after(attempt as nat) <= u64::MAX);
            self.retry_interval_ms * attempt as u64
        } else {
            self.retry_interval_ms
        }
    }
}

proof fn lemma_two_to_monotone(a: nat, b: nat)
    requires
        a <= b,
    ensures
        two_to(a) <= two_to(b),
    decreases b - a,
{
    if a < b {
        lemma_two_to_monotone(a, (b - 1) as nat);
    }
}

/// The network manager: a retry configuration and, once attached, the status
/// monitor that the height estimate reads.
pub struct NetworkManager<M> {
    retry_config: RetryConfig,
    status_monitor: Option<M>,
}

/// How one attempt of an operation ended.
#[derive(Debug)]
pub enum AttemptOutcome {
    /// The operation succeeded.
    Succeeded,
    /// The operation failed with an error whose message is given.
    Failed(String),
    /// The attempt ran out of time.
    TimedOut,
}

/// What to do next in a retried operation.
#[derive(Debug)]
pub enum RetryStep {
    /// Wait `wait_ms` milliseconds, then run attempt `attempt` with a timeout of
    /// `timeout_ms` milliseconds.
    Attempt { attempt: u32, wait_ms: u64, timeout_ms: u64 },
    /// The operation succeeded: return its result.
    Succeeded,
    /// The operation failed for good with this error.
    Failed(PoolServerError),
}

/// The state of a retried operation between attempts.
#[derive(Debug)]
pub struct RetryRun {
    /// The number of the attempt last started.
    pub attempt: u32,
    /// The error of the last failed attempt, if any.
    pub last_error: Option<PoolServerError>,
}

/// The message of the error a timed-out attempt leaves behind.
pub open spec fn timeout_message(name: Seq<char>) -> Seq<char> {
    "操作 '"@ + name + "' 超时"@
}

/// The message of the error when no attempt was made at all.
pub open spec fn no_attempt_message(name: Seq<char>) -> Seq<char> {
    "操作 '"@ + name + "' 失败，未知错误"@
}

/// The operation gives up after attempt `attempt` of `max` ended with `outcome`:
/// the attempt failed and is not followed by another.
pub open spec fn gives_up(outcome: &AttemptOutcome, attempt: u32, max: u32) -> bool {
    !(outcome is Succeeded) && !(outcome_retries(outcome) && attempt < max)
}

/// The kind and message of the error an unsuccessful attempt of the operation
/// `name` leaves behind.
pub open spec fn attempt_error(outcome: &AttemptOutcome, name: Seq<char>) -> (ErrorKind, Seq<char>) {
    match outcome {
        AttemptOutcome::Failed(m) => (classify(m@), m@),
        _ => (ErrorKind::Network, timeout_message(name)),
    }
}

/// An attempt that ended this way is followed by another, if any is left: a
/// timeout or a failure whose error is recoverable.
pub open spec fn outcome_retries(outcome: &AttemptOutcome) -> bool {
    match outcome {
        AttemptOutcome::Succeeded => false,
        AttemptOutcome::Failed(m) => kind_recoverable(classify(m@)),
        AttemptOutcome::TimedOut => true,
    }
}

impl<M> NetworkManager<M> {
    /// A network manager with the given retry configuration and no status monitor.
    pub fn new(retry_config: RetryConfig) -> (n: Self)
        ensures
            n.config() == retry_config,
            !n.has_status_monitor(),
    {
        NetworkManager { retry_config, status_monitor: None }
    }

    /// A network manager with the default retry configuration.
    pub fn default() -> (n: Self)
        ensures
            n.config().max_attempts == 3,
            n.config().initial_timeout_ms == 5000,
            n.config().retry_interval_ms == 1000,
            n.config().use_exponential_backoff,
            !n.has_status_monitor(),
    {
        Self::new(RetryConfig::default())
    }

    /// The retry configuration.
    pub closed spec fn config(&self) -> RetryConfig {
        self.retry_config
    }

    /// Whether a status monitor is attached.
    pub closed spec fn has_status_monitor(&self) -> bool {
        self.status_monitor is Some
    }

    /// The attached status monitor.
    pub closed spec fn monitor(&self) -> Option<M> {
        self.status_monitor
    }

    /// The retry configuration.
    pub fn retry_config(&self) -> (c: &RetryConfig)
        ensures
            *c == self.config(),
    {
        &self.retry_config
    }

    /// The attached status monitor, if any.
    pub fn status_monitor(&self) -> (m: Option<&M>)
        ensures
            m is Some == self.has_status_monitor(),
            m matches Some(r) ==> self.monitor() == Some(*r),
    {
        match &self.status_monitor {
            Some(m) => Some(m),
            None => None,
        }
    }

    /// Attaches a status monitor, replacing any earlier one.
    pub fn set_status_monitor(&mut self, status_monitor: M)
        ensures
            final(self).config() == old(self).config(),
            final(self).monitor() == Some(status_monitor),
            final(self).has_status_monitor(),
    {
        self.status_monitor = Some(status_monitor);
    }

    /// The first step of a retried operation named `operation_name`: attempt 1
    /// with no wait, or, when no attempt is allowed, failure with a network error.
    pub fn begin_retry(&self, operation_name: &str) -> (r: (RetryRun, RetryStep))
        ensures
            retry_step_view(&r.1) == retry_start(self.config(), operation_name@),
            self.config().max_attempts >= 1 ==> r.0.attempt == 1 && r.0.last_error is None && (r.1 matches
                RetryStep::Attempt { attempt, wait_ms, timeout_ms } && attempt == 1 && wait_ms == 0
                && timeout_ms == self.config().timeout_for(1)),
            self.config().max_attempts == 0 ==> (r.1 matches RetryStep::Failed(e) && e.kind() == ErrorKind::Network
                && e.message() == no_attempt_message(operation_name@)),
    {
        if self.retry_config.max_attempts >= 1 {
            assert(two_to(0) == 1);
            let timeout_ms = self.retry_config.timeout_ms(1);
            (RetryRun { attempt: 1, last_error: None }, RetryStep::Attempt { attempt: 1, wait_ms: 0, timeout_ms })
        } else {
            let msg = concat3("操作 '", operation_name, "' 失败，未知错误");
            (RetryRun { attempt: 0, last_error: None }, RetryStep::Failed(PoolServerError::NetworkError(msg)))
        }
    }

    /// The next step of a retried operation after attempt `run.attempt` ended with
    /// `outcome`. Success ends the operation. A failure is classified by its
    /// message; an unrecoverable one ends the operation with that error. A
    /// recoverable failure or a timeout is remembered, and the next attempt follows
    /// after the pause for this attempt; after the last attempt the operation fails
    /// with the remembered error. Attempts are numbered one after another and never
    /// beyond the configured maximum.
    pub fn after_attempt(&self, operation_name: &str, run: RetryRun, outcome: AttemptOutcome) -> (r: (RetryRun, RetryStep))
        requires
            outcome_retries(&outcome) ==> self.config().next_fits(run.attempt as nat),
            1 <= run.attempt <= self.config().max_attempts,
        ensures
            retry_step_view(&r.1) == retry_next(self.config(), operation_name@, run.attempt as nat, outcome_view(&outcome)),
            outcome is Succeeded ==> r.1 is Succeeded,
            outcome matches AttemptOutcome::Failed(m) ==> (!kind_recoverable(classify(m@)) ==> (r.1 matches
                RetryStep::Failed(e) && e.kind() == classify(m@) && e.message() == m@)),
            outcome matches AttemptOutcome::Failed(m) ==> (kind_recoverable(classify(m@)) ==> (r.0.last_error matches
                Some(e) && e.kind() == classify(m@) && e.message() == m@)),
            outcome is TimedOut ==> (r.0.last_error matches Some(e) && e.kind() == ErrorKind::Network && e.message()
                == timeout_message(operation_name@)),
            outcome_retries(&outcome) ==> if run.attempt < self.config().max_attempts {
                r.0.attempt == run.attempt + 1 && (r.1 matches RetryStep::Attempt { attempt, wait_ms, timeout_ms }
                    && attempt == run.attempt + 1 && wait_ms == self.config().wait_after(run.attempt as nat)
                    && timeout_ms == self.config().timeout_for(attempt as nat))
            } else {
                (r.1 matches RetryStep::Failed(e) && (r.0.last_error matches Some(l) && e.kind() == l.kind()
                    && e.message() == l.message()))
            },
            r.1 matches RetryStep::Attempt { attempt, .. } ==> (attempt == run.attempt + 1 && attempt
                <= self.config().max_attempts && r.0.attempt == attempt),
    {
        let err = match outcome {
            AttemptOutcome::Succeeded => {
                return (run, RetryStep::Succeeded);
            },
            AttemptOutcome::Failed(msg) => {
                let e = PoolServerError::from_message(msg);
                if !e.is_recoverable() {
                    return (run, RetryStep::Failed(e));
                }
                e
            },
            AttemptOutcome::TimedOut => {
                PoolServerError::NetworkError(concat3("操作 '", operation_name, "' 超时"))
            },
        };
        if run.attempt < self.retry_config.max_attempts {
            let wait_ms = self.retry_config.wait_ms(run.attempt);
            let next = run.attempt + 1;
            let timeout_ms = self.retry_config.timeout_ms(next);
            (RetryRun { attempt: next, last_error: Some(err) }, RetryStep::Attempt { attempt: next, wait_ms, timeout_ms })
        } else {
            let copy = PoolServerError::new(err.error_kind(), err.message_str().to_string());
            (RetryRun { attempt: run.attempt, last_error: Some(err) }, RetryStep::Failed(copy))
        }
    }
}

/// Which of the two operations of a fallback pair is running.
#[derive(Clone, Copy, Debug, PartialEq, Eq, Structural)]
pub enum FallbackPhase {
    Primary,
    Fallback,
}

/// The state of a primary operation with a fallback, between attempts.
#[derive(Debug)]
pub struct FallbackRun {
    pub phase: FallbackPhase,
    pub run: RetryRun,
}

/// What to do next in a primary operation with a fallback.
#[derive(Debug)]
pub enum FallbackStep {
    /// Wait, then run an attempt of the operation of `phase`.
    Attempt { phase: FallbackPhase, attempt: u32, wait_ms: u64, timeout_ms: u64 },
    /// The operation of `phase` succeeded: its result is the result.
    Succeeded(FallbackPhase),
    /// Both operations failed; this is the fallback's error.
    Failed(PoolServerError),
}

/// The value of an attempt's outcome.
pub enum OutcomeView {
    Succeeded,
    Failed(Seq<char>),
    TimedOut,
}

/// The value of an attempt's outcome.
pub open spec fn outcome_view(o: &AttemptOutcome) -> OutcomeView {
    match o {
        AttemptOutcome::Succeeded => OutcomeView::Succeeded,
        AttemptOutcome::Failed(m) => OutcomeView::Failed(m@),
        AttemptOutcome::TimedOut => OutcomeView::TimedOut,
    }
}

/// Where a retried operation stands: before attempt `n`, succeeded, or failed
/// for good with an error of this kind and message.
pub enum RetryView {
    Attempt(nat),
    Succeeded,
    Failed(ErrorKind, Seq<char>),
}

/// Where a retried operation stands after a step.
pub open spec fn retry_step_view(s: &RetryStep) -> RetryView {
    match s {
        RetryStep::Attempt { attempt, .. } => RetryView::Attempt(*attempt as nat),
        RetryStep::Succeeded => RetryView::Succeeded,
        RetryStep::Failed(e) => RetryView::Failed(e.kind(), e.message()),
    }
}

/// Where a retried operation named `name` starts.
pub open spec fn retry_start(cfg: RetryConfig, name: Seq<char>) -> RetryView {
    if cfg.max_attempts >= 1 {
        RetryView::Attempt(1)
    } else {
        RetryView::Failed(ErrorKind::Network, no_attempt_message(name))
    }
}

/// Where a retried operation stands after attempt `a` ended with `o`.
pub open spec fn retry_next(cfg: RetryConfig, name: Seq<char>, a: nat, o: OutcomeView) -> RetryView {
    match o {
        OutcomeView::Succeeded => RetryView::Succeeded,
        OutcomeView::Failed(m) => if kind_recoverable(classify(m)) && a < cfg.max_attempts {
            RetryView::Attempt(a + 1)
        } else {
            RetryView::Failed(classify(m), m)
        },
        OutcomeView::TimedOut => if a < cfg.max_attempts {
            RetryView::Attempt(a + 1)
        } else {
            RetryView::Failed(ErrorKind::Network, timeout_message(name))
        },
    }
}

/// A retried operation run from `step` on the attempt outcomes `outs`, one per
/// attempt: where it stands when it ends or the outcomes run out, and how many
/// outcomes it used.
pub open spec fn retry_run(cfg: RetryConfig, name: Seq<char>, step: RetryView, outs: Seq<OutcomeView>) -> (RetryView, nat)
    decreases outs.len(),
{
    match step {
        RetryView::Attempt(a) => if outs.len() == 0 {
            (step, 0)
        } else {
            let r = retry_run(cfg, name, retry_next(cfg, name, a, outs[0]), outs.drop_first());
            (r.0, r.1 + 1)
        },
        _ => (step, 0),
    }
}

/// Where an operation with a fallback stands: before attempt `n` of the
/// operation of a phase, succeeded in a phase, or failed for good.
pub enum FallbackView {
    Attempt(FallbackPhase, nat),
    Succeeded(FallbackPhase),
    Failed(ErrorKind, Seq<char>),
}

/// Where an operation with a fallback stands after a step.
pub open spec fn fallback_step_view(s: &FallbackStep) -> FallbackView {
    match s {
        FallbackStep::Attempt { phase, attempt, .. } => FallbackView::Attempt(*phase, *attempt as nat),
        FallbackStep::Succeeded(phase) => FallbackView::Succeeded(*phase),
        FallbackStep::Failed(e) => FallbackView::Failed(e.kind(), e.message()),
    }
}

/// The fallback's retried operation as a stage of the whole.
pub open spec fn in_fallback(r: RetryView) -> FallbackView {
    match r {
        RetryView::Attempt(b) => FallbackView::Attempt(FallbackPhase::Fallback, b),
        RetryView::Succeeded => FallbackView::Succeeded(FallbackPhase::Fallback),
        RetryView::Failed(k, m) => FallbackView::Failed(k, m),
    }
}

/// The primary's retried operation as a stage of the whole: when it fails for
/// good, the fallback starts.
pub open spec fn in_primary(cfg: RetryConfig, fallback_name: Seq<char>, r: RetryView) -> FallbackView {
    match r {
        RetryView::Attempt(b) => FallbackView::Attempt(FallbackPhase::Primary, b),
        RetryView::Succeeded => FallbackView::Succeeded(FallbackPhase::Primary),
        RetryView::Failed(_, _) => in_fallback(retry_start(cfg, fallback_name)),
    }
}

/// Where an operation with a fallback starts.
pub open spec fn fallback_start(cfg: RetryConfig, primary_name: Seq<char>, fallback_name: Seq<char>) -> FallbackView {
    in_primary(cfg, fallback_name, retry_start(cfg, primary_name))
}

/// Where an operation with a fallback stands after attempt `a` of the operation
/// of `phase` ended with `o`.
pub open spec fn fallback_next(
    cfg: RetryConfig,
    primary_name: Seq<char>,
    fallback_name: Seq<char>,
    phase: FallbackPhase,
    a: nat,
    o: OutcomeView,
) -> FallbackView {
    match phase {
        FallbackPhase::Primary => in_primary(cfg, fallback_name, retry_next(cfg, primary_name, a, o)),
        FallbackPhase::Fallback => in_fallback(retry_next(cfg, fallback_name, a, o)),
    }
}

/// An operation with a fallback run from `step` on the attempt outcomes `outs`,
/// one per attempt of either operation: where it stands when it ends or the
/// outcomes run out.
pub open spec fn fallback_run(
    cfg: RetryConfig,
    primary_name: Seq<char>,
    fallback_name: Seq<char>,
    step: FallbackView,
    outs: Seq<OutcomeView>,
) -> FallbackView
    decreases outs.len(),
{
    match step {
        FallbackView::Attempt(phase, a) => if outs.len() == 0 {
            step
        } else {
            fallback_run(
                cfg,
                primary_name,
                fallback_name,
                fallback_next(cfg, primary_name, fallback_name, phase, a, outs[0]),
                outs.drop_first(),
            )
        },
        _ => step,
    }
}

proof fn lemma_fallback_stage(cfg: RetryConfig, p: Seq<char>, f: Seq<char>, r: RetryView, outs: Seq<OutcomeView>)
    ensures
        fallback_run(cfg, p, f, in_fallback(r), outs) == in_fallback(retry_run(cfg, f, r, outs).0),
    decreases outs.len(),
{
    if let RetryView::Attempt(a) = r {
        if outs.len() > 0 {
            lemma_fallback_stage(cfg, p, f, retry_next(cfg, f, a, outs[0]), outs.drop_first());
        }
    }
}

proof fn lemma_retry_run_uses_at_most(cfg: RetryConfig, name: Seq<char>, r: RetryView, outs: Seq<OutcomeView>)
    ensures
        retry_run(cfg, name, r, outs).1 <= outs.len(),
    decreases outs.len(),
{
    if let RetryView::Attempt(a) = r {
        if outs.len() > 0 {
            lemma_retry_run_uses_at_most(cfg, name, retry_next(cfg, name, a, outs[0]), outs.drop_first());
        }
    }
}

proof fn lemma_primary_stage(cfg: RetryConfig, p: Seq<char>, f: Seq<char>, r: RetryView, outs: Seq<OutcomeView>)
    ensures
        ({
            let (pr, n) = retry_run(cfg, p, r, outs);
            fallback_run(cfg, p, f, in_primary(cfg, f, r), outs) == match pr {
                RetryView::Failed(_, _) => fallback_run(cfg, p, f, in_fallback(retry_start(cfg, f)), outs.skip(n as int)),
                _ => in_primary(cfg, f, pr),
            }
        }),
    decreases outs.len(),
{
    match r {
        RetryView::Attempt(a) => {
            if outs.len() > 0 {
                let r2 = retry_next(cfg, p, a, outs[0]);
                lemma_primary_stage(cfg, p, f, r2, outs.drop_first());
                let n2 = retry_run(cfg, p, r2, outs.drop_first()).1;
                lemma_retry_run_uses_at_most(cfg, p, r2, outs.drop_first());
                assert(outs.drop_first().skip(n2 as int) =~= outs.skip((n2 + 1) as int));
            } else {
                assert(outs.skip(0) =~= outs);
            }
        },
        RetryView::Succeeded => {},
        RetryView::Failed(_, _) => {
            assert(outs.skip(0) =~= outs);
        },
    }
}

/// An operation with a fallback, run on any attempt outcomes, is the primary's
/// retried operation followed, only when the primary fails for good, by the
/// fallback's own retried operation on the outcomes that are left. So a primary
/// that succeeds ends the whole with success and the fallback never runs; a
/// primary that fails gives the fallback's result, its success or its own error,
/// and never the primary's error. [`NetworkManager::begin_with_fallback`] and
/// [`NetworkManager::after_fallback_attempt`] take exactly the steps that
/// `fallback_start` and `fallback_next` describe, so a run of them on these
/// outcomes ends where `fallback_run` does.
pub proof fn fallback_run_is_primary_then_fallback(cfg: RetryConfig, p: Seq<char>, f: Seq<char>, outs: Seq<OutcomeView>)
    ensures
        ({
            let (pr, n) = retry_run(cfg, p, retry_start(cfg, p), outs);
            let whole = fallback_run(cfg, p, f, fallback_start(cfg, p, f), outs);
            &&& pr is Succeeded ==> whole == FallbackView::Succeeded(FallbackPhase::Primary)
            &&& pr is Failed ==> whole == in_fallback(retry_run(cfg, f, retry_start(cfg, f), outs.skip(n as int)).0)
            &&& pr matches RetryView::Attempt(b) ==> whole == FallbackView::Attempt(FallbackPhase::Primary, b)
        }),
{
    lemma_primary_stage(cfg, p, f, retry_start(cfg, p), outs);
    let n = retry_run(cfg, p, retry_start(cfg, p), outs).1;
    lemma_fallback_stage(cfg, p, f, retry_start(cfg, f), outs.skip(n as int));
}

impl<M> NetworkManager<M> {
    fn fallback_from(&self, fallback_name: &str, phase: FallbackPhase, r: (RetryRun, RetryStep)) -> (f: (FallbackRun, FallbackStep))
        ensures
            f.0.phase == phase || (phase == FallbackPhase::Primary && f.0.phase == FallbackPhase::Fallback),
            f.0.phase == phase ==> f.0.run.attempt == r.0.attempt,
            (phase == FallbackPhase::Primary && r.1 is Failed && self.config().max_attempts == 0) ==> (f.1 matches
                FallbackStep::Failed(e) && e.kind() == ErrorKind::Network && e.message() == no_attempt_message(fallback_name@)),
            f.1 is Succeeded ==> f.1 == FallbackStep::Succeeded(phase),
            f.1 matches FallbackStep::Attempt { phase: p, attempt, .. } ==> (p == phase || p == FallbackPhase::Fallback)
                && (p == phase ==> (r.1 matches RetryStep::Attempt { attempt: a, .. } && a == attempt)),
            f.1 is Failed ==> phase == FallbackPhase::Fallback || self.config().max_attempts == 0,
            f.1 matches FallbackStep::Attempt { phase: p, .. } ==> f.0.phase == p,
            (r.1 is Attempt || r.1 is Succeeded) ==> f.0.phase == phase,
            r.1 is Succeeded ==> f.1 == FallbackStep::Succeeded(phase),
            r.1 matches RetryStep::Attempt { attempt, wait_ms, timeout_ms } ==> f.1 == (FallbackStep::Attempt {
                phase, attempt, wait_ms, timeout_ms }),
            (phase == FallbackPhase::Primary && r.1 is Failed && self.config().max_attempts >= 1) ==> (f.1
                == FallbackStep::Attempt { phase: FallbackPhase::Fallback, attempt: 1, wait_ms: 0,
                timeout_ms: self.config().timeout_for(1) as u64 } && f.0.phase == FallbackPhase::Fallback
                && f.0.run.attempt == 1),
            (phase == FallbackPhase::Fallback && r.1 is Failed) ==> (f.1 matches FallbackStep::Failed(e) && (r.1
                matches RetryStep::Failed(e0) && e.kind() == e0.kind() && e.message() == e0.message())),
    {
        match r.1 {
            RetryStep::Attempt { attempt, wait_ms, timeout_ms } => {
                (FallbackRun { phase, run: r.0 }, FallbackStep::Attempt { phase, attempt, wait_ms, timeout_ms })
            },
            RetryStep::Succeeded => (FallbackRun { phase, run: r.0 }, FallbackStep::Succeeded(phase)),
            RetryStep::Failed(e) => {
                match phase {
                    FallbackPhase::Fallback => (FallbackRun { phase, run: r.0 }, FallbackStep::Failed(e)),
                    FallbackPhase::Primary => {
                        let (run, step) = self.begin_retry(fallback_name);
                        match step {
                            RetryStep::Attempt { attempt, wait_ms, timeout_ms } => (
                                FallbackRun { phase: FallbackPhase::Fallback, run },
                                FallbackStep::Attempt { phase: FallbackPhase::Fallback, attempt, wait_ms, timeout_ms },
                            ),
                            RetryStep::Succeeded => (
                                FallbackRun { phase: FallbackPhase::Fallback, run },
                                FallbackStep::Succeeded(FallbackPhase::Fallback),
                            ),
                            RetryStep::Failed(e2) => (
                                FallbackRun { phase: FallbackPhase::Fallback, run },
                                FallbackStep::Failed(e2),
                            ),
                        }
                    },
                }
            },
        }
    }

    /// The first step of an operation with a fallback: the primary's first attempt
    /// (or, when no attempt is allowed, the fallback's failure).
    pub fn begin_with_fallback(&self, primary_name: &str, fallback_name: &str) -> (f: (FallbackRun, FallbackStep))
        ensures
            fallback_step_view(&f.1) == fallback_start(self.config(), primary_name@, fallback_name@),
            self.config().max_attempts >= 1 ==> f.0.phase == FallbackPhase::Primary && f.0.run.attempt == 1 && f.1
                == (FallbackStep::Attempt { phase: FallbackPhase::Primary, attempt: 1, wait_ms: 0,
                timeout_ms: self.config().timeout_for(1) as u64 }),
            self.config().max_attempts == 0 ==> (f.1 matches FallbackStep::Failed(e) && e.kind() == ErrorKind::Network
                && e.message() == no_attempt_message(fallback_name@)),
    {
        let r = self.begin_retry(primary_name);
        let f = self.fallback_from(fallback_name, FallbackPhase::Primary, r);
        proof {
            if self.config().max_attempts == 0 {
                // the primary gives up at once, and so does the fallback
            }
        }
        f
    }

    /// The next step of an operation with a fallback after an attempt: the
    /// primary is retried as a retried operation would be; when it fails for good
    /// the fallback starts from its first attempt; the fallback's own failure ends
    /// the operation with the fallback's error.
    pub fn after_fallback_attempt(&self, primary_name: &str, fallback_name: &str, state: FallbackRun, outcome: AttemptOutcome)
        -> (f: (FallbackRun, FallbackStep))
        requires
            outcome_retries(&outcome) ==> self.config().next_fits(state.run.attempt as nat),
            1 <= state.run.attempt <= self.config().max_attempts,
        ensures
            fallback_step_view(&f.1) == fallback_next(
                self.config(),
                primary_name@,
                fallback_name@,
                state.phase,
                state.run.attempt as nat,
                outcome_view(&outcome),
            ),
            outcome is Succeeded ==> f.1 == FallbackStep::Succeeded(state.phase),
            outcome_retries(&outcome) && state.run.attempt < self.config().max_attempts ==> f.1 == (FallbackStep::Attempt {
                phase: state.phase,
                attempt: (state.run.attempt + 1) as u32,
                wait_ms: self.config().wait_after(state.run.attempt as nat) as u64,
                timeout_ms: self.config().timeout_for((state.run.attempt + 1) as nat) as u64,
            }),
            gives_up(&outcome, state.run.attempt, self.config().max_attempts) && state.phase == FallbackPhase::Primary
                ==> f.1 == (FallbackStep::Attempt { phase: FallbackPhase::Fallback, attempt: 1, wait_ms: 0,
                timeout_ms: self.config().timeout_for(1) as u64 }),
            gives_up(&outcome, state.run.attempt, self.config().max_attempts) && state.phase == FallbackPhase::Fallback
                ==> (f.1 matches FallbackStep::Failed(e) && (e.kind(), e.message()) == attempt_error(&outcome, fallback_name@)),
            f.1 is Failed ==> state.phase == FallbackPhase::Fallback,
            f.1 matches FallbackStep::Attempt { phase, attempt, .. } ==> (if phase == state.phase {
                attempt == state.run.attempt + 1
            } else {
                state.phase == FallbackPhase::Primary && phase == FallbackPhase::Fallback && attempt == 1
            }) && attempt <= self.config().max_attempts && f.0.phase == phase && f.0.run.attempt == attempt,
    {
        let name = match state.phase {
            FallbackPhase::Primary => primary_name,
            FallbackPhase::Fallback => fallback_name,
        };
        let phase = state.phase;
        let r = self.after_attempt(name, state.run, outcome);
        self.fallback_from(fallback_name, phase, r)
    }

    /// The fallback estimate of the network height: the attached monitor's
    /// current height (`monitored_height`, read by the caller) plus ten, or ten
    /// when no monitor is attached.
    pub fn estimate_network_height(&self, monitored_height: u64) -> (h: u64)
        requires
            self.has_status_monitor() ==> monitored_height + 10 <= u64::MAX,
        ensures
            h == (if self.has_status_monitor() { monitored_height as int } else { 0 }) + 10,
    {
        let current_height = if self.status_monitor.is_some() { monitored_height } else { 0 };
        current_height + 10
    }
}

/// The height set in `MOCK_NETWORK_BLOCK_HEIGHT` (read by the caller), when it
/// is set and parses as a `u64`; it then stands for the network height.
pub fn mock_network_height(env_value: Option<&str>) -> (h: Option<u64>)
    ensures
        h == match env_value {
            Some(v) => parse_u64_spec(v@),
            None => None,
        },
{
    match env_value {
        Some(v) => parse_u64(v),
        None => None,
    }
}

/// The pattern that finds the latest block height on the explorer's page.
pub const LATEST_BLOCK_PATTERN: &'static str = r"[Ll]atest [Bb]lock.*?(\d+)";

/// What the `regex` crate gives for a pattern, a text and a group number:
/// `Err` when the pattern does not compile, else `None` when the text has no
/// match, else the group's text in the leftmost-first match, if the group took part.
pub uninterp spec fn regex_group(pattern: Seq<char>, text: Seq<char>, group: nat) -> Result<Option<Option<Seq<char>>>, ()>;

/// The view of a capture.
pub open spec fn capture_view(c: Option<Option<String>>) -> Option<Option<Seq<char>>> {
    match c {
        None => None,
        Some(None) => Some(None),
        Some(Some(s)) => Some(Some(s@)),
    }
}

/// The view of a capture result.
pub open spec fn capture_result_view(r: &Result<Option<Option<String>>, ()>) -> Result<Option<Option<Seq<char>>>, ()> {
    match r {
        Ok(c) => Ok(capture_view(*c)),
        Err(_) => Err(()),
    }
}

/// `regex::Regex::new(pattern)`, then `captures(text)` and the text of group
/// `group`: the result is named by [`regex_group`].
#[verifier::external_body]
fn capture_group(pattern: &str, text: &str, group: usize) -> (r: Result<Option<Option<String>>, ()>)
    ensures
        capture_result_view(&r) == regex_group(pattern@, text@, group as nat),
{
    match regex::Regex::new(pattern) {
        Ok(re) => Ok(re.captures(text).map(|c| c.get(group).map(|m| m.as_str().to_string()))),
        Err(_) => Err(()),
    }
}

/// The height that a capture of the latest-block pattern gives: no match, no
/// digits, or digits that do not parse as a `u64` are data errors.
pub open spec fn height_from_capture_spec(c: Option<Option<Seq<char>>>) -> Result<u64, (ErrorKind, Seq<char>)> {
    match c {
        None => Err((ErrorKind::Data, "未找到区块高度信息"@)),
        Some(None) => Err((ErrorKind::Data, "未能提取区块高度数字"@)),
        Some(Some(d)) => match parse_u64_spec(d) {
            Some(h) => Ok(h),
            None => Err((ErrorKind::Data, "无法将提取的区块高度解析为数字"@)),
        },
    }
}

/// The view of a height result.
pub open spec fn height_result_view(r: &Result<u64, PoolServerError>) -> Result<u64, (ErrorKind, Seq<char>)> {
    match r {
        Ok(h) => Ok(*h),
        Err(e) => Err((e.kind(), e.message())),
    }
}

/// The height that a capture of the latest-block pattern gives.
pub fn height_from_capture(c: Option<Option<String>>) -> (r: Result<u64, PoolServerError>)
    ensures
        height_result_view(&r) == height_from_capture_spec(capture_view(c)),
{
    match c {
        None => Err(PoolServerError::DataError("未找到区块高度信息".to_string())),
        Some(None) => Err(PoolServerError::DataError("未能提取区块高度数字".to_string())),
        Some(Some(digits)) => match parse_u64(digits.as_str()) {
            Some(h) => Ok(h),
            None => Err(PoolServerError::DataError("无法将提取的区块高度解析为数字".to_string())),
        },
    }
}

/// The latest block height shown on the explorer's page: the first number after
/// "Latest Block" (either capital optional) on the same line.
pub fn height_from_page(html: &str) -> (r: Result<u64, PoolServerError>)
    ensures
        height_result_view(&r) == match regex_group(LATEST_BLOCK_PATTERN@, html@, 1) {
            Ok(c) => height_from_capture_spec(c),
            Err(_) => height_from_capture_spec(None),
        },
{
    match capture_group(LATEST_BLOCK_PATTERN, html, 1) {
        Ok(c) => height_from_capture(c),
        Err(_) => height_from_capture(None),
    }
}

/// The error of a page request answered with an unsuccessful HTTP status
/// (`status` as the status is displayed).
pub fn http_status_error(status: &str) -> (e: PoolServerError)
    ensures
        e.kind() == ErrorKind::Network,
        e.message() == "HTTP请求失败，状态码: "@ + status@,
{
    PoolServerError::NetworkError(concat2("HTTP请求失败，状态码: ", status))
}

/// How a ping of an endpoint failed.
#[derive(Clone, Copy, Debug, PartialEq, Eq, Structural)]
pub enum PingFailure {
    /// The HTTP client could not be built.
    Client,
    /// The request timed out.
    Timeout,
    /// The connection could not be made.
    Connect,
    /// The request failed otherwise.
    Request,
}

/// The error of a failed ping; `detail` is the underlying error's text.
pub fn ping_error(failure: PingFailure, detail: &str) -> (e: PoolServerError)
    ensures
        e.kind() == ErrorKind::Network,
        e.message() == match failure {
            PingFailure::Client => "创建HTTP客户端失败: "@,
            PingFailure::Timeout => "连接超时: "@,
            PingFailure::Connect => "连接失败: "@,
            PingFailure::Request => "请求失败: "@,
        } + detail@,
{
    let prefix = match failure {
        PingFailure::Client => "创建HTTP客户端失败: ",
        PingFailure::Timeout => "连接超时: ",
        PingFailure::Connect => "连接失败: ",
        PingFailure::Request => "请求失败: ",
    };
    PoolServerError::NetworkError(concat2(prefix, detail))
}

/// After pinging one endpoint: `Some(Ok(true))` ends the check when the endpoint
/// answered with success; otherwise (no success status, or a ping error) the
/// check goes on with the next endpoint (`None`).
pub fn connectivity_after_ping(ping: &Result<bool, PoolServerError>) -> (r: Option<Result<bool, PoolServerError>>)
    ensures
        r is Some <==> (*ping matches Ok(b) && b),
        r matches Some(v) ==> v matches Ok(b) && b,
{
    match ping {
        Ok(true) => Some(Ok(true)),
        _ => None,
    }
}

/// The verdict when no endpoint answered with success.
pub fn no_endpoint_reachable() -> (e: PoolServerError)
    ensures
        e.kind() == ErrorKind::Network,
        e.message() == "无法连接到任何节点"@,
{
    PoolServerError::NetworkError("无法连接到任何节点".to_string())
}

/// How one request for the explorer's page ended.
#[derive(Debug)]
pub enum PageFetchOutcome {
    /// The HTTP client could not be built (the error's text).
    ClientFailed(String),
    /// The request could not be sent (the error's text).
    SendFailed(String),
    /// The server answered with an unsuccessful status (as displayed).
    BadStatus(String),
    /// The body could not be read (the error's text).
    BodyFailed(String),
    /// The page's text.
    Page(String),
}

/// What to do next when polling the explorer for the network height with the
/// pool service's own schedule.
#[derive(Debug)]
pub enum NetworkDataStep {
    /// Wait `wait_secs` seconds, then request the page with a timeout of
    /// `timeout_secs` seconds.
    Attempt { attempt: u32, wait_secs: u64, timeout_secs: u64 },
    /// The network height is known.
    Found(u64),
    /// Every request failed: estimate the height from the local one.
    Estimate,
}

/// The most requests the pool service makes for the explorer's page.
pub const PAGE_FETCH_ATTEMPTS: u32 = 3;

/// The first step: the mocked height when `MOCK_NETWORK_BLOCK_HEIGHT` (read by
/// the caller) parses, else the first request, with a 15 s timeout.
pub fn begin_network_data_fetch(mock: Option<&str>) -> (s: NetworkDataStep)
    ensures
        mock_height_of(mock) matches Some(h) ==> s == NetworkDataStep::Found(h),
        mock_height_of(mock) is None ==> s == (NetworkDataStep::Attempt { attempt: 1, wait_secs: 0, timeout_secs: 15 }),
{
    match mock_network_height(mock) {
        Some(h) => NetworkDataStep::Found(h),
        None => NetworkDataStep::Attempt { attempt: 1, wait_secs: 0, timeout_secs: 15 },
    }
}

/// The height `MOCK_NETWORK_BLOCK_HEIGHT` stands for, if any.
pub open spec fn mock_height_of(mock: Option<&str>) -> Option<u64> {
    match mock {
        Some(v) => parse_u64_spec(v@),
        None => None,
    }
}

/// The error an unsuccessful request leaves behind (`None` for a page).
pub open spec fn page_fetch_error(outcome: &PageFetchOutcome) -> Option<(ErrorKind, Seq<char>)> {
    match outcome {
        PageFetchOutcome::ClientFailed(e) => Some((ErrorKind::Network, "创建HTTP客户端失败: "@ + e@)),
        PageFetchOutcome::SendFailed(e) => Some((ErrorKind::Network, "发送HTTP请求失败: "@ + e@)),
        PageFetchOutcome::BadStatus(st) => Some((ErrorKind::Network, "HTTP请求失败，状态码: "@ + st@)),
        PageFetchOutcome::BodyFailed(e) => Some((ErrorKind::Network, "读取响应内容失败: "@ + e@)),
        PageFetchOutcome::Page(_) => None,
    }
}

/// After request `attempt` ended with `outcome`: a page with a height ends the
/// poll with that height; otherwise the failure's error is reported and the next
/// request follows, after `2 * attempt` seconds (at once after a client that could
/// not be built) and with a timeout of `15 * (attempt + 1)` seconds; after the third
/// request the height is estimated.
pub fn after_network_data_attempt(attempt: u32, outcome: PageFetchOutcome) -> (r: (NetworkDataStep, Option<PoolServerError>))
    requires
        1 <= attempt <= PAGE_FETCH_ATTEMPTS,
    ensures
        outcome matches PageFetchOutcome::Page(html) ==> (height_from_page_spec(html@) is Ok ==> (r.0
            == NetworkDataStep::Found(height_from_page_spec(html@)->Ok_0) && r.1 is None)),
        page_fetch_error(&outcome) matches Some(err) ==> (r.1 matches Some(e) && e.kind() == err.0 && e.message()
            == err.1),
        outcome matches PageFetchOutcome::Page(html) ==> (height_from_page_spec(html@) is Err ==> (r.1 matches Some(e)
            && (e.kind(), e.message()) == height_from_page_spec(html@)->Err_0)),
        r.1 is Some ==> if attempt < PAGE_FETCH_ATTEMPTS {
            r.0 == (NetworkDataStep::Attempt {
                attempt: (attempt + 1) as u32,
                wait_secs: if outcome is ClientFailed { 0 } else { (2 * attempt) as u64 },
                timeout_secs: (15 * (attempt + 1)) as u64,
            })
        } else {
            r.0 == NetworkDataStep::Estimate
        },
{
    let waits = !matches!(outcome, PageFetchOutcome::ClientFailed(_));
    let err = match outcome {
        PageFetchOutcome::ClientFailed(e) => {
            PoolServerError::NetworkError(concat2("创建HTTP客户端失败: ", e.as_str()))
        },
        PageFetchOutcome::SendFailed(e) => PoolServerError::NetworkError(concat2("发送HTTP请求失败: ", e.as_str())),
        PageFetchOutcome::BadStatus(st) => http_status_error(st.as_str()),
        PageFetchOutcome::BodyFailed(e) => PoolServerError::NetworkError(concat2("读取响应内容失败: ", e.as_str())),
        PageFetchOutcome::Page(html) => match height_from_page(html.as_str()) {
            Ok(h) => {
                return (NetworkDataStep::Found(h), None);
            },
            Err(e) => e,
        },
    };
    if attempt < PAGE_FETCH_ATTEMPTS {
        let wait_secs: u64 = if waits { 2 * attempt as u64 } else { 0 };
        let next = attempt + 1;
        (NetworkDataStep::Attempt { attempt: next, wait_secs, timeout_secs: 15 * next as u64 }, Some(err))
    } else {
        (NetworkDataStep::Estimate, Some(err))
    }
}

/// What [`height_from_page`] gives for a page.
pub open spec fn height_from_page_spec(html: Seq<char>) -> Result<u64, (ErrorKind, Seq<char>)> {
    match regex_group(LATEST_BLOCK_PATTERN@, html, 1) {
        Ok(c) => height_from_capture_spec(c),
        Err(_) => height_from_capture_spec(None),
    }
}

/// The network height estimated from the local height: ten blocks ahead.
pub fn estimate_from_height(current_height: u64) -> (h: u64)
    requires
        current_height + 10 <= u64::MAX,
    ensures
        h == current_height + 10,
{
    current_height + 10
}

} // verus!
