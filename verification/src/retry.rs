//! Bounded retry with exponential backoff and jitter.
//!
//! A [`RetryPolicy`] says how often an operation may be attempted and how the
//! pauses between attempts grow. A [`RetryRun`] is one use of a policy: the
//! caller attempts the operation, hands each result to [`RetryRun::record`],
//! and pauses or stops as it is told. The delays come from `tokio_retry`'s
//! exponential strategy and its `jitter`.

use vstd::prelude::*;
use tokio_retry::strategy::ExponentialBackoff;

verus! {

#[verifier::external_type_specification]
#[verifier::external_body]
pub struct ExExponentialBackoff(ExponentialBackoff);

/// The delay, in milliseconds before the factor is applied, that the
/// strategy yields next.
pub uninterp spec fn backoff_current(b: ExponentialBackoff) -> u64;

/// The number by which the strategy multiplies its delay after each yield.
pub uninterp spec fn backoff_base(b: ExponentialBackoff) -> u64;

/// The factor the strategy applies to each delay it yields.
pub uninterp spec fn backoff_factor(b: ExponentialBackoff) -> u64;

/// The strategy's longest delay in milliseconds, where it has one.
pub uninterp spec fn backoff_cap(b: ExponentialBackoff) -> Option<u64>;

/// The product of `a` and `b`, or the largest `u64` where it does not fit.
pub open spec fn saturating_product(a: u64, b: u64) -> u64 {
    if a * b > u64::MAX {
        u64::MAX
    } else {
        (a * b) as u64
    }
}

/// Calls `ExponentialBackoff::from_millis`, which starts a strategy whose
/// first delay and whose multiplier are both `base_ms`, with factor 1 and no
/// longest delay.
#[verifier::external_body]
fn backoff_from_millis(base_ms: u64) -> (b: ExponentialBackoff)
    ensures
        backoff_current(b) == base_ms,
        backoff_base(b) == base_ms,
        backoff_factor(b) == 1,
        backoff_cap(b) is None,
{
    ExponentialBackoff::from_millis(base_ms)
}

/// Calls `ExponentialBackoff::max_delay` with a duration of `cap_ms`
/// milliseconds, which sets the longest delay and leaves the rest as it was.
#[verifier::external_body]
fn backoff_max_delay(b: ExponentialBackoff, cap_ms: u64) -> (capped: ExponentialBackoff)
    ensures
        backoff_current(capped) == backoff_current(b),
        backoff_base(capped) == backoff_base(b),
        backoff_factor(capped) == backoff_factor(b),
        backoff_cap(capped) == Some(cap_ms),
{
    b.max_delay(core::time::Duration::from_millis(cap_ms))
}

/// Calls the strategy's `Iterator::next` and gives the delay in
/// milliseconds. The strategy never ends, and `next` cannot panic: it
/// multiplies saturating and builds durations from whole milliseconds. The
/// delay is the current delay times the factor, saturating. Where that exceeds the
/// longest delay, the longest delay is yielded and the strategy stays as it
/// is; otherwise the current delay is multiplied by the base, saturating.
#[verifier::external_body]
fn backoff_next(b: &mut ExponentialBackoff) -> (delay: Option<u64>)
    ensures
        delay == Some(next_delay_of(*old(b))),
        backoff_base(*final(b)) == backoff_base(*old(b)),
        backoff_factor(*final(b)) == backoff_factor(*old(b)),
        backoff_cap(*final(b)) == backoff_cap(*old(b)),
        backoff_current(*final(b)) == next_current_of(*old(b)),
    no_unwind
{
    b.next().map(|d| d.as_millis() as u64)
}

/// The delay that a strategy yields next.
pub open spec fn next_delay_of(b: ExponentialBackoff) -> u64 {
    let raw = saturating_product(backoff_current(b), backoff_factor(b));
    match backoff_cap(b) {
        Some(cap) => if raw > cap { cap } else { raw },
        None => raw,
    }
}

/// The current delay of a strategy after it has yielded once more.
pub open spec fn next_current_of(b: ExponentialBackoff) -> u64 {
    let raw = saturating_product(backoff_current(b), backoff_factor(b));
    if backoff_cap(b) matches Some(cap) && raw > cap {
        backoff_current(b)
    } else {
        saturating_product(backoff_current(b), backoff_base(b))
    }
}

/// Calls `tokio_retry::strategy::jitter` on a duration of `delay_ms`
/// milliseconds and gives the result in whole milliseconds. The result is
/// the delay scaled by a random number between 0 and 1 in floating point,
/// so nothing is stated of it.
#[verifier::external_body]
fn jitter_millis(delay_ms: u64) -> (jittered: u64)
{
    tokio_retry::strategy::jitter(core::time::Duration::from_millis(delay_ms)).as_millis() as u64
}

/// A randomised delay no longer than `ceiling_ms`.
pub fn jittered_delay(ceiling_ms: u64) -> (delay_ms: u64)
    ensures
        delay_ms <= ceiling_ms,
{
    capped(jitter_millis(ceiling_ms), ceiling_ms)
}

/// What becomes of a delay that jitter has drawn for a pause of at most
/// `ceiling_ms`: the drawn delay where it keeps within the ceiling, and the
/// ceiling itself where it does not.
pub fn capped(drawn_ms: u64, ceiling_ms: u64) -> (delay_ms: u64)
    ensures
        delay_ms == if drawn_ms <= ceiling_ms {
            drawn_ms
        } else {
            ceiling_ms
        },
{
    if drawn_ms <= ceiling_ms {
        drawn_ms
    } else {
        ceiling_ms
    }
}

/// The operation can end its attempt of the given number with an error.
pub open spec fn may_fail_on<T, E, F: Fn(usize) -> Result<T, E>>(operation: F, attempt: usize) -> bool {
    exists|error: E| operation.ensures((attempt,), Err::<T, E>(error))
}

/// How often an operation may be attempted, and how the pauses between
/// attempts grow. Delays are in milliseconds.
#[derive(Debug, Clone, Copy, PartialEq, Eq, Structural)]
pub struct RetryPolicy {
    max_retries: usize,
    initial_delay: u64,
    max_delay: u64,
}

/// The first delay of a policy made by [`RetryPolicy::new`].
pub const DEFAULT_INITIAL_DELAY_MS: u64 = 100;

/// The longest delay of a policy made by [`RetryPolicy::new`].
pub const DEFAULT_MAX_DELAY_MS: u64 = 30000;

/// The attempt count of the default policy.
pub const DEFAULT_MAX_RETRIES: usize = 3;

impl RetryPolicy {
    pub closed spec fn spec_max_retries(&self) -> usize {
        self.max_retries
    }

    pub closed spec fn spec_initial_delay(&self) -> u64 {
        self.initial_delay
    }

    pub closed spec fn spec_max_delay(&self) -> u64 {
        self.max_delay
    }

    /// The number of attempts the policy allows: the configured count, and
    /// one where that is zero, since an operation is always tried once.
    pub open spec fn attempts(&self) -> nat {
        if self.spec_max_retries() == 0 {
            1
        } else {
            self.spec_max_retries() as nat
        }
    }

    /// A policy of `max_retries` attempts with the default delays.
    pub fn new(max_retries: usize) -> (policy: RetryPolicy)
        ensures
            policy.spec_max_retries() == max_retries,
            policy.spec_initial_delay() == DEFAULT_INITIAL_DELAY_MS,
            policy.spec_max_delay() == DEFAULT_MAX_DELAY_MS,
    {
        RetryPolicy {
            max_retries,
            initial_delay: DEFAULT_INITIAL_DELAY_MS,
            max_delay: DEFAULT_MAX_DELAY_MS,
        }
    }

    /// A policy of `max_retries` attempts whose delays start at
    /// `initial_delay` and never exceed `max_delay`, both in milliseconds.
    pub fn with_delays(max_retries: usize, initial_delay: u64, max_delay: u64) -> (policy:
        RetryPolicy)
        ensures
            policy.spec_max_retries() == max_retries,
            policy.spec_initial_delay() == initial_delay,
            policy.spec_max_delay() == max_delay,
    {
        RetryPolicy { max_retries, initial_delay, max_delay }
    }

    #[verifier::when_used_as_spec(spec_max_retries)]
    pub fn max_retries(&self) -> (n: usize)
        ensures
            n == self.spec_max_retries(),
    {
        self.max_retries
    }

    #[verifier::when_used_as_spec(spec_initial_delay)]
    pub fn initial_delay(&self) -> (ms: u64)
        ensures
            ms == self.spec_initial_delay(),
    {
        self.initial_delay
    }

    #[verifier::when_used_as_spec(spec_max_delay)]
    pub fn max_delay(&self) -> (ms: u64)
        ensures
            ms == self.spec_max_delay(),
    {
        self.max_delay
    }

    /// Attempts `operation` until it succeeds or the policy allows no
    /// further attempt, and hands back the result of the last attempt as
    /// it came. The operation is told the number of the attempt, counting
    /// from one. Between two attempts `pause` is called with the length of
    /// the pause in milliseconds, which it is expected to wait out; no
    /// pause is longer than the policy's longest delay, so `pause` need
    /// accept no longer one.
    ///
    /// Every attempt before the last one failed; the last one succeeded
    /// or was the last that the policy allows.
    pub fn execute<T, E, F: Fn(usize) -> Result<T, E>, P: Fn(u64)>(
        &self,
        operation: F,
        pause: P,
    ) -> (res: Result<T, E>)
        requires
            forall|attempt: usize| operation.requires((attempt,)),
            forall|ms: u64| ms <= self.spec_max_delay() ==> pause.requires((ms,)),
        ensures
            exists|last: usize|
                {
                    &&& 1 <= last <= self.attempts()
                    &&& #[trigger] operation.ensures((last,), res)
                    &&& res is Ok || last == self.attempts()
                    &&& forall|earlier: usize|
                        1 <= earlier < last ==> #[trigger] may_fail_on(operation, earlier)
                },
    {
        let mut run = self.begin();
        let mut attempt: usize = 1;
        loop
            invariant
                forall|attempt: usize| operation.requires((attempt,)),
                forall|ms: u64| ms <= self.spec_max_delay() ==> pause.requires((ms,)),
                run@.cap == self.spec_max_delay(),
                1 <= attempt,
                attempt + run@.retries_left == self.attempts(),
                forall|earlier: usize|
                    1 <= earlier < attempt ==> #[trigger] may_fail_on(operation, earlier),
            decreases run@.retries_left,
        {
            let outcome = operation(attempt);
            let ghost tried = outcome;
            match run.record(outcome) {
                RetryStep::Finished(res) => {
                    assert(operation.ensures((attempt,), res));
                    return res;
                },
                RetryStep::Wait(ms) => {
                    assert(tried is Err);
                    assert(operation.ensures((attempt,), Err(tried->Err_0)));
                    assert(may_fail_on(operation, attempt));
                    pause(ms);
                    attempt = attempt + 1;
                },
            }
        }
    }

    /// A run of the policy before its first attempt: the backoff at the
    /// initial delay, and one retry less than attempts are allowed.
    pub open spec fn fresh_run(&self) -> RetryRunView {
        RetryRunView {
            current: self.spec_initial_delay(),
            base: self.spec_initial_delay(),
            cap: self.spec_max_delay(),
            retries_left: (self.attempts() - 1) as nat,
        }
    }

    /// Starts one use of the policy.
    pub fn begin(&self) -> (run: RetryRun)
        ensures
            run@ == self.fresh_run(),
    {
        let strategy = backoff_max_delay(backoff_from_millis(self.initial_delay), self.max_delay);
        let retries_left = if self.max_retries == 0 {
            0
        } else {
            self.max_retries - 1
        };
        RetryRun { strategy, retries_left }
    }
}

impl Default for RetryPolicy {
    fn default() -> (policy: RetryPolicy)
        ensures
            policy.spec_max_retries() == DEFAULT_MAX_RETRIES,
            policy.spec_initial_delay() == DEFAULT_INITIAL_DELAY_MS,
            policy.spec_max_delay() == DEFAULT_MAX_DELAY_MS,
    {
        RetryPolicy::new(DEFAULT_MAX_RETRIES)
    }
}

/// One use of a retry policy: the backoff strategy and the number of
/// retries still allowed.
pub struct RetryRun {
    strategy: ExponentialBackoff,
    retries_left: usize,
}

/// What a [`RetryRun`] is: where its backoff stands and how many retries remain.
pub struct RetryRunView {
    /// The delay before jitter of the next pause, unless the cap is lower.
    pub current: u64,
    /// The multiplier applied to `current` after each pause.
    pub base: u64,
    /// No pause is longer than this.
    pub cap: u64,
    pub retries_left: nat,
}

impl RetryRunView {
    /// The longest the next pause can be.
    pub open spec fn ceiling(self) -> u64 {
        if self.current > self.cap {
            self.cap
        } else {
            self.current
        }
    }

    /// The run after one more pause.
    pub open spec fn after_pause(self) -> RetryRunView {
        RetryRunView {
            current: if self.current > self.cap {
                self.current
            } else {
                saturating_product(self.current, self.base)
            },
            retries_left: (self.retries_left - 1) as nat,
            ..self
        }
    }

    /// The longest that each pause still allowed can be, in order.
    pub open spec fn ceilings(self) -> Seq<u64>
        decreases self.retries_left,
    {
        if self.retries_left == 0 {
            Seq::<u64>::empty()
        } else {
            seq![self.ceiling()] + self.after_pause().ceilings()
        }
    }

    /// The run after the caller has learnt that an attempt failed.
    pub open spec fn after_failure(self) -> RetryRunView {
        if self.retries_left == 0 {
            self
        } else {
            self.after_pause()
        }
    }
}

/// No pause of a run is longer than the longest delay, and the first one
/// is no longer than the delay at which the backoff stands.
pub proof fn law_pauses_are_capped(run: RetryRunView)
    ensures
        run.ceilings().len() == run.retries_left,
        forall|i: int| 0 <= i < run.ceilings().len() ==> #[trigger] run.ceilings()[i] <= run.cap,
        run.retries_left > 0 ==> run.ceilings()[0] <= run.current,
    decreases run.retries_left,
{
    if run.retries_left > 0 {
        law_pauses_are_capped(run.after_pause());
        let rest = run.after_pause().ceilings();
        assert forall|i: int| 0 <= i < run.ceilings().len() implies #[trigger] run.ceilings()[i]
            <= run.cap by {
            if i > 0 {
                assert(run.ceilings()[i] == rest[i - 1]);
            }
        }
    }
}

/// Whether an attempt that ended as `outcome` ends the operation, for a run
/// that still allows `retries_left` retries.
pub open spec fn ends_operation<T, E>(retries_left: nat, outcome: Result<T, E>) -> bool {
    outcome is Ok || retries_left == 0
}

/// The course of an operation whose successive attempts end as `outcomes`
/// do, under a run that allows `retries_left` retries: how many attempts are
/// made, and the result handed back. `None` where the listed outcomes run
/// out before the operation is over.
pub open spec fn settle<T, E>(retries_left: nat, outcomes: Seq<Result<T, E>>) -> Option<
    (nat, Result<T, E>),
>
    decreases outcomes.len(),
{
    if outcomes.len() == 0 {
        None
    } else if ends_operation(retries_left, outcomes[0]) {
        Some((1nat, outcomes[0]))
    } else {
        match settle((retries_left - 1) as nat, outcomes.drop_first()) {
            Some((attempts, result)) => Some((attempts + 1, result)),
            None => None,
        }
    }
}

proof fn lemma_settle_first_success<T, E>(retries_left: nat, outcomes: Seq<Result<T, E>>, n: nat)
    requires
        1 <= n <= retries_left + 1,
        n <= outcomes.len(),
        forall|i: int| 0 <= i < n - 1 ==> (#[trigger] outcomes[i]) is Err,
        outcomes[n - 1] is Ok,
    ensures
        settle(retries_left, outcomes) == Some((n, outcomes[n - 1])),
    decreases n,
{
    if n > 1 {
        let rest = outcomes.drop_first();
        assert forall|i: int| 0 <= i < n - 2 implies (#[trigger] rest[i]) is Err by {
            assert(rest[i] == outcomes[i + 1]);
        }
        assert(rest[n - 2] == outcomes[n - 1]);
        lemma_settle_first_success((retries_left - 1) as nat, rest, (n - 1) as nat);
        assert(outcomes[0] is Err);
    }
}

proof fn lemma_settle_all_fail<T, E>(retries_left: nat, outcomes: Seq<Result<T, E>>)
    requires
        outcomes.len() >= retries_left + 1,
        forall|i: int| 0 <= i <= retries_left ==> (#[trigger] outcomes[i]) is Err,
    ensures
        settle(retries_left, outcomes) == Some((retries_left + 1, outcomes[retries_left as int])),
    decreases retries_left,
{
    if retries_left > 0 {
        let rest = outcomes.drop_first();
        assert forall|i: int| 0 <= i <= retries_left - 1 implies (#[trigger] rest[i]) is Err by {
            assert(rest[i] == outcomes[i + 1]);
        }
        assert(rest[retries_left - 1] == outcomes[retries_left as int]);
        lemma_settle_all_fail((retries_left - 1) as nat, rest);
        assert(outcomes[0] is Err);
    }
}

/// An operation that fails on each of its first `n - 1` attempts and
/// succeeds on the `n`-th, with `n` no more than the attempts the policy
/// allows, is attempted `n` times and ends with the value of that success.
pub proof fn law_success_within_attempts<T, E>(
    policy: RetryPolicy,
    outcomes: Seq<Result<T, E>>,
    n: nat,
)
    requires
        1 <= n <= policy.attempts(),
        n <= outcomes.len(),
        forall|i: int| 0 <= i < n - 1 ==> (#[trigger] outcomes[i]) is Err,
        outcomes[n - 1] is Ok,
    ensures
        settle((policy.attempts() - 1) as nat, outcomes) == Some((n, outcomes[n - 1])),
{
    lemma_settle_first_success((policy.attempts() - 1) as nat, outcomes, n);
}

/// An operation that fails on every attempt is attempted exactly as often
/// as the policy's attempt count says, and ends with the error of its last
/// attempt, unchanged.
pub proof fn law_last_error_after_max_attempts<T, E>(
    policy: RetryPolicy,
    outcomes: Seq<Result<T, E>>,
)
    requires
        policy.spec_max_retries() >= 1,
        outcomes.len() >= policy.spec_max_retries(),
        forall|i: int| 0 <= i < policy.spec_max_retries() ==> (#[trigger] outcomes[i]) is Err,
    ensures
        settle((policy.attempts() - 1) as nat, outcomes) == Some(
            (policy.spec_max_retries() as nat, outcomes[policy.spec_max_retries() - 1]),
        ),
{
    lemma_settle_all_fail((policy.attempts() - 1) as nat, outcomes);
}

/// What the caller of a retried operation does next.
#[derive(Debug)]
pub enum RetryStep<T, E> {
    /// The operation is over, with this result.
    Finished(Result<T, E>),
    /// Pause for so many milliseconds, then attempt again.
    Wait(u64),
}

impl View for RetryRun {
    type V = RetryRunView;

    closed spec fn view(&self) -> RetryRunView {
        RetryRunView {
            current: backoff_current(self.strategy),
            base: backoff_base(self.strategy),
            cap: backoff_cap(self.strategy).unwrap(),
            retries_left: self.retries_left as nat,
        }
    }
}

impl RetryRun {
    #[verifier::type_invariant]
    spec fn inv(self) -> bool {
        backoff_factor(self.strategy) == 1 && backoff_cap(self.strategy) is Some
    }

    /// The number of retries still allowed.
    pub fn retries_left(&self) -> (n: usize)
        ensures
            n == self@.retries_left,
    {
        self.retries_left
    }

    /// Uses the run up: the longest that each of its remaining pauses
    /// could have been, in order and before jitter.
    pub fn ceilings(self) -> (pauses: Vec<u64>)
        ensures
            pauses@ == self@.ceilings(),
    {
        let ghost whole = self@;
        let mut run = self;
        let mut pauses: Vec<u64> = Vec::new();
        while run.retries_left > 0
            invariant
                pauses@ + run@.ceilings() == whole.ceilings(),
            decreases run.retries_left,
        {
            proof {
                use_type_invariant(&run);
            }
            let ghost before = run@;
            let ghost collected = pauses@;
            let raw = backoff_next(&mut run.strategy);
            run.retries_left = run.retries_left - 1;
            match raw {
                Some(ceiling) => {
                    pauses.push(ceiling);
                },
                None => {},
            }
            proof {
                assert(run@ == before.after_pause());
                assert(pauses@ + run@.ceilings() =~= collected + (seq![before.ceiling()]
                    + before.after_pause().ceilings()));
            }
        }
        proof {
            assert(pauses@ + run@.ceilings() =~= pauses@);
        }
        pauses
    }

    /// Called after a failed attempt: the pause before the next attempt, or
    /// `None` where no attempt is left. The pause is jittered, so only its
    /// ceiling is known.
    pub fn next_delay(&mut self) -> (delay: Option<u64>)
        ensures
            final(self)@ == old(self)@.after_failure(),
            old(self)@.retries_left == 0 <==> delay is None,
            delay matches Some(ms) ==> ms <= old(self)@.ceiling(),
    {
        proof {
            use_type_invariant(&*self);
        }
        if self.retries_left == 0 {
            return None;
        }
        let ceiling = backoff_next(&mut self.strategy);
        self.retries_left = self.retries_left - 1;
        match ceiling {
            Some(ms) => Some(jittered_delay(ms)),
            None => Some(0),
        }
    }

    /// As [`RetryRun::next_delay`] where `retryable` holds. Where it does
    /// not, the failure is final: no pause is given and the run stays as
    /// it is.
    pub fn next_delay_if(&mut self, retryable: bool) -> (delay: Option<u64>)
        ensures
            final(self)@ == if retryable {
                old(self)@.after_failure()
            } else {
                old(self)@
            },
            delay is Some <==> retryable && old(self)@.retries_left > 0,
            delay matches Some(ms) ==> ms <= old(self)@.ceiling(),
    {
        if retryable {
            self.next_delay()
        } else {
            None
        }
    }

    /// Takes the result of one attempt and says what follows: a success ends
    /// the operation with its value; a failure ends it with that same error
    /// where no attempt is left, and otherwise asks for a pause.
    pub fn record<T, E>(&mut self, outcome: Result<T, E>) -> (step: RetryStep<T, E>)
        ensures
            step is Finished <==> ends_operation(old(self)@.retries_left, outcome),
            outcome is Ok ==> step == RetryStep::Finished(outcome) && final(self)@ == old(self)@,
            outcome is Err ==> final(self)@ == old(self)@.after_failure(),
            outcome is Err && old(self)@.retries_left == 0 ==> step == RetryStep::Finished(
                outcome,
            ),
            outcome is Err && old(self)@.retries_left > 0 ==> (step matches RetryStep::Wait(ms)
                && ms <= old(self)@.ceiling()),
    {
        match outcome {
            Ok(value) => RetryStep::Finished(Ok(value)),
            Err(error) => {
                match self.next_delay() {
                    Some(ms) => RetryStep::Wait(ms),
                    None => RetryStep::Finished(Err(error)),
                }
            },
        }
    }
}

} // verus!
