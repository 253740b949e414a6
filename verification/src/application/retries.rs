//! Retry policies: how many times a failed operation is attempted again and
//! how long to wait before each new attempt.

use vstd::prelude::*;
use rand::Rng;

verus! {

/// How many times a failed operation may be retried.
#[derive(Clone, Copy, Debug, PartialEq, Eq, Structural)]
pub enum Retry {
    NTimes(u32),
}

/// Randomisation applied to an exponential delay.
#[derive(Clone, Copy, Debug, PartialEq, Eq, Structural)]
pub enum Jitter {
    /// Wait a uniformly random time below the computed delay.
    Full,
}

/// The delay grows by a factor of `base` (two when none is given) with each
/// attempt, and never exceeds `max_delay`.
#[derive(Clone, Copy, Debug, PartialEq, Eq, Structural)]
pub struct ExponentialBackoff {
    pub retries: Retry,
    pub delay: u64,
    pub base: Option<u64>,
    pub max_delay: u64,
    pub jitter: Option<Jitter>,
}

/// The same delay before every attempt.
#[derive(Clone, Copy, Debug, PartialEq, Eq, Structural)]
pub struct FixedBackoff {
    pub retries: Retry,
    pub delay: u64,
}

/// The delay grows by `delay` with each attempt.
#[derive(Clone, Copy, Debug, PartialEq, Eq, Structural)]
pub struct LinearBackoff {
    pub retries: Retry,
    pub delay: u64,
}

/// Retries immediately.
#[derive(Clone, Copy, Debug, PartialEq, Eq, Structural)]
pub struct NoBackoff {
    pub retries: Retry,
}

#[derive(Clone, Copy, Debug, PartialEq, Eq, Structural)]
pub enum RetryPolicy {
    ExponentialBackoff(ExponentialBackoff),
    FixedBackoff(FixedBackoff),
    LinearBackoff(LinearBackoff),
    NoBackoff(NoBackoff),
}

/// What a caller's error classifier asks of the retry loop after a failure.
#[derive(Clone, Copy, Debug, PartialEq, Eq, Structural)]
pub enum RetryStrategyAction {
    ReturnResult,
    ContinueRetries,
}

/// What the retry loop does after a failed attempt.
#[derive(Clone, Copy, Debug, PartialEq, Eq, Structural)]
pub enum RetryDecision {
    /// Return the last error to the caller.
    GiveUp,
    /// Wait this many milliseconds, then attempt again.
    RetryAfter(u64),
}

/// `b` to the power `e`, over the naturals.
pub open spec fn power(b: nat, e: nat) -> nat
    decreases e,
{
    if e == 0 {
        1
    } else {
        b * power(b, (e - 1) as nat)
    }
}

pub open spec fn min_nat(a: nat, b: nat) -> nat {
    if a <= b {
        a
    } else {
        b
    }
}

/// The factor applied by an exponential backoff when none is configured.
pub open spec fn effective_base(base: Option<u64>) -> nat {
    match base {
        Some(b) => b as nat,
        None => 2,
    }
}

/// The number of retries a policy allows after the first attempt.
pub open spec fn retries_of(policy: RetryPolicy) -> nat {
    let r = match policy {
        RetryPolicy::ExponentialBackoff(p) => p.retries,
        RetryPolicy::FixedBackoff(p) => p.retries,
        RetryPolicy::LinearBackoff(p) => p.retries,
        RetryPolicy::NoBackoff(p) => p.retries,
    };
    match r {
        Retry::NTimes(n) => n as nat,
    }
}

/// The delay configured on a policy.
pub open spec fn delay_of(policy: RetryPolicy) -> nat {
    match policy {
        RetryPolicy::ExponentialBackoff(p) => p.delay as nat,
        RetryPolicy::FixedBackoff(p) => p.delay as nat,
        RetryPolicy::LinearBackoff(p) => p.delay as nat,
        RetryPolicy::NoBackoff(_) => 0,
    }
}

/// Whether the policy randomises its delays.
pub open spec fn is_jittered(policy: RetryPolicy) -> bool {
    match policy {
        RetryPolicy::ExponentialBackoff(p) => match p.jitter {
            Some(Jitter::Full) => true,
            None => false,
        },
        _ => false,
    }
}

/// The delay before attempt number `attempt + 1` (counting the first retry as
/// attempt one), before any jitter: `delay` grown as the policy says, an
/// exponential one capped at its maximum, a linear one capped at `u64::MAX`.
pub open spec fn backoff_ceiling_spec(delay: nat, attempt: nat, policy: RetryPolicy) -> nat {
    match policy {
        RetryPolicy::ExponentialBackoff(p) => min_nat(
            delay * power(effective_base(p.base), attempt),
            p.max_delay as nat,
        ),
        RetryPolicy::FixedBackoff(_) => delay,
        RetryPolicy::LinearBackoff(_) => min_nat(delay * (attempt + 1), u64::MAX as nat),
        RetryPolicy::NoBackoff(_) => 0,
    }
}

proof fn lemma_power_step(b: nat, e: nat)
    ensures
        power(b, e + 1) == b * power(b, e),
{
}

proof fn lemma_power_monotone(b: nat, e1: nat, e2: nat)
    requires
        b >= 1,
        e1 <= e2,
    ensures
        power(b, e1) <= power(b, e2),
    decreases e2 - e1,
{
    if e1 < e2 {
        lemma_power_monotone(b, e1, (e2 - 1) as nat);
        assert(power(b, e2) == b * power(b, (e2 - 1) as nat));
        assert(b * power(b, (e2 - 1) as nat) >= power(b, (e2 - 1) as nat)) by (nonlinear_arith)
            requires
                b >= 1,
        ;
    }
}

proof fn lemma_scaled_power_monotone(d: nat, b: nat, e1: nat, e2: nat)
    requires
        b >= 1,
        e1 <= e2,
    ensures
        d * power(b, e1) <= d * power(b, e2),
{
    lemma_power_monotone(b, e1, e2);
    let p1 = power(b, e1);
    let p2 = power(b, e2);
    assert(d * p1 <= d * p2) by (nonlinear_arith)
        requires
            p1 <= p2,
    ;
}

proof fn lemma_scaled_power_step(d: nat, b: nat, e: nat)
    ensures
        d * power(b, e + 1) == (d * power(b, e)) * b,
{
    lemma_power_step(b, e);
    let p = power(b, e);
    assert(d * (b * p) == (d * p) * b) by (nonlinear_arith);
}

/// `delay * base^attempt`, capped at `max_delay`, computed without overflow.
fn exponential_ceiling(delay: u64, attempt: u32, base: u64, max_delay: u64) -> (d: u64)
    ensures
        d as nat == min_nat((delay as nat) * power(base as nat, attempt as nat), max_delay as nat),
{
    let mut cur: u64 = delay;
    let mut i: u32 = 0;
    assert(power(base as nat, 0) == 1);
    assert((delay as nat) * 1 == delay as nat);
    while i < attempt
        invariant
            i <= attempt,
            cur as nat == (delay as nat) * power(base as nat, i as nat),
        decreases attempt - i,
    {
        if base >= 1 && cur > max_delay {
            proof {
                lemma_scaled_power_monotone(delay as nat, base as nat, i as nat, attempt as nat);
            }
            return max_delay;
        }
        proof {
            lemma_scaled_power_step(delay as nat, base as nat, i as nat);
        }
        match cur.checked_mul(base) {
            Some(next) => {
                cur = next;
            },
            None => {
                proof {
                    if base == 0 {
                        assert((cur as int) * (base as int) == 0) by (nonlinear_arith)
                            requires
                                base == 0,
                        ;
                    }
                    assert(base >= 1);
                    lemma_scaled_power_monotone(
                        delay as nat,
                        base as nat,
                        (i + 1) as nat,
                        attempt as nat,
                    );
                }
                return max_delay;
            },
        }
        i = i + 1;
    }
    if cur < max_delay {
        cur
    } else {
        max_delay
    }
}

/// The delay, in milliseconds, that a policy sets before attempt number
/// `attempt + 1`, before any jitter.
pub fn backoff_ceiling(delay: &u64, attempt: &u32, policy: &RetryPolicy) -> (d: u64)
    ensures
        d as nat == backoff_ceiling_spec(*delay as nat, *attempt as nat, *policy),
{
    match policy {
        RetryPolicy::ExponentialBackoff(p) => {
            let base = match p.base {
                Some(b) => b,
                None => 2,
            };
            exponential_ceiling(*delay, *attempt, base, p.max_delay)
        },
        RetryPolicy::FixedBackoff(_) => *delay,
        RetryPolicy::LinearBackoff(_) => {
            let factor: u64 = *attempt as u64 + 1;
            match delay.checked_mul(factor) {
                Some(d) => d,
                None => u64::MAX,
            }
        },
        RetryPolicy::NoBackoff(_) => 0,
    }
}

/// A uniformly random number below `bound`, from the thread-local generator
/// of `rand`. `Rng::gen_range` panics on an empty range, hence the bound must
/// be positive; what the number is, beyond its range, is left to chance.
#[verifier::external_body]
fn random_below(bound: u64) -> (r: u64)
    requires
        bound > 0,
    ensures
        r < bound,
{
    rand::thread_rng().gen_range(0..bound)
}

/// The delay, in milliseconds, before attempt number `attempt + 1`: the
/// policy's ceiling, or with full jitter a random value below it (zero when
/// the ceiling is zero).
pub fn calculate_delay(delay: &u64, attempt: &u32, policy: &RetryPolicy) -> (d: u64)
    ensures
        !is_jittered(*policy) ==> d as nat == backoff_ceiling_spec(
            *delay as nat,
            *attempt as nat,
            *policy,
        ),
        is_jittered(*policy) ==> d as nat <= backoff_ceiling_spec(
            *delay as nat,
            *attempt as nat,
            *policy,
        ),
        is_jittered(*policy) && backoff_ceiling_spec(*delay as nat, *attempt as nat, *policy) > 0
            ==> (d as nat) < backoff_ceiling_spec(*delay as nat, *attempt as nat, *policy),
{
    let ceiling = backoff_ceiling(delay, attempt, policy);
    let jittered = match policy {
        RetryPolicy::ExponentialBackoff(p) => match p.jitter {
            Some(Jitter::Full) => true,
            None => false,
        },
        _ => false,
    };
    assert(jittered == is_jittered(*policy));
    if jittered {
        if ceiling == 0 {
            0
        } else {
            random_below(ceiling)
        }
    } else {
        ceiling
    }
}

/// The policy of repository calls: three retries, 50 milliseconds apart.
pub fn repository_retry_policy() -> (p: RetryPolicy)
    ensures
        p == RetryPolicy::FixedBackoff(FixedBackoff { retries: Retry::NTimes(3), delay: 50 }),
{
    RetryPolicy::FixedBackoff(FixedBackoff { retries: Retry::NTimes(3), delay: 50 })
}

/// The policy of publishing to a message queue: three retries, from 50
/// milliseconds doubling up to 500, with full jitter.
pub fn publisher_retry_policy() -> (p: RetryPolicy)
    ensures
        p == RetryPolicy::ExponentialBackoff(
            ExponentialBackoff {
                retries: Retry::NTimes(3),
                delay: 50,
                base: Some(2),
                max_delay: 500,
                jitter: Some(Jitter::Full),
            },
        ),
{
    RetryPolicy::ExponentialBackoff(
        ExponentialBackoff {
            retries: Retry::NTimes(3),
            delay: 50,
            base: Some(2),
            max_delay: 500,
            jitter: Some(Jitter::Full),
        },
    )
}

/// The state of one retried operation: how many of its attempts have failed.
pub struct RetryRun {
    policy: RetryPolicy,
    failures: u64,
}

impl RetryRun {
    pub closed spec fn policy_spec(&self) -> RetryPolicy {
        self.policy
    }

    pub closed spec fn failures_spec(&self) -> nat {
        self.failures as nat
    }

    /// The invariant of a run: it never counts more failures than the policy
    /// allows attempts.
    #[verifier::type_invariant]
    spec fn wf(&self) -> bool {
        self.failures_spec() <= retries_of(self.policy_spec()) + 1
    }

    pub fn new(policy: RetryPolicy) -> (run: Self)
        ensures
            run.policy_spec() == policy,
            run.failures_spec() == 0,
    {
        RetryRun { policy, failures: 0 }
    }

    pub fn failures(&self) -> (n: u64)
        ensures
            n as nat == self.failures_spec(),
    {
        self.failures
    }

    /// Records a failed attempt and decides what follows it: the run gives up
    /// when the classifier asks for the result or when every retry is spent;
    /// otherwise it waits the policy's delay for this retry.
    pub fn record_failure(&mut self, action: RetryStrategyAction) -> (decision: RetryDecision)
        ensures
            final(self).failures_spec() <= retries_of(final(self).policy_spec()) + 1,
            final(self).policy_spec() == old(self).policy_spec(),
            old(self).failures_spec() <= retries_of(old(self).policy_spec())
                ==> final(self).failures_spec() == old(self).failures_spec() + 1,
            old(self).failures_spec() > retries_of(old(self).policy_spec())
                ==> final(self).failures_spec() == old(self).failures_spec(),
            old(self).failures_spec() > retries_of(old(self).policy_spec()) ==> decision
                == RetryDecision::GiveUp,
            (decision == RetryDecision::GiveUp) <== (action == RetryStrategyAction::ReturnResult),
            (decision == RetryDecision::GiveUp) <== (final(self).failures_spec() > retries_of(
                old(self).policy_spec(),
            )),
            action == RetryStrategyAction::ContinueRetries && final(self).failures_spec()
                <= retries_of(old(self).policy_spec()) ==> (match decision {
                RetryDecision::RetryAfter(d) => {
                    let ceiling = backoff_ceiling_spec(
                        delay_of(old(self).policy_spec()),
                        old(self).failures_spec(),
                        old(self).policy_spec(),
                    );
                    &&& d as nat <= ceiling
                    &&& !is_jittered(old(self).policy_spec()) ==> d as nat == ceiling
                    &&& is_jittered(old(self).policy_spec()) && ceiling > 0 ==> (d as nat) < ceiling
                },
                RetryDecision::GiveUp => false,
            }),
    {
        proof {
            use_type_invariant(&*self);
        }
        let retries: u64 = match self.policy {
            RetryPolicy::ExponentialBackoff(p) => match p.retries {
                Retry::NTimes(n) => n as u64,
            },
            RetryPolicy::FixedBackoff(p) => match p.retries {
                Retry::NTimes(n) => n as u64,
            },
            RetryPolicy::LinearBackoff(p) => match p.retries {
                Retry::NTimes(n) => n as u64,
            },
            RetryPolicy::NoBackoff(p) => match p.retries {
                Retry::NTimes(n) => n as u64,
            },
        };
        if self.failures > retries {
            return RetryDecision::GiveUp;
        }
        let attempt = self.failures;
        self.failures = self.failures + 1;
        match action {
            RetryStrategyAction::ReturnResult => {
                return RetryDecision::GiveUp;
            },
            RetryStrategyAction::ContinueRetries => {},
        }
        if self.failures > retries {
            return RetryDecision::GiveUp;
        }
        let delay: u64 = match self.policy {
            RetryPolicy::ExponentialBackoff(p) => p.delay,
            RetryPolicy::FixedBackoff(p) => p.delay,
            RetryPolicy::LinearBackoff(p) => p.delay,
            RetryPolicy::NoBackoff(_) => 0,
        };
        let attempt32: u32 = attempt as u32;
        RetryDecision::RetryAfter(calculate_delay(&delay, &attempt32, &self.policy))
    }
}

/// The delay of an exponential backoff never exceeds its maximum, whatever
/// the attempt; with jitter the delay is at most this ceiling.
pub proof fn lemma_exponential_delay_never_exceeds_max(
    delay: nat,
    attempt: nat,
    policy: ExponentialBackoff,
)
    ensures
        backoff_ceiling_spec(delay, attempt, RetryPolicy::ExponentialBackoff(policy))
            <= policy.max_delay,
{
}

/// The delays of an exponential backoff whose base is at least one never
/// shrink from one attempt to a later one.
pub proof fn lemma_exponential_delay_grows(
    delay: nat,
    earlier: nat,
    later: nat,
    policy: ExponentialBackoff,
)
    requires
        effective_base(policy.base) >= 1,
        earlier <= later,
    ensures
        backoff_ceiling_spec(delay, earlier, RetryPolicy::ExponentialBackoff(policy))
            <= backoff_ceiling_spec(delay, later, RetryPolicy::ExponentialBackoff(policy)),
{
    lemma_scaled_power_monotone(delay, effective_base(policy.base), earlier, later);
}

/// An exponential backoff starts at its delay, capped at its maximum, and
/// each attempt waits `base` times the wait of the attempt before, capped at
/// the maximum: below the cap the delay is multiplied by the base at every
/// attempt, and once it reaches the cap it stays there.
pub proof fn law_exponential_delay_multiplies_by_base(
    delay: nat,
    attempt: nat,
    policy: ExponentialBackoff,
)
    ensures
        backoff_ceiling_spec(delay, 0, RetryPolicy::ExponentialBackoff(policy)) == min_nat(
            delay,
            policy.max_delay as nat,
        ),
        backoff_ceiling_spec(delay, attempt + 1, RetryPolicy::ExponentialBackoff(policy))
            == min_nat(
            backoff_ceiling_spec(delay, attempt, RetryPolicy::ExponentialBackoff(policy))
                * effective_base(policy.base),
            policy.max_delay as nat,
        ),
        backoff_ceiling_spec(delay, attempt, RetryPolicy::ExponentialBackoff(policy))
            * effective_base(policy.base) <= policy.max_delay ==> backoff_ceiling_spec(
            delay,
            attempt + 1,
            RetryPolicy::ExponentialBackoff(policy),
        ) == backoff_ceiling_spec(delay, attempt, RetryPolicy::ExponentialBackoff(policy))
            * effective_base(policy.base),
{
    let b = effective_base(policy.base);
    let m = policy.max_delay as nat;
    let p = delay * power(b, attempt);
    assert(power(b, 0) == 1);
    assert(delay * 1 == delay);
    lemma_scaled_power_step(delay, b, attempt);
    assert(delay * power(b, attempt + 1) == p * b);
    if p > m && b >= 1 {
        assert(p * b >= p) by (nonlinear_arith)
            requires
                b >= 1,
        ;
        assert(m * b >= m) by (nonlinear_arith)
            requires
                b >= 1,
        ;
    }
    if b == 0 {
        assert(p * b == 0) by (nonlinear_arith)
            requires
                b == 0,
        ;
        assert(m * b == 0) by (nonlinear_arith)
            requires
                b == 0,
        ;
    }
}

/// A linear backoff waits `delay` before the first retry and one more
/// `delay` at each attempt after, `delay * (attempt + 1)` in all, until that
/// passes `u64::MAX`, where it stays. A fixed backoff always waits `delay`,
/// and no backoff never waits.
pub proof fn law_linear_fixed_and_no_backoff_delays(
    delay: nat,
    attempt: nat,
    linear: LinearBackoff,
    fixed: FixedBackoff,
    none: NoBackoff,
)
    requires
        delay <= u64::MAX,
    ensures
        backoff_ceiling_spec(delay, 0, RetryPolicy::LinearBackoff(linear)) == delay,
        delay * (attempt + 1) <= u64::MAX ==> backoff_ceiling_spec(
            delay,
            attempt,
            RetryPolicy::LinearBackoff(linear),
        ) == delay * (attempt + 1),
        delay * (attempt + 1) > u64::MAX ==> backoff_ceiling_spec(
            delay,
            attempt,
            RetryPolicy::LinearBackoff(linear),
        ) == u64::MAX,
        backoff_ceiling_spec(delay, attempt, RetryPolicy::FixedBackoff(fixed)) == delay,
        backoff_ceiling_spec(delay, attempt, RetryPolicy::NoBackoff(none)) == 0,
{
    assert(delay * (0nat + 1) == delay) by (nonlinear_arith);
}

/// Before it reaches `u64::MAX`, a linear backoff waits one more `delay` at
/// each attempt than at the one before.
pub proof fn lemma_linear_delay_steps(delay: nat, attempt: nat, policy: LinearBackoff)
    requires
        delay * (attempt + 2) <= u64::MAX,
    ensures
        backoff_ceiling_spec(delay, attempt + 1, RetryPolicy::LinearBackoff(policy))
            == backoff_ceiling_spec(delay, attempt, RetryPolicy::LinearBackoff(policy)) + delay,
{
    assert(delay * (attempt + 1) <= delay * (attempt + 2)) by (nonlinear_arith);
    assert(delay * (attempt + 1 + 1) == delay * (attempt + 1) + delay) by (nonlinear_arith);
}

} // verus!
