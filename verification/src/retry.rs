//! How a wallet whose processing failed is retried: linear backoff, a bounded
//! number of retries, then the wallet is handed back to the pool.
use vstd::prelude::*;
use crate::wallet::{WalletStatus, released_status_spec};

verus! {

/// Nanoseconds in one second.
pub open spec fn nanos_per_sec() -> nat {
    1_000_000_000nat
}

/// One more than the largest duration, in nanoseconds, that `std::time::Duration`
/// can hold (2^64 seconds).
pub open spec fn duration_limit() -> nat {
    0x1_0000_0000_0000_0000nat * nanos_per_sec()
}

/// A span of time with nanosecond resolution, laid out as `std::time::Duration`:
/// whole seconds and the nanoseconds below one second.
#[derive(Clone, Copy, Debug)]
pub struct Delay {
    secs: u64,
    nanos: u32,
}

impl Delay {
    #[verifier::type_invariant]
    spec fn wf(self) -> bool {
        self.nanos < 1_000_000_000
    }
}

impl View for Delay {
    type V = nat;

    /// The length of the delay in nanoseconds.
    closed spec fn view(&self) -> nat {
        (self.secs * nanos_per_sec() + self.nanos) as nat
    }
}

impl Delay {
    /// `secs` seconds plus `nanos` nanoseconds.
    pub fn new(secs: u64, nanos: u32) -> (r: Delay)
        requires
            nanos < 1_000_000_000,
        ensures
            r@ == secs * nanos_per_sec() + nanos,
    {
        Delay { secs, nanos }
    }

    /// `ms` milliseconds.
    pub fn from_millis(ms: u64) -> (r: Delay)
        ensures
            r@ == ms * 1_000_000,
    {
        let secs: u64 = ms / 1000;
        let nanos: u32 = ((ms % 1000) * 1_000_000) as u32;
        assert(secs * 1_000_000_000 + nanos == ms * 1_000_000) by (nonlinear_arith)
            requires
                secs == ms / 1000,
                nanos == (ms % 1000) * 1_000_000,
        ;
        Delay { secs, nanos }
    }

    /// Whole seconds of the delay.
    pub fn secs(&self) -> (r: u64)
        ensures
            r * nanos_per_sec() <= self@ < (r + 1) * nanos_per_sec(),
    {
        proof {
            use_type_invariant(self);
        }
        self.secs
    }

    /// Nanoseconds of the delay below its whole seconds.
    pub fn subsec_nanos(&self) -> (r: u32)
        ensures
            r < 1_000_000_000,
            r == self@ % nanos_per_sec(),
    {
        proof {
            use_type_invariant(self);
            assert((self.secs * 1_000_000_000int + self.nanos) % 1_000_000_000int == self.nanos)
                by (nonlinear_arith)
                requires
                    self.nanos < 1_000_000_000,
            ;
        }
        self.nanos
    }

    /// The delay repeated `k` times (the `*` of `Duration` by a `u32`), where the
    /// result still fits in a `Duration`; `None` otherwise.
    pub fn checked_times(&self, k: u32) -> (r: Option<Delay>)
        ensures
            r is Some <==> self@ * k < duration_limit(),
            r matches Some(d) ==> d@ == self@ * k,
    {
        proof {
            use_type_invariant(self);
        }
        let total: u128 = self.secs as u128 * 1_000_000_000u128 + self.nanos as u128;
        assert(total < 0x1_0000_0000_0000_0000nat * 1_000_000_000nat) by (nonlinear_arith)
            requires
                total == self.secs * 1_000_000_000nat + self.nanos,
                self.secs < 0x1_0000_0000_0000_0000nat,
                self.nanos < 1_000_000_000,
        ;
        assert(total * k < 0x1_0000_0000_0000_0000_0000_0000_0000_0000nat) by (nonlinear_arith)
            requires
                total < 0x1_0000_0000_0000_0000nat * 1_000_000_000nat,
                k < 0x1_0000_0000nat,
        ;
        let product: u128 = total * k as u128;
        if product >= 18_446_744_073_709_551_616_000_000_000u128 {
            return None;
        }
        let secs: u64 = (product / 1_000_000_000u128) as u64;
        let nanos: u32 = (product % 1_000_000_000u128) as u32;
        assert(secs * 1_000_000_000nat + nanos == product) by (nonlinear_arith)
            requires
                secs == product / 1_000_000_000u128,
                nanos == product % 1_000_000_000u128,
        ;
        Some(Delay { secs, nanos })
    }
}

/// The pause taken after every backoff, before the next attempt (150 ms).
pub fn pause_between_attempts() -> (r: Delay)
    ensures
        r@ == 150_000_000,
{
    Delay::from_millis(150)
}

/// What the worker does after one attempt at processing a wallet.
#[derive(Debug)]
pub enum RetryStep {
    /// The attempt succeeded: move on to the next wallet.
    Done,
    /// The attempt failed and may be retried: record that `retries` retries
    /// have now been made, sleep `backoff`, then `pause`, clean up and try again.
    RetryAfter { retries: u32, backoff: Delay, pause: Delay },
    /// The attempt failed and no retry is left: give the wallet `status`
    /// (back in the pool) and move on.
    ReleaseWallet { status: WalletStatus },
}

/// The abstract outcome of a step, as a function of plain values.
pub enum StepOutcome {
    Done,
    Retry(nat),
    Release,
}

/// The step taken after an attempt, with `retries` retries made so far and at
/// most `max_retries` allowed.
pub open spec fn step_outcome(max_retries: nat, retries: nat, succeeded: bool) -> StepOutcome {
    if succeeded {
        StepOutcome::Done
    } else if retries < max_retries {
        StepOutcome::Retry(retries + 1)
    } else {
        StepOutcome::Release
    }
}

impl RetryStep {
    /// The abstract outcome of this step.
    pub open spec fn outcome(self) -> StepOutcome {
        match self {
            RetryStep::Done => StepOutcome::Done,
            RetryStep::RetryAfter { retries, .. } => StepOutcome::Retry(retries as nat),
            RetryStep::ReleaseWallet { .. } => StepOutcome::Release,
        }
    }
}

/// A bound on retries and the base backoff between them; the backoff before
/// the n-th retry is n times the base.
pub struct RetryPolicy {
    max_retries: u32,
    backoff: Delay,
}

impl RetryPolicy {
    /// The most retries made for one wallet.
    pub closed spec fn spec_max_retries(self) -> nat {
        self.max_retries as nat
    }

    /// The base backoff.
    pub closed spec fn spec_backoff(self) -> nat {
        self.backoff@
    }

    /// A policy of at most `max_retries` retries with base `backoff`.
    pub fn new(max_retries: u32, backoff: Delay) -> (r: RetryPolicy)
        ensures
            r.spec_max_retries() == max_retries,
            r.spec_backoff() == backoff@,
    {
        RetryPolicy { max_retries, backoff }
    }

    /// The most retries made for one wallet.
    pub fn max_retries(&self) -> (r: u32)
        ensures
            r == self.spec_max_retries(),
    {
        self.max_retries
    }

    /// The step after an attempt that `succeeded` or not, with `retries`
    /// retries already made for this wallet. A failed attempt is retried while
    /// fewer than `max_retries` retries have been made, after a backoff of the
    /// new retry count times the base backoff. `None` where that backoff does
    /// not fit in a `Duration` (where multiplying the `Duration` panics).
    pub fn next_step(&self, retries: u32, succeeded: bool) -> (r: Option<RetryStep>)
        ensures
            r is None <==> (!succeeded && retries < self.spec_max_retries() && self.spec_backoff()
                * (retries + 1) >= duration_limit()),
            r matches Some(step) ==> step.outcome() == step_outcome(
                self.spec_max_retries(),
                retries as nat,
                succeeded,
            ),
            r matches Some(RetryStep::RetryAfter { retries: n, backoff, pause }) ==> {
                &&& backoff@ == self.spec_backoff() * n
                &&& pause@ == 150_000_000
            },
            r matches Some(RetryStep::ReleaseWallet { status }) ==> status == released_status_spec(),
    {
        if succeeded {
            Some(RetryStep::Done)
        } else if retries < self.max_retries {
            let n: u32 = retries + 1;
            match self.backoff.checked_times(n) {
                Some(backoff) => Some(
                    RetryStep::RetryAfter { retries: n, backoff, pause: pause_between_attempts() },
                ),
                None => None,
            }
        } else {
            Some(RetryStep::ReleaseWallet { status: WalletStatus::Free })
        }
    }
}

/// The number of attempts made for one wallet that starts with `retries`
/// retries behind it, when successive attempts succeed or fail as `outcomes`
/// says (attempts beyond the end of `outcomes` are not counted).
pub open spec fn attempts_made(max_retries: nat, retries: nat, outcomes: Seq<bool>) -> nat
    decreases outcomes.len(),
{
    if outcomes.len() == 0 {
        0
    } else {
        match step_outcome(max_retries, retries, outcomes[0]) {
            StepOutcome::Retry(n) => 1 + attempts_made(max_retries, n, outcomes.drop_first()),
            _ => 1,
        }
    }
}

/// Whether the wallet is handed back to the pool within `outcomes`.
pub open spec fn released(max_retries: nat, retries: nat, outcomes: Seq<bool>) -> bool
    decreases outcomes.len(),
{
    if outcomes.len() == 0 {
        false
    } else {
        match step_outcome(max_retries, retries, outcomes[0]) {
            StepOutcome::Retry(n) => released(max_retries, n, outcomes.drop_first()),
            StepOutcome::Release => true,
            StepOutcome::Done => false,
        }
    }
}

/// A wallet is attempted at most `max_retries + 1` times in one cycle, however
/// its attempts turn out.
pub proof fn lemma_attempts_bounded(max_retries: nat, retries: nat, outcomes: Seq<bool>)
    requires
        retries <= max_retries,
    ensures
        attempts_made(max_retries, retries, outcomes) <= max_retries + 1 - retries,
    decreases outcomes.len(),
{
    if outcomes.len() > 0 {
        if let StepOutcome::Retry(n) = step_outcome(max_retries, retries, outcomes[0]) {
            lemma_attempts_bounded(max_retries, n, outcomes.drop_first());
        }
    }
}

/// A wallet is handed back to the pool exactly when its first
/// `max_retries + 1` attempts (counting from no retries) all fail.
pub proof fn lemma_released_iff_all_fail(max_retries: nat, retries: nat, outcomes: Seq<bool>)
    requires
        retries <= max_retries,
    ensures
        released(max_retries, retries, outcomes) <==> (outcomes.len() >= max_retries + 1 - retries
            && forall|i: int| 0 <= i < max_retries + 1 - retries ==> !outcomes[i]),
    decreases outcomes.len(),
{
    if outcomes.len() > 0 {
        if let StepOutcome::Retry(n) = step_outcome(max_retries, retries, outcomes[0]) {
            let rest = outcomes.drop_first();
            lemma_released_iff_all_fail(max_retries, n, rest);
            if released(max_retries, retries, outcomes) {
                assert forall|i: int| 0 <= i < max_retries + 1 - retries implies !outcomes[i] by {
                    if i > 0 {
                        assert(outcomes[i] == rest[i - 1]);
                    }
                }
            } else if outcomes.len() >= max_retries + 1 - retries {
                if forall|i: int| 0 <= i < max_retries + 1 - retries ==> !outcomes[i] {
                    assert forall|i: int| 0 <= i < max_retries + 1 - n implies !rest[i] by {
                        assert(rest[i] == outcomes[i + 1]);
                    }
                }
            }
        }
    }
}

} // verus!
