use vstd::arithmetic::power2::{
    lemma2_to64, lemma2_to64_rest, lemma_pow2_strictly_increases, lemma_pow2_unfold, pow2,
};
use vstd::prelude::*;

verus! {

/// The largest number of attempts a cycle may make: the backoff after attempt
/// `i` is `2^i` seconds, which a `u64` holds only for `i < 64`.
pub const MAX_ATTEMPTS_LIMIT: u32 = 64;

/// Backoff in seconds after failed attempt `i`: exactly `2^i`, with no jitter
/// and no cap.
pub fn backoff_secs(i: u32) -> (r: u64)
    requires
        i < MAX_ATTEMPTS_LIMIT,
    ensures
        r == pow2(i as nat),
{
    let mut r: u64 = 1;
    let mut j: u32 = 0;
    proof {
        lemma2_to64();
        lemma2_to64_rest();
    }
    while j < i
        invariant
            j <= i,
            i < 64,
            r == pow2(j as nat),
            pow2(63) == 0x8000_0000_0000_0000,
        decreases i - j,
    {
        proof {
            lemma_pow2_unfold((j + 1) as nat);
            if j + 1 < 63 {
                lemma_pow2_strictly_increases((j + 1) as nat, 63);
            }
        }
        r = r * 2;
        j = j + 1;
    }
    r
}


/// What the scheduler asks of its driver after an attempt.
pub enum RetryStep {
    /// The attempt succeeded: the cycle is over.
    Done,
    /// The attempt failed: wait `delay_secs`, then attempt again.
    Retry { delay_secs: u64 },
    /// The last allowed attempt failed: wait `delay_secs`; the cycle is over.
    GiveUp { delay_secs: u64 },
}

/// Bounded retries of one cycle: attempt index, the bound, and whether the
/// cycle has ended (by a success or by running out of attempts).
pub struct RetrySchedule {
    pub attempt: u32,
    pub max_attempts: u32,
    pub finished: bool,
}

/// The schedule in which no attempt has been made yet.
pub open spec fn initial_schedule(max_attempts: u32) -> RetrySchedule {
    RetrySchedule { attempt: 0, max_attempts, finished: false }
}

/// One transition: the state after an attempt with outcome `ok`, and what the
/// driver does next.
pub open spec fn step_spec(s: RetrySchedule, ok: bool) -> (RetrySchedule, RetryStep) {
    if ok {
        (RetrySchedule { finished: true, ..s }, RetryStep::Done)
    } else {
        let delay = pow2(s.attempt as nat) as u64;
        let next = (s.attempt + 1) as u32;
        if next >= s.max_attempts {
            (
                RetrySchedule { attempt: next, finished: true, ..s },
                RetryStep::GiveUp { delay_secs: delay },
            )
        } else {
            (
                RetrySchedule { attempt: next, finished: false, ..s },
                RetryStep::Retry { delay_secs: delay },
            )
        }
    }
}

/// Runs the schedule from `s` where attempt `i` has outcome `outcomes[i]`:
/// how many attempts are made, and whether the cycle ends in success.
pub open spec fn run_spec(s: RetrySchedule, outcomes: Seq<bool>) -> (nat, bool)
    decreases s.max_attempts - s.attempt,
{
    if !s.can_attempt_spec() {
        (0, false)
    } else {
        let (next, step) = step_spec(s, outcomes[s.attempt as int]);
        if step is Done {
            (1, true)
        } else if next.can_attempt_spec() {
            let rest = run_spec(next, outcomes);
            (1 + rest.0, rest.1)
        } else {
            (1, false)
        }
    }
}

impl RetrySchedule {
    pub open spec fn wf(self) -> bool {
        &&& self.attempt <= self.max_attempts
        &&& self.max_attempts <= MAX_ATTEMPTS_LIMIT
    }

    pub open spec fn can_attempt_spec(self) -> bool {
        !self.finished && self.attempt < self.max_attempts
    }

    /// A schedule that allows `max_attempts` attempts.
    pub fn new(max_attempts: u32) -> (r: Self)
        requires
            max_attempts <= MAX_ATTEMPTS_LIMIT,
        ensures
            r == initial_schedule(max_attempts),
            r.wf(),
    {
        RetrySchedule { attempt: 0, max_attempts, finished: false }
    }

    /// Whether the driver makes another attempt.
    pub fn can_attempt(&self) -> (r: bool)
        ensures
            r == self.can_attempt_spec(),
    {
        !self.finished && self.attempt < self.max_attempts
    }

    /// Records the outcome of the current attempt and says what comes next.
    pub fn record(&mut self, ok: bool) -> (r: RetryStep)
        requires
            old(self).wf(),
            old(self).can_attempt_spec(),
        ensures
            (*final(self), r) == step_spec(*old(self), ok),
            final(self).wf(),
    {
        if ok {
            self.finished = true;
            RetryStep::Done
        } else {
            let delay = backoff_secs(self.attempt);
            self.attempt = self.attempt + 1;
            if self.attempt >= self.max_attempts {
                self.finished = true;
                RetryStep::GiveUp { delay_secs: delay }
            } else {
                RetryStep::Retry { delay_secs: delay }
            }
        }
    }
}

proof fn lemma_run_from(s: RetrySchedule, outcomes: Seq<bool>, k: nat)
    requires
        s.wf(),
        !s.finished,
        s.attempt <= k,
        outcomes.len() >= s.max_attempts,
        forall|i: int| s.attempt <= i < k && i < s.max_attempts ==> !outcomes[i],
        k < s.max_attempts ==> outcomes[k as int],
    ensures
        k < s.max_attempts ==> run_spec(s, outcomes) == (((k + 1 - s.attempt) as nat), true),
        k >= s.max_attempts ==> run_spec(s, outcomes) == (
            ((s.max_attempts - s.attempt) as nat),
            false,
        ),
    decreases s.max_attempts - s.attempt,
{
    if s.can_attempt_spec() && s.attempt != k {
        let next = step_spec(s, outcomes[s.attempt as int]).0;
        if next.can_attempt_spec() {
            lemma_run_from(next, outcomes, k);
        }
    }
}

/// A tick that fails `k` times and then succeeds, with `k` below the bound,
/// is attempted exactly `k + 1` times and the cycle ends in success.
pub proof fn lemma_retry_until_success(max_attempts: u32, outcomes: Seq<bool>, k: nat)
    requires
        max_attempts <= MAX_ATTEMPTS_LIMIT,
        k < max_attempts,
        outcomes.len() == max_attempts,
        forall|i: int| 0 <= i < k ==> !outcomes[i],
        outcomes[k as int],
    ensures
        run_spec(initial_schedule(max_attempts), outcomes) == (k + 1, true),
{
    lemma_run_from(initial_schedule(max_attempts), outcomes, k);
}

/// A tick that always fails is attempted exactly `max_attempts` times, and the
/// cycle then ends without success.
pub proof fn lemma_retry_exhausts(max_attempts: u32, outcomes: Seq<bool>)
    requires
        max_attempts <= MAX_ATTEMPTS_LIMIT,
        outcomes.len() == max_attempts,
        forall|i: int| 0 <= i < max_attempts ==> !outcomes[i],
    ensures
        run_spec(initial_schedule(max_attempts), outcomes) == (max_attempts as nat, false),
{
    lemma_run_from(initial_schedule(max_attempts), outcomes, max_attempts as nat);
}

} // verus!
