//! Accepting a validated transfer into the stock: the stock may refuse while
//! the resolver catches up, so the acceptance is retried a bounded number of
//! times, with a pause between tries, before the tool gives up.

use vstd::prelude::*;

verus! {

/// Failed tries after which the tool still tries again; one more failure
/// makes it give up.
pub const MAX_RETRIES: u32 = 3;

/// Pause between two tries, in milliseconds.
pub const RETRY_PAUSE_MS: u64 = 100;

/// What happens after a try to accept the transfer.
#[derive(Clone, Copy, Debug, PartialEq, Eq, Structural)]
pub enum AcceptStep {
    /// The stock took the transfer: store the stock and stop.
    Done,
    /// Pause `RETRY_PAUSE_MS` milliseconds and try again.
    Retry,
    /// Stop with the error of the last try.
    GiveUp,
}

/// Count of failed tries so far.
#[derive(Clone, Copy, Debug)]
pub struct AcceptRetry {
    /// Failed tries so far.
    pub attempts: u32,
}

/// The failure count and step after a try that was taken (`accepted`) or
/// refused, starting from `attempts` failures.
pub open spec fn accept_step_spec(attempts: u32, accepted: bool) -> (int, AcceptStep) {
    if accepted {
        (attempts as int, AcceptStep::Done)
    } else if attempts + 1 > MAX_RETRIES {
        (attempts + 1, AcceptStep::GiveUp)
    } else {
        (attempts + 1, AcceptStep::Retry)
    }
}

impl AcceptRetry {
    /// No try made yet.
    pub fn new() -> (r: AcceptRetry)
        ensures
            r.attempts == 0,
    {
        AcceptRetry { attempts: 0 }
    }

    /// Records the outcome of a try and says what to do next.
    pub fn record(&mut self, accepted: bool) -> (step: AcceptStep)
        requires
            old(self).attempts <= MAX_RETRIES,
        ensures
            (final(self).attempts as int, step) == accept_step_spec(old(self).attempts, accepted),
    {
        if accepted {
            AcceptStep::Done
        } else {
            self.attempts = self.attempts + 1;
            if self.attempts > MAX_RETRIES {
                AcceptStep::GiveUp
            } else {
                AcceptStep::Retry
            }
        }
    }
}

/// Tries made and the final step when the tries come out as `outcomes`
/// (`true` for taken), starting from `attempts` failures; tries stop at the
/// first step that is not `Retry`. Outcomes left over are not used; if the
/// outcomes run out the last step is reported as `Retry`.
pub open spec fn accept_run(attempts: u32, outcomes: Seq<bool>) -> (nat, AcceptStep)
    decreases outcomes.len(),
{
    if outcomes.len() == 0 {
        (0, AcceptStep::Retry)
    } else {
        let (a, s) = accept_step_spec(attempts, outcomes[0]);
        if s == AcceptStep::Retry {
            let (n, f) = accept_run(a as u32, outcomes.skip(1));
            (n + 1, f)
        } else {
            (1, s)
        }
    }
}

/// Law: the transfer is offered to the stock at most four times; the tool
/// gives up only after that many refusals in a row, and it stops at the first
/// try that is taken.
pub proof fn accept_tries_are_bounded(outcomes: Seq<bool>)
    ensures
        accept_run(0, outcomes).0 <= MAX_RETRIES + 1,
        accept_run(0, outcomes).1 == AcceptStep::GiveUp ==> accept_run(0, outcomes).0
            == MAX_RETRIES + 1 && (forall|i: int| 0 <= i <= MAX_RETRIES ==> !outcomes[i]),
        accept_run(0, outcomes).1 == AcceptStep::Done ==> outcomes[accept_run(0, outcomes).0 - 1]
            && (forall|i: int| 0 <= i < accept_run(0, outcomes).0 - 1 ==> !outcomes[i]),
{
    accept_run_facts(0, outcomes);
}

proof fn accept_run_facts(attempts: u32, outcomes: Seq<bool>)
    requires
        attempts <= MAX_RETRIES,
    ensures
        accept_run(attempts, outcomes).0 <= MAX_RETRIES + 1 - attempts,
        accept_run(attempts, outcomes).0 <= outcomes.len(),
        accept_run(attempts, outcomes).1 == AcceptStep::GiveUp ==> accept_run(attempts, outcomes).0
            == MAX_RETRIES + 1 - attempts && (forall|i: int|
            0 <= i < accept_run(attempts, outcomes).0 ==> !outcomes[i]),
        accept_run(attempts, outcomes).1 == AcceptStep::Done ==> outcomes[accept_run(
            attempts,
            outcomes,
        ).0 - 1] && (forall|i: int| 0 <= i < accept_run(attempts, outcomes).0 - 1 ==> !outcomes[i]),
    decreases outcomes.len(),
{
    if outcomes.len() > 0 {
        let (a, s) = accept_step_spec(attempts, outcomes[0]);
        if s == AcceptStep::Retry {
            accept_run_facts(a as u32, outcomes.skip(1));
            let n: nat = accept_run(a as u32, outcomes.skip(1)).0;
            assert forall|i: int| 1 <= i < n + 1 && i < outcomes.len() implies outcomes.skip(1)[i - 1]
                == outcomes[i] by {}
        }
    }
}

/// Law: four refusals in a row make the tool give up after the fourth try.
pub proof fn four_refusals_give_up(outcomes: Seq<bool>)
    requires
        outcomes.len() >= MAX_RETRIES + 1,
        forall|i: int| 0 <= i <= MAX_RETRIES ==> !outcomes[i],
    ensures
        accept_run(0, outcomes) == (4nat, AcceptStep::GiveUp),
{
    let s1 = outcomes.skip(1);
    let s2 = s1.skip(1);
    let s3 = s2.skip(1);
    assert(!s1[0] && !s2[0] && !s3[0]);
    assert(accept_run(3, s3) == (1nat, AcceptStep::GiveUp));
    assert(accept_run(2, s2) == (2nat, AcceptStep::GiveUp));
    assert(accept_run(1, s1) == (3nat, AcceptStep::GiveUp));
}

} // verus!
