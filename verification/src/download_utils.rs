use vstd::prelude::*;

verus! {

/// How many times a transfer is attempted before it is given up.
pub const MAX_ATTEMPTS: u32 = 3;

/// How one attempt to transfer a file ended.
#[derive(Debug, Clone, Copy, PartialEq, Eq, Structural)]
pub enum AttemptOutcome {
    /// The whole body arrived and is in the temporary file.
    Completed,
    /// The connection failed, the status was no success or the body was cut short.
    Failed,
}

/// What one attempt to fetch a file observed.
#[derive(Debug, Clone, Copy, PartialEq, Eq, Structural)]
pub struct AttemptReport {
    /// Whether a response arrived at all.
    pub connected: bool,
    /// The status of the response.
    pub status: u16,
    /// The length that the response announced, if it announced one.
    pub announced: Option<u64>,
    /// The bytes that were received and written.
    pub received: u64,
}

impl AttemptReport {
    /// Whether the attempt brought the whole file: a response came, its
    /// status is a success (200 to 299), and the body is as long as announced.
    pub open spec fn is_complete(self) -> bool {
        &&& self.connected
        &&& 200 <= self.status && self.status <= 299
        &&& match self.announced {
            Some(length) => self.received == length,
            None => true,
        }
    }

    /// How the attempt ended: every shortcoming is a failure to be retried.
    pub fn outcome(&self) -> (r: AttemptOutcome)
        ensures
            r == (if self.is_complete() {
                AttemptOutcome::Completed
            } else {
                AttemptOutcome::Failed
            }),
    {
        let whole = match self.announced {
            Some(length) => self.received == length,
            None => true,
        };
        if self.connected && 200 <= self.status && self.status <= 299 && whole {
            AttemptOutcome::Completed
        } else {
            AttemptOutcome::Failed
        }
    }
}

/// What is to be done after an attempt.
#[derive(Debug, Clone, Copy, PartialEq, Eq, Structural)]
pub enum NextStep {
    /// Rename the temporary file to the destination: the transfer is done.
    Promote,
    /// Remove the temporary file, wait, and attempt again.
    Retry,
    /// Remove the temporary file and report `TransferFailed`.
    GiveUp,
}

/// The attempts of one transfer.
#[derive(Debug, Clone, Copy, PartialEq, Eq, Structural)]
pub struct RetryState {
    /// Attempts made so far.
    pub attempts: u32,
    /// Attempts allowed in all.
    pub budget: u32,
}

impl RetryState {
    /// The state after one more attempt, and what is to be done then. A
    /// completed attempt is promoted. A failed one is retried while the budget
    /// lasts.
    pub open spec fn step(self, outcome: AttemptOutcome) -> (RetryState, NextStep) {
        let attempts = if self.attempts < u32::MAX {
            (self.attempts + 1) as u32
        } else {
            self.attempts
        };
        let after = RetryState { attempts, budget: self.budget };
        match outcome {
            AttemptOutcome::Completed => (after, NextStep::Promote),
            AttemptOutcome::Failed => if attempts >= self.budget {
                (after, NextStep::GiveUp)
            } else {
                (after, NextStep::Retry)
            },
        }
    }

    /// The state after `failures` failed attempts in a row.
    pub open spec fn after_failures(self, failures: nat) -> RetryState
        decreases failures,
    {
        if failures == 0 {
            self
        } else {
            self.after_failures((failures - 1) as nat).step(AttemptOutcome::Failed).0
        }
    }

    /// A transfer of which no attempt has been made yet.
    pub fn new(budget: u32) -> (r: RetryState)
        ensures
            r == (RetryState { attempts: 0, budget }),
    {
        RetryState { attempts: 0, budget }
    }

    /// Records the outcome of an attempt and says what is to be done next.
    pub fn after_attempt(&mut self, outcome: AttemptOutcome) -> (r: NextStep)
        ensures
            (*final(self), r) == old(self).step(outcome),
    {
        if self.attempts < u32::MAX {
            self.attempts = self.attempts + 1;
        }
        match outcome {
            AttemptOutcome::Completed => NextStep::Promote,
            AttemptOutcome::Failed => {
                if self.attempts >= self.budget {
                    NextStep::GiveUp
                } else {
                    NextStep::Retry
                }
            },
        }
    }

    /// Failures are counted one by one while the budget lasts.
    pub proof fn lemma_failures_are_counted(budget: u32, failures: nat)
        requires
            failures <= budget,
        ensures
            (RetryState { attempts: 0, budget }).after_failures(failures) == (RetryState {
                attempts: failures as u32,
                budget,
            }),
        decreases failures,
    {
        if failures > 0 {
            Self::lemma_failures_are_counted(budget, (failures - 1) as nat);
        }
    }

    /// A transfer that fails fewer times than the budget allows and then
    /// completes is accepted: each of the failures is answered with a retry,
    /// and the attempt that completes is promoted.
    pub proof fn lemma_success_within_budget_is_accepted(budget: u32, failures: nat)
        requires
            failures < budget,
        ensures
            forall|k: nat|
                k < failures ==> (#[trigger] (RetryState { attempts: 0, budget }).after_failures(
                    k,
                )).step(AttemptOutcome::Failed).1 == NextStep::Retry,
            (RetryState { attempts: 0, budget }).after_failures(failures).step(
                AttemptOutcome::Completed,
            ).1 == NextStep::Promote,
    {
        assert forall|k: nat| k < failures implies (#[trigger] (RetryState {
            attempts: 0,
            budget,
        }).after_failures(k)).step(AttemptOutcome::Failed).1 == NextStep::Retry by {
            Self::lemma_failures_are_counted(budget, k);
        }
    }

    /// A transfer that fails as often as the budget allows is given up at the
    /// last of these failures, and not before.
    pub proof fn lemma_exhausted_budget_gives_up(budget: u32)
        requires
            budget >= 1,
        ensures
            forall|k: nat|
                k + 1 < budget ==> (#[trigger] (RetryState { attempts: 0, budget }).after_failures(
                    k,
                )).step(AttemptOutcome::Failed).1 == NextStep::Retry,
            (RetryState { attempts: 0, budget }).after_failures((budget - 1) as nat).step(
                AttemptOutcome::Failed,
            ).1 == NextStep::GiveUp,
    {
        assert forall|k: nat| k + 1 < budget implies (#[trigger] (RetryState {
            attempts: 0,
            budget,
        }).after_failures(k)).step(AttemptOutcome::Failed).1 == NextStep::Retry by {
            Self::lemma_failures_are_counted(budget, k);
        }
        Self::lemma_failures_are_counted(budget, (budget - 1) as nat);
    }
}

/// The number of bytes that a transfer has reported so far.
#[derive(Debug, Clone, Copy, PartialEq, Eq, Structural)]
pub struct Progress {
    pub reported: u64,
}

impl Progress {
    /// Takes note of a byte count and returns the count to report: the
    /// largest seen so far, so that reports never go down.
    pub fn advance(&mut self, bytes: u64) -> (r: u64)
        ensures
            r == final(self).reported,
            r >= old(self).reported,
            r == (if bytes > old(self).reported {
                bytes
            } else {
                old(self).reported
            }),
    {
        if bytes > self.reported {
            self.reported = bytes;
        }
        self.reported
    }
}

} // verus!
