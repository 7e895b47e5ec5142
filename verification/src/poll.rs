//! Waiting for the network to reach a state: a bounded number of checks with a
//! pause after each one that fails, as a machine that the caller drives.
use vstd::prelude::*;

verus! {

/// The progress of a wait: how many checks failed so far, how many are
/// allowed, and how long to pause after a failed check.
#[derive(Clone, Copy, Debug, PartialEq, Eq, Structural)]
pub struct Poll {
    pub failed_checks: u32,
    pub limit: u32,
    pub interval_secs: u64,
}

/// What happened since the last step.
#[derive(Clone, Copy, Debug, PartialEq, Eq, Structural)]
pub enum PollEvent {
    /// The wait begins.
    Start,
    /// A check was made; `true` when the awaited state was seen.
    Checked(bool),
    /// The pause after a failed check ended.
    Slept,
}

/// What the caller does next.
#[derive(Clone, Copy, Debug, PartialEq, Eq, Structural)]
pub enum PollAction {
    /// Make a check.
    Check,
    /// Pause for this many seconds.
    Sleep(u64),
    /// The awaited state was seen: the wait is over.
    Succeed,
    /// Every allowed check failed: the wait is over.
    GiveUp,
}

/// The failed checks never exceed the allowed ones.
pub open spec fn poll_wf(p: Poll) -> bool {
    p.failed_checks <= p.limit
}

/// One step of a wait.
pub open spec fn poll_step_spec(p: Poll, e: PollEvent) -> (Poll, PollAction) {
    match e {
        PollEvent::Start => {
            let q = Poll { failed_checks: 0, ..p };
            if p.limit == 0 {
                (q, PollAction::GiveUp)
            } else {
                (q, PollAction::Check)
            }
        },
        PollEvent::Checked(true) => (p, PollAction::Succeed),
        PollEvent::Checked(false) => {
            let n: u32 = if p.failed_checks < p.limit {
                (p.failed_checks + 1) as u32
            } else {
                p.failed_checks
            };
            (Poll { failed_checks: n, ..p }, PollAction::Sleep(p.interval_secs))
        },
        PollEvent::Slept => if p.failed_checks < p.limit {
            (p, PollAction::Check)
        } else {
            (p, PollAction::GiveUp)
        },
    }
}

impl Poll {
    /// A wait of at most `limit` checks, pausing `interval_secs` after each failed one.
    pub fn new(limit: u32, interval_secs: u64) -> (res: Poll)
        ensures
            res == (Poll { failed_checks: 0, limit, interval_secs }),
            poll_wf(res),
    {
        Poll { failed_checks: 0, limit, interval_secs }
    }

    /// Takes in what happened and says what to do next.
    pub fn step(&mut self, e: PollEvent) -> (res: PollAction)
        ensures
            (*final(self), res) == poll_step_spec(*old(self), e),
            poll_wf(*old(self)) ==> poll_wf(*final(self)),
    {
        match e {
            PollEvent::Start => {
                self.failed_checks = 0;
                if self.limit == 0 {
                    PollAction::GiveUp
                } else {
                    PollAction::Check
                }
            },
            PollEvent::Checked(true) => PollAction::Succeed,
            PollEvent::Checked(false) => {
                if self.failed_checks < self.limit {
                    self.failed_checks = self.failed_checks + 1;
                }
                PollAction::Sleep(self.interval_secs)
            },
            PollEvent::Slept => if self.failed_checks < self.limit {
                PollAction::Check
            } else {
                PollAction::GiveUp
            },
        }
    }
}

/// Every step keeps the failed checks within the allowed ones.
pub proof fn poll_step_keeps_wf(p: Poll, e: PollEvent)
    requires
        poll_wf(p),
    ensures
        poll_wf(poll_step_spec(p, e).0),
{
}

/// The state after a wait began and then `k` checks failed, each followed by its pause.
pub open spec fn after_failed_rounds(p: Poll, k: nat) -> Poll
    decreases k,
{
    if k == 0 {
        poll_step_spec(p, PollEvent::Start).0
    } else {
        let q = after_failed_rounds(p, (k - 1) as nat);
        poll_step_spec(poll_step_spec(q, PollEvent::Checked(false)).0, PollEvent::Slept).0
    }
}

/// A wait that never sees the awaited state makes exactly `limit` checks: after
/// each of the first `limit - 1` failed checks and their pauses it checks again,
/// after the last one it gives up; every pause lasts the interval.
pub proof fn wait_checks_exactly_limit(p: Poll, k: nat)
    requires
        poll_wf(p),
        k <= p.limit,
    ensures
        after_failed_rounds(p, k).failed_checks == k,
        after_failed_rounds(p, k).limit == p.limit,
        after_failed_rounds(p, k).interval_secs == p.interval_secs,
        k == 0 ==> poll_step_spec(p, PollEvent::Start).1 == (if p.limit == 0 {
            PollAction::GiveUp
        } else {
            PollAction::Check
        }),
        k < p.limit ==> poll_step_spec(after_failed_rounds(p, k), PollEvent::Checked(false)).1
            == PollAction::Sleep(p.interval_secs),
        k > 0 ==> poll_step_spec(
            poll_step_spec(after_failed_rounds(p, (k - 1) as nat), PollEvent::Checked(false)).0,
            PollEvent::Slept,
        ).1 == (if k < p.limit {
            PollAction::Check
        } else {
            PollAction::GiveUp
        }),
    decreases k,
{
    if k > 0 {
        wait_checks_exactly_limit(p, (k - 1) as nat);
    }
}

/// A check that sees the awaited state ends the wait at once, whatever came before.
pub proof fn wait_succeeds_on_first_success(p: Poll)
    ensures
        poll_step_spec(p, PollEvent::Checked(true)) == (p, PollAction::Succeed),
{
}

} // verus!
