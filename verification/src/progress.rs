//! The background thread that keeps a completion queue moving.

use crate::effect::reads_completions;
use crate::machine::{answered, law_reads_while_paused, pause_count, run, Machine, Step};
use vstd::prelude::*;

verus! {

/// How long the background thread sleeps between two looks, in microseconds.
pub const PROGRESS_SLEEP_MICROS: u64 = 100;

/// What the background thread does next.
#[derive(Debug, Clone, Copy, PartialEq, Eq)]
pub enum ProgressStep {
    /// End.
    Stop,
    /// Read one entry off the queue, then sleep.
    Read,
    /// Only sleep.
    Skip,
}

/// The flags that steer the background thread.
#[derive(Debug, Clone, Copy, PartialEq, Eq)]
pub struct CqProgressGuard {
    /// Whether the thread is to end.
    pub cancel: bool,
    /// Number of operations that read completions themselves.
    pub active_ops: usize,
}

impl CqProgressGuard {
    /// Flags that let the thread run.
    pub fn new() -> (guard: Self)
        ensures
            guard == (CqProgressGuard { cancel: false, active_ops: 0 }),
    {
        CqProgressGuard { cancel: false, active_ops: 0 }
    }

    /// What the thread does when it looks at these flags: it ends once it is
    /// cancelled, and reads only while no operation is active.
    pub open spec fn step(self) -> ProgressStep {
        if self.cancel {
            ProgressStep::Stop
        } else if self.active_ops == 0 {
            ProgressStep::Read
        } else {
            ProgressStep::Skip
        }
    }

    /// Returns what the thread does when it looks at these flags.
    pub fn progress_step(&self) -> (step: ProgressStep)
        ensures
            step == self.step(),
    {
        if self.cancel {
            ProgressStep::Stop
        } else if self.active_ops == 0 {
            ProgressStep::Read
        } else {
            ProgressStep::Skip
        }
    }

    /// An operation begins to read completions.
    pub fn pause_cq_progress(&mut self)
        requires
            old(self).active_ops < usize::MAX,
        ensures
            *final(self) == (CqProgressGuard {
                active_ops: (old(self).active_ops + 1) as usize,
                ..*old(self)
            }),
    {
        self.active_ops = self.active_ops + 1;
    }

    /// An operation is done with reading completions.
    pub fn resume_cq_progress(&mut self)
        requires
            old(self).active_ops > 0,
        ensures
            *final(self) == (CqProgressGuard {
                active_ops: (old(self).active_ops - 1) as usize,
                ..*old(self)
            }),
    {
        self.active_ops = self.active_ops - 1;
    }

    /// Tells the thread to end.
    pub fn stop(&mut self)
        ensures
            *final(self) == (CqProgressGuard { cancel: true, ..*old(self) }),
    {
        self.cancel = true;
    }
}

/// The background thread and an operation never read the queue at the same
/// time: whenever a machine is about to take an entry off the queue, and its
/// own pauses are counted in the flags, the thread does not read.
pub proof fn law_never_read_together<M: Machine>(
    machine: M,
    steps: Seq<Step>,
    guard: CqProgressGuard,
)
    requires
        machine.wf(),
        machine.paused() == 0,
        answered(machine, steps),
        steps.len() > 0,
        reads_completions(run(machine, steps.drop_last()).pending()),
        guard.active_ops >= pause_count(machine, steps.drop_last(), 0),
    ensures
        guard.step() != ProgressStep::Read,
{
    law_reads_while_paused(machine, steps);
}

} // verus!
