//! What every state machine of this crate has in common.
//!
//! A machine waits for the answer to one effect at a time. The laws here hold
//! of every run of every machine, whatever the answers are.

use crate::effect::{
    answers, gives_back, ledger, pauses, reads_completions, Effect, Reply, Resource,
};
use vstd::multiset::Multiset;
use vstd::prelude::*;

verus! {

/// A state machine that asks for effects.
pub trait Machine: Sized {
    /// The effect that the machine waits for.
    spec fn pending(&self) -> Effect<'_>;

    /// The machine after `reply` arrived at time `now`.
    spec fn after(self, reply: Reply, now: u64) -> Self;

    /// Whether the machine can be in this state.
    spec fn wf(self) -> bool;

    /// The resources that the machine is responsible for.
    spec fn held(self) -> Multiset<Resource>;

    /// How often the machine has the background thread paused.
    spec fn paused(self) -> int;

    /// An answer leads to a possible state, the machine keeps account of what
    /// the call opened or gave back, it gives back only what it holds, and it
    /// takes completions off a queue only while the background thread is paused.
    proof fn step(self, reply: Reply, now: u64)
        requires
            self.wf(),
            answers(self.pending(), reply),
        ensures
            self.after(reply, now).wf(),
            self.after(reply, now).held() == ledger(self.held(), self.pending(), reply),
            self.after(reply, now).paused() == pauses(self.paused(), self.pending()),
            gives_back(self.pending()) matches Some(resource) ==> self.held().contains(resource),
            reads_completions(self.pending()) ==> self.paused() > 0,
    ;
}

/// An answer and the time of its arrival.
pub type Step = (Reply, u64);

/// The machine after all of `steps`.
pub open spec fn run<M: Machine>(machine: M, steps: Seq<Step>) -> M
    decreases steps.len(),
{
    if steps.len() == 0 {
        machine
    } else {
        run(machine, steps.drop_last()).after(steps.last().0, steps.last().1)
    }
}

/// Whether each of `steps` answers what the machine asked for at that point.
pub open spec fn answered<M: Machine>(machine: M, steps: Seq<Step>) -> bool
    decreases steps.len(),
{
    steps.len() == 0 || {
        &&& answered(machine, steps.drop_last())
        &&& answers(run(machine, steps.drop_last()).pending(), steps.last().0)
    }
}

/// The resources that are out after a run, counted call by call.
pub open spec fn outstanding<M: Machine>(
    machine: M,
    steps: Seq<Step>,
    held: Multiset<Resource>,
) -> Multiset<Resource>
    decreases steps.len(),
{
    if steps.len() == 0 {
        held
    } else {
        ledger(
            outstanding(machine, steps.drop_last(), held),
            run(machine, steps.drop_last()).pending(),
            steps.last().0,
        )
    }
}

/// How often the background thread is paused after a run, counted effect by effect.
pub open spec fn pause_count<M: Machine>(machine: M, steps: Seq<Step>, before: int) -> int
    decreases steps.len(),
{
    if steps.len() == 0 {
        before
    } else {
        pauses(
            pause_count(machine, steps.drop_last(), before),
            run(machine, steps.drop_last()).pending(),
        )
    }
}

/// Every state that a run reaches is a possible one.
pub proof fn law_run_wf<M: Machine>(machine: M, steps: Seq<Step>)
    requires
        machine.wf(),
        answered(machine, steps),
    ensures
        run(machine, steps).wf(),
    decreases steps.len(),
{
    if steps.len() > 0 {
        law_run_wf(machine, steps.drop_last());
        run(machine, steps.drop_last()).step(steps.last().0, steps.last().1);
    }
}

/// Nothing is lost: what the calls of a run opened and did not give back is
/// what the machine says it holds.
pub proof fn law_resources_accounted<M: Machine>(machine: M, steps: Seq<Step>)
    requires
        machine.wf(),
        answered(machine, steps),
    ensures
        outstanding(machine, steps, machine.held()) == run(machine, steps).held(),
    decreases steps.len(),
{
    if steps.len() > 0 {
        law_run_wf(machine, steps.drop_last());
        law_resources_accounted(machine, steps.drop_last());
        run(machine, steps.drop_last()).step(steps.last().0, steps.last().1);
    }
}

/// Nothing is given back twice: what a machine gives back is out at that time.
pub proof fn law_gives_back_once<M: Machine>(machine: M, steps: Seq<Step>)
    requires
        machine.wf(),
        answered(machine, steps),
        steps.len() > 0,
    ensures
        gives_back(run(machine, steps.drop_last()).pending()) matches Some(resource)
            ==> outstanding(machine, steps.drop_last(), machine.held()).contains(resource),
{
    law_run_wf(machine, steps.drop_last());
    law_resources_accounted(machine, steps.drop_last());
    run(machine, steps.drop_last()).step(steps.last().0, steps.last().1);
}

/// Pauses and resumptions of the background thread balance: after a run, the
/// thread is paused as often as the machine says.
pub proof fn law_pauses_balance<M: Machine>(machine: M, steps: Seq<Step>)
    requires
        machine.wf(),
        answered(machine, steps),
    ensures
        pause_count(machine, steps, machine.paused()) == run(machine, steps).paused(),
    decreases steps.len(),
{
    if steps.len() > 0 {
        law_run_wf(machine, steps.drop_last());
        law_pauses_balance(machine, steps.drop_last());
        run(machine, steps.drop_last()).step(steps.last().0, steps.last().1);
    }
}

/// A machine takes entries off a completion queue only while it has the
/// background thread paused, so that the two never compete for one.
pub proof fn law_reads_while_paused<M: Machine>(machine: M, steps: Seq<Step>)
    requires
        machine.wf(),
        machine.paused() == 0,
        answered(machine, steps),
        steps.len() > 0,
        reads_completions(run(machine, steps.drop_last()).pending()),
    ensures
        pause_count(machine, steps.drop_last(), 0) > 0,
{
    law_run_wf(machine, steps.drop_last());
    law_pauses_balance(machine, steps.drop_last());
    run(machine, steps.drop_last()).step(steps.last().0, steps.last().1);
}

} // verus!
