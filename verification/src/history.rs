//! What happened in a run.

use crate::effect::{Effect, Reply};
use crate::machine::{run, Machine, Step};
use vstd::prelude::*;

verus! {

/// What can be said of an effect, its answer and the time of the answer.
pub type Event<'a> = spec_fn(Effect<'a>, Reply, u64) -> bool;

/// Whether `event` holds of some step of a run.
pub open spec fn happened<'a, M: Machine>(machine: M, steps: Seq<Step>, event: Event<'a>) -> bool
    decreases steps.len(),
{
    steps.len() > 0 && (happened(machine, steps.drop_last(), event) || event(
        run(machine, steps.drop_last()).pending(),
        steps.last().0,
        steps.last().1,
    ))
}

} // verus!
