//! Laws of submissions and of the search for the manager.

use crate::backend::{LocalHandle, OfiBackend, Submit, SubmitPhase};
use crate::effect::{answers, Effect, Reply};
use crate::error::OfiError;
use crate::laws::{executed, law_submission_runs_all_in_order};
use crate::machine::{answered, law_run_wf, run, Machine, Step};
use crate::messages::OfiManagerLocalMessage;
use crate::ops::RdmaOp;
use vstd::prelude::*;

verus! {

/// The time at which the turn of the transfer under way came: when the one
/// before it was reported as done, or when the submission started.
pub open spec fn turn_came(submission: Submit, steps: Seq<Step>, start: u64) -> u64
    decreases steps.len(),
{
    if steps.len() == 0 {
        start
    } else if run(submission, steps.drop_last()).pending() is AskLocal && steps.last().0
        == Reply::Answer(Ok(Ok(()))) {
        steps.last().1
    } else {
        turn_came(submission, steps.drop_last(), start)
    }
}

/// The effects of a submission are those of the transfer whose turn it is: its
/// remote buffer is resolved, and the manager runs it with the remote manager
/// and the description that the resolution named, in the time that was left
/// when its turn came.
pub proof fn law_submission_asks_for_the_transfer_at_hand(
    manager: String,
    ops: Vec<RdmaOp>,
    timeout_ns: u128,
    start: u64,
    steps: Seq<Step>,
)
    requires
        start + timeout_ns <= u128::MAX,
        answered(Submit::starting(manager, ops, timeout_ns, start), steps),
    ensures
        ({
            let submission = Submit::starting(manager, ops, timeout_ns, start);
            let done = executed(submission, steps);
            let left = start + timeout_ns - turn_came(submission, steps, start);
            match run(submission, steps).pending() {
                Effect::ResolveRemote { remote_buf_id } => {
                    &&& done < ops@.len()
                    &&& remote_buf_id == ops@[done as int].remote
                    &&& left > 0
                },
                Effect::AskLocal {
                    manager: asked,
                    message: OfiManagerLocalMessage::ExecuteOp {
                        op_type,
                        local_addr,
                        local_size,
                        remote_ofi_mgr,
                        remote_buffer,
                        remote_buf_id,
                        timeout_ms,
                    },
                } => {
                    &&& done < ops@.len()
                    &&& *asked == manager
                    &&& op_type == ops@[done as int].op_type
                    &&& local_addr == ops@[done as int].local.addr
                    &&& local_size == ops@[done as int].local.size
                    &&& remote_buf_id == ops@[done as int].remote
                    &&& left > 0
                    &&& left / 1_000_000 <= u64::MAX ==> timeout_ms == left / 1_000_000
                    &&& steps.len() > 0
                    &&& run(submission, steps.drop_last()).pending() == (Effect::ResolveRemote {
                        remote_buf_id: ops@[done as int].remote,
                    })
                    &&& steps.last().0 == Reply::Remote(
                        Some(Ok((remote_ofi_mgr, remote_buffer))),
                    )
                },
                Effect::Finished => run(submission, steps).phase is Done,
                _ => false,
            }
        }),
    decreases steps.len(),
{
    let submission = Submit::starting(manager, ops, timeout_ns, start);
    assert(submission.wf());
    law_run_wf(submission, steps);
    law_submission_runs_all_in_order(manager, ops, timeout_ns, start, steps);
    lemma_turn(manager, ops, timeout_ns, start, steps);
    if steps.len() > 0 {
        law_submission_runs_all_in_order(manager, ops, timeout_ns, start, steps.drop_last());
        law_submission_asks_for_the_transfer_at_hand(
            manager,
            ops,
            timeout_ns,
            start,
            steps.drop_last(),
        );
        if let Reply::Answer(Ok(Ok(done))) = steps.last().0 {
            assert(done == ());
        }
    }
}

/// What a submission comes to follows from its last answer: the failure that
/// it names, the time, or the success of the last transfer.
pub proof fn law_submission_result(
    manager: String,
    ops: Vec<RdmaOp>,
    timeout_ns: u128,
    start: u64,
    steps: Seq<Step>,
)
    requires
        start + timeout_ns <= u128::MAX,
        answered(Submit::starting(manager, ops, timeout_ns, start), steps),
    ensures
        ({
            let submission = Submit::starting(manager, ops, timeout_ns, start);
            let done = executed(submission, steps);
            let turn = turn_came(submission, steps, start);
            &&& done == ops@.len() <==> run(submission, steps).phase == SubmitPhase::Done(Ok(()))
            &&& run(submission, steps).phase matches SubmitPhase::Done(Err(error)) ==> match error {
                OfiError::SubmitTimeout => turn >= start + timeout_ns,
                OfiError::NoRemoteBackend => {
                    &&& steps.len() > 0
                    &&& steps.last().0 == Reply::Remote(None)
                },
                OfiError::Peer(text) => {
                    &&& steps.len() > 0
                    &&& steps.last().0 == Reply::Remote(Some(Err(text))) || steps.last().0
                        == Reply::Answer(Ok(Err(text))) || steps.last().0 == Reply::Answer(
                        Err(text),
                    )
                },
                _ => false,
            }
            &&& done < ops@.len() && turn >= start + timeout_ns ==> run(submission, steps).phase
                == SubmitPhase::Done(Err(OfiError::SubmitTimeout))
        }),
    decreases steps.len(),
{
    let submission = Submit::starting(manager, ops, timeout_ns, start);
    assert(submission.wf());
    law_run_wf(submission, steps);
    law_submission_runs_all_in_order(manager, ops, timeout_ns, start, steps);
    lemma_turn(manager, ops, timeout_ns, start, steps);
    if steps.len() > 0 {
        law_submission_result(manager, ops, timeout_ns, start, steps.drop_last());
        law_submission_runs_all_in_order(manager, ops, timeout_ns, start, steps.drop_last());
        lemma_turn(manager, ops, timeout_ns, start, steps.drop_last());
        law_run_wf(submission, steps.drop_last());
        if let Reply::Answer(Ok(Ok(done))) = steps.last().0 {
            assert(done == ());
        }
    }
}

proof fn lemma_turn(
    manager: String,
    ops: Vec<RdmaOp>,
    timeout_ns: u128,
    start: u64,
    steps: Seq<Step>,
)
    requires
        start + timeout_ns <= u128::MAX,
        answered(Submit::starting(manager, ops, timeout_ns, start), steps),
    ensures
        ({
            let submission = Submit::starting(manager, ops, timeout_ns, start);
            let now = run(submission, steps);
            let left = start + timeout_ns - turn_came(submission, steps, start);
            &&& now.deadline == start + timeout_ns
            &&& now.phase matches SubmitPhase::Resolve { remaining_ms } ==> left > 0 && (left
                / 1_000_000 <= u64::MAX ==> remaining_ms == left / 1_000_000)
            &&& now.phase matches SubmitPhase::Execute { remote_mgr, remote_buf, remaining_ms }
                ==> left > 0 && (left / 1_000_000 <= u64::MAX ==> remaining_ms == left / 1_000_000)
        }),
    decreases steps.len(),
{
    let submission = Submit::starting(manager, ops, timeout_ns, start);
    if steps.len() > 0 {
        lemma_turn(manager, ops, timeout_ns, start, steps.drop_last());
        if let Reply::Answer(Ok(Ok(done))) = steps.last().0 {
            assert(done == ());
        }
    }
}

/// The manager of the process is the one that the RDMA manager names, if it
/// lives in this process.
pub proof fn law_local_handle(first: Reply, second: Reply, t1: u64, t2: u64)
    requires
        answers(Effect::FindManager, first),
    ensures
        ({
            let search = LocalHandle::Find;
            let asked = search.after(first, t1);
            &&& search.pending() == Effect::FindManager
            &&& match first {
                Reply::Manager(Ok(Some(manager))) => {
                    &&& asked.pending() == (Effect::Downcast { manager: &manager })
                    &&& second == Reply::Local(true) ==> asked.after(second, t2)
                        == LocalHandle::Done(Ok(OfiBackend(manager)))
                    &&& second == Reply::Local(false) ==> asked.after(second, t2)
                        == LocalHandle::Done(Err(OfiError::NotLocal))
                },
                Reply::Manager(Ok(None)) => asked == LocalHandle::Done(
                    Err(OfiError::NoLocalBackend),
                ),
                Reply::Manager(Err(text)) => asked == LocalHandle::Done(Err(OfiError::Peer(text))),
                _ => false,
            }
        }),
{
}

} // verus!
