//! Laws of what transfers come to, and when.

use crate::completion::{AwaitPhase, PollPhase, PostAndPollCq, PostPhase};
use crate::effect::{answers, Effect, FabricCall, PostCall, PostOp, Reply};
use crate::error::{Lookup, OfiError};
use crate::history::{happened, Event};
use crate::laws::due;
use crate::machine::{answered, law_run_wf, run, Machine, Step};
use crate::manager_actor::Manager;
use crate::peers::ResolvePhase;
use crate::task::{Job, Outcome, PeerPhase, Task, TransferOp, TransferPhase};
use vstd::prelude::*;

verus! {

// ---------------------------------------------------------------------------
// Time
// ---------------------------------------------------------------------------

/// What a posting is at: trying to be accepted, waiting for its completion, or
/// neither.
pub open spec fn posting_stage(posting: PostAndPollCq) -> int {
    match posting.phase {
        PostPhase::Post { deadline } => 1,
        PostPhase::Drive { deadline } => 1,
        PostPhase::Yield { deadline } => 1,
        PostPhase::Poll(_) => 2,
        _ => 0,
    }
}

/// When that ends.
pub open spec fn posting_deadline(posting: PostAndPollCq) -> int {
    match posting.phase {
        PostPhase::Post { deadline } => deadline as int,
        PostPhase::Drive { deadline } => deadline as int,
        PostPhase::Yield { deadline } => deadline as int,
        PostPhase::Poll(poll) => poll.deadline as int,
        _ => 0,
    }
}

/// What a request is at that takes time: as for a posting, or waiting for the
/// completion of a receive.
pub open spec fn stage(task: Task) -> int {
    match task.job {
        Job::Transfer { op, phase } => match phase {
            TransferPhase::Post { mr, posting } => posting_stage(posting),
            TransferPhase::Poll { mr, poll } => 3,
            _ => 0,
        },
        Job::Peer { buf_id, size, request, phase } => match phase {
            PeerPhase::Send(posting) => posting_stage(posting),
            _ => 0,
        },
        _ => 0,
    }
}

/// When that ends.
pub open spec fn stage_deadline(task: Task) -> int {
    match task.job {
        Job::Transfer { op, phase } => match phase {
            TransferPhase::Post { mr, posting } => posting_deadline(posting),
            TransferPhase::Poll { mr, poll } => poll.deadline as int,
            _ => 0,
        },
        Job::Peer { buf_id, size, request, phase } => match phase {
            PeerPhase::Send(posting) => posting_deadline(posting),
            _ => 0,
        },
        _ => 0,
    }
}

/// When what the request is at began: with the answer that led there.
pub open spec fn stage_began(task: Task, steps: Seq<Step>) -> int
    decreases steps.len(),
{
    if steps.len() == 0 {
        0
    } else if stage(run(task, steps)) == stage(run(task, steps.drop_last())) {
        stage_began(task, steps.drop_last())
    } else {
        steps.last().1 as int
    }
}

/// Whether a wait for a completion was cut off in the course of a run: the
/// queue was empty, and the time was up since the wait began.
pub open spec fn timed_out(task: Task, steps: Seq<Step>, timeout_ms: u64) -> bool
    decreases steps.len(),
{
    steps.len() > 0 && (timed_out(task, steps.drop_last(), timeout_ms) || {
        &&& stage(run(task, steps.drop_last())) >= 2
        &&& run(task, steps.drop_last()).pending() matches Effect::Call(FabricCall::ReadCq { cq })
        &&& steps.last().0 == Reply::Code(-11i64)
        &&& steps.last().1 >= stage_began(task, steps.drop_last()) + timeout_ms * 1_000_000
    })
}

/// Whether a data call was refused for good in the course of a run: with a
/// code other than "try again", or after the time was up since the first try.
pub open spec fn refused(
    task: Task,
    steps: Seq<Step>,
    op: PostOp,
    ret: i64,
    timeout_ms: u64,
) -> bool
    decreases steps.len(),
{
    steps.len() > 0 && (refused(task, steps.drop_last(), op, ret, timeout_ms) || {
        &&& run(task, steps.drop_last()).pending() matches Effect::Call(FabricCall::Post(call))
        &&& match op {
            PostOp::Write => call is Write,
            PostOp::Read => call is Read,
            PostOp::Send => call is Send,
            PostOp::Recv => call is Recv,
        }
        &&& steps.last().0 == Reply::Code(ret)
        &&& ret != 0
        &&& op is Recv || ret != -11 || steps.last().1 >= stage_began(task, steps.drop_last())
            + timeout_ms * 1_000_000
    })
}

/// Whatever takes time in a transfer has the timeout that was asked for, in
/// milliseconds, counted from when it began: the tries to have the data
/// accepted, the wait for their completion, and that for the completion of a
/// receive.
pub proof fn law_transfer_has_its_time(manager: Manager, op: TransferOp, steps: Seq<Step>)
    requires
        manager.wf(),
        manager.next_mr_key < u64::MAX,
        answered(manager.start_transfer(op), steps),
    ensures
        ({
            let task = manager.start_transfer(op);
            stage(run(task, steps)) > 0 ==> stage_deadline(run(task, steps)) == stage_began(
                task,
                steps,
            ) + op.timeout_ms * 1_000_000
        }),
{
    lemma_time(manager, op, steps);
}

// ---------------------------------------------------------------------------
// Failures
// ---------------------------------------------------------------------------

/// A registration that failed with this code, with or without attributes.
pub open spec fn region_refused(attr: bool, code: i32) -> Event<'static> {
    |effect: Effect<'static>, reply: Reply, now: u64|
        {
            &&& effect matches Effect::Call(FabricCall::Register(call))
            &&& call.hmem is Some <==> attr
            &&& reply matches Reply::Region(region)
            &&& region.ret == code
            &&& code != 0
        }
}

/// The driver did not name a device for the address.
pub open spec fn no_device(at: usize, code: u32) -> Event<'static> {
    |effect: Effect<'static>, reply: Reply, now: u64|
        {
            &&& effect == (Effect::DeviceOrdinal { addr: at })
            &&& reply matches Reply::Ordinal { err, ordinal }
            &&& err == code
            &&& err != 0 || ordinal < 0
        }
}

/// A peer or the runtime gave this as the reason of a failure.
pub open spec fn refused_with(text: String) -> Event<'static> {
    |effect: Effect<'static>, reply: Reply, now: u64|
        {
            ||| reply == Reply::Endpoint(Err(text))
            ||| reply == Reply::Answer(Ok(Err(text)))
            ||| reply == Reply::Answer(Err(text))
        }
}

/// The name of the manager's own endpoint could not be had.
pub open spec fn no_name(own: usize, code: i32) -> Event<'static> {
    |effect: Effect<'static>, reply: Reply, now: u64|
        {
            &&& effect matches Effect::Call(FabricCall::GetName { ep, capacity })
            &&& ep == own
            &&& reply matches Reply::Name { ret, addr, addr_len }
            &&& ret == code
            &&& ret != 0
        }
}

/// The address could not be inserted.
pub open spec fn not_inserted(code: i32) -> Event<'static> {
    |effect: Effect<'static>, reply: Reply, now: u64|
        {
            &&& effect matches Effect::Call(FabricCall::AvInsert { av, peer })
            &&& reply matches Reply::Address { ret, fi_addr }
            &&& ret == code
            &&& ret != 1
        }
}

/// The queue gave this code, which is neither an entry nor "try again".
pub open spec fn read_failed(code: i64) -> Event<'static> {
    |effect: Effect<'static>, reply: Reply, now: u64|
        {
            &&& effect matches Effect::Call(FabricCall::ReadCq { cq })
            &&& reply == Reply::Code(code)
            &&& code <= 0
            &&& code != -11
        }
}

/// The error entry of the queue said this.
pub open spec fn error_entry(code: i32, provider: i32) -> Event<'static> {
    |effect: Effect<'static>, reply: Reply, now: u64|
        {
            &&& effect matches Effect::Call(FabricCall::ReadCqError { cq })
            &&& reply == (Reply::CqError { err: code, prov_errno: provider })
        }
}

/// Whether an error is one that the run gave reason for.
pub open spec fn has_reason(
    task: Task,
    steps: Seq<Step>,
    manager: Manager,
    timeout_ms: u64,
    error: OfiError,
) -> bool {
    match error {
        OfiError::Register { ret } => {
            !manager.domain.hmem_supported && happened(task, steps, region_refused(false, ret))
        },
        OfiError::RegisterAttr { ret } => {
            manager.domain.hmem_supported && happened(task, steps, region_refused(true, ret))
        },
        OfiError::DeviceOrdinal { addr, err } => happened(task, steps, no_device(addr, err)),
        OfiError::Peer(text) => happened(task, steps, refused_with(text)),
        OfiError::GetName { ret } => happened(task, steps, no_name(manager.endpoint.ep, ret)),
        OfiError::AvInsert { ret } => happened(task, steps, not_inserted(ret)),
        OfiError::Post { op, ret } => refused(task, steps, op, ret, timeout_ms),
        OfiError::CqTimeout => timed_out(task, steps, timeout_ms),
        OfiError::CqRead { ret, err, prov_errno } => {
            &&& happened(task, steps, read_failed(ret))
            &&& err matches Some(code)
            &&& happened(task, steps, error_entry(code, prov_errno))
        },
        _ => false,
    }
}

/// Whether a transfer failed because its manager, which is the remote one as
/// well, has no such buffer.
pub open spec fn no_such_buffer(manager: Manager, op: TransferOp, error: OfiError) -> bool {
    &&& error == (OfiError::NotRegistered {
        lookup: if op.op_type is WriteFromLocal {
            Lookup::LoopbackWrite
        } else {
            Lookup::LoopbackRead
        },
        buf_id: op.remote_buf_id,
    })
    &&& op.remote_mgr@ == manager.id@
    &&& !manager.domain.rma_supported
    &&& !manager.buffers.contains_key(op.remote_buf_id)
}

/// A transfer fails only for a reason that it met, and reports that one.
pub proof fn law_transfer_failure_has_a_reason(manager: Manager, op: TransferOp, steps: Seq<Step>)
    requires
        manager.wf(),
        manager.next_mr_key < u64::MAX,
        answered(manager.start_transfer(op), steps),
    ensures
        run(manager.start_transfer(op), steps).outcome() matches Some(
            Outcome::Executed(Err(error)),
        ) ==> has_reason(manager.start_transfer(op), steps, manager, op.timeout_ms, error)
            || no_such_buffer(manager, op, error),
{
    lemma_reasons(manager, op, steps);
}

// ---------------------------------------------------------------------------
// Successes
// ---------------------------------------------------------------------------

/// Number of entries that were read off the queue in a run once one was due.
pub open spec fn entries(task: Task, steps: Seq<Step>) -> nat
    decreases steps.len(),
{
    if steps.len() == 0 {
        0
    } else {
        entries(task, steps.drop_last()) + (if due(task, steps.drop_last()) && run(
            task,
            steps.drop_last(),
        ).pending() is Call && (run(task, steps.drop_last()).pending()->Call_0 is ReadCq) && (
        steps.last().0 matches Reply::Code(ret) && ret > 0) {
            1nat
        } else {
            0
        })
    }
}

/// Number of entries that a transfer has to see: a manager that reads its own
/// buffer by messages waits for its send and for its receive.
pub open spec fn entries_needed(manager: Manager, op: TransferOp) -> nat {
    if !manager.domain.rma_supported && op.op_type is ReadIntoLocal && op.remote_mgr@
        == manager.id@ {
        2
    } else {
        1
    }
}

/// A transfer succeeds only after as many entries as it has calls to wait for.
pub proof fn law_transfer_success_saw_its_entries(
    manager: Manager,
    op: TransferOp,
    steps: Seq<Step>,
)
    requires
        manager.wf(),
        manager.next_mr_key < u64::MAX,
        answered(manager.start_transfer(op), steps),
        run(manager.start_transfer(op), steps).outcome() == Some(Outcome::Executed(Ok(()))),
    ensures
        entries(manager.start_transfer(op), steps) >= entries_needed(manager, op),
{
    lemma_entries(manager, op, steps);
}

/// What a transfer that waits for an entry does with each answer: an entry is
/// its success, unless it still has to wait for its receive; an empty queue is
/// looked at again, or ends the transfer if the time is up; and anything else is
/// reported with the error entry.
pub proof fn law_entry_decides(
    manager: Manager,
    op: TransferOp,
    steps: Seq<Step>,
    ret: i64,
    now: u64,
    err: i32,
    prov_errno: i32,
)
    requires
        manager.wf(),
        manager.next_mr_key < u64::MAX,
        answered(manager.start_transfer(op), steps),
        stage(run(manager.start_transfer(op), steps)) >= 2,
        run(manager.start_transfer(op), steps).pending() == Effect::Call(
            FabricCall::ReadCq { cq: manager.domain.cq },
        ),
    ensures
        ({
            let task = manager.start_transfer(op);
            let was = run(task, steps);
            let next = was.after(Reply::Code(ret), now);
            let end = stage_began(task, steps) + op.timeout_ms * 1_000_000;
            if ret > 0 {
                if stage(was) == 2 && entries_needed(manager, op) == 2 {
                    &&& stage(next) == 3
                    &&& next.pending() == Effect::Call(
                        FabricCall::ReadCq { cq: manager.domain.cq },
                    )
                } else {
                    ends_with(next, Ok(()), now)
                }
            } else if ret == -11 {
                if now < end {
                    &&& stage(next) == stage(was)
                    &&& next.pending() == Effect::Yield
                    &&& next.after(Reply::Done, now) == was
                } else {
                    ends_with(next, Err(OfiError::CqTimeout), now)
                }
            } else {
                &&& next.pending() == Effect::Call(
                    FabricCall::ReadCqError { cq: manager.domain.cq },
                )
                &&& ends_with(
                    next.after(Reply::CqError { err, prov_errno }, now),
                    Err(OfiError::CqRead { ret, err: Some(err), prov_errno }),
                    now,
                )
            }
        }),
{
    lemma_frame(manager, op, steps);
    lemma_time(manager, op, steps);
}

/// Whether a transfer has this result, and has only to let the background
/// thread go and to give its region back.
pub open spec fn ends_with(task: Task, result: Result<(), OfiError>, now: u64) -> bool {
    let resumed = task.after(Reply::Done, now);
    &&& task.pending() == Effect::ResumeProgress
    &&& resumed.pending() is Call
    &&& resumed.pending()->Call_0 is Close
    &&& resumed.after(Reply::Done, now).outcome() == Some(Outcome::Executed(result))
}

/// What a transfer that tries to have its data accepted does with each answer:
/// it waits for the completion, tries the same call again after a look at the
/// queue, or gives up.
pub proof fn law_acceptance_decides(
    manager: Manager,
    op: TransferOp,
    steps: Seq<Step>,
    call: PostCall,
    ret: i64,
    now: u64,
    driven: i64,
)
    requires
        manager.wf(),
        manager.next_mr_key < u64::MAX,
        answered(manager.start_transfer(op), steps),
        stage(run(manager.start_transfer(op), steps)) == 1,
        run(manager.start_transfer(op), steps).pending() == Effect::Call(FabricCall::Post(call)),
    ensures
        ({
            let task = manager.start_transfer(op);
            let was = run(task, steps);
            let next = was.after(Reply::Code(ret), now);
            let end = stage_began(task, steps) + op.timeout_ms * 1_000_000;
            if ret == 0 {
                &&& stage(next) == 2
                &&& next.pending() == Effect::Call(FabricCall::ReadCq { cq: manager.domain.cq })
            } else if ret == -11 && now < end {
                let seen = next.after(Reply::Code(driven), now);
                &&& next.pending() == Effect::Call(FabricCall::ReadCq { cq: manager.domain.cq })
                &&& seen.pending() == Effect::Yield
                &&& seen.after(Reply::Done, now) == was
            } else {
                ends_with(
                    next,
                    Err(
                        OfiError::Post {
                            op: match call {
                                PostCall::Write { .. } => PostOp::Write,
                                PostCall::Read { .. } => PostOp::Read,
                                PostCall::Send { .. } => PostOp::Send,
                                PostCall::Recv { .. } => PostOp::Recv,
                            },
                            ret,
                        },
                    ),
                    now,
                )
            }
        }),
{
    lemma_frame(manager, op, steps);
    lemma_time(manager, op, steps);
}

// ---------------------------------------------------------------------------
// The way there
// ---------------------------------------------------------------------------

/// What a transfer does first once it knows the fabric address of the remote
/// manager. With remote memory access it posts its call. By messages a read
/// posts its receive; a write has the peer post its receive, or posts it itself
/// where the buffer is the manager's own; and where the manager has no such
/// buffer, the transfer is over.
pub open spec fn first_move(manager: Manager, op: TransferOp, task: Task) -> bool {
    if manager.domain.rma_supported || op.op_type is ReadIntoLocal {
        task.pending() == Effect::PauseProgress
    } else if op.remote_mgr@ != manager.id@ {
        task.pending() is Ask && task.pending()->Ask_message is PostRecv
    } else if manager.buffers.contains_key(op.remote_buf_id) {
        task.pending() matches Effect::Call(FabricCall::Post(call)) && call is Recv
    } else {
        task.pending() is Call && task.pending()->Call_0 is Close
    }
}

/// A transfer goes on with each answer that is no failure: from its region to
/// the address of the remote manager, from there to its data, and from the
/// receive to the send.
pub proof fn law_transfer_goes_on(
    manager: Manager,
    op: TransferOp,
    steps: Seq<Step>,
    reply: Reply,
    now: u64,
)
    requires
        manager.wf(),
        manager.next_mr_key < u64::MAX,
        answered(manager.start_transfer(op), steps),
        answers(run(manager.start_transfer(op), steps).pending(), reply),
    ensures
        ({
            let was = run(manager.start_transfer(op), steps);
            let next = was.after(reply, now);
            match (was.pending(), reply) {
                (Effect::IsDevicePointer { addr }, Reply::DevicePointer(device)) => if device {
                    next.pending() == (Effect::DeviceOrdinal { addr })
                } else {
                    next.pending() is Call && next.pending()->Call_0 is Register
                },
                (Effect::DeviceOrdinal { addr }, Reply::Ordinal { err, ordinal }) => {
                    if err == 0 && ordinal >= 0 {
                        next.pending() is Call && next.pending()->Call_0 is Register
                    } else {
                        next.outcome() == Some(
                            Outcome::Executed(Err(OfiError::DeviceOrdinal { addr, err })),
                        )
                    }
                },
                (Effect::Call(FabricCall::Register(call)), Reply::Region(region)) => {
                    if region.ret != 0 {
                        next.outcome() is Some
                    } else if manager.peers.contains_key(op.remote_mgr@) {
                        first_move(manager, op, next)
                    } else if op.remote_mgr@ == manager.id@ {
                        next.pending() == Effect::Call(
                            FabricCall::GetName { ep: manager.endpoint.ep, capacity: 0 },
                        )
                    } else {
                        next.pending() is Ask && next.pending()->Ask_message is GetEndpointAddr
                    }
                },
                (Effect::Ask { peer, message }, Reply::Endpoint(Ok(info))) => next.pending()
                    == Effect::Call(FabricCall::AvInsert { av: manager.domain.av, peer: &info }),
                (
                    Effect::Call(FabricCall::AvInsert { av, peer }),
                    Reply::Address { ret, fi_addr },
                ) => if ret == 1 {
                    first_move(manager, op, next)
                } else {
                    next.pending() is Call && next.pending()->Call_0 is Close
                },
                (Effect::Call(FabricCall::Post(PostCall::Recv { .. })), Reply::Code(ret)) => {
                    if ret != 0 {
                        if op.op_type is ReadIntoLocal {
                            next.pending() == Effect::ResumeProgress
                        } else {
                            next.pending() is Call && next.pending()->Call_0 is Close
                        }
                    } else if op.op_type is WriteFromLocal {
                        next.pending() == Effect::PauseProgress
                    } else if op.remote_mgr@ != manager.id@ {
                        next.pending() is Tell
                    } else if manager.buffers.contains_key(op.remote_buf_id) {
                        next.pending() matches Effect::Call(FabricCall::Post(call)) && call is Send
                    } else {
                        next.pending() == Effect::ResumeProgress
                    }
                },
                (Effect::Ask { peer, message }, Reply::Answer(answer)) => match answer {
                    Ok(Ok(_)) => next.pending() == Effect::PauseProgress,
                    _ => next.pending() is Call && next.pending()->Call_0 is Close,
                },
                (Effect::Tell { peer, message }, Reply::Done) => next.pending()
                    == Effect::TakeAnswer,
                (Effect::TakeAnswer, Reply::Answer(Ok(Ok(_)))) => {
                    ||| next.pending() == Effect::ResumeProgress
                    ||| stage(next) == 3 && next.pending() == Effect::Call(
                        FabricCall::ReadCq { cq: manager.domain.cq },
                    )
                },
                (Effect::TakeAnswer, Reply::Pending) => next.pending() == Effect::Call(
                    FabricCall::ReadCq { cq: manager.domain.cq },
                ),
                (Effect::PauseProgress, _) => next.pending() is Call
                    && next.pending()->Call_0 is Post,
                (Effect::ResumeProgress, _) => next.pending() is Call
                    && next.pending()->Call_0 is Close,
                (Effect::Call(FabricCall::Close { fid }), _) => next.outcome() is Some,
                _ => true,
            }
        }),
{
    lemma_frame(manager, op, steps);
    lemma_known(manager, op, steps);
}

proof fn lemma_known(manager: Manager, op: TransferOp, steps: Seq<Step>)
    requires
        manager.wf(),
        manager.next_mr_key < u64::MAX,
        answered(manager.start_transfer(op), steps),
    ensures
        ({
            let now = run(manager.start_transfer(op), steps);
            now.job matches Job::Transfer { op: same, phase } ==> (phase is Register || phase
                is Resolve ==> now.manager.peers == manager.peers)
        }),
    decreases steps.len(),
{
    lemma_frame(manager, op, steps);
    if steps.len() > 0 {
        lemma_frame(manager, op, steps.drop_last());
        lemma_known(manager, op, steps.drop_last());
    }
}

// ---------------------------------------------------------------------------
// The history behind a state
// ---------------------------------------------------------------------------

/// What stays of a manager in a transfer.
spec fn transfer_frame(manager: Manager, op: TransferOp, now: Task) -> bool {
    &&& now.wf()
    &&& now.manager.domain == manager.domain
    &&& now.manager.endpoint == manager.endpoint
    &&& now.manager.id == manager.id
    &&& now.manager.buffers == manager.buffers
    &&& match now.job {
        Job::Transfer { op: same, phase } => same == op && match phase {
            TransferPhase::Register(registration) => {
                &&& registration.addr == op.local_addr
                &&& registration.domain == manager.domain
            },
            TransferPhase::Resolve { mr, resolution } => {
                &&& resolution.endpoint == manager.endpoint
                &&& resolution.phase matches ResolvePhase::OwnName(query) ==> query.ep
                    == manager.endpoint.ep
            },
            TransferPhase::Recv { mr, peer, call } => call is Recv,
            TransferPhase::Await { mr, wait } => wait.cq == manager.domain.cq,
            TransferPhase::Post { mr, posting } => {
                &&& !(posting.post is Recv)
                &&& posting.cq == manager.domain.cq
                &&& posting.timeout_ns == op.timeout_ms * 1_000_000
                &&& posting.phase matches PostPhase::Poll(poll) ==> poll.cq == manager.domain.cq
                    && !poll.blocking
            },
            TransferPhase::Poll { mr, poll } => poll.cq == manager.domain.cq && !poll.blocking,
            _ => true,
        },
        Job::Finished(Outcome::Executed(result)) => true,
        _ => false,
    }
}

proof fn lemma_frame(manager: Manager, op: TransferOp, steps: Seq<Step>)
    requires
        manager.wf(),
        manager.next_mr_key < u64::MAX,
        answered(manager.start_transfer(op), steps),
    ensures
        transfer_frame(manager, op, run(manager.start_transfer(op), steps)),
    decreases steps.len(),
{
    let task = manager.start_transfer(op);
    manager.lemma_same_resources(manager.use_key().next_mr_key, manager.peers);
    assert(task.wf());
    law_run_wf(task, steps);
    if steps.len() > 0 {
        lemma_frame(manager, op, steps.drop_last());
    }
}

proof fn lemma_time(manager: Manager, op: TransferOp, steps: Seq<Step>)
    requires
        manager.wf(),
        manager.next_mr_key < u64::MAX,
        answered(manager.start_transfer(op), steps),
    ensures
        ({
            let task = manager.start_transfer(op);
            stage(run(task, steps)) > 0 ==> stage_deadline(run(task, steps)) == stage_began(
                task,
                steps,
            ) + op.timeout_ms * 1_000_000
        }),
    decreases steps.len(),
{
    lemma_frame(manager, op, steps);
    if steps.len() > 0 {
        lemma_frame(manager, op, steps.drop_last());
        lemma_time(manager, op, steps.drop_last());
    }
}

spec fn entries_fit(manager: Manager, op: TransferOp, steps: Seq<Step>) -> bool {
    let task = manager.start_transfer(op);
    let seen = entries(task, steps);
    let needed = entries_needed(manager, op);
    match run(task, steps).job {
        Job::Transfer { op: same, phase } => match phase {
            TransferPhase::Await { mr, wait } => {
                &&& needed == 1
                &&& due(task, steps)
                &&& wait.arrived matches Some(Ok(_)) ==> seen >= 1
            },
            TransferPhase::TellPeer { mr } => needed == 1,
            TransferPhase::Post { mr, posting } => {
                &&& posting.phase is Poll ==> due(task, steps)
                &&& posting.phase matches PostPhase::Resume(Ok(_)) ==> seen >= needed
                &&& needed == 2 ==> !(posting.phase is Pause) && !(posting.phase is Resume)
            },
            TransferPhase::Poll { mr, poll } => due(task, steps) && (needed == 2 ==> seen >= 1),
            TransferPhase::Resume { mr, result } => result is Ok ==> seen >= needed,
            TransferPhase::Close { mr, result } => result is Ok ==> seen >= needed,
            _ => true,
        },
        Job::Finished(Outcome::Executed(result)) => result is Ok ==> seen >= needed,
        _ => false,
    }
}

proof fn lemma_entries(manager: Manager, op: TransferOp, steps: Seq<Step>)
    requires
        manager.wf(),
        manager.next_mr_key < u64::MAX,
        answered(manager.start_transfer(op), steps),
    ensures
        entries_fit(manager, op, steps),
    decreases steps.len(),
{
    lemma_frame(manager, op, steps);
    if steps.len() > 0 {
        lemma_frame(manager, op, steps.drop_last());
        lemma_entries(manager, op, steps.drop_last());
    }
}

/// A reason stays one.
proof fn lemma_reason_stays(
    task: Task,
    steps: Seq<Step>,
    manager: Manager,
    timeout_ms: u64,
    error: OfiError,
)
    requires
        steps.len() > 0,
        has_reason(task, steps.drop_last(), manager, timeout_ms, error),
    ensures
        has_reason(task, steps, manager, timeout_ms, error),
{
}

/// The error that a request carries with it, if it has one.
spec fn carried(task: Task) -> Option<OfiError> {
    match task.job {
        Job::Transfer { op, phase } => match phase {
            TransferPhase::Await { mr, wait } => match wait.arrived {
                Some(Err(error)) => Some(error),
                _ => None,
            },
            TransferPhase::Post { mr, posting } => posting_error(posting),
            TransferPhase::Resume { mr, result } => match result {
                Err(error) => Some(error),
                Ok(_) => None,
            },
            TransferPhase::Close { mr, result } => match result {
                Err(error) => Some(error),
                Ok(_) => None,
            },
            _ => None,
        },
        Job::Peer { buf_id, size, request, phase } => match phase {
            PeerPhase::Send(posting) => posting_error(posting),
            _ => None,
        },
        Job::Finished(Outcome::Executed(Err(error))) => Some(error),
        Job::Finished(Outcome::Answered(Err(error))) => Some(error),
        Job::Finished(Outcome::Answered(Ok(Err(error)))) => Some(error),
        _ => None,
    }
}

spec fn posting_error(posting: PostAndPollCq) -> Option<OfiError> {
    match posting.phase {
        PostPhase::Resume(Err(error)) => Some(error),
        _ => None,
    }
}

/// The code of the read whose error entry a request reads, if it does.
spec fn failed_read(task: Task) -> Option<i64> {
    match task.job {
        Job::Transfer { op, phase } => match phase {
            TransferPhase::Await { mr, wait } => match wait.phase {
                AwaitPhase::ReadError { ret } => Some(ret),
                _ => None,
            },
            TransferPhase::Post { mr, posting } => posting_failed_read(posting),
            TransferPhase::Poll { mr, poll } => match poll.phase {
                PollPhase::ReadError { ret } => Some(ret),
                _ => None,
            },
            _ => None,
        },
        Job::Peer { buf_id, size, request, phase } => match phase {
            PeerPhase::Send(posting) => posting_failed_read(posting),
            _ => None,
        },
        _ => None,
    }
}

spec fn posting_failed_read(posting: PostAndPollCq) -> Option<i64> {
    match posting.phase {
        PostPhase::Poll(poll) => match poll.phase {
            PollPhase::ReadError { ret } => Some(ret),
            _ => None,
        },
        _ => None,
    }
}

spec fn reasons_fit(manager: Manager, op: TransferOp, steps: Seq<Step>) -> bool {
    let task = manager.start_transfer(op);
    let now = run(task, steps);
    &&& carried(now) matches Some(error) ==> has_reason(
        task,
        steps,
        manager,
        op.timeout_ms,
        error,
    ) || no_such_buffer(manager, op, error)
    &&& failed_read(now) matches Some(ret) ==> happened(task, steps, read_failed(ret))
}

proof fn lemma_reasons(manager: Manager, op: TransferOp, steps: Seq<Step>)
    requires
        manager.wf(),
        manager.next_mr_key < u64::MAX,
        answered(manager.start_transfer(op), steps),
    ensures
        reasons_fit(manager, op, steps),
    decreases steps.len(),
{
    let task = manager.start_transfer(op);
    lemma_frame(manager, op, steps);
    if steps.len() > 0 {
        let before = steps.drop_last();
        let was = run(task, before);
        lemma_frame(manager, op, before);
        lemma_time(manager, op, before);
        lemma_reasons(manager, op, before);
        if let Some(error) = carried(was) {
            if !no_such_buffer(manager, op, error) {
                lemma_reason_stays(task, steps, manager, op.timeout_ms, error);
            }
        }
        lemma_reasons_step(manager, op, steps);
    }
}

/// One step of [`lemma_reasons`], by what the transfer was at.
proof fn lemma_reasons_step(manager: Manager, op: TransferOp, steps: Seq<Step>)
    requires
        manager.wf(),
        manager.next_mr_key < u64::MAX,
        steps.len() > 0,
        answered(manager.start_transfer(op), steps),
        transfer_frame(manager, op, run(manager.start_transfer(op), steps.drop_last())),
        ({
            let task = manager.start_transfer(op);
            let was = run(task, steps.drop_last());
            &&& stage(was) > 0 ==> stage_deadline(was) == stage_began(task, steps.drop_last())
                + op.timeout_ms * 1_000_000
            &&& carried(was) matches Some(error) ==> has_reason(
                task,
                steps,
                manager,
                op.timeout_ms,
                error,
            ) || no_such_buffer(manager, op, error)
            &&& failed_read(was) matches Some(ret) ==> happened(
                task,
                steps.drop_last(),
                read_failed(ret),
            )
        }),
    ensures
        reasons_fit(manager, op, steps),
{
    let task = manager.start_transfer(op);
    let was = run(task, steps.drop_last());
    if let Job::Transfer { op: same, phase } = was.job {
        match phase {
            TransferPhase::Register(registration) => {},
            TransferPhase::Resolve { mr, resolution } => {},
            TransferPhase::Recv { mr, peer, call } => {},
            TransferPhase::AskPeer { mr, peer } => {},
            TransferPhase::Await { mr, wait } => {},
            TransferPhase::Post { mr, posting } => {},
            TransferPhase::Poll { mr, poll } => {},
            _ => {},
        }
    }
}

} // verus!
