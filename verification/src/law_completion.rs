//! Laws of waits and postings, answer by answer.

use crate::completion::{AwaitAnswer, AwaitPhase, PollCq, PollPhase, PostAndPollCq, PostPhase};
use crate::effect::{Effect, FabricCall, PostCall, PostOp, Reply};
use crate::error::OfiError;
use crate::machine::Machine;
use crate::progress::CqProgressGuard;
use vstd::prelude::*;

verus! {

/// A wait looks at the queue that it was given, until its timeout has passed
/// since it began.
pub proof fn law_poll_begins(cq: usize, timeout_ns: u128, blocking: bool, now: u64)
    requires
        now + timeout_ns <= u128::MAX,
    ensures
        ({
            let poll = PollCq::starting(cq, timeout_ns, blocking, now);
            &&& poll.pending() == Effect::Call(FabricCall::ReadCq { cq })
            &&& poll.deadline == now + timeout_ns
            &&& poll.blocking == blocking
        }),
{
}

/// What a wait does with each answer of the queue. A blocking wait reports the
/// provider's code of a failure alone; the others report that of the entry too.
pub proof fn law_poll_decides(
    poll: PollCq,
    ret: i64,
    now: u64,
    err: i32,
    prov_errno: i32,
    later: u64,
)
    requires
        poll.phase is Read,
    ensures
        ({
            let next = poll.after(Reply::Code(ret), now);
            if ret > 0 {
                next.phase == PollPhase::Done(Ok(()))
            } else if ret == -11 && now >= poll.deadline {
                next.phase == PollPhase::Done(Err(OfiError::CqTimeout))
            } else if ret == -11 {
                next.pending() == Effect::Yield && next.after(Reply::Done, later) == poll
            } else {
                &&& next.pending() == Effect::Call(FabricCall::ReadCqError { cq: poll.cq })
                &&& next.after(Reply::CqError { err, prov_errno }, later).phase == PollPhase::Done(
                    Err(
                        OfiError::CqRead {
                            ret,
                            err: if poll.blocking {
                                None
                            } else {
                                Some(err)
                            },
                            prov_errno,
                        },
                    ),
                )
            }
        }),
{
}

/// A posting pauses the background thread, posts its call, and has its timeout
/// for that.
pub proof fn law_posting_begins(post: PostCall, cq: usize, timeout_ns: u128, now: u64)
    requires
        now + timeout_ns <= u128::MAX,
    ensures
        ({
            let posting = PostAndPollCq::starting(post, cq, timeout_ns);
            let paused = posting.after(Reply::Done, now);
            &&& posting.pending() == Effect::PauseProgress
            &&& paused.pending() == Effect::Call(FabricCall::Post(post))
            &&& paused.phase matches PostPhase::Post { deadline }
            &&& deadline == now + timeout_ns
            &&& paused.cq == cq
            &&& paused.timeout_ns == timeout_ns
        }),
{
}

/// What a posting does with each answer to its call.
pub proof fn law_posting_decides(
    posting: PostAndPollCq,
    deadline: u128,
    ret: i64,
    now: u64,
    driven: i64,
    later: u64,
)
    requires
        posting.phase == (PostPhase::Post { deadline }),
        now + posting.timeout_ns <= u128::MAX,
    ensures
        ({
            let next = posting.after(Reply::Code(ret), now);
            if ret == 0 {
                &&& next.pending() == Effect::Call(FabricCall::ReadCq { cq: posting.cq })
                &&& next.phase matches PostPhase::Poll(poll)
                &&& poll.deadline == now + posting.timeout_ns
                &&& !poll.blocking
            } else if ret == -11 && now < deadline {
                let seen = next.after(Reply::Code(driven), later);
                &&& next.pending() == Effect::Call(FabricCall::ReadCq { cq: posting.cq })
                &&& seen.pending() == Effect::Yield
                &&& seen.after(Reply::Done, later) == posting
            } else {
                &&& next.pending() == Effect::ResumeProgress
                &&& next.after(Reply::Done, later).phase == PostPhase::Done(
                    Err(
                        OfiError::Post {
                            op: match posting.post {
                                PostCall::Write { .. } => PostOp::Write,
                                PostCall::Read { .. } => PostOp::Read,
                                PostCall::Send { .. } => PostOp::Send,
                                PostCall::Recv { .. } => PostOp::Recv,
                            },
                            ret,
                        },
                    ),
                )
            }
        }),
{
}

/// A posting comes to what its wait comes to, once the background thread is let
/// go.
pub proof fn law_posting_takes_the_result_of_its_wait(
    posting: PostAndPollCq,
    poll: PollCq,
    reply: Reply,
    now: u64,
    later: u64,
)
    requires
        posting.phase == PostPhase::Poll(poll),
    ensures
        ({
            let next = posting.after(reply, now);
            match poll.after(reply, now).phase {
                PollPhase::Done(result) => {
                    &&& next.pending() == Effect::ResumeProgress
                    &&& next.after(Reply::Done, later).phase == PostPhase::Done(result)
                },
                _ => next.phase == PostPhase::Poll(poll.after(reply, now)),
            }
        }),
{
}

/// A wait for an answer looks for it, reads the queue once and lets other work
/// run, in this order and over again. The first entry that it reads stays what
/// it has to say of the queue.
pub proof fn law_wait_for_answer_goes_round(
    wait: AwaitAnswer,
    ret: i64,
    err: i32,
    prov_errno: i32,
)
    requires
        wait.phase is Look,
    ensures
        ({
            let looked = wait.after(Reply::Pending);
            let read = looked.after(Reply::Code(ret));
            &&& wait.pending() == Effect::TakeAnswer
            &&& looked.pending() == Effect::Call(FabricCall::ReadCq { cq: wait.cq })
            &&& if ret > 0 || ret == -11 {
                &&& read.pending() == Effect::Yield
                &&& read.after(Reply::Done).pending() == Effect::TakeAnswer
                &&& read.after(Reply::Done).cq == wait.cq
                &&& read.after(Reply::Done).arrived == if ret > 0 && wait.arrived is None {
                    Some(Ok::<(), OfiError>(()))
                } else {
                    wait.arrived
                }
            } else {
                let explained = read.after(Reply::CqError { err, prov_errno });
                &&& read.pending() == Effect::Call(FabricCall::ReadCqError { cq: wait.cq })
                &&& explained.pending() == Effect::Yield
                &&& explained.after(Reply::Done).pending() == Effect::TakeAnswer
                &&& explained.after(Reply::Done).arrived == if wait.arrived is None {
                    Some(
                        Err::<(), OfiError>(OfiError::CqRead { ret, err: Some(err), prov_errno }),
                    )
                } else {
                    wait.arrived
                }
            }
        }),
{
}

/// A wait for an answer ends with the answer: the peer did its part, or the
/// reason why it did not.
pub proof fn law_wait_for_answer_ends(
    wait: AwaitAnswer,
    answer: Result<Result<(), String>, String>,
)
    requires
        wait.phase is Look,
    ensures
        wait.after(Reply::Answer(answer)).arrived == wait.arrived,
        wait.after(Reply::Answer(answer)).phase matches AwaitPhase::Answered(result)
            && match answer {
            Ok(Ok(_)) => result is Ok,
            Ok(Err(text)) => result == Err::<(), String>(text),
            Err(text) => result == Err::<(), String>(text),
        },
{
}

/// The background thread ends when it is told to, and else reads exactly while
/// no operation is active.
pub proof fn law_thread_follows_its_flags(guard: CqProgressGuard)
    ensures
        guard.step() is Stop <==> guard.cancel,
        guard.step() is Read <==> !guard.cancel && guard.active_ops == 0,
        guard.step() is Skip <==> !guard.cancel && guard.active_ops > 0,
{
}

} // verus!
