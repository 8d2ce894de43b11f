//! Posting a transfer and waiting for its completion.

use crate::effect::{Effect, FabricCall, PostCall, Reply, Resource, FI_EAGAIN};
use crate::error::OfiError;
use crate::machine::Machine;
use vstd::multiset::Multiset;
use vstd::prelude::*;

verus! {

/// The longest timeout for which a deadline can be computed, in nanoseconds.
pub const MAX_TIMEOUT_NS: u128 = 0xffff_ffff_ffff_ffff_0000_0000_0000_0000;

/// Nanoseconds in a millisecond.
pub const NANOS_PER_MILLI: u128 = 1_000_000;

/// A timeout of `timeout_ms` milliseconds, in nanoseconds.
pub fn millis(timeout_ms: u64) -> (ns: u128)
    ensures
        ns == timeout_ms * NANOS_PER_MILLI,
        ns <= MAX_TIMEOUT_NS,
{
    timeout_ms as u128 * NANOS_PER_MILLI
}

/// Waits for one completion.
#[derive(Debug, PartialEq, Eq)]
pub struct PollCq {
    pub cq: usize,
    /// Time at which the wait ends, in nanoseconds.
    pub deadline: u128,
    /// Whether the wait blocks its thread.
    pub blocking: bool,
    pub phase: PollPhase,
}

/// What a poll waits for.
#[derive(Debug, PartialEq, Eq)]
pub enum PollPhase {
    /// The next entry.
    Read,
    /// Other work, before it looks again.
    Yield,
    /// The error entry behind a failed read.
    ReadError { ret: i64 },
    /// Nothing.
    Done(Result<(), OfiError>),
}

impl PollCq {
    /// A poll that starts at `now`.
    pub open spec fn starting(cq: usize, timeout_ns: u128, blocking: bool, now: u64) -> Self {
        PollCq {
            cq,
            deadline: (now + timeout_ns) as u128,
            blocking,
            phase: PollPhase::Read,
        }
    }

    /// Starts to wait at `now`.
    pub fn start(cq: usize, timeout_ns: u128, blocking: bool, now: u64) -> (poll: Self)
        requires
            timeout_ns <= MAX_TIMEOUT_NS,
        ensures
            poll == Self::starting(cq, timeout_ns, blocking, now),
            poll.deadline == now + timeout_ns,
    {
        PollCq { cq, deadline: now as u128 + timeout_ns, blocking, phase: PollPhase::Read }
    }

    /// The effect that the poll waits for.
    pub open spec fn pending(&self) -> Effect<'_> {
        match self.phase {
            PollPhase::Read => Effect::Call(FabricCall::ReadCq { cq: self.cq }),
            PollPhase::Yield => Effect::Yield,
            PollPhase::ReadError { ret } => Effect::Call(FabricCall::ReadCqError { cq: self.cq }),
            PollPhase::Done(_) => Effect::Finished,
        }
    }

    /// The poll after `reply` arrived at `now`: a positive count is a
    /// completion, "try again" continues until the deadline, and any other code
    /// is an error, whose entry is read before it is reported.
    pub open spec fn after(self, reply: Reply, now: u64) -> Self {
        let phase = match (self.phase, reply) {
            (PollPhase::Read, Reply::Code(ret)) => {
                if ret > 0 {
                    PollPhase::Done(Ok(()))
                } else if ret == -FI_EAGAIN {
                    if now >= self.deadline {
                        PollPhase::Done(Err(OfiError::CqTimeout))
                    } else {
                        PollPhase::Yield
                    }
                } else {
                    PollPhase::ReadError { ret }
                }
            },
            (PollPhase::Yield, _) => PollPhase::Read,
            (PollPhase::ReadError { ret }, Reply::CqError { err, prov_errno }) => {
                PollPhase::Done(
                    Err(
                        OfiError::CqRead {
                            ret,
                            err: if self.blocking {
                                None
                            } else {
                                Some(err)
                            },
                            prov_errno,
                        },
                    ),
                )
            },
            (phase, _) => phase,
        };
        PollCq { phase, ..self }
    }

    /// Returns the effect that the poll waits for.
    pub fn effect(&self) -> (effect: Effect<'_>)
        ensures
            effect == self.pending(),
    {
        match self.phase {
            PollPhase::Read => Effect::Call(FabricCall::ReadCq { cq: self.cq }),
            PollPhase::Yield => Effect::Yield,
            PollPhase::ReadError { ret: _ } => Effect::Call(
                FabricCall::ReadCqError { cq: self.cq },
            ),
            PollPhase::Done(_) => Effect::Finished,
        }
    }

    /// Takes the answer that arrived at `now`.
    pub fn resume(self, reply: Reply, now: u64) -> (next: Self)
        ensures
            next == self.after(reply, now),
    {
        let phase = match (self.phase, reply) {
            (PollPhase::Read, Reply::Code(ret)) => {
                if ret > 0 {
                    PollPhase::Done(Ok(()))
                } else if ret == -FI_EAGAIN {
                    if now as u128 >= self.deadline {
                        PollPhase::Done(Err(OfiError::CqTimeout))
                    } else {
                        PollPhase::Yield
                    }
                } else {
                    PollPhase::ReadError { ret }
                }
            },
            (PollPhase::Yield, _) => PollPhase::Read,
            (PollPhase::ReadError { ret }, Reply::CqError { err, prov_errno }) => {
                PollPhase::Done(
                    Err(
                        OfiError::CqRead {
                            ret,
                            err: if self.blocking {
                                None
                            } else {
                                Some(err)
                            },
                            prov_errno,
                        },
                    ),
                )
            },
            (phase, _) => phase,
        };
        PollCq { cq: self.cq, deadline: self.deadline, blocking: self.blocking, phase }
    }
}

/// Waits for the answer of a peer while a receive is posted for its data.
///
/// The background thread is paused, so that it takes no completion of the
/// receive; the wait reads the queue in its place, which keeps libfabric moving
/// as well, and keeps what the first entry said.
#[derive(Debug, PartialEq, Eq)]
pub struct AwaitAnswer {
    pub cq: usize,
    /// What the first entry said, if there was one.
    pub arrived: Option<Result<(), OfiError>>,
    pub phase: AwaitPhase,
}

/// What a wait for an answer waits for.
#[derive(Debug, PartialEq, Eq)]
pub enum AwaitPhase {
    /// The answer.
    Look,
    /// An entry.
    Read,
    /// The error entry behind a failed read.
    ReadError { ret: i64 },
    /// Other work, before it looks again.
    Yield,
    /// Nothing: the peer did its part, or it failed for this reason.
    Answered(Result<(), String>),
}

/// Keeps the first of two things.
pub open spec fn first_of(
    arrived: Option<Result<(), OfiError>>,
    next: Result<(), OfiError>,
) -> Option<Result<(), OfiError>> {
    match arrived {
        Some(first) => Some(first),
        None => Some(next),
    }
}

fn keep_first(
    arrived: Option<Result<(), OfiError>>,
    next: Result<(), OfiError>,
) -> (kept: Option<Result<(), OfiError>>)
    ensures
        kept == first_of(arrived, next),
{
    match arrived {
        Some(first) => Some(first),
        None => Some(next),
    }
}

impl AwaitAnswer {
    /// A wait that has not begun.
    pub open spec fn starting(cq: usize) -> Self {
        AwaitAnswer { cq, arrived: None, phase: AwaitPhase::Look }
    }

    /// Begins to wait.
    pub fn start(cq: usize) -> (wait: Self)
        ensures
            wait == Self::starting(cq),
    {
        AwaitAnswer { cq, arrived: None, phase: AwaitPhase::Look }
    }

    /// The effect that the wait asks for.
    pub open spec fn pending(&self) -> Effect<'_> {
        match self.phase {
            AwaitPhase::Look => Effect::TakeAnswer,
            AwaitPhase::Read => Effect::Call(FabricCall::ReadCq { cq: self.cq }),
            AwaitPhase::ReadError { ret } => Effect::Call(FabricCall::ReadCqError { cq: self.cq }),
            AwaitPhase::Yield => Effect::Yield,
            AwaitPhase::Answered(_) => Effect::Finished,
        }
    }

    /// The wait after `reply`: it looks for the answer and reads the queue in
    /// turn, until the answer is there.
    pub open spec fn after(self, reply: Reply) -> Self {
        match (self.phase, reply) {
            (AwaitPhase::Look, Reply::Answer(answer)) => AwaitAnswer {
                phase: AwaitPhase::Answered(
                    match answer {
                        Ok(Ok(_)) => Ok(()),
                        Ok(Err(text)) => Err(text),
                        Err(text) => Err(text),
                    },
                ),
                ..self
            },
            (AwaitPhase::Look, Reply::Pending) => AwaitAnswer { phase: AwaitPhase::Read, ..self },
            (AwaitPhase::Read, Reply::Code(ret)) => if ret > 0 {
                AwaitAnswer {
                    arrived: first_of(self.arrived, Ok(())),
                    phase: AwaitPhase::Yield,
                    ..self
                }
            } else if ret == -FI_EAGAIN {
                AwaitAnswer { phase: AwaitPhase::Yield, ..self }
            } else {
                AwaitAnswer { phase: AwaitPhase::ReadError { ret }, ..self }
            },
            (AwaitPhase::ReadError { ret }, Reply::CqError { err, prov_errno }) => AwaitAnswer {
                arrived: first_of(
                    self.arrived,
                    Err(OfiError::CqRead { ret, err: Some(err), prov_errno }),
                ),
                phase: AwaitPhase::Yield,
                ..self
            },
            (AwaitPhase::Yield, _) => AwaitAnswer { phase: AwaitPhase::Look, ..self },
            _ => self,
        }
    }

    /// Returns the effect that the wait asks for.
    pub fn effect(&self) -> (effect: Effect<'_>)
        ensures
            effect == self.pending(),
    {
        match self.phase {
            AwaitPhase::Look => Effect::TakeAnswer,
            AwaitPhase::Read => Effect::Call(FabricCall::ReadCq { cq: self.cq }),
            AwaitPhase::ReadError { ret: _ } => Effect::Call(
                FabricCall::ReadCqError { cq: self.cq },
            ),
            AwaitPhase::Yield => Effect::Yield,
            AwaitPhase::Answered(_) => Effect::Finished,
        }
    }

    /// Takes the answer to the pending effect.
    pub fn resume(self, reply: Reply) -> (next: Self)
        ensures
            next == self.after(reply),
    {
        let mut arrived = self.arrived;
        let phase = match (self.phase, reply) {
            (AwaitPhase::Look, Reply::Answer(answer)) => AwaitPhase::Answered(
                match answer {
                    Ok(Ok(_)) => Ok(()),
                    Ok(Err(text)) => Err(text),
                    Err(text) => Err(text),
                },
            ),
            (AwaitPhase::Look, Reply::Pending) => AwaitPhase::Read,
            (AwaitPhase::Read, Reply::Code(ret)) => if ret > 0 {
                arrived = keep_first(arrived, Ok(()));
                AwaitPhase::Yield
            } else if ret == -FI_EAGAIN {
                AwaitPhase::Yield
            } else {
                AwaitPhase::ReadError { ret }
            },
            (AwaitPhase::ReadError { ret }, Reply::CqError { err, prov_errno }) => {
                arrived =
                keep_first(arrived, Err(OfiError::CqRead { ret, err: Some(err), prov_errno }));
                AwaitPhase::Yield
            },
            (AwaitPhase::Yield, _) => AwaitPhase::Look,
            (phase, _) => phase,
        };
        AwaitAnswer { cq: self.cq, arrived, phase }
    }
}

/// Posts a transfer, retrying while libfabric says "try again", and waits for
/// its completion. The background thread is paused all the while.
#[derive(Debug, PartialEq, Eq)]
pub struct PostAndPollCq {
    pub post: PostCall,
    pub cq: usize,
    /// Time for posting, and again for the completion.
    pub timeout_ns: u128,
    pub phase: PostPhase,
}

/// What a posting waits for.
#[derive(Debug, PartialEq, Eq)]
pub enum PostPhase {
    /// The background thread to be paused.
    Pause,
    /// The transfer to be accepted.
    Post { deadline: u128 },
    /// The queue to make progress, before the next try.
    Drive { deadline: u128 },
    /// Other work, before the next try.
    Yield { deadline: u128 },
    /// The completion.
    Poll(PollCq),
    /// The background thread to be let go again.
    Resume(Result<(), OfiError>),
    /// Nothing.
    Done(Result<(), OfiError>),
}

impl PostAndPollCq {
    /// A posting that has not begun.
    pub open spec fn starting(post: PostCall, cq: usize, timeout_ns: u128) -> Self {
        PostAndPollCq { post, cq, timeout_ns, phase: PostPhase::Pause }
    }

    /// Prepares to post.
    pub fn start(post: PostCall, cq: usize, timeout_ns: u128) -> (posting: Self)
        requires
            timeout_ns <= MAX_TIMEOUT_NS,
        ensures
            posting == Self::starting(post, cq, timeout_ns),
            posting.wf(),
    {
        PostAndPollCq { post, cq, timeout_ns, phase: PostPhase::Pause }
    }

    /// Returns whether the posting has the background thread paused.
    pub fn is_paused(&self) -> (yes: bool)
        ensures
            yes == (self.paused() == 1),
    {
        match self.phase {
            PostPhase::Pause => false,
            PostPhase::Done(_) => false,
            _ => true,
        }
    }

    /// Returns the effect that the posting waits for.
    pub fn effect(&self) -> (effect: Effect<'_>)
        ensures
            effect == self.pending(),
    {
        match &self.phase {
            PostPhase::Pause => Effect::PauseProgress,
            PostPhase::Post { deadline: _ } => Effect::Call(FabricCall::Post(self.post)),
            PostPhase::Drive { deadline: _ } => Effect::Call(FabricCall::ReadCq { cq: self.cq }),
            PostPhase::Yield { deadline: _ } => Effect::Yield,
            PostPhase::Poll(poll) => poll.effect(),
            PostPhase::Resume(_) => Effect::ResumeProgress,
            PostPhase::Done(_) => Effect::Finished,
        }
    }

    /// Takes the answer that arrived at `now`.
    pub fn resume(self, reply: Reply, now: u64) -> (next: Self)
        requires
            self.wf(),
        ensures
            next == self.after(reply, now),
            next.wf(),
    {
        let phase = match (self.phase, reply) {
            (PostPhase::Pause, _) => PostPhase::Post { deadline: now as u128 + self.timeout_ns },
            (PostPhase::Post { deadline }, Reply::Code(ret)) => {
                if ret == 0 {
                    PostPhase::Poll(PollCq::start(self.cq, self.timeout_ns, false, now))
                } else if ret == -FI_EAGAIN && (now as u128) < deadline {
                    PostPhase::Drive { deadline }
                } else {
                    PostPhase::Resume(Err(OfiError::Post { op: self.post.operation(), ret }))
                }
            },
            (PostPhase::Drive { deadline }, _) => PostPhase::Yield { deadline },
            (PostPhase::Yield { deadline }, _) => PostPhase::Post { deadline },
            (PostPhase::Poll(poll), reply) => {
                let next = poll.resume(reply, now);
                match next.phase {
                    PollPhase::Done(result) => PostPhase::Resume(result),
                    phase => PostPhase::Poll(
                        PollCq {
                            cq: next.cq,
                            deadline: next.deadline,
                            blocking: next.blocking,
                            phase,
                        },
                    ),
                }
            },
            (PostPhase::Resume(result), _) => PostPhase::Done(result),
            (phase, _) => phase,
        };
        PostAndPollCq { post: self.post, cq: self.cq, timeout_ns: self.timeout_ns, phase }
    }
}

impl Machine for PostAndPollCq {
    open spec fn pending(&self) -> Effect<'_> {
        match self.phase {
            PostPhase::Pause => Effect::PauseProgress,
            PostPhase::Post { deadline } => Effect::Call(FabricCall::Post(self.post)),
            PostPhase::Drive { deadline } => Effect::Call(FabricCall::ReadCq { cq: self.cq }),
            PostPhase::Yield { deadline } => Effect::Yield,
            PostPhase::Poll(poll) => poll.pending(),
            PostPhase::Resume(_) => Effect::ResumeProgress,
            PostPhase::Done(_) => Effect::Finished,
        }
    }

    open spec fn after(self, reply: Reply, now: u64) -> Self {
        let phase = match (self.phase, reply) {
            (PostPhase::Pause, _) => {
                PostPhase::Post { deadline: (now + self.timeout_ns) as u128 }
            },
            (PostPhase::Post { deadline }, Reply::Code(ret)) => {
                if ret == 0 {
                    PostPhase::Poll(PollCq::starting(self.cq, self.timeout_ns, false, now))
                } else if ret == -FI_EAGAIN && now < deadline {
                    PostPhase::Drive { deadline }
                } else {
                    PostPhase::Resume(Err(OfiError::Post { op: self.post.op(), ret }))
                }
            },
            (PostPhase::Drive { deadline }, _) => PostPhase::Yield { deadline },
            (PostPhase::Yield { deadline }, _) => PostPhase::Post { deadline },
            (PostPhase::Poll(poll), _) => match poll.after(reply, now).phase {
                PollPhase::Done(result) => PostPhase::Resume(result),
                _ => PostPhase::Poll(poll.after(reply, now)),
            },
            (PostPhase::Resume(result), _) => PostPhase::Done(result),
            (phase, _) => phase,
        };
        PostAndPollCq { phase, ..self }
    }

    open spec fn wf(self) -> bool {
        &&& self.timeout_ns <= MAX_TIMEOUT_NS
        &&& self.phase matches PostPhase::Poll(poll) ==> !(poll.phase is Done)
    }

    open spec fn held(self) -> Multiset<Resource> {
        Multiset::empty()
    }

    open spec fn paused(self) -> int {
        match self.phase {
            PostPhase::Pause => 0,
            PostPhase::Done(_) => 0,
            _ => 1,
        }
    }

    proof fn step(self, reply: Reply, now: u64) {
    }
}

} // verus!
