//! The requests that a manager handles, one at a time.

use crate::completion::{
    millis, AwaitAnswer, AwaitPhase, PollCq, PollPhase, PostAndPollCq, PostPhase, NANOS_PER_MILLI,
};
use crate::effect::{
    answers, gives_back, ledger, object, pauses, reads_completions, Effect, FabricCall, PostCall,
    PostOp, Reply, Resource,
};
use crate::endpoint::{post_result, posted, NamePhase, NameQuery, OfiMr};
use crate::error::{Lookup, OfiError};
use crate::machine::Machine;
use crate::manager_actor::{Manager, OfiManagerActor};
use crate::messages::{OfiManagerLocalMessage, OfiManagerMessage};
use crate::ops::{OfiBuffer, RdmaOpType};
use crate::peers::{ResolvePeer, ResolvePhase};
use crate::primitives::OfiEndpointInfo;
use crate::registration::{RegisterLocal, RegisterPhase};
use vstd::multiset::Multiset;
use vstd::prelude::*;

verus! {

/// A transfer that a manager is asked to run.
#[derive(Debug, PartialEq, Eq)]
pub struct TransferOp {
    pub op_type: RdmaOpType,
    pub local_addr: usize,
    pub local_size: usize,
    /// Actor id of the manager that owns the remote buffer.
    pub remote_mgr: String,
    pub remote_buf: OfiBuffer,
    pub remote_buf_id: usize,
    pub timeout_ms: u64,
}

/// What a transfer waits for. `mr` is the region of its local memory.
#[derive(Debug, PartialEq, Eq)]
pub enum TransferPhase {
    /// The local region.
    Register(RegisterLocal),
    /// The peer's address.
    Resolve { mr: OfiMr, resolution: ResolvePeer },
    /// The background thread to be paused, before a read by messages posts its
    /// receive; `peer` is the peer's address.
    Pause { mr: OfiMr, peer: u64 },
    /// A receive to be posted.
    Recv { mr: OfiMr, peer: u64, call: PostCall },
    /// The peer to post its receive, before a write by messages.
    AskPeer { mr: OfiMr, peer: u64 },
    /// The peer to be told to send, for a read by messages.
    TellPeer { mr: OfiMr },
    /// The peer to have sent.
    Await { mr: OfiMr, wait: AwaitAnswer },
    /// The data to be moved.
    Post { mr: OfiMr, posting: PostAndPollCq },
    /// A receive's completion.
    Poll { mr: OfiMr, poll: PollCq },
    /// The background thread to be let go again.
    Resume { mr: OfiMr, result: Result<(), OfiError> },
    /// The local region to be given back.
    Close { mr: OfiMr, result: Result<(), OfiError> },
}

/// What a request for a buffer waits for.
#[derive(Debug, PartialEq, Eq)]
pub enum RequestPhase {
    /// The memory behind the buffer.
    Memory,
    /// Its region.
    Register(RegisterLocal),
}

/// What a request of a peer to receive or send waits for.
#[derive(Debug, PartialEq, Eq)]
pub enum PeerPhase {
    /// The peer's address.
    Resolve(ResolvePeer),
    /// A receive to be posted.
    Recv(PostCall),
    /// The data to be sent.
    Send(PostAndPollCq),
}

/// What a peer asks for.
#[derive(Debug, PartialEq, Eq, Clone, Copy)]
pub enum PeerRequest {
    /// To post a receive into a buffer.
    PostRecv,
    /// To send a buffer, within this time.
    SendFromBuffer { timeout_ms: u64 },
}

/// What a request came to.
#[derive(Debug, PartialEq, Eq)]
pub enum Outcome {
    /// Of a transfer.
    Executed(Result<(), OfiError>),
    /// Of a request for a buffer.
    Buffer(Result<Option<OfiBuffer>, OfiError>),
    /// Of a release.
    Released,
    /// Of a request for the endpoint's address.
    Endpoint(Result<OfiEndpointInfo, OfiError>),
    /// Of a peer's request: its verdict, or why there is none.
    Answered(Result<Result<(), OfiError>, OfiError>),
    /// Of a request that nobody waits for any more.
    Cancelled,
}

/// A request in progress.
#[derive(Debug, PartialEq, Eq)]
pub enum Job {
    Transfer { op: TransferOp, phase: TransferPhase },
    RequestBuffer { remote_buf_id: usize, phase: RequestPhase },
    /// The region of a released buffer is given back.
    ReleaseBuffer { mr: OfiMr },
    EndpointAddr(NameQuery),
    Peer { buf_id: usize, size: usize, request: PeerRequest, phase: PeerPhase },
    /// A cancelled request cleans up: the background thread is let go if it is
    /// paused, and then the region is given back, unless it is null.
    Cancel { paused: bool, mr: OfiMr },
    Finished(Outcome),
}

/// A manager that handles a request.
pub struct ManagerTask {
    pub manager: OfiManagerActor,
    pub job: Job,
}

/// The state of a [`ManagerTask`].
#[verifier::ext_equal]
pub struct Task {
    pub manager: Manager,
    pub job: Job,
}

impl View for ManagerTask {
    type V = Task;

    open spec fn view(&self) -> Task {
        Task { manager: self.manager@, job: self.job }
    }
}

/// The smaller of two sizes.
pub open spec fn smaller(a: usize, b: usize) -> usize {
    if a <= b {
        a
    } else {
        b
    }
}

fn min_size(a: usize, b: usize) -> (m: usize)
    ensures
        m == smaller(a, b),
{
    if a <= b {
        a
    } else {
        b
    }
}

/// The region of a request that has none.
pub open spec fn no_region() -> OfiMr {
    OfiMr { mr: 0, rkey: 0, local_desc: 0 }
}

/// The timeout of a request, in nanoseconds.
pub open spec fn timeout_ns(timeout_ms: u64) -> u128 {
    (timeout_ms * NANOS_PER_MILLI) as u128
}

// ---------------------------------------------------------------------------
// What a request does, as a function of the manager's state
// ---------------------------------------------------------------------------

/// A message of `len` bytes to a peer.
pub open spec fn send_call(
    manager: Manager,
    addr: u64,
    len: usize,
    mr: OfiMr,
    peer: u64,
) -> PostCall {
    PostCall::Send {
        ep: manager.endpoint.ep,
        buf: addr,
        len,
        desc: mr.local_desc,
        peer,
        context: 0,
    }
}

/// A receive of `len` bytes from a peer.
pub open spec fn recv_call(
    manager: Manager,
    addr: u64,
    len: usize,
    mr: OfiMr,
    peer: u64,
) -> PostCall {
    PostCall::Recv {
        ep: manager.endpoint.ep,
        buf: addr,
        len,
        desc: mr.local_desc,
        peer,
        context: 0,
    }
}

/// The remote memory access that moves a transfer's data.
pub open spec fn rma_call(manager: Manager, op: TransferOp, mr: OfiMr, peer: u64) -> PostCall {
    match op.op_type {
        RdmaOpType::WriteFromLocal => PostCall::Write {
            ep: manager.endpoint.ep,
            buf: op.local_addr as u64,
            len: op.local_size,
            desc: mr.local_desc,
            peer,
            remote_addr: op.remote_buf.addr,
            remote_key: op.remote_buf.rkey,
            context: 0,
        },
        RdmaOpType::ReadIntoLocal => PostCall::Read {
            ep: manager.endpoint.ep,
            buf: op.local_addr as u64,
            len: op.local_size,
            desc: mr.local_desc,
            peer,
            remote_addr: op.remote_buf.addr,
            remote_key: op.remote_buf.rkey,
            context: 0,
        },
    }
}

/// The posting of a call within a transfer.
pub open spec fn post_phase(
    manager: Manager,
    op: TransferOp,
    mr: OfiMr,
    call: PostCall,
) -> TransferPhase {
    TransferPhase::Post {
        mr,
        posting: PostAndPollCq::starting(call, manager.domain.cq, timeout_ns(op.timeout_ms)),
    }
}

/// Whether a transfer is a read by messages, which has the background thread
/// paused from before its receive is posted until it has its result.
pub open spec fn reads_by_message(manager: Manager, op: TransferOp) -> bool {
    !manager.domain.rma_supported && op.op_type is ReadIntoLocal
}

/// A transfer that failed: its region is given back.
pub open spec fn fail_phase(mr: OfiMr, error: OfiError) -> TransferPhase {
    TransferPhase::Close { mr, result: Err(error) }
}

/// How a transfer goes on once the peer's address is known.
///
/// With remote memory access one call does it. Without it the receiver posts
/// first: for a write that is the peer, or this manager itself if the buffer
/// is its own; for a read it is this manager, into the local memory.
pub open spec fn begin_phase(
    manager: Manager,
    op: TransferOp,
    mr: OfiMr,
    peer: u64,
) -> TransferPhase {
    if manager.domain.rma_supported {
        post_phase(manager, op, mr, rma_call(manager, op, mr, peer))
    } else {
        match op.op_type {
            RdmaOpType::WriteFromLocal => if manager.is_self(op.remote_mgr@) {
                match manager.lookup(op.remote_buf_id) {
                    Some((dst_mr, dst)) => TransferPhase::Recv {
                        mr,
                        peer,
                        call: recv_call(manager, dst.addr, op.local_size, dst_mr, peer),
                    },
                    None => fail_phase(
                        mr,
                        OfiError::NotRegistered {
                            lookup: Lookup::LoopbackWrite,
                            buf_id: op.remote_buf_id,
                        },
                    ),
                }
            } else {
                TransferPhase::AskPeer { mr, peer }
            },
            RdmaOpType::ReadIntoLocal => TransferPhase::Pause { mr, peer },
        }
    }
}

/// How a transfer by messages goes on once its receive is posted at `now`. The
/// thread is paused already for the send of a read.
pub open spec fn recv_posted_phase(
    manager: Manager,
    op: TransferOp,
    mr: OfiMr,
    peer: u64,
    now: u64,
) -> TransferPhase {
    match op.op_type {
        RdmaOpType::WriteFromLocal => post_phase(
            manager,
            op,
            mr,
            send_call(manager, op.local_addr as u64, op.local_size, mr, peer),
        ),
        RdmaOpType::ReadIntoLocal => if manager.is_self(op.remote_mgr@) {
            match manager.lookup(op.remote_buf_id) {
                Some((src_mr, src)) => TransferPhase::Post {
                    mr,
                    posting: PostAndPollCq::starting(
                        send_call(manager, src.addr, op.local_size, src_mr, peer),
                        manager.domain.cq,
                        timeout_ns(op.timeout_ms),
                    ).after(Reply::Done, now),
                },
                None => TransferPhase::Resume {
                    mr,
                    result: Err(
                        OfiError::NotRegistered {
                            lookup: Lookup::LoopbackRead,
                            buf_id: op.remote_buf_id,
                        },
                    ),
                },
            }
        } else {
            TransferPhase::TellPeer { mr }
        },
    }
}

/// The wait of a read by messages for the completion of its receive.
pub open spec fn poll_phase(
    manager: Manager,
    op: TransferOp,
    mr: OfiMr,
    now: u64,
) -> TransferPhase {
    TransferPhase::Poll {
        mr,
        poll: PollCq::starting(manager.domain.cq, timeout_ns(op.timeout_ms), false, now),
    }
}

/// How a transfer goes on with its posting. A read by messages ends it while
/// the thread is still paused, and waits for the completion of its receive.
pub open spec fn posting_phase(
    manager: Manager,
    op: TransferOp,
    mr: OfiMr,
    posting: PostAndPollCq,
    now: u64,
) -> TransferPhase {
    match posting.phase {
        PostPhase::Done(result) => TransferPhase::Close { mr, result },
        PostPhase::Resume(result) => if reads_by_message(manager, op) {
            match result {
                Ok(_) => poll_phase(manager, op, mr, now),
                Err(error) => TransferPhase::Resume { mr, result: Err(error) },
            }
        } else {
            TransferPhase::Post { mr, posting }
        },
        _ => TransferPhase::Post { mr, posting },
    }
}

/// How a read by messages goes on with its wait for the peer: a completion that
/// came in the meantime is the one that it would wait for.
pub open spec fn await_phase(
    manager: Manager,
    op: TransferOp,
    mr: OfiMr,
    wait: AwaitAnswer,
    now: u64,
) -> TransferPhase {
    match wait.phase {
        AwaitPhase::Answered(Ok(_)) => match wait.arrived {
            Some(result) => TransferPhase::Resume { mr, result },
            None => poll_phase(manager, op, mr, now),
        },
        AwaitPhase::Answered(Err(text)) => TransferPhase::Resume {
            mr,
            result: Err(OfiError::Peer(text)),
        },
        _ => TransferPhase::Await { mr, wait },
    }
}

/// The message that has the peer do its part of a transfer.
pub open spec fn peer_message(manager: Manager, op: TransferOp) -> OfiManagerMessage {
    match op.op_type {
        RdmaOpType::WriteFromLocal => OfiManagerMessage::PostRecv {
            buf_id: op.remote_buf_id,
            size: op.local_size,
            sender: manager.id,
            timeout_ms: op.timeout_ms,
        },
        RdmaOpType::ReadIntoLocal => OfiManagerMessage::SendFromBuffer {
            buf_id: op.remote_buf_id,
            size: op.local_size,
            dest: manager.id,
            timeout_ms: op.timeout_ms,
        },
    }
}

impl Manager {
    /// The resolution of a peer by this manager.
    pub open spec fn resolution(self, peer: String) -> ResolvePeer {
        ResolvePeer::starting(
            peer,
            self.domain,
            self.endpoint,
            self.known(peer@),
            self.is_self(peer@),
        )
    }

    /// The manager with a task.
    pub open spec fn with(self, job: Job) -> Task {
        Task { manager: self, job }
    }

    /// A transfer at a given point.
    pub open spec fn transfer(self, op: TransferOp, phase: TransferPhase) -> Task {
        self.with(Job::Transfer { op, phase })
    }

    /// A transfer whose resolution came to `result`.
    pub open spec fn transfer_resolved(
        self,
        op: TransferOp,
        mr: OfiMr,
        result: Result<u64, OfiError>,
    ) -> Task {
        match result {
            Ok(peer) => {
                let learned = self.learn(op.remote_mgr@, peer);
                learned.transfer(op, begin_phase(learned, op, mr, peer))
            },
            Err(error) => self.transfer(op, fail_phase(mr, error)),
        }
    }

    /// A transfer whose resolution is at the given point.
    pub open spec fn transfer_resolving(
        self,
        op: TransferOp,
        mr: OfiMr,
        resolution: ResolvePeer,
    ) -> Task {
        match resolution.phase {
            ResolvePhase::Done(result) => self.transfer_resolved(op, mr, result),
            _ => self.transfer(op, TransferPhase::Resolve { mr, resolution }),
        }
    }

    /// A peer's request at a given point.
    pub open spec fn peer(
        self,
        buf_id: usize,
        size: usize,
        request: PeerRequest,
        phase: PeerPhase,
    ) -> Task {
        self.with(Job::Peer { buf_id, size, request, phase })
    }

    /// A peer's request once the peer's address is known: no more is moved
    /// than the buffer holds.
    pub open spec fn peer_begin(
        self,
        buf_id: usize,
        size: usize,
        request: PeerRequest,
        peer: u64,
    ) -> Task {
        match self.lookup(buf_id) {
            Some((mr, buf)) => self.peer(
                buf_id,
                size,
                request,
                match request {
                    PeerRequest::PostRecv => PeerPhase::Recv(
                        recv_call(self, buf.addr, smaller(size, buf.size), mr, peer),
                    ),
                    PeerRequest::SendFromBuffer { timeout_ms } => PeerPhase::Send(
                        PostAndPollCq::starting(
                            send_call(self, buf.addr, smaller(size, buf.size), mr, peer),
                            self.domain.cq,
                            timeout_ns(timeout_ms),
                        ),
                    ),
                },
            ),
            None => self.with(
                Job::Finished(
                    Outcome::Answered(
                        Err(
                            OfiError::NotRegistered {
                                lookup: match request {
                                    PeerRequest::PostRecv => Lookup::PostRecv,
                                    PeerRequest::SendFromBuffer { timeout_ms } => {
                                        Lookup::SendFromBuffer
                                    },
                                },
                                buf_id,
                            },
                        ),
                    ),
                ),
            ),
        }
    }

    /// A peer's request whose resolution is at the given point.
    pub open spec fn peer_resolving(
        self,
        buf_id: usize,
        size: usize,
        request: PeerRequest,
        resolution: ResolvePeer,
    ) -> Task {
        match resolution.phase {
            ResolvePhase::Done(Ok(peer)) => self.learn(resolution.peer@, peer).peer_begin(
                buf_id,
                size,
                request,
                peer,
            ),
            ResolvePhase::Done(Err(error)) => self.with(
                Job::Finished(Outcome::Answered(Err(error))),
            ),
            _ => self.peer(buf_id, size, request, PeerPhase::Resolve(resolution)),
        }
    }

    /// A cancelled request with what is left for it to do.
    pub open spec fn cleaning(self, paused: bool, mr: OfiMr) -> Task {
        self.with(
            if paused || mr.mr != 0 {
                Job::Cancel { paused, mr }
            } else {
                Job::Finished(Outcome::Cancelled)
            },
        )
    }

    /// The start of a transfer: its local memory is registered under the next key.
    pub open spec fn start_transfer(self, op: TransferOp) -> Task {
        self.use_key().transfer(
            op,
            TransferPhase::Register(
                RegisterLocal::starting(
                    self.domain,
                    self.endpoint,
                    op.local_addr,
                    op.local_size,
                    self.next_mr_key,
                ),
            ),
        )
    }

    /// The start of a request for a buffer: one that is registered is at hand.
    pub open spec fn start_request(self, remote_buf_id: usize) -> Task {
        match self.lookup(remote_buf_id) {
            Some((mr, buf)) => self.with(Job::Finished(Outcome::Buffer(Ok(Some(buf))))),
            None => self.with(Job::RequestBuffer { remote_buf_id, phase: RequestPhase::Memory }),
        }
    }

    /// The start of a release.
    pub open spec fn start_release(self, remote_buf_id: usize) -> Task {
        self.unregister(remote_buf_id).with(
            match self.lookup(remote_buf_id) {
                Some((mr, buf)) => Job::ReleaseBuffer { mr },
                None => Job::Finished(Outcome::Released),
            },
        )
    }

    /// The start of a request for the endpoint's address.
    pub open spec fn start_endpoint_addr(self) -> Task {
        self.with(Job::EndpointAddr(NameQuery::starting(self.endpoint.ep)))
    }

    /// The start of a peer's request: the peer is resolved first.
    pub open spec fn start_peer(
        self,
        buf_id: usize,
        size: usize,
        request: PeerRequest,
        peer: String,
    ) -> Task {
        self.peer_resolving(buf_id, size, request, self.resolution(peer))
    }
}

impl Task {
    /// A transfer after a reply.
    pub open spec fn after_transfer(
        self,
        op: TransferOp,
        phase: TransferPhase,
        reply: Reply,
        now: u64,
    ) -> Task {
        let manager = self.manager;
        match (phase, reply) {
            (TransferPhase::Register(registration), _) => {
                match registration.after(reply, now).phase {
                    RegisterPhase::Done(Ok(mr)) => manager.transfer_resolving(
                        op,
                        mr,
                        manager.resolution(op.remote_mgr),
                    ),
                    RegisterPhase::Done(Err(error)) => manager.with(
                        Job::Finished(Outcome::Executed(Err(error))),
                    ),
                    _ => manager.transfer(
                        op,
                        TransferPhase::Register(registration.after(reply, now)),
                    ),
                }
            },
            (TransferPhase::Resolve { mr, resolution }, _) => manager.transfer_resolving(
                op,
                mr,
                resolution.after(reply, now),
            ),
            (TransferPhase::Pause { mr, peer }, _) => manager.transfer(
                op,
                TransferPhase::Recv {
                    mr,
                    peer,
                    call: recv_call(manager, op.local_addr as u64, op.local_size, mr, peer),
                },
            ),
            (TransferPhase::Recv { mr, peer, call }, Reply::Code(ret)) => manager.transfer(
                op,
                match post_result(PostOp::Recv, ret) {
                    Ok(_) => recv_posted_phase(manager, op, mr, peer, now),
                    Err(error) => if reads_by_message(manager, op) {
                        TransferPhase::Resume { mr, result: Err(error) }
                    } else {
                        fail_phase(mr, error)
                    },
                },
            ),
            (TransferPhase::AskPeer { mr, peer }, Reply::Answer(answer)) => manager.transfer(
                op,
                match answer {
                    Ok(Ok(_)) => post_phase(
                        manager,
                        op,
                        mr,
                        send_call(manager, op.local_addr as u64, op.local_size, mr, peer),
                    ),
                    Ok(Err(text)) => fail_phase(mr, OfiError::Peer(text)),
                    Err(text) => fail_phase(mr, OfiError::Peer(text)),
                },
            ),
            (TransferPhase::TellPeer { mr }, _) => manager.transfer(
                op,
                TransferPhase::Await { mr, wait: AwaitAnswer::starting(manager.domain.cq) },
            ),
            (TransferPhase::Await { mr, wait }, _) => manager.transfer(
                op,
                await_phase(manager, op, mr, wait.after(reply), now),
            ),
            (TransferPhase::Post { mr, posting }, _) => manager.transfer(
                op,
                posting_phase(manager, op, mr, posting.after(reply, now), now),
            ),
            (TransferPhase::Poll { mr, poll }, _) => manager.transfer(
                op,
                match poll.after(reply, now).phase {
                    PollPhase::Done(result) => TransferPhase::Resume { mr, result },
                    _ => TransferPhase::Poll { mr, poll: poll.after(reply, now) },
                },
            ),
            (TransferPhase::Resume { mr, result }, _) => manager.transfer(
                op,
                TransferPhase::Close { mr, result },
            ),
            (TransferPhase::Close { mr, result }, _) => manager.with(
                Job::Finished(Outcome::Executed(result)),
            ),
            (phase, _) => manager.transfer(op, phase),
        }
    }

    /// A request for a buffer after a reply: the memory is registered under the
    /// next key, and the buffer is kept.
    pub open spec fn after_request(
        self,
        remote_buf_id: usize,
        phase: RequestPhase,
        reply: Reply,
        now: u64,
    ) -> Task {
        let manager = self.manager;
        match (phase, reply) {
            (RequestPhase::Memory, Reply::Memory(answer)) => match answer {
                Ok(Some(memory)) => manager.use_key().with(
                    Job::RequestBuffer {
                        remote_buf_id,
                        phase: RequestPhase::Register(
                            RegisterLocal::starting(
                                manager.domain,
                                manager.endpoint,
                                memory.addr,
                                memory.size,
                                manager.next_mr_key,
                            ),
                        ),
                    },
                ),
                Ok(None) => manager.with(Job::Finished(Outcome::Buffer(Ok(None)))),
                Err(text) => manager.with(
                    Job::Finished(Outcome::Buffer(Err(OfiError::Peer(text)))),
                ),
            },
            (RequestPhase::Register(registration), _) => {
                match registration.after(reply, now).phase {
                    RegisterPhase::Done(Ok(mr)) => {
                        let buf = OfiBuffer {
                            rkey: mr.rkey,
                            addr: registration.addr as u64,
                            size: registration.size,
                        };
                        manager.register(remote_buf_id, mr, buf).with(
                            Job::Finished(Outcome::Buffer(Ok(Some(buf)))),
                        )
                    },
                    RegisterPhase::Done(Err(error)) => manager.with(
                        Job::Finished(Outcome::Buffer(Err(error))),
                    ),
                    _ => manager.with(
                        Job::RequestBuffer {
                            remote_buf_id,
                            phase: RequestPhase::Register(registration.after(reply, now)),
                        },
                    ),
                }
            },
            (phase, _) => manager.with(Job::RequestBuffer { remote_buf_id, phase }),
        }
    }

    /// A peer's request after a reply.
    pub open spec fn after_peer(
        self,
        buf_id: usize,
        size: usize,
        request: PeerRequest,
        phase: PeerPhase,
        reply: Reply,
        now: u64,
    ) -> Task {
        let manager = self.manager;
        match (phase, reply) {
            (PeerPhase::Resolve(resolution), _) => manager.peer_resolving(
                buf_id,
                size,
                request,
                resolution.after(reply, now),
            ),
            (PeerPhase::Recv(call), Reply::Code(ret)) => manager.with(
                Job::Finished(Outcome::Answered(Ok(post_result(PostOp::Recv, ret)))),
            ),
            (PeerPhase::Send(posting), _) => match posting.after(reply, now).phase {
                PostPhase::Done(result) => manager.with(
                    Job::Finished(Outcome::Answered(Ok(result))),
                ),
                _ => manager.peer(
                    buf_id,
                    size,
                    request,
                    PeerPhase::Send(posting.after(reply, now)),
                ),
            },
            (phase, _) => manager.peer(buf_id, size, request, phase),
        }
    }

    /// The region that the request itself has, null for none.
    pub open spec fn region(self) -> OfiMr {
        match self.job {
            Job::Transfer { op, phase } => match phase {
                TransferPhase::Register(registration) => no_region(),
                TransferPhase::Resolve { mr, resolution } => mr,
                TransferPhase::Recv { mr, peer, call } => mr,
                TransferPhase::Pause { mr, peer } => mr,
                TransferPhase::AskPeer { mr, peer } => mr,
                TransferPhase::TellPeer { mr } => mr,
                TransferPhase::Await { mr, wait } => mr,
                TransferPhase::Post { mr, posting } => mr,
                TransferPhase::Poll { mr, poll } => mr,
                TransferPhase::Resume { mr, result } => mr,
                TransferPhase::Close { mr, result } => mr,
            },
            Job::ReleaseBuffer { mr } => mr,
            Job::Cancel { paused, mr } => mr,
            _ => no_region(),
        }
    }

    /// The request once it is cancelled: what it has is given back, and one
    /// that has come to an end stays as it is.
    pub open spec fn cancelled(self) -> Task {
        match self.job {
            Job::Finished(_) => self,
            _ => self.manager.cleaning(self.paused() > 0, self.region()),
        }
    }

    /// What the request came to, once it has come to an end.
    pub open spec fn outcome(self) -> Option<Outcome> {
        match self.job {
            Job::Finished(outcome) => Some(outcome),
            _ => None,
        }
    }
}

impl TransferPhase {
    /// The resources of the transfer itself.
    pub open spec fn held(self) -> Multiset<Resource> {
        match self {
            TransferPhase::Register(registration) => registration.held(),
            TransferPhase::Resolve { mr, resolution } => object(mr.mr),
            TransferPhase::Recv { mr, peer, call } => object(mr.mr),
            TransferPhase::Pause { mr, peer } => object(mr.mr),
            TransferPhase::AskPeer { mr, peer } => object(mr.mr),
            TransferPhase::TellPeer { mr } => object(mr.mr),
            TransferPhase::Await { mr, wait } => object(mr.mr),
            TransferPhase::Post { mr, posting } => object(mr.mr),
            TransferPhase::Poll { mr, poll } => object(mr.mr),
            TransferPhase::Resume { mr, result } => object(mr.mr),
            TransferPhase::Close { mr, result } => object(mr.mr),
        }
    }

    /// How often the transfer has the background thread paused.
    pub open spec fn paused(self, op: TransferOp) -> int {
        match self {
            TransferPhase::Recv { mr, peer, call } => if op.op_type is ReadIntoLocal {
                1
            } else {
                0
            },
            TransferPhase::TellPeer { mr } => 1,
            TransferPhase::Await { mr, wait } => 1,
            TransferPhase::Post { mr, posting } => posting.paused(),
            TransferPhase::Poll { mr, poll } => 1,
            TransferPhase::Resume { mr, result } => 1,
            _ => 0,
        }
    }

    /// Whether a transfer of the manager can be at this point.
    pub open spec fn wf(self, manager: Manager, op: TransferOp) -> bool {
        match self {
            TransferPhase::Register(registration) => {
                &&& registration.wf()
                &&& !(registration.phase is Done)
                &&& registration.domain == manager.domain
                &&& registration.key == manager.next_mr_key - 1
            },
            TransferPhase::Resolve { mr, resolution } => {
                &&& mr.mr != 0
                &&& resolution_wf(manager, resolution)
                &&& resolution.peer == op.remote_mgr
            },
            TransferPhase::Recv { mr, peer, call } => {
                &&& mr.mr != 0
                &&& manager.known(op.remote_mgr@) == Some(peer)
                &&& recv_fits(manager, op, mr, call)
            },
            TransferPhase::AskPeer { mr, peer } => {
                &&& mr.mr != 0
                &&& manager.known(op.remote_mgr@) == Some(peer)
                &&& !manager.domain.rma_supported
                &&& op.op_type is WriteFromLocal
                &&& !manager.is_self(op.remote_mgr@)
            },
            TransferPhase::Pause { mr, peer } => {
                &&& mr.mr != 0
                &&& manager.known(op.remote_mgr@) == Some(peer)
                &&& reads_by_message(manager, op)
            },
            TransferPhase::TellPeer { mr } => {
                &&& mr.mr != 0
                &&& reads_by_message(manager, op)
                &&& !manager.is_self(op.remote_mgr@)
            },
            TransferPhase::Await { mr, wait } => {
                &&& mr.mr != 0
                &&& reads_by_message(manager, op)
                &&& !manager.is_self(op.remote_mgr@)
                &&& !(wait.phase is Answered)
            },
            TransferPhase::Post { mr, posting } => {
                &&& mr.mr != 0
                &&& posting.wf()
                &&& !(posting.phase is Done)
                &&& reads_by_message(manager, op) ==> !(posting.phase is Pause)
                    && !(posting.phase is Resume)
                &&& post_fits(manager, op, mr, posting.post)
            },
            TransferPhase::Poll { mr, poll } => {
                &&& mr.mr != 0
                &&& !(poll.phase is Done)
                &&& reads_by_message(manager, op)
            },
            TransferPhase::Resume { mr, result } => mr.mr != 0 && reads_by_message(manager, op),
            TransferPhase::Close { mr, result } => mr.mr != 0,
        }
    }
}

/// Whether `call` posts the receive of a transfer by messages: for a write,
/// into the destination of a manager that writes to itself; for a read, into
/// the local memory.
pub open spec fn recv_fits(manager: Manager, op: TransferOp, mr: OfiMr, call: PostCall) -> bool {
    &&& !manager.domain.rma_supported
    &&& manager.known(op.remote_mgr@) matches Some(peer)
    &&& match op.op_type {
        RdmaOpType::WriteFromLocal => {
            &&& manager.is_self(op.remote_mgr@)
            &&& manager.lookup(op.remote_buf_id) matches Some((dst_mr, dst))
            &&& call == recv_call(manager, dst.addr, op.local_size, dst_mr, peer)
        },
        RdmaOpType::ReadIntoLocal => call == recv_call(
            manager,
            op.local_addr as u64,
            op.local_size,
            mr,
            peer,
        ),
    }
}

/// Whether `call` moves the data of a transfer: all of the local memory to or
/// from the start of the remote buffer by remote memory access where that is
/// supported, and else by a message from the local memory of a write, or from
/// the source of a manager that reads from itself.
pub open spec fn post_fits(manager: Manager, op: TransferOp, mr: OfiMr, call: PostCall) -> bool {
    &&& manager.known(op.remote_mgr@) matches Some(peer)
    &&& if manager.domain.rma_supported {
        call == rma_call(manager, op, mr, peer)
    } else {
        match op.op_type {
            RdmaOpType::WriteFromLocal => call == send_call(
                manager,
                op.local_addr as u64,
                op.local_size,
                mr,
                peer,
            ),
            RdmaOpType::ReadIntoLocal => {
                &&& manager.is_self(op.remote_mgr@)
                &&& manager.lookup(op.remote_buf_id) matches Some((src_mr, src))
                &&& call == send_call(manager, src.addr, op.local_size, src_mr, peer)
            },
        }
    }
}

/// Whether `call` does what a peer asked for: with the whole buffer, or as
/// much of it as was asked for.
pub open spec fn peer_fits(
    manager: Manager,
    buf_id: usize,
    size: usize,
    request: PeerRequest,
    call: PostCall,
) -> bool {
    &&& manager.lookup(buf_id) matches Some((mr, buf))
    &&& match call {
        PostCall::Recv { ep, buf: addr, len, desc, peer, context } => {
            &&& request is PostRecv
            &&& call == recv_call(manager, buf.addr, smaller(size, buf.size), mr, peer)
        },
        PostCall::Send { ep, buf: addr, len, desc, peer, context } => {
            &&& request is SendFromBuffer
            &&& call == send_call(manager, buf.addr, smaller(size, buf.size), mr, peer)
        },
        _ => false,
    }
}

/// Whether a resolution of the manager can be at this point: the peer is not
/// known yet, and it is asked only if it is another one.
pub open spec fn resolution_wf(manager: Manager, resolution: ResolvePeer) -> bool {
    &&& resolution.wf()
    &&& !(resolution.phase is Done)
    &&& manager.known(resolution.peer@) is None
    &&& resolution.phase is Exchange ==> !manager.is_self(resolution.peer@)
}

/// Whether a request of the manager can be at this point.
pub open spec fn job_wf(manager: Manager, job: Job) -> bool {
    match job {
        Job::Transfer { op, phase } => phase.wf(manager, op),
        Job::RequestBuffer { remote_buf_id, phase } => {
            &&& !manager.buffers.contains_key(remote_buf_id)
            &&& manager.owner is Some
            &&& match phase {
                RequestPhase::Memory => manager.next_mr_key < u64::MAX,
                RequestPhase::Register(registration) => {
                    &&& registration.wf()
                    &&& !(registration.phase is Done)
                    &&& registration.domain == manager.domain
                    &&& registration.key == manager.next_mr_key - 1
                },
            }
        },
        Job::ReleaseBuffer { mr } => mr.mr != 0,
        Job::Cancel { paused, mr } => paused || mr.mr != 0,
        Job::EndpointAddr(query) => !(query.phase is Done),
        Job::Peer { buf_id, size, request, phase } => match phase {
            PeerPhase::Resolve(resolution) => resolution_wf(manager, resolution),
            PeerPhase::Recv(call) => {
                call is Recv && peer_fits(manager, buf_id, size, request, call)
            },
            PeerPhase::Send(posting) => {
                &&& posting.wf()
                &&& !(posting.phase is Done)
                &&& posting.post is Send
                &&& peer_fits(manager, buf_id, size, request, posting.post)
            },
        },
        Job::Finished(_) => true,
    }
}

impl Machine for Task {
    open spec fn pending(&self) -> Effect<'_> {
        match &self.job {
            Job::Transfer { op, phase } => match phase {
                TransferPhase::Register(registration) => registration.pending(),
                TransferPhase::Resolve { mr, resolution } => resolution.pending(),
                TransferPhase::Recv { mr, peer, call } => Effect::Call(FabricCall::Post(*call)),
                TransferPhase::Pause { mr, peer } => Effect::PauseProgress,
                TransferPhase::AskPeer { mr, peer } => Effect::Ask {
                    peer: &op.remote_mgr,
                    message: peer_message(self.manager, *op),
                },
                TransferPhase::TellPeer { mr } => Effect::Tell {
                    peer: &op.remote_mgr,
                    message: peer_message(self.manager, *op),
                },
                TransferPhase::Await { mr, wait } => wait.pending(),
                TransferPhase::Post { mr, posting } => posting.pending(),
                TransferPhase::Poll { mr, poll } => poll.pending(),
                TransferPhase::Resume { mr, result } => Effect::ResumeProgress,
                TransferPhase::Close { mr, result } => Effect::Call(
                    FabricCall::Close { fid: mr.mr },
                ),
            },
            Job::RequestBuffer { remote_buf_id, phase } => match phase {
                RequestPhase::Memory => match &self.manager.owner {
                    Some(owner) => Effect::RequestLocalMemory {
                        owner,
                        remote_buf_id: *remote_buf_id,
                    },
                    None => Effect::Finished,
                },
                RequestPhase::Register(registration) => registration.pending(),
            },
            Job::ReleaseBuffer { mr } => Effect::Call(FabricCall::Close { fid: mr.mr }),
            Job::Cancel { paused, mr } => if *paused {
                Effect::ResumeProgress
            } else {
                Effect::Call(FabricCall::Close { fid: mr.mr })
            },
            Job::EndpointAddr(query) => query.pending(),
            Job::Peer { buf_id, size, request, phase } => match phase {
                PeerPhase::Resolve(resolution) => resolution.pending(),
                PeerPhase::Recv(call) => Effect::Call(FabricCall::Post(*call)),
                PeerPhase::Send(posting) => posting.pending(),
            },
            Job::Finished(_) => Effect::Finished,
        }
    }

    open spec fn after(self, reply: Reply, now: u64) -> Self {
        match self.job {
            Job::Transfer { op, phase } => self.after_transfer(op, phase, reply, now),
            Job::RequestBuffer { remote_buf_id, phase } => self.after_request(
                remote_buf_id,
                phase,
                reply,
                now,
            ),
            Job::ReleaseBuffer { mr } => self.manager.with(Job::Finished(Outcome::Released)),
            Job::Cancel { paused, mr } => self.manager.cleaning(
                false,
                if paused {
                    mr
                } else {
                    no_region()
                },
            ),
            Job::EndpointAddr(query) => self.manager.with(
                match query.after(reply, now).phase {
                    NamePhase::Done(result) => Job::Finished(Outcome::Endpoint(result)),
                    _ => Job::EndpointAddr(query.after(reply, now)),
                },
            ),
            Job::Peer { buf_id, size, request, phase } => self.after_peer(
                buf_id,
                size,
                request,
                phase,
                reply,
                now,
            ),
            Job::Finished(outcome) => self,
        }
    }

    open spec fn wf(self) -> bool {
        self.manager.wf() && job_wf(self.manager, self.job)
    }

    open spec fn held(self) -> Multiset<Resource> {
        self.manager.resources().add(
            match self.job {
                Job::Transfer { op, phase } => phase.held(),
                Job::RequestBuffer { remote_buf_id, phase } => match phase {
                    RequestPhase::Memory => Multiset::empty(),
                    RequestPhase::Register(registration) => registration.held(),
                },
                Job::ReleaseBuffer { mr } => object(mr.mr),
                Job::Cancel { paused, mr } => object(mr.mr),
                _ => Multiset::empty(),
            },
        )
    }

    open spec fn paused(self) -> int {
        match self.job {
            Job::Transfer { op, phase } => phase.paused(op),
            Job::Peer { buf_id, size, request, phase } => match phase {
                PeerPhase::Send(posting) => posting.paused(),
                _ => 0,
            },
            Job::Cancel { paused, mr } => if paused {
                1
            } else {
                0
            },
            _ => 0,
        }
    }

    proof fn step(self, reply: Reply, now: u64) {
        match self.job {
            Job::Transfer { op, phase } => {
                self.lemma_transfer(op, phase, reply, now);
            },
            Job::RequestBuffer { remote_buf_id, phase } => {
                self.lemma_request(remote_buf_id, phase, reply, now);
            },
            Job::Peer { buf_id, size, request, phase } => {
                self.lemma_peer(buf_id, size, request, phase, reply, now);
            },
            Job::EndpointAddr(query) => {
                query.step(reply, now);
            },
            _ => {
                broadcast use vstd::multiset::group_multiset_axioms;

                assert(self.after(reply, now).held() =~= ledger(
                    self.held(),
                    self.pending(),
                    reply,
                ));
            },
        }
    }
}

impl Task {
    /// What [`Machine::step`] says of a reply.
    pub open spec fn sound(self, reply: Reply, now: u64) -> bool {
        let next = self.after(reply, now);
        &&& next.wf()
        &&& next.held() == ledger(self.held(), self.pending(), reply)
        &&& next.paused() == pauses(self.paused(), self.pending())
        &&& gives_back(self.pending()) matches Some(resource) ==> self.held().contains(resource)
        &&& reads_completions(self.pending()) ==> self.paused() > 0
    }

    proof fn lemma_resolved(manager: Manager, op: TransferOp, mr: OfiMr, resolution: ResolvePeer)
        requires
            manager.wf(),
            mr.mr != 0,
            resolution.wf(),
            resolution.phase is Exchange ==> !manager.is_self(resolution.peer@),
            !(resolution.phase is Done) ==> manager.known(resolution.peer@) is None,
            resolution.peer == op.remote_mgr,
        ensures
            manager.transfer_resolving(op, mr, resolution).wf(),
            manager.transfer_resolving(op, mr, resolution).manager.resources()
                == manager.resources(),
            manager.transfer_resolving(op, mr, resolution).job matches Job::Transfer { op, phase }
                && phase.held() == object(mr.mr) && phase.paused(op) == 0,
    {
        if let ResolvePhase::Done(Ok(peer)) = resolution.phase {
            manager.lemma_same_resources(
                manager.next_mr_key,
                manager.peers.insert(op.remote_mgr@, peer),
            );
        }
    }

    proof fn lemma_transfer(self, op: TransferOp, phase: TransferPhase, reply: Reply, now: u64)
        requires
            self.wf(),
            self.job == (Job::Transfer { op, phase }),
            answers(self.pending(), reply),
        ensures
            self.sound(reply, now),
    {
        broadcast use vstd::multiset::group_multiset_axioms;

        let manager = self.manager;
        match phase {
            TransferPhase::Register(registration) => {
                registration.step(reply, now);
                if let RegisterPhase::Done(Ok(mr)) = registration.after(reply, now).phase {
                    Self::lemma_resolved(manager, op, mr, manager.resolution(op.remote_mgr));
                }
            },
            TransferPhase::Resolve { mr, resolution } => {
                resolution.step(reply, now);
                Self::lemma_resolved(manager, op, mr, resolution.after(reply, now));
            },
            TransferPhase::Post { mr, posting } => {
                posting.step(reply, now);
            },
            _ => {},
        }
        assert(self.after(reply, now).held() =~= ledger(self.held(), self.pending(), reply));
    }

    proof fn lemma_request(self, remote_buf_id: usize, phase: RequestPhase, reply: Reply, now: u64)
        requires
            self.wf(),
            self.job == (Job::RequestBuffer { remote_buf_id, phase }),
            answers(self.pending(), reply),
        ensures
            self.sound(reply, now),
    {
        broadcast use vstd::multiset::group_multiset_axioms;

        let manager = self.manager;
        match phase {
            RequestPhase::Memory => {
                manager.lemma_same_resources(manager.use_key().next_mr_key, manager.peers);
            },
            RequestPhase::Register(registration) => {
                registration.step(reply, now);
                if let RegisterPhase::Done(Ok(mr)) = registration.after(reply, now).phase {
                    let buf = OfiBuffer {
                        rkey: mr.rkey,
                        addr: registration.addr as u64,
                        size: registration.size,
                    };
                    manager.lemma_register(remote_buf_id, mr, buf);
                }
            },
        }
        assert(self.after(reply, now).held() =~= ledger(self.held(), self.pending(), reply));
    }

    proof fn lemma_peer(
        self,
        buf_id: usize,
        size: usize,
        request: PeerRequest,
        phase: PeerPhase,
        reply: Reply,
        now: u64,
    )
        requires
            self.wf(),
            self.job == (Job::Peer { buf_id, size, request, phase }),
            answers(self.pending(), reply),
        ensures
            self.sound(reply, now),
    {
        broadcast use vstd::multiset::group_multiset_axioms;

        let manager = self.manager;
        match phase {
            PeerPhase::Resolve(resolution) => {
                resolution.step(reply, now);
                if let ResolvePhase::Done(Ok(peer)) = resolution.after(reply, now).phase {
                    manager.lemma_same_resources(
                        manager.next_mr_key,
                        manager.peers.insert(resolution.peer@, peer),
                    );
                }
            },
            PeerPhase::Send(posting) => {
                posting.step(reply, now);
            },
            _ => {},
        }
        assert(self.after(reply, now).held() =~= ledger(self.held(), self.pending(), reply));
    }
}

// ---------------------------------------------------------------------------
// The same, executable
// ---------------------------------------------------------------------------

impl OfiManagerActor {
    fn send_to(&self, addr: u64, len: usize, mr: OfiMr, peer: u64) -> (call: PostCall)
        ensures
            call == send_call(self@, addr, len, mr, peer),
    {
        self.endpoint.send(addr, len, mr.desc(), peer, 0)
    }

    fn recv_from(&self, addr: u64, len: usize, mr: OfiMr, peer: u64) -> (call: PostCall)
        ensures
            call == recv_call(self@, addr, len, mr, peer),
    {
        self.endpoint.recv(addr, len, mr.desc(), peer, 0)
    }

    fn posting(&self, call: PostCall, timeout_ms: u64) -> (posting: PostAndPollCq)
        ensures
            posting == PostAndPollCq::starting(call, self@.domain.cq, timeout_ns(timeout_ms)),
            posting.wf(),
    {
        PostAndPollCq::start(call, self.domain.cq, millis(timeout_ms))
    }

    fn post(&self, op: &TransferOp, mr: OfiMr, call: PostCall) -> (phase: TransferPhase)
        ensures
            phase == post_phase(self@, *op, mr, call),
    {
        TransferPhase::Post { mr, posting: self.posting(call, op.timeout_ms) }
    }

    /// Begins to find the fabric address of a peer.
    pub fn resolve_peer(&self, peer: &String) -> (resolution: ResolvePeer)
        ensures
            resolution == self@.resolution(*peer),
            resolution.wf(),
    {
        ResolvePeer::start(
            peer.clone(),
            &self.domain,
            &self.endpoint,
            self.cached_peer(peer),
            self.is_loopback(peer),
        )
    }

    /// Begins to register local memory under the next key.
    pub fn register_local_mr(&mut self, addr: usize, size: usize) -> (registration: RegisterLocal)
        requires
            old(self).next_mr_key < u64::MAX,
        ensures
            registration == RegisterLocal::starting(
                old(self)@.domain,
                old(self)@.endpoint,
                addr,
                size,
                old(self)@.next_mr_key,
            ),
            final(self)@ == old(self)@.use_key(),
    {
        let key = self.take_key();
        RegisterLocal::start(&self.domain, &self.endpoint, addr, size, key)
    }

    /// How a transfer goes on by remote memory access.
    fn execute_op_rma(&self, op: &TransferOp, mr: OfiMr, peer: u64) -> (phase: TransferPhase)
        requires
            self@.domain.rma_supported,
        ensures
            phase == begin_phase(self@, *op, mr, peer),
    {
        let call = match op.op_type {
            RdmaOpType::WriteFromLocal => self.endpoint.write(
                op.local_addr as u64,
                op.local_size,
                mr.desc(),
                op.remote_buf.addr,
                op.remote_buf.rkey,
                peer,
                0,
            ),
            RdmaOpType::ReadIntoLocal => self.endpoint.read(
                op.local_addr as u64,
                op.local_size,
                mr.desc(),
                op.remote_buf.addr,
                op.remote_buf.rkey,
                peer,
                0,
            ),
        };
        self.post(op, mr, call)
    }

    /// How a transfer goes on by messages.
    fn execute_op_msg(&self, op: &TransferOp, mr: OfiMr, peer: u64) -> (phase: TransferPhase)
        requires
            !self@.domain.rma_supported,
        ensures
            phase == begin_phase(self@, *op, mr, peer),
    {
        match op.op_type {
            RdmaOpType::WriteFromLocal => if self.is_loopback(&op.remote_mgr) {
                match self.registration(op.remote_buf_id) {
                    Some((dst_mr, dst)) => TransferPhase::Recv {
                        mr,
                        peer,
                        call: self.recv_from(dst.addr, op.local_size, dst_mr, peer),
                    },
                    None => TransferPhase::Close {
                        mr,
                        result: Err(
                            OfiError::NotRegistered {
                                lookup: Lookup::LoopbackWrite,
                                buf_id: op.remote_buf_id,
                            },
                        ),
                    },
                }
            } else {
                TransferPhase::AskPeer { mr, peer }
            },
            RdmaOpType::ReadIntoLocal => TransferPhase::Pause { mr, peer },
        }
    }

    fn recv_is_posted(
        &self,
        op: &TransferOp,
        mr: OfiMr,
        peer: u64,
        now: u64,
    ) -> (phase: TransferPhase)
        ensures
            phase == recv_posted_phase(self@, *op, mr, peer, now),
    {
        match op.op_type {
            RdmaOpType::WriteFromLocal => {
                let call = self.send_to(op.local_addr as u64, op.local_size, mr, peer);
                self.post(op, mr, call)
            },
            RdmaOpType::ReadIntoLocal => if self.is_loopback(&op.remote_mgr) {
                match self.registration(op.remote_buf_id) {
                    Some((src_mr, src)) => {
                        let call = self.send_to(src.addr, op.local_size, src_mr, peer);
                        let posting = self.posting(call, op.timeout_ms);
                        TransferPhase::Post { mr, posting: posting.resume(Reply::Done, now) }
                    },
                    None => TransferPhase::Resume {
                        mr,
                        result: Err(
                            OfiError::NotRegistered {
                                lookup: Lookup::LoopbackRead,
                                buf_id: op.remote_buf_id,
                            },
                        ),
                    },
                }
            } else {
                TransferPhase::TellPeer { mr }
            },
        }
    }

    fn is_message_read(&self, op: &TransferOp) -> (yes: bool)
        ensures
            yes == reads_by_message(self@, *op),
    {
        match op.op_type {
            RdmaOpType::WriteFromLocal => false,
            RdmaOpType::ReadIntoLocal => !self.domain.rma_supported,
        }
    }

    fn poll(&self, op: &TransferOp, mr: OfiMr, now: u64) -> (phase: TransferPhase)
        ensures
            phase == poll_phase(self@, *op, mr, now),
    {
        TransferPhase::Poll {
            mr,
            poll: PollCq::start(self.domain.cq, millis(op.timeout_ms), false, now),
        }
    }

    fn posting_goes_on(
        &self,
        op: &TransferOp,
        mr: OfiMr,
        posting: PostAndPollCq,
        now: u64,
    ) -> (phase: TransferPhase)
        ensures
            phase == posting_phase(self@, *op, mr, posting, now),
    {
        let phase = match posting.phase {
            PostPhase::Done(result) => {
                return TransferPhase::Close { mr, result };
            },
            PostPhase::Resume(result) => if self.is_message_read(op) {
                return match result {
                    Ok(_) => self.poll(op, mr, now),
                    Err(error) => TransferPhase::Resume { mr, result: Err(error) },
                };
            } else {
                PostPhase::Resume(result)
            },
            phase => phase,
        };
        TransferPhase::Post {
            mr,
            posting: PostAndPollCq {
                post: posting.post,
                cq: posting.cq,
                timeout_ns: posting.timeout_ns,
                phase,
            },
        }
    }

    fn wait_goes_on(
        &self,
        op: &TransferOp,
        mr: OfiMr,
        wait: AwaitAnswer,
        now: u64,
    ) -> (phase: TransferPhase)
        ensures
            phase == await_phase(self@, *op, mr, wait, now),
    {
        match wait.phase {
            AwaitPhase::Answered(Ok(_)) => match wait.arrived {
                Some(result) => TransferPhase::Resume { mr, result },
                None => self.poll(op, mr, now),
            },
            AwaitPhase::Answered(Err(text)) => TransferPhase::Resume {
                mr,
                result: Err(OfiError::Peer(text)),
            },
            phase => TransferPhase::Await {
                mr,
                wait: AwaitAnswer { cq: wait.cq, arrived: wait.arrived, phase },
            },
        }
    }

    fn transfer_from(self, op: TransferOp, mr: OfiMr, resolution: ResolvePeer) -> (task:
        ManagerTask)
        requires
            resolution.peer == op.remote_mgr,
        ensures
            task@ == self@.transfer_resolving(op, mr, resolution),
    {
        let mut manager = self;
        let phase = match resolution.phase {
            ResolvePhase::Done(Ok(peer)) => {
                manager.learn_peer(&op.remote_mgr, peer);
                if manager.domain.rma_supported {
                    manager.execute_op_rma(&op, mr, peer)
                } else {
                    manager.execute_op_msg(&op, mr, peer)
                }
            },
            ResolvePhase::Done(Err(error)) => TransferPhase::Close { mr, result: Err(error) },
            phase => TransferPhase::Resolve {
                mr,
                resolution: ResolvePeer {
                    peer: resolution.peer,
                    domain: resolution.domain,
                    endpoint: resolution.endpoint,
                    phase,
                },
            },
        };
        ManagerTask { manager, job: Job::Transfer { op, phase } }
    }

    fn peer_from(
        self,
        buf_id: usize,
        size: usize,
        request: PeerRequest,
        resolution: ResolvePeer,
    ) -> (task:
        ManagerTask)
        ensures
            task@ == self@.peer_resolving(buf_id, size, request, resolution),
    {
        let mut manager = self;
        let job = match resolution.phase {
            ResolvePhase::Done(Ok(peer)) => {
                manager.learn_peer(&resolution.peer, peer);
                match manager.registration(buf_id) {
                    Some((mr, buf)) => {
                        let len = min_size(size, buf.size);
                        let phase = match request {
                            PeerRequest::PostRecv => PeerPhase::Recv(
                                manager.recv_from(buf.addr, len, mr, peer),
                            ),
                            PeerRequest::SendFromBuffer { timeout_ms } => {
                                let call = manager.send_to(buf.addr, len, mr, peer);
                                PeerPhase::Send(manager.posting(call, timeout_ms))
                            },
                        };
                        Job::Peer { buf_id, size, request, phase }
                    },
                    None => {
                        let lookup = match request {
                            PeerRequest::PostRecv => Lookup::PostRecv,
                            PeerRequest::SendFromBuffer { timeout_ms: _ } => Lookup::SendFromBuffer,
                        };
                        Job::Finished(
                            Outcome::Answered(Err(OfiError::NotRegistered { lookup, buf_id })),
                        )
                    },
                }
            },
            ResolvePhase::Done(Err(error)) => Job::Finished(Outcome::Answered(Err(error))),
            phase => Job::Peer {
                buf_id,
                size,
                request,
                phase: PeerPhase::Resolve(
                    ResolvePeer {
                        peer: resolution.peer,
                        domain: resolution.domain,
                        endpoint: resolution.endpoint,
                        phase,
                    },
                ),
            },
        };
        ManagerTask { manager, job }
    }

    /// Begins a transfer: register the local memory, resolve the peer, move the
    /// data, give the registration back.
    pub fn execute_op(self, op: TransferOp) -> (task: ManagerTask)
        requires
            self.next_mr_key < u64::MAX,
        ensures
            task@ == self@.start_transfer(op),
            self@.wf() ==> task@.wf() && task@.held() == self@.resources(),
            task@.paused() == 0,
    {
        let mut manager = self;
        let registration = manager.register_local_mr(op.local_addr, op.local_size);
        proof {
            if self@.wf() {
                self@.lemma_same_resources(self@.use_key().next_mr_key, self@.peers);
                lemma_add_nothing(self@.resources());
            }
        }
        ManagerTask {
            manager,
            job: Job::Transfer { op, phase: TransferPhase::Register(registration) },
        }
    }

    /// Begins to register a buffer for remote access, unless it is registered.
    pub fn request_buffer(self, remote_buf_id: usize) -> (task: ManagerTask)
        requires
            self@.lookup(remote_buf_id) is None ==> {
                &&& self.owner is Some
                &&& self.next_mr_key < u64::MAX
            },
        ensures
            task@ == self@.start_request(remote_buf_id),
            self@.wf() ==> task@.wf() && task@.held() == self@.resources(),
            task@.paused() == 0,
    {
        proof {
            lemma_add_nothing(self@.resources());
        }
        match self.registration(remote_buf_id) {
            Some((_, buf)) => ManagerTask {
                manager: self,
                job: Job::Finished(Outcome::Buffer(Ok(Some(buf)))),
            },
            None => ManagerTask {
                manager: self,
                job: Job::RequestBuffer { remote_buf_id, phase: RequestPhase::Memory },
            },
        }
    }

    /// Begins to give a buffer's registration back, if it has one.
    pub fn release_buffer(self, remote_buf_id: usize) -> (task: ManagerTask)
        ensures
            task@ == self@.start_release(remote_buf_id),
            self@.wf() ==> task@.wf() && task@.held() == self@.resources(),
            task@.paused() == 0,
    {
        let mut manager = self;
        let job = match manager.forget_buffer(remote_buf_id) {
            Some(mr) => Job::ReleaseBuffer { mr },
            None => Job::Finished(Outcome::Released),
        };
        proof {
            lemma_add_nothing(self@.resources());
            if self@.buffers.contains_key(remote_buf_id) {
                if self@.wf() {
                    self@.lemma_unregister(remote_buf_id);
                }
            } else {
                assert(self@.unregister(remote_buf_id).buffers =~= self@.buffers);
            }
        }
        ManagerTask { manager, job }
    }

    /// Begins to ask for the endpoint's address.
    pub fn get_endpoint_addr(self) -> (task: ManagerTask)
        ensures
            task@ == self@.start_endpoint_addr(),
            self@.wf() ==> task@.wf() && task@.held() == self@.resources(),
            task@.paused() == 0,
    {
        proof {
            lemma_add_nothing(self@.resources());
        }
        let query = self.endpoint.get_name();
        ManagerTask { manager: self, job: Job::EndpointAddr(query) }
    }

    /// Begins to post a receive into a buffer, for a message of `sender`.
    pub fn post_recv(self, buf_id: usize, size: usize, sender: &String) -> (task: ManagerTask)
        ensures
            task@ == self@.start_peer(buf_id, size, PeerRequest::PostRecv, *sender),
            self@.wf() ==> task@.wf() && task@.held() == self@.resources(),
            task@.paused() == 0,
    {
        proof {
            self@.lemma_start_peer(buf_id, size, PeerRequest::PostRecv, *sender);
        }
        let resolution = self.resolve_peer(sender);
        self.peer_from(buf_id, size, PeerRequest::PostRecv, resolution)
    }

    /// Begins to send a buffer to `dest`.
    pub fn send_from_buffer(
        self,
        buf_id: usize,
        size: usize,
        dest: &String,
        timeout_ms: u64,
    ) -> (task:
        ManagerTask)
        ensures
            task@ == self@.start_peer(
                buf_id,
                size,
                PeerRequest::SendFromBuffer { timeout_ms },
                *dest,
            ),
            self@.wf() ==> task@.wf() && task@.held() == self@.resources(),
            task@.paused() == 0,
    {
        proof {
            self@.lemma_start_peer(
                buf_id,
                size,
                PeerRequest::SendFromBuffer { timeout_ms },
                *dest,
            );
        }
        let resolution = self.resolve_peer(dest);
        self.peer_from(buf_id, size, PeerRequest::SendFromBuffer { timeout_ms }, resolution)
    }
}

impl OfiManagerActor {
    /// Begins to handle a message of a remote actor.
    pub fn handle(self, message: OfiManagerMessage) -> (task: ManagerTask)
        requires
            message matches OfiManagerMessage::RequestBuffer { remote_buf_id } ==> (self@.lookup(
                remote_buf_id,
            ) is None ==> self.owner is Some && self.next_mr_key < u64::MAX),
        ensures
            task@ == match message {
                OfiManagerMessage::RequestBuffer { remote_buf_id } => self@.start_request(
                    remote_buf_id,
                ),
                OfiManagerMessage::ReleaseBuffer { remote_buf_id } => self@.start_release(
                    remote_buf_id,
                ),
                OfiManagerMessage::GetEndpointAddr => self@.start_endpoint_addr(),
                OfiManagerMessage::PostRecv { buf_id, size, sender, timeout_ms } => {
                    self@.start_peer(buf_id, size, PeerRequest::PostRecv, sender)
                },
                OfiManagerMessage::SendFromBuffer { buf_id, size, dest, timeout_ms } => {
                    self@.start_peer(
                        buf_id,
                        size,
                        PeerRequest::SendFromBuffer { timeout_ms },
                        dest,
                    )
                },
            },
            self@.wf() ==> task@.wf() && task@.held() == self@.resources(),
            task@.paused() == 0,
    {
        match message {
            OfiManagerMessage::RequestBuffer { remote_buf_id } => self.request_buffer(
                remote_buf_id,
            ),
            OfiManagerMessage::ReleaseBuffer { remote_buf_id } => self.release_buffer(
                remote_buf_id,
            ),
            OfiManagerMessage::GetEndpointAddr => self.get_endpoint_addr(),
            OfiManagerMessage::PostRecv { buf_id, size, sender, timeout_ms: _ } => self.post_recv(
                buf_id,
                size,
                &sender,
            ),
            OfiManagerMessage::SendFromBuffer { buf_id, size, dest, timeout_ms } => {
                self.send_from_buffer(buf_id, size, &dest, timeout_ms)
            },
        }
    }

    /// Begins to handle a message of an actor of this process.
    pub fn handle_local(self, message: OfiManagerLocalMessage) -> (task: ManagerTask)
        requires
            self.next_mr_key < u64::MAX,
        ensures
            task@ == self@.start_transfer(transfer_op(message)),
            self@.wf() ==> task@.wf() && task@.held() == self@.resources(),
            task@.paused() == 0,
    {
        match message {
            OfiManagerLocalMessage::ExecuteOp {
                op_type,
                local_addr,
                local_size,
                remote_ofi_mgr,
                remote_buffer,
                remote_buf_id,
                timeout_ms,
            } => self.execute_op(
                TransferOp {
                    op_type,
                    local_addr,
                    local_size,
                    remote_mgr: remote_ofi_mgr,
                    remote_buf: remote_buffer,
                    remote_buf_id,
                    timeout_ms,
                },
            ),
        }
    }
}

/// The transfer that a message asks for.
pub open spec fn transfer_op(message: OfiManagerLocalMessage) -> TransferOp {
    match message {
        OfiManagerLocalMessage::ExecuteOp {
            op_type,
            local_addr,
            local_size,
            remote_ofi_mgr,
            remote_buffer,
            remote_buf_id,
            timeout_ms,
        } => TransferOp {
            op_type,
            local_addr,
            local_size,
            remote_mgr: remote_ofi_mgr,
            remote_buf: remote_buffer,
            remote_buf_id,
            timeout_ms,
        },
    }
}

proof fn lemma_add_nothing(held: Multiset<Resource>)
    ensures
        held.add(Multiset::empty()) == held,
{
    broadcast use vstd::multiset::group_multiset_axioms;

    assert(held.add(Multiset::empty()) =~= held);
}

impl Manager {
    pub(crate) proof fn lemma_start_peer(
        self,
        buf_id: usize,
        size: usize,
        request: PeerRequest,
        peer: String,
    )
        ensures
            self.start_peer(buf_id, size, request, peer).paused() == 0,
            self.wf() ==> {
                &&& self.start_peer(buf_id, size, request, peer).wf()
                &&& self.start_peer(buf_id, size, request, peer).held() == self.resources()
            },
    {
        lemma_add_nothing(self.resources());
        if self.wf() {
            if let Some(fi_addr) = self.known(peer@) {
                self.lemma_same_resources(self.next_mr_key, self.peers.insert(peer@, fi_addr));
            }
        }
    }
}

impl ManagerTask {
    fn message_to_peer(&self, op: &TransferOp) -> (message: OfiManagerMessage)
        ensures
            message == peer_message(self@.manager, *op),
    {
        match op.op_type {
            RdmaOpType::WriteFromLocal => OfiManagerMessage::PostRecv {
                buf_id: op.remote_buf_id,
                size: op.local_size,
                sender: self.manager.id.clone(),
                timeout_ms: op.timeout_ms,
            },
            RdmaOpType::ReadIntoLocal => OfiManagerMessage::SendFromBuffer {
                buf_id: op.remote_buf_id,
                size: op.local_size,
                dest: self.manager.id.clone(),
                timeout_ms: op.timeout_ms,
            },
        }
    }

    /// Returns the effect that the request waits for.
    pub fn effect(&self) -> (effect: Effect<'_>)
        ensures
            effect == self@.pending(),
    {
        match &self.job {
            Job::Transfer { op, phase } => match phase {
                TransferPhase::Register(registration) => registration.effect(),
                TransferPhase::Resolve { mr: _, resolution } => resolution.effect(),
                TransferPhase::Recv { mr: _, peer: _, call } => Effect::Call(
                    FabricCall::Post(*call),
                ),
                TransferPhase::Pause { mr: _, peer: _ } => Effect::PauseProgress,
                TransferPhase::AskPeer { mr: _, peer: _ } => Effect::Ask {
                    peer: &op.remote_mgr,
                    message: self.message_to_peer(op),
                },
                TransferPhase::TellPeer { mr: _ } => Effect::Tell {
                    peer: &op.remote_mgr,
                    message: self.message_to_peer(op),
                },
                TransferPhase::Await { mr: _, wait } => wait.effect(),
                TransferPhase::Post { mr: _, posting } => posting.effect(),
                TransferPhase::Poll { mr: _, poll } => poll.effect(),
                TransferPhase::Resume { mr: _, result: _ } => Effect::ResumeProgress,
                TransferPhase::Close { mr, result: _ } => Effect::Call(
                    FabricCall::Close { fid: mr.mr },
                ),
            },
            Job::RequestBuffer { remote_buf_id, phase } => match phase {
                RequestPhase::Memory => match &self.manager.owner {
                    Some(owner) => Effect::RequestLocalMemory {
                        owner,
                        remote_buf_id: *remote_buf_id,
                    },
                    None => Effect::Finished,
                },
                RequestPhase::Register(registration) => registration.effect(),
            },
            Job::ReleaseBuffer { mr } => Effect::Call(FabricCall::Close { fid: mr.mr }),
            Job::Cancel { paused, mr } => if *paused {
                Effect::ResumeProgress
            } else {
                Effect::Call(FabricCall::Close { fid: mr.mr })
            },
            Job::EndpointAddr(query) => query.effect(),
            Job::Peer { buf_id: _, size: _, request: _, phase } => match phase {
                PeerPhase::Resolve(resolution) => resolution.effect(),
                PeerPhase::Recv(call) => Effect::Call(FabricCall::Post(*call)),
                PeerPhase::Send(posting) => posting.effect(),
            },
            Job::Finished(_) => Effect::Finished,
        }
    }

    /// Takes the answer that arrived at `now`.
    pub fn resume(self, reply: Reply, now: u64) -> (next: Self)
        requires
            self@.wf(),
            answers(self@.pending(), reply),
        ensures
            next@ == self@.after(reply, now),
            next@.wf(),
    {
        proof {
            self@.step(reply, now);
        }
        let manager = self.manager;
        match self.job {
            Job::Transfer { op, phase } => Self::resume_transfer(manager, op, phase, reply, now),
            Job::RequestBuffer { remote_buf_id, phase } => Self::resume_request(
                manager,
                remote_buf_id,
                phase,
                reply,
            ),
            Job::ReleaseBuffer { mr: _ } => ManagerTask {
                manager,
                job: Job::Finished(Outcome::Released),
            },
            Job::Cancel { paused, mr } => {
                let mr = if paused {
                    mr
                } else {
                    OfiMr { mr: 0, rkey: 0, local_desc: 0 }
                };
                Self::clean_up(manager, false, mr)
            },
            Job::EndpointAddr(query) => {
                let next = query.resume(reply);
                let job = match next.phase {
                    NamePhase::Done(result) => Job::Finished(Outcome::Endpoint(result)),
                    phase => Job::EndpointAddr(NameQuery { ep: next.ep, phase }),
                };
                ManagerTask { manager, job }
            },
            Job::Peer { buf_id, size, request, phase } => Self::resume_peer(
                manager,
                buf_id,
                size,
                request,
                phase,
                reply,
                now,
            ),
            Job::Finished(outcome) => ManagerTask { manager, job: Job::Finished(outcome) },
        }
    }

    fn clean_up(manager: OfiManagerActor, paused: bool, mr: OfiMr) -> (task: Self)
        ensures
            task@ == manager@.cleaning(paused, mr),
    {
        let job = if paused || mr.mr != 0 {
            Job::Cancel { paused, mr }
        } else {
            Job::Finished(Outcome::Cancelled)
        };
        ManagerTask { manager, job }
    }

    /// Gives the request up, for want of anyone who waits for it: what is left
    /// to do is to let the background thread go and to give back the region
    /// that the request has.
    pub fn cancel(self) -> (next: Self)
        requires
            self@.wf(),
        ensures
            next@ == self@.cancelled(),
            next@.wf(),
            next@.held() == self@.held(),
            next@.paused() == self@.paused(),
    {
        let none = OfiMr { mr: 0, rkey: 0, local_desc: 0 };
        let manager = self.manager;
        let (paused, mr) = match self.job {
            Job::Finished(outcome) => {
                return ManagerTask { manager, job: Job::Finished(outcome) };
            },
            Job::Transfer { op, phase } => match phase {
                TransferPhase::Register(_) => (false, none),
                TransferPhase::Resolve { mr, resolution: _ } => (false, mr),
                TransferPhase::Pause { mr, peer: _ } => (false, mr),
                TransferPhase::Recv { mr, peer: _, call: _ } => (
                    matches!(op.op_type, RdmaOpType::ReadIntoLocal),
                    mr,
                ),
                TransferPhase::AskPeer { mr, peer: _ } => (false, mr),
                TransferPhase::TellPeer { mr } => (true, mr),
                TransferPhase::Await { mr, wait: _ } => (true, mr),
                TransferPhase::Post { mr, posting } => (posting.is_paused(), mr),
                TransferPhase::Poll { mr, poll: _ } => (true, mr),
                TransferPhase::Resume { mr, result: _ } => (true, mr),
                TransferPhase::Close { mr, result: _ } => (false, mr),
            },
            Job::Peer { buf_id: _, size: _, request: _, phase } => match phase {
                PeerPhase::Send(posting) => (posting.is_paused(), none),
                _ => (false, none),
            },
            Job::ReleaseBuffer { mr } => (false, mr),
            Job::Cancel { paused, mr } => (paused, mr),
            Job::RequestBuffer { .. } => (false, none),
            Job::EndpointAddr(_) => (false, none),
        };
        Self::clean_up(manager, paused, mr)
    }

    fn resume_transfer(
        manager: OfiManagerActor,
        op: TransferOp,
        phase: TransferPhase,
        reply: Reply,
        now: u64,
    ) -> (next: Self)
        requires
            manager@.wf(),
            phase.wf(manager@, op),
        ensures
            next@ == manager@.transfer(op, phase).after_transfer(op, phase, reply, now),
    {
        let phase = match (phase, reply) {
            (TransferPhase::Register(registration), reply) => {
                let next = registration.resume(reply);
                match next.phase {
                    RegisterPhase::Done(Ok(mr)) => {
                        let resolution = manager.resolve_peer(&op.remote_mgr);
                        return manager.transfer_from(op, mr, resolution);
                    },
                    RegisterPhase::Done(Err(error)) => {
                        return ManagerTask {
                            manager,
                            job: Job::Finished(Outcome::Executed(Err(error))),
                        };
                    },
                    phase => TransferPhase::Register(
                        RegisterLocal {
                            domain: next.domain,
                            endpoint: next.endpoint,
                            addr: next.addr,
                            size: next.size,
                            key: next.key,
                            phase,
                        },
                    ),
                }
            },
            (TransferPhase::Resolve { mr, resolution }, reply) => {
                return manager.transfer_from(op, mr, resolution.resume(reply));
            },
            (TransferPhase::Pause { mr, peer }, _) => TransferPhase::Recv {
                mr,
                peer,
                call: manager.recv_from(op.local_addr as u64, op.local_size, mr, peer),
            },
            (TransferPhase::Recv { mr, peer, call: _ }, Reply::Code(ret)) => {
                match posted(PostOp::Recv, ret) {
                    Ok(_) => manager.recv_is_posted(&op, mr, peer, now),
                    Err(error) => if manager.is_message_read(&op) {
                        TransferPhase::Resume { mr, result: Err(error) }
                    } else {
                        TransferPhase::Close { mr, result: Err(error) }
                    },
                }
            },
            (TransferPhase::AskPeer { mr, peer }, Reply::Answer(answer)) => match answer {
                Ok(Ok(_)) => {
                    let call = manager.send_to(op.local_addr as u64, op.local_size, mr, peer);
                    manager.post(&op, mr, call)
                },
                Ok(Err(text)) => TransferPhase::Close { mr, result: Err(OfiError::Peer(text)) },
                Err(text) => TransferPhase::Close { mr, result: Err(OfiError::Peer(text)) },
            },
            (TransferPhase::TellPeer { mr }, _) => TransferPhase::Await {
                mr,
                wait: AwaitAnswer::start(manager.domain.cq),
            },
            (TransferPhase::Await { mr, wait }, reply) => {
                manager.wait_goes_on(&op, mr, wait.resume(reply), now)
            },
            (TransferPhase::Post { mr, posting }, reply) => {
                manager.posting_goes_on(&op, mr, posting.resume(reply, now), now)
            },
            (TransferPhase::Poll { mr, poll }, reply) => {
                let next = poll.resume(reply, now);
                match next.phase {
                    PollPhase::Done(result) => TransferPhase::Resume { mr, result },
                    phase => TransferPhase::Poll {
                        mr,
                        poll: PollCq {
                            cq: next.cq,
                            deadline: next.deadline,
                            blocking: next.blocking,
                            phase,
                        },
                    },
                }
            },
            (TransferPhase::Resume { mr, result }, _) => TransferPhase::Close { mr, result },
            (TransferPhase::Close { mr: _, result }, _) => {
                return ManagerTask { manager, job: Job::Finished(Outcome::Executed(result)) };
            },
            (phase, _) => phase,
        };
        ManagerTask { manager, job: Job::Transfer { op, phase } }
    }

    fn resume_request(
        manager: OfiManagerActor,
        remote_buf_id: usize,
        phase: RequestPhase,
        reply: Reply,
    ) -> (next: Self)
        requires
            phase is Memory ==> manager.next_mr_key < u64::MAX,
        ensures
            forall|now: u64|
                next@ == (#[trigger] manager@.with(
                    Job::RequestBuffer { remote_buf_id, phase },
                ).after_request(remote_buf_id, phase, reply, now)),
    {
        let mut manager = manager;
        let job = match (phase, reply) {
            (RequestPhase::Memory, Reply::Memory(answer)) => match answer {
                Ok(Some(memory)) => Job::RequestBuffer {
                    remote_buf_id,
                    phase: RequestPhase::Register(
                        manager.register_local_mr(memory.addr, memory.size),
                    ),
                },
                Ok(None) => Job::Finished(Outcome::Buffer(Ok(None))),
                Err(text) => Job::Finished(Outcome::Buffer(Err(OfiError::Peer(text)))),
            },
            (RequestPhase::Register(registration), reply) => {
                let next = registration.resume(reply);
                match next.phase {
                    RegisterPhase::Done(Ok(mr)) => {
                        let buf = OfiBuffer {
                            rkey: mr.rkey,
                            addr: next.addr as u64,
                            size: next.size,
                        };
                        manager.keep_buffer(remote_buf_id, mr, buf);
                        Job::Finished(Outcome::Buffer(Ok(Some(buf))))
                    },
                    RegisterPhase::Done(Err(error)) => Job::Finished(Outcome::Buffer(Err(error))),
                    phase => Job::RequestBuffer {
                        remote_buf_id,
                        phase: RequestPhase::Register(
                            RegisterLocal {
                                domain: next.domain,
                                endpoint: next.endpoint,
                                addr: next.addr,
                                size: next.size,
                                key: next.key,
                                phase,
                            },
                        ),
                    },
                }
            },
            (phase, _) => Job::RequestBuffer { remote_buf_id, phase },
        };
        ManagerTask { manager, job }
    }

    fn resume_peer(
        manager: OfiManagerActor,
        buf_id: usize,
        size: usize,
        request: PeerRequest,
        phase: PeerPhase,
        reply: Reply,
        now: u64,
    ) -> (next: Self)
        requires
            phase matches PeerPhase::Send(posting) ==> posting.wf(),
        ensures
            next@ == manager@.peer(buf_id, size, request, phase).after_peer(
                buf_id,
                size,
                request,
                phase,
                reply,
                now,
            ),
    {
        let job = match (phase, reply) {
            (PeerPhase::Resolve(resolution), reply) => {
                return manager.peer_from(buf_id, size, request, resolution.resume(reply));
            },
            (PeerPhase::Recv(_), Reply::Code(ret)) => Job::Finished(
                Outcome::Answered(Ok(posted(PostOp::Recv, ret))),
            ),
            (PeerPhase::Send(posting), reply) => {
                let next = posting.resume(reply, now);
                match next.phase {
                    PostPhase::Done(result) => Job::Finished(Outcome::Answered(Ok(result))),
                    phase => Job::Peer {
                        buf_id,
                        size,
                        request,
                        phase: PeerPhase::Send(
                            PostAndPollCq {
                                post: next.post,
                                cq: next.cq,
                                timeout_ns: next.timeout_ns,
                                phase,
                            },
                        ),
                    },
                }
            },
            (phase, _) => Job::Peer { buf_id, size, request, phase },
        };
        ManagerTask { manager, job }
    }

    /// Returns the manager, and what the request came to once it has come to an end.
    pub fn finish(self) -> (done: (OfiManagerActor, Option<Outcome>))
        ensures
            done.0@ == self@.manager,
            done.1 == self@.outcome(),
            self@.wf() ==> done.0@.wf(),
    {
        let outcome = match self.job {
            Job::Finished(outcome) => Some(outcome),
            _ => None,
        };
        (self.manager, outcome)
    }
}

} // verus!
