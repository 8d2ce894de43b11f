//! Laws of the requests that a manager handles for others: what each effect is
//! made with, and what the request is answered.

use crate::completion::{PollPhase, PostAndPollCq, PostPhase};
use crate::effect::{answers, Effect, FabricCall, PostCall, PostOp, Region, Reply};
use crate::error::{Lookup, OfiError};
use crate::history::{happened, Event};
use crate::law_result::{
    has_reason, no_device, read_failed, region_refused, stage, stage_began, stage_deadline,
};
use crate::law_transfer::{
    kind_is_known, names_peer, reaches, registers, registration_history, resolution_history,
    was_classified, was_registered,
};
use crate::machine::{answered, law_run_wf, run, Machine, Step};
use crate::manager_actor::{Manager, ManagerParts};
use crate::messages::{OfiManagerLocalMessage, OfiManagerMessage};
use crate::ops::LocalMemory;
use crate::peers::{ResolvePeer, ResolvePhase};
use crate::registration::RegisterPhase;
use crate::task::{transfer_op, Job, Outcome, PeerPhase, PeerRequest, RequestPhase, Task};
use vstd::prelude::*;

verus! {

// ---------------------------------------------------------------------------
// Resolutions
// ---------------------------------------------------------------------------

/// A peer resolves to the fabric address that the address vector assigned to
/// its endpoint's address, whatever that is; an insertion of anything but one
/// address is a failure.
pub proof fn law_insertion_decides(
    resolution: ResolvePeer,
    ret: i32,
    fi_addr: u64,
    now: u64,
)
    requires
        resolution.phase is Insert,
    ensures
        resolution.phase matches ResolvePhase::Insert(info) && resolution.pending()
            == Effect::Call(FabricCall::AvInsert { av: resolution.domain.av, peer: &info }),
        resolution.after(Reply::Address { ret, fi_addr }, now).phase == ResolvePhase::Done(
            if ret == 1 {
                Ok(fi_addr)
            } else {
                Err(OfiError::AvInsert { ret })
            },
        ),
{
}

// ---------------------------------------------------------------------------
// Requests of peers
// ---------------------------------------------------------------------------

/// Every effect of a peer's request is made for that peer: its address is found
/// if it is not known, and the data call goes to it, with the buffer that it
/// named, or as much of it as it asked for.
pub proof fn law_peer_request_effects(
    manager: Manager,
    buf_id: usize,
    size: usize,
    request: PeerRequest,
    peer: String,
    steps: Seq<Step>,
)
    requires
        manager.wf(),
        answered(manager.start_peer(buf_id, size, request, peer), steps),
    ensures
        ({
            let task = manager.start_peer(buf_id, size, request, peer);
            let now = run(task, steps);
            match now.pending() {
                Effect::Call(FabricCall::GetName { ep, capacity }) => {
                    &&& ep == manager.endpoint.ep
                    &&& peer@ == manager.id@
                    &&& !manager.peers.contains_key(peer@)
                },
                Effect::Ask { peer: asked, message } => {
                    &&& *asked == peer
                    &&& peer@ != manager.id@
                    &&& message is GetEndpointAddr
                    &&& !manager.peers.contains_key(peer@)
                },
                Effect::Call(FabricCall::AvInsert { av, peer: info }) => {
                    &&& av == manager.domain.av
                    &&& names_peer(task, steps, manager, peer, *info)
                    &&& !manager.peers.contains_key(peer@)
                },
                Effect::Call(FabricCall::Post(call)) => {
                    &&& now.manager.peers.contains_key(peer@)
                    &&& reaches(task, steps, manager, peer, now.manager.peers[peer@])
                    &&& serves(manager, buf_id, size, request, now.manager.peers[peer@], call)
                },
                Effect::Call(FabricCall::ReadCq { cq }) => {
                    request is SendFromBuffer && cq == manager.domain.cq
                },
                Effect::Call(FabricCall::ReadCqError { cq }) => {
                    request is SendFromBuffer && cq == manager.domain.cq
                },
                Effect::PauseProgress => request is SendFromBuffer,
                Effect::ResumeProgress => request is SendFromBuffer,
                Effect::Yield => request is SendFromBuffer,
                Effect::Finished => now.outcome() is Some,
                _ => false,
            }
        }),
{
    lemma_peer_history(manager, buf_id, size, request, peer, steps);
}

/// Whether a data call does what a peer at this fabric address asked for.
pub open spec fn serves(
    manager: Manager,
    buf_id: usize,
    size: usize,
    request: PeerRequest,
    to: u64,
    call: PostCall,
) -> bool {
    &&& manager.buffers.contains_key(buf_id)
    &&& match call {
        PostCall::Send { ep, buf, len, desc, peer, context } => {
            &&& request is SendFromBuffer
            &&& ep == manager.endpoint.ep
            &&& buf == manager.buffers[buf_id].1.addr
            &&& len <= size
            &&& len <= manager.buffers[buf_id].1.size
            &&& len == size || len == manager.buffers[buf_id].1.size
            &&& desc == manager.buffers[buf_id].0.local_desc
            &&& peer == to
            &&& context == 0
        },
        PostCall::Recv { ep, buf, len, desc, peer, context } => {
            &&& request is PostRecv
            &&& ep == manager.endpoint.ep
            &&& buf == manager.buffers[buf_id].1.addr
            &&& len <= size
            &&& len <= manager.buffers[buf_id].1.size
            &&& len == size || len == manager.buffers[buf_id].1.size
            &&& desc == manager.buffers[buf_id].0.local_desc
            &&& peer == to
            &&& context == 0
        },
        _ => false,
    }
}

/// A data call that libfabric accepted.
pub open spec fn accepted_call(send: bool) -> Event<'static> {
    |effect: Effect<'static>, reply: Reply, now: u64|
        {
            &&& effect matches Effect::Call(FabricCall::Post(call))
            &&& if send {
                call is Send
            } else {
                call is Recv
            }
            &&& reply == Reply::Code(0)
        }
}

/// An entry that was read off the queue.
pub open spec fn saw_entry(queue: usize) -> Event<'static> {
    |effect: Effect<'static>, reply: Reply, now: u64|
        {
            &&& effect == Effect::Call(FabricCall::ReadCq { cq: queue })
            &&& reply matches Reply::Code(ret)
            &&& ret > 0
        }
}

/// A peer's request is answered with what became of its data call: with
/// success only if the receive was posted, or if the data was accepted and an
/// entry came; with a failure only for a reason that was met. It gets no answer
/// if the peer has no address or the buffer is not registered.
pub proof fn law_peer_request_answer(
    manager: Manager,
    buf_id: usize,
    size: usize,
    request: PeerRequest,
    peer: String,
    steps: Seq<Step>,
)
    requires
        manager.wf(),
        answered(manager.start_peer(buf_id, size, request, peer), steps),
    ensures
        ({
            let task = manager.start_peer(buf_id, size, request, peer);
            let now = run(task, steps);
            let timeout_ms = match request {
                PeerRequest::SendFromBuffer { timeout_ms } => timeout_ms,
                PeerRequest::PostRecv => 0,
            };
            &&& now.manager.buffers == manager.buffers
            &&& now.manager.next_mr_key == manager.next_mr_key
            &&& now.manager.peers.contains_key(peer@) ==> reaches(
                task,
                steps,
                manager,
                peer,
                now.manager.peers[peer@],
            )
            &&& match now.outcome() {
                None => true,
                Some(Outcome::Answered(Ok(Ok(_)))) => match request {
                    PeerRequest::PostRecv => happened(task, steps, accepted_call(false)),
                    PeerRequest::SendFromBuffer { timeout_ms: _ } => {
                        &&& happened(task, steps, accepted_call(true))
                        &&& happened(task, steps, saw_entry(manager.domain.cq))
                    },
                },
                Some(Outcome::Answered(Ok(Err(error)))) => {
                    &&& error is Post || error is CqTimeout || error is CqRead
                    &&& has_reason(task, steps, manager, timeout_ms, error)
                },
                Some(Outcome::Answered(Err(error))) => {
                    ||| {
                        &&& error is Peer || error is GetName || error is AvInsert
                        &&& has_reason(task, steps, manager, timeout_ms, error)
                    }
                    ||| {
                        &&& !manager.buffers.contains_key(buf_id)
                        &&& error == (OfiError::NotRegistered {
                            lookup: match request {
                                PeerRequest::PostRecv => Lookup::PostRecv,
                                PeerRequest::SendFromBuffer { timeout_ms: _ } => {
                                    Lookup::SendFromBuffer
                                },
                            },
                            buf_id,
                        })
                    }
                },
                Some(_) => false,
            }
        }),
{
    lemma_peer_history(manager, buf_id, size, request, peer, steps);
    lemma_peer_result(manager, buf_id, size, request, peer, steps);
}

/// The sending of a buffer has the time that the peer named, in milliseconds,
/// for the tries to have it accepted, and again for its completion.
pub proof fn law_peer_send_has_its_time(
    manager: Manager,
    buf_id: usize,
    size: usize,
    timeout_ms: u64,
    dest: String,
    steps: Seq<Step>,
)
    requires
        manager.wf(),
        answered(
            manager.start_peer(buf_id, size, PeerRequest::SendFromBuffer { timeout_ms }, dest),
            steps,
        ),
    ensures
        ({
            let task = manager.start_peer(
                buf_id,
                size,
                PeerRequest::SendFromBuffer { timeout_ms },
                dest,
            );
            stage(run(task, steps)) > 0 ==> stage_deadline(run(task, steps)) == stage_began(
                task,
                steps,
            ) + timeout_ms * 1_000_000
        }),
{
    lemma_peer_time(
        manager,
        buf_id,
        size,
        PeerRequest::SendFromBuffer { timeout_ms },
        dest,
        steps,
    );
}

spec fn time_of(request: PeerRequest) -> u64 {
    match request {
        PeerRequest::SendFromBuffer { timeout_ms } => timeout_ms,
        PeerRequest::PostRecv => 0,
    }
}

spec fn peer_history(
    manager: Manager,
    buf_id: usize,
    size: usize,
    request: PeerRequest,
    peer: String,
    steps: Seq<Step>,
) -> bool {
    let task = manager.start_peer(buf_id, size, request, peer);
    let now = run(task, steps);
    let resolved = now.manager.peers.contains_key(peer@) && reaches(
        task,
        steps,
        manager,
        peer,
        now.manager.peers[peer@],
    );
    &&& now.wf()
    &&& now.manager == (Manager { peers: now.manager.peers, ..manager })
    &&& now.manager.peers == manager.peers || resolved
    &&& match now.job {
        Job::Peer { buf_id: b, size: s, request: q, phase } => b == buf_id && s == size && q
            == request && match phase {
            PeerPhase::Resolve(resolution) => {
                &&& now.manager.peers == manager.peers
                &&& resolution_history(task, steps, manager, peer, resolution)
            },
            PeerPhase::Recv(call) => {
                &&& resolved
                &&& request is PostRecv
                &&& call is Recv
                &&& serves(manager, buf_id, size, request, now.manager.peers[peer@], call)
            },
            PeerPhase::Send(posting) => {
                &&& resolved
                &&& request is SendFromBuffer
                &&& posting.post is Send
                &&& posting.cq == manager.domain.cq
                &&& posting.timeout_ns == time_of(request) * 1_000_000
                &&& posting.phase matches PostPhase::Poll(poll) ==> poll.cq == manager.domain.cq
                    && !poll.blocking
                &&& serves(
                    manager,
                    buf_id,
                    size,
                    request,
                    now.manager.peers[peer@],
                    posting.post,
                )
            },
        },
        Job::Finished(Outcome::Answered(_)) => true,
        _ => false,
    }
}

proof fn lemma_peer_history(
    manager: Manager,
    buf_id: usize,
    size: usize,
    request: PeerRequest,
    peer: String,
    steps: Seq<Step>,
)
    requires
        manager.wf(),
        answered(manager.start_peer(buf_id, size, request, peer), steps),
    ensures
        peer_history(manager, buf_id, size, request, peer, steps),
    decreases steps.len(),
{
    let task = manager.start_peer(buf_id, size, request, peer);
    manager.lemma_start_peer(buf_id, size, request, peer);
    law_run_wf(task, steps);
    if steps.len() > 0 {
        lemma_peer_history(manager, buf_id, size, request, peer, steps.drop_last());
    } else if manager.peers.contains_key(peer@) {
        assert(manager.peers.insert(peer@, manager.peers[peer@]) =~= manager.peers);
    }
}

proof fn lemma_peer_time(
    manager: Manager,
    buf_id: usize,
    size: usize,
    request: PeerRequest,
    peer: String,
    steps: Seq<Step>,
)
    requires
        manager.wf(),
        answered(manager.start_peer(buf_id, size, request, peer), steps),
    ensures
        ({
            let task = manager.start_peer(buf_id, size, request, peer);
            stage(run(task, steps)) > 0 ==> stage_deadline(run(task, steps)) == stage_began(
                task,
                steps,
            ) + time_of(request) * 1_000_000
        }),
    decreases steps.len(),
{
    lemma_peer_history(manager, buf_id, size, request, peer, steps);
    if steps.len() > 0 {
        lemma_peer_history(manager, buf_id, size, request, peer, steps.drop_last());
        lemma_peer_time(manager, buf_id, size, request, peer, steps.drop_last());
    }
}

spec fn peer_result(
    manager: Manager,
    buf_id: usize,
    request: PeerRequest,
    task: Task,
    steps: Seq<Step>,
) -> bool {
    let now = run(task, steps);
    match now.job {
        Job::Peer { buf_id: _, size: _, request: _, phase } => phase matches PeerPhase::Send(
            posting,
        ) ==> posting_fits(manager, request, task, steps, posting),
        Job::Finished(Outcome::Answered(Ok(result))) => match result {
            Ok(_) => if request is PostRecv {
                happened(task, steps, accepted_call(false))
            } else {
                &&& happened(task, steps, accepted_call(true))
                &&& happened(task, steps, saw_entry(manager.domain.cq))
            },
            Err(error) => {
                &&& error is Post || error is CqTimeout || error is CqRead
                &&& has_reason(task, steps, manager, time_of(request), error)
            },
        },
        Job::Finished(Outcome::Answered(Err(error))) => {
            ||| {
                &&& error is Peer || error is GetName || error is AvInsert
                &&& has_reason(task, steps, manager, time_of(request), error)
            }
            ||| {
                &&& !manager.buffers.contains_key(buf_id)
                &&& error == (OfiError::NotRegistered {
                    lookup: match request {
                        PeerRequest::PostRecv => Lookup::PostRecv,
                        PeerRequest::SendFromBuffer { timeout_ms: _ } => Lookup::SendFromBuffer,
                    },
                    buf_id,
                })
            }
        },
        _ => false,
    }
}

spec fn posting_fits(
    manager: Manager,
    request: PeerRequest,
    task: Task,
    steps: Seq<Step>,
    posting: PostAndPollCq,
) -> bool {
    match posting.phase {
        PostPhase::Poll(poll) => {
            &&& happened(task, steps, accepted_call(true))
            &&& poll.phase matches PollPhase::ReadError { ret } ==> happened(
                task,
                steps,
                read_failed(ret),
            )
        },
        PostPhase::Resume(Ok(_)) => {
            &&& happened(task, steps, accepted_call(true))
            &&& happened(task, steps, saw_entry(manager.domain.cq))
        },
        PostPhase::Resume(Err(error)) => {
            &&& error is Post || error is CqTimeout || error is CqRead
            &&& has_reason(task, steps, manager, time_of(request), error)
        },
        _ => true,
    }
}

proof fn lemma_peer_result(
    manager: Manager,
    buf_id: usize,
    size: usize,
    request: PeerRequest,
    peer: String,
    steps: Seq<Step>,
)
    requires
        manager.wf(),
        answered(manager.start_peer(buf_id, size, request, peer), steps),
    ensures
        peer_result(
            manager,
            buf_id,
            request,
            manager.start_peer(buf_id, size, request, peer),
            steps,
        ),
    decreases steps.len(),
{
    lemma_peer_history(manager, buf_id, size, request, peer, steps);
    if steps.len() > 0 {
        lemma_peer_history(manager, buf_id, size, request, peer, steps.drop_last());
        lemma_peer_time(manager, buf_id, size, request, peer, steps.drop_last());
        lemma_peer_result(manager, buf_id, size, request, peer, steps.drop_last());
    }
}

/// A peer's request goes on with each answer: from the peer's address to its
/// data call, and from there to the answer.
pub proof fn law_peer_request_goes_on(
    manager: Manager,
    buf_id: usize,
    size: usize,
    request: PeerRequest,
    peer: String,
    steps: Seq<Step>,
    reply: Reply,
    now: u64,
)
    requires
        manager.wf(),
        answered(manager.start_peer(buf_id, size, request, peer), steps),
        answers(run(manager.start_peer(buf_id, size, request, peer), steps).pending(), reply),
    ensures
        ({
            let was = run(manager.start_peer(buf_id, size, request, peer), steps);
            let next = was.after(reply, now);
            match (was.pending(), reply) {
                (Effect::Ask { peer: _, message: _ }, Reply::Endpoint(Ok(info))) => next.pending()
                    == Effect::Call(FabricCall::AvInsert { av: manager.domain.av, peer: &info }),
                (Effect::Ask { peer: _, message: _ }, Reply::Endpoint(Err(text))) => next.outcome()
                    == Some(Outcome::Answered(Err(OfiError::Peer(text)))),
                (
                    Effect::Call(FabricCall::AvInsert { av: _, peer: _ }),
                    Reply::Address { ret, fi_addr },
                ) => if ret != 1 {
                    next.outcome() == Some(Outcome::Answered(Err(OfiError::AvInsert { ret })))
                } else {
                    serving_begins(manager, buf_id, request, next)
                },
                (Effect::Call(FabricCall::Post(PostCall::Recv { .. })), Reply::Code(ret)) => {
                    next.outcome() == Some(
                        Outcome::Answered(
                            Ok(
                                if ret == 0 {
                                    Ok(())
                                } else {
                                    Err(OfiError::Post { op: PostOp::Recv, ret })
                                },
                            ),
                        ),
                    )
                },
                (Effect::PauseProgress, _) => next.pending() matches Effect::Call(
                    FabricCall::Post(call),
                ) && call is Send,
                (Effect::Call(FabricCall::Post(PostCall::Send { .. })), Reply::Code(ret)) => {
                    if ret == 0 || (ret == -11 && now < stage_deadline(was)) {
                        next.pending() == Effect::Call(
                            FabricCall::ReadCq { cq: manager.domain.cq },
                        )
                    } else {
                        &&& next.pending() == Effect::ResumeProgress
                        &&& next.after(Reply::Done, now).outcome() == Some(
                            Outcome::Answered(
                                Ok(Err(OfiError::Post { op: PostOp::Send, ret })),
                            ),
                        )
                    }
                },
                (Effect::Call(FabricCall::ReadCq { cq }), Reply::Code(ret)) => if stage(was) != 2 {
                    next.pending() == Effect::Yield
                } else if ret > 0 {
                    &&& next.pending() == Effect::ResumeProgress
                    &&& next.after(Reply::Done, now).outcome() == Some(
                        Outcome::Answered(Ok(Ok(()))),
                    )
                } else if ret == -11 && now >= stage_deadline(was) {
                    &&& next.pending() == Effect::ResumeProgress
                    &&& next.after(Reply::Done, now).outcome() == Some(
                        Outcome::Answered(Ok(Err(OfiError::CqTimeout))),
                    )
                } else if ret == -11 {
                    next.pending() == Effect::Yield && next.after(Reply::Done, now) == was
                } else {
                    next.pending() == Effect::Call(
                        FabricCall::ReadCqError { cq: manager.domain.cq },
                    )
                },
                _ => true,
            }
        }),
{
    lemma_peer_history(manager, buf_id, size, request, peer, steps);
}

/// What a peer's request does first once the peer's address is known: it posts
/// its receive or begins to send, unless the buffer is not registered.
pub open spec fn serving_begins(
    manager: Manager,
    buf_id: usize,
    request: PeerRequest,
    task: Task,
) -> bool {
    if !manager.buffers.contains_key(buf_id) {
        task.outcome() is Some
    } else if request is PostRecv {
        task.pending() matches Effect::Call(FabricCall::Post(call)) && call is Recv
    } else {
        task.pending() == Effect::PauseProgress
    }
}

/// A peer's request begins with the peer's address, unless it is known.
pub proof fn law_peer_request_begins(
    manager: Manager,
    buf_id: usize,
    size: usize,
    request: PeerRequest,
    peer: String,
)
    ensures
        ({
            let task = manager.start_peer(buf_id, size, request, peer);
            if manager.peers.contains_key(peer@) {
                serving_begins(manager, buf_id, request, task)
            } else if peer@ == manager.id@ {
                task.pending() == Effect::Call(
                    FabricCall::GetName { ep: manager.endpoint.ep, capacity: 0 },
                )
            } else {
                task.pending() == (Effect::Ask {
                    peer: &peer,
                    message: OfiManagerMessage::GetEndpointAddr,
                })
            }
        }),
{
}

// ---------------------------------------------------------------------------
// Requests for buffers
// ---------------------------------------------------------------------------

/// A buffer that is registered is at hand. For any other the owner is asked for
/// its memory, and what it names is registered under the next key: the buffer
/// is described by that memory and by the key of its region, and kept. Without
/// memory there is no buffer.
pub proof fn law_request_follows_its_answers(manager: Manager, id: usize, steps: Seq<Step>)
    requires
        manager.wf(),
        manager.owner is Some,
        manager.next_mr_key < u64::MAX,
        answered(manager.start_request(id), steps),
    ensures
        ({
            let task = manager.start_request(id);
            let now = run(task, steps);
            if manager.buffers.contains_key(id) {
                &&& now.outcome() == Some(Outcome::Buffer(Ok(Some(manager.buffers[id].1))))
                &&& now.manager == manager
            } else if steps.len() == 0 {
                &&& manager.owner matches Some(owner)
                &&& now.pending() == (Effect::RequestLocalMemory {
                    owner: &owner,
                    remote_buf_id: id,
                })
                &&& now.manager == manager
            } else {
                match steps[0].0 {
                    Reply::Memory(Ok(None)) => {
                        &&& now.outcome() == Some(Outcome::Buffer(Ok(None)))
                        &&& now.manager == manager
                    },
                    Reply::Memory(Err(text)) => {
                        &&& now.outcome() == Some(Outcome::Buffer(Err(OfiError::Peer(text))))
                        &&& now.manager == manager
                    },
                    Reply::Memory(Ok(Some(memory))) => request_of(manager, id, memory, steps),
                    _ => false,
                }
            }
        }),
{
    let task = manager.start_request(id);
    if manager.buffers.contains_key(id) {
        if steps.len() > 0 {
            lemma_nothing_to_answer(task, steps);
        }
    } else if steps.len() > 0 {
        lemma_request_history(manager, id, steps);
    }
}

/// A request for a buffer ends with the region of its memory, and is answered
/// at once.
pub proof fn law_request_ends_with_its_region(
    manager: Manager,
    id: usize,
    steps: Seq<Step>,
    region: Region,
    now: u64,
)
    requires
        manager.wf(),
        manager.owner is Some,
        manager.next_mr_key < u64::MAX,
        answered(manager.start_request(id), steps),
        run(manager.start_request(id), steps).pending() is Call,
    ensures
        ({
            let next = run(manager.start_request(id), steps).after(Reply::Region(region), now);
            &&& next.outcome() matches Some(Outcome::Buffer(result))
            &&& if region.ret == 0 {
                &&& result matches Ok(Some(buf))
                &&& buf.rkey == region.rkey
            } else {
                result is Err
            }
        }),
{
    if manager.buffers.contains_key(id) {
        lemma_nothing_to_answer(manager.start_request(id), steps);
    } else if steps.len() > 0 {
        lemma_request_history(manager, id, steps);
    }
}

/// What a request does with the memory that the owner named.
pub open spec fn request_of(
    manager: Manager,
    id: usize,
    memory: LocalMemory,
    steps: Seq<Step>,
) -> bool {
    let task = manager.start_request(id);
    let now = run(task, steps);
    &&& now.manager.peers == manager.peers
    &&& now.manager.next_mr_key == manager.next_mr_key + 1
    &&& match now.pending() {
        Effect::IsDevicePointer { addr } => addr == memory.addr && manager.domain.hmem_supported,
        Effect::DeviceOrdinal { addr } => {
            addr == memory.addr && happened(task, steps, was_classified(addr, true))
        },
        Effect::Call(FabricCall::Register(call)) => {
            &&& registers(manager, memory.addr, memory.size, manager.next_mr_key, call)
            &&& kind_is_known(task, steps, manager, memory.addr, call.hmem)
        },
        Effect::Finished => match now.outcome() {
            Some(Outcome::Buffer(Ok(Some(buf)))) => {
                &&& now.manager.buffers.contains_key(id)
                &&& now.manager.buffers == manager.buffers.insert(id, now.manager.buffers[id])
                &&& now.manager.buffers[id].1 == buf
                &&& buf.addr == memory.addr
                &&& buf.size == memory.size
                &&& buf.rkey == now.manager.buffers[id].0.rkey
                &&& happened(
                    task,
                    steps,
                    was_registered(
                        manager,
                        memory.addr,
                        memory.size,
                        manager.next_mr_key,
                        now.manager.buffers[id].0,
                    ),
                )
            },
            Some(Outcome::Buffer(Err(error))) => {
                &&& now.manager.buffers == manager.buffers
                &&& match error {
                    OfiError::Register { ret } => {
                        &&& !manager.domain.hmem_supported
                        &&& happened(task, steps, region_refused(false, ret))
                    },
                    OfiError::RegisterAttr { ret } => {
                        &&& manager.domain.hmem_supported
                        &&& happened(task, steps, region_refused(true, ret))
                    },
                    OfiError::DeviceOrdinal { addr, err } => {
                        addr == memory.addr && happened(task, steps, no_device(addr, err))
                    },
                    _ => false,
                }
            },
            _ => false,
        },
        _ => false,
    }
}

/// A request that has come to an end takes no more answers.
proof fn lemma_nothing_to_answer(task: Task, steps: Seq<Step>)
    requires
        task.outcome() is Some,
        answered(task, steps),
    ensures
        steps.len() == 0,
    decreases steps.len(),
{
    if steps.len() > 0 {
        lemma_nothing_to_answer(task, steps.drop_last());
    }
}

/// What a request keeps of its history while the memory is registered.
spec fn request_history(
    manager: Manager,
    id: usize,
    memory: LocalMemory,
    steps: Seq<Step>,
) -> bool {
    let task = manager.start_request(id);
    let now = run(task, steps);
    &&& now.manager.domain == manager.domain
    &&& now.manager.endpoint == manager.endpoint
    &&& request_of(manager, id, memory, steps)
    &&& now.job is Finished || {
        &&& now.job matches Job::RequestBuffer { remote_buf_id, phase }
        &&& remote_buf_id == id
        &&& now.manager.buffers == manager.buffers
        &&& phase matches RequestPhase::Register(registration)
        &&& registration_history(
            task,
            steps,
            manager,
            memory.addr,
            memory.size,
            manager.next_mr_key,
            registration,
        )
    }
}

proof fn lemma_request_begins(manager: Manager, id: usize, steps: Seq<Step>)
    requires
        manager.wf(),
        manager.owner is Some,
        manager.next_mr_key < u64::MAX,
        !manager.buffers.contains_key(id),
        answered(manager.start_request(id), steps),
        steps.len() == 1,
    ensures
        match steps[0].0 {
            Reply::Memory(Ok(None)) => run(manager.start_request(id), steps) == (Task {
                manager,
                job: Job::Finished(Outcome::Buffer(Ok(None))),
            }),
            Reply::Memory(Err(text)) => run(manager.start_request(id), steps) == (Task {
                manager,
                job: Job::Finished(Outcome::Buffer(Err(OfiError::Peer(text)))),
            }),
            Reply::Memory(Ok(Some(memory))) => request_history(manager, id, memory, steps),
            _ => false,
        },
{
    assert(run(manager.start_request(id), steps.drop_last()) == manager.start_request(id));
    assert(steps.last() == steps[0]);
}

#[verifier::spinoff_prover]
proof fn lemma_request_goes_on(
    manager: Manager,
    id: usize,
    memory: LocalMemory,
    steps: Seq<Step>,
)
    requires
        manager.wf(),
        answered(manager.start_request(id), steps),
        steps.len() > 1,
        run(manager.start_request(id), steps.drop_last()).wf(),
        request_history(manager, id, memory, steps.drop_last()),
    ensures
        request_history(manager, id, memory, steps),
{
    let was = run(manager.start_request(id), steps.drop_last());
    if let Job::RequestBuffer { remote_buf_id, phase } = was.job {
        if let RequestPhase::Register(registration) = phase {
            match registration.phase {
                RegisterPhase::Classify => {},
                RegisterPhase::Ordinal => {},
                RegisterPhase::Register { hmem } => {},
                RegisterPhase::Done(_) => {},
            }
        }
    }
}

proof fn lemma_request_history(manager: Manager, id: usize, steps: Seq<Step>)
    requires
        manager.wf(),
        manager.owner is Some,
        manager.next_mr_key < u64::MAX,
        !manager.buffers.contains_key(id),
        answered(manager.start_request(id), steps),
        steps.len() > 0,
    ensures
        match steps[0].0 {
            Reply::Memory(Ok(None)) => steps.len() == 1 && run(manager.start_request(id), steps)
                == (Task { manager, job: Job::Finished(Outcome::Buffer(Ok(None))) }),
            Reply::Memory(Err(text)) => steps.len() == 1 && run(manager.start_request(id), steps)
                == (Task {
                manager,
                job: Job::Finished(Outcome::Buffer(Err(OfiError::Peer(text)))),
            }),
            Reply::Memory(Ok(Some(memory))) => request_history(manager, id, memory, steps),
            _ => false,
        },
    decreases steps.len(),
{
    if steps.len() == 1 {
        lemma_request_begins(manager, id, steps);
    } else {
        let before = steps.drop_last();
        assert(before[0] == steps[0]);
        lemma_request_history(manager, id, before);
        law_run_wf(manager.start_request(id), before);
        if let Reply::Memory(Ok(Some(memory))) = steps[0].0 {
            lemma_request_goes_on(manager, id, memory, steps);
        }
    }
}

/// A release closes the region of the buffer that is named, and no other.
pub proof fn law_release_closes_the_region(manager: Manager, id: usize, now: u64)
    ensures
        ({
            let task = manager.start_release(id);
            &&& task.manager == (Manager { buffers: manager.buffers.remove(id), ..manager })
            &&& if manager.buffers.contains_key(id) {
                &&& task.pending() == Effect::Call(
                    FabricCall::Close { fid: manager.buffers[id].0.mr },
                )
                &&& task.after(Reply::Done, now).outcome() == Some(Outcome::Released)
                &&& task.after(Reply::Done, now).manager == task.manager
            } else {
                task.outcome() == Some(Outcome::Released)
            }
        }),
{
}

/// A manager answers with the name of its own endpoint.
pub proof fn law_endpoint_addr_is_own_name(manager: Manager, first: Reply, second: Reply, now: u64)
    requires
        answers(manager.start_endpoint_addr().pending(), first),
        answers(manager.start_endpoint_addr().after(first, now).pending(), second),
    ensures
        ({
            let task = manager.start_endpoint_addr();
            let asked = task.after(first, now);
            let end = asked.after(second, now);
            &&& task.pending() == Effect::Call(
                FabricCall::GetName { ep: manager.endpoint.ep, capacity: 0 },
            )
            &&& first matches Reply::Name { ret: _, addr: _, addr_len: size }
            &&& asked.pending() == Effect::Call(
                FabricCall::GetName { ep: manager.endpoint.ep, capacity: size },
            )
            &&& second matches Reply::Name { ret, addr, addr_len }
            &&& end.manager == manager
            &&& match end.outcome() {
                Some(Outcome::Endpoint(Ok(info))) => {
                    ret == 0 && info.addr == addr && info.addr_len == addr@.len()
                },
                Some(Outcome::Endpoint(Err(error))) => {
                    ret != 0 && error == (OfiError::GetName { ret })
                },
                _ => false,
            }
        }),
{
}

/// A message for a transfer asks for the transfer that it names.
pub proof fn law_message_names_its_transfer(message: OfiManagerLocalMessage)
    ensures
        message matches OfiManagerLocalMessage::ExecuteOp {
            op_type,
            local_addr,
            local_size,
            remote_ofi_mgr,
            remote_buffer,
            remote_buf_id,
            timeout_ms,
        } && {
            let op = transfer_op(message);
            &&& op.op_type == op_type
            &&& op.local_addr == local_addr
            &&& op.local_size == local_size
            &&& op.remote_mgr == remote_ofi_mgr
            &&& op.remote_buf == remote_buffer
            &&& op.remote_buf_id == remote_buf_id
            &&& op.timeout_ms == timeout_ms
        },
{
}

/// A new manager has its parts, and neither owner, buffers nor peers; its first
/// registration asks for key one.
pub proof fn law_new_manager(id: String, parts: ManagerParts)
    ensures
        ({
            let manager = Manager::initial(id, parts);
            &&& manager.id == id
            &&& manager.owner is None
            &&& manager.domain == parts.domain
            &&& manager.endpoint == parts.endpoint
            &&& manager.config == parts.config
            &&& manager.next_mr_key == 1
            &&& forall|buffer: usize| !(#[trigger] manager.buffers.contains_key(buffer))
            &&& forall|peer: Seq<char>| !(#[trigger] manager.peers.contains_key(peer))
        }),
{
}

} // verus!
