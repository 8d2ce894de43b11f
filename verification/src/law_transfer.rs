//! Laws of transfers: what each effect of a transfer is made with, what it
//! learns, and what it reports.

use crate::completion::PostPhase;
use crate::effect::{Effect, FabricCall, HmemIface, PostCall, Region, Registration, Reply};
use crate::endpoint::OfiMr;
use crate::history::{happened, Event};
use crate::machine::{answered, law_run_wf, run, Machine, Step};
use crate::manager_actor::Manager;
use crate::messages::OfiManagerMessage;
use crate::peers::{ResolvePeer, ResolvePhase};
use crate::primitives::OfiEndpointInfo;
use crate::registration::{RegisterLocal, RegisterPhase};
use crate::task::{Job, Outcome, Task, TransferOp, TransferPhase};
use vstd::prelude::*;

verus! {

// ---------------------------------------------------------------------------
// Events
// ---------------------------------------------------------------------------

/// A registration of this memory under this key, with all rights, on the
/// manager's domain.
pub open spec fn registers(
    manager: Manager,
    addr: usize,
    size: usize,
    key: u64,
    call: Registration,
) -> bool {
    &&& call.domain == manager.domain.domain
    &&& call.addr == addr
    &&& call.size == size
    &&& call.key == key
    &&& call.access.remote_read
    &&& call.access.remote_write
    &&& call.access.read
    &&& call.access.write
}

/// The memory was registered, with this region.
pub open spec fn was_registered(
    manager: Manager,
    addr: usize,
    size: usize,
    key: u64,
    mr: OfiMr,
) -> Event<'static> {
    |effect: Effect<'static>, reply: Reply, now: u64|
        {
            &&& effect matches Effect::Call(FabricCall::Register(call))
            &&& registers(manager, addr, size, key, call)
            &&& reply == Reply::Region(
                Region { ret: 0, mr: mr.mr, rkey: mr.rkey, desc: mr.local_desc },
            )
        }
}

/// The memory was registered, with a region of this handle.
pub open spec fn has_region(
    manager: Manager,
    addr: usize,
    size: usize,
    key: u64,
    handle: usize,
) -> Event<'static> {
    |effect: Effect<'static>, reply: Reply, now: u64|
        {
            &&& effect matches Effect::Call(FabricCall::Register(call))
            &&& registers(manager, addr, size, key, call)
            &&& reply matches Reply::Region(region)
            &&& region.ret == 0
            &&& region.mr == handle
        }
}

/// The memory was registered, with a region of this descriptor.
pub open spec fn has_desc(
    manager: Manager,
    addr: usize,
    size: usize,
    key: u64,
    desc: usize,
) -> Event<'static> {
    |effect: Effect<'static>, reply: Reply, now: u64|
        {
            &&& effect matches Effect::Call(FabricCall::Register(call))
            &&& registers(manager, addr, size, key, call)
            &&& reply matches Reply::Region(region)
            &&& region.ret == 0
            &&& region.desc == desc
        }
}

/// The address was found to be, or not to be, in device memory.
pub open spec fn was_classified(at: usize, device: bool) -> Event<'static> {
    |effect: Effect<'static>, reply: Reply, now: u64|
        effect == (Effect::IsDevicePointer { addr: at }) && reply == Reply::DevicePointer(device)
}

/// The driver named this device for the address.
pub open spec fn has_device(at: usize, device: i32) -> Event<'static> {
    |effect: Effect<'static>, reply: Reply, now: u64|
        effect == (Effect::DeviceOrdinal { addr: at }) && reply == (Reply::Ordinal {
            err: 0,
            ordinal: device,
        })
}

/// Whether the kind of memory that a registration names is what was found out
/// about it: nothing on a domain without device memory support; else host
/// memory, or the device that owns the address.
pub open spec fn kind_is_known(
    task: Task,
    steps: Seq<Step>,
    manager: Manager,
    addr: usize,
    hmem: Option<(HmemIface, i32)>,
) -> bool {
    match hmem {
        None => !manager.domain.hmem_supported,
        Some((HmemIface::System, device)) => {
            &&& manager.domain.hmem_supported
            &&& device == 0
            &&& happened(task, steps, was_classified(addr, false))
        },
        Some((HmemIface::Cuda, device)) => {
            &&& manager.domain.hmem_supported
            &&& device >= 0
            &&& happened(task, steps, was_classified(addr, true))
            &&& happened(task, steps, has_device(addr, device))
        },
    }
}

/// The manager's own endpoint has this name.
pub open spec fn own_name(own: usize, info: OfiEndpointInfo) -> Event<'static> {
    |effect: Effect<'static>, reply: Reply, now: u64|
        {
            &&& effect matches Effect::Call(FabricCall::GetName { ep, capacity })
            &&& ep == own
            &&& reply matches Reply::Name { ret, addr, addr_len }
            &&& ret == 0
            &&& info.addr == addr
            &&& info.addr_len == addr@.len()
        }
}

/// The peer named this as its endpoint's address.
pub open spec fn peer_name(name: String, info: OfiEndpointInfo) -> Event<'static> {
    |effect: Effect<'static>, reply: Reply, now: u64|
        {
            &&& effect matches Effect::Ask { peer, message }
            &&& *peer == name
            &&& message is GetEndpointAddr
            &&& reply == Reply::Endpoint(Ok(info))
        }
}

/// Whether `info` is the address of the peer's endpoint: as the manager's own
/// endpoint gave it, if the peer is the manager itself, and else as the peer
/// told it.
pub open spec fn names_peer(
    task: Task,
    steps: Seq<Step>,
    manager: Manager,
    peer: String,
    info: OfiEndpointInfo,
) -> bool {
    if peer@ == manager.id@ {
        happened(task, steps, own_name(manager.endpoint.ep, info))
    } else {
        happened(task, steps, peer_name(peer, info))
    }
}

/// Whether the address of the peer's endpoint was inserted into the manager's
/// address vector, which assigned it this fabric address.
pub open spec fn was_inserted(
    task: Task,
    steps: Seq<Step>,
    manager: Manager,
    peer: String,
    fi_addr: u64,
) -> bool
    decreases steps.len(),
{
    steps.len() > 0 && (was_inserted(task, steps.drop_last(), manager, peer, fi_addr) || {
        &&& run(task, steps.drop_last()).pending() matches Effect::Call(
            FabricCall::AvInsert { av, peer: info },
        )
        &&& av == manager.domain.av
        &&& steps.last().0 == (Reply::Address { ret: 1, fi_addr })
        &&& names_peer(task, steps.drop_last(), manager, peer, *info)
    })
}

/// Whether this is the fabric address of the peer: the one that was known, or
/// the one that it was assigned in this run.
pub open spec fn reaches(
    task: Task,
    steps: Seq<Step>,
    manager: Manager,
    peer: String,
    fi_addr: u64,
) -> bool {
    if manager.peers.contains_key(peer@) {
        fi_addr == manager.peers[peer@]
    } else {
        was_inserted(task, steps, manager, peer, fi_addr)
    }
}

// ---------------------------------------------------------------------------
// What a transfer asks for
// ---------------------------------------------------------------------------

/// Whether a data call of a transfer is the right one. With remote memory
/// access it writes the local memory to the remote buffer, or reads it from
/// there. By messages the receive of a read takes the local memory, and the
/// send of a write gives it; within the manager, the other side is the buffer
/// that the transfer names. `to` is the fabric address of the remote manager.
pub open spec fn right_call(
    task: Task,
    steps: Seq<Step>,
    manager: Manager,
    op: TransferOp,
    to: u64,
    call: PostCall,
) -> bool {
    let own = |desc: usize|
        happened(
            task,
            steps,
            has_desc(manager, op.local_addr, op.local_size, manager.next_mr_key, desc),
        );
    match call {
        PostCall::Write { ep, buf, len, desc, peer, remote_addr, remote_key, context } => {
            &&& manager.domain.rma_supported
            &&& op.op_type is WriteFromLocal
            &&& ep == manager.endpoint.ep
            &&& buf == op.local_addr
            &&& len == op.local_size
            &&& own(desc)
            &&& peer == to
            &&& remote_addr == op.remote_buf.addr
            &&& remote_key == op.remote_buf.rkey
            &&& context == 0
        },
        PostCall::Read { ep, buf, len, desc, peer, remote_addr, remote_key, context } => {
            &&& manager.domain.rma_supported
            &&& op.op_type is ReadIntoLocal
            &&& ep == manager.endpoint.ep
            &&& buf == op.local_addr
            &&& len == op.local_size
            &&& own(desc)
            &&& peer == to
            &&& remote_addr == op.remote_buf.addr
            &&& remote_key == op.remote_buf.rkey
            &&& context == 0
        },
        PostCall::Send { ep, buf, len, desc, peer, context } => {
            &&& !manager.domain.rma_supported
            &&& ep == manager.endpoint.ep
            &&& len == op.local_size
            &&& peer == to
            &&& context == 0
            &&& if op.op_type is WriteFromLocal {
                buf == op.local_addr && own(desc)
            } else {
                &&& op.remote_mgr@ == manager.id@
                &&& manager.buffers.contains_key(op.remote_buf_id)
                &&& buf == manager.buffers[op.remote_buf_id].1.addr
                &&& desc == manager.buffers[op.remote_buf_id].0.local_desc
            }
        },
        PostCall::Recv { ep, buf, len, desc, peer, context } => {
            &&& !manager.domain.rma_supported
            &&& ep == manager.endpoint.ep
            &&& len == op.local_size
            &&& peer == to
            &&& context == 0
            &&& if op.op_type is ReadIntoLocal {
                buf == op.local_addr && own(desc)
            } else {
                &&& op.remote_mgr@ == manager.id@
                &&& manager.buffers.contains_key(op.remote_buf_id)
                &&& buf == manager.buffers[op.remote_buf_id].1.addr
                &&& desc == manager.buffers[op.remote_buf_id].0.local_desc
            }
        },
    }
}

/// Every effect of a transfer is made with what the transfer names, with what
/// the manager keeps, and with what earlier effects of the transfer brought.
pub proof fn law_transfer_effects(manager: Manager, op: TransferOp, steps: Seq<Step>)
    requires
        manager.wf(),
        manager.next_mr_key < u64::MAX,
        answered(manager.start_transfer(op), steps),
    ensures
        ({
            let task = manager.start_transfer(op);
            let now = run(task, steps);
            match now.pending() {
                Effect::IsDevicePointer { addr } => {
                    addr == op.local_addr && manager.domain.hmem_supported
                },
                Effect::DeviceOrdinal { addr } => {
                    &&& addr == op.local_addr
                    &&& happened(task, steps, was_classified(addr, true))
                },
                Effect::Call(FabricCall::Register(call)) => {
                    &&& registers(manager, op.local_addr, op.local_size, manager.next_mr_key, call)
                    &&& kind_is_known(task, steps, manager, op.local_addr, call.hmem)
                },
                Effect::Call(FabricCall::GetName { ep, capacity }) => {
                    &&& ep == manager.endpoint.ep
                    &&& op.remote_mgr@ == manager.id@
                    &&& !manager.peers.contains_key(op.remote_mgr@)
                },
                Effect::Call(FabricCall::AvInsert { av, peer }) => {
                    &&& av == manager.domain.av
                    &&& names_peer(task, steps, manager, op.remote_mgr, *peer)
                    &&& !manager.peers.contains_key(op.remote_mgr@)
                },
                Effect::Ask { peer, message } => {
                    &&& *peer == op.remote_mgr
                    &&& op.remote_mgr@ != manager.id@
                    &&& match message {
                        OfiManagerMessage::GetEndpointAddr => {
                            !manager.peers.contains_key(op.remote_mgr@)
                        },
                        OfiManagerMessage::PostRecv { buf_id, size, sender, timeout_ms } => {
                            &&& !manager.domain.rma_supported
                            &&& op.op_type is WriteFromLocal
                            &&& buf_id == op.remote_buf_id
                            &&& size == op.local_size
                            &&& sender == manager.id
                            &&& timeout_ms == op.timeout_ms
                        },
                        _ => false,
                    }
                },
                Effect::Tell { peer, message } => {
                    &&& *peer == op.remote_mgr
                    &&& op.remote_mgr@ != manager.id@
                    &&& !manager.domain.rma_supported
                    &&& op.op_type is ReadIntoLocal
                    &&& message == (OfiManagerMessage::SendFromBuffer {
                        buf_id: op.remote_buf_id,
                        size: op.local_size,
                        dest: manager.id,
                        timeout_ms: op.timeout_ms,
                    })
                },
                Effect::TakeAnswer => {
                    &&& !manager.domain.rma_supported
                    &&& op.op_type is ReadIntoLocal
                },
                Effect::Call(FabricCall::Post(call)) => {
                    &&& now.manager.peers.contains_key(op.remote_mgr@)
                    &&& reaches(
                        task,
                        steps,
                        manager,
                        op.remote_mgr,
                        now.manager.peers[op.remote_mgr@],
                    )
                    &&& right_call(
                        task,
                        steps,
                        manager,
                        op,
                        now.manager.peers[op.remote_mgr@],
                        call,
                    )
                },
                Effect::Call(FabricCall::ReadCq { cq }) => cq == manager.domain.cq,
                Effect::Call(FabricCall::ReadCqError { cq }) => cq == manager.domain.cq,
                Effect::Call(FabricCall::Close { fid }) => happened(
                    task,
                    steps,
                    has_region(
                        manager,
                        op.local_addr,
                        op.local_size,
                        manager.next_mr_key,
                        fid,
                    ),
                ),
                Effect::PauseProgress => true,
                Effect::ResumeProgress => true,
                Effect::Yield => true,
                Effect::Finished => now.outcome() is Some,
                _ => false,
            }
        }),
{
    lemma_transfer_history(manager, op, steps);
}

/// A transfer teaches the manager nothing but the fabric address of the remote
/// manager, and that only if it was not known.
pub proof fn law_transfer_learns(manager: Manager, op: TransferOp, steps: Seq<Step>)
    requires
        manager.wf(),
        manager.next_mr_key < u64::MAX,
        answered(manager.start_transfer(op), steps),
    ensures
        ({
            let task = manager.start_transfer(op);
            let now = run(task, steps).manager;
            &&& forall|peer: Seq<char>|
                peer != op.remote_mgr@ ==> (#[trigger] now.peers.contains_key(peer)
                    <==> manager.peers.contains_key(peer))
            &&& forall|peer: Seq<char>| #[trigger]
                manager.peers.contains_key(peer) ==> now.peers.contains_key(peer)
                    && now.peers[peer] == manager.peers[peer]
            &&& now.peers.contains_key(op.remote_mgr@) ==> reaches(
                task,
                steps,
                manager,
                op.remote_mgr,
                now.peers[op.remote_mgr@],
            )
            &&& now.next_mr_key == manager.next_mr_key + 1
            &&& now.buffers == manager.buffers
        }),
{
    lemma_transfer_history(manager, op, steps);
}

// ---------------------------------------------------------------------------
// The history behind a state
// ---------------------------------------------------------------------------

/// What the state of a registration says of its history.
pub(crate) open spec fn registration_history(
    task: Task,
    steps: Seq<Step>,
    manager: Manager,
    addr: usize,
    size: usize,
    key: u64,
    registration: RegisterLocal,
) -> bool {
    &&& registration.domain == manager.domain
    &&& registration.endpoint == manager.endpoint
    &&& registration.addr == addr
    &&& registration.size == size
    &&& registration.key == key
    &&& match registration.phase {
        RegisterPhase::Classify => manager.domain.hmem_supported,
        RegisterPhase::Ordinal => {
            manager.domain.hmem_supported && happened(task, steps, was_classified(addr, true))
        },
        RegisterPhase::Register { hmem } => kind_is_known(task, steps, manager, addr, hmem),
        RegisterPhase::Done(_) => false,
    }
}

/// What the state of a resolution says of its history.
pub(crate) open spec fn resolution_history(
    task: Task,
    steps: Seq<Step>,
    manager: Manager,
    peer: String,
    resolution: ResolvePeer,
) -> bool {
    &&& resolution.peer == peer
    &&& resolution.domain == manager.domain
    &&& resolution.endpoint == manager.endpoint
    &&& !manager.peers.contains_key(peer@)
    &&& match resolution.phase {
        ResolvePhase::OwnName(query) => peer@ == manager.id@ && query.ep == manager.endpoint.ep,
        ResolvePhase::Exchange => peer@ != manager.id@,
        ResolvePhase::Insert(info) => names_peer(task, steps, manager, peer, info),
        ResolvePhase::Done(_) => false,
    }
}

spec fn transfer_history(manager: Manager, op: TransferOp, steps: Seq<Step>) -> bool {
    let task = manager.start_transfer(op);
    let now = run(task, steps);
    let region = |mr: OfiMr|
        happened(
            task,
            steps,
            was_registered(manager, op.local_addr, op.local_size, manager.next_mr_key, mr),
        ) && happened(
            task,
            steps,
            has_region(manager, op.local_addr, op.local_size, manager.next_mr_key, mr.mr),
        ) && happened(
            task,
            steps,
            has_desc(manager, op.local_addr, op.local_size, manager.next_mr_key, mr.local_desc),
        );
    let message_read = !manager.domain.rma_supported && op.op_type is ReadIntoLocal;
    let resolved = now.manager.peers.contains_key(op.remote_mgr@) && now.manager.peers
        == manager.peers.insert(op.remote_mgr@, now.manager.peers[op.remote_mgr@]) && reaches(
        task,
        steps,
        manager,
        op.remote_mgr,
        now.manager.peers[op.remote_mgr@],
    );
    &&& now.wf()
    &&& now.manager == (Manager {
        peers: now.manager.peers,
        next_mr_key: (manager.next_mr_key + 1) as u64,
        ..manager
    })
    &&& now.manager.peers == manager.peers || resolved
    &&& match now.job {
        Job::Transfer { op: same, phase } => same == op && match phase {
            TransferPhase::Register(registration) => {
                &&& now.manager.peers == manager.peers
                &&& registration_history(
                    task,
                    steps,
                    manager,
                    op.local_addr,
                    op.local_size,
                    manager.next_mr_key,
                    registration,
                )
            },
            TransferPhase::Resolve { mr, resolution } => {
                &&& region(mr)
                &&& now.manager.peers == manager.peers
                &&& resolution_history(task, steps, manager, op.remote_mgr, resolution)
            },
            TransferPhase::Pause { mr, peer } => region(mr) && resolved && message_read,
            TransferPhase::Recv { mr, peer, call } => {
                &&& region(mr)
                &&& resolved
                &&& call is Recv
                &&& right_call(
                    task,
                    steps,
                    manager,
                    op,
                    now.manager.peers[op.remote_mgr@],
                    call,
                )
            },
            TransferPhase::AskPeer { mr, peer } => region(mr) && resolved,
            TransferPhase::TellPeer { mr } => region(mr) && resolved && message_read,
            TransferPhase::Await { mr, wait } => {
                region(mr) && resolved && message_read && wait.cq == manager.domain.cq
            },
            TransferPhase::Post { mr, posting } => {
                &&& region(mr)
                &&& resolved
                &&& posting.cq == manager.domain.cq
                &&& posting.phase matches PostPhase::Poll(poll) ==> poll.cq == manager.domain.cq
                &&& !(posting.post is Recv)
                &&& right_call(
                    task,
                    steps,
                    manager,
                    op,
                    now.manager.peers[op.remote_mgr@],
                    posting.post,
                )
            },
            TransferPhase::Poll { mr, poll } => {
                region(mr) && message_read && poll.cq == manager.domain.cq
            },
            TransferPhase::Resume { mr, result } => region(mr),
            TransferPhase::Close { mr, result } => region(mr),
        },
        Job::Finished(Outcome::Executed(_)) => true,
        _ => false,
    }
}

proof fn lemma_transfer_history(manager: Manager, op: TransferOp, steps: Seq<Step>)
    requires
        manager.wf(),
        manager.next_mr_key < u64::MAX,
        answered(manager.start_transfer(op), steps),
    ensures
        transfer_history(manager, op, steps),
    decreases steps.len(),
{
    let task = manager.start_transfer(op);
    manager.lemma_same_resources(manager.use_key().next_mr_key, manager.peers);
    assert(task.wf());
    law_run_wf(task, steps);
    if steps.len() > 0 {
        let before = steps.drop_last();
        lemma_transfer_history(manager, op, before);
    }
}

} // verus!
