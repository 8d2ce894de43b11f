//! What transfers do to memory.
//!
//! Here a data call is read as what libfabric documents it to do once it has
//! completed: it copies bytes between the memory of the caller and that of
//! the peer. The laws say which bytes the calls of a transfer copy.

use crate::effect::{Effect, FabricCall, PostCall};
use crate::endpoint::OfiMr;
use crate::laws::{law_manager_frame, law_transfer_moves_what_was_asked};
use crate::machine::{answered, law_run_wf, run, Machine, Step};
use crate::manager_actor::Manager;
use crate::ops::RdmaOpType;
use crate::task::{peer_fits, post_fits, recv_fits, rma_call, PeerRequest, TransferOp};
use vstd::prelude::*;

verus! {

/// The memory of a process: the byte at each address.
pub type Bytes = spec_fn(int) -> u8;

/// The memory `into` after `len` bytes from address `from` of `source` were
/// copied to its address `to`.
pub open spec fn copied(source: Bytes, from: int, into: Bytes, to: int, len: int) -> Bytes {
    |addr: int|
        if to <= addr < to + len {
            source(from + (addr - to))
        } else {
            into(addr)
        }
}

/// The memories of the caller and of the peer after a remote memory access.
pub open spec fn accessed(local: Bytes, remote: Bytes, call: PostCall) -> (Bytes, Bytes) {
    match call {
        PostCall::Write { ep, buf, len, desc, peer, remote_addr, remote_key, context } => (
            local,
            copied(local, buf as int, remote, remote_addr as int, len as int),
        ),
        PostCall::Read { ep, buf, len, desc, peer, remote_addr, remote_key, context } => (
            copied(remote, remote_addr as int, local, buf as int, len as int),
            remote,
        ),
        _ => (local, remote),
    }
}

/// The memory of the receiver after a message that fits into its receive.
pub open spec fn received(
    sender: Bytes,
    send: PostCall,
    receiver: Bytes,
    recv: PostCall,
) -> Bytes {
    match (send, recv) {
        (
            PostCall::Send { ep: _, buf: from, len, desc: _, peer: _, context: _ },
            PostCall::Recv { ep: _, buf: to, len: room, desc: _, peer: _, context: _ },
        ) => if len <= room {
            copied(sender, from as int, receiver, to as int, len as int)
        } else {
            receiver
        },
        _ => receiver,
    }
}

/// With remote memory access, the call of a write copies the local memory to
/// the remote buffer, that of a read the remote buffer to the local memory,
/// and neither touches anything else.
pub proof fn law_remote_access_moves_the_data(
    manager: Manager,
    op: TransferOp,
    steps: Seq<Step>,
    call: PostCall,
    local: Bytes,
    remote: Bytes,
)
    requires
        manager.wf(),
        manager.next_mr_key < u64::MAX,
        manager.domain.rma_supported,
        answered(manager.start_transfer(op), steps),
        run(manager.start_transfer(op), steps).pending() == Effect::Call(FabricCall::Post(call)),
    ensures
        accessed(local, remote, call) == match op.op_type {
            RdmaOpType::WriteFromLocal => (
                local,
                copied(
                    local,
                    op.local_addr as int,
                    remote,
                    op.remote_buf.addr as int,
                    op.local_size as int,
                ),
            ),
            RdmaOpType::ReadIntoLocal => (
                copied(
                    remote,
                    op.remote_buf.addr as int,
                    local,
                    op.local_addr as int,
                    op.local_size as int,
                ),
                remote,
            ),
        },
{
    let task = manager.start_transfer(op);
    manager.lemma_same_resources(manager.use_key().next_mr_key, manager.peers);
    assert(task.wf());
    law_run_wf(task, steps);
    law_manager_frame(task, steps);
    law_transfer_moves_what_was_asked(manager, op, steps);
}

/// A read gives back what a write of the same size to the same buffer stored.
pub proof fn law_read_returns_what_was_written(
    writer: Manager,
    write: TransferOp,
    reader: Manager,
    read: TransferOp,
    regions: (OfiMr, OfiMr),
    peers: (u64, u64),
    source: Bytes,
    remote: Bytes,
    destination: Bytes,
)
    requires
        write.op_type is WriteFromLocal,
        read.op_type is ReadIntoLocal,
        read.remote_buf == write.remote_buf,
        read.local_size == write.local_size,
    ensures
        ({
            let stored = accessed(
                source,
                remote,
                rma_call(writer, write, regions.0, peers.0),
            ).1;
            let fetched = accessed(
                destination,
                stored,
                rma_call(reader, read, regions.1, peers.1),
            ).0;
            forall|addr: int|
                read.local_addr <= addr < read.local_addr + read.local_size
                    ==> #[trigger] fetched(addr) == source(
                    write.local_addr + (addr - read.local_addr),
                )
        }),
{
}

/// By messages, a manager that transfers to or from its own buffer copies the
/// local memory to the buffer, or the buffer to the local memory.
pub proof fn law_loopback_message_moves_the_data(
    manager: Manager,
    op: TransferOp,
    mr: OfiMr,
    recv: PostCall,
    send: PostCall,
    memory: Bytes,
)
    requires
        manager.is_self(op.remote_mgr@),
        manager.lookup(op.remote_buf_id) is Some,
        recv_fits(manager, op, mr, recv),
        post_fits(manager, op, mr, send),
    ensures
        manager.lookup(op.remote_buf_id) matches Some((_, buf)) && received(
            memory,
            send,
            memory,
            recv,
        ) == match op.op_type {
            RdmaOpType::WriteFromLocal => copied(
                memory,
                op.local_addr as int,
                memory,
                buf.addr as int,
                op.local_size as int,
            ),
            RdmaOpType::ReadIntoLocal => copied(
                memory,
                buf.addr as int,
                memory,
                op.local_addr as int,
                op.local_size as int,
            ),
        },
{
}

/// By messages, a write to another manager copies the local memory to the
/// buffer: the peer's receive, posted as it was asked to, takes all of what
/// this manager sends.
pub proof fn law_message_write_moves_the_data(
    manager: Manager,
    op: TransferOp,
    send: PostCall,
    peer: Manager,
    recv: PostCall,
    local: Bytes,
    remote: Bytes,
)
    requires
        !manager.domain.rma_supported,
        op.op_type is WriteFromLocal,
        exists|mr| #[trigger] post_fits(manager, op, mr, send),
        recv is Recv,
        peer_fits(peer, op.remote_buf_id, op.local_size, PeerRequest::PostRecv, recv),
        peer.lookup(op.remote_buf_id) matches Some((mr, buf)) && op.local_size <= buf.size,
    ensures
        peer.lookup(op.remote_buf_id) matches Some((mr, buf)) && received(
            local,
            send,
            remote,
            recv,
        ) == copied(
            local,
            op.local_addr as int,
            remote,
            buf.addr as int,
            op.local_size as int,
        ),
{
}

/// By messages, a read from another manager copies the buffer to the local
/// memory: what the peer sends on request fits into the receive that this
/// manager posted.
pub proof fn law_message_read_moves_the_data(
    manager: Manager,
    op: TransferOp,
    recv: PostCall,
    peer: Manager,
    timeout_ms: u64,
    send: PostCall,
    local: Bytes,
    remote: Bytes,
)
    requires
        op.op_type is ReadIntoLocal,
        exists|mr| #[trigger] recv_fits(manager, op, mr, recv),
        send is Send,
        peer_fits(
            peer,
            op.remote_buf_id,
            op.local_size,
            PeerRequest::SendFromBuffer { timeout_ms },
            send,
        ),
    ensures
        peer.lookup(op.remote_buf_id) matches Some((mr, buf)) && received(
            remote,
            send,
            local,
            recv,
        ) == copied(
            remote,
            buf.addr as int,
            local,
            op.local_addr as int,
            if op.local_size <= buf.size {
                op.local_size as int
            } else {
                buf.size as int
            },
        ),
{
}

} // verus!
