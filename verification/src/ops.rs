//! Buffers and operations of the OFI transport.

use vstd::prelude::*;

verus! {

/// Direction of a transfer, seen from the manager that runs it.
#[derive(Debug, Clone, Copy, PartialEq, Eq)]
pub enum RdmaOpType {
    /// Fetch the remote buffer into local memory.
    ReadIntoLocal,
    /// Store local memory into the remote buffer.
    WriteFromLocal,
}

/// How far up the hardware a backend's transfers reach.
#[derive(Debug, Clone, Copy, PartialEq, Eq)]
pub enum RdmaTransportLevel {
    /// Ordinary sockets.
    Tcp,
    /// The network card moves the data.
    Nic,
}

/// A stretch of memory of this process.
#[derive(Debug, Clone, Copy, PartialEq, Eq)]
pub struct LocalMemory {
    /// Virtual address of the first byte.
    pub addr: usize,
    /// Length in bytes.
    pub size: usize,
}

/// Description of a remote buffer registered with libfabric.
#[derive(Debug, Clone, Copy, PartialEq, Eq)]
pub struct OfiBuffer {
    /// Remote memory region key.
    pub rkey: u64,
    /// Remote virtual address of the registered buffer.
    pub addr: u64,
    /// Size of the buffer in bytes.
    pub size: usize,
}

/// A transfer that a client asks for.
#[derive(Debug, Clone, Copy, PartialEq, Eq)]
pub struct RdmaOp {
    pub op_type: RdmaOpType,
    pub local: LocalMemory,
    /// Id of the remote buffer.
    pub remote: usize,
}

/// A single transfer between local memory and a peer's buffer.
#[derive(Debug, PartialEq, Eq)]
pub struct OfiOp {
    pub op_type: RdmaOpType,
    pub local_memory: LocalMemory,
    pub remote_buffer: OfiBuffer,
    /// Actor id of the manager that owns the remote buffer.
    pub remote_manager: String,
}

} // verus!
