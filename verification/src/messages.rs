//! Messages that managers exchange.

use crate::ops::{OfiBuffer, RdmaOpType};
use vstd::prelude::*;

verus! {

/// Messages that a manager handles for remote actors.
#[derive(Debug, PartialEq, Eq)]
pub enum OfiManagerMessage {
    /// Register a buffer and return its remote-accessible description.
    RequestBuffer { remote_buf_id: usize },
    /// Release a buffer registration; no answer is expected.
    ReleaseBuffer { remote_buf_id: usize },
    /// Return the endpoint's address for peer exchange.
    GetEndpointAddr,
    /// Post a receive into a registered buffer, for the sender's data.
    PostRecv { buf_id: usize, size: usize, sender: String, timeout_ms: u64 },
    /// Send the data of a registered buffer to `dest`.
    SendFromBuffer { buf_id: usize, size: usize, dest: String, timeout_ms: u64 },
}

/// Messages that a manager handles only for actors of its own process.
#[derive(Debug, PartialEq, Eq)]
pub enum OfiManagerLocalMessage {
    /// Run one transfer through the endpoint.
    ExecuteOp {
        op_type: RdmaOpType,
        local_addr: usize,
        local_size: usize,
        remote_ofi_mgr: String,
        remote_buffer: OfiBuffer,
        remote_buf_id: usize,
        timeout_ms: u64,
    },
}

} // verus!
