//! The calls that the state machines of this crate ask for, and the answers
//! they are fed.
//!
//! A machine never touches libfabric, the clock or another actor. It names one
//! [`Effect`] at a time, its driver performs it, and the [`Reply`] moves the
//! machine on. Pointers travel as plain addresses, with zero for null.

use crate::messages::{OfiManagerLocalMessage, OfiManagerMessage};
use crate::ops::{LocalMemory, OfiBuffer};
use crate::primitives::OfiEndpointInfo;
use vstd::multiset::Multiset;
use vstd::prelude::*;

verus! {

/// Magnitude of the code that libfabric returns when a call should be retried.
pub const FI_EAGAIN: i64 = 11;

/// The code for success of the CUDA driver.
pub const CUDA_SUCCESS: u32 = 0;

/// What a provider is asked for in `fi_getinfo`.
#[derive(Debug, PartialEq, Eq)]
pub struct InfoRequest {
    /// Reliable datagram endpoint (`FI_EP_RDM`).
    pub rdm: bool,
    /// Remote memory access (`FI_RMA`).
    pub rma: bool,
    /// Messaging (`FI_MSG`).
    pub msg: bool,
    /// Device memory (`FI_HMEM`).
    pub hmem: bool,
    /// The deprecated local registration mode (`FI_LOCAL_MR`).
    pub local_mr: bool,
    /// Provider name, or any provider.
    pub provider: Option<String>,
}

/// Rights requested for a memory region.
#[derive(Debug, Clone, Copy, PartialEq, Eq)]
pub struct MrAccess {
    pub remote_read: bool,
    pub remote_write: bool,
    pub read: bool,
    pub write: bool,
}

/// Kind of memory that a region covers.
#[derive(Debug, Clone, Copy, PartialEq, Eq)]
pub enum HmemIface {
    /// Host memory (`FI_HMEM_SYSTEM`).
    System,
    /// CUDA device memory (`FI_HMEM_CUDA`).
    Cuda,
}

/// A memory registration call, at offset zero and without flags.
#[derive(Debug, Clone, Copy, PartialEq, Eq)]
pub struct Registration {
    pub domain: usize,
    pub addr: usize,
    pub size: usize,
    pub access: MrAccess,
    /// The key that is asked for.
    pub key: u64,
    /// The kind of memory and its device, for `fi_mr_regattr`; none for `fi_mr_reg`.
    pub hmem: Option<(HmemIface, i32)>,
}

/// The answer to a registration: its code, and the region with its key and descriptor.
#[derive(Debug, Clone, Copy, PartialEq, Eq)]
pub struct Region {
    pub ret: i32,
    pub mr: usize,
    pub rkey: u64,
    pub desc: usize,
}

/// A data transfer call.
#[derive(Debug, Clone, Copy, PartialEq, Eq)]
pub enum PostCall {
    /// `fi_write`: local memory to remote memory.
    Write {
        ep: usize,
        buf: u64,
        len: usize,
        desc: usize,
        peer: u64,
        remote_addr: u64,
        remote_key: u64,
        context: usize,
    },
    /// `fi_read`: remote memory to local memory.
    Read {
        ep: usize,
        buf: u64,
        len: usize,
        desc: usize,
        peer: u64,
        remote_addr: u64,
        remote_key: u64,
        context: usize,
    },
    /// `fi_send`: a message to the peer.
    Send { ep: usize, buf: u64, len: usize, desc: usize, peer: u64, context: usize },
    /// `fi_recv`: a buffer for the peer's next message.
    Recv { ep: usize, buf: u64, len: usize, desc: usize, peer: u64, context: usize },
}

/// Which data transfer call it is.
#[derive(Debug, Clone, Copy, PartialEq, Eq)]
pub enum PostOp {
    Write,
    Read,
    Send,
    Recv,
}

impl PostCall {
    /// The operation of this call.
    pub open spec fn op(self) -> PostOp {
        match self {
            PostCall::Write { .. } => PostOp::Write,
            PostCall::Read { .. } => PostOp::Read,
            PostCall::Send { .. } => PostOp::Send,
            PostCall::Recv { .. } => PostOp::Recv,
        }
    }

    /// Returns the operation of this call.
    pub fn operation(&self) -> (op: PostOp)
        ensures
            op == self.op(),
    {
        match self {
            PostCall::Write { .. } => PostOp::Write,
            PostCall::Read { .. } => PostOp::Read,
            PostCall::Send { .. } => PostOp::Send,
            PostCall::Recv { .. } => PostOp::Recv,
        }
    }
}

/// One call into libfabric.
#[derive(Debug, PartialEq, Eq)]
pub enum FabricCall<'a> {
    /// `fi_version`.
    Version,
    /// `fi_strerror`.
    StrError { code: i32 },
    /// `fi_dupinfo`.
    DupInfo { info: usize },
    /// `fi_getinfo` at the library's own version, for no node and no service and
    /// without flags, with the hints filled in as requested.
    GetInfo { hints: usize, request: InfoRequest },
    /// `fi_freeinfo`.
    FreeInfo { info: usize },
    /// `fi_fabric` on the fabric attributes of `info`.
    OpenFabric { info: usize },
    /// `fi_domain`.
    OpenDomain { fabric: usize, info: usize },
    /// `fi_av_open` with an unspecified table type.
    OpenAv { domain: usize },
    /// `fi_cq_open` for `size` entries in the data format.
    OpenCq { domain: usize, size: usize },
    /// `fi_endpoint`.
    OpenEndpoint { domain: usize, info: usize },
    /// `fi_ep_bind`, with the completions that the binding reports.
    BindEndpoint { ep: usize, fid: usize, transmit: bool, recv: bool },
    /// `fi_enable`.
    EnableEndpoint { ep: usize },
    /// `fi_close`.
    Close { fid: usize },
    /// `fi_getname` into a buffer of `capacity` bytes (null for none).
    GetName { ep: usize, capacity: usize },
    /// `fi_av_insert` of this one address.
    AvInsert { av: usize, peer: &'a OfiEndpointInfo },
    /// A memory registration, then `fi_mr_key` and `fi_mr_desc` of the region.
    Register(Registration),
    /// A data transfer.
    Post(PostCall),
    /// `fi_cq_read` of at most one entry.
    ReadCq { cq: usize },
    /// `fi_cq_readerr`.
    ReadCqError { cq: usize },
}

/// What a machine asks its driver to do next.
#[derive(Debug, PartialEq, Eq)]
pub enum Effect<'a> {
    /// Call libfabric.
    Call(FabricCall<'a>),
    /// Ask whether the address lies in device memory.
    IsDevicePointer { addr: usize },
    /// Ask the CUDA driver for the device that owns the address.
    DeviceOrdinal { addr: usize },
    /// Keep the background thread from reading completions.
    PauseProgress,
    /// Let the background thread read completions again.
    ResumeProgress,
    /// Start the background thread on this queue.
    SpawnProgress { cq: usize },
    /// Tell the background thread to end, and wait until it has.
    StopProgress,
    /// Let other work run.
    Yield,
    /// Send a message to another manager and wait for its answer.
    Ask { peer: &'a String, message: OfiManagerMessage },
    /// Send a message to another manager and do not wait for its answer.
    Tell { peer: &'a String, message: OfiManagerMessage },
    /// Take the answer to the message that was sent last, if it has arrived.
    TakeAnswer,
    /// Ask the owning actor for the memory behind a buffer.
    RequestLocalMemory { owner: &'a String, remote_buf_id: usize },
    /// Ask the process's RDMA manager for its manager of this transport.
    FindManager,
    /// Look the manager up in this process.
    Downcast { manager: &'a String },
    /// Resolve a remote buffer to its manager and its description.
    ResolveRemote { remote_buf_id: usize },
    /// Send a message to the manager of this process and wait for its answer.
    AskLocal { manager: &'a String, message: OfiManagerLocalMessage },
    /// Nothing: the machine has its result.
    Finished,
}

/// The answer to an [`Effect`].
#[derive(Debug, PartialEq, Eq)]
pub enum Reply {
    /// The return code of a call.
    Code(i64),
    /// The return code and the object of a call that opens one.
    Handle { ret: i32, handle: usize },
    /// The return code of `fi_getinfo`, the list it made, and whether its first
    /// provider has remote memory access.
    Info { ret: i32, info: usize, rma: bool },
    /// The return code of `fi_getname`, the address it stored and the length it reported.
    Name { ret: i32, addr: Vec<u8>, addr_len: usize },
    /// The return code of `fi_av_insert` and the address it assigned.
    Address { ret: i32, fi_addr: u64 },
    /// The version of the library.
    Version(u32),
    /// The words for an error code, if there are any.
    Text(Option<String>),
    /// The answer to a registration.
    Region(Region),
    /// The entry that `fi_cq_readerr` filled in.
    CqError { err: i32, prov_errno: i32 },
    /// The answer to [`Effect::IsDevicePointer`].
    DevicePointer(bool),
    /// The driver's code and the ordinal that it stored.
    Ordinal { err: u32, ordinal: i32 },
    /// A peer's endpoint address, or why the message got no answer.
    Endpoint(Result<OfiEndpointInfo, String>),
    /// A peer's verdict, or why the message got no answer.
    Answer(Result<Result<(), String>, String>),
    /// The answer of a peer has not arrived yet.
    Pending,
    /// The memory behind a buffer, if there is any, or why the message got no answer.
    Memory(Result<Option<LocalMemory>, String>),
    /// The manager that was found, if there is one, or why the message got no answer.
    Manager(Result<Option<String>, String>),
    /// Whether the manager lives in this process.
    Local(bool),
    /// A remote buffer's manager and description, or why they could not be
    /// had; none where the buffer is not reachable by this transport.
    Remote(Option<Result<(String, OfiBuffer), String>>),
    /// Done, with nothing to report.
    Done,
}

/// Whether `reply` is an answer that `effect` can have.
///
/// An object that was opened successfully is not null, and `fi_getname` hands
/// back no more than the capacity that it was given. Where it filled a buffer,
/// that is the address as long as it was reported to be; a call without a
/// buffer only reports the length.
pub open spec fn answers(effect: Effect<'_>, reply: Reply) -> bool {
    match effect {
        Effect::Call(call) => match call {
            FabricCall::Version => reply is Version,
            FabricCall::StrError { .. } => reply is Text,
            FabricCall::DupInfo { .. } => reply is Handle,
            FabricCall::GetInfo { .. } => reply is Info,
            FabricCall::FreeInfo { .. } => reply is Done,
            FabricCall::OpenFabric { .. } => opened(reply),
            FabricCall::OpenDomain { .. } => opened(reply),
            FabricCall::OpenAv { .. } => opened(reply),
            FabricCall::OpenCq { .. } => opened(reply),
            FabricCall::OpenEndpoint { .. } => opened(reply),
            FabricCall::BindEndpoint { .. } => reply is Code,
            FabricCall::EnableEndpoint { .. } => reply is Code,
            FabricCall::Close { .. } => reply is Done,
            FabricCall::GetName { ep, capacity } => match reply {
                Reply::Name { ret, addr, addr_len } => {
                    &&& addr@.len() <= capacity
                    &&& ret == 0 && capacity > 0 ==> addr@.len() == addr_len
                },
                _ => false,
            },
            FabricCall::AvInsert { .. } => reply is Address,
            FabricCall::Register(_) => registered(reply),
            FabricCall::Post(_) => reply is Code,
            FabricCall::ReadCq { .. } => reply is Code,
            FabricCall::ReadCqError { .. } => reply is CqError,
        },
        Effect::IsDevicePointer { .. } => reply is DevicePointer,
        Effect::DeviceOrdinal { .. } => reply is Ordinal,
        Effect::PauseProgress => reply is Done,
        Effect::ResumeProgress => reply is Done,
        Effect::SpawnProgress { .. } => reply is Done,
        Effect::StopProgress => reply is Done,
        Effect::Yield => reply is Done,
        Effect::Ask { peer, message } => match message {
            OfiManagerMessage::GetEndpointAddr => reply is Endpoint,
            OfiManagerMessage::PostRecv { .. } => reply is Answer,
            _ => false,
        },
        Effect::Tell { peer, message } => message is SendFromBuffer && reply is Done,
        Effect::TakeAnswer => reply is Answer || reply is Pending,
        Effect::RequestLocalMemory { .. } => reply is Memory,
        Effect::FindManager => reply is Manager,
        Effect::Downcast { .. } => reply is Local,
        Effect::ResolveRemote { .. } => reply is Remote,
        Effect::AskLocal { .. } => reply is Answer,
        Effect::Finished => false,
    }
}

/// An answer of a call that opens an object.
pub open spec fn opened(reply: Reply) -> bool {
    match reply {
        Reply::Handle { ret, handle } => ret == 0 ==> handle != 0,
        _ => false,
    }
}

/// An answer of a registration.
pub open spec fn registered(reply: Reply) -> bool {
    match reply {
        Reply::Region(region) => region.ret == 0 ==> region.mr != 0,
        _ => false,
    }
}

/// Returns whether `reply` is an answer that `effect` can have.
pub fn is_answer(effect: &Effect<'_>, reply: &Reply) -> (yes: bool)
    ensures
        yes == answers(*effect, *reply),
{
    match effect {
        Effect::Call(call) => match call {
            FabricCall::Version => matches!(reply, Reply::Version(_)),
            FabricCall::StrError { .. } => matches!(reply, Reply::Text(_)),
            FabricCall::DupInfo { .. } => matches!(reply, Reply::Handle { .. }),
            FabricCall::GetInfo { .. } => matches!(reply, Reply::Info { .. }),
            FabricCall::FreeInfo { .. } => matches!(reply, Reply::Done),
            FabricCall::OpenFabric { .. } => is_opened(reply),
            FabricCall::OpenDomain { .. } => is_opened(reply),
            FabricCall::OpenAv { .. } => is_opened(reply),
            FabricCall::OpenCq { .. } => is_opened(reply),
            FabricCall::OpenEndpoint { .. } => is_opened(reply),
            FabricCall::BindEndpoint { .. } => matches!(reply, Reply::Code(_)),
            FabricCall::EnableEndpoint { .. } => matches!(reply, Reply::Code(_)),
            FabricCall::Close { .. } => matches!(reply, Reply::Done),
            FabricCall::GetName { ep: _, capacity } => match reply {
                Reply::Name { ret, addr, addr_len } => {
                    addr.len() <= *capacity && (*ret != 0 || *capacity == 0 || addr.len()
                        == *addr_len)
                },
                _ => false,
            },
            FabricCall::AvInsert { .. } => matches!(reply, Reply::Address { .. }),
            FabricCall::Register(_) => is_registered(reply),
            FabricCall::Post(_) => matches!(reply, Reply::Code(_)),
            FabricCall::ReadCq { .. } => matches!(reply, Reply::Code(_)),
            FabricCall::ReadCqError { .. } => matches!(reply, Reply::CqError { .. }),
        },
        Effect::IsDevicePointer { .. } => matches!(reply, Reply::DevicePointer(_)),
        Effect::DeviceOrdinal { .. } => matches!(reply, Reply::Ordinal { .. }),
        Effect::PauseProgress => matches!(reply, Reply::Done),
        Effect::ResumeProgress => matches!(reply, Reply::Done),
        Effect::SpawnProgress { .. } => matches!(reply, Reply::Done),
        Effect::StopProgress => matches!(reply, Reply::Done),
        Effect::Yield => matches!(reply, Reply::Done),
        Effect::Ask { peer: _, message } => match message {
            OfiManagerMessage::GetEndpointAddr => matches!(reply, Reply::Endpoint(_)),
            OfiManagerMessage::PostRecv { .. } => matches!(reply, Reply::Answer(_)),
            _ => false,
        },
        Effect::Tell { peer: _, message } => {
            matches!(message, OfiManagerMessage::SendFromBuffer { .. }) && matches!(
                reply,
                Reply::Done
            )
        },
        Effect::TakeAnswer => {
            matches!(reply, Reply::Answer(_)) || matches!(reply, Reply::Pending)
        },
        Effect::RequestLocalMemory { .. } => matches!(reply, Reply::Memory(_)),
        Effect::FindManager => matches!(reply, Reply::Manager(_)),
        Effect::Downcast { .. } => matches!(reply, Reply::Local(_)),
        Effect::ResolveRemote { .. } => matches!(reply, Reply::Remote(_)),
        Effect::AskLocal { .. } => matches!(reply, Reply::Answer(_)),
        Effect::Finished => false,
    }
}

fn is_opened(reply: &Reply) -> (yes: bool)
    ensures
        yes == opened(*reply),
{
    match reply {
        Reply::Handle { ret, handle } => *ret != 0 || *handle != 0,
        _ => false,
    }
}

fn is_registered(reply: &Reply) -> (yes: bool)
    ensures
        yes == registered(*reply),
{
    match reply {
        Reply::Region(region) => region.ret != 0 || region.mr != 0,
        _ => false,
    }
}

/// The call that allocates an empty list of hints: a copy of nothing. What it
/// returns is given back by `fi_freeinfo`.
pub fn fi_allocinfo() -> (call: FabricCall<'static>)
    ensures
        call == (FabricCall::DupInfo { info: 0 }),
{
    FabricCall::DupInfo { info: 0 }
}

/// The call that reports the version of the library.
pub fn version() -> (call: FabricCall<'static>)
    ensures
        call == FabricCall::Version,
{
    FabricCall::Version
}

/// Something that libfabric keeps until it is given back.
pub enum Resource {
    /// A list of providers, given back by `fi_freeinfo`.
    Info(usize),
    /// An object, given back by `fi_close`.
    Fid(usize),
}

/// The resources that are out after `effect` was answered by `reply`, where
/// those in `held` were out before.
pub open spec fn ledger(
    held: Multiset<Resource>,
    effect: Effect<'_>,
    reply: Reply,
) -> Multiset<Resource> {
    match effect {
        Effect::Call(call) => match (call, reply) {
            (FabricCall::DupInfo { .. }, Reply::Handle { ret, handle }) => {
                if handle != 0 {
                    held.insert(Resource::Info(handle))
                } else {
                    held
                }
            },
            (FabricCall::GetInfo { .. }, Reply::Info { ret, info, rma }) => {
                if ret == 0 && info != 0 {
                    held.insert(Resource::Info(info))
                } else {
                    held
                }
            },
            (FabricCall::FreeInfo { info }, _) => held.remove(Resource::Info(info)),
            (FabricCall::Close { fid }, _) => held.remove(Resource::Fid(fid)),
            (_, Reply::Handle { ret, handle }) => {
                if ret == 0 {
                    held.insert(Resource::Fid(handle))
                } else {
                    held
                }
            },
            (_, Reply::Region(region)) => {
                if region.ret == 0 {
                    held.insert(Resource::Fid(region.mr))
                } else {
                    held
                }
            },
            _ => held,
        },
        _ => held,
    }
}

/// What the effect gives back to libfabric, if anything.
pub open spec fn gives_back(effect: Effect<'_>) -> Option<Resource> {
    match effect {
        Effect::Call(FabricCall::FreeInfo { info }) => Some(Resource::Info(info)),
        Effect::Call(FabricCall::Close { fid }) => Some(Resource::Fid(fid)),
        _ => None,
    }
}

/// An object behind a handle, or nothing behind the null handle.
pub open spec fn object(handle: usize) -> Multiset<Resource> {
    if handle == 0 {
        Multiset::empty()
    } else {
        Multiset::singleton(Resource::Fid(handle))
    }
}

/// A list of providers behind a handle, or nothing behind the null handle.
pub open spec fn info_list(handle: usize) -> Multiset<Resource> {
    if handle == 0 {
        Multiset::empty()
    } else {
        Multiset::singleton(Resource::Info(handle))
    }
}

/// How often the background thread is paused after `effect`, where it was
/// paused `before` times before it.
pub open spec fn pauses(before: int, effect: Effect<'_>) -> int {
    match effect {
        Effect::PauseProgress => before + 1,
        Effect::ResumeProgress => before - 1,
        _ => before,
    }
}

/// Whether the effect takes an entry off a completion queue.
pub open spec fn reads_completions(effect: Effect<'_>) -> bool {
    match effect {
        Effect::Call(call) => call is ReadCq || call is ReadCqError,
        _ => false,
    }
}

} // verus!
