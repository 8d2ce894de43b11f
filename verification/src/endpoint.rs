//! Endpoints: create, bind and enable them, register memory, move data.

use crate::completion::{PollCq, MAX_TIMEOUT_NS};
use crate::domain::OfiDomain;
use crate::effect::{
    answers, object, Effect, FabricCall, HmemIface, MrAccess, PostCall, PostOp, Region,
    Registration, Reply, Resource,
};
use crate::error::OfiError;
use crate::machine::Machine;
use crate::primitives::OfiEndpointInfo;
use vstd::multiset::Multiset;
use vstd::prelude::*;

verus! {

/// An enabled endpoint, bound to the address vector and the completion queue
/// of a domain.
#[derive(Debug, Clone, Copy, PartialEq, Eq)]
pub struct OfiEndpoint {
    pub ep: usize,
}

/// A registered memory region.
#[derive(Debug, Clone, Copy, PartialEq, Eq)]
pub struct OfiMr {
    pub mr: usize,
    /// Key by which peers name the region.
    pub rkey: u64,
    /// What [`OfiMr::desc`] returns.
    pub local_desc: usize,
}

impl OfiMr {
    /// Returns the local descriptor for use in data transfer operations.
    pub fn desc(&self) -> (desc: usize)
        ensures
            desc == self.local_desc,
    {
        self.local_desc
    }

    /// The call that gives the region back, unless its handle is null.
    pub fn release(&self) -> (call: Option<FabricCall<'static>>)
        ensures
            call == if self.mr != 0 {
                Some(FabricCall::Close { fid: self.mr })
            } else {
                None
            },
    {
        if self.mr != 0 {
            Some(FabricCall::Close { fid: self.mr })
        } else {
            None
        }
    }
}

/// The rights that every registration asks for.
pub open spec fn full_access() -> MrAccess {
    MrAccess { remote_read: true, remote_write: true, read: true, write: true }
}

/// What a registration came to.
pub open spec fn region_result(attr: bool, region: Region) -> Result<OfiMr, OfiError> {
    if region.ret != 0 {
        Err(
            if attr {
                OfiError::RegisterAttr { ret: region.ret }
            } else {
                OfiError::Register { ret: region.ret }
            },
        )
    } else {
        Ok(OfiMr { mr: region.mr, rkey: region.rkey, local_desc: region.desc })
    }
}

/// Returns what a registration came to: `attr` tells which function was called.
pub fn registered_mr(attr: bool, region: Region) -> (result: Result<OfiMr, OfiError>)
    ensures
        result == region_result(attr, region),
{
    if region.ret != 0 {
        Err(
            if attr {
                OfiError::RegisterAttr { ret: region.ret }
            } else {
                OfiError::Register { ret: region.ret }
            },
        )
    } else {
        Ok(OfiMr { mr: region.mr, rkey: region.rkey, local_desc: region.desc })
    }
}

/// What an insertion into the address vector came to: it has to insert one address.
pub open spec fn insert_result(ret: i32, fi_addr: u64) -> Result<u64, OfiError> {
    if ret != 1 {
        Err(OfiError::AvInsert { ret })
    } else {
        Ok(fi_addr)
    }
}

/// Returns what an insertion into the address vector came to.
pub fn inserted_addr(ret: i32, fi_addr: u64) -> (result: Result<u64, OfiError>)
    ensures
        result == insert_result(ret, fi_addr),
{
    if ret != 1 {
        Err(OfiError::AvInsert { ret })
    } else {
        Ok(fi_addr)
    }
}

/// What a single try at a data transfer came to.
pub open spec fn post_result(op: PostOp, ret: i64) -> Result<(), OfiError> {
    if ret != 0 {
        Err(OfiError::Post { op, ret })
    } else {
        Ok(())
    }
}

/// Returns what a single try at a data transfer came to.
pub fn posted(op: PostOp, ret: i64) -> (result: Result<(), OfiError>)
    ensures
        result == post_result(op, ret),
{
    if ret != 0 {
        Err(OfiError::Post { op, ret })
    } else {
        Ok(())
    }
}

impl OfiEndpoint {
    /// Begins to create an endpoint on the domain: it is bound to the address
    /// vector, and to the completion queue for sends and receives, and enabled.
    pub fn new(domain: &OfiDomain) -> (setup: EndpointSetup)
        ensures
            setup == EndpointSetup::starting(*domain),
            setup.wf(),
    {
        EndpointSetup { domain: *domain, phase: EndpointPhase::Open }
    }

    /// Begins to ask for the address that peers reach this endpoint by.
    pub fn get_name(&self) -> (query: NameQuery)
        ensures
            query == NameQuery::starting(self.ep),
    {
        NameQuery { ep: self.ep, phase: NamePhase::Size }
    }

    /// The call that inserts a peer's address into the domain's address vector.
    /// [`inserted_addr`] tells what its answer means.
    pub fn av_insert<'a>(&self, domain: &OfiDomain, peer: &'a OfiEndpointInfo) -> (call: FabricCall<
        'a,
    >)
        ensures
            call == (FabricCall::AvInsert { av: domain.av, peer }),
    {
        FabricCall::AvInsert { av: domain.av, peer }
    }

    /// The call that registers host memory for local and remote access.
    /// [`registered_mr`] tells what its answer means.
    pub fn register_mr(&self, domain: &OfiDomain, addr: usize, size: usize, key: u64) -> (call:
        Registration)
        ensures
            call == (Registration {
                domain: domain.domain,
                addr,
                size,
                access: full_access(),
                key,
                hmem: None,
            }),
    {
        Registration {
            domain: domain.domain,
            addr,
            size,
            access: MrAccess { remote_read: true, remote_write: true, read: true, write: true },
            key,
            hmem: None,
        }
    }

    /// The call that registers memory of the given kind on a domain with device
    /// memory support.
    pub fn register_mr_hmem(
        &self,
        domain: &OfiDomain,
        addr: usize,
        size: usize,
        key: u64,
        iface: HmemIface,
        device: i32,
    ) -> (call: Registration)
        ensures
            call == (Registration {
                domain: domain.domain,
                addr,
                size,
                access: full_access(),
                key,
                hmem: Some((iface, device)),
            }),
    {
        Registration {
            domain: domain.domain,
            addr,
            size,
            access: MrAccess { remote_read: true, remote_write: true, read: true, write: true },
            key,
            hmem: Some((iface, device)),
        }
    }

    /// The call that writes local memory to the peer's.
    pub fn write(
        &self,
        local_addr: u64,
        local_len: usize,
        local_mr_desc: usize,
        remote_addr: u64,
        remote_key: u64,
        peer: u64,
        context: usize,
    ) -> (call: PostCall)
        ensures
            call == (PostCall::Write {
                ep: self.ep,
                buf: local_addr,
                len: local_len,
                desc: local_mr_desc,
                peer,
                remote_addr,
                remote_key,
                context,
            }),
    {
        PostCall::Write {
            ep: self.ep,
            buf: local_addr,
            len: local_len,
            desc: local_mr_desc,
            peer,
            remote_addr,
            remote_key,
            context,
        }
    }

    /// The call that reads the peer's memory into local memory.
    pub fn read(
        &self,
        local_addr: u64,
        local_len: usize,
        local_mr_desc: usize,
        remote_addr: u64,
        remote_key: u64,
        peer: u64,
        context: usize,
    ) -> (call: PostCall)
        ensures
            call == (PostCall::Read {
                ep: self.ep,
                buf: local_addr,
                len: local_len,
                desc: local_mr_desc,
                peer,
                remote_addr,
                remote_key,
                context,
            }),
    {
        PostCall::Read {
            ep: self.ep,
            buf: local_addr,
            len: local_len,
            desc: local_mr_desc,
            peer,
            remote_addr,
            remote_key,
            context,
        }
    }

    /// The call that sends local memory to the peer as a message.
    pub fn send(
        &self,
        local_addr: u64,
        local_len: usize,
        local_mr_desc: usize,
        peer: u64,
        context: usize,
    ) -> (call: PostCall)
        ensures
            call == (PostCall::Send {
                ep: self.ep,
                buf: local_addr,
                len: local_len,
                desc: local_mr_desc,
                peer,
                context,
            }),
    {
        PostCall::Send {
            ep: self.ep,
            buf: local_addr,
            len: local_len,
            desc: local_mr_desc,
            peer,
            context,
        }
    }

    /// The call that offers local memory for the peer's next message.
    pub fn recv(
        &self,
        local_addr: u64,
        local_len: usize,
        local_mr_desc: usize,
        peer: u64,
        context: usize,
    ) -> (call: PostCall)
        ensures
            call == (PostCall::Recv {
                ep: self.ep,
                buf: local_addr,
                len: local_len,
                desc: local_mr_desc,
                peer,
                context,
            }),
    {
        PostCall::Recv {
            ep: self.ep,
            buf: local_addr,
            len: local_len,
            desc: local_mr_desc,
            peer,
            context,
        }
    }

    /// Begins to wait for one completion, blocking, until the timeout expires.
    pub fn poll_cq(&self, domain: &OfiDomain, timeout_ns: u128, now: u64) -> (poll: PollCq)
        requires
            timeout_ns <= MAX_TIMEOUT_NS,
        ensures
            poll == PollCq::starting(domain.cq, timeout_ns, true, now),
            poll.deadline == now + timeout_ns,
    {
        PollCq::start(domain.cq, timeout_ns, true, now)
    }

    /// The call that gives the endpoint back, unless its handle is null.
    pub fn release(&self) -> (call: Option<FabricCall<'static>>)
        ensures
            call == if self.ep != 0 {
                Some(FabricCall::Close { fid: self.ep })
            } else {
                None
            },
    {
        if self.ep != 0 {
            Some(FabricCall::Close { fid: self.ep })
        } else {
            None
        }
    }
}

/// Creates an endpoint.
#[derive(Debug, PartialEq, Eq)]
pub struct EndpointSetup {
    pub domain: OfiDomain,
    pub phase: EndpointPhase,
}

/// What a setup waits for.
#[derive(Debug, PartialEq, Eq)]
pub enum EndpointPhase {
    /// The endpoint.
    Open,
    /// The address vector to be bound.
    BindAv { ep: usize },
    /// The completion queue to be bound.
    BindCq { ep: usize },
    /// The endpoint to be enabled.
    Enable { ep: usize },
    /// The endpoint to be given back after a failure.
    Close { ep: usize, error: OfiError },
    /// Nothing.
    Done(Result<OfiEndpoint, OfiError>),
}

impl EndpointSetup {
    /// A setup that has not begun.
    pub open spec fn starting(domain: OfiDomain) -> Self {
        EndpointSetup { domain, phase: EndpointPhase::Open }
    }

    /// Returns the effect that the setup waits for.
    pub fn effect(&self) -> (effect: Effect<'_>)
        ensures
            effect == self.pending(),
    {
        match self.phase {
            EndpointPhase::Open => Effect::Call(
                FabricCall::OpenEndpoint { domain: self.domain.domain, info: self.domain.info },
            ),
            EndpointPhase::BindAv { ep } => Effect::Call(
                FabricCall::BindEndpoint {
                    ep,
                    fid: self.domain.av,
                    transmit: false,
                    recv: false,
                },
            ),
            EndpointPhase::BindCq { ep } => Effect::Call(
                FabricCall::BindEndpoint { ep, fid: self.domain.cq, transmit: true, recv: true },
            ),
            EndpointPhase::Enable { ep } => Effect::Call(FabricCall::EnableEndpoint { ep }),
            EndpointPhase::Close { ep, error: _ } => Effect::Call(FabricCall::Close { fid: ep }),
            EndpointPhase::Done(_) => Effect::Finished,
        }
    }

    /// Takes the answer to the pending effect.
    pub fn resume(self, reply: Reply) -> (next: Self)
        ensures
            forall|now: u64| next == #[trigger] self.after(reply, now),
    {
        let phase = match (self.phase, reply) {
            (EndpointPhase::Open, Reply::Handle { ret, handle }) => {
                if ret != 0 {
                    EndpointPhase::Done(Err(OfiError::Endpoint { ret }))
                } else {
                    EndpointPhase::BindAv { ep: handle }
                }
            },
            (EndpointPhase::BindAv { ep }, Reply::Code(ret)) => {
                if ret != 0 {
                    EndpointPhase::Close { ep, error: OfiError::BindAv { ret } }
                } else {
                    EndpointPhase::BindCq { ep }
                }
            },
            (EndpointPhase::BindCq { ep }, Reply::Code(ret)) => {
                if ret != 0 {
                    EndpointPhase::Close { ep, error: OfiError::BindCq { ret } }
                } else {
                    EndpointPhase::Enable { ep }
                }
            },
            (EndpointPhase::Enable { ep }, Reply::Code(ret)) => {
                if ret != 0 {
                    EndpointPhase::Close { ep, error: OfiError::Enable { ret } }
                } else {
                    EndpointPhase::Done(Ok(OfiEndpoint { ep }))
                }
            },
            (EndpointPhase::Close { ep: _, error }, _) => EndpointPhase::Done(Err(error)),
            (phase, _) => phase,
        };
        EndpointSetup { domain: self.domain, phase }
    }
}

impl Machine for EndpointSetup {
    open spec fn pending(&self) -> Effect<'_> {
        match self.phase {
            EndpointPhase::Open => Effect::Call(
                FabricCall::OpenEndpoint { domain: self.domain.domain, info: self.domain.info },
            ),
            EndpointPhase::BindAv { ep } => Effect::Call(
                FabricCall::BindEndpoint {
                    ep,
                    fid: self.domain.av,
                    transmit: false,
                    recv: false,
                },
            ),
            EndpointPhase::BindCq { ep } => Effect::Call(
                FabricCall::BindEndpoint { ep, fid: self.domain.cq, transmit: true, recv: true },
            ),
            EndpointPhase::Enable { ep } => Effect::Call(FabricCall::EnableEndpoint { ep }),
            EndpointPhase::Close { ep, error } => Effect::Call(FabricCall::Close { fid: ep }),
            EndpointPhase::Done(_) => Effect::Finished,
        }
    }

    /// An endpoint that could not be bound or enabled is given back.
    open spec fn after(self, reply: Reply, now: u64) -> Self {
        let phase = match (self.phase, reply) {
            (EndpointPhase::Open, Reply::Handle { ret, handle }) => {
                if ret != 0 {
                    EndpointPhase::Done(Err(OfiError::Endpoint { ret }))
                } else {
                    EndpointPhase::BindAv { ep: handle }
                }
            },
            (EndpointPhase::BindAv { ep }, Reply::Code(ret)) => {
                if ret != 0 {
                    EndpointPhase::Close { ep, error: OfiError::BindAv { ret } }
                } else {
                    EndpointPhase::BindCq { ep }
                }
            },
            (EndpointPhase::BindCq { ep }, Reply::Code(ret)) => {
                if ret != 0 {
                    EndpointPhase::Close { ep, error: OfiError::BindCq { ret } }
                } else {
                    EndpointPhase::Enable { ep }
                }
            },
            (EndpointPhase::Enable { ep }, Reply::Code(ret)) => {
                if ret != 0 {
                    EndpointPhase::Close { ep, error: OfiError::Enable { ret } }
                } else {
                    EndpointPhase::Done(Ok(OfiEndpoint { ep }))
                }
            },
            (EndpointPhase::Close { ep, error }, _) => EndpointPhase::Done(Err(error)),
            (phase, _) => phase,
        };
        EndpointSetup { phase, ..self }
    }

    open spec fn wf(self) -> bool {
        match self.phase {
            EndpointPhase::Open => true,
            EndpointPhase::BindAv { ep } => ep != 0,
            EndpointPhase::BindCq { ep } => ep != 0,
            EndpointPhase::Enable { ep } => ep != 0,
            EndpointPhase::Close { ep, error } => ep != 0,
            EndpointPhase::Done(Ok(endpoint)) => endpoint.ep != 0,
            EndpointPhase::Done(Err(_)) => true,
        }
    }

    open spec fn held(self) -> Multiset<Resource> {
        match self.phase {
            EndpointPhase::BindAv { ep } => object(ep),
            EndpointPhase::BindCq { ep } => object(ep),
            EndpointPhase::Enable { ep } => object(ep),
            EndpointPhase::Close { ep, error } => object(ep),
            EndpointPhase::Done(Ok(endpoint)) => object(endpoint.ep),
            _ => Multiset::empty(),
        }
    }

    open spec fn paused(self) -> int {
        0
    }

    proof fn step(self, reply: Reply, now: u64) {
        broadcast use vstd::multiset::group_multiset_axioms;

    }
}

/// Returns the answer of a `fi_getname` that returned `ret`, was given `buffer`
/// and reported the length `addr_len`: after a success, what lies in the buffer
/// behind the address is cut off.
pub fn name_reply(ret: i32, buffer: Vec<u8>, addr_len: usize) -> (reply: Reply)
    ensures
        forall|ep: usize|
            #[trigger] answers(
                Effect::Call(FabricCall::GetName { ep, capacity: buffer.len() }),
                reply,
            ),
        reply matches Reply::Name { ret: code, addr, addr_len: len } && code == ret && if ret == 0
            && buffer@.len() > 0 {
            &&& addr@ == buffer@.take(
                if addr_len <= buffer@.len() {
                    addr_len as int
                } else {
                    buffer@.len() as int
                },
            )
            &&& len == addr@.len()
        } else {
            addr@ == buffer@ && len == addr_len
        },
{
    let mut addr = buffer;
    if ret != 0 || addr.len() == 0 {
        return Reply::Name { ret, addr, addr_len };
    }
    if addr_len < addr.len() {
        addr.truncate(addr_len);
    }
    Reply::Name { ret, addr_len: addr.len(), addr }
}

/// Asks for the address of an endpoint.
#[derive(Debug, PartialEq, Eq)]
pub struct NameQuery {
    pub ep: usize,
    pub phase: NamePhase,
}

/// What a query waits for.
#[derive(Debug, PartialEq, Eq)]
pub enum NamePhase {
    /// The length of the address.
    Size,
    /// The address itself.
    Fill { capacity: usize },
    /// Nothing.
    Done(Result<OfiEndpointInfo, OfiError>),
}

impl NameQuery {
    /// A query that has not begun.
    pub open spec fn starting(ep: usize) -> Self {
        NameQuery { ep, phase: NamePhase::Size }
    }

    /// Returns the effect that the query waits for.
    pub fn effect(&self) -> (effect: Effect<'_>)
        ensures
            effect == self.pending(),
    {
        match self.phase {
            NamePhase::Size => Effect::Call(FabricCall::GetName { ep: self.ep, capacity: 0 }),
            NamePhase::Fill { capacity } => Effect::Call(
                FabricCall::GetName { ep: self.ep, capacity },
            ),
            NamePhase::Done(_) => Effect::Finished,
        }
    }

    /// Takes the answer to the pending effect.
    pub fn resume(self, reply: Reply) -> (next: Self)
        ensures
            forall|now: u64| next == #[trigger] self.after(reply, now),
    {
        let phase = match (self.phase, reply) {
            (NamePhase::Size, Reply::Name { ret: _, addr: _, addr_len }) => NamePhase::Fill {
                capacity: addr_len,
            },
            (NamePhase::Fill { capacity: _ }, Reply::Name { ret, addr, addr_len: _ }) => {
                if ret != 0 {
                    NamePhase::Done(Err(OfiError::GetName { ret }))
                } else {
                    NamePhase::Done(Ok(OfiEndpointInfo { addr_len: addr.len(), addr }))
                }
            },
            (phase, _) => phase,
        };
        NameQuery { ep: self.ep, phase }
    }
}

impl Machine for NameQuery {
    open spec fn pending(&self) -> Effect<'_> {
        match self.phase {
            NamePhase::Size => Effect::Call(FabricCall::GetName { ep: self.ep, capacity: 0 }),
            NamePhase::Fill { capacity } => Effect::Call(
                FabricCall::GetName { ep: self.ep, capacity },
            ),
            NamePhase::Done(_) => Effect::Finished,
        }
    }

    /// The first call only learns the length, whatever its code; the second
    /// fills a buffer of that length. The address is what the second call
    /// stored there.
    open spec fn after(self, reply: Reply, now: u64) -> Self {
        let phase = match (self.phase, reply) {
            (NamePhase::Size, Reply::Name { ret, addr, addr_len }) => NamePhase::Fill {
                capacity: addr_len,
            },
            (NamePhase::Fill { capacity }, Reply::Name { ret, addr, addr_len }) => {
                if ret != 0 {
                    NamePhase::Done(Err(OfiError::GetName { ret }))
                } else {
                    NamePhase::Done(Ok(OfiEndpointInfo { addr_len: addr.len(), addr }))
                }
            },
            (phase, _) => phase,
        };
        NameQuery { phase, ..self }
    }

    open spec fn wf(self) -> bool {
        true
    }

    open spec fn held(self) -> Multiset<Resource> {
        Multiset::empty()
    }

    open spec fn paused(self) -> int {
        0
    }

    proof fn step(self, reply: Reply, now: u64) {
    }
}

} // verus!
