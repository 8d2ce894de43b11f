//! The manager: the libfabric resources of one process.

use crate::domain::{DomainPhase, DomainSetup, OfiDomain};
use crate::effect::{object, Effect, Reply, Resource};
use crate::endpoint::{EndpointPhase, EndpointSetup, OfiEndpoint, OfiMr};
use crate::error::OfiError;
use crate::machine::Machine;
use crate::ops::OfiBuffer;
use crate::primitives::OfiConfig;
use std::collections::HashMap;
use vstd::hash_map::StringHashMap;
use vstd::multiset::Multiset;
use vstd::prelude::*;

verus! {

broadcast use vstd::std_specs::hash::group_hash_axioms;

/// Manages all libfabric resources of a single process.
pub struct OfiManagerActor {
    /// Actor id of this manager.
    pub id: String,
    /// Actor id of the RDMA manager that owns this one, once it is known.
    pub owner: Option<String>,
    pub domain: OfiDomain,
    pub endpoint: OfiEndpoint,
    /// Registered buffers and their descriptions, by buffer id.
    pub buffer_registrations: HashMap<usize, (OfiMr, OfiBuffer)>,
    /// Key that the next registration asks for.
    pub next_mr_key: u64,
    /// Fabric addresses of peers, by actor id.
    pub peer_addrs: StringHashMap<u64>,
    pub config: OfiConfig,
}

/// The state of a manager.
#[verifier::ext_equal]
pub struct Manager {
    pub id: String,
    pub owner: Option<String>,
    pub domain: OfiDomain,
    pub endpoint: OfiEndpoint,
    pub buffers: Map<usize, (OfiMr, OfiBuffer)>,
    pub next_mr_key: u64,
    pub peers: Map<Seq<char>, u64>,
    pub config: OfiConfig,
}

impl View for OfiManagerActor {
    type V = Manager;

    open spec fn view(&self) -> Manager {
        Manager {
            id: self.id,
            owner: self.owner,
            domain: self.domain,
            endpoint: self.endpoint,
            buffers: self.buffer_registrations@,
            next_mr_key: self.next_mr_key,
            peers: self.peer_addrs@,
            config: self.config,
        }
    }
}

/// The regions behind registered buffers.
pub open spec fn regions(buffers: Map<usize, (OfiMr, OfiBuffer)>) -> Multiset<Resource>
    decreases buffers.dom().len(),
    when buffers.dom().finite()
{
    if buffers.dom().len() == 0 {
        Multiset::empty()
    } else {
        let id = buffers.dom().choose();
        regions(buffers.remove(id)).add(object(buffers[id].0.mr))
    }
}

/// The region of one buffer can be counted apart from the rest.
pub(crate) proof fn lemma_regions_remove(buffers: Map<usize, (OfiMr, OfiBuffer)>, id: usize)
    requires
        buffers.dom().finite(),
        buffers.contains_key(id),
    ensures
        regions(buffers) == regions(buffers.remove(id)).add(object(buffers[id].0.mr)),
    decreases buffers.dom().len(),
{
    broadcast use vstd::multiset::group_multiset_axioms;

    let first = buffers.dom().choose();
    assert(buffers.dom().contains(id));
    assert(buffers.dom().len() > 0);
    assert(buffers.dom().contains(first));
    if first != id {
        let without_first = buffers.remove(first);
        let without_id = buffers.remove(id);
        assert(without_first.dom() =~= buffers.dom().remove(first));
        assert(without_id.dom() =~= buffers.dom().remove(id));
        lemma_regions_remove(without_first, id);
        lemma_regions_remove(without_id, first);
        assert(without_first.remove(id) =~= without_id.remove(first));
        assert(regions(buffers) =~= regions(without_id).add(object(buffers[id].0.mr)));
    }
}

impl Manager {
    /// Whether a manager can be in this state: it has a domain and an
    /// endpoint, and each buffer has a region whose key it names.
    pub open spec fn wf(self) -> bool {
        &&& self.domain.complete()
        &&& self.endpoint.ep != 0
        &&& self.next_mr_key >= 1
        &&& self.buffers.dom().finite()
        &&& forall|id: usize| #[trigger]
            self.buffers.contains_key(id) ==> {
                &&& self.buffers[id].0.mr != 0
                &&& self.buffers[id].1.rkey == self.buffers[id].0.rkey
            }
    }

    /// The state of a new manager.
    pub open spec fn initial(id: String, parts: ManagerParts) -> Self {
        Manager {
            id,
            owner: None,
            domain: parts.domain,
            endpoint: parts.endpoint,
            buffers: Map::empty(),
            next_mr_key: 1,
            peers: Map::empty(),
            config: parts.config,
        }
    }

    /// What the manager keeps from libfabric.
    #[verifier::opaque]
    pub open spec fn resources(self) -> Multiset<Resource> {
        self.domain.resources().add(object(self.endpoint.ep)).add(regions(self.buffers))
    }

    /// Whether the actor is this manager itself.
    pub open spec fn is_self(self, peer: Seq<char>) -> bool {
        peer == self.id@
    }

    /// The fabric address of a peer, if it is known.
    pub open spec fn known(self, peer: Seq<char>) -> Option<u64> {
        if self.peers.contains_key(peer) {
            Some(self.peers[peer])
        } else {
            None
        }
    }

    /// The manager that knows a peer's fabric address.
    pub open spec fn learn(self, peer: Seq<char>, fi_addr: u64) -> Self {
        Manager { peers: self.peers.insert(peer, fi_addr), ..self }
    }

    /// A buffer's region and description, if it is registered.
    pub open spec fn lookup(self, id: usize) -> Option<(OfiMr, OfiBuffer)> {
        if self.buffers.contains_key(id) {
            Some(self.buffers[id])
        } else {
            None
        }
    }

    /// The manager with one more buffer.
    pub open spec fn register(self, id: usize, mr: OfiMr, buf: OfiBuffer) -> Self {
        Manager { buffers: self.buffers.insert(id, (mr, buf)), ..self }
    }

    /// The manager without a buffer.
    pub open spec fn unregister(self, id: usize) -> Self {
        Manager { buffers: self.buffers.remove(id), ..self }
    }

    /// The manager after a key was used.
    pub open spec fn use_key(self) -> Self {
        Manager { next_mr_key: (self.next_mr_key + 1) as u64, ..self }
    }

    /// Keys and peers are no resources.
    pub(crate) proof fn lemma_same_resources(self, next_mr_key: u64, peers: Map<Seq<char>, u64>)
        requires
            self.wf(),
            next_mr_key >= 1,
        ensures
            (Manager { next_mr_key, peers, ..self }).wf(),
            (Manager { next_mr_key, peers, ..self }).resources() == self.resources(),
    {
        reveal(Manager::resources);
    }

    /// A new buffer adds its region to what the manager keeps.
    pub(crate) proof fn lemma_register(self, id: usize, mr: OfiMr, buf: OfiBuffer)
        requires
            self.wf(),
            !self.buffers.contains_key(id),
            mr.mr != 0,
            buf.rkey == mr.rkey,
        ensures
            self.register(id, mr, buf).wf(),
            self.register(id, mr, buf).resources() == self.resources().add(object(mr.mr)),
    {
        broadcast use vstd::multiset::group_multiset_axioms;

        reveal(Manager::resources);

        let next = self.buffers.insert(id, (mr, buf));
        assert(next.dom() =~= self.buffers.dom().insert(id));
        lemma_regions_remove(next, id);
        assert(next.remove(id) =~= self.buffers);
        assert(self.register(id, mr, buf).resources() =~= self.resources().add(object(mr.mr)));
    }

    /// A removed buffer leaves its region to be given back.
    pub(crate) proof fn lemma_unregister(self, id: usize)
        requires
            self.wf(),
            self.buffers.contains_key(id),
        ensures
            self.unregister(id).wf(),
            self.resources() == self.unregister(id).resources().add(
                object(self.buffers[id].0.mr),
            ),
    {
        broadcast use vstd::multiset::group_multiset_axioms;

        reveal(Manager::resources);

        let rest = self.buffers.remove(id);
        assert(rest.dom() =~= self.buffers.dom().remove(id));
        lemma_regions_remove(self.buffers, id);
        assert(self.resources() =~= self.unregister(id).resources().add(
            object(self.buffers[id].0.mr),
        ));
        assert forall|other: usize| #[trigger] rest.contains_key(other) implies {
            &&& rest[other].0.mr != 0
            &&& rest[other].1.rkey == rest[other].0.rkey
        } by {
            assert(self.buffers.contains_key(other));
        }
    }
}

impl OfiManagerActor {
    /// Begins to set up a manager. `supported` is the answer of the probe for
    /// the transport; without a configuration the default is taken.
    pub fn new(config: Option<OfiConfig>, supported: bool) -> (setup: ManagerSetup)
        requires
            supported ==> (config matches Some(c) ==> c.max_send_wr + c.max_recv_wr
                <= usize::MAX),
        ensures
            setup.wf(),
            match config {
                Some(c) => setup.config == c,
                None => setup.config.is_default(),
            },
            setup.phase == if supported {
                ManagerPhase::Domain(DomainSetup::starting(setup.config))
            } else {
                ManagerPhase::Done(Err(OfiError::Unsupported))
            },
    {
        let config = match config {
            Some(c) => c,
            None => OfiConfig::default(),
        };
        if !supported {
            return ManagerSetup { config, phase: ManagerPhase::Done(Err(OfiError::Unsupported)) };
        }
        let phase = ManagerPhase::Domain(OfiDomain::new(&config));
        ManagerSetup { config, phase }
    }

    /// The manager of a finished setup, under the actor id that it got.
    pub fn from_parts(id: String, parts: ManagerParts) -> (manager: Self)
        ensures
            manager@ == Manager::initial(id, parts),
            parts.wf() ==> manager@.wf(),
    {
        OfiManagerActor {
            id,
            owner: None,
            domain: parts.domain,
            endpoint: parts.endpoint,
            buffer_registrations: HashMap::new(),
            next_mr_key: 1,
            peer_addrs: StringHashMap::new(),
            config: parts.config,
        }
    }

    /// Tells the manager its owner, which can be done once.
    pub fn init(&mut self, owner: String) -> (result: Result<(), OfiError>)
        ensures
            old(self)@.owner is Some ==> {
                &&& result == Err::<(), OfiError>(OfiError::OwnerAlreadySet)
                &&& final(self)@ == old(self)@
            },
            old(self)@.owner is None ==> {
                &&& result == Ok::<(), OfiError>(())
                &&& final(self)@ == (Manager { owner: Some(owner), ..old(self)@ })
            },
    {
        match self.owner {
            Some(_) => Err(OfiError::OwnerAlreadySet),
            None => {
                self.owner = Some(owner);
                Ok(())
            },
        }
    }

    /// Returns whether the actor is this manager itself.
    pub(crate) fn is_loopback(&self, peer: &String) -> (yes: bool)
        ensures
            yes == self@.is_self(peer@),
    {
        peer.eq(&self.id)
    }

    /// Returns the fabric address of a peer, if it is known.
    pub fn cached_peer(&self, peer: &String) -> (fi_addr: Option<u64>)
        ensures
            fi_addr == self@.known(peer@),
    {
        match self.peer_addrs.get(peer.as_str()) {
            Some(fi_addr) => Some(*fi_addr),
            None => None,
        }
    }

    /// Returns a buffer's region and description, if it is registered.
    pub fn registration(&self, id: usize) -> (found: Option<(OfiMr, OfiBuffer)>)
        ensures
            found == self@.lookup(id),
    {
        match self.buffer_registrations.get(&id) {
            Some(entry) => Some(*entry),
            None => None,
        }
    }

    /// Keeps a peer's fabric address.
    pub(crate) fn learn_peer(&mut self, peer: &String, fi_addr: u64)
        ensures
            final(self)@ == old(self)@.learn(peer@, fi_addr),
    {
        self.peer_addrs.insert(peer.clone(), fi_addr);
    }

    /// Keeps a buffer's region and description.
    pub(crate) fn keep_buffer(&mut self, id: usize, mr: OfiMr, buf: OfiBuffer)
        ensures
            final(self)@ == old(self)@.register(id, mr, buf),
    {
        self.buffer_registrations.insert(id, (mr, buf));
    }

    /// Forgets a buffer and returns its region, if it was registered.
    pub(crate) fn forget_buffer(&mut self, id: usize) -> (mr: Option<OfiMr>)
        ensures
            final(self)@ == old(self)@.unregister(id),
            mr == match old(self)@.lookup(id) {
                Some((mr, _)) => Some(mr),
                None => None,
            },
    {
        match self.buffer_registrations.remove(&id) {
            Some((mr, _)) => Some(mr),
            None => {
                assert(self@.buffers =~= old(self)@.unregister(id).buffers);
                None
            },
        }
    }

    /// Takes the next registration key.
    pub(crate) fn take_key(&mut self) -> (key: u64)
        requires
            old(self).next_mr_key < u64::MAX,
        ensures
            key == old(self)@.next_mr_key,
            final(self)@ == old(self)@.use_key(),
    {
        let key = self.next_mr_key;
        self.next_mr_key = key + 1;
        key
    }
}

/// What a manager is made of.
#[derive(Debug, PartialEq, Eq)]
pub struct ManagerParts {
    pub domain: OfiDomain,
    pub endpoint: OfiEndpoint,
    pub config: OfiConfig,
}

impl ManagerParts {
    /// Whether the domain and the endpoint exist.
    pub open spec fn wf(self) -> bool {
        self.domain.complete() && self.endpoint.ep != 0
    }
}

/// Sets up a manager.
#[derive(Debug, PartialEq, Eq)]
pub struct ManagerSetup {
    pub config: OfiConfig,
    pub phase: ManagerPhase,
}

/// What a setup waits for.
#[derive(Debug, PartialEq, Eq)]
pub enum ManagerPhase {
    /// The domain.
    Domain(DomainSetup),
    /// The endpoint.
    Endpoint { domain: OfiDomain, setup: EndpointSetup },
    /// The domain to be given back, because there is no endpoint.
    Undo { domain: OfiDomain, error: OfiError },
    /// The background thread.
    Spawn { domain: OfiDomain, endpoint: OfiEndpoint },
    /// Nothing.
    Done(Result<(OfiDomain, OfiEndpoint), OfiError>),
}

impl ManagerSetup {
    /// Returns the effect that the setup waits for.
    pub fn effect(&self) -> (effect: Effect<'_>)
        ensures
            effect == self.pending(),
    {
        match &self.phase {
            ManagerPhase::Domain(setup) => setup.effect(),
            ManagerPhase::Endpoint { domain: _, setup } => setup.effect(),
            ManagerPhase::Undo { domain, error: _ } => {
                let mut rest = *domain;
                match rest.release() {
                    Some(call) => Effect::Call(call),
                    None => Effect::Finished,
                }
            },
            ManagerPhase::Spawn { domain, endpoint: _ } => Effect::SpawnProgress { cq: domain.cq },
            ManagerPhase::Done(_) => Effect::Finished,
        }
    }

    /// Takes the answer to the pending effect.
    pub fn resume(self, reply: Reply) -> (next: Self)
        ensures
            forall|now: u64| next == #[trigger] self.after(reply, now),
    {
        let phase = match (self.phase, reply) {
            (ManagerPhase::Domain(setup), reply) => {
                let next = setup.resume(reply);
                match next.phase {
                    DomainPhase::Done(Ok(domain)) => ManagerPhase::Endpoint {
                        domain,
                        setup: OfiEndpoint::new(&domain),
                    },
                    DomainPhase::Done(Err(error)) => ManagerPhase::Done(Err(error)),
                    phase => ManagerPhase::Domain(
                        DomainSetup { provider: next.provider, cq_size: next.cq_size, phase },
                    ),
                }
            },
            (ManagerPhase::Endpoint { domain, setup }, reply) => {
                let next = setup.resume(reply);
                match next.phase {
                    EndpointPhase::Done(Ok(endpoint)) => ManagerPhase::Spawn { domain, endpoint },
                    EndpointPhase::Done(Err(error)) => ManagerPhase::Undo { domain, error },
                    phase => ManagerPhase::Endpoint {
                        domain,
                        setup: EndpointSetup { domain: next.domain, phase },
                    },
                }
            },
            (ManagerPhase::Undo { domain, error }, _) => {
                let mut rest = domain;
                let _ = rest.release();
                if rest.info != 0 {
                    ManagerPhase::Undo { domain: rest, error }
                } else {
                    ManagerPhase::Done(Err(error))
                }
            },
            (ManagerPhase::Spawn { domain, endpoint }, _) => ManagerPhase::Done(
                Ok((domain, endpoint)),
            ),
            (phase, _) => phase,
        };
        ManagerSetup { config: self.config, phase }
    }

    /// Returns what the setup came to, once it has come to an end.
    pub fn finish(self) -> (result: Option<Result<ManagerParts, OfiError>>)
        ensures
            result == match self.phase {
                ManagerPhase::Done(Ok((domain, endpoint))) => Some(
                    Ok(ManagerParts { domain, endpoint, config: self.config }),
                ),
                ManagerPhase::Done(Err(error)) => Some(Err(error)),
                _ => None,
            },
            self.wf() ==> (result matches Some(Ok(parts)) ==> parts.wf()),
    {
        match self.phase {
            ManagerPhase::Done(Ok((domain, endpoint))) => Some(
                Ok(ManagerParts { domain, endpoint, config: self.config }),
            ),
            ManagerPhase::Done(Err(error)) => Some(Err(error)),
            _ => None,
        }
    }
}

impl Machine for ManagerSetup {
    open spec fn pending(&self) -> Effect<'_> {
        match self.phase {
            ManagerPhase::Domain(setup) => setup.pending(),
            ManagerPhase::Endpoint { domain, setup } => setup.pending(),
            ManagerPhase::Undo { domain, error } => match domain.next_release() {
                Some(call) => Effect::Call(call),
                None => Effect::Finished,
            },
            ManagerPhase::Spawn { domain, endpoint } => Effect::SpawnProgress { cq: domain.cq },
            ManagerPhase::Done(_) => Effect::Finished,
        }
    }

    /// Without an endpoint the domain is given back. The background thread
    /// starts last.
    open spec fn after(self, reply: Reply, now: u64) -> Self {
        let phase = match self.phase {
            ManagerPhase::Domain(setup) => match setup.after(reply, now).phase {
                DomainPhase::Done(Ok(domain)) => ManagerPhase::Endpoint {
                    domain,
                    setup: EndpointSetup::starting(domain),
                },
                DomainPhase::Done(Err(error)) => ManagerPhase::Done(Err(error)),
                _ => ManagerPhase::Domain(setup.after(reply, now)),
            },
            ManagerPhase::Endpoint { domain, setup } => match setup.after(reply, now).phase {
                EndpointPhase::Done(Ok(endpoint)) => ManagerPhase::Spawn { domain, endpoint },
                EndpointPhase::Done(Err(error)) => ManagerPhase::Undo { domain, error },
                _ => ManagerPhase::Endpoint { domain, setup: setup.after(reply, now) },
            },
            ManagerPhase::Undo { domain, error } => {
                if domain.released().info != 0 {
                    ManagerPhase::Undo { domain: domain.released(), error }
                } else {
                    ManagerPhase::Done(Err(error))
                }
            },
            ManagerPhase::Spawn { domain, endpoint } => ManagerPhase::Done(Ok((domain, endpoint))),
            ManagerPhase::Done(result) => ManagerPhase::Done(result),
        };
        ManagerSetup { phase, ..self }
    }

    open spec fn wf(self) -> bool {
        match self.phase {
            ManagerPhase::Domain(setup) => setup.wf() && !(setup.phase is Done),
            ManagerPhase::Endpoint { domain, setup } => {
                &&& domain.complete()
                &&& setup.domain == domain
                &&& setup.wf()
                &&& !(setup.phase is Done)
            },
            ManagerPhase::Undo { domain, error } => domain.info != 0,
            ManagerPhase::Spawn { domain, endpoint } => domain.complete() && endpoint.ep != 0,
            ManagerPhase::Done(Ok((domain, endpoint))) => {
                domain.complete() && endpoint.ep != 0
            },
            ManagerPhase::Done(Err(_)) => true,
        }
    }

    open spec fn held(self) -> Multiset<Resource> {
        match self.phase {
            ManagerPhase::Domain(setup) => setup.held(),
            ManagerPhase::Endpoint { domain, setup } => domain.resources().add(setup.held()),
            ManagerPhase::Undo { domain, error } => domain.resources(),
            ManagerPhase::Spawn { domain, endpoint } => domain.resources().add(
                object(endpoint.ep),
            ),
            ManagerPhase::Done(Ok((domain, endpoint))) => domain.resources().add(
                object(endpoint.ep),
            ),
            ManagerPhase::Done(Err(_)) => Multiset::empty(),
        }
    }

    open spec fn paused(self) -> int {
        0
    }

    proof fn step(self, reply: Reply, now: u64) {
        broadcast use vstd::multiset::group_multiset_axioms;

        match self.phase {
            ManagerPhase::Domain(setup) => {
                setup.step(reply, now);
            },
            ManagerPhase::Endpoint { domain, setup } => {
                setup.step(reply, now);
            },
            _ => {},
        }
        assert(self.after(reply, now).held() =~= crate::effect::ledger(
            self.held(),
            self.pending(),
            reply,
        ));
    }
}

} // verus!
