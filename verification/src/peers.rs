//! Resolution of peers to fabric addresses.

use crate::domain::OfiDomain;
use crate::effect::{Effect, FabricCall, Reply, Resource};
use crate::endpoint::{
    insert_result, inserted_addr, NamePhase, NameQuery, OfiEndpoint,
};
use crate::error::OfiError;
use crate::machine::Machine;
use crate::messages::OfiManagerMessage;
use crate::primitives::OfiEndpointInfo;
use vstd::multiset::Multiset;
use vstd::prelude::*;

verus! {

/// Finds the fabric address of a peer.
///
/// A manager handles one message at a time, so that a message to itself would
/// never be answered: where the peer is the manager itself, the address comes
/// from its own endpoint.
#[derive(Debug, PartialEq, Eq)]
pub struct ResolvePeer {
    /// Actor id of the peer.
    pub peer: String,
    pub domain: OfiDomain,
    pub endpoint: OfiEndpoint,
    pub phase: ResolvePhase,
}

/// What a resolution waits for.
#[derive(Debug, PartialEq, Eq)]
pub enum ResolvePhase {
    /// The name of the manager's own endpoint.
    OwnName(NameQuery),
    /// The name of the peer's endpoint.
    Exchange,
    /// The address to be inserted.
    Insert(OfiEndpointInfo),
    /// Nothing.
    Done(Result<u64, OfiError>),
}

impl ResolvePeer {
    /// A resolution that has not begun, where `cached` is the address that is
    /// known already and `loopback` tells whether the peer is the manager itself.
    pub open spec fn starting(
        peer: String,
        domain: OfiDomain,
        endpoint: OfiEndpoint,
        cached: Option<u64>,
        loopback: bool,
    ) -> Self {
        ResolvePeer {
            peer,
            domain,
            endpoint,
            phase: match cached {
                Some(fi_addr) => ResolvePhase::Done(Ok(fi_addr)),
                None => if loopback {
                    ResolvePhase::OwnName(NameQuery::starting(endpoint.ep))
                } else {
                    ResolvePhase::Exchange
                },
            },
        }
    }

    /// Begins to resolve a peer.
    pub fn start(
        peer: String,
        domain: &OfiDomain,
        endpoint: &OfiEndpoint,
        cached: Option<u64>,
        loopback: bool,
    ) -> (resolution: Self)
        ensures
            resolution == Self::starting(peer, *domain, *endpoint, cached, loopback),
            resolution.wf(),
    {
        ResolvePeer {
            peer,
            domain: *domain,
            endpoint: *endpoint,
            phase: match cached {
                Some(fi_addr) => ResolvePhase::Done(Ok(fi_addr)),
                None => if loopback {
                    ResolvePhase::OwnName(endpoint.get_name())
                } else {
                    ResolvePhase::Exchange
                },
            },
        }
    }

    /// Returns the effect that the resolution waits for.
    pub fn effect(&self) -> (effect: Effect<'_>)
        ensures
            effect == self.pending(),
    {
        match &self.phase {
            ResolvePhase::OwnName(query) => query.effect(),
            ResolvePhase::Exchange => Effect::Ask {
                peer: &self.peer,
                message: OfiManagerMessage::GetEndpointAddr,
            },
            ResolvePhase::Insert(info) => Effect::Call(self.endpoint.av_insert(&self.domain, info)),
            ResolvePhase::Done(_) => Effect::Finished,
        }
    }

    /// Takes the answer to the pending effect.
    pub fn resume(self, reply: Reply) -> (next: Self)
        ensures
            forall|now: u64| next == #[trigger] self.after(reply, now),
    {
        let phase = match (self.phase, reply) {
            (ResolvePhase::OwnName(query), reply) => {
                let next = query.resume(reply);
                match next.phase {
                    NamePhase::Done(Ok(info)) => ResolvePhase::Insert(info),
                    NamePhase::Done(Err(error)) => ResolvePhase::Done(Err(error)),
                    phase => ResolvePhase::OwnName(NameQuery { ep: next.ep, phase }),
                }
            },
            (ResolvePhase::Exchange, Reply::Endpoint(answer)) => match answer {
                Ok(info) => ResolvePhase::Insert(info),
                Err(text) => ResolvePhase::Done(Err(OfiError::Peer(text))),
            },
            (ResolvePhase::Insert(_), Reply::Address { ret, fi_addr }) => {
                ResolvePhase::Done(inserted_addr(ret, fi_addr))
            },
            (phase, _) => phase,
        };
        ResolvePeer { peer: self.peer, domain: self.domain, endpoint: self.endpoint, phase }
    }
}

impl Machine for ResolvePeer {
    open spec fn pending(&self) -> Effect<'_> {
        match &self.phase {
            ResolvePhase::OwnName(query) => query.pending(),
            ResolvePhase::Exchange => Effect::Ask {
                peer: &self.peer,
                message: OfiManagerMessage::GetEndpointAddr,
            },
            ResolvePhase::Insert(info) => Effect::Call(
                FabricCall::AvInsert { av: self.domain.av, peer: info },
            ),
            ResolvePhase::Done(_) => Effect::Finished,
        }
    }

    open spec fn after(self, reply: Reply, now: u64) -> Self {
        let phase = match (self.phase, reply) {
            (ResolvePhase::OwnName(query), _) => match query.after(reply, now).phase {
                NamePhase::Done(Ok(info)) => ResolvePhase::Insert(info),
                NamePhase::Done(Err(error)) => ResolvePhase::Done(Err(error)),
                _ => ResolvePhase::OwnName(query.after(reply, now)),
            },
            (ResolvePhase::Exchange, Reply::Endpoint(answer)) => match answer {
                Ok(info) => ResolvePhase::Insert(info),
                Err(text) => ResolvePhase::Done(Err(OfiError::Peer(text))),
            },
            (ResolvePhase::Insert(_), Reply::Address { ret, fi_addr }) => {
                ResolvePhase::Done(insert_result(ret, fi_addr))
            },
            (phase, _) => phase,
        };
        ResolvePeer { phase, ..self }
    }

    open spec fn wf(self) -> bool {
        self.phase matches ResolvePhase::OwnName(query) ==> query.wf() && !(query.phase is Done)
    }

    open spec fn held(self) -> Multiset<Resource> {
        Multiset::empty()
    }

    open spec fn paused(self) -> int {
        0
    }

    proof fn step(self, reply: Reply, now: u64) {
    }
}

} // verus!
