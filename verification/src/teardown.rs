//! The end of a manager.

use crate::domain::OfiDomain;
use crate::effect::{ledger, object, Effect, FabricCall, Reply, Resource};
use crate::endpoint::{OfiEndpoint, OfiMr};
use crate::machine::Machine;
use crate::manager_actor::{lemma_regions_remove, regions, Manager, OfiManagerActor};
use crate::ops::OfiBuffer;
use vstd::multiset::Multiset;
use vstd::prelude::*;
use vstd::std_specs::iter::IteratorSpec;

verus! {

broadcast use vstd::std_specs::hash::group_hash_axioms;

/// Gives back all that a manager keeps: first the background thread ends, so
/// that nobody reads the queue any more, then the regions, the endpoint and
/// the domain are given back.
#[derive(Debug, PartialEq, Eq)]
pub struct Teardown {
    /// Whether the background thread is there.
    pub running: bool,
    /// The regions of the manager's buffers.
    pub mrs: Vec<OfiMr>,
    /// How many of them, from the front, are still to be given back.
    pub left: usize,
    pub endpoint: OfiEndpoint,
    pub domain: OfiDomain,
}

/// The regions in a list.
pub open spec fn listed(mrs: Seq<OfiMr>) -> Multiset<Resource>
    decreases mrs.len(),
{
    if mrs.len() == 0 {
        Multiset::empty()
    } else {
        listed(mrs.drop_last()).add(object(mrs.last().mr))
    }
}

/// What is left of `buffers` without the first `n` of `ids`.
spec fn without(
    buffers: Map<usize, (OfiMr, OfiBuffer)>,
    ids: Seq<usize>,
    n: int,
) -> Map<usize, (OfiMr, OfiBuffer)> {
    buffers.remove_keys(ids.take(n).to_set())
}

/// The next of `ids` takes its region out of what is left.
proof fn lemma_without_next(buffers: Map<usize, (OfiMr, OfiBuffer)>, ids: Seq<usize>, n: int)
    requires
        buffers.dom().finite(),
        ids.to_set() == buffers.dom(),
        ids.no_duplicates(),
        0 <= n < ids.len(),
    ensures
        buffers.contains_key(ids[n]),
        regions(without(buffers, ids, n)) == regions(without(buffers, ids, n + 1)).add(
            object(buffers[ids[n]].0.mr),
        ),
{
    let id = ids[n];
    assert(ids.to_set().contains(id));
    let rest = without(buffers, ids, n);
    assert(!ids.take(n).to_set().contains(id));
    assert(rest.dom() =~= buffers.dom().difference(ids.take(n).to_set()));
    assert(ids.take(n + 1) =~= ids.take(n).push(id));
    ids.take(n).lemma_push_to_set_commute(id);
    assert(rest.remove(id) =~= without(buffers, ids, n + 1));
    lemma_regions_remove(rest, id);
}

/// At first all is left, and in the end nothing.
proof fn lemma_without_ends(buffers: Map<usize, (OfiMr, OfiBuffer)>, ids: Seq<usize>)
    requires
        buffers.dom().finite(),
        ids.to_set() == buffers.dom(),
    ensures
        without(buffers, ids, 0) == buffers,
        regions(without(buffers, ids, ids.len() as int)) == Multiset::<Resource>::empty(),
{
    assert(ids.take(0).to_set() =~= Set::empty());
    assert(without(buffers, ids, 0) =~= buffers);
    assert(ids.take(ids.len() as int) =~= ids);
    assert(without(buffers, ids, ids.len() as int).dom() =~= Set::empty());
}

impl OfiManagerActor {
    /// Begins to take the manager down.
    pub fn shutdown(self) -> (teardown: Teardown)
        requires
            self@.wf(),
        ensures
            teardown.wf(),
            teardown.held() == self@.resources(),
            teardown.running,
            teardown.left == teardown.mrs@.len(),
            teardown.endpoint == self@.endpoint,
            teardown.domain == self@.domain,
    {
        let mut mrs: Vec<OfiMr> = Vec::new();
        let ghost buffers = self@.buffers;
        proof {
            broadcast use vstd::multiset::group_multiset_axioms;

            let ids = self.buffer_registrations.keys().remaining().unref();
            lemma_without_ends(buffers, ids);
            assert(regions(buffers) =~= listed(mrs@).add(regions(without(buffers, ids, 0))));
        }
        for id in keys: self.buffer_registrations.keys()
            invariant
                buffers == self.buffer_registrations@,
                buffers.dom().finite(),
                self@.wf(),
                self@.buffers == buffers,
                keys.seq().unref().to_set() == buffers.dom(),
                keys.seq().unref().no_duplicates(),
                mrs@.len() == keys.index(),
                forall|i: int| 0 <= i < mrs@.len() ==> (#[trigger] mrs@[i]).mr != 0,
                regions(buffers) == listed(mrs@).add(
                    regions(without(buffers, keys.seq().unref(), keys.index())),
                ),
        {
            proof {
                lemma_without_next(buffers, keys.seq().unref(), keys.index());
            }
            let ghost before = mrs@;
            if let Some((mr, _)) = self.buffer_registrations.get(id) {
                mrs.push(*mr);
            }
            proof {
                broadcast use vstd::multiset::group_multiset_axioms;

                assert(mrs@.drop_last() =~= before);
                assert(regions(buffers) =~= listed(mrs@).add(
                    regions(without(buffers, keys.seq().unref(), keys.index() + 1)),
                ));
            }
        }
        let left = mrs.len();
        proof {
            broadcast use vstd::multiset::group_multiset_axioms;

            reveal(Manager::resources);
            assert(mrs@.take(left as int) =~= mrs@);
            assert(regions(buffers) =~= listed(mrs@));
        }
        Teardown { running: true, mrs, left, endpoint: self.endpoint, domain: self.domain }
    }
}

impl Teardown {
    /// Returns the effect that the teardown waits for.
    pub fn effect(&self) -> (effect: Effect<'_>)
        requires
            self.wf(),
        ensures
            effect == self.pending(),
    {
        if self.running {
            Effect::StopProgress
        } else if self.left > 0 {
            Effect::Call(FabricCall::Close { fid: self.mrs[self.left - 1].mr })
        } else if self.endpoint.ep != 0 {
            Effect::Call(FabricCall::Close { fid: self.endpoint.ep })
        } else {
            let mut rest = self.domain;
            match rest.release() {
                Some(call) => Effect::Call(call),
                None => Effect::Finished,
            }
        }
    }

    /// Takes the answer to the pending effect.
    pub fn resume(self, reply: Reply) -> (next: Self)
        requires
            self.wf(),
        ensures
            forall|now: u64| next == #[trigger] self.after(reply, now),
            next.wf(),
    {
        let mut next = self;
        if next.running {
            next.running = false;
        } else if next.left > 0 {
            next.left = next.left - 1;
        } else if next.endpoint.ep != 0 {
            next.endpoint = OfiEndpoint { ep: 0 };
        } else {
            let _ = next.domain.release();
        }
        next
    }
}

impl Machine for Teardown {
    open spec fn pending(&self) -> Effect<'_> {
        if self.running {
            Effect::StopProgress
        } else if self.left > 0 {
            Effect::Call(FabricCall::Close { fid: self.mrs@[self.left - 1].mr })
        } else if self.endpoint.ep != 0 {
            Effect::Call(FabricCall::Close { fid: self.endpoint.ep })
        } else {
            match self.domain.next_release() {
                Some(call) => Effect::Call(call),
                None => Effect::Finished,
            }
        }
    }

    open spec fn after(self, reply: Reply, now: u64) -> Self {
        if self.running {
            Teardown { running: false, ..self }
        } else if self.left > 0 {
            Teardown { left: (self.left - 1) as usize, ..self }
        } else if self.endpoint.ep != 0 {
            Teardown { endpoint: OfiEndpoint { ep: 0 }, ..self }
        } else {
            Teardown { domain: self.domain.released(), ..self }
        }
    }

    open spec fn wf(self) -> bool {
        &&& self.left <= self.mrs.len()
        &&& forall|i: int| 0 <= i < self.left ==> (#[trigger] self.mrs@[i]).mr != 0
    }

    open spec fn held(self) -> Multiset<Resource> {
        self.domain.resources().add(object(self.endpoint.ep)).add(
            listed(self.mrs@.take(self.left as int)),
        )
    }

    open spec fn paused(self) -> int {
        0
    }

    proof fn step(self, reply: Reply, now: u64) {
        broadcast use vstd::multiset::group_multiset_axioms;

        if !self.running && self.left > 0 {
            let all = self.mrs@.take(self.left as int);
            assert(all.drop_last() =~= self.mrs@.take(self.left - 1));
            assert(all.last() == self.mrs@[self.left - 1]);
        }
        assert(self.after(reply, now).held() =~= ledger(self.held(), self.pending(), reply));
    }
}

} // verus!
