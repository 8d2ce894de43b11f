//! Probes for a usable provider.

use crate::effect::{
    fi_allocinfo, info_list, Effect, FabricCall, InfoRequest, Reply, Resource,
};
use crate::machine::Machine;
use vstd::multiset::Multiset;
use vstd::prelude::*;

verus! {

/// Asks libfabric whether a provider exists.
#[derive(Debug, PartialEq, Eq)]
pub struct Probe {
    /// The provider that is asked for, or any.
    pub provider: Option<String>,
    pub phase: ProbePhase,
}

/// What a probe waits for.
#[derive(Debug, PartialEq, Eq)]
pub enum ProbePhase {
    /// The hints.
    Allocate,
    /// The list of providers.
    Query { hints: usize },
    /// The hints to be freed; `info` is the list that was found, null for none.
    FreeHints { hints: usize, info: usize },
    /// The list to be freed.
    FreeInfo { info: usize },
    /// Nothing.
    Done(bool),
}

/// What a usable provider offers: reliable datagrams, remote memory access and
/// messages.
pub open spec fn usable(provider: Option<String>, hmem: bool) -> InfoRequest {
    InfoRequest { rdm: true, rma: true, msg: true, hmem, local_mr: false, provider }
}

/// Returns the request for a usable provider.
pub(crate) fn usable_request(provider: Option<String>, hmem: bool) -> (request: InfoRequest)
    ensures
        request == usable(provider, hmem),
{
    InfoRequest { rdm: true, rma: true, msg: true, hmem, local_mr: false, provider }
}

fn clone_name(name: &Option<String>) -> (copy: Option<String>)
    ensures
        copy == *name,
{
    match name {
        Some(s) => Some(s.clone()),
        None => None,
    }
}

impl Probe {
    /// The probe's answer, once it has one.
    pub open spec fn answer(self) -> Option<bool> {
        match self.phase {
            ProbePhase::Done(found) => Some(found),
            _ => None,
        }
    }

    /// Returns the probe's answer, once it has one.
    pub fn result(&self) -> (answer: Option<bool>)
        ensures
            answer == self.answer(),
    {
        match self.phase {
            ProbePhase::Done(found) => Some(found),
            _ => None,
        }
    }

    /// Returns the effect that the probe waits for.
    pub fn effect(&self) -> (effect: Effect<'_>)
        ensures
            effect == self.pending(),
    {
        match self.phase {
            ProbePhase::Allocate => Effect::Call(fi_allocinfo()),
            ProbePhase::Query { hints } => Effect::Call(
                FabricCall::GetInfo {
                    hints,
                    request: usable_request(clone_name(&self.provider), false),
                },
            ),
            ProbePhase::FreeHints { hints, info: _ } => Effect::Call(
                FabricCall::FreeInfo { info: hints },
            ),
            ProbePhase::FreeInfo { info } => Effect::Call(FabricCall::FreeInfo { info }),
            ProbePhase::Done(_) => Effect::Finished,
        }
    }

    /// Takes the answer to the pending effect.
    pub fn resume(self, reply: Reply) -> (next: Self)
        ensures
            forall|now: u64| next == #[trigger] self.after(reply, now),
    {
        let phase = match (self.phase, reply) {
            (ProbePhase::Allocate, Reply::Handle { ret: _, handle }) => {
                if handle == 0 {
                    ProbePhase::Done(false)
                } else {
                    ProbePhase::Query { hints: handle }
                }
            },
            (ProbePhase::Query { hints }, Reply::Info { ret, info, rma: _ }) => {
                ProbePhase::FreeHints {
                    hints,
                    info: if ret == 0 {
                        info
                    } else {
                        0
                    },
                }
            },
            (ProbePhase::FreeHints { hints: _, info }, _) => {
                if info != 0 {
                    ProbePhase::FreeInfo { info }
                } else {
                    ProbePhase::Done(false)
                }
            },
            (ProbePhase::FreeInfo { info: _ }, _) => ProbePhase::Done(true),
            (phase, _) => phase,
        };
        Probe { provider: self.provider, phase }
    }
}

impl Machine for Probe {
    open spec fn pending(&self) -> Effect<'_> {
        match self.phase {
            ProbePhase::Allocate => Effect::Call(FabricCall::DupInfo { info: 0 }),
            ProbePhase::Query { hints } => Effect::Call(
                FabricCall::GetInfo { hints, request: usable(self.provider, false) },
            ),
            ProbePhase::FreeHints { hints, info } => Effect::Call(
                FabricCall::FreeInfo { info: hints },
            ),
            ProbePhase::FreeInfo { info } => Effect::Call(FabricCall::FreeInfo { info }),
            ProbePhase::Done(_) => Effect::Finished,
        }
    }

    /// A provider is there if the hints could be had, the query succeeded and
    /// its list is not empty.
    open spec fn after(self, reply: Reply, now: u64) -> Self {
        let phase = match (self.phase, reply) {
            (ProbePhase::Allocate, Reply::Handle { ret, handle }) => {
                if handle == 0 {
                    ProbePhase::Done(false)
                } else {
                    ProbePhase::Query { hints: handle }
                }
            },
            (ProbePhase::Query { hints }, Reply::Info { ret, info, rma }) => {
                ProbePhase::FreeHints {
                    hints,
                    info: if ret == 0 {
                        info
                    } else {
                        0
                    },
                }
            },
            (ProbePhase::FreeHints { hints, info }, _) => {
                if info != 0 {
                    ProbePhase::FreeInfo { info }
                } else {
                    ProbePhase::Done(false)
                }
            },
            (ProbePhase::FreeInfo { info }, _) => ProbePhase::Done(true),
            (phase, _) => phase,
        };
        Probe { phase, ..self }
    }

    open spec fn wf(self) -> bool {
        match self.phase {
            ProbePhase::Query { hints } => hints != 0,
            ProbePhase::FreeHints { hints, info } => hints != 0,
            ProbePhase::FreeInfo { info } => info != 0,
            _ => true,
        }
    }

    open spec fn held(self) -> Multiset<Resource> {
        match self.phase {
            ProbePhase::Query { hints } => info_list(hints),
            ProbePhase::FreeHints { hints, info } => info_list(hints).add(info_list(info)),
            ProbePhase::FreeInfo { info } => info_list(info),
            _ => Multiset::empty(),
        }
    }

    open spec fn paused(self) -> int {
        0
    }

    proof fn step(self, reply: Reply, now: u64) {
        broadcast use vstd::multiset::group_multiset_axioms;
    }
}

/// The probe for any usable provider, where `cached` is the answer of an
/// earlier one: with it, nothing is asked again.
pub fn ofi_available(cached: Option<bool>) -> (probe: Probe)
    ensures
        probe.provider is None,
        probe.phase == match cached {
            Some(found) => ProbePhase::Done(found),
            None => ProbePhase::Allocate,
        },
{
    Probe {
        provider: None,
        phase: match cached {
            Some(found) => ProbePhase::Done(found),
            None => ProbePhase::Allocate,
        },
    }
}

/// The probe of the transport itself, which has a cache of its own in front of
/// that of [`ofi_available`].
pub fn ofi_supported(cached: Option<bool>, available: Option<bool>) -> (probe: Probe)
    ensures
        probe.provider is None,
        probe.phase == match (cached, available) {
            (Some(found), _) => ProbePhase::Done(found),
            (None, Some(found)) => ProbePhase::Done(found),
            (None, None) => ProbePhase::Allocate,
        },
{
    match cached {
        Some(found) => Probe { provider: None, phase: ProbePhase::Done(found) },
        None => ofi_available(available),
    }
}

/// The probe for the EFA provider, where `cached` is the answer of an earlier one.
pub fn efa_ofi_available(cached: Option<bool>) -> (probe: Probe)
    ensures
        probe.provider matches Some(name) && name@ == "efa"@,
        probe.phase == match cached {
            Some(found) => ProbePhase::Done(found),
            None => ProbePhase::Allocate,
        },
{
    Probe {
        provider: Some("efa".to_owned()),
        phase: match cached {
            Some(found) => ProbePhase::Done(found),
            None => ProbePhase::Allocate,
        },
    }
}

} // verus!
