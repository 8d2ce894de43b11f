//! Domain management: fabric, domain, address vector and completion queue.

use crate::effect::{
    fi_allocinfo, info_list, object, Effect, FabricCall, Reply, Resource,
};
use crate::error::{
    error_code, ofi_strerror, strerror, strerror_code, DomainPart, ErrorText, OfiError,
};
use crate::machine::Machine;
use crate::primitives::OfiConfig;
use crate::probe::{usable, usable_request};
use vstd::multiset::Multiset;
use vstd::prelude::*;
use vstd::utf8::encode_utf8;

verus! {

/// A fabric with its domain, address vector and completion queue.
///
/// All handles of a finished domain are non-null. While a domain is built up
/// or taken down, the handles that it does not have are null.
#[derive(Debug, Clone, Copy, PartialEq, Eq)]
pub struct OfiDomain {
    pub info: usize,
    pub fabric: usize,
    pub domain: usize,
    pub av: usize,
    pub cq: usize,
    /// Whether the provider supports device memory.
    pub hmem_supported: bool,
    /// Whether the provider supports remote memory access.
    pub rma_supported: bool,
}

/// The position of the first zero byte of a provider name, if it has one.
pub open spec fn nul_position(name: Seq<char>) -> Option<int> {
    encode_utf8(name).index_of_first(0u8)
}

/// Returns the position of the first zero byte.
fn find_nul(name: &String) -> (position: Option<usize>)
    ensures
        match position {
            Some(p) => nul_position(name@) == Some(p as int),
            None => nul_position(name@) is None,
        },
{
    let bytes = name.as_str().as_bytes();
    proof {
        bytes@.index_of_first_ensures(0u8);
    }
    for i in 0..bytes.len()
        invariant
            bytes@ == encode_utf8(name@),
            forall|j: int| 0 <= j < i ==> bytes@[j] != 0,
    {
        if bytes[i] == 0 {
            proof {
                bytes@.index_of_first_ensures(0u8);
                assert(bytes@.contains(bytes@[i as int]));
                assert(nul_position(name@) == Some(i as int));
            }
            return Some(i);
        }
    }
    None
}

/// A list of providers, and what its first provider can do.
#[derive(Debug, Clone, Copy, PartialEq, Eq)]
pub struct ProviderInfo {
    pub info: usize,
    pub rma: bool,
}

/// Why a query found no provider.
#[derive(Debug, Clone, Copy, PartialEq, Eq)]
pub enum InfoFailure {
    /// The provider name holds a zero byte.
    InvalidProvider { position: usize },
    /// The query returned this code, or success and an empty list.
    Code { ret: i32 },
}

/// Asks libfabric for a provider.
#[derive(Debug, PartialEq, Eq)]
pub struct InfoQuery {
    /// Provider name, or empty for any.
    pub provider: String,
    pub hmem: bool,
    pub phase: InfoPhase,
}

/// What a query waits for.
#[derive(Debug, PartialEq, Eq)]
pub enum InfoPhase {
    /// The hints.
    Allocate,
    /// The list of providers.
    Query { hints: usize },
    /// The hints to be freed.
    FreeHints { hints: usize, outcome: Result<ProviderInfo, InfoFailure> },
    /// The words for the query's return code.
    Explain { ret: i32 },
    /// Nothing.
    Done(Result<ProviderInfo, OfiError>),
}

impl InfoQuery {
    /// A query that has not begun.
    pub open spec fn starting(provider: String, hmem: bool) -> Self {
        InfoQuery { provider, hmem, phase: InfoPhase::Allocate }
    }

    /// The provider that is asked for, if it is a particular one.
    pub open spec fn wanted(self) -> Option<String> {
        if self.provider@.len() == 0 {
            None
        } else {
            Some(self.provider)
        }
    }

    /// The error for the query's return code.
    pub open spec fn failed(self, reason: ErrorText) -> OfiError {
        OfiError::GetInfo { reason, provider: self.provider, hmem: self.hmem }
    }

    fn wanted_name(&self) -> (name: Option<String>)
        ensures
            name == self.wanted(),
    {
        if self.provider.as_str().is_empty() {
            None
        } else {
            Some(self.provider.clone())
        }
    }

    /// Returns the effect that the query waits for.
    pub fn effect(&self) -> (effect: Effect<'_>)
        ensures
            effect == self.pending(),
    {
        match &self.phase {
            InfoPhase::Allocate => Effect::Call(fi_allocinfo()),
            InfoPhase::Query { hints } => Effect::Call(
                FabricCall::GetInfo {
                    hints: *hints,
                    request: usable_request(self.wanted_name(), self.hmem),
                },
            ),
            InfoPhase::FreeHints { hints, outcome: _ } => Effect::Call(
                FabricCall::FreeInfo { info: *hints },
            ),
            InfoPhase::Explain { ret } => Effect::Call(
                FabricCall::StrError { code: error_code(*ret) },
            ),
            InfoPhase::Done(_) => Effect::Finished,
        }
    }

    /// Takes the answer to the pending effect.
    pub fn resume(self, reply: Reply) -> (next: Self)
        ensures
            forall|now: u64| next == #[trigger] self.after(reply, now),
    {
        let phase = match (self.phase, reply) {
            (InfoPhase::Allocate, Reply::Handle { ret: _, handle }) => {
                if handle == 0 {
                    InfoPhase::Done(Err(OfiError::AllocInfo))
                } else {
                    match find_nul(&self.provider) {
                        Some(position) => InfoPhase::FreeHints {
                            hints: handle,
                            outcome: Err(InfoFailure::InvalidProvider { position }),
                        },
                        None => InfoPhase::Query { hints: handle },
                    }
                }
            },
            (InfoPhase::Query { hints }, Reply::Info { ret, info, rma }) => {
                InfoPhase::FreeHints {
                    hints,
                    outcome: if ret == 0 && info != 0 {
                        Ok(ProviderInfo { info, rma })
                    } else {
                        Err(InfoFailure::Code { ret })
                    },
                }
            },
            (InfoPhase::FreeHints { hints: _, outcome }, _) => match outcome {
                Ok(found) => InfoPhase::Done(Ok(found)),
                Err(InfoFailure::InvalidProvider { position }) => InfoPhase::Done(
                    Err(OfiError::InvalidProvider { position }),
                ),
                Err(InfoFailure::Code { ret }) => {
                    if ret == 0 {
                        InfoPhase::Done(
                            Err(
                                OfiError::GetInfo {
                                    reason: ErrorText::Success,
                                    provider: self.provider.clone(),
                                    hmem: self.hmem,
                                },
                            ),
                        )
                    } else {
                        InfoPhase::Explain { ret }
                    }
                },
            },
            (InfoPhase::Explain { ret }, Reply::Text(words)) => InfoPhase::Done(
                Err(
                    OfiError::GetInfo {
                        reason: ofi_strerror(ret, words),
                        provider: self.provider.clone(),
                        hmem: self.hmem,
                    },
                ),
            ),
            (phase, _) => phase,
        };
        InfoQuery { provider: self.provider, hmem: self.hmem, phase }
    }
}

impl Machine for InfoQuery {
    open spec fn pending(&self) -> Effect<'_> {
        match self.phase {
            InfoPhase::Allocate => Effect::Call(FabricCall::DupInfo { info: 0 }),
            InfoPhase::Query { hints } => Effect::Call(
                FabricCall::GetInfo { hints, request: usable(self.wanted(), self.hmem) },
            ),
            InfoPhase::FreeHints { hints, outcome } => Effect::Call(
                FabricCall::FreeInfo { info: hints },
            ),
            InfoPhase::Explain { ret } => Effect::Call(
                FabricCall::StrError { code: strerror_code(ret) },
            ),
            InfoPhase::Done(_) => Effect::Finished,
        }
    }

    /// The hints are freed whatever the query returned, and also where the
    /// provider name is refused.
    open spec fn after(self, reply: Reply, now: u64) -> Self {
        let phase = match (self.phase, reply) {
            (InfoPhase::Allocate, Reply::Handle { ret, handle }) => {
                if handle == 0 {
                    InfoPhase::Done(Err(OfiError::AllocInfo))
                } else {
                    match nul_position(self.provider@) {
                        Some(position) => InfoPhase::FreeHints {
                            hints: handle,
                            outcome: Err(
                                InfoFailure::InvalidProvider { position: position as usize },
                            ),
                        },
                        None => InfoPhase::Query { hints: handle },
                    }
                }
            },
            (InfoPhase::Query { hints }, Reply::Info { ret, info, rma }) => {
                InfoPhase::FreeHints {
                    hints,
                    outcome: if ret == 0 && info != 0 {
                        Ok(ProviderInfo { info, rma })
                    } else {
                        Err(InfoFailure::Code { ret })
                    },
                }
            },
            (InfoPhase::FreeHints { hints, outcome }, _) => match outcome {
                Ok(found) => InfoPhase::Done(Ok(found)),
                Err(InfoFailure::InvalidProvider { position }) => InfoPhase::Done(
                    Err(OfiError::InvalidProvider { position }),
                ),
                Err(InfoFailure::Code { ret }) => {
                    if ret == 0 {
                        InfoPhase::Done(Err(self.failed(ErrorText::Success)))
                    } else {
                        InfoPhase::Explain { ret }
                    }
                },
            },
            (InfoPhase::Explain { ret }, Reply::Text(words)) => InfoPhase::Done(
                Err(self.failed(strerror(ret, words))),
            ),
            (phase, _) => phase,
        };
        InfoQuery { phase, ..self }
    }

    open spec fn wf(self) -> bool {
        match self.phase {
            InfoPhase::Query { hints } => hints != 0,
            InfoPhase::FreeHints { hints, outcome } => {
                &&& hints != 0
                &&& outcome matches Ok(found) ==> found.info != 0
            },
            InfoPhase::Explain { ret } => ret != 0,
            InfoPhase::Done(Ok(found)) => found.info != 0,
            _ => true,
        }
    }

    open spec fn held(self) -> Multiset<Resource> {
        match self.phase {
            InfoPhase::Query { hints } => info_list(hints),
            InfoPhase::FreeHints { hints, outcome } => info_list(hints).add(
                match outcome {
                    Ok(found) => info_list(found.info),
                    Err(_) => Multiset::empty(),
                },
            ),
            InfoPhase::Done(Ok(found)) => info_list(found.info),
            _ => Multiset::empty(),
        }
    }

    open spec fn paused(self) -> int {
        0
    }

    proof fn step(self, reply: Reply, now: u64) {
        broadcast use vstd::multiset::group_multiset_axioms;
    }
}

impl OfiDomain {
    /// Whether the domain is complete.
    pub open spec fn complete(self) -> bool {
        &&& self.info != 0
        &&& self.fabric != 0
        &&& self.domain != 0
        &&& self.av != 0
        &&& self.cq != 0
    }

    /// The resources behind the handles.
    pub open spec fn resources(self) -> Multiset<Resource> {
        info_list(self.info).add(object(self.fabric)).add(object(self.domain)).add(
            object(self.av),
        ).add(object(self.cq))
    }

    /// A domain that has only its list of providers.
    pub open spec fn bare(found: ProviderInfo, hmem: bool) -> Self {
        OfiDomain {
            info: found.info,
            fabric: 0,
            domain: 0,
            av: 0,
            cq: 0,
            hmem_supported: hmem,
            rma_supported: found.rma,
        }
    }

    /// The call that gives back the next handle: completion queue, address
    /// vector, domain, fabric, list of providers. Null handles are skipped.
    pub open spec fn next_release(self) -> Option<FabricCall<'static>> {
        if self.cq != 0 {
            Some(FabricCall::Close { fid: self.cq })
        } else if self.av != 0 {
            Some(FabricCall::Close { fid: self.av })
        } else if self.domain != 0 {
            Some(FabricCall::Close { fid: self.domain })
        } else if self.fabric != 0 {
            Some(FabricCall::Close { fid: self.fabric })
        } else if self.info != 0 {
            Some(FabricCall::FreeInfo { info: self.info })
        } else {
            None
        }
    }

    /// The domain without the handle that is given back next.
    pub open spec fn released(self) -> Self {
        if self.cq != 0 {
            OfiDomain { cq: 0, ..self }
        } else if self.av != 0 {
            OfiDomain { av: 0, ..self }
        } else if self.domain != 0 {
            OfiDomain { domain: 0, ..self }
        } else if self.fabric != 0 {
            OfiDomain { fabric: 0, ..self }
        } else {
            OfiDomain { info: 0, ..self }
        }
    }

    /// Number of handles that are still to be given back.
    pub open spec fn handles(self) -> nat {
        (if self.cq != 0 { 1nat } else { 0 }) + (if self.av != 0 { 1nat } else { 0 }) + (
        if self.domain != 0 { 1nat } else { 0 }) + (if self.fabric != 0 { 1nat } else { 0 }) + (
        if self.info != 0 { 1nat } else { 0 })
    }

    /// Takes the next handle out of the domain and returns the call that gives
    /// it back, or nothing once all handles are gone.
    pub fn release(&mut self) -> (call: Option<FabricCall<'static>>)
        ensures
            call == old(self).next_release(),
            *final(self) == old(self).released(),
    {
        if self.cq != 0 {
            let fid = self.cq;
            self.cq = 0;
            Some(FabricCall::Close { fid })
        } else if self.av != 0 {
            let fid = self.av;
            self.av = 0;
            Some(FabricCall::Close { fid })
        } else if self.domain != 0 {
            let fid = self.domain;
            self.domain = 0;
            Some(FabricCall::Close { fid })
        } else if self.fabric != 0 {
            let fid = self.fabric;
            self.fabric = 0;
            Some(FabricCall::Close { fid })
        } else if self.info != 0 {
            let info = self.info;
            self.info = 0;
            Some(FabricCall::FreeInfo { info })
        } else {
            None
        }
    }

    /// Begins to set up a domain: a list of providers, the fabric, the domain,
    /// the address vector and the completion queue, in this order. Where device
    /// memory is wanted it is asked for first, and a second query without it
    /// follows if no provider has it.
    pub fn new(config: &OfiConfig) -> (setup: DomainSetup)
        requires
            config.max_send_wr + config.max_recv_wr <= usize::MAX,
        ensures
            setup == DomainSetup::starting(*config),
            setup.cq_size == config.max_send_wr + config.max_recv_wr,
            setup.wf(),
    {
        DomainSetup {
            provider: config.provider.clone(),
            cq_size: config.max_send_wr + config.max_recv_wr,
            phase: DomainPhase::Search {
                query: InfoQuery {
                    provider: config.provider.clone(),
                    hmem: config.request_hmem,
                    phase: InfoPhase::Allocate,
                },
                fallback: config.request_hmem,
            },
        }
    }
}

/// Sets up a domain.
#[derive(Debug, PartialEq, Eq)]
pub struct DomainSetup {
    pub provider: String,
    /// Entries of the completion queue.
    pub cq_size: usize,
    pub phase: DomainPhase,
}

/// What a setup waits for.
#[derive(Debug, PartialEq, Eq)]
pub enum DomainPhase {
    /// A list of providers; with `fallback`, another query follows a failure.
    Search { query: InfoQuery, fallback: bool },
    /// The next object.
    Open { part: DomainPart, built: OfiDomain },
    /// The objects to be given back that were opened before the one that failed.
    Undo { part: DomainPart, ret: i32, built: OfiDomain },
    /// The words for the code of the failed call.
    Explain { part: DomainPart, ret: i32 },
    /// Nothing.
    Done(Result<OfiDomain, OfiError>),
}

/// The domain with one more object.
pub open spec fn with_part(built: OfiDomain, part: DomainPart, handle: usize) -> OfiDomain {
    match part {
        DomainPart::Fabric => OfiDomain { fabric: handle, ..built },
        DomainPart::Domain => OfiDomain { domain: handle, ..built },
        DomainPart::Av => OfiDomain { av: handle, ..built },
        DomainPart::Cq => OfiDomain { cq: handle, ..built },
    }
}

/// The object that is opened after `part`.
pub open spec fn next_part(part: DomainPart) -> Option<DomainPart> {
    match part {
        DomainPart::Fabric => Some(DomainPart::Domain),
        DomainPart::Domain => Some(DomainPart::Av),
        DomainPart::Av => Some(DomainPart::Cq),
        DomainPart::Cq => None,
    }
}

/// Whether `built` has exactly what is opened before `part`.
pub open spec fn built_before(built: OfiDomain, part: DomainPart) -> bool {
    &&& built.info != 0
    &&& built.fabric != 0 <==> !(part is Fabric)
    &&& built.domain != 0 <==> part is Av || part is Cq
    &&& built.av != 0 <==> part is Cq
    &&& built.cq == 0
}

fn add_part(built: OfiDomain, part: DomainPart, handle: usize) -> (next: OfiDomain)
    ensures
        next == with_part(built, part, handle),
{
    let mut next = built;
    match part {
        DomainPart::Fabric => {
            next.fabric = handle;
        },
        DomainPart::Domain => {
            next.domain = handle;
        },
        DomainPart::Av => {
            next.av = handle;
        },
        DomainPart::Cq => {
            next.cq = handle;
        },
    }
    next
}

fn part_after(part: DomainPart) -> (next: Option<DomainPart>)
    ensures
        next == next_part(part),
{
    match part {
        DomainPart::Fabric => Some(DomainPart::Domain),
        DomainPart::Domain => Some(DomainPart::Av),
        DomainPart::Av => Some(DomainPart::Cq),
        DomainPart::Cq => None,
    }
}

impl DomainSetup {
    /// A setup that has not begun.
    pub open spec fn starting(config: OfiConfig) -> Self {
        DomainSetup {
            provider: config.provider,
            cq_size: (config.max_send_wr + config.max_recv_wr) as usize,
            phase: DomainPhase::Search {
                query: InfoQuery::starting(config.provider, config.request_hmem),
                fallback: config.request_hmem,
            },
        }
    }

    /// The setup after its query moved on: the list that was found is built
    /// upon, and a failure with device memory leads to a query without it.
    pub open spec fn searched(self, query: InfoQuery, fallback: bool) -> DomainPhase {
        match query.phase {
            InfoPhase::Done(Ok(found)) => DomainPhase::Open {
                part: DomainPart::Fabric,
                built: OfiDomain::bare(found, query.hmem),
            },
            InfoPhase::Done(Err(error)) => {
                if fallback {
                    DomainPhase::Search {
                        query: InfoQuery::starting(self.provider, false),
                        fallback: false,
                    }
                } else {
                    DomainPhase::Done(Err(error))
                }
            },
            _ => DomainPhase::Search { query, fallback },
        }
    }

    fn get_info_with_hmem_fallback(provider: &String, query: InfoQuery, fallback: bool) -> (phase:
        DomainPhase)
        ensures
            forall|setup: DomainSetup|
                setup.provider == *provider ==> phase == #[trigger] setup.searched(query, fallback),
    {
        match query.phase {
            InfoPhase::Done(Ok(found)) => DomainPhase::Open {
                part: DomainPart::Fabric,
                built: OfiDomain {
                    info: found.info,
                    fabric: 0,
                    domain: 0,
                    av: 0,
                    cq: 0,
                    hmem_supported: query.hmem,
                    rma_supported: found.rma,
                },
            },
            InfoPhase::Done(Err(error)) => {
                if fallback {
                    DomainPhase::Search {
                        query: InfoQuery {
                            provider: provider.clone(),
                            hmem: false,
                            phase: InfoPhase::Allocate,
                        },
                        fallback: false,
                    }
                } else {
                    DomainPhase::Done(Err(error))
                }
            },
            phase => DomainPhase::Search {
                query: InfoQuery { provider: query.provider, hmem: query.hmem, phase },
                fallback,
            },
        }
    }

    /// Returns the effect that the setup waits for.
    pub fn effect(&self) -> (effect: Effect<'_>)
        ensures
            effect == self.pending(),
    {
        match &self.phase {
            DomainPhase::Search { query, fallback: _ } => query.effect(),
            DomainPhase::Open { part, built } => Effect::Call(
                match part {
                    DomainPart::Fabric => FabricCall::OpenFabric { info: built.info },
                    DomainPart::Domain => FabricCall::OpenDomain {
                        fabric: built.fabric,
                        info: built.info,
                    },
                    DomainPart::Av => FabricCall::OpenAv { domain: built.domain },
                    DomainPart::Cq => FabricCall::OpenCq {
                        domain: built.domain,
                        size: self.cq_size,
                    },
                },
            ),
            DomainPhase::Undo { part: _, ret: _, built } => {
                let mut rest = *built;
                match rest.release() {
                    Some(call) => Effect::Call(call),
                    None => Effect::Finished,
                }
            },
            DomainPhase::Explain { part: _, ret } => Effect::Call(
                FabricCall::StrError { code: error_code(*ret) },
            ),
            DomainPhase::Done(_) => Effect::Finished,
        }
    }

    /// Takes the answer to the pending effect.
    pub fn resume(self, reply: Reply) -> (next: Self)
        ensures
            forall|now: u64| next == #[trigger] self.after(reply, now),
    {
        let phase = match (self.phase, reply) {
            (DomainPhase::Search { query, fallback }, reply) => {
                Self::get_info_with_hmem_fallback(&self.provider, query.resume(reply), fallback)
            },
            (DomainPhase::Open { part, built }, Reply::Handle { ret, handle }) => {
                if ret != 0 {
                    DomainPhase::Undo { part, ret, built }
                } else {
                    let built = add_part(built, part, handle);
                    match part_after(part) {
                        Some(part) => DomainPhase::Open { part, built },
                        None => DomainPhase::Done(Ok(built)),
                    }
                }
            },
            (DomainPhase::Undo { part, ret, built }, _) => {
                let mut rest = built;
                let _ = rest.release();
                if rest.info != 0 {
                    DomainPhase::Undo { part, ret, built: rest }
                } else {
                    DomainPhase::Explain { part, ret }
                }
            },
            (DomainPhase::Explain { part, ret }, Reply::Text(words)) => DomainPhase::Done(
                Err(OfiError::Open { part, reason: ofi_strerror(ret, words) }),
            ),
            (phase, _) => phase,
        };
        DomainSetup { provider: self.provider, cq_size: self.cq_size, phase }
    }
}

impl Machine for DomainSetup {
    open spec fn pending(&self) -> Effect<'_> {
        match self.phase {
            DomainPhase::Search { query, fallback } => query.pending(),
            DomainPhase::Open { part, built } => Effect::Call(
                match part {
                    DomainPart::Fabric => FabricCall::OpenFabric { info: built.info },
                    DomainPart::Domain => FabricCall::OpenDomain {
                        fabric: built.fabric,
                        info: built.info,
                    },
                    DomainPart::Av => FabricCall::OpenAv { domain: built.domain },
                    DomainPart::Cq => FabricCall::OpenCq {
                        domain: built.domain,
                        size: self.cq_size,
                    },
                },
            ),
            DomainPhase::Undo { part, ret, built } => match built.next_release() {
                Some(call) => Effect::Call(call),
                None => Effect::Finished,
            },
            DomainPhase::Explain { part, ret } => Effect::Call(
                FabricCall::StrError { code: strerror_code(ret) },
            ),
            DomainPhase::Done(_) => Effect::Finished,
        }
    }

    /// A failed call has everything given back that was opened before it, and
    /// is then explained.
    open spec fn after(self, reply: Reply, now: u64) -> Self {
        let phase = match (self.phase, reply) {
            (DomainPhase::Search { query, fallback }, _) => {
                self.searched(query.after(reply, now), fallback)
            },
            (DomainPhase::Open { part, built }, Reply::Handle { ret, handle }) => {
                if ret != 0 {
                    DomainPhase::Undo { part, ret, built }
                } else {
                    match next_part(part) {
                        Some(next) => DomainPhase::Open {
                            part: next,
                            built: with_part(built, part, handle),
                        },
                        None => DomainPhase::Done(Ok(with_part(built, part, handle))),
                    }
                }
            },
            (DomainPhase::Undo { part, ret, built }, _) => {
                if built.released().info != 0 {
                    DomainPhase::Undo { part, ret, built: built.released() }
                } else {
                    DomainPhase::Explain { part, ret }
                }
            },
            (DomainPhase::Explain { part, ret }, Reply::Text(words)) => DomainPhase::Done(
                Err(OfiError::Open { part, reason: strerror(ret, words) }),
            ),
            (phase, _) => phase,
        };
        DomainSetup { phase, ..self }
    }

    open spec fn wf(self) -> bool {
        match self.phase {
            DomainPhase::Search { query, fallback } => {
                &&& query.wf()
                &&& !(query.phase is Done)
                &&& fallback ==> query.hmem
            },
            DomainPhase::Open { part, built } => built_before(built, part),
            DomainPhase::Undo { part, ret, built } => built.info != 0 && ret != 0,
            DomainPhase::Explain { part, ret } => ret != 0,
            DomainPhase::Done(Ok(domain)) => domain.complete(),
            DomainPhase::Done(Err(_)) => true,
        }
    }

    open spec fn held(self) -> Multiset<Resource> {
        match self.phase {
            DomainPhase::Search { query, fallback } => query.held(),
            DomainPhase::Open { part, built } => built.resources(),
            DomainPhase::Undo { part, ret, built } => built.resources(),
            DomainPhase::Done(Ok(domain)) => domain.resources(),
            _ => Multiset::empty(),
        }
    }

    open spec fn paused(self) -> int {
        0
    }

    proof fn step(self, reply: Reply, now: u64) {
        broadcast use vstd::multiset::group_multiset_axioms;

        if let DomainPhase::Search { query, fallback } = self.phase {
            query.step(reply, now);
        }
        assert(self.after(reply, now).held() =~= crate::effect::ledger(
            self.held(),
            self.pending(),
            reply,
        ));
    }
}

} // verus!
