//! Laws of probes, domains, endpoints and the setup of a manager: what each
//! call is made with, and where the parts of a result come from.

use crate::domain::{DomainPhase, DomainSetup, InfoFailure, InfoPhase, OfiDomain};
use crate::effect::{answers, Effect, FabricCall, InfoRequest, Reply};
use crate::endpoint::{EndpointPhase, EndpointSetup, NameQuery, OfiEndpoint};
use crate::error::{DomainPart, ErrorText, OfiError};
use crate::history::{happened, Event};
use crate::machine::{answered, law_run_wf, run, Machine, Step};
use crate::manager_actor::{ManagerPhase, ManagerSetup};
use crate::primitives::OfiConfig;
use crate::probe::{Probe, ProbePhase};
use crate::teardown::Teardown;
use vstd::prelude::*;
use vstd::utf8::encode_utf8;

verus! {

// ---------------------------------------------------------------------------
// Probes
// ---------------------------------------------------------------------------

/// A probe makes its calls in order: hints are allocated, the query asks for
/// reliable datagrams with remote memory access and messages, from the named
/// provider alone if there is one, and the hints and the list are freed.
pub proof fn law_probe_calls(
    probe: Probe,
    hints: usize,
    ret: i32,
    info: usize,
    rma: bool,
    now: u64,
)
    requires
        probe.phase is Allocate,
        hints != 0,
    ensures
        ({
            let allocated = probe.after(Reply::Handle { ret: 0, handle: hints }, now);
            let queried = allocated.after(Reply::Info { ret, info, rma }, now);
            let freed = queried.after(Reply::Done, now);
            &&& probe.pending() == Effect::Call(FabricCall::DupInfo { info: 0 })
            &&& allocated.pending() == Effect::Call(
                FabricCall::GetInfo {
                    hints,
                    request: (InfoRequest {
                        rdm: true,
                        rma: true,
                        msg: true,
                        hmem: false,
                        local_mr: false,
                        provider: probe.provider,
                    }),
                },
            )
            &&& queried.pending() == Effect::Call(FabricCall::FreeInfo { info: hints })
            &&& freed.pending() == if ret == 0 && info != 0 {
                Effect::Call(FabricCall::FreeInfo { info })
            } else {
                Effect::Finished
            }
        }),
{
}

/// A probe whose hints cannot be had, or that has its answer, asks for nothing.
pub proof fn law_probe_answered(probe: Probe, found: bool, now: u64)
    ensures
        probe.phase == ProbePhase::Done(found) ==> probe.pending() == Effect::Finished
            && probe.answer() == Some(found),
        probe.phase is Allocate ==> probe.after(
            Reply::Handle { ret: 0, handle: 0 },
            now,
        ).pending() == Effect::Finished,
{
}

// ---------------------------------------------------------------------------
// Domains
// ---------------------------------------------------------------------------

/// Without a configuration any provider will do, device memory is asked for,
/// and there is room for as many sends as receives.
pub proof fn law_default_configuration(config: OfiConfig)
    requires
        config.is_default(),
    ensures
        config.provider@.len() == 0,
        config.max_send_wr == 128 && config.max_recv_wr == 128,
        config.request_hmem,
{
}

/// What a query for the provider of a configuration asks for.
pub open spec fn asks_for(config: OfiConfig, request: InfoRequest) -> bool {
    &&& request.rdm
    &&& request.rma
    &&& request.msg
    &&& !request.local_mr
    &&& request.provider == if config.provider@.len() == 0 {
        None::<String>
    } else {
        Some(config.provider)
    }
}

/// A query, with or without device memory, that found this list.
pub open spec fn found_list(
    config: OfiConfig,
    hmem: bool,
    list: usize,
    granted: bool,
) -> Event<'static> {
    |effect: Effect<'static>, reply: Reply, now: u64|
        {
            &&& effect matches Effect::Call(FabricCall::GetInfo { hints, request })
            &&& asks_for(config, request)
            &&& request.hmem == hmem
            &&& reply == (Reply::Info { ret: 0, info: list, rma: granted })
        }
}

/// A query with device memory that found nothing, or could not be made.
pub open spec fn found_no_hmem(config: OfiConfig) -> Event<'static> {
    |effect: Effect<'static>, reply: Reply, now: u64|
        match (effect, reply) {
            (
                Effect::Call(FabricCall::GetInfo { hints, request }),
                Reply::Info { ret, info, rma },
            ) => {
                &&& asks_for(config, request)
                &&& request.hmem
                &&& ret != 0 || info == 0
            },
            (Effect::Call(FabricCall::DupInfo { info }), Reply::Handle { ret, handle }) => {
                handle == 0 || holds_zero_byte(config.provider@)
            },
            _ => false,
        }
}

/// Whether the bytes of a name hold a zero.
pub open spec fn holds_zero_byte(name: Seq<char>) -> bool {
    exists|i: int| 0 <= i < encode_utf8(name).len() && encode_utf8(name)[i] == 0
}

/// A call that was answered so.
pub open spec fn called(call: FabricCall<'static>, answer: Reply) -> Event<'static> {
    |effect: Effect<'static>, reply: Reply, now: u64|
        effect == Effect::Call(call) && reply == answer
}

/// A call that failed with this code, to open this part.
pub open spec fn failed_to_open(part: DomainPart, code: i32) -> Event<'static> {
    |effect: Effect<'static>, reply: Reply, now: u64|
        {
            &&& reply matches Reply::Handle { ret, handle }
            &&& ret == code
            &&& code != 0
            &&& effect matches Effect::Call(call)
            &&& match part {
                DomainPart::Fabric => call is OpenFabric,
                DomainPart::Domain => call is OpenDomain,
                DomainPart::Av => call is OpenAv,
                DomainPart::Cq => call is OpenCq,
            }
        }
}

/// The words of the library for a code were asked for, and lead to this text.
pub open spec fn explained(code: i32, text: ErrorText) -> Event<'static> {
    |effect: Effect<'static>, reply: Reply, now: u64|
        {
            &&& effect matches Effect::Call(FabricCall::StrError { code: asked })
            &&& code != i32::MIN ==> asked == -code
            &&& match reply {
                Reply::Text(Some(words)) => text == ErrorText::Known(words),
                Reply::Text(None) => text == ErrorText::Unknown(code),
                _ => false,
            }
        }
}

/// The list that `built` rests on was found, and the objects before `part` were
/// opened on one another; all of them where `part` is none.
pub open spec fn well_founded(
    config: OfiConfig,
    steps: Seq<Step>,
    built: OfiDomain,
    part: Option<DomainPart>,
) -> bool {
    let setup = DomainSetup::starting(config);
    &&& happened(
        setup,
        steps,
        found_list(config, built.hmem_supported, built.info, built.rma_supported),
    )
    &&& part != Some(DomainPart::Fabric) ==> happened(
        setup,
        steps,
        called(
            FabricCall::OpenFabric { info: built.info },
            Reply::Handle { ret: 0, handle: built.fabric },
        ),
    )
    &&& part is None || part == Some(DomainPart::Av) || part == Some(DomainPart::Cq) ==> happened(
        setup,
        steps,
        called(
            FabricCall::OpenDomain { fabric: built.fabric, info: built.info },
            Reply::Handle { ret: 0, handle: built.domain },
        ),
    )
    &&& part is None || part == Some(DomainPart::Cq) ==> happened(
        setup,
        steps,
        called(
            FabricCall::OpenAv { domain: built.domain },
            Reply::Handle { ret: 0, handle: built.av },
        ),
    )
    &&& part is None ==> happened(
        setup,
        steps,
        called(
            FabricCall::OpenCq {
                domain: built.domain,
                size: (config.max_send_wr + config.max_recv_wr) as usize,
            },
            Reply::Handle { ret: 0, handle: built.cq },
        ),
    )
    &&& config.request_hmem && !built.hmem_supported ==> happened(
        setup,
        steps,
        found_no_hmem(config),
    )
    &&& built.hmem_supported ==> config.request_hmem
}

/// Hints that could not be allocated.
pub open spec fn no_hints() -> Event<'static> {
    |effect: Effect<'static>, reply: Reply, now: u64|
        effect == Effect::Call(FabricCall::DupInfo { info: 0 }) && (reply matches Reply::Handle {
            ret,
            handle,
        } && handle == 0)
}

/// What a failed setup of a domain reports, and why.
pub open spec fn domain_failure(config: OfiConfig, steps: Seq<Step>, error: OfiError) -> bool {
    let setup = DomainSetup::starting(config);
    match error {
        OfiError::AllocInfo => happened(setup, steps, no_hints()),
        OfiError::InvalidProvider { position } => zero_byte_at(config.provider@, position),
        OfiError::GetInfo { reason, provider, hmem } => {
            &&& provider == config.provider
            &&& !hmem
            &&& exists|code: i32| #[trigger] query_failed(config, steps, code, reason)
        },
        OfiError::Open { part, reason } => exists|code: i32| #[trigger]
            open_failed(config, steps, part, code, reason),
        _ => false,
    }
}

/// The query without device memory returned this code, and the text says so.
pub open spec fn query_failed(
    config: OfiConfig,
    steps: Seq<Step>,
    code: i32,
    reason: ErrorText,
) -> bool {
    let setup = DomainSetup::starting(config);
    &&& happened(setup, steps, found_nothing(config, code))
    &&& code == 0 ==> reason == ErrorText::Success
    &&& code != 0 ==> happened(setup, steps, explained(code, reason))
}

/// A query without device memory that found nothing, with this code.
pub open spec fn found_nothing(config: OfiConfig, code: i32) -> Event<'static> {
    |effect: Effect<'static>, reply: Reply, now: u64|
        {
            &&& effect matches Effect::Call(FabricCall::GetInfo { hints, request })
            &&& asks_for(config, request)
            &&& !request.hmem
            &&& reply matches Reply::Info { ret, info, rma }
            &&& ret == code
            &&& ret != 0 || info == 0
        }
}

/// The call for a part returned this code, and the text says what it means.
pub open spec fn open_failed(
    config: OfiConfig,
    steps: Seq<Step>,
    part: DomainPart,
    code: i32,
    reason: ErrorText,
) -> bool {
    let setup = DomainSetup::starting(config);
    &&& happened(setup, steps, failed_to_open(part, code))
    &&& happened(setup, steps, explained(code, reason))
}

/// Whether the first zero byte of a name is at this position.
pub open spec fn first_zero_byte(name: Seq<char>, position: int) -> bool {
    &&& 0 <= position < encode_utf8(name).len()
    &&& encode_utf8(name)[position] == 0
    &&& forall|i: int| 0 <= i < position ==> encode_utf8(name)[i] != 0
}

/// Whether the name has a first zero byte, at the position that is reported.
pub open spec fn zero_byte_at(name: Seq<char>, reported: usize) -> bool {
    exists|position: int| #[trigger]
        first_zero_byte(name, position) && (position <= usize::MAX ==> reported == position)
}

/// A domain that was set up is built on a list that a query found: it supports
/// device memory exactly if that query asked for it, and remote memory access
/// exactly if that query's answer granted it. Its objects were opened on one
/// another, the queue with room for all work requests. Where device memory was
/// wanted and is not there, a query for it found nothing.
pub proof fn law_domain_comes_from_its_answers(config: OfiConfig, steps: Seq<Step>)
    requires
        answered(DomainSetup::starting(config), steps),
    ensures
        match run(DomainSetup::starting(config), steps).phase {
            DomainPhase::Done(Ok(domain)) => well_founded(config, steps, domain, None),
            DomainPhase::Done(Err(error)) => domain_failure(config, steps, error),
            _ => true,
        },
{
    lemma_domain_history(config, steps);
}

/// A query of a setup of a domain is made for a name without a zero byte, and
/// asks for device memory only if it is wanted and as long as no query for it
/// failed. The queue has room for all work requests.
pub proof fn law_domain_calls(config: OfiConfig, steps: Seq<Step>)
    requires
        answered(DomainSetup::starting(config), steps),
    ensures
        match run(DomainSetup::starting(config), steps).pending() {
            Effect::Call(FabricCall::GetInfo { hints, request }) => {
                &&& asks_for(config, request)
                &&& !holds_zero_byte(config.provider@)
                &&& request.hmem ==> config.request_hmem
                &&& config.request_hmem && !request.hmem ==> happened(
                    DomainSetup::starting(config),
                    steps,
                    found_no_hmem(config),
                )
            },
            Effect::Call(FabricCall::DupInfo { info }) => info == 0,
            Effect::Call(FabricCall::OpenCq { domain, size }) => size == (config.max_send_wr
                + config.max_recv_wr) as usize,
            _ => true,
        },
{
    lemma_domain_history(config, steps);
}

/// What the state of a setup says of its history.
spec fn domain_history(config: OfiConfig, steps: Seq<Step>) -> bool {
    let setup = DomainSetup::starting(config);
    let now = run(setup, steps);
    &&& now.provider == config.provider
    &&& now.cq_size == setup.cq_size
    &&& match now.phase {
        DomainPhase::Search { query, fallback } => {
            &&& query.provider == config.provider
            &&& query.hmem == fallback
            &&& fallback ==> config.request_hmem
            &&& config.request_hmem && !query.hmem ==> happened(
                setup,
                steps,
                found_no_hmem(config),
            )
            &&& match query.phase {
                InfoPhase::Allocate => true,
                InfoPhase::Query { hints } => !holds_zero_byte(config.provider@),
                InfoPhase::FreeHints { hints, outcome } => match outcome {
                    Ok(found) => happened(
                        setup,
                        steps,
                        found_list(config, query.hmem, found.info, found.rma),
                    ),
                    Err(InfoFailure::InvalidProvider { position }) => {
                        &&& zero_byte_at(config.provider@, position)
                        &&& happened(setup, steps, found_no_hmem(config))
                    },
                    Err(InfoFailure::Code { ret }) => if query.hmem {
                        happened(setup, steps, found_no_hmem(config))
                    } else {
                        happened(setup, steps, found_nothing(config, ret))
                    },
                },
                InfoPhase::Explain { ret } => {
                    &&& ret != 0
                    &&& if query.hmem {
                        happened(setup, steps, found_no_hmem(config))
                    } else {
                        happened(setup, steps, found_nothing(config, ret))
                    }
                },
                InfoPhase::Done(_) => false,
            }
        },
        DomainPhase::Open { part, built } => well_founded(config, steps, built, Some(part)),
        DomainPhase::Undo { part, ret, built } => happened(
            setup,
            steps,
            failed_to_open(part, ret),
        ),
        DomainPhase::Explain { part, ret } => happened(setup, steps, failed_to_open(part, ret)),
        DomainPhase::Done(Ok(domain)) => well_founded(config, steps, domain, None),
        DomainPhase::Done(Err(error)) => domain_failure(config, steps, error),
    }
}

proof fn lemma_zero_byte(name: Seq<char>)
    ensures
        match encode_utf8(name).index_of_first(0u8) {
            Some(position) => first_zero_byte(name, position) && holds_zero_byte(name),
            None => !holds_zero_byte(name),
        },
{
    encode_utf8(name).index_of_first_ensures(0u8);
    if holds_zero_byte(name) {
        let i = choose|i: int| 0 <= i < encode_utf8(name).len() && encode_utf8(name)[i] == 0;
        assert(encode_utf8(name).contains(encode_utf8(name)[i]));
    }
}

proof fn lemma_domain_history(config: OfiConfig, steps: Seq<Step>)
    requires
        answered(DomainSetup::starting(config), steps),
    ensures
        domain_history(config, steps),
    decreases steps.len(),
{
    let setup = DomainSetup::starting(config);
    law_run_wf(setup, steps);
    if steps.len() > 0 {
        let before = steps.drop_last();
        lemma_domain_history(config, before);
        law_run_wf(setup, before);
        lemma_zero_byte(config.provider@);
        let was = run(setup, before);
        if let DomainPhase::Search { query, fallback } = was.phase {
            if let InfoPhase::Explain { ret } = query.phase {
                if let Reply::Text(words) = steps.last().0 {
                    let reason = match words {
                        Some(known) => ErrorText::Known(known),
                        None => ErrorText::Unknown(ret),
                    };
                    if !query.hmem {
                        assert(query_failed(config, steps, ret, reason));
                    }
                }
            }
            if let InfoPhase::FreeHints { hints, outcome } = query.phase {
                if let Err(InfoFailure::Code { ret }) = outcome {
                    if ret == 0 && !query.hmem {
                        assert(query_failed(config, steps, ret, ErrorText::Success));
                    }
                }
            }
        }
        if let DomainPhase::Explain { part, ret } = was.phase {
            if let Reply::Text(words) = steps.last().0 {
                let reason = match words {
                    Some(known) => ErrorText::Known(known),
                    None => ErrorText::Unknown(ret),
                };
                assert(open_failed(config, steps, part, ret, reason));
            }
        }
    }
}

/// The query of a domain frees its hints whatever it found, and what it found
/// leads on: to the fabric on the list, to a query without device memory after
/// one with it, or to the end.
pub proof fn law_query_leads_on(
    config: OfiConfig,
    hints: usize,
    ret: i32,
    info: usize,
    rma: bool,
    now: u64,
)
    requires
        hints != 0,
        !holds_zero_byte(config.provider@),
    ensures
        ({
            let setup = DomainSetup::starting(config);
            let allocated = setup.after(Reply::Handle { ret: 0, handle: hints }, now);
            let queried = allocated.after(Reply::Info { ret, info, rma }, now);
            let freed = queried.after(Reply::Done, now);
            &&& setup.pending() == Effect::Call(FabricCall::DupInfo { info: 0 })
            &&& allocated.pending() matches Effect::Call(FabricCall::GetInfo { hints: h, request })
            &&& h == hints
            &&& request.hmem == config.request_hmem
            &&& queried.pending() == Effect::Call(FabricCall::FreeInfo { info: hints })
            &&& if ret == 0 && info != 0 {
                freed.pending() == Effect::Call(FabricCall::OpenFabric { info })
            } else if ret != 0 {
                freed.pending() matches Effect::Call(FabricCall::StrError { code }) && (ret
                    != i32::MIN ==> code == -ret)
            } else if config.request_hmem {
                freed.pending() == Effect::Call(FabricCall::DupInfo { info: 0 })
            } else {
                freed.pending() == Effect::Finished
            }
        }),
{
    lemma_zero_byte(config.provider@);
}

/// A domain is opened object by object, each on those before it, and is then
/// what its objects make it.
pub proof fn law_domain_is_opened_in_order(
    setup: DomainSetup,
    found: OfiDomain,
    fabric: usize,
    domain: usize,
    av: usize,
    cq: usize,
    now: u64,
)
    requires
        setup.phase == (DomainPhase::Open { part: DomainPart::Fabric, built: found }),
    ensures
        ({
            let first = setup.after(Reply::Handle { ret: 0, handle: fabric }, now);
            let second = first.after(Reply::Handle { ret: 0, handle: domain }, now);
            let third = second.after(Reply::Handle { ret: 0, handle: av }, now);
            let last = third.after(Reply::Handle { ret: 0, handle: cq }, now);
            &&& setup.pending() == Effect::Call(FabricCall::OpenFabric { info: found.info })
            &&& first.pending() == Effect::Call(
                FabricCall::OpenDomain { fabric, info: found.info },
            )
            &&& second.pending() == Effect::Call(FabricCall::OpenAv { domain })
            &&& third.pending() == Effect::Call(
                FabricCall::OpenCq { domain, size: setup.cq_size },
            )
            &&& last.phase == DomainPhase::Done(
                Ok(
                    OfiDomain {
                        info: found.info,
                        fabric,
                        domain,
                        av,
                        cq,
                        hmem_supported: found.hmem_supported,
                        rma_supported: found.rma_supported,
                    },
                ),
            )
        }),
{
}

/// A domain is taken down from its last object to its first: nothing is closed
/// before what was opened on it, and the list is freed last.
pub proof fn law_domain_release_order(domain: OfiDomain)
    ensures
        match domain.next_release() {
            Some(FabricCall::Close { fid }) => {
                &&& fid != 0
                &&& fid == domain.cq || domain.cq == 0
                &&& fid == domain.cq || fid == domain.av || domain.av == 0
                &&& fid == domain.cq || fid == domain.av || fid == domain.domain || (domain.domain
                    == 0 && fid == domain.fabric)
                &&& domain.released().info == domain.info
            },
            Some(FabricCall::FreeInfo { info }) => {
                &&& info == domain.info
                &&& domain.cq == 0 && domain.av == 0 && domain.domain == 0 && domain.fabric == 0
            },
            Some(_) => false,
            None => domain.cq == 0 && domain.av == 0 && domain.domain == 0 && domain.fabric == 0
                && domain.info == 0,
        },
{
}

// ---------------------------------------------------------------------------
// Endpoints
// ---------------------------------------------------------------------------

/// What a finished or failed setup of an endpoint says of its history.
pub open spec fn endpoint_result(
    domain: OfiDomain,
    steps: Seq<Step>,
    result: Result<OfiEndpoint, OfiError>,
) -> bool {
    let setup = EndpointSetup::starting(domain);
    match result {
        Ok(endpoint) => {
            &&& endpoint_bound(domain, steps, endpoint.ep, 3)
            &&& happened(
                setup,
                steps,
                called(FabricCall::EnableEndpoint { ep: endpoint.ep }, Reply::Code(0)),
            )
        },
        Err(OfiError::Endpoint { ret }) => {
            &&& ret != 0
            &&& happened(setup, steps, endpoint_refused(domain, ret))
        },
        Err(OfiError::BindAv { ret }) => {
            &&& ret != 0
            &&& happened(setup, steps, bind_refused(domain.av, false, ret))
        },
        Err(OfiError::BindCq { ret }) => {
            &&& ret != 0
            &&& happened(setup, steps, bind_refused(domain.cq, true, ret))
        },
        Err(OfiError::Enable { ret }) => {
            &&& ret != 0
            &&& happened(setup, steps, enable_refused(ret))
        },
        Err(_) => false,
    }
}

/// An endpoint that could not be opened on the domain.
pub open spec fn endpoint_refused(domain: OfiDomain, code: i32) -> Event<'static> {
    |effect: Effect<'static>, reply: Reply, now: u64|
        {
            &&& effect == Effect::Call(
                FabricCall::OpenEndpoint { domain: domain.domain, info: domain.info },
            )
            &&& reply matches Reply::Handle { ret, handle }
            &&& ret == code
        }
}

/// An object that could not be bound to the endpoint.
pub open spec fn bind_refused(object: usize, completions: bool, code: i64) -> Event<'static> {
    |effect: Effect<'static>, reply: Reply, now: u64|
        {
            &&& effect matches Effect::Call(FabricCall::BindEndpoint { ep, fid, transmit, recv })
            &&& fid == object
            &&& transmit == completions
            &&& recv == completions
            &&& reply == Reply::Code(code)
        }
}

/// An endpoint that could not be enabled.
pub open spec fn enable_refused(code: i64) -> Event<'static> {
    |effect: Effect<'static>, reply: Reply, now: u64|
        {
            &&& effect matches Effect::Call(FabricCall::EnableEndpoint { ep })
            &&& reply == Reply::Code(code)
        }
}

/// The endpoint was opened on the domain, and the first of the address vector
/// and the queue were bound to it: the vector for nothing, the queue for the
/// completions of sends and receives.
pub open spec fn endpoint_bound(
    domain: OfiDomain,
    steps: Seq<Step>,
    ep: usize,
    objects: int,
) -> bool {
    let setup = EndpointSetup::starting(domain);
    &&& happened(
        setup,
        steps,
        called(
            FabricCall::OpenEndpoint { domain: domain.domain, info: domain.info },
            Reply::Handle { ret: 0, handle: ep },
        ),
    )
    &&& objects >= 2 ==> happened(
        setup,
        steps,
        called(
            FabricCall::BindEndpoint { ep, fid: domain.av, transmit: false, recv: false },
            Reply::Code(0),
        ),
    )
    &&& objects >= 3 ==> happened(
        setup,
        steps,
        called(
            FabricCall::BindEndpoint { ep, fid: domain.cq, transmit: true, recv: true },
            Reply::Code(0),
        ),
    )
}

/// An endpoint is opened on the domain, bound to its address vector and to its
/// queue, and enabled; a failure names the call that failed and its code.
pub proof fn law_endpoint_comes_from_its_answers(domain: OfiDomain, steps: Seq<Step>)
    requires
        answered(EndpointSetup::starting(domain), steps),
    ensures
        run(EndpointSetup::starting(domain), steps).phase matches EndpointPhase::Done(result)
            ==> endpoint_result(domain, steps, result),
{
    lemma_endpoint_history(domain, steps);
}

spec fn endpoint_history(domain: OfiDomain, steps: Seq<Step>) -> bool {
    let now = run(EndpointSetup::starting(domain), steps);
    &&& now.domain == domain
    &&& match now.phase {
        EndpointPhase::Open => true,
        EndpointPhase::BindAv { ep } => endpoint_bound(domain, steps, ep, 1),
        EndpointPhase::BindCq { ep } => endpoint_bound(domain, steps, ep, 2),
        EndpointPhase::Enable { ep } => endpoint_bound(domain, steps, ep, 3),
        EndpointPhase::Close { ep, error } => endpoint_result(domain, steps, Err(error)),
        EndpointPhase::Done(result) => endpoint_result(domain, steps, result),
    }
}

proof fn lemma_endpoint_history(domain: OfiDomain, steps: Seq<Step>)
    requires
        answered(EndpointSetup::starting(domain), steps),
    ensures
        endpoint_history(domain, steps),
    decreases steps.len(),
{
    if steps.len() > 0 {
        lemma_endpoint_history(domain, steps.drop_last());
    }
}

/// An endpoint is opened, bound twice and enabled, and is then there.
pub proof fn law_endpoint_is_opened_in_order(domain: OfiDomain, ep: usize, now: u64)
    ensures
        ({
            let setup = EndpointSetup::starting(domain);
            let opened = setup.after(Reply::Handle { ret: 0, handle: ep }, now);
            let bound = opened.after(Reply::Code(0), now);
            let ready = bound.after(Reply::Code(0), now);
            &&& setup.pending() == Effect::Call(
                FabricCall::OpenEndpoint { domain: domain.domain, info: domain.info },
            )
            &&& opened.pending() == Effect::Call(
                FabricCall::BindEndpoint { ep, fid: domain.av, transmit: false, recv: false },
            )
            &&& bound.pending() == Effect::Call(
                FabricCall::BindEndpoint { ep, fid: domain.cq, transmit: true, recv: true },
            )
            &&& ready.pending() == Effect::Call(FabricCall::EnableEndpoint { ep })
            &&& ready.after(Reply::Code(0), now).phase == EndpointPhase::Done(
                Ok(OfiEndpoint { ep }),
            )
        }),
{
}

/// The name of an endpoint is asked for twice: for its length, and then into a
/// buffer of the length that the first call reported, whatever its code.
pub proof fn law_name_calls(ep: usize, first: Reply, now: u64)
    requires
        answers(NameQuery::starting(ep).pending(), first),
    ensures
        NameQuery::starting(ep).pending() == Effect::Call(FabricCall::GetName { ep, capacity: 0 }),
        first matches Reply::Name { ret, addr, addr_len } && NameQuery::starting(ep).after(
            first,
            now,
        ).pending() == Effect::Call(FabricCall::GetName { ep, capacity: addr_len }),
{
}

// ---------------------------------------------------------------------------
// Managers
// ---------------------------------------------------------------------------

/// The steps of a manager's setup that its domain took.
pub open spec fn domain_steps(setup: ManagerSetup, steps: Seq<Step>) -> Seq<Step>
    decreases steps.len(),
{
    if steps.len() == 0 {
        steps
    } else if run(setup, steps.drop_last()).phase is Domain {
        steps
    } else {
        domain_steps(setup, steps.drop_last())
    }
}

/// The steps of a manager's setup that its endpoint took.
pub open spec fn endpoint_steps(setup: ManagerSetup, steps: Seq<Step>) -> Seq<Step>
    decreases steps.len(),
{
    if steps.len() == 0 {
        steps
    } else if run(setup, steps.drop_last()).phase is Endpoint {
        endpoint_steps(setup, steps.drop_last()).push(steps.last())
    } else {
        endpoint_steps(setup, steps.drop_last())
    }
}

/// A manager is made of the domain that its configuration leads to and of an
/// endpoint on that domain, and its background thread reads that domain's
/// queue. It fails as its domain or its endpoint failed.
pub proof fn law_manager_comes_from_its_parts(setup: ManagerSetup, steps: Seq<Step>)
    requires
        setup.phase == ManagerPhase::Domain(DomainSetup::starting(setup.config)),
        answered(setup, steps),
    ensures
        ({
            let now = run(setup, steps);
            let domain = run(DomainSetup::starting(setup.config), domain_steps(setup, steps));
            &&& now.config == setup.config
            &&& answered(DomainSetup::starting(setup.config), domain_steps(setup, steps))
            &&& match domain.phase {
                DomainPhase::Done(Ok(built)) => {
                    let endpoint = run(
                        EndpointSetup::starting(built),
                        endpoint_steps(setup, steps),
                    );
                    &&& answered(EndpointSetup::starting(built), endpoint_steps(setup, steps))
                    &&& match endpoint.phase {
                        EndpointPhase::Done(Ok(made)) => {
                            &&& now.phase == ManagerPhase::Done(Ok((built, made))) || now.pending()
                                == (Effect::SpawnProgress { cq: built.cq })
                        },
                        EndpointPhase::Done(Err(error)) => {
                            &&& now.phase is Undo || now.phase is Done
                            &&& now.phase matches ManagerPhase::Undo { domain, error: kept }
                                ==> kept == error
                            &&& now.phase matches ManagerPhase::Done(result) ==> result
                                == Err::<(OfiDomain, OfiEndpoint), OfiError>(error)
                        },
                        _ => now.pending() == endpoint.pending(),
                    }
                },
                DomainPhase::Done(Err(error)) => now.phase == ManagerPhase::Done(Err(error)),
                _ => now.pending() == domain.pending(),
            }
        }),
{
    lemma_manager_parts(setup, steps);
}

spec fn manager_parts(setup: ManagerSetup, steps: Seq<Step>) -> bool {
    let now = run(setup, steps);
    let domain = run(DomainSetup::starting(setup.config), domain_steps(setup, steps));
    let of_endpoint = endpoint_steps(setup, steps);
    &&& now.config == setup.config
    &&& answered(DomainSetup::starting(setup.config), domain_steps(setup, steps))
    &&& match now.phase {
        ManagerPhase::Domain(at) => {
            &&& at == domain
            &&& domain_steps(setup, steps) == steps
            &&& of_endpoint.len() == 0
        },
        ManagerPhase::Endpoint { domain: built, setup: at } => {
            &&& domain.phase == DomainPhase::Done(Ok(built))
            &&& answered(EndpointSetup::starting(built), of_endpoint)
            &&& at == run(EndpointSetup::starting(built), of_endpoint)
        },
        ManagerPhase::Undo { domain: rest, error } => {
            &&& domain.phase matches DomainPhase::Done(Ok(built))
            &&& answered(EndpointSetup::starting(built), of_endpoint)
            &&& run(EndpointSetup::starting(built), of_endpoint).phase == EndpointPhase::Done(
                Err(error),
            )
        },
        ManagerPhase::Spawn { domain: built, endpoint } => {
            &&& domain.phase == DomainPhase::Done(Ok(built))
            &&& answered(EndpointSetup::starting(built), of_endpoint)
            &&& run(EndpointSetup::starting(built), of_endpoint).phase == EndpointPhase::Done(
                Ok(endpoint),
            )
        },
        ManagerPhase::Done(Ok((built, endpoint))) => {
            &&& domain.phase == DomainPhase::Done(Ok(built))
            &&& answered(EndpointSetup::starting(built), of_endpoint)
            &&& run(EndpointSetup::starting(built), of_endpoint).phase == EndpointPhase::Done(
                Ok(endpoint),
            )
        },
        ManagerPhase::Done(Err(error)) => {
            ||| domain.phase == DomainPhase::Done(Err(error))
            ||| domain.phase matches DomainPhase::Done(Ok(built)) && answered(
                EndpointSetup::starting(built),
                of_endpoint,
            ) && run(EndpointSetup::starting(built), of_endpoint).phase == EndpointPhase::Done(
                Err(error),
            )
        },
    }
}

proof fn lemma_manager_parts(setup: ManagerSetup, steps: Seq<Step>)
    requires
        setup.phase == ManagerPhase::Domain(DomainSetup::starting(setup.config)),
        answered(setup, steps),
    ensures
        manager_parts(setup, steps),
        run(setup, steps).wf(),
    decreases steps.len(),
{
    law_run_wf(setup, steps);
    if steps.len() > 0 {
        let before = steps.drop_last();
        lemma_manager_parts(setup, before);
        let was = run(setup, before);
        if was.phase is Endpoint {
            let taken = endpoint_steps(setup, before).push(steps.last());
            assert(taken.drop_last() =~= endpoint_steps(setup, before));
            assert(taken.last() == steps.last());
        }
    }
}

/// A manager is taken down from its thread to its domain: no region is closed
/// before the thread has ended, the endpoint not before the regions, and the
/// domain not before the endpoint.
pub proof fn law_teardown_order(teardown: Teardown, now: u64)
    requires
        teardown.wf(),
    ensures
        ({
            let next = teardown.after(Reply::Done, now);
            if teardown.running {
                &&& teardown.pending() == Effect::StopProgress
                &&& !next.running
                &&& next.left == teardown.left
            } else if teardown.left > 0 {
                &&& teardown.pending() == Effect::Call(
                    FabricCall::Close { fid: teardown.mrs@[teardown.left - 1].mr },
                )
                &&& next.left == teardown.left - 1
            } else if teardown.endpoint.ep != 0 {
                &&& teardown.pending() == Effect::Call(
                    FabricCall::Close { fid: teardown.endpoint.ep },
                )
                &&& next.endpoint.ep == 0
                &&& next.domain == teardown.domain
            } else {
                match teardown.domain.next_release() {
                    Some(call) => teardown.pending() == Effect::Call(call),
                    None => teardown.pending() == Effect::Finished,
                }
            }
        }),
{
}

/// A driver can hand back whatever libfabric, the driver of the device, a peer
/// or the runtime gives: every code, every handle that is not null after a
/// success, and every answer or reason.
pub proof fn law_every_answer_is_taken(
    call: FabricCall<'static>,
    code: i64,
    ret: i32,
    handle: usize,
    value: u64,
    flag: bool,
    words: Option<String>,
    reason: String,
)
    ensures
        call is Post || call is ReadCq || call is BindEndpoint || call is EnableEndpoint
            ==> answers(Effect::Call(call), Reply::Code(code)),
        call is DupInfo ==> answers(Effect::Call(call), Reply::Handle { ret, handle }),
        (call is OpenFabric || call is OpenDomain || call is OpenAv || call is OpenCq || call
            is OpenEndpoint) && (ret == 0 ==> handle != 0) ==> answers(
            Effect::Call(call),
            Reply::Handle { ret, handle },
        ),
        call is GetInfo ==> answers(
            Effect::Call(call),
            Reply::Info { ret, info: handle, rma: flag },
        ),
        call is FreeInfo || call is Close ==> answers(Effect::Call(call), Reply::Done),
        call is StrError ==> answers(Effect::Call(call), Reply::Text(words)),
        call is AvInsert ==> answers(Effect::Call(call), Reply::Address { ret, fi_addr: value }),
        call is ReadCqError ==> answers(
            Effect::Call(call),
            Reply::CqError { err: ret, prov_errno: ret },
        ),
        answers(Effect::IsDevicePointer { addr: handle }, Reply::DevicePointer(flag)),
        answers(Effect::TakeAnswer, Reply::Pending),
        answers(Effect::TakeAnswer, Reply::Answer(Ok(Ok(())))),
        answers(Effect::TakeAnswer, Reply::Answer(Ok(Err(reason)))),
        answers(Effect::TakeAnswer, Reply::Answer(Err(reason))),
        answers(Effect::FindManager, Reply::Manager(Ok(Some(reason)))),
        answers(Effect::FindManager, Reply::Manager(Ok(None))),
        answers(Effect::FindManager, Reply::Manager(Err(reason))),
        answers(Effect::PauseProgress, Reply::Done),
        answers(Effect::ResumeProgress, Reply::Done),
        answers(Effect::StopProgress, Reply::Done),
        answers(Effect::SpawnProgress { cq: handle }, Reply::Done),
        answers(Effect::Yield, Reply::Done),
{
}

} // verus!
