//! Laws of the transport as a whole.
//!
//! They speak of runs: a machine, and a sequence of answers each of which
//! answers what the machine asked for. Nothing is supposed of the answers
//! beyond that.

use crate::backend::{Submit, SubmitPhase};
use crate::completion::{PollCq, PollPhase, PostAndPollCq, PostPhase};
use crate::domain::{DomainPhase, DomainSetup, InfoPhase, InfoQuery, OfiDomain};
use crate::effect::{
    answers, gives_back, ledger, Effect, FabricCall, PostCall, Reply, Resource, FI_EAGAIN,
};
use crate::endpoint::{EndpointPhase, EndpointSetup, NamePhase, NameQuery};
use crate::error::OfiError;
use crate::machine::{
    answered, law_pauses_balance, law_resources_accounted, law_run_wf, outstanding, pause_count,
    run, Machine, Step,
};
use crate::manager_actor::{Manager, ManagerPhase, ManagerSetup};
use crate::messages::{OfiManagerLocalMessage, OfiManagerMessage};
use crate::ops::{LocalMemory, OfiBuffer, RdmaOp};
use crate::peers::ResolvePhase;
use crate::primitives::OfiConfig;
use crate::probe::Probe;
use crate::progress::{CqProgressGuard, ProgressStep};
use crate::task::{
    peer_fits, post_fits, recv_fits, Job, Outcome, PeerPhase, RequestPhase, Task, TransferOp,
    TransferPhase,
};
use crate::teardown::Teardown;
use vstd::multiset::Multiset;
use vstd::prelude::*;

verus! {

// ---------------------------------------------------------------------------
// Setting up and taking down
// ---------------------------------------------------------------------------

/// A probe leaves nothing behind.
pub proof fn law_probe_leaves_nothing(probe: Probe, steps: Seq<Step>)
    requires
        probe.phase is Allocate,
        answered(probe, steps),
        run(probe, steps).phase is Done,
    ensures
        outstanding(probe, steps, Multiset::empty()) == Multiset::<Resource>::empty(),
{
    law_resources_accounted(probe, steps);
}

/// A probe finds a provider exactly if there are hints and the query succeeds
/// with a list.
pub proof fn law_probe_answer(
    probe: Probe,
    hints: usize,
    ret: i32,
    info: usize,
    rma: bool,
    now: u64,
)
    requires
        probe.phase is Allocate,
    ensures
        ({
            let allocated = probe.after(Reply::Handle { ret: 0, handle: hints }, now);
            let queried = allocated.after(Reply::Info { ret, info, rma }, now).after(
                Reply::Done,
                now,
            );
            if hints == 0 {
                allocated.answer() == Some(false)
            } else if ret == 0 && info != 0 {
                queried.after(Reply::Done, now).answer() == Some(true)
            } else {
                queried.answer() == Some(false)
            }
        }),
{
}

/// A domain that was set up is complete and holds exactly its five resources;
/// a setup that failed has given everything back.
pub proof fn law_domain_setup(config: OfiConfig, steps: Seq<Step>)
    requires
        answered(DomainSetup::starting(config), steps),
    ensures
        ({
            let setup = DomainSetup::starting(config);
            match run(setup, steps).phase {
                DomainPhase::Done(Ok(domain)) => {
                    &&& domain.complete()
                    &&& outstanding(setup, steps, Multiset::empty()) == domain.resources()
                },
                DomainPhase::Done(Err(_)) => {
                    outstanding(setup, steps, Multiset::empty()) == Multiset::<Resource>::empty()
                },
                _ => true,
            }
        }),
{
    let setup = DomainSetup::starting(config);
    law_run_wf(setup, steps);
    law_resources_accounted(setup, steps);
}

/// Whether a setup's state is in line with what the configuration asks for.
spec fn hmem_negotiated(setup: DomainSetup, config: OfiConfig) -> bool {
    match setup.phase {
        DomainPhase::Search { query, fallback } => {
            &&& query.hmem == fallback
            &&& fallback ==> config.request_hmem
            &&& !(query.phase is Done)
        },
        DomainPhase::Open { part, built } => built.hmem_supported ==> config.request_hmem,
        DomainPhase::Undo { part, ret, built } => true,
        DomainPhase::Explain { part, ret } => true,
        DomainPhase::Done(Ok(domain)) => domain.hmem_supported ==> config.request_hmem,
        DomainPhase::Done(Err(error)) => error matches OfiError::GetInfo { reason, provider, hmem }
            ==> !hmem,
    }
}

/// Device memory is used only if the configuration asks for it, and a setup
/// never fails for the want of it: the failure that it reports is that of a
/// query without it.
pub proof fn law_hmem_negotiation(config: OfiConfig, steps: Seq<Step>)
    requires
        answered(DomainSetup::starting(config), steps),
    ensures
        match run(DomainSetup::starting(config), steps).phase {
            DomainPhase::Done(Ok(domain)) => domain.hmem_supported ==> config.request_hmem,
            DomainPhase::Done(Err(OfiError::GetInfo { reason, provider, hmem })) => !hmem,
            _ => true,
        },
{
    lemma_hmem_negotiated(config, steps);
}

proof fn lemma_hmem_negotiated(config: OfiConfig, steps: Seq<Step>)
    requires
        answered(DomainSetup::starting(config), steps),
    ensures
        hmem_negotiated(run(DomainSetup::starting(config), steps), config),
    decreases steps.len(),
{
    if steps.len() > 0 {
        lemma_hmem_negotiated(config, steps.drop_last());
    }
}

/// A query for device memory that finds nothing is followed by one without it.
pub proof fn law_hmem_fallback(setup: DomainSetup, query: InfoQuery, error: OfiError)
    requires
        query.phase == InfoPhase::Done(Err(error)),
    ensures
        setup.searched(query, true) == (DomainPhase::Search {
            query: InfoQuery::starting(setup.provider, false),
            fallback: false,
        }),
{
}

/// Taking a domain down gives back each of its resources, one call at a time.
pub proof fn law_domain_release(domain: OfiDomain)
    ensures
        match domain.next_release() {
            Some(call) => {
                &&& ledger(domain.resources(), Effect::Call(call), Reply::Done)
                    == domain.released().resources()
                &&& domain.released().handles() == domain.handles() - 1
            },
            None => {
                &&& domain.handles() == 0
                &&& domain.resources() == Multiset::<Resource>::empty()
            },
        },
{
    broadcast use vstd::multiset::group_multiset_axioms;

    if let Some(call) = domain.next_release() {
        assert(ledger(domain.resources(), Effect::Call(call), Reply::Done)
            =~= domain.released().resources());
    } else {
        assert(domain.resources() =~= Multiset::empty());
    }
}

/// An endpoint that was set up is all that its setup holds; a setup that failed
/// has given it back.
pub proof fn law_endpoint_setup(domain: OfiDomain, steps: Seq<Step>)
    requires
        answered(EndpointSetup::starting(domain), steps),
    ensures
        ({
            let setup = EndpointSetup::starting(domain);
            match run(setup, steps).phase {
                EndpointPhase::Done(Ok(endpoint)) => {
                    &&& endpoint.ep != 0
                    &&& outstanding(setup, steps, Multiset::empty()) == Multiset::singleton(
                        Resource::Fid(endpoint.ep),
                    )
                },
                EndpointPhase::Done(Err(_)) => {
                    outstanding(setup, steps, Multiset::empty()) == Multiset::<Resource>::empty()
                },
                _ => true,
            }
        }),
{
    let setup = EndpointSetup::starting(domain);
    law_run_wf(setup, steps);
    law_resources_accounted(setup, steps);
}

/// The address of an endpoint is as long as its length says, and it is what
/// the second call stored; only a failure of the second call is one.
pub proof fn law_name_length(query: NameQuery, first: Reply, second: Reply, now: u64)
    requires
        query.phase is Size,
        answers(query.pending(), first),
        answers(query.after(first, now).pending(), second),
    ensures
        second matches Reply::Name { ret, addr, addr_len } && match query.after(first, now).after(
            second,
            now,
        ).phase {
            NamePhase::Done(Ok(info)) => {
                &&& ret == 0
                &&& info.addr == addr
                &&& info.addr@.len() == info.addr_len
                &&& first matches Reply::Name { ret: _, addr: _, addr_len: size } && (size > 0
                    ==> info.addr_len == addr_len <= size)
            },
            NamePhase::Done(Err(error)) => ret != 0 && error == (OfiError::GetName { ret }),
            _ => false,
        },
{
}

/// A manager that was set up holds its domain and its endpoint; a setup that
/// failed has given everything back.
pub proof fn law_manager_setup(setup: ManagerSetup, steps: Seq<Step>)
    requires
        setup.phase == ManagerPhase::Domain(DomainSetup::starting(setup.config)),
        answered(setup, steps),
    ensures
        match run(setup, steps).phase {
            ManagerPhase::Done(Ok((domain, endpoint))) => {
                &&& domain.complete()
                &&& endpoint.ep != 0
                &&& outstanding(setup, steps, Multiset::empty()) == domain.resources().insert(
                    Resource::Fid(endpoint.ep),
                )
            },
            ManagerPhase::Done(Err(_)) => {
                outstanding(setup, steps, Multiset::empty()) == Multiset::<Resource>::empty()
            },
            _ => true,
        },
{
    law_run_wf(setup, steps);
    law_resources_accounted(setup, steps);
}

/// Taking a manager down gives back all that it keeps.
pub proof fn law_teardown_gives_everything_back(teardown: Teardown, steps: Seq<Step>)
    requires
        teardown.wf(),
        answered(teardown, steps),
        run(teardown, steps).pending() == Effect::Finished,
    ensures
        outstanding(teardown, steps, teardown.held()) == Multiset::<Resource>::empty(),
{
    broadcast use vstd::multiset::group_multiset_axioms;

    law_resources_accounted(teardown, steps);
    let last = run(teardown, steps);
    law_domain_release(last.domain);
    assert(last.mrs@.take(0).len() == 0);
    assert(last.held() =~= Multiset::empty());
}

/// Nothing is given back while the background thread is still there, and it
/// does not come back: no queue is closed that it could read.
pub proof fn law_thread_stops_first(teardown: Teardown, steps: Seq<Step>)
    ensures
        gives_back(run(teardown, steps).pending()) is Some ==> !run(teardown, steps).running,
        !teardown.running ==> !run(teardown, steps).running,
    decreases steps.len(),
{
    if steps.len() > 0 {
        law_thread_stops_first(teardown, steps.drop_last());
    }
}

// ---------------------------------------------------------------------------
// Posting and polling
// ---------------------------------------------------------------------------

/// Once the deadline has passed, a poll comes to an end within three answers.
pub proof fn law_poll_ends(
    poll: PollCq,
    first: Reply,
    second: Reply,
    third: Reply,
    t1: u64,
    t2: u64,
    t3: u64,
)
    requires
        poll.deadline <= t1,
        poll.deadline <= t2,
        poll.deadline <= t3,
        !(poll.phase is Done),
        answers(poll.pending(), first),
        poll.after(first, t1).phase is Done || answers(poll.after(first, t1).pending(), second),
        poll.after(first, t1).after(second, t2).phase is Done || answers(
            poll.after(first, t1).after(second, t2).pending(),
            third,
        ),
    ensures
        poll.after(first, t1).after(second, t2).after(third, t3).phase is Done,
{
}

/// A poll of a queue where nothing arrives times out, and not before its deadline.
pub proof fn law_poll_times_out(poll: PollCq, now: u64)
    requires
        poll.phase is Read,
    ensures
        poll.after(Reply::Code((-FI_EAGAIN) as i64), now).phase == (if now >= poll.deadline {
            PollPhase::Done(Err(OfiError::CqTimeout))
        } else {
            PollPhase::Yield
        }),
{
}

/// A poll succeeds exactly on an entry.
pub proof fn law_poll_succeeds_on_entry(poll: PollCq, reply: Reply, now: u64)
    requires
        !(poll.phase is Done),
        answers(poll.pending(), reply),
    ensures
        poll.after(reply, now).phase == PollPhase::Done(Ok(())) <==> poll.phase is Read && (
        reply matches Reply::Code(ret) && ret > 0),
{
}

/// A posting is tried again exactly if libfabric says "try again" before the
/// deadline; anything else is final.
pub proof fn law_post_retries(posting: PostAndPollCq, deadline: u128, ret: i64, now: u64)
    requires
        posting.phase == (PostPhase::Post { deadline }),
    ensures
        match posting.after(Reply::Code(ret), now).phase {
            PostPhase::Poll(poll) => {
                &&& ret == 0
                &&& poll == PollCq::starting(posting.cq, posting.timeout_ns, false, now)
            },
            PostPhase::Drive { deadline: same } => {
                ret == -FI_EAGAIN && now < deadline && same == deadline
            },
            PostPhase::Resume(result) => {
                &&& ret != 0
                &&& ret != -FI_EAGAIN || now >= deadline
                &&& result == Err::<(), OfiError>(
                    OfiError::Post { op: posting.post.op(), ret },
                )
            },
            _ => false,
        },
{
}

/// Once the deadline has passed, a posting that is still refused gives up
/// within three answers, with the refusal as its error.
pub proof fn law_refused_posting_ends(
    posting: PostAndPollCq,
    deadline: u128,
    first: Reply,
    second: Reply,
    third: Reply,
    t1: u64,
    t2: u64,
    t3: u64,
)
    requires
        posting.phase == (PostPhase::Post { deadline }) || posting.phase == (PostPhase::Drive {
            deadline,
        }) || posting.phase == (PostPhase::Yield { deadline }),
        deadline <= t1,
        deadline <= t2,
        deadline <= t3,
        refusal(posting, first),
        settled(posting.after(first, t1)) || refusal(posting.after(first, t1), second),
        settled(posting.after(first, t1).after(second, t2)) || refusal(
            posting.after(first, t1).after(second, t2),
            third,
        ),
    ensures
        ({
            let refused = PostPhase::Resume(
                Err(OfiError::Post { op: posting.post.op(), ret: (-FI_EAGAIN) as i64 }),
            );
            ||| posting.after(first, t1).phase == refused
            ||| posting.after(first, t1).after(second, t2).phase == refused
            ||| posting.after(first, t1).after(second, t2).after(third, t3).phase == refused
        }),
{
}

/// Whether a posting has come to its result.
pub open spec fn settled(posting: PostAndPollCq) -> bool {
    posting.phase is Resume || posting.phase is Done
}

/// An answer by which a posting is not accepted yet.
pub open spec fn refusal(posting: PostAndPollCq, reply: Reply) -> bool {
    &&& answers(posting.pending(), reply)
    &&& posting.phase is Post ==> reply == Reply::Code((-FI_EAGAIN) as i64)
}

/// Once the deadline of its completion has passed, an accepted posting stops
/// to wait within three answers.
pub proof fn law_accepted_posting_ends(
    posting: PostAndPollCq,
    poll: PollCq,
    first: Reply,
    second: Reply,
    third: Reply,
    t1: u64,
    t2: u64,
    t3: u64,
)
    requires
        posting.wf(),
        posting.phase == PostPhase::Poll(poll),
        poll.deadline <= t1,
        poll.deadline <= t2,
        poll.deadline <= t3,
        answers(posting.pending(), first),
        settled(posting.after(first, t1)) || answers(posting.after(first, t1).pending(), second),
        settled(posting.after(first, t1).after(second, t2)) || answers(
            posting.after(first, t1).after(second, t2).pending(),
            third,
        ),
    ensures
        ({
            ||| posting.after(first, t1).phase is Resume
            ||| posting.after(first, t1).after(second, t2).phase is Resume
            ||| posting.after(first, t1).after(second, t2).after(third, t3).phase is Resume
        }),
{
}

/// From its beginning to its end a posting keeps the background thread from
/// the queue: with its pause counted in the flags, the thread does not read, so
/// that it takes no completion of the transfer.
pub proof fn law_posting_is_covered(
    posting: PostAndPollCq,
    steps: Seq<Step>,
    guard: CqProgressGuard,
)
    requires
        posting.wf(),
        posting.phase is Pause,
        answered(posting, steps),
        steps.len() > 0,
        !(run(posting, steps).phase is Done),
        guard.active_ops >= pause_count(posting, steps, 0),
    ensures
        guard.step() != ProgressStep::Read,
{
    law_pauses_balance(posting, steps);
    lemma_begun(posting, steps);
}

proof fn lemma_begun(posting: PostAndPollCq, steps: Seq<Step>)
    requires
        steps.len() > 0,
    ensures
        !(run(posting, steps).phase is Pause),
    decreases steps.len(),
{
    if steps.len() > 1 {
        lemma_begun(posting, steps.drop_last());
    }
}

/// Whether a state of a posting has no success to report, or one that an entry
/// of the queue brought about.
spec fn posted_first(posting: PostAndPollCq, accepted: bool) -> bool {
    match posting.phase {
        PostPhase::Poll(_) => accepted,
        PostPhase::Resume(Ok(_)) => accepted,
        PostPhase::Done(Ok(_)) => accepted,
        _ => true,
    }
}

/// Whether libfabric accepted the transfer in the course of a run.
pub open spec fn accepted(posting: PostAndPollCq, steps: Seq<Step>) -> bool
    decreases steps.len(),
{
    steps.len() > 0 && (accepted(posting, steps.drop_last()) || {
        &&& run(posting, steps.drop_last()).pending() == Effect::Call(
            FabricCall::Post(posting.post),
        )
        &&& steps.last().0 == Reply::Code(0)
    })
}

/// A posting succeeds only if its transfer was accepted.
pub proof fn law_post_success_was_accepted(posting: PostAndPollCq, steps: Seq<Step>)
    requires
        posting.wf(),
        posting.phase is Pause,
        answered(posting, steps),
        run(posting, steps).phase == PostPhase::Done(Ok(())),
    ensures
        accepted(posting, steps),
{
    lemma_posted_first(posting, steps);
}

proof fn lemma_posted_first(posting: PostAndPollCq, steps: Seq<Step>)
    requires
        posting.wf(),
        posting.phase is Pause,
        answered(posting, steps),
    ensures
        posted_first(run(posting, steps), accepted(posting, steps)),
        run(posting, steps).post == posting.post,
    decreases steps.len(),
{
    if steps.len() > 0 {
        lemma_posted_first(posting, steps.drop_last());
    }
}

// ---------------------------------------------------------------------------
// Requests of a manager
// ---------------------------------------------------------------------------

/// What no request changes, and what it only adds to.
pub open spec fn frame(before: Manager, after: Manager) -> bool {
    &&& after.id == before.id
    &&& after.owner == before.owner
    &&& after.domain == before.domain
    &&& after.endpoint == before.endpoint
    &&& after.config == before.config
    &&& after.next_mr_key >= before.next_mr_key
    &&& forall|id: usize| #[trigger]
        before.buffers.contains_key(id) ==> after.buffers.contains_key(id) && after.buffers[id]
            == before.buffers[id]
    &&& forall|peer: Seq<char>| #[trigger]
        before.peers.contains_key(peer) ==> after.peers.contains_key(peer) && after.peers[peer]
            == before.peers[peer]
}

/// A request in progress leaves the manager's identity, domain, endpoint and
/// configuration alone; keys only grow, and neither registrations nor the
/// addresses of peers are lost. (A release forgets its buffer as it begins.)
pub proof fn law_manager_frame(task: Task, steps: Seq<Step>)
    requires
        task.wf(),
        answered(task, steps),
    ensures
        frame(task.manager, run(task, steps).manager),
    decreases steps.len(),
{
    if steps.len() > 0 {
        law_manager_frame(task, steps.drop_last());
        law_run_wf(task, steps.drop_last());
        let last = run(task, steps.drop_last());
        lemma_step_frame(last, steps.last().0, steps.last().1);
    }
}

proof fn lemma_step_frame(task: Task, reply: Reply, now: u64)
    requires
        task.wf(),
    ensures
        frame(task.manager, task.after(reply, now).manager),
        task.job is Transfer ==> task.after(reply, now).manager.buffers == task.manager.buffers,
        task.job is Transfer ==> task.after(reply, now).manager.next_mr_key
            == task.manager.next_mr_key,
{
}

/// A registered buffer stays registered, in the same region and with the same
/// description, whatever request the manager handles: but for a release, which
/// forgets its buffer as it begins. A request for it is answered at once.
pub proof fn law_registrations_are_kept(task: Task, steps: Seq<Step>, id: usize)
    requires
        task.wf(),
        task.manager.lookup(id) is Some,
        answered(task, steps),
    ensures
        run(task, steps).manager.lookup(id) == task.manager.lookup(id),
        task.manager.lookup(id) matches Some((mr, buf)) && run(
            task,
            steps,
        ).manager.start_request(id).job == Job::Finished(Outcome::Buffer(Ok(Some(buf)))),
{
    law_manager_frame(task, steps);
}

/// A cancelled request comes to an end within two answers. It leaves the
/// manager as it is, leaves out exactly what the manager keeps, and lets the
/// background thread go.
pub proof fn law_cancelled_request_cleans_up(task: Task, steps: Seq<Step>)
    requires
        task.wf(),
        task.outcome() is None,
        answered(task.cancelled(), steps),
    ensures
        steps.len() <= 2,
        steps.len() == 2 ==> run(task.cancelled(), steps).outcome() is Some,
        run(task.cancelled(), steps).manager == task.manager,
        run(task.cancelled(), steps).outcome() is Some ==> {
            &&& run(task.cancelled(), steps).outcome() == Some(Outcome::Cancelled)
            &&& outstanding(task.cancelled(), steps, task.held()) == task.manager.resources()
            &&& pause_count(task.cancelled(), steps, task.paused()) == 0
        },
    decreases steps.len(),
{
    broadcast use vstd::multiset::group_multiset_axioms;

    let cancelled = task.cancelled();
    assert(cancelled.held() =~= task.held());
    assert(cancelled.wf());
    if steps.len() > 0 {
        law_cancelled_request_cleans_up(task, steps.drop_last());
        if steps.len() == 2 {
            assert(run(cancelled, steps.drop_last().drop_last()) == cancelled);
        }
    }
    if run(cancelled, steps).outcome() is Some {
        law_finished_request_balances(cancelled, steps);
    }
}

/// A manager never sends a message to itself, which it could not answer while
/// it handles another.
pub proof fn law_never_asks_itself(task: Task, steps: Seq<Step>)
    requires
        task.wf(),
        answered(task, steps),
    ensures
        match run(task, steps).pending() {
            Effect::Ask { peer, message } => peer@ != task.manager.id@,
            Effect::Tell { peer, message } => peer@ != task.manager.id@,
            _ => true,
        },
{
    law_run_wf(task, steps);
    law_manager_frame(task, steps);
}

/// On a domain with device memory support every registration names the kind of
/// its memory; on others none does.
pub proof fn law_registrations_match_domain(task: Task, steps: Seq<Step>)
    requires
        task.wf(),
        answered(task, steps),
    ensures
        run(task, steps).pending() matches Effect::Call(FabricCall::Register(registration)) ==> (
        registration.hmem is Some <==> task.manager.domain.hmem_supported),
{
    law_run_wf(task, steps);
    law_manager_frame(task, steps);
}

/// Remote memory access is used only where the provider supports it.
pub proof fn law_rma_only_where_supported(task: Task, steps: Seq<Step>)
    requires
        task.wf(),
        answered(task, steps),
    ensures
        run(task, steps).pending() matches Effect::Call(FabricCall::Post(call)) ==> (call is Write
            || call is Read ==> task.manager.domain.rma_supported),
{
    law_run_wf(task, steps);
    law_manager_frame(task, steps);
}

/// A request uses no key that was used before it, and none that is left for
/// those after it: no two registrations of a manager ask for the same key.
pub proof fn law_keys_are_fresh(manager: Manager, task: Task, steps: Seq<Step>)
    requires
        manager.wf(),
        manager.next_mr_key < u64::MAX,
        (exists|op: TransferOp| task == #[trigger] manager.start_transfer(op)) || (exists|
            id: usize,
        | task == #[trigger] manager.start_request(id) && manager.owner is Some),
        answered(task, steps),
    ensures
        run(task, steps).pending() matches Effect::Call(FabricCall::Register(registration))
            ==> manager.next_mr_key <= registration.key < run(task, steps).manager.next_mr_key,
{
    manager.lemma_same_resources(manager.use_key().next_mr_key, manager.peers);
    assert(task.wf());
    lemma_keys(manager, task, steps);
    law_run_wf(task, steps);
    lemma_key_taken(run(task, steps), manager.next_mr_key);
}

/// Whether a request has taken its key from `first` on.
spec fn keys_from(task: Task, first: u64) -> bool {
    match task.job {
        Job::Transfer { op, phase } => task.manager.next_mr_key > first,
        Job::RequestBuffer { remote_buf_id, phase } => phase is Register
            ==> task.manager.next_mr_key > first,
        Job::Finished(_) => true,
        _ => false,
    }
}

/// A registration asks for a key that the request has taken.
proof fn lemma_key_taken(task: Task, first: u64)
    requires
        task.wf(),
        keys_from(task, first),
    ensures
        task.pending() matches Effect::Call(FabricCall::Register(registration)) ==> first
            <= registration.key < task.manager.next_mr_key,
{
}

#[verifier::spinoff_prover]
proof fn lemma_keys_step(task: Task, reply: Reply, now: u64, first: u64)
    requires
        task.wf(),
        keys_from(task, first),
        task.manager.next_mr_key >= first,
    ensures
        keys_from(task.after(reply, now), first),
        task.after(reply, now).manager.next_mr_key >= first,
{
    lemma_step_frame(task, reply, now);
}

proof fn lemma_keys(manager: Manager, task: Task, steps: Seq<Step>)
    requires
        task.wf(),
        keys_from(task, manager.next_mr_key),
        task.manager.next_mr_key >= manager.next_mr_key,
        answered(task, steps),
    ensures
        keys_from(run(task, steps), manager.next_mr_key),
        run(task, steps).manager.next_mr_key >= manager.next_mr_key,
    decreases steps.len(),
{
    if steps.len() > 0 {
        law_run_wf(task, steps.drop_last());
        lemma_keys(manager, task, steps.drop_last());
        lemma_keys_step(
            run(task, steps.drop_last()),
            steps.last().0,
            steps.last().1,
            manager.next_mr_key,
        );
    }
}

/// A peer whose address is known is not asked for it again.
pub proof fn law_known_peer_is_not_asked(manager: Manager, peer: String)
    requires
        manager.peers.contains_key(peer@),
    ensures
        manager.resolution(peer).phase == ResolvePhase::Done(Ok(manager.peers[peer@])),
        manager.resolution(peer).pending() == Effect::Finished,
{
}

/// An address that was found once is the one that is used from then on.
pub proof fn law_resolved_peer_is_remembered(manager: Manager, peer: String, fi_addr: u64)
    ensures
        manager.learn(peer@, fi_addr).resolution(peer).phase == ResolvePhase::Done(Ok(fi_addr)),
{
}

/// A manager learns its own address from its own endpoint, and that of another
/// manager from that manager.
pub proof fn law_unknown_peer_is_found(manager: Manager, peer: String)
    requires
        !manager.peers.contains_key(peer@),
    ensures
        manager.resolution(peer).pending() == if manager.id@ == peer@ {
            Effect::Call(FabricCall::GetName { ep: manager.endpoint.ep, capacity: 0 })
        } else {
            Effect::Ask { peer: &peer, message: OfiManagerMessage::GetEndpointAddr }
        },
{
}

/// A request that comes to an end leaves out exactly what the manager keeps,
/// and holds the background thread no longer.
pub proof fn law_finished_request_balances(task: Task, steps: Seq<Step>)
    requires
        task.wf(),
        answered(task, steps),
        run(task, steps).outcome() is Some,
    ensures
        outstanding(task, steps, task.held()) == run(task, steps).manager.resources(),
        pause_count(task, steps, task.paused()) == 0,
{
    broadcast use vstd::multiset::group_multiset_axioms;

    law_resources_accounted(task, steps);
    law_pauses_balance(task, steps);
    let now = run(task, steps);
    assert(now.held() =~= now.manager.resources());
}

/// A transfer that comes to an end has given its registration back, holds the
/// background thread no longer, and has changed nothing of the manager but the
/// addresses of peers and the next key.
pub proof fn law_transfer_gives_back(manager: Manager, op: TransferOp, steps: Seq<Step>)
    requires
        manager.wf(),
        manager.next_mr_key < u64::MAX,
        answered(manager.start_transfer(op), steps),
        run(manager.start_transfer(op), steps).outcome() is Some,
    ensures
        ({
            let task = manager.start_transfer(op);
            let after = run(task, steps).manager;
            &&& outstanding(task, steps, manager.resources()) == manager.resources()
            &&& pause_count(task, steps, 0) == 0
            &&& frame(manager, after)
            &&& after.buffers == manager.buffers
            &&& after.next_mr_key == manager.next_mr_key + 1
            &&& run(task, steps).outcome() matches Some(Outcome::Executed(_))
        }),
{
    broadcast use vstd::multiset::group_multiset_axioms;

    let task = manager.start_transfer(op);
    manager.lemma_same_resources(manager.use_key().next_mr_key, manager.peers);
    assert(task.wf());
    assert(task.held() =~= manager.resources());
    law_resources_accounted(task, steps);
    law_pauses_balance(task, steps);
    law_manager_frame(task, steps);
    lemma_transfer_run(manager, op, steps);
    let after = run(task, steps).manager;
    manager.lemma_same_resources(after.next_mr_key, after.peers);
    assert(after =~= (Manager { next_mr_key: after.next_mr_key, peers: after.peers, ..manager }));
    assert(run(task, steps).held() =~= after.resources());
}

proof fn lemma_transfer_run(manager: Manager, op: TransferOp, steps: Seq<Step>)
    requires
        manager.wf(),
        manager.next_mr_key < u64::MAX,
        answered(manager.start_transfer(op), steps),
    ensures
        ({
            let now = run(manager.start_transfer(op), steps);
            &&& now.wf()
            &&& now.manager.buffers == manager.buffers
            &&& now.manager.next_mr_key == manager.next_mr_key + 1
            &&& match now.job {
                Job::Transfer { op: same, phase } => same == op,
                Job::Finished(Outcome::Executed(_)) => true,
                _ => false,
            }
        }),
    decreases steps.len(),
{
    let task = manager.start_transfer(op);
    manager.lemma_same_resources(manager.use_key().next_mr_key, manager.peers);
    assert(task.wf());
    law_run_wf(task, steps);
    if steps.len() > 0 {
        lemma_transfer_run(manager, op, steps.drop_last());
        lemma_step_frame(
            run(task, steps.drop_last()),
            steps.last().0,
            steps.last().1,
        );
    }
}

/// Every data call of a transfer is one that the transfer asks for: it goes
/// through the manager's endpoint to the address of the remote manager, and
/// covers the local memory and the remote buffer that were named.
pub proof fn law_transfer_moves_what_was_asked(manager: Manager, op: TransferOp, steps: Seq<Step>)
    requires
        manager.wf(),
        manager.next_mr_key < u64::MAX,
        answered(manager.start_transfer(op), steps),
    ensures
        ({
            let now = run(manager.start_transfer(op), steps);
            now.pending() matches Effect::Call(FabricCall::Post(call)) ==> match now.job {
                Job::Transfer { op: _, phase: TransferPhase::Recv { mr, peer, call: _ } } => {
                    recv_fits(now.manager, op, mr, call)
                },
                Job::Transfer { op: _, phase: TransferPhase::Post { mr, posting } } => {
                    post_fits(now.manager, op, mr, call)
                },
                _ => false,
            }
        }),
{
    lemma_transfer_run(manager, op, steps);
}

/// Whether a receive for a transfer's data was posted in the course of a run,
/// by this manager or by the peer.
pub open spec fn receive_posted(task: Task, steps: Seq<Step>) -> bool
    decreases steps.len(),
{
    steps.len() > 0 && (receive_posted(task, steps.drop_last()) || match run(
        task,
        steps.drop_last(),
    ).pending() {
        Effect::Call(FabricCall::Post(call)) => call is Recv && steps.last().0 == Reply::Code(0),
        Effect::Ask { peer, message } => message is PostRecv && (
        steps.last().0 matches Reply::Answer(Ok(Ok(_)))),
        _ => false,
    })
}

/// By messages, the receiver comes first: nothing is sent, and the peer is not
/// asked to send, before a receive for it is posted.
pub proof fn law_receiver_posts_first(manager: Manager, op: TransferOp, steps: Seq<Step>)
    requires
        manager.wf(),
        manager.next_mr_key < u64::MAX,
        answered(manager.start_transfer(op), steps),
    ensures
        match run(manager.start_transfer(op), steps).pending() {
            Effect::Call(FabricCall::Post(call)) => call is Send ==> receive_posted(
                manager.start_transfer(op),
                steps,
            ),
            Effect::Tell { peer, message } => message is SendFromBuffer && receive_posted(
                manager.start_transfer(op),
                steps,
            ),
            _ => true,
        },
{
    lemma_transfer_run(manager, op, steps);
    lemma_receiver_ready(manager, op, steps);
}

/// Whether a transfer by messages is past the point where its receive has to
/// be posted.
spec fn needs_receive(task: Task) -> bool {
    match task.job {
        Job::Transfer { op, phase } => !task.manager.domain.rma_supported && match phase {
            TransferPhase::TellPeer { mr } => true,
            TransferPhase::Post { mr, posting } => true,
            _ => false,
        },
        _ => false,
    }
}

proof fn lemma_receiver_ready(manager: Manager, op: TransferOp, steps: Seq<Step>)
    requires
        manager.wf(),
        manager.next_mr_key < u64::MAX,
        answered(manager.start_transfer(op), steps),
    ensures
        needs_receive(run(manager.start_transfer(op), steps)) ==> receive_posted(
            manager.start_transfer(op),
            steps,
        ),
    decreases steps.len(),
{
    lemma_transfer_run(manager, op, steps);
    if steps.len() > 0 {
        lemma_receiver_ready(manager, op, steps.drop_last());
        lemma_transfer_run(manager, op, steps.drop_last());
    }
}

/// Whether a transfer's data was handed over in the course of a run: to
/// libfabric by this manager, or by the peer on its request.
pub open spec fn handed_over(task: Task, steps: Seq<Step>) -> bool
    decreases steps.len(),
{
    steps.len() > 0 && (handed_over(task, steps.drop_last()) || match run(
        task,
        steps.drop_last(),
    ).pending() {
        Effect::Call(FabricCall::Post(call)) => !(call is Recv) && steps.last().0 == Reply::Code(0),
        Effect::TakeAnswer => steps.last().0 matches Reply::Answer(Ok(Ok(_))),
        _ => false,
    })
}

/// Whether a completion of a transfer can be due: its data was accepted by
/// libfabric, or the peer was told to send it.
pub open spec fn due(task: Task, steps: Seq<Step>) -> bool
    decreases steps.len(),
{
    steps.len() > 0 && (due(task, steps.drop_last()) || match run(
        task,
        steps.drop_last(),
    ).pending() {
        Effect::Call(FabricCall::Post(call)) => !(call is Recv) && steps.last().0 == Reply::Code(0),
        Effect::Tell { peer, message } => true,
        _ => false,
    })
}

/// Whether a completion arrived in the course of a run when it was due.
pub open spec fn completed(task: Task, steps: Seq<Step>) -> bool
    decreases steps.len(),
{
    steps.len() > 0 && (completed(task, steps.drop_last()) || {
        &&& due(task, steps.drop_last())
        &&& run(task, steps.drop_last()).pending() matches Effect::Call(call)
        &&& call is ReadCq
        &&& steps.last().0 matches Reply::Code(ret)
        &&& ret > 0
    })
}

/// A transfer reports success only if its data was handed over and a
/// completion arrived once it was due.
pub proof fn law_transfer_success_is_completed(manager: Manager, op: TransferOp, steps: Seq<Step>)
    requires
        manager.wf(),
        manager.next_mr_key < u64::MAX,
        answered(manager.start_transfer(op), steps),
        run(manager.start_transfer(op), steps).outcome() == Some(Outcome::Executed(Ok(()))),
    ensures
        handed_over(manager.start_transfer(op), steps),
        completed(manager.start_transfer(op), steps),
{
    lemma_transfer_progress(manager, op, steps);
}

/// Whether a transfer has not got further than its data and its completion allow.
spec fn progress_fits(task: Task, due: bool, handed: bool, complete: bool) -> bool {
    match task.job {
        Job::Transfer { op, phase } => match phase {
            TransferPhase::Post { mr, posting } => match posting.phase {
                PostPhase::Poll(_) => due && handed,
                PostPhase::Resume(result) => result is Ok ==> handed && complete,
                _ => true,
            },
            TransferPhase::Await { mr, wait } => due && (wait.arrived matches Some(Ok(_))
                ==> complete),
            TransferPhase::Poll { mr, poll } => due && handed,
            TransferPhase::Resume { mr, result } => result is Ok ==> handed && complete,
            TransferPhase::Close { mr, result } => result is Ok ==> handed && complete,
            _ => true,
        },
        Job::Finished(Outcome::Executed(result)) => result is Ok ==> handed && complete,
        _ => true,
    }
}

proof fn lemma_transfer_progress(manager: Manager, op: TransferOp, steps: Seq<Step>)
    requires
        manager.wf(),
        manager.next_mr_key < u64::MAX,
        answered(manager.start_transfer(op), steps),
    ensures
        progress_fits(
            run(manager.start_transfer(op), steps),
            due(manager.start_transfer(op), steps),
            handed_over(manager.start_transfer(op), steps),
            completed(manager.start_transfer(op), steps),
        ),
    decreases steps.len(),
{
    lemma_transfer_run(manager, op, steps);
    if steps.len() > 0 {
        lemma_transfer_progress(manager, op, steps.drop_last());
        lemma_transfer_run(manager, op, steps.drop_last());
    }
}

/// Whether a request waits for the completion of a call: a transfer waits for
/// that of its data, and a read also for that of its receive; a peer that asked
/// for data to be sent has its sending waited for. Nobody waits for the
/// completion of a receive that is posted for someone else's write.
pub open spec fn waits_for(task: Task, call: PostCall) -> bool {
    match task.job {
        Job::Transfer { op, phase } => !(call is Recv) || op.op_type is ReadIntoLocal,
        Job::Peer { buf_id, size, request, phase } => !(call is Recv),
        _ => false,
    }
}

/// Whether libfabric accepted a call whose completion the request waits for.
pub open spec fn in_flight(task: Task, steps: Seq<Step>) -> bool
    decreases steps.len(),
{
    steps.len() > 0 && (in_flight(task, steps.drop_last()) || {
        &&& run(task, steps.drop_last()).pending() matches Effect::Call(FabricCall::Post(call))
        &&& waits_for(run(task, steps.drop_last()), call)
        &&& steps.last().0 == Reply::Code(0)
    })
}

/// Whether a request has its result, and only gives back what it has.
pub open spec fn has_result(task: Task) -> bool {
    match task.job {
        Job::Transfer { op, phase } => phase is Close,
        Job::Finished(_) => true,
        _ => false,
    }
}

/// The background thread takes no completion that a request waits for: from
/// the time that libfabric accepted the first such call until the request has
/// its result, and while its pauses are counted in the flags, the thread does
/// not read. That holds of remote memory access, of messages, and of the
/// receive of a read while the peer is at work.
pub proof fn law_completions_not_stolen(task: Task, steps: Seq<Step>, guard: CqProgressGuard)
    requires
        task.wf(),
        task.paused() == 0,
        answered(task, steps),
        in_flight(task, steps),
        !has_result(run(task, steps)),
        guard.active_ops >= pause_count(task, steps, 0),
    ensures
        guard.step() != ProgressStep::Read,
{
    law_pauses_balance(task, steps);
    lemma_in_flight(task, steps);
}

proof fn lemma_in_flight(task: Task, steps: Seq<Step>)
    requires
        task.wf(),
        answered(task, steps),
        in_flight(task, steps),
    ensures
        has_result(run(task, steps)) || covered(run(task, steps)),
    decreases steps.len(),
{
    law_run_wf(task, steps);
    law_run_wf(task, steps.drop_last());
    if in_flight(task, steps.drop_last()) {
        lemma_in_flight(task, steps.drop_last());
    }
}

/// Whether a request is at a point at which it has the thread paused and a call
/// in flight.
spec fn covered(task: Task) -> bool {
    match task.job {
        Job::Transfer { op, phase } => match phase {
            TransferPhase::TellPeer { mr } => true,
            TransferPhase::Await { mr, wait } => true,
            TransferPhase::Post { mr, posting } => !(posting.phase is Pause),
            TransferPhase::Poll { mr, poll } => true,
            TransferPhase::Resume { mr, result } => true,
            _ => false,
        },
        Job::Peer { buf_id, size, request, phase } => phase matches PeerPhase::Send(posting)
            && !(posting.phase is Pause),
        _ => false,
    }
}

/// What a peer asks for never goes beyond the registered buffer, nor beyond
/// the size that it named.
pub proof fn law_peer_request_stays_in_buffer(task: Task, steps: Seq<Step>)
    requires
        task.wf(),
        answered(task, steps),
    ensures
        run(task, steps).job matches Job::Peer { buf_id, size, request, phase } ==> (run(
            task,
            steps,
        ).pending() matches Effect::Call(FabricCall::Post(call)) ==> {
            &&& peer_fits(run(task, steps).manager, buf_id, size, request, call)
            &&& run(task, steps).manager.lookup(buf_id) matches Some((mr, buf))
            &&& match call {
                PostCall::Recv { ep, buf: addr, len, desc, peer, context } => {
                    addr == buf.addr && len <= buf.size && len <= size
                },
                PostCall::Send { ep, buf: addr, len, desc, peer, context } => {
                    addr == buf.addr && len <= buf.size && len <= size
                },
                _ => false,
            }
        }),
{
    law_run_wf(task, steps);
}

/// A buffer that was requested is at hand: the manager answers the next request
/// for it at once, with the same description.
pub proof fn law_request_is_remembered(
    manager: Manager,
    id: usize,
    steps: Seq<Step>,
    buf: OfiBuffer,
)
    requires
        manager.wf(),
        manager.owner is Some,
        manager.next_mr_key < u64::MAX,
        answered(manager.start_request(id), steps),
        run(manager.start_request(id), steps).outcome() == Some(Outcome::Buffer(Ok(Some(buf)))),
    ensures
        run(manager.start_request(id), steps).manager.start_request(id).job == Job::Finished(
            Outcome::Buffer(Ok(Some(buf))),
        ),
{
    lemma_request_run(manager, id, steps);
}

/// A request for a buffer changes no registration but that of the buffer, and
/// leaves even that alone unless it hands out a description.
pub proof fn law_request_frame(manager: Manager, id: usize, steps: Seq<Step>)
    requires
        manager.wf(),
        manager.owner is Some,
        manager.next_mr_key < u64::MAX,
        answered(manager.start_request(id), steps),
    ensures
        ({
            let now = run(manager.start_request(id), steps);
            match now.outcome() {
                Some(Outcome::Buffer(Ok(Some(buf)))) => {
                    &&& now.manager.lookup(id) matches Some((mr, kept))
                    &&& kept == buf
                    &&& now.manager.buffers == manager.buffers.insert(id, (mr, buf))
                },
                _ => now.manager.buffers == manager.buffers,
            }
        }),
{
    lemma_request_run(manager, id, steps);
    let now = run(manager.start_request(id), steps);
    if let Some(Outcome::Buffer(Ok(Some(buf)))) = now.outcome() {
        assert(now.manager.buffers =~= manager.buffers.insert(id, now.manager.buffers[id]));
    }
}

proof fn lemma_request_run(manager: Manager, id: usize, steps: Seq<Step>)
    requires
        manager.wf(),
        manager.owner is Some,
        manager.next_mr_key < u64::MAX,
        answered(manager.start_request(id), steps),
    ensures
        ({
            let now = run(manager.start_request(id), steps);
            match now.job {
                Job::RequestBuffer { remote_buf_id, phase } => {
                    &&& remote_buf_id == id
                    &&& now.manager.buffers == manager.buffers
                },
                Job::Finished(Outcome::Buffer(Ok(Some(buf)))) => {
                    &&& now.manager.buffers.contains_key(id)
                    &&& now.manager.buffers[id].1 == buf
                    &&& now.manager.buffers == manager.buffers.insert(
                        id,
                        now.manager.buffers[id],
                    )
                },
                Job::Finished(Outcome::Buffer(_)) => now.manager.buffers == manager.buffers,
                _ => false,
            }
        }),
    decreases steps.len(),
{
    let task = manager.start_request(id);
    law_run_wf(task, steps);
    if steps.len() > 0 {
        lemma_request_run(manager, id, steps.drop_last());
    } else if manager.buffers.contains_key(id) {
        assert(manager.buffers =~= manager.buffers.insert(id, manager.buffers[id]));
    }
}

/// A description that is handed out for the first time is that of the memory
/// which the owner named.
pub proof fn law_request_describes_memory(
    manager: Manager,
    id: usize,
    steps: Seq<Step>,
    memory: LocalMemory,
    buf: OfiBuffer,
)
    requires
        manager.wf(),
        manager.owner is Some,
        manager.next_mr_key < u64::MAX,
        manager.lookup(id) is None,
        answered(manager.start_request(id), steps),
        steps.len() > 0,
        steps[0].0 == Reply::Memory(Ok(Some(memory))),
        run(manager.start_request(id), steps).outcome() == Some(Outcome::Buffer(Ok(Some(buf)))),
    ensures
        buf.addr == memory.addr,
        buf.size == memory.size,
        run(manager.start_request(id), steps).manager.lookup(id) matches Some((mr, kept))
            && mr.rkey == buf.rkey,
{
    law_run_wf(manager.start_request(id), steps);
    lemma_request_run(manager, id, steps);
    lemma_request_memory(manager, id, steps, memory);
}

proof fn lemma_request_memory(manager: Manager, id: usize, steps: Seq<Step>, memory: LocalMemory)
    requires
        manager.wf(),
        manager.owner is Some,
        manager.next_mr_key < u64::MAX,
        manager.lookup(id) is None,
        answered(manager.start_request(id), steps),
        steps.len() > 0,
        steps[0].0 == Reply::Memory(Ok(Some(memory))),
    ensures
        match run(manager.start_request(id), steps).job {
            Job::RequestBuffer { remote_buf_id, phase } => match phase {
                RequestPhase::Register(registration) => {
                    registration.addr == memory.addr && registration.size == memory.size
                },
                RequestPhase::Memory => false,
            },
            Job::Finished(Outcome::Buffer(Ok(Some(buf)))) => {
                buf.addr == memory.addr && buf.size == memory.size
            },
            Job::Finished(Outcome::Buffer(Err(_))) => true,
            _ => false,
        },
    decreases steps.len(),
{
    let task = manager.start_request(id);
    law_run_wf(task, steps);
    if steps.len() == 1 {
        assert(run(task, steps.drop_last()) == task);
    } else {
        assert(steps.drop_last()[0] == steps[0]);
        lemma_request_memory(manager, id, steps.drop_last(), memory);
    }
}

/// A released buffer is forgotten at once, its region is given back, and no
/// other buffer is touched.
pub proof fn law_release_forgets(manager: Manager, id: usize, steps: Seq<Step>)
    requires
        manager.wf(),
        answered(manager.start_release(id), steps),
    ensures
        ({
            let task = manager.start_release(id);
            let now = run(task, steps);
            &&& now.manager.lookup(id) is None
            &&& forall|other: usize| other != id ==> #[trigger] now.manager.lookup(other)
                == manager.lookup(other)
            &&& now.outcome() is Some ==> {
                &&& now.outcome() == Some(Outcome::Released)
                &&& outstanding(task, steps, manager.resources()) == now.manager.resources()
            }
        }),
{
    broadcast use vstd::multiset::group_multiset_axioms;

    let task = manager.start_release(id);
    lemma_release_run(manager, id, steps);
    if manager.buffers.contains_key(id) {
        manager.lemma_unregister(id);
    } else {
        assert(manager.unregister(id).buffers =~= manager.buffers);
    }
    assert(task.held() =~= manager.resources());
    law_resources_accounted(task, steps);
    let now = run(task, steps);
    if now.outcome() is Some {
        assert(now.held() =~= now.manager.resources());
    }
}

proof fn lemma_release_run(manager: Manager, id: usize, steps: Seq<Step>)
    requires
        manager.wf(),
        answered(manager.start_release(id), steps),
    ensures
        manager.start_release(id).wf(),
        run(manager.start_release(id), steps).manager == manager.unregister(id),
        match run(manager.start_release(id), steps).job {
            Job::ReleaseBuffer { mr } => true,
            Job::Finished(Outcome::Released) => true,
            _ => false,
        },
    decreases steps.len(),
{
    if steps.len() > 0 {
        lemma_release_run(manager, id, steps.drop_last());
    } else {
        if manager.buffers.contains_key(id) {
            manager.lemma_unregister(id);
        } else {
            assert(manager.unregister(id).buffers =~= manager.buffers);
        }
    }
}

// ---------------------------------------------------------------------------
// Submissions
// ---------------------------------------------------------------------------

/// Number of transfers that the manager reported as done in a run.
pub open spec fn executed(submission: Submit, steps: Seq<Step>) -> nat
    decreases steps.len(),
{
    if steps.len() == 0 {
        0
    } else {
        executed(submission, steps.drop_last()) + (if run(
            submission,
            steps.drop_last(),
        ).pending() is AskLocal && steps.last().0 == Reply::Answer(Ok(Ok(()))) {
            1nat
        } else {
            0
        })
    }
}

/// Transfers run in order, each once those before it are done, and a
/// submission succeeds only if all of them are.
pub proof fn law_submission_runs_all_in_order(
    manager: String,
    ops: Vec<RdmaOp>,
    timeout_ns: u128,
    start: u64,
    steps: Seq<Step>,
)
    requires
        answered(Submit::starting(manager, ops, timeout_ns, start), steps),
    ensures
        ({
            let submission = Submit::starting(manager, ops, timeout_ns, start);
            let now = run(submission, steps);
            &&& now.manager == manager
            &&& now.ops == ops
            &&& now.next == executed(submission, steps)
            &&& now.phase matches SubmitPhase::Done(Ok(_)) ==> executed(submission, steps)
                == ops@.len()
            &&& now.phase matches SubmitPhase::Done(Err(_)) ==> executed(submission, steps)
                < ops@.len()
            &&& now.phase matches SubmitPhase::Execute { remote_mgr, remote_buf, remaining_ms }
                ==> now.pending() == (Effect::AskLocal {
                manager: &manager,
                message: OfiManagerLocalMessage::ExecuteOp {
                    op_type: ops@[now.next as int].op_type,
                    local_addr: ops@[now.next as int].local.addr,
                    local_size: ops@[now.next as int].local.size,
                    remote_ofi_mgr: remote_mgr,
                    remote_buffer: remote_buf,
                    remote_buf_id: ops@[now.next as int].remote,
                    timeout_ms: remaining_ms,
                },
            })
        }),
    decreases steps.len(),
{
    let submission = Submit::starting(manager, ops, timeout_ns, start);
    assert(submission.wf());
    law_run_wf(submission, steps);
    if steps.len() > 0 {
        law_submission_runs_all_in_order(manager, ops, timeout_ns, start, steps.drop_last());
        law_run_wf(submission, steps.drop_last());
        if let Reply::Answer(Ok(Ok(done))) = steps.last().0 {
            assert(done == ());
        }
    }
}

} // verus!
