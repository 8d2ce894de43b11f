//! The transport as its clients see it.

use crate::completion::{MAX_TIMEOUT_NS, NANOS_PER_MILLI};
use crate::effect::{Effect, Reply, Resource};
use crate::error::OfiError;
use crate::machine::Machine;
use crate::manager_actor::OfiManagerActor;
use crate::messages::OfiManagerLocalMessage;
use crate::ops::{OfiBuffer, RdmaOp, RdmaTransportLevel};
use vstd::multiset::Multiset;
use vstd::prelude::*;

verus! {

/// A handle of the manager of this process, by its actor id.
#[derive(Debug, Clone, PartialEq, Eq)]
pub struct OfiBackend(pub String);

impl OfiBackend {
    /// Begins to run transfers one after the other, within the timeout.
    pub fn submit(&self, ops: Vec<RdmaOp>, timeout_ns: u128, now: u64) -> (submission: Submit)
        requires
            timeout_ns <= MAX_TIMEOUT_NS,
        ensures
            submission == Submit::starting(self.0, ops, timeout_ns, now),
            submission.deadline == now + timeout_ns,
            submission.wf(),
    {
        let deadline: u128 = now as u128 + timeout_ns;
        let phase = Submit::begin_op(&ops, deadline, 0, now);
        Submit { manager: self.0.clone(), ops, next: 0, deadline, phase }
    }

    /// The network card moves the data of this transport.
    pub fn transport_level(&self) -> (level: RdmaTransportLevel)
        ensures
            level == RdmaTransportLevel::Nic,
    {
        RdmaTransportLevel::Nic
    }

    /// This transport has nothing more to tell.
    pub fn transport_info(&self) -> (info: Option<()>)
        ensures
            info is None,
    {
        None
    }

    /// Returns the actor id of the manager.
    pub fn handle(&self) -> (manager: &String)
        ensures
            *manager == self.0,
    {
        &self.0
    }
}

/// Runs transfers one after the other.
#[derive(Debug, PartialEq, Eq)]
pub struct Submit {
    /// Actor id of the manager of this process.
    pub manager: String,
    pub ops: Vec<RdmaOp>,
    /// The transfer that is under way.
    pub next: usize,
    /// Time by which every transfer has to begin, in nanoseconds.
    pub deadline: u128,
    pub phase: SubmitPhase,
}

/// What a submission waits for.
#[derive(Debug, PartialEq, Eq)]
pub enum SubmitPhase {
    /// The remote buffer; the transfer has this time.
    Resolve { remaining_ms: u64 },
    /// The manager to run the transfer.
    Execute { remote_mgr: String, remote_buf: OfiBuffer, remaining_ms: u64 },
    /// Nothing.
    Done(Result<(), OfiError>),
}

/// The whole milliseconds in a number of nanoseconds, in 64 bits.
pub open spec fn whole_millis(ns: int) -> u64 {
    #[verifier::truncate]
    ((ns / NANOS_PER_MILLI as int) as u128 as u64)
}

impl Submit {
    /// The beginning of the transfer at `index`: when none is left the
    /// submission has succeeded, and when no time is left it has failed.
    pub open spec fn begin(ops: Seq<RdmaOp>, deadline: u128, index: int, now: u64) -> SubmitPhase {
        if index >= ops.len() {
            SubmitPhase::Done(Ok(()))
        } else if now >= deadline {
            SubmitPhase::Done(Err(OfiError::SubmitTimeout))
        } else {
            SubmitPhase::Resolve { remaining_ms: whole_millis(deadline - now) }
        }
    }

    /// A submission that starts at `now`.
    pub open spec fn starting(
        manager: String,
        ops: Vec<RdmaOp>,
        timeout_ns: u128,
        now: u64,
    ) -> Self {
        Submit {
            manager,
            ops,
            next: 0,
            deadline: (now + timeout_ns) as u128,
            phase: Self::begin(ops@, (now + timeout_ns) as u128, 0, now),
        }
    }

    /// The message that has the manager run the transfer under way.
    pub open spec fn message(
        self,
        remote_mgr: String,
        remote_buf: OfiBuffer,
        remaining_ms: u64,
    ) -> OfiManagerLocalMessage {
        let op = self.ops@[self.next as int];
        OfiManagerLocalMessage::ExecuteOp {
            op_type: op.op_type,
            local_addr: op.local.addr,
            local_size: op.local.size,
            remote_ofi_mgr: remote_mgr,
            remote_buffer: remote_buf,
            remote_buf_id: op.remote,
            timeout_ms: remaining_ms,
        }
    }

    fn begin_op(ops: &Vec<RdmaOp>, deadline: u128, index: usize, now: u64) -> (phase: SubmitPhase)
        ensures
            phase == Self::begin(ops@, deadline, index as int, now),
    {
        if index >= ops.len() {
            SubmitPhase::Done(Ok(()))
        } else if now as u128 >= deadline {
            SubmitPhase::Done(Err(OfiError::SubmitTimeout))
        } else {
            let remaining: u128 = deadline - now as u128;
            SubmitPhase::Resolve {
                remaining_ms: #[verifier::truncate] ((remaining / NANOS_PER_MILLI) as u64),
            }
        }
    }

    /// Returns the effect that the submission waits for.
    pub fn effect(&self) -> (effect: Effect<'_>)
        requires
            self.wf(),
        ensures
            effect == self.pending(),
    {
        match &self.phase {
            SubmitPhase::Resolve { remaining_ms: _ } => Effect::ResolveRemote {
                remote_buf_id: self.ops[self.next].remote,
            },
            SubmitPhase::Execute { remote_mgr, remote_buf, remaining_ms } => {
                let op = self.ops[self.next];
                Effect::AskLocal {
                    manager: &self.manager,
                    message: OfiManagerLocalMessage::ExecuteOp {
                        op_type: op.op_type,
                        local_addr: op.local.addr,
                        local_size: op.local.size,
                        remote_ofi_mgr: remote_mgr.clone(),
                        remote_buffer: *remote_buf,
                        remote_buf_id: op.remote,
                        timeout_ms: *remaining_ms,
                    },
                }
            },
            SubmitPhase::Done(_) => Effect::Finished,
        }
    }

    /// Takes the answer that arrived at `now`.
    pub fn resume(self, reply: Reply, now: u64) -> (after: Self)
        requires
            self.wf(),
        ensures
            after == self.after(reply, now),
            after.wf(),
    {
        let mut next = self.next;
        let phase = match (self.phase, reply) {
            (SubmitPhase::Resolve { remaining_ms }, Reply::Remote(remote)) => match remote {
                Some(Ok((remote_mgr, remote_buf))) => SubmitPhase::Execute {
                    remote_mgr,
                    remote_buf,
                    remaining_ms,
                },
                Some(Err(text)) => SubmitPhase::Done(Err(OfiError::Peer(text))),
                None => SubmitPhase::Done(Err(OfiError::NoRemoteBackend)),
            },
            (SubmitPhase::Execute { remote_mgr, remote_buf, remaining_ms }, reply) => match reply {
                Reply::Answer(answer) => match answer {
                    Ok(Ok(_)) => {
                        next = next + 1;
                        Self::begin_op(&self.ops, self.deadline, next, now)
                    },
                    Ok(Err(text)) => SubmitPhase::Done(Err(OfiError::Peer(text))),
                    Err(text) => SubmitPhase::Done(Err(OfiError::Peer(text))),
                },
                _ => SubmitPhase::Execute { remote_mgr, remote_buf, remaining_ms },
            },
            (phase, _) => phase,
        };
        Submit { manager: self.manager, ops: self.ops, next, deadline: self.deadline, phase }
    }
}

impl Machine for Submit {
    open spec fn pending(&self) -> Effect<'_> {
        match self.phase {
            SubmitPhase::Resolve { remaining_ms } => Effect::ResolveRemote {
                remote_buf_id: self.ops@[self.next as int].remote,
            },
            SubmitPhase::Execute { remote_mgr, remote_buf, remaining_ms } => Effect::AskLocal {
                manager: &self.manager,
                message: self.message(remote_mgr, remote_buf, remaining_ms),
            },
            SubmitPhase::Done(_) => Effect::Finished,
        }
    }

    /// The first failure ends the submission; a transfer that succeeded is
    /// followed by the next one.
    open spec fn after(self, reply: Reply, now: u64) -> Self {
        match (self.phase, reply) {
            (SubmitPhase::Resolve { remaining_ms }, Reply::Remote(remote)) => Submit {
                phase: match remote {
                    Some(Ok((remote_mgr, remote_buf))) => SubmitPhase::Execute {
                        remote_mgr,
                        remote_buf,
                        remaining_ms,
                    },
                    Some(Err(text)) => SubmitPhase::Done(Err(OfiError::Peer(text))),
                    None => SubmitPhase::Done(Err(OfiError::NoRemoteBackend)),
                },
                ..self
            },
            (SubmitPhase::Execute { .. }, Reply::Answer(answer)) => match answer {
                Ok(Ok(_)) => Submit {
                    next: (self.next + 1) as usize,
                    phase: Self::begin(self.ops@, self.deadline, self.next + 1, now),
                    ..self
                },
                Ok(Err(text)) => Submit {
                    phase: SubmitPhase::Done(Err(OfiError::Peer(text))),
                    ..self
                },
                Err(text) => Submit { phase: SubmitPhase::Done(Err(OfiError::Peer(text))), ..self },
            },
            _ => self,
        }
    }

    open spec fn wf(self) -> bool {
        match self.phase {
            SubmitPhase::Done(Ok(_)) => self.next == self.ops.len(),
            _ => self.next < self.ops.len(),
        }
    }

    open spec fn held(self) -> Multiset<Resource> {
        Multiset::empty()
    }

    open spec fn paused(self) -> int {
        0
    }

    proof fn step(self, reply: Reply, now: u64) {
    }
}

/// Finds the manager of this process.
#[derive(Debug, PartialEq, Eq)]
pub enum LocalHandle {
    /// The RDMA manager is asked.
    Find,
    /// The manager that it named is looked up.
    Downcast(String),
    /// The end.
    Done(Result<OfiBackend, OfiError>),
}

impl OfiManagerActor {
    /// Begins to find the manager of this process.
    pub fn local_handle() -> (search: LocalHandle)
        ensures
            search is Find,
    {
        LocalHandle::Find
    }
}

impl LocalHandle {
    /// Returns the effect that the search waits for.
    pub fn effect(&self) -> (effect: Effect<'_>)
        ensures
            effect == self.pending(),
    {
        match self {
            LocalHandle::Find => Effect::FindManager,
            LocalHandle::Downcast(manager) => Effect::Downcast { manager },
            LocalHandle::Done(_) => Effect::Finished,
        }
    }

    /// Takes the answer to the pending effect.
    pub fn resume(self, reply: Reply) -> (next: Self)
        ensures
            forall|now: u64| next == #[trigger] self.after(reply, now),
    {
        match (self, reply) {
            (LocalHandle::Find, Reply::Manager(answer)) => match answer {
                Ok(Some(manager)) => LocalHandle::Downcast(manager),
                Ok(None) => LocalHandle::Done(Err(OfiError::NoLocalBackend)),
                Err(text) => LocalHandle::Done(Err(OfiError::Peer(text))),
            },
            (LocalHandle::Downcast(manager), Reply::Local(local)) => {
                if local {
                    LocalHandle::Done(Ok(OfiBackend(manager)))
                } else {
                    LocalHandle::Done(Err(OfiError::NotLocal))
                }
            },
            (search, _) => search,
        }
    }
}

impl Machine for LocalHandle {
    open spec fn pending(&self) -> Effect<'_> {
        match self {
            LocalHandle::Find => Effect::FindManager,
            LocalHandle::Downcast(manager) => Effect::Downcast { manager },
            LocalHandle::Done(_) => Effect::Finished,
        }
    }

    open spec fn after(self, reply: Reply, now: u64) -> Self {
        match (self, reply) {
            (LocalHandle::Find, Reply::Manager(answer)) => match answer {
                Ok(Some(manager)) => LocalHandle::Downcast(manager),
                Ok(None) => LocalHandle::Done(Err(OfiError::NoLocalBackend)),
                Err(text) => LocalHandle::Done(Err(OfiError::Peer(text))),
            },
            (LocalHandle::Downcast(manager), Reply::Local(local)) => {
                if local {
                    LocalHandle::Done(Ok(OfiBackend(manager)))
                } else {
                    LocalHandle::Done(Err(OfiError::NotLocal))
                }
            },
            (search, _) => search,
        }
    }

    open spec fn wf(self) -> bool {
        true
    }

    open spec fn held(self) -> Multiset<Resource> {
        Multiset::empty()
    }

    open spec fn paused(self) -> int {
        0
    }

    proof fn step(self, reply: Reply, now: u64) {
    }
}

} // verus!
