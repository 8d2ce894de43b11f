//! Endpoints, transfers and managers on a simulated fabric.

use std::collections::BTreeMap;
use std::collections::VecDeque;
use std::time::Duration;

use monarch_ofi::backend::{LocalHandle, OfiBackend, Submit, SubmitPhase};
use monarch_ofi::completion::{PollCq, PollPhase, PostAndPollCq, PostPhase};
use monarch_ofi::domain::{DomainPhase, DomainSetup, OfiDomain};
use monarch_ofi::effect::{
    fi_allocinfo, is_answer, version, Effect, FabricCall, HmemIface, PostCall, Region, Reply,
};
use monarch_ofi::endpoint::{
    inserted_addr, name_reply, posted, registered_mr, EndpointPhase, EndpointSetup, NamePhase, NameQuery,
    OfiEndpoint, OfiMr,
};
use monarch_ofi::error::{DomainPart, ErrorText, Lookup, OfiError};
use monarch_ofi::manager_actor::{ManagerSetup, OfiManagerActor};
use monarch_ofi::messages::{OfiManagerLocalMessage, OfiManagerMessage};
use monarch_ofi::ops::{LocalMemory, OfiBuffer, RdmaOp, RdmaOpType, RdmaTransportLevel};
use monarch_ofi::primitives::{OfiConfig, OfiEndpointInfo};
use monarch_ofi::probe::{efa_ofi_available, ofi_available, ofi_supported, Probe};
use monarch_ofi::progress::{CqProgressGuard, ProgressStep};
use monarch_ofi::task::{ManagerTask, Outcome};
use monarch_ofi::teardown::Teardown;

// ---------------------------------------------------------------------------
// A fabric
// ---------------------------------------------------------------------------

const EAGAIN: i64 = -11;
const EINVAL: i32 = -22;
const ENODATA: i32 = -61;

/// First address of host memory.
const HOST: usize = 0x1_0000;
/// First address of device memory.
const DEVICE: usize = 0x8_0000;
/// First address behind all memory.
const END: usize = 0x10_0000;

struct Provider {
    name: &'static str,
    rma: bool,
    hmem: bool,
}

enum Object {
    Plain,
    Av(Vec<Vec<u8>>),
    Cq { size: usize, entries: VecDeque<i64> },
    Ep { av: usize, cq: usize, enabled: bool },
    Mr { addr: usize, size: usize, key: u64, hmem: Option<(HmemIface, i32)> },
}

struct Fabric {
    /// Time in nanoseconds.
    clock: u64,
    next: usize,
    providers: Vec<Provider>,
    infos: BTreeMap<usize, usize>,
    objects: BTreeMap<usize, Object>,
    receives: Vec<(usize, usize, usize)>,
    memory: Vec<u8>,
    next_free: usize,
    next_device: usize,
    /// The call that fails, and its code.
    fail: Option<(&'static str, i32)>,
    /// Number of transfers that are not accepted yet.
    eagain: u32,
    /// By how much the length of an address is overstated at first.
    slack: usize,
    /// Names of the calls so far.
    calls: Vec<&'static str>,
}

fn fabric_with(rma: bool, hmem: bool) -> Fabric {
    Fabric {
        clock: 1_000,
        next: 0x10,
        providers: vec![Provider { name: "efa", rma, hmem }],
        infos: BTreeMap::new(),
        objects: BTreeMap::new(),
        receives: Vec::new(),
        memory: vec![0u8; END - HOST],
        next_free: HOST,
        next_device: DEVICE,
        fail: None,
        eagain: 0,
        slack: 0,
        calls: Vec::new(),
    }
}

impl Fabric {
    fn fresh(&mut self) -> usize {
        self.next += 0x10;
        self.next
    }

    fn allocate(&mut self, bytes: &[u8]) -> usize {
        let addr = self.next_free;
        self.next_free += bytes.len();
        assert!(self.next_free <= DEVICE);
        self.memory[addr - HOST..addr - HOST + bytes.len()].copy_from_slice(bytes);
        addr
    }

    fn allocate_device(&mut self, bytes: &[u8]) -> usize {
        let addr = self.next_device;
        self.next_device += bytes.len();
        assert!(self.next_device <= END);
        self.memory[addr - HOST..addr - HOST + bytes.len()].copy_from_slice(bytes);
        addr
    }

    fn bytes(&self, addr: usize, size: usize) -> Vec<u8> {
        self.memory[addr - HOST..addr - HOST + size].to_vec()
    }

    fn copy(&mut self, from: usize, to: usize, size: usize) {
        let data = self.bytes(from, size);
        self.memory[to - HOST..to - HOST + size].copy_from_slice(&data);
    }

    /// Number of things that were not given back.
    fn outstanding(&self) -> usize {
        self.infos.len() + self.objects.len()
    }

    fn name_of(ep: usize) -> Vec<u8> {
        let mut name = vec![0xfe, 0x80];
        name.extend_from_slice(&(ep as u32).to_be_bytes());
        name
    }

    fn failure(&self, call: &'static str) -> i32 {
        match self.fail {
            Some((name, ret)) if name == call => ret,
            _ => 0,
        }
    }

    fn open(&mut self, call: &'static str, object: Object) -> Reply {
        let ret = self.failure(call);
        if ret != 0 {
            return Reply::Handle { ret, handle: 0 };
        }
        let handle = self.fresh();
        self.objects.insert(handle, object);
        Reply::Handle { ret: 0, handle }
    }

    fn desc_of(mr: usize) -> usize {
        0xd_0000 + mr
    }

    fn covered(&self, desc: usize, addr: u64, len: usize) -> bool {
        match self.objects.get(&(desc - 0xd_0000)) {
            Some(Object::Mr { addr: start, size, .. }) => {
                *start as u64 <= addr && addr + len as u64 <= *start as u64 + *size as u64
            }
            _ => false,
        }
    }

    fn remote_ok(&self, key: u64, addr: u64, len: usize) -> bool {
        self.objects.values().any(|object| match object {
            Object::Mr { addr: start, size, key: own, .. } => {
                *own == key
                    && *start as u64 <= addr
                    && addr + len as u64 <= *start as u64 + *size as u64
            }
            _ => false,
        })
    }

    fn queue_of(&self, ep: usize) -> usize {
        match self.objects.get(&ep) {
            Some(Object::Ep { cq, enabled: true, .. }) => *cq,
            _ => panic!("no enabled endpoint {ep}"),
        }
    }

    fn complete(&mut self, cq: usize) {
        match self.objects.get_mut(&cq) {
            Some(Object::Cq { entries, size }) => {
                assert!(entries.len() < *size);
                entries.push_back(1);
            }
            _ => panic!("no queue {cq}"),
        }
    }

    fn read_cq(&mut self, cq: usize) -> i64 {
        match self.objects.get_mut(&cq) {
            Some(Object::Cq { entries, .. }) => entries.pop_front().unwrap_or(EAGAIN),
            _ => panic!("no queue {cq}"),
        }
    }

    fn peer_of(&self, ep: usize, fi_addr: u64) -> Option<usize> {
        let av = match self.objects.get(&ep) {
            Some(Object::Ep { av, .. }) => *av,
            _ => return None,
        };
        let name = match self.objects.get(&av) {
            Some(Object::Av(names)) => names.get(fi_addr as usize)?.clone(),
            _ => return None,
        };
        self.objects.keys().copied().find(|handle| Self::name_of(*handle) == name)
    }

    fn post(&mut self, call: &PostCall) -> i64 {
        match call {
            PostCall::Recv { ep, buf, len, desc, .. } => {
                let ret = self.failure("recv");
                if ret != 0 {
                    return ret as i64;
                }
                if !self.covered(*desc, *buf, *len) {
                    return EINVAL as i64;
                }
                self.receives.push((*ep, *buf as usize, *len));
                0
            }
            PostCall::Write { ep, buf, len, desc, peer, remote_addr, remote_key, .. } => {
                if self.eagain > 0 {
                    self.eagain -= 1;
                    return EAGAIN;
                }
                let ret = self.failure("write");
                if ret != 0 {
                    return ret as i64;
                }
                let valid = self.covered(*desc, *buf, *len)
                    && self.remote_ok(*remote_key, *remote_addr, *len)
                    && self.peer_of(*ep, *peer).is_some();
                if !valid {
                    return EINVAL as i64;
                }
                self.copy(*buf as usize, *remote_addr as usize, *len);
                let cq = self.queue_of(*ep);
                self.complete(cq);
                0
            }
            PostCall::Read { ep, buf, len, desc, peer, remote_addr, remote_key, .. } => {
                if self.eagain > 0 {
                    self.eagain -= 1;
                    return EAGAIN;
                }
                let valid = self.covered(*desc, *buf, *len)
                    && self.remote_ok(*remote_key, *remote_addr, *len)
                    && self.peer_of(*ep, *peer).is_some();
                if !valid {
                    return EINVAL as i64;
                }
                self.copy(*remote_addr as usize, *buf as usize, *len);
                let cq = self.queue_of(*ep);
                self.complete(cq);
                0
            }
            PostCall::Send { ep, buf, len, desc, peer, .. } => {
                if self.eagain > 0 {
                    self.eagain -= 1;
                    return EAGAIN;
                }
                if !self.covered(*desc, *buf, *len) {
                    return EINVAL as i64;
                }
                let dest = match self.peer_of(*ep, *peer) {
                    Some(dest) => dest,
                    None => return EINVAL as i64,
                };
                let position = match self.receives.iter().position(|r| r.0 == dest) {
                    Some(position) => position,
                    None => return EAGAIN,
                };
                let (_, into, room) = self.receives.remove(position);
                assert!(*len <= room, "message does not fit");
                self.copy(*buf as usize, into, *len);
                let own = self.queue_of(*ep);
                let other = self.queue_of(dest);
                self.complete(own);
                self.complete(other);
                0
            }
        }
    }

    fn call(&mut self, call: &FabricCall<'_>) -> Reply {
        match call {
            FabricCall::Version => Reply::Version((1 << 16) | 22),
            FabricCall::StrError { code } => Reply::Text(match code {
                12 => Some("Cannot allocate memory".to_string()),
                22 => Some("Invalid argument".to_string()),
                61 => Some("No data available".to_string()),
                _ => None,
            }),
            FabricCall::DupInfo { info } => {
                self.calls.push("dupinfo");
                assert_eq!(*info, 0);
                let ret = self.failure("dupinfo");
                if ret != 0 {
                    return Reply::Handle { ret: 0, handle: 0 };
                }
                let handle = self.fresh();
                self.infos.insert(handle, usize::MAX);
                Reply::Handle { ret: 0, handle }
            }
            FabricCall::GetInfo { hints, request } => {
                self.calls.push(if request.hmem { "getinfo+hmem" } else { "getinfo" });
                assert!(self.infos.contains_key(hints));
                assert!(request.rdm && request.rma && request.msg && !request.local_mr);
                let ret = self.failure("getinfo");
                if ret != 0 {
                    return Reply::Info { ret, info: 0, rma: false };
                }
                let found = self.providers.iter().position(|provider| {
                    let named = match &request.provider {
                        Some(name) => name == provider.name,
                        None => true,
                    };
                    named && (provider.hmem || !request.hmem)
                });
                match found {
                    Some(index) => {
                        let info = self.fresh();
                        self.infos.insert(info, index);
                        Reply::Info { ret: 0, info, rma: self.providers[index].rma }
                    }
                    None => Reply::Info { ret: ENODATA, info: 0, rma: false },
                }
            }
            FabricCall::FreeInfo { info } => {
                self.calls.push("freeinfo");
                assert!(self.infos.remove(info).is_some(), "list given back twice");
                Reply::Done
            }
            FabricCall::OpenFabric { info } => {
                self.calls.push("fabric");
                assert!(self.infos.contains_key(info));
                self.open("fabric", Object::Plain)
            }
            FabricCall::OpenDomain { fabric, info } => {
                self.calls.push("domain");
                assert!(self.objects.contains_key(fabric) && self.infos.contains_key(info));
                self.open("domain", Object::Plain)
            }
            FabricCall::OpenAv { domain } => {
                self.calls.push("av");
                assert!(self.objects.contains_key(domain));
                self.open("av", Object::Av(Vec::new()))
            }
            FabricCall::OpenCq { domain, size } => {
                self.calls.push("cq");
                assert!(self.objects.contains_key(domain));
                self.open("cq", Object::Cq { size: *size, entries: VecDeque::new() })
            }
            FabricCall::OpenEndpoint { domain, info } => {
                assert!(self.objects.contains_key(domain) && self.infos.contains_key(info));
                self.open("endpoint", Object::Ep { av: 0, cq: 0, enabled: false })
            }
            FabricCall::BindEndpoint { ep, fid, transmit, recv } => {
                let queue = matches!(self.objects.get(fid), Some(Object::Cq { .. }));
                let ret = self.failure(if queue { "bind_cq" } else { "bind_av" });
                if ret != 0 {
                    return Reply::Code(ret as i64);
                }
                assert_eq!(queue, *transmit);
                assert_eq!(queue, *recv);
                match self.objects.get_mut(ep) {
                    Some(Object::Ep { av, cq, .. }) => {
                        if queue {
                            *cq = *fid;
                        } else {
                            *av = *fid;
                        }
                    }
                    _ => panic!("no endpoint {ep}"),
                }
                Reply::Code(0)
            }
            FabricCall::EnableEndpoint { ep } => {
                let ret = self.failure("enable");
                if ret != 0 {
                    return Reply::Code(ret as i64);
                }
                match self.objects.get_mut(ep) {
                    Some(Object::Ep { av, cq, enabled }) => {
                        assert!(*av != 0 && *cq != 0);
                        *enabled = true;
                    }
                    _ => panic!("no endpoint {ep}"),
                }
                Reply::Code(0)
            }
            FabricCall::Close { fid } => {
                self.calls.push("close");
                assert!(self.objects.remove(fid).is_some(), "object given back twice");
                Reply::Done
            }
            FabricCall::GetName { ep, capacity } => {
                let name = Self::name_of(*ep);
                let ret = self.failure("getname");
                if ret != 0 {
                    return name_reply(ret, vec![0u8; *capacity], name.len());
                }
                if *capacity < name.len() {
                    // The length that is asked for first may be an upper bound.
                    return name_reply(-257, vec![0u8; *capacity], name.len() + self.slack);
                }
                let mut buffer = vec![0u8; *capacity];
                buffer[..name.len()].copy_from_slice(&name);
                name_reply(0, buffer, name.len())
            }
            FabricCall::AvInsert { av, peer } => {
                let ret = self.failure("av_insert");
                if ret != 0 {
                    return Reply::Address { ret, fi_addr: u64::MAX };
                }
                match self.objects.get_mut(av) {
                    Some(Object::Av(names)) => {
                        names.push(peer.addr.clone());
                        Reply::Address { ret: 1, fi_addr: names.len() as u64 - 1 }
                    }
                    _ => panic!("no address vector {av}"),
                }
            }
            FabricCall::Register(registration) => {
                self.calls.push(match registration.hmem {
                    None => "mr_reg",
                    Some((HmemIface::System, _)) => "mr_regattr(system)",
                    Some((HmemIface::Cuda, _)) => "mr_regattr(cuda)",
                });
                let access = registration.access;
                assert!(access.remote_read && access.remote_write && access.read && access.write);
                let ret = self.failure("register");
                if ret != 0 {
                    return Reply::Region(Region { ret, mr: 0, rkey: 0, desc: 0 });
                }
                let mr = self.fresh();
                let rkey = 0x5000 + registration.key;
                self.objects.insert(
                    mr,
                    Object::Mr {
                        addr: registration.addr,
                        size: registration.size,
                        key: rkey,
                        hmem: registration.hmem,
                    },
                );
                Reply::Region(Region { ret: 0, mr, rkey, desc: Self::desc_of(mr) })
            }
            FabricCall::Post(post) => {
                self.calls.push(match post {
                    PostCall::Write { .. } => "write",
                    PostCall::Read { .. } => "read",
                    PostCall::Send { .. } => "send",
                    PostCall::Recv { .. } => "recv",
                });
                Reply::Code(self.post(post))
            }
            FabricCall::ReadCq { cq } => {
                self.calls.push("read_cq");
                Reply::Code(self.read_cq(*cq))
            }
            FabricCall::ReadCqError { .. } => Reply::CqError { err: 5, prov_errno: 4107 },
        }
    }
}

// ---------------------------------------------------------------------------
// Processes on the fabric
// ---------------------------------------------------------------------------

trait Drive: Sized {
    fn ask(&self) -> Effect<'_>;
    fn feed(self, reply: Reply, now: u64) -> Self;
}

impl Drive for Probe {
    fn ask(&self) -> Effect<'_> {
        self.effect()
    }
    fn feed(self, reply: Reply, _now: u64) -> Self {
        self.resume(reply)
    }
}

impl Drive for DomainSetup {
    fn ask(&self) -> Effect<'_> {
        self.effect()
    }
    fn feed(self, reply: Reply, _now: u64) -> Self {
        self.resume(reply)
    }
}

impl Drive for EndpointSetup {
    fn ask(&self) -> Effect<'_> {
        self.effect()
    }
    fn feed(self, reply: Reply, _now: u64) -> Self {
        self.resume(reply)
    }
}

impl Drive for NameQuery {
    fn ask(&self) -> Effect<'_> {
        self.effect()
    }
    fn feed(self, reply: Reply, _now: u64) -> Self {
        self.resume(reply)
    }
}

impl Drive for ManagerSetup {
    fn ask(&self) -> Effect<'_> {
        self.effect()
    }
    fn feed(self, reply: Reply, _now: u64) -> Self {
        self.resume(reply)
    }
}

impl Drive for LocalHandle {
    fn ask(&self) -> Effect<'_> {
        self.effect()
    }
    fn feed(self, reply: Reply, _now: u64) -> Self {
        self.resume(reply)
    }
}

impl Drive for PollCq {
    fn ask(&self) -> Effect<'_> {
        self.effect()
    }
    fn feed(self, reply: Reply, now: u64) -> Self {
        self.resume(reply, now)
    }
}

impl Drive for PostAndPollCq {
    fn ask(&self) -> Effect<'_> {
        self.effect()
    }
    fn feed(self, reply: Reply, now: u64) -> Self {
        self.resume(reply, now)
    }
}

impl Drive for Submit {
    fn ask(&self) -> Effect<'_> {
        self.effect()
    }
    fn feed(self, reply: Reply, now: u64) -> Self {
        self.resume(reply, now)
    }
}

impl Drive for ManagerTask {
    fn ask(&self) -> Effect<'_> {
        self.effect()
    }
    fn feed(self, reply: Reply, now: u64) -> Self {
        self.resume(reply, now)
    }
}

impl Drive for Teardown {
    fn ask(&self) -> Effect<'_> {
        self.effect()
    }
    fn feed(self, reply: Reply, _now: u64) -> Self {
        self.resume(reply)
    }
}

struct World {
    fabric: Fabric,
    managers: BTreeMap<String, Option<OfiManagerActor>>,
    guards: BTreeMap<String, (usize, CqProgressGuard)>,
    /// Memory behind buffers, by manager and id.
    buffers: BTreeMap<(String, usize), LocalMemory>,
    /// Managers of remote buffers, by id.
    owners: BTreeMap<usize, String>,
    /// Answers that are under way, and how often they are asked for in vain.
    answers: BTreeMap<String, (usize, Reply)>,
    latency: usize,
    /// Messages between managers so far.
    messages: Vec<String>,
    /// Whether the background threads run after every effect.
    background: bool,
    ordinal: (u32, i32),
}

fn world_with(rma: bool, hmem: bool) -> World {
    World {
        fabric: fabric_with(rma, hmem),
        managers: BTreeMap::new(),
        guards: BTreeMap::new(),
        buffers: BTreeMap::new(),
        owners: BTreeMap::new(),
        answers: BTreeMap::new(),
        latency: 0,
        messages: Vec::new(),
        background: false,
        ordinal: (0, 0),
    }
}

impl World {
    fn perform(&mut self, who: &str, effect: Effect<'_>) -> Reply {
        self.fabric.clock += 1_000;
        let reply = match effect {
            Effect::Call(call) => self.fabric.call(&call),
            Effect::IsDevicePointer { addr } => Reply::DevicePointer(addr >= DEVICE),
            Effect::DeviceOrdinal { .. } => {
                Reply::Ordinal { err: self.ordinal.0, ordinal: self.ordinal.1 }
            }
            Effect::PauseProgress => {
                if let Some((_, guard)) = self.guards.get_mut(who) {
                    guard.pause_cq_progress();
                }
                Reply::Done
            }
            Effect::ResumeProgress => {
                if let Some((_, guard)) = self.guards.get_mut(who) {
                    guard.resume_cq_progress();
                }
                Reply::Done
            }
            Effect::SpawnProgress { cq } => {
                self.guards.insert(who.to_string(), (cq, CqProgressGuard::new()));
                Reply::Done
            }
            Effect::StopProgress => {
                let (_, mut guard) = self.guards.remove(who).expect("no thread");
                guard.stop();
                assert_eq!(guard.progress_step(), ProgressStep::Stop);
                Reply::Done
            }
            Effect::Yield => {
                self.fabric.clock += 1_000_000;
                Reply::Done
            }
            Effect::Ask { peer, message } => self.deliver(who, peer, message),
            Effect::Tell { peer, message } => {
                let answer = self.deliver(who, peer, message);
                self.answers.insert(who.to_string(), (self.latency, answer));
                Reply::Done
            }
            Effect::TakeAnswer => match self.answers.remove(who).expect("nothing was sent") {
                (0, answer) => answer,
                (wait, answer) => {
                    self.answers.insert(who.to_string(), (wait - 1, answer));
                    Reply::Pending
                }
            },
            Effect::RequestLocalMemory { owner, remote_buf_id } => {
                assert_eq!(owner, "rdma");
                let key = (who.to_string(), remote_buf_id);
                Reply::Memory(Ok(self.buffers.get(&key).copied()))
            }
            Effect::FindManager => {
                Reply::Manager(Ok(self.managers.keys().next().cloned()))
            }
            Effect::Downcast { manager } => Reply::Local(self.managers.contains_key(manager)),
            Effect::ResolveRemote { remote_buf_id } => match self.owners.get(&remote_buf_id) {
                None => Reply::Remote(None),
                Some(owner) => {
                    let owner = owner.clone();
                    match self.request(&owner, remote_buf_id) {
                        Ok(Some(buffer)) => Reply::Remote(Some(Ok((owner, buffer)))),
                        Ok(None) => Reply::Remote(Some(Err("no such buffer".to_string()))),
                        Err(error) => Reply::Remote(Some(Err(error.message()))),
                    }
                }
            },
            Effect::AskLocal { manager, message } => {
                let name = manager.clone();
                let actor = self.take(&name);
                match self.finish_task(&name, actor.handle_local(message)) {
                    Outcome::Executed(result) => Reply::Answer(Ok(result.map_err(|e| e.message()))),
                    other => panic!("unexpected answer {other:?}"),
                }
            }
            Effect::Finished => panic!("nothing to perform"),
        };
        if self.background {
            self.run_background();
        }
        reply
    }

    /// Has a manager handle a message of another one.
    fn deliver(&mut self, who: &str, peer: &str, message: OfiManagerMessage) -> Reply {
        self.messages.push(format!("{who}->{peer} {message:?}"));
        assert_ne!(who, peer, "a manager would wait for itself");
        let idle = match self.managers.get_mut(peer) {
            Some(slot) => slot.take().ok_or("delivery timeout"),
            None => Err("actor not found"),
        };
        let manager = match idle {
            Ok(manager) => manager,
            Err(text) => {
                return match message {
                    OfiManagerMessage::GetEndpointAddr => Reply::Endpoint(Err(text.to_string())),
                    _ => Reply::Answer(Err(text.to_string())),
                };
            }
        };
        match self.finish_task(peer, manager.handle(message)) {
            Outcome::Endpoint(result) => Reply::Endpoint(result.map_err(|e| e.message())),
            Outcome::Answered(Ok(verdict)) => Reply::Answer(Ok(verdict.map_err(|e| e.message()))),
            Outcome::Answered(Err(error)) => Reply::Answer(Err(error.message())),
            other => panic!("unexpected answer {other:?}"),
        }
    }

    fn run_background(&mut self) {
        for (cq, guard) in self.guards.values() {
            if guard.progress_step() == ProgressStep::Read {
                self.fabric.read_cq(*cq);
            }
        }
    }

    fn drive<D: Drive>(&mut self, who: &str, machine: D) -> D {
        let mut machine = machine;
        while machine.ask() != Effect::Finished {
            let reply = self.perform(who, machine.ask());
            assert!(is_answer(&machine.ask(), &reply));
            machine = machine.feed(reply, self.fabric.clock);
        }
        machine
    }

    fn take(&mut self, who: &str) -> OfiManagerActor {
        self.managers.get_mut(who).unwrap().take().unwrap()
    }

    /// Runs a request to its end and puts the manager back.
    fn finish_task(&mut self, who: &str, task: ManagerTask) -> Outcome {
        let (manager, outcome) = self.drive(who, task).finish();
        self.managers.insert(who.to_string(), Some(manager));
        outcome.unwrap()
    }

    fn request(&mut self, who: &str, id: usize) -> Result<Option<OfiBuffer>, OfiError> {
        let manager = self.take(who);
        match self.finish_task(who, manager.request_buffer(id)) {
            Outcome::Buffer(result) => result,
            other => panic!("unexpected outcome {other:?}"),
        }
    }

    fn release(&mut self, who: &str, id: usize) {
        let manager = self.take(who);
        assert_eq!(self.finish_task(who, manager.release_buffer(id)), Outcome::Released);
    }

    fn execute(
        &mut self,
        who: &str,
        op_type: RdmaOpType,
        local: LocalMemory,
        remote: &str,
        id: usize,
    ) -> Result<(), OfiError> {
        let remote_buffer = match self.managers.get(remote) {
            Some(Some(manager)) => match manager.registration(id) {
                Some((_, buffer)) => buffer,
                None => OfiBuffer { rkey: 0, addr: 0, size: 0 },
            },
            _ => OfiBuffer { rkey: 0, addr: 0, size: 0 },
        };
        let message = OfiManagerLocalMessage::ExecuteOp {
            op_type,
            local_addr: local.addr,
            local_size: local.size,
            remote_ofi_mgr: remote.to_string(),
            remote_buffer,
            remote_buf_id: id,
            timeout_ms: 50,
        };
        let manager = self.take(who);
        match self.finish_task(who, manager.handle_local(message)) {
            Outcome::Executed(result) => result,
            other => panic!("unexpected outcome {other:?}"),
        }
    }

    fn manager(&mut self, name: &str) {
        let setup = OfiManagerActor::new(None, true);
        let parts = self.drive(name, setup).finish().unwrap().unwrap();
        let mut manager = OfiManagerActor::from_parts(name.to_string(), parts);
        assert_eq!(manager.init("rdma".to_string()), Ok(()));
        self.managers.insert(name.to_string(), Some(manager));
    }

    /// Has one manager learn the address of another. The transfer that it tries
    /// fails: the other one would need an address in return, from a manager
    /// that is busy.
    fn introduce(&mut self, who: &str, other: &str) {
        let nothing = self.local(&[0u8; 4]);
        let result = self.execute(who, RdmaOpType::WriteFromLocal, nothing, other, 0);
        assert_eq!(result, Err(OfiError::Peer("delivery timeout".to_string())));
        self.messages.clear();
        self.fabric.calls.clear();
    }

    fn buffer(&mut self, who: &str, id: usize, bytes: &[u8]) -> LocalMemory {
        let addr = self.fabric.allocate(bytes);
        let memory = LocalMemory { addr, size: bytes.len() };
        self.buffers.insert((who.to_string(), id), memory);
        self.owners.insert(id, who.to_string());
        memory
    }

    fn local(&mut self, bytes: &[u8]) -> LocalMemory {
        let addr = self.fabric.allocate(bytes);
        LocalMemory { addr, size: bytes.len() }
    }

    fn bytes(&self, memory: LocalMemory) -> Vec<u8> {
        self.fabric.bytes(memory.addr, memory.size)
    }

    fn probe(&mut self, probe: Probe) -> bool {
        self.drive("", probe).result().unwrap()
    }

    fn domain(&mut self, config: &OfiConfig) -> Result<OfiDomain, OfiError> {
        match self.drive("", OfiDomain::new(config)).phase {
            DomainPhase::Done(result) => result,
            phase => panic!("unfinished {phase:?}"),
        }
    }

    fn endpoint(&mut self, domain: &OfiDomain) -> Result<OfiEndpoint, OfiError> {
        match self.drive("", OfiEndpoint::new(domain)).phase {
            EndpointPhase::Done(result) => result,
            phase => panic!("unfinished {phase:?}"),
        }
    }

    fn name(&mut self, endpoint: &OfiEndpoint) -> Result<OfiEndpointInfo, OfiError> {
        match self.drive("", endpoint.get_name()).phase {
            NamePhase::Done(result) => result,
            phase => panic!("unfinished {phase:?}"),
        }
    }

    fn av_insert(
        &mut self,
        endpoint: &OfiEndpoint,
        domain: &OfiDomain,
        peer: &OfiEndpointInfo,
    ) -> Result<u64, OfiError> {
        match self.fabric.call(&endpoint.av_insert(domain, peer)) {
            Reply::Address { ret, fi_addr } => inserted_addr(ret, fi_addr),
            other => panic!("unexpected answer {other:?}"),
        }
    }

    fn register_mr(
        &mut self,
        endpoint: &OfiEndpoint,
        domain: &OfiDomain,
        addr: usize,
        size: usize,
        key: u64,
    ) -> Result<OfiMr, OfiError> {
        let call = endpoint.register_mr(domain, addr, size, key);
        match self.fabric.call(&FabricCall::Register(call)) {
            Reply::Region(region) => registered_mr(false, region),
            other => panic!("unexpected answer {other:?}"),
        }
    }

    fn register_mr_hmem(
        &mut self,
        endpoint: &OfiEndpoint,
        domain: &OfiDomain,
        addr: usize,
        size: usize,
        key: u64,
        iface: HmemIface,
    ) -> Result<OfiMr, OfiError> {
        let call = endpoint.register_mr_hmem(domain, addr, size, key, iface, 0);
        match self.fabric.call(&FabricCall::Register(call)) {
            Reply::Region(region) => registered_mr(true, region),
            other => panic!("unexpected answer {other:?}"),
        }
    }

    /// Registers host memory in the way that the domain needs.
    fn register_cpu_mr(
        &mut self,
        endpoint: &OfiEndpoint,
        domain: &OfiDomain,
        addr: usize,
        size: usize,
        key: u64,
    ) -> OfiMr {
        if domain.hmem_supported {
            self.register_mr_hmem(endpoint, domain, addr, size, key, HmemIface::System)
                .expect("register_mr_hmem (SYSTEM) failed")
        } else {
            self.register_mr(endpoint, domain, addr, size, key).expect("register_mr failed")
        }
    }

    fn post(&mut self, call: &PostCall) -> Result<(), OfiError> {
        match self.fabric.call(&FabricCall::Post(*call)) {
            Reply::Code(ret) => posted(call.operation(), ret),
            other => panic!("unexpected answer {other:?}"),
        }
    }

    /// Posts until the transfer is accepted, with a look at the queue in between.
    fn post_with_retry(&mut self, domain: &OfiDomain, call: PostCall, timeout: Duration) {
        let deadline = self.fabric.clock as u128 + timeout.as_nanos();
        loop {
            match self.post(&call) {
                Ok(()) => break,
                Err(e) if e.message().contains("-11") && (self.fabric.clock as u128) < deadline => {
                    self.fabric.call(&FabricCall::ReadCq { cq: domain.cq });
                    self.fabric.clock += 1_000_000;
                }
                Err(e) => panic!("{} after retries", e.message()),
            }
        }
    }

    fn poll_cq(
        &mut self,
        endpoint: &OfiEndpoint,
        domain: &OfiDomain,
        timeout: Duration,
    ) -> Result<(), OfiError> {
        let poll = endpoint.poll_cq(domain, timeout.as_nanos(), self.fabric.clock);
        match self.drive("", poll).phase {
            PollPhase::Done(result) => result,
            phase => panic!("unfinished {phase:?}"),
        }
    }

    fn drop_mr(&mut self, mr: OfiMr) {
        self.fabric.call(&mr.release().unwrap());
    }

    fn drop_endpoint(&mut self, endpoint: OfiEndpoint) {
        self.fabric.call(&endpoint.release().unwrap());
    }

    fn drop_domain(&mut self, domain: OfiDomain) {
        let mut domain = domain;
        while let Some(call) = domain.release() {
            self.fabric.call(&call);
        }
    }
}

fn cpu_only() -> OfiConfig {
    OfiConfig { request_hmem: false, ..OfiConfig::default() }
}

// ---------------------------------------------------------------------------
// Availability
// ---------------------------------------------------------------------------

#[test]
fn test_fi_version() {
    let mut fabric = fabric_with(true, true);
    let ver = match fabric.call(&version()) {
        Reply::Version(ver) => ver,
        other => panic!("unexpected answer {other:?}"),
    };
    let major = ver >> 16;
    let minor = ver & 0xffff;
    // libfabric 1.x or 2.x
    assert!(major >= 1, "unexpected libfabric version {}.{}", major, minor);
    println!("libfabric version: {}.{}", major, minor);
}

#[test]
fn test_ofi_available() {
    let mut world = world_with(true, true);
    let available = world.probe(ofi_available(None));
    println!("OFI available: {}", available);
    assert!(available);
    assert_eq!(world.fabric.calls, vec!["dupinfo", "getinfo", "freeinfo", "freeinfo"]);
    assert_eq!(world.fabric.outstanding(), 0);
}

#[test]
fn test_efa_ofi_available() {
    let mut world = world_with(true, true);
    let available = world.probe(efa_ofi_available(None));
    println!("EFA OFI available: {}", available);
    assert!(available);
    world.fabric.providers[0].name = "tcp";
    assert!(!world.probe(efa_ofi_available(None)));
    assert!(world.probe(ofi_available(None)));
    assert_eq!(world.fabric.outstanding(), 0);
}

#[test]
fn probes_without_a_provider() {
    let mut world = world_with(true, true);
    world.fabric.providers.clear();
    assert!(!world.probe(ofi_available(None)));
    assert!(!world.probe(ofi_supported(None, None)));
    world.fabric.fail = Some(("dupinfo", -12));
    assert!(!world.probe(ofi_available(None)));
    assert_eq!(world.fabric.outstanding(), 0);
}

#[test]
fn cached_probes_ask_nothing() {
    let mut world = world_with(true, true);
    for found in [true, false] {
        assert_eq!(world.probe(ofi_available(Some(found))), found);
        assert_eq!(world.probe(efa_ofi_available(Some(found))), found);
        assert_eq!(world.probe(ofi_supported(Some(found), Some(!found))), found);
        assert_eq!(world.probe(ofi_supported(None, Some(found))), found);
    }
    assert!(world.fabric.calls.is_empty());
}

// ---------------------------------------------------------------------------
// Domains and endpoints
// ---------------------------------------------------------------------------

#[test]
fn test_ofi_domain_creation() {
    let mut world = world_with(true, true);
    let config = OfiConfig::default();
    let domain = world.domain(&config).expect("OfiDomain::new should succeed");

    assert!(domain.info != 0, "info should be non-null");
    assert!(domain.fabric != 0, "fabric should be non-null");
    assert!(domain.domain != 0, "domain should be non-null");
    assert!(domain.av != 0, "av should be non-null");
    assert!(domain.cq != 0, "cq should be non-null");

    world.drop_domain(domain);
    assert_eq!(world.fabric.outstanding(), 0);
}

#[test]
fn test_ofi_endpoint_lifecycle() {
    let mut world = world_with(true, true);
    let config = OfiConfig::default();
    let domain = world.domain(&config).expect("domain creation failed");
    let endpoint = world.endpoint(&domain).expect("endpoint creation failed");

    assert!(endpoint.ep != 0, "endpoint should be non-null");

    let info = world.name(&endpoint).expect("get_name should succeed");
    assert!(info.addr_len > 0, "endpoint address should have non-zero length");
    assert_eq!(info.addr.len(), info.addr_len, "addr vec length should match addr_len");

    world.drop_endpoint(endpoint);
    world.drop_domain(domain);
    assert_eq!(world.fabric.outstanding(), 0);
}

#[test]
fn test_ofi_cpu_mr_registration() {
    let mut world = world_with(true, true);
    let config = OfiConfig::default();
    let domain = world.domain(&config).expect("domain creation failed");
    let endpoint = world.endpoint(&domain).expect("endpoint creation failed");

    let buf = vec![0u8; 4096];
    let addr = world.fabric.allocate(&buf);
    let size = buf.len();

    let mr = world.register_mr(&endpoint, &domain, addr, size, 1).expect("register_mr should succeed");
    assert!(mr.mr != 0, "MR handle should be non-null");
    assert_eq!(mr.desc(), Fabric::desc_of(mr.mr));

    world.drop_mr(mr);
    world.drop_endpoint(endpoint);
    world.drop_domain(domain);
    assert_eq!(world.fabric.outstanding(), 0);
}

#[test]
fn test_ofi_av_insert_roundtrip() {
    let mut world = world_with(true, true);
    let config = OfiConfig::default();

    let domain1 = world.domain(&config).expect("domain1 creation failed");
    let ep1 = world.endpoint(&domain1).expect("ep1 creation failed");

    let domain2 = world.domain(&config).expect("domain2 creation failed");
    let ep2 = world.endpoint(&domain2).expect("ep2 creation failed");

    let info1 = world.name(&ep1).expect("get_name ep1 failed");
    let info2 = world.name(&ep2).expect("get_name ep2 failed");

    let fi_addr_2_on_1 =
        world.av_insert(&ep1, &domain1, &info2).expect("av_insert of ep2 into ep1 failed");
    let fi_addr_1_on_2 =
        world.av_insert(&ep2, &domain2, &info1).expect("av_insert of ep1 into ep2 failed");

    assert_ne!(fi_addr_2_on_1, u64::MAX, "fi_addr should not be FI_ADDR_UNSPEC");
    assert_ne!(fi_addr_1_on_2, u64::MAX, "fi_addr should not be FI_ADDR_UNSPEC");
}

#[test]
fn test_ofi_endpoint_drop_cleanup() {
    let mut world = world_with(true, true);
    let config = OfiConfig::default();

    for _ in 0..5 {
        let domain = world.domain(&config).expect("domain creation failed");
        let ep = world.endpoint(&domain).expect("endpoint creation failed");

        let buf = vec![0u8; 1024];
        let addr = world.fabric.allocate(&buf);
        let mr = world.register_mr(&ep, &domain, addr, buf.len(), 1).expect("register_mr failed");

        world.drop_mr(mr);
        world.drop_endpoint(ep);
        world.drop_domain(domain);
        assert_eq!(world.fabric.outstanding(), 0);
    }
}

#[test]
fn a_domain_is_set_up_and_taken_down_in_order() {
    let mut world = world_with(true, true);
    let domain = world.domain(&cpu_only()).unwrap();
    assert_eq!(
        world.fabric.calls,
        vec!["dupinfo", "getinfo", "freeinfo", "fabric", "domain", "av", "cq"]
    );
    match world.fabric.objects.get(&domain.cq) {
        Some(Object::Cq { size, .. }) => assert_eq!(*size, 256),
        _ => panic!("no queue"),
    }
    let mut rest = domain;
    assert_eq!(rest.release(), Some(FabricCall::Close { fid: domain.cq }));
    assert_eq!(rest.release(), Some(FabricCall::Close { fid: domain.av }));
    assert_eq!(rest.release(), Some(FabricCall::Close { fid: domain.domain }));
    assert_eq!(rest.release(), Some(FabricCall::Close { fid: domain.fabric }));
    assert_eq!(rest.release(), Some(FabricCall::FreeInfo { info: domain.info }));
    assert_eq!(rest.release(), None);
}

#[test]
fn device_memory_support_is_negotiated() {
    let mut world = world_with(true, true);
    let domain = world.domain(&OfiConfig::default()).unwrap();
    assert!(domain.hmem_supported && domain.rma_supported);
    assert_eq!(&world.fabric.calls[..3], &["dupinfo", "getinfo+hmem", "freeinfo"]);

    let mut world = world_with(false, false);
    let domain = world.domain(&OfiConfig::default()).unwrap();
    assert!(!domain.hmem_supported && !domain.rma_supported);
    assert_eq!(
        &world.fabric.calls[..6],
        &["dupinfo", "getinfo+hmem", "freeinfo", "dupinfo", "getinfo", "freeinfo"]
    );

    let mut world = world_with(true, true);
    let domain = world.domain(&cpu_only()).unwrap();
    assert!(!domain.hmem_supported);
    assert_eq!(&world.fabric.calls[..3], &["dupinfo", "getinfo", "freeinfo"]);
}

#[test]
fn a_missing_provider_is_named() {
    let mut world = world_with(true, true);
    let config = OfiConfig { provider: "verbs".to_string(), ..OfiConfig::default() };
    let error = world.domain(&config).unwrap_err();
    assert_eq!(
        error.message(),
        "fi_getinfo failed: No data available (provider: \"verbs\", hmem: false)"
    );
    assert_eq!(world.fabric.outstanding(), 0);

    world.fabric.fail = Some(("getinfo", -4000));
    let error = world.domain(&cpu_only()).unwrap_err();
    assert_eq!(
        error.message(),
        "fi_getinfo failed: unknown error (-4000) (provider: \"\", hmem: false)"
    );
}

#[test]
fn hints_and_provider_names_can_be_refused() {
    let mut world = world_with(true, true);
    let config = OfiConfig { provider: "ef\0a".to_string(), ..cpu_only() };
    let error = world.domain(&config).unwrap_err();
    assert_eq!(error, OfiError::InvalidProvider { position: 2 });
    assert_eq!(world.fabric.calls, vec!["dupinfo", "freeinfo"]);
    assert_eq!(world.fabric.outstanding(), 0);

    world.fabric.fail = Some(("dupinfo", -12));
    assert_eq!(world.domain(&cpu_only()), Err(OfiError::AllocInfo));
}

#[test]
fn an_empty_list_of_providers_is_no_success() {
    let mut setup = OfiDomain::new(&cpu_only());
    setup = setup.resume(Reply::Handle { ret: 0, handle: 16 });
    setup = setup.resume(Reply::Info { ret: 0, info: 0, rma: false });
    setup = setup.resume(Reply::Done);
    match setup.phase {
        DomainPhase::Done(Err(error)) => assert_eq!(
            error.message(),
            "fi_getinfo failed: success (provider: \"\", hmem: false)"
        ),
        phase => panic!("unexpected {phase:?}"),
    }
}

#[test]
fn a_failed_domain_leaves_nothing_behind() {
    for (call, part) in [
        ("fabric", DomainPart::Fabric),
        ("domain", DomainPart::Domain),
        ("av", DomainPart::Av),
        ("cq", DomainPart::Cq),
    ] {
        let mut world = world_with(true, true);
        world.fabric.fail = Some((call, -12));
        let error = world.domain(&OfiConfig::default()).unwrap_err();
        let reason = ErrorText::Known("Cannot allocate memory".to_string());
        assert_eq!(error, OfiError::Open { part, reason });
        assert_eq!(world.fabric.outstanding(), 0);
    }
}

#[test]
fn a_failed_endpoint_leaves_nothing_behind() {
    for (call, error) in [
        ("endpoint", OfiError::Endpoint { ret: -22 }),
        ("bind_av", OfiError::BindAv { ret: -22 }),
        ("bind_cq", OfiError::BindCq { ret: -22 }),
        ("enable", OfiError::Enable { ret: -22 }),
    ] {
        let mut world = world_with(true, true);
        let domain = world.domain(&cpu_only()).unwrap();
        let before = world.fabric.outstanding();
        world.fabric.fail = Some((call, -22));
        assert_eq!(world.endpoint(&domain), Err(error));
        assert_eq!(world.fabric.outstanding(), before);
    }
}

#[test]
fn names_and_addresses_can_be_refused() {
    let mut world = world_with(true, true);
    let domain = world.domain(&cpu_only()).unwrap();
    let endpoint = world.endpoint(&domain).unwrap();
    let info = world.name(&endpoint).unwrap();
    world.fabric.fail = Some(("getname", -22));
    assert_eq!(world.name(&endpoint), Err(OfiError::GetName { ret: -22 }));
    world.fabric.fail = Some(("av_insert", -22));
    assert_eq!(
        world.av_insert(&endpoint, &domain, &info),
        Err(OfiError::AvInsert { ret: -22 })
    );
    assert_eq!(inserted_addr(0, 7), Err(OfiError::AvInsert { ret: 0 }));
    assert_eq!(inserted_addr(2, 7), Err(OfiError::AvInsert { ret: 2 }));
    assert_eq!(inserted_addr(1, 7), Ok(7));
}

#[test]
fn an_address_is_as_long_as_it_says() {
    let mut world = world_with(true, true);
    world.fabric.slack = 10;
    let domain = world.domain(&cpu_only()).unwrap();
    let endpoint = world.endpoint(&domain).unwrap();
    let info = world.name(&endpoint).unwrap();
    assert_eq!(info.addr, Fabric::name_of(endpoint.ep));
    assert_eq!(info.addr_len, 6);

    let buffer = vec![1u8, 2, 3, 4];
    let reply = |ret, addr, addr_len| Reply::Name { ret, addr, addr_len };
    assert_eq!(name_reply(0, buffer.clone(), 3), reply(0, vec![1, 2, 3], 3));
    assert_eq!(name_reply(0, buffer.clone(), 4), reply(0, buffer.clone(), 4));
    assert_eq!(name_reply(0, buffer.clone(), 9), reply(0, buffer.clone(), 4));
    assert_eq!(name_reply(-22, buffer.clone(), 3), reply(-22, buffer.clone(), 3));
    assert_eq!(name_reply(0, vec![], 6), reply(0, vec![], 6));
    let fill = Effect::Call(FabricCall::GetName { ep: 1, capacity: 4 });
    assert!(!is_answer(&fill, &reply(0, buffer.clone(), 3)));
    assert!(!is_answer(&fill, &reply(-22, vec![0; 5], 5)));
    let query = endpoint.get_name().resume(reply(-257, vec![], 4));
    match query.resume(reply(0, vec![7, 8], 2)).phase {
        NamePhase::Done(Ok(info)) => assert_eq!((info.addr, info.addr_len), (vec![7, 8], 2)),
        phase => panic!("unexpected {phase:?}"),
    }
}

#[test]
fn hints_are_a_copy_of_nothing() {
    assert_eq!(fi_allocinfo(), FabricCall::DupInfo { info: 0 });
    assert_eq!(version(), FabricCall::Version);
}

#[test]
fn null_handles_are_not_given_back() {
    assert_eq!(OfiEndpoint { ep: 0 }.release(), None);
    assert_eq!(OfiMr { mr: 0, rkey: 1, local_desc: 2 }.release(), None);
    assert_eq!(OfiEndpoint { ep: 5 }.release(), Some(FabricCall::Close { fid: 5 }));
}

// ---------------------------------------------------------------------------
// Round trips between endpoints
// ---------------------------------------------------------------------------

#[test]
fn test_ofi_cpu_write_roundtrip() {
    let mut world = world_with(true, true);
    world.fabric.eagain = 3;
    let config = OfiConfig { request_hmem: false, ..OfiConfig::default() };
    let buf_size = 4096;

    let src_buf = world.fabric.allocate(&vec![42u8; buf_size]);
    let dst_buf = world.fabric.allocate(&vec![0u8; buf_size]);

    let domain = world.domain(&config).expect("domain creation failed");
    let ep1 = world.endpoint(&domain).expect("ep1 failed");
    let ep2 = world.endpoint(&domain).expect("ep2 failed");

    let info1 = world.name(&ep1).expect("get_name ep1 failed");
    let info2 = world.name(&ep2).expect("get_name ep2 failed");

    let fi_addr2_on_ep1 = world.av_insert(&ep1, &domain, &info2).expect("av_insert failed");
    let _fi_addr1_on_ep2 = world.av_insert(&ep2, &domain, &info1).expect("av_insert failed");

    let src_mr = world.register_cpu_mr(&ep1, &domain, src_buf, buf_size, 1);
    let dst_mr = world.register_cpu_mr(&ep2, &domain, dst_buf, buf_size, 2);

    let call = ep1.write(
        src_buf as u64,
        buf_size,
        src_mr.desc(),
        dst_buf as u64,
        dst_mr.rkey,
        fi_addr2_on_ep1,
        0xc0,
    );
    world.post_with_retry(&domain, call, Duration::from_secs(10));

    world
        .poll_cq(&ep1, &domain, Duration::from_secs(10))
        .expect("CQ poll timed out or errored");

    assert_eq!(
        world.fabric.bytes(dst_buf, buf_size),
        vec![42u8; buf_size],
        "destination buffer should match source after RDMA write"
    );
    assert_eq!(world.fabric.bytes(src_buf, buf_size), vec![42u8; buf_size]);
}

#[test]
fn test_ofi_cpu_read_roundtrip() {
    let mut world = world_with(true, true);
    let config = OfiConfig { request_hmem: false, ..OfiConfig::default() };

    let domain = world.domain(&config).expect("domain creation failed");
    assert!(domain.rma_supported);

    let buf_size = 4096;

    let remote_buf = world.fabric.allocate(&vec![99u8; buf_size]);
    let local_buf = world.fabric.allocate(&vec![0u8; buf_size]);
    let ep1 = world.endpoint(&domain).expect("ep1 failed");
    let ep2 = world.endpoint(&domain).expect("ep2 failed");

    let info1 = world.name(&ep1).expect("get_name ep1 failed");
    let info2 = world.name(&ep2).expect("get_name ep2 failed");

    let fi_addr2_on_ep1 = world.av_insert(&ep1, &domain, &info2).expect("av_insert failed");
    let _fi_addr1_on_ep2 = world.av_insert(&ep2, &domain, &info1).expect("av_insert failed");

    let local_mr = world.register_cpu_mr(&ep1, &domain, local_buf, buf_size, 1);
    let remote_mr = world.register_cpu_mr(&ep2, &domain, remote_buf, buf_size, 2);

    let call = ep1.read(
        local_buf as u64,
        buf_size,
        local_mr.desc(),
        remote_buf as u64,
        remote_mr.rkey,
        fi_addr2_on_ep1,
        0xc0,
    );
    world.post_with_retry(&domain, call, Duration::from_secs(10));

    world
        .poll_cq(&ep1, &domain, Duration::from_secs(10))
        .expect("CQ poll timed out or errored");

    assert_eq!(
        world.fabric.bytes(local_buf, buf_size),
        vec![99u8; buf_size],
        "local buffer should match remote after RDMA read"
    );
    assert_eq!(world.fabric.bytes(remote_buf, buf_size), vec![99u8; buf_size]);
}

#[test]
fn test_ofi_gpu_mr_registration() {
    let mut world = world_with(true, true);
    let config = OfiConfig::default();
    let domain = world.domain(&config).expect("domain creation failed");
    assert!(domain.hmem_supported);
    let endpoint = world.endpoint(&domain).expect("endpoint creation failed");

    let gpu_buf = world.fabric.allocate_device(&vec![0u8; 4096]);

    let mr = world
        .register_mr_hmem(&endpoint, &domain, gpu_buf, 4096, 1, HmemIface::Cuda)
        .expect("register_mr_hmem should succeed");

    assert!(mr.mr != 0, "MR handle should be non-null");
    match world.fabric.objects.get(&mr.mr) {
        Some(Object::Mr { hmem, .. }) => assert_eq!(*hmem, Some((HmemIface::Cuda, 0))),
        _ => panic!("no region"),
    }
}

#[test]
fn test_ofi_gpu_write_roundtrip() {
    let mut world = world_with(true, true);
    world.fabric.eagain = 2;
    let config = OfiConfig::default();
    let buf_size = 4096;

    let domain = world.domain(&config).expect("domain creation failed");
    assert!(domain.hmem_supported);
    let ep1 = world.endpoint(&domain).expect("ep1 failed");
    let ep2 = world.endpoint(&domain).expect("ep2 failed");

    let src_data = vec![42u8; buf_size];
    let src_gpu = world.fabric.allocate_device(&src_data);
    let dst_gpu = world.fabric.allocate_device(&vec![0u8; buf_size]);

    let info1 = world.name(&ep1).expect("get_name ep1 failed");
    let info2 = world.name(&ep2).expect("get_name ep2 failed");
    let fi_addr2 = world.av_insert(&ep1, &domain, &info2).expect("av_insert failed");
    let _fi_addr1 = world.av_insert(&ep2, &domain, &info1).expect("av_insert failed");

    let src_mr = world
        .register_mr_hmem(&ep1, &domain, src_gpu, buf_size, 1, HmemIface::Cuda)
        .expect("src MR failed");
    let dst_mr = world
        .register_mr_hmem(&ep2, &domain, dst_gpu, buf_size, 2, HmemIface::Cuda)
        .expect("dst MR failed");

    let call = ep1.write(
        src_gpu as u64,
        buf_size,
        src_mr.desc(),
        dst_gpu as u64,
        dst_mr.rkey,
        fi_addr2,
        0xc0,
    );
    world.post_with_retry(&domain, call, Duration::from_secs(3));

    world.poll_cq(&ep1, &domain, Duration::from_secs(10)).expect("CQ poll failed");

    assert_eq!(world.fabric.bytes(dst_gpu, buf_size), src_data);
}

#[test]
fn test_ofi_gpu_read_roundtrip() {
    let mut world = world_with(true, true);
    let config = OfiConfig::default();
    let buf_size = 4096;

    let domain = world.domain(&config).expect("domain creation failed");
    assert!(domain.hmem_supported);
    assert!(domain.rma_supported);
    let ep1 = world.endpoint(&domain).expect("ep1 failed");
    let ep2 = world.endpoint(&domain).expect("ep2 failed");

    let remote_data = vec![99u8; buf_size];
    let remote_gpu = world.fabric.allocate_device(&remote_data);
    let local_gpu = world.fabric.allocate_device(&vec![0u8; buf_size]);

    let info1 = world.name(&ep1).expect("get_name ep1 failed");
    let info2 = world.name(&ep2).expect("get_name ep2 failed");
    let fi_addr2 = world.av_insert(&ep1, &domain, &info2).expect("av_insert failed");
    let _fi_addr1 = world.av_insert(&ep2, &domain, &info1).expect("av_insert failed");

    let local_mr = world
        .register_mr_hmem(&ep1, &domain, local_gpu, buf_size, 1, HmemIface::Cuda)
        .expect("local MR failed");
    let remote_mr = world
        .register_mr_hmem(&ep2, &domain, remote_gpu, buf_size, 2, HmemIface::Cuda)
        .expect("remote MR failed");

    let call = ep1.read(
        local_gpu as u64,
        buf_size,
        local_mr.desc(),
        remote_gpu as u64,
        remote_mr.rkey,
        fi_addr2,
        0xc0,
    );
    world.post_with_retry(&domain, call, Duration::from_secs(3));

    world.poll_cq(&ep1, &domain, Duration::from_secs(3)).expect("CQ poll failed");

    assert_eq!(world.fabric.bytes(local_gpu, buf_size), remote_data);
}

#[test]
fn test_ofi_cq_progress_thread_does_not_steal_completions() {
    let mut world = world_with(true, true);
    world.background = true;
    let config = OfiConfig { request_hmem: false, ..OfiConfig::default() };
    let buf_size = 4096;

    let domain = world.domain(&config).expect("domain creation failed");
    let ep1 = world.endpoint(&domain).expect("ep1 failed");
    let ep2 = world.endpoint(&domain).expect("ep2 failed");

    let info1 = world.name(&ep1).expect("get_name ep1 failed");
    let info2 = world.name(&ep2).expect("get_name ep2 failed");
    let fi_addr2 = world.av_insert(&ep1, &domain, &info2).expect("av_insert failed");
    let _fi_addr1 = world.av_insert(&ep2, &domain, &info1).expect("av_insert failed");

    world.guards.insert("bg".to_string(), (domain.cq, CqProgressGuard::new()));

    for i in 0..10u64 {
        let src_data = vec![(i as u8).wrapping_add(1); buf_size];
        let src_buf = world.fabric.allocate(&src_data);
        let dst_buf = world.fabric.allocate(&vec![0u8; buf_size]);

        let src_mr = world.register_cpu_mr(&ep1, &domain, src_buf, buf_size, 100 + i);
        let dst_mr = world.register_cpu_mr(&ep2, &domain, dst_buf, buf_size, 200 + i);

        world.fabric.eagain = 2;
        let call = ep1.write(
            src_buf as u64,
            buf_size,
            src_mr.desc(),
            dst_buf as u64,
            dst_mr.rkey,
            fi_addr2,
            0xc0,
        );
        let posting =
            PostAndPollCq::start(call, domain.cq, Duration::from_secs(5).as_nanos());
        match world.drive("bg", posting).phase {
            PostPhase::Done(Ok(())) => {}
            phase => panic!("CQ poll failed on iteration {}: {:?}", i, phase),
        }
        assert_eq!(world.guards["bg"].1.active_ops, 0);

        assert_eq!(
            world.fabric.bytes(dst_buf, buf_size),
            src_data,
            "data mismatch on iteration {} — completion may have been stolen",
            i
        );
    }

    // Without the pause the thread takes the entry.
    world.fabric.complete(domain.cq);
    world.run_background();
    assert_eq!(
        world.poll_cq(&ep1, &domain, Duration::from_millis(5)),
        Err(OfiError::CqTimeout)
    );

    if let Some((_, guard)) = world.guards.get_mut("bg") {
        guard.stop();
        assert_eq!(guard.progress_step(), ProgressStep::Stop);
    }
}

#[test]
fn test_ofi_cq_poll_timeout() {
    let mut world = world_with(true, true);
    let config = OfiConfig { request_hmem: false, ..OfiConfig::default() };
    let domain = world.domain(&config).expect("domain creation failed");
    let ep = world.endpoint(&domain).expect("endpoint creation failed");

    let start = world.fabric.clock;
    let result = world.poll_cq(&ep, &domain, Duration::from_millis(100));
    let elapsed = Duration::from_nanos(world.fabric.clock - start);

    assert!(result.is_err(), "poll_cq should fail when nothing is pending");
    let err_msg = result.unwrap_err().message();
    assert!(
        err_msg.contains("timed out"),
        "error should mention timeout, got: {}",
        err_msg
    );
    assert!(elapsed >= Duration::from_millis(100));
    assert!(
        elapsed < Duration::from_secs(2),
        "poll_cq should respect the short timeout, took {:?}",
        elapsed
    );
}

#[test]
fn test_ofi_multiple_mr_registrations() {
    let mut world = world_with(true, true);
    let config = OfiConfig { request_hmem: false, ..OfiConfig::default() };
    let domain = world.domain(&config).expect("domain creation failed");
    let ep = world.endpoint(&domain).expect("endpoint creation failed");

    let num_mrs = 8;
    let buf_size = 1024;
    let buffers: Vec<usize> =
        (0..num_mrs).map(|i| world.fabric.allocate(&vec![i as u8; buf_size])).collect();

    let mrs: Vec<_> = buffers
        .iter()
        .enumerate()
        .map(|(i, buf)| world.register_cpu_mr(&ep, &domain, *buf, buf_size, (i + 1) as u64))
        .collect();

    for (i, mr) in mrs.iter().enumerate() {
        assert!(mr.mr != 0, "MR {} handle should be non-null", i);
    }

    let mut rkeys: Vec<u64> = mrs.iter().map(|mr| mr.rkey).collect();
    rkeys.sort();
    rkeys.dedup();
    assert_eq!(
        rkeys.len(),
        num_mrs,
        "all {} MRs should have unique rkeys, got {} unique",
        num_mrs,
        rkeys.len()
    );
}

#[test]
fn test_ofi_cpu_send_recv_roundtrip() {
    let mut world = world_with(true, true);
    world.fabric.eagain = 1;
    let config = OfiConfig { request_hmem: false, ..OfiConfig::default() };
    let buf_size = 4096;

    let src_buf = world.fabric.allocate(&vec![77u8; buf_size]);
    let dst_buf = world.fabric.allocate(&vec![0u8; buf_size]);

    let domain = world.domain(&config).expect("domain creation failed");
    let ep1 = world.endpoint(&domain).expect("ep1 failed");
    let ep2 = world.endpoint(&domain).expect("ep2 failed");

    let info1 = world.name(&ep1).expect("get_name ep1 failed");
    let info2 = world.name(&ep2).expect("get_name ep2 failed");

    let fi_addr2_on_ep1 = world.av_insert(&ep1, &domain, &info2).expect("av_insert failed");
    let fi_addr1_on_ep2 = world.av_insert(&ep2, &domain, &info1).expect("av_insert failed");

    let src_mr = world.register_cpu_mr(&ep1, &domain, src_buf, buf_size, 1);
    let dst_mr = world.register_cpu_mr(&ep2, &domain, dst_buf, buf_size, 2);

    let receive = ep2.recv(dst_buf as u64, buf_size, dst_mr.desc(), fi_addr1_on_ep2, 0);
    world.post(&receive).expect("fi_recv failed");

    let call = ep1.send(src_buf as u64, buf_size, src_mr.desc(), fi_addr2_on_ep1, 0);
    world.post_with_retry(&domain, call, Duration::from_secs(10));

    world
        .poll_cq(&ep1, &domain, Duration::from_secs(10))
        .expect("CQ poll for send completion failed");
    world
        .poll_cq(&ep2, &domain, Duration::from_secs(10))
        .expect("CQ poll for recv completion failed");

    assert_eq!(
        world.fabric.bytes(dst_buf, buf_size),
        vec![77u8; buf_size],
        "destination buffer should match source after fi_send/fi_recv"
    );
}

#[test]
fn test_ofi_cpu_recv_send_roundtrip() {
    let mut world = world_with(true, true);
    let config = OfiConfig { request_hmem: false, ..OfiConfig::default() };
    let buf_size = 4096;

    let remote_buf = world.fabric.allocate(&vec![88u8; buf_size]);
    let local_buf = world.fabric.allocate(&vec![0u8; buf_size]);

    let domain = world.domain(&config).expect("domain creation failed");
    let ep1 = world.endpoint(&domain).expect("ep1 failed");
    let ep2 = world.endpoint(&domain).expect("ep2 failed");

    let info1 = world.name(&ep1).expect("get_name ep1 failed");
    let info2 = world.name(&ep2).expect("get_name ep2 failed");

    let fi_addr2_on_ep1 = world.av_insert(&ep1, &domain, &info2).expect("av_insert failed");
    let fi_addr1_on_ep2 = world.av_insert(&ep2, &domain, &info1).expect("av_insert failed");

    let local_mr = world.register_cpu_mr(&ep1, &domain, local_buf, buf_size, 1);
    let remote_mr = world.register_cpu_mr(&ep2, &domain, remote_buf, buf_size, 2);

    let receive = ep1.recv(local_buf as u64, buf_size, local_mr.desc(), fi_addr2_on_ep1, 0);
    world.post(&receive).expect("fi_recv failed");

    let call = ep2.send(remote_buf as u64, buf_size, remote_mr.desc(), fi_addr1_on_ep2, 0);
    world.post_with_retry(&domain, call, Duration::from_secs(10));

    world
        .poll_cq(&ep2, &domain, Duration::from_secs(10))
        .expect("CQ poll for send completion failed");
    world
        .poll_cq(&ep1, &domain, Duration::from_secs(10))
        .expect("CQ poll for recv completion failed");

    assert_eq!(
        world.fabric.bytes(local_buf, buf_size),
        vec![88u8; buf_size],
        "local buffer should match remote after fi_recv/fi_send"
    );
}

// ---------------------------------------------------------------------------
// Managers
// ---------------------------------------------------------------------------

#[test]
fn a_manager_needs_libfabric() {
    let setup = OfiManagerActor::new(None, false);
    assert_eq!(setup.effect(), Effect::Finished);
    assert_eq!(setup.finish(), Some(Err(OfiError::Unsupported)));
}

#[test]
fn a_new_manager_has_the_default_configuration() {
    let mut world = world_with(true, true);
    let setup = OfiManagerActor::new(None, true);
    let parts = world.drive("a", setup).finish().unwrap().unwrap();
    assert_eq!(parts.config, OfiConfig::default());
    assert_eq!(world.guards["a"].0, parts.domain.cq);
    assert_eq!(world.fabric.outstanding(), 6);
    let mut manager = OfiManagerActor::from_parts("a".to_string(), parts);
    assert_eq!(manager.next_mr_key, 1);
    assert_eq!(manager.init("rdma".to_string()), Ok(()));
    assert_eq!(manager.init("other".to_string()), Err(OfiError::OwnerAlreadySet));
    assert_eq!(manager.owner, Some("rdma".to_string()));
}

#[test]
fn a_failed_manager_leaves_nothing_behind() {
    for call in ["getinfo", "fabric", "cq", "endpoint", "bind_av", "bind_cq", "enable"] {
        let mut world = world_with(true, true);
        world.fabric.fail = Some((call, -22));
        let setup = OfiManagerActor::new(Some(cpu_only()), true);
        let result = world.drive("a", setup).finish().unwrap();
        assert!(result.is_err());
        assert_eq!(world.fabric.outstanding(), 0);
        assert!(world.guards.is_empty());
    }
}

#[test]
fn a_requested_buffer_is_registered_once() {
    let mut world = world_with(true, false);
    world.manager("a");
    let memory = world.buffer("a", 7, &[1u8; 64]);
    let before = world.fabric.outstanding();
    let buffer = world.request("a", 7).unwrap().unwrap();
    assert_eq!(buffer.addr, memory.addr as u64);
    assert_eq!(buffer.size, 64);
    assert_eq!(buffer.rkey, 0x5001);
    assert_eq!(world.fabric.outstanding(), before + 1);

    let again = world.request("a", 7).unwrap().unwrap();
    assert_eq!(again, buffer);
    assert_eq!(world.fabric.calls.iter().filter(|call| **call == "mr_reg").count(), 1);

    world.release("a", 7);
    assert_eq!(world.fabric.outstanding(), before);
    world.release("a", 7);

    let renewed = world.request("a", 7).unwrap().unwrap();
    assert_eq!(renewed.rkey, 0x5002);
}

#[test]
fn an_unknown_buffer_is_not_an_error() {
    let mut world = world_with(true, false);
    world.manager("a");
    assert_eq!(world.request("a", 99), Ok(None));
    world.buffer("a", 1, &[0u8; 8]);
    world.fabric.fail = Some(("register", -12));
    assert_eq!(world.request("a", 1), Err(OfiError::Register { ret: -12 }));
    assert_eq!(world.take("a").next_mr_key, 2);
}

#[test]
fn registrations_follow_the_kind_of_memory() {
    let mut world = world_with(true, true);
    world.manager("a");
    world.buffer("a", 1, &[0u8; 16]);
    let device = world.fabric.allocate_device(&[0u8; 16]);
    world.buffers.insert(("a".to_string(), 2), LocalMemory { addr: device, size: 16 });
    world.ordinal = (0, 3);
    world.request("a", 1).unwrap().unwrap();
    world.request("a", 2).unwrap().unwrap();
    let kinds: Vec<&str> =
        world.fabric.calls.iter().copied().filter(|call| call.starts_with("mr_")).collect();
    assert_eq!(kinds, vec!["mr_regattr(system)", "mr_regattr(cuda)"]);
    let hmem: Vec<_> = world
        .fabric
        .objects
        .values()
        .filter_map(|object| match object {
            Object::Mr { hmem, .. } => *hmem,
            _ => None,
        })
        .collect();
    assert_eq!(hmem, vec![(HmemIface::System, 0), (HmemIface::Cuda, 3)]);

    let other = world.fabric.allocate_device(&[0u8; 16]);
    world.buffers.insert(("a".to_string(), 3), LocalMemory { addr: other, size: 16 });
    world.ordinal = (1, 0);
    assert_eq!(world.request("a", 3), Err(OfiError::DeviceOrdinal { addr: other, err: 1 }));
    world.ordinal = (0, -1);
    assert_eq!(world.request("a", 3), Err(OfiError::DeviceOrdinal { addr: other, err: 0 }));
    world.fabric.fail = Some(("register", -12));
    world.buffer("a", 4, &[0u8; 16]);
    assert_eq!(world.request("a", 4), Err(OfiError::RegisterAttr { ret: -12 }));
}

fn transfer_both_ways(rma: bool, hmem: bool, remote: &str, latency: usize) -> World {
    let mut world = world_with(rma, hmem);
    world.latency = latency;
    world.background = true;
    world.manager("a");
    if remote != "a" {
        world.manager(remote);
        if !rma {
            world.introduce(remote, "a");
        }
    }
    let target = world.buffer(remote, 5, &[3u8; 128]);
    world.request(remote, 5).unwrap().unwrap();
    let before = world.fabric.outstanding();

    let source = world.local(&[9u8; 128]);
    world.fabric.eagain = 2;
    let written = world.execute("a", RdmaOpType::WriteFromLocal, source, remote, 5);
    assert_eq!(written, Ok(()));
    assert_eq!(world.bytes(target), vec![9u8; 128]);

    let destination = world.local(&[0u8; 128]);
    let read = world.execute("a", RdmaOpType::ReadIntoLocal, destination, remote, 5);
    assert_eq!(read, Ok(()));
    assert_eq!(world.bytes(destination), vec![9u8; 128]);

    assert_eq!(world.fabric.outstanding(), before);
    for (_, guard) in world.guards.values() {
        assert_eq!(guard.active_ops, 0);
    }
    world
}

#[test]
fn remote_memory_access_between_managers() {
    let world = transfer_both_ways(true, false, "b", 0);
    let data: Vec<&str> = world
        .fabric
        .calls
        .iter()
        .copied()
        .filter(|call| ["write", "read", "send", "recv"].contains(call))
        .collect();
    assert_eq!(data, vec!["write", "write", "write", "read"]);
    assert_eq!(world.messages, vec!["a->b GetEndpointAddr"]);
}

#[test]
fn remote_memory_access_within_a_manager() {
    let world = transfer_both_ways(true, true, "a", 0);
    assert!(world.messages.is_empty());
}

#[test]
fn messages_between_managers() {
    for latency in [0, 1, 5] {
        let world = transfer_both_ways(false, false, "b", latency);
        let data: Vec<&str> = world
            .fabric
            .calls
            .iter()
            .copied()
            .filter(|call| ["write", "read", "send", "recv"].contains(call))
            .collect();
        assert_eq!(data, vec!["recv", "send", "send", "send", "recv", "send"]);
        let asked: Vec<&str> =
            world.messages.iter().map(|message| message.split(' ').take(2).last().unwrap()).collect();
        assert_eq!(asked, vec!["GetEndpointAddr", "PostRecv", "SendFromBuffer"]);
    }
}

#[test]
fn a_completion_that_comes_before_the_answer_is_not_lost() {
    let mut world = world_with(false, false);
    world.background = true;
    world.latency = 3;
    world.manager("a");
    world.manager("b");
    world.introduce("b", "a");
    world.buffer("b", 5, &[6u8; 16]);
    world.request("b", 5).unwrap().unwrap();
    let local = world.local(&[0u8; 16]);
    assert_eq!(world.execute("a", RdmaOpType::ReadIntoLocal, local, "b", 5), Ok(()));
    assert_eq!(world.bytes(local), vec![6u8; 16]);

    // Given up while the peer is at work, the transfer leaves nothing.
    let before = world.fabric.outstanding();
    let manager = world.take("a");
    let buffer = OfiBuffer { rkey: 0, addr: 0, size: 16 };
    let mut task = manager.handle_local(OfiManagerLocalMessage::ExecuteOp {
        op_type: RdmaOpType::ReadIntoLocal,
        local_addr: local.addr,
        local_size: local.size,
        remote_ofi_mgr: "b".to_string(),
        remote_buffer: buffer,
        remote_buf_id: 5,
        timeout_ms: 50,
    });
    while task.effect() != Effect::TakeAnswer {
        let reply = world.perform("a", task.effect());
        task = task.resume(reply, world.fabric.clock);
    }
    assert_eq!(world.guards["a"].1.active_ops, 1);
    assert_eq!(world.guards["a"].1.progress_step(), ProgressStep::Skip);
    assert_eq!(world.finish_task("a", task.cancel()), Outcome::Cancelled);
    assert_eq!(world.fabric.outstanding(), before);
    assert_eq!(world.guards["a"].1.active_ops, 0);
}

#[test]
fn messages_within_a_manager() {
    let world = transfer_both_ways(false, true, "a", 0);
    assert!(world.messages.is_empty());
}

#[test]
fn keys_are_never_used_twice() {
    let mut world = world_with(true, false);
    world.manager("a");
    world.buffer("a", 5, &[0u8; 32]);
    let buffer = world.request("a", 5).unwrap().unwrap();
    assert_eq!(buffer.rkey, 0x5001);
    let source = world.local(&[1u8; 32]);
    for _ in 0..3 {
        assert_eq!(world.execute("a", RdmaOpType::WriteFromLocal, source, "a", 5), Ok(()));
    }
    world.buffer("a", 6, &[0u8; 32]);
    assert_eq!(world.request("a", 6).unwrap().unwrap().rkey, 0x5005);
}

#[test]
fn a_failed_transfer_gives_its_region_back() {
    let mut world = world_with(true, false);
    world.manager("a");
    world.buffer("a", 5, &[0u8; 32]);
    world.request("a", 5).unwrap().unwrap();
    let before = world.fabric.outstanding();
    let source = world.local(&[1u8; 32]);

    world.fabric.fail = Some(("write", -22));
    let refused = world.execute("a", RdmaOpType::WriteFromLocal, source, "a", 5).unwrap_err();
    assert_eq!(refused.message(), "fi_write failed: -22");
    assert_eq!(world.fabric.outstanding(), before);

    // A code that only looks like "try again" is final.
    world.fabric.fail = Some(("write", -113));
    let refused = world.execute("a", RdmaOpType::WriteFromLocal, source, "a", 5).unwrap_err();
    assert_eq!(refused.message(), "fi_write failed: -113");

    world.fabric.fail = None;
    world.fabric.eagain = u32::MAX;
    let late = world.execute("a", RdmaOpType::WriteFromLocal, source, "a", 5).unwrap_err();
    assert_eq!(late.message(), "fi_write failed: -11");
    assert_eq!(world.fabric.outstanding(), before);

    let absent = world.execute("a", RdmaOpType::WriteFromLocal, source, "z", 5).unwrap_err();
    assert_eq!(absent, OfiError::Peer("actor not found".to_string()));
    assert_eq!(world.fabric.outstanding(), before);

    world.fabric.fail = Some(("register", -12));
    let none = world.execute("a", RdmaOpType::WriteFromLocal, source, "a", 5).unwrap_err();
    assert_eq!(none, OfiError::Register { ret: -12 });
    assert_eq!(world.fabric.outstanding(), before);
    assert_eq!(world.guards["a"].1.active_ops, 0);
}

#[test]
fn transfers_by_message_need_a_registered_buffer() {
    let mut world = world_with(false, false);
    world.manager("a");
    world.manager("b");
    world.introduce("b", "a");
    let before = world.fabric.outstanding();
    let local = world.local(&[1u8; 32]);
    assert_eq!(
        world.execute("a", RdmaOpType::WriteFromLocal, local, "a", 5),
        Err(OfiError::NotRegistered { lookup: Lookup::LoopbackWrite, buf_id: 5 })
    );
    assert_eq!(
        world.execute("a", RdmaOpType::ReadIntoLocal, local, "a", 5),
        Err(OfiError::NotRegistered { lookup: Lookup::LoopbackRead, buf_id: 5 })
    );
    assert_eq!(
        world.execute("a", RdmaOpType::WriteFromLocal, local, "b", 5),
        Err(OfiError::Peer("PostRecv: buffer 5 not registered".to_string()))
    );
    assert_eq!(
        world.execute("a", RdmaOpType::ReadIntoLocal, local, "b", 5),
        Err(OfiError::Peer("SendFromBuffer: buffer 5 not registered".to_string()))
    );
    assert_eq!(world.fabric.outstanding(), before);

    world.fabric.fail = Some(("recv", -22));
    assert_eq!(
        world.execute("a", RdmaOpType::ReadIntoLocal, local, "b", 5).unwrap_err().message(),
        "fi_recv failed: -22"
    );
}

#[test]
fn a_peer_gets_no_more_than_the_buffer() {
    let mut world = world_with(false, false);
    world.manager("a");
    world.manager("b");
    let memory = world.buffer("a", 5, &[4u8; 16]);
    world.request("a", 5).unwrap().unwrap();
    for (size, expected) in [(8, 8), (16, 16), (usize::MAX, 16)] {
        let manager = world.take("a");
        let outcome = world.finish_task("a", manager.post_recv(5, size, &"b".to_string()));
        assert_eq!(outcome, Outcome::Answered(Ok(Ok(()))));
        let (_, addr, len) = world.fabric.receives.pop().unwrap();
        assert_eq!((addr, len), (memory.addr, expected));
    }

    let sink = world.local(&[0u8; 64]);
    let manager = world.take("b");
    let (domain, endpoint) = (manager.domain, manager.endpoint);
    world.managers.insert("b".to_string(), Some(manager));
    let mr = world.register_mr(&endpoint, &domain, sink.addr, sink.size, 40).unwrap();
    let receive = endpoint.recv(sink.addr as u64, sink.size, mr.desc(), 0, 0);
    world.post(&receive).unwrap();
    let manager = world.take("a");
    let task = manager.send_from_buffer(5, 1000, &"b".to_string(), 50);
    assert_eq!(world.finish_task("a", task), Outcome::Answered(Ok(Ok(()))));
    let mut expected = vec![4u8; 16];
    expected.resize(64, 0);
    assert_eq!(world.bytes(sink), expected);

    // Nobody receives: the peer gets to know.
    let manager = world.take("a");
    let task = manager.send_from_buffer(5, 1000, &"b".to_string(), 3);
    match world.finish_task("a", task) {
        Outcome::Answered(Ok(Err(error))) => assert_eq!(error.message(), "fi_send failed: -11"),
        other => panic!("unexpected outcome {other:?}"),
    }
}

#[test]
fn a_manager_answers_with_its_address() {
    let mut world = world_with(true, false);
    world.manager("a");
    let manager = world.take("a");
    let ep = manager.endpoint.ep;
    let task = manager.handle(OfiManagerMessage::GetEndpointAddr);
    match world.finish_task("a", task) {
        Outcome::Endpoint(Ok(info)) => {
            assert_eq!(info.addr, Fabric::name_of(ep));
            assert_eq!(info.addr_len, 6);
        }
        other => panic!("unexpected outcome {other:?}"),
    }
    world.fabric.fail = Some(("getname", -22));
    let manager = world.take("a");
    assert_eq!(
        world.finish_task("a", manager.get_endpoint_addr()),
        Outcome::Endpoint(Err(OfiError::GetName { ret: -22 }))
    );
}

#[test]
fn peers_are_resolved_once() {
    let mut world = world_with(true, false);
    world.manager("a");
    world.manager("b");
    world.buffer("b", 5, &[0u8; 32]);
    world.request("b", 5).unwrap().unwrap();
    let source = world.local(&[1u8; 32]);
    for _ in 0..3 {
        assert_eq!(world.execute("a", RdmaOpType::WriteFromLocal, source, "b", 5), Ok(()));
    }
    assert_eq!(world.messages.len(), 1);
    let manager = world.take("a");
    assert_eq!(manager.cached_peer(&"b".to_string()), Some(0));
    assert_eq!(manager.cached_peer(&"a".to_string()), None);
}

#[test]
fn a_peer_whose_address_is_refused_is_not_kept() {
    let mut world = world_with(true, false);
    world.manager("a");
    world.manager("b");
    world.buffer("b", 5, &[0u8; 32]);
    world.request("b", 5).unwrap().unwrap();
    let source = world.local(&[1u8; 32]);
    world.fabric.fail = Some(("av_insert", -12));
    assert_eq!(
        world.execute("a", RdmaOpType::WriteFromLocal, source, "b", 5),
        Err(OfiError::AvInsert { ret: -12 })
    );
    assert_eq!(world.take("a").cached_peer(&"b".to_string()), None);
}

#[test]
fn a_cancelled_request_cleans_up() {
    for rma in [true, false] {
        // However far the transfer got, nothing of it is left.
        for answers in 0..12 {
            let mut world = world_with(rma, true);
            world.manager("a");
            let memory = world.buffer("a", 5, &[0u8; 32]);
            let buffer = world.request("a", 5).unwrap().unwrap();
            let before = world.fabric.outstanding();
            world.fabric.eagain = 1;
            let manager = world.take("a");
            let mut task = manager.handle_local(OfiManagerLocalMessage::ExecuteOp {
                op_type: RdmaOpType::ReadIntoLocal,
                local_addr: memory.addr,
                local_size: memory.size,
                remote_ofi_mgr: "a".to_string(),
                remote_buffer: buffer,
                remote_buf_id: 5,
                timeout_ms: 50,
            });
            for _ in 0..answers {
                if task.effect() != Effect::Finished {
                    let reply = world.perform("a", task.effect());
                    task = task.resume(reply, world.fabric.clock);
                }
            }
            let done = task.effect() == Effect::Finished;
            let outcome = world.finish_task("a", task.cancel());
            let expected =
                if done { Outcome::Executed(Ok(())) } else { Outcome::Cancelled };
            assert_eq!(outcome, expected);
            assert_eq!(world.fabric.outstanding(), before);
            assert_eq!(world.guards["a"].1.active_ops, 0);
            assert_eq!(world.request("a", 5), Ok(Some(buffer)));
        }
    }
}

#[test]
fn registrations_outlive_other_requests() {
    let mut world = world_with(true, false);
    world.manager("a");
    world.buffer("a", 5, &[0u8; 32]);
    world.buffer("a", 6, &[0u8; 32]);
    let buffer = world.request("a", 5).unwrap().unwrap();
    world.request("a", 6).unwrap().unwrap();
    let source = world.local(&[1u8; 32]);
    assert_eq!(world.execute("a", RdmaOpType::WriteFromLocal, source, "a", 6), Ok(()));
    world.release("a", 6);
    assert_eq!(world.request("a", 5), Ok(Some(buffer)));
}

#[test]
fn an_unsupported_manager_looks_at_no_configuration() {
    let config = OfiConfig { max_send_wr: usize::MAX, ..OfiConfig::default() };
    let setup = OfiManagerActor::new(Some(config), false);
    assert_eq!(setup.finish(), Some(Err(OfiError::Unsupported)));
}

#[test]
fn a_manager_is_taken_down() {
    let mut world = world_with(true, true);
    world.manager("a");
    for id in 0..5 {
        world.buffer("a", id, &[0u8; 16]);
        world.request("a", id).unwrap().unwrap();
    }
    assert_eq!(world.fabric.outstanding(), 11);
    let manager = world.take("a");
    let (ep, domain) = (manager.endpoint.ep, manager.domain);
    let teardown = manager.shutdown();
    assert_eq!(teardown.effect(), Effect::StopProgress);
    assert_eq!(teardown.left, 5);
    let mut teardown = teardown.resume(world.perform("a", Effect::StopProgress));
    for _ in 0..5 {
        let reply = world.perform("a", teardown.effect());
        teardown = teardown.resume(reply);
    }
    assert_eq!(world.fabric.outstanding(), 6);
    assert_eq!(teardown.effect(), Effect::Call(FabricCall::Close { fid: ep }));
    let reply = world.perform("a", teardown.effect());
    teardown = teardown.resume(reply);
    assert_eq!(teardown.effect(), Effect::Call(FabricCall::Close { fid: domain.cq }));
    world.drive("a", teardown);
    assert_eq!(world.fabric.outstanding(), 0);
    assert!(world.guards.is_empty());
}

// ---------------------------------------------------------------------------
// Submissions
// ---------------------------------------------------------------------------

fn submit(world: &mut World, ops: Vec<RdmaOp>, timeout: Duration) -> Result<(), OfiError> {
    let backend = OfiBackend("a".to_string());
    let submission = backend.submit(ops, timeout.as_nanos(), world.fabric.clock);
    match world.drive("client", submission).phase {
        SubmitPhase::Done(result) => result,
        phase => panic!("unfinished {phase:?}"),
    }
}

#[test]
fn submissions_run_in_order() {
    let mut world = world_with(true, false);
    world.manager("a");
    world.manager("b");
    let remote = world.buffer("b", 5, &[0u8; 16]);
    let first = world.local(&[1u8; 16]);
    let second = world.local(&[2u8; 16]);
    let back = world.local(&[0u8; 16]);
    let write = |local| RdmaOp { op_type: RdmaOpType::WriteFromLocal, local, remote: 5 };
    let read = RdmaOp { op_type: RdmaOpType::ReadIntoLocal, local: back, remote: 5 };
    let ops = vec![write(first), read, write(second)];
    assert_eq!(submit(&mut world, ops, Duration::from_secs(1)), Ok(()));
    assert_eq!(world.bytes(back), vec![1u8; 16]);
    assert_eq!(world.bytes(remote), vec![2u8; 16]);
}

#[test]
fn submissions_end_at_the_first_failure() {
    let mut world = world_with(true, false);
    world.manager("a");
    world.buffer("a", 5, &[0u8; 16]);
    let local = world.local(&[1u8; 16]);
    let op = |remote| RdmaOp { op_type: RdmaOpType::WriteFromLocal, local, remote };
    assert_eq!(
        submit(&mut world, vec![op(8), op(5)], Duration::from_secs(1)),
        Err(OfiError::NoRemoteBackend)
    );
    assert!(!world.fabric.calls.contains(&"write"));
    world.owners.insert(9, "a".to_string());
    assert_eq!(
        submit(&mut world, vec![op(9)], Duration::from_secs(1)),
        Err(OfiError::Peer("no such buffer".to_string()))
    );
    world.fabric.fail = Some(("write", -22));
    assert_eq!(
        submit(&mut world, vec![op(5), op(5)], Duration::from_secs(1)),
        Err(OfiError::Peer("fi_write failed: -22".to_string()))
    );
    assert_eq!(world.fabric.calls.iter().filter(|call| **call == "write").count(), 1);
}

#[test]
fn submissions_have_a_deadline() {
    let mut world = world_with(true, false);
    world.manager("a");
    world.buffer("a", 5, &[0u8; 16]);
    let local = world.local(&[1u8; 16]);
    let op = RdmaOp { op_type: RdmaOpType::WriteFromLocal, local, remote: 5 };
    assert_eq!(submit(&mut world, vec![], Duration::ZERO), Ok(()));
    assert_eq!(submit(&mut world, vec![op], Duration::ZERO), Err(OfiError::SubmitTimeout));
    assert_eq!(
        submit(&mut world, vec![op; 100], Duration::from_micros(100)),
        Err(OfiError::SubmitTimeout)
    );
}

#[test]
fn a_transfer_gets_the_time_that_is_left() {
    let backend = OfiBackend("a".to_string());
    let local = LocalMemory { addr: 1, size: 2 };
    let op = RdmaOp { op_type: RdmaOpType::ReadIntoLocal, local, remote: 5 };
    let submission = backend.submit(vec![op, op], 10_500_000, 1_000);
    assert_eq!(submission.effect(), Effect::ResolveRemote { remote_buf_id: 5 });
    let buffer = OfiBuffer { rkey: 3, addr: 4, size: 2 };
    let reply = Reply::Remote(Some(Ok(("b".to_string(), buffer))));
    let submission = submission.resume(reply, 2_000);
    assert_eq!(
        submission.effect(),
        Effect::AskLocal {
            manager: &"a".to_string(),
            message: OfiManagerLocalMessage::ExecuteOp {
                op_type: RdmaOpType::ReadIntoLocal,
                local_addr: 1,
                local_size: 2,
                remote_ofi_mgr: "b".to_string(),
                remote_buffer: buffer,
                remote_buf_id: 5,
                timeout_ms: 10,
            },
        }
    );
    let submission = submission.resume(Reply::Answer(Ok(Ok(()))), 9_000_000);
    assert_eq!(submission.phase, SubmitPhase::Resolve { remaining_ms: 1 });
}

#[test]
fn a_backend_is_a_network_card() {
    let backend = OfiBackend("a".to_string());
    assert_eq!(backend.transport_level(), RdmaTransportLevel::Nic);
    assert_eq!(backend.transport_info(), None);
    assert_eq!(backend.handle(), "a");
    assert_eq!(backend.clone(), backend);
}

#[test]
fn the_manager_of_the_process_is_found() {
    let mut world = world_with(true, false);
    assert_eq!(
        world.drive("client", OfiManagerActor::local_handle()),
        LocalHandle::Done(Err(OfiError::NoLocalBackend))
    );
    world.manager("a");
    assert_eq!(
        world.drive("client", OfiManagerActor::local_handle()),
        LocalHandle::Done(Ok(OfiBackend("a".to_string())))
    );
    let elsewhere = OfiManagerActor::local_handle()
        .resume(Reply::Manager(Ok(Some("z".to_string()))))
        .resume(Reply::Local(false));
    assert_eq!(elsewhere, LocalHandle::Done(Err(OfiError::NotLocal)));
    let failed = OfiManagerActor::local_handle().resume(Reply::Manager(Err("down".to_string())));
    assert_eq!(failed, LocalHandle::Done(Err(OfiError::Peer("down".to_string()))));
}
