//! Registration of local memory, on the host or on a device.

use crate::domain::OfiDomain;
use crate::effect::{
    object, Effect, FabricCall, HmemIface, Registration, Reply, Resource, CUDA_SUCCESS,
};
use crate::endpoint::{full_access, region_result, registered_mr, OfiEndpoint, OfiMr};
use crate::error::OfiError;
use crate::machine::Machine;
use vstd::multiset::Multiset;
use vstd::prelude::*;

verus! {

/// Registers a stretch of local memory.
///
/// On a domain with device memory support every registration goes through
/// `fi_mr_regattr`, that of host memory too; on others, through `fi_mr_reg`.
#[derive(Debug, PartialEq, Eq)]
pub struct RegisterLocal {
    pub domain: OfiDomain,
    pub endpoint: OfiEndpoint,
    pub addr: usize,
    pub size: usize,
    pub key: u64,
    pub phase: RegisterPhase,
}

/// What a registration waits for.
#[derive(Debug, PartialEq, Eq)]
pub enum RegisterPhase {
    /// To know whether the memory is on a device.
    Classify,
    /// The device.
    Ordinal,
    /// The region.
    Register { hmem: Option<(HmemIface, i32)> },
    /// Nothing.
    Done(Result<OfiMr, OfiError>),
}

/// The device that owns an address, from what the CUDA driver said of it.
pub open spec fn ordinal_result(addr: usize, err: u32, ordinal: i32) -> Result<i32, OfiError> {
    if err != CUDA_SUCCESS || ordinal < 0 {
        Err(OfiError::DeviceOrdinal { addr, err })
    } else {
        Ok(ordinal)
    }
}

/// Returns the device that owns an address, from the driver's code and the
/// ordinal that it stored.
pub fn cuda_device_ordinal(addr: usize, err: u32, ordinal: i32) -> (device: Result<i32, OfiError>)
    ensures
        device == ordinal_result(addr, err, ordinal),
{
    if err != CUDA_SUCCESS || ordinal < 0 {
        Err(OfiError::DeviceOrdinal { addr, err })
    } else {
        Ok(ordinal)
    }
}

impl RegisterLocal {
    /// A registration that has not begun.
    pub open spec fn starting(
        domain: OfiDomain,
        endpoint: OfiEndpoint,
        addr: usize,
        size: usize,
        key: u64,
    ) -> Self {
        RegisterLocal {
            domain,
            endpoint,
            addr,
            size,
            key,
            phase: if domain.hmem_supported {
                RegisterPhase::Classify
            } else {
                RegisterPhase::Register { hmem: None }
            },
        }
    }

    /// The registration call.
    pub open spec fn call(self, hmem: Option<(HmemIface, i32)>) -> Registration {
        Registration {
            domain: self.domain.domain,
            addr: self.addr,
            size: self.size,
            access: full_access(),
            key: self.key,
            hmem,
        }
    }

    /// Begins to register memory under the given key.
    pub fn start(
        domain: &OfiDomain,
        endpoint: &OfiEndpoint,
        addr: usize,
        size: usize,
        key: u64,
    ) -> (registration: Self)
        ensures
            registration == Self::starting(*domain, *endpoint, addr, size, key),
            registration.wf(),
    {
        RegisterLocal {
            domain: *domain,
            endpoint: *endpoint,
            addr,
            size,
            key,
            phase: if domain.hmem_supported {
                RegisterPhase::Classify
            } else {
                RegisterPhase::Register { hmem: None }
            },
        }
    }

    /// Returns the effect that the registration waits for.
    pub fn effect(&self) -> (effect: Effect<'_>)
        ensures
            effect == self.pending(),
    {
        match self.phase {
            RegisterPhase::Classify => Effect::IsDevicePointer { addr: self.addr },
            RegisterPhase::Ordinal => Effect::DeviceOrdinal { addr: self.addr },
            RegisterPhase::Register { hmem } => Effect::Call(
                FabricCall::Register(
                    match hmem {
                        Some((iface, device)) => self.endpoint.register_mr_hmem(
                            &self.domain,
                            self.addr,
                            self.size,
                            self.key,
                            iface,
                            device,
                        ),
                        None => self.endpoint.register_mr(
                            &self.domain,
                            self.addr,
                            self.size,
                            self.key,
                        ),
                    },
                ),
            ),
            RegisterPhase::Done(_) => Effect::Finished,
        }
    }

    /// Takes the answer to the pending effect.
    pub fn resume(self, reply: Reply) -> (next: Self)
        ensures
            forall|now: u64| next == #[trigger] self.after(reply, now),
    {
        let phase = match (self.phase, reply) {
            (RegisterPhase::Classify, Reply::DevicePointer(device)) => {
                if device {
                    RegisterPhase::Ordinal
                } else {
                    RegisterPhase::Register { hmem: Some((HmemIface::System, 0)) }
                }
            },
            (RegisterPhase::Ordinal, Reply::Ordinal { err, ordinal }) => {
                match cuda_device_ordinal(self.addr, err, ordinal) {
                    Ok(device) => RegisterPhase::Register {
                        hmem: Some((HmemIface::Cuda, device)),
                    },
                    Err(error) => RegisterPhase::Done(Err(error)),
                }
            },
            (RegisterPhase::Register { hmem }, Reply::Region(region)) => {
                RegisterPhase::Done(registered_mr(hmem.is_some(), region))
            },
            (phase, _) => phase,
        };
        RegisterLocal {
            domain: self.domain,
            endpoint: self.endpoint,
            addr: self.addr,
            size: self.size,
            key: self.key,
            phase,
        }
    }
}

impl Machine for RegisterLocal {
    open spec fn pending(&self) -> Effect<'_> {
        match self.phase {
            RegisterPhase::Classify => Effect::IsDevicePointer { addr: self.addr },
            RegisterPhase::Ordinal => Effect::DeviceOrdinal { addr: self.addr },
            RegisterPhase::Register { hmem } => Effect::Call(
                FabricCall::Register(self.call(hmem)),
            ),
            RegisterPhase::Done(_) => Effect::Finished,
        }
    }

    /// Host memory is registered as such; device memory under its device.
    open spec fn after(self, reply: Reply, now: u64) -> Self {
        let phase = match (self.phase, reply) {
            (RegisterPhase::Classify, Reply::DevicePointer(device)) => {
                if device {
                    RegisterPhase::Ordinal
                } else {
                    RegisterPhase::Register { hmem: Some((HmemIface::System, 0)) }
                }
            },
            (RegisterPhase::Ordinal, Reply::Ordinal { err, ordinal }) => {
                match ordinal_result(self.addr, err, ordinal) {
                    Ok(device) => RegisterPhase::Register {
                        hmem: Some((HmemIface::Cuda, device)),
                    },
                    Err(error) => RegisterPhase::Done(Err(error)),
                }
            },
            (RegisterPhase::Register { hmem }, Reply::Region(region)) => {
                RegisterPhase::Done(region_result(hmem is Some, region))
            },
            (phase, _) => phase,
        };
        RegisterLocal { phase, ..self }
    }

    open spec fn wf(self) -> bool {
        match self.phase {
            RegisterPhase::Classify => self.domain.hmem_supported,
            RegisterPhase::Ordinal => self.domain.hmem_supported,
            RegisterPhase::Register { hmem } => hmem is Some <==> self.domain.hmem_supported,
            RegisterPhase::Done(Ok(mr)) => mr.mr != 0,
            RegisterPhase::Done(Err(_)) => true,
        }
    }

    open spec fn held(self) -> Multiset<Resource> {
        match self.phase {
            RegisterPhase::Done(Ok(mr)) => object(mr.mr),
            _ => Multiset::empty(),
        }
    }

    open spec fn paused(self) -> int {
        0
    }

    proof fn step(self, reply: Reply, now: u64) {
        broadcast use vstd::multiset::group_multiset_axioms;

    }
}

} // verus!
