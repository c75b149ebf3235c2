//! Information that crosses the boundary between a confidential virtual
//! machine, the security monitor and the hypervisor: requests and results
//! that are exposed to the hypervisor, and requests and results that are read
//! from the state that the hypervisor left.

use vstd::prelude::*;
use crate::architecture::general_purpose_registers::GeneralPurposeRegister;
use crate::transformations::interrupts::{EnabledInterrupts, InterruptRequest};
use crate::transformations::mmio::{MmioLoadRequest, MmioStoreRequest};
use crate::transformations::opensbi::OpensbiResult;
use crate::transformations::sbi_request::{SbiRequest, SbiVmRequest};
use crate::transformations::sbi_result::SbiResult;

pub mod confidential_vm_requests;
pub mod guest_load_page_fault;
pub mod interrupts;
pub mod mmio;
pub mod opensbi;
pub mod promote_to_confidential_vm;
pub mod sbi_request;
pub mod sbi_result;
pub mod share_page_request;
pub mod share_page_result;

verus! {

/// One unit of information that is applied to the state of a hart before the
/// hypervisor resumes on it.
#[derive(Clone, Copy, Debug, PartialEq, Eq)]
pub enum ExposeToHypervisor {
    /// A call of a guest to its hypervisor.
    SbiRequest(SbiRequest),
    /// A call to the hypervisor that the security monitor makes for a
    /// confidential virtual machine.
    SbiVmRequest(SbiVmRequest),
    /// The result of a call of the hypervisor to the security monitor.
    SbiResult(SbiResult),
    /// The result of a call that the firmware handled.
    OpensbiResult(OpensbiResult),
    /// A load of a guest from a device that the hypervisor emulates.
    MmioLoadRequest(MmioLoadRequest),
    /// A store of a guest to a device that the hypervisor emulates.
    MmioStoreRequest(MmioStoreRequest),
    /// An interrupt that the hypervisor must handle.
    InterruptRequest(InterruptRequest),
    /// The interrupts that a guest enabled.
    EnabledInterrupts(EnabledInterrupts),
}

impl ExposeToHypervisor {
    /// Whether the transformation reaches the hypervisor as a trap into its
    /// trap handler.
    pub open spec fn forwards_trap(self) -> bool {
        self is SbiRequest || self is SbiVmRequest || self is MmioLoadRequest
            || self is MmioStoreRequest || self is InterruptRequest
    }

    /// Whether the trap that the transformation forwards carries a guest
    /// virtual address in the trap value register.
    pub open spec fn carries_guest_virtual_address(self) -> bool {
        self is MmioLoadRequest || self is MmioStoreRequest
    }

    /// Whether the transformation writes the given general purpose register:
    /// a call writes `a0` to `a7`, a result `a0` and `a1`, a store to a device
    /// the register that the store instruction reads.
    pub open spec fn writes_gpr(self, register: GeneralPurposeRegister) -> bool {
        match self {
            ExposeToHypervisor::SbiRequest(_) => 10 <= register.number() <= 17,
            ExposeToHypervisor::SbiVmRequest(_) => 10 <= register.number() <= 17,
            ExposeToHypervisor::SbiResult(_) => 10 <= register.number() <= 11,
            ExposeToHypervisor::OpensbiResult(_) => 10 <= register.number() <= 11,
            ExposeToHypervisor::MmioStoreRequest(request) => request.gpr == register,
            _ => false,
        }
    }
}

} // verus!
