//! Bit positions, masks and cause codes of the RISC-V privileged architecture
//! that the trap forwarding engine uses.

use vstd::prelude::*;

verus! {

/// Length in bytes of the `ecall` instruction.
pub const ECALL_INSTRUCTION_LENGTH: u64 = 4;

/// `mstatus.SIE`: supervisor interrupts are enabled.
pub const CSR_MSTATUS_SIE: u64 = 1;

/// `mstatus.MPIE`: machine interrupts were enabled before the trap.
pub const CSR_MSTATUS_MPIE: u64 = 7;

/// `mstatus.SPP`: the trap into supervisor mode came from supervisor mode.
pub const CSR_MSTATUS_SPP: u64 = 8;

/// Low bit of `mstatus.MPP`. Set, with the high bit clear, it makes `mret`
/// return to supervisor mode.
pub const CSR_MSTATUS_MPP: u64 = 11;

/// High bit of `mstatus.MPP`.
pub const CSR_MSTATUS_MPP_HIGH: u64 = 12;

/// `mstatus.MPV`: the trap into machine mode came from a virtualized mode.
pub const CSR_MSTATUS_MPV: u64 = 39;

/// `sstatus.SPP`: the trap into supervisor mode came from supervisor mode.
pub const CSR_SSTATUS_SPP: u64 = 8;

/// `hstatus.GVA`: the trap value register holds a guest virtual address.
pub const CSR_HSTATUS_GVA: u64 = 6;

/// `hstatus.SPV`: the trap into HS-mode came from a virtualized mode.
pub const CSR_HSTATUS_SPV: u64 = 7;

/// `hstatus.SPVP`: the privilege of the virtualized mode before the trap was
/// supervisor.
pub const CSR_HSTATUS_SPVP: u64 = 8;

/// Mask of the `stvec.MODE` value that selects vectored trap delivery.
pub const STVEC_MODE_VECTORED: u64 = 1;

/// Position of the bit of a cause register that marks an interrupt.
pub const CAUSE_INTERRUPT_BIT: u64 = 63;

/// Mask of the bit of `scause` that marks an interrupt.
pub const SCAUSE_INTERRUPT_MASK: u64 = 0x8000_0000_0000_0000;

pub const CAUSE_ILLEGAL_INSTRUCTION: u64 = 2;

pub const CAUSE_LOAD_ADDRESS_MISALIGNED: u64 = 4;

pub const CAUSE_LOAD_ACCESS_FAULT: u64 = 5;

pub const CAUSE_STORE_ADDRESS_MISALIGNED: u64 = 6;

pub const CAUSE_STORE_ACCESS_FAULT: u64 = 7;

/// Environment call from HS-mode: the hypervisor calls the security monitor.
pub const CAUSE_HYPERVISOR_ECALL: u64 = 9;

/// Environment call from VS-mode: a guest calls its hypervisor.
pub const CAUSE_VIRTUAL_SUPERVISOR_ECALL: u64 = 10;

pub const CAUSE_MACHINE_ECALL: u64 = 11;

pub const CAUSE_FETCH_PAGE_FAULT: u64 = 12;

pub const CAUSE_LOAD_PAGE_FAULT: u64 = 13;

pub const CAUSE_STORE_PAGE_FAULT: u64 = 15;

pub const CAUSE_FETCH_GUEST_PAGE_FAULT: u64 = 20;

pub const CAUSE_LOAD_GUEST_PAGE_FAULT: u64 = 21;

pub const CAUSE_VIRTUAL_INSTRUCTION: u64 = 22;

pub const CAUSE_STORE_GUEST_PAGE_FAULT: u64 = 23;

/// Identifier of the SBI base extension.
pub const SBI_EXTENSION_BASE: u64 = 0x10;

/// Identifier of the SBI extension for inter-processor interrupts.
pub const SBI_EXTENSION_IPI: u64 = 0x735049;

/// Identifier of the SBI extension for remote fences.
pub const SBI_EXTENSION_RFENCE: u64 = 0x52464E43;

/// Identifier of the SBI extension for hart state management.
pub const SBI_EXTENSION_HSM: u64 = 0x48534D;

/// Identifier of the SBI extension for system reset.
pub const SBI_EXTENSION_SRST: u64 = 0x53525354;

/// Identifier of the SBI extension through which the hypervisor and
/// confidential virtual machines call the security monitor.
pub const SBI_EXTENSION_ACE: u64 = 0x510000;

/// Function of the security monitor extension: turn the calling virtual
/// machine into a confidential one.
pub const ACE_FUNCTION_PROMOTE_TO_CONFIDENTIAL_VM: u64 = 1000;

/// Function of the security monitor extension: resume a confidential hart.
pub const ACE_FUNCTION_RESUME_CONFIDENTIAL_HART: u64 = 1010;

/// Function of the security monitor extension: share a page with the
/// hypervisor.
pub const ACE_FUNCTION_SHARE_PAGE_WITH_HYPERVISOR: u64 = 2000;

/// Function of the security monitor extension: stop sharing a page with the
/// hypervisor.
pub const ACE_FUNCTION_STOP_SHARING_PAGE_WITH_HYPERVISOR: u64 = 2001;

/// Function of the security monitor extension: terminate a confidential
/// virtual machine.
pub const ACE_FUNCTION_TERMINATE_CONFIDENTIAL_VM: u64 = 3001;

} // verus!
