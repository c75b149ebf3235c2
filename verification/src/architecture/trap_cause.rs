//! Classification of the cause of a trap into the security monitor.

use vstd::prelude::*;
use crate::architecture::{is_bit_enabled, is_bit_set};
use crate::architecture::sbi::SbiExtension;
use crate::architecture::specification::{
    CAUSE_FETCH_GUEST_PAGE_FAULT,
    CAUSE_FETCH_PAGE_FAULT,
    CAUSE_HYPERVISOR_ECALL,
    CAUSE_ILLEGAL_INSTRUCTION,
    CAUSE_INTERRUPT_BIT,
    CAUSE_LOAD_ACCESS_FAULT,
    CAUSE_LOAD_ADDRESS_MISALIGNED,
    CAUSE_LOAD_GUEST_PAGE_FAULT,
    CAUSE_LOAD_PAGE_FAULT,
    CAUSE_MACHINE_ECALL,
    CAUSE_STORE_ACCESS_FAULT,
    CAUSE_STORE_ADDRESS_MISALIGNED,
    CAUSE_STORE_GUEST_PAGE_FAULT,
    CAUSE_STORE_PAGE_FAULT,
    CAUSE_VIRTUAL_INSTRUCTION,
    CAUSE_VIRTUAL_SUPERVISOR_ECALL,
    SBI_EXTENSION_ACE,
};

verus! {

/// Why a hart trapped into the security monitor.
#[derive(Clone, Copy, Debug, PartialEq, Eq, Structural)]
pub enum TrapCause {
    /// A timer, software or external interrupt.
    Interrupt,
    IllegalInstruction,
    LoadAddressMisaligned,
    LoadAccessFault,
    StoreAddressMisaligned,
    StoreAccessFault,
    /// Environment call of the hypervisor, from HS-mode.
    HsEcall(SbiExtension),
    /// Environment call of a guest, from VS-mode.
    VsEcall(SbiExtension),
    MachineEcall,
    FetchPageFault,
    LoadPageFault,
    StorePageFault,
    GuestInstructionPageFault,
    GuestLoadPageFault,
    VirtualInstruction,
    GuestStorePageFault,
    Unknown,
}

impl TrapCause {
    /// The category of a trap, given the value of the cause register and the
    /// two registers that carry the extension and function identifiers of an
    /// environment call. The interrupt bit of the cause decides first; the
    /// identifiers matter to environment calls only.
    pub open spec fn classify(cause: u64, extension_id: u64, function_id: u64) -> TrapCause {
        if is_bit_set(cause, CAUSE_INTERRUPT_BIT) {
            TrapCause::Interrupt
        } else if cause == CAUSE_ILLEGAL_INSTRUCTION {
            TrapCause::IllegalInstruction
        } else if cause == CAUSE_LOAD_ADDRESS_MISALIGNED {
            TrapCause::LoadAddressMisaligned
        } else if cause == CAUSE_LOAD_ACCESS_FAULT {
            TrapCause::LoadAccessFault
        } else if cause == CAUSE_STORE_ADDRESS_MISALIGNED {
            TrapCause::StoreAddressMisaligned
        } else if cause == CAUSE_STORE_ACCESS_FAULT {
            TrapCause::StoreAccessFault
        } else if cause == CAUSE_HYPERVISOR_ECALL {
            TrapCause::HsEcall(SbiExtension::decode_spec(extension_id, function_id))
        } else if cause == CAUSE_VIRTUAL_SUPERVISOR_ECALL {
            TrapCause::VsEcall(SbiExtension::decode_spec(extension_id, function_id))
        } else if cause == CAUSE_MACHINE_ECALL {
            TrapCause::MachineEcall
        } else if cause == CAUSE_FETCH_PAGE_FAULT {
            TrapCause::FetchPageFault
        } else if cause == CAUSE_LOAD_PAGE_FAULT {
            TrapCause::LoadPageFault
        } else if cause == CAUSE_STORE_PAGE_FAULT {
            TrapCause::StorePageFault
        } else if cause == CAUSE_FETCH_GUEST_PAGE_FAULT {
            TrapCause::GuestInstructionPageFault
        } else if cause == CAUSE_LOAD_GUEST_PAGE_FAULT {
            TrapCause::GuestLoadPageFault
        } else if cause == CAUSE_VIRTUAL_INSTRUCTION {
            TrapCause::VirtualInstruction
        } else if cause == CAUSE_STORE_GUEST_PAGE_FAULT {
            TrapCause::GuestStorePageFault
        } else {
            TrapCause::Unknown
        }
    }

    /// Whether the trap is a call of the hypervisor to the security monitor
    /// extension.
    pub open spec fn is_security_monitor_call(self) -> bool {
        self matches TrapCause::HsEcall(SbiExtension::Ace(_))
    }

    /// A trap is classified as a call of the hypervisor to the security
    /// monitor exactly when the cause is an environment call from HS-mode and
    /// the extension identifier is that of the security monitor extension.
    pub proof fn lemma_security_monitor_call(cause: u64, extension_id: u64, function_id: u64)
        ensures
            Self::classify(cause, extension_id, function_id).is_security_monitor_call() <==> (cause
                == CAUSE_HYPERVISOR_ECALL && extension_id == SBI_EXTENSION_ACE),
    {
        assert(!is_bit_set(CAUSE_HYPERVISOR_ECALL, CAUSE_INTERRUPT_BIT)) by (bit_vector);
    }

    pub fn from(cause: u64, extension_id: u64, function_id: u64) -> (trap_cause: TrapCause)
        ensures
            trap_cause == Self::classify(cause, extension_id, function_id),
    {
        if is_bit_enabled(cause, CAUSE_INTERRUPT_BIT) {
            TrapCause::Interrupt
        } else if cause == CAUSE_ILLEGAL_INSTRUCTION {
            TrapCause::IllegalInstruction
        } else if cause == CAUSE_LOAD_ADDRESS_MISALIGNED {
            TrapCause::LoadAddressMisaligned
        } else if cause == CAUSE_LOAD_ACCESS_FAULT {
            TrapCause::LoadAccessFault
        } else if cause == CAUSE_STORE_ADDRESS_MISALIGNED {
            TrapCause::StoreAddressMisaligned
        } else if cause == CAUSE_STORE_ACCESS_FAULT {
            TrapCause::StoreAccessFault
        } else if cause == CAUSE_HYPERVISOR_ECALL {
            TrapCause::HsEcall(SbiExtension::decode(extension_id, function_id))
        } else if cause == CAUSE_VIRTUAL_SUPERVISOR_ECALL {
            TrapCause::VsEcall(SbiExtension::decode(extension_id, function_id))
        } else if cause == CAUSE_MACHINE_ECALL {
            TrapCause::MachineEcall
        } else if cause == CAUSE_FETCH_PAGE_FAULT {
            TrapCause::FetchPageFault
        } else if cause == CAUSE_LOAD_PAGE_FAULT {
            TrapCause::LoadPageFault
        } else if cause == CAUSE_STORE_PAGE_FAULT {
            TrapCause::StorePageFault
        } else if cause == CAUSE_FETCH_GUEST_PAGE_FAULT {
            TrapCause::GuestInstructionPageFault
        } else if cause == CAUSE_LOAD_GUEST_PAGE_FAULT {
            TrapCause::GuestLoadPageFault
        } else if cause == CAUSE_VIRTUAL_INSTRUCTION {
            TrapCause::VirtualInstruction
        } else if cause == CAUSE_STORE_GUEST_PAGE_FAULT {
            TrapCause::GuestStorePageFault
        } else {
            TrapCause::Unknown
        }
    }
}

} // verus!
