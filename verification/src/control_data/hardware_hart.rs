//! The physical hart: it owns the saved state of the hypervisor, classifies
//! the traps that the hart takes, and rewrites registers so that what the
//! security monitor forwards reaches the hypervisor as a trap of its guest.

use vstd::prelude::*;
use crate::architecture::{are_bits_enabled, disable_bit, enable_bit, is_bit_set};
use crate::architecture::control_status_registers::{
    ControlStatusRegisters,
    ControlStatusRegistersView,
};
use crate::architecture::general_purpose_registers::{
    GeneralPurposeRegister,
    GeneralPurposeRegisters,
};
use crate::architecture::hart_architectural_state::HartArchitecturalState;
use crate::architecture::sbi::SbiExtension;
use crate::architecture::specification::{
    CAUSE_VIRTUAL_SUPERVISOR_ECALL,
    CSR_HSTATUS_GVA,
    CSR_HSTATUS_SPV,
    CSR_HSTATUS_SPVP,
    CSR_MSTATUS_MPIE,
    CSR_MSTATUS_MPP,
    CSR_MSTATUS_MPV,
    CSR_MSTATUS_SIE,
    CSR_MSTATUS_SPP,
    CSR_SSTATUS_SPP,
    ECALL_INSTRUCTION_LENGTH,
    SCAUSE_INTERRUPT_MASK,
    STVEC_MODE_VECTORED,
};
use crate::architecture::trap_cause::TrapCause;
use crate::control_data::confidential_hart::{ConfidentialHart, ConfidentialHartView};
use crate::control_data::hardware_hart_view::{
    HardwareHartView,
    hstatus_after_trap,
    mstatus_after_trap,
};
use crate::memory_protector::HypervisorMemoryProtector;
use crate::page_allocator::{Allocated, Page, UnAllocated};
use crate::transformations::ExposeToHypervisor;
use crate::transformations::confidential_vm_requests::{ResumeRequest, TerminateRequest};
use crate::transformations::guest_load_page_fault::{
    GuestLoadPageFaultRequest,
    GuestLoadPageFaultResult,
};
use crate::transformations::interrupts::{EnabledInterrupts, InjectedInterrupts, InterruptRequest};
use crate::transformations::mmio::{MmioLoadRequest, MmioStoreRequest};
use crate::transformations::opensbi::{OpensbiRequest, OpensbiResult, TrapRegisters};
use crate::transformations::promote_to_confidential_vm::PromoteToConfidentialVm;
use crate::transformations::sbi_request::{SbiRequest, SbiVmRequest};
use crate::transformations::sbi_result::SbiResult;
use crate::transformations::share_page_result::SharePageResult;

verus! {

/// One physical hart.
#[derive(Debug)]
pub struct HardwareHart {
    // The registers of the hypervisor as they were saved in main memory.
    non_confidential_hart_state: HartArchitecturalState,
    // The control and status registers of the hart.
    control_status_registers: ControlStatusRegisters,
    // Capability to open the memory of the hypervisor, and nothing else, to
    // the hart.
    hypervisor_memory_protector: HypervisorMemoryProtector,
    // The page that holds the stack of the code that runs on this hart.
    stack: Page<Allocated>,
    // The end of the stack page, kept so that the context switch can read it.
    stack_address: usize,
    // The firmware keeps its own data behind `mscratch`, and so does the
    // security monitor: this is the value that the firmware expects.
    previous_mscratch: u64,
    // The virtual hart that is bound to this hart: a placeholder, or the hart
    // of a confidential virtual machine that runs here.
    confidential_hart: ConfidentialHart,
}

impl View for HardwareHart {
    type V = HardwareHartView;

    closed spec fn view(&self) -> HardwareHartView {
        HardwareHartView {
            hart_state: self.non_confidential_hart_state,
            csr: self.control_status_registers@,
            hypervisor_memory_protector: self.hypervisor_memory_protector,
            stack: self.stack@,
            stack_address: self.stack_address,
            previous_mscratch: self.previous_mscratch,
            confidential_hart: self.confidential_hart@,
        }
    }
}

impl HardwareHart {
    /// The hart `id` at boot: registers zeroed, the stack page cleared and
    /// its end kept as the stack address, a placeholder bound as virtual
    /// hart.
    pub fn init(
        id: usize,
        stack: Page<UnAllocated>,
        hypervisor_memory_protector: HypervisorMemoryProtector,
    ) -> (hart: Self)
        ensures
            hart@ == (HardwareHartView {
                hart_state: HartArchitecturalState::zeroed(id),
                csr: ControlStatusRegistersView::zeroed(),
                hypervisor_memory_protector,
                stack: stack@.zeroized(),
                stack_address: stack@.end_address() as usize,
                previous_mscratch: 0,
                confidential_hart: ConfidentialHartView::dummy(id),
            }),
            hart@.keeps_end_of_stack(),
    {
        let stack_address = stack.end_address();
        HardwareHart {
            non_confidential_hart_state: HartArchitecturalState::empty(id),
            control_status_registers: ControlStatusRegisters::empty(),
            hypervisor_memory_protector,
            stack_address,
            stack: stack.zeroize(),
            previous_mscratch: 0,
            confidential_hart: ConfidentialHart::dummy(id),
        }
    }

    pub fn non_confidential_hart_state(&self) -> (hart_state: &HartArchitecturalState)
        ensures
            *hart_state == self@.hart_state,
    {
        &self.non_confidential_hart_state
    }

    /// Access to the saved state for the context switch, which fills it when
    /// the hart traps.
    pub fn non_confidential_hart_state_mut(&mut self) -> (hart_state: &mut HartArchitecturalState)
        ensures
            *hart_state == old(self)@.hart_state,
            final(self)@ == (HardwareHartView { hart_state: *final(hart_state), ..old(self)@ }),
    {
        &mut self.non_confidential_hart_state
    }

    pub fn control_status_registers(&self) -> (csr: &ControlStatusRegisters)
        ensures
            csr@ == self@.csr,
    {
        &self.control_status_registers
    }

    /// Access to the bank of registers for the code that copies it from and
    /// to the hardware.
    pub fn control_status_registers_mut(&mut self) -> (csr: &mut ControlStatusRegisters)
        ensures
            csr@ == old(self)@.csr,
            final(self)@ == (HardwareHartView { csr: final(csr)@, ..old(self)@ }),
    {
        &mut self.control_status_registers
    }

    pub fn hypervisor_memory_protector(&self) -> (protector: &HypervisorMemoryProtector)
        ensures
            *protector == self@.hypervisor_memory_protector,
    {
        &self.hypervisor_memory_protector
    }

    pub fn stack(&self) -> (stack: &Page<Allocated>)
        ensures
            stack@ == self@.stack,
    {
        &self.stack
    }

    pub fn stack_address(&self) -> (address: usize)
        ensures
            address == self@.stack_address,
    {
        self.stack_address
    }

    /// The firmware expects in `mscratch` the value that the security monitor
    /// replaced at boot. Exchanges `mscratch` with the value kept for the
    /// other of the two.
    pub fn swap_mscratch(&mut self)
        ensures
            final(self)@ == old(self)@.with_swapped_mscratch(),
    {
        let current_mscratch = self.control_status_registers.mscratch.read();
        self.control_status_registers.mscratch.set(self.previous_mscratch);
        self.previous_mscratch = current_mscratch;
    }

    pub fn confidential_hart(&self) -> (hart: &ConfidentialHart)
        ensures
            hart@ == self@.confidential_hart,
    {
        &self.confidential_hart
    }

    pub fn confidential_hart_mut(&mut self) -> (hart: &mut ConfidentialHart)
        ensures
            hart@ == old(self)@.confidential_hart,
            final(self)@ == (HardwareHartView { confidential_hart: final(hart)@, ..old(self)@ }),
    {
        &mut self.confidential_hart
    }

    /// Saves the control and status registers of the hart in main memory and
    /// tells which interrupts the hypervisor wants to inject.
    pub fn store_control_status_registers_in_main_memory(&mut self) -> (interrupts:
        InjectedInterrupts)
        ensures
            final(self)@ == (HardwareHartView {
                hart_state: old(self)@.hart_state.saved_from(old(self)@.csr),
                ..old(self)@
            }),
            interrupts.hvip == old(self)@.csr.hvip,
    {
        self.non_confidential_hart_state.store_control_status_registers_in_main_memory(
            &self.control_status_registers,
        );
        self.interrupts_to_inject()
    }

    /// Saves the two registers that the security monitor may have to change
    /// before the hypervisor resumes.
    pub fn store_volatile_control_status_registers_in_main_memory(&mut self)
        ensures
            final(self)@ == (HardwareHartView {
                hart_state: HartArchitecturalState {
                    mepc: old(self)@.csr.mepc,
                    mstatus: old(self)@.csr.mstatus,
                    ..old(self)@.hart_state
                },
                ..old(self)@
            }),
    {
        self.non_confidential_hart_state.mepc = self.control_status_registers.mepc.read();
        self.non_confidential_hart_state.mstatus = self.control_status_registers.mstatus.read();
    }

    /// Writes the saved control and status registers back to the hart and
    /// lets the hypervisor see the interrupts that its guest enabled.
    pub fn load_control_status_registers_from_main_memory(
        &mut self,
        enabled_interrupts: EnabledInterrupts,
    )
        ensures
            final(self)@ == (HardwareHartView {
                csr: old(self)@.hart_state.restored_to(old(self)@.csr),
                ..old(self)@
            }).with_enabled_interrupts(enabled_interrupts),
    {
        self.non_confidential_hart_state.load_control_status_registers_from_main_memory(
            &mut self.control_status_registers,
        );
        self.apply(&ExposeToHypervisor::EnabledInterrupts(enabled_interrupts));
    }

    /// Writes back the two registers that the security monitor may have
    /// changed. To be called last before the hypervisor resumes, when both
    /// have their final values.
    pub fn load_volatile_control_status_registers_from_main_memory(&mut self)
        ensures
            final(self)@ == (HardwareHartView {
                csr: ControlStatusRegistersView {
                    mepc: old(self)@.hart_state.mepc,
                    mstatus: old(self)@.hart_state.mstatus,
                    ..old(self)@.csr
                },
                ..old(self)@
            }),
    {
        self.control_status_registers.mepc.set(self.non_confidential_hart_state.mepc);
        self.control_status_registers.mstatus.set(self.non_confidential_hart_state.mstatus);
    }
}

impl HardwareHart {
    /// Whether `apply` can take the transformation on this hart.
    pub fn accepts(&self, transformation: &ExposeToHypervisor) -> (accepted: bool)
        ensures
            accepted == self@.accepts(*transformation),
    {
        match transformation {
            ExposeToHypervisor::SbiResult(result) => result.pc_offset() <= u64::MAX
                - self.non_confidential_hart_state.mepc,
            ExposeToHypervisor::OpensbiResult(_) => true,
            ExposeToHypervisor::EnabledInterrupts(_) => true,
            _ => !are_bits_enabled(self.control_status_registers.stvec.read(), STVEC_MODE_VECTORED),
        }
    }

    /// Applies a transformation to the hart: writes the registers that the
    /// transformation names, and emulates a trap where the transformation
    /// must reach the trap handler of the hypervisor. Everything else stays.
    pub fn apply(&mut self, transformation: &ExposeToHypervisor)
        requires
            old(self)@.accepts(*transformation),
        ensures
            final(self)@ == old(self)@.exposing(*transformation),
            transformation.forwards_trap() ==> final(self)@.has_forwarded_trap_status()
                && is_bit_set(final(self)@.csr.hstatus, CSR_HSTATUS_GVA)
                == transformation.carries_guest_virtual_address(),
    {
        proof {
            if transformation.forwards_trap() {
                old(self)@.lemma_forwarded_trap_status(*transformation);
            }
        }
        match transformation {
            ExposeToHypervisor::SbiRequest(v) => self.apply_sbi_request(v),
            ExposeToHypervisor::SbiVmRequest(v) => self.apply_sbi_vm_request(v),
            ExposeToHypervisor::SbiResult(v) => self.apply_sbi_result(v),
            ExposeToHypervisor::OpensbiResult(v) => self.apply_opensbi_result(v),
            ExposeToHypervisor::MmioLoadRequest(v) => self.apply_mmio_load_request(v),
            ExposeToHypervisor::MmioStoreRequest(v) => self.apply_mmio_store_request(v),
            ExposeToHypervisor::InterruptRequest(v) => self.apply_interrupt_request(v),
            ExposeToHypervisor::EnabledInterrupts(v) => self.apply_enabled_interrupts(v),
        }
    }

    fn apply_enabled_interrupts(&mut self, result: &EnabledInterrupts)
        ensures
            final(self)@ == old(self)@.with_enabled_interrupts(*result),
    {
        self.control_status_registers.vsie.set(result.vsie);
    }

    fn apply_sbi_result(&mut self, result: &SbiResult)
        requires
            old(self)@.hart_state.mepc + result.pc_offset <= u64::MAX,
        ensures
            final(self)@ == old(self)@.with_sbi_result(*result),
    {
        self.non_confidential_hart_state.set_gpr(GeneralPurposeRegister::a0, result.a0());
        self.non_confidential_hart_state.set_gpr(GeneralPurposeRegister::a1, result.a1());
        self.non_confidential_hart_state.mepc += result.pc_offset();
    }

    fn apply_opensbi_result(&mut self, result: &OpensbiResult)
        ensures
            final(self)@ == old(self)@.with_opensbi_result(*result),
    {
        self.non_confidential_hart_state.mstatus = result.trap_regs.mstatus;
        self.non_confidential_hart_state.mepc = result.trap_regs.mepc;
        self.non_confidential_hart_state.set_gpr(
            GeneralPurposeRegister::a0,
            result.trap_regs.gprs.get(GeneralPurposeRegister::a0),
        );
        self.non_confidential_hart_state.set_gpr(
            GeneralPurposeRegister::a1,
            result.trap_regs.gprs.get(GeneralPurposeRegister::a1),
        );
    }

    fn apply_sbi_vm_request(&mut self, request: &SbiVmRequest)
        requires
            !old(self)@.delivers_traps_vectored(),
        ensures
            final(self)@ == old(self)@.with_sbi_request(request.sbi_request),
    {
        self.apply_sbi_request(request.sbi_request());
    }

    fn apply_sbi_request(&mut self, request: &SbiRequest)
        requires
            !old(self)@.delivers_traps_vectored(),
        ensures
            final(self)@ == old(self)@.with_sbi_request(*request),
    {
        self.control_status_registers.scause.set(CAUSE_VIRTUAL_SUPERVISOR_ECALL);
        let hart_state = &mut self.non_confidential_hart_state;
        hart_state.set_gpr(GeneralPurposeRegister::a7, request.extension_id());
        hart_state.set_gpr(GeneralPurposeRegister::a6, request.function_id());
        hart_state.set_gpr(GeneralPurposeRegister::a0, request.a0());
        hart_state.set_gpr(GeneralPurposeRegister::a1, request.a1());
        hart_state.set_gpr(GeneralPurposeRegister::a2, request.a2());
        hart_state.set_gpr(GeneralPurposeRegister::a3, request.a3());
        hart_state.set_gpr(GeneralPurposeRegister::a4, request.a4());
        hart_state.set_gpr(GeneralPurposeRegister::a5, request.a5());
        self.apply_trap(false);
    }

    fn apply_mmio_load_request(&mut self, request: &MmioLoadRequest)
        requires
            !old(self)@.delivers_traps_vectored(),
        ensures
            final(self)@ == old(self)@.with_mmio_load_request(*request),
    {
        self.control_status_registers.scause.set(request.code());
        // The hypervisor recreates the address of the fault from htval and
        // stval.
        self.control_status_registers.stval.set(request.stval());
        self.control_status_registers.htval.set(request.htval());
        // The hypervisor may not read the memory of the guest, yet it has to
        // learn which instruction faulted: vsscratch carries it.
        self.control_status_registers.vsscratch.set(request.instruction());
        self.apply_trap(true);
    }

    fn apply_mmio_store_request(&mut self, request: &MmioStoreRequest)
        requires
            !old(self)@.delivers_traps_vectored(),
        ensures
            final(self)@ == old(self)@.with_mmio_store_request(*request),
    {
        self.control_status_registers.scause.set(request.code());
        // The hypervisor recreates the address of the fault from htval and
        // stval.
        self.control_status_registers.stval.set(request.stval());
        self.control_status_registers.htval.set(request.htval());
        self.non_confidential_hart_state.set_gpr(request.gpr(), request.gpr_value());
        // The hypervisor may not read the memory of the guest, yet it has to
        // learn which instruction faulted: vsscratch carries it.
        self.control_status_registers.vsscratch.set(request.instruction());
        self.apply_trap(true);
    }

    fn apply_interrupt_request(&mut self, request: &InterruptRequest)
        requires
            !old(self)@.delivers_traps_vectored(),
        ensures
            final(self)@ == old(self)@.with_interrupt_request(*request),
    {
        self.control_status_registers.scause.set(request.code() | SCAUSE_INTERRUPT_MASK);
        self.apply_trap(false);
    }

    /// Emulates a trap into the trap handler of the hypervisor, so that the
    /// hypervisor cannot tell it from a trap that its guest took. Vectored
    /// delivery of traps is not supported.
    pub fn apply_trap(&mut self, encoded_guest_virtual_address: bool)
        requires
            !old(self)@.delivers_traps_vectored(),
        ensures
            final(self)@ == old(self)@.after_trap(encoded_guest_virtual_address),
            final(self)@.has_forwarded_trap_status(),
            is_bit_set(final(self)@.csr.hstatus, CSR_HSTATUS_GVA) == encoded_guest_virtual_address,
    {
        proof {
            old(self)@.lemma_after_trap_status(encoded_guest_virtual_address);
        }
        let ghost mstatus = self.non_confidential_hart_state.mstatus;
        let ghost hstatus = self.control_status_registers.hstatus@;

        // The hart resumes in HS-mode, with interrupts disabled.
        disable_bit(&mut self.non_confidential_hart_state.mstatus, CSR_MSTATUS_MPV);
        enable_bit(&mut self.non_confidential_hart_state.mstatus, CSR_MSTATUS_MPP);
        disable_bit(&mut self.non_confidential_hart_state.mstatus, CSR_MSTATUS_MPIE);
        disable_bit(&mut self.non_confidential_hart_state.mstatus, CSR_MSTATUS_SIE);

        // The hypervisor resumes at its trap handler.
        self.control_status_registers.sepc.set(self.non_confidential_hart_state.mepc);
        self.non_confidential_hart_state.mepc = self.control_status_registers.stvec.read();

        // The hypervisor is to think that the trap comes from VS-mode.
        enable_bit(&mut self.non_confidential_hart_state.mstatus, CSR_MSTATUS_SPP);
        self.control_status_registers.hstatus.read_and_set_bit(CSR_HSTATUS_SPV);
        self.control_status_registers.hstatus.read_and_set_bit(CSR_HSTATUS_SPVP);
        // On a trap from VS-mode to HS-mode, hstatus.SPVP and sstatus.SPP hold
        // the same value.
        self.control_status_registers.sstatus.read_and_set_bit(CSR_SSTATUS_SPP);

        if encoded_guest_virtual_address {
            self.control_status_registers.hstatus.read_and_set_bit(CSR_HSTATUS_GVA);
        } else {
            self.control_status_registers.hstatus.read_and_clear_bit(CSR_HSTATUS_GVA);
        }

        proof {
            assert(((((mstatus & !(1u64 << 39)) | (1u64 << 11)) & !(1u64 << 7)) & !(1u64 << 1)) | (
            1u64 << 8) == (mstatus & !((1u64 << 39) | (1u64 << 7) | (1u64 << 1))) | ((1u64 << 11)
                | (1u64 << 8))) by (bit_vector);
            assert(self.non_confidential_hart_state.mstatus == mstatus_after_trap(mstatus));
            assert(self.control_status_registers.hstatus@ == hstatus_after_trap(
                hstatus,
                encoded_guest_virtual_address,
            ));
        }
    }
}

impl HardwareHart {
    /// Classifies the trap that the hart took. A call of the hypervisor to
    /// the security monitor carries its identifiers outside the general
    /// purpose registers: classifying it restores `a7` and `a6`.
    pub fn trap_reason(&mut self) -> (trap_reason: TrapCause)
        ensures
            trap_reason == old(self)@.trap_reason(),
            final(self)@ == old(self)@.after_trap_reason(),
            trap_reason.is_security_monitor_call() ==> {
                &&& final(self)@.gpr(GeneralPurposeRegister::a7) == old(self)@.csr.vstval
                &&& final(self)@.gpr(GeneralPurposeRegister::a6) == old(self)@.csr.vsepc
            },
            !trap_reason.is_security_monitor_call() ==> final(self)@ == old(self)@,
    {
        proof {
            old(self)@.lemma_after_trap_reason();
        }
        let cause = self.control_status_registers.mcause.read();
        let extension_id = self.non_confidential_hart_state.gpr(GeneralPurposeRegister::a7);
        let function_id = self.non_confidential_hart_state.gpr(GeneralPurposeRegister::a6);
        let trap_reason = TrapCause::from(cause, extension_id, function_id);

        match trap_reason {
            TrapCause::HsEcall(SbiExtension::Ace(_)) => self.restore_original_gprs(),
            _ => {},
        }
        trap_reason
    }

    pub fn promote_to_confidential_vm_request(&self) -> (request: PromoteToConfidentialVm)
        ensures
            request.hart_state == self@.hart_state,
    {
        PromoteToConfidentialVm::new(&self.non_confidential_hart_state)
    }

    pub fn hypercall_result(&self) -> (result: SbiResult)
        ensures
            result == (SbiResult {
                a0: self@.gpr(GeneralPurposeRegister::a0),
                a1: self@.gpr(GeneralPurposeRegister::a1),
                pc_offset: ECALL_INSTRUCTION_LENGTH,
            }),
    {
        SbiResult::ecall(&self.non_confidential_hart_state)
    }

    pub fn guest_load_page_fault_result(&self, request: GuestLoadPageFaultRequest) -> (result:
        GuestLoadPageFaultResult)
        ensures
            result == (GuestLoadPageFaultResult {
                result_gpr: request.result_gpr,
                value: self@.gpr(request.result_gpr),
                instruction_length: request.instruction_length,
            }),
    {
        GuestLoadPageFaultResult::new(&self.non_confidential_hart_state, request)
    }

    pub fn sbi_vm_request(&self) -> (request: SbiVmRequest)
        ensures
            request.sbi_request == SbiRequest::of_hart_state(self@.hart_state),
    {
        SbiVmRequest::from_hart_state(&self.non_confidential_hart_state)
    }

    /// The request to resume a confidential hart, which the hypervisor passes
    /// in `vstvec` and `vsscratch`.
    pub fn resume_request(&self) -> (request: ResumeRequest)
        ensures
            request.confidential_vm_id.0 == self@.csr.vstvec,
            request.confidential_hart_id == self@.csr.vsscratch,
    {
        let (confidential_vm_id, confidential_hart_id) =
            self.read_security_monitor_call_arguments();
        ResumeRequest::new(confidential_vm_id, confidential_hart_id)
    }

    /// The request to terminate a confidential virtual machine, which the
    /// hypervisor passes in `vstvec`.
    pub fn terminate_request(&self) -> (request: TerminateRequest)
        ensures
            request.confidential_vm_id.0 == self@.csr.vstvec,
    {
        let (confidential_vm_id, _) = self.read_security_monitor_call_arguments();
        TerminateRequest::new(confidential_vm_id)
    }

    pub fn share_page_result(&self) -> (result: SharePageResult)
        ensures
            result == (SharePageResult {
                response_code: self@.gpr(GeneralPurposeRegister::a0),
                hypervisor_page_address: self@.gpr(GeneralPurposeRegister::a1),
            }),
    {
        let is_error = self.non_confidential_hart_state.gpr(GeneralPurposeRegister::a0);
        let hypervisor_page_address = self.non_confidential_hart_state.gpr(
            GeneralPurposeRegister::a1,
        );
        SharePageResult::new(is_error, hypervisor_page_address)
    }

    pub fn opensbi_request(&self) -> (request: OpensbiRequest)
        ensures
            request.regs == (TrapRegisters {
                gprs: self@.hart_state.gprs,
                mepc: self@.hart_state.mepc,
                mstatus: self@.hart_state.mstatus,
            }),
    {
        OpensbiRequest::new(&self.non_confidential_hart_state)
    }

    pub fn interrupts_to_inject(&self) -> (interrupts: InjectedInterrupts)
        ensures
            interrupts.hvip == self@.csr.hvip,
    {
        InjectedInterrupts::new(&self.control_status_registers)
    }

    /// The arguments of a call to the security monitor travel in registers of
    /// VS-mode, because the general purpose registers may hold an answer of
    /// the hypervisor that a confidential virtual machine waits for. Restores
    /// `a7` and `a6` from `vstval` and `vsepc`.
    pub fn restore_original_gprs(&mut self)
        ensures
            final(self)@ == old(self)@.with_restored_gprs(),
            final(self)@.gpr(GeneralPurposeRegister::a7) == old(self)@.csr.vstval,
            final(self)@.gpr(GeneralPurposeRegister::a6) == old(self)@.csr.vsepc,
    {
        broadcast use GeneralPurposeRegisters::lemma_updated;

        self.non_confidential_hart_state.set_gpr(
            GeneralPurposeRegister::a7,
            self.control_status_registers.vstval.read(),
        );
        self.non_confidential_hart_state.set_gpr(
            GeneralPurposeRegister::a6,
            self.control_status_registers.vsepc.read(),
        );
    }

    // The identifiers of the confidential virtual machine and of the
    // confidential hart that a call to the security monitor names travel in
    // `vstvec` and `vsscratch`, for the same reason.
    fn read_security_monitor_call_arguments(&self) -> (arguments: (u64, u64))
        ensures
            arguments == (self@.csr.vstvec, self@.csr.vsscratch),
    {
        let csr = &self.control_status_registers;
        (csr.vstvec.read(), csr.vsscratch.read())
    }
}

} // verus!
