//! The mathematical model of a physical hart: what the hart holds, and what
//! each operation of the security monitor makes of it.

use vstd::prelude::*;
use crate::architecture::{bit_mask, has_all_bits, is_bit_set, lemma_with_bit_set, with_bit_set};
use crate::architecture::control_status_registers::ControlStatusRegistersView;
use crate::architecture::general_purpose_registers::{
    GeneralPurposeRegister,
    GeneralPurposeRegisters,
};
use crate::architecture::hart_architectural_state::HartArchitecturalState;
use crate::architecture::sbi::SbiExtension;
use crate::architecture::specification::{
    CAUSE_VIRTUAL_SUPERVISOR_ECALL,
    CSR_HSTATUS_GVA,
    CSR_HSTATUS_SPV,
    CSR_HSTATUS_SPVP,
    CSR_MSTATUS_MPIE,
    CSR_MSTATUS_MPP,
    CSR_MSTATUS_MPP_HIGH,
    CSR_MSTATUS_MPV,
    CSR_MSTATUS_SIE,
    CSR_MSTATUS_SPP,
    CSR_SSTATUS_SPP,
    SCAUSE_INTERRUPT_MASK,
    STVEC_MODE_VECTORED,
};
use crate::architecture::trap_cause::TrapCause;
use crate::control_data::confidential_hart::ConfidentialHartView;
use crate::memory_protector::HypervisorMemoryProtector;
use crate::page_allocator::PageView;
use crate::transformations::ExposeToHypervisor;
use crate::transformations::interrupts::{EnabledInterrupts, InterruptRequest};
use crate::transformations::mmio::{MmioLoadRequest, MmioStoreRequest};
use crate::transformations::opensbi::OpensbiResult;
use crate::transformations::sbi_request::SbiRequest;
use crate::transformations::sbi_result::SbiResult;

verus! {

/// What a physical hart holds.
pub struct HardwareHartView {
    /// The registers of the hypervisor as they were saved in main memory.
    pub hart_state: HartArchitecturalState,
    /// The control and status registers of the hart.
    pub csr: ControlStatusRegistersView,
    /// The capability to open the memory of the hypervisor to the hart.
    pub hypervisor_memory_protector: HypervisorMemoryProtector,
    /// The page that holds the stack of the security monitor on this hart.
    pub stack: PageView,
    /// The address from which the stack grows down.
    pub stack_address: usize,
    /// The value of `mscratch` that the firmware expects.
    pub previous_mscratch: u64,
    /// The virtual hart that is bound to the hart.
    pub confidential_hart: ConfidentialHartView,
}

/// `mstatus` after a trap was emulated: `MPV`, `MPIE` and `SIE` are clear,
/// the low bit of `MPP` and `SPP` are set, every other bit is as it was.
pub open spec fn mstatus_after_trap(mstatus: u64) -> u64 {
    (mstatus & !(bit_mask(CSR_MSTATUS_MPV) | bit_mask(CSR_MSTATUS_MPIE) | bit_mask(
        CSR_MSTATUS_SIE,
    ))) | (bit_mask(CSR_MSTATUS_MPP) | bit_mask(CSR_MSTATUS_SPP))
}

/// `hstatus` after a trap was emulated: `SPV` and `SPVP` are set, `GVA` tells
/// whether the trap carries a guest virtual address, every other bit is as it
/// was.
pub open spec fn hstatus_after_trap(hstatus: u64, encoded_guest_virtual_address: bool) -> u64 {
    let from_virtual_supervisor = hstatus | bit_mask(CSR_HSTATUS_SPV) | bit_mask(CSR_HSTATUS_SPVP);
    if encoded_guest_virtual_address {
        from_virtual_supervisor | bit_mask(CSR_HSTATUS_GVA)
    } else {
        from_virtual_supervisor & !bit_mask(CSR_HSTATUS_GVA)
    }
}

/// Bit by bit, what emulating a trap makes of `mstatus`.
pub proof fn lemma_mstatus_after_trap(mstatus: u64, bit_index: u64)
    by (bit_vector)
    requires
        bit_index < 64,
    ensures
        is_bit_set(mstatus_after_trap(mstatus), bit_index) == (if bit_index == CSR_MSTATUS_MPV
            || bit_index == CSR_MSTATUS_MPIE || bit_index == CSR_MSTATUS_SIE {
            false
        } else if bit_index == CSR_MSTATUS_MPP || bit_index == CSR_MSTATUS_SPP {
            true
        } else {
            is_bit_set(mstatus, bit_index)
        }),
{
}

/// Bit by bit, what emulating a trap makes of `hstatus`.
pub proof fn lemma_hstatus_after_trap(
    hstatus: u64,
    encoded_guest_virtual_address: bool,
    bit_index: u64,
)
    by (bit_vector)
    requires
        bit_index < 64,
    ensures
        is_bit_set(hstatus_after_trap(hstatus, encoded_guest_virtual_address), bit_index) == (
        if bit_index == CSR_HSTATUS_SPV || bit_index == CSR_HSTATUS_SPVP {
            true
        } else if bit_index == CSR_HSTATUS_GVA {
            encoded_guest_virtual_address
        } else {
            is_bit_set(hstatus, bit_index)
        }),
{
}

/// The two bits of `mstatus.MPP` read as supervisor after a trap was
/// emulated, provided that the high bit of the field was clear before:
/// emulating the trap sets the low bit and leaves the high bit.
pub proof fn lemma_previous_privilege_is_supervisor(mstatus: u64)
    by (bit_vector)
    requires
        !is_bit_set(mstatus, CSR_MSTATUS_MPP_HIGH),
    ensures
        (mstatus_after_trap(mstatus) >> CSR_MSTATUS_MPP) & 3 == 1,
{
}

impl HardwareHartView {
    /// The value that the saved state holds in a general purpose register.
    pub open spec fn gpr(self, register: GeneralPurposeRegister) -> u64 {
        self.hart_state.gpr_value(register)
    }

    /// Whether the stack address is the end of the stack page. It is from
    /// boot on: no operation of the hart changes the stack page or the stack
    /// address.
    pub open spec fn keeps_end_of_stack(self) -> bool {
        self.stack.is_valid() && self.stack_address == self.stack.end_address()
    }

    /// Whether the hypervisor asked for vectored delivery of its traps.
    pub open spec fn delivers_traps_vectored(self) -> bool {
        has_all_bits(self.csr.stvec, STVEC_MODE_VECTORED)
    }

    /// The hart after a trap into the trap handler of the hypervisor was
    /// emulated on it. The hypervisor resumes at its trap handler and finds in
    /// `sepc` the address at which it would have resumed; the status
    /// registers read as after a trap from VS-mode. Nothing else changes.
    pub open spec fn after_trap(self, encoded_guest_virtual_address: bool) -> HardwareHartView {
        HardwareHartView {
            hart_state: HartArchitecturalState {
                mstatus: mstatus_after_trap(self.hart_state.mstatus),
                mepc: self.csr.stvec,
                ..self.hart_state
            },
            csr: ControlStatusRegistersView {
                sepc: self.hart_state.mepc,
                hstatus: hstatus_after_trap(self.csr.hstatus, encoded_guest_virtual_address),
                sstatus: with_bit_set(self.csr.sstatus, CSR_SSTATUS_SPP),
                ..self.csr
            },
            ..self
        }
    }

    /// Whether the status registers read as after a trap from VS-mode into
    /// HS-mode that the hart took with interrupts disabled: in `mstatus`, the
    /// previous virtualization mode and the previous interrupt enables are
    /// clear and the previous privilege bits are set; in `hstatus` and
    /// `sstatus` the bits of the previous privilege agree with them.
    pub open spec fn has_forwarded_trap_status(self) -> bool {
        &&& !is_bit_set(self.hart_state.mstatus, CSR_MSTATUS_MPV)
        &&& is_bit_set(self.hart_state.mstatus, CSR_MSTATUS_MPP)
        &&& !is_bit_set(self.hart_state.mstatus, CSR_MSTATUS_MPIE)
        &&& !is_bit_set(self.hart_state.mstatus, CSR_MSTATUS_SIE)
        &&& is_bit_set(self.hart_state.mstatus, CSR_MSTATUS_SPP)
        &&& is_bit_set(self.csr.hstatus, CSR_HSTATUS_SPV)
        &&& is_bit_set(self.csr.hstatus, CSR_HSTATUS_SPVP)
        &&& is_bit_set(self.csr.sstatus, CSR_SSTATUS_SPP)
    }

    /// The hart after the hypervisor learned which interrupts its guest
    /// enabled: `vsie` holds them.
    pub open spec fn with_enabled_interrupts(self, result: EnabledInterrupts) -> HardwareHartView {
        HardwareHartView {
            csr: ControlStatusRegistersView { vsie: result.vsie, ..self.csr },
            ..self
        }
    }

    /// The hart after the result of a call was handed to the hypervisor: `a0`
    /// and `a1` hold the result and the program counter advanced by the
    /// result's offset.
    pub open spec fn with_sbi_result(self, result: SbiResult) -> HardwareHartView {
        let with_result = self.hart_state
            .with_gpr(GeneralPurposeRegister::a0, result.a0)
            .with_gpr(GeneralPurposeRegister::a1, result.a1);
        HardwareHartView {
            hart_state: HartArchitecturalState {
                mepc: (self.hart_state.mepc + result.pc_offset) as u64,
                ..with_result
            },
            ..self
        }
    }

    /// The hart after the result of a call that the firmware handled was
    /// handed to the hypervisor: `mstatus`, `mepc`, `a0` and `a1` are those
    /// that the firmware left.
    pub open spec fn with_opensbi_result(self, result: OpensbiResult) -> HardwareHartView {
        let firmware = result.trap_regs.gprs@;
        let with_result = self.hart_state
            .with_gpr(GeneralPurposeRegister::a0, firmware[GeneralPurposeRegister::a0.number()])
            .with_gpr(GeneralPurposeRegister::a1, firmware[GeneralPurposeRegister::a1.number()]);
        HardwareHartView {
            hart_state: HartArchitecturalState {
                mstatus: result.trap_regs.mstatus,
                mepc: result.trap_regs.mepc,
                ..with_result
            },
            ..self
        }
    }

    /// The hart after a call was forwarded to the hypervisor: the registers
    /// of the calling convention hold the call, `scause` names an environment
    /// call from VS-mode, and the trap was emulated.
    pub open spec fn with_sbi_request(self, request: SbiRequest) -> HardwareHartView {
        HardwareHartView {
            hart_state: request.written_to(self.hart_state),
            csr: ControlStatusRegistersView { scause: CAUSE_VIRTUAL_SUPERVISOR_ECALL, ..self.csr },
            ..self
        }.after_trap(false)
    }

    /// The hart after a load from an emulated device was forwarded to the
    /// hypervisor: `scause`, `stval` and `htval` describe the fault,
    /// `vsscratch` holds the encoding of the faulting instruction, and the
    /// trap was emulated with a guest virtual address.
    pub open spec fn with_mmio_load_request(self, request: MmioLoadRequest) -> HardwareHartView {
        HardwareHartView {
            csr: ControlStatusRegistersView {
                scause: request.code,
                stval: request.stval,
                htval: request.htval,
                vsscratch: request.instruction,
                ..self.csr
            },
            ..self
        }.after_trap(true)
    }

    /// The hart after a store to an emulated device was forwarded to the
    /// hypervisor: as for a load, and the register that the store reads holds
    /// the stored value.
    pub open spec fn with_mmio_store_request(self, request: MmioStoreRequest) -> HardwareHartView {
        HardwareHartView {
            hart_state: self.hart_state.with_gpr(request.gpr, request.gpr_value),
            csr: ControlStatusRegistersView {
                scause: request.code,
                stval: request.stval,
                htval: request.htval,
                vsscratch: request.instruction,
                ..self.csr
            },
            ..self
        }.after_trap(true)
    }

    /// The hart after an interrupt was forwarded to the hypervisor: `scause`
    /// holds the code of the interrupt with the interrupt bit set, and the
    /// trap was emulated.
    pub open spec fn with_interrupt_request(self, request: InterruptRequest) -> HardwareHartView {
        HardwareHartView {
            csr: ControlStatusRegistersView {
                scause: request.code | SCAUSE_INTERRUPT_MASK,
                ..self.csr
            },
            ..self
        }.after_trap(false)
    }

    /// Whether a transformation can be applied to the hart. A trap can be
    /// forwarded unless the hypervisor asked for vectored delivery, and the
    /// result of a call can be handed over unless the program counter would
    /// leave the address space.
    pub open spec fn accepts(self, transformation: ExposeToHypervisor) -> bool {
        match transformation {
            ExposeToHypervisor::SbiResult(result) => self.hart_state.mepc + result.pc_offset
                <= u64::MAX,
            ExposeToHypervisor::OpensbiResult(_) => true,
            ExposeToHypervisor::EnabledInterrupts(_) => true,
            _ => !self.delivers_traps_vectored(),
        }
    }

    /// The hart after a transformation was applied to it.
    pub open spec fn exposing(self, transformation: ExposeToHypervisor) -> HardwareHartView {
        match transformation {
            ExposeToHypervisor::SbiRequest(request) => self.with_sbi_request(request),
            ExposeToHypervisor::SbiVmRequest(request) => self.with_sbi_request(request.sbi_request),
            ExposeToHypervisor::SbiResult(result) => self.with_sbi_result(result),
            ExposeToHypervisor::OpensbiResult(result) => self.with_opensbi_result(result),
            ExposeToHypervisor::MmioLoadRequest(request) => self.with_mmio_load_request(request),
            ExposeToHypervisor::MmioStoreRequest(request) => self.with_mmio_store_request(request),
            ExposeToHypervisor::InterruptRequest(request) => self.with_interrupt_request(request),
            ExposeToHypervisor::EnabledInterrupts(result) => self.with_enabled_interrupts(result),
        }
    }

    /// The category of the trap that the hart took, by `mcause` and the
    /// registers `a7` and `a6` of the saved state.
    pub open spec fn trap_reason(self) -> TrapCause {
        TrapCause::classify(
            self.csr.mcause,
            self.gpr(GeneralPurposeRegister::a7),
            self.gpr(GeneralPurposeRegister::a6),
        )
    }

    /// The hart after `a7` and `a6` took the extension and function
    /// identifiers of a call to the security monitor, which the hypervisor
    /// passes in `vstval` and `vsepc`.
    pub open spec fn with_restored_gprs(self) -> HardwareHartView {
        HardwareHartView {
            hart_state: self.hart_state
                .with_gpr(GeneralPurposeRegister::a7, self.csr.vstval)
                .with_gpr(GeneralPurposeRegister::a6, self.csr.vsepc),
            ..self
        }
    }

    /// The hart after its trap was classified: a call of the hypervisor to
    /// the security monitor restores `a7` and `a6`, any other trap changes
    /// nothing.
    pub open spec fn after_trap_reason(self) -> HardwareHartView {
        if self.trap_reason().is_security_monitor_call() {
            self.with_restored_gprs()
        } else {
            self
        }
    }

    /// The hart after `mscratch` and the value kept for the firmware changed
    /// places.
    pub open spec fn with_swapped_mscratch(self) -> HardwareHartView {
        HardwareHartView {
            csr: ControlStatusRegistersView { mscratch: self.previous_mscratch, ..self.csr },
            previous_mscratch: self.csr.mscratch,
            ..self
        }
    }
}

impl HardwareHartView {
    /// Whatever the status registers held, after a trap was emulated they
    /// read as after a trap from VS-mode, and `hstatus.GVA` tells whether
    /// this trap carries a guest virtual address.
    pub proof fn lemma_after_trap_status(self, encoded_guest_virtual_address: bool)
        ensures
            self.after_trap(encoded_guest_virtual_address).has_forwarded_trap_status(),
            is_bit_set(
                self.after_trap(encoded_guest_virtual_address).csr.hstatus,
                CSR_HSTATUS_GVA,
            ) == encoded_guest_virtual_address,
    {
        let mstatus = self.hart_state.mstatus;
        lemma_mstatus_after_trap(mstatus, CSR_MSTATUS_MPV);
        lemma_mstatus_after_trap(mstatus, CSR_MSTATUS_MPP);
        lemma_mstatus_after_trap(mstatus, CSR_MSTATUS_MPIE);
        lemma_mstatus_after_trap(mstatus, CSR_MSTATUS_SIE);
        lemma_mstatus_after_trap(mstatus, CSR_MSTATUS_SPP);
        let hstatus = self.csr.hstatus;
        lemma_hstatus_after_trap(hstatus, encoded_guest_virtual_address, CSR_HSTATUS_SPV);
        lemma_hstatus_after_trap(hstatus, encoded_guest_virtual_address, CSR_HSTATUS_SPVP);
        lemma_hstatus_after_trap(hstatus, encoded_guest_virtual_address, CSR_HSTATUS_GVA);
        lemma_with_bit_set(self.csr.sstatus, CSR_SSTATUS_SPP, CSR_SSTATUS_SPP);
    }

    /// Every transformation that forwards a trap leaves the status registers
    /// as after a trap from VS-mode, whatever they held before, and sets
    /// `hstatus.GVA` exactly if the trap carries a guest virtual address.
    pub proof fn lemma_forwarded_trap_status(self, transformation: ExposeToHypervisor)
        requires
            transformation.forwards_trap(),
        ensures
            self.exposing(transformation).has_forwarded_trap_status(),
            is_bit_set(self.exposing(transformation).csr.hstatus, CSR_HSTATUS_GVA)
                == transformation.carries_guest_virtual_address(),
    {
        assert forall|hart: HardwareHartView, gva: bool|
            (#[trigger] hart.after_trap(gva)).has_forwarded_trap_status() && is_bit_set(
                hart.after_trap(gva).csr.hstatus,
                CSR_HSTATUS_GVA,
            ) == gva by {
            hart.lemma_after_trap_status(gva);
        }
    }

    /// Emulating a second trap derives the status registers anew from what
    /// the first left: `mstatus` and `sstatus` stay as the first trap left
    /// them, `hstatus` is what the second trap alone would have made of it,
    /// so that `hstatus.GVA` follows the second trap only. The program
    /// counters do move: the hypervisor finds in `sepc` its own trap handler.
    pub proof fn lemma_after_trap_twice(self, first: bool, second: bool)
        ensures
            ({
                let once = self.after_trap(first);
                let twice = self.after_trap(first).after_trap(second);
                &&& twice.hart_state.mstatus == once.hart_state.mstatus
                &&& twice.csr.sstatus == once.csr.sstatus
                &&& twice.csr.hstatus == self.after_trap(second).csr.hstatus
                &&& is_bit_set(twice.csr.hstatus, CSR_HSTATUS_GVA) == second
                &&& twice.has_forwarded_trap_status()
                &&& twice.csr.sepc == self.csr.stvec
                &&& twice.hart_state.mepc == self.csr.stvec
            }),
    {
        let mstatus = self.hart_state.mstatus;
        let hstatus = self.csr.hstatus;
        let sstatus = self.csr.sstatus;
        assert(mstatus_after_trap(mstatus_after_trap(mstatus)) == mstatus_after_trap(mstatus))
            by (bit_vector);
        assert(hstatus_after_trap(hstatus_after_trap(hstatus, first), second)
            == hstatus_after_trap(hstatus, second)) by (bit_vector);
        assert(with_bit_set(with_bit_set(sstatus, CSR_SSTATUS_SPP), CSR_SSTATUS_SPP)
            == with_bit_set(sstatus, CSR_SSTATUS_SPP)) by (bit_vector);
        self.after_trap(first).lemma_after_trap_status(second);
    }

    /// Once `a7` and `a6` were restored, the trap is classified by the
    /// identifiers that the hypervisor passed in `vstval` and `vsepc`,
    /// whatever the two registers held before, and classifying it leaves the
    /// hart as it is. Where the trap is a call to the security monitor, the
    /// function that the classification reports is the one that `vsepc`
    /// names.
    pub proof fn lemma_classification_of_restored_gprs(self)
        ensures
            self.with_restored_gprs().trap_reason() == TrapCause::classify(
                self.csr.mcause,
                self.csr.vstval,
                self.csr.vsepc,
            ),
            self.with_restored_gprs().after_trap_reason() == self.with_restored_gprs(),
            self.with_restored_gprs().trap_reason() matches TrapCause::HsEcall(extension)
                ==> extension.extension_id() == self.csr.vstval && extension.function_id()
                == self.csr.vsepc,
    {
        broadcast use GeneralPurposeRegisters::lemma_updated;

        let restored = self.with_restored_gprs();
        assert(restored.gpr(GeneralPurposeRegister::a7) == self.csr.vstval);
        assert(restored.gpr(GeneralPurposeRegister::a6) == self.csr.vsepc);
        SbiExtension::lemma_decode_keeps_identifiers(self.csr.vstval, self.csr.vsepc);
        let again = restored.with_restored_gprs();
        assert(again.hart_state.gprs@ =~= restored.hart_state.gprs@);
        again.hart_state.gprs.lemma_equal_by_view(restored.hart_state.gprs);
    }

    /// Classifying a trap that is a call of the hypervisor to the security
    /// monitor leaves in `a7` and `a6` the identifiers that the hypervisor
    /// passed in `vstval` and `vsepc`; classifying any other trap leaves the
    /// hart as it is.
    pub proof fn lemma_after_trap_reason(self)
        ensures
            self.trap_reason().is_security_monitor_call() ==> {
                &&& self.after_trap_reason().gpr(GeneralPurposeRegister::a7) == self.csr.vstval
                &&& self.after_trap_reason().gpr(GeneralPurposeRegister::a6) == self.csr.vsepc
            },
            !self.trap_reason().is_security_monitor_call() ==> self.after_trap_reason() == self,
            self.after_trap_reason().csr == self.csr,
    {
        broadcast use GeneralPurposeRegisters::lemma_updated;

    }

    /// A transformation writes the registers that it names and no others.
    ///
    /// It never touches the memory protector, the stack, the value kept for
    /// the firmware or the bound virtual hart. Of the saved state it writes
    /// at most `mepc`, `mstatus` and the general purpose registers that
    /// `writes_gpr` names: enabled interrupts write nothing, the result of a
    /// call leaves `mstatus`. Of the control and status registers, a
    /// forwarded trap writes `scause`, `sepc`, `hstatus` and `sstatus`, a
    /// fault of an emulated device also `stval`, `htval` and `vsscratch`;
    /// enabled interrupts write `vsie`; results write none.
    pub proof fn lemma_exposing_writes(self, transformation: ExposeToHypervisor)
        ensures
            ({
                let after = self.exposing(transformation);
                &&& after == (HardwareHartView {
                    hart_state: after.hart_state,
                    csr: after.csr,
                    ..self
                })
                &&& after.hart_state == (HartArchitecturalState {
                    gprs: after.hart_state.gprs,
                    mepc: after.hart_state.mepc,
                    mstatus: after.hart_state.mstatus,
                    ..self.hart_state
                })
                &&& forall|register: GeneralPurposeRegister|
                    !transformation.writes_gpr(register) ==> #[trigger] after.gpr(register)
                        == self.gpr(register)
                &&& transformation is EnabledInterrupts ==> after.hart_state == self.hart_state
                &&& transformation is SbiResult ==> after.hart_state.mstatus
                    == self.hart_state.mstatus
                &&& transformation.carries_guest_virtual_address() ==> after.csr == (
                ControlStatusRegistersView {
                    scause: after.csr.scause,
                    sepc: after.csr.sepc,
                    hstatus: after.csr.hstatus,
                    sstatus: after.csr.sstatus,
                    stval: after.csr.stval,
                    htval: after.csr.htval,
                    vsscratch: after.csr.vsscratch,
                    ..self.csr
                })
                &&& transformation.forwards_trap()
                    && !transformation.carries_guest_virtual_address() ==> after.csr == (
                ControlStatusRegistersView {
                    scause: after.csr.scause,
                    sepc: after.csr.sepc,
                    hstatus: after.csr.hstatus,
                    sstatus: after.csr.sstatus,
                    ..self.csr
                })
                &&& transformation is EnabledInterrupts ==> after.csr == (
                ControlStatusRegistersView { vsie: after.csr.vsie, ..self.csr })
                &&& transformation is SbiResult || transformation is OpensbiResult ==> after.csr
                    == self.csr
            }),
    {
        broadcast use GeneralPurposeRegisters::lemma_updated;

    }

    /// Exchanging `mscratch` with the value kept for the firmware twice
    /// leaves the hart as it was.
    pub proof fn lemma_swapped_mscratch_twice(self)
        ensures
            self.with_swapped_mscratch().with_swapped_mscratch() == self,
    {
    }
}

} // verus!
