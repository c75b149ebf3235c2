//! Control and status registers (CSRs) of a hart, each behind an accessor that
//! reads it, sets it, or sets or clears one of its bits.

use vstd::prelude::*;
use crate::architecture::{with_bit_cleared, with_bit_set};

verus! {

/// One control and status register. Its view is the value it holds.
#[derive(Clone, Copy, Debug, PartialEq, Eq)]
pub struct ReadWriteRiscvCsr {
    value: u64,
}

impl View for ReadWriteRiscvCsr {
    type V = u64;

    closed spec fn view(&self) -> u64 {
        self.value
    }
}

impl ReadWriteRiscvCsr {
    pub fn new(value: u64) -> (csr: Self)
        ensures
            csr@ == value,
    {
        ReadWriteRiscvCsr { value }
    }

    pub fn read(&self) -> (value: u64)
        ensures
            value == self@,
    {
        self.value
    }

    pub fn set(&mut self, value: u64)
        ensures
            final(self)@ == value,
    {
        self.value = value;
    }

    /// Sets one bit of the register and returns the value that the register
    /// held before.
    pub fn read_and_set_bit(&mut self, bit_index: u64) -> (previous: u64)
        requires
            bit_index < 64,
        ensures
            previous == old(self)@,
            final(self)@ == with_bit_set(old(self)@, bit_index),
    {
        let previous = self.value;
        self.value = previous | (1u64 << bit_index);
        previous
    }

    /// Clears one bit of the register and returns the value that the register
    /// held before.
    pub fn read_and_clear_bit(&mut self, bit_index: u64) -> (previous: u64)
        requires
            bit_index < 64,
        ensures
            previous == old(self)@,
            final(self)@ == with_bit_cleared(old(self)@, bit_index),
    {
        let previous = self.value;
        self.value = previous & !(1u64 << bit_index);
        previous
    }
}

/// The bank of control and status registers of one hart that the security
/// monitor reads or writes.
#[derive(Clone, Copy, Debug, PartialEq, Eq)]
pub struct ControlStatusRegisters {
    /// Machine exception program counter: where `mret` resumes.
    pub mepc: ReadWriteRiscvCsr,
    /// Cause of the trap into machine mode.
    pub mcause: ReadWriteRiscvCsr,
    /// Machine status.
    pub mstatus: ReadWriteRiscvCsr,
    /// Machine scratch register.
    pub mscratch: ReadWriteRiscvCsr,
    /// Supervisor status.
    pub sstatus: ReadWriteRiscvCsr,
    /// Supervisor exception program counter.
    pub sepc: ReadWriteRiscvCsr,
    /// Cause of the trap into HS-mode.
    pub scause: ReadWriteRiscvCsr,
    /// Address and mode of the trap handler of HS-mode.
    pub stvec: ReadWriteRiscvCsr,
    /// Supervisor trap value.
    pub stval: ReadWriteRiscvCsr,
    /// Hypervisor status.
    pub hstatus: ReadWriteRiscvCsr,
    /// Hypervisor trap value: the guest physical address of a fault, shifted right by two.
    pub htval: ReadWriteRiscvCsr,
    /// Root of the guest address translation.
    pub hgatp: ReadWriteRiscvCsr,
    /// Interrupts that the hypervisor injects into its guest.
    pub hvip: ReadWriteRiscvCsr,
    /// Virtual supervisor status.
    pub vsstatus: ReadWriteRiscvCsr,
    /// Interrupts enabled in VS-mode.
    pub vsie: ReadWriteRiscvCsr,
    /// Address and mode of the trap handler of VS-mode.
    pub vstvec: ReadWriteRiscvCsr,
    /// Virtual supervisor scratch register.
    pub vsscratch: ReadWriteRiscvCsr,
    /// Virtual supervisor exception program counter.
    pub vsepc: ReadWriteRiscvCsr,
    /// Cause of the trap into VS-mode.
    pub vscause: ReadWriteRiscvCsr,
    /// Virtual supervisor trap value.
    pub vstval: ReadWriteRiscvCsr,
    /// Root of the address translation of VS-mode.
    pub vsatp: ReadWriteRiscvCsr,
}

/// The values held by a bank of control and status registers.
pub struct ControlStatusRegistersView {
    pub mepc: u64,
    pub mcause: u64,
    pub mstatus: u64,
    pub mscratch: u64,
    pub sstatus: u64,
    pub sepc: u64,
    pub scause: u64,
    pub stvec: u64,
    pub stval: u64,
    pub hstatus: u64,
    pub htval: u64,
    pub hgatp: u64,
    pub hvip: u64,
    pub vsstatus: u64,
    pub vsie: u64,
    pub vstvec: u64,
    pub vsscratch: u64,
    pub vsepc: u64,
    pub vscause: u64,
    pub vstval: u64,
    pub vsatp: u64,
}

impl ControlStatusRegistersView {
    /// The values of a bank in which every register holds zero.
    pub open spec fn zeroed() -> Self {
        ControlStatusRegistersView {
            mepc: 0,
            mcause: 0,
            mstatus: 0,
            mscratch: 0,
            sstatus: 0,
            sepc: 0,
            scause: 0,
            stvec: 0,
            stval: 0,
            hstatus: 0,
            htval: 0,
            hgatp: 0,
            hvip: 0,
            vsstatus: 0,
            vsie: 0,
            vstvec: 0,
            vsscratch: 0,
            vsepc: 0,
            vscause: 0,
            vstval: 0,
            vsatp: 0,
        }
    }
}

impl View for ControlStatusRegisters {
    type V = ControlStatusRegistersView;

    open spec fn view(&self) -> ControlStatusRegistersView {
        ControlStatusRegistersView {
            mepc: self.mepc@,
            mcause: self.mcause@,
            mstatus: self.mstatus@,
            mscratch: self.mscratch@,
            sstatus: self.sstatus@,
            sepc: self.sepc@,
            scause: self.scause@,
            stvec: self.stvec@,
            stval: self.stval@,
            hstatus: self.hstatus@,
            htval: self.htval@,
            hgatp: self.hgatp@,
            hvip: self.hvip@,
            vsstatus: self.vsstatus@,
            vsie: self.vsie@,
            vstvec: self.vstvec@,
            vsscratch: self.vsscratch@,
            vsepc: self.vsepc@,
            vscause: self.vscause@,
            vstval: self.vstval@,
            vsatp: self.vsatp@,
        }
    }
}

impl ControlStatusRegisters {
    /// A bank in which every register holds zero.
    pub fn empty() -> (csr: Self)
        ensures
            csr@ == ControlStatusRegistersView::zeroed(),
    {
        ControlStatusRegisters {
            mepc: ReadWriteRiscvCsr::new(0),
            mcause: ReadWriteRiscvCsr::new(0),
            mstatus: ReadWriteRiscvCsr::new(0),
            mscratch: ReadWriteRiscvCsr::new(0),
            sstatus: ReadWriteRiscvCsr::new(0),
            sepc: ReadWriteRiscvCsr::new(0),
            scause: ReadWriteRiscvCsr::new(0),
            stvec: ReadWriteRiscvCsr::new(0),
            stval: ReadWriteRiscvCsr::new(0),
            hstatus: ReadWriteRiscvCsr::new(0),
            htval: ReadWriteRiscvCsr::new(0),
            hgatp: ReadWriteRiscvCsr::new(0),
            hvip: ReadWriteRiscvCsr::new(0),
            vsstatus: ReadWriteRiscvCsr::new(0),
            vsie: ReadWriteRiscvCsr::new(0),
            vstvec: ReadWriteRiscvCsr::new(0),
            vsscratch: ReadWriteRiscvCsr::new(0),
            vsepc: ReadWriteRiscvCsr::new(0),
            vscause: ReadWriteRiscvCsr::new(0),
            vstval: ReadWriteRiscvCsr::new(0),
            vsatp: ReadWriteRiscvCsr::new(0),
        }
    }
}

} // verus!
