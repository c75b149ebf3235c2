//! The architectural state of a hart as it is saved in main memory.

use vstd::prelude::*;
use crate::architecture::control_status_registers::{
    ControlStatusRegisters,
    ControlStatusRegistersView,
};
use crate::architecture::general_purpose_registers::{
    GeneralPurposeRegister,
    GeneralPurposeRegisters,
};

verus! {

/// The registers of one execution context: the general purpose registers and
/// a copy of every control and status register that is saved when the
/// context stops and restored when it resumes. `mcause` and `mscratch` belong
/// to the security monitor and are never saved.
#[derive(Clone, Copy, Debug, PartialEq, Eq)]
pub struct HartArchitecturalState {
    pub gprs: GeneralPurposeRegisters,
    /// Identifier of the hart.
    pub id: usize,
    /// Address at which the hart resumes on return from machine mode.
    pub mepc: u64,
    /// Machine status with which the hart resumes.
    pub mstatus: u64,
    pub sstatus: u64,
    pub sepc: u64,
    pub scause: u64,
    pub stvec: u64,
    pub stval: u64,
    pub hstatus: u64,
    pub htval: u64,
    /// Root of the guest address translation.
    pub hgatp: u64,
    pub hvip: u64,
    pub vsstatus: u64,
    pub vsie: u64,
    pub vstvec: u64,
    pub vsscratch: u64,
    pub vsepc: u64,
    pub vscause: u64,
    pub vstval: u64,
    pub vsatp: u64,
}

impl HartArchitecturalState {
    /// The state of the hart `id` in which every register holds zero.
    pub open spec fn zeroed(id: usize) -> Self {
        HartArchitecturalState {
            gprs: GeneralPurposeRegisters::zeroed(),
            id,
            mepc: 0,
            mstatus: 0,
            sstatus: 0,
            sepc: 0,
            scause: 0,
            stvec: 0,
            stval: 0,
            hstatus: 0,
            htval: 0,
            hgatp: 0,
            hvip: 0,
            vsstatus: 0,
            vsie: 0,
            vstvec: 0,
            vsscratch: 0,
            vsepc: 0,
            vscause: 0,
            vstval: 0,
            vsatp: 0,
        }
    }

    /// The value of a general purpose register.
    pub open spec fn gpr_value(self, register: GeneralPurposeRegister) -> u64 {
        self.gprs@[register.number()]
    }

    /// The state that differs from `self` in one general purpose register.
    pub open spec fn with_gpr(self, register: GeneralPurposeRegister, value: u64) -> Self {
        HartArchitecturalState { gprs: self.gprs.updated(register, value), ..self }
    }

    /// The state after every saved control and status register took the value
    /// that the bank `csr` holds. General purpose registers and the hart's
    /// identifier stay.
    pub open spec fn saved_from(self, csr: ControlStatusRegistersView) -> Self {
        HartArchitecturalState {
            gprs: self.gprs,
            id: self.id,
            mepc: csr.mepc,
            mstatus: csr.mstatus,
            sstatus: csr.sstatus,
            sepc: csr.sepc,
            scause: csr.scause,
            stvec: csr.stvec,
            stval: csr.stval,
            hstatus: csr.hstatus,
            htval: csr.htval,
            hgatp: csr.hgatp,
            hvip: csr.hvip,
            vsstatus: csr.vsstatus,
            vsie: csr.vsie,
            vstvec: csr.vstvec,
            vsscratch: csr.vsscratch,
            vsepc: csr.vsepc,
            vscause: csr.vscause,
            vstval: csr.vstval,
            vsatp: csr.vsatp,
        }
    }

    /// The bank `csr` after every saved control and status register was
    /// written back to it. `mcause` and `mscratch` stay.
    pub open spec fn restored_to(
        self,
        csr: ControlStatusRegistersView,
    ) -> ControlStatusRegistersView {
        ControlStatusRegistersView {
            mcause: csr.mcause,
            mscratch: csr.mscratch,
            mepc: self.mepc,
            mstatus: self.mstatus,
            sstatus: self.sstatus,
            sepc: self.sepc,
            scause: self.scause,
            stvec: self.stvec,
            stval: self.stval,
            hstatus: self.hstatus,
            htval: self.htval,
            hgatp: self.hgatp,
            hvip: self.hvip,
            vsstatus: self.vsstatus,
            vsie: self.vsie,
            vstvec: self.vstvec,
            vsscratch: self.vsscratch,
            vsepc: self.vsepc,
            vscause: self.vscause,
            vstval: self.vstval,
            vsatp: self.vsatp,
        }
    }

    /// Saving a bank and writing the saved registers back leaves the bank as
    /// it was, and restoring to a bank and saving from it again leaves the
    /// state as it was.
    pub proof fn lemma_save_restore_round_trip(self, csr: ControlStatusRegistersView)
        ensures
            self.saved_from(csr).restored_to(csr) == csr,
            self.saved_from(self.restored_to(csr)) == self,
    {
    }

    pub fn empty(id: usize) -> (state: Self)
        ensures
            state == Self::zeroed(id),
    {
        HartArchitecturalState {
            gprs: GeneralPurposeRegisters::empty(),
            id,
            mepc: 0,
            mstatus: 0,
            sstatus: 0,
            sepc: 0,
            scause: 0,
            stvec: 0,
            stval: 0,
            hstatus: 0,
            htval: 0,
            hgatp: 0,
            hvip: 0,
            vsstatus: 0,
            vsie: 0,
            vstvec: 0,
            vsscratch: 0,
            vsepc: 0,
            vscause: 0,
            vstval: 0,
            vsatp: 0,
        }
    }

    pub fn gpr(&self, register: GeneralPurposeRegister) -> (value: u64)
        ensures
            value == self.gpr_value(register),
    {
        self.gprs.get(register)
    }

    pub fn set_gpr(&mut self, register: GeneralPurposeRegister, value: u64)
        ensures
            *final(self) == old(self).with_gpr(register, value),
            final(self).gprs@ == old(self).gprs@.update(register.number(), value),
    {
        self.gprs.set(register, value);
    }

    /// Copies every saved control and status register from the bank into
    /// this state.
    pub fn store_control_status_registers_in_main_memory(&mut self, csr: &ControlStatusRegisters)
        ensures
            *final(self) == old(self).saved_from(csr@),
    {
        self.mepc = csr.mepc.read();
        self.mstatus = csr.mstatus.read();
        self.sstatus = csr.sstatus.read();
        self.sepc = csr.sepc.read();
        self.scause = csr.scause.read();
        self.stvec = csr.stvec.read();
        self.stval = csr.stval.read();
        self.hstatus = csr.hstatus.read();
        self.htval = csr.htval.read();
        self.hgatp = csr.hgatp.read();
        self.hvip = csr.hvip.read();
        self.vsstatus = csr.vsstatus.read();
        self.vsie = csr.vsie.read();
        self.vstvec = csr.vstvec.read();
        self.vsscratch = csr.vsscratch.read();
        self.vsepc = csr.vsepc.read();
        self.vscause = csr.vscause.read();
        self.vstval = csr.vstval.read();
        self.vsatp = csr.vsatp.read();
    }

    /// Writes every saved control and status register from this state to the
    /// bank.
    pub fn load_control_status_registers_from_main_memory(&self, csr: &mut ControlStatusRegisters)
        ensures
            final(csr)@ == self.restored_to(old(csr)@),
    {
        csr.mepc.set(self.mepc);
        csr.mstatus.set(self.mstatus);
        csr.sstatus.set(self.sstatus);
        csr.sepc.set(self.sepc);
        csr.scause.set(self.scause);
        csr.stvec.set(self.stvec);
        csr.stval.set(self.stval);
        csr.hstatus.set(self.hstatus);
        csr.htval.set(self.htval);
        csr.hgatp.set(self.hgatp);
        csr.hvip.set(self.hvip);
        csr.vsstatus.set(self.vsstatus);
        csr.vsie.set(self.vsie);
        csr.vstvec.set(self.vstvec);
        csr.vsscratch.set(self.vsscratch);
        csr.vsepc.set(self.vsepc);
        csr.vscause.set(self.vscause);
        csr.vstval.set(self.vstval);
        csr.vsatp.set(self.vsatp);
    }
}

} // verus!
