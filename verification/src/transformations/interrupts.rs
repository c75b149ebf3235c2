//! Interrupts that cross the boundary between a guest and the hypervisor.

use vstd::prelude::*;
use crate::architecture::control_status_registers::ControlStatusRegisters;

verus! {

/// An interrupt that the hypervisor must handle, by its cause code.
#[derive(Clone, Copy, Debug, PartialEq, Eq, Structural)]
pub struct InterruptRequest {
    pub code: u64,
}

impl InterruptRequest {
    pub fn new(code: u64) -> (request: Self)
        ensures
            request.code == code,
    {
        InterruptRequest { code }
    }

    pub fn code(&self) -> (value: u64)
        ensures
            value == self.code,
    {
        self.code
    }
}

/// The interrupts that a guest enabled, as its `vsie` register holds them.
#[derive(Clone, Copy, Debug, PartialEq, Eq, Structural)]
pub struct EnabledInterrupts {
    pub vsie: u64,
}

impl EnabledInterrupts {
    /// The interrupts that are enabled in a bank of registers.
    pub fn new(csr: &ControlStatusRegisters) -> (interrupts: Self)
        ensures
            interrupts.vsie == csr@.vsie,
    {
        EnabledInterrupts { vsie: csr.vsie.read() }
    }
}

/// The interrupts that the hypervisor injects into its guest, as the `hvip`
/// register holds them.
#[derive(Clone, Copy, Debug, PartialEq, Eq, Structural)]
pub struct InjectedInterrupts {
    pub hvip: u64,
}

impl InjectedInterrupts {
    /// The interrupts that are pending for injection in a bank of registers.
    pub fn new(csr: &ControlStatusRegisters) -> (interrupts: Self)
        ensures
            interrupts.hvip == csr@.hvip,
    {
        InjectedInterrupts { hvip: csr.hvip.read() }
    }

    pub fn hvip(&self) -> (value: u64)
        ensures
            value == self.hvip,
    {
        self.hvip
    }
}

} // verus!
