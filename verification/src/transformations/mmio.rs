//! Accesses of a guest to devices that the hypervisor emulates.

use vstd::prelude::*;
use crate::architecture::general_purpose_registers::GeneralPurposeRegister;

verus! {

/// A load from a device: the cause code of the fault, the faulting address as
/// `stval` and `htval` give it, and the encoding of the load instruction.
#[derive(Clone, Copy, Debug, PartialEq, Eq, Structural)]
pub struct MmioLoadRequest {
    pub code: u64,
    pub stval: u64,
    pub htval: u64,
    pub instruction: u64,
}

impl MmioLoadRequest {
    pub fn new(code: u64, stval: u64, htval: u64, instruction: u64) -> (request: Self)
        ensures
            request == (MmioLoadRequest { code, stval, htval, instruction }),
    {
        MmioLoadRequest { code, stval, htval, instruction }
    }

    pub fn code(&self) -> (value: u64)
        ensures
            value == self.code,
    {
        self.code
    }

    pub fn stval(&self) -> (value: u64)
        ensures
            value == self.stval,
    {
        self.stval
    }

    pub fn htval(&self) -> (value: u64)
        ensures
            value == self.htval,
    {
        self.htval
    }

    pub fn instruction(&self) -> (value: u64)
        ensures
            value == self.instruction,
    {
        self.instruction
    }
}

/// A store to a device: what a load holds, and the register that the store
/// instruction reads with the value it holds.
#[derive(Clone, Copy, Debug, PartialEq, Eq, Structural)]
pub struct MmioStoreRequest {
    pub code: u64,
    pub stval: u64,
    pub htval: u64,
    pub instruction: u64,
    pub gpr: GeneralPurposeRegister,
    pub gpr_value: u64,
}

impl MmioStoreRequest {
    pub fn new(
        code: u64,
        stval: u64,
        htval: u64,
        instruction: u64,
        gpr: GeneralPurposeRegister,
        gpr_value: u64,
    ) -> (request: Self)
        ensures
            request == (MmioStoreRequest { code, stval, htval, instruction, gpr, gpr_value }),
    {
        MmioStoreRequest { code, stval, htval, instruction, gpr, gpr_value }
    }

    pub fn code(&self) -> (value: u64)
        ensures
            value == self.code,
    {
        self.code
    }

    pub fn stval(&self) -> (value: u64)
        ensures
            value == self.stval,
    {
        self.stval
    }

    pub fn htval(&self) -> (value: u64)
        ensures
            value == self.htval,
    {
        self.htval
    }

    pub fn instruction(&self) -> (value: u64)
        ensures
            value == self.instruction,
    {
        self.instruction
    }

    pub fn gpr(&self) -> (register: GeneralPurposeRegister)
        ensures
            register == self.gpr,
    {
        self.gpr
    }

    pub fn gpr_value(&self) -> (value: u64)
        ensures
            value == self.gpr_value,
    {
        self.gpr_value
    }
}

} // verus!
